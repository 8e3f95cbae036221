use vstd::prelude::*;

verus! {

// Text assembly rules shared by the whole normalizer: which characters count
// as whitespace, how leading/trailing whitespace is trimmed, and how a list
// of text fragments is joined with newlines.

/// The Unicode `White_Space` code points, the set that Rust's
/// `char::is_whitespace` recognizes.
pub open spec fn is_space_code(u: u32) -> bool {
    u == 0x9 || u == 0xA || u == 0xB || u == 0xC || u == 0xD || u == 0x20 || u == 0x85
        || u == 0xA0 || u == 0x1680 || (0x2000 <= u && u <= 0x200A) || u == 0x2028 || u == 0x2029
        || u == 0x202F || u == 0x205F || u == 0x3000
}

/// Whether a character is whitespace for the purposes of trimming.
pub open spec fn is_space(c: char) -> bool {
    is_space_code(c as u32)
}

/// Executable whitespace test, equal to the spec-level `is_space`.
pub fn is_space_char(c: char) -> (r: bool)
    ensures
        r == is_space(c),
{
    let u = c as u32;
    u == 0x9 || u == 0xA || u == 0xB || u == 0xC || u == 0xD || u == 0x20 || u == 0x85
        || u == 0xA0 || u == 0x1680 || (0x2000 <= u && u <= 0x200A) || u == 0x2028 || u == 0x2029
        || u == 0x202F || u == 0x205F || u == 0x3000
}

/// The sequence with its leading whitespace removed.
pub open spec fn trim_front(s: Seq<char>) -> Seq<char>
    decreases s.len(),
{
    if s.len() > 0 && is_space(s[0]) {
        trim_front(s.drop_first())
    } else {
        s
    }
}

/// The sequence with its trailing whitespace removed.
pub open spec fn trim_back(s: Seq<char>) -> Seq<char>
    decreases s.len(),
{
    if s.len() > 0 && is_space(s[s.len() - 1]) {
        trim_back(s.drop_last())
    } else {
        s
    }
}

/// The sequence with leading and trailing whitespace removed, as Rust's
/// `str::trim` produces it.
pub open spec fn trim(s: Seq<char>) -> Seq<char> {
    trim_back(trim_front(s))
}

/// Fragments joined with a single newline between neighbours (no trailing
/// newline), as `[..].join("\n")` produces it.
pub open spec fn join_nl(ts: Seq<Seq<char>>) -> Seq<char>
    decreases ts.len(),
{
    if ts.len() == 0 {
        Seq::<char>::empty()
    } else if ts.len() == 1 {
        ts[0]
    } else {
        ts[0] + seq!['\n'] + join_nl(ts.drop_first())
    }
}

/// If everything before index `i` is whitespace and `i` is the end or a
/// non-whitespace character, trimming the front keeps exactly the suffix
/// from `i`.
pub proof fn lemma_trim_front_all(s: Seq<char>, i: int)
    requires
        0 <= i <= s.len(),
        forall|k: int| 0 <= k < i ==> is_space(s[k]),
        i == s.len() || !is_space(s[i]),
    ensures
        trim_front(s) == s.subrange(i, s.len() as int),
    decreases i,
{
    if i == 0 {
        assert(s.subrange(0, s.len() as int) =~= s);
    } else {
        assert(is_space(s[0]));
        let t = s.drop_first();
        assert(forall|k: int| 0 <= k < i - 1 ==> is_space(#[trigger] t[k]));
        lemma_trim_front_all(t, i - 1);
        assert(t.subrange(i - 1, t.len() as int) =~= s.subrange(i, s.len() as int));
    }
}

/// If everything from index `j` on is whitespace and `j` is the start or
/// preceded by a non-whitespace character, trimming the back keeps exactly
/// the prefix up to `j`.
pub proof fn lemma_trim_back_all(s: Seq<char>, j: int)
    requires
        0 <= j <= s.len(),
        forall|k: int| j <= k < s.len() ==> is_space(s[k]),
        j == 0 || !is_space(s[j - 1]),
    ensures
        trim_back(s) == s.subrange(0, j),
    decreases s.len() - j,
{
    if j == s.len() {
        if s.len() > 0 {
            assert(!is_space(s[s.len() - 1]));
        }
        assert(s.subrange(0, j) =~= s);
    } else {
        assert(is_space(s[s.len() - 1]));
        let t = s.drop_last();
        assert(forall|k: int| j <= k < t.len() ==> is_space(#[trigger] t[k]));
        lemma_trim_back_all(t, j);
        assert(t.subrange(0, j) =~= s.subrange(0, j));
    }
}

/// Appending a fragment to a non-empty list adds a separating newline.
pub proof fn lemma_join_nl_push(ts: Seq<Seq<char>>, t: Seq<char>)
    ensures
        ts.len() == 0 ==> join_nl(ts.push(t)) == t,
        ts.len() > 0 ==> join_nl(ts.push(t)) == join_nl(ts) + seq!['\n'] + t,
    decreases ts.len(),
{
    let p = ts.push(t);
    if ts.len() == 0 {
        assert(p[0] == t);
    } else if ts.len() == 1 {
        assert(p.len() == 2);
        assert(p.drop_first() =~= ts.drop_first().push(t));
        assert(ts.drop_first().push(t) =~= seq![t]);
        assert(join_nl(seq![t]) == t);
        assert(p[0] == ts[0]);
        assert(join_nl(ts) == ts[0]);
    } else {
        assert(p.drop_first() =~= ts.drop_first().push(t));
        lemma_join_nl_push(ts.drop_first(), t);
        assert(p[0] == ts[0]);
        assert(join_nl(p) == p[0] + seq!['\n'] + join_nl(p.drop_first()));
        assert(join_nl(ts.drop_first()) + seq!['\n'] + t == (join_nl(ts.drop_first()) + seq![
            '\n',
        ]) + t);
        assert(ts[0] + seq!['\n'] + (join_nl(ts.drop_first()) + seq!['\n'] + t) =~= (ts[0] + seq![
            '\n',
        ] + join_nl(ts.drop_first())) + seq!['\n'] + t);
    }
}

/// A join of at least one fragment whose fragments are all non-empty is
/// itself non-empty.
pub proof fn lemma_join_nl_nonempty(ts: Seq<Seq<char>>)
    requires
        ts.len() > 0,
        ts[0].len() > 0,
    ensures
        join_nl(ts).len() > 0,
{
    if ts.len() == 1 {
    } else {
        assert(join_nl(ts).len() >= ts[0].len() + 1);
    }
}

/// Trims a string of its leading and trailing whitespace; the result is the
/// spec-level `trim` of the input.
pub fn trim_str(s: &str) -> (r: String)
    ensures
        r@ == trim(s@),
{
    let n = s.unicode_len();
    let mut i: usize = 0;
    while i < n && is_space_char(s.get_char(i))
        invariant
            0 <= i <= n,
            n == s@.len(),
            forall|k: int| 0 <= k < i ==> is_space(s@[k]),
        decreases n - i,
    {
        i = i + 1;
    }
    let mut j: usize = n;
    while j > i && is_space_char(s.get_char(j - 1))
        invariant
            i <= j <= n,
            n == s@.len(),
            forall|k: int| j <= k < n ==> is_space(s@[k]),
        decreases j,
    {
        j = j - 1;
    }
    proof {
        lemma_trim_front_all(s@, i as int);
        let sub = s@.subrange(i as int, n as int);
        assert(forall|k: int| (j - i) <= k < sub.len() ==> is_space(#[trigger] sub[k]));
        lemma_trim_back_all(sub, j - i);
        assert(sub.subrange(0, j - i) =~= s@.subrange(i as int, j as int));
    }
    let piece = s.substring_char(i, j);
    piece.to_owned()
}

} // verus!
