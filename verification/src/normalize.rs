use vstd::prelude::*;

use crate::model::{
    GeometryData, LensResult, LensResultV, Line, LineV, Paragraph, ParagraphV, Word, WordV,
    opt_str_view,
};
use crate::response::{
    CenterRotatedBox, DeepGleam, Geometry, LensOverlayObjectsResponse, LensOverlayServerResponse,
    TextInfo, TextLayout, TextLayoutLine, TextLayoutParagraph, TextLayoutWord, TranslationData,
    TranslationStatus, TRANSLATION_STATUS_SUCCESS,
};
use crate::text::{join_nl, lemma_join_nl_push, trim, trim_str};

verus! {

// The response normalizer: a deterministic, total function from the decoded
// response tree to the client-facing result. The spec functions below are
// the mathematical statement of the flattening rules; each executable
// function's contract says its result is exactly what they define.

/// A word's separator, the empty sequence when the server omitted it.
pub open spec fn sep_seq(w: TextLayoutWord) -> Seq<char> {
    match w.text_separator {
        Some(s) => s@,
        None => Seq::<char>::empty(),
    }
}

/// The geometry kept for an element: the bounding box's scalars copied
/// verbatim, or nothing when the box is absent.
pub open spec fn box_geom(g: Geometry) -> Option<GeometryData> {
    match g.bounding_box {
        None => None,
        Some(bb) => Some(
            GeometryData {
                center_x: bb.center_x,
                center_y: bb.center_y,
                width: bb.width,
                height: bb.height,
                rotation_z: bb.rotation_z,
            },
        ),
    }
}

/// Geometry of an element whose geometry field may itself be absent.
pub open spec fn geom_of(g: Option<Geometry>) -> Option<GeometryData> {
    match g {
        None => None,
        Some(gg) => box_geom(gg),
    }
}

/// What the normalizer makes of one word: text untouched, separator
/// defaulted to empty, geometry converted.
pub open spec fn word_of(w: TextLayoutWord) -> WordV {
    WordV { text: w.plain_text@, separator: sep_seq(w), geometry: geom_of(w.geometry) }
}

/// The concatenation of each word's text immediately followed by its
/// separator, in order.
pub open spec fn flat(ws: Seq<TextLayoutWord>) -> Seq<char>
    decreases ws.len(),
{
    if ws.len() == 0 {
        Seq::<char>::empty()
    } else {
        flat(ws.drop_last()) + ws.last().plain_text@ + sep_seq(ws.last())
    }
}

/// What the normalizer makes of one line: its text is the trimmed
/// word/separator concatenation.
pub open spec fn line_of(l: TextLayoutLine) -> LineV {
    LineV {
        text: trim(flat(l.words@)),
        words: l.words@.map_values(|w: TextLayoutWord| word_of(w)),
        geometry: geom_of(l.geometry),
    }
}

/// The texts of a list of lines, in order.
pub open spec fn line_texts(ls: Seq<TextLayoutLine>) -> Seq<Seq<char>> {
    ls.map_values(|l: TextLayoutLine| line_of(l).text)
}

/// What the normalizer makes of one paragraph: its text is the line texts
/// joined by single newlines.
pub open spec fn para_of(p: TextLayoutParagraph) -> ParagraphV {
    ParagraphV {
        text: join_nl(line_texts(p.lines@)),
        lines: p.lines@.map_values(|l: TextLayoutLine| line_of(l)),
        geometry: geom_of(p.geometry),
    }
}

/// The texts of a list of paragraphs, in order.
pub open spec fn para_texts(ps: Seq<TextLayoutParagraph>) -> Seq<Seq<char>> {
    ps.map_values(|p: TextLayoutParagraph| para_of(p).text)
}

/// The paragraphs the response carries, in server order; empty when any
/// level of the OCR section is absent.
pub open spec fn layout_paragraphs(t: LensOverlayServerResponse) -> Seq<TextLayoutParagraph> {
    match t.objects_response {
        None => Seq::<TextLayoutParagraph>::empty(),
        Some(o) => match o.text {
            None => Seq::<TextLayoutParagraph>::empty(),
            Some(tx) => match tx.text_layout {
                None => Seq::<TextLayoutParagraph>::empty(),
                Some(lay) => lay.paragraphs@,
            },
        },
    }
}

/// Whether a gleam entry contributes to the translation: it carries
/// translation data, the status is the success code, and the text is
/// non-empty.
pub open spec fn qualifies(g: DeepGleam) -> bool {
    match g.translation {
        Some(td) => match td.status {
            Some(st) => st.code == TRANSLATION_STATUS_SUCCESS && td.translation@.len() > 0,
            None => false,
        },
        None => false,
    }
}

/// The translated text a gleam entry carries.
pub open spec fn gleam_text(g: DeepGleam) -> Seq<char> {
    match g.translation {
        Some(td) => td.translation@,
        None => Seq::<char>::empty(),
    }
}

/// The texts of the qualifying gleam entries, in server order.
pub open spec fn gleam_texts(gs: Seq<DeepGleam>) -> Seq<Seq<char>>
    decreases gs.len(),
{
    if gs.len() == 0 {
        Seq::<Seq<char>>::empty()
    } else if qualifies(gs.last()) {
        gleam_texts(gs.drop_last()).push(gleam_text(gs.last()))
    } else {
        gleam_texts(gs.drop_last())
    }
}

/// The gleam entries the response carries, in server order.
pub open spec fn response_gleams(t: LensOverlayServerResponse) -> Seq<DeepGleam> {
    match t.objects_response {
        None => Seq::<DeepGleam>::empty(),
        Some(o) => o.deep_gleams@,
    }
}

/// The translation of a response: the qualifying texts joined by newlines,
/// absent (never empty) when no entry qualifies.
pub open spec fn translation_of(t: LensOverlayServerResponse) -> Option<Seq<char>> {
    if gleam_texts(response_gleams(t)).len() == 0 {
        None
    } else {
        Some(join_nl(gleam_texts(response_gleams(t))))
    }
}

/// The whole normalization: full text is the paragraph texts joined by
/// newlines and trimmed overall; paragraphs keep server order; the
/// translation is extracted independently.
pub open spec fn normalize_spec(t: LensOverlayServerResponse) -> LensResultV {
    LensResultV {
        full_text: trim(join_nl(para_texts(layout_paragraphs(t)))),
        paragraphs: layout_paragraphs(t).map_values(|p: TextLayoutParagraph| para_of(p)),
        translation: translation_of(t),
    }
}

/// Appending a word extends the flattened text by that word's text and
/// separator.
pub proof fn lemma_flat_push(ws: Seq<TextLayoutWord>, w: TextLayoutWord)
    ensures
        flat(ws.push(w)) == flat(ws) + w.plain_text@ + sep_seq(w),
{
    let p = ws.push(w);
    assert(p.drop_last() =~= ws);
    assert(p.last() == w);
}

/// Appending a gleam entry appends its text exactly when it qualifies.
pub proof fn lemma_gleam_texts_push(gs: Seq<DeepGleam>, g: DeepGleam)
    ensures
        qualifies(g) ==> gleam_texts(gs.push(g)) == gleam_texts(gs).push(gleam_text(g)),
        !qualifies(g) ==> gleam_texts(gs.push(g)) == gleam_texts(gs),
{
    let p = gs.push(g);
    assert(p.drop_last() =~= gs);
    assert(p.last() == g);
}

/// Every text collected from the gleam entries is non-empty.
pub proof fn lemma_gleam_texts_all_nonempty(gs: Seq<DeepGleam>)
    ensures
        forall|i: int| 0 <= i < gleam_texts(gs).len() ==> #[trigger] gleam_texts(gs)[i].len() > 0,
    decreases gs.len(),
{
    if gs.len() == 0 {
    } else {
        lemma_gleam_texts_all_nonempty(gs.drop_last());
        let pre = gleam_texts(gs.drop_last());
        if qualifies(gs.last()) {
            assert(gleam_text(gs.last()).len() > 0);
            assert forall|i: int| 0 <= i < gleam_texts(gs).len() implies #[trigger] gleam_texts(
                gs,
            )[i].len() > 0 by {
                if i < pre.len() {
                    assert(gleam_texts(gs)[i] == pre[i]);
                } else {
                    assert(gleam_texts(gs)[i] == gleam_text(gs.last()));
                }
            }
        }
    }
}

/// Converts a geometry node: the box's scalars verbatim, or nothing when
/// the box is absent.
pub fn parse_geometry(g: &Geometry) -> (r: Option<GeometryData>)
    ensures
        r == box_geom(*g),
{
    match &g.bounding_box {
        None => None,
        Some(bb) => Some(
            GeometryData {
                center_x: bb.center_x,
                center_y: bb.center_y,
                width: bb.width,
                height: bb.height,
                rotation_z: bb.rotation_z,
            },
        ),
    }
}

/// Converts an element's optional geometry field.
pub fn parse_opt_geometry(g: &Option<Geometry>) -> (r: Option<GeometryData>)
    ensures
        r == geom_of(*g),
{
    match g {
        None => None,
        Some(gg) => parse_geometry(gg),
    }
}

/// Normalizes one word.
pub fn parse_word(w: &TextLayoutWord) -> (r: Word)
    ensures
        r@ == word_of(*w),
{
    let sep: String = match &w.text_separator {
        Some(s) => s.clone(),
        None => String::new(),
    };
    let geometry = parse_opt_geometry(&w.geometry);
    Word { text: w.plain_text.clone(), separator: sep, geometry }
}

/// Normalizes one line: words in order, text reassembled and trimmed.
pub fn parse_line(l: &TextLayoutLine) -> (r: Line)
    ensures
        r@ == line_of(*l),
{
    let mut words_list: Vec<Word> = Vec::new();
    let mut buf = String::new();
    let n = l.words.len();
    let mut k: usize = 0;
    while k < n
        invariant
            k <= n,
            n == l.words@.len(),
            words_list@.len() == k,
            forall|i: int| 0 <= i < k ==> #[trigger] words_list@[i]@ == word_of(l.words@[i]),
            buf@ == flat(l.words@.take(k as int)),
        decreases n - k,
    {
        let w = parse_word(&l.words[k]);
        buf.append(w.text.as_str());
        buf.append(w.separator.as_str());
        proof {
            assert(l.words@.take(k as int).push(l.words@[k as int]) =~= l.words@.take(k + 1));
            lemma_flat_push(l.words@.take(k as int), l.words@[k as int]);
        }
        words_list.push(w);
        k = k + 1;
    }
    let text = trim_str(buf.as_str());
    let geometry = parse_opt_geometry(&l.geometry);
    let r = Line { text, words: words_list, geometry };
    proof {
        assert(l.words@.take(n as int) =~= l.words@);
        assert(r@.words =~= l.words@.map_values(|w: TextLayoutWord| word_of(w)));
    }
    r
}

/// Normalizes one paragraph: lines in order, text joined by newlines.
pub fn parse_paragraph(p: &TextLayoutParagraph) -> (r: Paragraph)
    ensures
        r@ == para_of(*p),
{
    let mut lines_list: Vec<Line> = Vec::new();
    let mut buf = String::new();
    let n = p.lines.len();
    let mut k: usize = 0;
    while k < n
        invariant
            k <= n,
            n == p.lines@.len(),
            lines_list@.len() == k,
            forall|i: int| 0 <= i < k ==> #[trigger] lines_list@[i]@ == line_of(p.lines@[i]),
            buf@ == join_nl(line_texts(p.lines@.take(k as int))),
        decreases n - k,
    {
        let ln = parse_line(&p.lines[k]);
        if k > 0 {
            buf.append("\n");
        }
        buf.append(ln.text.as_str());
        proof {
            reveal_strlit("\n");
            assert(("\n")@ =~= seq!['\n']);
            assert(p.lines@.take(k as int).push(p.lines@[k as int]) =~= p.lines@.take(k + 1));
            assert(line_texts(p.lines@.take(k + 1)) =~= line_texts(p.lines@.take(k as int)).push(
                line_of(p.lines@[k as int]).text,
            ));
            lemma_join_nl_push(line_texts(p.lines@.take(k as int)), line_of(p.lines@[k as int]).text);
        }
        lines_list.push(ln);
        k = k + 1;
    }
    let geometry = parse_opt_geometry(&p.geometry);
    let r = Paragraph { text: buf, lines: lines_list, geometry };
    proof {
        assert(p.lines@.take(n as int) =~= p.lines@);
        assert(line_texts(p.lines@.take(n as int)) =~= line_texts(p.lines@));
        assert(r@.lines =~= p.lines@.map_values(|l: TextLayoutLine| line_of(l)));
    }
    r
}

/// Normalizes a list of paragraphs, also returning their texts joined by
/// newlines (the untrimmed full text).
pub fn parse_paragraph_list(ps: &Vec<TextLayoutParagraph>) -> (r: (Vec<Paragraph>, String))
    ensures
        r.0@.len() == ps@.len(),
        forall|i: int| 0 <= i < ps@.len() ==> #[trigger] r.0@[i]@ == para_of(ps@[i]),
        r.1@ == join_nl(para_texts(ps@)),
{
    let mut paragraphs_list: Vec<Paragraph> = Vec::new();
    let mut buf = String::new();
    let n = ps.len();
    let mut k: usize = 0;
    while k < n
        invariant
            k <= n,
            n == ps@.len(),
            paragraphs_list@.len() == k,
            forall|i: int| 0 <= i < k ==> #[trigger] paragraphs_list@[i]@ == para_of(ps@[i]),
            buf@ == join_nl(para_texts(ps@.take(k as int))),
        decreases n - k,
    {
        let para = parse_paragraph(&ps[k]);
        if k > 0 {
            buf.append("\n");
        }
        buf.append(para.text.as_str());
        proof {
            reveal_strlit("\n");
            assert(("\n")@ =~= seq!['\n']);
            assert(ps@.take(k as int).push(ps@[k as int]) =~= ps@.take(k + 1));
            assert(para_texts(ps@.take(k + 1)) =~= para_texts(ps@.take(k as int)).push(
                para_of(ps@[k as int]).text,
            ));
            lemma_join_nl_push(para_texts(ps@.take(k as int)), para_of(ps@[k as int]).text);
        }
        paragraphs_list.push(para);
        k = k + 1;
    }
    proof {
        assert(ps@.take(n as int) =~= ps@);
        assert(para_texts(ps@.take(n as int)) =~= para_texts(ps@));
    }
    (paragraphs_list, buf)
}

/// Extracts the translation: the texts of the qualifying gleam entries, in
/// server order, joined by newlines; `None` when no entry qualifies.
pub fn extract_translation(response: &LensOverlayServerResponse) -> (r: Option<String>)
    ensures
        opt_str_view(r) == translation_of(*response),
{
    let gleams: &Vec<DeepGleam> = match &response.objects_response {
        Some(o) => &o.deep_gleams,
        None => {
            return None;
        },
    };
    let n = gleams.len();
    let mut buf = String::new();
    let mut count: usize = 0;
    let mut k: usize = 0;
    while k < n
        invariant
            k <= n,
            n == gleams@.len(),
            gleams@ == response_gleams(*response),
            count <= k,
            count as int == gleam_texts(gleams@.take(k as int)).len(),
            buf@ == join_nl(gleam_texts(gleams@.take(k as int))),
        decreases n - k,
    {
        match &gleams[k].translation {
            Some(td) => match &td.status {
                Some(st) => {
                    if st.code == TRANSLATION_STATUS_SUCCESS && !td.translation.as_str().is_empty()
                    {
                        if count > 0 {
                            buf.append("\n");
                        }
                        buf.append(td.translation.as_str());
                        count = count + 1;
                    }
                },
                None => {},
            },
            None => {},
        }
        proof {
            reveal_strlit("\n");
            assert(("\n")@ =~= seq!['\n']);
            assert(gleams@.take(k as int).push(gleams@[k as int]) =~= gleams@.take(k + 1));
            lemma_gleam_texts_push(gleams@.take(k as int), gleams@[k as int]);
            if qualifies(gleams@[k as int]) {
                lemma_join_nl_push(
                    gleam_texts(gleams@.take(k as int)),
                    gleam_text(gleams@[k as int]),
                );
            }
        }
        k = k + 1;
    }
    proof {
        assert(gleams@.take(n as int) =~= gleams@);
    }
    if count == 0 {
        None
    } else {
        Some(buf)
    }
}

/// Normalizes a decoded response into the client-facing result. The result
/// is exactly `normalize_spec` of the input: a pure function of the
/// response tree alone.
pub fn normalize(response: &LensOverlayServerResponse) -> (r: LensResult)
    ensures
        r@ == normalize_spec(*response),
{
    let layout_paras: Option<&Vec<TextLayoutParagraph>> = match &response.objects_response {
        Some(o) => match &o.text {
            Some(tx) => match &tx.text_layout {
                Some(lay) => Some(&lay.paragraphs),
                None => None,
            },
            None => None,
        },
        None => None,
    };
    proof {
        assert(match layout_paras {
            Some(v) => v@ == layout_paragraphs(*response),
            None => layout_paragraphs(*response).len() == 0,
        });
    }
    let (paragraphs_list, buf): (Vec<Paragraph>, String) = match layout_paras {
        Some(ps) => parse_paragraph_list(ps),
        None => (Vec::new(), String::new()),
    };
    proof {
        if layout_paras is None {
            assert(layout_paragraphs(*response) =~= Seq::<TextLayoutParagraph>::empty());
            assert(para_texts(layout_paragraphs(*response)) =~= Seq::<Seq<char>>::empty());
        }
        assert(buf@ == join_nl(para_texts(layout_paragraphs(*response))));
    }
    let full_text = trim_str(buf.as_str());
    let translation = extract_translation(response);
    let r = LensResult { full_text, paragraphs: paragraphs_list, translation };
    proof {
        assert(r@.paragraphs =~= layout_paragraphs(*response).map_values(
            |p: TextLayoutParagraph| para_of(p),
        ));
    }
    r
}

} // verus!
