use vstd::prelude::*;

use crate::model::{LineV, ParagraphV, WordV};
use crate::normalize::{
    flat, geom_of, gleam_texts, layout_paragraphs, lemma_gleam_texts_all_nonempty, line_of,
    line_texts, normalize_spec, para_of, para_texts, qualifies, response_gleams, translation_of,
    word_of,
};
use crate::response::{
    DeepGleam, Geometry, LensOverlayServerResponse, TextLayoutLine, TextLayoutParagraph,
    TextLayoutWord,
};
use crate::text::{join_nl, lemma_join_nl_nonempty, trim};

verus! {

// The laws the normalizer obeys, stated over the result views and proved
// from the normalization spec.

/// The concatenation of each word's text immediately followed by its
/// separator, over the result model.
pub open spec fn words_concat(ws: Seq<WordV>) -> Seq<char>
    decreases ws.len(),
{
    if ws.len() == 0 {
        Seq::<char>::empty()
    } else {
        words_concat(ws.drop_last()) + ws.last().text + ws.last().separator
    }
}

/// The flattened input words and the concatenation of the normalized words
/// are the same text.
pub proof fn lemma_flat_is_words_concat(ws: Seq<TextLayoutWord>)
    ensures
        words_concat(ws.map_values(|w: TextLayoutWord| word_of(w))) == flat(ws),
    decreases ws.len(),
{
    let m = ws.map_values(|w: TextLayoutWord| word_of(w));
    if ws.len() == 0 {
        assert(m.len() == 0);
    } else {
        lemma_flat_is_words_concat(ws.drop_last());
        assert(m.drop_last() =~= ws.drop_last().map_values(|w: TextLayoutWord| word_of(w)));
        assert(m.last() == word_of(ws.last()));
    }
}

/// Normalization is deterministic: the result is a function of the
/// response tree alone, so identical inputs yield identical results.
pub proof fn lemma_normalize_deterministic(a: LensOverlayServerResponse, b: LensOverlayServerResponse)
    requires
        a == b,
    ensures
        normalize_spec(a) == normalize_spec(b),
{
}

/// Text reconstruction law, line level: a line's text is the trimmed
/// concatenation of each of its words' text immediately followed by that
/// word's separator, in order.
pub proof fn lemma_line_text_reconstruction(l: TextLayoutLine)
    ensures
        line_of(l).text == trim(words_concat(line_of(l).words)),
{
    lemma_flat_is_words_concat(l.words@);
}

/// Text reconstruction law, paragraph level: a paragraph's text is its
/// line texts joined by single newlines.
pub proof fn lemma_paragraph_text_reconstruction(p: TextLayoutParagraph)
    ensures
        para_of(p).text == join_nl(para_of(p).lines.map_values(|lv: LineV| lv.text)),
{
    assert(para_of(p).lines.map_values(|lv: LineV| lv.text) =~= line_texts(p.lines@));
}

/// Text reconstruction law, document level: the full text is the paragraph
/// texts joined by single newlines, trimmed of leading and trailing
/// whitespace overall.
pub proof fn lemma_full_text_reconstruction(t: LensOverlayServerResponse)
    ensures
        normalize_spec(t).full_text == trim(
            join_nl(normalize_spec(t).paragraphs.map_values(|pv: ParagraphV| pv.text)),
        ),
{
    assert(normalize_spec(t).paragraphs.map_values(|pv: ParagraphV| pv.text) =~= para_texts(
        layout_paragraphs(t),
    ));
}

/// Geometry absence law: at every level independently, an element gets
/// `None` geometry exactly when its geometry field or the bounding box
/// inside it is absent.
pub proof fn lemma_absent_geometry(
    w: TextLayoutWord,
    l: TextLayoutLine,
    p: TextLayoutParagraph,
)
    ensures
        word_of(w).geometry == geom_of(w.geometry),
        line_of(l).geometry == geom_of(l.geometry),
        para_of(p).geometry == geom_of(p.geometry),
        forall|g: Option<Geometry>| #[trigger] geom_of(g) is None <==> (match g {
            None => true,
            Some(gg) => gg.bounding_box is None,
        }),
{
}

/// No gleam entry qualifies exactly when the collected texts are empty.
pub proof fn lemma_gleam_texts_empty_iff(gs: Seq<DeepGleam>)
    ensures
        gleam_texts(gs).len() == 0 <==> (forall|i: int|
            0 <= i < gs.len() ==> !qualifies(#[trigger] gs[i])),
    decreases gs.len(),
{
    if gs.len() == 0 {
    } else {
        lemma_gleam_texts_empty_iff(gs.drop_last());
        let pre = gs.drop_last();
        assert(forall|i: int| 0 <= i < gs.len() - 1 ==> #[trigger] pre[i] == gs[i]);
        if gleam_texts(gs).len() == 0 {
            assert(!qualifies(gs.last()));
            assert(gleam_texts(pre).len() == 0);
            assert forall|i: int| 0 <= i < gs.len() implies !qualifies(#[trigger] gs[i]) by {
                if i < gs.len() - 1 {
                    assert(gs[i] == pre[i]);
                    assert(!qualifies(pre[i]));
                } else {
                    assert(gs[i] == gs.last());
                }
            }
        } else {
            if qualifies(gs.last()) {
                assert(qualifies(gs[gs.len() - 1]));
            } else {
                assert(gleam_texts(pre).len() > 0);
                let j = choose|j: int| 0 <= j < pre.len() && qualifies(#[trigger] pre[j]);
                assert(qualifies(gs[j]));
            }
        }
    }
}

/// Translation absence law: the translation is absent exactly when no
/// gleam entry qualifies (success status and non-empty text).
pub proof fn lemma_translation_absent_iff(t: LensOverlayServerResponse)
    ensures
        translation_of(t) is None <==> (forall|i: int|
            0 <= i < response_gleams(t).len() ==> !qualifies(#[trigger] response_gleams(t)[i])),
{
    lemma_gleam_texts_empty_iff(response_gleams(t));
}

/// Translation non-emptiness law: a translation, when present, is never
/// the empty string, since only non-empty texts qualify.
pub proof fn lemma_translation_never_empty(t: LensOverlayServerResponse)
    ensures
        match translation_of(t) {
            Some(s) => s.len() > 0,
            None => true,
        },
{
    let ts = gleam_texts(response_gleams(t));
    if ts.len() > 0 {
        lemma_gleam_texts_all_nonempty(response_gleams(t));
        assert(ts[0].len() > 0);
        lemma_join_nl_nonempty(ts);
    }
}

/// Empty-response law: a structurally valid response with no text layout
/// and no gleam entries normalizes to the empty result.
pub proof fn lemma_empty_response(t: LensOverlayServerResponse)
    requires
        layout_paragraphs(t).len() == 0,
        response_gleams(t).len() == 0,
    ensures
        normalize_spec(t).full_text == Seq::<char>::empty(),
        normalize_spec(t).paragraphs == Seq::<ParagraphV>::empty(),
        normalize_spec(t).translation is None,
{
    assert(para_texts(layout_paragraphs(t)) =~= Seq::<Seq<char>>::empty());
    assert(normalize_spec(t).paragraphs =~= Seq::<ParagraphV>::empty());
}

} // verus!
