use chrome_lens_ocr::model::{GeometryData, LensResult};
use chrome_lens_ocr::normalize::{extract_translation, normalize, parse_line, parse_paragraph, parse_word};
use chrome_lens_ocr::response::{
    CenterRotatedBox, DeepGleam, Geometry, LensOverlayObjectsResponse, LensOverlayServerResponse,
    TextInfo, TextLayout, TextLayoutLine, TextLayoutParagraph, TextLayoutWord, TranslationData,
    TranslationStatus, TRANSLATION_STATUS_SUCCESS,
};

fn word(text: &str, sep: Option<&str>) -> TextLayoutWord {
    TextLayoutWord {
        plain_text: text.to_string(),
        text_separator: sep.map(|s| s.to_string()),
        geometry: None,
    }
}

fn line(words: Vec<TextLayoutWord>) -> TextLayoutLine {
    TextLayoutLine { words, geometry: None }
}

fn paragraph(lines: Vec<TextLayoutLine>) -> TextLayoutParagraph {
    TextLayoutParagraph { lines, geometry: None }
}

fn response_with(paragraphs: Vec<TextLayoutParagraph>, gleams: Vec<DeepGleam>) -> LensOverlayServerResponse {
    LensOverlayServerResponse {
        objects_response: Some(LensOverlayObjectsResponse {
            text: Some(TextInfo { text_layout: Some(TextLayout { paragraphs }) }),
            deep_gleams: gleams,
        }),
    }
}

fn gleam(code: Option<i32>, text: &str) -> DeepGleam {
    DeepGleam {
        translation: Some(TranslationData {
            translation: text.to_string(),
            status: code.map(|c| TranslationStatus { code: c }),
        }),
    }
}

#[test]
fn line_text_hello_world() {
    let l = line(vec![word("Hello", Some(" ")), word("World", Some(""))]);
    let parsed = parse_line(&l);
    assert_eq!(parsed.text, "Hello World");
    assert_eq!(parsed.words.len(), 2);
    assert_eq!(parsed.words[0].text, "Hello");
    assert_eq!(parsed.words[0].separator, " ");
    assert_eq!(parsed.words[1].text, "World");
    assert_eq!(parsed.words[1].separator, "");
}

#[test]
fn paragraph_text_joins_lines_with_newline() {
    let l1 = line(vec![word("Hello", Some(" ")), word("World", Some(""))]);
    let l2 = line(vec![word("Hello", Some(" ")), word("World", Some(""))]);
    let p = parse_paragraph(&paragraph(vec![l1, l2]));
    assert_eq!(p.text, "Hello World\nHello World");
    assert_eq!(p.lines.len(), 2);
}

#[test]
fn full_text_joins_paragraphs_with_newline() {
    let mk_para = || {
        paragraph(vec![
            line(vec![word("Hello", Some(" ")), word("World", Some(""))]),
            line(vec![word("Hello", Some(" ")), word("World", Some(""))]),
        ])
    };
    let resp = response_with(vec![mk_para(), mk_para()], vec![]);
    let result = normalize(&resp);
    assert_eq!(result.full_text, "Hello World\nHello World\nHello World\nHello World");
    assert_eq!(result.paragraphs.len(), 2);
    assert!(result.translation.is_none());
}

#[test]
fn line_text_is_trimmed_but_word_text_is_not() {
    let l = line(vec![word(" padded ", None), word("x", Some("\t"))]);
    let parsed = parse_line(&l);
    assert_eq!(parsed.words[0].text, " padded ");
    assert_eq!(parsed.words[0].separator, "");
    assert_eq!(parsed.text, "padded x");
}

#[test]
fn line_trim_handles_unicode_whitespace() {
    let l = line(vec![word("\u{00A0}hi", Some("\u{3000}"))]);
    let parsed = parse_line(&l);
    assert_eq!(parsed.text, "hi");
}

#[test]
fn separator_defaults_to_empty_when_absent() {
    let w = parse_word(&word("abc", None));
    assert_eq!(w.separator, "");
    assert_eq!(w.text, "abc");
}

#[test]
fn non_whitespace_separator_is_kept_inside_line() {
    let l = line(vec![word("a", Some("--")), word("b", None)]);
    let parsed = parse_line(&l);
    assert_eq!(parsed.text, "a--b");
}

#[test]
fn geometry_absent_at_every_level_independently() {
    let mut w = word("x", None);
    w.geometry = Some(Geometry { bounding_box: None });
    let l = TextLayoutLine { words: vec![w], geometry: None };
    let p = TextLayoutParagraph { lines: vec![l], geometry: Some(Geometry { bounding_box: None }) };
    let parsed = parse_paragraph(&p);
    assert!(parsed.geometry.is_none());
    assert!(parsed.lines[0].geometry.is_none());
    assert!(parsed.lines[0].words[0].geometry.is_none());
}

#[test]
fn geometry_box_is_copied_verbatim() {
    let rot = std::f32::consts::FRAC_PI_2.to_bits();
    let bb = CenterRotatedBox {
        center_x: 0.5f32.to_bits(),
        center_y: 0.25f32.to_bits(),
        width: 0.1f32.to_bits(),
        height: 0.2f32.to_bits(),
        rotation_z: rot,
    };
    let mut w = word("x", None);
    w.geometry = Some(Geometry { bounding_box: Some(bb) });
    let parsed = parse_word(&w);
    let g: GeometryData = parsed.geometry.unwrap();
    assert_eq!(g.center_x, 0.5f32.to_bits());
    assert_eq!(g.center_y, 0.25f32.to_bits());
    assert_eq!(g.width, 0.1f32.to_bits());
    assert_eq!(g.height, 0.2f32.to_bits());
    assert_eq!(g.rotation_z, rot);
    let angle_deg = f32::from_bits(g.rotation_z) * (180.0 / std::f32::consts::PI);
    assert!((angle_deg - 90.0).abs() < 1e-4);
}

#[test]
fn translation_keeps_success_entries_in_order() {
    let gleams = vec![
        gleam(Some(TRANSLATION_STATUS_SUCCESS), "A"),
        gleam(Some(2), "B"),
        gleam(Some(TRANSLATION_STATUS_SUCCESS), "C"),
    ];
    let resp = response_with(vec![], gleams);
    assert_eq!(extract_translation(&resp), Some("A\nC".to_string()));
}

#[test]
fn translation_is_absent_not_empty_when_nothing_qualifies() {
    let gleams = vec![
        gleam(Some(TRANSLATION_STATUS_SUCCESS), ""),
        gleam(Some(2), "B"),
        gleam(None, "C"),
        DeepGleam { translation: None },
    ];
    let resp = response_with(vec![], gleams);
    assert_eq!(extract_translation(&resp), None);
    let result = normalize(&resp);
    assert!(result.translation.is_none());
}

#[test]
fn empty_response_yields_empty_result() {
    let bare = LensOverlayServerResponse { objects_response: None };
    let r1: LensResult = normalize(&bare);
    assert_eq!(r1.full_text, "");
    assert!(r1.paragraphs.is_empty());
    assert!(r1.translation.is_none());

    let structurally_valid = response_with(vec![], vec![]);
    let r2 = normalize(&structurally_valid);
    assert_eq!(r2.full_text, "");
    assert!(r2.paragraphs.is_empty());
    assert!(r2.translation.is_none());

    let no_layout = LensOverlayServerResponse {
        objects_response: Some(LensOverlayObjectsResponse {
            text: Some(TextInfo { text_layout: None }),
            deep_gleams: vec![],
        }),
    };
    let r3 = normalize(&no_layout);
    assert_eq!(r3.full_text, "");
    assert!(r3.paragraphs.is_empty());
}

#[test]
fn whitespace_only_text_trims_to_empty() {
    let resp = response_with(vec![paragraph(vec![line(vec![word(" ", Some(" "))])])], vec![]);
    let result = normalize(&resp);
    assert_eq!(result.full_text, "");
    assert_eq!(result.paragraphs.len(), 1);
    assert_eq!(result.paragraphs[0].text, "");
}

#[test]
fn normalize_is_deterministic() {
    let resp = response_with(
        vec![paragraph(vec![line(vec![word("Hej", Some(" ")), word("du", None)])])],
        vec![gleam(Some(TRANSLATION_STATUS_SUCCESS), "Hello you")],
    );
    let a = normalize(&resp);
    let b = normalize(&resp);
    assert_eq!(a, b);
}

#[test]
fn ocr_without_translation_still_full_result() {
    let resp = response_with(vec![paragraph(vec![line(vec![word("solo", None)])])], vec![]);
    let result = normalize(&resp);
    assert_eq!(result.full_text, "solo");
    assert_eq!(result.paragraphs.len(), 1);
    assert!(result.translation.is_none());
}
