use vstd::prelude::*;

verus! {

// The decoded wire response, as the service defines it: an optional OCR
// text layout (paragraphs, lines, words, each with optional geometry) and
// zero or more "deep gleam" entries carrying translation results. Every
// optional field is modeled as an explicit `Option`, so an absent section
// stays distinguishable from a present-but-empty one. Geometry scalars are
// IEEE-754 single-precision bit patterns, carried verbatim.

/// Status code the service uses on a translation entry that succeeded.
pub const TRANSLATION_STATUS_SUCCESS: i32 = 1;

#[derive(Debug, Clone)]
pub struct LensOverlayServerResponse {
    pub objects_response: Option<LensOverlayObjectsResponse>,
}

#[derive(Debug, Clone)]
pub struct LensOverlayObjectsResponse {
    pub text: Option<TextInfo>,
    pub deep_gleams: Vec<DeepGleam>,
}

#[derive(Debug, Clone)]
pub struct TextInfo {
    pub text_layout: Option<TextLayout>,
}

#[derive(Debug, Clone)]
pub struct TextLayout {
    pub paragraphs: Vec<TextLayoutParagraph>,
}

#[derive(Debug, Clone)]
pub struct TextLayoutParagraph {
    pub lines: Vec<TextLayoutLine>,
    pub geometry: Option<Geometry>,
}

#[derive(Debug, Clone)]
pub struct TextLayoutLine {
    pub words: Vec<TextLayoutWord>,
    pub geometry: Option<Geometry>,
}

#[derive(Debug, Clone)]
pub struct TextLayoutWord {
    pub plain_text: String,
    pub text_separator: Option<String>,
    pub geometry: Option<Geometry>,
}

#[derive(Debug, Clone, Copy, PartialEq, Eq, Structural)]
pub struct Geometry {
    pub bounding_box: Option<CenterRotatedBox>,
}

/// A rotated rectangle locating recognized text on the image: center, size
/// and rotation, each an `f32` bit pattern as received on the wire.
#[derive(Debug, Clone, Copy, PartialEq, Eq, Structural)]
pub struct CenterRotatedBox {
    pub center_x: u32,
    pub center_y: u32,
    pub width: u32,
    pub height: u32,
    pub rotation_z: u32,
}

#[derive(Debug, Clone)]
pub struct DeepGleam {
    pub translation: Option<TranslationData>,
}

#[derive(Debug, Clone)]
pub struct TranslationData {
    pub translation: String,
    pub status: Option<TranslationStatus>,
}

#[derive(Debug, Clone, Copy, PartialEq, Eq, Structural)]
pub struct TranslationStatus {
    pub code: i32,
}

} // verus!
