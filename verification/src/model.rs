use vstd::prelude::*;

verus! {

// The client-facing result model: full recognized text, a
// paragraph/line/word hierarchy, and an optional translation. Each type has
// a mathematical view over `Seq<char>` that the normalizer's contracts
// speak of.

/// Geometry attached to a recognized element: a rotated bounding box whose
/// scalars are `f32` bit patterns copied verbatim from the wire. Deriving
/// the angle in degrees from `rotation_z` is floating-point work left to
/// the presentation layer.
#[derive(Debug, Clone, Copy, PartialEq, Eq, Structural)]
pub struct GeometryData {
    pub center_x: u32,
    pub center_y: u32,
    pub width: u32,
    pub height: u32,
    pub rotation_z: u32,
}

/// A recognized word: its text, the separator that follows it (empty when
/// the server omitted one), and its geometry if present.
#[derive(Debug, Clone, PartialEq, Eq)]
pub struct Word {
    pub text: String,
    pub separator: String,
    pub geometry: Option<GeometryData>,
}

/// A recognized line: its reassembled text and its words in order.
#[derive(Debug, Clone, PartialEq, Eq)]
pub struct Line {
    pub text: String,
    pub words: Vec<Word>,
    pub geometry: Option<GeometryData>,
}

/// A recognized paragraph: its reassembled text and its lines in order.
#[derive(Debug, Clone, PartialEq, Eq)]
pub struct Paragraph {
    pub text: String,
    pub lines: Vec<Line>,
    pub geometry: Option<GeometryData>,
}

/// The final result of one request: the full recognized text, the paragraph
/// hierarchy, and the translation when one was returned.
#[derive(Debug, Clone, PartialEq, Eq)]
pub struct LensResult {
    pub full_text: String,
    pub paragraphs: Vec<Paragraph>,
    pub translation: Option<String>,
}

pub ghost struct WordV {
    pub text: Seq<char>,
    pub separator: Seq<char>,
    pub geometry: Option<GeometryData>,
}

pub ghost struct LineV {
    pub text: Seq<char>,
    pub words: Seq<WordV>,
    pub geometry: Option<GeometryData>,
}

pub ghost struct ParagraphV {
    pub text: Seq<char>,
    pub lines: Seq<LineV>,
    pub geometry: Option<GeometryData>,
}

pub ghost struct LensResultV {
    pub full_text: Seq<char>,
    pub paragraphs: Seq<ParagraphV>,
    pub translation: Option<Seq<char>>,
}

impl View for Word {
    type V = WordV;

    open spec fn view(&self) -> WordV {
        WordV { text: self.text@, separator: self.separator@, geometry: self.geometry }
    }
}

impl View for Line {
    type V = LineV;

    open spec fn view(&self) -> LineV {
        LineV {
            text: self.text@,
            words: self.words@.map_values(|w: Word| w@),
            geometry: self.geometry,
        }
    }
}

impl View for Paragraph {
    type V = ParagraphV;

    open spec fn view(&self) -> ParagraphV {
        ParagraphV {
            text: self.text@,
            lines: self.lines@.map_values(|l: Line| l@),
            geometry: self.geometry,
        }
    }
}

/// The view of an optional string: its character sequence when present.
pub open spec fn opt_str_view(o: Option<String>) -> Option<Seq<char>> {
    match o {
        Some(s) => Some(s@),
        None => None,
    }
}

impl View for LensResult {
    type V = LensResultV;

    open spec fn view(&self) -> LensResultV {
        LensResultV {
            full_text: self.full_text@,
            paragraphs: self.paragraphs@.map_values(|p: Paragraph| p@),
            translation: opt_str_view(self.translation),
        }
    }
}

} // verus!
