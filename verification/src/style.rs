//! Style records: colors, text attributes and per-box margins.
//!
//! A style is a flat record looked up by id; there is no inheritance or
//! cascade. Styles only carry data — interpreting a color or an attribute
//! is the concern of the terminal backend.

use vstd::prelude::*;

verus! {

/// A terminal color, either one of the classic named colors or a 24-bit
/// RGB triple.
#[derive(Clone, Copy, Debug, PartialEq, Eq, Structural)]
pub enum Color {
    Black,
    Red,
    Green,
    Yellow,
    Blue,
    Magenta,
    Cyan,
    White,
    Rgb { r: u8, g: u8, b: u8 },
}

/// The set of text attributes a styled print can carry.
#[derive(Clone, Copy, Debug, PartialEq, Eq, Structural)]
pub struct TextAttributes {
    pub bold: bool,
    pub dim: bool,
    pub underline: bool,
}

/// One named style record: optional foreground and background colors, an
/// optional margin in cells subtracted from each resolved box edge, and
/// optional text attributes.
#[derive(Debug)]
pub struct Style {
    pub id: String,
    pub color_fg: Option<Color>,
    pub color_bg: Option<Color>,
    pub margin: Option<u16>,
    pub attribs: Option<TextAttributes>,
}

/// The mathematical value of a [`Style`]: the id as a character sequence
/// beside the plain attribute fields.
pub struct StyleView {
    pub id: Seq<char>,
    pub color_fg: Option<Color>,
    pub color_bg: Option<Color>,
    pub margin: Option<u16>,
    pub attribs: Option<TextAttributes>,
}

impl View for Style {
    type V = StyleView;

    open spec fn view(&self) -> StyleView {
        StyleView {
            id: self.id@,
            color_fg: self.color_fg,
            color_bg: self.color_bg,
            margin: self.margin,
            attribs: self.attribs,
        }
    }
}

impl Clone for Style {
    fn clone(&self) -> (res: Style)
        ensures
            res@ == self@,
    {
        Style {
            id: self.id.clone(),
            color_fg: self.color_fg,
            color_bg: self.color_bg,
            margin: self.margin,
            attribs: self.attribs,
        }
    }
}

impl Style {
    /// A style with the given id and no colors, margin or attributes.
    pub fn plain(id: String) -> (r: Style)
        ensures
            r@ == (StyleView {
                id: id@,
                color_fg: None::<Color>,
                color_bg: None::<Color>,
                margin: None::<u16>,
                attribs: None::<TextAttributes>,
            }),
    {
        Style { id, color_fg: None, color_bg: None, margin: None, attribs: None }
    }

    /// The margin of this style, zero when none is set.
    pub fn margin_or_zero(&self) -> (r: u16)
        ensures
            r == spec_margin_or_zero(self@),
    {
        match self.margin {
            Some(m) => m,
            None => 0,
        }
    }
}

/// The margin a style contributes: its `margin` field, or zero.
pub open spec fn spec_margin_or_zero(s: StyleView) -> u16 {
    match s.margin {
        Some(m) => m,
        None => 0,
    }
}

} // verus!
