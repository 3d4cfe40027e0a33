//! Colours, fonts and text styles of the watch face. The glyph rasters
//! belong to the display layer; here a font is named by its face.
use vstd::prelude::*;

verus! {

/// A colour in the display's 5-6-5 bit format: red and blue up to 31,
/// green up to 63.
#[derive(Clone, Copy, Debug, PartialEq, Eq, Structural, Hash)]
pub struct Color {
    pub r: u8,
    pub g: u8,
    pub b: u8,
}

/// Largest red or blue channel value.
pub const MAX_RB: u8 = 31;

/// Largest green channel value.
pub const MAX_G: u8 = 63;

/// Black.
pub open spec fn black() -> Color {
    Color { r: 0, g: 0, b: 0 }
}

/// Red.
pub open spec fn red() -> Color {
    Color { r: MAX_RB, g: 0, b: 0 }
}

/// White.
pub open spec fn white() -> Color {
    Color { r: MAX_RB, g: MAX_G, b: MAX_RB }
}

/// Grey at half intensity.
pub open spec fn grey() -> Color {
    Color { r: MAX_RB / 2, g: MAX_G / 2, b: MAX_RB / 2 }
}

impl Color {
    /// Black, the screen's background colour.
    pub fn black() -> (r: Color)
        ensures
            r == black(),
    {
        Color { r: 0, g: 0, b: 0 }
    }

    /// White.
    pub fn white() -> (r: Color)
        ensures
            r == white(),
    {
        Color { r: MAX_RB, g: MAX_G, b: MAX_RB }
    }

    /// Red.
    pub fn red() -> (r: Color)
        ensures
            r == red(),
    {
        Color { r: MAX_RB, g: 0, b: 0 }
    }

    /// Grey at half intensity.
    pub fn grey() -> (r: Color)
        ensures
            r == grey(),
    {
        Color { r: MAX_RB / 2, g: MAX_G / 2, b: MAX_RB / 2 }
    }
}

/// A font face of the watch face.
#[derive(Clone, Copy, Debug, PartialEq, Eq, Structural, Hash)]
pub enum FontFace {
    /// 44x85 pixel extra bold monospace digits, 54 point.
    Time54ExtraBold,
    /// 13x25 pixel bold monospace, 16 point.
    Date16Bold,
    /// 27x21 pixel icons, 20 point.
    Icons20,
}

/// How a text is drawn: face, colour, and an optional background fill.
#[derive(Clone, Copy, Debug, PartialEq, Eq, Structural)]
pub struct TextStyle {
    pub face: FontFace,
    pub text_color: Color,
    pub background: Option<Color>,
}

/// A font face in a colour.
#[derive(Clone, Copy, Debug, PartialEq, Eq, Structural)]
pub struct Font {
    pub face: FontFace,
    pub text_color: Color,
}

impl Font {
    /// The text style of this font, with no background fill.
    pub fn style(&self) -> (r: TextStyle)
        ensures
            r == (TextStyle { face: self.face, text_color: self.text_color, background: None }),
    {
        TextStyle { face: self.face, text_color: self.text_color, background: None }
    }
}

/// The fonts of the watch face's texts.
#[derive(Clone, Copy, Debug, PartialEq, Eq, Structural)]
pub struct FontStyles {
    pub watchface_time: Font,
    pub watchface_date: Font,
}

impl FontStyles {
    /// The time in white 54 point extra bold; the date in grey 16 point bold.
    pub fn new() -> (r: Self)
        ensures
            r.watchface_time == (Font { face: FontFace::Time54ExtraBold, text_color: white() }),
            r.watchface_date == (Font { face: FontFace::Date16Bold, text_color: grey() }),
    {
        FontStyles {
            watchface_time: Font { face: FontFace::Time54ExtraBold, text_color: Color::white() },
            watchface_date: Font { face: FontFace::Date16Bold, text_color: Color::grey() },
        }
    }
}

impl Default for FontStyles {
    /// The watch face's fonts.
    fn default() -> (r: Self)
        ensures
            r.watchface_time == (Font { face: FontFace::Time54ExtraBold, text_color: white() }),
            r.watchface_date == (Font { face: FontFace::Date16Bold, text_color: grey() }),
    {
        FontStyles::new()
    }
}

} // verus!
