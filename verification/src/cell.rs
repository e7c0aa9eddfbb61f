//! The cell model: one grid position holds a character, a foreground and a
//! background color, and an inverse-video flag. A double-width character
//! occupies two columns; the second column holds a continuation marker.

use vstd::prelude::*;

verus! {

/// An RGBA color, as the renderer consumes it. The terminal's default
/// foreground is a light gray; the default background is fully transparent,
/// which lets the renderer substitute its own background.
#[derive(Clone, Copy, Debug, PartialEq, Eq, Structural)]
pub struct Color {
    pub r: u8,
    pub g: u8,
    pub b: u8,
    pub a: u8,
}

impl Color {
    pub open spec fn spec_rgb(r: u8, g: u8, b: u8) -> Color {
        Color { r, g, b, a: 255 }
    }

    pub open spec fn spec_default_fg() -> Color {
        Color::spec_rgb(220, 220, 220)
    }

    pub open spec fn spec_transparent() -> Color {
        Color { r: 0, g: 0, b: 0, a: 0 }
    }

    /// The opaque color with the given red, green and blue components.
    #[verifier::when_used_as_spec(spec_rgb)]
    pub fn rgb(r: u8, g: u8, b: u8) -> (c: Color)
        ensures
            c == Color::spec_rgb(r, g, b),
    {
        Color { r, g, b, a: 255 }
    }

    /// The default foreground color.
    #[verifier::when_used_as_spec(spec_default_fg)]
    pub fn default_fg() -> (c: Color)
        ensures
            c == Color::spec_default_fg(),
    {
        Color { r: 220, g: 220, b: 220, a: 255 }
    }

    /// The fully transparent color, the default background.
    #[verifier::when_used_as_spec(spec_transparent)]
    pub fn transparent() -> (c: Color)
        ensures
            c == Color::spec_transparent(),
    {
        Color { r: 0, g: 0, b: 0, a: 0 }
    }
}

/// The 16-color palette: SGR codes 30-37 and 90-97 select entries 0-7 and
/// 8-15 for the foreground, 40-47 and 100-107 likewise for the background.
/// An index past 15 falls back to the default foreground.
pub open spec fn spec_ansi_color(code: u8) -> Color {
    match code {
        0u8 => Color::spec_rgb(0, 0, 0),
        1u8 => Color::spec_rgb(205, 0, 0),
        2u8 => Color::spec_rgb(0, 205, 0),
        3u8 => Color::spec_rgb(205, 205, 0),
        4u8 => Color::spec_rgb(0, 0, 238),
        5u8 => Color::spec_rgb(205, 0, 205),
        6u8 => Color::spec_rgb(0, 205, 205),
        7u8 => Color::spec_rgb(229, 229, 229),
        8u8 => Color::spec_rgb(127, 127, 127),
        9u8 => Color::spec_rgb(255, 0, 0),
        10u8 => Color::spec_rgb(0, 255, 0),
        11u8 => Color::spec_rgb(255, 255, 0),
        12u8 => Color::spec_rgb(92, 92, 255),
        13u8 => Color::spec_rgb(255, 0, 255),
        14u8 => Color::spec_rgb(0, 255, 255),
        15u8 => Color::spec_rgb(255, 255, 255),
        _ => Color::spec_default_fg(),
    }
}

/// Look a palette index up in the 16-color table.
#[verifier::when_used_as_spec(spec_ansi_color)]
pub fn ansi_color(code: u8) -> (c: Color)
    ensures
        c == spec_ansi_color(code),
{
    match code {
        0 => Color::rgb(0, 0, 0),
        1 => Color::rgb(205, 0, 0),
        2 => Color::rgb(0, 205, 0),
        3 => Color::rgb(205, 205, 0),
        4 => Color::rgb(0, 0, 238),
        5 => Color::rgb(205, 0, 205),
        6 => Color::rgb(0, 205, 205),
        7 => Color::rgb(229, 229, 229),
        8 => Color::rgb(127, 127, 127),
        9 => Color::rgb(255, 0, 0),
        10 => Color::rgb(0, 255, 0),
        11 => Color::rgb(255, 255, 0),
        12 => Color::rgb(92, 92, 255),
        13 => Color::rgb(255, 0, 255),
        14 => Color::rgb(0, 255, 255),
        15 => Color::rgb(255, 255, 255),
        _ => Color::default_fg(),
    }
}

/// One grid position: a character, its colors, and two flags. A wide
/// character writes its continuation marker into the following column.
#[derive(Clone, Copy, Debug, PartialEq, Eq, Structural)]
pub struct Cell {
    pub c: char,
    pub fg: Color,
    pub bg: Color,
    pub inverse: bool,
    pub is_wide_continuation: bool,
}

/// The blank cell: a space in default colors, not inverse, no continuation.
pub open spec fn spec_default_cell() -> Cell {
    Cell {
        c: ' ',
        fg: Color::spec_default_fg(),
        bg: Color::spec_transparent(),
        inverse: false,
        is_wide_continuation: false,
    }
}

impl Default for Cell {
    /// The blank cell that fresh rows and erased regions are filled with.
    fn default() -> (c: Cell)
        ensures
            c == spec_default_cell(),
    {
        Cell {
            c: ' ',
            fg: Color::default_fg(),
            bg: Color::transparent(),
            inverse: false,
            is_wide_continuation: false,
        }
    }
}

/// A blank cell carrying the given attributes: the fill for rows that
/// scrolling pushes in at the bottom.
pub open spec fn spec_attr_cell(fg: Color, bg: Color, inverse: bool) -> Cell {
    Cell { c: ' ', fg, bg, inverse, is_wide_continuation: false }
}

} // verus!
