//! The colours the editor draws with, chosen by how many colours the
//! terminal shows.
use vstd::prelude::*;

verus! {

/// A terminal colour.
#[derive(Clone, Copy, Debug, PartialEq, Eq, Structural)]
pub enum Color {
    Black,
    White,
    Grey,
    DarkGrey,
    Green,
    /// One of the 256 colours of the ANSI palette.
    AnsiValue(u8),
    /// A true colour.
    Rgb { r: u8, g: u8, b: u8 },
}

/// A foreground and a background colour.
#[derive(Clone, Copy, Debug, PartialEq, Eq, Structural)]
pub struct Colors {
    pub foreground: Option<Color>,
    pub background: Option<Color>,
}

impl Colors {
    /// The pair of `foreground` and `background`.
    pub fn new(foreground: Color, background: Color) -> (c: Colors)
        ensures
            c == (Colors { foreground: Some(foreground), background: Some(background) }),
    {
        Colors { foreground: Some(foreground), background: Some(background) }
    }
}

/// How many colours the terminal shows (`crossterm::style::available_color_count`).
/// crossterm reads it from the environment (`COLORTERM`, then `TERM`): the
/// maximum for "24bit" or "truecolor", 256 for a name with "256" in it, and
/// 8 otherwise. The contract states only that the result is one of these
/// three; which one depends on the environment.
#[verifier::external_body]
fn available_color_count() -> (n: u16)
    ensures
        n == 8 || n == 256 || n == u16::MAX,
{
    crossterm::style::available_color_count()
}

/// The colours of the editor: text, highlighted line, title and status
/// bars, line numbers and marker.
#[derive(Clone, Copy, Debug, PartialEq, Eq, Structural)]
pub struct ColorPairs {
    pub bg: Color,
    pub fg: Color,
    pub bg_hilite: Color,
    pub fg_hilite: Color,
    pub bg_bar: Color,
    pub fg_bar: Color,
    pub bg_linenb: Color,
    pub fg_linenb: Color,
    pub fg_marker: Color,
}

/// The colours for a terminal that shows `n` colours: plain black and white
/// up to 2, the 8 and 16 named colours up to 8 and 16, the ANSI palette up
/// to 255, and true colours from 256 on.
pub open spec fn palette(n: u16) -> ColorPairs {
    if n <= 2 {
        ColorPairs {
            bg: Color::Black,
            fg: Color::White,
            bg_hilite: Color::White,
            fg_hilite: Color::Black,
            bg_bar: Color::White,
            fg_bar: Color::Black,
            bg_linenb: Color::Black,
            fg_linenb: Color::White,
            fg_marker: Color::White,
        }
    } else if n <= 8 {
        ColorPairs {
            bg: Color::Black,
            fg: Color::White,
            bg_hilite: Color::Grey,
            fg_hilite: Color::White,
            bg_bar: Color::White,
            fg_bar: Color::Black,
            bg_linenb: Color::Grey,
            fg_linenb: Color::White,
            fg_marker: Color::Green,
        }
    } else if n <= 16 {
        ColorPairs {
            bg: Color::Black,
            fg: Color::White,
            bg_hilite: Color::DarkGrey,
            fg_hilite: Color::White,
            bg_bar: Color::White,
            fg_bar: Color::Black,
            bg_linenb: Color::Grey,
            fg_linenb: Color::White,
            fg_marker: Color::Green,
        }
    } else if n <= 255 {
        ColorPairs {
            bg: Color::AnsiValue(0),
            fg: Color::AnsiValue(7),
            bg_hilite: Color::AnsiValue(241),
            fg_hilite: Color::AnsiValue(231),
            bg_bar: Color::AnsiValue(253),
            fg_bar: Color::AnsiValue(235),
            bg_linenb: Color::AnsiValue(239),
            fg_linenb: Color::AnsiValue(249),
            fg_marker: Color::AnsiValue(34),
        }
    } else {
        ColorPairs {
            bg: Color::Rgb { r: 0, g: 0, b: 0 },
            fg: Color::Rgb { r: 224, g: 224, b: 224 },
            bg_hilite: Color::Rgb { r: 48, g: 48, b: 48 },
            fg_hilite: Color::Rgb { r: 224, g: 224, b: 224 },
            bg_bar: Color::Rgb { r: 192, g: 192, b: 192 },
            fg_bar: Color::Rgb { r: 32, g: 32, b: 32 },
            bg_linenb: Color::Rgb { r: 32, g: 32, b: 32 },
            fg_linenb: Color::Rgb { r: 160, g: 160, b: 160 },
            fg_marker: Color::Rgb { r: 0, g: 192, b: 0 },
        }
    }
}

impl ColorPairs {
    /// The colours for the terminal the editor runs in: the named colours of
    /// an 8-colour terminal, or the true colours where the terminal shows 256
    /// colours or more.
    pub fn new() -> (cp: ColorPairs)
        ensures
            cp == palette(8) || cp == palette(256),
    {
        let n = available_color_count();
        ColorPairs::for_color_count(n)
    }

    /// The colours for a terminal that shows `nb_of_colors` colours.
    pub fn for_color_count(nb_of_colors: u16) -> (cp: ColorPairs)
        ensures
            cp == palette(nb_of_colors),
    {
        if nb_of_colors <= 2 {
            ColorPairs {
                bg: Color::Black,
                fg: Color::White,
                bg_hilite: Color::White,
                fg_hilite: Color::Black,
                bg_bar: Color::White,
                fg_bar: Color::Black,
                bg_linenb: Color::Black,
                fg_linenb: Color::White,
                fg_marker: Color::White,
            }
        } else if nb_of_colors <= 8 {
            ColorPairs {
                bg: Color::Black,
                fg: Color::White,
                bg_hilite: Color::Grey,
                fg_hilite: Color::White,
                bg_bar: Color::White,
                fg_bar: Color::Black,
                bg_linenb: Color::Grey,
                fg_linenb: Color::White,
                fg_marker: Color::Green,
            }
        } else if nb_of_colors <= 16 {
            ColorPairs {
                bg: Color::Black,
                fg: Color::White,
                bg_hilite: Color::DarkGrey,
                fg_hilite: Color::White,
                bg_bar: Color::White,
                fg_bar: Color::Black,
                bg_linenb: Color::Grey,
                fg_linenb: Color::White,
                fg_marker: Color::Green,
            }
        } else if nb_of_colors <= 255 {
            ColorPairs {
                bg: Color::AnsiValue(0),
                fg: Color::AnsiValue(7),
                bg_hilite: Color::AnsiValue(241),
                fg_hilite: Color::AnsiValue(231),
                bg_bar: Color::AnsiValue(253),
                fg_bar: Color::AnsiValue(235),
                bg_linenb: Color::AnsiValue(239),
                fg_linenb: Color::AnsiValue(249),
                fg_marker: Color::AnsiValue(34),
            }
        } else {
            ColorPairs {
                bg: Color::Rgb { r: 0, g: 0, b: 0 },
                fg: Color::Rgb { r: 224, g: 224, b: 224 },
                bg_hilite: Color::Rgb { r: 48, g: 48, b: 48 },
                fg_hilite: Color::Rgb { r: 224, g: 224, b: 224 },
                bg_bar: Color::Rgb { r: 192, g: 192, b: 192 },
                fg_bar: Color::Rgb { r: 32, g: 32, b: 32 },
                bg_linenb: Color::Rgb { r: 32, g: 32, b: 32 },
                fg_linenb: Color::Rgb { r: 160, g: 160, b: 160 },
                fg_marker: Color::Rgb { r: 0, g: 192, b: 0 },
            }
        }
    }

    /// Text on the normal background.
    pub fn default_pair(&self) -> (c: Colors)
        ensures
            c == (Colors { foreground: Some(self.fg), background: Some(self.bg) }),
    {
        Colors::new(self.fg, self.bg)
    }

    /// The highlighted current line.
    pub fn hilite_pair(&self) -> (c: Colors)
        ensures
            c == (Colors { foreground: Some(self.fg_hilite), background: Some(self.bg_hilite) }),
    {
        Colors::new(self.fg_hilite, self.bg_hilite)
    }

    /// The title and status bars.
    pub fn bar_pair(&self) -> (c: Colors)
        ensures
            c == (Colors { foreground: Some(self.fg_bar), background: Some(self.bg_bar) }),
    {
        Colors::new(self.fg_bar, self.bg_bar)
    }

    /// The line numbers.
    pub fn linenb_pair(&self) -> (c: Colors)
        ensures
            c == (Colors { foreground: Some(self.fg_linenb), background: Some(self.bg_linenb) }),
    {
        Colors::new(self.fg_linenb, self.bg_linenb)
    }

    /// Marked text: the line-number colours swapped.
    pub fn marker_pair(&self) -> (c: Colors)
        ensures
            c == (Colors { foreground: Some(self.bg_linenb), background: Some(self.fg_linenb) }),
    {
        Colors::new(self.bg_linenb, self.fg_linenb)
    }

    /// The marker colour on the normal background.
    pub fn special_pair(&self) -> (c: Colors)
        ensures
            c == (Colors { foreground: Some(self.fg_marker), background: Some(self.bg) }),
    {
        Colors::new(self.fg_marker, self.bg)
    }
}

} // verus!
