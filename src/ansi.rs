//! Basic ANSI color codes, which are widely supported on most terminals

use vstd::prelude::*;

use crate::sgr::{dec, write_u8, Layer};
use crate::xterm::{indexed_args, XtermColor};

verus! {

/// A runtime ANSI color type
#[derive(Clone, Copy, Debug, PartialEq, Eq, Hash, Structural)]
pub enum AnsiColor {
    Black,
    Red,
    Green,
    Yellow,
    Blue,
    Magenta,
    Cyan,
    White,
    BrightBlack,
    BrightRed,
    BrightGreen,
    BrightYellow,
    BrightBlue,
    BrightMagenta,
    BrightCyan,
    BrightWhite,
    /// The terminal's own default color
    Default,
}

impl AnsiColor {
    /// The SGR number that sets this color on the foreground.
    pub open spec fn fg_code(self) -> nat {
        match self {
            AnsiColor::Black => 30,
            AnsiColor::Red => 31,
            AnsiColor::Green => 32,
            AnsiColor::Yellow => 33,
            AnsiColor::Blue => 34,
            AnsiColor::Magenta => 35,
            AnsiColor::Cyan => 36,
            AnsiColor::White => 37,
            AnsiColor::BrightBlack => 90,
            AnsiColor::BrightRed => 91,
            AnsiColor::BrightGreen => 92,
            AnsiColor::BrightYellow => 93,
            AnsiColor::BrightBlue => 94,
            AnsiColor::BrightMagenta => 95,
            AnsiColor::BrightCyan => 96,
            AnsiColor::BrightWhite => 97,
            AnsiColor::Default => 39,
        }
    }

    /// The palette index that stands for this color where only palette colors
    /// are accepted (the underline layer).
    pub open spec fn palette_index(self) -> nat {
        match self {
            AnsiColor::Black => 0,
            AnsiColor::Red => 1,
            AnsiColor::Green => 2,
            AnsiColor::Yellow => 3,
            AnsiColor::Blue => 4,
            AnsiColor::Magenta => 5,
            AnsiColor::Cyan => 6,
            AnsiColor::White => 7,
            AnsiColor::BrightBlack => 8,
            AnsiColor::BrightRed => 9,
            AnsiColor::BrightGreen => 10,
            AnsiColor::BrightYellow => 11,
            AnsiColor::BrightBlue => 12,
            AnsiColor::BrightMagenta => 13,
            AnsiColor::BrightCyan => 14,
            AnsiColor::BrightWhite => 15,
            AnsiColor::Default => 16,
        }
    }

    /// The SGR arguments of this color on `layer`: the background code is the
    /// foreground code plus ten, and the underline layer takes the palette form.
    pub open spec fn args(self, layer: Layer) -> Seq<char> {
        match layer {
            Layer::Foreground => dec(self.fg_code()),
            Layer::Background => dec(self.fg_code() + 10),
            Layer::Underline => indexed_args(layer, self.palette_index()),
        }
    }

    /// The SGR number that sets this color on the foreground
    pub fn foreground_code(self) -> (r: u8)
        ensures
            r as nat == self.fg_code(),
    {
        match self {
            AnsiColor::Black => 30,
            AnsiColor::Red => 31,
            AnsiColor::Green => 32,
            AnsiColor::Yellow => 33,
            AnsiColor::Blue => 34,
            AnsiColor::Magenta => 35,
            AnsiColor::Cyan => 36,
            AnsiColor::White => 37,
            AnsiColor::BrightBlack => 90,
            AnsiColor::BrightRed => 91,
            AnsiColor::BrightGreen => 92,
            AnsiColor::BrightYellow => 93,
            AnsiColor::BrightBlue => 94,
            AnsiColor::BrightMagenta => 95,
            AnsiColor::BrightCyan => 96,
            AnsiColor::BrightWhite => 97,
            AnsiColor::Default => 39,
        }
    }

    /// The SGR number that sets this color on the background
    pub fn background_code(self) -> (r: u8)
        ensures
            r as nat == self.fg_code() + 10,
    {
        self.foreground_code() + 10
    }

    /// The corresponding Xterm color
    pub fn to_xterm(self) -> (r: XtermColor)
        ensures
            r.index as nat == self.palette_index(),
    {
        let index: u8 = match self {
            AnsiColor::Black => 0,
            AnsiColor::Red => 1,
            AnsiColor::Green => 2,
            AnsiColor::Yellow => 3,
            AnsiColor::Blue => 4,
            AnsiColor::Magenta => 5,
            AnsiColor::Cyan => 6,
            AnsiColor::White => 7,
            AnsiColor::BrightBlack => 8,
            AnsiColor::BrightRed => 9,
            AnsiColor::BrightGreen => 10,
            AnsiColor::BrightYellow => 11,
            AnsiColor::BrightBlue => 12,
            AnsiColor::BrightMagenta => 13,
            AnsiColor::BrightCyan => 14,
            AnsiColor::BrightWhite => 15,
            AnsiColor::Default => 16,
        };
        XtermColor::from_code(index)
    }

    /// Appends the SGR arguments of this color on `layer`.
    pub fn fmt_args(self, layer: Layer, out: &mut String)
        ensures
            final(out)@ == old(out)@ + self.args(layer),
    {
        match layer {
            Layer::Foreground => write_u8(out, self.foreground_code()),
            Layer::Background => write_u8(out, self.background_code()),
            Layer::Underline => self.to_xterm().fmt_args(layer, out),
        }
    }
}

} // verus!
