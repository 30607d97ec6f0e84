//! 24-bit color values. Not as widely supported as standard ANSI or Xterm.

use vstd::prelude::*;

use crate::sgr::{dec, layer_code, write_sep, write_u8, Layer};

verus! {

/// An RGB value for color
#[derive(Clone, Copy, Debug, PartialEq, Eq, Hash, Structural)]
pub struct RgbColor {
    /// The red component of the color
    pub red: u8,
    /// The green component of the color
    pub green: u8,
    /// The blue component of the color
    pub blue: u8,
}

/// The SGR arguments of a direct color: `L;2;R;G;B`, where `L` selects the layer.
pub open spec fn rgb_args(layer: Layer, c: RgbColor) -> Seq<char> {
    dec(layer_code(layer)) + seq![';', '2', ';'] + dec(c.red as nat) + seq![';'] + dec(
        c.green as nat,
    ) + seq![';'] + dec(c.blue as nat)
}

impl RgbColor {
    /// Appends the SGR arguments of this color on `layer`.
    pub fn fmt_args(self, layer: Layer, out: &mut String)
        ensures
            final(out)@ == old(out)@ + rgb_args(layer, self),
    {
        write_u8(out, layer.code());
        write_sep(out);
        crate::sgr::push_char(out, '2');
        write_sep(out);
        write_u8(out, self.red);
        write_sep(out);
        write_u8(out, self.green);
        write_sep(out);
        write_u8(out, self.blue);
        assert(out@ =~= old(out)@ + rgb_args(layer, self));
    }
}

/// A compile time RGB color type
///
/// It converts to [`RgbColor`] through [`Rgb::dynamic`].
#[derive(Clone, Copy, Debug, PartialEq, Eq, Hash)]
pub struct Rgb<const RED: u8, const GREEN: u8, const BLUE: u8>;

impl<const RED: u8, const GREEN: u8, const BLUE: u8> Rgb<RED, GREEN, BLUE> {
    /// The runtime color of the same channels.
    pub open spec fn spec_dynamic() -> RgbColor {
        RgbColor { red: RED, green: GREEN, blue: BLUE }
    }

    /// The corresponding value of [`RgbColor`]
    pub fn dynamic() -> (r: RgbColor)
        ensures
            r == Self::spec_dynamic(),
    {
        RgbColor { red: RED, green: GREEN, blue: BLUE }
    }
}

} // verus!
