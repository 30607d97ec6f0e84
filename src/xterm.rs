//! The 256-color palette of Xterm and compatible terminals.

use vstd::prelude::*;

use crate::sgr::{dec, layer_code, push_char, write_sep, write_u8, Layer};

verus! {

/// A color of the 256-entry palette, given by its index
#[derive(Clone, Copy, Debug, PartialEq, Eq, Hash, Structural)]
pub struct XtermColor {
    /// The palette index
    pub index: u8,
}

/// The SGR arguments of a palette color: `L;5;N`, where `L` selects the layer.
pub open spec fn indexed_args(layer: Layer, index: nat) -> Seq<char> {
    dec(layer_code(layer)) + seq![';', '5', ';'] + dec(index)
}

impl XtermColor {
    /// The palette color at `code`
    pub fn from_code(code: u8) -> (r: Self)
        ensures
            r.index == code,
    {
        XtermColor { index: code }
    }

    /// The palette index of this color
    pub fn code(self) -> (r: u8)
        ensures
            r == self.index,
    {
        self.index
    }

    /// Appends the SGR arguments of this color on `layer`.
    pub fn fmt_args(self, layer: Layer, out: &mut String)
        ensures
            final(out)@ == old(out)@ + indexed_args(layer, self.index as nat),
    {
        write_u8(out, layer.code());
        write_sep(out);
        push_char(out, '5');
        write_sep(out);
        write_u8(out, self.index);
        assert(out@ =~= old(out)@ + indexed_args(layer, self.index as nat));
    }
}

} // verus!
