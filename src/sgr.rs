//! Text primitives of Select Graphic Rendition (SGR) escape sequences:
//! unpadded decimal numbers, separators and the `ESC [ ... m` frame.

use vstd::prelude::*;

verus! {

/// The character of a decimal digit.
pub open spec fn digit_char(d: nat) -> char {
    ((d + 48) as u8) as char
}

/// The unpadded decimal form of `n`.
pub open spec fn dec(n: nat) -> Seq<char>
    decreases n,
{
    if n < 10 {
        seq![digit_char(n)]
    } else {
        dec(n / 10).push(digit_char(n % 10))
    }
}

/// The opening of an escape sequence, `ESC [`.
pub open spec fn esc_open() -> Seq<char> {
    seq!['\x1b', '[']
}

/// The closing of an escape sequence.
pub open spec fn esc_close() -> Seq<char> {
    seq!['m']
}

/// `args` framed as a full escape sequence.
pub open spec fn framed(args: Seq<char>) -> Seq<char> {
    esc_open() + args + esc_close()
}

/// Relies on `String::push`: the character is appended at the end.
#[verifier::external_body]
pub(crate) fn push_char(out: &mut String, c: char)
    ensures
        final(out)@ == old(out)@.push(c),
{
    out.push(c)
}

fn digit(d: u8) -> (c: char)
    requires
        d < 10,
    ensures
        c == digit_char(d as nat),
{
    (d + 48) as char
}

/// Appends the unpadded decimal form of `x`.
pub(crate) fn write_u8(out: &mut String, x: u8)
    ensures
        final(out)@ == old(out)@ + dec(x as nat),
{
    if x >= 100 {
        assert(dec(x as nat) == dec((x / 10) as nat).push(digit_char((x % 10) as nat)));
        assert(dec((x / 10) as nat) == dec((x / 100) as nat).push(digit_char(((x / 10) % 10) as nat)));
        push_char(out, digit(x / 100));
        push_char(out, digit((x / 10) % 10));
        push_char(out, digit(x % 10));
    } else if x >= 10 {
        assert(dec(x as nat) == dec((x / 10) as nat).push(digit_char((x % 10) as nat)));
        push_char(out, digit(x / 10));
        push_char(out, digit(x % 10));
    } else {
        push_char(out, digit(x));
    }
    assert(out@ =~= old(out)@ + dec(x as nat));
}

/// The text attribute that a color is applied to.
#[derive(Clone, Copy, Debug, PartialEq, Eq, Structural)]
pub enum Layer {
    Foreground,
    Background,
    Underline,
}

/// The leading SGR number that selects a layer for an extended color.
pub open spec fn layer_code(layer: Layer) -> nat {
    match layer {
        Layer::Foreground => 38,
        Layer::Background => 48,
        Layer::Underline => 58,
    }
}

impl Layer {
    /// The leading SGR number of extended colors on this layer.
    pub fn code(self) -> (r: u8)
        ensures
            r as nat == layer_code(self),
    {
        match self {
            Layer::Foreground => 38,
            Layer::Background => 48,
            Layer::Underline => 58,
        }
    }
}

/// Appends `ESC [`.
pub(crate) fn write_esc_open(out: &mut String)
    ensures
        final(out)@ == old(out)@ + esc_open(),
{
    push_char(out, '\x1b');
    push_char(out, '[');
    assert(out@ =~= old(out)@ + esc_open());
}

/// Appends the closing `m`.
pub(crate) fn write_esc_close(out: &mut String)
    ensures
        final(out)@ == old(out)@ + esc_close(),
{
    push_char(out, 'm');
    assert(out@ =~= old(out)@ + esc_close());
}

/// Appends a `;` separator.
pub(crate) fn write_sep(out: &mut String)
    ensures
        final(out)@ == old(out)@.push(';'),
{
    push_char(out, ';');
}

} // verus!
