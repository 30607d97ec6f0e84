//! Terminal text styling: colors and text effects rendered as ANSI escape
//! sequences, together with the policy that decides whether to emit them.

pub mod ansi;
pub mod css;
pub mod effect;
pub mod from_str;
pub mod mode;
pub mod rgb;
pub mod sgr;
pub mod xterm;

use vstd::prelude::*;

use crate::ansi::AnsiColor;
use crate::css::CssColor;
use crate::mode::{ColorKind, Stream};
use crate::rgb::{rgb_args, Rgb, RgbColor};
use crate::sgr::{esc_close, esc_open, framed, write_esc_close, write_esc_open, Layer};
use crate::xterm::{indexed_args, XtermColor};

pub use crate::from_str::ParseColorError;
pub use crate::effect::{Effect, EffectFlags, EffectFlagsIter};
pub use crate::style::Style;

verus! {

/// A styled value: a value with a style applied to it, and the stream that
/// it will be written to
pub struct StyledValue<T> {
    /// The value to style
    pub value: T,
    /// The style to use
    pub style: Style,
    /// The stream to use
    pub stream: Option<Stream>,
}

/// A no color placeholder type
#[derive(Clone, Copy, Debug, PartialEq, Eq, Structural)]
pub struct NoColor;

/// A runtime color
///
/// It can be parsed from text: `#rrggbb` gives an RGB color, `#x`, `#xx` and a
/// decimal number up to 255 give a palette color, and the name of an ANSI color
/// (`red`, `bright blue`, ...) gives that color.
#[derive(Clone, Copy, Debug, PartialEq, Eq, Hash, Structural)]
pub enum Color {
    /// An ANSI color (see [`ansi`] for details)
    Ansi(AnsiColor),
    /// A palette color (see [`xterm`] for details)
    Xterm(XtermColor),
    /// A named CSS color (see [`css`] for details)
    Css(CssColor),
    /// A direct color (see [`rgb`] for details)
    Rgb(RgbColor),
}

/// The SGR arguments that set `c` on `layer`, without the `ESC [` prefix or the
/// closing `m`.
pub open spec fn color_args(c: Color, layer: Layer) -> Seq<char> {
    match c {
        Color::Ansi(a) => a.args(layer),
        Color::Xterm(x) => indexed_args(layer, x.index as nat),
        Color::Css(n) => rgb_args(layer, n.rgb()),
        Color::Rgb(v) => rgb_args(layer, v),
    }
}

/// The standalone escape sequence that sets `c` on `layer`.
pub open spec fn color_escape(c: Color, layer: Layer) -> Seq<char> {
    framed(color_args(c, layer))
}

/// The kind of color that a terminal must support to show `c`.
pub open spec fn kind_of(c: Color) -> ColorKind {
    match c {
        Color::Ansi(_) => ColorKind::Ansi,
        Color::Xterm(_) => ColorKind::Xterm,
        Color::Css(_) => ColorKind::Rgb,
        Color::Rgb(_) => ColorKind::Rgb,
    }
}

/// The kind of an optional color, [`ColorKind::NoColor`] where there is none.
pub open spec fn optional_kind(c: Option<Color>) -> ColorKind {
    match c {
        Some(c) => kind_of(c),
        None => ColorKind::NoColor,
    }
}

/// Every escape sequence of a color is its arguments framed by `ESC [` and `m`,
/// on every layer.
pub proof fn escape_frames_args(c: Color, layer: Layer)
    ensures
        color_escape(c, layer).len() == color_args(c, layer).len() + 3,
        color_escape(c, layer).subrange(0, 2) == esc_open(),
        color_escape(c, layer).last() == 'm',
        color_escape(c, layer).subrange(2, color_escape(c, layer).len() - 1) == color_args(
            c,
            layer,
        ),
{
    let e = color_escape(c, layer);
    let a = color_args(c, layer);
    assert(e.subrange(0, 2) =~= esc_open());
    assert(e.subrange(2, e.len() - 1) =~= a);
    assert(e.last() == esc_close()[0]);
}

impl Color {
    /// The color kind of this color, used to check whether a terminal can show it
    pub fn color_kind(self) -> (r: ColorKind)
        ensures
            r == kind_of(self),
    {
        match self {
            Color::Ansi(_) => ColorKind::Ansi,
            Color::Xterm(_) => ColorKind::Xterm,
            Color::Css(_) => ColorKind::Rgb,
            Color::Rgb(_) => ColorKind::Rgb,
        }
    }

    /// Appends the SGR arguments of this color on `layer`.
    pub fn fmt_args(self, layer: Layer, out: &mut String)
        ensures
            final(out)@ == old(out)@ + color_args(self, layer),
    {
        match self {
            Color::Ansi(a) => a.fmt_args(layer, out),
            Color::Xterm(x) => x.fmt_args(layer, out),
            Color::Css(n) => n.to_rgb().fmt_args(layer, out),
            Color::Rgb(v) => v.fmt_args(layer, out),
        }
    }

    /// Appends the standalone escape sequence of this color on `layer`.
    pub fn fmt_escape(self, layer: Layer, out: &mut String)
        ensures
            final(out)@ == old(out)@ + color_escape(self, layer),
    {
        write_esc_open(out);
        self.fmt_args(layer, out);
        write_esc_close(out);
        assert(out@ =~= old(out)@ + color_escape(self, layer));
    }

    /// The SGR arguments of this color on `layer`
    pub fn args(self, layer: Layer) -> (r: String)
        ensures
            r@ == color_args(self, layer),
    {
        let mut out = String::new();
        self.fmt_args(layer, &mut out);
        assert(out@ =~= color_args(self, layer));
        out
    }

    /// The standalone escape sequence of this color on `layer`
    pub fn escape(self, layer: Layer) -> (r: String)
        ensures
            r@ == color_escape(self, layer),
    {
        let mut out = String::new();
        self.fmt_escape(layer, &mut out);
        assert(out@ =~= color_escape(self, layer));
        out
    }

    /// Appends the foreground arguments
    pub fn fmt_foreground_args(self, out: &mut String)
        ensures
            final(out)@ == old(out)@ + color_args(self, Layer::Foreground),
    {
        self.fmt_args(Layer::Foreground, out)
    }

    /// Appends the background arguments
    pub fn fmt_background_args(self, out: &mut String)
        ensures
            final(out)@ == old(out)@ + color_args(self, Layer::Background),
    {
        self.fmt_args(Layer::Background, out)
    }

    /// Appends the underline arguments
    pub fn fmt_underline_args(self, out: &mut String)
        ensures
            final(out)@ == old(out)@ + color_args(self, Layer::Underline),
    {
        self.fmt_args(Layer::Underline, out)
    }

    /// Appends the foreground escape sequence
    pub fn fmt_foreground(self, out: &mut String)
        ensures
            final(out)@ == old(out)@ + color_escape(self, Layer::Foreground),
    {
        self.fmt_escape(Layer::Foreground, out)
    }

    /// Appends the background escape sequence
    pub fn fmt_background(self, out: &mut String)
        ensures
            final(out)@ == old(out)@ + color_escape(self, Layer::Background),
    {
        self.fmt_escape(Layer::Background, out)
    }

    /// Appends the underline escape sequence
    pub fn fmt_underline(self, out: &mut String)
        ensures
            final(out)@ == old(out)@ + color_escape(self, Layer::Underline),
    {
        self.fmt_escape(Layer::Underline, out)
    }
}

/// A single definite color: one of the color types of this crate.
pub trait ColorSpec: Sized {
    /// The runtime color that this value stands for.
    spec fn spec_color(&self) -> Color;

    /// Convert to the runtime color
    fn into_color(self) -> (r: Color)
        ensures
            r == self.spec_color(),
    ;

    /// The foreground arguments, excluding the leading `ESC [`
    fn foreground_args(self) -> (r: String)
        ensures
            r@ == color_args(self.spec_color(), Layer::Foreground),
    {
        self.into_color().args(Layer::Foreground)
    }

    /// The background arguments, excluding the leading `ESC [`
    fn background_args(self) -> (r: String)
        ensures
            r@ == color_args(self.spec_color(), Layer::Background),
    {
        self.into_color().args(Layer::Background)
    }

    /// The underline arguments, excluding the leading `ESC [`
    fn underline_args(self) -> (r: String)
        ensures
            r@ == color_args(self.spec_color(), Layer::Underline),
    {
        self.into_color().args(Layer::Underline)
    }

    /// The foreground escape sequence
    fn foreground_escape(self) -> (r: String)
        ensures
            r@ == color_escape(self.spec_color(), Layer::Foreground),
    {
        self.into_color().escape(Layer::Foreground)
    }

    /// The background escape sequence
    fn background_escape(self) -> (r: String)
        ensures
            r@ == color_escape(self.spec_color(), Layer::Background),
    {
        self.into_color().escape(Layer::Background)
    }

    /// The underline escape sequence
    fn underline_escape(self) -> (r: String)
        ensures
            r@ == color_escape(self.spec_color(), Layer::Underline),
    {
        self.into_color().escape(Layer::Underline)
    }
}

impl ColorSpec for AnsiColor {
    open spec fn spec_color(&self) -> Color {
        Color::Ansi(*self)
    }

    fn into_color(self) -> (r: Color) {
        Color::Ansi(self)
    }
}

impl ColorSpec for XtermColor {
    open spec fn spec_color(&self) -> Color {
        Color::Xterm(*self)
    }

    fn into_color(self) -> (r: Color) {
        Color::Xterm(self)
    }
}

impl ColorSpec for CssColor {
    open spec fn spec_color(&self) -> Color {
        Color::Css(*self)
    }

    fn into_color(self) -> (r: Color) {
        Color::Css(self)
    }
}

impl ColorSpec for RgbColor {
    open spec fn spec_color(&self) -> Color {
        Color::Rgb(*self)
    }

    fn into_color(self) -> (r: Color) {
        Color::Rgb(self)
    }
}

impl<const RED: u8, const GREEN: u8, const BLUE: u8> ColorSpec for Rgb<RED, GREEN, BLUE> {
    open spec fn spec_color(&self) -> Color {
        Color::Rgb(Self::spec_dynamic())
    }

    fn into_color(self) -> (r: Color) {
        Color::Rgb(Self::dynamic())
    }
}

/// A value that may name a color: a color type, [`NoColor`], or an `Option<Color>`.
pub trait OptionalColor: Sized {
    /// The color named, if any.
    spec fn spec_get(&self) -> Option<Color>;

    /// Get the color value
    fn get(self) -> (r: Option<Color>)
        ensures
            r == self.spec_get(),
    ;

    /// The color kind, used to check whether a terminal can show the color
    fn color_kind(self) -> (r: ColorKind)
        ensures
            r == optional_kind(self.spec_get()),
    {
        match self.get() {
            Some(c) => c.color_kind(),
            None => ColorKind::NoColor,
        }
    }
}

impl<C: ColorSpec> OptionalColor for C {
    open spec fn spec_get(&self) -> Option<Color> {
        Some(self.spec_color())
    }

    fn get(self) -> (r: Option<Color>) {
        Some(self.into_color())
    }
}

impl ColorSpec for Color {
    open spec fn spec_color(&self) -> Color {
        *self
    }

    fn into_color(self) -> (r: Color) {
        self
    }
}

impl OptionalColor for Option<Color> {
    open spec fn spec_get(&self) -> Option<Color> {
        *self
    }

    fn get(self) -> (r: Option<Color>) {
        self
    }
}

impl OptionalColor for NoColor {
    open spec fn spec_get(&self) -> Option<Color> {
        None
    }

    fn get(self) -> (r: Option<Color>) {
        None
    }
}

} // verus!
pub mod style;
pub mod value;
