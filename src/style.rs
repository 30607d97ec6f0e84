//! Styles, and the escape sequences that apply and clear them.

use vstd::prelude::*;

use crate::ansi::AnsiColor;
use crate::effect::{effect_at, lemma_index_injective, Effect, EffectFlags, EFFECT_COUNT};
use crate::mode::{coloring, ColorKind, ColorPolicy, Coloring, Stream};
use crate::sgr::{dec, framed, push_char, write_esc_close, write_esc_open, write_sep, write_u8, Layer};
use crate::{color_args, color_escape, optional_kind, Color, OptionalColor};

verus! {

/// A generic style format, this specifies the colors of the foreground, background, underline,
/// and what effects the text should have (bold, italics, etc.)
#[derive(Clone, Copy, Debug, PartialEq, Eq, Hash, Structural)]
pub struct Style {
    /// The foreground color
    pub foreground: Option<Color>,
    /// The background color
    pub background: Option<Color>,
    /// The underline color
    pub underline_color: Option<Color>,
    /// The various effects (like bold, italics, etc.)
    pub effects: EffectFlags,
}

impl Style {
    /// `self` with `opt` added to its effects.
    pub open spec fn with_spec(self, opt: Effect) -> Style {
        Style { effects: self.effects.with_spec(opt), ..self }
    }

    /// Create a new style, with no colors and no effects
    pub fn new() -> (r: Style)
        ensures
            r.foreground is None,
            r.background is None,
            r.underline_color is None,
            r.effects.has_none(),
    {
        Style {
            foreground: None,
            background: None,
            underline_color: None,
            effects: EffectFlags::new(),
        }
    }

    /// Set the foreground color
    pub fn fg<C: OptionalColor>(self, color: C) -> (r: Style)
        ensures
            r == (Style { foreground: color.spec_get(), ..self }),
    {
        Style { foreground: color.get(), ..self }
    }

    /// Set the background color
    pub fn bg<C: OptionalColor>(self, color: C) -> (r: Style)
        ensures
            r == (Style { background: color.spec_get(), ..self }),
    {
        Style { background: color.get(), ..self }
    }

    /// Set the underline color
    pub fn underline_color<C: OptionalColor>(self, color: C) -> (r: Style)
        ensures
            r == (Style { underline_color: color.spec_get(), ..self }),
    {
        Style { underline_color: color.get(), ..self }
    }

    /// Does this style use the effect
    pub fn is(&self, opt: Effect) -> (r: bool)
        ensures
            r == self.effects.has(opt),
    {
        self.effects.is(opt)
    }

    /// Set which effects are used
    pub fn effects(self, flags: &[Effect]) -> (r: Style)
        ensures
            r.foreground == self.foreground,
            r.background == self.background,
            r.underline_color == self.underline_color,
            forall|e: Effect| #[trigger] r.effects.has(e) == flags@.contains(e),
    {
        Style { effects: EffectFlags::from_slice(flags), ..self }
    }

    /// Set which effects are used
    pub fn effects_array<const N: usize>(self, effects: [Effect; N]) -> (r: Style)
        ensures
            r.foreground == self.foreground,
            r.background == self.background,
            r.underline_color == self.underline_color,
            forall|e: Effect| #[trigger] r.effects.has(e) == effects@.contains(e),
    {
        Style { effects: EffectFlags::from_array(effects), ..self }
    }

    /// Set which effects are used
    pub fn effect_flags(self, effects: EffectFlags) -> (r: Style)
        ensures
            r == (Style { effects, ..self }),
    {
        Style { effects, ..self }
    }

    /// Clear all effects
    pub fn clear_effects(self) -> (r: Style)
        ensures
            r.foreground == self.foreground,
            r.background == self.background,
            r.underline_color == self.underline_color,
            r.effects.has_none(),
    {
        self.effect_flags(EffectFlags::new())
    }

    /// Add the given effect
    pub fn with(self, opt: Effect) -> (r: Style)
        ensures
            r == self.with_spec(opt),
            forall|e: Effect| #[trigger] r.effects.has(e) == (self.effects.has(e) || e == opt),
    {
        Style { effects: self.effects.with(opt), ..self }
    }

    /// Remove the given effect
    pub fn without(self, opt: Effect) -> (r: Style)
        ensures
            r.foreground == self.foreground,
            r.background == self.background,
            r.underline_color == self.underline_color,
            forall|e: Effect| #[trigger] r.effects.has(e) == (self.effects.has(e) && e != opt),
    {
        Style { effects: self.effects.without(opt), ..self }
    }

    /// Toggle the effect
    pub fn toggled(self, opt: Effect) -> (r: Style)
        ensures
            r.foreground == self.foreground,
            r.background == self.background,
            r.underline_color == self.underline_color,
            forall|e: Effect| #[trigger] r.effects.has(e) == (self.effects.has(e) != (e == opt)),
    {
        Style { effects: self.effects.toggled(opt), ..self }
    }

    /// Makes the value bold
    pub fn bold(self) -> (r: Style)
        ensures
            r == self.with_spec(Effect::Bold),
    {
        self.with(Effect::Bold)
    }

    /// Makes the value faint
    pub fn dimmed(self) -> (r: Style)
        ensures
            r == self.with_spec(Effect::Dimmed),
    {
        self.with(Effect::Dimmed)
    }

    /// Makes the value italic
    pub fn italics(self) -> (r: Style)
        ensures
            r == self.with_spec(Effect::Italic),
    {
        self.with(Effect::Italic)
    }

    /// Underlines the value
    pub fn underline(self) -> (r: Style)
        ensures
            r == self.with_spec(Effect::Underline),
    {
        self.with(Effect::Underline)
    }

    /// Underlines the value twice
    pub fn double_underline(self) -> (r: Style)
        ensures
            r == self.with_spec(Effect::DoubleUnderline),
    {
        self.with(Effect::DoubleUnderline)
    }

    /// Makes the value blink
    pub fn blink(self) -> (r: Style)
        ensures
            r == self.with_spec(Effect::Blink),
    {
        self.with(Effect::Blink)
    }

    /// Makes the value blink fast
    pub fn blink_fast(self) -> (r: Style)
        ensures
            r == self.with_spec(Effect::BlinkFast),
    {
        self.with(Effect::BlinkFast)
    }

    /// Swaps the foreground and background colors
    pub fn reverse(self) -> (r: Style)
        ensures
            r == self.with_spec(Effect::Reversed),
    {
        self.with(Effect::Reversed)
    }

    /// Hides the value
    pub fn hidden(self) -> (r: Style)
        ensures
            r == self.with_spec(Effect::Hidden),
    {
        self.with(Effect::Hidden)
    }

    /// Strikes the value through
    pub fn strikethrough(self) -> (r: Style)
        ensures
            r == self.with_spec(Effect::Strikethrough),
    {
        self.with(Effect::Strikethrough)
    }

    /// Draws a line over the value
    pub fn overline(self) -> (r: Style)
        ensures
            r == self.with_spec(Effect::Overline),
    {
        self.with(Effect::Overline)
    }

    /// Raises the value as a superscript
    pub fn superscript(self) -> (r: Style)
        ensures
            r == self.with_spec(Effect::SuperScript),
    {
        self.with(Effect::SuperScript)
    }

    /// Lowers the value as a subscript
    pub fn subscript(self) -> (r: Style)
        ensures
            r == self.with_spec(Effect::SubScript),
    {
        self.with(Effect::SubScript)
    }
}

/// The SGR arguments that apply `e`, or clear it when `clearing`.
pub open spec fn effect_part(e: Effect, clearing: bool) -> Seq<char> {
    if clearing {
        dec(e.clear_num())
    } else {
        dec(e.apply_num())
    }
}

/// The arguments of the effects of `f` among the first `n` bit positions, in
/// ascending bit order.
pub open spec fn effect_parts(f: EffectFlags, n: nat, clearing: bool) -> Seq<Seq<char>>
    decreases n,
{
    if n == 0 {
        seq![]
    } else {
        let earlier = effect_parts(f, (n - 1) as nat, clearing);
        if f.has(effect_at((n - 1) as nat)) {
            earlier.push(effect_part(effect_at((n - 1) as nat), clearing))
        } else {
            earlier
        }
    }
}

proof fn lemma_effect_parts_empty(f: EffectFlags, n: nat, clearing: bool)
    requires
        n <= 13,
    ensures
        (effect_parts(f, n, clearing).len() == 0) == (forall|i: nat|
            i < n ==> !f.has(#[trigger] effect_at(i))),
    decreases n,
{
    if n > 0 {
        lemma_effect_parts_empty(f, (n - 1) as nat, clearing);
        if effect_parts(f, n, clearing).len() == 0 {
            assert forall|i: nat| i < n implies !f.has(#[trigger] effect_at(i)) by {
                if i < n - 1 {
                } else {
                    assert(i == n - 1);
                }
            }
        }
    }
}

/// The parts of an SGR sequence joined by `;`.
pub open spec fn join(parts: Seq<Seq<char>>) -> Seq<char>
    decreases parts.len(),
{
    if parts.len() == 0 {
        seq![]
    } else if parts.len() == 1 {
        parts[0]
    } else {
        join(parts.drop_last()) + seq![';'] + parts.last()
    }
}

/// One SGR sequence of `parts`, or nothing where there are none.
pub open spec fn sgr(parts: Seq<Seq<char>>) -> Seq<char> {
    if parts.len() == 0 {
        seq![]
    } else {
        framed(join(parts))
    }
}

proof fn lemma_join_push(parts: Seq<Seq<char>>, p: Seq<char>)
    ensures
        join(parts.push(p)) == if parts.len() == 0 {
            p
        } else {
            join(parts) + seq![';'] + p
        },
{
    assert(parts.push(p).drop_last() =~= parts);
}

/// The argument part of an optional color on `layer`; on clearing, the part
/// that restores the terminal's default color there.
pub open spec fn color_part(c: Option<Color>, layer: Layer, clearing: bool) -> Seq<Seq<char>> {
    match c {
        None => seq![],
        Some(c) => if clearing {
            seq![color_args(Color::Ansi(AnsiColor::Default), layer)]
        } else {
            seq![color_args(c, layer)]
        },
    }
}

/// The parts of the combined SGR sequence of `s`: foreground, background, then
/// each effect in ascending bit order.
pub open spec fn style_parts(s: Style, clearing: bool) -> Seq<Seq<char>> {
    color_part(s.foreground, Layer::Foreground, clearing) + color_part(
        s.background,
        Layer::Background,
        clearing,
    ) + effect_parts(s.effects, 13, clearing)
}

/// Is the underline color of `s` shown: it is set and an underline effect is on.
pub open spec fn underline_shown(s: Style) -> bool {
    &&& s.underline_color is Some
    &&& (s.effects.has(Effect::Underline) || s.effects.has(Effect::DoubleUnderline))
}

/// Does `s` set every effect and both foreground and background.
pub open spec fn is_complete(s: Style) -> bool {
    &&& s.effects.has_all()
    &&& s.foreground is Some
    &&& s.background is Some
}

/// Does `s` set no color on the foreground or background, and no effect.
pub open spec fn is_plain_style(s: Style) -> bool {
    &&& s.foreground is None
    &&& s.background is None
    &&& s.effects.has_none()
}

/// The universal reset sequence, `ESC [ 0 m`.
pub open spec fn reset_text() -> Seq<char> {
    framed(seq!['0'])
}

/// The sequence that resets the underline color, `ESC [ 59 m`.
pub open spec fn underline_reset_text() -> Seq<char> {
    framed(seq!['5', '9'])
}

/// The text that applies `s`.
pub open spec fn apply_text(s: Style) -> Seq<char> {
    (if underline_shown(s) {
        color_escape(s.underline_color.unwrap(), Layer::Underline)
    } else {
        seq![]
    }) + sgr(style_parts(s, false))
}

/// The text that clears `s`.
pub open spec fn clear_text(s: Style) -> Seq<char> {
    if is_complete(s) {
        reset_text()
    } else {
        (if underline_shown(s) {
            underline_reset_text()
        } else {
            seq![]
        }) + sgr(style_parts(s, true))
    }
}

impl Style {
    /// Does this style apply any colors or effects
    pub fn is_plain(&self) -> (r: bool)
        ensures
            r == is_plain_style(*self),
    {
        self.effects.is_plain() && self.foreground.is_none() && self.background.is_none()
    }

    proof fn lemma_plain_parts(&self, clearing: bool)
        ensures
            (style_parts(*self, clearing).len() == 0) == is_plain_style(*self),
    {
        lemma_effect_parts_empty(self.effects, 13, clearing);
        if style_parts(*self, clearing).len() == 0 {
            assert forall|e: Effect| !#[trigger] self.effects.has(e) by {
                lemma_index_injective(e, e);
            }
        }
    }

    /// Appends the combined SGR sequence of this style: its apply form, or its
    /// clear form when `clearing`.
    fn fmt_sgr(&self, clearing: bool, out: &mut String)
        ensures
            final(out)@ == old(out)@ + sgr(style_parts(*self, clearing)),
    {
        proof {
            self.lemma_plain_parts(clearing);
        }
        if self.is_plain() {
            assert(out@ =~= old(out)@ + sgr(style_parts(*self, clearing)));
            return ;
        }
        write_esc_open(out);
        let ghost start = out@;
        let ghost mut written: Seq<Seq<char>> = seq![];
        let mut any = false;
        if let Some(fg) = self.foreground {
            let c = if clearing {
                Color::Ansi(AnsiColor::Default)
            } else {
                fg
            };
            c.fmt_args(Layer::Foreground, out);
            proof {
                lemma_join_push(written, color_args(c, Layer::Foreground));
                written = written.push(color_args(c, Layer::Foreground));
                assert(out@ =~= start + join(written));
            }
            any = true;
        }
        assert(written =~= color_part(self.foreground, Layer::Foreground, clearing));
        if let Some(bg) = self.background {
            let c = if clearing {
                Color::Ansi(AnsiColor::Default)
            } else {
                bg
            };
            if any {
                write_sep(out);
            }
            c.fmt_args(Layer::Background, out);
            proof {
                lemma_join_push(written, color_args(c, Layer::Background));
                written = written.push(color_args(c, Layer::Background));
                assert(out@ =~= start + join(written));
            }
            any = true;
        }
        let ghost colors = written;
        assert(colors =~= color_part(self.foreground, Layer::Foreground, clearing) + color_part(
            self.background,
            Layer::Background,
            clearing,
        ));
        assert(written =~= colors + effect_parts(self.effects, 0, clearing));
        let mut i: u8 = 0;
        while i < EFFECT_COUNT
            invariant
                i <= EFFECT_COUNT,
                out@ == start + join(written),
                any == (written.len() > 0),
                written == colors + effect_parts(self.effects, i as nat, clearing),
            decreases EFFECT_COUNT - i,
        {
            let e = Effect::from_bit(i);
            if self.effects.is(e) {
                if any {
                    write_sep(out);
                }
                let code = if clearing {
                    e.clear_code()
                } else {
                    e.apply_code()
                };
                write_u8(out, code);
                proof {
                    lemma_join_push(written, effect_part(e, clearing));
                    written = written.push(effect_part(e, clearing));
                    assert(out@ =~= start + join(written));
                }
                any = true;
            }
            assert(written =~= colors + effect_parts(self.effects, (i + 1) as nat, clearing));
            i = i + 1;
        }
        write_esc_close(out);
        assert(written == style_parts(*self, clearing));
        assert(out@ =~= old(out)@ + sgr(style_parts(*self, clearing)));
    }
}

impl Style {
    /// Appends the universal reset sequence
    fn fmt_clear_all(out: &mut String)
        ensures
            final(out)@ == old(out)@ + reset_text(),
    {
        write_esc_open(out);
        push_char(out, '0');
        write_esc_close(out);
        assert(out@ =~= old(out)@ + reset_text());
    }

    /// The universal reset sequence, which clears every style
    pub fn clear_all() -> (r: String)
        ensures
            r@ == reset_text(),
    {
        let mut out = String::new();
        Style::fmt_clear_all(&mut out);
        assert(out@ =~= reset_text());
        out
    }

    fn shows_underline(&self) -> (r: bool)
        ensures
            r == underline_shown(*self),
    {
        self.underline_color.is_some() && (self.effects.is(Effect::Underline) || self.effects.is(
            Effect::DoubleUnderline,
        ))
    }

    /// Appends the escape sequences that apply this style
    pub fn fmt_apply(&self, out: &mut String)
        ensures
            final(out)@ == old(out)@ + apply_text(*self),
    {
        let ghost start = out@;
        if self.shows_underline() {
            if let Some(c) = self.underline_color {
                c.fmt_underline(out);
            }
        }
        self.fmt_sgr(false, out);
        assert(out@ =~= start + apply_text(*self));
    }

    /// Appends the escape sequences that clear this style
    pub fn fmt_clear(&self, out: &mut String)
        ensures
            final(out)@ == old(out)@ + clear_text(*self),
    {
        if self.effects.is_all() && self.foreground.is_some() && self.background.is_some() {
            Style::fmt_clear_all(out);
            return ;
        }
        let ghost start = out@;
        if self.shows_underline() {
            write_esc_open(out);
            push_char(out, '5');
            push_char(out, '9');
            write_esc_close(out);
        }
        self.fmt_sgr(true, out);
        assert(out@ =~= start + clear_text(*self));
    }

    /// The escape sequences that apply this style
    pub fn apply(self) -> (r: String)
        ensures
            r@ == apply_text(self),
    {
        let mut out = String::new();
        self.fmt_apply(&mut out);
        assert(out@ =~= apply_text(self));
        out
    }

    /// The escape sequences that clear this style (reverses whatever [`apply`](Self::apply) did)
    pub fn clear(self) -> (r: String)
        ensures
            r@ == clear_text(self),
    {
        let mut out = String::new();
        self.fmt_clear(&mut out);
        assert(out@ =~= clear_text(self));
        out
    }
}

/// A style with no color on the foreground or background and no effect applies
/// and clears with nothing at all.
pub proof fn plain_style_renders_empty(s: Style)
    requires
        is_plain_style(s),
    ensures
        apply_text(s) == Seq::<char>::empty(),
        clear_text(s) == Seq::<char>::empty(),
{
    s.lemma_plain_parts(false);
    s.lemma_plain_parts(true);
    assert(!underline_shown(s));
    assert(!is_complete(s)) by {
        assert(!s.effects.has(Effect::Bold));
    }
    assert(apply_text(s) =~= Seq::<char>::empty());
    assert(clear_text(s) =~= Seq::<char>::empty());
}

/// A style that sets every effect and both foreground and background clears
/// with the universal reset `ESC [ 0 m`, whatever its colors.
pub proof fn complete_style_clears_with_reset(s: Style)
    requires
        s.effects.has_all(),
        s.foreground is Some,
        s.background is Some,
    ensures
        clear_text(s) == seq!['\x1b', '[', '0', 'm'],
{
    assert(reset_text() =~= seq!['\x1b', '[', '0', 'm']);
}

/// The kinds of the colors of `s`: foreground, background and underline.
pub open spec fn style_kinds(s: Style) -> Seq<ColorKind> {
    seq![optional_kind(s.foreground), optional_kind(s.background), optional_kind(s.underline_color)]
}

impl Style {
    /// The same style; every style is already a runtime style
    pub fn into_runtime_style(self) -> (r: Style)
        ensures
            r == self,
    {
        self
    }

    /// The same style; every style is already a runtime style
    pub fn const_into_runtime_style(self) -> (r: Style)
        ensures
            r == self,
    {
        self
    }

    /// Should this style be applied to a value on `stream`, under `policy`
    pub fn should_color(&self, policy: &ColorPolicy, stream: Option<Stream>) -> (r: Coloring)
        ensures
            r == coloring(policy@, stream, style_kinds(*self)),
    {
        let kinds = [
            self.foreground.color_kind(),
            self.background.color_kind(),
            self.underline_color.color_kind(),
        ];
        assert(kinds@ =~= style_kinds(*self));
        policy.should_color(stream, &kinds)
    }
}

impl Default for Style {
    fn default() -> (r: Self)
        ensures
            r.foreground is None,
            r.background is None,
            r.underline_color is None,
            r.effects.has_none(),
    {
        Style::new()
    }
}

} // verus!
