//! Text effects, and the set of them that a style applies.

use vstd::prelude::*;

use crate::sgr::{dec, framed, write_esc_close, write_esc_open, write_u8};

verus! {

/// An effect that can be applied to values
#[derive(Clone, Copy, Debug, PartialEq, Eq, Hash, Structural)]
pub enum Effect {
    /// Makes the value bold
    Bold,
    /// Makes the value faint
    Dimmed,
    /// Makes the value italic
    Italic,
    /// Underlines the value
    Underline,
    /// Underlines the value twice
    DoubleUnderline,
    /// Makes the value blink
    Blink,
    /// Makes the value blink fast
    BlinkFast,
    /// Swaps foreground and background colors
    Reversed,
    /// Hides the value
    Hidden,
    /// Strikes the value through
    Strikethrough,
    /// Draws a line over the value
    Overline,
    /// Raises the value as a superscript
    SuperScript,
    /// Lowers the value as a subscript
    SubScript,
}

/// The number of effects.
pub const EFFECT_COUNT: u8 = 13;

/// The effect at bit position `i`, in declared order.
pub open spec fn effect_at(i: nat) -> Effect {
    if i == 0 {
        Effect::Bold
    } else if i == 1 {
        Effect::Dimmed
    } else if i == 2 {
        Effect::Italic
    } else if i == 3 {
        Effect::Underline
    } else if i == 4 {
        Effect::DoubleUnderline
    } else if i == 5 {
        Effect::Blink
    } else if i == 6 {
        Effect::BlinkFast
    } else if i == 7 {
        Effect::Reversed
    } else if i == 8 {
        Effect::Hidden
    } else if i == 9 {
        Effect::Strikethrough
    } else if i == 10 {
        Effect::Overline
    } else if i == 11 {
        Effect::SuperScript
    } else {
        Effect::SubScript
    }
}

impl Effect {
    /// The bit position of this effect in an [`EffectFlags`].
    pub open spec fn index(self) -> nat {
        match self {
            Effect::Bold => 0,
            Effect::Dimmed => 1,
            Effect::Italic => 2,
            Effect::Underline => 3,
            Effect::DoubleUnderline => 4,
            Effect::Blink => 5,
            Effect::BlinkFast => 6,
            Effect::Reversed => 7,
            Effect::Hidden => 8,
            Effect::Strikethrough => 9,
            Effect::Overline => 10,
            Effect::SuperScript => 11,
            Effect::SubScript => 12,
        }
    }

    /// The SGR number that applies this effect.
    pub open spec fn apply_num(self) -> nat {
        match self {
            Effect::Bold => 1,
            Effect::Dimmed => 2,
            Effect::Italic => 3,
            Effect::Underline => 4,
            Effect::DoubleUnderline => 21,
            Effect::Blink => 5,
            Effect::BlinkFast => 6,
            Effect::Reversed => 7,
            Effect::Hidden => 8,
            Effect::Strikethrough => 9,
            Effect::Overline => 53,
            Effect::SuperScript => 73,
            Effect::SubScript => 74,
        }
    }

    /// The SGR number that clears this effect.
    pub open spec fn clear_num(self) -> nat {
        match self {
            Effect::Bold => 22,
            Effect::Dimmed => 22,
            Effect::Italic => 23,
            Effect::Underline => 24,
            Effect::DoubleUnderline => 24,
            Effect::Blink => 25,
            Effect::BlinkFast => 25,
            Effect::Reversed => 27,
            Effect::Hidden => 28,
            Effect::Strikethrough => 29,
            Effect::Overline => 55,
            Effect::SuperScript => 75,
            Effect::SubScript => 75,
        }
    }

    /// The effect at bit position `i`
    pub fn from_bit(i: u8) -> (r: Effect)
        requires
            i < EFFECT_COUNT,
        ensures
            r == effect_at(i as nat),
            r.index() == i as nat,
    {
        match i {
            0 => Effect::Bold,
            1 => Effect::Dimmed,
            2 => Effect::Italic,
            3 => Effect::Underline,
            4 => Effect::DoubleUnderline,
            5 => Effect::Blink,
            6 => Effect::BlinkFast,
            7 => Effect::Reversed,
            8 => Effect::Hidden,
            9 => Effect::Strikethrough,
            10 => Effect::Overline,
            11 => Effect::SuperScript,
            _ => Effect::SubScript,
        }
    }

    /// The bit position of this effect
    pub fn bit(self) -> (r: u8)
        ensures
            r as nat == self.index(),
            r < EFFECT_COUNT,
    {
        match self {
            Effect::Bold => 0,
            Effect::Dimmed => 1,
            Effect::Italic => 2,
            Effect::Underline => 3,
            Effect::DoubleUnderline => 4,
            Effect::Blink => 5,
            Effect::BlinkFast => 6,
            Effect::Reversed => 7,
            Effect::Hidden => 8,
            Effect::Strikethrough => 9,
            Effect::Overline => 10,
            Effect::SuperScript => 11,
            Effect::SubScript => 12,
        }
    }

    /// The SGR number that applies this effect
    pub fn apply_code(self) -> (r: u8)
        ensures
            r as nat == self.apply_num(),
    {
        match self {
            Effect::Bold => 1,
            Effect::Dimmed => 2,
            Effect::Italic => 3,
            Effect::Underline => 4,
            Effect::DoubleUnderline => 21,
            Effect::Blink => 5,
            Effect::BlinkFast => 6,
            Effect::Reversed => 7,
            Effect::Hidden => 8,
            Effect::Strikethrough => 9,
            Effect::Overline => 53,
            Effect::SuperScript => 73,
            Effect::SubScript => 74,
        }
    }

    /// The SGR number that clears this effect
    pub fn clear_code(self) -> (r: u8)
        ensures
            r as nat == self.clear_num(),
    {
        match self {
            Effect::Bold => 22,
            Effect::Dimmed => 22,
            Effect::Italic => 23,
            Effect::Underline => 24,
            Effect::DoubleUnderline => 24,
            Effect::Blink => 25,
            Effect::BlinkFast => 25,
            Effect::Reversed => 27,
            Effect::Hidden => 28,
            Effect::Strikethrough => 29,
            Effect::Overline => 55,
            Effect::SuperScript => 75,
            Effect::SubScript => 75,
        }
    }
}

impl Effect {
    /// The SGR arguments that apply this effect
    pub fn apply_args(self) -> (r: String)
        ensures
            r@ == dec(self.apply_num()),
    {
        let mut out = String::new();
        write_u8(&mut out, self.apply_code());
        assert(out@ =~= dec(self.apply_num()));
        out
    }

    /// The SGR arguments that clear this effect
    pub fn clear_args(self) -> (r: String)
        ensures
            r@ == dec(self.clear_num()),
    {
        let mut out = String::new();
        write_u8(&mut out, self.clear_code());
        assert(out@ =~= dec(self.clear_num()));
        out
    }

    /// The escape sequence that applies this effect
    pub fn apply_escape(self) -> (r: String)
        ensures
            r@ == framed(dec(self.apply_num())),
    {
        let mut out = String::new();
        write_esc_open(&mut out);
        write_u8(&mut out, self.apply_code());
        write_esc_close(&mut out);
        assert(out@ =~= framed(dec(self.apply_num())));
        out
    }

    /// The escape sequence that clears this effect
    pub fn clear_escape(self) -> (r: String)
        ensures
            r@ == framed(dec(self.clear_num())),
    {
        let mut out = String::new();
        write_esc_open(&mut out);
        write_u8(&mut out, self.clear_code());
        write_esc_close(&mut out);
        assert(out@ =~= framed(dec(self.clear_num())));
        out
    }
}

/// A collection of [`Effect`]s
#[derive(Clone, Copy, Debug, PartialEq, Eq, Hash, Structural)]
pub struct EffectFlags {
    data: u16,
}

/// The bits of all effects.
const ALL_BITS: u16 = 0x1fff;

proof fn lemma_set_bit(d: u16, i: u16, j: u16)
    requires
        d < 0x2000,
        i < 13,
        j < 13,
    ensures
        ((d | (1u16 << i)) & (1u16 << j) != 0) == ((d & (1u16 << j) != 0) || i == j),
        ((d & !(1u16 << i)) & (1u16 << j) != 0) == ((d & (1u16 << j) != 0) && i != j),
        ((d ^ (1u16 << i)) & (1u16 << j) != 0) == ((d & (1u16 << j) != 0) != (i == j)),
        d | (1u16 << i) < 0x2000,
        d & !(1u16 << i) < 0x2000,
        d ^ (1u16 << i) < 0x2000,
{
    assert(((d | (1u16 << i)) & (1u16 << j) != 0) == ((d & (1u16 << j) != 0) || i == j))
        by (bit_vector)
        requires
            i < 13,
            j < 13,
    ;
    assert(((d & !(1u16 << i)) & (1u16 << j) != 0) == ((d & (1u16 << j) != 0) && i != j))
        by (bit_vector)
        requires
            i < 13,
            j < 13,
    ;
    assert(((d ^ (1u16 << i)) & (1u16 << j) != 0) == ((d & (1u16 << j) != 0) != (i == j)))
        by (bit_vector)
        requires
            i < 13,
            j < 13,
    ;
    assert(d | (1u16 << i) < 0x2000 && d & !(1u16 << i) < 0x2000 && d ^ (1u16 << i) < 0x2000)
        by (bit_vector)
        requires
            d < 0x2000,
            i < 13,
    ;
}

proof fn lemma_all_bits(i: u16)
    requires
        i < 13,
    ensures
        ALL_BITS & (1u16 << i) != 0,
{
    assert(0x1fffu16 & (1u16 << i) != 0) by (bit_vector)
        requires
            i < 13,
    ;
}

/// A value below `0x2000` is zero when none of its low thirteen bits is set,
/// and all of them when every one is set.
proof fn lemma_bits_decide(d: u16)
    requires
        d < 0x2000,
    ensures
        (forall|i: u16| i < 13 ==> d & #[trigger] (1u16 << i) == 0) ==> d == 0,
        (forall|i: u16| i < 13 ==> d & #[trigger] (1u16 << i) != 0) ==> d == ALL_BITS,
{
    if forall|i: u16| i < 13 ==> d & #[trigger] (1u16 << i) == 0 {
        assert(d == 0) by (bit_vector)
            requires
                d < 0x2000,
                d & (1u16 << 0u16) == 0,
                d & (1u16 << 1u16) == 0,
                d & (1u16 << 2u16) == 0,
                d & (1u16 << 3u16) == 0,
                d & (1u16 << 4u16) == 0,
                d & (1u16 << 5u16) == 0,
                d & (1u16 << 6u16) == 0,
                d & (1u16 << 7u16) == 0,
                d & (1u16 << 8u16) == 0,
                d & (1u16 << 9u16) == 0,
                d & (1u16 << 10u16) == 0,
                d & (1u16 << 11u16) == 0,
                d & (1u16 << 12u16) == 0,
        ;
    }
    if forall|i: u16| i < 13 ==> d & #[trigger] (1u16 << i) != 0 {
        assert(d == 0x1fff) by (bit_vector)
            requires
                d < 0x2000,
                d & (1u16 << 0u16) != 0,
                d & (1u16 << 1u16) != 0,
                d & (1u16 << 2u16) != 0,
                d & (1u16 << 3u16) != 0,
                d & (1u16 << 4u16) != 0,
                d & (1u16 << 5u16) != 0,
                d & (1u16 << 6u16) != 0,
                d & (1u16 << 7u16) != 0,
                d & (1u16 << 8u16) != 0,
                d & (1u16 << 9u16) != 0,
                d & (1u16 << 10u16) != 0,
                d & (1u16 << 11u16) != 0,
                d & (1u16 << 12u16) != 0,
        ;
    }
}

pub(crate) proof fn lemma_index_injective(a: Effect, b: Effect)
    ensures
        (a.index() == b.index()) == (a == b),
        a.index() < 13,
        effect_at(a.index()) == a,
{
}

impl EffectFlags {
    #[verifier::type_invariant]
    spec fn only_effect_bits(self) -> bool {
        self.data < 0x2000
    }

    /// Is `e` in the collection.
    pub closed spec fn has(self, e: Effect) -> bool {
        self.data & (1u16 << (e.index() as u16)) != 0
    }

    /// Does the collection hold every effect.
    pub open spec fn has_all(self) -> bool {
        forall|e: Effect| #[trigger] self.has(e)
    }

    /// Does the collection hold no effect.
    pub open spec fn has_none(self) -> bool {
        forall|e: Effect| !#[trigger] self.has(e)
    }

    proof fn lemma_decides(self)
        requires
            self.only_effect_bits(),
        ensures
            self.has_none() == (self.data == 0),
            self.has_all() == (self.data == ALL_BITS),
    {
        let d = self.data;
        if self.has_none() {
            assert forall|i: u16| i < 13 implies d & #[trigger] (1u16 << i) == 0 by {
                let e = effect_at(i as nat);
                assert(e.index() == i as nat);
                assert(!self.has(e));
            }
            lemma_bits_decide(d);
        }
        if self.has_all() {
            assert forall|i: u16| i < 13 implies d & #[trigger] (1u16 << i) != 0 by {
                let e = effect_at(i as nat);
                assert(e.index() == i as nat);
                assert(self.has(e));
            }
            lemma_bits_decide(d);
        }
        if d == 0 {
            assert forall|e: Effect| !#[trigger] self.has(e) by {
                let i = e.index() as u16;
                assert(0u16 & (1u16 << i) == 0) by (bit_vector);
            }
        }
        if d == ALL_BITS {
            assert forall|e: Effect| #[trigger] self.has(e) by {
                lemma_all_bits(e.index() as u16);
            }
        }
    }

    /// Create an empty set of effects
    pub fn new() -> (r: Self)
        ensures
            r.has_none(),
    {
        let r = EffectFlags { data: 0 };
        proof {
            use_type_invariant(&r);
            r.lemma_decides();
        }
        r
    }

    /// Create a set of all effects
    pub fn all() -> (r: Self)
        ensures
            r.has_all(),
    {
        let r = EffectFlags { data: ALL_BITS };
        proof {
            use_type_invariant(&r);
            r.lemma_decides();
        }
        r
    }

    /// Are there no effects
    pub fn is_plain(self) -> (r: bool)
        ensures
            r == self.has_none(),
    {
        proof {
            use_type_invariant(&self);
            self.lemma_decides();
        }
        self.data == 0
    }

    /// Are all effects present
    pub fn is_all(self) -> (r: bool)
        ensures
            r == self.has_all(),
    {
        proof {
            use_type_invariant(&self);
            self.lemma_decides();
        }
        self.data == ALL_BITS
    }

    /// Is this effect in the collection
    pub fn is(self, opt: Effect) -> (r: bool)
        ensures
            r == self.has(opt),
    {
        self.data & (1u16 << opt.bit()) != 0
    }

    /// The set with `opt` added.
    pub closed spec fn with_spec(self, opt: Effect) -> Self {
        EffectFlags { data: self.data | (1u16 << (opt.index() as u16)) }
    }

    /// The set with `opt` added holds exactly the effects of this one and `opt`.
    pub proof fn lemma_with_spec(self, opt: Effect)
        ensures
            forall|e: Effect| #[trigger] self.with_spec(opt).has(e) == (self.has(e) || e == opt),
    {
        assert forall|e: Effect| #[trigger] self.with_spec(opt).has(e) == (self.has(e) || e == opt) by {
            let (d, i, j) = (self.data, opt.index() as u16, e.index() as u16);
            assert(((d | (1u16 << i)) & (1u16 << j) != 0) == ((d & (1u16 << j) != 0) || i == j))
                by (bit_vector)
                requires
                    i < 13,
                    j < 13,
            ;
            lemma_index_injective(e, opt);
        }
    }

    /// Add an effect to the set
    pub fn with(self, opt: Effect) -> (r: Self)
        ensures
            r == self.with_spec(opt),
            forall|e: Effect| #[trigger] r.has(e) == (self.has(e) || e == opt),
    {
        proof {
            use_type_invariant(&self);
            lemma_set_bit(self.data, opt.index() as u16, 0);
        }
        let r = EffectFlags { data: self.data | (1u16 << opt.bit()) };
        assert forall|e: Effect| #[trigger] r.has(e) == (self.has(e) || e == opt) by {
            lemma_set_bit(self.data, opt.index() as u16, e.index() as u16);
            lemma_index_injective(e, opt);
        }
        r
    }

    /// Remove an effect from the set
    pub fn without(self, opt: Effect) -> (r: Self)
        ensures
            forall|e: Effect| #[trigger] r.has(e) == (self.has(e) && e != opt),
    {
        proof {
            use_type_invariant(&self);
            lemma_set_bit(self.data, opt.index() as u16, 0);
        }
        let r = EffectFlags { data: self.data & !(1u16 << opt.bit()) };
        assert forall|e: Effect| #[trigger] r.has(e) == (self.has(e) && e != opt) by {
            lemma_set_bit(self.data, opt.index() as u16, e.index() as u16);
            lemma_index_injective(e, opt);
        }
        r
    }

    /// Toggle an effect in the set
    pub fn toggled(self, opt: Effect) -> (r: Self)
        ensures
            forall|e: Effect| #[trigger] r.has(e) == (self.has(e) != (e == opt)),
    {
        proof {
            use_type_invariant(&self);
            lemma_set_bit(self.data, opt.index() as u16, 0);
        }
        let r = EffectFlags { data: self.data ^ (1u16 << opt.bit()) };
        assert forall|e: Effect| #[trigger] r.has(e) == (self.has(e) != (e == opt)) by {
            lemma_set_bit(self.data, opt.index() as u16, e.index() as u16);
            lemma_index_injective(e, opt);
        }
        r
    }
}

proof fn lemma_common_bits(a: u16, b: u16)
    requires
        a < 0x2000,
        b < 0x2000,
    ensures
        (a & b == 0) == (forall|i: u16|
            i < 13 ==> !(a & #[trigger] (1u16 << i) != 0 && b & (1u16 << i) != 0)),
{
    let x = a & b;
    assert(a & b < 0x2000) by (bit_vector)
        requires
            a < 0x2000,
    ;
    assert forall|i: u16| i < 13 implies (x & #[trigger] (1u16 << i) != 0) == (a & (1u16 << i) != 0
        && b & (1u16 << i) != 0) by {
        assert((a & b) & (1u16 << i) != 0 <==> (a & (1u16 << i) != 0 && b & (1u16 << i) != 0))
            by (bit_vector);
    }
    lemma_bits_decide(x);
    if x == 0 {
        assert forall|i: u16| i < 13 implies x & #[trigger] (1u16 << i) == 0 by {
            assert(0u16 & (1u16 << i) == 0) by (bit_vector);
        }
    }
}

impl EffectFlags {
    /// Do these two collections intersect
    pub fn is_any(self, opt: EffectFlags) -> (r: bool)
        ensures
            r == exists|e: Effect| self.has(e) && #[trigger] opt.has(e),
    {
        proof {
            use_type_invariant(&self);
            use_type_invariant(&opt);
            lemma_common_bits(self.data, opt.data);
            if self.data & opt.data != 0 {
                let i = choose|i: u16|
                    i < 13 && self.data & #[trigger] (1u16 << i) != 0 && opt.data & (1u16 << i)
                        != 0;
                let e = effect_at(i as nat);
                assert(e.index() == i as nat);
                assert(self.has(e) && opt.has(e));
            }
        }
        self.data & opt.data != 0
    }

    /// Add an effect to the set in place
    pub fn set(&mut self, opt: Effect)
        ensures
            forall|e: Effect| #[trigger] final(self).has(e) == (old(self).has(e) || e == opt),
    {
        *self = self.with(opt)
    }

    /// Remove an effect from the set in place
    pub fn unset(&mut self, opt: Effect)
        ensures
            forall|e: Effect| #[trigger] final(self).has(e) == (old(self).has(e) && e != opt),
    {
        *self = self.without(opt)
    }

    /// Toggle an effect in the set in place
    pub fn toggle(&mut self, opt: Effect)
        ensures
            forall|e: Effect| #[trigger] final(self).has(e) == (old(self).has(e) != (e == opt)),
    {
        *self = self.toggled(opt)
    }

    /// Create a set of effects from an array
    pub fn from_array<const N: usize>(effects: [Effect; N]) -> (r: Self)
        ensures
            forall|e: Effect| #[trigger] r.has(e) == effects@.contains(e),
    {
        Self::from_slice(&effects)
    }

    /// Iterate over all effects, in ascending bit order
    pub fn iter(self) -> (r: EffectFlagsIter)
        ensures
            r.remaining == self,
    {
        EffectFlagsIter { remaining: self }
    }
}

/// An iterator over an [`EffectFlags`], which yields its [`Effect`]s in ascending bit order
#[derive(Clone, Copy, Debug)]
pub struct EffectFlagsIter {
    /// The effects not yet yielded
    pub remaining: EffectFlags,
}

impl EffectFlagsIter {
    /// Yield the remaining effect of the lowest bit, if any
    pub fn next(&mut self) -> (r: Option<Effect>)
        ensures
            old(self).remaining.has_none() ==> r is None && final(self).remaining == old(
                self,
            ).remaining,
            !old(self).remaining.has_none() ==> r is Some,
            r matches Some(e) ==> {
                &&& old(self).remaining.has(e)
                &&& forall|f: Effect| f.index() < e.index() ==> !#[trigger] old(self).remaining.has(f)
                &&& forall|f: Effect| #[trigger] final(self).remaining.has(f) == (old(self).remaining.has(f) && f != e)
            },
    {
        let mut i: u8 = 0;
        while i < EFFECT_COUNT
            invariant
                i <= EFFECT_COUNT,
                self.remaining == old(self).remaining,
                forall|f: Effect| f.index() < i ==> !#[trigger] self.remaining.has(f),
            decreases EFFECT_COUNT - i,
        {
            let e = Effect::from_bit(i);
            if self.remaining.is(e) {
                self.remaining = self.remaining.without(e);
                return Some(e);
            }
            i = i + 1;
        }
        proof {
            assert forall|f: Effect| !#[trigger] self.remaining.has(f) by {
                lemma_index_injective(f, f);
            }
        }
        None
    }
}

impl EffectFlags {
    /// Create a set of effects from a slice
    pub fn from_slice(effects: &[Effect]) -> (r: Self)
        ensures
            forall|e: Effect| #[trigger] r.has(e) == effects@.contains(e),
    {
        let mut r = EffectFlags::new();
        let mut i: usize = 0;
        while i < effects.len()
            invariant
                i <= effects@.len(),
                forall|e: Effect| #[trigger] r.has(e) == effects@.take(i as int).contains(e),
            decreases effects@.len() - i,
        {
            r = r.with(effects[i]);
            assert forall|e: Effect| #[trigger] r.has(e) == effects@.take(i + 1).contains(e) by {
                let before = effects@.take(i as int);
                let after = effects@.take(i + 1);
                if before.contains(e) {
                    let k = choose|k: int| 0 <= k < i && #[trigger] before[k] == e;
                    assert(after[k] == e);
                }
                if after.contains(e) && e != effects@[i as int] {
                    let k = choose|k: int| 0 <= k < i + 1 && #[trigger] after[k] == e;
                    assert(before[k] == e);
                }
                if e == effects@[i as int] {
                    assert(after[i as int] == e);
                }
            }
            i = i + 1;
        }
        assert(effects@.take(effects@.len() as int) =~= effects@);
        r
    }
}

impl Default for EffectFlags {
    fn default() -> (r: Self)
        ensures
            r.has_none(),
    {
        EffectFlags::new()
    }
}

} // verus!
