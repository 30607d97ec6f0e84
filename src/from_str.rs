//! Parsing a [`Color`] from its short text forms.

use vstd::prelude::*;

use crate::ansi::AnsiColor;
use crate::rgb::RgbColor;
use crate::xterm::XtermColor;
use crate::Color;

verus! {

/// An error type for parsing colors
#[derive(Clone, Copy, Debug, PartialEq, Eq, Structural)]
pub enum ParseColorError {
    /// An invalid hex digit was detected
    InvalidHexDigit,
    /// A decimal value overflowed a u8
    U8Overflow,
    /// An unknown color format
    UnknownColor,
}

/// Is `c` an ASCII hexadecimal digit, in either case.
pub open spec fn is_hex_digit(c: char) -> bool {
    ('0' <= c <= '9') || ('A' <= c <= 'F') || ('a' <= c <= 'f')
}

/// The value of a hexadecimal digit.
pub open spec fn hex_value(c: char) -> nat {
    if c <= '9' {
        (c as int - '0' as int) as nat
    } else if c <= 'F' {
        (c as int - 'A' as int + 10) as nat
    } else {
        (c as int - 'a' as int + 10) as nat
    }
}

/// Is `c` an ASCII decimal digit.
pub open spec fn is_dec_digit(c: char) -> bool {
    '0' <= c <= '9'
}

/// The number written by the hexadecimal digits `b`.
pub open spec fn hex_number(b: Seq<char>) -> nat
    decreases b.len(),
{
    if b.len() == 0 {
        0
    } else {
        hex_number(b.drop_last()) * 16 + hex_value(b.last())
    }
}

/// The number written by the decimal digits `b`.
pub open spec fn dec_number(b: Seq<char>) -> nat
    decreases b.len(),
{
    if b.len() == 0 {
        0
    } else {
        dec_number(b.drop_last()) * 10 + (b.last() as int - '0' as int) as nat
    }
}

/// Are all of `b` hexadecimal digits.
pub open spec fn all_hex(b: Seq<char>) -> bool {
    forall|i: int| 0 <= i < b.len() ==> is_hex_digit(#[trigger] b[i])
}

/// Are all of `b` decimal digits.
pub open spec fn all_dec(b: Seq<char>) -> bool {
    forall|i: int| 0 <= i < b.len() ==> is_dec_digit(#[trigger] b[i])
}

/// The ANSI color named `b`: a lower-case color name, optionally after
/// `bright `; `purple` names magenta.
pub open spec fn ansi_by_name(b: Seq<char>) -> Option<AnsiColor> {
    if b == seq!['b', 'l', 'a', 'c', 'k'] {
        Some(AnsiColor::Black)
    } else if b == seq!['r', 'e', 'd'] {
        Some(AnsiColor::Red)
    } else if b == seq!['g', 'r', 'e', 'e', 'n'] {
        Some(AnsiColor::Green)
    } else if b == seq!['y', 'e', 'l', 'l', 'o', 'w'] {
        Some(AnsiColor::Yellow)
    } else if b == seq!['b', 'l', 'u', 'e'] {
        Some(AnsiColor::Blue)
    } else if b == seq!['m', 'a', 'g', 'e', 'n', 't', 'a'] {
        Some(AnsiColor::Magenta)
    } else if b == seq!['p', 'u', 'r', 'p', 'l', 'e'] {
        Some(AnsiColor::Magenta)
    } else if b == seq!['c', 'y', 'a', 'n'] {
        Some(AnsiColor::Cyan)
    } else if b == seq!['w', 'h', 'i', 't', 'e'] {
        Some(AnsiColor::White)
    } else if b == seq!['b', 'r', 'i', 'g', 'h', 't', ' ', 'b', 'l', 'a', 'c', 'k'] {
        Some(AnsiColor::BrightBlack)
    } else if b == seq!['b', 'r', 'i', 'g', 'h', 't', ' ', 'r', 'e', 'd'] {
        Some(AnsiColor::BrightRed)
    } else if b == seq!['b', 'r', 'i', 'g', 'h', 't', ' ', 'g', 'r', 'e', 'e', 'n'] {
        Some(AnsiColor::BrightGreen)
    } else if b == seq!['b', 'r', 'i', 'g', 'h', 't', ' ', 'y', 'e', 'l', 'l', 'o', 'w'] {
        Some(AnsiColor::BrightYellow)
    } else if b == seq!['b', 'r', 'i', 'g', 'h', 't', ' ', 'b', 'l', 'u', 'e'] {
        Some(AnsiColor::BrightBlue)
    } else if b == seq!['b', 'r', 'i', 'g', 'h', 't', ' ', 'm', 'a', 'g', 'e', 'n', 't', 'a'] {
        Some(AnsiColor::BrightMagenta)
    } else if b == seq!['b', 'r', 'i', 'g', 'h', 't', ' ', 'c', 'y', 'a', 'n'] {
        Some(AnsiColor::BrightCyan)
    } else if b == seq!['b', 'r', 'i', 'g', 'h', 't', ' ', 'w', 'h', 'i', 't', 'e'] {
        Some(AnsiColor::BrightWhite)
    } else {
        None
    }
}

/// The color that the text `b` denotes, or why it denotes none.
pub open spec fn parse_color(b: Seq<char>) -> Result<Color, ParseColorError> {
    if b.len() == 7 && b[0] == '#' {
        let h = b.drop_first();
        if all_hex(h) {
            Ok(
                Color::Rgb(
                    RgbColor {
                        red: hex_number(h.subrange(0, 2)) as u8,
                        green: hex_number(h.subrange(2, 4)) as u8,
                        blue: hex_number(h.subrange(4, 6)) as u8,
                    },
                ),
            )
        } else {
            Err(ParseColorError::InvalidHexDigit)
        }
    } else if 2 <= b.len() <= 3 && b[0] == '#' {
        if all_hex(b.drop_first()) {
            Ok(Color::Xterm(XtermColor { index: hex_number(b.drop_first()) as u8 }))
        } else {
            Err(ParseColorError::InvalidHexDigit)
        }
    } else if 1 <= b.len() <= 3 && all_dec(b) {
        if dec_number(b) <= 255 {
            Ok(Color::Xterm(XtermColor { index: dec_number(b) as u8 }))
        } else {
            Err(ParseColorError::U8Overflow)
        }
    } else {
        match ansi_by_name(b) {
            Some(a) => Ok(Color::Ansi(a)),
            None => Err(ParseColorError::UnknownColor),
        }
    }
}

fn parse_hex_digit(x: char) -> (r: Result<u8, ParseColorError>)
    ensures
        is_hex_digit(x) ==> r == Ok::<u8, ParseColorError>(hex_value(x) as u8),
        !is_hex_digit(x) ==> r == Err::<u8, ParseColorError>(ParseColorError::InvalidHexDigit),
{
    if '0' <= x && x <= '9' {
        Ok(((x as u32) - ('0' as u32)) as u8)
    } else if 'A' <= x && x <= 'F' {
        Ok(((x as u32) - ('A' as u32) + 10) as u8)
    } else if 'a' <= x && x <= 'f' {
        Ok(((x as u32) - ('a' as u32) + 10) as u8)
    } else {
        Err(ParseColorError::InvalidHexDigit)
    }
}

fn merge(a: u8, b: u8) -> (r: u8)
    requires
        a < 16,
        b < 16,
    ensures
        r == a * 16 + b,
{
    assert((a << 4u8) | b == a * 16 + b) by (bit_vector)
        requires
            a < 16,
            b < 16,
    ;
    (a << 4u8) | b
}

fn chars_eq(s: &Vec<char>, w: &[char]) -> (r: bool)
    ensures
        r == (s@ == w@),
{
    if s.len() != w.len() {
        return false;
    }
    let mut i: usize = 0;
    while i < s.len()
        invariant
            i <= s@.len(),
            s@.len() == w@.len(),
            forall|k: int| 0 <= k < i ==> s@[k] == w@[k],
        decreases s@.len() - i,
    {
        if s[i] != w[i] {
            return false;
        }
        i = i + 1;
    }
    assert(s@ =~= w@);
    true
}

fn find_ansi_name(s: &Vec<char>) -> (r: Option<AnsiColor>)
    ensures
        r == ansi_by_name(s@),
{
    if chars_eq(s, &['b', 'l', 'a', 'c', 'k']) {
        Some(AnsiColor::Black)
    } else if chars_eq(s, &['r', 'e', 'd']) {
        Some(AnsiColor::Red)
    } else if chars_eq(s, &['g', 'r', 'e', 'e', 'n']) {
        Some(AnsiColor::Green)
    } else if chars_eq(s, &['y', 'e', 'l', 'l', 'o', 'w']) {
        Some(AnsiColor::Yellow)
    } else if chars_eq(s, &['b', 'l', 'u', 'e']) {
        Some(AnsiColor::Blue)
    } else if chars_eq(s, &['m', 'a', 'g', 'e', 'n', 't', 'a']) {
        Some(AnsiColor::Magenta)
    } else if chars_eq(s, &['p', 'u', 'r', 'p', 'l', 'e']) {
        Some(AnsiColor::Magenta)
    } else if chars_eq(s, &['c', 'y', 'a', 'n']) {
        Some(AnsiColor::Cyan)
    } else if chars_eq(s, &['w', 'h', 'i', 't', 'e']) {
        Some(AnsiColor::White)
    } else if chars_eq(s, &['b', 'r', 'i', 'g', 'h', 't', ' ', 'b', 'l', 'a', 'c', 'k']) {
        Some(AnsiColor::BrightBlack)
    } else if chars_eq(s, &['b', 'r', 'i', 'g', 'h', 't', ' ', 'r', 'e', 'd']) {
        Some(AnsiColor::BrightRed)
    } else if chars_eq(s, &['b', 'r', 'i', 'g', 'h', 't', ' ', 'g', 'r', 'e', 'e', 'n']) {
        Some(AnsiColor::BrightGreen)
    } else if chars_eq(s, &['b', 'r', 'i', 'g', 'h', 't', ' ', 'y', 'e', 'l', 'l', 'o', 'w']) {
        Some(AnsiColor::BrightYellow)
    } else if chars_eq(s, &['b', 'r', 'i', 'g', 'h', 't', ' ', 'b', 'l', 'u', 'e']) {
        Some(AnsiColor::BrightBlue)
    } else if chars_eq(s, &['b', 'r', 'i', 'g', 'h', 't', ' ', 'm', 'a', 'g', 'e', 'n', 't', 'a']) {
        Some(AnsiColor::BrightMagenta)
    } else if chars_eq(s, &['b', 'r', 'i', 'g', 'h', 't', ' ', 'c', 'y', 'a', 'n']) {
        Some(AnsiColor::BrightCyan)
    } else if chars_eq(s, &['b', 'r', 'i', 'g', 'h', 't', ' ', 'w', 'h', 'i', 't', 'e']) {
        Some(AnsiColor::BrightWhite)
    } else {
        None
    }
}

fn hex_pair(x: char, y: char) -> (r: Result<u8, ParseColorError>)
    ensures
        is_hex_digit(x) && is_hex_digit(y) ==> r == Ok::<u8, ParseColorError>(
            hex_number(seq![x, y]) as u8,
        ),
        !(is_hex_digit(x) && is_hex_digit(y)) ==> r == Err::<u8, ParseColorError>(
            ParseColorError::InvalidHexDigit,
        ),
{
    let hi = match parse_hex_digit(x) {
        Ok(v) => v,
        Err(e) => return Err(e),
    };
    let lo = match parse_hex_digit(y) {
        Ok(v) => v,
        Err(e) => return Err(e),
    };
    assert(seq![x, y].drop_last() =~= seq![x]);
    assert(seq![x].drop_last() =~= Seq::<char>::empty());
    assert(hex_number(Seq::<char>::empty()) == 0);
    assert(seq![x].last() == x && seq![x, y].last() == y);
    assert(hex_number(seq![x]) == hex_value(x));
    assert(hex_number(seq![x, y]) == hex_value(x) * 16 + hex_value(y));
    Ok(merge(hi, lo))
}

fn dec_digit(c: char) -> (r: u16)
    requires
        is_dec_digit(c),
    ensures
        r as int == c as int - '0' as int,
        r < 10,
{
    ((c as u32) - ('0' as u32)) as u16
}

/// Reads the characters of `s`, which has `n` of them.
fn chars_of(s: &str, n: usize) -> (r: Vec<char>)
    requires
        n == s@.len(),
    ensures
        r@ == s@,
{
    let mut r: Vec<char> = Vec::new();
    let mut i: usize = 0;
    while i < n
        invariant
            i <= n,
            n == s@.len(),
            r@ == s@.take(i as int),
        decreases n - i,
    {
        r.push(s.get_char(i));
        i = i + 1;
        assert(r@ =~= s@.take(i as int));
    }
    assert(s@.take(n as int) =~= s@);
    r
}

impl Color {
    /// Parse a color from its text form
    ///
    /// * `#rrggbb`, where each of `r`, `g` and `b` is a hex digit, gives `Color::Rgb`
    /// * a decimal number of one to three digits gives `Color::Xterm`; above 255 it is an overflow
    /// * `#x` or `#xx`, where each `x` is a hex digit, gives `Color::Xterm`
    /// * the lower-case name of an ANSI color (`red`, `bright blue`, ...) gives `Color::Ansi`
    pub fn from_str(s: &str) -> (r: Result<Color, ParseColorError>)
        ensures
            r == parse_color(s@),
    {
        let n = s.unicode_len();
        if n > 14 {
            return Err(ParseColorError::UnknownColor);
        }
        let b = chars_of(s, n);
        Color::parse_chars(&b)
    }

    fn parse_chars(b: &Vec<char>) -> (r: Result<Color, ParseColorError>)
        ensures
            r == parse_color(b@),
    {
        let n = b.len();
        if n == 7 && b[0] == '#' {
            let ghost h = b@.drop_first();
            assert(h.subrange(0, 2) =~= seq![b@[1], b@[2]]);
            assert(h.subrange(2, 4) =~= seq![b@[3], b@[4]]);
            assert(h.subrange(4, 6) =~= seq![b@[5], b@[6]]);
            assert(all_hex(h) == (is_hex_digit(b@[1]) && is_hex_digit(b@[2]) && is_hex_digit(b@[3])
                && is_hex_digit(b@[4]) && is_hex_digit(b@[5]) && is_hex_digit(b@[6]))) by {
                if is_hex_digit(b@[1]) && is_hex_digit(b@[2]) && is_hex_digit(b@[3])
                    && is_hex_digit(b@[4]) && is_hex_digit(b@[5]) && is_hex_digit(b@[6]) {
                    assert forall|i: int| 0 <= i < h.len() implies is_hex_digit(#[trigger] h[i]) by {
                        assert(h[i] == b@[i + 1]);
                    }
                }
                if all_hex(h) {
                    assert(is_hex_digit(h[0]) && is_hex_digit(h[1]) && is_hex_digit(h[2]));
                    assert(is_hex_digit(h[3]) && is_hex_digit(h[4]) && is_hex_digit(h[5]));
                }
            }
            let red = match hex_pair(b[1], b[2]) {
                Ok(v) => v,
                Err(e) => return Err(e),
            };
            let green = match hex_pair(b[3], b[4]) {
                Ok(v) => v,
                Err(e) => return Err(e),
            };
            let blue = match hex_pair(b[5], b[6]) {
                Ok(v) => v,
                Err(e) => return Err(e),
            };
            return Ok(Color::Rgb(RgbColor { red, green, blue }));
        }
        if (n == 2 || n == 3) && b[0] == '#' {
            let ghost h = b@.drop_first();
            if n == 2 {
                assert(h =~= seq![b@[1]]);
                assert(h.drop_last() =~= Seq::<char>::empty());
                assert(hex_number(Seq::<char>::empty()) == 0);
                assert(h.last() == b@[1]);
                assert(hex_number(h) == hex_value(b@[1]));
                assert(all_hex(h) == is_hex_digit(b@[1])) by {
                    if all_hex(h) {
                        assert(is_hex_digit(h[0]));
                    }
                }
                return match parse_hex_digit(b[1]) {
                    Ok(v) => Ok(Color::Xterm(XtermColor { index: v })),
                    Err(e) => Err(e),
                };
            } else {
                assert(h =~= seq![b@[1], b@[2]]);
                assert(all_hex(h) == (is_hex_digit(b@[1]) && is_hex_digit(b@[2]))) by {
                    if all_hex(h) {
                        assert(is_hex_digit(h[0]) && is_hex_digit(h[1]));
                    }
                }
                return match hex_pair(b[1], b[2]) {
                    Ok(v) => Ok(Color::Xterm(XtermColor { index: v })),
                    Err(e) => Err(e),
                };
            }
        }
        if 1 <= n && n <= 3 {
            let mut all = true;
            let mut value: u16 = 0;
            let mut i: usize = 0;
            while i < n
                invariant
                    n == b@.len(),
                    n <= 3,
                    i <= n,
                    all == all_dec(b@.take(i as int)),
                    all ==> value as nat == dec_number(b@.take(i as int)),
                    all ==> value < 1000,
                    i == 0 ==> value == 0,
                    all ==> (i <= 1 ==> value < 10) && (i <= 2 ==> value < 100),
                decreases n - i,
            {
                let ghost prev = b@.take(i as int);
                assert(b@.take(i + 1).drop_last() =~= prev);
                assert(b@.take(i + 1).last() == b@[i as int]);
                if all && is_dec(b[i]) {
                    value = value * 10 + dec_digit(b[i]);
                } else {
                    all = false;
                }
                assert(all == all_dec(b@.take(i + 1))) by {
                    if all_dec(b@.take(i + 1)) {
                        assert forall|k: int| 0 <= k < i implies is_dec_digit(#[trigger] prev[k]) by {
                            assert(prev[k] == b@.take(i + 1)[k]);
                        }
                        assert(is_dec_digit(b@.take(i + 1)[i as int]));
                    }
                    if all {
                        assert forall|k: int| 0 <= k < i + 1 implies is_dec_digit(
                            #[trigger] b@.take(i + 1)[k],
                        ) by {
                            if k < i {
                                assert(prev[k] == b@.take(i + 1)[k]);
                            }
                        }
                    }
                }
                i = i + 1;
            }
            assert(b@.take(n as int) =~= b@);
            if all {
                if value <= 255 {
                    return Ok(Color::Xterm(XtermColor { index: value as u8 }));
                } else {
                    return Err(ParseColorError::U8Overflow);
                }
            }
        }
        match find_ansi_name(b) {
            Some(a) => Ok(Color::Ansi(a)),
            None => Err(ParseColorError::UnknownColor),
        }
    }
}

fn is_dec(c: char) -> (r: bool)
    ensures
        r == is_dec_digit(c),
{
    '0' <= c && c <= '9'
}

impl core::str::FromStr for Color {
    type Err = ParseColorError;

    fn from_str(s: &str) -> Result<Color, ParseColorError> {
        Color::from_str(s)
    }
}

} // verus!
