//! Color handling: hex color strings, the windowing system's 16-bit channel
//! color, and the opacity word.
//!
//! Hex strings come in two accepted shapes, with an optional `#` prefix:
//! six digits `RRGGBB` (full opacity implied) or eight digits `AARRGGBB`.

use vstd::prelude::*;

verus! {

/// A color as the compositing extension wants it: 16 bits per channel.
#[derive(Debug, Clone, Copy, PartialEq, Eq, Structural)]
pub struct RenderColor {
    pub red: u16,
    pub green: u16,
    pub blue: u16,
    pub alpha: u16,
}

/// An ARGB color with 8-bit channels, as written in configuration files.
#[derive(Debug, Clone, Copy, PartialEq, Eq, Structural)]
pub struct HexColor {
    pub a: u8,
    pub r: u8,
    pub g: u8,
    pub b: u8,
}

/// Value of a hex digit, or -1 for any other character.
pub open spec fn hex_digit_value(c: char) -> int {
    if '0' <= c && c <= '9' {
        c as int - '0' as int
    } else if 'a' <= c && c <= 'f' {
        10 + c as int - 'a' as int
    } else if 'A' <= c && c <= 'F' {
        10 + c as int - 'A' as int
    } else {
        -1
    }
}

pub open spec fn is_hex_digit(c: char) -> bool {
    hex_digit_value(c) >= 0
}

/// The byte written as digits `i` and `i+1` of `s`.
pub open spec fn spec_hex_byte(s: Seq<char>, i: int) -> int {
    hex_digit_value(s[i]) * 16 + hex_digit_value(s[i + 1])
}

pub open spec fn all_hex_digits(s: Seq<char>) -> bool {
    forall|i: int| 0 <= i < s.len() ==> is_hex_digit(#[trigger] s[i])
}

/// The digits of a hex color string, after the optional `#`.
pub open spec fn spec_strip_hash(s: Seq<char>) -> Seq<char> {
    if s.len() > 0 && s[0] == '#' {
        s.drop_first()
    } else {
        s
    }
}

/// What parsing a hex color string yields: six digits make an opaque color,
/// eight digits carry their own alpha, anything else is rejected.
pub open spec fn spec_parse_hex(s: Seq<char>) -> Option<HexColor> {
    let t = spec_strip_hash(s);
    if t.len() == 6 && all_hex_digits(t) {
        Some(
            HexColor {
                a: 255,
                r: spec_hex_byte(t, 0) as u8,
                g: spec_hex_byte(t, 2) as u8,
                b: spec_hex_byte(t, 4) as u8,
            },
        )
    } else if t.len() == 8 && all_hex_digits(t) {
        Some(
            HexColor {
                a: spec_hex_byte(t, 0) as u8,
                r: spec_hex_byte(t, 2) as u8,
                g: spec_hex_byte(t, 4) as u8,
                b: spec_hex_byte(t, 6) as u8,
            },
        )
    } else {
        None
    }
}

/// The uppercase hex digit for a value below 16.
pub open spec fn hex_char_upper(v: int) -> char {
    if v == 0 {
        '0'
    } else if v == 1 {
        '1'
    } else if v == 2 {
        '2'
    } else if v == 3 {
        '3'
    } else if v == 4 {
        '4'
    } else if v == 5 {
        '5'
    } else if v == 6 {
        '6'
    } else if v == 7 {
        '7'
    } else if v == 8 {
        '8'
    } else if v == 9 {
        '9'
    } else if v == 10 {
        'A'
    } else if v == 11 {
        'B'
    } else if v == 12 {
        'C'
    } else if v == 13 {
        'D'
    } else if v == 14 {
        'E'
    } else {
        'F'
    }
}

/// The two uppercase hex digits of a byte.
pub open spec fn spec_hex_digits_of(v: int) -> Seq<char> {
    seq![hex_char_upper(v / 16), hex_char_upper(v % 16)]
}

/// How a color prints: `#RRGGBB` when fully opaque, `#AARRGGBB` otherwise.
pub open spec fn spec_hex_string(c: HexColor) -> Seq<char> {
    if c.a == 255 {
        seq!['#'] + spec_hex_digits_of(c.r as int) + spec_hex_digits_of(c.g as int)
            + spec_hex_digits_of(c.b as int)
    } else {
        seq!['#'] + spec_hex_digits_of(c.a as int) + spec_hex_digits_of(c.r as int)
            + spec_hex_digits_of(c.g as int) + spec_hex_digits_of(c.b as int)
    }
}

fn hex_digit(c: char) -> (r: Option<u8>)
    ensures
        match r {
            Some(v) => hex_digit_value(c) == v && v < 16,
            None => !is_hex_digit(c),
        },
{
    let v = c as u32;
    if 48 <= v && v <= 57 {
        Some((v - 48) as u8)
    } else if 97 <= v && v <= 102 {
        Some((v - 97 + 10) as u8)
    } else if 65 <= v && v <= 70 {
        Some((v - 65 + 10) as u8)
    } else {
        None
    }
}

/// Read the byte written at digit positions `i` and `i+1`.
fn hex_byte(s: &str, i: usize) -> (r: Option<u8>)
    requires
        i + 2 <= s@.len(),
        i + 2 <= usize::MAX,
    ensures
        match r {
            Some(v) => is_hex_digit(s@[i as int]) && is_hex_digit(s@[i + 1]) && v == spec_hex_byte(
                s@,
                i as int,
            ),
            None => !(is_hex_digit(s@[i as int]) && is_hex_digit(s@[i + 1])),
        },
{
    let hi = hex_digit(s.get_char(i));
    let lo = hex_digit(s.get_char(i + 1));
    match (hi, lo) {
        (Some(h), Some(l)) => Some(h * 16 + l),
        _ => None,
    }
}

impl HexColor {
    /// Parse a hex color string: `RRGGBB` or `AARRGGBB`, `#` optional;
    /// six-digit colors get full opacity.  Returns `None` for anything else.
    pub fn parse(s: &str) -> (r: Option<HexColor>)
        ensures
            r == spec_parse_hex(s@),
    {
        let n = s.unicode_len();
        let (start, digits) = if n > 0 && s.get_char(0) == '#' {
            (1usize, n - 1)
        } else {
            (0usize, n)
        };
        let ghost t = spec_strip_hash(s@);
        proof {
            assert(t =~= s@.subrange(start as int, s@.len() as int));
        }
        if digits == 6 {
            let r0 = hex_byte(s, start);
            let g0 = hex_byte(s, start + 2);
            let b0 = hex_byte(s, start + 4);
            proof {
                assert(forall|j: int| 0 <= j < t.len() ==> t[j] == s@[start + j]);
            }
            match (r0, g0, b0) {
                (Some(rr), Some(gg), Some(bb)) => {
                    proof {
                        assert forall|i: int| 0 <= i < t.len() implies is_hex_digit(
                            #[trigger] t[i],
                        ) by {
                            assert(t[i] == s@[start + i]);
                        }
                    }
                    Some(HexColor { a: 255, r: rr, g: gg, b: bb })
                },
                _ => None,
            }
        } else if digits == 8 {
            let a0 = hex_byte(s, start);
            let r0 = hex_byte(s, start + 2);
            let g0 = hex_byte(s, start + 4);
            let b0 = hex_byte(s, start + 6);
            proof {
                assert(forall|j: int| 0 <= j < t.len() ==> t[j] == s@[start + j]);
            }
            match (a0, r0, g0, b0) {
                (Some(aa), Some(rr), Some(gg), Some(bb)) => {
                    proof {
                        assert forall|i: int| 0 <= i < t.len() implies is_hex_digit(
                            #[trigger] t[i],
                        ) by {
                            assert(t[i] == s@[start + i]);
                        }
                    }
                    Some(HexColor { a: aa, r: rr, g: gg, b: bb })
                },
                _ => None,
            }
        } else {
            None
        }
    }

    /// The color as a packed `0xAARRGGBB` word.
    pub fn argb32(&self) -> (r: u32)
        ensures
            r == self.a * 0x1000000 + self.r * 0x10000 + self.g * 0x100 + self.b,
    {
        self.a as u32 * 0x1000000 + self.r as u32 * 0x10000 + self.g as u32 * 0x100 + self.b as u32
    }

    /// The color unpacked from a `0xAARRGGBB` word.
    pub fn from_argb32(x: u32) -> (r: HexColor)
        ensures
            r.a == x / 0x1000000,
            r.r == (x / 0x10000) % 0x100,
            r.g == (x / 0x100) % 0x100,
            r.b == x % 0x100,
    {
        HexColor {
            a: (x / 0x1000000) as u8,
            r: ((x / 0x10000) % 0x100) as u8,
            g: ((x / 0x100) % 0x100) as u8,
            b: (x % 0x100) as u8,
        }
    }

    /// Widen each 8-bit channel to the 16-bit channels the compositing
    /// extension expects (0xFF becomes 0xFFFF).
    pub fn to_x11_color(&self) -> (r: RenderColor)
        ensures
            r.red == self.r * 257,
            r.green == self.g * 257,
            r.blue == self.b * 257,
            r.alpha == self.a * 257,
    {
        RenderColor {
            red: self.r as u16 * 257,
            green: self.g as u16 * 257,
            blue: self.b as u16 * 257,
            alpha: self.a as u16 * 257,
        }
    }

    /// Print the color in the shorter of the two accepted shapes.
    pub fn to_hex_string(&self) -> (r: String)
        ensures
            r@ == spec_hex_string(*self),
    {
        let mut out = String::new();
        out.append("#");
        proof {
            reveal_strlit("#");
        }
        if self.a != 255 {
            push_hex_byte(&mut out, self.a);
        }
        push_hex_byte(&mut out, self.r);
        push_hex_byte(&mut out, self.g);
        push_hex_byte(&mut out, self.b);
        proof {
            if self.a == 255 {
                assert(out@ =~= spec_hex_string(*self));
            } else {
                assert(out@ =~= spec_hex_string(*self));
            }
        }
        out
    }
}

/// Append one uppercase hex digit for a value below 16.
fn push_hex_digit(out: &mut String, v: u8)
    requires
        v < 16,
    ensures
        final(out)@ == old(out)@ + seq![hex_char_upper(v as int)],
{
    let piece: &str = match v {
        0 => "0",
        1 => "1",
        2 => "2",
        3 => "3",
        4 => "4",
        5 => "5",
        6 => "6",
        7 => "7",
        8 => "8",
        9 => "9",
        10 => "A",
        11 => "B",
        12 => "C",
        13 => "D",
        14 => "E",
        _ => "F",
    };
    proof {
        reveal_strlit("0");
        reveal_strlit("1");
        reveal_strlit("2");
        reveal_strlit("3");
        reveal_strlit("4");
        reveal_strlit("5");
        reveal_strlit("6");
        reveal_strlit("7");
        reveal_strlit("8");
        reveal_strlit("9");
        reveal_strlit("A");
        reveal_strlit("B");
        reveal_strlit("C");
        reveal_strlit("D");
        reveal_strlit("E");
        reveal_strlit("F");
    }
    out.append(piece);
    proof {
        assert(final(out)@ =~= old(out)@ + seq![hex_char_upper(v as int)]);
    }
}

/// Append the two uppercase hex digits of a byte.
fn push_hex_byte(out: &mut String, v: u8)
    ensures
        final(out)@ == old(out)@ + spec_hex_digits_of(v as int),
{
    push_hex_digit(out, v / 16);
    push_hex_digit(out, v % 16);
    proof {
        assert(final(out)@ =~= old(out)@ + spec_hex_digits_of(v as int));
    }
}

/// The opacity word: an alpha byte in the top byte of a 32-bit property.
#[derive(Debug, Clone, Copy, PartialEq, Eq, Structural)]
pub struct Opacity {
    pub alpha: u8,
}

impl Opacity {
    /// Alpha from a percentage, rounding to the nearest byte; values over
    /// 100 saturate.
    pub fn from_percent(p: u8) -> (r: Opacity)
        ensures
            r.alpha == ({
                let q = if p > 100 {
                    100int
                } else {
                    p as int
                };
                (q * 255 + 50) / 100
            }),
    {
        let q: u32 = if p > 100 {
            100
        } else {
            p as u32
        };
        Opacity { alpha: ((q * 255 + 50) / 100) as u8 }
    }

    /// The alpha byte of an opacity word.
    pub fn from_argb32(x: u32) -> (r: Opacity)
        ensures
            r.alpha == x / 0x1000000,
    {
        Opacity { alpha: (x / 0x1000000) as u8 }
    }

    /// The percentage this alpha stands for, rounded to the nearest whole.
    pub fn percent(&self) -> (r: u8)
        ensures
            r == (self.alpha * 100 + 127) / 255,
    {
        ((self.alpha as u32 * 100 + 127) / 255) as u8
    }

    /// The opacity word: the alpha byte in the top byte, the rest zero.
    pub fn to_argb32(&self) -> (r: u32)
        ensures
            r == self.alpha * 0x1000000,
    {
        self.alpha as u32 * 0x1000000
    }
}

} // verus!
