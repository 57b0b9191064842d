//! Colors, one byte per channel.

use vstd::prelude::*;
use vstd::string::StrSliceExecFns;
use crate::platform::math::Vec4;

verus! {

/// An RGBA color with one byte per channel: 0 is none, 255 is full.
#[derive(Clone, Copy, Debug, PartialEq, Eq, Structural)]
pub struct Color {
    pub r: u8,
    pub g: u8,
    pub b: u8,
    pub a: u8,
}

/// The value of one hexadecimal digit, or 16 for any other character.
pub open spec fn hex_digit_value(c: char) -> int {
    if '0' <= c <= '9' {
        c as int - '0' as int
    } else if 'a' <= c <= 'f' {
        c as int - 'a' as int + 10
    } else if 'A' <= c <= 'F' {
        c as int - 'A' as int + 10
    } else {
        16
    }
}

/// True when every character of `s` is a hexadecimal digit.
pub open spec fn all_hex_digits(s: Seq<char>) -> bool {
    forall|i: int| 0 <= i < s.len() ==> hex_digit_value(#[trigger] s[i]) < 16
}

/// The value of a big-endian string of hexadecimal digits.
pub open spec fn hex_value(s: Seq<char>) -> int
    decreases s.len(),
{
    if s.len() == 0 {
        0
    } else {
        hex_value(s.drop_last()) * 16 + hex_digit_value(s.last())
    }
}

/// The number of leading `#` characters of `s`.
pub open spec fn leading_hashes(s: Seq<char>) -> int
    decreases s.len(),
{
    if s.len() == 0 || s[0] != '#' {
        0
    } else {
        1 + leading_hashes(s.drop_first())
    }
}

impl Color {
    pub fn new(r: u8, g: u8, b: u8, a: u8) -> (c: Self)
        ensures
            c == (Color { r, g, b, a }),
    {
        Self { r, g, b, a }
    }

    pub fn rgb(r: u8, g: u8, b: u8) -> (c: Self)
        ensures
            c == (Color { r, g, b, a: 255 }),
    {
        Self { r, g, b, a: 255 }
    }

    pub fn rgba(r: u8, g: u8, b: u8, a: u8) -> (c: Self)
        ensures
            c == (Color { r, g, b, a }),
    {
        Self { r, g, b, a }
    }

    /// The color a packed 0xRRGGBB value denotes, fully opaque.
    pub open spec fn spec_from_hex(hex: u32) -> Color {
        Color {
            r: ((hex >> 16) & 0xFF) as u8,
            g: ((hex >> 8) & 0xFF) as u8,
            b: (hex & 0xFF) as u8,
            a: 255,
        }
    }

    /// Unpacks a 0xRRGGBB value into a fully opaque color.
    pub fn from_hex(hex: u32) -> (c: Self)
        ensures
            c == Color::spec_from_hex(hex),
    {
        let r = ((hex >> 16) & 0xFF) as u8;
        let g = ((hex >> 8) & 0xFF) as u8;
        let b = (hex & 0xFF) as u8;
        Self { r, g, b, a: 255 }
    }

    /// Parses `#RRGGBB`: after any leading `#` characters there must be
    /// exactly six hexadecimal digits, upper or lower case.  Returns the
    /// unpacked color, or `None` for any other shape.
    pub fn from_hex_str(hex: &str) -> (c: Option<Color>)
        ensures
            ({
                let digits = hex@.skip(leading_hashes(hex@));
                if digits.len() == 6 && all_hex_digits(digits) {
                    c == Some(Color::spec_from_hex(hex_value(digits) as u32))
                } else {
                    c is None
                }
            }),
    {
        let n = hex.unicode_len();
        // Count the leading '#' characters.
        let mut start: usize = 0;
        proof {
            assert(hex@.skip(0) == hex@);
        }
        while start < n && hex.get_char(start) == '#'
            invariant
                start <= n == hex@.len(),
                forall|i: int| 0 <= i < start ==> hex@[i] == '#',
                leading_hashes(hex@) == start + leading_hashes(hex@.skip(start as int)),
            decreases n - start,
        {
            proof {
                lemma_leading_hashes_step(hex@, start as int);
            }
            start += 1;
        }
        proof {
            if start < n {
                assert(hex@.skip(start as int)[0] == hex@[start as int]);
            }
            assert(leading_hashes(hex@) == start as int);
            assert(hex@.skip(leading_hashes(hex@)).len() == n - start);
        }
        if n - start != 6 {
            return None;
        }
        let mut value: u32 = 0;
        let mut i: usize = start;
        while i < n
            invariant
                start <= i <= n == hex@.len(),
                n - start == 6,
                leading_hashes(hex@) == start as int,
                all_hex_digits(hex@.subrange(start as int, i as int)),
                value == hex_value(hex@.subrange(start as int, i as int)),
                value < 0x100_0000,
            decreases n - i,
        {
            let ch = hex.get_char(i);
            let d: u32 = if '0' <= ch && ch <= '9' {
                ch as u32 - '0' as u32
            } else if 'a' <= ch && ch <= 'f' {
                ch as u32 - 'a' as u32 + 10
            } else if 'A' <= ch && ch <= 'F' {
                ch as u32 - 'A' as u32 + 10
            } else {
                proof {
                    assert(hex@.skip(start as int)[i - start] == hex@[i as int]);
                }
                return None;
            };
            proof {
                assert(hex@.subrange(start as int, i + 1).drop_last() == hex@.subrange(
                    start as int,
                    i as int,
                ));
                assert(hex@.subrange(start as int, i + 1).last() == ch);
                assert(hex_value(hex@.subrange(start as int, i + 1)) < 0x100_0000) by {
                    lemma_hex_value_bound(hex@.subrange(start as int, i + 1));
                }
            }
            value = value * 16 + d;
            i += 1;
        }
        proof {
            assert(hex@.subrange(start as int, n as int) == hex@.skip(leading_hashes(hex@)));
        }
        Some(Color::from_hex(value))
    }

    pub fn to_vec4(&self) -> (v: Vec4)
        ensures
            v.x == self.r as i64 && v.y == self.g as i64 && v.z == self.b as i64 && v.w == self.a
                as i64,
    {
        Vec4::new(self.r as i64, self.g as i64, self.b as i64, self.a as i64)
    }

    /// The four channels in RGBA order.
    pub fn to_array(&self) -> (r: [u8; 4])
        ensures
            r@ == seq![self.r, self.g, self.b, self.a],
    {
        [self.r, self.g, self.b, self.a]
    }

    pub fn black() -> (c: Self)
        ensures
            c == (Color { r: 0, g: 0, b: 0, a: 255 }),
    {
        Self { r: 0, g: 0, b: 0, a: 255 }
    }

    pub fn white() -> (c: Self)
        ensures
            c == (Color { r: 255, g: 255, b: 255, a: 255 }),
    {
        Self { r: 255, g: 255, b: 255, a: 255 }
    }

    pub fn red() -> (c: Self)
        ensures
            c == (Color { r: 255, g: 0, b: 0, a: 255 }),
    {
        Self { r: 255, g: 0, b: 0, a: 255 }
    }

    pub fn green() -> (c: Self)
        ensures
            c == (Color { r: 0, g: 255, b: 0, a: 255 }),
    {
        Self { r: 0, g: 255, b: 0, a: 255 }
    }

    pub fn blue() -> (c: Self)
        ensures
            c == (Color { r: 0, g: 0, b: 255, a: 255 }),
    {
        Self { r: 0, g: 0, b: 255, a: 255 }
    }

    pub fn transparent() -> (c: Self)
        ensures
            c == (Color { r: 0, g: 0, b: 0, a: 0 }),
    {
        Self { r: 0, g: 0, b: 0, a: 0 }
    }
}

/// A string of at most six hexadecimal digits denotes a value below
/// 2^24.
proof fn lemma_hex_value_bound(s: Seq<char>)
    requires
        s.len() <= 6,
        all_hex_digits(s),
    ensures
        0 <= hex_value(s) < 0x100_0000,
        s.len() <= 5 ==> hex_value(s) < 0x10_0000,
        s.len() <= 4 ==> hex_value(s) < 0x1_0000,
        s.len() <= 3 ==> hex_value(s) < 0x1000,
        s.len() <= 2 ==> hex_value(s) < 0x100,
        s.len() <= 1 ==> hex_value(s) < 0x10,
    decreases s.len(),
{
    if s.len() > 0 {
        assert(all_hex_digits(s.drop_last())) by {
            assert(forall|i: int|
                0 <= i < s.len() - 1 ==> s.drop_last()[i] == #[trigger] s[i]);
        }
        lemma_hex_value_bound(s.drop_last());
    }
}

/// Counting leading `#` characters steps by one past each `#`.
proof fn lemma_leading_hashes_step(s: Seq<char>, k: int)
    requires
        0 <= k < s.len(),
        s[k] == '#',
    ensures
        leading_hashes(s.skip(k)) == 1 + leading_hashes(s.skip(k + 1)),
{
    assert(s.skip(k)[0] == '#');
    assert(s.skip(k).drop_first() == s.skip(k + 1));
}

} // verus!
