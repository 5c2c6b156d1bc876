use vstd::prelude::*;

use super::screen::Color;

verus! {

/// The number of a color in a palette, as its two bits.
#[derive(Debug, Clone, Copy, PartialEq, Eq, Hash, Structural)]
pub struct ColorId {
    pub msb: bool,
    pub lsb: bool,
}

/// The number 0 to 3 of a color.
pub open spec fn color_number(id: ColorId) -> u8 {
    if id.msb { if id.lsb { 3 } else { 2 } } else { if id.lsb { 1 } else { 0 } }
}

impl ColorId {
    /// Color number 0, transparent for sprites.
    pub fn zero() -> (r: Self)
        ensures
            color_number(r) == 0,
    {
        ColorId { msb: false, lsb: false }
    }

    pub fn is_zero(&self) -> (r: bool)
        ensures
            r == (color_number(*self) == 0),
    {
        !self.msb && !self.lsb
    }
}

/// A palette: two bits per color number, the shade of color number `n` in bits `2n` and
/// `2n + 1`.
#[derive(Debug, Clone, Copy, PartialEq, Eq, Hash, Structural)]
pub struct Palette(pub u8);

/// The shade a two-bit value stands for.
pub open spec fn shade(value: u8) -> Color {
    if value == 0 { Color::White } else if value == 1 { Color::LightGray } else if value == 2 { Color::DarkGray } else { Color::Black }
}

/// The shade the palette `palette` gives to color number `id`.
pub open spec fn palette_color(palette: u8, id: ColorId) -> Color {
    shade((palette >> (2 * color_number(id)) as u8) & 0b11)
}

impl Palette {
    /// The shade of color number `index`.
    pub fn color(&self, index: ColorId) -> (r: Color)
        ensures
            r == palette_color(self.0, index),
    {
        let n: u8 = (if index.msb { 2u8 } else { 0u8 }) + (if index.lsb { 1u8 } else { 0u8 });
        match (self.0 >> (n * 2)) & 0b11 {
            0 => Color::White,
            1 => Color::LightGray,
            2 => Color::DarkGray,
            _ => Color::Black,
        }
    }
}

/// The bit fields of a byte in arithmetic: its four 2-bit fields and its eight bits.
pub proof fn lemma_byte_fields(x: u8)
    by (bit_vector)
    ensures
        (x >> 0u8) & 0b11 == x % 4,
        (x >> 2u8) & 0b11 == (x / 4) % 4,
        (x >> 4u8) & 0b11 == (x / 16) % 4,
        (x >> 6u8) & 0b11 == x / 64,
        (x >> 0u8) & 1 == x % 2,
        (x >> 1u8) & 1 == (x / 2) % 2,
        (x >> 2u8) & 1 == (x / 4) % 2,
        (x >> 3u8) & 1 == (x / 8) % 2,
        (x >> 4u8) & 1 == (x / 16) % 2,
        (x >> 5u8) & 1 == (x / 32) % 2,
        (x >> 6u8) & 1 == (x / 64) % 2,
        (x >> 7u8) & 1 == x / 128,
        (x & 1 != 0) == (x % 2 == 1),
        (x & 2 != 0) == ((x / 2) % 2 == 1),
        (x & 4 != 0) == ((x / 4) % 2 == 1),
        (x & 8 != 0) == ((x / 8) % 2 == 1),
        (x & 16 != 0) == ((x / 16) % 2 == 1),
{
}

/// A palette byte holds four 2-bit shades, color number n (2 msb + lsb) in bits 2n and
/// 2n + 1; shade 0 is white, 1 light gray, 2 dark gray, 3 black.
pub proof fn lemma_palette_shades(palette: u8, id: ColorId)
    ensures
        color_number(id) == 2 * (if id.msb { 1int } else { 0 }) + (if id.lsb { 1int } else { 0 }),
        palette_color(palette, id) == shade(((palette as int / (vstd::arithmetic::power2::pow2(2 * color_number(id) as nat) as int)) % 4) as u8),
        shade(0) == Color::White && shade(1) == Color::LightGray && shade(2) == Color::DarkGray && shade(3) == Color::Black,
{
    lemma_byte_fields(palette);
    vstd::arithmetic::power2::lemma2_to64();
    let n = color_number(id);
    let p = palette as int;
    if n == 0 {
        assert((2 * n) as u8 == 0u8);
        assert(p / (vstd::arithmetic::power2::pow2(0) as int) == p);
    } else if n == 1 {
        assert((2 * n) as u8 == 2u8);
        assert(vstd::arithmetic::power2::pow2(2) == 4);
    } else if n == 2 {
        assert((2 * n) as u8 == 4u8);
        assert(vstd::arithmetic::power2::pow2(4) == 16);
    } else {
        assert((2 * n) as u8 == 6u8);
        assert(vstd::arithmetic::power2::pow2(6) == 64);
        assert((p / 64) % 4 == p / 64);
    }
}

} // verus!
