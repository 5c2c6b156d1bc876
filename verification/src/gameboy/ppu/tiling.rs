use vstd::prelude::*;

use super::color::{color_number, lemma_byte_fields, ColorId};
use super::{Ppu, VRAM_SIZE};

verus! {

/// The number of a tile in a tile map.
#[derive(Debug, Clone, Copy, PartialEq, Eq, Hash, Structural)]
pub struct TileNo(pub u8);

/// The position of a tile in a tile map, in tiles.
#[derive(Debug, Clone, Copy, PartialEq, Eq, Hash, Structural)]
pub struct TilePosition {
    pub x: u8,
    pub y: u8,
}

/// A 32x32 map of tile numbers, starting at `start` in VRAM.
#[derive(Debug, Clone, Copy, PartialEq, Eq, Hash, Structural)]
pub struct TileMap {
    pub start: u16,
}

/// Where in VRAM the number of the tile at `position` of the map at `start` is.
pub open spec fn tile_number_address(start: u16, position: TilePosition) -> int {
    start + ((32 * (position.y % 32) + position.x % 32) as int % 1024)
}

impl TileMap {
    pub fn new(start: u16) -> (r: Self)
        ensures
            r.start == start,
    {
        Self { start }
    }

    /// The number of the tile at `position`; the map wraps around.
    pub fn tile_number(&self, ppu: &Ppu, position: &TilePosition) -> (r: TileNo)
        requires
            self.start == 0x1800 || self.start == 0x1C00,
            ppu.spec_vram().len() == VRAM_SIZE,
        ensures
            r.0 == ppu.spec_vram()[tile_number_address(self.start, *position)],
    {
        let tile_x: u16 = (position.x % 32) as u16;
        let tile_y: u16 = (position.y % 32) as u16;
        let tile_offset: u16 = 32 * tile_y + tile_x;
        let masked: u16 = tile_offset & 0x3FF;
        assert(masked == tile_offset % 1024) by (bit_vector) requires masked == tile_offset & 0x3FF;
        let tile_addr: u16 = self.start + masked;
        TileNo(ppu.vram_byte(tile_addr as usize))
    }
}

/// How tile numbers address the tile data: from 0x8000 unsigned, or around 0x9000 signed.
#[derive(Debug, Clone, Copy, PartialEq, Eq, Hash, Structural)]
pub enum TileDataMapMethod {
    Method8000,
    Method8800,
}

/// The bytes of one tile: two per row, the low bits first.
#[derive(Debug, Clone, Copy)]
pub struct Tile<'a> {
    data: &'a [u8],
}

/// The low bits of the color numbers of a row of 8 pixels, leftmost pixel in bit 7.
#[derive(Debug, Clone, Copy, PartialEq, Eq, Hash, Structural)]
pub struct TileLowRowData(pub u8);

/// The high bits of the color numbers of a row of 8 pixels, leftmost pixel in bit 7.
#[derive(Debug, Clone, Copy, PartialEq, Eq, Hash, Structural)]
pub struct TileHighRowData(pub u8);

impl<'a> Tile<'a> {
    pub closed spec fn view(&self) -> Seq<u8> {
        self.data@
    }

    /// The low bits of row `row` (counted modulo the rows of the tile).
    pub fn get_low_row_data(&self, row: u8) -> (r: TileLowRowData)
        requires
            2 <= self@.len() <= 256,
            self@.len() % 2 == 0,
        ensures
            r.0 == self@[(row as int % (self@.len() / 2) as int) * 2],
    {
        let row_count: u8 = (self.data.len() / 2) as u8;
        let idx: usize = ((row % row_count) * 2) as usize;
        TileLowRowData(self.data[idx])
    }

    /// The high bits of row `row` (counted modulo the rows of the tile).
    pub fn get_high_row_data(&self, row: u8) -> (r: TileHighRowData)
        requires
            2 <= self@.len() <= 256,
            self@.len() % 2 == 0,
        ensures
            r.0 == self@[(row as int % (self@.len() / 2) as int) * 2 + 1],
    {
        let row_count: u8 = (self.data.len() / 2) as u8;
        let idx: usize = ((row % row_count) * 2) as usize;
        TileHighRowData(self.data[idx + 1])
    }
}

/// A way to find tiles of `size` bytes in VRAM; 16 bytes is an 8x8 tile, 32 an 8x16 sprite.
#[derive(Debug, Clone, Copy, PartialEq, Eq, Hash, Structural)]
pub struct TileDataMap {
    pub size: u8,
    pub method: TileDataMapMethod,
}

/// The tile number with the low bits a tile of `size` bytes spans cleared.
pub open spec fn masked_tile_no(size: u8, tile_no: u8) -> u8 {
    tile_no & !(((1u8 << ((size / 16) - 1) as u8) - 1) as u8)
}

/// Where in VRAM the tile numbered `tile_no` starts.
pub open spec fn tile_address(size: u8, method: TileDataMapMethod, tile_no: u8) -> int {
    let n = masked_tile_no(size, tile_no);
    match method {
        TileDataMapMethod::Method8000 => n * 16,
        TileDataMapMethod::Method8800 => 0x1000 + (if n < 128 { n as int } else { n - 256 }) * 16,
    }
}

impl TileDataMap {
    /// Tiles of `size` bytes, a multiple of 16.
    pub fn new(method: TileDataMapMethod, size: u8) -> (r: Self)
        requires
            size % 16 == 0,
        ensures
            r.size == size,
            r.method == method,
    {
        Self { method, size }
    }

    /// The tile numbered `tile_no`. Tiles of `size` bytes clear the `size / 16 - 1` low bits
    /// of the number, so sizes run from 16 to 128 bytes.
    pub fn tile<'a>(&self, ppu: &'a Ppu, tile_no: &TileNo) -> (r: Tile<'a>)
        requires
            16 <= self.size <= 128,
            self.size % 16 == 0,
            ppu.spec_vram().len() == VRAM_SIZE,
        ensures
            r@ == ppu.spec_vram().subrange(tile_address(self.size, self.method, tile_no.0),
                tile_address(self.size, self.method, tile_no.0) + self.size),
    {
        let bits_count_to_ignore: u8 = self.size / 16;
        assert((1u8 << (bits_count_to_ignore - 1) as u8) >= 1) by (bit_vector)
            requires 1 <= bits_count_to_ignore <= 8;
        let low_bits: u8 = (1u8 << (bits_count_to_ignore - 1)) - 1;
        let tile_mask: u8 = !low_bits;
        let number: u8 = tile_no.0;
        let size: u8 = self.size;
        let n: u8 = number & tile_mask;
        assert(n == masked_tile_no(size, number)) by (bit_vector)
            requires
                n == number & tile_mask,
                bits_count_to_ignore == size / 16,
                1 <= bits_count_to_ignore <= 8,
                low_bits == (1u8 << (bits_count_to_ignore - 1) as u8) - 1,
                tile_mask == !low_bits;
        let tile_address: usize = match self.method {
            TileDataMapMethod::Method8000 => (n as usize) * 16,
            TileDataMapMethod::Method8800 => if n < 128 { 0x1000 + (n as usize) * 16 } else { 0x1000 - (256 - n as usize) * 16 },
        };
        let end: usize = tile_address + self.size as usize;
        let vram = ppu.vram_slice();
        Tile { data: vstd::slice::slice_subrange(vram, tile_address, end) }
    }
}

/// The color number of pixel `i` of a row (0 is the leftmost).
pub open spec fn pixel_color_id(high: u8, low: u8, i: int) -> ColorId {
    ColorId { msb: (high >> (7 - i) as u8) & 1 == 1, lsb: (low >> (7 - i) as u8) & 1 == 1 }
}

/// The color numbers of a row of 8 pixels, from its two bit planes.
pub fn tile_pixel_row(high_row_data: TileHighRowData, low_row_data: TileLowRowData) -> (r: [ColorId; 8])
    ensures
        forall|i: int| 0 <= i < 8 ==> #[trigger] r@[i] == pixel_color_id(high_row_data.0, low_row_data.0, i),
{
    let mut pixel_row: [ColorId; 8] = [ColorId { msb: false, lsb: false }; 8];
    let mut i: usize = 0;
    while i < 8
        invariant
            i <= 8,
            forall|k: int| 7 - i < k < 8 ==> #[trigger] pixel_row@[k] == pixel_color_id(high_row_data.0, low_row_data.0, k),
        decreases 8 - i,
    {
        let shift: u8 = i as u8;
        pixel_row[7 - i] = ColorId {
            msb: (high_row_data.0 >> shift) & 0x1 == 0x1,
            lsb: (low_row_data.0 >> shift) & 0x1 == 0x1,
        };
        i = i + 1;
    }
    pixel_row
}

/// Pixel `i` of a tile row (0 leftmost) takes bit 7 - `i` of the high bit plane as the high
/// bit of its color number and bit 7 - `i` of the low plane as the low bit.
pub proof fn lemma_pixel_bits(high: u8, low: u8, i: int)
    requires
        0 <= i < 8,
    ensures
        color_number(pixel_color_id(high, low, i)) == 2 * ((high as int / (vstd::arithmetic::power2::pow2((7 - i) as nat) as int)) % 2)
            + (low as int / (vstd::arithmetic::power2::pow2((7 - i) as nat) as int)) % 2,
{
    lemma_byte_fields(high);
    lemma_byte_fields(low);
    vstd::arithmetic::power2::lemma2_to64();
    let s = (7 - i) as u8;
    let d = vstd::arithmetic::power2::pow2((7 - i) as nat) as int;
    assert(((high >> s) & 1) == (high as int / d) % 2 && ((low >> s) & 1) == (low as int / d) % 2) by {
        if i == 0 { assert(s == 7u8 && d == 128); assert((high as int / 128) % 2 == high / 128 && (low as int / 128) % 2 == low / 128); }
        else if i == 1 { assert(s == 6u8 && d == 64); }
        else if i == 2 { assert(s == 5u8 && d == 32); }
        else if i == 3 { assert(s == 4u8 && d == 16); }
        else if i == 4 { assert(s == 3u8 && d == 8); }
        else if i == 5 { assert(s == 2u8 && d == 4); }
        else if i == 6 { assert(s == 1u8 && d == 2); }
        else { assert(s == 0u8 && d == 1); }
    }
}

} // verus!
