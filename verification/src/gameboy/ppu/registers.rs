use vstd::prelude::*;

use super::tiling::{TileDataMap, TileDataMapMethod, TileMap};

verus! {

/// LCDC, the LCD control register.
#[derive(Debug, Clone, Copy, PartialEq, Eq, Hash, Structural)]
pub struct Lcdc(pub u8);

/// Bit `n` of `value`.
pub open spec fn bit(value: u8, n: u8) -> bool {
    (value >> n) & 1 == 1
}

fn test_bit(value: u8, n: u8) -> (r: bool)
    requires
        n < 8,
    ensures
        r == bit(value, n),
{
    (value >> n) & 1 == 1
}

/// Start in VRAM of the tile map that bit `n` of LCDC selects: 0x9C00 when set, else 0x9800.
pub open spec fn tile_map_start(lcdc: u8, n: u8) -> u16 {
    if bit(lcdc, n) { 0x1C00 } else { 0x1800 }
}

impl Lcdc {
    /// Bit 7: the LCD and the PPU are on.
    pub fn lcd_enabled(&self) -> (r: bool)
        ensures
            r == bit(self.0, 7),
    {
        test_bit(self.0, 7)
    }

    /// Bit 6: the tile map of the window.
    pub fn window_tile_map(&self) -> (r: TileMap)
        ensures
            r.start == tile_map_start(self.0, 6),
    {
        TileMap::new(if test_bit(self.0, 6) { 0x1C00 } else { 0x1800 })
    }

    /// Bit 5: the window is shown.
    pub fn display_window(&self) -> (r: bool)
        ensures
            r == bit(self.0, 5),
    {
        test_bit(self.0, 5)
    }

    /// Bit 4: where the background and window tiles are, from 0x8000 (unsigned numbers) or
    /// around 0x9000 (signed numbers).
    pub fn bg_and_window_tile_data_map(&self) -> (r: TileDataMap)
        ensures
            r.size == 16,
            r.method == (if bit(self.0, 4) { TileDataMapMethod::Method8000 } else { TileDataMapMethod::Method8800 }),
    {
        TileDataMap::new(if test_bit(self.0, 4) { TileDataMapMethod::Method8000 } else { TileDataMapMethod::Method8800 }, 16)
    }

    /// Bit 3: the tile map of the background.
    pub fn bg_tile_map(&self) -> (r: TileMap)
        ensures
            r.start == tile_map_start(self.0, 3),
    {
        TileMap::new(if test_bit(self.0, 3) { 0x1C00 } else { 0x1800 })
    }

    /// Bit 2: sprites are 8x16 pixels, else 8x8.
    pub fn sprite_height(&self) -> (r: u8)
        ensures
            r == (if bit(self.0, 2) { 16u8 } else { 8u8 }),
    {
        if test_bit(self.0, 2) { 16 } else { 8 }
    }

    /// Bit 1: sprites are shown.
    pub fn display_sprite(&self) -> (r: bool)
        ensures
            r == bit(self.0, 1),
    {
        test_bit(self.0, 1)
    }
}

/// STAT, the LCD status register; only the interrupt selection bits are kept here.
#[derive(Debug, Clone, Copy, PartialEq, Eq, Hash, Structural)]
pub struct Stat(pub u8);

impl Stat {
    /// Bit 6: a STAT interrupt when LY equals LYC.
    pub fn lyc_interrupt_enabled(&self) -> (r: bool)
        ensures
            r == bit(self.0, 6),
    {
        test_bit(self.0, 6)
    }

    /// Bit 5: a STAT interrupt when the OAM scan starts.
    pub fn oam_scanning_interrupt_enabled(&self) -> (r: bool)
        ensures
            r == bit(self.0, 5),
    {
        test_bit(self.0, 5)
    }

    /// Bit 4: a STAT interrupt when the vertical blank starts.
    pub fn vblank_interrupt_enabled(&self) -> (r: bool)
        ensures
            r == bit(self.0, 4),
    {
        test_bit(self.0, 4)
    }

    /// Bit 3: a STAT interrupt when the horizontal blank starts.
    pub fn hblank_interrupt_enabled(&self) -> (r: bool)
        ensures
            r == bit(self.0, 3),
    {
        test_bit(self.0, 3)
    }
}

} // verus!
