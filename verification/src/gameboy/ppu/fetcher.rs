use vstd::prelude::*;

use super::color::{palette_color, ColorId, Palette};
use super::fifo::Fifo;
use super::registers::{bit, Lcdc};
use super::screen::Color;
use super::tiling::{
    pixel_color_id, tile_address, tile_number_address, tile_pixel_row, TileDataMap, TileDataMapMethod, TileHighRowData,
    TileLowRowData, TileMap, TileNo, TilePosition,
};
use super::{Ppu, Sprite};

verus! {

/// The steps of fetching a row of 8 pixels: the tile number, its low bit plane, its high bit
/// plane, each over two cycles, then pushing the row once the queue is empty, then a pause.
#[derive(Debug, Clone, Copy, PartialEq, Eq, Hash, Structural)]
pub enum FetcherState {
    GetTile { elapsed_cycle: usize },
    GetTileDataLow { elapsed_cycle: usize, tile_no: TileNo },
    GetTileDataHigh { elapsed_cycle: usize, tile_no: TileNo, tile_low_row_data: TileLowRowData },
    Push { tile_low_row_data: TileLowRowData, tile_high_row_data: TileHighRowData },
    Sleep,
}

/// A position in the 256x256 pixel background (or window), wrapping around.
#[derive(Debug, Clone, Copy, PartialEq, Eq, Hash, Structural)]
pub struct PixelPosition {
    pub x: u8,
    pub y: u8,
}

impl PixelPosition {
    pub fn new(x: u8, y: u8) -> (r: Self)
        ensures
            r == (PixelPosition { x, y }),
    {
        PixelPosition { x, y }
    }
}

/// A background or window pixel: its color number and the palette at the time it was
/// fetched.
#[derive(Debug, Clone, Copy, PartialEq, Eq, Hash, Structural)]
pub struct BackgroundWindowPixel {
    pub color_id: ColorId,
    pub palette: Palette,
}

impl BackgroundWindowPixel {
    /// The shade of the pixel.
    pub fn color(&self) -> (r: Color)
        ensures
            r == palette_color(self.palette.0, self.color_id),
    {
        self.palette.color(self.color_id)
    }

    /// Whether the pixel has color number 0.
    pub fn is_zero(&self) -> (r: bool)
        ensures
            r == (super::color::color_number(self.color_id) == 0),
    {
        self.color_id.is_zero()
    }
}

/// The fetcher of the background and the window.
#[derive(Debug, Clone, Copy, PartialEq, Eq, Hash, Structural)]
pub struct BackgroundWindowFetcher {
    pub tile_map: TileMap,
    pub position: PixelPosition,
    pub state: FetcherState,
}

/// The first step of a fetch.
pub open spec fn default_state() -> FetcherState {
    FetcherState::GetTile { elapsed_cycle: 0 }
}

/// The tile data map LCDC selects for the background and the window.
pub open spec fn bg_tile_data_method(lcdc: u8) -> TileDataMapMethod {
    if bit(lcdc, 4) { TileDataMapMethod::Method8000 } else { TileDataMapMethod::Method8800 }
}

/// A byte of a background tile: `offset` 0 for the low plane of the row, 1 for the high.
pub open spec fn bg_tile_byte(vram: Seq<u8>, lcdc: u8, tile_no: TileNo, row: u8, offset: int) -> u8 {
    vram[tile_address(16, bg_tile_data_method(lcdc), tile_no.0) + (row % 8) as int * 2 + offset]
}

/// The pixels of a fetched row, leftmost first.
pub open spec fn bg_row(low: u8, high: u8, bgp: u8) -> Seq<BackgroundWindowPixel> {
    Seq::new(8, |i: int| BackgroundWindowPixel { color_id: pixel_color_id(high, low, i), palette: Palette(bgp) })
}

/// One cycle of the fetcher, with the VRAM `vram`, the registers LCDC and BGP, and the queue
/// `fifo`: the fetcher after the cycle and the queue after it.
pub open spec fn bg_fetch_step(f: BackgroundWindowFetcher, vram: Seq<u8>, lcdc: u8, bgp: u8, fifo: Seq<BackgroundWindowPixel>)
    -> (BackgroundWindowFetcher, Seq<BackgroundWindowPixel>)
{
    match f.state {
        FetcherState::GetTile { elapsed_cycle } => if elapsed_cycle == 1 {
            let tile_no = TileNo(vram[tile_number_address(f.tile_map.start, TilePosition { x: f.position.x / 8, y: f.position.y / 8 })]);
            (BackgroundWindowFetcher { state: FetcherState::GetTileDataLow { elapsed_cycle: 0, tile_no }, ..f }, fifo)
        } else {
            (BackgroundWindowFetcher { state: FetcherState::GetTile { elapsed_cycle: (elapsed_cycle + 1) as usize }, ..f }, fifo)
        },
        FetcherState::GetTileDataLow { elapsed_cycle, tile_no } => if elapsed_cycle == 1 {
            let low = TileLowRowData(bg_tile_byte(vram, lcdc, tile_no, f.position.y, 0));
            (BackgroundWindowFetcher { state: FetcherState::GetTileDataHigh { elapsed_cycle: 0, tile_no, tile_low_row_data: low }, ..f }, fifo)
        } else {
            (BackgroundWindowFetcher { state: FetcherState::GetTileDataLow { elapsed_cycle: (elapsed_cycle + 1) as usize, tile_no }, ..f }, fifo)
        },
        FetcherState::GetTileDataHigh { elapsed_cycle, tile_no, tile_low_row_data } => if elapsed_cycle == 1 {
            let high = TileHighRowData(bg_tile_byte(vram, lcdc, tile_no, f.position.y, 1));
            (BackgroundWindowFetcher { state: FetcherState::Push { tile_low_row_data, tile_high_row_data: high }, ..f }, fifo)
        } else {
            (BackgroundWindowFetcher {
                state: FetcherState::GetTileDataHigh { elapsed_cycle: (elapsed_cycle + 1) as usize, tile_no, tile_low_row_data },
                ..f
            }, fifo)
        },
        FetcherState::Push { tile_low_row_data, tile_high_row_data } => if fifo.len() != 0 {
            (f, fifo)
        } else {
            (BackgroundWindowFetcher {
                position: PixelPosition { x: ((f.position.x + 8) % 256) as u8, ..f.position },
                state: FetcherState::Sleep,
                ..f
            }, bg_row(tile_low_row_data.0, tile_high_row_data.0, bgp))
        },
        FetcherState::Sleep => (BackgroundWindowFetcher { state: default_state(), ..f }, fifo),
    }
}

/// Whether the fetcher can run: its tile map is one of the two, its step counters are 0 or 1.
pub open spec fn bg_fetcher_ok(f: BackgroundWindowFetcher) -> bool {
    &&& (f.tile_map.start == 0x1800 || f.tile_map.start == 0x1C00)
    &&& match f.state {
        FetcherState::GetTile { elapsed_cycle } => elapsed_cycle <= 1,
        FetcherState::GetTileDataLow { elapsed_cycle, .. } => elapsed_cycle <= 1,
        FetcherState::GetTileDataHigh { elapsed_cycle, .. } => elapsed_cycle <= 1,
        _ => true,
    }
}

impl BackgroundWindowFetcher {
    /// A fetcher at the start of a fetch, at pixel (`x`, `y`) of `tile_map`.
    pub fn new(tile_map: TileMap, x: u8, y: u8) -> (r: Self)
        ensures
            r == (BackgroundWindowFetcher { tile_map, position: PixelPosition { x, y }, state: default_state() }),
    {
        Self { tile_map, position: PixelPosition { x, y }, state: FetcherState::GetTile { elapsed_cycle: 0 } }
    }

    /// Restarts the current fetch.
    pub fn reset(&mut self)
        ensures
            *final(self) == (BackgroundWindowFetcher { state: default_state(), ..*old(self) }),
    {
        self.state = FetcherState::GetTile { elapsed_cycle: 0 };
    }

    /// Runs one cycle of the fetcher.
    pub fn tick(&mut self, ppu: &Ppu, fifo: &mut Fifo<BackgroundWindowPixel, 8>)
        requires
            bg_fetcher_ok(*old(self)),
            old(fifo).wf(),
            ppu.spec_vram().len() == super::VRAM_SIZE,
        ensures
            bg_fetcher_ok(*final(self)),
            final(fifo).wf(),
            (*final(self), final(fifo)@) == bg_fetch_step(*old(self), ppu.spec_vram(), ppu.spec_lcdc(), ppu.spec_bgp(), old(fifo)@),
    {
        match self.state {
            FetcherState::GetTile { elapsed_cycle } => {
                if elapsed_cycle == 1 {
                    let position = TilePosition { x: self.position.x / 8, y: self.position.y / 8 };
                    let tile_no = self.tile_map.tile_number(ppu, &position);
                    self.state = FetcherState::GetTileDataLow { elapsed_cycle: 0, tile_no };
                } else {
                    self.state = FetcherState::GetTile { elapsed_cycle: elapsed_cycle + 1 };
                }
            },
            FetcherState::GetTileDataLow { elapsed_cycle, tile_no } => {
                if elapsed_cycle == 1 {
                    let row: u8 = self.position.y % 8;
                    let tile = ppu.lcdc().bg_and_window_tile_data_map().tile(ppu, &tile_no);
                    let low = tile.get_low_row_data(row);
                    assert(row as int % 8 == self.position.y % 8);
                    self.state = FetcherState::GetTileDataHigh { elapsed_cycle: 0, tile_no, tile_low_row_data: low };
                } else {
                    self.state = FetcherState::GetTileDataLow { elapsed_cycle: elapsed_cycle + 1, tile_no };
                }
            },
            FetcherState::GetTileDataHigh { elapsed_cycle, tile_no, tile_low_row_data } => {
                if elapsed_cycle == 1 {
                    let row: u8 = self.position.y % 8;
                    let tile = ppu.lcdc().bg_and_window_tile_data_map().tile(ppu, &tile_no);
                    let high = tile.get_high_row_data(row);
                    assert(row as int % 8 == self.position.y % 8);
                    self.state = FetcherState::Push { tile_low_row_data, tile_high_row_data: high };
                } else {
                    self.state = FetcherState::GetTileDataHigh { elapsed_cycle: elapsed_cycle + 1, tile_no, tile_low_row_data };
                }
            },
            FetcherState::Push { tile_low_row_data, tile_high_row_data } => {
                if fifo.len() == 0 {
                    let pixel_row = tile_pixel_row(tile_high_row_data, tile_low_row_data);
                    let palette = ppu.bgp();
                    let mut i: usize = 0;
                    while i < 8
                        invariant
                            i <= 8,
                            fifo.wf(),
                            fifo@ == bg_row(tile_low_row_data.0, tile_high_row_data.0, palette.0).take(i as int),
                            forall|k: int| 0 <= k < 8 ==> #[trigger] pixel_row@[k] == pixel_color_id(tile_high_row_data.0, tile_low_row_data.0, k),
                        decreases 8 - i,
                    {
                        fifo.push(BackgroundWindowPixel { color_id: pixel_row[i], palette });
                        assert(fifo@ =~= bg_row(tile_low_row_data.0, tile_high_row_data.0, palette.0).take(i + 1));
                        i = i + 1;
                    }
                    assert(fifo@ =~= bg_row(tile_low_row_data.0, tile_high_row_data.0, palette.0));
                    self.position.x = self.position.x.wrapping_add(8);
                    self.state = FetcherState::Sleep;
                }
            },
            FetcherState::Sleep => {
                self.state = FetcherState::GetTile { elapsed_cycle: 0 };
            },
        }
    }
}

/// A sprite pixel: its color number, its palette, and whether it shows over the background.
#[derive(Debug, Clone, Copy, PartialEq, Eq, Hash, Structural)]
pub struct SpritePixel {
    pub color_id: ColorId,
    pub palette: Palette,
    pub over_bg_and_win: bool,
}

impl SpritePixel {
    /// Color number 0 is transparent.
    pub fn is_zero(&self) -> (r: bool)
        ensures
            r == (super::color::color_number(self.color_id) == 0),
    {
        self.color_id.is_zero()
    }

    /// Whether the pixel shows over background and window pixels of color number 1 to 3.
    pub fn over_bg_and_win(&self) -> (r: bool)
        ensures
            r == self.over_bg_and_win,
    {
        self.over_bg_and_win
    }

    /// The shade of the pixel.
    pub fn color(&self) -> (r: Color)
        ensures
            r == palette_color(self.palette.0, self.color_id),
    {
        self.palette.color(self.color_id)
    }
}

/// The steps of fetching the row of a sprite: its low and its high bit planes, each over two
/// cycles, then mixing the row into the sprite queue.
#[derive(Debug, Clone, Copy, PartialEq, Eq, Hash, Structural)]
pub enum SpriteFetcherState {
    GetTileDataLow { elapsed_cycle: usize },
    GetTileDataHigh { elapsed_cycle: usize, tile_low_row_data: TileLowRowData },
    Push { tile_low_row_data: TileLowRowData, tile_high_row_data: TileHighRowData },
}

/// The fetcher of a sprite.
#[derive(Debug, Clone, Copy, PartialEq, Eq, Hash, Structural)]
pub struct SpriteFetcher {
    pub sprite: Sprite,
    pub state: SpriteFetcherState,
}

/// The row of the sprite's tile that line `ly` shows, flipped when the sprite is; 8x16 sprites
/// take 16 rows.
pub open spec fn sprite_row(sprite: Sprite, ly: u8, height: u8) -> u8 {
    let row = ((ly + 16 - sprite.y + 512) % 256) as u8;
    if bit(sprite.attr, 6) { ((height - 1 - row + 512) % 256) as u8 } else { row }
}

/// A byte of a sprite tile: `offset` 0 for the low plane of the row, 1 for the high.
pub open spec fn sprite_tile_byte(vram: Seq<u8>, sprite: Sprite, row: u8, height: u8, offset: int) -> u8 {
    vram[tile_address((height * 2) as u8, TileDataMapMethod::Method8000, sprite.tile_no.0) + (row % height) as int * 2 + offset]
}

/// The palette of the sprite: OBP1 when bit 4 of its attributes is set, else OBP0.
pub open spec fn sprite_palette(sprite: Sprite, obp0: u8, obp1: u8) -> Palette {
    Palette(if bit(sprite.attr, 4) { obp1 } else { obp0 })
}

/// Pixel `i` of the fetched sprite row, leftmost first, flipped when the sprite is.
pub open spec fn sprite_pixel(sprite: Sprite, low: u8, high: u8, obp0: u8, obp1: u8, i: int) -> SpritePixel {
    SpritePixel {
        color_id: pixel_color_id(high, low, if bit(sprite.attr, 5) { 7 - i } else { i }),
        palette: sprite_palette(sprite, obp0, obp1),
        over_bg_and_win: !bit(sprite.attr, 7),
    }
}

/// How many pixels of the sprite lie left of column `lx`.
pub open spec fn sprite_skip(sprite: Sprite, lx: u8) -> int {
    if lx + 8 > sprite.x {
        if lx + 8 - sprite.x > 8 { 8 } else { lx + 8 - sprite.x }
    } else {
        0
    }
}

/// The sprite queue once the row is mixed in: the pixels from column `lx` on go to the queue
/// from its front; a queued pixel keeps its place unless it is transparent.
pub open spec fn mix_sprite_row(fifo: Seq<SpritePixel>, sprite: Sprite, low: u8, high: u8, obp0: u8, obp1: u8, lx: u8) -> Seq<SpritePixel> {
    let skip = sprite_skip(sprite, lx);
    let count = 8 - skip;
    let len = if fifo.len() > count { fifo.len() as int } else { count };
    Seq::new(len as nat, |j: int|
        if j < count && (j >= fifo.len() || super::color::color_number(fifo[j].color_id) == 0) {
            sprite_pixel(sprite, low, high, obp0, obp1, j + skip)
        } else {
            fifo[j]
        }
    )
}

/// One cycle of the sprite fetcher; the boolean tells whether the row is in the queue.
pub open spec fn sprite_fetch_step(f: SpriteFetcher, vram: Seq<u8>, lcdc: u8, ly: u8, obp0: u8, obp1: u8, lx: u8,
    fifo: Seq<SpritePixel>) -> (SpriteFetcher, Seq<SpritePixel>, bool)
{
    let height: u8 = if bit(lcdc, 2) { 16 } else { 8 };
    let row = sprite_row(f.sprite, ly, height);
    match f.state {
        SpriteFetcherState::GetTileDataLow { elapsed_cycle } => if elapsed_cycle == 1 {
            let low = TileLowRowData(sprite_tile_byte(vram, f.sprite, row, height, 0));
            (SpriteFetcher { state: SpriteFetcherState::GetTileDataHigh { elapsed_cycle: 0, tile_low_row_data: low }, ..f }, fifo, false)
        } else {
            (SpriteFetcher { state: SpriteFetcherState::GetTileDataLow { elapsed_cycle: (elapsed_cycle + 1) as usize }, ..f }, fifo, false)
        },
        SpriteFetcherState::GetTileDataHigh { elapsed_cycle, tile_low_row_data } => if elapsed_cycle == 1 {
            let high = TileHighRowData(sprite_tile_byte(vram, f.sprite, row, height, 1));
            (SpriteFetcher { state: SpriteFetcherState::Push { tile_low_row_data, tile_high_row_data: high }, ..f }, fifo, false)
        } else {
            (SpriteFetcher { state: SpriteFetcherState::GetTileDataHigh { elapsed_cycle: (elapsed_cycle + 1) as usize, tile_low_row_data }, ..f },
                fifo, false)
        },
        SpriteFetcherState::Push { tile_low_row_data, tile_high_row_data } =>
            (f, mix_sprite_row(fifo, f.sprite, tile_low_row_data.0, tile_high_row_data.0, obp0, obp1, lx), true),
    }
}

pub open spec fn sprite_fetcher_ok(f: SpriteFetcher) -> bool {
    match f.state {
        SpriteFetcherState::GetTileDataLow { elapsed_cycle } => elapsed_cycle <= 1,
        SpriteFetcherState::GetTileDataHigh { elapsed_cycle, .. } => elapsed_cycle <= 1,
        _ => true,
    }
}

impl SpriteFetcher {
    /// A fetcher for the row of `sprite` on the current line.
    pub fn new(sprite: Sprite) -> (r: Self)
        ensures
            r == (SpriteFetcher { sprite, state: SpriteFetcherState::GetTileDataLow { elapsed_cycle: 0 } }),
    {
        Self { sprite, state: SpriteFetcherState::GetTileDataLow { elapsed_cycle: 0 } }
    }

    fn row(&self, ppu: &Ppu, height: u8) -> (r: u8)
        requires
            height == 8 || height == 16,
        ensures
            r == sprite_row(self.sprite, ppu.spec_ly(), height),
    {
        let row: u8 = ppu.ly().wrapping_add(16).wrapping_sub(self.sprite.y);
        let attr: u8 = self.sprite.attr;
        let flip: bool = attr & (1 << 6) != 0;
        assert(flip == bit(attr, 6)) by { lemma_attribute_bits(attr); }
        if flip {
            height.wrapping_sub(1).wrapping_sub(row)
        } else {
            row
        }
    }

    /// Runs one cycle; true once the row is in the sprite queue.
    pub fn tick(&mut self, ppu: &Ppu, lx: u8, fifo: &mut Fifo<SpritePixel, 8>) -> (done: bool)
        requires
            sprite_fetcher_ok(*old(self)),
            old(fifo).wf(),
            ppu.spec_vram().len() == super::VRAM_SIZE,
        ensures
            sprite_fetcher_ok(*final(self)),
            final(fifo).wf(),
            (*final(self), final(fifo)@, done) == sprite_fetch_step(*old(self), ppu.spec_vram(), ppu.spec_lcdc(), ppu.spec_ly(),
                ppu.spec_obp0(), ppu.spec_obp1(), lx, old(fifo)@),
    {
        let height: u8 = ppu.lcdc().sprite_height();
        match self.state {
            SpriteFetcherState::GetTileDataLow { elapsed_cycle } => {
                if elapsed_cycle == 1 {
                    let row: u8 = self.row(ppu, height);
                    let tile = TileDataMap::new(TileDataMapMethod::Method8000, height * 2).tile(ppu, &self.sprite.tile_no);
                    let low = tile.get_low_row_data(row);
                    self.state = SpriteFetcherState::GetTileDataHigh { elapsed_cycle: 0, tile_low_row_data: low };
                } else {
                    self.state = SpriteFetcherState::GetTileDataLow { elapsed_cycle: elapsed_cycle + 1 };
                }
                false
            },
            SpriteFetcherState::GetTileDataHigh { elapsed_cycle, tile_low_row_data } => {
                if elapsed_cycle == 1 {
                    let row: u8 = self.row(ppu, height);
                    let tile = TileDataMap::new(TileDataMapMethod::Method8000, height * 2).tile(ppu, &self.sprite.tile_no);
                    let high = tile.get_high_row_data(row);
                    self.state = SpriteFetcherState::Push { tile_low_row_data, tile_high_row_data: high };
                } else {
                    self.state = SpriteFetcherState::GetTileDataHigh { elapsed_cycle: elapsed_cycle + 1, tile_low_row_data };
                }
                false
            },
            SpriteFetcherState::Push { tile_low_row_data, tile_high_row_data } => {
                self.push_row(ppu, lx, fifo, tile_low_row_data, tile_high_row_data);
                true
            },
        }
    }

    fn push_row(&self, ppu: &Ppu, lx: u8, fifo: &mut Fifo<SpritePixel, 8>, low: TileLowRowData, high: TileHighRowData)
        requires
            old(fifo).wf(),
        ensures
            final(fifo).wf(),
            final(fifo)@ == mix_sprite_row(old(fifo)@, self.sprite, low.0, high.0, ppu.spec_obp0(), ppu.spec_obp1(), lx),
    {
        let pixel_row = tile_pixel_row(high, low);
        let attr: u8 = self.sprite.attr;
        let palette = if attr & (1 << 4) != 0 { ppu.obp1() } else { ppu.obp0() };
        let x_flip: bool = attr & (1 << 5) != 0;
        let over: bool = attr & (1 << 7) == 0;
        assert((attr & (1u8 << 4u8) != 0) == bit(attr, 4)) by (bit_vector);
        assert((attr & (1u8 << 5u8) != 0) == bit(attr, 5)) by (bit_vector);
        assert((attr & (1u8 << 7u8) == 0) == !bit(attr, 7)) by (bit_vector);
        let start: u16 = lx as u16 + 8;
        let x: u16 = self.sprite.x as u16;
        let skip: usize = if start > x { if start - x > 8 { 8 } else { (start - x) as usize } } else { 0 };
        let ghost old_fifo = fifo@;
        proof { fifo.lemma_len(); }
        let ghost target = mix_sprite_row(old_fifo, self.sprite, low.0, high.0, ppu.spec_obp0(), ppu.spec_obp1(), lx);
        let mut i: usize = skip;
        while i < 8
            invariant
                skip <= i <= 8,
                skip == sprite_skip(self.sprite, lx),
                fifo.wf(),
                fifo@.len() == (if old_fifo.len() > i - skip { old_fifo.len() as int } else { i - skip }),
                forall|j: int| 0 <= j < fifo@.len() ==> #[trigger] fifo@[j] == (if j < i - skip { target[j] } else { old_fifo[j] }),
                forall|k: int| 0 <= k < 8 ==> #[trigger] pixel_row@[k] == pixel_color_id(high.0, low.0, k),
                target == mix_sprite_row(old_fifo, self.sprite, low.0, high.0, ppu.spec_obp0(), ppu.spec_obp1(), lx),
                palette == sprite_palette(self.sprite, ppu.spec_obp0(), ppu.spec_obp1()),
                x_flip == bit(self.sprite.attr, 5),
                over == !bit(self.sprite.attr, 7),
                old_fifo.len() <= 8,
            decreases 8 - i,
        {
            let j: usize = i - skip;
            let k: usize = if x_flip { 7 - i } else { i };
            let pixel = SpritePixel { color_id: pixel_row[k], palette, over_bg_and_win: over };
            assert(pixel == sprite_pixel(self.sprite, low.0, high.0, ppu.spec_obp0(), ppu.spec_obp1(), i as int));
            if j < fifo.len() {
                if fifo.get(j).is_zero() {
                    fifo.set(j, pixel);
                }
            } else {
                fifo.push(pixel);
            }
            i = i + 1;
        }
        assert(fifo@ =~= target);
    }
}

/// The flag bits 1 to 7 of a byte as masks, and the masks that clear its lowest bit or
/// none; in a sprite's attribute byte, bit 4 is the
/// palette, bit 5 the horizontal flip, bit 6 the vertical flip, bit 7 behind the background.
pub proof fn lemma_attribute_bits(attr: u8)
    by (bit_vector)
    ensures
        bit(attr, 1) == (attr & 0x02 != 0),
        bit(attr, 2) == (attr & 0x04 != 0),
        bit(attr, 3) == (attr & 0x08 != 0),
        bit(attr, 4) == (attr & 0x10 != 0),
        bit(attr, 5) == (attr & 0x20 != 0),
        bit(attr, 6) == (attr & 0x40 != 0),
        bit(attr, 7) == (attr & 0x80 != 0),
        (attr & (1u8 << 5u8) != 0) == bit(attr, 5),
        (attr & (1u8 << 6u8) != 0) == bit(attr, 6),
        (attr & (1u8 << 7u8) == 0) == !bit(attr, 7),
        attr & !(((1u8 << 0u8) - 1) as u8) == attr,
        attr & !(((1u8 << 1u8) - 1) as u8) == attr - attr % 2,
{
}

/// A sprite pixel carries OBP1 when bit 4 (0x10) of the sprite's attributes is set and OBP0
/// otherwise; it is mirrored when bit 5 (0x20) is set, and stays behind background colors
/// 1-3 when bit 7 (0x80) is set. Every pixel the fetcher mixes into the sprite queue is the
/// one already queued there or such a pixel of the sprite.
pub proof fn lemma_sprite_pixel_attributes(fifo: Seq<SpritePixel>, sprite: Sprite, low: u8, high: u8, obp0: u8, obp1: u8,
    lx: u8, i: int)
    ensures
        sprite_palette(sprite, obp0, obp1) == Palette(if sprite.attr & 0x10 != 0 { obp1 } else { obp0 }),
        sprite_pixel(sprite, low, high, obp0, obp1, i).palette == Palette(if sprite.attr & 0x10 != 0 { obp1 } else { obp0 }),
        sprite_pixel(sprite, low, high, obp0, obp1, i).over_bg_and_win == (sprite.attr & 0x80 == 0),
        sprite_pixel(sprite, low, high, obp0, obp1, i).color_id
            == pixel_color_id(high, low, if sprite.attr & 0x20 != 0 { 7 - i } else { i }),
        forall|j: int| 0 <= j < mix_sprite_row(fifo, sprite, low, high, obp0, obp1, lx).len() ==> {
            let p = #[trigger] mix_sprite_row(fifo, sprite, low, high, obp0, obp1, lx)[j];
            (j < fifo.len() && p == fifo[j]) || (p.palette == Palette(if sprite.attr & 0x10 != 0 { obp1 } else { obp0 })
                && p.over_bg_and_win == (sprite.attr & 0x80 == 0))
        },
{
    lemma_attribute_bits(sprite.attr);
}

} // verus!
