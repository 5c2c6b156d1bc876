use vstd::prelude::*;

pub mod color;
pub mod fetcher;
pub mod fifo;
pub mod registers;
pub mod screen;
pub mod tiling;

use super::interrupt::{spec_bit, Interrupt, Kind, Line};
use color::Palette;
use fetcher::{BackgroundWindowFetcher, BackgroundWindowPixel, SpriteFetcher, SpritePixel};
use fifo::Fifo;
use registers::{bit, Lcdc, Stat};
use screen::{Event, Screen};
use tiling::TileNo;

verus! {

/// Size of the video RAM.
pub const VRAM_SIZE: usize = 0x2000;
/// Size of the object attribute memory (the last 0x60 bytes are not used).
pub const OAM_SIZE: usize = 0x100;

/// A sprite as the OAM describes it.
#[derive(Debug, Clone, Copy, PartialEq, Eq, Hash, Structural)]
pub struct Sprite {
    /// Offset of its four bytes in the OAM.
    pub idx_in_oam: usize,
    /// Vertical position plus 16.
    pub y: u8,
    /// Horizontal position plus 8.
    pub x: u8,
    pub tile_no: TileNo,
    /// Bit 4: palette OBP1; bit 5: flipped horizontally; bit 6: flipped vertically; bit 7:
    /// behind background colors 1 to 3.
    pub attr: u8,
}

/// Whether `a` is drawn before `b` when both start on the same column: the leftmost first,
/// then the first in the OAM.
pub open spec fn draws_before(a: Sprite, b: Sprite) -> bool {
    a.x < b.x || (a.x == b.x && a.idx_in_oam < b.idx_in_oam)
}

/// Whether the sprite covers column `lx` of the screen.
pub open spec fn on_column(s: Sprite, lx: u8) -> bool {
    lx < s.x <= lx + 8
}

/// Whether the sprite covers line `ly` of the screen, sprites being `height` pixels high.
pub open spec fn on_line(s: Sprite, ly: u8, height: u8) -> bool {
    s.y <= ly + 16 < s.y + height
}

/// Among the first `n` entries of the buffer, the one holding the sprite to draw at column
/// `lx`: the first in drawing order that covers the column.
pub open spec fn best_sprite(buffer: Seq<Option<Sprite>>, lx: u8, n: int) -> Option<int>
    decreases n,
{
    if n <= 0 {
        None
    } else {
        let b = best_sprite(buffer, lx, n - 1);
        match buffer[n - 1] {
            Some(s) => if on_column(s, lx) && (match b { None => true, Some(i) => draws_before(s, buffer[i]->0) }) {
                Some(n - 1)
            } else {
                b
            },
            None => b,
        }
    }
}

impl Sprite {
    /// The palette of the sprite.
    pub fn palette(&self, ppu: &Ppu) -> (r: Palette)
        ensures
            r == fetcher::sprite_palette(*self, ppu.spec_obp0(), ppu.spec_obp1()),
    {
        let attr: u8 = self.attr;
        let b = attr & (1 << 4) != 0;
        assert(b == bit(attr, 4)) by (bit_vector) requires b == (attr & (1u8 << 4u8) != 0);
        if b { ppu.obp1 } else { ppu.obp0 }
    }

    pub fn x_flip(&self) -> (r: bool)
        ensures
            r == bit(self.attr, 5),
    {
        let attr: u8 = self.attr;
        let b = attr & (1 << 5) != 0;
        proof { fetcher::lemma_attribute_bits(attr); }
        b
    }

    pub fn y_flip(&self) -> (r: bool)
        ensures
            r == bit(self.attr, 6),
    {
        let attr: u8 = self.attr;
        let b = attr & (1 << 6) != 0;
        proof { fetcher::lemma_attribute_bits(attr); }
        b
    }

    pub fn over_bg_and_win(&self) -> (r: bool)
        ensures
            r == !bit(self.attr, 7),
    {
        let attr: u8 = self.attr;
        let b = attr & (1 << 7) == 0;
        proof { fetcher::lemma_attribute_bits(attr); }
        b
    }

    /// Whether this sprite is drawn before `other`.
    pub fn draws_before(&self, other: &Sprite) -> (r: bool)
        ensures
            r == draws_before(*self, *other),
    {
        self.x < other.x || (self.x == other.x && self.idx_in_oam < other.idx_in_oam)
    }
}

/// What the PPU is doing on the current line.
#[derive(Debug, Clone, Copy)]
pub enum Mode {
    /// Looking through the 40 sprites of the OAM, two cycles each, for the (at most 10) on
    /// this line.
    OAMScan {
        sprite_buffer: [Option<Sprite>; 10],
        sprite_buffer_idx: usize,
        wy_match_ly: bool,
        sprite_idx: usize,
        current_sprite: Option<Sprite>,
        win_ly: u8,
    },
    /// Sending the 160 pixels of the line to the LCD.
    Drawing {
        sprite_buffer: [Option<Sprite>; 10],
        wy_match_ly: bool,
        scx_delay: u8,
        lx: u8,
        elapsed_cycles: usize,
        win_fetcher: bool,
        bg_win_fetcher: BackgroundWindowFetcher,
        bg_win_fifo: Fifo<BackgroundWindowPixel, 8>,
        sprite_fetcher: Option<SpriteFetcher>,
        sprite_fifo: Fifo<SpritePixel, 8>,
        win_ly: u8,
    },
    /// Waiting for the end of the line.
    HBlank { elapsed_cycles: usize, wy_match_ly: bool, win_ly: u8 },
    /// Waiting for the end of the frame, line by line.
    VBlank { elapsed_cycles_line: usize, ly: u8 },
}

/// A mode as a value, the queues by their contents.
pub enum ModeView {
    OAMScan {
        sprite_buffer: Seq<Option<Sprite>>,
        sprite_buffer_idx: usize,
        wy_match_ly: bool,
        sprite_idx: usize,
        current_sprite: Option<Sprite>,
        win_ly: u8,
    },
    Drawing {
        sprite_buffer: Seq<Option<Sprite>>,
        wy_match_ly: bool,
        scx_delay: u8,
        lx: u8,
        elapsed_cycles: usize,
        win_fetcher: bool,
        bg_win_fetcher: BackgroundWindowFetcher,
        bg_win_fifo: Seq<BackgroundWindowPixel>,
        sprite_fetcher: Option<SpriteFetcher>,
        sprite_fifo: Seq<SpritePixel>,
        win_ly: u8,
    },
    HBlank { elapsed_cycles: usize, wy_match_ly: bool, win_ly: u8 },
    VBlank { elapsed_cycles_line: usize, ly: u8 },
}

impl Mode {
    pub open spec fn view(self) -> ModeView {
        match self {
            Mode::OAMScan { sprite_buffer, sprite_buffer_idx, wy_match_ly, sprite_idx, current_sprite, win_ly } =>
                ModeView::OAMScan { sprite_buffer: sprite_buffer@, sprite_buffer_idx, wy_match_ly, sprite_idx, current_sprite, win_ly },
            Mode::Drawing { sprite_buffer, wy_match_ly, scx_delay, lx, elapsed_cycles, win_fetcher, bg_win_fetcher, bg_win_fifo,
                sprite_fetcher, sprite_fifo, win_ly } =>
                ModeView::Drawing { sprite_buffer: sprite_buffer@, wy_match_ly, scx_delay, lx, elapsed_cycles, win_fetcher,
                    bg_win_fetcher, bg_win_fifo: bg_win_fifo@, sprite_fetcher, sprite_fifo: sprite_fifo@, win_ly },
            Mode::HBlank { elapsed_cycles, wy_match_ly, win_ly } => ModeView::HBlank { elapsed_cycles, wy_match_ly, win_ly },
            Mode::VBlank { elapsed_cycles_line, ly } => ModeView::VBlank { elapsed_cycles_line, ly },
        }
    }
}

/// The mode at the start of a frame.
pub open spec fn first_mode() -> ModeView {
    ModeView::OAMScan {
        sprite_buffer: Seq::new(10, |i: int| None),
        sprite_buffer_idx: 0,
        wy_match_ly: false,
        sprite_idx: 0,
        current_sprite: None,
        win_ly: 0,
    }
}

/// A mode the PPU can run from, with LY equal to `ly`.
pub open spec fn mode_ok(m: Mode, ly: u8) -> bool {
    match m {
        Mode::OAMScan { sprite_buffer_idx, sprite_idx, current_sprite, .. } =>
            ly <= 143 && sprite_buffer_idx <= 10 && sprite_idx <= 40 && (current_sprite is None ==> sprite_idx < 40),
        Mode::Drawing { lx, bg_win_fetcher, bg_win_fifo, sprite_fetcher, sprite_fifo, .. } => {
            &&& ly <= 143 && lx < 160
            &&& fetcher::bg_fetcher_ok(bg_win_fetcher) && bg_win_fifo.wf() && sprite_fifo.wf()
            &&& (sprite_fetcher matches Some(f) ==> fetcher::sprite_fetcher_ok(f))
        },
        Mode::HBlank { .. } => ly <= 143,
        Mode::VBlank { elapsed_cycles_line, ly: line } => 144 <= line <= 153 && ly <= line && elapsed_cycles_line < 456
            && (line == 153 && elapsed_cycles_line >= 4 ==> ly == 0),
    }
}

impl Default for Mode {
    fn default() -> (r: Self)
        ensures
            r.view() == first_mode(),
    {
        let buffer: [Option<Sprite>; 10] = vstd::array::array_fill_for_copy_types(None);
        proof {
            vstd::array::axiom_spec_array_fill_for_copy_type::<Option<Sprite>, 10>(None);
            assert(buffer@ =~= Seq::new(10, |i: int| None::<Sprite>));
        }
        let r = Mode::OAMScan {
            sprite_buffer: buffer,
            sprite_buffer_idx: 0,
            wy_match_ly: false,
            sprite_idx: 0,
            current_sprite: None,
            win_ly: 0,
        };
        r
    }
}

/// The registers and memories of the PPU as values.
pub struct PpuView {
    pub skip_frame: bool,
    pub lcdc: u8,
    pub lyc_compare: bool,
    pub stat: u8,
    pub scy: u8,
    pub scx: u8,
    pub ly: u8,
    pub lyc: u8,
    pub wy: u8,
    pub wx: u8,
    pub bgp: u8,
    pub obp0: u8,
    pub obp1: u8,
    pub vram: Seq<u8>,
    pub oam: Seq<u8>,
    pub screen: Seq<screen::Color>,
    pub lcd_event: Option<Event>,
}

/// The picture processing unit.
#[derive(Debug)]
pub struct Ppu {
    skip_frame: bool,
    lcdc: Lcdc,
    lyc_compare: bool,
    stat: Stat,
    scy: u8,
    scx: u8,
    ly: u8,
    lyc: u8,
    wy: u8,
    wx: u8,
    bgp: Palette,
    obp0: Palette,
    obp1: Palette,
    mode: Mode,
    vram: Vec<u8>,
    oam: Vec<u8>,
    screen: Screen,
    ldc_event: Option<Event>,
}

fn zeroes(n: usize) -> (r: Vec<u8>)
    ensures
        r@ == Seq::new(n as nat, |i: int| 0u8),
{
    let mut v: Vec<u8> = Vec::new();
    let mut i: usize = 0;
    while i < n
        invariant
            i <= n,
            v@ == Seq::new(i as nat, |k: int| 0u8),
        decreases n - i,
    {
        v.push(0);
        i = i + 1;
    }
    v
}

impl Ppu {
    pub closed spec fn view(&self) -> PpuView {
        PpuView {
            skip_frame: self.skip_frame,
            lcdc: self.lcdc.0,
            lyc_compare: self.lyc_compare,
            stat: self.stat.0,
            scy: self.scy,
            scx: self.scx,
            ly: self.ly,
            lyc: self.lyc,
            wy: self.wy,
            wx: self.wx,
            bgp: self.bgp.0,
            obp0: self.obp0.0,
            obp1: self.obp1.0,
            vram: self.vram@,
            oam: self.oam@,
            screen: self.screen@,
            lcd_event: self.ldc_event,
        }
    }

    pub closed spec fn spec_mode(&self) -> Mode {
        self.mode
    }

    pub open spec fn spec_vram(&self) -> Seq<u8> { self.view().vram }
    pub open spec fn spec_lcdc(&self) -> u8 { self.view().lcdc }
    pub open spec fn spec_bgp(&self) -> u8 { self.view().bgp }
    pub open spec fn spec_obp0(&self) -> u8 { self.view().obp0 }
    pub open spec fn spec_obp1(&self) -> u8 { self.view().obp1 }
    pub open spec fn spec_ly(&self) -> u8 { self.view().ly }

    /// The memories have their sizes, only the interrupt selection bits of STAT are stored,
    /// and the mode fits LY; with the LCD off, LY is 0.
    pub closed spec fn wf(&self) -> bool {
        &&& self.vram@.len() == VRAM_SIZE
        &&& self.oam@.len() == OAM_SIZE
        &&& self.stat.0 & 0x87 == 0
        &&& self.ldc_event != Some(Event::VBlank)
        &&& mode_ok(self.mode, self.ly)
        &&& (!bit(self.lcdc.0, 7) ==> self.ly == 0)
    }

    /// What holds of every PPU: the VRAM is 0x2000 bytes long and the OAM 0x100, the stored
    /// STAT has its mode, coincidence and top bits clear, the pending event is only ever a
    /// switch of the LCD, LY counts the lines 0 to 153, LY is
    /// at most 143 outside the vertical blank, and LY stays at 0 while the LCD is off.
    pub proof fn lemma_ly_range(&self)
        requires
            self.wf(),
        ensures
            self.view().vram.len() == VRAM_SIZE,
            self.view().oam.len() == OAM_SIZE,
            self.view().stat & 0x87 == 0,
            self.view().lcd_event != Some(Event::VBlank),
            self.view().ly <= 153,
            !(self.spec_mode().view() is VBlank) ==> self.view().ly <= 143,
            !bit(self.view().lcdc, 7) ==> self.view().ly == 0,
    {
    }

    /// A PPU with the LCD off, every register and memory at 0, at the start of a frame.
    pub fn new() -> (r: Self)
        ensures
            r.wf(),
            r.spec_mode().view() == first_mode(),
            r.view() == (PpuView {
                skip_frame: false, lcdc: 0, lyc_compare: false, stat: 0, scy: 0, scx: 0, ly: 0, lyc: 0, wy: 0, wx: 0,
                bgp: 0, obp0: 0, obp1: 0,
                vram: Seq::new(VRAM_SIZE as nat, |i: int| 0u8),
                oam: Seq::new(OAM_SIZE as nat, |i: int| 0u8),
                screen: screen::all_off(),
                lcd_event: None,
            }),
    {
        assert(0u8 & 0x87 == 0) by (bit_vector);
        Self {
            skip_frame: false,
            lcdc: Lcdc(0),
            lyc_compare: false,
            stat: Stat(0),
            scy: 0,
            scx: 0,
            ly: 0,
            lyc: 0,
            wy: 0,
            wx: 0,
            bgp: Palette(0),
            obp0: Palette(0),
            obp1: Palette(0),
            mode: Mode::default(),
            vram: zeroes(VRAM_SIZE),
            oam: zeroes(OAM_SIZE),
            screen: Screen::new(),
            ldc_event: None,
        }
    }

    /// The byte at `i` of the VRAM.
    pub fn vram_byte(&self, i: usize) -> (r: u8)
        requires
            i < self.spec_vram().len(),
        ensures
            r == self.spec_vram()[i as int],
    {
        self.vram[i]
    }

    /// The VRAM.
    pub fn vram_slice(&self) -> (r: &[u8])
        ensures
            r@ == self.spec_vram(),
    {
        self.vram.as_slice()
    }

    pub fn lcdc(&self) -> (r: Lcdc)
        ensures
            r.0 == self.spec_lcdc(),
    {
        self.lcdc
    }

    pub fn ly(&self) -> (r: u8)
        ensures
            r == self.spec_ly(),
    {
        self.ly
    }

    pub fn bgp(&self) -> (r: Palette)
        ensures
            r.0 == self.spec_bgp(),
    {
        self.bgp
    }

    pub fn obp0(&self) -> (r: Palette)
        ensures
            r.0 == self.spec_obp0(),
    {
        self.obp0
    }

    pub fn obp1(&self) -> (r: Palette)
        ensures
            r.0 == self.spec_obp1(),
    {
        self.obp1
    }
}


/// `flags` with the request of `kind` added.
pub open spec fn request(flags: u8, kind: Kind) -> u8 {
    flags | spec_bit(kind)
}

/// LY compared with LYC: the coincidence flag, and a STAT interrupt on coincidence when
/// STAT asks for it.
pub open spec fn lyc_checked(p: PpuView, flags: u8) -> (PpuView, u8) {
    if p.ly != p.lyc {
        (PpuView { lyc_compare: false, ..p }, flags)
    } else {
        (PpuView { lyc_compare: true, ..p }, if bit(p.stat, 6) { request(flags, Kind::Stat) } else { flags })
    }
}

/// The height of sprites LCDC selects.
pub open spec fn sprite_height(lcdc: u8) -> u8 {
    if bit(lcdc, 2) { 16 } else { 8 }
}

/// The sprite whose attributes start at `idx` in the OAM.
pub open spec fn oam_sprite(oam: Seq<u8>, idx: int) -> Sprite {
    Sprite { idx_in_oam: idx as usize, y: oam[idx], x: oam[idx + 1], tile_no: TileNo(oam[idx + 2]), attr: oam[idx + 3] }
}

/// The start of the drawing of a line.
pub open spec fn drawing_start(p: PpuView, sprite_buffer: Seq<Option<Sprite>>, wy_match_ly: bool, win_ly: u8) -> ModeView {
    ModeView::Drawing {
        sprite_buffer,
        wy_match_ly,
        scx_delay: p.scx % 8,
        lx: 0,
        elapsed_cycles: 0,
        win_fetcher: false,
        bg_win_fetcher: BackgroundWindowFetcher {
            tile_map: tiling::TileMap { start: registers::tile_map_start(p.lcdc, 3) },
            position: fetcher::PixelPosition { x: p.scx, y: ((p.ly + p.scy) % 256) as u8 },
            state: fetcher::default_state(),
        },
        bg_win_fifo: Seq::empty(),
        sprite_fetcher: None,
        sprite_fifo: Seq::empty(),
        win_ly,
    }
}

/// One cycle of the OAM scan: on even cycles a sprite is read, on odd cycles it joins the
/// buffer when it covers the line and the buffer is not full; after the last sprite the
/// drawing starts.
pub open spec fn oam_scan_step(sprite_buffer: Seq<Option<Sprite>>, sprite_buffer_idx: usize, wy_match_ly: bool, sprite_idx: usize,
    current_sprite: Option<Sprite>, win_ly: u8, p: PpuView) -> ModeView
{
    match current_sprite {
        None => ModeView::OAMScan {
            sprite_buffer,
            sprite_buffer_idx,
            wy_match_ly: if p.wy == p.ly { true } else { wy_match_ly },
            sprite_idx: (sprite_idx + 1) as usize,
            current_sprite: Some(oam_sprite(p.oam, sprite_idx * 4)),
            win_ly,
        },
        Some(cs) => {
            let added = sprite_buffer_idx < 10 && on_line(cs, p.ly, sprite_height(p.lcdc));
            let buffer = if added { sprite_buffer.update(sprite_buffer_idx as int, Some(cs)) } else { sprite_buffer };
            let buffer_idx = if added { (sprite_buffer_idx + 1) as usize } else { sprite_buffer_idx };
            if sprite_idx >= 40 {
                drawing_start(p, buffer, wy_match_ly, win_ly)
            } else {
                ModeView::OAMScan { sprite_buffer: buffer, sprite_buffer_idx: buffer_idx, wy_match_ly, sprite_idx, current_sprite: None, win_ly }
            }
        },
    }
}

/// The shade shown for background pixel `bg` with the sprite queue `sprite_fifo`: the sprite
/// pixel at the front of the queue unless it is transparent, or it is behind a background
/// color other than 0.
pub open spec fn mixed_color(bg: BackgroundWindowPixel, sprite_fifo: Seq<SpritePixel>) -> screen::Color {
    if sprite_fifo.len() > 0 && !(color::color_number(sprite_fifo[0].color_id) == 0
        || (!sprite_fifo[0].over_bg_and_win && color::color_number(bg.color_id) != 0)) {
        color::palette_color(sprite_fifo[0].palette.0, sprite_fifo[0].color_id)
    } else {
        color::palette_color(bg.palette.0, bg.color_id)
    }
}

/// The state the drawing of a line goes through within one cycle.
pub struct DrawingView {
    pub sprite_buffer: Seq<Option<Sprite>>,
    pub wy_match_ly: bool,
    pub scx_delay: u8,
    pub lx: u8,
    pub elapsed_cycles: usize,
    pub win_fetcher: bool,
    pub bg_win_fetcher: BackgroundWindowFetcher,
    pub bg_win_fifo: Seq<BackgroundWindowPixel>,
    pub sprite_fetcher: Option<SpriteFetcher>,
    pub sprite_fifo: Seq<SpritePixel>,
    pub win_ly: u8,
}

pub open spec fn drawing_mode(d: DrawingView) -> ModeView {
    ModeView::Drawing {
        sprite_buffer: d.sprite_buffer,
        wy_match_ly: d.wy_match_ly,
        scx_delay: d.scx_delay,
        lx: d.lx,
        elapsed_cycles: d.elapsed_cycles,
        win_fetcher: d.win_fetcher,
        bg_win_fetcher: d.bg_win_fetcher,
        bg_win_fifo: d.bg_win_fifo,
        sprite_fetcher: d.sprite_fetcher,
        sprite_fifo: d.sprite_fifo,
        win_ly: d.win_ly,
    }
}

/// With no sprite being fetched, the sprite to draw at the current column (if sprites are
/// shown) leaves the buffer and its fetch starts, pausing the background fetch.
#[verifier::opaque]
pub open spec fn sprite_selected(d: DrawingView, lcdc: u8) -> DrawingView {
    if d.sprite_fetcher is None && bit(lcdc, 1) {
        match best_sprite(d.sprite_buffer, d.lx, 10) {
            Some(i) => DrawingView {
                sprite_buffer: d.sprite_buffer.update(i, None),
                bg_win_fetcher: BackgroundWindowFetcher { state: fetcher::default_state(), ..d.bg_win_fetcher },
                sprite_fetcher: Some(SpriteFetcher { sprite: d.sprite_buffer[i]->0, state: fetcher::SpriteFetcherState::GetTileDataLow { elapsed_cycle: 0 } }),
                ..d
            },
            None => d,
        }
    } else {
        d
    }
}

/// The window starts at the column WX - 7 of a line at or below WY, once per line.
#[verifier::opaque]
pub open spec fn window_checked(d: DrawingView, p: PpuView) -> DrawingView {
    if bit(p.lcdc, 5) && d.wy_match_ly && d.lx == ((p.wx - 7 + 256) % 256) as u8 && !d.win_fetcher {
        DrawingView {
            bg_win_fetcher: BackgroundWindowFetcher {
                tile_map: tiling::TileMap { start: registers::tile_map_start(p.lcdc, 6) },
                position: fetcher::PixelPosition { x: 0, y: d.win_ly },
                state: fetcher::default_state(),
            },
            bg_win_fifo: Seq::empty(),
            win_fetcher: true,
            win_ly: ((d.win_ly + 1) % 256) as u8,
            ..d
        }
    } else {
        d
    }
}

/// A pixel leaves the background queue: dropped while the fine scroll is pending, else mixed
/// with the sprite queue and shown (unless the frame is skipped).
#[verifier::opaque]
pub open spec fn pixel_output(d: DrawingView, p: PpuView) -> (DrawingView, PpuView) {
    if d.bg_win_fifo.len() == 0 {
        (d, p)
    } else if d.scx_delay != 0 {
        (DrawingView {
            bg_win_fifo: d.bg_win_fifo.drop_first(),
            sprite_fifo: if d.sprite_fifo.len() > 0 { d.sprite_fifo.drop_first() } else { d.sprite_fifo },
            scx_delay: (d.scx_delay - 1) as u8,
            ..d
        }, p)
    } else {
        let color = mixed_color(d.bg_win_fifo[0], d.sprite_fifo);
        (DrawingView {
            bg_win_fifo: d.bg_win_fifo.drop_first(),
            sprite_fifo: if d.sprite_fifo.len() > 0 { d.sprite_fifo.drop_first() } else { d.sprite_fifo },
            lx: ((d.lx + 1) % 256) as u8,
            ..d
        }, if p.skip_frame { p } else { PpuView { screen: p.screen.update(p.ly * 160 + d.lx, color), ..p } })
    }
}

/// The elapsed cycles of a line, counted one more (they stop growing at the largest `usize`).
pub open spec fn count_cycle(n: usize) -> usize {
    if n == usize::MAX { n } else { (n + 1) as usize }
}

/// One cycle of the drawing of a line.
pub open spec fn drawing_step(d0: DrawingView, p: PpuView, flags: u8) -> (ModeView, PpuView, u8) {
    let d1 = sprite_selected(DrawingView { elapsed_cycles: count_cycle(d0.elapsed_cycles), ..d0 }, p.lcdc);
    match d1.sprite_fetcher {
        Some(f) => {
            let (f2, sprite_fifo, done) = fetcher::sprite_fetch_step(f, p.vram, p.lcdc, p.ly, p.obp0, p.obp1, d1.lx, d1.sprite_fifo);
            (drawing_mode(DrawingView { sprite_fetcher: if done { None } else { Some(f2) }, sprite_fifo, ..d1 }), p, flags)
        },
        None => {
            let d2 = window_checked(d1, p);
            let (bg_win_fetcher, bg_win_fifo) = fetcher::bg_fetch_step(d2.bg_win_fetcher, p.vram, p.lcdc, p.bgp, d2.bg_win_fifo);
            let (d3, p3) = pixel_output(DrawingView { bg_win_fetcher, bg_win_fifo, ..d2 }, p);
            if d3.lx >= 160 {
                (ModeView::HBlank { elapsed_cycles: d3.elapsed_cycles, wy_match_ly: d3.wy_match_ly, win_ly: d3.win_ly }, p3,
                    if bit(p.stat, 3) { request(flags, Kind::Stat) } else { flags })
            } else {
                (drawing_mode(d3), p3, flags)
            }
        },
    }
}

/// The end of the last visible line: the VBlank interrupt (and STAT when asked for), the
/// frame is no longer skipped, LY moves to 144.
pub open spec fn vblank_start(p: PpuView, flags: u8) -> (ModeView, PpuView, u8) {
    let f1 = request(flags, Kind::VBlank);
    let f2 = if bit(p.stat, 4) { request(f1, Kind::Stat) } else { f1 };
    let f3 = if bit(p.stat, 5) { request(f2, Kind::Stat) } else { f2 };
    let (p2, f4) = lyc_checked(PpuView { skip_frame: false, ly: (p.ly + 1) as u8, ..p }, f3);
    (ModeView::VBlank { elapsed_cycles_line: 0, ly: p2.ly }, p2, f4)
}

/// The end of a visible line but the last: LY moves on and the OAM scan starts.
pub open spec fn next_line(p: PpuView, flags: u8, wy_match_ly: bool, win_ly: u8) -> (ModeView, PpuView, u8) {
    let f1 = if bit(p.stat, 5) { request(flags, Kind::Stat) } else { flags };
    let (p2, f2) = lyc_checked(PpuView { ly: (p.ly + 1) as u8, ..p }, f1);
    (ModeView::OAMScan {
        sprite_buffer: Seq::new(10, |i: int| None),
        sprite_buffer_idx: 0,
        wy_match_ly,
        sprite_idx: 0,
        current_sprite: None,
        win_ly,
    }, p2, f2)
}

/// One cycle of the horizontal blank: a line lasts 456 cycles, 80 of them before the drawing.
pub open spec fn hblank_step(elapsed_cycles: usize, wy_match_ly: bool, win_ly: u8, p: PpuView, flags: u8)
    -> (ModeView, PpuView, u8, Option<Event>)
{
    let e = count_cycle(elapsed_cycles);
    if e >= 456 - 80 {
        if p.ly == 143 {
            let (m, p2, f) = vblank_start(p, flags);
            (m, p2, f, Some(Event::VBlank))
        } else {
            let (m, p2, f) = next_line(p, flags, wy_match_ly, win_ly);
            (m, p2, f, None)
        }
    } else {
        (ModeView::HBlank { elapsed_cycles: e, wy_match_ly, win_ly }, p, flags, None)
    }
}

/// One cycle of the vertical blank: ten lines of 456 cycles; LY shows 0 from the fourth
/// cycle of the last one, and a new frame starts after it.
pub open spec fn vblank_step(elapsed_cycles_line: usize, line: u8, p: PpuView, flags: u8) -> (ModeView, PpuView, u8, Option<Event>) {
    let e = (elapsed_cycles_line + 1) as usize;
    if e == 456 {
        if line == 153 {
            (first_mode(), p, if bit(p.stat, 5) { request(flags, Kind::Stat) } else { flags }, None)
        } else {
            let (p2, f2) = lyc_checked(PpuView { ly: (p.ly + 1) as u8, ..p }, flags);
            (ModeView::VBlank { elapsed_cycles_line: 0, ly: (line + 1) as u8 }, p2, f2, None)
        }
    } else if e == 4 && line == 153 {
        let (p2, f2) = lyc_checked(PpuView { ly: 0, ..p }, flags);
        (ModeView::VBlank { elapsed_cycles_line: e, ly: line }, p2, f2, None)
    } else {
        (ModeView::VBlank { elapsed_cycles_line: e, ly: line }, p, flags, None)
    }
}

/// One cycle of the PPU in mode `m`, with the interrupt requests `flags`: the next mode, the
/// PPU, the requests and the event for the front end. Nothing happens while the LCD is off.
pub open spec fn execute_step(m: ModeView, p: PpuView, flags: u8) -> (ModeView, PpuView, u8, Option<Event>) {
    if !bit(p.lcdc, 7) {
        (m, p, flags, None)
    } else {
        match m {
            ModeView::OAMScan { sprite_buffer, sprite_buffer_idx, wy_match_ly, sprite_idx, current_sprite, win_ly } =>
                (oam_scan_step(sprite_buffer, sprite_buffer_idx, wy_match_ly, sprite_idx, current_sprite, win_ly, p), p, flags, None),
            ModeView::Drawing { sprite_buffer, wy_match_ly, scx_delay, lx, elapsed_cycles, win_fetcher, bg_win_fetcher, bg_win_fifo,
                sprite_fetcher, sprite_fifo, win_ly } => {
                let (m2, p2, f2) = drawing_step(DrawingView { sprite_buffer, wy_match_ly, scx_delay, lx, elapsed_cycles, win_fetcher,
                    bg_win_fetcher, bg_win_fifo, sprite_fetcher, sprite_fifo, win_ly }, p, flags);
                (m2, p2, f2, None)
            },
            ModeView::HBlank { elapsed_cycles, wy_match_ly, win_ly } => hblank_step(elapsed_cycles, wy_match_ly, win_ly, p, flags),
            ModeView::VBlank { elapsed_cycles_line, ly } => vblank_step(elapsed_cycles_line, ly, p, flags),
        }
    }
}


/// The result of a cycle of the PPU once the pending LCD event is handed out: the event of
/// the cycle, else the pending one.
pub open spec fn tick_step(m: ModeView, p: PpuView, flags: u8) -> (ModeView, PpuView, u8, Option<Event>) {
    let (m2, p2, f2, ev) = execute_step(m, p, flags);
    (m2, PpuView { lcd_event: None, ..p2 }, f2, if ev is Some { ev } else { p2.lcd_event })
}

/// Takes the sprite to draw at column `lx` out of the buffer.
fn select_sprite(buffer: &mut [Option<Sprite>; 10], lx: u8) -> (r: Option<Sprite>)
    ensures
        match best_sprite(old(buffer)@, lx, 10) {
            Some(i) => r == Some(old(buffer)@[i]->0) && final(buffer)@ == old(buffer)@.update(i, None),
            None => r is None && final(buffer)@ == old(buffer)@,
        },
{
    let mut best: Option<usize> = None;
    let mut i: usize = 0;
    while i < 10
        invariant
            i <= 10,
            match best {
                Some(b) => b < i && best_sprite(buffer@, lx, i as int) == Some(b as int) && buffer@[b as int] is Some,
                None => best_sprite(buffer@, lx, i as int) is None,
            },
        decreases 10 - i,
    {
        if let Some(s) = buffer[i] {
            let covers = (lx as u16) < (s.x as u16) && (s.x as u16) <= (lx as u16) + 8;
            let earlier = match best {
                None => true,
                Some(b) => match buffer[b] {
                    Some(other) => s.draws_before(&other),
                    None => true,
                },
            };
            if covers && earlier {
                best = Some(i);
            }
        }
        i = i + 1;
    }
    match best {
        Some(b) => {
            let s = buffer[b];
            buffer[b] = None;
            s
        },
        None => None,
    }
}

impl Ppu {
    /// Compares LY with LYC: sets the coincidence flag, and requests the STAT interrupt on
    /// coincidence when STAT asks for it.
    pub fn check_lyc_compare(&mut self, interrupt_line: &mut Interrupt)
        ensures
            (final(self).view(), final(interrupt_line).spec_flags()) == lyc_checked(old(self).view(), old(interrupt_line).spec_flags()),
            final(interrupt_line).spec_enable() == old(interrupt_line).spec_enable(),
            final(self).spec_mode() == old(self).spec_mode(),
    {
        if self.ly != self.lyc {
            self.lyc_compare = false;
        } else {
            self.lyc_compare = true;
            if self.stat.lyc_interrupt_enabled() {
                interrupt_line.request(Kind::Stat);
            }
        }
    }
}

impl Mode {
    fn oam_scan(sprite_buffer: [Option<Sprite>; 10], sprite_buffer_idx: usize, wy_match_ly: bool, sprite_idx: usize,
        current_sprite: Option<Sprite>, win_ly: u8, ppu: &Ppu) -> (r: Mode)
        requires
            ppu.view().oam.len() == OAM_SIZE,
            ppu.view().ly <= 143,
            sprite_buffer_idx <= 10,
            sprite_idx <= 40,
            current_sprite is None ==> sprite_idx < 40,
        ensures
            r.view() == oam_scan_step(sprite_buffer@, sprite_buffer_idx, wy_match_ly, sprite_idx, current_sprite, win_ly, ppu.view()),
            mode_ok(r, ppu.view().ly),
    {
        let mut sprite_buffer = sprite_buffer;
        match current_sprite {
            None => {
                let idx_in_oam: usize = sprite_idx * 4;
                let sprite = Sprite {
                    idx_in_oam,
                    y: ppu.oam[idx_in_oam],
                    x: ppu.oam[idx_in_oam + 1],
                    tile_no: TileNo(ppu.oam[idx_in_oam + 2]),
                    attr: ppu.oam[idx_in_oam + 3],
                };
                Mode::OAMScan {
                    sprite_buffer,
                    sprite_buffer_idx,
                    wy_match_ly: if ppu.wy == ppu.ly { true } else { wy_match_ly },
                    sprite_idx: sprite_idx + 1,
                    current_sprite: Some(sprite),
                    win_ly,
                }
            },
            Some(current_sprite) => {
                let mut sprite_buffer_idx = sprite_buffer_idx;
                if sprite_buffer_idx < 10 {
                    let height: u16 = ppu.lcdc.sprite_height() as u16;
                    let y: u16 = current_sprite.y as u16;
                    let line: u16 = ppu.ly as u16 + 16;
                    if y <= line && line < y + height {
                        sprite_buffer[sprite_buffer_idx] = Some(current_sprite);
                        sprite_buffer_idx += 1;
                    }
                }
                if sprite_idx >= 40 {
                    Mode::switch_from_oam_scan_to_drawing(ppu, sprite_buffer, wy_match_ly, win_ly)
                } else {
                    Mode::OAMScan { sprite_buffer, sprite_buffer_idx, wy_match_ly, sprite_idx, current_sprite: None, win_ly }
                }
            },
        }
    }

    fn switch_from_oam_scan_to_drawing(ppu: &Ppu, sprite_buffer: [Option<Sprite>; 10], wy_match_ly: bool, win_ly: u8) -> (r: Mode)
        requires
            ppu.view().ly <= 143,
        ensures
            r.view() == drawing_start(ppu.view(), sprite_buffer@, wy_match_ly, win_ly),
            mode_ok(r, ppu.view().ly),
    {
        let bg_win_fetcher = BackgroundWindowFetcher::new(ppu.lcdc.bg_tile_map(), ppu.scx, ppu.ly.wrapping_add(ppu.scy));
        let r = Mode::Drawing {
            sprite_buffer,
            wy_match_ly,
            scx_delay: ppu.scx % 8,
            lx: 0,
            elapsed_cycles: 0,
            win_fetcher: false,
            bg_win_fetcher,
            bg_win_fifo: Fifo::new(),
            sprite_fetcher: None,
            sprite_fifo: Fifo::new(),
            win_ly,
        };
        r
    }
}


/// The drawing of a line, its parts taken out of the mode.
#[derive(Clone, Copy)]
struct DrawingState {
    sprite_buffer: [Option<Sprite>; 10],
    wy_match_ly: bool,
    scx_delay: u8,
    lx: u8,
    elapsed_cycles: usize,
    win_fetcher: bool,
    bg_win_fetcher: BackgroundWindowFetcher,
    bg_win_fifo: Fifo<BackgroundWindowPixel, 8>,
    sprite_fetcher: Option<SpriteFetcher>,
    sprite_fifo: Fifo<SpritePixel, 8>,
    win_ly: u8,
}

impl DrawingState {
    spec fn view(&self) -> DrawingView {
        DrawingView {
            sprite_buffer: self.sprite_buffer@,
            wy_match_ly: self.wy_match_ly,
            scx_delay: self.scx_delay,
            lx: self.lx,
            elapsed_cycles: self.elapsed_cycles,
            win_fetcher: self.win_fetcher,
            bg_win_fetcher: self.bg_win_fetcher,
            bg_win_fifo: self.bg_win_fifo@,
            sprite_fetcher: self.sprite_fetcher,
            sprite_fifo: self.sprite_fifo@,
            win_ly: self.win_ly,
        }
    }

    /// The fetchers and queues can run.
    spec fn parts_ok(&self) -> bool {
        &&& fetcher::bg_fetcher_ok(self.bg_win_fetcher) && self.bg_win_fifo.wf() && self.sprite_fifo.wf()
        &&& (self.sprite_fetcher matches Some(f) ==> fetcher::sprite_fetcher_ok(f))
    }

    fn select(&mut self, ppu: &Ppu)
        requires
            old(self).parts_ok(),
        ensures
            final(self).parts_ok(),
            final(self).view() == sprite_selected(old(self).view(), ppu.view().lcdc),
            final(self).lx == old(self).lx,
    {
        proof { reveal(sprite_selected); }
        if self.sprite_fetcher.is_none() && ppu.lcdc.display_sprite() {
            match select_sprite(&mut self.sprite_buffer, self.lx) {
                Some(sprite) => {
                    self.bg_win_fetcher.reset();
                    self.sprite_fetcher = Some(SpriteFetcher::new(sprite));
                },
                None => {},
            }
        }
    }

    fn window(&mut self, ppu: &Ppu)
        requires
            old(self).parts_ok(),
        ensures
            final(self).parts_ok(),
            final(self).view() == window_checked(old(self).view(), ppu.view()),
            final(self).lx == old(self).lx,
    {
        proof { reveal(window_checked); }
        if ppu.lcdc.display_window() && self.wy_match_ly && self.lx == ppu.wx.wrapping_sub(7) && !self.win_fetcher {
            self.bg_win_fetcher = BackgroundWindowFetcher::new(ppu.lcdc.window_tile_map(), 0, self.win_ly);
            self.bg_win_fifo.clear();
            self.win_fetcher = true;
            self.win_ly = self.win_ly.wrapping_add(1);
        }
    }

    fn output(&mut self, ppu: &mut Ppu)
        requires
            old(self).parts_ok(),
            old(self).lx < 160,
            old(ppu).view().ly <= 143,
        ensures
            final(self).parts_ok(),
            final(self).lx <= 160,
            (final(self).view(), final(ppu).view()) == pixel_output(old(self).view(), old(ppu).view()),
            final(ppu).spec_mode() == old(ppu).spec_mode(),
            final(ppu).view() == (PpuView { screen: final(ppu).view().screen, ..old(ppu).view() }),
    {
        proof { reveal(pixel_output); }
        if self.bg_win_fifo.len() > 0 {
            if self.scx_delay != 0 {
                self.bg_win_fifo.pop();
                if self.sprite_fifo.len() > 0 {
                    self.sprite_fifo.pop();
                }
                self.scx_delay -= 1;
            } else {
                let bg_pixel = self.bg_win_fifo.pop();
                let pixel_color = if self.sprite_fifo.len() > 0 {
                    let sprite_pixel = self.sprite_fifo.pop();
                    if sprite_pixel.is_zero() || (!sprite_pixel.over_bg_and_win() && !bg_pixel.is_zero()) {
                        bg_pixel.color()
                    } else {
                        sprite_pixel.color()
                    }
                } else {
                    bg_pixel.color()
                };
                if !ppu.skip_frame {
                    ppu.screen.set_pixel(self.lx as usize, ppu.ly as usize, pixel_color);
                }
                self.lx = self.lx.wrapping_add(1);
            }
        }
    }

    /// One cycle of the drawing.
    fn step(&mut self, ppu: &mut Ppu, interrupt_line: &mut Interrupt) -> (hblank: bool)
        requires
            old(self).parts_ok(),
            old(self).lx < 160,
            old(ppu).view().ly <= 143,
            old(ppu).view().vram.len() == VRAM_SIZE,
        ensures
            final(self).parts_ok(),
            hblank == (final(self).lx >= 160),
            !hblank ==> (drawing_mode(final(self).view()), final(ppu).view(), final(interrupt_line).spec_flags())
                == drawing_step(old(self).view(), old(ppu).view(), old(interrupt_line).spec_flags()),
            hblank ==> (ModeView::HBlank { elapsed_cycles: final(self).elapsed_cycles, wy_match_ly: final(self).wy_match_ly,
                win_ly: final(self).win_ly }, final(ppu).view(), final(interrupt_line).spec_flags())
                == drawing_step(old(self).view(), old(ppu).view(), old(interrupt_line).spec_flags()),
            final(interrupt_line).spec_enable() == old(interrupt_line).spec_enable(),
            final(ppu).spec_mode() == old(ppu).spec_mode(),
            final(ppu).view() == (PpuView { screen: final(ppu).view().screen, ..old(ppu).view() }),
    {
        let ghost p = ppu.view();
        self.elapsed_cycles = if self.elapsed_cycles == usize::MAX { self.elapsed_cycles } else { self.elapsed_cycles + 1 };
        self.select(ppu);
        if let Some(mut f) = self.sprite_fetcher {
            let done = f.tick(ppu, self.lx, &mut self.sprite_fifo);
            self.sprite_fetcher = if done { None } else { Some(f) };
            return false;
        }
        self.window(ppu);
        self.bg_win_fetcher.tick(ppu, &mut self.bg_win_fifo);
        self.output(ppu);
        if self.lx >= 160 {
            if ppu.stat.hblank_interrupt_enabled() {
                interrupt_line.request(Kind::Stat);
            }
            true
        } else {
            false
        }
    }
}

impl Mode {
    fn draw(d: DrawingState, ppu: &mut Ppu, interrupt_line: &mut Interrupt) -> (r: Mode)
        requires
            old(ppu).view().vram.len() == VRAM_SIZE,
            d.parts_ok(),
            d.lx < 160,
            old(ppu).view().ly <= 143,
        ensures
            (r.view(), final(ppu).view(), final(interrupt_line).spec_flags())
                == drawing_step(d.view(), old(ppu).view(), old(interrupt_line).spec_flags()),
            final(interrupt_line).spec_enable() == old(interrupt_line).spec_enable(),
            final(ppu).spec_mode() == old(ppu).spec_mode(),
            mode_ok(r, final(ppu).view().ly),
            final(ppu).view() == (PpuView { screen: final(ppu).view().screen, ..old(ppu).view() }),
    {
        let mut d = d;
        if d.step(ppu, interrupt_line) {
            Mode::HBlank { elapsed_cycles: d.elapsed_cycles, wy_match_ly: d.wy_match_ly, win_ly: d.win_ly }
        } else {
            Mode::Drawing {
                sprite_buffer: d.sprite_buffer,
                wy_match_ly: d.wy_match_ly,
                scx_delay: d.scx_delay,
                lx: d.lx,
                elapsed_cycles: d.elapsed_cycles,
                win_fetcher: d.win_fetcher,
                bg_win_fetcher: d.bg_win_fetcher,
                bg_win_fifo: d.bg_win_fifo,
                sprite_fetcher: d.sprite_fetcher,
                sprite_fifo: d.sprite_fifo,
                win_ly: d.win_ly,
            }
        }
    }
}


impl Mode {
    fn switch_from_hblank_to_vblank(ppu: &mut Ppu, interrupt_line: &mut Interrupt) -> (r: Mode)
        requires
            old(ppu).view().ly == 143,
        ensures
            (r.view(), final(ppu).view(), final(interrupt_line).spec_flags()) == vblank_start(old(ppu).view(), old(interrupt_line).spec_flags()),
            final(interrupt_line).spec_enable() == old(interrupt_line).spec_enable(),
            final(ppu).spec_mode() == old(ppu).spec_mode(),
            mode_ok(r, final(ppu).view().ly),
    {
        interrupt_line.request(Kind::VBlank);
        if ppu.stat.vblank_interrupt_enabled() {
            interrupt_line.request(Kind::Stat);
        }
        if ppu.stat.oam_scanning_interrupt_enabled() {
            interrupt_line.request(Kind::Stat);
        }
        ppu.skip_frame = false;
        ppu.ly += 1;
        ppu.check_lyc_compare(interrupt_line);
        Mode::VBlank { elapsed_cycles_line: 0, ly: ppu.ly }
    }

    fn switch_from_hblank_to_oam_scan(ppu: &mut Ppu, interrupt_line: &mut Interrupt, wy_match_ly: bool, win_ly: u8) -> (r: Mode)
        requires
            old(ppu).view().ly < 143,
        ensures
            (r.view(), final(ppu).view(), final(interrupt_line).spec_flags())
                == next_line(old(ppu).view(), old(interrupt_line).spec_flags(), wy_match_ly, win_ly),
            final(interrupt_line).spec_enable() == old(interrupt_line).spec_enable(),
            final(ppu).spec_mode() == old(ppu).spec_mode(),
            mode_ok(r, final(ppu).view().ly),
    {
        if ppu.stat.oam_scanning_interrupt_enabled() {
            interrupt_line.request(Kind::Stat);
        }
        ppu.ly += 1;
        ppu.check_lyc_compare(interrupt_line);
        let r = Mode::OAMScan {
            sprite_buffer: [None; 10],
            sprite_buffer_idx: 0,
            wy_match_ly,
            sprite_idx: 0,
            current_sprite: None,
            win_ly,
        };
        assert(r.view() =~= next_line(old(ppu).view(), old(interrupt_line).spec_flags(), wy_match_ly, win_ly).0) by {
            match r {
                Mode::OAMScan { sprite_buffer, .. } => assert(sprite_buffer@ =~= Seq::new(10, |i: int| None::<Sprite>)),
                _ => {},
            }
        }
        r
    }

    fn hblank(elapsed_cycles: usize, wy_match_ly: bool, win_ly: u8, ppu: &mut Ppu, interrupt_line: &mut Interrupt) -> (r: (Mode, Option<Event>))
        requires
            old(ppu).view().ly <= 143,
        ensures
            (r.0.view(), final(ppu).view(), final(interrupt_line).spec_flags(), r.1)
                == hblank_step(elapsed_cycles, wy_match_ly, win_ly, old(ppu).view(), old(interrupt_line).spec_flags()),
            final(interrupt_line).spec_enable() == old(interrupt_line).spec_enable(),
            final(ppu).spec_mode() == old(ppu).spec_mode(),
            mode_ok(r.0, final(ppu).view().ly),
    {
        let elapsed_cycles: usize = if elapsed_cycles == usize::MAX { elapsed_cycles } else { elapsed_cycles + 1 };
        if elapsed_cycles >= 456 - 80 {
            if ppu.ly == 143 {
                (Self::switch_from_hblank_to_vblank(ppu, interrupt_line), Some(Event::VBlank))
            } else {
                (Self::switch_from_hblank_to_oam_scan(ppu, interrupt_line, wy_match_ly, win_ly), None)
            }
        } else {
            (Mode::HBlank { elapsed_cycles, wy_match_ly, win_ly }, None)
        }
    }

    fn switch_from_vblank_to_oam_scan(ppu: &mut Ppu, interrupt_line: &mut Interrupt) -> (r: Mode)
        ensures
            r.view() == first_mode(),
            final(interrupt_line).spec_flags() == if bit(old(ppu).view().stat, 5) {
                request(old(interrupt_line).spec_flags(), Kind::Stat)
            } else {
                old(interrupt_line).spec_flags()
            },
            final(interrupt_line).spec_enable() == old(interrupt_line).spec_enable(),
            final(ppu).view() == old(ppu).view(),
            final(ppu).spec_mode() == old(ppu).spec_mode(),
    {
        if ppu.stat.oam_scanning_interrupt_enabled() {
            interrupt_line.request(Kind::Stat);
        }
        Self::default()
    }

    fn vblank(elapsed_cycles_line: usize, line: u8, ppu: &mut Ppu, interrupt_line: &mut Interrupt) -> (r: Mode)
        requires
            mode_ok(Mode::VBlank { elapsed_cycles_line, ly: line }, old(ppu).view().ly),
        ensures
            (r.view(), final(ppu).view(), final(interrupt_line).spec_flags(), None::<Event>)
                == vblank_step(elapsed_cycles_line, line, old(ppu).view(), old(interrupt_line).spec_flags()),
            final(interrupt_line).spec_enable() == old(interrupt_line).spec_enable(),
            final(ppu).spec_mode() == old(ppu).spec_mode(),
            mode_ok(r, final(ppu).view().ly),
    {
        let elapsed_cycles_line: usize = elapsed_cycles_line + 1;
        if elapsed_cycles_line == 456 {
            if line == 153 {
                Self::switch_from_vblank_to_oam_scan(ppu, interrupt_line)
            } else {
                ppu.ly += 1;
                ppu.check_lyc_compare(interrupt_line);
                Mode::VBlank { elapsed_cycles_line: 0, ly: line + 1 }
            }
        } else {
            if elapsed_cycles_line == 4 && line == 153 {
                ppu.ly = 0;
                ppu.check_lyc_compare(interrupt_line);
            }
            Mode::VBlank { elapsed_cycles_line, ly: line }
        }
    }

    /// Runs one cycle of the PPU in this mode; gives the next mode and the event for the front
    /// end.
    pub fn execute(self, ppu: &mut Ppu, interrupt_line: &mut Interrupt) -> (r: (Mode, Option<Event>))
        requires
            old(ppu).view().vram.len() == VRAM_SIZE,
            old(ppu).view().oam.len() == OAM_SIZE,
            mode_ok(self, old(ppu).view().ly),
        ensures
            (r.0.view(), final(ppu).view(), final(interrupt_line).spec_flags(), r.1)
                == execute_step(self.view(), old(ppu).view(), old(interrupt_line).spec_flags()),
            final(interrupt_line).spec_enable() == old(interrupt_line).spec_enable(),
            final(ppu).spec_mode() == old(ppu).spec_mode(),
            mode_ok(r.0, final(ppu).view().ly),
            final(ppu).view().vram == old(ppu).view().vram,
            final(ppu).view().oam == old(ppu).view().oam,
            final(ppu).view().lcdc == old(ppu).view().lcdc,
            final(ppu).view().stat == old(ppu).view().stat,
    {
        if !ppu.lcdc.lcd_enabled() {
            return (self, None);
        }
        match self {
            Mode::OAMScan { sprite_buffer, sprite_buffer_idx, wy_match_ly, sprite_idx, current_sprite, win_ly } =>
                (Self::oam_scan(sprite_buffer, sprite_buffer_idx, wy_match_ly, sprite_idx, current_sprite, win_ly, ppu), None),
            Mode::Drawing { sprite_buffer, wy_match_ly, scx_delay, lx, elapsed_cycles, win_fetcher, bg_win_fetcher, bg_win_fifo,
                sprite_fetcher, sprite_fifo, win_ly } => {
                let d = DrawingState { sprite_buffer, wy_match_ly, scx_delay, lx, elapsed_cycles, win_fetcher, bg_win_fetcher,
                    bg_win_fifo, sprite_fetcher, sprite_fifo, win_ly };
                (Self::draw(d, ppu, interrupt_line), None)
            },
            Mode::HBlank { elapsed_cycles, wy_match_ly, win_ly } => Self::hblank(elapsed_cycles, wy_match_ly, win_ly, ppu, interrupt_line),
            Mode::VBlank { elapsed_cycles_line, ly } => (Self::vblank(elapsed_cycles_line, ly, ppu, interrupt_line), None),
        }
    }
}

impl Ppu {
    /// Runs one cycle (a T-cycle) of the PPU. Gives the event of the cycle, else the pending
    /// event of a switch of the LCD.
    pub fn tick(&mut self, interrupt_line: &mut Interrupt) -> (r: Option<Event>)
        requires
            old(self).wf(),
        ensures
            final(self).wf(),
            (final(self).spec_mode().view(), final(self).view(), final(interrupt_line).spec_flags(), r)
                == tick_step(old(self).spec_mode().view(), old(self).view(), old(interrupt_line).spec_flags()),
            final(interrupt_line).spec_enable() == old(interrupt_line).spec_enable(),
    {
        let mode = self.mode;
        let (new_mode, screen_event) = mode.execute(self, interrupt_line);
        self.mode = new_mode;
        let lcd_event = self.ldc_event;
        self.ldc_event = None;
        match screen_event {
            Some(e) => Some(e),
            None => lcd_event,
        }
    }
}


/// Whether the CPU is locked out of the VRAM: the PPU reads it while drawing.
pub open spec fn vram_locked(m: ModeView, lcdc: u8) -> bool {
    m is Drawing && bit(lcdc, 7)
}

/// Whether the CPU is locked out of the OAM: the PPU reads it while scanning and drawing.
pub open spec fn oam_locked(m: ModeView, lcdc: u8) -> bool {
    (m is OAMScan || m is Drawing) && bit(lcdc, 7)
}

/// The two low bits of STAT: the mode.
pub open spec fn mode_bits(m: ModeView) -> u8 {
    match m {
        ModeView::HBlank { .. } => 0,
        ModeView::VBlank { .. } => 1,
        ModeView::OAMScan { .. } => 2,
        ModeView::Drawing { .. } => 3,
    }
}

/// The PPU after a write of LCDC: switching the LCD on starts a frame (which is not shown)
/// and signals it; switching it off blanks the screen, resets LY, signals it, and waits in
/// the horizontal blank.
pub open spec fn lcdc_written(m: ModeView, p: PpuView, value: u8) -> (ModeView, PpuView) {
    if value == p.lcdc {
        (m, p)
    } else if bit(value, 7) == bit(p.lcdc, 7) {
        (m, PpuView { lcdc: value, ..p })
    } else if bit(value, 7) {
        (first_mode(), PpuView { lcdc: value, lcd_event: Some(Event::LCDOn), skip_frame: true, ..p })
    } else {
        (ModeView::HBlank { elapsed_cycles: 0, wy_match_ly: false, win_ly: 0 },
            PpuView { lcdc: value, lcd_event: Some(Event::LCDOff), screen: screen::all_off(), ly: 0, lyc_compare: true, ..p })
    }
}

impl Ppu {
    /// A byte of the VRAM for the CPU: 0xFF while the PPU draws.
    pub fn read_vram_byte(&self, address: u16) -> (r: u8)
        requires
            self.wf(),
            address < VRAM_SIZE,
        ensures
            r == if vram_locked(self.spec_mode().view(), self.view().lcdc) { 0xFF } else { self.view().vram[address as int] },
    {
        match self.mode {
            Mode::Drawing { .. } if self.lcdc.lcd_enabled() => 0xFF,
            _ => self.vram[address as usize],
        }
    }

    /// A write of the CPU to the VRAM, dropped while the PPU draws.
    pub fn write_vram_byte(&mut self, address: u16, value: u8)
        requires
            old(self).wf(),
            address < VRAM_SIZE,
        ensures
            final(self).wf(),
            final(self).spec_mode() == old(self).spec_mode(),
            final(self).view() == if vram_locked(old(self).spec_mode().view(), old(self).view().lcdc) { old(self).view() } else {
                PpuView { vram: old(self).view().vram.update(address as int, value), ..old(self).view() }
            },
    {
        match self.mode {
            Mode::Drawing { .. } if self.lcdc.lcd_enabled() => {},
            _ => self.vram[address as usize] = value,
        }
    }

    /// A byte of the OAM for the CPU: 0xFF while the PPU scans or draws.
    pub fn read_oam_byte(&self, address: u16) -> (r: u8)
        requires
            self.wf(),
            address < OAM_SIZE,
        ensures
            r == if oam_locked(self.spec_mode().view(), self.view().lcdc) { 0xFF } else { self.view().oam[address as int] },
    {
        let locked = match self.mode {
            Mode::OAMScan { .. } | Mode::Drawing { .. } => self.lcdc.lcd_enabled(),
            _ => false,
        };
        if locked { 0xFF } else { self.oam[address as usize] }
    }

    /// A write of the CPU to the OAM, dropped while the PPU scans or draws.
    pub fn write_oam_byte(&mut self, address: u16, value: u8)
        requires
            old(self).wf(),
            address < OAM_SIZE,
        ensures
            final(self).wf(),
            final(self).spec_mode() == old(self).spec_mode(),
            final(self).view() == if oam_locked(old(self).spec_mode().view(), old(self).view().lcdc) { old(self).view() } else {
                PpuView { oam: old(self).view().oam.update(address as int, value), ..old(self).view() }
            },
    {
        let locked = match self.mode {
            Mode::OAMScan { .. } | Mode::Drawing { .. } => self.lcdc.lcd_enabled(),
            _ => false,
        };
        if !locked {
            self.oam[address as usize] = value;
        }
    }

    /// LCDC.
    pub fn read_lcdc(&self) -> (r: u8)
        ensures
            r == self.view().lcdc,
    {
        self.lcdc.0
    }

    /// Writes LCDC.
    pub fn write_lcdc(&mut self, value: u8)
        requires
            old(self).wf(),
        ensures
            final(self).wf(),
            (final(self).spec_mode().view(), final(self).view()) == lcdc_written(old(self).spec_mode().view(), old(self).view(), value),
    {
        let new_lcdc = Lcdc(value);
        if new_lcdc.0 != self.lcdc.0 {
            if new_lcdc.lcd_enabled() != self.lcdc.lcd_enabled() {
                if new_lcdc.lcd_enabled() {
                    self.ldc_event = Some(Event::LCDOn);
                    self.skip_frame = true;
                    self.mode = Mode::default();
                } else {
                    self.ldc_event = Some(Event::LCDOff);
                    self.screen.off();
                    self.mode = Mode::HBlank { elapsed_cycles: 0, wy_match_ly: false, win_ly: 0 };
                    self.ly = 0;
                    self.lyc_compare = true;
                }
            }
            self.lcdc = new_lcdc;
        }
    }

    /// STAT: bit 7 always set, the interrupt selection, the coincidence flag, the mode.
    pub fn read_stat(&self) -> (r: u8)
        ensures
            r == mode_bits(self.spec_mode().view()) | (if self.view().lyc_compare { 4u8 } else { 0u8 }) | self.view().stat | 0x80,
    {
        let mode_bits: u8 = match self.mode {
            Mode::HBlank { .. } => 0b00,
            Mode::VBlank { .. } => 0b01,
            Mode::OAMScan { .. } => 0b10,
            Mode::Drawing { .. } => 0b11,
        };
        let coincidence_flag: u8 = if self.lyc_compare { 0b100 } else { 0b000 };
        mode_bits | coincidence_flag | self.stat.0 | 0b10000000
    }

    /// Writes STAT: only the interrupt selection bits (3 to 6) can be written.
    pub fn write_stat(&mut self, value: u8)
        requires
            old(self).wf(),
        ensures
            final(self).wf(),
            final(self).spec_mode() == old(self).spec_mode(),
            final(self).view() == (PpuView { stat: value & 0b0111_1000, ..old(self).view() }),
    {
        let v: u8 = value & 0b01111000;
        assert(v & 0x87 == 0) by (bit_vector) requires v == value & 0x78;
        self.stat = Stat(v);
    }

    /// LY, the line being drawn.
    pub fn read_ly(&self) -> (r: u8)
        ensures
            r == self.view().ly,
    {
        self.ly
    }

    /// A write to LY resets it to 0.
    pub fn write_ly(&mut self, value: u8)
        requires
            old(self).wf(),
        ensures
            final(self).wf(),
            final(self).spec_mode() == old(self).spec_mode(),
            final(self).view() == (PpuView { ly: 0, ..old(self).view() }),
    {
        self.ly = 0;
    }

    /// SCY, the vertical scroll of the background.
    pub fn read_scy(&self) -> (r: u8)
        ensures
            r == self.view().scy,
    {
        self.scy
    }

    /// Writes SCY.
    pub fn write_scy(&mut self, value: u8)
        requires
            old(self).wf(),
        ensures
            final(self).wf(),
            final(self).spec_mode() == old(self).spec_mode(),
            final(self).view() == (PpuView { scy: value, ..old(self).view() }),
    {
        self.scy = value;
    }

    /// SCX, the horizontal scroll of the background.
    pub fn read_scx(&self) -> (r: u8)
        ensures
            r == self.view().scx,
    {
        self.scx
    }

    /// Writes SCX.
    pub fn write_scx(&mut self, value: u8)
        requires
            old(self).wf(),
        ensures
            final(self).wf(),
            final(self).spec_mode() == old(self).spec_mode(),
            final(self).view() == (PpuView { scx: value, ..old(self).view() }),
    {
        self.scx = value;
    }

    /// LYC, the line compared with LY.
    pub fn read_lyc(&self) -> (r: u8)
        ensures
            r == self.view().lyc,
    {
        self.lyc
    }

    /// Writes LYC.
    pub fn write_lyc(&mut self, value: u8)
        requires
            old(self).wf(),
        ensures
            final(self).wf(),
            final(self).spec_mode() == old(self).spec_mode(),
            final(self).view() == (PpuView { lyc: value, ..old(self).view() }),
    {
        self.lyc = value;
    }

    /// WY, the line where the window starts.
    pub fn read_wy(&self) -> (r: u8)
        ensures
            r == self.view().wy,
    {
        self.wy
    }

    /// Writes WY.
    pub fn write_wy(&mut self, value: u8)
        requires
            old(self).wf(),
        ensures
            final(self).wf(),
            final(self).spec_mode() == old(self).spec_mode(),
            final(self).view() == (PpuView { wy: value, ..old(self).view() }),
    {
        self.wy = value;
    }

    /// WX, the column where the window starts, plus 7.
    pub fn read_wx(&self) -> (r: u8)
        ensures
            r == self.view().wx,
    {
        self.wx
    }

    /// Writes WX.
    pub fn write_wx(&mut self, value: u8)
        requires
            old(self).wf(),
        ensures
            final(self).wf(),
            final(self).spec_mode() == old(self).spec_mode(),
            final(self).view() == (PpuView { wx: value, ..old(self).view() }),
    {
        self.wx = value;
    }

    /// BGP, the palette of the background and the window.
    pub fn read_bgp(&self) -> (r: u8)
        ensures
            r == self.view().bgp,
    {
        self.bgp.0
    }

    /// Writes BGP.
    pub fn write_bgp(&mut self, value: u8)
        requires
            old(self).wf(),
        ensures
            final(self).wf(),
            final(self).spec_mode() == old(self).spec_mode(),
            final(self).view() == (PpuView { bgp: value, ..old(self).view() }),
    {
        self.bgp = Palette(value);
    }

    /// OBP0, the first sprite palette.
    pub fn read_obp0(&self) -> (r: u8)
        ensures
            r == self.view().obp0,
    {
        self.obp0.0
    }

    /// Writes OBP0.
    pub fn write_obp0(&mut self, value: u8)
        requires
            old(self).wf(),
        ensures
            final(self).wf(),
            final(self).spec_mode() == old(self).spec_mode(),
            final(self).view() == (PpuView { obp0: value, ..old(self).view() }),
    {
        self.obp0 = Palette(value);
    }

    /// OBP1, the second sprite palette.
    pub fn read_obp1(&self) -> (r: u8)
        ensures
            r == self.view().obp1,
    {
        self.obp1.0
    }

    /// Writes OBP1.
    pub fn write_obp1(&mut self, value: u8)
        requires
            old(self).wf(),
        ensures
            final(self).wf(),
            final(self).spec_mode() == old(self).spec_mode(),
            final(self).view() == (PpuView { obp1: value, ..old(self).view() }),
    {
        self.obp1 = Palette(value);
    }

    /// The screen.
    pub fn screen(&self) -> (r: &Screen)
        ensures
            r@ == self.view().screen,
    {
        &self.screen
    }
}

/// A CPU write to the VRAM outside the drawing is read back at the same address and leaves
/// the other bytes as they were; during the drawing (LCD on) it changes nothing.
pub proof fn lemma_vram_read_after_write(m: ModeView, p: PpuView, a: u16, v: u8)
    requires
        p.vram.len() == VRAM_SIZE,
        a < VRAM_SIZE,
    ensures
        ({
            let p2 = if vram_locked(m, p.lcdc) { p } else { PpuView { vram: p.vram.update(a as int, v), ..p } };
            &&& vram_locked(m, p.lcdc) ==> p2 == p
            &&& !vram_locked(m, p.lcdc) ==> (if vram_locked(m, p2.lcdc) { 0xFF } else { p2.vram[a as int] }) == v
            &&& p2.vram.len() == VRAM_SIZE
            &&& forall|i: int| 0 <= i < VRAM_SIZE && i != a ==> #[trigger] p2.vram[i] == p.vram[i]
        }),
{
}

/// A CPU write to the OAM outside the OAM scan and the drawing is read back at the same
/// address and leaves the other bytes as they were; while the PPU holds the OAM (LCD on) it
/// changes nothing.
pub proof fn lemma_oam_read_after_write(m: ModeView, p: PpuView, a: u16, v: u8)
    requires
        p.oam.len() == OAM_SIZE,
        a < OAM_SIZE,
    ensures
        ({
            let p2 = if oam_locked(m, p.lcdc) { p } else { PpuView { oam: p.oam.update(a as int, v), ..p } };
            &&& oam_locked(m, p.lcdc) ==> p2 == p
            &&& !oam_locked(m, p.lcdc) ==> (if oam_locked(m, p2.lcdc) { 0xFF } else { p2.oam[a as int] }) == v
            &&& p2.oam.len() == OAM_SIZE
            &&& forall|i: int| 0 <= i < OAM_SIZE && i != a ==> #[trigger] p2.oam[i] == p.oam[i]
        }),
{
}

/// Switching the LCD off resets LY, blanks the screen and puts the PPU in the horizontal
/// blank with the coincidence flag set, so STAT reads mode 0 with bit 2 set; the next cycle
/// hands out the `LCDOff` event and changes nothing else. A write of LCDC that keeps bit 7
/// keeps the mode, LY and the pending event.
pub proof fn lemma_lcd_switch(m: ModeView, p: PpuView, value: u8, flags: u8)
    requires
        p.stat & 0x87 == 0,
    ensures
        ({
            let (m2, p2) = lcdc_written(m, p, value);
            bit(p.lcdc, 7) && !bit(value, 7) ==> {
                &&& p2.ly == 0
                &&& p2.screen == screen::all_off()
                &&& (mode_bits(m2) | (if p2.lyc_compare { 4u8 } else { 0u8 }) | p2.stat | 0x80) & 0b111 == 0b100
                &&& tick_step(m2, p2, flags) == (m2, PpuView { lcd_event: None, ..p2 }, flags, Some(Event::LCDOff))
            }
        }),
        ({
            let (m2, p2) = lcdc_written(m, p, value);
            bit(value, 7) == bit(p.lcdc, 7) ==> m2 == m && p2.ly == p.ly && p2.lcd_event == p.lcd_event && p2.lcdc == value
        }),
{
    let s = p.stat;
    assert((0u8 | 4u8 | s | 0x80) & 0b111 == 0b100) by (bit_vector)
        requires s & 0x87 == 0;
}

/// A cycle of the PPU leaves the registers that the CPU writes (LCDC, STAT, SCY, SCX, LYC,
/// WY, WX, BGP, OBP0, OBP1) as they are, and VRAM and OAM too.
pub proof fn lemma_tick_keeps_registers(m: ModeView, p: PpuView, flags: u8)
    ensures
        ({
            let p2 = tick_step(m, p, flags).1;
            &&& p2.lcdc == p.lcdc
            &&& p2.stat == p.stat
            &&& p2.scy == p.scy
            &&& p2.scx == p.scx
            &&& p2.lyc == p.lyc
            &&& p2.wy == p.wy
            &&& p2.wx == p.wx
            &&& p2.bgp == p.bgp
            &&& p2.obp0 == p.obp0
            &&& p2.obp1 == p.obp1
            &&& p2.vram == p.vram
            &&& p2.oam == p.oam
        }),
{
    if bit(p.lcdc, 7) {
        match m {
            ModeView::OAMScan { .. } => {},
            ModeView::Drawing { sprite_buffer, wy_match_ly, scx_delay, lx, elapsed_cycles, win_fetcher, bg_win_fetcher,
                bg_win_fifo, sprite_fetcher, sprite_fifo, win_ly } => {
                let d0 = DrawingView { sprite_buffer, wy_match_ly, scx_delay, lx, elapsed_cycles, win_fetcher,
                    bg_win_fetcher, bg_win_fifo, sprite_fetcher, sprite_fifo, win_ly };
                lemma_drawing_keeps_registers(d0, p, flags);
            },
            ModeView::HBlank { .. } => {},
            ModeView::VBlank { .. } => {},
        }
    }
}

/// A cycle of the drawing changes of the PPU's registers no more than the screen.
proof fn lemma_drawing_keeps_registers(d0: DrawingView, p: PpuView, flags: u8)
    ensures
        drawing_step(d0, p, flags).1 == (PpuView { screen: drawing_step(d0, p, flags).1.screen, ..p }),
{
    let d1 = sprite_selected(DrawingView { elapsed_cycles: count_cycle(d0.elapsed_cycles), ..d0 }, p.lcdc);
    if d1.sprite_fetcher is None {
        let d2 = window_checked(d1, p);
        let (bg_win_fetcher, bg_win_fifo) = fetcher::bg_fetch_step(d2.bg_win_fetcher, p.vram, p.lcdc, p.bgp, d2.bg_win_fifo);
        reveal(pixel_output);
        let (d3, p3) = pixel_output(DrawingView { bg_win_fetcher, bg_win_fifo, ..d2 }, p);
        assert(p3 == PpuView { screen: p3.screen, ..p });
    }
}

/// The PPU after `n` cycles from mode `m`, registers `p` and interrupt requests `flags`.
pub open spec fn ticks(m: ModeView, p: PpuView, flags: u8, n: nat) -> (ModeView, PpuView, u8)
    decreases n,
{
    if n == 0 {
        (m, p, flags)
    } else {
        let (m2, p2, f2, _) = tick_step(m, p, flags);
        ticks(m2, p2, f2, (n - 1) as nat)
    }
}

/// `n + 1` cycles are `n` cycles and one more.
pub proof fn lemma_ticks_last(m: ModeView, p: PpuView, flags: u8, n: nat)
    ensures
        ticks(m, p, flags, n + 1) == ({
            let (m1, p1, f1) = ticks(m, p, flags, n);
            let (m2, p2, f2, _) = tick_step(m1, p1, f1);
            (m2, p2, f2)
        }),
    decreases n,
{
    reveal_with_fuel(ticks, 2);
    if n > 0 {
        let (m2, p2, f2, _) = tick_step(m, p, flags);
        lemma_ticks_last(m2, p2, f2, (n - 1) as nat);
    }
}

/// Cycles add up: `a + b` cycles are `a` cycles, then `b` more.
pub proof fn lemma_ticks_add(m: ModeView, p: PpuView, flags: u8, a: nat, b: nat)
    ensures
        ticks(m, p, flags, a + b) == ({
            let (m1, p1, f1) = ticks(m, p, flags, a);
            ticks(m1, p1, f1, b)
        }),
    decreases a,
{
    if a > 0 {
        let (m2, p2, f2, _) = tick_step(m, p, flags);
        lemma_ticks_add(m2, p2, f2, (a - 1) as nat, b);
        assert((a + b - 1) as nat == ((a - 1) as nat + b));
    }
}

/// Within a line of the vertical blank (LCD on), the cycles count up one by one, and LCDC
/// stays as it is.
proof fn lemma_vblank_cycles(line: u8, p: PpuView, flags: u8, k: nat)
    requires
        bit(p.lcdc, 7),
        144 <= line <= 153,
        k <= 455,
    ensures
        ticks(ModeView::VBlank { elapsed_cycles_line: 0, ly: line }, p, flags, k).0
            == (ModeView::VBlank { elapsed_cycles_line: k as usize, ly: line }),
        ticks(ModeView::VBlank { elapsed_cycles_line: 0, ly: line }, p, flags, k).1.lcdc == p.lcdc,
    decreases k,
{
    if k > 0 {
        lemma_vblank_cycles(line, p, flags, (k - 1) as nat);
        lemma_ticks_last(ModeView::VBlank { elapsed_cycles_line: 0, ly: line }, p, flags, (k - 1) as nat);
    }
}

/// A line of the vertical blank lasts 456 cycles (LCD on): the next line of the blank
/// starts after them, or, after the last one (153), the OAM scan of the first line of the
/// next frame.
pub proof fn lemma_vblank_line(line: u8, p: PpuView, flags: u8)
    requires
        bit(p.lcdc, 7),
        144 <= line <= 153,
    ensures
        ticks(ModeView::VBlank { elapsed_cycles_line: 0, ly: line }, p, flags, 456).0
            == if line == 153 { first_mode() } else { ModeView::VBlank { elapsed_cycles_line: 0, ly: (line + 1) as u8 } },
        ticks(ModeView::VBlank { elapsed_cycles_line: 0, ly: line }, p, flags, 456).1.lcdc == p.lcdc,
        forall|k: nat| k < 456 ==> #[trigger] ticks(ModeView::VBlank { elapsed_cycles_line: 0, ly: line }, p, flags, k).0 is VBlank,
{
    lemma_vblank_cycles(line, p, flags, 455);
    lemma_ticks_last(ModeView::VBlank { elapsed_cycles_line: 0, ly: line }, p, flags, 455);
    assert forall|k: nat| k < 456 implies #[trigger] ticks(ModeView::VBlank { elapsed_cycles_line: 0, ly: line }, p, flags, k).0 is VBlank by {
        lemma_vblank_cycles(line, p, flags, k);
    }
}

/// The vertical blank lasts ten lines of 456 cycles: from its start (LCD on), the OAM scan
/// of the next frame starts 4560 cycles later.
pub proof fn lemma_vblank_length(p: PpuView, flags: u8)
    requires
        bit(p.lcdc, 7),
    ensures
        ticks(ModeView::VBlank { elapsed_cycles_line: 0, ly: 144 }, p, flags, 4560).0 == first_mode(),
{
    let m0 = ModeView::VBlank { elapsed_cycles_line: 0, ly: 144 };
    lemma_vblank_lines(p, flags, 9);
    let (m1, p1, f1) = ticks(m0, p, flags, 456 * 9);
    lemma_ticks_add(m0, p, flags, 456 * 9, 456);
    lemma_vblank_line(153, p1, f1);
}

/// After `j` whole lines of the vertical blank, line 144 + `j` starts.
proof fn lemma_vblank_lines(p: PpuView, flags: u8, j: nat)
    requires
        bit(p.lcdc, 7),
        j <= 9,
    ensures
        ticks(ModeView::VBlank { elapsed_cycles_line: 0, ly: 144 }, p, flags, 456 * j).0
            == (ModeView::VBlank { elapsed_cycles_line: 0, ly: (144 + j) as u8 }),
        ticks(ModeView::VBlank { elapsed_cycles_line: 0, ly: 144 }, p, flags, 456 * j).1.lcdc == p.lcdc,
    decreases j,
{
    let m0 = ModeView::VBlank { elapsed_cycles_line: 0, ly: 144 };
    if j > 0 {
        lemma_vblank_lines(p, flags, (j - 1) as nat);
        let (m1, p1, f1) = ticks(m0, p, flags, 456 * (j - 1) as nat);
        lemma_ticks_add(m0, p, flags, 456 * (j - 1) as nat, 456);
        lemma_vblank_line((144 + j - 1) as u8, p1, f1);
        assert(456 * (j - 1) as nat + 456 == 456 * j);
    }
}

/// The mode at the start of the OAM scan of a line.
pub open spec fn scan_start(wy_match_ly: bool, win_ly: u8) -> ModeView {
    ModeView::OAMScan {
        sprite_buffer: Seq::new(10, |i: int| None),
        sprite_buffer_idx: 0,
        wy_match_ly,
        sprite_idx: 0,
        current_sprite: None,
        win_ly,
    }
}

/// The OAM scan takes two cycles per sprite (LCD on): from sprite `i` on, the drawing starts,
/// at its first cycle and first column, 2 * (40 - `i`) cycles later, and the cycles between
/// are all in the OAM scan. From the start of a line this is 80 cycles.
pub proof fn lemma_oam_scan_length(sprite_buffer: Seq<Option<Sprite>>, sprite_buffer_idx: usize, wy_match_ly: bool,
    i: usize, win_ly: u8, p: PpuView, flags: u8)
    requires
        bit(p.lcdc, 7),
        i < 40,
        sprite_buffer_idx <= 10,
    ensures
        ({
            let m = ModeView::OAMScan { sprite_buffer, sprite_buffer_idx, wy_match_ly, sprite_idx: i, current_sprite: None, win_ly };
            let r = ticks(m, p, flags, (2 * (40 - i)) as nat);
            &&& r.0 matches ModeView::Drawing { elapsed_cycles, lx, .. } && elapsed_cycles == 0 && lx == 0
            &&& r.1 == PpuView { lcd_event: None, ..p }
            &&& r.2 == flags
            &&& forall|k: nat| k < 2 * (40 - i) ==> (#[trigger] ticks(m, p, flags, k)).0 is OAMScan
        }),
    decreases 40 - i,
{
    let m = ModeView::OAMScan { sprite_buffer, sprite_buffer_idx, wy_match_ly, sprite_idx: i, current_sprite: None, win_ly };
    reveal_with_fuel(ticks, 3);
    let (m2, p2, f2) = ticks(m, p, flags, 2);
    lemma_ticks_add(m, p, flags, 2, (2 * (40 - i) - 2) as nat);
    if i < 39 {
        match m2 {
            ModeView::OAMScan { sprite_buffer: b2, sprite_buffer_idx: bi2, wy_match_ly: w2, .. } => {
                lemma_oam_scan_length(b2, bi2, w2, (i + 1) as usize, win_ly, p2, f2);
                assert(PpuView { lcd_event: None, ..p2 } == PpuView { lcd_event: None, ..p });
            },
            _ => {},
        }
    }
    assert forall|k: nat| k < 2 * (40 - i) implies (#[trigger] ticks(m, p, flags, k)).0 is OAMScan by {
        if k >= 2 {
            lemma_ticks_add(m, p, flags, 2, (k - 2) as nat);
        }
    }
}

/// Once the line has run 376 cycles past the OAM scan, it ends (LCD on): the horizontal
/// blank counts its cycles one by one, then the next line's OAM scan starts, or, after line
/// 143, the vertical blank starts with the `VBlank` event. LY moves to the next line.
pub proof fn lemma_hblank_length(elapsed: usize, wy_match_ly: bool, win_ly: u8, p: PpuView, flags: u8)
    requires
        bit(p.lcdc, 7),
        elapsed < 376,
        p.ly <= 143,
    ensures
        ({
            let m = ModeView::HBlank { elapsed_cycles: elapsed, wy_match_ly, win_ly };
            let (m1, p1, f1) = ticks(m, p, flags, (375 - elapsed) as nat);
            let (m2, p2, f2, ev) = tick_step(m1, p1, f1);
            &&& m1 == ModeView::HBlank { elapsed_cycles: 375, wy_match_ly, win_ly }
            &&& m2 == if p.ly == 143 { ModeView::VBlank { elapsed_cycles_line: 0, ly: 144 } } else { scan_start(wy_match_ly, win_ly) }
            &&& p2.ly == p.ly + 1
            &&& p2.lcdc == p.lcdc
            &&& p.ly == 143 ==> ev == Some(Event::VBlank)
            &&& forall|k: nat| k <= 375 - elapsed ==> (#[trigger] ticks(m, p, flags, k)).0 is HBlank
        }),
{
    let m = ModeView::HBlank { elapsed_cycles: elapsed, wy_match_ly, win_ly };
    assert forall|k: nat| k <= 375 - elapsed implies (#[trigger] ticks(m, p, flags, k)).0
        == (ModeView::HBlank { elapsed_cycles: (elapsed + k) as usize, wy_match_ly, win_ly })
        && ticks(m, p, flags, k).1.ly == p.ly && ticks(m, p, flags, k).1.lcdc == p.lcdc by {
        lemma_hblank_cycles(elapsed, wy_match_ly, win_ly, p, flags, k);
    }
    assert(ticks(m, p, flags, (375 - elapsed) as nat).0 == (ModeView::HBlank { elapsed_cycles: 375, wy_match_ly, win_ly }));
}

proof fn lemma_hblank_cycles(elapsed: usize, wy_match_ly: bool, win_ly: u8, p: PpuView, flags: u8, k: nat)
    requires
        bit(p.lcdc, 7),
        elapsed + k <= 375,
    ensures
        ticks(ModeView::HBlank { elapsed_cycles: elapsed, wy_match_ly, win_ly }, p, flags, k).0
            == (ModeView::HBlank { elapsed_cycles: (elapsed + k) as usize, wy_match_ly, win_ly }),
        ticks(ModeView::HBlank { elapsed_cycles: elapsed, wy_match_ly, win_ly }, p, flags, k).1.ly == p.ly,
        ticks(ModeView::HBlank { elapsed_cycles: elapsed, wy_match_ly, win_ly }, p, flags, k).1.lcdc == p.lcdc,
        ticks(ModeView::HBlank { elapsed_cycles: elapsed, wy_match_ly, win_ly }, p, flags, k).1.stat == p.stat,
        ticks(ModeView::HBlank { elapsed_cycles: elapsed, wy_match_ly, win_ly }, p, flags, k).1.lyc == p.lyc,
    decreases k,
{
    if k > 0 {
        lemma_hblank_cycles(elapsed, wy_match_ly, win_ly, p, flags, (k - 1) as nat);
        lemma_ticks_last(ModeView::HBlank { elapsed_cycles: elapsed, wy_match_ly, win_ly }, p, flags, (k - 1) as nat);
    }
}

/// Every cycle of the drawing (LCD on) counts one more elapsed cycle: the next mode is the
/// drawing or the horizontal blank, with the count one higher.
pub proof fn lemma_drawing_counts(m: ModeView, p: PpuView, flags: u8)
    requires
        bit(p.lcdc, 7),
        m matches ModeView::Drawing { elapsed_cycles, .. } && elapsed_cycles < usize::MAX,
    ensures
        ({
            let (m2, p2, f2, _) = tick_step(m, p, flags);
            &&& m2 matches ModeView::Drawing { elapsed_cycles, .. } ==> elapsed_cycles == m->Drawing_elapsed_cycles + 1
            &&& m2 matches ModeView::HBlank { elapsed_cycles, .. } ==> elapsed_cycles == m->Drawing_elapsed_cycles + 1
            &&& m2 is Drawing || m2 is HBlank
            &&& p2.ly == p.ly
            &&& p2.lcdc == p.lcdc
        }),
{
    reveal(sprite_selected);
    reveal(window_checked);
    reveal(pixel_output);
}

/// Whether `m` is the first cycle of the OAM scan of a line.
pub open spec fn is_scan_start(m: ModeView) -> bool {
    m is OAMScan && m == scan_start(m->OAMScan_wy_match_ly, m->OAMScan_win_ly)
}

/// Past the OAM scan of a line, each cycle counts one more elapsed cycle, in the drawing or
/// in the horizontal blank, while LY and LCDC stay as they are.
proof fn lemma_line_counts(wy_match_ly: bool, win_ly: u8, p: PpuView, flags: u8, k: nat)
    requires
        bit(p.lcdc, 7),
        k <= 375,
    ensures
        ({
            let r = ticks(scan_start(wy_match_ly, win_ly), p, flags, 80 + k);
            &&& (r.0 matches ModeView::Drawing { elapsed_cycles, .. } && elapsed_cycles == k)
                || (r.0 matches ModeView::HBlank { elapsed_cycles, .. } && elapsed_cycles == k)
            &&& r.1.ly == p.ly
            &&& r.1.lcdc == p.lcdc
        }),
    decreases k,
{
    let m = scan_start(wy_match_ly, win_ly);
    if k == 0 {
        lemma_oam_scan_length(Seq::new(10, |i: int| None), 0, wy_match_ly, 0, win_ly, p, flags);
    } else {
        lemma_line_counts(wy_match_ly, win_ly, p, flags, (k - 1) as nat);
        lemma_ticks_last(m, p, flags, (80 + k - 1) as nat);
        let (m1, p1, f1) = ticks(m, p, flags, (80 + k - 1) as nat);
        if m1 is Drawing {
            lemma_drawing_counts(m1, p1, f1);
        }
        assert((80 + k - 1) as nat + 1 == 80 + k);
    }
}

/// A visible line lasts 456 cycles (LCD on) when its drawing ends within 376 cycles of the
/// end of the OAM scan: the next line's OAM scan starts 456 cycles after this one's, or,
/// after line 143, the vertical blank, and that last cycle hands out the `VBlank` event.
/// LY moves to the next line.
pub proof fn lemma_line_length(wy_match_ly: bool, win_ly: u8, p: PpuView, flags: u8)
    requires
        bit(p.lcdc, 7),
        p.ly <= 143,
        ticks(scan_start(wy_match_ly, win_ly), p, flags, 455).0 is HBlank,
    ensures
        ({
            let m = scan_start(wy_match_ly, win_ly);
            let (m1, p1, f1) = ticks(m, p, flags, 455);
            let (m2, p2, f2, ev) = tick_step(m1, p1, f1);
            &&& ticks(m, p, flags, 456) == (m2, p2, f2)
            &&& p.ly < 143 ==> is_scan_start(m2)
            &&& p.ly == 143 ==> m2 == ModeView::VBlank { elapsed_cycles_line: 0, ly: 144 } && ev == Some(Event::VBlank)
            &&& p2.ly == p.ly + 1
            &&& p2.lcdc == p.lcdc
        }),
{
    let m = scan_start(wy_match_ly, win_ly);
    lemma_line_counts(wy_match_ly, win_ly, p, flags, 375);
    lemma_ticks_last(m, p, flags, 455);
}

/// A frame lasts 70224 cycles (LCD on, starting on line 0) when the drawing of each of its
/// 144 visible lines ends within 376 cycles of its OAM scan: 144 lines of 456 cycles, the
/// last of which hands out the `VBlank` event as the vertical blank starts, then ten lines
/// of vertical blank, after which the next frame starts on line 0.
pub proof fn lemma_frame_length(p: PpuView, flags: u8)
    requires
        bit(p.lcdc, 7),
        p.ly == 0,
        forall|j: nat| j < 144 ==> (#[trigger] ticks(first_mode(), p, flags, 456 * j + 455)).0 is HBlank,
    ensures
        ({
            let (m1, p1, f1) = ticks(first_mode(), p, flags, 456 * 143 + 455);
            tick_step(m1, p1, f1).3 == Some(Event::VBlank)
        }),
        ticks(first_mode(), p, flags, 456 * 144).0 == (ModeView::VBlank { elapsed_cycles_line: 0, ly: 144 }),
        ticks(first_mode(), p, flags, 70224).0 == first_mode(),
        ticks(first_mode(), p, flags, 70224).1.ly == 0,
        ticks(first_mode(), p, flags, 70224).1.lcdc == p.lcdc,
{
    assert(is_scan_start(first_mode()));
    lemma_visible_lines(p, flags, 143);
    let (mj, pj, fj) = ticks(first_mode(), p, flags, 456 * 143);
    assert(ticks(first_mode(), p, flags, 456 * 143 + 455).0 is HBlank);
    lemma_ticks_add(first_mode(), p, flags, 456 * 143, 455);
    lemma_line_length(mj->OAMScan_wy_match_ly, mj->OAMScan_win_ly, pj, fj);
    lemma_ticks_add(first_mode(), p, flags, 456 * 143, 456);
    lemma_ticks_add(first_mode(), p, flags, 456 * 143, 455);
    let (mv, pv, fv) = ticks(first_mode(), p, flags, 456 * 144);
    assert(456 * 143 + 456 == 456 * 144);
    lemma_vblank_length(pv, fv);
    lemma_vblank_ly(pv, fv);
    lemma_ticks_add(first_mode(), p, flags, 456 * 144, 4560);
    assert(456 * 144 + 4560 == 70224);
}

/// After `j` visible lines, line `j` starts, with LCDC unchanged.
proof fn lemma_visible_lines(p: PpuView, flags: u8, j: nat)
    requires
        bit(p.lcdc, 7),
        p.ly == 0,
        j <= 143,
        forall|i: nat| i < 144 ==> (#[trigger] ticks(first_mode(), p, flags, 456 * i + 455)).0 is HBlank,
    ensures
        is_scan_start(ticks(first_mode(), p, flags, 456 * j).0),
        ticks(first_mode(), p, flags, 456 * j).1.ly == j,
        ticks(first_mode(), p, flags, 456 * j).1.lcdc == p.lcdc,
    decreases j,
{
    if j > 0 {
        let i = (j - 1) as nat;
        lemma_visible_lines(p, flags, i);
        let (mi, pi, fi) = ticks(first_mode(), p, flags, 456 * i);
        assert(ticks(first_mode(), p, flags, 456 * i + 455).0 is HBlank);
        lemma_ticks_add(first_mode(), p, flags, 456 * i, 455);
        lemma_line_length(mi->OAMScan_wy_match_ly, mi->OAMScan_win_ly, pi, fi);
        lemma_ticks_add(first_mode(), p, flags, 456 * i, 456);
        assert(456 * i + 456 == 456 * j);
    }
}

/// The vertical blank ends with LY at 0 and LCDC unchanged.
proof fn lemma_vblank_ly(p: PpuView, flags: u8)
    requires
        bit(p.lcdc, 7),
    ensures
        ticks(ModeView::VBlank { elapsed_cycles_line: 0, ly: 144 }, p, flags, 4560).1.ly == 0,
        ticks(ModeView::VBlank { elapsed_cycles_line: 0, ly: 144 }, p, flags, 4560).1.lcdc == p.lcdc,
{
    let m0 = ModeView::VBlank { elapsed_cycles_line: 0, ly: 144 };
    lemma_vblank_lines(p, flags, 9);
    let (m1, p1, f1) = ticks(m0, p, flags, 456 * 9);
    lemma_ticks_add(m0, p, flags, 456 * 9, 456);
    lemma_vblank_cycles(153, p1, f1, 455);
    lemma_vblank_cycles(153, p1, f1, 4);
    lemma_vblank_ly_after(153, p1, f1, 455);
    lemma_ticks_last(m1, p1, f1, 455);
}

/// On the last line of the vertical blank, LY reads 0 from its fourth cycle on.
proof fn lemma_vblank_ly_after(line: u8, p: PpuView, flags: u8, k: nat)
    requires
        bit(p.lcdc, 7),
        line == 153,
        4 <= k <= 455,
    ensures
        ticks(ModeView::VBlank { elapsed_cycles_line: 0, ly: line }, p, flags, k).1.ly == 0,
    decreases k,
{
    let m = ModeView::VBlank { elapsed_cycles_line: 0, ly: line };
    lemma_ticks_last(m, p, flags, (k - 1) as nat);
    lemma_vblank_cycles(line, p, flags, (k - 1) as nat);
    if k > 4 {
        lemma_vblank_ly_after(line, p, flags, (k - 1) as nat);
    }
}

/// A cycle hands out the `VBlank` event only when it ends line 143 in the horizontal
/// blank (or when that event was pending).
proof fn lemma_vblank_event_source(m: ModeView, p: PpuView, flags: u8)
    ensures
        tick_step(m, p, flags).3 == Some(Event::VBlank) ==> p.lcd_event == Some(Event::VBlank)
            || (m matches ModeView::HBlank { elapsed_cycles, .. } && count_cycle(elapsed_cycles) >= 376 && p.ly == 143),
        tick_step(m, p, flags).1.lcd_event is None,
{
    reveal(sprite_selected);
    reveal(window_checked);
    reveal(pixel_output);
    if bit(p.lcdc, 7) {
        match m {
            ModeView::OAMScan { .. } => {},
            ModeView::Drawing { .. } => {},
            ModeView::HBlank { elapsed_cycles, wy_match_ly, win_ly } => {
                let e = count_cycle(elapsed_cycles);
                if e >= 376 && p.ly == 143 {
                } else if e >= 376 {
                    let (mn, pn, fnx) = next_line(p, flags, wy_match_ly, win_ly);
                    assert(pn.lcd_event == p.lcd_event);
                }
            },
            ModeView::VBlank { .. } => {},
        }
    }
}

/// After at least one cycle no event is pending.
proof fn lemma_ticks_event_cleared(m: ModeView, p: PpuView, flags: u8, n: nat)
    requires
        n > 0,
    ensures
        ticks(m, p, flags, n).1.lcd_event is None,
{
    lemma_ticks_last(m, p, flags, (n - 1) as nat);
    let (m1, p1, f1) = ticks(m, p, flags, (n - 1) as nat);
    lemma_vblank_event_source(m1, p1, f1);
}

/// Within a visible line whose drawing ends in time, no cycle hands out the `VBlank` event
/// but the last one of line 143.
proof fn lemma_no_vblank_event_in_line(wy_match_ly: bool, win_ly: u8, p: PpuView, flags: u8, r: nat)
    requires
        bit(p.lcdc, 7),
        p.ly <= 143,
        p.lcd_event != Some(Event::VBlank),
        ticks(scan_start(wy_match_ly, win_ly), p, flags, 455).0 is HBlank,
        r < 456,
        r == 455 ==> p.ly != 143,
    ensures
        ({
            let (m1, p1, f1) = ticks(scan_start(wy_match_ly, win_ly), p, flags, r);
            tick_step(m1, p1, f1).3 != Some(Event::VBlank)
        }),
{
    let m = scan_start(wy_match_ly, win_ly);
    let (m1, p1, f1) = ticks(m, p, flags, r);
    lemma_vblank_event_source(m1, p1, f1);
    if r > 0 {
        lemma_ticks_event_cleared(m, p, flags, r);
    }
    if r < 80 {
        lemma_oam_scan_length(Seq::new(10, |i: int| None), 0, wy_match_ly, 0, win_ly, p, flags);
        assert(ticks(m, p, flags, r).0 is OAMScan);
    } else {
        lemma_line_counts(wy_match_ly, win_ly, p, flags, (r - 80) as nat);
        assert(80 + (r - 80) as nat == r);
    }
}

/// No cycle of the vertical blank hands out the `VBlank` event.
proof fn lemma_no_vblank_event_in_blank(line: u8, p: PpuView, flags: u8, r: nat)
    requires
        bit(p.lcdc, 7),
        144 <= line <= 153,
        p.lcd_event != Some(Event::VBlank),
        r < 456,
    ensures
        ({
            let (m1, p1, f1) = ticks(ModeView::VBlank { elapsed_cycles_line: 0, ly: line }, p, flags, r);
            tick_step(m1, p1, f1).3 != Some(Event::VBlank)
        }),
{
    let m = ModeView::VBlank { elapsed_cycles_line: 0, ly: line };
    let (m1, p1, f1) = ticks(m, p, flags, r);
    lemma_vblank_event_source(m1, p1, f1);
    if r > 0 {
        lemma_ticks_event_cleared(m, p, flags, r);
    }
    lemma_vblank_line(line, p, flags);
    assert(ticks(m, p, flags, r).0 is VBlank);
}

/// In a frame as `lemma_frame_length` takes it, no cycle but the last of line 143 hands out
/// the `VBlank` event.
proof fn lemma_frame_single_vblank(p: PpuView, flags: u8, k: nat)
    requires
        bit(p.lcdc, 7),
        p.ly == 0,
        p.lcd_event != Some(Event::VBlank),
        forall|j: nat| j < 144 ==> (#[trigger] ticks(first_mode(), p, flags, 456 * j + 455)).0 is HBlank,
        k < 70224,
        k != 456 * 143 + 455,
    ensures
        ({
            let (m1, p1, f1) = ticks(first_mode(), p, flags, k);
            tick_step(m1, p1, f1).3 != Some(Event::VBlank)
        }),
{
    let m0 = first_mode();
    if k < 456 * 144 {
        let j = k / 456;
        let r = k % 456;
        assert(k == 456 * j + r && j < 144 && r < 456) by (nonlinear_arith)
            requires k < 456 * 144, j == k / 456, r == k % 456;
        lemma_visible_lines(p, flags, j);
        let (mj, pj, fj) = ticks(m0, p, flags, 456 * j);
        if j > 0 {
            lemma_ticks_event_cleared(m0, p, flags, 456 * j);
        }
        assert(ticks(m0, p, flags, 456 * j + 455).0 is HBlank);
        lemma_ticks_add(m0, p, flags, 456 * j, 455);
        lemma_ticks_add(m0, p, flags, 456 * j, r);
        lemma_no_vblank_event_in_line(mj->OAMScan_wy_match_ly, mj->OAMScan_win_ly, pj, fj, r);
    } else {
        let k2 = (k - 456 * 144) as nat;
        let jj = k2 / 456;
        let rr = k2 % 456;
        assert(k2 == 456 * jj + rr && jj < 10 && rr < 456) by (nonlinear_arith)
            requires k2 < 4560, jj == k2 / 456, rr == k2 % 456;
        lemma_frame_length(p, flags);
        let mv = ModeView::VBlank { elapsed_cycles_line: 0, ly: 144 };
        let (m_, pv, fv) = ticks(m0, p, flags, 456 * 144);
        lemma_visible_lines(p, flags, 143);
        lemma_frame_lcdc(p, flags);
        lemma_ticks_event_cleared(m0, p, flags, 456 * 144);
        lemma_vblank_lines(pv, fv, jj);
        let (mw, pw, fw) = ticks(mv, pv, fv, 456 * jj);
        if jj > 0 {
            lemma_ticks_event_cleared(mv, pv, fv, 456 * jj);
        }
        lemma_ticks_add(m0, p, flags, 456 * 144, k2);
        lemma_ticks_add(mv, pv, fv, 456 * jj, rr);
        lemma_no_vblank_event_in_blank((144 + jj) as u8, pw, fw, rr);
    }
}

/// Within a frame as `lemma_frame_length` takes it (and no `VBlank` event pending at its
/// start), the `VBlank` event comes on one cycle only, the last of line 143. The next frame
/// starts 70224 cycles after this one with no event pending, so two successive `VBlank`
/// events are 70224 cycles apart when both frames are of that kind.
pub proof fn lemma_frame_vblank_once(p: PpuView, flags: u8)
    requires
        bit(p.lcdc, 7),
        p.ly == 0,
        p.lcd_event != Some(Event::VBlank),
        forall|j: nat| j < 144 ==> (#[trigger] ticks(first_mode(), p, flags, 456 * j + 455)).0 is HBlank,
    ensures
        forall|k: nat| k < 70224 ==> ({
            let (m1, p1, f1) = #[trigger] ticks(first_mode(), p, flags, k);
            (tick_step(m1, p1, f1).3 == Some(Event::VBlank)) == (k == 456 * 143 + 455)
        }),
        ticks(first_mode(), p, flags, 70224).0 == first_mode(),
        ticks(first_mode(), p, flags, 70224).1.ly == 0,
        ticks(first_mode(), p, flags, 70224).1.lcd_event is None,
{
    lemma_frame_length(p, flags);
    lemma_ticks_event_cleared(first_mode(), p, flags, 70224);
    assert forall|k: nat| k < 70224 implies ({
        let (m1, p1, f1) = #[trigger] ticks(first_mode(), p, flags, k);
        (tick_step(m1, p1, f1).3 == Some(Event::VBlank)) == (k == 456 * 143 + 455)
    }) by {
        if k != 456 * 143 + 455 {
            lemma_frame_single_vblank(p, flags, k);
        }
    }
}

/// LCDC is the same when the vertical blank of a frame starts.
proof fn lemma_frame_lcdc(p: PpuView, flags: u8)
    requires
        bit(p.lcdc, 7),
        p.ly == 0,
        forall|j: nat| j < 144 ==> (#[trigger] ticks(first_mode(), p, flags, 456 * j + 455)).0 is HBlank,
    ensures
        ticks(first_mode(), p, flags, 456 * 144).1.lcdc == p.lcdc,
{
    lemma_visible_lines(p, flags, 143);
    let (mj, pj, fj) = ticks(first_mode(), p, flags, 456 * 143);
    assert(ticks(first_mode(), p, flags, 456 * 143 + 455).0 is HBlank);
    lemma_ticks_add(first_mode(), p, flags, 456 * 143, 455);
    lemma_line_length(mj->OAMScan_wy_match_ly, mj->OAMScan_win_ly, pj, fj);
    lemma_ticks_add(first_mode(), p, flags, 456 * 143, 456);
    assert(456 * 143 + 456 == 456 * 144);
}

/// Mixing a background pixel with the sprite queue: the sprite pixel at the front shows,
/// through its own palette, unless the queue is empty, it is transparent (color number 0),
/// or it is behind the background and the background's color number is not 0; otherwise
/// the background pixel shows through its palette.
pub proof fn lemma_pixel_mixing(bg: BackgroundWindowPixel, sprite_fifo: Seq<SpritePixel>)
    ensures
        ({
            let sprite_shows = sprite_fifo.len() > 0 && color::color_number(sprite_fifo[0].color_id) != 0
                && (sprite_fifo[0].over_bg_and_win || color::color_number(bg.color_id) == 0);
            &&& sprite_shows ==> mixed_color(bg, sprite_fifo) == color::palette_color(sprite_fifo[0].palette.0, sprite_fifo[0].color_id)
            &&& !sprite_shows ==> mixed_color(bg, sprite_fifo) == color::palette_color(bg.palette.0, bg.color_id)
        }),
{
}

/// The sources of the STAT interrupt, each enabled by its bit of STAT: bit 3 (0x08) when a
/// line's drawing ends, bit 4 (0x10) and bit 5 (0x20) when the vertical blank starts, bit 5
/// when a line's OAM scan starts, bit 6 (0x40) when LY becomes equal to LYC, which also sets
/// the coincidence flag. The start of the vertical blank also requests the VBlank interrupt;
/// no other step requests one.
pub proof fn lemma_stat_interrupt_sources(p: PpuView, flags: u8, d: DrawingView, wy_match_ly: bool, win_ly: u8)
    ensures
        lyc_checked(p, flags) == (PpuView { lyc_compare: p.ly == p.lyc, ..p },
            if p.ly == p.lyc && p.stat & 0x40 != 0 { request(flags, Kind::Stat) } else { flags }),
        next_line(p, flags, wy_match_ly, win_ly).2 == lyc_checked(PpuView { ly: (p.ly + 1) as u8, ..p },
            if p.stat & 0x20 != 0 { request(flags, Kind::Stat) } else { flags }).1,
        vblank_start(p, flags).2 == lyc_checked(PpuView { skip_frame: false, ly: (p.ly + 1) as u8, ..p }, {
            let f1 = request(flags, Kind::VBlank);
            let f2 = if p.stat & 0x10 != 0 { request(f1, Kind::Stat) } else { f1 };
            if p.stat & 0x20 != 0 { request(f2, Kind::Stat) } else { f2 }
        }).1,
        drawing_step(d, p, flags).0 is HBlank ==> drawing_step(d, p, flags).2
            == if p.stat & 0x08 != 0 { request(flags, Kind::Stat) } else { flags },
        drawing_step(d, p, flags).0 is Drawing ==> drawing_step(d, p, flags).2 == flags,
{
    fetcher::lemma_attribute_bits(p.stat);
}

/// What LCDC selects: bit 1 (0x02) shows the sprites, bit 2 (0x04) makes them 8x16, bit 3
/// (0x08) moves the background tile map from 0x9800 to 0x9C00, bit 4 (0x10) takes tile data
/// from 0x8000 by unsigned numbers instead of around 0x9000 by signed ones, bit 5 (0x20)
/// shows the window and bit 6 (0x40) moves its tile map to 0x9C00. An 8x16 sprite uses the
/// even tile of its pair first.
pub proof fn lemma_lcdc_fields(p: PpuView, buffer: Seq<Option<Sprite>>, wy_match_ly: bool, win_ly: u8, d: DrawingView, n: u8)
    ensures
        drawing_start(p, buffer, wy_match_ly, win_ly)->Drawing_bg_win_fetcher.tile_map.start
            == if p.lcdc & 0x08 != 0 { 0x1C00u16 } else { 0x1800u16 },
        window_checked(d, p).win_fetcher != d.win_fetcher ==> p.lcdc & 0x20 != 0
            && window_checked(d, p).bg_win_fetcher.tile_map.start == if p.lcdc & 0x40 != 0 { 0x1C00u16 } else { 0x1800u16 },
        sprite_selected(d, p.lcdc) != d ==> p.lcdc & 0x02 != 0,
        sprite_height(p.lcdc) == if p.lcdc & 0x04 != 0 { 16u8 } else { 8u8 },
        fetcher::bg_tile_data_method(p.lcdc) == if p.lcdc & 0x10 != 0 { tiling::TileDataMapMethod::Method8000 }
            else { tiling::TileDataMapMethod::Method8800 },
        tiling::tile_address(16, tiling::TileDataMapMethod::Method8000, n) == 16 * n,
        tiling::tile_address(16, tiling::TileDataMapMethod::Method8800, n) == 0x1000 + 16 * (if n < 128 { n as int } else { n - 256 }),
        tiling::tile_address(32, tiling::TileDataMapMethod::Method8000, n) == 16 * (n - n % 2),
{
    reveal(window_checked);
    reveal(sprite_selected);
    fetcher::lemma_attribute_bits(p.lcdc);
    fetcher::lemma_attribute_bits(n);
}

} // verus!
