use vstd::prelude::*;

use crate::bootrom::BootRom;
use super::cartridge::{spec_read_ram, spec_read_rom_bank_0, spec_read_rom_bank_n, spec_write_ram, spec_write_rom, Cartridge, ControllerView};
use super::interrupt::Interrupt;
use super::joypad::{spec_p1, ButtonState, Joypad};
use super::ppu::{lcdc_written, mode_bits, oam_locked, vram_locked, ModeView, Ppu, PpuView};
use super::wram::WorkRam;

verus! {

/// The devices the CPU reaches through the memory map.
#[derive(Debug)]
pub struct MmuContext {
    pub joypad: Joypad,
    pub ppu: Ppu,
    pub interrupt: Interrupt,
    pub boot_rom: BootRom,
    pub cartridge: Cartridge,
    pub work_ram: WorkRam<0x2000>,
    pub high_ram: WorkRam<0x7F>,
}

/// The devices as values.
pub struct ContextView {
    pub joypad_data: u8,
    pub joypad_buttons: Seq<ButtonState>,
    pub joypad_last_data: u8,
    pub ppu: PpuView,
    pub ppu_mode: ModeView,
    pub interrupt_enable: u8,
    pub interrupt_flags: u8,
    pub boot_rom: Seq<u8>,
    pub controller: ControllerView,
    pub rom: Seq<u8>,
    pub ram: Option<Seq<u8>>,
    pub work_ram: Seq<u8>,
    pub high_ram: Seq<u8>,
}

impl MmuContext {
    pub open spec fn view(&self) -> ContextView {
        ContextView {
            joypad_data: self.joypad.spec_data(),
            joypad_buttons: self.joypad.buttons(),
            joypad_last_data: self.joypad.spec_last_data(),
            ppu: self.ppu.view(),
            ppu_mode: self.ppu.spec_mode().view(),
            interrupt_enable: self.interrupt.spec_enable(),
            interrupt_flags: self.interrupt.spec_flags(),
            boot_rom: self.boot_rom@,
            controller: self.cartridge.controller(),
            rom: self.cartridge.rom(),
            ram: self.cartridge.ram(),
            work_ram: self.work_ram@,
            high_ram: self.high_ram@,
        }
    }

    /// The devices are consistent.
    pub open spec fn wf(&self) -> bool {
        self.ppu.wf() && self.cartridge.wf()
    }
}

/// STAT as the CPU reads it.
pub open spec fn stat_value(c: ContextView) -> u8 {
    mode_bits(c.ppu_mode) | (if c.ppu.lyc_compare { 4u8 } else { 0u8 }) | c.ppu.stat | 0x80
}

/// The byte the CPU reads at `address`. The boot ROM covers the first 256 bytes until it is
/// disabled; the cartridge, the VRAM, the cartridge RAM, the work RAM (mirrored from 0xE000
/// to 0xEFFF), the OAM, the registers of the joypad, the interrupts and the PPU, and the high
/// RAM follow; everything else reads 0xFF.
pub open spec fn spec_read(boot_rom_enabled: bool, c: ContextView, address: u16) -> u8 {
    if address <= 0xFF && boot_rom_enabled {
        c.boot_rom[address as int]
    } else if address <= 0x3FFF {
        spec_read_rom_bank_0(c.controller, c.rom, address)
    } else if address <= 0x7FFF {
        spec_read_rom_bank_n(c.controller, c.rom, (address - 0x4000) as u16)
    } else if address <= 0x9FFF {
        if vram_locked(c.ppu_mode, c.ppu.lcdc) { 0xFF } else { c.ppu.vram[address - 0x8000] }
    } else if address <= 0xBFFF {
        spec_read_ram(c.controller, c.ram, (address - 0xA000) as u16)
    } else if address <= 0xDFFF {
        c.work_ram[address - 0xC000]
    } else if address <= 0xEFFF {
        c.work_ram[address - 0xE000]
    } else if 0xFE00 <= address <= 0xFE9F {
        if oam_locked(c.ppu_mode, c.ppu.lcdc) { 0xFF } else { c.ppu.oam[address - 0xFE00] }
    } else if address == 0xFF00 {
        c.joypad_data
    } else if address == 0xFF0F {
        c.interrupt_flags | 0xE0
    } else if address == 0xFF40 {
        c.ppu.lcdc
    } else if address == 0xFF41 {
        stat_value(c)
    } else if address == 0xFF42 {
        c.ppu.scy
    } else if address == 0xFF43 {
        c.ppu.scx
    } else if address == 0xFF44 {
        c.ppu.ly
    } else if address == 0xFF45 {
        c.ppu.lyc
    } else if address == 0xFF47 {
        c.ppu.bgp
    } else if address == 0xFF48 {
        c.ppu.obp0
    } else if address == 0xFF49 {
        c.ppu.obp1
    } else if address == 0xFF4A {
        c.ppu.wy
    } else if address == 0xFF4B {
        c.ppu.wx
    } else if address == 0xFF50 {
        if boot_rom_enabled { 0xFF } else { 0xFE }
    } else if 0xFF80 <= address <= 0xFFFE {
        c.high_ram[address - 0xFF80]
    } else if address == 0xFFFF {
        c.interrupt_enable | 0xE0
    } else {
        0xFF
    }
}

/// The devices once the CPU wrote `value` at `oam_index` of the OAM (dropped while the PPU
/// holds it).
pub open spec fn oam_written(c: ContextView, oam_index: int, value: u8) -> ContextView {
    if oam_locked(c.ppu_mode, c.ppu.lcdc) { c } else { ContextView { ppu: PpuView { oam: c.ppu.oam.update(oam_index, value), ..c.ppu }, ..c } }
}

/// The devices after the first `n` bytes of a DMA transfer from `source` to the OAM, each byte
/// read as the CPU reads it.
pub open spec fn dma_copied(boot_rom_enabled: bool, c: ContextView, source: u16, n: int) -> ContextView
    decreases n,
{
    if n <= 0 {
        c
    } else {
        let c1 = dma_copied(boot_rom_enabled, c, source, n - 1);
        oam_written(c1, n - 1, spec_read(boot_rom_enabled, c1, (source + n - 1) as u16))
    }
}

/// A PPU register of `c` replaced.
pub open spec fn with_ppu(c: ContextView, p: PpuView) -> ContextView {
    ContextView { ppu: p, ..c }
}

/// The devices after the CPU wrote `value` at `address`, the boot ROM being enabled or not. Writes to the boot ROM, to 0xF000-0xFDFF and to unmapped registers are
/// dropped; 0xFF46 copies 160 bytes from `value` * 0x100 to the OAM; 0xFF50 is handled by
/// the memory map itself.
pub open spec fn context_after_write(boot_rom_enabled: bool, c: ContextView, address: u16, value: u8) -> ContextView {
    if address <= 0xFF && boot_rom_enabled {
        c
    } else if address <= 0x7FFF {
        ContextView { controller: spec_write_rom(c.controller, c.rom.len(), address, value), ..c }
    } else if address <= 0x9FFF {
        if vram_locked(c.ppu_mode, c.ppu.lcdc) { c } else {
            with_ppu(c, PpuView { vram: c.ppu.vram.update(address - 0x8000, value), ..c.ppu })
        }
    } else if address <= 0xBFFF {
        ContextView { ram: spec_write_ram(c.controller, c.ram, (address - 0xA000) as u16, value), ..c }
    } else if address <= 0xDFFF {
        ContextView { work_ram: c.work_ram.update(address - 0xC000, value), ..c }
    } else if address <= 0xEFFF {
        ContextView { work_ram: c.work_ram.update(address - 0xE000, value), ..c }
    } else if 0xFE00 <= address <= 0xFE9F {
        oam_written(c, address - 0xFE00, value)
    } else if address == 0xFF00 {
        ContextView { joypad_data: spec_p1((c.joypad_data & 0b1100_1111) | (value & 0b0011_0000), c.joypad_buttons), ..c }
    } else if address == 0xFF0F {
        ContextView { interrupt_flags: value & 0x1F, ..c }
    } else if address == 0xFF40 {
        let (m, p) = lcdc_written(c.ppu_mode, c.ppu, value);
        ContextView { ppu_mode: m, ppu: p, ..c }
    } else if address == 0xFF41 {
        with_ppu(c, PpuView { stat: value & 0b0111_1000, ..c.ppu })
    } else if address == 0xFF42 {
        with_ppu(c, PpuView { scy: value, ..c.ppu })
    } else if address == 0xFF43 {
        with_ppu(c, PpuView { scx: value, ..c.ppu })
    } else if address == 0xFF44 {
        with_ppu(c, PpuView { ly: 0, ..c.ppu })
    } else if address == 0xFF45 {
        with_ppu(c, PpuView { lyc: value, ..c.ppu })
    } else if address == 0xFF46 {
        dma_copied(boot_rom_enabled, c, (value * 0x100) as u16, 0xA0)
    } else if address == 0xFF47 {
        with_ppu(c, PpuView { bgp: value, ..c.ppu })
    } else if address == 0xFF48 {
        with_ppu(c, PpuView { obp0: value, ..c.ppu })
    } else if address == 0xFF49 {
        with_ppu(c, PpuView { obp1: value, ..c.ppu })
    } else if address == 0xFF4A {
        with_ppu(c, PpuView { wy: value, ..c.ppu })
    } else if address == 0xFF4B {
        with_ppu(c, PpuView { wx: value, ..c.ppu })
    } else if 0xFF80 <= address <= 0xFFFE {
        ContextView { high_ram: c.high_ram.update(address - 0xFF80, value), ..c }
    } else if address == 0xFFFF {
        ContextView { interrupt_enable: value & 0x1F, ..c }
    } else {
        c
    }
}

/// Whether the boot ROM stays mapped after the CPU wrote `value` at `address`: writing a
/// value with bit 0 set at 0xFF50 unmaps it, writing one with bit 0 clear maps it again.
pub open spec fn boot_rom_after(boot_rom_enabled: bool, address: u16, value: u8) -> bool {
    if address == 0xFF50 && !(address <= 0xFF && boot_rom_enabled) { value & 1 == 0 } else { boot_rom_enabled }
}

/// The memory map of the CPU.
#[derive(Debug, Clone, Copy, PartialEq, Eq, Hash)]
pub struct MMU {
    boot_rom_enabled: bool,
}

impl MMU {
    pub closed spec fn spec_boot_rom_enabled(&self) -> bool {
        self.boot_rom_enabled
    }

    /// A memory map with the boot ROM mapped.
    pub fn new() -> (r: Self)
        ensures
            r.spec_boot_rom_enabled(),
    {
        Self { boot_rom_enabled: true }
    }

    fn dma(&self, ctx: &mut MmuContext, value: u8)
        requires
            old(ctx).wf(),
        ensures
            final(ctx).wf(),
            final(ctx).view() == dma_copied(self.spec_boot_rom_enabled(), old(ctx).view(), (value * 0x100) as u16, 0xA0),
    {
        let src: u16 = (value as u16) * 0x100;
        let ghost c0 = ctx.view();
        let mut i: u16 = 0;
        while i <= 0x9f
            invariant
                i <= 0xA0,
                src == value * 0x100,
                ctx.wf(),
                ctx.view() == dma_copied(self.spec_boot_rom_enabled(), c0, src, i as int),
            decreases 0xA0 - i,
        {
            let byte: u8 = self.read_byte(ctx, src + i);
            ctx.ppu.write_oam_byte(i, byte);
            i = i + 1;
            assert(ctx.view() =~= dma_copied(self.spec_boot_rom_enabled(), c0, src, i as int));
        }
    }
}

/// A memory map the CPU reads and writes through.
pub trait Mmu {
    fn read_byte(&self, ctx: &MmuContext, address: u16) -> u8
        requires
            ctx.wf(),
    ;

    fn read_word(&self, ctx: &MmuContext, address: u16) -> u16
        requires
            ctx.wf(),
    ;

    fn write_byte(&mut self, ctx: &mut MmuContext, address: u16, value: u8)
        requires
            old(ctx).wf(),
        ensures
            final(ctx).wf(),
    ;
}

impl Mmu for MMU {
    /// The byte the CPU reads at `address`.
    fn read_byte(&self, ctx: &MmuContext, address: u16) -> (r: u8)
        ensures
            r == spec_read(self.spec_boot_rom_enabled(), ctx.view(), address),
    {
        if address <= 0xFF && self.boot_rom_enabled {
            ctx.boot_rom.read(address as u8)
        } else if address <= 0x3FFF {
            ctx.cartridge.read_rom_bank_0(address)
        } else if address <= 0x7FFF {
            ctx.cartridge.read_rom_bank_n(address - 0x4000)
        } else if address <= 0x9FFF {
            ctx.ppu.read_vram_byte(address - 0x8000)
        } else if address <= 0xBFFF {
            proof { ctx.cartridge.lemma_ram_window((address - 0xA000) as u16); }
            ctx.cartridge.read_ram(address - 0xA000)
        } else if address <= 0xDFFF {
            ctx.work_ram.read(address - 0xC000)
        } else if address <= 0xEFFF {
            ctx.work_ram.read(address - 0xE000)
        } else if 0xFE00 <= address && address <= 0xFE9F {
            ctx.ppu.read_oam_byte(address - 0xFE00)
        } else if address == 0xFF00 {
            ctx.joypad.read_p1()
        } else if address == 0xFF0F {
            ctx.interrupt.flags()
        } else if address == 0xFF40 {
            ctx.ppu.read_lcdc()
        } else if address == 0xFF41 {
            ctx.ppu.read_stat()
        } else if address == 0xFF42 {
            ctx.ppu.read_scy()
        } else if address == 0xFF43 {
            ctx.ppu.read_scx()
        } else if address == 0xFF44 {
            ctx.ppu.read_ly()
        } else if address == 0xFF45 {
            ctx.ppu.read_lyc()
        } else if address == 0xFF47 {
            ctx.ppu.read_bgp()
        } else if address == 0xFF48 {
            ctx.ppu.read_obp0()
        } else if address == 0xFF49 {
            ctx.ppu.read_obp1()
        } else if address == 0xFF4A {
            ctx.ppu.read_wy()
        } else if address == 0xFF4B {
            ctx.ppu.read_wx()
        } else if address == 0xFF50 {
            if self.boot_rom_enabled { 0xFF } else { 0xFE }
        } else if 0xFF80 <= address && address <= 0xFFFE {
            ctx.high_ram.read(address - 0xFF80)
        } else if address == 0xFFFF {
            ctx.interrupt.enable()
        } else {
            0xFF
        }
    }

    /// A write of the CPU at `address`.
    fn write_byte(&mut self, ctx: &mut MmuContext, address: u16, value: u8)
        ensures
            final(ctx).view() == context_after_write(old(self).spec_boot_rom_enabled(), old(ctx).view(), address, value),
            final(self).spec_boot_rom_enabled() == boot_rom_after(old(self).spec_boot_rom_enabled(), address, value),
    {
        if address <= 0xFF && self.boot_rom_enabled {
        } else if address <= 0x7FFF {
            ctx.cartridge.write_rom(address, value);
        } else if address <= 0x9FFF {
            ctx.ppu.write_vram_byte(address - 0x8000, value);
        } else if address <= 0xBFFF {
            proof { ctx.cartridge.lemma_ram_window((address - 0xA000) as u16); }
            ctx.cartridge.write_ram(address - 0xA000, value);
        } else if address <= 0xDFFF {
            ctx.work_ram.write(address - 0xC000, value);
        } else if address <= 0xEFFF {
            ctx.work_ram.write(address - 0xE000, value);
        } else if 0xFE00 <= address && address <= 0xFE9F {
            ctx.ppu.write_oam_byte(address - 0xFE00, value);
        } else if address == 0xFF00 {
            ctx.joypad.write_p1(value);
        } else if address == 0xFF0F {
            ctx.interrupt.set_flags(value);
        } else if address == 0xFF40 {
            ctx.ppu.write_lcdc(value);
        } else if address == 0xFF41 {
            ctx.ppu.write_stat(value);
        } else if address == 0xFF42 {
            ctx.ppu.write_scy(value);
        } else if address == 0xFF43 {
            ctx.ppu.write_scx(value);
        } else if address == 0xFF44 {
            ctx.ppu.write_ly(value);
        } else if address == 0xFF45 {
            ctx.ppu.write_lyc(value);
        } else if address == 0xFF46 {
            self.dma(ctx, value);
        } else if address == 0xFF47 {
            ctx.ppu.write_bgp(value);
        } else if address == 0xFF48 {
            ctx.ppu.write_obp0(value);
        } else if address == 0xFF49 {
            ctx.ppu.write_obp1(value);
        } else if address == 0xFF4A {
            ctx.ppu.write_wy(value);
        } else if address == 0xFF4B {
            ctx.ppu.write_wx(value);
        } else if address == 0xFF50 {
            self.boot_rom_enabled = value & 0x1 == 0x0;
        } else if 0xFF80 <= address && address <= 0xFFFE {
            ctx.high_ram.write(address - 0xFF80, value);
        } else if address == 0xFFFF {
            ctx.interrupt.set_enable(value);
        }
    }

    /// The word the CPU reads at `address`, little endian.
    fn read_word(&self, ctx: &MmuContext, address: u16) -> (r: u16)
        ensures
            r == spec_read(self.spec_boot_rom_enabled(), ctx.view(), address)
                + 256 * spec_read(self.spec_boot_rom_enabled(), ctx.view(), if address == 0xFFFF { 0 } else { (address + 1) as u16 }),
    {
        let low: u8 = self.read_byte(ctx, address);
        let high: u8 = self.read_byte(ctx, address.wrapping_add(1));
        (high as u16) * 256 + (low as u16)
    }
}

/// What the CPU writes to the work RAM, to its echo or to the high RAM, it reads back at the
/// same address; a write to the work RAM is also seen at its echo and the other way round.
pub proof fn lemma_ram_read_after_write(boot_rom_enabled: bool, c: ContextView, address: u16, value: u8)
    requires
        c.work_ram.len() == 0x2000,
        c.high_ram.len() == 0x7F,
        0xC000 <= address <= 0xEFFF || 0xFF80 <= address <= 0xFFFE,
    ensures
        spec_read(boot_rom_enabled, context_after_write(boot_rom_enabled, c, address, value), address) == value,
        0xC000 <= address <= 0xCFFF ==> spec_read(boot_rom_enabled,
            context_after_write(boot_rom_enabled, c, address, value), (address + 0x2000) as u16) == value,
        0xE000 <= address <= 0xEFFF ==> spec_read(boot_rom_enabled,
            context_after_write(boot_rom_enabled, c, address, value), (address - 0x2000) as u16) == value,
{
}

/// A write to the work RAM leaves every other byte of the work RAM and the high RAM as it was.
pub proof fn lemma_ram_write_elsewhere(boot_rom_enabled: bool, c: ContextView, address: u16, other: u16, value: u8)
    requires
        c.work_ram.len() == 0x2000,
        c.high_ram.len() == 0x7F,
        0xC000 <= address <= 0xDFFF,
        0xC000 <= other <= 0xDFFF || 0xFF80 <= other <= 0xFFFE,
        other != address,
    ensures
        spec_read(boot_rom_enabled, context_after_write(boot_rom_enabled, c, address, value), other)
            == spec_read(boot_rom_enabled, c, other),
{
}

} // verus!
