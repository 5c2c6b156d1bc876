use vstd::prelude::*;

pub mod cartbridge;

use crate::bootrom::BootRom;
use cartbridge::Cartbridge;
use super::interrupt::{spec_bit, spec_highest_priority, Interrupt, Kind, Line};
use super::ppu::screen::Event;
use super::ppu::{lcdc_written, mode_bits, oam_locked, tick_step, vram_locked, ModeView, Ppu, PpuView};
use super::wram::WorkRam;

verus! {

/// An early memory map: the boot ROM, a cartridge without controller, the PPU, the interrupt
/// registers and 4 KiB of work RAM; every other address reads and writes a plain RAM.
#[derive(Debug)]
pub struct Hardware {
    boot_rom: BootRom,
    boot_rom_enabled: bool,
    cartbridge: Cartbridge,
    ppu: Ppu,
    interrupt: Interrupt,
    work_ram: WorkRam<0x1000>,
    tmp_ram: Vec<u8>,
}

/// The memory map as values.
pub struct HardwareView {
    pub boot_rom: Seq<u8>,
    pub boot_rom_enabled: bool,
    pub rom: Seq<u8>,
    pub ppu: PpuView,
    pub ppu_mode: ModeView,
    pub interrupt_enable: u8,
    pub interrupt_flags: u8,
    pub work_ram: Seq<u8>,
    pub tmp_ram: Seq<u8>,
}

/// The byte the CPU reads at `address`.
pub open spec fn hardware_read(h: HardwareView, address: u16) -> u8 {
    if address <= 0xFF && h.boot_rom_enabled {
        h.boot_rom[address as int]
    } else if address <= 0x7FFF {
        h.rom[address as int]
    } else if address <= 0x9FFF {
        if vram_locked(h.ppu_mode, h.ppu.lcdc) { 0xFF } else { h.ppu.vram[address - 0x8000] }
    } else if address <= 0xBFFF {
        0xFF
    } else if 0xC000 <= address <= 0xCFFF {
        h.work_ram[address - 0xC000]
    } else if 0xE000 <= address <= 0xEFFF {
        h.work_ram[address - 0xE000]
    } else if 0xFE00 <= address <= 0xFE9F {
        if oam_locked(h.ppu_mode, h.ppu.lcdc) { 0xFF } else { h.ppu.oam[address - 0xFE00] }
    } else if address == 0xFF0F {
        h.interrupt_flags | 0xE0
    } else if address == 0xFF40 {
        h.ppu.lcdc
    } else if address == 0xFF41 {
        mode_bits(h.ppu_mode) | (if h.ppu.lyc_compare { 4u8 } else { 0u8 }) | h.ppu.stat | 0x80
    } else if address == 0xFF42 {
        h.ppu.scy
    } else if address == 0xFF43 {
        h.ppu.scx
    } else if address == 0xFF44 {
        h.ppu.ly
    } else if address == 0xFF45 {
        h.ppu.lyc
    } else if address == 0xFF46 {
        0xFF
    } else if address == 0xFF47 {
        h.ppu.bgp
    } else if address == 0xFF48 {
        h.ppu.obp0
    } else if address == 0xFF49 {
        h.ppu.obp1
    } else if address == 0xFF4A {
        h.ppu.wy
    } else if address == 0xFF4B {
        h.ppu.wx
    } else if address == 0xFF50 {
        if h.boot_rom_enabled { 0xFF } else { 0xFE }
    } else if address == 0xFFFF {
        h.interrupt_enable | 0xE0
    } else {
        h.tmp_ram[address as int]
    }
}

/// The PPU registers replaced.
pub open spec fn with_ppu_regs(h: HardwareView, p: PpuView) -> HardwareView {
    HardwareView { ppu: p, ..h }
}

/// The OAM once the CPU wrote `value` at `index` (dropped while the PPU holds it).
pub open spec fn hardware_oam_written(h: HardwareView, index: int, value: u8) -> HardwareView {
    if oam_locked(h.ppu_mode, h.ppu.lcdc) { h } else { with_ppu_regs(h, PpuView { oam: h.ppu.oam.update(index, value), ..h.ppu }) }
}

/// The memory map after the first `n` bytes of a DMA transfer from `source` to the OAM.
pub open spec fn hardware_dma(h: HardwareView, source: u16, n: int) -> HardwareView
    decreases n,
{
    if n <= 0 {
        h
    } else {
        let h1 = hardware_dma(h, source, n - 1);
        hardware_oam_written(h1, n - 1, hardware_read(h1, ((source + n - 1) % 65536) as u16))
    }
}

/// The memory map after the CPU wrote `value` at `address`. Writes to the ROM and to LY are
/// dropped; 0xFF46 copies 160 bytes to the OAM; 0xFF50 maps or unmaps the boot ROM.
pub open spec fn hardware_after_write(h: HardwareView, address: u16, value: u8) -> HardwareView {
    if address <= 0x7FFF {
        h
    } else if address <= 0x9FFF {
        if vram_locked(h.ppu_mode, h.ppu.lcdc) { h } else {
            with_ppu_regs(h, PpuView { vram: h.ppu.vram.update(address - 0x8000, value), ..h.ppu })
        }
    } else if address <= 0xBFFF {
        h
    } else if 0xC000 <= address <= 0xCFFF {
        HardwareView { work_ram: h.work_ram.update(address - 0xC000, value), ..h }
    } else if 0xE000 <= address <= 0xEFFF {
        HardwareView { work_ram: h.work_ram.update(address - 0xE000, value), ..h }
    } else if 0xFE00 <= address <= 0xFE9F {
        hardware_oam_written(h, address - 0xFE00, value)
    } else if address == 0xFF0F {
        HardwareView { interrupt_flags: value & 0x1F, ..h }
    } else if address == 0xFF40 {
        let (m, p) = lcdc_written(h.ppu_mode, h.ppu, value);
        HardwareView { ppu_mode: m, ppu: p, ..h }
    } else if address == 0xFF41 {
        with_ppu_regs(h, PpuView { stat: value & 0b0111_1000, ..h.ppu })
    } else if address == 0xFF42 {
        with_ppu_regs(h, PpuView { scy: value, ..h.ppu })
    } else if address == 0xFF43 {
        with_ppu_regs(h, PpuView { scx: value, ..h.ppu })
    } else if address == 0xFF44 {
        h
    } else if address == 0xFF45 {
        with_ppu_regs(h, PpuView { lyc: value, ..h.ppu })
    } else if address == 0xFF46 {
        hardware_dma(h, (value * 0x100) as u16, 0xA0)
    } else if address == 0xFF47 {
        with_ppu_regs(h, PpuView { bgp: value, ..h.ppu })
    } else if address == 0xFF48 {
        with_ppu_regs(h, PpuView { obp0: value, ..h.ppu })
    } else if address == 0xFF49 {
        with_ppu_regs(h, PpuView { obp1: value, ..h.ppu })
    } else if address == 0xFF4A {
        with_ppu_regs(h, PpuView { wy: value, ..h.ppu })
    } else if address == 0xFF4B {
        with_ppu_regs(h, PpuView { wx: value, ..h.ppu })
    } else if address == 0xFF50 {
        HardwareView { boot_rom_enabled: value & 1 == 0, ..h }
    } else if address == 0xFFFF {
        HardwareView { interrupt_enable: value & 0x1F, ..h }
    } else {
        HardwareView { tmp_ram: h.tmp_ram.update(address as int, value), ..h }
    }
}

impl Hardware {
    pub closed spec fn view(&self) -> HardwareView {
        HardwareView {
            boot_rom: self.boot_rom@,
            boot_rom_enabled: self.boot_rom_enabled,
            rom: self.cartbridge.rom(),
            ppu: self.ppu.view(),
            ppu_mode: self.ppu.spec_mode().view(),
            interrupt_enable: self.interrupt.spec_enable(),
            interrupt_flags: self.interrupt.spec_flags(),
            work_ram: self.work_ram@,
            tmp_ram: self.tmp_ram@,
        }
    }

    /// The PPU is consistent and the plain RAM covers the whole address space.
    pub closed spec fn wf(&self) -> bool {
        self.ppu.wf() && self.tmp_ram@.len() == 0x10000
    }

    /// The memory map at power on: the boot ROM mapped, the RAMs cleared, the LCD off.
    pub fn new(boot_rom: BootRom, cartbridge: Cartbridge) -> (r: Self)
        ensures
            r.wf(),
            r.view().boot_rom_enabled,
            r.view().boot_rom == boot_rom@,
            r.view().rom == cartbridge.rom(),
            r.view().work_ram == Seq::new(0x1000, |i: int| 0u8),
            r.view().tmp_ram == Seq::new(0x10000, |i: int| 0u8),
            r.view().ppu.lcdc == 0,
            r.view().interrupt_enable == 0,
            r.view().interrupt_flags == 0,
    {
        let mut tmp_ram: Vec<u8> = Vec::new();
        let mut i: usize = 0;
        while i < 0x10000
            invariant
                i <= 0x10000,
                tmp_ram@ == Seq::new(i as nat, |k: int| 0u8),
            decreases 0x10000 - i,
        {
            tmp_ram.push(0);
            i = i + 1;
        }
        Self {
            boot_rom,
            boot_rom_enabled: true,
            cartbridge,
            ppu: Ppu::new(),
            interrupt: Interrupt::new(),
            work_ram: WorkRam::new(),
            tmp_ram,
        }
    }

    /// Runs one cycle of the PPU.
    pub fn tick(&mut self) -> (r: Option<Event>)
        requires
            old(self).wf(),
        ensures
            final(self).wf(),
            (final(self).view().ppu_mode, final(self).view().ppu, final(self).view().interrupt_flags, r)
                == tick_step(old(self).view().ppu_mode, old(self).view().ppu, old(self).view().interrupt_flags),
            final(self).view() == (HardwareView {
                ppu_mode: final(self).view().ppu_mode,
                ppu: final(self).view().ppu,
                interrupt_flags: final(self).view().interrupt_flags,
                ..old(self).view()
            }),
    {
        self.ppu.tick(&mut self.interrupt)
    }

    /// The byte the CPU reads at `address`.
    pub fn read_byte(&self, address: u16) -> (r: u8)
        requires
            self.wf(),
        ensures
            r == hardware_read(self.view(), address),
    {
        if address <= 0xFF && self.boot_rom_enabled {
            self.boot_rom.read(address as u8)
        } else if address <= 0x3FFF {
            self.cartbridge.read_rom_bank0(address)
        } else if address <= 0x7FFF {
            self.cartbridge.read_rom_bankN(address - 0x4000)
        } else if address <= 0x9FFF {
            self.ppu.read_vram_byte(address - 0x8000)
        } else if address <= 0xBFFF {
            self.cartbridge.read_ram(address - 0xA000)
        } else if 0xC000 <= address && address <= 0xCFFF {
            self.work_ram.read(address - 0xC000)
        } else if 0xE000 <= address && address <= 0xEFFF {
            self.work_ram.read(address - 0xE000)
        } else if 0xFE00 <= address && address <= 0xFE9F {
            self.ppu.read_oam_byte(address - 0xFE00)
        } else if address == 0xFF0F {
            self.interrupt.flags()
        } else if address == 0xFF40 {
            self.ppu.read_lcdc()
        } else if address == 0xFF41 {
            self.ppu.read_stat()
        } else if address == 0xFF42 {
            self.ppu.read_scy()
        } else if address == 0xFF43 {
            self.ppu.read_scx()
        } else if address == 0xFF44 {
            self.ppu.read_ly()
        } else if address == 0xFF45 {
            self.ppu.read_lyc()
        } else if address == 0xFF46 {
            0xFF
        } else if address == 0xFF47 {
            self.ppu.read_bgp()
        } else if address == 0xFF48 {
            self.ppu.read_obp0()
        } else if address == 0xFF49 {
            self.ppu.read_obp1()
        } else if address == 0xFF4A {
            self.ppu.read_wy()
        } else if address == 0xFF4B {
            self.ppu.read_wx()
        } else if address == 0xFF50 {
            if self.boot_rom_enabled { 0xFF } else { 0xFE }
        } else if address == 0xFFFF {
            self.interrupt.enable()
        } else {
            self.tmp_ram[address as usize]
        }
    }

    fn dma(&mut self, value: u8)
        requires
            old(self).wf(),
        ensures
            final(self).wf(),
            final(self).view() == hardware_dma(old(self).view(), (value * 0x100) as u16, 0xA0),
    {
        let src: u16 = (value as u16) * 0x100;
        let ghost h0 = self.view();
        let mut i: u16 = 0;
        while i <= 0x9f
            invariant
                i <= 0xA0,
                src == value * 0x100,
                self.wf(),
                self.view() == hardware_dma(h0, src, i as int),
            decreases 0xA0 - i,
        {
            let byte: u8 = self.read_byte(src + i);
            self.ppu.write_oam_byte(i, byte);
            i = i + 1;
            assert(self.view() =~= hardware_dma(h0, src, i as int));
        }
    }

    /// A write of the CPU at `address`.
    pub fn write_byte(&mut self, address: u16, value: u8)
        requires
            old(self).wf(),
        ensures
            final(self).wf(),
            final(self).view() == hardware_after_write(old(self).view(), address, value),
    {
        if address <= 0x7FFF {
        } else if address <= 0x9FFF {
            self.ppu.write_vram_byte(address - 0x8000, value);
        } else if address <= 0xBFFF {
            self.cartbridge.write_ram(address - 0xA000, value);
        } else if 0xC000 <= address && address <= 0xCFFF {
            self.work_ram.write(address - 0xC000, value);
        } else if 0xE000 <= address && address <= 0xEFFF {
            self.work_ram.write(address - 0xE000, value);
        } else if 0xFE00 <= address && address <= 0xFE9F {
            self.ppu.write_oam_byte(address - 0xFE00, value);
        } else if address == 0xFF0F {
            self.interrupt.set_flags(value);
        } else if address == 0xFF40 {
            self.ppu.write_lcdc(value);
        } else if address == 0xFF41 {
            self.ppu.write_stat(value);
        } else if address == 0xFF42 {
            self.ppu.write_scy(value);
        } else if address == 0xFF43 {
            self.ppu.write_scx(value);
        } else if address == 0xFF44 {
        } else if address == 0xFF45 {
            self.ppu.write_lyc(value);
        } else if address == 0xFF46 {
            self.dma(value);
        } else if address == 0xFF47 {
            self.ppu.write_bgp(value);
        } else if address == 0xFF48 {
            self.ppu.write_obp0(value);
        } else if address == 0xFF49 {
            self.ppu.write_obp1(value);
        } else if address == 0xFF4A {
            self.ppu.write_wy(value);
        } else if address == 0xFF4B {
            self.ppu.write_wx(value);
        } else if address == 0xFF50 {
            self.boot_rom_enabled = value & 0x1 == 0x0;
        } else if address == 0xFFFF {
            self.interrupt.set_enable(value);
        } else {
            self.tmp_ram.set(address as usize, value);
        }
    }
}

impl Line for Hardware {
    fn highest_priority(&self) -> (r: Option<Kind>)
        ensures
            r == spec_highest_priority(self.view().interrupt_enable & self.view().interrupt_flags),
    {
        self.interrupt.highest_priority()
    }

    fn ack(&mut self, kind: Kind)
        ensures
            final(self).view() == (HardwareView {
                interrupt_flags: old(self).view().interrupt_flags & !spec_bit(kind), ..old(self).view() }),
    {
        self.interrupt.ack(kind)
    }

    fn request(&mut self, kind: Kind)
        ensures
            final(self).view() == (HardwareView {
                interrupt_flags: old(self).view().interrupt_flags | spec_bit(kind), ..old(self).view() }),
    {
        self.interrupt.request(kind)
    }

    fn flags_not_empty(&self) -> (r: bool)
        ensures
            r == (self.view().interrupt_flags & 0x1F != 0),
    {
        self.interrupt.flags_not_empty()
    }
}

/// What the CPU writes to the work RAM, its echo, or the plain RAM behind 0xD000 and the high
/// addresses, it reads back at the same address.
pub proof fn lemma_hardware_read_after_write(h: HardwareView, address: u16, value: u8)
    requires
        h.work_ram.len() == 0x1000,
        h.tmp_ram.len() == 0x10000,
        0xC000 <= address <= 0xEFFF || 0xFF80 <= address <= 0xFFFE,
    ensures
        hardware_read(hardware_after_write(h, address, value), address) == value,
{
}

} // verus!
