use vstd::prelude::*;

pub mod bus;
pub mod cartbridge;
pub mod cartridge;
pub mod clock;
pub mod hardware;
pub mod cpu;
pub mod interrupt;
pub mod joypad;
pub mod mmu;
pub mod ppu;
pub mod wram;

use crate::bootrom::BootRom;
use crate::cartridge::Cartridge as CartridgeData;
use bus::{Bus, MemoryOperation};
use cartridge::{initial_controller, supported, Cartridge};
use clock::{next_count, Clock};
use cpu::{cpu_step, cpu_step_flags, Cpu, CpuError, CpuView};
use interrupt::{spec_bit, Interrupt, Kind};
use joypad::Joypad;
use mmu::{boot_rom_after, context_after_write, spec_read, ContextView, MmuContext, MMU};
use ppu::screen::{Event, Screen};
use ppu::{tick_step, Ppu};
use wram::WorkRam;

verus! {

/// Gathers what a Game Boy needs before it can start.
#[derive(Debug)]
pub struct GameboyBuilder {
    boot_rom: BootRom,
    cartridge: CartridgeData,
}

/// The whole machine as values.
pub struct GameboyView {
    pub boot_rom_enabled: bool,
    pub ctx: ContextView,
    pub cpu: CpuView,
    pub bus_data: u8,
    pub clock: usize,
}

/// A Game Boy.
#[derive(Debug)]
pub struct Gameboy {
    mmu: MMU,
    ctx: MmuContext,
    cpu: Cpu,
    bus: Bus,
    clock: Clock,
}

/// The devices after the memory operation `op` of the CPU, with the boot ROM mapped or not:
/// the devices, the byte on the data bus, whether the boot ROM stays mapped.
pub open spec fn memory_step(boot_rom_enabled: bool, c: ContextView, data: u8, op: MemoryOperation) -> (ContextView, u8, bool) {
    match op {
        MemoryOperation::NoOp => (c, data, boot_rom_enabled),
        MemoryOperation::Read { address } => (c, spec_read(boot_rom_enabled, c, address), boot_rom_enabled),
        MemoryOperation::Write { address, value } =>
            (context_after_write(boot_rom_enabled, c, address, value), data, boot_rom_after(boot_rom_enabled, address, value)),
    }
}

/// The devices after one T-cycle of the PPU and the joypad.
pub open spec fn devices_step(c: ContextView) -> (ContextView, Option<Event>) {
    let (m, p, f, ev) = tick_step(c.ppu_mode, c.ppu, c.interrupt_flags);
    let f2 = if (!c.joypad_data & c.joypad_last_data & 0xF) != 0 { f | spec_bit(Kind::Joypad) } else { f };
    (ContextView { ppu_mode: m, ppu: p, interrupt_flags: f2, joypad_last_data: c.joypad_data, ..c }, ev)
}

/// One T-cycle of the machine: on every fourth one the CPU runs a machine cycle and its
/// memory operation is carried out; then the PPU and the joypad run and the clock counts.
/// When the CPU stops on an error, the cycle stops there.
pub open spec fn gameboy_step(g: GameboyView) -> (GameboyView, Result<Option<Event>, CpuError>) {
    if g.clock % 4 == 0 {
        let (cpu, r) = cpu_step(g.cpu, g.bus_data, g.ctx.interrupt_enable, g.ctx.interrupt_flags);
        let c1 = ContextView { interrupt_flags: cpu_step_flags(g.cpu, g.ctx.interrupt_enable, g.ctx.interrupt_flags), ..g.ctx };
        match r {
            Err(e) => (GameboyView { cpu, ctx: c1, ..g }, Err(e)),
            Ok(op) => {
                let (c2, data, boot) = memory_step(g.boot_rom_enabled, c1, g.bus_data, op);
                let (c3, ev) = devices_step(c2);
                (GameboyView { boot_rom_enabled: boot, ctx: c3, cpu, bus_data: data, clock: next_count(g.clock) }, Ok(ev))
            },
        }
    } else {
        let (c3, ev) = devices_step(g.ctx);
        (GameboyView { ctx: c3, clock: next_count(g.clock), ..g }, Ok(ev))
    }
}

/// Whether a cycle that gave `r` ends a frame: the CPU stopped, a frame is complete, or the
/// LCD was switched off.
pub open spec fn ends_frame(r: Result<Option<Event>, CpuError>) -> bool {
    r is Err || r == Ok::<Option<Event>, CpuError>(Some(Event::VBlank)) || r == Ok::<Option<Event>, CpuError>(Some(Event::LCDOff))
}

/// The machine after running at most `n` T-cycles, stopping after the first that ends a
/// frame; `Ok(None)` when none did.
pub open spec fn run_for(g: GameboyView, n: nat) -> (GameboyView, Result<Option<Event>, CpuError>)
    decreases n,
{
    if n == 0 {
        (g, Ok(None))
    } else {
        let (g1, r) = gameboy_step(g);
        if ends_frame(r) { (g1, r) } else { run_for(g1, (n - 1) as nat) }
    }
}

impl GameboyBuilder {
    pub closed spec fn spec_cartridge(&self) -> CartridgeData {
        self.cartridge
    }

    pub closed spec fn spec_boot_rom(&self) -> Seq<u8> {
        self.boot_rom@
    }

    /// A builder for a Game Boy with this boot ROM and this cartridge.
    pub fn new(boot_rom: BootRom, cartridge: CartridgeData) -> (r: Self)
        ensures
            r.spec_cartridge() == cartridge,
            r.spec_boot_rom() == boot_rom@,
    {
        Self { boot_rom, cartridge }
    }

    /// The Game Boy at power on: the boot ROM mapped, the CPU about to fetch its first opcode,
    /// the LCD off, the RAMs cleared.
    pub fn build(self) -> (r: Gameboy)
        requires
            supported(self.spec_cartridge()),
        ensures
            r.wf(),
            r.view().boot_rom_enabled,
            r.view().ctx.boot_rom == self.spec_boot_rom(),
            r.view().ctx.rom == self.spec_cartridge().spec_rom(),
            r.view().ctx.ram == self.spec_cartridge().spec_ram(),
            r.view().ctx.controller == initial_controller(self.spec_cartridge().spec_header().kind),
            r.view().ctx.work_ram == Seq::new(0x2000, |i: int| 0u8),
            r.view().ctx.high_ram == Seq::new(0x7F, |i: int| 0u8),
            r.view().ctx.joypad_data == 0xFF,
            r.view().ctx.joypad_last_data == 0xFF,
            r.view().ctx.joypad_buttons == Seq::new(8, |i: int| joypad::ButtonState::Up),
            r.view().ctx.interrupt_enable == 0,
            r.view().ctx.interrupt_flags == 0,
            r.view().ctx.ppu_mode == ppu::first_mode(),
            r.view().ctx.ppu == (ppu::PpuView {
                skip_frame: false, lcdc: 0, lyc_compare: false, stat: 0, scy: 0, scx: 0, ly: 0, lyc: 0, wy: 0, wx: 0,
                bgp: 0, obp0: 0, obp1: 0,
                vram: Seq::new(ppu::VRAM_SIZE as nat, |i: int| 0u8),
                oam: Seq::new(ppu::OAM_SIZE as nat, |i: int| 0u8),
                screen: ppu::screen::all_off(),
                lcd_event: None,
            }),
            r.view().cpu == (CpuView {
                registers: cpu::registers::RegistersView { a: 0, b: 0, c: 0, d: 0, e: 0, f: 0, h: 0, l: 0, pc: 0, sp: 0 },
                state: cpu::State::NotStarted,
                ime: true,
                enable_ime: false,
            }),
            r.view().bus_data == 0,
            r.view().clock == 0,
    {
        Gameboy {
            mmu: MMU::new(),
            ctx: MmuContext {
                joypad: Joypad::new(),
                ppu: Ppu::new(),
                interrupt: Interrupt::new(),
                boot_rom: self.boot_rom,
                cartridge: Cartridge::new(self.cartridge),
                work_ram: WorkRam::new(),
                high_ram: WorkRam::new(),
            },
            cpu: Cpu::new(),
            bus: Bus::new(),
            clock: Clock::new(),
        }
    }
}

impl Gameboy {
    pub closed spec fn view(&self) -> GameboyView {
        GameboyView {
            boot_rom_enabled: self.mmu.spec_boot_rom_enabled(),
            ctx: self.ctx.view(),
            cpu: self.cpu.view(),
            bus_data: self.bus.spec_data(),
            clock: self.clock.spec_count(),
        }
    }

    /// The devices are consistent.
    pub closed spec fn wf(&self) -> bool {
        self.ctx.wf()
    }

    /// Runs one T-cycle. Gives the event of the screen, or the error that stopped the CPU.
    pub fn tick(&mut self) -> (r: Result<Option<Event>, CpuError>)
        requires
            old(self).wf(),
        ensures
            final(self).wf(),
            (final(self).view(), r) == gameboy_step(old(self).view()),
    {
        if self.clock.is_m_cycle() {
            let memory_operation = match self.cpu.tick(&self.bus, &mut self.ctx.interrupt) {
                Ok(op) => op,
                Err(e) => return Err(e),
            };
            self.bus.tick(memory_operation, &mut self.mmu, &mut self.ctx);
        }
        let screen_event = self.ctx.ppu.tick(&mut self.ctx.interrupt);
        self.ctx.joypad.tick(&mut self.ctx.interrupt);
        self.clock.tick();
        Ok(screen_event)
    }

    /// Runs T-cycles until one ends a frame, for at most `max_cycles` of them. Gives the event
    /// (`VBlank` or `LCDOff`) or the error of that cycle, `Ok(None)` when none came.
    pub fn run_until_frame(&mut self, max_cycles: usize) -> (r: Result<Option<Event>, CpuError>)
        requires
            old(self).wf(),
        ensures
            final(self).wf(),
            (final(self).view(), r) == run_for(old(self).view(), max_cycles as nat),
    {
        let mut left: usize = max_cycles;
        while left > 0
            invariant
                self.wf(),
                run_for(old(self).view(), max_cycles as nat) == run_for(self.view(), left as nat),
            decreases left,
        {
            let r = self.tick();
            match r {
                Err(e) => return Err(e),
                Ok(Some(Event::VBlank)) => return Ok(Some(Event::VBlank)),
                Ok(Some(Event::LCDOff)) => return Ok(Some(Event::LCDOff)),
                _ => {},
            }
            left = left - 1;
        }
        Ok(None)
    }

    /// The clock.
    pub fn clock(&self) -> (r: &Clock)
        ensures
            r.spec_count() == self.view().clock,
    {
        &self.clock
    }

    /// The joypad, to press and release buttons.
    pub fn joypad(&mut self) -> (r: &mut Joypad)
        ensures
            r.spec_data() == old(self).view().ctx.joypad_data,
            r.buttons() == old(self).view().ctx.joypad_buttons,
            r.spec_last_data() == old(self).view().ctx.joypad_last_data,
            final(self).view() == (GameboyView {
                ctx: ContextView {
                    joypad_data: final(r).spec_data(),
                    joypad_buttons: final(r).buttons(),
                    joypad_last_data: final(r).spec_last_data(),
                    ..old(self).view().ctx
                },
                ..old(self).view()
            }),
            old(self).wf() ==> final(self).wf(),
    {
        &mut self.ctx.joypad
    }

    /// The screen.
    pub fn screen(&self) -> (r: &Screen)
        ensures
            r@ == self.view().ctx.ppu.screen,
    {
        self.ctx.ppu.screen()
    }
}

} // verus!
