use vstd::prelude::*;

pub mod mbc;

use crate::cartridge::{Cartridge as CartridgeData, Kind};
use mbc::mbc1::{high_bank, ram_index, ram_size_ok, zero_bank, Mbc1View};
use mbc::mbc5::Mbc5View;
use mbc::none::{byte_or_ff, write_in_range};
use mbc::{new_mbc1, new_mbc5, new_none, Controller, MBC};

verus! {

/// The registers of a controller, whichever it is.
pub enum ControllerView {
    NoMbc { ram: bool, battery: bool },
    Mbc1(Mbc1View),
    Mbc5(Mbc5View),
}

/// The registers of the controller `c`.
pub open spec fn view_of(c: Controller) -> ControllerView {
    match c {
        Controller::NoMbc(m) => ControllerView::NoMbc { ram: m.spec_ram(), battery: m.spec_battery() },
        Controller::Mbc1(m) => ControllerView::Mbc1(m.view()),
        Controller::Mbc5(m) => ControllerView::Mbc5(m.view()),
    }
}

/// Whether the controller can serve `address` of the RAM window with the RAM `ram`: an MBC1
/// only handles RAMs of 2, 8 and 32 KiB, and the banked address must fall in the RAM.
pub open spec fn ram_ok(c: ControllerView, ram: Option<Seq<u8>>, address: u16) -> bool {
    match (ram, c) {
        (Some(r), ControllerView::Mbc1(v)) => ram_size_ok(r.len()) && ram_index(v, r.len(), address) < r.len(),
        _ => true,
    }
}

/// The byte the window at 0x0000 shows.
pub open spec fn spec_read_rom_bank_0(c: ControllerView, rom: Seq<u8>, address: u16) -> u8 {
    match c {
        ControllerView::Mbc1(v) => byte_or_ff(rom, if v.mode { address + 0x4000 * zero_bank(v, rom.len()) } else { address as int }),
        _ => byte_or_ff(rom, address as int),
    }
}

/// The byte the window at 0x4000 shows.
pub open spec fn spec_read_rom_bank_n(c: ControllerView, rom: Seq<u8>, address: u16) -> u8 {
    match c {
        ControllerView::NoMbc { .. } => byte_or_ff(rom, address + 0x4000),
        ControllerView::Mbc1(v) => byte_or_ff(rom, address + 0x4000 * high_bank(v, rom.len())),
        ControllerView::Mbc5(v) => byte_or_ff(rom, address + 0x4000 * v.rom_bank_n),
    }
}

/// The byte the RAM window shows: 0xFF without RAM.
pub open spec fn spec_read_ram(c: ControllerView, ram: Option<Seq<u8>>, address: u16) -> u8 {
    match ram {
        None => 0xFF,
        Some(r) => match c {
            ControllerView::NoMbc { .. } => byte_or_ff(r, address as int),
            ControllerView::Mbc1(v) => if v.ram_enabled { r[ram_index(v, r.len(), address)] } else { 0xFF },
            ControllerView::Mbc5(v) => byte_or_ff(r, address + 0x2000 * v.ram_bank_n),
        },
    }
}

/// The RAM after a write to the RAM window.
pub open spec fn spec_write_ram(c: ControllerView, ram: Option<Seq<u8>>, address: u16, value: u8) -> Option<Seq<u8>> {
    match ram {
        None => None,
        Some(r) => Some(match c {
            ControllerView::NoMbc { .. } => write_in_range(r, address as int, value),
            ControllerView::Mbc1(v) => if v.ram_enabled { r.update(ram_index(v, r.len(), address), value) } else { r },
            ControllerView::Mbc5(v) => write_in_range(r, address + 0x2000 * v.ram_bank_n, value),
        }),
    }
}

/// The controller after a write to the ROM window, with a ROM of `rom_len` bytes.
pub open spec fn spec_write_rom(c: ControllerView, rom_len: nat, address: u16, value: u8) -> ControllerView {
    match c {
        ControllerView::NoMbc { .. } => c,
        ControllerView::Mbc1(v) => ControllerView::Mbc1(mbc::mbc1::after_write(v, rom_len, address, value)),
        ControllerView::Mbc5(v) => ControllerView::Mbc5(mbc::mbc5::after_write(v, rom_len, address, value)),
    }
}

/// A cartridge plugged in: its data and the controller its header names.
#[derive(Debug)]
pub struct Cartridge {
    cartridge: CartridgeData,
    mbc: Controller,
}

/// The controller a cartridge of kind `k` has at power on.
pub open spec fn initial_controller(k: Kind) -> ControllerView {
    match k {
        Kind::NoMBC { ram, battery } => ControllerView::NoMbc { ram, battery },
        Kind::MBC1 { ram, battery, multi_cart } => ControllerView::Mbc1(Mbc1View { ram, battery, multi_cart, ram_enabled: false,
            rom_bank_n: 1, ram_bank_n: 0, mode: false }),
        Kind::MBC5 { ram, battery, rumble } => ControllerView::Mbc5(Mbc5View { ram, battery_buffered_ram: battery, rumble,
            ram_enabled: false, rom_bank_n: 1, ram_bank_n: 0, rumble_enabled: false }),
        _ => ControllerView::NoMbc { ram: false, battery: false },
    }
}

/// The controllers this emulator has, and the sizes an MBC1 can address.
pub open spec fn supported(c: CartridgeData) -> bool {
    match c.spec_header().kind {
        Kind::NoMBC { .. } => true,
        Kind::MBC1 { .. } => mbc::mbc1::rom_size_ok(c.spec_rom().len()) && c.spec_rom().len() >= 0x4000
            && (c.spec_ram() matches Some(r) ==> ram_size_ok(r.len())),
        Kind::MBC5 { .. } => mbc::mbc5::rom_size_ok(c.spec_rom().len()),
        _ => false,
    }
}

/// Whether this emulator can run `cartridge`: its controller is one it has, and an MBC1 can
/// address its ROM and RAM.
pub fn is_supported(cartridge: &CartridgeData) -> (r: bool)
    ensures
        r == supported(*cartridge),
{
    let len: usize = cartridge.rom().len();
    match cartridge.header().kind {
        Kind::NoMBC { .. } => true,
        Kind::MBC1 { .. } => {
            let ram_fits = match cartridge.ram() {
                Some(r) => r.len() == 0x800 || r.len() == 0x2000 || r.len() == 0x8000,
                None => true,
            };
            (len < 0x100000 || len == 0x100000 || len == 0x200000) && len >= 0x4000 && ram_fits
        },
        Kind::MBC5 { .. } => 0x4000 <= len && len / 0x4000 < 0x10000,
        _ => false,
    }
}

impl Cartridge {
    /// The registers of the controller.
    pub closed spec fn controller(&self) -> ControllerView {
        view_of(self.mbc)
    }

    pub closed spec fn rom(&self) -> Seq<u8> {
        self.cartridge.spec_rom()
    }

    pub closed spec fn ram(&self) -> Option<Seq<u8>> {
        self.cartridge.spec_ram()
    }

    /// The controller can serve this cartridge.
    pub closed spec fn wf(&self) -> bool {
        match self.mbc {
            Controller::NoMbc(_) => true,
            Controller::Mbc1(m) => mbc::mbc1::rom_size_ok(self.cartridge.spec_rom().len()) && self.cartridge.spec_rom().len() >= 0x4000
                && (self.cartridge.spec_ram() matches Some(r) ==> ram_size_ok(r.len())) && m.view().ram_bank_n <= 3,
            Controller::Mbc5(m) => mbc::mbc5::rom_size_ok(self.cartridge.spec_rom().len()),
        }
    }

    /// Every address of the RAM window is in reach of the controller.
    pub proof fn lemma_ram_window(&self, address: u16)
        requires
            self.wf(),
            address < 0x2000,
        ensures
            ram_ok(self.controller(), self.ram(), address),
    {
        match (self.mbc, self.cartridge.spec_ram()) {
            (Controller::Mbc1(m), Some(r)) => {
                assert((address as int) % (r.len() as int) < r.len()) by (nonlinear_arith)
                    requires r.len() > 0;
            },
            _ => {},
        }
    }

    /// Plugs a cartridge in, with the controller its header names at power on.
    pub fn new(cartridge: CartridgeData) -> (r: Self)
        requires
            supported(cartridge),
        ensures
            r.wf(),
            r.rom() == cartridge.spec_rom(),
            r.ram() == cartridge.spec_ram(),
            r.controller() == initial_controller(cartridge.spec_header().kind),
    {
        let mbc = match cartridge.header().kind {
            Kind::NoMBC { ram, battery } => new_none(ram, battery),
            Kind::MBC1 { ram, battery, multi_cart } => new_mbc1(ram, battery, multi_cart),
            Kind::MBC5 { ram, battery, rumble } => new_mbc5(ram, battery, rumble),
            _ => new_none(false, false),
        };
        Self { cartridge, mbc }
    }

    /// The byte at `address` of the window at 0x0000.
    pub fn read_rom_bank_0(&self, address: u16) -> (r: u8)
        requires
            self.wf(),
        ensures
            r == spec_read_rom_bank_0(self.controller(), self.rom(), address),
    {
        match &self.mbc {
            Controller::NoMbc(m) => m.read_rom_bank_0(self.cartridge.rom(), address),
            Controller::Mbc1(m) => m.read_rom_bank_0(self.cartridge.rom(), address),
            Controller::Mbc5(m) => m.read_rom_bank_0(self.cartridge.rom(), address),
        }
    }

    /// The byte at `address` of the window at 0x4000.
    pub fn read_rom_bank_n(&self, address: u16) -> (r: u8)
        requires
            self.wf(),
        ensures
            r == spec_read_rom_bank_n(self.controller(), self.rom(), address),
    {
        match &self.mbc {
            Controller::NoMbc(m) => m.read_rom_bank_n(self.cartridge.rom(), address),
            Controller::Mbc1(m) => m.read_rom_bank_n(self.cartridge.rom(), address),
            Controller::Mbc5(m) => m.read_rom_bank_n(self.cartridge.rom(), address),
        }
    }

    /// A write to the ROM window, which drives the controller.
    pub fn write_rom(&mut self, address: u16, value: u8)
        requires
            old(self).wf(),
        ensures
            final(self).wf(),
            final(self).controller() == spec_write_rom(old(self).controller(), old(self).rom().len(), address, value),
            final(self).rom() == old(self).rom(),
            final(self).ram() == old(self).ram(),
    {
        let mut mbc = self.mbc;
        match &mut mbc {
            Controller::NoMbc(m) => m.write_rom(self.cartridge.rom(), address, value),
            Controller::Mbc1(m) => m.write_rom(self.cartridge.rom(), address, value),
            Controller::Mbc5(m) => m.write_rom(self.cartridge.rom(), address, value),
        }
        self.mbc = mbc;
    }

    /// The byte at `address` of the RAM window.
    pub fn read_ram(&self, address: u16) -> (r: u8)
        requires
            self.wf(),
            ram_ok(self.controller(), self.ram(), address),
        ensures
            r == spec_read_ram(self.controller(), self.ram(), address),
    {
        match self.cartridge.ram() {
            Some(ram) => match &self.mbc {
                Controller::NoMbc(m) => m.read_ram(ram, address),
                Controller::Mbc1(m) => m.read_ram(ram, address),
                Controller::Mbc5(m) => m.read_ram(ram, address),
            },
            None => 0xFF,
        }
    }

    /// A write to the RAM window.
    pub fn write_ram(&mut self, address: u16, value: u8)
        requires
            old(self).wf(),
            ram_ok(old(self).controller(), old(self).ram(), address),
        ensures
            final(self).wf(),
            final(self).ram() == spec_write_ram(old(self).controller(), old(self).ram(), address, value),
            final(self).controller() == old(self).controller(),
            final(self).rom() == old(self).rom(),
    {
        let mbc = self.mbc;
        match self.cartridge.mut_ram() {
            Some(ram) => match &mbc {
                Controller::NoMbc(m) => m.write_ram(ram, address, value),
                Controller::Mbc1(m) => m.write_ram(ram, address, value),
                Controller::Mbc5(m) => m.write_ram(ram, address, value),
            },
            None => {},
        }
    }
}

/// Where `address` of the RAM window falls in a RAM of `len` bytes.
pub open spec fn ram_slot(c: ControllerView, len: nat, address: u16) -> int {
    match c {
        ControllerView::NoMbc { .. } => address as int,
        ControllerView::Mbc1(v) => ram_index(v, len, address),
        ControllerView::Mbc5(v) => address + 0x2000 * v.ram_bank_n,
    }
}

/// A byte written to the RAM window is read back at the same address, when the RAM has a
/// place for it (and, on an MBC1, when the RAM is enabled).
pub proof fn lemma_ram_read_after_write(c: ControllerView, ram: Seq<u8>, address: u16, value: u8)
    requires
        0 <= ram_slot(c, ram.len(), address) < ram.len(),
        c matches ControllerView::Mbc1(v) ==> v.ram_enabled,
    ensures
        spec_read_ram(c, spec_write_ram(c, Some(ram), address, value), address) == value,
{
}

/// On an MBC5, selecting ROM bank `bank` (below the number of banks) shows that bank in the
/// window at 0x4000.
pub proof fn lemma_mbc5_bank_select(v: Mbc5View, rom: Seq<u8>, bank: u8, address: u16)
    requires
        mbc::mbc5::rom_size_ok(rom.len()),
        v.rom_bank_n < 256,
        (bank as int) < rom.len() / 0x4000,
        address < 0x4000,
    ensures
        spec_read_rom_bank_n(spec_write_rom(ControllerView::Mbc5(v), rom.len(), 0x2000, bank), rom, address)
            == rom[bank * 0x4000 + address],
{
    let n = (rom.len() / 0x4000) as int;
    assert(bank * 0x4000 + address < rom.len()) by (nonlinear_arith)
        requires n == rom.len() / 0x4000, (bank as int) < n, address < 0x4000;
    assert((v.rom_bank_n / 256) * 256 + bank == bank as int);
    assert(((bank as int) % n) == bank as int) by (nonlinear_arith)
        requires 0 <= bank < n;
    let w = mbc::mbc5::after_write(v, rom.len(), 0x2000, bank);
    assert(w.rom_bank_n == bank);
}

/// On an MBC1, writing `bank` to 0x2000-0x3FFF selects the ROM bank shown at 0x4000: its
/// low five bits, 0 read as 1, and on ROMs under 1 MiB the whole number (modulo the number of
/// banks); on 1 MiB and 2 MiB ROMs the RAM bank register gives the bits above (above four
/// bits on a 1 MiB multi-cart).
pub proof fn lemma_mbc1_bank_select(v: Mbc1View, rom: Seq<u8>, bank: u8, address: u16)
    requires
        mbc::mbc1::rom_size_ok(rom.len()),
        rom.len() >= 0x8000,
        address < 0x4000,
    ensures
        ({
            let n = (rom.len() / 0x4000) as int;
            let low: int = if bank % 32 == 0 { 1 } else { bank as int % 32 };
            let selected: int = if rom.len() < 0x100000 {
                if bank % 32 == 0 { 1 } else { bank as int % n }
            } else if rom.len() == 0x100000 {
                if v.multi_cart {
                    16 * (v.ram_bank_n % 4) + (if bank % 32 == 0 { 1 } else { bank as int % 16 })
                } else {
                    32 * (v.ram_bank_n % 2) + low
                }
            } else {
                32 * (v.ram_bank_n % 4) + low
            };
            &&& 0 <= selected < n
            &&& spec_read_rom_bank_n(spec_write_rom(ControllerView::Mbc1(v), rom.len(), 0x2000, bank), rom, address)
                == rom[selected * 0x4000 + address]
        }),
{
    let n = (rom.len() / 0x4000) as int;
    let w = mbc::mbc1::after_write(v, rom.len(), 0x2000, bank);
    let rb = w.rom_bank_n;
    let low: int = if bank % 32 == 0 { 1 } else { bank as int % 32 };
    mbc::mbc1::lemma_bank_bits(v.ram_bank_n, bank);
    assert(rb == if bank % 32 == 0 { 1 } else { bank as int % n });
    let selected = high_bank(w, rom.len());
    if rom.len() < 0x100000 {
        assert(0 <= bank as int % n < n) by (nonlinear_arith) requires n >= 2;
        assert(selected == if bank % 32 == 0 { 1 } else { bank as int % n });
    } else if rom.len() == 0x100000 {
        assert(n == 64);
        assert(rb == if bank % 32 == 0 { 1 } else { bank as int % 64 });
        assert(bank % 32 != 0 ==> (bank as int % 64) % 16 == bank as int % 16 && (bank as int % 64) % 32 == bank as int % 32)
            by (nonlinear_arith);
        mbc::mbc1::lemma_bank_bits(v.ram_bank_n, rb);
        assert(rb % 16 == if bank % 32 == 0 { 1 } else { bank as int % 16 });
        assert(rb % 32 == low);
    } else {
        assert(n == 128);
        assert(rb == if bank % 32 == 0 { 1 } else { bank as int % 128 });
        assert(bank % 32 != 0 ==> (bank as int % 128) % 32 == bank as int % 32) by (nonlinear_arith);
        mbc::mbc1::lemma_bank_bits(v.ram_bank_n, rb);
        assert(rb % 32 == low);
    }
    assert(0 <= selected < n);
    assert(selected * 0x4000 + address < rom.len()) by (nonlinear_arith)
        requires 0 <= selected < n, n == rom.len() / 0x4000, address < 0x4000;
}

/// The other registers of an MBC1: a write to 0x0000-0x1FFF enables the RAM exactly when the
/// low nibble of the value is 0xA; one to 0x4000-0x5FFF sets the RAM bank (or the upper ROM
/// bits) to the value's two low bits; one to 0x6000-0x7FFF selects banking mode 1 when the
/// value is odd. Each write changes its register only.
pub proof fn lemma_mbc1_registers(v: Mbc1View, len: nat, address: u16, value: u8)
    requires
        address < 0x8000,
    ensures
        ({
            let w = mbc::mbc1::after_write(v, len, address, value);
            &&& w.ram == v.ram && w.battery == v.battery && w.multi_cart == v.multi_cart
            &&& address < 0x2000 ==> w == Mbc1View { ram_enabled: value % 16 == 10, ..v }
            &&& 0x2000 <= address < 0x4000 ==> w == Mbc1View { rom_bank_n: w.rom_bank_n, ..v }
            &&& 0x4000 <= address < 0x6000 ==> w == Mbc1View { ram_bank_n: value % 4, ..v }
            &&& 0x6000 <= address ==> w == Mbc1View { mode: value % 2 == 1, ..v }
        }),
{
    mbc::mbc1::lemma_bank_bits(0, value);
}

/// The registers of an MBC5: a write to 0x0000-0x1FFF enables the RAM exactly when the low
/// nibble of the value is 0xA; one to 0x2000-0x2FFF sets the low eight bits of the ROM bank,
/// one to 0x3000-0x3FFF its ninth bit from the value's bit 0 (the bank wrapping at the
/// number of banks); one to 0x4000-0x5FFF sets the RAM bank to the value's low four bits, or
/// on a rumble cartridge to its low three bits with bit 3 driving the motor.
pub proof fn lemma_mbc5_registers(v: Mbc5View, len: nat, address: u16, value: u8)
    requires
        address < 0x8000,
        len >= 0x4000,
    ensures
        ({
            let n = (len / 0x4000) as int;
            let w = mbc::mbc5::after_write(v, len, address, value);
            &&& address < 0x2000 ==> w == Mbc5View { ram_enabled: value % 16 == 10, ..v }
            &&& 0x2000 <= address < 0x3000 ==> w == Mbc5View { rom_bank_n: ((v.rom_bank_n - v.rom_bank_n % 256 + value) % n) as u16, ..v }
            &&& 0x3000 <= address < 0x4000 ==> w == Mbc5View { rom_bank_n: ((256 * (value % 2) + v.rom_bank_n % 256) % n) as u16, ..v }
            &&& 0x4000 <= address < 0x6000 && v.rumble ==> w == Mbc5View { ram_bank_n: value % 8, rumble_enabled: (value / 8) % 2 == 1, ..v }
            &&& 0x4000 <= address < 0x6000 && !v.rumble ==> w == Mbc5View { ram_bank_n: value % 16, ..v }
            &&& 0x6000 <= address ==> w == v
        }),
{
    mbc::mbc1::lemma_bank_bits(0, value);
    assert((v.rom_bank_n / 256) * 256 == v.rom_bank_n - v.rom_bank_n % 256);
}

/// The banks an MBC1 maps besides the switchable ROM bank. The window at 0x0000 shows ROM
/// bank 0, except in banking mode 1 on a ROM of 1 MiB or more, where the RAM bank register
/// selects bank 32 times its value (16 times on a 1 MiB multi-cart; only its bit 0 counts
/// on a plain 1 MiB ROM). Enabled RAM of 32 KiB shows, in banking mode 1, the 8 KiB bank the
/// RAM bank register selects, and bank 0 in mode 0; a RAM of 8 KiB shows itself and one of 2
/// KiB repeats every 2 KiB. Disabled RAM reads 0xFF.
pub proof fn lemma_mbc1_fixed_banks(v: Mbc1View, rom: Seq<u8>, ram: Seq<u8>, address: u16)
    requires
        mbc::mbc1::rom_size_ok(rom.len()),
        ram_size_ok(ram.len()),
        rom.len() >= 0x4000,
        address < 0x2000,
        v.ram_bank_n <= 3,
    ensures
        ({
            let r = v.ram_bank_n as int;
            let z: int = if !v.mode || rom.len() < 0x100000 { 0 } else if rom.len() == 0x100000 {
                if v.multi_cart { 16 * (r % 4) } else { 32 * (r % 2) }
            } else { 32 * r };
            spec_read_rom_bank_0(ControllerView::Mbc1(v), rom, address) == rom[0x4000 * z + address]
        }),
        !v.ram_enabled ==> spec_read_ram(ControllerView::Mbc1(v), Some(ram), address) == 0xFF,
        v.ram_enabled && ram.len() == 0x8000 ==> spec_read_ram(ControllerView::Mbc1(v), Some(ram), address)
            == ram[(if v.mode { 0x2000 * v.ram_bank_n } else { 0 }) + address],
        v.ram_enabled && ram.len() == 0x2000 ==> spec_read_ram(ControllerView::Mbc1(v), Some(ram), address) == ram[address as int],
        v.ram_enabled && ram.len() == 0x800 ==> spec_read_ram(ControllerView::Mbc1(v), Some(ram), address) == ram[address as int % 0x800],
{
    mbc::mbc1::lemma_bank_bits(v.ram_bank_n, 0);
    let r = v.ram_bank_n as int;
    let z: int = if !v.mode || rom.len() < 0x100000 { 0 } else if rom.len() == 0x100000 {
        if v.multi_cart { 16 * (r % 4) } else { 32 * (r % 2) }
    } else { 32 * r };
    let n = (rom.len() / 0x4000) as int;
    assert(0 <= z < n);
    assert(0x4000 * z + address < rom.len()) by (nonlinear_arith)
        requires 0 <= z < n, n == rom.len() / 0x4000, address < 0x4000;
}

} // verus!
