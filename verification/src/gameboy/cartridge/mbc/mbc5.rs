use vstd::prelude::*;

use super::none::{byte_or_ff, write_in_range};

verus! {

/// The ROM sizes an MBC5 can address: at least one bank of 16 KiB, under 65536 banks.
pub open spec fn rom_size_ok(len: nat) -> bool {
    0x4000 <= len && len / 0x4000 < 0x10000
}

/// The MBC5 memory bank controller.
#[derive(Debug, Clone, Copy, PartialEq, Eq, Hash)]
pub struct Mbc {
    ram: bool,
    battery_buffered_ram: bool,
    rumble: bool,
    ram_enabled: bool,
    rom_bank_n: u16,
    ram_bank_n: u8,
    rumble_enabled: bool,
}

/// The registers of an MBC5, as values.
pub struct Mbc5View {
    pub ram: bool,
    pub battery_buffered_ram: bool,
    pub rumble: bool,
    pub ram_enabled: bool,
    pub rom_bank_n: u16,
    pub ram_bank_n: u8,
    pub rumble_enabled: bool,
}

/// The registers after a write of `value` at `address` of the ROM window, for a ROM of `len`
/// bytes: 0x2000 sets the low byte of the ROM bank, 0x3000 its ninth bit, 0x4000 the RAM bank
/// (and the rumble motor on a rumble cartridge).
pub open spec fn after_write(v: Mbc5View, len: nat, address: u16, value: u8) -> Mbc5View {
    let nb_banks = (len / 0x4000) as int;
    if address <= 0x1FFF {
        Mbc5View { ram_enabled: value & 0xF == 0xA, ..v }
    } else if address <= 0x2FFF {
        Mbc5View { rom_bank_n: (((v.rom_bank_n / 256) * 256 + value) % nb_banks) as u16, ..v }
    } else if address <= 0x3FFF {
        Mbc5View { rom_bank_n: (((value & 1) * 256 + v.rom_bank_n % 256) % nb_banks) as u16, ..v }
    } else if address <= 0x5FFF {
        if v.rumble {
            Mbc5View { ram_bank_n: value & 0b0111, rumble_enabled: (value >> 3u8) & 1 == 1, ..v }
        } else {
            Mbc5View { ram_bank_n: value & 0b1111, ..v }
        }
    } else {
        v
    }
}

impl Mbc {
    pub closed spec fn view(&self) -> Mbc5View {
        Mbc5View {
            ram: self.ram,
            battery_buffered_ram: self.battery_buffered_ram,
            rumble: self.rumble,
            ram_enabled: self.ram_enabled,
            rom_bank_n: self.rom_bank_n,
            ram_bank_n: self.ram_bank_n,
            rumble_enabled: self.rumble_enabled,
        }
    }

    /// A controller at power on: RAM disabled, bank 1 mapped at 0x4000.
    pub fn new(ram: bool, battery_buffered_ram: bool, rumble: bool) -> (r: Self)
        ensures
            r.view() == (Mbc5View { ram, battery_buffered_ram, rumble, ram_enabled: false, rom_bank_n: 1, ram_bank_n: 0,
                rumble_enabled: false }),
    {
        Self { ram, battery_buffered_ram, rumble, ram_enabled: false, rom_bank_n: 1, ram_bank_n: 0, rumble_enabled: false }
    }

}

impl super::MBC for Mbc {
    open spec fn rom_readable(&self, len: nat) -> bool {
        true
    }

    open spec fn rom_writable(&self, len: nat) -> bool {
        rom_size_ok(len)
    }

    open spec fn ram_accessible(&self, len: nat, address: u16) -> bool {
        true
    }

    fn has_rtc(&self) -> (r: bool)
        ensures
            !r,
    {
        false
    }

    fn has_ram(&self) -> (r: bool)
        ensures
            r == self.view().ram,
    {
        self.ram
    }

    fn ram_is_battery_buffered(&self) -> (r: bool)
        ensures
            r == self.view().battery_buffered_ram,
    {
        self.battery_buffered_ram
    }

    fn has_rumble(&self) -> (r: bool)
        ensures
            r == self.view().rumble,
    {
        self.rumble
    }

    /// The byte at `address` of bank 0.
    fn read_rom_bank_0(&self, rom: &[u8], address: u16) -> (r: u8)
        ensures
            r == byte_or_ff(rom@, address as int),
    {
        let idx: usize = address as usize;
        if idx < rom.len() { rom[idx] } else { 0xFF }
    }

    /// The byte at `address` of the selected bank.
    fn read_rom_bank_n(&self, rom: &[u8], address: u16) -> (r: u8)
        ensures
            r == byte_or_ff(rom@, address + 0x4000 * self.view().rom_bank_n),
    {
        let rom_bank_n: usize = self.rom_bank_n as usize;
        let idx: usize = address as usize + 0x4000 * rom_bank_n;
        if idx < rom.len() { rom[idx] } else { 0xFF }
    }

    /// A write to the ROM window sets a register.
    fn write_rom(&mut self, rom: &[u8], address: u16, value: u8)
        ensures
            final(self).view() == after_write(old(self).view(), rom@.len(), address, value),
    {
        if address <= 0x1FFF {
            self.ram_enabled = value & 0xF == 0xA;
        } else if address <= 0x2FFF {
            let nb_banks: u16 = (rom.len() / (16 * 1024)) as u16;
            let msb: u16 = self.rom_bank_n / 256;
            self.rom_bank_n = (msb * 256 + value as u16) % nb_banks;
        } else if address <= 0x3FFF {
            let nb_banks: u16 = (rom.len() / (16 * 1024)) as u16;
            let lsb: u16 = self.rom_bank_n % 256;
            self.rom_bank_n = ((value & 0b1) as u16 * 256 + lsb) % nb_banks;
        } else if address <= 0x5FFF {
            if self.rumble {
                self.ram_bank_n = value & 0b0111;
                self.rumble_enabled = (value >> 3u8) & 0b1 == 1;
            } else {
                self.ram_bank_n = value & 0b1111;
            }
        }
    }

    /// The byte at `address` of the selected RAM bank.
    fn read_ram(&self, ram: &[u8], address: u16) -> (r: u8)
        ensures
            r == byte_or_ff(ram@, address + 0x2000 * self.view().ram_bank_n),
    {
        let ram_bank_n: usize = self.ram_bank_n as usize;
        let idx: usize = address as usize + 0x2000 * ram_bank_n;
        if idx < ram.len() { ram[idx] } else { 0xFF }
    }

    /// Writes the byte at `address` of the selected RAM bank.
    fn write_ram(&self, ram: &mut Vec<u8>, address: u16, value: u8)
        ensures
            final(ram)@ == write_in_range(old(ram)@, address + 0x2000 * self.view().ram_bank_n, value),
    {
        let ram_bank_n: usize = self.ram_bank_n as usize;
        let idx: usize = address as usize + 0x2000 * ram_bank_n;
        if idx < ram.len() {
            ram.set(idx, value);
        }
    }

    /// A name for the controller.
    fn str(&self) -> (r: &'static str)
        ensures
            r@ == (if self.view().ram && self.view().battery_buffered_ram { "MBC5 (Battery-buffered RAM)"@ }
                else if self.view().ram { "MBC5 (RAM)"@ } else { "MBC5 (No RAM)"@ }),
    {
        if self.ram && self.battery_buffered_ram {
            "MBC5 (Battery-buffered RAM)"
        } else if self.ram {
            "MBC5 (RAM)"
        } else {
            "MBC5 (No RAM)"
        }
    }
}

} // verus!
