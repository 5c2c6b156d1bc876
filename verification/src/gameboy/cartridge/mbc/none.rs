use vstd::prelude::*;

verus! {

/// A cartridge without a memory bank controller: 32 KiB of ROM mapped as is, and
/// optionally a RAM.
#[derive(Debug, Clone, Copy, PartialEq, Eq, Hash)]
pub struct MBC {
    ram: bool,
    battery: bool,
}

/// The byte at `idx`, or 0xFF past the end.
pub open spec fn byte_or_ff(data: Seq<u8>, idx: int) -> u8 {
    if idx < data.len() { data[idx] } else { 0xFF }
}

/// `data` with the byte at `idx` replaced, unchanged past the end.
pub open spec fn write_in_range(data: Seq<u8>, idx: int, value: u8) -> Seq<u8> {
    if idx < data.len() { data.update(idx, value) } else { data }
}

impl MBC {
    pub closed spec fn spec_ram(&self) -> bool {
        self.ram
    }

    pub closed spec fn spec_battery(&self) -> bool {
        self.battery
    }

    pub fn new(ram: bool, battery: bool) -> (r: Self)
        ensures
            r.spec_ram() == ram,
            r.spec_battery() == battery,
    {
        Self { ram, battery }
    }

}

impl super::MBC for MBC {
    open spec fn rom_readable(&self, len: nat) -> bool {
        true
    }

    open spec fn rom_writable(&self, len: nat) -> bool {
        true
    }

    open spec fn ram_accessible(&self, len: nat, address: u16) -> bool {
        true
    }

    fn has_rtc(&self) -> (r: bool)
        ensures
            !r,
    {
        false
    }

    fn has_rumble(&self) -> (r: bool)
        ensures
            !r,
    {
        false
    }

    fn write_rom(&mut self, rom: &[u8], address: u16, value: u8)
        ensures
            *final(self) == *old(self),
    {
    }

    fn has_ram(&self) -> (r: bool)
        ensures
            r == self.spec_ram(),
    {
        self.ram
    }

    fn ram_is_battery_buffered(&self) -> (r: bool)
        ensures
            r == self.spec_battery(),
    {
        self.battery
    }

    /// The byte at `address` of the ROM.
    fn read_rom_bank_0(&self, rom: &[u8], address: u16) -> (r: u8)
        ensures
            r == byte_or_ff(rom@, address as int),
    {
        let idx: usize = address as usize;
        if idx < rom.len() { rom[idx] } else { 0xFF }
    }

    /// The byte at `address` of the second 16 KiB of the ROM.
    fn read_rom_bank_n(&self, rom: &[u8], address: u16) -> (r: u8)
        ensures
            r == byte_or_ff(rom@, address + 0x4000),
    {
        let idx: usize = address as usize + 0x4000;
        if idx < rom.len() { rom[idx] } else { 0xFF }
    }

    /// The byte at `address` of the RAM.
    fn read_ram(&self, ram: &[u8], address: u16) -> (r: u8)
        ensures
            r == byte_or_ff(ram@, address as int),
    {
        let idx: usize = address as usize;
        if idx < ram.len() { ram[idx] } else { 0xFF }
    }

    /// Writes the byte at `address` of the RAM.
    fn write_ram(&self, ram: &mut Vec<u8>, address: u16, value: u8)
        ensures
            final(ram)@ == write_in_range(old(ram)@, address as int, value),
    {
        let idx: usize = address as usize;
        if idx < ram.len() {
            ram.set(idx, value);
        }
    }

    /// A name for the controller.
    fn str(&self) -> (r: &'static str)
        ensures
            r@ == (if self.spec_ram() && self.spec_battery() { "MBC None (Battery-buffered RAM)"@ }
                else if self.spec_ram() { "MBC None (RAM)"@ } else { "MBC None (No RAM)"@ }),
    {
        if self.ram && self.battery {
            "MBC None (Battery-buffered RAM)"
        } else if self.ram {
            "MBC None (RAM)"
        } else {
            "MBC None (No RAM)"
        }
    }
}

} // verus!
