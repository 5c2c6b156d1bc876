use vstd::prelude::*;

use super::none::byte_or_ff;

verus! {

/// The ROM sizes an MBC1 can address: under 1 MiB, 1 MiB or 2 MiB.
pub open spec fn rom_size_ok(len: nat) -> bool {
    len < 0x100000 || len == 0x100000 || len == 0x200000
}

/// The RAM sizes an MBC1 can address: 2 KiB, 8 KiB or 32 KiB.
pub open spec fn ram_size_ok(len: nat) -> bool {
    len == 0x800 || len == 0x2000 || len == 0x8000
}

/// The MBC1 memory bank controller.
#[derive(Debug, Clone, Copy, PartialEq, Eq, Hash)]
pub struct MBC {
    ram: bool,
    battery: bool,
    multi_cart: bool,
    ram_enabled: bool,
    rom_bank_n: u8,
    ram_bank_n: u8,
    mode: bool,
}

/// The registers of an MBC1, as values.
pub struct Mbc1View {
    pub ram: bool,
    pub battery: bool,
    pub multi_cart: bool,
    pub ram_enabled: bool,
    pub rom_bank_n: u8,
    pub ram_bank_n: u8,
    pub mode: bool,
}

/// The bank mapped at 0x0000 in banking mode 1, for a ROM of `len` bytes.
pub open spec fn zero_bank(v: Mbc1View, len: nat) -> int {
    if len < 0x100000 {
        0
    } else if len == 0x100000 {
        if v.multi_cart { ((v.ram_bank_n & 0b11) << 4u8) as int } else { ((v.ram_bank_n & 0b1) << 5u8) as int }
    } else {
        ((v.ram_bank_n & 0b11) << 5u8) as int
    }
}

/// The bank mapped at 0x4000, for a ROM of `len` bytes: the ROM bank register, completed by
/// the RAM bank register on large ROMs.
pub open spec fn high_bank(v: Mbc1View, len: nat) -> int {
    if len < 0x100000 {
        v.rom_bank_n as int
    } else if len == 0x100000 {
        if v.multi_cart {
            (((v.ram_bank_n & 0b11) << 4u8) | (v.rom_bank_n & 0b1100_1111)) as int
        } else {
            (((v.ram_bank_n & 0b1) << 5u8) | (v.rom_bank_n & 0b1101_1111)) as int
        }
    } else {
        (((v.ram_bank_n & 0b11) << 5u8) | (v.rom_bank_n & 0b1001_1111)) as int
    }
}

/// Where `address` of the RAM window falls in a RAM of `len` bytes.
pub open spec fn ram_index(v: Mbc1View, len: nat, address: u16) -> int {
    if len == 0x800 || len == 0x2000 {
        address as int % len as int
    } else if v.mode {
        address + 0x2000 * v.ram_bank_n
    } else {
        address as int
    }
}

/// The registers after a write of `value` at `address` of the ROM window, for a ROM of `len`
/// bytes.
pub open spec fn after_write(v: Mbc1View, len: nat, address: u16, value: u8) -> Mbc1View {
    if address <= 0x1FFF {
        Mbc1View { ram_enabled: value & 0xF == 0xA, ..v }
    } else if address <= 0x3FFF {
        Mbc1View { rom_bank_n: if value & 0b1_1111 == 0 { 1 } else { ((value as int) % ((len / 0x4000) as int)) as u8 }, ..v }
    } else if address <= 0x5FFF {
        Mbc1View { ram_bank_n: value & 0b11, ..v }
    } else if address <= 0x7FFF {
        Mbc1View { mode: value & 1 != 0, ..v }
    } else {
        v
    }
}

/// The bank numbers of a large ROM in arithmetic: the RAM bank register above the low
/// bits of the ROM bank register.
pub proof fn lemma_bank_bits(r: u8, x: u8)
    by (bit_vector)
    ensures
        x < 64 ==> ((r & 0b11) << 4u8) | (x & 0b1100_1111) == 16 * (r % 4) + x % 16,
        x < 64 ==> ((r & 0b1) << 5u8) | (x & 0b1101_1111) == 32 * (r % 2) + x % 32,
        x < 128 ==> ((r & 0b11) << 5u8) | (x & 0b1001_1111) == 32 * (r % 4) + x % 32,
        (x & 0b1_1111 == 0) == (x % 32 == 0),
        (x & 0xF == 0xA) == (x % 16 == 10),
        x & 0b11 == x % 4,
        (x & 1 != 0) == (x % 2 == 1),
        x & 1 == x % 2,
        x & 0b111 == x % 8,
        x & 0xF == x % 16,
        (x >> 3u8) & 1 == (x / 8) % 2,
        (r & 0b11) << 4u8 == 16 * (r % 4),
        (r & 0b1) << 5u8 == 32 * (r % 2),
        (r & 0b11) << 5u8 == 32 * (r % 4),
{
}

impl MBC {
    pub closed spec fn view(&self) -> Mbc1View {
        Mbc1View {
            ram: self.ram,
            battery: self.battery,
            multi_cart: self.multi_cart,
            ram_enabled: self.ram_enabled,
            rom_bank_n: self.rom_bank_n,
            ram_bank_n: self.ram_bank_n,
            mode: self.mode,
        }
    }

    /// A controller at power on: RAM disabled, bank 1 mapped at 0x4000, banking mode 0.
    pub fn new(ram: bool, battery: bool, multi_cart: bool) -> (r: Self)
        ensures
            r.view() == (Mbc1View { ram, battery, multi_cart, ram_enabled: false, rom_bank_n: 1, ram_bank_n: 0, mode: false }),
    {
        Self { ram, battery, multi_cart, ram_enabled: false, rom_bank_n: 1, ram_bank_n: 0, mode: false }
    }


    fn zero_bank_n(&self, rom: &[u8]) -> (r: usize)
        requires
            rom_size_ok(rom@.len()),
        ensures
            r == zero_bank(self.view(), rom@.len()),
    {
        if rom.len() < 1024 * 1024 {
            0
        } else if rom.len() == 1024 * 1024 {
            if self.multi_cart {
                ((self.ram_bank_n & 0b0011) << 4u8) as usize
            } else {
                ((self.ram_bank_n & 0b0001) << 5u8) as usize
            }
        } else {
            ((self.ram_bank_n & 0b0011) << 5u8) as usize
        }
    }

    fn high_bank_n(&self, rom: &[u8]) -> (r: usize)
        requires
            rom_size_ok(rom@.len()),
        ensures
            r == high_bank(self.view(), rom@.len()),
    {
        if rom.len() < 1024 * 1024 {
            self.rom_bank_n as usize
        } else if rom.len() == 1024 * 1024 {
            if self.multi_cart {
                (((self.ram_bank_n & 0b0011) << 4u8) | (self.rom_bank_n & 0b1100_1111)) as usize
            } else {
                (((self.ram_bank_n & 0b0001) << 5u8) | (self.rom_bank_n & 0b1101_1111)) as usize
            }
        } else {
            (((self.ram_bank_n & 0b0011) << 5u8) | (self.rom_bank_n & 0b1001_1111)) as usize
        }
    }

    fn ram_idx(&self, ram: &[u8], address: u16) -> (r: usize)
        requires
            ram_size_ok(ram@.len()),
        ensures
            r == ram_index(self.view(), ram@.len(), address),
    {
        if ram.len() == 2 * 1024 || ram.len() == 8 * 1024 {
            address as usize % ram.len()
        } else if self.mode {
            let ram_bank_n: usize = self.ram_bank_n as usize;
            address as usize + 0x2000 * ram_bank_n
        } else {
            address as usize
        }
    }
}

impl super::MBC for MBC {
    open spec fn rom_readable(&self, len: nat) -> bool {
        rom_size_ok(len)
    }

    open spec fn rom_writable(&self, len: nat) -> bool {
        rom_size_ok(len) && len >= 0x4000
    }

    open spec fn ram_accessible(&self, len: nat, address: u16) -> bool {
        ram_size_ok(len) && ram_index(self.view(), len, address) < len
    }

    fn has_rtc(&self) -> (r: bool)
        ensures
            !r,
    {
        false
    }

    fn has_rumble(&self) -> (r: bool)
        ensures
            !r,
    {
        false
    }

    fn has_ram(&self) -> (r: bool)
        ensures
            r == self.view().ram,
    {
        self.ram
    }

    fn ram_is_battery_buffered(&self) -> (r: bool)
        ensures
            r == self.view().battery,
    {
        self.battery
    }




    /// The byte at `address` of the window at 0x0000: bank 0, or in banking mode 1 the bank
    /// the RAM bank register selects on large ROMs.
    fn read_rom_bank_0(&self, rom: &[u8], address: u16) -> (r: u8)
        ensures
            r == byte_or_ff(rom@, if self.view().mode { address + 0x4000 * zero_bank(self.view(), rom@.len()) } else { address as int }),
    {
        let idx: usize = if self.mode {
            let zero_bank_n: usize = self.zero_bank_n(rom);
            address as usize + 0x4000 * zero_bank_n
        } else {
            address as usize
        };
        if idx < rom.len() { rom[idx] } else { 0xFF }
    }

    /// The byte at `address` of the window at 0x4000.
    fn read_rom_bank_n(&self, rom: &[u8], address: u16) -> (r: u8)
        ensures
            r == byte_or_ff(rom@, address + 0x4000 * high_bank(self.view(), rom@.len())),
    {
        let high_bank_n: usize = self.high_bank_n(rom);
        let idx: usize = address as usize + 0x4000 * high_bank_n;
        if idx < rom.len() { rom[idx] } else { 0xFF }
    }

    /// A write to the ROM window sets a register: RAM enable, ROM bank, RAM bank or banking
    /// mode.
    fn write_rom(&mut self, rom: &[u8], address: u16, value: u8)
        ensures
            final(self).view() == after_write(old(self).view(), rom@.len(), address, value),
            old(self).view().ram_bank_n <= 3 ==> final(self).view().ram_bank_n <= 3,
    {
        assert(value & 0b0011 <= 3) by (bit_vector);
        if address <= 0x1FFF {
            self.ram_enabled = value & 0xF == 0xA;
        } else if address <= 0x3FFF {
            let nb_banks: u8 = (rom.len() / (16 * 1024)) as u8;
            if value & 0b0001_1111 == 0 {
                self.rom_bank_n = 1;
            } else {
                self.rom_bank_n = value % nb_banks;
            }
        } else if address <= 0x5FFF {
            self.ram_bank_n = value & 0b0011;
        } else if address <= 0x7FFF {
            self.mode = value & 0b001 != 0;
        }
    }

    /// The byte at `address` of the RAM window, 0xFF while the RAM is disabled.
    fn read_ram(&self, ram: &[u8], address: u16) -> (r: u8)
        ensures
            r == if self.view().ram_enabled { ram@[ram_index(self.view(), ram@.len(), address)] } else { 0xFF },
    {
        let idx: usize = self.ram_idx(ram, address);
        if self.ram_enabled { ram[idx] } else { 0xFF }
    }

    /// Writes the byte at `address` of the RAM window, unless the RAM is disabled.
    fn write_ram(&self, ram: &mut Vec<u8>, address: u16, value: u8)
        ensures
            final(ram)@ == if self.view().ram_enabled {
                old(ram)@.update(ram_index(self.view(), old(ram)@.len(), address), value)
            } else {
                old(ram)@
            },
    {
        let idx: usize = self.ram_idx(ram.as_slice(), address);
        if self.ram_enabled {
            ram.set(idx, value);
        }
    }

    /// A name for the controller.
    fn str(&self) -> (r: &'static str)
        ensures
            r@ == (if self.view().multi_cart {
                if self.view().ram && self.view().battery { "MBC1M (Battery-buffered RAM)"@ }
                else if self.view().ram { "MBC1M (RAM)"@ } else { "MBC1M (No RAM)"@ }
            } else {
                if self.view().ram && self.view().battery { "MBC1 (Battery-buffered RAM)"@ }
                else if self.view().ram { "MBC1 (RAM)"@ } else { "MBC1 (No RAM)"@ }
            }),
    {
        if self.multi_cart {
            if self.ram && self.battery { "MBC1M (Battery-buffered RAM)" } else if self.ram { "MBC1M (RAM)" } else { "MBC1M (No RAM)" }
        } else {
            if self.ram && self.battery { "MBC1 (Battery-buffered RAM)" } else if self.ram { "MBC1 (RAM)" } else { "MBC1 (No RAM)" }
        }
    }
}

} // verus!
