use vstd::prelude::*;

use crate::cartridge::str_from_utf8;

verus! {

/// The controllers of this early cartridge reader: only cartridges without one (MBC1
/// cartridges are read as such too).
#[derive(Debug, Clone, Copy, PartialEq, Eq, Hash, Structural)]
pub enum MBC {
    NoMbc,
}

/// A 32 KiB cartridge without controller and without RAM, read straight from its image.
#[derive(Debug)]
#[allow(non_snake_case)]
pub struct Cartbridge {
    title: String,
    mbc: MBC,
    rom: Vec<u8>,
    ram: Option<Vec<u8>>,
    rom_bank0_offset: u16,
    rom_bankN_offset: u16,
}

/// Index of the first NUL byte of `s` from `from`, its length when there is none.
pub open spec fn first_nul(s: Seq<u8>, from: int) -> int
    decreases s.len() - from,
{
    if from >= s.len() { s.len() as int } else if s[from] == 0 { from } else { first_nul(s, from + 1) }
}

/// The title bytes: 0x134 to 0x143, up to the first NUL.
pub open spec fn title_bytes(data: Seq<u8>) -> Seq<u8> {
    let field = data.subrange(0x134, 0x144);
    field.subrange(0, first_nul(field, 0))
}

/// An image this reader takes: 32 KiB, a UTF-8 title, no controller (or an MBC1), ROM size
/// code 0 and RAM size code 0.
pub open spec fn readable(data: Seq<u8>) -> bool {
    &&& data.len() == 0x8000
    &&& vstd::utf8::valid_utf8(title_bytes(data))
    &&& data[0x147] == 0x00 || data[0x147] == 0x01
    &&& data[0x148] == 0x00
    &&& data[0x149] == 0x00
}

impl Cartbridge {
    pub closed spec fn title(&self) -> Seq<char> {
        self.title@
    }

    pub closed spec fn rom(&self) -> Seq<u8> {
        self.rom@
    }

    pub closed spec fn ram(&self) -> Option<Seq<u8>> {
        match self.ram {
            Some(r) => Some(r@),
            None => None,
        }
    }

    /// The ROM is 32 KiB long, there is no RAM, and the two windows show the two halves of the
    /// ROM.
    #[verifier::type_invariant]
    closed spec fn wf(&self) -> bool {
        &&& self.rom@.len() == 0x8000
        &&& self.ram is None
        &&& self.rom_bank0_offset == 0
        &&& self.rom_bankN_offset == 0x4000
    }

    fn title_length(data: &[u8]) -> (r: usize)
        requires
            data@.len() >= 0x150,
        ensures
            r <= 16,
            r == first_nul(data@.subrange(0x134, 0x144), 0),
    {
        let ghost field = data@.subrange(0x134, 0x144);
        let mut i: usize = 0;
        while i < 16 && data[0x134 + i] != 0
            invariant
                data@.len() >= 0x150,
                field == data@.subrange(0x134, 0x144),
                i <= 16,
                first_nul(field, i as int) == first_nul(field, 0),
            decreases 16 - i,
        {
            i = i + 1;
        }
        i
    }

    /// Reads a cartridge from its image.
    pub fn from(data: Vec<u8>) -> (r: Self)
        requires
            readable(data@),
        ensures
            r.title() == vstd::utf8::decode_utf8(title_bytes(data@)),
            r.rom() == data@,
            r.ram() is None,
    {
        let size: usize = Self::title_length(data.as_slice());
        let title = match str_from_utf8(&data.as_slice()[0x134..0x134 + size]) {
            Some(s) => String::from_str(s),
            None => String::new(),
        };
        proof {
            assert(data@.subrange(0x134, 0x134 + size as int) =~= title_bytes(data@));
        }
        Cartbridge { title, mbc: MBC::NoMbc, rom: data, ram: None, rom_bank0_offset: 0x0, rom_bankN_offset: 0x4000 }
    }

    /// The byte at `address` of the window at 0x0000.
    pub fn read_rom_bank0(&self, address: u16) -> (r: u8)
        requires
            address < 0x8000,
        ensures
            self.rom().len() == 0x8000,
            r == self.rom()[address as int],
    {
        proof { use_type_invariant(self); }
        self.rom[(address + self.rom_bank0_offset) as usize]
    }

    /// The byte at `address` of the window at 0x4000.
    #[allow(non_snake_case)]
    pub fn read_rom_bankN(&self, address: u16) -> (r: u8)
        requires
            address < 0x4000,
        ensures
            self.rom().len() == 0x8000,
            r == self.rom()[address + 0x4000],
    {
        proof { use_type_invariant(self); }
        self.rom[(address + self.rom_bankN_offset) as usize]
    }

    /// The byte at `address` of the RAM window: 0xFF, there is no RAM.
    pub fn read_ram(&self, address: u16) -> (r: u8)
        ensures
            r == 0xFF,
    {
        proof { use_type_invariant(self); }
        match &self.ram {
            Some(ram) => if (address as usize) < ram.len() { ram[address as usize] } else { 0xFF },
            None => 0xFF,
        }
    }

    /// A write to the RAM window, which has nothing behind it.
    pub fn write_ram(&mut self, address: u16, value: u8)
        ensures
            final(self).rom() == old(self).rom(),
            final(self).ram() == old(self).ram(),
            final(self).title() == old(self).title(),
    {
        proof { use_type_invariant(&*self); }
    }
}

} // verus!
