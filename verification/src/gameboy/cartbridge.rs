use vstd::prelude::*;

use crate::cartridge::{spec_is_multi_cart, spec_rom_size, Kind};
use super::cartridge::mbc::mbc1::{ram_size_ok, Mbc1View};
use super::cartridge::mbc::mbc5::Mbc5View;
use super::cartridge::mbc::{new_mbc1, new_mbc5, new_none, Controller, MBC};
use super::cartridge::{
    ram_ok, spec_read_ram, spec_read_rom_bank_0, spec_read_rom_bank_n, spec_write_ram, spec_write_rom, view_of,
    ControllerView,
};

verus! {

/// A cartridge read straight from its ROM image, without checking the header: the title, the
/// controller that the type byte names, the ROM and a RAM of the size the header gives.
#[derive(Debug)]
pub struct Cartbridge {
    title: String,
    mbc: Controller,
    rom: Vec<u8>,
    ram: Option<Vec<u8>>,
}

/// What `String::from_utf8_lossy` makes of `bytes`.
pub uninterp spec fn lossy_text(bytes: Seq<u8>) -> Seq<char>;

/// Decodes bytes as UTF-8, each invalid sequence replaced by U+FFFD.
///
/// Calls `String::from_utf8_lossy`; the contract claims what its documentation states: valid
/// UTF-8 decodes to its characters. What it gives for other bytes is left to the name
/// `lossy_text`, a function of the bytes alone.
#[verifier::external_body]
fn utf8_lossy(bytes: &[u8]) -> (r: String)
    ensures
        r@ == lossy_text(bytes@),
        vstd::utf8::valid_utf8(bytes@) ==> r@ == vstd::utf8::decode_utf8(bytes@),
{
    String::from_utf8_lossy(bytes).into_owned()
}

/// RAM size announced by the code at 0x149 in this reading of the header, which knows the
/// 2 KiB RAM.
pub open spec fn bridge_ram_size(code: u8) -> Option<usize> {
    if code == 0x00 { Some(0) }
    else if code == 0x01 { Some(0x800) }
    else if code == 0x02 { Some(0x2000) }
    else if code == 0x03 { Some(0x8000) }
    else if code == 0x04 { Some(0x20000) }
    else if code == 0x05 { Some(0x10000) }
    else { None }
}

/// An MBC1 is a multi-cart when its ROM is 1 MiB long and holds the logo in at least three of
/// its four slots.
pub open spec fn bridge_multi_cart(data: Seq<u8>) -> bool {
    data.len() == 0x100000 && spec_is_multi_cart(data)
}

/// The controller at power on that the type byte `code` names.
pub open spec fn bridge_controller(code: u8, data: Seq<u8>) -> Option<ControllerView> {
    let mbc1 = |ram: bool, battery: bool| Some(ControllerView::Mbc1(Mbc1View { ram, battery,
        multi_cart: bridge_multi_cart(data), ram_enabled: false, rom_bank_n: 1, ram_bank_n: 0, mode: false }));
    let mbc5 = |ram: bool, battery: bool, rumble: bool| Some(ControllerView::Mbc5(Mbc5View { ram,
        battery_buffered_ram: battery, rumble, ram_enabled: false, rom_bank_n: 1, ram_bank_n: 0, rumble_enabled: false }));
    if code == 0x00 { Some(ControllerView::NoMbc { ram: false, battery: false }) }
    else if code == 0x01 { mbc1(false, false) }
    else if code == 0x02 { mbc1(true, false) }
    else if code == 0x03 { mbc1(true, true) }
    else if code == 0x19 { mbc5(false, false, false) }
    else if code == 0x1A { mbc5(true, false, false) }
    else if code == 0x1B { mbc5(true, true, false) }
    else if code == 0x1C { mbc5(false, false, true) }
    else if code == 0x1D { mbc5(true, false, true) }
    else if code == 0x1E { mbc5(true, true, true) }
    else { None }
}

/// Whether a controller has RAM.
pub open spec fn controller_has_ram(c: ControllerView) -> bool {
    match c {
        ControllerView::NoMbc { ram, .. } => ram,
        ControllerView::Mbc1(v) => v.ram,
        ControllerView::Mbc5(v) => v.ram,
    }
}

/// Index of the first NUL byte of `s`, its length when there is none.
pub open spec fn nul_position(s: Seq<u8>, from: int) -> int
    decreases s.len() - from,
{
    if from >= s.len() { s.len() as int } else if s[from] == 0 { from } else { nul_position(s, from + 1) }
}

/// The title bytes: 0x134 to 0x143, up to the first NUL.
pub open spec fn bridge_title_bytes(data: Seq<u8>) -> Seq<u8> {
    let field = data.subrange(0x134, 0x144);
    field.subrange(0, nul_position(field, 0))
}

/// The header of `data` can be read this way: it is long enough, its ROM size code is known
/// and matches the image, its RAM size code is known, its type byte names a controller that
/// is available, and that controller has RAM exactly when the header gives a RAM size.
pub open spec fn bridge_readable(data: Seq<u8>) -> bool {
    &&& data.len() >= 0x150
    &&& spec_rom_size(data[0x148]) matches Some(size) && size == data.len()
    &&& bridge_ram_size(data[0x149]) is Some
    &&& bridge_controller(data[0x147], data) matches Some(c)
        && controller_has_ram(c) == (bridge_ram_size(data[0x149])->0 != 0)
}

/// The controller can serve a ROM of `rom_len` bytes and the RAM `ram` (for an MBC1, ROMs up
/// to 1 MiB or of 2 MiB, and RAMs of 2, 8 or 32 KiB).
pub open spec fn bridge_sizes_ok(c: ControllerView, rom_len: nat, ram: Option<Seq<u8>>) -> bool {
    match c {
        ControllerView::NoMbc { .. } => true,
        ControllerView::Mbc1(v) => super::cartridge::mbc::mbc1::rom_size_ok(rom_len) && rom_len >= 0x4000
            && (ram matches Some(r) ==> ram_size_ok(r.len())) && v.ram_bank_n <= 3,
        ControllerView::Mbc5(_) => super::cartridge::mbc::mbc5::rom_size_ok(rom_len),
    }
}

impl Cartbridge {
    pub closed spec fn title(&self) -> Seq<char> {
        self.title@
    }

    pub closed spec fn controller(&self) -> ControllerView {
        view_of(self.mbc)
    }

    pub closed spec fn rom(&self) -> Seq<u8> {
        self.rom@
    }

    pub closed spec fn ram(&self) -> Option<Seq<u8>> {
        match self.ram {
            Some(r) => Some(r@),
            None => None,
        }
    }

    /// The controller can serve the ROM and the RAM.
    pub open spec fn wf(&self) -> bool {
        bridge_sizes_ok(self.controller(), self.rom().len(), self.ram())
    }

    fn title_length(data: &[u8]) -> (r: usize)
        requires
            data@.len() >= 0x150,
        ensures
            r <= 16,
            r == nul_position(data@.subrange(0x134, 0x144), 0),
    {
        let ghost field = data@.subrange(0x134, 0x144);
        let mut i: usize = 0;
        while i < 16 && data[0x134 + i] != 0
            invariant
                data@.len() >= 0x150,
                field == data@.subrange(0x134, 0x144),
                i <= 16,
                nul_position(field, i as int) == nul_position(field, 0),
            decreases 16 - i,
        {
            i = i + 1;
        }
        i
    }

    /// Reads a cartridge from its ROM image.
    pub fn from(data: Vec<u8>) -> (r: Self)
        requires
            bridge_readable(data@),
        ensures
            r.title() == lossy_text(bridge_title_bytes(data@)),
            vstd::utf8::valid_utf8(bridge_title_bytes(data@)) ==> r.title() == vstd::utf8::decode_utf8(bridge_title_bytes(data@)),
            Some(r.controller()) == bridge_controller(data@[0x147], data@),
            r.rom() == data@,
            r.ram() == if bridge_ram_size(data@[0x149])->0 == 0 { None } else {
                Some(Seq::new(bridge_ram_size(data@[0x149])->0 as nat, |i: int| 0u8))
            },
            bridge_sizes_ok(r.controller(), data@.len(), r.ram()) ==> r.wf(),
    {
        let title_size: usize = Self::title_length(data.as_slice());
        let title = utf8_lossy(&data.as_slice()[0x134..0x134 + title_size]);
        proof {
            assert(data@.subrange(0x134, 0x134 + title_size as int)
                =~= bridge_title_bytes(data@));
        }

        let ram_size: usize = match data[0x149] {
            0x00 => 0,
            0x01 => 2 * 1024,
            0x02 => 8 * 1024,
            0x03 => 32 * 1024,
            0x04 => 128 * 1024,
            _ => 64 * 1024,
        };

        let multi_cart: bool = data.len() == 0x100000 && Kind::is_multi_cart(data.as_slice());
        let mbc = match data[0x147] {
            0x00 => new_none(false, false),
            0x01 => new_mbc1(false, false, multi_cart),
            0x02 => new_mbc1(true, false, multi_cart),
            0x03 => new_mbc1(true, true, multi_cart),
            0x19 => new_mbc5(false, false, false),
            0x1A => new_mbc5(true, false, false),
            0x1B => new_mbc5(true, true, false),
            0x1C => new_mbc5(false, false, true),
            0x1D => new_mbc5(true, false, true),
            _ => new_mbc5(true, true, true),
        };

        let ram = if ram_size == 0 {
            None
        } else {
            let mut v: Vec<u8> = Vec::new();
            let mut i: usize = 0;
            while i < ram_size
                invariant
                    i <= ram_size,
                    v@ == Seq::new(i as nat, |k: int| 0u8),
                decreases ram_size - i,
            {
                v.push(0);
                i = i + 1;
            }
            Some(v)
        };
        Cartbridge { title, mbc, rom: data, ram }
    }

    /// The byte at `address` of the window at 0x0000.
    pub fn read_rom_bank_0(&self, address: u16) -> (r: u8)
        requires
            self.wf(),
        ensures
            r == spec_read_rom_bank_0(self.controller(), self.rom(), address),
    {
        let rom = self.rom.as_slice();
        match &self.mbc {
            Controller::NoMbc(m) => m.read_rom_bank_0(rom, address),
            Controller::Mbc1(m) => m.read_rom_bank_0(rom, address),
            Controller::Mbc5(m) => m.read_rom_bank_0(rom, address),
        }
    }

    /// The byte at `address` of the window at 0x4000.
    pub fn read_rom_bank_n(&self, address: u16) -> (r: u8)
        requires
            self.wf(),
        ensures
            r == spec_read_rom_bank_n(self.controller(), self.rom(), address),
    {
        let rom = self.rom.as_slice();
        match &self.mbc {
            Controller::NoMbc(m) => m.read_rom_bank_n(rom, address),
            Controller::Mbc1(m) => m.read_rom_bank_n(rom, address),
            Controller::Mbc5(m) => m.read_rom_bank_n(rom, address),
        }
    }

    /// A write to the ROM window, which drives the controller.
    pub fn write_rom(&mut self, address: u16, value: u8)
        requires
            old(self).wf(),
        ensures
            final(self).wf(),
            final(self).controller() == spec_write_rom(old(self).controller(), old(self).rom().len(), address, value),
            final(self).rom() == old(self).rom(),
            final(self).ram() == old(self).ram(),
            final(self).title() == old(self).title(),
    {
        let mut mbc = self.mbc;
        match &mut mbc {
            Controller::NoMbc(m) => m.write_rom(self.rom.as_slice(), address, value),
            Controller::Mbc1(m) => m.write_rom(self.rom.as_slice(), address, value),
            Controller::Mbc5(m) => m.write_rom(self.rom.as_slice(), address, value),
        }
        self.mbc = mbc;
    }

    /// The byte at `address` of the RAM window: 0xFF without RAM.
    pub fn read_ram(&self, address: u16) -> (r: u8)
        requires
            self.wf(),
            ram_ok(self.controller(), self.ram(), address),
        ensures
            r == spec_read_ram(self.controller(), self.ram(), address),
    {
        match &self.ram {
            Some(ram) => match &self.mbc {
                Controller::NoMbc(m) => m.read_ram(ram.as_slice(), address),
                Controller::Mbc1(m) => m.read_ram(ram.as_slice(), address),
                Controller::Mbc5(m) => m.read_ram(ram.as_slice(), address),
            },
            None => 0xFF,
        }
    }

    /// A write to the RAM window; dropped without RAM.
    pub fn write_ram(&mut self, address: u16, value: u8)
        requires
            old(self).wf(),
            ram_ok(old(self).controller(), old(self).ram(), address),
        ensures
            final(self).wf(),
            final(self).ram() == spec_write_ram(old(self).controller(), old(self).ram(), address, value),
            final(self).controller() == old(self).controller(),
            final(self).rom() == old(self).rom(),
            final(self).title() == old(self).title(),
    {
        let mbc = self.mbc;
        match &mut self.ram {
            Some(ram) => match &mbc {
                Controller::NoMbc(m) => m.write_ram(ram, address, value),
                Controller::Mbc1(m) => m.write_ram(ram, address, value),
                Controller::Mbc5(m) => m.write_ram(ram, address, value),
            },
            None => {},
        }
    }

    /// The title.
    pub fn title_str(&self) -> (r: &str)
        ensures
            r@ == self.title(),
    {
        self.title.as_str()
    }
}

} // verus!
