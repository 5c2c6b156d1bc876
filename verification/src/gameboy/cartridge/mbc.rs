use vstd::prelude::*;

pub mod mbc1;
pub mod mbc5;
pub mod none;

verus! {

/// A memory bank controller: it maps the ROM and the RAM of a cartridge into the address
/// space, and is driven by writes to the ROM window.
pub trait MBC {
    /// Whether the controller can read a ROM of `len` bytes.
    spec fn rom_readable(&self, len: nat) -> bool;

    /// Whether the controller can take a write to its registers with a ROM of `len` bytes.
    spec fn rom_writable(&self, len: nat) -> bool;

    /// Whether the controller can reach `address` of the RAM window in a RAM of `len` bytes.
    spec fn ram_accessible(&self, len: nat, address: u16) -> bool;

    fn has_ram(&self) -> bool;

    fn ram_is_battery_buffered(&self) -> bool;

    fn has_rtc(&self) -> bool;

    fn has_rumble(&self) -> bool;

    fn read_rom_bank_0(&self, rom: &[u8], address: u16) -> u8
        requires
            self.rom_readable(rom@.len()),
    ;

    fn read_rom_bank_n(&self, rom: &[u8], address: u16) -> u8
        requires
            self.rom_readable(rom@.len()),
    ;

    fn write_rom(&mut self, rom: &[u8], address: u16, value: u8)
        requires
            old(self).rom_writable(rom@.len()),
    ;

    fn read_ram(&self, ram: &[u8], address: u16) -> u8
        requires
            self.ram_accessible(ram@.len(), address),
    ;

    fn write_ram(&self, ram: &mut Vec<u8>, address: u16, value: u8)
        requires
            self.ram_accessible(old(ram)@.len(), address),
    ;

    fn str(&self) -> &'static str;
}

/// The controller of a cartridge, whichever it is.
#[derive(Debug, Clone, Copy, PartialEq, Eq, Hash)]
pub enum Controller {
    NoMbc(none::MBC),
    Mbc1(mbc1::MBC),
    Mbc5(mbc5::Mbc),
}

/// No controller, with or without RAM.
pub fn new_none(ram: bool, battery: bool) -> (r: Controller)
    ensures
        r matches Controller::NoMbc(m) && m.spec_ram() == ram && m.spec_battery() == battery,
{
    Controller::NoMbc(none::MBC::new(ram, battery))
}

/// An MBC1 at power on.
pub fn new_mbc1(ram: bool, battery: bool, multi_cart: bool) -> (r: Controller)
    ensures
        r matches Controller::Mbc1(m) && m.view() == (mbc1::Mbc1View { ram, battery, multi_cart, ram_enabled: false,
            rom_bank_n: 1, ram_bank_n: 0, mode: false }),
{
    Controller::Mbc1(mbc1::MBC::new(ram, battery, multi_cart))
}

/// An MBC5 at power on.
pub fn new_mbc5(ram: bool, battery: bool, rumble: bool) -> (r: Controller)
    ensures
        r matches Controller::Mbc5(m) && m.view() == (mbc5::Mbc5View { ram, battery_buffered_ram: battery, rumble,
            ram_enabled: false, rom_bank_n: 1, ram_bank_n: 0, rumble_enabled: false }),
{
    Controller::Mbc5(mbc5::Mbc::new(ram, battery, rumble))
}

} // verus!
