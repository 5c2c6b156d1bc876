use vstd::prelude::*;

pub mod bootrom;
pub mod cartridge;
pub mod gameboy;

verus! {

} // verus!
