use vstd::prelude::*;

use super::super::registers::Registers;

verus! {

/// A branch condition on the flags, checked by conditional jumps, calls and returns.
pub trait Condition {
    const STR: &'static str;

    fn is_none() -> bool;

    fn check(registers: &Registers) -> bool;
}

/// No condition: the branch is always taken.
#[derive(Default, Debug, Clone, Copy, PartialEq, Eq, Hash)]
pub struct Always {}

impl Condition for Always {
    const STR: &'static str = "";

    fn is_none() -> (r: bool) ensures r { true }

    fn check(registers: &Registers) -> (r: bool) ensures r { true }
}

/// Taken when Z is clear.
#[derive(Default, Debug, Clone, Copy, PartialEq, Eq, Hash)]
pub struct NZ {}

impl Condition for NZ {
    const STR: &'static str = "NZ";

    fn is_none() -> (r: bool) ensures !r { false }

    fn check(registers: &Registers) -> (r: bool) ensures r == !registers@.zf() { !registers.zf() }
}

/// Taken when Z is set.
#[derive(Default, Debug, Clone, Copy, PartialEq, Eq, Hash)]
pub struct Z {}

impl Condition for Z {
    const STR: &'static str = "Z";

    fn is_none() -> (r: bool) ensures !r { false }

    fn check(registers: &Registers) -> (r: bool) ensures r == registers@.zf() { registers.zf() }
}

/// Taken when C is clear.
#[derive(Default, Debug, Clone, Copy, PartialEq, Eq, Hash)]
pub struct NC {}

impl Condition for NC {
    const STR: &'static str = "NC";

    fn is_none() -> (r: bool) ensures !r { false }

    fn check(registers: &Registers) -> (r: bool) ensures r == !registers@.cf() { !registers.cf() }
}

/// Taken when C is set.
#[derive(Default, Debug, Clone, Copy, PartialEq, Eq, Hash)]
pub struct C {}

impl Condition for C {
    const STR: &'static str = "C";

    fn is_none() -> (r: bool) ensures !r { false }

    fn check(registers: &Registers) -> (r: bool) ensures r == registers@.cf() { registers.cf() }
}

/// The condition carried by a decoded instruction.
#[derive(Debug, Clone, Copy, PartialEq, Eq, Hash, Structural)]
pub enum Cond {
    Always,
    NZ,
    Z,
    NC,
    C,
}

/// Whether `cond` holds for the flags of `regs`.
pub open spec fn spec_check(cond: Cond, regs: super::super::registers::RegistersView) -> bool {
    match cond {
        Cond::Always => true,
        Cond::NZ => !regs.zf(),
        Cond::Z => regs.zf(),
        Cond::NC => !regs.cf(),
        Cond::C => regs.cf(),
    }
}

impl Cond {
    /// Checks the condition against the flags.
    pub fn check(&self, registers: &Registers) -> (r: bool)
        ensures
            r == spec_check(*self, registers@),
    {
        match self {
            Cond::Always => <Always as Condition>::check(registers),
            Cond::NZ => <NZ as Condition>::check(registers),
            Cond::Z => <Z as Condition>::check(registers),
            Cond::NC => <NC as Condition>::check(registers),
            Cond::C => <C as Condition>::check(registers),
        }
    }

    /// Mnemonic of the condition (empty when the branch is unconditional).
    pub fn str(&self) -> (r: &'static str)
        ensures
            r@ == match *self {
                Cond::Always => ""@,
                Cond::NZ => "NZ"@,
                Cond::Z => "Z"@,
                Cond::NC => "NC"@,
                Cond::C => "C"@,
            },
    {
        match self {
            Cond::Always => "",
            Cond::NZ => "NZ",
            Cond::Z => "Z",
            Cond::NC => "NC",
            Cond::C => "C",
        }
    }
}

} // verus!
