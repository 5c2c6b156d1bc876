use vstd::prelude::*;

verus! {

/// The interrupt sources, from the highest priority to the lowest.
#[derive(Debug, Clone, Copy, PartialEq, Eq, PartialOrd, Ord, Hash, Structural)]
pub enum Kind {
    VBlank,
    Stat,
    Timer,
    Serial,
    Joypad,
}

/// Bit of the IE and IF registers that belongs to `kind`.
pub open spec fn spec_bit(kind: Kind) -> u8 {
    match kind {
        Kind::VBlank => 1,
        Kind::Stat => 2,
        Kind::Timer => 4,
        Kind::Serial => 8,
        Kind::Joypad => 16,
    }
}

/// Address of the handler the CPU jumps to for `kind`.
pub open spec fn spec_vector(kind: Kind) -> u16 {
    match kind {
        Kind::VBlank => 0x40,
        Kind::Stat => 0x48,
        Kind::Timer => 0x50,
        Kind::Serial => 0x58,
        Kind::Joypad => 0x60,
    }
}

impl Kind {
    /// Bit of the IE and IF registers that belongs to this source.
    pub fn bit(&self) -> (r: u8)
        ensures
            r == spec_bit(*self),
    {
        match self {
            Kind::VBlank => 1,
            Kind::Stat => 2,
            Kind::Timer => 4,
            Kind::Serial => 8,
            Kind::Joypad => 16,
        }
    }

    /// Address of the handler of this source.
    pub fn vector(&self) -> (r: u16)
        ensures
            r == spec_vector(*self),
    {
        match self {
            Kind::VBlank => 0x40,
            Kind::Stat => 0x48,
            Kind::Timer => 0x50,
            Kind::Serial => 0x58,
            Kind::Joypad => 0x60,
        }
    }
}

/// The interrupt of highest priority among the pending bits `pending`.
pub open spec fn spec_highest_priority(pending: u8) -> Option<Kind> {
    if pending & 1 != 0 {
        Some(Kind::VBlank)
    } else if pending & 2 != 0 {
        Some(Kind::Stat)
    } else if pending & 4 != 0 {
        Some(Kind::Timer)
    } else if pending & 8 != 0 {
        Some(Kind::Serial)
    } else if pending & 16 != 0 {
        Some(Kind::Joypad)
    } else {
        None
    }
}

/// A line on which devices request interrupts and the CPU takes them.
pub trait Line {
    fn highest_priority(&self) -> Option<Kind>;
    fn ack(&mut self, kind: Kind);
    fn request(&mut self, kind: Kind);
    fn flags_not_empty(&self) -> bool;
}

/// The IE (enable) and IF (flags) registers. Only their five low bits exist.
#[derive(Debug, Clone, Copy, PartialEq, Eq, Hash)]
pub struct Interrupt {
    interrupt_enable: u8,
    interrupt_flags: u8,
}

impl Interrupt {
    /// IE, the enabled interrupts.
    pub closed spec fn spec_enable(&self) -> u8 {
        self.interrupt_enable
    }

    /// IF, the requested interrupts.
    pub closed spec fn spec_flags(&self) -> u8 {
        self.interrupt_flags
    }

    /// Only the five low bits of IE and IF exist.
    #[verifier::type_invariant]
    closed spec fn wf(&self) -> bool {
        self.interrupt_enable < 32 && self.interrupt_flags < 32
    }

    /// Requested and enabled interrupts.
    pub open spec fn pending(&self) -> u8 {
        self.spec_enable() & self.spec_flags()
    }


    /// No interrupt enabled nor requested.
    pub fn new() -> (r: Self)
        ensures
            r.spec_enable() == 0,
            r.spec_flags() == 0,
    {
        Self { interrupt_enable: 0, interrupt_flags: 0 }
    }

    /// Reads IE; the three unused bits read as 1.
    pub fn enable(&self) -> (r: u8)
        ensures
            r == self.spec_enable() | 0xE0,
    {
        self.interrupt_enable | 0b11100000
    }

    /// Writes IE; the three unused bits are dropped.
    pub fn set_enable(&mut self, value: u8)
        ensures
            final(self).spec_enable() == value & 0x1F,
            final(self).spec_flags() == old(self).spec_flags(),
    {
        proof { use_type_invariant(&*self); }
        let v: u8 = value & 0b11111;
        assert(v < 32) by (bit_vector) requires v == value & 0x1F;
        self.interrupt_enable = v;
    }

    /// Reads IF; the three unused bits read as 1.
    pub fn flags(&self) -> (r: u8)
        ensures
            r == self.spec_flags() | 0xE0,
    {
        self.interrupt_flags | 0b11100000
    }

    /// Writes IF; the three unused bits are dropped.
    pub fn set_flags(&mut self, value: u8)
        ensures
            final(self).spec_flags() == value & 0x1F,
            final(self).spec_enable() == old(self).spec_enable(),
    {
        proof { use_type_invariant(&*self); }
        let v: u8 = value & 0b11111;
        assert(v < 32) by (bit_vector) requires v == value & 0x1F;
        self.interrupt_flags = v;
    }
}

impl Line for Interrupt {
    /// The requested and enabled interrupt of highest priority (VBlank first, Joypad last).
    fn highest_priority(&self) -> (r: Option<Kind>)
        ensures
            r == spec_highest_priority(self.pending()),
    {
        let interrupt_result: u8 = self.interrupt_enable & self.interrupt_flags;
        if interrupt_result & 1 != 0 {
            Some(Kind::VBlank)
        } else if interrupt_result & 2 != 0 {
            Some(Kind::Stat)
        } else if interrupt_result & 4 != 0 {
            Some(Kind::Timer)
        } else if interrupt_result & 8 != 0 {
            Some(Kind::Serial)
        } else if interrupt_result & 16 != 0 {
            Some(Kind::Joypad)
        } else {
            None
        }
    }

    /// Acknowledges an interrupt: clears its request.
    fn ack(&mut self, kind: Kind)
        ensures
            final(self).spec_flags() == old(self).spec_flags() & !spec_bit(kind),
            final(self).spec_enable() == old(self).spec_enable(),
    {
        let bit: u8 = kind.bit();
        proof { use_type_invariant(&*self); }
        let f: u8 = self.interrupt_flags;
        let v: u8 = f & !bit;
        assert(v < 32) by (bit_vector) requires f < 32, v == f & !bit;
        self.interrupt_flags = v;
    }

    /// Requests an interrupt.
    fn request(&mut self, kind: Kind)
        ensures
            final(self).spec_flags() == old(self).spec_flags() | spec_bit(kind),
            final(self).spec_enable() == old(self).spec_enable(),
    {
        let bit: u8 = kind.bit();
        proof { use_type_invariant(&*self); }
        let f: u8 = self.interrupt_flags;
        let v: u8 = f | bit;
        assert(v < 32) by (bit_vector) requires f < 32, bit == 1 || bit == 2 || bit == 4 || bit == 8 || bit == 16, v == f | bit;
        self.interrupt_flags = v;
    }

    /// Whether any interrupt is requested, enabled or not.
    fn flags_not_empty(&self) -> (r: bool)
        ensures
            r == (self.spec_flags() & 0x1F != 0),
    {
        self.interrupt_flags & 0b11111 != 0
    }
}

/// A requested and enabled interrupt is taken unless one of higher priority is pending, and
/// acknowledging the highest one leaves the others requested.
pub proof fn lemma_request_then_highest(flags: u8, enable: u8, kind: Kind)
    requires
        enable & spec_bit(kind) != 0,
    ensures
        spec_highest_priority(enable & (flags | spec_bit(kind))) is Some,
{
    let b = spec_bit(kind);
    assert(enable & (flags | b) != 0) by (bit_vector)
        requires enable & b != 0;
    assert(b == 1 || b == 2 || b == 4 || b == 8 || b == 16);
    let p = enable & (flags | b);
    assert(p & b != 0) by (bit_vector) requires enable & b != 0, p == enable & (flags | b);
}

/// Acknowledging the interrupt of highest priority removes it from the pending ones.
pub proof fn lemma_ack_clears(flags: u8, enable: u8)
    requires
        spec_highest_priority(enable & flags) is Some,
    ensures
        (enable & (flags & !spec_bit(spec_highest_priority(enable & flags)->0))) & spec_bit(spec_highest_priority(enable & flags)->0) == 0,
{
    let b = spec_bit(spec_highest_priority(enable & flags)->0);
    assert((enable & (flags & !b)) & b == 0) by (bit_vector);
}

/// The five interrupt sources in priority order (VBlank, STAT, timer, serial, joypad) own
/// bits 0 to 4 of IE and IF and jump to 0x40, 0x48, 0x50, 0x58 and 0x60. The source taken
/// is the pending one of lowest bit: its bit is set and no bit below it is.
pub proof fn lemma_interrupt_order(pending: u8, kind: Kind)
    ensures
        ({
            let i: int = match kind { Kind::VBlank => 0, Kind::Stat => 1, Kind::Timer => 2, Kind::Serial => 3, Kind::Joypad => 4 };
            &&& spec_bit(kind) as int == vstd::arithmetic::power2::pow2(i as nat)
            &&& spec_vector(kind) == 0x40 + 8 * i
        }),
        spec_highest_priority(pending) == Some(kind) <==> ((pending / spec_bit(kind)) % 2 == 1 && pending % spec_bit(kind) == 0),
        spec_highest_priority(pending) is None <==> pending % 32 == 0,
{
    vstd::arithmetic::power2::lemma2_to64();
    crate::gameboy::ppu::color::lemma_byte_fields(pending);
}

} // verus!
