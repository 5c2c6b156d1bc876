use vstd::prelude::*;

verus! {

/// The register file as plain values.
pub struct RegistersView {
    pub a: u8,
    pub b: u8,
    pub c: u8,
    pub d: u8,
    pub e: u8,
    pub f: u8,
    pub h: u8,
    pub l: u8,
    pub pc: u16,
    pub sp: u16,
}

/// Position of the zero flag in F.
pub const Z_POS: u8 = 7;
/// Position of the subtraction flag in F.
pub const N_POS: u8 = 6;
/// Position of the half-carry flag in F.
pub const H_POS: u8 = 5;
/// Position of the carry flag in F.
pub const C_POS: u8 = 4;

/// Whether bit `pos` of `f` is set.
pub open spec fn flag_bit(f: u8, pos: u8) -> bool {
    (f >> pos) & 1 == 1
}

/// `f` with bit `pos` set to `value`.
pub open spec fn with_flag_bit(f: u8, pos: u8, value: bool) -> u8 {
    if value { f | (1u8 << pos) } else { f & !(1u8 << pos) }
}

/// The 16-bit value of a register pair, `msb` being the high byte.
pub open spec fn pair(msb: u8, lsb: u8) -> u16 {
    (msb * 256 + lsb) as u16
}

/// High byte of a 16-bit value.
pub open spec fn msb(value: u16) -> u8 {
    (value / 256) as u8
}

/// Low byte of a 16-bit value.
pub open spec fn lsb(value: u16) -> u8 {
    (value % 256) as u8
}

impl RegistersView {
    pub open spec fn zf(self) -> bool { flag_bit(self.f, Z_POS) }
    pub open spec fn nf(self) -> bool { flag_bit(self.f, N_POS) }
    pub open spec fn hf(self) -> bool { flag_bit(self.f, H_POS) }
    pub open spec fn cf(self) -> bool { flag_bit(self.f, C_POS) }
    pub open spec fn af(self) -> u16 { pair(self.a, self.f) }
    pub open spec fn bc(self) -> u16 { pair(self.b, self.c) }
    pub open spec fn de(self) -> u16 { pair(self.d, self.e) }
    pub open spec fn hl(self) -> u16 { pair(self.h, self.l) }
}

/// The registers of the CPU. The low nibble of F does not exist in hardware and always reads 0.
#[derive(Debug, Clone, Copy, PartialEq, Eq, Hash)]
pub struct Registers {
    a: u8,
    b: u8,
    c: u8,
    d: u8,
    e: u8,
    f: u8,
    h: u8,
    l: u8,
    pc: u16,
    sp: u16,
}

impl View for Registers {
    type V = RegistersView;

    closed spec fn view(&self) -> RegistersView {
        RegistersView { a: self.a, b: self.b, c: self.c, d: self.d, e: self.e, f: self.f, h: self.h, l: self.l, pc: self.pc, sp: self.sp }
    }
}

impl Registers {
    /// The low nibble of F is always clear.
    #[verifier::type_invariant]
    closed spec fn wf(&self) -> bool {
        self.f % 16 == 0
    }

    /// All registers at zero.
    pub fn new() -> (r: Self)
        ensures
            r@ == (RegistersView { a: 0, b: 0, c: 0, d: 0, e: 0, f: 0, h: 0, l: 0, pc: 0, sp: 0 }),
    {
        Self { a: 0, b: 0, c: 0, d: 0, e: 0, f: 0, h: 0, l: 0, pc: 0, sp: 0 }
    }

    pub fn a(&self) -> (r: u8) ensures r == self@.a { self.a }
    pub fn b(&self) -> (r: u8) ensures r == self@.b { self.b }
    pub fn c(&self) -> (r: u8) ensures r == self@.c { self.c }
    pub fn d(&self) -> (r: u8) ensures r == self@.d { self.d }
    pub fn e(&self) -> (r: u8) ensures r == self@.e { self.e }
    pub fn h(&self) -> (r: u8) ensures r == self@.h { self.h }
    pub fn l(&self) -> (r: u8) ensures r == self@.l { self.l }
    pub fn f(&self) -> (r: u8) ensures r == self@.f { self.f }
    pub fn sp(&self) -> (r: u16) ensures r == self@.sp { self.sp }
    pub fn pc(&self) -> (r: u16) ensures r == self@.pc { self.pc }

    pub fn set_a(&mut self, value: u8)
        ensures final(self)@ == (RegistersView { a: value, ..old(self)@ }),
    {
        proof { use_type_invariant(&*self); } self.a = value; }

    pub fn set_b(&mut self, value: u8)
        ensures final(self)@ == (RegistersView { b: value, ..old(self)@ }),
    {
        proof { use_type_invariant(&*self); } self.b = value; }

    pub fn set_c(&mut self, value: u8)
        ensures final(self)@ == (RegistersView { c: value, ..old(self)@ }),
    {
        proof { use_type_invariant(&*self); } self.c = value; }

    pub fn set_d(&mut self, value: u8)
        ensures final(self)@ == (RegistersView { d: value, ..old(self)@ }),
    {
        proof { use_type_invariant(&*self); } self.d = value; }

    pub fn set_e(&mut self, value: u8)
        ensures final(self)@ == (RegistersView { e: value, ..old(self)@ }),
    {
        proof { use_type_invariant(&*self); } self.e = value; }

    pub fn set_h(&mut self, value: u8)
        ensures final(self)@ == (RegistersView { h: value, ..old(self)@ }),
    {
        proof { use_type_invariant(&*self); } self.h = value; }

    pub fn set_l(&mut self, value: u8)
        ensures final(self)@ == (RegistersView { l: value, ..old(self)@ }),
    {
        proof { use_type_invariant(&*self); } self.l = value; }

    /// Sets F; its low nibble cannot be set.
    pub fn set_f(&mut self, value: u8)
        ensures final(self)@ == (RegistersView { f: (value - value % 16) as u8, ..old(self)@ }),
    {
        proof { use_type_invariant(&*self); }
        let masked: u8 = value & 0xF0;
        assert(masked == value - value % 16 && masked % 16 == 0) by (bit_vector)
            requires masked == value & 0xF0;
        self.f = masked;
    }

    pub fn set_sp(&mut self, value: u16)
        ensures final(self)@ == (RegistersView { sp: value, ..old(self)@ }),
    {
        proof { use_type_invariant(&*self); } self.sp = value; }

    pub fn set_pc(&mut self, value: u16)
        ensures final(self)@ == (RegistersView { pc: value, ..old(self)@ }),
    {
        proof { use_type_invariant(&*self); } self.pc = value; }

    pub fn af(&self) -> (r: u16) ensures r == self@.af() { (self.a as u16) * 256 + (self.f as u16) }
    pub fn bc(&self) -> (r: u16) ensures r == self@.bc() { (self.b as u16) * 256 + (self.c as u16) }
    pub fn de(&self) -> (r: u16) ensures r == self@.de() { (self.d as u16) * 256 + (self.e as u16) }
    pub fn hl(&self) -> (r: u16) ensures r == self@.hl() { (self.h as u16) * 256 + (self.l as u16) }

    /// Sets A and F from a 16-bit value; the low nibble of F stays clear.
    pub fn set_af(&mut self, value: u16)
        ensures
            final(self)@ == (RegistersView { a: msb(value), f: (lsb(value) - lsb(value) % 16) as u8, ..old(self)@ }),
    {
        proof { use_type_invariant(&*self); }
        self.a = (value / 256) as u8;
        self.set_f((value % 256) as u8);
    }

    pub fn set_bc(&mut self, value: u16)
        ensures final(self)@ == (RegistersView { b: msb(value), c: lsb(value), ..old(self)@ }),
    {
        proof { use_type_invariant(&*self); }
        self.b = (value / 256) as u8;
        self.c = (value % 256) as u8;
    }

    pub fn set_de(&mut self, value: u16)
        ensures final(self)@ == (RegistersView { d: msb(value), e: lsb(value), ..old(self)@ }),
    {
        proof { use_type_invariant(&*self); }
        self.d = (value / 256) as u8;
        self.e = (value % 256) as u8;
    }

    pub fn set_hl(&mut self, value: u16)
        ensures final(self)@ == (RegistersView { h: msb(value), l: lsb(value), ..old(self)@ }),
    {
        proof { use_type_invariant(&*self); }
        self.h = (value / 256) as u8;
        self.l = (value % 256) as u8;
    }

    pub fn zf(&self) -> (r: bool) ensures r == self@.zf() { (self.f >> 7u8) & 1 == 1 }
    pub fn nf(&self) -> (r: bool) ensures r == self@.nf() { (self.f >> 6u8) & 1 == 1 }
    pub fn hf(&self) -> (r: bool) ensures r == self@.hf() { (self.f >> 5u8) & 1 == 1 }
    pub fn cf(&self) -> (r: bool) ensures r == self@.cf() { (self.f >> 4u8) & 1 == 1 }

    /// Sets or clears the flag at bit `pos` (one of 4 to 7) of F.
    fn write_flag(&mut self, pos: u8, value: bool)
        requires
            4 <= pos < 8,
        ensures
            final(self)@ == (RegistersView { f: with_flag_bit(old(self)@.f, pos, value), ..old(self)@ }),
    {
        proof { use_type_invariant(&*self); }
        let f: u8 = self.f;
        let new_f: u8 = if value { f | (1u8 << pos) } else { f & !(1u8 << pos) };
        assert(new_f % 16 == 0) by (bit_vector)
            requires
                f % 16 == 0,
                4 <= pos < 8,
                new_f == f | (1u8 << pos) || new_f == f & !(1u8 << pos);
        self.f = new_f;
    }

    pub fn set_zf(&mut self, value: bool)
        ensures final(self)@ == (RegistersView { f: with_flag_bit(old(self)@.f, Z_POS, value), ..old(self)@ }),
    {
        proof { use_type_invariant(&*self); } self.write_flag(Z_POS, value) }

    pub fn set_nf(&mut self, value: bool)
        ensures final(self)@ == (RegistersView { f: with_flag_bit(old(self)@.f, N_POS, value), ..old(self)@ }),
    {
        proof { use_type_invariant(&*self); } self.write_flag(N_POS, value) }

    pub fn set_hf(&mut self, value: bool)
        ensures final(self)@ == (RegistersView { f: with_flag_bit(old(self)@.f, H_POS, value), ..old(self)@ }),
    {
        proof { use_type_invariant(&*self); } self.write_flag(H_POS, value) }

    pub fn set_cf(&mut self, value: bool)
        ensures final(self)@ == (RegistersView { f: with_flag_bit(old(self)@.f, C_POS, value), ..old(self)@ }),
    {
        proof { use_type_invariant(&*self); } self.write_flag(C_POS, value) }
}

impl Default for Registers {
    fn default() -> (r: Self)
        ensures
            r@ == (RegistersView { a: 0, b: 0, c: 0, d: 0, e: 0, f: 0, h: 0, l: 0, pc: 0, sp: 0 }),
    {
        Self::new()
    }
}

/// Writing a register pair then reading it gives the value back (AF loses the low nibble of F).
pub proof fn lemma_pair_roundtrip(value: u16)
    ensures
        pair(msb(value), lsb(value)) == value,
        pair(msb(value), (lsb(value) - lsb(value) % 16) as u8) == value - value % 16,
{
}

/// Setting a flag makes it read back as set, and leaves the other flags and the low nibble alone.
pub proof fn lemma_flag_roundtrip(f: u8, pos: u8, other: u8, value: bool)
    requires
        4 <= pos < 8,
        other < 8,
        other != pos,
    ensures
        flag_bit(with_flag_bit(f, pos, value), pos) == value,
        flag_bit(with_flag_bit(f, pos, value), other) == flag_bit(f, other),
        f % 16 == 0 ==> with_flag_bit(f, pos, value) % 16 == 0,
{
    assert(flag_bit(with_flag_bit(f, pos, value), pos) == value) by (bit_vector)
        requires pos < 8;
    assert(flag_bit(with_flag_bit(f, pos, value), other) == flag_bit(f, other)) by (bit_vector)
        requires pos < 8, other < 8, other != pos;
    assert(f % 16 == 0 ==> with_flag_bit(f, pos, value) % 16 == 0) by (bit_vector)
        requires 4 <= pos < 8;
}

} // verus!
