use vstd::prelude::*;

use super::instructions::alu::{bit_of, spec_add8, spec_dec8, spec_inc8, spec_rl, spec_sub8, spec_xor, ALUOpResult};
use super::instructions::implementation::jr::jump_relative;
use super::instructions::operands::{apply_flags, read_register16, read_register8, reg16, reg8, write_flags, R16, R8};
use super::registers::{Registers, RegistersView};

verus! {

/// Where an 8-bit operand of an operation comes from.
#[derive(Debug, Clone, Copy, PartialEq, Eq, Hash, Structural)]
pub enum In8 {
    R8(R8),
    /// A byte already fetched.
    Imm(u8),
}

/// Where a 16-bit operand of an operation comes from.
#[derive(Debug, Clone, Copy, PartialEq, Eq, Hash, Structural)]
pub enum In16 {
    R16(R16),
    /// A word already fetched.
    Imm(u16),
}

pub open spec fn in8(v: RegistersView, x: In8) -> u8 {
    match x {
        In8::R8(r) => reg8(v, r),
        In8::Imm(b) => b,
    }
}

pub open spec fn in16(v: RegistersView, x: In16) -> u16 {
    match x {
        In16::R16(r) => reg16(v, r),
        In16::Imm(w) => w,
    }
}

fn read_byte(registers: &Registers, x: In8) -> (r: u8)
    ensures
        r == in8(registers@, x),
{
    match x {
        In8::R8(r) => read_register8(registers, r),
        In8::Imm(b) => b,
    }
}

fn read_word(registers: &Registers, x: In16) -> (r: u16)
    ensures
        r == in16(registers@, x),
{
    match x {
        In16::R16(r) => read_register16(registers, r),
        In16::Imm(w) => w,
    }
}

/// An 8-bit operation: its result is returned, its flags are written.
#[derive(Debug, Clone, Copy, PartialEq, Eq, Hash, Structural)]
pub enum Operation8 {
    Add(In8, In8),
    Sub(In8, In8),
    Xor(In8, In8),
    Cp(In8, In8),
    Bit(usize, In8),
    Inc(In8),
    Dec(In8),
    Rl(In8),
    RlA,
}

/// ADD as this unit computes it: H is set when the low nibble of `x` plus `y` with its low
/// nibble set overflows a byte.
pub open spec fn spec_add_byte(x: u8, y: u8) -> ALUOpResult<u8> {
    ALUOpResult { value: Some(((x + y) % 256) as u8), zf: Some((x + y) % 256 == 0), nf: Some(false),
        hf: Some(x % 16 + (y | 0xF) > 0xFF), cf: Some(x + y > 0xFF) }
}

/// DEC as this unit computes it: N is cleared.
pub open spec fn spec_dec_byte(x: u8) -> ALUOpResult<u8> {
    ALUOpResult { value: Some(((x + 255) % 256) as u8), zf: Some(x == 1), nf: Some(false), hf: Some(x % 16 == 0), cf: None }
}

/// BIT: Z tells whether the bit is clear; the result is 0.
pub open spec fn spec_bit_test(x: u8, bit: u8) -> ALUOpResult<u8> {
    ALUOpResult { value: Some(0), zf: Some(!bit_of(x, bit)), nf: Some(false), hf: Some(true), cf: None }
}

/// The result and the flags of an 8-bit operation on the registers `v`.
pub open spec fn spec_operation8(op: Operation8, v: RegistersView) -> ALUOpResult<u8> {
    match op {
        Operation8::Add(a, b) => spec_add_byte(in8(v, a), in8(v, b)),
        Operation8::Sub(a, b) => spec_sub8(in8(v, a), in8(v, b), 0),
        Operation8::Xor(a, b) => spec_xor(in8(v, a), in8(v, b)),
        Operation8::Cp(a, b) => ALUOpResult { value: Some(0), ..spec_sub8(in8(v, a), in8(v, b), 0) },
        Operation8::Bit(bit, a) => spec_bit_test(in8(v, a), bit as u8),
        Operation8::Inc(a) => spec_inc8(in8(v, a)),
        Operation8::Dec(a) => spec_dec_byte(in8(v, a)),
        Operation8::Rl(a) => spec_rl(in8(v, a), v.cf()),
        Operation8::RlA => ALUOpResult { zf: Some(false), ..spec_rl(v.a, v.cf()) },
    }
}

/// Writes the flags of `res` and returns its value.
fn commit(registers: &mut Registers, res: ALUOpResult<u8>) -> (r: u8)
    requires
        res.value is Some,
    ensures
        Some(r) == res.value,
        final(registers)@ == apply_flags(old(registers)@, res.zf, res.nf, res.hf, res.cf),
{
    write_flags(registers, res.zf, res.nf, res.hf, res.cf);
    match res.value {
        Some(v) => v,
        None => 0,
    }
}

fn add_byte(x: u8, y: u8) -> (r: ALUOpResult<u8>)
    ensures
        r == spec_add_byte(x, y),
{
    let value: u8 = x.wrapping_add(y);
    let carry = x.checked_add(y).is_none();
    let lx: u8 = x & 0xF;
    let hy: u8 = y | 0xF;
    assert(lx == x % 16) by (bit_vector) requires lx == x & 0xF;
    let half = lx.checked_add(hy).is_none();
    ALUOpResult { value: Some(value), zf: Some(value == 0), nf: Some(false), hf: Some(half), cf: Some(carry) }
}

fn sub_byte(x: u8, y: u8) -> (r: ALUOpResult<u8>)
    ensures
        r == spec_sub8(x, y, 0),
{
    let value: u8 = x.wrapping_sub(y);
    let lx: u8 = x & 0xF;
    let ly: u8 = y & 0xF;
    let d: u8 = lx.wrapping_sub(ly);
    let half = d & 0x10 != 0;
    assert(half == (x % 16 < y % 16)) by (bit_vector)
        requires lx == x & 0xF, ly == y & 0xF, d == lx.wrapping_sub(ly), half == (d & 0x10 != 0);
    ALUOpResult { value: Some(value), zf: Some(value == 0), nf: Some(true), hf: Some(half), cf: Some(x < y) }
}

fn inc_byte(x: u8) -> (r: ALUOpResult<u8>)
    ensures
        r == spec_inc8(x),
{
    let value: u8 = x.wrapping_add(1);
    let lx: u8 = x & 0xF;
    assert(lx == x % 16) by (bit_vector) requires lx == x & 0xF;
    ALUOpResult { value: Some(value), zf: Some(value == 0), nf: Some(false), hf: Some(lx == 0xF), cf: None }
}

fn dec_byte(x: u8) -> (r: ALUOpResult<u8>)
    ensures
        r == spec_dec_byte(x),
{
    let value: u8 = x.wrapping_sub(1);
    let lx: u8 = x & 0xF;
    assert(lx == x % 16) by (bit_vector) requires lx == x & 0xF;
    ALUOpResult { value: Some(value), zf: Some(value == 0), nf: Some(false), hf: Some(lx == 0), cf: None }
}

fn rotate_left(x: u8, carry: bool) -> (r: ALUOpResult<u8>)
    ensures
        r == spec_rl(x, carry),
{
    let cf: u8 = if carry { 1 } else { 0 };
    let value: u8 = (x << 1u8) | cf;
    assert(value == (x * 2) % 256 + cf) by (bit_vector) requires value == (x << 1u8) | cf, cf < 2;
    assert((x & 0x80 != 0) == (x >= 128)) by (bit_vector);
    ALUOpResult { value: Some(value), zf: Some(value == 0), nf: Some(false), hf: Some(false), cf: Some(x & 0x80 != 0) }
}

impl Operation8 {
    /// Runs the operation: writes its flags and returns its result (0 for CP and BIT).
    pub fn execute(&self, registers: &mut Registers) -> (r: u8)
        requires
            *self matches Operation8::Bit(bit, _) ==> bit < 8,
        ensures
            Some(r) == spec_operation8(*self, old(registers)@).value,
            final(registers)@ == apply_flags(old(registers)@, spec_operation8(*self, old(registers)@).zf,
                spec_operation8(*self, old(registers)@).nf, spec_operation8(*self, old(registers)@).hf,
                spec_operation8(*self, old(registers)@).cf),
    {
        let res = match *self {
            Operation8::Add(a, b) => add_byte(read_byte(registers, a), read_byte(registers, b)),
            Operation8::Sub(a, b) => sub_byte(read_byte(registers, a), read_byte(registers, b)),
            Operation8::Xor(a, b) => {
                let value: u8 = read_byte(registers, a) ^ read_byte(registers, b);
                ALUOpResult { value: Some(value), zf: Some(value == 0), nf: Some(false), hf: Some(false), cf: Some(false) }
            },
            Operation8::Cp(a, b) => {
                let res = sub_byte(read_byte(registers, a), read_byte(registers, b));
                ALUOpResult { value: Some(0), ..res }
            },
            Operation8::Bit(bit, a) => {
                let value: u8 = read_byte(registers, a);
                let b: u8 = bit as u8;
                assert(((value >> b) & 1 == 0) == !((value >> b) & 1 == 1)) by (bit_vector);
                ALUOpResult { value: Some(0), zf: Some((value >> b) & 1 == 0), nf: Some(false), hf: Some(true), cf: None }
            },
            Operation8::Inc(a) => inc_byte(read_byte(registers, a)),
            Operation8::Dec(a) => dec_byte(read_byte(registers, a)),
            Operation8::Rl(a) => rotate_left(read_byte(registers, a), registers.cf()),
            Operation8::RlA => {
                let res = rotate_left(registers.a(), registers.cf());
                ALUOpResult { zf: Some(false), ..res }
            },
        };
        assert(res == spec_operation8(*self, old(registers)@));
        commit(registers, res)
    }
}

/// A 16-bit operation.
#[derive(Debug, Clone, Copy, PartialEq, Eq, Hash, Structural)]
pub enum Operation16 {
    /// A word plus a signed byte.
    AddWithI8(In16, In8),
}

impl Operation16 {
    /// The result of the operation; no flag is written.
    pub fn execute(&self, registers: &Registers) -> (r: u16)
        ensures
            r == (match *self {
                Operation16::AddWithI8(a, offset) => jump_relative(in16(registers@, a), in8(registers@, offset)),
            }),
    {
        match *self {
            Operation16::AddWithI8(a, offset) => {
                let x: u16 = read_word(registers, a);
                let o: u8 = read_byte(registers, offset);
                let delta: u16 = if o < 0x80 { o as u16 } else { o as u16 + 0xFF00 };
                x.wrapping_add(delta)
            },
        }
    }
}

/// The additions and decrements of this unit against the instruction set's: ADD gives the
/// sum, Z and C of an 8-bit addition and clears N; DEC gives the value, Z and H of a
/// decrement, but clears N.
pub proof fn lemma_operation8_arithmetic(x: u8, y: u8)
    ensures
        spec_add_byte(x, y).value == spec_add8(x, y, 0).value,
        spec_add_byte(x, y).zf == spec_add8(x, y, 0).zf,
        spec_add_byte(x, y).cf == spec_add8(x, y, 0).cf,
        spec_add_byte(x, y).nf == Some(false),
        spec_dec_byte(x) == (ALUOpResult { nf: Some(false), ..spec_dec8(x) }),
{
}

} // verus!
