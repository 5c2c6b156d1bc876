use vstd::prelude::*;

verus! {

/// An arithmetic or logic operation, named by its mnemonic.
pub trait ALUOp {
    const STR: &'static str;
}

/// Outcome of an ALU operation: the value to write back (if any) and each flag to set (if the
/// operation changes it).
#[derive(Debug, Clone, Copy, PartialEq, Eq)]
pub struct ALUOpResult<Value> {
    pub value: Option<Value>,
    pub zf: Option<bool>,
    pub nf: Option<bool>,
    pub hf: Option<bool>,
    pub cf: Option<bool>,
}

/// An operation on one operand, which may read the N, H and C flags.
pub trait ALUOneOp<Value>: ALUOp {
    fn execute(value: Value, nf: bool, hf: bool, cf: bool) -> ALUOpResult<Value>;
}

/// An operation on a destination and a source operand, which may read the C flag.
pub trait ALUTwoOp<DstValue, SrcValue>: ALUOp {
    fn execute(a: DstValue, b: SrcValue, cf: bool) -> ALUOpResult<DstValue>;
}

/// An operation on one bit of an 8-bit operand.
pub trait AluBitOp<const BIT_POS: u8>: ALUOp {
    fn execute(value: u8) -> ALUOpResult<u8>;
}

/// Result that writes `value` and sets the four flags.
pub open spec fn all_flags(value: u8, zf: bool, nf: bool, hf: bool, cf: bool) -> ALUOpResult<u8> {
    ALUOpResult { value: Some(value), zf: Some(zf), nf: Some(nf), hf: Some(hf), cf: Some(cf) }
}

/// Result of a shift or rotation: Z from the value, N and H cleared, C given.
pub open spec fn shifted(value: int, cf: bool) -> ALUOpResult<u8> {
    all_flags(value as u8, value == 0, false, false, cf)
}

/// Bit `bit` of `value`.
pub open spec fn bit_of(value: u8, bit: u8) -> bool {
    (value >> bit) & 1 == 1
}

/// What the bit operations of the ALU compute on a byte, in arithmetic.
proof fn lemma_byte_bits(x: u8)
    ensures
        x & 0xF == x % 16,
        (x & 0xF == 0xF) == (x % 16 == 15),
        (x & 0xF == 0) == (x % 16 == 0),
        (x & 0x80 != 0) == (x >= 128),
        (x & 0x1 != 0) == (x % 2 == 1),
        (x & 0x1 == 0x1) == (x % 2 == 1),
        !x == 255 - x,
        x << 1u8 == (x * 2) % 256,
        x >> 1u8 == x / 2,
        (x >> 4u8) | (x << 4u8) == (x % 16) * 16 + x / 16,
        (x << 1u8) | (x >> 7u8) == (x * 2) % 256 + x / 128,
        (x >> 1u8) | (x << 7u8) == x / 2 + (x % 2) * 128,
        (x >> 1u8) | (x & 0x80) == x / 2 + (if x >= 128 { 128u8 } else { 0u8 }),
{
    lemma_byte_masks(x);
    lemma_byte_shifts(x);
    lemma_byte_rotate_left(x);
}

/// The masks of the ALU on a byte, in arithmetic.
proof fn lemma_byte_masks(x: u8)
    by (bit_vector)
    ensures
        x & 0xF == x % 16,
        (x & 0xF == 0xF) == (x % 16 == 15),
        (x & 0xF == 0) == (x % 16 == 0),
        (x & 0x80 != 0) == (x >= 128),
        (x & 0x1 != 0) == (x % 2 == 1),
        (x & 0x1 == 0x1) == (x % 2 == 1),
        !x == (255 - x) as u8,
{
}

/// The shifts of the ALU on a byte, in arithmetic.
proof fn lemma_byte_shifts(x: u8)
    by (bit_vector)
    ensures
        x << 1u8 == ((x * 2) % 256) as u8,
        x >> 1u8 == x / 2,
        (x >> 4u8) | (x << 4u8) == ((x % 16) * 16 + x / 16) as u8,
        (x >> 1u8) | (x << 7u8) == (x / 2 + (x % 2) * 128) as u8,
        (x >> 1u8) | (x & 0x80) == (x / 2 + (x / 128) * 128) as u8,
{
}

/// Rotating a byte left through bit 7.
proof fn lemma_byte_rotate_left(x: u8)
    by (bit_vector)
    ensures
        (x << 1u8) | (x >> 7u8) == ((x * 2) % 256 + x / 128) as u8,
{
}

/// Bit `bit` of `x` read as 0 or 1.
proof fn lemma_bit_test(x: u8, bit: u8)
    by (bit_vector)
    requires
        bit < 8,
    ensures
        (((x >> bit) & 1) == 0) == !((x >> bit) & 1 == 1),
        (x >> bit) & 1 <= 1,
{
}

/// Shifting a carry bit `c` into a byte.
proof fn lemma_carry_in(x: u8, c: u8)
    requires
        c <= 1,
    ensures
        (x << 1u8) | c == (x * 2) % 256 + c,
        (x >> 1u8) | (c << 7u8) == x / 2 + c * 128,
{
    lemma_carry_bits(x, c);
    lemma_carry_bits_right(x, c);
}

proof fn lemma_carry_bits(x: u8, c: u8)
    by (bit_vector)
    requires
        c <= 1,
    ensures
        (x << 1u8) | c == ((x * 2) % 256 + c) as u8,
{
}

proof fn lemma_carry_bits_right(x: u8, c: u8)
    by (bit_vector)
    requires
        c <= 1,
    ensures
        (x >> 1u8) | (c << 7u8) == (x / 2 + c * 128) as u8,
{
}

/// The low bits of a word, in arithmetic.
proof fn lemma_word_bits(x: u16)
    by (bit_vector)
    ensures
        x & 0xF == x % 16,
        x & 0xFF == x % 256,
        x & 0xFFF == x % 4096,
        x & 0x3FF == x % 1024,
{
}

/// INC on a byte.
pub open spec fn spec_inc8(value: u8) -> ALUOpResult<u8> {
    ALUOpResult { value: Some(((value + 1) % 256) as u8), zf: Some(value == 255), nf: Some(false), hf: Some(value % 16 == 15), cf: None }
}

/// DEC on a byte.
pub open spec fn spec_dec8(value: u8) -> ALUOpResult<u8> {
    ALUOpResult { value: Some(((value + 255) % 256) as u8), zf: Some(value == 1), nf: Some(true), hf: Some(value % 16 == 0), cf: None }
}

/// Arithmetic shift left.
pub open spec fn spec_sla(value: u8) -> ALUOpResult<u8> {
    shifted((value * 2) % 256, value >= 128)
}

/// Arithmetic shift right (bit 7 is kept).
pub open spec fn spec_sra(value: u8) -> ALUOpResult<u8> {
    shifted(value / 2 + (if value >= 128 { 128int } else { 0int }), value % 2 == 1)
}

/// Logical shift right.
pub open spec fn spec_srl(value: u8) -> ALUOpResult<u8> {
    shifted((value / 2) as int, value % 2 == 1)
}

/// SWAP: exchanges the nibbles and clears the carry.
pub open spec fn spec_swap_result(value: u8) -> ALUOpResult<u8> {
    all_flags(spec_swap(value), value == 0, false, false, false)
}

/// DAA as an ALU result (N is left as is).
pub open spec fn spec_daa_result(value: u8, nf: bool, hf: bool, cf: bool) -> ALUOpResult<u8> {
    ALUOpResult { value: Some(spec_daa(value, nf, hf, cf).0), zf: Some(spec_daa(value, nf, hf, cf).0 == 0),
        nf: None, hf: Some(false), cf: Some(spec_daa(value, nf, hf, cf).1) }
}

/// CPL: complements the accumulator.
pub open spec fn spec_cpl(value: u8) -> ALUOpResult<u8> {
    ALUOpResult { value: Some((255 - value) as u8), zf: None, nf: Some(true), hf: Some(true), cf: None }
}

/// SCF: sets the carry.
pub open spec fn spec_scf() -> ALUOpResult<u8> {
    ALUOpResult { value: None, zf: None, nf: Some(false), hf: Some(false), cf: Some(true) }
}

/// CCF: complements the carry.
pub open spec fn spec_ccf(cf: bool) -> ALUOpResult<u8> {
    ALUOpResult { value: None, zf: None, nf: Some(false), hf: Some(false), cf: Some(!cf) }
}

pub open spec fn spec_and(a: u8, b: u8) -> ALUOpResult<u8> {
    all_flags(a & b, a & b == 0, false, true, false)
}

pub open spec fn spec_xor(a: u8, b: u8) -> ALUOpResult<u8> {
    all_flags(a ^ b, a ^ b == 0, false, false, false)
}

pub open spec fn spec_or(a: u8, b: u8) -> ALUOpResult<u8> {
    all_flags(a | b, a | b == 0, false, false, false)
}

/// CP: the flags of a subtraction, without writing the result.
pub open spec fn spec_cp(a: u8, b: u8) -> ALUOpResult<u8> {
    ALUOpResult { value: None, ..spec_sub8(a, b, 0) }
}

/// 16-bit addition (ADD HL, rr): H from bit 11, C from bit 15, Z untouched.
pub open spec fn spec_add16(a: u16, b: u16) -> ALUOpResult<u16> {
    ALUOpResult { value: Some(((a + b) % 65536) as u16), zf: None, nf: Some(false),
        hf: Some(a % 4096 + b % 4096 > 4095), cf: Some(a + b > 65535) }
}

/// Addition of a signed offset to a 16-bit value (ADD SP, i8): H and C from the low byte.
pub open spec fn spec_add_offset(a: u16, b: i8) -> ALUOpResult<u16> {
    ALUOpResult { value: Some(((a + sign_extend(b)) % 65536) as u16), zf: Some(false), nf: Some(false),
        hf: Some(a % 16 + sign_extend(b) % 16 > 15), cf: Some(a % 256 + sign_extend(b) % 256 > 255) }
}

#[derive(Debug, Clone, Copy, PartialEq, Eq)]
pub struct Inc {}

impl ALUOp for Inc {
    const STR: &'static str = "INC";
}

impl ALUOneOp<u8> for Inc {
    fn execute(value: u8, nf: bool, hf: bool, cf: bool) -> (r: ALUOpResult<u8>)
        ensures
            r == spec_inc8(value),
    {
        let new_value: u8 = value.wrapping_add(1);
        let half: bool = value & 0xF == 0xF;
        proof { lemma_byte_bits(value); }
        ALUOpResult { value: Some(new_value), zf: Some(new_value == 0), nf: Some(false), hf: Some(half), cf: None }
    }
}

impl ALUOneOp<u16> for Inc {
    fn execute(value: u16, nf: bool, hf: bool, cf: bool) -> (r: ALUOpResult<u16>)
        ensures
            r == (ALUOpResult { value: Some(((value + 1) % 65536) as u16), zf: None::<bool>,
                nf: None::<bool>, hf: None::<bool>, cf: None::<bool> }),
    {
        ALUOpResult { value: Some(value.wrapping_add(1)), zf: None, nf: None, hf: None, cf: None }
    }
}

#[derive(Debug, Clone, Copy, PartialEq, Eq)]
pub struct Dec {}

impl ALUOp for Dec {
    const STR: &'static str = "DEC";
}

impl ALUOneOp<u8> for Dec {
    fn execute(value: u8, nf: bool, hf: bool, cf: bool) -> (r: ALUOpResult<u8>)
        ensures
            r == spec_dec8(value),
    {
        let new_value: u8 = value.wrapping_sub(1);
        let half: bool = value & 0xF == 0x0;
        proof { lemma_byte_bits(value); }
        ALUOpResult { value: Some(new_value), zf: Some(new_value == 0), nf: Some(true), hf: Some(half), cf: None }
    }
}

impl ALUOneOp<u16> for Dec {
    fn execute(value: u16, nf: bool, hf: bool, cf: bool) -> (r: ALUOpResult<u16>)
        ensures
            r == (ALUOpResult { value: Some(((value + 65535) % 65536) as u16), zf: None::<bool>,
                nf: None::<bool>, hf: None::<bool>, cf: None::<bool> }),
    {
        ALUOpResult { value: Some(value.wrapping_sub(1)), zf: None, nf: None, hf: None, cf: None }
    }
}

/// Rotates left: bit 7 goes to bit 0 and to the carry.
pub open spec fn spec_rlc(value: u8) -> ALUOpResult<u8> {
    shifted((value * 2) % 256 + value / 128, value >= 128)
}

/// Rotates right: bit 0 goes to bit 7 and to the carry.
pub open spec fn spec_rrc(value: u8) -> ALUOpResult<u8> {
    shifted(value / 2 + (value % 2) * 128, value % 2 == 1)
}

/// Rotates left through the carry.
pub open spec fn spec_rl(value: u8, cf: bool) -> ALUOpResult<u8> {
    shifted((value * 2) % 256 + (if cf { 1int } else { 0int }), value >= 128)
}

/// Rotates right through the carry.
pub open spec fn spec_rr(value: u8, cf: bool) -> ALUOpResult<u8> {
    shifted(value / 2 + (if cf { 128int } else { 0int }), value % 2 == 1)
}

/// The same result with Z cleared (the accumulator rotations).
pub open spec fn clear_zf(r: ALUOpResult<u8>) -> ALUOpResult<u8> {
    ALUOpResult { zf: Some(false), ..r }
}

#[allow(non_camel_case_types)]
#[derive(Debug, Clone, Copy, PartialEq, Eq)]
pub struct RLC {}

impl ALUOp for RLC {
    const STR: &'static str = "RLC";
}

impl ALUOneOp<u8> for RLC {
    fn execute(value: u8, nf: bool, hf: bool, cf: bool) -> (r: ALUOpResult<u8>)
        ensures
            r == spec_rlc(value),
    {
        let new_value: u8 = (value << 1) | (value >> 7);
        let carry: bool = value & 0x80 != 0;
        proof { lemma_byte_bits(value); }
        ALUOpResult { value: Some(new_value), zf: Some(new_value == 0), nf: Some(false), hf: Some(false), cf: Some(carry) }
    }
}

#[derive(Debug, Clone, Copy, PartialEq, Eq)]
pub struct RL {}

impl ALUOp for RL {
    const STR: &'static str = "RL";
}

impl ALUOneOp<u8> for RL {
    fn execute(value: u8, nf: bool, hf: bool, cf: bool) -> (r: ALUOpResult<u8>)
        ensures
            r == spec_rl(value, cf),
    {
        let c: u8 = if cf { 1 } else { 0 };
        let new_value: u8 = (value << 1) | c;
        let carry: bool = value & 0x80 != 0;
        proof { lemma_byte_bits(value); lemma_carry_in(value, c); }
        ALUOpResult { value: Some(new_value), zf: Some(new_value == 0), nf: Some(false), hf: Some(false), cf: Some(carry) }
    }
}

#[derive(Debug, Clone, Copy, PartialEq, Eq)]
pub struct RRC {}

impl ALUOp for RRC {
    const STR: &'static str = "RRC";
}

impl ALUOneOp<u8> for RRC {
    fn execute(value: u8, nf: bool, hf: bool, cf: bool) -> (r: ALUOpResult<u8>)
        ensures
            r == spec_rrc(value),
    {
        let new_value: u8 = (value >> 1) | (value << 7);
        let carry: bool = value & 0x1 != 0;
        proof { lemma_byte_bits(value); }
        ALUOpResult { value: Some(new_value), zf: Some(new_value == 0), nf: Some(false), hf: Some(false), cf: Some(carry) }
    }
}

#[derive(Debug, Clone, Copy, PartialEq, Eq)]
pub struct RR {}

impl ALUOp for RR {
    const STR: &'static str = "RR";
}

impl ALUOneOp<u8> for RR {
    fn execute(value: u8, nf: bool, hf: bool, cf: bool) -> (r: ALUOpResult<u8>)
        ensures
            r == spec_rr(value, cf),
    {
        let c: u8 = if cf { 1 } else { 0 };
        let new_value: u8 = (value >> 1) | (c << 7);
        let carry: bool = value & 0x1 != 0;
        proof { lemma_byte_bits(value); lemma_carry_in(value, c); }
        ALUOpResult { value: Some(new_value), zf: Some(new_value == 0), nf: Some(false), hf: Some(false), cf: Some(carry) }
    }
}

#[derive(Debug, Clone, Copy, PartialEq, Eq)]
pub struct SLA {}

impl ALUOp for SLA {
    const STR: &'static str = "SLA";
}

impl ALUOneOp<u8> for SLA {
    fn execute(value: u8, nf: bool, hf: bool, cf: bool) -> (r: ALUOpResult<u8>)
        ensures
            r == spec_sla(value),
    {
        let new_value: u8 = value << 1;
        let carry: bool = value & 0x80 != 0;
        proof { lemma_byte_bits(value); }
        ALUOpResult { value: Some(new_value), zf: Some(new_value == 0), nf: Some(false), hf: Some(false), cf: Some(carry) }
    }
}

#[derive(Debug, Clone, Copy, PartialEq, Eq)]
pub struct SRA {}

impl ALUOp for SRA {
    const STR: &'static str = "SRA";
}

impl ALUOneOp<u8> for SRA {
    fn execute(value: u8, nf: bool, hf: bool, cf: bool) -> (r: ALUOpResult<u8>)
        ensures
            r == spec_sra(value),
    {
        let new_value: u8 = (value >> 1) | (value & 0x80);
        let carry: bool = value & 0x1 != 0;
        proof { lemma_byte_bits(value); }
        ALUOpResult { value: Some(new_value), zf: Some(new_value == 0), nf: Some(false), hf: Some(false), cf: Some(carry) }
    }
}

#[derive(Debug, Clone, Copy, PartialEq, Eq)]
pub struct Swap {}

impl ALUOp for Swap {
    const STR: &'static str = "SWAP";
}

/// Exchanges the two nibbles of `value`.
pub open spec fn spec_swap(value: u8) -> u8 {
    ((value % 16) * 16 + value / 16) as u8
}

impl ALUOneOp<u8> for Swap {
    fn execute(value: u8, nf: bool, hf: bool, cf: bool) -> (r: ALUOpResult<u8>)
        ensures
            r == spec_swap_result(value),
    {
        let new_value: u8 = (value >> 4) | (value << 4);
        proof { lemma_byte_bits(value); }
        ALUOpResult { value: Some(new_value), zf: Some(new_value == 0), nf: Some(false), hf: Some(false), cf: Some(false) }
    }
}

#[derive(Debug, Clone, Copy, PartialEq, Eq)]
pub struct SRL {}

impl ALUOp for SRL {
    const STR: &'static str = "SRL";
}

impl ALUOneOp<u8> for SRL {
    fn execute(value: u8, nf: bool, hf: bool, cf: bool) -> (r: ALUOpResult<u8>)
        ensures
            r == spec_srl(value),
    {
        let new_value: u8 = value >> 1;
        let carry: bool = value & 0x1 == 0x1;
        proof { lemma_byte_bits(value); }
        ALUOpResult { value: Some(new_value), zf: Some(new_value == 0), nf: Some(false), hf: Some(false), cf: Some(carry) }
    }
}

#[derive(Debug, Clone, Copy, PartialEq, Eq)]
pub struct RLCA {}

impl ALUOp for RLCA {
    const STR: &'static str = "RLCA";
}

impl ALUOneOp<u8> for RLCA {
    fn execute(value: u8, nf: bool, hf: bool, cf: bool) -> (r: ALUOpResult<u8>)
        ensures
            r == clear_zf(spec_rlc(value)),
    {
        ALUOpResult { zf: Some(false), ..<RLC as ALUOneOp<u8>>::execute(value, nf, hf, cf) }
    }
}

#[derive(Debug, Clone, Copy, PartialEq, Eq)]
pub struct RRCA {}

impl ALUOp for RRCA {
    const STR: &'static str = "RRCA";
}

impl ALUOneOp<u8> for RRCA {
    fn execute(value: u8, nf: bool, hf: bool, cf: bool) -> (r: ALUOpResult<u8>)
        ensures
            r == clear_zf(spec_rrc(value)),
    {
        ALUOpResult { zf: Some(false), ..<RRC as ALUOneOp<u8>>::execute(value, nf, hf, cf) }
    }
}

#[derive(Debug, Clone, Copy, PartialEq, Eq)]
pub struct RLA {}

impl ALUOp for RLA {
    const STR: &'static str = "RLA";
}

impl ALUOneOp<u8> for RLA {
    fn execute(value: u8, nf: bool, hf: bool, cf: bool) -> (r: ALUOpResult<u8>)
        ensures
            r == clear_zf(spec_rl(value, cf)),
    {
        ALUOpResult { zf: Some(false), ..<RL as ALUOneOp<u8>>::execute(value, nf, hf, cf) }
    }
}

#[derive(Debug, Clone, Copy, PartialEq, Eq)]
pub struct RRA {}

impl ALUOp for RRA {
    const STR: &'static str = "RRA";
}

impl ALUOneOp<u8> for RRA {
    fn execute(value: u8, nf: bool, hf: bool, cf: bool) -> (r: ALUOpResult<u8>)
        ensures
            r == clear_zf(spec_rr(value, cf)),
    {
        ALUOpResult { zf: Some(false), ..<RR as ALUOneOp<u8>>::execute(value, nf, hf, cf) }
    }
}

/// The decimal adjustment of the accumulator after a BCD addition (N clear) or subtraction
/// (N set), as (adjusted value, carry out).
pub open spec fn spec_daa(value: u8, nf: bool, hf: bool, cf: bool) -> (u8, bool) {
    if !nf {
        let (v1, c1) = if cf || value > 0x99 { ((value + 0x60) % 256, true) } else { (value as int, false) };
        let v2 = if hf || v1 % 16 > 9 { (v1 + 0x06) % 256 } else { v1 };
        (v2 as u8, c1)
    } else if cf {
        (((value + (if hf { 0x9aint } else { 0xa0int })) % 256) as u8, true)
    } else if hf {
        (((value + 0xfa) % 256) as u8, false)
    } else {
        (value, false)
    }
}

#[derive(Debug, Clone, Copy, PartialEq, Eq)]
pub struct DAA {}

impl ALUOp for DAA {
    const STR: &'static str = "DAA";
}

impl ALUOneOp<u8> for DAA {
    #[verifier::spinoff_prover]
    fn execute(value: u8, nf: bool, hf: bool, cf: bool) -> (r: ALUOpResult<u8>)
        ensures
            r == spec_daa_result(value, nf, hf, cf),
    {
        let mut value = value;
        let mut new_carry = false;
        if !nf {
            if cf || value > 0x99 {
                value = value.wrapping_add(0x60);
                new_carry = true;
            }
            let low: u8 = value & 0x0f;
            proof { lemma_byte_bits(value); }
            if hf || low > 0x09 {
                value = value.wrapping_add(0x06);
            }
        } else if cf {
            value = value.wrapping_add(if hf { 0x9a } else { 0xa0 });
            new_carry = true;
        } else if hf {
            value = value.wrapping_add(0xfa);
        }
        ALUOpResult { value: Some(value), zf: Some(value == 0), nf: None, hf: Some(false), cf: Some(new_carry) }
    }
}

#[derive(Debug, Clone, Copy, PartialEq, Eq)]
pub struct CPL {}

impl ALUOp for CPL {
    const STR: &'static str = "CPL";
}

impl ALUOneOp<u8> for CPL {
    fn execute(value: u8, nf: bool, hf: bool, cf: bool) -> (r: ALUOpResult<u8>)
        ensures
            r == spec_cpl(value),
    {
        let new_value: u8 = !value;
        proof { lemma_byte_bits(value); }
        ALUOpResult { value: Some(new_value), zf: None, nf: Some(true), hf: Some(true), cf: None }
    }
}

#[derive(Debug, Clone, Copy, PartialEq, Eq)]
pub struct SCF {}

impl ALUOp for SCF {
    const STR: &'static str = "SCF";
}

impl ALUOneOp<u8> for SCF {
    fn execute(value: u8, nf: bool, hf: bool, cf: bool) -> (r: ALUOpResult<u8>)
        ensures
            r == spec_scf(),
    {
        ALUOpResult { value: None, zf: None, nf: Some(false), hf: Some(false), cf: Some(true) }
    }
}

#[derive(Debug, Clone, Copy, PartialEq, Eq)]
pub struct CCF {}

impl ALUOp for CCF {
    const STR: &'static str = "CCF";
}

impl ALUOneOp<u8> for CCF {
    fn execute(value: u8, nf: bool, hf: bool, cf: bool) -> (r: ALUOpResult<u8>)
        ensures
            r == spec_ccf(cf),
    {
        ALUOpResult { value: None, zf: None, nf: Some(false), hf: Some(false), cf: Some(!cf) }
    }
}

/// 8-bit addition with an incoming carry `c` (0 or 1).
pub open spec fn spec_add8(a: u8, b: u8, c: int) -> ALUOpResult<u8> {
    let sum = a + b + c;
    all_flags((sum % 256) as u8, sum % 256 == 0, false, a % 16 + b % 16 + c > 15, sum > 255)
}

/// 8-bit subtraction with an incoming borrow `c` (0 or 1).
pub open spec fn spec_sub8(a: u8, b: u8, c: int) -> ALUOpResult<u8> {
    let diff = a - b - c;
    all_flags(((diff + 512) % 256) as u8, (diff + 512) % 256 == 0, true, a % 16 < b % 16 + c, a < b + c)
}

#[derive(Debug, Clone, Copy, PartialEq, Eq)]
pub struct Add {}

impl ALUOp for Add {
    const STR: &'static str = "ADD";
}

impl ALUTwoOp<u8, u8> for Add {
    fn execute(a: u8, b: u8, cf: bool) -> (r: ALUOpResult<u8>)
        ensures
            r == spec_add8(a, b, 0),
    {
        let value: u8 = a.wrapping_add(b);
        let la: u8 = a & 0xF;
        let lb: u8 = b & 0xF;
        proof { lemma_byte_masks(a); lemma_byte_masks(b); }
        ALUOpResult { value: Some(value), zf: Some(value == 0), nf: Some(false), hf: Some(la + lb > 0xF), cf: Some(a as u16 + b as u16 > 0xFF) }
    }
}

impl ALUTwoOp<u16, u16> for Add {
    fn execute(a: u16, b: u16, cf: bool) -> (r: ALUOpResult<u16>)
        ensures
            r == spec_add16(a, b),
    {
        let value: u16 = a.wrapping_add(b);
        let mask: u16 = 0xFFF;
        let la: u16 = a & mask;
        let lb: u16 = b & mask;
        proof { lemma_word_bits(a); lemma_word_bits(b); }
        ALUOpResult { value: Some(value), zf: None, nf: Some(false), hf: Some(la + lb > mask), cf: Some(a > 0xFFFF - b) }
    }
}

/// `offset` as the 16-bit two's complement pattern the CPU adds.
pub open spec fn sign_extend(offset: i8) -> u16 {
    if offset >= 0 { offset as u16 } else { (offset + 65536) as u16 }
}

impl ALUTwoOp<u16, i8> for Add {
    fn execute(a: u16, b: i8, cf: bool) -> (r: ALUOpResult<u16>)
        ensures
            r == spec_add_offset(a, b),
    {
        let bu: u16 = if b >= 0 { b as u16 } else { (65536i32 + b as i32) as u16 };
        let value: u16 = a.wrapping_add(bu);
        let ha: u16 = a & 0xF;
        let hb: u16 = bu & 0xF;
        let ca: u16 = a & 0xFF;
        let cb: u16 = bu & 0xFF;
        proof { lemma_word_bits(a); lemma_word_bits(bu); }
        ALUOpResult { value: Some(value), zf: Some(false), nf: Some(false), hf: Some(ha + hb > 0xF), cf: Some(ca + cb > 0xFF) }
    }
}

#[derive(Debug, Clone, Copy, PartialEq, Eq)]
pub struct AdC {}

impl ALUOp for AdC {
    const STR: &'static str = "ADC";
}

impl ALUTwoOp<u8, u8> for AdC {
    fn execute(a: u8, b: u8, cf: bool) -> (r: ALUOpResult<u8>)
        ensures
            r == spec_add8(a, b, if cf { 1 } else { 0 }),
    {
        let c: u8 = if cf { 1 } else { 0 };
        let value: u8 = a.wrapping_add(b).wrapping_add(c);
        let la: u8 = a & 0xF;
        let lb: u8 = b & 0xF;
        proof { lemma_byte_masks(a); lemma_byte_masks(b); }
        ALUOpResult {
            value: Some(value),
            zf: Some(value == 0),
            nf: Some(false),
            hf: Some(la + lb + c > 0xf),
            cf: Some(a as u16 + b as u16 + c as u16 > 0xff),
        }
    }
}

#[derive(Debug, Clone, Copy, PartialEq, Eq)]
pub struct Sub {}

impl ALUOp for Sub {
    const STR: &'static str = "SUB";
}

impl ALUTwoOp<u8, u8> for Sub {
    fn execute(a: u8, b: u8, cf: bool) -> (r: ALUOpResult<u8>)
        ensures
            r == spec_sub8(a, b, 0),
    {
        let value: u8 = a.wrapping_sub(b);
        let la: u8 = a & 0xF;
        let lb: u8 = b & 0xF;
        proof { lemma_byte_masks(a); lemma_byte_masks(b); }
        ALUOpResult { value: Some(value), zf: Some(value == 0), nf: Some(true), hf: Some(la < lb), cf: Some(a < b) }
    }
}

#[derive(Debug, Clone, Copy, PartialEq, Eq)]
pub struct SbC {}

impl ALUOp for SbC {
    const STR: &'static str = "SBC";
}

impl ALUTwoOp<u8, u8> for SbC {
    fn execute(a: u8, b: u8, cf: bool) -> (r: ALUOpResult<u8>)
        ensures
            r == spec_sub8(a, b, if cf { 1 } else { 0 }),
    {
        let c: u8 = if cf { 1 } else { 0 };
        let value: u8 = a.wrapping_sub(b).wrapping_sub(c);
        let la: u8 = a & 0xF;
        let lb: u8 = b & 0xF;
        proof { lemma_byte_masks(a); lemma_byte_masks(b); }
        ALUOpResult {
            value: Some(value),
            zf: Some(value == 0),
            nf: Some(true),
            hf: Some((la as u16) < (lb as u16) + (c as u16)),
            cf: Some((a as u16) < (b as u16) + (c as u16)),
        }
    }
}

#[derive(Debug, Clone, Copy, PartialEq, Eq)]
pub struct And {}

impl ALUOp for And {
    const STR: &'static str = "AND";
}

impl ALUTwoOp<u8, u8> for And {
    fn execute(a: u8, b: u8, cf: bool) -> (r: ALUOpResult<u8>)
        ensures
            r == spec_and(a, b),
    {
        let value: u8 = a & b;
        ALUOpResult { value: Some(value), zf: Some(value == 0), nf: Some(false), hf: Some(true), cf: Some(false) }
    }
}

#[derive(Debug, Clone, Copy, PartialEq, Eq)]
pub struct Xor {}

impl ALUOp for Xor {
    const STR: &'static str = "XOR";
}

impl ALUTwoOp<u8, u8> for Xor {
    fn execute(a: u8, b: u8, cf: bool) -> (r: ALUOpResult<u8>)
        ensures
            r == spec_xor(a, b),
    {
        let value: u8 = a ^ b;
        ALUOpResult { value: Some(value), zf: Some(value == 0), nf: Some(false), hf: Some(false), cf: Some(false) }
    }
}

#[derive(Debug, Clone, Copy, PartialEq, Eq)]
pub struct Or {}

impl ALUOp for Or {
    const STR: &'static str = "OR";
}

impl ALUTwoOp<u8, u8> for Or {
    fn execute(a: u8, b: u8, cf: bool) -> (r: ALUOpResult<u8>)
        ensures
            r == spec_or(a, b),
    {
        let value: u8 = a | b;
        ALUOpResult { value: Some(value), zf: Some(value == 0), nf: Some(false), hf: Some(false), cf: Some(false) }
    }
}

#[derive(Debug, Clone, Copy, PartialEq, Eq)]
pub struct Cp {}

impl ALUOp for Cp {
    const STR: &'static str = "CP";
}

impl ALUTwoOp<u8, u8> for Cp {
    fn execute(a: u8, b: u8, cf: bool) -> (r: ALUOpResult<u8>)
        ensures
            r == spec_cp(a, b),
    {
        ALUOpResult { value: None, ..<Sub as ALUTwoOp<u8, u8>>::execute(a, b, cf) }
    }
}

#[derive(Debug, Clone, Copy, PartialEq, Eq)]
pub struct Bit {}

impl ALUOp for Bit {
    const STR: &'static str = "BIT";
}

impl Bit {
    /// Tests bit `bit` of `value`: Z is set when the bit is clear.
    pub fn test(bit: u8, value: u8) -> (r: ALUOpResult<u8>)
        requires
            bit < 8,
        ensures
            r == (ALUOpResult { value: None::<u8>, zf: Some(!bit_of(value, bit)), nf: Some(false), hf: Some(true), cf: None::<bool> }),
    {
        let clear: bool = ((value >> bit) & 1) == 0;
        proof { lemma_bit_test(value, bit); }
        ALUOpResult { value: None, zf: Some(clear), nf: Some(false), hf: Some(true), cf: None }
    }
}

#[derive(Debug, Clone, Copy, PartialEq, Eq)]
pub struct SetBit {}

impl ALUOp for SetBit {
    const STR: &'static str = "SET";
}

impl SetBit {
    /// Sets bit `bit` of `value`.
    pub fn apply(bit: u8, value: u8) -> (r: ALUOpResult<u8>)
        requires
            bit < 8,
        ensures
            r == (ALUOpResult { value: Some(value | (1u8 << bit)), zf: None::<bool>, nf: None::<bool>, hf: None::<bool>, cf: None::<bool> }),
    {
        ALUOpResult { value: Some(value | (1u8 << bit)), zf: None, nf: None, hf: None, cf: None }
    }
}

#[derive(Debug, Clone, Copy, PartialEq, Eq)]
pub struct Res {}

impl ALUOp for Res {
    const STR: &'static str = "RES";
}

impl Res {
    /// Clears bit `bit` of `value`.
    pub fn apply(bit: u8, value: u8) -> (r: ALUOpResult<u8>)
        requires
            bit < 8,
        ensures
            r == (ALUOpResult { value: Some(value & !(1u8 << bit)), zf: None::<bool>, nf: None::<bool>, hf: None::<bool>, cf: None::<bool> }),
    {
        ALUOpResult { value: Some(value & !(1u8 << bit)), zf: None, nf: None, hf: None, cf: None }
    }
}

/// Setting a bit and testing it reports the bit as set (Z clear); the other bits are kept.
pub proof fn lemma_set_then_bit(value: u8, bit: u8, other: u8)
    by (bit_vector)
    requires
        bit < 8,
        other < 8,
        other != bit,
    ensures
        bit_of(value | (1u8 << bit), bit),
        bit_of(value | (1u8 << bit), other) == bit_of(value, other),
{
}

/// Clearing a bit and testing it reports the bit as clear (Z set); the other bits are kept.
pub proof fn lemma_res_then_bit(value: u8, bit: u8, other: u8)
    by (bit_vector)
    requires
        bit < 8,
        other < 8,
        other != bit,
    ensures
        !bit_of(value & !(1u8 << bit), bit),
        bit_of(value & !(1u8 << bit), other) == bit_of(value, other),
{
}

/// Swapping the nibbles twice gives the value back.
pub proof fn lemma_swap_involution(value: u8)
    ensures
        spec_swap(spec_swap(value)) == value,
{
}

/// A left rotation is undone by a right rotation, and the carries agree with the moved bit.
pub proof fn lemma_rlc_rrc_inverse(value: u8)
    ensures
        spec_rrc(spec_rlc(value).value->0).value->0 == value,
        spec_rlc(spec_rrc(value).value->0).value->0 == value,
{
}

/// Rotating through the carry left then right restores the value and the carry.
pub proof fn lemma_rl_rr_inverse(value: u8, cf: bool)
    ensures
        spec_rr(spec_rl(value, cf).value->0, spec_rl(value, cf).cf->0).value->0 == value,
        spec_rr(spec_rl(value, cf).value->0, spec_rl(value, cf).cf->0).cf->0 == cf,
{
}

/// Subtracting what was added gives the operand back, and the two carries agree.
pub proof fn lemma_add_sub_inverse(a: u8, b: u8)
    ensures
        spec_sub8(spec_add8(a, b, 0).value->0, b, 0).value->0 == a,
        spec_sub8(spec_add8(a, b, 0).value->0, b, 0).cf->0 == spec_add8(a, b, 0).cf->0,
{
}

/// Comparing a value with itself sets Z and clears the carries.
pub proof fn lemma_cp_self(a: u8)
    ensures
        spec_sub8(a, a, 0) == all_flags(0, true, true, false, false),
{
}

/// Whether a byte holds two decimal digits (packed BCD).
pub open spec fn is_bcd(x: u8) -> bool {
    x / 16 < 10 && x % 16 < 10
}

/// The number 0 to 99 a packed BCD byte holds.
pub open spec fn bcd_value(x: u8) -> int {
    (x / 16) * 10 + x % 16
}

/// The byte whose high nibble is `h` and low nibble `l`.
proof fn lemma_nibbles(h: int, l: int)
    requires
        0 <= h < 16,
        0 <= l < 16,
    ensures
        ((16 * h + l) as u8) / 16 == h,
        ((16 * h + l) as u8) % 16 == l,
        (16 * h + l) as u8 == 16 * h + l,
{
    assert((16 * h + l) / 16 == h && (16 * h + l) % 16 == l) by (nonlinear_arith)
        requires 0 <= h < 16, 0 <= l < 16;
}

/// DAA after an addition, in digits: `hsum` is the sum of the high digits, `low` the sum of
/// the low digits and the carry in.
#[verifier::spinoff_prover]
#[verifier::rlimit(60)]
proof fn lemma_daa_add_digits(hsum: int, low: int)
    requires
        0 <= hsum <= 18,
        0 <= low <= 19,
    ensures
        ({
            let n = 16 * hsum + low;
            let k: int = if low >= 10 { 1 } else { 0 };
            let dl = low - 10 * k;
            let highs = hsum + k;
            let dh = if highs >= 10 { highs - 10 } else { highs };
            spec_daa((n % 256) as u8, false, low > 15, n > 255) == (((16 * dh + dl) as u8), highs >= 10)
        }),
{
    let n = 16 * hsum + low;
    let v = (n % 256) as u8;
    let ln: int = if low >= 16 { low - 16 } else { low };
    let hn: int = if low >= 16 { hsum + 1 } else { hsum };
    assert(n == 16 * hn + ln);
    if n >= 256 {
        assert(v == n - 256);
        // The carry adds 0x60: the high digit wraps past 9.
        let v1 = v + 96;
        assert(v1 == 16 * (hn - 10) + ln);
        assert(v1 % 16 == ln);
        if low > 15 || ln > 9 {
            assert((v1 + 6) % 256 == v1 + 6);
        }
    } else {
        assert(v == n);
        if v > 0x99 {
            if n + 96 >= 256 {
                assert((v + 96) % 256 == 16 * (hn - 10) + ln);
                let v1 = 16 * (hn - 10) + ln;
                assert(v1 % 16 == ln);
            } else {
                assert((v + 96) % 256 == 16 * (hn + 6) + ln);
                let v1 = 16 * (hn + 6) + ln;
                assert(v1 % 16 == ln);
                assert(hn == 9 && ln >= 10);
                assert((v1 + 6) % 256 == 16 * (hn - 9) + ln - 10);
            }
        } else {
            assert(v % 16 == ln);
        }
    }
}

/// DAA after a subtraction, in digits: `hdiff` is the difference of the high digits, `low`
/// that of the low digits less the borrow in.
#[verifier::spinoff_prover]
proof fn lemma_daa_sub_digits(hdiff: int, low: int)
    requires
        -9 <= hdiff <= 9,
        -10 <= low <= 9,
    ensures
        ({
            let n = 16 * hdiff + low;
            let k: int = if low < 0 { 1 } else { 0 };
            let dl = low + 10 * k;
            let highs = hdiff - k;
            let dh = if highs < 0 { highs + 10 } else { highs };
            spec_daa(((n + 512) % 256) as u8, true, low < 0, n < 0) == (((16 * dh + dl) as u8), highs < 0)
        }),
{
    let n = 16 * hdiff + low;
    let v = ((n + 512) % 256) as u8;
    if n < 0 {
        assert(v == n + 256);
    } else {
        assert(v == n);
    }
}

/// The packed BCD byte of a number below 100.
pub open spec fn bcd_of(x: int) -> u8 {
    (16 * (x / 10) + x % 10) as u8
}

/// `bcd_of` writes the number's two digits.
proof fn lemma_bcd_of(x: int)
    requires
        0 <= x < 100,
    ensures
        is_bcd(bcd_of(x)),
        bcd_value(bcd_of(x)) == x,
        (bcd_of(x) == 0) == (x == 0),
{
    lemma_nibbles(x / 10, x % 10);
}

/// DAA after an addition of BCD bytes, on the values the addition gives.
#[verifier::spinoff_prover]
proof fn lemma_daa_add_core(a: u8, b: u8, c: int)
    requires
        is_bcd(a),
        is_bcd(b),
        0 <= c <= 1,
    ensures
        ({
            let sum = bcd_value(a) + bcd_value(b) + c;
            spec_daa(((a + b + c) % 256) as u8, false, a % 16 + b % 16 + c > 15, a + b + c > 255)
                == (bcd_of(sum % 100), sum >= 100)
        }),
{
    let hsum = a / 16 + b / 16;
    let low = a % 16 + b % 16 + c;
    lemma_daa_add_digits(hsum, low);
    let k: int = if low >= 10 { 1 } else { 0 };
    let dl = low - 10 * k;
    let highs = hsum + k;
    let dh = if highs >= 10 { highs - 10 } else { highs };
    let sum = bcd_value(a) + bcd_value(b) + c;
    assert(sum % 100 == 10 * dh + dl && (sum >= 100) == (highs >= 10)) by {
        assert(sum == 10 * highs + dl);
        if highs >= 10 {
            assert(sum % 100 == sum - 100);
        } else {
            assert(sum % 100 == sum);
        }
    }
    assert((10 * dh + dl) / 10 == dh && (10 * dh + dl) % 10 == dl) by (nonlinear_arith)
        requires 0 <= dh < 10, 0 <= dl < 10;
}

/// DAA after a subtraction of BCD bytes, on the values the subtraction gives.
#[verifier::spinoff_prover]
proof fn lemma_daa_sub_core(a: u8, b: u8, c: int)
    requires
        is_bcd(a),
        is_bcd(b),
        0 <= c <= 1,
    ensures
        ({
            let diff = bcd_value(a) - bcd_value(b) - c;
            spec_daa(((a - b - c + 512) % 256) as u8, true, a % 16 < b % 16 + c, a < b + c)
                == (bcd_of((diff + 100) % 100), diff < 0)
        }),
{
    let hdiff = a / 16 - b / 16;
    let low = a % 16 - b % 16 - c;
    lemma_daa_sub_digits(hdiff, low);
    let k: int = if low < 0 { 1 } else { 0 };
    let dl = low + 10 * k;
    let highs = hdiff - k;
    let dh = if highs < 0 { highs + 10 } else { highs };
    let diff = bcd_value(a) - bcd_value(b) - c;
    assert((diff + 100) % 100 == 10 * dh + dl && (diff < 0) == (highs < 0)) by {
        assert(diff == 10 * highs + dl);
        if highs < 0 {
            assert((diff + 100) % 100 == diff + 100);
        } else {
            assert((diff + 100) % 100 == diff);
        }
    }
    assert((10 * dh + dl) / 10 == dh && (10 * dh + dl) % 10 == dl) by (nonlinear_arith)
        requires 0 <= dh < 10, 0 <= dl < 10;
}

/// DAA after an addition of two BCD bytes (ADD, or ADC with carry `carry`) gives the BCD
/// digits of the decimal sum modulo 100, sets C exactly when the decimal sum reaches 100,
/// and Z when the digits are 00.
#[verifier::spinoff_prover]
pub proof fn lemma_daa_after_add(a: u8, b: u8, carry: bool)
    requires
        is_bcd(a),
        is_bcd(b),
    ensures
        ({
            let c: int = if carry { 1 } else { 0 };
            let s = spec_add8(a, b, c);
            let d = spec_daa_result(s.value->0, s.nf->0, s.hf->0, s.cf->0);
            let sum = bcd_value(a) + bcd_value(b) + c;
            &&& d.value matches Some(v) && is_bcd(v) && bcd_value(v) == sum % 100
            &&& d.cf == Some(sum >= 100)
            &&& d.zf == Some(sum % 100 == 0)
            &&& d.hf == Some(false)
        }),
{
    let c: int = if carry { 1 } else { 0 };
    let sum = bcd_value(a) + bcd_value(b) + c;
    lemma_daa_add_core(a, b, c);
    lemma_bcd_of(sum % 100);
}

/// DAA after a subtraction of two BCD bytes (SUB, or SBC with borrow `carry`) gives the BCD
/// digits of the decimal difference modulo 100, sets C exactly when the decimal difference is
/// negative, and Z when the digits are 00.
#[verifier::spinoff_prover]
pub proof fn lemma_daa_after_sub(a: u8, b: u8, carry: bool)
    requires
        is_bcd(a),
        is_bcd(b),
    ensures
        ({
            let c: int = if carry { 1 } else { 0 };
            let s = spec_sub8(a, b, c);
            let d = spec_daa_result(s.value->0, s.nf->0, s.hf->0, s.cf->0);
            let diff = bcd_value(a) - bcd_value(b) - c;
            &&& d.value matches Some(v) && is_bcd(v) && bcd_value(v) == (diff + 100) % 100
            &&& d.cf == Some(diff < 0)
            &&& d.zf == Some((diff + 100) % 100 == 0)
            &&& d.hf == Some(false)
        }),
{
    let c: int = if carry { 1 } else { 0 };
    let diff = bcd_value(a) - bcd_value(b) - c;
    lemma_daa_sub_core(a, b, c);
    lemma_bcd_of((diff + 100) % 100);
}

/// 1 for a set flag, 0 for a clear one.
pub open spec fn flag_value(f: Option<bool>) -> int {
    if f == Some(true) { 1 } else { 0 }
}

/// The flags of the 8-bit additions and subtractions: the result and C are the sum (or
/// difference) of the operands and the carry in, split into a byte and what goes past it;
/// the low nibble and H are the same for the low nibbles; Z is set exactly for a zero
/// result; N is set by the subtractions only. CP sets the flags of SUB and writes nothing.
pub proof fn lemma_add_sub_flags(a: u8, b: u8, carry: bool)
    ensures
        ({
            let c: int = if carry { 1 } else { 0 };
            let s = spec_add8(a, b, c);
            &&& s.value is Some && s.zf is Some && s.hf is Some && s.cf is Some
            &&& s.value->0 + 256 * flag_value(s.cf) == a + b + c
            &&& s.value->0 % 16 + 16 * flag_value(s.hf) == a % 16 + b % 16 + c
            &&& s.zf == Some(s.value->0 == 0)
            &&& s.nf == Some(false)
        }),
        ({
            let c: int = if carry { 1 } else { 0 };
            let d = spec_sub8(a, b, c);
            &&& d.value is Some && d.zf is Some && d.hf is Some && d.cf is Some
            &&& d.value->0 - 256 * flag_value(d.cf) == a - b - c
            &&& d.value->0 % 16 - 16 * flag_value(d.hf) == a % 16 - b % 16 - c
            &&& d.zf == Some(d.value->0 == 0)
            &&& d.nf == Some(true)
        }),
        spec_cp(a, b) == (ALUOpResult { value: None, ..spec_sub8(a, b, 0) }),
{
    lemma_add_flags(a, b, if carry { 1 } else { 0 });
    lemma_sub_flags(a, b, if carry { 1 } else { 0 });
}

#[verifier::spinoff_prover]
proof fn lemma_add_flags(a: u8, b: u8, c: int)
    requires
        0 <= c <= 1,
    ensures
        ({
            let s = spec_add8(a, b, c);
            &&& s.value->0 + 256 * flag_value(s.cf) == a + b + c
            &&& s.value->0 % 16 + 16 * flag_value(s.hf) == a % 16 + b % 16 + c
        }),
{
    let sum = a + b + c;
    if sum >= 256 {
        assert((sum % 256) == sum - 256);
    }
    let w = spec_add8(a, b, c).value->0;
    let ah = a / 16;
    let bh = b / 16;
    assert(a == 16 * ah + a % 16 && b == 16 * bh + b % 16);
    let lowa = a % 16 + b % 16 + c;
    let k: int = if lowa >= 16 { 1 } else { 0 };
    let qa: int = ah + bh - 16 * flag_value(spec_add8(a, b, c).cf) + k;
    assert(w == 16 * qa + (lowa - 16 * k));
    assert(w % 16 == lowa - 16 * k) by (nonlinear_arith)
        requires w == 16 * qa + (lowa - 16 * k), 0 <= lowa - 16 * k < 16;
}

#[verifier::spinoff_prover]
proof fn lemma_sub_flags(a: u8, b: u8, c: int)
    requires
        0 <= c <= 1,
    ensures
        ({
            let d = spec_sub8(a, b, c);
            &&& d.value->0 - 256 * flag_value(d.cf) == a - b - c
            &&& d.value->0 % 16 - 16 * flag_value(d.hf) == a % 16 - b % 16 - c
        }),
{
    let diff = a - b - c;
    if diff < 0 {
        assert((diff + 512) % 256 == diff + 256);
    } else {
        assert((diff + 512) % 256 == diff);
    }
    let v = spec_sub8(a, b, c).value->0;
    let ah = a / 16;
    let bh = b / 16;
    assert(a == 16 * ah + a % 16 && b == 16 * bh + b % 16);
    let low = a % 16 - b % 16 - c;
    let k: int = if low < 0 { 1 } else { 0 };
    let q: int = ah - bh + 16 * flag_value(spec_sub8(a, b, c).cf) - k;
    assert(v == 16 * q + (low + 16 * k));
    assert(v % 16 == low + 16 * k) by (nonlinear_arith)
        requires v == 16 * q + (low + 16 * k), 0 <= low + 16 * k < 16;
}

/// The one-operand operations against the two-operand ones: INC is ADD 1 (but C is kept),
/// DEC is SUB 1 (but C is kept), SLA is a value added to itself; SRL and SRA drop bit 0
/// into C, SRA keeping bit 7; CPL adds up with its operand to 0xFF. The logic operations
/// clear N and C, AND sets H and OR and XOR clear it, and all set Z for a zero result.
pub proof fn lemma_one_operand_flags(v: u8, b: u8)
    ensures
        spec_inc8(v) == (ALUOpResult { cf: None, ..spec_add8(v, 1, 0) }),
        spec_dec8(v) == (ALUOpResult { cf: None, ..spec_sub8(v, 1, 0) }),
        spec_sla(v) == spec_add8(v, v, 0) || spec_sla(v) == (ALUOpResult { hf: Some(false), ..spec_add8(v, v, 0) }),
        spec_sla(v).hf == Some(false),
        spec_srl(v).value->0 * 2 + flag_value(spec_srl(v).cf) == v,
        spec_sra(v).value->0 * 2 + flag_value(spec_sra(v).cf) == v + (if v >= 128 { 256int } else { 0 }),
        spec_srl(v).zf == Some(spec_srl(v).value->0 == 0) && spec_sra(v).zf == Some(spec_sra(v).value->0 == 0),
        spec_cpl(v).value->0 + v == 255,
        spec_and(v, b).hf == Some(true) && spec_and(v, b).cf == Some(false) && spec_and(v, b).nf == Some(false),
        spec_or(v, b).hf == Some(false) && spec_or(v, b).cf == Some(false) && spec_or(v, b).nf == Some(false),
        spec_xor(v, b).hf == Some(false) && spec_xor(v, b).cf == Some(false) && spec_xor(v, b).nf == Some(false),
        spec_and(v, b).zf == Some(spec_and(v, b).value->0 == 0),
        spec_or(v, b).zf == Some(spec_or(v, b).value->0 == 0),
        spec_xor(v, b).zf == Some(spec_xor(v, b).value->0 == 0),
{
}

/// The 16-bit additions: ADD HL, rr splits the sum into the result and C (past bit 15) and
/// the sum of the low twelve bits into their result and H (past bit 11), leaving Z; ADD SP, e
/// (and LD HL, SP + e) adds the signed offset, but takes H and C from the unsigned low byte
/// of the offset added to the low nibble and low byte of the operand, clearing Z and N.
/// SCF sets C and CCF inverts it, both clearing N and H.
pub proof fn lemma_wide_add_flags(a: u16, b: u16, e: i8, cf: bool)
    ensures
        spec_add16(a, b).value->0 + 65536 * flag_value(spec_add16(a, b).cf) == a + b,
        spec_add16(a, b).value->0 % 4096 + 4096 * flag_value(spec_add16(a, b).hf) == a % 4096 + b % 4096,
        spec_add16(a, b).zf is None && spec_add16(a, b).nf == Some(false) && spec_add16(a, b).hf is Some && spec_add16(a, b).cf is Some,
        ({
            let u: int = if e < 0 { e + 256 } else { e as int };
            let r = spec_add_offset(a, e);
            &&& r.value == Some(((a + e + 65536) % 65536) as u16)
            &&& r.hf == Some(a % 16 + u % 16 > 15)
            &&& r.cf == Some(a % 256 + u > 255)
            &&& r.zf == Some(false) && r.nf == Some(false)
        }),
        spec_scf() == (ALUOpResult::<u8> { value: None, zf: None, nf: Some(false), hf: Some(false), cf: Some(true) }),
        spec_ccf(cf) == (ALUOpResult::<u8> { value: None, zf: None, nf: Some(false), hf: Some(false), cf: Some(!cf) }),
{
    lemma_add16_flags(a, b);
    lemma_add_offset_flags(a, e);
}

#[verifier::spinoff_prover]
proof fn lemma_add16_flags(a: u16, b: u16)
    ensures
        spec_add16(a, b).value->0 + 65536 * flag_value(spec_add16(a, b).cf) == a + b,
        spec_add16(a, b).value->0 % 4096 + 4096 * flag_value(spec_add16(a, b).hf) == a % 4096 + b % 4096,
{
    let sum = a + b;
    if sum >= 65536 {
        assert(sum % 65536 == sum - 65536);
    }
    let v = spec_add16(a, b).value->0;
    let ah = a / 4096;
    let bh = b / 4096;
    assert(a == 4096 * ah + a % 4096 && b == 4096 * bh + b % 4096);
    let low = a % 4096 + b % 4096;
    let k: int = if low >= 4096 { 1 } else { 0 };
    let q: int = ah + bh - 16 * flag_value(spec_add16(a, b).cf) + k;
    assert(v == 4096 * q + (low - 4096 * k));
    assert(v % 4096 == low - 4096 * k) by (nonlinear_arith)
        requires v == 4096 * q + (low - 4096 * k), 0 <= low - 4096 * k < 4096;
}

#[verifier::spinoff_prover]
proof fn lemma_add_offset_flags(a: u16, e: i8)
    ensures
        ({
            let u: int = if e < 0 { e + 256 } else { e as int };
            let r = spec_add_offset(a, e);
            &&& r.value == Some(((a + e + 65536) % 65536) as u16)
            &&& r.hf == Some(a % 16 + u % 16 > 15)
            &&& r.cf == Some(a % 256 + u > 255)
        }),
{
    let se = sign_extend(e);
    let u: int = if e < 0 { e + 256 } else { e as int };
    assert(se == if e < 0 { u + 65280 } else { u });
    assert(se % 16 == u % 16 && se % 256 == u % 256);
    assert((a + se) % 65536 == (a + e + 65536) % 65536);
}

} // verus!
