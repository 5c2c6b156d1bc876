use vstd::prelude::*;

use super::condition::Cond;
use super::implementation::alu::{ALUBit, ALUOne, ALUTwo, AluBitKind, AluOneKind, AluTwoKind};
use super::implementation::jp::Jp;
use super::implementation::jr::Jr;
use super::implementation::ld::Ld;
use super::implementation::misc::{Halt, Invalid, Nop, DI, EI};
use super::implementation::stack::{Call, Pop, Push, Ret, Rst};
use super::operands::{AddressSource, Operand, R16, R8};
use super::{instruction_ok, DecodedInstruction};

verus! {

// Opcodes are decoded by their fields: x = bits 7-6, y = bits 5-3, z = bits 2-0,
// p = bits 5-4 and q = bit 3.

/// The 8-bit operand numbered `i`: B, C, D, E, H, L, (HL), A.
pub open spec fn table_r(i: u8) -> Operand {
    if i == 0 { Operand::R8(R8::B) }
    else if i == 1 { Operand::R8(R8::C) }
    else if i == 2 { Operand::R8(R8::D) }
    else if i == 3 { Operand::R8(R8::E) }
    else if i == 4 { Operand::R8(R8::H) }
    else if i == 5 { Operand::R8(R8::L) }
    else if i == 6 { Operand::Deref(AddressSource::HL) }
    else { Operand::R8(R8::A) }
}

/// The register pair numbered `i` in 16-bit loads and arithmetic: BC, DE, HL, SP.
pub open spec fn table_rp(i: u8) -> R16 {
    if i == 0 { R16::BC } else if i == 1 { R16::DE } else if i == 2 { R16::HL } else { R16::SP }
}

/// The register pair numbered `i` in PUSH and POP: BC, DE, HL, AF.
pub open spec fn table_rp2(i: u8) -> R16 {
    if i == 0 { R16::BC } else if i == 1 { R16::DE } else if i == 2 { R16::HL } else { R16::AF }
}

/// The condition numbered `i`: NZ, Z, NC, C.
pub open spec fn table_cc(i: u8) -> Cond {
    if i == 0 { Cond::NZ } else if i == 1 { Cond::Z } else if i == 2 { Cond::NC } else { Cond::C }
}

/// The accumulator operation numbered `i`: ADD, ADC, SUB, SBC, AND, XOR, OR, CP.
pub open spec fn table_alu(i: u8) -> AluTwoKind {
    if i == 0 { AluTwoKind::Add }
    else if i == 1 { AluTwoKind::AdC }
    else if i == 2 { AluTwoKind::Sub }
    else if i == 3 { AluTwoKind::SbC }
    else if i == 4 { AluTwoKind::And }
    else if i == 5 { AluTwoKind::Xor }
    else if i == 6 { AluTwoKind::Or }
    else { AluTwoKind::Cp }
}

/// The rotation or shift numbered `i`: RLC, RRC, RL, RR, SLA, SRA, SWAP, SRL.
pub open spec fn table_rot(i: u8) -> AluOneKind {
    if i == 0 { AluOneKind::Rlc }
    else if i == 1 { AluOneKind::Rrc }
    else if i == 2 { AluOneKind::Rl }
    else if i == 3 { AluOneKind::Rr }
    else if i == 4 { AluOneKind::Sla }
    else if i == 5 { AluOneKind::Sra }
    else if i == 6 { AluOneKind::Swap }
    else { AluOneKind::Srl }
}

/// The accumulator-only operation numbered `i`: RLCA, RRCA, RLA, RRA, DAA, CPL, SCF, CCF.
pub open spec fn table_acc(i: u8) -> AluOneKind {
    if i == 0 { AluOneKind::RlcA }
    else if i == 1 { AluOneKind::RrcA }
    else if i == 2 { AluOneKind::RlA }
    else if i == 3 { AluOneKind::RrA }
    else if i == 4 { AluOneKind::Daa }
    else if i == 5 { AluOneKind::Cpl }
    else if i == 6 { AluOneKind::Scf }
    else { AluOneKind::Ccf }
}

pub open spec fn ld(dst: Operand, src: Operand) -> DecodedInstruction {
    DecodedInstruction::Ld(Ld { dst, src, extra_cycle: false })
}

pub open spec fn invalid(opcode: u8) -> DecodedInstruction {
    DecodedInstruction::Invalid(Invalid { opcode, is_cb_prefixed: false })
}

pub open spec fn a() -> Operand {
    Operand::R8(R8::A)
}

/// The instruction of an opcode with x == 0.
pub open spec fn spec_decode_x0(opcode: u8, y: u8, z: u8, p: u8, q: u8) -> DecodedInstruction {
    if z == 0 {
        if y == 0 { DecodedInstruction::Nop(Nop {}) }
        else if y == 1 { ld(Operand::DerefWord, Operand::R16(R16::SP)) }
        else if y == 2 { invalid(opcode) }
        else if y == 3 { DecodedInstruction::Jr(Jr { cond: Cond::Always }) }
        else { DecodedInstruction::Jr(Jr { cond: table_cc((y - 4) as u8) }) }
    } else if z == 1 {
        if q == 0 { ld(Operand::R16(table_rp(p)), Operand::Imm16) }
        else { DecodedInstruction::ALUTwo(ALUTwo { op: AluTwoKind::Add, dst: Operand::R16(R16::HL), src: Operand::R16(table_rp(p)) }) }
    } else if z == 2 {
        let mem = if p == 0 { AddressSource::BC } else if p == 1 { AddressSource::DE }
            else if p == 2 { AddressSource::HLInc } else { AddressSource::HLDec };
        if q == 0 { ld(Operand::Deref(mem), a()) } else { ld(a(), Operand::Deref(mem)) }
    } else if z == 3 {
        DecodedInstruction::ALUOne(ALUOne { op: if q == 0 { AluOneKind::Inc } else { AluOneKind::Dec }, operand: Operand::R16(table_rp(p)) })
    } else if z == 4 {
        DecodedInstruction::ALUOne(ALUOne { op: AluOneKind::Inc, operand: table_r(y) })
    } else if z == 5 {
        DecodedInstruction::ALUOne(ALUOne { op: AluOneKind::Dec, operand: table_r(y) })
    } else if z == 6 {
        ld(table_r(y), Operand::Imm8)
    } else {
        DecodedInstruction::ALUOne(ALUOne { op: table_acc(y), operand: a() })
    }
}

/// The instruction of an opcode with x == 3.
pub open spec fn spec_decode_x3(opcode: u8, y: u8, z: u8, p: u8, q: u8) -> DecodedInstruction {
    if z == 0 {
        if y <= 3 { DecodedInstruction::Ret(Ret { cond: table_cc(y), enable_interrupt: false }) }
        else if y == 4 { ld(Operand::Deref(AddressSource::HighImm8), a()) }
        else if y == 5 { DecodedInstruction::ALUTwo(ALUTwo { op: AluTwoKind::Add, dst: Operand::R16(R16::SP), src: Operand::Off8 }) }
        else if y == 6 { ld(a(), Operand::Deref(AddressSource::HighImm8)) }
        else { ld(Operand::R16(R16::HL), Operand::SPPlusOff8) }
    } else if z == 1 {
        if q == 0 { DecodedInstruction::Pop(Pop { register: table_rp2(p) }) }
        else if p == 0 { DecodedInstruction::Ret(Ret { cond: Cond::Always, enable_interrupt: false }) }
        else if p == 1 { DecodedInstruction::Ret(Ret { cond: Cond::Always, enable_interrupt: true }) }
        else if p == 2 { DecodedInstruction::Jp(Jp { cond: Cond::Always, target: Operand::R16(R16::HL), wait_one_extra_cycle: false }) }
        else { DecodedInstruction::Ld(Ld { dst: Operand::R16(R16::SP), src: Operand::R16(R16::HL), extra_cycle: true }) }
    } else if z == 2 {
        if y <= 3 { DecodedInstruction::Jp(Jp { cond: table_cc(y), target: Operand::Imm16, wait_one_extra_cycle: true }) }
        else if y == 4 { ld(Operand::Deref(AddressSource::HighC), a()) }
        else if y == 5 { ld(Operand::Deref(AddressSource::Imm16), a()) }
        else if y == 6 { ld(a(), Operand::Deref(AddressSource::HighC)) }
        else { ld(a(), Operand::Deref(AddressSource::Imm16)) }
    } else if z == 3 {
        if y == 0 { DecodedInstruction::Jp(Jp { cond: Cond::Always, target: Operand::Imm16, wait_one_extra_cycle: true }) }
        else if y == 6 { DecodedInstruction::DI(DI {}) }
        else if y == 7 { DecodedInstruction::EI(EI {}) }
        else { invalid(opcode) }
    } else if z == 4 {
        if y <= 3 { DecodedInstruction::Call(Call { cond: table_cc(y) }) } else { invalid(opcode) }
    } else if z == 5 {
        if q == 0 { DecodedInstruction::Push(Push { register: table_rp2(p) }) }
        else if p == 0 { DecodedInstruction::Call(Call { cond: Cond::Always }) }
        else { invalid(opcode) }
    } else if z == 6 {
        DecodedInstruction::ALUTwo(ALUTwo { op: table_alu(y), dst: a(), src: Operand::Imm8 })
    } else {
        DecodedInstruction::Rst(Rst { address: (y * 8) as u8 })
    }
}

/// The instruction of an unprefixed opcode. 0xCB, the prefix itself, is handled by the
/// CPU before decoding and decodes here as invalid, like the opcodes the CPU lacks.
pub open spec fn spec_decode(opcode: u8) -> DecodedInstruction {
    let x = opcode / 64;
    let y = (opcode / 8) % 8;
    let z = opcode % 8;
    let p = y / 2;
    let q = y % 2;
    if x == 0 {
        spec_decode_x0(opcode, y, z, p, q)
    } else if x == 1 {
        if z == 6 && y == 6 { DecodedInstruction::Halt(Halt {}) } else { ld(table_r(y), table_r(z)) }
    } else if x == 2 {
        DecodedInstruction::ALUTwo(ALUTwo { op: table_alu(y), dst: a(), src: table_r(z) })
    } else {
        spec_decode_x3(opcode, y, z, p, q)
    }
}

/// The instruction of an opcode that follows the 0xCB prefix.
pub open spec fn spec_decode_cb_prefixed(opcode: u8) -> DecodedInstruction {
    let x = opcode / 64;
    let y = (opcode / 8) % 8;
    let z = opcode % 8;
    if x == 0 {
        DecodedInstruction::ALUOne(ALUOne { op: table_rot(y), operand: table_r(z) })
    } else {
        DecodedInstruction::ALUBit(ALUBit {
            op: if x == 1 { AluBitKind::Bit } else if x == 2 { AluBitKind::Res } else { AluBitKind::SetBit },
            bit: y,
            operand: table_r(z),
        })
    }
}

fn r_operand(i: u8) -> (r: Operand)
    ensures
        r == table_r(i),
{
    if i == 0 { Operand::R8(R8::B) }
    else if i == 1 { Operand::R8(R8::C) }
    else if i == 2 { Operand::R8(R8::D) }
    else if i == 3 { Operand::R8(R8::E) }
    else if i == 4 { Operand::R8(R8::H) }
    else if i == 5 { Operand::R8(R8::L) }
    else if i == 6 { Operand::Deref(AddressSource::HL) }
    else { Operand::R8(R8::A) }
}

fn rp_register(i: u8) -> (r: R16)
    ensures
        r == table_rp(i),
{
    if i == 0 { R16::BC } else if i == 1 { R16::DE } else if i == 2 { R16::HL } else { R16::SP }
}

fn rp2_register(i: u8) -> (r: R16)
    ensures
        r == table_rp2(i),
{
    if i == 0 { R16::BC } else if i == 1 { R16::DE } else if i == 2 { R16::HL } else { R16::AF }
}

fn cc_condition(i: u8) -> (r: Cond)
    ensures
        r == table_cc(i),
{
    if i == 0 { Cond::NZ } else if i == 1 { Cond::Z } else if i == 2 { Cond::NC } else { Cond::C }
}

fn alu_operation(i: u8) -> (r: AluTwoKind)
    ensures
        r == table_alu(i),
{
    if i == 0 { AluTwoKind::Add }
    else if i == 1 { AluTwoKind::AdC }
    else if i == 2 { AluTwoKind::Sub }
    else if i == 3 { AluTwoKind::SbC }
    else if i == 4 { AluTwoKind::And }
    else if i == 5 { AluTwoKind::Xor }
    else if i == 6 { AluTwoKind::Or }
    else { AluTwoKind::Cp }
}

fn rot_operation(i: u8) -> (r: AluOneKind)
    ensures
        r == table_rot(i),
{
    if i == 0 { AluOneKind::Rlc }
    else if i == 1 { AluOneKind::Rrc }
    else if i == 2 { AluOneKind::Rl }
    else if i == 3 { AluOneKind::Rr }
    else if i == 4 { AluOneKind::Sla }
    else if i == 5 { AluOneKind::Sra }
    else if i == 6 { AluOneKind::Swap }
    else { AluOneKind::Srl }
}

fn acc_operation(i: u8) -> (r: AluOneKind)
    ensures
        r == table_acc(i),
{
    if i == 0 { AluOneKind::RlcA }
    else if i == 1 { AluOneKind::RrcA }
    else if i == 2 { AluOneKind::RlA }
    else if i == 3 { AluOneKind::RrA }
    else if i == 4 { AluOneKind::Daa }
    else if i == 5 { AluOneKind::Cpl }
    else if i == 6 { AluOneKind::Scf }
    else { AluOneKind::Ccf }
}

fn load(dst: Operand, src: Operand) -> (r: DecodedInstruction)
    ensures
        r == ld(dst, src),
{
    DecodedInstruction::Ld(Ld::new(dst, src, false))
}

fn decode_x0(opcode: u8, y: u8, z: u8, p: u8, q: u8) -> (r: DecodedInstruction)
    requires
        y < 8,
        z < 8,
        p < 4,
        q < 2,
    ensures
        r == spec_decode_x0(opcode, y, z, p, q),
{
    let a = Operand::R8(R8::A);
    if z == 0 {
        if y == 0 { DecodedInstruction::Nop(Nop::new()) }
        else if y == 1 { load(Operand::DerefWord, Operand::R16(R16::SP)) }
        else if y == 2 { DecodedInstruction::Invalid(Invalid::new(opcode, false)) }
        else if y == 3 { DecodedInstruction::Jr(Jr::new(Cond::Always)) }
        else { DecodedInstruction::Jr(Jr::new(cc_condition(y - 4))) }
    } else if z == 1 {
        if q == 0 { load(Operand::R16(rp_register(p)), Operand::Imm16) }
        else { DecodedInstruction::ALUTwo(ALUTwo::new(AluTwoKind::Add, Operand::R16(R16::HL), Operand::R16(rp_register(p)))) }
    } else if z == 2 {
        let mem = if p == 0 { AddressSource::BC } else if p == 1 { AddressSource::DE }
            else if p == 2 { AddressSource::HLInc } else { AddressSource::HLDec };
        if q == 0 { load(Operand::Deref(mem), a) } else { load(a, Operand::Deref(mem)) }
    } else if z == 3 {
        let op = if q == 0 { AluOneKind::Inc } else { AluOneKind::Dec };
        DecodedInstruction::ALUOne(ALUOne::new(op, Operand::R16(rp_register(p))))
    } else if z == 4 {
        DecodedInstruction::ALUOne(ALUOne::new(AluOneKind::Inc, r_operand(y)))
    } else if z == 5 {
        DecodedInstruction::ALUOne(ALUOne::new(AluOneKind::Dec, r_operand(y)))
    } else if z == 6 {
        load(r_operand(y), Operand::Imm8)
    } else {
        DecodedInstruction::ALUOne(ALUOne::new(acc_operation(y), a))
    }
}

fn decode_x3(opcode: u8, y: u8, z: u8, p: u8, q: u8) -> (r: DecodedInstruction)
    requires
        y < 8,
        z < 8,
        p < 4,
        q < 2,
    ensures
        r == spec_decode_x3(opcode, y, z, p, q),
{
    let a = Operand::R8(R8::A);
    if z == 0 {
        if y <= 3 { DecodedInstruction::Ret(Ret::new(cc_condition(y), false)) }
        else if y == 4 { load(Operand::Deref(AddressSource::HighImm8), a) }
        else if y == 5 { DecodedInstruction::ALUTwo(ALUTwo::new(AluTwoKind::Add, Operand::R16(R16::SP), Operand::Off8)) }
        else if y == 6 { load(a, Operand::Deref(AddressSource::HighImm8)) }
        else { load(Operand::R16(R16::HL), Operand::SPPlusOff8) }
    } else if z == 1 {
        if q == 0 { DecodedInstruction::Pop(Pop::new(rp2_register(p))) }
        else if p == 0 { DecodedInstruction::Ret(Ret::new(Cond::Always, false)) }
        else if p == 1 { DecodedInstruction::Ret(Ret::new(Cond::Always, true)) }
        else if p == 2 { DecodedInstruction::Jp(Jp::new(Cond::Always, Operand::R16(R16::HL), false)) }
        else { DecodedInstruction::Ld(Ld::new(Operand::R16(R16::SP), Operand::R16(R16::HL), true)) }
    } else if z == 2 {
        if y <= 3 { DecodedInstruction::Jp(Jp::new(cc_condition(y), Operand::Imm16, true)) }
        else if y == 4 { load(Operand::Deref(AddressSource::HighC), a) }
        else if y == 5 { load(Operand::Deref(AddressSource::Imm16), a) }
        else if y == 6 { load(a, Operand::Deref(AddressSource::HighC)) }
        else { load(a, Operand::Deref(AddressSource::Imm16)) }
    } else if z == 3 {
        if y == 0 { DecodedInstruction::Jp(Jp::new(Cond::Always, Operand::Imm16, true)) }
        else if y == 6 { DecodedInstruction::DI(DI::new()) }
        else if y == 7 { DecodedInstruction::EI(EI::new()) }
        else { DecodedInstruction::Invalid(Invalid::new(opcode, false)) }
    } else if z == 4 {
        if y <= 3 { DecodedInstruction::Call(Call::new(cc_condition(y))) }
        else { DecodedInstruction::Invalid(Invalid::new(opcode, false)) }
    } else if z == 5 {
        if q == 0 { DecodedInstruction::Push(Push::new(rp2_register(p))) }
        else if p == 0 { DecodedInstruction::Call(Call::new(Cond::Always)) }
        else { DecodedInstruction::Invalid(Invalid::new(opcode, false)) }
    } else if z == 6 {
        DecodedInstruction::ALUTwo(ALUTwo::new(alu_operation(y), a, Operand::Imm8))
    } else {
        DecodedInstruction::Rst(Rst::new(y * 8))
    }
}

/// Decodes an unprefixed opcode.
pub fn decode(opcode: u8) -> (r: DecodedInstruction)
    ensures
        r == spec_decode(opcode),
        instruction_ok(r),
{
    let x: u8 = opcode / 64;
    let y: u8 = (opcode / 8) % 8;
    let z: u8 = opcode % 8;
    let p: u8 = y / 2;
    let q: u8 = y % 2;
    if x == 0 {
        decode_x0(opcode, y, z, p, q)
    } else if x == 1 {
        if z == 6 && y == 6 {
            DecodedInstruction::Halt(Halt::new())
        } else {
            load(r_operand(y), r_operand(z))
        }
    } else if x == 2 {
        DecodedInstruction::ALUTwo(ALUTwo::new(alu_operation(y), Operand::R8(R8::A), r_operand(z)))
    } else {
        decode_x3(opcode, y, z, p, q)
    }
}

/// Decodes an opcode that follows the 0xCB prefix.
pub fn decode_cb_prefixed(opcode: u8) -> (r: DecodedInstruction)
    ensures
        r == spec_decode_cb_prefixed(opcode),
        instruction_ok(r),
{
    let x: u8 = opcode / 64;
    let y: u8 = (opcode / 8) % 8;
    let z: u8 = opcode % 8;
    if x == 0 {
        DecodedInstruction::ALUOne(ALUOne::new(rot_operation(y), r_operand(z)))
    } else {
        let op = if x == 1 { AluBitKind::Bit } else if x == 2 { AluBitKind::Res } else { AluBitKind::SetBit };
        DecodedInstruction::ALUBit(ALUBit::new(op, y, r_operand(z)))
    }
}

/// Every opcode from 0x40 to 0x7F but 0x76 (HALT) copies the 8-bit operand numbered by
/// bits 2-0 into the one numbered by bits 5-3.
pub proof fn lemma_load_block(opcode: u8)
    requires
        0x40 <= opcode < 0x80,
        opcode != 0x76,
    ensures
        spec_decode(opcode) == ld(table_r(((opcode / 8) % 8) as u8), table_r(opcode % 8)),
{
}

/// Every opcode from 0x80 to 0xBF applies the operation numbered by bits 5-3 to A and the
/// 8-bit operand numbered by bits 2-0.
pub proof fn lemma_accumulator_block(opcode: u8)
    requires
        0x80 <= opcode < 0xC0,
    ensures
        spec_decode(opcode) == DecodedInstruction::ALUTwo(ALUTwo {
            op: table_alu(((opcode / 8) % 8) as u8),
            dst: a(),
            src: table_r(opcode % 8),
        }),
{
}

/// A prefixed opcode names the bit it tests, clears or sets in bits 5-3, and the operand in
/// bits 2-0.
pub proof fn lemma_prefixed_bit_operand(opcode: u8)
    requires
        opcode >= 0x40,
    ensures
        spec_decode_cb_prefixed(opcode) matches DecodedInstruction::ALUBit(i)
            && i.bit == (opcode / 8) % 8 && i.operand == table_r(opcode % 8),
{
}

/// The register an opcode names by its three low bits: B, C, D, E, H, L, (HL), A.
pub open spec fn named_operand(bits: u8) -> Operand {
    match bits {
        0 => Operand::R8(R8::B),
        1 => Operand::R8(R8::C),
        2 => Operand::R8(R8::D),
        3 => Operand::R8(R8::E),
        4 => Operand::R8(R8::H),
        5 => Operand::R8(R8::L),
        6 => Operand::Deref(AddressSource::HL),
        _ => Operand::R8(R8::A),
    }
}

/// The accumulator operations: 0x80-0x87 ADD, 0x88-0x8F ADC, 0x90-0x97 SUB, 0x98-0x9F SBC,
/// 0xA0-0xA7 AND, 0xA8-0xAF XOR, 0xB0-0xB7 OR, 0xB8-0xBF CP, each on B, C, D, E, H, L, (HL)
/// and A in turn; 0xC6, 0xCE, 0xD6, 0xDE, 0xE6, 0xEE, 0xF6 and 0xFE do the same on the byte
/// after the opcode. The result goes to A.
pub proof fn lemma_accumulator_opcodes(opcode: u8)
    requires
        0x80 <= opcode < 0xC0 || (opcode >= 0xC0 && opcode % 8 == 6),
    ensures
        spec_decode(opcode) matches DecodedInstruction::ALUTwo(i) && {
            &&& i.dst == Operand::R8(R8::A)
            &&& i.src == if opcode >= 0xC0 { Operand::Imm8 } else { named_operand(opcode % 8) }
            &&& (0x80 <= opcode <= 0x87 || opcode == 0xC6) ==> i.op == AluTwoKind::Add
            &&& (0x88 <= opcode <= 0x8F || opcode == 0xCE) ==> i.op == AluTwoKind::AdC
            &&& (0x90 <= opcode <= 0x97 || opcode == 0xD6) ==> i.op == AluTwoKind::Sub
            &&& (0x98 <= opcode <= 0x9F || opcode == 0xDE) ==> i.op == AluTwoKind::SbC
            &&& (0xA0 <= opcode <= 0xA7 || opcode == 0xE6) ==> i.op == AluTwoKind::And
            &&& (0xA8 <= opcode <= 0xAF || opcode == 0xEE) ==> i.op == AluTwoKind::Xor
            &&& (0xB0 <= opcode <= 0xB7 || opcode == 0xF6) ==> i.op == AluTwoKind::Or
            &&& (0xB8 <= opcode <= 0xBF || opcode == 0xFE) ==> i.op == AluTwoKind::Cp
        },
{
}

/// The loads between registers: 0x40-0x7F but 0x76 (HALT) copy the operand named by bits
/// 2-0 into the one named by bits 5-3; 0x06, 0x0E, ..., 0x3E load the byte after the opcode.
pub proof fn lemma_register_load_opcodes(opcode: u8)
    requires
        (0x40 <= opcode < 0x80 && opcode != 0x76) || (opcode < 0x40 && opcode % 8 == 6),
    ensures
        spec_decode(opcode) == ld(named_operand(((opcode / 8) % 8) as u8),
            if opcode >= 0x40 { named_operand(opcode % 8) } else { Operand::Imm8 }),
{
}

/// The operations on A alone: 0x07 RLCA, 0x0F RRCA, 0x17 RLA, 0x1F RRA, 0x27 DAA, 0x2F CPL,
/// 0x37 SCF, 0x3F CCF.
pub proof fn lemma_accumulator_only_opcodes()
    ensures
        spec_decode(0x07) == DecodedInstruction::ALUOne(ALUOne { op: AluOneKind::RlcA, operand: Operand::R8(R8::A) }),
        spec_decode(0x0F) == DecodedInstruction::ALUOne(ALUOne { op: AluOneKind::RrcA, operand: Operand::R8(R8::A) }),
        spec_decode(0x17) == DecodedInstruction::ALUOne(ALUOne { op: AluOneKind::RlA, operand: Operand::R8(R8::A) }),
        spec_decode(0x1F) == DecodedInstruction::ALUOne(ALUOne { op: AluOneKind::RrA, operand: Operand::R8(R8::A) }),
        spec_decode(0x27) == DecodedInstruction::ALUOne(ALUOne { op: AluOneKind::Daa, operand: Operand::R8(R8::A) }),
        spec_decode(0x2F) == DecodedInstruction::ALUOne(ALUOne { op: AluOneKind::Cpl, operand: Operand::R8(R8::A) }),
        spec_decode(0x37) == DecodedInstruction::ALUOne(ALUOne { op: AluOneKind::Scf, operand: Operand::R8(R8::A) }),
        spec_decode(0x3F) == DecodedInstruction::ALUOne(ALUOne { op: AluOneKind::Ccf, operand: Operand::R8(R8::A) }),
{
}

/// The conditions of the relative jumps (0x20, 0x28, 0x30, 0x38), returns (0xC0, 0xC8,
/// 0xD0, 0xD8), jumps (0xC2, 0xCA, 0xD2, 0xDA) and calls (0xC4, 0xCC, 0xD4, 0xDC): NZ, Z,
/// NC and C in that order.
pub proof fn lemma_condition_opcodes(opcode: u8)
    requires
        0x20 <= opcode < 0x40 && opcode % 8 == 0 || 0xC0 <= opcode < 0xE0 && (opcode % 8 == 0 || opcode % 8 == 2 || opcode % 8 == 4),
    ensures
        ({
            let cond = if opcode % 32 < 8 { Cond::NZ } else if opcode % 32 < 16 { Cond::Z } else if opcode % 32 < 24 { Cond::NC } else { Cond::C };
            &&& opcode < 0x40 ==> spec_decode(opcode) == DecodedInstruction::Jr(Jr { cond })
            &&& opcode >= 0xC0 && opcode % 8 == 0 ==> spec_decode(opcode) == DecodedInstruction::Ret(Ret { cond, enable_interrupt: false })
            &&& opcode >= 0xC0 && opcode % 8 == 2 ==> (spec_decode(opcode) matches DecodedInstruction::Jp(j) && j.cond == cond)
            &&& opcode >= 0xC0 && opcode % 8 == 4 ==> spec_decode(opcode) == DecodedInstruction::Call(Call { cond })
        }),
{
}

/// After the 0xCB prefix: 0x00-0x07 RLC, 0x08-0x0F RRC, 0x10-0x17 RL, 0x18-0x1F RR, 0x20-0x27
/// SLA, 0x28-0x2F SRA, 0x30-0x37 SWAP, 0x38-0x3F SRL; then 0x40-0x7F BIT, 0x80-0xBF RES and
/// 0xC0-0xFF SET, on the bit numbered by bits 5-3; each on the operand named by bits 2-0.
pub proof fn lemma_prefixed_opcodes(opcode: u8)
    ensures
        opcode < 0x40 ==> (spec_decode_cb_prefixed(opcode) matches DecodedInstruction::ALUOne(i) && {
            &&& i.operand == named_operand(opcode % 8)
            &&& opcode < 0x08 ==> i.op == AluOneKind::Rlc
            &&& 0x08 <= opcode < 0x10 ==> i.op == AluOneKind::Rrc
            &&& 0x10 <= opcode < 0x18 ==> i.op == AluOneKind::Rl
            &&& 0x18 <= opcode < 0x20 ==> i.op == AluOneKind::Rr
            &&& 0x20 <= opcode < 0x28 ==> i.op == AluOneKind::Sla
            &&& 0x28 <= opcode < 0x30 ==> i.op == AluOneKind::Sra
            &&& 0x30 <= opcode < 0x38 ==> i.op == AluOneKind::Swap
            &&& 0x38 <= opcode ==> i.op == AluOneKind::Srl
        }),
        opcode >= 0x40 ==> (spec_decode_cb_prefixed(opcode) matches DecodedInstruction::ALUBit(i) && {
            &&& i.operand == named_operand(opcode % 8)
            &&& i.bit == (opcode / 8) % 8
            &&& opcode < 0x80 ==> i.op == AluBitKind::Bit
            &&& 0x80 <= opcode < 0xC0 ==> i.op == AluBitKind::Res
            &&& 0xC0 <= opcode ==> i.op == AluBitKind::SetBit
        }),
{
}

/// The register pairs: 0x01, 0x11, 0x21, 0x31 load BC, DE, HL, SP with the word after the
/// opcode, 0x03/0x0B ... 0x33/0x3B increment and decrement them, 0x09 ... 0x39 add them to
/// HL; PUSH (0xC5, 0xD5, 0xE5, 0xF5) and POP (0xC1, 0xD1, 0xE1, 0xF1) take BC, DE, HL, AF.
/// INC and DEC of an 8-bit operand are 0x04 + 8 n and 0x05 + 8 n; RST 0xC7 + 8 n calls 8 n.
pub proof fn lemma_register_pair_opcodes(opcode: u8)
    ensures
        ({
            let pair = if opcode / 16 % 4 == 0 { R16::BC } else if opcode / 16 % 4 == 1 { R16::DE }
                else if opcode / 16 % 4 == 2 { R16::HL } else { R16::SP };
            let stacked = if opcode / 16 % 4 == 0 { R16::BC } else if opcode / 16 % 4 == 1 { R16::DE }
                else if opcode / 16 % 4 == 2 { R16::HL } else { R16::AF };
            &&& opcode < 0x40 && opcode % 16 == 1 ==> spec_decode(opcode) == ld(Operand::R16(pair), Operand::Imm16)
            &&& opcode < 0x40 && opcode % 16 == 3 ==> spec_decode(opcode)
                == DecodedInstruction::ALUOne(ALUOne { op: AluOneKind::Inc, operand: Operand::R16(pair) })
            &&& opcode < 0x40 && opcode % 16 == 0xB ==> spec_decode(opcode)
                == DecodedInstruction::ALUOne(ALUOne { op: AluOneKind::Dec, operand: Operand::R16(pair) })
            &&& opcode < 0x40 && opcode % 16 == 9 ==> spec_decode(opcode)
                == DecodedInstruction::ALUTwo(ALUTwo { op: AluTwoKind::Add, dst: Operand::R16(R16::HL), src: Operand::R16(pair) })
            &&& opcode >= 0xC0 && opcode % 16 == 5 ==> spec_decode(opcode) == DecodedInstruction::Push(Push { register: stacked })
            &&& opcode >= 0xC0 && opcode % 16 == 1 ==> spec_decode(opcode) == DecodedInstruction::Pop(Pop { register: stacked })
            &&& opcode < 0x40 && opcode % 8 == 4 ==> spec_decode(opcode)
                == DecodedInstruction::ALUOne(ALUOne { op: AluOneKind::Inc, operand: named_operand(opcode / 8) })
            &&& opcode < 0x40 && opcode % 8 == 5 ==> spec_decode(opcode)
                == DecodedInstruction::ALUOne(ALUOne { op: AluOneKind::Dec, operand: named_operand(opcode / 8) })
            &&& opcode >= 0xC0 && opcode % 8 == 7 ==> spec_decode(opcode) == DecodedInstruction::Rst(Rst { address: (opcode - 0xC7) as u8 })
        }),
{
}

} // verus!
