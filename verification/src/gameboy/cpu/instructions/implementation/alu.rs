use vstd::prelude::*;

use super::super::super::super::bus::MemoryOperation;
use super::super::super::registers::{Registers, RegistersView};
use super::super::alu::{bit_of, clear_zf, spec_add16, spec_add8, spec_add_offset, spec_and, spec_ccf, spec_cp, spec_cpl, spec_daa_result, spec_dec8, spec_inc8, spec_or, spec_rl, spec_rlc, spec_rr, spec_rrc, spec_scf, spec_sla, spec_sra, spec_srl, spec_sub8, spec_swap_result, spec_xor, ALUOneOp, ALUOpResult, ALUTwoOp, AdC, Add, And, Bit, Cp, Dec, Inc, Or, Res, SbC, SetBit, Sub, Swap, Xor, CCF, CPL, DAA, RL, RLA, RLC, RLCA, RR, RRA, RRC, RRCA, SCF, SLA, SRA, SRL};
use super::super::operands::{apply_flags, dec16, inc16, is_word, read_step, readable, write_flags, write_step, Operand, OperandReadExecutionState, OperandWriteExecutionState, ReadExecution, WriteExecution};
use super::super::{InstructionExecutionState, Instruction};

verus! {

/// The operations on one operand.
#[derive(Debug, Clone, Copy, PartialEq, Eq, Hash, Structural)]
pub enum AluOneKind {
    Inc,
    Dec,
    Rlc,
    Rrc,
    Rl,
    Rr,
    Sla,
    Sra,
    Swap,
    Srl,
    RlcA,
    RrcA,
    RlA,
    RrA,
    Daa,
    Cpl,
    Scf,
    Ccf,
}

/// The operations between the accumulator (or HL, or SP) and a source.
#[derive(Debug, Clone, Copy, PartialEq, Eq, Hash, Structural)]
pub enum AluTwoKind {
    Add,
    AdC,
    Sub,
    SbC,
    And,
    Xor,
    Or,
    Cp,
}

/// The operations on one bit.
#[derive(Debug, Clone, Copy, PartialEq, Eq, Hash, Structural)]
pub enum AluBitKind {
    Bit,
    Res,
    SetBit,
}

/// An ALU operation together with its parameters.
#[derive(Debug, Clone, Copy, PartialEq, Eq, Hash, Structural)]
pub enum AluKind {
    One(AluOneKind),
    Two(AluTwoKind),
    Bit(AluBitKind, u8),
}

/// An 8-bit result widened to 16 bits.
pub open spec fn widen(r: ALUOpResult<u8>) -> ALUOpResult<u16> {
    ALUOpResult {
        value: match r.value { Some(x) => Some(x as u16), None => None },
        zf: r.zf,
        nf: r.nf,
        hf: r.hf,
        cf: r.cf,
    }
}

fn widen_exec(r: ALUOpResult<u8>) -> (w: ALUOpResult<u16>)
    ensures
        w == widen(r),
{
    ALUOpResult {
        value: match r.value { Some(x) => Some(x as u16), None => None },
        zf: r.zf,
        nf: r.nf,
        hf: r.hf,
        cf: r.cf,
    }
}

/// Result of an operation on one byte, given the current N, H and C flags.
pub open spec fn spec_alu_one8(kind: AluOneKind, x: u8, nf: bool, hf: bool, cf: bool) -> ALUOpResult<u8> {
    match kind {
        AluOneKind::Inc => spec_inc8(x),
        AluOneKind::Dec => spec_dec8(x),
        AluOneKind::Rlc => spec_rlc(x),
        AluOneKind::Rrc => spec_rrc(x),
        AluOneKind::Rl => spec_rl(x, cf),
        AluOneKind::Rr => spec_rr(x, cf),
        AluOneKind::Sla => spec_sla(x),
        AluOneKind::Sra => spec_sra(x),
        AluOneKind::Swap => spec_swap_result(x),
        AluOneKind::Srl => spec_srl(x),
        AluOneKind::RlcA => clear_zf(spec_rlc(x)),
        AluOneKind::RrcA => clear_zf(spec_rrc(x)),
        AluOneKind::RlA => clear_zf(spec_rl(x, cf)),
        AluOneKind::RrA => clear_zf(spec_rr(x, cf)),
        AluOneKind::Daa => spec_daa_result(x, nf, hf, cf),
        AluOneKind::Cpl => spec_cpl(x),
        AluOneKind::Scf => spec_scf(),
        AluOneKind::Ccf => spec_ccf(cf),
    }
}

/// Result of an operation between two bytes, given the current C flag.
pub open spec fn spec_alu_two8(kind: AluTwoKind, a: u8, b: u8, cf: bool) -> ALUOpResult<u8> {
    match kind {
        AluTwoKind::Add => spec_add8(a, b, 0),
        AluTwoKind::AdC => spec_add8(a, b, if cf { 1 } else { 0 }),
        AluTwoKind::Sub => spec_sub8(a, b, 0),
        AluTwoKind::SbC => spec_sub8(a, b, if cf { 1 } else { 0 }),
        AluTwoKind::And => spec_and(a, b),
        AluTwoKind::Xor => spec_xor(a, b),
        AluTwoKind::Or => spec_or(a, b),
        AluTwoKind::Cp => spec_cp(a, b),
    }
}

/// Result of a bit operation.
pub open spec fn spec_alu_bit(kind: AluBitKind, bit: u8, x: u8) -> ALUOpResult<u8> {
    match kind {
        AluBitKind::Bit => ALUOpResult { value: None, zf: Some(!bit_of(x, bit)), nf: Some(false), hf: Some(true), cf: None },
        AluBitKind::Res => ALUOpResult { value: Some(x & !(1u8 << bit)), zf: None, nf: None, hf: None, cf: None },
        AluBitKind::SetBit => ALUOpResult { value: Some(x | (1u8 << bit)), zf: None, nf: None, hf: None, cf: None },
    }
}

/// Result of an ALU operation on the destination value `dst` and the source value `src`.
pub open spec fn spec_alu(kind: AluKind, dst_is_word: bool, src_is_word: bool, dst: u16, src: u16, v: RegistersView) -> ALUOpResult<u16> {
    match kind {
        AluKind::One(k) => if dst_is_word {
            match k {
                AluOneKind::Inc => ALUOpResult { value: Some(inc16(src)), zf: None, nf: None, hf: None, cf: None },
                _ => ALUOpResult { value: Some(dec16(src)), zf: None, nf: None, hf: None, cf: None },
            }
        } else {
            widen(spec_alu_one8(k, src as u8, v.nf(), v.hf(), v.cf()))
        },
        AluKind::Two(k) => if dst_is_word && src_is_word {
            spec_add16(dst, src)
        } else if dst_is_word {
            spec_add_offset(dst, src as u8 as i8)
        } else {
            widen(spec_alu_two8(k, dst as u8, src as u8, v.cf()))
        },
        AluKind::Bit(k, bit) => widen(spec_alu_bit(k, bit, src as u8)),
    }
}

/// Runs an operation on one byte.
fn alu_one8(kind: AluOneKind, x: u8, nf: bool, hf: bool, cf: bool) -> (r: ALUOpResult<u8>)
    ensures
        r == spec_alu_one8(kind, x, nf, hf, cf),
{
    match kind {
        AluOneKind::Inc => <Inc as ALUOneOp<u8>>::execute(x, nf, hf, cf),
        AluOneKind::Dec => <Dec as ALUOneOp<u8>>::execute(x, nf, hf, cf),
        AluOneKind::Rlc => <RLC as ALUOneOp<u8>>::execute(x, nf, hf, cf),
        AluOneKind::Rrc => <RRC as ALUOneOp<u8>>::execute(x, nf, hf, cf),
        AluOneKind::Rl => <RL as ALUOneOp<u8>>::execute(x, nf, hf, cf),
        AluOneKind::Rr => <RR as ALUOneOp<u8>>::execute(x, nf, hf, cf),
        AluOneKind::Sla => <SLA as ALUOneOp<u8>>::execute(x, nf, hf, cf),
        AluOneKind::Sra => <SRA as ALUOneOp<u8>>::execute(x, nf, hf, cf),
        AluOneKind::Swap => <Swap as ALUOneOp<u8>>::execute(x, nf, hf, cf),
        AluOneKind::Srl => <SRL as ALUOneOp<u8>>::execute(x, nf, hf, cf),
        AluOneKind::RlcA => <RLCA as ALUOneOp<u8>>::execute(x, nf, hf, cf),
        AluOneKind::RrcA => <RRCA as ALUOneOp<u8>>::execute(x, nf, hf, cf),
        AluOneKind::RlA => <RLA as ALUOneOp<u8>>::execute(x, nf, hf, cf),
        AluOneKind::RrA => <RRA as ALUOneOp<u8>>::execute(x, nf, hf, cf),
        AluOneKind::Daa => <DAA as ALUOneOp<u8>>::execute(x, nf, hf, cf),
        AluOneKind::Cpl => <CPL as ALUOneOp<u8>>::execute(x, nf, hf, cf),
        AluOneKind::Scf => <SCF as ALUOneOp<u8>>::execute(x, nf, hf, cf),
        AluOneKind::Ccf => <CCF as ALUOneOp<u8>>::execute(x, nf, hf, cf),
    }
}

/// Runs an operation between two bytes.
fn alu_two8(kind: AluTwoKind, a: u8, b: u8, cf: bool) -> (r: ALUOpResult<u8>)
    ensures
        r == spec_alu_two8(kind, a, b, cf),
{
    match kind {
        AluTwoKind::Add => <Add as ALUTwoOp<u8, u8>>::execute(a, b, cf),
        AluTwoKind::AdC => <AdC as ALUTwoOp<u8, u8>>::execute(a, b, cf),
        AluTwoKind::Sub => <Sub as ALUTwoOp<u8, u8>>::execute(a, b, cf),
        AluTwoKind::SbC => <SbC as ALUTwoOp<u8, u8>>::execute(a, b, cf),
        AluTwoKind::And => <And as ALUTwoOp<u8, u8>>::execute(a, b, cf),
        AluTwoKind::Xor => <Xor as ALUTwoOp<u8, u8>>::execute(a, b, cf),
        AluTwoKind::Or => <Or as ALUTwoOp<u8, u8>>::execute(a, b, cf),
        AluTwoKind::Cp => <Cp as ALUTwoOp<u8, u8>>::execute(a, b, cf),
    }
}

/// Runs an ALU operation.
fn alu_compute(kind: AluKind, dst_is_word: bool, src_is_word: bool, dst: u16, src: u16, registers: &Registers) -> (r: ALUOpResult<u16>)
    requires
        kind matches AluKind::Bit(_, bit) ==> bit < 8,
    ensures
        r == spec_alu(kind, dst_is_word, src_is_word, dst, src, registers@),
{
    match kind {
        AluKind::One(k) => if dst_is_word {
            match k {
                AluOneKind::Inc => <Inc as ALUOneOp<u16>>::execute(src, false, false, false),
                _ => <Dec as ALUOneOp<u16>>::execute(src, false, false, false),
            }
        } else {
            widen_exec(alu_one8(k, src as u8, registers.nf(), registers.hf(), registers.cf()))
        },
        AluKind::Two(k) => if dst_is_word && src_is_word {
            <Add as ALUTwoOp<u16, u16>>::execute(dst, src, registers.cf())
        } else if dst_is_word {
            <Add as ALUTwoOp<u16, i8>>::execute(dst, src as u8 as i8, registers.cf())
        } else {
            widen_exec(alu_two8(k, dst as u8, src as u8, registers.cf()))
        },
        AluKind::Bit(k, bit) => match k {
            AluBitKind::Bit => widen_exec(Bit::test(bit, src as u8)),
            AluBitKind::Res => widen_exec(Res::apply(bit, src as u8)),
            AluBitKind::SetBit => widen_exec(SetBit::apply(bit, src as u8)),
        },
    }
}

/// Machine cycles an operation takes after its operands are read: none between bytes, one
/// between words, two to add a byte offset to a word.
pub open spec fn alu_extra_cycles(dst_is_word: bool, src_is_word: bool) -> u8 {
    if dst_is_word == src_is_word {
        if dst_is_word { 1 } else { 0 }
    } else {
        2
    }
}

/// An instruction on one operand, read then written back (INC, DEC, rotations, DAA, ...).
#[derive(Debug, Clone, Copy, PartialEq, Eq, Hash, Structural)]
pub struct ALUOne {
    pub op: AluOneKind,
    pub operand: Operand,
}

impl ALUOne {
    pub fn new(op: AluOneKind, operand: Operand) -> (r: Self)
        ensures
            r == (ALUOne { op, operand }),
    {
        ALUOne { op, operand }
    }
}

impl Instruction for ALUOne {
    type Execution = ALUExecution;

    fn create_execution(&self) -> (r: ALUExecution)
        ensures
            r == ALUExecution::Start(AluKind::One(self.op), self.operand, self.operand),
    {
        ALUExecution::Start(AluKind::One(self.op), self.operand, self.operand)
    }
}

/// An instruction on a destination and a source (ADD, SUB, AND, ...).
#[derive(Debug, Clone, Copy, PartialEq, Eq, Hash, Structural)]
pub struct ALUTwo {
    pub op: AluTwoKind,
    pub dst: Operand,
    pub src: Operand,
}

impl ALUTwo {
    pub fn new(op: AluTwoKind, dst: Operand, src: Operand) -> (r: Self)
        ensures
            r == (ALUTwo { op, dst, src }),
    {
        ALUTwo { op, dst, src }
    }
}

impl Instruction for ALUTwo {
    type Execution = ALUExecution;

    fn create_execution(&self) -> (r: ALUExecution)
        ensures
            r == ALUExecution::Start(AluKind::Two(self.op), self.dst, self.src),
    {
        ALUExecution::Start(AluKind::Two(self.op), self.dst, self.src)
    }
}

/// An instruction on one bit of an operand (BIT, RES, SET).
#[derive(Debug, Clone, Copy, PartialEq, Eq, Hash, Structural)]
pub struct ALUBit {
    pub op: AluBitKind,
    pub bit: u8,
    pub operand: Operand,
}

impl ALUBit {
    pub fn new(op: AluBitKind, bit: u8, operand: Operand) -> (r: Self)
        ensures
            r == (ALUBit { op, bit, operand }),
    {
        ALUBit { op, bit, operand }
    }
}

impl Instruction for ALUBit {
    type Execution = ALUExecution;

    fn create_execution(&self) -> (r: ALUExecution)
        ensures
            r == ALUExecution::Start(AluKind::Bit(self.op, self.bit), self.operand, self.operand),
    {
        ALUExecution::Start(AluKind::Bit(self.op, self.bit), self.operand, self.operand)
    }
}

/// Execution of an ALU instruction: read the source (and the destination for two operands),
/// compute, set the flags, write the result back, then wait the extra cycles.
#[derive(Debug, Clone, Copy, PartialEq, Eq, Hash, Structural)]
pub enum ALUExecution {
    Start(AluKind, Operand, Operand),
    ReadingFromSrc(AluKind, Operand, Operand, ReadExecution),
    ReadingFromDst(AluKind, Operand, Operand, ReadExecution, u16),
    WritingToDst(WriteExecution, u8),
    Wait(u8),
    Complete,
}

/// Whether an ALU execution only involves operands it can handle.
pub open spec fn alu_operands_ok(kind: AluKind, dst: Operand, src: Operand) -> bool {
    &&& readable(dst) && readable(src)
    &&& (kind matches AluKind::Bit(_, bit) ==> bit < 8)
}

pub open spec fn alu_execution_ok(s: ALUExecution) -> bool {
    match s {
        ALUExecution::Start(k, dst, src) => alu_operands_ok(k, dst, src),
        ALUExecution::ReadingFromSrc(k, dst, src, rd) => alu_operands_ok(k, dst, src) && !(rd matches ReadExecution::Start(Operand::DerefWord)),
        ALUExecution::ReadingFromDst(k, dst, src, rd, _) => alu_operands_ok(k, dst, src) && !(rd matches ReadExecution::Start(Operand::DerefWord)),
        _ => true,
    }
}

/// Waiting `n` more cycles.
pub open spec fn alu_wait_step(n: u8) -> (ALUExecution, InstructionExecutionState) {
    if n == 0 {
        (ALUExecution::Complete, InstructionExecutionState::Complete)
    } else {
        (ALUExecution::Wait((n - 1) as u8), InstructionExecutionState::YieldMemoryOperation(MemoryOperation::NoOp))
    }
}

/// Writing back the result.
pub open spec fn alu_write_step(wr: WriteExecution, extra: u8, v: RegistersView, data: u8) -> (ALUExecution, RegistersView, InstructionExecutionState) {
    let (wr2, v2, r) = write_step(wr, v, data);
    match r {
        OperandWriteExecutionState::Yield(op) => (ALUExecution::WritingToDst(wr2, extra), v2, InstructionExecutionState::YieldMemoryOperation(op)),
        OperandWriteExecutionState::Complete => (alu_wait_step(extra).0, v2, alu_wait_step(extra).1),
    }
}

/// Computing the result once the operands are known.
pub open spec fn alu_do_step(kind: AluKind, dst: Operand, src: Operand, dst_value: u16, src_value: u16, v: RegistersView, data: u8)
    -> (ALUExecution, RegistersView, InstructionExecutionState)
{
    let extra = alu_extra_cycles(is_word(dst), is_word(src));
    let res = spec_alu(kind, is_word(dst), is_word(src), dst_value, src_value, v);
    let v2 = apply_flags(v, res.zf, res.nf, res.hf, res.cf);
    match res.value {
        Some(x) => alu_write_step(WriteExecution::Start(dst, x), extra, v2, data),
        None => (alu_wait_step(extra).0, v2, alu_wait_step(extra).1),
    }
}

/// Reading the destination (two-operand instructions).
pub open spec fn alu_dst_step(kind: AluKind, dst: Operand, src: Operand, rd: ReadExecution, src_value: u16, v: RegistersView, data: u8)
    -> (ALUExecution, RegistersView, InstructionExecutionState)
{
    let (rd2, v2, r) = read_step(rd, v, data);
    match r {
        OperandReadExecutionState::Yield(op) => (ALUExecution::ReadingFromDst(kind, dst, src, rd2, src_value), v2,
            InstructionExecutionState::YieldMemoryOperation(op)),
        OperandReadExecutionState::Complete(x) => alu_do_step(kind, dst, src, x, src_value, v2, data),
    }
}

/// Reading the source.
pub open spec fn alu_src_step(kind: AluKind, dst: Operand, src: Operand, rd: ReadExecution, v: RegistersView, data: u8)
    -> (ALUExecution, RegistersView, InstructionExecutionState)
{
    let (rd2, v2, r) = read_step(rd, v, data);
    match r {
        OperandReadExecutionState::Yield(op) => (ALUExecution::ReadingFromSrc(kind, dst, src, rd2), v2,
            InstructionExecutionState::YieldMemoryOperation(op)),
        OperandReadExecutionState::Complete(x) => if kind is Two {
            alu_dst_step(kind, dst, src, ReadExecution::Start(dst), x, v2, data)
        } else {
            alu_do_step(kind, dst, src, 0, x, v2, data)
        },
    }
}

/// One machine cycle of an ALU instruction, with `data` on the data bus.
pub open spec fn alu_step(s: ALUExecution, v: RegistersView, data: u8) -> (ALUExecution, RegistersView, InstructionExecutionState) {
    match s {
        ALUExecution::Start(k, dst, src) => alu_src_step(k, dst, src, ReadExecution::Start(src), v, data),
        ALUExecution::ReadingFromSrc(k, dst, src, rd) => alu_src_step(k, dst, src, rd, v, data),
        ALUExecution::ReadingFromDst(k, dst, src, rd, x) => alu_dst_step(k, dst, src, rd, x, v, data),
        ALUExecution::WritingToDst(wr, extra) => alu_write_step(wr, extra, v, data),
        ALUExecution::Wait(n) => (alu_wait_step(n).0, v, alu_wait_step(n).1),
        ALUExecution::Complete => (s, v, InstructionExecutionState::Complete),
    }
}

fn operand_is_word(op: Operand) -> (r: bool)
    ensures
        r == is_word(op),
{
    match op {
        Operand::R16(_) | Operand::Imm16 | Operand::DerefWord | Operand::SPPlusOff8 => true,
        _ => false,
    }
}

impl ALUExecution {
    fn wait(n: u8) -> (r: (ALUExecution, InstructionExecutionState))
        ensures
            r == alu_wait_step(n),
            alu_execution_ok(r.0),
    {
        if n == 0 {
            (ALUExecution::Complete, InstructionExecutionState::Complete)
        } else {
            (ALUExecution::Wait(n - 1), InstructionExecutionState::YieldMemoryOperation(MemoryOperation::NoOp))
        }
    }

    fn write(wr: WriteExecution, extra: u8, registers: &mut Registers, data_bus: u8) -> (r: (ALUExecution, InstructionExecutionState))
        ensures
            (r.0, final(registers)@, r.1) == alu_write_step(wr, extra, old(registers)@, data_bus),
            alu_execution_ok(r.0),
    {
        let mut wr = wr;
        match wr.next(registers, data_bus) {
            OperandWriteExecutionState::Yield(op) => (ALUExecution::WritingToDst(wr, extra), InstructionExecutionState::YieldMemoryOperation(op)),
            OperandWriteExecutionState::Complete => Self::wait(extra),
        }
    }

    fn compute(kind: AluKind, dst: Operand, src: Operand, dst_value: u16, src_value: u16, registers: &mut Registers, data_bus: u8)
        -> (r: (ALUExecution, InstructionExecutionState))
        requires
            alu_operands_ok(kind, dst, src),
        ensures
            (r.0, final(registers)@, r.1) == alu_do_step(kind, dst, src, dst_value, src_value, old(registers)@, data_bus),
            alu_execution_ok(r.0),
    {
        let dst_is_word = operand_is_word(dst);
        let src_is_word = operand_is_word(src);
        let extra: u8 = if dst_is_word == src_is_word {
            if dst_is_word { 1 } else { 0 }
        } else {
            2
        };
        let result = alu_compute(kind, dst_is_word, src_is_word, dst_value, src_value, registers);
        write_flags(registers, result.zf, result.nf, result.hf, result.cf);
        match result.value {
            Some(x) => Self::write(WriteExecution::Start(dst, x), extra, registers, data_bus),
            None => Self::wait(extra),
        }
    }

    fn read_dst(kind: AluKind, dst: Operand, src: Operand, rd: ReadExecution, src_value: u16, registers: &mut Registers, data_bus: u8)
        -> (r: (ALUExecution, InstructionExecutionState))
        requires
            alu_operands_ok(kind, dst, src),
            !(rd matches ReadExecution::Start(Operand::DerefWord)),
        ensures
            (r.0, final(registers)@, r.1) == alu_dst_step(kind, dst, src, rd, src_value, old(registers)@, data_bus),
            alu_execution_ok(r.0),
    {
        let mut rd = rd;
        match rd.next(registers, data_bus) {
            OperandReadExecutionState::Yield(op) => (ALUExecution::ReadingFromDst(kind, dst, src, rd, src_value),
                InstructionExecutionState::YieldMemoryOperation(op)),
            OperandReadExecutionState::Complete(x) => Self::compute(kind, dst, src, x, src_value, registers, data_bus),
        }
    }

    fn read_src(kind: AluKind, dst: Operand, src: Operand, rd: ReadExecution, registers: &mut Registers, data_bus: u8)
        -> (r: (ALUExecution, InstructionExecutionState))
        requires
            alu_operands_ok(kind, dst, src),
            !(rd matches ReadExecution::Start(Operand::DerefWord)),
        ensures
            (r.0, final(registers)@, r.1) == alu_src_step(kind, dst, src, rd, old(registers)@, data_bus),
            alu_execution_ok(r.0),
    {
        let mut rd = rd;
        match rd.next(registers, data_bus) {
            OperandReadExecutionState::Yield(op) => (ALUExecution::ReadingFromSrc(kind, dst, src, rd),
                InstructionExecutionState::YieldMemoryOperation(op)),
            OperandReadExecutionState::Complete(x) => match kind {
                AluKind::Two(_) => Self::read_dst(kind, dst, src, ReadExecution::Start(dst), x, registers, data_bus),
                _ => Self::compute(kind, dst, src, 0, x, registers, data_bus),
            },
        }
    }

    /// Runs one machine cycle.
    pub fn next(&mut self, registers: &mut Registers, data_bus: u8) -> (r: InstructionExecutionState)
        requires
            alu_execution_ok(*old(self)),
        ensures
            alu_execution_ok(*final(self)),
            (*final(self), final(registers)@, r) == alu_step(*old(self), old(registers)@, data_bus),
    {
        let (s, r) = match *self {
            ALUExecution::Start(k, dst, src) => Self::read_src(k, dst, src, ReadExecution::Start(src), registers, data_bus),
            ALUExecution::ReadingFromSrc(k, dst, src, rd) => Self::read_src(k, dst, src, rd, registers, data_bus),
            ALUExecution::ReadingFromDst(k, dst, src, rd, x) => Self::read_dst(k, dst, src, rd, x, registers, data_bus),
            ALUExecution::WritingToDst(wr, extra) => Self::write(wr, extra, registers, data_bus),
            ALUExecution::Wait(n) => Self::wait(n),
            ALUExecution::Complete => (ALUExecution::Complete, InstructionExecutionState::Complete),
        };
        *self = s;
        r
    }
}

} // verus!
