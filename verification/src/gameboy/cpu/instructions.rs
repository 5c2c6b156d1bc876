use vstd::prelude::*;

pub mod alu;
pub mod condition;
pub mod decode;
pub mod describe;
pub mod implementation;
pub mod operands;

use super::super::bus::MemoryOperation;
use super::registers::{Registers, RegistersView};
use super::CpuOperation;
use condition::Cond;
use implementation::alu::{alu_execution_ok, alu_step, ALUBit, ALUExecution, ALUOne, ALUTwo, AluKind};
use implementation::jp::{jp_execution_ok, jp_step, Jp, JpExecution};
use implementation::jr::{jr_execution_ok, jr_step, Jr, JrExecution};
use implementation::ld::{ld_execution_ok, ld_step, Ld, LdExecution};
use implementation::misc::{cpu_operation_step, CpuOperationExecution, Halt, Invalid, Nop, DI, EI};
use implementation::stack::{call_execution_ok, call_step, pop_step, push_execution_step, ret_step, rst_start, Call, CallExecution, Pop,
    PopExecution, Push, PushExecution, Ret, RetExecution, Rst};
use operands::{readable, Operand, ReadExecution};

verus! {

/// What an instruction asks for during one machine cycle.
#[derive(Debug, Clone, Copy, PartialEq, Eq, Hash, Structural)]
pub enum InstructionExecutionState {
    /// A bus access (or an internal cycle) this machine cycle.
    YieldMemoryOperation(MemoryOperation),
    /// A change of the interrupt master enable, or a halt.
    YieldCpuOperation(CpuOperation),
    /// The instruction is over; the next one can be fetched this same cycle.
    Complete,
    /// The opcode is not a valid instruction.
    Invalid { opcode: u8, is_cb_prefixed: bool },
}

/// An instruction, which knows how to start its execution.
pub trait Instruction {
    type Execution;

    fn create_execution(&self) -> Self::Execution;
}

/// A decoded instruction.
#[derive(Debug, Clone, Copy, PartialEq, Eq, Hash, Structural)]
pub enum DecodedInstruction {
    Nop(Nop),
    Ld(Ld),
    ALUOne(ALUOne),
    ALUTwo(ALUTwo),
    ALUBit(ALUBit),
    Jr(Jr),
    Jp(Jp),
    Call(Call),
    Ret(Ret),
    Push(Push),
    Pop(Pop),
    Rst(Rst),
    DI(DI),
    EI(EI),
    Halt(Halt),
    Invalid(Invalid),
}

/// An instruction under execution.
#[derive(Debug, Clone, Copy, PartialEq, Eq, Hash, Structural)]
pub enum Execution {
    Nop,
    Ld(LdExecution),
    Alu(ALUExecution),
    Jr(JrExecution),
    Jp(JpExecution),
    Call(CallExecution),
    Ret(RetExecution),
    Push(PushExecution),
    Pop(PopExecution),
    CpuOperation(CpuOperationExecution),
    Invalid(Invalid),
}

/// Operands of a decoded instruction that its execution can handle.
pub open spec fn instruction_ok(d: DecodedInstruction) -> bool {
    match d {
        DecodedInstruction::Ld(i) => readable(i.src),
        DecodedInstruction::ALUOne(i) => readable(i.operand),
        DecodedInstruction::ALUTwo(i) => readable(i.dst) && readable(i.src),
        DecodedInstruction::ALUBit(i) => readable(i.operand) && i.bit < 8,
        DecodedInstruction::Jp(i) => readable(i.target),
        _ => true,
    }
}

pub open spec fn execution_ok(e: Execution) -> bool {
    match e {
        Execution::Ld(s) => ld_execution_ok(s),
        Execution::Alu(s) => alu_execution_ok(s),
        Execution::Jr(s) => jr_execution_ok(s),
        Execution::Jp(s) => jp_execution_ok(s),
        Execution::Call(s) => call_execution_ok(s),
        _ => true,
    }
}

/// The execution a decoded instruction starts with, PC pointing past the opcode.
pub open spec fn spec_create_execution(d: DecodedInstruction, v: RegistersView) -> Execution {
    match d {
        DecodedInstruction::Nop(_) => Execution::Nop,
        DecodedInstruction::Ld(i) => Execution::Ld(LdExecution::ReadingFromSrc(ReadExecution::Start(i.src), i.dst, i.extra_cycle)),
        DecodedInstruction::ALUOne(i) => Execution::Alu(ALUExecution::Start(AluKind::One(i.op), i.operand, i.operand)),
        DecodedInstruction::ALUTwo(i) => Execution::Alu(ALUExecution::Start(AluKind::Two(i.op), i.dst, i.src)),
        DecodedInstruction::ALUBit(i) => Execution::Alu(ALUExecution::Start(AluKind::Bit(i.op, i.bit), i.operand, i.operand)),
        DecodedInstruction::Jr(i) => Execution::Jr(JrExecution::ReadingOffset(i.cond, ReadExecution::Start(Operand::Off8))),
        DecodedInstruction::Jp(i) => Execution::Jp(JpExecution::ReadingAddress(i.cond, ReadExecution::Start(i.target), i.wait_one_extra_cycle)),
        DecodedInstruction::Call(i) => Execution::Call(CallExecution::ReadingAddress(i.cond, ReadExecution::Start(Operand::Imm16))),
        DecodedInstruction::Ret(i) => Execution::Ret(if i.cond == Cond::Always { RetExecution::PopingLsbPC(i.enable_interrupt) }
            else { RetExecution::WaitingOneCycle(i.cond, i.enable_interrupt) }),
        DecodedInstruction::Push(i) => Execution::Push(PushExecution::Start(i.register)),
        DecodedInstruction::Pop(i) => Execution::Pop(PopExecution::PopingLsb(i.register)),
        DecodedInstruction::Rst(i) => Execution::Call(rst_start(i.address, v)),
        DecodedInstruction::DI(_) => Execution::CpuOperation(CpuOperationExecution::Start(CpuOperation::DisableInterrupt)),
        DecodedInstruction::EI(_) => Execution::CpuOperation(CpuOperationExecution::Start(CpuOperation::EnableInterrupt)),
        DecodedInstruction::Halt(_) => Execution::CpuOperation(CpuOperationExecution::Start(CpuOperation::Halt)),
        DecodedInstruction::Invalid(i) => Execution::Invalid(i),
    }
}

impl DecodedInstruction {
    /// Starts the execution of the instruction.
    pub fn create_execution(&self, registers: &Registers) -> (r: Execution)
        requires
            instruction_ok(*self),
        ensures
            r == spec_create_execution(*self, registers@),
            execution_ok(r),
    {
        match self {
            DecodedInstruction::Nop(_) => Execution::Nop,
            DecodedInstruction::Ld(i) => Execution::Ld(i.create_execution()),
            DecodedInstruction::ALUOne(i) => Execution::Alu(i.create_execution()),
            DecodedInstruction::ALUTwo(i) => Execution::Alu(i.create_execution()),
            DecodedInstruction::ALUBit(i) => Execution::Alu(i.create_execution()),
            DecodedInstruction::Jr(i) => Execution::Jr(i.create_execution()),
            DecodedInstruction::Jp(i) => Execution::Jp(i.create_execution()),
            DecodedInstruction::Call(i) => Execution::Call(i.create_execution()),
            DecodedInstruction::Ret(i) => Execution::Ret(i.create_execution()),
            DecodedInstruction::Push(i) => Execution::Push(i.create_execution()),
            DecodedInstruction::Pop(i) => Execution::Pop(i.create_execution()),
            DecodedInstruction::Rst(i) => Execution::Call(i.create_execution(registers)),
            DecodedInstruction::DI(i) => Execution::CpuOperation(i.create_execution()),
            DecodedInstruction::EI(i) => Execution::CpuOperation(i.create_execution()),
            DecodedInstruction::Halt(i) => Execution::CpuOperation(i.create_execution()),
            DecodedInstruction::Invalid(i) => Execution::Invalid(*i),
        }
    }
}

/// One machine cycle of an instruction, with `data` on the data bus.
#[verifier::opaque]
pub open spec fn execution_step(e: Execution, v: RegistersView, data: u8) -> (Execution, RegistersView, InstructionExecutionState) {
    match e {
        Execution::Nop => (e, v, InstructionExecutionState::Complete),
        Execution::Ld(s) => { let (s2, v2, r) = ld_step(s, v, data); (Execution::Ld(s2), v2, r) },
        Execution::Alu(s) => { let (s2, v2, r) = alu_step(s, v, data); (Execution::Alu(s2), v2, r) },
        Execution::Jr(s) => { let (s2, v2, r) = jr_step(s, v, data); (Execution::Jr(s2), v2, r) },
        Execution::Jp(s) => { let (s2, v2, r) = jp_step(s, v, data); (Execution::Jp(s2), v2, r) },
        Execution::Call(s) => { let (s2, v2, r) = call_step(s, v, data); (Execution::Call(s2), v2, r) },
        Execution::Ret(s) => { let (s2, v2, r) = ret_step(s, v, data); (Execution::Ret(s2), v2, r) },
        Execution::Push(s) => { let (s2, v2, r) = push_execution_step(s, v); (Execution::Push(s2), v2, r) },
        Execution::Pop(s) => { let (s2, v2, r) = pop_step(s, v, data); (Execution::Pop(s2), v2, r) },
        Execution::CpuOperation(s) => { let (s2, r) = cpu_operation_step(s); (Execution::CpuOperation(s2), v, r) },
        Execution::Invalid(i) => (e, v, InstructionExecutionState::Invalid { opcode: i.opcode, is_cb_prefixed: i.is_cb_prefixed }),
    }
}

/// The execution of an instruction, one machine cycle at a time.
pub trait InstructionExecution {
    fn next(&mut self, registers: &mut Registers, data_bus: u8) -> InstructionExecutionState;
}

impl InstructionExecution for Execution {
    fn next(&mut self, registers: &mut Registers, data_bus: u8) -> (r: InstructionExecutionState)
        ensures
            execution_ok(*old(self)) ==> execution_ok(*final(self)),
            execution_ok(*old(self)) ==> (*final(self), final(registers)@, r) == execution_step(*old(self), old(registers)@, data_bus),
    {
        if !self.is_ok() {
            return InstructionExecutionState::Complete;
        }
        proof { reveal(execution_step); }
        match self {
            Execution::Nop => InstructionExecutionState::Complete,
            Execution::Ld(s) => s.next(registers, data_bus),
            Execution::Alu(s) => s.next(registers, data_bus),
            Execution::Jr(s) => s.next(registers, data_bus),
            Execution::Jp(s) => s.next(registers, data_bus),
            Execution::Call(s) => s.next(registers, data_bus),
            Execution::Ret(s) => s.next(registers, data_bus),
            Execution::Push(s) => s.next(registers, data_bus),
            Execution::Pop(s) => s.next(registers, data_bus),
            Execution::CpuOperation(s) => s.next(),
            Execution::Invalid(i) => InstructionExecutionState::Invalid { opcode: i.opcode, is_cb_prefixed: i.is_cb_prefixed },
        }
    }
}

fn read_ok(rd: ReadExecution) -> (r: bool)
    ensures
        r == !(rd matches ReadExecution::Start(Operand::DerefWord)),
{
    !matches!(rd, ReadExecution::Start(Operand::DerefWord))
}

fn operand_readable(op: Operand) -> (r: bool)
    ensures
        r == readable(op),
{
    !matches!(op, Operand::DerefWord)
}

impl Execution {
    /// Whether the execution only involves operands it can handle.
    pub fn is_ok(&self) -> (r: bool)
        ensures
            r == execution_ok(*self),
    {
        match self {
            Execution::Ld(LdExecution::ReadingFromSrc(rd, _, _)) => read_ok(*rd),
            Execution::Alu(ALUExecution::Start(k, dst, src)) => operand_readable(*dst) && operand_readable(*src)
                && match k { AluKind::Bit(_, bit) => *bit < 8, _ => true },
            Execution::Alu(ALUExecution::ReadingFromSrc(k, dst, src, rd)) => operand_readable(*dst) && operand_readable(*src)
                && match k { AluKind::Bit(_, bit) => *bit < 8, _ => true } && read_ok(*rd),
            Execution::Alu(ALUExecution::ReadingFromDst(k, dst, src, rd, _)) => operand_readable(*dst) && operand_readable(*src)
                && match k { AluKind::Bit(_, bit) => *bit < 8, _ => true } && read_ok(*rd),
            Execution::Jr(JrExecution::ReadingOffset(_, rd)) => read_ok(*rd),
            Execution::Jp(JpExecution::ReadingAddress(_, rd, _)) => read_ok(*rd),
            Execution::Call(CallExecution::ReadingAddress(_, rd)) => read_ok(*rd),
            _ => true,
        }
    }
}

} // verus!
