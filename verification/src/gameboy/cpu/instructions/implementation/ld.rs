use vstd::prelude::*;

use super::super::super::super::bus::MemoryOperation;
use super::super::super::registers::{Registers, RegistersView};
use super::super::operands::{read_step, write_step, Operand, OperandReadExecutionState, OperandWriteExecutionState, ReadExecution, WriteExecution};
use super::super::{Instruction, InstructionExecutionState};

verus! {

/// LD: copies a source operand to a destination operand.
#[derive(Debug, Clone, Copy, PartialEq, Eq, Hash, Structural)]
pub struct Ld {
    pub dst: Operand,
    pub src: Operand,
    /// LD SP, HL takes one more machine cycle.
    pub extra_cycle: bool,
}

impl Ld {
    pub fn new(dst: Operand, src: Operand, extra_cycle: bool) -> (r: Self)
        ensures
            r == (Ld { dst, src, extra_cycle }),
    {
        Ld { dst, src, extra_cycle }
    }
}

impl Instruction for Ld {
    type Execution = LdExecution;

    fn create_execution(&self) -> (r: LdExecution)
        ensures
            r == LdExecution::ReadingFromSrc(ReadExecution::Start(self.src), self.dst, self.extra_cycle),
    {
        LdExecution::ReadingFromSrc(ReadExecution::Start(self.src), self.dst, self.extra_cycle)
    }
}

/// Execution of LD: read the source, then write the destination.
#[derive(Debug, Clone, Copy, PartialEq, Eq, Hash, Structural)]
pub enum LdExecution {
    ReadingFromSrc(ReadExecution, Operand, bool),
    WritingToDst(WriteExecution, bool),
    Waiting,
    Complete,
}

pub open spec fn ld_execution_ok(s: LdExecution) -> bool {
    s matches LdExecution::ReadingFromSrc(rd, _, _) ==> !(rd matches ReadExecution::Start(Operand::DerefWord))
}

pub open spec fn ld_write_step(wr: WriteExecution, extra: bool, v: RegistersView, data: u8) -> (LdExecution, RegistersView, InstructionExecutionState) {
    let (wr2, v2, r) = write_step(wr, v, data);
    match r {
        OperandWriteExecutionState::Yield(op) => (LdExecution::WritingToDst(wr2, extra), v2, InstructionExecutionState::YieldMemoryOperation(op)),
        OperandWriteExecutionState::Complete => if extra {
            (LdExecution::Waiting, v2, InstructionExecutionState::YieldMemoryOperation(MemoryOperation::NoOp))
        } else {
            (LdExecution::Complete, v2, InstructionExecutionState::Complete)
        },
    }
}

/// One machine cycle of LD, with `data` on the data bus.
pub open spec fn ld_step(s: LdExecution, v: RegistersView, data: u8) -> (LdExecution, RegistersView, InstructionExecutionState) {
    match s {
        LdExecution::ReadingFromSrc(rd, dst, extra) => {
            let (rd2, v2, r) = read_step(rd, v, data);
            match r {
                OperandReadExecutionState::Yield(op) => (LdExecution::ReadingFromSrc(rd2, dst, extra), v2,
                    InstructionExecutionState::YieldMemoryOperation(op)),
                OperandReadExecutionState::Complete(x) => ld_write_step(WriteExecution::Start(dst, x), extra, v2, data),
            }
        },
        LdExecution::WritingToDst(wr, extra) => ld_write_step(wr, extra, v, data),
        LdExecution::Waiting => (LdExecution::Complete, v, InstructionExecutionState::Complete),
        LdExecution::Complete => (s, v, InstructionExecutionState::Complete),
    }
}

impl LdExecution {
    fn write(wr: WriteExecution, extra: bool, registers: &mut Registers, data_bus: u8) -> (r: (LdExecution, InstructionExecutionState))
        ensures
            (r.0, final(registers)@, r.1) == ld_write_step(wr, extra, old(registers)@, data_bus),
    {
        let mut wr = wr;
        match wr.next(registers, data_bus) {
            OperandWriteExecutionState::Yield(op) => (LdExecution::WritingToDst(wr, extra), InstructionExecutionState::YieldMemoryOperation(op)),
            OperandWriteExecutionState::Complete => if extra {
                (LdExecution::Waiting, InstructionExecutionState::YieldMemoryOperation(MemoryOperation::NoOp))
            } else {
                (LdExecution::Complete, InstructionExecutionState::Complete)
            },
        }
    }

    /// Runs one machine cycle.
    pub fn next(&mut self, registers: &mut Registers, data_bus: u8) -> (r: InstructionExecutionState)
        requires
            ld_execution_ok(*old(self)),
        ensures
            ld_execution_ok(*final(self)),
            (*final(self), final(registers)@, r) == ld_step(*old(self), old(registers)@, data_bus),
    {
        let (s, r) = match *self {
            LdExecution::ReadingFromSrc(rd, dst, extra) => {
                let mut rd = rd;
                match rd.next(registers, data_bus) {
                    OperandReadExecutionState::Yield(op) => (LdExecution::ReadingFromSrc(rd, dst, extra),
                        InstructionExecutionState::YieldMemoryOperation(op)),
                    OperandReadExecutionState::Complete(x) => Self::write(WriteExecution::Start(dst, x), extra, registers, data_bus),
                }
            },
            LdExecution::WritingToDst(wr, extra) => Self::write(wr, extra, registers, data_bus),
            LdExecution::Waiting => (LdExecution::Complete, InstructionExecutionState::Complete),
            LdExecution::Complete => (LdExecution::Complete, InstructionExecutionState::Complete),
        };
        *self = s;
        r
    }
}

} // verus!
