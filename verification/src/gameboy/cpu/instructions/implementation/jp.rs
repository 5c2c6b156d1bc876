use vstd::prelude::*;

use super::super::super::super::bus::MemoryOperation;
use super::super::super::registers::{Registers, RegistersView};
use super::super::condition::{spec_check, Cond};
use super::super::operands::{read_step, Operand, OperandReadExecutionState, ReadExecution};
use super::super::{Instruction, InstructionExecutionState};

verus! {

/// JP: absolute jump to a 16-bit operand (u16 or HL).
#[derive(Debug, Clone, Copy, PartialEq, Eq, Hash, Structural)]
pub struct Jp {
    pub cond: Cond,
    pub target: Operand,
    /// JP u16 spends one more cycle after loading PC; JP HL does not.
    pub wait_one_extra_cycle: bool,
}

impl Jp {
    pub fn new(cond: Cond, target: Operand, wait_one_extra_cycle: bool) -> (r: Self)
        ensures
            r == (Jp { cond, target, wait_one_extra_cycle }),
    {
        Jp { cond, target, wait_one_extra_cycle }
    }
}

impl Instruction for Jp {
    type Execution = JpExecution;

    fn create_execution(&self) -> (r: JpExecution)
        ensures
            r == JpExecution::ReadingAddress(self.cond, ReadExecution::Start(self.target), self.wait_one_extra_cycle),
    {
        JpExecution::ReadingAddress(self.cond, ReadExecution::Start(self.target), self.wait_one_extra_cycle)
    }
}

#[derive(Debug, Clone, Copy, PartialEq, Eq, Hash, Structural)]
pub enum JpExecution {
    ReadingAddress(Cond, ReadExecution, bool),
    Complete,
}

pub open spec fn jp_execution_ok(s: JpExecution) -> bool {
    s matches JpExecution::ReadingAddress(_, rd, _) ==> !(rd matches ReadExecution::Start(Operand::DerefWord))
}

/// One machine cycle of JP, with `data` on the data bus.
pub open spec fn jp_step(s: JpExecution, v: RegistersView, data: u8) -> (JpExecution, RegistersView, InstructionExecutionState) {
    match s {
        JpExecution::ReadingAddress(cond, rd, wait) => {
            let (rd2, v2, r) = read_step(rd, v, data);
            match r {
                OperandReadExecutionState::Yield(op) => (JpExecution::ReadingAddress(cond, rd2, wait), v2, InstructionExecutionState::YieldMemoryOperation(op)),
                OperandReadExecutionState::Complete(x) => if spec_check(cond, v2) {
                    (JpExecution::Complete, RegistersView { pc: x, ..v2 },
                        if wait { InstructionExecutionState::YieldMemoryOperation(MemoryOperation::NoOp) } else { InstructionExecutionState::Complete })
                } else {
                    (JpExecution::Complete, v2, InstructionExecutionState::Complete)
                },
            }
        },
        JpExecution::Complete => (s, v, InstructionExecutionState::Complete),
    }
}

impl JpExecution {
    /// Runs one machine cycle.
    pub fn next(&mut self, registers: &mut Registers, data_bus: u8) -> (r: InstructionExecutionState)
        requires
            jp_execution_ok(*old(self)),
        ensures
            jp_execution_ok(*final(self)),
            (*final(self), final(registers)@, r) == jp_step(*old(self), old(registers)@, data_bus),
    {
        let (s, r) = match *self {
            JpExecution::ReadingAddress(cond, rd, wait) => {
                let mut rd = rd;
                match rd.next(registers, data_bus) {
                    OperandReadExecutionState::Yield(op) => (JpExecution::ReadingAddress(cond, rd, wait), InstructionExecutionState::YieldMemoryOperation(op)),
                    OperandReadExecutionState::Complete(x) => if cond.check(registers) {
                        registers.set_pc(x);
                        (JpExecution::Complete,
                            if wait { InstructionExecutionState::YieldMemoryOperation(MemoryOperation::NoOp) } else { InstructionExecutionState::Complete })
                    } else {
                        (JpExecution::Complete, InstructionExecutionState::Complete)
                    },
                }
            },
            JpExecution::Complete => (JpExecution::Complete, InstructionExecutionState::Complete),
        };
        *self = s;
        r
    }
}

} // verus!
