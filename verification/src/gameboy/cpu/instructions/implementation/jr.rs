use vstd::prelude::*;

use super::super::super::super::bus::MemoryOperation;
use super::super::super::registers::{Registers, RegistersView};
use super::super::condition::{spec_check, Cond};
use super::super::operands::{read_step, Operand, OperandReadExecutionState, ReadExecution};
use super::super::{Instruction, InstructionExecutionState};

verus! {

/// JR: relative jump by the signed offset following the opcode.
#[derive(Debug, Clone, Copy, PartialEq, Eq, Hash, Structural)]
pub struct Jr {
    pub cond: Cond,
}

impl Jr {
    pub fn new(cond: Cond) -> (r: Self)
        ensures
            r == (Jr { cond }),
    {
        Jr { cond }
    }
}

impl Instruction for Jr {
    type Execution = JrExecution;

    fn create_execution(&self) -> (r: JrExecution)
        ensures
            r == JrExecution::ReadingOffset(self.cond, ReadExecution::Start(Operand::Off8)),
    {
        JrExecution::ReadingOffset(self.cond, ReadExecution::Start(Operand::Off8))
    }
}

#[derive(Debug, Clone, Copy, PartialEq, Eq, Hash, Structural)]
pub enum JrExecution {
    ReadingOffset(Cond, ReadExecution),
    Complete,
}

pub open spec fn jr_execution_ok(s: JrExecution) -> bool {
    s matches JrExecution::ReadingOffset(_, rd) ==> !(rd matches ReadExecution::Start(Operand::DerefWord))
}

/// PC moved by the offset byte read as a signed (two's complement) number:
/// bytes from 0x80 up stand for negative offsets, whose 16-bit pattern is the byte
/// with 0xFF in the high half.
pub open spec fn jump_relative(pc: u16, offset: u8) -> u16 {
    ((pc + offset + if offset >= 0x80 { 0xFF00int } else { 0 }) % 65536) as u16
}

/// One machine cycle of JR, with `data` on the data bus.
pub open spec fn jr_step(s: JrExecution, v: RegistersView, data: u8) -> (JrExecution, RegistersView, InstructionExecutionState) {
    match s {
        JrExecution::ReadingOffset(cond, rd) => {
            let (rd2, v2, r) = read_step(rd, v, data);
            match r {
                OperandReadExecutionState::Yield(op) => (JrExecution::ReadingOffset(cond, rd2), v2, InstructionExecutionState::YieldMemoryOperation(op)),
                OperandReadExecutionState::Complete(x) => if spec_check(cond, v2) {
                    (JrExecution::Complete, RegistersView { pc: jump_relative(v2.pc, x as u8), ..v2 },
                        InstructionExecutionState::YieldMemoryOperation(MemoryOperation::NoOp))
                } else {
                    (JrExecution::Complete, v2, InstructionExecutionState::Complete)
                },
            }
        },
        JrExecution::Complete => (s, v, InstructionExecutionState::Complete),
    }
}

impl JrExecution {
    fn set_address(offset: u8, registers: &mut Registers) -> (r: (JrExecution, InstructionExecutionState))
        ensures
            final(registers)@ == (RegistersView { pc: jump_relative(old(registers)@.pc, offset), ..old(registers)@ }),
            r == (JrExecution::Complete, InstructionExecutionState::YieldMemoryOperation(MemoryOperation::NoOp)),
    {
        let pc: u16 = registers.pc();
        let delta: u16 = if offset < 0x80 { offset as u16 } else { offset as u16 + 0xFF00 };
        registers.set_pc(pc.wrapping_add(delta));
        (JrExecution::Complete, InstructionExecutionState::YieldMemoryOperation(MemoryOperation::NoOp))
    }

    /// Runs one machine cycle.
    pub fn next(&mut self, registers: &mut Registers, data_bus: u8) -> (r: InstructionExecutionState)
        requires
            jr_execution_ok(*old(self)),
        ensures
            jr_execution_ok(*final(self)),
            (*final(self), final(registers)@, r) == jr_step(*old(self), old(registers)@, data_bus),
    {
        let (s, r) = match *self {
            JrExecution::ReadingOffset(cond, rd) => {
                let mut rd = rd;
                match rd.next(registers, data_bus) {
                    OperandReadExecutionState::Yield(op) => (JrExecution::ReadingOffset(cond, rd), InstructionExecutionState::YieldMemoryOperation(op)),
                    OperandReadExecutionState::Complete(x) => if cond.check(registers) {
                        Self::set_address(x as u8, registers)
                    } else {
                        (JrExecution::Complete, InstructionExecutionState::Complete)
                    },
                }
            },
            JrExecution::Complete => (JrExecution::Complete, InstructionExecutionState::Complete),
        };
        *self = s;
        r
    }
}

} // verus!
