use vstd::prelude::*;

use super::super::{Instruction, InstructionExecutionState};
use super::super::super::CpuOperation;

verus! {

/// NOP.
#[derive(Debug, Clone, Copy, PartialEq, Eq, Hash, Structural)]
pub struct Nop {}

impl Nop {
    pub fn new() -> (r: Self)
        ensures
            r == (Nop {}),
    {
        Nop {}
    }
}

/// DI: disables interrupts.
#[derive(Debug, Clone, Copy, PartialEq, Eq, Hash, Structural)]
pub struct DI {}

impl DI {
    pub fn new() -> (r: Self)
        ensures
            r == (DI {}),
    {
        DI {}
    }
}

/// EI: enables interrupts after the next instruction.
#[derive(Debug, Clone, Copy, PartialEq, Eq, Hash, Structural)]
pub struct EI {}

impl EI {
    pub fn new() -> (r: Self)
        ensures
            r == (EI {}),
    {
        EI {}
    }
}

/// HALT: stops the CPU until an interrupt is pending.
#[derive(Debug, Clone, Copy, PartialEq, Eq, Hash, Structural)]
pub struct Halt {}

impl Halt {
    pub fn new() -> (r: Self)
        ensures
            r == (Halt {}),
    {
        Halt {}
    }
}

/// An opcode the CPU does not know.
#[derive(Debug, Clone, Copy, PartialEq, Eq, Hash, Structural)]
pub struct Invalid {
    pub opcode: u8,
    pub is_cb_prefixed: bool,
}

impl Invalid {
    pub fn new(opcode: u8, is_cb_prefixed: bool) -> (r: Self)
        ensures
            r == (Invalid { opcode, is_cb_prefixed }),
    {
        Invalid { opcode, is_cb_prefixed }
    }
}

/// Execution of an instruction that asks one thing of the CPU control (DI, EI, HALT).
#[derive(Debug, Clone, Copy, PartialEq, Eq, Hash, Structural)]
pub enum CpuOperationExecution {
    Start(CpuOperation),
    Complete,
}

/// One machine cycle of DI, EI or HALT.
pub open spec fn cpu_operation_step(s: CpuOperationExecution) -> (CpuOperationExecution, InstructionExecutionState) {
    match s {
        CpuOperationExecution::Start(op) => (CpuOperationExecution::Complete, InstructionExecutionState::YieldCpuOperation(op)),
        CpuOperationExecution::Complete => (s, InstructionExecutionState::Complete),
    }
}

impl CpuOperationExecution {
    /// Runs one machine cycle.
    pub fn next(&mut self) -> (r: InstructionExecutionState)
        ensures
            (*final(self), r) == cpu_operation_step(*old(self)),
    {
        match *self {
            CpuOperationExecution::Start(op) => {
                *self = CpuOperationExecution::Complete;
                InstructionExecutionState::YieldCpuOperation(op)
            },
            CpuOperationExecution::Complete => InstructionExecutionState::Complete,
        }
    }
}

impl Instruction for DI {
    type Execution = CpuOperationExecution;

    fn create_execution(&self) -> (r: CpuOperationExecution)
        ensures
            r == CpuOperationExecution::Start(CpuOperation::DisableInterrupt),
    {
        CpuOperationExecution::Start(CpuOperation::DisableInterrupt)
    }
}

impl Instruction for EI {
    type Execution = CpuOperationExecution;

    fn create_execution(&self) -> (r: CpuOperationExecution)
        ensures
            r == CpuOperationExecution::Start(CpuOperation::EnableInterrupt),
    {
        CpuOperationExecution::Start(CpuOperation::EnableInterrupt)
    }
}

impl Instruction for Halt {
    type Execution = CpuOperationExecution;

    fn create_execution(&self) -> (r: CpuOperationExecution)
        ensures
            r == CpuOperationExecution::Start(CpuOperation::Halt),
    {
        CpuOperationExecution::Start(CpuOperation::Halt)
    }
}

} // verus!
