use vstd::prelude::*;

use super::super::super::super::bus::MemoryOperation;
use super::super::super::registers::{lsb, msb, pair, Registers, RegistersView};
use super::super::condition::{spec_check, Cond};
use super::super::operands::{dec16, inc16, read_register16, read_step, reg16, set_reg16, write_register16, Operand, OperandReadExecutionState, ReadExecution, R16};
use super::super::{Instruction, InstructionExecutionState};
use super::super::super::CpuOperation;

verus! {

/// The registers with SP decremented.
pub open spec fn sp_dec(v: RegistersView) -> RegistersView {
    RegistersView { sp: dec16(v.sp), ..v }
}

/// The registers with SP incremented.
pub open spec fn sp_inc(v: RegistersView) -> RegistersView {
    RegistersView { sp: inc16(v.sp), ..v }
}

/// Decrements SP.
pub fn decrement_sp(registers: &mut Registers)
    ensures
        final(registers)@ == sp_dec(old(registers)@),
{
    let sp: u16 = registers.sp();
    registers.set_sp(sp.wrapping_sub(1));
}

/// Writes `value` at SP, then decrements SP (first byte of a push after the initial decrement).
pub fn push_byte_and_decrement(registers: &mut Registers, value: u8) -> (op: MemoryOperation)
    ensures
        final(registers)@ == sp_dec(old(registers)@),
        op == (MemoryOperation::Write { address: old(registers)@.sp, value }),
{
    let sp: u16 = registers.sp();
    registers.set_sp(sp.wrapping_sub(1));
    MemoryOperation::Write { address: sp, value }
}

/// Reads the byte at SP, then increments SP.
pub fn pop_byte(registers: &mut Registers) -> (op: MemoryOperation)
    ensures
        final(registers)@ == sp_inc(old(registers)@),
        op == (MemoryOperation::Read { address: old(registers)@.sp }),
{
    let sp: u16 = registers.sp();
    registers.set_sp(sp.wrapping_add(1));
    MemoryOperation::Read { address: sp }
}

/// Pushing a 16-bit value on the stack: one internal cycle decrementing SP, then the high byte
/// and the low byte are written, the low byte ending at the new SP.
#[derive(Debug, Clone, Copy, PartialEq, Eq, Hash, Structural)]
pub enum PushStage {
    DecrementingSP(u16),
    PushingMsb(u16),
    PushingLsb(u16),
    Complete,
}

/// One machine cycle of a push.
pub open spec fn push_step(s: PushStage, v: RegistersView) -> (PushStage, RegistersView, InstructionExecutionState) {
    match s {
        PushStage::DecrementingSP(x) => (PushStage::PushingMsb(x), sp_dec(v), InstructionExecutionState::YieldMemoryOperation(MemoryOperation::NoOp)),
        PushStage::PushingMsb(x) => (PushStage::PushingLsb(x), sp_dec(v),
            InstructionExecutionState::YieldMemoryOperation(MemoryOperation::Write { address: v.sp, value: msb(x) })),
        PushStage::PushingLsb(x) => (PushStage::Complete, v,
            InstructionExecutionState::YieldMemoryOperation(MemoryOperation::Write { address: v.sp, value: lsb(x) })),
        PushStage::Complete => (s, v, InstructionExecutionState::Complete),
    }
}

impl PushStage {
    pub fn next(&mut self, registers: &mut Registers) -> (r: InstructionExecutionState)
        ensures
            (*final(self), final(registers)@, r) == push_step(*old(self), old(registers)@),
    {
        match *self {
            PushStage::DecrementingSP(x) => {
                decrement_sp(registers);
                *self = PushStage::PushingMsb(x);
                InstructionExecutionState::YieldMemoryOperation(MemoryOperation::NoOp)
            },
            PushStage::PushingMsb(x) => {
                let op = push_byte_and_decrement(registers, (x / 256) as u8);
                *self = PushStage::PushingLsb(x);
                InstructionExecutionState::YieldMemoryOperation(op)
            },
            PushStage::PushingLsb(x) => {
                let sp: u16 = registers.sp();
                *self = PushStage::Complete;
                InstructionExecutionState::YieldMemoryOperation(MemoryOperation::Write { address: sp, value: (x % 256) as u8 })
            },
            PushStage::Complete => InstructionExecutionState::Complete,
        }
    }
}

/// PUSH rr.
#[derive(Debug, Clone, Copy, PartialEq, Eq, Hash, Structural)]
pub struct Push {
    pub register: R16,
}

impl Push {
    pub fn new(register: R16) -> (r: Self)
        ensures
            r == (Push { register }),
    {
        Push { register }
    }
}

impl Instruction for Push {
    type Execution = PushExecution;

    fn create_execution(&self) -> (r: PushExecution)
        ensures
            r == PushExecution::Start(self.register),
    {
        PushExecution::Start(self.register)
    }
}

#[derive(Debug, Clone, Copy, PartialEq, Eq, Hash, Structural)]
pub enum PushExecution {
    Start(R16),
    Pushing(PushStage),
}

/// One machine cycle of PUSH: the register is read at once, then pushed.
pub open spec fn push_execution_step(s: PushExecution, v: RegistersView) -> (PushExecution, RegistersView, InstructionExecutionState) {
    let stage = match s {
        PushExecution::Start(r) => PushStage::DecrementingSP(reg16(v, r)),
        PushExecution::Pushing(st) => st,
    };
    let (st2, v2, r) = push_step(stage, v);
    (PushExecution::Pushing(st2), v2, r)
}

impl PushExecution {
    /// Runs one machine cycle.
    pub fn next(&mut self, registers: &mut Registers, data_bus: u8) -> (r: InstructionExecutionState)
        ensures
            (*final(self), final(registers)@, r) == push_execution_step(*old(self), old(registers)@),
    {
        let mut stage = match *self {
            PushExecution::Start(reg) => PushStage::DecrementingSP(read_register16(registers, reg)),
            PushExecution::Pushing(st) => st,
        };
        let r = stage.next(registers);
        *self = PushExecution::Pushing(stage);
        r
    }
}

/// POP rr.
#[derive(Debug, Clone, Copy, PartialEq, Eq, Hash, Structural)]
pub struct Pop {
    pub register: R16,
}

impl Pop {
    pub fn new(register: R16) -> (r: Self)
        ensures
            r == (Pop { register }),
    {
        Pop { register }
    }
}

impl Instruction for Pop {
    type Execution = PopExecution;

    fn create_execution(&self) -> (r: PopExecution)
        ensures
            r == PopExecution::PopingLsb(self.register),
    {
        PopExecution::PopingLsb(self.register)
    }
}

#[derive(Debug, Clone, Copy, PartialEq, Eq, Hash, Structural)]
pub enum PopExecution {
    PopingLsb(R16),
    PopingMsb(R16),
    PoppingEnd(R16, u8),
    Complete,
}

/// One machine cycle of POP, with `data` on the data bus.
pub open spec fn pop_step(s: PopExecution, v: RegistersView, data: u8) -> (PopExecution, RegistersView, InstructionExecutionState) {
    match s {
        PopExecution::PopingLsb(r) => (PopExecution::PopingMsb(r), sp_inc(v),
            InstructionExecutionState::YieldMemoryOperation(MemoryOperation::Read { address: v.sp })),
        PopExecution::PopingMsb(r) => (PopExecution::PoppingEnd(r, data), sp_inc(v),
            InstructionExecutionState::YieldMemoryOperation(MemoryOperation::Read { address: v.sp })),
        PopExecution::PoppingEnd(r, low) => (PopExecution::Complete, set_reg16(v, r, pair(data, low)), InstructionExecutionState::Complete),
        PopExecution::Complete => (s, v, InstructionExecutionState::Complete),
    }
}

impl PopExecution {
    /// Runs one machine cycle.
    pub fn next(&mut self, registers: &mut Registers, data_bus: u8) -> (r: InstructionExecutionState)
        ensures
            (*final(self), final(registers)@, r) == pop_step(*old(self), old(registers)@, data_bus),
    {
        match *self {
            PopExecution::PopingLsb(reg) => {
                let op = pop_byte(registers);
                *self = PopExecution::PopingMsb(reg);
                InstructionExecutionState::YieldMemoryOperation(op)
            },
            PopExecution::PopingMsb(reg) => {
                let op = pop_byte(registers);
                *self = PopExecution::PoppingEnd(reg, data_bus);
                InstructionExecutionState::YieldMemoryOperation(op)
            },
            PopExecution::PoppingEnd(reg, low) => {
                let value: u16 = (data_bus as u16) * 256 + (low as u16);
                write_register16(registers, reg, value);
                *self = PopExecution::Complete;
                InstructionExecutionState::Complete
            },
            PopExecution::Complete => InstructionExecutionState::Complete,
        }
    }
}

/// CALL: pushes PC (already past the operand) and jumps to the u16 operand.
#[derive(Debug, Clone, Copy, PartialEq, Eq, Hash, Structural)]
pub struct Call {
    pub cond: Cond,
}

impl Call {
    pub fn new(cond: Cond) -> (r: Self)
        ensures
            r == (Call { cond }),
    {
        Call { cond }
    }
}

impl Instruction for Call {
    type Execution = CallExecution;

    fn create_execution(&self) -> (r: CallExecution)
        ensures
            r == CallExecution::ReadingAddress(self.cond, ReadExecution::Start(Operand::Imm16)),
    {
        CallExecution::ReadingAddress(self.cond, ReadExecution::Start(Operand::Imm16))
    }
}

/// Execution of CALL and RST: the return address is pushed, then PC is loaded.
#[derive(Debug, Clone, Copy, PartialEq, Eq, Hash, Structural)]
pub enum CallExecution {
    ReadingAddress(Cond, ReadExecution),
    Pushing(PushStage, u16),
    Complete,
}

pub open spec fn call_execution_ok(s: CallExecution) -> bool {
    s matches CallExecution::ReadingAddress(_, rd) ==> !(rd matches ReadExecution::Start(Operand::DerefWord))
}

/// Pushing PC then jumping to `target`.
pub open spec fn call_push_step(st: PushStage, target: u16, v: RegistersView) -> (CallExecution, RegistersView, InstructionExecutionState) {
    let (st2, v2, r) = push_step(st, v);
    if r is Complete {
        (CallExecution::Complete, RegistersView { pc: target, ..v2 }, InstructionExecutionState::Complete)
    } else {
        (CallExecution::Pushing(st2, target), v2, r)
    }
}

/// One machine cycle of CALL, with `data` on the data bus.
pub open spec fn call_step(s: CallExecution, v: RegistersView, data: u8) -> (CallExecution, RegistersView, InstructionExecutionState) {
    match s {
        CallExecution::ReadingAddress(cond, rd) => {
            let (rd2, v2, r) = read_step(rd, v, data);
            match r {
                OperandReadExecutionState::Yield(op) => (CallExecution::ReadingAddress(cond, rd2), v2, InstructionExecutionState::YieldMemoryOperation(op)),
                OperandReadExecutionState::Complete(x) => if spec_check(cond, v2) {
                    call_push_step(PushStage::DecrementingSP(v2.pc), x, v2)
                } else {
                    (CallExecution::Complete, v2, InstructionExecutionState::Complete)
                },
            }
        },
        CallExecution::Pushing(st, target) => call_push_step(st, target, v),
        CallExecution::Complete => (s, v, InstructionExecutionState::Complete),
    }
}

impl CallExecution {
    fn push(st: PushStage, target: u16, registers: &mut Registers) -> (r: (CallExecution, InstructionExecutionState))
        ensures
            (r.0, final(registers)@, r.1) == call_push_step(st, target, old(registers)@),
    {
        let mut st = st;
        let r = st.next(registers);
        match r {
            InstructionExecutionState::Complete => {
                registers.set_pc(target);
                (CallExecution::Complete, InstructionExecutionState::Complete)
            },
            _ => (CallExecution::Pushing(st, target), r),
        }
    }

    /// Runs one machine cycle.
    pub fn next(&mut self, registers: &mut Registers, data_bus: u8) -> (r: InstructionExecutionState)
        requires
            call_execution_ok(*old(self)),
        ensures
            call_execution_ok(*final(self)),
            (*final(self), final(registers)@, r) == call_step(*old(self), old(registers)@, data_bus),
    {
        let (s, r) = match *self {
            CallExecution::ReadingAddress(cond, rd) => {
                let mut rd = rd;
                match rd.next(registers, data_bus) {
                    OperandReadExecutionState::Yield(op) => (CallExecution::ReadingAddress(cond, rd), InstructionExecutionState::YieldMemoryOperation(op)),
                    OperandReadExecutionState::Complete(x) => if cond.check(registers) {
                        let pc: u16 = registers.pc();
                        Self::push(PushStage::DecrementingSP(pc), x, registers)
                    } else {
                        (CallExecution::Complete, InstructionExecutionState::Complete)
                    },
                }
            },
            CallExecution::Pushing(st, target) => Self::push(st, target, registers),
            CallExecution::Complete => (CallExecution::Complete, InstructionExecutionState::Complete),
        };
        *self = s;
        r
    }
}

/// CALL cond, u16, started with PC `p` on the operand and SP `s`: it reads the two bytes of
/// the target at `p` and `p + 1`; when the condition holds it then spends an internal cycle,
/// writes the high byte of `p + 2` at `s - 1` and its low byte at `s - 2`, and completes with
/// PC at the target and SP at `s - 2`; otherwise it completes after the reads with PC at
/// `p + 2` and SP untouched.
pub proof fn lemma_call_sequence(cond: Cond, v: RegistersView, lo: u8, hi: u8, data: u8)
    ensures
        ({
            let e0 = CallExecution::ReadingAddress(cond, ReadExecution::Start(Operand::Imm16));
            let (e1, v1, r1) = call_step(e0, v, data);
            let (e2, v2, r2) = call_step(e1, v1, lo);
            let (e3, v3, r3) = call_step(e2, v2, hi);
            let (e4, v4, r4) = call_step(e3, v3, data);
            let (e5, v5, r5) = call_step(e4, v4, data);
            let (e6, v6, r6) = call_step(e5, v5, data);
            let ret = inc16(inc16(v.pc));
            &&& r1 == InstructionExecutionState::YieldMemoryOperation(MemoryOperation::Read { address: v.pc })
            &&& r2 == InstructionExecutionState::YieldMemoryOperation(MemoryOperation::Read { address: inc16(v.pc) })
            &&& spec_check(cond, v) ==> {
                &&& r3 == InstructionExecutionState::YieldMemoryOperation(MemoryOperation::NoOp)
                &&& r4 == InstructionExecutionState::YieldMemoryOperation(MemoryOperation::Write { address: dec16(v.sp), value: msb(ret) })
                &&& r5 == InstructionExecutionState::YieldMemoryOperation(
                    MemoryOperation::Write { address: dec16(dec16(v.sp)), value: lsb(ret) })
                &&& r6 == InstructionExecutionState::Complete
                &&& e6 == CallExecution::Complete
                &&& v6 == RegistersView { pc: pair(hi, lo), sp: dec16(dec16(v.sp)), ..v }
            }
            &&& !spec_check(cond, v) ==> {
                &&& r3 == InstructionExecutionState::Complete
                &&& e3 == CallExecution::Complete
                &&& v3 == RegistersView { pc: ret, ..v }
            }
        }),
{
}

/// RST: calls one of the eight fixed addresses 0x00, 0x08, ..., 0x38.
#[derive(Debug, Clone, Copy, PartialEq, Eq, Hash, Structural)]
pub struct Rst {
    pub address: u8,
}

impl Rst {
    pub fn new(address: u8) -> (r: Self)
        ensures
            r == (Rst { address }),
    {
        Rst { address }
    }
}

/// RST pushes PC like CALL, without an operand to read.
pub open spec fn rst_start(address: u8, v: RegistersView) -> CallExecution {
    CallExecution::Pushing(PushStage::DecrementingSP(v.pc), address as u16)
}

impl Rst {
    /// The execution of RST, starting from the current PC.
    pub fn create_execution(&self, registers: &Registers) -> (r: CallExecution)
        ensures
            r == rst_start(self.address, registers@),
    {
        CallExecution::Pushing(PushStage::DecrementingSP(registers.pc()), self.address as u16)
    }
}

/// RET, RET cc and RETI.
#[derive(Debug, Clone, Copy, PartialEq, Eq, Hash, Structural)]
pub struct Ret {
    pub cond: Cond,
    /// RETI enables interrupts at once after returning.
    pub enable_interrupt: bool,
}

impl Ret {
    pub fn new(cond: Cond, enable_interrupt: bool) -> (r: Self)
        ensures
            r == (Ret { cond, enable_interrupt }),
    {
        Ret { cond, enable_interrupt }
    }
}

impl Instruction for Ret {
    type Execution = RetExecution;

    fn create_execution(&self) -> (r: RetExecution)
        ensures
            r == (if self.cond == Cond::Always { RetExecution::PopingLsbPC(self.enable_interrupt) }
                else { RetExecution::WaitingOneCycle(self.cond, self.enable_interrupt) }),
    {
        match self.cond {
            Cond::Always => RetExecution::PopingLsbPC(self.enable_interrupt),
            _ => RetExecution::WaitingOneCycle(self.cond, self.enable_interrupt),
        }
    }
}

#[derive(Debug, Clone, Copy, PartialEq, Eq, Hash, Structural)]
pub enum RetExecution {
    /// A conditional return spends one cycle checking its condition.
    WaitingOneCycle(Cond, bool),
    PopingLsbPC(bool),
    PopingMsbPC(bool),
    SettingPC(u8, bool),
    EnableInterrupt,
    Complete,
}

/// One machine cycle of RET, with `data` on the data bus.
pub open spec fn ret_step(s: RetExecution, v: RegistersView, data: u8) -> (RetExecution, RegistersView, InstructionExecutionState) {
    match s {
        RetExecution::WaitingOneCycle(cond, reti) => (if spec_check(cond, v) { RetExecution::PopingLsbPC(reti) } else { RetExecution::Complete },
            v, InstructionExecutionState::YieldMemoryOperation(MemoryOperation::NoOp)),
        RetExecution::PopingLsbPC(reti) => (RetExecution::PopingMsbPC(reti), sp_inc(v),
            InstructionExecutionState::YieldMemoryOperation(MemoryOperation::Read { address: v.sp })),
        RetExecution::PopingMsbPC(reti) => (RetExecution::SettingPC(data, reti), sp_inc(v),
            InstructionExecutionState::YieldMemoryOperation(MemoryOperation::Read { address: v.sp })),
        RetExecution::SettingPC(low, reti) => (if reti { RetExecution::EnableInterrupt } else { RetExecution::Complete },
            RegistersView { pc: pair(data, low), ..v }, InstructionExecutionState::YieldMemoryOperation(MemoryOperation::NoOp)),
        RetExecution::EnableInterrupt => (RetExecution::Complete, v, InstructionExecutionState::YieldCpuOperation(CpuOperation::EnableInterruptNow)),
        RetExecution::Complete => (s, v, InstructionExecutionState::Complete),
    }
}

impl RetExecution {
    /// Runs one machine cycle.
    pub fn next(&mut self, registers: &mut Registers, data_bus: u8) -> (r: InstructionExecutionState)
        ensures
            (*final(self), final(registers)@, r) == ret_step(*old(self), old(registers)@, data_bus),
    {
        match *self {
            RetExecution::WaitingOneCycle(cond, reti) => {
                *self = if cond.check(registers) { RetExecution::PopingLsbPC(reti) } else { RetExecution::Complete };
                InstructionExecutionState::YieldMemoryOperation(MemoryOperation::NoOp)
            },
            RetExecution::PopingLsbPC(reti) => {
                let op = pop_byte(registers);
                *self = RetExecution::PopingMsbPC(reti);
                InstructionExecutionState::YieldMemoryOperation(op)
            },
            RetExecution::PopingMsbPC(reti) => {
                let op = pop_byte(registers);
                *self = RetExecution::SettingPC(data_bus, reti);
                InstructionExecutionState::YieldMemoryOperation(op)
            },
            RetExecution::SettingPC(low, reti) => {
                registers.set_pc((data_bus as u16) * 256 + (low as u16));
                *self = if reti { RetExecution::EnableInterrupt } else { RetExecution::Complete };
                InstructionExecutionState::YieldMemoryOperation(MemoryOperation::NoOp)
            },
            RetExecution::EnableInterrupt => {
                *self = RetExecution::Complete;
                InstructionExecutionState::YieldCpuOperation(CpuOperation::EnableInterruptNow)
            },
            RetExecution::Complete => InstructionExecutionState::Complete,
        }
    }
}

} // verus!
