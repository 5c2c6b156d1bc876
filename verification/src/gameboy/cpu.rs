use vstd::prelude::*;

pub mod alu;
pub mod instructions;
pub mod registers;

use super::bus::{Bus, MemoryOperation};
use super::interrupt::{spec_bit, spec_highest_priority, spec_vector, Interrupt, Kind, Line};
use instructions::decode::{decode, decode_cb_prefixed, spec_decode, spec_decode_cb_prefixed};
use instructions::implementation::stack::{decrement_sp, push_byte_and_decrement, sp_dec};
use instructions::{
    execution_ok, execution_step, instruction_ok, spec_create_execution, DecodedInstruction, Execution,
    InstructionExecution, InstructionExecutionState,
};
use registers::{lsb, msb, Registers, RegistersView};

verus! {

/// A request an instruction makes to the CPU control.
#[derive(Debug, Clone, Copy, PartialEq, Eq, PartialOrd, Ord, Hash, Structural)]
pub enum CpuOperation {
    /// Enable interrupts after the next instruction (EI).
    EnableInterrupt,
    /// Enable interrupts now (RETI).
    EnableInterruptNow,
    /// Disable interrupts (DI).
    DisableInterrupt,
    /// Stop until an interrupt is pending (HALT).
    Halt,
}

/// The steps of taking an interrupt: two internal cycles, the two bytes of PC pushed, then
/// the jump to the handler.
#[derive(Debug, Clone, Copy, PartialEq, Eq, Hash, Structural)]
pub enum InterruptDispatchState {
    Start,
    DecrementingSP,
    PushingMsbPC,
    PushingLsbPC,
    ChangingPC,
    Complete,
}

/// What one step of an interrupt dispatch gives.
#[derive(Debug, Clone, Copy, PartialEq, Eq, Hash, Structural)]
pub enum InterruptDispatchExecutionState {
    Yield(MemoryOperation),
    Complete,
}

/// Where the CPU jumps to take the pending interrupt of highest priority; 0 when none is
/// pending any more.
pub open spec fn dispatch_target(pending: u8) -> u16 {
    match spec_highest_priority(pending) {
        Some(kind) => spec_vector(kind),
        None => 0,
    }
}

/// One step of an interrupt dispatch, given the pending interrupts.
pub open spec fn dispatch_step(s: InterruptDispatchState, v: RegistersView, pending: u8)
    -> (InterruptDispatchState, RegistersView, InterruptDispatchExecutionState)
{
    match s {
        InterruptDispatchState::Start => (InterruptDispatchState::DecrementingSP, v,
            InterruptDispatchExecutionState::Yield(MemoryOperation::NoOp)),
        InterruptDispatchState::DecrementingSP => (InterruptDispatchState::PushingMsbPC, sp_dec(v),
            InterruptDispatchExecutionState::Yield(MemoryOperation::NoOp)),
        InterruptDispatchState::PushingMsbPC => (InterruptDispatchState::PushingLsbPC, sp_dec(v),
            InterruptDispatchExecutionState::Yield(MemoryOperation::Write { address: v.sp, value: msb(v.pc) })),
        InterruptDispatchState::PushingLsbPC => (InterruptDispatchState::ChangingPC, v,
            InterruptDispatchExecutionState::Yield(MemoryOperation::Write { address: v.sp, value: lsb(v.pc) })),
        InterruptDispatchState::ChangingPC => (InterruptDispatchState::Complete,
            RegistersView { pc: dispatch_target(pending), ..v }, InterruptDispatchExecutionState::Complete),
        InterruptDispatchState::Complete => (s, v, InterruptDispatchExecutionState::Complete),
    }
}

/// The interrupt requests after one step of a dispatch: the interrupt taken is acknowledged
/// when PC changes.
pub open spec fn dispatch_flags(s: InterruptDispatchState, enable: u8, flags: u8) -> u8 {
    match (s, spec_highest_priority(enable & flags)) {
        (InterruptDispatchState::ChangingPC, Some(kind)) => flags & !spec_bit(kind),
        _ => flags,
    }
}

impl InterruptDispatchState {
    /// Runs one step of the dispatch.
    pub fn next(&mut self, registers: &mut Registers, interrupt_line: &mut Interrupt) -> (r: InterruptDispatchExecutionState)
        ensures
            (*final(self), final(registers)@, r) == dispatch_step(*old(self), old(registers)@, old(interrupt_line).pending()),
            final(interrupt_line).spec_enable() == old(interrupt_line).spec_enable(),
            final(interrupt_line).spec_flags() == dispatch_flags(*old(self), old(interrupt_line).spec_enable(),
                old(interrupt_line).spec_flags()),
    {
        match *self {
            InterruptDispatchState::Start => {
                *self = InterruptDispatchState::DecrementingSP;
                InterruptDispatchExecutionState::Yield(MemoryOperation::NoOp)
            },
            InterruptDispatchState::DecrementingSP => {
                decrement_sp(registers);
                *self = InterruptDispatchState::PushingMsbPC;
                InterruptDispatchExecutionState::Yield(MemoryOperation::NoOp)
            },
            InterruptDispatchState::PushingMsbPC => {
                let value: u8 = (registers.pc() / 256) as u8;
                let op = push_byte_and_decrement(registers, value);
                *self = InterruptDispatchState::PushingLsbPC;
                InterruptDispatchExecutionState::Yield(op)
            },
            InterruptDispatchState::PushingLsbPC => {
                let value: u8 = (registers.pc() % 256) as u8;
                *self = InterruptDispatchState::ChangingPC;
                InterruptDispatchExecutionState::Yield(MemoryOperation::Write { address: registers.sp(), value })
            },
            InterruptDispatchState::ChangingPC => {
                match interrupt_line.highest_priority() {
                    Some(kind) => {
                        interrupt_line.ack(kind);
                        registers.set_pc(kind.vector());
                    },
                    None => registers.set_pc(0),
                }
                *self = InterruptDispatchState::Complete;
                InterruptDispatchExecutionState::Complete
            },
            InterruptDispatchState::Complete => InterruptDispatchExecutionState::Complete,
        }
    }
}

/// What the CPU is doing.
#[derive(Debug, Clone, Copy, PartialEq, Eq, Hash, Structural)]
pub enum State {
    /// Nothing fetched yet.
    NotStarted,
    /// The opcode at PC is being read; `true` when it follows the 0xCB prefix.
    WaitingPrefetchRead(bool),
    /// An instruction is running.
    ExecutingInstruction(DecodedInstruction, Execution),
    /// An interrupt is being taken.
    InterruptDispatch(InterruptDispatchState),
    /// Stopped by HALT until an enabled interrupt is requested.
    Halted,
}

/// Why the CPU cannot go on.
#[derive(Debug, Clone, Copy, PartialEq, Eq, Hash, Structural)]
pub enum CpuError {
    /// An opcode that is no instruction, found at `address`.
    InvalidInstruction { opcode: u8, is_cb_prefixed: bool, address: u16 },
}

/// The state of the CPU as a value.
pub struct CpuView {
    pub registers: RegistersView,
    pub state: State,
    pub ime: bool,
    pub enable_ime: bool,
}

/// The Sharp LR35902 core, run one machine cycle at a time.
#[derive(Debug)]
pub struct Cpu {
    registers: Registers,
    state: State,
    ime: bool,
    enable_ime: bool,
}

/// A state the CPU can be in: every running instruction is one it can execute.
pub open spec fn state_ok(s: State) -> bool {
    match s {
        State::ExecutingInstruction(_, e) => execution_ok(e),
        _ => true,
    }
}

/// The CPU once `prefetch` has issued the read of the next opcode.
pub open spec fn prefetched(c: CpuView, cb_prefixed: bool) -> (CpuView, MemoryOperation) {
    (CpuView { state: State::WaitingPrefetchRead(cb_prefixed), ..c }, MemoryOperation::Read { address: c.registers.pc })
}

/// The interrupt master enable after a request of the running instruction.
pub open spec fn apply_cpu_operation(c: CpuView, op: CpuOperation) -> CpuView {
    match op {
        CpuOperation::EnableInterrupt => CpuView { enable_ime: true, ime: false, ..c },
        CpuOperation::EnableInterruptNow => CpuView { enable_ime: false, ime: true, ..c },
        CpuOperation::DisableInterrupt => CpuView { enable_ime: false, ime: false, ..c },
        CpuOperation::Halt => CpuView { state: State::Halted, ..c },
    }
}

/// The CPU once the running instruction has given `r`, `c` holding the instruction's
/// new state.
pub open spec fn instruction_result(c: CpuView, pc: u16, r: InstructionExecutionState) -> (CpuView, Result<MemoryOperation, CpuError>) {
    match r {
        InstructionExecutionState::YieldMemoryOperation(op) => (c, Ok(op)),
        InstructionExecutionState::Complete => (prefetched(c, false).0, Ok(prefetched(c, false).1)),
        InstructionExecutionState::YieldCpuOperation(op) => {
            let c3 = apply_cpu_operation(c, op);
            if op == CpuOperation::Halt {
                (c3, Ok(MemoryOperation::NoOp))
            } else {
                (prefetched(c3, false).0, Ok(prefetched(c3, false).1))
            }
        },
        InstructionExecutionState::Invalid { opcode, is_cb_prefixed } => (c, Err(invalid_instruction(opcode, is_cb_prefixed, pc))),
    }
}

/// How many bytes an opcode takes: two after the 0xCB prefix.
pub open spec fn back(is_cb_prefixed: bool) -> int {
    if is_cb_prefixed { 2 } else { 1 }
}

/// The error for an invalid opcode, PC pointing past it.
pub open spec fn invalid_instruction(opcode: u8, is_cb_prefixed: bool, pc: u16) -> CpuError {
    CpuError::InvalidInstruction {
        opcode,
        is_cb_prefixed,
        address: (if pc >= back(is_cb_prefixed) { pc - back(is_cb_prefixed) } else { pc + 65536 - back(is_cb_prefixed) }) as u16,
    }
}

/// One machine cycle of the running instruction `e`. When it asks something of the CPU
/// control (but HALT), the control acts and the instruction runs on in the same cycle.
pub open spec fn execute_step(c: CpuView, d: DecodedInstruction, e: Execution, data: u8)
    -> (CpuView, Result<MemoryOperation, CpuError>)
{
    let (e2, v2, r) = execution_step(e, c.registers, data);
    let c2 = CpuView { registers: v2, state: State::ExecutingInstruction(d, e2), ..c };
    match r {
        InstructionExecutionState::YieldCpuOperation(op) => {
            let c3 = apply_cpu_operation(c2, op);
            if op == CpuOperation::Halt {
                (c3, Ok(MemoryOperation::NoOp))
            } else {
                let (e3, v3, r3) = execution_step(e2, v2, data);
                instruction_result(CpuView { registers: v3, state: State::ExecutingInstruction(d, e3), ..c3 }, v2.pc, r3)
            }
        },
        _ => instruction_result(c2, c.registers.pc, r),
    }
}

/// The first step of taking an interrupt.
pub open spec fn dispatch_start(c: CpuView) -> (CpuView, Result<MemoryOperation, CpuError>) {
    (CpuView { ime: false, state: State::InterruptDispatch(InterruptDispatchState::DecrementingSP), ..c }, Ok(MemoryOperation::NoOp))
}

/// The CPU once the opcode `data` read at PC has arrived.
pub open spec fn fetched_step(c: CpuView, cb_prefixed: bool, data: u8, pending: u8)
    -> (CpuView, Result<MemoryOperation, CpuError>)
{
    if !cb_prefixed && c.ime && spec_highest_priority(pending) is Some {
        dispatch_start(c)
    } else {
        let c1 = if c.enable_ime { CpuView { enable_ime: false, ime: true, ..c } } else { c };
        let c2 = CpuView { registers: RegistersView { pc: ((c1.registers.pc + 1) % 65536) as u16, ..c1.registers }, ..c1 };
        if !cb_prefixed && data == 0xCB {
            (prefetched(c2, true).0, Ok(prefetched(c2, true).1))
        } else {
            let d = if cb_prefixed { spec_decode_cb_prefixed(data) } else { spec_decode(data) };
            execute_step(c2, d, spec_create_execution(d, c2.registers), data)
        }
    }
}

/// One machine cycle of the CPU, with `data` on the data bus and the interrupt requests
/// `flags` of which those in `enable` are enabled. Gives the CPU after the cycle and what it
/// asks of the bus.
pub open spec fn cpu_step(c: CpuView, data: u8, enable: u8, flags: u8) -> (CpuView, Result<MemoryOperation, CpuError>) {
    let pending = enable & flags;
    match c.state {
        State::NotStarted => (prefetched(c, false).0, Ok(prefetched(c, false).1)),
        State::WaitingPrefetchRead(cb) => fetched_step(c, cb, data, pending),
        State::ExecutingInstruction(d, e) => execute_step(c, d, e, data),
        State::InterruptDispatch(s) => {
            let (s2, v2, r) = dispatch_step(s, c.registers, pending);
            let c2 = CpuView { registers: v2, state: State::InterruptDispatch(s2), ..c };
            match r {
                InterruptDispatchExecutionState::Yield(op) => (c2, Ok(op)),
                InterruptDispatchExecutionState::Complete => (prefetched(c2, false).0, Ok(prefetched(c2, false).1)),
            }
        },
        State::Halted => if spec_highest_priority(pending) is Some {
            (prefetched(c, false).0, Ok(prefetched(c, false).1))
        } else {
            (c, Ok(MemoryOperation::NoOp))
        },
    }
}

/// The interrupt requests after one machine cycle of the CPU: only the last step of an
/// interrupt dispatch acknowledges one.
pub open spec fn cpu_step_flags(c: CpuView, enable: u8, flags: u8) -> u8 {
    match c.state {
        State::InterruptDispatch(s) => dispatch_flags(s, enable, flags),
        _ => flags,
    }
}

impl Cpu {
    pub closed spec fn view(&self) -> CpuView {
        CpuView { registers: self.registers@, state: self.state, ime: self.ime, enable_ime: self.enable_ime }
    }

    #[verifier::type_invariant]
    closed spec fn wf(&self) -> bool {
        state_ok(self.state)
    }

    /// A CPU that has fetched nothing yet, registers at zero, interrupts enabled.
    pub fn new() -> (r: Self)
        ensures
            r.view() == (CpuView {
                registers: RegistersView { a: 0, b: 0, c: 0, d: 0, e: 0, f: 0, h: 0, l: 0, pc: 0, sp: 0 },
                state: State::NotStarted,
                ime: true,
                enable_ime: false,
            }),
    {
        Self { registers: Registers::new(), state: State::NotStarted, ime: true, enable_ime: false }
    }

    fn prefetch_next(&mut self, cb_prefixed: bool) -> (r: MemoryOperation)
        ensures
            (final(self).view(), r) == prefetched(old(self).view(), cb_prefixed),
    {
        self.state = State::WaitingPrefetchRead(cb_prefixed);
        MemoryOperation::Read { address: self.registers.pc() }
    }

    fn finish(&mut self, pc: u16, r: InstructionExecutionState) -> (res: Result<MemoryOperation, CpuError>)
        ensures
            (final(self).view(), res) == instruction_result(old(self).view(), pc, r),
    {
        proof { use_type_invariant(&*self); }
        match r {
            InstructionExecutionState::YieldMemoryOperation(op) => Ok(op),
            InstructionExecutionState::Complete => Ok(self.prefetch_next(false)),
            InstructionExecutionState::YieldCpuOperation(op) => {
                self.apply(op);
                if op == CpuOperation::Halt {
                    Ok(MemoryOperation::NoOp)
                } else {
                    Ok(self.prefetch_next(false))
                }
            },
            InstructionExecutionState::Invalid { opcode, is_cb_prefixed } => {
                let back: u16 = if is_cb_prefixed { 2 } else { 1 };
                Err(CpuError::InvalidInstruction { opcode, is_cb_prefixed, address: pc.wrapping_sub(back) })
            },
        }
    }

    fn apply(&mut self, op: CpuOperation)
        ensures
            final(self).view() == apply_cpu_operation(old(self).view(), op),
    {
        proof { use_type_invariant(&*self); }
        match op {
            CpuOperation::EnableInterrupt => {
                self.enable_ime = true;
                self.ime = false;
            },
            CpuOperation::EnableInterruptNow => {
                self.enable_ime = false;
                self.ime = true;
            },
            CpuOperation::DisableInterrupt => {
                self.enable_ime = false;
                self.ime = false;
            },
            CpuOperation::Halt => {
                self.state = State::Halted;
            },
        }
    }

    fn execute(&mut self, d: DecodedInstruction, e: Execution, data: u8) -> (res: Result<MemoryOperation, CpuError>)
        requires
            execution_ok(e),
        ensures
            (final(self).view(), res) == execute_step(old(self).view(), d, e, data),
    {
        proof { use_type_invariant(&*self); }
        let pc: u16 = self.registers.pc();
        let mut e = e;
        let mut registers = self.registers;
        let r = e.next(&mut registers, data);
        self.registers = registers;
        self.state = State::ExecutingInstruction(d, e);
        match r {
            InstructionExecutionState::YieldCpuOperation(op) => {
                self.apply(op);
                if op == CpuOperation::Halt {
                    Ok(MemoryOperation::NoOp)
                } else {
                    let pc2: u16 = registers.pc();
                    let r2 = e.next(&mut registers, data);
                    self.registers = registers;
                    self.state = State::ExecutingInstruction(d, e);
                    self.finish(pc2, r2)
                }
            },
            _ => self.finish(pc, r),
        }
    }

    /// Runs one machine cycle: `bus` holds the byte the previous cycle read, and the result
    /// is the memory operation of this cycle, or the error that stops the CPU.
    pub fn tick(&mut self, bus: &Bus, interrupt_line: &mut Interrupt) -> (r: Result<MemoryOperation, CpuError>)
        ensures
            (final(self).view(), r) == cpu_step(old(self).view(), bus.spec_data(), old(interrupt_line).spec_enable(),
                old(interrupt_line).spec_flags()),
            final(interrupt_line).spec_enable() == old(interrupt_line).spec_enable(),
            final(interrupt_line).spec_flags() == cpu_step_flags(old(self).view(), old(interrupt_line).spec_enable(),
                old(interrupt_line).spec_flags()),
    {
        proof { use_type_invariant(&*self); }
        let data: u8 = bus.data();
        match self.state {
            State::NotStarted => Ok(self.prefetch_next(false)),
            State::WaitingPrefetchRead(cb_prefixed) => {
                if !cb_prefixed && self.ime && interrupt_line.highest_priority().is_some() {
                    self.ime = false;
                    self.state = State::InterruptDispatch(InterruptDispatchState::DecrementingSP);
                    return Ok(MemoryOperation::NoOp);
                }
                if self.enable_ime {
                    self.enable_ime = false;
                    self.ime = true;
                }
                let mut registers = self.registers;
                let pc: u16 = registers.pc();
                registers.set_pc(pc.wrapping_add(1));
                self.registers = registers;
                if !cb_prefixed && data == 0xCB {
                    return Ok(self.prefetch_next(true));
                }
                let d = if cb_prefixed { decode_cb_prefixed(data) } else { decode(data) };
                let e = d.create_execution(&self.registers);
                self.execute(d, e, data)
            },
            State::ExecutingInstruction(d, e) => self.execute(d, e, data),
            State::InterruptDispatch(s) => {
                let mut s = s;
                let mut registers = self.registers;
                let r = s.next(&mut registers, interrupt_line);
                self.registers = registers;
                self.state = State::InterruptDispatch(s);
                match r {
                    InterruptDispatchExecutionState::Yield(op) => Ok(op),
                    InterruptDispatchExecutionState::Complete => Ok(self.prefetch_next(false)),
                }
            },
            State::Halted => {
                if interrupt_line.highest_priority().is_some() {
                    Ok(self.prefetch_next(false))
                } else {
                    Ok(MemoryOperation::NoOp)
                }
            },
        }
    }
}

/// Taking an interrupt: once the internal cycle is over, the high byte of PC is written
/// just below SP, then its low byte below that, SP ends two lower, and PC is the vector of
/// the pending interrupt of highest priority; the other registers are kept.
pub proof fn lemma_dispatch_pushes_pc(v: RegistersView, pending: u8)
    ensures
        ({
            let (s1, v1, r1) = dispatch_step(InterruptDispatchState::DecrementingSP, v, pending);
            let (s2, v2, r2) = dispatch_step(s1, v1, pending);
            let (s3, v3, r3) = dispatch_step(s2, v2, pending);
            let (s4, v4, r4) = dispatch_step(s3, v3, pending);
            &&& r1 == InterruptDispatchExecutionState::Yield(MemoryOperation::NoOp)
            &&& r2 == InterruptDispatchExecutionState::Yield(
                MemoryOperation::Write { address: ((v.sp + 65535) % 65536) as u16, value: msb(v.pc) })
            &&& r3 == InterruptDispatchExecutionState::Yield(
                MemoryOperation::Write { address: ((v.sp + 65534) % 65536) as u16, value: lsb(v.pc) })
            &&& r4 == InterruptDispatchExecutionState::Complete
            &&& s4 == InterruptDispatchState::Complete
            &&& v4 == RegistersView { pc: dispatch_target(pending), sp: ((v.sp + 65534) % 65536) as u16, ..v }
        }),
{
}

/// Taking an interrupt, seen from the bus: after the opcode read at PC, with interrupts
/// enabled and one of them both enabled and requested, the next five cycles do nothing
/// twice, write the high byte of PC just below SP, write its low byte below that, and read
/// the next opcode at the vector of the interrupt of highest priority requested at the
/// fifth cycle. The interrupt master enable is off from the first of them on, SP ends two
/// lower, PC at the vector, and only the fifth cycle acknowledges that interrupt; what the
/// bus holds and what is requested in between change nothing of this.
pub proof fn lemma_interrupt_taken(c: CpuView, data: Seq<u8>, enable: u8, flags: Seq<u8>)
    requires
        c.state == State::WaitingPrefetchRead(false),
        c.ime,
        data.len() == 5,
        flags.len() == 5,
        spec_highest_priority(enable & flags[0]) is Some,
        spec_highest_priority(enable & flags[4]) is Some,
    ensures
        ({
            let kind = spec_highest_priority(enable & flags[4])->0;
            let (c1, r1) = cpu_step(c, data[0], enable, flags[0]);
            let (c2, r2) = cpu_step(c1, data[1], enable, flags[1]);
            let (c3, r3) = cpu_step(c2, data[2], enable, flags[2]);
            let (c4, r4) = cpu_step(c3, data[3], enable, flags[3]);
            let (c5, r5) = cpu_step(c4, data[4], enable, flags[4]);
            &&& r1 == Ok::<MemoryOperation, CpuError>(MemoryOperation::NoOp)
            &&& r2 == Ok::<MemoryOperation, CpuError>(MemoryOperation::NoOp)
            &&& r3 == Ok::<MemoryOperation, CpuError>(
                MemoryOperation::Write { address: ((c.registers.sp + 65535) % 65536) as u16, value: msb(c.registers.pc) })
            &&& r4 == Ok::<MemoryOperation, CpuError>(
                MemoryOperation::Write { address: ((c.registers.sp + 65534) % 65536) as u16, value: lsb(c.registers.pc) })
            &&& r5 == Ok::<MemoryOperation, CpuError>(MemoryOperation::Read { address: spec_vector(kind) })
            &&& !c1.ime && !c2.ime && !c3.ime && !c4.ime && !c5.ime
            &&& c5.state == State::WaitingPrefetchRead(false)
            &&& c5.enable_ime == c.enable_ime
            &&& c5.registers == RegistersView {
                pc: spec_vector(kind),
                sp: ((c.registers.sp + 65534) % 65536) as u16,
                ..c.registers
            }
            &&& cpu_step_flags(c, enable, flags[0]) == flags[0]
            &&& cpu_step_flags(c1, enable, flags[1]) == flags[1]
            &&& cpu_step_flags(c2, enable, flags[2]) == flags[2]
            &&& cpu_step_flags(c3, enable, flags[3]) == flags[3]
            &&& cpu_step_flags(c4, enable, flags[4]) == flags[4] & !spec_bit(kind)
        }),
{
    let v = c.registers;
    lemma_dispatch_pushes_pc(v, enable & flags[4]);
}

} // verus!
