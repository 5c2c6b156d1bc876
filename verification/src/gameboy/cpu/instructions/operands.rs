use vstd::prelude::*;

use super::super::super::bus::MemoryOperation;
use super::super::registers::{lsb, msb, pair, with_flag_bit, Registers, RegistersView, C_POS, H_POS, N_POS, Z_POS};
use super::alu::{sign_extend, spec_add_offset, ALUOpResult, ALUTwoOp, Add};

verus! {

/// An 8-bit register.
#[derive(Debug, Clone, Copy, PartialEq, Eq, Hash, Structural)]
pub enum R8 {
    A,
    B,
    C,
    D,
    E,
    H,
    L,
}

/// A 16-bit register or register pair.
#[derive(Debug, Clone, Copy, PartialEq, Eq, Hash, Structural)]
pub enum R16 {
    AF,
    BC,
    DE,
    HL,
    SP,
}

/// Where the address of a memory operand comes from.
#[derive(Debug, Clone, Copy, PartialEq, Eq, Hash, Structural)]
pub enum AddressSource {
    /// (BC)
    BC,
    /// (DE)
    DE,
    /// (HL)
    HL,
    /// (HL+): HL is incremented after use.
    HLInc,
    /// (HL-): HL is decremented after use.
    HLDec,
    /// (u16): the address follows the opcode.
    Imm16,
    /// (FF00+u8): the low byte of the address follows the opcode.
    HighImm8,
    /// (FF00+C)
    HighC,
}

/// An instruction operand.
#[derive(Debug, Clone, Copy, PartialEq, Eq, Hash, Structural)]
pub enum Operand {
    R8(R8),
    R16(R16),
    /// u8 following the opcode.
    Imm8,
    /// u16 following the opcode (little endian).
    Imm16,
    /// i8 following the opcode.
    Off8,
    /// The byte at an address.
    Deref(AddressSource),
    /// The 16-bit word at the address following the opcode (written only).
    DerefWord,
    /// SP+i8, the offset following the opcode.
    SPPlusOff8,
}

/// Whether an operand can be read.
pub open spec fn readable(op: Operand) -> bool {
    !(op is DerefWord)
}

/// Whether an operand can be written.
pub open spec fn writable(op: Operand) -> bool {
    op is R8 || op is R16 || op is Deref || op is DerefWord
}

/// Whether an operand holds a 16-bit value.
pub open spec fn is_word(op: Operand) -> bool {
    op is R16 || op is Imm16 || op is DerefWord || op is SPPlusOff8
}

pub open spec fn reg8(v: RegistersView, r: R8) -> u8 {
    match r {
        R8::A => v.a,
        R8::B => v.b,
        R8::C => v.c,
        R8::D => v.d,
        R8::E => v.e,
        R8::H => v.h,
        R8::L => v.l,
    }
}

pub open spec fn set_reg8(v: RegistersView, r: R8, x: u8) -> RegistersView {
    match r {
        R8::A => RegistersView { a: x, ..v },
        R8::B => RegistersView { b: x, ..v },
        R8::C => RegistersView { c: x, ..v },
        R8::D => RegistersView { d: x, ..v },
        R8::E => RegistersView { e: x, ..v },
        R8::H => RegistersView { h: x, ..v },
        R8::L => RegistersView { l: x, ..v },
    }
}

pub open spec fn reg16(v: RegistersView, r: R16) -> u16 {
    match r {
        R16::AF => v.af(),
        R16::BC => v.bc(),
        R16::DE => v.de(),
        R16::HL => v.hl(),
        R16::SP => v.sp,
    }
}

pub open spec fn set_reg16(v: RegistersView, r: R16, x: u16) -> RegistersView {
    match r {
        R16::AF => RegistersView { a: msb(x), f: (lsb(x) - lsb(x) % 16) as u8, ..v },
        R16::BC => RegistersView { b: msb(x), c: lsb(x), ..v },
        R16::DE => RegistersView { d: msb(x), e: lsb(x), ..v },
        R16::HL => RegistersView { h: msb(x), l: lsb(x), ..v },
        R16::SP => RegistersView { sp: x, ..v },
    }
}

/// `x + 1` on 16 bits.
pub open spec fn inc16(x: u16) -> u16 {
    ((x + 1) % 65536) as u16
}

/// `x - 1` on 16 bits.
pub open spec fn dec16(x: u16) -> u16 {
    ((x + 65535) % 65536) as u16
}

/// The registers after fetching the next byte of the instruction stream.
pub open spec fn fetch(v: RegistersView) -> RegistersView {
    RegistersView { pc: inc16(v.pc), ..v }
}

/// Applies the flags an ALU result sets.
pub open spec fn apply_flags(v: RegistersView, zf: Option<bool>, nf: Option<bool>, hf: Option<bool>, cf: Option<bool>) -> RegistersView {
    let f0 = v.f;
    let f1 = match zf { Some(b) => with_flag_bit(f0, Z_POS, b), None => f0 };
    let f2 = match hf { Some(b) => with_flag_bit(f1, H_POS, b), None => f1 };
    let f3 = match nf { Some(b) => with_flag_bit(f2, N_POS, b), None => f2 };
    let f4 = match cf { Some(b) => with_flag_bit(f3, C_POS, b), None => f3 };
    RegistersView { f: f4, ..v }
}

/// Reads an 8-bit register.
pub fn read_register8(registers: &Registers, r: R8) -> (x: u8)
    ensures
        x == reg8(registers@, r),
{
    match r {
        R8::A => registers.a(),
        R8::B => registers.b(),
        R8::C => registers.c(),
        R8::D => registers.d(),
        R8::E => registers.e(),
        R8::H => registers.h(),
        R8::L => registers.l(),
    }
}

/// Writes an 8-bit register.
pub fn write_register8(registers: &mut Registers, r: R8, x: u8)
    ensures
        final(registers)@ == set_reg8(old(registers)@, r, x),
{
    match r {
        R8::A => registers.set_a(x),
        R8::B => registers.set_b(x),
        R8::C => registers.set_c(x),
        R8::D => registers.set_d(x),
        R8::E => registers.set_e(x),
        R8::H => registers.set_h(x),
        R8::L => registers.set_l(x),
    }
}

/// Reads a 16-bit register.
pub fn read_register16(registers: &Registers, r: R16) -> (x: u16)
    ensures
        x == reg16(registers@, r),
{
    match r {
        R16::AF => registers.af(),
        R16::BC => registers.bc(),
        R16::DE => registers.de(),
        R16::HL => registers.hl(),
        R16::SP => registers.sp(),
    }
}

/// Writes a 16-bit register.
pub fn write_register16(registers: &mut Registers, r: R16, x: u16)
    ensures
        final(registers)@ == set_reg16(old(registers)@, r, x),
{
    match r {
        R16::AF => registers.set_af(x),
        R16::BC => registers.set_bc(x),
        R16::DE => registers.set_de(x),
        R16::HL => registers.set_hl(x),
        R16::SP => registers.set_sp(x),
    }
}

/// Applies the flags an ALU result sets.
pub fn write_flags(registers: &mut Registers, zf: Option<bool>, nf: Option<bool>, hf: Option<bool>, cf: Option<bool>)
    ensures
        final(registers)@ == apply_flags(old(registers)@, zf, nf, hf, cf),
{
    if let Some(zf) = zf {
        registers.set_zf(zf);
    }
    if let Some(hf) = hf {
        registers.set_hf(hf);
    }
    if let Some(nf) = nf {
        registers.set_nf(nf);
    }
    if let Some(cf) = cf {
        registers.set_cf(cf);
    }
}

/// Reads the byte at PC, moving PC past it.
pub fn fetch_next(registers: &mut Registers) -> (op: MemoryOperation)
    ensures
        final(registers)@ == fetch(old(registers)@),
        op == (MemoryOperation::Read { address: old(registers)@.pc }),
{
    let pc: u16 = registers.pc();
    registers.set_pc(pc.wrapping_add(1));
    MemoryOperation::Read { address: pc }
}

/// Step of a sub-execution that yields either a bus operation or its final value.
#[derive(Debug, Clone, Copy, PartialEq, Eq, Hash, Structural)]
pub enum OperandReadExecutionState<Value> {
    Yield(MemoryOperation),
    Complete(Value),
}

/// Step of an operand write.
#[derive(Debug, Clone, Copy, PartialEq, Eq, Hash, Structural)]
pub enum OperandWriteExecutionState {
    Yield(MemoryOperation),
    Complete,
}

/// Computation of the address of a memory operand.
#[derive(Debug, Clone, Copy, PartialEq, Eq, Hash, Structural)]
pub enum AddressExecution {
    Start(AddressSource),
    /// The low byte of a 0xFF00 page address is on the data bus.
    ReadingHighImm8,
    /// The low byte of a 16-bit address is on the data bus.
    ReadingLow,
    /// The high byte of a 16-bit address is on the data bus.
    ReadingHigh(u8),
    Complete(u16),
}

/// One step of an address computation, with `data` on the data bus.
pub open spec fn address_step(s: AddressExecution, v: RegistersView, data: u8)
    -> (AddressExecution, RegistersView, OperandReadExecutionState<u16>)
{
    match s {
        AddressExecution::Start(src) => match src {
            AddressSource::BC => (AddressExecution::Complete(v.bc()), v, OperandReadExecutionState::Complete(v.bc())),
            AddressSource::DE => (AddressExecution::Complete(v.de()), v, OperandReadExecutionState::Complete(v.de())),
            AddressSource::HL => (AddressExecution::Complete(v.hl()), v, OperandReadExecutionState::Complete(v.hl())),
            AddressSource::HLInc => (AddressExecution::Complete(v.hl()), set_reg16(v, R16::HL, inc16(v.hl())),
                OperandReadExecutionState::Complete(v.hl())),
            AddressSource::HLDec => (AddressExecution::Complete(v.hl()), set_reg16(v, R16::HL, dec16(v.hl())),
                OperandReadExecutionState::Complete(v.hl())),
            AddressSource::HighC => (AddressExecution::Complete((0xFF00 + v.c) as u16), v,
                OperandReadExecutionState::Complete((0xFF00 + v.c) as u16)),
            AddressSource::HighImm8 => (AddressExecution::ReadingHighImm8, fetch(v),
                OperandReadExecutionState::Yield(MemoryOperation::Read { address: v.pc })),
            AddressSource::Imm16 => (AddressExecution::ReadingLow, fetch(v),
                OperandReadExecutionState::Yield(MemoryOperation::Read { address: v.pc })),
        },
        AddressExecution::ReadingHighImm8 => (AddressExecution::Complete((0xFF00 + data) as u16), v,
            OperandReadExecutionState::Complete((0xFF00 + data) as u16)),
        AddressExecution::ReadingLow => (AddressExecution::ReadingHigh(data), fetch(v),
            OperandReadExecutionState::Yield(MemoryOperation::Read { address: v.pc })),
        AddressExecution::ReadingHigh(low) => (AddressExecution::Complete(pair(data, low)), v,
            OperandReadExecutionState::Complete(pair(data, low))),
        AddressExecution::Complete(a) => (s, v, OperandReadExecutionState::Complete(a)),
    }
}

impl AddressExecution {
    pub fn next(&mut self, registers: &mut Registers, data_bus: u8) -> (r: OperandReadExecutionState<u16>)
        ensures
            (*final(self), final(registers)@, r) == address_step(*old(self), old(registers)@, data_bus),
    {
        match *self {
            AddressExecution::Start(src) => match src {
                AddressSource::BC => {
                    let a: u16 = registers.bc();
                    *self = AddressExecution::Complete(a);
                    OperandReadExecutionState::Complete(a)
                },
                AddressSource::DE => {
                    let a: u16 = registers.de();
                    *self = AddressExecution::Complete(a);
                    OperandReadExecutionState::Complete(a)
                },
                AddressSource::HL => {
                    let a: u16 = registers.hl();
                    *self = AddressExecution::Complete(a);
                    OperandReadExecutionState::Complete(a)
                },
                AddressSource::HLInc => {
                    let a: u16 = registers.hl();
                    registers.set_hl(a.wrapping_add(1));
                    *self = AddressExecution::Complete(a);
                    OperandReadExecutionState::Complete(a)
                },
                AddressSource::HLDec => {
                    let a: u16 = registers.hl();
                    registers.set_hl(a.wrapping_sub(1));
                    *self = AddressExecution::Complete(a);
                    OperandReadExecutionState::Complete(a)
                },
                AddressSource::HighC => {
                    let a: u16 = 0xFF00 + registers.c() as u16;
                    *self = AddressExecution::Complete(a);
                    OperandReadExecutionState::Complete(a)
                },
                AddressSource::HighImm8 => {
                    *self = AddressExecution::ReadingHighImm8;
                    OperandReadExecutionState::Yield(fetch_next(registers))
                },
                AddressSource::Imm16 => {
                    *self = AddressExecution::ReadingLow;
                    OperandReadExecutionState::Yield(fetch_next(registers))
                },
            },
            AddressExecution::ReadingHighImm8 => {
                let a: u16 = 0xFF00 + data_bus as u16;
                *self = AddressExecution::Complete(a);
                OperandReadExecutionState::Complete(a)
            },
            AddressExecution::ReadingLow => {
                *self = AddressExecution::ReadingHigh(data_bus);
                OperandReadExecutionState::Yield(fetch_next(registers))
            },
            AddressExecution::ReadingHigh(low) => {
                let a: u16 = (data_bus as u16) * 256 + (low as u16);
                *self = AddressExecution::Complete(a);
                OperandReadExecutionState::Complete(a)
            },
            AddressExecution::Complete(a) => OperandReadExecutionState::Complete(a),
        }
    }
}

/// The read of an operand, one machine cycle at a time.
#[derive(Debug, Clone, Copy, PartialEq, Eq, Hash, Structural)]
pub enum ReadExecution {
    Start(Operand),
    /// An immediate byte is on the data bus; `true` when it is the low byte of a word.
    ReadingImmediate(bool),
    /// The high byte of an immediate word is on the data bus.
    ReadingImmediateHigh(u8),
    /// The address of a memory operand is being computed.
    WaitingForAddress(AddressExecution),
    /// The operand byte is on the data bus.
    Dereferencing,
    /// The offset of SP+i8 is on the data bus.
    ReadingOffset,
    /// SP+i8 is computed; one internal cycle remains.
    OffsetComputed(u16),
    Complete(u16),
}

/// What a read does once its address is known.
pub open spec fn deref_after(a: AddressExecution, r: OperandReadExecutionState<u16>)
    -> (ReadExecution, OperandReadExecutionState<u16>)
{
    match r {
        OperandReadExecutionState::Yield(op) => (ReadExecution::WaitingForAddress(a), OperandReadExecutionState::Yield(op)),
        OperandReadExecutionState::Complete(address) => (ReadExecution::Dereferencing,
            OperandReadExecutionState::Yield(MemoryOperation::Read { address })),
    }
}

/// One step of an operand read, with `data` on the data bus.
pub open spec fn read_step(s: ReadExecution, v: RegistersView, data: u8)
    -> (ReadExecution, RegistersView, OperandReadExecutionState<u16>)
{
    match s {
        ReadExecution::Start(op) => match op {
            Operand::R8(r) => (ReadExecution::Complete(reg8(v, r) as u16), v, OperandReadExecutionState::Complete(reg8(v, r) as u16)),
            Operand::R16(r) => (ReadExecution::Complete(reg16(v, r)), v, OperandReadExecutionState::Complete(reg16(v, r))),
            Operand::Imm8 => (ReadExecution::ReadingImmediate(false), fetch(v), OperandReadExecutionState::Yield(MemoryOperation::Read { address: v.pc })),
            Operand::Off8 => (ReadExecution::ReadingImmediate(false), fetch(v), OperandReadExecutionState::Yield(MemoryOperation::Read { address: v.pc })),
            Operand::Imm16 => (ReadExecution::ReadingImmediate(true), fetch(v), OperandReadExecutionState::Yield(MemoryOperation::Read { address: v.pc })),
            Operand::SPPlusOff8 => (ReadExecution::ReadingOffset, fetch(v), OperandReadExecutionState::Yield(MemoryOperation::Read { address: v.pc })),
            Operand::Deref(src) => {
                let (a, v2, r) = address_step(AddressExecution::Start(src), v, data);
                (deref_after(a, r).0, v2, deref_after(a, r).1)
            },
            Operand::DerefWord => (s, v, OperandReadExecutionState::Complete(0)),
        },
        ReadExecution::ReadingImmediate(word) => if word {
            (ReadExecution::ReadingImmediateHigh(data), fetch(v), OperandReadExecutionState::Yield(MemoryOperation::Read { address: v.pc }))
        } else {
            (ReadExecution::Complete(data as u16), v, OperandReadExecutionState::Complete(data as u16))
        },
        ReadExecution::ReadingImmediateHigh(low) => (ReadExecution::Complete(pair(data, low)), v,
            OperandReadExecutionState::Complete(pair(data, low))),
        ReadExecution::WaitingForAddress(a) => {
            let (a2, v2, r) = address_step(a, v, data);
            (deref_after(a2, r).0, v2, deref_after(a2, r).1)
        },
        ReadExecution::Dereferencing => (ReadExecution::Complete(data as u16), v, OperandReadExecutionState::Complete(data as u16)),
        ReadExecution::ReadingOffset => {
            let res = spec_add_offset(v.sp, data as i8);
            (ReadExecution::OffsetComputed(res.value->0), apply_flags(v, res.zf, res.nf, res.hf, res.cf),
                OperandReadExecutionState::Yield(MemoryOperation::NoOp))
        },
        ReadExecution::OffsetComputed(x) => (ReadExecution::Complete(x), v, OperandReadExecutionState::Complete(x)),
        ReadExecution::Complete(x) => (s, v, OperandReadExecutionState::Complete(x)),
    }
}

impl ReadExecution {
    /// Starts reading `op`.
    pub fn new(op: Operand) -> (r: Self)
        ensures
            r == ReadExecution::Start(op),
    {
        ReadExecution::Start(op)
    }

    fn deref(a: AddressExecution, address: OperandReadExecutionState<u16>) -> (r: (ReadExecution, OperandReadExecutionState<u16>))
        ensures
            r == deref_after(a, address),
    {
        match address {
            OperandReadExecutionState::Yield(op) => (ReadExecution::WaitingForAddress(a), OperandReadExecutionState::Yield(op)),
            OperandReadExecutionState::Complete(address) => (ReadExecution::Dereferencing,
                OperandReadExecutionState::Yield(MemoryOperation::Read { address })),
        }
    }

    pub fn next(&mut self, registers: &mut Registers, data_bus: u8) -> (r: OperandReadExecutionState<u16>)
        requires
            !(old(self) matches ReadExecution::Start(Operand::DerefWord)),
        ensures
                (*final(self), final(registers)@, r) == read_step(*old(self), old(registers)@, data_bus),
    {
        match *self {
            ReadExecution::Start(op) => match op {
                Operand::R8(reg) => {
                    let x: u16 = read_register8(registers, reg) as u16;
                    *self = ReadExecution::Complete(x);
                    OperandReadExecutionState::Complete(x)
                },
                Operand::R16(reg) => {
                    let x: u16 = read_register16(registers, reg);
                    *self = ReadExecution::Complete(x);
                    OperandReadExecutionState::Complete(x)
                },
                Operand::Imm8 | Operand::Off8 => {
                    *self = ReadExecution::ReadingImmediate(false);
                    OperandReadExecutionState::Yield(fetch_next(registers))
                },
                Operand::Imm16 => {
                    *self = ReadExecution::ReadingImmediate(true);
                    OperandReadExecutionState::Yield(fetch_next(registers))
                },
                Operand::SPPlusOff8 => {
                    *self = ReadExecution::ReadingOffset;
                    OperandReadExecutionState::Yield(fetch_next(registers))
                },
                Operand::Deref(src) => {
                    let mut a = AddressExecution::Start(src);
                    let address = a.next(registers, data_bus);
                    let (s, r) = Self::deref(a, address);
                    *self = s;
                    r
                },
                Operand::DerefWord => OperandReadExecutionState::Complete(0),
            },
            ReadExecution::ReadingImmediate(word) => {
                if word {
                    *self = ReadExecution::ReadingImmediateHigh(data_bus);
                    OperandReadExecutionState::Yield(fetch_next(registers))
                } else {
                    *self = ReadExecution::Complete(data_bus as u16);
                    OperandReadExecutionState::Complete(data_bus as u16)
                }
            },
            ReadExecution::ReadingImmediateHigh(low) => {
                let x: u16 = (data_bus as u16) * 256 + (low as u16);
                *self = ReadExecution::Complete(x);
                OperandReadExecutionState::Complete(x)
            },
            ReadExecution::WaitingForAddress(a) => {
                let mut a = a;
                let address = a.next(registers, data_bus);
                let (s, r) = Self::deref(a, address);
                *self = s;
                r
            },
            ReadExecution::Dereferencing => {
                *self = ReadExecution::Complete(data_bus as u16);
                OperandReadExecutionState::Complete(data_bus as u16)
            },
            ReadExecution::ReadingOffset => {
                let res: ALUOpResult<u16> = <Add as ALUTwoOp<u16, i8>>::execute(registers.sp(), data_bus as i8, false);
                write_flags(registers, res.zf, res.nf, res.hf, res.cf);
                let x: u16 = match res.value { Some(x) => x, None => 0 };
                *self = ReadExecution::OffsetComputed(x);
                OperandReadExecutionState::Yield(MemoryOperation::NoOp)
            },
            ReadExecution::OffsetComputed(x) => {
                *self = ReadExecution::Complete(x);
                OperandReadExecutionState::Complete(x)
            },
            ReadExecution::Complete(x) => OperandReadExecutionState::Complete(x),
        }
    }
}

/// The write of a value to an operand, one machine cycle at a time.
#[derive(Debug, Clone, Copy, PartialEq, Eq, Hash, Structural)]
pub enum WriteExecution {
    Start(Operand, u16),
    /// The address is being computed; the flag tells whether a word is written.
    WaitingForAddress(AddressExecution, u16, bool),
    /// The low byte of a word was written; the high byte goes to the given address.
    WritingHigh(u16, u8),
    /// The last byte was written.
    Written,
    Complete,
}

/// What a write does once its address is known.
pub open spec fn write_after(a: AddressExecution, value: u16, word: bool, r: OperandReadExecutionState<u16>)
    -> (WriteExecution, OperandWriteExecutionState)
{
    match r {
        OperandReadExecutionState::Yield(op) => (WriteExecution::WaitingForAddress(a, value, word), OperandWriteExecutionState::Yield(op)),
        OperandReadExecutionState::Complete(address) => if word {
            (WriteExecution::WritingHigh(inc16(address), msb(value)),
                OperandWriteExecutionState::Yield(MemoryOperation::Write { address, value: lsb(value) }))
        } else {
            (WriteExecution::Written, OperandWriteExecutionState::Yield(MemoryOperation::Write { address, value: lsb(value) }))
        },
    }
}

/// One step of an operand write, with `data` on the data bus.
pub open spec fn write_step(s: WriteExecution, v: RegistersView, data: u8)
    -> (WriteExecution, RegistersView, OperandWriteExecutionState)
{
    match s {
        WriteExecution::Start(op, value) => match op {
            Operand::R8(r) => (WriteExecution::Complete, set_reg8(v, r, lsb(value)), OperandWriteExecutionState::Complete),
            Operand::R16(r) => (WriteExecution::Complete, set_reg16(v, r, value), OperandWriteExecutionState::Complete),
            Operand::Deref(src) => {
                let (a, v2, r) = address_step(AddressExecution::Start(src), v, data);
                (write_after(a, value, false, r).0, v2, write_after(a, value, false, r).1)
            },
            Operand::DerefWord => {
                let (a, v2, r) = address_step(AddressExecution::Start(AddressSource::Imm16), v, data);
                (write_after(a, value, true, r).0, v2, write_after(a, value, true, r).1)
            },
            _ => (WriteExecution::Complete, v, OperandWriteExecutionState::Complete),
        },
        WriteExecution::WaitingForAddress(a, value, word) => {
            let (a2, v2, r) = address_step(a, v, data);
            (write_after(a2, value, word, r).0, v2, write_after(a2, value, word, r).1)
        },
        WriteExecution::WritingHigh(address, value) => (WriteExecution::Written, v,
            OperandWriteExecutionState::Yield(MemoryOperation::Write { address, value })),
        WriteExecution::Written => (WriteExecution::Complete, v, OperandWriteExecutionState::Complete),
        WriteExecution::Complete => (s, v, OperandWriteExecutionState::Complete),
    }
}

impl WriteExecution {
    /// Starts writing `value` to `op`.
    pub fn new(op: Operand, value: u16) -> (r: Self)
        ensures
            r == WriteExecution::Start(op, value),
    {
        WriteExecution::Start(op, value)
    }

    fn after_address(a: AddressExecution, value: u16, word: bool, address: OperandReadExecutionState<u16>)
        -> (r: (WriteExecution, OperandWriteExecutionState))
        ensures
            r == write_after(a, value, word, address),
    {
        match address {
            OperandReadExecutionState::Yield(op) => (WriteExecution::WaitingForAddress(a, value, word), OperandWriteExecutionState::Yield(op)),
            OperandReadExecutionState::Complete(address) => {
                let low: u8 = (value % 256) as u8;
                if word {
                    (WriteExecution::WritingHigh(address.wrapping_add(1), (value / 256) as u8),
                        OperandWriteExecutionState::Yield(MemoryOperation::Write { address, value: low }))
                } else {
                    (WriteExecution::Written, OperandWriteExecutionState::Yield(MemoryOperation::Write { address, value: low }))
                }
            },
        }
    }

    pub fn next(&mut self, registers: &mut Registers, data_bus: u8) -> (r: OperandWriteExecutionState)
        ensures
            (*final(self), final(registers)@, r) == write_step(*old(self), old(registers)@, data_bus),
    {
        match *self {
            WriteExecution::Start(op, value) => match op {
                Operand::R8(reg) => {
                    write_register8(registers, reg, (value % 256) as u8);
                    *self = WriteExecution::Complete;
                    OperandWriteExecutionState::Complete
                },
                Operand::R16(reg) => {
                    write_register16(registers, reg, value);
                    *self = WriteExecution::Complete;
                    OperandWriteExecutionState::Complete
                },
                Operand::Deref(src) => {
                    let mut a = AddressExecution::Start(src);
                    let address = a.next(registers, data_bus);
                    let (s, r) = Self::after_address(a, value, false, address);
                    *self = s;
                    r
                },
                Operand::DerefWord => {
                    let mut a = AddressExecution::Start(AddressSource::Imm16);
                    let address = a.next(registers, data_bus);
                    let (s, r) = Self::after_address(a, value, true, address);
                    *self = s;
                    r
                },
                _ => {
                    *self = WriteExecution::Complete;
                    OperandWriteExecutionState::Complete
                },
            },
            WriteExecution::WaitingForAddress(a, value, word) => {
                let mut a = a;
                let address = a.next(registers, data_bus);
                let (s, r) = Self::after_address(a, value, word, address);
                *self = s;
                r
            },
            WriteExecution::WritingHigh(address, value) => {
                *self = WriteExecution::Written;
                OperandWriteExecutionState::Yield(MemoryOperation::Write { address, value })
            },
            WriteExecution::Written => {
                *self = WriteExecution::Complete;
                OperandWriteExecutionState::Complete
            },
            WriteExecution::Complete => OperandWriteExecutionState::Complete,
        }
    }
}

} // verus!
