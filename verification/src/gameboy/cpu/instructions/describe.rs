use vstd::prelude::*;

use crate::cartridge::names::{decimal, decimal_string, hex2, hex_byte, hex_digit, hex_digit_str};
use super::super::super::mmu::{spec_read, Mmu, MmuContext, MMU};
use super::condition::Cond;
use super::implementation::alu::{AluBitKind, AluOneKind, AluTwoKind};
use super::operands::{AddressSource, Operand, R16, R8};
use super::DecodedInstruction;

verus! {

/// The kind of the immediate value an instruction reads after its opcode.
#[derive(Debug, Clone, Copy, PartialEq, Eq, Hash, Structural)]
pub enum Immediate {
    Nothing,
    U8,
    U16,
    I8,
}

/// A byte as two upper-case hexadecimal digits.
pub open spec fn hex2_upper(value: u8) -> Seq<char> {
    let d = |n: int| if n < 10 { (48 + n) as char } else { (65 + n - 10) as char };
    seq![d(value as int / 16), d(value as int % 16)]
}

/// The upper-case hexadecimal digit of `d` (below 16), as text.
fn hex_digit_upper_str(d: u8) -> (r: &'static str)
    requires
        d < 16,
    ensures
        r@ == seq![if d < 10 { (48 + d) as char } else { (65 + d - 10) as char }],
{
    match d {
        0 => { proof { reveal_strlit("0"); } "0" },
        1 => { proof { reveal_strlit("1"); } "1" },
        2 => { proof { reveal_strlit("2"); } "2" },
        3 => { proof { reveal_strlit("3"); } "3" },
        4 => { proof { reveal_strlit("4"); } "4" },
        5 => { proof { reveal_strlit("5"); } "5" },
        6 => { proof { reveal_strlit("6"); } "6" },
        7 => { proof { reveal_strlit("7"); } "7" },
        8 => { proof { reveal_strlit("8"); } "8" },
        9 => { proof { reveal_strlit("9"); } "9" },
        10 => { proof { reveal_strlit("A"); } "A" },
        11 => { proof { reveal_strlit("B"); } "B" },
        12 => { proof { reveal_strlit("C"); } "C" },
        13 => { proof { reveal_strlit("D"); } "D" },
        14 => { proof { reveal_strlit("E"); } "E" },
        _ => { proof { reveal_strlit("F"); } "F" },
    }
}

/// Writes a byte as two upper-case hexadecimal digits.
fn hex_byte_upper(value: u8) -> (r: String)
    ensures
        r@ == hex2_upper(value),
{
    let r = String::from_str(hex_digit_upper_str(value / 16)).concat(hex_digit_upper_str(value % 16));
    assert(r@ =~= hex2_upper(value));
    r
}

/// The lower-case hexadecimal digits of `n`, without leading zeroes.
pub open spec fn hex_digits(n: nat) -> Seq<char>
    decreases n,
{
    if n < 16 { seq![hex_digit(n as int)] } else { hex_digits(n / 16).push(hex_digit((n % 16) as int)) }
}

/// `s` padded on the left with zeroes to `width` characters.
pub open spec fn zero_padded(s: Seq<char>, width: nat) -> Seq<char> {
    if s.len() >= width { s } else { Seq::new((width - s.len()) as nat, |i: int| '0') + s }
}

/// The bits of `v` as an unsigned 32-bit number (two's complement).
pub open spec fn twos_complement(v: i32) -> nat {
    (if v >= 0 { v as int } else { v + 0x1_0000_0000 }) as nat
}

/// Writes a number in lower-case hexadecimal, without leading zeroes.
fn hex_digits_string(n: u32) -> (r: String)
    ensures
        r@ == hex_digits(n as nat),
    decreases n,
{
    if n < 16 {
        let digit: u8 = n as u8;
        let r = String::from_str(hex_digit_str(digit));
        assert(r@ =~= hex_digits(n as nat));
        r
    } else {
        let digit: u8 = (n % 16) as u8;
        let r = hex_digits_string(n / 16).concat(hex_digit_str(digit));
        assert(r@ =~= hex_digits(n as nat));
        r
    }
}

/// Writes a 32-bit integer in hexadecimal, padded with zeroes to four digits; a negative
/// one shows its two's complement bits.
fn hex_i32(value: i32) -> (r: String)
    ensures
        r@ == zero_padded(hex_digits(twos_complement(value)), 4),
{
    let bits: u32 = if value >= 0 { value as u32 } else { (value as i64 + 0x1_0000_0000i64) as u32 };
    let digits = hex_digits_string(bits);
    let len: usize = digits.as_str().unicode_len();
    let pad: &str = if len == 0 {
        proof { reveal_strlit("0000"); }
        "0000"
    } else if len == 1 {
        proof { reveal_strlit("000"); }
        "000"
    } else if len == 2 {
        proof { reveal_strlit("00"); }
        "00"
    } else if len == 3 {
        proof { reveal_strlit("0"); }
        "0"
    } else {
        proof { reveal_strlit(""); }
        ""
    };
    let r = String::from_str(pad).concat(digits.as_str());
    assert(r@ =~= zero_padded(hex_digits(twos_complement(value)), 4));
    r
}

/// The name of an 8-bit register.
pub open spec fn r8_text(r: R8) -> Seq<char> {
    match r {
        R8::A => "A"@,
        R8::B => "B"@,
        R8::C => "C"@,
        R8::D => "D"@,
        R8::E => "E"@,
        R8::H => "H"@,
        R8::L => "L"@,
    }
}

/// The name of a 16-bit register.
pub open spec fn r16_text(r: R16) -> Seq<char> {
    match r {
        R16::AF => "AF"@,
        R16::BC => "BC"@,
        R16::DE => "DE"@,
        R16::HL => "HL"@,
        R16::SP => "SP"@,
    }
}

/// How an operand reads, with `hole` standing for the value that follows the opcode.
pub open spec fn operand_text(o: Operand, hole: Seq<char>) -> Seq<char> {
    match o {
        Operand::R8(r) => r8_text(r),
        Operand::R16(r) => r16_text(r),
        Operand::Imm8 => hole,
        Operand::Imm16 => hole,
        Operand::Off8 => hole,
        Operand::SPPlusOff8 => "SP+"@ + hole,
        Operand::DerefWord => "("@ + hole + ")"@,
        Operand::Deref(a) => match a {
            AddressSource::BC => "(BC)"@,
            AddressSource::DE => "(DE)"@,
            AddressSource::HL => "(HL)"@,
            AddressSource::HLInc => "(HL+)"@,
            AddressSource::HLDec => "(HL-)"@,
            AddressSource::Imm16 => "("@ + hole + ")"@,
            AddressSource::HighImm8 => "(FF00+"@ + hole + ")"@,
            AddressSource::HighC => "(FF00+C)"@,
        },
    }
}

/// The immediate value an operand reads.
pub open spec fn operand_immediate(o: Operand) -> Immediate {
    match o {
        Operand::Imm8 => Immediate::U8,
        Operand::Imm16 => Immediate::U16,
        Operand::Off8 => Immediate::I8,
        Operand::SPPlusOff8 => Immediate::I8,
        Operand::DerefWord => Immediate::U16,
        Operand::Deref(AddressSource::Imm16) => Immediate::U16,
        Operand::Deref(AddressSource::HighImm8) => Immediate::U8,
        _ => Immediate::Nothing,
    }
}

/// The immediate value of one of two operands.
pub open spec fn either_immediate(a: Operand, b: Operand) -> Immediate {
    if operand_immediate(a) != Immediate::Nothing { operand_immediate(a) } else { operand_immediate(b) }
}

/// The immediate value an instruction reads after its opcode.
pub open spec fn spec_immediate(d: DecodedInstruction) -> Immediate {
    match d {
        DecodedInstruction::Ld(i) => either_immediate(i.dst, i.src),
        DecodedInstruction::ALUOne(i) => operand_immediate(i.operand),
        DecodedInstruction::ALUTwo(i) => either_immediate(i.dst, i.src),
        DecodedInstruction::ALUBit(i) => operand_immediate(i.operand),
        DecodedInstruction::Jr(_) => Immediate::I8,
        DecodedInstruction::Jp(i) => operand_immediate(i.target),
        DecodedInstruction::Call(_) => Immediate::U16,
        _ => Immediate::Nothing,
    }
}

/// How an immediate value of this kind is shown when it is not known.
pub open spec fn placeholder(k: Immediate) -> Seq<char> {
    match k {
        Immediate::Nothing => ""@,
        Immediate::U8 => "u8"@,
        Immediate::U16 => "u16"@,
        Immediate::I8 => "i8"@,
    }
}

pub open spec fn cond_text(c: Cond) -> Seq<char> {
    match c {
        Cond::Always => ""@,
        Cond::NZ => "NZ"@,
        Cond::Z => "Z"@,
        Cond::NC => "NC"@,
        Cond::C => "C"@,
    }
}

pub open spec fn one_text(k: AluOneKind) -> Seq<char> {
    match k {
        AluOneKind::Inc => "INC"@,
        AluOneKind::Dec => "DEC"@,
        AluOneKind::Rlc => "RLC"@,
        AluOneKind::Rrc => "RRC"@,
        AluOneKind::Rl => "RL"@,
        AluOneKind::Rr => "RR"@,
        AluOneKind::Sla => "SLA"@,
        AluOneKind::Sra => "SRA"@,
        AluOneKind::Swap => "SWAP"@,
        AluOneKind::Srl => "SRL"@,
        AluOneKind::RlcA => "RLCA"@,
        AluOneKind::RrcA => "RRCA"@,
        AluOneKind::RlA => "RLA"@,
        AluOneKind::RrA => "RRA"@,
        AluOneKind::Daa => "DAA"@,
        AluOneKind::Cpl => "CPL"@,
        AluOneKind::Scf => "SCF"@,
        AluOneKind::Ccf => "CCF"@,
    }
}

pub open spec fn two_text(k: AluTwoKind) -> Seq<char> {
    match k {
        AluTwoKind::Add => "ADD"@,
        AluTwoKind::AdC => "ADC"@,
        AluTwoKind::Sub => "SUB"@,
        AluTwoKind::SbC => "SBC"@,
        AluTwoKind::And => "AND"@,
        AluTwoKind::Xor => "XOR"@,
        AluTwoKind::Or => "OR"@,
        AluTwoKind::Cp => "CP"@,
    }
}

pub open spec fn bit_text(k: AluBitKind) -> Seq<char> {
    match k {
        AluBitKind::Bit => "BIT"@,
        AluBitKind::Res => "RES"@,
        AluBitKind::SetBit => "SET"@,
    }
}

/// A mnemonic followed by an operand, with a condition before it when there is one.
pub open spec fn branch_text(mnemonic: Seq<char>, c: Cond, operand: Seq<char>) -> Seq<char> {
    if c == Cond::Always { mnemonic + " "@ + operand } else { mnemonic + " "@ + cond_text(c) + ", "@ + operand }
}

/// How an instruction reads, with `hole` standing for the value that follows the opcode.
pub open spec fn instruction_text(d: DecodedInstruction, hole: Seq<char>) -> Seq<char> {
    match d {
        DecodedInstruction::Nop(_) => "NOP"@,
        DecodedInstruction::Ld(i) => "LD "@ + operand_text(i.dst, hole) + ", "@ + operand_text(i.src, hole),
        DecodedInstruction::ALUOne(i) => one_text(i.op) + " "@ + operand_text(i.operand, hole),
        DecodedInstruction::ALUTwo(i) => two_text(i.op) + " "@ + operand_text(i.dst, hole) + ", "@ + operand_text(i.src, hole),
        DecodedInstruction::ALUBit(i) => bit_text(i.op) + " "@ + decimal(i.bit as nat) + ", "@ + operand_text(i.operand, hole),
        DecodedInstruction::Jr(i) => branch_text("JR"@, i.cond, hole),
        DecodedInstruction::Jp(i) => branch_text("JP"@, i.cond, operand_text(i.target, hole)),
        DecodedInstruction::Call(i) => branch_text("CALL"@, i.cond, hole),
        DecodedInstruction::Ret(i) => if i.cond == Cond::Always { "RET"@ } else { "RET "@ + cond_text(i.cond) },
        DecodedInstruction::Push(i) => "PUSH "@ + r16_text(i.register),
        DecodedInstruction::Pop(i) => "POP "@ + r16_text(i.register),
        DecodedInstruction::Rst(i) => "RST $"@ + hex2(i.address),
        DecodedInstruction::DI(_) => "DI"@,
        DecodedInstruction::EI(_) => "EI"@,
        DecodedInstruction::Halt(_) => "HALT"@,
        DecodedInstruction::Invalid(i) => if i.is_cb_prefixed {
            "INVALID 0xCB 0x"@ + hex2_upper(i.opcode)
        } else {
            "INVALID 0x"@ + hex2_upper(i.opcode)
        },
    }
}

/// How an instruction reads, the value after the opcode named by its type.
pub open spec fn raw_text(d: DecodedInstruction) -> Seq<char> {
    instruction_text(d, placeholder(spec_immediate(d)))
}

/// The target of a relative jump at `pc` with offset `offset`, as a signed number.
pub open spec fn relative_target(pc: u16, offset: u8) -> int {
    ((pc + 2) % 65536) + (if offset < 128 { offset as int } else { offset - 256 })
}

/// How the value after the opcode is shown, from the two bytes that follow the opcode at
/// `pc`.
pub open spec fn value_text(k: Immediate, pc: u16, byte1: u8, byte2: u8) -> Seq<char> {
    match k {
        Immediate::Nothing => ""@,
        Immediate::U8 => "$"@ + hex2(byte1),
        Immediate::U16 => "$"@ + hex2(byte2) + hex2(byte1),
        Immediate::I8 => "$"@ + hex2(byte1) + " (=> $"@
            + zero_padded(hex_digits(twos_complement(relative_target(pc, byte1) as i32)), 4) + ")"@,
    }
}

/// The address that follows `a`, wrapping around.
pub open spec fn next_address(a: u16) -> u16 {
    ((a + 1) % 65536) as u16
}

fn operand_str(o: Operand, hole: &str) -> (r: String)
    ensures
        r@ == operand_text(o, hole@),
{
    match o {
        Operand::R8(r) => String::from_str(match r {
            R8::A => "A",
            R8::B => "B",
            R8::C => "C",
            R8::D => "D",
            R8::E => "E",
            R8::H => "H",
            R8::L => "L",
        }),
        Operand::R16(r) => String::from_str(r16_str(r)),
        Operand::Imm8 => String::from_str(hole),
        Operand::Imm16 => String::from_str(hole),
        Operand::Off8 => String::from_str(hole),
        Operand::SPPlusOff8 => String::from_str("SP+").concat(hole),
        Operand::DerefWord => String::from_str("(").concat(hole).concat(")"),
        Operand::Deref(a) => match a {
            AddressSource::BC => String::from_str("(BC)"),
            AddressSource::DE => String::from_str("(DE)"),
            AddressSource::HL => String::from_str("(HL)"),
            AddressSource::HLInc => String::from_str("(HL+)"),
            AddressSource::HLDec => String::from_str("(HL-)"),
            AddressSource::Imm16 => String::from_str("(").concat(hole).concat(")"),
            AddressSource::HighImm8 => String::from_str("(FF00+").concat(hole).concat(")"),
            AddressSource::HighC => String::from_str("(FF00+C)"),
        },
    }
}

fn r16_str(r: R16) -> (s: &'static str)
    ensures
        s@ == r16_text(r),
{
    match r {
        R16::AF => "AF",
        R16::BC => "BC",
        R16::DE => "DE",
        R16::HL => "HL",
        R16::SP => "SP",
    }
}

fn operand_immediate_of(o: Operand) -> (r: Immediate)
    ensures
        r == operand_immediate(o),
{
    match o {
        Operand::Imm8 => Immediate::U8,
        Operand::Imm16 => Immediate::U16,
        Operand::Off8 => Immediate::I8,
        Operand::SPPlusOff8 => Immediate::I8,
        Operand::DerefWord => Immediate::U16,
        Operand::Deref(AddressSource::Imm16) => Immediate::U16,
        Operand::Deref(AddressSource::HighImm8) => Immediate::U8,
        _ => Immediate::Nothing,
    }
}

fn either_immediate_of(a: Operand, b: Operand) -> (r: Immediate)
    ensures
        r == either_immediate(a, b),
{
    let ka = operand_immediate_of(a);
    if ka != Immediate::Nothing { ka } else { operand_immediate_of(b) }
}

fn branch_str(mnemonic: &str, c: Cond, operand: &str) -> (r: String)
    ensures
        r@ == branch_text(mnemonic@, c, operand@),
{
    if c == Cond::Always {
        String::from_str(mnemonic).concat(" ").concat(operand)
    } else {
        String::from_str(mnemonic).concat(" ").concat(c.str()).concat(", ").concat(operand)
    }
}

impl DecodedInstruction {
    /// The immediate value the instruction reads after its opcode.
    pub fn immediate(&self) -> (r: Immediate)
        ensures
            r == spec_immediate(*self),
    {
        match self {
            DecodedInstruction::Ld(i) => either_immediate_of(i.dst, i.src),
            DecodedInstruction::ALUOne(i) => operand_immediate_of(i.operand),
            DecodedInstruction::ALUTwo(i) => either_immediate_of(i.dst, i.src),
            DecodedInstruction::ALUBit(i) => operand_immediate_of(i.operand),
            DecodedInstruction::Jr(_) => Immediate::I8,
            DecodedInstruction::Jp(i) => operand_immediate_of(i.target),
            DecodedInstruction::Call(_) => Immediate::U16,
            _ => Immediate::Nothing,
        }
    }

    /// The instruction in assembly, `hole` standing for the value after the opcode.
    fn text(&self, hole: &str) -> (r: String)
        ensures
            r@ == instruction_text(*self, hole@),
    {
        match self {
            DecodedInstruction::Nop(_) => String::from_str("NOP"),
            DecodedInstruction::Ld(i) => String::from_str("LD ").concat(operand_str(i.dst, hole).as_str()).concat(", ")
                .concat(operand_str(i.src, hole).as_str()),
            DecodedInstruction::ALUOne(i) => String::from_str(one_str(i.op)).concat(" ").concat(operand_str(i.operand, hole).as_str()),
            DecodedInstruction::ALUTwo(i) => String::from_str(two_str(i.op)).concat(" ").concat(operand_str(i.dst, hole).as_str())
                .concat(", ").concat(operand_str(i.src, hole).as_str()),
            DecodedInstruction::ALUBit(i) => {
                let name: &str = match i.op {
                    AluBitKind::Bit => "BIT",
                    AluBitKind::Res => "RES",
                    AluBitKind::SetBit => "SET",
                };
                String::from_str(name).concat(" ").concat(decimal_string(i.bit as usize).as_str()).concat(", ")
                    .concat(operand_str(i.operand, hole).as_str())
            },
            DecodedInstruction::Jr(i) => branch_str("JR", i.cond, hole),
            DecodedInstruction::Jp(i) => branch_str("JP", i.cond, operand_str(i.target, hole).as_str()),
            DecodedInstruction::Call(i) => branch_str("CALL", i.cond, hole),
            DecodedInstruction::Ret(i) => {
                if i.cond == Cond::Always { String::from_str("RET") } else { String::from_str("RET ").concat(i.cond.str()) }
            },
            DecodedInstruction::Push(i) => String::from_str("PUSH ").concat(r16_str(i.register)),
            DecodedInstruction::Pop(i) => String::from_str("POP ").concat(r16_str(i.register)),
            DecodedInstruction::Rst(i) => String::from_str("RST $").concat(hex_byte(i.address).as_str()),
            DecodedInstruction::DI(_) => String::from_str("DI"),
            DecodedInstruction::EI(_) => String::from_str("EI"),
            DecodedInstruction::Halt(_) => String::from_str("HALT"),
            DecodedInstruction::Invalid(i) => if i.is_cb_prefixed {
                String::from_str("INVALID 0xCB 0x").concat(hex_byte_upper(i.opcode).as_str())
            } else {
                String::from_str("INVALID 0x").concat(hex_byte_upper(i.opcode).as_str())
            },
        }
    }

    /// The instruction in assembly, the value after the opcode named by its type (`u8`,
    /// `u16` or `i8`).
    pub fn raw_desc(&self) -> (r: String)
        ensures
            r@ == raw_text(*self),
    {
        let hole: &str = match self.immediate() {
            Immediate::Nothing => "",
            Immediate::U8 => "u8",
            Immediate::U16 => "u16",
            Immediate::I8 => "i8",
        };
        self.text(hole)
    }

    /// The instruction at `pc` in assembly, with the value that follows its opcode read
    /// through the memory map: a byte or a word in hexadecimal, or for a relative jump the
    /// offset and the address it leads to.
    pub fn desc(&self, pc: u16, mmu: &MMU, ctx: &MmuContext) -> (r: String)
        requires
            ctx.wf(),
        ensures
            ({
                let b = mmu.spec_boot_rom_enabled();
                let byte1 = spec_read(b, ctx.view(), next_address(pc));
                let byte2 = spec_read(b, ctx.view(), next_address(next_address(pc)));
                r@ == instruction_text(*self, value_text(spec_immediate(*self), pc, byte1, byte2))
            }),
    {
        let value = immediate_str(self.immediate(), pc, mmu, ctx);
        self.text(value.as_str())
    }
}

/// How the value after the opcode at `pc` is shown, read through the memory map.
#[verifier::rlimit(40)]
fn immediate_str(kind: Immediate, pc: u16, mmu: &MMU, ctx: &MmuContext) -> (r: String)
    requires
        ctx.wf(),
    ensures
        ({
            let b = mmu.spec_boot_rom_enabled();
            r@ == value_text(kind, pc, spec_read(b, ctx.view(), next_address(pc)),
                spec_read(b, ctx.view(), next_address(next_address(pc))))
        }),
{
    let next: u16 = pc.wrapping_add(1);
    match kind {
        Immediate::Nothing => String::from_str(""),
        Immediate::U8 => {
            let byte = mmu.read_byte(ctx, next);
            String::from_str("$").concat(hex_byte(byte).as_str())
        },
        Immediate::U16 => {
            let word: u16 = mmu.read_word(ctx, next);
            let high: u8 = (word / 256) as u8;
            let low: u8 = (word % 256) as u8;
            String::from_str("$").concat(hex_byte(high).as_str()).concat(hex_byte(low).as_str())
        },
        Immediate::I8 => {
            let offset: u8 = mmu.read_byte(ctx, next);
            let base: i32 = pc.wrapping_add(2) as i32;
            let delta: i32 = if offset < 128 { offset as i32 } else { offset as i32 - 256 };
            let target: i32 = base + delta;
            proof {
                assert(relative_target(pc, offset) == target as int);
            }
            String::from_str("$").concat(hex_byte(offset).as_str()).concat(" (=> $").concat(hex_i32(target).as_str()).concat(")")
        },
    }
}

fn one_str(k: AluOneKind) -> (s: &'static str)
    ensures
        s@ == one_text(k),
{
    match k {
        AluOneKind::Inc => "INC",
        AluOneKind::Dec => "DEC",
        AluOneKind::Rlc => "RLC",
        AluOneKind::Rrc => "RRC",
        AluOneKind::Rl => "RL",
        AluOneKind::Rr => "RR",
        AluOneKind::Sla => "SLA",
        AluOneKind::Sra => "SRA",
        AluOneKind::Swap => "SWAP",
        AluOneKind::Srl => "SRL",
        AluOneKind::RlcA => "RLCA",
        AluOneKind::RrcA => "RRCA",
        AluOneKind::RlA => "RLA",
        AluOneKind::RrA => "RRA",
        AluOneKind::Daa => "DAA",
        AluOneKind::Cpl => "CPL",
        AluOneKind::Scf => "SCF",
        AluOneKind::Ccf => "CCF",
    }
}

fn two_str(k: AluTwoKind) -> (s: &'static str)
    ensures
        s@ == two_text(k),
{
    match k {
        AluTwoKind::Add => "ADD",
        AluTwoKind::AdC => "ADC",
        AluTwoKind::Sub => "SUB",
        AluTwoKind::SbC => "SBC",
        AluTwoKind::And => "AND",
        AluTwoKind::Xor => "XOR",
        AluTwoKind::Or => "OR",
        AluTwoKind::Cp => "CP",
    }
}

} // verus!
