use ugbe::gameboy::cpu::alu::{In16, In8, Operation16, Operation8};
use ugbe::gameboy::cpu::instructions::alu::{
    ALUOneOp, ALUOpResult, ALUTwoOp, AdC, Add, And, Cp, Dec, Inc, Or, SbC, Sub, Swap, Xor, CCF, CPL, DAA, RL, RLC, RR,
    RRC, SCF, SLA, SRA, SRL,
};
use ugbe::gameboy::cpu::instructions::decode::{decode, decode_cb_prefixed};
use ugbe::gameboy::cpu::instructions::DecodedInstruction;
use ugbe::gameboy::cpu::instructions::operands::{Operand, R8};
use ugbe::gameboy::cpu::registers::Registers;

fn flags(value: Option<u8>, zf: bool, nf: bool, hf: bool, cf: bool) -> ALUOpResult<u8> {
    ALUOpResult { value, zf: Some(zf), nf: Some(nf), hf: Some(hf), cf: Some(cf) }
}

#[test]
fn add_sets_half_carry_and_carry() {
    assert_eq!(<Add as ALUTwoOp<u8, u8>>::execute(0x0F, 0x01, false), flags(Some(0x10), false, false, true, false));
    assert_eq!(<Add as ALUTwoOp<u8, u8>>::execute(0xFF, 0x01, false), flags(Some(0x00), true, false, true, true));
    assert_eq!(<AdC as ALUTwoOp<u8, u8>>::execute(0x0E, 0x01, true), flags(Some(0x10), false, false, true, false));
}

#[test]
fn sub_and_compare() {
    assert_eq!(<Sub as ALUTwoOp<u8, u8>>::execute(0x10, 0x01, false), flags(Some(0x0F), false, true, true, false));
    assert_eq!(<Sub as ALUTwoOp<u8, u8>>::execute(0x01, 0x02, false), flags(Some(0xFF), false, true, true, true));
    assert_eq!(<SbC as ALUTwoOp<u8, u8>>::execute(0x10, 0x0F, true), flags(Some(0x00), true, true, true, false));
    assert_eq!(<Cp as ALUTwoOp<u8, u8>>::execute(0x42, 0x42, false), flags(None, true, true, false, false));
}

#[test]
fn logic_operations() {
    assert_eq!(<And as ALUTwoOp<u8, u8>>::execute(0xF0, 0x0F, true), flags(Some(0x00), true, false, true, false));
    assert_eq!(<Xor as ALUTwoOp<u8, u8>>::execute(0xFF, 0x0F, true), flags(Some(0xF0), false, false, false, false));
    assert_eq!(<Or as ALUTwoOp<u8, u8>>::execute(0x00, 0x00, true), flags(Some(0x00), true, false, false, false));
}

#[test]
fn sixteen_bit_additions() {
    let r = <Add as ALUTwoOp<u16, u16>>::execute(0x0FFF, 0x0001, false);
    assert_eq!(r, ALUOpResult { value: Some(0x1000), zf: None, nf: Some(false), hf: Some(true), cf: Some(false) });
    let r = <Add as ALUTwoOp<u16, u16>>::execute(0xFFFF, 0x0001, false);
    assert_eq!(r, ALUOpResult { value: Some(0x0000), zf: None, nf: Some(false), hf: Some(true), cf: Some(true) });
    let r = <Add as ALUTwoOp<u16, i8>>::execute(0x00FF, 1, false);
    assert_eq!(r, ALUOpResult { value: Some(0x0100), zf: Some(false), nf: Some(false), hf: Some(true), cf: Some(true) });
    let r = <Add as ALUTwoOp<u16, i8>>::execute(0x1000, -1, false);
    assert_eq!(r.value, Some(0x0FFF));
}

#[test]
fn increments_and_decrements() {
    let r = <Inc as ALUOneOp<u8>>::execute(0xFF, false, false, true);
    assert_eq!(r, ALUOpResult { value: Some(0x00), zf: Some(true), nf: Some(false), hf: Some(true), cf: None });
    let r = <Dec as ALUOneOp<u8>>::execute(0x10, false, false, true);
    assert_eq!(r, ALUOpResult { value: Some(0x0F), zf: Some(false), nf: Some(true), hf: Some(true), cf: None });
    let r = <Dec as ALUOneOp<u8>>::execute(0x01, false, false, false);
    assert_eq!(r.zf, Some(true));
    assert_eq!(<Inc as ALUOneOp<u16>>::execute(0xFFFF, false, false, false).value, Some(0));
    assert_eq!(<Dec as ALUOneOp<u16>>::execute(0x0000, false, false, false).value, Some(0xFFFF));
}

#[test]
fn rotations_and_shifts() {
    assert_eq!(<RLC as ALUOneOp<u8>>::execute(0x80, false, false, false), flags(Some(0x01), false, false, false, true));
    assert_eq!(<RRC as ALUOneOp<u8>>::execute(0x01, false, false, false), flags(Some(0x80), false, false, false, true));
    assert_eq!(<RL as ALUOneOp<u8>>::execute(0x80, false, false, false), flags(Some(0x00), true, false, false, true));
    assert_eq!(<RR as ALUOneOp<u8>>::execute(0x02, false, false, true), flags(Some(0x81), false, false, false, false));
    assert_eq!(<SLA as ALUOneOp<u8>>::execute(0xC1, false, false, false), flags(Some(0x82), false, false, false, true));
    assert_eq!(<SRA as ALUOneOp<u8>>::execute(0x81, false, false, false), flags(Some(0xC0), false, false, false, true));
    assert_eq!(<SRL as ALUOneOp<u8>>::execute(0x81, false, false, false), flags(Some(0x40), false, false, false, true));
    assert_eq!(<Swap as ALUOneOp<u8>>::execute(0xAB, false, false, true), flags(Some(0xBA), false, false, false, false));
}

#[test]
fn decimal_adjust_and_flag_operations() {
    let r = <DAA as ALUOneOp<u8>>::execute(0x0F, false, false, false);
    assert_eq!(r, ALUOpResult { value: Some(0x15), zf: Some(false), nf: None, hf: Some(false), cf: Some(false) });
    let r = <DAA as ALUOneOp<u8>>::execute(0x9A, false, false, false);
    assert_eq!(r, ALUOpResult { value: Some(0x00), zf: Some(true), nf: None, hf: Some(false), cf: Some(true) });
    let r = <CPL as ALUOneOp<u8>>::execute(0x35, false, false, false);
    assert_eq!(r, ALUOpResult { value: Some(0xCA), zf: None, nf: Some(true), hf: Some(true), cf: None });
    assert_eq!(<SCF as ALUOneOp<u8>>::execute(0, true, true, false).cf, Some(true));
    assert_eq!(<CCF as ALUOneOp<u8>>::execute(0, true, true, true).cf, Some(false));
}

#[test]
fn swapping_twice_and_add_then_sub_give_back_the_value() {
    for v in 0..=255u8 {
        let once = <Swap as ALUOneOp<u8>>::execute(v, false, false, false).value.unwrap();
        assert_eq!(<Swap as ALUOneOp<u8>>::execute(once, false, false, false).value, Some(v));
        let sum = <Add as ALUTwoOp<u8, u8>>::execute(v, 0x37, false).value.unwrap();
        assert_eq!(<Sub as ALUTwoOp<u8, u8>>::execute(sum, 0x37, false).value, Some(v));
        let left = <RLC as ALUOneOp<u8>>::execute(v, false, false, false).value.unwrap();
        assert_eq!(<RRC as ALUOneOp<u8>>::execute(left, false, false, false).value, Some(v));
    }
}

#[test]
fn registers_pairs_and_flags() {
    let mut r = Registers::new();
    r.set_bc(0x1234);
    assert_eq!((r.b(), r.c(), r.bc()), (0x12, 0x34, 0x1234));
    r.set_af(0x12FF);
    assert_eq!(r.af(), 0x12F0);
    assert!(r.zf() && r.nf() && r.hf() && r.cf());
    r.set_nf(false);
    assert_eq!(r.f(), 0xB0);
    r.set_hl(0xBEEF);
    assert_eq!(r.hl(), 0xBEEF);
    r.set_sp(0xFFFE);
    r.set_pc(0x0100);
    assert_eq!((r.sp(), r.pc()), (0xFFFE, 0x0100));
}

#[test]
fn eight_bit_operations_on_registers() {
    let mut r = Registers::new();
    r.set_a(0x3C);
    r.set_b(0x3C);
    assert_eq!(Operation8::Cp(In8::R8(R8::A), In8::R8(R8::B)).execute(&mut r), 0);
    assert!(r.zf() && r.nf());
    assert_eq!(Operation8::Inc(In8::Imm(0x0F)).execute(&mut r), 0x10);
    assert!(r.hf() && !r.zf());
    assert_eq!(Operation8::Bit(7, In8::Imm(0x80)).execute(&mut r), 0);
    assert!(!r.zf());
    assert_eq!(Operation8::Xor(In8::R8(R8::A), In8::R8(R8::A)).execute(&mut r), 0);
    assert!(r.zf());
    r.set_h(0x00);
    r.set_l(0x10);
    assert_eq!(Operation16::AddWithI8(In16::Imm(0x0010), In8::Imm(0xF0)).execute(&r), 0x0000);
}

#[test]
fn decoding() {
    assert!(matches!(decode(0x76), DecodedInstruction::Halt(_)));
    assert!(matches!(decode(0x00), DecodedInstruction::Nop(_)));
    for opcode in [0xD3u8, 0xDB, 0xDD, 0xE3, 0xE4, 0xEB, 0xEC, 0xED, 0xF4, 0xFC, 0xFD] {
        match decode(opcode) {
            DecodedInstruction::Invalid(i) => assert_eq!((i.opcode, i.is_cb_prefixed), (opcode, false)),
            other => panic!("0x{:02X} decoded as {:?}", opcode, other),
        }
    }
    match decode(0x80) {
        DecodedInstruction::ALUTwo(i) => assert_eq!((i.dst, i.src), (Operand::R8(R8::A), Operand::R8(R8::B))),
        other => panic!("{:?}", other),
    }
    match decode_cb_prefixed(0x7C) {
        DecodedInstruction::ALUBit(i) => assert_eq!((i.bit, i.operand), (7, Operand::R8(R8::H))),
        other => panic!("{:?}", other),
    }
    for opcode in 0..=255u8 {
        assert!(!matches!(decode_cb_prefixed(opcode), DecodedInstruction::Invalid(_)));
    }
}
