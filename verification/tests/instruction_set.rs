use seis::instruction_set::floating_point::{BinaryOp as FBinaryOp, CheckOp};
use seis::instruction_set::integer::{BinaryOp, CompOp, IntegerOp, SignExtendOp, TestOp, UnaryOp};
use seis::instruction_set::register::{ImmOp, ReadOp, RegOp, RegisterOp, WriteOp};
use seis::instruction_set::FloatingPointOp;
use seis::bytes::{short_from_be_bytes, short_to_be_bytes, word_from_be_bytes, word_to_be_bytes};
use seis::instruction_set::control::{ControlOp, Jump};
use seis::instruction_set::error::DecodeError;
use seis::instruction_set::{decode, encode, Instruction};
use seis::registers::{get_id, get_name, lookup_upper, RegisterFlags, LP, PC, SP, ZF};

#[test]
fn zero_decodes_to_nop() {
    assert_eq!(decode::<Instruction>(0), Ok(Instruction::Control(ControlOp::Nop)));
    assert_eq!(encode(Instruction::Control(ControlOp::Nop)), 0);
    assert_eq!(Instruction::default(), Instruction::Control(ControlOp::Nop));
}

#[test]
fn control_roundtrip() {
    for op in [
        ControlOp::Halt,
        ControlOp::Ret,
        ControlOp::Jmp(Jump::Register(3)),
        ControlOp::Jsr(Jump::Relative(-8)),
        ControlOp::Jeq(Jump::Relative(0x40)),
    ] {
        let i = Instruction::Control(op);
        assert_eq!(decode::<Instruction>(encode(i)), Ok(i));
    }
}

#[test]
fn invalid_op_type_is_an_error() {
    assert!(matches!(decode::<Instruction>(0xE000_0000), Err(DecodeError::InvalidOpType(_))));
}

#[test]
fn register_names() {
    assert_eq!(get_name(SP), Some("SP"));
    assert_eq!(get_name(PC), Some("PC"));
    assert_eq!(get_name(25), None);
    assert_eq!(get_id("sp"), Some(SP));
    assert_eq!(get_id("V3"), Some(3));
    assert_eq!(get_id("nope"), None);
}

#[test]
fn register_flags() {
    let flags = RegisterFlags::from_slice(&[PC, LP, ZF]);
    assert!(flags.has_register(PC));
    assert!(!flags.has_register(SP));
    assert_eq!(flags.count(), 3);
    assert_eq!(flags.to_vec(), vec![LP, PC, ZF]);
}

#[test]
fn every_kind_of_instruction_roundtrips() {
    let all = [
        Instruction::Integer(IntegerOp::Add(BinaryOp::Immediate(1, 0x7FFF, 2))),
        Instruction::Integer(IntegerOp::Ror(BinaryOp::Registers(3, 4, 5))),
        Instruction::Integer(IntegerOp::Not(UnaryOp(6, 7))),
        Instruction::Integer(IntegerOp::Sxt(SignExtendOp(2, 8))),
        Instruction::Integer(IntegerOp::Cmp(CompOp::Immediate(9, 100, true))),
        Instruction::Integer(IntegerOp::Tst(TestOp::Registers(10, 11))),
        Instruction::FloatingPoint(FloatingPointOp::Fdiv(FBinaryOp { left: 1, right: 2, destination: 3 })),
        Instruction::FloatingPoint(FloatingPointOp::Fchk(CheckOp(4))),
        Instruction::Register(RegisterOp::Lbr(ReadOp::ZeroPage { address: 0x1234, destination: 5 })),
        Instruction::Register(RegisterOp::Llr(ReadOp::IndexedIndirect {
            volatile: true,
            address: 1,
            index: 2,
            destination: 3,
        })),
        Instruction::Register(RegisterOp::Ssr(WriteOp::OffsetIndirect { volatile: false, address: 4, offset: 0x10, source: 5 })),
        Instruction::Register(RegisterOp::Tfr(RegOp { source: 0x10, destination: 3 })),
        Instruction::Register(RegisterOp::Push(7)),
        Instruction::Register(RegisterOp::Ldr(ImmOp::Immediate { zero: true, shift: 1, immediate: 0xBEEF, destination: 9 })),
    ];
    for i in all {
        assert_eq!(decode::<Instruction>(encode(i)), Ok(i), "{:?}", i);
    }
}

#[test]
fn bytes_roundtrip() {
    assert_eq!(word_to_be_bytes(0x1234_5678), [0x12, 0x34, 0x56, 0x78]);
    assert_eq!(word_from_be_bytes(0x12, 0x34, 0x56, 0x78), 0x1234_5678);
    assert_eq!(short_to_be_bytes(0xABCD), [0xAB, 0xCD]);
    assert_eq!(short_from_be_bytes(0xAB, 0xCD), 0xABCD);
}

#[test]
fn conversions_between_words_and_instructions() {
    let i = Instruction::Control(ControlOp::Jmp(Jump::Relative(16)));
    let w: u32 = u32::from(i);
    assert_eq!(w, encode(i));
    assert_eq!(Instruction::try_from(w), Ok(i));
    assert!(matches!(Instruction::try_from(0xE000_0000u32), Err(DecodeError::InvalidOpType(_))));
}

#[test]
fn lookup_takes_upper_case_names() {
    assert_eq!(lookup_upper("SP"), Some(SP));
    assert_eq!(lookup_upper("LP"), Some(LP));
    assert_eq!(lookup_upper("VF"), Some(15));
    assert_eq!(lookup_upper("sp"), None);
    assert_eq!(lookup_upper("V16"), None);
    assert_eq!(lookup_upper("vf"), None);
    assert_eq!(get_id("lp"), Some(LP));
}

#[test]
fn flag_count_is_low_bits_set() {
    assert_eq!(RegisterFlags(0xFFFF_FFFF).count(), 25);
    assert_eq!(RegisterFlags(0xFE00_0000).count(), 0);
    assert_eq!(RegisterFlags(0b1010).count(), 2);
    assert_eq!(RegisterFlags(0x0100_0001).count(), 2);
}
