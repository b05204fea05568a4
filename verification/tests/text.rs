use seis::instruction_set::control::{ControlOp, Jump};
use seis::instruction_set::error::DecodeError;
use seis::instruction_set::floating_point::{BinaryOp as FBinaryOp, CheckOp};
use seis::instruction_set::integer::{BinaryOp, CompOp, IntegerOp, SignExtendOp};
use seis::instruction_set::register::{ImmOp, ReadOp, RegOp, RegisterOp, WriteOp};
use seis::instruction_set::{FloatingPointOp, Instruction};
use seis::registers::RegisterFlags;

fn text(i: Instruction) -> String {
    i.to_text()
}

#[test]
fn integer_ops_as_text() {
    assert_eq!(text(Instruction::Integer(IntegerOp::Add(BinaryOp::Immediate(1, 42, 0xA)))), "ADD V1, 42 => VA");
    assert_eq!(text(Instruction::Integer(IntegerOp::Bsl(BinaryOp::Registers(0xF, 2, 3)))), "LSL VF, V2 => V3");
    assert_eq!(text(Instruction::Integer(IntegerOp::Sxt(SignExtendOp(1, 2)))), "SXT short V2");
    assert_eq!(text(Instruction::Integer(IntegerOp::Sxt(SignExtendOp(7, 2)))), "SXT <INVALID> V2");
    assert_eq!(text(Instruction::Integer(IntegerOp::Cmp(CompOp::Registers(1, 2, true)))), "CMP s V1, V2");
    assert_eq!(text(Instruction::Integer(IntegerOp::Cmp(CompOp::Immediate(1, 0, false)))), "CMP V1, 0");
}

#[test]
fn control_ops_as_text() {
    assert_eq!(text(Instruction::Control(ControlOp::Halt)), "HALT");
    assert_eq!(text(Instruction::Control(ControlOp::Jmp(Jump::Relative(-8)))), "JMP -8");
    assert_eq!(text(Instruction::Control(ControlOp::Jeq(Jump::Relative(8)))), "JEQ +8");
    assert_eq!(text(Instruction::Control(ControlOp::Jsr(Jump::Register(0xC)))), "JSR VC");
}

#[test]
fn register_ops_as_text() {
    let read = ReadOp::ZeroPage { address: 0x1F, destination: 2 };
    assert_eq!(text(Instruction::Register(RegisterOp::Lbr(read))), "LBR @0x1f => V2");
    let read = ReadOp::OffsetIndirect { volatile: true, address: 1, offset: 12, destination: 3 };
    assert_eq!(text(Instruction::Register(RegisterOp::Llr(read))), "LLR V1 + 12 =>> V3");
    let write = WriteOp::IndexedIndirect { volatile: false, address: 1, index: 2, source: 3 };
    assert_eq!(text(Instruction::Register(RegisterOp::Sbr(write))), "SBR V3 => V1[V2]");
    let write = WriteOp::StackOffset { offset: 8, source: 4 };
    assert_eq!(text(Instruction::Register(RegisterOp::Slr(write))), "SLR V4 => %8");
    let imm = ImmOp::Immediate { zero: false, shift: 0, immediate: 300, destination: 4 };
    assert_eq!(text(Instruction::Register(RegisterOp::Ldr(imm))), "LDR 300 => V4.0");
    let imm = ImmOp::Immediate { zero: true, shift: 0, immediate: 300, destination: 4 };
    assert_eq!(text(Instruction::Register(RegisterOp::Ldr(imm))), "LDR 300 => V4");
    let imm = ImmOp::Immediate { zero: false, shift: 1, immediate: 7, destination: 4 };
    assert_eq!(text(Instruction::Register(RegisterOp::Ldr(imm))), "LDR 7 => V4.1");
    let tfr = RegOp { source: 0x10, destination: 0x13 };
    assert_eq!(text(Instruction::Register(RegisterOp::Tfr(tfr))), "TFR SP => PC");
    assert_eq!(text(Instruction::Register(RegisterOp::Push(0x10))), "PUSH {SP}");
    assert_eq!(text(Instruction::Register(RegisterOp::Pop(30))), "POP {unknown}");
}

#[test]
fn floating_point_ops_as_text() {
    assert_eq!(text(Instruction::FloatingPoint(FloatingPointOp::Fchk(CheckOp(0xB)))), "FCHK Vb");
    let b = FBinaryOp { left: 1, right: 2, destination: 0xE };
    assert_eq!(text(Instruction::FloatingPoint(FloatingPointOp::Fmul(b))), "FMUL V1, V2 => VE");
}

#[test]
fn decode_errors_as_text() {
    let show = |e: DecodeError| {
        let mut s = String::new();
        e.fmt(&mut s);
        s
    };
    assert_eq!(show(DecodeError::InvalidOpType(0xE000_0000)), "Could not decode optype 0xe0000000");
    assert_eq!(show(DecodeError::InvalidPopOp(0)), "Could not decode pop op type 0x0");
    assert_eq!(show(DecodeError::InvalidRegister(30, 2)), "Invalid register: src=30");
    assert_eq!(show(DecodeError::InvalidRegister(2, 30)), "Invalid register: dst=30");
    assert_eq!(show(DecodeError::InvalidRegister(30, 31)), "Invalid registers: src=30, dst=31");
}

#[test]
fn register_flags_as_text() {
    let show = |r: RegisterFlags| {
        let mut s = String::new();
        r.fmt(&mut s);
        s
    };
    // V0, VA, SP and PC are set; the program counter is not listed.
    assert_eq!(show(RegisterFlags((1 << 0) | (1 << 10) | (1 << 16) | (1 << 19))), "{V0, VA, SP}");
    assert_eq!(show(RegisterFlags(0)), "{}");
    assert_eq!(show(RegisterFlags(1 << 18)), "{LP}");
}
