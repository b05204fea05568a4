//! The operand forms of assembly lines, as the assembler reads them before
//! constants are resolved.
use crate::types::{Register, Word};
use vstd::prelude::*;

verus! {

/// The operands of a binary integer operation.
#[derive(Debug)]
pub enum IntBinaryOp {
    /// Two source registers.
    RegReg { source: Register, opt: Register, destination: Register },
    /// A register and an immediate value.
    RegImm { source: Register, opt: Word, destination: Register },
    /// A register and a named constant.
    RegConst { source: Register, opt: String, destination: Register },
}

/// The operands of a unary integer operation.
#[derive(Debug)]
pub struct IntUnaryOp {
    /// The source register.
    pub source: Register,
    /// The destination register.
    pub destination: Register,
}

/// The operands of an integer comparison.
#[derive(Debug)]
pub enum IntCompOp {
    /// Two registers.
    RegReg { left: Register, right: Register, signed: bool },
    /// A register and an immediate value.
    RegImm { left: Register, right: Word, signed: bool },
    /// A register and a named constant.
    RegConst { left: Register, right: String, signed: bool },
}

/// The operands of an integer test.
#[derive(Debug)]
pub enum IntTestOp {
    /// Two registers.
    RegReg { left: Register, right: Register },
    /// A register and an immediate value.
    RegImm { left: Register, right: Word },
    /// A register and a named constant.
    RegConst { left: Register, right: String },
}

/// The operands of a sign extension.
#[derive(Debug)]
pub struct IntSignExtendOp {
    /// The register to extend.
    pub register: Register,
    /// The width code of the value in it.
    pub width: Word,
}

/// The operands of a binary floating-point operation.
#[derive(Debug)]
pub struct FloatBinaryOp {
    /// The left register.
    pub source: Register,
    /// The right register.
    pub opt: Register,
    /// The destination register.
    pub destination: Register,
}

/// The operands of a unary floating-point operation.
#[derive(Debug)]
pub struct FloatUnaryOp {
    /// The source register.
    pub source: Register,
    /// The destination register.
    pub destination: Register,
}

/// The operands of a floating-point comparison.
#[derive(Debug)]
pub struct FloatCompOp {
    /// The left register.
    pub left: Register,
    /// The right register.
    pub right: Register,
}

} // verus!
