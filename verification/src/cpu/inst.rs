//! The closed instruction set: every opcode family and its operand
//! addressing forms, as decoded from the two 256-entry opcode tables.

use vstd::prelude::*;

verus! {

/// One decoded instruction, carrying its operands inline.
#[derive(Clone, Copy, Debug, PartialEq, Eq, Structural)]
pub enum Inst {
    Ld8(Arg8, Arg8),
    Ld16(Arg16, Arg16),
    Push16(Reg16),
    Pop16(Reg16),
    // 8-bit arithmetic / logic instructions
    Add(Arg8, Arg8),
    Adc(Arg8, Arg8),
    Sub(Arg8, Arg8),
    Sbc(Arg8, Arg8),
    And(Arg8, Arg8),
    Xor(Arg8, Arg8),
    Or(Arg8, Arg8),
    Cp(Arg8, Arg8),
    Inc(Arg8),
    Dec(Arg8),
    Daa,
    Cpl,
    // 16-bit arithmetic / logic instructions
    Add16(Arg16, Arg16),
    Inc16(Arg16),
    Dec16(Arg16),
    Add16SP(i8),
    Ld16HLSP(i8),
    // Rotate and shift instructions
    Rlca,
    Rla,
    Rrca,
    Rra,
    Rlc(Arg8),
    Rl(Arg8),
    Rrc(Arg8),
    Rr(Arg8),
    Sla(Arg8),
    Swap(Arg8),
    Sra(Arg8),
    Srl(Arg8),
    // Single-bit operation instructions
    Bit(u8, Arg8),
    SetBit(u8, Arg8),
    Res(u8, Arg8),
    // CPU control instructions
    Ccf,
    Scf,
    Nop,
    Halt,
    Stop,
    Di,
    Ei,
    // Jump instructions
    Jp(u16),
    JpHL,
    Jpf(JpFlag, u16),
    Jr(i8),
    Jrf(JpFlag, i8),
    Call(u16),
    Callf(JpFlag, u16),
    Ret,
    Retf(JpFlag),
    Reti,
    Rst(u8),
}

/// An 8-bit operand: register, immediate, or one of the indirect forms.
#[derive(Clone, Copy, Debug, PartialEq, Eq, Structural)]
pub enum Arg8 {
    Reg(Reg8),
    Immed(u8),
    Ind(u16),
    IndReg(Reg16),
    IndIncHL,
    IndDecHL,
    /// Indirect through 0xff00 + n.
    IndIo(u8),
    /// Indirect through 0xff00 + C.
    IndIoC,
}

/// One of the seven addressable 8-bit registers.
#[derive(Clone, Copy, Debug, PartialEq, Eq, Structural)]
pub enum Reg8 {
    A,
    B,
    C,
    D,
    E,
    H,
    L,
}

/// A 16-bit operand: register pair, immediate, or absolute indirect.
#[derive(Clone, Copy, Debug, PartialEq, Eq, Structural)]
pub enum Arg16 {
    Reg(Reg16),
    Immed(u16),
    Ind(u16),
}

/// One of the paired 16-bit register views, or PC / SP.
#[derive(Clone, Copy, Debug, PartialEq, Eq, Structural)]
pub enum Reg16 {
    AF,
    BC,
    DE,
    HL,
    SP,
    PC,
}

/// The predicate of a conditional jump, call or return.
#[derive(Clone, Copy, Debug, PartialEq, Eq, Structural)]
pub enum JpFlag {
    Nz,
    Z,
    Nc,
    C,
}

/// One of the four flag bits packed in F.
#[derive(Clone, Copy, Debug, PartialEq, Eq, Structural)]
pub enum FlagReg {
    /// Zero.
    Z,
    /// Subtraction.
    N,
    /// Half carry.
    H,
    /// Carry.
    C,
}

} // verus!
