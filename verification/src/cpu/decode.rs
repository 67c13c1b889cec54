//! The primary decoder: it maps the byte at the program counter, together
//! with up to two following immediate bytes, to one instruction and its
//! byte length.

use vstd::prelude::*;

use super::decode_prefix_cb::decode_prefix_cb;
use super::decode_prefix_cb::spec_decode_prefix_cb;
use super::inst::Arg16;
use super::inst::Arg8;
use super::inst::Inst;
use super::inst::JpFlag;
use super::inst::Reg16;
use super::inst::Reg8;
use super::GbError;
use crate::memory::word_of;
use crate::memory::MemoryIF;

verus! {

/// A byte reinterpreted as a signed two's-complement displacement.
pub open spec fn as_i8(v: u8) -> i8 {
    if v < 128 {
        v as i8
    } else {
        (v - 256) as i8
    }
}

/// The byte length of the instruction that starts with opcode `op`; the
/// eleven undefined bytes occupy a single byte.
pub open spec fn spec_inst_len(op: u8) -> int {
    if op == 0x1 || op == 0x8 || op == 0x11 || op == 0x21 || op == 0x31 || op == 0xc2 || op == 0xc3 || op == 0xc4 || op == 0xca || op == 0xcc || op == 0xcd || op == 0xd2 || op == 0xd4 || op == 0xda || op == 0xdc || op == 0xea || op == 0xfa {
        3
    } else if op == 0x6 || op == 0xe || op == 0x16 || op == 0x18 || op == 0x1e || op == 0x20 || op == 0x26 || op == 0x28 || op == 0x2e || op == 0x30 || op == 0x36 || op == 0x38 || op == 0x3e || op == 0xc6 || op == 0xcb || op == 0xce || op == 0xd6 || op == 0xde || op == 0xe0 || op == 0xe6 || op == 0xe8 || op == 0xee || op == 0xf0 || op == 0xf6 || op == 0xf8 || op == 0xfe {
        2
    } else {
        1
    }
}

/// The reads that `decode` makes at `pc` are defined and stay inside the
/// address space.
pub open spec fn decode_pre<M: MemoryIF>(memory: &M, pc: u16) -> bool {
    &&& memory.readable(pc)
    &&& (spec_inst_len(memory.mem()[pc as int]) >= 2 ==> pc < 0xffff && memory.readable(
        (pc + 1) as u16,
    ))
    &&& (spec_inst_len(memory.mem()[pc as int]) == 3 ==> pc < 0xfffe && memory.readable(
        (pc + 2) as u16,
    ))
}

/// The instruction and length decoded from the bytes at `pc`, or the
/// offending byte for the eleven undefined opcodes.
pub open spec fn decode_spec(mem: Seq<u8>, pc: u16) -> Result<(Inst, u16), u8> {
    let op = mem[pc as int];
    let n = mem[pc as int + 1];
    let nn = word_of(mem, (pc + 1) as u16);
    let d = as_i8(n);
    match op {
        0x0 => Ok((Inst::Nop, 1)),
        0x1 => Ok((Inst::Ld16(Arg16::Reg(Reg16::BC), Arg16::Immed(nn)), 3)),
        0x2 => Ok((Inst::Ld8(Arg8::IndReg(Reg16::BC), Arg8::Reg(Reg8::A)), 1)),
        0x3 => Ok((Inst::Inc16(Arg16::Reg(Reg16::BC)), 1)),
        0x4 => Ok((Inst::Inc(Arg8::Reg(Reg8::B)), 1)),
        0x5 => Ok((Inst::Dec(Arg8::Reg(Reg8::B)), 1)),
        0x6 => Ok((Inst::Ld8(Arg8::Reg(Reg8::B), Arg8::Immed(n)), 2)),
        0x7 => Ok((Inst::Rlca, 1)),
        0x8 => Ok((Inst::Ld16(Arg16::Ind(nn), Arg16::Reg(Reg16::SP)), 3)),
        0x9 => Ok((Inst::Add16(Arg16::Reg(Reg16::HL), Arg16::Reg(Reg16::BC)), 1)),
        0xa => Ok((Inst::Ld8(Arg8::Reg(Reg8::A), Arg8::IndReg(Reg16::BC)), 1)),
        0xb => Ok((Inst::Dec16(Arg16::Reg(Reg16::BC)), 1)),
        0xc => Ok((Inst::Inc(Arg8::Reg(Reg8::C)), 1)),
        0xd => Ok((Inst::Dec(Arg8::Reg(Reg8::C)), 1)),
        0xe => Ok((Inst::Ld8(Arg8::Reg(Reg8::C), Arg8::Immed(n)), 2)),
        0xf => Ok((Inst::Rrca, 1)),
        0x10 => Ok((Inst::Stop, 1)),
        0x11 => Ok((Inst::Ld16(Arg16::Reg(Reg16::DE), Arg16::Immed(nn)), 3)),
        0x12 => Ok((Inst::Ld8(Arg8::IndReg(Reg16::DE), Arg8::Reg(Reg8::A)), 1)),
        0x13 => Ok((Inst::Inc16(Arg16::Reg(Reg16::DE)), 1)),
        0x14 => Ok((Inst::Inc(Arg8::Reg(Reg8::D)), 1)),
        0x15 => Ok((Inst::Dec(Arg8::Reg(Reg8::D)), 1)),
        0x16 => Ok((Inst::Ld8(Arg8::Reg(Reg8::D), Arg8::Immed(n)), 2)),
        0x17 => Ok((Inst::Rla, 1)),
        0x18 => Ok((Inst::Jr(d), 2)),
        0x19 => Ok((Inst::Add16(Arg16::Reg(Reg16::HL), Arg16::Reg(Reg16::DE)), 1)),
        0x1a => Ok((Inst::Ld8(Arg8::Reg(Reg8::A), Arg8::IndReg(Reg16::DE)), 1)),
        0x1b => Ok((Inst::Dec16(Arg16::Reg(Reg16::DE)), 1)),
        0x1c => Ok((Inst::Inc(Arg8::Reg(Reg8::E)), 1)),
        0x1d => Ok((Inst::Dec(Arg8::Reg(Reg8::E)), 1)),
        0x1e => Ok((Inst::Ld8(Arg8::Reg(Reg8::E), Arg8::Immed(n)), 2)),
        0x1f => Ok((Inst::Rra, 1)),
        0x20 => Ok((Inst::Jrf(JpFlag::Nz, d), 2)),
        0x21 => Ok((Inst::Ld16(Arg16::Reg(Reg16::HL), Arg16::Immed(nn)), 3)),
        0x22 => Ok((Inst::Ld8(Arg8::IndIncHL, Arg8::Reg(Reg8::A)), 1)),
        0x23 => Ok((Inst::Inc16(Arg16::Reg(Reg16::HL)), 1)),
        0x24 => Ok((Inst::Inc(Arg8::Reg(Reg8::H)), 1)),
        0x25 => Ok((Inst::Dec(Arg8::Reg(Reg8::H)), 1)),
        0x26 => Ok((Inst::Ld8(Arg8::Reg(Reg8::H), Arg8::Immed(n)), 2)),
        0x27 => Ok((Inst::Daa, 1)),
        0x28 => Ok((Inst::Jrf(JpFlag::Z, d), 2)),
        0x29 => Ok((Inst::Add16(Arg16::Reg(Reg16::HL), Arg16::Reg(Reg16::HL)), 1)),
        0x2a => Ok((Inst::Ld8(Arg8::Reg(Reg8::A), Arg8::IndIncHL), 1)),
        0x2b => Ok((Inst::Dec16(Arg16::Reg(Reg16::HL)), 1)),
        0x2c => Ok((Inst::Inc(Arg8::Reg(Reg8::L)), 1)),
        0x2d => Ok((Inst::Dec(Arg8::Reg(Reg8::L)), 1)),
        0x2e => Ok((Inst::Ld8(Arg8::Reg(Reg8::L), Arg8::Immed(n)), 2)),
        0x2f => Ok((Inst::Cpl, 1)),
        0x30 => Ok((Inst::Jrf(JpFlag::Nc, d), 2)),
        0x31 => Ok((Inst::Ld16(Arg16::Reg(Reg16::SP), Arg16::Immed(nn)), 3)),
        0x32 => Ok((Inst::Ld8(Arg8::IndDecHL, Arg8::Reg(Reg8::A)), 1)),
        0x33 => Ok((Inst::Inc16(Arg16::Reg(Reg16::SP)), 1)),
        0x34 => Ok((Inst::Inc(Arg8::IndReg(Reg16::HL)), 1)),
        0x35 => Ok((Inst::Dec(Arg8::IndReg(Reg16::HL)), 1)),
        0x36 => Ok((Inst::Ld8(Arg8::IndReg(Reg16::HL), Arg8::Immed(n)), 2)),
        0x37 => Ok((Inst::Scf, 1)),
        0x38 => Ok((Inst::Jrf(JpFlag::C, d), 2)),
        0x39 => Ok((Inst::Add16(Arg16::Reg(Reg16::HL), Arg16::Reg(Reg16::SP)), 1)),
        0x3a => Ok((Inst::Ld8(Arg8::Reg(Reg8::A), Arg8::IndDecHL), 1)),
        0x3b => Ok((Inst::Dec16(Arg16::Reg(Reg16::SP)), 1)),
        0x3c => Ok((Inst::Inc(Arg8::Reg(Reg8::A)), 1)),
        0x3d => Ok((Inst::Dec(Arg8::Reg(Reg8::A)), 1)),
        0x3e => Ok((Inst::Ld8(Arg8::Reg(Reg8::A), Arg8::Immed(n)), 2)),
        0x3f => Ok((Inst::Ccf, 1)),
        0x40 => Ok((Inst::Ld8(Arg8::Reg(Reg8::B), Arg8::Reg(Reg8::B)), 1)),
        0x41 => Ok((Inst::Ld8(Arg8::Reg(Reg8::B), Arg8::Reg(Reg8::C)), 1)),
        0x42 => Ok((Inst::Ld8(Arg8::Reg(Reg8::B), Arg8::Reg(Reg8::D)), 1)),
        0x43 => Ok((Inst::Ld8(Arg8::Reg(Reg8::B), Arg8::Reg(Reg8::E)), 1)),
        0x44 => Ok((Inst::Ld8(Arg8::Reg(Reg8::B), Arg8::Reg(Reg8::H)), 1)),
        0x45 => Ok((Inst::Ld8(Arg8::Reg(Reg8::B), Arg8::Reg(Reg8::L)), 1)),
        0x46 => Ok((Inst::Ld8(Arg8::Reg(Reg8::B), Arg8::IndReg(Reg16::HL)), 1)),
        0x47 => Ok((Inst::Ld8(Arg8::Reg(Reg8::B), Arg8::Reg(Reg8::A)), 1)),
        0x48 => Ok((Inst::Ld8(Arg8::Reg(Reg8::C), Arg8::Reg(Reg8::B)), 1)),
        0x49 => Ok((Inst::Ld8(Arg8::Reg(Reg8::C), Arg8::Reg(Reg8::C)), 1)),
        0x4a => Ok((Inst::Ld8(Arg8::Reg(Reg8::C), Arg8::Reg(Reg8::D)), 1)),
        0x4b => Ok((Inst::Ld8(Arg8::Reg(Reg8::C), Arg8::Reg(Reg8::E)), 1)),
        0x4c => Ok((Inst::Ld8(Arg8::Reg(Reg8::C), Arg8::Reg(Reg8::H)), 1)),
        0x4d => Ok((Inst::Ld8(Arg8::Reg(Reg8::C), Arg8::Reg(Reg8::L)), 1)),
        0x4e => Ok((Inst::Ld8(Arg8::Reg(Reg8::C), Arg8::IndReg(Reg16::HL)), 1)),
        0x4f => Ok((Inst::Ld8(Arg8::Reg(Reg8::C), Arg8::Reg(Reg8::A)), 1)),
        0x50 => Ok((Inst::Ld8(Arg8::Reg(Reg8::D), Arg8::Reg(Reg8::B)), 1)),
        0x51 => Ok((Inst::Ld8(Arg8::Reg(Reg8::D), Arg8::Reg(Reg8::C)), 1)),
        0x52 => Ok((Inst::Ld8(Arg8::Reg(Reg8::D), Arg8::Reg(Reg8::D)), 1)),
        0x53 => Ok((Inst::Ld8(Arg8::Reg(Reg8::D), Arg8::Reg(Reg8::E)), 1)),
        0x54 => Ok((Inst::Ld8(Arg8::Reg(Reg8::D), Arg8::Reg(Reg8::H)), 1)),
        0x55 => Ok((Inst::Ld8(Arg8::Reg(Reg8::D), Arg8::Reg(Reg8::L)), 1)),
        0x56 => Ok((Inst::Ld8(Arg8::Reg(Reg8::D), Arg8::IndReg(Reg16::HL)), 1)),
        0x57 => Ok((Inst::Ld8(Arg8::Reg(Reg8::D), Arg8::Reg(Reg8::A)), 1)),
        0x58 => Ok((Inst::Ld8(Arg8::Reg(Reg8::E), Arg8::Reg(Reg8::B)), 1)),
        0x59 => Ok((Inst::Ld8(Arg8::Reg(Reg8::E), Arg8::Reg(Reg8::C)), 1)),
        0x5a => Ok((Inst::Ld8(Arg8::Reg(Reg8::E), Arg8::Reg(Reg8::D)), 1)),
        0x5b => Ok((Inst::Ld8(Arg8::Reg(Reg8::E), Arg8::Reg(Reg8::E)), 1)),
        0x5c => Ok((Inst::Ld8(Arg8::Reg(Reg8::E), Arg8::Reg(Reg8::H)), 1)),
        0x5d => Ok((Inst::Ld8(Arg8::Reg(Reg8::E), Arg8::Reg(Reg8::L)), 1)),
        0x5e => Ok((Inst::Ld8(Arg8::Reg(Reg8::E), Arg8::IndReg(Reg16::HL)), 1)),
        0x5f => Ok((Inst::Ld8(Arg8::Reg(Reg8::E), Arg8::Reg(Reg8::A)), 1)),
        0x60 => Ok((Inst::Ld8(Arg8::Reg(Reg8::H), Arg8::Reg(Reg8::B)), 1)),
        0x61 => Ok((Inst::Ld8(Arg8::Reg(Reg8::H), Arg8::Reg(Reg8::C)), 1)),
        0x62 => Ok((Inst::Ld8(Arg8::Reg(Reg8::H), Arg8::Reg(Reg8::D)), 1)),
        0x63 => Ok((Inst::Ld8(Arg8::Reg(Reg8::H), Arg8::Reg(Reg8::E)), 1)),
        0x64 => Ok((Inst::Ld8(Arg8::Reg(Reg8::H), Arg8::Reg(Reg8::H)), 1)),
        0x65 => Ok((Inst::Ld8(Arg8::Reg(Reg8::H), Arg8::Reg(Reg8::L)), 1)),
        0x66 => Ok((Inst::Ld8(Arg8::Reg(Reg8::H), Arg8::IndReg(Reg16::HL)), 1)),
        0x67 => Ok((Inst::Ld8(Arg8::Reg(Reg8::H), Arg8::Reg(Reg8::A)), 1)),
        0x68 => Ok((Inst::Ld8(Arg8::Reg(Reg8::L), Arg8::Reg(Reg8::B)), 1)),
        0x69 => Ok((Inst::Ld8(Arg8::Reg(Reg8::L), Arg8::Reg(Reg8::C)), 1)),
        0x6a => Ok((Inst::Ld8(Arg8::Reg(Reg8::L), Arg8::Reg(Reg8::D)), 1)),
        0x6b => Ok((Inst::Ld8(Arg8::Reg(Reg8::L), Arg8::Reg(Reg8::E)), 1)),
        0x6c => Ok((Inst::Ld8(Arg8::Reg(Reg8::L), Arg8::Reg(Reg8::H)), 1)),
        0x6d => Ok((Inst::Ld8(Arg8::Reg(Reg8::L), Arg8::Reg(Reg8::L)), 1)),
        0x6e => Ok((Inst::Ld8(Arg8::Reg(Reg8::L), Arg8::IndReg(Reg16::HL)), 1)),
        0x6f => Ok((Inst::Ld8(Arg8::Reg(Reg8::L), Arg8::Reg(Reg8::A)), 1)),
        0x70 => Ok((Inst::Ld8(Arg8::IndReg(Reg16::HL), Arg8::Reg(Reg8::B)), 1)),
        0x71 => Ok((Inst::Ld8(Arg8::IndReg(Reg16::HL), Arg8::Reg(Reg8::C)), 1)),
        0x72 => Ok((Inst::Ld8(Arg8::IndReg(Reg16::HL), Arg8::Reg(Reg8::D)), 1)),
        0x73 => Ok((Inst::Ld8(Arg8::IndReg(Reg16::HL), Arg8::Reg(Reg8::E)), 1)),
        0x74 => Ok((Inst::Ld8(Arg8::IndReg(Reg16::HL), Arg8::Reg(Reg8::H)), 1)),
        0x75 => Ok((Inst::Ld8(Arg8::IndReg(Reg16::HL), Arg8::Reg(Reg8::L)), 1)),
        0x76 => Ok((Inst::Halt, 1)),
        0x77 => Ok((Inst::Ld8(Arg8::IndReg(Reg16::HL), Arg8::Reg(Reg8::A)), 1)),
        0x78 => Ok((Inst::Ld8(Arg8::Reg(Reg8::A), Arg8::Reg(Reg8::B)), 1)),
        0x79 => Ok((Inst::Ld8(Arg8::Reg(Reg8::A), Arg8::Reg(Reg8::C)), 1)),
        0x7a => Ok((Inst::Ld8(Arg8::Reg(Reg8::A), Arg8::Reg(Reg8::D)), 1)),
        0x7b => Ok((Inst::Ld8(Arg8::Reg(Reg8::A), Arg8::Reg(Reg8::E)), 1)),
        0x7c => Ok((Inst::Ld8(Arg8::Reg(Reg8::A), Arg8::Reg(Reg8::H)), 1)),
        0x7d => Ok((Inst::Ld8(Arg8::Reg(Reg8::A), Arg8::Reg(Reg8::L)), 1)),
        0x7e => Ok((Inst::Ld8(Arg8::Reg(Reg8::A), Arg8::IndReg(Reg16::HL)), 1)),
        0x7f => Ok((Inst::Ld8(Arg8::Reg(Reg8::A), Arg8::Reg(Reg8::A)), 1)),
        0x80 => Ok((Inst::Add(Arg8::Reg(Reg8::A), Arg8::Reg(Reg8::B)), 1)),
        0x81 => Ok((Inst::Add(Arg8::Reg(Reg8::A), Arg8::Reg(Reg8::C)), 1)),
        0x82 => Ok((Inst::Add(Arg8::Reg(Reg8::A), Arg8::Reg(Reg8::D)), 1)),
        0x83 => Ok((Inst::Add(Arg8::Reg(Reg8::A), Arg8::Reg(Reg8::E)), 1)),
        0x84 => Ok((Inst::Add(Arg8::Reg(Reg8::A), Arg8::Reg(Reg8::H)), 1)),
        0x85 => Ok((Inst::Add(Arg8::Reg(Reg8::A), Arg8::Reg(Reg8::L)), 1)),
        0x86 => Ok((Inst::Add(Arg8::Reg(Reg8::A), Arg8::IndReg(Reg16::HL)), 1)),
        0x87 => Ok((Inst::Add(Arg8::Reg(Reg8::A), Arg8::Reg(Reg8::A)), 1)),
        0x88 => Ok((Inst::Adc(Arg8::Reg(Reg8::A), Arg8::Reg(Reg8::B)), 1)),
        0x89 => Ok((Inst::Adc(Arg8::Reg(Reg8::A), Arg8::Reg(Reg8::C)), 1)),
        0x8a => Ok((Inst::Adc(Arg8::Reg(Reg8::A), Arg8::Reg(Reg8::D)), 1)),
        0x8b => Ok((Inst::Adc(Arg8::Reg(Reg8::A), Arg8::Reg(Reg8::E)), 1)),
        0x8c => Ok((Inst::Adc(Arg8::Reg(Reg8::A), Arg8::Reg(Reg8::H)), 1)),
        0x8d => Ok((Inst::Adc(Arg8::Reg(Reg8::A), Arg8::Reg(Reg8::L)), 1)),
        0x8e => Ok((Inst::Adc(Arg8::Reg(Reg8::A), Arg8::IndReg(Reg16::HL)), 1)),
        0x8f => Ok((Inst::Adc(Arg8::Reg(Reg8::A), Arg8::Reg(Reg8::A)), 1)),
        0x90 => Ok((Inst::Sub(Arg8::Reg(Reg8::A), Arg8::Reg(Reg8::B)), 1)),
        0x91 => Ok((Inst::Sub(Arg8::Reg(Reg8::A), Arg8::Reg(Reg8::C)), 1)),
        0x92 => Ok((Inst::Sub(Arg8::Reg(Reg8::A), Arg8::Reg(Reg8::D)), 1)),
        0x93 => Ok((Inst::Sub(Arg8::Reg(Reg8::A), Arg8::Reg(Reg8::E)), 1)),
        0x94 => Ok((Inst::Sub(Arg8::Reg(Reg8::A), Arg8::Reg(Reg8::H)), 1)),
        0x95 => Ok((Inst::Sub(Arg8::Reg(Reg8::A), Arg8::Reg(Reg8::L)), 1)),
        0x96 => Ok((Inst::Sub(Arg8::Reg(Reg8::A), Arg8::IndReg(Reg16::HL)), 1)),
        0x97 => Ok((Inst::Sub(Arg8::Reg(Reg8::A), Arg8::Reg(Reg8::A)), 1)),
        0x98 => Ok((Inst::Sbc(Arg8::Reg(Reg8::A), Arg8::Reg(Reg8::B)), 1)),
        0x99 => Ok((Inst::Sbc(Arg8::Reg(Reg8::A), Arg8::Reg(Reg8::C)), 1)),
        0x9a => Ok((Inst::Sbc(Arg8::Reg(Reg8::A), Arg8::Reg(Reg8::D)), 1)),
        0x9b => Ok((Inst::Sbc(Arg8::Reg(Reg8::A), Arg8::Reg(Reg8::E)), 1)),
        0x9c => Ok((Inst::Sbc(Arg8::Reg(Reg8::A), Arg8::Reg(Reg8::H)), 1)),
        0x9d => Ok((Inst::Sbc(Arg8::Reg(Reg8::A), Arg8::Reg(Reg8::L)), 1)),
        0x9e => Ok((Inst::Sbc(Arg8::Reg(Reg8::A), Arg8::IndReg(Reg16::HL)), 1)),
        0x9f => Ok((Inst::Sbc(Arg8::Reg(Reg8::A), Arg8::Reg(Reg8::A)), 1)),
        0xa0 => Ok((Inst::And(Arg8::Reg(Reg8::A), Arg8::Reg(Reg8::B)), 1)),
        0xa1 => Ok((Inst::And(Arg8::Reg(Reg8::A), Arg8::Reg(Reg8::C)), 1)),
        0xa2 => Ok((Inst::And(Arg8::Reg(Reg8::A), Arg8::Reg(Reg8::D)), 1)),
        0xa3 => Ok((Inst::And(Arg8::Reg(Reg8::A), Arg8::Reg(Reg8::E)), 1)),
        0xa4 => Ok((Inst::And(Arg8::Reg(Reg8::A), Arg8::Reg(Reg8::H)), 1)),
        0xa5 => Ok((Inst::And(Arg8::Reg(Reg8::A), Arg8::Reg(Reg8::L)), 1)),
        0xa6 => Ok((Inst::And(Arg8::Reg(Reg8::A), Arg8::IndReg(Reg16::HL)), 1)),
        0xa7 => Ok((Inst::And(Arg8::Reg(Reg8::A), Arg8::Reg(Reg8::A)), 1)),
        0xa8 => Ok((Inst::Xor(Arg8::Reg(Reg8::A), Arg8::Reg(Reg8::B)), 1)),
        0xa9 => Ok((Inst::Xor(Arg8::Reg(Reg8::A), Arg8::Reg(Reg8::C)), 1)),
        0xaa => Ok((Inst::Xor(Arg8::Reg(Reg8::A), Arg8::Reg(Reg8::D)), 1)),
        0xab => Ok((Inst::Xor(Arg8::Reg(Reg8::A), Arg8::Reg(Reg8::E)), 1)),
        0xac => Ok((Inst::Xor(Arg8::Reg(Reg8::A), Arg8::Reg(Reg8::H)), 1)),
        0xad => Ok((Inst::Xor(Arg8::Reg(Reg8::A), Arg8::Reg(Reg8::L)), 1)),
        0xae => Ok((Inst::Xor(Arg8::Reg(Reg8::A), Arg8::IndReg(Reg16::HL)), 1)),
        0xaf => Ok((Inst::Xor(Arg8::Reg(Reg8::A), Arg8::Reg(Reg8::A)), 1)),
        0xb0 => Ok((Inst::Or(Arg8::Reg(Reg8::A), Arg8::Reg(Reg8::B)), 1)),
        0xb1 => Ok((Inst::Or(Arg8::Reg(Reg8::A), Arg8::Reg(Reg8::C)), 1)),
        0xb2 => Ok((Inst::Or(Arg8::Reg(Reg8::A), Arg8::Reg(Reg8::D)), 1)),
        0xb3 => Ok((Inst::Or(Arg8::Reg(Reg8::A), Arg8::Reg(Reg8::E)), 1)),
        0xb4 => Ok((Inst::Or(Arg8::Reg(Reg8::A), Arg8::Reg(Reg8::H)), 1)),
        0xb5 => Ok((Inst::Or(Arg8::Reg(Reg8::A), Arg8::Reg(Reg8::L)), 1)),
        0xb6 => Ok((Inst::Or(Arg8::Reg(Reg8::A), Arg8::IndReg(Reg16::HL)), 1)),
        0xb7 => Ok((Inst::Or(Arg8::Reg(Reg8::A), Arg8::Reg(Reg8::A)), 1)),
        0xb8 => Ok((Inst::Cp(Arg8::Reg(Reg8::A), Arg8::Reg(Reg8::B)), 1)),
        0xb9 => Ok((Inst::Cp(Arg8::Reg(Reg8::A), Arg8::Reg(Reg8::C)), 1)),
        0xba => Ok((Inst::Cp(Arg8::Reg(Reg8::A), Arg8::Reg(Reg8::D)), 1)),
        0xbb => Ok((Inst::Cp(Arg8::Reg(Reg8::A), Arg8::Reg(Reg8::E)), 1)),
        0xbc => Ok((Inst::Cp(Arg8::Reg(Reg8::A), Arg8::Reg(Reg8::H)), 1)),
        0xbd => Ok((Inst::Cp(Arg8::Reg(Reg8::A), Arg8::Reg(Reg8::L)), 1)),
        0xbe => Ok((Inst::Cp(Arg8::Reg(Reg8::A), Arg8::IndReg(Reg16::HL)), 1)),
        0xbf => Ok((Inst::Cp(Arg8::Reg(Reg8::A), Arg8::Reg(Reg8::A)), 1)),
        0xc0 => Ok((Inst::Retf(JpFlag::Nz), 1)),
        0xc1 => Ok((Inst::Pop16(Reg16::BC), 1)),
        0xc2 => Ok((Inst::Jpf(JpFlag::Nz, nn), 3)),
        0xc3 => Ok((Inst::Jp(nn), 3)),
        0xc4 => Ok((Inst::Callf(JpFlag::Nz, nn), 3)),
        0xc5 => Ok((Inst::Push16(Reg16::BC), 1)),
        0xc6 => Ok((Inst::Add(Arg8::Reg(Reg8::A), Arg8::Immed(n)), 2)),
        0xc7 => Ok((Inst::Rst(0x00), 1)),
        0xc8 => Ok((Inst::Retf(JpFlag::Z), 1)),
        0xc9 => Ok((Inst::Ret, 1)),
        0xca => Ok((Inst::Jpf(JpFlag::Z, nn), 3)),
        0xcb => Ok((spec_decode_prefix_cb(n), 2)),
        0xcc => Ok((Inst::Callf(JpFlag::Z, nn), 3)),
        0xcd => Ok((Inst::Call(nn), 3)),
        0xce => Ok((Inst::Adc(Arg8::Reg(Reg8::A), Arg8::Immed(n)), 2)),
        0xcf => Ok((Inst::Rst(0x08), 1)),
        0xd0 => Ok((Inst::Retf(JpFlag::Nc), 1)),
        0xd1 => Ok((Inst::Pop16(Reg16::DE), 1)),
        0xd2 => Ok((Inst::Jpf(JpFlag::Nc, nn), 3)),
        0xd4 => Ok((Inst::Callf(JpFlag::Nc, nn), 3)),
        0xd5 => Ok((Inst::Push16(Reg16::DE), 1)),
        0xd6 => Ok((Inst::Sub(Arg8::Reg(Reg8::A), Arg8::Immed(n)), 2)),
        0xd7 => Ok((Inst::Rst(0x10), 1)),
        0xd8 => Ok((Inst::Retf(JpFlag::C), 1)),
        0xd9 => Ok((Inst::Reti, 1)),
        0xda => Ok((Inst::Jpf(JpFlag::C, nn), 3)),
        0xdc => Ok((Inst::Callf(JpFlag::C, nn), 3)),
        0xde => Ok((Inst::Sbc(Arg8::Reg(Reg8::A), Arg8::Immed(n)), 2)),
        0xdf => Ok((Inst::Rst(0x18), 1)),
        0xe0 => Ok((Inst::Ld8(Arg8::IndIo(n), Arg8::Reg(Reg8::A)), 2)),
        0xe1 => Ok((Inst::Pop16(Reg16::HL), 1)),
        0xe2 => Ok((Inst::Ld8(Arg8::IndIoC, Arg8::Reg(Reg8::A)), 1)),
        0xe5 => Ok((Inst::Push16(Reg16::HL), 1)),
        0xe6 => Ok((Inst::And(Arg8::Reg(Reg8::A), Arg8::Immed(n)), 2)),
        0xe7 => Ok((Inst::Rst(0x20), 1)),
        0xe8 => Ok((Inst::Add16SP(d), 2)),
        0xe9 => Ok((Inst::JpHL, 1)),
        0xea => Ok((Inst::Ld8(Arg8::Ind(nn), Arg8::Reg(Reg8::A)), 3)),
        0xee => Ok((Inst::Xor(Arg8::Reg(Reg8::A), Arg8::Immed(n)), 2)),
        0xef => Ok((Inst::Rst(0x28), 1)),
        0xf0 => Ok((Inst::Ld8(Arg8::Reg(Reg8::A), Arg8::IndIo(n)), 2)),
        0xf1 => Ok((Inst::Pop16(Reg16::AF), 1)),
        0xf2 => Ok((Inst::Ld8(Arg8::Reg(Reg8::A), Arg8::IndIoC), 1)),
        0xf3 => Ok((Inst::Di, 1)),
        0xf5 => Ok((Inst::Push16(Reg16::AF), 1)),
        0xf6 => Ok((Inst::Or(Arg8::Reg(Reg8::A), Arg8::Immed(n)), 2)),
        0xf7 => Ok((Inst::Rst(0x30), 1)),
        0xf8 => Ok((Inst::Ld16HLSP(d), 2)),
        0xf9 => Ok((Inst::Ld16(Arg16::Reg(Reg16::SP), Arg16::Reg(Reg16::HL)), 1)),
        0xfa => Ok((Inst::Ld8(Arg8::Reg(Reg8::A), Arg8::Ind(nn)), 3)),
        0xfb => Ok((Inst::Ei, 1)),
        0xfe => Ok((Inst::Cp(Arg8::Reg(Reg8::A), Arg8::Immed(n)), 2)),
        0xff => Ok((Inst::Rst(0x38), 1)),
        _ => Err(op),
    }
}

/// `decode_spec` with the undefined byte wrapped as the decode error.
pub open spec fn decode_result(mem: Seq<u8>, pc: u16) -> Result<(Inst, u16), GbError> {
    match decode_spec(mem, pc) {
        Ok(r) => Ok(r),
        Err(b) => Err(GbError::InvalidOpcode(b)),
    }
}

/// Decode the instruction at `pc`: every opcode maps to exactly one
/// instruction except the eleven undefined bytes, which fail with the
/// offending byte; the returned length is 1, 2 or 3 (2 for the extended
/// table behind the 0xCB prefix).
#[verifier::rlimit(100)]
pub fn decode<M: MemoryIF>(pc: u16, memory: &M) -> (r: Result<(Inst, u16), GbError>)
    requires
        memory.wf(),
        decode_pre(memory, pc),
    ensures
        r == decode_result(memory.mem(), pc),
{
    let mut addvance: u16 = 1;
    let inst = match memory.read_byte(pc) {
        0x0 => Inst::Nop,
        0x1 => {
            let nn = memory.read_word(pc + 1);
            addvance = 3;
            Inst::Ld16(Arg16::Reg(Reg16::BC), Arg16::Immed(nn))
        }
        0x2 => Inst::Ld8(Arg8::IndReg(Reg16::BC), Arg8::Reg(Reg8::A)),
        0x3 => Inst::Inc16(Arg16::Reg(Reg16::BC)),
        0x4 => Inst::Inc(Arg8::Reg(Reg8::B)),
        0x5 => Inst::Dec(Arg8::Reg(Reg8::B)),
        0x6 => {
            let n = memory.read_byte(pc + 1);
            addvance = 2;
            Inst::Ld8(Arg8::Reg(Reg8::B), Arg8::Immed(n))
        }
        0x7 => Inst::Rlca,
        0x8 => {
            let nn = memory.read_word(pc + 1);
            addvance = 3;
            Inst::Ld16(Arg16::Ind(nn), Arg16::Reg(Reg16::SP))
        }
        0x9 => Inst::Add16(Arg16::Reg(Reg16::HL), Arg16::Reg(Reg16::BC)),
        0xa => Inst::Ld8(Arg8::Reg(Reg8::A), Arg8::IndReg(Reg16::BC)),
        0xb => Inst::Dec16(Arg16::Reg(Reg16::BC)),
        0xc => Inst::Inc(Arg8::Reg(Reg8::C)),
        0xd => Inst::Dec(Arg8::Reg(Reg8::C)),
        0xe => {
            let n = memory.read_byte(pc + 1);
            addvance = 2;
            Inst::Ld8(Arg8::Reg(Reg8::C), Arg8::Immed(n))
        }
        0xf => Inst::Rrca,
        0x10 => Inst::Stop,
        0x11 => {
            let nn = memory.read_word(pc + 1);
            addvance = 3;
            Inst::Ld16(Arg16::Reg(Reg16::DE), Arg16::Immed(nn))
        }
        0x12 => Inst::Ld8(Arg8::IndReg(Reg16::DE), Arg8::Reg(Reg8::A)),
        0x13 => Inst::Inc16(Arg16::Reg(Reg16::DE)),
        0x14 => Inst::Inc(Arg8::Reg(Reg8::D)),
        0x15 => Inst::Dec(Arg8::Reg(Reg8::D)),
        0x16 => {
            let n = memory.read_byte(pc + 1);
            addvance = 2;
            Inst::Ld8(Arg8::Reg(Reg8::D), Arg8::Immed(n))
        }
        0x17 => Inst::Rla,
        0x18 => {
            let n = memory.read_byte(pc + 1);
            addvance = 2;
            let d: i8 = if n < 128 {
                n as i8
            } else {
                ((n as i16) - 256) as i8
            };
            Inst::Jr(d)
        }
        0x19 => Inst::Add16(Arg16::Reg(Reg16::HL), Arg16::Reg(Reg16::DE)),
        0x1a => Inst::Ld8(Arg8::Reg(Reg8::A), Arg8::IndReg(Reg16::DE)),
        0x1b => Inst::Dec16(Arg16::Reg(Reg16::DE)),
        0x1c => Inst::Inc(Arg8::Reg(Reg8::E)),
        0x1d => Inst::Dec(Arg8::Reg(Reg8::E)),
        0x1e => {
            let n = memory.read_byte(pc + 1);
            addvance = 2;
            Inst::Ld8(Arg8::Reg(Reg8::E), Arg8::Immed(n))
        }
        0x1f => Inst::Rra,
        0x20 => {
            let n = memory.read_byte(pc + 1);
            addvance = 2;
            let d: i8 = if n < 128 {
                n as i8
            } else {
                ((n as i16) - 256) as i8
            };
            Inst::Jrf(JpFlag::Nz, d)
        }
        0x21 => {
            let nn = memory.read_word(pc + 1);
            addvance = 3;
            Inst::Ld16(Arg16::Reg(Reg16::HL), Arg16::Immed(nn))
        }
        0x22 => Inst::Ld8(Arg8::IndIncHL, Arg8::Reg(Reg8::A)),
        0x23 => Inst::Inc16(Arg16::Reg(Reg16::HL)),
        0x24 => Inst::Inc(Arg8::Reg(Reg8::H)),
        0x25 => Inst::Dec(Arg8::Reg(Reg8::H)),
        0x26 => {
            let n = memory.read_byte(pc + 1);
            addvance = 2;
            Inst::Ld8(Arg8::Reg(Reg8::H), Arg8::Immed(n))
        }
        0x27 => Inst::Daa,
        0x28 => {
            let n = memory.read_byte(pc + 1);
            addvance = 2;
            let d: i8 = if n < 128 {
                n as i8
            } else {
                ((n as i16) - 256) as i8
            };
            Inst::Jrf(JpFlag::Z, d)
        }
        0x29 => Inst::Add16(Arg16::Reg(Reg16::HL), Arg16::Reg(Reg16::HL)),
        0x2a => Inst::Ld8(Arg8::Reg(Reg8::A), Arg8::IndIncHL),
        0x2b => Inst::Dec16(Arg16::Reg(Reg16::HL)),
        0x2c => Inst::Inc(Arg8::Reg(Reg8::L)),
        0x2d => Inst::Dec(Arg8::Reg(Reg8::L)),
        0x2e => {
            let n = memory.read_byte(pc + 1);
            addvance = 2;
            Inst::Ld8(Arg8::Reg(Reg8::L), Arg8::Immed(n))
        }
        0x2f => Inst::Cpl,
        0x30 => {
            let n = memory.read_byte(pc + 1);
            addvance = 2;
            let d: i8 = if n < 128 {
                n as i8
            } else {
                ((n as i16) - 256) as i8
            };
            Inst::Jrf(JpFlag::Nc, d)
        }
        0x31 => {
            let nn = memory.read_word(pc + 1);
            addvance = 3;
            Inst::Ld16(Arg16::Reg(Reg16::SP), Arg16::Immed(nn))
        }
        0x32 => Inst::Ld8(Arg8::IndDecHL, Arg8::Reg(Reg8::A)),
        0x33 => Inst::Inc16(Arg16::Reg(Reg16::SP)),
        0x34 => Inst::Inc(Arg8::IndReg(Reg16::HL)),
        0x35 => Inst::Dec(Arg8::IndReg(Reg16::HL)),
        0x36 => {
            let n = memory.read_byte(pc + 1);
            addvance = 2;
            Inst::Ld8(Arg8::IndReg(Reg16::HL), Arg8::Immed(n))
        }
        0x37 => Inst::Scf,
        0x38 => {
            let n = memory.read_byte(pc + 1);
            addvance = 2;
            let d: i8 = if n < 128 {
                n as i8
            } else {
                ((n as i16) - 256) as i8
            };
            Inst::Jrf(JpFlag::C, d)
        }
        0x39 => Inst::Add16(Arg16::Reg(Reg16::HL), Arg16::Reg(Reg16::SP)),
        0x3a => Inst::Ld8(Arg8::Reg(Reg8::A), Arg8::IndDecHL),
        0x3b => Inst::Dec16(Arg16::Reg(Reg16::SP)),
        0x3c => Inst::Inc(Arg8::Reg(Reg8::A)),
        0x3d => Inst::Dec(Arg8::Reg(Reg8::A)),
        0x3e => {
            let n = memory.read_byte(pc + 1);
            addvance = 2;
            Inst::Ld8(Arg8::Reg(Reg8::A), Arg8::Immed(n))
        }
        0x3f => Inst::Ccf,
        0x40 => Inst::Ld8(Arg8::Reg(Reg8::B), Arg8::Reg(Reg8::B)),
        0x41 => Inst::Ld8(Arg8::Reg(Reg8::B), Arg8::Reg(Reg8::C)),
        0x42 => Inst::Ld8(Arg8::Reg(Reg8::B), Arg8::Reg(Reg8::D)),
        0x43 => Inst::Ld8(Arg8::Reg(Reg8::B), Arg8::Reg(Reg8::E)),
        0x44 => Inst::Ld8(Arg8::Reg(Reg8::B), Arg8::Reg(Reg8::H)),
        0x45 => Inst::Ld8(Arg8::Reg(Reg8::B), Arg8::Reg(Reg8::L)),
        0x46 => Inst::Ld8(Arg8::Reg(Reg8::B), Arg8::IndReg(Reg16::HL)),
        0x47 => Inst::Ld8(Arg8::Reg(Reg8::B), Arg8::Reg(Reg8::A)),
        0x48 => Inst::Ld8(Arg8::Reg(Reg8::C), Arg8::Reg(Reg8::B)),
        0x49 => Inst::Ld8(Arg8::Reg(Reg8::C), Arg8::Reg(Reg8::C)),
        0x4a => Inst::Ld8(Arg8::Reg(Reg8::C), Arg8::Reg(Reg8::D)),
        0x4b => Inst::Ld8(Arg8::Reg(Reg8::C), Arg8::Reg(Reg8::E)),
        0x4c => Inst::Ld8(Arg8::Reg(Reg8::C), Arg8::Reg(Reg8::H)),
        0x4d => Inst::Ld8(Arg8::Reg(Reg8::C), Arg8::Reg(Reg8::L)),
        0x4e => Inst::Ld8(Arg8::Reg(Reg8::C), Arg8::IndReg(Reg16::HL)),
        0x4f => Inst::Ld8(Arg8::Reg(Reg8::C), Arg8::Reg(Reg8::A)),
        0x50 => Inst::Ld8(Arg8::Reg(Reg8::D), Arg8::Reg(Reg8::B)),
        0x51 => Inst::Ld8(Arg8::Reg(Reg8::D), Arg8::Reg(Reg8::C)),
        0x52 => Inst::Ld8(Arg8::Reg(Reg8::D), Arg8::Reg(Reg8::D)),
        0x53 => Inst::Ld8(Arg8::Reg(Reg8::D), Arg8::Reg(Reg8::E)),
        0x54 => Inst::Ld8(Arg8::Reg(Reg8::D), Arg8::Reg(Reg8::H)),
        0x55 => Inst::Ld8(Arg8::Reg(Reg8::D), Arg8::Reg(Reg8::L)),
        0x56 => Inst::Ld8(Arg8::Reg(Reg8::D), Arg8::IndReg(Reg16::HL)),
        0x57 => Inst::Ld8(Arg8::Reg(Reg8::D), Arg8::Reg(Reg8::A)),
        0x58 => Inst::Ld8(Arg8::Reg(Reg8::E), Arg8::Reg(Reg8::B)),
        0x59 => Inst::Ld8(Arg8::Reg(Reg8::E), Arg8::Reg(Reg8::C)),
        0x5a => Inst::Ld8(Arg8::Reg(Reg8::E), Arg8::Reg(Reg8::D)),
        0x5b => Inst::Ld8(Arg8::Reg(Reg8::E), Arg8::Reg(Reg8::E)),
        0x5c => Inst::Ld8(Arg8::Reg(Reg8::E), Arg8::Reg(Reg8::H)),
        0x5d => Inst::Ld8(Arg8::Reg(Reg8::E), Arg8::Reg(Reg8::L)),
        0x5e => Inst::Ld8(Arg8::Reg(Reg8::E), Arg8::IndReg(Reg16::HL)),
        0x5f => Inst::Ld8(Arg8::Reg(Reg8::E), Arg8::Reg(Reg8::A)),
        0x60 => Inst::Ld8(Arg8::Reg(Reg8::H), Arg8::Reg(Reg8::B)),
        0x61 => Inst::Ld8(Arg8::Reg(Reg8::H), Arg8::Reg(Reg8::C)),
        0x62 => Inst::Ld8(Arg8::Reg(Reg8::H), Arg8::Reg(Reg8::D)),
        0x63 => Inst::Ld8(Arg8::Reg(Reg8::H), Arg8::Reg(Reg8::E)),
        0x64 => Inst::Ld8(Arg8::Reg(Reg8::H), Arg8::Reg(Reg8::H)),
        0x65 => Inst::Ld8(Arg8::Reg(Reg8::H), Arg8::Reg(Reg8::L)),
        0x66 => Inst::Ld8(Arg8::Reg(Reg8::H), Arg8::IndReg(Reg16::HL)),
        0x67 => Inst::Ld8(Arg8::Reg(Reg8::H), Arg8::Reg(Reg8::A)),
        0x68 => Inst::Ld8(Arg8::Reg(Reg8::L), Arg8::Reg(Reg8::B)),
        0x69 => Inst::Ld8(Arg8::Reg(Reg8::L), Arg8::Reg(Reg8::C)),
        0x6a => Inst::Ld8(Arg8::Reg(Reg8::L), Arg8::Reg(Reg8::D)),
        0x6b => Inst::Ld8(Arg8::Reg(Reg8::L), Arg8::Reg(Reg8::E)),
        0x6c => Inst::Ld8(Arg8::Reg(Reg8::L), Arg8::Reg(Reg8::H)),
        0x6d => Inst::Ld8(Arg8::Reg(Reg8::L), Arg8::Reg(Reg8::L)),
        0x6e => Inst::Ld8(Arg8::Reg(Reg8::L), Arg8::IndReg(Reg16::HL)),
        0x6f => Inst::Ld8(Arg8::Reg(Reg8::L), Arg8::Reg(Reg8::A)),
        0x70 => Inst::Ld8(Arg8::IndReg(Reg16::HL), Arg8::Reg(Reg8::B)),
        0x71 => Inst::Ld8(Arg8::IndReg(Reg16::HL), Arg8::Reg(Reg8::C)),
        0x72 => Inst::Ld8(Arg8::IndReg(Reg16::HL), Arg8::Reg(Reg8::D)),
        0x73 => Inst::Ld8(Arg8::IndReg(Reg16::HL), Arg8::Reg(Reg8::E)),
        0x74 => Inst::Ld8(Arg8::IndReg(Reg16::HL), Arg8::Reg(Reg8::H)),
        0x75 => Inst::Ld8(Arg8::IndReg(Reg16::HL), Arg8::Reg(Reg8::L)),
        0x76 => Inst::Halt,
        0x77 => Inst::Ld8(Arg8::IndReg(Reg16::HL), Arg8::Reg(Reg8::A)),
        0x78 => Inst::Ld8(Arg8::Reg(Reg8::A), Arg8::Reg(Reg8::B)),
        0x79 => Inst::Ld8(Arg8::Reg(Reg8::A), Arg8::Reg(Reg8::C)),
        0x7a => Inst::Ld8(Arg8::Reg(Reg8::A), Arg8::Reg(Reg8::D)),
        0x7b => Inst::Ld8(Arg8::Reg(Reg8::A), Arg8::Reg(Reg8::E)),
        0x7c => Inst::Ld8(Arg8::Reg(Reg8::A), Arg8::Reg(Reg8::H)),
        0x7d => Inst::Ld8(Arg8::Reg(Reg8::A), Arg8::Reg(Reg8::L)),
        0x7e => Inst::Ld8(Arg8::Reg(Reg8::A), Arg8::IndReg(Reg16::HL)),
        0x7f => Inst::Ld8(Arg8::Reg(Reg8::A), Arg8::Reg(Reg8::A)),
        0x80 => Inst::Add(Arg8::Reg(Reg8::A), Arg8::Reg(Reg8::B)),
        0x81 => Inst::Add(Arg8::Reg(Reg8::A), Arg8::Reg(Reg8::C)),
        0x82 => Inst::Add(Arg8::Reg(Reg8::A), Arg8::Reg(Reg8::D)),
        0x83 => Inst::Add(Arg8::Reg(Reg8::A), Arg8::Reg(Reg8::E)),
        0x84 => Inst::Add(Arg8::Reg(Reg8::A), Arg8::Reg(Reg8::H)),
        0x85 => Inst::Add(Arg8::Reg(Reg8::A), Arg8::Reg(Reg8::L)),
        0x86 => Inst::Add(Arg8::Reg(Reg8::A), Arg8::IndReg(Reg16::HL)),
        0x87 => Inst::Add(Arg8::Reg(Reg8::A), Arg8::Reg(Reg8::A)),
        0x88 => Inst::Adc(Arg8::Reg(Reg8::A), Arg8::Reg(Reg8::B)),
        0x89 => Inst::Adc(Arg8::Reg(Reg8::A), Arg8::Reg(Reg8::C)),
        0x8a => Inst::Adc(Arg8::Reg(Reg8::A), Arg8::Reg(Reg8::D)),
        0x8b => Inst::Adc(Arg8::Reg(Reg8::A), Arg8::Reg(Reg8::E)),
        0x8c => Inst::Adc(Arg8::Reg(Reg8::A), Arg8::Reg(Reg8::H)),
        0x8d => Inst::Adc(Arg8::Reg(Reg8::A), Arg8::Reg(Reg8::L)),
        0x8e => Inst::Adc(Arg8::Reg(Reg8::A), Arg8::IndReg(Reg16::HL)),
        0x8f => Inst::Adc(Arg8::Reg(Reg8::A), Arg8::Reg(Reg8::A)),
        0x90 => Inst::Sub(Arg8::Reg(Reg8::A), Arg8::Reg(Reg8::B)),
        0x91 => Inst::Sub(Arg8::Reg(Reg8::A), Arg8::Reg(Reg8::C)),
        0x92 => Inst::Sub(Arg8::Reg(Reg8::A), Arg8::Reg(Reg8::D)),
        0x93 => Inst::Sub(Arg8::Reg(Reg8::A), Arg8::Reg(Reg8::E)),
        0x94 => Inst::Sub(Arg8::Reg(Reg8::A), Arg8::Reg(Reg8::H)),
        0x95 => Inst::Sub(Arg8::Reg(Reg8::A), Arg8::Reg(Reg8::L)),
        0x96 => Inst::Sub(Arg8::Reg(Reg8::A), Arg8::IndReg(Reg16::HL)),
        0x97 => Inst::Sub(Arg8::Reg(Reg8::A), Arg8::Reg(Reg8::A)),
        0x98 => Inst::Sbc(Arg8::Reg(Reg8::A), Arg8::Reg(Reg8::B)),
        0x99 => Inst::Sbc(Arg8::Reg(Reg8::A), Arg8::Reg(Reg8::C)),
        0x9a => Inst::Sbc(Arg8::Reg(Reg8::A), Arg8::Reg(Reg8::D)),
        0x9b => Inst::Sbc(Arg8::Reg(Reg8::A), Arg8::Reg(Reg8::E)),
        0x9c => Inst::Sbc(Arg8::Reg(Reg8::A), Arg8::Reg(Reg8::H)),
        0x9d => Inst::Sbc(Arg8::Reg(Reg8::A), Arg8::Reg(Reg8::L)),
        0x9e => Inst::Sbc(Arg8::Reg(Reg8::A), Arg8::IndReg(Reg16::HL)),
        0x9f => Inst::Sbc(Arg8::Reg(Reg8::A), Arg8::Reg(Reg8::A)),
        0xa0 => Inst::And(Arg8::Reg(Reg8::A), Arg8::Reg(Reg8::B)),
        0xa1 => Inst::And(Arg8::Reg(Reg8::A), Arg8::Reg(Reg8::C)),
        0xa2 => Inst::And(Arg8::Reg(Reg8::A), Arg8::Reg(Reg8::D)),
        0xa3 => Inst::And(Arg8::Reg(Reg8::A), Arg8::Reg(Reg8::E)),
        0xa4 => Inst::And(Arg8::Reg(Reg8::A), Arg8::Reg(Reg8::H)),
        0xa5 => Inst::And(Arg8::Reg(Reg8::A), Arg8::Reg(Reg8::L)),
        0xa6 => Inst::And(Arg8::Reg(Reg8::A), Arg8::IndReg(Reg16::HL)),
        0xa7 => Inst::And(Arg8::Reg(Reg8::A), Arg8::Reg(Reg8::A)),
        0xa8 => Inst::Xor(Arg8::Reg(Reg8::A), Arg8::Reg(Reg8::B)),
        0xa9 => Inst::Xor(Arg8::Reg(Reg8::A), Arg8::Reg(Reg8::C)),
        0xaa => Inst::Xor(Arg8::Reg(Reg8::A), Arg8::Reg(Reg8::D)),
        0xab => Inst::Xor(Arg8::Reg(Reg8::A), Arg8::Reg(Reg8::E)),
        0xac => Inst::Xor(Arg8::Reg(Reg8::A), Arg8::Reg(Reg8::H)),
        0xad => Inst::Xor(Arg8::Reg(Reg8::A), Arg8::Reg(Reg8::L)),
        0xae => Inst::Xor(Arg8::Reg(Reg8::A), Arg8::IndReg(Reg16::HL)),
        0xaf => Inst::Xor(Arg8::Reg(Reg8::A), Arg8::Reg(Reg8::A)),
        0xb0 => Inst::Or(Arg8::Reg(Reg8::A), Arg8::Reg(Reg8::B)),
        0xb1 => Inst::Or(Arg8::Reg(Reg8::A), Arg8::Reg(Reg8::C)),
        0xb2 => Inst::Or(Arg8::Reg(Reg8::A), Arg8::Reg(Reg8::D)),
        0xb3 => Inst::Or(Arg8::Reg(Reg8::A), Arg8::Reg(Reg8::E)),
        0xb4 => Inst::Or(Arg8::Reg(Reg8::A), Arg8::Reg(Reg8::H)),
        0xb5 => Inst::Or(Arg8::Reg(Reg8::A), Arg8::Reg(Reg8::L)),
        0xb6 => Inst::Or(Arg8::Reg(Reg8::A), Arg8::IndReg(Reg16::HL)),
        0xb7 => Inst::Or(Arg8::Reg(Reg8::A), Arg8::Reg(Reg8::A)),
        0xb8 => Inst::Cp(Arg8::Reg(Reg8::A), Arg8::Reg(Reg8::B)),
        0xb9 => Inst::Cp(Arg8::Reg(Reg8::A), Arg8::Reg(Reg8::C)),
        0xba => Inst::Cp(Arg8::Reg(Reg8::A), Arg8::Reg(Reg8::D)),
        0xbb => Inst::Cp(Arg8::Reg(Reg8::A), Arg8::Reg(Reg8::E)),
        0xbc => Inst::Cp(Arg8::Reg(Reg8::A), Arg8::Reg(Reg8::H)),
        0xbd => Inst::Cp(Arg8::Reg(Reg8::A), Arg8::Reg(Reg8::L)),
        0xbe => Inst::Cp(Arg8::Reg(Reg8::A), Arg8::IndReg(Reg16::HL)),
        0xbf => Inst::Cp(Arg8::Reg(Reg8::A), Arg8::Reg(Reg8::A)),
        0xc0 => Inst::Retf(JpFlag::Nz),
        0xc1 => Inst::Pop16(Reg16::BC),
        0xc2 => {
            let nn = memory.read_word(pc + 1);
            addvance = 3;
            Inst::Jpf(JpFlag::Nz, nn)
        }
        0xc3 => {
            let nn = memory.read_word(pc + 1);
            addvance = 3;
            Inst::Jp(nn)
        }
        0xc4 => {
            let nn = memory.read_word(pc + 1);
            addvance = 3;
            Inst::Callf(JpFlag::Nz, nn)
        }
        0xc5 => Inst::Push16(Reg16::BC),
        0xc6 => {
            let n = memory.read_byte(pc + 1);
            addvance = 2;
            Inst::Add(Arg8::Reg(Reg8::A), Arg8::Immed(n))
        }
        0xc7 => Inst::Rst(0x00),
        0xc8 => Inst::Retf(JpFlag::Z),
        0xc9 => Inst::Ret,
        0xca => {
            let nn = memory.read_word(pc + 1);
            addvance = 3;
            Inst::Jpf(JpFlag::Z, nn)
        }
        0xcb => {
            let code = memory.read_byte(pc + 1);
            addvance = 2;
            decode_prefix_cb(code)
        }
        0xcc => {
            let nn = memory.read_word(pc + 1);
            addvance = 3;
            Inst::Callf(JpFlag::Z, nn)
        }
        0xcd => {
            let nn = memory.read_word(pc + 1);
            addvance = 3;
            Inst::Call(nn)
        }
        0xce => {
            let n = memory.read_byte(pc + 1);
            addvance = 2;
            Inst::Adc(Arg8::Reg(Reg8::A), Arg8::Immed(n))
        }
        0xcf => Inst::Rst(0x08),
        0xd0 => Inst::Retf(JpFlag::Nc),
        0xd1 => Inst::Pop16(Reg16::DE),
        0xd2 => {
            let nn = memory.read_word(pc + 1);
            addvance = 3;
            Inst::Jpf(JpFlag::Nc, nn)
        }
        0xd4 => {
            let nn = memory.read_word(pc + 1);
            addvance = 3;
            Inst::Callf(JpFlag::Nc, nn)
        }
        0xd5 => Inst::Push16(Reg16::DE),
        0xd6 => {
            let n = memory.read_byte(pc + 1);
            addvance = 2;
            Inst::Sub(Arg8::Reg(Reg8::A), Arg8::Immed(n))
        }
        0xd7 => Inst::Rst(0x10),
        0xd8 => Inst::Retf(JpFlag::C),
        0xd9 => Inst::Reti,
        0xda => {
            let nn = memory.read_word(pc + 1);
            addvance = 3;
            Inst::Jpf(JpFlag::C, nn)
        }
        0xdc => {
            let nn = memory.read_word(pc + 1);
            addvance = 3;
            Inst::Callf(JpFlag::C, nn)
        }
        0xde => {
            let n = memory.read_byte(pc + 1);
            addvance = 2;
            Inst::Sbc(Arg8::Reg(Reg8::A), Arg8::Immed(n))
        }
        0xdf => Inst::Rst(0x18),
        0xe0 => {
            let n = memory.read_byte(pc + 1);
            addvance = 2;
            Inst::Ld8(Arg8::IndIo(n), Arg8::Reg(Reg8::A))
        }
        0xe1 => Inst::Pop16(Reg16::HL),
        0xe2 => Inst::Ld8(Arg8::IndIoC, Arg8::Reg(Reg8::A)),
        0xe5 => Inst::Push16(Reg16::HL),
        0xe6 => {
            let n = memory.read_byte(pc + 1);
            addvance = 2;
            Inst::And(Arg8::Reg(Reg8::A), Arg8::Immed(n))
        }
        0xe7 => Inst::Rst(0x20),
        0xe8 => {
            let n = memory.read_byte(pc + 1);
            addvance = 2;
            let d: i8 = if n < 128 {
                n as i8
            } else {
                ((n as i16) - 256) as i8
            };
            Inst::Add16SP(d)
        }
        0xe9 => Inst::JpHL,
        0xea => {
            let nn = memory.read_word(pc + 1);
            addvance = 3;
            Inst::Ld8(Arg8::Ind(nn), Arg8::Reg(Reg8::A))
        }
        0xee => {
            let n = memory.read_byte(pc + 1);
            addvance = 2;
            Inst::Xor(Arg8::Reg(Reg8::A), Arg8::Immed(n))
        }
        0xef => Inst::Rst(0x28),
        0xf0 => {
            let n = memory.read_byte(pc + 1);
            addvance = 2;
            Inst::Ld8(Arg8::Reg(Reg8::A), Arg8::IndIo(n))
        }
        0xf1 => Inst::Pop16(Reg16::AF),
        0xf2 => Inst::Ld8(Arg8::Reg(Reg8::A), Arg8::IndIoC),
        0xf3 => Inst::Di,
        0xf5 => Inst::Push16(Reg16::AF),
        0xf6 => {
            let n = memory.read_byte(pc + 1);
            addvance = 2;
            Inst::Or(Arg8::Reg(Reg8::A), Arg8::Immed(n))
        }
        0xf7 => Inst::Rst(0x30),
        0xf8 => {
            let n = memory.read_byte(pc + 1);
            addvance = 2;
            let d: i8 = if n < 128 {
                n as i8
            } else {
                ((n as i16) - 256) as i8
            };
            Inst::Ld16HLSP(d)
        }
        0xf9 => Inst::Ld16(Arg16::Reg(Reg16::SP), Arg16::Reg(Reg16::HL)),
        0xfa => {
            let nn = memory.read_word(pc + 1);
            addvance = 3;
            Inst::Ld8(Arg8::Reg(Reg8::A), Arg8::Ind(nn))
        }
        0xfb => Inst::Ei,
        0xfe => {
            let n = memory.read_byte(pc + 1);
            addvance = 2;
            Inst::Cp(Arg8::Reg(Reg8::A), Arg8::Immed(n))
        }
        0xff => Inst::Rst(0x38),
        code => {
            return Err(GbError::InvalidOpcode(code));
        }
    };
    Ok((inst, addvance))
}

} // verus!
