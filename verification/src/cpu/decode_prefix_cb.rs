//! The extended decoder for the 256-entry table reached through the 0xCB
//! prefix byte: rotates, shifts, swap, and the single-bit operations.

use vstd::prelude::*;

use super::inst::Arg8;
use super::inst::Inst;
use super::inst::Reg16;
use super::inst::Reg8;

verus! {

/// The operand selected by the low three bits of an extended opcode, in the
/// fixed order B, C, D, E, H, L, (HL), A.
pub open spec fn spec_cb_operand(code: u8) -> Arg8 {
    match code % 8 {
        0 => Arg8::Reg(Reg8::B),
        1 => Arg8::Reg(Reg8::C),
        2 => Arg8::Reg(Reg8::D),
        3 => Arg8::Reg(Reg8::E),
        4 => Arg8::Reg(Reg8::H),
        5 => Arg8::Reg(Reg8::L),
        6 => Arg8::IndReg(Reg16::HL),
        _ => Arg8::Reg(Reg8::A),
    }
}

/// The instruction of one extended opcode: the operation family is picked by
/// eight-wide bands, the bit index of BIT/RES/SET by the band-relative byte
/// divided by eight.
pub open spec fn spec_decode_prefix_cb(code: u8) -> Inst {
    let r = spec_cb_operand(code);
    if code < 0x40 {
        match code / 8 {
            0 => Inst::Rlc(r),
            1 => Inst::Rrc(r),
            2 => Inst::Rl(r),
            3 => Inst::Rr(r),
            4 => Inst::Sla(r),
            5 => Inst::Sra(r),
            6 => Inst::Swap(r),
            _ => Inst::Srl(r),
        }
    } else if code < 0x80 {
        Inst::Bit(((code - 0x40) / 8) as u8, r)
    } else if code < 0xc0 {
        Inst::Res(((code - 0x80) / 8) as u8, r)
    } else {
        Inst::SetBit(((code - 0xc0) / 8) as u8, r)
    }
}

/// Decode one extended opcode; every byte of the secondary table is defined.
pub fn decode_prefix_cb(code: u8) -> (i: Inst)
    ensures
        i == spec_decode_prefix_cb(code),
{
    let r = match code % 8 {
        0 => Arg8::Reg(Reg8::B),
        1 => Arg8::Reg(Reg8::C),
        2 => Arg8::Reg(Reg8::D),
        3 => Arg8::Reg(Reg8::E),
        4 => Arg8::Reg(Reg8::H),
        5 => Arg8::Reg(Reg8::L),
        6 => Arg8::IndReg(Reg16::HL),
        _ => Arg8::Reg(Reg8::A),
    };
    match code {
        0x00..=0x07 => Inst::Rlc(r),
        0x08..=0x0f => Inst::Rrc(r),
        0x10..=0x17 => Inst::Rl(r),
        0x18..=0x1f => Inst::Rr(r),
        0x20..=0x27 => Inst::Sla(r),
        0x28..=0x2f => Inst::Sra(r),
        0x30..=0x37 => Inst::Swap(r),
        0x38..=0x3f => Inst::Srl(r),
        //
        0x40..=0x47 => Inst::Bit(0, r),
        0x48..=0x4f => Inst::Bit(1, r),
        0x50..=0x57 => Inst::Bit(2, r),
        0x58..=0x5f => Inst::Bit(3, r),
        0x60..=0x67 => Inst::Bit(4, r),
        0x68..=0x6f => Inst::Bit(5, r),
        0x70..=0x77 => Inst::Bit(6, r),
        0x78..=0x7f => Inst::Bit(7, r),
        //
        0x80..=0x87 => Inst::Res(0, r),
        0x88..=0x8f => Inst::Res(1, r),
        0x90..=0x97 => Inst::Res(2, r),
        0x98..=0x9f => Inst::Res(3, r),
        0xa0..=0xa7 => Inst::Res(4, r),
        0xa8..=0xaf => Inst::Res(5, r),
        0xb0..=0xb7 => Inst::Res(6, r),
        0xb8..=0xbf => Inst::Res(7, r),
        //
        0xc0..=0xc7 => Inst::SetBit(0, r),
        0xc8..=0xcf => Inst::SetBit(1, r),
        0xd0..=0xd7 => Inst::SetBit(2, r),
        0xd8..=0xdf => Inst::SetBit(3, r),
        0xe0..=0xe7 => Inst::SetBit(4, r),
        0xe8..=0xef => Inst::SetBit(5, r),
        0xf0..=0xf7 => Inst::SetBit(6, r),
        0xf8..=0xff => Inst::SetBit(7, r),
    }
}

} // verus!
