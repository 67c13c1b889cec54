//! Extended-table decoder checks over a sample of every band.

use gb_core::cpu::decode_prefix_cb::decode_prefix_cb;
use gb_core::cpu::inst::Arg8;
use gb_core::cpu::inst::Inst;
use gb_core::cpu::inst::Reg16;
use gb_core::cpu::inst::Reg8;


#[test]
fn decode_prefix_cb_test() {
    let l = [
        (0x00, Inst::Rlc(Arg8::Reg(Reg8::B))),
        (0x08, Inst::Rrc(Arg8::Reg(Reg8::B))),
        (0x11, Inst::Rl(Arg8::Reg(Reg8::C))),
        (0x19, Inst::Rr(Arg8::Reg(Reg8::C))),
        (0x22, Inst::Sla(Arg8::Reg(Reg8::D))),
        (0x2a, Inst::Sra(Arg8::Reg(Reg8::D))),
        (0x33, Inst::Swap(Arg8::Reg(Reg8::E))),
        (0x3b, Inst::Srl(Arg8::Reg(Reg8::E))),
        (0x44, Inst::Bit(0, Arg8::Reg(Reg8::H))),
        (0x4c, Inst::Bit(1, Arg8::Reg(Reg8::H))),
        (0x55, Inst::Bit(2, Arg8::Reg(Reg8::L))),
        (0x5d, Inst::Bit(3, Arg8::Reg(Reg8::L))),
        (0x66, Inst::Bit(4, Arg8::IndReg(Reg16::HL))),
        (0x6e, Inst::Bit(5, Arg8::IndReg(Reg16::HL))),
        (0x77, Inst::Bit(6, Arg8::Reg(Reg8::A))),
        (0x7f, Inst::Bit(7, Arg8::Reg(Reg8::A))),
        (0x80, Inst::Res(0, Arg8::Reg(Reg8::B))),
        (0x88, Inst::Res(1, Arg8::Reg(Reg8::B))),
        (0x91, Inst::Res(2, Arg8::Reg(Reg8::C))),
        (0x99, Inst::Res(3, Arg8::Reg(Reg8::C))),
        (0xa2, Inst::Res(4, Arg8::Reg(Reg8::D))),
        (0xaa, Inst::Res(5, Arg8::Reg(Reg8::D))),
        (0xb3, Inst::Res(6, Arg8::Reg(Reg8::E))),
        (0xbb, Inst::Res(7, Arg8::Reg(Reg8::E))),
        (0xc4, Inst::SetBit(0, Arg8::Reg(Reg8::H))),
        (0xcc, Inst::SetBit(1, Arg8::Reg(Reg8::H))),
        (0xd5, Inst::SetBit(2, Arg8::Reg(Reg8::L))),
        (0xdd, Inst::SetBit(3, Arg8::Reg(Reg8::L))),
        (0xe6, Inst::SetBit(4, Arg8::IndReg(Reg16::HL))),
        (0xee, Inst::SetBit(5, Arg8::IndReg(Reg16::HL))),
        (0xf7, Inst::SetBit(6, Arg8::Reg(Reg8::A))),
        (0xff, Inst::SetBit(7, Arg8::Reg(Reg8::A))),
    ];
    for (c, des) in l {
        let i = decode_prefix_cb(c);
        assert_eq!(des, i);
    }
}
