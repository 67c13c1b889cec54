//! Execution-engine checks: cycle costs, register, flag and memory effects
//! of each instruction family.

use gb_core::cpu::inst::Arg16;
use gb_core::cpu::inst::Arg8;
use gb_core::cpu::inst::FlagReg;
use gb_core::cpu::inst::Inst;
use gb_core::cpu::inst::JpFlag;
use gb_core::cpu::inst::Reg16;
use gb_core::cpu::inst::Reg8;
use gb_core::cpu::Registers;
use gb_core::memory::FlatMemory;
use gb_core::memory::MemoryIF;


#[test]
fn ld8_r_r() {
    let mut reg = Registers::new();
    let mut mem = FlatMemory::new();
    let mut ime = false;

    reg.write_reg8(&Reg8::B, 0x12);
    let i = Inst::Ld8(Arg8::Reg(Reg8::A), Arg8::Reg(Reg8::B));
    let (m, _flags) = reg.execute(i, &mut mem, &mut ime).unwrap();
    assert_eq!(1, m);
    assert_eq!(0x12, reg.read_reg8(&Reg8::A));
}

#[test]
fn ld8_r_n() {
    let mut reg = Registers::new();
    let mut mem = FlatMemory::new();
    let mut ime = false;

    let i = Inst::Ld8(Arg8::Reg(Reg8::A), Arg8::Immed(0x12));
    let (m, _flags) = reg.execute(i, &mut mem, &mut ime).unwrap();
    assert_eq!(2, m);
    assert_eq!(0x12, reg.read_reg8(&Reg8::A));
}

#[test]
fn ld8_r_phl() {
    let mut reg = Registers::new();
    let mut mem = FlatMemory::new();
    let mut ime = false;

    reg.write_reg16(&Reg16::HL, 0x100);
    mem.write_byte(0x100, 0x12);
    let i = Inst::Ld8(Arg8::Reg(Reg8::A), Arg8::IndReg(Reg16::HL));
    let (m, _flags) = reg.execute(i, &mut mem, &mut ime).unwrap();
    assert_eq!(2, m);
    assert_eq!(0x12, reg.read_reg8(&Reg8::A));
}

#[test]
fn ld8_phl_r() {
    let mut reg = Registers::new();
    let mut mem = FlatMemory::new();
    let mut ime = false;

    reg.write_reg16(&Reg16::HL, 0x100);
    reg.write_reg8(&Reg8::A, 0x12);
    let i = Inst::Ld8(Arg8::IndReg(Reg16::HL), Arg8::Reg(Reg8::A));
    let (m, _flags) = reg.execute(i, &mut mem, &mut ime).unwrap();
    assert_eq!(2, m);
    assert_eq!(0x12, mem.read_byte(0x100));
}

#[test]
fn ld8_phl_n() {
    let mut reg = Registers::new();
    let mut mem = FlatMemory::new();
    let mut ime = false;

    reg.write_reg16(&Reg16::HL, 0x100);
    let i = Inst::Ld8(Arg8::IndReg(Reg16::HL), Arg8::Immed(0x12));
    let (m, _flags) = reg.execute(i, &mut mem, &mut ime).unwrap();
    assert_eq!(3, m);
    assert_eq!(0x12, mem.read_byte(0x100));
}

#[test]
fn ld8_a_pbc() {
    let mut reg = Registers::new();
    let mut mem = FlatMemory::new();
    let mut ime = false;

    reg.write_reg16(&Reg16::BC, 0x100);
    mem.write_byte(0x100, 0x12);
    let i = Inst::Ld8(Arg8::Reg(Reg8::A), Arg8::IndReg(Reg16::BC));
    let (m, _flags) = reg.execute(i, &mut mem, &mut ime).unwrap();
    assert_eq!(2, m);
    assert_eq!(0x12, reg.read_reg8(&Reg8::A));
}

#[test]
fn ld8_a_pnn() {
    let mut reg = Registers::new();
    let mut mem = FlatMemory::new();
    let mut ime = false;

    mem.write_byte(0x100, 0x12);
    let i = Inst::Ld8(Arg8::Reg(Reg8::A), Arg8::Ind(0x100));
    let (m, _flags) = reg.execute(i, &mut mem, &mut ime).unwrap();
    assert_eq!(4, m);
    assert_eq!(0x12, reg.read_reg8(&Reg8::A));
}

#[test]
fn ld8_pbc_a() {
    let mut reg = Registers::new();
    let mut mem = FlatMemory::new();
    let mut ime = false;

    reg.write_reg8(&Reg8::A, 0x12);
    reg.write_reg16(&Reg16::DE, 0x100);
    let i = Inst::Ld8(Arg8::IndReg(Reg16::DE), Arg8::Reg(Reg8::A));
    let (m, _flags) = reg.execute(i, &mut mem, &mut ime).unwrap();
    assert_eq!(2, m);
    assert_eq!(0x12, mem.read_byte(0x100));
}

#[test]
fn ld8_pnn_a() {
    let mut reg = Registers::new();
    let mut mem = FlatMemory::new();
    let mut ime = false;

    reg.write_reg8(&Reg8::A, 0x12);
    let i = Inst::Ld8(Arg8::Ind(0x100), Arg8::Reg(Reg8::A));
    let (m, _flags) = reg.execute(i, &mut mem, &mut ime).unwrap();
    assert_eq!(4, m);
    assert_eq!(0x12, mem.read_byte(0x100));
}

#[test]
fn ld8_a_pff00n() {
    let mut reg = Registers::new();
    let mut mem = FlatMemory::new();
    let mut ime = false;

    mem.write_byte(0xff12, 0x34);
    let i = Inst::Ld8(Arg8::Reg(Reg8::A), Arg8::IndIo(0x12));
    let (m, _flags) = reg.execute(i, &mut mem, &mut ime).unwrap();
    assert_eq!(3, m);
    assert_eq!(0x34, reg.read_reg8(&Reg8::A));
}

#[test]
fn ld8_pff00n_a() {
    let mut reg = Registers::new();
    let mut mem = FlatMemory::new();
    let mut ime = false;

    reg.write_reg8(&Reg8::A, 0x34);
    let i = Inst::Ld8(Arg8::IndIo(0x12), Arg8::Reg(Reg8::A));
    let (m, _flags) = reg.execute(i, &mut mem, &mut ime).unwrap();
    assert_eq!(3, m);
    assert_eq!(0x34, mem.read_byte(0xff12));
}

#[test]
fn ld8_a_pff00c() {
    let mut reg = Registers::new();
    let mut mem = FlatMemory::new();
    let mut ime = false;

    mem.write_byte(0xff12, 0x34);
    reg.write_reg8(&Reg8::C, 0x12);
    let i = Inst::Ld8(Arg8::Reg(Reg8::A), Arg8::IndIoC);
    let (m, _flags) = reg.execute(i, &mut mem, &mut ime).unwrap();
    assert_eq!(2, m);
    assert_eq!(0x34, reg.read_reg8(&Reg8::A));
}

#[test]
fn ld8_pff00c_a() {
    let mut reg = Registers::new();
    let mut mem = FlatMemory::new();
    let mut ime = false;

    reg.write_reg8(&Reg8::A, 0x34);
    reg.write_reg8(&Reg8::C, 0x12);
    let i = Inst::Ld8(Arg8::IndIoC, Arg8::Reg(Reg8::A));
    let (m, _flags) = reg.execute(i, &mut mem, &mut ime).unwrap();
    assert_eq!(2, m);
    assert_eq!(0x34, mem.read_byte(0xff12));
}

#[test]
fn ld8_phlinc_a() {
    let mut reg = Registers::new();
    let mut mem = FlatMemory::new();
    let mut ime = false;

    reg.write_reg8(&Reg8::A, 0x12);
    reg.write_reg16(&Reg16::HL, 0x100);
    let i = Inst::Ld8(Arg8::IndIncHL, Arg8::Reg(Reg8::A));
    let (m, _flags) = reg.execute(i, &mut mem, &mut ime).unwrap();
    assert_eq!(2, m);
    assert_eq!(0x12, mem.read_byte(0x100));
    assert_eq!(0x101, reg.read_reg16(&Reg16::HL));
}

#[test]
fn ld8_a_phldec() {
    let mut reg = Registers::new();
    let mut mem = FlatMemory::new();
    let mut ime = false;

    reg.write_reg16(&Reg16::HL, 0x100);
    mem.write_byte(0x100, 0x12);
    let i = Inst::Ld8(Arg8::Reg(Reg8::A), Arg8::IndDecHL);
    let (m, _flags) = reg.execute(i, &mut mem, &mut ime).unwrap();
    assert_eq!(2, m);
    assert_eq!(0x12, reg.read_reg8(&Reg8::A));
    assert_eq!(0xff, reg.read_reg16(&Reg16::HL));
}

#[test]
fn ld16_rr_nn() {
    let mut reg = Registers::new();
    let mut mem = FlatMemory::new();
    let mut ime = false;

    let i = Inst::Ld16(Arg16::Reg(Reg16::BC), Arg16::Immed(0x1234));
    let (m, _flags) = reg.execute(i, &mut mem, &mut ime).unwrap();
    assert_eq!(3, m);
    assert_eq!(0x1234, reg.read_reg16(&Reg16::BC));
}

#[test]
fn ld16_pnn_sp() {
    let mut reg = Registers::new();
    let mut mem = FlatMemory::new();
    let mut ime = false;

    reg.write_reg16(&Reg16::SP, 0x1234);
    let i = Inst::Ld16(Arg16::Ind(0x100), Arg16::Reg(Reg16::SP));
    let (m, _flags) = reg.execute(i, &mut mem, &mut ime).unwrap();
    assert_eq!(5, m);
    assert_eq!(0x1234, mem.read_word(0x100));
}

#[test]
fn ld16_sp_hl() {
    let mut reg = Registers::new();
    let mut mem = FlatMemory::new();
    let mut ime = false;

    reg.write_reg16(&Reg16::HL, 0x1234);
    let i = Inst::Ld16(Arg16::Reg(Reg16::SP), Arg16::Reg(Reg16::HL));
    let (m, _flags) = reg.execute(i, &mut mem, &mut ime).unwrap();
    assert_eq!(2, m);
    assert_eq!(0x1234, reg.read_reg16(&Reg16::SP));
}

#[test]
fn push_rr() {
    let mut reg = Registers::new();
    let mut mem = FlatMemory::new();
    let mut ime = false;

    reg.write_reg16(&Reg16::SP, 0x100);
    reg.write_reg16(&Reg16::BC, 0x1234);
    let i = Inst::Push16(Reg16::BC);
    let (m, _flags) = reg.execute(i, &mut mem, &mut ime).unwrap();
    assert_eq!(4, m);
    assert_eq!(0x100 - 2, reg.read_reg16(&Reg16::SP));
    assert_eq!(0x1234, mem.read_word(0x100 - 2));
}

#[test]
fn pop_rr() {
    let mut reg = Registers::new();
    let mut mem = FlatMemory::new();
    let mut ime = false;

    mem.write_word(0x100, 0x1234);
    reg.write_reg16(&Reg16::SP, 0x100);
    let i = Inst::Pop16(Reg16::DE);
    let (m, _flags) = reg.execute(i, &mut mem, &mut ime).unwrap();
    assert_eq!(3, m);
    assert_eq!(0x100 + 2, reg.read_reg16(&Reg16::SP));
    assert_eq!(0x1234, reg.read_reg16(&Reg16::DE));
}

#[test]
fn add_a_r() {
    let mut reg = Registers::new();
    let mut mem = FlatMemory::new();
    let mut ime = false;

    reg.write_reg8(&Reg8::A, 0xff);
    reg.write_reg8(&Reg8::B, 0x01);
    let i = Inst::Add(Arg8::Reg(Reg8::A), Arg8::Reg(Reg8::B));
    let (m, _flags) = reg.execute(i, &mut mem, &mut ime).unwrap();
    assert_eq!(1, m);
    assert_eq!(0x00, reg.read_reg8(&Reg8::A));
    assert_eq!(true, reg.test_f(FlagReg::Z));
    assert_eq!(false, reg.test_f(FlagReg::N));
    assert_eq!(true, reg.test_f(FlagReg::H));
    assert_eq!(true, reg.test_f(FlagReg::C));
}

#[test]
fn adc_a_n() {
    let mut reg = Registers::new();
    let mut mem = FlatMemory::new();
    let mut ime = false;

    reg.write_reg8(&Reg8::A, 0xfe);
    reg.set_f(FlagReg::C);
    let i = Inst::Adc(Arg8::Reg(Reg8::A), Arg8::Immed(0x01));
    let (m, _flags) = reg.execute(i, &mut mem, &mut ime).unwrap();
    assert_eq!(2, m);
    assert_eq!(0x00, reg.read_reg8(&Reg8::A));
    assert_eq!(true, reg.test_f(FlagReg::Z));
    assert_eq!(false, reg.test_f(FlagReg::N));
    assert_eq!(true, reg.test_f(FlagReg::H));
    assert_eq!(true, reg.test_f(FlagReg::C));
}

#[test]
fn sub_a_phl() {
    let mut reg = Registers::new();
    let mut mem = FlatMemory::new();
    let mut ime = false;

    reg.write_reg8(&Reg8::A, 0x01);
    reg.write_reg16(&Reg16::HL, 0x100);
    mem.write_byte(0x100, 0xff);
    let i = Inst::Sub(Arg8::Reg(Reg8::A), Arg8::IndReg(Reg16::HL));
    let (m, _flags) = reg.execute(i, &mut mem, &mut ime).unwrap();
    assert_eq!(2, m);
    assert_eq!(0x02, reg.read_reg8(&Reg8::A));
    assert_eq!(false, reg.test_f(FlagReg::Z));
    assert_eq!(true, reg.test_f(FlagReg::N));
    assert_eq!(true, reg.test_f(FlagReg::H));
    assert_eq!(true, reg.test_f(FlagReg::C));
}

#[test]
fn sbc_a_r() {
    let mut reg = Registers::new();
    let mut mem = FlatMemory::new();
    let mut ime = false;

    reg.write_reg8(&Reg8::A, 0xff);
    reg.write_reg8(&Reg8::C, 0x01);
    reg.set_f(FlagReg::C);
    let i = Inst::Sbc(Arg8::Reg(Reg8::A), Arg8::Reg(Reg8::C));
    let (m, _flags) = reg.execute(i, &mut mem, &mut ime).unwrap();
    assert_eq!(1, m);
    assert_eq!(0xfd, reg.read_reg8(&Reg8::A));
    assert_eq!(false, reg.test_f(FlagReg::Z));
    assert_eq!(true, reg.test_f(FlagReg::N));
    assert_eq!(false, reg.test_f(FlagReg::H));
    assert_eq!(false, reg.test_f(FlagReg::C));
}

#[test]
fn and_a_n() {
    let mut reg = Registers::new();
    let mut mem = FlatMemory::new();
    let mut ime = false;

    reg.write_reg8(&Reg8::A, 0b101010);
    let i = Inst::And(Arg8::Reg(Reg8::A), Arg8::Immed(0b010101));
    let (m, _flags) = reg.execute(i, &mut mem, &mut ime).unwrap();
    assert_eq!(2, m);
    assert_eq!(0x00, reg.read_reg8(&Reg8::A));
    assert_eq!(true, reg.test_f(FlagReg::Z));
    assert_eq!(false, reg.test_f(FlagReg::N));
    assert_eq!(true, reg.test_f(FlagReg::H));
    assert_eq!(false, reg.test_f(FlagReg::C));
}

#[test]
fn xor_a_phl() {
    let mut reg = Registers::new();
    let mut mem = FlatMemory::new();
    let mut ime = false;

    reg.write_reg8(&Reg8::A, 0b10101100);
    reg.write_reg16(&Reg16::HL, 0x100);
    mem.write_byte(0x100, 0b11001010);
    let i = Inst::Xor(Arg8::Reg(Reg8::A), Arg8::IndReg(Reg16::HL));
    let (m, _flags) = reg.execute(i, &mut mem, &mut ime).unwrap();
    assert_eq!(2, m);
    assert_eq!(0b01100110, reg.read_reg8(&Reg8::A));
    assert_eq!(false, reg.test_f(FlagReg::Z));
    assert_eq!(false, reg.test_f(FlagReg::N));
    assert_eq!(false, reg.test_f(FlagReg::H));
    assert_eq!(false, reg.test_f(FlagReg::C));
}

#[test]
fn or_a_r() {
    let mut reg = Registers::new();
    let mut mem = FlatMemory::new();
    let mut ime = false;

    reg.write_reg8(&Reg8::A, 0b10101100);
    reg.write_reg8(&Reg8::D, 0b11001010);
    let i = Inst::Or(Arg8::Reg(Reg8::A), Arg8::Reg(Reg8::D));
    let (m, _flags) = reg.execute(i, &mut mem, &mut ime).unwrap();
    assert_eq!(1, m);
    assert_eq!(0b11101110, reg.read_reg8(&Reg8::A));
    assert_eq!(false, reg.test_f(FlagReg::Z));
    assert_eq!(false, reg.test_f(FlagReg::N));
    assert_eq!(false, reg.test_f(FlagReg::H));
    assert_eq!(false, reg.test_f(FlagReg::C));
}

#[test]
fn cp_n() {
    let mut reg = Registers::new();
    let mut mem = FlatMemory::new();
    let mut ime = false;

    reg.write_reg8(&Reg8::A, 0x01);
    let i = Inst::Cp(Arg8::Reg(Reg8::A), Arg8::Immed(0xff));
    let (m, _flags) = reg.execute(i, &mut mem, &mut ime).unwrap();
    assert_eq!(2, m);
    assert_eq!(0x01, reg.read_reg8(&Reg8::A));
    assert_eq!(false, reg.test_f(FlagReg::Z));
    assert_eq!(true, reg.test_f(FlagReg::N));
    assert_eq!(true, reg.test_f(FlagReg::H));
    assert_eq!(true, reg.test_f(FlagReg::C));
}

#[test]
fn inc_phl() {
    let mut reg = Registers::new();
    let mut mem = FlatMemory::new();
    let mut ime = false;

    reg.write_reg16(&Reg16::HL, 0x100);
    mem.write_byte(0x100, 0x7f);
    let i = Inst::Inc(Arg8::IndReg(Reg16::HL));
    let (m, _flags) = reg.execute(i, &mut mem, &mut ime).unwrap();
    assert_eq!(3, m);
    assert_eq!(0x80, mem.read_byte(0x100));
    assert_eq!(false, reg.test_f(FlagReg::Z));
    assert_eq!(false, reg.test_f(FlagReg::N));
    assert_eq!(true, reg.test_f(FlagReg::H));
    assert_eq!(false, reg.test_f(FlagReg::C));
}

#[test]
fn dec_r() {
    let mut reg = Registers::new();
    let mut mem = FlatMemory::new();
    let mut ime = false;

    reg.write_reg8(&Reg8::E, 0x10);
    let i = Inst::Dec(Arg8::Reg(Reg8::E));
    let (m, _flags) = reg.execute(i, &mut mem, &mut ime).unwrap();
    assert_eq!(1, m);
    assert_eq!(0x0f, reg.read_reg8(&Reg8::E));
    assert_eq!(false, reg.test_f(FlagReg::Z));
    assert_eq!(true, reg.test_f(FlagReg::N));
    assert_eq!(true, reg.test_f(FlagReg::H));
    assert_eq!(false, reg.test_f(FlagReg::C));
}

#[test]
fn daa() {
    let mut reg = Registers::new();
    let mut mem = FlatMemory::new();
    let mut ime = false;

    for m in 0..=99 {
        for n in m..=99 {
            let m_hex = 16 * (m / 10) + (m % 10);
            let n_hex = 16 * (n / 10) + (n % 10);

            reg.write_reg16(&Reg16::AF, 0);
            reg.write_reg8(&Reg8::A, m_hex);
            let i = Inst::Add(Arg8::Reg(Reg8::A), Arg8::Immed(n_hex));
            let (_m, _flags2) = reg.execute(i, &mut mem, &mut ime).unwrap();

            let i = Inst::Daa;
            let (_m, _flags2) = reg.execute(i, &mut mem, &mut ime).unwrap();

            let ans = m + n;
            let ans_hex = if ans >= 100 {
                let ans = ans - 100;
                16 * (ans / 10) + (ans % 10)
            } else {
                16 * (ans / 10) + (ans % 10)
            };
            let z_des = ans_hex == 0;
            let c_des = ans >= 100;

            assert_eq!(ans_hex, reg.read_reg8(&Reg8::A));
            assert_eq!(z_des, reg.test_f(FlagReg::Z));
            assert_eq!(false, reg.test_f(FlagReg::H));
            assert_eq!(c_des, reg.test_f(FlagReg::C));
        }
    }

    for m in 0..=99 {
        for n in m..=99 {
            let m_hex = 16 * (m / 10) + (m % 10);
            let n_hex = 16 * (n / 10) + (n % 10);
            println!("{}, {}", m, n);

            reg.write_reg16(&Reg16::AF, 0);
            reg.write_reg8(&Reg8::A, n_hex);
            let i = Inst::Sub(Arg8::Reg(Reg8::A), Arg8::Immed(m_hex));
            let (_m, _flags2) = reg.execute(i, &mut mem, &mut ime).unwrap();
            println!("{:?}", reg);

            let i = Inst::Daa;
            let (_m, _flags2) = reg.execute(i, &mut mem, &mut ime).unwrap();
            println!("{:?}", reg);

            let ans = n - m;
            let ans_hex = if ans >= 100 {
                let ans = ans - 100;
                16 * (ans / 10) + (ans % 10)
            } else {
                16 * (ans / 10) + (ans % 10)
            };
            let z_des = ans_hex == 0;
            let c_des = ans >= 100;

            assert_eq!(ans_hex, reg.read_reg8(&Reg8::A));
            assert_eq!(z_des, reg.test_f(FlagReg::Z));
            assert_eq!(false, reg.test_f(FlagReg::H));
            assert_eq!(c_des, reg.test_f(FlagReg::C));
        }
    }
}

#[test]
fn cpl() {
    let mut reg = Registers::new();
    let mut mem = FlatMemory::new();
    let mut ime = false;

    reg.write_reg8(&Reg8::A, 0xf0);
    let i = Inst::Cpl;
    let (m, _flags) = reg.execute(i, &mut mem, &mut ime).unwrap();
    assert_eq!(1, m);
    assert_eq!(0x0f, reg.read_reg8(&Reg8::A));
    assert_eq!(false, reg.test_f(FlagReg::Z));
    assert_eq!(true, reg.test_f(FlagReg::N));
    assert_eq!(true, reg.test_f(FlagReg::H));
    assert_eq!(false, reg.test_f(FlagReg::C));
}

#[test]
fn add_hl_rr() {
    let mut reg = Registers::new();
    let mut mem = FlatMemory::new();
    let mut ime = false;

    reg.write_reg16(&Reg16::HL, 0xffff);
    reg.write_reg16(&Reg16::BC, 0x0001);
    let i = Inst::Add16(Arg16::Reg(Reg16::HL), Arg16::Reg(Reg16::BC));
    let (m, _flags) = reg.execute(i, &mut mem, &mut ime).unwrap();
    assert_eq!(2, m);
    assert_eq!(0x0000, reg.read_reg16(&Reg16::HL));
    assert_eq!(false, reg.test_f(FlagReg::Z));
    assert_eq!(false, reg.test_f(FlagReg::N));
    assert_eq!(true, reg.test_f(FlagReg::H));
    assert_eq!(true, reg.test_f(FlagReg::C));
}

#[test]
fn inc_rr() {
    let mut reg = Registers::new();
    let mut mem = FlatMemory::new();
    let mut ime = false;

    reg.write_reg16(&Reg16::DE, 0x000f);
    let i = Inst::Inc16(Arg16::Reg(Reg16::DE));
    let (m, _flags) = reg.execute(i, &mut mem, &mut ime).unwrap();
    assert_eq!(2, m);
    assert_eq!(0x0010, reg.read_reg16(&Reg16::DE));
}

#[test]
fn add_sp_dd() {
    let mut reg = Registers::new();
    let mut mem = FlatMemory::new();
    let mut ime = false;

    reg.write_reg16(&Reg16::SP, 0x0100);
    let i = Inst::Add16SP(-1);
    let (m, _flags) = reg.execute(i, &mut mem, &mut ime).unwrap();
    assert_eq!(4, m);
    assert_eq!(0x00ff, reg.read_reg16(&Reg16::SP));
}

#[test]
fn ld_hl_sp_dd() {
    let mut reg = Registers::new();
    let mut mem = FlatMemory::new();
    let mut ime = false;

    reg.write_reg16(&Reg16::HL, 0x0000);
    reg.write_reg16(&Reg16::SP, 0x0100);
    let i = Inst::Ld16HLSP(-1);
    let (m, _flags) = reg.execute(i, &mut mem, &mut ime).unwrap();
    assert_eq!(3, m);
    assert_eq!(0x00ff, reg.read_reg16(&Reg16::HL));
}

#[test]
fn rlca() {
    let mut reg = Registers::new();
    let mut mem = FlatMemory::new();
    let mut ime = false;

    reg.write_reg8(&Reg8::A, 0b10011001);
    let i = Inst::Rlca;
    let (m, _flags) = reg.execute(i, &mut mem, &mut ime).unwrap();
    assert_eq!(1, m);
    assert_eq!(0b00110011, reg.read_reg8(&Reg8::A));
    assert_eq!(false, reg.test_f(FlagReg::Z));
    assert_eq!(false, reg.test_f(FlagReg::N));
    assert_eq!(false, reg.test_f(FlagReg::H));
    assert_eq!(true, reg.test_f(FlagReg::C));
}

#[test]
fn rla() {
    let mut reg = Registers::new();
    let mut mem = FlatMemory::new();
    let mut ime = false;

    reg.write_reg8(&Reg8::A, 0b00011001);
    reg.set_f(FlagReg::C);
    let i = Inst::Rla;
    let (m, _flags) = reg.execute(i, &mut mem, &mut ime).unwrap();
    assert_eq!(1, m);
    assert_eq!(0b00110011, reg.read_reg8(&Reg8::A));
    assert_eq!(false, reg.test_f(FlagReg::Z));
    assert_eq!(false, reg.test_f(FlagReg::N));
    assert_eq!(false, reg.test_f(FlagReg::H));
    assert_eq!(false, reg.test_f(FlagReg::C));
}

#[test]
fn rrca() {
    let mut reg = Registers::new();
    let mut mem = FlatMemory::new();
    let mut ime = false;

    reg.write_reg8(&Reg8::A, 0b10011001);
    let i = Inst::Rrca;
    let (m, _flags) = reg.execute(i, &mut mem, &mut ime).unwrap();
    assert_eq!(1, m);
    assert_eq!(0b11001100, reg.read_reg8(&Reg8::A));
    assert_eq!(false, reg.test_f(FlagReg::Z));
    assert_eq!(false, reg.test_f(FlagReg::N));
    assert_eq!(false, reg.test_f(FlagReg::H));
    assert_eq!(true, reg.test_f(FlagReg::C));
}

#[test]
fn rra() {
    let mut reg = Registers::new();
    let mut mem = FlatMemory::new();
    let mut ime = false;

    reg.write_reg8(&Reg8::A, 0b10011000);
    reg.set_f(FlagReg::C);
    let i = Inst::Rra;
    let (m, _flags) = reg.execute(i, &mut mem, &mut ime).unwrap();
    assert_eq!(1, m);
    assert_eq!(0b11001100, reg.read_reg8(&Reg8::A));
    assert_eq!(false, reg.test_f(FlagReg::Z));
    assert_eq!(false, reg.test_f(FlagReg::N));
    assert_eq!(false, reg.test_f(FlagReg::H));
    assert_eq!(false, reg.test_f(FlagReg::C));
}

#[test]
fn rlc_r() {
    let mut reg = Registers::new();
    let mut mem = FlatMemory::new();
    let mut ime = false;

    reg.write_reg8(&Reg8::A, 0b10000000);
    let i = Inst::Rlc(Arg8::Reg(Reg8::A));
    let (m, _flags) = reg.execute(i, &mut mem, &mut ime).unwrap();
    assert_eq!(2, m);
    assert_eq!(0b00000001, reg.read_reg8(&Reg8::A));
    assert_eq!(false, reg.test_f(FlagReg::Z));
    assert_eq!(false, reg.test_f(FlagReg::N));
    assert_eq!(false, reg.test_f(FlagReg::H));
    assert_eq!(true, reg.test_f(FlagReg::C));
}

#[test]
fn rl_r() {
    let mut reg = Registers::new();
    let mut mem = FlatMemory::new();
    let mut ime = false;

    reg.write_reg16(&Reg16::HL, 0x100);
    mem.write_byte(0x100, 0b10000000);
    let i = Inst::Rl(Arg8::IndReg(Reg16::HL));
    let (m, _flags) = reg.execute(i, &mut mem, &mut ime).unwrap();
    assert_eq!(4, m);
    assert_eq!(0b00000000, mem.read_byte(0x100));
    assert_eq!(true, reg.test_f(FlagReg::Z));
    assert_eq!(false, reg.test_f(FlagReg::N));
    assert_eq!(false, reg.test_f(FlagReg::H));
    assert_eq!(true, reg.test_f(FlagReg::C));

    // ---
    let mut reg = Registers::new();
    let mut mem = FlatMemory::new();
    let mut ime = false;
    reg.set_f(FlagReg::C);

    reg.write_reg16(&Reg16::HL, 0x100);
    mem.write_byte(0x100, 0b00000000);
    let i = Inst::Rl(Arg8::IndReg(Reg16::HL));
    let (m, _flags) = reg.execute(i, &mut mem, &mut ime).unwrap();
    assert_eq!(4, m);
    assert_eq!(0b00000001, mem.read_byte(0x100));
    assert_eq!(false, reg.test_f(FlagReg::Z));
    assert_eq!(false, reg.test_f(FlagReg::N));
    assert_eq!(false, reg.test_f(FlagReg::H));
    assert_eq!(false, reg.test_f(FlagReg::C));
}

#[test]
fn rrc_r() {
    let mut reg = Registers::new();
    let mut mem = FlatMemory::new();
    let mut ime = false;

    reg.write_reg8(&Reg8::B, 0b00000001);
    let i = Inst::Rrc(Arg8::Reg(Reg8::B));
    let (m, _flags) = reg.execute(i, &mut mem, &mut ime).unwrap();
    assert_eq!(2, m);
    assert_eq!(0b10000000, reg.read_reg8(&Reg8::B));
    assert_eq!(false, reg.test_f(FlagReg::Z));
    assert_eq!(false, reg.test_f(FlagReg::N));
    assert_eq!(false, reg.test_f(FlagReg::H));
    assert_eq!(true, reg.test_f(FlagReg::C));
}

#[test]
fn rr_r() {
    let mut reg = Registers::new();
    let mut mem = FlatMemory::new();
    let mut ime = false;

    reg.write_reg16(&Reg16::HL, 0x100);
    mem.write_byte(0x100, 0b00000001);
    let i = Inst::Rr(Arg8::IndReg(Reg16::HL));
    let (m, _flags) = reg.execute(i, &mut mem, &mut ime).unwrap();
    assert_eq!(4, m);
    assert_eq!(0b00000000, mem.read_byte(0x100));
    assert_eq!(true, reg.test_f(FlagReg::Z));
    assert_eq!(false, reg.test_f(FlagReg::N));
    assert_eq!(false, reg.test_f(FlagReg::H));
    assert_eq!(true, reg.test_f(FlagReg::C));

    // ---
    let mut reg = Registers::new();
    let mut mem = FlatMemory::new();
    let mut ime = false;
    reg.set_f(FlagReg::C);

    reg.write_reg16(&Reg16::HL, 0x100);
    mem.write_byte(0x100, 0b00000000);
    let i = Inst::Rr(Arg8::IndReg(Reg16::HL));
    let (m, _flags) = reg.execute(i, &mut mem, &mut ime).unwrap();
    assert_eq!(4, m);
    assert_eq!(0b10000000, mem.read_byte(0x100));
    assert_eq!(false, reg.test_f(FlagReg::Z));
    assert_eq!(false, reg.test_f(FlagReg::N));
    assert_eq!(false, reg.test_f(FlagReg::H));
    assert_eq!(false, reg.test_f(FlagReg::C));
}

#[test]
fn sla_r() {
    let mut reg = Registers::new();
    let mut mem = FlatMemory::new();
    let mut ime = false;

    reg.write_reg8(&Reg8::C, 0b10011001);
    let i = Inst::Sla(Arg8::Reg(Reg8::C));
    let (m, _flags) = reg.execute(i, &mut mem, &mut ime).unwrap();
    assert_eq!(2, m);
    assert_eq!(0b00110010, reg.read_reg8(&Reg8::C));
    assert_eq!(false, reg.test_f(FlagReg::Z));
    assert_eq!(false, reg.test_f(FlagReg::N));
    assert_eq!(false, reg.test_f(FlagReg::H));
    assert_eq!(true, reg.test_f(FlagReg::C));
}

#[test]
fn swap_r() {
    let mut reg = Registers::new();
    let mut mem = FlatMemory::new();
    let mut ime = false;

    reg.write_reg16(&Reg16::HL, 0x100);
    mem.write_byte(0x100, 0b10100101);
    let i = Inst::Swap(Arg8::IndReg(Reg16::HL));
    let (m, _flags) = reg.execute(i, &mut mem, &mut ime).unwrap();
    assert_eq!(4, m);
    assert_eq!(0b01011010, mem.read_byte(0x100));
    assert_eq!(false, reg.test_f(FlagReg::Z));
    assert_eq!(false, reg.test_f(FlagReg::N));
    assert_eq!(false, reg.test_f(FlagReg::H));
    assert_eq!(false, reg.test_f(FlagReg::C));
}

#[test]
fn sra_r() {
    let mut reg = Registers::new();
    let mut mem = FlatMemory::new();
    let mut ime = false;

    reg.write_reg16(&Reg16::HL, 0x100);
    mem.write_byte(0x100, 0b10011001);
    let i = Inst::Sra(Arg8::IndReg(Reg16::HL));
    let (m, _flags) = reg.execute(i, &mut mem, &mut ime).unwrap();
    assert_eq!(4, m);
    assert_eq!(0b11001100, mem.read_byte(0x100));
    assert_eq!(false, reg.test_f(FlagReg::Z));
    assert_eq!(false, reg.test_f(FlagReg::N));
    assert_eq!(false, reg.test_f(FlagReg::H));
    assert_eq!(true, reg.test_f(FlagReg::C));
}

#[test]
fn srl_r() {
    let mut reg = Registers::new();
    let mut mem = FlatMemory::new();
    let mut ime = false;

    reg.write_reg8(&Reg8::D, 0b10011001);
    let i = Inst::Srl(Arg8::Reg(Reg8::D));
    let (m, _flags) = reg.execute(i, &mut mem, &mut ime).unwrap();
    assert_eq!(2, m);
    assert_eq!(0b01001100, reg.read_reg8(&Reg8::D));
    assert_eq!(false, reg.test_f(FlagReg::Z));
    assert_eq!(false, reg.test_f(FlagReg::N));
    assert_eq!(false, reg.test_f(FlagReg::H));
    assert_eq!(true, reg.test_f(FlagReg::C));
}

#[test]
fn bit() {
    let mut reg = Registers::new();
    let mut mem = FlatMemory::new();
    let mut ime = false;

    reg.write_reg8(&Reg8::A, 0b00100000);
    let i = Inst::Bit(5, Arg8::Reg(Reg8::A));
    let (m, _flags) = reg.execute(i, &mut mem, &mut ime).unwrap();
    assert_eq!(2, m);
    assert_eq!(0b00100000, reg.read_reg8(&Reg8::A));
    assert_eq!(false, reg.test_f(FlagReg::Z));
    assert_eq!(false, reg.test_f(FlagReg::N));
    assert_eq!(true, reg.test_f(FlagReg::H));

    let i = Inst::Bit(4, Arg8::Reg(Reg8::A));
    let _ = reg.execute(i, &mut mem, &mut ime).unwrap();
    assert_eq!(true, reg.test_f(FlagReg::Z));
    assert_eq!(false, reg.test_f(FlagReg::N));
    assert_eq!(true, reg.test_f(FlagReg::H));
}

#[test]
fn set() {
    let mut reg = Registers::new();
    let mut mem = FlatMemory::new();
    let mut ime = false;

    reg.write_reg16(&Reg16::HL, 0x100);
    mem.write_byte(0x100, 0x00);
    let i = Inst::SetBit(3, Arg8::IndReg(Reg16::HL));
    let (m, _flags) = reg.execute(i, &mut mem, &mut ime).unwrap();
    assert_eq!(4, m);
    assert_eq!(0b00001000, mem.read_byte(0x100));
}

#[test]
fn res() {
    let mut reg = Registers::new();
    let mut mem = FlatMemory::new();
    let mut ime = false;

    reg.write_reg8(&Reg8::B, 0xff);
    let i = Inst::Res(2, Arg8::Reg(Reg8::B));
    let (m, _flags) = reg.execute(i, &mut mem, &mut ime).unwrap();
    assert_eq!(2, m);
    assert_eq!(0b11111011, reg.read_reg8(&Reg8::B));
}

#[test]
fn ccf() {
    let mut reg = Registers::new();
    let mut mem = FlatMemory::new();
    let mut ime = false;

    reg.set_f(FlagReg::C);
    let i = Inst::Ccf;
    let (m, _flags) = reg.execute(i, &mut mem, &mut ime).unwrap();
    assert_eq!(1, m);
    assert_eq!(false, reg.test_f(FlagReg::N));
    assert_eq!(false, reg.test_f(FlagReg::H));
    assert_eq!(false, reg.test_f(FlagReg::C));
    let i = Inst::Ccf;
    let _ = reg.execute(i, &mut mem, &mut ime).unwrap();
    assert_eq!(true, reg.test_f(FlagReg::C));
}

#[test]
fn scf() {
    let mut reg = Registers::new();
    let mut mem = FlatMemory::new();
    let mut ime = false;

    let i = Inst::Scf;
    let (m, _flags) = reg.execute(i, &mut mem, &mut ime).unwrap();
    assert_eq!(1, m);
    assert_eq!(false, reg.test_f(FlagReg::N));
    assert_eq!(false, reg.test_f(FlagReg::H));
    assert_eq!(true, reg.test_f(FlagReg::C));
}

#[test]
fn di() {
    let mut reg = Registers::new();
    let mut mem = FlatMemory::new();
    let mut ime = true;

    let i = Inst::Di;
    let (m, _flags) = reg.execute(i, &mut mem, &mut ime).unwrap();
    assert_eq!(1, m);
    assert_eq!(false, ime);
}

#[test]
fn ei() {
    let mut reg = Registers::new();
    let mut mem = FlatMemory::new();
    let mut ime = false;

    let i = Inst::Ei;
    let (m, _flags) = reg.execute(i, &mut mem, &mut ime).unwrap();
    assert_eq!(1, m);
    assert_eq!(true, ime);
}

#[test]
fn jp_nn() {
    let mut reg = Registers::new();
    let mut mem = FlatMemory::new();
    let mut ime = false;

    let i = Inst::Jp(0x200);
    let (m, _flags) = reg.execute(i, &mut mem, &mut ime).unwrap();
    assert_eq!(4, m);
    assert_eq!(0x200, reg.read_reg16(&Reg16::PC));
}

#[test]
fn jp_hl() {
    let mut reg = Registers::new();
    let mut mem = FlatMemory::new();
    let mut ime = false;

    reg.write_reg16(&Reg16::HL, 0x200);
    let i = Inst::JpHL;
    let (m, _flags) = reg.execute(i, &mut mem, &mut ime).unwrap();
    assert_eq!(1, m);
    assert_eq!(0x200, reg.read_reg16(&Reg16::PC));
}

#[test]
fn jp_f_nn() {
    let mut reg = Registers::new();
    let mut mem = FlatMemory::new();
    let mut ime = false;

    reg.write_reg16(&Reg16::PC, 0x0);

    let i = Inst::Jpf(JpFlag::Z, 0x200);
    let (m, _flags) = reg.execute(i, &mut mem, &mut ime).unwrap();
    assert_eq!(3, m);
    assert_eq!(0x0, reg.read_reg16(&Reg16::PC));

    reg.set_f(FlagReg::Z);
    let i = Inst::Jpf(JpFlag::Z, 0x200);
    let (m, _flags) = reg.execute(i, &mut mem, &mut ime).unwrap();
    assert_eq!(4, m);
    assert_eq!(0x200, reg.read_reg16(&Reg16::PC));
}

#[test]
fn jr_dd() {
    let mut reg = Registers::new();
    let mut mem = FlatMemory::new();
    let mut ime = false;

    reg.write_reg16(&Reg16::PC, 0x200);
    let i = Inst::Jr(-1);
    let (m, _flags) = reg.execute(i, &mut mem, &mut ime).unwrap();
    assert_eq!(3, m);
    assert_eq!(0x1ff, reg.read_reg16(&Reg16::PC));
}

#[test]
fn jr_f_dd() {
    let mut reg = Registers::new();
    let mut mem = FlatMemory::new();
    let mut ime = false;

    reg.write_reg16(&Reg16::PC, 0x200);
    reg.set_f(FlagReg::C);
    let i = Inst::Jrf(JpFlag::Nc, -1);
    let (m, _flags) = reg.execute(i, &mut mem, &mut ime).unwrap();
    assert_eq!(2, m);
    assert_eq!(0x200, reg.read_reg16(&Reg16::PC));

    reg.clear_f(FlagReg::C);
    let i = Inst::Jrf(JpFlag::Nc, -1);
    let (m, _flags) = reg.execute(i, &mut mem, &mut ime).unwrap();
    assert_eq!(3, m);
    assert_eq!(0x1ff, reg.read_reg16(&Reg16::PC));
}

#[test]
fn call_nn() {
    let mut reg = Registers::new();
    let mut mem = FlatMemory::new();
    let mut ime = false;

    reg.write_reg16(&Reg16::PC, 0x200);
    reg.write_reg16(&Reg16::SP, 0x1000);
    let i = Inst::Call(0x100);
    let (m, _flags) = reg.execute(i, &mut mem, &mut ime).unwrap();
    assert_eq!(6, m);
    assert_eq!(0x100, reg.read_reg16(&Reg16::PC));
    assert_eq!(0xffe, reg.read_reg16(&Reg16::SP));
    assert_eq!(0x200, mem.read_word(0xffe));
}

#[test]
fn call_f_nn() {
    let mut reg = Registers::new();
    let mut mem = FlatMemory::new();
    let mut ime = false;

    reg.write_reg16(&Reg16::PC, 0x200);
    reg.write_reg16(&Reg16::SP, 0x1000);
    let i = Inst::Callf(JpFlag::C, 0x100);
    let (m, _flags) = reg.execute(i, &mut mem, &mut ime).unwrap();
    assert_eq!(3, m);
    assert_eq!(0x200, reg.read_reg16(&Reg16::PC));
    assert_eq!(0x1000, reg.read_reg16(&Reg16::SP));

    reg.set_f(FlagReg::C);
    let i = Inst::Callf(JpFlag::C, 0x100);
    let (m, _flags) = reg.execute(i, &mut mem, &mut ime).unwrap();
    assert_eq!(6, m);
    assert_eq!(0x100, reg.read_reg16(&Reg16::PC));
    assert_eq!(0xffe, reg.read_reg16(&Reg16::SP));
    assert_eq!(0x200, mem.read_word(0xffe));
}

#[test]
fn ret() {
    let mut reg = Registers::new();
    let mut mem = FlatMemory::new();
    let mut ime = false;

    reg.write_reg16(&Reg16::SP, 0x1000);
    mem.write_word(0x1000, 0x100);
    let i = Inst::Ret;
    let (m, _flags) = reg.execute(i, &mut mem, &mut ime).unwrap();
    assert_eq!(4, m);
    assert_eq!(0x100, reg.read_reg16(&Reg16::PC));
    assert_eq!(0x1002, reg.read_reg16(&Reg16::SP));
}

#[test]
fn ret_f() {
    let mut reg = Registers::new();
    let mut mem = FlatMemory::new();
    let mut ime = false;

    reg.write_reg16(&Reg16::PC, 0x200);
    reg.write_reg16(&Reg16::SP, 0x1000);
    mem.write_word(0x1000, 0x100);
    reg.set_f(FlagReg::C);
    let i = Inst::Retf(JpFlag::Nc);
    let (m, _flags) = reg.execute(i, &mut mem, &mut ime).unwrap();
    assert_eq!(2, m);
    assert_eq!(0x200, reg.read_reg16(&Reg16::PC));
    assert_eq!(0x1000, reg.read_reg16(&Reg16::SP));

    reg.clear_f(FlagReg::C);
    let i = Inst::Retf(JpFlag::Nc);
    let (m, _flags) = reg.execute(i, &mut mem, &mut ime).unwrap();
    assert_eq!(5, m);
    assert_eq!(0x100, reg.read_reg16(&Reg16::PC));
    assert_eq!(0x1002, reg.read_reg16(&Reg16::SP));
}

#[test]
fn reti() {
    let mut reg = Registers::new();
    let mut mem = FlatMemory::new();
    let mut ime = false;

    reg.write_reg16(&Reg16::SP, 0x1000);
    mem.write_word(0x1000, 0x100);
    let i = Inst::Reti;
    let (m, _flags) = reg.execute(i, &mut mem, &mut ime).unwrap();
    assert_eq!(4, m);
    assert_eq!(0x100, reg.read_reg16(&Reg16::PC));
    assert_eq!(0x1002, reg.read_reg16(&Reg16::SP));
    assert_eq!(true, ime);
}

#[test]
fn rst_n() {
    let mut reg = Registers::new();
    let mut mem = FlatMemory::new();
    let mut ime = false;

    reg.write_reg16(&Reg16::PC, 0x200);
    reg.write_reg16(&Reg16::SP, 0x1000);
    let i = Inst::Rst(0x38);
    let (m, _flags) = reg.execute(i, &mut mem, &mut ime).unwrap();
    assert_eq!(4, m);
    assert_eq!(0x38, reg.read_reg16(&Reg16::PC));
    assert_eq!(0xffe, reg.read_reg16(&Reg16::SP));
    assert_eq!(0x200, mem.read_word(0xffe));
}
