//! The execution engine: it interprets one decoded instruction against the
//! register file and memory, returning the elapsed machine-cycle cost, and
//! is specified against the step model `step_spec` below.

use vstd::prelude::*;

use super::inst::Arg16;
use super::inst::Arg8;
use super::inst::FlagReg;
use super::inst::Inst;
use super::inst::JpFlag;
use super::inst::Reg16;
use super::inst::Reg8;
use super::lemma_flags_value;
use super::Flags;
use super::GbError;
use super::Registers;
use crate::bits;
use crate::memory::word_of;
use crate::memory::MemoryIF;

verus! {

/// The outcome of one instruction: the new register file, memory contents,
/// interrupt-master-enable bit, execution flags, and the machine-cycle cost.
pub struct Step {
    pub regs: Registers,
    pub mem: Seq<u8>,
    pub ime: bool,
    pub flags: Flags,
    pub cost: usize,
}

/// One as an integer for a set bit, zero for a clear one.
pub open spec fn b01(b: bool) -> int {
    if b {
        1
    } else {
        0
    }
}

/// Neither halted nor stopped.
pub open spec fn no_flags() -> Flags {
    Flags { halt: false, stop: false }
}

/// The value and cycle cost of an arithmetic operand: a register, an
/// immediate, or the byte at (HL); any other form has no defined meaning.
pub open spec fn alu_operand(regs: Registers, x: Arg8, mem: Seq<u8>) -> Option<(u8, usize)> {
    match x {
        Arg8::Reg(r) => Some((regs.spec_reg8(r), 1)),
        Arg8::Immed(n) => Some((n, 2)),
        Arg8::IndReg(Reg16::HL) => Some(
            (mem[regs.spec_reg16(Reg16::HL) as int], 2),
        ),
        _ => None,
    }
}

/// The value of a read-modify-write operand: a register or the byte at (HL).
pub open spec fn unary_operand(regs: Registers, x: Arg8, mem: Seq<u8>) -> Option<u8> {
    match x {
        Arg8::Reg(r) => Some(regs.spec_reg8(r)),
        Arg8::IndReg(Reg16::HL) => Some(mem[regs.spec_reg16(Reg16::HL) as int]),
        _ => None,
    }
}

/// Store the result of a read-modify-write operand back to its place.
pub open spec fn unary_store(regs: Registers, x: Arg8, mem: Seq<u8>, v: u8) -> (Registers, Seq<
    u8,
>) {
    match x {
        Arg8::Reg(r) => (regs.spec_set_reg8(r, v), mem),
        _ => (regs, mem.update(regs.spec_reg16(Reg16::HL) as int, v)),
    }
}

/// Whether the predicate of a conditional jump, call or return holds.
pub open spec fn cond_spec(regs: Registers, f: JpFlag) -> bool {
    match f {
        JpFlag::Nz => !regs.flag_z(),
        JpFlag::Z => regs.flag_z(),
        JpFlag::Nc => !regs.flag_c(),
        JpFlag::C => regs.flag_c(),
    }
}

/// A program counter moved by a signed displacement, wrapping around the
/// 16-bit address space.
pub open spec fn plus_dd(pc: u16, dd: i8) -> u16 {
    ((pc + dd + 0x10000) % 0x10000) as u16
}

/// Addition into the accumulator: Zero from the result, Subtraction cleared,
/// Half-carry out of bit 3 and Carry out of bit 7, the carry-in included.
pub open spec fn spec_add_a(regs: Registers, v: u8, cin: bool) -> Registers {
    let c01 = b01(cin);
    let ans = ((regs.a + v + c01) % 256) as u8;
    regs.spec_set_reg8(Reg8::A, ans).with_flags(
        ans == 0,
        false,
        regs.a % 16 + v % 16 + c01 > 15,
        regs.a + v + c01 > 255,
    )
}

/// The flags of a subtraction: Zero from the final result, Subtraction set,
/// Half-carry and Carry from the borrow chain, the borrow-in included.
pub open spec fn spec_sub_flags(regs: Registers, v: u8, cin: bool) -> Registers {
    let c01 = b01(cin);
    let ans1 = ((regs.a - v + 256) % 256) as u8;
    let ans2 = ((ans1 - c01 + 256) % 256) as u8;
    regs.with_flags(
        ans2 == 0,
        true,
        regs.a % 16 < v % 16 || ans1 % 16 < c01,
        regs.a < v || ans1 < c01,
    )
}

/// Subtraction from the accumulator: the flags of `spec_sub_flags` with the
/// result written back to A.
pub open spec fn spec_sub_a(regs: Registers, v: u8, cin: bool) -> Registers {
    let c01 = b01(cin);
    let ans1 = ((regs.a - v + 256) % 256) as u8;
    let ans2 = ((ans1 - c01 + 256) % 256) as u8;
    spec_sub_flags(regs, v, cin).spec_set_reg8(Reg8::A, ans2)
}

/// Bitwise and into the accumulator: Half-carry forced on, Carry off.
pub open spec fn spec_and_a(regs: Registers, v: u8) -> Registers {
    let ans = regs.a & v;
    regs.spec_set_reg8(Reg8::A, ans).with_flags(ans == 0, false, true, false)
}

/// Bitwise exclusive or into the accumulator: Half-carry and Carry off.
pub open spec fn spec_xor_a(regs: Registers, v: u8) -> Registers {
    let ans = regs.a ^ v;
    regs.spec_set_reg8(Reg8::A, ans).with_flags(ans == 0, false, false, false)
}

/// Bitwise or into the accumulator: Half-carry and Carry off.
pub open spec fn spec_or_a(regs: Registers, v: u8) -> Registers {
    let ans = regs.a | v;
    regs.spec_set_reg8(Reg8::A, ans).with_flags(ans == 0, false, false, false)
}

/// An incremented operand value with its flags: Carry is left untouched.
pub open spec fn spec_inc_val(regs: Registers, v: u8) -> (Registers, u8) {
    let ans = ((v + 1) % 256) as u8;
    (regs.with_flags(ans == 0, false, v % 16 + 1 > 15, regs.flag_c()), ans)
}

/// A decremented operand value with its flags: Carry is left untouched.
pub open spec fn spec_dec_val(regs: Registers, v: u8) -> (Registers, u8) {
    let ans = ((v - 1 + 256) % 256) as u8;
    (regs.with_flags(ans == 0, true, v % 16 < 1, regs.flag_c()), ans)
}

/// Binary-coded-decimal correction of the accumulator, conditioned on the
/// Subtraction, Half-carry and Carry flags left by the preceding operation:
/// Half-carry is cleared, Zero recomputed, Subtraction left untouched.
pub open spec fn spec_daa(regs: Registers) -> Registers {
    let a = regs.a;
    if regs.flag_n() {
        let a1 = if regs.flag_c() {
            ((a - 0x60 + 256) % 256) as u8
        } else {
            a
        };
        let a2 = if regs.flag_h() {
            ((a1 - 0x6 + 256) % 256) as u8
        } else {
            a1
        };
        regs.spec_set_reg8(Reg8::A, a2).with_flags(a2 == 0, regs.flag_n(), false, regs.flag_c())
    } else {
        let carry = a > 0x99 || regs.flag_c();
        let a1 = if carry {
            ((a + 0x60) % 256) as u8
        } else {
            a
        };
        let a2 = if a1 % 16 > 0x09 || regs.flag_h() {
            ((a1 + 0x6) % 256) as u8
        } else {
            a1
        };
        regs.spec_set_reg8(Reg8::A, a2).with_flags(a2 == 0, regs.flag_n(), false, carry)
    }
}

/// Rotate left: bit 7 becomes both the new bit 0 and the Carry.
pub open spec fn spec_rlc_val(v: u8) -> (u8, bool) {
    ((((2 * v) % 256) + b01(v >= 128)) as u8, v >= 128)
}

/// Rotate left through Carry: the old Carry becomes bit 0, bit 7 the new
/// Carry.
pub open spec fn spec_rl_val(v: u8, cin: bool) -> (u8, bool) {
    ((((2 * v) % 256) + b01(cin)) as u8, v >= 128)
}

/// Rotate right: bit 0 becomes both the new bit 7 and the Carry.
pub open spec fn spec_rrc_val(v: u8) -> (u8, bool) {
    ((v / 2 + 128 * b01(v % 2 == 1)) as u8, v % 2 == 1)
}

/// Rotate right through Carry: the old Carry becomes bit 7, bit 0 the new
/// Carry.
pub open spec fn spec_rr_val(v: u8, cin: bool) -> (u8, bool) {
    ((v / 2 + 128 * b01(cin)) as u8, v % 2 == 1)
}

/// Shift left arithmetic: bit 7 leaves into the Carry, bit 0 fills with
/// zero.
pub open spec fn spec_sla_val(v: u8) -> (u8, bool) {
    (((2 * v) % 256) as u8, v >= 128)
}

/// Shift right arithmetic: the sign bit is preserved, bit 0 leaves into the
/// Carry.
pub open spec fn spec_sra_val(v: u8) -> (u8, bool) {
    ((v / 2 + 128 * b01(v >= 128)) as u8, v % 2 == 1)
}

/// Shift right logical: bit 7 fills with zero, bit 0 leaves into the Carry.
pub open spec fn spec_srl_val(v: u8) -> (u8, bool) {
    ((v / 2) as u8, v % 2 == 1)
}

/// Exchange the two nibbles of a byte.
pub open spec fn spec_swap_val(v: u8) -> u8 {
    (16 * (v % 16) + v / 16) as u8
}

/// The step taken by one instruction from the given register file, memory
/// contents and interrupt-master-enable bit, or nothing when the operand
/// combination has no defined semantics.
pub open spec fn step_spec(regs: Registers, inst: Inst, mem: Seq<u8>, ime: bool) -> Option<Step> {
    let hl = regs.spec_reg16(Reg16::HL);
    let sp = regs.sp;
    let pc = regs.pc;
    match inst {
        Inst::Ld8(dest, src) => spec_ld8(regs, dest, src, mem, ime),
        Inst::Ld16(dest, src) => spec_ld16(regs, dest, src, mem, ime),
        Inst::Push16(rr) => {
            let regs1 = regs.spec_set_reg16(Reg16::SP, (sp - 2) as u16);
            let v = regs1.spec_reg16(rr);
            Some(Step {
                regs: regs1,
                mem: mem.update(sp - 2, (v % 256) as u8).update(sp - 1, (v / 256) as u8),
                ime,
                flags: no_flags(),
                cost: 4,
            })
        }
        Inst::Pop16(rr) => {
            let v = word_of(mem, sp);
            Some(Step {
                regs: regs.spec_set_reg16(rr, v).spec_set_reg16(Reg16::SP, (sp + 2) as u16),
                mem,
                ime,
                flags: no_flags(),
                cost: 3,
            })
        }
        Inst::Add(Arg8::Reg(Reg8::A), x) => match alu_operand(regs, x, mem) {
            Some((v, m)) => Some(Step {
                regs: spec_add_a(regs, v, false),
                mem,
                ime,
                flags: no_flags(),
                cost: m,
            }),
            None => None,
        },
        Inst::Adc(Arg8::Reg(Reg8::A), x) => match alu_operand(regs, x, mem) {
            Some((v, m)) => Some(Step {
                regs: spec_add_a(regs, v, regs.flag_c()),
                mem,
                ime,
                flags: no_flags(),
                cost: m,
            }),
            None => None,
        },
        Inst::Sub(Arg8::Reg(Reg8::A), x) => match alu_operand(regs, x, mem) {
            Some((v, m)) => Some(Step {
                regs: spec_sub_a(regs, v, false),
                mem,
                ime,
                flags: no_flags(),
                cost: m,
            }),
            None => None,
        },
        Inst::Sbc(Arg8::Reg(Reg8::A), x) => match alu_operand(regs, x, mem) {
            Some((v, m)) => Some(Step {
                regs: spec_sub_a(regs, v, regs.flag_c()),
                mem,
                ime,
                flags: no_flags(),
                cost: m,
            }),
            None => None,
        },
        Inst::And(Arg8::Reg(Reg8::A), x) => match alu_operand(regs, x, mem) {
            Some((v, m)) => Some(Step {
                regs: spec_and_a(regs, v),
                mem,
                ime,
                flags: no_flags(),
                cost: m,
            }),
            None => None,
        },
        Inst::Xor(Arg8::Reg(Reg8::A), x) => match alu_operand(regs, x, mem) {
            Some((v, m)) => Some(Step {
                regs: spec_xor_a(regs, v),
                mem,
                ime,
                flags: no_flags(),
                cost: m,
            }),
            None => None,
        },
        Inst::Or(Arg8::Reg(Reg8::A), x) => match alu_operand(regs, x, mem) {
            Some((v, m)) => Some(Step {
                regs: spec_or_a(regs, v),
                mem,
                ime,
                flags: no_flags(),
                cost: m,
            }),
            None => None,
        },
        Inst::Cp(Arg8::Reg(Reg8::A), x) => match alu_operand(regs, x, mem) {
            Some((v, m)) => Some(Step {
                regs: spec_sub_flags(regs, v, false),
                mem,
                ime,
                flags: no_flags(),
                cost: m,
            }),
            None => None,
        },
        Inst::Inc(x) => match unary_operand(regs, x, mem) {
            Some(v) => {
                let (regs1, ans) = spec_inc_val(regs, v);
                let (regs2, mem2) = unary_store(regs1, x, mem, ans);
                Some(Step {
                    regs: regs2,
                    mem: mem2,
                    ime,
                    flags: no_flags(),
                    cost: if x matches Arg8::Reg(_) { 1usize } else { 3usize },
                })
            }
            None => None,
        },
        Inst::Dec(x) => match unary_operand(regs, x, mem) {
            Some(v) => {
                let (regs1, ans) = spec_dec_val(regs, v);
                let (regs2, mem2) = unary_store(regs1, x, mem, ans);
                Some(Step {
                    regs: regs2,
                    mem: mem2,
                    ime,
                    flags: no_flags(),
                    cost: if x matches Arg8::Reg(_) { 1usize } else { 3usize },
                })
            }
            None => None,
        },
        Inst::Daa => Some(Step {
            regs: spec_daa(regs),
            mem,
            ime,
            flags: no_flags(),
            cost: 1,
        }),
        Inst::Cpl => Some(Step {
            regs: regs.spec_set_reg8(Reg8::A, !regs.a).with_flags(
                regs.flag_z(),
                true,
                true,
                regs.flag_c(),
            ),
            mem,
            ime,
            flags: no_flags(),
            cost: 1,
        }),
        Inst::Add16(Arg16::Reg(Reg16::HL), Arg16::Reg(rr)) => {
            let v = regs.spec_reg16(rr);
            let ans = ((hl + v) % 0x10000) as u16;
            Some(Step {
                regs: regs.spec_set_reg16(Reg16::HL, ans).with_flags(
                    regs.flag_z(),
                    false,
                    hl % 0x1000 + v % 0x1000 > 0xfff,
                    hl + v > 0xffff,
                ),
                mem,
                ime,
                flags: no_flags(),
                cost: 2,
            })
        }
        Inst::Inc16(Arg16::Reg(rr)) => Some(Step {
            regs: regs.spec_set_reg16(rr, ((regs.spec_reg16(rr) + 1) % 0x10000) as u16),
            mem,
            ime,
            flags: no_flags(),
            cost: 2,
        }),
        Inst::Dec16(Arg16::Reg(rr)) => Some(Step {
            regs: regs.spec_set_reg16(
                rr,
                ((regs.spec_reg16(rr) - 1 + 0x10000) % 0x10000) as u16,
            ),
            mem,
            ime,
            flags: no_flags(),
            cost: 2,
        }),
        Inst::Add16SP(dd) => Some(Step {
            regs: regs.spec_set_reg16(Reg16::SP, plus_dd(sp, dd)),
            mem,
            ime,
            flags: no_flags(),
            cost: 4,
        }),
        Inst::Ld16HLSP(dd) => Some(Step {
            regs: regs.spec_set_reg16(Reg16::HL, plus_dd(sp, dd)),
            mem,
            ime,
            flags: no_flags(),
            cost: 3,
        }),
        Inst::Rlca => Some(Step {
            regs: spec_rot_a(regs, RotKind::Rlc),
            mem,
            ime,
            flags: no_flags(),
            cost: 1,
        }),
        Inst::Rla => Some(Step {
            regs: spec_rot_a(regs, RotKind::Rl),
            mem,
            ime,
            flags: no_flags(),
            cost: 1,
        }),
        Inst::Rrca => Some(Step {
            regs: spec_rot_a(regs, RotKind::Rrc),
            mem,
            ime,
            flags: no_flags(),
            cost: 1,
        }),
        Inst::Rra => Some(Step {
            regs: spec_rot_a(regs, RotKind::Rr),
            mem,
            ime,
            flags: no_flags(),
            cost: 1,
        }),
        Inst::Rlc(x) => spec_rot_step(regs, x, mem, ime, RotKind::Rlc),
        Inst::Rl(x) => spec_rot_step(regs, x, mem, ime, RotKind::Rl),
        Inst::Rrc(x) => spec_rot_step(regs, x, mem, ime, RotKind::Rrc),
        Inst::Rr(x) => spec_rot_step(regs, x, mem, ime, RotKind::Rr),
        Inst::Sla(x) => spec_rot_step(regs, x, mem, ime, RotKind::Sla),
        Inst::Sra(x) => spec_rot_step(regs, x, mem, ime, RotKind::Sra),
        Inst::Srl(x) => spec_rot_step(regs, x, mem, ime, RotKind::Srl),
        Inst::Swap(x) => match unary_operand(regs, x, mem) {
            Some(v) => {
                let ans = spec_swap_val(v);
                let regs1 = regs.with_flags(ans == 0, false, false, false);
                let (regs2, mem2) = unary_store(regs1, x, mem, ans);
                Some(Step {
                    regs: regs2,
                    mem: mem2,
                    ime,
                    flags: no_flags(),
                    cost: if x matches Arg8::Reg(_) { 2usize } else { 4usize },
                })
            }
            None => None,
        },
        Inst::Bit(n, x) => match unary_operand(regs, x, mem) {
            Some(v) => Some(Step {
                regs: regs.with_flags(v & (1u8 << n) == 0, false, true, regs.flag_c()),
                mem,
                ime,
                flags: no_flags(),
                cost: if x matches Arg8::Reg(_) { 2usize } else { 3usize },
            }),
            None => None,
        },
        Inst::SetBit(n, x) => match unary_operand(regs, x, mem) {
            Some(v) => {
                let (regs2, mem2) = unary_store(regs, x, mem, v | (1u8 << n));
                Some(Step {
                    regs: regs2,
                    mem: mem2,
                    ime,
                    flags: no_flags(),
                    cost: if x matches Arg8::Reg(_) { 2usize } else { 4usize },
                })
            }
            None => None,
        },
        Inst::Res(n, x) => match unary_operand(regs, x, mem) {
            Some(v) => {
                let (regs2, mem2) = unary_store(regs, x, mem, v & !(1u8 << n));
                Some(Step {
                    regs: regs2,
                    mem: mem2,
                    ime,
                    flags: no_flags(),
                    cost: if x matches Arg8::Reg(_) { 2usize } else { 4usize },
                })
            }
            None => None,
        },
        Inst::Ccf => Some(Step {
            regs: regs.with_flags(regs.flag_z(), false, false, !regs.flag_c()),
            mem,
            ime,
            flags: no_flags(),
            cost: 1,
        }),
        Inst::Scf => Some(Step {
            regs: regs.with_flags(regs.flag_z(), false, false, true),
            mem,
            ime,
            flags: no_flags(),
            cost: 1,
        }),
        Inst::Nop => Some(Step { regs, mem, ime, flags: no_flags(), cost: 1 }),
        Inst::Halt => Some(Step {
            regs,
            mem,
            ime,
            flags: Flags { halt: true, stop: false },
            cost: 1,
        }),
        Inst::Stop => Some(Step {
            regs,
            mem,
            ime,
            flags: Flags { halt: false, stop: true },
            cost: 1,
        }),
        Inst::Di => Some(Step { regs, mem, ime: false, flags: no_flags(), cost: 1 }),
        Inst::Ei => Some(Step { regs, mem, ime: true, flags: no_flags(), cost: 1 }),
        Inst::Jp(nn) => Some(Step {
            regs: regs.spec_set_reg16(Reg16::PC, nn),
            mem,
            ime,
            flags: no_flags(),
            cost: 4,
        }),
        Inst::JpHL => Some(Step {
            regs: regs.spec_set_reg16(Reg16::PC, hl),
            mem,
            ime,
            flags: no_flags(),
            cost: 1,
        }),
        Inst::Jpf(f, nn) => {
            if cond_spec(regs, f) {
                Some(Step {
                    regs: regs.spec_set_reg16(Reg16::PC, nn),
                    mem,
                    ime,
                    flags: no_flags(),
                    cost: 4,
                })
            } else {
                Some(Step { regs, mem, ime, flags: no_flags(), cost: 3 })
            }
        }
        Inst::Jr(dd) => Some(Step {
            regs: regs.spec_set_reg16(Reg16::PC, plus_dd(pc, dd)),
            mem,
            ime,
            flags: no_flags(),
            cost: 3,
        }),
        Inst::Jrf(f, dd) => {
            if cond_spec(regs, f) {
                Some(Step {
                    regs: regs.spec_set_reg16(Reg16::PC, plus_dd(pc, dd)),
                    mem,
                    ime,
                    flags: no_flags(),
                    cost: 3,
                })
            } else {
                Some(Step { regs, mem, ime, flags: no_flags(), cost: 2 })
            }
        }
        Inst::Call(nn) => Some(Step {
            regs: regs.spec_set_reg16(Reg16::SP, (sp - 2) as u16).spec_set_reg16(Reg16::PC, nn),
            mem: mem.update(sp - 2, (pc % 256) as u8).update(sp - 1, (pc / 256) as u8),
            ime,
            flags: no_flags(),
            cost: 6,
        }),
        Inst::Callf(f, nn) => {
            if cond_spec(regs, f) {
                Some(Step {
                    regs: regs.spec_set_reg16(Reg16::SP, (sp - 2) as u16).spec_set_reg16(
                        Reg16::PC,
                        nn,
                    ),
                    mem: mem.update(sp - 2, (pc % 256) as u8).update(sp - 1, (pc / 256) as u8),
                    ime,
                    flags: no_flags(),
                    cost: 6,
                })
            } else {
                Some(Step { regs, mem, ime, flags: no_flags(), cost: 3 })
            }
        }
        Inst::Ret => Some(Step {
            regs: regs.spec_set_reg16(Reg16::SP, (sp + 2) as u16).spec_set_reg16(
                Reg16::PC,
                word_of(mem, sp),
            ),
            mem,
            ime,
            flags: no_flags(),
            cost: 4,
        }),
        Inst::Retf(f) => {
            if cond_spec(regs, f) {
                Some(Step {
                    regs: regs.spec_set_reg16(Reg16::SP, (sp + 2) as u16).spec_set_reg16(
                        Reg16::PC,
                        word_of(mem, sp),
                    ),
                    mem,
                    ime,
                    flags: no_flags(),
                    cost: 5,
                })
            } else {
                Some(Step { regs, mem, ime, flags: no_flags(), cost: 2 })
            }
        }
        Inst::Reti => Some(Step {
            regs: regs.spec_set_reg16(Reg16::SP, (sp + 2) as u16).spec_set_reg16(
                Reg16::PC,
                word_of(mem, sp),
            ),
            mem,
            ime: true,
            flags: no_flags(),
            cost: 4,
        }),
        Inst::Rst(n) => Some(Step {
            regs: regs.spec_set_reg16(Reg16::SP, (sp - 2) as u16).spec_set_reg16(
                Reg16::PC,
                n as u16,
            ),
            mem: mem.update(sp - 2, (pc % 256) as u8).update(sp - 1, (pc / 256) as u8),
            ime,
            flags: no_flags(),
            cost: 4,
        }),
        _ => None,
    }
}

/// Which rotate or shift an extended-table operand instruction performs.
pub enum RotKind {
    Rlc,
    Rl,
    Rrc,
    Rr,
    Sla,
    Sra,
    Srl,
}

/// The rotated or shifted value and the bit that leaves into the Carry.
pub open spec fn spec_rot_val(kind: RotKind, v: u8, cin: bool) -> (u8, bool) {
    match kind {
        RotKind::Rlc => spec_rlc_val(v),
        RotKind::Rl => spec_rl_val(v, cin),
        RotKind::Rrc => spec_rrc_val(v),
        RotKind::Rr => spec_rr_val(v, cin),
        RotKind::Sla => spec_sla_val(v),
        RotKind::Sra => spec_sra_val(v),
        RotKind::Srl => spec_srl_val(v),
    }
}

/// One rotate of the accumulator: the short forms recompute Zero from the
/// result and clear Subtraction and Half-carry.
pub open spec fn spec_rot_a(regs: Registers, kind: RotKind) -> Registers {
    let (ans, cy) = spec_rot_val(kind, regs.a, regs.flag_c());
    regs.spec_set_reg8(Reg8::A, ans).with_flags(ans == 0, false, false, cy)
}

/// The step of one rotate or shift from the extended table: all of them
/// clear Subtraction and Half-carry and recompute Zero from the result.
pub open spec fn spec_rot_step(
    regs: Registers,
    x: Arg8,
    mem: Seq<u8>,
    ime: bool,
    kind: RotKind,
) -> Option<Step> {
    match unary_operand(regs, x, mem) {
        Some(v) => {
            let (ans, cy) = spec_rot_val(kind, v, regs.flag_c());
            let regs1 = regs.with_flags(ans == 0, false, false, cy);
            let (regs2, mem2) = unary_store(regs1, x, mem, ans);
            Some(Step {
                regs: regs2,
                mem: mem2,
                ime,
                flags: no_flags(),
                cost: if x matches Arg8::Reg(_) { 2usize } else { 4usize },
            })
        }
        None => None,
    }
}

/// The load of one 8-bit operand into another, over the eighteen defined
/// source and destination pairings.
pub open spec fn spec_ld8(regs: Registers, dest: Arg8, src: Arg8, mem: Seq<u8>, ime: bool) -> Option<
    Step,
> {
    let hl = regs.spec_reg16(Reg16::HL);
    match (dest, src) {
        (Arg8::Reg(rd), Arg8::Reg(rs)) => Some(Step {
            regs: regs.spec_set_reg8(rd, regs.spec_reg8(rs)),
            mem,
            ime,
            flags: no_flags(),
            cost: 1,
        }),
        (Arg8::Reg(rd), Arg8::Immed(n)) => Some(Step {
            regs: regs.spec_set_reg8(rd, n),
            mem,
            ime,
            flags: no_flags(),
            cost: 2,
        }),
        (Arg8::Reg(rd), Arg8::IndReg(Reg16::HL)) => Some(Step {
            regs: regs.spec_set_reg8(rd, mem[hl as int]),
            mem,
            ime,
            flags: no_flags(),
            cost: 2,
        }),
        (Arg8::IndReg(Reg16::HL), Arg8::Reg(rs)) => Some(Step {
            regs,
            mem: mem.update(hl as int, regs.spec_reg8(rs)),
            ime,
            flags: no_flags(),
            cost: 2,
        }),
        (Arg8::IndReg(Reg16::HL), Arg8::Immed(n)) => Some(Step {
            regs,
            mem: mem.update(hl as int, n),
            ime,
            flags: no_flags(),
            cost: 3,
        }),
        (Arg8::Reg(Reg8::A), Arg8::IndReg(Reg16::BC)) => Some(Step {
            regs: regs.spec_set_reg8(Reg8::A, mem[regs.spec_reg16(Reg16::BC) as int]),
            mem,
            ime,
            flags: no_flags(),
            cost: 2,
        }),
        (Arg8::Reg(Reg8::A), Arg8::IndReg(Reg16::DE)) => Some(Step {
            regs: regs.spec_set_reg8(Reg8::A, mem[regs.spec_reg16(Reg16::DE) as int]),
            mem,
            ime,
            flags: no_flags(),
            cost: 2,
        }),
        (Arg8::Reg(Reg8::A), Arg8::Ind(nn)) => Some(Step {
            regs: regs.spec_set_reg8(Reg8::A, mem[nn as int]),
            mem,
            ime,
            flags: no_flags(),
            cost: 4,
        }),
        (Arg8::IndReg(Reg16::BC), Arg8::Reg(Reg8::A)) => Some(Step {
            regs,
            mem: mem.update(regs.spec_reg16(Reg16::BC) as int, regs.a),
            ime,
            flags: no_flags(),
            cost: 2,
        }),
        (Arg8::IndReg(Reg16::DE), Arg8::Reg(Reg8::A)) => Some(Step {
            regs,
            mem: mem.update(regs.spec_reg16(Reg16::DE) as int, regs.a),
            ime,
            flags: no_flags(),
            cost: 2,
        }),
        (Arg8::Ind(nn), Arg8::Reg(Reg8::A)) => Some(Step {
            regs,
            mem: mem.update(nn as int, regs.a),
            ime,
            flags: no_flags(),
            cost: 4,
        }),
        (Arg8::Reg(Reg8::A), Arg8::IndIo(n)) => Some(Step {
            regs: regs.spec_set_reg8(Reg8::A, mem[0xff00 + n]),
            mem,
            ime,
            flags: no_flags(),
            cost: 3,
        }),
        (Arg8::IndIo(n), Arg8::Reg(Reg8::A)) => Some(Step {
            regs,
            mem: mem.update(0xff00 + n, regs.a),
            ime,
            flags: no_flags(),
            cost: 3,
        }),
        (Arg8::Reg(Reg8::A), Arg8::IndIoC) => Some(Step {
            regs: regs.spec_set_reg8(Reg8::A, mem[0xff00 + regs.c]),
            mem,
            ime,
            flags: no_flags(),
            cost: 2,
        }),
        (Arg8::IndIoC, Arg8::Reg(Reg8::A)) => Some(Step {
            regs,
            mem: mem.update(0xff00 + regs.c, regs.a),
            ime,
            flags: no_flags(),
            cost: 2,
        }),
        (Arg8::IndIncHL, Arg8::Reg(Reg8::A)) => Some(Step {
            regs: regs.spec_set_reg16(Reg16::HL, (hl + 1) as u16),
            mem: mem.update(hl as int, regs.a),
            ime,
            flags: no_flags(),
            cost: 2,
        }),
        (Arg8::Reg(Reg8::A), Arg8::IndIncHL) => Some(Step {
            regs: regs.spec_set_reg8(Reg8::A, mem[hl as int]).spec_set_reg16(
                Reg16::HL,
                (hl + 1) as u16,
            ),
            mem,
            ime,
            flags: no_flags(),
            cost: 2,
        }),
        (Arg8::IndDecHL, Arg8::Reg(Reg8::A)) => Some(Step {
            regs: regs.spec_set_reg16(Reg16::HL, (hl - 1) as u16),
            mem: mem.update(hl as int, regs.a),
            ime,
            flags: no_flags(),
            cost: 2,
        }),
        (Arg8::Reg(Reg8::A), Arg8::IndDecHL) => Some(Step {
            regs: regs.spec_set_reg8(Reg8::A, mem[hl as int]).spec_set_reg16(
                Reg16::HL,
                (hl - 1) as u16,
            ),
            mem,
            ime,
            flags: no_flags(),
            cost: 2,
        }),
        _ => None,
    }
}

/// The load of one 16-bit operand into another, over the three defined
/// pairings.
pub open spec fn spec_ld16(
    regs: Registers,
    dest: Arg16,
    src: Arg16,
    mem: Seq<u8>,
    ime: bool,
) -> Option<Step> {
    let sp = regs.sp;
    match (dest, src) {
        (Arg16::Reg(rd), Arg16::Immed(nn)) => Some(Step {
            regs: regs.spec_set_reg16(rd, nn),
            mem,
            ime,
            flags: no_flags(),
            cost: 3,
        }),
        (Arg16::Ind(nn), Arg16::Reg(Reg16::SP)) => Some(Step {
            regs,
            mem: mem.update(nn as int, (sp % 256) as u8).update(nn + 1, (sp / 256) as u8),
            ime,
            flags: no_flags(),
            cost: 5,
        }),
        (Arg16::Reg(Reg16::SP), Arg16::Reg(Reg16::HL)) => Some(Step {
            regs: regs.spec_set_reg16(Reg16::SP, regs.spec_reg16(Reg16::HL)),
            mem,
            ime,
            flags: no_flags(),
            cost: 2,
        }),
        _ => None,
    }
}


/// Reading an arithmetic operand stays inside the defined addresses.
pub open spec fn alu_pre<M: MemoryIF>(regs: Registers, x: Arg8, m: M) -> bool {
    match x {
        Arg8::IndReg(Reg16::HL) => m.readable(regs.spec_reg16(Reg16::HL)),
        _ => true,
    }
}

/// Reading and writing a read-modify-write operand stays inside the defined
/// addresses.
pub open spec fn rmw_pre<M: MemoryIF>(regs: Registers, x: Arg8, m: M) -> bool {
    match x {
        Arg8::IndReg(Reg16::HL) => m.readable(regs.spec_reg16(Reg16::HL)) && m.writable(
            regs.spec_reg16(Reg16::HL),
        ),
        _ => true,
    }
}

/// Two bytes can be pushed: the stack pointer has room to descend and the
/// two cells below it accept writes.
pub open spec fn stack_push_pre<M: MemoryIF>(regs: Registers, m: M) -> bool {
    regs.sp >= 2 && m.writable((regs.sp - 2) as u16) && m.writable((regs.sp - 1) as u16)
}

/// Two bytes can be popped: the stack pointer has room to ascend and the two
/// cells at it can be read.
pub open spec fn stack_pop_pre<M: MemoryIF>(regs: Registers, m: M) -> bool {
    regs.sp <= 0xfffd && m.readable(regs.sp) && m.readable((regs.sp + 1) as u16)
}

/// The accesses of one 8-bit load are defined and the auto-adjusted HL stays
/// inside the address space.
pub open spec fn ld8_pre<M: MemoryIF>(regs: Registers, dest: Arg8, src: Arg8, m: M) -> bool {
    let hl = regs.spec_reg16(Reg16::HL);
    match (dest, src) {
        (Arg8::Reg(rd), Arg8::IndReg(Reg16::HL)) => m.readable(hl),
        (Arg8::IndReg(Reg16::HL), Arg8::Reg(rs)) => m.writable(hl),
        (Arg8::IndReg(Reg16::HL), Arg8::Immed(n)) => m.writable(hl),
        (Arg8::Reg(Reg8::A), Arg8::IndReg(Reg16::BC)) => m.readable(regs.spec_reg16(Reg16::BC)),
        (Arg8::Reg(Reg8::A), Arg8::IndReg(Reg16::DE)) => m.readable(regs.spec_reg16(Reg16::DE)),
        (Arg8::Reg(Reg8::A), Arg8::Ind(nn)) => m.readable(nn),
        (Arg8::IndReg(Reg16::BC), Arg8::Reg(Reg8::A)) => m.writable(regs.spec_reg16(Reg16::BC)),
        (Arg8::IndReg(Reg16::DE), Arg8::Reg(Reg8::A)) => m.writable(regs.spec_reg16(Reg16::DE)),
        (Arg8::Ind(nn), Arg8::Reg(Reg8::A)) => m.writable(nn),
        (Arg8::Reg(Reg8::A), Arg8::IndIo(n)) => m.readable((0xff00 + n) as u16),
        (Arg8::IndIo(n), Arg8::Reg(Reg8::A)) => m.writable((0xff00 + n) as u16),
        (Arg8::Reg(Reg8::A), Arg8::IndIoC) => m.readable((0xff00 + regs.c) as u16),
        (Arg8::IndIoC, Arg8::Reg(Reg8::A)) => m.writable((0xff00 + regs.c) as u16),
        (Arg8::IndIncHL, Arg8::Reg(Reg8::A)) => hl < 0xffff && m.writable(hl),
        (Arg8::Reg(Reg8::A), Arg8::IndIncHL) => hl < 0xffff && m.readable(hl),
        (Arg8::IndDecHL, Arg8::Reg(Reg8::A)) => hl > 0 && m.writable(hl),
        (Arg8::Reg(Reg8::A), Arg8::IndDecHL) => hl > 0 && m.readable(hl),
        _ => true,
    }
}

/// The accesses and stack moves of one instruction are defined: this is what
/// `execute` requires so that no read or write leaves the address space, no
/// stack move leaves the 16-bit range, and no bit index exceeds seven.
pub open spec fn exec_pre<M: MemoryIF>(regs: Registers, inst: Inst, m: M) -> bool {
    match inst {
        Inst::Ld8(dest, src) => ld8_pre(regs, dest, src, m),
        Inst::Ld16(dest, src) => match (dest, src) {
            (Arg16::Ind(nn), Arg16::Reg(Reg16::SP)) => nn < 0xffff && m.writable(nn)
                && m.writable((nn + 1) as u16),
            _ => true,
        },
        Inst::Push16(_) => stack_push_pre(regs, m),
        Inst::Pop16(_) => stack_pop_pre(regs, m),
        Inst::Add(_, x) => alu_pre(regs, x, m),
        Inst::Adc(_, x) => alu_pre(regs, x, m),
        Inst::Sub(_, x) => alu_pre(regs, x, m),
        Inst::Sbc(_, x) => alu_pre(regs, x, m),
        Inst::And(_, x) => alu_pre(regs, x, m),
        Inst::Xor(_, x) => alu_pre(regs, x, m),
        Inst::Or(_, x) => alu_pre(regs, x, m),
        Inst::Cp(_, x) => alu_pre(regs, x, m),
        Inst::Inc(x) => rmw_pre(regs, x, m),
        Inst::Dec(x) => rmw_pre(regs, x, m),
        Inst::Rlc(x) => rmw_pre(regs, x, m),
        Inst::Rl(x) => rmw_pre(regs, x, m),
        Inst::Rrc(x) => rmw_pre(regs, x, m),
        Inst::Rr(x) => rmw_pre(regs, x, m),
        Inst::Sla(x) => rmw_pre(regs, x, m),
        Inst::Sra(x) => rmw_pre(regs, x, m),
        Inst::Srl(x) => rmw_pre(regs, x, m),
        Inst::Swap(x) => rmw_pre(regs, x, m),
        Inst::Bit(n, x) => n <= 7 && alu_pre(regs, x, m),
        Inst::SetBit(n, x) => n <= 7 && rmw_pre(regs, x, m),
        Inst::Res(n, x) => n <= 7 && rmw_pre(regs, x, m),
        Inst::Call(_) => stack_push_pre(regs, m),
        Inst::Callf(f, _) => cond_spec(regs, f) ==> stack_push_pre(regs, m),
        Inst::Ret => stack_pop_pre(regs, m),
        Inst::Retf(f) => cond_spec(regs, f) ==> stack_pop_pre(regs, m),
        Inst::Reti => stack_pop_pre(regs, m),
        Inst::Rst(_) => stack_push_pre(regs, m),
        _ => true,
    }
}

/// The memory keeps its invariant and its defined addresses across a call.
pub open spec fn mem_maps_ok<M: MemoryIF>(m0: M, m1: M) -> bool {
    &&& m1.wf()
    &&& forall|a: u16| m1.readable(a) == m0.readable(a)
    &&& forall|a: u16| m1.writable(a) == m0.writable(a)
}

/// What one instruction handler leaves behind: the step the model names, or
/// the invalid-instruction error with nothing changed.
pub open spec fn handler_ensures(
    regs0: Registers,
    inst: Inst,
    mem0: Seq<u8>,
    regs1: Registers,
    mem1: Seq<u8>,
    r: Result<usize, GbError>,
) -> bool {
    match step_spec(regs0, inst, mem0, false) {
        Some(s) => regs1 == s.regs && mem1 == s.mem && r == Ok::<usize, GbError>(s.cost),
        None => regs1 == regs0 && mem1 == mem0 && r == Err::<usize, GbError>(
            GbError::InvalidInstruction,
        ),
    }
}

/// Storing into a 16-bit register view keeps the low nibble of F clear.
pub proof fn lemma_set_reg16_wf(regs: Registers, rr: Reg16, v: u16)
    requires
        regs.wf(),
    ensures
        regs.spec_set_reg16(rr, v).wf(),
{
    bits::lemma_low_nibble((v % 256) as u8);
}

/// Replacing the packed flags keeps the low nibble of F clear.
pub proof fn lemma_with_flags_wf(regs: Registers, z: bool, n: bool, h: bool, c: bool)
    ensures
        regs.with_flags(z, n, h, c).wf(),
        regs.with_flags(z, n, h, c).flag_z() == z,
        regs.with_flags(z, n, h, c).flag_n() == n,
        regs.with_flags(z, n, h, c).flag_h() == h,
        regs.with_flags(z, n, h, c).flag_c() == c,
{
    super::lemma_pack_flags(z, n, h, c);
}


/// The control-flow and processor-control subset of the instruction set.
pub open spec fn ctrl_inst(inst: Inst) -> bool {
    ||| inst matches Inst::Ccf
    ||| inst matches Inst::Scf
    ||| inst matches Inst::Nop
    ||| inst matches Inst::Halt
    ||| inst matches Inst::Stop
    ||| inst matches Inst::Di
    ||| inst matches Inst::Ei
    ||| inst matches Inst::Jp(_)
    ||| inst matches Inst::JpHL
    ||| inst matches Inst::Jpf(_, _)
    ||| inst matches Inst::Jr(_)
    ||| inst matches Inst::Jrf(_, _)
    ||| inst matches Inst::Call(_)
    ||| inst matches Inst::Callf(_, _)
    ||| inst matches Inst::Ret
    ||| inst matches Inst::Retf(_)
    ||| inst matches Inst::Reti
    ||| inst matches Inst::Rst(_)
}

impl Registers {
    /// Interpret one instruction against the register file and memory:
    /// exactly the step that `step_spec` names, or the invalid-instruction
    /// error with nothing changed.
    #[verifier::rlimit(100)]
    pub fn execute<M: MemoryIF>(
        &mut self,
        inst: Inst,
        memory: &mut M,
        ime: &mut bool,
    ) -> (r: Result<(usize, Flags), GbError>)
        requires
            old(self).wf(),
            old(memory).wf(),
            exec_pre(*old(self), inst, *old(memory)),
        ensures
            (match step_spec(*old(self), inst, old(memory).mem(), *old(ime)) {
                Some(s) => r == Ok::<(usize, Flags), GbError>((s.cost, s.flags)) && *final(self)
                    == s.regs && final(memory).mem() == s.mem && *final(ime) == s.ime,
                None => r == Err::<(usize, Flags), GbError>(GbError::InvalidInstruction)
                    && *final(self) == *old(self) && final(memory).mem() == old(memory).mem()
                    && *final(ime) == *old(ime),
            }),
            (match r {
                Ok((c, _)) => c <= 6,
                Err(_) => true,
            }),
            final(self).wf(),
            mem_maps_ok(*old(memory), *final(memory)),
    {
        match inst {
            Inst::Ld8(dest, src) => match self.ld8(dest, src, memory) {
                Ok(m0) => Ok((m0, Flags { halt: false, stop: false })),
                Err(e) => Err(e),
            },
            Inst::Ld16(dest, src) => match self.ld16(dest, src, memory) {
                Ok(m0) => Ok((m0, Flags { halt: false, stop: false })),
                Err(e) => Err(e),
            },
            Inst::Push16(rr) => {
                let m0 = self.push(rr, memory);
                Ok((m0, Flags { halt: false, stop: false }))
            },
            Inst::Pop16(rr) => {
                let m0 = self.pop(rr, memory);
                Ok((m0, Flags { halt: false, stop: false }))
            },
            Inst::Add(Arg8::Reg(Reg8::A), x) => match self.add_a(x, memory) {
                Ok(m0) => Ok((m0, Flags { halt: false, stop: false })),
                Err(e) => Err(e),
            },
            Inst::Adc(Arg8::Reg(Reg8::A), x) => match self.adc_a(x, memory) {
                Ok(m0) => Ok((m0, Flags { halt: false, stop: false })),
                Err(e) => Err(e),
            },
            Inst::Sub(Arg8::Reg(Reg8::A), x) => match self.sub_a(x, memory) {
                Ok(m0) => Ok((m0, Flags { halt: false, stop: false })),
                Err(e) => Err(e),
            },
            Inst::Sbc(Arg8::Reg(Reg8::A), x) => match self.sbc_a(x, memory) {
                Ok(m0) => Ok((m0, Flags { halt: false, stop: false })),
                Err(e) => Err(e),
            },
            Inst::And(Arg8::Reg(Reg8::A), x) => match self.and_a(x, memory) {
                Ok(m0) => Ok((m0, Flags { halt: false, stop: false })),
                Err(e) => Err(e),
            },
            Inst::Xor(Arg8::Reg(Reg8::A), x) => match self.xor_a(x, memory) {
                Ok(m0) => Ok((m0, Flags { halt: false, stop: false })),
                Err(e) => Err(e),
            },
            Inst::Or(Arg8::Reg(Reg8::A), x) => match self.or_a(x, memory) {
                Ok(m0) => Ok((m0, Flags { halt: false, stop: false })),
                Err(e) => Err(e),
            },
            Inst::Cp(Arg8::Reg(Reg8::A), x) => match self.cp(x, memory) {
                Ok(m0) => Ok((m0, Flags { halt: false, stop: false })),
                Err(e) => Err(e),
            },
            Inst::Inc(x) => match self.inc(x, memory) {
                Ok(m0) => Ok((m0, Flags { halt: false, stop: false })),
                Err(e) => Err(e),
            },
            Inst::Dec(x) => match self.dec(x, memory) {
                Ok(m0) => Ok((m0, Flags { halt: false, stop: false })),
                Err(e) => Err(e),
            },
            Inst::Daa => {
                let m0 = self.daa();
                Ok((m0, Flags { halt: false, stop: false }))
            },
            Inst::Cpl => {
                let m0 = self.cpl();
                Ok((m0, Flags { halt: false, stop: false }))
            },
            Inst::Add16(Arg16::Reg(Reg16::HL), Arg16::Reg(rr)) => {
                let m0 = self.add16_hl(rr);
                Ok((m0, Flags { halt: false, stop: false }))
            },
            Inst::Inc16(Arg16::Reg(rr)) => {
                let m0 = self.inc16_rr(rr);
                Ok((m0, Flags { halt: false, stop: false }))
            },
            Inst::Dec16(Arg16::Reg(rr)) => {
                let m0 = self.dec16_rr(rr);
                Ok((m0, Flags { halt: false, stop: false }))
            },
            Inst::Add16SP(dd) => {
                let m0 = self.add16_sp_dd(dd);
                Ok((m0, Flags { halt: false, stop: false }))
            },
            Inst::Ld16HLSP(dd) => {
                let m0 = self.ld16_hl_sp_dd(dd);
                Ok((m0, Flags { halt: false, stop: false }))
            },
            Inst::Rlca => {
                let m0 = self.rlca();
                Ok((m0, Flags { halt: false, stop: false }))
            },
            Inst::Rla => {
                let m0 = self.rla();
                Ok((m0, Flags { halt: false, stop: false }))
            },
            Inst::Rrca => {
                let m0 = self.rrca();
                Ok((m0, Flags { halt: false, stop: false }))
            },
            Inst::Rra => {
                let m0 = self.rra();
                Ok((m0, Flags { halt: false, stop: false }))
            },
            Inst::Rlc(x) => match self.rlc(x, memory) {
                Ok(m0) => Ok((m0, Flags { halt: false, stop: false })),
                Err(e) => Err(e),
            },
            Inst::Rl(x) => match self.rl(x, memory) {
                Ok(m0) => Ok((m0, Flags { halt: false, stop: false })),
                Err(e) => Err(e),
            },
            Inst::Rrc(x) => match self.rrc(x, memory) {
                Ok(m0) => Ok((m0, Flags { halt: false, stop: false })),
                Err(e) => Err(e),
            },
            Inst::Rr(x) => match self.rr(x, memory) {
                Ok(m0) => Ok((m0, Flags { halt: false, stop: false })),
                Err(e) => Err(e),
            },
            Inst::Sla(x) => match self.sla(x, memory) {
                Ok(m0) => Ok((m0, Flags { halt: false, stop: false })),
                Err(e) => Err(e),
            },
            Inst::Swap(x) => match self.swap(x, memory) {
                Ok(m0) => Ok((m0, Flags { halt: false, stop: false })),
                Err(e) => Err(e),
            },
            Inst::Sra(x) => match self.sra(x, memory) {
                Ok(m0) => Ok((m0, Flags { halt: false, stop: false })),
                Err(e) => Err(e),
            },
            Inst::Srl(x) => match self.srl(x, memory) {
                Ok(m0) => Ok((m0, Flags { halt: false, stop: false })),
                Err(e) => Err(e),
            },
            Inst::Bit(n, x) => match self.bit(n, x, memory) {
                Ok(m0) => Ok((m0, Flags { halt: false, stop: false })),
                Err(e) => Err(e),
            },
            Inst::SetBit(n, x) => match self.set(n, x, memory) {
                Ok(m0) => Ok((m0, Flags { halt: false, stop: false })),
                Err(e) => Err(e),
            },
            Inst::Res(n, x) => match self.res(n, x, memory) {
                Ok(m0) => Ok((m0, Flags { halt: false, stop: false })),
                Err(e) => Err(e),
            },
            Inst::Ccf | Inst::Scf | Inst::Nop | Inst::Halt | Inst::Stop | Inst::Di | Inst::Ei
            | Inst::Jp(_) | Inst::JpHL | Inst::Jpf(_, _) | Inst::Jr(_) | Inst::Jrf(_, _)
            | Inst::Call(_) | Inst::Callf(_, _) | Inst::Ret | Inst::Retf(_) | Inst::Reti
            | Inst::Rst(_) => self.execute_ctrl(inst, memory, ime),
            _ => Err(GbError::InvalidInstruction),
        }
    }

    #[verifier::rlimit(100)]
    fn execute_ctrl<M: MemoryIF>(
        &mut self,
        inst: Inst,
        memory: &mut M,
        ime: &mut bool,
    ) -> (r: Result<(usize, Flags), GbError>)
        requires
            old(self).wf(),
            old(memory).wf(),
            exec_pre(*old(self), inst, *old(memory)),
            ctrl_inst(inst),
        ensures
            (match step_spec(*old(self), inst, old(memory).mem(), *old(ime)) {
                Some(s) => r == Ok::<(usize, Flags), GbError>((s.cost, s.flags)) && *final(self)
                    == s.regs && final(memory).mem() == s.mem && *final(ime) == s.ime,
                None => r == Err::<(usize, Flags), GbError>(GbError::InvalidInstruction)
                    && *final(self) == *old(self) && final(memory).mem() == old(memory).mem()
                    && *final(ime) == *old(ime),
            }),
            (match r {
                Ok((c, _)) => c <= 6,
                Err(_) => true,
            }),
            final(self).wf(),
            mem_maps_ok(*old(memory), *final(memory)),
    {
        match inst {
            Inst::Ccf => {
                let m0 = self.ccf();
                Ok((m0, Flags { halt: false, stop: false }))
            },
            Inst::Scf => {
                let m0 = self.scf();
                Ok((m0, Flags { halt: false, stop: false }))
            },
            Inst::Nop => Ok((1, Flags { halt: false, stop: false })),
            Inst::Halt => Ok((1, Flags { halt: true, stop: false })),
            Inst::Stop => Ok((1, Flags { halt: false, stop: true })),
            Inst::Di => {
                let m0 = self.di(ime);
                Ok((m0, Flags { halt: false, stop: false }))
            },
            Inst::Ei => {
                let m0 = self.ei(ime);
                Ok((m0, Flags { halt: false, stop: false }))
            },
            Inst::Jp(nn) => {
                let m0 = self.jp_nn(nn);
                Ok((m0, Flags { halt: false, stop: false }))
            },
            Inst::JpHL => {
                let m0 = self.jp_hl();
                Ok((m0, Flags { halt: false, stop: false }))
            },
            Inst::Jpf(f, nn) => {
                let m0 = self.jp_f_nn(f, nn);
                Ok((m0, Flags { halt: false, stop: false }))
            },
            Inst::Jr(dd) => {
                let m0 = self.jr_dd(dd);
                Ok((m0, Flags { halt: false, stop: false }))
            },
            Inst::Jrf(f, dd) => {
                let m0 = self.jr_f_dd(f, dd);
                Ok((m0, Flags { halt: false, stop: false }))
            },
            Inst::Call(nn) => {
                let m0 = self.call_nn(nn, memory);
                Ok((m0, Flags { halt: false, stop: false }))
            },
            Inst::Callf(f, nn) => {
                let m0 = self.call_f_nn(f, nn, memory);
                Ok((m0, Flags { halt: false, stop: false }))
            },
            Inst::Ret => {
                let m0 = self.ret(memory);
                Ok((m0, Flags { halt: false, stop: false }))
            },
            Inst::Retf(f) => {
                let m0 = self.ret_f(f, memory);
                Ok((m0, Flags { halt: false, stop: false }))
            },
            Inst::Reti => {
                let m0 = self.reti(memory, ime);
                Ok((m0, Flags { halt: false, stop: false }))
            },
            Inst::Rst(n) => {
                let m0 = self.rst_n(n, memory);
                Ok((m0, Flags { halt: false, stop: false }))
            },
            _ => Err(GbError::InvalidInstruction),
        }
    }

    fn ld8<M: MemoryIF>(&mut self, dest: Arg8, src: Arg8, memory: &mut M) -> (r: Result<
        usize,
        GbError,
    >)
        requires
            old(self).wf(),
            old(memory).wf(),
            ld8_pre(*old(self), dest, src, *old(memory)),
        ensures
            handler_ensures(
                *old(self),
                Inst::Ld8(dest, src),
                old(memory).mem(),
                *final(self),
                final(memory).mem(),
                r,
            ),
            final(self).wf(),
            mem_maps_ok(*old(memory), *final(memory)),
    {
        let m: usize = match (dest, src) {
            (Arg8::Reg(rd), Arg8::Reg(rs)) => {
                let v = self.read_reg8(&rs);
                self.write_reg8(&rd, v);
                1
            }
            (Arg8::Reg(rd), Arg8::Immed(n)) => {
                self.write_reg8(&rd, n);
                2
            }
            (Arg8::Reg(rd), Arg8::IndReg(Reg16::HL)) => {
                let hl = self.read_reg16(&Reg16::HL);
                let v = memory.read_byte(hl);
                self.write_reg8(&rd, v);
                2
            }
            (Arg8::IndReg(Reg16::HL), Arg8::Reg(rs)) => {
                let v = self.read_reg8(&rs);
                let hl = self.read_reg16(&Reg16::HL);
                memory.write_byte(hl, v);
                2
            }
            (Arg8::IndReg(Reg16::HL), Arg8::Immed(n)) => {
                let hl = self.read_reg16(&Reg16::HL);
                memory.write_byte(hl, n);
                3
            }
            (Arg8::Reg(Reg8::A), Arg8::IndReg(rs)) if rs == Reg16::BC || rs == Reg16::DE => {
                let addr = self.read_reg16(&rs);
                let v = memory.read_byte(addr);
                self.write_reg8(&Reg8::A, v);
                2
            }
            (Arg8::Reg(Reg8::A), Arg8::Ind(nn)) => {
                let v = memory.read_byte(nn);
                self.write_reg8(&Reg8::A, v);
                4
            }
            (Arg8::IndReg(rd), Arg8::Reg(Reg8::A)) if rd == Reg16::BC || rd == Reg16::DE => {
                let v = self.read_reg8(&Reg8::A);
                let addr = self.read_reg16(&rd);
                memory.write_byte(addr, v);
                2
            }
            (Arg8::Ind(nn), Arg8::Reg(Reg8::A)) => {
                let v = self.read_reg8(&Reg8::A);
                memory.write_byte(nn, v);
                4
            }
            (Arg8::Reg(Reg8::A), Arg8::IndIo(n)) => {
                let v = memory.read_byte(0xff00 + n as u16);
                self.write_reg8(&Reg8::A, v);
                3
            }
            (Arg8::IndIo(n), Arg8::Reg(Reg8::A)) => {
                let v = self.read_reg8(&Reg8::A);
                memory.write_byte(0xff00 + n as u16, v);
                3
            }
            (Arg8::Reg(Reg8::A), Arg8::IndIoC) => {
                let c = self.read_reg8(&Reg8::C);
                let v = memory.read_byte(0xff00 + c as u16);
                self.write_reg8(&Reg8::A, v);
                2
            }
            (Arg8::IndIoC, Arg8::Reg(Reg8::A)) => {
                let c = self.read_reg8(&Reg8::C);
                let v = self.read_reg8(&Reg8::A);
                memory.write_byte(0xff00 + c as u16, v);
                2
            }
            (Arg8::IndIncHL, Arg8::Reg(Reg8::A)) => {
                let hl = self.read_reg16(&Reg16::HL);
                let v = self.read_reg8(&Reg8::A);
                memory.write_byte(hl, v);
                self.write_reg16(&Reg16::HL, hl + 1);
                2
            }
            (Arg8::Reg(Reg8::A), Arg8::IndIncHL) => {
                let hl = self.read_reg16(&Reg16::HL);
                let v = memory.read_byte(hl);
                self.write_reg8(&Reg8::A, v);
                self.write_reg16(&Reg16::HL, hl + 1);
                2
            }
            (Arg8::IndDecHL, Arg8::Reg(Reg8::A)) => {
                let hl = self.read_reg16(&Reg16::HL);
                let v = self.read_reg8(&Reg8::A);
                memory.write_byte(hl, v);
                self.write_reg16(&Reg16::HL, hl - 1);
                2
            }
            (Arg8::Reg(Reg8::A), Arg8::IndDecHL) => {
                let hl = self.read_reg16(&Reg16::HL);
                let v = memory.read_byte(hl);
                self.write_reg8(&Reg8::A, v);
                self.write_reg16(&Reg16::HL, hl - 1);
                2
            }
            _ => {
                return Err(GbError::InvalidInstruction);
            }
        };
        Ok(m)
    }

    fn ld16<M: MemoryIF>(&mut self, dest: Arg16, src: Arg16, memory: &mut M) -> (r: Result<
        usize,
        GbError,
    >)
        requires
            old(self).wf(),
            old(memory).wf(),
            exec_pre(*old(self), Inst::Ld16(dest, src), *old(memory)),
        ensures
            handler_ensures(
                *old(self),
                Inst::Ld16(dest, src),
                old(memory).mem(),
                *final(self),
                final(memory).mem(),
                r,
            ),
            final(self).wf(),
            mem_maps_ok(*old(memory), *final(memory)),
    {
        let m: usize = match (dest, src) {
            (Arg16::Reg(rd), Arg16::Immed(nn)) => {
                proof {
                    lemma_set_reg16_wf(*self, rd, nn);
                }
                self.write_reg16(&rd, nn);
                3
            }
            (Arg16::Ind(nn), Arg16::Reg(Reg16::SP)) => {
                let sp = self.read_reg16(&Reg16::SP);
                memory.write_word(nn, sp);
                5
            }
            (Arg16::Reg(Reg16::SP), Arg16::Reg(Reg16::HL)) => {
                let v = self.read_reg16(&Reg16::HL);
                self.write_reg16(&Reg16::SP, v);
                2
            }
            _ => {
                return Err(GbError::InvalidInstruction);
            }
        };
        Ok(m)
    }

    fn push<M: MemoryIF>(&mut self, rr: Reg16, memory: &mut M) -> (m: usize)
        requires
            old(self).wf(),
            old(memory).wf(),
            stack_push_pre(*old(self), *old(memory)),
        ensures
            handler_ensures(
                *old(self),
                Inst::Push16(rr),
                old(memory).mem(),
                *final(self),
                final(memory).mem(),
                Ok(m),
            ),
            final(self).wf(),
            mem_maps_ok(*old(memory), *final(memory)),
    {
        let sp_org = self.read_reg16(&Reg16::SP);
        let sp = sp_org - 2;
        self.write_reg16(&Reg16::SP, sp);
        let v = self.read_reg16(&rr);
        memory.write_word(sp, v);
        4
    }

    fn pop<M: MemoryIF>(&mut self, rr: Reg16, memory: &mut M) -> (m: usize)
        requires
            old(self).wf(),
            old(memory).wf(),
            stack_pop_pre(*old(self), *old(memory)),
        ensures
            handler_ensures(
                *old(self),
                Inst::Pop16(rr),
                old(memory).mem(),
                *final(self),
                final(memory).mem(),
                Ok(m),
            ),
            final(self).wf(),
            mem_maps_ok(*old(memory), *final(memory)),
    {
        let sp_org = self.read_reg16(&Reg16::SP);
        let v = memory.read_word(sp_org);
        proof {
            lemma_set_reg16_wf(*self, rr, v);
        }
        self.write_reg16(&rr, v);
        let sp = sp_org + 2;
        self.write_reg16(&Reg16::SP, sp);
        3
    }

    #[verifier::rlimit(100)]
    fn add_a<M: MemoryIF>(&mut self, x: Arg8, memory: &mut M) -> (r: Result<usize, GbError>)
        requires
            old(self).wf(),
            old(memory).wf(),
            alu_pre(*old(self), x, *old(memory)),
        ensures
            (match alu_operand(*old(self), x, old(memory).mem()) {
                Some((v, m)) => r == Ok::<usize, GbError>(m) && *final(self) == spec_add_a(*old(self), v, false)
                    && final(memory).mem() == old(memory).mem(),
                None => r == Err::<usize, GbError>(GbError::InvalidInstruction) && *final(self)
                    == *old(self) && final(memory).mem() == old(memory).mem(),
            }),
            final(self).wf(),
            mem_maps_ok(*old(memory), *final(memory)),
    {
        let (m, v): (usize, u8) = match x {
            Arg8::Reg(rg) => (1, self.read_reg8(&rg)),
            Arg8::Immed(n) => (2, n),
            Arg8::IndReg(Reg16::HL) => {
                let hl = self.read_reg16(&Reg16::HL);
                (2, memory.read_byte(hl))
            }
            _ => {
                return Err(GbError::InvalidInstruction);
            }
        };
        let a = self.read_reg8(&Reg8::A);
        let ans = a.wrapping_add(v);
        if ans == 0 {
            self.set_f(FlagReg::Z);
        } else {
            self.clear_f(FlagReg::Z);
        }
        self.clear_f(FlagReg::N);
        let ha = 0x0f & a;
        let hv = 0x0f & v;
        proof {
            bits::lemma_low_nibble(a);
            bits::lemma_low_nibble(v);
        }
        if ha + hv > 0x0f {
            self.set_f(FlagReg::H);
        } else {
            self.clear_f(FlagReg::H);
        }
        if a as u16 + v as u16 > 0x00ff {
            self.set_f(FlagReg::C);
        } else {
            self.clear_f(FlagReg::C);
        }
        self.write_reg8(&Reg8::A, ans);
        proof {
            lemma_flags_value(*self, ans == 0, false, ha + hv > 0x0f, a + v > 255);
            assert(*self == spec_add_a(*old(self), v, false));
        }
        Ok(m)
    }

    #[verifier::rlimit(100)]
    fn adc_a<M: MemoryIF>(&mut self, x: Arg8, memory: &mut M) -> (r: Result<usize, GbError>)
        requires
            old(self).wf(),
            old(memory).wf(),
            alu_pre(*old(self), x, *old(memory)),
        ensures
            (match alu_operand(*old(self), x, old(memory).mem()) {
                Some((v, m)) => r == Ok::<usize, GbError>(m) && *final(self) == spec_add_a(*old(self), v, old(self).flag_c())
                    && final(memory).mem() == old(memory).mem(),
                None => r == Err::<usize, GbError>(GbError::InvalidInstruction) && *final(self)
                    == *old(self) && final(memory).mem() == old(memory).mem(),
            }),
            final(self).wf(),
            mem_maps_ok(*old(memory), *final(memory)),
    {
        let (m, v): (usize, u8) = match x {
            Arg8::Reg(rg) => (1, self.read_reg8(&rg)),
            Arg8::Immed(n) => (2, n),
            Arg8::IndReg(Reg16::HL) => {
                let hl = self.read_reg16(&Reg16::HL);
                (2, memory.read_byte(hl))
            }
            _ => {
                return Err(GbError::InvalidInstruction);
            }
        };
        let a = self.read_reg8(&Reg8::A);
        let c = if self.test_f(FlagReg::C) {
            0x01u8
        } else {
            0x00u8
        };
        let ans = a.wrapping_add(v).wrapping_add(c);
        if ans == 0 {
            self.set_f(FlagReg::Z);
        } else {
            self.clear_f(FlagReg::Z);
        }
        self.clear_f(FlagReg::N);
        let ha = 0x0f & a;
        let hv = 0x0f & v;
        proof {
            bits::lemma_low_nibble(a);
            bits::lemma_low_nibble(v);
        }
        if ha + hv + c > 0x0f {
            self.set_f(FlagReg::H);
        } else {
            self.clear_f(FlagReg::H);
        }
        if a as u16 + v as u16 + c as u16 > 0x00ff {
            self.set_f(FlagReg::C);
        } else {
            self.clear_f(FlagReg::C);
        }
        self.write_reg8(&Reg8::A, ans);
        proof {
            lemma_flags_value(*self, ans == 0, false, ha + hv + c > 0x0f, a + v + c > 255);
            assert(*self == spec_add_a(*old(self), v, old(self).flag_c()));
        }
        Ok(m)
    }

    #[verifier::rlimit(100)]
    fn sub_a<M: MemoryIF>(&mut self, x: Arg8, memory: &mut M) -> (r: Result<usize, GbError>)
        requires
            old(self).wf(),
            old(memory).wf(),
            alu_pre(*old(self), x, *old(memory)),
        ensures
            (match alu_operand(*old(self), x, old(memory).mem()) {
                Some((v, m)) => r == Ok::<usize, GbError>(m) && *final(self) == spec_sub_a(*old(self), v, false)
                    && final(memory).mem() == old(memory).mem(),
                None => r == Err::<usize, GbError>(GbError::InvalidInstruction) && *final(self)
                    == *old(self) && final(memory).mem() == old(memory).mem(),
            }),
            final(self).wf(),
            mem_maps_ok(*old(memory), *final(memory)),
    {
        let (m, v): (usize, u8) = match x {
            Arg8::Reg(rg) => (1, self.read_reg8(&rg)),
            Arg8::Immed(n) => (2, n),
            Arg8::IndReg(Reg16::HL) => {
                let hl = self.read_reg16(&Reg16::HL);
                (2, memory.read_byte(hl))
            }
            _ => {
                return Err(GbError::InvalidInstruction);
            }
        };
        let a = self.read_reg8(&Reg8::A);
        let ans = a.wrapping_sub(v);
        if ans == 0 {
            self.set_f(FlagReg::Z);
        } else {
            self.clear_f(FlagReg::Z);
        }
        self.set_f(FlagReg::N);
        let ha = 0x0f & a;
        let hv = 0x0f & v;
        proof {
            bits::lemma_low_nibble(a);
            bits::lemma_low_nibble(v);
        }
        if ha < hv {
            self.set_f(FlagReg::H);
        } else {
            self.clear_f(FlagReg::H);
        }
        if a < v {
            self.set_f(FlagReg::C);
        } else {
            self.clear_f(FlagReg::C);
        }
        self.write_reg8(&Reg8::A, ans);
        proof {
            bits::lemma_mod_512(a - v + 256);
            lemma_flags_value(*self, ans == 0, true, ha < hv, a < v);
            assert(*self == spec_sub_a(*old(self), v, false));
        }
        Ok(m)
    }

    #[verifier::rlimit(100)]
    fn sbc_a<M: MemoryIF>(&mut self, x: Arg8, memory: &mut M) -> (r: Result<usize, GbError>)
        requires
            old(self).wf(),
            old(memory).wf(),
            alu_pre(*old(self), x, *old(memory)),
        ensures
            (match alu_operand(*old(self), x, old(memory).mem()) {
                Some((v, m)) => r == Ok::<usize, GbError>(m) && *final(self) == spec_sub_a(*old(self), v, old(self).flag_c())
                    && final(memory).mem() == old(memory).mem(),
                None => r == Err::<usize, GbError>(GbError::InvalidInstruction) && *final(self)
                    == *old(self) && final(memory).mem() == old(memory).mem(),
            }),
            final(self).wf(),
            mem_maps_ok(*old(memory), *final(memory)),
    {
        let (m, v): (usize, u8) = match x {
            Arg8::Reg(rg) => (1, self.read_reg8(&rg)),
            Arg8::Immed(n) => (2, n),
            Arg8::IndReg(Reg16::HL) => {
                let hl = self.read_reg16(&Reg16::HL);
                (2, memory.read_byte(hl))
            }
            _ => {
                return Err(GbError::InvalidInstruction);
            }
        };
        let a = self.read_reg8(&Reg8::A);
        let c = if self.test_f(FlagReg::C) {
            0x01u8
        } else {
            0x00u8
        };
        let ans1 = a.wrapping_sub(v);
        let ans2 = ans1.wrapping_sub(c);
        if ans2 == 0 {
            self.set_f(FlagReg::Z);
        } else {
            self.clear_f(FlagReg::Z);
        }
        self.set_f(FlagReg::N);
        let ha = 0x0f & a;
        let hv = 0x0f & v;
        let hans1 = 0x0f & ans1;
        proof {
            bits::lemma_low_nibble(a);
            bits::lemma_low_nibble(v);
            bits::lemma_low_nibble(ans1);
        }
        if (ha < hv) || (hans1 < c) {
            self.set_f(FlagReg::H);
        } else {
            self.clear_f(FlagReg::H);
        }
        if (a < v) || (ans1 < c) {
            self.set_f(FlagReg::C);
        } else {
            self.clear_f(FlagReg::C);
        }
        self.write_reg8(&Reg8::A, ans2);
        proof {
            bits::lemma_mod_512(a - v + 256);
            bits::lemma_mod_512(ans1 - c + 256);
            lemma_flags_value(*self, ans2 == 0, true, ha < hv || hans1 < c, a < v || ans1 < c);
            assert(*self == spec_sub_a(*old(self), v, old(self).flag_c()));
        }
        Ok(m)
    }

    fn and_a<M: MemoryIF>(&mut self, x: Arg8, memory: &mut M) -> (r: Result<usize, GbError>)
        requires
            old(self).wf(),
            old(memory).wf(),
            alu_pre(*old(self), x, *old(memory)),
        ensures
            handler_ensures(
                *old(self),
                Inst::And(Arg8::Reg(Reg8::A), x),
                old(memory).mem(),
                *final(self),
                final(memory).mem(),
                r,
            ),
            final(self).wf(),
            mem_maps_ok(*old(memory), *final(memory)),
    {
        let (m, v): (usize, u8) = match x {
            Arg8::Reg(rg) => (1, self.read_reg8(&rg)),
            Arg8::Immed(n) => (2, n),
            Arg8::IndReg(Reg16::HL) => {
                let hl = self.read_reg16(&Reg16::HL);
                (2, memory.read_byte(hl))
            }
            _ => {
                return Err(GbError::InvalidInstruction);
            }
        };
        let a = self.read_reg8(&Reg8::A);
        let ans = a & v;
        if ans == 0 {
            self.set_f(FlagReg::Z);
        } else {
            self.clear_f(FlagReg::Z);
        }
        self.clear_f(FlagReg::N);
        self.set_f(FlagReg::H);
        self.clear_f(FlagReg::C);
        self.write_reg8(&Reg8::A, ans);
        proof {
            lemma_flags_value(*self, ans == 0, false, true, false);
            assert(*self == spec_and_a(*old(self), v));
        }
        Ok(m)
    }

    fn xor_a<M: MemoryIF>(&mut self, x: Arg8, memory: &mut M) -> (r: Result<usize, GbError>)
        requires
            old(self).wf(),
            old(memory).wf(),
            alu_pre(*old(self), x, *old(memory)),
        ensures
            handler_ensures(
                *old(self),
                Inst::Xor(Arg8::Reg(Reg8::A), x),
                old(memory).mem(),
                *final(self),
                final(memory).mem(),
                r,
            ),
            final(self).wf(),
            mem_maps_ok(*old(memory), *final(memory)),
    {
        let (m, v): (usize, u8) = match x {
            Arg8::Reg(rg) => (1, self.read_reg8(&rg)),
            Arg8::Immed(n) => (2, n),
            Arg8::IndReg(Reg16::HL) => {
                let hl = self.read_reg16(&Reg16::HL);
                (2, memory.read_byte(hl))
            }
            _ => {
                return Err(GbError::InvalidInstruction);
            }
        };
        let a = self.read_reg8(&Reg8::A);
        let ans = a ^ v;
        if ans == 0 {
            self.set_f(FlagReg::Z);
        } else {
            self.clear_f(FlagReg::Z);
        }
        self.clear_f(FlagReg::N);
        self.clear_f(FlagReg::H);
        self.clear_f(FlagReg::C);
        self.write_reg8(&Reg8::A, ans);
        proof {
            lemma_flags_value(*self, ans == 0, false, false, false);
            assert(*self == spec_xor_a(*old(self), v));
        }
        Ok(m)
    }

    fn or_a<M: MemoryIF>(&mut self, x: Arg8, memory: &mut M) -> (r: Result<usize, GbError>)
        requires
            old(self).wf(),
            old(memory).wf(),
            alu_pre(*old(self), x, *old(memory)),
        ensures
            handler_ensures(
                *old(self),
                Inst::Or(Arg8::Reg(Reg8::A), x),
                old(memory).mem(),
                *final(self),
                final(memory).mem(),
                r,
            ),
            final(self).wf(),
            mem_maps_ok(*old(memory), *final(memory)),
    {
        let (m, v): (usize, u8) = match x {
            Arg8::Reg(rg) => (1, self.read_reg8(&rg)),
            Arg8::Immed(n) => (2, n),
            Arg8::IndReg(Reg16::HL) => {
                let hl = self.read_reg16(&Reg16::HL);
                (2, memory.read_byte(hl))
            }
            _ => {
                return Err(GbError::InvalidInstruction);
            }
        };
        let a = self.read_reg8(&Reg8::A);
        let ans = a | v;
        if ans == 0 {
            self.set_f(FlagReg::Z);
        } else {
            self.clear_f(FlagReg::Z);
        }
        self.clear_f(FlagReg::N);
        self.clear_f(FlagReg::H);
        self.clear_f(FlagReg::C);
        self.write_reg8(&Reg8::A, ans);
        proof {
            lemma_flags_value(*self, ans == 0, false, false, false);
            assert(*self == spec_or_a(*old(self), v));
        }
        Ok(m)
    }

    #[verifier::rlimit(100)]
    fn cp<M: MemoryIF>(&mut self, x: Arg8, memory: &mut M) -> (r: Result<usize, GbError>)
        requires
            old(self).wf(),
            old(memory).wf(),
            alu_pre(*old(self), x, *old(memory)),
        ensures
            (match alu_operand(*old(self), x, old(memory).mem()) {
                Some((v, m)) => r == Ok::<usize, GbError>(m) && *final(self) == spec_sub_flags(
                    *old(self),
                    v,
                    false,
                ) && final(memory).mem() == old(memory).mem(),
                None => r == Err::<usize, GbError>(GbError::InvalidInstruction) && *final(self)
                    == *old(self) && final(memory).mem() == old(memory).mem(),
            }),
            final(self).wf(),
            mem_maps_ok(*old(memory), *final(memory)),
    {
        let (m, v): (usize, u8) = match x {
            Arg8::Reg(rg) => (1, self.read_reg8(&rg)),
            Arg8::Immed(n) => (2, n),
            Arg8::IndReg(Reg16::HL) => {
                let hl = self.read_reg16(&Reg16::HL);
                (2, memory.read_byte(hl))
            }
            _ => {
                return Err(GbError::InvalidInstruction);
            }
        };
        let a = self.read_reg8(&Reg8::A);
        let ans = a.wrapping_sub(v);
        if ans == 0 {
            self.set_f(FlagReg::Z);
        } else {
            self.clear_f(FlagReg::Z);
        }
        self.set_f(FlagReg::N);
        let ha = 0x0f & a;
        let hv = 0x0f & v;
        proof {
            bits::lemma_low_nibble(a);
            bits::lemma_low_nibble(v);
        }
        if ha < hv {
            self.set_f(FlagReg::H);
        } else {
            self.clear_f(FlagReg::H);
        }
        if a < v {
            self.set_f(FlagReg::C);
        } else {
            self.clear_f(FlagReg::C);
        }
        proof {
            bits::lemma_mod_512(a - v + 256);
            lemma_flags_value(*self, ans == 0, true, ha < hv, a < v);
            assert(*self == spec_sub_flags(*old(self), v, false));
        }
        Ok(m)
    }

    #[verifier::rlimit(100)]
    fn inc<M: MemoryIF>(&mut self, x: Arg8, memory: &mut M) -> (r: Result<usize, GbError>)
        requires
            old(self).wf(),
            old(memory).wf(),
            rmw_pre(*old(self), x, *old(memory)),
        ensures
            (match unary_operand(*old(self), x, old(memory).mem()) {
                Some(v) => ({
                    let (regs1, ans) = spec_inc_val(*old(self), v);
                    let (regs2, mem2) = unary_store(regs1, x, old(memory).mem(), ans);
                    r == Ok::<usize, GbError>(
                        if x matches Arg8::Reg(_) { 1usize } else { 3usize },
                    ) && *final(self) == regs2 && final(memory).mem() == mem2
                }),
                None => r == Err::<usize, GbError>(GbError::InvalidInstruction) && *final(self)
                    == *old(self) && final(memory).mem() == old(memory).mem(),
            }),
            final(self).wf(),
            mem_maps_ok(*old(memory), *final(memory)),
    {
        let (m, v): (usize, u8) = match x {
            Arg8::Reg(rg) => (1, self.read_reg8(&rg)),
            Arg8::IndReg(Reg16::HL) => {
                let hl = self.read_reg16(&Reg16::HL);
                (3, memory.read_byte(hl))
            }
            _ => {
                return Err(GbError::InvalidInstruction);
            }
        };
        let ans = v.wrapping_add(1);
        if ans == 0 {
            self.set_f(FlagReg::Z);
        } else {
            self.clear_f(FlagReg::Z);
        }
        self.clear_f(FlagReg::N);
        let hv = 0x0f & v;
        proof {
            bits::lemma_low_nibble(v);
        }
        if hv + 1 > 0x0f {
            self.set_f(FlagReg::H);
        } else {
            self.clear_f(FlagReg::H);
        }
        proof {
            lemma_flags_value(*self, ans == 0, false, hv + 1 > 0x0f, old(self).flag_c());
        }
        match x {
            Arg8::Reg(rg) => self.write_reg8(&rg, ans),
            Arg8::IndReg(Reg16::HL) => {
                let hl = self.read_reg16(&Reg16::HL);
                memory.write_byte(hl, ans);
            }
            _ => {
                return Err(GbError::InvalidInstruction);
            }
        }
        Ok(m)
    }

    #[verifier::rlimit(100)]
    fn dec<M: MemoryIF>(&mut self, x: Arg8, memory: &mut M) -> (r: Result<usize, GbError>)
        requires
            old(self).wf(),
            old(memory).wf(),
            rmw_pre(*old(self), x, *old(memory)),
        ensures
            (match unary_operand(*old(self), x, old(memory).mem()) {
                Some(v) => ({
                    let (regs1, ans) = spec_dec_val(*old(self), v);
                    let (regs2, mem2) = unary_store(regs1, x, old(memory).mem(), ans);
                    r == Ok::<usize, GbError>(
                        if x matches Arg8::Reg(_) { 1usize } else { 3usize },
                    ) && *final(self) == regs2 && final(memory).mem() == mem2
                }),
                None => r == Err::<usize, GbError>(GbError::InvalidInstruction) && *final(self)
                    == *old(self) && final(memory).mem() == old(memory).mem(),
            }),
            final(self).wf(),
            mem_maps_ok(*old(memory), *final(memory)),
    {
        let (m, v): (usize, u8) = match x {
            Arg8::Reg(rg) => (1, self.read_reg8(&rg)),
            Arg8::IndReg(Reg16::HL) => {
                let hl = self.read_reg16(&Reg16::HL);
                (3, memory.read_byte(hl))
            }
            _ => {
                return Err(GbError::InvalidInstruction);
            }
        };
        let ans = v.wrapping_sub(1);
        if ans == 0 {
            self.set_f(FlagReg::Z);
        } else {
            self.clear_f(FlagReg::Z);
        }
        self.set_f(FlagReg::N);
        let hv = 0x0f & v;
        proof {
            bits::lemma_low_nibble(v);
        }
        if hv < 1 {
            self.set_f(FlagReg::H);
        } else {
            self.clear_f(FlagReg::H);
        }
        proof {
            lemma_flags_value(*self, ans == 0, true, hv < 1, old(self).flag_c());
        }
        match x {
            Arg8::Reg(rg) => self.write_reg8(&rg, ans),
            Arg8::IndReg(Reg16::HL) => {
                let hl = self.read_reg16(&Reg16::HL);
                memory.write_byte(hl, ans);
            }
            _ => {
                return Err(GbError::InvalidInstruction);
            }
        }
        Ok(m)
    }

    #[verifier::rlimit(100)]
    fn daa(&mut self) -> (m: usize)
        requires
            old(self).wf(),
        ensures
            *final(self) == spec_daa(*old(self)),
            final(self).wf(),
            m == 1,
    {
        let a = self.read_reg8(&Reg8::A);
        let a3 = if self.test_f(FlagReg::N) {
            let a1 = if self.test_f(FlagReg::C) {
                a.wrapping_sub(0x60)
            } else {
                a
            };
            let a2 = if self.test_f(FlagReg::H) {
                a1.wrapping_sub(0x6)
            } else {
                a1
            };
            a2
        } else {
            let a1 = if a > 0x99 || self.test_f(FlagReg::C) {
                self.set_f(FlagReg::C);
                a.wrapping_add(0x60)
            } else {
                a
            };
            proof {
                bits::lemma_low_nibble(a1);
            }
            let a2 = if a1 & 0x0f > 0x09 || self.test_f(FlagReg::H) {
                a1.wrapping_add(0x6)
            } else {
                a1
            };
            a2
        };
        if a3 == 0 {
            self.set_f(FlagReg::Z);
        } else {
            self.clear_f(FlagReg::Z);
        }
        self.clear_f(FlagReg::H);
        self.write_reg8(&Reg8::A, a3);
        proof {
            lemma_flags_value(
                *self,
                a3 == 0,
                old(self).flag_n(),
                false,
                self.flag_c(),
            );
            assert(*self == spec_daa(*old(self)));
        }
        1
    }

    fn cpl(&mut self) -> (m: usize)
        requires
            old(self).wf(),
        ensures
            *final(self) == old(self).spec_set_reg8(Reg8::A, !old(self).a).with_flags(
                old(self).flag_z(),
                true,
                true,
                old(self).flag_c(),
            ),
            final(self).wf(),
            m == 1,
    {
        let a = self.read_reg8(&Reg8::A);
        let ans = !a;
        self.set_f(FlagReg::N);
        self.set_f(FlagReg::H);
        self.write_reg8(&Reg8::A, ans);
        proof {
            lemma_flags_value(*self, old(self).flag_z(), true, true, old(self).flag_c());
        }
        1
    }

    fn add16_hl(&mut self, rr: Reg16) -> (m: usize)
        requires
            old(self).wf(),
        ensures
            *final(self) == old(self).spec_set_reg16(
                Reg16::HL,
                ((old(self).spec_reg16(Reg16::HL) + old(self).spec_reg16(rr)) % 0x10000) as u16,
            ).with_flags(
                old(self).flag_z(),
                false,
                old(self).spec_reg16(Reg16::HL) % 0x1000 + old(self).spec_reg16(rr) % 0x1000
                    > 0xfff,
                old(self).spec_reg16(Reg16::HL) + old(self).spec_reg16(rr) > 0xffff,
            ),
            final(self).wf(),
            m == 2,
    {
        let hl = self.read_reg16(&Reg16::HL);
        let v = self.read_reg16(&rr);
        let ans = hl.wrapping_add(v);
        self.clear_f(FlagReg::N);
        let hhl = 0x0fff & hl;
        let hv = 0x0fff & v;
        proof {
            bits::lemma_low_twelve(hl);
            bits::lemma_low_twelve(v);
        }
        if hhl + hv > 0x0fff {
            self.set_f(FlagReg::H);
        } else {
            self.clear_f(FlagReg::H);
        }
        if hl as u32 + v as u32 > 0xffff {
            self.set_f(FlagReg::C);
        } else {
            self.clear_f(FlagReg::C);
        }
        self.write_reg16(&Reg16::HL, ans);
        proof {
            lemma_flags_value(
                *self,
                old(self).flag_z(),
                false,
                hhl + hv > 0x0fff,
                hl + v > 0xffff,
            );
        }
        2
    }

    fn inc16_rr(&mut self, rr: Reg16) -> (m: usize)
        requires
            old(self).wf(),
        ensures
            *final(self) == old(self).spec_set_reg16(
                rr,
                ((old(self).spec_reg16(rr) + 1) % 0x10000) as u16,
            ),
            final(self).wf(),
            m == 2,
    {
        let v = self.read_reg16(&rr);
        let ans = v.wrapping_add(1);
        proof {
            lemma_set_reg16_wf(*self, rr, ans);
        }
        self.write_reg16(&rr, ans);
        2
    }

    fn dec16_rr(&mut self, rr: Reg16) -> (m: usize)
        requires
            old(self).wf(),
        ensures
            *final(self) == old(self).spec_set_reg16(
                rr,
                ((old(self).spec_reg16(rr) - 1 + 0x10000) % 0x10000) as u16,
            ),
            final(self).wf(),
            m == 2,
    {
        let v = self.read_reg16(&rr);
        let ans = v.wrapping_sub(1);
        proof {
            lemma_set_reg16_wf(*self, rr, ans);
        }
        self.write_reg16(&rr, ans);
        2
    }

    fn add16_sp_dd(&mut self, dd: i8) -> (m: usize)
        requires
            old(self).wf(),
        ensures
            *final(self) == old(self).spec_set_reg16(Reg16::SP, plus_dd(old(self).sp, dd)),
            final(self).wf(),
            m == 4,
    {
        let sp = self.read_reg16(&Reg16::SP);
        let ans = sp.wrapping_add_signed(dd as i16);
        self.write_reg16(&Reg16::SP, ans);
        4
    }

    fn ld16_hl_sp_dd(&mut self, dd: i8) -> (m: usize)
        requires
            old(self).wf(),
        ensures
            *final(self) == old(self).spec_set_reg16(Reg16::HL, plus_dd(old(self).sp, dd)),
            final(self).wf(),
            m == 3,
    {
        let sp = self.read_reg16(&Reg16::SP);
        let ans = sp.wrapping_add_signed(dd as i16);
        self.write_reg16(&Reg16::HL, ans);
        3
    }

    fn rlca(&mut self) -> (m: usize)
        requires
            old(self).wf(),
        ensures
            *final(self) == spec_rot_a(*old(self), RotKind::Rlc),
            final(self).wf(),
            m == 1,
    {
        let a = self.read_reg8(&Reg8::A);
        let (a1, c) = rot(a, Direction::Left);
        if a1 == 0 {
            self.set_f(FlagReg::Z);
        } else {
            self.clear_f(FlagReg::Z);
        }
        self.clear_f(FlagReg::N);
        self.clear_f(FlagReg::H);
        if c {
            self.set_f(FlagReg::C)
        } else {
            self.clear_f(FlagReg::C)
        };
        self.write_reg8(&Reg8::A, a1);
        proof {
            lemma_flags_value(*self, a1 == 0, false, false, c);
        }
        1
    }

    fn rla(&mut self) -> (m: usize)
        requires
            old(self).wf(),
        ensures
            *final(self) == spec_rot_a(*old(self), RotKind::Rl),
            final(self).wf(),
            m == 1,
    {
        let a = self.read_reg8(&Reg8::A);
        let c = self.test_f(FlagReg::C);
        let (a1, c1) = rot_through_carry(a, c, Direction::Left);
        if a1 == 0 {
            self.set_f(FlagReg::Z);
        } else {
            self.clear_f(FlagReg::Z);
        }
        self.clear_f(FlagReg::N);
        self.clear_f(FlagReg::H);
        if c1 {
            self.set_f(FlagReg::C)
        } else {
            self.clear_f(FlagReg::C)
        };
        self.write_reg8(&Reg8::A, a1);
        proof {
            lemma_flags_value(*self, a1 == 0, false, false, c1);
        }
        1
    }

    fn rrca(&mut self) -> (m: usize)
        requires
            old(self).wf(),
        ensures
            *final(self) == spec_rot_a(*old(self), RotKind::Rrc),
            final(self).wf(),
            m == 1,
    {
        let a = self.read_reg8(&Reg8::A);
        let (a1, c) = rot(a, Direction::Right);
        if a1 == 0 {
            self.set_f(FlagReg::Z);
        } else {
            self.clear_f(FlagReg::Z);
        }
        self.clear_f(FlagReg::N);
        self.clear_f(FlagReg::H);
        if c {
            self.set_f(FlagReg::C)
        } else {
            self.clear_f(FlagReg::C)
        };
        self.write_reg8(&Reg8::A, a1);
        proof {
            lemma_flags_value(*self, a1 == 0, false, false, c);
        }
        1
    }

    fn rra(&mut self) -> (m: usize)
        requires
            old(self).wf(),
        ensures
            *final(self) == spec_rot_a(*old(self), RotKind::Rr),
            final(self).wf(),
            m == 1,
    {
        let a = self.read_reg8(&Reg8::A);
        let c = self.test_f(FlagReg::C);
        let (a1, c1) = rot_through_carry(a, c, Direction::Right);
        if a1 == 0 {
            self.set_f(FlagReg::Z);
        } else {
            self.clear_f(FlagReg::Z);
        }
        self.clear_f(FlagReg::N);
        self.clear_f(FlagReg::H);
        if c1 {
            self.set_f(FlagReg::C)
        } else {
            self.clear_f(FlagReg::C)
        };
        self.write_reg8(&Reg8::A, a1);
        proof {
            lemma_flags_value(*self, a1 == 0, false, false, c1);
        }
        1
    }

    fn rlc<M: MemoryIF>(&mut self, x: Arg8, memory: &mut M) -> (r: Result<usize, GbError>)
        requires
            old(self).wf(),
            old(memory).wf(),
            rmw_pre(*old(self), x, *old(memory)),
        ensures
            handler_ensures(
                *old(self),
                Inst::Rlc(x),
                old(memory).mem(),
                *final(self),
                final(memory).mem(),
                r,
            ),
            final(self).wf(),
            mem_maps_ok(*old(memory), *final(memory)),
    {
        let (m, v): (usize, u8) = match x {
            Arg8::Reg(rg) => (2, self.read_reg8(&rg)),
            Arg8::IndReg(Reg16::HL) => {
                let hl = self.read_reg16(&Reg16::HL);
                (4, memory.read_byte(hl))
            }
            _ => {
                return Err(GbError::InvalidInstruction);
            }
        };
        let (v1, c) = rot(v, Direction::Left);
        if v1 == 0 {
            self.set_f(FlagReg::Z);
        } else {
            self.clear_f(FlagReg::Z);
        }
        self.clear_f(FlagReg::N);
        self.clear_f(FlagReg::H);
        if c {
            self.set_f(FlagReg::C)
        } else {
            self.clear_f(FlagReg::C)
        };
        proof {
            lemma_flags_value(*self, v1 == 0, false, false, c);
        }
        match x {
            Arg8::Reg(rg) => {
                self.write_reg8(&rg, v1);
            }
            Arg8::IndReg(Reg16::HL) => {
                let hl = self.read_reg16(&Reg16::HL);
                memory.write_byte(hl, v1);
            }
            _ => {
                return Err(GbError::InvalidInstruction);
            }
        }
        Ok(m)
    }

    fn rl<M: MemoryIF>(&mut self, x: Arg8, memory: &mut M) -> (r: Result<usize, GbError>)
        requires
            old(self).wf(),
            old(memory).wf(),
            rmw_pre(*old(self), x, *old(memory)),
        ensures
            handler_ensures(
                *old(self),
                Inst::Rl(x),
                old(memory).mem(),
                *final(self),
                final(memory).mem(),
                r,
            ),
            final(self).wf(),
            mem_maps_ok(*old(memory), *final(memory)),
    {
        let (m, v): (usize, u8) = match x {
            Arg8::Reg(rg) => (2, self.read_reg8(&rg)),
            Arg8::IndReg(Reg16::HL) => {
                let hl = self.read_reg16(&Reg16::HL);
                (4, memory.read_byte(hl))
            }
            _ => {
                return Err(GbError::InvalidInstruction);
            }
        };
        let c = self.test_f(FlagReg::C);
        let (v1, c1) = rot_through_carry(v, c, Direction::Left);
        if v1 == 0 {
            self.set_f(FlagReg::Z);
        } else {
            self.clear_f(FlagReg::Z);
        }
        self.clear_f(FlagReg::N);
        self.clear_f(FlagReg::H);
        if c1 {
            self.set_f(FlagReg::C)
        } else {
            self.clear_f(FlagReg::C)
        };
        proof {
            lemma_flags_value(*self, v1 == 0, false, false, c1);
        }
        match x {
            Arg8::Reg(rg) => {
                self.write_reg8(&rg, v1);
            }
            Arg8::IndReg(Reg16::HL) => {
                let hl = self.read_reg16(&Reg16::HL);
                memory.write_byte(hl, v1);
            }
            _ => {
                return Err(GbError::InvalidInstruction);
            }
        }
        Ok(m)
    }

    fn rrc<M: MemoryIF>(&mut self, x: Arg8, memory: &mut M) -> (r: Result<usize, GbError>)
        requires
            old(self).wf(),
            old(memory).wf(),
            rmw_pre(*old(self), x, *old(memory)),
        ensures
            handler_ensures(
                *old(self),
                Inst::Rrc(x),
                old(memory).mem(),
                *final(self),
                final(memory).mem(),
                r,
            ),
            final(self).wf(),
            mem_maps_ok(*old(memory), *final(memory)),
    {
        let (m, v): (usize, u8) = match x {
            Arg8::Reg(rg) => (2, self.read_reg8(&rg)),
            Arg8::IndReg(Reg16::HL) => {
                let hl = self.read_reg16(&Reg16::HL);
                (4, memory.read_byte(hl))
            }
            _ => {
                return Err(GbError::InvalidInstruction);
            }
        };
        let (v1, c) = rot(v, Direction::Right);
        if v1 == 0 {
            self.set_f(FlagReg::Z);
        } else {
            self.clear_f(FlagReg::Z);
        }
        self.clear_f(FlagReg::N);
        self.clear_f(FlagReg::H);
        if c {
            self.set_f(FlagReg::C)
        } else {
            self.clear_f(FlagReg::C)
        };
        proof {
            lemma_flags_value(*self, v1 == 0, false, false, c);
        }
        match x {
            Arg8::Reg(rg) => {
                self.write_reg8(&rg, v1);
            }
            Arg8::IndReg(Reg16::HL) => {
                let hl = self.read_reg16(&Reg16::HL);
                memory.write_byte(hl, v1);
            }
            _ => {
                return Err(GbError::InvalidInstruction);
            }
        }
        Ok(m)
    }

    fn rr<M: MemoryIF>(&mut self, x: Arg8, memory: &mut M) -> (r: Result<usize, GbError>)
        requires
            old(self).wf(),
            old(memory).wf(),
            rmw_pre(*old(self), x, *old(memory)),
        ensures
            handler_ensures(
                *old(self),
                Inst::Rr(x),
                old(memory).mem(),
                *final(self),
                final(memory).mem(),
                r,
            ),
            final(self).wf(),
            mem_maps_ok(*old(memory), *final(memory)),
    {
        let (m, v): (usize, u8) = match x {
            Arg8::Reg(rg) => (2, self.read_reg8(&rg)),
            Arg8::IndReg(Reg16::HL) => {
                let hl = self.read_reg16(&Reg16::HL);
                (4, memory.read_byte(hl))
            }
            _ => {
                return Err(GbError::InvalidInstruction);
            }
        };
        let c = self.test_f(FlagReg::C);
        let (v1, c1) = rot_through_carry(v, c, Direction::Right);
        if v1 == 0 {
            self.set_f(FlagReg::Z);
        } else {
            self.clear_f(FlagReg::Z);
        }
        self.clear_f(FlagReg::N);
        self.clear_f(FlagReg::H);
        if c1 {
            self.set_f(FlagReg::C)
        } else {
            self.clear_f(FlagReg::C)
        };
        proof {
            lemma_flags_value(*self, v1 == 0, false, false, c1);
        }
        match x {
            Arg8::Reg(rg) => {
                self.write_reg8(&rg, v1);
            }
            Arg8::IndReg(Reg16::HL) => {
                let hl = self.read_reg16(&Reg16::HL);
                memory.write_byte(hl, v1);
            }
            _ => {
                return Err(GbError::InvalidInstruction);
            }
        }
        Ok(m)
    }

    fn sla<M: MemoryIF>(&mut self, x: Arg8, memory: &mut M) -> (r: Result<usize, GbError>)
        requires
            old(self).wf(),
            old(memory).wf(),
            rmw_pre(*old(self), x, *old(memory)),
        ensures
            handler_ensures(
                *old(self),
                Inst::Sla(x),
                old(memory).mem(),
                *final(self),
                final(memory).mem(),
                r,
            ),
            final(self).wf(),
            mem_maps_ok(*old(memory), *final(memory)),
    {
        let (m, v): (usize, u8) = match x {
            Arg8::Reg(rg) => (2, self.read_reg8(&rg)),
            Arg8::IndReg(Reg16::HL) => {
                let hl = self.read_reg16(&Reg16::HL);
                (4, memory.read_byte(hl))
            }
            _ => {
                return Err(GbError::InvalidInstruction);
            }
        };
        proof {
            bits::lemma_shift_facts(v);
        }
        let v1 = v << 1;
        let c = v & 0x80 != 0;
        if v1 == 0 {
            self.set_f(FlagReg::Z);
        } else {
            self.clear_f(FlagReg::Z);
        }
        self.clear_f(FlagReg::N);
        self.clear_f(FlagReg::H);
        if c {
            self.set_f(FlagReg::C)
        } else {
            self.clear_f(FlagReg::C)
        };
        proof {
            lemma_flags_value(*self, v1 == 0, false, false, c);
        }
        match x {
            Arg8::Reg(rg) => {
                self.write_reg8(&rg, v1);
            }
            Arg8::IndReg(Reg16::HL) => {
                let hl = self.read_reg16(&Reg16::HL);
                memory.write_byte(hl, v1);
            }
            _ => {
                return Err(GbError::InvalidInstruction);
            }
        }
        Ok(m)
    }

    fn sra<M: MemoryIF>(&mut self, x: Arg8, memory: &mut M) -> (r: Result<usize, GbError>)
        requires
            old(self).wf(),
            old(memory).wf(),
            rmw_pre(*old(self), x, *old(memory)),
        ensures
            handler_ensures(
                *old(self),
                Inst::Sra(x),
                old(memory).mem(),
                *final(self),
                final(memory).mem(),
                r,
            ),
            final(self).wf(),
            mem_maps_ok(*old(memory), *final(memory)),
    {
        let (m, v): (usize, u8) = match x {
            Arg8::Reg(rg) => (2, self.read_reg8(&rg)),
            Arg8::IndReg(Reg16::HL) => {
                let hl = self.read_reg16(&Reg16::HL);
                (4, memory.read_byte(hl))
            }
            _ => {
                return Err(GbError::InvalidInstruction);
            }
        };
        proof {
            bits::lemma_shift_facts(v);
        }
        let v1 = (v >> 1) | (v & 0x80);
        let c = v & 0x01 != 0;
        if v1 == 0 {
            self.set_f(FlagReg::Z);
        } else {
            self.clear_f(FlagReg::Z);
        }
        self.clear_f(FlagReg::N);
        self.clear_f(FlagReg::H);
        if c {
            self.set_f(FlagReg::C)
        } else {
            self.clear_f(FlagReg::C)
        };
        proof {
            lemma_flags_value(*self, v1 == 0, false, false, c);
        }
        match x {
            Arg8::Reg(rg) => {
                self.write_reg8(&rg, v1);
            }
            Arg8::IndReg(Reg16::HL) => {
                let hl = self.read_reg16(&Reg16::HL);
                memory.write_byte(hl, v1);
            }
            _ => {
                return Err(GbError::InvalidInstruction);
            }
        }
        Ok(m)
    }

    fn srl<M: MemoryIF>(&mut self, x: Arg8, memory: &mut M) -> (r: Result<usize, GbError>)
        requires
            old(self).wf(),
            old(memory).wf(),
            rmw_pre(*old(self), x, *old(memory)),
        ensures
            handler_ensures(
                *old(self),
                Inst::Srl(x),
                old(memory).mem(),
                *final(self),
                final(memory).mem(),
                r,
            ),
            final(self).wf(),
            mem_maps_ok(*old(memory), *final(memory)),
    {
        let (m, v): (usize, u8) = match x {
            Arg8::Reg(rg) => (2, self.read_reg8(&rg)),
            Arg8::IndReg(Reg16::HL) => {
                let hl = self.read_reg16(&Reg16::HL);
                (4, memory.read_byte(hl))
            }
            _ => {
                return Err(GbError::InvalidInstruction);
            }
        };
        proof {
            bits::lemma_shift_facts(v);
        }
        let v1 = v >> 1;
        let c = v & 0x01 != 0;
        if v1 == 0 {
            self.set_f(FlagReg::Z);
        } else {
            self.clear_f(FlagReg::Z);
        }
        self.clear_f(FlagReg::N);
        self.clear_f(FlagReg::H);
        if c {
            self.set_f(FlagReg::C)
        } else {
            self.clear_f(FlagReg::C)
        };
        proof {
            lemma_flags_value(*self, v1 == 0, false, false, c);
        }
        match x {
            Arg8::Reg(rg) => {
                self.write_reg8(&rg, v1);
            }
            Arg8::IndReg(Reg16::HL) => {
                let hl = self.read_reg16(&Reg16::HL);
                memory.write_byte(hl, v1);
            }
            _ => {
                return Err(GbError::InvalidInstruction);
            }
        }
        Ok(m)
    }

    fn swap<M: MemoryIF>(&mut self, x: Arg8, memory: &mut M) -> (r: Result<usize, GbError>)
        requires
            old(self).wf(),
            old(memory).wf(),
            rmw_pre(*old(self), x, *old(memory)),
        ensures
            handler_ensures(
                *old(self),
                Inst::Swap(x),
                old(memory).mem(),
                *final(self),
                final(memory).mem(),
                r,
            ),
            final(self).wf(),
            mem_maps_ok(*old(memory), *final(memory)),
    {
        let (m, v): (usize, u8) = match x {
            Arg8::Reg(rg) => (2, self.read_reg8(&rg)),
            Arg8::IndReg(Reg16::HL) => {
                let hl = self.read_reg16(&Reg16::HL);
                (4, memory.read_byte(hl))
            }
            _ => {
                return Err(GbError::InvalidInstruction);
            }
        };
        proof {
            bits::lemma_shift_facts(v);
        }
        let v1 = ((v & 0xf0) >> 4) | ((v & 0x0f) << 4);
        if v1 == 0 {
            self.set_f(FlagReg::Z);
        } else {
            self.clear_f(FlagReg::Z);
        }
        self.clear_f(FlagReg::N);
        self.clear_f(FlagReg::H);
        self.clear_f(FlagReg::C);
        proof {
            lemma_flags_value(*self, v1 == 0, false, false, false);
        }
        match x {
            Arg8::Reg(rg) => {
                self.write_reg8(&rg, v1);
            }
            Arg8::IndReg(Reg16::HL) => {
                let hl = self.read_reg16(&Reg16::HL);
                memory.write_byte(hl, v1);
            }
            _ => {
                return Err(GbError::InvalidInstruction);
            }
        }
        Ok(m)
    }

    fn bit<M: MemoryIF>(&mut self, n: u8, x: Arg8, memory: &mut M) -> (r: Result<usize, GbError>)
        requires
            old(self).wf(),
            old(memory).wf(),
            n <= 7,
            alu_pre(*old(self), x, *old(memory)),
        ensures
            handler_ensures(
                *old(self),
                Inst::Bit(n, x),
                old(memory).mem(),
                *final(self),
                final(memory).mem(),
                r,
            ),
            final(self).wf(),
            mem_maps_ok(*old(memory), *final(memory)),
    {
        let (m, v): (usize, u8) = match x {
            Arg8::Reg(rg) => (2, self.read_reg8(&rg)),
            Arg8::IndReg(Reg16::HL) => {
                let hl = self.read_reg16(&Reg16::HL);
                (3, memory.read_byte(hl))
            }
            _ => {
                return Err(GbError::InvalidInstruction);
            }
        };
        if v & (1 << n) == 0 {
            self.set_f(FlagReg::Z);
        } else {
            self.clear_f(FlagReg::Z);
        }
        self.clear_f(FlagReg::N);
        self.set_f(FlagReg::H);
        proof {
            lemma_flags_value(*self, v & (1u8 << n) == 0, false, true, old(self).flag_c());
        }
        Ok(m)
    }

    fn set<M: MemoryIF>(&mut self, n: u8, x: Arg8, memory: &mut M) -> (r: Result<usize, GbError>)
        requires
            old(self).wf(),
            old(memory).wf(),
            n <= 7,
            rmw_pre(*old(self), x, *old(memory)),
        ensures
            handler_ensures(
                *old(self),
                Inst::SetBit(n, x),
                old(memory).mem(),
                *final(self),
                final(memory).mem(),
                r,
            ),
            final(self).wf(),
            mem_maps_ok(*old(memory), *final(memory)),
    {
        let (m, v): (usize, u8) = match x {
            Arg8::Reg(rg) => (2, self.read_reg8(&rg)),
            Arg8::IndReg(Reg16::HL) => {
                let hl = self.read_reg16(&Reg16::HL);
                (4, memory.read_byte(hl))
            }
            _ => {
                return Err(GbError::InvalidInstruction);
            }
        };
        let v1 = v | (1 << n);
        match x {
            Arg8::Reg(rg) => {
                self.write_reg8(&rg, v1);
            }
            Arg8::IndReg(Reg16::HL) => {
                let hl = self.read_reg16(&Reg16::HL);
                memory.write_byte(hl, v1);
            }
            _ => {
                return Err(GbError::InvalidInstruction);
            }
        }
        Ok(m)
    }

    fn res<M: MemoryIF>(&mut self, n: u8, x: Arg8, memory: &mut M) -> (r: Result<usize, GbError>)
        requires
            old(self).wf(),
            old(memory).wf(),
            n <= 7,
            rmw_pre(*old(self), x, *old(memory)),
        ensures
            handler_ensures(
                *old(self),
                Inst::Res(n, x),
                old(memory).mem(),
                *final(self),
                final(memory).mem(),
                r,
            ),
            final(self).wf(),
            mem_maps_ok(*old(memory), *final(memory)),
    {
        let (m, v): (usize, u8) = match x {
            Arg8::Reg(rg) => (2, self.read_reg8(&rg)),
            Arg8::IndReg(Reg16::HL) => {
                let hl = self.read_reg16(&Reg16::HL);
                (4, memory.read_byte(hl))
            }
            _ => {
                return Err(GbError::InvalidInstruction);
            }
        };
        let v1 = v & !(1 << n);
        match x {
            Arg8::Reg(rg) => {
                self.write_reg8(&rg, v1);
            }
            Arg8::IndReg(Reg16::HL) => {
                let hl = self.read_reg16(&Reg16::HL);
                memory.write_byte(hl, v1);
            }
            _ => {
                return Err(GbError::InvalidInstruction);
            }
        }
        Ok(m)
    }

    fn ccf(&mut self) -> (m: usize)
        requires
            old(self).wf(),
        ensures
            *final(self) == old(self).with_flags(
                old(self).flag_z(),
                false,
                false,
                !old(self).flag_c(),
            ),
            final(self).wf(),
            m == 1,
    {
        self.clear_f(FlagReg::N);
        self.clear_f(FlagReg::H);
        if self.test_f(FlagReg::C) {
            self.clear_f(FlagReg::C);
        } else {
            self.set_f(FlagReg::C);
        };
        proof {
            lemma_flags_value(*self, old(self).flag_z(), false, false, !old(self).flag_c());
        }
        1
    }

    fn scf(&mut self) -> (m: usize)
        requires
            old(self).wf(),
        ensures
            *final(self) == old(self).with_flags(old(self).flag_z(), false, false, true),
            final(self).wf(),
            m == 1,
    {
        self.clear_f(FlagReg::N);
        self.clear_f(FlagReg::H);
        self.set_f(FlagReg::C);
        proof {
            lemma_flags_value(*self, old(self).flag_z(), false, false, true);
        }
        1
    }

    fn di(&mut self, ime: &mut bool) -> (m: usize)
        ensures
            *final(self) == *old(self),
            *final(ime) == false,
            m == 1,
    {
        *ime = false;
        1
    }

    fn ei(&mut self, ime: &mut bool) -> (m: usize)
        ensures
            *final(self) == *old(self),
            *final(ime) == true,
            m == 1,
    {
        *ime = true;
        1
    }

    fn jp_nn(&mut self, nn: u16) -> (m: usize)
        ensures
            *final(self) == old(self).spec_set_reg16(Reg16::PC, nn),
            m == 4,
    {
        self.write_reg16(&Reg16::PC, nn);
        4
    }

    fn jp_hl(&mut self) -> (m: usize)
        ensures
            *final(self) == old(self).spec_set_reg16(
                Reg16::PC,
                old(self).spec_reg16(Reg16::HL),
            ),
            m == 1,
    {
        let hl = self.read_reg16(&Reg16::HL);
        self.write_reg16(&Reg16::PC, hl);
        1
    }

    fn jp_f_nn(&mut self, f: JpFlag, nn: u16) -> (m: usize)
        ensures
            *final(self) == (if cond_spec(*old(self), f) {
                old(self).spec_set_reg16(Reg16::PC, nn)
            } else {
                *old(self)
            }),
            m == (if cond_spec(*old(self), f) {
                4usize
            } else {
                3usize
            }),
    {
        let z = self.test_f(FlagReg::Z);
        let c = self.test_f(FlagReg::C);
        let branch = match f {
            JpFlag::Nz => !z,
            JpFlag::Z => z,
            JpFlag::Nc => !c,
            JpFlag::C => c,
        };
        if branch {
            self.write_reg16(&Reg16::PC, nn);
            4
        } else {
            3
        }
    }

    fn jr_dd(&mut self, dd: i8) -> (m: usize)
        ensures
            *final(self) == old(self).spec_set_reg16(Reg16::PC, plus_dd(old(self).pc, dd)),
            m == 3,
    {
        let pc = self.read_reg16(&Reg16::PC);
        let pc1 = pc.wrapping_add_signed(dd as i16);
        self.write_reg16(&Reg16::PC, pc1);
        3
    }

    fn jr_f_dd(&mut self, f: JpFlag, dd: i8) -> (m: usize)
        ensures
            *final(self) == (if cond_spec(*old(self), f) {
                old(self).spec_set_reg16(Reg16::PC, plus_dd(old(self).pc, dd))
            } else {
                *old(self)
            }),
            m == (if cond_spec(*old(self), f) {
                3usize
            } else {
                2usize
            }),
    {
        let z = self.test_f(FlagReg::Z);
        let c = self.test_f(FlagReg::C);
        let branch = match f {
            JpFlag::Nz => !z,
            JpFlag::Z => z,
            JpFlag::Nc => !c,
            JpFlag::C => c,
        };
        if branch {
            let pc = self.read_reg16(&Reg16::PC);
            let pc1 = pc.wrapping_add_signed(dd as i16);
            self.write_reg16(&Reg16::PC, pc1);
            3
        } else {
            2
        }
    }

    fn call_nn<M: MemoryIF>(&mut self, nn: u16, memory: &mut M) -> (m: usize)
        requires
            old(self).wf(),
            old(memory).wf(),
            stack_push_pre(*old(self), *old(memory)),
        ensures
            *final(self) == old(self).spec_set_reg16(
                Reg16::SP,
                (old(self).sp - 2) as u16,
            ).spec_set_reg16(Reg16::PC, nn),
            final(memory).mem() == old(memory).mem().update(
                old(self).sp - 2,
                (old(self).pc % 256) as u8,
            ).update(old(self).sp - 1, (old(self).pc / 256) as u8),
            m == 6,
            final(self).wf(),
            mem_maps_ok(*old(memory), *final(memory)),
    {
        let pc = self.read_reg16(&Reg16::PC);
        let sp = self.read_reg16(&Reg16::SP);
        self.write_reg16(&Reg16::SP, sp - 2);
        memory.write_word(sp - 2, pc);
        self.write_reg16(&Reg16::PC, nn);
        6
    }

    fn call_f_nn<M: MemoryIF>(&mut self, f: JpFlag, nn: u16, memory: &mut M) -> (m: usize)
        requires
            old(self).wf(),
            old(memory).wf(),
            cond_spec(*old(self), f) ==> stack_push_pre(*old(self), *old(memory)),
        ensures
            *final(self) == (if cond_spec(*old(self), f) {
                old(self).spec_set_reg16(Reg16::SP, (old(self).sp - 2) as u16).spec_set_reg16(
                    Reg16::PC,
                    nn,
                )
            } else {
                *old(self)
            }),
            final(memory).mem() == (if cond_spec(*old(self), f) {
                old(memory).mem().update(old(self).sp - 2, (old(self).pc % 256) as u8).update(
                    old(self).sp - 1,
                    (old(self).pc / 256) as u8,
                )
            } else {
                old(memory).mem()
            }),
            m == (if cond_spec(*old(self), f) {
                6usize
            } else {
                3usize
            }),
            final(self).wf(),
            mem_maps_ok(*old(memory), *final(memory)),
    {
        let z = self.test_f(FlagReg::Z);
        let c = self.test_f(FlagReg::C);
        let branch = match f {
            JpFlag::Nz => !z,
            JpFlag::Z => z,
            JpFlag::Nc => !c,
            JpFlag::C => c,
        };
        if branch {
            let pc = self.read_reg16(&Reg16::PC);
            let sp = self.read_reg16(&Reg16::SP);
            self.write_reg16(&Reg16::SP, sp - 2);
            memory.write_word(sp - 2, pc);
            self.write_reg16(&Reg16::PC, nn);
            6
        } else {
            3
        }
    }

    fn ret<M: MemoryIF>(&mut self, memory: &mut M) -> (m: usize)
        requires
            old(self).wf(),
            old(memory).wf(),
            stack_pop_pre(*old(self), *old(memory)),
        ensures
            *final(self) == old(self).spec_set_reg16(
                Reg16::SP,
                (old(self).sp + 2) as u16,
            ).spec_set_reg16(Reg16::PC, word_of(old(memory).mem(), old(self).sp)),
            final(memory).mem() == old(memory).mem(),
            m == 4,
            final(self).wf(),
            mem_maps_ok(*old(memory), *final(memory)),
    {
        let sp = self.read_reg16(&Reg16::SP);
        let pc = memory.read_word(sp);
        self.write_reg16(&Reg16::SP, sp + 2);
        self.write_reg16(&Reg16::PC, pc);
        4
    }

    fn ret_f<M: MemoryIF>(&mut self, f: JpFlag, memory: &mut M) -> (m: usize)
        requires
            old(self).wf(),
            old(memory).wf(),
            cond_spec(*old(self), f) ==> stack_pop_pre(*old(self), *old(memory)),
        ensures
            *final(self) == (if cond_spec(*old(self), f) {
                old(self).spec_set_reg16(Reg16::SP, (old(self).sp + 2) as u16).spec_set_reg16(
                    Reg16::PC,
                    word_of(old(memory).mem(), old(self).sp),
                )
            } else {
                *old(self)
            }),
            final(memory).mem() == old(memory).mem(),
            m == (if cond_spec(*old(self), f) {
                5usize
            } else {
                2usize
            }),
            final(self).wf(),
            mem_maps_ok(*old(memory), *final(memory)),
    {
        let z = self.test_f(FlagReg::Z);
        let c = self.test_f(FlagReg::C);
        let branch = match f {
            JpFlag::Nz => !z,
            JpFlag::Z => z,
            JpFlag::Nc => !c,
            JpFlag::C => c,
        };
        if branch {
            let sp = self.read_reg16(&Reg16::SP);
            let pc = memory.read_word(sp);
            self.write_reg16(&Reg16::SP, sp + 2);
            self.write_reg16(&Reg16::PC, pc);
            5
        } else {
            2
        }
    }

    fn reti<M: MemoryIF>(&mut self, memory: &mut M, ime: &mut bool) -> (m: usize)
        requires
            old(self).wf(),
            old(memory).wf(),
            stack_pop_pre(*old(self), *old(memory)),
        ensures
            *final(self) == old(self).spec_set_reg16(
                Reg16::SP,
                (old(self).sp + 2) as u16,
            ).spec_set_reg16(Reg16::PC, word_of(old(memory).mem(), old(self).sp)),
            final(memory).mem() == old(memory).mem(),
            m == 4,
            *final(ime) == true,
            final(self).wf(),
            mem_maps_ok(*old(memory), *final(memory)),
    {
        let sp = self.read_reg16(&Reg16::SP);
        let pc = memory.read_word(sp);
        self.write_reg16(&Reg16::SP, sp + 2);
        self.write_reg16(&Reg16::PC, pc);
        *ime = true;
        4
    }

    fn rst_n<M: MemoryIF>(&mut self, n: u8, memory: &mut M) -> (m: usize)
        requires
            old(self).wf(),
            old(memory).wf(),
            stack_push_pre(*old(self), *old(memory)),
        ensures
            *final(self) == old(self).spec_set_reg16(
                Reg16::SP,
                (old(self).sp - 2) as u16,
            ).spec_set_reg16(Reg16::PC, n as u16),
            final(memory).mem() == old(memory).mem().update(
                old(self).sp - 2,
                (old(self).pc % 256) as u8,
            ).update(old(self).sp - 1, (old(self).pc / 256) as u8),
            m == 4,
            final(self).wf(),
            mem_maps_ok(*old(memory), *final(memory)),
    {
        let pc = self.read_reg16(&Reg16::PC);
        let sp = self.read_reg16(&Reg16::SP);
        self.write_reg16(&Reg16::SP, sp - 2);
        memory.write_word(sp - 2, pc);
        self.write_reg16(&Reg16::PC, n as u16);
        4
    }
}

/// Which way a rotate moves.
enum Direction {
    Left,
    Right,
}

/// Rotate a byte one place: the bit that leaves re-enters on the other side
/// and is reported as the Carry.
fn rot(v: u8, d: Direction) -> (r: (u8, bool))
    ensures
        r == (match d {
            Direction::Left => spec_rlc_val(v),
            Direction::Right => spec_rrc_val(v),
        }),
{
    proof {
        bits::lemma_shift_facts(v);
    }
    match d {
        Direction::Left => {
            let v1 = v << 1;
            let v2 = if v & 0x80 != 0 {
                v1 | 0x01
            } else {
                v1
            };
            let c = v & 0x80 != 0;
            (v2, c)
        }
        Direction::Right => {
            let v1 = v >> 1;
            let v2 = if v & 0x01 != 0 {
                v1 | 0x80
            } else {
                v1
            };
            let c = v & 0x01 != 0;
            (v2, c)
        }
    }
}

/// Rotate a byte one place through the Carry: the old Carry enters, the bit
/// that leaves becomes the new Carry.
fn rot_through_carry(v: u8, c: bool, d: Direction) -> (r: (u8, bool))
    ensures
        r == (match d {
            Direction::Left => spec_rl_val(v, c),
            Direction::Right => spec_rr_val(v, c),
        }),
{
    proof {
        bits::lemma_shift_facts(v);
    }
    match d {
        Direction::Left => {
            let v1 = v << 1;
            let v2 = if c {
                v1 | 0x01
            } else {
                v1
            };
            let c1 = v & 0x80 != 0;
            (v2, c1)
        }
        Direction::Right => {
            let v1 = v >> 1;
            let v2 = if c {
                v1 | 0x80
            } else {
                v1
            };
            let c1 = v & 0x01 != 0;
            (v2, c1)
        }
    }
}

} // verus!