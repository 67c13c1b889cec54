//! Properties of the instruction set that hold of every state, proved once
//! against the step model that `decode` and `execute` are specified by.

use vstd::prelude::*;

use super::execute::cond_spec;
use super::execute::plus_dd;
use super::execute::step_spec;
use super::inst::Arg8;
use super::inst::Inst;
use super::inst::JpFlag;
use super::inst::Reg16;
use super::inst::Reg8;
use super::intr_spec;
use super::Cpu;
use super::Registers;
use crate::bits;
use crate::memory::word_of;
use crate::memory::IE;
use crate::memory::IF;

verus! {

/// Every instruction of the 256-entry extended table executes: the step
/// model is defined on the extended decoder's whole image.
#[verifier::rlimit(100)]
pub proof fn lemma_extended_inst_executes(
    code: u8,
    regs: Registers,
    mem2: Seq<u8>,
    ime: bool,
)
    ensures
        step_spec(regs, super::decode_prefix_cb::spec_decode_prefix_cb(code), mem2, ime)
            matches Some(_),
{
}

/// Stack round trip: pushing BC and then popping into DE leaves the stack
/// pointer where it started and lands the original BC in DE, the
/// little-endian word layout preserved.
pub proof fn lemma_push_pop_round_trip(regs: Registers, mem: Seq<u8>, ime: bool)
    requires
        regs.wf(),
        2 <= regs.sp,
        mem.len() == 0x10000,
    ensures
        ({
            let s1 = step_spec(regs, Inst::Push16(Reg16::BC), mem, ime).unwrap();
            let s2 = step_spec(s1.regs, Inst::Pop16(Reg16::DE), s1.mem, s1.ime).unwrap();
            &&& s2.regs.sp == regs.sp
            &&& s2.regs.spec_reg16(Reg16::DE) == regs.spec_reg16(Reg16::BC)
        }),
{
}

/// Conditional control flow: every conditional form costs strictly more when
/// taken than when not taken, and the program counter moves exactly when the
/// flag predicate holds.
pub proof fn lemma_conditional_costs(
    regs: Registers,
    mem: Seq<u8>,
    ime: bool,
    f: JpFlag,
    nn: u16,
    dd: i8,
)
    ensures
        ({
            let s = step_spec(regs, Inst::Jpf(f, nn), mem, ime).unwrap();
            if cond_spec(regs, f) {
                s.cost == 4 && s.regs.pc == nn
            } else {
                s.cost == 3 && s.regs == regs
            }
        }),
        ({
            let s = step_spec(regs, Inst::Jrf(f, dd), mem, ime).unwrap();
            if cond_spec(regs, f) {
                s.cost == 3 && s.regs.pc == plus_dd(regs.pc, dd)
            } else {
                s.cost == 2 && s.regs == regs
            }
        }),
        ({
            let s = step_spec(regs, Inst::Callf(f, nn), mem, ime).unwrap();
            if cond_spec(regs, f) {
                s.cost == 6 && s.regs.pc == nn
            } else {
                s.cost == 3 && s.regs == regs
            }
        }),
        ({
            let s = step_spec(regs, Inst::Retf(f), mem, ime).unwrap();
            if cond_spec(regs, f) {
                s.cost == 5 && s.regs.pc == word_of(mem, regs.sp)
            } else {
                s.cost == 2 && s.regs == regs
            }
        }),
{
}

/// Toggling the Carry twice restores its original value, and both times the
/// Subtraction and Half-carry flags come out cleared.
pub proof fn lemma_ccf_idempotent(regs: Registers, mem: Seq<u8>, ime: bool)
    requires
        regs.wf(),
    ensures
        ({
            let s1 = step_spec(regs, Inst::Ccf, mem, ime).unwrap();
            let s2 = step_spec(s1.regs, Inst::Ccf, s1.mem, s1.ime).unwrap();
            &&& s1.regs.flag_n() == false
            &&& s1.regs.flag_h() == false
            &&& s1.regs.flag_c() == !regs.flag_c()
            &&& s2.regs.flag_n() == false
            &&& s2.regs.flag_h() == false
            &&& s2.regs.flag_c() == regs.flag_c()
        }),
{
    let s1 = step_spec(regs, Inst::Ccf, mem, ime).unwrap();
    super::lemma_pack_flags(regs.flag_z(), false, false, !regs.flag_c());
    super::lemma_pack_flags(s1.regs.flag_z(), false, false, !s1.regs.flag_c());
}

/// Auto-increment and auto-decrement symmetry: storing A through (HL+) and
/// then loading A through (HL-) restores HL to its original value, though
/// the two accesses target different addresses.
pub proof fn lemma_hl_inc_dec_symmetry(regs: Registers, mem: Seq<u8>, ime: bool)
    requires
        regs.wf(),
        regs.spec_reg16(Reg16::HL) < 0xffff,
        mem.len() == 0x10000,
    ensures
        ({
            let store = Inst::Ld8(Arg8::IndIncHL, Arg8::Reg(Reg8::A));
            let load = Inst::Ld8(Arg8::Reg(Reg8::A), Arg8::IndDecHL);
            let s1 = step_spec(regs, store, mem, ime).unwrap();
            let s2 = step_spec(s1.regs, load, s1.mem, s1.ime).unwrap();
            &&& s2.regs.spec_reg16(Reg16::HL) == regs.spec_reg16(Reg16::HL)
            &&& s2.regs.a == s1.mem[regs.spec_reg16(Reg16::HL) as int + 1]
        }),
{
}

/// Interrupt priority: with the VBlank and Joypad bits both pending and
/// enabled and no bit between them, one dispatch pass services VBlank alone
/// and leaves Joypad latched; a second pass, once the master enable is set
/// again, services Joypad.
pub proof fn lemma_interrupt_priority(cpu: Cpu, mem: Seq<u8>)
    requires
        cpu.ime,
        cpu.reg.sp >= 4,
        mem.len() == 0x10000,
        mem[IF as int] & 0x01 != 0,
        mem[IF as int] & 0x10 != 0,
        mem[IE as int] & 0x01 != 0,
        mem[IE as int] & 0x10 != 0,
        (mem[IF as int] & mem[IE as int]) & 0x0e == 0,
    ensures
        ({
            let t1 = intr_spec(cpu, mem);
            let t2 = intr_spec(Cpu { ime: true, ..t1.cpu }, t1.mem);
            &&& t1.cpu.reg.pc == 0x40
            &&& t1.mem[IF as int] & 0x01 == 0
            &&& t1.mem[IF as int] & 0x10 != 0
            &&& t2.cpu.reg.pc == 0x60
            &&& t2.mem[IF as int] & 0x10 == 0
        }),
{
    let i_flag = mem[IF as int];
    let i_enable = mem[IE as int];
    bits::lemma_intr_bits(i_flag, i_enable);
    let t1 = intr_spec(cpu, mem);
    let sp = cpu.reg.sp;
    assert(t1.mem[IF as int] == i_flag & !0x01);
    let if2 = t1.mem[IF as int];
    let ie2 = t1.mem[IE as int];
    assert(ie2 == i_enable);
    bits::lemma_intr_bits2(i_flag, i_enable);
}

} // verus!
