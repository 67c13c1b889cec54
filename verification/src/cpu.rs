//! The processor core: register file, flag model, instruction execution,
//! interrupt dispatch and the tick scheduler.

pub mod decode;
pub mod decode_prefix_cb;
pub mod execute;
pub mod laws;
pub mod inst;

use vstd::prelude::*;

use crate::bits;
use crate::memory::MemoryIF;
use crate::memory::IE;
use crate::memory::IF;
use decode::decode;
use decode::decode_pre;
use decode::decode_spec;
use execute::exec_pre;
use execute::step_spec;
use inst::FlagReg;
use inst::Inst;
use inst::Reg16;
use inst::Reg8;

verus! {

/// An error surfaced to the host: either an opcode byte with no defined
/// instruction, an instruction whose operand combination has no defined
/// semantics, or an interrupt mask bit outside the five defined ones.
#[derive(Clone, Copy, Debug, PartialEq, Eq, Structural)]
pub enum GbError {
    /// The byte at the program counter decodes to no instruction.
    InvalidOpcode(u8),
    /// The instruction reached execution with an undefined operand form.
    InvalidInstruction,
    /// The masked interrupt flags hold a bit outside the five defined ones.
    InvalidInterrupt,
}

/// The F byte assembled from the four flag bits; the low nibble is zero.
pub open spec fn pack_flags(z: bool, n: bool, h: bool, c: bool) -> u8 {
    (if z { 0x80u8 } else { 0u8 }) | (if n { 0x40u8 } else { 0u8 })
        | (if h { 0x20u8 } else { 0u8 }) | (if c { 0x10u8 } else { 0u8 })
}

/// The mask of one flag bit within F.
pub open spec fn spec_flag_mask(f: FlagReg) -> u8 {
    match f {
        FlagReg::Z => 0x80,
        FlagReg::N => 0x40,
        FlagReg::H => 0x20,
        FlagReg::C => 0x10,
    }
}

/// The mask of one flag bit within F.
pub fn flag_mask(f: FlagReg) -> (r: u8)
    ensures
        r == spec_flag_mask(f),
{
    match f {
        FlagReg::Z => 0x80,
        FlagReg::N => 0x40,
        FlagReg::H => 0x20,
        FlagReg::C => 0x10,
    }
}

/// "1" for a set bit, "0" for a clear one.
pub fn b2n(b: bool) -> (r: &'static str)
    ensures
        r@ == (if b { "1"@ } else { "0"@ }),
{
    if b {
        "1"
    } else {
        "0"
    }
}

/// The eight 8-bit registers, program counter and stack pointer.
///
/// The paired 16-bit views AF, BC, DE and HL are computed, not stored; the
/// low nibble of F never holds a one bit.
#[derive(Clone, Copy, Debug)]
pub struct Registers {
    pub a: u8,
    pub b: u8,
    pub c: u8,
    pub d: u8,
    pub e: u8,
    pub h: u8,
    pub l: u8,
    pub f: u8,
    pub pc: u16,
    pub sp: u16,
}

impl Registers {
    /// The undocumented low nibble of F is always zero.
    pub open spec fn wf(self) -> bool {
        self.f & 0x0f == 0
    }

    /// The Zero flag.
    pub open spec fn flag_z(self) -> bool {
        self.f & 0x80 != 0
    }

    /// The Subtraction flag.
    pub open spec fn flag_n(self) -> bool {
        self.f & 0x40 != 0
    }

    /// The Half-carry flag.
    pub open spec fn flag_h(self) -> bool {
        self.f & 0x20 != 0
    }

    /// The Carry flag.
    pub open spec fn flag_c(self) -> bool {
        self.f & 0x10 != 0
    }

    /// The named flag bit.
    pub open spec fn flag_set(self, fl: FlagReg) -> bool {
        match fl {
            FlagReg::Z => self.flag_z(),
            FlagReg::N => self.flag_n(),
            FlagReg::H => self.flag_h(),
            FlagReg::C => self.flag_c(),
        }
    }

    /// The value of one 8-bit register.
    pub open spec fn spec_reg8(self, r: Reg8) -> u8 {
        match r {
            Reg8::A => self.a,
            Reg8::B => self.b,
            Reg8::C => self.c,
            Reg8::D => self.d,
            Reg8::E => self.e,
            Reg8::H => self.h,
            Reg8::L => self.l,
        }
    }

    /// The registers after storing `v` into one 8-bit register.
    pub open spec fn spec_set_reg8(self, r: Reg8, v: u8) -> Registers {
        match r {
            Reg8::A => Registers { a: v, ..self },
            Reg8::B => Registers { b: v, ..self },
            Reg8::C => Registers { c: v, ..self },
            Reg8::D => Registers { d: v, ..self },
            Reg8::E => Registers { e: v, ..self },
            Reg8::H => Registers { h: v, ..self },
            Reg8::L => Registers { l: v, ..self },
        }
    }

    /// The value of one 16-bit register view.
    pub open spec fn spec_reg16(self, r: Reg16) -> u16 {
        match r {
            Reg16::AF => (self.a * 256 + self.f) as u16,
            Reg16::BC => (self.b * 256 + self.c) as u16,
            Reg16::DE => (self.d * 256 + self.e) as u16,
            Reg16::HL => (self.h * 256 + self.l) as u16,
            Reg16::PC => self.pc,
            Reg16::SP => self.sp,
        }
    }

    /// The registers after storing `v` into one 16-bit register view;
    /// a store to AF clears the low nibble of F.
    pub open spec fn spec_set_reg16(self, r: Reg16, v: u16) -> Registers {
        match r {
            Reg16::AF => Registers {
                a: (v / 256) as u8,
                f: ((v % 256) as u8) & 0xf0,
                ..self
            },
            Reg16::BC => Registers { b: (v / 256) as u8, c: (v % 256) as u8, ..self },
            Reg16::DE => Registers { d: (v / 256) as u8, e: (v % 256) as u8, ..self },
            Reg16::HL => Registers { h: (v / 256) as u8, l: (v % 256) as u8, ..self },
            Reg16::PC => Registers { pc: v, ..self },
            Reg16::SP => Registers { sp: v, ..self },
        }
    }

    /// The same registers with F replaced.
    pub open spec fn with_f(self, f: u8) -> Registers {
        Registers { f, ..self }
    }

    /// The same registers with the four flag bits replaced and the low
    /// nibble of F cleared.
    pub open spec fn with_flags(self, z: bool, n: bool, h: bool, c: bool) -> Registers {
        self.with_f(pack_flags(z, n, h, c))
    }

    /// The register file at the cartridge entry point: boot sequence already
    /// elapsed, PC at 0x0100, SP at the top of the zero page.
    pub fn new() -> (r: Registers)
        ensures
            r == (Registers {
                a: 0,
                b: 0,
                c: 0,
                d: 0,
                e: 0,
                h: 0,
                l: 0,
                f: 0,
                pc: 0x100,
                sp: 0xfffe,
            }),
            r.wf(),
    {
        proof {
            bits::lemma_low_nibble(0);
        }
        Registers {
            a: 0,
            b: 0,
            c: 0,
            d: 0,
            e: 0,
            h: 0,
            l: 0,
            f: 0,
            pc: 0x100,
            sp: 0xfffe,
        }
    }

    /// Read one 8-bit register.
    pub fn read_reg8(&self, r: &Reg8) -> (v: u8)
        ensures
            v == self.spec_reg8(*r),
    {
        match r {
            Reg8::A => self.a,
            Reg8::B => self.b,
            Reg8::C => self.c,
            Reg8::D => self.d,
            Reg8::E => self.e,
            Reg8::H => self.h,
            Reg8::L => self.l,
        }
    }

    /// Write one 8-bit register.
    pub fn write_reg8(&mut self, r: &Reg8, v: u8)
        ensures
            *final(self) == old(self).spec_set_reg8(*r, v),
    {
        match r {
            Reg8::A => self.a = v,
            Reg8::B => self.b = v,
            Reg8::C => self.c = v,
            Reg8::D => self.d = v,
            Reg8::E => self.e = v,
            Reg8::H => self.h = v,
            Reg8::L => self.l = v,
        }
    }

    /// Read one 16-bit register view.
    pub fn read_reg16(&self, r: &Reg16) -> (v: u16)
        ensures
            v == self.spec_reg16(*r),
    {
        match r {
            Reg16::AF => {
                let a = self.a as u16;
                let f = self.f as u16;
                proof {
                    bits::lemma_word_combine(self.a, self.f);
                }
                (a << 8) | f
            }
            Reg16::BC => {
                let b = self.b as u16;
                let c = self.c as u16;
                proof {
                    bits::lemma_word_combine(self.b, self.c);
                }
                (b << 8) | c
            }
            Reg16::DE => {
                let d = self.d as u16;
                let e = self.e as u16;
                proof {
                    bits::lemma_word_combine(self.d, self.e);
                }
                (d << 8) | e
            }
            Reg16::HL => {
                let h = self.h as u16;
                let l = self.l as u16;
                proof {
                    bits::lemma_word_combine(self.h, self.l);
                }
                (h << 8) | l
            }
            Reg16::PC => self.pc,
            Reg16::SP => self.sp,
        }
    }

    /// Write one 16-bit register view; a store to AF clears the low nibble
    /// of F.
    pub fn write_reg16(&mut self, r: &Reg16, v: u16)
        ensures
            *final(self) == old(self).spec_set_reg16(*r, v),
    {
        proof {
            bits::lemma_word_split(v);
        }
        let v0 = (v >> 8) as u8;
        let v1 = (v & 0x00ff) as u8;
        match r {
            Reg16::AF => {
                self.a = v0;
                // bits 0 - 3 are always 0.
                self.f = v1 & 0xf0;
            }
            Reg16::BC => {
                self.b = v0;
                self.c = v1;
            }
            Reg16::DE => {
                self.d = v0;
                self.e = v1;
            }
            Reg16::HL => {
                self.h = v0;
                self.l = v1;
            }
            Reg16::PC => self.pc = v,
            Reg16::SP => self.sp = v,
        }
    }

    /// Test one flag bit.
    pub fn test_f(&self, f: FlagReg) -> (b: bool)
        ensures
            b == self.flag_set(f),
    {
        proof {
            bits::lemma_flag_bits(self.f);
        }
        let mask = flag_mask(f);
        (self.f & mask) == mask
    }

    /// Clear one flag bit; the other flags and the low nibble keep their
    /// value.
    pub fn clear_f(&mut self, f: FlagReg)
        ensures
            final(self).flag_z() == (f != FlagReg::Z && old(self).flag_z()),
            final(self).flag_n() == (f != FlagReg::N && old(self).flag_n()),
            final(self).flag_h() == (f != FlagReg::H && old(self).flag_h()),
            final(self).flag_c() == (f != FlagReg::C && old(self).flag_c()),
            final(self).f & 0x0f == old(self).f & 0x0f,
            *final(self) == old(self).with_f(final(self).f),
    {
        proof {
            bits::lemma_mask_ops(self.f);
        }
        let mask = flag_mask(f);
        self.f &= !mask;
    }

    /// Set one flag bit; the other flags and the low nibble keep their
    /// value.
    pub fn set_f(&mut self, f: FlagReg)
        ensures
            final(self).flag_z() == (f == FlagReg::Z || old(self).flag_z()),
            final(self).flag_n() == (f == FlagReg::N || old(self).flag_n()),
            final(self).flag_h() == (f == FlagReg::H || old(self).flag_h()),
            final(self).flag_c() == (f == FlagReg::C || old(self).flag_c()),
            final(self).f & 0x0f == old(self).f & 0x0f,
            *final(self) == old(self).with_f(final(self).f),
    {
        proof {
            bits::lemma_mask_ops(self.f);
        }
        let mask = flag_mask(f);
        self.f |= mask;
    }
}

/// A register file whose four flag bits are known and whose low nibble is
/// clear holds exactly the packed flag byte.
pub proof fn lemma_flags_value(r: Registers, z: bool, n: bool, h: bool, c: bool)
    requires
        r.wf(),
        r.flag_z() == z,
        r.flag_n() == n,
        r.flag_h() == h,
        r.flag_c() == c,
    ensures
        r.f == pack_flags(z, n, h, c),
{
    bits::lemma_flag_bits(r.f);
}

/// The packed flag byte reads back the four bits it was built from, and its
/// low nibble is clear.
pub proof fn lemma_pack_flags(z: bool, n: bool, h: bool, c: bool)
    ensures
        (pack_flags(z, n, h, c) & 0x80 != 0) == z,
        (pack_flags(z, n, h, c) & 0x40 != 0) == n,
        (pack_flags(z, n, h, c) & 0x20 != 0) == h,
        (pack_flags(z, n, h, c) & 0x10 != 0) == c,
        pack_flags(z, n, h, c) & 0x0f == 0,
{
    let a: u8 = if z { 0x80 } else { 0 };
    let b: u8 = if n { 0x40 } else { 0 };
    let cc: u8 = if h { 0x20 } else { 0 };
    let d: u8 = if c { 0x10 } else { 0 };
    bits::lemma_or_bits(a, b, cc, d);
}

/// The execution flags: absorbing halt and stop states entered by the HALT
/// and STOP instructions.
#[derive(Clone, Copy, Debug, PartialEq, Eq, Structural)]
pub struct Flags {
    pub halt: bool,
    pub stop: bool,
}


/// The processor: register file, interrupt-master-enable bit, the absorbing
/// halt and stop states, and the cycle counters that pace one fetch per
/// instruction cost.
#[derive(Clone, Copy, Debug)]
pub struct Cpu {
    /// Ticks elapsed since the in-flight instruction was dispatched.
    pub clock_m: usize,
    /// The register file.
    pub reg: Registers,
    /// The machine-cycle cost of the in-flight instruction.
    pub m: usize,
    /// The interrupt master enable bit.
    pub ime: bool,
    /// The halt and stop states.
    pub flags: Flags,
}

/// The full outcome of one scheduler tick: what `run` returns and the
/// processor and memory state it leaves behind.
pub struct Tick {
    pub r: Result<u16, GbError>,
    pub cpu: Cpu,
    pub mem: Seq<u8>,
}

impl Cpu {
    /// The register file keeps its flag invariant, the cycle counters stay
    /// within one instruction's largest cost plus the interrupt charge, and
    /// while interrupts are enabled no dispatch charge is pending.
    pub open spec fn wf(self) -> bool {
        &&& self.reg.wf()
        &&& self.clock_m <= 11
        &&& self.m <= 11
        &&& (self.ime ==> self.m <= 6)
    }

    /// A tick is eligible to fetch when the in-flight instruction has been
    /// paid for, or the processor is halted or stopped.
    pub open spec fn eligible(self) -> bool {
        self.clock_m + 1 >= self.m || self.flags.halt || self.flags.stop
    }
}

/// The processor state after the fetch-decode-execute part of one eligible
/// tick, or nothing when decoding or execution fails.
pub open spec fn post_fetch(cpu: Cpu, mem: Seq<u8>) -> Option<(Cpu, Seq<u8>)> {
    let cpu0 = Cpu { clock_m: 0, ..cpu };
    if cpu.flags.halt || cpu.flags.stop {
        Some((cpu0, mem))
    } else {
        match decode_spec(mem, cpu.reg.pc) {
            Err(b) => None,
            Ok((inst, len)) => {
                let regs1 = Registers { pc: (cpu.reg.pc + len) as u16, ..cpu.reg };
                match step_spec(regs1, inst, mem, cpu.ime) {
                    None => None,
                    Some(s) => Some(
                        (
                            Cpu {
                                clock_m: 0,
                                reg: s.regs,
                                m: s.cost,
                                ime: s.ime,
                                flags: s.flags,
                            },
                            s.mem,
                        ),
                    ),
                }
            }
        }
    }
}

/// The interrupt dispatcher's outcome: any pending enabled bit wakes the
/// processor from halt; when the master enable is set, the highest-priority
/// pending bit is serviced alone, the program counter is pushed and sent to
/// that bit's vector, and five extra machine-cycles are charged.
pub open spec fn intr_spec(cpu: Cpu, mem: Seq<u8>) -> Tick {
    let i_flag = mem[IF as int];
    let i_enable = mem[IE as int];
    let masked = i_flag & i_enable;
    if masked == 0 {
        Tick { r: Ok(cpu.reg.pc), cpu, mem }
    } else {
        let cpu1 = Cpu { flags: Flags { halt: false, stop: cpu.flags.stop }, ..cpu };
        if !cpu.ime {
            Tick { r: Ok(cpu1.reg.pc), cpu: cpu1, mem }
        } else {
            let cpu2 = Cpu { ime: false, m: (cpu1.m + 5) as usize, ..cpu1 };
            let sp = cpu2.reg.sp;
            let pc = cpu2.reg.pc;
            let regs3 = cpu2.reg.spec_set_reg16(Reg16::SP, (sp - 2) as u16);
            let mem2 = mem.update(sp - 2, (pc % 256) as u8).update(sp - 1, (pc / 256) as u8);
            if masked & 0x01 != 0 {
                Tick {
                    r: Ok(0x40),
                    cpu: Cpu { reg: regs3.spec_set_reg16(Reg16::PC, 0x40), ..cpu2 },
                    mem: mem2.update(IF as int, i_flag & !0x01),
                }
            } else if masked & 0x02 != 0 {
                Tick {
                    r: Ok(0x48),
                    cpu: Cpu { reg: regs3.spec_set_reg16(Reg16::PC, 0x48), ..cpu2 },
                    mem: mem2.update(IF as int, i_flag & !0x02),
                }
            } else if masked & 0x04 != 0 {
                Tick {
                    r: Ok(0x50),
                    cpu: Cpu { reg: regs3.spec_set_reg16(Reg16::PC, 0x50), ..cpu2 },
                    mem: mem2.update(IF as int, i_flag & !0x04),
                }
            } else if masked & 0x08 != 0 {
                Tick {
                    r: Ok(0x58),
                    cpu: Cpu { reg: regs3.spec_set_reg16(Reg16::PC, 0x58), ..cpu2 },
                    mem: mem2.update(IF as int, i_flag & !0x08),
                }
            } else if masked & 0x10 != 0 {
                Tick {
                    r: Ok(0x60),
                    cpu: Cpu { reg: regs3.spec_set_reg16(Reg16::PC, 0x60), ..cpu2 },
                    mem: mem2.update(IF as int, i_flag & !0x10),
                }
            } else {
                Tick { r: Err(GbError::InvalidInterrupt), cpu: Cpu { reg: regs3, ..cpu2 }, mem: mem2 }
            }
        }
    }
}

/// One scheduler tick: the elapsed-tick counter advances; on an eligible
/// tick the next instruction is decoded at the program counter, the counter
/// advances past it, the instruction executes and its cost becomes the new
/// pace, and then the interrupt dispatcher runs.
pub open spec fn run_spec(cpu: Cpu, mem: Seq<u8>) -> Tick {
    let cpu_t = Cpu { clock_m: (cpu.clock_m + 1) as usize, ..cpu };
    if !(cpu_t.clock_m >= cpu.m || cpu.flags.halt || cpu.flags.stop) {
        Tick { r: Ok(cpu_t.reg.pc), cpu: cpu_t, mem }
    } else {
        let cpu0 = Cpu { clock_m: 0, ..cpu_t };
        if cpu.flags.halt || cpu.flags.stop {
            intr_spec(cpu0, mem)
        } else {
            match decode_spec(mem, cpu.reg.pc) {
                Err(b) => Tick { r: Err(GbError::InvalidOpcode(b)), cpu: cpu0, mem },
                Ok((inst, len)) => {
                    let regs1 = Registers { pc: (cpu.reg.pc + len) as u16, ..cpu.reg };
                    match step_spec(regs1, inst, mem, cpu.ime) {
                        None => Tick {
                            r: Err(GbError::InvalidInstruction),
                            cpu: Cpu { reg: regs1, ..cpu0 },
                            mem,
                        },
                        Some(s) => intr_spec(
                            Cpu { clock_m: 0, reg: s.regs, m: s.cost, ime: s.ime, flags: s.flags },
                            s.mem,
                        ),
                    }
                }
            }
        }
    }
}

/// The accesses that one tick makes are defined: the decoder's reads, the
/// executed instruction's accesses and stack moves, the interrupt registers,
/// and room for the dispatcher's push.
pub open spec fn run_pre<M: MemoryIF>(cpu: Cpu, m: M) -> bool {
    let fetching = cpu.eligible() && !cpu.flags.halt && !cpu.flags.stop;
    let pc = cpu.reg.pc;
    &&& (fetching ==> decode_pre(&m, pc))
    &&& (fetching ==> match decode_spec(m.mem(), pc) {
        Ok((inst, len)) => pc + len <= 0xffff && exec_pre(
            Registers { pc: (pc + len) as u16, ..cpu.reg },
            inst,
            m,
        ),
        Err(_) => true,
    })
    &&& (cpu.eligible() ==> m.readable(IF) && m.readable(IE) && (match post_fetch(
        Cpu { clock_m: 0, ..cpu },
        m.mem(),
    ) {
        Some((cpu1, mem1)) => {
            let masked = mem1[IF as int] & mem1[IE as int];
            (masked != 0 && cpu1.ime) ==> (cpu1.reg.sp >= 2 && m.writable(
                (cpu1.reg.sp - 2) as u16,
            ) && m.writable((cpu1.reg.sp - 1) as u16) && (masked & 0x1f != 0 ==> m.writable(IF)))
        }
        None => true,
    }))
}

impl Cpu {
    /// The processor as the host first sees it: counters at zero, interrupts
    /// disabled, neither halted nor stopped, registers at the cartridge
    /// entry point.
    pub fn new() -> (c: Cpu)
        ensures
            c == (Cpu {
                clock_m: 0,
                reg: Registers {
                    a: 0,
                    b: 0,
                    c: 0,
                    d: 0,
                    e: 0,
                    h: 0,
                    l: 0,
                    f: 0,
                    pc: 0x100,
                    sp: 0xfffe,
                },
                m: 0,
                ime: false,
                flags: Flags { halt: false, stop: false },
            }),
            c.wf(),
    {
        Cpu {
            clock_m: 0,
            reg: Registers::new(),
            m: 0,
            ime: false,
            flags: Flags { halt: false, stop: false },
        }
    }

    /// One tick of the scheduler, to be called once per elapsed
    /// machine-cycle by the host loop: exactly the step that `run_spec`
    /// names, returning the current program counter so the host can detect
    /// breakpoints.
    #[verifier::rlimit(100)]
    pub fn run<M: MemoryIF>(&mut self, memory: &mut M) -> (r: Result<u16, GbError>)
        requires
            old(self).wf(),
            old(memory).wf(),
            run_pre(*old(self), *old(memory)),
        ensures
            ({
                let t = run_spec(*old(self), old(memory).mem());
                r == t.r && *final(self) == t.cpu && final(memory).mem() == t.mem
            }),
            final(self).wf(),
            execute::mem_maps_ok(*old(memory), *final(memory)),
    {
        self.clock_m += 1;

        if (self.clock_m >= self.m) || self.flags.halt || self.flags.stop {
            self.clock_m = 0;
            if !self.flags.halt && !self.flags.stop {
                let (inst, addvance) = match decode(self.reg.pc, memory) {
                    Ok(p) => p,
                    Err(e) => {
                        return Err(e);
                    }
                };
                self.reg.pc += addvance;
                match self.reg.execute(inst, memory, &mut self.ime) {
                    Ok((m2, fl)) => {
                        self.m = m2;
                        self.flags = fl;
                    }
                    Err(e) => {
                        return Err(e);
                    }
                }
            }
            match self.dispatch_interrupts(memory) {
                Ok(()) => (),
                Err(e) => {
                    return Err(e);
                }
            }
        }
        Ok(self.reg.pc)
    }

    /// Reconcile pending and enabled interrupt bits after a tick's step:
    /// exactly the outcome that `intr_spec` names.
    #[verifier::rlimit(100)]
    fn dispatch_interrupts<M: MemoryIF>(&mut self, memory: &mut M) -> (r: Result<(), GbError>)
        requires
            old(self).wf(),
            old(memory).wf(),
            old(memory).readable(IF),
            old(memory).readable(IE),
            ({
                let masked = old(memory).mem()[IF as int] & old(memory).mem()[IE as int];
                (masked != 0 && old(self).ime) ==> (old(self).reg.sp >= 2 && old(memory).writable(
                    (old(self).reg.sp - 2) as u16,
                ) && old(memory).writable((old(self).reg.sp - 1) as u16) && (masked & 0x1f != 0
                    ==> old(memory).writable(IF)))
            }),
        ensures
            ({
                let t = intr_spec(*old(self), old(memory).mem());
                &&& (r matches Ok(_) ==> t.r matches Ok(_))
                &&& (r matches Err(_) ==> r == Err::<(), GbError>(GbError::InvalidInterrupt)
                    && t.r == Err::<u16, GbError>(GbError::InvalidInterrupt))
                &&& *final(self) == t.cpu
                &&& final(memory).mem() == t.mem
            }),
            final(self).wf(),
            execute::mem_maps_ok(*old(memory), *final(memory)),
    {
        let i_flag = memory.read_byte(IF);
        let i_enable = memory.read_byte(IE);
        let masked = i_flag & i_enable;
        proof {
            bits::lemma_low_five(masked);
        }
        if masked != 0 {
            self.flags.halt = false;
            if self.ime {
                self.ime = false;
                self.m += 5;
                match self.reg.execute(Inst::Push16(Reg16::PC), memory, &mut self.ime) {
                    Ok(_) => (),
                    Err(e) => {
                        return Err(e);
                    }
                }
                if masked & 0x01 != 0 {
                    // VBlank
                    memory.write_byte(IF, i_flag & !0x01);
                    self.reg.write_reg16(&Reg16::PC, 0x40);
                } else if masked & 0x02 != 0 {
                    // LCD
                    memory.write_byte(IF, i_flag & !0x02);
                    self.reg.write_reg16(&Reg16::PC, 0x48);
                } else if masked & 0x04 != 0 {
                    // Timer
                    memory.write_byte(IF, i_flag & !0x04);
                    self.reg.write_reg16(&Reg16::PC, 0x50);
                } else if masked & 0x08 != 0 {
                    // Serial
                    memory.write_byte(IF, i_flag & !0x08);
                    self.reg.write_reg16(&Reg16::PC, 0x58);
                } else if masked & 0x10 != 0 {
                    // Joypad
                    memory.write_byte(IF, i_flag & !0x10);
                    self.reg.write_reg16(&Reg16::PC, 0x60);
                } else {
                    return Err(GbError::InvalidInterrupt);
                }
            }
        }
        Ok(())
    }
}

} // verus!