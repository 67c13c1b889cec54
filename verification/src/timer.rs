//! The timer: a divider that advances every 64 machine-cycles and a counter
//! whose period and enable bits live in the memory-mapped control register,
//! raising the timer interrupt bit on overflow.

use vstd::prelude::*;

use crate::bits;
use crate::cpu::GbError;

verus! {

/// The timer's divider, counter, modulo and control registers, with the
/// cycle counters that pace them.
pub struct Timer {
    pub clock_div_m: usize,
    pub clock_tima_m: usize,
    pub div: u8,
    pub tima: u8,
    pub tma: u8,
    pub tac: u8,
}

/// The counter period selected by the low two bits of the control register,
/// in machine-cycles.
pub open spec fn tac_period(tac: u8) -> int {
    if tac & 0x03 == 0x00 {
        256
    } else if tac & 0x03 == 0x01 {
        4
    } else if tac & 0x03 == 0x02 {
        16
    } else {
        64
    }
}

impl Timer {
    /// The cycle counters stay below their reset points.
    pub open spec fn wf(self) -> bool {
        self.clock_div_m < 64 && self.clock_tima_m < 256
    }

    /// The timer register selected by `index`, in the order divider,
    /// counter, modulo, control.
    pub open spec fn spec_reg(self, index: usize) -> u8 {
        if index == 0 {
            self.div
        } else if index == 1 {
            self.tima
        } else if index == 2 {
            self.tma
        } else {
            self.tac
        }
    }

    /// All registers and counters start at zero.
    pub fn new() -> (t: Timer)
        ensures
            t.wf(),
            forall|i: usize| i < 4 ==> t.spec_reg(i) == 0u8,
            t.clock_div_m == 0,
            t.clock_tima_m == 0,
    {
        Timer { clock_div_m: 0, clock_tima_m: 0, div: 0, tima: 0, tma: 0, tac: 0 }
    }

    /// Read one timer register.
    pub fn read_timer_reg(&self, index: usize) -> (r: u8)
        requires
            index < 4,
        ensures
            r == self.spec_reg(index),
    {
        if index == 0 {
            self.div
        } else if index == 1 {
            self.tima
        } else if index == 2 {
            self.tma
        } else {
            self.tac
        }
    }

    /// Write one timer register; a write to the divider resets it to zero
    /// whatever the value.
    pub fn write_timer_reg(&mut self, index: usize, val: u8)
        requires
            index < 4,
            old(self).wf(),
        ensures
            final(self).wf(),
            final(self).spec_reg(index) == (if index == 0 { 0u8 } else { val }),
            forall|i: usize| i < 4 && i != index ==> final(self).spec_reg(i) == old(
                self,
            ).spec_reg(i),
            final(self).clock_div_m == old(self).clock_div_m,
            final(self).clock_tima_m == old(self).clock_tima_m,
    {
        let val = if index == 0 {
            0
        } else {
            val
        };
        if index == 0 {
            self.div = val;
        } else if index == 1 {
            self.tima = val;
        } else if index == 2 {
            self.tma = val;
        } else {
            self.tac = val;
        }
    }
}

/// The timer state and interrupt flags after one machine-cycle: in stop the
/// divider is held at zero; otherwise it advances every 64 cycles; when the
/// control enable bit is set the counter advances at the selected period,
/// reloading from the modulo register and raising the timer interrupt bit
/// on overflow.
pub open spec fn timer_after(t: Timer, i_flg: u8, stop: bool) -> (Timer, u8) {
    let t1 = if stop {
        Timer { clock_div_m: 0, div: 0, ..t }
    } else if t.clock_div_m + 1 >= 64 {
        Timer { clock_div_m: 0, div: ((t.div + 1) % 256) as u8, ..t }
    } else {
        Timer { clock_div_m: (t.clock_div_m + 1) as usize, ..t }
    };
    if t.tac & 0x04 != 0 {
        if t.clock_tima_m + 1 >= tac_period(t.tac) {
            if t.tima == 255 {
                (Timer { clock_tima_m: 0, tima: t.tma, ..t1 }, i_flg | 0x04)
            } else {
                (Timer { clock_tima_m: 0, tima: (t.tima + 1) as u8, ..t1 }, i_flg)
            }
        } else {
            (Timer { clock_tima_m: (t.clock_tima_m + 1) as usize, ..t1 }, i_flg)
        }
    } else {
        (t1, i_flg)
    }
}

impl Timer {
    /// One machine-cycle of the timer: exactly the step that `timer_after`
    /// names; the interrupt flag byte is updated in place.
    pub fn run(&mut self, i_flg: &mut u8, stop: bool) -> (r: Result<(), GbError>)
        requires
            old(self).wf(),
        ensures
            r matches Ok(_),
            ({
                let (t2, f2) = timer_after(*old(self), *old(i_flg), stop);
                *final(self) == t2 && *final(i_flg) == f2
            }),
            final(self).wf(),
    {
        if stop {
            self.clock_div_m = 0;
            self.div = 0;
        } else {
            self.clock_div_m += 1;
            if self.clock_div_m >= 64 {
                self.clock_div_m = 0;
                self.div = self.div.wrapping_add(1);
            }
        }
        let tac = self.tac;
        proof {
            bits::lemma_low_two(tac);
        }
        let m: usize = match tac & 0x03 {
            0x00 => 256,
            0x01 => 4,
            0x02 => 16,
            0x03 => 64,
            _ => vstd::pervasive::unreached(),
        };
        if tac & 0x04 != 0 {
            self.clock_tima_m += 1;
            if self.clock_tima_m >= m {
                self.clock_tima_m = 0;
                if self.tima == u8::MAX {
                    // overflow
                    self.tima = self.tma;
                    // Timer interrupt
                    *i_flg |= 0x04;
                } else {
                    self.tima = self.tima + 1;
                }
            }
        }
        Ok(())
    }
}

} // verus!
