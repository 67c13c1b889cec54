//! The memory controller: it owns cartridge ROM and RAM banks, working and
//! zero-page RAM, the plain I/O registers, and the pixel unit and timer,
//! and routes every 16-bit address to the right store.

use vstd::prelude::*;

use crate::cpu::GbError;
use crate::memory::MemoryIF;
use crate::ppu::Mode;
use crate::ppu::Ppu;
use crate::timer::timer_after;
use crate::timer::Timer;

verus! {

/// A byte vector of the given length holding zero everywhere.
fn zero_vec(n: usize) -> (v: Vec<u8>)
    ensures
        v@.len() == n,
        forall|j: int| 0 <= j < n ==> v@[j] == 0u8,
{
    let mut v: Vec<u8> = Vec::new();
    let mut i: usize = 0;
    while i < n
        invariant
            i <= n,
            v@.len() == i,
            forall|j: int| 0 <= j < i ==> v@[j] == 0u8,
        decreases n - i,
    {
        v.push(0u8);
        i = i + 1;
    }
    v
}

/// The memory controller's stores and banking state.
pub struct Mmu {
    pub ram_enable: bool,
    pub rom_bank_bit: usize,
    pub ram_bank_bit: Option<usize>,
    pub rom_bank: usize,
    pub ram_bank: usize,
    /// Cartridge ROM, eight 16 KiB banks.
    pub rom: Vec<u8>,
    /// Cartridge RAM, four 8 KiB banks.
    pub eram: Vec<u8>,
    /// Working RAM.
    pub wram: Vec<u8>,
    /// Plain I/O registers.
    pub ioreg: Vec<u8>,
    /// Zero-page RAM, interrupt enable byte included.
    pub zram: Vec<u8>,
    pub ppu: Ppu,
    pub timer: Timer,
}

impl Mmu {
    /// The bytes of cartridge ROM.
    pub open spec fn spec_rom(self) -> Seq<u8> {
        self.rom@
    }

    /// The bytes of cartridge RAM.
    pub open spec fn spec_eram(self) -> Seq<u8> {
        self.eram@
    }

    /// The bytes of working RAM.
    pub open spec fn spec_wram(self) -> Seq<u8> {
        self.wram@
    }

    /// The bytes of the plain I/O registers.
    pub open spec fn spec_ioreg(self) -> Seq<u8> {
        self.ioreg@
    }

    /// The bytes of zero-page RAM.
    pub open spec fn spec_zram(self) -> Seq<u8> {
        self.zram@
    }

    /// The stores have their hardware sizes, the banks stay inside them,
    /// and the bank-width fields hold their cartridge-type constants.
    pub open spec fn wf(self) -> bool {
        &&& self.spec_rom().len() == 0x20000
        &&& self.spec_eram().len() == 0x8000
        &&& self.spec_wram().len() == 0x2000
        &&& self.spec_ioreg().len() == 0x80
        &&& self.spec_zram().len() == 0x80
        &&& self.rom_bank_bit == 7
        &&& self.ram_bank_bit == Some(3usize)
        &&& 1 <= self.rom_bank <= 7
        &&& self.ram_bank <= 3
        &&& self.ppu.wf()
        &&& self.timer.wf()
    }

    /// The byte visible at `addr`: ROM banks low, banked cartridge RAM
    /// behind its enable bit, working RAM and its shadow, the pixel unit's
    /// stores with their mode rules, the timer and LCD register windows,
    /// and zero-page RAM on top.
    pub open spec fn spec_read(self, addr: u16) -> u8 {
        if addr < 0x4000 {
            self.spec_rom()[addr as int]
        } else if addr < 0x8000 {
            self.spec_rom()[self.rom_bank * 0x4000 + (addr - 0x4000)]
        } else if addr < 0xa000 {
            if self.ppu.spec_enabled() && self.ppu.mode == Mode::Mode3 {
                0xffu8
            } else {
                self.ppu.spec_vram()[addr - 0x8000]
            }
        } else if addr < 0xc000 {
            if self.ram_enable {
                self.spec_eram()[self.ram_bank * 0x2000 + (addr - 0xa000)]
            } else {
                0xffu8
            }
        } else if addr < 0xe000 {
            self.spec_wram()[addr - 0xc000]
        } else if addr < 0xfe00 {
            self.spec_wram()[addr - 0xe000]
        } else if addr < 0xfea0 {
            if self.ppu.spec_enabled() && (self.ppu.mode == Mode::Mode2 || self.ppu.mode
                == Mode::Mode3) {
                0xffu8
            } else {
                self.ppu.spec_oam()[addr - 0xfe00]
            }
        } else if addr < 0xff00 {
            0xffu8
        } else if addr < 0xff80 {
            if 0xff04 <= addr < 0xff08 {
                self.timer.spec_reg((addr - 0xff04) as usize)
            } else if 0xff40 <= addr < 0xff4c {
                self.ppu.spec_lcd()[addr - 0xff40]
            } else {
                self.spec_ioreg()[addr - 0xff00]
            }
        } else {
            self.spec_zram()[addr - 0xff80]
        }
    }

    /// An empty controller: no cartridge loaded, banks at their reset
    /// values, the pixel unit and timer at theirs.
    pub fn new() -> (m: Mmu)
        ensures
            m.wf(),
            !m.ram_enable,
            m.rom_bank == 1,
            m.ram_bank == 0,
    {
        Mmu {
            ram_enable: false,
            rom_bank_bit: 7,
            ram_bank_bit: Some(3),
            rom_bank: 1,
            ram_bank: 0,
            rom: zero_vec(0x20000),
            eram: zero_vec(0x8000),
            wram: zero_vec(0x2000),
            ioreg: zero_vec(0x80),
            zram: zero_vec(0x80),
            ppu: Ppu::new(),
            timer: Timer::new(),
        }
    }

    /// Store one byte of cartridge ROM, as a loader fills the banks.
    pub fn load_byte(&mut self, index: usize, val: u8)
        requires
            old(self).wf(),
            index < 0x20000,
        ensures
            final(self).wf(),
            final(self).spec_rom() == old(self).spec_rom().update(index as int, val),
            *final(self) == (Mmu { rom: final(self).rom, ..*old(self) }),
    {
        self.rom[index] = val;
    }

    /// Read the byte visible at `addr`; the strip above object attribute
    /// memory is not usable.
    pub fn read_byte(&self, addr: u16) -> (r: u8)
        requires
            self.wf(),
            !(0xfea0 <= addr < 0xff00),
        ensures
            r == self.spec_read(addr),
    {
        if addr < 0x4000 {
            // ROM bank 0
            self.rom[addr as usize]
        } else if addr < 0x8000 {
            // switched ROM bank
            let index = (addr - 0x4000) as usize;
            self.rom[self.rom_bank * 0x4000 + index]
        } else if addr < 0xa000 {
            // graphics: video RAM
            self.ppu.read_vram((addr - 0x8000) as usize)
        } else if addr < 0xc000 {
            // cartridge RAM
            if self.ram_enable {
                let index = (addr - 0xa000) as usize;
                self.eram[self.ram_bank * 0x2000 + index]
            } else {
                0xff
            }
        } else if addr < 0xe000 {
            // working RAM
            self.wram[(addr - 0xc000) as usize]
        } else if addr < 0xfe00 {
            // working RAM shadow
            self.wram[(addr - 0xe000) as usize]
        } else if addr < 0xfea0 {
            // graphics: sprite information
            self.ppu.read_oam((addr - 0xfe00) as usize)
        } else if addr < 0xff00 {
            // not usable
            vstd::pervasive::unreached()
        } else if addr < 0xff80 {
            // I/O registers
            if 0xff04 <= addr && addr < 0xff08 {
                self.timer.read_timer_reg((addr - 0xff04) as usize)
            } else if 0xff40 <= addr && addr < 0xff4c {
                self.ppu.read_lcd_reg((addr - 0xff40) as usize)
            } else {
                self.ioreg[(addr - 0xff00) as usize]
            }
        } else {
            // zero page
            self.zram[(addr - 0xff80) as usize]
        }
    }

    /// Write one byte at `addr`: the low ROM region drives the RAM enable
    /// bit and the bank numbers, stores land in their regions with the
    /// pixel unit's mode rules and the timer's divider reset applied, and
    /// the unusable strip swallows the byte; the banking-mode select region
    /// and the shadow RAM are not written.
    pub fn write_byte(&mut self, addr: u16, val: u8)
        requires
            old(self).wf(),
            !(0x6000 <= addr < 0x8000),
            !(0xe000 <= addr < 0xfe00),
            0x2000 <= addr < 0x4000 ==> (old(self).rom_bank & 0xe0) + (({
                let v = val & 0x1f;
                (if v == 0 {
                    1u8
                } else {
                    v
                }) & 0x7f
            }) as usize) <= 7,
            0x4000 <= addr < 0x6000 ==> (old(self).rom_bank & 0x1f) + ((((val & 0xc0) >> 6)
                << 5) as usize) <= 7,
        ensures
            final(self).wf(),
            mmu_write_effect(*old(self), *final(self), addr, val),
    {
        if addr < 0x2000 {
            // RAM enable
            if val & 0x0f == 0x0a {
                self.ram_enable = true;
            } else {
                self.ram_enable = false;
            }
        } else if addr < 0x4000 {
            // ROM bank number, low bits
            proof {
                crate::bits::lemma_bank_bits(val);
                crate::bits::lemma_bank_usize(self.rom_bank);
            }
            let v = val & 0x1f;
            let v = if v == 0 {
                1
            } else {
                v
            };
            let v = v & ((1u8 << self.rom_bank_bit) - 1);
            self.rom_bank = (self.rom_bank & 0xe0) + v as usize;
        } else if addr < 0x6000 {
            // RAM bank number and ROM bank high bits
            proof {
                crate::bits::lemma_bank_bits(val);
                crate::bits::lemma_bank_usize(self.rom_bank);
            }
            let ram = val & 0x03;
            let rom = (val & 0xc0) >> 6;
            self.ram_bank = ram as usize;
            self.rom_bank = (self.rom_bank & 0x1f) + ((rom << 5) as usize);
        } else if addr < 0x8000 {
            // banking mode select is not supported
            vstd::pervasive::unreached()
        } else if addr < 0xa000 {
            // graphics: video RAM
            self.ppu.write_vram((addr - 0x8000) as usize, val);
        } else if addr < 0xc000 {
            // cartridge RAM
            let index = (addr - 0xa000) as usize;
            self.eram[self.ram_bank * 0x2000 + index] = val;
        } else if addr < 0xe000 {
            // working RAM
            self.wram[(addr - 0xc000) as usize] = val;
        } else if addr < 0xfe00 {
            // working RAM shadow is not written
            vstd::pervasive::unreached()
        } else if addr < 0xfea0 {
            // graphics: sprite information
            self.ppu.write_oam((addr - 0xfe00) as usize, val);
        } else if addr < 0xff00 {
            // not usable: the byte is swallowed
        } else if addr < 0xff80 {
            // I/O registers
            if 0xff04 <= addr && addr < 0xff08 {
                self.timer.write_timer_reg((addr - 0xff04) as usize, val);
            } else if 0xff40 <= addr && addr < 0xff4c {
                self.ppu.write_lcd_reg((addr - 0xff40) as usize, val);
            } else {
                self.ioreg[(addr - 0xff00) as usize] = val;
            }
        } else {
            // zero page
            self.zram[(addr - 0xff80) as usize] = val;
        }
    }

    /// One machine-cycle of the timer against the memory-mapped interrupt
    /// flag byte: the timer steps as `timer_after` names, raising its
    /// interrupt bit in place.
    pub fn run_timer(&mut self, stop: bool) -> (r: Result<(), GbError>)
        requires
            old(self).wf(),
        ensures
            r matches Ok(_),
            final(self).wf(),
            ({
                let (t2, f2) = timer_after(old(self).timer, old(self).spec_ioreg()[0x0f], stop);
                &&& final(self).timer == t2
                &&& final(self).spec_ioreg() == old(self).spec_ioreg().update(0x0f, f2)
                &&& *final(self) == (Mmu {
                    timer: final(self).timer,
                    ioreg: final(self).ioreg,
                    ..*old(self)
                })
            }),
    {
        let mut i_flg = self.ioreg[0x0f];
        match self.timer.run(&mut i_flg, stop) {
            Ok(()) => (),
            Err(e) => {
                return Err(e);
            }
        }
        self.ioreg[0x0f] = i_flg;
        Ok(())
    }
}

/// What one write leaves behind, region by region: exactly one store or
/// banking field takes the byte (subject to the pixel unit's mode rules and
/// the timer's divider reset), and everything else keeps its value.
pub open spec fn mmu_write_effect(m0: Mmu, m1: Mmu, addr: u16, val: u8) -> bool {
    if addr < 0x2000 {
        m1 == (Mmu { ram_enable: val & 0x0f == 0x0a, ..m0 })
    } else if addr < 0x4000 {
        let v = val & 0x1f;
        let v2 = if v == 0 {
            1u8
        } else {
            v
        };
        m1 == (Mmu { rom_bank: ((m0.rom_bank & 0xe0) + (v2 & 0x7f)) as usize, ..m0 })
    } else if addr < 0x6000 {
        m1 == (Mmu {
            ram_bank: (val & 0x03) as usize,
            rom_bank: ((m0.rom_bank & 0x1f) + (((val & 0xc0) >> 6) << 5)) as usize,
            ..m0
        })
    } else if addr < 0x8000 {
        true
    } else if addr < 0xa000 {
        &&& m1.ppu.spec_vram() == (if m0.ppu.spec_enabled() && m0.ppu.mode == Mode::Mode3 {
            m0.ppu.spec_vram()
        } else {
            m0.ppu.spec_vram().update(addr - 0x8000, val)
        })
        &&& m1.ppu.spec_oam() == m0.ppu.spec_oam()
        &&& m1.ppu.spec_lcd() == m0.ppu.spec_lcd()
        &&& m1.ppu.mode == m0.ppu.mode
        &&& m1 == (Mmu { ppu: m1.ppu, ..m0 })
    } else if addr < 0xc000 {
        m1 == (Mmu { eram: m1.eram, ..m0 }) && m1.spec_eram() == m0.spec_eram().update(
            m0.ram_bank * 0x2000 + (addr - 0xa000),
            val,
        )
    } else if addr < 0xe000 {
        m1 == (Mmu { wram: m1.wram, ..m0 }) && m1.spec_wram() == m0.spec_wram().update(
            addr - 0xc000,
            val,
        )
    } else if addr < 0xfe00 {
        true
    } else if addr < 0xfea0 {
        &&& m1.ppu.spec_oam() == (if m0.ppu.spec_enabled() && (m0.ppu.mode == Mode::Mode2
            || m0.ppu.mode == Mode::Mode3) {
            m0.ppu.spec_oam()
        } else {
            m0.ppu.spec_oam().update(addr - 0xfe00, val)
        })
        &&& m1.ppu.spec_vram() == m0.ppu.spec_vram()
        &&& m1.ppu.spec_lcd() == m0.ppu.spec_lcd()
        &&& m1.ppu.mode == m0.ppu.mode
        &&& m1 == (Mmu { ppu: m1.ppu, ..m0 })
    } else if addr < 0xff00 {
        m1 == m0
    } else if addr < 0xff80 {
        if 0xff04 <= addr < 0xff08 {
            &&& m1.timer.spec_reg((addr - 0xff04) as usize) == (if addr == 0xff04 {
                0u8
            } else {
                val
            })
            &&& (forall|i: usize|
                i < 4 && i != (addr - 0xff04) as usize ==> m1.timer.spec_reg(i)
                    == m0.timer.spec_reg(i))
            &&& m1.timer.clock_div_m == m0.timer.clock_div_m
            &&& m1.timer.clock_tima_m == m0.timer.clock_tima_m
            &&& m1 == (Mmu { timer: m1.timer, ..m0 })
        } else if 0xff40 <= addr < 0xff4c {
            &&& m1.ppu.spec_lcd() == m0.ppu.spec_lcd().update(addr - 0xff40, val)
            &&& m1.ppu.spec_vram() == m0.ppu.spec_vram()
            &&& m1.ppu.spec_oam() == m0.ppu.spec_oam()
            &&& m1.ppu.mode == m0.ppu.mode
            &&& m1.ppu.set_blank == (m0.ppu.set_blank || (addr == 0xff40 && val & 0x80 != 0))
            &&& m1 == (Mmu { ppu: m1.ppu, ..m0 })
        } else {
            m1 == (Mmu { ioreg: m1.ioreg, ..m0 }) && m1.spec_ioreg() == m0.spec_ioreg().update(
                addr - 0xff00,
                val,
            )
        }
    } else {
        m1 == (Mmu { zram: m1.zram, ..m0 }) && m1.spec_zram() == m0.spec_zram().update(
            addr - 0xff80,
            val,
        )
    }
}


impl MemoryIF for Mmu {
    open spec fn wf(&self) -> bool {
        Mmu::wf(*self)
    }

    open spec fn mem(&self) -> Seq<u8> {
        Seq::new(0x10000, |i: int| self.spec_read(i as u16))
    }

    /// Only the strip above object attribute memory is unreadable.
    open spec fn readable(&self, addr: u16) -> bool {
        !(0xfea0 <= addr < 0xff00)
    }

    /// The addresses at which a write stores its byte verbatim and changes
    /// no other visible byte: the pixel unit's stores under their mode
    /// rules, enabled cartridge RAM, the plain I/O registers apart from the
    /// divider and the LCD control, and the zero page. Working RAM is
    /// excluded because its shadow would echo the change at a second
    /// address; the ROM regions drive banking instead of storing.
    open spec fn writable(&self, addr: u16) -> bool {
        if 0x8000 <= addr < 0xa000 {
            !(self.ppu.spec_enabled() && self.ppu.mode == Mode::Mode3)
        } else if 0xa000 <= addr < 0xc000 {
            self.ram_enable
        } else if 0xfe00 <= addr < 0xfea0 {
            !(self.ppu.spec_enabled() && (self.ppu.mode == Mode::Mode2 || self.ppu.mode
                == Mode::Mode3))
        } else if 0xff00 <= addr < 0xff80 {
            addr != 0xff04 && addr != 0xff40
        } else {
            0xff80 <= addr
        }
    }

    proof fn lemma_mem_len(&self) {
    }

    fn read_byte(&self, addr: u16) -> (r: u8) {
        self.read_byte(addr)
    }

    #[verifier::rlimit(100)]
    fn write_byte(&mut self, addr: u16, val: u8) {
        self.write_byte(addr, val);
        proof {
            assert forall|j: int| 0 <= j < 0x10000 implies MemoryIF::mem(self)[j] == MemoryIF::mem(
                old(self),
            ).update(addr as int, val)[j] by {
                assert(MemoryIF::mem(self)[j] == self.spec_read(j as u16));
            }
            assert(MemoryIF::mem(self) =~= MemoryIF::mem(old(self)).update(addr as int, val));
        }
    }

    fn read_word(&self, addr: u16) -> (r: u16) {
        let lb = self.read_byte(addr);
        let hb = self.read_byte(addr + 1);
        proof {
            crate::bits::lemma_word_combine(hb, lb);
        }
        ((hb as u16) << 8) | (lb as u16)
    }

    fn write_word(&mut self, addr: u16, val: u16) {
        proof {
            crate::bits::lemma_word_split(val);
        }
        let h = (val >> 8) as u8;
        let l = (val & 0x00ff) as u8;
        MemoryIF::write_byte(self, addr, l);
        MemoryIF::write_byte(self, addr + 1, h);
    }
}

} // verus!