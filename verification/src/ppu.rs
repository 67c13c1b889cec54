//! The pixel-processing unit's memory-mapped state: video RAM, object
//! attribute memory and the LCD registers, with the mode-dependent access
//! rules the memory controller routes through. The scanline compositing
//! itself is presentation work outside this core.

use vstd::prelude::*;

verus! {

/// The four scanline modes the unit cycles through.
#[derive(Clone, Copy, Debug, PartialEq, Eq, Structural)]
pub enum Mode {
    Mode0,
    Mode1,
    Mode2,
    Mode3,
}

/// Video RAM, object attribute memory and the LCD register file, with the
/// scanline position and mode.
pub struct Ppu {
    pub mode: Mode,
    pub clock_m: usize,
    pub line: usize,
    pub window_internal_line: Option<usize>,
    pub stat_int_prev: bool,
    pub set_blank: bool,
    pub vram: Vec<u8>,
    pub oam: Vec<u8>,
    pub lcd_regs: Vec<u8>,
}

impl Ppu {
    /// The three backing stores have their hardware sizes.
    pub open spec fn wf(self) -> bool {
        self.spec_vram().len() == 0x2000 && self.spec_oam().len() == 0xa0
            && self.spec_lcd().len() == 0xc
    }

    /// The bytes of video RAM.
    pub open spec fn spec_vram(self) -> Seq<u8> {
        self.vram@
    }

    /// The bytes of object attribute memory.
    pub open spec fn spec_oam(self) -> Seq<u8> {
        self.oam@
    }

    /// The bytes of the LCD register file.
    pub open spec fn spec_lcd(self) -> Seq<u8> {
        self.lcd_regs@
    }

    /// Whether the LCD is enabled: bit 7 of the control register.
    pub open spec fn spec_enabled(self) -> bool {
        self.spec_lcd()[0] & 0x80 != 0
    }

    /// The unit starts in object scan at the top line, with only the LCD
    /// enable bit set.
    pub fn new() -> (p: Ppu)
        ensures
            p.wf(),
            p.mode == Mode::Mode2,
            p.clock_m == 0,
            p.line == 0,
            p.window_internal_line matches Option::None,
            p.stat_int_prev == false,
            p.set_blank == false,
            forall|i: int| 0 <= i < 0x2000 ==> p.spec_vram()[i] == 0u8,
            forall|i: int| 0 <= i < 0xa0 ==> p.spec_oam()[i] == 0u8,
            p.spec_lcd()[0] == 0x80u8,
            forall|i: int| 1 <= i < 0xc ==> p.spec_lcd()[i] == 0u8,
    {
        let mut vram: Vec<u8> = Vec::new();
        let mut i: usize = 0;
        while i < 0x2000
            invariant
                i <= 0x2000,
                vram@.len() == i,
                forall|j: int| 0 <= j < i ==> vram@[j] == 0u8,
            decreases 0x2000 - i,
        {
            vram.push(0u8);
            i = i + 1;
        }
        let mut oam: Vec<u8> = Vec::new();
        let mut i: usize = 0;
        while i < 0xa0
            invariant
                i <= 0xa0,
                oam@.len() == i,
                forall|j: int| 0 <= j < i ==> oam@[j] == 0u8,
            decreases 0xa0 - i,
        {
            oam.push(0u8);
            i = i + 1;
        }
        let mut lcd_regs: Vec<u8> = Vec::new();
        lcd_regs.push(0x80u8);
        let mut i: usize = 1;
        while i < 0xc
            invariant
                1 <= i <= 0xc,
                lcd_regs@.len() == i,
                lcd_regs@[0] == 0x80u8,
                forall|j: int| 1 <= j < i ==> lcd_regs@[j] == 0u8,
            decreases 0xc - i,
        {
            lcd_regs.push(0u8);
            i = i + 1;
        }
        Ppu {
            mode: Mode::Mode2,
            clock_m: 0,
            line: 0,
            window_internal_line: Option::None,
            stat_int_prev: false,
            set_blank: false,
            vram,
            oam,
            lcd_regs,
        }
    }

    /// Read one byte of video RAM: inaccessible (all ones) while the enabled
    /// unit is drawing pixels.
    pub fn read_vram(&self, index: usize) -> (r: u8)
        requires
            self.wf(),
            index < 0x2000,
        ensures
            r == (if self.spec_enabled() && self.mode == Mode::Mode3 {
                0xffu8
            } else {
                self.spec_vram()[index as int]
            }),
    {
        if self.is_enable() {
            match self.mode {
                Mode::Mode3 => 0xff,  // inaccessible
                _ => self.vram[index],  // accessible
            }
        } else {
            self.vram[index]  // accessible
        }
    }

    /// Write one byte of video RAM: dropped while the enabled unit is
    /// drawing pixels.
    pub fn write_vram(&mut self, index: usize, val: u8)
        requires
            old(self).wf(),
            index < 0x2000,
        ensures
            final(self).wf(),
            final(self).spec_vram() == (if old(self).spec_enabled() && old(self).mode
                == Mode::Mode3 {
                old(self).spec_vram()
            } else {
                old(self).spec_vram().update(index as int, val)
            }),
            final(self).spec_oam() == old(self).spec_oam(),
            final(self).spec_lcd() == old(self).spec_lcd(),
            final(self).mode == old(self).mode,
            final(self).set_blank == old(self).set_blank,
    {
        if self.is_enable() {
            match self.mode {
                Mode::Mode3 => (),  // inaccessible
                _ => self.vram[index] = val,  // accessible
            }
        } else {
            self.vram[index] = val  // accessible
        }
    }

    /// Read one byte of object attribute memory: inaccessible (all ones)
    /// while the enabled unit is scanning objects or drawing.
    pub fn read_oam(&self, index: usize) -> (r: u8)
        requires
            self.wf(),
            index < 0xa0,
        ensures
            r == (if self.spec_enabled() && (self.mode == Mode::Mode2 || self.mode
                == Mode::Mode3) {
                0xffu8
            } else {
                self.spec_oam()[index as int]
            }),
    {
        if self.is_enable() {
            match self.mode {
                Mode::Mode2 | Mode::Mode3 => 0xff,  // inaccessible
                _ => self.oam[index],  // accessible
            }
        } else {
            self.oam[index]  // accessible
        }
    }

    /// Write one byte of object attribute memory: dropped while the enabled
    /// unit is scanning objects or drawing.
    pub fn write_oam(&mut self, index: usize, val: u8)
        requires
            old(self).wf(),
            index < 0xa0,
        ensures
            final(self).wf(),
            final(self).spec_oam() == (if old(self).spec_enabled() && (old(self).mode
                == Mode::Mode2 || old(self).mode == Mode::Mode3) {
                old(self).spec_oam()
            } else {
                old(self).spec_oam().update(index as int, val)
            }),
            final(self).spec_vram() == old(self).spec_vram(),
            final(self).spec_lcd() == old(self).spec_lcd(),
            final(self).mode == old(self).mode,
            final(self).set_blank == old(self).set_blank,
    {
        if self.is_enable() {
            match self.mode {
                Mode::Mode2 | Mode::Mode3 => (),  // inaccessible
                _ => self.oam[index] = val,  // accessible
            }
        } else {
            self.oam[index] = val  // accessible
        }
    }

    /// Read one LCD register.
    pub fn read_lcd_reg(&self, index: usize) -> (r: u8)
        requires
            self.wf(),
            index < 0xc,
        ensures
            r == self.spec_lcd()[index as int],
    {
        self.lcd_regs[index]
    }

    /// Write one LCD register; enabling the LCD through the control
    /// register arms the blank-frame reset.
    pub fn write_lcd_reg(&mut self, index: usize, val: u8)
        requires
            old(self).wf(),
            index < 0xc,
        ensures
            final(self).wf(),
            final(self).spec_lcd() == old(self).spec_lcd().update(index as int, val),
            final(self).spec_vram() == old(self).spec_vram(),
            final(self).spec_oam() == old(self).spec_oam(),
            final(self).mode == old(self).mode,
            final(self).set_blank == (old(self).set_blank || (index == 0 && val & 0x80 != 0)),
    {
        self.lcd_regs[index] = val;
        if index == 0 && val & 0x80 != 0 {
            self.set_blank = true;
        }
    }

    /// Whether the LCD is enabled.
    fn is_enable(&self) -> (r: bool)
        requires
            self.wf(),
        ensures
            r == self.spec_enabled(),
    {
        self.lcd_regs[0] & 0x80 != 0x00
    }
}

} // verus!
