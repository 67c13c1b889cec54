//! The host-facing data of the presentation layer: pixel colors, emulator
//! control commands, joypad keys, and the joypad register logic that maps
//! held keys into the memory-mapped joypad byte.

use vstd::prelude::*;

use crate::memory::MemoryIF;
use crate::memory::IF;
use crate::memory::JOYP;

verus! {

/// The width of the visible frame in pixels.
pub const GFX_SIZE_X: usize = 160;

/// The height of the visible frame in pixels.
pub const GFX_SIZE_Y: usize = 144;

/// One of the four shades a pixel can take.
#[derive(Clone, Copy, Debug, PartialEq, Eq, Structural)]
pub enum GfxColor {
    W,
    LG,
    DG,
    B,
}

/// A command addressed to the emulator itself rather than the game.
#[derive(Clone, Copy, Debug, PartialEq, Eq, Structural)]
pub enum EmuControl {
    Quit,
    Run,
    Step,
    NextStep,
}

/// One of the eight game buttons.
#[derive(Clone, Copy, Debug, PartialEq, Eq, Structural)]
pub enum Joypad {
    A,
    B,
    Right,
    Left,
    Up,
    Down,
    Start,
    Select,
}

/// A key event: an emulator command, or a game button going down or up.
#[derive(Clone, Copy, Debug, PartialEq, Eq, Structural)]
pub enum GbKey {
    Emu(EmuControl),
    GameKeyDown(Joypad),
    GameKeyUp(Joypad),
}

/// Which of the eight game buttons are currently held.
#[derive(Clone, Copy, Debug, PartialEq, Eq, Structural)]
pub struct Joypads {
    pub a: bool,
    pub b: bool,
    pub right: bool,
    pub left: bool,
    pub up: bool,
    pub down: bool,
    pub start: bool,
    pub select: bool,
}

impl Joypads {
    /// No button held.
    pub fn new() -> (j: Joypads)
        ensures
            j == (Joypads {
                a: false,
                b: false,
                right: false,
                left: false,
                up: false,
                down: false,
                start: false,
                select: false,
            }),
    {
        Joypads {
            a: false,
            b: false,
            right: false,
            left: false,
            up: false,
            down: false,
            start: false,
            select: false,
        }
    }

    /// Whether one button is held.
    pub open spec fn spec_held(self, key: Joypad) -> bool {
        match key {
            Joypad::A => self.a,
            Joypad::B => self.b,
            Joypad::Right => self.right,
            Joypad::Left => self.left,
            Joypad::Up => self.up,
            Joypad::Down => self.down,
            Joypad::Start => self.start,
            Joypad::Select => self.select,
        }
    }

    /// Record one button going down or up.
    pub fn set_key(&mut self, key: Joypad, held: bool)
        ensures
            final(self).spec_held(key) == held,
            forall|k: Joypad| k != key ==> final(self).spec_held(k) == old(self).spec_held(k),
    {
        match key {
            Joypad::A => self.a = held,
            Joypad::B => self.b = held,
            Joypad::Right => self.right = held,
            Joypad::Left => self.left = held,
            Joypad::Up => self.up = held,
            Joypad::Down => self.down = held,
            Joypad::Start => self.start = held,
            Joypad::Select => self.select = held,
        }
    }
}

/// The joypad byte read back for a given selection: the two selection bits
/// are kept, the low four bits start released and are pulled low for each
/// held button of the selected group; the direction group takes precedence.
pub open spec fn spec_joypad_out(joys: Joypads, joyp: u8) -> u8 {
    let base = ((joyp & 0x30) + 0x0f) as u8;
    if joyp & 0x10 == 0 {
        let o1 = if joys.right { base & !0x01 } else { base };
        let o2 = if joys.left { o1 & !0x02 } else { o1 };
        let o3 = if joys.up { o2 & !0x04 } else { o2 };
        if joys.down { o3 & !0x08 } else { o3 }
    } else if joyp & 0x20 == 0 {
        let o1 = if joys.a { base & !0x01 } else { base };
        let o2 = if joys.b { o1 & !0x02 } else { o1 };
        let o3 = if joys.select { o2 & !0x04 } else { o2 };
        if joys.start { o3 & !0x08 } else { o3 }
    } else {
        base
    }
}

/// Compute the joypad byte for the current selection, and whether any
/// selected button is pressed.
pub fn set_joypad_input(joys: &Joypads, joyp: u8) -> (r: (bool, u8))
    ensures
        r.1 == spec_joypad_out(*joys, joyp),
        r.0 == (spec_joypad_out(*joys, joyp) & 0x0f != 0x0f),
{
    proof {
        crate::bits::lemma_sel_mask(joyp);
    }
    let select_buttons = joyp & 0x20 == 0;
    let select_dpad = joyp & 0x10 == 0;
    let mut joyp_out = (joyp & 0x30) + 0x0f;
    if select_dpad {
        if joys.right {
            joyp_out &= !0x01
        }
        if joys.left {
            joyp_out &= !0x02
        }
        if joys.up {
            joyp_out &= !0x04
        }
        if joys.down {
            joyp_out &= !0x08
        }
    } else if select_buttons {
        if joys.a {
            joyp_out &= !0x01
        }
        if joys.b {
            joyp_out &= !0x02
        }
        if joys.select {
            joyp_out &= !0x04
        }
        if joys.start {
            joyp_out &= !0x08
        }
    }
    // joypad interrupt
    let pressed = joyp_out & 0x0f != 0x0f;

    (pressed, joyp_out)
}

/// Refresh the memory-mapped joypad byte from the held buttons and latch the
/// joypad interrupt bit when a selected button is pressed.
pub fn update_joypad<M: MemoryIF>(joys: &Joypads, memory: &mut M) -> (pressed: bool)
    requires
        old(memory).wf(),
        old(memory).readable(JOYP),
        old(memory).writable(JOYP),
        old(memory).readable(IF),
        old(memory).writable(IF),
    ensures
        ({
            let joyp = old(memory).mem()[JOYP as int];
            let out = spec_joypad_out(*joys, joyp);
            let m1 = old(memory).mem().update(JOYP as int, out);
            &&& pressed == (out & 0x0f != 0x0f)
            &&& final(memory).mem() == (if pressed {
                m1.update(IF as int, m1[IF as int] | 0x10)
            } else {
                m1
            })
        }),
        final(memory).wf(),
        forall|a: u16| final(memory).readable(a) == old(memory).readable(a),
        forall|a: u16| final(memory).writable(a) == old(memory).writable(a),
{
    let joyp = memory.read_byte(JOYP);
    let (pressed, joyp_out) = set_joypad_input(joys, joyp);
    memory.write_byte(JOYP, joyp_out);
    if pressed {
        let i_flag = memory.read_byte(IF);
        memory.write_byte(IF, i_flag | 0x10);
    }
    pressed
}

} // verus!
