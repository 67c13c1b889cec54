//! The memory-access contract through which the processor core reaches the
//! shared 16-bit address space, and a flat byte store implementing it.

use vstd::prelude::*;

verus! {

/// Joypad register address.
pub const JOYP: u16 = 0xff00;
/// Divider register address.
pub const DIV: u16 = 0xff04;
/// Timer counter register address.
pub const TIMA: u16 = 0xff05;
/// Timer modulo register address.
pub const TMA: u16 = 0xff06;
/// Timer control register address.
pub const TAC: u16 = 0xff07;
/// LCD control register address.
pub const LCDC: u16 = 0xff40;
/// LCD status register address.
pub const STAT: u16 = 0xff41;
/// Background viewport Y register address.
pub const SCY: u16 = 0xff42;
/// Background viewport X register address.
pub const SCX: u16 = 0xff43;
/// Current scanline register address.
pub const LY: u16 = 0xff44;
/// Scanline compare register address.
pub const LYC: u16 = 0xff45;
/// Sprite DMA source register address.
pub const DMA: u16 = 0xff46;
/// Background palette register address.
pub const BGP: u16 = 0xff47;
/// First object palette register address.
pub const OBP0: u16 = 0xff48;
/// Second object palette register address.
pub const OBP1: u16 = 0xff49;
/// Window Y position register address.
pub const WY: u16 = 0xff4a;
/// Window X position register address.
pub const WX: u16 = 0xff4b;
/// Interrupt flag register address.
pub const IF: u16 = 0xff0f;
/// Interrupt enable register address.
pub const IE: u16 = 0xffff;

/// The little-endian 16-bit value stored at `addr`: the low byte sits at the
/// lower address.
pub open spec fn word_of(mem: Seq<u8>, addr: u16) -> u16 {
    (mem[addr as int] + 256 * mem[addr as int + 1]) as u16
}

/// Byte and word access to the 16-bit address space.
///
/// An implementation exposes its contents as a 64 KiB sequence (`mem`), and
/// names the addresses at which a read is defined (`readable`) and at which a
/// write stores its byte verbatim without touching any other address
/// (`writable`). Words are little-endian: the low byte sits at the lower
/// address.
pub trait MemoryIF: Sized {
    /// The implementation's structural invariant.
    spec fn wf(&self) -> bool;

    /// The byte visible at each of the 0x10000 addresses.
    spec fn mem(&self) -> Seq<u8>;

    /// Reading at `addr` is defined and returns `mem()[addr]`.
    spec fn readable(&self, addr: u16) -> bool;

    /// Writing at `addr` stores the byte verbatim and changes nothing else.
    spec fn writable(&self, addr: u16) -> bool;

    /// The visible contents always cover the full 16-bit address space.
    proof fn lemma_mem_len(&self)
        requires
            self.wf(),
        ensures
            self.mem().len() == 0x10000;

    fn read_byte(&self, addr: u16) -> (r: u8)
        requires
            self.wf(),
            self.readable(addr),
        ensures
            r == self.mem()[addr as int];

    fn write_byte(&mut self, addr: u16, val: u8)
        requires
            old(self).wf(),
            old(self).writable(addr),
        ensures
            final(self).wf(),
            final(self).mem() == old(self).mem().update(addr as int, val),
            forall|a: u16| final(self).readable(a) == old(self).readable(a),
            forall|a: u16| final(self).writable(a) == old(self).writable(a);

    fn read_word(&self, addr: u16) -> (r: u16)
        requires
            self.wf(),
            addr < 0xffff,
            self.readable(addr),
            self.readable((addr + 1) as u16),
        ensures
            r == word_of(self.mem(), addr);

    fn write_word(&mut self, addr: u16, val: u16)
        requires
            old(self).wf(),
            addr < 0xffff,
            old(self).writable(addr),
            old(self).writable((addr + 1) as u16),
        ensures
            final(self).wf(),
            final(self).mem() == old(self).mem()
                .update(addr as int, (val % 256) as u8)
                .update(addr as int + 1, (val / 256) as u8),
            forall|a: u16| final(self).readable(a) == old(self).readable(a),
            forall|a: u16| final(self).writable(a) == old(self).writable(a);
}

/// A flat 64 KiB byte store: every address is plain RAM.
pub struct FlatMemory {
    bytes: Vec<u8>,
}

impl FlatMemory {
    /// A store holding zero at every address.
    pub fn new() -> (r: FlatMemory)
        ensures
            r.wf(),
            forall|a: u16| r.readable(a) && r.writable(a),
            forall|i: int| 0 <= i < 0x10000 ==> r.mem()[i] == 0u8,
    {
        let mut bytes: Vec<u8> = Vec::new();
        let mut i: usize = 0;
        while i < 0x10000
            invariant
                i <= 0x10000,
                bytes@.len() == i,
                forall|j: int| 0 <= j < i ==> bytes@[j] == 0u8,
            decreases 0x10000 - i,
        {
            bytes.push(0u8);
            i = i + 1;
        }
        FlatMemory { bytes }
    }
}

impl MemoryIF for FlatMemory {
    closed spec fn wf(&self) -> bool {
        self.bytes@.len() == 0x10000
    }

    closed spec fn mem(&self) -> Seq<u8> {
        self.bytes@
    }

    closed spec fn readable(&self, addr: u16) -> bool {
        true
    }

    closed spec fn writable(&self, addr: u16) -> bool {
        true
    }

    proof fn lemma_mem_len(&self) {
    }

    fn read_byte(&self, addr: u16) -> (r: u8) {
        self.bytes[addr as usize]
    }

    fn write_byte(&mut self, addr: u16, val: u8) {
        self.bytes[addr as usize] = val;
    }

    fn read_word(&self, addr: u16) -> (r: u16) {
        let lb = self.read_byte(addr);
        let hb = self.read_byte(addr + 1);
        proof {
            crate::bits::lemma_word_combine(hb, lb);
        }
        let l = lb as u16;
        let h = hb as u16;
        (h << 8) | l
    }

    fn write_word(&mut self, addr: u16, val: u16) {
        proof {
            crate::bits::lemma_word_split(val);
        }
        let h = (val >> 8) as u8;
        let l = (val & 0x00ff) as u8;
        self.write_byte(addr, l);
        self.write_byte(addr + 1, h);
    }
}

} // verus!
