//! The machine state: memory, registers, call stack, timers, framebuffer
//! and input latch, together with construction from a program image and the
//! small host-facing helpers (timer ticks, key latch updates).

use vstd::prelude::*;

use crate::fault::Fault;
use crate::font;
use crate::font::FONT_BYTES;

verus! {

/// Width of the monochrome framebuffer, in pixels.
pub const SCHIP8_SCREEN_WIDTH: usize = 64;

/// Height of the monochrome framebuffer, in pixels.
pub const SCHIP8_SCREEN_HEIGHT: usize = 32;

/// Number of pixels in the framebuffer.
pub const NUM_PIXELS: usize = SCHIP8_SCREEN_WIDTH * SCHIP8_SCREEN_HEIGHT;

/// Number of addressable memory bytes.
pub const RAM_SIZE: usize = 0x1000;

/// First address of the loaded program; also the initial program counter.
pub const PROGRAM_START: usize = 512;

/// Largest program image that fits in writable memory.
pub const MAX_PROGRAM_LEN: usize = RAM_SIZE - PROGRAM_START;

/// Capacity of the call stack, deeper than the canonical 12 to 16 levels on
/// purpose, for programs with deep call chains.
pub const STACK_CAPACITY: usize = 48;

/// Number of general-purpose registers V0..VF.
pub const NUM_REGISTERS: usize = 16;

/// Number of keys on the hex key pad.
pub const NUM_KEYS: usize = 16;

/// The whole machine state. The executor is the only writer, except that
/// the host keeps `key_pad` current and decrements the two timers at its
/// own cadence.
pub struct SChip8 {
    /// Pressed/released latch for the 16 hex keys, maintained by the host.
    pub key_pad: [bool; NUM_KEYS],
    /// Delay timer, decremented by the host at roughly 60 Hz.
    pub dt: u8,
    /// Sound timer, decremented by the host at roughly 60 Hz; sound should
    /// be audible exactly while it is above zero.
    pub st: u8,
    /// Framebuffer, row-major, one byte per pixel, each 0 or 1.
    pub screen: [u8; NUM_PIXELS],
    /// Memory: font in [0, 80), program image from 512 on.
    pub ram: [u8; RAM_SIZE],
    /// Program counter.
    pub pc: usize,
    /// Address register I, kept within 12 bits.
    pub ar: u16,
    /// Registers V0..VF, stored with headroom so that carries and borrows
    /// are visible before masking; VF doubles as the flags register.
    pub v: [u16; NUM_REGISTERS],
    /// Call stack of return sites, empty-ascending.
    pub stack: [usize; STACK_CAPACITY],
    /// Stack pointer: number of return sites currently stored.
    pub sp: usize,
}

impl SChip8 {
    /// The state invariant: the stack pointer stays within capacity, every
    /// stored return site leaves room for a whole instruction, the address
    /// register stays within 12 bits, and every pixel is 0 or 1.
    pub open spec fn wf(self) -> bool {
        &&& self.sp <= STACK_CAPACITY
        &&& forall|i: int| 0 <= i < self.sp ==> #[trigger] self.stack@[i] + 2 <= RAM_SIZE
        &&& self.ar < 0x1000
        &&& forall|i: int| 0 <= i < NUM_PIXELS ==> #[trigger] self.screen@[i] <= 1
    }

    /// What construction from a program image guarantees: the font at the
    /// bottom of memory, the image copied to 512 onward, everything else
    /// zeroed, and the program counter at the start of the image.
    pub open spec fn fresh_for(self, program: Seq<u8>) -> bool {
        &&& self.pc == PROGRAM_START
        &&& self.ar == 0
        &&& self.sp == 0
        &&& self.dt == 0
        &&& self.st == 0
        &&& forall|i: int| 0 <= i < NUM_REGISTERS ==> #[trigger] self.v@[i] == 0
        &&& forall|i: int| 0 <= i < NUM_KEYS ==> !(#[trigger] self.key_pad@[i])
        &&& forall|i: int| 0 <= i < NUM_PIXELS ==> #[trigger] self.screen@[i] == 0
        &&& forall|i: int| 0 <= i < STACK_CAPACITY ==> #[trigger] self.stack@[i] == 0
        &&& forall|i: int| 0 <= i < FONT_BYTES ==> #[trigger] self.ram@[i] == font::font_seq()[i]
        &&& forall|i: int| FONT_BYTES <= i < PROGRAM_START ==> #[trigger] self.ram@[i] == 0
        &&& forall|a: int|
            PROGRAM_START <= a < PROGRAM_START + program.len() ==> #[trigger] self.ram@[a]
                == program[a - PROGRAM_START]
        &&& forall|i: int|
            PROGRAM_START + program.len() <= i < RAM_SIZE ==> #[trigger] self.ram@[i] == 0
    }

    /// Whether the built-in font still sits untouched at the bottom of
    /// memory, as construction leaves it.
    pub open spec fn font_loaded(self) -> bool {
        forall|i: int| 0 <= i < FONT_BYTES ==> #[trigger] self.ram@[i] == font::font_seq()[i]
    }

    /// Build a machine from a program image: font preloaded, image copied
    /// to address 512, all other state zeroed. An image larger than the
    /// writable part of memory is rejected.
    pub fn new(program: Vec<u8>) -> (r: Result<SChip8, Fault>)
        ensures
            r is Ok <==> program@.len() <= MAX_PROGRAM_LEN,
            r matches Ok(m) ==> m.wf() && m.fresh_for(program@),
            r matches Err(e) ==> e == (Fault::ProgramTooLarge { len: program@.len() as usize }),
    {
        if program.len() > MAX_PROGRAM_LEN {
            return Err(Fault::ProgramTooLarge { len: program.len() });
        }
        let mut ram: [u8; RAM_SIZE] = [0; RAM_SIZE];
        let font_data = font::font_data();
        let mut i: usize = 0;
        while i < FONT_BYTES
            invariant
                i <= FONT_BYTES,
                forall|j: int| 0 <= j < i ==> #[trigger] ram@[j] == font::font_seq()[j],
                forall|j: int| i <= j < RAM_SIZE ==> #[trigger] ram@[j] == 0,
                font_data@ == font::font_seq(),
            decreases FONT_BYTES - i,
        {
            ram[i] = font_data[i];
            i = i + 1;
        }
        let mut j: usize = 0;
        while j < program.len()
            invariant
                j <= program@.len(),
                program@.len() <= MAX_PROGRAM_LEN,
                forall|k: int| 0 <= k < FONT_BYTES ==> #[trigger] ram@[k] == font::font_seq()[k],
                forall|k: int| FONT_BYTES <= k < PROGRAM_START ==> #[trigger] ram@[k] == 0,
                forall|a: int|
                    PROGRAM_START <= a < PROGRAM_START + j ==> #[trigger] ram@[a] == program@[a
                        - PROGRAM_START],
                forall|k: int| PROGRAM_START + j <= k < RAM_SIZE ==> #[trigger] ram@[k] == 0,
            decreases program@.len() - j,
        {
            ram[PROGRAM_START + j] = program[j];
            j = j + 1;
        }
        Ok(
            SChip8 {
                key_pad: [false; NUM_KEYS],
                dt: 0,
                st: 0,
                screen: [0; NUM_PIXELS],
                ram,
                pc: PROGRAM_START,
                ar: 0,
                v: [0; NUM_REGISTERS],
                stack: [0; STACK_CAPACITY],
                sp: 0,
            },
        )
    }

    /// One 60 Hz timer tick: decrement both timers, each saturating at zero.
    /// The host calls this roughly every 16 ms, independently of how many
    /// instructions were executed in between.
    pub fn tick_timers(&mut self)
        ensures
            final(self).dt == (if old(self).dt > 0 {
                (old(self).dt - 1) as u8
            } else {
                0u8
            }),
            final(self).st == (if old(self).st > 0 {
                (old(self).st - 1) as u8
            } else {
                0u8
            }),
            *final(self) == (SChip8 { dt: final(self).dt, st: final(self).st, ..*old(self) }),
    {
        if self.dt > 0 {
            self.dt = self.dt - 1;
        }
        if self.st > 0 {
            self.st = self.st - 1;
        }
    }

    /// Record a key transition from the host's input source.
    pub fn set_key(&mut self, key: usize, pressed: bool)
        requires
            key < NUM_KEYS,
        ensures
            final(self).key_pad@ == old(self).key_pad@.update(key as int, pressed),
            *final(self) == (SChip8 { key_pad: final(self).key_pad, ..*old(self) }),
    {
        self.key_pad[key] = pressed;
    }

    /// Whether sound should be audible: exactly while the sound timer is
    /// above zero.
    pub fn sound_on(&self) -> (r: bool)
        ensures
            r == (self.st > 0),
    {
        self.st > 0
    }
}

} // verus!
