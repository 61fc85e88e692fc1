//! The CHIP-8 machine: all CPU state and the fetch-decode-execute cycle.
//!
//! A [`Chip8`] owns 4KB of byte-addressable memory, 16 general-purpose byte
//! registers (`V0`..`VF`, where `VF` doubles as the carry/borrow/collision
//! flag), the 16-bit address register `I`, delay and sound timers, a 16-bit
//! program counter, a 16-entry call stack with its stack pointer, a 16-key
//! keypad, and a 64x32 monochrome display buffer.
//!
//! [`Chip8::cycle`] fetches the big-endian 16-bit word at the program
//! counter, advances the program counter by 2, decodes the word, and applies
//! the instruction's effects to the machine state. Its contract is
//! [`spec_cycle`]: an exact state-transition relation covering every
//! instruction of the original 35-opcode set.

use vstd::prelude::*;

use rand::Rng;

use crate::display::spec_draw_collision;
use crate::display::spec_draw_disp;
use crate::display::draw_sprite;
use crate::opcodes::Instruction;
use crate::opcodes::decode;
use crate::opcodes::spec_decode;
use crate::opcodes::lemma_field_ranges;

verus! {

/// Size of the machine's memory in bytes.
pub const RAM_SIZE: usize = 4096;

/// Number of entries in the call stack.
pub const STACK_SIZE: usize = 16;

/// Number of general-purpose registers.
pub const NUM_REGS: usize = 16;

/// Number of keys on the keypad.
pub const NUM_KEYS: usize = 16;

/// Width of the display in pixels.
pub const DISPLAY_WIDTH: usize = 64;

/// Height of the display in pixels.
pub const DISPLAY_HEIGHT: usize = 32;

/// Number of pixel cells in the display buffer.
pub const DISPLAY_SIZE: usize = 64 * 32;

/// First memory address of a loaded program.
pub const ROM_START_ADDR: usize = 0x200;

/// First memory address of the built-in font data.
pub const FONT_START_ADDR: usize = 0x000;

/// Number of bytes in one font glyph.
pub const FONT_GLYPH_SIZE: usize = 5;

/// The errors the machine reports.
#[derive(Clone, Copy, Debug, PartialEq, Eq, Structural)]
pub enum Chip8Error {
    /// A ROM longer than the memory past `ROM_START_ADDR` was handed to
    /// [`Chip8::load_rom`].
    CapacityError,
    /// A `CALL` was executed with the 16-entry stack full, or a `RET` with it
    /// empty.
    StackError,
    /// The fetched word decodes to no instruction the machine executes; it
    /// carries the raw opcode. The program counter has already advanced past
    /// the word, so a caller that chooses the permissive policy may treat the
    /// error as a no-op and keep cycling.
    DecodeError(u16),
    /// An instruction addressed memory at or beyond `RAM_SIZE`, or the
    /// program counter left the addressable range.
    MemoryError,
}

/// What a completed [`Chip8::cycle`] call reports.
#[derive(Clone, Copy, Debug, PartialEq, Eq, Structural)]
pub enum CycleOutcome {
    /// The fetched instruction was executed to completion.
    Completed,
    /// The fetched instruction waits for a key press and no key is down: the
    /// program counter was restored to the instruction, and the caller must
    /// call [`Chip8::cycle`] again once the keypad changes.
    Blocked,
}

/// The built-in font: 16 glyphs for the hexadecimal digits 0-F, 5 bytes each.
pub open spec fn font_seq() -> Seq<u8> {
    seq![
        0xF0u8, 0x90, 0x90, 0x90, 0xF0, // 0
        0x20, 0x60, 0x20, 0x20, 0x70, // 1
        0xF0, 0x10, 0xF0, 0x80, 0xF0, // 2
        0xF0, 0x10, 0xF0, 0x10, 0xF0, // 3
        0x90, 0x90, 0xF0, 0x10, 0x10, // 4
        0xF0, 0x80, 0xF0, 0x10, 0xF0, // 5
        0xF0, 0x80, 0xF0, 0x90, 0xF0, // 6
        0xF0, 0x10, 0x20, 0x40, 0x40, // 7
        0xF0, 0x90, 0xF0, 0x90, 0xF0, // 8
        0xF0, 0x90, 0xF0, 0x10, 0xF0, // 9
        0xF0, 0x90, 0xF0, 0x90, 0x90, // A
        0xE0, 0x90, 0xE0, 0x90, 0xE0, // B
        0xF0, 0x80, 0x80, 0x80, 0xF0, // C
        0xE0, 0x90, 0x90, 0x90, 0xE0, // D
        0xF0, 0x80, 0xF0, 0x80, 0xF0, // E
        0xF0, 0x80, 0xF0, 0x80, 0x80, // F
    ]
}

/// The built-in font set as a byte vector (16 glyphs, 5 bytes each).
fn font_set() -> (v: Vec<u8>)
    ensures
        v@ == font_seq(),
{
    let v: Vec<u8> = vec![
        0xF0u8, 0x90, 0x90, 0x90, 0xF0, // 0
        0x20, 0x60, 0x20, 0x20, 0x70, // 1
        0xF0, 0x10, 0xF0, 0x80, 0xF0, // 2
        0xF0, 0x10, 0xF0, 0x10, 0xF0, // 3
        0x90, 0x90, 0xF0, 0x10, 0x10, // 4
        0xF0, 0x80, 0xF0, 0x10, 0xF0, // 5
        0xF0, 0x80, 0xF0, 0x90, 0xF0, // 6
        0xF0, 0x10, 0x20, 0x40, 0x40, // 7
        0xF0, 0x90, 0xF0, 0x90, 0xF0, // 8
        0xF0, 0x90, 0xF0, 0x10, 0xF0, // 9
        0xF0, 0x90, 0xF0, 0x90, 0x90, // A
        0xE0, 0x90, 0xE0, 0x90, 0xE0, // B
        0xF0, 0x80, 0x80, 0x80, 0xF0, // C
        0xE0, 0x90, 0x90, 0x90, 0xE0, // D
        0xF0, 0x80, 0xF0, 0x80, 0xF0, // E
        0xF0, 0x80, 0xF0, 0x80, 0x80, // F
    ];
    proof {
        assert(v@ =~= font_seq());
    }
    v
}

/// A byte vector of `len` zeroes.
fn zero_bytes(len: usize) -> (v: Vec<u8>)
    ensures
        v@.len() == len,
        forall|i: int| 0 <= i < len ==> v@[i] == 0u8,
{
    let mut v: Vec<u8> = Vec::new();
    while v.len() < len
        invariant
            v@.len() <= len,
            forall|i: int| 0 <= i < v@.len() ==> v@[i] == 0u8,
        decreases len - v@.len(),
    {
        v.push(0u8);
    }
    v
}

/// A word vector of `len` zeroes.
fn zero_words(len: usize) -> (v: Vec<u16>)
    ensures
        v@.len() == len,
        forall|i: int| 0 <= i < len ==> v@[i] == 0u16,
{
    let mut v: Vec<u16> = Vec::new();
    while v.len() < len
        invariant
            v@.len() <= len,
            forall|i: int| 0 <= i < v@.len() ==> v@[i] == 0u16,
        decreases len - v@.len(),
    {
        v.push(0u16);
    }
    v
}

/// The Chip-8 machine core, containing all state including RAM, registers,
/// stack, keypad, and display.
pub struct Chip8 {
    /// 4KB (4,096 bytes) of RAM.
    pub ram: Vec<u8>,
    /// 16 8-bit general purpose registers, V0 through VF (VF is used for
    /// carry/borrow/collision flags).
    pub reg_v: Vec<u8>,
    /// Special register I, usually used to store memory addresses.
    pub reg_i: u16,
    /// Delay timer register.
    pub reg_dt: u8,
    /// Sound timer register.
    pub reg_st: u8,
    /// Program counter register.
    pub reg_pc: u16,
    /// Stack pointer register.
    pub reg_sp: u8,
    /// Stack for subroutine calls (16 levels).
    pub stack: Vec<u16>,
    /// Keypad state (16 keys; nonzero means pressed).
    pub keypad: Vec<u8>,
    /// Display buffer (64x32 pixels; each cell 0 or 1).
    pub display: Vec<u8>,
}

impl Chip8 {
    /// Well-formedness of the machine state: every buffer has its fixed
    /// size, the stack pointer stays within the 16-entry stack, and every
    /// display cell is 0 or 1.
    pub open spec fn wf(self) -> bool {
        &&& self.ram@.len() == RAM_SIZE
        &&& self.reg_v@.len() == NUM_REGS
        &&& self.stack@.len() == STACK_SIZE
        &&& self.keypad@.len() == NUM_KEYS
        &&& self.display@.len() == DISPLAY_SIZE
        &&& self.reg_sp <= STACK_SIZE
        &&& forall|i: int| 0 <= i < DISPLAY_SIZE ==> self.display@[i] <= 1
    }

    /// The just-constructed state: everything zeroed except the font data at
    /// the start of the reserved memory region.
    pub open spec fn is_initial(self) -> bool {
        &&& self.wf()
        &&& forall|i: int| 0 <= i < 80 ==> self.ram@[i] == font_seq()[i]
        &&& forall|i: int| 80 <= i < RAM_SIZE ==> self.ram@[i] == 0u8
        &&& forall|i: int| 0 <= i < NUM_REGS ==> self.reg_v@[i] == 0u8
        &&& forall|i: int| 0 <= i < STACK_SIZE ==> self.stack@[i] == 0u16
        &&& forall|i: int| 0 <= i < NUM_KEYS ==> self.keypad@[i] == 0u8
        &&& forall|i: int| 0 <= i < DISPLAY_SIZE ==> self.display@[i] == 0u8
        &&& self.reg_i == 0
        &&& self.reg_dt == 0
        &&& self.reg_st == 0
        &&& self.reg_pc == 0
        &&& self.reg_sp == 0
    }

    /// Creates a new machine with zeroed state and the font set loaded at
    /// the start of RAM. The program counter is 0 until a ROM is loaded.
    pub fn new() -> (cpu: Chip8)
        ensures
            cpu.is_initial(),
    {
        let mut ram = font_set();
        while ram.len() < RAM_SIZE
            invariant
                80 <= ram@.len() <= RAM_SIZE,
                forall|i: int| 0 <= i < 80 ==> ram@[i] == font_seq()[i],
                forall|i: int| 80 <= i < ram@.len() ==> ram@[i] == 0u8,
            decreases RAM_SIZE - ram@.len(),
        {
            ram.push(0u8);
        }
        let cpu = Chip8 {
            ram,
            reg_v: zero_bytes(NUM_REGS),
            reg_i: 0,
            reg_dt: 0,
            reg_st: 0,
            reg_pc: 0,
            reg_sp: 0,
            stack: zero_words(STACK_SIZE),
            keypad: zero_bytes(NUM_KEYS),
            display: zero_bytes(DISPLAY_SIZE),
        };
        cpu
    }

    /// Restores the machine to its just-constructed state.
    pub fn reset(&mut self)
        ensures
            final(self).is_initial(),
    {
        *self = Self::new();
    }

    /// A read-only view of the display buffer: 64x32 cells in row-major
    /// order, each 0 (off) or 1 (on).
    pub fn get_display(&self) -> (d: &Vec<u8>)
        ensures
            d@ == self.display@,
    {
        &self.display
    }

    /// Loads a ROM into RAM starting at `ROM_START_ADDR` and points the
    /// program counter at it, emptying the call stack. Fails with
    /// `CapacityError`, changing nothing, exactly when the ROM does not fit
    /// in the memory past `ROM_START_ADDR`.
    pub fn load_rom(&mut self, rom: &Vec<u8>) -> (r: Result<(), Chip8Error>)
        requires
            old(self).wf(),
        ensures
            final(self).wf(),
            r == Ok::<(), Chip8Error>(()) <==> rom@.len() + ROM_START_ADDR <= RAM_SIZE,
            r is Ok ==> {
                &&& forall|a: int|
                    0 <= a < RAM_SIZE ==> final(self).ram@[a] == (if ROM_START_ADDR <= a
                        < ROM_START_ADDR + rom@.len() {
                        rom@[a - ROM_START_ADDR]
                    } else {
                        old(self).ram@[a]
                    })
                &&& final(self).reg_pc == ROM_START_ADDR
                &&& final(self).reg_sp == 0
                &&& final(self).reg_v@ == old(self).reg_v@
                &&& final(self).stack@ == old(self).stack@
                &&& final(self).keypad@ == old(self).keypad@
                &&& final(self).display@ == old(self).display@
                &&& final(self).reg_i == old(self).reg_i
                &&& final(self).reg_dt == old(self).reg_dt
                &&& final(self).reg_st == old(self).reg_st
            },
            r is Err ==> r == Err::<(), Chip8Error>(Chip8Error::CapacityError) && *final(self)
                == *old(self),
    {
        if rom.len() > RAM_SIZE - ROM_START_ADDR {
            return Err(Chip8Error::CapacityError);
        }
        let mut idx: usize = 0;
        while idx < rom.len()
            invariant
                old(self).wf(),
                self.wf(),
                idx <= rom@.len(),
                rom@.len() + ROM_START_ADDR <= RAM_SIZE,
                forall|a: int|
                    0 <= a < RAM_SIZE ==> self.ram@[a] == (if ROM_START_ADDR <= a < ROM_START_ADDR
                        + idx {
                        rom@[a - ROM_START_ADDR]
                    } else {
                        old(self).ram@[a]
                    }),
                self.reg_v@ == old(self).reg_v@,
                self.stack@ == old(self).stack@,
                self.keypad@ == old(self).keypad@,
                self.display@ == old(self).display@,
                self.reg_i == old(self).reg_i,
                self.reg_dt == old(self).reg_dt,
                self.reg_st == old(self).reg_st,
                self.reg_pc == old(self).reg_pc,
                self.reg_sp == old(self).reg_sp,
            decreases rom@.len() - idx,
        {
            self.ram.set(ROM_START_ADDR + idx, rom[idx]);
            idx += 1;
        }
        self.reg_pc = ROM_START_ADDR as u16;
        self.reg_sp = 0;
        Ok(())
    }

    /// Reads the delay timer.
    pub fn delay_timer(&self) -> (t: u8)
        ensures
            t == self.reg_dt,
    {
        self.reg_dt
    }

    /// Reads the sound timer.
    pub fn sound_timer(&self) -> (t: u8)
        ensures
            t == self.reg_st,
    {
        self.reg_st
    }

    /// Writes the delay timer. Decrementing the timers at 60Hz is the
    /// caller's responsibility, external to instruction execution.
    pub fn set_delay_timer(&mut self, t: u8)
        ensures
            *final(self) == (Chip8 { reg_dt: t, ..*old(self) }),
    {
        self.reg_dt = t;
    }

    /// Writes the sound timer.
    pub fn set_sound_timer(&mut self, t: u8)
        ensures
            *final(self) == (Chip8 { reg_st: t, ..*old(self) }),
    {
        self.reg_st = t;
    }

    /// Sets one key of the 16-key pad up or down.
    pub fn set_key(&mut self, key: u8, pressed: bool)
        requires
            old(self).wf(),
            key < NUM_KEYS,
        ensures
            final(self).wf(),
            final(self).keypad@ == old(self).keypad@.update(
                key as int,
                if pressed {
                    1u8
                } else {
                    0u8
                },
            ),
            *final(self) == (Chip8 { keypad: final(self).keypad, ..*old(self) }),
    {
        self.keypad.set(key as usize, if pressed { 1 } else { 0 });
    }
}


// ---------------------------------------------------------------------------
// State-transition predicates.
//
// Every predicate below relates the machine state `pre` right after the
// fetch (the program counter already advanced past the instruction word) to
// the state `post` after the instruction's effects. `spec_cycle` assembles
// them into the contract of `Chip8::cycle`.
// ---------------------------------------------------------------------------

/// The two states hold the same memory.
pub open spec fn same_mem(a: Chip8, b: Chip8) -> bool {
    b.ram@ == a.ram@
}

/// The two states hold the same general-purpose registers.
pub open spec fn same_regs(a: Chip8, b: Chip8) -> bool {
    b.reg_v@ == a.reg_v@
}

/// The two states hold the same address register I.
pub open spec fn same_i(a: Chip8, b: Chip8) -> bool {
    b.reg_i == a.reg_i
}

/// The two states hold the same delay and sound timers.
pub open spec fn same_timers(a: Chip8, b: Chip8) -> bool {
    b.reg_dt == a.reg_dt && b.reg_st == a.reg_st
}

/// The two states hold the same program counter.
pub open spec fn same_pc(a: Chip8, b: Chip8) -> bool {
    b.reg_pc == a.reg_pc
}

/// The two states hold the same stack pointer.
pub open spec fn same_sp(a: Chip8, b: Chip8) -> bool {
    b.reg_sp == a.reg_sp
}

/// The two states hold the same call stack contents.
pub open spec fn same_stack(a: Chip8, b: Chip8) -> bool {
    b.stack@ == a.stack@
}

/// The two states hold the same keypad.
pub open spec fn same_keypad(a: Chip8, b: Chip8) -> bool {
    b.keypad@ == a.keypad@
}

/// The two states hold the same display buffer.
pub open spec fn same_display(a: Chip8, b: Chip8) -> bool {
    b.display@ == a.display@
}

/// Nothing changed at all.
pub open spec fn same_state(a: Chip8, b: Chip8) -> bool {
    &&& same_mem(a, b)
    &&& same_regs(a, b)
    &&& same_i(a, b)
    &&& same_timers(a, b)
    &&& same_pc(a, b)
    &&& same_sp(a, b)
    &&& same_stack(a, b)
    &&& same_keypad(a, b)
    &&& same_display(a, b)
}

/// Everything but the program counter is unchanged.
pub open spec fn frame_pc(a: Chip8, b: Chip8) -> bool {
    &&& same_mem(a, b)
    &&& same_regs(a, b)
    &&& same_i(a, b)
    &&& same_timers(a, b)
    &&& same_sp(a, b)
    &&& same_stack(a, b)
    &&& same_keypad(a, b)
    &&& same_display(a, b)
}

/// Everything but the general-purpose registers is unchanged.
pub open spec fn frame_regs(a: Chip8, b: Chip8) -> bool {
    &&& same_mem(a, b)
    &&& same_i(a, b)
    &&& same_timers(a, b)
    &&& same_pc(a, b)
    &&& same_sp(a, b)
    &&& same_stack(a, b)
    &&& same_keypad(a, b)
    &&& same_display(a, b)
}

/// Everything but the memory is unchanged.
pub open spec fn frame_mem(a: Chip8, b: Chip8) -> bool {
    &&& same_regs(a, b)
    &&& same_i(a, b)
    &&& same_timers(a, b)
    &&& same_pc(a, b)
    &&& same_sp(a, b)
    &&& same_stack(a, b)
    &&& same_keypad(a, b)
    &&& same_display(a, b)
}

/// Everything but the address register I is unchanged.
pub open spec fn frame_i(a: Chip8, b: Chip8) -> bool {
    &&& same_mem(a, b)
    &&& same_regs(a, b)
    &&& same_timers(a, b)
    &&& same_pc(a, b)
    &&& same_sp(a, b)
    &&& same_stack(a, b)
    &&& same_keypad(a, b)
    &&& same_display(a, b)
}

/// Everything but the display buffer is unchanged.
pub open spec fn frame_display(a: Chip8, b: Chip8) -> bool {
    &&& same_mem(a, b)
    &&& same_regs(a, b)
    &&& same_i(a, b)
    &&& same_timers(a, b)
    &&& same_pc(a, b)
    &&& same_sp(a, b)
    &&& same_stack(a, b)
    &&& same_keypad(a, b)
}

/// Everything but the display buffer and the registers is unchanged.
pub open spec fn frame_display_regs(a: Chip8, b: Chip8) -> bool {
    &&& same_mem(a, b)
    &&& same_i(a, b)
    &&& same_timers(a, b)
    &&& same_pc(a, b)
    &&& same_sp(a, b)
    &&& same_stack(a, b)
    &&& same_keypad(a, b)
}

/// Everything but the program counter, the stack pointer and the stack is
/// unchanged (the control-flow instructions CALL and RET).
pub open spec fn frame_flow(a: Chip8, b: Chip8) -> bool {
    &&& same_mem(a, b)
    &&& same_regs(a, b)
    &&& same_i(a, b)
    &&& same_timers(a, b)
    &&& same_keypad(a, b)
    &&& same_display(a, b)
}

/// Everything but the delay timer is unchanged.
pub open spec fn frame_dt(a: Chip8, b: Chip8) -> bool {
    &&& same_mem(a, b)
    &&& same_regs(a, b)
    &&& same_i(a, b)
    &&& b.reg_st == a.reg_st
    &&& same_pc(a, b)
    &&& same_sp(a, b)
    &&& same_stack(a, b)
    &&& same_keypad(a, b)
    &&& same_display(a, b)
}

/// Everything but the sound timer is unchanged.
pub open spec fn frame_st(a: Chip8, b: Chip8) -> bool {
    &&& same_mem(a, b)
    &&& same_regs(a, b)
    &&& same_i(a, b)
    &&& b.reg_dt == a.reg_dt
    &&& same_pc(a, b)
    &&& same_sp(a, b)
    &&& same_stack(a, b)
    &&& same_keypad(a, b)
    &&& same_display(a, b)
}

/// Byte addition with wraparound.
pub open spec fn wrap_add_byte(a: u8, b: u8) -> u8 {
    ((a + b) % 256) as u8
}

/// Byte subtraction with wraparound (two's-complement truncation).
pub open spec fn wrap_sub_byte(a: u8, b: u8) -> u8 {
    (((a - b) + 256) % 256) as u8
}

/// 16-bit addition with wraparound.
pub open spec fn wrap_add_word(a: u16, b: u16) -> u16 {
    ((a + b) % 0x10000) as u16
}

/// CLS: the display buffer is all-off; nothing else changes.
pub open spec fn cls_post(pre: Chip8, post: Chip8) -> bool {
    &&& post.display@.len() == DISPLAY_SIZE
    &&& forall|i: int| 0 <= i < DISPLAY_SIZE ==> post.display@[i] == 0u8
    &&& frame_display(pre, post)
}

/// RET: with an empty stack nothing changes and a `StackError` is reported;
/// otherwise the stack pointer drops by one and the program counter becomes
/// the popped return address.
pub open spec fn ret_post(pre: Chip8, post: Chip8, r: Result<CycleOutcome, Chip8Error>) -> bool {
    if pre.reg_sp == 0 {
        same_state(pre, post) && r == Err::<CycleOutcome, Chip8Error>(Chip8Error::StackError)
    } else {
        &&& post.reg_pc == pre.stack@[pre.reg_sp as int - 1]
        &&& post.reg_sp == pre.reg_sp - 1
        &&& same_stack(pre, post)
        &&& frame_flow(pre, post)
        &&& r == Ok::<CycleOutcome, Chip8Error>(CycleOutcome::Completed)
    }
}

/// CALL: with a full stack nothing changes and a `StackError` is reported;
/// otherwise the return address (the instruction after the CALL) is pushed
/// and the program counter becomes `addr`.
pub open spec fn call_post(pre: Chip8, post: Chip8, addr: u16, r: Result<
    CycleOutcome,
    Chip8Error,
>) -> bool {
    if pre.reg_sp >= STACK_SIZE {
        same_state(pre, post) && r == Err::<CycleOutcome, Chip8Error>(Chip8Error::StackError)
    } else {
        &&& post.stack@ == pre.stack@.update(pre.reg_sp as int, pre.reg_pc)
        &&& post.reg_sp == pre.reg_sp + 1
        &&& post.reg_pc == addr
        &&& frame_flow(pre, post)
        &&& r == Ok::<CycleOutcome, Chip8Error>(CycleOutcome::Completed)
    }
}

/// JP: the program counter becomes exactly `addr`; nothing else changes.
pub open spec fn jp_post(pre: Chip8, post: Chip8, addr: u16) -> bool {
    post.reg_pc == addr && frame_pc(pre, post)
}

/// JP V0: the program counter becomes `V0 + addr`; nothing else changes.
pub open spec fn jpv0_post(pre: Chip8, post: Chip8, addr: u16) -> bool {
    post.reg_pc == pre.reg_v@[0] + addr && frame_pc(pre, post)
}

/// A conditional skip: when `cond` holds the program counter advances by an
/// additional 2, skipping the next instruction; nothing else changes.
pub open spec fn skip_post(pre: Chip8, post: Chip8, cond: bool) -> bool {
    &&& post.reg_pc == (if cond {
        (pre.reg_pc + 2) as u16
    } else {
        pre.reg_pc
    })
    &&& frame_pc(pre, post)
}

/// A write of `v` to register `x`; nothing else changes.
pub open spec fn reg_write_post(pre: Chip8, post: Chip8, x: u8, v: u8) -> bool {
    post.reg_v@ == pre.reg_v@.update(x as int, v) && frame_regs(pre, post)
}

/// An ALU write: the flag register VF is written first, then register `x`
/// (so the result wins when `x` is VF itself); nothing else changes.
pub open spec fn alu_post(pre: Chip8, post: Chip8, x: u8, flag: u8, v: u8) -> bool {
    post.reg_v@ == pre.reg_v@.update(0xF, flag).update(x as int, v) && frame_regs(pre, post)
}

/// ADD Vx,Vy: the sum is computed at wider-than-byte precision; VF is 1
/// exactly when the true sum exceeds 255, and Vx gets the low byte.
pub open spec fn add_post(pre: Chip8, post: Chip8, x: u8, y: u8) -> bool {
    let a = pre.reg_v@[x as int];
    let b = pre.reg_v@[y as int];
    alu_post(
        pre,
        post,
        x,
        if a + b > 255 {
            1u8
        } else {
            0u8
        },
        wrap_add_byte(a, b),
    )
}

/// SUB Vx,Vy: VF is 1 exactly when Vx >= Vy (no borrow); Vx gets Vx - Vy
/// with byte wraparound.
pub open spec fn sub_post(pre: Chip8, post: Chip8, x: u8, y: u8) -> bool {
    let a = pre.reg_v@[x as int];
    let b = pre.reg_v@[y as int];
    alu_post(
        pre,
        post,
        x,
        if a >= b {
            1u8
        } else {
            0u8
        },
        wrap_sub_byte(a, b),
    )
}

/// SUBN Vx,Vy: VF is 1 exactly when Vy >= Vx; Vx gets Vy - Vx with byte
/// wraparound.
pub open spec fn subn_post(pre: Chip8, post: Chip8, x: u8, y: u8) -> bool {
    let a = pre.reg_v@[x as int];
    let b = pre.reg_v@[y as int];
    alu_post(
        pre,
        post,
        x,
        if b >= a {
            1u8
        } else {
            0u8
        },
        wrap_sub_byte(b, a),
    )
}

/// SHR Vx: VF captures the least significant bit before the shift; Vx is
/// then shifted right by one.
pub open spec fn shr_post(pre: Chip8, post: Chip8, x: u8) -> bool {
    let a = pre.reg_v@[x as int];
    alu_post(pre, post, x, a & 1, a >> 1u8)
}

/// SHL Vx: VF captures the most significant bit before the shift; Vx is
/// then shifted left by one.
pub open spec fn shl_post(pre: Chip8, post: Chip8, x: u8) -> bool {
    let a = pre.reg_v@[x as int];
    alu_post(pre, post, x, (a & 0x80) >> 7u8, a << 1u8)
}

/// RND Vx: Vx gets a drawn byte masked with `imm`; the contract fixes no
/// draw, so it holds whatever byte came back.
pub open spec fn rnd_post(pre: Chip8, post: Chip8, x: u8, imm: u8) -> bool {
    (exists|rb: u8| rb < 0xFF && post.reg_v@ == pre.reg_v@.update(x as int, rb & imm))
        && frame_regs(pre, post)
}

/// LD I: the address register becomes `addr`; nothing else changes.
pub open spec fn ldi_post(pre: Chip8, post: Chip8, addr: u16) -> bool {
    post.reg_i == addr && frame_i(pre, post)
}

/// ADD I,Vx: I gets I + Vx with 16-bit wraparound; nothing else changes.
pub open spec fn addi_post(pre: Chip8, post: Chip8, x: u8) -> bool {
    post.reg_i == wrap_add_word(pre.reg_i, pre.reg_v@[x as int] as u16) && frame_i(pre, post)
}

/// LD F,Vx: I points at the 5-byte font glyph of the low nibble of Vx.
pub open spec fn ldf_post(pre: Chip8, post: Chip8, x: u8) -> bool {
    post.reg_i == FONT_START_ADDR + FONT_GLYPH_SIZE * (pre.reg_v@[x as int] & 0x0F) && frame_i(
        pre,
        post,
    )
}

/// LD B,Vx: the hundreds, tens and ones digits of Vx go to memory at I,
/// I+1, I+2; out-of-range addresses are a `MemoryError` changing nothing.
pub open spec fn bcd_post(pre: Chip8, post: Chip8, x: u8, r: Result<
    CycleOutcome,
    Chip8Error,
>) -> bool {
    if pre.reg_i as int + 2 >= RAM_SIZE {
        same_state(pre, post) && r == Err::<CycleOutcome, Chip8Error>(Chip8Error::MemoryError)
    } else {
        let v = pre.reg_v@[x as int];
        let i = pre.reg_i as int;
        &&& post.ram@ == pre.ram@.update(i, v / 100).update(i + 1, (v / 10) % 10).update(
            i + 2,
            v % 10,
        )
        &&& frame_mem(pre, post)
        &&& r == Ok::<CycleOutcome, Chip8Error>(CycleOutcome::Completed)
    }
}

/// LD [I],Vx: registers V0 through Vx go to memory starting at I;
/// out-of-range addresses are a `MemoryError` changing nothing.
pub open spec fn store_regs_post(pre: Chip8, post: Chip8, x: u8, r: Result<
    CycleOutcome,
    Chip8Error,
>) -> bool {
    if pre.reg_i as int + x as int >= RAM_SIZE {
        same_state(pre, post) && r == Err::<CycleOutcome, Chip8Error>(Chip8Error::MemoryError)
    } else {
        let i = pre.reg_i as int;
        &&& post.ram@.len() == RAM_SIZE
        &&& forall|a: int|
            0 <= a < RAM_SIZE ==> post.ram@[a] == (if i <= a <= i + x {
                pre.reg_v@[a - i]
            } else {
                pre.ram@[a]
            })
        &&& frame_mem(pre, post)
        &&& r == Ok::<CycleOutcome, Chip8Error>(CycleOutcome::Completed)
    }
}

/// LD Vx,[I]: registers V0 through Vx are read from memory starting at I;
/// out-of-range addresses are a `MemoryError` changing nothing.
pub open spec fn load_regs_post(pre: Chip8, post: Chip8, x: u8, r: Result<
    CycleOutcome,
    Chip8Error,
>) -> bool {
    if pre.reg_i as int + x as int >= RAM_SIZE {
        same_state(pre, post) && r == Err::<CycleOutcome, Chip8Error>(Chip8Error::MemoryError)
    } else {
        let i = pre.reg_i as int;
        &&& post.reg_v@.len() == NUM_REGS
        &&& forall|j: int|
            0 <= j < NUM_REGS ==> post.reg_v@[j] == (if j <= x {
                pre.ram@[i + j]
            } else {
                pre.reg_v@[j]
            })
        &&& frame_regs(pre, post)
        &&& r == Ok::<CycleOutcome, Chip8Error>(CycleOutcome::Completed)
    }
}

/// The key a Vx value selects on the 16-key pad: its low nibble.
pub open spec fn key_of(v: u8) -> int {
    (v & 0x0F) as int
}

/// LD Vx,DT: Vx gets the delay timer; nothing else changes.
pub open spec fn ld_dt_read_post(pre: Chip8, post: Chip8, x: u8) -> bool {
    reg_write_post(pre, post, x, pre.reg_dt)
}

/// LD Vx,K: with some key down, Vx gets the lowest-numbered pressed key and
/// the cycle completes; with no key down, the program counter is moved back
/// onto the instruction and the cycle reports `Blocked`.
pub open spec fn wait_key_post(pre: Chip8, post: Chip8, x: u8, r: Result<
    CycleOutcome,
    Chip8Error,
>) -> bool {
    if exists|k: int| 0 <= k < NUM_KEYS && pre.keypad@[k] != 0 {
        &&& (exists|k: int|
            {
                &&& 0 <= k < NUM_KEYS
                &&& pre.keypad@[k] != 0
                &&& (forall|j: int| 0 <= j < k ==> pre.keypad@[j] == 0)
                &&& post.reg_v@ == pre.reg_v@.update(x as int, k as u8)
            })
        &&& frame_regs(pre, post)
        &&& r == Ok::<CycleOutcome, Chip8Error>(CycleOutcome::Completed)
    } else {
        &&& post.reg_pc == (pre.reg_pc - 2) as u16
        &&& frame_pc(pre, post)
        &&& r == Ok::<CycleOutcome, Chip8Error>(CycleOutcome::Blocked)
    }
}

/// DRW Vx,Vy,n: the n-row sprite at I is XORed onto the display at the
/// wrapped coordinates, VF reports the collision; a sprite reaching past
/// the end of memory is a `MemoryError` changing nothing.
pub open spec fn drw_post(pre: Chip8, post: Chip8, x: u8, y: u8, n: u8, r: Result<
    CycleOutcome,
    Chip8Error,
>) -> bool {
    if pre.reg_i as int + n as int > RAM_SIZE {
        same_state(pre, post) && r == Err::<CycleOutcome, Chip8Error>(Chip8Error::MemoryError)
    } else {
        let vx = pre.reg_v@[x as int] as int;
        let vy = pre.reg_v@[y as int] as int;
        let i = pre.reg_i as int;
        let coll = spec_draw_collision(pre.display@, pre.ram@, i, vx, vy, 8 * (n as int));
        &&& post.display@ == spec_draw_disp(pre.display@, pre.ram@, i, vx, vy, 8 * (n as int))
        &&& post.reg_v@ == pre.reg_v@.update(
            0xF,
            if coll {
                1u8
            } else {
                0u8
            },
        )
        &&& frame_display_regs(pre, post)
        &&& r == Ok::<CycleOutcome, Chip8Error>(CycleOutcome::Completed)
    }
}

/// An instruction the machine does not execute: nothing changes and a
/// `DecodeError` carrying the raw opcode is reported.
pub open spec fn unknown_post(pre: Chip8, post: Chip8, opcode: u16, r: Result<
    CycleOutcome,
    Chip8Error,
>) -> bool {
    same_state(pre, post) && r == Err::<CycleOutcome, Chip8Error>(Chip8Error::DecodeError(opcode))
}

/// The big-endian 16-bit word at the program counter.
pub open spec fn spec_fetched(m: Chip8) -> u16 {
    ((m.ram@[m.reg_pc as int] as u16) << 8u16) | (m.ram@[m.reg_pc as int + 1] as u16)
}

/// The state right after a fetch: the program counter advanced by 2.
pub open spec fn spec_advanced(m: Chip8) -> Chip8 {
    Chip8 { reg_pc: (m.reg_pc + 2) as u16, ..m }
}

/// What executing the instruction decoded from `opcode` does to the machine
/// state `m` (taken right after the fetch). The Super Chip-48 variants are
/// recognized by the decoder but not executed: they report a `DecodeError`
/// like unknown opcodes.
pub open spec fn spec_exec(m: Chip8, opcode: u16, post: Chip8, r: Result<
    CycleOutcome,
    Chip8Error,
>) -> bool {
    match spec_decode(opcode) {
        Instruction::CLS => cls_post(m, post) && r == Ok::<CycleOutcome, Chip8Error>(
            CycleOutcome::Completed,
        ),
        Instruction::RET => ret_post(m, post, r),
        Instruction::SYS(_addr) => same_state(m, post) && r == Ok::<CycleOutcome, Chip8Error>(
            CycleOutcome::Completed,
        ),
        Instruction::JP(addr) => jp_post(m, post, addr) && r == Ok::<CycleOutcome, Chip8Error>(
            CycleOutcome::Completed,
        ),
        Instruction::CALL(addr) => call_post(m, post, addr, r),
        Instruction::SEVxImm { x, imm } => skip_post(m, post, m.reg_v@[x as int] == imm) && r
            == Ok::<CycleOutcome, Chip8Error>(CycleOutcome::Completed),
        Instruction::SNEVxImm { x, imm } => skip_post(m, post, m.reg_v@[x as int] != imm) && r
            == Ok::<CycleOutcome, Chip8Error>(CycleOutcome::Completed),
        Instruction::SEVxVy { x, y } => skip_post(
            m,
            post,
            m.reg_v@[x as int] == m.reg_v@[y as int],
        ) && r == Ok::<CycleOutcome, Chip8Error>(CycleOutcome::Completed),
        Instruction::SNEVxVy { x, y } => skip_post(
            m,
            post,
            m.reg_v@[x as int] != m.reg_v@[y as int],
        ) && r == Ok::<CycleOutcome, Chip8Error>(CycleOutcome::Completed),
        Instruction::LDVxImm { x, imm } => reg_write_post(m, post, x, imm) && r == Ok::<
            CycleOutcome,
            Chip8Error,
        >(CycleOutcome::Completed),
        Instruction::ADDVxImm { x, imm } => reg_write_post(
            m,
            post,
            x,
            wrap_add_byte(m.reg_v@[x as int], imm),
        ) && r == Ok::<CycleOutcome, Chip8Error>(CycleOutcome::Completed),
        Instruction::LDVxVy { x, y } => reg_write_post(m, post, x, m.reg_v@[y as int]) && r
            == Ok::<CycleOutcome, Chip8Error>(CycleOutcome::Completed),
        Instruction::ORVxVy { x, y } => reg_write_post(
            m,
            post,
            x,
            m.reg_v@[x as int] | m.reg_v@[y as int],
        ) && r == Ok::<CycleOutcome, Chip8Error>(CycleOutcome::Completed),
        Instruction::ANDVxVy { x, y } => reg_write_post(
            m,
            post,
            x,
            m.reg_v@[x as int] & m.reg_v@[y as int],
        ) && r == Ok::<CycleOutcome, Chip8Error>(CycleOutcome::Completed),
        Instruction::XORVxVy { x, y } => reg_write_post(
            m,
            post,
            x,
            m.reg_v@[x as int] ^ m.reg_v@[y as int],
        ) && r == Ok::<CycleOutcome, Chip8Error>(CycleOutcome::Completed),
        Instruction::ADDVxVy { x, y } => add_post(m, post, x, y) && r == Ok::<
            CycleOutcome,
            Chip8Error,
        >(CycleOutcome::Completed),
        Instruction::SUBVxVy { x, y } => sub_post(m, post, x, y) && r == Ok::<
            CycleOutcome,
            Chip8Error,
        >(CycleOutcome::Completed),
        Instruction::SHRVxVy { x, y: _ } => shr_post(m, post, x) && r == Ok::<
            CycleOutcome,
            Chip8Error,
        >(CycleOutcome::Completed),
        Instruction::SUBNVxVy { x, y } => subn_post(m, post, x, y) && r == Ok::<
            CycleOutcome,
            Chip8Error,
        >(CycleOutcome::Completed),
        Instruction::SHLVxVy { x, y: _ } => shl_post(m, post, x) && r == Ok::<
            CycleOutcome,
            Chip8Error,
        >(CycleOutcome::Completed),
        Instruction::LDI(addr) => ldi_post(m, post, addr) && r == Ok::<CycleOutcome, Chip8Error>(
            CycleOutcome::Completed,
        ),
        Instruction::JPV0(addr) => jpv0_post(m, post, addr) && r == Ok::<CycleOutcome, Chip8Error>(
            CycleOutcome::Completed,
        ),
        Instruction::RNDVxImm { x, imm } => rnd_post(m, post, x, imm) && r == Ok::<
            CycleOutcome,
            Chip8Error,
        >(CycleOutcome::Completed),
        Instruction::DRWVxVyn { x, y, n } => drw_post(m, post, x, y, n, r),
        Instruction::SKPVx(x) => skip_post(m, post, m.keypad@[key_of(m.reg_v@[x as int])] != 0)
            && r == Ok::<CycleOutcome, Chip8Error>(CycleOutcome::Completed),
        Instruction::SKNPVx(x) => skip_post(m, post, m.keypad@[key_of(m.reg_v@[x as int])] == 0)
            && r == Ok::<CycleOutcome, Chip8Error>(CycleOutcome::Completed),
        Instruction::LDVxDT(x) => ld_dt_read_post(m, post, x) && r == Ok::<
            CycleOutcome,
            Chip8Error,
        >(CycleOutcome::Completed),
        Instruction::LDVxK(x) => wait_key_post(m, post, x, r),
        Instruction::LDDTVx(x) => post.reg_dt == m.reg_v@[x as int] && frame_dt(m, post) && r
            == Ok::<CycleOutcome, Chip8Error>(CycleOutcome::Completed),
        Instruction::LDSTVx(x) => post.reg_st == m.reg_v@[x as int] && frame_st(m, post) && r
            == Ok::<CycleOutcome, Chip8Error>(CycleOutcome::Completed),
        Instruction::ADDIVx(x) => addi_post(m, post, x) && r == Ok::<CycleOutcome, Chip8Error>(
            CycleOutcome::Completed,
        ),
        Instruction::LDFVx(x) => ldf_post(m, post, x) && r == Ok::<CycleOutcome, Chip8Error>(
            CycleOutcome::Completed,
        ),
        Instruction::LDBVx(x) => bcd_post(m, post, x, r),
        Instruction::LDIVx(x) => store_regs_post(m, post, x, r),
        Instruction::LDVxI(x) => load_regs_post(m, post, x, r),
        Instruction::DRWVxVy0 { x: _, y: _ } => unknown_post(m, post, opcode, r),
        Instruction::LDHFVx(_) => unknown_post(m, post, opcode, r),
        Instruction::LDRV(_) => unknown_post(m, post, opcode, r),
        Instruction::LDVxR(_) => unknown_post(m, post, opcode, r),
        Instruction::SCD(_) => unknown_post(m, post, opcode, r),
        Instruction::SCR => unknown_post(m, post, opcode, r),
        Instruction::SCL => unknown_post(m, post, opcode, r),
        Instruction::EXIT => unknown_post(m, post, opcode, r),
        Instruction::LOW => unknown_post(m, post, opcode, r),
        Instruction::HIGH => unknown_post(m, post, opcode, r),
        Instruction::Unknown(_) => unknown_post(m, post, opcode, r),
    }
}

/// The full contract of one call to [`Chip8::cycle`]: with the program
/// counter (and its successor byte) inside memory, the word there is
/// fetched, the program counter advances by 2, and the decoded instruction
/// is applied; otherwise nothing changes and a `MemoryError` is reported.
pub open spec fn spec_cycle(pre: Chip8, post: Chip8, r: Result<
    CycleOutcome,
    Chip8Error,
>) -> bool {
    if pre.reg_pc as int + 1 < RAM_SIZE {
        spec_exec(spec_advanced(pre), spec_fetched(pre), post, r)
    } else {
        same_state(pre, post) && r == Err::<CycleOutcome, Chip8Error>(Chip8Error::MemoryError)
    }
}

/// Relies on rand::rng and rand::Rng::random_range: a draw from the
/// half-open range 0..0xFF is uniform over it, so the result stays below
/// 0xFF.
#[verifier::external_body]
fn random_byte() -> (r: u8)
    ensures
        r < 0xFF,
{
    let mut rng = rand::rng();
    rng.random_range(0x0..0xFF)
}

impl Chip8 {
    /// CLS: clears the display.
    fn op_cls(&mut self)
        requires
            old(self).wf(),
        ensures
            final(self).wf(),
            cls_post(*old(self), *final(self)),
    {
        let ghost pre = *self;
        let mut i: usize = 0;
        while i < DISPLAY_SIZE
            invariant
                pre.wf(),
                self.display@.len() == DISPLAY_SIZE,
                i <= DISPLAY_SIZE,
                forall|j: int| 0 <= j < i ==> self.display@[j] == 0u8,
                forall|j: int| i <= j < DISPLAY_SIZE ==> self.display@[j] == pre.display@[j],
                frame_display(pre, *self),
            decreases DISPLAY_SIZE - i,
        {
            self.display.set(i, 0u8);
            i += 1;
        }
    }

    /// RET: pops the return address, or reports a `StackError` on an empty
    /// stack.
    fn op_ret(&mut self) -> (r: Result<CycleOutcome, Chip8Error>)
        requires
            old(self).wf(),
        ensures
            final(self).wf(),
            ret_post(*old(self), *final(self), r),
    {
        if self.reg_sp == 0 {
            return Err(Chip8Error::StackError);
        }
        self.reg_sp = self.reg_sp - 1;
        self.reg_pc = self.stack[self.reg_sp as usize];
        Ok(CycleOutcome::Completed)
    }

    /// SYS: historically a jump into a machine-code routine; ignored by
    /// modern interpreters, so it executes as a no-op.
    fn op_sys(&mut self, _addr: u16)
        requires
            old(self).wf(),
        ensures
            final(self).wf(),
            same_state(*old(self), *final(self)),
    {
    }

    /// JP: jumps to `addr`.
    fn op_jp(&mut self, addr: u16)
        requires
            old(self).wf(),
        ensures
            final(self).wf(),
            jp_post(*old(self), *final(self), addr),
    {
        self.reg_pc = addr;
    }

    /// CALL: pushes the return address and jumps, or reports a `StackError`
    /// on a full stack.
    fn op_call(&mut self, addr: u16) -> (r: Result<CycleOutcome, Chip8Error>)
        requires
            old(self).wf(),
        ensures
            final(self).wf(),
            call_post(*old(self), *final(self), addr, r),
    {
        if self.reg_sp as usize >= STACK_SIZE {
            return Err(Chip8Error::StackError);
        }
        self.stack.set(self.reg_sp as usize, self.reg_pc);
        self.reg_sp = self.reg_sp + 1;
        self.reg_pc = addr;
        Ok(CycleOutcome::Completed)
    }

    /// SE Vx,imm: skips the next instruction when Vx equals the immediate.
    fn op_sevx_imm(&mut self, x: u8, imm: u8)
        requires
            old(self).wf(),
            x < 16,
            old(self).reg_pc + 2 <= u16::MAX,
        ensures
            final(self).wf(),
            skip_post(*old(self), *final(self), old(self).reg_v@[x as int] == imm),
    {
        if self.reg_v[x as usize] == imm {
            self.reg_pc = self.reg_pc + 2;
        }
    }

    /// SNE Vx,imm: skips the next instruction when Vx differs from the
    /// immediate.
    fn op_snevx_imm(&mut self, x: u8, imm: u8)
        requires
            old(self).wf(),
            x < 16,
            old(self).reg_pc + 2 <= u16::MAX,
        ensures
            final(self).wf(),
            skip_post(*old(self), *final(self), old(self).reg_v@[x as int] != imm),
    {
        if self.reg_v[x as usize] != imm {
            self.reg_pc = self.reg_pc + 2;
        }
    }

    /// SE Vx,Vy: skips the next instruction when the registers are equal.
    fn op_sevx_vy(&mut self, x: u8, y: u8)
        requires
            old(self).wf(),
            x < 16,
            y < 16,
            old(self).reg_pc + 2 <= u16::MAX,
        ensures
            final(self).wf(),
            skip_post(
                *old(self),
                *final(self),
                old(self).reg_v@[x as int] == old(self).reg_v@[y as int],
            ),
    {
        if self.reg_v[x as usize] == self.reg_v[y as usize] {
            self.reg_pc = self.reg_pc + 2;
        }
    }

    /// SNE Vx,Vy: skips the next instruction when the registers differ.
    fn op_snevx_vy(&mut self, x: u8, y: u8)
        requires
            old(self).wf(),
            x < 16,
            y < 16,
            old(self).reg_pc + 2 <= u16::MAX,
        ensures
            final(self).wf(),
            skip_post(
                *old(self),
                *final(self),
                old(self).reg_v@[x as int] != old(self).reg_v@[y as int],
            ),
    {
        if self.reg_v[x as usize] != self.reg_v[y as usize] {
            self.reg_pc = self.reg_pc + 2;
        }
    }

    /// LD Vx,imm: loads the immediate into Vx.
    fn op_ldvx_imm(&mut self, x: u8, imm: u8)
        requires
            old(self).wf(),
            x < 16,
        ensures
            final(self).wf(),
            reg_write_post(*old(self), *final(self), x, imm),
    {
        self.reg_v.set(x as usize, imm);
    }

    /// ADD Vx,imm: adds the immediate to Vx with byte wraparound; VF is not
    /// written.
    fn op_addvx_imm(&mut self, x: u8, imm: u8)
        requires
            old(self).wf(),
            x < 16,
        ensures
            final(self).wf(),
            reg_write_post(
                *old(self),
                *final(self),
                x,
                wrap_add_byte(old(self).reg_v@[x as int], imm),
            ),
    {
        let a = self.reg_v[x as usize];
        self.reg_v.set(x as usize, a.wrapping_add(imm));
    }

    /// LD Vx,Vy: copies Vy into Vx.
    fn op_ldvx_vy(&mut self, x: u8, y: u8)
        requires
            old(self).wf(),
            x < 16,
            y < 16,
        ensures
            final(self).wf(),
            reg_write_post(*old(self), *final(self), x, old(self).reg_v@[y as int]),
    {
        let b = self.reg_v[y as usize];
        self.reg_v.set(x as usize, b);
    }

    /// OR Vx,Vy: bitwise OR into Vx.
    fn op_orvx_vy(&mut self, x: u8, y: u8)
        requires
            old(self).wf(),
            x < 16,
            y < 16,
        ensures
            final(self).wf(),
            reg_write_post(
                *old(self),
                *final(self),
                x,
                old(self).reg_v@[x as int] | old(self).reg_v@[y as int],
            ),
    {
        let a = self.reg_v[x as usize];
        let b = self.reg_v[y as usize];
        self.reg_v.set(x as usize, a | b);
    }

    /// AND Vx,Vy: bitwise AND into Vx.
    fn op_andvx_vy(&mut self, x: u8, y: u8)
        requires
            old(self).wf(),
            x < 16,
            y < 16,
        ensures
            final(self).wf(),
            reg_write_post(
                *old(self),
                *final(self),
                x,
                old(self).reg_v@[x as int] & old(self).reg_v@[y as int],
            ),
    {
        let a = self.reg_v[x as usize];
        let b = self.reg_v[y as usize];
        self.reg_v.set(x as usize, a & b);
    }

    /// XOR Vx,Vy: bitwise XOR into Vx.
    fn op_xorvx_vy(&mut self, x: u8, y: u8)
        requires
            old(self).wf(),
            x < 16,
            y < 16,
        ensures
            final(self).wf(),
            reg_write_post(
                *old(self),
                *final(self),
                x,
                old(self).reg_v@[x as int] ^ old(self).reg_v@[y as int],
            ),
    {
        let a = self.reg_v[x as usize];
        let b = self.reg_v[y as usize];
        self.reg_v.set(x as usize, a ^ b);
    }

    /// ADD Vx,Vy: adds at wider-than-byte precision so the carry into VF is
    /// never lost; Vx gets the truncated low byte.
    fn op_addvx_vy(&mut self, x: u8, y: u8)
        requires
            old(self).wf(),
            x < 16,
            y < 16,
        ensures
            final(self).wf(),
            add_post(*old(self), *final(self), x, y),
    {
        let a = self.reg_v[x as usize];
        let b = self.reg_v[y as usize];
        let flag: u8 = if (a as u16) + (b as u16) > 0xFF {
            1
        } else {
            0
        };
        let sum = a.wrapping_add(b);
        self.reg_v.set(0xF, flag);
        self.reg_v.set(x as usize, sum);
    }

    /// SUB Vx,Vy: VF gets the no-borrow flag, Vx the wrapped difference.
    fn op_subvx_vy(&mut self, x: u8, y: u8)
        requires
            old(self).wf(),
            x < 16,
            y < 16,
        ensures
            final(self).wf(),
            sub_post(*old(self), *final(self), x, y),
    {
        let a = self.reg_v[x as usize];
        let b = self.reg_v[y as usize];
        let flag: u8 = if a >= b {
            1
        } else {
            0
        };
        let diff = a.wrapping_sub(b);
        self.reg_v.set(0xF, flag);
        self.reg_v.set(x as usize, diff);
    }

    /// SHR Vx: VF captures the bit shifted out before the shift is applied.
    fn op_shrvx(&mut self, x: u8)
        requires
            old(self).wf(),
            x < 16,
        ensures
            final(self).wf(),
            shr_post(*old(self), *final(self), x),
    {
        let a = self.reg_v[x as usize];
        self.reg_v.set(0xF, a & 1);
        self.reg_v.set(x as usize, a >> 1u8);
    }

    /// SUBN Vx,Vy: VF gets the no-borrow flag of Vy - Vx, Vx the wrapped
    /// difference.
    fn op_subnvx_vy(&mut self, x: u8, y: u8)
        requires
            old(self).wf(),
            x < 16,
            y < 16,
        ensures
            final(self).wf(),
            subn_post(*old(self), *final(self), x, y),
    {
        let a = self.reg_v[x as usize];
        let b = self.reg_v[y as usize];
        let flag: u8 = if b >= a {
            1
        } else {
            0
        };
        let diff = b.wrapping_sub(a);
        self.reg_v.set(0xF, flag);
        self.reg_v.set(x as usize, diff);
    }

    /// SHL Vx: VF captures the bit shifted out before the shift is applied.
    fn op_shlvx(&mut self, x: u8)
        requires
            old(self).wf(),
            x < 16,
        ensures
            final(self).wf(),
            shl_post(*old(self), *final(self), x),
    {
        let a = self.reg_v[x as usize];
        self.reg_v.set(0xF, (a & 0x80) >> 7u8);
        self.reg_v.set(x as usize, a << 1u8);
    }

    /// LD I,addr: loads the address register.
    fn op_ldi_addr(&mut self, addr: u16)
        requires
            old(self).wf(),
        ensures
            final(self).wf(),
            ldi_post(*old(self), *final(self), addr),
    {
        self.reg_i = addr;
    }

    /// JP V0,addr: jumps to `addr` offset by V0.
    fn op_jpv0_addr(&mut self, addr: u16)
        requires
            old(self).wf(),
            addr < 0x1000,
        ensures
            final(self).wf(),
            jpv0_post(*old(self), *final(self), addr),
    {
        self.reg_pc = (self.reg_v[0x0] as u16) + addr;
    }

    /// RND Vx,imm: draws a byte and masks it with the immediate.
    fn op_rndvx_imm(&mut self, x: u8, imm: u8)
        requires
            old(self).wf(),
            x < 16,
        ensures
            final(self).wf(),
            rnd_post(*old(self), *final(self), x, imm),
    {
        let ghost pre = *self;
        let rb = random_byte();
        self.reg_v.set(x as usize, rb & imm);
        proof {
            assert(rb < 0xFF && self.reg_v@ == pre.reg_v@.update(x as int, rb & imm));
        }
    }

    /// DRW Vx,Vy,n: draws the sprite at I, or reports a `MemoryError` when
    /// it reaches past the end of memory.
    fn op_drw(&mut self, x: u8, y: u8, nib: u8) -> (r: Result<CycleOutcome, Chip8Error>)
        requires
            old(self).wf(),
            x < 16,
            y < 16,
            nib <= 15,
        ensures
            final(self).wf(),
            drw_post(*old(self), *final(self), x, y, nib, r),
    {
        if self.reg_i as usize + nib as usize > RAM_SIZE {
            return Err(Chip8Error::MemoryError);
        }
        let vx = self.reg_v[x as usize];
        let vy = self.reg_v[y as usize];
        let addr = self.reg_i as usize;
        let collided = draw_sprite(&mut self.display, &self.ram, addr, vx, vy, nib);
        self.reg_v.set(0xF, if collided { 1 } else { 0 });
        Ok(CycleOutcome::Completed)
    }

    /// SKP Vx: skips when the key selected by Vx is pressed.
    fn op_skp(&mut self, x: u8)
        requires
            old(self).wf(),
            x < 16,
            old(self).reg_pc + 2 <= u16::MAX,
        ensures
            final(self).wf(),
            skip_post(
                *old(self),
                *final(self),
                old(self).keypad@[key_of(old(self).reg_v@[x as int])] != 0,
            ),
    {
        let key = (self.reg_v[x as usize] & 0x0F) as usize;
        proof {
            let v = old(self).reg_v@[x as int];
            assert((v & 0x0F) < 16) by (bit_vector);
        }
        if self.keypad[key] != 0 {
            self.reg_pc = self.reg_pc + 2;
        }
    }

    /// SKNP Vx: skips when the key selected by Vx is not pressed.
    fn op_sknp(&mut self, x: u8)
        requires
            old(self).wf(),
            x < 16,
            old(self).reg_pc + 2 <= u16::MAX,
        ensures
            final(self).wf(),
            skip_post(
                *old(self),
                *final(self),
                old(self).keypad@[key_of(old(self).reg_v@[x as int])] == 0,
            ),
    {
        let key = (self.reg_v[x as usize] & 0x0F) as usize;
        proof {
            let v = old(self).reg_v@[x as int];
            assert((v & 0x0F) < 16) by (bit_vector);
        }
        if self.keypad[key] == 0 {
            self.reg_pc = self.reg_pc + 2;
        }
    }

    /// LD Vx,DT: reads the delay timer into Vx.
    fn op_ldvx_dt(&mut self, x: u8)
        requires
            old(self).wf(),
            x < 16,
        ensures
            final(self).wf(),
            ld_dt_read_post(*old(self), *final(self), x),
    {
        let t = self.reg_dt;
        self.reg_v.set(x as usize, t);
    }

    /// LD Vx,K: completes with the lowest-numbered pressed key in Vx, or
    /// moves the program counter back onto the instruction and reports
    /// `Blocked`.
    fn op_ldvx_k(&mut self, x: u8) -> (r: Result<CycleOutcome, Chip8Error>)
        requires
            old(self).wf(),
            x < 16,
            old(self).reg_pc >= 2,
        ensures
            final(self).wf(),
            wait_key_post(*old(self), *final(self), x, r),
    {
        let ghost pre = *self;
        let mut k: usize = 0;
        while k < NUM_KEYS
            invariant
                pre == *old(self),
                pre.wf(),
                *self == pre,
                x < 16,
                k <= NUM_KEYS,
                forall|j: int| 0 <= j < k ==> pre.keypad@[j] == 0,
            decreases NUM_KEYS - k,
        {
            if self.keypad[k] != 0 {
                self.reg_v.set(x as usize, k as u8);
                proof {
                    assert((exists|j: int|
                        {
                            &&& 0 <= j < NUM_KEYS
                            &&& pre.keypad@[j] != 0
                            &&& (forall|j2: int| 0 <= j2 < j ==> pre.keypad@[j2] == 0)
                            &&& self.reg_v@ == pre.reg_v@.update(x as int, j as u8)
                        })) by {
                        assert({
                            &&& 0 <= k < NUM_KEYS
                            &&& pre.keypad@[k as int] != 0
                            &&& (forall|j2: int| 0 <= j2 < k ==> pre.keypad@[j2] == 0)
                            &&& self.reg_v@ == pre.reg_v@.update(x as int, k as u8)
                        });
                    }
                }
                return Ok(CycleOutcome::Completed);
            }
            k += 1;
        }
        self.reg_pc = self.reg_pc - 2;
        Ok(CycleOutcome::Blocked)
    }

    /// LD DT,Vx: writes the delay timer.
    fn op_lddt_vx(&mut self, x: u8)
        requires
            old(self).wf(),
            x < 16,
        ensures
            final(self).wf(),
            final(self).reg_dt == old(self).reg_v@[x as int],
            frame_dt(*old(self), *final(self)),
    {
        self.reg_dt = self.reg_v[x as usize];
    }

    /// LD ST,Vx: writes the sound timer.
    fn op_ldst_vx(&mut self, x: u8)
        requires
            old(self).wf(),
            x < 16,
        ensures
            final(self).wf(),
            final(self).reg_st == old(self).reg_v@[x as int],
            frame_st(*old(self), *final(self)),
    {
        self.reg_st = self.reg_v[x as usize];
    }

    /// ADD I,Vx: adds Vx into the address register with 16-bit wraparound.
    fn op_addi_vx(&mut self, x: u8)
        requires
            old(self).wf(),
            x < 16,
        ensures
            final(self).wf(),
            addi_post(*old(self), *final(self), x),
    {
        let v = self.reg_v[x as usize] as u16;
        self.reg_i = self.reg_i.wrapping_add(v);
    }

    /// LD F,Vx: points I at the font glyph of the low nibble of Vx.
    fn op_ldf_vx(&mut self, x: u8)
        requires
            old(self).wf(),
            x < 16,
        ensures
            final(self).wf(),
            ldf_post(*old(self), *final(self), x),
    {
        let vx = self.reg_v[x as usize];
        let masked = vx & 0x0F;
        proof {
            assert(vx & 0x0F < 16) by (bit_vector);
            assert((FONT_GLYPH_SIZE as u16) * (masked as u16) < 80) by (nonlinear_arith)
                requires
                    masked < 16,
            ;
        }
        self.reg_i = (FONT_START_ADDR as u16) + (FONT_GLYPH_SIZE as u16) * (masked as u16);
    }

    /// LD B,Vx: stores the three decimal digits of Vx at I, I+1, I+2, or
    /// reports a `MemoryError` when they would not fit in memory.
    fn op_ldb_vx(&mut self, x: u8) -> (r: Result<CycleOutcome, Chip8Error>)
        requires
            old(self).wf(),
            x < 16,
        ensures
            final(self).wf(),
            bcd_post(*old(self), *final(self), x, r),
    {
        if self.reg_i as usize + 2 >= RAM_SIZE {
            return Err(Chip8Error::MemoryError);
        }
        let v = self.reg_v[x as usize];
        let i = self.reg_i as usize;
        self.ram.set(i, v / 100);
        self.ram.set(i + 1, (v / 10) % 10);
        self.ram.set(i + 2, v % 10);
        Ok(CycleOutcome::Completed)
    }

    /// LD [I],Vx: stores registers V0 through Vx to memory at I, or reports
    /// a `MemoryError` when they would not fit in memory.
    fn op_ldi_vx(&mut self, x: u8) -> (r: Result<CycleOutcome, Chip8Error>)
        requires
            old(self).wf(),
            x < 16,
        ensures
            final(self).wf(),
            store_regs_post(*old(self), *final(self), x, r),
    {
        if self.reg_i as usize + x as usize >= RAM_SIZE {
            return Err(Chip8Error::MemoryError);
        }
        let ghost pre = *self;
        let base = self.reg_i as usize;
        let mut j: usize = 0;
        while j <= x as usize
            invariant
                pre.wf(),
                self.wf(),
                x < 16,
                base == pre.reg_i,
                base + x < RAM_SIZE,
                j <= x as usize + 1,
                forall|a: int|
                    0 <= a < RAM_SIZE ==> self.ram@[a] == (if base <= a < base + j {
                        pre.reg_v@[a - base]
                    } else {
                        pre.ram@[a]
                    }),
                frame_mem(pre, *self),
            decreases x as int + 1 - j,
        {
            let v = self.reg_v[j];
            self.ram.set(base + j, v);
            j += 1;
        }
        Ok(CycleOutcome::Completed)
    }

    /// LD Vx,[I]: loads registers V0 through Vx from memory at I, or
    /// reports a `MemoryError` when the range reaches past memory.
    fn op_ldvx_i(&mut self, x: u8) -> (r: Result<CycleOutcome, Chip8Error>)
        requires
            old(self).wf(),
            x < 16,
        ensures
            final(self).wf(),
            load_regs_post(*old(self), *final(self), x, r),
    {
        if self.reg_i as usize + x as usize >= RAM_SIZE {
            return Err(Chip8Error::MemoryError);
        }
        let ghost pre = *self;
        let base = self.reg_i as usize;
        let mut j: usize = 0;
        while j <= x as usize
            invariant
                pre.wf(),
                self.wf(),
                x < 16,
                base == pre.reg_i,
                base + x < RAM_SIZE,
                j <= x as usize + 1,
                forall|a: int|
                    0 <= a < NUM_REGS ==> self.reg_v@[a] == (if 0 <= a < j {
                        pre.ram@[base + a]
                    } else {
                        pre.reg_v@[a]
                    }),
                frame_regs(pre, *self),
            decreases x as int + 1 - j,
        {
            let v = self.ram[base + j];
            self.reg_v.set(j, v);
            j += 1;
        }
        Ok(CycleOutcome::Completed)
    }

    /// An opcode the machine does not execute: reports a `DecodeError`
    /// carrying it.
    fn op_unknown(&mut self, opcode: u16) -> (r: Result<CycleOutcome, Chip8Error>)
        requires
            old(self).wf(),
        ensures
            final(self).wf(),
            unknown_post(*old(self), *final(self), opcode, r),
    {
        Err(Chip8Error::DecodeError(opcode))
    }

    /// Fetches the big-endian word at the program counter and advances the
    /// program counter past it.
    fn fetch(&mut self) -> (opcode: u16)
        requires
            old(self).wf(),
            old(self).reg_pc as int + 1 < RAM_SIZE,
        ensures
            final(self).wf(),
            *final(self) == spec_advanced(*old(self)),
            opcode == spec_fetched(*old(self)),
    {
        let pc = self.reg_pc as usize;
        let high_byte = self.ram[pc] as u16;
        let low_byte = self.ram[pc + 1] as u16;
        let opcode = (high_byte << 8u16) | low_byte;
        self.reg_pc = self.reg_pc + 2;
        opcode
    }

    /// Decodes `opcode` and applies the matching handler.
    fn execute(&mut self, opcode: u16) -> (r: Result<CycleOutcome, Chip8Error>)
        requires
            old(self).wf(),
            2 <= old(self).reg_pc,
            old(self).reg_pc + 2 <= u16::MAX,
        ensures
            final(self).wf(),
            spec_exec(*old(self), opcode, *final(self), r),
    {
        proof {
            lemma_field_ranges(opcode);
        }
        let instr = decode(opcode);
        match instr {
            Instruction::CLS => {
                self.op_cls();
                Ok(CycleOutcome::Completed)
            },
            Instruction::RET => self.op_ret(),
            Instruction::SYS(addr) => {
                self.op_sys(addr);
                Ok(CycleOutcome::Completed)
            },
            Instruction::JP(addr) => {
                self.op_jp(addr);
                Ok(CycleOutcome::Completed)
            },
            Instruction::CALL(addr) => self.op_call(addr),
            Instruction::SEVxImm { x, imm } => {
                self.op_sevx_imm(x, imm);
                Ok(CycleOutcome::Completed)
            },
            Instruction::SNEVxImm { x, imm } => {
                self.op_snevx_imm(x, imm);
                Ok(CycleOutcome::Completed)
            },
            Instruction::SEVxVy { x, y } => {
                self.op_sevx_vy(x, y);
                Ok(CycleOutcome::Completed)
            },
            Instruction::SNEVxVy { x, y } => {
                self.op_snevx_vy(x, y);
                Ok(CycleOutcome::Completed)
            },
            Instruction::LDVxImm { x, imm } => {
                self.op_ldvx_imm(x, imm);
                Ok(CycleOutcome::Completed)
            },
            Instruction::ADDVxImm { x, imm } => {
                self.op_addvx_imm(x, imm);
                Ok(CycleOutcome::Completed)
            },
            Instruction::LDVxVy { x, y } => {
                self.op_ldvx_vy(x, y);
                Ok(CycleOutcome::Completed)
            },
            Instruction::ORVxVy { x, y } => {
                self.op_orvx_vy(x, y);
                Ok(CycleOutcome::Completed)
            },
            Instruction::ANDVxVy { x, y } => {
                self.op_andvx_vy(x, y);
                Ok(CycleOutcome::Completed)
            },
            Instruction::XORVxVy { x, y } => {
                self.op_xorvx_vy(x, y);
                Ok(CycleOutcome::Completed)
            },
            Instruction::ADDVxVy { x, y } => {
                self.op_addvx_vy(x, y);
                Ok(CycleOutcome::Completed)
            },
            Instruction::SUBVxVy { x, y } => {
                self.op_subvx_vy(x, y);
                Ok(CycleOutcome::Completed)
            },
            Instruction::SHRVxVy { x, y: _ } => {
                self.op_shrvx(x);
                Ok(CycleOutcome::Completed)
            },
            Instruction::SUBNVxVy { x, y } => {
                self.op_subnvx_vy(x, y);
                Ok(CycleOutcome::Completed)
            },
            Instruction::SHLVxVy { x, y: _ } => {
                self.op_shlvx(x);
                Ok(CycleOutcome::Completed)
            },
            Instruction::LDI(addr) => {
                self.op_ldi_addr(addr);
                Ok(CycleOutcome::Completed)
            },
            Instruction::JPV0(addr) => {
                self.op_jpv0_addr(addr);
                Ok(CycleOutcome::Completed)
            },
            Instruction::RNDVxImm { x, imm } => {
                self.op_rndvx_imm(x, imm);
                Ok(CycleOutcome::Completed)
            },
            Instruction::DRWVxVyn { x, y, n } => self.op_drw(x, y, n),
            Instruction::SKPVx(x) => {
                self.op_skp(x);
                Ok(CycleOutcome::Completed)
            },
            Instruction::SKNPVx(x) => {
                self.op_sknp(x);
                Ok(CycleOutcome::Completed)
            },
            Instruction::LDVxDT(x) => {
                self.op_ldvx_dt(x);
                Ok(CycleOutcome::Completed)
            },
            Instruction::LDVxK(x) => self.op_ldvx_k(x),
            Instruction::LDDTVx(x) => {
                self.op_lddt_vx(x);
                Ok(CycleOutcome::Completed)
            },
            Instruction::LDSTVx(x) => {
                self.op_ldst_vx(x);
                Ok(CycleOutcome::Completed)
            },
            Instruction::ADDIVx(x) => {
                self.op_addi_vx(x);
                Ok(CycleOutcome::Completed)
            },
            Instruction::LDFVx(x) => {
                self.op_ldf_vx(x);
                Ok(CycleOutcome::Completed)
            },
            Instruction::LDBVx(x) => self.op_ldb_vx(x),
            Instruction::LDIVx(x) => self.op_ldi_vx(x),
            Instruction::LDVxI(x) => self.op_ldvx_i(x),
            Instruction::DRWVxVy0 { x: _, y: _ } => self.op_unknown(opcode),
            Instruction::LDHFVx(_) => self.op_unknown(opcode),
            Instruction::LDRV(_) => self.op_unknown(opcode),
            Instruction::LDVxR(_) => self.op_unknown(opcode),
            Instruction::SCD(_) => self.op_unknown(opcode),
            Instruction::SCR => self.op_unknown(opcode),
            Instruction::SCL => self.op_unknown(opcode),
            Instruction::EXIT => self.op_unknown(opcode),
            Instruction::LOW => self.op_unknown(opcode),
            Instruction::HIGH => self.op_unknown(opcode),
            Instruction::Unknown(_) => self.op_unknown(opcode),
        }
    }

    /// One step of the fetch-decode-execute cycle. The full transition is
    /// pinned down by [`spec_cycle`].
    pub fn cycle(&mut self) -> (r: Result<CycleOutcome, Chip8Error>)
        requires
            old(self).wf(),
        ensures
            final(self).wf(),
            spec_cycle(*old(self), *final(self), r),
    {
        if self.reg_pc as usize + 1 >= RAM_SIZE {
            return Err(Chip8Error::MemoryError);
        }
        let opcode = self.fetch();
        self.execute(opcode)
    }
}

/// Executing `CALL addr` and then the `RET` at `addr` restores the program
/// counter to the instruction following the `CALL`, whatever the machine in
/// between: calling and returning round-trip.
pub proof fn lemma_call_ret_round_trip(
    m0: Chip8,
    m1: Chip8,
    m2: Chip8,
    r1: Result<CycleOutcome, Chip8Error>,
    r2: Result<CycleOutcome, Chip8Error>,
    addr: u16,
)
    requires
        m0.wf(),
        m0.reg_pc as int + 1 < RAM_SIZE,
        spec_decode(spec_fetched(m0)) == Instruction::CALL(addr),
        m0.reg_sp < STACK_SIZE,
        spec_cycle(m0, m1, r1),
        m1.reg_pc as int + 1 < RAM_SIZE,
        spec_decode(spec_fetched(m1)) == Instruction::RET,
        spec_cycle(m1, m2, r2),
    ensures
        r1 == Ok::<CycleOutcome, Chip8Error>(CycleOutcome::Completed),
        r2 == Ok::<CycleOutcome, Chip8Error>(CycleOutcome::Completed),
        m2.reg_pc == m0.reg_pc + 2,
        m2.reg_sp == m0.reg_sp,
{
}

/// `JP nnn` sets the program counter to exactly `nnn`, regardless of where
/// it stood, and applies no skip-advance afterwards.
pub proof fn lemma_jp_sets_pc(
    m0: Chip8,
    m1: Chip8,
    r: Result<CycleOutcome, Chip8Error>,
    addr: u16,
)
    requires
        m0.wf(),
        m0.reg_pc as int + 1 < RAM_SIZE,
        spec_decode(spec_fetched(m0)) == Instruction::JP(addr),
        spec_cycle(m0, m1, r),
    ensures
        r == Ok::<CycleOutcome, Chip8Error>(CycleOutcome::Completed),
        m1.reg_pc == addr,
        same_mem(m0, m1),
        same_regs(m0, m1),
        same_display(m0, m1),
{
}


/// A blocked cycle (the wait-for-key instruction with no key down) leaves
/// the machine exactly as it was: execution does not advance past the
/// instruction until a key press is observed.
pub proof fn lemma_blocked_cycle_changes_nothing(
    m0: Chip8,
    m1: Chip8,
    r: Result<CycleOutcome, Chip8Error>,
)
    requires
        m0.wf(),
        spec_cycle(m0, m1, r),
        r == Ok::<CycleOutcome, Chip8Error>(CycleOutcome::Blocked),
    ensures
        same_state(m0, m1),
{
}

} // verus!
