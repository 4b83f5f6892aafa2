//! The interpreter, `chip8_core::Chip8`, as the driver knows it.
//!
//! The driver does not look inside the interpreter. It speaks of what the
//! machine holds: its memory, its frame of four bytes (red, green, blue,
//! alpha) for each cell of the display, its keypad, its two timers, and the
//! speed it is set to. This module says what each operation that the driver
//! uses does to them.
//!
//! None of this is proved: it is what the interpreter's source shows, written
//! down and taken on trust. Everything else in the crate is proved from it.
//!
//! One operation has no place here: the step. What a step does is the
//! program's business, and on a program that it cannot run the interpreter
//! panics.

use crate::config::SCREEN_CELLS;
use crate::keymap::KEY_COUNT;
use chip8_core::{Chip8, Key, KeyState};
use vstd::prelude::*;

verus! {

/// Size of the interpreter's memory, in bytes.
pub const MEMORY_SIZE: usize = 4096;

/// Address at which a program is loaded and from which it runs.
pub const PROGRAM_START: usize = 0x200;

/// Size of the largest program that fits in memory.
pub const PROGRAM_SPACE: usize = MEMORY_SIZE - PROGRAM_START;

/// Bytes that the frame holds for each cell of the display.
pub const BYTES_PER_CELL: usize = 4;

/// Size of the interpreter's frame, in bytes.
pub const FRAME_BYTES: usize = SCREEN_CELLS * BYTES_PER_CELL;

/// `chip8_core::Chip8`, taken as it is: nothing of its fields is known here.
#[verifier::external_type_specification]
#[verifier::external_body]
pub struct ExChip8(Chip8);

/// The bytes of the machine's memory, by address.
pub uninterp spec fn memory(core: Chip8) -> Seq<u8>;

/// The bytes of the machine's frame: cell by cell in row-major order, four
/// bytes to the cell.
pub uninterp spec fn frame_bytes(core: Chip8) -> Seq<u8>;

/// What the machine holds for each key of its keypad: `Some(true)` for a key
/// that is down, `Some(false)` for one that has just gone up, `None` for
/// one of which nothing is pending.
pub uninterp spec fn keypad(core: Chip8) -> Seq<Option<bool>>;

/// The machine's delay timer.
pub uninterp spec fn delay_timer(core: Chip8) -> u8;

/// The machine's sound timer.
pub uninterp spec fn sound_timer(core: Chip8) -> u8;

/// The speed that the machine is set to, in instructions per second.
pub uninterp spec fn speed(core: Chip8) -> u32;

/// Memory `before` with `program` written over it from `PROGRAM_START` on.
pub open spec fn with_program(before: Seq<u8>, program: Seq<u8>) -> Seq<u8> {
    Seq::new(
        before.len(),
        |a: int|
            if PROGRAM_START <= a < PROGRAM_START + program.len() {
                program[a - PROGRAM_START]
            } else {
                before[a]
            },
    )
}

/// Keypad `before` with key `key` noted as down or as gone up.
pub open spec fn with_key(before: Seq<Option<bool>>, key: int, pressed: bool) -> Seq<
    Option<bool>,
> {
    Seq::new(
        KEY_COUNT as nat,
        |k: int|
            if k == key {
                Some(pressed)
            } else {
                before[k]
            },
    )
}

/// `Chip8::new` makes a machine from a seed for its random numbers.
///
/// Taken on trust: the new machine has a memory of `MEMORY_SIZE` bytes and
/// a frame of `FRAME_BYTES` bytes that are all zero, nothing is pending for
/// any key of its keypad, and both timers are at zero.
pub assume_specification[ Chip8::new ](seed: u32) -> (core: Chip8)
    ensures
        memory(core).len() == MEMORY_SIZE,
        frame_bytes(core) == Seq::new(FRAME_BYTES as nat, |i: int| 0u8),
        keypad(core) == Seq::new(KEY_COUNT as nat, |k: int| None::<bool>),
        delay_timer(core) == 0,
        sound_timer(core) == 0,
;

/// `Chip8::set_speed` sets the speed of the machine, in instructions per
/// second.
///
/// Taken on trust: the speed becomes the one given; memory, frame, keypad and
/// timers stay as they were. The speed is a divisor, and a speed of zero
/// panics: it is not to be handed over.
pub assume_specification[ Chip8::set_speed ](core: &mut Chip8, instructions_per_second: u32)
    requires
        instructions_per_second > 0,
    ensures
        speed(*final(core)) == instructions_per_second,
        memory(*final(core)) == memory(*old(core)),
        frame_bytes(*final(core)) == frame_bytes(*old(core)),
        keypad(*final(core)) == keypad(*old(core)),
        delay_timer(*final(core)) == delay_timer(*old(core)),
        sound_timer(*final(core)) == sound_timer(*old(core)),
;

/// `Chip8::load` copies a program into memory.
///
/// Taken on trust: the bytes are copied to `PROGRAM_START` and the addresses
/// that follow it; the rest of memory, the frame, the keypad, the timers and
/// the speed stay as they were. A program of more than `PROGRAM_SPACE` bytes
/// would run past the end of memory, where the copy panics: such a program is
/// not to be handed over.
pub assume_specification[ Chip8::load ](core: &mut Chip8, bytes: &[u8])
    requires
        bytes@.len() <= PROGRAM_SPACE,
    ensures
        memory(*final(core)) == with_program(memory(*old(core)), bytes@),
        speed(*final(core)) == speed(*old(core)),
        frame_bytes(*final(core)) == frame_bytes(*old(core)),
        keypad(*final(core)) == keypad(*old(core)),
        delay_timer(*final(core)) == delay_timer(*old(core)),
        sound_timer(*final(core)) == sound_timer(*old(core)),
;

/// `Chip8::frame` hands out a copy of the frame, here as a vector of its
/// bytes.
///
/// Taken on trust: the copy holds the `FRAME_BYTES` bytes of the frame.
#[verifier::external_body]
pub(crate) fn frame_copy(core: &Chip8) -> (rgba: Vec<u8>)
    ensures
        rgba@ == frame_bytes(*core),
        rgba@.len() == FRAME_BYTES,
{
    core.frame().buffer.to_vec()
}

/// `Chip8::handle_key_event` notes the new state of one key of the keypad.
///
/// Taken on trust: the key's entry of the keypad becomes the state given; the
/// other entries, memory, frame, timers and speed stay as they were. There
/// are `KEY_COUNT` keys; to name another one panics.
#[verifier::external_body]
pub(crate) fn note_key(core: &mut Chip8, key: u8, pressed: bool)
    requires
        key < KEY_COUNT,
    ensures
        keypad(*final(core)) == with_key(keypad(*old(core)), key as int, pressed),
        memory(*final(core)) == memory(*old(core)),
        frame_bytes(*final(core)) == frame_bytes(*old(core)),
        delay_timer(*final(core)) == delay_timer(*old(core)),
        sound_timer(*final(core)) == sound_timer(*old(core)),
        speed(*final(core)) == speed(*old(core)),
{
    let state = if pressed {
        KeyState::Pressed
    } else {
        KeyState::Released
    };
    core.handle_key_event(Key::from(key), state);
}

/// `Chip8::registers` hands out a copy of the registers, the two timers
/// among them; here the timers alone, the delay timer first.
///
/// Taken on trust: they are the machine's timers.
#[verifier::external_body]
pub(crate) fn timers(core: &Chip8) -> (timers: (u8, u8))
    ensures
        timers.0 == delay_timer(*core),
        timers.1 == sound_timer(*core),
{
    let registers = core.registers();
    (registers.dt, registers.st)
}

/// `Chip8::set_registers` replaces the registers; here by a copy of
/// themselves in which the two timers are `delay` and `sound`.
///
/// Taken on trust: the timers are as given; memory, frame, keypad and speed
/// stay as they were.
#[verifier::external_body]
pub(crate) fn set_timers(core: &mut Chip8, delay: u8, sound: u8)
    ensures
        delay_timer(*final(core)) == delay,
        sound_timer(*final(core)) == sound,
        memory(*final(core)) == memory(*old(core)),
        frame_bytes(*final(core)) == frame_bytes(*old(core)),
        keypad(*final(core)) == keypad(*old(core)),
        speed(*final(core)) == speed(*old(core)),
{
    let mut registers = core.registers();
    registers.dt = delay;
    registers.st = sound;
    core.set_registers(registers);
}

} // verus!
