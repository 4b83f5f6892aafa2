//! The machine under the driver's hand: how it is started, told of keys, has
//! its timers ticked and its display read.
//!
//! Left to itself, the interpreter counts its timers down as it is stepped,
//! by the time that its speed gives each instruction. The driver counts them
//! down once per displayed frame instead: it starts the machine at a speed
//! at which instructions take no time, and ticks the timers itself.
//!
//! The machine is to be stepped one instruction at a time, by whoever runs
//! the frames. It is not to be advanced by elapsed time: for that the
//! interpreter divides by the time of an instruction, which is then zero.

use crate::config::SCREEN_CELLS;
use crate::input::KeyEvent;
use crate::interpreter::{
    delay_timer, frame_bytes, frame_copy, keypad, memory, note_key, set_timers, sound_timer, speed,
    timers, with_key, BYTES_PER_CELL, MEMORY_SIZE, PROGRAM_SPACE, PROGRAM_START,
};
use crate::keymap::KEY_COUNT;
use chip8_core::Chip8;
use vstd::prelude::*;

verus! {

/// A speed, in instructions per second, at which an instruction lasts less
/// than a microsecond. The interpreter reckons in whole microseconds, so at
/// this speed stepping it never moves its timers.
pub const TIMELESS_SPEED: u32 = 0xFFFF_FFFF;

/// A timer one tick later: one less, and still zero where it was zero.
pub open spec fn ticked(timer: u8) -> u8 {
    if timer > 0 {
        (timer - 1) as u8
    } else {
        0
    }
}

/// Whether the cell whose four bytes start at `4 * cell` is lit: the
/// interpreter writes a lit cell as four bytes of `0xFF`.
pub open spec fn lit(rgba: Seq<u8>, cell: int) -> bool {
    &&& rgba[BYTES_PER_CELL * cell] == 0xFF
    &&& rgba[BYTES_PER_CELL * cell + 1] == 0xFF
    &&& rgba[BYTES_PER_CELL * cell + 2] == 0xFF
    &&& rgba[BYTES_PER_CELL * cell + 3] == 0xFF
}

/// The cells that the bytes of a frame stand for. Bytes beyond the last whole
/// cell stand for nothing.
pub open spec fn cells(rgba: Seq<u8>) -> Seq<bool> {
    Seq::new(rgba.len() / BYTES_PER_CELL as nat, |cell: int| lit(rgba, cell))
}

/// A fresh machine with its program loaded, ready to be stepped; `None` if
/// the program does not fit in memory.
///
/// A program of any size up to `PROGRAM_SPACE` is accepted, the empty one
/// too. The machine's memory then holds the program from `PROGRAM_START` on,
/// its display is dark, nothing is pending on its keypad and its timers are
/// at zero.
///
/// The machine is set to `TIMELESS_SPEED`, so that stepping it leaves its
/// timers to [`tick_timers`].
pub fn bootstrap(seed: u32, rom: &[u8]) -> (booted: Option<Chip8>)
    ensures
        booted is Some <==> rom@.len() <= PROGRAM_SPACE,
        rom@.len() == 0 ==> booted is Some,
        booted matches Some(core) ==> {
            &&& memory(core).len() == MEMORY_SIZE
            &&& memory(core).subrange(PROGRAM_START as int, PROGRAM_START + rom@.len()) == rom@
            &&& cells(frame_bytes(core)) == Seq::new(SCREEN_CELLS as nat, |cell: int| false)
            &&& keypad(core) == Seq::new(KEY_COUNT as nat, |k: int| None::<bool>)
            &&& delay_timer(core) == 0
            &&& sound_timer(core) == 0
            &&& speed(core) == TIMELESS_SPEED
        },
{
    if rom.len() <= PROGRAM_SPACE {
        let mut core = Chip8::new(seed);
        core.set_speed(TIMELESS_SPEED);
        core.load(rom);
        Some(core)
    } else {
        None
    }
}

/// Tells the machine that a key of its keypad went down or up. Nothing else
/// of the machine changes.
pub fn key_event(core: &mut Chip8, event: KeyEvent)
    requires
        event.key < KEY_COUNT,
    ensures
        keypad(*final(core)) == with_key(keypad(*old(core)), event.key as int, event.pressed),
        memory(*final(core)) == memory(*old(core)),
        frame_bytes(*final(core)) == frame_bytes(*old(core)),
        delay_timer(*final(core)) == delay_timer(*old(core)),
        sound_timer(*final(core)) == sound_timer(*old(core)),
        speed(*final(core)) == speed(*old(core)),
{
    note_key(core, event.key as u8, event.pressed);
}

/// A timer one tick later.
pub fn count_down(timer: u8) -> (next: u8)
    ensures
        next == ticked(timer),
{
    if timer > 0 {
        timer - 1
    } else {
        0
    }
}

/// Counts the machine's two timers down by one; a timer at zero stays at
/// zero. Nothing else of the machine changes.
pub fn tick_timers(core: &mut Chip8)
    ensures
        delay_timer(*final(core)) == ticked(delay_timer(*old(core))),
        sound_timer(*final(core)) == ticked(sound_timer(*old(core))),
        memory(*final(core)) == memory(*old(core)),
        frame_bytes(*final(core)) == frame_bytes(*old(core)),
        keypad(*final(core)) == keypad(*old(core)),
        speed(*final(core)) == speed(*old(core)),
{
    let (delay, sound): (u8, u8) = timers(core);
    set_timers(core, count_down(delay), count_down(sound));
}

/// The cells of a frame given as bytes, four to the cell.
pub fn pixels(rgba: &[u8]) -> (display: Vec<bool>)
    ensures
        display@ == cells(rgba@),
{
    let count: usize = rgba.len() / BYTES_PER_CELL;
    let mut display: Vec<bool> = Vec::new();
    let mut cell: usize = 0;
    while cell < count
        invariant
            rgba@.len() <= usize::MAX,
            count == rgba@.len() / BYTES_PER_CELL as nat,
            0 <= cell <= count,
            display@ == Seq::new(cell as nat, |c: int| lit(rgba@, c)),
        decreases count - cell,
    {
        let at: usize = BYTES_PER_CELL * cell;
        let red: bool = rgba[at] == 0xFF;
        let green: bool = rgba[at + 1] == 0xFF;
        let blue: bool = rgba[at + 2] == 0xFF;
        let alpha: bool = rgba[at + 3] == 0xFF;
        display.push(red && green && blue && alpha);
        cell += 1;
    }
    display
}

/// The machine's display: its `SCREEN_CELLS` cells in row-major order, each
/// lit or dark. The length is the same whatever the machine has done.
pub fn display(core: &Chip8) -> (shown: Vec<bool>)
    ensures
        shown@ == cells(frame_bytes(*core)),
        shown@.len() == SCREEN_CELLS,
{
    let rgba = frame_copy(core);
    pixels(rgba.as_slice())
}

} // verus!
