use chip8_core::Chip8;
use chip8_desktop::config::{SCREEN_CELLS, SCREEN_HEIGHT, SCREEN_WIDTH, TICKS_PER_FRAME};
use chip8_desktop::input::KeyEvent;
use chip8_desktop::keymap::{KEY_COUNT, KEY_W};
use chip8_desktop::interpreter::{
    BYTES_PER_CELL, FRAME_BYTES, MEMORY_SIZE, PROGRAM_SPACE, PROGRAM_START,
};
use chip8_desktop::machine::{
    bootstrap, count_down, display, key_event, pixels, tick_timers, TIMELESS_SPEED,
};
use chip8_desktop::render::{draw_screen, Rect};
use chip8_desktop::schedule::{frame_actions, FrameAction};
use std::collections::HashSet;

/// Sets I to the sprite, draws its one row at (V0, V0) = (0, 0), then jumps
/// to itself forever. The sprite is the single top-left pixel.
const ONE_PIXEL: [u8; 8] = [0xA2, 0x06, 0xD0, 0x01, 0x12, 0x04, 0x80, 0x00];

/// Sets the delay timer to ten, then jumps to itself forever.
const DELAY_TEN: [u8; 6] = [0x60, 0x0A, 0xF0, 0x15, 0x12, 0x04];

/// Waits until key 5 is down, then sets V1 to 0x2A and jumps to itself
/// forever.
const WAIT_FOR_FIVE: [u8; 10] = [0x60, 0x05, 0xE0, 0x9E, 0x12, 0x02, 0x61, 0x2A, 0x12, 0x08];

fn run_frame(core: &mut Chip8, pressed: &[u16], released: &[u16]) -> Vec<Rect> {
    let pressed: HashSet<u16> = pressed.iter().copied().collect();
    let released: HashSet<u16> = released.iter().copied().collect();
    let mut painted = Vec::new();
    for action in frame_actions(&pressed, &released) {
        match action {
            FrameAction::Key(event) => key_event(core, event),
            FrameAction::Step => core.step(),
            FrameAction::TickTimers => tick_timers(core),
            FrameAction::Render => painted = draw_screen(core),
        }
    }
    painted
}

#[test]
fn the_sizes_are_those_of_the_interpreter() {
    assert_eq!(SCREEN_WIDTH, chip8_core::FRAME_WIDTH);
    assert_eq!(SCREEN_HEIGHT, chip8_core::FRAME_HEIGHT);
    let core = Chip8::new(1);
    assert_eq!(core.frame_width() as usize, SCREEN_WIDTH);
    assert_eq!(core.frame_height() as usize, SCREEN_HEIGHT);
    assert_eq!(core.frame().buffer.len(), FRAME_BYTES);
    assert_eq!(FRAME_BYTES, SCREEN_CELLS * BYTES_PER_CELL);
    assert_eq!(PROGRAM_START + PROGRAM_SPACE, MEMORY_SIZE);
    assert_eq!(core.registers().pc as usize, PROGRAM_START);
}

#[test]
fn an_empty_program_boots() {
    let core = bootstrap(0, &[]);
    assert!(core.is_some());
    let core = core.unwrap();
    let cells = display(&core);
    assert_eq!(cells.len(), SCREEN_CELLS);
    assert!(cells.iter().all(|lit| !lit));
    assert_eq!(draw_screen(&core), vec![]);
}

#[test]
fn a_booted_machine_is_fresh() {
    let core = bootstrap(11, &DELAY_TEN).unwrap();
    let registers = core.registers();
    assert_eq!((registers.dt, registers.st), (0, 0));
    assert_eq!(registers.pc as usize, PROGRAM_START);
    assert_eq!(core.speed(), TIMELESS_SPEED);
    assert_eq!(core.frame().buffer, [0u8; FRAME_BYTES]);
}

#[test]
fn a_small_program_boots_dark() {
    let core = bootstrap(3, &ONE_PIXEL).unwrap();
    assert_eq!(display(&core), vec![false; SCREEN_CELLS]);
}

#[test]
fn the_largest_program_boots_and_a_larger_one_does_not() {
    assert_eq!(PROGRAM_SPACE, 3584);
    assert!(bootstrap(1, &vec![0u8; PROGRAM_SPACE]).is_some());
    assert!(bootstrap(1, &vec![0u8; PROGRAM_SPACE + 1]).is_none());
    assert!(bootstrap(1, &vec![0u8; MEMORY_SIZE]).is_none());
}

#[test]
fn the_program_is_what_the_machine_runs() {
    let mut core = bootstrap(9, &DELAY_TEN).unwrap();
    core.step();
    assert_eq!(core.registers().v[0], 0x0A);
    core.step();
    assert_eq!(core.registers().dt, 10);
    assert_eq!(core.registers().pc, 0x204);
}

#[test]
fn one_frame_lights_the_pixel_that_the_program_draws() {
    let mut core = bootstrap(7, &ONE_PIXEL).unwrap();
    let before = display(&core);
    let painted = run_frame(&mut core, &[], &[]);
    let after = display(&core);
    assert!(after[0]);
    assert_eq!(after.iter().filter(|lit| **lit).count(), 1);
    assert_eq!(after.len(), before.len());
    assert_eq!(after.len(), SCREEN_CELLS);
    assert_eq!(painted, vec![Rect { x: 0, y: 0, side: 30 }]);
    for _ in 0..5 {
        let painted = run_frame(&mut core, &[], &[]);
        assert_eq!(display(&core).len(), SCREEN_CELLS);
        assert_eq!(painted, vec![Rect { x: 0, y: 0, side: 30 }]);
    }
}

#[test]
fn a_frame_steps_the_machine_exactly_as_often_as_the_budget_says() {
    let mut core = bootstrap(7, &ONE_PIXEL).unwrap();
    let mut steps = 0;
    let no_keys: HashSet<u16> = HashSet::new();
    for action in frame_actions(&no_keys, &no_keys) {
        if action == FrameAction::Step {
            core.step();
            steps += 1;
        }
    }
    assert_eq!(steps, TICKS_PER_FRAME);
    assert_eq!(core.registers().pc, 0x204);
}

#[test]
fn a_tick_counts_both_timers_down_and_stops_at_zero() {
    let mut core = bootstrap(5, &DELAY_TEN).unwrap();
    let mut registers = core.registers();
    registers.dt = 3;
    registers.st = 1;
    registers.v[7] = 0x77;
    core.set_registers(registers);
    tick_timers(&mut core);
    assert_eq!((core.registers().dt, core.registers().st), (2, 0));
    tick_timers(&mut core);
    assert_eq!((core.registers().dt, core.registers().st), (1, 0));
    tick_timers(&mut core);
    tick_timers(&mut core);
    assert_eq!((core.registers().dt, core.registers().st), (0, 0));
    assert_eq!(core.registers().pc, 0x200);
    assert_eq!(core.registers().v[7], 0x77);
}

#[test]
fn a_timer_counts_down_to_zero_and_no_further() {
    assert_eq!(count_down(255), 254);
    assert_eq!(count_down(2), 1);
    assert_eq!(count_down(1), 0);
    assert_eq!(count_down(0), 0);
}

#[test]
fn stepping_leaves_the_timers_to_the_tick() {
    let mut core = bootstrap(5, &DELAY_TEN).unwrap();
    core.step();
    core.step();
    assert_eq!(core.registers().dt, 10);
    for _ in 0..500 {
        core.step();
    }
    assert_eq!(core.registers().dt, 10);
    tick_timers(&mut core);
    assert_eq!(core.registers().dt, 9);
}

#[test]
fn the_timers_fall_by_one_each_frame() {
    let mut core = bootstrap(5, &DELAY_TEN).unwrap();
    run_frame(&mut core, &[], &[]);
    assert_eq!(core.registers().dt, 9);
    for frame in 2..=10u8 {
        run_frame(&mut core, &[], &[]);
        assert_eq!(core.registers().dt, 10 - frame);
    }
    run_frame(&mut core, &[], &[]);
    assert_eq!(core.registers().dt, 0);
}

#[test]
fn a_key_event_reaches_the_program() {
    let mut core = bootstrap(2, &WAIT_FOR_FIVE).unwrap();
    for _ in 0..30 {
        core.step();
    }
    assert_eq!(core.registers().v[1], 0);
    key_event(&mut core, KeyEvent { key: 0x4, pressed: true });
    for _ in 0..30 {
        core.step();
    }
    assert_eq!(core.registers().v[1], 0);
    key_event(&mut core, KeyEvent { key: 0x5, pressed: true });
    for _ in 0..30 {
        core.step();
    }
    assert_eq!(core.registers().v[1], 0x2A);
}

#[test]
fn a_released_key_is_no_longer_down() {
    let mut core = bootstrap(2, &WAIT_FOR_FIVE).unwrap();
    key_event(&mut core, KeyEvent { key: 0x5, pressed: true });
    key_event(&mut core, KeyEvent { key: 0x5, pressed: false });
    for _ in 0..30 {
        core.step();
    }
    assert_eq!(core.registers().v[1], 0);
}

#[test]
fn a_host_key_held_in_a_frame_reaches_the_program() {
    let mut core = bootstrap(2, &WAIT_FOR_FIVE).unwrap();
    run_frame(&mut core, &[0x20], &[]);
    assert_eq!(core.registers().v[1], 0);
    run_frame(&mut core, &[KEY_W], &[]);
    assert_eq!(core.registers().v[1], 0x2A);
}

#[test]
fn every_keypad_key_can_be_told() {
    let mut core = bootstrap(2, &[]).unwrap();
    for key in 0..KEY_COUNT {
        key_event(&mut core, KeyEvent { key, pressed: true });
        key_event(&mut core, KeyEvent { key, pressed: false });
    }
    assert_eq!(display(&core).len(), SCREEN_CELLS);
}

#[test]
fn four_bytes_of_full_value_are_a_lit_cell() {
    let rgba = [255, 255, 255, 255, 0, 0, 0, 255, 0, 0, 0, 0, 255, 0, 0, 255, 255, 255, 255, 0];
    assert_eq!(pixels(&rgba), vec![true, false, false, false, false]);
}

#[test]
fn bytes_short_of_a_cell_stand_for_nothing() {
    assert_eq!(pixels(&[]), vec![]);
    assert_eq!(pixels(&[255, 255, 255]), vec![]);
    assert_eq!(pixels(&[255, 255, 255, 255, 255, 255]), vec![true]);
}
