use chip8::emulator::{match_key, Emulator, Event, Key, Progress, DEFAULT_TICKS_PER_FRAME};
use chip8::fault::Chip8Error;

fn started(program: &[u8]) -> Emulator {
    let mut emulator = Emulator::new();
    assert_eq!(emulator.start(program), Ok(()));
    emulator
}

/// A program that counts in V0 for ever: `7001`, `1200`.
const COUNTER: [u8; 4] = [0x70, 0x01, 0x12, 0x00];

#[test]
fn keys_map_to_the_hexadecimal_block() {
    let layout = [
        (Key::Num1, 0x1), (Key::Num2, 0x2), (Key::Num3, 0x3), (Key::Num4, 0xC),
        (Key::Q, 0x4), (Key::W, 0x5), (Key::E, 0x6), (Key::R, 0xD),
        (Key::A, 0x7), (Key::S, 0x8), (Key::D, 0x9), (Key::F, 0xE),
        (Key::Z, 0xA), (Key::X, 0x0), (Key::C, 0xB), (Key::V, 0xF),
    ];
    let mut seen = [false; 16];
    for (key, digit) in layout {
        assert_eq!(match_key(key), Some(digit));
        assert!(!seen[digit]);
        seen[digit] = true;
    }
    assert!(seen.iter().all(|&hit| hit));
    for key in [Key::Up, Key::Down, Key::Left, Key::Space, Key::Escape, Key::Other] {
        assert_eq!(match_key(key), None);
    }
}

#[test]
fn new_session_runs_at_nine_instructions_per_frame() {
    let emulator = Emulator::new();
    assert_eq!(DEFAULT_TICKS_PER_FRAME, 9);
    assert_eq!(emulator.ticks_per_frame(), 9);
    assert!(!emulator.is_paused());
    assert_eq!(emulator.chip8().program_counter(), 0x200);
}

#[test]
fn start_loads_the_program() {
    let emulator = started(&COUNTER);
    assert_eq!(emulator.chip8().memory_at(0x200), 0x70);
    assert_eq!(emulator.chip8().memory_at(0x203), 0x00);
}

#[test]
fn start_refuses_a_program_that_does_not_fit() {
    let mut emulator = Emulator::new();
    let image = vec![0u8; 3585];
    assert_eq!(emulator.start(&image), Err(Chip8Error::RomLoadFailure));
    // Nothing was captured: a rewind finds no snapshot and changes nothing.
    assert!(!emulator.handle_event(Event::KeyDown(Key::Left)));
    assert_eq!(emulator.chip8().program_counter(), 0x200);
}

#[test]
fn quit_and_escape_end_the_session() {
    let mut emulator = started(&COUNTER);
    assert!(emulator.handle_event(Event::Quit));
    assert!(emulator.handle_event(Event::KeyDown(Key::Escape)));
    assert!(!emulator.handle_event(Event::KeyUp(Key::Escape)));
    assert!(!emulator.handle_event(Event::KeyDown(Key::Other)));
    assert!(!emulator.handle_event(Event::KeyDown(Key::Q)));
}

#[test]
fn block_keys_move_the_machine_keys() {
    let mut emulator = started(&COUNTER);
    emulator.handle_event(Event::KeyDown(Key::Num4));
    emulator.handle_event(Event::KeyDown(Key::X));
    assert!(emulator.chip8().key(0xC));
    assert!(emulator.chip8().key(0x0));
    assert!(!emulator.chip8().key(0x4));
    emulator.handle_event(Event::KeyUp(Key::Num4));
    assert!(!emulator.chip8().key(0xC));
    assert!(emulator.chip8().key(0x0));
}

#[test]
fn paused_session_ignores_block_keys_and_does_not_run() {
    let mut emulator = started(&COUNTER);
    emulator.handle_event(Event::KeyDown(Key::Space));
    assert!(emulator.is_paused());
    emulator.handle_event(Event::KeyDown(Key::Q));
    assert!(!emulator.chip8().key(0x4));
    for _ in 0..20 {
        assert_eq!(emulator.advance(), Ok(Progress::Paused));
    }
    assert_eq!(emulator.chip8().register(0), 0);
    assert_eq!(emulator.chip8().program_counter(), 0x200);
    emulator.handle_event(Event::KeyDown(Key::Space));
    assert!(!emulator.is_paused());
    assert_eq!(emulator.advance(), Ok(Progress::Stepped));
    assert_eq!(emulator.chip8().register(0), 1);
}

#[test]
fn key_held_through_a_pause_stays_down() {
    let mut emulator = started(&COUNTER);
    emulator.handle_event(Event::KeyDown(Key::Q));
    emulator.handle_event(Event::KeyDown(Key::Space));
    emulator.handle_event(Event::KeyUp(Key::Q));
    assert!(emulator.chip8().key(0x4));
}

#[test]
fn up_and_down_change_the_instructions_per_frame() {
    let mut emulator = started(&COUNTER);
    emulator.handle_event(Event::KeyDown(Key::Up));
    assert_eq!(emulator.ticks_per_frame(), 10);
    for _ in 0..20 {
        emulator.handle_event(Event::KeyDown(Key::Down));
    }
    assert_eq!(emulator.ticks_per_frame(), 1);
    emulator.handle_event(Event::KeyUp(Key::Up));
    assert_eq!(emulator.ticks_per_frame(), 1);
    emulator.handle_event(Event::KeyDown(Key::Up));
    assert_eq!(emulator.ticks_per_frame(), 2);
}

#[test]
fn every_ninth_instruction_completes_a_frame() {
    let mut emulator = started(&COUNTER);
    for frame in 0..3 {
        for _ in 0..8 {
            assert_eq!(emulator.advance(), Ok(Progress::Stepped));
        }
        assert_eq!(
            emulator.advance(),
            Ok(Progress::Frame { redraw: false, tone_stops: false }),
            "frame {}",
            frame
        );
    }
}

#[test]
fn one_instruction_per_frame() {
    let mut emulator = started(&COUNTER);
    for _ in 0..8 {
        emulator.handle_event(Event::KeyDown(Key::Down));
    }
    for _ in 0..5 {
        assert_eq!(emulator.advance(), Ok(Progress::Frame { redraw: false, tone_stops: false }));
    }
}

#[test]
fn lowering_the_rate_below_the_count_completes_the_frame() {
    let mut emulator = started(&COUNTER);
    for _ in 0..5 {
        assert_eq!(emulator.advance(), Ok(Progress::Stepped));
    }
    for _ in 0..6 {
        emulator.handle_event(Event::KeyDown(Key::Down));
    }
    assert_eq!(emulator.ticks_per_frame(), 3);
    assert_eq!(emulator.advance(), Ok(Progress::Frame { redraw: false, tone_stops: false }));
    assert_eq!(emulator.advance(), Ok(Progress::Stepped));
    assert_eq!(emulator.advance(), Ok(Progress::Stepped));
    assert_eq!(emulator.advance(), Ok(Progress::Frame { redraw: false, tone_stops: false }));
}

#[test]
fn frame_ticks_the_timers_and_reports_the_tone_stopping() {
    // V1 = 2; delay = V1; sound = V1; then count for ever at 0x206.
    let mut emulator = started(&[0x61, 0x02, 0xF1, 0x15, 0xF1, 0x18, 0x70, 0x01, 0x12, 0x06]);
    for _ in 0..8 {
        assert_eq!(emulator.advance(), Ok(Progress::Stepped));
    }
    assert_eq!(emulator.chip8().sound_timer(), 2);
    assert_eq!(emulator.advance(), Ok(Progress::Frame { redraw: false, tone_stops: false }));
    assert_eq!(emulator.chip8().delay_timer(), 1);
    assert_eq!(emulator.chip8().sound_timer(), 1);
    for _ in 0..8 {
        assert_eq!(emulator.advance(), Ok(Progress::Stepped));
    }
    assert_eq!(emulator.advance(), Ok(Progress::Frame { redraw: false, tone_stops: true }));
    assert_eq!(emulator.chip8().delay_timer(), 0);
    assert_eq!(emulator.chip8().sound_timer(), 0);
    for _ in 0..8 {
        assert_eq!(emulator.advance(), Ok(Progress::Stepped));
    }
    assert_eq!(emulator.advance(), Ok(Progress::Frame { redraw: false, tone_stops: false }));
}

#[test]
fn frame_hands_a_changed_display_over_once() {
    // Draw glyph 0 once, then loop.
    let mut emulator = started(&[0xA0, 0x50, 0xD0, 0x05, 0x12, 0x04]);
    for _ in 0..8 {
        assert_eq!(emulator.advance(), Ok(Progress::Stepped));
    }
    assert!(emulator.chip8().vram_change());
    assert_eq!(emulator.advance(), Ok(Progress::Frame { redraw: true, tone_stops: false }));
    assert!(!emulator.chip8().vram_change());
    assert!(emulator.chip8().pixel(0, 0));
    for _ in 0..8 {
        assert_eq!(emulator.advance(), Ok(Progress::Stepped));
    }
    assert_eq!(emulator.advance(), Ok(Progress::Frame { redraw: false, tone_stops: false }));
    assert!(emulator.chip8().pixel(0, 0));
}

#[test]
fn fault_ends_the_turn() {
    let mut emulator = started(&[0x70, 0x01, 0xFF, 0xFF, 0x70, 0x01, 0x12, 0x04]);
    assert_eq!(emulator.advance(), Ok(Progress::Stepped));
    assert_eq!(emulator.advance(), Err(Chip8Error::UnknownOpcode));
    assert_eq!(emulator.chip8().program_counter(), 0x204);
    assert_eq!(emulator.chip8().register(0), 1);
    // The faulting turn does not count towards the frame.
    for _ in 0..7 {
        assert_eq!(emulator.advance_with(0), Ok(Progress::Stepped));
    }
    assert_eq!(emulator.advance_with(0), Ok(Progress::Frame { redraw: false, tone_stops: false }));
}

#[test]
fn advance_with_hands_the_random_byte_to_the_machine() {
    let mut emulator = started(&[0xC1, 0xF0]);
    assert_eq!(emulator.advance_with(0xAB), Ok(Progress::Stepped));
    assert_eq!(emulator.chip8().register(1), 0xA0);
}

#[test]
fn left_restores_the_snapshot_taken_at_the_start() {
    let mut emulator = started(&COUNTER);
    emulator.handle_event(Event::KeyDown(Key::Q));
    for _ in 0..100 {
        assert!(emulator.advance().is_ok());
    }
    assert_eq!(emulator.chip8().register(0), 50);
    assert!(!emulator.handle_event(Event::KeyDown(Key::Left)));
    assert_eq!(emulator.chip8().register(0), 0);
    assert_eq!(emulator.chip8().program_counter(), 0x200);
    // The restored machine has every key up, and the only snapshot stays.
    assert!(!emulator.chip8().key(0x4));
    assert!(emulator.advance().is_ok());
    assert_eq!(emulator.chip8().register(0), 1);
    emulator.handle_event(Event::KeyDown(Key::Left));
    assert_eq!(emulator.chip8().register(0), 0);
}

#[test]
fn left_works_while_paused() {
    let mut emulator = started(&COUNTER);
    for _ in 0..10 {
        assert!(emulator.advance().is_ok());
    }
    emulator.handle_event(Event::KeyDown(Key::Space));
    emulator.handle_event(Event::KeyDown(Key::Left));
    assert!(emulator.is_paused());
    assert_eq!(emulator.chip8().register(0), 0);
}

#[test]
fn snapshots_are_taken_every_251_turns() {
    let mut emulator = started(&COUNTER);
    // Turns 1 to 251 run without a snapshot; turn 252 starts with one, of
    // the machine after 251 instructions: V0 was incremented 126 times.
    for _ in 0..252 {
        assert!(emulator.advance().is_ok());
    }
    emulator.handle_event(Event::KeyDown(Key::Left));
    assert_eq!(emulator.chip8().register(0), 126);
    assert_eq!(emulator.chip8().program_counter(), 0x202);
    emulator.handle_event(Event::KeyDown(Key::Left));
    assert_eq!(emulator.chip8().register(0), 0);
    assert_eq!(emulator.chip8().program_counter(), 0x200);
}

#[test]
fn no_snapshot_before_the_interval_has_passed() {
    let mut emulator = started(&COUNTER);
    for _ in 0..251 {
        assert!(emulator.advance().is_ok());
    }
    emulator.handle_event(Event::KeyDown(Key::Left));
    assert_eq!(emulator.chip8().register(0), 0);
}

#[test]
fn left_restarts_the_count_to_the_next_snapshot() {
    let mut emulator = started(&COUNTER);
    for _ in 0..200 {
        assert!(emulator.advance().is_ok());
    }
    emulator.handle_event(Event::KeyDown(Key::Left));
    // 251 turns after the rewind no snapshot is due yet.
    for _ in 0..251 {
        assert!(emulator.advance().is_ok());
    }
    emulator.handle_event(Event::KeyDown(Key::Left));
    assert_eq!(emulator.chip8().register(0), 0);
}

#[test]
fn lit_pixels_are_green_on_black() {
    assert_eq!(chip8::display::color(true), (0, 250, 0));
    assert_eq!(chip8::display::color(false), (0, 0, 0));
}
