use chip8::chip8::Chip8;
use chip8::rewind::{Rewind, DEFAULT_CAPACITY};

/// A machine that is told apart from others by its register 0.
fn marked(mark: u8) -> Chip8 {
    let mut chip = Chip8::new();
    assert_eq!(chip.load_rom(&[0x60, mark]), Ok(()));
    assert_eq!(chip.cycle(), Ok(()));
    chip
}

#[test]
fn new_history_is_empty() {
    let history = Rewind::new();
    assert_eq!(history.len(), 0);
    assert_eq!(DEFAULT_CAPACITY, 5);
}

#[test]
fn restores_come_back_newest_first_and_the_last_one_stays() {
    let mut history = Rewind::new();
    history.capture(&marked(1));
    history.capture(&marked(2));
    history.capture(&marked(3));
    assert_eq!(history.len(), 3);
    assert_eq!(history.step_back().register(0), 3);
    assert_eq!(history.step_back().register(0), 2);
    assert_eq!(history.len(), 1);
    assert_eq!(history.step_back().register(0), 1);
    assert_eq!(history.len(), 1);
    assert_eq!(history.step_back().register(0), 1);
    assert_eq!(history.len(), 1);
}

#[test]
fn single_capture_can_be_restored_repeatedly() {
    let mut history = Rewind::new();
    history.capture(&marked(9));
    for _ in 0..10 {
        let chip = history.step_back();
        assert_eq!(chip.register(0), 9);
        assert_eq!(chip.program_counter(), 0x202);
        assert_eq!(history.len(), 1);
    }
}

#[test]
fn full_history_drops_the_oldest_snapshot() {
    let mut history = Rewind::new();
    for mark in 1..=7 {
        history.capture(&marked(mark));
        assert_eq!(history.len(), (mark as usize).min(5));
    }
    for mark in [7, 6, 5, 4, 3, 3] {
        assert_eq!(history.step_back().register(0), mark);
    }
    assert_eq!(history.len(), 1);
}

#[test]
fn capacity_bounds_the_history() {
    let mut history = Rewind::with_capacity(3);
    for mark in 1..=4 {
        history.capture(&marked(mark));
    }
    assert_eq!(history.len(), 3);
    for mark in [4, 3, 2, 2] {
        assert_eq!(history.step_back().register(0), mark);
    }
}

#[test]
fn capacity_one_keeps_the_newest_snapshot() {
    let mut history = Rewind::with_capacity(1);
    history.capture(&marked(1));
    history.capture(&marked(2));
    assert_eq!(history.len(), 1);
    assert_eq!(history.step_back().register(0), 2);
    assert_eq!(history.step_back().register(0), 2);
}

#[test]
fn snapshot_has_every_key_up() {
    let mut chip = marked(4);
    chip.set_key(3, true);
    chip.set_key(0xF, true);
    let mut history = Rewind::new();
    history.capture(&chip);
    // The live machine keeps its keys.
    assert!(chip.key(3) && chip.key(0xF));
    let restored = history.step_back();
    for key in 0..16 {
        assert!(!restored.key(key));
    }
    assert_eq!(restored.register(0), 4);
}

#[test]
fn snapshot_is_a_full_copy() {
    // Draw glyph 0, set the timers and call once, then capture.
    let mut chip = Chip8::new();
    let program = [0x61, 0x1E, 0xF1, 0x15, 0xF1, 0x18, 0xA0, 0x50, 0xD0, 0x05, 0x22, 0x0C, 0x61, 0x00, 0x00, 0xE0];
    assert_eq!(chip.load_rom(&program), Ok(()));
    for _ in 0..6 {
        assert_eq!(chip.cycle(), Ok(()));
    }
    let mut history = Rewind::new();
    history.capture(&chip);
    // The live machine moves on.
    for _ in 0..2 {
        assert_eq!(chip.cycle(), Ok(()));
    }
    chip.timer_tick();
    assert_eq!(chip.register(1), 0);
    assert!(!chip.pixel(0, 0));

    let restored = history.step_back();
    assert_eq!(restored.register(1), 0x1E);
    assert_eq!(restored.delay_timer(), 0x1E);
    assert_eq!(restored.sound_timer(), 0x1E);
    assert_eq!(restored.index(), 0x50);
    assert_eq!(restored.program_counter(), 0x20C);
    assert_eq!(restored.stack_depth(), 1);
    assert!(restored.vram_change());
    assert!(restored.pixel(0, 0));
    assert!(!restored.pixel(1, 1));
    for address in 0..program.len() {
        assert_eq!(restored.memory_at(0x200 + address), program[address]);
    }
}

#[test]
fn snapshot_does_not_follow_the_live_machine() {
    let mut chip = marked(1);
    let mut history = Rewind::new();
    history.capture(&chip);
    chip.set_key(1, true);
    assert_eq!(chip.load_rom(&[0x60, 0x02, 0x60, 0x63]), Ok(()));
    assert_eq!(chip.cycle(), Ok(()));
    assert_eq!(chip.register(0), 0x63);
    let restored = history.step_back();
    assert_eq!(restored.register(0), 1);
    assert_eq!(restored.memory_at(0x201), 1);
}

#[test]
fn restored_machine_runs_on() {
    let mut chip = Chip8::new();
    assert_eq!(chip.load_rom(&[0x70, 0x01, 0x12, 0x00]), Ok(()));
    let mut history = Rewind::new();
    for _ in 0..4 {
        assert_eq!(chip.cycle(), Ok(()));
    }
    history.capture(&chip);
    for _ in 0..10 {
        assert_eq!(chip.cycle(), Ok(()));
    }
    assert_eq!(chip.register(0), 7);
    let mut chip = history.step_back();
    assert_eq!(chip.register(0), 2);
    for _ in 0..2 {
        assert_eq!(chip.cycle(), Ok(()));
    }
    assert_eq!(chip.register(0), 3);
}
