//! The decisions of the driver loop: what an input event and what one turn
//! of the loop do to the machine, its history and the pacing counters.
//! Polling the events, drawing and sleeping are left to the caller.

use vstd::prelude::*;
use crate::chip8::Chip8;
use crate::fault::Chip8Error;
use crate::machine::Machine;
use crate::rewind::{Rewind, captured, restored};

verus! {

/// Instructions per frame when the emulator starts.
pub const DEFAULT_TICKS_PER_FRAME: u32 = 9;

/// Number of turns between two snapshots.
pub const CAPTURE_INTERVAL: u32 = 250;

/// A key of the host keyboard, as far as the emulator tells keys apart.
#[derive(Clone, Copy, Debug, PartialEq, Eq, Structural)]
pub enum Key {
    Num1,
    Num2,
    Num3,
    Num4,
    Q,
    W,
    E,
    R,
    A,
    S,
    D,
    F,
    Z,
    X,
    C,
    V,
    /// Raises the number of instructions per frame.
    Up,
    /// Lowers the number of instructions per frame.
    Down,
    /// Restores the newest snapshot.
    Left,
    /// Pauses and resumes.
    Space,
    /// Quits.
    Escape,
    /// Any other key.
    Other,
}

/// An input event.
#[derive(Clone, Copy, Debug, PartialEq, Eq, Structural)]
pub enum Event {
    /// The window was closed.
    Quit,
    /// A key went down.
    KeyDown(Key),
    /// A key came up.
    KeyUp(Key),
}

/// What one turn of the loop did.
#[derive(Clone, Copy, Debug, PartialEq, Eq, Structural)]
pub enum Progress {
    /// Nothing: the emulator is paused.
    Paused,
    /// One instruction was executed.
    Stepped,
    /// One instruction was executed and it completed a frame: the timers
    /// ticked. `redraw` says that the display changed since the last
    /// frame and is to be drawn, `tone_stops` that the sound timer just
    /// ran out.
    Frame { redraw: bool, tone_stops: bool },
}

/// The hexadecimal digit that a key of the 4 by 4 block `1234`, `QWER`,
/// `ASDF`, `ZXCV` stands for:
///
/// ```text
/// 1 2 3 4      1 2 3 C
/// Q W E R  ->  4 5 6 D
/// A S D F      7 8 9 E
/// Z X C V      A 0 B F
/// ```
pub open spec fn key_digit(key: Key) -> Option<usize> {
    match key {
        Key::Num1 => Some(0x1usize),
        Key::Num2 => Some(0x2usize),
        Key::Num3 => Some(0x3usize),
        Key::Num4 => Some(0xCusize),
        Key::Q => Some(0x4usize),
        Key::W => Some(0x5usize),
        Key::E => Some(0x6usize),
        Key::R => Some(0xDusize),
        Key::A => Some(0x7usize),
        Key::S => Some(0x8usize),
        Key::D => Some(0x9usize),
        Key::F => Some(0xEusize),
        Key::Z => Some(0xAusize),
        Key::X => Some(0x0usize),
        Key::C => Some(0xBusize),
        Key::V => Some(0xFusize),
        _ => None,
    }
}

/// The hexadecimal digit that `key` stands for, if it stands for one.
pub fn match_key(key: Key) -> (digit: Option<usize>)
    ensures
        digit == key_digit(key),
        digit matches Some(d) ==> d < 16,
{
    match key {
        Key::Num1 => Some(0x1),
        Key::Num2 => Some(0x2),
        Key::Num3 => Some(0x3),
        Key::Num4 => Some(0xC),
        Key::Q => Some(0x4),
        Key::W => Some(0x5),
        Key::E => Some(0x6),
        Key::R => Some(0xD),
        Key::A => Some(0x7),
        Key::S => Some(0x8),
        Key::D => Some(0x9),
        Key::F => Some(0xE),
        Key::Z => Some(0xA),
        Key::X => Some(0x0),
        Key::C => Some(0xB),
        Key::V => Some(0xF),
        _ => None,
    }
}

/// Every hexadecimal digit has its key, and no two keys share a digit.
pub proof fn lemma_key_digits_one_to_one(digit: usize, first: Key, second: Key)
    ensures
        digit < 16 ==> exists|key: Key| #[trigger] key_digit(key) == Some(digit),
        key_digit(first).is_some() && key_digit(first) == key_digit(second) ==> first == second,
{
    assert(key_digit(Key::X) == Some(0x0usize));
    assert(key_digit(Key::Num1) == Some(0x1usize));
    assert(key_digit(Key::Num2) == Some(0x2usize));
    assert(key_digit(Key::Num3) == Some(0x3usize));
    assert(key_digit(Key::Q) == Some(0x4usize));
    assert(key_digit(Key::W) == Some(0x5usize));
    assert(key_digit(Key::E) == Some(0x6usize));
    assert(key_digit(Key::A) == Some(0x7usize));
    assert(key_digit(Key::S) == Some(0x8usize));
    assert(key_digit(Key::D) == Some(0x9usize));
    assert(key_digit(Key::Z) == Some(0xAusize));
    assert(key_digit(Key::C) == Some(0xBusize));
    assert(key_digit(Key::Num4) == Some(0xCusize));
    assert(key_digit(Key::R) == Some(0xDusize));
    assert(key_digit(Key::F) == Some(0xEusize));
    assert(key_digit(Key::V) == Some(0xFusize));
}

/// The state of an emulation session.
#[verifier::ext_equal]
pub struct Session {
    /// The live machine.
    pub chip: Machine,
    /// The snapshots, oldest first.
    pub history: Seq<Machine>,
    /// The number of snapshots kept at most.
    pub capacity: nat,
    /// Whether the emulation is paused.
    pub paused: bool,
    /// Instructions per frame.
    pub ticks_per_frame: int,
    /// Instructions executed in the current frame.
    pub counter: int,
    /// Turns since the last snapshot.
    pub rewind_ctr: int,
}

/// A session after a turn of the loop, and what the turn did.
#[verifier::ext_equal]
pub struct Turn {
    /// The session the turn leaves behind.
    pub session: Session,
    /// What the turn did, or the fault that the instruction raised.
    pub result: Result<Progress, Chip8Error>,
}

impl Session {
    /// The session with machine key `digit` down or up, unless paused.
    pub open spec fn with_key(self, digit: Option<usize>, down: bool) -> Session {
        match digit {
            Some(d) if !self.paused => Session { chip: self.chip.set_key(d as int, down), ..self },
            _ => self,
        }
    }

    /// Whether an event ends the session: the window was closed or
    /// Escape went down.
    pub open spec fn quits(event: Event) -> bool {
        event == Event::Quit || event == Event::KeyDown(Key::Escape)
    }

    /// The session after an input event.
    ///
    /// A key of the hexadecimal block moves the machine's key, unless the
    /// session is paused. Up and Down change the instructions per frame by
    /// one, never below 1. Space toggles the pause. Left restores the
    /// newest snapshot, if there is one, and restarts the count of turns
    /// to the next snapshot. An event that quits changes nothing.
    pub open spec fn on_event(self, event: Event) -> Session {
        match event {
            Event::KeyDown(Key::Escape) => self,
            Event::KeyDown(Key::Up) => Session {
                ticks_per_frame: if self.ticks_per_frame < u32::MAX {
                    self.ticks_per_frame + 1
                } else {
                    self.ticks_per_frame
                },
                ..self
            },
            Event::KeyDown(Key::Down) => Session {
                ticks_per_frame: if self.ticks_per_frame > 1 {
                    self.ticks_per_frame - 1
                } else {
                    self.ticks_per_frame
                },
                ..self
            },
            Event::KeyDown(Key::Space) => Session { paused: !self.paused, ..self },
            Event::KeyDown(Key::Left) => if self.history.len() >= 1 {
                Session {
                    chip: self.history.last(),
                    history: restored(self.history),
                    rewind_ctr: 0,
                    ..self
                }
            } else {
                self
            },
            Event::KeyDown(key) => self.with_key(key_digit(key), true),
            Event::KeyUp(key) => self.with_key(key_digit(key), false),
            Event::Quit => self,
        }
    }

    /// The session with a snapshot taken if more than 250 turns have
    /// passed since the last one, and the turn counted.
    pub open spec fn snapshot_if_due(self) -> Session {
        if self.rewind_ctr > 250 {
            Session {
                history: captured(self.history, self.capacity, self.chip),
                rewind_ctr: 1,
                ..self
            }
        } else {
            Session { rewind_ctr: self.rewind_ctr + 1, ..self }
        }
    }

    /// The session after one turn of the loop, with `random` as the byte
    /// the instruction may draw.
    ///
    /// A paused session stays as it is. Otherwise a snapshot is taken if
    /// due and one instruction is executed. A fault ends the turn there.
    /// An instruction that brings the count within the frame up to the
    /// instructions per frame completes the frame: the timers tick, the
    /// count restarts, and a display that changed is handed to the
    /// renderer, which clears its mark.
    pub open spec fn advance(self, random: u8) -> Turn {
        if self.paused {
            Turn { session: self, result: Ok(Progress::Paused) }
        } else {
            let due: Session = self.snapshot_if_due();
            let step = due.chip.step(random);
            match step.result {
                Err(fault) => Turn {
                    session: Session { chip: step.state, ..due },
                    result: Err(fault),
                },
                Ok(_) => if due.counter + 1 >= due.ticks_per_frame {
                    Turn {
                        session: Session {
                            chip: step.state.timer_tick().clear_dirty(),
                            counter: 0,
                            ..due
                        },
                        result: Ok(
                            Progress::Frame {
                                redraw: step.state.dirty,
                                tone_stops: step.state.sound_timer == 1,
                            },
                        ),
                    }
                } else {
                    Turn {
                        session: Session { chip: step.state, counter: due.counter + 1, ..due },
                        result: Ok(Progress::Stepped),
                    }
                },
            }
        }
    }
}

impl Session {
    /// What every session satisfies.
    pub open spec fn wf(self) -> bool {
        &&& self.chip.wf()
        &&& self.capacity >= 1
        &&& self.history.len() <= self.capacity
        &&& 1 <= self.ticks_per_frame <= u32::MAX
        &&& 0 <= self.counter < u32::MAX
        &&& 0 <= self.rewind_ctr <= 251
    }

    /// A session as it is created: a fresh machine, an empty history of
    /// the default capacity, running at 9 instructions per frame.
    pub open spec fn initial() -> Session {
        Session {
            chip: Machine::initial(),
            history: Seq::empty(),
            capacity: 5,
            paused: false,
            ticks_per_frame: 9,
            counter: 0,
            rewind_ctr: 0,
        }
    }

    /// The session with a program image loaded and a first snapshot taken.
    pub open spec fn start(self, rom: Seq<u8>) -> Session {
        Session {
            chip: self.chip.load_rom(rom),
            history: captured(self.history, self.capacity, self.chip.load_rom(rom)),
            ..self
        }
    }
}

/// An emulation session: the machine, its history, and the pacing of the
/// driver loop.
pub struct Emulator {
    chip8: Chip8,
    paused: bool,
    rewind: Rewind,
    ticks_per_frame: u32,
    counter: u32,
    rewind_ctr: u32,
}

impl View for Emulator {
    type V = Session;

    closed spec fn view(&self) -> Session {
        Session {
            chip: self.chip8@,
            history: self.rewind@,
            capacity: self.rewind.capacity(),
            paused: self.paused,
            ticks_per_frame: self.ticks_per_frame as int,
            counter: self.counter as int,
            rewind_ctr: self.rewind_ctr as int,
        }
    }
}

impl Emulator {
    /// What the representation keeps beyond the model.
    pub closed spec fn inv(&self) -> bool {
        self.chip8.inv() && self.rewind.inv()
    }

    /// Every emulator that this library hands out is well formed.
    pub open spec fn wf(&self) -> bool {
        self.inv() && self@.wf()
    }

    /// A session with a fresh machine and an empty history.
    pub fn new() -> (emulator: Self)
        ensures
            emulator.wf(),
            emulator@ == Session::initial(),
    {
        Emulator {
            chip8: Chip8::new(),
            paused: false,
            rewind: Rewind::new(),
            ticks_per_frame: DEFAULT_TICKS_PER_FRAME,
            counter: 0,
            rewind_ctr: 0,
        }
    }

    /// Loads a program image and takes the first snapshot. An image that
    /// does not fit in memory is refused and the session is unchanged.
    pub fn start(&mut self, rom: &[u8]) -> (res: Result<(), Chip8Error>)
        requires
            old(self).wf(),
        ensures
            final(self).wf(),
            Machine::rom_fits(rom@.len() as int) ==> res == Ok::<(), Chip8Error>(())
                && final(self)@ == old(self)@.start(rom@),
            !Machine::rom_fits(rom@.len() as int) ==> res == Err::<(), Chip8Error>(
                Chip8Error::RomLoadFailure,
            ) && final(self)@ == old(self)@,
    {
        match self.chip8.load_rom(rom) {
            Ok(()) => {
                self.rewind.capture(&self.chip8);
                Ok(())
            },
            Err(fault) => Err(fault),
        }
    }

    /// Applies an input event and says whether it ends the session.
    pub fn handle_event(&mut self, event: Event) -> (quit: bool)
        requires
            old(self).wf(),
        ensures
            final(self).wf(),
            quit == Session::quits(event),
            final(self)@ == old(self)@.on_event(event),
    {
        match event {
            Event::Quit => true,
            Event::KeyDown(Key::Escape) => true,
            Event::KeyDown(key) => {
                self.press(key, true);
                match key {
                    Key::Up => {
                        if self.ticks_per_frame < u32::MAX {
                            self.ticks_per_frame += 1;
                        }
                    },
                    Key::Down => {
                        if self.ticks_per_frame > 1 {
                            self.ticks_per_frame -= 1;
                        }
                    },
                    Key::Space => {
                        self.paused = !self.paused;
                    },
                    Key::Left => {
                        if self.rewind.len() >= 1 {
                            self.chip8 = self.rewind.step_back();
                            self.rewind_ctr = 0;
                        }
                    },
                    _ => {},
                }
                false
            },
            Event::KeyUp(key) => {
                self.press(key, false);
                false
            },
        }
    }

    /// Moves the machine key that `key` stands for, unless the session is
    /// paused or `key` stands for none.
    fn press(&mut self, key: Key, down: bool)
        requires
            old(self).wf(),
        ensures
            final(self).wf(),
            final(self)@ == old(self)@.with_key(key_digit(key), down),
    {
        match match_key(key) {
            Some(digit) => {
                if !self.paused {
                    self.chip8.set_key(digit, down);
                }
            },
            None => {},
        }
    }

    /// One turn of the driver loop, with `random` as the byte that the
    /// instruction may draw.
    pub fn advance_with(&mut self, random: u8) -> (res: Result<Progress, Chip8Error>)
        requires
            old(self).wf(),
        ensures
            final(self).wf(),
            final(self)@ == old(self)@.advance(random).session,
            res == old(self)@.advance(random).result,
    {
        if self.paused {
            return Ok(Progress::Paused);
        }
        if self.rewind_ctr > CAPTURE_INTERVAL {
            self.rewind.capture(&self.chip8);
            self.rewind_ctr = 0;
        }
        self.rewind_ctr += 1;
        match self.chip8.cycle_with(random) {
            Err(fault) => Err(fault),
            Ok(()) => {
                self.counter += 1;
                if self.counter >= self.ticks_per_frame {
                    let tone_stops: bool = self.chip8.timer_tick();
                    let redraw: bool = self.chip8.vram_change();
                    self.chip8.clear_vram_change();
                    self.counter = 0;
                    Ok(Progress::Frame { redraw, tone_stops })
                } else {
                    Ok(Progress::Stepped)
                }
            },
        }
    }

    /// One turn of the driver loop. Where the instruction to execute is
    /// `Cxkk` a random byte is drawn for it.
    pub fn advance(&mut self) -> (res: Result<Progress, Chip8Error>)
        requires
            old(self).wf(),
        ensures
            final(self).wf(),
            exists|random: u8|
                final(self)@ == (#[trigger] old(self)@.advance(random)).session
                    && res == old(self)@.advance(random).result,
    {
        let random: u8 = if !self.paused && self.chip8.draws_random() {
            self.chip8.gen_rand()
        } else {
            0
        };
        self.advance_with(random)
    }

    /// The live machine.
    pub fn chip8(&self) -> (chip: &Chip8)
        requires
            self.wf(),
        ensures
            chip.wf(),
            chip@ == self@.chip,
    {
        &self.chip8
    }

    /// Whether the session is paused.
    pub fn is_paused(&self) -> (paused: bool)
        ensures
            paused == self@.paused,
    {
        self.paused
    }

    /// The number of instructions per frame.
    pub fn ticks_per_frame(&self) -> (ticks: u32)
        ensures
            ticks == self@.ticks_per_frame,
    {
        self.ticks_per_frame
    }
}

} // verus!
