//! The mathematical model of the machine and of every instruction.
//!
//! A [`Machine`] is the state of the virtual machine as plain sequences and
//! integers. Each instruction is a function from one `Machine` to the next;
//! [`Machine::step`] fetches, decodes and applies one instruction. The
//! executable machine is specified against these functions.

use vstd::prelude::*;
use crate::fault::Chip8Error;
use crate::font::{FONT, FONT_START};

verus! {

/// Address at which a program image starts, and the initial program counter.
pub const PROGRAM_START: u16 = 0x200;

/// Where the blocking key read stands.
#[derive(Clone, Copy, Debug, PartialEq, Eq, Structural)]
pub enum WaitState {
    /// No key read is pending.
    Running,
    /// A key read found no key down and is waiting for one.
    AwaitingPress,
    /// A key read saw this key down and is waiting for it to come up.
    AwaitingRelease(u8),
}

/// The state of the machine.
#[verifier::ext_equal]
pub struct Machine {
    /// The sixteen general registers; register 15 doubles as the flag.
    pub registers: Seq<u8>,
    /// The 4096 bytes of memory.
    pub memory: Seq<u8>,
    /// The index register.
    pub index: int,
    /// Address of the next instruction.
    pub pc: int,
    /// The return addresses, oldest first.
    pub stack: Seq<int>,
    /// The delay timer.
    pub delay_timer: u8,
    /// The sound timer.
    pub sound_timer: u8,
    /// Which of the sixteen keys are down.
    pub keypad: Seq<bool>,
    /// The pixels, `display[row][column]`, 32 rows of 64.
    pub display: Seq<Seq<bool>>,
    /// Set by every instruction that writes the display.
    pub dirty: bool,
    /// Progress of a blocking key read.
    pub wait: WaitState,
}

/// A machine after an instruction, and whether the instruction was carried out.
#[verifier::ext_equal]
pub struct Outcome {
    /// The state the instruction leaves behind.
    pub state: Machine,
    /// `Ok` when the instruction was carried out, else the fault.
    pub result: Result<(), Chip8Error>,
}

/// A display with every pixel off.
pub open spec fn blank_display() -> Seq<Seq<bool>> {
    Seq::new(32, |row: int| Seq::new(64, |col: int| false))
}

/// Bit `bit` of a sprite row, counted from the left: bit 0 is the most
/// significant bit of the byte.
pub open spec fn sprite_bit(row: u8, bit: int) -> bool {
    (row as int / pow2_of(7 - bit)) % 2 == 1
}

/// Two to the power `e`, for the eight exponents a byte has.
pub open spec fn pow2_of(e: int) -> int {
    if e <= 0 {
        1
    } else if e == 1 {
        2
    } else if e == 2 {
        4
    } else if e == 3 {
        8
    } else if e == 4 {
        16
    } else if e == 5 {
        32
    } else if e == 6 {
        64
    } else {
        128
    }
}

/// Whether a sprite drawn with its top left corner at `(vx, vy)` has a set
/// bit on the pixel at `(col, row)`. Columns wrap at 64 and rows at 32.
pub open spec fn sprite_hits(sprite: Seq<u8>, vx: int, vy: int, col: int, row: int) -> bool {
    let dx: int = (col - vx) % 64;
    let dy: int = (row - vy) % 32;
    dx < 8 && dy < sprite.len() && sprite_bit(sprite[dy], dx)
}

/// The display after a sprite is drawn at `(vx, vy)`: every pixel the
/// sprite hits is inverted, every other pixel is kept.
pub open spec fn draw(display: Seq<Seq<bool>>, sprite: Seq<u8>, vx: int, vy: int) -> Seq<
    Seq<bool>,
> {
    Seq::new(
        32,
        |row: int| Seq::new(64, |col: int| display[row][col] != sprite_hits(sprite, vx, vy, col, row)),
    )
}

/// Whether drawing a sprite at `(vx, vy)` turns some lit pixel off.
pub open spec fn collides(display: Seq<Seq<bool>>, sprite: Seq<u8>, vx: int, vy: int) -> bool {
    exists|col: int, row: int|
        0 <= col < 64 && 0 <= row < 32 && #[trigger] display[row][col] && sprite_hits(
            sprite,
            vx,
            vy,
            col,
            row,
        )
}

/// The highest key below `below` that is down, if any.
pub open spec fn last_pressed(keypad: Seq<bool>, below: int) -> Option<u8>
    decreases below,
{
    if below <= 0 {
        None
    } else if keypad[below - 1] {
        Some((below - 1) as u8)
    } else {
        last_pressed(keypad, below - 1)
    }
}

impl Outcome {
    /// The instruction was carried out and left `state`.
    pub open spec fn done(state: Machine) -> Outcome {
        Outcome { state, result: Ok(()) }
    }

    /// The instruction raised `fault` and left `state` as it found it.
    pub open spec fn fault(state: Machine, fault: Chip8Error) -> Outcome {
        Outcome { state, result: Err(fault) }
    }
}

impl Machine {
    /// What every state of the machine satisfies.
    pub open spec fn wf(self) -> bool {
        &&& self.registers.len() == 16
        &&& self.memory.len() == 4096
        &&& 0 <= self.index <= 4096
        &&& 0 <= self.pc <= 0xFFFF
        &&& self.stack.len() <= 16
        &&& forall|i: int| 0 <= i < self.stack.len() ==> 0 <= #[trigger] self.stack[i] <= 0xFFFF
        &&& self.keypad.len() == 16
        &&& self.display.len() == 32
        &&& forall|row: int| 0 <= row < 32 ==> (#[trigger] self.display[row]).len() == 64
        &&& (self.wait matches WaitState::AwaitingRelease(key) ==> key < 16)
    }

    /// The machine as it is created: everything zero but the program
    /// counter, which is 512, and the font table at `0x50`.
    pub open spec fn initial() -> Machine {
        Machine {
            registers: Seq::new(16, |i: int| 0u8),
            memory: Seq::new(
                4096,
                |a: int| if FONT_START <= a < FONT_START + 80 { FONT@[a - FONT_START] } else { 0u8 },
            ),
            index: 0,
            pc: PROGRAM_START as int,
            stack: Seq::empty(),
            delay_timer: 0,
            sound_timer: 0,
            keypad: Seq::new(16, |k: int| false),
            display: blank_display(),
            dirty: false,
            wait: WaitState::Running,
        }
    }

    /// Whether a program image of `len` bytes fits between address 512 and
    /// the end of memory.
    pub open spec fn rom_fits(len: int) -> bool {
        PROGRAM_START + len <= 4096
    }

    /// The machine with a program image copied to address 512 onward.
    pub open spec fn load_rom(self, rom: Seq<u8>) -> Machine {
        Machine {
            memory: Seq::new(
                4096,
                |a: int|
                    if PROGRAM_START <= a < PROGRAM_START + rom.len() {
                        rom[a - PROGRAM_START]
                    } else {
                        self.memory[a]
                    },
            ),
            ..self
        }
    }

    /// The machine with key `key` down or up.
    pub open spec fn set_key(self, key: int, down: bool) -> Machine {
        Machine { keypad: self.keypad.update(key, down), ..self }
    }

    /// The machine with every key up.
    pub open spec fn release_keys(self) -> Machine {
        Machine { keypad: Seq::new(16, |k: int| false), ..self }
    }

    /// The machine after the renderer has consumed a frame.
    pub open spec fn clear_dirty(self) -> Machine {
        Machine { dirty: false, ..self }
    }

    /// The machine after one timer tick: each timer that is not zero
    /// goes down by one.
    pub open spec fn timer_tick(self) -> Machine {
        Machine {
            delay_timer: if self.delay_timer > 0 { (self.delay_timer - 1) as u8 } else { 0u8 },
            sound_timer: if self.sound_timer > 0 { (self.sound_timer - 1) as u8 } else { 0u8 },
            ..self
        }
    }

    /// Whether key number `key` is down; a number above 15 names no key and
    /// is never down.
    pub open spec fn key_down(self, key: int) -> bool {
        0 <= key < 16 && self.keypad[key]
    }

    /// The machine with register `x` set to `value`.
    pub open spec fn with_register(self, x: int, value: u8) -> Machine {
        Machine { registers: self.registers.update(x, value), ..self }
    }

    /// The machine with the next instruction skipped when `skip` holds.
    pub open spec fn skip_if(self, skip: bool) -> Machine {
        if skip {
            Machine { pc: self.pc + 2, ..self }
        } else {
            self
        }
    }

    /// The word at the program counter, high byte first, or `None` when the
    /// two bytes do not both lie in memory.
    pub open spec fn fetch(self) -> Option<int> {
        if 0 <= self.pc && self.pc + 1 < 4096 {
            Some(self.memory[self.pc] as int * 256 + self.memory[self.pc + 1] as int)
        } else {
            None
        }
    }

    /// `00E0`: every pixel off, display marked dirty.
    pub open spec fn op_00e0(self) -> Machine {
        Machine { display: blank_display(), dirty: true, ..self }
    }

    /// `00EE`: return to the address on top of the stack.
    pub open spec fn op_00ee(self) -> Outcome {
        if self.stack.len() == 0 {
            Outcome::fault(self, Chip8Error::StackUnderflow)
        } else {
            Outcome::done(Machine { pc: self.stack.last(), stack: self.stack.drop_last(), ..self })
        }
    }

    /// `1nnn`: jump to `nnn`.
    pub open spec fn op_1nnn(self, nnn: int) -> Machine {
        Machine { pc: nnn, ..self }
    }

    /// `2nnn`: push the program counter and jump to `nnn`.
    pub open spec fn op_2nnn(self, nnn: int) -> Outcome {
        if self.stack.len() >= 16 {
            Outcome::fault(self, Chip8Error::StackOverflow)
        } else {
            Outcome::done(Machine { pc: nnn, stack: self.stack.push(self.pc), ..self })
        }
    }

    /// `3xkk`: skip the next instruction if `Vx == kk`.
    pub open spec fn op_3xkk(self, x: int, kk: u8) -> Machine {
        self.skip_if(self.registers[x] == kk)
    }

    /// `4xkk`: skip the next instruction if `Vx != kk`.
    pub open spec fn op_4xkk(self, x: int, kk: u8) -> Machine {
        self.skip_if(self.registers[x] != kk)
    }

    /// `5xy0`: skip the next instruction if `Vx == Vy`.
    pub open spec fn op_5xy0(self, x: int, y: int) -> Machine {
        self.skip_if(self.registers[x] == self.registers[y])
    }

    /// `6xkk`: `Vx = kk`.
    pub open spec fn op_6xkk(self, x: int, kk: u8) -> Machine {
        self.with_register(x, kk)
    }

    /// `7xkk`: `Vx = (Vx + kk) mod 256`; the flag is not written.
    pub open spec fn op_7xkk(self, x: int, kk: u8) -> Machine {
        self.with_register(x, ((self.registers[x] + kk) % 256) as u8)
    }

    /// `8xy0`: `Vx = Vy`.
    pub open spec fn op_8xy0(self, x: int, y: int) -> Machine {
        self.with_register(x, self.registers[y])
    }

    /// `8xy1`: `Vx = Vx | Vy`, then the flag is reset to 0.
    pub open spec fn op_8xy1(self, x: int, y: int) -> Machine {
        self.with_register(x, self.registers[x] | self.registers[y]).with_register(15, 0)
    }

    /// `8xy2`: `Vx = Vx & Vy`, then the flag is reset to 0.
    pub open spec fn op_8xy2(self, x: int, y: int) -> Machine {
        self.with_register(x, self.registers[x] & self.registers[y]).with_register(15, 0)
    }

    /// `8xy3`: `Vx = Vx ^ Vy`, then the flag is reset to 0.
    pub open spec fn op_8xy3(self, x: int, y: int) -> Machine {
        self.with_register(x, self.registers[x] ^ self.registers[y]).with_register(15, 0)
    }

    /// `8xy4`: the flag becomes the carry of `Vx + Vy`, then
    /// `Vx = (Vx + Vy) mod 256`.
    pub open spec fn op_8xy4(self, x: int, y: int) -> Machine {
        let sum: int = self.registers[x] + self.registers[y];
        self.with_register(15, if sum > 255 { 1u8 } else { 0u8 }).with_register(x, (sum % 256) as u8)
    }

    /// `8xy5`: the flag becomes 1 if `Vx > Vy` and 0 otherwise, then
    /// `Vx = (Vx - Vy) mod 256`.
    pub open spec fn op_8xy5(self, x: int, y: int) -> Machine {
        let vx: u8 = self.registers[x];
        let vy: u8 = self.registers[y];
        self.with_register(15, if vx > vy { 1u8 } else { 0u8 }).with_register(
            x,
            ((vx - vy) % 256) as u8,
        )
    }

    /// `8xy6`: `Vx = Vy`, then the flag becomes the lowest bit that `Vy`
    /// had, then `Vx` is halved.
    pub open spec fn op_8xy6(self, x: int, y: int) -> Machine {
        let vy: u8 = self.registers[y];
        let copied: Machine = self.with_register(x, vy).with_register(15, vy % 2);
        copied.with_register(x, copied.registers[x] / 2)
    }

    /// `8xy7`: the flag becomes 1 if `Vy > Vx` and 0 otherwise, then
    /// `Vx = (Vy - Vx) mod 256`.
    pub open spec fn op_8xy7(self, x: int, y: int) -> Machine {
        let vx: u8 = self.registers[x];
        let vy: u8 = self.registers[y];
        self.with_register(15, if vy > vx { 1u8 } else { 0u8 }).with_register(
            x,
            ((vy - vx) % 256) as u8,
        )
    }

    /// `8xyE`: `Vx = Vy`, then the flag becomes the highest bit that `Vy`
    /// had, then `Vx` is doubled modulo 256.
    pub open spec fn op_8xye(self, x: int, y: int) -> Machine {
        let vy: u8 = self.registers[y];
        let copied: Machine = self.with_register(x, vy).with_register(15, vy / 128);
        copied.with_register(x, ((copied.registers[x] * 2) % 256) as u8)
    }

    /// `9xy0`: skip the next instruction if `Vx != Vy`.
    pub open spec fn op_9xy0(self, x: int, y: int) -> Machine {
        self.skip_if(self.registers[x] != self.registers[y])
    }

    /// `Annn`: `I = nnn`.
    pub open spec fn op_annn(self, nnn: int) -> Machine {
        Machine { index: nnn, ..self }
    }

    /// `Bnnn`: jump to `V0 + nnn`.
    pub open spec fn op_bnnn(self, nnn: int) -> Machine {
        Machine { pc: self.registers[0] + nnn, ..self }
    }

    /// `Cxkk`: `Vx = random & kk`, for the random byte handed in.
    pub open spec fn op_ckkk(self, x: int, kk: u8, random: u8) -> Machine {
        self.with_register(x, random & kk)
    }

    /// `Dxyn`: draw the `n` bytes at `I` as a sprite at `(Vx, Vy)`; the flag
    /// becomes 1 if a lit pixel was turned off and 0 otherwise.
    pub open spec fn op_dxyn(self, x: int, y: int, n: int) -> Outcome {
        if self.index + n > 4096 {
            Outcome::fault(self, Chip8Error::AddressOutOfBounds)
        } else {
            let sprite: Seq<u8> = self.memory.subrange(self.index, self.index + n);
            let vx: int = self.registers[x] as int;
            let vy: int = self.registers[y] as int;
            Outcome::done(
                Machine {
                    registers: self.registers.update(
                        15,
                        if collides(self.display, sprite, vx, vy) { 1u8 } else { 0u8 },
                    ),
                    display: draw(self.display, sprite, vx, vy),
                    dirty: true,
                    ..self
                },
            )
        }
    }

    /// `Ex9E`: skip the next instruction if the key numbered `Vx` is down.
    pub open spec fn op_ex9e(self, x: int) -> Machine {
        self.skip_if(self.key_down(self.registers[x] as int))
    }

    /// `ExA1`: skip the next instruction if the key numbered `Vx` is not down.
    pub open spec fn op_exa1(self, x: int) -> Machine {
        self.skip_if(!self.key_down(self.registers[x] as int))
    }

    /// `Fx07`: `Vx = delay timer`.
    pub open spec fn op_fx07(self, x: int) -> Machine {
        self.with_register(x, self.delay_timer)
    }

    /// `Fx0A`: the blocking key read. While a remembered key is still
    /// down, and until some key goes down, the program counter is moved
    /// back onto this instruction. The highest key found down is
    /// remembered; once it is up again `Vx` receives its number.
    pub open spec fn op_fx0a(self, x: int) -> Machine {
        match self.wait {
            WaitState::AwaitingRelease(key) => {
                if self.keypad[key as int] {
                    Machine { pc: self.pc - 2, ..self }
                } else {
                    Machine { wait: WaitState::Running, ..self.with_register(x, key) }
                }
            },
            _ => {
                match last_pressed(self.keypad, 16) {
                    Some(key) => Machine {
                        pc: self.pc - 2,
                        wait: WaitState::AwaitingRelease(key),
                        ..self
                    },
                    None => Machine { pc: self.pc - 2, wait: WaitState::AwaitingPress, ..self },
                }
            },
        }
    }

    /// `Fx15`: `delay timer = Vx`.
    pub open spec fn op_fx15(self, x: int) -> Machine {
        Machine { delay_timer: self.registers[x], ..self }
    }

    /// `Fx18`: `sound timer = Vx`.
    pub open spec fn op_fx18(self, x: int) -> Machine {
        Machine { sound_timer: self.registers[x], ..self }
    }

    /// `Fx1E`: `I = I + Vx`, refused when the sum is above 4095.
    pub open spec fn op_fx1e(self, x: int) -> Outcome {
        if self.index + self.registers[x] > 4095 {
            Outcome::fault(self, Chip8Error::AddressOutOfBounds)
        } else {
            Outcome::done(Machine { index: self.index + self.registers[x], ..self })
        }
    }

    /// `Fx29`: `I = 0x50 + 5 * Vx`, the address of the glyph for `Vx`.
    pub open spec fn op_fx29(self, x: int) -> Machine {
        Machine { index: FONT_START + 5 * self.registers[x], ..self }
    }

    /// `Fx33`: the hundreds, tens and units of `Vx` go to `I`, `I + 1`
    /// and `I + 2`.
    pub open spec fn op_fx33(self, x: int) -> Outcome {
        if self.index + 2 > 4095 {
            Outcome::fault(self, Chip8Error::AddressOutOfBounds)
        } else {
            let vx: u8 = self.registers[x];
            Outcome::done(
                Machine {
                    memory: self.memory.update(self.index, vx / 100).update(
                        self.index + 1,
                        (vx / 10) % 10,
                    ).update(self.index + 2, vx % 10),
                    ..self
                },
            )
        }
    }

    /// `Fx55`: `V0` to `Vx` go to memory at `I` onward, then
    /// `I = I + x + 1`.
    pub open spec fn op_fx55(self, x: int) -> Outcome {
        if self.index + x > 4095 {
            Outcome::fault(self, Chip8Error::AddressOutOfBounds)
        } else {
            Outcome::done(
                Machine {
                    memory: Seq::new(
                        4096,
                        |a: int|
                            if self.index <= a <= self.index + x {
                                self.registers[a - self.index]
                            } else {
                                self.memory[a]
                            },
                    ),
                    index: self.index + x + 1,
                    ..self
                },
            )
        }
    }

    /// `Fx65`: `V0` to `Vx` are read from memory at `I` onward, then
    /// `I = I + x + 1`.
    pub open spec fn op_fx65(self, x: int) -> Outcome {
        if self.index + x > 4095 {
            Outcome::fault(self, Chip8Error::AddressOutOfBounds)
        } else {
            Outcome::done(
                Machine {
                    registers: Seq::new(
                        16,
                        |j: int| if j <= x { self.memory[self.index + j] } else { self.registers[j] },
                    ),
                    index: self.index + x + 1,
                    ..self
                },
            )
        }
    }
}


/// The leading nibble of an instruction word, which selects its family.
pub open spec fn opcode_class(opcode: int) -> int {
    opcode / 0x1000
}

/// The second nibble of an instruction word: the register `x`.
pub open spec fn opcode_x(opcode: int) -> int {
    (opcode / 0x100) % 0x10
}

/// The third nibble of an instruction word: the register `y`.
pub open spec fn opcode_y(opcode: int) -> int {
    (opcode / 0x10) % 0x10
}

/// The last nibble of an instruction word: the sprite height `n`.
pub open spec fn opcode_n(opcode: int) -> int {
    opcode % 0x10
}

/// The low byte of an instruction word: the constant `kk`.
pub open spec fn opcode_kk(opcode: int) -> u8 {
    (opcode % 0x100) as u8
}

/// The low twelve bits of an instruction word: the address `nnn`.
pub open spec fn opcode_nnn(opcode: int) -> int {
    opcode % 0x1000
}

/// Whether a word is an entry of the instruction table.
pub open spec fn is_instruction(opcode: int) -> bool {
    let class: int = opcode_class(opcode);
    let n: int = opcode_n(opcode);
    let kk: int = opcode_kk(opcode) as int;
    ||| opcode == 0x00E0
    ||| opcode == 0x00EE
    ||| class == 0x1
    ||| class == 0x2
    ||| class == 0x3
    ||| class == 0x4
    ||| class == 0x5 && n == 0x0
    ||| class == 0x6
    ||| class == 0x7
    ||| class == 0x8 && (n <= 0x7 || n == 0xE)
    ||| class == 0x9 && n == 0x0
    ||| class == 0xA
    ||| class == 0xB
    ||| class == 0xC
    ||| class == 0xD
    ||| class == 0xE && (kk == 0x9E || kk == 0xA1)
    ||| class == 0xF && (kk == 0x07 || kk == 0x0A || kk == 0x15 || kk == 0x18 || kk == 0x1E
        || kk == 0x29 || kk == 0x33 || kk == 0x55 || kk == 0x65)
}

impl Machine {
    /// The machine after the instruction word `opcode` is applied to it,
    /// the program counter already standing behind that word. A word that
    /// is no instruction, and an instruction that faults, leave the
    /// machine as it is.
    pub open spec fn execute(self, opcode: int, random: u8) -> Outcome {
        let class: int = opcode_class(opcode);
        let x: int = opcode_x(opcode);
        let y: int = opcode_y(opcode);
        let n: int = opcode_n(opcode);
        let kk: u8 = opcode_kk(opcode);
        let nnn: int = opcode_nnn(opcode);
        if opcode == 0x00E0 {
            Outcome::done(self.op_00e0())
        } else if opcode == 0x00EE {
            self.op_00ee()
        } else if class == 0x1 {
            Outcome::done(self.op_1nnn(nnn))
        } else if class == 0x2 {
            self.op_2nnn(nnn)
        } else if class == 0x3 {
            Outcome::done(self.op_3xkk(x, kk))
        } else if class == 0x4 {
            Outcome::done(self.op_4xkk(x, kk))
        } else if class == 0x5 && n == 0x0 {
            Outcome::done(self.op_5xy0(x, y))
        } else if class == 0x6 {
            Outcome::done(self.op_6xkk(x, kk))
        } else if class == 0x7 {
            Outcome::done(self.op_7xkk(x, kk))
        } else if class == 0x8 && n == 0x0 {
            Outcome::done(self.op_8xy0(x, y))
        } else if class == 0x8 && n == 0x1 {
            Outcome::done(self.op_8xy1(x, y))
        } else if class == 0x8 && n == 0x2 {
            Outcome::done(self.op_8xy2(x, y))
        } else if class == 0x8 && n == 0x3 {
            Outcome::done(self.op_8xy3(x, y))
        } else if class == 0x8 && n == 0x4 {
            Outcome::done(self.op_8xy4(x, y))
        } else if class == 0x8 && n == 0x5 {
            Outcome::done(self.op_8xy5(x, y))
        } else if class == 0x8 && n == 0x6 {
            Outcome::done(self.op_8xy6(x, y))
        } else if class == 0x8 && n == 0x7 {
            Outcome::done(self.op_8xy7(x, y))
        } else if class == 0x8 && n == 0xE {
            Outcome::done(self.op_8xye(x, y))
        } else if class == 0x9 && n == 0x0 {
            Outcome::done(self.op_9xy0(x, y))
        } else if class == 0xA {
            Outcome::done(self.op_annn(nnn))
        } else if class == 0xB {
            Outcome::done(self.op_bnnn(nnn))
        } else if class == 0xC {
            Outcome::done(self.op_ckkk(x, kk, random))
        } else if class == 0xD {
            self.op_dxyn(x, y, n)
        } else if class == 0xE && kk == 0x9E {
            Outcome::done(self.op_ex9e(x))
        } else if class == 0xE && kk == 0xA1 {
            Outcome::done(self.op_exa1(x))
        } else if class == 0xF && kk == 0x07 {
            Outcome::done(self.op_fx07(x))
        } else if class == 0xF && kk == 0x0A {
            Outcome::done(self.op_fx0a(x))
        } else if class == 0xF && kk == 0x15 {
            Outcome::done(self.op_fx15(x))
        } else if class == 0xF && kk == 0x18 {
            Outcome::done(self.op_fx18(x))
        } else if class == 0xF && kk == 0x1E {
            self.op_fx1e(x)
        } else if class == 0xF && kk == 0x29 {
            Outcome::done(self.op_fx29(x))
        } else if class == 0xF && kk == 0x33 {
            self.op_fx33(x)
        } else if class == 0xF && kk == 0x55 {
            self.op_fx55(x)
        } else if class == 0xF && kk == 0x65 {
            self.op_fx65(x)
        } else {
            Outcome::fault(self, Chip8Error::UnknownOpcode)
        }
    }

    /// Whether the next instruction is `Cxkk`, the one that consumes a
    /// random byte.
    pub open spec fn draws_random(self) -> bool {
        self.fetch() matches Some(opcode) && opcode_class(opcode) == 0xC
    }

    /// One instruction: the word at the program counter is fetched, the
    /// program counter moves behind it, and the word is executed. Where
    /// the word cannot be fetched the machine faults unchanged.
    pub open spec fn step(self, random: u8) -> Outcome {
        match self.fetch() {
            Some(opcode) => Machine { pc: self.pc + 2, ..self }.execute(opcode, random),
            None => Outcome::fault(self, Chip8Error::AddressOutOfBounds),
        }
    }
}


} // verus!
