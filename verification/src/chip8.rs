//! The executable machine.

use vstd::prelude::*;
use crate::display::{draw_sprite, grid};
use crate::fault::Chip8Error;
use crate::font::{FONT, FONT_START};
use crate::machine::{Machine, PROGRAM_START, WaitState, last_pressed};

verus! {

/// A CHIP-8 machine. Its state is the [`Machine`] that `view` gives.
pub struct Chip8 {
    registers: [u8; 16],
    memory: [u8; 4096],
    index: u16,
    pc: u16,
    stack: [u16; 16],
    sp: usize,
    delay_timer: u8,
    sound_timer: u8,
    keypad: [bool; 16],
    vram: [[bool; 64]; 32],
    vram_change: bool,
    wait: WaitState,
}

impl View for Chip8 {
    type V = Machine;

    closed spec fn view(&self) -> Machine {
        Machine {
            registers: self.registers@,
            memory: self.memory@,
            index: self.index as int,
            pc: self.pc as int,
            stack: Seq::new(self.sp as nat, |i: int| self.stack@[i] as int),
            delay_timer: self.delay_timer,
            sound_timer: self.sound_timer,
            keypad: self.keypad@,
            display: grid(self.vram),
            dirty: self.vram_change,
            wait: self.wait,
        }
    }
}

impl Chip8 {
    /// What the representation keeps beyond the model: the stack pointer
    /// stays within the stack.
    pub closed spec fn inv(&self) -> bool {
        self.sp <= 16
    }

    /// Every machine that this library hands out is well formed.
    pub open spec fn wf(&self) -> bool {
        self.inv() && self@.wf()
    }

    /// A machine with the font table in memory, the program counter at 512
    /// and everything else zero.
    pub fn new() -> (chip: Self)
        ensures
            chip.wf(),
            chip@ == Machine::initial(),
    {
        let mut memory: [u8; 4096] = [0u8; 4096];
        let start: usize = FONT_START as usize;
        let mut i: usize = 0;
        while i < 80
            invariant
                i <= 80,
                start == FONT_START,
                forall|a: int|
                    0 <= a < 4096 ==> memory@[a] == if start <= a < start + i {
                        FONT@[a - start]
                    } else {
                        0u8
                    },
            decreases 80 - i,
        {
            memory[start + i] = FONT[i];
            i += 1;
        }
        let chip = Chip8 {
            registers: [0u8; 16],
            memory,
            index: 0,
            pc: PROGRAM_START,
            stack: [0u16; 16],
            sp: 0,
            delay_timer: 0,
            sound_timer: 0,
            keypad: [false; 16],
            vram: [[false; 64]; 32],
            vram_change: false,
            wait: WaitState::Running,
        };
        assert(chip@ =~~= Machine::initial());
        chip
    }

    /// Copies a program image to address 512 onward. An image that does
    /// not fit below the end of memory is refused and nothing is written.
    pub fn load_rom(&mut self, rom: &[u8]) -> (res: Result<(), Chip8Error>)
        requires
            old(self).wf(),
        ensures
            final(self).wf(),
            Machine::rom_fits(rom@.len() as int) ==> res == Ok::<(), Chip8Error>(())
                && final(self)@ == old(self)@.load_rom(rom@),
            !Machine::rom_fits(rom@.len() as int) ==> res == Err::<(), Chip8Error>(
                Chip8Error::RomLoadFailure,
            ) && final(self)@ == old(self)@,
    {
        let start: usize = PROGRAM_START as usize;
        let len: usize = rom.len();
        if len > 4096 - start {
            return Err(Chip8Error::RomLoadFailure);
        }
        let mut i: usize = 0;
        while i < len
            invariant
                i <= len <= 4096 - start,
                start == PROGRAM_START,
                len == rom@.len(),
                self.wf(),
                forall|a: int|
                    0 <= a < 4096 ==> self@.memory[a] == if start <= a < start + i {
                        rom@[a - start]
                    } else {
                        old(self)@.memory[a]
                    },
                self@ == (Machine { memory: self@.memory, ..old(self)@ }),
            decreases len - i,
        {
            self.memory[start + i] = rom[i];
            i += 1;
        }
        Ok(())
    }

    /// Puts key `key` down or up.
    pub fn set_key(&mut self, key: usize, state: bool)
        requires
            old(self).wf(),
            key < 16,
        ensures
            final(self).wf(),
            final(self)@ == old(self)@.set_key(key as int, state),
    {
        self.keypad[key] = state;
    }

    /// Lets every key up.
    pub fn release_keys(&mut self)
        requires
            old(self).wf(),
        ensures
            final(self).wf(),
            final(self)@ == old(self)@.release_keys(),
    {
        self.keypad = [false; 16];
    }

    /// Executes one instruction. Where the instruction is `Cxkk` a random
    /// byte is drawn for it; every other instruction is independent of
    /// chance.
    pub fn cycle(&mut self) -> (res: Result<(), Chip8Error>)
        requires
            old(self).wf(),
        ensures
            final(self).wf(),
            exists|random: u8|
                final(self)@ == (#[trigger] old(self)@.step(random)).state
                    && res == old(self)@.step(random).result,
            !old(self)@.draws_random() ==> forall|random: u8|
                final(self)@ == (#[trigger] old(self)@.step(random)).state
                    && res == old(self)@.step(random).result,
    {
        let random: u8 = if self.draws_random() {
            self.gen_rand()
        } else {
            0
        };
        self.cycle_with(random)
    }

    /// Executes one instruction, with `random` as the byte that `Cxkk`
    /// would draw: fetches the word at the program counter, moves the
    /// program counter behind it, and carries the instruction out.
    ///
    /// A fault is returned when the word cannot be fetched, is no
    /// instruction, or names an instruction that cannot be carried out.
    /// After a fault the program counter stands behind the word, if it was
    /// fetched, and nothing else has changed.
    pub fn cycle_with(&mut self, random: u8) -> (res: Result<(), Chip8Error>)
        requires
            old(self).wf(),
        ensures
            final(self).wf(),
            final(self)@ == old(self)@.step(random).state,
            res == old(self)@.step(random).result,
    {
        match self.fetch() {
            Some(opcode) => {
                self.pc += 2;
                self.execute(opcode, random)
            },
            None => Err(Chip8Error::AddressOutOfBounds),
        }
    }

    /// Whether the next instruction consumes a random byte.
    pub fn draws_random(&self) -> (draws: bool)
        requires
            self.wf(),
        ensures
            draws == self@.draws_random(),
    {
        match self.fetch() {
            Some(opcode) => {
                assert(opcode >> 12 == opcode / 0x1000) by (bit_vector);
                opcode >> 12 == 0xC
            },
            None => false,
        }
    }

    /// A random byte: the result of `rand::random::<u8>()`, which draws it
    /// from the thread-local generator of the `rand` crate. Nothing is
    /// claimed of the byte: any of the 256 values may come back, and two
    /// calls may differ. The generator panics if the operating system
    /// cannot seed it.
    #[verifier::external_body]
    pub fn gen_rand(&self) -> (byte: u8) {
        rand::random::<u8>()
    }

    /// One timer tick: the delay timer and the sound timer each go down by
    /// one unless already zero. Returns whether the sound timer reached
    /// zero in this tick, which is when a tone has to stop.
    pub fn timer_tick(&mut self) -> (tone_stops: bool)
        requires
            old(self).wf(),
        ensures
            final(self).wf(),
            final(self)@ == old(self)@.timer_tick(),
            tone_stops == (old(self)@.sound_timer == 1),
    {
        if self.delay_timer > 0 {
            self.delay_timer -= 1;
        }
        let mut tone_stops: bool = false;
        if self.sound_timer > 0 {
            tone_stops = self.sound_timer == 1;
            self.sound_timer -= 1;
        }
        tone_stops
    }

    /// Register `x`.
    pub fn register(&self, x: usize) -> (value: u8)
        requires
            x < 16,
        ensures
            value == self@.registers[x as int],
    {
        self.registers[x]
    }

    /// The byte of memory at `address`.
    pub fn memory_at(&self, address: usize) -> (value: u8)
        requires
            address < 4096,
        ensures
            value == self@.memory[address as int],
    {
        self.memory[address]
    }

    /// The index register.
    pub fn index(&self) -> (index: u16)
        ensures
            index == self@.index,
    {
        self.index
    }

    /// The address of the next instruction.
    pub fn program_counter(&self) -> (pc: u16)
        ensures
            pc == self@.pc,
    {
        self.pc
    }

    /// The number of return addresses on the call stack.
    pub fn stack_depth(&self) -> (depth: usize)
        requires
            self.wf(),
        ensures
            depth == self@.stack.len(),
    {
        self.sp
    }

    /// The delay timer.
    pub fn delay_timer(&self) -> (value: u8)
        ensures
            value == self@.delay_timer,
    {
        self.delay_timer
    }

    /// The sound timer; a tone sounds while it is not zero.
    pub fn sound_timer(&self) -> (value: u8)
        ensures
            value == self@.sound_timer,
    {
        self.sound_timer
    }

    /// Whether key `key` is down.
    pub fn key(&self, key: usize) -> (down: bool)
        requires
            key < 16,
        ensures
            down == self@.keypad[key as int],
    {
        self.keypad[key]
    }

    /// Where a blocking key read stands.
    pub fn wait_state(&self) -> (wait: WaitState)
        ensures
            wait == self@.wait,
    {
        self.wait
    }

    /// The pixels, `vram()[row][column]`.
    pub fn vram(&self) -> (pixels: &[[bool; 64]; 32])
        ensures
            grid(*pixels) == self@.display,
    {
        &self.vram
    }

    /// The pixel in column `x` of row `y`.
    pub fn pixel(&self, x: usize, y: usize) -> (lit: bool)
        requires
            x < 64,
            y < 32,
        ensures
            lit == self@.display[y as int][x as int],
    {
        self.vram[y][x]
    }

    /// Whether the display was written since the renderer last consumed
    /// a frame.
    pub fn vram_change(&self) -> (dirty: bool)
        ensures
            dirty == self@.dirty,
    {
        self.vram_change
    }

    /// Marks the current frame as consumed by the renderer.
    pub fn clear_vram_change(&mut self)
        requires
            old(self).wf(),
        ensures
            final(self).wf(),
            final(self)@ == old(self)@.clear_dirty(),
    {
        self.vram_change = false;
    }
}

impl Clone for Chip8 {
    /// An independent copy of the whole machine.
    fn clone(&self) -> (copy: Self)
        ensures
            copy == *self,
    {
        Chip8 {
            registers: self.registers,
            memory: self.memory,
            index: self.index,
            pc: self.pc,
            stack: self.stack,
            sp: self.sp,
            delay_timer: self.delay_timer,
            sound_timer: self.sound_timer,
            keypad: self.keypad,
            vram: self.vram,
            vram_change: self.vram_change,
            wait: self.wait,
        }
    }
}

impl Chip8 {
    /// Whether the machine stands where an instruction has just been
    /// fetched: well formed, with the program counter behind the word.
    spec fn fetched(&self) -> bool {
        self.wf() && 2 <= self.pc <= 4096
    }

    /// The word at the program counter, high byte first, if both its bytes
    /// lie in memory.
    fn fetch(&self) -> (word: Option<u16>)
        requires
            self.wf(),
        ensures
            word.is_some() == self@.fetch().is_some(),
            word matches Some(opcode) ==> self@.fetch() == Some(opcode as int),
    {
        if self.pc > 4094 {
            return None;
        }
        let at: usize = self.pc as usize;
        let high: u8 = self.memory[at];
        let low: u8 = self.memory[at + 1];
        assert(((high as u16) << 8) | (low as u16) == high as u16 * 256 + low as u16)
            by (bit_vector);
        Some(((high as u16) << 8) | (low as u16))
    }

    /// Decodes `opcode` and carries out the instruction it names.
    fn execute(&mut self, opcode: u16, random: u8) -> (res: Result<(), Chip8Error>)
        requires
            old(self).fetched(),
        ensures
            final(self).wf(),
            final(self)@ == old(self)@.execute(opcode as int, random).state,
            res == old(self)@.execute(opcode as int, random).result,
    {
        let class: u16 = opcode >> 12;
        let x: usize = ((opcode & 0x0F00) >> 8) as usize;
        let y: usize = ((opcode & 0x00F0) >> 4) as usize;
        let n: usize = (opcode & 0x000F) as usize;
        let kk: u8 = (opcode & 0x00FF) as u8;
        let nnn: u16 = opcode & 0x0FFF;
        proof {
            assert(opcode >> 12 == opcode / 0x1000) by (bit_vector);
            assert((opcode & 0x0F00) >> 8 == (opcode / 0x100) % 0x10) by (bit_vector);
            assert((opcode & 0x00F0) >> 4 == (opcode / 0x10) % 0x10) by (bit_vector);
            assert(opcode & 0x000F == opcode % 0x10) by (bit_vector);
            assert(opcode & 0x00FF == opcode % 0x100) by (bit_vector);
            assert(opcode & 0x0FFF == opcode % 0x1000) by (bit_vector);
        }
        if opcode == 0x00E0 {
            self.op_00e0();
            Ok(())
        } else if opcode == 0x00EE {
            self.op_00ee()
        } else if class == 0x1 {
            self.op_1nnn(nnn);
            Ok(())
        } else if class == 0x2 {
            self.op_2nnn(nnn)
        } else if class == 0x3 {
            self.op_3xkk(x, kk);
            Ok(())
        } else if class == 0x4 {
            self.op_4xkk(x, kk);
            Ok(())
        } else if class == 0x5 && n == 0x0 {
            self.op_5xy0(x, y);
            Ok(())
        } else if class == 0x6 {
            self.op_6xkk(x, kk);
            Ok(())
        } else if class == 0x7 {
            self.op_7xkk(x, kk);
            Ok(())
        } else if class == 0x8 && n == 0x0 {
            self.op_8xy0(x, y);
            Ok(())
        } else if class == 0x8 && n == 0x1 {
            self.op_8xy1(x, y);
            Ok(())
        } else if class == 0x8 && n == 0x2 {
            self.op_8xy2(x, y);
            Ok(())
        } else if class == 0x8 && n == 0x3 {
            self.op_8xy3(x, y);
            Ok(())
        } else if class == 0x8 && n == 0x4 {
            self.op_8xy4(x, y);
            Ok(())
        } else if class == 0x8 && n == 0x5 {
            self.op_8xy5(x, y);
            Ok(())
        } else if class == 0x8 && n == 0x6 {
            self.op_8xy6(x, y);
            Ok(())
        } else if class == 0x8 && n == 0x7 {
            self.op_8xy7(x, y);
            Ok(())
        } else if class == 0x8 && n == 0xE {
            self.op_8xye(x, y);
            Ok(())
        } else if class == 0x9 && n == 0x0 {
            self.op_9xy0(x, y);
            Ok(())
        } else if class == 0xA {
            self.op_annn(nnn);
            Ok(())
        } else if class == 0xB {
            self.op_bnnn(nnn);
            Ok(())
        } else if class == 0xC {
            self.op_ckkk(x, kk, random);
            Ok(())
        } else if class == 0xD {
            self.op_dxyn(x, y, n)
        } else if class == 0xE && kk == 0x9E {
            self.op_ex9e(x);
            Ok(())
        } else if class == 0xE && kk == 0xA1 {
            self.op_exa1(x);
            Ok(())
        } else if class == 0xF && kk == 0x07 {
            self.op_fx07(x);
            Ok(())
        } else if class == 0xF && kk == 0x0A {
            self.op_fx0a(x);
            Ok(())
        } else if class == 0xF && kk == 0x15 {
            self.op_fx15(x);
            Ok(())
        } else if class == 0xF && kk == 0x18 {
            self.op_fx18(x);
            Ok(())
        } else if class == 0xF && kk == 0x1E {
            self.op_fx1e(x)
        } else if class == 0xF && kk == 0x29 {
            self.op_fx29(x);
            Ok(())
        } else if class == 0xF && kk == 0x33 {
            self.op_fx33(x)
        } else if class == 0xF && kk == 0x55 {
            self.op_fx55(x)
        } else if class == 0xF && kk == 0x65 {
            self.op_fx65(x)
        } else {
            Err(Chip8Error::UnknownOpcode)
        }
    }

    /// `00E0`: clears the display.
    fn op_00e0(&mut self)
        requires
            old(self).wf(),
        ensures
            final(self).wf(),
            final(self)@ == old(self)@.op_00e0(),
    {
        self.vram = [[false; 64]; 32];
        self.vram_change = true;
        assert(self@ =~~= old(self)@.op_00e0());
    }

    /// `00EE`: returns from a subroutine.
    fn op_00ee(&mut self) -> (res: Result<(), Chip8Error>)
        requires
            old(self).wf(),
        ensures
            final(self).wf(),
            final(self)@ == old(self)@.op_00ee().state,
            res == old(self)@.op_00ee().result,
    {
        if self.sp == 0 {
            return Err(Chip8Error::StackUnderflow);
        }
        self.sp -= 1;
        self.pc = self.stack[self.sp];
        Ok(())
    }

    /// `1nnn`: jumps to `nnn`.
    fn op_1nnn(&mut self, nnn: u16)
        requires
            old(self).wf(),
        ensures
            final(self).wf(),
            final(self)@ == old(self)@.op_1nnn(nnn as int),
    {
        self.pc = nnn;
    }

    /// `2nnn`: calls the subroutine at `nnn`.
    fn op_2nnn(&mut self, nnn: u16) -> (res: Result<(), Chip8Error>)
        requires
            old(self).wf(),
        ensures
            final(self).wf(),
            final(self)@ == old(self)@.op_2nnn(nnn as int).state,
            res == old(self)@.op_2nnn(nnn as int).result,
    {
        if self.sp >= 16 {
            return Err(Chip8Error::StackOverflow);
        }
        self.stack[self.sp] = self.pc;
        self.sp += 1;
        self.pc = nnn;
        Ok(())
    }

    /// `3xkk`: skips the next instruction if `Vx == kk`.
    fn op_3xkk(&mut self, x: usize, kk: u8)
        requires
            old(self).fetched(),
            x < 16,
        ensures
            final(self).wf(),
            final(self)@ == old(self)@.op_3xkk(x as int, kk),
    {
        if self.registers[x] == kk {
            self.pc += 2;
        }
    }

    /// `4xkk`: skips the next instruction if `Vx != kk`.
    fn op_4xkk(&mut self, x: usize, kk: u8)
        requires
            old(self).fetched(),
            x < 16,
        ensures
            final(self).wf(),
            final(self)@ == old(self)@.op_4xkk(x as int, kk),
    {
        if self.registers[x] != kk {
            self.pc += 2;
        }
    }

    /// `5xy0`: skips the next instruction if `Vx == Vy`.
    fn op_5xy0(&mut self, x: usize, y: usize)
        requires
            old(self).fetched(),
            x < 16,
            y < 16,
        ensures
            final(self).wf(),
            final(self)@ == old(self)@.op_5xy0(x as int, y as int),
    {
        if self.registers[x] == self.registers[y] {
            self.pc += 2;
        }
    }

    /// `6xkk`: loads `kk` into `Vx`.
    fn op_6xkk(&mut self, x: usize, kk: u8)
        requires
            old(self).wf(),
            x < 16,
        ensures
            final(self).wf(),
            final(self)@ == old(self)@.op_6xkk(x as int, kk),
    {
        self.registers[x] = kk;
    }

    /// `7xkk`: adds `kk` to `Vx`, wrapping, without touching the flag.
    fn op_7xkk(&mut self, x: usize, kk: u8)
        requires
            old(self).wf(),
            x < 16,
        ensures
            final(self).wf(),
            final(self)@ == old(self)@.op_7xkk(x as int, kk),
    {
        self.registers[x] = self.registers[x].wrapping_add(kk);
    }

    /// `8xy0`: loads `Vy` into `Vx`.
    fn op_8xy0(&mut self, x: usize, y: usize)
        requires
            old(self).wf(),
            x < 16,
            y < 16,
        ensures
            final(self).wf(),
            final(self)@ == old(self)@.op_8xy0(x as int, y as int),
    {
        self.registers[x] = self.registers[y];
    }

    /// `8xy1`: ors `Vy` into `Vx` and resets the flag.
    fn op_8xy1(&mut self, x: usize, y: usize)
        requires
            old(self).wf(),
            x < 16,
            y < 16,
        ensures
            final(self).wf(),
            final(self)@ == old(self)@.op_8xy1(x as int, y as int),
    {
        self.registers[x] = self.registers[x] | self.registers[y];
        self.registers[0xF] = 0;
    }

    /// `8xy2`: ands `Vy` into `Vx` and resets the flag.
    fn op_8xy2(&mut self, x: usize, y: usize)
        requires
            old(self).wf(),
            x < 16,
            y < 16,
        ensures
            final(self).wf(),
            final(self)@ == old(self)@.op_8xy2(x as int, y as int),
    {
        self.registers[x] = self.registers[x] & self.registers[y];
        self.registers[0xF] = 0;
    }

    /// `8xy3`: xors `Vy` into `Vx` and resets the flag.
    fn op_8xy3(&mut self, x: usize, y: usize)
        requires
            old(self).wf(),
            x < 16,
            y < 16,
        ensures
            final(self).wf(),
            final(self)@ == old(self)@.op_8xy3(x as int, y as int),
    {
        self.registers[x] = self.registers[x] ^ self.registers[y];
        self.registers[0xF] = 0;
    }

    /// `8xy4`: adds `Vy` to `Vx`, wrapping; the flag receives the carry
    /// before `Vx` is written.
    fn op_8xy4(&mut self, x: usize, y: usize)
        requires
            old(self).wf(),
            x < 16,
            y < 16,
        ensures
            final(self).wf(),
            final(self)@ == old(self)@.op_8xy4(x as int, y as int),
    {
        let vx: u8 = self.registers[x];
        let vy: u8 = self.registers[y];
        let sum: u16 = vx as u16 + vy as u16;
        if sum > 0xFF {
            self.registers[0xF] = 1;
        } else {
            self.registers[0xF] = 0;
        }
        self.registers[x] = vx.wrapping_add(vy);
    }

    /// `8xy5`: subtracts `Vy` from `Vx`, wrapping; the flag is 1 when
    /// `Vx > Vy` and is written before `Vx`.
    fn op_8xy5(&mut self, x: usize, y: usize)
        requires
            old(self).wf(),
            x < 16,
            y < 16,
        ensures
            final(self).wf(),
            final(self)@ == old(self)@.op_8xy5(x as int, y as int),
    {
        let vx: u8 = self.registers[x];
        let vy: u8 = self.registers[y];
        if vx > vy {
            self.registers[0xF] = 1;
        } else {
            self.registers[0xF] = 0;
        }
        self.registers[x] = vx.wrapping_sub(vy);
    }

    /// `8xy6`: copies `Vy` to `Vx`, puts the lowest bit of `Vy` in the
    /// flag, then shifts `Vx` right by one.
    fn op_8xy6(&mut self, x: usize, y: usize)
        requires
            old(self).wf(),
            x < 16,
            y < 16,
        ensures
            final(self).wf(),
            final(self)@ == old(self)@.op_8xy6(x as int, y as int),
    {
        let vy: u8 = self.registers[y];
        self.registers[x] = vy;
        self.registers[0xF] = vy & 1;
        let copied: u8 = self.registers[x];
        self.registers[x] = copied >> 1;
        assert(vy & 1 == vy % 2) by (bit_vector);
        assert(copied >> 1 == copied / 2) by (bit_vector);
    }

    /// `8xy7`: sets `Vx` to `Vy - Vx`, wrapping; the flag is 1 when
    /// `Vy > Vx` and is written before `Vx`.
    fn op_8xy7(&mut self, x: usize, y: usize)
        requires
            old(self).wf(),
            x < 16,
            y < 16,
        ensures
            final(self).wf(),
            final(self)@ == old(self)@.op_8xy7(x as int, y as int),
    {
        let vx: u8 = self.registers[x];
        let vy: u8 = self.registers[y];
        if vy > vx {
            self.registers[0xF] = 1;
        } else {
            self.registers[0xF] = 0;
        }
        self.registers[x] = vy.wrapping_sub(vx);
    }

    /// `8xyE`: copies `Vy` to `Vx`, puts the highest bit of `Vy` in the
    /// flag, then shifts `Vx` left by one.
    fn op_8xye(&mut self, x: usize, y: usize)
        requires
            old(self).wf(),
            x < 16,
            y < 16,
        ensures
            final(self).wf(),
            final(self)@ == old(self)@.op_8xye(x as int, y as int),
    {
        let vy: u8 = self.registers[y];
        self.registers[x] = vy;
        self.registers[0xF] = vy >> 7;
        let copied: u8 = self.registers[x];
        self.registers[x] = copied << 1;
        assert(vy >> 7 == vy / 128) by (bit_vector);
        assert(copied << 1 == (copied * 2) % 256) by (bit_vector);
    }

    /// `9xy0`: skips the next instruction if `Vx != Vy`.
    fn op_9xy0(&mut self, x: usize, y: usize)
        requires
            old(self).fetched(),
            x < 16,
            y < 16,
        ensures
            final(self).wf(),
            final(self)@ == old(self)@.op_9xy0(x as int, y as int),
    {
        if self.registers[x] != self.registers[y] {
            self.pc += 2;
        }
    }

    /// `Annn`: loads `nnn` into the index register.
    fn op_annn(&mut self, nnn: u16)
        requires
            old(self).wf(),
            nnn <= 0xFFF,
        ensures
            final(self).wf(),
            final(self)@ == old(self)@.op_annn(nnn as int),
    {
        self.index = nnn;
    }

    /// `Bnnn`: jumps to `V0 + nnn`.
    fn op_bnnn(&mut self, nnn: u16)
        requires
            old(self).wf(),
            nnn <= 0xFFF,
        ensures
            final(self).wf(),
            final(self)@ == old(self)@.op_bnnn(nnn as int),
    {
        self.pc = self.registers[0] as u16 + nnn;
    }

    /// `Cxkk`: loads `random & kk` into `Vx`.
    fn op_ckkk(&mut self, x: usize, kk: u8, random: u8)
        requires
            old(self).wf(),
            x < 16,
        ensures
            final(self).wf(),
            final(self)@ == old(self)@.op_ckkk(x as int, kk, random),
    {
        self.registers[x] = random & kk;
    }

    /// `Dxyn`: draws the `n` bytes at the index register as a sprite at
    /// `(Vx, Vy)` and puts the collision in the flag.
    fn op_dxyn(&mut self, x: usize, y: usize, n: usize) -> (res: Result<(), Chip8Error>)
        requires
            old(self).wf(),
            x < 16,
            y < 16,
            n < 16,
        ensures
            final(self).wf(),
            final(self)@ == old(self)@.op_dxyn(x as int, y as int, n as int).state,
            res == old(self)@.op_dxyn(x as int, y as int, n as int).result,
    {
        let base: usize = self.index as usize;
        if base + n > 4096 {
            return Err(Chip8Error::AddressOutOfBounds);
        }
        let vx: u8 = self.registers[x];
        let vy: u8 = self.registers[y];
        let collision: bool = draw_sprite(&mut self.vram, &self.memory, base, n, vx, vy);
        self.registers[0xF] = if collision { 1 } else { 0 };
        self.vram_change = true;
        assert(self@ =~~= old(self)@.op_dxyn(x as int, y as int, n as int).state);
        Ok(())
    }

    /// Whether the key numbered `key` is down; no key has a number above 15.
    fn key_down(&self, key: u8) -> (down: bool)
        requires
            self.wf(),
        ensures
            down == self@.key_down(key as int),
    {
        key < 16 && self.keypad[key as usize]
    }

    /// `Ex9E`: skips the next instruction if the key numbered `Vx` is down.
    fn op_ex9e(&mut self, x: usize)
        requires
            old(self).fetched(),
            x < 16,
        ensures
            final(self).wf(),
            final(self)@ == old(self)@.op_ex9e(x as int),
    {
        if self.key_down(self.registers[x]) {
            self.pc += 2;
        }
    }

    /// `ExA1`: skips the next instruction if the key numbered `Vx` is not
    /// down.
    fn op_exa1(&mut self, x: usize)
        requires
            old(self).fetched(),
            x < 16,
        ensures
            final(self).wf(),
            final(self)@ == old(self)@.op_exa1(x as int),
    {
        if !self.key_down(self.registers[x]) {
            self.pc += 2;
        }
    }

    /// `Fx07`: loads the delay timer into `Vx`.
    fn op_fx07(&mut self, x: usize)
        requires
            old(self).wf(),
            x < 16,
        ensures
            final(self).wf(),
            final(self)@ == old(self)@.op_fx07(x as int),
    {
        self.registers[x] = self.delay_timer;
    }

    /// `Fx0A`: the blocking key read, one poll of it.
    fn op_fx0a(&mut self, x: usize)
        requires
            old(self).fetched(),
            x < 16,
        ensures
            final(self).wf(),
            final(self)@ == old(self)@.op_fx0a(x as int),
    {
        match self.wait {
            WaitState::AwaitingRelease(key) => {
                if self.keypad[key as usize] {
                    self.pc -= 2;
                } else {
                    self.wait = WaitState::Running;
                    self.registers[x] = key;
                }
            },
            _ => {
                let found: Option<u8> = highest_key_down(&self.keypad);
                match found {
                    Some(key) => {
                        self.wait = WaitState::AwaitingRelease(key);
                    },
                    None => {
                        self.wait = WaitState::AwaitingPress;
                    },
                }
                self.pc -= 2;
            },
        }
    }

    /// `Fx15`: loads `Vx` into the delay timer.
    fn op_fx15(&mut self, x: usize)
        requires
            old(self).wf(),
            x < 16,
        ensures
            final(self).wf(),
            final(self)@ == old(self)@.op_fx15(x as int),
    {
        self.delay_timer = self.registers[x];
    }

    /// `Fx18`: loads `Vx` into the sound timer.
    fn op_fx18(&mut self, x: usize)
        requires
            old(self).wf(),
            x < 16,
        ensures
            final(self).wf(),
            final(self)@ == old(self)@.op_fx18(x as int),
    {
        self.sound_timer = self.registers[x];
    }

    /// `Fx1E`: adds `Vx` to the index register, unless the sum would pass
    /// the last address.
    fn op_fx1e(&mut self, x: usize) -> (res: Result<(), Chip8Error>)
        requires
            old(self).wf(),
            x < 16,
        ensures
            final(self).wf(),
            final(self)@ == old(self)@.op_fx1e(x as int).state,
            res == old(self)@.op_fx1e(x as int).result,
    {
        let sum: u16 = self.index + self.registers[x] as u16;
        if sum > 4095 {
            return Err(Chip8Error::AddressOutOfBounds);
        }
        self.index = sum;
        Ok(())
    }

    /// `Fx29`: points the index register at the glyph for `Vx`.
    fn op_fx29(&mut self, x: usize)
        requires
            old(self).wf(),
            x < 16,
        ensures
            final(self).wf(),
            final(self)@ == old(self)@.op_fx29(x as int),
    {
        self.index = FONT_START + 5 * (self.registers[x] as u16);
    }

    /// `Fx33`: stores the three decimal digits of `Vx` at the index
    /// register onward.
    fn op_fx33(&mut self, x: usize) -> (res: Result<(), Chip8Error>)
        requires
            old(self).wf(),
            x < 16,
        ensures
            final(self).wf(),
            final(self)@ == old(self)@.op_fx33(x as int).state,
            res == old(self)@.op_fx33(x as int).result,
    {
        if self.index > 4093 {
            return Err(Chip8Error::AddressOutOfBounds);
        }
        let at: usize = self.index as usize;
        let value: u8 = self.registers[x];
        self.memory[at] = value / 100;
        self.memory[at + 1] = (value / 10) % 10;
        self.memory[at + 2] = value % 10;
        Ok(())
    }

    /// `Fx55`: stores `V0` to `Vx` at the index register onward and moves
    /// the index register behind them.
    fn op_fx55(&mut self, x: usize) -> (res: Result<(), Chip8Error>)
        requires
            old(self).wf(),
            x < 16,
        ensures
            final(self).wf(),
            final(self)@ == old(self)@.op_fx55(x as int).state,
            res == old(self)@.op_fx55(x as int).result,
    {
        let base: usize = self.index as usize;
        if base + x > 4095 {
            return Err(Chip8Error::AddressOutOfBounds);
        }
        store_registers(&mut self.memory, &self.registers, base, x);
        self.index = self.index + x as u16 + 1;
        Ok(())
    }

    /// `Fx65`: loads `V0` to `Vx` from the index register onward and moves
    /// the index register behind them.
    fn op_fx65(&mut self, x: usize) -> (res: Result<(), Chip8Error>)
        requires
            old(self).wf(),
            x < 16,
        ensures
            final(self).wf(),
            final(self)@ == old(self)@.op_fx65(x as int).state,
            res == old(self)@.op_fx65(x as int).result,
    {
        let base: usize = self.index as usize;
        if base + x > 4095 {
            return Err(Chip8Error::AddressOutOfBounds);
        }
        load_registers(&mut self.registers, &self.memory, base, x);
        self.index = self.index + x as u16 + 1;
        Ok(())
    }
}

/// The highest key that is down, if any.
fn highest_key_down(keypad: &[bool; 16]) -> (found: Option<u8>)
    ensures
        found == last_pressed(keypad@, 16),
        found matches Some(key) ==> key < 16,
{
    let mut found: Option<u8> = None;
    let mut i: u8 = 0;
    while i < 16
        invariant
            i <= 16,
            found == last_pressed(keypad@, i as int),
            found matches Some(key) ==> key < 16,
        decreases 16 - i,
    {
        if keypad[i as usize] {
            found = Some(i);
        }
        i += 1;
    }
    found
}

/// Copies registers 0 to `x` to `memory[base..=base + x]`.
fn store_registers(memory: &mut [u8; 4096], registers: &[u8; 16], base: usize, x: usize)
    requires
        x < 16,
        base + x <= 4095,
    ensures
        forall|a: int|
            0 <= a < 4096 ==> final(memory)@[a] == if base <= a <= base + x {
                registers@[a - base]
            } else {
                old(memory)@[a]
            },
{
    let mut i: usize = 0;
    while i <= x
        invariant
            i <= x + 1,
            x < 16,
            base + x <= 4095,
            forall|a: int|
                0 <= a < 4096 ==> memory@[a] == if base <= a < base + i {
                    registers@[a - base]
                } else {
                    old(memory)@[a]
                },
        decreases x + 1 - i,
    {
        memory[base + i] = registers[i];
        i += 1;
    }
}

/// Copies `memory[base..=base + x]` to registers 0 to `x`.
fn load_registers(registers: &mut [u8; 16], memory: &[u8; 4096], base: usize, x: usize)
    requires
        x < 16,
        base + x <= 4095,
    ensures
        forall|j: int|
            0 <= j < 16 ==> final(registers)@[j] == if j <= x {
                memory@[base + j]
            } else {
                old(registers)@[j]
            },
{
    let mut i: usize = 0;
    while i <= x
        invariant
            i <= x + 1,
            x < 16,
            base + x <= 4095,
            forall|j: int|
                0 <= j < 16 ==> registers@[j] == if j < i {
                    memory@[base + j]
                } else {
                    old(registers)@[j]
                },
        decreases x + 1 - i,
    {
        registers[i] = memory[base + i];
        i += 1;
    }
}

} // verus!
