//! Laws of the instruction set, proved of the model.

use vstd::arithmetic::div_mod::lemma_fundamental_div_mod_converse;
use vstd::prelude::*;
use crate::fault::Chip8Error;
use crate::machine::{
    Machine, Outcome, collides, draw, is_instruction, last_pressed, opcode_class, opcode_kk,
    opcode_n, opcode_nnn, opcode_x, opcode_y, sprite_hits,
};

verus! {

/// Whether `display` has the shape of a display: 32 rows of 64 pixels.
pub open spec fn display_shaped(display: Seq<Seq<bool>>) -> bool {
    display.len() == 32 && forall|row: int| 0 <= row < 32 ==> (#[trigger] display[row]).len() == 64
}

/// Executing an instruction keeps the machine well formed, whether the
/// instruction is carried out or faults.
pub proof fn lemma_step_keeps_wf(m: Machine, random: u8)
    requires
        m.wf(),
    ensures
        m.step(random).state.wf(),
{
    if m.fetch().is_some() {
        let opcode: int = m.fetch().unwrap();
        let fetched: Machine = Machine { pc: m.pc + 2, ..m };
        if opcode_class(opcode) == 0x8 {
            lemma_arithmetic_keeps_wf(fetched, opcode, random);
        } else if opcode_class(opcode) == 0xF {
            lemma_misc_keeps_wf(fetched, opcode, random);
        }
    }
}

/// The register-to-register instructions keep the machine well formed.
proof fn lemma_arithmetic_keeps_wf(m: Machine, opcode: int, random: u8)
    requires
        m.wf(),
        0 <= opcode <= 0xFFFF,
        opcode_class(opcode) == 0x8,
    ensures
        m.execute(opcode, random).state.wf(),
{
}

/// The timer, key, index and memory instructions keep the machine well
/// formed.
proof fn lemma_misc_keeps_wf(m: Machine, opcode: int, random: u8)
    requires
        m.wf(),
        2 <= m.pc,
        0 <= opcode <= 0xFFFF,
        opcode_class(opcode) == 0xF,
    ensures
        m.execute(opcode, random).state.wf(),
{
    lemma_last_pressed(m.keypad, 16);
}

/// The key that `last_pressed` finds is down, lies below the bound, and
/// no key between it and the bound is down; it finds none only if no key
/// below the bound is down.
pub proof fn lemma_last_pressed(keypad: Seq<bool>, below: int)
    requires
        0 <= below <= 16,
    ensures
        match last_pressed(keypad, below) {
            Some(key) => key < below && keypad[key as int] && forall|k: int|
                key < k < below ==> !keypad[k],
            None => forall|k: int| 0 <= k < below ==> !keypad[k],
        },
    decreases below,
{
    if below > 0 && !keypad[below - 1] {
        lemma_last_pressed(keypad, below - 1);
    }
}

/// Only `Cxkk` depends on the random byte: before any other word, every
/// random byte gives the same outcome.
pub proof fn lemma_random_only_for_cxkk(m: Machine, first: u8, second: u8)
    requires
        m.wf(),
        !m.draws_random(),
    ensures
        m.step(first) == m.step(second),
{
}

/// The instruction word with the nibbles `class`, `x`, `y` and `n`.
pub open spec fn word(class: int, x: int, y: int, n: int) -> int {
    class * 0x1000 + x * 0x100 + y * 0x10 + n
}

/// The instruction word with the nibbles `class` and `x` and the low
/// byte `kk`.
pub open spec fn word_kk(class: int, x: int, kk: u8) -> int {
    class * 0x1000 + x * 0x100 + kk
}

/// Decoding gives back the nibbles that a word was made of.
pub proof fn lemma_word_decodes(class: int, x: int, y: int, n: int)
    requires
        0 <= class < 16,
        0 <= x < 16,
        0 <= y < 16,
        0 <= n < 16,
    ensures
        0 <= word(class, x, y, n) <= 0xFFFF,
        opcode_class(word(class, x, y, n)) == class,
        opcode_x(word(class, x, y, n)) == x,
        opcode_y(word(class, x, y, n)) == y,
        opcode_n(word(class, x, y, n)) == n,
        opcode_kk(word(class, x, y, n)) == y * 0x10 + n,
        opcode_nnn(word(class, x, y, n)) == x * 0x100 + y * 0x10 + n,
{
    let w: int = word(class, x, y, n);
    lemma_fundamental_div_mod_converse(w, 0x1000, class, x * 0x100 + y * 0x10 + n);
    lemma_fundamental_div_mod_converse(w, 0x100, class * 0x10 + x, y * 0x10 + n);
    lemma_fundamental_div_mod_converse(w, 0x10, class * 0x100 + x * 0x10 + y, n);
    lemma_fundamental_div_mod_converse(class * 0x10 + x, 0x10, class, x);
    lemma_fundamental_div_mod_converse(class * 0x100 + x * 0x10 + y, 0x10, class * 0x10 + x, y);
}

/// Decoding gives back the nibbles and the low byte that a word was
/// made of.
pub proof fn lemma_word_kk_decodes(class: int, x: int, kk: u8)
    requires
        0 <= class < 16,
        0 <= x < 16,
    ensures
        0 <= word_kk(class, x, kk) <= 0xFFFF,
        opcode_class(word_kk(class, x, kk)) == class,
        opcode_x(word_kk(class, x, kk)) == x,
        opcode_kk(word_kk(class, x, kk)) == kk,
{
    let w: int = word_kk(class, x, kk);
    lemma_fundamental_div_mod_converse(w, 0x1000, class, x * 0x100 + kk);
    lemma_fundamental_div_mod_converse(w, 0x100, class * 0x10 + x, kk as int);
    lemma_fundamental_div_mod_converse(class * 0x10 + x, 0x10, class, x);
}

/// `7xkk` leaves `(Vx + kk) mod 256` in `Vx`, and leaves the flag register
/// alone unless `Vx` is the flag register itself.
pub proof fn lemma_add_immediate_wraps(m: Machine, x: int, kk: u8, random: u8)
    requires
        m.wf(),
        0 <= x < 16,
    ensures
        ({
            let after: Outcome = m.execute(word_kk(0x7, x, kk), random);
            &&& after.result == Ok::<(), Chip8Error>(())
            &&& after.state.registers[x] == (m.registers[x] + kk) % 256
            &&& x != 15 ==> after.state.registers[15] == m.registers[15]
        }),
{
    lemma_word_kk_decodes(0x7, x, kk);
}

/// `8xy4` leaves `(Vx + Vy) mod 256` in `Vx`; unless `Vx` is the flag
/// register itself, the flag is 1 if the sum is above 255 and 0 if not.
pub proof fn lemma_add_sets_carry(m: Machine, x: int, y: int, random: u8)
    requires
        m.wf(),
        0 <= x < 16,
        0 <= y < 16,
    ensures
        ({
            let after: Outcome = m.execute(word(0x8, x, y, 0x4), random);
            let sum: int = m.registers[x] + m.registers[y];
            &&& after.result == Ok::<(), Chip8Error>(())
            &&& after.state.registers[x] == sum % 256
            &&& x != 15 ==> after.state.registers[15] == (if sum > 255 { 1u8 } else { 0u8 })
        }),
{
    lemma_word_decodes(0x8, x, y, 0x4);
}

/// `8xy5` leaves `(Vx - Vy) mod 256` in `Vx`; unless `Vx` is the flag
/// register itself, the flag is 1 if `Vx > Vy` held before and 0 if not,
/// so 0 when the two are equal.
pub proof fn lemma_subtract_sets_no_borrow(m: Machine, x: int, y: int, random: u8)
    requires
        m.wf(),
        0 <= x < 16,
        0 <= y < 16,
    ensures
        ({
            let after: Outcome = m.execute(word(0x8, x, y, 0x5), random);
            let vx: u8 = m.registers[x];
            let vy: u8 = m.registers[y];
            &&& after.result == Ok::<(), Chip8Error>(())
            &&& after.state.registers[x] == (vx - vy) % 256
            &&& x != 15 ==> after.state.registers[15] == (if vx > vy { 1u8 } else { 0u8 })
        }),
{
    lemma_word_decodes(0x8, x, y, 0x5);
}

/// `8xy7` leaves `(Vy - Vx) mod 256` in `Vx`; unless `Vx` is the flag
/// register itself, the flag is 1 if `Vy > Vx` held before and 0 if not,
/// so 0 when the two are equal.
pub proof fn lemma_reverse_subtract_sets_no_borrow(m: Machine, x: int, y: int, random: u8)
    requires
        m.wf(),
        0 <= x < 16,
        0 <= y < 16,
    ensures
        ({
            let after: Outcome = m.execute(word(0x8, x, y, 0x7), random);
            let vx: u8 = m.registers[x];
            let vy: u8 = m.registers[y];
            &&& after.result == Ok::<(), Chip8Error>(())
            &&& after.state.registers[x] == (vy - vx) % 256
            &&& x != 15 ==> after.state.registers[15] == (if vy > vx { 1u8 } else { 0u8 })
        }),
{
    lemma_word_decodes(0x8, x, y, 0x7);
}

/// Drawing a sprite a second time at the same place restores the display;
/// the second drawing turns a lit pixel off exactly if the sprite hits a
/// pixel that was off at the start.
pub proof fn lemma_draw_twice_restores(display: Seq<Seq<bool>>, sprite: Seq<u8>, vx: int, vy: int)
    requires
        display_shaped(display),
    ensures
        draw(draw(display, sprite, vx, vy), sprite, vx, vy) == display,
        collides(draw(display, sprite, vx, vy), sprite, vx, vy) <==> exists|col: int, row: int|
            0 <= col < 64 && 0 <= row < 32 && !(#[trigger] display[row][col]) && sprite_hits(
                sprite,
                vx,
                vy,
                col,
                row,
            ),
{
    let once: Seq<Seq<bool>> = draw(display, sprite, vx, vy);
    assert(draw(once, sprite, vx, vy) =~~= display);
    if collides(once, sprite, vx, vy) {
        let (col, row) = choose|col: int, row: int|
            0 <= col < 64 && 0 <= row < 32 && #[trigger] once[row][col] && sprite_hits(
                sprite,
                vx,
                vy,
                col,
                row,
            );
        assert(!display[row][col] && sprite_hits(sprite, vx, vy, col, row));
    }
    if exists|col: int, row: int|
        0 <= col < 64 && 0 <= row < 32 && !(#[trigger] display[row][col]) && sprite_hits(
            sprite,
            vx,
            vy,
            col,
            row,
        ) {
        let (col, row) = choose|col: int, row: int|
            0 <= col < 64 && 0 <= row < 32 && !(#[trigger] display[row][col]) && sprite_hits(
                sprite,
                vx,
                vy,
                col,
                row,
            );
        assert(once[row][col] && sprite_hits(sprite, vx, vy, col, row));
    }
}

/// `Dxyn` executed twice, with `Vx` and `Vy` the same both times, restores
/// the display. The flag after the second execution is 1 exactly if the
/// sprite hits a pixel that was off at the start.
pub proof fn lemma_dxyn_twice_restores(m: Machine, x: int, y: int, n: int, random: u8)
    requires
        m.wf(),
        0 <= x < 16,
        0 <= y < 16,
        0 <= n < 16,
        m.index + n <= 4096,
        ({
            let once: Machine = m.execute(word(0xD, x, y, n), random).state;
            once.registers[x] == m.registers[x] && once.registers[y] == m.registers[y]
        }),
    ensures
        ({
            let once: Outcome = m.execute(word(0xD, x, y, n), random);
            let twice: Outcome = once.state.execute(word(0xD, x, y, n), random);
            &&& once.result == Ok::<(), Chip8Error>(())
            &&& twice.result == Ok::<(), Chip8Error>(())
            &&& twice.state.display == m.display
            &&& twice.state.registers[15] == 1 <==> exists|col: int, row: int|
                0 <= col < 64 && 0 <= row < 32 && !(#[trigger] m.display[row][col]) && sprite_hits(
                    m.memory.subrange(m.index, m.index + n),
                    m.registers[x] as int,
                    m.registers[y] as int,
                    col,
                    row,
                )
        }),
{
    lemma_word_decodes(0xD, x, y, n);
    lemma_draw_twice_restores(
        m.display,
        m.memory.subrange(m.index, m.index + n),
        m.registers[x] as int,
        m.registers[y] as int,
    );
}

/// `Fx55` followed by `Fx65` brings `V0` to `Vx` back from memory, once
/// the index register is set back to where the store began: whatever the
/// registers hold by then, the load restores the stored values. Each of
/// the two leaves the index register `x + 1` above where it began.
pub proof fn lemma_store_load_round_trip(m: Machine, later: Machine, x: int, random: u8)
    requires
        m.wf(),
        later.wf(),
        0 <= x < 16,
        m.index + x <= 4095,
        later.memory == m.execute(word_kk(0xF, x, 0x55), random).state.memory,
        later.index == m.index,
    ensures
        ({
            let stored: Outcome = m.execute(word_kk(0xF, x, 0x55), random);
            let loaded: Outcome = later.execute(word_kk(0xF, x, 0x65), random);
            &&& stored.result == Ok::<(), Chip8Error>(())
            &&& stored.state.index == m.index + x + 1
            &&& loaded.result == Ok::<(), Chip8Error>(())
            &&& loaded.state.index == m.index + x + 1
            &&& forall|j: int| 0 <= j <= x ==> loaded.state.registers[j] == m.registers[j]
        }),
{
    lemma_word_kk_decodes(0xF, x, 0x55);
    lemma_word_kk_decodes(0xF, x, 0x65);
}

/// A call followed at once by a return: the machine is back as it was
/// before the call, but for the program counter, which stands at the
/// instruction behind the call.
pub proof fn lemma_call_then_return(m: Machine, nnn: int, first: u8, second: u8)
    requires
        m.wf(),
        m.stack.len() < 16,
        0 <= nnn <= 4094,
        m.fetch() == Some(0x2000 + nnn),
        m.memory[nnn] == 0x00,
        m.memory[nnn + 1] == 0xEE,
    ensures
        m.step(first).result == Ok::<(), Chip8Error>(()),
        m.step(first).state.pc == nnn,
        m.step(first).state.step(second) == Outcome::done(Machine { pc: m.pc + 2, ..m }),
{
    let called: Machine = m.step(first).state;
    assert(called.fetch() == Some(0x00EEint));
    assert(called.stack.drop_last() =~= m.stack);
}

/// A word outside the instruction table, and only such a word, yields
/// `UnknownOpcode`; the machine then stands behind the word with nothing
/// else changed.
pub proof fn lemma_unknown_opcode(m: Machine, random: u8)
    requires
        m.wf(),
        m.fetch().is_some(),
    ensures
        m.step(random).result == Err::<(), Chip8Error>(Chip8Error::UnknownOpcode)
            <==> !is_instruction(m.fetch().unwrap()),
        !is_instruction(m.fetch().unwrap()) ==> m.step(random).state == (Machine {
            pc: m.pc + 2,
            ..m
        }),
{
}

} // verus!
