//! What holds of the machine in general, proved from the model.
//!
//! The executable functions of [`crate::cpu::CPU`] promise that the machine
//! moves as `Machine::step`, `Machine::run` and `Machine::tick` say. The
//! statements here are about those functions, so they hold of every machine
//! that the executable code can produce.

use vstd::prelude::*;
use crate::instruction::{decode_spec, lemma_decode_wf, Instruction};
use crate::font::FONT_SET;
use crate::machine::{lemma_lowest_key_from, Fault, Machine};
use crate::screen::{lemma_draw_binary, sprite_bit};

verus! {

/// Register addition. The flag register ends as the carry: 1 if the sum of
/// the two register values exceeds 255, 0 if not. The target register,
/// unless it is the flag register itself, ends as the sum modulo 256. The
/// program counter moves on by one instruction.
pub proof fn law_add_carry(m: Machine, x: usize, y: usize, random: u8)
    requires
        m.wf(),
        x < 16,
        y < 16,
    ensures
        ({
            let after = m.execute(Instruction::Add { x, y }, random);
            let sum = m.v[x as int] + m.v[y as int];
            &&& after.v[0xF] == if sum > 255 { 1int } else { 0int }
            &&& x != 0xF ==> after.v[x as int] == sum % 256
            &&& after.pc == m.pc + 2
        }),
{
}

/// Register subtraction, `Vx - Vy`. The target ends as `Vx - Vy` modulo 256
/// on the values before the instruction, whichever registers they come
/// from. Unless the target is the flag register itself, the flag register
/// ends as 1 if `Vx > Vy` held before the instruction and as 0 if not. The
/// program counter moves on by one instruction.
pub proof fn law_subtract_borrow(m: Machine, x: usize, y: usize, random: u8)
    requires
        m.wf(),
        x < 16,
        y < 16,
    ensures
        ({
            let after = m.execute(Instruction::Sub { x, y }, random);
            &&& after.v[x as int] == (m.v[x as int] - m.v[y as int]) % 256
            &&& x != 0xF ==> after.v[0xF] == if m.v[x as int] > m.v[y as int] { 1int } else { 0int }
            &&& after.pc == m.pc + 2
        }),
{
}

/// Reverse subtraction, `Vy - Vx`: as `law_subtract_borrow`, with the
/// operands exchanged.
pub proof fn law_subtract_from_borrow(m: Machine, x: usize, y: usize, random: u8)
    requires
        m.wf(),
        x < 16,
        y < 16,
    ensures
        ({
            let after = m.execute(Instruction::SubFrom { x, y }, random);
            &&& after.v[x as int] == (m.v[y as int] - m.v[x as int]) % 256
            &&& x != 0xF ==> after.v[0xF] == if m.v[y as int] > m.v[x as int] { 1int } else { 0int }
            &&& after.pc == m.pc + 2
        }),
{
}

/// The shifts. A right shift leaves half the old value in the target, a
/// left shift twice the old value modulo 256. Unless the target is the flag
/// register itself, the flag register ends as the bit shifted out: the old
/// lowest bit for a right shift, the old highest bit for a left shift.
pub proof fn law_shift(m: Machine, x: usize, random: u8)
    requires
        m.wf(),
        x < 16,
    ensures
        ({
            let right = m.execute(Instruction::ShiftRight { x }, random);
            let left = m.execute(Instruction::ShiftLeft { x }, random);
            &&& right.v[x as int] == m.v[x as int] / 2
            &&& left.v[x as int] == (m.v[x as int] * 2) % 256
            &&& x != 0xF ==> right.v[0xF] == m.v[x as int] % 2
            &&& x != 0xF ==> left.v[0xF] == m.v[x as int] / 128
        }),
{
}

/// Glyph lookup: the index register ends at `0x50 + 5 * Vx`. Where memory
/// still holds the glyph table that a new machine holds, the five bytes
/// from there on are the glyph of digit `Vx`.
pub proof fn law_glyph(m: Machine, x: usize, k: int, random: u8)
    requires
        m.wf(),
        x < 16,
        m.v[x as int] < 16,
        0 <= k < 5,
        m.ram.subrange(0x50, 0xA0) == FONT_SET@,
    ensures
        ({
            let after = m.execute(Instruction::Glyph { x }, random);
            &&& after.i == 0x50 + 5 * m.v[x as int]
            &&& after.ram[after.i + k] == FONT_SET[5 * m.v[x as int] + k]
        }),
{
    let at = 5 * m.v[x as int] + k;
    assert(m.ram.subrange(0x50, 0xA0)[at] == m.ram[0x50 + at]);
}

/// Where a sprite lands: bit `bit` of sprite row `row` is XORed into the
/// pixel in row `(Vy + row) mod 32`, column `(Vx + bit) mod 64`, so a sprite
/// that reaches beyond an edge goes on at the opposite edge; and a pixel
/// that no sprite bit falls on stays as it is.
pub proof fn law_draw_wraps(m: Machine, x: usize, y: usize, n: usize, random: u8)
    requires
        m.wf(),
        x < 16,
        y < 16,
        n < 16,
    ensures
        ({
            let after = m.execute(Instruction::Draw { x, y, n }, random);
            let vx = m.v[x as int];
            let vy = m.v[y as int];
            &&& forall|row: int, bit: int|
                0 <= row < n && 0 <= bit < 8 ==> #[trigger] after.vram[(vy + row) % 32][(vx + bit)
                    % 64] == m.vram[(vy + row) % 32][(vx + bit) % 64] ^ sprite_bit(
                    m.ram[m.i + row],
                    bit,
                )
            &&& forall|r: int, c: int|
                0 <= r < 32 && 0 <= c < 64 && !((r - vy) % 32 < n && (c - vx) % 64 < 8)
                    ==> #[trigger] after.vram[r][c] == m.vram[r][c]
        }),
{
    let after = m.execute(Instruction::Draw { x, y, n }, random);
    let vx = m.v[x as int] as int;
    let vy = m.v[y as int] as int;
    assert forall|row: int, bit: int| 0 <= row < n && 0 <= bit < 8 implies #[trigger] after.vram[(vy
        + row) % 32][(vx + bit) % 64] == m.vram[(vy + row) % 32][(vx + bit) % 64] ^ sprite_bit(
        m.ram[m.i + row],
        bit,
    ) by {
        let r = (vy + row) % 32;
        let c = (vx + bit) % 64;
        assert((r - vy) % 32 == row && (c - vx) % 64 == bit);
        assert(after.vram[r][c] == m.drawn_pixel(vx, vy, n as nat, r, c));
    }
    assert forall|r: int, c: int|
        0 <= r < 32 && 0 <= c < 64 && !((r - vy) % 32 < n && (c - vx) % 64 < 8) implies #[trigger] after.vram[r][c]
        == m.vram[r][c] by {
        assert(after.vram[r][c] == m.drawn_pixel(vx, vy, n as nat, r, c));
    }
}

/// Drawing the same sprite twice at the same place restores the
/// framebuffer, where neither coordinate comes from the flag register. The
/// flag after the second draw speaks of the second draw alone: it is 1 if a
/// set bit of the sprite met a pixel that was lit after the first draw, and
/// 0 if none did.
pub proof fn law_draw_twice(m: Machine, x: usize, y: usize, n: usize, r1: u8, r2: u8)
    requires
        m.wf(),
        x < 15,
        y < 15,
        n < 16,
    ensures
        ({
            let ins = Instruction::Draw { x, y, n };
            let once = m.execute(ins, r1);
            let twice = once.execute(ins, r2);
            &&& twice.vram == m.vram
            &&& twice.v[0xF] == if once.collides(m.v[x as int] as int, m.v[y as int] as int, n as nat) {
                1int
            } else {
                0int
            }
            &&& once.redraw && twice.redraw
        }),
{
    let ins = Instruction::Draw { x, y, n };
    let once = m.execute(ins, r1);
    let twice = once.execute(ins, r2);
    assert forall|r: int, c: int| 0 <= r < 32 && 0 <= c < 64 implies twice.vram[r][c]
        == m.vram[r][c] by {
        let pixel = m.vram[r][c];
        let color = sprite_bit(
            m.ram[m.i + (r - m.v[y as int]) % 32],
            (c - m.v[x as int]) % 64,
        );
        assert((pixel ^ color) ^ color == pixel) by (bit_vector);
    }
    assert(twice.vram =~~= m.vram);
}

/// A call followed at once by a return: the program counter stands behind
/// the call and the stack pointer where it was. Neither instruction is
/// refused where the stack has a free slot.
pub proof fn law_call_return(m: Machine, nnn: usize, r1: u8, r2: u8)
    requires
        m.wf(),
        m.sp < 16,
        m.pc + 2 <= usize::MAX,
    ensures
        ({
            let called = m.step(Instruction::Call { nnn }, r1);
            let returned = called.step(Instruction::Return, r2);
            &&& m.fault(Instruction::Call { nnn }) is None
            &&& called.fault(Instruction::Return) is None
            &&& called.pc == nnn
            &&& called.sp == m.sp + 1
            &&& returned.pc == m.pc + 2
            &&& returned.sp == m.sp
        }),
{
}

/// While the machine waits and no key is down, a tick changes nothing but
/// the keypad snapshot and the redraw flag: no register, no timer, no
/// program counter moves, no fault comes, and the machine goes on waiting.
pub proof fn law_wait_holds(m: Machine, keypad: Seq<bool>, random: u8)
    requires
        m.wf(),
        m.waiting_keypad,
        keypad.len() == 16,
        forall|k: int| 0 <= k < 16 ==> !keypad[k],
    ensures
        m.tick(keypad, random) == m.latch(keypad),
        m.tick(keypad, random).v == m.v,
        m.tick(keypad, random).delay_timer == m.delay_timer,
        m.tick(keypad, random).sound_timer == m.sound_timer,
        m.tick(keypad, random).waiting_keypad,
        m.tick_fault(keypad) is None,
{
    lemma_lowest_key_from(keypad, 0);
}

/// While the machine waits, a tick with key `key` down and no lower key
/// down puts `key` in the waiting register and ends the wait. No timer and
/// no program counter moves in that tick; the next tick decodes again.
pub proof fn law_wait_resolves(m: Machine, keypad: Seq<bool>, key: int, random: u8)
    requires
        m.wf(),
        m.waiting_keypad,
        m.waiting_keypad_register < 16,
        keypad.len() == 16,
        0 <= key < 16,
        keypad[key],
        forall|k: int| 0 <= k < key ==> !keypad[k],
    ensures
        ({
            let after = m.tick(keypad, random);
            &&& after.v == m.v.update(m.waiting_keypad_register as int, key as u8)
            &&& !after.waiting_keypad
            &&& after.delay_timer == m.delay_timer
            &&& after.sound_timer == m.sound_timer
            &&& after.pc == m.pc
            &&& m.tick_fault(keypad) is None
            &&& forall|next: Seq<bool>, r: u8|
                after.pc + 1 < 4096 ==> #[trigger] after.tick(next, r) == after.latch(
                    next,
                ).count_down().run(after.opcode(), r)
        }),
{
    lemma_lowest_key_from(keypad, 0);
}

/// A timer never falls below zero, and falls by one at most.
pub proof fn law_count_down(m: Machine)
    ensures
        m.count_down().delay_timer == if m.delay_timer == 0 { 0int } else { m.delay_timer - 1 },
        m.count_down().sound_timer == if m.sound_timer == 0 { 0int } else { m.sound_timer - 1 },
{
}

/// An instruction that the machine executes keeps its invariants: pixels
/// stay 0 or 1, the stack pointer within the stack, the waiting register
/// among the registers.
pub proof fn law_execute_keeps_inv(m: Machine, ins: Instruction, random: u8)
    requires
        m.inv(),
        ins.wf(),
        m.fault(ins) is None,
    ensures
        m.execute(ins, random).inv(),
{
    if let Instruction::Draw { x, y, n } = ins {
        lemma_draw_binary(m, x as int, y as int, n as nat);
    }
}

/// A tick keeps the machine's invariants, fault or none.
pub proof fn law_tick_keeps_inv(m: Machine, keypad: Seq<bool>, random: u8)
    requires
        m.inv(),
        keypad.len() == 16,
    ensures
        m.tick(keypad, random).inv(),
{
    if m.waiting_keypad {
        lemma_lowest_key_from(keypad, 0);
    } else if m.pc + 1 < 4096 {
        let counted = m.latch(keypad).count_down();
        match decode_spec(m.opcode()) {
            Some(ins) => {
                lemma_decode_wf(m.opcode());
                if counted.fault(ins) is None {
                    law_execute_keeps_inv(counted, ins, random);
                }
            },
            None => {},
        }
    }
}

/// Loading a program image keeps the machine's invariants.
pub proof fn law_load_keeps_inv(m: Machine, image: Seq<u8>)
    requires
        m.inv(),
    ensures
        m.load(image).inv(),
        m.load(image).pc == 0x200,
{
}

/// Whenever a tick changes the framebuffer, the redraw flag is up after it.
pub proof fn law_redraw(m: Machine, keypad: Seq<bool>, random: u8)
    requires
        m.wf(),
        keypad.len() == 16,
    ensures
        m.tick(keypad, random).vram != m.vram ==> m.tick(keypad, random).redraw,
{
}

/// After a tick the keypad snapshot is the keypad that the tick was given,
/// whatever the tick did otherwise.
pub proof fn law_keypad_snapshot(m: Machine, keypad: Seq<bool>, random: u8)
    requires
        m.wf(),
        keypad.len() == 16,
    ensures
        m.tick(keypad, random).keypad == keypad,
{
}

/// An instruction that the machine refuses changes nothing, the program
/// counter included.
pub proof fn law_fault_changes_nothing(m: Machine, ins: Instruction, random: u8)
    requires
        m.fault(ins) is Some,
    ensures
        m.step(ins, random) == m,
{
}

/// An opcode outside the instruction table is reported and changes nothing:
/// the program counter stays on it.
pub proof fn law_unknown_opcode(m: Machine, opcode: u16, random: u8)
    requires
        decode_spec(opcode) is None,
    ensures
        m.run(opcode, random) == m,
        m.run_fault(opcode) == Some(Fault::UnknownOpcode(opcode)),
{
}

} // verus!
