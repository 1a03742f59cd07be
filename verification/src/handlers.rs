//! The instruction handlers: one function per instruction, each returning
//! what the instruction does to the program counter.
//!
//! A handler's `requires` names the states in which the machine can execute
//! the instruction; [`CPU::exec_opcode`] tests for them and reports a fault
//! where they do not hold, instead of calling the handler.

use vstd::prelude::*;
use crate::cpu::CPU;
use crate::font::{CHIP8_GFX_HEIGHT, CHIP8_GFX_WIDTH, FONT_BASE};
use crate::machine::{skip_if, Machine, ProgramCounter};
use crate::random::random_byte;
use crate::screen::lemma_plot_rows_is_draw;

verus! {

impl CPU {
    /// `00E0`: clears the framebuffer.
    pub fn op_00e0(&mut self) -> (effect: ProgramCounter)
        ensures
            final(self)@ == old(self)@.clear(),
            effect == ProgramCounter::Next,
    {
        assert(self@ =~~= self@.clear_to(0, 0));
        let mut y: usize = 0;
        while y < CHIP8_GFX_HEIGHT
            invariant
                y <= 32,
                self@ == old(self)@.clear_to(y as int, 0),
            decreases 32 - y,
        {
            let mut x: usize = 0;
            while x < CHIP8_GFX_WIDTH
                invariant
                    y < 32,
                    x <= 64,
                    self@ == old(self)@.clear_to(y as int, x as int),
                decreases 64 - x,
            {
                let ghost before = self@;
                self.vram[y][x] = 0;
                assert(self@ =~~= (Machine {
                    vram: before.vram.update(y as int, before.vram[y as int].update(x as int, 0u8)),
                    ..before
                }));
                assert(self@ =~~= old(self)@.clear_to(y as int, x + 1));
                x += 1;
            }
            assert(self@ =~~= old(self)@.clear_to(y + 1, 0));
            y += 1;
        }
        self.redraw = true;
        assert(self@ =~~= old(self)@.clear());
        ProgramCounter::Next
    }

    /// `00EE`: pops the return address; execution continues behind the call
    /// that pushed it.
    pub fn op_00ee(&mut self) -> (effect: ProgramCounter)
        requires
            0 < old(self).sp <= 16,
            old(self).stack[old(self).sp - 1] + 2 <= usize::MAX,
        ensures
            final(self)@ == old(self)@.pop(),
            effect == ProgramCounter::Jump((old(self).stack[old(self).sp - 1] + 2) as usize),
    {
        self.sp -= 1;
        let address: usize = self.stack[self.sp] + 2;
        ProgramCounter::Jump(address)
    }

    /// `1nnn`: jumps to `nnn`.
    pub fn op_1nnn(&mut self, nnn: usize) -> (effect: ProgramCounter)
        ensures
            final(self)@ == old(self)@,
            effect == ProgramCounter::Jump(nnn),
    {
        ProgramCounter::Jump(nnn)
    }

    /// `2nnn`: pushes the address of this call and jumps to `nnn`.
    pub fn op_2nnn(&mut self, nnn: usize) -> (effect: ProgramCounter)
        requires
            old(self).sp < 16,
        ensures
            final(self)@ == old(self)@.push(),
            effect == ProgramCounter::Jump(nnn),
    {
        self.stack[self.sp] = self.pc;
        self.sp += 1;
        ProgramCounter::Jump(nnn)
    }

    /// `3xkk`: skips the next instruction if `Vx == kk`.
    pub fn op_3xkk(&mut self, x: usize, kk: u8) -> (effect: ProgramCounter)
        requires
            x < 16,
        ensures
            final(self)@ == old(self)@,
            effect == skip_if(old(self).v[x as int] == kk),
    {
        if self.v[x] == kk {
            ProgramCounter::Skip
        } else {
            ProgramCounter::Next
        }
    }

    /// `4xkk`: skips the next instruction if `Vx != kk`.
    pub fn op_4xkk(&mut self, x: usize, kk: u8) -> (effect: ProgramCounter)
        requires
            x < 16,
        ensures
            final(self)@ == old(self)@,
            effect == skip_if(old(self).v[x as int] != kk),
    {
        if self.v[x] != kk {
            ProgramCounter::Skip
        } else {
            ProgramCounter::Next
        }
    }

    /// `5xy0`: skips the next instruction if `Vx == Vy`.
    pub fn op_5xy0(&mut self, x: usize, y: usize) -> (effect: ProgramCounter)
        requires
            x < 16,
            y < 16,
        ensures
            final(self)@ == old(self)@,
            effect == skip_if(old(self).v[x as int] == old(self).v[y as int]),
    {
        if self.v[x] == self.v[y] {
            ProgramCounter::Skip
        } else {
            ProgramCounter::Next
        }
    }

    /// `6xkk`: `Vx = kk`.
    pub fn op_6xkk(&mut self, x: usize, kk: u8) -> (effect: ProgramCounter)
        requires
            x < 16,
        ensures
            final(self)@ == old(self)@.set(x as int, kk),
            effect == ProgramCounter::Next,
    {
        self.v[x] = kk;
        ProgramCounter::Next
    }

    /// `7xkk`: `Vx = (Vx + kk) mod 256`; the flag register is not touched.
    pub fn op_7xkk(&mut self, x: usize, kk: u8) -> (effect: ProgramCounter)
        requires
            x < 16,
        ensures
            final(self)@ == old(self)@.add_byte(x as int, kk),
            effect == ProgramCounter::Next,
    {
        self.v[x] = self.v[x].wrapping_add(kk);
        ProgramCounter::Next
    }

    /// `8xy0`: `Vx = Vy`.
    pub fn op_8xy0(&mut self, x: usize, y: usize) -> (effect: ProgramCounter)
        requires
            x < 16,
            y < 16,
        ensures
            final(self)@ == old(self)@.set(x as int, old(self).v[y as int]),
            effect == ProgramCounter::Next,
    {
        self.v[x] = self.v[y];
        ProgramCounter::Next
    }

    /// `8xy1`: `Vx = Vx | Vy`.
    pub fn op_8xy1(&mut self, x: usize, y: usize) -> (effect: ProgramCounter)
        requires
            x < 16,
            y < 16,
        ensures
            final(self)@ == old(self)@.set(
                x as int,
                old(self).v[x as int] | old(self).v[y as int],
            ),
            effect == ProgramCounter::Next,
    {
        self.v[x] = self.v[x] | self.v[y];
        ProgramCounter::Next
    }

    /// `8xy2`: `Vx = Vx & Vy`.
    pub fn op_8xy2(&mut self, x: usize, y: usize) -> (effect: ProgramCounter)
        requires
            x < 16,
            y < 16,
        ensures
            final(self)@ == old(self)@.set(
                x as int,
                old(self).v[x as int] & old(self).v[y as int],
            ),
            effect == ProgramCounter::Next,
    {
        self.v[x] = self.v[x] & self.v[y];
        ProgramCounter::Next
    }

    /// `8xy3`: `Vx = Vx ^ Vy`.
    pub fn op_8xy3(&mut self, x: usize, y: usize) -> (effect: ProgramCounter)
        requires
            x < 16,
            y < 16,
        ensures
            final(self)@ == old(self)@.set(
                x as int,
                old(self).v[x as int] ^ old(self).v[y as int],
            ),
            effect == ProgramCounter::Next,
    {
        self.v[x] = self.v[x] ^ self.v[y];
        ProgramCounter::Next
    }

    /// `8xy4`: `Vx = (Vx + Vy) mod 256`, then `VF` = 1 if the sum exceeds 255,
    /// else 0.
    pub fn op_8xy4(&mut self, x: usize, y: usize) -> (effect: ProgramCounter)
        requires
            x < 16,
            y < 16,
        ensures
            final(self)@ == old(self)@.add_registers(x as int, y as int),
            effect == ProgramCounter::Next,
    {
        let vx: u16 = self.v[x] as u16;
        let vy: u16 = self.v[y] as u16;
        let result: u16 = vx + vy;
        self.v[x] = (result % 256) as u8;
        self.v[0xF] = if result > 0xFF {
            1
        } else {
            0
        };
        ProgramCounter::Next
    }

    /// `8xy5`: `VF` = 1 if `Vx > Vy`, else 0; then `Vx = (Vx - Vy) mod 256`,
    /// both on the values before the instruction.
    pub fn op_8xy5(&mut self, x: usize, y: usize) -> (effect: ProgramCounter)
        requires
            x < 16,
            y < 16,
        ensures
            final(self)@ == old(self)@.subtract(x as int, y as int),
            effect == ProgramCounter::Next,
    {
        let vx: u8 = self.v[x];
        let vy: u8 = self.v[y];
        self.v[0xF] = if vx > vy {
            1
        } else {
            0
        };
        self.v[x] = vx.wrapping_sub(vy);
        ProgramCounter::Next
    }

    /// `8xy6`: `VF` = the lowest bit of `Vx`; then `Vx` is shifted right by
    /// one. `Vy` is not read.
    pub fn op_8xy6(&mut self, x: usize) -> (effect: ProgramCounter)
        requires
            x < 16,
        ensures
            final(self)@ == old(self)@.shift_right(x as int),
            effect == ProgramCounter::Next,
    {
        let vx: u8 = self.v[x];
        assert(vx & 0x1 == vx % 2) by (bit_vector);
        assert(vx >> 1 == vx / 2) by (bit_vector);
        self.v[0xF] = vx & 0x1;
        self.v[x] = vx >> 1;
        ProgramCounter::Next
    }

    /// `8xy7`: `VF` = 1 if `Vy > Vx`, else 0; then `Vx = (Vy - Vx) mod 256`,
    /// both on the values before the instruction.
    pub fn op_8xy7(&mut self, x: usize, y: usize) -> (effect: ProgramCounter)
        requires
            x < 16,
            y < 16,
        ensures
            final(self)@ == old(self)@.subtract_from(x as int, y as int),
            effect == ProgramCounter::Next,
    {
        let vx: u8 = self.v[x];
        let vy: u8 = self.v[y];
        self.v[0xF] = if vy > vx {
            1
        } else {
            0
        };
        self.v[x] = vy.wrapping_sub(vx);
        ProgramCounter::Next
    }

    /// `8xyE`: `VF` = the highest bit of `Vx`; then `Vx` is shifted left by
    /// one, the result cut to 8 bits. `Vy` is not read.
    pub fn op_8xye(&mut self, x: usize) -> (effect: ProgramCounter)
        requires
            x < 16,
        ensures
            final(self)@ == old(self)@.shift_left(x as int),
            effect == ProgramCounter::Next,
    {
        let vx: u8 = self.v[x];
        assert((vx & 0b10000000) >> 7 == vx / 128) by (bit_vector);
        assert(vx << 1 == (vx * 2) % 256) by (bit_vector);
        self.v[0xF] = (vx & 0b10000000) >> 7;
        self.v[x] = vx << 1;
        ProgramCounter::Next
    }

    /// `9xy0`: skips the next instruction if `Vx != Vy`.
    pub fn op_9xy0(&mut self, x: usize, y: usize) -> (effect: ProgramCounter)
        requires
            x < 16,
            y < 16,
        ensures
            final(self)@ == old(self)@,
            effect == skip_if(old(self).v[x as int] != old(self).v[y as int]),
    {
        if self.v[x] != self.v[y] {
            ProgramCounter::Skip
        } else {
            ProgramCounter::Next
        }
    }

    /// `Annn`: `I = nnn`.
    pub fn op_annn(&mut self, nnn: usize) -> (effect: ProgramCounter)
        ensures
            final(self)@ == (Machine { i: nnn as nat, ..old(self)@ }),
            effect == ProgramCounter::Next,
    {
        self.i = nnn;
        ProgramCounter::Next
    }

    /// `Bnnn`: jumps to `nnn + V0`.
    pub fn op_bnnn(&mut self, nnn: usize) -> (effect: ProgramCounter)
        requires
            nnn < 0x1000,
        ensures
            final(self)@ == old(self)@,
            effect == ProgramCounter::Jump((old(self).v[0] + nnn) as usize),
    {
        ProgramCounter::Jump(self.v[0x0] as usize + nnn)
    }

    /// `Cxkk`: `Vx` = a random byte masked with `kk`. The flag register is
    /// not touched.
    pub fn op_cxkk(&mut self, x: usize, kk: u8) -> (effect: ProgramCounter)
        requires
            x < 16,
        ensures
            exists|random: u8| final(self)@ == old(self)@.set(x as int, random & kk),
            effect == ProgramCounter::Next,
    {
        let random: u8 = random_byte();
        self.op_cxkk_with(x, kk, random)
    }

    /// What `Cxkk` does once the random byte is drawn: `Vx = random & kk`.
    pub fn op_cxkk_with(&mut self, x: usize, kk: u8, random: u8) -> (effect: ProgramCounter)
        requires
            x < 16,
        ensures
            final(self)@ == old(self)@.set(x as int, random & kk),
            effect == ProgramCounter::Next,
    {
        self.v[x] = random & kk;
        ProgramCounter::Next
    }

    /// `Dxyn`: draws the `n`-row sprite at `I` at column `Vx`, row `Vy`, both
    /// as they are before the instruction.
    ///
    /// `VF` is lowered first. Then, row by row and bit by bit from the left,
    /// each sprite bit is XORed into the pixel at column `(Vx + bit) mod 64`,
    /// row `(Vy + row) mod 32`, and `VF` gathers whether a bit met a lit
    /// pixel. In the end every pixel under the sprite is flipped by its
    /// sprite bit, and `VF` is 1 if a set bit met a lit pixel and 0 if none
    /// did.
    pub fn op_dxyn(&mut self, x: usize, y: usize, n: usize) -> (effect: ProgramCounter)
        requires
            x < 16,
            y < 16,
            n < 16,
            n > 0 ==> old(self).i + n <= 4096,
        ensures
            final(self)@ == old(self)@.draw(x as int, y as int, n as nat),
            effect == ProgramCounter::Next,
    {
        let vx: usize = self.v[x] as usize;
        let vy: usize = self.v[y] as usize;
        proof {
            lemma_plot_rows_is_draw(old(self)@, x as int, y as int, n as nat);
        }
        self.v[0xF] = 0;
        let mut byte: usize = 0;
        while byte < n
            invariant
                vx < 256,
                vy < 256,
                byte <= n < 16,
                n > 0 ==> self.i + n <= 4096,
                self@ == old(self)@.plot_rows(vx as int, vy as int, byte as nat),
            decreases n - byte,
        {
            let py: usize = (vy + byte) % CHIP8_GFX_HEIGHT;
            let ghost above = self@;
            let mut bit: usize = 0;
            while bit < 8
                invariant
                    vx < 256,
                    py < 32,
                    byte < n < 16,
                    bit <= 8,
                    self.i + n <= 4096,
                    self@ == above.plot_row(vx as int, py as int, byte as int, bit as nat),
                decreases 8 - bit,
            {
                let px: usize = (vx + bit) % CHIP8_GFX_WIDTH;
                let color: u8 = (self.ram[self.i + byte] >> (7 - bit)) & 1;
                let pixel: u8 = self.vram[py][px];
                self.v[0xF] = self.v[0xF] | (color & pixel);
                self.vram[py][px] = pixel ^ color;
                bit += 1;
            }
            byte += 1;
        }
        self.redraw = true;
        ProgramCounter::Next
    }

    /// `Ex9E`: skips the next instruction if the key `Vx` is down.
    pub fn op_ex9e(&mut self, x: usize) -> (effect: ProgramCounter)
        requires
            x < 16,
            old(self).v[x as int] < 16,
        ensures
            final(self)@ == old(self)@,
            effect == skip_if(old(self).keypad[old(self).v[x as int] as int]),
    {
        if self.keypad[self.v[x] as usize] {
            ProgramCounter::Skip
        } else {
            ProgramCounter::Next
        }
    }

    /// `ExA1`: skips the next instruction if the key `Vx` is up.
    pub fn op_exa1(&mut self, x: usize) -> (effect: ProgramCounter)
        requires
            x < 16,
            old(self).v[x as int] < 16,
        ensures
            final(self)@ == old(self)@,
            effect == skip_if(!old(self).keypad[old(self).v[x as int] as int]),
    {
        if !self.keypad[self.v[x] as usize] {
            ProgramCounter::Skip
        } else {
            ProgramCounter::Next
        }
    }

    /// `Fx07`: `Vx` = the delay timer.
    pub fn op_fx07(&mut self, x: usize) -> (effect: ProgramCounter)
        requires
            x < 16,
        ensures
            final(self)@ == old(self)@.set(x as int, old(self).delay_timer),
            effect == ProgramCounter::Next,
    {
        self.v[x] = self.delay_timer;
        ProgramCounter::Next
    }

    /// `Fx0A`: arms the wait state for register `x`. The tick itself goes
    /// on; the ticks that follow run no instruction until a key is down.
    pub fn op_fx0a(&mut self, x: usize) -> (effect: ProgramCounter)
        requires
            x < 16,
        ensures
            final(self)@ == old(self)@.wait_for_key(x as int),
            effect == ProgramCounter::Next,
    {
        self.waiting_keypad = true;
        self.waiting_keypad_register = x;
        ProgramCounter::Next
    }

    /// `Fx15`: the delay timer = `Vx`.
    pub fn op_fx15(&mut self, x: usize) -> (effect: ProgramCounter)
        requires
            x < 16,
        ensures
            final(self)@ == (Machine { delay_timer: old(self).v[x as int], ..old(self)@ }),
            effect == ProgramCounter::Next,
    {
        self.delay_timer = self.v[x];
        ProgramCounter::Next
    }

    /// `Fx18`: the sound timer = `Vx`.
    pub fn op_fx18(&mut self, x: usize) -> (effect: ProgramCounter)
        requires
            x < 16,
        ensures
            final(self)@ == (Machine { sound_timer: old(self).v[x as int], ..old(self)@ }),
            effect == ProgramCounter::Next,
    {
        self.sound_timer = self.v[x];
        ProgramCounter::Next
    }

    /// `Fx1E`: `I = I + Vx`, then `VF` = 1 if the new `I` exceeds `0xF00`,
    /// else 0.
    pub fn op_fx1e(&mut self, x: usize) -> (effect: ProgramCounter)
        requires
            x < 16,
            old(self).i + old(self).v[x as int] <= usize::MAX,
        ensures
            final(self)@ == old(self)@.add_index(x as int),
            effect == ProgramCounter::Next,
    {
        self.i += self.v[x] as usize;
        self.v[0xF] = if self.i > 0x0F00 {
            1
        } else {
            0
        };
        ProgramCounter::Next
    }

    /// `Fx29`: `I` = the address of the glyph of digit `Vx` in the built-in
    /// table, `0x50 + 5 * Vx`.
    pub fn op_fx29(&mut self, x: usize) -> (effect: ProgramCounter)
        requires
            x < 16,
        ensures
            final(self)@ == old(self)@.point_at_glyph(x as int),
            effect == ProgramCounter::Next,
    {
        self.i = FONT_BASE + (self.v[x] as usize) * 5;
        ProgramCounter::Next
    }

    /// `Fx33`: the hundreds, tens and ones of `Vx` go to `I`, `I+1`, `I+2`.
    pub fn op_fx33(&mut self, x: usize) -> (effect: ProgramCounter)
        requires
            x < 16,
            old(self).i + 2 < 4096,
        ensures
            final(self)@ == old(self)@.store_bcd(x as int),
            effect == ProgramCounter::Next,
    {
        self.ram[self.i] = self.v[x] / 100;
        self.ram[self.i + 1] = (self.v[x] % 100) / 10;
        self.ram[self.i + 2] = self.v[x] % 10;
        ProgramCounter::Next
    }

    /// `Fx55`: `V0..=Vx` go to `I..=I+x`. `I` stays.
    pub fn op_fx55(&mut self, x: usize) -> (effect: ProgramCounter)
        requires
            x < 16,
            old(self).i + x < 4096,
        ensures
            final(self)@ == old(self)@.store_registers(x as int),
            effect == ProgramCounter::Next,
    {
        let mut k: usize = 0;
        while k < x + 1
            invariant
                k <= x + 1,
                x < 16,
                self.i + x < 4096,
                self@ =~~= old(self)@.store_registers(k - 1),
            decreases x + 1 - k,
        {
            self.ram[self.i + k] = self.v[k];
            k += 1;
        }
        ProgramCounter::Next
    }

    /// `Fx65`: `V0..=Vx` come from `I..=I+x`. `I` stays.
    pub fn op_fx65(&mut self, x: usize) -> (effect: ProgramCounter)
        requires
            x < 16,
            old(self).i + x < 4096,
        ensures
            final(self)@ == old(self)@.load_registers(x as int),
            effect == ProgramCounter::Next,
    {
        let mut k: usize = 0;
        while k < x + 1
            invariant
                k <= x + 1,
                x < 16,
                self.i + x < 4096,
                self@ =~~= old(self)@.load_registers(k - 1),
            decreases x + 1 - k,
        {
            self.v[k] = self.ram[self.i + k];
            k += 1;
        }
        ProgramCounter::Next
    }
}

} // verus!
