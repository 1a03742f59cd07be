//! The draw instruction on the model: a sprite is XORed into the
//! framebuffer, wrapping at the edges, and the flag register tells whether
//! a lit pixel was put out.
//!
//! `Machine::draw` says what the instruction comes to. The handler draws
//! pixel by pixel; `plot`, `plot_row` and `plot_rows` follow it step by
//! step, and `lemma_plot_rows` shows that the steps add up to `draw`.

use vstd::prelude::*;
use crate::machine::Machine;

verus! {

/// Bit `bit` of `byte`, counted from the left: the sprite's pixel in column
/// `bit` of the row that `byte` encodes.
pub open spec fn sprite_bit(byte: u8, bit: int) -> u8 {
    (byte >> ((7 - bit) as u8)) & 1
}

impl Machine {
    /// Whether bit `bit` of sprite row `row` is set and meets a lit pixel
    /// when the sprite at `I` is drawn at column `vx`, row `vy`.
    pub open spec fn hit(self, vx: int, vy: int, row: int, bit: int) -> bool {
        sprite_bit(self.ram[self.i + row], bit) & self.vram[(vy + row) % 32][(vx + bit) % 64] == 1
    }

    /// Whether any bit of the `n`-row sprite at `I` meets a lit pixel when
    /// drawn at column `vx`, row `vy`.
    pub open spec fn collides(self, vx: int, vy: int, n: nat) -> bool {
        exists|row: int, bit: int|
            0 <= row < n && 0 <= bit < 8 && #[trigger] self.hit(vx, vy, row, bit)
    }

    /// The pixel in row `r`, column `c`, once the `n`-row sprite at `I` is
    /// drawn at column `vx`, row `vy`: flipped by the sprite bit that falls
    /// on it, if one does. Bit `bit` of sprite row `row` falls on row
    /// `(vy + row) mod 32`, column `(vx + bit) mod 64`.
    pub open spec fn drawn_pixel(self, vx: int, vy: int, n: nat, r: int, c: int) -> u8 {
        let row = (r - vy) % 32;
        let bit = (c - vx) % 64;
        if row < n && bit < 8 {
            self.vram[r][c] ^ sprite_bit(self.ram[self.i + row], bit)
        } else {
            self.vram[r][c]
        }
    }

    /// `Dxyn`: the `n`-row sprite at `I` drawn at column `Vx`, row `Vy`, both
    /// as they are before the instruction. Every pixel under the sprite is
    /// flipped by its sprite bit; the flag register ends as 1 if a set bit
    /// met a lit pixel and as 0 if none did; redraw is requested.
    pub open spec fn draw(self, x: int, y: int, n: nat) -> Machine {
        let vx = self.v[x] as int;
        let vy = self.v[y] as int;
        Machine {
            vram: Seq::new(32, |r: int| Seq::new(64, |c: int| self.drawn_pixel(vx, vy, n, r, c))),
            v: self.v.update(
                0xF,
                if self.collides(vx, vy, n) {
                    1u8
                } else {
                    0u8
                },
            ),
            redraw: true,
            ..self
        }
    }

    /// One step of drawing: bit `bit` of the byte at `I + row` meets the
    /// pixel in row `py`, column `(vx + bit) mod 64`. The flag gathers
    /// `bit & pixel`, then the pixel becomes `pixel ^ bit`.
    pub open spec fn plot(self, vx: int, py: int, row: int, bit: int) -> Machine {
        let px = (vx + bit) % 64;
        let color = sprite_bit(self.ram[self.i + row], bit);
        let pixel = self.vram[py][px];
        Machine {
            v: self.v.update(0xF, self.v[0xF] | (color & pixel)),
            vram: self.vram.update(py, self.vram[py].update(px, pixel ^ color)),
            ..self
        }
    }

    /// The first `bits` bits of sprite row `row`, left to right, plotted
    /// into framebuffer row `py`.
    pub open spec fn plot_row(self, vx: int, py: int, row: int, bits: nat) -> Machine
        decreases bits,
    {
        if bits == 0 {
            self
        } else {
            self.plot_row(vx, py, row, (bits - 1) as nat).plot(vx, py, row, bits - 1)
        }
    }

    /// The first `rows` rows of the sprite at `I`, top to bottom, plotted at
    /// column `vx`, row `vy`, after the flag has been lowered.
    pub open spec fn plot_rows(self, vx: int, vy: int, rows: nat) -> Machine
        decreases rows,
    {
        if rows == 0 {
            self.set(0xF, 0)
        } else {
            self.plot_rows(vx, vy, (rows - 1) as nat).plot_row(
                vx,
                (vy + rows - 1) % 32,
                rows - 1,
                8,
            )
        }
    }

    /// `self` differs from `before` in the framebuffer and the flag register
    /// at most: what drawing leaves alone.
    pub open spec fn drawn_from(self, before: Machine) -> bool {
        &&& self.wf()
        &&& self.ram == before.ram
        &&& self.i == before.i
        &&& self.pc == before.pc
        &&& self.stack == before.stack
        &&& self.sp == before.sp
        &&& self.delay_timer == before.delay_timer
        &&& self.sound_timer == before.sound_timer
        &&& self.keypad == before.keypad
        &&& self.waiting_keypad == before.waiting_keypad
        &&& self.waiting_keypad_register == before.waiting_keypad_register
        &&& self.redraw == before.redraw
        &&& forall|j: int| 0 <= j < 15 ==> self.v[j] == before.v[j]
    }

    /// Whether bit `bit` of sprite row `row` is set and meets a lit pixel in
    /// framebuffer row `py`.
    pub open spec fn row_hit(self, vx: int, py: int, row: int, bit: int) -> bool {
        sprite_bit(self.ram[self.i + row], bit) & self.vram[py][(vx + bit) % 64] == 1
    }

    /// The pixel in row `py`, column `c`, once the first `bits` bits of
    /// sprite row `row` are plotted.
    pub open spec fn row_pixel(self, vx: int, py: int, row: int, bits: nat, c: int) -> u8 {
        let bit = (c - vx) % 64;
        if bit < bits {
            self.vram[py][c] ^ sprite_bit(self.ram[self.i + row], bit)
        } else {
            self.vram[py][c]
        }
    }
}

/// A sprite bit is 0 or 1.
pub proof fn lemma_sprite_bit_is_bit(byte: u8, bit: int)
    requires
        0 <= bit < 8,
    ensures
        sprite_bit(byte, bit) <= 1,
{
    let shift: u8 = (7 - bit) as u8;
    assert((byte >> shift) & 1 <= 1) by (bit_vector);
}

/// How the flag gathers a collision: with the flag and the sprite bit both
/// 0 or 1, `flag | (bit & pixel)` is 0 or 1 again, and 1 exactly if the flag
/// was up or the bit met a lit pixel.
pub proof fn lemma_gather(flag: u8, color: u8, pixel: u8)
    requires
        flag <= 1,
        color <= 1,
    ensures
        flag | (color & pixel) <= 1,
        (flag | (color & pixel)) == 1 <==> flag == 1 || (color & pixel) == 1,
{
    assert(flag <= 1 && color <= 1 ==> (flag | (color & pixel)) <= 1 && ((flag | (color & pixel))
        == 1 <==> flag == 1 || (color & pixel) == 1)) by (bit_vector);
}

/// What plotting the first `bits` bits of a sprite row comes to.
pub proof fn lemma_plot_row(m: Machine, vx: int, py: int, row: int, bits: nat)
    requires
        m.wf(),
        0 <= vx,
        0 <= py < 32,
        bits <= 8,
        m.v[0xF] <= 1,
    ensures
        ({
            let after = m.plot_row(vx, py, row, bits);
            &&& after.drawn_from(m)
            &&& forall|r: int| 0 <= r < 32 && r != py ==> after.vram[r] == m.vram[r]
            &&& forall|c: int| 0 <= c < 64 ==> after.vram[py][c] == m.row_pixel(vx, py, row, bits, c)
            &&& after.v[0xF] <= 1
            &&& after.v[0xF] == 1 <==> m.v[0xF] == 1 || exists|bit: int|
                0 <= bit < bits && #[trigger] m.row_hit(vx, py, row, bit)
        }),
    decreases bits,
{
    if bits > 0 {
        let bit = bits - 1;
        let before = m.plot_row(vx, py, row, bit as nat);
        let px = (vx + bit) % 64;
        let color = sprite_bit(m.ram[m.i + row], bit);
        lemma_plot_row(m, vx, py, row, bit as nat);
        lemma_sprite_bit_is_bit(m.ram[m.i + row], bit);
        lemma_gather(before.v[0xF], color, m.vram[py][px]);
        // No earlier bit of this row fell on column `px`.
        assert(before.vram[py][px] == m.vram[py][px]);
        if before.v[0xF] != 1 && before.plot(vx, py, row, bit).v[0xF] == 1 {
            assert(m.row_hit(vx, py, row, bit));
        }
    }
}

/// What plotting the first `rows` rows of a sprite comes to: the pixels and
/// the flag of `draw`.
pub proof fn lemma_plot_rows(m: Machine, vx: int, vy: int, rows: nat)
    requires
        m.wf(),
        0 <= vx,
        0 <= vy,
        rows <= 32,
    ensures
        ({
            let after = m.plot_rows(vx, vy, rows);
            &&& after.drawn_from(m)
            &&& forall|r: int, c: int|
                0 <= r < 32 && 0 <= c < 64 ==> #[trigger] after.vram[r][c] == m.drawn_pixel(
                    vx,
                    vy,
                    rows,
                    r,
                    c,
                )
            &&& after.v[0xF] <= 1
            &&& after.v[0xF] == 1 <==> m.collides(vx, vy, rows)
        }),
    decreases rows,
{
    if rows > 0 {
        let row = rows - 1;
        let above = m.plot_rows(vx, vy, row as nat);
        let py = (vy + row) % 32;
        let after = above.plot_row(vx, py, row, 8);
        lemma_plot_rows(m, vx, vy, row as nat);
        lemma_plot_row(above, vx, py, row, 8);
        assert forall|r: int, c: int| 0 <= r < 32 && 0 <= c < 64 implies #[trigger] after.vram[r][c]
            == m.drawn_pixel(vx, vy, rows, r, c) by {
            if r == py {
                // No earlier row of the sprite fell on row `py`.
                assert(above.vram[py][c] == m.vram[py][c]);
            } else {
                assert(after.vram[r] == above.vram[r]);
            }
        }
        if above.v[0xF] != 1 && after.v[0xF] == 1 {
            let bit = choose|bit: int| 0 <= bit < 8 && #[trigger] above.row_hit(vx, py, row, bit);
            assert(m.hit(vx, vy, row, bit));
        }
        if m.collides(vx, vy, rows) && !m.collides(vx, vy, row as nat) {
            let (r0, bit) = choose|r0: int, bit: int|
                0 <= r0 < rows && 0 <= bit < 8 && #[trigger] m.hit(vx, vy, r0, bit);
            assert(above.row_hit(vx, py, row, bit));
        }
    }
}

/// Plotting all rows of a sprite at the place that the registers name, and
/// asking for a redraw, is `draw`.
pub proof fn lemma_plot_rows_is_draw(m: Machine, x: int, y: int, n: nat)
    requires
        m.wf(),
        0 <= x < 16,
        0 <= y < 16,
        n <= 32,
    ensures
        m.draw(x, y, n) == (Machine {
            redraw: true,
            ..m.plot_rows(m.v[x] as int, m.v[y] as int, n)
        }),
{
    lemma_plot_rows(m, m.v[x] as int, m.v[y] as int, n);
    assert(m.draw(x, y, n) =~~= (Machine {
        redraw: true,
        ..m.plot_rows(m.v[x] as int, m.v[y] as int, n)
    }));
}

/// Drawing keeps pixels that are 0 or 1 so.
pub proof fn lemma_draw_binary(m: Machine, x: int, y: int, n: nat)
    requires
        m.wf(),
        forall|r: int, c: int| 0 <= r < 32 && 0 <= c < 64 ==> #[trigger] m.vram[r][c] <= 1,
    ensures
        forall|r: int, c: int|
            0 <= r < 32 && 0 <= c < 64 ==> #[trigger] m.draw(x, y, n).vram[r][c] <= 1,
{
    assert forall|r: int, c: int| 0 <= r < 32 && 0 <= c < 64 implies #[trigger] m.draw(
        x,
        y,
        n,
    ).vram[r][c] <= 1 by {
        let bit = (c - m.v[x] as int) % 64;
        let pixel = m.vram[r][c];
        assert(pixel <= 1);
        if 0 <= bit < 8 {
            let color = sprite_bit(m.ram[m.i + (r - m.v[y] as int) % 32], bit);
            lemma_sprite_bit_is_bit(m.ram[m.i + (r - m.v[y] as int) % 32], bit);
            assert(pixel <= 1 && color <= 1 ==> pixel ^ color <= 1) by (bit_vector);
        }
    }
}

} // verus!
