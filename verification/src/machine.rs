//! The mathematical model of the machine.
//!
//! A [`Machine`] is the state of a CHIP-8 as sequences and natural numbers.
//! Every instruction is a function from `Machine` to `Machine` here, and the
//! executable handlers of [`crate::cpu::CPU`] are specified against them.
//!
//! Register 15 is the flag register. An instruction reads its operands as
//! they are before it, then writes. The arithmetic instructions write the
//! flag as well as their target; where the target is the flag register
//! itself, the write that comes last stands: the carry of an addition, the
//! difference of a subtraction, the shifted value of a shift.

use vstd::prelude::*;
use crate::font::{FONT_BASE, FONT_SET};
use crate::instruction::{decode_spec, Instruction};

verus! {

/// What an instruction does to the program counter.
#[derive(Clone, Copy, Debug, PartialEq, Eq)]
pub enum ProgramCounter {
    /// Go on with the next instruction: two bytes ahead.
    Next,
    /// Skip the next instruction: four bytes ahead.
    Skip,
    /// Continue at the given address.
    Jump(usize),
}

impl ProgramCounter {
    /// The program counter after an instruction at `pc` with this effect.
    pub open spec fn target(self, pc: nat) -> nat {
        match self {
            ProgramCounter::Next => pc + 2,
            ProgramCounter::Skip => pc + 4,
            ProgramCounter::Jump(address) => address as nat,
        }
    }
}

/// Why the machine could not do what it was asked.
#[derive(Clone, Copy, Debug, PartialEq, Eq)]
pub enum Fault {
    /// The opcode matches no instruction. The program counter stays where it
    /// is, so the next tick meets the same opcode again.
    UnknownOpcode(u16),
    /// A call with all sixteen stack slots taken, or a return with the stack
    /// pointer beyond them.
    StackOverflow,
    /// A return with nothing on the stack.
    StackUnderflow,
    /// An instruction fetch, a sprite row, a digit or a register block that
    /// lies beyond the last byte of memory.
    MemoryOutOfRange,
    /// A key-skip instruction on a register that holds no key index.
    KeyOutOfRange,
    /// The wait state names a register that does not exist.
    RegisterOutOfRange,
    /// The program counter or the index register would exceed the machine
    /// word.
    AddressOverflow,
    /// The program image is longer than the memory from the load address on.
    /// What fits has been loaded.
    ProgramTooLarge,
}

/// The state of the machine.
#[verifier::ext_equal]
pub struct Machine {
    /// Memory, 4096 bytes.
    pub ram: Seq<u8>,
    /// Framebuffer, 32 rows of 64 pixels.
    pub vram: Seq<Seq<u8>>,
    /// The sixteen general registers.
    pub v: Seq<u8>,
    /// The index register.
    pub i: nat,
    /// The program counter.
    pub pc: nat,
    /// The sixteen slots of the call stack.
    pub stack: Seq<nat>,
    /// The number of return addresses on the stack.
    pub sp: nat,
    /// The delay timer.
    pub delay_timer: u8,
    /// The sound timer.
    pub sound_timer: u8,
    /// Which keys were down at the start of the current tick.
    pub keypad: Seq<bool>,
    /// Whether the machine waits for a key.
    pub waiting_keypad: bool,
    /// The register that receives the key the machine waits for.
    pub waiting_keypad_register: nat,
    /// Whether the framebuffer changed during the current tick.
    pub redraw: bool,
}

/// The lowest index from `from` on at which `keys` is true.
pub open spec fn lowest_key_from(keys: Seq<bool>, from: int) -> Option<int>
    decreases keys.len() - from,
{
    if from < 0 || from >= keys.len() {
        None
    } else if keys[from] {
        Some(from)
    } else {
        lowest_key_from(keys, from + 1)
    }
}

/// The lowest index at which `keys` is true: the key that resolves a wait.
pub open spec fn lowest_key(keys: Seq<bool>) -> Option<int> {
    lowest_key_from(keys, 0)
}

/// What `lowest_key_from` finds: the first true entry from `from` on, and
/// `None` exactly when there is none.
pub proof fn lemma_lowest_key_from(keys: Seq<bool>, from: int)
    requires
        0 <= from,
    ensures
        match lowest_key_from(keys, from) {
            Some(k) => from <= k < keys.len() && keys[k] && forall|j: int| from <= j < k ==> !keys[j],
            None => forall|j: int| from <= j < keys.len() ==> !keys[j],
        },
    decreases keys.len() - from,
{
    if from < keys.len() && !keys[from] {
        lemma_lowest_key_from(keys, from + 1);
    }
}

impl Machine {
    /// The sequences have the machine's dimensions.
    pub open spec fn wf(self) -> bool {
        &&& self.ram.len() == 4096
        &&& self.vram.len() == 32
        &&& forall|r: int| 0 <= r < 32 ==> (#[trigger] self.vram[r]).len() == 64
        &&& self.v.len() == 16
        &&& self.stack.len() == 16
        &&& self.keypad.len() == 16
    }

    /// The invariants of a machine that only ever ran instructions: every
    /// pixel is 0 or 1, the stack holds at most sixteen addresses, and the
    /// wait state names a register.
    pub open spec fn inv(self) -> bool {
        &&& self.wf()
        &&& forall|r: int, c: int| 0 <= r < 32 && 0 <= c < 64 ==> #[trigger] self.vram[r][c] <= 1
        &&& self.sp <= 16
        &&& self.waiting_keypad_register < 16
    }

    /// A machine as it is created: everything zero but the glyph table at
    /// `0x50..0xA0` and the program counter at `0x200`.
    pub open spec fn initial() -> Machine {
        Machine {
            ram: Seq::new(4096, |a: int| if 0x50 <= a < 0xA0 { FONT_SET[a - 0x50] } else { 0u8 }),
            vram: Seq::new(32, |r: int| Seq::new(64, |c: int| 0u8)),
            v: Seq::new(16, |k: int| 0u8),
            i: 0,
            pc: 0x200,
            stack: Seq::new(16, |k: int| 0nat),
            sp: 0,
            delay_timer: 0,
            sound_timer: 0,
            keypad: Seq::new(16, |k: int| false),
            waiting_keypad: false,
            waiting_keypad_register: 0,
            redraw: false,
        }
    }

    /// The machine with `image` written from `0x200` on, as far as memory
    /// reaches, and the program counter at `0x200`.
    pub open spec fn load(self, image: Seq<u8>) -> Machine {
        Machine {
            ram: Seq::new(
                4096,
                |a: int| if 0x200 <= a < 0x200 + image.len() { image[a - 0x200] } else { self.ram[a] },
            ),
            pc: 0x200,
            ..self
        }
    }

    /// The opcode at the program counter: two bytes, high byte first.
    pub open spec fn opcode(self) -> u16 {
        (self.ram[self.pc as int] as int * 256 + self.ram[self.pc as int + 1] as int) as u16
    }

    /// The machine with register `x` set to `value`.
    pub open spec fn set(self, x: int, value: u8) -> Machine {
        Machine { v: self.v.update(x, value), ..self }
    }

    /// `00E0`: every pixel off, redraw requested.
    pub open spec fn clear(self) -> Machine {
        Machine { vram: Seq::new(32, |r: int| Seq::new(64, |c: int| 0u8)), redraw: true, ..self }
    }

    /// The machine with the framebuffer cleared as far as row `row`, column
    /// `column`: all rows above, and in that row all columns to the left.
    pub open spec fn clear_to(self, row: int, column: int) -> Machine {
        Machine {
            vram: Seq::new(
                32,
                |r: int|
                    Seq::new(
                        64,
                        |c: int|
                            if r < row || (r == row && c < column) {
                                0u8
                            } else {
                                self.vram[r][c]
                            },
                    ),
            ),
            ..self
        }
    }

    /// `00EE`: the top of the stack is popped. Execution continues behind
    /// the call, see `next_pc`.
    pub open spec fn pop(self) -> Machine {
        Machine { sp: (self.sp - 1) as nat, ..self }
    }

    /// `2nnn`: the address of the call itself is pushed.
    pub open spec fn push(self) -> Machine {
        Machine { stack: self.stack.update(self.sp as int, self.pc), sp: self.sp + 1, ..self }
    }

    /// `7xkk`: `Vx + kk` modulo 256; the flag is not touched.
    pub open spec fn add_byte(self, x: int, kk: u8) -> Machine {
        self.set(x, ((self.v[x] + kk) % 256) as u8)
    }

    /// `8xy4`: `Vx + Vy` modulo 256, then the flag: 1 iff the sum exceeds 255.
    pub open spec fn add_registers(self, x: int, y: int) -> Machine {
        let sum = self.v[x] + self.v[y];
        self.set(x, (sum % 256) as u8).set(0xF, if sum > 255 { 1u8 } else { 0u8 })
    }

    /// `8xy5`: the flag, 1 iff `Vx > Vy`; then `Vx - Vy` modulo 256.
    pub open spec fn subtract(self, x: int, y: int) -> Machine {
        let difference = self.v[x] - self.v[y];
        self.set(0xF, if difference > 0 { 1u8 } else { 0u8 }).set(x, (difference % 256) as u8)
    }

    /// `8xy7`: the flag, 1 iff `Vy > Vx`; then `Vy - Vx` modulo 256.
    pub open spec fn subtract_from(self, x: int, y: int) -> Machine {
        let difference = self.v[y] - self.v[x];
        self.set(0xF, if difference > 0 { 1u8 } else { 0u8 }).set(x, (difference % 256) as u8)
    }

    /// `8xy6`: the flag, the lowest bit of `Vx`; then `Vx` halved.
    pub open spec fn shift_right(self, x: int) -> Machine {
        self.set(0xF, self.v[x] % 2).set(x, self.v[x] / 2)
    }

    /// `8xyE`: the flag, the highest bit of `Vx`; then `Vx` doubled modulo
    /// 256.
    pub open spec fn shift_left(self, x: int) -> Machine {
        self.set(0xF, self.v[x] / 128).set(x, ((self.v[x] * 2) % 256) as u8)
    }

    /// `Fx29`: `I` points at the glyph of digit `Vx` in the built-in table:
    /// five bytes per digit from `0x50` on.
    pub open spec fn point_at_glyph(self, x: int) -> Machine {
        Machine { i: (FONT_BASE + 5 * self.v[x]) as nat, ..self }
    }

    /// `Fx1E`: `I + Vx`, then the flag: 1 iff the new `I` exceeds `0xF00`.
    pub open spec fn add_index(self, x: int) -> Machine {
        let i = self.i + self.v[x] as nat;
        Machine { i, ..self.set(0xF, if i > 0x0F00 { 1u8 } else { 0u8 }) }
    }

    /// `Fx33`: hundreds, tens and ones of `Vx` at `I`, `I+1`, `I+2`.
    pub open spec fn store_bcd(self, x: int) -> Machine {
        let value = self.v[x];
        Machine {
            ram: self.ram.update(self.i as int, value / 100).update(
                self.i as int + 1,
                (value % 100) / 10,
            ).update(self.i as int + 2, value % 10),
            ..self
        }
    }

    /// `Fx55`: `V0..=Vx` at `I..=I+x`.
    pub open spec fn store_registers(self, x: int) -> Machine {
        Machine {
            ram: Seq::new(
                self.ram.len(),
                |a: int| if self.i <= a <= self.i + x { self.v[a - self.i] } else { self.ram[a] },
            ),
            ..self
        }
    }

    /// `Fx65`: `V0..=Vx` from `I..=I+x`.
    pub open spec fn load_registers(self, x: int) -> Machine {
        Machine {
            v: Seq::new(
                self.v.len(),
                |k: int| if k <= x { self.ram[self.i + k] } else { self.v[k] },
            ),
            ..self
        }
    }

    /// `Fx0A`: the wait state is armed for register `x`.
    pub open spec fn wait_for_key(self, x: int) -> Machine {
        Machine { waiting_keypad: true, waiting_keypad_register: x as nat, ..self }
    }

    /// What an instruction does to everything but the program counter.
    /// `random` is the byte that `Cxkk` masks; no other instruction reads it.
    pub open spec fn apply(self, ins: Instruction, random: u8) -> Machine {
        match ins {
            Instruction::Clear => self.clear(),
            Instruction::Return => self.pop(),
            Instruction::Jump { .. } => self,
            Instruction::Call { .. } => self.push(),
            Instruction::SkipEqByte { .. } => self,
            Instruction::SkipNeByte { .. } => self,
            Instruction::SkipEq { .. } => self,
            Instruction::LoadByte { x, kk } => self.set(x as int, kk),
            Instruction::AddByte { x, kk } => self.add_byte(x as int, kk),
            Instruction::Move { x, y } => self.set(x as int, self.v[y as int]),
            Instruction::Or { x, y } => self.set(x as int, self.v[x as int] | self.v[y as int]),
            Instruction::And { x, y } => self.set(x as int, self.v[x as int] & self.v[y as int]),
            Instruction::Xor { x, y } => self.set(x as int, self.v[x as int] ^ self.v[y as int]),
            Instruction::Add { x, y } => self.add_registers(x as int, y as int),
            Instruction::Sub { x, y } => self.subtract(x as int, y as int),
            Instruction::ShiftRight { x } => self.shift_right(x as int),
            Instruction::SubFrom { x, y } => self.subtract_from(x as int, y as int),
            Instruction::ShiftLeft { x } => self.shift_left(x as int),
            Instruction::SkipNe { .. } => self,
            Instruction::LoadIndex { nnn } => Machine { i: nnn as nat, ..self },
            Instruction::JumpOffset { .. } => self,
            Instruction::Random { x, kk } => self.set(x as int, random & kk),
            Instruction::Draw { x, y, n } => self.draw(x as int, y as int, n as nat),
            Instruction::SkipKey { .. } => self,
            Instruction::SkipNotKey { .. } => self,
            Instruction::ReadDelay { x } => self.set(x as int, self.delay_timer),
            Instruction::WaitKey { x } => self.wait_for_key(x as int),
            Instruction::SetDelay { x } => Machine { delay_timer: self.v[x as int], ..self },
            Instruction::SetSound { x } => Machine { sound_timer: self.v[x as int], ..self },
            Instruction::AddIndex { x } => self.add_index(x as int),
            Instruction::Glyph { x } => self.point_at_glyph(x as int),
            Instruction::Bcd { x } => self.store_bcd(x as int),
            Instruction::Store { x } => self.store_registers(x as int),
            Instruction::Load { x } => self.load_registers(x as int),
        }
    }

    /// The program counter after an instruction: behind the stored address
    /// for a return, the target for a jump or call, four bytes ahead where a
    /// skip is taken, two bytes ahead otherwise.
    pub open spec fn next_pc(self, ins: Instruction) -> nat {
        match ins {
            Instruction::Return => self.stack[self.sp - 1] + 2,
            Instruction::Jump { nnn } => nnn as nat,
            Instruction::Call { nnn } => nnn as nat,
            Instruction::JumpOffset { nnn } => self.v[0] as nat + nnn as nat,
            Instruction::SkipEqByte { x, kk } => skip_if(self.v[x as int] == kk).target(self.pc),
            Instruction::SkipNeByte { x, kk } => skip_if(self.v[x as int] != kk).target(self.pc),
            Instruction::SkipEq { x, y } => skip_if(self.v[x as int] == self.v[y as int]).target(
                self.pc,
            ),
            Instruction::SkipNe { x, y } => skip_if(self.v[x as int] != self.v[y as int]).target(
                self.pc,
            ),
            Instruction::SkipKey { x } => skip_if(self.keypad[self.v[x as int] as int]).target(
                self.pc,
            ),
            Instruction::SkipNotKey { x } => skip_if(!self.keypad[self.v[x as int] as int]).target(
                self.pc,
            ),
            _ => self.pc + 2,
        }
    }

    /// The fault that belongs to the instruction itself, if the machine
    /// cannot execute it in this state.
    pub open spec fn trap(self, ins: Instruction) -> Option<Fault> {
        match ins {
            Instruction::Return => if self.sp == 0 {
                Some(Fault::StackUnderflow)
            } else if self.sp > 16 {
                Some(Fault::StackOverflow)
            } else {
                None
            },
            Instruction::Call { .. } => if self.sp >= 16 {
                Some(Fault::StackOverflow)
            } else {
                None
            },
            Instruction::Draw { n, .. } => if n > 0 && self.i + n > 4096 {
                Some(Fault::MemoryOutOfRange)
            } else {
                None
            },
            Instruction::SkipKey { x } | Instruction::SkipNotKey { x } => if self.v[x as int]
                >= 16 {
                Some(Fault::KeyOutOfRange)
            } else {
                None
            },
            Instruction::AddIndex { x } => if self.i + self.v[x as int] > usize::MAX {
                Some(Fault::AddressOverflow)
            } else {
                None
            },
            Instruction::Bcd { .. } => if self.i + 2 >= 4096 {
                Some(Fault::MemoryOutOfRange)
            } else {
                None
            },
            Instruction::Store { x } | Instruction::Load { x } => if self.i + x >= 4096 {
                Some(Fault::MemoryOutOfRange)
            } else {
                None
            },
            _ => None,
        }
    }

    /// The fault with which the machine refuses an instruction, if it does:
    /// the instruction's own, or else an overflow of the program counter.
    pub open spec fn fault(self, ins: Instruction) -> Option<Fault> {
        match self.trap(ins) {
            Some(fault) => Some(fault),
            None => if self.next_pc(ins) > usize::MAX {
                Some(Fault::AddressOverflow)
            } else {
                None
            },
        }
    }

    /// The machine after an instruction that it does not refuse.
    pub open spec fn execute(self, ins: Instruction, random: u8) -> Machine {
        Machine { pc: self.next_pc(ins), ..self.apply(ins, random) }
    }

    /// The machine after an instruction: unchanged where it is refused.
    pub open spec fn step(self, ins: Instruction, random: u8) -> Machine {
        if self.fault(ins) is Some {
            self
        } else {
            self.execute(ins, random)
        }
    }

    /// The fault with which the machine refuses an opcode, if it does.
    pub open spec fn run_fault(self, opcode: u16) -> Option<Fault> {
        match decode_spec(opcode) {
            None => Some(Fault::UnknownOpcode(opcode)),
            Some(ins) => self.fault(ins),
        }
    }

    /// The machine after an opcode: unchanged where it is refused.
    pub open spec fn run(self, opcode: u16, random: u8) -> Machine {
        match decode_spec(opcode) {
            None => self,
            Some(ins) => self.step(ins, random),
        }
    }

    /// Both timers one lower, unless they are at zero.
    pub open spec fn count_down(self) -> Machine {
        Machine {
            delay_timer: if self.delay_timer > 0 {
                (self.delay_timer - 1) as u8
            } else {
                0u8
            },
            sound_timer: if self.sound_timer > 0 {
                (self.sound_timer - 1) as u8
            } else {
                0u8
            },
            ..self
        }
    }

    /// The start of a tick: the keypad snapshot is replaced and the redraw
    /// flag lowered.
    pub open spec fn latch(self, keypad: Seq<bool>) -> Machine {
        Machine { keypad, redraw: false, ..self }
    }

    /// The wait state resolved by key `key`.
    pub open spec fn resume(self, key: int) -> Machine {
        Machine {
            v: self.v.update(self.waiting_keypad_register as int, key as u8),
            waiting_keypad: false,
            waiting_keypad_register: 0,
            ..self
        }
    }

    /// Whether a tick of this machine meets `Cxkk`, the one instruction whose
    /// outcome is up to chance.
    pub open spec fn at_random(self) -> bool {
        &&& !self.waiting_keypad
        &&& self.pc + 1 < 4096
        &&& decode_spec(self.opcode()) matches Some(Instruction::Random { .. })
    }

    /// The fault with which a tick ends, if it does.
    pub open spec fn tick_fault(self, keypad: Seq<bool>) -> Option<Fault> {
        if self.waiting_keypad {
            if lowest_key(keypad) is Some && self.waiting_keypad_register >= 16 {
                Some(Fault::RegisterOutOfRange)
            } else {
                None
            }
        } else if self.pc + 1 >= 4096 {
            Some(Fault::MemoryOutOfRange)
        } else {
            self.latch(keypad).count_down().run_fault(self.opcode())
        }
    }

    /// The machine after a tick with the given keys down.
    ///
    /// While it waits for a key, no timer moves and no instruction runs; the
    /// lowest key that is down ends the wait and lands in the target
    /// register. Otherwise the timers count down and the opcode at the
    /// program counter runs. A tick that ends in a fault has done all of this
    /// but the instruction.
    pub open spec fn tick(self, keypad: Seq<bool>, random: u8) -> Machine {
        let latched = self.latch(keypad);
        if self.waiting_keypad {
            match lowest_key(keypad) {
                Some(key) => if self.waiting_keypad_register < 16 {
                    latched.resume(key)
                } else {
                    latched
                },
                None => latched,
            }
        } else {
            let counted = latched.count_down();
            if self.pc + 1 >= 4096 {
                counted
            } else {
                counted.run(self.opcode(), random)
            }
        }
    }
}

/// `Skip` if the condition holds, `Next` otherwise.
pub open spec fn skip_if(condition: bool) -> ProgramCounter {
    if condition {
        ProgramCounter::Skip
    } else {
        ProgramCounter::Next
    }
}

} // verus!
