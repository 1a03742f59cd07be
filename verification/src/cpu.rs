//! The executable machine.

use vstd::prelude::*;
use crate::font::{
    CHIP8_GFX_HEIGHT, CHIP8_GFX_WIDTH, CHIP8_N_KEYS, CHIP8_N_REGISTERS, CHIP8_PROGRAM_START,
    CHIP8_RAM_SIZE, CHIP8_STACK_DEPTH, FONT_BASE, FONT_LEN, FONT_SET,
};
use crate::instruction::{decode, decode_spec, Instruction};
use crate::laws::law_execute_keeps_inv;
use crate::machine::{
    lowest_key, lowest_key_from, skip_if, Fault, Machine, ProgramCounter,
};

verus! {

/// A CHIP-8: memory, registers, timers, keypad, framebuffer.
///
/// All of it is open to the driver, which reads `vram`, `redraw` and
/// `sound_timer` after each tick and may set up any state it likes:
/// [`CPU::tick`], [`CPU::exec_opcode`] and [`CPU::load_game`] rely on no
/// field being in range.
pub struct CPU {
    /// Memory.
    pub ram: [u8; CHIP8_RAM_SIZE],
    /// Framebuffer, by row and column; a pixel is 0 or 1.
    pub vram: [[u8; CHIP8_GFX_WIDTH]; CHIP8_GFX_HEIGHT],
    /// General registers `V0..VF`; `VF` is the flag register.
    pub v: [u8; CHIP8_N_REGISTERS],
    /// Index register `I`.
    pub i: usize,
    /// Program counter.
    pub pc: usize,
    /// Call stack.
    pub stack: [usize; CHIP8_STACK_DEPTH],
    /// Number of return addresses on the stack.
    pub sp: usize,
    /// Delay timer.
    pub delay_timer: u8,
    /// Sound timer; the tone is on while it is not zero.
    pub sound_timer: u8,
    /// Keys that were down at the start of the current tick.
    pub keypad: [bool; CHIP8_N_KEYS],
    /// Whether the machine waits for a key.
    pub waiting_keypad: bool,
    /// The register that receives the key the machine waits for.
    pub waiting_keypad_register: usize,
    /// Whether the framebuffer changed during the current tick.
    pub redraw: bool,
}

impl View for CPU {
    type V = Machine;

    open spec fn view(&self) -> Machine {
        Machine {
            ram: self.ram@,
            vram: Seq::new(32, |r: int| self.vram@[r]@),
            v: self.v@,
            i: self.i as nat,
            pc: self.pc as nat,
            stack: Seq::new(16, |k: int| self.stack@[k] as nat),
            sp: self.sp as nat,
            delay_timer: self.delay_timer,
            sound_timer: self.sound_timer,
            keypad: self.keypad@,
            waiting_keypad: self.waiting_keypad,
            waiting_keypad_register: self.waiting_keypad_register as nat,
            redraw: self.redraw,
        }
    }
}

impl CPU {
    /// A new machine: memory zero but for the glyph table, registers and
    /// timers zero, the stack empty, no key down, the framebuffer dark, the
    /// program counter at the load address.
    pub fn new() -> (cpu: CPU)
        ensures
            cpu@ == Machine::initial(),
            cpu@.inv(),
    {
        let mut cpu = CPU {
            ram: [0; CHIP8_RAM_SIZE],
            vram: [[0; CHIP8_GFX_WIDTH]; CHIP8_GFX_HEIGHT],
            v: [0; CHIP8_N_REGISTERS],
            i: 0,
            pc: CHIP8_PROGRAM_START,
            stack: [0; CHIP8_STACK_DEPTH],
            sp: 0,
            delay_timer: 0,
            sound_timer: 0,
            keypad: [false; CHIP8_N_KEYS],
            waiting_keypad: false,
            waiting_keypad_register: 0,
            redraw: false,
        };
        let mut k: usize = 0;
        while k < FONT_LEN
            invariant
                k <= FONT_LEN,
                cpu@ =~~= (Machine {
                    ram: Seq::new(
                        4096,
                        |a: int|
                            if FONT_BASE <= a < FONT_BASE + k {
                                FONT_SET[a - FONT_BASE]
                            } else {
                                0u8
                            },
                    ),
                    ..Machine::initial()
                }),
            decreases FONT_LEN - k,
        {
            cpu.ram[FONT_BASE + k] = FONT_SET[k];
            k += 1;
        }
        cpu
    }

    /// The model of any machine has the machine's dimensions.
    pub proof fn lemma_view_wf(&self)
        ensures
            self@.wf(),
    {
    }

    /// Whether the tone is on: it sounds while the sound timer is not zero.
    pub fn tone_on(&self) -> (on: bool)
        ensures
            on == (self@.sound_timer != 0),
    {
        self.sound_timer > 0
    }

    /// The byte at `addr`.
    pub fn read(&self, addr: usize) -> (byte: u8)
        requires
            addr < 4096,
        ensures
            byte == self@.ram[addr as int],
    {
        self.ram[addr]
    }

    /// Stores `byte` at `addr`.
    pub fn write(&mut self, addr: usize, byte: u8)
        requires
            addr < 4096,
        ensures
            final(self)@ == (Machine { ram: old(self)@.ram.update(addr as int, byte), ..old(self)@ }),
    {
        self.ram[addr] = byte;
    }

    /// Loads a program image at `0x200` and points the program counter
    /// there. An image longer than the 3584 bytes from there to the end of
    /// memory is cut off at the end of memory and reported.
    pub fn load_game(&mut self, image: &[u8]) -> (result: Result<(), Fault>)
        ensures
            final(self)@ == old(self)@.load(image@),
            result == if image@.len() <= 4096 - 0x200 {
                Ok::<(), Fault>(())
            } else {
                Err::<(), Fault>(Fault::ProgramTooLarge)
            },
            old(self)@.inv() ==> final(self)@.inv(),
    {
        let room: usize = CHIP8_RAM_SIZE - CHIP8_PROGRAM_START;
        let count: usize = if image.len() < room {
            image.len()
        } else {
            room
        };
        self.pc = CHIP8_PROGRAM_START;
        let mut k: usize = 0;
        while k < count
            invariant
                k <= count <= room,
                count <= image@.len(),
                room == 4096 - 0x200,
                self@ =~~= old(self)@.load(image@.take(k as int)),
            decreases count - k,
        {
            self.ram[CHIP8_PROGRAM_START + k] = image[k];
            k += 1;
        }
        if image.len() > room {
            Err(Fault::ProgramTooLarge)
        } else {
            Ok(())
        }
    }

    /// The opcode at the program counter.
    pub fn get_opcode(&self) -> (opcode: u16)
        requires
            self.pc + 1 < 4096,
        ensures
            opcode == self@.opcode(),
    {
        let high: u8 = self.ram[self.pc];
        let low: u8 = self.ram[self.pc + 1];
        assert(((high as u16) << 8) | (low as u16) == high as u16 * 256 + low as u16)
            by (bit_vector);
        ((high as u16) << 8) | (low as u16)
    }

    /// The fault that an instruction meets when it is to move the program
    /// counter on by two bytes, or by four where it skips.
    fn advance_fault(&self, skip: bool) -> (fault: Option<Fault>)
        ensures
            fault == if skip_if(skip).target(self@.pc) > usize::MAX {
                Some(Fault::AddressOverflow)
            } else {
                None::<Fault>
            },
    {
        let width: usize = if skip {
            4
        } else {
            2
        };
        if self.pc > usize::MAX - width {
            Some(Fault::AddressOverflow)
        } else {
            None
        }
    }

    /// The fault with which the machine would refuse `ins` as it stands.
    pub fn fault_of(&self, ins: Instruction) -> (fault: Option<Fault>)
        requires
            ins.wf(),
        ensures
            fault == self@.fault(ins),
    {
        match ins {
            Instruction::Return => {
                if self.sp == 0 {
                    Some(Fault::StackUnderflow)
                } else if self.sp > CHIP8_STACK_DEPTH {
                    Some(Fault::StackOverflow)
                } else if self.stack[self.sp - 1] > usize::MAX - 2 {
                    Some(Fault::AddressOverflow)
                } else {
                    None
                }
            },
            Instruction::Call { .. } => {
                if self.sp >= CHIP8_STACK_DEPTH {
                    Some(Fault::StackOverflow)
                } else {
                    None
                }
            },
            Instruction::Jump { .. } | Instruction::JumpOffset { .. } => None,
            Instruction::SkipEqByte { x, kk } => self.advance_fault(self.v[x] == kk),
            Instruction::SkipNeByte { x, kk } => self.advance_fault(self.v[x] != kk),
            Instruction::SkipEq { x, y } => self.advance_fault(self.v[x] == self.v[y]),
            Instruction::SkipNe { x, y } => self.advance_fault(self.v[x] != self.v[y]),
            Instruction::SkipKey { x } => {
                if self.v[x] as usize >= CHIP8_N_KEYS {
                    Some(Fault::KeyOutOfRange)
                } else {
                    self.advance_fault(self.keypad[self.v[x] as usize])
                }
            },
            Instruction::SkipNotKey { x } => {
                if self.v[x] as usize >= CHIP8_N_KEYS {
                    Some(Fault::KeyOutOfRange)
                } else {
                    self.advance_fault(!self.keypad[self.v[x] as usize])
                }
            },
            Instruction::Draw { n, .. } => {
                if n > 0 && self.i > CHIP8_RAM_SIZE - n {
                    Some(Fault::MemoryOutOfRange)
                } else {
                    self.advance_fault(false)
                }
            },
            Instruction::AddIndex { x } => {
                if self.i > usize::MAX - self.v[x] as usize {
                    Some(Fault::AddressOverflow)
                } else {
                    self.advance_fault(false)
                }
            },
            Instruction::Bcd { .. } => {
                if self.i >= CHIP8_RAM_SIZE - 2 {
                    Some(Fault::MemoryOutOfRange)
                } else {
                    self.advance_fault(false)
                }
            },
            Instruction::Store { x } | Instruction::Load { x } => {
                if self.i >= CHIP8_RAM_SIZE - x {
                    Some(Fault::MemoryOutOfRange)
                } else {
                    self.advance_fault(false)
                }
            },
            _ => self.advance_fault(false),
        }
    }

    /// Routes an instruction to its handler.
    fn dispatch(&mut self, ins: Instruction) -> (effect: ProgramCounter)
        requires
            ins.wf(),
            old(self)@.fault(ins) is None,
        ensures
            exists|random: u8| final(self)@ == old(self)@.apply(ins, random),
            !(ins is Random) ==> forall|random: u8| final(self)@ == old(self)@.apply(ins, random),
            effect.target(old(self)@.pc) == old(self)@.next_pc(ins),
            effect.target(old(self)@.pc) <= usize::MAX,
    {
        let effect: ProgramCounter = match ins {
            Instruction::Clear => self.op_00e0(),
            Instruction::Return => self.op_00ee(),
            Instruction::Jump { nnn } => self.op_1nnn(nnn),
            Instruction::Call { nnn } => self.op_2nnn(nnn),
            Instruction::SkipEqByte { x, kk } => self.op_3xkk(x, kk),
            Instruction::SkipNeByte { x, kk } => self.op_4xkk(x, kk),
            Instruction::SkipEq { x, y } => self.op_5xy0(x, y),
            Instruction::LoadByte { x, kk } => self.op_6xkk(x, kk),
            Instruction::AddByte { x, kk } => self.op_7xkk(x, kk),
            Instruction::Move { x, y } => self.op_8xy0(x, y),
            Instruction::Or { x, y } => self.op_8xy1(x, y),
            Instruction::And { x, y } => self.op_8xy2(x, y),
            Instruction::Xor { x, y } => self.op_8xy3(x, y),
            Instruction::Add { x, y } => self.op_8xy4(x, y),
            Instruction::Sub { x, y } => self.op_8xy5(x, y),
            Instruction::ShiftRight { x } => self.op_8xy6(x),
            Instruction::SubFrom { x, y } => self.op_8xy7(x, y),
            Instruction::ShiftLeft { x } => self.op_8xye(x),
            Instruction::SkipNe { x, y } => self.op_9xy0(x, y),
            Instruction::LoadIndex { nnn } => self.op_annn(nnn),
            Instruction::JumpOffset { nnn } => self.op_bnnn(nnn),
            Instruction::Random { x, kk } => self.op_cxkk(x, kk),
            Instruction::Draw { x, y, n } => self.op_dxyn(x, y, n),
            Instruction::SkipKey { x } => self.op_ex9e(x),
            Instruction::SkipNotKey { x } => self.op_exa1(x),
            Instruction::ReadDelay { x } => self.op_fx07(x),
            Instruction::WaitKey { x } => self.op_fx0a(x),
            Instruction::SetDelay { x } => self.op_fx15(x),
            Instruction::SetSound { x } => self.op_fx18(x),
            Instruction::AddIndex { x } => self.op_fx1e(x),
            Instruction::Glyph { x } => self.op_fx29(x),
            Instruction::Bcd { x } => self.op_fx33(x),
            Instruction::Store { x } => self.op_fx55(x),
            Instruction::Load { x } => self.op_fx65(x),
        };
        proof {
            match ins {
                Instruction::Random { x, kk } => {
                    let random = choose|random: u8| self@ == old(self)@.set(x as int, random & kk);
                    assert(self@ == old(self)@.apply(ins, random));
                },
                _ => {
                    assert(self@ == old(self)@.apply(ins, 0u8));
                },
            }
        }
        effect
    }

    /// Executes one decoded instruction and moves the program counter as the
    /// instruction says. An instruction that the machine cannot execute
    /// leaves it unchanged, program counter included.
    pub fn step(&mut self, ins: Instruction) -> (result: Result<(), Fault>)
        requires
            ins.wf(),
        ensures
            result == match old(self)@.fault(ins) {
                Some(fault) => Err::<(), Fault>(fault),
                None => Ok::<(), Fault>(()),
            },
            exists|random: u8| final(self)@ == old(self)@.step(ins, random),
            !(ins is Random) ==> forall|random: u8| final(self)@ == old(self)@.step(ins, random),
            old(self)@.inv() ==> final(self)@.inv(),
    {
        match self.fault_of(ins) {
            Some(fault) => {
                assert(self@ == old(self)@.step(ins, 0u8));
                Err(fault)
            },
            None => {
                let effect: ProgramCounter = self.dispatch(ins);
                let ghost random = choose|random: u8| self@ == old(self)@.apply(ins, random);
                match effect {
                    ProgramCounter::Next => self.pc += 2,
                    ProgramCounter::Skip => self.pc += 4,
                    ProgramCounter::Jump(address) => self.pc = address,
                }
                assert(self@ =~~= old(self)@.step(ins, random));
                proof {
                    if old(self)@.inv() {
                        law_execute_keeps_inv(old(self)@, ins, random);
                    }
                }
                Ok(())
            },
        }
    }

    /// Decodes and executes one opcode. An opcode that matches no
    /// instruction, or one that the machine cannot execute, is reported and
    /// leaves the machine unchanged: the program counter does not move.
    pub fn exec_opcode(&mut self, opcode: u16) -> (result: Result<(), Fault>)
        ensures
            result == match old(self)@.run_fault(opcode) {
                Some(fault) => Err::<(), Fault>(fault),
                None => Ok::<(), Fault>(()),
            },
            exists|random: u8| final(self)@ == old(self)@.run(opcode, random),
            !(decode_spec(opcode) matches Some(Instruction::Random { .. })) ==> forall|random: u8|
                final(self)@ == old(self)@.run(opcode, random),
            old(self)@.inv() ==> final(self)@.inv(),
    {
        match decode(opcode) {
            None => {
                assert(self@ == old(self)@.run(opcode, 0u8));
                Err(Fault::UnknownOpcode(opcode))
            },
            Some(ins) => {
                let result = self.step(ins);
                proof {
                    let random = choose|random: u8| self@ == old(self)@.step(ins, random);
                    assert(self@ == old(self)@.run(opcode, random));
                }
                result
            },
        }
    }

    /// One time step with the given keys down.
    ///
    /// The keypad snapshot is replaced and the redraw flag lowered. While
    /// the machine waits for a key, nothing else happens until a key is
    /// down; then the lowest such key lands in the waiting register and the
    /// wait ends. Otherwise both timers count down, unless at zero, and the
    /// opcode at the program counter is executed.
    ///
    /// A tick that ends in a fault has done all of that but the instruction.
    /// Nothing of a tick is up to chance unless it meets `Cxkk`.
    pub fn tick(&mut self, keypad: [bool; 16]) -> (result: Result<(), Fault>)
        ensures
            result == match old(self)@.tick_fault(keypad@) {
                Some(fault) => Err::<(), Fault>(fault),
                None => Ok::<(), Fault>(()),
            },
            exists|random: u8| final(self)@ == old(self)@.tick(keypad@, random),
            !old(self)@.at_random() ==> forall|random: u8|
                final(self)@ == old(self)@.tick(keypad@, random),
            old(self)@.inv() ==> final(self)@.inv(),
    {
        self.keypad = keypad;
        self.redraw = false;
        if !self.waiting_keypad {
            if self.delay_timer > 0 {
                self.delay_timer -= 1;
            }
            if self.sound_timer > 0 {
                self.sound_timer -= 1;
            }
            if self.pc >= CHIP8_RAM_SIZE - 1 {
                assert(self@ == old(self)@.tick(keypad@, 0u8));
                return Err(Fault::MemoryOutOfRange);
            }
            let opcode: u16 = self.get_opcode();
            let ghost counted = self@;
            let result = self.exec_opcode(opcode);
            proof {
                let random = choose|random: u8| self@ == counted.run(opcode, random);
                assert(self@ == old(self)@.tick(keypad@, random));
            }
            result
        } else {
            match first_key_down(&keypad) {
                Some(key) => {
                    if self.waiting_keypad_register < CHIP8_N_REGISTERS {
                        self.v[self.waiting_keypad_register] = key;
                        self.waiting_keypad = false;
                        self.waiting_keypad_register = 0x0;
                        assert(self@ == old(self)@.tick(keypad@, 0u8));
                        Ok(())
                    } else {
                        assert(self@ == old(self)@.tick(keypad@, 0u8));
                        Err(Fault::RegisterOutOfRange)
                    }
                },
                None => {
                    assert(self@ == old(self)@.tick(keypad@, 0u8));
                    Ok(())
                },
            }
        }
    }
}

/// The lowest key that is down, if any.
pub fn first_key_down(keypad: &[bool; 16]) -> (key: Option<u8>)
    ensures
        match key {
            Some(k) => lowest_key(keypad@) == Some(k as int),
            None => lowest_key(keypad@) is None,
        },
{
    let mut k: u8 = 0;
    while k < 16
        invariant
            k <= 16,
            lowest_key(keypad@) == lowest_key_from(keypad@, k as int),
        decreases 16 - k,
    {
        if keypad[k as usize] {
            return Some(k);
        }
        k += 1;
    }
    None
}

} // verus!
