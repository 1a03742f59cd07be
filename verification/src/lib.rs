//! The execution engine of a CHIP-8 virtual machine: memory, registers,
//! timers, keypad, framebuffer, the instruction decoder and the handlers of
//! the instruction set, each with a contract over a mathematical model of
//! the machine.
//!
//! A driver owns one [`CPU`], loads a program image into it and calls
//! [`CPU::tick`] once per time step with the keys that are down. Between
//! ticks it reads `vram` when `redraw` is set and gates a tone on
//! `sound_timer`.
//!
//! What the machine cannot do (an opcode outside the table, a call on a full
//! stack, a return on an empty one, an access beyond memory) comes back as a
//! [`Fault`], and the machine is left as it was before the instruction.

pub mod cpu;
pub mod font;
pub mod handlers;
pub mod instruction;
pub mod laws;
pub mod machine;
mod random;
pub mod screen;

pub use cpu::{first_key_down, CPU};
pub use font::{
    CHIP8_GFX_HEIGHT, CHIP8_GFX_WIDTH, CHIP8_N_KEYS, CHIP8_N_REGISTERS, CHIP8_PROGRAM_START,
    CHIP8_RAM_SIZE, CHIP8_STACK_DEPTH, FONT_SET,
};
pub use instruction::{decode, Instruction};
pub use machine::{Fault, Machine, ProgramCounter};
