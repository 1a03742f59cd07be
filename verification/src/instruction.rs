//! The instruction set and its decoder.
//!
//! An opcode is a 16-bit word of four nibbles. The first nibble is the
//! instruction class; the others are, by class, register indices `x` and
//! `y`, a 4-bit count `n`, an 8-bit immediate `kk` (the low byte) or a 12-bit
//! address `nnn` (the low three nibbles).

use vstd::prelude::*;

verus! {

/// One decoded instruction, with its operands.
#[derive(Clone, Copy, Debug, PartialEq, Eq)]
pub enum Instruction {
    /// `00E0`: clear the framebuffer.
    Clear,
    /// `00EE`: return from a subroutine.
    Return,
    /// `1nnn`: jump to `nnn`.
    Jump { nnn: usize },
    /// `2nnn`: call the subroutine at `nnn`.
    Call { nnn: usize },
    /// `3xkk`: skip the next instruction if `Vx == kk`.
    SkipEqByte { x: usize, kk: u8 },
    /// `4xkk`: skip the next instruction if `Vx != kk`.
    SkipNeByte { x: usize, kk: u8 },
    /// `5xy0`: skip the next instruction if `Vx == Vy`.
    SkipEq { x: usize, y: usize },
    /// `6xkk`: `Vx = kk`.
    LoadByte { x: usize, kk: u8 },
    /// `7xkk`: `Vx = Vx + kk`, truncated to 8 bits, flag untouched.
    AddByte { x: usize, kk: u8 },
    /// `8xy0`: `Vx = Vy`.
    Move { x: usize, y: usize },
    /// `8xy1`: `Vx = Vx | Vy`.
    Or { x: usize, y: usize },
    /// `8xy2`: `Vx = Vx & Vy`.
    And { x: usize, y: usize },
    /// `8xy3`: `Vx = Vx ^ Vy`.
    Xor { x: usize, y: usize },
    /// `8xy4`: `Vx = Vx + Vy`, flag = carry.
    Add { x: usize, y: usize },
    /// `8xy5`: `Vx = Vx - Vy`, flag = `Vx > Vy`.
    Sub { x: usize, y: usize },
    /// `8xy6`: `Vx = Vx >> 1`, flag = the bit shifted out.
    ShiftRight { x: usize },
    /// `8xy7`: `Vx = Vy - Vx`, flag = `Vy > Vx`.
    SubFrom { x: usize, y: usize },
    /// `8xyE`: `Vx = Vx << 1`, flag = the bit shifted out.
    ShiftLeft { x: usize },
    /// `9xy0`: skip the next instruction if `Vx != Vy`.
    SkipNe { x: usize, y: usize },
    /// `Annn`: `I = nnn`.
    LoadIndex { nnn: usize },
    /// `Bnnn`: jump to `nnn + V0`.
    JumpOffset { nnn: usize },
    /// `Cxkk`: `Vx = random byte & kk`.
    Random { x: usize, kk: u8 },
    /// `Dxyn`: draw the `n`-row sprite at `I` at column `Vx`, row `Vy`.
    Draw { x: usize, y: usize, n: usize },
    /// `Ex9E`: skip the next instruction if the key `Vx` is down.
    SkipKey { x: usize },
    /// `ExA1`: skip the next instruction if the key `Vx` is up.
    SkipNotKey { x: usize },
    /// `Fx07`: `Vx = delay timer`.
    ReadDelay { x: usize },
    /// `Fx0A`: wait for a key and store its index in `Vx`.
    WaitKey { x: usize },
    /// `Fx15`: `delay timer = Vx`.
    SetDelay { x: usize },
    /// `Fx18`: `sound timer = Vx`.
    SetSound { x: usize },
    /// `Fx1E`: `I = I + Vx`.
    AddIndex { x: usize },
    /// `Fx29`: `I = 0x50 + 5 * Vx`, the address of the glyph of digit `Vx`.
    Glyph { x: usize },
    /// `Fx33`: store the three decimal digits of `Vx` at `I`, `I+1`, `I+2`.
    Bcd { x: usize },
    /// `Fx55`: store `V0..=Vx` at `I..=I+x`.
    Store { x: usize },
    /// `Fx65`: load `V0..=Vx` from `I..=I+x`.
    Load { x: usize },
}

impl Instruction {
    /// The operands are what a decoder can produce: register indices and the
    /// row count fit in a nibble, an address in twelve bits.
    pub open spec fn wf(self) -> bool {
        match self {
            Instruction::Clear | Instruction::Return => true,
            Instruction::Jump { nnn }
            | Instruction::Call { nnn }
            | Instruction::LoadIndex { nnn }
            | Instruction::JumpOffset { nnn } => nnn < 0x1000,
            Instruction::SkipEqByte { x, .. }
            | Instruction::SkipNeByte { x, .. }
            | Instruction::LoadByte { x, .. }
            | Instruction::AddByte { x, .. }
            | Instruction::Random { x, .. }
            | Instruction::ShiftRight { x }
            | Instruction::ShiftLeft { x }
            | Instruction::SkipKey { x }
            | Instruction::SkipNotKey { x }
            | Instruction::ReadDelay { x }
            | Instruction::WaitKey { x }
            | Instruction::SetDelay { x }
            | Instruction::SetSound { x }
            | Instruction::AddIndex { x }
            | Instruction::Glyph { x }
            | Instruction::Bcd { x }
            | Instruction::Store { x }
            | Instruction::Load { x } => x < 16,
            Instruction::SkipEq { x, y }
            | Instruction::Move { x, y }
            | Instruction::Or { x, y }
            | Instruction::And { x, y }
            | Instruction::Xor { x, y }
            | Instruction::Add { x, y }
            | Instruction::Sub { x, y }
            | Instruction::SubFrom { x, y }
            | Instruction::SkipNe { x, y } => x < 16 && y < 16,
            Instruction::Draw { x, y, n } => x < 16 && y < 16 && n < 16,
        }
    }
}

/// The first nibble of an opcode: its class.
pub open spec fn class_of(opcode: u16) -> int {
    opcode as int / 0x1000
}

/// The second nibble of an opcode.
pub open spec fn x_of(opcode: u16) -> usize {
    ((opcode as int / 0x100) % 0x10) as usize
}

/// The third nibble of an opcode.
pub open spec fn y_of(opcode: u16) -> usize {
    ((opcode as int / 0x10) % 0x10) as usize
}

/// The last nibble of an opcode.
pub open spec fn n_of(opcode: u16) -> usize {
    (opcode as int % 0x10) as usize
}

/// The low twelve bits of an opcode.
pub open spec fn nnn_of(opcode: u16) -> usize {
    (opcode as int % 0x1000) as usize
}

/// The low byte of an opcode.
pub open spec fn kk_of(opcode: u16) -> u8 {
    (opcode as int % 0x100) as u8
}

/// The instruction that an opcode encodes, or `None` where the opcode
/// matches no row of the table.
pub open spec fn decode_spec(opcode: u16) -> Option<Instruction> {
    let class = class_of(opcode);
    let x = x_of(opcode);
    let y = y_of(opcode);
    let n = n_of(opcode);
    let nnn = nnn_of(opcode);
    let kk = kk_of(opcode);
    if opcode == 0x00E0 {
        Some(Instruction::Clear)
    } else if opcode == 0x00EE {
        Some(Instruction::Return)
    } else if class == 0x1 {
        Some(Instruction::Jump { nnn })
    } else if class == 0x2 {
        Some(Instruction::Call { nnn })
    } else if class == 0x3 {
        Some(Instruction::SkipEqByte { x, kk })
    } else if class == 0x4 {
        Some(Instruction::SkipNeByte { x, kk })
    } else if class == 0x5 && n == 0x0 {
        Some(Instruction::SkipEq { x, y })
    } else if class == 0x6 {
        Some(Instruction::LoadByte { x, kk })
    } else if class == 0x7 {
        Some(Instruction::AddByte { x, kk })
    } else if class == 0x8 && n == 0x0 {
        Some(Instruction::Move { x, y })
    } else if class == 0x8 && n == 0x1 {
        Some(Instruction::Or { x, y })
    } else if class == 0x8 && n == 0x2 {
        Some(Instruction::And { x, y })
    } else if class == 0x8 && n == 0x3 {
        Some(Instruction::Xor { x, y })
    } else if class == 0x8 && n == 0x4 {
        Some(Instruction::Add { x, y })
    } else if class == 0x8 && n == 0x5 {
        Some(Instruction::Sub { x, y })
    } else if class == 0x8 && n == 0x6 {
        Some(Instruction::ShiftRight { x })
    } else if class == 0x8 && n == 0x7 {
        Some(Instruction::SubFrom { x, y })
    } else if class == 0x8 && n == 0xE {
        Some(Instruction::ShiftLeft { x })
    } else if class == 0x9 && n == 0x0 {
        Some(Instruction::SkipNe { x, y })
    } else if class == 0xA {
        Some(Instruction::LoadIndex { nnn })
    } else if class == 0xB {
        Some(Instruction::JumpOffset { nnn })
    } else if class == 0xC {
        Some(Instruction::Random { x, kk })
    } else if class == 0xD {
        Some(Instruction::Draw { x, y, n })
    } else if class == 0xE && kk == 0x9E {
        Some(Instruction::SkipKey { x })
    } else if class == 0xE && kk == 0xA1 {
        Some(Instruction::SkipNotKey { x })
    } else if class == 0xF && kk == 0x07 {
        Some(Instruction::ReadDelay { x })
    } else if class == 0xF && kk == 0x0A {
        Some(Instruction::WaitKey { x })
    } else if class == 0xF && kk == 0x15 {
        Some(Instruction::SetDelay { x })
    } else if class == 0xF && kk == 0x18 {
        Some(Instruction::SetSound { x })
    } else if class == 0xF && kk == 0x1E {
        Some(Instruction::AddIndex { x })
    } else if class == 0xF && kk == 0x29 {
        Some(Instruction::Glyph { x })
    } else if class == 0xF && kk == 0x33 {
        Some(Instruction::Bcd { x })
    } else if class == 0xF && kk == 0x55 {
        Some(Instruction::Store { x })
    } else if class == 0xF && kk == 0x65 {
        Some(Instruction::Load { x })
    } else {
        None
    }
}

/// Decodes an opcode. Pure: the result depends on the opcode alone.
pub fn decode(opcode: u16) -> (result: Option<Instruction>)
    ensures
        result == decode_spec(opcode),
        result matches Some(ins) ==> ins.wf(),
{
    let n1: u16 = (opcode & 0xF000) >> 12;
    let n2: u16 = (opcode & 0x0F00) >> 8;
    let n3: u16 = (opcode & 0x00F0) >> 4;
    let n4: u16 = opcode & 0x000F;
    let nnn: usize = (opcode & 0x0FFF) as usize;
    let kk: u8 = (opcode & 0x00FF) as u8;
    let x: usize = n2 as usize;
    let y: usize = n3 as usize;
    let n: usize = n4 as usize;
    proof {
        assert((opcode & 0xF000) >> 12 == opcode / 0x1000) by (bit_vector);
        assert((opcode & 0x0F00) >> 8 == (opcode / 0x100) % 0x10) by (bit_vector);
        assert((opcode & 0x00F0) >> 4 == (opcode / 0x10) % 0x10) by (bit_vector);
        assert(opcode & 0x000F == opcode % 0x10) by (bit_vector);
        assert(opcode & 0x0FFF == opcode % 0x1000) by (bit_vector);
        assert(opcode & 0x00FF == opcode % 0x100) by (bit_vector);
    }
    match (n1, n2, n3, n4) {
        (0x0, 0x0, 0xE, 0x0) => Some(Instruction::Clear),
        (0x0, 0x0, 0xE, 0xE) => Some(Instruction::Return),
        (0x1, _, _, _) => Some(Instruction::Jump { nnn }),
        (0x2, _, _, _) => Some(Instruction::Call { nnn }),
        (0x3, _, _, _) => Some(Instruction::SkipEqByte { x, kk }),
        (0x4, _, _, _) => Some(Instruction::SkipNeByte { x, kk }),
        (0x5, _, _, 0x0) => Some(Instruction::SkipEq { x, y }),
        (0x6, _, _, _) => Some(Instruction::LoadByte { x, kk }),
        (0x7, _, _, _) => Some(Instruction::AddByte { x, kk }),
        (0x8, _, _, 0x0) => Some(Instruction::Move { x, y }),
        (0x8, _, _, 0x1) => Some(Instruction::Or { x, y }),
        (0x8, _, _, 0x2) => Some(Instruction::And { x, y }),
        (0x8, _, _, 0x3) => Some(Instruction::Xor { x, y }),
        (0x8, _, _, 0x4) => Some(Instruction::Add { x, y }),
        (0x8, _, _, 0x5) => Some(Instruction::Sub { x, y }),
        (0x8, _, _, 0x6) => Some(Instruction::ShiftRight { x }),
        (0x8, _, _, 0x7) => Some(Instruction::SubFrom { x, y }),
        (0x8, _, _, 0xE) => Some(Instruction::ShiftLeft { x }),
        (0x9, _, _, 0x0) => Some(Instruction::SkipNe { x, y }),
        (0xA, _, _, _) => Some(Instruction::LoadIndex { nnn }),
        (0xB, _, _, _) => Some(Instruction::JumpOffset { nnn }),
        (0xC, _, _, _) => Some(Instruction::Random { x, kk }),
        (0xD, _, _, _) => Some(Instruction::Draw { x, y, n }),
        (0xE, _, 0x9, 0xE) => Some(Instruction::SkipKey { x }),
        (0xE, _, 0xA, 0x1) => Some(Instruction::SkipNotKey { x }),
        (0xF, _, 0x0, 0x7) => Some(Instruction::ReadDelay { x }),
        (0xF, _, 0x0, 0xA) => Some(Instruction::WaitKey { x }),
        (0xF, _, 0x1, 0x5) => Some(Instruction::SetDelay { x }),
        (0xF, _, 0x1, 0x8) => Some(Instruction::SetSound { x }),
        (0xF, _, 0x1, 0xE) => Some(Instruction::AddIndex { x }),
        (0xF, _, 0x2, 0x9) => Some(Instruction::Glyph { x }),
        (0xF, _, 0x3, 0x3) => Some(Instruction::Bcd { x }),
        (0xF, _, 0x5, 0x5) => Some(Instruction::Store { x }),
        (0xF, _, 0x6, 0x5) => Some(Instruction::Load { x }),
        _ => None,
    }
}

/// Whatever an opcode decodes to has operands in range.
pub proof fn lemma_decode_wf(opcode: u16)
    ensures
        decode_spec(opcode) matches Some(ins) ==> ins.wf(),
{
}

} // verus!
