//! Instruction words and their decoded form.

use vstd::prelude::*;

verus! {

/// One decoded instruction. Register operands are indices into the register
/// file, addresses are twelve-bit memory addresses.
#[derive(Clone, Copy, Debug, PartialEq, Eq, Structural)]
pub enum Opcode {
    /// `00E0`: blank the framebuffer.
    ClearScreen,
    /// `00EE`: return from a subroutine.
    Return,
    /// `1NNN`: continue at `addr`.
    Jump { addr: u16 },
    /// `2NNN`: call the subroutine at `addr`.
    Call { addr: u16 },
    /// `3XNN`: skip the next instruction if `Vx == byte`.
    SkipEqImm { x: u8, byte: u8 },
    /// `4XNN`: skip the next instruction if `Vx != byte`.
    SkipNeImm { x: u8, byte: u8 },
    /// `5XY0`: skip the next instruction if `Vx == Vy`.
    SkipEqReg { x: u8, y: u8 },
    /// `6XNN`: `Vx := byte`.
    LoadImm { x: u8, byte: u8 },
    /// `7XNN`: `Vx := Vx + byte`, wrapping, flag untouched.
    AddImm { x: u8, byte: u8 },
    /// `8XY0`: `Vx := Vy`.
    Move { x: u8, y: u8 },
    /// `8XY1`: `Vx := Vx | Vy`.
    Or { x: u8, y: u8 },
    /// `8XY2`: `Vx := Vx & Vy`.
    And { x: u8, y: u8 },
    /// `8XY3`: `Vx := Vx ^ Vy`.
    Xor { x: u8, y: u8 },
    /// `8XY4`: `Vx := Vx + Vy`, wrapping, `VF` := carry.
    Add { x: u8, y: u8 },
    /// `8XY5`: `Vx := Vx - Vy`, wrapping, `VF` := no borrow.
    Sub { x: u8, y: u8 },
    /// `8XY6`: `Vx := Vy >> 1`, `VF` := bit 0 of `Vy`.
    ShiftRight { x: u8, y: u8 },
    /// `8XY7`: `Vx := Vy - Vx`, wrapping, `VF` := no borrow.
    SubReverse { x: u8, y: u8 },
    /// `8XYE`: `Vx := Vy << 1`, `VF` := bit 7 of `Vy`.
    ShiftLeft { x: u8, y: u8 },
    /// `9XY0`: skip the next instruction if `Vx != Vy`.
    SkipNeReg { x: u8, y: u8 },
    /// `ANNN`: `I := addr`.
    LoadIndex { addr: u16 },
    /// `BNNN`: continue at `addr + V0`.
    JumpOffset { addr: u16 },
    /// `CXNN`: `Vx := random & mask`.
    Random { x: u8, mask: u8 },
    /// `DXYN`: draw `rows` sprite rows from memory at `I` at `(Vx, Vy)`.
    Draw { x: u8, y: u8, rows: u8 },
    /// `EX9E`: skip the next instruction if key `Vx` is pressed.
    SkipKeyPressed { x: u8 },
    /// `EXA1`: skip the next instruction if key `Vx` is not pressed.
    SkipKeyReleased { x: u8 },
    /// `FX07`: `Vx := delay timer`.
    ReadDelay { x: u8 },
    /// `FX0A`: wait for a key and store its index in `Vx`.
    WaitKey { x: u8 },
    /// `FX15`: `delay timer := Vx`.
    SetDelay { x: u8 },
    /// `FX18`: `sound timer := Vx`.
    SetSound { x: u8 },
    /// `FX1E`: `I := I + Vx`.
    AddIndex { x: u8 },
    /// `FX29`: `I :=` address of the glyph for the low nibble of `Vx`.
    FontAddress { x: u8 },
    /// `FX33`: store the decimal digits of `Vx` at `I`, `I + 1`, `I + 2`.
    Bcd { x: u8 },
    /// `FX55`: store `V0..=Vx` at `I..=I + x`.
    StoreRegisters { x: u8 },
    /// `FX65`: load `V0..=Vx` from `I..=I + x`.
    LoadRegisters { x: u8 },
    /// Any word that matches no pattern above.
    Unknown(u16),
}

/// The most significant nibble of an instruction word.
pub open spec fn class_of(word: u16) -> int {
    word as int / 4096
}

/// The second nibble: the `X` register operand.
pub open spec fn x_of(word: u16) -> u8 {
    ((word as int / 256) % 16) as u8
}

/// The third nibble: the `Y` register operand.
pub open spec fn y_of(word: u16) -> u8 {
    ((word as int / 16) % 16) as u8
}

/// The least significant nibble `N`.
pub open spec fn nibble_of(word: u16) -> u8 {
    (word as int % 16) as u8
}

/// The low byte `NN`.
pub open spec fn byte_of(word: u16) -> u8 {
    (word as int % 256) as u8
}

/// The low twelve bits `NNN`.
pub open spec fn addr_of(word: u16) -> u16 {
    (word as int % 4096) as u16
}

/// The instruction that a word stands for.
pub open spec fn decode_spec(word: u16) -> Opcode {
    let x = x_of(word);
    let y = y_of(word);
    let n = nibble_of(word);
    let byte = byte_of(word);
    let addr = addr_of(word);
    let class = class_of(word);
    if word == 0x00E0 {
        Opcode::ClearScreen
    } else if word == 0x00EE {
        Opcode::Return
    } else if class == 0x1 {
        Opcode::Jump { addr }
    } else if class == 0x2 {
        Opcode::Call { addr }
    } else if class == 0x3 {
        Opcode::SkipEqImm { x, byte }
    } else if class == 0x4 {
        Opcode::SkipNeImm { x, byte }
    } else if class == 0x5 && n == 0 {
        Opcode::SkipEqReg { x, y }
    } else if class == 0x6 {
        Opcode::LoadImm { x, byte }
    } else if class == 0x7 {
        Opcode::AddImm { x, byte }
    } else if class == 0x8 && n == 0x0 {
        Opcode::Move { x, y }
    } else if class == 0x8 && n == 0x1 {
        Opcode::Or { x, y }
    } else if class == 0x8 && n == 0x2 {
        Opcode::And { x, y }
    } else if class == 0x8 && n == 0x3 {
        Opcode::Xor { x, y }
    } else if class == 0x8 && n == 0x4 {
        Opcode::Add { x, y }
    } else if class == 0x8 && n == 0x5 {
        Opcode::Sub { x, y }
    } else if class == 0x8 && n == 0x6 {
        Opcode::ShiftRight { x, y }
    } else if class == 0x8 && n == 0x7 {
        Opcode::SubReverse { x, y }
    } else if class == 0x8 && n == 0xE {
        Opcode::ShiftLeft { x, y }
    } else if class == 0x9 && n == 0 {
        Opcode::SkipNeReg { x, y }
    } else if class == 0xA {
        Opcode::LoadIndex { addr }
    } else if class == 0xB {
        Opcode::JumpOffset { addr }
    } else if class == 0xC {
        Opcode::Random { x, mask: byte }
    } else if class == 0xD {
        Opcode::Draw { x, y, rows: n }
    } else if class == 0xE && byte == 0x9E {
        Opcode::SkipKeyPressed { x }
    } else if class == 0xE && byte == 0xA1 {
        Opcode::SkipKeyReleased { x }
    } else if class == 0xF && byte == 0x07 {
        Opcode::ReadDelay { x }
    } else if class == 0xF && byte == 0x0A {
        Opcode::WaitKey { x }
    } else if class == 0xF && byte == 0x15 {
        Opcode::SetDelay { x }
    } else if class == 0xF && byte == 0x18 {
        Opcode::SetSound { x }
    } else if class == 0xF && byte == 0x1E {
        Opcode::AddIndex { x }
    } else if class == 0xF && byte == 0x29 {
        Opcode::FontAddress { x }
    } else if class == 0xF && byte == 0x33 {
        Opcode::Bcd { x }
    } else if class == 0xF && byte == 0x55 {
        Opcode::StoreRegisters { x }
    } else if class == 0xF && byte == 0x65 {
        Opcode::LoadRegisters { x }
    } else {
        Opcode::Unknown(word)
    }
}

impl Opcode {
    /// Every register operand names one of the sixteen registers, every
    /// address fits in twelve bits and a sprite has at most fifteen rows.
    pub open spec fn wf(self) -> bool {
        match self {
            Opcode::ClearScreen | Opcode::Return | Opcode::Unknown(_) => true,
            Opcode::Jump { addr }
            | Opcode::Call { addr }
            | Opcode::LoadIndex { addr }
            | Opcode::JumpOffset { addr } => addr < 4096,
            Opcode::SkipEqImm { x, .. }
            | Opcode::SkipNeImm { x, .. }
            | Opcode::LoadImm { x, .. }
            | Opcode::AddImm { x, .. }
            | Opcode::Random { x, .. }
            | Opcode::SkipKeyPressed { x }
            | Opcode::SkipKeyReleased { x }
            | Opcode::ReadDelay { x }
            | Opcode::WaitKey { x }
            | Opcode::SetDelay { x }
            | Opcode::SetSound { x }
            | Opcode::AddIndex { x }
            | Opcode::FontAddress { x }
            | Opcode::Bcd { x }
            | Opcode::StoreRegisters { x }
            | Opcode::LoadRegisters { x } => x < 16,
            Opcode::SkipEqReg { x, y }
            | Opcode::Move { x, y }
            | Opcode::Or { x, y }
            | Opcode::And { x, y }
            | Opcode::Xor { x, y }
            | Opcode::Add { x, y }
            | Opcode::Sub { x, y }
            | Opcode::ShiftRight { x, y }
            | Opcode::SubReverse { x, y }
            | Opcode::ShiftLeft { x, y }
            | Opcode::SkipNeReg { x, y } => x < 16 && y < 16,
            Opcode::Draw { x, y, rows } => x < 16 && y < 16 && rows < 16,
        }
    }
}

/// The masks and shifts that pick an instruction word apart agree with the
/// positional reading of its four hexadecimal digits.
proof fn lemma_fields(word: u16)
    ensures
        (word >> 12) as int == class_of(word),
        ((word >> 8) & 0xF) as u8 == x_of(word),
        ((word >> 4) & 0xF) as u8 == y_of(word),
        (word & 0xF) as u8 == nibble_of(word),
        (word & 0xFF) as u8 == byte_of(word),
        (word & 0xFFF) == addr_of(word),
{
    assert((word >> 12) == word / 4096) by (bit_vector);
    assert(((word >> 8) & 0xF) == (word / 256) % 16) by (bit_vector);
    assert(((word >> 4) & 0xF) == (word / 16) % 16) by (bit_vector);
    assert((word & 0xF) == word % 16) by (bit_vector);
    assert((word & 0xFF) == word % 256) by (bit_vector);
    assert((word & 0xFFF) == word % 4096) by (bit_vector);
}

/// Decodes one instruction word. Every word decodes; one that matches no
/// instruction pattern comes back as `Opcode::Unknown` with the word in it.
pub fn decode(word: u16) -> (op: Opcode)
    ensures
        op == decode_spec(word),
        op.wf(),
{
    proof {
        lemma_fields(word);
    }
    let class: u16 = word >> 12;
    let x: u8 = ((word >> 8) & 0xF) as u8;
    let y: u8 = ((word >> 4) & 0xF) as u8;
    let n: u8 = (word & 0xF) as u8;
    let byte: u8 = (word & 0xFF) as u8;
    let addr: u16 = word & 0xFFF;
    if word == 0x00E0 {
        Opcode::ClearScreen
    } else if word == 0x00EE {
        Opcode::Return
    } else if class == 0x1 {
        Opcode::Jump { addr }
    } else if class == 0x2 {
        Opcode::Call { addr }
    } else if class == 0x3 {
        Opcode::SkipEqImm { x, byte }
    } else if class == 0x4 {
        Opcode::SkipNeImm { x, byte }
    } else if class == 0x5 && n == 0 {
        Opcode::SkipEqReg { x, y }
    } else if class == 0x6 {
        Opcode::LoadImm { x, byte }
    } else if class == 0x7 {
        Opcode::AddImm { x, byte }
    } else if class == 0x8 {
        match n {
            0x0 => Opcode::Move { x, y },
            0x1 => Opcode::Or { x, y },
            0x2 => Opcode::And { x, y },
            0x3 => Opcode::Xor { x, y },
            0x4 => Opcode::Add { x, y },
            0x5 => Opcode::Sub { x, y },
            0x6 => Opcode::ShiftRight { x, y },
            0x7 => Opcode::SubReverse { x, y },
            0xE => Opcode::ShiftLeft { x, y },
            _ => Opcode::Unknown(word),
        }
    } else if class == 0x9 && n == 0 {
        Opcode::SkipNeReg { x, y }
    } else if class == 0xA {
        Opcode::LoadIndex { addr }
    } else if class == 0xB {
        Opcode::JumpOffset { addr }
    } else if class == 0xC {
        Opcode::Random { x, mask: byte }
    } else if class == 0xD {
        Opcode::Draw { x, y, rows: n }
    } else if class == 0xE {
        match byte {
            0x9E => Opcode::SkipKeyPressed { x },
            0xA1 => Opcode::SkipKeyReleased { x },
            _ => Opcode::Unknown(word),
        }
    } else if class == 0xF {
        match byte {
            0x07 => Opcode::ReadDelay { x },
            0x0A => Opcode::WaitKey { x },
            0x15 => Opcode::SetDelay { x },
            0x18 => Opcode::SetSound { x },
            0x1E => Opcode::AddIndex { x },
            0x29 => Opcode::FontAddress { x },
            0x33 => Opcode::Bcd { x },
            0x55 => Opcode::StoreRegisters { x },
            0x65 => Opcode::LoadRegisters { x },
            _ => Opcode::Unknown(word),
        }
    } else {
        Opcode::Unknown(word)
    }
}

} // verus!
