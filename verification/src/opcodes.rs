//! Instruction set of the CHIP-8 virtual machine.
//!
//! [`decode`] is a pure, total function from a raw 16-bit opcode to an
//! [`Instruction`] value: unrecognized bit patterns decode to
//! [`Instruction::Unknown`] rather than failing, since illegal opcodes exist
//! in real ROMs and must be observable at the machine layer, not at decode
//! time. The spec-level mirror [`spec_decode`] pins the result down for every
//! input, so decoding is deterministic by construction.

use vstd::prelude::*;

verus! {

/// One decoded CHIP-8 instruction.
///
/// The first 35 variants are the original instruction set; the variants noted
/// as Super Chip-48 extensions are recognized by the decoder but are not
/// executed by the machine, which reports them as unknown instructions.
#[derive(Clone, Copy, Debug, PartialEq, Eq, Structural)]
pub enum Instruction {
    /// Clear the display.
    CLS,
    /// Return from a subroutine.
    RET,
    /// Jump to a machine code routine at nnn. (Ignored by modern interpreters.)
    SYS(u16),
    /// Jump to location nnn.
    JP(u16),
    /// Call subroutine at nnn.
    CALL(u16),
    /// Skip next instruction if Vx == kk.
    SEVxImm { x: u8, imm: u8 },
    /// Skip next instruction if Vx != kk.
    SNEVxImm { x: u8, imm: u8 },
    /// Skip next instruction if Vx == Vy.
    SEVxVy { x: u8, y: u8 },
    /// Set Vx = kk.
    LDVxImm { x: u8, imm: u8 },
    /// Set Vx = Vx + kk (no carry flag).
    ADDVxImm { x: u8, imm: u8 },
    /// Set Vx = Vy.
    LDVxVy { x: u8, y: u8 },
    /// Set Vx = Vx | Vy (bitwise OR).
    ORVxVy { x: u8, y: u8 },
    /// Set Vx = Vx & Vy (bitwise AND).
    ANDVxVy { x: u8, y: u8 },
    /// Set Vx = Vx ^ Vy (bitwise XOR).
    XORVxVy { x: u8, y: u8 },
    /// Set Vx = Vx + Vy, set VF = carry.
    ADDVxVy { x: u8, y: u8 },
    /// Set Vx = Vx - Vy, set VF = NOT borrow.
    SUBVxVy { x: u8, y: u8 },
    /// Set Vx = Vx >> 1, set VF = LSB.
    SHRVxVy { x: u8, y: u8 },
    /// Set Vx = Vy - Vx, set VF = NOT borrow.
    SUBNVxVy { x: u8, y: u8 },
    /// Set Vx = Vx << 1, set VF = MSB.
    SHLVxVy { x: u8, y: u8 },
    /// Skip next instruction if Vx != Vy.
    SNEVxVy { x: u8, y: u8 },
    /// Set I = nnn.
    LDI(u16),
    /// Jump to location nnn + V0.
    JPV0(u16),
    /// Set Vx = random byte & kk.
    RNDVxImm { x: u8, imm: u8 },
    /// Display n-byte sprite at (Vx, Vy), set VF = collision.
    DRWVxVyn { x: u8, y: u8, n: u8 },
    /// Display 16x16 sprite at (Vx, Vy), set VF = collision. (Super Chip-48)
    DRWVxVy0 { x: u8, y: u8 },
    /// Skip next instruction if key Vx is pressed.
    SKPVx(u8),
    /// Skip next instruction if key Vx is not pressed.
    SKNPVx(u8),
    /// Set Vx = delay timer value.
    LDVxDT(u8),
    /// Wait for key press, store in Vx.
    LDVxK(u8),
    /// Set delay timer = Vx.
    LDDTVx(u8),
    /// Set sound timer = Vx.
    LDSTVx(u8),
    /// Set I = I + Vx.
    ADDIVx(u8),
    /// Set I = location of sprite for digit Vx.
    LDFVx(u8),
    /// Store BCD of Vx in memory at I, I+1, I+2.
    LDBVx(u8),
    /// Store registers V0 through Vx in memory starting at I.
    LDIVx(u8),
    /// Read registers V0 through Vx from memory starting at I.
    LDVxI(u8),
    /// Set I = location of high-res sprite for digit Vx. (Super Chip-48)
    LDHFVx(u8),
    /// Store Vx in RPL user flags. (Super Chip-48)
    LDRV(u8),
    /// Read Vx from RPL user flags. (Super Chip-48)
    LDVxR(u8),
    /// Scroll display down by n lines. (Super Chip-48)
    SCD(u8),
    /// Scroll display right by 4 pixels. (Super Chip-48)
    SCR,
    /// Scroll display left by 4 pixels. (Super Chip-48)
    SCL,
    /// Exit the interpreter. (Super Chip-48)
    EXIT,
    /// Set display to low resolution (64x32). (Super Chip-48)
    LOW,
    /// Set display to high resolution (128x64). (Super Chip-48)
    HIGH,
    /// Unknown opcode.
    Unknown(u16),
}

/// The 12 least significant bits of an opcode: the address field NNN.
pub open spec fn spec_nnn(opcode: u16) -> u16 {
    opcode & 0x0FFF
}

/// The least significant byte of an opcode: the immediate field KK.
pub open spec fn spec_kk(opcode: u16) -> u8 {
    (opcode & 0x00FF) as u8
}

/// The least significant nibble of an opcode: the field N.
pub open spec fn spec_n(opcode: u16) -> u8 {
    (opcode & 0x000F) as u8
}

/// Bits 8..12 of an opcode: the register index X.
pub open spec fn spec_x(opcode: u16) -> u8 {
    ((opcode & 0x0F00) >> 8) as u8
}

/// Bits 4..8 of an opcode: the register index Y.
pub open spec fn spec_y(opcode: u16) -> u8 {
    ((opcode & 0x00F0) >> 4) as u8
}

/// Every extracted bit field lies in the range its width dictates; in
/// particular the register indices X, Y and the nibble N index into the
/// 16-entry register file, and NNN is a valid 12-bit address.
pub proof fn lemma_field_ranges(opcode: u16)
    ensures
        spec_nnn(opcode) < 0x1000,
        spec_x(opcode) < 16,
        spec_y(opcode) < 16,
        spec_n(opcode) < 16,
{
    assert((opcode & 0x0FFF) < 0x1000 && (((opcode & 0x0F00) >> 8) as u8) < 16
        && (((opcode & 0x00F0) >> 4) as u8) < 16 && ((opcode & 0x000F) as u8) < 16) by (bit_vector);
}

/// Returns the 12 least significant bits (NNN).
pub fn nnn(opcode: u16) -> (r: u16)
    ensures
        r == spec_nnn(opcode),
        r < 0x1000,
{
    proof {
        lemma_field_ranges(opcode);
    }
    opcode & 0x0FFF
}

/// Returns the least significant byte (KK).
pub fn kk(opcode: u16) -> (r: u8)
    ensures
        r == spec_kk(opcode),
{
    #[verifier::truncate] ((opcode & 0x00FF) as u8)
}

/// Returns the least significant nibble (N).
pub fn n(opcode: u16) -> (r: u8)
    ensures
        r == spec_n(opcode),
        r < 16,
{
    proof {
        lemma_field_ranges(opcode);
    }
    #[verifier::truncate] ((opcode & 0x000F) as u8)
}

/// Returns the X register index (bits 8..12).
pub fn x(opcode: u16) -> (r: u8)
    ensures
        r == spec_x(opcode),
        r < 16,
{
    proof {
        lemma_field_ranges(opcode);
    }
    #[verifier::truncate] (((opcode & 0x0F00) >> 8) as u8)
}

/// Returns the Y register index (bits 4..8).
pub fn y(opcode: u16) -> (r: u8)
    ensures
        r == spec_y(opcode),
        r < 16,
{
    proof {
        lemma_field_ranges(opcode);
    }
    #[verifier::truncate] (((opcode & 0x00F0) >> 4) as u8)
}

/// The class nibble of an opcode: its top 4 bits, examined first by the
/// decoder's dispatch.
pub open spec fn spec_class(opcode: u16) -> u16 {
    (opcode & 0xF000) >> 12
}

/// What [`decode`] returns for every 16-bit opcode.
pub open spec fn spec_decode(opcode: u16) -> Instruction {
    let class = spec_class(opcode);
    if class == 0x0 {
        let low = opcode & 0x00FF;
        if low == 0xE0 {
            Instruction::CLS
        } else if low == 0xEE {
            Instruction::RET
        } else if low == 0xFB {
            Instruction::SCR
        } else if low == 0xFC {
            Instruction::SCL
        } else if low == 0xFD {
            Instruction::EXIT
        } else if low == 0xFE {
            Instruction::LOW
        } else if low == 0xFF {
            Instruction::HIGH
        } else if 0xC0 <= low <= 0xCF {
            Instruction::SCD(spec_n(opcode))
        } else {
            Instruction::SYS(spec_nnn(opcode))
        }
    } else if class == 0x1 {
        Instruction::JP(spec_nnn(opcode))
    } else if class == 0x2 {
        Instruction::CALL(spec_nnn(opcode))
    } else if class == 0x3 {
        Instruction::SEVxImm { x: spec_x(opcode), imm: spec_kk(opcode) }
    } else if class == 0x4 {
        Instruction::SNEVxImm { x: spec_x(opcode), imm: spec_kk(opcode) }
    } else if class == 0x5 {
        if opcode & 0x000F == 0x0 {
            Instruction::SEVxVy { x: spec_x(opcode), y: spec_y(opcode) }
        } else {
            Instruction::Unknown(opcode)
        }
    } else if class == 0x6 {
        Instruction::LDVxImm { x: spec_x(opcode), imm: spec_kk(opcode) }
    } else if class == 0x7 {
        Instruction::ADDVxImm { x: spec_x(opcode), imm: spec_kk(opcode) }
    } else if class == 0x8 {
        let low = opcode & 0x000F;
        if low == 0x0 {
            Instruction::LDVxVy { x: spec_x(opcode), y: spec_y(opcode) }
        } else if low == 0x1 {
            Instruction::ORVxVy { x: spec_x(opcode), y: spec_y(opcode) }
        } else if low == 0x2 {
            Instruction::ANDVxVy { x: spec_x(opcode), y: spec_y(opcode) }
        } else if low == 0x3 {
            Instruction::XORVxVy { x: spec_x(opcode), y: spec_y(opcode) }
        } else if low == 0x4 {
            Instruction::ADDVxVy { x: spec_x(opcode), y: spec_y(opcode) }
        } else if low == 0x5 {
            Instruction::SUBVxVy { x: spec_x(opcode), y: spec_y(opcode) }
        } else if low == 0x6 {
            Instruction::SHRVxVy { x: spec_x(opcode), y: spec_y(opcode) }
        } else if low == 0x7 {
            Instruction::SUBNVxVy { x: spec_x(opcode), y: spec_y(opcode) }
        } else if low == 0xE {
            Instruction::SHLVxVy { x: spec_x(opcode), y: spec_y(opcode) }
        } else {
            Instruction::Unknown(opcode)
        }
    } else if class == 0x9 {
        if opcode & 0x000F == 0x0 {
            Instruction::SNEVxVy { x: spec_x(opcode), y: spec_y(opcode) }
        } else {
            Instruction::Unknown(opcode)
        }
    } else if class == 0xA {
        Instruction::LDI(spec_nnn(opcode))
    } else if class == 0xB {
        Instruction::JPV0(spec_nnn(opcode))
    } else if class == 0xC {
        Instruction::RNDVxImm { x: spec_x(opcode), imm: spec_kk(opcode) }
    } else if class == 0xD {
        if spec_n(opcode) == 0 {
            Instruction::DRWVxVy0 { x: spec_x(opcode), y: spec_y(opcode) }
        } else {
            Instruction::DRWVxVyn { x: spec_x(opcode), y: spec_y(opcode), n: spec_n(opcode) }
        }
    } else if class == 0xE {
        let low = opcode & 0x00FF;
        if low == 0x9E {
            Instruction::SKPVx(spec_x(opcode))
        } else if low == 0xA1 {
            Instruction::SKNPVx(spec_x(opcode))
        } else {
            Instruction::Unknown(opcode)
        }
    } else if class == 0xF {
        let low = opcode & 0x00FF;
        if low == 0x07 {
            Instruction::LDVxDT(spec_x(opcode))
        } else if low == 0x0A {
            Instruction::LDVxK(spec_x(opcode))
        } else if low == 0x15 {
            Instruction::LDDTVx(spec_x(opcode))
        } else if low == 0x18 {
            Instruction::LDSTVx(spec_x(opcode))
        } else if low == 0x1E {
            Instruction::ADDIVx(spec_x(opcode))
        } else if low == 0x29 {
            Instruction::LDFVx(spec_x(opcode))
        } else if low == 0x30 {
            Instruction::LDHFVx(spec_x(opcode))
        } else if low == 0x33 {
            Instruction::LDBVx(spec_x(opcode))
        } else if low == 0x55 {
            Instruction::LDIVx(spec_x(opcode))
        } else if low == 0x65 {
            Instruction::LDVxI(spec_x(opcode))
        } else if low == 0x75 {
            Instruction::LDRV(spec_x(opcode))
        } else if low == 0x85 {
            Instruction::LDVxR(spec_x(opcode))
        } else {
            Instruction::Unknown(opcode)
        }
    } else {
        Instruction::Unknown(opcode)
    }
}

/// Decodes a raw 16-bit opcode into an [`Instruction`].
///
/// Total and deterministic: for every 16-bit input the result is exactly
/// [`spec_decode`] of that input, and unrecognized bit patterns yield
/// [`Instruction::Unknown`] carrying the raw opcode.
pub fn decode(opcode: u16) -> (instr: Instruction)
    ensures
        instr == spec_decode(opcode),
{
    match (opcode & 0xF000) >> 12 {
        0x0 => match opcode & 0x00FF {
            0xE0 => Instruction::CLS,
            0xEE => Instruction::RET,
            0xFB => Instruction::SCR,
            0xFC => Instruction::SCL,
            0xFD => Instruction::EXIT,
            0xFE => Instruction::LOW,
            0xFF => Instruction::HIGH,
            0xC0..=0xCF => Instruction::SCD(n(opcode)),
            _ => Instruction::SYS(nnn(opcode)),
        },
        0x1 => Instruction::JP(nnn(opcode)),
        0x2 => Instruction::CALL(nnn(opcode)),
        0x3 => Instruction::SEVxImm { x: x(opcode), imm: kk(opcode) },
        0x4 => Instruction::SNEVxImm { x: x(opcode), imm: kk(opcode) },
        0x5 => match opcode & 0x000F {
            0x0 => Instruction::SEVxVy { x: x(opcode), y: y(opcode) },
            _ => Instruction::Unknown(opcode),
        },
        0x6 => Instruction::LDVxImm { x: x(opcode), imm: kk(opcode) },
        0x7 => Instruction::ADDVxImm { x: x(opcode), imm: kk(opcode) },
        0x8 => match opcode & 0x000F {
            0x0 => Instruction::LDVxVy { x: x(opcode), y: y(opcode) },
            0x1 => Instruction::ORVxVy { x: x(opcode), y: y(opcode) },
            0x2 => Instruction::ANDVxVy { x: x(opcode), y: y(opcode) },
            0x3 => Instruction::XORVxVy { x: x(opcode), y: y(opcode) },
            0x4 => Instruction::ADDVxVy { x: x(opcode), y: y(opcode) },
            0x5 => Instruction::SUBVxVy { x: x(opcode), y: y(opcode) },
            0x6 => Instruction::SHRVxVy { x: x(opcode), y: y(opcode) },
            0x7 => Instruction::SUBNVxVy { x: x(opcode), y: y(opcode) },
            0xE => Instruction::SHLVxVy { x: x(opcode), y: y(opcode) },
            _ => Instruction::Unknown(opcode),
        },
        0x9 => match opcode & 0x000F {
            0x0 => Instruction::SNEVxVy { x: x(opcode), y: y(opcode) },
            _ => Instruction::Unknown(opcode),
        },
        0xA => Instruction::LDI(nnn(opcode)),
        0xB => Instruction::JPV0(nnn(opcode)),
        0xC => Instruction::RNDVxImm { x: x(opcode), imm: kk(opcode) },
        0xD => match n(opcode) {
            0 => Instruction::DRWVxVy0 { x: x(opcode), y: y(opcode) },
            nibble => Instruction::DRWVxVyn { x: x(opcode), y: y(opcode), n: nibble },
        },
        0xE => match opcode & 0x00FF {
            0x9E => Instruction::SKPVx(x(opcode)),
            0xA1 => Instruction::SKNPVx(x(opcode)),
            _ => Instruction::Unknown(opcode),
        },
        0xF => match opcode & 0x00FF {
            0x07 => Instruction::LDVxDT(x(opcode)),
            0x0A => Instruction::LDVxK(x(opcode)),
            0x15 => Instruction::LDDTVx(x(opcode)),
            0x18 => Instruction::LDSTVx(x(opcode)),
            0x1E => Instruction::ADDIVx(x(opcode)),
            0x29 => Instruction::LDFVx(x(opcode)),
            0x30 => Instruction::LDHFVx(x(opcode)),
            0x33 => Instruction::LDBVx(x(opcode)),
            0x55 => Instruction::LDIVx(x(opcode)),
            0x65 => Instruction::LDVxI(x(opcode)),
            0x75 => Instruction::LDRV(x(opcode)),
            0x85 => Instruction::LDVxR(x(opcode)),
            _ => Instruction::Unknown(opcode),
        },
        _ => Instruction::Unknown(opcode),
    }
}

} // verus!
