//! The decode table: opcode bytes, instruction and addressing-mode tags, and
//! base cycle costs.
//!
//! Adding an opcode means adding one row to [`decode`] (and its mirror
//! [`decode_spec`]); the dispatch loop in [`crate::cpu`] is generic over the
//! tags and never needs to change.

use vstd::prelude::*;

verus! {

/// Load accumulator, immediate operand.
pub const INS_LDA_IM: u8 = 0xA9;

/// Load accumulator, zero-page operand.
pub const INS_LDA_ZP: u8 = 0xA5;

/// Load accumulator, zero-page operand indexed by X.
pub const INS_LDA_ZPX: u8 = 0xB5;

/// Load index X, immediate operand.
pub const INS_LDX_IM: u8 = 0xA2;

/// Load index X, zero-page operand.
pub const INS_LDX_ZP: u8 = 0xA6;

/// Load index X, zero-page operand indexed by Y.
pub const INS_LDX_ZPY: u8 = 0xB6;

/// Load index Y, immediate operand.
pub const INS_LDY_IM: u8 = 0xA0;

/// Load index Y, zero-page operand.
pub const INS_LDY_ZP: u8 = 0xA4;

/// Load index Y, zero-page operand indexed by X.
pub const INS_LDY_ZPX: u8 = 0xB4;

/// Jump to subroutine.
pub const INS_JSR: u8 = 0x20;

/// A register that a load operation can target.
#[derive(Clone, Copy, Debug, PartialEq, Eq, Structural)]
pub enum Reg {
    A,
    X,
    Y,
}

/// Addressing modes of the minimal core.
#[derive(Clone, Copy, Debug, PartialEq, Eq, Structural)]
pub enum AddrMode {
    /// The operand is the instruction byte that follows the opcode.
    Immediate,
    /// The instruction byte that follows the opcode is an 8-bit address into
    /// the first 256 bytes of memory.
    ZeroPage,
    /// Zero-page, with the 8-bit address offset by the X register, wrapping
    /// at 8 bits.
    ZeroPageX,
    /// Zero-page, with the 8-bit address offset by the Y register, wrapping
    /// at 8 bits.
    ZeroPageY,
}

/// A decoded instruction: an operation together with its addressing mode.
#[derive(Clone, Copy, Debug, PartialEq, Eq, Structural)]
pub enum Instr {
    /// Copy the resolved operand into a register and recompute the Zero and
    /// Negative flags from it.
    Load(Reg, AddrMode),
    /// Jump to subroutine: push the address of the instruction's last byte
    /// and set the program counter to the fetched target.
    Jsr,
}

/// The decode table: which instruction an opcode byte stands for, or `None`
/// for an illegal opcode.
pub open spec fn decode_spec(opcode: u8) -> Option<Instr> {
    if opcode == INS_LDA_IM {
        Some(Instr::Load(Reg::A, AddrMode::Immediate))
    } else if opcode == INS_LDA_ZP {
        Some(Instr::Load(Reg::A, AddrMode::ZeroPage))
    } else if opcode == INS_LDA_ZPX {
        Some(Instr::Load(Reg::A, AddrMode::ZeroPageX))
    } else if opcode == INS_LDX_IM {
        Some(Instr::Load(Reg::X, AddrMode::Immediate))
    } else if opcode == INS_LDX_ZP {
        Some(Instr::Load(Reg::X, AddrMode::ZeroPage))
    } else if opcode == INS_LDX_ZPY {
        Some(Instr::Load(Reg::X, AddrMode::ZeroPageY))
    } else if opcode == INS_LDY_IM {
        Some(Instr::Load(Reg::Y, AddrMode::Immediate))
    } else if opcode == INS_LDY_ZP {
        Some(Instr::Load(Reg::Y, AddrMode::ZeroPage))
    } else if opcode == INS_LDY_ZPX {
        Some(Instr::Load(Reg::Y, AddrMode::ZeroPageX))
    } else if opcode == INS_JSR {
        Some(Instr::Jsr)
    } else {
        None
    }
}

/// Looks `opcode` up in the decode table.
pub fn decode(opcode: u8) -> (r: Option<Instr>)
    ensures
        r == decode_spec(opcode),
{
    if opcode == INS_LDA_IM {
        Some(Instr::Load(Reg::A, AddrMode::Immediate))
    } else if opcode == INS_LDA_ZP {
        Some(Instr::Load(Reg::A, AddrMode::ZeroPage))
    } else if opcode == INS_LDA_ZPX {
        Some(Instr::Load(Reg::A, AddrMode::ZeroPageX))
    } else if opcode == INS_LDX_IM {
        Some(Instr::Load(Reg::X, AddrMode::Immediate))
    } else if opcode == INS_LDX_ZP {
        Some(Instr::Load(Reg::X, AddrMode::ZeroPage))
    } else if opcode == INS_LDX_ZPY {
        Some(Instr::Load(Reg::X, AddrMode::ZeroPageY))
    } else if opcode == INS_LDY_IM {
        Some(Instr::Load(Reg::Y, AddrMode::Immediate))
    } else if opcode == INS_LDY_ZP {
        Some(Instr::Load(Reg::Y, AddrMode::ZeroPage))
    } else if opcode == INS_LDY_ZPX {
        Some(Instr::Load(Reg::Y, AddrMode::ZeroPageX))
    } else if opcode == INS_JSR {
        Some(Instr::Jsr)
    } else {
        None
    }
}

/// Base cycle cost of a load under the given addressing mode, the opcode
/// fetch included. Costs are fixed per mode, whatever the operand value.
pub open spec fn mode_cycles(mode: AddrMode) -> int {
    match mode {
        AddrMode::Immediate => 2,
        AddrMode::ZeroPage => 3,
        AddrMode::ZeroPageX => 4,
        AddrMode::ZeroPageY => 4,
    }
}

/// Total cycle cost of an instruction, the opcode fetch included.
pub open spec fn instr_cycles(instr: Instr) -> int {
    match instr {
        Instr::Load(_, mode) => mode_cycles(mode),
        Instr::Jsr => 6,
    }
}

} // verus!
