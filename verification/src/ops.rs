//! The opcode table: the closed mapping from opcode byte to instruction
//! descriptor.
//!
//! [`spec_decode`] is the table itself, as a spec function; [`decode`] is
//! the executable lookup, proved to agree with it.  Every descriptor the
//! table yields is well formed ([`OpCode::wf`]): its byte length is the
//! length its addressing mode dictates, and its mode carries an operand
//! address exactly when its instruction consumes one.

use vstd::prelude::*;

use crate::cpu::AddressingMode;
use crate::state::mode_len;
use crate::state::resolvable;

verus! {

/// The instructions the emulator implements.  An opcode byte outside
/// this set makes the dispatch loop stop with an unsupported-opcode
/// error.
#[derive(Clone, Copy, Debug, PartialEq, Eq, Structural)]
pub enum Mnemonic {
    /// Halt the dispatch loop.
    Brk,
    /// No effect besides the program-counter advance.
    Nop,
    /// Load the accumulator, setting Zero and Negative.
    Lda,
    /// Load register X, setting Zero and Negative.
    Ldx,
    /// Load register Y, setting Zero and Negative.
    Ldy,
    /// Store the accumulator; no flag effect.
    Sta,
    /// Store register X; no flag effect.
    Stx,
    /// Store register Y; no flag effect.
    Sty,
    /// Copy the accumulator to X, setting Zero and Negative.
    Tax,
    /// Copy the accumulator to Y, setting Zero and Negative.
    Tay,
    /// Copy X to the accumulator, setting Zero and Negative.
    Txa,
    /// Copy Y to the accumulator, setting Zero and Negative.
    Tya,
    /// Increment X with 8-bit wraparound, setting Zero and Negative.
    Inx,
    /// Increment Y with 8-bit wraparound, setting Zero and Negative.
    Iny,
    /// Decrement X with 8-bit wraparound, setting Zero and Negative.
    Dex,
    /// Decrement Y with 8-bit wraparound, setting Zero and Negative.
    Dey,
    /// Bitwise-and the accumulator with the operand, setting Zero and
    /// Negative.
    And,
    /// Bitwise-or the accumulator with the operand, setting Zero and
    /// Negative.
    Ora,
    /// Bitwise-exclusive-or the accumulator with the operand, setting
    /// Zero and Negative.
    Eor,
    /// Clear the Carry flag.
    Clc,
    /// Set the Carry flag.
    Sec,
    /// Clear the Interrupt-disable flag.
    Cli,
    /// Set the Interrupt-disable flag.
    Sei,
    /// Clear the Overflow flag.
    Clv,
    /// Clear the Decimal-mode flag.
    Cld,
    /// Set the Decimal-mode flag.
    Sed,
}

/// One immutable row of the opcode table: instruction, addressing mode,
/// instruction length in bytes, base cycle count.
///
/// The cycle count is the documented base cost of the opcode; this
/// emulator records it but performs no cycle accounting.
#[derive(Clone, Copy, Debug)]
pub struct OpCode {
    pub mnemonic: Mnemonic,
    pub mode: AddressingMode,
    pub len: u8,
    pub cycles: u8,
}

/// Whether an instruction consumes a resolved operand address.
pub open spec fn uses_operand(mnemonic: Mnemonic) -> bool {
    match mnemonic {
        Mnemonic::Lda => true,
        Mnemonic::Ldx => true,
        Mnemonic::Ldy => true,
        Mnemonic::Sta => true,
        Mnemonic::Stx => true,
        Mnemonic::Sty => true,
        Mnemonic::And => true,
        Mnemonic::Ora => true,
        Mnemonic::Eor => true,
        _ => false,
    }
}

impl OpCode {
    /// A well-formed table row: the length is the one its mode
    /// dictates, and the mode resolves to an operand address exactly
    /// when the instruction consumes one.
    pub open spec fn wf(self) -> bool {
        &&& self.len == mode_len(self.mode)
        &&& 1 <= self.len <= 3
        &&& resolvable(self.mode) <==> uses_operand(self.mnemonic)
        &&& (self.mnemonic matches Mnemonic::Brk ==> self.mode matches AddressingMode::Implied)
    }
}

/// The descriptor of one opcode byte, or `None` where the byte names no
/// implemented instruction.
pub open spec fn spec_decode(opcode: u8) -> Option<OpCode> {
    match opcode {
        0x00 => some_op(Mnemonic::Brk, AddressingMode::Implied, 1, 7),
        0xea => some_op(Mnemonic::Nop, AddressingMode::Implied, 1, 2),
        0xa9 => some_op(Mnemonic::Lda, AddressingMode::Immediate, 2, 2),
        0xa5 => some_op(Mnemonic::Lda, AddressingMode::ZeroPage, 2, 3),
        0xb5 => some_op(Mnemonic::Lda, AddressingMode::ZeroPage_X, 2, 4),
        0xad => some_op(Mnemonic::Lda, AddressingMode::Absolute, 3, 4),
        0xbd => some_op(Mnemonic::Lda, AddressingMode::Absolute_X, 3, 4),
        0xb9 => some_op(Mnemonic::Lda, AddressingMode::Absolute_Y, 3, 4),
        0xa1 => some_op(Mnemonic::Lda, AddressingMode::Indirect_X, 2, 6),
        0xb1 => some_op(Mnemonic::Lda, AddressingMode::Indirect_Y, 2, 5),
        0xa2 => some_op(Mnemonic::Ldx, AddressingMode::Immediate, 2, 2),
        0xa6 => some_op(Mnemonic::Ldx, AddressingMode::ZeroPage, 2, 3),
        0xb6 => some_op(Mnemonic::Ldx, AddressingMode::ZeroPage_Y, 2, 4),
        0xae => some_op(Mnemonic::Ldx, AddressingMode::Absolute, 3, 4),
        0xbe => some_op(Mnemonic::Ldx, AddressingMode::Absolute_Y, 3, 4),
        0xa0 => some_op(Mnemonic::Ldy, AddressingMode::Immediate, 2, 2),
        0xa4 => some_op(Mnemonic::Ldy, AddressingMode::ZeroPage, 2, 3),
        0xb4 => some_op(Mnemonic::Ldy, AddressingMode::ZeroPage_X, 2, 4),
        0xac => some_op(Mnemonic::Ldy, AddressingMode::Absolute, 3, 4),
        0xbc => some_op(Mnemonic::Ldy, AddressingMode::Absolute_X, 3, 4),
        0x85 => some_op(Mnemonic::Sta, AddressingMode::ZeroPage, 2, 3),
        0x95 => some_op(Mnemonic::Sta, AddressingMode::ZeroPage_X, 2, 4),
        0x8d => some_op(Mnemonic::Sta, AddressingMode::Absolute, 3, 4),
        0x9d => some_op(Mnemonic::Sta, AddressingMode::Absolute_X, 3, 5),
        0x99 => some_op(Mnemonic::Sta, AddressingMode::Absolute_Y, 3, 5),
        0x81 => some_op(Mnemonic::Sta, AddressingMode::Indirect_X, 2, 6),
        0x91 => some_op(Mnemonic::Sta, AddressingMode::Indirect_Y, 2, 6),
        0x86 => some_op(Mnemonic::Stx, AddressingMode::ZeroPage, 2, 3),
        0x96 => some_op(Mnemonic::Stx, AddressingMode::ZeroPage_Y, 2, 4),
        0x8e => some_op(Mnemonic::Stx, AddressingMode::Absolute, 3, 4),
        0x84 => some_op(Mnemonic::Sty, AddressingMode::ZeroPage, 2, 3),
        0x94 => some_op(Mnemonic::Sty, AddressingMode::ZeroPage_X, 2, 4),
        0x8c => some_op(Mnemonic::Sty, AddressingMode::Absolute, 3, 4),
        0xaa => some_op(Mnemonic::Tax, AddressingMode::Implied, 1, 2),
        0xa8 => some_op(Mnemonic::Tay, AddressingMode::Implied, 1, 2),
        0x8a => some_op(Mnemonic::Txa, AddressingMode::Implied, 1, 2),
        0x98 => some_op(Mnemonic::Tya, AddressingMode::Implied, 1, 2),
        0xe8 => some_op(Mnemonic::Inx, AddressingMode::Implied, 1, 2),
        0xc8 => some_op(Mnemonic::Iny, AddressingMode::Implied, 1, 2),
        0xca => some_op(Mnemonic::Dex, AddressingMode::Implied, 1, 2),
        0x88 => some_op(Mnemonic::Dey, AddressingMode::Implied, 1, 2),
        0x29 => some_op(Mnemonic::And, AddressingMode::Immediate, 2, 2),
        0x25 => some_op(Mnemonic::And, AddressingMode::ZeroPage, 2, 3),
        0x35 => some_op(Mnemonic::And, AddressingMode::ZeroPage_X, 2, 4),
        0x2d => some_op(Mnemonic::And, AddressingMode::Absolute, 3, 4),
        0x3d => some_op(Mnemonic::And, AddressingMode::Absolute_X, 3, 4),
        0x39 => some_op(Mnemonic::And, AddressingMode::Absolute_Y, 3, 4),
        0x21 => some_op(Mnemonic::And, AddressingMode::Indirect_X, 2, 6),
        0x31 => some_op(Mnemonic::And, AddressingMode::Indirect_Y, 2, 5),
        0x09 => some_op(Mnemonic::Ora, AddressingMode::Immediate, 2, 2),
        0x05 => some_op(Mnemonic::Ora, AddressingMode::ZeroPage, 2, 3),
        0x15 => some_op(Mnemonic::Ora, AddressingMode::ZeroPage_X, 2, 4),
        0x0d => some_op(Mnemonic::Ora, AddressingMode::Absolute, 3, 4),
        0x1d => some_op(Mnemonic::Ora, AddressingMode::Absolute_X, 3, 4),
        0x19 => some_op(Mnemonic::Ora, AddressingMode::Absolute_Y, 3, 4),
        0x01 => some_op(Mnemonic::Ora, AddressingMode::Indirect_X, 2, 6),
        0x11 => some_op(Mnemonic::Ora, AddressingMode::Indirect_Y, 2, 5),
        0x49 => some_op(Mnemonic::Eor, AddressingMode::Immediate, 2, 2),
        0x45 => some_op(Mnemonic::Eor, AddressingMode::ZeroPage, 2, 3),
        0x55 => some_op(Mnemonic::Eor, AddressingMode::ZeroPage_X, 2, 4),
        0x4d => some_op(Mnemonic::Eor, AddressingMode::Absolute, 3, 4),
        0x5d => some_op(Mnemonic::Eor, AddressingMode::Absolute_X, 3, 4),
        0x59 => some_op(Mnemonic::Eor, AddressingMode::Absolute_Y, 3, 4),
        0x41 => some_op(Mnemonic::Eor, AddressingMode::Indirect_X, 2, 6),
        0x51 => some_op(Mnemonic::Eor, AddressingMode::Indirect_Y, 2, 5),
        0x18 => some_op(Mnemonic::Clc, AddressingMode::Implied, 1, 2),
        0x38 => some_op(Mnemonic::Sec, AddressingMode::Implied, 1, 2),
        0x58 => some_op(Mnemonic::Cli, AddressingMode::Implied, 1, 2),
        0x78 => some_op(Mnemonic::Sei, AddressingMode::Implied, 1, 2),
        0xb8 => some_op(Mnemonic::Clv, AddressingMode::Implied, 1, 2),
        0xd8 => some_op(Mnemonic::Cld, AddressingMode::Implied, 1, 2),
        0xf8 => some_op(Mnemonic::Sed, AddressingMode::Implied, 1, 2),
        _ => None,
    }
}

/// One populated table row.
pub open spec fn some_op(mnemonic: Mnemonic, mode: AddressingMode, len: u8, cycles: u8) -> Option<
    OpCode,
> {
    Some(OpCode { mnemonic, mode, len, cycles })
}

/// Every row the table yields is well formed, and BRK is the one and
/// only instruction of opcode byte 0x00.
pub proof fn lemma_decode_wf(opcode: u8)
    ensures
        spec_decode(opcode) matches Some(oc) ==> oc.wf(),
        spec_decode(opcode) matches Some(oc) ==> ((oc.mnemonic matches Mnemonic::Brk) <==> opcode
            == 0x00),
{
}

/// Looks an opcode byte up in the table.
pub fn decode(opcode: u8) -> (r: Option<OpCode>)
    ensures
        r == spec_decode(opcode),
{
    match opcode {
        0x00 => Some(OpCode { mnemonic: Mnemonic::Brk, mode: AddressingMode::Implied, len: 1, cycles: 7 }),
        0xea => Some(OpCode { mnemonic: Mnemonic::Nop, mode: AddressingMode::Implied, len: 1, cycles: 2 }),
        0xa9 => Some(OpCode { mnemonic: Mnemonic::Lda, mode: AddressingMode::Immediate, len: 2, cycles: 2 }),
        0xa5 => Some(OpCode { mnemonic: Mnemonic::Lda, mode: AddressingMode::ZeroPage, len: 2, cycles: 3 }),
        0xb5 => Some(OpCode { mnemonic: Mnemonic::Lda, mode: AddressingMode::ZeroPage_X, len: 2, cycles: 4 }),
        0xad => Some(OpCode { mnemonic: Mnemonic::Lda, mode: AddressingMode::Absolute, len: 3, cycles: 4 }),
        0xbd => Some(OpCode { mnemonic: Mnemonic::Lda, mode: AddressingMode::Absolute_X, len: 3, cycles: 4 }),
        0xb9 => Some(OpCode { mnemonic: Mnemonic::Lda, mode: AddressingMode::Absolute_Y, len: 3, cycles: 4 }),
        0xa1 => Some(OpCode { mnemonic: Mnemonic::Lda, mode: AddressingMode::Indirect_X, len: 2, cycles: 6 }),
        0xb1 => Some(OpCode { mnemonic: Mnemonic::Lda, mode: AddressingMode::Indirect_Y, len: 2, cycles: 5 }),
        0xa2 => Some(OpCode { mnemonic: Mnemonic::Ldx, mode: AddressingMode::Immediate, len: 2, cycles: 2 }),
        0xa6 => Some(OpCode { mnemonic: Mnemonic::Ldx, mode: AddressingMode::ZeroPage, len: 2, cycles: 3 }),
        0xb6 => Some(OpCode { mnemonic: Mnemonic::Ldx, mode: AddressingMode::ZeroPage_Y, len: 2, cycles: 4 }),
        0xae => Some(OpCode { mnemonic: Mnemonic::Ldx, mode: AddressingMode::Absolute, len: 3, cycles: 4 }),
        0xbe => Some(OpCode { mnemonic: Mnemonic::Ldx, mode: AddressingMode::Absolute_Y, len: 3, cycles: 4 }),
        0xa0 => Some(OpCode { mnemonic: Mnemonic::Ldy, mode: AddressingMode::Immediate, len: 2, cycles: 2 }),
        0xa4 => Some(OpCode { mnemonic: Mnemonic::Ldy, mode: AddressingMode::ZeroPage, len: 2, cycles: 3 }),
        0xb4 => Some(OpCode { mnemonic: Mnemonic::Ldy, mode: AddressingMode::ZeroPage_X, len: 2, cycles: 4 }),
        0xac => Some(OpCode { mnemonic: Mnemonic::Ldy, mode: AddressingMode::Absolute, len: 3, cycles: 4 }),
        0xbc => Some(OpCode { mnemonic: Mnemonic::Ldy, mode: AddressingMode::Absolute_X, len: 3, cycles: 4 }),
        0x85 => Some(OpCode { mnemonic: Mnemonic::Sta, mode: AddressingMode::ZeroPage, len: 2, cycles: 3 }),
        0x95 => Some(OpCode { mnemonic: Mnemonic::Sta, mode: AddressingMode::ZeroPage_X, len: 2, cycles: 4 }),
        0x8d => Some(OpCode { mnemonic: Mnemonic::Sta, mode: AddressingMode::Absolute, len: 3, cycles: 4 }),
        0x9d => Some(OpCode { mnemonic: Mnemonic::Sta, mode: AddressingMode::Absolute_X, len: 3, cycles: 5 }),
        0x99 => Some(OpCode { mnemonic: Mnemonic::Sta, mode: AddressingMode::Absolute_Y, len: 3, cycles: 5 }),
        0x81 => Some(OpCode { mnemonic: Mnemonic::Sta, mode: AddressingMode::Indirect_X, len: 2, cycles: 6 }),
        0x91 => Some(OpCode { mnemonic: Mnemonic::Sta, mode: AddressingMode::Indirect_Y, len: 2, cycles: 6 }),
        0x86 => Some(OpCode { mnemonic: Mnemonic::Stx, mode: AddressingMode::ZeroPage, len: 2, cycles: 3 }),
        0x96 => Some(OpCode { mnemonic: Mnemonic::Stx, mode: AddressingMode::ZeroPage_Y, len: 2, cycles: 4 }),
        0x8e => Some(OpCode { mnemonic: Mnemonic::Stx, mode: AddressingMode::Absolute, len: 3, cycles: 4 }),
        0x84 => Some(OpCode { mnemonic: Mnemonic::Sty, mode: AddressingMode::ZeroPage, len: 2, cycles: 3 }),
        0x94 => Some(OpCode { mnemonic: Mnemonic::Sty, mode: AddressingMode::ZeroPage_X, len: 2, cycles: 4 }),
        0x8c => Some(OpCode { mnemonic: Mnemonic::Sty, mode: AddressingMode::Absolute, len: 3, cycles: 4 }),
        0xaa => Some(OpCode { mnemonic: Mnemonic::Tax, mode: AddressingMode::Implied, len: 1, cycles: 2 }),
        0xa8 => Some(OpCode { mnemonic: Mnemonic::Tay, mode: AddressingMode::Implied, len: 1, cycles: 2 }),
        0x8a => Some(OpCode { mnemonic: Mnemonic::Txa, mode: AddressingMode::Implied, len: 1, cycles: 2 }),
        0x98 => Some(OpCode { mnemonic: Mnemonic::Tya, mode: AddressingMode::Implied, len: 1, cycles: 2 }),
        0xe8 => Some(OpCode { mnemonic: Mnemonic::Inx, mode: AddressingMode::Implied, len: 1, cycles: 2 }),
        0xc8 => Some(OpCode { mnemonic: Mnemonic::Iny, mode: AddressingMode::Implied, len: 1, cycles: 2 }),
        0xca => Some(OpCode { mnemonic: Mnemonic::Dex, mode: AddressingMode::Implied, len: 1, cycles: 2 }),
        0x88 => Some(OpCode { mnemonic: Mnemonic::Dey, mode: AddressingMode::Implied, len: 1, cycles: 2 }),
        0x29 => Some(OpCode { mnemonic: Mnemonic::And, mode: AddressingMode::Immediate, len: 2, cycles: 2 }),
        0x25 => Some(OpCode { mnemonic: Mnemonic::And, mode: AddressingMode::ZeroPage, len: 2, cycles: 3 }),
        0x35 => Some(OpCode { mnemonic: Mnemonic::And, mode: AddressingMode::ZeroPage_X, len: 2, cycles: 4 }),
        0x2d => Some(OpCode { mnemonic: Mnemonic::And, mode: AddressingMode::Absolute, len: 3, cycles: 4 }),
        0x3d => Some(OpCode { mnemonic: Mnemonic::And, mode: AddressingMode::Absolute_X, len: 3, cycles: 4 }),
        0x39 => Some(OpCode { mnemonic: Mnemonic::And, mode: AddressingMode::Absolute_Y, len: 3, cycles: 4 }),
        0x21 => Some(OpCode { mnemonic: Mnemonic::And, mode: AddressingMode::Indirect_X, len: 2, cycles: 6 }),
        0x31 => Some(OpCode { mnemonic: Mnemonic::And, mode: AddressingMode::Indirect_Y, len: 2, cycles: 5 }),
        0x09 => Some(OpCode { mnemonic: Mnemonic::Ora, mode: AddressingMode::Immediate, len: 2, cycles: 2 }),
        0x05 => Some(OpCode { mnemonic: Mnemonic::Ora, mode: AddressingMode::ZeroPage, len: 2, cycles: 3 }),
        0x15 => Some(OpCode { mnemonic: Mnemonic::Ora, mode: AddressingMode::ZeroPage_X, len: 2, cycles: 4 }),
        0x0d => Some(OpCode { mnemonic: Mnemonic::Ora, mode: AddressingMode::Absolute, len: 3, cycles: 4 }),
        0x1d => Some(OpCode { mnemonic: Mnemonic::Ora, mode: AddressingMode::Absolute_X, len: 3, cycles: 4 }),
        0x19 => Some(OpCode { mnemonic: Mnemonic::Ora, mode: AddressingMode::Absolute_Y, len: 3, cycles: 4 }),
        0x01 => Some(OpCode { mnemonic: Mnemonic::Ora, mode: AddressingMode::Indirect_X, len: 2, cycles: 6 }),
        0x11 => Some(OpCode { mnemonic: Mnemonic::Ora, mode: AddressingMode::Indirect_Y, len: 2, cycles: 5 }),
        0x49 => Some(OpCode { mnemonic: Mnemonic::Eor, mode: AddressingMode::Immediate, len: 2, cycles: 2 }),
        0x45 => Some(OpCode { mnemonic: Mnemonic::Eor, mode: AddressingMode::ZeroPage, len: 2, cycles: 3 }),
        0x55 => Some(OpCode { mnemonic: Mnemonic::Eor, mode: AddressingMode::ZeroPage_X, len: 2, cycles: 4 }),
        0x4d => Some(OpCode { mnemonic: Mnemonic::Eor, mode: AddressingMode::Absolute, len: 3, cycles: 4 }),
        0x5d => Some(OpCode { mnemonic: Mnemonic::Eor, mode: AddressingMode::Absolute_X, len: 3, cycles: 4 }),
        0x59 => Some(OpCode { mnemonic: Mnemonic::Eor, mode: AddressingMode::Absolute_Y, len: 3, cycles: 4 }),
        0x41 => Some(OpCode { mnemonic: Mnemonic::Eor, mode: AddressingMode::Indirect_X, len: 2, cycles: 6 }),
        0x51 => Some(OpCode { mnemonic: Mnemonic::Eor, mode: AddressingMode::Indirect_Y, len: 2, cycles: 5 }),
        0x18 => Some(OpCode { mnemonic: Mnemonic::Clc, mode: AddressingMode::Implied, len: 1, cycles: 2 }),
        0x38 => Some(OpCode { mnemonic: Mnemonic::Sec, mode: AddressingMode::Implied, len: 1, cycles: 2 }),
        0x58 => Some(OpCode { mnemonic: Mnemonic::Cli, mode: AddressingMode::Implied, len: 1, cycles: 2 }),
        0x78 => Some(OpCode { mnemonic: Mnemonic::Sei, mode: AddressingMode::Implied, len: 1, cycles: 2 }),
        0xb8 => Some(OpCode { mnemonic: Mnemonic::Clv, mode: AddressingMode::Implied, len: 1, cycles: 2 }),
        0xd8 => Some(OpCode { mnemonic: Mnemonic::Cld, mode: AddressingMode::Implied, len: 1, cycles: 2 }),
        0xf8 => Some(OpCode { mnemonic: Mnemonic::Sed, mode: AddressingMode::Implied, len: 1, cycles: 2 }),
        _ => None,
    }
}

} // verus!
