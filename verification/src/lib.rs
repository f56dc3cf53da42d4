//! A verified emulator core for the MOS 6502 microprocessor.
//!
//! The crate models the processor as a flat 64 KiB byte-addressable memory
//! together with the three 8-bit registers `A`, `X` and `Y`, the 8-bit
//! status register and the 16-bit program counter.  The exec code in
//! [`cpu`] is specified against the mathematical machine model in
//! [`state`]: every instruction handler is proved to perform exactly the
//! state transition that the model prescribes, and the dispatch loop is
//! proved to follow the model's small-step semantics until a BRK opcode
//! halts it.
//!
//! Cycle accounting (including the extra cycle a real 6502 spends on a
//! page-boundary crossing) is not performed: the opcode table records the
//! base cycle count of each instruction, but no component consumes it.

pub mod cpu;
pub mod laws;
pub mod ops;
pub mod state;
