//! The mathematical model of the processor.
//!
//! [`CpuState`] is the ghost image of a [`crate::cpu::CPU`]: the three
//! 8-bit registers, the status register, the program counter and the
//! memory as a sequence of 65536 bytes.  The spec functions in this module
//! define, over that image, what every memory accessor, addressing mode
//! and instruction of the emulator is supposed to do.  The exec code in
//! [`crate::cpu`] is verified against these definitions.

use vstd::prelude::*;

use crate::cpu::AddressingMode;
use crate::cpu::CpuError;
use crate::ops::Mnemonic;
use crate::ops::spec_decode;

verus! {

/// Carry flag, bit 0 of the status register.
pub const FLAG_CARRY: u8 = 0b0000_0001;

/// Zero flag, bit 1 of the status register.
pub const FLAG_ZERO: u8 = 0b0000_0010;

/// Interrupt-disable flag, bit 2 of the status register.
pub const FLAG_INTERRUPT_DISABLE: u8 = 0b0000_0100;

/// Decimal-mode flag, bit 3 of the status register.
pub const FLAG_DECIMAL: u8 = 0b0000_1000;

/// Break flag, bit 4 of the status register.
pub const FLAG_BREAK: u8 = 0b0001_0000;

/// Bit 5 of the status register, unused on the 6502.
pub const FLAG_UNUSED: u8 = 0b0010_0000;

/// Overflow flag, bit 6 of the status register.
pub const FLAG_OVERFLOW: u8 = 0b0100_0000;

/// Negative flag, bit 7 of the status register.
pub const FLAG_NEGATIVE: u8 = 0b1000_0000;

/// The number of addressable bytes: the full 64 KiB space, so that every
/// 16-bit address (the reset vector at 0xFFFC-0xFFFD included) is backed
/// by a byte of memory.
pub const MEMORY_SIZE: usize = 0x10000;

/// The address programs are loaded at, and the address the loader
/// writes into the reset vector.
pub const LOAD_ORIGIN: u16 = 0x8000;

/// The address of the reset vector: the two bytes at 0xFFFC-0xFFFD hold,
/// little-endian, the address execution resumes at after a reset.
pub const RESET_VECTOR: u16 = 0xfffc;

/// The longest program the loader accepts: the space from the load
/// origin to the top of the address space.
pub const MAX_PROGRAM_LEN: usize = 0x8000;

/// The ghost image of a CPU: registers, status, program counter and
/// memory.
#[verifier::ext_equal]
pub struct CpuState {
    /// Accumulator.
    pub a: u8,
    /// Index register X.
    pub x: u8,
    /// Index register Y.
    pub y: u8,
    /// Status register.
    pub status: u8,
    /// Program counter.
    pub pc: u16,
    /// The 64 KiB of memory.
    pub mem: Seq<u8>,
}

impl CpuState {
    /// A well-formed state backs every 16-bit address with a byte.
    pub open spec fn wf(self) -> bool {
        self.mem.len() == MEMORY_SIZE
    }
}

/// 8-bit addition with wraparound.
pub open spec fn wrap_add8(x: u8, y: u8) -> u8 {
    if x + y > 0xff {
        (x + y - 0x100) as u8
    } else {
        (x + y) as u8
    }
}

/// 16-bit addition with wraparound.
pub open spec fn wrap_add16(x: u16, y: u16) -> u16 {
    if x + y > 0xffff {
        (x + y - 0x10000) as u16
    } else {
        (x + y) as u16
    }
}

/// 8-bit subtraction with wraparound.
pub open spec fn wrap_sub8(x: u8, y: u8) -> u8 {
    if x - y < 0 {
        (x - y + 0x100) as u8
    } else {
        (x - y) as u8
    }
}

/// The 16-bit word with low byte `lo` and high byte `hi`.
pub open spec fn word(lo: u8, hi: u8) -> u16 {
    ((hi as u16) << 8) | (lo as u16)
}

/// The low byte of a 16-bit word.
pub open spec fn lo_byte(w: u16) -> u8 {
    (w & 0xff) as u8
}

/// The high byte of a 16-bit word.
pub open spec fn hi_byte(w: u16) -> u8 {
    (w >> 8) as u8
}

/// The little-endian word read from `addr`: low byte at `addr`, high byte
/// at the following address, wrapping around the top of memory.
pub open spec fn read16(m: Seq<u8>, addr: u16) -> u16
    recommends
        m.len() == MEMORY_SIZE,
{
    word(m[addr as int], m[wrap_add16(addr, 1) as int])
}

/// The memory after a little-endian word write to `addr`: low byte at
/// `addr`, high byte at the following address, wrapping around the top of
/// memory.
pub open spec fn write16(m: Seq<u8>, addr: u16, w: u16) -> Seq<u8>
    recommends
        m.len() == MEMORY_SIZE,
{
    m.update(addr as int, lo_byte(w)).update(wrap_add16(addr, 1) as int, hi_byte(w))
}

/// Whether the addressing resolver serves `mode`: true for the modes
/// that place an operand in memory (or, for `Immediate`, in the
/// instruction stream), false for `Implied`, `Accumulator` and for the
/// branch-relative and jump-indirect encodings, which no implemented
/// instruction resolves.
pub open spec fn resolvable(mode: AddressingMode) -> bool {
    match mode {
        AddressingMode::Immediate => true,
        AddressingMode::ZeroPage => true,
        AddressingMode::ZeroPage_X => true,
        AddressingMode::ZeroPage_Y => true,
        AddressingMode::Absolute => true,
        AddressingMode::Absolute_X => true,
        AddressingMode::Absolute_Y => true,
        AddressingMode::Indirect_X => true,
        AddressingMode::Indirect_Y => true,
        AddressingMode::Indirect => false,
        AddressingMode::Accumulator => false,
        AddressingMode::Relative => false,
        AddressingMode::Implied => false,
    }
}

/// The number of instruction bytes an addressing mode takes, the opcode
/// byte included.
pub open spec fn mode_len(mode: AddressingMode) -> u8 {
    match mode {
        AddressingMode::Immediate => 2,
        AddressingMode::ZeroPage => 2,
        AddressingMode::ZeroPage_X => 2,
        AddressingMode::ZeroPage_Y => 2,
        AddressingMode::Absolute => 3,
        AddressingMode::Absolute_X => 3,
        AddressingMode::Absolute_Y => 3,
        AddressingMode::Indirect_X => 2,
        AddressingMode::Indirect_Y => 2,
        AddressingMode::Indirect => 3,
        AddressingMode::Accumulator => 1,
        AddressingMode::Relative => 2,
        AddressingMode::Implied => 1,
    }
}

/// The two-byte little-endian pointer stored in the zero page at `p`:
/// low byte at `p`, high byte at the next zero-page address, the
/// increment wrapping within the zero page.
pub open spec fn deref_zero_page_pointer(m: Seq<u8>, p: u8) -> u16
    recommends
        m.len() == MEMORY_SIZE,
{
    word(m[p as int], m[wrap_add8(p, 1) as int])
}

/// The effective operand address of an instruction, given the state with
/// the program counter at the byte that follows the opcode.
pub open spec fn operand_address(s: CpuState, mode: AddressingMode) -> u16
    recommends
        s.wf(),
        resolvable(mode),
{
    match mode {
        AddressingMode::Immediate => s.pc,
        AddressingMode::ZeroPage => s.mem[s.pc as int] as u16,
        AddressingMode::ZeroPage_X => wrap_add8(s.mem[s.pc as int], s.x) as u16,
        AddressingMode::ZeroPage_Y => wrap_add8(s.mem[s.pc as int], s.y) as u16,
        AddressingMode::Absolute => read16(s.mem, s.pc),
        AddressingMode::Absolute_X => wrap_add16(read16(s.mem, s.pc), s.x as u16),
        AddressingMode::Absolute_Y => wrap_add16(read16(s.mem, s.pc), s.y as u16),
        AddressingMode::Indirect_X => deref_zero_page_pointer(
            s.mem,
            wrap_add8(s.mem[s.pc as int], s.x),
        ),
        AddressingMode::Indirect_Y => wrap_add16(
            deref_zero_page_pointer(s.mem, s.mem[s.pc as int]),
            s.y as u16,
        ),
        _ => arbitrary(),
    }
}

/// The status register with one flag forced to `cond` and every other bit
/// kept.
pub open spec fn with_flag(status: u8, cond: bool, flag: u8) -> u8 {
    if cond {
        status | flag
    } else {
        status & !flag
    }
}

/// The status register after an instruction defined a result `v`: Zero
/// set iff `v == 0`, Negative set iff bit 7 of `v` is set, the other six
/// bits kept.
pub open spec fn update_zn(status: u8, v: u8) -> u8 {
    with_flag(with_flag(status, v == 0, FLAG_ZERO), v & 0x80 != 0, FLAG_NEGATIVE)
}

/// The state after `LDA`: the byte at `addr` in the accumulator, Zero
/// and Negative set from it.
pub open spec fn spec_lda(s: CpuState, addr: u16) -> CpuState
    recommends
        s.wf(),
{
    let v = s.mem[addr as int];
    CpuState { a: v, status: update_zn(s.status, v), ..s }
}

/// The state after `LDX`: the byte at `addr` in register X, Zero and
/// Negative set from it.
pub open spec fn spec_ldx(s: CpuState, addr: u16) -> CpuState
    recommends
        s.wf(),
{
    let v = s.mem[addr as int];
    CpuState { x: v, status: update_zn(s.status, v), ..s }
}

/// The state after `LDY`: the byte at `addr` in register Y, Zero and
/// Negative set from it.
pub open spec fn spec_ldy(s: CpuState, addr: u16) -> CpuState
    recommends
        s.wf(),
{
    let v = s.mem[addr as int];
    CpuState { y: v, status: update_zn(s.status, v), ..s }
}

/// The state after `STA`: the accumulator stored at `addr`, no flag
/// effect.
pub open spec fn spec_sta(s: CpuState, addr: u16) -> CpuState
    recommends
        s.wf(),
{
    CpuState { mem: s.mem.update(addr as int, s.a), ..s }
}

/// The state after `STX`: register X stored at `addr`, no flag effect.
pub open spec fn spec_stx(s: CpuState, addr: u16) -> CpuState
    recommends
        s.wf(),
{
    CpuState { mem: s.mem.update(addr as int, s.x), ..s }
}

/// The state after `STY`: register Y stored at `addr`, no flag effect.
pub open spec fn spec_sty(s: CpuState, addr: u16) -> CpuState
    recommends
        s.wf(),
{
    CpuState { mem: s.mem.update(addr as int, s.y), ..s }
}

/// The state after `TAX`: the accumulator copied to X, Zero and
/// Negative set from the value.
pub open spec fn spec_tax(s: CpuState) -> CpuState {
    CpuState { x: s.a, status: update_zn(s.status, s.a), ..s }
}

/// The state after `TAY`: the accumulator copied to Y, Zero and
/// Negative set from the value.
pub open spec fn spec_tay(s: CpuState) -> CpuState {
    CpuState { y: s.a, status: update_zn(s.status, s.a), ..s }
}

/// The state after `TXA`: X copied to the accumulator, Zero and
/// Negative set from the value.
pub open spec fn spec_txa(s: CpuState) -> CpuState {
    CpuState { a: s.x, status: update_zn(s.status, s.x), ..s }
}

/// The state after `TYA`: Y copied to the accumulator, Zero and
/// Negative set from the value.
pub open spec fn spec_tya(s: CpuState) -> CpuState {
    CpuState { a: s.y, status: update_zn(s.status, s.y), ..s }
}

/// The state after `INX`: X incremented with 8-bit wraparound, Zero and
/// Negative set from the result.
pub open spec fn spec_inx(s: CpuState) -> CpuState {
    let v = wrap_add8(s.x, 1);
    CpuState { x: v, status: update_zn(s.status, v), ..s }
}

/// The state after `INY`: Y incremented with 8-bit wraparound, Zero and
/// Negative set from the result.
pub open spec fn spec_iny(s: CpuState) -> CpuState {
    let v = wrap_add8(s.y, 1);
    CpuState { y: v, status: update_zn(s.status, v), ..s }
}

/// The state after `DEX`: X decremented with 8-bit wraparound, Zero and
/// Negative set from the result.
pub open spec fn spec_dex(s: CpuState) -> CpuState {
    let v = wrap_sub8(s.x, 1);
    CpuState { x: v, status: update_zn(s.status, v), ..s }
}

/// The state after `DEY`: Y decremented with 8-bit wraparound, Zero and
/// Negative set from the result.
pub open spec fn spec_dey(s: CpuState) -> CpuState {
    let v = wrap_sub8(s.y, 1);
    CpuState { y: v, status: update_zn(s.status, v), ..s }
}

/// The state after `AND`: the accumulator bitwise-anded with the byte
/// at `addr`, Zero and Negative set from the result.
pub open spec fn spec_and(s: CpuState, addr: u16) -> CpuState
    recommends
        s.wf(),
{
    let v = s.a & s.mem[addr as int];
    CpuState { a: v, status: update_zn(s.status, v), ..s }
}

/// The state after `ORA`: the accumulator bitwise-ored with the byte at
/// `addr`, Zero and Negative set from the result.
pub open spec fn spec_ora(s: CpuState, addr: u16) -> CpuState
    recommends
        s.wf(),
{
    let v = s.a | s.mem[addr as int];
    CpuState { a: v, status: update_zn(s.status, v), ..s }
}

/// The state after `EOR`: the accumulator bitwise-exclusive-ored with
/// the byte at `addr`, Zero and Negative set from the result.
pub open spec fn spec_eor(s: CpuState, addr: u16) -> CpuState
    recommends
        s.wf(),
{
    let v = s.a ^ s.mem[addr as int];
    CpuState { a: v, status: update_zn(s.status, v), ..s }
}

/// The state after a flag set or clear instruction: one flag forced,
/// nothing else touched.
pub open spec fn spec_set_flag(s: CpuState, condition: bool, flag: u8) -> CpuState {
    CpuState { status: with_flag(s.status, condition, flag), ..s }
}

/// The sequence `m` with `bytes` written over it starting at `at`.
pub open spec fn overwrite(m: Seq<u8>, at: int, bytes: Seq<u8>) -> Seq<u8>
    recommends
        0 <= at,
        at + bytes.len() <= m.len(),
{
    m.subrange(0, at) + bytes + m.subrange(at + bytes.len(), m.len() as int)
}

/// The state after `load`: the program copied into memory at the load
/// origin, the load origin written little-endian into the reset vector,
/// and the program counter at the load origin.  Registers and status
/// are untouched.
pub open spec fn spec_load(s: CpuState, program: Seq<u8>) -> CpuState
    recommends
        s.wf(),
        program.len() <= MAX_PROGRAM_LEN,
{
    CpuState {
        pc: LOAD_ORIGIN,
        mem: write16(overwrite(s.mem, LOAD_ORIGIN as int, program), RESET_VECTOR, LOAD_ORIGIN),
        ..s
    }
}

/// The state after `reset`: A, X and Y zeroed and the program counter
/// fetched from the reset vector.  The status register is deliberately
/// left as it was: this core reproduces the historical behaviour of
/// carrying the prior flags across a reset.
pub open spec fn spec_reset(s: CpuState) -> CpuState
    recommends
        s.wf(),
{
    CpuState { a: 0, x: 0, y: 0, pc: read16(s.mem, RESET_VECTOR), ..s }
}

/// The opcode byte the dispatch loop is about to fetch.
pub open spec fn fetch(s: CpuState) -> u8
    recommends
        s.wf(),
{
    s.mem[s.pc as int]
}

/// Whether the next fetch halts the machine: BRK is opcode 0x00.
pub open spec fn is_halt(s: CpuState) -> bool
    recommends
        s.wf(),
{
    fetch(s) == 0x00
}

/// Whether the opcode table knows the byte the dispatch loop is about
/// to fetch.
pub open spec fn is_supported(s: CpuState) -> bool
    recommends
        s.wf(),
{
    spec_decode(fetch(s)) is Some
}

/// The effect of one instruction on the state, given the program
/// counter already at the byte that follows the opcode.  The
/// program-counter advance past the operand bytes is not included
/// here; [`step1`] performs it.
pub open spec fn apply_op(s: CpuState, mnemonic: Mnemonic, mode: AddressingMode) -> CpuState
    recommends
        s.wf(),
{
    match mnemonic {
        Mnemonic::Brk => s,
        Mnemonic::Nop => s,
        Mnemonic::Lda => spec_lda(s, operand_address(s, mode)),
        Mnemonic::Ldx => spec_ldx(s, operand_address(s, mode)),
        Mnemonic::Ldy => spec_ldy(s, operand_address(s, mode)),
        Mnemonic::Sta => spec_sta(s, operand_address(s, mode)),
        Mnemonic::Stx => spec_stx(s, operand_address(s, mode)),
        Mnemonic::Sty => spec_sty(s, operand_address(s, mode)),
        Mnemonic::Tax => spec_tax(s),
        Mnemonic::Tay => spec_tay(s),
        Mnemonic::Txa => spec_txa(s),
        Mnemonic::Tya => spec_tya(s),
        Mnemonic::Inx => spec_inx(s),
        Mnemonic::Iny => spec_iny(s),
        Mnemonic::Dex => spec_dex(s),
        Mnemonic::Dey => spec_dey(s),
        Mnemonic::And => spec_and(s, operand_address(s, mode)),
        Mnemonic::Ora => spec_ora(s, operand_address(s, mode)),
        Mnemonic::Eor => spec_eor(s, operand_address(s, mode)),
        Mnemonic::Clc => spec_set_flag(s, false, FLAG_CARRY),
        Mnemonic::Sec => spec_set_flag(s, true, FLAG_CARRY),
        Mnemonic::Cli => spec_set_flag(s, false, FLAG_INTERRUPT_DISABLE),
        Mnemonic::Sei => spec_set_flag(s, true, FLAG_INTERRUPT_DISABLE),
        Mnemonic::Clv => spec_set_flag(s, false, FLAG_OVERFLOW),
        Mnemonic::Cld => spec_set_flag(s, false, FLAG_DECIMAL),
        Mnemonic::Sed => spec_set_flag(s, true, FLAG_DECIMAL),
    }
}

/// One transition of the dispatch loop on a supported, non-halting
/// opcode: fetch the opcode and advance the program counter past it,
/// perform the instruction, then advance the program counter past the
/// operand bytes, each advance with 16-bit wraparound.
pub open spec fn step1(s: CpuState) -> CpuState
    recommends
        s.wf(),
        is_supported(s),
        !is_halt(s),
{
    let oc = spec_decode(fetch(s)).unwrap();
    let at_operand = CpuState { pc: wrap_add16(s.pc, 1), ..s };
    let done = apply_op(at_operand, oc.mnemonic, oc.mode);
    CpuState { pc: wrap_add16(done.pc, (oc.len - 1) as u16), ..done }
}

/// The terminal transition: BRK is fetched and consumed, everything
/// else stays.
pub open spec fn halt_step(s: CpuState) -> CpuState
    recommends
        s.wf(),
        is_halt(s),
{
    CpuState { pc: wrap_add16(s.pc, 1), ..s }
}

/// The state after `n` transitions of the dispatch loop.
pub open spec fn steps(s: CpuState, n: nat) -> CpuState
    decreases n,
{
    if n == 0 {
        s
    } else {
        step1(steps(s, (n - 1) as nat))
    }
}

/// Whether the dispatch loop, started at `s`, fetches a supported,
/// non-halting opcode at each of its first `n` transitions.
pub open spec fn running_for(s: CpuState, n: nat) -> bool {
    forall|i: nat| i < n ==> is_supported(#[trigger] steps(s, i)) && !is_halt(steps(s, i))
}

/// Whether the dispatch loop, started at `s`, stops after exactly `n`
/// instructions: it fetches `n` supported, non-halting opcodes and then
/// either BRK or a byte outside the opcode table.
pub open spec fn halts_within(s: CpuState, n: nat) -> bool {
    running_for(s, n) && (is_halt(steps(s, n)) || !is_supported(steps(s, n)))
}

/// Whether the dispatch loop, started at `s`, ever stops.  A 6502
/// program is free to run forever (the program counter wraps around the
/// top of memory), and `run` is a blocking call with no other way out,
/// so only an execution known to stop can be verified to return.
pub open spec fn halts(s: CpuState) -> bool {
    exists|n: nat| halts_within(s, n)
}

/// What the dispatch loop, started at `start`, guarantees of the state
/// `end` it stops in and the result `r` it returns: some number of
/// supported instructions were executed, and then either BRK was
/// fetched and consumed (`Ok`), or an opcode outside the table was
/// fetched, named in the error, with the state left exactly at that
/// point (`Err`).
pub open spec fn run_from(start: CpuState, end: CpuState, r: Result<(), CpuError>) -> bool {
    match r {
        Ok(()) => exists|n: nat|
            {
                &&& running_for(start, n)
                &&& is_halt(#[trigger] steps(start, n))
                &&& end == halt_step(steps(start, n))
            },
        Err(e) => exists|n: nat|
            {
                &&& running_for(start, n)
                &&& !is_halt(#[trigger] steps(start, n))
                &&& !is_supported(steps(start, n))
                &&& e == CpuError::UnsupportedOpcode(fetch(steps(start, n)))
                &&& end == steps(start, n)
            },
    }
}

} // verus!
