//! The general properties the emulator promises, each stated over the
//! machine model of [`crate::state`] and proved for every input.

use vstd::prelude::*;

use crate::cpu::AddressingMode;
use crate::cpu::CpuError;
use crate::state::CpuState;
use crate::state::FLAG_NEGATIVE;
use crate::state::FLAG_ZERO;
use crate::state::deref_zero_page_pointer;
use crate::state::fetch;
use crate::state::halt_step;
use crate::state::is_halt;
use crate::state::is_supported;
use crate::state::operand_address;
use crate::state::read16;
use crate::state::run_from;
use crate::state::running_for;
use crate::state::steps;
use crate::state::update_zn;
use crate::state::with_flag;
use crate::state::wrap_add16;
use crate::state::wrap_add8;
use crate::state::write16;

verus! {

/// Law: for every 8-bit value `v` and every prior status, the
/// zero-and-negative update sets Zero iff `v == 0`, sets Negative iff
/// bit 7 of `v` is set, and leaves the other six status bits exactly as
/// they were.
pub proof fn lemma_update_zn(status: u8, v: u8)
    ensures
        update_zn(status, v) & FLAG_ZERO != 0 <==> v == 0,
        update_zn(status, v) & FLAG_NEGATIVE != 0 <==> v & 0x80 != 0,
        update_zn(status, v) & !(FLAG_ZERO | FLAG_NEGATIVE) == status & !(FLAG_ZERO
            | FLAG_NEGATIVE),
{
    assert(update_zn(status, v) & FLAG_ZERO != 0 <==> v == 0) by (bit_vector);
    assert(update_zn(status, v) & FLAG_NEGATIVE != 0 <==> v & 0x80 != 0) by (bit_vector);
    assert(update_zn(status, v) & !(FLAG_ZERO | FLAG_NEGATIVE) == status & !(FLAG_ZERO
        | FLAG_NEGATIVE)) by (bit_vector);
}

/// Law: forcing one status flag touches no other bit: every bit
/// outside `flag` survives, and the bits of `flag` come out set or
/// cleared as asked.
pub proof fn lemma_with_flag(status: u8, cond: bool, flag: u8)
    ensures
        with_flag(status, cond, flag) & !flag == status & !flag,
        cond ==> with_flag(status, cond, flag) & flag == flag,
        !cond ==> with_flag(status, cond, flag) & flag == 0,
{
    assert(with_flag(status, cond, flag) & !flag == status & !flag) by (bit_vector);
    assert(cond ==> with_flag(status, cond, flag) & flag == flag) by (bit_vector);
    assert(!cond ==> with_flag(status, cond, flag) & flag == 0) by (bit_vector);
}

/// Law: a zero-page addressing mode, indexed or not, never resolves to
/// an address outside the zero page: the index is added with 8-bit
/// wraparound, so the effective address stays at or below 0x00FF.
pub proof fn lemma_zero_page_stays_in_zero_page(s: CpuState, mode: AddressingMode)
    requires
        s.wf(),
        mode matches AddressingMode::ZeroPage || mode matches AddressingMode::ZeroPage_X
            || mode matches AddressingMode::ZeroPage_Y,
    ensures
        operand_address(s, mode) <= 0xff,
{
}

/// Law: the two indirect modes both dereference a two-byte
/// little-endian pointer held in the zero page (its bytes wrapping
/// within the zero page), and they differ only in where the index is
/// added: `Indirect_X` adds X to the pointer's location before
/// dereferencing, `Indirect_Y` adds Y to the dereferenced address
/// after, with 16-bit wraparound.
pub proof fn lemma_indirect_modes(s: CpuState)
    requires
        s.wf(),
    ensures
        operand_address(s, AddressingMode::Indirect_X) == deref_zero_page_pointer(
            s.mem,
            wrap_add8(s.mem[s.pc as int], s.x),
        ),
        operand_address(s, AddressingMode::Indirect_Y) == wrap_add16(
            deref_zero_page_pointer(s.mem, s.mem[s.pc as int]),
            s.y as u16,
        ),
{
}

/// There is at most one point at which the dispatch loop can stop: two
/// stopping step counts from the same start state are equal.  (BRK has
/// an entry in the opcode table, so a halting fetch is also a
/// supported one, and a state cannot both stop and go on.)
proof fn lemma_stop_unique(s: CpuState, n1: nat, n2: nat)
    requires
        running_for(s, n1),
        is_halt(steps(s, n1)) || !is_supported(steps(s, n1)),
        running_for(s, n2),
        is_halt(steps(s, n2)) || !is_supported(steps(s, n2)),
    ensures
        n1 == n2,
{
    if n1 < n2 {
        assert(is_supported(#[trigger] steps(s, n1)) && !is_halt(steps(s, n1)));
    }
    if n2 < n1 {
        assert(is_supported(#[trigger] steps(s, n2)) && !is_halt(steps(s, n2)));
    }
}

/// The step count at which a run admitted by `run_from` stopped.
proof fn stop_witness(start: CpuState, end: CpuState, r: Result<(), CpuError>) -> (n: nat)
    requires
        run_from(start, end, r),
    ensures
        running_for(start, n),
        is_halt(steps(start, n)) || !is_supported(steps(start, n)),
        r matches Ok(()) ==> is_halt(steps(start, n)) && end == halt_step(steps(start, n)),
        r matches Err(e) ==> !is_halt(steps(start, n)) && !is_supported(steps(start, n)) && e
            == CpuError::UnsupportedOpcode(fetch(steps(start, n))) && end == steps(start, n),
{
    match r {
        Ok(()) => choose|n: nat|
            {
                &&& running_for(start, n)
                &&& is_halt(#[trigger] steps(start, n))
                &&& end == halt_step(steps(start, n))
            },
        Err(e) => choose|n: nat|
            {
                &&& running_for(start, n)
                &&& !is_halt(#[trigger] steps(start, n))
                &&& !is_supported(steps(start, n))
                &&& e == CpuError::UnsupportedOpcode(fetch(steps(start, n)))
                &&& end == steps(start, n)
            },
    }
}

/// Law: execution is deterministic.  From one start state the dispatch
/// loop can stop in only one state with only one result: any two runs
/// that `run_from` admits from the same start state end alike.
pub proof fn lemma_run_deterministic(
    start: CpuState,
    end1: CpuState,
    end2: CpuState,
    r1: Result<(), CpuError>,
    r2: Result<(), CpuError>,
)
    requires
        run_from(start, end1, r1),
        run_from(start, end2, r2),
    ensures
        end1 == end2,
        r1 == r2,
{
    let n1 = stop_witness(start, end1, r1);
    let n2 = stop_witness(start, end2, r2);
    lemma_stop_unique(start, n1, n2);
    match r1 {
        Ok(()) => match r2 {
            Ok(()) => {
                // both results carry the unit value
                assert(r1->Ok_0 == r2->Ok_0);
            },
            Err(_) => {
                assert(false);
            },
        },
        Err(e1) => match r2 {
            Ok(()) => {
                assert(false);
            },
            Err(e2) => {
                assert(e1 == e2);
            },
        },
    }
}

/// Law: a 16-bit write followed by a 16-bit read of the same address
/// gives the word back, at every address that leaves room for the two
/// bytes.
pub proof fn lemma_write16_read16_roundtrip(m: Seq<u8>, addr: u16, w: u16)
    requires
        m.len() == 0x10000,
        addr < 0xffff,
    ensures
        read16(write16(m, addr, w), addr) == w,
{
    assert((((w >> 8) as u8 as u16) << 8) | ((w & 0xff) as u8 as u16) == w) by (bit_vector);
}

} // verus!
