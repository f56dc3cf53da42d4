//! The executable processor: registers, memory and the memory accessors.

use vstd::prelude::*;

use crate::ops::Mnemonic;
use crate::ops::decode;
use crate::ops::lemma_decode_wf;
use crate::state::CpuState;
use crate::state::FLAG_CARRY;
use crate::state::FLAG_DECIMAL;
use crate::state::FLAG_INTERRUPT_DISABLE;
use crate::state::FLAG_NEGATIVE;
use crate::state::FLAG_OVERFLOW;
use crate::state::FLAG_ZERO;
use crate::state::LOAD_ORIGIN;
use crate::state::MAX_PROGRAM_LEN;
use crate::state::MEMORY_SIZE;
use crate::state::RESET_VECTOR;
use crate::state::fetch;
use crate::state::halt_step;
use crate::state::halts;
use crate::state::halts_within;
use crate::state::is_halt;
use crate::state::is_supported;
use crate::state::operand_address;
use crate::state::read16;
use crate::state::resolvable;
use crate::state::run_from;
use crate::state::running_for;
use crate::state::spec_and;
use crate::state::spec_dex;
use crate::state::spec_dey;
use crate::state::spec_eor;
use crate::state::spec_inx;
use crate::state::spec_iny;
use crate::state::spec_lda;
use crate::state::spec_ldx;
use crate::state::spec_ldy;
use crate::state::spec_load;
use crate::state::spec_ora;
use crate::state::spec_reset;
use crate::state::spec_sta;
use crate::state::spec_stx;
use crate::state::spec_sty;
use crate::state::spec_tax;
use crate::state::spec_tay;
use crate::state::spec_txa;
use crate::state::spec_tya;
use crate::state::step1;
use crate::state::steps;
use crate::state::update_zn;
use crate::state::with_flag;
use crate::state::write16;

verus! {

/// The ways an instruction can designate its operand.
///
/// `Implied` and `Accumulator` instructions carry no operand address;
/// `Relative` is the encoding of branch offsets and `Indirect` that of
/// the absolute-indirect jump, neither of which the resolver serves.
#[derive(Clone, Copy, Debug)]
#[allow(non_camel_case_types)]
pub enum AddressingMode {
    Immediate,
    ZeroPage,
    ZeroPage_X,
    ZeroPage_Y,
    Absolute,
    Absolute_X,
    Absolute_Y,
    Indirect_X,
    Indirect_Y,
    Indirect,
    Accumulator,
    Relative,
    Implied,
}

/// The conditions under which the emulator refuses to go on.
#[derive(Clone, Copy, Debug, PartialEq, Eq, Structural)]
pub enum CpuError {
    /// The byte at the program counter has no entry in the opcode table,
    /// or its instruction is not implemented.
    UnsupportedOpcode(u8),
    /// A program handed to `load` does not fit between the load origin
    /// and the top of the address space.
    ProgramTooLarge,
}

/// The processor: three 8-bit registers, the status register, the
/// program counter and 64 KiB of memory.
pub struct CPU {
    pub register_a: u8,
    pub register_x: u8,
    pub register_y: u8,
    pub status: u8,
    pub program_counter: u16,
    pub memory: Vec<u8>,
}

impl View for CPU {
    type V = CpuState;

    open spec fn view(&self) -> CpuState {
        CpuState {
            a: self.register_a,
            x: self.register_x,
            y: self.register_y,
            status: self.status,
            pc: self.program_counter,
            mem: self.memory@,
        }
    }
}

impl CPU {
    /// A CPU with all registers, the status register, the program
    /// counter and every byte of memory zeroed.
    pub fn new() -> (cpu: CPU)
        ensures
            cpu@.wf(),
            cpu@.a == 0,
            cpu@.x == 0,
            cpu@.y == 0,
            cpu@.status == 0,
            cpu@.pc == 0,
            forall|i: int| 0 <= i < MEMORY_SIZE ==> cpu@.mem[i] == 0,
    {
        let mut memory: Vec<u8> = Vec::new();
        while memory.len() < MEMORY_SIZE
            invariant
                memory@.len() <= MEMORY_SIZE,
                forall|i: int| 0 <= i < memory@.len() ==> memory@[i] == 0,
            decreases MEMORY_SIZE - memory@.len(),
        {
            memory.push(0);
        }
        CPU { register_a: 0, register_x: 0, register_y: 0, status: 0, program_counter: 0, memory }
    }

    /// The byte at `addr`.
    pub fn mem_read(&self, addr: u16) -> (data: u8)
        requires
            self@.wf(),
        ensures
            data == self@.mem[addr as int],
    {
        self.memory[addr as usize]
    }

    /// Stores `data` at `addr`; nothing else changes.
    pub fn mem_write(&mut self, addr: u16, data: u8)
        requires
            old(self)@.wf(),
        ensures
            final(self)@ == (CpuState { mem: old(self)@.mem.update(addr as int, data), ..old(self)@ }),
    {
        self.memory[addr as usize] = data;
    }

    /// The little-endian word at `pos`: low byte at `pos`, high byte at
    /// the following address, wrapping around the top of memory.
    pub fn mem_read_u16(&self, pos: u16) -> (data: u16)
        requires
            self@.wf(),
        ensures
            data == read16(self@.mem, pos),
    {
        let lo = self.mem_read(pos);
        let hi = self.mem_read(pos.wrapping_add(1));
        ((hi as u16) << 8) | (lo as u16)
    }

    /// Stores `data` little-endian at `pos`: low byte at `pos`, high
    /// byte at the following address, wrapping around the top of memory.
    pub fn mem_write_u16(&mut self, pos: u16, data: u16)
        requires
            old(self)@.wf(),
        ensures
            final(self)@ == (CpuState { mem: write16(old(self)@.mem, pos, data), ..old(self)@ }),
    {
        let hi = (data >> 8) as u8;
        let lo = (data & 0xff) as u8;
        self.mem_write(pos, lo);
        self.mem_write(pos.wrapping_add(1), hi);
    }

    /// Resolves the effective operand address of the current
    /// instruction, with the program counter at the byte that follows
    /// the opcode.  The register-implied modes carry no operand address,
    /// so resolving one is ruled out by contract rather than answered
    /// with an arbitrary address.  A zero-page indexed mode never leaves
    /// the zero page: the index wraps at 8 bits.
    pub fn get_operand_address(&self, mode: &AddressingMode) -> (addr: u16)
        requires
            self@.wf(),
            resolvable(*mode),
        ensures
            addr == operand_address(self@, *mode),
            (*mode matches AddressingMode::ZeroPage || *mode matches AddressingMode::ZeroPage_X
                || *mode matches AddressingMode::ZeroPage_Y) ==> addr <= 0xff,
    {
        match mode {
            AddressingMode::Immediate => self.program_counter,
            AddressingMode::ZeroPage => self.mem_read(self.program_counter) as u16,
            AddressingMode::Absolute => self.mem_read_u16(self.program_counter),
            AddressingMode::ZeroPage_X => {
                let pos = self.mem_read(self.program_counter);
                let addr = pos.wrapping_add(self.register_x) as u16;
                addr
            },
            AddressingMode::ZeroPage_Y => {
                let pos = self.mem_read(self.program_counter);
                let addr = pos.wrapping_add(self.register_y) as u16;
                addr
            },
            AddressingMode::Absolute_X => {
                let base = self.mem_read_u16(self.program_counter);
                let addr = base.wrapping_add(self.register_x as u16);
                addr
            },
            AddressingMode::Absolute_Y => {
                let base = self.mem_read_u16(self.program_counter);
                let addr = base.wrapping_add(self.register_y as u16);
                addr
            },
            AddressingMode::Indirect_X => {
                let base = self.mem_read(self.program_counter);
                let ptr: u8 = base.wrapping_add(self.register_x);
                let lo = self.mem_read(ptr as u16);
                let hi = self.mem_read(ptr.wrapping_add(1) as u16);
                ((hi as u16) << 8) | (lo as u16)
            },
            AddressingMode::Indirect_Y => {
                let base = self.mem_read(self.program_counter);
                let lo = self.mem_read(base as u16);
                let hi = self.mem_read(base.wrapping_add(1) as u16);
                let deref_base = ((hi as u16) << 8) | (lo as u16);
                let deref = deref_base.wrapping_add(self.register_y as u16);
                deref
            },
            _ => unreached(),
        }
    }

    /// Forces one status flag to `condition` and keeps every other bit.
    pub fn update_processor_status(&mut self, condition: bool, flag: u8)
        ensures
            final(self)@ == (CpuState {
                status: with_flag(old(self)@.status, condition, flag),
                ..old(self)@
            }),
    {
        if condition {
            self.status |= flag;
        } else {
            self.status &= !flag;
        }
    }

    /// Sets the Zero and Negative flags from a result `value` and keeps
    /// the other six bits.
    pub fn update_status_z_n(&mut self, value: u8)
        ensures
            final(self)@ == (CpuState {
                status: update_zn(old(self)@.status, value),
                ..old(self)@
            }),
    {
        self.update_processor_status(value == 0, FLAG_ZERO);
        self.update_processor_status(value & 0b1000_0000 != 0, FLAG_NEGATIVE);
    }

    /// `LDA`: load the operand into the accumulator.
    fn lda(&mut self, mode: &AddressingMode)
        requires
            old(self)@.wf(),
            resolvable(*mode),
        ensures
            final(self)@ == spec_lda(old(self)@, operand_address(old(self)@, *mode)),
    {
        let addr = self.get_operand_address(mode);
        let value = self.mem_read(addr);
        self.register_a = value;
        self.update_status_z_n(value);
    }

    /// `LDX`: load the operand into register X.
    fn ldx(&mut self, mode: &AddressingMode)
        requires
            old(self)@.wf(),
            resolvable(*mode),
        ensures
            final(self)@ == spec_ldx(old(self)@, operand_address(old(self)@, *mode)),
    {
        let addr = self.get_operand_address(mode);
        let value = self.mem_read(addr);
        self.register_x = value;
        self.update_status_z_n(value);
    }

    /// `LDY`: load the operand into register Y.
    fn ldy(&mut self, mode: &AddressingMode)
        requires
            old(self)@.wf(),
            resolvable(*mode),
        ensures
            final(self)@ == spec_ldy(old(self)@, operand_address(old(self)@, *mode)),
    {
        let addr = self.get_operand_address(mode);
        let value = self.mem_read(addr);
        self.register_y = value;
        self.update_status_z_n(value);
    }

    /// `STA`: store the accumulator at the operand address.
    fn sta(&mut self, mode: &AddressingMode)
        requires
            old(self)@.wf(),
            resolvable(*mode),
        ensures
            final(self)@ == spec_sta(old(self)@, operand_address(old(self)@, *mode)),
    {
        let addr = self.get_operand_address(mode);
        self.mem_write(addr, self.register_a);
    }

    /// `STX`: store register X at the operand address.
    fn stx(&mut self, mode: &AddressingMode)
        requires
            old(self)@.wf(),
            resolvable(*mode),
        ensures
            final(self)@ == spec_stx(old(self)@, operand_address(old(self)@, *mode)),
    {
        let addr = self.get_operand_address(mode);
        self.mem_write(addr, self.register_x);
    }

    /// `STY`: store register Y at the operand address.
    fn sty(&mut self, mode: &AddressingMode)
        requires
            old(self)@.wf(),
            resolvable(*mode),
        ensures
            final(self)@ == spec_sty(old(self)@, operand_address(old(self)@, *mode)),
    {
        let addr = self.get_operand_address(mode);
        self.mem_write(addr, self.register_y);
    }

    /// `TAX`: copy the accumulator to register X.
    fn tax(&mut self)
        ensures
            final(self)@ == spec_tax(old(self)@),
    {
        self.register_x = self.register_a;
        self.update_status_z_n(self.register_x);
    }

    /// `TAY`: copy the accumulator to register Y.
    fn tay(&mut self)
        ensures
            final(self)@ == spec_tay(old(self)@),
    {
        self.register_y = self.register_a;
        self.update_status_z_n(self.register_y);
    }

    /// `TXA`: copy register X to the accumulator.
    fn txa(&mut self)
        ensures
            final(self)@ == spec_txa(old(self)@),
    {
        self.register_a = self.register_x;
        self.update_status_z_n(self.register_a);
    }

    /// `TYA`: copy register Y to the accumulator.
    fn tya(&mut self)
        ensures
            final(self)@ == spec_tya(old(self)@),
    {
        self.register_a = self.register_y;
        self.update_status_z_n(self.register_a);
    }

    /// `INX`: increment register X with 8-bit wraparound.
    fn inx(&mut self)
        ensures
            final(self)@ == spec_inx(old(self)@),
    {
        self.register_x = self.register_x.wrapping_add(1);
        self.update_status_z_n(self.register_x);
    }

    /// `INY`: increment register Y with 8-bit wraparound.
    fn iny(&mut self)
        ensures
            final(self)@ == spec_iny(old(self)@),
    {
        self.register_y = self.register_y.wrapping_add(1);
        self.update_status_z_n(self.register_y);
    }

    /// `DEX`: decrement register X with 8-bit wraparound.
    fn dex(&mut self)
        ensures
            final(self)@ == spec_dex(old(self)@),
    {
        self.register_x = self.register_x.wrapping_sub(1);
        self.update_status_z_n(self.register_x);
    }

    /// `DEY`: decrement register Y with 8-bit wraparound.
    fn dey(&mut self)
        ensures
            final(self)@ == spec_dey(old(self)@),
    {
        self.register_y = self.register_y.wrapping_sub(1);
        self.update_status_z_n(self.register_y);
    }

    /// `AND`: bitwise-and the accumulator with the operand.
    fn and(&mut self, mode: &AddressingMode)
        requires
            old(self)@.wf(),
            resolvable(*mode),
        ensures
            final(self)@ == spec_and(old(self)@, operand_address(old(self)@, *mode)),
    {
        let addr = self.get_operand_address(mode);
        let value = self.mem_read(addr);
        self.register_a = self.register_a & value;
        self.update_status_z_n(self.register_a);
    }

    /// `ORA`: bitwise-or the accumulator with the operand.
    fn ora(&mut self, mode: &AddressingMode)
        requires
            old(self)@.wf(),
            resolvable(*mode),
        ensures
            final(self)@ == spec_ora(old(self)@, operand_address(old(self)@, *mode)),
    {
        let addr = self.get_operand_address(mode);
        let value = self.mem_read(addr);
        self.register_a = self.register_a | value;
        self.update_status_z_n(self.register_a);
    }

    /// `EOR`: bitwise-exclusive-or the accumulator with the operand.
    fn eor(&mut self, mode: &AddressingMode)
        requires
            old(self)@.wf(),
            resolvable(*mode),
        ensures
            final(self)@ == spec_eor(old(self)@, operand_address(old(self)@, *mode)),
    {
        let addr = self.get_operand_address(mode);
        let value = self.mem_read(addr);
        self.register_a = self.register_a ^ value;
        self.update_status_z_n(self.register_a);
    }

    /// Zeroes A, X and Y and fetches the program counter from the reset
    /// vector.  The status register is deliberately left as it was (the
    /// historical behaviour of this core); memory is untouched.
    pub fn reset(&mut self)
        requires
            old(self)@.wf(),
        ensures
            final(self)@ == spec_reset(old(self)@),
    {
        self.register_a = 0;
        self.register_x = 0;
        self.register_y = 0;
        self.program_counter = self.mem_read_u16(RESET_VECTOR);
    }

    /// Copies `program` into memory at the load origin, writes the load
    /// origin into the reset vector and puts the program counter at the
    /// load origin.  A program longer than the space from the load
    /// origin to the top of memory is refused before anything is
    /// mutated.
    pub fn load(&mut self, program: Vec<u8>) -> (r: Result<(), CpuError>)
        requires
            old(self)@.wf(),
        ensures
            final(self)@.wf(),
            program@.len() <= MAX_PROGRAM_LEN ==> r == Ok::<(), CpuError>(()) && final(self)@
                == spec_load(old(self)@, program@),
            program@.len() > MAX_PROGRAM_LEN ==> r == Err::<(), CpuError>(
                CpuError::ProgramTooLarge,
            ) && final(self)@ == old(self)@,
    {
        if program.len() > MAX_PROGRAM_LEN {
            return Err(CpuError::ProgramTooLarge);
        }
        let mut i: usize = 0;
        while i < program.len()
            invariant
                self@.wf(),
                i <= program@.len() <= MAX_PROGRAM_LEN,
                self@.a == old(self)@.a,
                self@.x == old(self)@.x,
                self@.y == old(self)@.y,
                self@.status == old(self)@.status,
                self@.pc == old(self)@.pc,
                forall|j: int| 0 <= j < i ==> self@.mem[LOAD_ORIGIN + j] == program@[j],
                forall|j: int|
                    0 <= j < MEMORY_SIZE && !(LOAD_ORIGIN <= j < LOAD_ORIGIN + i)
                        ==> self@.mem[j] == old(self)@.mem[j],
            decreases program@.len() - i,
        {
            let addr: u16 = LOAD_ORIGIN + (i as u16);
            self.mem_write(addr, program[i]);
            i += 1;
        }
        self.program_counter = LOAD_ORIGIN;
        self.mem_write_u16(RESET_VECTOR, LOAD_ORIGIN);
        proof {
            assert(self@.mem =~= spec_load(old(self)@, program@).mem);
            assert(self@ =~= spec_load(old(self)@, program@));
        }
        Ok(())
    }

    /// Executes exactly one instruction.  Returns `Ok(true)` when
    /// execution should continue, `Ok(false)` when BRK was fetched and
    /// the machine halted, and the unsupported-opcode error, with the
    /// state untouched, when the byte at the program counter has no
    /// entry in the opcode table.
    pub fn step(&mut self) -> (r: Result<bool, CpuError>)
        requires
            old(self)@.wf(),
        ensures
            final(self)@.wf(),
            r matches Ok(true) ==> is_supported(old(self)@) && !is_halt(old(self)@)
                && final(self)@ == step1(old(self)@),
            r matches Ok(false) ==> is_halt(old(self)@) && final(self)@ == halt_step(old(self)@),
            r matches Err(e) ==> !is_supported(old(self)@) && !is_halt(old(self)@) && e
                == CpuError::UnsupportedOpcode(fetch(old(self)@)) && final(self)@ == old(self)@,
    {
        let opcode = self.mem_read(self.program_counter);
        let op = match decode(opcode) {
            Some(op) => op,
            None => {
                return Err(CpuError::UnsupportedOpcode(opcode));
            },
        };
        proof {
            lemma_decode_wf(opcode);
        }
        self.program_counter = self.program_counter.wrapping_add(1);
        if opcode == 0x00 {
            return Ok(false);
        }
        match op.mnemonic {
            Mnemonic::Brk => unreached(),
            Mnemonic::Nop => {},
            Mnemonic::Lda => self.lda(&op.mode),
            Mnemonic::Ldx => self.ldx(&op.mode),
            Mnemonic::Ldy => self.ldy(&op.mode),
            Mnemonic::Sta => self.sta(&op.mode),
            Mnemonic::Stx => self.stx(&op.mode),
            Mnemonic::Sty => self.sty(&op.mode),
            Mnemonic::Tax => self.tax(),
            Mnemonic::Tay => self.tay(),
            Mnemonic::Txa => self.txa(),
            Mnemonic::Tya => self.tya(),
            Mnemonic::Inx => self.inx(),
            Mnemonic::Iny => self.iny(),
            Mnemonic::Dex => self.dex(),
            Mnemonic::Dey => self.dey(),
            Mnemonic::And => self.and(&op.mode),
            Mnemonic::Ora => self.ora(&op.mode),
            Mnemonic::Eor => self.eor(&op.mode),
            Mnemonic::Clc => self.update_processor_status(false, FLAG_CARRY),
            Mnemonic::Sec => self.update_processor_status(true, FLAG_CARRY),
            Mnemonic::Cli => self.update_processor_status(false, FLAG_INTERRUPT_DISABLE),
            Mnemonic::Sei => self.update_processor_status(true, FLAG_INTERRUPT_DISABLE),
            Mnemonic::Clv => self.update_processor_status(false, FLAG_OVERFLOW),
            Mnemonic::Cld => self.update_processor_status(false, FLAG_DECIMAL),
            Mnemonic::Sed => self.update_processor_status(true, FLAG_DECIMAL),
        }
        self.program_counter = self.program_counter.wrapping_add((op.len - 1) as u16);
        Ok(true)
    }

    /// The dispatch loop: executes instructions until BRK is fetched,
    /// or until a byte outside the opcode table is fetched, which stops
    /// execution with the unsupported-opcode error and the state left
    /// exactly at that point.
    ///
    /// `run` is a blocking call with no other way out, and a 6502
    /// program is free to run forever (the program counter wraps around
    /// the top of memory), so the contract asks the caller for an
    /// execution that stops.
    #[verifier::loop_isolation(false)]
    pub fn run(&mut self) -> (r: Result<(), CpuError>)
        requires
            old(self)@.wf(),
            halts(old(self)@),
        ensures
            final(self)@.wf(),
            run_from(old(self)@, final(self)@, r),
    {
        let ghost start: CpuState = self@;
        let ghost fuel: nat = choose|n: nat| halts_within(start, n);
        let ghost mut k: nat = 0;
        loop
            invariant
                self@.wf(),
                k <= fuel,
                running_for(start, k),
                self@ == steps(start, k),
            decreases fuel - k,
        {
            let ghost pre: CpuState = self@;
            let continuing = self.step();
            proof {
                assert(steps(start, k + 1) == step1(steps(start, k)));
            }
            match continuing {
                Ok(true) => {
                    proof {
                        assert forall|i: nat| i < k + 1 implies is_supported(
                            #[trigger] steps(start, i),
                        ) && !is_halt(steps(start, i)) by {
                            if i == k {
                                assert(steps(start, i) == pre);
                            }
                        }
                        k = k + 1;
                    }
                },
                Ok(false) => {
                    proof {
                        assert(is_halt(#[trigger] steps(start, k)));
                    }
                    return Ok(());
                },
                Err(e) => {
                    proof {
                        assert(!is_supported(#[trigger] steps(start, k)));
                    }
                    return Err(e);
                },
            }
        }
    }

    /// Loads a program, resets the processor and runs it: the
    /// composition of `load`, `reset` and `run`.  A program longer than
    /// the space from the load origin to the top of memory is refused
    /// with nothing mutated; otherwise the dispatch loop runs from the
    /// freshly loaded and reset state, which the caller must know to
    /// stop (see [`CPU::run`]).
    pub fn load_and_run(&mut self, program: Vec<u8>) -> (r: Result<(), CpuError>)
        requires
            old(self)@.wf(),
            program@.len() <= MAX_PROGRAM_LEN ==> halts(
                spec_reset(spec_load(old(self)@, program@)),
            ),
        ensures
            final(self)@.wf(),
            program@.len() > MAX_PROGRAM_LEN ==> r == Err::<(), CpuError>(
                CpuError::ProgramTooLarge,
            ) && final(self)@ == old(self)@,
            program@.len() <= MAX_PROGRAM_LEN ==> run_from(
                spec_reset(spec_load(old(self)@, program@)),
                final(self)@,
                r,
            ),
    {
        match self.load(program) {
            Ok(()) => {},
            Err(e) => {
                return Err(e);
            },
        }
        self.reset();
        self.run()
    }
}

} // verus!
