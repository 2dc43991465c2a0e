//! The CPU: its architectural state, the fetch-execute cycle and the
//! dispatch of a decoded instruction to its handler.
//!
//! What an instruction does is stated on `CpuView`, the state as plain
//! mathematical values; the executable functions are proved to do the same
//! to a `Cpu`.

use vstd::prelude::*;
use crate::bios::Bios;
use crate::decoded_instruction::{
    lemma_decode_in_range,
    DecodedInstruction,
    EOpType,
    FOpType,
    IOpType,
    JOpType,
    OpType,
    ROpType,
};
use crate::generic_error::{ErrorKind, GenericError};
use crate::memory::{Memory, MemoryView};
use crate::invariants::{
    keeps_validity,
    lemma_execute_keeps_validity,
    lemma_step_keeps_validity,
};
use crate::memory_region::MemoryRegionType;
use crate::trace::{Output, TraceLine};

verus! {

#[derive(Debug, Clone)]
pub struct Cpu {
    pub pc: u32,
    pub memory: Memory,
    pub gpr: [u32; 32],  // General Purpose Registers ($0 - $31)
    pub branch_delay_slot: u32,
    pub sr: u32,
    /// What was emitted and not yet taken by the host, oldest first.
    pub output: Vec<Output>,
}

/// The state of the CPU as plain values.
pub struct CpuView {
    pub pc: u32,
    pub memory: MemoryView,
    pub gpr: Seq<u32>,
    pub branch_delay_slot: u32,
    pub sr: u32,
    pub output: Seq<Output>,
}

impl View for Cpu {
    type V = CpuView;

    open spec fn view(&self) -> CpuView {
        CpuView {
            pc: self.pc,
            memory: self.memory@,
            gpr: self.gpr@,
            branch_delay_slot: self.branch_delay_slot,
            sr: self.sr,
            output: self.output@,
        }
    }
}

/// What an instruction does: the state after it, and whether it went well.
pub type Outcome = (CpuView, Result<(), GenericError>);

/// The address at which execution starts: the entry of the BIOS in the
/// uncached kernel segment.
pub const RESET_VECTOR: u32 = 0xbfc0_0000;

/// The bit of the status register that isolates the cache.
pub const ISOLATE_CACHE: u32 = 0x0001_0000;

/// The index of the status register in the system coprocessor.
pub const STATUS_REGISTER: u32 = 12;

/// A 16-bit immediate, sign-extended to 32 bits. Only the low 16 bits of
/// `imm` count.
pub open spec fn sign_extend16(imm: u32) -> u32 {
    if imm % 0x1_0000 >= 0x8000 {
        (imm % 0x1_0000 + 0xffff_0000) as u32
    } else {
        imm % 0x1_0000
    }
}

/// A register value read as a signed number in two's complement.
pub open spec fn signed(value: u32) -> int {
    if value >= 0x8000_0000 {
        value - 0x1_0000_0000
    } else {
        value as int
    }
}

/// The sum of two register values modulo 2^32.
pub open spec fn wrapping_sum(a: u32, b: u32) -> u32 {
    ((a + b) % 0x1_0000_0000) as u32
}

/// Whether the sum of two register values, read as signed numbers, falls
/// outside the signed 32-bit range.
pub open spec fn signed_sum_overflows(a: u32, b: u32) -> bool {
    signed(a) + signed(b) < -0x8000_0000 || signed(a) + signed(b) > 0x7fff_ffff
}

impl CpuView {
    /// Whether the state is valid: thirty-two registers of which the first
    /// holds zero, and a bus whose buffers have their sizes.
    pub open spec fn wf(self) -> bool {
        &&& self.gpr.len() == 32
        &&& self.gpr[0] == 0
        &&& self.memory.wf()
    }

    /// The state after reset: execution starts at the reset vector, every
    /// register and the status register hold zero, the delay slot holds a
    /// `nop`, the bus is blank and nothing was emitted.
    pub open spec fn reset() -> CpuView {
        CpuView {
            pc: RESET_VECTOR,
            memory: MemoryView::blank(),
            gpr: Seq::new(32, |i: int| 0u32),
            branch_delay_slot: 0,
            sr: 0,
            output: Seq::empty(),
        }
    }

    /// The value of a register.
    pub open spec fn reg(self, index: u32) -> u32 {
        self.gpr[index as int]
    }

    /// The state with `value` written to a register. Register 0 holds zero
    /// whatever is written to it.
    pub open spec fn set_reg(self, index: u32, value: u32) -> CpuView {
        CpuView { gpr: self.gpr.update(index as int, value).update(0, 0), ..self }
    }

    /// The outcome of an instruction that went well and left this state.
    pub open spec fn done(self) -> Outcome {
        (self, Ok(()))
    }

    /// The outcome of an instruction that failed and left this state.
    pub open spec fn failed(self, kind: ErrorKind) -> Outcome {
        (self, Err(GenericError { kind }))
    }

    /// The state with one more entry emitted.
    pub open spec fn emit(self, entry: Output) -> CpuView {
        CpuView { output: self.output.push(entry), ..self }
    }

    /// The state with a line of trace emitted, when tracing is on.
    pub open spec fn trace(self, print: bool, line: TraceLine) -> CpuView {
        if print {
            self.emit(Output::Trace(line))
        } else {
            self
        }
    }

    /// The address of the instruction that is being executed: the program
    /// counter was advanced past it when it was fetched.
    pub open spec fn fetched_at(self) -> u32 {
        ((self.pc - 4) % 0x1_0000_0000) as u32
    }

    /// The error of an instruction that cannot be executed: unknown where
    /// the word decodes to nothing, unimplemented where the operation has
    /// no handler.
    pub open spec fn instruction_error(
        self,
        op: OpType,
        instruction: u32,
        unknown: bool,
    ) -> GenericError {
        if unknown {
            GenericError {
                kind: ErrorKind::UnknownInstruction { raw: instruction, pc: self.fetched_at() },
            }
        } else {
            GenericError {
                kind: ErrorKind::UnimplementedInstruction {
                    op,
                    raw: instruction,
                    pc: self.fetched_at(),
                },
            }
        }
    }

    /// What executing an instruction does: the state after it, and its
    /// result. The word is decoded and the operation dispatched to its
    /// handler. An operation without a handler fails as unimplemented, a
    /// word that decodes to nothing as unknown; both leave the state as it
    /// was.
    pub open spec fn execute(self, instruction: u32, print: bool) -> Outcome
        decreases self.nesting(DecodedInstruction::decode(instruction)),
    {
        let decoded = DecodedInstruction::decode(instruction);
        let unimplemented = (
            self,
            Err::<(), GenericError>(self.instruction_error(decoded.op_type(), instruction, false)),
        );
        match decoded {
            DecodedInstruction::R { op, rs, rt, rd, shamt } => match op {
                ROpType::Nop => self.nop(print),
                ROpType::Or => self.or(rs, rt, rd, print),
                ROpType::Sll => self.sll(rt, rd, shamt, print),
                ROpType::Srl => self.srl(rt, rd, shamt, print),
                _ => unimplemented,
            },
            DecodedInstruction::I { op, rs, rt, imm } => match op {
                IOpType::Addi => self.addi(rt, rs, imm, print),
                IOpType::Addiu => self.addiu(rt, rs, imm, print),
                IOpType::Bne => self.bne(rs, rt, imm, print),
                IOpType::Lui => self.lui(rt, imm, print),
                IOpType::Ori => self.ori(rt, rs, imm, print),
                IOpType::Sw => self.sw(rs, rt, imm, print),
                _ => unimplemented,
            },
            DecodedInstruction::J { op, addr } => match op {
                JOpType::J => self.j(addr, print),
                JOpType::Jal => unimplemented,
            },
            DecodedInstruction::F { op, rt, rs, rd } => match op {
                FOpType::Mtc0 => self.mtc0(rt, rs, print),
                _ => unimplemented,
            },
            DecodedInstruction::E { op, raw } => (
                self,
                Err(self.instruction_error(OpType::E(op), raw, true)),
            ),
        }
    }

    /// What one step of the fetch-execute cycle does. The instruction is
    /// loaded from the program counter, the program counter advances by
    /// four, the word that follows is latched as the delay slot, and the
    /// instruction is executed. A load that fails ends the step with its
    /// error, after whatever went before it.
    pub open spec fn step(self, print: bool) -> Outcome {
        match self.memory.load32(self.pc) {
            Err(error) => (self, Err(error)),
            Ok(instruction) => {
                let advanced = CpuView { pc: wrapping_sum(self.pc, 4), ..self };
                match advanced.memory.load32(advanced.pc) {
                    Err(error) => (advanced, Err(error)),
                    Ok(slot) => CpuView { branch_delay_slot: slot, ..advanced }.execute(
                        instruction,
                        print,
                    ),
                }
            },
        }
    }

    /// Whether the cache is isolated, so that stores do not reach the bus.
    pub open spec fn cache_isolated(self) -> bool {
        self.sr & ISOLATE_CACHE != 0
    }

    /// What a store by an instruction does. While the cache is isolated the
    /// store is dropped and a soft error is emitted in its place; otherwise
    /// the word goes to the bus, whose error, if any, is the result.
    pub open spec fn store32(self, address: u32, word: u32) -> Outcome {
        if self.cache_isolated() {
            self.emit(
                Output::SoftError(
                    GenericError { kind: ErrorKind::IsolatedCacheWrite { pc: self.fetched_at() } },
                ),
            ).done()
        } else {
            let (memory, stored) = self.memory.store32(address, word);
            (CpuView { memory, ..self }, stored)
        }
    }
}

impl Cpu {
    /// Whether the state is valid: register 0 holds zero and the buffers of
    /// the bus have their sizes.
    pub open spec fn wf(&self) -> bool {
        self@.wf()
    }

    /// A CPU in its reset state, with a blank bus.
    pub fn new() -> (cpu: Self)
        ensures
            cpu@ == CpuView::reset(),
            cpu.wf(),
    {
        let cpu = Self {
            pc: RESET_VECTOR,
            memory: Memory::new(),
            gpr: [0;32],
            branch_delay_slot: 0x00000000,  // nop
            sr: 0x00000000,
            output: Vec::new(),
        };
        assert(cpu.gpr@ =~= Seq::new(32, |i: int| 0u32));
        cpu
    }

    /// One step of the fetch-execute cycle.
    pub fn run_next_instruction(&mut self, print: bool) -> (done: Result<(), GenericError>)
        requires
            old(self).memory.wf(),
            old(self)@.memory.readable(old(self).pc),
            old(self)@.memory.readable(wrapping_sum(old(self).pc, 4)),
        ensures
            (final(self)@, done) == old(self)@.step(print),
            keeps_validity(old(self)@, final(self)@),
    {
        proof {
            lemma_step_keeps_validity(self@, print);
        }
        let pc = self.pc;
        let instruction = match self.load32(pc) {
            Ok(word) => word,
            Err(error) => {
                return Err(error);
            },
        };

        self.pc = pc.wrapping_add(4);

        self.branch_delay_slot = match self.load32(self.pc) {
            Ok(word) => word,
            Err(error) => {
                return Err(error);
            },
        };

        self.decode_and_execute(instruction, print)
    }

    /// Decodes an instruction and executes it.
    pub fn decode_and_execute(&mut self, instruction: u32, print: bool) -> (done: Result<
        (),
        GenericError,
    >)
        requires
            old(self).memory.wf(),
        ensures
            (final(self)@, done) == old(self)@.execute(instruction, print),
            keeps_validity(old(self)@, final(self)@),
        decreases old(self)@.nesting(DecodedInstruction::decode(instruction)),
    {
        proof {
            lemma_decode_in_range(instruction);
            lemma_execute_keeps_validity(self@, instruction, print);
        }
        let decoded_instruction = DecodedInstruction::from(instruction);

        match decoded_instruction {
            DecodedInstruction::R { op, rs, rt, rd, shamt } => match op {
                ROpType::Add => self.instruction_error(OpType::R(op), instruction, false),
                ROpType::Addu => self.instruction_error(OpType::R(op), instruction, false),
                ROpType::And => self.instruction_error(OpType::R(op), instruction, false),
                ROpType::Brk => self.instruction_error(OpType::R(op), instruction, false),
                ROpType::Div => self.instruction_error(OpType::R(op), instruction, false),
                ROpType::Jalr => self.instruction_error(OpType::R(op), instruction, false),
                ROpType::Jr => self.instruction_error(OpType::R(op), instruction, false),
                ROpType::Mfhi => self.instruction_error(OpType::R(op), instruction, false),
                ROpType::Mflo => self.instruction_error(OpType::R(op), instruction, false),
                ROpType::Mult => self.instruction_error(OpType::R(op), instruction, false),
                ROpType::Nop => self.nop(print),
                ROpType::Nor => self.instruction_error(OpType::R(op), instruction, false),
                ROpType::Or => self.or(rs, rt, rd, print),
                ROpType::Sll => self.sll(rt, rd, shamt, print),
                ROpType::Slt => self.instruction_error(OpType::R(op), instruction, false),
                ROpType::Sltu => self.instruction_error(OpType::R(op), instruction, false),
                ROpType::Srl => self.srl(rt, rd, shamt, print),
                ROpType::Sub => self.instruction_error(OpType::R(op), instruction, false),
                ROpType::Subu => self.instruction_error(OpType::R(op), instruction, false),
                ROpType::Syscall => self.instruction_error(OpType::R(op), instruction, false),
                ROpType::Xor => self.instruction_error(OpType::R(op), instruction, false),
            },
            DecodedInstruction::I { op, rs, rt, imm } => match op {
                IOpType::Addi => self.addi(rt, rs, imm, print),
                IOpType::Addiu => self.addiu(rt, rs, imm, print),
                IOpType::Andi => self.instruction_error(OpType::I(op), instruction, false),
                IOpType::Beq => self.instruction_error(OpType::I(op), instruction, false),
                IOpType::Blez => self.instruction_error(OpType::I(op), instruction, false),
                IOpType::Bne => self.bne(rs, rt, imm, print),
                IOpType::Lb => self.instruction_error(OpType::I(op), instruction, false),
                IOpType::Lbu => self.instruction_error(OpType::I(op), instruction, false),
                IOpType::Ldc1 => self.instruction_error(OpType::I(op), instruction, false),
                IOpType::Lh => self.instruction_error(OpType::I(op), instruction, false),
                IOpType::Lhu => self.instruction_error(OpType::I(op), instruction, false),
                IOpType::Lui => self.lui(rt, imm, print),
                IOpType::Lw => self.instruction_error(OpType::I(op), instruction, false),
                IOpType::Lwc1 => self.instruction_error(OpType::I(op), instruction, false),
                IOpType::Ori => self.ori(rt, rs, imm, print),
                IOpType::Sb => self.instruction_error(OpType::I(op), instruction, false),
                IOpType::Sh => self.instruction_error(OpType::I(op), instruction, false),
                IOpType::Slti => self.instruction_error(OpType::I(op), instruction, false),
                IOpType::Sltiu => self.instruction_error(OpType::I(op), instruction, false),
                IOpType::Sw => self.sw(rs, rt, imm, print),
            },
            DecodedInstruction::J { op, addr } => match op {
                JOpType::J => self.j(addr, print),
                JOpType::Jal => self.instruction_error(OpType::J(op), instruction, false),
            },
            DecodedInstruction::F { op, rt, rs, rd } => match op {
                FOpType::Addd => self.instruction_error(OpType::F(op), instruction, false),
                FOpType::Adds => self.instruction_error(OpType::F(op), instruction, false),
                FOpType::Cvtdw => self.instruction_error(OpType::F(op), instruction, false),
                FOpType::Cvtsd => self.instruction_error(OpType::F(op), instruction, false),
                FOpType::Divd => self.instruction_error(OpType::F(op), instruction, false),
                FOpType::Divs => self.instruction_error(OpType::F(op), instruction, false),
                FOpType::Mfc1 => self.instruction_error(OpType::F(op), instruction, false),
                FOpType::Movd => self.instruction_error(OpType::F(op), instruction, false),
                FOpType::Movs => self.instruction_error(OpType::F(op), instruction, false),
                FOpType::Mtc0 => self.mtc0(rt, rs, print),
                FOpType::Mtc1 => self.instruction_error(OpType::F(op), instruction, false),
                FOpType::Muld => self.instruction_error(OpType::F(op), instruction, false),
                FOpType::Muls => self.instruction_error(OpType::F(op), instruction, false),
            },
            DecodedInstruction::E { op, raw } => match op {
                EOpType::Unknown => self.instruction_error(OpType::E(op), raw, true),
            },
        }
    }

    /// The error of an instruction that cannot be executed.
    pub fn instruction_error(&self, op: OpType, instruction: u32, unknown: bool) -> (failed: Result<
        (),
        GenericError,
    >)
        ensures
            failed == Err::<(), GenericError>(self@.instruction_error(op, instruction, unknown)),
    {
        let pc = self.pc.wrapping_sub(4);
        Err(
            GenericError {
                kind: if unknown {
                    ErrorKind::UnknownInstruction { raw: instruction, pc }
                } else {
                    ErrorKind::UnimplementedInstruction { op, raw: instruction, pc }
                },
            },
        )
    }

    /// Loads a word from the bus.
    pub fn load32(&self, address: u32) -> (loaded: Result<u32, GenericError>)
        requires
            self.memory.wf(),
            self@.memory.readable(address),
        ensures
            loaded == self@.memory.load32(address),
    {
        self.memory.load32(address)
    }

    /// Stores a word on behalf of an instruction. While the cache is
    /// isolated the store is dropped, a soft error is emitted for the host
    /// to log, and the result is `Ok`.
    pub fn store32(&mut self, address: u32, word: u32) -> (stored: Result<(), GenericError>)
        requires
            old(self).memory.wf(),
        ensures
            (final(self)@, stored) == old(self)@.store32(address, word),
            keeps_validity(old(self)@, final(self)@),
    {
        if self.sr & ISOLATE_CACHE != 0 {
            let pc = self.pc.wrapping_sub(4);
            self.output.push(
                Output::SoftError(GenericError { kind: ErrorKind::IsolatedCacheWrite { pc } }),
            );
            Ok(())
        } else {
            self.memory.store32(address, word)
        }
    }

    /// Installs a BIOS image in the bus.
    pub fn load_bios(&mut self, bios: Bios)
        ensures
            final(self)@ == (CpuView {
                memory: old(self)@.memory.with_bank(MemoryRegionType::BIOS, bios.data@),
                ..old(self)@
            }),
            final(self).memory.bios == bios,
    {
        self.memory.load_bios(bios);
    }

    /// The value of a register.
    pub fn reg(&self, index: u32) -> (value: u32)
        requires
            index < 32,
        ensures
            value == self@.reg(index),
    {
        self.gpr[index as usize]
    }

    /// Writes a register. Whatever is written, register 0 holds zero
    /// afterwards.
    pub fn set_reg(&mut self, index: u32, value: u32)
        requires
            index < 32,
        ensures
            final(self)@ == old(self)@.set_reg(index, value),
            final(self).gpr[0] == 0,
    {
        self.gpr[index as usize] = value;
        self.gpr[0] = 0;  // $0 is always zero
    }

    /// Hands the emitted entries to the host, oldest first, and starts anew
    /// with none.
    pub fn take_output(&mut self) -> (taken: Vec<Output>)
        ensures
            taken@ == old(self)@.output,
            final(self)@ == (CpuView { output: Seq::empty(), ..old(self)@ }),
    {
        let mut taken = Vec::new();
        std::mem::swap(&mut taken, &mut self.output);
        taken
    }
}

} // verus!
