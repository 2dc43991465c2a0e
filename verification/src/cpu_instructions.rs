//! The handlers of the implemented instructions.
//!
//! A branch or jump does not take effect at once: its handler first
//! executes the instruction in the delay slot and only then, if that went
//! well, moves the program counter.

use vstd::prelude::*;
use crate::cpu::{
    sign_extend16,
    signed_sum_overflows,
    wrapping_sum,
    Cpu,
    CpuView,
    Outcome,
    STATUS_REGISTER,
};
use crate::decoded_instruction::{lemma_decode_in_range, DecodedInstruction, IOpType, JOpType};
use crate::generic_error::{ErrorKind, GenericError};
use crate::invariants::keeps_validity;
use crate::trace::{Output, TraceLine};

verus! {

impl CpuView {
    /// `nop`: nothing but the trace.
    pub open spec fn nop(self, print: bool) -> Outcome {
        self.trace(print, TraceLine::Nop).done()
    }

    /// `lui rt, imm`: `rt` takes `imm << 16`.
    pub open spec fn lui(self, rt: u32, imm: u32, print: bool) -> Outcome {
        self.set_reg(rt, imm << 16).trace(print, TraceLine::Lui { rt, imm }).done()
    }

    /// `ori rt, rs, imm`: `rt` takes `rs | imm`, the immediate
    /// zero-extended.
    pub open spec fn ori(self, rt: u32, rs: u32, imm: u32, print: bool) -> Outcome {
        self.set_reg(rt, self.reg(rs) | imm).trace(print, TraceLine::Ori { rt, rs, imm }).done()
    }

    /// `or rd, rs, rt`: `rd` takes `rs | rt`.
    pub open spec fn or(self, rs: u32, rt: u32, rd: u32, print: bool) -> Outcome {
        self.set_reg(rd, self.reg(rs) | self.reg(rt)).trace(
            print,
            TraceLine::Or { rd, rs, rt },
        ).done()
    }

    /// `sll rd, rt, shamt`: `rd` takes `rt << shamt`.
    pub open spec fn sll(self, rt: u32, rd: u32, shamt: u32, print: bool) -> Outcome {
        self.set_reg(rd, self.reg(rt) << shamt).trace(
            print,
            TraceLine::Sll { rd, rt, shamt },
        ).done()
    }

    /// `srl rd, rt, shamt`: `rd` takes `rt >> shamt`, zeros shifted in.
    pub open spec fn srl(self, rt: u32, rd: u32, shamt: u32, print: bool) -> Outcome {
        self.set_reg(rd, self.reg(rt) >> shamt).trace(
            print,
            TraceLine::Srl { rd, rt, shamt },
        ).done()
    }

    /// `addiu rt, rs, imm`: `rt` takes `rs` plus the sign-extended
    /// immediate, modulo 2^32. It never traps.
    pub open spec fn addiu(self, rt: u32, rs: u32, imm: u32, print: bool) -> Outcome {
        self.set_reg(rt, wrapping_sum(self.reg(rs), sign_extend16(imm))).trace(
            print,
            TraceLine::Addiu { rt, rs, imm },
        ).done()
    }

    /// `addi rt, rs, imm`: as `addiu`, but where the signed sum does not
    /// fit in 32 bits the instruction traps and changes nothing.
    pub open spec fn addi(self, rt: u32, rs: u32, imm: u32, print: bool) -> Outcome {
        if signed_sum_overflows(self.reg(rs), sign_extend16(imm)) {
            self.failed(ErrorKind::ArithmeticOverflow)
        } else {
            self.set_reg(rt, wrapping_sum(self.reg(rs), sign_extend16(imm))).trace(
                print,
                TraceLine::Addi { rt, rs, imm },
            ).done()
        }
    }

    /// `sw rt, imm(rs)`: the value of `rt` is stored at `rs` plus the
    /// sign-extended immediate. An error of the bus is the result, and then
    /// no line is traced.
    pub open spec fn sw(self, rs: u32, rt: u32, imm: u32, print: bool) -> Outcome {
        let (after, stored) = self.store32(
            wrapping_sum(self.reg(rs), sign_extend16(imm)),
            self.reg(rt),
        );
        match stored {
            Ok(_) => after.trace(print, TraceLine::Sw { rt, imm, rs }).done(),
            Err(error) => (after, Err(error)),
        }
    }

    /// `mtc0 rt, rs`: the status register takes the value of `rt`. `rs` is
    /// the index of the coprocessor register; any other than the status
    /// register is refused.
    pub open spec fn mtc0(self, rt: u32, rs: u32, print: bool) -> Outcome {
        if rs == STATUS_REGISTER {
            CpuView { sr: self.reg(rt), ..self }.trace(print, TraceLine::Mtc0 { rt, rs }).done()
        } else {
            self.failed(ErrorKind::UnhandledCop0Register { index: rs })
        }
    }

    /// Whether an instruction, executed in this state, would transfer
    /// control: a jump, or a branch whose condition holds.
    pub open spec fn transfers_control(self, decoded: DecodedInstruction) -> bool {
        match decoded {
            DecodedInstruction::J { op: JOpType::J, .. } => true,
            DecodedInstruction::I { op: IOpType::Bne, rs, rt, .. } => self.reg(rs) != self.reg(rt),
            _ => false,
        }
    }

    /// How many delay slots deep the execution of an instruction reaches:
    /// the measure by which executing comes to an end.
    pub open spec fn nesting(self, decoded: DecodedInstruction) -> nat {
        if self.transfers_control(decoded) {
            5
        } else if decoded matches DecodedInstruction::I { op: IOpType::Bne, .. } {
            1
        } else {
            0
        }
    }

    /// The execution of the instruction in the delay slot. It is executed
    /// as any other, with the program counter and the slot left as they
    /// are; but an instruction that would itself transfer control is
    /// refused, since its own delay slot would be this one again.
    pub open spec fn delay_slot(self, print: bool) -> Outcome
        decreases 2nat,
    {
        if self.transfers_control(DecodedInstruction::decode(self.branch_delay_slot)) {
            self.failed(
                ErrorKind::DelaySlotBranch { raw: self.branch_delay_slot, pc: self.fetched_at() },
            )
        } else {
            self.execute(self.branch_delay_slot, print)
        }
    }

    /// A branch relative to the program counter: the delay slot is
    /// executed, and if that went well the program counter moves by the
    /// sign-extended offset, counted in words.
    pub open spec fn relative_branch(self, offset: u32, print: bool) -> Outcome
        decreases 3nat,
    {
        let (after, slot) = self.delay_slot(print);
        match slot {
            Ok(_) => CpuView {
                pc: wrapping_sum(after.pc, sign_extend16(offset) << 2),
                ..after
            }.done(),
            Err(error) => (after, Err(error)),
        }
    }

    /// `bne rs, rt, imm`: branches where `rs` and `rt` differ.
    pub open spec fn bne(self, rs: u32, rt: u32, imm: u32, print: bool) -> Outcome
        decreases (if self.reg(rs) != self.reg(rt) {
            4nat
        } else {
            0nat
        }),
    {
        let traced = self.trace(print, TraceLine::Bne { rs, rt, imm });
        if self.reg(rs) != self.reg(rt) {
            traced.relative_branch(imm, print)
        } else {
            traced.done()
        }
    }

    /// `j addr`: the delay slot is executed, and if that went well the
    /// program counter keeps its four high bits and takes the target,
    /// counted in words, below them.
    pub open spec fn j(self, addr: u32, print: bool) -> Outcome
        decreases 4nat,
    {
        let (after, slot) = self.trace(print, TraceLine::J { addr }).delay_slot(print);
        match slot {
            Ok(_) => CpuView { pc: (after.pc & 0xf000_0000) | (addr << 2), ..after }.done(),
            Err(error) => (after, Err(error)),
        }
    }
}

/// Sign-extends a 16-bit immediate to 32 bits.
pub fn sign_extend(imm: u32) -> (extended: u32)
    ensures
        extended == sign_extend16(imm),
{
    let low = imm % 0x1_0000;
    if low >= 0x8000 {
        low + 0xffff_0000
    } else {
        low
    }
}

impl Cpu {
    /// Emits a line of trace when tracing is on.
    fn trace(&mut self, print: bool, line: TraceLine)
        ensures
            final(self)@ == old(self)@.trace(print, line),
    {
        if print {
            self.output.push(Output::Trace(line));
        }
    }

    /// `lui rt, imm`: loads the immediate into the upper half of `rt`.
    pub fn lui(&mut self, rt: u32, imm: u32, print: bool) -> (done: Result<(), GenericError>)
        requires
            rt < 32,
        ensures
            (final(self)@, done) == old(self)@.lui(rt, imm, print),
    {
        self.set_reg(rt, imm << 16);
        self.trace(print, TraceLine::Lui { rt, imm });
        Ok(())
    }

    /// `ori rt, rs, imm`: bitwise or of `rs` and the zero-extended immediate.
    pub fn ori(&mut self, rt: u32, rs: u32, imm: u32, print: bool) -> (done: Result<
        (),
        GenericError,
    >)
        requires
            rt < 32,
            rs < 32,
        ensures
            (final(self)@, done) == old(self)@.ori(rt, rs, imm, print),
    {
        let value = self.reg(rs) | imm;
        self.set_reg(rt, value);
        self.trace(print, TraceLine::Ori { rt, rs, imm });
        Ok(())
    }

    /// `sw rt, imm(rs)`: stores `rt` at `rs` plus the sign-extended immediate.
    /// While the cache is isolated the store is dropped and a soft error
    /// emitted; an error of the bus is returned.
    pub fn sw(&mut self, rs: u32, rt: u32, imm: u32, print: bool) -> (done: Result<
        (),
        GenericError,
    >)
        requires
            rs < 32,
            rt < 32,
            old(self).memory.wf(),
        ensures
            (final(self)@, done) == old(self)@.sw(rs, rt, imm, print),
            keeps_validity(old(self)@, final(self)@),
    {
        let base = self.reg(rs);
        let value = self.reg(rt);
        let target = base.wrapping_add(sign_extend(imm));

        match self.store32(target, value) {
            Ok(_) => {},
            Err(error) => {
                return Err(error);
            },
        }
        self.trace(print, TraceLine::Sw { rt, imm, rs });
        Ok(())
    }

    /// `nop`: does nothing.
    pub fn nop(&mut self, print: bool) -> (done: Result<(), GenericError>)
        ensures
            (final(self)@, done) == old(self)@.nop(print),
    {
        self.trace(print, TraceLine::Nop);
        Ok(())
    }

    /// `addiu rt, rs, imm`: adds the sign-extended immediate to `rs`, modulo
    /// 2^32.
    pub fn addiu(&mut self, rt: u32, rs: u32, imm: u32, print: bool) -> (done: Result<
        (),
        GenericError,
    >)
        requires
            rt < 32,
            rs < 32,
        ensures
            (final(self)@, done) == old(self)@.addiu(rt, rs, imm, print),
    {
        let value = self.reg(rs).wrapping_add(sign_extend(imm));
        self.set_reg(rt, value);
        self.trace(print, TraceLine::Addiu { rt, rs, imm });
        Ok(())
    }

    /// `sll rd, rt, shamt`: shifts `rt` left.
    pub fn sll(&mut self, rt: u32, rd: u32, shamt: u32, print: bool) -> (done: Result<
        (),
        GenericError,
    >)
        requires
            rt < 32,
            rd < 32,
            shamt < 32,
        ensures
            (final(self)@, done) == old(self)@.sll(rt, rd, shamt, print),
    {
        let value = self.reg(rt) << shamt;
        self.set_reg(rd, value);
        self.trace(print, TraceLine::Sll { rd, rt, shamt });
        Ok(())
    }

    /// `srl rd, rt, shamt`: shifts `rt` right, zeros shifted in.
    pub fn srl(&mut self, rt: u32, rd: u32, shamt: u32, print: bool) -> (done: Result<
        (),
        GenericError,
    >)
        requires
            rt < 32,
            rd < 32,
            shamt < 32,
        ensures
            (final(self)@, done) == old(self)@.srl(rt, rd, shamt, print),
    {
        let value = self.reg(rt) >> shamt;
        self.set_reg(rd, value);
        self.trace(print, TraceLine::Srl { rd, rt, shamt });
        Ok(())
    }

    /// Whether an instruction, executed now, would transfer control.
    fn transfers_control(&self, decoded: DecodedInstruction) -> (transfers: bool)
        requires
            decoded.in_range(),
        ensures
            transfers == self@.transfers_control(decoded),
    {
        match decoded {
            DecodedInstruction::J { op: JOpType::J, .. } => true,
            DecodedInstruction::I { op: IOpType::Bne, rs, rt, .. } => self.reg(rs) != self.reg(rt),
            _ => false,
        }
    }

    /// Executes the instruction in the delay slot.
    fn delay_slot(&mut self, print: bool) -> (done: Result<(), GenericError>)
        requires
            old(self).memory.wf(),
        ensures
            (final(self)@, done) == old(self)@.delay_slot(print),
            keeps_validity(old(self)@, final(self)@),
        decreases 2nat,
    {
        let slot = self.branch_delay_slot;
        proof {
            lemma_decode_in_range(slot);
        }
        if self.transfers_control(DecodedInstruction::from(slot)) {
            let pc = self.pc.wrapping_sub(4);
            return Err(GenericError { kind: ErrorKind::DelaySlotBranch { raw: slot, pc } });
        }
        self.decode_and_execute(slot, print)
    }

    /// `j addr`: executes the delay slot, then jumps. Where the slot fails,
    /// the jump is not made and the error of the slot is returned.
    pub fn j(&mut self, addr: u32, print: bool) -> (done: Result<(), GenericError>)
        requires
            old(self).memory.wf(),
        ensures
            (final(self)@, done) == old(self)@.j(addr, print),
            keeps_validity(old(self)@, final(self)@),
        decreases 4nat,
    {
        self.trace(print, TraceLine::J { addr });

        // Execute instruction at the branch delay slot
        let result = self.delay_slot(print);

        match result {
            Err(error) => Err(error),
            Ok(_) => {
                self.pc = (self.pc & 0xf0000000) | (addr << 2);
                Ok(())
            },
        }
    }

    /// `or rd, rs, rt`: bitwise or of `rs` and `rt`.
    pub fn or(&mut self, rs: u32, rt: u32, rd: u32, print: bool) -> (done: Result<
        (),
        GenericError,
    >)
        requires
            rs < 32,
            rt < 32,
            rd < 32,
        ensures
            (final(self)@, done) == old(self)@.or(rs, rt, rd, print),
    {
        let value = self.reg(rs) | self.reg(rt);
        self.set_reg(rd, value);
        self.trace(print, TraceLine::Or { rd, rs, rt });
        Ok(())
    }

    /// `mtc0 rt, rs`: moves `rt` to the status register, the only register
    /// `rs` of the system coprocessor that is modelled.
    pub fn mtc0(&mut self, rt: u32, rs: u32, print: bool) -> (done: Result<(), GenericError>)
        requires
            rt < 32,
        ensures
            (final(self)@, done) == old(self)@.mtc0(rt, rs, print),
    {
        match rs {
            12 => {
                self.sr = self.reg(rt);
                self.trace(print, TraceLine::Mtc0 { rt, rs });
                Ok(())
            },
            _ => Err(GenericError { kind: ErrorKind::UnhandledCop0Register { index: rs } }),
        }
    }

    /// Executes the delay slot, then moves the program counter by the
    /// sign-extended offset, counted in words.
    fn relative_branch(&mut self, offset: u32, print: bool) -> (done: Result<(), GenericError>)
        requires
            old(self).memory.wf(),
        ensures
            (final(self)@, done) == old(self)@.relative_branch(offset, print),
            keeps_validity(old(self)@, final(self)@),
        decreases 3nat,
    {
        let result = self.delay_slot(print);

        match result {
            Err(error) => Err(error),
            Ok(_) => {
                self.pc = self.pc.wrapping_add(sign_extend(offset) << 2);
                Ok(())
            },
        }
    }

    /// `bne rs, rt, imm`: branches where `rs` and `rt` differ.
    pub fn bne(&mut self, rs: u32, rt: u32, imm: u32, print: bool) -> (done: Result<
        (),
        GenericError,
    >)
        requires
            rs < 32,
            rt < 32,
            old(self).memory.wf(),
        ensures
            (final(self)@, done) == old(self)@.bne(rs, rt, imm, print),
            keeps_validity(old(self)@, final(self)@),
        decreases (if old(self)@.reg(rs) != old(self)@.reg(rt) {
            4nat
        } else {
            0nat
        }),
    {
        self.trace(print, TraceLine::Bne { rs, rt, imm });

        if self.reg(rs) != self.reg(rt) {
            return self.relative_branch(imm, print);
        }
        Ok(())
    }

    /// `addi rt, rs, imm`: adds the sign-extended immediate to `rs`; traps,
    /// changing nothing, where the signed sum does not fit in 32 bits.
    pub fn addi(&mut self, rt: u32, rs: u32, imm: u32, print: bool) -> (done: Result<
        (),
        GenericError,
    >)
        requires
            rt < 32,
            rs < 32,
        ensures
            (final(self)@, done) == old(self)@.addi(rt, rs, imm, print),
    {
        let a = self.reg(rs);
        let b = sign_extend(imm);
        let signed_a: i64 = if a >= 0x8000_0000 {
            a as i64 - 0x1_0000_0000
        } else {
            a as i64
        };
        let signed_b: i64 = if b >= 0x8000_0000 {
            b as i64 - 0x1_0000_0000
        } else {
            b as i64
        };
        let sum: i64 = signed_a + signed_b;
        if sum < -0x8000_0000 || sum > 0x7fff_ffff {
            return Err(GenericError { kind: ErrorKind::ArithmeticOverflow });
        }
        self.set_reg(rt, a.wrapping_add(b));
        self.trace(print, TraceLine::Addi { rt, rs, imm });
        Ok(())
    }
}

} // verus!
