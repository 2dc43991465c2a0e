//! What every instruction keeps: register 0 at zero, the buffers of the bus
//! at their sizes, the BIOS image and the delay slot as they are, and what
//! was emitted before.

use vstd::prelude::*;
use crate::cpu::{sign_extend16, wrapping_sum, CpuView};
use crate::decoded_instruction::{lemma_decode_in_range, DecodedInstruction, IOpType, JOpType};
use crate::memory::lemma_store_keeps_shape;
use crate::trace::TraceLine;

verus! {

/// What no instruction takes away from a state: the number of registers,
/// the zero in register 0, the sizes of the buffers of the bus, the BIOS
/// image, and what was emitted.
pub open spec fn keeps_validity(before: CpuView, after: CpuView) -> bool {
    &&& after.gpr.len() == before.gpr.len()
    &&& before.gpr[0] == 0 ==> after.gpr[0] == 0
    &&& after.memory.wf()
    &&& after.memory.bios == before.memory.bios
    &&& before.output.is_prefix_of(after.output)
}

/// After a write to any register, register 0 holds zero; a write to
/// another register is read back, and no third register changes.
pub proof fn lemma_set_reg_keeps_zero(state: CpuView, index: u32, value: u32)
    requires
        state.gpr.len() == 32,
        index < 32,
    ensures
        state.set_reg(index, value).gpr.len() == 32,
        state.set_reg(index, value).reg(0) == 0,
        index != 0 ==> state.set_reg(index, value).reg(index) == value,
        forall|other: u32|
            0 < other < 32 && other != index ==> state.set_reg(index, value).reg(other)
                == state.reg(other),
{
}

/// A store by an instruction keeps the validity of the state, and changes
/// neither a register nor the program counter.
pub proof fn lemma_store_keeps_validity(state: CpuView, address: u32, word: u32)
    requires
        state.memory.wf(),
    ensures
        ({
            let (after, _) = state.store32(address, word);
            &&& keeps_validity(state, after)
            &&& after.gpr == state.gpr
            &&& after.pc == state.pc
            &&& after.sr == state.sr
            &&& after.branch_delay_slot == state.branch_delay_slot
        }),
{
    lemma_store_keeps_shape(state.memory, address, word);
}

/// Executing an instruction keeps the validity of the state. An
/// instruction that does not transfer control leaves the program counter
/// as it is, and so does one that fails.
pub proof fn lemma_execute_keeps_validity(state: CpuView, instruction: u32, print: bool)
    requires
        state.memory.wf(),
        state.gpr.len() == 32,
    ensures
        ({
            let (after, done) = state.execute(instruction, print);
            &&& keeps_validity(state, after)
            &&& after.branch_delay_slot == state.branch_delay_slot
            &&& !state.transfers_control(DecodedInstruction::decode(instruction)) || done is Err
                ==> after.pc == state.pc
        }),
    decreases state.nesting(DecodedInstruction::decode(instruction)),
{
    lemma_decode_in_range(instruction);
    let decoded = DecodedInstruction::decode(instruction);
    match decoded {
        DecodedInstruction::I { op: IOpType::Sw, rs, rt, imm } => {
            lemma_store_keeps_validity(
                state,
                wrapping_sum(state.reg(rs), sign_extend16(imm)),
                state.reg(rt),
            );
        },
        DecodedInstruction::I { op: IOpType::Bne, rs, rt, imm } => {
            if state.reg(rs) != state.reg(rt) {
                lemma_delay_slot_keeps_validity(
                    state.trace(print, TraceLine::Bne { rs, rt, imm }),
                    print,
                );
            }
        },
        DecodedInstruction::J { op: JOpType::J, addr } => {
            lemma_delay_slot_keeps_validity(state.trace(print, TraceLine::J { addr }), print);
        },
        _ => {},
    }
}

/// Executing the delay slot keeps the validity of the state and leaves the
/// program counter as it is.
pub proof fn lemma_delay_slot_keeps_validity(state: CpuView, print: bool)
    requires
        state.memory.wf(),
        state.gpr.len() == 32,
    ensures
        ({
            let (after, _) = state.delay_slot(print);
            &&& keeps_validity(state, after)
            &&& after.branch_delay_slot == state.branch_delay_slot
            &&& after.pc == state.pc
        }),
    decreases 2nat,
{
    if !state.transfers_control(DecodedInstruction::decode(state.branch_delay_slot)) {
        lemma_execute_keeps_validity(state, state.branch_delay_slot, print);
    }
}

/// A step of the fetch-execute cycle keeps the validity of the state.
pub proof fn lemma_step_keeps_validity(state: CpuView, print: bool)
    requires
        state.memory.wf(),
        state.gpr.len() == 32,
    ensures
        keeps_validity(state, state.step(print).0),
{
    if let Ok(instruction) = state.memory.load32(state.pc) {
        let advanced = CpuView { pc: wrapping_sum(state.pc, 4), ..state };
        if let Ok(slot) = advanced.memory.load32(advanced.pc) {
            lemma_execute_keeps_validity(
                CpuView { branch_delay_slot: slot, ..advanced },
                instruction,
                print,
            );
        }
    }
}

} // verus!
