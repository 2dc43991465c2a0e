//! What the core hands to its host to be written out: a line of trace for
//! each instruction that was executed, and each soft error that was passed
//! over.

use vstd::prelude::*;
use vstd::string::*;
use crate::generic_error::GenericError;
use crate::text::{decimal_text, hex_text, push_decimal, push_hex};

verus! {

/// The disassembly of an executed instruction, with the operands that its
/// line shows.
#[derive(Clone, Copy, Debug, PartialEq, Eq, Structural)]
pub enum TraceLine {
    Nop,
    Lui { rt: u32, imm: u32 },
    Ori { rt: u32, rs: u32, imm: u32 },
    Or { rd: u32, rs: u32, rt: u32 },
    Sll { rd: u32, rt: u32, shamt: u32 },
    Srl { rd: u32, rt: u32, shamt: u32 },
    Addiu { rt: u32, rs: u32, imm: u32 },
    Addi { rt: u32, rs: u32, imm: u32 },
    Sw { rt: u32, imm: u32, rs: u32 },
    Bne { rs: u32, rt: u32, imm: u32 },
    J { addr: u32 },
    Mtc0 { rt: u32, rs: u32 },
}

/// One thing for the host to write out.
#[derive(Clone, Copy, Debug, PartialEq, Eq, Structural)]
pub enum Output {
    /// A line of trace, for the standard output.
    Trace(TraceLine),
    /// An error that was logged and passed over, for the standard error.
    SoftError(GenericError),
}

/// A register as an operand: a dollar sign and the index in decimal.
pub open spec fn register_text(index: u32) -> Seq<char> {
    "$"@ + decimal_text(index as nat)
}

/// A number as an operand: `0x` and the number in hexadecimal.
pub open spec fn number_text(value: u32) -> Seq<char> {
    "0x"@ + hex_text(value as nat)
}

/// Appends a register operand.
fn push_register(out: &mut String, index: u32)
    ensures
        final(out)@ == old(out)@ + register_text(index),
{
    out.append("$");
    push_decimal(out, index);
    assert(out@ =~= old(out)@ + register_text(index));
}

/// Appends a number operand.
fn push_number(out: &mut String, value: u32)
    ensures
        final(out)@ == old(out)@ + number_text(value),
{
    out.append("0x");
    push_hex(out, value);
    assert(out@ =~= old(out)@ + number_text(value));
}

impl TraceLine {
    /// The line in the canonical notation: the mnemonic in lower case, the
    /// registers as `$` and a decimal index, the numbers in hexadecimal.
    pub open spec fn text_spec(self) -> Seq<char> {
        match self {
            TraceLine::Nop => "nop"@,
            TraceLine::Lui { rt, imm } => "lui "@ + register_text(rt) + ", "@ + number_text(imm),
            TraceLine::Ori { rt, rs, imm } => "ori "@ + register_text(rt) + ", "@ + register_text(
                rs,
            ) + ", "@ + number_text(imm),
            TraceLine::Or { rd, rs, rt } => "or "@ + register_text(rd) + ", "@ + register_text(rs)
                + ", "@ + register_text(rt),
            TraceLine::Sll { rd, rt, shamt } => "sll "@ + register_text(rd) + ", "@
                + register_text(rt) + ", "@ + number_text(shamt),
            TraceLine::Srl { rd, rt, shamt } => "srl "@ + register_text(rd) + ", "@
                + register_text(rt) + ", "@ + number_text(shamt),
            TraceLine::Addiu { rt, rs, imm } => "addiu "@ + register_text(rt) + ", "@
                + register_text(rs) + ", "@ + number_text(imm),
            TraceLine::Addi { rt, rs, imm } => "addi "@ + register_text(rt) + ", "@
                + register_text(rs) + ", "@ + number_text(imm),
            TraceLine::Sw { rt, imm, rs } => "sw "@ + register_text(rt) + ", "@ + number_text(imm)
                + "("@ + register_text(rs) + ")"@,
            TraceLine::Bne { rs, rt, imm } => "bne "@ + register_text(rs) + ", "@ + register_text(
                rt,
            ) + ", "@ + number_text(imm),
            TraceLine::J { addr } => "j "@ + number_text(addr),
            TraceLine::Mtc0 { rt, rs } => "mtc0 "@ + register_text(rt) + ", "@ + register_text(rs),
        }
    }

    /// The line as text.
    pub fn text(&self) -> (line: String)
        ensures
            line@ == self.text_spec(),
    {
        match *self {
            TraceLine::Nop => String::from_str("nop"),
            TraceLine::Lui { rt, imm } => {
                let mut line = String::from_str("lui ");
                push_register(&mut line, rt);
                line.append(", ");
                push_number(&mut line, imm);
                line
            },
            TraceLine::Ori { rt, rs, imm } => {
                let mut line = String::from_str("ori ");
                push_register(&mut line, rt);
                line.append(", ");
                push_register(&mut line, rs);
                line.append(", ");
                push_number(&mut line, imm);
                line
            },
            TraceLine::Or { rd, rs, rt } => {
                let mut line = String::from_str("or ");
                push_register(&mut line, rd);
                line.append(", ");
                push_register(&mut line, rs);
                line.append(", ");
                push_register(&mut line, rt);
                line
            },
            TraceLine::Sll { rd, rt, shamt } => {
                let mut line = String::from_str("sll ");
                push_register(&mut line, rd);
                line.append(", ");
                push_register(&mut line, rt);
                line.append(", ");
                push_number(&mut line, shamt);
                line
            },
            TraceLine::Srl { rd, rt, shamt } => {
                let mut line = String::from_str("srl ");
                push_register(&mut line, rd);
                line.append(", ");
                push_register(&mut line, rt);
                line.append(", ");
                push_number(&mut line, shamt);
                line
            },
            TraceLine::Addiu { rt, rs, imm } => {
                let mut line = String::from_str("addiu ");
                push_register(&mut line, rt);
                line.append(", ");
                push_register(&mut line, rs);
                line.append(", ");
                push_number(&mut line, imm);
                line
            },
            TraceLine::Addi { rt, rs, imm } => {
                let mut line = String::from_str("addi ");
                push_register(&mut line, rt);
                line.append(", ");
                push_register(&mut line, rs);
                line.append(", ");
                push_number(&mut line, imm);
                line
            },
            TraceLine::Sw { rt, imm, rs } => {
                let mut line = String::from_str("sw ");
                push_register(&mut line, rt);
                line.append(", ");
                push_number(&mut line, imm);
                line.append("(");
                push_register(&mut line, rs);
                line.append(")");
                line
            },
            TraceLine::Bne { rs, rt, imm } => {
                let mut line = String::from_str("bne ");
                push_register(&mut line, rs);
                line.append(", ");
                push_register(&mut line, rt);
                line.append(", ");
                push_number(&mut line, imm);
                line
            },
            TraceLine::J { addr } => {
                let mut line = String::from_str("j ");
                push_number(&mut line, addr);
                line
            },
            TraceLine::Mtc0 { rt, rs } => {
                let mut line = String::from_str("mtc0 ");
                push_register(&mut line, rt);
                line.append(", ");
                push_register(&mut line, rs);
                line
            },
        }
    }
}

} // verus!
