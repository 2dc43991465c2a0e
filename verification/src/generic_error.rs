//! The uniform error of the core: a typed kind, and its diagnostic text.

use vstd::prelude::*;
use vstd::string::*;
use crate::decoded_instruction::OpType;
use crate::text::{decimal_text, hex_text, hex_text_fixed, push_decimal, push_hex, push_hex_fixed};

verus! {

/// What went wrong, with the numbers that the diagnostic shows.
#[derive(Clone, Copy, Debug, PartialEq, Eq, Structural)]
pub enum ErrorKind {
    /// A BIOS image whose size is not exactly 512 KiB.
    InvalidBiosSize,
    /// A 32-bit load from an address that is no multiple of four.
    UnalignedLoad { address: u32 },
    /// A 32-bit load from an address that no region claims.
    UnmappedLoad { address: u32 },
    /// A 32-bit store to an address that is no multiple of four.
    UnalignedStore { address: u32 },
    /// A 32-bit store to an address that no region claims.
    UnmappedStore { address: u32 },
    /// A store to the memory-control register of the Expansion 1 base with
    /// another value than the canonical one.
    BadExpansion1Base { word: u32 },
    /// A store to the memory-control register of the Expansion 2 base with
    /// another value than the canonical one.
    BadExpansion2Base { word: u32 },
    /// A store to a memory-control register that accepts none.
    UnhandledMemlcontrolWrite { offset: u32, word: u32 },
    /// A word that decodes to no known instruction, fetched at `pc`.
    UnknownInstruction { raw: u32, pc: u32 },
    /// An instruction that decodes but has no handler, fetched at `pc`.
    UnimplementedInstruction { op: OpType, raw: u32, pc: u32 },
    /// A branch or jump in the delay slot of another, fetched at `pc`.
    DelaySlotBranch { raw: u32, pc: u32 },
    /// A trapping addition whose signed result does not fit in 32 bits.
    ArithmeticOverflow,
    /// A move to a register of the system coprocessor that is not modelled.
    UnhandledCop0Register { index: u32 },
    /// A store that was dropped because the cache is isolated; the storing
    /// instruction was fetched at `pc`.
    IsolatedCacheWrite { pc: u32 },
}

/// An error of the core.
#[derive(Clone, Copy, Debug, PartialEq, Eq, Structural)]
pub struct GenericError {
    pub kind: ErrorKind,
}

impl GenericError {
    /// The diagnostic text of the error: a tag in capitals, then, where the
    /// kind carries them, the offending value and the address of the
    /// instruction in hexadecimal.
    pub open spec fn message_text(self) -> Seq<char> {
        match self.kind {
            ErrorKind::InvalidBiosSize => "INVALID_BIOS_SIZE"@,
            ErrorKind::UnalignedLoad { address } => "LOAD32_UNALIGNED_WORD_BOUNDARY (from 0x"@
                + hex_text(address as nat) + ")"@,
            ErrorKind::UnmappedLoad { .. } => "LOAD32_PERIPHERAL_NOT_FOUND"@,
            ErrorKind::UnalignedStore { address } => "STORE32_UNALIGNED_WORD_BOUNDARY (into 0x"@
                + hex_text(address as nat) + ")"@,
            ErrorKind::UnmappedStore { .. } => "STORE32_PERIPHERAL_NOT_FOUND"@,
            ErrorKind::BadExpansion1Base { word } => "STORE32_BAD_EXPANSION_1_BASE_ADDRESS (0x"@
                + hex_text(word as nat) + ")"@,
            ErrorKind::BadExpansion2Base { word } => "STORE32_BAD_EXPANSION_2_BASE_ADDRESS (0x"@
                + hex_text(word as nat) + ")"@,
            ErrorKind::UnhandledMemlcontrolWrite { word, .. } =>
                "STORE32_UNHANDLED_MEMLCONTROL_WRITE (0x"@ + hex_text(word as nat) + ")"@,
            ErrorKind::UnknownInstruction { raw, pc } => "UNKNOWN_INSTRUCTION (found 0x"@
                + hex_text_fixed(raw as nat, 8) + " at 0x"@ + hex_text_fixed(pc as nat, 8) + ")"@,
            ErrorKind::UnimplementedInstruction { op, raw, pc } => "UNIMPLEMENTED_INSTRUCTION_"@
                + op.name_text() + " (0x"@ + hex_text_fixed(raw as nat, 8) + " at 0x"@
                + hex_text_fixed(pc as nat, 8) + ")"@,
            ErrorKind::DelaySlotBranch { raw, pc } => "BRANCH_IN_DELAY_SLOT (found 0x"@
                + hex_text_fixed(raw as nat, 8) + " at 0x"@ + hex_text_fixed(pc as nat, 8) + ")"@,
            ErrorKind::ArithmeticOverflow => "ADDI_ARITHMETIC_OVERFLOW"@,
            ErrorKind::UnhandledCop0Register { index } => "UNHANDLED_COP0_REGISTER ($"@
                + decimal_text(index as nat) + ")"@,
            ErrorKind::IsolatedCacheWrite { pc } => "IGNORE_WRITE_ON_ISOLATED_CACHE (at 0x"@
                + hex_text(pc as nat) + ")"@,
        }
    }

    /// The words that announce the error in a log, by the place where it
    /// arises: the loading of the BIOS, the fetch of an instruction, a
    /// store, or the handler of an instruction.
    pub open spec fn context_text(self) -> Seq<char> {
        match self.kind {
            ErrorKind::InvalidBiosSize => "Failed to load bios:"@,
            ErrorKind::UnalignedLoad { .. } | ErrorKind::UnmappedLoad { .. } =>
                "Instruction fetch error:"@,
            ErrorKind::UnalignedStore { .. }
            | ErrorKind::UnmappedStore { .. }
            | ErrorKind::BadExpansion1Base { .. }
            | ErrorKind::BadExpansion2Base { .. }
            | ErrorKind::UnhandledMemlcontrolWrite { .. }
            | ErrorKind::IsolatedCacheWrite { .. } => "Memory write soft error:"@,
            ErrorKind::UnknownInstruction { .. }
            | ErrorKind::UnimplementedInstruction { .. }
            | ErrorKind::DelaySlotBranch { .. }
            | ErrorKind::ArithmeticOverflow
            | ErrorKind::UnhandledCop0Register { .. } => "Instruction processing error:"@,
        }
    }

    /// The error of the given kind.
    pub fn new(kind: ErrorKind) -> (error: Self)
        ensures
            error.kind == kind,
    {
        GenericError { kind }
    }

    /// The words that announce the error in a log.
    pub fn context(&self) -> (words: &'static str)
        ensures
            words@ == self.context_text(),
    {
        match self.kind {
            ErrorKind::InvalidBiosSize => "Failed to load bios:",
            ErrorKind::UnalignedLoad { .. } | ErrorKind::UnmappedLoad { .. } =>
                "Instruction fetch error:",
            ErrorKind::UnalignedStore { .. }
            | ErrorKind::UnmappedStore { .. }
            | ErrorKind::BadExpansion1Base { .. }
            | ErrorKind::BadExpansion2Base { .. }
            | ErrorKind::UnhandledMemlcontrolWrite { .. }
            | ErrorKind::IsolatedCacheWrite { .. } => "Memory write soft error:",
            ErrorKind::UnknownInstruction { .. }
            | ErrorKind::UnimplementedInstruction { .. }
            | ErrorKind::DelaySlotBranch { .. }
            | ErrorKind::ArithmeticOverflow
            | ErrorKind::UnhandledCop0Register { .. } => "Instruction processing error:",
        }
    }

    /// The diagnostic text of the error.
    pub fn message(&self) -> (text: String)
        ensures
            text@ == self.message_text(),
    {
        match self.kind {
            ErrorKind::InvalidBiosSize => String::from_str("INVALID_BIOS_SIZE"),
            ErrorKind::UnalignedLoad { address } => {
                let mut text = String::from_str("LOAD32_UNALIGNED_WORD_BOUNDARY (from 0x");
                push_hex(&mut text, address);
                text.append(")");
                text
            },
            ErrorKind::UnmappedLoad { .. } => String::from_str("LOAD32_PERIPHERAL_NOT_FOUND"),
            ErrorKind::UnalignedStore { address } => {
                let mut text = String::from_str("STORE32_UNALIGNED_WORD_BOUNDARY (into 0x");
                push_hex(&mut text, address);
                text.append(")");
                text
            },
            ErrorKind::UnmappedStore { .. } => String::from_str("STORE32_PERIPHERAL_NOT_FOUND"),
            ErrorKind::BadExpansion1Base { word } => {
                let mut text = String::from_str("STORE32_BAD_EXPANSION_1_BASE_ADDRESS (0x");
                push_hex(&mut text, word);
                text.append(")");
                text
            },
            ErrorKind::BadExpansion2Base { word } => {
                let mut text = String::from_str("STORE32_BAD_EXPANSION_2_BASE_ADDRESS (0x");
                push_hex(&mut text, word);
                text.append(")");
                text
            },
            ErrorKind::UnhandledMemlcontrolWrite { word, .. } => {
                let mut text = String::from_str("STORE32_UNHANDLED_MEMLCONTROL_WRITE (0x");
                push_hex(&mut text, word);
                text.append(")");
                text
            },
            ErrorKind::UnknownInstruction { raw, pc } => {
                let mut text = String::from_str("UNKNOWN_INSTRUCTION (found 0x");
                push_hex_fixed(&mut text, raw, 8);
                text.append(" at 0x");
                push_hex_fixed(&mut text, pc, 8);
                text.append(")");
                text
            },
            ErrorKind::UnimplementedInstruction { op, raw, pc } => {
                let mut text = String::from_str("UNIMPLEMENTED_INSTRUCTION_");
                text.append(op.name());
                text.append(" (0x");
                push_hex_fixed(&mut text, raw, 8);
                text.append(" at 0x");
                push_hex_fixed(&mut text, pc, 8);
                text.append(")");
                text
            },
            ErrorKind::DelaySlotBranch { raw, pc } => {
                let mut text = String::from_str("BRANCH_IN_DELAY_SLOT (found 0x");
                push_hex_fixed(&mut text, raw, 8);
                text.append(" at 0x");
                push_hex_fixed(&mut text, pc, 8);
                text.append(")");
                text
            },
            ErrorKind::ArithmeticOverflow => String::from_str("ADDI_ARITHMETIC_OVERFLOW"),
            ErrorKind::UnhandledCop0Register { index } => {
                let mut text = String::from_str("UNHANDLED_COP0_REGISTER ($");
                push_decimal(&mut text, index);
                text.append(")");
                text
            },
            ErrorKind::IsolatedCacheWrite { pc } => {
                let mut text = String::from_str("IGNORE_WRITE_ON_ISOLATED_CACHE (at 0x");
                push_hex(&mut text, pc);
                text.append(")");
                text
            },
        }
    }
}

} // verus!
