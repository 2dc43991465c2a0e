//! The instruction decoder: from a raw 32-bit word to a typed descriptor.
//!
//! The bit fields of a word are stated arithmetically (`word / 2^lo % 2^n`);
//! the executable code extracts them with masks and shifts and is proved to
//! agree.

use vstd::prelude::*;

verus! {

/// Operations of the register-register form.
#[derive(Debug, Clone, Copy, PartialEq, Eq, Structural)]
pub enum ROpType {
    Add,
    Addu,
    And,
    Brk,
    Div,
    Jalr,
    Jr,
    Mfhi,
    Mflo,
    Mult,
    Nop,
    Nor,
    Or,
    Sll,
    Slt,
    Sltu,
    Srl,
    Sub,
    Subu,
    Syscall,
    Xor,
}

/// Operations of the immediate form.
#[derive(Debug, Clone, Copy, PartialEq, Eq, Structural)]
pub enum IOpType {
    Addi,
    Addiu,
    Andi,
    Beq,
    Blez,
    Bne,
    Lb,
    Lbu,
    Ldc1,
    Lh,
    Lhu,
    Lui,
    Lw,
    Lwc1,
    Ori,
    Sb,
    Sh,
    Slti,
    Sltiu,
    Sw,
}

/// Operations of the jump form.
#[derive(Debug, Clone, Copy, PartialEq, Eq, Structural)]
pub enum JOpType {
    J,
    Jal,
}

/// Operations of the coprocessor form.
#[derive(Debug, Clone, Copy, PartialEq, Eq, Structural)]
pub enum FOpType {
    Addd,
    Adds,
    Cvtdw,
    Cvtsd,
    Divd,
    Divs,
    Mfc1,
    Movd,
    Movs,
    Mtc0,
    Mtc1,
    Muld,
    Muls,
}

/// The single operation of an encoding that the decoder does not recognise.
#[derive(Debug, Clone, Copy, PartialEq, Eq, Structural)]
pub enum EOpType {
    Unknown,
}

/// An operation of any of the five forms.
#[derive(Debug, Clone, Copy, PartialEq, Eq, Structural)]
pub enum OpType {
    R(ROpType),
    I(IOpType),
    J(JOpType),
    F(FOpType),
    E(EOpType),
}

impl ROpType {
    /// The name of the operation, as its variant is written.
    pub open spec fn name_text(self) -> Seq<char> {
        match self {
            ROpType::Add => "Add"@,
            ROpType::Addu => "Addu"@,
            ROpType::And => "And"@,
            ROpType::Brk => "Brk"@,
            ROpType::Div => "Div"@,
            ROpType::Jalr => "Jalr"@,
            ROpType::Jr => "Jr"@,
            ROpType::Mfhi => "Mfhi"@,
            ROpType::Mflo => "Mflo"@,
            ROpType::Mult => "Mult"@,
            ROpType::Nop => "Nop"@,
            ROpType::Nor => "Nor"@,
            ROpType::Or => "Or"@,
            ROpType::Sll => "Sll"@,
            ROpType::Slt => "Slt"@,
            ROpType::Sltu => "Sltu"@,
            ROpType::Srl => "Srl"@,
            ROpType::Sub => "Sub"@,
            ROpType::Subu => "Subu"@,
            ROpType::Syscall => "Syscall"@,
            ROpType::Xor => "Xor"@,
        }
    }

    /// The name of the operation, as its variant is written.
    pub fn name(&self) -> (name: &'static str)
        ensures
            name@ == self.name_text(),
    {
        match *self {
            ROpType::Add => "Add",
            ROpType::Addu => "Addu",
            ROpType::And => "And",
            ROpType::Brk => "Brk",
            ROpType::Div => "Div",
            ROpType::Jalr => "Jalr",
            ROpType::Jr => "Jr",
            ROpType::Mfhi => "Mfhi",
            ROpType::Mflo => "Mflo",
            ROpType::Mult => "Mult",
            ROpType::Nop => "Nop",
            ROpType::Nor => "Nor",
            ROpType::Or => "Or",
            ROpType::Sll => "Sll",
            ROpType::Slt => "Slt",
            ROpType::Sltu => "Sltu",
            ROpType::Srl => "Srl",
            ROpType::Sub => "Sub",
            ROpType::Subu => "Subu",
            ROpType::Syscall => "Syscall",
            ROpType::Xor => "Xor",
        }
    }
}

impl IOpType {
    /// The name of the operation, as its variant is written.
    pub open spec fn name_text(self) -> Seq<char> {
        match self {
            IOpType::Addi => "Addi"@,
            IOpType::Addiu => "Addiu"@,
            IOpType::Andi => "Andi"@,
            IOpType::Beq => "Beq"@,
            IOpType::Blez => "Blez"@,
            IOpType::Bne => "Bne"@,
            IOpType::Lb => "Lb"@,
            IOpType::Lbu => "Lbu"@,
            IOpType::Ldc1 => "Ldc1"@,
            IOpType::Lh => "Lh"@,
            IOpType::Lhu => "Lhu"@,
            IOpType::Lui => "Lui"@,
            IOpType::Lw => "Lw"@,
            IOpType::Lwc1 => "Lwc1"@,
            IOpType::Ori => "Ori"@,
            IOpType::Sb => "Sb"@,
            IOpType::Sh => "Sh"@,
            IOpType::Slti => "Slti"@,
            IOpType::Sltiu => "Sltiu"@,
            IOpType::Sw => "Sw"@,
        }
    }

    /// The name of the operation, as its variant is written.
    pub fn name(&self) -> (name: &'static str)
        ensures
            name@ == self.name_text(),
    {
        match *self {
            IOpType::Addi => "Addi",
            IOpType::Addiu => "Addiu",
            IOpType::Andi => "Andi",
            IOpType::Beq => "Beq",
            IOpType::Blez => "Blez",
            IOpType::Bne => "Bne",
            IOpType::Lb => "Lb",
            IOpType::Lbu => "Lbu",
            IOpType::Ldc1 => "Ldc1",
            IOpType::Lh => "Lh",
            IOpType::Lhu => "Lhu",
            IOpType::Lui => "Lui",
            IOpType::Lw => "Lw",
            IOpType::Lwc1 => "Lwc1",
            IOpType::Ori => "Ori",
            IOpType::Sb => "Sb",
            IOpType::Sh => "Sh",
            IOpType::Slti => "Slti",
            IOpType::Sltiu => "Sltiu",
            IOpType::Sw => "Sw",
        }
    }
}

impl JOpType {
    /// The name of the operation, as its variant is written.
    pub open spec fn name_text(self) -> Seq<char> {
        match self {
            JOpType::J => "J"@,
            JOpType::Jal => "Jal"@,
        }
    }

    /// The name of the operation, as its variant is written.
    pub fn name(&self) -> (name: &'static str)
        ensures
            name@ == self.name_text(),
    {
        match *self {
            JOpType::J => "J",
            JOpType::Jal => "Jal",
        }
    }
}

impl FOpType {
    /// The name of the operation, as its variant is written.
    pub open spec fn name_text(self) -> Seq<char> {
        match self {
            FOpType::Addd => "Addd"@,
            FOpType::Adds => "Adds"@,
            FOpType::Cvtdw => "Cvtdw"@,
            FOpType::Cvtsd => "Cvtsd"@,
            FOpType::Divd => "Divd"@,
            FOpType::Divs => "Divs"@,
            FOpType::Mfc1 => "Mfc1"@,
            FOpType::Movd => "Movd"@,
            FOpType::Movs => "Movs"@,
            FOpType::Mtc0 => "Mtc0"@,
            FOpType::Mtc1 => "Mtc1"@,
            FOpType::Muld => "Muld"@,
            FOpType::Muls => "Muls"@,
        }
    }

    /// The name of the operation, as its variant is written.
    pub fn name(&self) -> (name: &'static str)
        ensures
            name@ == self.name_text(),
    {
        match *self {
            FOpType::Addd => "Addd",
            FOpType::Adds => "Adds",
            FOpType::Cvtdw => "Cvtdw",
            FOpType::Cvtsd => "Cvtsd",
            FOpType::Divd => "Divd",
            FOpType::Divs => "Divs",
            FOpType::Mfc1 => "Mfc1",
            FOpType::Movd => "Movd",
            FOpType::Movs => "Movs",
            FOpType::Mtc0 => "Mtc0",
            FOpType::Mtc1 => "Mtc1",
            FOpType::Muld => "Muld",
            FOpType::Muls => "Muls",
        }
    }
}

impl EOpType {
    /// The name of the operation, as its variant is written.
    pub open spec fn name_text(self) -> Seq<char> {
        match self {
            EOpType::Unknown => "Unknown"@,
        }
    }

    /// The name of the operation, as its variant is written.
    pub fn name(&self) -> (name: &'static str)
        ensures
            name@ == self.name_text(),
    {
        match *self {
            EOpType::Unknown => "Unknown",
        }
    }
}

impl OpType {
    /// The name of the operation, as its variant is written.
    pub open spec fn name_text(self) -> Seq<char> {
        match self {
            OpType::R(op) => op.name_text(),
            OpType::I(op) => op.name_text(),
            OpType::J(op) => op.name_text(),
            OpType::F(op) => op.name_text(),
            OpType::E(op) => op.name_text(),
        }
    }

    /// The name of the operation, as its variant is written.
    pub fn name(&self) -> (name: &'static str)
        ensures
            name@ == self.name_text(),
    {
        match self {
            OpType::R(op) => op.name(),
            OpType::I(op) => op.name(),
            OpType::J(op) => op.name(),
            OpType::F(op) => op.name(),
            OpType::E(op) => op.name(),
        }
    }
}

/// A decoded instruction: the operation and its operand fields.
#[allow(inconsistent_fields)]
#[derive(Debug, Clone, Copy, PartialEq, Eq, Structural)]
pub enum DecodedInstruction {
    /// Register-register form.
    R { op: ROpType, rs: u32, rt: u32, rd: u32, shamt: u32 },
    /// Immediate form. `imm` is the raw 16-bit field, zero-extended.
    I { op: IOpType, rs: u32, rt: u32, imm: u32 },
    /// Jump form. `addr` is the 26-bit target field.
    J { op: JOpType, addr: u32 },
    /// Coprocessor form.
    F { op: FOpType, rt: u32, rs: u32, rd: u32 },
    /// Unrecognised encoding; `raw` is the word as it was fetched.
    E { op: EOpType, raw: u32 },
}

/// Bits 31..26 of a word.
pub open spec fn opcode_field(word: u32) -> u32 {
    word / 0x400_0000
}

/// Bits 25..21 of a word: `rs`, or the format of a coprocessor instruction.
pub open spec fn rs_field(word: u32) -> u32 {
    (word / 0x20_0000) % 32
}

/// Bits 20..16 of a word.
pub open spec fn rt_field(word: u32) -> u32 {
    (word / 0x1_0000) % 32
}

/// Bits 15..11 of a word.
pub open spec fn rd_field(word: u32) -> u32 {
    (word / 0x800) % 32
}

/// Bits 10..6 of a word.
pub open spec fn shamt_field(word: u32) -> u32 {
    (word / 0x40) % 32
}

/// Bits 5..0 of a word.
pub open spec fn funct_field(word: u32) -> u32 {
    word % 64
}

/// Bits 15..0 of a word.
pub open spec fn imm_field(word: u32) -> u32 {
    word % 0x1_0000
}

/// Bits 25..0 of a word.
pub open spec fn target_field(word: u32) -> u32 {
    word % 0x400_0000
}

/// The operation that a function code selects under opcode 0.
pub open spec fn special_op(funct: u32) -> Option<ROpType> {
    if funct == 0x00 {
        Some(ROpType::Sll)
    } else if funct == 0x02 {
        Some(ROpType::Srl)
    } else if funct == 0x08 {
        Some(ROpType::Jr)
    } else if funct == 0x09 {
        Some(ROpType::Jalr)
    } else if funct == 0x0C {
        Some(ROpType::Syscall)
    } else if funct == 0x0D {
        Some(ROpType::Brk)
    } else if funct == 0x10 {
        Some(ROpType::Mfhi)
    } else if funct == 0x12 {
        Some(ROpType::Mflo)
    } else if funct == 0x18 {
        Some(ROpType::Mult)
    } else if funct == 0x1A {
        Some(ROpType::Div)
    } else if funct == 0x20 {
        Some(ROpType::Add)
    } else if funct == 0x21 {
        Some(ROpType::Addu)
    } else if funct == 0x22 {
        Some(ROpType::Sub)
    } else if funct == 0x23 {
        Some(ROpType::Subu)
    } else if funct == 0x24 {
        Some(ROpType::And)
    } else if funct == 0x25 {
        Some(ROpType::Or)
    } else if funct == 0x26 {
        Some(ROpType::Xor)
    } else if funct == 0x27 {
        Some(ROpType::Nor)
    } else if funct == 0x2A {
        Some(ROpType::Slt)
    } else if funct == 0x2B {
        Some(ROpType::Sltu)
    } else {
        None
    }
}

/// The operation that a function code and a format select under opcode
/// 0x11. The arithmetic and conversion pairs are looked up first; the two
/// moves are told by the format alone.
pub open spec fn cop1_op(funct: u32, fmt: u32) -> Option<FOpType> {
    if funct == 0x06 && fmt == 0x10 {
        Some(FOpType::Movs)
    } else if funct == 0x06 && fmt == 0x11 {
        Some(FOpType::Movd)
    } else if funct == 0x00 && fmt == 0x10 {
        Some(FOpType::Adds)
    } else if funct == 0x00 && fmt == 0x11 {
        Some(FOpType::Addd)
    } else if funct == 0x02 && fmt == 0x10 {
        Some(FOpType::Muls)
    } else if funct == 0x02 && fmt == 0x11 {
        Some(FOpType::Muld)
    } else if funct == 0x03 && fmt == 0x10 {
        Some(FOpType::Divs)
    } else if funct == 0x03 && fmt == 0x11 {
        Some(FOpType::Divd)
    } else if funct == 0x20 && fmt == 0x11 {
        Some(FOpType::Cvtsd)
    } else if funct == 0x21 && fmt == 0x14 {
        Some(FOpType::Cvtdw)
    } else if fmt == 0x00 {
        Some(FOpType::Mfc1)
    } else if fmt == 0x04 {
        Some(FOpType::Mtc1)
    } else {
        None
    }
}

/// The operation that a format selects under opcode 0x10.
pub open spec fn cop0_op(fmt: u32) -> Option<FOpType> {
    if fmt == 0x04 {
        Some(FOpType::Mtc0)
    } else {
        None
    }
}

/// The immediate-form operation that an opcode names.
pub open spec fn immediate_op(opcode: u32) -> Option<IOpType> {
    if opcode == 0x04 {
        Some(IOpType::Beq)
    } else if opcode == 0x05 {
        Some(IOpType::Bne)
    } else if opcode == 0x06 {
        Some(IOpType::Blez)
    } else if opcode == 0x08 {
        Some(IOpType::Addi)
    } else if opcode == 0x09 {
        Some(IOpType::Addiu)
    } else if opcode == 0x0A {
        Some(IOpType::Slti)
    } else if opcode == 0x0B {
        Some(IOpType::Sltiu)
    } else if opcode == 0x0C {
        Some(IOpType::Andi)
    } else if opcode == 0x0D {
        Some(IOpType::Ori)
    } else if opcode == 0x0F {
        Some(IOpType::Lui)
    } else if opcode == 0x20 {
        Some(IOpType::Lb)
    } else if opcode == 0x21 {
        Some(IOpType::Lh)
    } else if opcode == 0x23 {
        Some(IOpType::Lw)
    } else if opcode == 0x24 {
        Some(IOpType::Lbu)
    } else if opcode == 0x25 {
        Some(IOpType::Lhu)
    } else if opcode == 0x28 {
        Some(IOpType::Sb)
    } else if opcode == 0x29 {
        Some(IOpType::Sh)
    } else if opcode == 0x2B {
        Some(IOpType::Sw)
    } else if opcode == 0x31 {
        Some(IOpType::Lwc1)
    } else if opcode == 0x35 {
        Some(IOpType::Ldc1)
    } else {
        None
    }
}

/// The jump-form operation that an opcode names.
pub open spec fn jump_op(opcode: u32) -> Option<JOpType> {
    if opcode == 0x02 {
        Some(JOpType::J)
    } else if opcode == 0x03 {
        Some(JOpType::Jal)
    } else {
        None
    }
}

impl DecodedInstruction {
    /// The register-register form of `word` under `op`.
    pub open spec fn r_type(op: ROpType, word: u32) -> DecodedInstruction {
        DecodedInstruction::R {
            op,
            rs: rs_field(word),
            rt: rt_field(word),
            rd: rd_field(word),
            shamt: shamt_field(word),
        }
    }

    /// The immediate form of `word` under `op`.
    pub open spec fn i_type(op: IOpType, word: u32) -> DecodedInstruction {
        DecodedInstruction::I { op, rs: rs_field(word), rt: rt_field(word), imm: imm_field(word) }
    }

    /// The jump form of `word` under `op`.
    pub open spec fn j_type(op: JOpType, word: u32) -> DecodedInstruction {
        DecodedInstruction::J { op, addr: target_field(word) }
    }

    /// The coprocessor form of `word` under `op`: `rt` is bits 20..16, `rs`
    /// bits 15..11 and `rd` bits 10..6.
    pub open spec fn f_type(op: FOpType, word: u32) -> DecodedInstruction {
        DecodedInstruction::F { op, rt: rt_field(word), rs: rd_field(word), rd: shamt_field(word) }
    }

    /// The descriptor of a word that matches no known encoding.
    pub open spec fn unknown(word: u32) -> DecodedInstruction {
        DecodedInstruction::E { op: EOpType::Unknown, raw: word }
    }

    /// What a word decodes to. The all-zero word is `Nop`; opcode 0 selects
    /// by function code, opcodes 0x11 and 0x10 by coprocessor format, every
    /// other opcode names its operation directly; whatever matches nothing
    /// is `Unknown`.
    pub open spec fn decode(word: u32) -> DecodedInstruction {
        let opcode = opcode_field(word);
        if word == 0 {
            Self::r_type(ROpType::Nop, word)
        } else if opcode == 0 {
            match special_op(funct_field(word)) {
                Some(op) => Self::r_type(op, word),
                None => Self::unknown(word),
            }
        } else if opcode == 0x11 {
            match cop1_op(funct_field(word), rs_field(word)) {
                Some(op) => Self::f_type(op, word),
                None => Self::unknown(word),
            }
        } else if opcode == 0x10 {
            match cop0_op(rs_field(word)) {
                Some(op) => Self::f_type(op, word),
                None => Self::unknown(word),
            }
        } else {
            match immediate_op(opcode) {
                Some(op) => Self::i_type(op, word),
                None => match jump_op(opcode) {
                    Some(op) => Self::j_type(op, word),
                    None => Self::unknown(word),
                },
            }
        }
    }

    /// The operation of the instruction, whatever its form.
    pub open spec fn op_type(self) -> OpType {
        match self {
            DecodedInstruction::R { op, .. } => OpType::R(op),
            DecodedInstruction::I { op, .. } => OpType::I(op),
            DecodedInstruction::J { op, .. } => OpType::J(op),
            DecodedInstruction::F { op, .. } => OpType::F(op),
            DecodedInstruction::E { op, .. } => OpType::E(op),
        }
    }

    /// Whether every operand field lies in the range of its bit field.
    pub open spec fn in_range(self) -> bool {
        match self {
            DecodedInstruction::R { rs, rt, rd, shamt, .. } => rs < 32 && rt < 32 && rd < 32
                && shamt < 32,
            DecodedInstruction::I { rs, rt, imm, .. } => rs < 32 && rt < 32 && imm < 0x1_0000,
            DecodedInstruction::J { addr, .. } => addr < 0x400_0000,
            DecodedInstruction::F { rt, rs, rd, .. } => rt < 32 && rs < 32 && rd < 32,
            DecodedInstruction::E { .. } => true,
        }
    }

    /// Constructs a register-register instruction from a word.
    fn new_r(op: ROpType, word: u32) -> (decoded: Self)
        ensures
            decoded == Self::r_type(op, word),
    {
        assert({
            &&& (word & 0x3e00000) >> 21 == (word / 0x20_0000) % 32
            &&& (word & 0x1f0000) >> 16 == (word / 0x1_0000) % 32
            &&& (word & 0xf800) >> 11 == (word / 0x800) % 32
            &&& (word & 0x7c0) >> 6 == (word / 0x40) % 32
        }) by (bit_vector);
        DecodedInstruction::R {
            op,
            rs: (word & 0x3e00000) >> 21,
            rt: (word & 0x1f0000) >> 16,
            rd: (word & 0xf800) >> 11,
            shamt: (word & 0x7c0) >> 6,
        }
    }

    /// Constructs an immediate instruction from a word.
    fn new_i(op: IOpType, word: u32) -> (decoded: Self)
        ensures
            decoded == Self::i_type(op, word),
    {
        assert({
            &&& (word & 0x3e00000) >> 21 == (word / 0x20_0000) % 32
            &&& (word & 0x1f0000) >> 16 == (word / 0x1_0000) % 32
            &&& word & 0xffff == word % 0x1_0000
        }) by (bit_vector);
        DecodedInstruction::I {
            op,
            rs: (word & 0x3e00000) >> 21,
            rt: (word & 0x1f0000) >> 16,
            imm: word & 0xffff,
        }
    }

    /// Constructs a jump instruction from a word.
    fn new_j(op: JOpType, word: u32) -> (decoded: Self)
        ensures
            decoded == Self::j_type(op, word),
    {
        assert(word & 0x3ffffff == word % 0x400_0000) by (bit_vector);
        DecodedInstruction::J { op, addr: word & 0x3ffffff }
    }

    /// Constructs a coprocessor instruction from a word.
    fn new_f(op: FOpType, word: u32) -> (decoded: Self)
        ensures
            decoded == Self::f_type(op, word),
    {
        assert({
            &&& (word & 0x1f0000) >> 16 == (word / 0x1_0000) % 32
            &&& (word & 0xf800) >> 11 == (word / 0x800) % 32
            &&& (word & 0x7c0) >> 6 == (word / 0x40) % 32
        }) by (bit_vector);
        DecodedInstruction::F {
            op,
            rt: (word & 0x1f0000) >> 16,
            rs: (word & 0xf800) >> 11,
            rd: (word & 0x7c0) >> 6,
        }
    }

    /// Constructs the descriptor of an unrecognised word.
    fn new_e(op: EOpType, word: u32) -> (decoded: Self)
        ensures
            decoded == (DecodedInstruction::E { op, raw: word }),
    {
        DecodedInstruction::E { op, raw: word }
    }

    /// The operation of the instruction, whatever its form.
    pub fn op(&self) -> (op: OpType)
        ensures
            op == self.op_type(),
    {
        match *self {
            DecodedInstruction::R { op, .. } => OpType::R(op),
            DecodedInstruction::I { op, .. } => OpType::I(op),
            DecodedInstruction::J { op, .. } => OpType::J(op),
            DecodedInstruction::F { op, .. } => OpType::F(op),
            DecodedInstruction::E { op, .. } => OpType::E(op),
        }
    }
}

impl From<u32> for DecodedInstruction {
    /// Decodes a word. Every word decodes to some descriptor.
    fn from(word: u32) -> (decoded: Self)
        ensures
            decoded == DecodedInstruction::decode(word),
    {
        if word == 0 {
            return DecodedInstruction::new_r(ROpType::Nop, word);
        }
        let opcode = word >> 26;
        let funct = word & 0x3f;
        let fmt = (word & 0x3e00000) >> 21;
        assert({
            &&& word >> 26 == word / 0x400_0000
            &&& word & 0x3f == word % 64
            &&& (word & 0x3e00000) >> 21 == (word / 0x20_0000) % 32
        }) by (bit_vector);
        match (opcode, funct, fmt) {
            (0, 0x10, _) => DecodedInstruction::new_r(ROpType::Mfhi, word),
            (0, 0x12, _) => DecodedInstruction::new_r(ROpType::Mflo, word),
            (0, 0x18, _) => DecodedInstruction::new_r(ROpType::Mult, word),
            (0, 0x1A, _) => DecodedInstruction::new_r(ROpType::Div, word),
            (0, 0x20, _) => DecodedInstruction::new_r(ROpType::Add, word),
            (0, 0x21, _) => DecodedInstruction::new_r(ROpType::Addu, word),
            (0, 0x22, _) => DecodedInstruction::new_r(ROpType::Sub, word),
            (0, 0x23, _) => DecodedInstruction::new_r(ROpType::Subu, word),
            (0, 0x24, _) => DecodedInstruction::new_r(ROpType::And, word),
            (0, 0x25, _) => DecodedInstruction::new_r(ROpType::Or, word),
            (0, 0x26, _) => DecodedInstruction::new_r(ROpType::Xor, word),
            (0, 0x27, _) => DecodedInstruction::new_r(ROpType::Nor, word),
            (0, 0x00, _) => DecodedInstruction::new_r(ROpType::Sll, word),
            (0, 0x02, _) => DecodedInstruction::new_r(ROpType::Srl, word),
            (0, 0x2A, _) => DecodedInstruction::new_r(ROpType::Slt, word),
            (0, 0x2B, _) => DecodedInstruction::new_r(ROpType::Sltu, word),
            (0, 0x08, _) => DecodedInstruction::new_r(ROpType::Jr, word),
            (0, 0x09, _) => DecodedInstruction::new_r(ROpType::Jalr, word),
            (0, 0x0C, _) => DecodedInstruction::new_r(ROpType::Syscall, word),
            (0, 0x0D, _) => DecodedInstruction::new_r(ROpType::Brk, word),
            (0x11, 0x6, 0x10) => DecodedInstruction::new_f(FOpType::Movs, word),
            (0x11, 0x6, 0x11) => DecodedInstruction::new_f(FOpType::Movd, word),
            (0x11, 0x0, 0x10) => DecodedInstruction::new_f(FOpType::Adds, word),
            (0x11, 0x0, 0x11) => DecodedInstruction::new_f(FOpType::Addd, word),
            (0x11, 0x2, 0x10) => DecodedInstruction::new_f(FOpType::Muls, word),
            (0x11, 0x2, 0x11) => DecodedInstruction::new_f(FOpType::Muld, word),
            (0x11, 0x3, 0x10) => DecodedInstruction::new_f(FOpType::Divs, word),
            (0x11, 0x3, 0x11) => DecodedInstruction::new_f(FOpType::Divd, word),
            (0x11, 0x20, 0x11) => DecodedInstruction::new_f(FOpType::Cvtsd, word),
            (0x11, 0x21, 0x14) => DecodedInstruction::new_f(FOpType::Cvtdw, word),
            (0x11, _, 0x0) => DecodedInstruction::new_f(FOpType::Mfc1, word),
            (0x11, _, 0x4) => DecodedInstruction::new_f(FOpType::Mtc1, word),
            (0x10, _, 0x4) => DecodedInstruction::new_f(FOpType::Mtc0, word),
            (0x08, _, _) => DecodedInstruction::new_i(IOpType::Addi, word),
            (0x09, _, _) => DecodedInstruction::new_i(IOpType::Addiu, word),
            (0x0A, _, _) => DecodedInstruction::new_i(IOpType::Slti, word),
            (0x0B, _, _) => DecodedInstruction::new_i(IOpType::Sltiu, word),
            (0x0C, _, _) => DecodedInstruction::new_i(IOpType::Andi, word),
            (0x0D, _, _) => DecodedInstruction::new_i(IOpType::Ori, word),
            (0x04, _, _) => DecodedInstruction::new_i(IOpType::Beq, word),
            (0x05, _, _) => DecodedInstruction::new_i(IOpType::Bne, word),
            (0x06, _, _) => DecodedInstruction::new_i(IOpType::Blez, word),
            (0x0F, _, _) => DecodedInstruction::new_i(IOpType::Lui, word),
            (0x20, _, _) => DecodedInstruction::new_i(IOpType::Lb, word),
            (0x21, _, _) => DecodedInstruction::new_i(IOpType::Lh, word),
            (0x23, _, _) => DecodedInstruction::new_i(IOpType::Lw, word),
            (0x24, _, _) => DecodedInstruction::new_i(IOpType::Lbu, word),
            (0x25, _, _) => DecodedInstruction::new_i(IOpType::Lhu, word),
            (0x2B, _, _) => DecodedInstruction::new_i(IOpType::Sw, word),
            (0x28, _, _) => DecodedInstruction::new_i(IOpType::Sb, word),
            (0x29, _, _) => DecodedInstruction::new_i(IOpType::Sh, word),
            (0x31, _, _) => DecodedInstruction::new_i(IOpType::Lwc1, word),
            (0x35, _, _) => DecodedInstruction::new_i(IOpType::Ldc1, word),
            (0x2, _, _) => DecodedInstruction::new_j(JOpType::J, word),
            (0x3, _, _) => DecodedInstruction::new_j(JOpType::Jal, word),
            _ => DecodedInstruction::new_e(EOpType::Unknown, word),
        }
    }
}

impl vstd::std_specs::convert::FromSpecImpl<u32> for DecodedInstruction {
    open spec fn obeys_from_spec() -> bool {
        true
    }

    open spec fn from_spec(word: u32) -> DecodedInstruction {
        DecodedInstruction::decode(word)
    }
}

impl Default for DecodedInstruction {
    /// The descriptor of the unrecognised all-zero encoding.
    fn default() -> (decoded: Self)
        ensures
            decoded == DecodedInstruction::unknown(0),
    {
        DecodedInstruction::new_e(EOpType::Unknown, 0)
    }
}

/// Decoding is total and keeps every operand inside its bit field; an
/// unrecognised word is carried unchanged in the descriptor.
pub proof fn lemma_decode_in_range(word: u32)
    ensures
        DecodedInstruction::decode(word).in_range(),
        DecodedInstruction::decode(word) matches DecodedInstruction::E { raw, .. } ==> raw == word,
{
}

/// The all-zero word decodes to `Nop` with every operand zero.
pub proof fn lemma_decode_zero()
    ensures
        DecodedInstruction::decode(0) == (DecodedInstruction::R {
            op: ROpType::Nop,
            rs: 0,
            rt: 0,
            rd: 0,
            shamt: 0,
        }),
{
}

/// `Nop` is decoded from the all-zero word and from no other.
pub proof fn lemma_nop_only_from_zero(word: u32)
    ensures
        DecodedInstruction::decode(word).op_type() == OpType::R(ROpType::Nop) <==> word == 0,
{
}

} // verus!
