//! Decoded instructions.

use vstd::prelude::*;

verus! {

/// The operations of the instruction set, and `Unknown` for an opcode that
/// names none of them.
#[derive(Debug, Clone, Copy, PartialEq, Eq, Structural)]
pub enum Mnemonic {
    Mov,
    Add,
    Sub,
    And,
    Or,
    Xor,
    Sll,
    Srl,
    Sra,
    Slt,
    Sltu,
    Slli,
    Srli,
    Srai,
    Addi,
    Andi,
    Ori,
    Xori,
    Slti,
    Sltiu,
    Beq,
    Bnq,
    Blt,
    Bge,
    Bltu,
    Bgeu,
    Jalr,
    Lb,
    Lh,
    Lbu,
    Lhu,
    Lw,
    Lui,
    Sb,
    Sh,
    Sw,
    Jal,
    Unknown,
}

impl Mnemonic {
    /// Register-register operations, encoded in 16 bits.
    pub open spec fn is_register_op(self) -> bool {
        self is Mov || self is Add || self is Sub || self is And || self is Or || self is Xor
            || self is Sll || self is Srl || self is Sra || self is Slt || self is Sltu
    }

    /// Shifts by an immediate amount, encoded in 16 bits.
    pub open spec fn is_shift_immediate(self) -> bool {
        self is Slli || self is Srli || self is Srai
    }

    /// Operations with a 16-bit immediate, encoded in 32 bits.
    pub open spec fn is_immediate_op(self) -> bool {
        self is Addi || self is Andi || self is Ori || self is Xori || self is Slti
            || self is Sltiu || self is Beq || self is Bnq || self is Blt || self is Bge
            || self is Bltu || self is Bgeu || self is Jalr || self is Lb || self is Lh
            || self is Lbu || self is Lhu || self is Lw || self is Lui || self is Sb
            || self is Sh || self is Sw
    }

    /// The conditional branches.
    pub open spec fn is_branch(self) -> bool {
        self is Beq || self is Bnq || self is Blt || self is Bge || self is Bltu || self is Bgeu
    }

    /// The loads.
    pub open spec fn is_load(self) -> bool {
        self is Lb || self is Lh || self is Lbu || self is Lhu || self is Lw
    }

    /// The stores.
    pub open spec fn is_store(self) -> bool {
        self is Sb || self is Sh || self is Sw
    }

    /// The jump with a 21-bit offset, encoded in 32 bits.
    pub open spec fn is_jump(self) -> bool {
        self is Jal
    }

    /// The assembler spelling of the mnemonic.
    pub open spec fn spelling(self) -> Seq<char> {
        match self {
            Mnemonic::Mov => "MOV"@,
            Mnemonic::Add => "ADD"@,
            Mnemonic::Sub => "SUB"@,
            Mnemonic::And => "AND"@,
            Mnemonic::Or => "OR"@,
            Mnemonic::Xor => "XOR"@,
            Mnemonic::Sll => "SLL"@,
            Mnemonic::Srl => "SRL"@,
            Mnemonic::Sra => "SRA"@,
            Mnemonic::Slt => "SLT"@,
            Mnemonic::Sltu => "SLTU"@,
            Mnemonic::Slli => "SLLI"@,
            Mnemonic::Srli => "SRLI"@,
            Mnemonic::Srai => "SRAI"@,
            Mnemonic::Addi => "ADDI"@,
            Mnemonic::Andi => "ANDI"@,
            Mnemonic::Ori => "ORI"@,
            Mnemonic::Xori => "XORI"@,
            Mnemonic::Slti => "SLTI"@,
            Mnemonic::Sltiu => "SLTIU"@,
            Mnemonic::Beq => "BEQ"@,
            Mnemonic::Bnq => "BNQ"@,
            Mnemonic::Blt => "BLT"@,
            Mnemonic::Bge => "BGE"@,
            Mnemonic::Bltu => "BLTU"@,
            Mnemonic::Bgeu => "BGEU"@,
            Mnemonic::Jalr => "JALR"@,
            Mnemonic::Lb => "LB"@,
            Mnemonic::Lh => "LH"@,
            Mnemonic::Lbu => "LBU"@,
            Mnemonic::Lhu => "LHU"@,
            Mnemonic::Lw => "LW"@,
            Mnemonic::Lui => "LUI"@,
            Mnemonic::Sb => "SB"@,
            Mnemonic::Sh => "SH"@,
            Mnemonic::Sw => "SW"@,
            Mnemonic::Jal => "JAL"@,
            Mnemonic::Unknown => "UNKNOWN"@,
        }
    }

    /// The assembler spelling of the mnemonic, as it appears in a trace.
    pub fn name(&self) -> (s: &'static str)
        ensures
            s@ == self.spelling(),
    {
        match self {
            Mnemonic::Mov => "MOV",
            Mnemonic::Add => "ADD",
            Mnemonic::Sub => "SUB",
            Mnemonic::And => "AND",
            Mnemonic::Or => "OR",
            Mnemonic::Xor => "XOR",
            Mnemonic::Sll => "SLL",
            Mnemonic::Srl => "SRL",
            Mnemonic::Sra => "SRA",
            Mnemonic::Slt => "SLT",
            Mnemonic::Sltu => "SLTU",
            Mnemonic::Slli => "SLLI",
            Mnemonic::Srli => "SRLI",
            Mnemonic::Srai => "SRAI",
            Mnemonic::Addi => "ADDI",
            Mnemonic::Andi => "ANDI",
            Mnemonic::Ori => "ORI",
            Mnemonic::Xori => "XORI",
            Mnemonic::Slti => "SLTI",
            Mnemonic::Sltiu => "SLTIU",
            Mnemonic::Beq => "BEQ",
            Mnemonic::Bnq => "BNQ",
            Mnemonic::Blt => "BLT",
            Mnemonic::Bge => "BGE",
            Mnemonic::Bltu => "BLTU",
            Mnemonic::Bgeu => "BGEU",
            Mnemonic::Jalr => "JALR",
            Mnemonic::Lb => "LB",
            Mnemonic::Lh => "LH",
            Mnemonic::Lbu => "LBU",
            Mnemonic::Lhu => "LHU",
            Mnemonic::Lw => "LW",
            Mnemonic::Lui => "LUI",
            Mnemonic::Sb => "SB",
            Mnemonic::Sh => "SH",
            Mnemonic::Sw => "SW",
            Mnemonic::Jal => "JAL",
            Mnemonic::Unknown => "UNKNOWN",
        }
    }
}

/// A decoded instruction: its format, its mnemonic and its operands.
#[derive(Debug, Clone, Copy, PartialEq, Eq, Structural)]
#[allow(inconsistent_fields)]
pub enum Type {
    /// Register-register operation, 16 bits wide.
    RFormat { mnemonic: Mnemonic, rd: u8, rs: u8 },
    /// Register and unsigned shift amount, 16 bits wide.
    I16Format { mnemonic: Mnemonic, rd: u8, imm: u8 },
    /// Two registers and a sign-extended 16-bit immediate, 32 bits wide.
    I32Format { mnemonic: Mnemonic, rd: u8, rs: u8, imm: i32 },
    /// Register and a sign-extended 21-bit offset, 32 bits wide.
    JFormat { mnemonic: Mnemonic, rd: u8, imm: i32 },
}

impl Type {
    /// The operands are usable: register numbers name one of the 32
    /// registers, and a shift amount is below the word width.
    pub open spec fn wf(self) -> bool {
        match self {
            Type::RFormat { mnemonic, rd, rs } => rd < 32 && rs < 32,
            Type::I16Format { mnemonic, rd, imm } => rd < 32 && imm < 32,
            Type::I32Format { mnemonic, rd, rs, imm } => rd < 32 && rs < 32,
            Type::JFormat { mnemonic, rd, imm } => rd < 32,
        }
    }

    /// Tests whether the operands are usable.
    pub fn well_formed(&self) -> (b: bool)
        ensures
            b == self.wf(),
    {
        match self {
            Type::RFormat { mnemonic: _, rd, rs } => *rd < 32 && *rs < 32,
            Type::I16Format { mnemonic: _, rd, imm } => *rd < 32 && *imm < 32,
            Type::I32Format { mnemonic: _, rd, rs, imm: _ } => *rd < 32 && *rs < 32,
            Type::JFormat { mnemonic: _, rd, imm: _ } => *rd < 32,
        }
    }

    /// The mnemonic of the record, whatever its format.
    pub open spec fn mnemonic(self) -> Mnemonic {
        match self {
            Type::RFormat { mnemonic, rd, rs } => mnemonic,
            Type::I16Format { mnemonic, rd, imm } => mnemonic,
            Type::I32Format { mnemonic, rd, rs, imm } => mnemonic,
            Type::JFormat { mnemonic, rd, imm } => mnemonic,
        }
    }

    /// The mnemonic is one that the record's format can carry, or `Unknown`.
    pub open spec fn consistent(self) -> bool {
        match self {
            Type::RFormat { mnemonic, rd, rs } => mnemonic.is_register_op() || mnemonic is Unknown,
            Type::I16Format { mnemonic, rd, imm } => mnemonic.is_shift_immediate(),
            Type::I32Format { mnemonic, rd, rs, imm } => mnemonic.is_immediate_op()
                || mnemonic is Unknown,
            Type::JFormat { mnemonic, rd, imm } => mnemonic.is_jump(),
        }
    }
}

} // verus!
