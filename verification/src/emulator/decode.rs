//! The instruction decoder: from a raw word to a decoded instruction.
//!
//! Both widths share the layout of their low 16 bits: the opcode in bits
//! 0 to 5, `rd` in bits 6 to 10, `rs` in bits 11 to 15. Bit 5, the top bit
//! of the opcode, tells the widths apart.

use vstd::prelude::*;
use crate::emulator::bits::{lemma_fields_16, lemma_fields_32, signed_value};
use crate::emulator::instruction::{Mnemonic, Type};
use crate::emulator::Emulator;

verus! {

/// Bits 0 to 5 of an instruction word.
pub open spec fn opcode_field(word: int) -> int {
    word % 64
}

/// Bits 6 to 10 of an instruction word.
pub open spec fn rd_field(word: int) -> int {
    (word / 64) % 32
}

/// Bits 11 to 15 of an instruction word.
pub open spec fn rs_field(word: int) -> int {
    (word / 2048) % 32
}

/// Bits 16 to 31 of a 32-bit instruction word, read as a two's complement
/// number.
pub open spec fn imm_i_field(word: int) -> int {
    signed_value(word / 0x1_0000, 0x1_0000)
}

/// Bits 11 to 31 of a 32-bit instruction word, read as a two's complement
/// number.
pub open spec fn imm_j_field(word: int) -> int {
    signed_value(word / 0x800, 0x20_0000)
}

/// The opcode table of the 16-bit instructions.
pub open spec fn mnemonic_16(opcode: int) -> Mnemonic {
    if opcode == 0b000000 {
        Mnemonic::Mov
    } else if opcode == 0b000001 {
        Mnemonic::Add
    } else if opcode == 0b000010 {
        Mnemonic::Sub
    } else if opcode == 0b000011 {
        Mnemonic::And
    } else if opcode == 0b000100 {
        Mnemonic::Or
    } else if opcode == 0b000101 {
        Mnemonic::Xor
    } else if opcode == 0b000110 {
        Mnemonic::Sll
    } else if opcode == 0b000111 {
        Mnemonic::Srl
    } else if opcode == 0b001000 {
        Mnemonic::Sra
    } else if opcode == 0b001001 {
        Mnemonic::Slt
    } else if opcode == 0b001010 {
        Mnemonic::Sltu
    } else if opcode == 0b010000 {
        Mnemonic::Slli
    } else if opcode == 0b010001 {
        Mnemonic::Srli
    } else if opcode == 0b010010 {
        Mnemonic::Srai
    } else {
        Mnemonic::Unknown
    }
}

/// The opcode table of the 32-bit instructions.
pub open spec fn mnemonic_32(opcode: int) -> Mnemonic {
    if opcode == 0b100000 {
        Mnemonic::Addi
    } else if opcode == 0b100001 {
        Mnemonic::Andi
    } else if opcode == 0b100010 {
        Mnemonic::Ori
    } else if opcode == 0b100011 {
        Mnemonic::Xori
    } else if opcode == 0b100100 {
        Mnemonic::Slti
    } else if opcode == 0b100101 {
        Mnemonic::Sltiu
    } else if opcode == 0b100110 {
        Mnemonic::Beq
    } else if opcode == 0b100111 {
        Mnemonic::Bnq
    } else if opcode == 0b101000 {
        Mnemonic::Blt
    } else if opcode == 0b101001 {
        Mnemonic::Bge
    } else if opcode == 0b101010 {
        Mnemonic::Bltu
    } else if opcode == 0b101011 {
        Mnemonic::Bgeu
    } else if opcode == 0b101100 {
        Mnemonic::Jalr
    } else if opcode == 0b101101 {
        Mnemonic::Lb
    } else if opcode == 0b101110 {
        Mnemonic::Lh
    } else if opcode == 0b101111 {
        Mnemonic::Lbu
    } else if opcode == 0b110000 {
        Mnemonic::Lhu
    } else if opcode == 0b110001 {
        Mnemonic::Lw
    } else if opcode == 0b110010 {
        Mnemonic::Lui
    } else if opcode == 0b110011 {
        Mnemonic::Sb
    } else if opcode == 0b110100 {
        Mnemonic::Sh
    } else if opcode == 0b110101 {
        Mnemonic::Sw
    } else if opcode == 0b111111 {
        Mnemonic::Jal
    } else {
        Mnemonic::Unknown
    }
}

/// The instruction that a 16-bit word encodes.
///
/// A shift by an immediate carries its shift amount where the other
/// instructions carry `rs`. A word whose opcode is not in the table is
/// `UNKNOWN` with all operands zero.
pub open spec fn decode_16_spec(word: u16) -> Type {
    let mnemonic = mnemonic_16(opcode_field(word as int));
    let rd = rd_field(word as int) as u8;
    let rs = rs_field(word as int) as u8;
    if mnemonic.is_register_op() {
        Type::RFormat { mnemonic, rd, rs }
    } else if mnemonic.is_shift_immediate() {
        Type::I16Format { mnemonic, rd, imm: rs }
    } else {
        Type::RFormat { mnemonic: Mnemonic::Unknown, rd: 0, rs: 0 }
    }
}

/// The instruction that a 32-bit word encodes.
///
/// A word whose opcode is not in the table is `UNKNOWN` with all operands
/// zero.
pub open spec fn decode_32_spec(word: u32) -> Type {
    let mnemonic = mnemonic_32(opcode_field(word as int));
    let rd = rd_field(word as int) as u8;
    let rs = rs_field(word as int) as u8;
    if mnemonic.is_immediate_op() {
        Type::I32Format { mnemonic, rd, rs, imm: imm_i_field(word as int) as i32 }
    } else if mnemonic.is_jump() {
        Type::JFormat { mnemonic, rd, imm: imm_j_field(word as int) as i32 }
    } else {
        Type::I32Format { mnemonic: Mnemonic::Unknown, rd: 0, rs: 0, imm: 0 }
    }
}

/// Every 16-bit word decodes to a well-formed record of a 16-bit format
/// whose mnemonic fits the format.
pub proof fn lemma_decode_16_total(word: u16)
    ensures
        decode_16_spec(word).wf(),
        decode_16_spec(word).consistent(),
        decode_16_spec(word) is RFormat || decode_16_spec(word) is I16Format,
{
}

/// Every 32-bit word decodes to a well-formed record of a 32-bit format
/// whose mnemonic fits the format, with its immediate in the range of the
/// field that carried it.
pub proof fn lemma_decode_32_total(word: u32)
    ensures
        decode_32_spec(word).wf(),
        decode_32_spec(word).consistent(),
        decode_32_spec(word) matches Type::I32Format { imm, .. } ==> -0x8000 <= imm < 0x8000,
        decode_32_spec(word) matches Type::JFormat { imm, .. } ==> -0x10_0000 <= imm < 0x10_0000,
        decode_32_spec(word) is I32Format || decode_32_spec(word) is JFormat,
{
}

/// The two opcode tables never claim the same opcode: every 16-bit
/// instruction has bit 5 of its opcode clear, every 32-bit instruction has
/// it set. So bit 5 of a fetched word tells how wide the instruction is.
pub proof fn lemma_width_bit_separates_tables(opcode: int)
    requires
        0 <= opcode < 64,
    ensures
        !(mnemonic_16(opcode) is Unknown) ==> opcode < 32,
        !(mnemonic_32(opcode) is Unknown) ==> opcode >= 32,
        mnemonic_16(opcode) is Unknown || mnemonic_32(opcode) is Unknown,
{
}

impl Emulator {
    /// Decodes a 32-bit instruction word.
    pub fn decode_32(word: u32) -> (inst: Type)
        ensures
            inst == decode_32_spec(word),
            inst.wf(),
    {
        proof {
            lemma_fields_32(word);
        }
        let opcode: u8 = (word & 0x0000003F) as u8;
        let rd: u8 = ((word & 0x000007C0) >> 6) as u8;
        let rs: u8 = ((word & 0x0000F800) >> 11) as u8;
        let imm_i: i32 = (#[verifier::truncate] ((word & 0xFFFF0000) as i32)) >> 16;
        let imm_j: i32 = (#[verifier::truncate] ((word & 0xFFFFF800) as i32)) >> 11;

        match opcode {
            0b100000 => Type::I32Format { mnemonic: Mnemonic::Addi, rd, rs, imm: imm_i },
            0b100001 => Type::I32Format { mnemonic: Mnemonic::Andi, rd, rs, imm: imm_i },
            0b100010 => Type::I32Format { mnemonic: Mnemonic::Ori, rd, rs, imm: imm_i },
            0b100011 => Type::I32Format { mnemonic: Mnemonic::Xori, rd, rs, imm: imm_i },
            0b100100 => Type::I32Format { mnemonic: Mnemonic::Slti, rd, rs, imm: imm_i },
            0b100101 => Type::I32Format { mnemonic: Mnemonic::Sltiu, rd, rs, imm: imm_i },
            0b100110 => Type::I32Format { mnemonic: Mnemonic::Beq, rd, rs, imm: imm_i },
            0b100111 => Type::I32Format { mnemonic: Mnemonic::Bnq, rd, rs, imm: imm_i },
            0b101000 => Type::I32Format { mnemonic: Mnemonic::Blt, rd, rs, imm: imm_i },
            0b101001 => Type::I32Format { mnemonic: Mnemonic::Bge, rd, rs, imm: imm_i },
            0b101010 => Type::I32Format { mnemonic: Mnemonic::Bltu, rd, rs, imm: imm_i },
            0b101011 => Type::I32Format { mnemonic: Mnemonic::Bgeu, rd, rs, imm: imm_i },
            0b101100 => Type::I32Format { mnemonic: Mnemonic::Jalr, rd, rs, imm: imm_i },
            0b101101 => Type::I32Format { mnemonic: Mnemonic::Lb, rd, rs, imm: imm_i },
            0b101110 => Type::I32Format { mnemonic: Mnemonic::Lh, rd, rs, imm: imm_i },
            0b101111 => Type::I32Format { mnemonic: Mnemonic::Lbu, rd, rs, imm: imm_i },
            0b110000 => Type::I32Format { mnemonic: Mnemonic::Lhu, rd, rs, imm: imm_i },
            0b110001 => Type::I32Format { mnemonic: Mnemonic::Lw, rd, rs, imm: imm_i },
            0b110010 => Type::I32Format { mnemonic: Mnemonic::Lui, rd, rs, imm: imm_i },
            0b110011 => Type::I32Format { mnemonic: Mnemonic::Sb, rd, rs, imm: imm_i },
            0b110100 => Type::I32Format { mnemonic: Mnemonic::Sh, rd, rs, imm: imm_i },
            0b110101 => Type::I32Format { mnemonic: Mnemonic::Sw, rd, rs, imm: imm_i },
            0b111111 => Type::JFormat { mnemonic: Mnemonic::Jal, rd, imm: imm_j },
            _ => Type::I32Format { mnemonic: Mnemonic::Unknown, rd: 0, rs: 0, imm: 0 },
        }
    }

    /// Decodes a 16-bit instruction word.
    pub fn decode_16(word: u16) -> (inst: Type)
        ensures
            inst == decode_16_spec(word),
            inst.wf(),
    {
        proof {
            lemma_fields_16(word);
        }
        let opcode: u8 = (word & 0x003F) as u8;
        let rd: u8 = ((word & 0x07C0) >> 6) as u8;
        let rs: u8 = ((word & 0xF800) >> 11) as u8;
        let imm: u8 = ((word & 0xF800) >> 11) as u8;

        match opcode {
            0b000000 => Type::RFormat { mnemonic: Mnemonic::Mov, rd, rs },
            0b000001 => Type::RFormat { mnemonic: Mnemonic::Add, rd, rs },
            0b000010 => Type::RFormat { mnemonic: Mnemonic::Sub, rd, rs },
            0b000011 => Type::RFormat { mnemonic: Mnemonic::And, rd, rs },
            0b000100 => Type::RFormat { mnemonic: Mnemonic::Or, rd, rs },
            0b000101 => Type::RFormat { mnemonic: Mnemonic::Xor, rd, rs },
            0b000110 => Type::RFormat { mnemonic: Mnemonic::Sll, rd, rs },
            0b000111 => Type::RFormat { mnemonic: Mnemonic::Srl, rd, rs },
            0b001000 => Type::RFormat { mnemonic: Mnemonic::Sra, rd, rs },
            0b001001 => Type::RFormat { mnemonic: Mnemonic::Slt, rd, rs },
            0b001010 => Type::RFormat { mnemonic: Mnemonic::Sltu, rd, rs },
            0b010000 => Type::I16Format { mnemonic: Mnemonic::Slli, rd, imm },
            0b010001 => Type::I16Format { mnemonic: Mnemonic::Srli, rd, imm },
            0b010010 => Type::I16Format { mnemonic: Mnemonic::Srai, rd, imm },
            _ => Type::RFormat { mnemonic: Mnemonic::Unknown, rd: 0, rs: 0 },
        }
    }
}

} // verus!
