//! Parsing of RISC-V instructions.
//!
//! The low seven bits of a raw word select the opcode; the opcode selects
//! one of the six encoding types, and type-specific field extraction then
//! yields the operands and the mnemonic. Decoding is pure: a given raw
//! word and base always produce the same record.

use vstd::prelude::*;

use super::{Instruction, Kind, Variant};
use crate::cpu::XRegister;
use crate::Base;

verus! {

/// The encoding type that an opcode selects.
#[derive(Debug, Clone, Copy, PartialEq, Eq, Structural)]
pub enum Type {
    R,
    I,
    S,
    B,
    U,
    J,
}

/// The opcode dispatch table: which encoding type a low-7-bit opcode
/// selects, or `None` for a slot that holds no supported instruction.
pub open spec fn spec_instruction_type(opcode: u32) -> Option<Type> {
    if opcode == 0b000_0011 || opcode == 0b000_1111 || opcode == 0b001_0011 || opcode
        == 0b001_1011 || opcode == 0b110_0111 || opcode == 0b111_0011 {
        Some(Type::I)
    } else if opcode == 0b001_0111 || opcode == 0b011_0111 {
        Some(Type::U)
    } else if opcode == 0b011_0011 || opcode == 0b011_1011 {
        Some(Type::R)
    } else if opcode == 0b010_0011 {
        Some(Type::S)
    } else if opcode == 0b110_0011 {
        Some(Type::B)
    } else if opcode == 0b110_1111 {
        Some(Type::J)
    } else {
        None
    }
}

fn instruction_type(opcode: u32) -> (r: Option<Type>)
    ensures
        r == spec_instruction_type(opcode),
{
    match opcode {
        0b000_0011 | 0b000_1111 | 0b001_0011 | 0b001_1011 | 0b110_0111 | 0b111_0011 => Some(
            Type::I,
        ),
        0b001_0111 | 0b011_0111 => Some(Type::U),
        0b011_0011 | 0b011_1011 => Some(Type::R),
        0b010_0011 => Some(Type::S),
        0b110_0011 => Some(Type::B),
        0b110_1111 => Some(Type::J),
        _ => None,
    }
}

/// The (opcode, funct3) mnemonic table for the I type.
pub open spec fn spec_i_kind(rv64: bool, opcode: u32, funct3: u32) -> Option<Kind> {
    if opcode == 0b001_0011 && funct3 == 0b000 {
        Some(Kind::ADDI)
    } else if opcode == 0b001_0011 && funct3 == 0b010 {
        Some(Kind::SLTI)
    } else if opcode == 0b001_0011 && funct3 == 0b011 {
        Some(Kind::SLTIU)
    } else if opcode == 0b001_0011 && funct3 == 0b100 {
        Some(Kind::XORI)
    } else if opcode == 0b001_0011 && funct3 == 0b110 {
        Some(Kind::ORI)
    } else if opcode == 0b001_0011 && funct3 == 0b111 {
        Some(Kind::ANDI)
    } else if opcode == 0b000_0011 && funct3 == 0b000 {
        Some(Kind::LB)
    } else if opcode == 0b000_0011 && funct3 == 0b001 {
        Some(Kind::LH)
    } else if opcode == 0b000_0011 && funct3 == 0b010 {
        Some(Kind::LW)
    } else if opcode == 0b000_0011 && funct3 == 0b100 {
        Some(Kind::LBU)
    } else if opcode == 0b000_0011 && funct3 == 0b101 {
        Some(Kind::LHU)
    } else if opcode == 0b110_0111 && funct3 == 0b000 {
        Some(Kind::JALR)
    } else if opcode == 0b000_1111 && funct3 == 0b000 {
        Some(Kind::FENCE)
    } else if rv64 && opcode == 0b000_0011 && funct3 == 0b110 {
        Some(Kind::LWU)
    } else if rv64 && opcode == 0b000_0011 && funct3 == 0b011 {
        Some(Kind::LD)
    } else if rv64 && opcode == 0b000_1111 && funct3 == 0b001 {
        Some(Kind::FENCE_I)
    } else {
        None
    }
}

fn i_kind_get<B: Base>(opcode: u32, funct3: u32) -> (r: Option<Kind>)
    ensures
        r == spec_i_kind(B::spec_rv64(), opcode, funct3),
{
    let rv64 = B::supports_rv64();
    if opcode == 0b001_0011 && funct3 == 0b000 {
        Some(Kind::ADDI)
    } else if opcode == 0b001_0011 && funct3 == 0b010 {
        Some(Kind::SLTI)
    } else if opcode == 0b001_0011 && funct3 == 0b011 {
        Some(Kind::SLTIU)
    } else if opcode == 0b001_0011 && funct3 == 0b100 {
        Some(Kind::XORI)
    } else if opcode == 0b001_0011 && funct3 == 0b110 {
        Some(Kind::ORI)
    } else if opcode == 0b001_0011 && funct3 == 0b111 {
        Some(Kind::ANDI)
    } else if opcode == 0b000_0011 && funct3 == 0b000 {
        Some(Kind::LB)
    } else if opcode == 0b000_0011 && funct3 == 0b001 {
        Some(Kind::LH)
    } else if opcode == 0b000_0011 && funct3 == 0b010 {
        Some(Kind::LW)
    } else if opcode == 0b000_0011 && funct3 == 0b100 {
        Some(Kind::LBU)
    } else if opcode == 0b000_0011 && funct3 == 0b101 {
        Some(Kind::LHU)
    } else if opcode == 0b110_0111 && funct3 == 0b000 {
        Some(Kind::JALR)
    } else if opcode == 0b000_1111 && funct3 == 0b000 {
        Some(Kind::FENCE)
    } else if rv64 && opcode == 0b000_0011 && funct3 == 0b110 {
        Some(Kind::LWU)
    } else if rv64 && opcode == 0b000_0011 && funct3 == 0b011 {
        Some(Kind::LD)
    } else if rv64 && opcode == 0b000_1111 && funct3 == 0b001 {
        Some(Kind::FENCE_I)
    } else {
        None
    }
}

/// The (opcode, funct3) mnemonic table for the S type.
pub open spec fn spec_s_kind(rv64: bool, opcode: u32, funct3: u32) -> Option<Kind> {
    if opcode == 0b010_0011 && funct3 == 0b000 {
        Some(Kind::SB)
    } else if opcode == 0b010_0011 && funct3 == 0b001 {
        Some(Kind::SH)
    } else if opcode == 0b010_0011 && funct3 == 0b010 {
        Some(Kind::SW)
    } else if rv64 && opcode == 0b010_0011 && funct3 == 0b011 {
        Some(Kind::SD)
    } else {
        None
    }
}

fn s_kind_get<B: Base>(opcode: u32, funct3: u32) -> (r: Option<Kind>)
    ensures
        r == spec_s_kind(B::spec_rv64(), opcode, funct3),
{
    let rv64 = B::supports_rv64();
    if opcode == 0b010_0011 && funct3 == 0b000 {
        Some(Kind::SB)
    } else if opcode == 0b010_0011 && funct3 == 0b001 {
        Some(Kind::SH)
    } else if opcode == 0b010_0011 && funct3 == 0b010 {
        Some(Kind::SW)
    } else if rv64 && opcode == 0b010_0011 && funct3 == 0b011 {
        Some(Kind::SD)
    } else {
        None
    }
}

/// The (opcode, funct3, funct7) mnemonic table for the R type.
pub open spec fn spec_r_kind(rv64: bool, opcode: u32, funct3: u32, funct7: u32) -> Option<Kind> {
    if opcode == 0b011_0011 && funct3 == 0b000 && funct7 == 0b000_0000 {
        Some(Kind::ADD)
    } else if opcode == 0b011_0011 && funct3 == 0b000 && funct7 == 0b010_0000 {
        Some(Kind::SUB)
    } else if opcode == 0b011_0011 && funct3 == 0b001 && funct7 == 0b000_0000 {
        Some(Kind::SLL)
    } else if opcode == 0b011_0011 && funct3 == 0b010 && funct7 == 0b000_0000 {
        Some(Kind::SLT)
    } else if opcode == 0b011_0011 && funct3 == 0b011 && funct7 == 0b000_0000 {
        Some(Kind::SLTU)
    } else if opcode == 0b011_0011 && funct3 == 0b100 && funct7 == 0b000_0000 {
        Some(Kind::XOR)
    } else if opcode == 0b011_0011 && funct3 == 0b101 && funct7 == 0b000_0000 {
        Some(Kind::SRL)
    } else if opcode == 0b011_0011 && funct3 == 0b101 && funct7 == 0b010_0000 {
        Some(Kind::SRA)
    } else if opcode == 0b011_0011 && funct3 == 0b110 && funct7 == 0b000_0000 {
        Some(Kind::OR)
    } else if opcode == 0b011_0011 && funct3 == 0b111 && funct7 == 0b000_0000 {
        Some(Kind::AND)
    } else if rv64 && opcode == 0b011_1011 && funct3 == 0b000 && funct7 == 0b000_0000 {
        Some(Kind::ADDW)
    } else if rv64 && opcode == 0b011_1011 && funct3 == 0b000 && funct7 == 0b010_0000 {
        Some(Kind::SUBW)
    } else if rv64 && opcode == 0b011_1011 && funct3 == 0b001 && funct7 == 0b000_0000 {
        Some(Kind::SLLW)
    } else if rv64 && opcode == 0b011_1011 && funct3 == 0b101 && funct7 == 0b000_0000 {
        Some(Kind::SRLW)
    } else if rv64 && opcode == 0b011_1011 && funct3 == 0b101 && funct7 == 0b100_0000 {
        Some(Kind::SRAW)
    } else {
        None
    }
}

fn r_kind_get<B: Base>(opcode: u32, funct3: u32, funct7: u32) -> (r: Option<Kind>)
    ensures
        r == spec_r_kind(B::spec_rv64(), opcode, funct3, funct7),
{
    let rv64 = B::supports_rv64();
    if opcode == 0b011_0011 && funct3 == 0b000 && funct7 == 0b000_0000 {
        Some(Kind::ADD)
    } else if opcode == 0b011_0011 && funct3 == 0b000 && funct7 == 0b010_0000 {
        Some(Kind::SUB)
    } else if opcode == 0b011_0011 && funct3 == 0b001 && funct7 == 0b000_0000 {
        Some(Kind::SLL)
    } else if opcode == 0b011_0011 && funct3 == 0b010 && funct7 == 0b000_0000 {
        Some(Kind::SLT)
    } else if opcode == 0b011_0011 && funct3 == 0b011 && funct7 == 0b000_0000 {
        Some(Kind::SLTU)
    } else if opcode == 0b011_0011 && funct3 == 0b100 && funct7 == 0b000_0000 {
        Some(Kind::XOR)
    } else if opcode == 0b011_0011 && funct3 == 0b101 && funct7 == 0b000_0000 {
        Some(Kind::SRL)
    } else if opcode == 0b011_0011 && funct3 == 0b101 && funct7 == 0b010_0000 {
        Some(Kind::SRA)
    } else if opcode == 0b011_0011 && funct3 == 0b110 && funct7 == 0b000_0000 {
        Some(Kind::OR)
    } else if opcode == 0b011_0011 && funct3 == 0b111 && funct7 == 0b000_0000 {
        Some(Kind::AND)
    } else if rv64 && opcode == 0b011_1011 && funct3 == 0b000 && funct7 == 0b000_0000 {
        Some(Kind::ADDW)
    } else if rv64 && opcode == 0b011_1011 && funct3 == 0b000 && funct7 == 0b010_0000 {
        Some(Kind::SUBW)
    } else if rv64 && opcode == 0b011_1011 && funct3 == 0b001 && funct7 == 0b000_0000 {
        Some(Kind::SLLW)
    } else if rv64 && opcode == 0b011_1011 && funct3 == 0b101 && funct7 == 0b000_0000 {
        Some(Kind::SRLW)
    } else if rv64 && opcode == 0b011_1011 && funct3 == 0b101 && funct7 == 0b100_0000 {
        Some(Kind::SRAW)
    } else {
        None
    }
}

/// The (opcode, funct3) mnemonic table for the B type.
pub open spec fn spec_b_kind(opcode: u32, funct3: u32) -> Option<Kind> {
    if opcode == 0b110_0011 && funct3 == 0b000 {
        Some(Kind::BEQ)
    } else if opcode == 0b110_0011 && funct3 == 0b001 {
        Some(Kind::BNE)
    } else if opcode == 0b110_0011 && funct3 == 0b100 {
        Some(Kind::BLT)
    } else if opcode == 0b110_0011 && funct3 == 0b101 {
        Some(Kind::BGE)
    } else if opcode == 0b110_0011 && funct3 == 0b110 {
        Some(Kind::BLTU)
    } else if opcode == 0b110_0011 && funct3 == 0b111 {
        Some(Kind::BGEU)
    } else {
        None
    }
}

fn b_kind_get(opcode: u32, funct3: u32) -> (r: Option<Kind>)
    ensures
        r == spec_b_kind(opcode, funct3),
{
    if opcode == 0b110_0011 && funct3 == 0b000 {
        Some(Kind::BEQ)
    } else if opcode == 0b110_0011 && funct3 == 0b001 {
        Some(Kind::BNE)
    } else if opcode == 0b110_0011 && funct3 == 0b100 {
        Some(Kind::BLT)
    } else if opcode == 0b110_0011 && funct3 == 0b101 {
        Some(Kind::BGE)
    } else if opcode == 0b110_0011 && funct3 == 0b110 {
        Some(Kind::BLTU)
    } else if opcode == 0b110_0011 && funct3 == 0b111 {
        Some(Kind::BGEU)
    } else {
        None
    }
}

/// Sign extension of a 12-bit quantity into a 32-bit signed value.
pub open spec fn spec_sext12(w: u32) -> i32 {
    if w & 0x800 != 0 {
        ((w as int) - 0x1000) as i32
    } else {
        w as i32
    }
}

/// Sign extension of a 13-bit quantity into a 32-bit signed value.
pub open spec fn spec_sext13(w: u32) -> i32 {
    if w & 0x1000 != 0 {
        ((w as int) - 0x2000) as i32
    } else {
        w as i32
    }
}

/// Sign extension of a 21-bit quantity into a 32-bit signed value.
pub open spec fn spec_sext21(w: u32) -> i32 {
    if w & 0x10_0000 != 0 {
        ((w as int) - 0x20_0000) as i32
    } else {
        w as i32
    }
}

/// The U-type immediate: bits \[31:12\] of the raw word, already in
/// their target position, interpreted signed.
pub open spec fn spec_u_val(inst: u32) -> i32 {
    let w = inst & 0xFFFF_F000;
    if w >= 0x8000_0000 {
        ((w as int) - 0x1_0000_0000) as i32
    } else {
        w as i32
    }
}

fn sext12(w: u32) -> (r: i32)
    requires
        w < 0x1000,
    ensures
        r == spec_sext12(w),
{
    if w & 0x800 != 0 {
        ((w as i64) - 0x1000) as i32
    } else {
        w as i32
    }
}

fn sext13(w: u32) -> (r: i32)
    requires
        w < 0x2000,
    ensures
        r == spec_sext13(w),
{
    if w & 0x1000 != 0 {
        ((w as i64) - 0x2000) as i32
    } else {
        w as i32
    }
}

fn sext21(w: u32) -> (r: i32)
    requires
        w < 0x20_0000,
    ensures
        r == spec_sext21(w),
{
    if w & 0x10_0000 != 0 {
        ((w as i64) - 0x20_0000) as i32
    } else {
        w as i32
    }
}

/// Any value masked down keeps at most the mask's bits.
proof fn lemma_mask_bound(x: u32, m: u32)
    by (bit_vector)
    ensures
        x & m <= m,
{
}

/// Decoding of an R-type word.
pub open spec fn spec_decode_r(rv64: bool, inst: u32) -> Option<Instruction> {
    let opcode = inst & 0x7F;
    let rs1 = (inst >> 15) & 0x1F;
    let rs2 = (inst >> 20) & 0x1F;
    let rd = (inst >> 7) & 0x1F;
    let funct3 = (inst >> 12) & 0x7;
    let funct7 = (inst >> 25) & 0x7F;
    match spec_r_kind(rv64, opcode, funct3, funct7) {
        None => None,
        Some(kind) => Some(
            Instruction {
                variant: Variant::R {
                    rd: XRegister(rd as u8),
                    rs1: XRegister(rs1 as u8),
                    rs2: XRegister(rs2 as u8),
                },
                kind,
                raw: inst,
            },
        ),
    }
}

/// Decoding of an I-type word, with its special cases in priority order:
/// the system opcode (ECALL / EBREAK), the RV64 W-form shifts, the
/// shift-immediate instructions, and the plain 12-bit immediates.
pub open spec fn spec_decode_i(rv64: bool, inst: u32) -> Option<Instruction> {
    let opcode = inst & 0x7F;
    let imm = (inst >> 20) & 0xFFF;
    let rs1 = (inst >> 15) & 0x1F;
    let funct3 = (inst >> 12) & 0x7;
    let rd = (inst >> 7) & 0x1F;
    if opcode == 0b111_0011 {
        Some(
            Instruction {
                variant: Variant::I { val: 0, rd: XRegister(0), rs1: XRegister(0) },
                kind: if imm == 0 {
                    Kind::ECALL
                } else {
                    Kind::EBREAK
                },
                raw: inst,
            },
        )
    } else if rv64 && opcode == 0b001_1011 {
        let shifttop = imm >> 5;
        let shamt = imm & 0x1F;
        let kind_opt = if funct3 == 0b000 {
            Some(Kind::ADDIW)
        } else if funct3 == 0b001 {
            Some(Kind::SLLIW)
        } else if funct3 == 0b101 && shifttop == 0 {
            Some(Kind::SRLIW)
        } else if funct3 == 0b101 {
            Some(Kind::SRAIW)
        } else {
            None
        };
        match kind_opt {
            None => None,
            Some(kind) => Some(
                Instruction {
                    variant: Variant::I {
                        val: shamt as i32,
                        rd: XRegister(rd as u8),
                        rs1: XRegister(rs1 as u8),
                    },
                    kind,
                    raw: inst,
                },
            ),
        }
    } else if opcode == 0b001_0011 && (funct3 == 0b001 || funct3 == 0b101) {
        let shamt = if rv64 {
            imm & 0x3F
        } else {
            imm & 0x1F
        };
        let shifttop = if rv64 {
            imm >> 6
        } else {
            imm >> 5
        };
        let kind = if funct3 == 0b001 {
            Kind::SLLI
        } else if shifttop == 0 {
            Kind::SRLI
        } else {
            Kind::SRAI
        };
        Some(
            Instruction {
                variant: Variant::I {
                    val: shamt as i32,
                    rd: XRegister(rd as u8),
                    rs1: XRegister(rs1 as u8),
                },
                kind,
                raw: inst,
            },
        )
    } else {
        match spec_i_kind(rv64, opcode, funct3) {
            None => None,
            Some(kind) => Some(
                Instruction {
                    variant: Variant::I {
                        val: spec_sext12(imm),
                        rd: XRegister(rd as u8),
                        rs1: XRegister(rs1 as u8),
                    },
                    kind,
                    raw: inst,
                },
            ),
        }
    }
}

/// Decoding of an S-type word: the immediate is reassembled from
/// bits \[31:25\] and \[11:7\] and sign-extended as a 12-bit quantity.
pub open spec fn spec_decode_s(rv64: bool, inst: u32) -> Option<Instruction> {
    let opcode = inst & 0x7F;
    let imm = (((inst >> 25) & 0x7F) << 5) | ((inst >> 7) & 0x1F);
    let rs1 = (inst >> 15) & 0x1F;
    let rs2 = (inst >> 20) & 0x1F;
    let funct3 = (inst >> 12) & 0x7;
    match spec_s_kind(rv64, opcode, funct3) {
        None => None,
        Some(kind) => Some(
            Instruction {
                variant: Variant::S {
                    val: spec_sext12(imm),
                    rs1: XRegister(rs1 as u8),
                    rs2: XRegister(rs2 as u8),
                },
                kind,
                raw: inst,
            },
        ),
    }
}

/// Decoding of a B-type word: the interleaved immediate bits are
/// reassembled and sign-extended as a 13-bit quantity.
pub open spec fn spec_decode_b(inst: u32) -> Option<Instruction> {
    let opcode = inst & 0x7F;
    let imm12105 = (inst >> 25) & 0x7F;
    let imm4111 = (inst >> 7) & 0x1F;
    let imm12 = (imm12105 & 0x40) >> 6;
    let imm105 = imm12105 & 0x3F;
    let imm41 = (imm4111 & 0x1E) >> 1;
    let imm11 = imm4111 & 0x1;
    let imm = (imm12 << 12) | (imm11 << 11) | (imm105 << 5) | (imm41 << 1);
    let rs1 = (inst >> 15) & 0x1F;
    let rs2 = (inst >> 20) & 0x1F;
    let funct3 = (inst >> 12) & 0x7;
    match spec_b_kind(opcode, funct3) {
        None => None,
        Some(kind) => Some(
            Instruction {
                variant: Variant::B {
                    val: spec_sext13(imm),
                    rs1: XRegister(rs1 as u8),
                    rs2: XRegister(rs2 as u8),
                },
                kind,
                raw: inst,
            },
        ),
    }
}

/// Decoding of a U-type word.
pub open spec fn spec_decode_u(inst: u32) -> Option<Instruction> {
    let opcode = inst & 0x7F;
    let rd = (inst >> 7) & 0x1F;
    let kind_opt = if opcode == 0b011_0111 {
        Some(Kind::LUI)
    } else if opcode == 0b001_0111 {
        Some(Kind::AUIPC)
    } else {
        None
    };
    match kind_opt {
        None => None,
        Some(kind) => Some(
            Instruction {
                variant: Variant::U { val: spec_u_val(inst), rd: XRegister(rd as u8) },
                kind,
                raw: inst,
            },
        ),
    }
}

/// Decoding of a J-type word: the interleaved immediate bits are
/// reassembled and sign-extended as a 21-bit quantity.
pub open spec fn spec_decode_j(inst: u32) -> Option<Instruction> {
    let opcode = inst & 0x7F;
    let imm = (inst & 0xFFFF_F000) >> 12;
    let rd = (inst >> 7) & 0x1F;
    let imm20 = (imm >> 19) & 0x1;
    let imm101 = (imm >> 9) & 0x3FF;
    let imm11 = (imm >> 8) & 0x1;
    let imm1912 = imm & 0xFF;
    let w = (imm20 << 20) | (imm1912 << 12) | (imm11 << 11) | (imm101 << 1);
    if opcode == 0b110_1111 {
        Some(
            Instruction {
                variant: Variant::J { val: spec_sext21(w), rd: XRegister(rd as u8) },
                kind: Kind::JAL,
                raw: inst,
            },
        )
    } else {
        None
    }
}

/// Decoding of a word whose opcode selects the given encoding type.
pub open spec fn spec_decode_typed(rv64: bool, t: Type, inst: u32) -> Option<Instruction> {
    match t {
        Type::R => spec_decode_r(rv64, inst),
        Type::I => spec_decode_i(rv64, inst),
        Type::S => spec_decode_s(rv64, inst),
        Type::B => spec_decode_b(inst),
        Type::U => spec_decode_u(inst),
        Type::J => spec_decode_j(inst),
    }
}

/// What [`decode`] returns for a raw word on a base with the given
/// RV64 support: the opcode's table slot selects the encoding type,
/// and the type-specific extraction gives the record, or nothing
/// when the word is not a legal encoding of a supported instruction.
pub open spec fn spec_decode(rv64: bool, inst: u32) -> Option<Instruction> {
    match spec_instruction_type(inst & 0x7F) {
        None => None,
        Some(t) => spec_decode_typed(rv64, t, inst),
    }
}

impl Type {
    /// Decodes the operand fields of `inst` according to this
    /// encoding type.
    pub fn decode<B: Base>(&self, inst: u32) -> (r: Option<Instruction>)
        ensures
            r == spec_decode_typed(B::spec_rv64(), *self, inst),
    {
        let opcode = inst & 0x7F;

        match self {
            Type::R => {
                let rs1 = (inst >> 15) & 0x1F;
                let rs2 = (inst >> 20) & 0x1F;
                let rd = (inst >> 7) & 0x1F;
                let funct3 = (inst >> 12) & 0x7;
                let funct7 = (inst >> 25) & 0x7F;
                proof {
                    lemma_mask_bound(inst >> 15, 0x1F);
                    lemma_mask_bound(inst >> 20, 0x1F);
                    lemma_mask_bound(inst >> 7, 0x1F);
                }

                match r_kind_get::<B>(opcode, funct3, funct7) {
                    None => None,
                    Some(kind) => Some(
                        Instruction {
                            variant: Variant::R {
                                rd: XRegister(rd as u8),
                                rs1: XRegister(rs1 as u8),
                                rs2: XRegister(rs2 as u8),
                            },
                            kind,
                            raw: inst,
                        },
                    ),
                }
            },
            Type::I => {
                let imm = (inst >> 20) & 0xFFF;
                let rs1 = (inst >> 15) & 0x1F;
                let funct3 = (inst >> 12) & 0x7;
                let rd = (inst >> 7) & 0x1F;
                proof {
                    lemma_mask_bound(inst >> 20, 0xFFF);
                    lemma_mask_bound(inst >> 15, 0x1F);
                    lemma_mask_bound(inst >> 7, 0x1F);
                }

                // ECALL and EBREAK instructions
                if opcode == 0b111_0011 {
                    let kind = if imm == 0 {
                        Kind::ECALL
                    } else {
                        Kind::EBREAK
                    };
                    return Some(
                        Instruction {
                            variant: Variant::I { val: 0, rd: XRegister(0), rs1: XRegister(0) },
                            kind,
                            raw: inst,
                        },
                    );
                } else if B::supports_rv64() && opcode == 0b001_1011 {
                    let shifttop = imm >> 5;
                    let shamt = imm & 0x1F;

                    let kind = if funct3 == 0b000 {
                        Kind::ADDIW
                    } else if funct3 == 0b001 {
                        Kind::SLLIW
                    } else if funct3 == 0b101 && shifttop == 0 {
                        Kind::SRLIW
                    } else if funct3 == 0b101 {
                        Kind::SRAIW
                    } else {
                        return None;
                    };
                    proof {
                        lemma_mask_bound(imm, 0x1F);
                    }

                    return Some(
                        Instruction {
                            variant: Variant::I {
                                val: shamt as i32,
                                rd: XRegister(rd as u8),
                                rs1: XRegister(rs1 as u8),
                            },
                            kind,
                            raw: inst,
                        },
                    );
                }
                if opcode == 0b001_0011 && (funct3 == 0b001 || funct3 == 0b101) {
                    // In the case of a shift operation, the `imm` value
                    // represents the shift amount.
                    let shamt = if B::supports_rv64() {
                        imm & 0x3F
                    } else {
                        imm & 0x1F
                    };
                    let shifttop = if B::supports_rv64() {
                        imm >> 6
                    } else {
                        imm >> 5
                    };
                    let kind = if funct3 == 0b001 {
                        Kind::SLLI
                    } else if shifttop == 0 {
                        Kind::SRLI
                    } else {
                        Kind::SRAI
                    };
                    proof {
                        lemma_mask_bound(imm, 0x3F);
                        lemma_mask_bound(imm, 0x1F);
                    }
                    Some(
                        Instruction {
                            variant: Variant::I {
                                val: shamt as i32,
                                rd: XRegister(rd as u8),
                                rs1: XRegister(rs1 as u8),
                            },
                            kind,
                            raw: inst,
                        },
                    )
                } else {
                    // Sign extend the immediate
                    match i_kind_get::<B>(opcode, funct3) {
                        None => None,
                        Some(kind) => Some(
                            Instruction {
                                variant: Variant::I {
                                    val: sext12(imm),
                                    rd: XRegister(rd as u8),
                                    rs1: XRegister(rs1 as u8),
                                },
                                kind,
                                raw: inst,
                            },
                        ),
                    }
                }
            },
            Type::S => {
                let imm = (((inst >> 25) & 0x7F) << 5) | ((inst >> 7) & 0x1F);
                let rs1 = (inst >> 15) & 0x1F;
                let rs2 = (inst >> 20) & 0x1F;
                let funct3 = (inst >> 12) & 0x7;
                proof {
                    lemma_mask_bound(inst >> 15, 0x1F);
                    lemma_mask_bound(inst >> 20, 0x1F);
                    assert((((inst >> 25) & 0x7F) << 5) | ((inst >> 7) & 0x1F) < 0x1000)
                        by (bit_vector);
                }

                match s_kind_get::<B>(opcode, funct3) {
                    None => None,
                    Some(kind) => Some(
                        Instruction {
                            variant: Variant::S {
                                val: sext12(imm),
                                rs1: XRegister(rs1 as u8),
                                rs2: XRegister(rs2 as u8),
                            },
                            kind,
                            raw: inst,
                        },
                    ),
                }
            },
            Type::B => {
                let imm12105 = (inst >> 25) & 0x7F;
                let imm4111 = (inst >> 7) & 0x1F;

                let imm12 = (imm12105 & 0x40) >> 6;
                let imm105 = imm12105 & 0x3F;
                let imm41 = (imm4111 & 0x1E) >> 1;
                let imm11 = imm4111 & 0x1;

                let imm = (imm12 << 12) | (imm11 << 11) | (imm105 << 5) | (imm41 << 1);

                let rs1 = (inst >> 15) & 0x1F;
                let rs2 = (inst >> 20) & 0x1F;
                let funct3 = (inst >> 12) & 0x7;
                proof {
                    lemma_mask_bound(inst >> 15, 0x1F);
                    lemma_mask_bound(inst >> 20, 0x1F);
                    assert({
                        let j12105 = (inst >> 25) & 0x7F;
                        let j4111 = (inst >> 7) & 0x1F;
                        ((((j12105 & 0x40) >> 6) << 12) | ((j4111 & 0x1) << 11) | ((j12105 & 0x3F)
                            << 5) | (((j4111 & 0x1E) >> 1) << 1)) < 0x2000
                    }) by (bit_vector);
                }

                match b_kind_get(opcode, funct3) {
                    None => None,
                    Some(kind) => Some(
                        Instruction {
                            variant: Variant::B {
                                val: sext13(imm),
                                rs1: XRegister(rs1 as u8),
                                rs2: XRegister(rs2 as u8),
                            },
                            kind,
                            raw: inst,
                        },
                    ),
                }
            },
            Type::U => {
                let rd = (inst >> 7) & 0x1F;
                let w = inst & 0xFFFF_F000;
                proof {
                    lemma_mask_bound(inst >> 7, 0x1F);
                }

                let kind = if opcode == 0b011_0111 {
                    Kind::LUI
                } else if opcode == 0b001_0111 {
                    Kind::AUIPC
                } else {
                    return None;
                };

                let val = if w >= 0x8000_0000 {
                    ((w as i64) - 0x1_0000_0000) as i32
                } else {
                    w as i32
                };
                Some(
                    Instruction {
                        variant: Variant::U { val, rd: XRegister(rd as u8) },
                        kind,
                        raw: inst,
                    },
                )
            },
            Type::J => {
                let imm = (inst & 0xFFFF_F000) >> 12;
                let rd = (inst >> 7) & 0x1F;

                let imm20 = (imm >> 19) & 0x1;
                let imm101 = (imm >> 9) & 0x3FF;
                let imm11 = (imm >> 8) & 0x1;
                let imm1912 = imm & 0xFF;

                let w = (imm20 << 20) | (imm1912 << 12) | (imm11 << 11) | (imm101 << 1);
                proof {
                    lemma_mask_bound(inst >> 7, 0x1F);
                    assert({
                        let j = (inst & 0xFFFF_F000) >> 12;
                        ((((j >> 19) & 0x1) << 20) | ((j & 0xFF) << 12) | (((j >> 8) & 0x1) << 11)
                            | (((j >> 9) & 0x3FF) << 1)) < 0x20_0000
                    }) by (bit_vector);
                }

                if opcode == 0b110_1111 {
                    Some(
                        Instruction {
                            variant: Variant::J { val: sext21(w), rd: XRegister(rd as u8) },
                            kind: Kind::JAL,
                            raw: inst,
                        },
                    )
                } else {
                    None
                }
            },
        }
    }
}

/// Decodes a raw 32bit instruction.
///
/// Returns `None` when the raw word is not a legal encoding of any
/// supported instruction on the base `B`; the executor elevates this
/// to an illegal-instruction trap.
///
/// See the [`spec`] for more information on how to decode instructions.
///
/// [`spec`]: https://riscv.org/specifications/isa-spec-pdf/
pub fn decode<B: Base>(raw_inst: u32) -> (r: Option<Instruction>)
    ensures
        r == spec_decode(B::spec_rv64(), raw_inst),
{
    let opcode = raw_inst & 0x7F;

    match instruction_type(opcode) {
        None => None,
        Some(t) => t.decode::<B>(raw_inst),
    }
}

/// For any raw word whose low-7 opcode has an empty table slot,
/// decoding yields nothing, on either base.
pub proof fn lemma_decode_unknown_opcode(rv64: bool, raw: u32)
    requires
        spec_instruction_type(raw & 0x7F) is None,
    ensures
        spec_decode(rv64, raw) is None,
{
}

/// Whether a kind belongs to the RV64-only part of the mnemonic
/// tables (the W-form instructions together with LD, SD, LWU and
/// FENCE.I).
pub open spec fn spec_rv64_only_kind(k: Kind) -> bool {
    match k {
        Kind::LWU | Kind::LD | Kind::SD | Kind::FENCE_I | Kind::ADDIW | Kind::SLLIW | Kind::SRLIW
            | Kind::SRAIW | Kind::ADDW | Kind::SUBW | Kind::SLLW | Kind::SRLW | Kind::SRAW => true,
        _ => false,
    }
}

/// On an RV32I base the decoder never produces an RV64-only mnemonic,
/// and any raw word that decodes to one on an RV64I base yields
/// nothing on an RV32I base.
pub proof fn lemma_rv32_excludes_rv64_kinds(raw: u32)
    ensures
        spec_decode(false, raw) matches Some(i) ==> !spec_rv64_only_kind(i.kind),
        (spec_decode(true, raw) matches Some(i) && spec_rv64_only_kind(i.kind)) ==> spec_decode(
            false,
            raw,
        ) is None,
{
}

} // verus!

