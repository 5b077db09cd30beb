//! Instruction-related things, such as parsing instructions or data
//! structures that represent instructions.
//!
//! There are 6 ways (and some others that don't really matter right now)
//! to encode an instruction and its operands: R(egister), I(mmediate),
//! U(pper immediate), S(tore), B(ranch), J(ump).
//!
//! See the [`spec`] chapter 2.3 for more information.
//!
//! [`spec`]: https://riscv.org/specifications/isa-spec-pdf/

use vstd::prelude::*;

pub mod parse;
pub mod render;

pub use parse::decode;

use crate::cpu::XRegister;
use render::{
    decimal_u8, hex_u32, i32_bits, spec_decimal, spec_hex, spec_i32_bits,
};

verus! {

/// A general RISC-V instruction composed of a [`Variant`],
/// a [`Kind`] and the raw instruction bytes.
#[derive(Debug, Clone, Copy, PartialEq, Eq, Structural)]
pub struct Instruction {
    /// The operands of this `Instruction`
    pub variant: Variant,
    /// The `Kind` of this instruction (e.g. `ld`, `addi`, `jal`)
    pub kind: Kind,
    /// The raw bytes of this instruction.
    pub raw: u32,
}

/// The different encoding variants for immediate values.
///
/// Details can be found in chapter 2.3 in the [`spec`].
///
/// [`spec`]: https://riscv.org/specifications/isa-spec-pdf/
#[derive(Debug, Clone, Copy, PartialEq, Eq, Structural)]
pub enum Variant {
    /// The R(egister) variant is used to process data from two
    /// source registers, and store the result in a destination register.
    R {
        /// Destination
        rd: XRegister,
        /// Source 1
        rs1: XRegister,
        /// Source 2
        rs2: XRegister,
    },
    /// The I(mmediate) variant is used to process data from a register
    /// and an immediate value, and store the result in a destination register.
    I {
        /// Immediate
        val: i32,
        /// Destination
        rd: XRegister,
        /// Source 1
        rs1: XRegister,
    },
    /// The S(tore) variant is used to store data to some memory
    /// address.
    S {
        /// Immediate
        val: i32,
        /// Source 1
        rs1: XRegister,
        /// Source 2
        rs2: XRegister,
    },
    /// The B(ranch) variant is used to compare two registers
    /// and then jump to a relative address if some condition is true.
    B {
        /// The relative offset encoded in multiples of 2 bytes.
        ///
        /// The conditional branch range is ±4 KiB.
        val: i32,
        /// Source 1
        rs1: XRegister,
        /// Source 2
        rs2: XRegister,
    },
    /// The U(pper immediate) variant is like immediate, but without
    /// a source register and just a destination register and immediate
    /// value.
    U {
        /// Immediate
        val: i32,
        /// Destination
        rd: XRegister,
    },
    /// The J(ump) variant is used for unconditional jumps to provide
    /// a larger branch range (±1 MiB).
    J {
        /// The relative offset encoded in multiples of 2 bytes.
        val: i32,
        /// Destination
        rd: XRegister,
    },
}

/// A `Kind` represents any instruction kind (e.g `ld`, `addi`, etc).
#[allow(non_camel_case_types)]
#[derive(Debug, Clone, Copy, PartialEq, Eq, Structural)]
pub enum Kind {
    ADDI,
    SLTI,
    SLTIU,
    ANDI,
    ORI,
    XORI,
    SLLI,
    SRLI,
    SRAI,
    ADD,
    SLT,
    SLTU,
    AND,
    OR,
    XOR,
    SLL,
    SLR,
    SUB,
    SRL,
    SRA,
    LUI,
    AUIPC,
    JAL,
    JALR,
    BEQ,
    BNE,
    BLT,
    BGE,
    BLTU,
    BGEU,
    LW,
    LH,
    LB,
    LHU,
    LBU,
    SW,
    SH,
    SB,
    FENCE,
    FENCE_I,
    ECALL,
    EBREAK,
    LWU,
    LD,
    SD,
    ADDIW,
    SLLIW,
    SRLIW,
    SRAIW,
    ADDW,
    SUBW,
    SLLW,
    SRLW,
    SRAW,
}

/// The mnemonic of an instruction kind.
pub open spec fn spec_kind_text(k: Kind) -> Seq<char> {
    match k {
        Kind::ADDI => "addi"@,
        Kind::SLTI => "slti"@,
        Kind::SLTIU => "sltiu"@,
        Kind::ANDI => "andi"@,
        Kind::ORI => "ori"@,
        Kind::XORI => "xori"@,
        Kind::SLLI => "slli"@,
        Kind::SRLI => "srli"@,
        Kind::SRAI => "srai"@,
        Kind::ADD => "add"@,
        Kind::SLT => "slt"@,
        Kind::SLTU => "sltu"@,
        Kind::AND => "and"@,
        Kind::OR => "or"@,
        Kind::XOR => "xor"@,
        Kind::SLL => "sll"@,
        Kind::SLR => "slr"@,
        Kind::SUB => "sub"@,
        Kind::SRL => "srl"@,
        Kind::SRA => "sra"@,
        Kind::LUI => "lui"@,
        Kind::AUIPC => "auipc"@,
        Kind::JAL => "jal"@,
        Kind::JALR => "jalr"@,
        Kind::BEQ => "beq"@,
        Kind::BNE => "bne"@,
        Kind::BLT => "blt"@,
        Kind::BGE => "bge"@,
        Kind::BLTU => "bltu"@,
        Kind::BGEU => "bgeu"@,
        Kind::LW => "lw"@,
        Kind::LH => "lh"@,
        Kind::LB => "lb"@,
        Kind::LHU => "lhu"@,
        Kind::LBU => "lbu"@,
        Kind::SW => "sw"@,
        Kind::SH => "sh"@,
        Kind::SB => "sb"@,
        Kind::FENCE => "fence"@,
        Kind::FENCE_I => "fence_i"@,
        Kind::ECALL => "ecall"@,
        Kind::EBREAK => "ebreak"@,
        Kind::LWU => "lwu"@,
        Kind::LD => "ld"@,
        Kind::SD => "sd"@,
        Kind::ADDIW => "addiw"@,
        Kind::SLLIW => "slliw"@,
        Kind::SRLIW => "srliw"@,
        Kind::SRAIW => "sraiw"@,
        Kind::ADDW => "addw"@,
        Kind::SUBW => "subw"@,
        Kind::SLLW => "sllw"@,
        Kind::SRLW => "srlw"@,
        Kind::SRAW => "sraw"@,
    }
}

/// How the operands of a variant are shown: register operands in
/// decimal with an `r` prefix, immediates in lowercase hexadecimal
/// (in the two's complement reading of their 32 bits).
pub open spec fn spec_variant_text(v: Variant) -> Seq<char> {
    match v {
        Variant::R { rd, rs1, rs2 } => "r"@ + spec_decimal(rd.0 as nat) + " r"@ + spec_decimal(
            rs1.0 as nat,
        ) + " r"@ + spec_decimal(rs2.0 as nat),
        Variant::I { val, rd, rs1 } => "r"@ + spec_decimal(rd.0 as nat) + " r"@ + spec_decimal(
            rs1.0 as nat,
        ) + " 0x"@ + spec_hex(spec_i32_bits(val)),
        Variant::S { val, rs1, rs2 } | Variant::B { val, rs1, rs2 } => "0x"@ + spec_hex(
            spec_i32_bits(val),
        ) + " r"@ + spec_decimal(rs1.0 as nat) + " r"@ + spec_decimal(rs2.0 as nat),
        Variant::U { val, rd } | Variant::J { val, rd } => "r"@ + spec_decimal(rd.0 as nat)
            + " 0x"@ + spec_hex(spec_i32_bits(val)),
    }
}

/// How a whole instruction is shown: the mnemonic, then (except for
/// the operand-less `ecall` / `ebreak`) a space and the operands.
pub open spec fn spec_instruction_text(i: Instruction) -> Seq<char> {
    match i.kind {
        Kind::ECALL | Kind::EBREAK => spec_kind_text(i.kind),
        _ => spec_kind_text(i.kind) + " "@ + spec_variant_text(i.variant),
    }
}

impl Kind {
    /// Renders the mnemonic of this kind.
    pub fn text(&self) -> (r: String)
        ensures
            r@ == spec_kind_text(*self),
    {
        match self {
            Kind::ADDI => String::from_str("addi"),
            Kind::SLTI => String::from_str("slti"),
            Kind::SLTIU => String::from_str("sltiu"),
            Kind::ANDI => String::from_str("andi"),
            Kind::ORI => String::from_str("ori"),
            Kind::XORI => String::from_str("xori"),
            Kind::SLLI => String::from_str("slli"),
            Kind::SRLI => String::from_str("srli"),
            Kind::SRAI => String::from_str("srai"),
            Kind::ADD => String::from_str("add"),
            Kind::SLT => String::from_str("slt"),
            Kind::SLTU => String::from_str("sltu"),
            Kind::AND => String::from_str("and"),
            Kind::OR => String::from_str("or"),
            Kind::XOR => String::from_str("xor"),
            Kind::SLL => String::from_str("sll"),
            Kind::SLR => String::from_str("slr"),
            Kind::SUB => String::from_str("sub"),
            Kind::SRL => String::from_str("srl"),
            Kind::SRA => String::from_str("sra"),
            Kind::LUI => String::from_str("lui"),
            Kind::AUIPC => String::from_str("auipc"),
            Kind::JAL => String::from_str("jal"),
            Kind::JALR => String::from_str("jalr"),
            Kind::BEQ => String::from_str("beq"),
            Kind::BNE => String::from_str("bne"),
            Kind::BLT => String::from_str("blt"),
            Kind::BGE => String::from_str("bge"),
            Kind::BLTU => String::from_str("bltu"),
            Kind::BGEU => String::from_str("bgeu"),
            Kind::LW => String::from_str("lw"),
            Kind::LH => String::from_str("lh"),
            Kind::LB => String::from_str("lb"),
            Kind::LHU => String::from_str("lhu"),
            Kind::LBU => String::from_str("lbu"),
            Kind::SW => String::from_str("sw"),
            Kind::SH => String::from_str("sh"),
            Kind::SB => String::from_str("sb"),
            Kind::FENCE => String::from_str("fence"),
            Kind::FENCE_I => String::from_str("fence_i"),
            Kind::ECALL => String::from_str("ecall"),
            Kind::EBREAK => String::from_str("ebreak"),
            Kind::LWU => String::from_str("lwu"),
            Kind::LD => String::from_str("ld"),
            Kind::SD => String::from_str("sd"),
            Kind::ADDIW => String::from_str("addiw"),
            Kind::SLLIW => String::from_str("slliw"),
            Kind::SRLIW => String::from_str("srliw"),
            Kind::SRAIW => String::from_str("sraiw"),
            Kind::ADDW => String::from_str("addw"),
            Kind::SUBW => String::from_str("subw"),
            Kind::SLLW => String::from_str("sllw"),
            Kind::SRLW => String::from_str("srlw"),
            Kind::SRAW => String::from_str("sraw"),
        }
    }
}

impl Variant {
    /// Renders the operands of this variant.
    pub fn text(&self) -> (r: String)
        ensures
            r@ == spec_variant_text(*self),
    {
        match self {
            Variant::R { rd, rs1, rs2 } => {
                let mut s = String::from_str("r");
                let d0 = decimal_u8(rd.0);
                s.append(d0.as_str());
                s.append(" r");
                let d1 = decimal_u8(rs1.0);
                s.append(d1.as_str());
                s.append(" r");
                let d2 = decimal_u8(rs2.0);
                s.append(d2.as_str());
                s
            },
            Variant::I { val, rd, rs1 } => {
                let mut s = String::from_str("r");
                let d0 = decimal_u8(rd.0);
                s.append(d0.as_str());
                s.append(" r");
                let d1 = decimal_u8(rs1.0);
                s.append(d1.as_str());
                s.append(" 0x");
                let h = hex_u32(i32_bits(*val));
                s.append(h.as_str());
                s
            },
            Variant::S { val, rs1, rs2 } | Variant::B { val, rs1, rs2 } => {
                let mut s = String::from_str("0x");
                let h = hex_u32(i32_bits(*val));
                s.append(h.as_str());
                s.append(" r");
                let d1 = decimal_u8(rs1.0);
                s.append(d1.as_str());
                s.append(" r");
                let d2 = decimal_u8(rs2.0);
                s.append(d2.as_str());
                s
            },
            Variant::U { val, rd } | Variant::J { val, rd } => {
                let mut s = String::from_str("r");
                let d0 = decimal_u8(rd.0);
                s.append(d0.as_str());
                s.append(" 0x");
                let h = hex_u32(i32_bits(*val));
                s.append(h.as_str());
                s
            },
        }
    }
}

impl Instruction {
    /// Renders this instruction in its assembly-like textual form.
    pub fn text(&self) -> (r: String)
        ensures
            r@ == spec_instruction_text(*self),
    {
        match self.kind {
            Kind::ECALL | Kind::EBREAK => self.kind.text(),
            _ => {
                let mut s = self.kind.text();
                s.append(" ");
                let v = self.variant.text();
                s.append(v.as_str());
                s
            },
        }
    }
}

} // verus!
