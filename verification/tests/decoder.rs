//! Decoder tests: raw words against their textual rendering, and the
//! words the decoder must reject.

use rvcore::instruction::decode;
use rvcore::{RV32I, RV64I};

fn check(inst: u32, s: &str) {
    let decoded = decode::<RV64I>(inst);
    assert!(decoded.is_some());
    assert_eq!(&decoded.unwrap().text(), s);
}

#[test]
fn test_i_type() {
    check(0x0B040413, "addi r8 r8 0xb0");
    check(0xC00B4B13, "xori r22 r22 0xfffffc00");
    check(0x0407E793, "ori r15 r15 0x40");
    check(0x4807F713, "andi r14 r15 0x480");
    check(0x01093403, "ld r8 r18 0x10");
    check(0x00000073, "ecall");
    check(0x00269693, "slli r13 r13 0x2");
    check(0x000FD013, "srli r0 r31 0x0");
    check(0x400FD013, "srai r0 r31 0x0");
    check(0x4000D71B, "sraiw r14 r1 0x0");
    check(0x0010D71B, "srliw r14 r1 0x1");
}

#[test]
fn test_u_type() {
    check(0x00011537, "lui r10 0x11000");
    check(0xFFFFE6B7, "lui r13 0xffffe000");
}

#[test]
fn test_s_type() {
    check(0x00B70723, "sb 0xe r14 r11");
}

#[test]
fn test_r_type() {
    check(0x00E686B3, "add r13 r13 r14");
    check(0x40F70733, "sub r14 r14 r15");
    check(0x43F55513, "srai r10 r10 0x3f");
    check(0x0020873B, "addw r14 r1 r2");
}

#[test]
fn test_b_type() {
    check(0x040B8463, "beq 0x48 r23 r0");
    check(0x3EB51A63, "bne 0x3f4 r10 r11");
}

#[test]
fn test_j_type() {
    check(0x00C000EF, "jal r1 0xc");
}

#[test]
fn unknown_opcode_decodes_to_nothing() {
    // Low-7 opcode 0b1010101 has no table slot.
    assert!(decode::<RV64I>(0x0000_0055).is_none());
    assert!(decode::<RV32I>(0x0000_0055).is_none());
    // Opcode zero has no table slot either.
    assert!(decode::<RV64I>(0x0000_0000).is_none());
}

#[test]
fn unknown_funct_decodes_to_nothing() {
    // Opcode 0110011 (R type) with funct7 = 0b1111111 matches no
    // mnemonic.
    assert!(decode::<RV64I>(0xFE00_00B3).is_none());
}

#[test]
fn rv64_words_decode_to_nothing_on_rv32() {
    // addw r14 r1 r2
    assert!(decode::<RV32I>(0x0020873B).is_none());
    // ld r8 r18 0x10
    assert!(decode::<RV32I>(0x01093403).is_none());
    // sraiw r14 r1 0x0
    assert!(decode::<RV32I>(0x4000D71B).is_none());
}

#[test]
fn rv32_shift_amount_uses_low_five_bits() {
    // The same word that shifts by 0x3f on RV64 keeps only the low
    // five bits of the shift amount on RV32 (and the top bits still
    // select the arithmetic shift).
    let decoded = decode::<RV32I>(0x43F55513).unwrap();
    assert_eq!(&decoded.text(), "srai r10 r10 0x1f");
}

#[test]
fn ebreak_renders_without_operands() {
    let decoded = decode::<RV64I>(0x00100073).unwrap();
    assert_eq!(&decoded.text(), "ebreak");
}
