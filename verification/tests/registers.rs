//! Register-file tests: the hardwired zero register, ordinary
//! register slots, the read-only CSRs, and the program counter.

use rvcore::cpu::{CsrRegister, Registers, XRegister};
use rvcore::{RV32I, RV64I};

#[test]
fn x0_is_hardwired_to_zero() {
    let mut regs = Registers::<RV64I>::new();
    regs.write_x(XRegister(0), 0xDEAD_BEEF);
    assert_eq!(regs.read_x(XRegister(0)), 0);
}

#[test]
fn general_registers_hold_written_values() {
    let mut regs = Registers::<RV64I>::new();
    for i in 1..32u8 {
        regs.write_x(XRegister(i), 0x100 + i as u64);
    }
    for i in 1..32u8 {
        assert_eq!(regs.read_x(XRegister(i)), 0x100 + i as u64);
    }
}

#[test]
fn registers_start_at_zero() {
    let regs = Registers::<RV32I>::new();
    for i in 0..32u8 {
        assert_eq!(regs.read_x(XRegister(i)), 0);
    }
    assert_eq!(regs.pc(), 0);
    assert_eq!(regs.read_csr(CsrRegister(0x180)), 0);
}

#[test]
fn read_only_csrs_ignore_writes() {
    let mut regs = Registers::<RV64I>::new();
    for n in [0xF11u16, 0xF12, 0xF13, 0xF14] {
        regs.write_csr(CsrRegister(n), 0x1234);
        assert_eq!(regs.read_csr(CsrRegister(n)), 0);
    }
}

#[test]
fn writable_csrs_hold_written_values() {
    let mut regs = Registers::<RV64I>::new();
    regs.write_csr(CsrRegister(0x180), 0x8000_0000_0000_0123);
    assert_eq!(regs.read_csr(CsrRegister(0x180)), 0x8000_0000_0000_0123);
    regs.write_csr(CsrRegister(0xF10), 7);
    assert_eq!(regs.read_csr(CsrRegister(0xF10)), 7);
    regs.write_csr(CsrRegister(0xF15), 8);
    assert_eq!(regs.read_csr(CsrRegister(0xF15)), 8);
}

#[test]
fn pc_is_mutable_through_pc_mut() {
    let mut regs = Registers::<RV64I>::new();
    *regs.pc_mut() = 0x8000_0000;
    assert_eq!(regs.pc(), 0x8000_0000);
}

#[test]
fn rv32_registers_use_32_bit_values() {
    let mut regs = Registers::<RV32I>::new();
    regs.write_x(XRegister(2), 0xFFFF_FFFF);
    assert_eq!(regs.read_x(XRegister(2)), 0xFFFF_FFFFu32);
}
