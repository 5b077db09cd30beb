//! Tests of the CPU configuration and the ELF image checks.

use rvcore::cpu::{Cpu, CpuConfig, ElfError, Registers, XRegister};
use rvcore::memory::{BufferDevice, Memory, MEMORY_SIZE};
use rvcore::RV64I;

#[test]
fn raw_config_starts_at_zero() {
    let mut config = CpuConfig::raw(vec![1, 2, 3]);
    assert_eq!(config.pc(), 0);
    assert_eq!(config.binary(), &vec![1, 2, 3]);
    assert_eq!(config.memory_size(), MEMORY_SIZE as u64);

    *config.pc_mut() = 0x100;
    assert_eq!(config.pc(), 0x100);
    *config.memory_mut() = 4096;
    assert_eq!(config.memory_size(), 4096);
}

#[test]
fn non_riscv_image_is_rejected() {
    // 0x3E is x86-64, not RISC-V.
    let r = CpuConfig::from_elf_image(0x3E, 0x1000, Some(vec![0x73]));
    assert!(matches!(r, Err(ElfError::InvalidMachine)));
}

#[test]
fn image_without_text_section_is_rejected() {
    let r = CpuConfig::from_elf_image(0xF3, 0x1000, None);
    assert!(matches!(r, Err(ElfError::NoTextSection)));
}

#[test]
fn riscv_image_is_accepted() {
    let config = CpuConfig::from_elf_image(0xF3, 0x8000_0000, Some(vec![0x13, 0x00])).unwrap();
    assert_eq!(config.pc(), 0x8000_0000);
    assert_eq!(config.binary(), &vec![0x13, 0x00]);
}

#[test]
fn elf_error_messages() {
    assert_eq!(
        ElfError::InvalidMachine.message(),
        "only RISC-V files are supported."
    );
    assert_eq!(ElfError::NoTextSection.message(), "there's no .text section in the file");
    assert_eq!(ElfError::InvalidMagic.message(), "invalid magic number");
}

#[test]
fn cpu_holds_its_parts() {
    let mut regs = Registers::<RV64I>::new();
    regs.write_x(XRegister(1), 42);
    let memory = Memory::<RV64I, BufferDevice>::with_size(64);
    let mut cpu = Cpu::new(regs, memory);
    assert_eq!(cpu.registers().read_x(XRegister(1)), 42);
    cpu.memory_mut().write_u8(0, 9);
    assert_eq!(cpu.memory().read_u8(0), 9);
    cpu.registers_mut().write_x(XRegister(2), 7);
    assert_eq!(cpu.registers().read_x(XRegister(2)), 7);
}
