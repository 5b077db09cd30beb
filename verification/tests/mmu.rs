//! MMU tests: SATP decoding, PTE round trips, bare-mode identity
//! translation, a full Sv39 page walk, and the page-fault paths.

use rvcore::cpu::{CsrRegister, PrivilegeMode, Registers};
use rvcore::memory::mmu::{
    decode_satp_reg, AccessMode, AddressingMode, Mmu, PhysAddr, Sv32PagetableEntry, VirtAddr,
};
use rvcore::memory::{BufferDevice, Memory};
use rvcore::trap::Exception;
use rvcore::{RV32I, RV64I};

#[test]
fn decode_32_satp_reg() {
    // 0b1_100110111_1101110110101101110111u32;
    let raw = 0xCDF7_6B77u32;

    let (mode, asid, ppn) = decode_satp_reg::<RV32I>(raw);
    assert_eq!(mode, 0x1);
    assert_eq!(asid, 0x137);
    assert_eq!(ppn, 0x376B77);
}

#[test]
fn decode_64_satp_reg() {
    // 0b1000_1001110001110011_10100111010001011010010101010100101110111011
    let raw = 0x89C7_3A74_5A55_4BBBu64;

    let (mode, asid, ppn) = decode_satp_reg::<RV64I>(raw);
    assert_eq!(mode, 0x8);
    assert_eq!(asid, 0x9C73);
    assert_eq!(ppn, 0xA74_5A55_4BBB);
}

#[test]
fn test_pte() {
    let num = 0xBAB0C127u32;
    let pte = Sv32PagetableEntry::from_raw(num);
    assert_eq!(pte.to_raw(), num);
}

#[test]
fn bare_mode_translates_identically() {
    let regs = Registers::<RV64I>::new();
    let mmu = Mmu::new(&regs);
    let mut mem = Memory::<RV64I, BufferDevice>::with_size(4096);
    for va in [0u64, 0x1234, 0xFFFF_FFFF_FFFF_FFFF] {
        assert_eq!(
            mmu.translate(&mut mem, VirtAddr(va), AccessMode::Read, PrivilegeMode::Machine),
            Ok(PhysAddr(va))
        );
        assert_eq!(
            mmu.translate(&mut mem, VirtAddr(va), AccessMode::Write, PrivilegeMode::User),
            Ok(PhysAddr(va))
        );
    }
}

fn sv39_mmu(regs: &mut Registers<RV64I>, root_ppn: u64) -> Mmu<RV64I> {
    let satp = (8u64 << 60) | root_ppn;
    regs.write_csr(CsrRegister(0x180), satp);
    Mmu::new(regs)
}

#[test]
fn sv39_three_level_walk() {
    let mut regs = Registers::<RV64I>::new();
    let mmu = sv39_mmu(&mut regs, 0);
    let mut mem = Memory::<RV64I, BufferDevice>::with_size(0x4000);

    // Root table at physical page 0: entry 0 points at page 1.
    mem.write_u64(0x0000u64, (1 << 10) | 0x01);
    // Mid-level table at page 1: entry 0 points at page 2.
    mem.write_u64(0x1000u64, (2 << 10) | 0x01);
    // Leaf table at page 2: entry 0 maps the page to physical page 3
    // with V, R, W and U set.
    mem.write_u64(0x2000u64, (3 << 10) | 0x17);

    let r = mmu.translate(&mut mem, VirtAddr(0), AccessMode::Read, PrivilegeMode::User);
    assert_eq!(r, Ok(PhysAddr(3 * 4096)));

    // The page offset is copied verbatim.
    let r = mmu.translate(&mut mem, VirtAddr(0xABC), AccessMode::Read, PrivilegeMode::User);
    assert_eq!(r, Ok(PhysAddr(3 * 4096 + 0xABC)));

    // The hardware update set the accessed bit of the leaf PTE.
    assert_eq!(mem.read_u64(0x2000u64), (3 << 10) | 0x57);

    // A write also sets the dirty bit.
    let r = mmu.translate(&mut mem, VirtAddr(0), AccessMode::Write, PrivilegeMode::User);
    assert_eq!(r, Ok(PhysAddr(3 * 4096)));
    assert_eq!(mem.read_u64(0x2000u64), (3 << 10) | 0xD7);
}

#[test]
fn invalid_first_level_pte_faults_per_access() {
    let mut regs = Registers::<RV64I>::new();
    let mmu = sv39_mmu(&mut regs, 0);
    // All-zero memory: every PTE has V = 0.
    let mut mem = Memory::<RV64I, BufferDevice>::with_size(0x4000);

    let va = VirtAddr(0x1000);
    assert_eq!(
        mmu.translate(&mut mem, va, AccessMode::Read, PrivilegeMode::Supervisor),
        Err(Exception::LoadPageFault)
    );
    assert_eq!(
        mmu.translate(&mut mem, va, AccessMode::Write, PrivilegeMode::Supervisor),
        Err(Exception::StorePageFault)
    );
    assert_eq!(
        mmu.translate(&mut mem, va, AccessMode::Execute, PrivilegeMode::Supervisor),
        Err(Exception::InstructionPageFault)
    );
}

#[test]
fn user_access_to_non_user_page_faults() {
    let mut regs = Registers::<RV64I>::new();
    let mmu = sv39_mmu(&mut regs, 0);
    let mut mem = Memory::<RV64I, BufferDevice>::with_size(0x4000);

    // Root entry 0 is already a leaf: V and R set, U clear, and an
    // aligned superpage (PPN = 0).
    mem.write_u64(0x0000u64, 0x03);

    assert_eq!(
        mmu.translate(&mut mem, VirtAddr(0), AccessMode::Read, PrivilegeMode::User),
        Err(Exception::LoadPageFault)
    );
    assert_eq!(
        mmu.translate(&mut mem, VirtAddr(0), AccessMode::Write, PrivilegeMode::User),
        Err(Exception::StorePageFault)
    );
    // The same page is readable from supervisor mode.
    assert_eq!(
        mmu.translate(&mut mem, VirtAddr(0), AccessMode::Read, PrivilegeMode::Supervisor),
        Ok(PhysAddr(0))
    );
}

#[test]
fn write_to_read_only_page_faults() {
    let mut regs = Registers::<RV64I>::new();
    let mmu = sv39_mmu(&mut regs, 0);
    let mut mem = Memory::<RV64I, BufferDevice>::with_size(0x4000);

    // A leaf superpage with V, R and U set but W clear.
    mem.write_u64(0x0000u64, 0x13);

    assert_eq!(
        mmu.translate(&mut mem, VirtAddr(0), AccessMode::Write, PrivilegeMode::User),
        Err(Exception::StorePageFault)
    );
}

#[test]
fn misaligned_superpage_faults() {
    let mut regs = Registers::<RV64I>::new();
    let mmu = sv39_mmu(&mut regs, 0);
    let mut mem = Memory::<RV64I, BufferDevice>::with_size(0x4000);

    // A leaf at the root level whose low PPN fields are not zero.
    mem.write_u64(0x0000u64, (3 << 10) | 0x17);

    assert_eq!(
        mmu.translate(&mut mem, VirtAddr(0), AccessMode::Read, PrivilegeMode::User),
        Err(Exception::LoadPageFault)
    );
}

#[test]
fn sv32_walk_translates() {
    let mut regs = Registers::<RV32I>::new();
    // SATP on RV32: mode bit 31, PPN in the low 22 bits.
    regs.write_csr(CsrRegister(0x180), 0x8000_0000u32);
    let mmu = Mmu::new(&regs);
    let mut mem = Memory::<RV32I, BufferDevice>::with_size(0x4000);

    // Root table at page 0: entry 0 points at page 1.
    mem.write_u32(0x0000u32, (1 << 10) | 0x01);
    // Leaf table at page 1: entry 0 maps to physical page 2 with
    // V, R and U set.
    mem.write_u32(0x1000u32, (2 << 10) | 0x13);

    let r = mmu.translate(&mut mem, VirtAddr(0x123), AccessMode::Read, PrivilegeMode::User);
    assert_eq!(r, Ok(PhysAddr(2 * 4096 + 0x123)));
}

#[test]
fn vpn_extraction() {
    let va = VirtAddr((3u64 << 30) | (5 << 21) | (7 << 12) | 0x123);
    assert_eq!(va.vpn(2, AddressingMode::SV39), 3);
    assert_eq!(va.vpn(1, AddressingMode::SV39), 5);
    assert_eq!(va.vpn(0, AddressingMode::SV39), 7);
}
