//! Memory management unit.
//!
//! The MMU is responsible for the paging process of the CPU.
//! It will take a virtual address, and convert it to a physical address,
//! walking the page table that the SATP CSR points at and raising the
//! page-fault exception that matches the access mode on every failure
//! path.
//!
//! The accessed and dirty bits of a leaf PTE are updated in hardware:
//! a successful translation sets A, and also D when the access is a
//! write. More details about the implementation can be found in chapter
//! 4.3 and following in the [`spec`].
//!
//! [`spec`]: https://riscv.org/specifications/privileged-isa/

use vstd::prelude::*;

use core::marker::PhantomData;

use crate::cpu::{csr, CsrRegister, PrivilegeMode, Registers};
use crate::memory::{spec_le_bytes, spec_pow256, Memory, MmioDevice};
use crate::trap::Exception;
use crate::{Address, Base};

verus! {

/// The size of a page inside the MMU is 4KiB.
pub const PAGE_SIZE: u64 = 4096;

/// Defines the addressing mode that the MMU will use.
#[derive(Debug, Clone, Copy, PartialEq, Eq, Structural)]
pub enum AddressingMode {
    Bare,
    SV32,
    SV39,
    SV48,
}

impl AddressingMode {
    /// The number of page-table levels of a paged mode.
    pub open spec fn spec_levels(self) -> u64 {
        match self {
            AddressingMode::SV32 => 2,
            AddressingMode::SV39 => 3,
            AddressingMode::SV48 => 4,
            AddressingMode::Bare => 0,
        }
    }

    /// The size in bytes of one page-table entry of a paged mode.
    pub open spec fn spec_pte_size(self) -> u64 {
        match self {
            AddressingMode::SV32 => 4,
            AddressingMode::SV39 => 8,
            AddressingMode::SV48 => 8,
            AddressingMode::Bare => 0,
        }
    }

    /// The number of entries of one page table of a paged mode.
    pub open spec fn spec_pte_count(self) -> u64 {
        match self {
            AddressingMode::SV32 => 1024,
            AddressingMode::SV39 => 512,
            AddressingMode::SV48 => 512,
            AddressingMode::Bare => 0,
        }
    }

    /// The number of virtual-page-number bits per level of a paged
    /// mode.
    pub open spec fn spec_vpn_bits(self) -> u64 {
        match self {
            AddressingMode::SV32 => 10,
            AddressingMode::SV39 => 9,
            AddressingMode::SV48 => 9,
            AddressingMode::Bare => 0,
        }
    }

    pub fn levels(&self) -> (r: u64)
        requires
            *self != AddressingMode::Bare,
        ensures
            r == self.spec_levels(),
    {
        match self {
            AddressingMode::SV32 => 2,
            AddressingMode::SV39 => 3,
            AddressingMode::SV48 => 4,
            AddressingMode::Bare => 0,
        }
    }

    pub fn pte_size(&self) -> (r: u64)
        requires
            *self != AddressingMode::Bare,
        ensures
            r == self.spec_pte_size(),
    {
        match self {
            AddressingMode::SV32 => 4,
            AddressingMode::SV39 => 8,
            AddressingMode::SV48 => 8,
            AddressingMode::Bare => 0,
        }
    }

    pub fn pte_count(&self) -> (r: u64)
        requires
            *self != AddressingMode::Bare,
        ensures
            r == self.spec_pte_count(),
    {
        match self {
            AddressingMode::SV32 => 1024,
            AddressingMode::SV39 => 512,
            AddressingMode::SV48 => 512,
            AddressingMode::Bare => 0,
        }
    }

    pub fn vpn_bits(&self) -> (r: u64)
        requires
            *self != AddressingMode::Bare,
        ensures
            r == self.spec_vpn_bits(),
    {
        match self {
            AddressingMode::SV32 => 10,
            AddressingMode::SV39 => 9,
            AddressingMode::SV48 => 9,
            AddressingMode::Bare => 0,
        }
    }
}

/// Specifies different methods of accessing memory.
#[derive(Debug, Clone, Copy, PartialEq, Eq, Structural)]
pub enum AccessMode {
    Execute,
    Read,
    Write,
}

/// The page-fault exception that matches an access mode.
pub open spec fn spec_page_fault(access: AccessMode) -> Exception {
    match access {
        AccessMode::Execute => Exception::InstructionPageFault,
        AccessMode::Read => Exception::LoadPageFault,
        AccessMode::Write => Exception::StorePageFault,
    }
}

fn page_fault(access: AccessMode) -> (r: Exception)
    ensures
        r == spec_page_fault(access),
{
    match access {
        AccessMode::Execute => Exception::InstructionPageFault,
        AccessMode::Read => Exception::LoadPageFault,
        AccessMode::Write => Exception::StorePageFault,
    }
}

/// Represents a virtual address that has to be converted
/// to a physical address by the MMU.
#[derive(Debug, Clone, Copy, PartialEq, Eq, Structural)]
pub struct VirtAddr(pub u64);

/// Represents a physical address that can directly
/// be used to access the raw memory.
#[derive(Debug, Clone, Copy, PartialEq, Eq, Structural)]
pub struct PhysAddr(pub u64);

/// The virtual page number of `va` at walk level `i`:
/// `(va >> (12 + bits * i)) & (2^bits - 1)` with `bits` the
/// per-level VPN width of the mode.
pub open spec fn spec_vpn(mode: AddressingMode, va: u64, i: u64) -> u64 {
    if mode == AddressingMode::SV32 {
        (va >> ((12 + 10 * i) as u64)) & 0x3FF
    } else {
        (va >> ((12 + 9 * i) as u64)) & 0x1FF
    }
}

impl VirtAddr {
    /// Builds a virtual address from an architectural address value.
    pub fn from_address<A: Address>(addr: &A) -> (r: Self)
        ensures
            r.0 == addr.spec_to_u64(),
    {
        VirtAddr(addr.to_u64())
    }

    /// Extracts the virtual page number of this address at walk
    /// level `idx`.
    pub fn vpn(&self, idx: u64, mode: AddressingMode) -> (r: u16)
        requires
            mode != AddressingMode::Bare,
            idx < mode.spec_levels(),
        ensures
            r as u64 == spec_vpn(mode, self.0, idx),
    {
        proof {
            lemma_mask_bound64(self.0 >> ((12 + 10 * idx) as u64), 0x3FF);
            lemma_mask_bound64(self.0 >> ((12 + 9 * idx) as u64), 0x1FF);
        }
        match mode {
            AddressingMode::SV32 => ((self.0 >> ((12 + 10 * idx) as u64)) & 0x3FF) as u16,
            _ => ((self.0 >> ((12 + 9 * idx) as u64)) & 0x1FF) as u16,
        }
    }
}

/// Any value masked down keeps at most the mask's bits.
proof fn lemma_mask_bound64(x: u64, m: u64)
    by (bit_vector)
    ensures
        x & m <= m,
{
}

/// The components of a SATP value: `(mode, asid, ppn)`, split by the
/// layout of the base (RV32: `[31] mode | [30:22] ASID | [21:0] PPN`;
/// RV64: `[63:60] mode | [59:44] ASID | [43:0] PPN`).
pub open spec fn spec_decode_satp(rv64: bool, v: u64) -> (u8, u16, u64) {
    if rv64 {
        (((v >> 60) & 0xF) as u8, ((v >> 44) & 0xFFFF) as u16, v & 0xFFF_FFFF_FFFF)
    } else {
        ((v >> 31) as u8, ((v >> 22) & 0x1FF) as u16, v & 0x3F_FFFF)
    }
}

/// Takes a value that was read from the `satp` CSR and
/// decodes it into its components, `mode`, `asid`, and `ppn`.
pub fn decode_satp_reg<B: Base>(value: B::Addr) -> (r: (u8, u16, u64))
    ensures
        r == spec_decode_satp(B::spec_rv64(), value.spec_to_u64()),
{
    let v = value.to_u64();
    proof {
        B::lemma_base_wf();
        value.lemma_to_from();
    }
    if B::xlen() == 64 {
        proof {
            lemma_mask_bound64(v >> 60, 0xF);
            lemma_mask_bound64(v >> 44, 0xFFFF);
        }
        let mode = ((v >> 60) & 0xF) as u8;
        let asid = ((v >> 44) & 0xFFFF) as u16;
        let ppn = v & 0xFFF_FFFF_FFFF;
        (mode, asid, ppn)
    } else {
        proof {
            assert(v <= 0xFFFF_FFFFu64 ==> (v >> 31) <= 1) by (bit_vector);
            lemma_mask_bound64(v >> 22, 0x1FF);
        }
        let mode = (v >> 31) as u8;
        let asid = ((v >> 22) & 0x1FF) as u16;
        let ppn = v & 0x3F_FFFF;
        (mode, asid, ppn)
    }
}

/// The raw PTE value stored at physical address `pa`: 4 little-endian
/// bytes in Sv32, 8 in Sv39 / Sv48.
pub open spec fn spec_read_pte<B: Base, D: MmioDevice>(
    mem: Memory<B, D>,
    mode: AddressingMode,
    pa: u64,
) -> u64 {
    mem.spec_read_le(pa, mode.spec_pte_size() as nat) as u64
}

/// The V (valid) flag of a PTE.
pub open spec fn spec_pte_v(pte: u64) -> bool {
    pte & 0x01 == 0x01
}

/// The R (readable) flag of a PTE.
pub open spec fn spec_pte_r(pte: u64) -> bool {
    pte & 0x02 == 0x02
}

/// The W (writable) flag of a PTE.
pub open spec fn spec_pte_w(pte: u64) -> bool {
    pte & 0x04 == 0x04
}

/// The X (executable) flag of a PTE.
pub open spec fn spec_pte_x(pte: u64) -> bool {
    pte & 0x08 == 0x08
}

/// The U (user-accessible) flag of a PTE.
pub open spec fn spec_pte_u(pte: u64) -> bool {
    pte & 0x10 == 0x10
}

/// The full physical page number of a PTE: bits `[31:10]` in Sv32,
/// bits `[53:10]` in Sv39 / Sv48.
pub open spec fn spec_pte_ppn(mode: AddressingMode, pte: u64) -> u64 {
    if mode == AddressingMode::SV32 {
        (pte >> 10) & 0x3F_FFFF
    } else {
        (pte >> 10) & 0xFFF_FFFF_FFFF
    }
}

/// The physical address of the PTE consulted at level `i` of a walk
/// rooted at physical address `a`.
pub open spec fn spec_pte_addr(mode: AddressingMode, a: u64, va: u64, i: u64) -> u64 {
    (a + spec_vpn(mode, va, i) * mode.spec_pte_size()) as u64
}

/// One walk down the page table: the PTE consulted at each level must
/// be well formed (V set, not W-without-R); a PTE with R or X set is
/// the leaf; any other PTE points to the next level, and running past
/// level zero fails. The result is the leaf PTE's physical address,
/// its value, and its level.
pub open spec fn spec_find_leaf<B: Base, D: MmioDevice>(
    mem: Memory<B, D>,
    mode: AddressingMode,
    a: u64,
    va: u64,
    i: u64,
) -> Result<(u64, u64, u64), ()>
    decreases i,
{
    let pa = spec_pte_addr(mode, a, va, i);
    let pte = spec_read_pte(mem, mode, pa);
    if !spec_pte_v(pte) || (!spec_pte_r(pte) && spec_pte_w(pte)) {
        Err(())
    } else if spec_pte_r(pte) || spec_pte_x(pte) {
        Ok((pa, pte, i))
    } else if i == 0 {
        Err(())
    } else {
        spec_find_leaf(mem, mode, (spec_pte_ppn(mode, pte) * PAGE_SIZE) as u64, va, (i - 1) as u64)
    }
}

/// The permission check of a leaf PTE: the access mode needs the
/// matching permission flag (a read is also satisfied by X together
/// with MXR); user mode requires U; supervisor mode must not touch a
/// U page unless SUM is set and the access is no instruction fetch.
pub open spec fn spec_perm_ok(
    pte: u64,
    access: AccessMode,
    priv_mode: PrivilegeMode,
    sum: bool,
    mxr: bool,
) -> bool {
    let type_ok = match access {
        AccessMode::Execute => spec_pte_x(pte),
        AccessMode::Read => spec_pte_r(pte) || (spec_pte_x(pte) && mxr),
        AccessMode::Write => spec_pte_w(pte),
    };
    let priv_ok = match priv_mode {
        PrivilegeMode::User => spec_pte_u(pte),
        PrivilegeMode::Supervisor => !spec_pte_u(pte) || (sum && access
            != AccessMode::Execute),
        _ => true,
    };
    type_ok && priv_ok
}

/// A superpage (a leaf above level zero) must have its low PPN fields
/// zero; otherwise it is misaligned.
pub open spec fn spec_superpage_aligned(mode: AddressingMode, pte: u64, i: u64) -> bool {
    spec_pte_ppn(mode, pte) & (((1u64 << ((mode.spec_vpn_bits() * i) as u64)) - 1) as u64) == 0
}

/// The physical address a leaf PTE at level `i` maps `va` to: the PPN
/// fields of the PTE from level `i` upward, the VPN fields of `va`
/// below level `i`, and the 12-bit page offset copied verbatim.
pub open spec fn spec_phys_addr(mode: AddressingMode, pte: u64, va: u64, i: u64) -> u64 {
    let bits = (mode.spec_vpn_bits() * i) as u64;
    let high = ((spec_pte_ppn(mode, pte) >> bits) << ((12 + bits) as u64)) as u64;
    let low = va & (((1u64 << ((12 + bits) as u64)) - 1) as u64);
    high | low
}

/// The leaf PTE value after the hardware accessed/dirty update: A is
/// set, and D as well when the access is a write.
pub open spec fn spec_pte_ad_update(pte: u64, access: AccessMode) -> u64 {
    if access == AccessMode::Write {
        pte | 0xC0
    } else {
        pte | 0x40
    }
}

/// Memory management unit.
///
/// The MMU is responsible for the paging process of the CPU.
/// It will take a virtual address, and convert it to a physical address.
///
/// Construction decodes the SATP CSR into the addressing mode and the
/// root page number, and the SSTATUS CSR into the SUM and MXR bits;
/// translation walks the page table held in a [`Memory`].
///
/// More details about the implementation can be found in chapter 4.3
/// and following in the [`spec`].
///
/// [`spec`]: https://riscv.org/specifications/privileged-isa/
pub struct Mmu<B: Base> {
    mode: AddressingMode,
    root_ppn: u64,
    sum: bool,
    mxr: bool,
    _base: PhantomData<B>,
}

/// Whether a SATP mode field holds a supported encoding for the base:
/// 0 (bare) always; 1 (Sv32) on RV32; 8 (Sv39) and 9 (Sv48) on RV64.
pub open spec fn spec_valid_satp_mode(rv64: bool, mode: u8) -> bool {
    if rv64 {
        mode == 0 || mode == 8 || mode == 9
    } else {
        mode == 0 || mode == 1
    }
}

/// The addressing mode a supported SATP mode field selects.
pub open spec fn spec_addressing_mode(rv64: bool, mode: u8) -> AddressingMode {
    if mode == 0 {
        AddressingMode::Bare
    } else if !rv64 {
        AddressingMode::SV32
    } else if mode == 8 {
        AddressingMode::SV39
    } else {
        AddressingMode::SV48
    }
}

impl<B: Base> Mmu<B> {
    /// The addressing mode this MMU translates with.
    pub closed spec fn spec_mode(self) -> AddressingMode {
        self.mode
    }

    /// The physical page number of the root page table.
    pub closed spec fn spec_root_ppn(self) -> u64 {
        self.root_ppn
    }

    /// The SUM bit of SSTATUS at construction.
    pub closed spec fn spec_sum(self) -> bool {
        self.sum
    }

    /// The MXR bit of SSTATUS at construction.
    pub closed spec fn spec_mxr(self) -> bool {
        self.mxr
    }

    /// Well-formedness: the root page number fits in its SATP field.
    pub open spec fn wf(self) -> bool {
        self.spec_root_ppn() <= 0xFFF_FFFF_FFFF
    }

    /// Creates a new `Mmu` configured from the given registers: the
    /// addressing mode and root page number are decoded from SATP, and
    /// the SUM and MXR bits from SSTATUS.
    ///
    /// The SATP mode field must hold a supported encoding for the
    /// base; an unsupported encoding is a configuration error of the
    /// hosting process.
    pub fn new(registers: &Registers<B>) -> (r: Self)
        requires
            registers.wf(),
            spec_valid_satp_mode(
                B::spec_rv64(),
                spec_decode_satp(
                    B::spec_rv64(),
                    registers.spec_csr()[csr::SATP as int].spec_to_u64(),
                ).0,
            ),
        ensures
            r.wf(),
            r.spec_mode() == spec_addressing_mode(
                B::spec_rv64(),
                spec_decode_satp(
                    B::spec_rv64(),
                    registers.spec_csr()[csr::SATP as int].spec_to_u64(),
                ).0,
            ),
            r.spec_root_ppn() == spec_decode_satp(
                B::spec_rv64(),
                registers.spec_csr()[csr::SATP as int].spec_to_u64(),
            ).2,
            r.spec_sum() == ((registers.spec_csr()[csr::SSTATUS as int].spec_to_u64() >> 18) & 1
                == 1),
            r.spec_mxr() == ((registers.spec_csr()[csr::SSTATUS as int].spec_to_u64() >> 19) & 1
                == 1),
    {
        let satp = registers.read_csr(CsrRegister(csr::SATP));
        let (mode, _, ppn) = decode_satp_reg::<B>(satp);

        let mode = if mode == 0 {
            AddressingMode::Bare
        } else if !B::supports_rv64() {
            AddressingMode::SV32
        } else if mode == 8 {
            AddressingMode::SV39
        } else {
            AddressingMode::SV48
        };

        let sstatus = registers.read_csr(CsrRegister(csr::SSTATUS)).to_u64();
        let sum = (sstatus >> 18) & 1 == 1;
        let mxr = (sstatus >> 19) & 1 == 1;

        proof {
            let v = registers.spec_csr()[csr::SATP as int].spec_to_u64();
            lemma_mask_bound64(v, 0xFFF_FFFF_FFFF);
            lemma_mask_bound64(v, 0x3F_FFFF);
        }
        Mmu { mode, root_ppn: ppn, sum, mxr, _base: PhantomData }
    }

    /// What a translation returns: in bare mode the virtual address
    /// unchanged; in a paged mode the physical address the leaf PTE
    /// maps the address to, when the walk finds a leaf that passes the
    /// permission and superpage-alignment checks, and the page fault
    /// matching the access mode otherwise.
    pub open spec fn spec_translate<D: MmioDevice>(
        self,
        mem: Memory<B, D>,
        va: u64,
        access: AccessMode,
        priv_mode: PrivilegeMode,
    ) -> Result<PhysAddr, Exception> {
        if self.spec_mode() == AddressingMode::Bare {
            Ok(PhysAddr(va))
        } else {
            match spec_find_leaf(
                mem,
                self.spec_mode(),
                (self.spec_root_ppn() * PAGE_SIZE) as u64,
                va,
                (self.spec_mode().spec_levels() - 1) as u64,
            ) {
                Err(_) => Err(spec_page_fault(access)),
                Ok((pa, pte, i)) => {
                    if !spec_perm_ok(pte, access, priv_mode, self.spec_sum(), self.spec_mxr()) {
                        Err(spec_page_fault(access))
                    } else if !spec_superpage_aligned(self.spec_mode(), pte, i) {
                        Err(spec_page_fault(access))
                    } else {
                        Ok(PhysAddr(spec_phys_addr(self.spec_mode(), pte, va, i)))
                    }
                },
            }
        }
    }

    /// Translates a virtual address into a physical address for the
    /// given access and privilege mode.
    ///
    /// The result is exactly [`Mmu::spec_translate`] of the memory as
    /// it was before the call: the virtual address itself in bare
    /// mode, the mapped physical address on a successful walk, and
    /// the page fault matching the access mode on every failure path.
    /// On failure, and in bare mode, the memory is untouched; on a
    /// successful paged translation the only change is the leaf PTE,
    /// written back with A set (and D as well for a write).
    pub fn translate<D: MmioDevice>(
        &self,
        mem: &mut Memory<B, D>,
        va: VirtAddr,
        access_mode: AccessMode,
        priv_mode: PrivilegeMode,
    ) -> (r: Result<PhysAddr, Exception>)
        requires
            self.wf(),
            old(mem).wf(),
        ensures
            final (mem).wf(),
            Memory::<B, D>::spec_same_structure(*old(mem), *final (mem)),
            r == self.spec_translate(*old(mem), va.0, access_mode, priv_mode),
            (r is Err || self.spec_mode() == AddressingMode::Bare) ==> final (mem).spec_ram()
                == old(mem).spec_ram() && final (mem).spec_devices() == old(mem).spec_devices(),
            (self.spec_mode() != AddressingMode::Bare && r is Ok) ==> match spec_find_leaf(
                *old(mem),
                self.spec_mode(),
                (self.spec_root_ppn() * PAGE_SIZE) as u64,
                va.0,
                (self.spec_mode().spec_levels() - 1) as u64,
            ) {
                Ok((pa, pte, lvl)) => forall|x: u64|
                    #[trigger] final (mem).spec_byte(x) == match old(mem).spec_last_hit(
                        x,
                        pa,
                        self.spec_mode().spec_pte_size() as nat,
                    ) {
                        Some(j) => spec_le_bytes(
                            spec_pte_ad_update(pte, access_mode) as nat,
                            self.spec_mode().spec_pte_size() as nat,
                        )[j],
                        None => old(mem).spec_byte(x),
                    },
                Err(_) => false,
            },
    {
        if self.mode == AddressingMode::Bare {
            return Ok(PhysAddr(va.0));
        }
        let mode = self.mode;
        let lv = mode.levels();
        let root = self.root_ppn * PAGE_SIZE;

        let leaf = walk_find_leaf::<B, D>(mem, mode, root, va.0, lv - 1);
        match leaf {
            Err(_) => Err(page_fault(access_mode)),
            Ok((pa, pte, i)) => {
                let type_ok = match access_mode {
                    AccessMode::Execute => pte & 0x08 == 0x08,
                    AccessMode::Read => (pte & 0x02 == 0x02) || (pte & 0x08 == 0x08 && self.mxr),
                    AccessMode::Write => pte & 0x04 == 0x04,
                };
                let priv_ok = match priv_mode {
                    PrivilegeMode::User => pte & 0x10 == 0x10,
                    PrivilegeMode::Supervisor => !(pte & 0x10 == 0x10) || (self.sum && access_mode
                        != AccessMode::Execute),
                    _ => true,
                };
                if !(type_ok && priv_ok) {
                    return Err(page_fault(access_mode));
                }

                let bits = mode.vpn_bits() * i;
                proof {
                    assert(bits <= 30);
                    assert((1u64 << bits) >= 1) by (bit_vector)
                        requires
                            bits <= 30u64,
                    ;
                    assert((1u64 << ((12 + bits) as u64)) >= 1) by (bit_vector)
                        requires
                            bits <= 30u64,
                    ;
                }
                let ppn = pte_ppn(mode, pte);
                if ppn & ((1u64 << bits) - 1) != 0 {
                    return Err(page_fault(access_mode));
                }

                let upd = if access_mode == AccessMode::Write {
                    pte | 0xC0
                } else {
                    pte | 0x40
                };
                let ps = mode.pte_size();
                proof {
                    reveal_with_fuel(spec_pow256, 9);
                    assert(pte < 0x1_0000_0000 ==> (pte | 0xC0) < 0x1_0000_0000) by (bit_vector);
                    assert(pte < 0x1_0000_0000 ==> (pte | 0x40) < 0x1_0000_0000) by (bit_vector);
                }
                mem.write_le_at(pa, upd, ps as usize);

                let high = (ppn >> bits) << (12 + bits);
                let low = va.0 & ((1u64 << (12 + bits)) - 1);
                Ok(PhysAddr(high | low))
            },
        }
    }

    /// Law (bare mode): with SATP.mode = 0 every translation returns
    /// the virtual address unchanged, whatever the access and
    /// privilege mode.
    pub proof fn lemma_bare_identity<D: MmioDevice>(
        self,
        mem: Memory<B, D>,
        va: u64,
        access: AccessMode,
        priv_mode: PrivilegeMode,
    )
        requires
            self.spec_mode() == AddressingMode::Bare,
        ensures
            self.spec_translate(mem, va, access, priv_mode) == Ok::<PhysAddr, Exception>(
                PhysAddr(va),
            ),
    {
    }

    /// Law (invalid first PTE): when the PTE consulted at the first
    /// walk level has V = 0, translation fails with the page fault
    /// matching the access mode: LoadPageFault for a read,
    /// StorePageFault for a write, InstructionPageFault for a fetch.
    pub proof fn lemma_invalid_root_pte_faults<D: MmioDevice>(
        self,
        mem: Memory<B, D>,
        va: u64,
        access: AccessMode,
        priv_mode: PrivilegeMode,
    )
        requires
            self.spec_mode() != AddressingMode::Bare,
            !spec_pte_v(
                spec_read_pte(
                    mem,
                    self.spec_mode(),
                    spec_pte_addr(
                        self.spec_mode(),
                        (self.spec_root_ppn() * PAGE_SIZE) as u64,
                        va,
                        (self.spec_mode().spec_levels() - 1) as u64,
                    ),
                ),
            ),
        ensures
            self.spec_translate(mem, va, access, priv_mode) == Err::<PhysAddr, Exception>(
                spec_page_fault(access),
            ),
    {
    }

    /// Law (user bit): when the walk finds a leaf PTE with U = 0 and
    /// the access comes from user mode, translation fails with the
    /// page fault matching the access mode.
    pub proof fn lemma_user_bit_faults<D: MmioDevice>(
        self,
        mem: Memory<B, D>,
        va: u64,
        access: AccessMode,
    )
        requires
            self.spec_mode() != AddressingMode::Bare,
            match spec_find_leaf(
                mem,
                self.spec_mode(),
                (self.spec_root_ppn() * PAGE_SIZE) as u64,
                va,
                (self.spec_mode().spec_levels() - 1) as u64,
            ) {
                Ok((pa, pte, lvl)) => !spec_pte_u(pte),
                Err(_) => false,
            },
        ensures
            self.spec_translate(mem, va, access, PrivilegeMode::User) == Err::<
                PhysAddr,
                Exception,
            >(spec_page_fault(access)),
    {
    }
}

/// Reassembly of the fields of an Sv32 PTE into a raw 32-bit word:
/// `[31:20] PPN1 | [19:10] PPN0 | [9:8] RSW | [7:0] flags`.
pub open spec fn spec_sv32_pte_assemble(ppn1: u32, ppn0: u32, rsw: u32, flags: u32) -> u32 {
    (ppn1 << 20) | (ppn0 << 10) | (rsw << 8) | flags
}

/// Law: extracting the fields of a raw Sv32 PTE and reassembling them
/// yields the raw word again.
pub proof fn lemma_sv32_pte_round_trip(raw: u32)
    by (bit_vector)
    ensures
        spec_sv32_pte_assemble((raw >> 20) & 0xFFF, (raw >> 10) & 0x3FF, (raw >> 8) & 0x3, raw
            & 0xFF) == raw,
{
}

/// A Sv32 page table entry is used, if the Sv32 memory system is used,
/// to map a VPN (virtual page number) into a PPN (physical page
/// number) and to store permissions, like read / write / execute.
#[derive(Debug, Clone, Copy, PartialEq, Eq, Structural)]
pub struct Sv32PagetableEntry {
    ppn1: u16,
    ppn0: u16,
    rsw: u8,
    flags: u8,
}

impl Sv32PagetableEntry {
    /// The PPN1 field, bits \[31:20\] of the raw entry.
    pub closed spec fn spec_ppn1(self) -> u16 {
        self.ppn1
    }

    /// The PPN0 field, bits \[19:10\] of the raw entry.
    pub closed spec fn spec_ppn0(self) -> u16 {
        self.ppn0
    }

    /// The two reserved-for-supervisor-software bits.
    pub closed spec fn spec_rsw(self) -> u8 {
        self.rsw
    }

    /// The flag byte (D A G U X W R V, high to low).
    pub closed spec fn spec_flags(self) -> u8 {
        self.flags
    }

    /// Well-formedness: each field fits its bit width.
    pub open spec fn wf(self) -> bool {
        self.spec_ppn1() < 0x1000 && self.spec_ppn0() < 0x400 && self.spec_rsw() < 4
    }

    /// Splits a raw 32-bit word into the fields of an Sv32 PTE.
    pub fn from_raw(raw: u32) -> (r: Self)
        ensures
            r.wf(),
            r.spec_ppn1() == ((raw >> 20) & 0xFFF) as u16,
            r.spec_ppn0() == ((raw >> 10) & 0x3FF) as u16,
            r.spec_rsw() == ((raw >> 8) & 0x3) as u8,
            r.spec_flags() == (raw & 0xFF) as u8,
    {
        let ppn1 = (raw >> 20) & 0xFFF;
        let ppn0 = (raw >> 10) & 0x3FF;
        let rsw = (raw >> 8) & 0x3;
        let flags = raw & 0xFF;
        proof {
            lemma_mask_bound32(raw >> 20, 0xFFF);
            lemma_mask_bound32(raw >> 10, 0x3FF);
            lemma_mask_bound32(raw >> 8, 0x3);
            lemma_mask_bound32(raw, 0xFF);
        }
        Sv32PagetableEntry {
            ppn1: ppn1 as u16,
            ppn0: ppn0 as u16,
            rsw: rsw as u8,
            flags: flags as u8,
        }
    }

    /// Reassembles the fields of this PTE into its raw 32-bit word.
    pub fn to_raw(&self) -> (r: u32)
        requires
            self.wf(),
        ensures
            r == spec_sv32_pte_assemble(
                self.spec_ppn1() as u32,
                self.spec_ppn0() as u32,
                self.spec_rsw() as u32,
                self.spec_flags() as u32,
            ),
    {
        let ppn1 = self.ppn1 as u32;
        let ppn0 = self.ppn0 as u32;
        let rsw = self.rsw as u32;
        let flags = self.flags as u32;
        (ppn1 << 20) | (ppn0 << 10) | (rsw << 8) | flags
    }
}

/// Any value masked down keeps at most the mask's bits.
proof fn lemma_mask_bound32(x: u32, m: u32)
    by (bit_vector)
    ensures
        x & m <= m,
{
}

/// Extracts the full physical page number of a PTE.
fn pte_ppn(mode: AddressingMode, pte: u64) -> (r: u64)
    requires
        mode != AddressingMode::Bare,
    ensures
        r == spec_pte_ppn(mode, pte),
        r <= 0xFFF_FFFF_FFFF,
{
    proof {
        lemma_mask_bound64(pte >> 10, 0x3F_FFFF);
        lemma_mask_bound64(pte >> 10, 0xFFF_FFFF_FFFF);
    }
    if mode == AddressingMode::SV32 {
        (pte >> 10) & 0x3F_FFFF
    } else {
        (pte >> 10) & 0xFFF_FFFF_FFFF
    }
}

/// Walks the page table held in `mem`, rooted at the physical address
/// `a`, from level `i` down.
fn walk_find_leaf<B: Base, D: MmioDevice>(
    mem: &Memory<B, D>,
    mode: AddressingMode,
    a: u64,
    va: u64,
    i: u64,
) -> (r: Result<(u64, u64, u64), ()>)
    requires
        mem.wf(),
        mode != AddressingMode::Bare,
        i < mode.spec_levels(),
        a <= 0xFFF_FFFF_FFFF * 4096,
    ensures
        r == spec_find_leaf(*mem, mode, a, va, i),
        r matches Ok((pa, pte, lvl)) ==> lvl <= i && (mode == AddressingMode::SV32 ==> pte
            < 0x1_0000_0000),
    decreases i,
{
    let vpn = VirtAddr(va).vpn(i, mode) as u64;
    let ps = mode.pte_size();
    let pa = if ps == 4 {
        a + vpn * 4
    } else {
        a + vpn * 8
    };
    let pte = if ps == 4 {
        mem.read_le_at(pa, 4)
    } else {
        mem.read_le_at(pa, 8)
    };
    proof {
        reveal_with_fuel(spec_pow256, 9);
    }

    let v = pte & 0x01 == 0x01;
    let rbit = pte & 0x02 == 0x02;
    let w = pte & 0x04 == 0x04;
    let x = pte & 0x08 == 0x08;

    if !v || (!rbit && w) {
        Err(())
    } else if rbit || x {
        Ok((pa, pte, i))
    } else if i == 0 {
        Err(())
    } else {
        let next = pte_ppn(mode, pte) * PAGE_SIZE;
        walk_find_leaf::<B, D>(mem, mode, next, va, i - 1)
    }
}

} // verus!
