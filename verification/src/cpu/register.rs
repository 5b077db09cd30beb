//! Implementation of the registers for the RISC-V ISA.
//!
//! RISC-V has 32 integer registers which are XLEN bits wide.
//! There's also one additional register, `pc` the program counter,
//! and a bank of 4096 control-and-status registers (CSRs).
//! There's no dedicated register that is used for the stack pointer,
//! or subroutine return address. The instruction encoding allows any
//! x register to be used for that purpose.
//!
//! The `x0` register is hardwired to zero and will ignore any writes.
//! `x1`-`x31` are general purpose registers.

use vstd::prelude::*;

use crate::cpu::csr;
use crate::{Address, Base};

verus! {

/// Number of CSR registers.
pub const CSR_CAPACITY: usize = 4096;

/// Represents an x register by its index.
#[derive(Debug, Clone, Copy, Hash, PartialEq, Eq, Structural)]
pub struct XRegister(pub u8);

/// Represents the number of a CSR register.
#[derive(Debug, Clone, Copy, Hash, PartialEq, Eq, Structural)]
pub struct CsrRegister(pub u16);

/// Whether a CSR number names one of the read-only identification
/// registers ({ MVENDORID, MARCHID, MIMPID, MHARTID }). Writes to
/// those registers are ignored.
pub open spec fn spec_read_only_csr(n: u16) -> bool {
    n == csr::MVENDORID || n == csr::MARCHID || n == csr::MIMPID || n == csr::MHARTID
}

/// The `Registers` struct holds all registers that are accessible by
/// the CPU: the x registers, the program counter, and the CSR bank.
pub struct Registers<B: Base> {
    /// The x registers, or integer registers.
    ///
    /// We only hold 31 registers here, because the `x0` register is hardcoded
    /// in the read / write methods.
    xregs: Vec<B::Addr>,
    /// The list of control and status registers.
    csr: Vec<B::Addr>,
    /// The current program counter.
    pc: B::Addr,
}

impl<B: Base> Registers<B> {
    /// The stored general-purpose slots x1..x31, in order.
    pub closed spec fn spec_x(self) -> Seq<B::Addr> {
        self.xregs@
    }

    /// The 4096 CSR slots, in order.
    pub closed spec fn spec_csr(self) -> Seq<B::Addr> {
        self.csr@
    }

    /// The current program counter.
    pub closed spec fn spec_pc(self) -> B::Addr {
        self.pc
    }

    /// Well-formedness: 31 general-purpose slots and 4096 CSR slots.
    pub open spec fn wf(self) -> bool {
        self.spec_x().len() == 31 && self.spec_csr().len() == CSR_CAPACITY
    }

    /// Builds a vector of `n` zero addresses.
    fn zeroed(n: usize) -> (r: Vec<B::Addr>)
        ensures
            r@.len() == n,
            forall|j: int|
                0 <= j < n ==> r@[j] == <B::Addr as Address>::spec_from_u64(0),
    {
        let mut v: Vec<B::Addr> = Vec::new();
        let mut i: usize = 0;
        while i < n
            invariant
                i <= n,
                v@.len() == i,
                forall|j: int|
                    0 <= j < i ==> v@[j] == <B::Addr as Address>::spec_from_u64(0),
            decreases n - i,
        {
            v.push(<B::Addr as Address>::from_u64(0));
            i = i + 1;
        }
        v
    }

    /// Creates a new `Registers` struct, with all registers set to 0.
    pub fn new() -> (r: Self)
        ensures
            r.wf(),
            r.spec_pc() == <B::Addr as Address>::spec_from_u64(0),
            forall|j: int|
                0 <= j < 31 ==> r.spec_x()[j] == <B::Addr as Address>::spec_from_u64(0),
            forall|j: int|
                0 <= j < CSR_CAPACITY ==> r.spec_csr()[j] == <B::Addr as Address>::spec_from_u64(
                    0,
                ),
    {
        Registers {
            xregs: Self::zeroed(31),
            csr: Self::zeroed(CSR_CAPACITY),
            pc: <B::Addr as Address>::from_u64(0),
        }
    }

    /// Returns a copy of the current program counter.
    pub fn pc(&self) -> (r: B::Addr)
        ensures
            r == self.spec_pc(),
    {
        self.pc
    }

    /// Returns a mutable reference to the program counter,
    /// which can be used to mutate the `pc`.
    pub fn pc_mut(&mut self) -> (r: &mut B::Addr)
        ensures
            *r == old(self).spec_pc(),
            final(self).spec_pc() == *final(r),
            final(self).spec_x() == old(self).spec_x(),
            final(self).spec_csr() == old(self).spec_csr(),
    {
        &mut self.pc
    }

    /// Reads the value of the integer register `reg`.
    ///
    /// A read of `x0` always yields zero; every other register yields
    /// the value its slot holds.
    pub fn read_x(&self, reg: XRegister) -> (r: B::Addr)
        requires
            self.wf(),
            reg.0 < 32,
        ensures
            reg.0 == 0 ==> r == <B::Addr as Address>::spec_from_u64(0),
            reg.0 != 0 ==> r == self.spec_x()[reg.0 as int - 1],
    {
        if reg.0 == 0 {
            <B::Addr as Address>::from_u64(0)
        } else {
            self.xregs[(reg.0 - 1) as usize]
        }
    }

    /// Writes the given `val` into the integer register `reg`.
    ///
    /// A write to `x0` is a no-op; every other register's slot is
    /// overwritten with `val`. The program counter and the CSR bank
    /// are untouched.
    pub fn write_x(&mut self, reg: XRegister, val: B::Addr)
        requires
            old(self).wf(),
            reg.0 < 32,
        ensures
            final(self).wf(),
            final(self).spec_pc() == old(self).spec_pc(),
            final(self).spec_csr() == old(self).spec_csr(),
            reg.0 == 0 ==> final(self).spec_x() == old(self).spec_x(),
            reg.0 != 0 ==> final(self).spec_x() == old(self).spec_x().update(
                reg.0 as int - 1,
                val,
            ),
    {
        if reg.0 != 0 {
            self.xregs[(reg.0 - 1) as usize] = val;
        }
    }

    /// Reads a value from the CSR register identified by its number.
    pub fn read_csr(&self, reg: CsrRegister) -> (r: B::Addr)
        requires
            self.wf(),
            reg.0 < 4096,
        ensures
            r == self.spec_csr()[reg.0 as int],
    {
        self.csr[reg.0 as usize]
    }

    /// Writes a value into a CSR register identified by its number.
    ///
    /// A write to one of the read-only identification registers
    /// ({ MVENDORID, MARCHID, MIMPID, MHARTID }) is a no-op; every other
    /// CSR slot is overwritten verbatim.
    pub fn write_csr(&mut self, reg: CsrRegister, value: B::Addr)
        requires
            old(self).wf(),
            reg.0 < 4096,
        ensures
            final(self).wf(),
            final(self).spec_pc() == old(self).spec_pc(),
            final(self).spec_x() == old(self).spec_x(),
            spec_read_only_csr(reg.0) ==> final(self).spec_csr() == old(self).spec_csr(),
            !spec_read_only_csr(reg.0) ==> final(self).spec_csr() == old(self).spec_csr().update(
                reg.0 as int,
                value,
            ),
    {
        if reg.0 == csr::MVENDORID || reg.0 == csr::MARCHID || reg.0 == csr::MIMPID || reg.0
            == csr::MHARTID {
            return ;
        }
        self.csr[reg.0 as usize] = value;
    }

    /// Law: a general register holds what was written: for `reg` in
    /// \[1, 31\], `r2` is the state [`Registers::write_x`] ensures
    /// after `write_x(reg, v)`, and slot `reg` — the value
    /// [`Registers::read_x`] then ensures — is `v`.
    pub proof fn lemma_x_write_then_read(r1: Self, r2: Self, reg: XRegister, v: B::Addr)
        requires
            r1.wf(),
            1 <= reg.0 < 32,
            r2.spec_x() == r1.spec_x().update(reg.0 as int - 1, v),
        ensures
            r2.spec_x()[reg.0 as int - 1] == v,
    {
    }

    /// Law: a write to a read-only CSR is ignored: with `r1` the
    /// reset state (all CSR slots zero, as [`Registers::new`]
    /// ensures) and `r2` the state [`Registers::write_csr`] ensures
    /// after a write to one of { MVENDORID, MARCHID, MIMPID,
    /// MHARTID }, slot `reg` — the value [`Registers::read_csr`]
    /// then ensures — is still zero.
    pub proof fn lemma_read_only_csr_write_ignored(r1: Self, r2: Self, reg: CsrRegister)
        requires
            r1.wf(),
            reg.0 < 4096,
            spec_read_only_csr(reg.0),
            forall|j: int|
                0 <= j < CSR_CAPACITY ==> r1.spec_csr()[j] == <B::Addr as Address>::spec_from_u64(
                    0,
                ),
            r2.spec_csr() == r1.spec_csr(),
        ensures
            r2.spec_csr()[reg.0 as int] == <B::Addr as Address>::spec_from_u64(0),
    {
    }

    /// Law: every CSR outside the read-only set holds what was
    /// written: `r2` is the state [`Registers::write_csr`] ensures
    /// after `write_csr(reg, v)` with `reg` not read-only, and slot
    /// `reg` — the value [`Registers::read_csr`] then ensures — is
    /// `v`.
    pub proof fn lemma_csr_write_then_read(r1: Self, r2: Self, reg: CsrRegister, v: B::Addr)
        requires
            r1.wf(),
            reg.0 < 4096,
            !spec_read_only_csr(reg.0),
            r2.spec_csr() == r1.spec_csr().update(reg.0 as int, v),
        ensures
            r2.spec_csr()[reg.0 as int] == v,
    {
    }
}

} // verus!
