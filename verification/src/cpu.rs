//! Implementation of the actual CPU emulation.

use vstd::prelude::*;

pub mod config;
pub mod csr;
pub mod register;

pub use config::{CpuConfig, ElfError};
pub use register::{CsrRegister, Registers, XRegister};

use crate::memory::{Memory, MmioDevice};
use crate::Base;

verus! {

/// Specifies the available privilege modes that a RISC-V hart
/// can run in.
#[derive(Debug, Clone, Copy, PartialEq, Eq, Structural)]
pub enum PrivilegeMode {
    User,
    Supervisor,
    Reserved,
    Machine,
}

/// The CPU.
///
/// The CPU implemented here is totally generic and only
/// used to execute instructions. MMIO devices must be registered
/// manually by using [`Memory::register`].
pub struct Cpu<B: Base, D: MmioDevice> {
    regs: Registers<B>,
    memory: Memory<B, D>,
}

impl<B: Base, D: MmioDevice> Cpu<B, D> {
    /// The register state of this CPU.
    pub closed spec fn spec_regs(self) -> Registers<B> {
        self.regs
    }

    /// The memory of this CPU.
    pub closed spec fn spec_memory(self) -> Memory<B, D> {
        self.memory
    }

    /// Creates a CPU from its register state and its memory.
    pub fn new(regs: Registers<B>, memory: Memory<B, D>) -> (r: Self)
        ensures
            r.spec_regs() == regs,
            r.spec_memory() == memory,
    {
        Cpu { regs, memory }
    }

    /// The registers of this CPU.
    pub fn registers(&self) -> (r: &Registers<B>)
        ensures
            *r == self.spec_regs(),
    {
        &self.regs
    }

    /// A mutable reference to the registers of this CPU.
    pub fn registers_mut(&mut self) -> (r: &mut Registers<B>)
        ensures
            *r == old(self).spec_regs(),
            final (self).spec_regs() == *final (r),
            final (self).spec_memory() == old(self).spec_memory(),
    {
        &mut self.regs
    }

    /// The memory of this CPU.
    pub fn memory(&self) -> (r: &Memory<B, D>)
        ensures
            *r == self.spec_memory(),
    {
        &self.memory
    }

    /// A mutable reference to the memory of this CPU.
    pub fn memory_mut(&mut self) -> (r: &mut Memory<B, D>)
        ensures
            *r == old(self).spec_memory(),
            final (self).spec_memory() == *final (r),
            final (self).spec_regs() == old(self).spec_regs(),
    {
        &mut self.memory
    }
}

} // verus!
