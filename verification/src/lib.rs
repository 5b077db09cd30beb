//! Core of a RISC-V instruction-set simulator for the RV32I and RV64I base
//! integer ISAs: an instruction decoder, the architectural register state,
//! and a byte-addressable memory with an Sv32/Sv39/Sv48 page-table walker.

use vstd::prelude::*;

pub mod config;
pub mod instruction;
pub mod memory;
pub mod cpu;
pub mod trap;

pub use config::Config;

verus! {

/// Marker trait that restricts [`Base`] to the two base ISAs defined here.
pub trait Sealed {}

/// This trait represents every type that can be used as an
/// address of the CPU/Memory.
pub trait Address: Sized + Copy {
    /// The largest value an address of this width can carry.
    spec fn spec_max() -> u64;

    /// The address as a 64-bit mathematical value.
    spec fn spec_to_u64(self) -> u64;

    /// The address denoted by the 64-bit value `num`.
    spec fn spec_from_u64(num: u64) -> Self;

    /// Every address fits in the carrier range, and converting an address
    /// to its 64-bit carrier and back yields the address itself.
    proof fn lemma_to_from(self)
        ensures
            self.spec_to_u64() <= Self::spec_max(),
            Self::spec_from_u64(self.spec_to_u64()) == self,
    ;

    /// Converting an in-range 64-bit carrier to an address and back
    /// yields the carrier itself.
    proof fn lemma_from_to(num: u64)
        requires
            num <= Self::spec_max(),
        ensures
            Self::spec_from_u64(num).spec_to_u64() == num,
    ;

    /// Convert `self` address to a `u64`.
    fn to_u64(&self) -> (r: u64)
        ensures
            r == self.spec_to_u64(),
    ;

    /// Convert a `u64` to a `Self`.
    ///
    /// A value passed to this function must fit in the inner storage
    /// type (e.g. `u32` for `RV32I`).
    fn from_u64(num: u64) -> (r: Self)
        requires
            num <= Self::spec_max(),
        ensures
            r == Self::spec_from_u64(num),
    ;
}

impl Address for u32 {
    open spec fn spec_max() -> u64 {
        0xFFFF_FFFFu64
    }

    open spec fn spec_to_u64(self) -> u64 {
        self as u64
    }

    open spec fn spec_from_u64(num: u64) -> Self {
        num as u32
    }

    proof fn lemma_to_from(self) {
    }

    proof fn lemma_from_to(num: u64) {
    }

    fn to_u64(&self) -> u64 {
        *self as u64
    }

    fn from_u64(num: u64) -> u32 {
        num as u32
    }
}

impl Address for u64 {
    open spec fn spec_max() -> u64 {
        0xFFFF_FFFF_FFFF_FFFFu64
    }

    open spec fn spec_to_u64(self) -> u64 {
        self
    }

    open spec fn spec_from_u64(num: u64) -> Self {
        num
    }

    proof fn lemma_to_from(self) {
    }

    proof fn lemma_from_to(num: u64) {
    }

    fn to_u64(&self) -> u64 {
        *self
    }

    fn from_u64(num: u64) -> u64 {
        num
    }
}

/// A [`Base`] represents the different RISC-V base ISAs.
///
/// Available bases are [`RV64I`] and [`RV32I`].
pub trait Base: Sealed {
    /// The address type of this `Base`.
    type Addr: Address;

    /// The number of bits in the address type for this base.
    spec fn spec_xlen() -> usize;

    /// Whether this base ISA contains the `RV64I` instruction set.
    spec fn spec_rv64() -> bool;

    /// The address width is 32 or 64 bits, agrees with the address type's
    /// carrier range, and is 64 exactly on an RV64 base.
    proof fn lemma_base_wf()
        ensures
            Self::spec_xlen() == 32 || Self::spec_xlen() == 64,
            (Self::spec_xlen() == 64) == Self::spec_rv64(),
            <Self::Addr as Address>::spec_max() == if Self::spec_rv64() {
                0xFFFF_FFFF_FFFF_FFFFu64
            } else {
                0xFFFF_FFFFu64
            },
    ;

    /// The XLEN specifies the number of bits in the address type
    /// for this base.
    fn xlen() -> (r: usize)
        ensures
            r == Self::spec_xlen(),
    ;

    /// Returns whether this base ISA contains the `RV64I` instruction set.
    ///
    /// The `RV32I` instruction set will always be available.
    fn supports_rv64() -> (r: bool)
        ensures
            r == Self::spec_rv64(),
    ;
}

/// The RV32I base integer instruction set.
pub struct RV32I;

impl Sealed for RV32I {}

impl Base for RV32I {
    type Addr = u32;

    open spec fn spec_xlen() -> usize {
        32
    }

    open spec fn spec_rv64() -> bool {
        false
    }

    proof fn lemma_base_wf() {
    }

    fn xlen() -> usize {
        32
    }

    fn supports_rv64() -> bool {
        false
    }
}

/// The RV64I base integer instruction set.
pub struct RV64I;

impl Sealed for RV64I {}

impl Base for RV64I {
    type Addr = u64;

    open spec fn spec_xlen() -> usize {
        64
    }

    open spec fn spec_rv64() -> bool {
        true
    }

    proof fn lemma_base_wf() {
    }

    fn xlen() -> usize {
        64
    }

    fn supports_rv64() -> bool {
        true
    }
}

} // verus!
