use vstd::prelude::*;

verus! {

/// Configuration for a RISC-V processor that should
/// be emulated.
///
/// A config describes the full state of a CPU including
/// memory size, enabled extensions, ROM, and much more.
#[derive(Debug, Clone, Copy)]
pub struct Config {}

} // verus!
