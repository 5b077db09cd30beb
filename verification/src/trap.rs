//! All things related to traps, exceptions, and interrupts.
//!
//! A trap is either a synchronous exception or an asynchronous interrupt.
//! Traps carry no payload at this layer; their architectural code and
//! associated value are derived at the trap-taking site. Every synchronous
//! failure path in the core selects exactly one [`Exception`] variant.

use vstd::prelude::*;

verus! {

/// All different interrupt kinds.
#[derive(Debug, Copy, Clone, PartialEq, Eq, Structural)]
pub enum Interrupt {
    // Software interrupts
    UserSoftwareInterrupt,
    SupervisorSoftwareInterrupt,
    MachineSoftwareInterrupt,
    // Timers
    UserTimerInterrupt,
    SupervisorTimerInterrupt,
    MachineTimerInterrupt,
    // External interrupts
    UserExternalInterrupt,
    SupervisorExternalInterrupt,
    MachineExternalInterrupt,
}

/// All different exception kinds.
#[derive(Debug, Copy, Clone, PartialEq, Eq, Structural)]
pub enum Exception {
    InstructionAddressMisaligned,
    InstructionAccessFault,
    IllegalInstruction,
    Breakpoint,
    LoadAddressMisaligned,
    LoadAccessFault,
    StoreAddressMisaligned,
    StoreAccessFault,
    UserModeEnvironmentCall,
    SupervisorModeEnvironmentCall,
    MachineModeEnvironmentCall,
    InstructionPageFault,
    LoadPageFault,
    StorePageFault,
    Reserved,
}

} // verus!
