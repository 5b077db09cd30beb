//! Definitions of the CSR numbers.
//!
//! Not every register is defined here; the full 4096-entry CSR space is
//! addressable by number.

use vstd::prelude::*;

verus! {

pub const USTATUS: u16 = 0x000;
pub const UIE: u16 = 0x004;
pub const UTVEC: u16 = 0x005;

pub const USCRATCH: u16 = 0x040;
pub const UEPC: u16 = 0x041;
pub const UCAUSE: u16 = 0x042;
pub const UTVAL: u16 = 0x043;
pub const UIP: u16 = 0x044;

pub const SSTATUS: u16 = 0x100;
pub const SEDELEG: u16 = 0x102;
pub const SIDELEG: u16 = 0x103;
pub const SIE: u16 = 0x104;
pub const STVEC: u16 = 0x105;
pub const SCOUNTEREN: u16 = 0x106;

pub const SSCRATCH: u16 = 0x140;
pub const SEPC: u16 = 0x141;
pub const SCAUSE: u16 = 0x142;
pub const STVAL: u16 = 0x143;
pub const SIP: u16 = 0x144;

pub const SATP: u16 = 0x180;

pub const MVENDORID: u16 = 0xF11;
pub const MARCHID: u16 = 0xF12;
pub const MIMPID: u16 = 0xF13;
pub const MHARTID: u16 = 0xF14;

pub const MSTATUS: u16 = 0x300;
pub const MISA: u16 = 0x301;
pub const MEDELEG: u16 = 0x302;
pub const MIDELEG: u16 = 0x303;
pub const MIE: u16 = 0x304;
pub const MTVEC: u16 = 0x305;
pub const MCOUNTEREN: u16 = 0x306;

pub const MSCRATCH: u16 = 0x340;
pub const MEPC: u16 = 0x341;
pub const MCAUSE: u16 = 0x342;
pub const MTVAL: u16 = 0x343;
pub const MIP: u16 = 0x344;

} // verus!
