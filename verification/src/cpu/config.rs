//! Configuration of a CPU.
//!
//! A CPU configuration consists of the raw binary code,
//! a starting program counter, and other default values that will
//! be set on startup of the CPU. The hosting process reads a program
//! file, extracts the machine field, the entry point and the `.text`
//! section, and hands them in as plain values.

use vstd::prelude::*;

use crate::memory::MEMORY_SIZE;

verus! {

/// The errors that can arise while loading an ELF program image.
#[derive(Debug, Clone, Copy, PartialEq, Eq, Structural)]
pub enum ElfError {
    /// Only RISC-V files are supported.
    InvalidMachine,
    /// An i/o error occurred while reading the image.
    IoError,
    /// The image has an invalid magic number.
    InvalidMagic,
    /// The image has an invalid format.
    InvalidFormat,
    /// The image holds invalid utf8 data.
    Utf8,
    /// The image uses a feature that is not implemented.
    NotImplemented,
    /// There's no .text section in the image.
    NoTextSection,
}

/// The description of an ELF loading error.
pub open spec fn spec_elf_error_message(e: ElfError) -> Seq<char> {
    match e {
        ElfError::InvalidMachine => "only RISC-V files are supported."@,
        ElfError::IoError => "i/o error"@,
        ElfError::InvalidMagic => "invalid magic number"@,
        ElfError::InvalidFormat => "invalid format"@,
        ElfError::Utf8 => "invalid utf8 data"@,
        ElfError::NotImplemented => "not implemented"@,
        ElfError::NoTextSection => "there's no .text section in the file"@,
    }
}

impl ElfError {
    /// A short description of this error.
    pub fn message(&self) -> (r: String)
        ensures
            r@ == spec_elf_error_message(*self),
    {
        match self {
            ElfError::InvalidMachine => String::from_str("only RISC-V files are supported."),
            ElfError::IoError => String::from_str("i/o error"),
            ElfError::InvalidMagic => String::from_str("invalid magic number"),
            ElfError::InvalidFormat => String::from_str("invalid format"),
            ElfError::Utf8 => String::from_str("invalid utf8 data"),
            ElfError::NotImplemented => String::from_str("not implemented"),
            ElfError::NoTextSection => String::from_str("there's no .text section in the file"),
        }
    }
}

/// The `CpuConfig` is used to set default values at the startup of the
/// CPU.
pub struct CpuConfig {
    /// The address where the CPU should start executing
    pc: u64,
    /// The binary code
    binary: Vec<u8>,
    /// The size of the memory
    memory_size: u64,
}

impl CpuConfig {
    /// The address where the CPU should start executing.
    pub closed spec fn spec_pc(self) -> u64 {
        self.pc
    }

    /// The binary code.
    pub closed spec fn spec_binary(self) -> Seq<u8> {
        self.binary@
    }

    /// The size of the memory.
    pub closed spec fn spec_memory_size(self) -> u64 {
        self.memory_size
    }

    /// Creates a new `CpuConfig` that will execute the given `binary`
    /// code and starts at address 0.
    pub fn raw(binary: Vec<u8>) -> (r: Self)
        ensures
            r.spec_pc() == 0,
            r.spec_binary() == binary@,
            r.spec_memory_size() == MEMORY_SIZE,
    {
        CpuConfig { pc: 0, binary, memory_size: MEMORY_SIZE as u64 }
    }

    /// Builds a `CpuConfig` from the parts of an ELF image: the
    /// machine field of the header, the entry point, and the bytes of
    /// the `.text` section when the image has one.
    ///
    /// Only RISC-V images (machine 0xF3) are accepted, and an image
    /// without a `.text` section is rejected; the config starts
    /// executing at the image's entry point.
    pub fn from_elf_image(machine: u16, entry: u64, text: Option<Vec<u8>>) -> (r: Result<
        Self,
        ElfError,
    >)
        ensures
            machine != 0xF3 ==> r == Err::<CpuConfig, ElfError>(ElfError::InvalidMachine),
            machine == 0xF3 && text is None ==> r == Err::<CpuConfig, ElfError>(
                ElfError::NoTextSection,
            ),
            machine == 0xF3 ==> match text {
                Some(t) => r matches Ok(c) && c.spec_pc() == entry && c.spec_binary() == t@
                    && c.spec_memory_size() == MEMORY_SIZE,
                None => true,
            },
    {
        if machine != 0xF3 {
            return Err(ElfError::InvalidMachine);
        }
        match text {
            None => Err(ElfError::NoTextSection),
            Some(t) => Ok(CpuConfig { pc: entry, binary: t, memory_size: MEMORY_SIZE as u64 }),
        }
    }

    /// Returns a copy of the starting program counter of this config.
    pub fn pc(&self) -> (r: u64)
        ensures
            r == self.spec_pc(),
    {
        self.pc
    }

    /// Returns the binary code of this config.
    pub fn binary(&self) -> (r: &Vec<u8>)
        ensures
            r@ == self.spec_binary(),
    {
        &self.binary
    }

    /// Returns a copy of the memory size of this config.
    pub fn memory_size(&self) -> (r: u64)
        ensures
            r == self.spec_memory_size(),
    {
        self.memory_size
    }

    /// Returns a mutable reference to the program counter
    /// of this config. This can be used to modify the pc
    /// after creation of the struct.
    pub fn pc_mut(&mut self) -> (r: &mut u64)
        ensures
            *r == old(self).spec_pc(),
            final (self).spec_pc() == *final (r),
            final (self).spec_binary() == old(self).spec_binary(),
            final (self).spec_memory_size() == old(self).spec_memory_size(),
    {
        &mut self.pc
    }

    /// Returns a mutable reference to the memory size of this config,
    /// that can be used to modify the size of the memory.
    pub fn memory_mut(&mut self) -> (r: &mut u64)
        ensures
            *r == old(self).spec_memory_size(),
            final (self).spec_memory_size() == *final (r),
            final (self).spec_binary() == old(self).spec_binary(),
            final (self).spec_pc() == old(self).spec_pc(),
    {
        &mut self.memory_size
    }
}

} // verus!
