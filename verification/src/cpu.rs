//! Processor type and subtype of a Mach-O file, and the Mach-O magics.
use vstd::prelude::*;

verus! {

/// Magic of a 64-bit Mach-O file written in little-endian byte order.
pub const MH_MAGIC_64: u32 = 0xfeedfacf;

/// Magic of a 64-bit Mach-O file written in big-endian byte order.
pub const MH_CIGAM_64: u32 = 0xcffaedfe;

/// Bit that marks the 64-bit variant of a processor type.
pub const CPU_ARCH_ABI64: u32 = 0x0100_0000;

pub const CPU_TYPE_ANY: u32 = 0xffff_ffff;

pub const CPU_TYPE_VAX: u32 = 1;

pub const CPU_TYPE_MC680X0: u32 = 6;

pub const CPU_TYPE_X86: u32 = 7;

pub const CPU_TYPE_X86_64: u32 = 0x0100_0007;

pub const CPU_TYPE_MC98000: u32 = 10;

pub const CPU_TYPE_HPPA: u32 = 11;

pub const CPU_TYPE_ARM: u32 = 12;

pub const CPU_TYPE_ARM64: u32 = 0x0100_000c;

pub const CPU_TYPE_MC88000: u32 = 13;

pub const CPU_TYPE_SPARC: u32 = 14;

pub const CPU_TYPE_I860: u32 = 15;

pub const CPU_TYPE_POWERPC: u32 = 18;

pub const CPU_TYPE_POWERPC64: u32 = 0x0100_0012;

pub const CPU_SUBTYPE_ARM64_ALL: u32 = 0;

pub const CPU_SUBTYPE_ARM64_V8: u32 = 1;

pub const CPU_SUBTYPE_ARM64E: u32 = 2;

pub const CPU_SUBTYPE_X86_ALL: u32 = 3;

pub const CPU_SUBTYPE_X86_ARCH1: u32 = 4;

pub const CPU_SUBTYPE_X86_64_H: u32 = 8;

/// Processor Type
#[derive(Debug, Copy, Clone, PartialEq, Eq, Structural)]
pub struct CpuType(pub u32);

impl CpuType {
    /// The name of a processor type, `"unknown"` for a value that has none.
    pub open spec fn spec_name(self) -> Seq<char> {
        match self.0 {
            CPU_TYPE_ANY => "ANY"@,
            CPU_TYPE_VAX => "VAX"@,
            CPU_TYPE_MC680X0 => "MC680X0"@,
            CPU_TYPE_X86 => "X86"@,
            CPU_TYPE_X86_64 => "X86_64"@,
            CPU_TYPE_MC98000 => "MC98000"@,
            CPU_TYPE_HPPA => "HPPA"@,
            CPU_TYPE_ARM => "ARM"@,
            CPU_TYPE_ARM64 => "ARM64"@,
            CPU_TYPE_MC88000 => "MC88000"@,
            CPU_TYPE_SPARC => "SPARC"@,
            CPU_TYPE_I860 => "I860"@,
            CPU_TYPE_POWERPC => "POWERPC"@,
            CPU_TYPE_POWERPC64 => "POWERPC64"@,
            _ => "unknown"@,
        }
    }

    /// Name of this processor type.
    pub fn name(&self) -> (name: &'static str)
        ensures
            name@ == self.spec_name(),
    {
        match self.0 {
            CPU_TYPE_ANY => "ANY",
            CPU_TYPE_VAX => "VAX",
            CPU_TYPE_MC680X0 => "MC680X0",
            CPU_TYPE_X86 => "X86",
            CPU_TYPE_X86_64 => "X86_64",
            CPU_TYPE_MC98000 => "MC98000",
            CPU_TYPE_HPPA => "HPPA",
            CPU_TYPE_ARM => "ARM",
            CPU_TYPE_ARM64 => "ARM64",
            CPU_TYPE_MC88000 => "MC88000",
            CPU_TYPE_SPARC => "SPARC",
            CPU_TYPE_I860 => "I860",
            CPU_TYPE_POWERPC => "POWERPC",
            CPU_TYPE_POWERPC64 => "POWERPC64",
            _ => "unknown",
        }
    }
}

/// Processor Subtype
#[derive(Debug, Copy, Clone, PartialEq, Eq, Structural)]
pub struct CpuSubType(pub u32);

impl CpuSubType {
    /// The name of a processor subtype, `"unknown"` for a value that has
    /// none.
    pub open spec fn spec_name(self) -> Seq<char> {
        match self.0 {
            CPU_SUBTYPE_ARM64_ALL => "ARM64"@,
            CPU_SUBTYPE_ARM64_V8 => "ARM64v8"@,
            CPU_SUBTYPE_ARM64E => "ARM64e"@,
            CPU_SUBTYPE_X86_ALL => "X86"@,
            CPU_SUBTYPE_X86_ARCH1 => "X86_ARCH1"@,
            CPU_SUBTYPE_X86_64_H => "X86_64 Haswell"@,
            _ => "unknown"@,
        }
    }

    /// Name of this processor subtype.
    pub fn name(&self) -> (name: &'static str)
        ensures
            name@ == self.spec_name(),
    {
        match self.0 {
            CPU_SUBTYPE_ARM64_ALL => "ARM64",
            CPU_SUBTYPE_ARM64_V8 => "ARM64v8",
            CPU_SUBTYPE_ARM64E => "ARM64e",
            CPU_SUBTYPE_X86_ALL => "X86",
            CPU_SUBTYPE_X86_ARCH1 => "X86_ARCH1",
            CPU_SUBTYPE_X86_64_H => "X86_64 Haswell",
            _ => "unknown",
        }
    }
}

} // verus!
