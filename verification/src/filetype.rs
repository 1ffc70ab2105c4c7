//! File type of a Mach-O file.
use vstd::prelude::*;

verus! {

pub const MH_OBJECT: u32 = 1;

pub const MH_EXECUTE: u32 = 2;

pub const MH_FVMLIB: u32 = 3;

pub const MH_CORE: u32 = 4;

pub const MH_PRELOAD: u32 = 5;

pub const MH_DYLIB: u32 = 6;

pub const MH_DYLINKER: u32 = 7;

pub const MH_BUNDLE: u32 = 8;

pub const MH_DYLIB_STUB: u32 = 9;

pub const MH_DSYM: u32 = 10;

pub const MH_KEXT_BUNDLE: u32 = 11;

pub const MH_FILESET: u32 = 12;

/// Identifies file type of Mach-O, should be
/// `MH_CORE` for core dumps
#[derive(Debug, Copy, Clone, PartialEq, Eq, Structural)]
pub struct FileType(pub u32);

impl FileType {
    /// The name of a file type with what it stands for, `"unknown"` for a
    /// value that has none.
    pub open spec fn spec_name(self) -> Seq<char> {
        match self.0 {
            MH_OBJECT => "MH_OBJECT (relocatable object file)"@,
            MH_EXECUTE => "MH_EXECUTE (demand paged executable file)"@,
            MH_FVMLIB => "MH_FVMLIB (fixed VM shared library file)"@,
            MH_CORE => "MH_CORE (core file)"@,
            MH_PRELOAD => "MH_PRELOAD (preloaded executable file)"@,
            MH_DYLIB => "MH_DYLIB (dynamically bound shared library)"@,
            MH_DYLINKER => "MH_DYLINKER (dynamic link editor)"@,
            MH_BUNDLE => "MH_BUNDLE (dynamically bound bundle file)"@,
            MH_DYLIB_STUB => "MH_DYLIB_STUB (shared library stub for staticlinking only, no section contents)"@,
            MH_DSYM => "MH_DSYM (companion file with only debug sections)"@,
            MH_KEXT_BUNDLE => "MH_KEXT_BUNDLE (x86_64 kexts)"@,
            MH_FILESET => "MH_FILESET (set of mach-o's)"@,
            _ => "unknown"@,
        }
    }

    /// Name of this file type.
    pub fn name(&self) -> (name: &'static str)
        ensures
            name@ == self.spec_name(),
    {
        match self.0 {
            MH_OBJECT => "MH_OBJECT (relocatable object file)",
            MH_EXECUTE => "MH_EXECUTE (demand paged executable file)",
            MH_FVMLIB => "MH_FVMLIB (fixed VM shared library file)",
            MH_CORE => "MH_CORE (core file)",
            MH_PRELOAD => "MH_PRELOAD (preloaded executable file)",
            MH_DYLIB => "MH_DYLIB (dynamically bound shared library)",
            MH_DYLINKER => "MH_DYLINKER (dynamic link editor)",
            MH_BUNDLE => "MH_BUNDLE (dynamically bound bundle file)",
            MH_DYLIB_STUB => "MH_DYLIB_STUB (shared library stub for staticlinking only, no section contents)",
            MH_DSYM => "MH_DSYM (companion file with only debug sections)",
            MH_KEXT_BUNDLE => "MH_KEXT_BUNDLE (x86_64 kexts)",
            MH_FILESET => "MH_FILESET (set of mach-o's)",
            _ => "unknown",
        }
    }
}

} // verus!
