//! Flag bits of a Mach-O header.
use vstd::prelude::*;

verus! {

pub const MH_NOUNDEFS: u32 = 0x1;

pub const MH_INCRLINK: u32 = 0x2;

pub const MH_DYLDLINK: u32 = 0x4;

pub const MH_BINDATLOAD: u32 = 0x8;

pub const MH_PREBOUND: u32 = 0x10;

pub const MH_SPLIT_SEGS: u32 = 0x20;

pub const MH_LAZY_INIT: u32 = 0x40;

pub const MH_TWOLEVEL: u32 = 0x80;

pub const MH_FORCE_FLA: u32 = 0x100;

pub const MH_NOMULTIDEFS: u32 = 0x200;

pub const MH_NOFIXPREBINDIN: u32 = 0x400;

pub const MH_PREBINDABLE: u32 = 0x800;

pub const MH_ALLMODSBOUND: u32 = 0x1000;

pub const MH_SUBSECTIONS_VIA_SYMBOLS: u32 = 0x2000;

pub const MH_CANONICAL: u32 = 0x4000;

pub const MH_WEAK_DEFINES: u32 = 0x8000;

pub const MH_BINDS_TO_WEAK: u32 = 0x10000;

pub const MH_ALLOW_STACK_EXECUTION: u32 = 0x20000;

pub const MH_ROOT_SAFE: u32 = 0x40000;

pub const MH_SETUID_SAFE: u32 = 0x80000;

pub const MH_NO_REEXPORTED_DYLIBS: u32 = 0x100000;

pub const MH_PIE: u32 = 0x200000;

pub const MH_DEAD_STRIPPABLE_DYLIB: u32 = 0x400000;

pub const MH_HAS_TLV_DESCRIPTORS: u32 = 0x800000;

pub const MH_NO_HEAP_EXECUTION: u32 = 0x1000000;

pub const MH_APP_EXTENSION_SAFE: u32 = 0x02000000;

pub const MH_NLIST_OUTOFSYNC_WITH_DYLDINFO: u32 = 0x04000000;

pub const MH_SIM_SUPPORT: u32 = 0x08000000;

pub const MH_DYLIB_IN_CACHE: u32 = 0x80000000;

/// Contains which flags are set
#[derive(Debug, Copy, Clone, PartialEq, Eq, Structural)]
pub struct Flag(pub u32);

/// The name of flag bit `bit` with what it stands for. A bit without a
/// meaning, or beyond the 32 bits of the flags, is `"UNKNOWN"`.
pub open spec fn spec_flag_description(bit: u32) -> Seq<char> {
    match bit {
        0 => "MH_NOUNDEFS: the object file has no undefined references"@,
        1 => "MH_INCRLINK: the object file is the output of an incremental link against a base \n\tfile and can't be link edited again"@,
        2 => "MH_DYLDLINK: the object file is input for the dynamic linker and can't be \n\tstaticly link edited again"@,
        3 => "MH_BINDATLOAD: the object file's undefined references are bound by the dynamic \n\tlinker when loaded"@,
        4 => "MH_PREBOUND: the file has its dynamic undefined references prebound"@,
        5 => "MH_SPLIT_SEGS: the file has its read-only and read-write segments split"@,
        6 => "MH_LAZY_INIT: the shared library init routine is to be run lazily via catching \n\tmemory faults to its writeable segments (obsolete)"@,
        7 => "MH_TWOLEVEL: the image is using two-level name space bindings"@,
        8 => "MH_FORCE_FLAT: the executable is forcing all images to use flat name space bindings"@,
        9 => "MH_NOMULTIDEFS: this umbrella guarantees no multiple defintions of symbols in \n\tits sub-images so the two-level namespace hints can always be used"@,
        10 => "MH_NOFIXPREBINDIN: do not have dyld notify the prebinding agent about this executable"@,
        11 => "MH_PREBINDABLE: the binary is not prebound but can have its prebinding redone. \n\tonly used when MH_PREBOUND is not set"@,
        12 => "MH_ALLMODSBOUND: indicates that this binary binds to all two-level namespace \n\tmodules of its dependent libraries. Only used when MH_PREBINDABLE and MH_TWOLEVEL are both set"@,
        13 => "MH_SUBSECTIONS_VIA_SYMBOLS: safe to divide up the sections into sub-sections via \n\tsymbols for dead code stripping"@,
        14 => "MH_CANONCIAL: the binary has been canonicalized via the unprebind operation"@,
        15 => "MH_WEAK_DEFINES: the final linked image contains external weak symbols"@,
        16 => "MH_BINDS_TO_WEAK: the final linked image uses weak symbols"@,
        17 => "MH_ALLOW_STACK_EXECUTION: When this bit is set, all stacks in the task will be \n\tgiven stack execution privilege. Only used in MH_EXECUTE filetypes"@,
        18 => "MH_ROOT_SAFE: When this bit is set, the binary declares it is safe for use in \n\tprocesses with uid zero"@,
        19 => "MH_SETUID_SAFE: When this bit is set, the binary declares it is safe for use in \n\tprocesses when issetugid() is true"@,
        20 => "MH_NO_REEXPORTED_DYLIBS: When this bit is set on a dylib, the static linker does \n\tnot need to examine dependent dylibs to see if any are re-exported"@,
        21 => "MH_PIE: When this bit is set, the OS will load the main executable at a random \n\taddress. Only used in MH_EXECUTE filetypes"@,
        22 => "MH_DEAD_STRIPPABLE_DYLIB: Only for use on dylibs. When linking against a dylib \n\tthat has this bit set, the static linker will automatically not create a LC_LOAD_DYLIB load command to the dylib if no symbols are being referenced from the dylib"@,
        23 => "MH_HAS_TLV_DESCRIPTORS: Contains a section of type S_THREAD_LOCAL_VARIABLES"@,
        24 => "MH_NO_HEAP_EXECUTION: When this bit is set, the OS will run the main executable \n\twith a non-executable heap even on platforms (e.g. i386) that don't require it. Only used in MH_EXECUTE filetypes"@,
        25 => "MH_APP_EXTENSION_SAFE: The code was linked for use in an application extension"@,
        26 => "MH_NLIST_OUTOFSYNC_WITH_DYLDINFO: The external symbols listed in the nlist symbol \n\ttable do not include all the symbols listed in the dyld info"@,
        27 => "MH_SIM_SUPPORT: Allow LC_MIN_VERSION_MACOS and LC_BUILD_VERSION load commands with \n\tthe platforms macOS, iOSMac, iOSSimulator, tvOSSimulator and watchOSSimulator"@,
        28 => "UNKNOWN"@,
        29 => "UNKNOWN"@,
        30 => "UNKNOWN"@,
        31 => "MH_DYLIB_IN_CACHE: Only for use on dylibs. When this bit is set, the dylib is part \n\tof the dyld shared cache, rather than loose in the filesystem"@,
        _ => "UNKNOWN"@,
    }
}

/// Name of flag bit `bit` with what it stands for.
pub fn flag_description(bit: u32) -> (description: &'static str)
    ensures
        description@ == spec_flag_description(bit),
{
    match bit {
        0 => "MH_NOUNDEFS: the object file has no undefined references",
        1 => "MH_INCRLINK: the object file is the output of an incremental link against a base \n\tfile and can't be link edited again",
        2 => "MH_DYLDLINK: the object file is input for the dynamic linker and can't be \n\tstaticly link edited again",
        3 => "MH_BINDATLOAD: the object file's undefined references are bound by the dynamic \n\tlinker when loaded",
        4 => "MH_PREBOUND: the file has its dynamic undefined references prebound",
        5 => "MH_SPLIT_SEGS: the file has its read-only and read-write segments split",
        6 => "MH_LAZY_INIT: the shared library init routine is to be run lazily via catching \n\tmemory faults to its writeable segments (obsolete)",
        7 => "MH_TWOLEVEL: the image is using two-level name space bindings",
        8 => "MH_FORCE_FLAT: the executable is forcing all images to use flat name space bindings",
        9 => "MH_NOMULTIDEFS: this umbrella guarantees no multiple defintions of symbols in \n\tits sub-images so the two-level namespace hints can always be used",
        10 => "MH_NOFIXPREBINDIN: do not have dyld notify the prebinding agent about this executable",
        11 => "MH_PREBINDABLE: the binary is not prebound but can have its prebinding redone. \n\tonly used when MH_PREBOUND is not set",
        12 => "MH_ALLMODSBOUND: indicates that this binary binds to all two-level namespace \n\tmodules of its dependent libraries. Only used when MH_PREBINDABLE and MH_TWOLEVEL are both set",
        13 => "MH_SUBSECTIONS_VIA_SYMBOLS: safe to divide up the sections into sub-sections via \n\tsymbols for dead code stripping",
        14 => "MH_CANONCIAL: the binary has been canonicalized via the unprebind operation",
        15 => "MH_WEAK_DEFINES: the final linked image contains external weak symbols",
        16 => "MH_BINDS_TO_WEAK: the final linked image uses weak symbols",
        17 => "MH_ALLOW_STACK_EXECUTION: When this bit is set, all stacks in the task will be \n\tgiven stack execution privilege. Only used in MH_EXECUTE filetypes",
        18 => "MH_ROOT_SAFE: When this bit is set, the binary declares it is safe for use in \n\tprocesses with uid zero",
        19 => "MH_SETUID_SAFE: When this bit is set, the binary declares it is safe for use in \n\tprocesses when issetugid() is true",
        20 => "MH_NO_REEXPORTED_DYLIBS: When this bit is set on a dylib, the static linker does \n\tnot need to examine dependent dylibs to see if any are re-exported",
        21 => "MH_PIE: When this bit is set, the OS will load the main executable at a random \n\taddress. Only used in MH_EXECUTE filetypes",
        22 => "MH_DEAD_STRIPPABLE_DYLIB: Only for use on dylibs. When linking against a dylib \n\tthat has this bit set, the static linker will automatically not create a LC_LOAD_DYLIB load command to the dylib if no symbols are being referenced from the dylib",
        23 => "MH_HAS_TLV_DESCRIPTORS: Contains a section of type S_THREAD_LOCAL_VARIABLES",
        24 => "MH_NO_HEAP_EXECUTION: When this bit is set, the OS will run the main executable \n\twith a non-executable heap even on platforms (e.g. i386) that don't require it. Only used in MH_EXECUTE filetypes",
        25 => "MH_APP_EXTENSION_SAFE: The code was linked for use in an application extension",
        26 => "MH_NLIST_OUTOFSYNC_WITH_DYLDINFO: The external symbols listed in the nlist symbol \n\ttable do not include all the symbols listed in the dyld info",
        27 => "MH_SIM_SUPPORT: Allow LC_MIN_VERSION_MACOS and LC_BUILD_VERSION load commands with \n\tthe platforms macOS, iOSMac, iOSSimulator, tvOSSimulator and watchOSSimulator",
        28 => "UNKNOWN",
        29 => "UNKNOWN",
        30 => "UNKNOWN",
        31 => "MH_DYLIB_IN_CACHE: Only for use on dylibs. When this bit is set, the dylib is part \n\tof the dyld shared cache, rather than loose in the filesystem",
        _ => "UNKNOWN",
    }
}

/// The bits below `limit` that are set in `flags`, in rising order.
pub open spec fn set_bits_below(flags: Flag, limit: nat) -> Seq<u32>
    decreases limit,
{
    if limit == 0 {
        Seq::empty()
    } else {
        let bit = (limit - 1) as u32;
        let lower = set_bits_below(flags, (limit - 1) as nat);
        if flags.spec_is_set(bit) {
            lower.push(bit)
        } else {
            lower
        }
    }
}

/// The bits that `set_bits_below` lists are the set bits below the limit,
/// and they rise strictly: so each of them is listed once.
pub proof fn lemma_set_bits_below(flags: Flag, limit: nat)
    requires
        limit <= 32,
    ensures
        forall|bit: u32| #[trigger]
            set_bits_below(flags, limit).contains(bit) <==> bit < limit && flags.spec_is_set(bit),
        forall|i: int, j: int|
            0 <= i < j < set_bits_below(flags, limit).len() ==> set_bits_below(flags, limit)[i]
                < set_bits_below(flags, limit)[j],
    decreases limit,
{
    if limit > 0 {
        let top = (limit - 1) as u32;
        let lower = set_bits_below(flags, (limit - 1) as nat);
        let all = set_bits_below(flags, limit);
        lemma_set_bits_below(flags, (limit - 1) as nat);
        if flags.spec_is_set(top) {
            assert forall|bit: u32| #[trigger]
                all.contains(bit) <==> bit < limit && flags.spec_is_set(bit) by {
                if all.contains(bit) {
                    let i = choose|i: int| 0 <= i < all.len() && all[i] == bit;
                    if i < lower.len() {
                        assert(lower.contains(bit));
                    }
                }
                if bit < limit && flags.spec_is_set(bit) {
                    if bit == top {
                        assert(all[lower.len() as int] == bit);
                    } else {
                        assert(lower.contains(bit));
                        let i = choose|i: int| 0 <= i < lower.len() && lower[i] == bit;
                        assert(all[i] == bit);
                    }
                }
            }
            assert forall|i: int, j: int| 0 <= i < j < all.len() implies all[i] < all[j] by {
                if j == lower.len() {
                    assert(lower.contains(lower[i]));
                }
            }
        }
    }
}

/// The flags list as set exactly the bits for which `spec_is_set` holds,
/// each once, in rising order.
pub proof fn set_bits_are_the_bits_set(flags: Flag)
    ensures
        forall|bit: u32| #[trigger]
            flags.spec_set_bits().contains(bit) <==> flags.spec_is_set(bit),
        forall|i: int, j: int|
            0 <= i < j < flags.spec_set_bits().len() ==> flags.spec_set_bits()[i]
                < flags.spec_set_bits()[j],
{
    lemma_set_bits_below(flags, 32);
}

impl Flag {
    /// True if bit `bit` of the flags is set. No bit from 32 on is.
    pub open spec fn spec_is_set(self, bit: u32) -> bool {
        bit < 32 && (self.0 >> bit) & 1 == 1
    }

    /// The bits that are set, in rising order.
    pub open spec fn spec_set_bits(self) -> Seq<u32> {
        set_bits_below(self, 32)
    }

    /// True if bit `bit` of the flags is set.
    pub fn is_set(&self, bit: u32) -> (set: bool)
        ensures
            set == self.spec_is_set(bit),
    {
        bit < 32 && (self.0 >> bit) & 1 == 1
    }

    /// The bits that are set, in rising order.
    pub fn set_bits(&self) -> (bits: Vec<u32>)
        ensures
            bits@ == self.spec_set_bits(),
    {
        let mut bits: Vec<u32> = Vec::new();
        let mut bit: u32 = 0;
        while bit < 32
            invariant
                bit <= 32,
                bits@ == set_bits_below(*self, bit as nat),
            decreases 32 - bit,
        {
            if self.is_set(bit) {
                bits.push(bit);
            }
            bit += 1;
        }
        bits
    }
}

} // verus!
