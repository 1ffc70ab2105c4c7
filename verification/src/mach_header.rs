//! The fixed header at the start of a Mach-O file.
use crate::codec::{in_bounds, le_u32, u32_at};
use crate::cpu::{CpuSubType, CpuType, MH_CIGAM_64, MH_MAGIC_64};
use crate::error::{DecodeError, DecodeErrorKind};
use crate::filetype::FileType;
use crate::flag::Flag;
use vstd::prelude::*;

verus! {

/// Number of bytes the header takes at the start of the file.
pub const HEADER_SIZE: usize = 32;

/// Mach Header containing information about target CPU
/// and architecture, number of load commands and flags of Mach-O
#[derive(Debug, Copy, Clone, PartialEq, Eq, Structural)]
pub struct MachHeader {
    /// Identifies byte order and 32 vs 64 bit
    pub magic: u32,
    /// Target Processor Type
    pub cputype: CpuType,
    /// Target Processor Subtype
    pub cpu_subtype: CpuSubType,
    /// Filetype of Mach-O
    pub filetype: FileType,
    /// Number of commands
    pub ncmds: u32,
    /// Size of commands
    pub sizeofcmds: u32,
    /// Flags
    pub flags: Flag,
    /// Reserved
    pub reserved: u32,
}

/// The header that the first 32 bytes of `bytes` stand for: eight
/// little-endian 32-bit fields in file order.
pub open spec fn header_of(bytes: Seq<u8>) -> MachHeader
    recommends
        in_bounds(bytes, 0, 32),
{
    MachHeader {
        magic: le_u32(bytes, 0),
        cputype: CpuType(le_u32(bytes, 4)),
        cpu_subtype: CpuSubType(le_u32(bytes, 8)),
        filetype: FileType(le_u32(bytes, 12)),
        ncmds: le_u32(bytes, 16),
        sizeofcmds: le_u32(bytes, 20),
        flags: Flag(le_u32(bytes, 24)),
        reserved: le_u32(bytes, 28),
    }
}

/// True for the two magics of a 64-bit Mach-O file, one per byte order.
pub open spec fn is_magic_64(magic: u32) -> bool {
    magic == MH_MAGIC_64 || magic == MH_CIGAM_64
}

/// What decoding the header of `bytes` gives: the header and the offset of
/// the first load command, or the reason why there is no header.
pub open spec fn decode_header(bytes: Seq<u8>) -> Result<(MachHeader, usize), DecodeError> {
    if bytes.len() < HEADER_SIZE {
        Err(DecodeError::at(DecodeErrorKind::TruncatedHeader, 0))
    } else if !is_magic_64(header_of(bytes).magic) {
        Err(DecodeError::at(DecodeErrorKind::UnsupportedMagic, 0))
    } else {
        Ok((header_of(bytes), HEADER_SIZE))
    }
}

/// Reads the eight header fields from a slice known to hold them.
fn parse(bytes: &[u8]) -> (header: MachHeader)
    requires
        in_bounds(bytes@, 0, 32),
    ensures
        header == header_of(bytes@),
{
    MachHeader {
        magic: u32_at(bytes, 0),
        cputype: CpuType(u32_at(bytes, 4)),
        cpu_subtype: CpuSubType(u32_at(bytes, 8)),
        filetype: FileType(u32_at(bytes, 12)),
        ncmds: u32_at(bytes, 16),
        sizeofcmds: u32_at(bytes, 20),
        flags: Flag(u32_at(bytes, 24)),
        reserved: u32_at(bytes, 28),
    }
}

impl MachHeader {
    /// Reads the header fields from the 32 bytes of a raw header. The magic
    /// is not looked at: see [`MachHeader::decode`].
    pub fn new(raw_header: &[u8; 32]) -> (header: Self)
        ensures
            header == header_of(raw_header@),
    {
        parse(raw_header.as_slice())
    }

    /// Decodes the header at the start of `bytes` and returns it together
    /// with the offset that follows it.
    ///
    /// Fails with `TruncatedHeader` if `bytes` holds fewer than 32 bytes,
    /// else with `UnsupportedMagic` if the magic is not that of a 64-bit
    /// Mach-O file. Both 64-bit magics pass. The fields are read
    /// little-endian under either of them, so a file written in big-endian
    /// order shows its magic as `MH_CIGAM_64` and its other fields with
    /// their bytes swapped.
    pub fn decode(bytes: &[u8]) -> (r: Result<(MachHeader, usize), DecodeError>)
        ensures
            r == decode_header(bytes@),
    {
        if bytes.len() < HEADER_SIZE {
            return Err(DecodeError::new(DecodeErrorKind::TruncatedHeader, 0));
        }
        let header = parse(bytes);
        if !header.has_magic_64() {
            return Err(DecodeError::new(DecodeErrorKind::UnsupportedMagic, 0));
        }
        Ok((header, HEADER_SIZE))
    }

    /// True if the magic is that of a 64-bit Mach-O file.
    pub fn has_magic_64(&self) -> (ok: bool)
        ensures
            ok == is_magic_64(self.magic),
    {
        self.magic == MH_MAGIC_64 || self.magic == MH_CIGAM_64
    }

    /// What the magic says of the file, `"unknown"` if it is no magic of a
    /// 64-bit Mach-O file.
    pub open spec fn spec_magic_name(self) -> Seq<char> {
        match self.magic {
            MH_MAGIC_64 => "64-bit MachO (Little Endian)"@,
            MH_CIGAM_64 => "64-bit MachO (Big Endian)"@,
            _ => "unknown"@,
        }
    }

    /// What the magic says of the file.
    pub fn magic_name(&self) -> (name: &'static str)
        ensures
            name@ == self.spec_magic_name(),
    {
        match self.magic {
            MH_MAGIC_64 => "64-bit MachO (Little Endian)",
            MH_CIGAM_64 => "64-bit MachO (Big Endian)",
            _ => "unknown",
        }
    }
}

} // verus!
