//! Load commands: the self-sized records that follow the Mach-O header.
use crate::codec::{i32_at, in_bounds, le_i32, le_u32, le_u64, u32_at, u64_at};
use crate::error::{DecodeError, DecodeErrorKind};
use crate::segment::{Segment, SegmentView};
use vstd::prelude::*;
use vstd::slice::slice_to_vec;

verus! {

/// Kind code of a load command.
#[derive(Debug, Copy, Clone, PartialEq, Eq, Structural)]
pub struct LoadCommandType(pub u32);

/// Bit in the kind code of a command that the dynamic linker has to
/// understand.
pub const LC_REQ_DYLD: u32 = 0x8000_0000;

pub const LC_SEGMENT: u32 = 0x1;

pub const LC_SYMTAB: u32 = 0x2;

pub const LC_SYMSEG: u32 = 0x3;

pub const LC_THREAD: u32 = 0x4;

pub const LC_UNIXTHREAD: u32 = 0x5;

pub const LC_LOADFVMLIB: u32 = 0x6;

pub const LC_IDFVMLIB: u32 = 0x7;

pub const LC_IDENT: u32 = 0x8;

pub const LC_FVMFILE: u32 = 0x9;

pub const LC_PREPAGE: u32 = 0xa;

pub const LC_DYSYMTAB: u32 = 0xb;

pub const LC_LOAD_DYLIB: u32 = 0xc;

pub const LC_ID_DYLIB: u32 = 0xd;

pub const LC_LOAD_DYLINKER: u32 = 0xe;

pub const LC_ID_DYLINKER: u32 = 0xf;

pub const LC_PREBOUND_DYLIB: u32 = 0x10;

pub const LC_ROUTINES: u32 = 0x11;

pub const LC_SUB_FRAMEWORK: u32 = 0x12;

pub const LC_SUB_UMBRELLA: u32 = 0x13;

pub const LC_SUB_CLIENT: u32 = 0x14;

pub const LC_SUB_LIBRARY: u32 = 0x15;

pub const LC_TWOLEVEL_HINTS: u32 = 0x16;

pub const LC_PREBIND_CKSUM: u32 = 0x17;

pub const LC_LOAD_WEAK_DYLIB: u32 = 0x8000_0018;

pub const LC_SEGMENT_64: u32 = 0x19;

pub const LC_ROUTINES_64: u32 = 0x1a;

pub const LC_UUID: u32 = 0x1b;

pub const LC_RPATH: u32 = 0x8000_001c;

pub const LC_CODE_SIGNATURE: u32 = 0x1d;

pub const LC_SEGMENT_SPLIT_INFO: u32 = 0x1e;

pub const LC_REEXPORT_DYLIB: u32 = 0x8000_001f;

pub const LC_LAZY_LOAD_DYLIB: u32 = 0x20;

pub const LC_ENCRYPTION_INFO: u32 = 0x21;

pub const LC_DYLD_INFO: u32 = 0x22;

pub const LC_DYLD_INFO_ONLY: u32 = 0x8000_0022;

pub const LC_LOAD_UPWARD_DYLIB: u32 = 0x8000_0023;

pub const LC_VERSION_MIN_MACOSX: u32 = 0x24;

pub const LC_VERSION_MIN_IPHONEOS: u32 = 0x25;

pub const LC_FUNCTION_STARTS: u32 = 0x26;

pub const LC_DYLD_ENVIRONMENT: u32 = 0x27;

pub const LC_MAIN: u32 = 0x8000_0028;

pub const LC_DATA_IN_CODE: u32 = 0x29;

pub const LC_SOURCE_VERSION: u32 = 0x2a;

pub const LC_DYLIB_CODE_SIGN_DRS: u32 = 0x2b;

pub const LC_ENCRYPTION_INFO_64: u32 = 0x2c;

pub const LC_LINKER_OPTION: u32 = 0x2d;

pub const LC_LINKER_OPTIMIZATION_HINT: u32 = 0x2e;

pub const LC_VERSION_MIN_TVOS: u32 = 0x2f;

pub const LC_VERSION_MIN_WATCHOS: u32 = 0x30;

pub const LC_NOTE: u32 = 0x31;

pub const LC_BUILD_VERSION: u32 = 0x32;

pub const LC_DYLD_EXPORTS_TRIE: u32 = 0x8000_0033;

pub const LC_DYLD_CHAINED_FIXUPS: u32 = 0x8000_0034;

pub const LC_FILESET_ENTRY: u32 = 0x8000_0035;

impl LoadCommandType {
    /// The name of a kind of load command, `"unknown"` for a value that has
    /// none.
    pub open spec fn spec_name(self) -> Seq<char> {
        match self.0 {
            LC_SEGMENT => "LC_SEGMENT"@,
            LC_SYMTAB => "LC_SYMTAB"@,
            LC_SYMSEG => "LC_SYMSEG"@,
            LC_THREAD => "LC_THREAD"@,
            LC_UNIXTHREAD => "LC_UNIXTHREAD"@,
            LC_LOADFVMLIB => "LC_LOADFVMLIB"@,
            LC_IDFVMLIB => "LC_IDFVMLIB"@,
            LC_IDENT => "LC_IDENT"@,
            LC_FVMFILE => "LC_FVMFILE"@,
            LC_PREPAGE => "LC_PREPAGE"@,
            LC_DYSYMTAB => "LC_DYSYMTAB"@,
            LC_LOAD_DYLIB => "LC_LOAD_DYLIB"@,
            LC_ID_DYLIB => "LC_ID_DYLIB"@,
            LC_LOAD_DYLINKER => "LC_LOAD_DYLINKER"@,
            LC_ID_DYLINKER => "LC_ID_DYLINKER"@,
            LC_PREBOUND_DYLIB => "LC_PREBOUND_DYLIB"@,
            LC_ROUTINES => "LC_ROUTINES"@,
            LC_SUB_FRAMEWORK => "LC_SUB_FRAMEWORK"@,
            LC_SUB_UMBRELLA => "LC_SUB_UMBRELLA"@,
            LC_SUB_CLIENT => "LC_SUB_CLIENT"@,
            LC_SUB_LIBRARY => "LC_SUB_LIBRARY"@,
            LC_TWOLEVEL_HINTS => "LC_TWOLEVEL_HINTS"@,
            LC_PREBIND_CKSUM => "LC_PREBIND_CKSUM"@,
            LC_LOAD_WEAK_DYLIB => "LC_LOAD_WEAK_DYLIB"@,
            LC_SEGMENT_64 => "LC_SEGMENT_64"@,
            LC_ROUTINES_64 => "LC_ROUTINES_64"@,
            LC_UUID => "LC_UUID"@,
            LC_RPATH => "LC_RPATH"@,
            LC_CODE_SIGNATURE => "LC_CODE_SIGNATURE"@,
            LC_SEGMENT_SPLIT_INFO => "LC_SEGMENT_SPLIT_INFO"@,
            LC_REEXPORT_DYLIB => "LC_REEXPORT_DYLIB"@,
            LC_LAZY_LOAD_DYLIB => "LC_LAZY_LOAD_DYLIB"@,
            LC_ENCRYPTION_INFO => "LC_ENCRYPTION_INFO"@,
            LC_DYLD_INFO => "LC_DYLD_INFO"@,
            LC_DYLD_INFO_ONLY => "LC_DYLD_INFO_ONLY"@,
            LC_LOAD_UPWARD_DYLIB => "LC_LOAD_UPWARD_DYLIB"@,
            LC_VERSION_MIN_MACOSX => "LC_VERSION_MIN_MACOSX"@,
            LC_VERSION_MIN_IPHONEOS => "LC_VERSION_MIN_IPHONEOS"@,
            LC_FUNCTION_STARTS => "LC_FUNCTION_STARTS"@,
            LC_DYLD_ENVIRONMENT => "LC_DYLD_ENVIRONMENT"@,
            LC_MAIN => "LC_MAIN"@,
            LC_DATA_IN_CODE => "LC_DATA_IN_CODE"@,
            LC_SOURCE_VERSION => "LC_SOURCE_VERSION"@,
            LC_DYLIB_CODE_SIGN_DRS => "LC_DYLIB_CODE_SIGN_DRS"@,
            LC_ENCRYPTION_INFO_64 => "LC_ENCRYPTION_INFO_64"@,
            LC_LINKER_OPTION => "LC_LINKER_OPTION"@,
            LC_LINKER_OPTIMIZATION_HINT => "LC_LINKER_OPTIMIZATION_HINT"@,
            LC_VERSION_MIN_TVOS => "LC_VERSION_MIN_TVOS"@,
            LC_VERSION_MIN_WATCHOS => "LC_VERSION_MIN_WATCHOS"@,
            LC_NOTE => "LC_NOTE"@,
            LC_BUILD_VERSION => "LC_BUILD_VERSION"@,
            LC_DYLD_EXPORTS_TRIE => "LC_DYLD_EXPORTS_TRIE"@,
            LC_DYLD_CHAINED_FIXUPS => "LC_DYLD_CHAINED_FIXUPS"@,
            LC_FILESET_ENTRY => "LC_FILESET_ENTRY"@,
            _ => "unknown"@,
        }
    }

    /// Name of this kind of load command.
    pub fn name(&self) -> (name: &'static str)
        ensures
            name@ == self.spec_name(),
    {
        match self.0 {
            LC_SEGMENT => "LC_SEGMENT",
            LC_SYMTAB => "LC_SYMTAB",
            LC_SYMSEG => "LC_SYMSEG",
            LC_THREAD => "LC_THREAD",
            LC_UNIXTHREAD => "LC_UNIXTHREAD",
            LC_LOADFVMLIB => "LC_LOADFVMLIB",
            LC_IDFVMLIB => "LC_IDFVMLIB",
            LC_IDENT => "LC_IDENT",
            LC_FVMFILE => "LC_FVMFILE",
            LC_PREPAGE => "LC_PREPAGE",
            LC_DYSYMTAB => "LC_DYSYMTAB",
            LC_LOAD_DYLIB => "LC_LOAD_DYLIB",
            LC_ID_DYLIB => "LC_ID_DYLIB",
            LC_LOAD_DYLINKER => "LC_LOAD_DYLINKER",
            LC_ID_DYLINKER => "LC_ID_DYLINKER",
            LC_PREBOUND_DYLIB => "LC_PREBOUND_DYLIB",
            LC_ROUTINES => "LC_ROUTINES",
            LC_SUB_FRAMEWORK => "LC_SUB_FRAMEWORK",
            LC_SUB_UMBRELLA => "LC_SUB_UMBRELLA",
            LC_SUB_CLIENT => "LC_SUB_CLIENT",
            LC_SUB_LIBRARY => "LC_SUB_LIBRARY",
            LC_TWOLEVEL_HINTS => "LC_TWOLEVEL_HINTS",
            LC_PREBIND_CKSUM => "LC_PREBIND_CKSUM",
            LC_LOAD_WEAK_DYLIB => "LC_LOAD_WEAK_DYLIB",
            LC_SEGMENT_64 => "LC_SEGMENT_64",
            LC_ROUTINES_64 => "LC_ROUTINES_64",
            LC_UUID => "LC_UUID",
            LC_RPATH => "LC_RPATH",
            LC_CODE_SIGNATURE => "LC_CODE_SIGNATURE",
            LC_SEGMENT_SPLIT_INFO => "LC_SEGMENT_SPLIT_INFO",
            LC_REEXPORT_DYLIB => "LC_REEXPORT_DYLIB",
            LC_LAZY_LOAD_DYLIB => "LC_LAZY_LOAD_DYLIB",
            LC_ENCRYPTION_INFO => "LC_ENCRYPTION_INFO",
            LC_DYLD_INFO => "LC_DYLD_INFO",
            LC_DYLD_INFO_ONLY => "LC_DYLD_INFO_ONLY",
            LC_LOAD_UPWARD_DYLIB => "LC_LOAD_UPWARD_DYLIB",
            LC_VERSION_MIN_MACOSX => "LC_VERSION_MIN_MACOSX",
            LC_VERSION_MIN_IPHONEOS => "LC_VERSION_MIN_IPHONEOS",
            LC_FUNCTION_STARTS => "LC_FUNCTION_STARTS",
            LC_DYLD_ENVIRONMENT => "LC_DYLD_ENVIRONMENT",
            LC_MAIN => "LC_MAIN",
            LC_DATA_IN_CODE => "LC_DATA_IN_CODE",
            LC_SOURCE_VERSION => "LC_SOURCE_VERSION",
            LC_DYLIB_CODE_SIGN_DRS => "LC_DYLIB_CODE_SIGN_DRS",
            LC_ENCRYPTION_INFO_64 => "LC_ENCRYPTION_INFO_64",
            LC_LINKER_OPTION => "LC_LINKER_OPTION",
            LC_LINKER_OPTIMIZATION_HINT => "LC_LINKER_OPTIMIZATION_HINT",
            LC_VERSION_MIN_TVOS => "LC_VERSION_MIN_TVOS",
            LC_VERSION_MIN_WATCHOS => "LC_VERSION_MIN_WATCHOS",
            LC_NOTE => "LC_NOTE",
            LC_BUILD_VERSION => "LC_BUILD_VERSION",
            LC_DYLD_EXPORTS_TRIE => "LC_DYLD_EXPORTS_TRIE",
            LC_DYLD_CHAINED_FIXUPS => "LC_DYLD_CHAINED_FIXUPS",
            LC_FILESET_ENTRY => "LC_FILESET_ENTRY",
            _ => "unknown",
        }
    }
}

/// Number of bytes of the prefix that every load command starts with.
pub const LOAD_COMMAND_SIZE: usize = 8;

/// Number of bytes of a segment command without sections.
pub const SEGMENT_COMMAND_SIZE: usize = 72;

/// Number of bytes of a thread command with one ARM64 register state.
pub const THREAD_COMMAND_SIZE: usize = 288;

/// LoadCommand are stored right after the Mach-O Header in a
/// core dump. It only contains the LoadCommandType and its size
#[derive(Debug, Copy, Clone, PartialEq, Eq, Structural)]
pub struct LoadCommand {
    pub cmd: LoadCommandType,
    pub cmdsize: u32,
}

/// The prefix that the 8 bytes at `at` stand for: kind, then size.
pub open spec fn load_command_of(bytes: Seq<u8>, at: int) -> LoadCommand
    recommends
        in_bounds(bytes, at, 8),
{
    LoadCommand { cmd: LoadCommandType(le_u32(bytes, at)), cmdsize: le_u32(bytes, at + 4) }
}

/// What reading the prefix of the load command at `at` gives.
///
/// `TruncatedCommand` if fewer than 8 bytes are left at `at`; else
/// `InvalidCommandSize` if the declared size is below 8 or reaches beyond
/// the end of `bytes`.
pub open spec fn decode_load_command(bytes: Seq<u8>, at: int) -> Result<LoadCommand, DecodeError> {
    if !in_bounds(bytes, at, 8) {
        Err(DecodeError::at(DecodeErrorKind::TruncatedCommand, at))
    } else {
        let lc = load_command_of(bytes, at);
        if lc.cmdsize < 8 || at + lc.cmdsize > bytes.len() {
            Err(DecodeError::at(DecodeErrorKind::InvalidCommandSize, at))
        } else {
            Ok(lc)
        }
    }
}

impl LoadCommand {
    /// Reads kind and size from the 8 bytes of a raw prefix.
    pub fn new(raw_lc: &[u8; 8]) -> (lc: Self)
        ensures
            lc == load_command_of(raw_lc@, 0),
    {
        let bytes = raw_lc.as_slice();
        Self { cmd: LoadCommandType(u32_at(bytes, 0)), cmdsize: u32_at(bytes, 4) }
    }

    /// Reads the prefix of the load command that starts at `at` and holds
    /// its declared size against the buffer.
    pub fn decode(bytes: &[u8], at: usize) -> (r: Result<LoadCommand, DecodeError>)
        ensures
            r == decode_load_command(bytes@, at as int),
    {
        let len: usize = bytes.len();
        if at > len || len - at < LOAD_COMMAND_SIZE {
            return Err(DecodeError::new(DecodeErrorKind::TruncatedCommand, at));
        }
        let lc = Self { cmd: LoadCommandType(u32_at(bytes, at)), cmdsize: u32_at(bytes, at + 4) };
        if lc.cmdsize < 8 || lc.cmdsize as usize > len - at {
            return Err(DecodeError::new(DecodeErrorKind::InvalidCommandSize, at));
        }
        Ok(lc)
    }
}

/// Core dumps use the SegmentCommand64 command to store
/// memory content. The segment name is always empty.
/// Maximum and initial permissions are always the same.
#[derive(Debug, Copy, Clone, PartialEq, Eq)]
pub struct SegmentCommand64 {
    /// Is always SegmentCommand64
    pub cmd: LoadCommandType,
    /// Total size of command in bytes
    pub cmdsize: u32,
    /// Never set in core dumps
    pub segname: [u8; 16],
    /// Virtual address where content should be mapped
    pub vmaddr: u64,
    /// Amount of memory that should be allocated
    pub vmsize: u64,
    /// Offset to where memory contents are stored in the core dump
    pub fileoff: u64,
    /// Amount of bytes that should be read from core dump
    pub filesize: u64,
    /// Permissions of segment (R/W/E)
    pub maxprot: i32,
    /// Always same as maxprot
    pub initprot: i32,
    /// Always set to 0
    pub nsects: u32,
    /// Flags
    pub flags: u32,
}

/// The segment name in a raw segment command: its bytes 8 to 23.
pub open spec fn segname_of(raw: Seq<u8>) -> [u8; 16]
    recommends
        in_bounds(raw, 8, 16),
{
    [
        raw[8],
        raw[9],
        raw[10],
        raw[11],
        raw[12],
        raw[13],
        raw[14],
        raw[15],
        raw[16],
        raw[17],
        raw[18],
        raw[19],
        raw[20],
        raw[21],
        raw[22],
        raw[23],
    ]
}

/// The segment command that the first 72 bytes of `raw` stand for. The kind
/// is not read: it is that of a 64-bit segment.
pub open spec fn segment_command_of(raw: Seq<u8>) -> SegmentCommand64
    recommends
        in_bounds(raw, 0, 72),
{
    SegmentCommand64 {
        cmd: LoadCommandType(LC_SEGMENT_64),
        cmdsize: le_u32(raw, 4),
        segname: segname_of(raw),
        vmaddr: le_u64(raw, 24),
        vmsize: le_u64(raw, 32),
        fileoff: le_u64(raw, 40),
        filesize: le_u64(raw, 48),
        maxprot: le_i32(raw, 56),
        initprot: le_i32(raw, 60),
        nsects: le_u32(raw, 64),
        flags: le_u32(raw, 68),
    }
}

/// Copies the segment name out of a raw segment command.
fn read_segname(raw: &[u8]) -> (name: [u8; 16])
    requires
        in_bounds(raw@, 8, 16),
    ensures
        name == segname_of(raw@),
{
    let mut name: [u8; 16] = [0; 16];
    let mut i: usize = 0;
    while i < 16
        invariant
            i <= 16,
            in_bounds(raw@, 8, 16),
            forall|j: int| 0 <= j < i ==> name[j] == raw@[8 + j],
        decreases 16 - i,
    {
        name[i] = raw[8 + i];
        i += 1;
    }
    name
}

/// Reads the fields of a segment command from a slice known to hold them.
fn parse_segment_command(raw: &[u8]) -> (command: SegmentCommand64)
    requires
        in_bounds(raw@, 0, 72),
    ensures
        command == segment_command_of(raw@),
{
    SegmentCommand64 {
        cmd: LoadCommandType(LC_SEGMENT_64),
        cmdsize: u32_at(raw, 4),
        segname: read_segname(raw),
        vmaddr: u64_at(raw, 24),
        vmsize: u64_at(raw, 32),
        fileoff: u64_at(raw, 40),
        filesize: u64_at(raw, 48),
        maxprot: i32_at(raw, 56),
        initprot: i32_at(raw, 60),
        nsects: u32_at(raw, 64),
        flags: u32_at(raw, 68),
    }
}

/// The segment that a segment command describes in `buffer`: address, size
/// and permissions from the command, contents from the file range
/// `[fileoff, fileoff + filesize)`.
///
/// Address and size are cut to the width of `usize`, the permissions to
/// their low 8 bits.
pub open spec fn segment_of(command: SegmentCommand64, buffer: Seq<u8>) -> SegmentView
    recommends
        command.fileoff + command.filesize <= buffer.len(),
{
    SegmentView {
        vmaddr: command.vmaddr as usize,
        vmsize: command.vmsize as usize,
        perms: command.maxprot as u8,
        content: buffer.subrange(command.fileoff as int, command.fileoff + command.filesize),
    }
}

/// What decoding the bytes `raw` of one load command as a segment command
/// gives, in a file `buffer` where the command starts at `at`.
///
/// `TruncatedCommand` if the command holds fewer than 72 bytes; else
/// `SegmentOutOfBounds` if its file range does not lie inside `buffer`.
pub open spec fn decode_segment_command(raw: Seq<u8>, buffer: Seq<u8>, at: int) -> Result<
    SegmentCommand64,
    DecodeError,
> {
    if raw.len() < 72 {
        Err(DecodeError::at(DecodeErrorKind::TruncatedCommand, at))
    } else {
        let command = segment_command_of(raw);
        if command.fileoff + command.filesize > buffer.len() {
            Err(DecodeError::at(DecodeErrorKind::SegmentOutOfBounds, at))
        } else {
            Ok(command)
        }
    }
}

impl SegmentCommand64 {
    /// True if `segment` has the address, the size and the permissions of
    /// this command, and as many bytes of contents as the command has in
    /// the file.
    pub open spec fn describes(self, segment: SegmentView) -> bool {
        &&& segment.vmaddr == self.vmaddr as usize
        &&& segment.vmsize == self.vmsize as usize
        &&& segment.perms == self.maxprot as u8
        &&& segment.content.len() == self.filesize
    }

    /// Reads the fields of a segment command from its 72 raw bytes.
    pub fn new(raw_sc64: &[u8; 72]) -> (command: Self)
        ensures
            command == segment_command_of(raw_sc64@),
    {
        parse_segment_command(raw_sc64.as_slice())
    }

    /// Decodes the load command `raw`, which starts at `at` in `buffer`, as
    /// a segment command, and copies the contents it refers to out of
    /// `buffer`.
    pub fn decode(raw: &[u8], buffer: &[u8], at: usize) -> (r: Result<
        (SegmentCommand64, Segment),
        DecodeError,
    >)
        ensures
            match r {
                Ok((command, segment)) => {
                    &&& decode_segment_command(raw@, buffer@, at as int) == Ok::<
                        SegmentCommand64,
                        DecodeError,
                    >(command)
                    &&& segment@ == segment_of(command, buffer@)
                },
                Err(e) => decode_segment_command(raw@, buffer@, at as int) == Err::<
                    SegmentCommand64,
                    DecodeError,
                >(e),
            },
    {
        if raw.len() < SEGMENT_COMMAND_SIZE {
            return Err(DecodeError::new(DecodeErrorKind::TruncatedCommand, at));
        }
        let command = parse_segment_command(raw);
        let len: usize = buffer.len();
        let end: u64 = match command.fileoff.checked_add(command.filesize) {
            Some(end) => end,
            None => {
                return Err(DecodeError::new(DecodeErrorKind::SegmentOutOfBounds, at));
            },
        };
        if end > len as u64 {
            return Err(DecodeError::new(DecodeErrorKind::SegmentOutOfBounds, at));
        }
        let content = slice_to_vec(&buffer[command.fileoff as usize..end as usize]);
        let segment = Segment::new(
            #[verifier::truncate]
            (command.vmaddr as usize),
            #[verifier::truncate]
            (command.vmsize as usize),
            #[verifier::truncate]
            (command.maxprot as u8),
            content,
        );
        Ok((command, segment))
    }
}

/// ArmThreadState64 contains all general purpose registers,
/// the frame pointer, link register, stack pointer,
/// program counter, and the current program status register
#[derive(Debug, Copy, Clone, PartialEq, Eq)]
pub struct ArmThreadState64 {
    /// General Purpose Registers
    pub x: [u64; 29],
    /// Frame Pointer
    pub fp: u64,
    /// Link Register
    pub lr: u64,
    /// Stack Pointer
    pub sp: u64,
    /// Program Counter
    pub pc: u64,
    /// Current Program Status Register
    pub cpsr: u32,
    /// Padding
    pub pad: u32,
}

/// The 29 general purpose registers in a raw thread command: 64-bit values
/// from byte 16 on.
pub open spec fn registers_of(raw: Seq<u8>) -> [u64; 29]
    recommends
        in_bounds(raw, 16, 232),
{
    [
        le_u64(raw, 16),
        le_u64(raw, 24),
        le_u64(raw, 32),
        le_u64(raw, 40),
        le_u64(raw, 48),
        le_u64(raw, 56),
        le_u64(raw, 64),
        le_u64(raw, 72),
        le_u64(raw, 80),
        le_u64(raw, 88),
        le_u64(raw, 96),
        le_u64(raw, 104),
        le_u64(raw, 112),
        le_u64(raw, 120),
        le_u64(raw, 128),
        le_u64(raw, 136),
        le_u64(raw, 144),
        le_u64(raw, 152),
        le_u64(raw, 160),
        le_u64(raw, 168),
        le_u64(raw, 176),
        le_u64(raw, 184),
        le_u64(raw, 192),
        le_u64(raw, 200),
        le_u64(raw, 208),
        le_u64(raw, 216),
        le_u64(raw, 224),
        le_u64(raw, 232),
        le_u64(raw, 240),
    ]
}

/// The register state in a raw thread command: the general purpose
/// registers, then frame pointer, link register, stack pointer and program
/// counter, then status register and padding.
pub open spec fn thread_state_of(raw: Seq<u8>) -> ArmThreadState64
    recommends
        in_bounds(raw, 16, 272),
{
    ArmThreadState64 {
        x: registers_of(raw),
        fp: le_u64(raw, 248),
        lr: le_u64(raw, 256),
        sp: le_u64(raw, 264),
        pc: le_u64(raw, 272),
        cpsr: le_u32(raw, 280),
        pad: le_u32(raw, 284),
    }
}

/// ThreadCommand contains general purpose register state
/// for each thread
#[derive(Debug, Copy, Clone, PartialEq, Eq)]
pub struct ThreadCommand {
    /// Always ThreadCommand
    pub cmd: LoadCommandType,
    /// Size of this command
    pub cmdsize: u32,
    /// Flavor
    pub flavor: u32,
    /// Amount of u32s in ArmThreadState64
    pub count: u32,
    /// Contains General Purpose Register Information
    pub state: ArmThreadState64,
}

/// The thread command that the first 288 bytes of `raw` stand for. The kind
/// is not read: it is that of a thread command. Flavor and count are taken
/// as they are, whatever they say of the registers that follow.
pub open spec fn thread_command_of(raw: Seq<u8>) -> ThreadCommand
    recommends
        in_bounds(raw, 0, 288),
{
    ThreadCommand {
        cmd: LoadCommandType(LC_THREAD),
        cmdsize: le_u32(raw, 4),
        flavor: le_u32(raw, 8),
        count: le_u32(raw, 12),
        state: thread_state_of(raw),
    }
}

/// What decoding the bytes `raw` of one load command, which starts at `at`
/// in its file, as a thread command gives: `TruncatedCommand` if the command
/// holds fewer than 288 bytes.
pub open spec fn decode_thread_command(raw: Seq<u8>, at: int) -> Result<
    ThreadCommand,
    DecodeError,
> {
    if raw.len() < 288 {
        Err(DecodeError::at(DecodeErrorKind::TruncatedCommand, at))
    } else {
        Ok(thread_command_of(raw))
    }
}

/// Reads the general purpose registers of a raw thread command.
fn read_registers(raw: &[u8]) -> (regs: [u64; 29])
    requires
        in_bounds(raw@, 16, 232),
    ensures
        regs == registers_of(raw@),
{
    let mut regs: [u64; 29] = [0; 29];
    let mut i: usize = 0;
    while i < 29
        invariant
            i <= 29,
            in_bounds(raw@, 16, 232),
            forall|j: int| 0 <= j < i ==> regs[j] == le_u64(raw@, 16 + 8 * j),
        decreases 29 - i,
    {
        regs[i] = u64_at(raw, 16 + i * 8);
        i += 1;
    }
    regs
}

/// Reads the fields of a thread command from a slice known to hold them.
fn parse_thread_command(raw: &[u8]) -> (command: ThreadCommand)
    requires
        in_bounds(raw@, 0, 288),
    ensures
        command == thread_command_of(raw@),
{
    let state = ArmThreadState64 {
        x: read_registers(raw),
        fp: u64_at(raw, 248),
        lr: u64_at(raw, 256),
        sp: u64_at(raw, 264),
        pc: u64_at(raw, 272),
        cpsr: u32_at(raw, 280),
        pad: u32_at(raw, 284),
    };
    ThreadCommand {
        cmd: LoadCommandType(LC_THREAD),
        cmdsize: u32_at(raw, 4),
        flavor: u32_at(raw, 8),
        count: u32_at(raw, 12),
        state,
    }
}

impl ThreadCommand {
    /// Reads the fields of a thread command from its 288 raw bytes.
    pub fn new(raw_tc: &[u8; 288]) -> (command: Self)
        ensures
            command == thread_command_of(raw_tc@),
    {
        parse_thread_command(raw_tc.as_slice())
    }

    /// Decodes the load command `raw`, which starts at `at` in its file, as
    /// a thread command.
    pub fn decode(raw: &[u8], at: usize) -> (r: Result<ThreadCommand, DecodeError>)
        ensures
            r == decode_thread_command(raw@, at as int),
    {
        if raw.len() < THREAD_COMMAND_SIZE {
            return Err(DecodeError::new(DecodeErrorKind::TruncatedCommand, at));
        }
        Ok(parse_thread_command(raw))
    }
}

/// Enum for storing boxed Commands
#[derive(Debug, PartialEq, Eq)]
pub enum CommandType {
    SegmentCommand64(Box<SegmentCommand64>),
    ThreadCommand(Box<ThreadCommand>),
    /// A command of a kind that is not decoded: only its prefix is kept.
    Skipped(LoadCommand),
}

impl CommandType {
    /// The kind code of a command.
    pub open spec fn spec_cmd(self) -> LoadCommandType {
        match self {
            CommandType::SegmentCommand64(command) => command.cmd,
            CommandType::ThreadCommand(command) => command.cmd,
            CommandType::Skipped(lc) => lc.cmd,
        }
    }

    /// The size in bytes that a command declares for itself.
    pub open spec fn spec_cmdsize(self) -> u32 {
        match self {
            CommandType::SegmentCommand64(command) => command.cmdsize,
            CommandType::ThreadCommand(command) => command.cmdsize,
            CommandType::Skipped(lc) => lc.cmdsize,
        }
    }

    /// The segment that a command describes in `buffer`, if it is a segment
    /// command.
    pub open spec fn spec_segment(self, buffer: Seq<u8>) -> Option<SegmentView> {
        match self {
            CommandType::SegmentCommand64(command) => Some(segment_of(*command, buffer)),
            _ => None,
        }
    }

    /// The command itself, if it is a segment command.
    pub open spec fn spec_segment_command(self) -> Option<SegmentCommand64> {
        match self {
            CommandType::SegmentCommand64(command) => Some(*command),
            _ => None,
        }
    }

    /// The register state that a command holds, if it is a thread command.
    pub open spec fn spec_thread_state(self) -> Option<ArmThreadState64> {
        match self {
            CommandType::ThreadCommand(command) => Some(command.state),
            _ => None,
        }
    }

    /// Kind code of this command.
    pub fn cmd(&self) -> (cmd: LoadCommandType)
        ensures
            cmd == self.spec_cmd(),
    {
        match self {
            CommandType::SegmentCommand64(command) => command.cmd,
            CommandType::ThreadCommand(command) => command.cmd,
            CommandType::Skipped(lc) => lc.cmd,
        }
    }

    /// Size in bytes that this command declares for itself.
    pub fn cmdsize(&self) -> (cmdsize: u32)
        ensures
            cmdsize == self.spec_cmdsize(),
    {
        match self {
            CommandType::SegmentCommand64(command) => command.cmdsize,
            CommandType::ThreadCommand(command) => command.cmdsize,
            CommandType::Skipped(lc) => lc.cmdsize,
        }
    }

    /// Decodes the load command that starts at `at` in `buffer`. With a
    /// segment command comes the segment it describes.
    ///
    /// The prefix decides the kind, and the decoder of that kind is handed
    /// the bytes of this command and no others.
    pub fn decode(buffer: &[u8], at: usize) -> (r: Result<
        (CommandType, Option<Segment>),
        DecodeError,
    >)
        ensures
            match r {
                Ok((command, segment)) => {
                    &&& decode_command(buffer@, at as int) == Ok::<CommandType, DecodeError>(
                        command,
                    )
                    &&& match segment {
                        Some(segment) => command.spec_segment(buffer@) == Some(segment@),
                        None => command.spec_segment(buffer@) is None,
                    }
                },
                Err(e) => decode_command(buffer@, at as int) == Err::<CommandType, DecodeError>(e),
            },
    {
        reveal(decode_command);
        let lc = match LoadCommand::decode(buffer, at) {
            Ok(lc) => lc,
            Err(e) => {
                return Err(e);
            },
        };
        assert(buffer@.len() == buffer.len());
        let raw = &buffer[at..at + lc.cmdsize as usize];
        if lc.cmd.0 == LC_SEGMENT_64 {
            match SegmentCommand64::decode(raw, buffer, at) {
                Ok((command, segment)) => Ok(
                    (CommandType::SegmentCommand64(Box::new(command)), Some(segment)),
                ),
                Err(e) => Err(e),
            }
        } else if lc.cmd.0 == LC_THREAD {
            match ThreadCommand::decode(raw, at) {
                Ok(command) => Ok((CommandType::ThreadCommand(Box::new(command)), None)),
                Err(e) => Err(e),
            }
        } else {
            Ok((CommandType::Skipped(lc), None))
        }
    }
}

/// What decoding the load command at `at` in `buffer` gives.
///
/// First the prefix is read and its size held against the buffer (see
/// [`decode_load_command`]). Then the `cmdsize` bytes of the command are
/// decoded by kind: a segment, a thread, or else a command that is skipped.
#[verifier::opaque]
pub open spec fn decode_command(buffer: Seq<u8>, at: int) -> Result<CommandType, DecodeError> {
    match decode_load_command(buffer, at) {
        Err(e) => Err(e),
        Ok(lc) => {
            let raw = buffer.subrange(at, at + lc.cmdsize);
            if lc.cmd.0 == LC_SEGMENT_64 {
                match decode_segment_command(raw, buffer, at) {
                    Ok(command) => Ok(CommandType::SegmentCommand64(Box::new(command))),
                    Err(e) => Err(e),
                }
            } else if lc.cmd.0 == LC_THREAD {
                match decode_thread_command(raw, at) {
                    Ok(command) => Ok(CommandType::ThreadCommand(Box::new(command))),
                    Err(e) => Err(e),
                }
            } else {
                Ok(CommandType::Skipped(lc))
            }
        },
    }
}

/// A command that decodes lies inside the buffer and declares the size that
/// its prefix holds, which is at least that of the prefix.
pub proof fn lemma_decoded_command_size(buffer: Seq<u8>, at: int)
    requires
        decode_command(buffer, at) is Ok,
    ensures
        0 <= at,
        decode_load_command(buffer, at) is Ok,
        decode_command(buffer, at).unwrap().spec_cmdsize() == decode_load_command(
            buffer,
            at,
        ).unwrap().cmdsize,
        decode_command(buffer, at).unwrap().spec_cmdsize() >= 8,
        at + decode_command(buffer, at).unwrap().spec_cmdsize() <= buffer.len(),
{
    reveal(decode_command);
}

/// A load command whose prefix lies inside the buffer and declares a size
/// below its own 8 bytes fails with `InvalidCommandSize`, whatever its kind.
pub proof fn short_command_is_invalid(buffer: Seq<u8>, at: int)
    requires
        in_bounds(buffer, at, 8),
        le_u32(buffer, at + 4) < 8,
    ensures
        decode_command(buffer, at) == Err::<CommandType, DecodeError>(
            DecodeError::at(DecodeErrorKind::InvalidCommandSize, at),
        ),
{
    reveal(decode_command);
}

/// A segment command whose file range ends behind the buffer fails with
/// `SegmentOutOfBounds`: nothing is read for it.
pub proof fn segment_beyond_buffer_is_out_of_bounds(raw: Seq<u8>, buffer: Seq<u8>, at: int)
    requires
        raw.len() >= 72,
        le_u64(raw, 40) + le_u64(raw, 48) > buffer.len(),
    ensures
        decode_segment_command(raw, buffer, at) == Err::<SegmentCommand64, DecodeError>(
            DecodeError::at(DecodeErrorKind::SegmentOutOfBounds, at),
        ),
{
}

} // verus!
