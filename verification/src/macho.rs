//! The decoded core dump: header, load commands in file order, and the
//! memory segments that the segment commands describe.
use crate::codec::le_u32;
use crate::error::{DecodeError, DecodeErrorKind};
use crate::load_command::{
    decode_command, segment_of, short_command_is_invalid, ArmThreadState64, CommandType,
    SegmentCommand64,
};
use crate::mach_header::{decode_header, MachHeader, HEADER_SIZE};
use crate::segment::{Segment, SegmentView};
use crate::walker::{
    declared_size, lemma_walk_command, lemma_walk_covers, lemma_walk_error_stays, lemma_walk_next,
    segment_views, segments_of, walk, walk_commands,
};
use vstd::prelude::*;

verus! {

/// A decoded core dump as plain values.
pub struct MachoView {
    pub header: MachHeader,
    pub commands: Seq<CommandType>,
    pub segments: Seq<SegmentView>,
    /// Offset behind the last load command.
    pub end_offset: int,
}

impl MachoView {
    /// What holds of every decoded core dump, whatever file it came from.
    ///
    /// There are as many commands as the header counts. The load commands
    /// end behind the header by the sizes that they declare. There is one
    /// segment for each segment command, in the order of the commands, and
    /// each segment is the one its command describes.
    pub open spec fn wf(self) -> bool {
        &&& self.commands.len() == self.header.ncmds
        &&& self.end_offset == HEADER_SIZE + declared_size(self.commands)
        &&& self.segments.len() == segment_commands(self.commands).len()
        &&& forall|k: int|
            0 <= k < self.segments.len() ==> (#[trigger] segment_commands(
                self.commands,
            )[k]).describes(self.segments[k])
    }
}

/// The segment commands among `commands`, in the order of the commands.
pub open spec fn segment_commands(commands: Seq<CommandType>) -> Seq<SegmentCommand64> {
    commands.filter_map(|command: CommandType| command.spec_segment_command())
}

/// The register states that `commands` hold: one for each thread command, in
/// the order of the commands.
pub open spec fn thread_states(commands: Seq<CommandType>) -> Seq<ArmThreadState64> {
    commands.filter_map(|command: CommandType| command.spec_thread_state())
}

/// What decoding `buffer` as a core dump gives: the header, then as many
/// load commands as the header counts, and the segments they describe; or
/// the first error on the way.
pub open spec fn decode_image(buffer: Seq<u8>) -> Result<MachoView, DecodeError> {
    match decode_header(buffer) {
        Err(e) => Err(e),
        Ok((header, start)) => match walk(buffer, start as int, header.ncmds as nat) {
            Err(e) => Err(e),
            Ok((commands, end_offset)) => Ok(
                MachoView {
                    header,
                    commands,
                    segments: segments_of(commands, buffer),
                    end_offset,
                },
            ),
        },
    }
}

/// Main struct which represents a core dump
#[derive(Debug)]
pub struct Macho {
    /// Mach-O Header
    header: MachHeader,
    /// List of Segment64 and Thread Commands
    load_commands: Vec<CommandType>,
    /// Memory ranges which are stored in the core dump
    segments: Vec<Segment>,
    /// Offset behind the last load command
    end_offset: usize,
}

impl View for Macho {
    type V = MachoView;

    closed spec fn view(&self) -> MachoView {
        MachoView {
            header: self.header,
            commands: self.load_commands@,
            segments: segment_views(self.segments@),
            end_offset: self.end_offset as int,
        }
    }
}

impl Macho {
    /// Every core dump is well formed: see [`MachoView::wf`].
    #[verifier::type_invariant]
    closed spec fn well_formed(self) -> bool {
        self@.wf()
    }

    /// Decodes the bytes of a core dump.
    ///
    /// The buffer is only read. The result owns copies of all it holds, the
    /// segment contents included. Any structural violation ends the load
    /// with the error of [`decode_image`]: nothing is returned of a file
    /// that decodes in part.
    pub fn load(contents: &[u8]) -> (r: Result<Macho, DecodeError>)
        ensures
            match r {
                Ok(image) => decode_image(contents@) == Ok::<MachoView, DecodeError>(image@),
                Err(e) => decode_image(contents@) == Err::<MachoView, DecodeError>(e),
            },
    {
        let (header, start) = match MachHeader::decode(contents) {
            Ok(decoded) => decoded,
            Err(e) => {
                return Err(e);
            },
        };
        match walk_commands(contents, start, header.ncmds) {
            Ok((load_commands, segments, end_offset)) => {
                proof {
                    image_is_well_formed(contents@, decode_image(contents@).unwrap());
                }
                Ok(Macho { header, load_commands, segments, end_offset })
            },
            Err(e) => Err(e),
        }
    }

    /// The Mach-O header.
    pub fn header(&self) -> (header: MachHeader)
        ensures
            header == self@.header,
            self@.wf(),
    {
        proof {
            use_type_invariant(self);
        }
        self.header
    }

    /// The load commands, in the order in which they stand in the file.
    pub fn commands(&self) -> (commands: &Vec<CommandType>)
        ensures
            commands@ == self@.commands,
            self@.wf(),
    {
        proof {
            use_type_invariant(self);
        }
        &self.load_commands
    }

    /// The memory ranges stored in the core dump: one for each segment
    /// command, in the order of the commands.
    pub fn segments(&self) -> (segments: &Vec<Segment>)
        ensures
            segment_views(segments@) == self@.segments,
            self@.wf(),
    {
        proof {
            use_type_invariant(self);
        }
        &self.segments
    }

    /// The offset behind the last load command.
    pub fn end_offset(&self) -> (end_offset: usize)
        ensures
            end_offset == self@.end_offset,
            self@.wf(),
    {
        proof {
            use_type_invariant(self);
        }
        self.end_offset
    }

    /// True if the load commands take as many bytes as the header says in
    /// `sizeofcmds`. A core dump where they do not still decodes.
    pub fn sizeofcmds_matches(&self) -> (matches: bool)
        ensures
            matches == (HEADER_SIZE + self@.header.sizeofcmds == self@.end_offset),
    {
        HEADER_SIZE as u64 + self.header.sizeofcmds as u64 == self.end_offset as u64
    }

    /// Return a Vec of all thread states containing the
    /// general purpose registers in the core dump.
    pub fn get_threads(&self) -> (states: Vec<ArmThreadState64>)
        ensures
            states@ == thread_states(self@.commands),
    {
        let mut states: Vec<ArmThreadState64> = Vec::new();
        let count: usize = self.load_commands.len();
        let mut i: usize = 0;
        while i < count
            invariant
                count == self.load_commands@.len(),
                i <= count,
                states@ == thread_states(self.load_commands@.take(i as int)),
            decreases count - i,
        {
            proof {
                assert(self.load_commands@.take(i + 1).drop_last() =~= self.load_commands@.take(
                    i as int,
                ));
            }
            if let CommandType::ThreadCommand(command) = &self.load_commands[i] {
                states.push(command.state);
            }
            i += 1;
        }
        assert(self.load_commands@.take(count as int) =~= self.load_commands@);
        states
    }
}

/// A core dump that decodes holds exactly as many commands as its header
/// counts, and the sizes that they declare add up to the distance from the
/// end of the header to the offset where the walk ended, which lies inside
/// the buffer.
pub proof fn image_commands_cover_stream(buffer: Seq<u8>, image: MachoView)
    requires
        decode_image(buffer) == Ok::<MachoView, DecodeError>(image),
    ensures
        image.commands.len() == image.header.ncmds,
        declared_size(image.commands) == image.end_offset - HEADER_SIZE,
        HEADER_SIZE <= image.end_offset <= buffer.len(),
{
    lemma_walk_covers(buffer, 32, image.header.ncmds as nat);
}

/// In a core dump that decodes, command `index` is what decoding gives at
/// the offset behind the commands before it: the end of the header plus the
/// sizes that they declare.
pub proof fn image_command_position(buffer: Seq<u8>, image: MachoView, index: int)
    requires
        decode_image(buffer) == Ok::<MachoView, DecodeError>(image),
        0 <= index < image.commands.len(),
    ensures
        decode_command(
            buffer,
            HEADER_SIZE + declared_size(image.commands.take(index)),
        ) == Ok::<CommandType, DecodeError>(image.commands[index]),
{
    lemma_walk_covers(buffer, 32, image.header.ncmds as nat);
    lemma_walk_command(buffer, 32, index as nat, image.header.ncmds as nat);
}

/// Where `keep` keeps item `index` of `items`, what it keeps of it stands in
/// `items.filter_map(keep)` right behind what it keeps of the items before.
pub proof fn lemma_filter_map_position<A, B>(
    items: Seq<A>,
    keep: spec_fn(A) -> Option<B>,
    index: int,
)
    requires
        0 <= index < items.len(),
        keep(items[index]) is Some,
    ensures
        items.take(index).filter_map(keep).len() < items.filter_map(keep).len(),
        items.filter_map(keep)[items.take(index).filter_map(keep).len() as int] == keep(
            items[index],
        ).unwrap(),
    decreases items.len(),
{
    if index < items.len() - 1 {
        lemma_filter_map_position(items.drop_last(), keep, index);
        assert(items.drop_last().take(index) =~= items.take(index));
    }
}

/// In a core dump that decodes, the file range of every segment command
/// lies inside the buffer, and the segment derived from the command holds
/// exactly the `filesize` bytes of that range. It stands among the segments
/// behind those of the segment commands before it.
pub proof fn image_segment_in_bounds(buffer: Seq<u8>, image: MachoView, index: int)
    requires
        decode_image(buffer) == Ok::<MachoView, DecodeError>(image),
        0 <= index < image.commands.len(),
        image.commands[index] is SegmentCommand64,
    ensures
        ({
            let command = *image.commands[index]->SegmentCommand64_0;
            let position = segments_of(image.commands.take(index), buffer).len() as int;
            &&& command.fileoff + command.filesize <= buffer.len()
            &&& position < image.segments.len()
            &&& image.segments[position] == segment_of(command, buffer)
            &&& image.segments[position].content.len() == command.filesize
        }),
{
    image_command_position(buffer, image, index);
    reveal(decode_command);
    lemma_filter_map_position(
        image.commands,
        |command: CommandType| command.spec_segment(buffer),
        index,
    );
}

/// True if `command` is no segment command, or one whose file range lies
/// inside `buffer`.
pub open spec fn segment_range_in_bounds(command: CommandType, buffer: Seq<u8>) -> bool {
    match command.spec_segment_command() {
        Some(command) => command.fileoff + command.filesize <= buffer.len(),
        None => true,
    }
}

/// True if the file ranges of all segment commands among `commands` lie
/// inside `buffer`.
pub open spec fn segment_ranges_in_bounds(commands: Seq<CommandType>, buffer: Seq<u8>) -> bool {
    forall|i: int|
        0 <= i < commands.len() ==> segment_range_in_bounds(#[trigger] commands[i], buffer)
}

/// Where the file ranges of all segment commands lie inside the buffer,
/// there is one segment for each of them, in their order, and each is the
/// one that its command describes.
pub proof fn lemma_segments_follow_commands(commands: Seq<CommandType>, buffer: Seq<u8>)
    requires
        segment_ranges_in_bounds(commands, buffer),
    ensures
        segments_of(commands, buffer).len() == segment_commands(commands).len(),
        forall|k: int|
            0 <= k < segment_commands(commands).len() ==> {
                &&& segments_of(commands, buffer)[k] == segment_of(
                    #[trigger] segment_commands(commands)[k],
                    buffer,
                )
                &&& segment_commands(commands)[k].describes(segments_of(commands, buffer)[k])
            },
    decreases commands.len(),
{
    if commands.len() > 0 {
        lemma_segments_follow_commands(commands.drop_last(), buffer);
    }
}

/// A core dump that decodes is well formed.
pub proof fn image_is_well_formed(buffer: Seq<u8>, image: MachoView)
    requires
        decode_image(buffer) == Ok::<MachoView, DecodeError>(image),
    ensures
        image.wf(),
{
    image_commands_cover_stream(buffer, image);
    assert forall|i: int| 0 <= i < image.commands.len() implies segment_range_in_bounds(
        #[trigger] image.commands[i],
        buffer,
    ) by {
        if image.commands[i] is SegmentCommand64 {
            image_segment_in_bounds(buffer, image, i);
        }
    }
    lemma_segments_follow_commands(image.commands, buffer);
}

/// The register state of thread command `index` stands among the thread
/// states behind those of the thread commands before it.
pub proof fn thread_state_position(commands: Seq<CommandType>, index: int)
    requires
        0 <= index < commands.len(),
        commands[index] is ThreadCommand,
    ensures
        ({
            let position = thread_states(commands.take(index)).len() as int;
            &&& position < thread_states(commands).len()
            &&& thread_states(commands)[position] == commands[index]->ThreadCommand_0.state
        }),
{
    lemma_filter_map_position(
        commands,
        |command: CommandType| command.spec_thread_state(),
        index,
    );
}

/// A buffer that ends with its header, while the header counts at least one
/// load command, fails as truncated at the end of the header.
pub proof fn image_without_commands_is_truncated(buffer: Seq<u8>)
    requires
        buffer.len() == HEADER_SIZE,
        decode_header(buffer) is Ok,
        decode_header(buffer).unwrap().0.ncmds > 0,
    ensures
        decode_image(buffer) == Err::<MachoView, DecodeError>(
            DecodeError { kind: DecodeErrorKind::TruncatedCommand, offset: HEADER_SIZE },
        ),
{
    reveal(decode_command);
    lemma_walk_next(buffer, 32, 0);
    lemma_walk_error_stays(buffer, 32, 1, decode_header(buffer).unwrap().0.ncmds as nat);
}

/// A core dump whose first load command declares a size below the 8 bytes
/// of its own prefix fails with `InvalidCommandSize` at that command.
pub proof fn image_with_short_first_command_is_invalid(buffer: Seq<u8>)
    requires
        buffer.len() >= HEADER_SIZE + 8,
        decode_header(buffer) is Ok,
        decode_header(buffer).unwrap().0.ncmds > 0,
        le_u32(buffer, HEADER_SIZE + 4) < 8,
    ensures
        decode_image(buffer) == Err::<MachoView, DecodeError>(
            DecodeError { kind: DecodeErrorKind::InvalidCommandSize, offset: HEADER_SIZE },
        ),
{
    short_command_is_invalid(buffer, 32);
    lemma_walk_next(buffer, 32, 0);
    lemma_walk_error_stays(buffer, 32, 1, decode_header(buffer).unwrap().0.ncmds as nat);
}

} // verus!
