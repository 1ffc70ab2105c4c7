//! The walk over the load commands that follow the header.
//!
//! Each command says how long it is, so the commands can only be found one
//! after the other. No size is believed before it has been held against the
//! buffer, and every command moves the walk on by at least its prefix.
use crate::error::DecodeError;
use crate::load_command::{decode_command, lemma_decoded_command_size, CommandType};
use crate::segment::{Segment, SegmentView};
use vstd::prelude::*;

verus! {

/// What walking `count` load commands from offset `start` gives: the
/// commands in file order and the offset behind the last of them, or the
/// error of the first command that does not decode.
///
/// Each command starts where the one before it ends by its declared size.
pub open spec fn walk(buffer: Seq<u8>, start: int, count: nat) -> Result<
    (Seq<CommandType>, int),
    DecodeError,
>
    decreases count,
{
    if count == 0 {
        Ok((Seq::empty(), start))
    } else {
        match walk(buffer, start, (count - 1) as nat) {
            Err(e) => Err(e),
            Ok((commands, at)) => match decode_command(buffer, at) {
                Err(e) => Err(e),
                Ok(command) => Ok((commands.push(command), at + command.spec_cmdsize())),
            },
        }
    }
}

/// The sum of the sizes that `commands` declare.
pub open spec fn declared_size(commands: Seq<CommandType>) -> int
    decreases commands.len(),
{
    if commands.len() == 0 {
        0
    } else {
        declared_size(commands.drop_last()) + commands.last().spec_cmdsize()
    }
}

/// The segments that `commands` describe in `buffer`: one for each segment
/// command, in the order of the commands.
pub open spec fn segments_of(commands: Seq<CommandType>, buffer: Seq<u8>) -> Seq<SegmentView> {
    commands.filter_map(|command: CommandType| command.spec_segment(buffer))
}

/// The views of a run of segments.
pub open spec fn segment_views(segments: Seq<Segment>) -> Seq<SegmentView> {
    segments.map_values(|segment: Segment| segment@)
}

/// Walks `ncmds` load commands from offset `start` of `buffer`.
///
/// Returns the commands in file order, the segments that the segment
/// commands among them describe, and the offset behind the last command; or
/// the error of the first command that does not decode.
pub fn walk_commands(buffer: &[u8], start: usize, ncmds: u32) -> (r: Result<
    (Vec<CommandType>, Vec<Segment>, usize),
    DecodeError,
>)
    ensures
        match r {
            Ok((commands, segments, end_offset)) => {
                &&& walk(buffer@, start as int, ncmds as nat) == Ok::<
                    (Seq<CommandType>, int),
                    DecodeError,
                >((commands@, end_offset as int))
                &&& segment_views(segments@) == segments_of(commands@, buffer@)
            },
            Err(e) => walk(buffer@, start as int, ncmds as nat) == Err::<
                (Seq<CommandType>, int),
                DecodeError,
            >(e),
        },
{
    let mut commands: Vec<CommandType> = Vec::new();
    let mut segments: Vec<Segment> = Vec::new();
    let mut offset: usize = start;
    let mut done: u32 = 0;
    while done < ncmds
        invariant
            done <= ncmds,
            walk(buffer@, start as int, done as nat) == Ok::<(Seq<CommandType>, int), DecodeError>(
                (commands@, offset as int),
            ),
            segment_views(segments@) == segments_of(commands@, buffer@),
        decreases ncmds - done,
    {
        proof {
            lemma_walk_next(buffer@, start as int, done as nat);
        }
        match CommandType::decode(buffer, offset) {
            Err(e) => {
                proof {
                    lemma_walk_error_stays(buffer@, start as int, (done + 1) as nat, ncmds as nat);
                }
                return Err(e);
            },
            Ok((command, segment)) => {
                proof {
                    assert(buffer@.len() == buffer.len());
                    lemma_decoded_command_size(buffer@, offset as int);
                    lemma_segments_of_push(commands@, command, buffer@);
                }
                offset = offset + command.cmdsize() as usize;
                commands.push(command);
                if let Some(segment) = segment {
                    segments.push(segment);
                }
            },
        }
        done += 1;
    }
    Ok((commands, segments, offset))
}

/// Walking one command further decodes the command at the offset reached.
pub proof fn lemma_walk_next(buffer: Seq<u8>, start: int, count: nat)
    requires
        walk(buffer, start, count) is Ok,
    ensures
        walk(buffer, start, count + 1) == match decode_command(
            buffer,
            walk(buffer, start, count).unwrap().1,
        ) {
            Err(e) => Err::<(Seq<CommandType>, int), DecodeError>(e),
            Ok(command) => Ok(
                (
                    walk(buffer, start, count).unwrap().0.push(command),
                    walk(buffer, start, count).unwrap().1 + command.spec_cmdsize(),
                ),
            ),
        },
{
}

/// Once a command fails to decode, walking further gives the same error.
pub proof fn lemma_walk_error_stays(buffer: Seq<u8>, start: int, failed: nat, count: nat)
    requires
        walk(buffer, start, failed) is Err,
        failed <= count,
    ensures
        walk(buffer, start, count) == walk(buffer, start, failed),
    decreases count,
{
    if failed < count {
        lemma_walk_error_stays(buffer, start, failed, (count - 1) as nat);
    }
}

/// A walk that succeeds has as many commands as were asked for, and ends
/// behind them: at the start plus the sizes that they declare. If it holds
/// any command, it ends inside the buffer.
pub proof fn lemma_walk_covers(buffer: Seq<u8>, start: int, count: nat)
    requires
        walk(buffer, start, count) is Ok,
    ensures
        walk(buffer, start, count).unwrap().0.len() == count,
        walk(buffer, start, count).unwrap().1 == start + declared_size(
            walk(buffer, start, count).unwrap().0,
        ),
        start <= walk(buffer, start, count).unwrap().1,
        count > 0 ==> walk(buffer, start, count).unwrap().1 <= buffer.len(),
    decreases count,
{
    if count > 0 {
        let before = (count - 1) as nat;
        lemma_walk_covers(buffer, start, before);
        lemma_walk_next(buffer, start, before);
        let (commands, at) = walk(buffer, start, before).unwrap();
        lemma_decoded_command_size(buffer, at);
        let command = decode_command(buffer, at).unwrap();
        assert(commands.push(command).drop_last() =~= commands);
    }
}

/// A walk that succeeds is made of the shorter walks: the first `shorter`
/// commands of it are what walking `shorter` commands gives.
pub proof fn lemma_walk_prefix(buffer: Seq<u8>, start: int, shorter: nat, count: nat)
    requires
        walk(buffer, start, count) is Ok,
        shorter <= count,
    ensures
        walk(buffer, start, shorter) is Ok,
        walk(buffer, start, shorter).unwrap().0 == walk(buffer, start, count).unwrap().0.take(
            shorter as int,
        ),
    decreases count,
{
    lemma_walk_covers(buffer, start, count);
    if shorter < count {
        let before = (count - 1) as nat;
        lemma_walk_prefix(buffer, start, shorter, before);
        lemma_walk_covers(buffer, start, before);
        lemma_walk_next(buffer, start, before);
        assert(walk(buffer, start, before).unwrap().0.take(shorter as int) =~= walk(
            buffer,
            start,
            count,
        ).unwrap().0.take(shorter as int));
    } else {
        assert(walk(buffer, start, count).unwrap().0.take(count as int) =~= walk(
            buffer,
            start,
            count,
        ).unwrap().0);
    }
}

/// In a walk that succeeds, command `index` is what decoding gives at the
/// offset behind the commands before it.
pub proof fn lemma_walk_command(buffer: Seq<u8>, start: int, index: nat, count: nat)
    requires
        walk(buffer, start, count) is Ok,
        index < count,
    ensures
        walk(buffer, start, index) is Ok,
        decode_command(buffer, walk(buffer, start, index).unwrap().1) == Ok::<
            CommandType,
            DecodeError,
        >(walk(buffer, start, count).unwrap().0[index as int]),
        walk(buffer, start, index).unwrap().1 == start + declared_size(
            walk(buffer, start, count).unwrap().0.take(index as int),
        ),
{
    lemma_walk_covers(buffer, start, count);
    lemma_walk_prefix(buffer, start, index + 1, count);
    lemma_walk_prefix(buffer, start, index, count);
    lemma_walk_covers(buffer, start, index);
    lemma_walk_next(buffer, start, index);
    let whole = walk(buffer, start, count).unwrap().0;
    assert(whole.take((index + 1) as int)[index as int] == whole[index as int]);
}

/// A command behind the others adds its segment, if it has one, behind
/// theirs.
pub proof fn lemma_segments_of_push(
    commands: Seq<CommandType>,
    command: CommandType,
    buffer: Seq<u8>,
)
    ensures
        segments_of(commands.push(command), buffer) == match command.spec_segment(buffer) {
            Some(segment) => segments_of(commands, buffer).push(segment),
            None => segments_of(commands, buffer),
        },
{
    assert(commands.push(command).drop_last() =~= commands);
    match command.spec_segment(buffer) {
        Some(segment) => {
            assert(segments_of(commands, buffer) + seq![segment] =~= segments_of(
                commands,
                buffer,
            ).push(segment));
        },
        None => {},
    }
}

} // verus!
