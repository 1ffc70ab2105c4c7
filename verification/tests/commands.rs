use mach_dump::error::{DecodeError, DecodeErrorKind};
use mach_dump::load_command::{
    ArmThreadState64, CommandType, LoadCommand, LoadCommandType, SegmentCommand64, ThreadCommand,
    LC_SEGMENT_64, LC_THREAD, LC_UUID, LOAD_COMMAND_SIZE, SEGMENT_COMMAND_SIZE,
    THREAD_COMMAND_SIZE,
};
use mach_dump::segment::Segment;

fn err(kind: DecodeErrorKind, offset: usize) -> DecodeError {
    DecodeError { kind, offset }
}

fn segment_bytes(
    cmdsize: u32,
    vmaddr: u64,
    vmsize: u64,
    fileoff: u64,
    filesize: u64,
    maxprot: i32,
) -> Vec<u8> {
    let mut out = Vec::new();
    out.extend_from_slice(&LC_SEGMENT_64.to_le_bytes());
    out.extend_from_slice(&cmdsize.to_le_bytes());
    out.extend_from_slice(b"__SEGMENT_NAME_X");
    out.extend_from_slice(&vmaddr.to_le_bytes());
    out.extend_from_slice(&vmsize.to_le_bytes());
    out.extend_from_slice(&fileoff.to_le_bytes());
    out.extend_from_slice(&filesize.to_le_bytes());
    out.extend_from_slice(&maxprot.to_le_bytes());
    out.extend_from_slice(&(maxprot ^ 1).to_le_bytes());
    out.extend_from_slice(&0x0a0b_0c0du32.to_le_bytes());
    out.extend_from_slice(&0x0102_0304u32.to_le_bytes());
    out
}

fn thread_bytes(cmdsize: u32, base: u64) -> Vec<u8> {
    let mut out = Vec::new();
    out.extend_from_slice(&LC_THREAD.to_le_bytes());
    out.extend_from_slice(&cmdsize.to_le_bytes());
    out.extend_from_slice(&6u32.to_le_bytes());
    out.extend_from_slice(&68u32.to_le_bytes());
    for i in 0..29u64 {
        out.extend_from_slice(&(base + i).to_le_bytes());
    }
    out.extend_from_slice(&(base + 0x100).to_le_bytes());
    out.extend_from_slice(&(base + 0x200).to_le_bytes());
    out.extend_from_slice(&(base + 0x300).to_le_bytes());
    out.extend_from_slice(&(base + 0x400).to_le_bytes());
    out.extend_from_slice(&0x6000_0000u32.to_le_bytes());
    out.extend_from_slice(&0x0bad_f00du32.to_le_bytes());
    out
}

fn thread_state(base: u64) -> ArmThreadState64 {
    let mut x = [0u64; 29];
    for i in 0..29 {
        x[i] = base + i as u64;
    }
    ArmThreadState64 {
        x,
        fp: base + 0x100,
        lr: base + 0x200,
        sp: base + 0x300,
        pc: base + 0x400,
        cpsr: 0x6000_0000,
        pad: 0x0bad_f00d,
    }
}

#[test]
fn sizes_of_the_layout() {
    assert_eq!(LOAD_COMMAND_SIZE, 8);
    assert_eq!(SEGMENT_COMMAND_SIZE, 72);
    assert_eq!(THREAD_COMMAND_SIZE, 16 + 29 * 8 + 4 * 8 + 4 + 4);
}

#[test]
fn load_command_new_reads_kind_then_size() {
    let raw = [0x19, 0, 0, 0, 0x48, 0, 0, 0];
    assert_eq!(
        LoadCommand::new(&raw),
        LoadCommand { cmd: LoadCommandType(0x19), cmdsize: 72 }
    );
    let raw = [0x28, 0, 0, 0x80, 0x78, 0x56, 0x34, 0x12];
    assert_eq!(
        LoadCommand::new(&raw),
        LoadCommand { cmd: LoadCommandType(0x8000_0028), cmdsize: 0x1234_5678 }
    );
}

#[test]
fn load_command_decode_at_offset() {
    let mut buffer = vec![0xeeu8; 5];
    buffer.extend_from_slice(&LC_UUID.to_le_bytes());
    buffer.extend_from_slice(&24u32.to_le_bytes());
    buffer.extend_from_slice(&[0u8; 16]);
    assert_eq!(
        LoadCommand::decode(&buffer, 5),
        Ok(LoadCommand { cmd: LoadCommandType(LC_UUID), cmdsize: 24 })
    );
}

#[test]
fn load_command_decode_needs_eight_bytes() {
    let mut buffer = vec![0u8; 4];
    buffer.extend_from_slice(&LC_UUID.to_le_bytes());
    buffer.extend_from_slice(&[8, 0, 0]);
    assert_eq!(buffer.len(), 11);
    assert_eq!(LoadCommand::decode(&buffer, 4), Err(err(DecodeErrorKind::TruncatedCommand, 4)));
    assert_eq!(LoadCommand::decode(&buffer, 11), Err(err(DecodeErrorKind::TruncatedCommand, 11)));
    assert_eq!(LoadCommand::decode(&buffer, 12), Err(err(DecodeErrorKind::TruncatedCommand, 12)));
    assert_eq!(
        LoadCommand::decode(&buffer, usize::MAX),
        Err(err(DecodeErrorKind::TruncatedCommand, usize::MAX))
    );
}

#[test]
fn load_command_decode_rejects_sizes_below_the_prefix() {
    for cmdsize in [0u32, 1, 4, 7] {
        let mut buffer = Vec::new();
        buffer.extend_from_slice(&LC_UUID.to_le_bytes());
        buffer.extend_from_slice(&cmdsize.to_le_bytes());
        buffer.extend_from_slice(&[0u8; 64]);
        assert_eq!(
            LoadCommand::decode(&buffer, 0),
            Err(err(DecodeErrorKind::InvalidCommandSize, 0))
        );
    }
}

#[test]
fn load_command_decode_rejects_sizes_beyond_the_buffer() {
    let mut buffer = vec![0u8; 3];
    buffer.extend_from_slice(&LC_UUID.to_le_bytes());
    buffer.extend_from_slice(&17u32.to_le_bytes());
    buffer.extend_from_slice(&[0u8; 8]);
    assert_eq!(buffer.len(), 19);
    assert_eq!(LoadCommand::decode(&buffer, 3), Err(err(DecodeErrorKind::InvalidCommandSize, 3)));
    buffer.push(0);
    assert_eq!(
        LoadCommand::decode(&buffer, 3),
        Ok(LoadCommand { cmd: LoadCommandType(LC_UUID), cmdsize: 17 })
    );
    let mut huge = Vec::new();
    huge.extend_from_slice(&LC_UUID.to_le_bytes());
    huge.extend_from_slice(&u32::MAX.to_le_bytes());
    assert_eq!(LoadCommand::decode(&huge, 0), Err(err(DecodeErrorKind::InvalidCommandSize, 0)));
}

#[test]
fn load_command_of_exactly_the_prefix() {
    let mut buffer = Vec::new();
    buffer.extend_from_slice(&0x77u32.to_le_bytes());
    buffer.extend_from_slice(&8u32.to_le_bytes());
    assert_eq!(
        LoadCommand::decode(&buffer, 0),
        Ok(LoadCommand { cmd: LoadCommandType(0x77), cmdsize: 8 })
    );
}

#[test]
fn segment_command_new_reads_every_field() {
    let bytes = segment_bytes(72, 0x1_0000_1000, 0x2000, 0x4000, 0x1800, 7);
    let mut raw = [0u8; 72];
    raw.copy_from_slice(&bytes);
    let command = SegmentCommand64::new(&raw);
    assert_eq!(
        command,
        SegmentCommand64 {
            cmd: LoadCommandType(LC_SEGMENT_64),
            cmdsize: 72,
            segname: *b"__SEGMENT_NAME_X",
            vmaddr: 0x1_0000_1000,
            vmsize: 0x2000,
            fileoff: 0x4000,
            filesize: 0x1800,
            maxprot: 7,
            initprot: 6,
            nsects: 0x0a0b_0c0d,
            flags: 0x0102_0304,
        }
    );
}

#[test]
fn segment_command_new_gives_the_segment_kind_whatever_the_bytes_say() {
    let mut raw = [0u8; 72];
    raw[0] = 0x04;
    raw[4] = 200;
    let command = SegmentCommand64::new(&raw);
    assert_eq!(command.cmd, LoadCommandType(0x19));
    assert_eq!(command.cmdsize, 200);
}

#[test]
fn segment_command_negative_protection() {
    let bytes = segment_bytes(72, 0, 0, 0, 0, -2);
    let mut raw = [0u8; 72];
    raw.copy_from_slice(&bytes);
    let command = SegmentCommand64::new(&raw);
    assert_eq!(command.maxprot, -2);
    assert_eq!(command.initprot, -1);
}

#[test]
fn segment_decode_copies_the_file_range() {
    let raw = segment_bytes(72, 0x1000, 0x2000, 3, 5, 5);
    let buffer: Vec<u8> = (0u8..20).collect();
    let (command, segment) = SegmentCommand64::decode(&raw, &buffer, 40).unwrap();
    assert_eq!(command.fileoff, 3);
    assert_eq!(command.filesize, 5);
    assert_eq!(
        segment,
        Segment { vmaddr: 0x1000, vmsize: 0x2000, perms: 5, content: vec![3, 4, 5, 6, 7] }
    );
    assert_eq!(segment.content.len() as u64, command.filesize);
}

#[test]
fn segment_decode_of_an_empty_range() {
    let raw = segment_bytes(72, 0x1000, 0x2000, 20, 0, 1);
    let buffer = vec![9u8; 20];
    let (_, segment) = SegmentCommand64::decode(&raw, &buffer, 0).unwrap();
    assert_eq!(segment.content, Vec::<u8>::new());
    assert_eq!(segment.vmsize, 0x2000);
}

#[test]
fn segment_decode_range_up_to_the_last_byte() {
    let raw = segment_bytes(72, 0, 0, 16, 4, 1);
    let buffer: Vec<u8> = (0u8..20).collect();
    let (_, segment) = SegmentCommand64::decode(&raw, &buffer, 0).unwrap();
    assert_eq!(segment.content, vec![16, 17, 18, 19]);
}

#[test]
fn segment_decode_out_of_bounds() {
    let buffer = vec![0u8; 20];
    for (fileoff, filesize) in [
        (20u64, 1u64),
        (16, 5),
        (0, 21),
        (21, 0),
        (u64::MAX, 1),
        (u64::MAX, u64::MAX),
        (1, u64::MAX),
        (1u64 << 32, 0),
    ] {
        let raw = segment_bytes(72, 0, 0, fileoff, filesize, 1);
        assert_eq!(
            SegmentCommand64::decode(&raw, &buffer, 32),
            Err(err(DecodeErrorKind::SegmentOutOfBounds, 32))
        );
    }
}

#[test]
fn segment_decode_needs_72_bytes() {
    let raw = segment_bytes(72, 0, 0, 0, 0, 1);
    let buffer = vec![0u8; 100];
    for len in [0usize, 8, 71] {
        assert_eq!(
            SegmentCommand64::decode(&raw[..len], &buffer, 7),
            Err(err(DecodeErrorKind::TruncatedCommand, 7))
        );
    }
}

#[test]
fn segment_decode_truncation_comes_before_bounds() {
    let raw = segment_bytes(72, 0, 0, 1000, 1000, 1);
    let buffer = vec![0u8; 10];
    assert_eq!(
        SegmentCommand64::decode(&raw[..60], &buffer, 0),
        Err(err(DecodeErrorKind::TruncatedCommand, 0))
    );
}

#[test]
fn segment_decode_keeps_low_eight_bits_of_the_protection() {
    let raw = segment_bytes(72, 0, 0, 0, 0, 0x0107);
    let (command, segment) = SegmentCommand64::decode(&raw, &[], 0).unwrap();
    assert_eq!(command.maxprot, 0x0107);
    assert_eq!(segment.perms, 7);
    let raw = segment_bytes(72, 0, 0, 0, 0, -1);
    let (_, segment) = SegmentCommand64::decode(&raw, &[], 0).unwrap();
    assert_eq!(segment.perms, 0xff);
}

#[test]
fn segment_decode_ignores_bytes_behind_the_fixed_part() {
    let mut raw = segment_bytes(80, 0x10, 0x20, 0, 2, 3);
    raw.extend_from_slice(&[0xffu8; 8]);
    let buffer = vec![0xabu8, 0xcd, 0xef];
    let (command, segment) = SegmentCommand64::decode(&raw, &buffer, 0).unwrap();
    assert_eq!(command.cmdsize, 80);
    assert_eq!(segment.content, vec![0xab, 0xcd]);
}

#[test]
fn segment_new_keeps_its_arguments() {
    let segment = Segment::new(0x1000, 0x2000, 3, vec![1, 2, 3]);
    assert_eq!(segment.vmaddr, 0x1000);
    assert_eq!(segment.vmsize, 0x2000);
    assert_eq!(segment.perms, 3);
    assert_eq!(segment.content, vec![1, 2, 3]);
}

#[test]
fn thread_command_new_reads_registers_in_order() {
    let bytes = thread_bytes(288, 0x1111_0000_0000_0000);
    let mut raw = [0u8; 288];
    raw.copy_from_slice(&bytes);
    let command = ThreadCommand::new(&raw);
    assert_eq!(
        command,
        ThreadCommand {
            cmd: LoadCommandType(LC_THREAD),
            cmdsize: 288,
            flavor: 6,
            count: 68,
            state: thread_state(0x1111_0000_0000_0000),
        }
    );
    assert_eq!(command.state.x[0], 0x1111_0000_0000_0000);
    assert_eq!(command.state.x[28], 0x1111_0000_0000_001c);
    assert_eq!(command.state.pc, 0x1111_0000_0000_0400);
}

#[test]
fn thread_command_new_gives_the_thread_kind_whatever_the_bytes_say() {
    let mut raw = [0u8; 288];
    raw[0] = 0x19;
    let command = ThreadCommand::new(&raw);
    assert_eq!(command.cmd, LoadCommandType(4));
    assert_eq!(command.cmdsize, 0);
    assert_eq!(command.state.x, [0u64; 29]);
}

#[test]
fn thread_decode_does_not_judge_flavor_and_count() {
    let mut raw = thread_bytes(288, 5);
    raw[8..12].copy_from_slice(&0xffff_ffffu32.to_le_bytes());
    raw[12..16].copy_from_slice(&1u32.to_le_bytes());
    let command = ThreadCommand::decode(&raw, 0).unwrap();
    assert_eq!(command.flavor, 0xffff_ffff);
    assert_eq!(command.count, 1);
    assert_eq!(command.state, thread_state(5));
}

#[test]
fn thread_decode_needs_288_bytes() {
    let raw = thread_bytes(288, 0);
    for len in [0usize, 16, 280, 287] {
        assert_eq!(
            ThreadCommand::decode(&raw[..len], 104),
            Err(err(DecodeErrorKind::TruncatedCommand, 104))
        );
    }
    assert!(ThreadCommand::decode(&raw, 104).is_ok());
}

#[test]
fn thread_decode_ignores_bytes_behind_the_registers() {
    let mut raw = thread_bytes(300, 0x40);
    raw.extend_from_slice(&[0xeeu8; 12]);
    let command = ThreadCommand::decode(&raw, 0).unwrap();
    assert_eq!(command.cmdsize, 300);
    assert_eq!(command.state, thread_state(0x40));
}

#[test]
fn command_decode_dispatches_on_the_kind() {
    let mut buffer = vec![0x11u8; 4];
    buffer.extend_from_slice(&segment_bytes(72, 0x1000, 0x2000, 0, 4, 3));
    buffer.extend_from_slice(&thread_bytes(288, 9));
    buffer.extend_from_slice(&LC_UUID.to_le_bytes());
    buffer.extend_from_slice(&24u32.to_le_bytes());
    buffer.extend_from_slice(&[0x22u8; 16]);

    let (command, segment) = CommandType::decode(&buffer, 4).unwrap();
    match &command {
        CommandType::SegmentCommand64(sc) => assert_eq!(sc.vmaddr, 0x1000),
        other => panic!("not a segment command: {:?}", other),
    }
    assert_eq!(command.cmd(), LoadCommandType(LC_SEGMENT_64));
    assert_eq!(command.cmdsize(), 72);
    assert_eq!(
        segment,
        Some(Segment { vmaddr: 0x1000, vmsize: 0x2000, perms: 3, content: vec![0x11; 4] })
    );

    let (command, segment) = CommandType::decode(&buffer, 76).unwrap();
    match &command {
        CommandType::ThreadCommand(tc) => assert_eq!(tc.state, thread_state(9)),
        other => panic!("not a thread command: {:?}", other),
    }
    assert_eq!(command.cmd(), LoadCommandType(LC_THREAD));
    assert_eq!(command.cmdsize(), 288);
    assert_eq!(segment, None);

    let (command, segment) = CommandType::decode(&buffer, 364).unwrap();
    assert_eq!(
        command,
        CommandType::Skipped(LoadCommand { cmd: LoadCommandType(LC_UUID), cmdsize: 24 })
    );
    assert_eq!(command.cmd(), LoadCommandType(LC_UUID));
    assert_eq!(command.cmdsize(), 24);
    assert_eq!(segment, None);
}

#[test]
fn command_decode_hands_the_decoder_only_the_declared_bytes() {
    // A thread command that declares 100 bytes is truncated, although the
    // buffer goes on for long enough behind it.
    let mut buffer = thread_bytes(100, 0);
    buffer.extend_from_slice(&[0u8; 400]);
    assert_eq!(
        CommandType::decode(&buffer, 0),
        Err(err(DecodeErrorKind::TruncatedCommand, 0))
    );
    let mut buffer = segment_bytes(71, 0, 0, 0, 0, 0);
    buffer.extend_from_slice(&[0u8; 400]);
    assert_eq!(
        CommandType::decode(&buffer, 0),
        Err(err(DecodeErrorKind::TruncatedCommand, 0))
    );
}

#[test]
fn command_decode_errors_of_the_prefix() {
    let buffer = thread_bytes(288, 0);
    assert_eq!(
        CommandType::decode(&buffer[..7], 0),
        Err(err(DecodeErrorKind::TruncatedCommand, 0))
    );
    assert_eq!(
        CommandType::decode(&buffer[..287], 0),
        Err(err(DecodeErrorKind::InvalidCommandSize, 0))
    );
    assert_eq!(
        CommandType::decode(&buffer, 288),
        Err(err(DecodeErrorKind::TruncatedCommand, 288))
    );
}

#[test]
fn command_with_size_four_is_invalid() {
    for kind in [LC_SEGMENT_64, LC_THREAD, LC_UUID] {
        let mut buffer = Vec::new();
        buffer.extend_from_slice(&kind.to_le_bytes());
        buffer.extend_from_slice(&4u32.to_le_bytes());
        buffer.extend_from_slice(&[0u8; 512]);
        assert_eq!(
            CommandType::decode(&buffer, 0),
            Err(err(DecodeErrorKind::InvalidCommandSize, 0))
        );
    }
}

#[test]
fn command_decode_segment_beyond_buffer() {
    let buffer = segment_bytes(72, 0, 0, 72, 1, 1);
    assert_eq!(buffer.len(), 72);
    assert_eq!(
        CommandType::decode(&buffer, 0),
        Err(err(DecodeErrorKind::SegmentOutOfBounds, 0))
    );
}
