use ble_touch::flash::{
    erase_bounds, erase_plan, erase_sectors, flash_address, sector_start, write_plan, RangeBound,
    EKV_PARTITION_OFFSET, EKV_SIZE, SECTOR_SIZE,
};
use ble_touch::serial::{decode_line, LineStatus, ReadOutcome, SerialIo, MAX_LINE};

#[test]
fn line_ends_at_newline() {
    let mut io = SerialIo::new();
    for b in b"{\"cmd\":\"up\"}" {
        assert_eq!(io.feed(ReadOutcome::Byte(*b)), LineStatus::NeedMore);
    }
    assert_eq!(io.feed(ReadOutcome::Byte(b'\n')), LineStatus::Complete);
    assert_eq!(io.line_bytes().as_slice(), b"{\"cmd\":\"up\"}");
    assert_eq!(io.finish(), Ok("{\"cmd\":\"up\"}".to_string()));
}

#[test]
fn carriage_return_ends_line() {
    let mut io = SerialIo::new();
    io.feed(ReadOutcome::Byte(b'a'));
    assert_eq!(io.feed(ReadOutcome::Byte(b'\r')), LineStatus::Complete);
    assert_eq!(io.line_bytes().as_slice(), b"a");
}

#[test]
fn read_error_before_data_is_error() {
    let mut io = SerialIo::new();
    assert_eq!(io.feed(ReadOutcome::Nothing), LineStatus::NeedMore);
    assert_eq!(io.feed(ReadOutcome::Failed), LineStatus::ReadError);
}

#[test]
fn read_error_after_data_is_error() {
    let mut io = SerialIo::new();
    io.feed(ReadOutcome::Byte(b'x'));
    assert_eq!(io.feed(ReadOutcome::Failed), LineStatus::ReadError);
}

#[test]
fn long_line_keeps_first_max_line_bytes() {
    let mut io = SerialIo::new();
    for i in 0..300usize {
        let b = b'a' + (i % 26) as u8;
        assert_eq!(io.feed(ReadOutcome::Byte(b)), LineStatus::NeedMore);
    }
    assert_eq!(io.line_bytes().len(), MAX_LINE);
    assert_eq!(io.line_bytes()[255], b'a' + (255 % 26) as u8);
    // the rest of the line is dropped up to its terminator
    assert_eq!(io.feed(ReadOutcome::Byte(b'\n')), LineStatus::Complete);
    assert_eq!(io.line_bytes().len(), MAX_LINE);
    io.clear();
    assert!(io.line_bytes().is_empty());
    for b in b"next" {
        io.feed(ReadOutcome::Byte(*b));
    }
    assert_eq!(io.feed(ReadOutcome::Byte(b'\n')), LineStatus::Complete);
    assert_eq!(io.finish(), Ok("next".to_string()));
}

#[test]
fn finish_trims_and_checks_utf8() {
    let mut io = SerialIo::new();
    for b in "  h\u{e9}llo\t".as_bytes() {
        io.feed(ReadOutcome::Byte(*b));
    }
    assert_eq!(io.finish(), Ok("h\u{e9}llo".to_string()));
    io.clear();
    io.feed(ReadOutcome::Byte(0xff));
    assert_eq!(io.finish(), Err("Invalid UTF-8 on serial line"));
    assert_eq!(decode_line(b"\xe3\x80\x80x\xc2\xa0"), Some("x".to_string()));
    assert_eq!(decode_line(b"\xc0\x80"), None);
    assert_eq!(decode_line(b""), Some(String::new()));
}

#[test]
fn flash_addresses() {
    assert_eq!(flash_address(0), EKV_PARTITION_OFFSET);
    assert_eq!(flash_address(10), 0x900a);
    assert_eq!(sector_start(0x900a), 0x9000);
    assert_eq!(sector_start(0xa000), 0xa000);
    assert_eq!(write_plan(0x1010), (0xa010, 0x1000, 0x2000));
    assert_eq!(erase_plan(0x1000, 0x2000), vec![0xa010 / SECTOR_SIZE]);
}

#[test]
fn erase_range_resolution() {
    assert_eq!(erase_bounds(RangeBound::Included(0x1000), RangeBound::Excluded(0x3000)), (0x1000, 0x3000));
    assert_eq!(erase_bounds(RangeBound::Unbounded, RangeBound::Included(0x0fff)), (0, 0x1000));
    assert_eq!(erase_bounds(RangeBound::Excluded(5), RangeBound::Unbounded), (0, EKV_SIZE));
}

#[test]
fn erase_is_offset_into_the_partition() {
    // store offsets 0..4096 are the partition's first sector, flash sector 9
    assert_eq!(erase_plan(0, 4096), vec![9]);
    assert_eq!(erase_plan(0x1000, 0x3000), vec![10, 11]);
    assert_eq!(erase_plan(0, EKV_SIZE).len(), 16);
    assert_eq!(erase_plan(0, EKV_SIZE)[15], 24);
    assert!(erase_plan(0x2000, 0x2000).is_empty());
    assert!(erase_plan(0x3000, 0x2000).is_empty());
}

#[test]
fn erase_sector_walk() {
    assert_eq!(erase_sectors(0x9000, 0xb000), vec![9, 10]);
    assert_eq!(erase_sectors(0x9000, 0x9001), vec![9]);
    assert_eq!(erase_sectors(0x9000, 0xb001), vec![9, 10, 11]);
    assert!(erase_sectors(0xa000, 0xa000).is_empty());
    assert_eq!(erase_sectors(0, SECTOR_SIZE * 3).len(), 3);
}

#[test]
fn aligned_erase_covers_every_offset() {
    let sectors = erase_plan(0, 0x2001);
    for off in [0u32, 0xfff, 0x1000, 0x2000] {
        assert!(sectors.contains(&((EKV_PARTITION_OFFSET + off) / SECTOR_SIZE)));
    }
}
