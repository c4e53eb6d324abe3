use os2omf::error::{DecodeError, ErrorKind};
use os2omf::source::{push_u16_le, push_u32_le, u16_le, u32_le, ByteSource};

#[test]
fn integers_are_little_endian() {
    let image = [0x34u8, 0x12, 0x78, 0x56, 0x34, 0x12, 0xFF];
    let mut src = ByteSource::new(&image);
    assert_eq!(src.read_u16(), Ok(0x1234));
    assert_eq!(src.position(), 2);
    assert_eq!(src.read_u32(), Ok(0x1234_5678));
    assert_eq!(src.position(), 6);
    assert_eq!(src.read_u8(), Ok(0xFF));
    assert_eq!(src.position(), 7);
    assert_eq!(u16_le(&image, 1), 0x7812);
    assert_eq!(u32_le(&image, 3), 0xFF12_3456);
}

#[test]
fn encoders_write_low_byte_first() {
    let mut out = Vec::new();
    push_u16_le(&mut out, 0xABCD);
    push_u32_le(&mut out, 0x0102_0304);
    assert_eq!(out, vec![0xCD, 0xAB, 0x04, 0x03, 0x02, 0x01]);
}

#[test]
fn short_read_fails_and_leaves_cursor() {
    let image = [1u8, 2, 3];
    let mut src = ByteSource::new(&image);
    assert_eq!(src.read_u8(), Ok(1));
    assert_eq!(
        src.read_u32(),
        Err(DecodeError { kind: ErrorKind::Truncated, offset: 1 })
    );
    assert_eq!(src.position(), 1);
    assert_eq!(src.read_u16(), Ok(0x0302));
    assert_eq!(
        src.read_u8(),
        Err(DecodeError { kind: ErrorKind::Truncated, offset: 3 })
    );
}

#[test]
fn read_exact_hands_out_the_bytes_at_the_cursor() {
    let image = [9u8, 8, 7, 6, 5];
    let mut src = ByteSource::new(&image);
    src.seek_absolute(1).unwrap();
    assert_eq!(src.read_exact(3), Ok(&image[1..4]));
    assert_eq!(src.position(), 4);
    assert_eq!(src.read_exact(0), Ok(&image[4..4]));
    assert_eq!(
        src.read_exact(2),
        Err(DecodeError { kind: ErrorKind::Truncated, offset: 4 })
    );
}

#[test]
fn seek_to_end_is_allowed_past_end_is_not() {
    let image = [0u8; 10];
    let mut src = ByteSource::new(&image);
    assert_eq!(src.length(), 10);
    assert_eq!(src.seek_absolute(10), Ok(()));
    assert_eq!(src.position(), 10);
    assert_eq!(
        src.seek_absolute(11),
        Err(DecodeError { kind: ErrorKind::Truncated, offset: 11 })
    );
    assert_eq!(src.position(), 10);
    assert_eq!(src.seek_absolute(0), Ok(()));
    assert_eq!(src.position(), 0);
}

#[test]
fn holds_counts_from_the_cursor() {
    let image = [0u8; 4];
    let mut src = ByteSource::new(&image);
    assert!(src.holds(4));
    assert!(!src.holds(5));
    src.seek_absolute(3).unwrap();
    assert!(src.holds(1));
    assert!(!src.holds(2));
    assert!(src.holds(0));
}

#[test]
fn window_stops_reads_at_its_end() {
    let image = [1u8, 2, 3, 4, 5, 6];
    let src = ByteSource::new(&image);
    let mut part = src.window(4);
    assert_eq!(part.length(), 4);
    assert_eq!(part.position(), 0);
    part.seek_absolute(2).unwrap();
    assert_eq!(part.read_u16(), Ok(0x0403));
    assert_eq!(
        part.read_u8(),
        Err(DecodeError { kind: ErrorKind::Truncated, offset: 4 })
    );
    let whole = src.window(100);
    assert_eq!(whole.length(), 6);
}

#[test]
fn locate_resolves_relative_pointers() {
    let image = [0u8; 0x100];
    let src = ByteSource::new(&image);
    assert_eq!(src.locate(0x40, 0), Ok(None));
    assert_eq!(src.locate(0x40, 0x20), Ok(Some(0x60)));
    assert_eq!(src.locate(0x40, 0xBF), Ok(Some(0xFF)));
    assert_eq!(
        src.locate(0x40, 0xC0),
        Err(DecodeError { kind: ErrorKind::Truncated, offset: 0x100 })
    );
    assert_eq!(
        src.locate(0xFFFF_FFFF, 0xFFFF_FFFF),
        Err(DecodeError { kind: ErrorKind::Truncated, offset: 0x1_FFFF_FFFE })
    );
}
