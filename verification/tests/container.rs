use os2omf::container::{Container, TargetObject};
use os2omf::error::{DecodeError, ErrorKind};
use os2omf::exe386::LinearExecutableLayout;
use os2omf::source::ByteSource;

fn mz_image(lfanew: u32, len: usize) -> Vec<u8> {
    let mut image = vec![0u8; len];
    image[0] = b'M';
    image[1] = b'Z';
    image[60..64].copy_from_slice(&lfanew.to_le_bytes());
    image
}

#[test]
fn mz_without_inner_header() {
    let image = mz_image(0, 64);
    let src = ByteSource::new(&image);
    let c = Container::detect(&src).unwrap();
    assert_eq!(c.kind, TargetObject::MZModule);
    assert_eq!(c.base, 0);
    assert_eq!(c.dos.unwrap().e_lfanew, 0);
    assert_eq!(LinearExecutableLayout::define_base_offset(&src), None);
}

#[test]
fn inner_header_stands_where_the_dos_header_links_to() {
    for (tag, kind) in [
        (b"NE", TargetObject::NEModule),
        (b"LX", TargetObject::LXModule),
        (b"LE", TargetObject::LEModule),
    ] {
        let mut image = mz_image(0x80, 0x100);
        image[0x80] = tag[0];
        image[0x81] = tag[1];
        let src = ByteSource::new(&image);
        let c = Container::detect(&src).unwrap();
        assert_eq!(c.kind, kind);
        assert_eq!(c.base, 0x80);
        assert_eq!(c.base, c.dos.unwrap().e_lfanew as u64);
    }
}

#[test]
fn linear_image_without_dos_header_has_base_zero() {
    for (tag, kind) in [
        (b"LX", TargetObject::LXModule),
        (b"LE", TargetObject::LEModule),
    ] {
        let mut image = vec![0u8; 200];
        image[0] = tag[0];
        image[1] = tag[1];
        let src = ByteSource::new(&image);
        let c = Container::detect(&src).unwrap();
        assert_eq!(c, Container { dos: None, base: 0, kind });
        assert_eq!(LinearExecutableLayout::define_base_offset(&src), Some(0));
    }
    let tiny = [b'L', b'X'];
    let src = ByteSource::new(&tiny);
    assert_eq!(Container::detect(&src).unwrap().kind, TargetObject::LXModule);
}

#[test]
fn unknown_images_are_unknown_containers() {
    let mut image = mz_image(0x80, 0x100);
    image[0x80] = b'P';
    image[0x81] = b'E';
    let src = ByteSource::new(&image);
    assert_eq!(
        Container::detect(&src),
        Err(DecodeError { kind: ErrorKind::UnknownContainer, offset: 0x80 })
    );
    let elf = [0x7Fu8, b'E', b'L', b'F', 0, 0, 0, 0];
    let src = ByteSource::new(&elf);
    assert_eq!(
        Container::detect(&src),
        Err(DecodeError { kind: ErrorKind::UnknownContainer, offset: 0 })
    );
    let ne_alone = [b'N', b'E', 0, 0];
    let src = ByteSource::new(&ne_alone);
    assert_eq!(
        Container::detect(&src),
        Err(DecodeError { kind: ErrorKind::UnknownContainer, offset: 0 })
    );
    let empty: [u8; 0] = [];
    let src = ByteSource::new(&empty);
    assert_eq!(
        Container::detect(&src),
        Err(DecodeError { kind: ErrorKind::UnknownContainer, offset: 0 })
    );
}

#[test]
fn link_past_the_end_is_truncated() {
    let image = mz_image(0x1000, 0x100);
    let src = ByteSource::new(&image);
    assert_eq!(
        Container::detect(&src),
        Err(DecodeError { kind: ErrorKind::Truncated, offset: 0x1000 })
    );
    let image = mz_image(0xFF, 0x100);
    let src = ByteSource::new(&image);
    assert_eq!(
        Container::detect(&src),
        Err(DecodeError { kind: ErrorKind::Truncated, offset: 0xFF })
    );
}

#[test]
fn classify_reads_the_tag_at_the_base() {
    let mut image = vec![0u8; 16];
    image[8] = b'L';
    image[9] = b'E';
    let src = ByteSource::new(&image);
    assert_eq!(
        Container::classify(&src, None, 8),
        Ok(Container { dos: None, base: 8, kind: TargetObject::LEModule })
    );
    assert_eq!(
        Container::classify(&src, None, 0),
        Err(DecodeError { kind: ErrorKind::UnknownContainer, offset: 0 })
    );
    assert_eq!(
        Container::classify(&src, None, 15),
        Err(DecodeError { kind: ErrorKind::Truncated, offset: 15 })
    );
}
