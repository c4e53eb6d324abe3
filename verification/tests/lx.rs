use os2omf::error::{DecodeError, ErrorKind};
use os2omf::exe386::dirtab::{
    DirectiveType, ModuleDependency, ModuleDirective, ModuleDirectivesTable, ObjectVerification,
};
use os2omf::exe386::enttab::{BundleType, Entry, Entry32};
use os2omf::exe386::frectab::{
    FixupRecord, FixupTarget, FixupTargetImportedName, FixupTargetImportedOrdinal,
    FixupTargetInternal,
};
use os2omf::exe386::header::{LinearExecutableHeader, LinearExecutableType};
use os2omf::exe386::imptab::{
    DllImport, DllImportName, DllImportOrdinal, ImportData, ImportError, ImportRelocationsTable,
};
use os2omf::exe386::lx_objpages::{LXObjectPageTable, LXPage, LXPageFlag};
use os2omf::exe386::objpagetab::{
    LEObjectPageHeader, LXObjectPageHeader, ObjectPage, ObjectPagesTable, PageFlags,
};
use os2omf::exe386::objtab::{LXObjectRights, Object, ObjectsTable};
use os2omf::exe386::LinearExecutableLayout;
use os2omf::source::ByteSource;
use os2omf::types::PascalString;

const BASE: usize = 0x40;

fn put(image: &mut [u8], at: usize, bytes: &[u8]) {
    image[at..at + bytes.len()].copy_from_slice(bytes);
}

fn put16(image: &mut [u8], at: usize, v: u16) {
    put(image, at, &v.to_le_bytes());
}

fn put32(image: &mut [u8], at: usize, v: u32) {
    put(image, at, &v.to_le_bytes());
}

fn truncated(offset: u64) -> DecodeError {
    DecodeError { kind: ErrorKind::Truncated, offset }
}

fn name(bytes: &[u8]) -> PascalString {
    PascalString::new(bytes.len() as u8, bytes.to_vec())
}

/// An LX library behind a DOS stub: one object of one page, one 32-bit
/// entry point, and one fixup that imports "DosOpen" from "DOSCALLS" by
/// name.
fn lx_image() -> Vec<u8> {
    let mut image = vec![0u8; 0x200];
    put(&mut image, 0, b"MZ");
    put32(&mut image, 60, BASE as u32);
    put(&mut image, BASE, b"LX");
    put16(&mut image, BASE + 8, 2);
    put16(&mut image, BASE + 10, 1);
    put32(&mut image, BASE + 16, 0x8000);
    put32(&mut image, BASE + 20, 1);
    put32(&mut image, BASE + 24, 1);
    put32(&mut image, BASE + 28, 0x10);
    put32(&mut image, BASE + 40, 0x1000);
    put32(&mut image, BASE + 64, 0xC0);
    put32(&mut image, BASE + 68, 1);
    put32(&mut image, BASE + 72, 0xE0);
    put32(&mut image, BASE + 88, 0xF0);
    put32(&mut image, BASE + 92, 0x100);
    put32(&mut image, BASE + 104, 0x110);
    put32(&mut image, BASE + 108, 0x120);
    put32(&mut image, BASE + 112, 0x130);
    put32(&mut image, BASE + 116, 1);
    put32(&mut image, BASE + 120, 0x140);
    put32(&mut image, BASE + 128, 0x1C0);
    put32(&mut image, BASE + 136, 0x190);
    put32(&mut image, BASE + 172, 0x2000);
    put(&mut image, BASE + 176, &[1, 2, 3, 4, 5, 6, 7, 8]);
    // Object table.
    put32(&mut image, 0x100, 0x1000);
    put32(&mut image, 0x104, 0x10000);
    put32(&mut image, 0x108, 0x2005);
    put32(&mut image, 0x10C, 1);
    put32(&mut image, 0x110, 1);
    // Object page map.
    put32(&mut image, 0x120, 0);
    put16(&mut image, 0x124, 0x20);
    put16(&mut image, 0x126, 0);
    put(&mut image, 0x130, b"\x04TEST\x00\x00\x00");
    put(&mut image, 0x140, &[1, 3, 0x01, 0x00, 0x03, 0x00, 0x10, 0x00, 0x00, 0]);
    put32(&mut image, 0x150, 0);
    put32(&mut image, 0x154, 7);
    put(&mut image, 0x160, &[0x07, 0x02, 0x10, 0x00, 0x01, 0x00, 0x00]);
    put(&mut image, 0x170, b"\x08DOSCALLS\x00");
    put(&mut image, 0x180, b"\x07DosOpen");
    put(&mut image, 0x190, b"\x04Desc\x00\x00\x00");
    for byte in image[0x1C0..0x1E0].iter_mut() {
        *byte = 0xC3;
    }
    image
}

fn header(image: &[u8]) -> LinearExecutableHeader {
    let mut src = ByteSource::new(image);
    src.seek_absolute(BASE as u64).unwrap();
    LinearExecutableHeader::read(&mut src).unwrap()
}

#[test]
fn e386_header() {
    let image = lx_image();
    let layout = LinearExecutableLayout::read(&ByteSource::new(&image));
    match layout {
        Ok(res) => {
            assert_eq!(res.header.e32_magic, 0x584C);
            assert_eq!(res.header.e32_objcnt, 1);
        }
        Err(e) => panic!("{:?}", e),
    }
}

#[test]
fn e386_enttab() {
    let image = lx_image();
    let layout = LinearExecutableLayout::read(&ByteSource::new(&image));
    match layout {
        Ok(res) => {
            assert_eq!(res.entry_table.bundles.len(), 1);
            let bundle = &res.entry_table.bundles[0];
            assert_eq!(bundle.count, 1);
            assert_eq!(bundle.bundle_type, BundleType::Entry32);
            assert_eq!(bundle.object, 1);
            assert_eq!(
                bundle.entries,
                vec![Entry::Entry32(Entry32 { flags: 3, offset: 0x1000 })]
            );
        }
        Err(e) => panic!("{:?}", e),
    }
}

#[test]
fn e386_imports() {
    let image = lx_image();
    let layout = LinearExecutableLayout::read(&ByteSource::new(&image));
    match layout {
        Ok(res) => {
            assert_eq!(res.import_table.imports().len(), 1);
        }
        Err(e) => panic!("{:?}", e),
    }
}

#[test]
fn lx_dll_with_import_by_name_fixup() {
    let image = lx_image();
    let src = ByteSource::new(&image);
    let layout = LinearExecutableLayout::read(&src).unwrap();
    assert_eq!(
        layout.import_table.imports(),
        &vec![DllImport::ImportName(DllImportName {
            module_index: 0,
            module_name: name(b"DOSCALLS"),
            import_name_offset: 0,
            import_name: name(b"DosOpen"),
        })]
    );
    let import = &layout.import_table.imports()[0];
    assert_eq!(import.module_name().to_bytes(), b"DOSCALLS");
    assert_eq!(import.module_index(), 0);
    assert!(!import.module_name().to_bytes().is_empty());
    assert!(import.module_index() as u32 + 1 <= layout.header.e32_impmodcnt);
    assert_eq!(src.position(), 0);
}

#[test]
fn layout_holds_every_table() {
    let image = lx_image();
    let layout = LinearExecutableLayout::read(&ByteSource::new(&image)).unwrap();
    assert_eq!(layout.header, header(&image));
    assert_eq!(
        layout.object_table.objects,
        vec![Object {
            virtual_size: 0x1000,
            virtual_addr: 0x10000,
            flags: 0x2005,
            map_index: 1,
            map_size: 1,
            _reserved: 0,
        }]
    );
    assert_eq!(
        layout.object_pages.pages,
        vec![ObjectPage::LXPageFormat(LXObjectPageHeader {
            page_offset: 0,
            data_size: 0x20,
            flags: 0,
        })]
    );
    assert_eq!(layout.fixup_page_table.page_offsets, vec![0]);
    assert_eq!(layout.fixup_page_table.end_of_fixup_records, 7);
    assert_eq!(
        layout.fixup_records_table.records,
        vec![FixupRecord {
            source: 0x07,
            target_flags: 0x02,
            source_offset_or_count: 0x10,
            target_data: FixupTarget::ImportedName(FixupTargetImportedName {
                module_ordinal: 1,
                procedure_name_offset: 0,
            }),
            additive_value: None,
            source_offset_list: None,
        }]
    );
    assert_eq!(layout.resident_names.entries.len(), 1);
    assert_eq!(layout.resident_names.entries[0].name.to_bytes(), b"TEST");
    assert_eq!(layout.non_resident_names.entries.len(), 1);
    assert_eq!(layout.non_resident_names.entries[0].name.to_bytes(), b"Desc");
    assert!(layout.module_directives_table.directives.is_empty());
}

#[test]
fn le_image_without_dos_stub() {
    let mut image = lx_image().split_off(BASE);
    put(&mut image, 0, b"LE");
    // The page map of an LE module has records of 4 bytes.
    put(&mut image, 0xE0, &[0x00, 0x00, 0x01, 0x00]);
    // The non-resident names are found from the start of the file.
    put32(&mut image, 136, 0x190 - BASE as u32);
    let src = ByteSource::new(&image);
    assert_eq!(LinearExecutableLayout::define_base_offset(&src), Some(0));
    let layout = LinearExecutableLayout::read(&src).unwrap();
    assert_eq!(layout.header.e32_magic, 0x454C);
    assert_eq!(
        layout.object_pages.pages,
        vec![ObjectPage::LEPageFormat(LEObjectPageHeader { page_number: [0, 0, 1], flags: 0 })]
    );
    assert_eq!(layout.import_table.imports().len(), 1);
    assert_eq!(layout.non_resident_names.entries[0].name.to_bytes(), b"Desc");
}

#[test]
fn decoding_an_image_twice_gives_equal_layouts() {
    let image = lx_image();
    let src = ByteSource::new(&image);
    let first = LinearExecutableLayout::read(&src);
    let second = LinearExecutableLayout::read(&src);
    assert!(first.is_ok());
    assert_eq!(first, second);
    let src = ByteSource::new(&image[..0x165]);
    let first = LinearExecutableLayout::read(&src);
    assert_eq!(first, Err(truncated(0x190)));
    assert_eq!(first, LinearExecutableLayout::read(&src));
}

#[test]
fn linear_layout_reports_the_first_failure() {
    let image = lx_image();
    let read = |image: &[u8]| LinearExecutableLayout::read(&ByteSource::new(image));
    assert_eq!(read(&image[..64]), Err(truncated(0x40)));
    assert_eq!(
        read(&image[0x50..]),
        Err(DecodeError { kind: ErrorKind::UnknownContainer, offset: 0 })
    );
    let mut pure_mz = image.clone();
    put32(&mut pure_mz, 60, 0);
    assert_eq!(read(&pure_mz), Err(DecodeError { kind: ErrorKind::BadMagic, offset: 0 }));
    let mut ne = image.clone();
    put(&mut ne, BASE, b"NE");
    assert_eq!(read(&ne), Err(DecodeError { kind: ErrorKind::BadMagic, offset: 0x40 }));
    let mut pe = image.clone();
    put(&mut pe, BASE, b"PE");
    assert_eq!(
        read(&pe),
        Err(DecodeError { kind: ErrorKind::UnknownContainer, offset: 0x40 })
    );
    assert_eq!(read(&image[..0x80]), Err(truncated(0x40)));
    assert_eq!(read(&image[..0x165]), Err(truncated(0x190)));
    let mut order = image.clone();
    order[BASE + 3] = 1;
    assert_eq!(
        read(&order),
        Err(DecodeError { kind: ErrorKind::BadByteOrder, offset: 0x42 })
    );
    let mut objects = image.clone();
    put32(&mut objects, BASE + 68, 65536);
    assert_eq!(
        read(&objects),
        Err(DecodeError { kind: ErrorKind::ImplausibleCount, offset: 0x100 })
    );
    put32(&mut objects, BASE + 68, 65535);
    assert_eq!(read(&objects), Err(truncated(0x100)));
    let mut pointer = image.clone();
    put32(&mut pointer, BASE + 92, 0x1C0);
    assert_eq!(read(&pointer), Err(truncated(0x200)));
    let mut module = image.clone();
    image_set_module_ordinal(&mut module, 2);
    assert_eq!(
        read(&module),
        Err(DecodeError { kind: ErrorKind::InvalidModuleOrdinal, offset: 0x170 })
    );
    image_set_module_ordinal(&mut module, 0);
    assert_eq!(
        read(&module),
        Err(DecodeError { kind: ErrorKind::InvalidModuleOrdinal, offset: 0x170 })
    );
    let mut bundle = image.clone();
    bundle[0x141] = 9;
    assert_eq!(
        read(&bundle),
        Err(DecodeError { kind: ErrorKind::InvalidBundle, offset: 0x140 })
    );
    let mut pages = image.clone();
    put32(&mut pages, 0x150, 8);
    assert_eq!(
        read(&pages),
        Err(DecodeError { kind: ErrorKind::InvalidFixup, offset: 0x154 })
    );
}

fn image_set_module_ordinal(image: &mut [u8], ordinal: u8) {
    image[0x164] = ordinal;
}

#[test]
fn absent_linear_tables_are_empty() {
    let mut image = lx_image();
    for field in [64usize, 72, 88, 92, 104, 108, 112, 120, 136] {
        put32(&mut image, BASE + field, 0);
    }
    let layout = LinearExecutableLayout::read(&ByteSource::new(&image)).unwrap();
    assert!(layout.object_table.objects.is_empty());
    assert!(layout.object_pages.pages.is_empty());
    assert!(layout.entry_table.bundles.is_empty());
    assert!(layout.resident_names.entries.is_empty());
    assert!(layout.non_resident_names.entries.is_empty());
    assert!(layout.fixup_page_table.page_offsets.is_empty());
    assert!(layout.fixup_records_table.records.is_empty());
    assert!(layout.import_table.imports().is_empty());
    assert!(layout.module_directives_table.directives.is_empty());
}

#[test]
fn linear_header_fields_and_flags() {
    let image = lx_image();
    let h = header(&image);
    assert_eq!(h.e32_magic, 0x584C);
    assert_eq!((h.e32_border, h.e32_worder, h.e32_level), (0, 0, 0));
    assert_eq!((h.e32_cpu, h.e32_os), (2, 1));
    assert_eq!(h.e32_mflags, 0x8000);
    assert_eq!(h.e32_mpages, 1);
    assert_eq!((h.e32_cs, h.e32_eip), (1, 0x10));
    assert_eq!(h.e32_pagesize, 0x1000);
    assert_eq!(h.e32_pageshift_or_lastpage, 0);
    assert_eq!((h.e32_objtab, h.e32_objcnt, h.e32_objmap), (0xC0, 1, 0xE0));
    assert_eq!((h.e32_restab, h.e32_enttab), (0xF0, 0x100));
    assert_eq!((h.e32_dirtab, h.e32_dircnt), (0, 0));
    assert_eq!((h.e32_fpagetab, h.e32_frectab), (0x110, 0x120));
    assert_eq!((h.e32_impmod, h.e32_impmodcnt, h.e32_impproc), (0x130, 1, 0x140));
    assert_eq!(h.e32_datapage, 0x1C0);
    assert_eq!(h.e32_nrestab, 0x190);
    assert_eq!(h.e32_stacksize, 0x2000);
    assert_eq!(h.e32_res3, [1, 2, 3, 4, 5, 6, 7, 8]);
    assert_eq!(LinearExecutableHeader::decode(&image[BASE..]), h);
    assert!(!h.invalid_magic());
    assert!(h.le_byte_ordering());
    assert!(!h.external_relocs_stripped());
    assert!(!h.internal_relocs_stripped());
    assert_eq!(h.module_type(), LinearExecutableType::DLL);
}

#[test]
fn linear_header_flag_getters() {
    let image = lx_image();
    let mut h = header(&image);
    let mut kind = |flags: u32| {
        h.e32_mflags = flags;
        h.module_type()
    };
    assert_eq!(kind(0), LinearExecutableType::EXE);
    assert_eq!(kind(0x8000), LinearExecutableType::DLL);
    assert_eq!(kind(0x2_0000), LinearExecutableType::PDD);
    assert_eq!(kind(0x2_8000), LinearExecutableType::DLL);
    assert_eq!(kind(0x3_0000), LinearExecutableType::PDD);
    assert_eq!(kind(0x1_0000), LinearExecutableType::DLD);
    assert_eq!(kind(0x0030), LinearExecutableType::EXE);
    h.e32_mflags = 0x30;
    assert!(h.external_relocs_stripped());
    assert!(h.internal_relocs_stripped());
    h.e32_mflags = 0x10;
    assert!(!h.external_relocs_stripped());
    assert!(h.internal_relocs_stripped());
    h.e32_magic = 0x454C;
    assert!(!h.invalid_magic());
    h.e32_magic = 0x4C58;
    assert!(h.invalid_magic());
    h.e32_border = 1;
    assert!(!h.le_byte_ordering());
}

#[test]
fn linear_header_failures() {
    let image = lx_image();
    let mut src = ByteSource::new(&image);
    src.seek_absolute(0x41).unwrap();
    assert_eq!(
        LinearExecutableHeader::read(&mut src),
        Err(DecodeError { kind: ErrorKind::BadMagic, offset: 0x41 })
    );
    assert_eq!(src.position(), 0x41);
    src.seek_absolute(0x200 - 183).unwrap();
    assert_eq!(LinearExecutableHeader::read(&mut src), Err(truncated(0x200 - 183)));
    let mut swapped = image.clone();
    swapped[BASE + 2] = 1;
    let mut src = ByteSource::new(&swapped);
    src.seek_absolute(0x40).unwrap();
    assert_eq!(
        LinearExecutableHeader::read(&mut src),
        Err(DecodeError { kind: ErrorKind::BadByteOrder, offset: 0x42 })
    );
    let src = ByteSource::new(&image);
    let mut at_header = src;
    at_header.seek_absolute(0x40).unwrap();
    assert!(LinearExecutableHeader::read(&mut at_header).is_ok());
    assert_eq!(at_header.position(), 0x40 + 184);
}

#[test]
fn object_table() {
    let image = lx_image();
    let mut src = ByteSource::new(&image);
    let table = ObjectsTable::read(&mut src, 0x100, 1).unwrap();
    assert_eq!(table.objects.len(), 1);
    assert_eq!(table.objects[0].map_index, 1);
    assert_eq!(src.position(), 0x118);
    assert_eq!(Object::decode(&image, 0x100), table.objects[0]);
    assert_eq!(ObjectsTable::read(&mut src, 0x100, 0).unwrap(), ObjectsTable::empty());
    assert_eq!(src.position(), 0x100);
    assert_eq!(ObjectsTable::read(&mut src, 0x1F0, 1), Err(truncated(0x1F0)));
    assert_eq!(ObjectsTable::read(&mut src, 0x300, 0), Err(truncated(0x300)));
    assert_eq!(
        ObjectsTable::read(&mut src, 0x300, 65536),
        Err(DecodeError { kind: ErrorKind::ImplausibleCount, offset: 0x300 })
    );
    assert_eq!(src.position(), 0x100);
}

#[test]
fn object_rights() {
    let image = lx_image();
    let mut object = Object::decode(&image, 0x100);
    assert_eq!(object.get_object_rights(), LXObjectRights::SETTER);
    object.flags = 0x0003;
    assert_eq!(object.get_object_rights(), LXObjectRights::RDATA);
    object.flags = 0x0002;
    assert_eq!(object.get_object_rights(), LXObjectRights::RDATA);
    object.flags = 0;
    assert_eq!(object.get_object_rights(), LXObjectRights::SETTER);
    object.virtual_size = 0;
    object.flags = 0x0003;
    assert_eq!(object.get_object_rights(), LXObjectRights::BSS);
}

#[test]
fn object_page_maps() {
    let bytes = [
        0x78u8, 0x56, 0x34, 0x12, 0x00, 0x10, 0x03, 0x00, 0x01, 0x00, 0x00, 0x00, 0x20, 0x00,
        0x05, 0x00,
    ];
    let mut src = ByteSource::new(&bytes);
    let lx = ObjectPagesTable::read(&mut src, 0, 2, 0x584C).unwrap();
    assert_eq!(
        lx.pages,
        vec![
            ObjectPage::LXPageFormat(LXObjectPageHeader {
                page_offset: 0x1234_5678,
                data_size: 0x1000,
                flags: 3,
            }),
            ObjectPage::LXPageFormat(LXObjectPageHeader {
                page_offset: 1,
                data_size: 0x20,
                flags: 5,
            }),
        ]
    );
    assert_eq!(src.position(), 16);
    let le = ObjectPagesTable::read(&mut src, 4, 3, 0x454C).unwrap();
    assert_eq!(
        le.pages,
        vec![
            ObjectPage::LEPageFormat(LEObjectPageHeader { page_number: [0, 0x10, 3], flags: 0 }),
            ObjectPage::LEPageFormat(LEObjectPageHeader { page_number: [1, 0, 0], flags: 0 }),
            ObjectPage::LEPageFormat(LEObjectPageHeader { page_number: [0x20, 0, 5], flags: 0 }),
        ]
    );
    assert_eq!(src.position(), 16);
    assert_eq!(ObjectPagesTable::read(&mut src, 0, 3, 0x584C), Err(truncated(0)));
    assert_eq!(ObjectPagesTable::read(&mut src, 0, 5, 0x454C), Err(truncated(0)));
    assert_eq!(
        ObjectPagesTable::read(&mut src, 0, 2, 0x454E),
        Err(DecodeError { kind: ErrorKind::BadMagic, offset: 0 })
    );
    assert_eq!(
        ObjectPagesTable::read(&mut src, 0, 0x10_0001, 0x584C),
        Err(DecodeError { kind: ErrorKind::ImplausibleCount, offset: 0 })
    );
    assert_eq!(ObjectPagesTable::read(&mut src, 16, 0, 0x584C).unwrap(), ObjectPagesTable::empty());
    assert_eq!(ObjectPagesTable::read(&mut src, 17, 0, 0x584C), Err(truncated(17)));
}

#[test]
fn page_map_records_are_appended() {
    let bytes = [1u8, 0, 0, 0, 2, 0, 3, 0, 4, 5, 6, 7];
    let mut src = ByteSource::new(&bytes);
    let mut pages = vec![ObjectPage::LEPageFormat(LEObjectPageHeader {
        page_number: [9, 9, 9],
        flags: 9,
    })];
    assert_eq!(ObjectPagesTable::fill_lx_pages(&mut src, &mut pages, 1), Ok(()));
    assert_eq!(pages.len(), 2);
    assert_eq!(
        pages[1],
        ObjectPage::LXPageFormat(LXObjectPageHeader { page_offset: 1, data_size: 2, flags: 3 })
    );
    assert_eq!(src.position(), 8);
    assert_eq!(
        ObjectPagesTable::fill_lx_pages(&mut src, &mut pages, 1),
        Err(truncated(8))
    );
    assert_eq!(pages.len(), 2);
    assert_eq!(
        ObjectPagesTable::fill_le_pages(&mut src, &mut pages, 2),
        Err(truncated(8))
    );
    assert_eq!(ObjectPagesTable::fill_le_pages(&mut src, &mut pages, 1), Ok(()));
    assert_eq!(
        pages[2],
        ObjectPage::LEPageFormat(LEObjectPageHeader { page_number: [4, 5, 6], flags: 7 })
    );
    assert_eq!(src.position(), 12);
    assert_eq!(ObjectPagesTable::fill_lx_pages(&mut src, &mut pages, 0), Ok(()));
    assert_eq!(pages.len(), 3);
    src.seek_absolute(0).unwrap();
    assert_eq!(
        LXObjectPageHeader::read(&mut src),
        Ok(LXObjectPageHeader { page_offset: 1, data_size: 2, flags: 3 })
    );
    assert_eq!(
        LEObjectPageHeader::read(&mut src),
        Ok(LEObjectPageHeader { page_number: [4, 5, 6], flags: 7 })
    );
    assert_eq!(LEObjectPageHeader::read(&mut src), Err(truncated(12)));
    src.seek_absolute(5).unwrap();
    assert_eq!(LXObjectPageHeader::read(&mut src), Err(truncated(5)));
}

#[test]
fn page_flags_name_one_kind() {
    let flags = |value| {
        let f = PageFlags::from(value);
        (f.is_legal_physical, f.is_iterated, f.is_invalid, f.is_zero_filled, f.is_compressed)
    };
    assert_eq!(flags(0), (true, false, false, false, false));
    assert_eq!(flags(1), (false, true, false, false, false));
    assert_eq!(flags(2), (false, false, true, false, false));
    assert_eq!(flags(3), (false, false, false, true, false));
    assert_eq!(flags(4), (false, false, false, false, false));
    assert_eq!(flags(5), (false, false, false, false, true));
    assert_eq!(flags(6), (false, false, false, false, false));
    let kind = |page_flags| LXPage { page_offset: 0, page_data_size: 0, page_flags }.kind();
    assert_eq!(kind(0), Some(LXPageFlag::Legal));
    assert_eq!(kind(1), Some(LXPageFlag::Iterated));
    assert_eq!(kind(2), Some(LXPageFlag::Invalid));
    assert_eq!(kind(3), Some(LXPageFlag::Zeroed));
    assert_eq!(kind(4), Some(LXPageFlag::Unused));
    assert_eq!(kind(5), Some(LXPageFlag::Compressed));
    assert_eq!(kind(6), None);
}

#[test]
fn page_data() {
    let mut image = vec![0u8; 0x40];
    for (i, byte) in image.iter_mut().enumerate() {
        *byte = i as u8;
    }
    let src = ByteSource::new(&image);
    let page = |page_offset, data_size, flags| LXObjectPageHeader { page_offset, data_size, flags };
    let data = LXObjectPageHeader::read_page_data(&src, &page(3, 4, 0), 2, 0x10).unwrap();
    assert_eq!(data.data, vec![0x1C, 0x1D, 0x1E, 0x1F]);
    assert_eq!(data.flags, PageFlags::from(0));
    assert_eq!(data.number, 0);
    let data = LXObjectPageHeader::read_page_data(&src, &page(3, 4, 5), 0, 0x10).unwrap();
    assert_eq!(data.data, vec![0x13, 0x14, 0x15, 0x16]);
    assert!(data.flags.is_compressed);
    // Zero-filled and invalid pages take nothing from the image.
    let data = LXObjectPageHeader::read_page_data(&src, &page(0xFFFF_FFFF, 3, 3), 40, 1 << 40);
    assert_eq!(data.unwrap().data, vec![0, 0, 0]);
    let data = LXObjectPageHeader::read_page_data(&src, &page(7, 2, 2), 0, 0).unwrap();
    assert_eq!(data.data, vec![0, 0]);
    assert!(data.flags.is_invalid);
    assert_eq!(
        LXObjectPageHeader::read_page_data(&src, &page(3, 5, 0), 2, 0x30),
        Err(truncated(0x3C))
    );
    assert_eq!(
        LXObjectPageHeader::read_page_data(&src, &page(3, 5, 0), 4, 0x30),
        Err(truncated(0x60))
    );
    assert_eq!(
        LXObjectPageHeader::read_page_data(&src, &page(0, 0, 0), 0, 0x41),
        Err(truncated(0x41))
    );
    assert_eq!(
        LXObjectPageHeader::read_page_data(&src, &page(0, 0, 0), 32, 0x10),
        Err(DecodeError { kind: ErrorKind::ImplausibleCount, offset: 0x10 })
    );
    let data = LXObjectPageHeader::read_page_data(&src, &page(0, 0, 0), 31, 0x40).unwrap();
    assert_eq!(data.data, vec![]);
}

#[test]
fn standalone_lx_page_map() {
    let bytes = [1u8, 0, 0, 0, 2, 0, 3, 0, 4, 0, 0, 0, 5, 0, 6, 0, 7];
    let mut src = ByteSource::new(&bytes);
    let table = LXObjectPageTable::new(&mut src, 2).unwrap();
    assert_eq!(
        table.pages(),
        &vec![
            LXPage { page_offset: 1, page_data_size: 2, page_flags: 3 },
            LXPage { page_offset: 4, page_data_size: 5, page_flags: 6 },
        ]
    );
    assert_eq!(src.position(), 16);
    assert_eq!(LXObjectPageTable::new(&mut src, 1), Err(truncated(16)));
    assert_eq!(
        LXObjectPageTable::new(&mut src, 0x10_0001),
        Err(DecodeError { kind: ErrorKind::ImplausibleCount, offset: 16 })
    );
    assert_eq!(LXObjectPageTable::new(&mut src, 0).unwrap().pages(), &vec![]);
    assert_eq!(src.position(), 16);
}

fn fixup(target_data: FixupTarget) -> FixupRecord {
    FixupRecord {
        source: 7,
        target_flags: 0,
        source_offset_or_count: 0,
        target_data,
        additive_value: None,
        source_offset_list: None,
    }
}

fn by_name(module_ordinal: u16, procedure_name_offset: u32) -> FixupTargetImportedName {
    FixupTargetImportedName { module_ordinal, procedure_name_offset }
}

fn by_ordinal(module_ordinal: u16, import_ordinal: u32) -> FixupTargetImportedOrdinal {
    FixupTargetImportedOrdinal { module_ordinal, import_ordinal }
}

fn pools() -> Vec<u8> {
    let mut image = vec![0xEEu8; 0x10];
    image.extend_from_slice(b"\x08DOSCALLS\x03PMW\x00\x05Ghost");
    image.resize(0x30, 0xEE);
    image.extend_from_slice(b"\x07DosOpen\x08DosClose\x00");
    image
}

#[test]
fn import_module_names() {
    let image = pools();
    let src = ByteSource::new(&image);
    let names = ImportRelocationsTable::read_modules(&src, 0x10, 5).unwrap();
    assert_eq!(names, vec![name(b"DOSCALLS"), name(b"PMW")]);
    let names = ImportRelocationsTable::read_modules(&src, 0x10, 1).unwrap();
    assert_eq!(names, vec![name(b"DOSCALLS")]);
    assert_eq!(ImportRelocationsTable::read_modules(&src, 0x10, 0).unwrap(), vec![]);
    assert_eq!(ImportRelocationsTable::read_modules(&src, 0, 5).unwrap(), vec![]);
    let names = ImportRelocationsTable::read_modules(&src, 0x30, 5).unwrap();
    assert_eq!(names, vec![name(b"DosOpen"), name(b"DosClose")]);
    assert_eq!(ImportRelocationsTable::read_modules(&src, 0x41, 5).unwrap(), vec![]);
    let cut = ByteSource::new(&image[..0x41]);
    assert_eq!(ImportRelocationsTable::read_modules(&cut, 0x30, 5), Err(truncated(0x41)));
    assert_eq!(ImportRelocationsTable::read_modules(&cut, 0x30, 2).unwrap().len(), 2);
    assert_eq!(ImportRelocationsTable::read_modules(&src, 0x3A, 5), Err(truncated(0x3B)));
    assert_eq!(ImportRelocationsTable::read_modules(&src, 0x42, 5), Err(truncated(0x42)));
    assert_eq!(ImportRelocationsTable::read_modules(&src, 0x43, 0), Err(truncated(0x43)));
    assert_eq!(src.position(), 0);
}

#[test]
fn imports_are_resolved_against_the_module_names() {
    let image = pools();
    let src = ByteSource::new(&image);
    let data = ImportData {
        imp_mod_offset: 0x10,
        imp_mod_count: 2,
        imp_proc_offset: 0x30,
        fixup_records: vec![
            fixup(FixupTarget::ImportedOrdinal(by_ordinal(2, 0x0100_0001))),
            fixup(FixupTarget::Internal(FixupTargetInternal {
                object_number: 1,
                target_offset: None,
            })),
            fixup(FixupTarget::ImportedName(by_name(1, 8))),
            fixup(FixupTarget::ImportedName(by_name(2, 17))),
        ],
    };
    let table = ImportRelocationsTable::read(&src, &data).unwrap();
    assert_eq!(
        table.imports(),
        &vec![
            DllImport::ImportOrdinal(DllImportOrdinal {
                module_index: 1,
                module_name: name(b"PMW"),
                import_ordinal: 0x0100_0001,
            }),
            DllImport::ImportName(DllImportName {
                module_index: 0,
                module_name: name(b"DOSCALLS"),
                import_name_offset: 8,
                import_name: name(b"DosClose"),
            }),
            DllImport::ImportName(DllImportName {
                module_index: 1,
                module_name: name(b"PMW"),
                import_name_offset: 17,
                import_name: PascalString::empty(),
            }),
        ]
    );
    for import in table.imports() {
        assert!(!import.module_name().to_bytes().is_empty());
        assert!(import.module_index() as u32 + 1 >= 1);
        assert!(import.module_index() as u32 + 1 <= data.imp_mod_count);
    }
    assert_eq!(ImportRelocationsTable::empty().imports(), &vec![]);
}

#[test]
fn imports_of_unknown_modules() {
    let image = pools();
    let src = ByteSource::new(&image);
    let read = |count: u32, target: FixupTarget| {
        let data = ImportData {
            imp_mod_offset: 0x10,
            imp_mod_count: count,
            imp_proc_offset: 0x30,
            fixup_records: vec![fixup(target)],
        };
        ImportRelocationsTable::read(&src, &data)
    };
    let invalid = Err(DecodeError { kind: ErrorKind::InvalidModuleOrdinal, offset: 0x10 });
    assert_eq!(read(5, FixupTarget::ImportedName(by_name(0, 0))), invalid);
    assert_eq!(read(5, FixupTarget::ImportedName(by_name(3, 0))), invalid);
    assert_eq!(read(5, FixupTarget::ImportedOrdinal(by_ordinal(0, 1))), invalid);
    assert_eq!(read(5, FixupTarget::ImportedOrdinal(by_ordinal(3, 1))), invalid);
    assert_eq!(read(1, FixupTarget::ImportedOrdinal(by_ordinal(2, 1))), invalid);
    assert!(read(2, FixupTarget::ImportedOrdinal(by_ordinal(2, 1))).is_ok());
    assert_eq!(read(5, FixupTarget::ImportedName(by_name(1, 0x100))), Err(truncated(0x130)));
    let modules = vec![name(b"DOSCALLS")];
    assert_eq!(
        ImportRelocationsTable::process_imported_ordinal(&by_ordinal(2, 1), &modules),
        Err(ImportError::InvalidModuleOrdinal(2))
    );
    assert_eq!(
        ImportRelocationsTable::process_imported_ordinal(&by_ordinal(0, 1), &modules),
        Err(ImportError::InvalidModuleOrdinal(0))
    );
    assert_eq!(
        ImportRelocationsTable::process_imported_ordinal(&by_ordinal(1, 9), &modules),
        Ok(DllImport::ImportOrdinal(DllImportOrdinal {
            module_index: 0,
            module_name: name(b"DOSCALLS"),
            import_ordinal: 9,
        }))
    );
    assert_eq!(
        ImportRelocationsTable::process_imported_name(&src, &by_name(7, 0), &modules, 0x30),
        Err(ImportError::InvalidModuleOrdinal(7))
    );
    assert_eq!(
        ImportRelocationsTable::process_imported_name(&src, &by_name(1, 0), &modules, 0x100),
        Err(ImportError::Source(truncated(0x100)))
    );
    assert_eq!(
        ImportRelocationsTable::process_imported_name(&src, &by_name(1, 0x13), &modules, 0x30),
        Err(ImportError::Source(truncated(0x43)))
    );
    assert_eq!(
        ImportRelocationsTable::process_imported_name(&src, &by_name(1, 0), &modules, 0x30),
        Ok(DllImport::ImportName(DllImportName {
            module_index: 0,
            module_name: name(b"DOSCALLS"),
            import_name_offset: 0,
            import_name: name(b"DosOpen"),
        }))
    );
    assert_eq!(
        ImportError::InvalidModuleOrdinal(7).into_decode_error(0x10),
        DecodeError { kind: ErrorKind::InvalidModuleOrdinal, offset: 0x10 }
    );
    assert_eq!(ImportError::Source(truncated(5)).into_decode_error(0x10), truncated(5));
}

#[test]
fn import_helpers_read_at_the_cursor() {
    let image = pools();
    let mut src = ByteSource::new(&image);
    src.seek_absolute(0x30).unwrap();
    assert_eq!(ImportRelocationsTable::read_byte(&mut src), Ok(7));
    assert_eq!(ImportRelocationsTable::read_bytes(&mut src, 7), Ok(b"DosOpen".to_vec()));
    assert_eq!(ImportRelocationsTable::read_pascal_string(&mut src), Ok(name(b"DosClose")));
    assert_eq!(ImportRelocationsTable::read_pascal_string(&mut src), Ok(PascalString::empty()));
    assert_eq!(src.position(), 0x42);
    assert_eq!(ImportRelocationsTable::read_byte(&mut src), Err(truncated(0x42)));
    assert_eq!(ImportRelocationsTable::read_bytes(&mut src, 1), Err(truncated(0x42)));
    assert_eq!(ImportRelocationsTable::read_bytes(&mut src, 0), Ok(vec![]));
    assert_eq!(ImportRelocationsTable::read_pascal_string(&mut src), Err(truncated(0x42)));
}

fn directives_image() -> Vec<u8> {
    let mut image = lx_image();
    // Two directive records at 0x1A0; the table is as long as the number
    // of import modules says.
    put32(&mut image, BASE + 96, 0x160);
    put32(&mut image, BASE + 116, 2);
    put16(&mut image, 0x1A0, 0x8001);
    put16(&mut image, 0x1A2, 4);
    put32(&mut image, 0x1A4, 0x170);
    put16(&mut image, 0x1A8, 0x0002);
    put16(&mut image, 0x1AA, 2);
    put32(&mut image, 0x1AC, 0x1B4);
    put(&mut image, 0x1B0, &[0, 0, 0xAA, 0xBB, 0x34, 0x12]);
    image
}

#[test]
fn module_directives_come_with_their_data() {
    let image = directives_image();
    let src = ByteSource::new(&image);
    let h = header(&image);
    let table = ModuleDirectivesTable::read(&src, &h, 0x40).unwrap();
    assert_eq!(
        table.directives,
        vec![
            ModuleDirective {
                directive_type: DirectiveType::VerifyRecord,
                data: vec![0, 0, 0xAA, 0xBB],
            },
            ModuleDirective { directive_type: DirectiveType::LanguageInfo, data: vec![0x34, 0x12] },
        ]
    );
    assert_eq!(src.position(), 0);
    let layout = LinearExecutableLayout::read(&src).unwrap();
    assert_eq!(layout.module_directives_table, table);
    assert_eq!(ModuleDirectivesTable::empty().directives, vec![]);
}

#[test]
fn module_directive_failures() {
    let image = directives_image();
    let src = ByteSource::new(&image);
    let mut h = header(&image);
    h.e32_dirtab = 0;
    assert_eq!(
        ModuleDirectivesTable::read(&src, &h, 0x1000).unwrap(),
        ModuleDirectivesTable::empty()
    );
    h.e32_dirtab = 0x160;
    assert_eq!(ModuleDirectivesTable::read(&src, &h, 0x1000), Err(truncated(0x1000)));
    h.e32_dirtab = 0x1C0;
    assert_eq!(ModuleDirectivesTable::read(&src, &h, 0x40), Err(truncated(0x200)));
    h.e32_dirtab = 0x1B8;
    assert_eq!(ModuleDirectivesTable::read(&src, &h, 0x40), Err(truncated(0x1F8)));
    h.e32_dirtab = 0x160;
    let mut cut = image.clone();
    put32(&mut cut, 0x1AC, 0x1FF);
    assert_eq!(
        ModuleDirectivesTable::read(&ByteSource::new(&cut), &h, 0x40),
        Err(truncated(0x1FF))
    );
    put32(&mut cut, 0x1A4, 0x1BD);
    assert_eq!(
        ModuleDirectivesTable::read(&ByteSource::new(&cut), &h, 0x40),
        Err(truncated(0x1FD))
    );
}

#[test]
fn directive_type_codes() {
    assert_eq!(DirectiveType::from(0x8001), DirectiveType::VerifyRecord);
    assert_eq!(DirectiveType::from(0x0002), DirectiveType::LanguageInfo);
    assert_eq!(DirectiveType::from(0x0003), DirectiveType::CoprocessorRequired);
    assert_eq!(DirectiveType::from(0x0004), DirectiveType::ThreadStateInit);
    assert_eq!(DirectiveType::from(0x0001), DirectiveType::Unknown(1));
    assert_eq!(DirectiveType::from(0x8002), DirectiveType::Unknown(0x8002));
}

fn verify(data: &[u8]) -> ModuleDirective {
    ModuleDirective { directive_type: DirectiveType::VerifyRecord, data: data.to_vec() }
}

#[test]
fn verify_record_lists_module_dependencies() {
    let mut data = vec![2u8, 0];
    data.extend_from_slice(&[1, 0, 0x0A, 0x03, 2, 0]);
    data.extend_from_slice(&[1, 0, 0x00, 0x00, 0x01, 0x00, 0x00, 0x10, 0x00, 0x00]);
    data.extend_from_slice(&[2, 0, 0x00, 0x00, 0x02, 0x00, 0x78, 0x56, 0x34, 0x12]);
    data.extend_from_slice(&[7, 0, 1, 0, 0, 0]);
    data.extend_from_slice(&[0xFF; 3]);
    let record = ModuleDirectivesTable::read_verify_record(&verify(&data)).unwrap();
    assert_eq!(
        record.module_dependencies,
        vec![
            ModuleDependency {
                module_ordinal: 1,
                version: 0x030A,
                module_object_count: 2,
                object_verifications: vec![
                    ObjectVerification {
                        object_number: 1,
                        base_address: 0x0001_0000,
                        virtual_size: 0x1000,
                    },
                    ObjectVerification {
                        object_number: 2,
                        base_address: 0x0002_0000,
                        virtual_size: 0x1234_5678,
                    },
                ],
            },
            ModuleDependency {
                module_ordinal: 7,
                version: 1,
                module_object_count: 0,
                object_verifications: vec![],
            },
        ]
    );
    let none = ModuleDirectivesTable::read_verify_record(&verify(&[0, 0, 9])).unwrap();
    assert_eq!(none.module_dependencies, vec![]);
}

#[test]
fn verify_record_failures() {
    let other = ModuleDirective { directive_type: DirectiveType::LanguageInfo, data: vec![0, 0] };
    assert_eq!(
        ModuleDirectivesTable::read_verify_record(&other),
        Err(DecodeError { kind: ErrorKind::BadMagic, offset: 0 })
    );
    let unknown = ModuleDirective { directive_type: DirectiveType::Unknown(0x8001), data: vec![] };
    assert_eq!(
        ModuleDirectivesTable::read_verify_record(&unknown),
        Err(DecodeError { kind: ErrorKind::BadMagic, offset: 0 })
    );
    assert_eq!(ModuleDirectivesTable::read_verify_record(&verify(&[1])), Err(truncated(0)));
    assert_eq!(ModuleDirectivesTable::read_verify_record(&verify(&[])), Err(truncated(0)));
    assert_eq!(ModuleDirectivesTable::read_verify_record(&verify(&[1, 0])), Err(truncated(2)));
    assert_eq!(
        ModuleDirectivesTable::read_verify_record(&verify(&[1, 0, 1, 0, 1, 0, 1])),
        Err(truncated(2))
    );
    let mut data = vec![2u8, 0, 1, 0, 1, 0, 1, 0];
    data.extend_from_slice(&[0u8; 9]);
    assert_eq!(ModuleDirectivesTable::read_verify_record(&verify(&data)), Err(truncated(8)));
    data.push(0);
    assert_eq!(ModuleDirectivesTable::read_verify_record(&verify(&data)), Err(truncated(18)));
}

#[test]
fn linear_get_decodes_the_bytes_of_a_file() {
    let image = lx_image();
    let layout = LinearExecutableLayout::get(&image).unwrap();
    assert_eq!(Ok(layout), LinearExecutableLayout::read(&ByteSource::new(&image)));
    assert_eq!(LinearExecutableLayout::get(&image[..0x50]), Err(truncated(0x40)));
}
