use os2omf::error::{DecodeError, ErrorKind};
use os2omf::exe286::enttab::{Entry, EntryTable, FixedEntry, MoveableEntry};
use os2omf::exe286::header::{
    DataSegment, ModuleFlags, ModuleOs2Flags, ModuleWindowsFlags, NewExecutableHeader, CPU,
};
use os2omf::exe286::modtab::ModuleReferencesTable;
use os2omf::exe286::nrestab::NonResidentNameTable;
use os2omf::exe286::resntab::{ResidentNameEntry, ResidentNameTable};
use os2omf::exe286::segrelocs::{
    FPUFixup, FPUFixupType, ImportName, ImportOrdinal, InternalFixup, RelocationEntry,
    RelocationTable, RelocationType,
};
use os2omf::exe286::segtab::{
    DllImport, NeSegment, NeSegmentDllImportsTable, NeSegmentHeader, NeSegmentRights,
};
use os2omf::exe286::NewExecutableLayout;
use os2omf::exe386::nrestab::NonResidentNameEntry;
use os2omf::source::ByteSource;
use os2omf::types::PascalString;

const BASE: usize = 0x40;

fn put(image: &mut [u8], at: usize, bytes: &[u8]) {
    image[at..at + bytes.len()].copy_from_slice(bytes);
}

fn put16(image: &mut [u8], at: usize, v: u16) {
    put(image, at, &v.to_le_bytes());
}

fn put32(image: &mut [u8], at: usize, v: u32) {
    put(image, at, &v.to_le_bytes());
}

/// A 1 KiB New Executable: one code segment with relocations, the module
/// name "CALC", the non-resident name "AboutDlg", one module reference to
/// "KERNEL" and one fixed entry point.
fn ne_image(relocs: &[[u8; 8]]) -> Vec<u8> {
    let mut image = vec![0u8; 1024];
    put(&mut image, 0, b"MZ");
    put16(&mut image, 24, 0x40);
    put32(&mut image, 60, BASE as u32);
    put(&mut image, BASE, b"NE");
    image[BASE + 2] = 5;
    image[BASE + 3] = 10;
    put16(&mut image, BASE + 4, 0x80);
    put16(&mut image, BASE + 6, 6);
    put16(&mut image, BASE + 12, 0x800A);
    put16(&mut image, BASE + 14, 1);
    put16(&mut image, BASE + 16, 0x400);
    put16(&mut image, BASE + 18, 0x800);
    put32(&mut image, BASE + 20, 0x0001_0010);
    put32(&mut image, BASE + 24, 0x0001_0800);
    put16(&mut image, BASE + 28, 1);
    put16(&mut image, BASE + 30, 1);
    put16(&mut image, BASE + 32, 12);
    put16(&mut image, BASE + 34, 0x40);
    put16(&mut image, BASE + 38, 0x50);
    put16(&mut image, BASE + 40, 0x60);
    put16(&mut image, BASE + 42, 0x68);
    put32(&mut image, BASE + 44, 0xD0);
    put16(&mut image, BASE + 50, 4);
    image[BASE + 54] = 2;
    image[BASE + 55] = 0x0A;
    put(&mut image, BASE + 62, &[0x0A, 0x03]);
    // Segment table: data at sector 0x10, shifted by 4, 0x20 bytes long.
    put16(&mut image, 0x80, 0x0010);
    put16(&mut image, 0x82, 0x0020);
    put16(&mut image, 0x84, 0x0101);
    put16(&mut image, 0x86, 0x0020);
    put(&mut image, 0x90, b"\x04CALC\x00\x00\x00");
    put16(&mut image, 0xA0, 0x0001);
    put(&mut image, 0xA8, b"\x00\x06KERNEL\x0AGetVersion");
    put(&mut image, 0xC0, &[1, 1, 0x01, 0x10, 0x00, 0]);
    put(&mut image, 0xD0, b"\x08AboutDlg\x01\x00\x00");
    for byte in image[0x100..0x120].iter_mut() {
        *byte = 0x90;
    }
    put16(&mut image, 0x120, relocs.len() as u16);
    for (i, record) in relocs.iter().enumerate() {
        put(&mut image, 0x122 + 8 * i, record);
    }
    image
}

const INTERNAL: [u8; 8] = [0x03, 0x00, 0x05, 0x00, 0x01, 0x00, 0x10, 0x00];
const BY_ORDINAL: [u8; 8] = [0x03, 0x01, 0x09, 0x00, 0x01, 0x00, 0x03, 0x00];
const BY_NAME: [u8; 8] = [0x03, 0x06, 0x0C, 0x00, 0x01, 0x00, 0x08, 0x00];
const OS_FIXUP: [u8; 8] = [0x07, 0x03, 0x11, 0x00, 0x02, 0x00, 0x00, 0x00];

fn name(bytes: &[u8]) -> PascalString {
    PascalString::new(bytes.len() as u8, bytes.to_vec())
}

#[test]
fn ne_image_windows_calc_class() {
    let image = ne_image(&[INTERNAL]);
    let src = ByteSource::new(&image);
    let layout = NewExecutableLayout::read(&src).unwrap();
    assert_eq!(layout.seg_tab.len(), 1);
    assert_eq!(layout.resn_tab.entries[0].name.to_bytes(), b"CALC");
    assert_eq!(layout.resn_tab.entries[0].ordinal, 0);
    assert_eq!(layout.resn_tab.entries.len(), 1);
    assert_eq!(layout.nres_tab.entries[0].ordinal, 1);
    assert_eq!(layout.nres_tab.entries[0].name.to_bytes(), b"AboutDlg");
    assert_eq!(layout.nres_tab.entries.len(), 1);
    assert_eq!(layout.dos_header.e_lfanew, 0x40);
    assert_eq!(layout.new_header.e_cseg, 1);
    assert_eq!(layout.mod_tab.m_offsets, vec![1]);
    assert_eq!(
        layout.ent_tab.entries,
        vec![Entry::Fixed(FixedEntry { segment: 1, flags: 1, offset: 0x10 })]
    );
    let segment = &layout.seg_tab[0];
    assert_eq!(segment.shift_count, 4);
    assert_eq!(segment.data, None);
    assert_eq!(
        segment.relocs.rel_entries,
        vec![RelocationEntry {
            rel_rtp: 0,
            rel_atp: 3,
            rel_add: false,
            rel_seg_ptr: 5,
            rel_type: RelocationType::Internal(InternalFixup {
                int_seg: 1,
                int_mov: false,
                int_offset: 0x10,
            }),
        }]
    );
    assert_eq!(layout.imp_tab.len(), 1);
    assert_eq!(layout.imp_tab[0].seg_number, 1);
    assert!(layout.imp_tab[0].imp_list.is_empty());
    assert_eq!(src.position(), 0);
}

#[test]
fn decoding_twice_gives_equal_layouts() {
    let image = ne_image(&[INTERNAL, BY_ORDINAL, BY_NAME, OS_FIXUP]);
    let src = ByteSource::new(&image);
    let first = NewExecutableLayout::read(&src);
    let second = NewExecutableLayout::read(&src);
    assert!(first.is_ok());
    assert_eq!(first, second);
    let broken = &image[..0x124];
    let src = ByteSource::new(broken);
    assert_eq!(NewExecutableLayout::read(&src), NewExecutableLayout::read(&src));
}

#[test]
fn layout_resolves_the_imports_of_each_segment() {
    let image = ne_image(&[INTERNAL, BY_ORDINAL, BY_NAME, OS_FIXUP]);
    let src = ByteSource::new(&image);
    let layout = NewExecutableLayout::read(&src).unwrap();
    assert_eq!(layout.seg_tab[0].relocs.rel_entries.len(), 4);
    assert_eq!(
        layout.imp_tab,
        vec![NeSegmentDllImportsTable {
            seg_number: 1,
            imp_list: vec![
                DllImport::new(name(b"KERNEL"), PascalString::empty(), 3, 0xA8 + 8),
                DllImport::new(name(b"KERNEL"), name(b"GetVersion"), 0, 0xA8 + 8),
            ],
        }]
    );
}

#[test]
fn layout_reports_the_first_failure() {
    let image = ne_image(&[INTERNAL]);
    let mut no_link = image.clone();
    put32(&mut no_link, 60, 0);
    assert_eq!(
        NewExecutableLayout::read(&ByteSource::new(&no_link)),
        Err(DecodeError { kind: ErrorKind::BadMagic, offset: 0 })
    );
    let mut not_mz = image.clone();
    not_mz[0] = b'X';
    assert_eq!(
        NewExecutableLayout::read(&ByteSource::new(&not_mz)),
        Err(DecodeError { kind: ErrorKind::BadMagic, offset: 0 })
    );
    let mut bad_pointer = image.clone();
    put16(&mut bad_pointer, BASE + 38, 0x3C0);
    assert_eq!(
        NewExecutableLayout::read(&ByteSource::new(&bad_pointer)),
        Err(DecodeError { kind: ErrorKind::Truncated, offset: 0x400 })
    );
    let mut bad_module = ne_image(&[[0x03, 0x01, 0x09, 0x00, 0x02, 0x00, 0x03, 0x00]]);
    assert_eq!(
        NewExecutableLayout::read(&ByteSource::new(&bad_module)),
        Err(DecodeError { kind: ErrorKind::InvalidModuleOrdinal, offset: 0xA0 })
    );
    put16(&mut bad_module, 0x120, 200);
    assert_eq!(
        NewExecutableLayout::read(&ByteSource::new(&bad_module)),
        Err(DecodeError { kind: ErrorKind::Truncated, offset: 0x122 })
    );
}

#[test]
fn absent_tables_are_empty() {
    let mut image = ne_image(&[INTERNAL]);
    put16(&mut image, BASE + 4, 0);
    put16(&mut image, BASE + 38, 0);
    put16(&mut image, BASE + 40, 0);
    put32(&mut image, BASE + 44, 0);
    put16(&mut image, BASE + 34, 0);
    let layout = NewExecutableLayout::read(&ByteSource::new(&image)).unwrap();
    assert!(layout.ent_tab.entries.is_empty());
    assert!(layout.resn_tab.entries.is_empty());
    assert!(layout.nres_tab.entries.is_empty());
    assert!(layout.mod_tab.m_offsets.is_empty());
    assert!(layout.seg_tab.is_empty());
    assert!(layout.imp_tab.is_empty());
}

#[test]
fn header_fields_and_flags() {
    let image = ne_image(&[INTERNAL]);
    let mut src = ByteSource::new(&image);
    let h = NewExecutableHeader::read(&mut src, 0x40).unwrap();
    assert_eq!(src.position(), 0x80);
    assert_eq!(h.e_magic, [b'N', b'E']);
    assert_eq!((h.e_link_maj, h.e_link_min), (5, 10));
    assert_eq!((h.e_ent_tab, h.e_cb_ent), (0x80, 6));
    assert_eq!(h.e_load_crc, 0);
    assert_eq!(h.e_flags, 0x800A);
    assert_eq!(h.e_autodata, 1);
    assert_eq!((h.e_heap, h.e_stack), (0x400, 0x800));
    assert_eq!((h.e_csip, h.e_sssp), (0x0001_0010, 0x0001_0800));
    assert_eq!((h.e_cseg, h.e_cmod, h.e_cbnres), (1, 1, 12));
    assert_eq!(h.e_seg_tab, 0x40);
    assert_eq!(h.e_rsrc_tab, 0);
    assert_eq!(h.e_resn_tab, 0x50);
    assert_eq!(h.e_mod_tab, 0x60);
    assert_eq!(h.e_imp_tab, 0x68);
    assert_eq!(h.e_nres_tab, 0xD0);
    assert_eq!(h.e_align, 4);
    assert_eq!((h.e_os, h.e_flag_others), (2, 0x0A));
    assert_eq!(h.expected_win_ver, [0x0A, 0x03]);
    assert!(h.is_valid_magic());
    assert_eq!(h.align_shift(), 4);
    assert_eq!(
        h.module_flags(),
        ModuleFlags {
            library_module: true,
            data_segment: DataSegment::Multiple,
            image_error: false,
            non_conforming: false,
            linkage_errors: true,
            protected_mode_only: true,
        }
    );
    assert_eq!(
        h.other_os2_flags(),
        ModuleOs2Flags {
            os2_protected_mode: true,
            proportional_fonts: false,
            long_names_support: false,
            gangload_area: true,
        }
    );
    assert_eq!(
        h.other_windows_flags(),
        ModuleWindowsFlags {
            win3x_protected_mode: true,
            proportional_fonts: false,
            fastload_area: true,
        }
    );
}

#[test]
fn header_failures() {
    let image = ne_image(&[INTERNAL]);
    let mut src = ByteSource::new(&image);
    src.seek_absolute(7).unwrap();
    assert_eq!(
        NewExecutableHeader::read(&mut src, 0x41),
        Err(DecodeError { kind: ErrorKind::BadMagic, offset: 0x41 })
    );
    assert_eq!(src.position(), 7);
    assert_eq!(
        NewExecutableHeader::read(&mut src, 1000),
        Err(DecodeError { kind: ErrorKind::Truncated, offset: 1000 })
    );
    assert_eq!(
        NewExecutableHeader::read(&mut src, 5000),
        Err(DecodeError { kind: ErrorKind::Truncated, offset: 5000 })
    );
    let mut swapped = image.clone();
    put(&mut swapped, BASE, b"EN");
    assert_eq!(
        NewExecutableHeader::read(&mut ByteSource::new(&swapped), 0x40),
        Err(DecodeError { kind: ErrorKind::BadMagic, offset: 0x40 })
    );
    let mut wide = image.clone();
    put16(&mut wide, BASE + 50, 17);
    assert_eq!(
        NewExecutableHeader::read(&mut ByteSource::new(&wide), 0x40),
        Err(DecodeError { kind: ErrorKind::ImplausibleCount, offset: 0x72 })
    );
    put16(&mut wide, BASE + 50, 16);
    let h = NewExecutableHeader::read(&mut ByteSource::new(&wide), 0x40).unwrap();
    assert_eq!(h.align_shift(), 16);
    put16(&mut wide, BASE + 50, 0);
    let h = NewExecutableHeader::read(&mut ByteSource::new(&wide), 0x40).unwrap();
    assert_eq!(h.e_align, 0);
    assert_eq!(h.align_shift(), 9);
}

#[test]
fn flag_codes() {
    assert_eq!(CPU::from(4), CPU::I8086);
    assert_eq!(CPU::from(5), CPU::I286);
    assert_eq!(CPU::from(6), CPU::I386);
    assert_eq!(CPU::from(7), CPU::I8087);
    assert_eq!(CPU::from(0), CPU::Undefined);
    assert_eq!(CPU::from(8), CPU::Undefined);
    assert_eq!(DataSegment::from(0), DataSegment::No);
    assert_eq!(DataSegment::from(1), DataSegment::Single);
    assert_eq!(DataSegment::from(2), DataSegment::Multiple);
    assert_eq!(DataSegment::from(3), DataSegment::No);
    assert_eq!(DataSegment::from(0x8001), DataSegment::Single);
    assert_eq!(DataSegment::from(0xFFFE), DataSegment::Multiple);
    assert_eq!(FPUFixupType::get_from(1), FPUFixupType::FiArqqFjArqq);
    assert_eq!(FPUFixupType::get_from(2), FPUFixupType::FiSrqqFjSrqq);
    assert_eq!(FPUFixupType::get_from(3), FPUFixupType::FiCrqqFjCrqq);
    assert_eq!(FPUFixupType::get_from(4), FPUFixupType::FiErqq);
    assert_eq!(FPUFixupType::get_from(5), FPUFixupType::FiDrqq);
    assert_eq!(FPUFixupType::get_from(6), FPUFixupType::FiDrqq);
    assert_eq!(FPUFixupType::get_from(0), FPUFixupType::FiDrqq);
}

#[test]
fn entry_table_with_unused_holes() {
    let mut table = vec![3u8, 0xFF];
    for i in 0..3u8 {
        table.extend_from_slice(&[i, 0xCD, 0x3F, 1, 0x10 * (i + 1), 0x00]);
    }
    table.extend_from_slice(&[5, 0x00]);
    table.extend_from_slice(&[2, 0x02, 0x03, 0x00, 0x01, 0x01, 0x34, 0x12]);
    table.extend_from_slice(&[0, 0]);
    let mut image = vec![0xEEu8; 16];
    image.extend_from_slice(&table);
    let mut src = ByteSource::new(&image);
    let decoded = EntryTable::read(&mut src, 16, table.len() as u16).unwrap();
    assert_eq!(decoded.entries.len(), 10);
    for ordinal in 1..=3u32 {
        let i = (ordinal - 1) as u8;
        assert_eq!(
            decoded.entry_at_ordinal(ordinal),
            Some(Entry::Moveable(MoveableEntry {
                flags: i,
                magic: [0xCD, 0x3F],
                segment: 1,
                offset: 0x10 * (i as u16 + 1),
            }))
        );
    }
    for ordinal in 4..=8 {
        assert_eq!(decoded.entry_at_ordinal(ordinal), Some(Entry::Unused));
    }
    assert_eq!(
        decoded.entry_at_ordinal(9),
        Some(Entry::Fixed(FixedEntry { segment: 2, flags: 3, offset: 0x0100 }))
    );
    assert_eq!(
        decoded.entry_at_ordinal(10),
        Some(Entry::Fixed(FixedEntry { segment: 2, flags: 1, offset: 0x1234 }))
    );
    assert_eq!(decoded.entry_at_ordinal(0), None);
    assert_eq!(decoded.entry_at_ordinal(11), None);
    // The sum of the bundle counts is the number of entries.
    assert_eq!(decoded.entries.len(), 3 + 5 + 2);
    assert_eq!(src.position(), 16 + table.len() as u64 - 1);
}

#[test]
fn corrupted_bundle() {
    let mut image = vec![0u8; 0x20];
    image.extend_from_slice(&[200, 0x02, 0x00]);
    image.extend_from_slice(&[0u8; 700]);
    let mut src = ByteSource::new(&image);
    assert_eq!(
        EntryTable::read(&mut src, 0x20, 3),
        Err(DecodeError { kind: ErrorKind::InvalidBundle, offset: 0x20 })
    );
    assert_eq!(src.position(), 0);
    assert_eq!(
        EntryTable::read(&mut src, 0x20, 5),
        Err(DecodeError { kind: ErrorKind::InvalidBundle, offset: 0x20 })
    );
    // A valid bundle first: the failing header is the second one.
    let mut image = vec![1u8, 0x01, 0x00, 0x10, 0x00];
    image.extend_from_slice(&[200, 0x02, 0x00]);
    let mut src = ByteSource::new(&image);
    assert_eq!(
        EntryTable::read(&mut src, 0, 8),
        Err(DecodeError { kind: ErrorKind::InvalidBundle, offset: 5 })
    );
}

#[test]
fn entry_table_ends_at_terminator_or_declared_length() {
    // The terminator comes first: what follows it is not read.
    let image = [1u8, 0x01, 0x07, 0x10, 0x00, 0, 9, 9, 9];
    let mut src = ByteSource::new(&image);
    let table = EntryTable::read(&mut src, 0, 9).unwrap();
    assert_eq!(table.entries.len(), 1);
    assert_eq!(src.position(), 6);
    // The declared length comes first.
    let image = [1u8, 0x01, 0x07, 0x10, 0x00, 1, 0x01, 0x07, 0x10, 0x00];
    let mut src = ByteSource::new(&image);
    let table = EntryTable::read(&mut src, 0, 5).unwrap();
    assert_eq!(table.entries.len(), 1);
    assert_eq!(src.position(), 5);
    // No length at all.
    let table = EntryTable::read(&mut src, 3, 0).unwrap();
    assert!(table.entries.is_empty());
    assert_eq!(src.position(), 3);
    // A header cut in two by the declared length.
    assert_eq!(
        EntryTable::read(&mut src, 0, 6),
        Err(DecodeError { kind: ErrorKind::InvalidBundle, offset: 5 })
    );
    // Unused entries take no bytes.
    let image = [255u8, 0, 0];
    let mut src = ByteSource::new(&image);
    let table = EntryTable::read(&mut src, 0, 3).unwrap();
    assert_eq!(table.entries, vec![Entry::Unused; 255]);
}

#[test]
fn entry_table_truncated_by_the_image() {
    let image = [2u8, 0x01, 0x07, 0x10, 0x00, 0x07];
    let mut src = ByteSource::new(&image);
    assert_eq!(
        EntryTable::read(&mut src, 0, 100),
        Err(DecodeError { kind: ErrorKind::Truncated, offset: 2 })
    );
    assert_eq!(
        EntryTable::read(&mut src, 6, 100),
        Err(DecodeError { kind: ErrorKind::Truncated, offset: 6 })
    );
    assert_eq!(
        EntryTable::read(&mut src, 7, 100),
        Err(DecodeError { kind: ErrorKind::Truncated, offset: 7 })
    );
    let image = [2u8];
    let mut src = ByteSource::new(&image);
    assert_eq!(
        EntryTable::read(&mut src, 0, 100),
        Err(DecodeError { kind: ErrorKind::Truncated, offset: 1 })
    );
}

#[test]
fn single_entries() {
    let image = [0x03u8, 0x34, 0x12, 0x01, 0xCD, 0x3F, 0x02, 0x78, 0x56, 0x01, 0x00, 0x00];
    let mut src = ByteSource::new(&image);
    assert_eq!(
        FixedEntry::read(&mut src, 7),
        Ok(FixedEntry { segment: 7, flags: 3, offset: 0x1234 })
    );
    assert_eq!(src.position(), 3);
    let moveable = MoveableEntry::read(&mut src).unwrap();
    assert_eq!(
        moveable,
        MoveableEntry { flags: 1, magic: [0xCD, 0x3F], segment: 2, offset: 0x5678 }
    );
    assert!(moveable.has_thunk_magic());
    assert_eq!(src.position(), 9);
    assert_eq!(
        MoveableEntry::read(&mut src),
        Err(DecodeError { kind: ErrorKind::Truncated, offset: 9 })
    );
    let plain = FixedEntry::read(&mut src, 1).unwrap();
    assert_eq!(plain, FixedEntry { segment: 1, flags: 1, offset: 0 });
    assert_eq!(
        FixedEntry::read(&mut src, 1),
        Err(DecodeError { kind: ErrorKind::Truncated, offset: 12 })
    );
    let odd = MoveableEntry { flags: 0, magic: [0xCD, 0x21], segment: 1, offset: 0 };
    assert!(!odd.has_thunk_magic());
}

#[test]
fn name_tables() {
    let image = b"\x04CALC\x00\x00\x03Abc\x05\x00\x00rest";
    let mut src = ByteSource::new(image);
    let table = ResidentNameTable::read(&mut src, 0).unwrap();
    assert_eq!(
        table.entries,
        vec![
            ResidentNameEntry { name: name(b"CALC"), ordinal: 0 },
            ResidentNameEntry { name: name(b"Abc"), ordinal: 5 },
        ]
    );
    assert_eq!(src.position(), 14);
    let table = NonResidentNameTable::read(&mut src, 7).unwrap();
    assert_eq!(
        table.entries,
        vec![NonResidentNameEntry { name: name(b"Abc"), ordinal: 5 }]
    );
    assert_eq!(src.position(), 14);
    assert_eq!(ResidentNameTable::read(&mut src, 13).unwrap().entries, vec![]);
    assert_eq!(ResidentNameTable::empty().entries, vec![]);
    assert_eq!(NonResidentNameTable::empty().entries, vec![]);
    src.seek_absolute(0).unwrap();
    assert_eq!(
        ResidentNameEntry::read(&mut src),
        Ok(Some(ResidentNameEntry { name: name(b"CALC"), ordinal: 0 }))
    );
    assert_eq!(src.position(), 7);
    src.seek_absolute(13).unwrap();
    assert_eq!(NonResidentNameEntry::read(&mut src), Ok(None));
    assert_eq!(src.position(), 14);
}

#[test]
fn name_table_failures() {
    // No terminator.
    let image = b"\x04CALC\x00\x00";
    let mut src = ByteSource::new(image);
    assert_eq!(
        ResidentNameTable::read(&mut src, 0),
        Err(DecodeError { kind: ErrorKind::Truncated, offset: 7 })
    );
    assert_eq!(src.position(), 0);
    // No ordinal.
    let image = b"\x04CALC\x00";
    let mut src = ByteSource::new(image);
    assert_eq!(
        NonResidentNameTable::read(&mut src, 0),
        Err(DecodeError { kind: ErrorKind::Truncated, offset: 5 })
    );
    assert_eq!(
        ResidentNameEntry::read(&mut src),
        Err(DecodeError { kind: ErrorKind::Truncated, offset: 5 })
    );
    assert_eq!(src.position(), 0);
    // A name cut short.
    let image = b"\x09CALC";
    let mut src = ByteSource::new(image);
    assert_eq!(
        ResidentNameTable::read(&mut src, 0),
        Err(DecodeError { kind: ErrorKind::Truncated, offset: 1 })
    );
    assert_eq!(
        ResidentNameTable::read(&mut src, 6),
        Err(DecodeError { kind: ErrorKind::Truncated, offset: 6 })
    );
}

#[test]
fn module_references() {
    let image = [0u8, 0, 0x01, 0x00, 0x08, 0x00, 0x34, 0x12];
    let mut src = ByteSource::new(&image);
    let table = ModuleReferencesTable::read(&mut src, 2, 3).unwrap();
    assert_eq!(table.m_offsets, vec![1, 8, 0x1234]);
    assert_eq!(src.position(), 8);
    assert_eq!(
        ModuleReferencesTable::read(&mut src, 2, 4),
        Err(DecodeError { kind: ErrorKind::Truncated, offset: 2 })
    );
    assert_eq!(src.position(), 8);
    assert_eq!(ModuleReferencesTable::empty().m_offsets, vec![]);
}

#[test]
fn relocation_records_of_each_kind() {
    let mut image = vec![0u8; 4];
    image.extend_from_slice(&5u16.to_le_bytes());
    for record in [
        INTERNAL,
        BY_ORDINAL,
        BY_NAME,
        OS_FIXUP,
        [0x05, 0x04, 0x22, 0x11, 0xFF, 0xAA, 0x07, 0x00],
    ] {
        image.extend_from_slice(&record);
    }
    let mut src = ByteSource::new(&image);
    src.seek_absolute(4).unwrap();
    let table = RelocationTable::read(&mut src).unwrap();
    assert_eq!(src.position(), 4 + 2 + 40);
    assert_eq!(
        table.rel_entries,
        vec![
            RelocationEntry {
                rel_rtp: 0,
                rel_atp: 3,
                rel_add: false,
                rel_seg_ptr: 5,
                rel_type: RelocationType::Internal(InternalFixup {
                    int_seg: 1,
                    int_mov: false,
                    int_offset: 0x10,
                }),
            },
            RelocationEntry {
                rel_rtp: 1,
                rel_atp: 3,
                rel_add: false,
                rel_seg_ptr: 9,
                rel_type: RelocationType::ImportOrdinal(ImportOrdinal {
                    imp_mod_index: 1,
                    imp_ordinal: 3,
                }),
            },
            RelocationEntry {
                rel_rtp: 2,
                rel_atp: 3,
                rel_add: true,
                rel_seg_ptr: 12,
                rel_type: RelocationType::ImportName(ImportName {
                    imp_mod_index: 1,
                    imp_offset: 8,
                }),
            },
            RelocationEntry {
                rel_rtp: 3,
                rel_atp: 7,
                rel_add: false,
                rel_seg_ptr: 0x11,
                rel_type: RelocationType::OSFixup(FPUFixup {
                    osf_type: FPUFixupType::FiSrqqFjSrqq,
                    osf_padd: 0,
                }),
            },
            RelocationEntry {
                rel_rtp: 0,
                rel_atp: 5,
                rel_add: true,
                rel_seg_ptr: 0x1122,
                rel_type: RelocationType::Internal(InternalFixup {
                    int_seg: 0xFF,
                    int_mov: true,
                    int_offset: 7,
                }),
            },
        ]
    );
    assert_eq!(RelocationEntry::decode(&image, 6), table.rel_entries[0]);
    assert_eq!(RelocationTable::empty().rel_entries, vec![]);
}

#[test]
fn relocation_table_failures() {
    let image = [2u8, 0, 1, 2, 3, 4, 5, 6, 7, 8];
    let mut src = ByteSource::new(&image);
    assert_eq!(
        RelocationTable::read(&mut src),
        Err(DecodeError { kind: ErrorKind::Truncated, offset: 2 })
    );
    assert_eq!(src.position(), 0);
    src.seek_absolute(9).unwrap();
    assert_eq!(
        RelocationTable::read(&mut src),
        Err(DecodeError { kind: ErrorKind::Truncated, offset: 9 })
    );
}

#[test]
fn segment_header_getters() {
    let image = [0x10u8, 0x00, 0x20, 0x00, 0x01, 0x01, 0x00, 0x00];
    let mut src = ByteSource::new(&image);
    let h = NeSegmentHeader::read(&mut src).unwrap();
    assert_eq!(
        h,
        NeSegmentHeader { sector_base: 0x10, sector_length: 0x20, flags: 0x0101, min_alloc: 0 }
    );
    assert_eq!(src.position(), 8);
    assert_eq!(
        NeSegmentHeader::read(&mut src),
        Err(DecodeError { kind: ErrorKind::Truncated, offset: 8 })
    );
    assert_eq!(h.data_offset(4), 0x100);
    assert_eq!(h.data_offset(9), 0x2000);
    assert_eq!(h.data_offset(0), 0x10);
    assert_eq!(h.data_offset(16), 0x10_0000);
    assert_eq!(h.data_length(), 0x20);
    assert_eq!(h.min_alloc(), 0x10000);
    assert!(!h.relocations_stripped());
    assert_eq!(h.get_segment_rights(), NeSegmentRights::CODE);
    let big = NeSegmentHeader { sector_base: 0xFFFF, sector_length: 0, flags: 0, min_alloc: 5 };
    assert_eq!(big.data_offset(16), 0xFFFF_0000);
    assert_eq!(big.data_length(), 0x10000);
    assert_eq!(big.min_alloc(), 5);
    assert!(big.relocations_stripped());
    assert_eq!(big.get_segment_rights(), NeSegmentRights::DATA);
    let rights = |sector_base, flags| {
        NeSegmentHeader { sector_base, sector_length: 1, flags, min_alloc: 1 }.get_segment_rights()
    };
    assert_eq!(rights(0, 0x0001), NeSegmentRights::BSS);
    assert_eq!(rights(1, 0x0001), NeSegmentRights::CODE);
    assert_eq!(rights(1, 0x0041), NeSegmentRights::CODE);
    assert_eq!(rights(1, 0x0002), NeSegmentRights::DATA);
    assert_eq!(rights(1, 0x0003), NeSegmentRights::DATA);
    assert_eq!(rights(1, 0x0040), NeSegmentRights::RDATA);
    assert_eq!(rights(1, 0x0140), NeSegmentRights::RDATA);
    assert_eq!(rights(1, 0xF100), NeSegmentRights::DATA);
}

#[test]
fn segment_with_relocations_lies_inside_the_image() {
    let image = ne_image(&[INTERNAL, BY_NAME]);
    let mut src = ByteSource::new(&image);
    src.seek_absolute(0x80).unwrap();
    let segment = NeSegment::read(&mut src, 4).unwrap();
    assert_eq!(src.position(), 0x88);
    assert_eq!(segment.relocs.rel_entries.len(), 2);
    assert_eq!(segment.shift_count, 4);
    let end = segment.header.data_offset(4) + segment.header.data_length();
    assert_eq!(end, 0x120);
    assert!(end <= image.len() as u64);
}

#[test]
fn segment_without_relocation_block_at_the_tail() {
    // The data of the segment ends where the image ends.
    let mut image = ne_image(&[INTERNAL]);
    image.truncate(0x120);
    let mut src = ByteSource::new(&image);
    src.seek_absolute(0x80).unwrap();
    let segment = NeSegment::read(&mut src, 4).unwrap();
    assert!(segment.relocs.rel_entries.is_empty());
    // One byte of the count is there: still none.
    let mut image = ne_image(&[INTERNAL]);
    image.truncate(0x121);
    let mut src = ByteSource::new(&image);
    src.seek_absolute(0x80).unwrap();
    assert!(NeSegment::read(&mut src, 4).unwrap().relocs.rel_entries.is_empty());
    // The count is there, the records are not.
    let mut image = ne_image(&[INTERNAL]);
    image.truncate(0x125);
    let mut src = ByteSource::new(&image);
    src.seek_absolute(0x80).unwrap();
    assert_eq!(
        NeSegment::read(&mut src, 4),
        Err(DecodeError { kind: ErrorKind::Truncated, offset: 0x122 })
    );
    assert_eq!(src.position(), 0x80);
    // With the default shift the data would lie far behind the image.
    let image = ne_image(&[INTERNAL]);
    let mut src = ByteSource::new(&image);
    src.seek_absolute(0x80).unwrap();
    let segment = NeSegment::read(&mut src, 0).unwrap();
    assert_eq!(segment.shift_count, 9);
    assert!(segment.relocs.rel_entries.is_empty());
}

#[test]
fn segment_of_64_kib_has_its_relocations_behind_the_data() {
    let mut image = vec![0u8; 0x10000 + 0x40];
    // Record at 0: sector 1, shift 4, length 0 which stands for 64 KiB.
    put16(&mut image, 0, 1);
    put16(&mut image, 2, 0);
    put16(&mut image, 4, 0x0100);
    put16(&mut image, 0x10010, 1);
    put(&mut image, 0x10012, &BY_ORDINAL);
    let mut src = ByteSource::new(&image);
    let segment = NeSegment::read(&mut src, 4).unwrap();
    assert_eq!(segment.relocs.rel_entries.len(), 1);
    assert_eq!(segment.relocs.rel_entries[0].rel_rtp, 1);
}

#[test]
fn segment_shift_above_sixteen_is_implausible() {
    let image = ne_image(&[INTERNAL]);
    let mut src = ByteSource::new(&image);
    src.seek_absolute(0x80).unwrap();
    assert_eq!(
        NeSegment::read(&mut src, 17),
        Err(DecodeError { kind: ErrorKind::ImplausibleCount, offset: 0x80 })
    );
    src.seek_absolute(1020).unwrap();
    assert_eq!(
        NeSegment::read(&mut src, 4),
        Err(DecodeError { kind: ErrorKind::Truncated, offset: 1020 })
    );
}

#[test]
fn segment_data() {
    let image = ne_image(&[INTERNAL]);
    let mut src = ByteSource::new(&image);
    src.seek_absolute(0x80).unwrap();
    let mut segment = NeSegment::read(&mut src, 4).unwrap();
    assert_eq!(segment.read_data(&mut src), Ok(()));
    assert_eq!(segment.data, Some(vec![0x90u8; 0x20]));
    assert_eq!(src.position(), 0x120);
    let mut bss = segment.clone();
    bss.header.sector_base = 0;
    bss.data = None;
    src.seek_absolute(3).unwrap();
    assert_eq!(bss.read_data(&mut src), Ok(()));
    assert_eq!(bss.data, None);
    assert_eq!(src.position(), 3);
    let mut beyond = segment.clone();
    beyond.header.sector_base = 0x3F;
    beyond.data = None;
    assert_eq!(
        beyond.read_data(&mut src),
        Err(DecodeError { kind: ErrorKind::Truncated, offset: 0x3F0 })
    );
    assert_eq!(beyond.data, None);
    assert_eq!(src.position(), 3);
}

#[test]
fn imports_by_name_and_by_ordinal() {
    let image = ne_image(&[INTERNAL]);
    let src = ByteSource::new(&image);
    let by_name = ImportName { imp_mod_index: 1, imp_offset: 8 };
    assert_eq!(
        NeSegmentDllImportsTable::read_import_name(&src, &by_name, 0xA8, 0xA0, 1),
        Ok(Some(DllImport::new(name(b"KERNEL"), name(b"GetVersion"), 0, 0xB0)))
    );
    let by_ordinal = ImportOrdinal { imp_mod_index: 1, imp_ordinal: 42 };
    assert_eq!(
        NeSegmentDllImportsTable::read_import_ordinal(&src, &by_ordinal, 0xA8, 0xA0, 1),
        Ok(Some(DllImport::new(name(b"KERNEL"), PascalString::empty(), 42, 0xB0)))
    );
    // A name offset that points at an empty string.
    let empty_name = ImportName { imp_mod_index: 1, imp_offset: 0 };
    assert_eq!(
        NeSegmentDllImportsTable::read_import_name(&src, &empty_name, 0xA8, 0xA0, 1),
        Ok(Some(DllImport::new(name(b"KERNEL"), PascalString::empty(), 0, 0xA8)))
    );
    // A module reference of 0 names no module: the import is skipped.
    let mut unnamed = image.clone();
    put16(&mut unnamed, 0xA0, 0);
    let src = ByteSource::new(&unnamed);
    assert_eq!(
        NeSegmentDllImportsTable::read_import_name(&src, &by_name, 0xA8, 0xA0, 1),
        Ok(None)
    );
    assert_eq!(
        NeSegmentDllImportsTable::read_import_ordinal(&src, &by_ordinal, 0xA8, 0xA0, 1),
        Ok(None)
    );
}

#[test]
fn imports_of_unknown_modules_are_rejected() {
    let image = ne_image(&[INTERNAL]);
    let src = ByteSource::new(&image);
    for index in [0u16, 2, 0xFFFF] {
        let by_name = ImportName { imp_mod_index: index, imp_offset: 8 };
        assert_eq!(
            NeSegmentDllImportsTable::read_import_name(&src, &by_name, 0xA8, 0xA0, 1),
            Err(DecodeError { kind: ErrorKind::InvalidModuleOrdinal, offset: 0xA0 })
        );
        let by_ordinal = ImportOrdinal { imp_mod_index: index, imp_ordinal: 1 };
        assert_eq!(
            NeSegmentDllImportsTable::read_import_ordinal(&src, &by_ordinal, 0xA8, 0xA0, 1),
            Err(DecodeError { kind: ErrorKind::InvalidModuleOrdinal, offset: 0xA0 })
        );
    }
    let by_name = ImportName { imp_mod_index: 1, imp_offset: 8 };
    assert_eq!(
        NeSegmentDllImportsTable::read_import_name(&src, &by_name, 0xA8, 0xA0, 0),
        Err(DecodeError { kind: ErrorKind::InvalidModuleOrdinal, offset: 0xA0 })
    );
}

#[test]
fn imports_outside_the_image_are_truncated() {
    let image = ne_image(&[INTERNAL]);
    let src = ByteSource::new(&image);
    let by_name = ImportName { imp_mod_index: 1, imp_offset: 8 };
    assert_eq!(
        NeSegmentDllImportsTable::read_import_name(&src, &by_name, 0xA8, 5000, 1),
        Err(DecodeError { kind: ErrorKind::Truncated, offset: 5000 })
    );
    assert_eq!(
        NeSegmentDllImportsTable::read_import_name(&src, &by_name, 5000, 0xA0, 1),
        Err(DecodeError { kind: ErrorKind::Truncated, offset: 5000 })
    );
    assert_eq!(
        NeSegmentDllImportsTable::read_import_name(&src, &by_name, 1020, 0xA0, 1),
        Err(DecodeError { kind: ErrorKind::Truncated, offset: 1028 })
    );
    assert_eq!(
        NeSegmentDllImportsTable::read_import_name(&src, &by_name, 0xA8, 1023, 1),
        Err(DecodeError { kind: ErrorKind::Truncated, offset: 1023 })
    );
    let far = ImportName { imp_mod_index: 3, imp_offset: 8 };
    assert_eq!(
        NeSegmentDllImportsTable::read_import_name(&src, &far, 0xA8, 1020, 3),
        Err(DecodeError { kind: ErrorKind::Truncated, offset: 1024 })
    );
}

#[test]
fn import_table_follows_the_relocations() {
    let image = ne_image(&[INTERNAL]);
    let src = ByteSource::new(&image);
    let relocs = RelocationTable {
        rel_entries: vec![
            RelocationEntry::decode(&BY_NAME, 0),
            RelocationEntry::decode(&INTERNAL, 0),
            RelocationEntry::decode(&OS_FIXUP, 0),
            RelocationEntry::decode(&BY_ORDINAL, 0),
        ],
    };
    let table = NeSegmentDllImportsTable::read(&src, &relocs, 0xA8, 0xA0, 1, 7).unwrap();
    assert_eq!(table.seg_number, 7);
    assert_eq!(
        table.imp_list,
        vec![
            DllImport::new(name(b"KERNEL"), name(b"GetVersion"), 0, 0xB0),
            DllImport::new(name(b"KERNEL"), PascalString::empty(), 3, 0xB0),
        ]
    );
    let none = NeSegmentDllImportsTable::read(&src, &RelocationTable::empty(), 0, 0, 0, 1);
    assert_eq!(none.unwrap().imp_list, vec![]);
}

#[test]
fn get_decodes_the_bytes_of_a_file() {
    let image = ne_image(&[INTERNAL, BY_NAME]);
    let layout = NewExecutableLayout::get(&image).unwrap();
    assert_eq!(Ok(layout), NewExecutableLayout::read(&ByteSource::new(&image)));
    assert_eq!(
        NewExecutableLayout::get(&image[..0x60]),
        Err(DecodeError { kind: ErrorKind::Truncated, offset: 0x40 })
    );
    let h = NewExecutableHeader::read(&mut ByteSource::new(&image), 0x40).unwrap();
    assert_eq!(h.e_flags, 0x800A);
    assert_eq!(h.windowing(), 0);
    let mut windowed = h;
    windowed.e_flags = 0x0300;
    assert_eq!(windowed.windowing(), 3);
    windowed.e_flags = 0xFEFF;
    assert_eq!(windowed.windowing(), 2);
    assert_eq!(EntryTable::empty().entries, vec![]);
}
