//! The segment table of a New Executable: one 8-byte record for every code
//! and data segment, the relocations that follow a segment's data, and the
//! imports those relocations name.
use vstd::prelude::*;
use vstd::arithmetic::power2::{lemma2_to64, lemma_pow2_strictly_increases, pow2};
use vstd::bits::lemma_u64_shl_is_mul;
use vstd::slice::slice_to_vec;
use crate::error::{DecodeError, ErrorKind};
use crate::exe286::header::{align_shift_of, NE_DEFAULT_ALIGN, NE_MAX_ALIGN};
use crate::exe286::segrelocs::{
    ne_relocs_at, ImportName, ImportOrdinal, RelocationEntry, RelocationTable, RelocationType,
};
use crate::source::{
    in_bounds, joined, le16_at, lemma_joined_twice, sought, truncated_at, u16_le, ByteSource,
};
use crate::types::{len_string_at, PascalString};

verus! {

/// The low three flag bits of a segment: 1 marks code.
pub const SEG_HASMASK: u16 = 0x0007;

/// The segment can be moved in memory.
pub const SEG_MOVABLE: u16 = 0x0010;

/// The segment is loaded before the module runs; data with it is read-only.
pub const SEG_PRELOAD: u16 = 0x0040;

/// A relocation table follows the data of the segment.
pub const SEG_RELOCS: u16 = 0x0100;

/// The segment can be discarded.
pub const SEG_DISCARD: u16 = 0xF000;

/// The size of a segment table record in bytes.
pub const NE_SEGMENT_SIZE: usize = 8;

/// A record of the segment table.
#[derive(Debug, Clone, Copy, PartialEq, Eq, Structural)]
pub struct NeSegmentHeader {
    /// Where the data starts, in sectors; 0 for a segment without data
    pub sector_base: u16,
    /// The length of the data in bytes; 0 stands for 64 KiB
    pub sector_length: u16,
    pub flags: u16,
    /// The memory to allocate in bytes; 0 stands for 64 KiB
    pub min_alloc: u16,
}

/// What a segment may be used for.
#[derive(Debug, Clone, Copy, PartialEq, Eq, Structural)]
pub enum NeSegmentRights {
    /// Readable and executable
    CODE,
    /// Readable and writable
    DATA,
    /// Readable
    RDATA,
    /// Without data in the file
    BSS,
}

/// A segment: its table record, the sector shift it was read with, its
/// data once `read_data` has fetched it, and its relocations.
#[derive(Debug, Clone, PartialEq, Eq)]
pub struct NeSegment {
    pub header: NeSegmentHeader,
    pub shift_count: u16,
    pub data: Option<Vec<u8>>,
    pub relocs: RelocationTable,
}

/// What an `NeSegment` holds.
pub struct NeSegmentModel {
    pub header: NeSegmentHeader,
    pub shift_count: u16,
    pub data: Option<Seq<u8>>,
    pub relocs: Seq<RelocationEntry>,
}

impl DeepView for NeSegment {
    type V = NeSegmentModel;

    open spec fn deep_view(&self) -> NeSegmentModel {
        NeSegmentModel {
            header: self.header,
            shift_count: self.shift_count,
            data: match self.data {
                Some(bytes) => Some(bytes@),
                None => None,
            },
            relocs: self.relocs.rel_entries@,
        }
    }
}

/// The segment table record whose 8 bytes start at `pos`.
pub open spec fn segment_header_at(image: Seq<u8>, pos: int) -> NeSegmentHeader {
    NeSegmentHeader {
        sector_base: le16_at(image, pos),
        sector_length: le16_at(image, pos + 2),
        flags: le16_at(image, pos + 4),
        min_alloc: le16_at(image, pos + 6),
    }
}

/// The rights of a segment: `BSS` without data in the file; else `CODE`
/// where the low three flag bits are 1; else `RDATA` with the preload bit
/// and `DATA` without it.
pub open spec fn segment_rights_of(h: NeSegmentHeader) -> NeSegmentRights {
    if h.sector_base == 0 {
        NeSegmentRights::BSS
    } else if h.flags & SEG_HASMASK == 1 {
        NeSegmentRights::CODE
    } else if h.flags & SEG_PRELOAD != 0 {
        NeSegmentRights::RDATA
    } else {
        NeSegmentRights::DATA
    }
}

/// The file offset of the data of a segment: its sector base, shifted left
/// by the sector shift.
pub open spec fn segment_data_offset(h: NeSegmentHeader, shift: int) -> int {
    h.sector_base * pow2(shift as nat)
}

/// The length of the data of a segment in bytes.
pub open spec fn segment_data_length(h: NeSegmentHeader) -> int {
    if h.sector_length == 0 {
        0x10000
    } else {
        h.sector_length as int
    }
}

/// The relocations of the segment `h`, read with sector shift `shift`.
///
/// A segment without the relocation flag has none. Else its table starts
/// right behind its data; where the image ends before the count of that
/// table, the segment has none either.
pub open spec fn segment_relocs_of(image: Seq<u8>, h: NeSegmentHeader, shift: int) -> Result<
    Seq<RelocationEntry>,
    DecodeError,
> {
    let pos = segment_data_offset(h, shift) + segment_data_length(h);
    if h.flags & SEG_RELOCS == 0 || pos + 2 > image.len() {
        Ok(Seq::empty())
    } else {
        match ne_relocs_at(image, pos) {
            Ok((relocs, _)) => Ok(relocs),
            Err(e) => Err(e),
        }
    }
}

/// The segment whose table record starts at `pos`, read with the stored
/// sector shift `alignment`.
///
/// A shift above 16 is `ImplausibleCount` at `pos`; a record that the image
/// does not hold is `Truncated` at `pos`.
pub open spec fn ne_segment_at(image: Seq<u8>, pos: int, alignment: u16) -> Result<
    NeSegmentModel,
    DecodeError,
> {
    if alignment > NE_MAX_ALIGN {
        Err(DecodeError { kind: ErrorKind::ImplausibleCount, offset: pos as u64 })
    } else if !in_bounds(image, pos, 8) {
        Err(truncated_at(pos))
    } else {
        match segment_relocs_of(
            image,
            segment_header_at(image, pos),
            align_shift_of(alignment) as int,
        ) {
            Err(e) => Err(e),
            Ok(relocs) => Ok(
                NeSegmentModel {
                    header: segment_header_at(image, pos),
                    shift_count: align_shift_of(alignment),
                    data: None,
                    relocs,
                },
            ),
        }
    }
}

/// With a sector shift of at most 16, the data of a segment starts below
/// 4 GiB.
pub proof fn lemma_data_offset_bound(h: NeSegmentHeader, shift: int)
    requires
        0 <= shift <= 16,
    ensures
        0 <= segment_data_offset(h, shift) <= 0xFFFF_0000,
{
    lemma2_to64();
    if shift < 16 {
        lemma_pow2_strictly_increases(shift as nat, 16);
    }
    let p = pow2(shift as nat) as int;
    let b = h.sector_base as int;
    assert(0 <= b * p <= 0xFFFF_0000) by (nonlinear_arith)
        requires
            0 <= b <= 0xFFFF,
            0 <= p <= 0x10000,
    ;
}

impl NeSegmentHeader {
    /// Reads a segment table record at the cursor. On failure the source is
    /// left as it was.
    pub fn read(src: &mut ByteSource) -> (r: Result<Self, DecodeError>)
        ensures
            final(src).image() == old(src).image(),
            match r {
                Ok(h) => in_bounds(old(src).image(), old(src).cursor(), 8) && h
                    == segment_header_at(old(src).image(), old(src).cursor())
                    && final(src).cursor() == old(src).cursor() + 8,
                Err(e) => !in_bounds(old(src).image(), old(src).cursor(), 8) && e == truncated_at(
                    old(src).cursor(),
                ) && *final(src) == *old(src),
            },
    {
        let b = src.read_exact(NE_SEGMENT_SIZE)?;
        Ok(
            NeSegmentHeader {
                sector_base: u16_le(b, 0),
                sector_length: u16_le(b, 2),
                flags: u16_le(b, 4),
                min_alloc: u16_le(b, 6),
            },
        )
    }

    /// What the segment may be used for.
    pub fn get_segment_rights(&self) -> (rights: NeSegmentRights)
        ensures
            rights == segment_rights_of(*self),
    {
        if self.sector_base == 0 {
            NeSegmentRights::BSS
        } else if self.flags & SEG_HASMASK == 1 {
            NeSegmentRights::CODE
        } else if self.flags & SEG_PRELOAD != 0 {
            NeSegmentRights::RDATA
        } else {
            NeSegmentRights::DATA
        }
    }

    /// The file offset of the segment's data for the sector shift
    /// `alignment`.
    pub fn data_offset(&self, alignment: u64) -> (offset: u64)
        requires
            alignment <= 16,
        ensures
            offset == segment_data_offset(*self, alignment as int),
    {
        proof {
            lemma_data_offset_bound(*self, alignment as int);
            lemma_u64_shl_is_mul(self.sector_base as u64, alignment);
        }
        (self.sector_base as u64) << alignment
    }

    /// The length of the segment's data in bytes: 64 KiB where the record
    /// stores 0.
    pub fn data_length(&self) -> (length: u64)
        ensures
            length == segment_data_length(*self),
    {
        if self.sector_length == 0 {
            0x10000
        } else {
            self.sector_length as u64
        }
    }

    /// The memory to allocate for the segment in bytes: 64 KiB where the
    /// record stores 0.
    pub fn min_alloc(&self) -> (size: u64)
        ensures
            size == if self.min_alloc == 0 {
                0x10000
            } else {
                self.min_alloc as int
            },
    {
        if self.min_alloc == 0 {
            0x10000
        } else {
            self.min_alloc as u64
        }
    }

    /// Whether the segment has no relocation table.
    pub fn relocations_stripped(&self) -> (stripped: bool)
        ensures
            stripped == (self.flags & SEG_RELOCS == 0),
    {
        (self.flags & SEG_RELOCS) == 0
    }
}

impl NeSegment {
    /// Reads the segment whose table record stands at the cursor, with the
    /// stored sector shift `alignment`, and its relocations. On success the
    /// cursor stands behind the table record; on failure the source is left
    /// as it was.
    ///
    /// A segment that comes back with relocations has all its data inside
    /// the image.
    pub fn read(src: &mut ByteSource, alignment: u16) -> (r: Result<Self, DecodeError>)
        ensures
            final(src).image() == old(src).image(),
            match r {
                Ok(segment) => ne_segment_at(old(src).image(), old(src).cursor(), alignment)
                    == Ok::<NeSegmentModel, DecodeError>(segment.deep_view())
                    && final(src).cursor() == old(src).cursor() + 8,
                Err(e) => ne_segment_at(old(src).image(), old(src).cursor(), alignment) == Err::<
                    NeSegmentModel,
                    DecodeError,
                >(e) && *final(src) == *old(src),
            },
            r matches Ok(segment) ==> segment.relocs.rel_entries@.len() == 0
                || segment_data_offset(segment.header, segment.shift_count as int)
                + segment_data_length(segment.header) <= old(src).image().len(),
    {
        let mut cur = *src;
        let start: u64 = cur.position();
        if alignment > NE_MAX_ALIGN {
            return Err(DecodeError { kind: ErrorKind::ImplausibleCount, offset: start });
        }
        let shift: u16 = if alignment == 0 {
            NE_DEFAULT_ALIGN
        } else {
            alignment
        };
        let header = NeSegmentHeader::read(&mut cur)?;
        let relocs = if !header.relocations_stripped() {
            Self::read_relocs(&cur, shift as u64, &header)?
        } else {
            RelocationTable::empty()
        };
        *src = cur;
        Ok(NeSegment { header, shift_count: shift, data: None, relocs })
    }

    /// Reads the relocation table that follows the data of the segment
    /// `header`; none where the image ends before the table's count.
    fn read_relocs(src: &ByteSource, alignment: u64, header: &NeSegmentHeader) -> (r: Result<
        RelocationTable,
        DecodeError,
    >)
        requires
            alignment <= 16,
            header.flags & SEG_RELOCS != 0,
        ensures
            match r {
                Ok(table) => segment_relocs_of(src.image(), *header, alignment as int) == Ok::<
                    Seq<RelocationEntry>,
                    DecodeError,
                >(table.rel_entries@),
                Err(e) => segment_relocs_of(src.image(), *header, alignment as int) == Err::<
                    Seq<RelocationEntry>,
                    DecodeError,
                >(e),
            },
    {
        proof {
            lemma_data_offset_bound(*header, alignment as int);
        }
        let position: u64 = header.data_offset(alignment) + header.data_length();
        if position + 2 > src.length() {
            return Ok(RelocationTable::empty());
        }
        let mut cur = *src;
        cur.seek_absolute(position)?;
        RelocationTable::read(&mut cur)
    }

    /// Fetches the data of the segment from the image. A segment without
    /// data in the file is left as it is. On success with data the cursor
    /// stands behind the data; else the source is left as it was.
    ///
    /// Data that does not lie inside the image is `Truncated` at the offset
    /// where the data starts, and leaves the segment as it was.
    pub fn read_data(&mut self, src: &mut ByteSource) -> (r: Result<(), DecodeError>)
        requires
            old(self).shift_count <= 16,
        ensures
            final(src).image() == old(src).image(),
            old(self).header.sector_base == 0 ==> r is Ok,
            old(self).header.sector_base == 0 ==> final(self).deep_view() == old(self).deep_view(),
            old(self).header.sector_base == 0 ==> *final(src) == *old(src),
            old(self).header.sector_base != 0 ==> ({
                let offset = segment_data_offset(old(self).header, old(self).shift_count as int);
                let length = segment_data_length(old(self).header);
                match r {
                    Ok(()) => {
                        &&& in_bounds(old(src).image(), offset, length)
                        &&& final(self).deep_view() == (NeSegmentModel {
                            data: Some(old(src).image().subrange(offset, offset + length)),
                            ..old(self).deep_view()
                        })
                        &&& final(src).cursor() == offset + length
                    },
                    Err(e) => {
                        &&& !in_bounds(old(src).image(), offset, length)
                        &&& e == truncated_at(offset)
                        &&& final(self).deep_view() == old(self).deep_view()
                        &&& *final(src) == *old(src)
                    },
                }
            }),
    {
        if self.header.sector_base == 0 {
            return Ok(());
        }
        proof {
            lemma_data_offset_bound(self.header, self.shift_count as int);
        }
        let data_offset: u64 = self.header.data_offset(self.shift_count as u64);
        let data_length: u64 = self.header.data_length();
        let mut cur = *src;
        cur.seek_absolute(data_offset)?;
        let bytes = cur.read_exact(data_length as usize)?;
        self.data = Some(slice_to_vec(bytes));
        *src = cur;
        Ok(())
    }
}

/// An import of a segment: the module it comes from and the procedure,
/// which is known by name or by ordinal.
#[derive(Debug, Clone, PartialEq, Eq)]
pub struct DllImport {
    /// The name of the module, as the imported names table has it
    pub dll_name: PascalString,
    /// The name of the procedure; empty for an import by ordinal
    pub name: PascalString,
    /// The ordinal of the procedure; 0 for an import by name
    pub ordinal: u16,
    /// For an import by name, the offset of the procedure name in the file;
    /// for an import by ordinal, the offset behind the module name
    pub file_pointer: u64,
}

/// What a `DllImport` holds.
pub struct DllImportModel {
    pub dll_name: Seq<u8>,
    pub name: Seq<u8>,
    pub ordinal: u16,
    pub file_pointer: u64,
}

impl DeepView for DllImport {
    type V = DllImportModel;

    open spec fn deep_view(&self) -> DllImportModel {
        DllImportModel {
            dll_name: self.dll_name.deep_view(),
            name: self.name.deep_view(),
            ordinal: self.ordinal,
            file_pointer: self.file_pointer,
        }
    }
}

impl DllImport {
    /// An import of `name` or `ordinal` from the module `dll_name`.
    pub fn new(dll_name: PascalString, name: PascalString, ordinal: u16, file_pointer: u64) -> (d:
        Self)
        ensures
            d.deep_view() == (DllImportModel {
                dll_name: dll_name.deep_view(),
                name: name.deep_view(),
                ordinal,
                file_pointer,
            }),
    {
        DllImport { dll_name, name, ordinal, file_pointer }
    }
}

/// The imports that the relocations of one segment name.
#[derive(Debug, Clone, PartialEq, Eq)]
pub struct NeSegmentDllImportsTable {
    /// The number of the segment, from 1
    pub seg_number: i32,
    pub imp_list: Vec<DllImport>,
}

/// The error of an import that names no module of the module reference
/// table, which starts at `mod_tab`.
pub open spec fn invalid_module_at(mod_tab: int) -> DecodeError {
    DecodeError { kind: ErrorKind::InvalidModuleOrdinal, offset: mod_tab as u64 }
}

/// The offset, in the imported names table, of the name of the module with
/// ordinal `imp_mod`; `None` where the module reference table stores 0.
///
/// An ordinal outside `1..=cmod` is `InvalidModuleOrdinal` at `mod_tab`; a
/// reference that the image does not hold is `Truncated`.
pub open spec fn ne_module_offset_of(image: Seq<u8>, mod_tab: int, cmod: int, imp_mod: u16)
    -> Result<Option<u16>, DecodeError> {
    let at = mod_tab + 2 * (imp_mod - 1);
    if imp_mod == 0 || imp_mod > cmod {
        Err(invalid_module_at(mod_tab))
    } else if mod_tab > image.len() {
        Err(truncated_at(mod_tab))
    } else if !in_bounds(image, at, 2) {
        Err(truncated_at(at))
    } else if le16_at(image, at) == 0 {
        Ok(None)
    } else {
        Ok(Some(le16_at(image, at)))
    }
}

/// The length-prefixed string at offset `offset` of the imported names
/// table, which starts at `imp_tab`, and the offset behind it.
pub open spec fn ne_imported_name_of(image: Seq<u8>, imp_tab: int, offset: u16) -> Result<
    (Seq<u8>, int),
    DecodeError,
> {
    sought(image, imp_tab, len_string_at(image, imp_tab + offset))
}

/// The import that the by-name relocation `target` stands for; `None` where
/// the module reference is 0.
pub open spec fn ne_import_by_name(
    image: Seq<u8>,
    target: ImportName,
    imp_tab: int,
    mod_tab: int,
    cmod: int,
) -> Result<Option<DllImportModel>, DecodeError> {
    match ne_module_offset_of(image, mod_tab, cmod, target.imp_mod_index) {
        Err(e) => Err(e),
        Ok(None) => Ok(None),
        Ok(Some(mod_offset)) => match ne_imported_name_of(image, imp_tab, mod_offset) {
            Err(e) => Err(e),
            Ok((dll_name, _)) => match ne_imported_name_of(image, imp_tab, target.imp_offset) {
                Err(e) => Err(e),
                Ok((name, _)) => Ok(
                    Some(
                        DllImportModel {
                            dll_name,
                            name,
                            ordinal: 0,
                            file_pointer: (imp_tab + target.imp_offset) as u64,
                        },
                    ),
                ),
            },
        },
    }
}

/// The import that the by-ordinal relocation `target` stands for; `None`
/// where the module reference is 0.
pub open spec fn ne_import_by_ordinal(
    image: Seq<u8>,
    target: ImportOrdinal,
    imp_tab: int,
    mod_tab: int,
    cmod: int,
) -> Result<Option<DllImportModel>, DecodeError> {
    match ne_module_offset_of(image, mod_tab, cmod, target.imp_mod_index) {
        Err(e) => Err(e),
        Ok(None) => Ok(None),
        Ok(Some(mod_offset)) => match ne_imported_name_of(image, imp_tab, mod_offset) {
            Err(e) => Err(e),
            Ok((dll_name, end)) => Ok(
                Some(
                    DllImportModel {
                        dll_name,
                        name: Seq::empty(),
                        ordinal: target.imp_ordinal,
                        file_pointer: end as u64,
                    },
                ),
            ),
        },
    }
}

/// The import, if any, that a relocation with target `target` stands for.
pub open spec fn ne_import_of(
    image: Seq<u8>,
    target: RelocationType,
    imp_tab: int,
    mod_tab: int,
    cmod: int,
) -> Result<Option<DllImportModel>, DecodeError> {
    match target {
        RelocationType::ImportName(by_name) => ne_import_by_name(
            image,
            by_name,
            imp_tab,
            mod_tab,
            cmod,
        ),
        RelocationType::ImportOrdinal(by_ordinal) => ne_import_by_ordinal(
            image,
            by_ordinal,
            imp_tab,
            mod_tab,
            cmod,
        ),
        _ => Ok(None),
    }
}

/// No record, or the one record `found`.
pub open spec fn found_one<T>(found: Option<T>) -> Seq<T> {
    match found {
        Some(record) => seq![record],
        None => Seq::empty(),
    }
}

/// The imports of the relocations `relocs`, in their order; the failure of
/// the first relocation whose import cannot be resolved.
pub open spec fn ne_imports_of(
    image: Seq<u8>,
    relocs: Seq<RelocationEntry>,
    imp_tab: int,
    mod_tab: int,
    cmod: int,
) -> Result<Seq<DllImportModel>, DecodeError>
    decreases relocs.len(),
{
    if relocs.len() == 0 {
        Ok(Seq::empty())
    } else {
        match ne_import_of(image, relocs[0].rel_type, imp_tab, mod_tab, cmod) {
            Err(e) => Err(e),
            Ok(found) => joined(
                found_one(found),
                ne_imports_of(
                    image,
                    relocs.subrange(1, relocs.len() as int),
                    imp_tab,
                    mod_tab,
                    cmod,
                ),
            ),
        }
    }
}

impl NeSegmentDllImportsTable {
    /// Resolves the imports that `relocs`, the relocations of segment
    /// `seg_number`, name. `imp_tab` and `mod_tab` are the file offsets of
    /// the imported names table and of the module reference table, which
    /// has `cmod` records. The source is not moved.
    pub fn read(
        src: &ByteSource,
        relocs: &RelocationTable,
        imp_tab: u64,
        mod_tab: u64,
        cmod: u16,
        seg_number: i32,
    ) -> (r: Result<Self, DecodeError>)
        ensures
            match r {
                Ok(table) => table.seg_number == seg_number && ne_imports_of(
                    src.image(),
                    relocs.rel_entries@,
                    imp_tab as int,
                    mod_tab as int,
                    cmod as int,
                ) == Ok::<Seq<DllImportModel>, DecodeError>(table.imp_list.deep_view()),
                Err(e) => ne_imports_of(
                    src.image(),
                    relocs.rel_entries@,
                    imp_tab as int,
                    mod_tab as int,
                    cmod as int,
                ) == Err::<Seq<DllImportModel>, DecodeError>(e),
            },
    {
        let mut imp_list: Vec<DllImport> = Vec::new();
        let n: usize = relocs.rel_entries.len();
        let ghost all = relocs.rel_entries@;
        let mut i: usize = 0;
        assert(all.subrange(0, n as int) =~= all);
        while i < n
            invariant
                i <= n,
                n == all.len(),
                all == relocs.rel_entries@,
                ne_imports_of(src.image(), all, imp_tab as int, mod_tab as int, cmod as int)
                    == joined(
                    imp_list.deep_view(),
                    ne_imports_of(
                        src.image(),
                        all.subrange(i as int, n as int),
                        imp_tab as int,
                        mod_tab as int,
                        cmod as int,
                    ),
                ),
            decreases n - i,
        {
            let ghost before = imp_list.deep_view();
            let ghost rest = all.subrange(i as int, n as int);
            assert(rest.subrange(1, rest.len() as int) =~= all.subrange(i + 1, n as int));
            let found = match relocs.rel_entries[i].rel_type {
                RelocationType::ImportName(import_name) => Self::read_import_name(
                    src,
                    &import_name,
                    imp_tab,
                    mod_tab,
                    cmod,
                )?,
                RelocationType::ImportOrdinal(import_ord) => Self::read_import_ordinal(
                    src,
                    &import_ord,
                    imp_tab,
                    mod_tab,
                    cmod,
                )?,
                _ => None,
            };
            let ghost found_model = found_one(found.deep_view());
            if let Some(import) = found {
                imp_list.push(import);
            }
            proof {
                assert(imp_list.deep_view() =~= before + found_model);
                lemma_joined_twice(
                    before,
                    found_model,
                    ne_imports_of(
                        src.image(),
                        all.subrange(i + 1, n as int),
                        imp_tab as int,
                        mod_tab as int,
                        cmod as int,
                    ),
                );
            }
            i = i + 1;
        }
        Ok(NeSegmentDllImportsTable { seg_number, imp_list })
    }

    /// Resolves an import by name. The source is not moved.
    pub fn read_import_name(
        src: &ByteSource,
        import_name: &ImportName,
        imp_tab: u64,
        mod_tab: u64,
        cmod: u16,
    ) -> (r: Result<Option<DllImport>, DecodeError>)
        ensures
            match r {
                Ok(found) => ne_import_by_name(
                    src.image(),
                    *import_name,
                    imp_tab as int,
                    mod_tab as int,
                    cmod as int,
                ) == Ok::<Option<DllImportModel>, DecodeError>(found.deep_view()),
                Err(e) => ne_import_by_name(
                    src.image(),
                    *import_name,
                    imp_tab as int,
                    mod_tab as int,
                    cmod as int,
                ) == Err::<Option<DllImportModel>, DecodeError>(e),
            },
    {
        let mod_offset = match Self::read_module_offset(
            src,
            mod_tab,
            cmod,
            import_name.imp_mod_index,
        )? {
            Some(offset) => offset,
            None => return Ok(None),
        };
        let (dll_name, _) = Self::read_imported_name(src, imp_tab, mod_offset)?;
        let (proc_name, _) = Self::read_imported_name(src, imp_tab, import_name.imp_offset)?;
        Ok(Some(DllImport::new(dll_name, proc_name, 0, imp_tab + import_name.imp_offset as u64)))
    }

    /// Resolves an import by ordinal. The source is not moved.
    pub fn read_import_ordinal(
        src: &ByteSource,
        import_ord: &ImportOrdinal,
        imp_tab: u64,
        mod_tab: u64,
        cmod: u16,
    ) -> (r: Result<Option<DllImport>, DecodeError>)
        ensures
            match r {
                Ok(found) => ne_import_by_ordinal(
                    src.image(),
                    *import_ord,
                    imp_tab as int,
                    mod_tab as int,
                    cmod as int,
                ) == Ok::<Option<DllImportModel>, DecodeError>(found.deep_view()),
                Err(e) => ne_import_by_ordinal(
                    src.image(),
                    *import_ord,
                    imp_tab as int,
                    mod_tab as int,
                    cmod as int,
                ) == Err::<Option<DllImportModel>, DecodeError>(e),
            },
    {
        let mod_offset = match Self::read_module_offset(
            src,
            mod_tab,
            cmod,
            import_ord.imp_mod_index,
        )? {
            Some(offset) => offset,
            None => return Ok(None),
        };
        let (dll_name, end) = Self::read_imported_name(src, imp_tab, mod_offset)?;
        Ok(Some(DllImport::new(dll_name, PascalString::empty(), import_ord.imp_ordinal, end)))
    }

    /// Looks up the module with ordinal `imp_mod` in the module reference
    /// table.
    fn read_module_offset(src: &ByteSource, mod_tab: u64, cmod: u16, imp_mod: u16) -> (r: Result<
        Option<u16>,
        DecodeError,
    >)
        ensures
            r == ne_module_offset_of(src.image(), mod_tab as int, cmod as int, imp_mod),
    {
        if imp_mod == 0 || imp_mod > cmod {
            return Err(DecodeError { kind: ErrorKind::InvalidModuleOrdinal, offset: mod_tab });
        }
        if mod_tab > src.length() {
            return Err(DecodeError { kind: ErrorKind::Truncated, offset: mod_tab });
        }
        let mut cur = *src;
        cur.seek_absolute(mod_tab + 2 * ((imp_mod - 1) as u64))?;
        let mod_offset: u16 = cur.read_u16()?;
        Ok(
            if mod_offset == 0 {
                None
            } else {
                Some(mod_offset)
            },
        )
    }

    /// Reads the string at offset `offset` of the imported names table; with
    /// it comes the file offset behind the string.
    fn read_imported_name(src: &ByteSource, imp_tab: u64, offset: u16) -> (r: Result<
        (PascalString, u64),
        DecodeError,
    >)
        ensures
            match r {
                Ok((name, end)) => ne_imported_name_of(src.image(), imp_tab as int, offset) == Ok::<
                    (Seq<u8>, int),
                    DecodeError,
                >((name.deep_view(), end as int)) && imp_tab + offset < end,
                Err(e) => ne_imported_name_of(src.image(), imp_tab as int, offset) == Err::<
                    (Seq<u8>, int),
                    DecodeError,
                >(e),
            },
    {
        if imp_tab > src.length() {
            return Err(DecodeError { kind: ErrorKind::Truncated, offset: imp_tab });
        }
        let mut cur = *src;
        cur.seek_absolute(imp_tab + offset as u64)?;
        let name = PascalString::read(&mut cur)?;
        Ok((name, cur.position()))
    }
}

} // verus!
