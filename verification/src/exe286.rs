//! The segmented New Executable of Windows 1.x-3.x and OS/2 1.x: its header
//! and the tables the header points to.
//!
//! Every pointer of the header but that of the non-resident name table
//! counts from the start of the header. A pointer of 0 says that the module
//! has no such table.
use vstd::prelude::*;
use crate::error::DecodeError;
use crate::exe::{mz_header_of, MzHeader};
use crate::exe286::enttab::{ne_entry_table_of, Entry, EntryTable};
use crate::exe286::header::{ne_header_of, NewExecutableHeader};
use crate::exe286::modtab::{module_refs_of, ModuleReferencesTable};
use crate::exe286::nrestab::NonResidentNameTable;
use crate::exe286::resntab::{name_table_of, NameModel, ResidentNameTable};
use crate::exe286::segtab::{
    ne_imports_of, ne_segment_at, DllImportModel, NeSegment, NeSegmentDllImportsTable,
    NeSegmentModel,
};
use crate::source::{joined, lemma_joined_twice, located, ByteSource, MAX_IMAGE_LEN};

pub mod enttab;
pub mod header;
pub mod modtab;
pub mod nrestab;
pub mod resntab;
pub mod segrelocs;
pub mod segtab;

verus! {

/// A New Executable as decoded: both headers and every table.
#[derive(Debug, Clone, PartialEq, Eq)]
pub struct NewExecutableLayout {
    pub dos_header: MzHeader,
    pub new_header: NewExecutableHeader,
    pub ent_tab: EntryTable,
    pub seg_tab: Vec<NeSegment>,
    pub nres_tab: NonResidentNameTable,
    pub resn_tab: ResidentNameTable,
    pub mod_tab: ModuleReferencesTable,
    pub imp_tab: Vec<NeSegmentDllImportsTable>,
}

/// What an `NeSegmentDllImportsTable` holds.
pub struct NeImportsModel {
    pub seg_number: i32,
    pub imp_list: Seq<DllImportModel>,
}

impl DeepView for NeSegmentDllImportsTable {
    type V = NeImportsModel;

    open spec fn deep_view(&self) -> NeImportsModel {
        NeImportsModel { seg_number: self.seg_number, imp_list: self.imp_list.deep_view() }
    }
}

/// What a `NewExecutableLayout` holds.
pub struct NeLayoutModel {
    pub dos_header: MzHeader,
    pub new_header: NewExecutableHeader,
    pub ent_tab: Seq<Entry>,
    pub seg_tab: Seq<NeSegmentModel>,
    pub nres_tab: Seq<NameModel>,
    pub resn_tab: Seq<NameModel>,
    pub mod_tab: Seq<u16>,
    pub imp_tab: Seq<NeImportsModel>,
}

impl DeepView for NewExecutableLayout {
    type V = NeLayoutModel;

    open spec fn deep_view(&self) -> NeLayoutModel {
        NeLayoutModel {
            dos_header: self.dos_header,
            new_header: self.new_header,
            ent_tab: self.ent_tab.entries@,
            seg_tab: self.seg_tab.deep_view(),
            nres_tab: self.nres_tab.deep_view(),
            resn_tab: self.resn_tab.deep_view(),
            mod_tab: self.mod_tab.m_offsets@,
            imp_tab: self.imp_tab.deep_view(),
        }
    }
}

/// The `count` segments whose table records start at `pos`, read with the
/// stored sector shift `alignment`; the failure of the first that fails.
pub open spec fn ne_segments_at(image: Seq<u8>, pos: int, count: nat, alignment: u16) -> Result<
    Seq<NeSegmentModel>,
    DecodeError,
>
    decreases count,
{
    if count == 0 {
        Ok(Seq::empty())
    } else {
        match ne_segment_at(image, pos, alignment) {
            Err(e) => Err(e),
            Ok(segment) => joined(
                seq![segment],
                ne_segments_at(image, pos + 8, (count - 1) as nat, alignment),
            ),
        }
    }
}

/// The segments of the module with header `h` at `base`.
pub open spec fn ne_segment_table_of(image: Seq<u8>, base: int, h: NewExecutableHeader) -> Result<
    Seq<NeSegmentModel>,
    DecodeError,
> {
    match located(image, base, h.e_seg_tab as int) {
        Err(e) => Err(e),
        Ok(None) => Ok(Seq::empty()),
        Ok(Some(offset)) => ne_segments_at(image, offset, h.e_cseg as nat, h.e_align),
    }
}

/// The entry points of the module with header `h` at `base`.
pub open spec fn ne_entries_of(image: Seq<u8>, base: int, h: NewExecutableHeader) -> Result<
    Seq<Entry>,
    DecodeError,
> {
    match located(image, base, h.e_ent_tab as int) {
        Err(e) => Err(e),
        Ok(None) => Ok(Seq::empty()),
        Ok(Some(offset)) => match ne_entry_table_of(image, offset, h.e_cb_ent as int) {
            Err(e) => Err(e),
            Ok((entries, _)) => Ok(entries),
        },
    }
}

/// The records of the name table that lies `p` bytes behind `base`.
pub open spec fn names_of(image: Seq<u8>, base: int, p: int) -> Result<
    Seq<NameModel>,
    DecodeError,
> {
    match located(image, base, p) {
        Err(e) => Err(e),
        Ok(None) => Ok(Seq::empty()),
        Ok(Some(offset)) => match name_table_of(image, offset) {
            Err(e) => Err(e),
            Ok((names, _)) => Ok(names),
        },
    }
}

/// The module references of the module with header `h` at `base`.
pub open spec fn ne_module_refs_of(image: Seq<u8>, base: int, h: NewExecutableHeader) -> Result<
    Seq<u16>,
    DecodeError,
> {
    match located(image, base, h.e_mod_tab as int) {
        Err(e) => Err(e),
        Ok(None) => Ok(Seq::empty()),
        Ok(Some(offset)) => module_refs_of(image, offset, h.e_cmod as int),
    }
}

/// The imports of the segments `segments`, which are numbered from
/// `first`, one table for each segment; the failure of the first import
/// that cannot be resolved.
pub open spec fn ne_import_tables_of(
    image: Seq<u8>,
    base: int,
    h: NewExecutableHeader,
    segments: Seq<NeSegmentModel>,
    first: int,
) -> Result<Seq<NeImportsModel>, DecodeError>
    decreases segments.len(),
{
    if segments.len() == 0 {
        Ok(Seq::empty())
    } else {
        match ne_imports_of(
            image,
            segments[0].relocs,
            base + h.e_imp_tab,
            base + h.e_mod_tab,
            h.e_cmod as int,
        ) {
            Err(e) => Err(e),
            Ok(imp_list) => joined(
                seq![NeImportsModel { seg_number: first as i32, imp_list }],
                ne_import_tables_of(
                    image,
                    base,
                    h,
                    segments.subrange(1, segments.len() as int),
                    first + 1,
                ),
            ),
        }
    }
}

/// The outcome of decoding `image` as a New Executable: the DOS header,
/// the NE header it links to, the segments with their relocations, the
/// entry table, the resident and the non-resident names, the module
/// references, and the imports of each segment. The first failure in that
/// order is the outcome.
pub open spec fn ne_layout_of(image: Seq<u8>) -> Result<NeLayoutModel, DecodeError> {
    match mz_header_of(image) {
        Err(e) => Err(e),
        Ok(dos_header) => {
            let base = dos_header.e_lfanew as int;
            match ne_header_of(image, base) {
                Err(e) => Err(e),
                Ok(new_header) => match ne_segment_table_of(image, base, new_header) {
                    Err(e) => Err(e),
                    Ok(seg_tab) => match ne_entries_of(image, base, new_header) {
                        Err(e) => Err(e),
                        Ok(ent_tab) => match names_of(image, base, new_header.e_resn_tab as int) {
                            Err(e) => Err(e),
                            Ok(resn_tab) => match names_of(
                                image,
                                0,
                                new_header.e_nres_tab as int,
                            ) {
                                Err(e) => Err(e),
                                Ok(nres_tab) => match ne_module_refs_of(image, base, new_header) {
                                    Err(e) => Err(e),
                                    Ok(mod_tab) => match ne_import_tables_of(
                                        image,
                                        base,
                                        new_header,
                                        seg_tab,
                                        1,
                                    ) {
                                        Err(e) => Err(e),
                                        Ok(imp_tab) => Ok(
                                            NeLayoutModel {
                                                dos_header,
                                                new_header,
                                                ent_tab,
                                                seg_tab,
                                                nres_tab,
                                                resn_tab,
                                                mod_tab,
                                                imp_tab,
                                            },
                                        ),
                                    },
                                },
                            },
                        },
                    },
                },
            }
        },
    }
}

/// Two decodings of one image are equal.
pub proof fn lemma_ne_layout_deterministic(
    image: Seq<u8>,
    first: Result<NeLayoutModel, DecodeError>,
    second: Result<NeLayoutModel, DecodeError>,
)
    requires
        first == ne_layout_of(image),
        second == ne_layout_of(image),
    ensures
        first == second,
{
}

impl NewExecutableLayout {
    /// Decodes `image`, the bytes of a file, as a New Executable.
    pub fn get(image: &[u8]) -> (r: Result<Self, DecodeError>)
        requires
            image@.len() <= MAX_IMAGE_LEN,
        ensures
            match r {
                Ok(layout) => ne_layout_of(image@) == Ok::<NeLayoutModel, DecodeError>(
                    layout.deep_view(),
                ),
                Err(e) => ne_layout_of(image@) == Err::<NeLayoutModel, DecodeError>(e),
            },
    {
        let src = ByteSource::new(image);
        Self::read(&src)
    }

    /// Decodes the image of `src` as a New Executable. The source is not
    /// moved.
    pub fn read(src: &ByteSource) -> (r: Result<Self, DecodeError>)
        ensures
            match r {
                Ok(layout) => ne_layout_of(src.image()) == Ok::<NeLayoutModel, DecodeError>(
                    layout.deep_view(),
                ),
                Err(e) => ne_layout_of(src.image()) == Err::<NeLayoutModel, DecodeError>(e),
            },
    {
        let mut cur = *src;
        let dos_header = MzHeader::read(&mut cur)?;
        let base: u32 = dos_header.e_lfanew;
        let new_header = NewExecutableHeader::read(&mut cur, base)?;
        let seg_tab = Self::read_segments(src, base, &new_header)?;
        let ent_tab = match src.locate(base, new_header.e_ent_tab as u32)? {
            None => EntryTable::empty(),
            Some(offset) => EntryTable::read(&mut cur, offset, new_header.e_cb_ent)?,
        };
        let resn_tab = match src.locate(base, new_header.e_resn_tab as u32)? {
            None => ResidentNameTable::empty(),
            Some(offset) => ResidentNameTable::read(&mut cur, offset)?,
        };
        let nres_tab = match src.locate(0, new_header.e_nres_tab)? {
            None => NonResidentNameTable::empty(),
            Some(offset) => NonResidentNameTable::read(&mut cur, offset)?,
        };
        let mod_tab = match src.locate(base, new_header.e_mod_tab as u32)? {
            None => ModuleReferencesTable::empty(),
            Some(offset) => ModuleReferencesTable::read(&mut cur, offset, new_header.e_cmod)?,
        };
        let imp_tab = Self::read_imports(src, base, &new_header, &seg_tab)?;
        Ok(
            NewExecutableLayout {
                dos_header,
                new_header,
                ent_tab,
                seg_tab,
                nres_tab,
                resn_tab,
                mod_tab,
                imp_tab,
            },
        )
    }

    /// Decodes the segment table of the module with header `h` at `base`.
    fn read_segments(src: &ByteSource, base: u32, h: &NewExecutableHeader) -> (r: Result<
        Vec<NeSegment>,
        DecodeError,
    >)
        ensures
            match r {
                Ok(segments) => ne_segment_table_of(src.image(), base as int, *h) == Ok::<
                    Seq<NeSegmentModel>,
                    DecodeError,
                >(segments.deep_view()),
                Err(e) => ne_segment_table_of(src.image(), base as int, *h) == Err::<
                    Seq<NeSegmentModel>,
                    DecodeError,
                >(e),
            },
            r matches Ok(segments) ==> segments@.len() <= h.e_cseg,
    {
        let mut segments: Vec<NeSegment> = Vec::new();
        let offset: u64 = match src.locate(base, h.e_seg_tab as u32)? {
            None => {
                assert(segments.deep_view() =~= Seq::<NeSegmentModel>::empty());
                return Ok(segments);
            },
            Some(offset) => offset,
        };
        let mut cur = *src;
        cur.seek_absolute(offset)?;
        let ghost image = src.image();
        let mut i: u16 = 0;
        while i < h.e_cseg
            invariant
                i <= h.e_cseg,
                segments@.len() == i,
                located(image, base as int, h.e_seg_tab as int) == Ok::<Option<int>, DecodeError>(
                    Some(offset as int),
                ),
                cur.image() == image,
                image == src.image(),
                cur.cursor() == offset + 8 * i,
                ne_segments_at(image, offset as int, h.e_cseg as nat, h.e_align) == joined(
                    segments.deep_view(),
                    ne_segments_at(image, cur.cursor(), (h.e_cseg - i) as nat, h.e_align),
                ),
            decreases h.e_cseg - i,
        {
            let ghost before = segments.deep_view();
            let segment = NeSegment::read(&mut cur, h.e_align)?;
            let ghost model = segment.deep_view();
            segments.push(segment);
            i = i + 1;
            proof {
                assert(segments.deep_view() =~= before + seq![model]);
                lemma_joined_twice(
                    before,
                    seq![model],
                    ne_segments_at(image, cur.cursor(), (h.e_cseg - i) as nat, h.e_align),
                );
            }
        }
        Ok(segments)
    }

    /// Resolves the imports of each of `segments`.
    fn read_imports(
        src: &ByteSource,
        base: u32,
        h: &NewExecutableHeader,
        segments: &Vec<NeSegment>,
    ) -> (r: Result<Vec<NeSegmentDllImportsTable>, DecodeError>)
        requires
            segments@.len() <= 0xFFFF,
        ensures
            match r {
                Ok(tables) => ne_import_tables_of(
                    src.image(),
                    base as int,
                    *h,
                    segments.deep_view(),
                    1,
                ) == Ok::<Seq<NeImportsModel>, DecodeError>(tables.deep_view()),
                Err(e) => ne_import_tables_of(
                    src.image(),
                    base as int,
                    *h,
                    segments.deep_view(),
                    1,
                ) == Err::<Seq<NeImportsModel>, DecodeError>(e),
            },
    {
        let mut tables: Vec<NeSegmentDllImportsTable> = Vec::new();
        let n: usize = segments.len();
        let ghost all = segments.deep_view();
        let ghost image = src.image();
        let imp_tab: u64 = base as u64 + h.e_imp_tab as u64;
        let mod_tab: u64 = base as u64 + h.e_mod_tab as u64;
        let mut i: usize = 0;
        assert(all.subrange(0, n as int) =~= all);
        while i < n
            invariant
                i <= n,
                n == all.len(),
                n <= 0xFFFF,
                n == segments@.len(),
                all == segments.deep_view(),
                image == src.image(),
                imp_tab == base + h.e_imp_tab,
                mod_tab == base + h.e_mod_tab,
                ne_import_tables_of(image, base as int, *h, all, 1) == joined(
                    tables.deep_view(),
                    ne_import_tables_of(
                        image,
                        base as int,
                        *h,
                        all.subrange(i as int, n as int),
                        i + 1,
                    ),
                ),
            decreases n - i,
        {
            let ghost before = tables.deep_view();
            let ghost rest = all.subrange(i as int, n as int);
            assert(rest.subrange(1, rest.len() as int) =~= all.subrange(i + 1, n as int));
            let table = NeSegmentDllImportsTable::read(
                src,
                &segments[i].relocs,
                imp_tab,
                mod_tab,
                h.e_cmod,
                (i + 1) as i32,
            )?;
            let ghost model = table.deep_view();
            tables.push(table);
            proof {
                assert(tables.deep_view() =~= before + seq![model]);
                lemma_joined_twice(
                    before,
                    seq![model],
                    ne_import_tables_of(
                        image,
                        base as int,
                        *h,
                        all.subrange(i + 1, n as int),
                        i + 2,
                    ),
                );
            }
            i = i + 1;
        }
        Ok(tables)
    }
}

} // verus!
