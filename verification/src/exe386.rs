//! The Linear Executable of OS/2 2.x (LX) and of Windows virtual device
//! drivers (LE): its header and the tables the header points to.
//!
//! The header stands where the DOS header links to, or at offset 0 of an
//! image without a DOS stub. Every pointer of the header but that of the
//! non-resident name table counts from the start of the header. A pointer
//! of 0 says that the module has no such table.
use vstd::prelude::*;
use crate::container::{container_of, Container, TargetObject};
use crate::error::{DecodeError, ErrorKind};
use crate::exe286::names_of;
use crate::exe286::nrestab::NonResidentNameTable;
use crate::exe286::resntab::{NameModel, ResidentNameTable};
use crate::exe386::dirtab::{directives_of, ModuleDirectiveModel, ModuleDirectivesTable};
use crate::exe386::enttab::{lx_entry_table_of, EntryBundleModel, EntryTable};
use crate::exe386::fpagetab::{fixup_pages_of, FixupPageModel, FixupPageTable};
use crate::exe386::frectab::{fixup_records_of, FixupRecordModel, FixupRecordsTable};
use crate::exe386::header::{lx_header_of, LinearExecutableHeader};
use crate::exe386::imptab::{
    lx_import_table_of, names_known_module, ImportData, ImportRelocationsTable, LxImportModel,
};
use crate::exe386::objpagetab::{object_pages_of, ObjectPage, ObjectPagesTable};
use crate::exe386::objtab::{objects_of, Object, ObjectsTable};
use crate::source::{located, ByteSource, MAX_IMAGE_LEN};

pub mod dirtab;
pub mod enttab;
pub mod fpagetab;
pub mod frectab;
pub mod header;
pub mod imptab;
pub mod lx_objpages;
pub mod nrestab;
pub mod objpagetab;
pub mod objtab;
pub mod vxd;

verus! {

/// A Linear Executable as decoded: its header and every table.
#[derive(Debug, Clone, PartialEq, Eq)]
pub struct LinearExecutableLayout {
    pub header: LinearExecutableHeader,
    pub object_table: ObjectsTable,
    pub object_pages: ObjectPagesTable,
    pub entry_table: EntryTable,
    pub fixup_page_table: FixupPageTable,
    pub fixup_records_table: FixupRecordsTable,
    pub import_table: ImportRelocationsTable,
    pub module_directives_table: ModuleDirectivesTable,
    pub non_resident_names: NonResidentNameTable,
    pub resident_names: ResidentNameTable,
}

/// What a `LinearExecutableLayout` holds.
pub struct LxLayoutModel {
    pub header: LinearExecutableHeader,
    pub object_table: Seq<Object>,
    pub object_pages: Seq<ObjectPage>,
    pub entry_table: Seq<EntryBundleModel>,
    pub fixup_page_table: FixupPageModel,
    pub fixup_records_table: Seq<FixupRecordModel>,
    pub import_table: Seq<LxImportModel>,
    pub module_directives_table: Seq<ModuleDirectiveModel>,
    pub non_resident_names: Seq<NameModel>,
    pub resident_names: Seq<NameModel>,
}

impl DeepView for LinearExecutableLayout {
    type V = LxLayoutModel;

    open spec fn deep_view(&self) -> LxLayoutModel {
        LxLayoutModel {
            header: self.header,
            object_table: self.object_table.objects@,
            object_pages: self.object_pages.pages@,
            entry_table: self.entry_table.bundles.deep_view(),
            fixup_page_table: self.fixup_page_table.deep_view(),
            fixup_records_table: self.fixup_records_table.records.deep_view(),
            import_table: self.import_table.deep_view(),
            module_directives_table: self.module_directives_table.directives.deep_view(),
            non_resident_names: self.non_resident_names.deep_view(),
            resident_names: self.resident_names.deep_view(),
        }
    }
}

/// The offset of the linear header of `image`; none where the image holds
/// no linear executable.
pub open spec fn lx_base_of(image: Seq<u8>) -> Option<u64> {
    match container_of(image) {
        Ok(container) => if container.kind == TargetObject::LXModule || container.kind
            == TargetObject::LEModule {
            Some(container.base)
        } else {
            None
        },
        Err(_) => None,
    }
}

/// The objects of the module with header `h` at `base`.
pub open spec fn lx_objects_of(image: Seq<u8>, base: int, h: LinearExecutableHeader) -> Result<
    Seq<Object>,
    DecodeError,
> {
    match located(image, base, h.e32_objtab as int) {
        Err(e) => Err(e),
        Ok(None) => Ok(Seq::empty()),
        Ok(Some(offset)) => objects_of(image, offset, h.e32_objcnt as int),
    }
}

/// The page map of the module with header `h` at `base`.
pub open spec fn lx_pages_of(image: Seq<u8>, base: int, h: LinearExecutableHeader) -> Result<
    Seq<ObjectPage>,
    DecodeError,
> {
    match located(image, base, h.e32_objmap as int) {
        Err(e) => Err(e),
        Ok(None) => Ok(Seq::empty()),
        Ok(Some(offset)) => object_pages_of(image, offset, h.e32_mpages as int, h.e32_magic),
    }
}

/// The entry bundles of the module with header `h` at `base`.
pub open spec fn lx_entries_of(image: Seq<u8>, base: int, h: LinearExecutableHeader) -> Result<
    Seq<EntryBundleModel>,
    DecodeError,
> {
    match located(image, base, h.e32_enttab as int) {
        Err(e) => Err(e),
        Ok(None) => Ok(Seq::empty()),
        Ok(Some(offset)) => match lx_entry_table_of(image, offset) {
            Err(e) => Err(e),
            Ok((bundles, _)) => Ok(bundles),
        },
    }
}

/// The fixup page table of the module with header `h` at `base`.
pub open spec fn lx_fixup_pages_of(image: Seq<u8>, base: int, h: LinearExecutableHeader)
    -> Result<FixupPageModel, DecodeError> {
    match located(image, base, h.e32_fpagetab as int) {
        Err(e) => Err(e),
        Ok(None) => Ok(FixupPageModel { page_offsets: Seq::empty(), end_of_fixup_records: 0 }),
        Ok(Some(offset)) => fixup_pages_of(image, offset, h),
    }
}

/// The fixup records of the module with header `h` at `base` and fixup
/// page table `pages`.
pub open spec fn lx_fixup_records_of(
    image: Seq<u8>,
    base: int,
    h: LinearExecutableHeader,
    pages: FixupPageModel,
) -> Result<Seq<FixupRecordModel>, DecodeError> {
    match located(image, base, h.e32_frectab as int) {
        Err(e) => Err(e),
        Ok(None) => Ok(Seq::empty()),
        Ok(Some(offset)) => fixup_records_of(image, offset, pages),
    }
}

/// The file offset of the import module name table of the module with
/// header `h` at `base`; 0 where it has none.
pub open spec fn lx_import_modules_at(image: Seq<u8>, base: int, h: LinearExecutableHeader)
    -> Result<u64, DecodeError> {
    match located(image, base, h.e32_impmod as int) {
        Err(e) => Err(e),
        Ok(None) => Ok(0),
        Ok(Some(offset)) => Ok(offset as u64),
    }
}

/// The imports of the module with header `h` at `base` and fixup records
/// `records`.
pub open spec fn lx_imports_for(
    image: Seq<u8>,
    base: int,
    h: LinearExecutableHeader,
    records: Seq<FixupRecordModel>,
) -> Result<Seq<LxImportModel>, DecodeError> {
    match lx_import_modules_at(image, base, h) {
        Err(e) => Err(e),
        Ok(imp_mod) => lx_import_table_of(
            image,
            imp_mod,
            h.e32_impmodcnt,
            (base + h.e32_impproc) as u64,
            records,
        ),
    }
}

/// The outcome of decoding `image` as a Linear Executable: the header, the
/// object table, the object page map, the entry table, the resident and
/// the non-resident names, the fixup page table, the fixup records, the
/// imports, and the module directives. The header is looked for where
/// container discovery finds the inner header of the image. The first
/// failure is the outcome, that of container discovery included.
pub open spec fn lx_layout_of(image: Seq<u8>) -> Result<LxLayoutModel, DecodeError> {
    match container_of(image) {
        Err(e) => Err(e),
        Ok(container) => {
            let base = container.base as int;
            match lx_header_of(image, base) {
                Err(e) => Err(e),
                Ok(header) => match lx_objects_of(image, base, header) {
                    Err(e) => Err(e),
                    Ok(object_table) => match lx_pages_of(image, base, header) {
                        Err(e) => Err(e),
                        Ok(object_pages) => match lx_entries_of(image, base, header) {
                            Err(e) => Err(e),
                            Ok(entry_table) => lx_layout_from_names(
                                image,
                                base,
                                header,
                                object_table,
                                object_pages,
                                entry_table,
                            ),
                        },
                    },
                },
            }
        },
    }
}

/// The second half of `lx_layout_of`: what follows the entry table.
pub open spec fn lx_layout_from_names(
    image: Seq<u8>,
    base: int,
    header: LinearExecutableHeader,
    object_table: Seq<Object>,
    object_pages: Seq<ObjectPage>,
    entry_table: Seq<EntryBundleModel>,
) -> Result<LxLayoutModel, DecodeError> {
    match names_of(image, base, header.e32_restab as int) {
        Err(e) => Err(e),
        Ok(resident_names) => match names_of(image, 0, header.e32_nrestab as int) {
            Err(e) => Err(e),
            Ok(non_resident_names) => match lx_fixup_pages_of(image, base, header) {
                Err(e) => Err(e),
                Ok(fixup_page_table) => match lx_fixup_records_of(
                    image,
                    base,
                    header,
                    fixup_page_table,
                ) {
                    Err(e) => Err(e),
                    Ok(fixup_records_table) => match lx_imports_for(
                        image,
                        base,
                        header,
                        fixup_records_table,
                    ) {
                        Err(e) => Err(e),
                        Ok(import_table) => match directives_of(image, base, header) {
                            Err(e) => Err(e),
                            Ok(module_directives_table) => Ok(
                                LxLayoutModel {
                                    header,
                                    object_table,
                                    object_pages,
                                    entry_table,
                                    fixup_page_table,
                                    fixup_records_table,
                                    import_table,
                                    module_directives_table,
                                    non_resident_names,
                                    resident_names,
                                },
                            ),
                        },
                    },
                },
            },
        },
    }
}

/// Two decodings of one image are equal.
pub proof fn lemma_lx_layout_deterministic(
    image: Seq<u8>,
    first: Result<LxLayoutModel, DecodeError>,
    second: Result<LxLayoutModel, DecodeError>,
)
    requires
        first == lx_layout_of(image),
        second == lx_layout_of(image),
    ensures
        first == second,
{
}

impl LinearExecutableLayout {
    /// Decodes `image`, the bytes of a file, as a Linear Executable.
    pub fn get(image: &[u8]) -> (r: Result<Self, DecodeError>)
        requires
            image@.len() <= MAX_IMAGE_LEN,
        ensures
            match r {
                Ok(layout) => lx_layout_of(image@) == Ok::<LxLayoutModel, DecodeError>(
                    layout.deep_view(),
                ),
                Err(e) => lx_layout_of(image@) == Err::<LxLayoutModel, DecodeError>(e),
            },
    {
        let src = ByteSource::new(image);
        Self::read(&src)
    }

    /// Finds the linear header of the image of `src`: where the DOS header
    /// links to, or at offset 0 of an image that opens with it. The source
    /// is not moved.
    pub fn define_base_offset(src: &ByteSource) -> (base: Option<u64>)
        ensures
            base == lx_base_of(src.image()),
            base matches Some(offset) ==> offset <= u32::MAX,
    {
        match Container::detect(src) {
            Ok(container) => match container.kind {
                TargetObject::LXModule => Some(container.base),
                TargetObject::LEModule => Some(container.base),
                _ => None,
            },
            Err(_) => None,
        }
    }

    /// Decodes the image of `src` as a Linear Executable. The source is
    /// not moved.
    ///
    /// Every import of a layout that comes back names a module that has a
    /// name, by an ordinal between 1 and the number of modules that the
    /// header declares.
    pub fn read(src: &ByteSource) -> (r: Result<Self, DecodeError>)
        ensures
            match r {
                Ok(layout) => lx_layout_of(src.image()) == Ok::<LxLayoutModel, DecodeError>(
                    layout.deep_view(),
                ),
                Err(e) => lx_layout_of(src.image()) == Err::<LxLayoutModel, DecodeError>(e),
            },
            r matches Ok(layout) ==> forall|i: int|
                0 <= i < layout.import_table.deep_view().len() ==> names_known_module(
                    #[trigger] layout.import_table.deep_view()[i],
                    layout.header.e32_impmodcnt as int,
                ),
    {
        let container = Container::detect(src)?;
        let start: u64 = container.base;
        let base: u32 = start as u32;
        let mut cur = *src;
        if cur.seek_absolute(start).is_err() {
            return Err(DecodeError { kind: ErrorKind::Truncated, offset: start });
        }
        let header = LinearExecutableHeader::read(&mut cur)?;
        let object_table = match src.locate(base, header.e32_objtab)? {
            None => ObjectsTable::empty(),
            Some(offset) => ObjectsTable::read(&mut cur, offset, header.e32_objcnt)?,
        };
        let object_pages = match src.locate(base, header.e32_objmap)? {
            None => ObjectPagesTable::empty(),
            Some(offset) => ObjectPagesTable::read(
                &mut cur,
                offset,
                header.e32_mpages,
                header.e32_magic,
            )?,
        };
        let entry_table = match src.locate(base, header.e32_enttab)? {
            None => EntryTable::empty(),
            Some(offset) => EntryTable::read(&mut cur, offset)?,
        };
        let resident_names = match src.locate(base, header.e32_restab)? {
            None => ResidentNameTable::empty(),
            Some(offset) => ResidentNameTable::read(&mut cur, offset)?,
        };
        let non_resident_names = match src.locate(0, header.e32_nrestab)? {
            None => NonResidentNameTable::empty(),
            Some(offset) => NonResidentNameTable::read(&mut cur, offset)?,
        };
        let fixup_page_table = match src.locate(base, header.e32_fpagetab)? {
            None => FixupPageTable::empty(),
            Some(offset) => FixupPageTable::read(&mut cur, offset, &header)?,
        };
        let fixup_records = match src.locate(base, header.e32_frectab)? {
            None => FixupRecordsTable::empty(),
            Some(offset) => FixupRecordsTable::read(src, &fixup_page_table, offset)?,
        };
        let imp_mod_offset: u64 = match src.locate(base, header.e32_impmod)? {
            None => 0,
            Some(offset) => offset,
        };
        let import_data = ImportData {
            imp_mod_offset,
            imp_mod_count: header.e32_impmodcnt,
            imp_proc_offset: start + header.e32_impproc as u64,
            fixup_records: fixup_records.records,
        };
        let import_table = ImportRelocationsTable::read(src, &import_data)?;
        let module_directives_table = ModuleDirectivesTable::read(src, &header, start)?;
        Ok(
            LinearExecutableLayout {
                header,
                object_table,
                object_pages,
                entry_table,
                fixup_page_table,
                fixup_records_table: FixupRecordsTable { records: import_data.fixup_records },
                import_table,
                module_directives_table,
                non_resident_names,
                resident_names,
            },
        )
    }
}

} // verus!
