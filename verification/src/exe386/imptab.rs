//! The imports of a Linear Executable. The fixup records name what a
//! module imports: a module by its ordinal in the import module name
//! table, and a procedure by its ordinal or by the offset of its name in
//! the import procedure name table.
use vstd::prelude::*;
use vstd::slice::slice_to_vec;
use crate::error::{DecodeError, ErrorKind};
use crate::exe286::segtab::found_one;
use crate::exe386::frectab::{
    FixupRecord, FixupRecordModel, FixupTarget, FixupTargetImportedName,
    FixupTargetImportedOrdinal,
};
use crate::source::{in_bounds, joined, lemma_joined_twice, sought, truncated_at, ByteSource};
use crate::types::{len_string_at, PascalString};

verus! {

/// Why an import could not be resolved.
#[derive(Debug, Clone, Copy, PartialEq, Eq, Structural)]
pub enum ImportError {
    /// The name of the procedure could not be read
    Source(DecodeError),
    /// The module ordinal names no module of the import module name table
    InvalidModuleOrdinal(u16),
}

/// What import resolution works on.
#[derive(Debug, Clone, PartialEq, Eq)]
pub struct ImportData {
    /// The file offset of the import module name table; 0 for none
    pub imp_mod_offset: u64,
    /// The number of names in the import module name table
    pub imp_mod_count: u32,
    /// The file offset of the import procedure name table
    pub imp_proc_offset: u64,
    pub fixup_records: Vec<FixupRecord>,
}

/// An import by name.
#[derive(Debug, Clone, PartialEq, Eq)]
pub struct DllImportName {
    /// The index of the module in the import module name table, from 0
    pub module_index: u16,
    pub module_name: PascalString,
    pub import_name_offset: u32,
    pub import_name: PascalString,
}

/// An import by ordinal.
#[derive(Debug, Clone, PartialEq, Eq)]
pub struct DllImportOrdinal {
    /// The index of the module in the import module name table, from 0
    pub module_index: u16,
    pub module_name: PascalString,
    pub import_ordinal: u32,
}

/// An import.
#[derive(Debug, Clone, PartialEq, Eq)]
pub enum DllImport {
    ImportName(DllImportName),
    ImportOrdinal(DllImportOrdinal),
}

/// What a `DllImport` holds.
pub enum LxImportModel {
    ByName {
        module_index: u16,
        module_name: Seq<u8>,
        import_name_offset: u32,
        import_name: Seq<u8>,
    },
    ByOrdinal { module_index: u16, module_name: Seq<u8>, import_ordinal: u32 },
}

impl DeepView for DllImport {
    type V = LxImportModel;

    open spec fn deep_view(&self) -> LxImportModel {
        match self {
            DllImport::ImportName(import) => LxImportModel::ByName {
                module_index: import.module_index,
                module_name: import.module_name.deep_view(),
                import_name_offset: import.import_name_offset,
                import_name: import.import_name.deep_view(),
            },
            DllImport::ImportOrdinal(import) => LxImportModel::ByOrdinal {
                module_index: import.module_index,
                module_name: import.module_name.deep_view(),
                import_ordinal: import.import_ordinal,
            },
        }
    }
}

/// The imports of a module, in the order of its fixup records.
#[derive(Debug, Clone, PartialEq, Eq)]
pub struct ImportRelocationsTable {
    imports: Vec<DllImport>,
}

impl DeepView for ImportRelocationsTable {
    type V = Seq<LxImportModel>;

    closed spec fn deep_view(&self) -> Seq<LxImportModel> {
        self.imports.deep_view()
    }
}

/// The name of the module of `import`.
pub open spec fn import_module_name(import: LxImportModel) -> Seq<u8> {
    match import {
        LxImportModel::ByName { module_name, .. } => module_name,
        LxImportModel::ByOrdinal { module_name, .. } => module_name,
    }
}

/// The index of the module of `import`, from 0.
pub open spec fn import_module_index(import: LxImportModel) -> u16 {
    match import {
        LxImportModel::ByName { module_index, .. } => module_index,
        LxImportModel::ByOrdinal { module_index, .. } => module_index,
    }
}

/// The names stored from `pos` on, up to an empty name and at most
/// `remaining` of them.
pub open spec fn module_names_at(image: Seq<u8>, pos: int, remaining: int) -> Result<
    Seq<Seq<u8>>,
    DecodeError,
>
    decreases remaining,
{
    if remaining <= 0 {
        Ok(Seq::empty())
    } else {
        match len_string_at(image, pos) {
            Err(e) => Err(e),
            Ok((name, next)) => if name.len() == 0 {
                Ok(Seq::empty())
            } else {
                joined(seq![name], module_names_at(image, next, remaining - 1))
            },
        }
    }
}

/// The names of the import module name table at `offset`, which holds at
/// most `count` names; none where `offset` is 0.
pub open spec fn module_names_of(image: Seq<u8>, offset: int, count: int) -> Result<
    Seq<Seq<u8>>,
    DecodeError,
> {
    if offset == 0 {
        Ok(Seq::empty())
    } else {
        sought(image, offset, module_names_at(image, offset, count))
    }
}

/// The import that the by-name target `target` stands for, given the
/// module names `modules` and the import procedure name table at
/// `imp_proc`.
///
/// A module ordinal outside `1..=modules.len()` is `InvalidModuleOrdinal`;
/// a name that cannot be read is the failure of the read.
pub open spec fn lx_import_by_name(
    image: Seq<u8>,
    modules: Seq<Seq<u8>>,
    imp_proc: int,
    target: FixupTargetImportedName,
) -> Result<LxImportModel, ImportError> {
    if target.module_ordinal == 0 || target.module_ordinal > modules.len() {
        Err(ImportError::InvalidModuleOrdinal(target.module_ordinal))
    } else {
        match sought(
            image,
            imp_proc,
            len_string_at(image, imp_proc + target.procedure_name_offset),
        ) {
            Err(e) => Err(ImportError::Source(e)),
            Ok((import_name, _)) => Ok(
                LxImportModel::ByName {
                    module_index: (target.module_ordinal - 1) as u16,
                    module_name: modules[target.module_ordinal - 1],
                    import_name_offset: target.procedure_name_offset,
                    import_name,
                },
            ),
        }
    }
}

/// The import that the by-ordinal target `target` stands for, given the
/// module names `modules`.
pub open spec fn lx_import_by_ordinal(modules: Seq<Seq<u8>>, target: FixupTargetImportedOrdinal)
    -> Result<LxImportModel, ImportError> {
    if target.module_ordinal == 0 || target.module_ordinal > modules.len() {
        Err(ImportError::InvalidModuleOrdinal(target.module_ordinal))
    } else {
        Ok(
            LxImportModel::ByOrdinal {
                module_index: (target.module_ordinal - 1) as u16,
                module_name: modules[target.module_ordinal - 1],
                import_ordinal: target.import_ordinal,
            },
        )
    }
}

/// The decode error that `error` amounts to, for the import module name
/// table at `imp_mod`.
pub open spec fn import_error_at(error: ImportError, imp_mod: u64) -> DecodeError {
    match error {
        ImportError::Source(e) => e,
        ImportError::InvalidModuleOrdinal(_) => DecodeError {
            kind: ErrorKind::InvalidModuleOrdinal,
            offset: imp_mod,
        },
    }
}

/// The import, if any, that a fixup with target `target` stands for.
pub open spec fn lx_import_of(
    image: Seq<u8>,
    modules: Seq<Seq<u8>>,
    imp_mod: u64,
    imp_proc: int,
    target: FixupTarget,
) -> Result<Option<LxImportModel>, DecodeError> {
    match target {
        FixupTarget::ImportedName(by_name) => match lx_import_by_name(
            image,
            modules,
            imp_proc,
            by_name,
        ) {
            Ok(import) => Ok(Some(import)),
            Err(e) => Err(import_error_at(e, imp_mod)),
        },
        FixupTarget::ImportedOrdinal(by_ordinal) => match lx_import_by_ordinal(
            modules,
            by_ordinal,
        ) {
            Ok(import) => Ok(Some(import)),
            Err(e) => Err(import_error_at(e, imp_mod)),
        },
        _ => Ok(None),
    }
}

/// The imports of the fixup records `records`, in their order; the failure
/// of the first record whose import cannot be resolved.
pub open spec fn lx_imports_of(
    image: Seq<u8>,
    modules: Seq<Seq<u8>>,
    imp_mod: u64,
    imp_proc: int,
    records: Seq<FixupRecordModel>,
) -> Result<Seq<LxImportModel>, DecodeError>
    decreases records.len(),
{
    if records.len() == 0 {
        Ok(Seq::empty())
    } else {
        match lx_import_of(image, modules, imp_mod, imp_proc, records[0].target_data) {
            Err(e) => Err(e),
            Ok(found) => joined(
                found_one(found),
                lx_imports_of(
                    image,
                    modules,
                    imp_mod,
                    imp_proc,
                    records.subrange(1, records.len() as int),
                ),
            ),
        }
    }
}

/// The imports of a module: the module names are read first, then each
/// fixup record is resolved against them.
pub open spec fn lx_import_table_of(
    image: Seq<u8>,
    imp_mod: u64,
    imp_mod_count: u32,
    imp_proc: u64,
    records: Seq<FixupRecordModel>,
) -> Result<Seq<LxImportModel>, DecodeError> {
    match module_names_of(image, imp_mod as int, imp_mod_count as int) {
        Err(e) => Err(e),
        Ok(modules) => lx_imports_of(image, modules, imp_mod, imp_proc as int, records),
    }
}

/// Whether `import` names a module that has a name and whose ordinal is
/// one of `1..=count`.
pub open spec fn names_known_module(import: LxImportModel, count: int) -> bool {
    import_module_name(import).len() > 0 && 1 <= import_module_index(import) + 1 <= count
}

/// The import module name table yields at most as many names as it is
/// declared to hold, and none of them is empty.
pub proof fn lemma_module_names(image: Seq<u8>, pos: int, remaining: int)
    requires
        module_names_at(image, pos, remaining) is Ok,
    ensures
        module_names_at(image, pos, remaining)->Ok_0.len() <= if remaining < 0 {
            0
        } else {
            remaining
        },
        forall|i: int|
            0 <= i < module_names_at(image, pos, remaining)->Ok_0.len() ==> (
            #[trigger] module_names_at(image, pos, remaining)->Ok_0[i]).len() > 0,
    decreases remaining,
{
    if remaining > 0 {
        let (name, next) = len_string_at(image, pos)->Ok_0;
        if name.len() != 0 {
            lemma_module_names(image, next, remaining - 1);
        }
    }
}

/// Every import of a decoded import table names a module that has a name,
/// by an ordinal between 1 and the declared number of modules.
pub proof fn lemma_imports_name_known_modules(
    image: Seq<u8>,
    imp_mod: u64,
    imp_mod_count: u32,
    imp_proc: u64,
    records: Seq<FixupRecordModel>,
)
    requires
        lx_import_table_of(image, imp_mod, imp_mod_count, imp_proc, records) is Ok,
    ensures
        forall|i: int|
            0 <= i < lx_import_table_of(
                image,
                imp_mod,
                imp_mod_count,
                imp_proc,
                records,
            )->Ok_0.len() ==> names_known_module(
                #[trigger] lx_import_table_of(
                    image,
                    imp_mod,
                    imp_mod_count,
                    imp_proc,
                    records,
                )->Ok_0[i],
                imp_mod_count as int,
            ),
{
    let modules = module_names_of(image, imp_mod as int, imp_mod_count as int)->Ok_0;
    if imp_mod != 0 {
        lemma_module_names(image, imp_mod as int, imp_mod_count as int);
    }
    lemma_resolved_against(image, modules, imp_mod, imp_proc as int, records, imp_mod_count as int);
}

/// Imports resolved against module names that are all non-empty and at
/// most `count` in number name known modules.
proof fn lemma_resolved_against(
    image: Seq<u8>,
    modules: Seq<Seq<u8>>,
    imp_mod: u64,
    imp_proc: int,
    records: Seq<FixupRecordModel>,
    count: int,
)
    requires
        modules.len() <= count,
        forall|i: int| 0 <= i < modules.len() ==> (#[trigger] modules[i]).len() > 0,
        lx_imports_of(image, modules, imp_mod, imp_proc, records) is Ok,
    ensures
        forall|i: int|
            0 <= i < lx_imports_of(image, modules, imp_mod, imp_proc, records)->Ok_0.len()
                ==> names_known_module(
                #[trigger] lx_imports_of(image, modules, imp_mod, imp_proc, records)->Ok_0[i],
                count,
            ),
    decreases records.len(),
{
    if records.len() > 0 {
        lemma_resolved_against(
            image,
            modules,
            imp_mod,
            imp_proc,
            records.subrange(1, records.len() as int),
            count,
        );
    }
}

impl ImportError {
    /// The decode error that this error amounts to, for the import module
    /// name table at `imp_mod`.
    pub fn into_decode_error(self, imp_mod: u64) -> (e: DecodeError)
        ensures
            e == import_error_at(self, imp_mod),
    {
        match self {
            ImportError::Source(e) => e,
            ImportError::InvalidModuleOrdinal(_) => DecodeError {
                kind: ErrorKind::InvalidModuleOrdinal,
                offset: imp_mod,
            },
        }
    }
}

impl DllImport {
    /// The name of the module that the import comes from.
    pub fn module_name(&self) -> (name: &PascalString)
        ensures
            name.deep_view() == import_module_name(self.deep_view()),
    {
        match self {
            DllImport::ImportName(import) => &import.module_name,
            DllImport::ImportOrdinal(import) => &import.module_name,
        }
    }

    /// The index of that module in the import module name table, from 0.
    pub fn module_index(&self) -> (index: u16)
        ensures
            index == import_module_index(self.deep_view()),
    {
        match self {
            DllImport::ImportName(import) => import.module_index,
            DllImport::ImportOrdinal(import) => import.module_index,
        }
    }
}

impl ImportRelocationsTable {
    /// A table without imports.
    pub fn empty() -> (t: Self)
        ensures
            t.deep_view() == Seq::<LxImportModel>::empty(),
    {
        ImportRelocationsTable { imports: Vec::new() }
    }

    /// The imports, in the order of the fixup records that name them.
    pub fn imports(&self) -> (list: &Vec<DllImport>)
        ensures
            list.deep_view() == self.deep_view(),
    {
        &self.imports
    }

    /// Reads the names of the import module name table at
    /// `imp_mod_offset`, which holds at most `count` names. The source is
    /// not moved.
    pub fn read_modules(src: &ByteSource, imp_mod_offset: u64, count: u32) -> (r: Result<
        Vec<PascalString>,
        DecodeError,
    >)
        ensures
            match r {
                Ok(modules) => module_names_of(src.image(), imp_mod_offset as int, count as int)
                    == Ok::<Seq<Seq<u8>>, DecodeError>(modules.deep_view()),
                Err(e) => module_names_of(src.image(), imp_mod_offset as int, count as int)
                    == Err::<Seq<Seq<u8>>, DecodeError>(e),
            },
    {
        let mut modules: Vec<PascalString> = Vec::new();
        assert(modules.deep_view() =~= Seq::<Seq<u8>>::empty());
        if imp_mod_offset == 0 {
            return Ok(modules);
        }
        let mut cur = *src;
        cur.seek_absolute(imp_mod_offset)?;
        let ghost image = src.image();
        let mut remaining: u32 = count;
        while remaining > 0
            invariant_except_break
                module_names_at(image, imp_mod_offset as int, count as int) == joined(
                    modules.deep_view(),
                    module_names_at(image, cur.cursor(), remaining as int),
                ),
            invariant
                cur.image() == image,
                image == src.image(),
                imp_mod_offset != 0,
                imp_mod_offset <= image.len(),
            ensures
                module_names_at(image, imp_mod_offset as int, count as int) == Ok::<
                    Seq<Seq<u8>>,
                    DecodeError,
                >(modules.deep_view()),
            decreases remaining,
        {
            let ghost before = modules.deep_view();
            let name = Self::read_pascal_string(&mut cur)?;
            if name.len() == 0 {
                break ;
            }
            let ghost model = name.deep_view();
            modules.push(name);
            remaining = remaining - 1;
            proof {
                assert(modules.deep_view() =~= before + seq![model]);
                lemma_joined_twice(
                    before,
                    seq![model],
                    module_names_at(image, cur.cursor(), remaining as int),
                );
            }
        }
        Ok(modules)
    }

    /// Reads a length-prefixed string at the cursor. On failure the source
    /// is left as it was.
    pub fn read_pascal_string(src: &mut ByteSource) -> (r: Result<PascalString, DecodeError>)
        ensures
            final(src).image() == old(src).image(),
            match r {
                Ok(s) => len_string_at(old(src).image(), old(src).cursor()) == Ok::<
                    (Seq<u8>, int),
                    DecodeError,
                >((s.deep_view(), final(src).cursor())),
                Err(e) => len_string_at(old(src).image(), old(src).cursor()) == Err::<
                    (Seq<u8>, int),
                    DecodeError,
                >(e) && *final(src) == *old(src),
            },
    {
        let mut cur = *src;
        let len: u8 = Self::read_byte(&mut cur)?;
        if len == 0 {
            *src = cur;
            assert(old(src).image().subrange(old(src).cursor() + 1, old(src).cursor() + 1)
                =~= Seq::<u8>::empty());
            return Ok(PascalString::empty());
        }
        let name_bytes = Self::read_bytes(&mut cur, len as usize)?;
        *src = cur;
        Ok(PascalString::new(len, name_bytes))
    }

    /// Reads one byte at the cursor. On failure the source is left as it
    /// was.
    pub fn read_byte(src: &mut ByteSource) -> (r: Result<u8, DecodeError>)
        ensures
            final(src).image() == old(src).image(),
            match r {
                Ok(v) => in_bounds(old(src).image(), old(src).cursor(), 1)
                    && v == old(src).image()[old(src).cursor()]
                    && final(src).cursor() == old(src).cursor() + 1,
                Err(e) => !in_bounds(old(src).image(), old(src).cursor(), 1) && e == truncated_at(
                    old(src).cursor(),
                ) && *final(src) == *old(src),
            },
    {
        src.read_u8()
    }

    /// Reads `count` bytes at the cursor. On failure the source is left as
    /// it was.
    pub fn read_bytes(src: &mut ByteSource, count: usize) -> (r: Result<Vec<u8>, DecodeError>)
        ensures
            final(src).image() == old(src).image(),
            match r {
                Ok(bytes) => in_bounds(old(src).image(), old(src).cursor(), count as int)
                    && bytes@ == old(src).image().subrange(
                    old(src).cursor(),
                    old(src).cursor() + count,
                ) && final(src).cursor() == old(src).cursor() + count,
                Err(e) => !in_bounds(old(src).image(), old(src).cursor(), count as int) && e
                    == truncated_at(old(src).cursor()) && *final(src) == *old(src),
            },
    {
        let bytes = src.read_exact(count)?;
        Ok(slice_to_vec(bytes))
    }

    /// Resolves an import by name against the module names `modules`. The
    /// source is not moved.
    pub fn process_imported_name(
        src: &ByteSource,
        name_target: &FixupTargetImportedName,
        modules: &Vec<PascalString>,
        imp_proc_offset: u64,
    ) -> (r: Result<DllImport, ImportError>)
        ensures
            match r {
                Ok(import) => lx_import_by_name(
                    src.image(),
                    modules.deep_view(),
                    imp_proc_offset as int,
                    *name_target,
                ) == Ok::<LxImportModel, ImportError>(import.deep_view()),
                Err(e) => lx_import_by_name(
                    src.image(),
                    modules.deep_view(),
                    imp_proc_offset as int,
                    *name_target,
                ) == Err::<LxImportModel, ImportError>(e),
            },
    {
        if name_target.module_ordinal == 0 || name_target.module_ordinal as usize
            > modules.len() {
            return Err(ImportError::InvalidModuleOrdinal(name_target.module_ordinal));
        }
        let module_index: u16 = name_target.module_ordinal - 1;
        let module_name = modules[module_index as usize].clone();
        if imp_proc_offset > src.length() {
            return Err(
                ImportError::Source(
                    DecodeError { kind: ErrorKind::Truncated, offset: imp_proc_offset },
                ),
            );
        }
        let procedure_ptr: u64 = imp_proc_offset + name_target.procedure_name_offset as u64;
        let mut cur = *src;
        if cur.seek_absolute(procedure_ptr).is_err() {
            return Err(
                ImportError::Source(
                    DecodeError { kind: ErrorKind::Truncated, offset: procedure_ptr },
                ),
            );
        }
        let import_name = match Self::read_pascal_string(&mut cur) {
            Ok(name) => name,
            Err(e) => {
                return Err(ImportError::Source(e));
            },
        };
        Ok(
            DllImport::ImportName(
                DllImportName {
                    module_index,
                    module_name,
                    import_name_offset: name_target.procedure_name_offset,
                    import_name,
                },
            ),
        )
    }

    /// Resolves an import by ordinal against the module names `modules`.
    pub fn process_imported_ordinal(
        ordinal_target: &FixupTargetImportedOrdinal,
        modules: &Vec<PascalString>,
    ) -> (r: Result<DllImport, ImportError>)
        ensures
            match r {
                Ok(import) => lx_import_by_ordinal(modules.deep_view(), *ordinal_target) == Ok::<
                    LxImportModel,
                    ImportError,
                >(import.deep_view()),
                Err(e) => lx_import_by_ordinal(modules.deep_view(), *ordinal_target) == Err::<
                    LxImportModel,
                    ImportError,
                >(e),
            },
    {
        if ordinal_target.module_ordinal == 0 || ordinal_target.module_ordinal as usize
            > modules.len() {
            return Err(ImportError::InvalidModuleOrdinal(ordinal_target.module_ordinal));
        }
        let module_index: u16 = ordinal_target.module_ordinal - 1;
        let module_name = modules[module_index as usize].clone();
        Ok(
            DllImport::ImportOrdinal(
                DllImportOrdinal {
                    module_index,
                    module_name,
                    import_ordinal: ordinal_target.import_ordinal,
                },
            ),
        )
    }

    /// Resolves the imports that the fixup records of `import_data` name.
    /// The source is not moved.
    ///
    /// Every import that comes back names a module that has a name, by an
    /// ordinal between 1 and the declared number of modules.
    pub fn read(src: &ByteSource, import_data: &ImportData) -> (r: Result<Self, DecodeError>)
        ensures
            match r {
                Ok(table) => lx_import_table_of(
                    src.image(),
                    import_data.imp_mod_offset,
                    import_data.imp_mod_count,
                    import_data.imp_proc_offset,
                    import_data.fixup_records.deep_view(),
                ) == Ok::<Seq<LxImportModel>, DecodeError>(table.deep_view()),
                Err(e) => lx_import_table_of(
                    src.image(),
                    import_data.imp_mod_offset,
                    import_data.imp_mod_count,
                    import_data.imp_proc_offset,
                    import_data.fixup_records.deep_view(),
                ) == Err::<Seq<LxImportModel>, DecodeError>(e),
            },
            r matches Ok(table) ==> forall|i: int|
                0 <= i < table.deep_view().len() ==> names_known_module(
                    #[trigger] table.deep_view()[i],
                    import_data.imp_mod_count as int,
                ),
    {
        let modules = Self::read_modules(
            src,
            import_data.imp_mod_offset,
            import_data.imp_mod_count,
        )?;
        let mut imports: Vec<DllImport> = Vec::new();
        let n: usize = import_data.fixup_records.len();
        let ghost image = src.image();
        let ghost names = modules.deep_view();
        let ghost all = import_data.fixup_records.deep_view();
        let imp_mod: u64 = import_data.imp_mod_offset;
        let imp_proc: u64 = import_data.imp_proc_offset;
        let mut i: usize = 0;
        assert(all.subrange(0, n as int) =~= all);
        while i < n
            invariant
                i <= n,
                n == all.len(),
                n == import_data.fixup_records@.len(),
                all == import_data.fixup_records.deep_view(),
                names == modules.deep_view(),
                image == src.image(),
                imp_mod == import_data.imp_mod_offset,
                imp_proc == import_data.imp_proc_offset,
                module_names_of(image, imp_mod as int, import_data.imp_mod_count as int) == Ok::<
                    Seq<Seq<u8>>,
                    DecodeError,
                >(names),
                lx_imports_of(image, names, imp_mod, imp_proc as int, all) == joined(
                    imports.deep_view(),
                    lx_imports_of(
                        image,
                        names,
                        imp_mod,
                        imp_proc as int,
                        all.subrange(i as int, n as int),
                    ),
                ),
            decreases n - i,
        {
            let ghost before = imports.deep_view();
            let ghost rest = all.subrange(i as int, n as int);
            assert(rest.subrange(1, rest.len() as int) =~= all.subrange(i + 1, n as int));
            let resolved = match import_data.fixup_records[i].target_data {
                FixupTarget::ImportedName(name_target) => Some(
                    Self::process_imported_name(src, &name_target, &modules, imp_proc),
                ),
                FixupTarget::ImportedOrdinal(ordinal_target) => Some(
                    Self::process_imported_ordinal(&ordinal_target, &modules),
                ),
                _ => None,
            };
            let ghost mut head = Seq::<LxImportModel>::empty();
            match resolved {
                Some(Ok(import)) => {
                    proof {
                        head = seq![import.deep_view()];
                    }
                    imports.push(import);
                },
                Some(Err(e)) => {
                    return Err(e.into_decode_error(imp_mod));
                },
                None => {},
            }
            proof {
                assert(imports.deep_view() =~= before + head);
                lemma_joined_twice(
                    before,
                    head,
                    lx_imports_of(
                        image,
                        names,
                        imp_mod,
                        imp_proc as int,
                        all.subrange(i + 1, n as int),
                    ),
                );
            }
            i = i + 1;
        }
        proof {
            lemma_imports_name_known_modules(
                image,
                imp_mod,
                import_data.imp_mod_count,
                imp_proc,
                all,
            );
        }
        Ok(ImportRelocationsTable { imports })
    }
}

} // verus!
