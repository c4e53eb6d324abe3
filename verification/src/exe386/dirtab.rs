//! The module format directives table of a Linear Executable: an optional
//! table of records that each point to a block of data, such as the verify
//! record that lists the modules a module was fixed up against.
use vstd::prelude::*;
use vstd::slice::slice_to_vec;
use crate::error::{DecodeError, ErrorKind};
use crate::exe386::header::LinearExecutableHeader;
use crate::source::{
    in_bounds, joined, le16_at, le32_at, lemma_joined_twice, truncated_at, u16_le, u32_le,
    ByteSource,
};

verus! {

/// The directive number of a verify record.
pub const DIRECTIVE_VERIFY: u16 = 0x8001;

/// The directive number of language information.
pub const DIRECTIVE_LANGUAGE: u16 = 0x0002;

/// The directive number of a coprocessor requirement.
pub const DIRECTIVE_COPROCESSOR: u16 = 0x0003;

/// The directive number of a thread state initialisation.
pub const DIRECTIVE_THREAD_STATE: u16 = 0x0004;

/// The bit of a directive number that marks data kept resident: its
/// offset counts from the linear header, not from the start of the file.
pub const DIRECTIVE_RESIDENT: u16 = 0x8000;

/// The size of a directive record in bytes.
pub const DIRECTIVE_SIZE: usize = 8;

/// A record of the directives table.
#[derive(Debug, Clone, Copy, PartialEq, Eq, Structural)]
pub struct ModuleDirectiveRecord {
    pub directive_number: u16,
    pub data_length: u16,
    pub data_offset: u32,
}

/// What a directive is about.
#[derive(Debug, Clone, Copy, PartialEq, Eq, Structural)]
pub enum DirectiveType {
    VerifyRecord,
    LanguageInfo,
    CoprocessorRequired,
    ThreadStateInit,
    Unknown(u16),
}

/// A directive with its data.
#[derive(Debug, Clone, PartialEq, Eq)]
pub struct ModuleDirective {
    pub directive_type: DirectiveType,
    pub data: Vec<u8>,
}

/// What a `ModuleDirective` holds.
pub struct ModuleDirectiveModel {
    pub directive_type: DirectiveType,
    pub data: Seq<u8>,
}

impl DeepView for ModuleDirective {
    type V = ModuleDirectiveModel;

    open spec fn deep_view(&self) -> ModuleDirectiveModel {
        ModuleDirectiveModel { directive_type: self.directive_type, data: self.data@ }
    }
}

/// An object of a module that a module was fixed up against.
#[derive(Debug, Clone, Copy, PartialEq, Eq, Structural)]
pub struct ObjectVerification {
    pub object_number: u16,
    pub base_address: u32,
    pub virtual_size: u32,
}

/// A module that a module was fixed up against.
#[derive(Debug, Clone, PartialEq, Eq)]
pub struct ModuleDependency {
    pub module_ordinal: u16,
    pub version: u16,
    pub module_object_count: u16,
    pub object_verifications: Vec<ObjectVerification>,
}

/// What a `ModuleDependency` holds.
pub struct ModuleDependencyModel {
    pub module_ordinal: u16,
    pub version: u16,
    pub module_object_count: u16,
    pub object_verifications: Seq<ObjectVerification>,
}

impl DeepView for ModuleDependency {
    type V = ModuleDependencyModel;

    open spec fn deep_view(&self) -> ModuleDependencyModel {
        ModuleDependencyModel {
            module_ordinal: self.module_ordinal,
            version: self.version,
            module_object_count: self.module_object_count,
            object_verifications: self.object_verifications@,
        }
    }
}

/// The verify record: the modules that a module was fixed up against.
#[derive(Debug, Clone, PartialEq, Eq)]
pub struct VerifyRecord {
    pub module_dependencies: Vec<ModuleDependency>,
}

/// The directives of a module.
#[derive(Debug, Clone, PartialEq, Eq)]
pub struct ModuleDirectivesTable {
    pub directives: Vec<ModuleDirective>,
}

/// What the directive number `value` is about.
pub open spec fn directive_type_of(value: u16) -> DirectiveType {
    if value == DIRECTIVE_VERIFY {
        DirectiveType::VerifyRecord
    } else if value == DIRECTIVE_LANGUAGE {
        DirectiveType::LanguageInfo
    } else if value == DIRECTIVE_COPROCESSOR {
        DirectiveType::CoprocessorRequired
    } else if value == DIRECTIVE_THREAD_STATE {
        DirectiveType::ThreadStateInit
    } else {
        DirectiveType::Unknown(value)
    }
}

/// The directive record whose 8 bytes start at `pos`.
pub open spec fn directive_record_at(image: Seq<u8>, pos: int) -> ModuleDirectiveRecord {
    ModuleDirectiveRecord {
        directive_number: le16_at(image, pos),
        data_length: le16_at(image, pos + 2),
        data_offset: le32_at(image, pos + 4),
    }
}

/// The file offset of the data of `record`, for the linear header at
/// `base`.
pub open spec fn directive_data_offset(base: int, record: ModuleDirectiveRecord) -> int {
    if record.directive_number & DIRECTIVE_RESIDENT != 0 {
        base + record.data_offset
    } else {
        record.data_offset as int
    }
}

/// The directive of `record` with its data; data that the image does not
/// hold in full is `Truncated` where the data starts.
pub open spec fn directive_of(image: Seq<u8>, base: int, record: ModuleDirectiveRecord) -> Result<
    ModuleDirectiveModel,
    DecodeError,
> {
    let at = directive_data_offset(base, record);
    if !in_bounds(image, at, record.data_length as int) {
        Err(truncated_at(at))
    } else {
        Ok(
            ModuleDirectiveModel {
                directive_type: directive_type_of(record.directive_number),
                data: image.subrange(at, at + record.data_length),
            },
        )
    }
}

/// The directives of the `count` records stored from `pos` on; the failure
/// of the first whose data cannot be read.
pub open spec fn directives_at(image: Seq<u8>, base: int, pos: int, count: nat) -> Result<
    Seq<ModuleDirectiveModel>,
    DecodeError,
>
    decreases count,
{
    if count == 0 {
        Ok(Seq::empty())
    } else {
        match directive_of(image, base, directive_record_at(image, pos)) {
            Err(e) => Err(e),
            Ok(directive) => joined(
                seq![directive],
                directives_at(image, base, pos + 8, (count - 1) as nat),
            ),
        }
    }
}

/// The directives of the module with header `h` at `base`.
///
/// A module whose header has no directives table pointer has none. The
/// table holds `e32_impmodcnt` records. A header that lies past the end of
/// the image is `Truncated` at `base`; a table that does not start inside
/// the image, or that the image does not hold in full, is `Truncated` at
/// the table.
pub open spec fn directives_of(image: Seq<u8>, base: int, h: LinearExecutableHeader) -> Result<
    Seq<ModuleDirectiveModel>,
    DecodeError,
> {
    let pos = base + h.e32_dirtab;
    if h.e32_dirtab == 0 {
        Ok(Seq::empty())
    } else if base > image.len() {
        Err(truncated_at(base))
    } else if pos >= image.len() || !in_bounds(image, pos, 8 * h.e32_impmodcnt) {
        Err(truncated_at(pos))
    } else {
        directives_at(image, base, pos, h.e32_impmodcnt as nat)
    }
}

/// The object verification whose 10 bytes start at `pos` of `data`.
pub open spec fn object_verification_at(data: Seq<u8>, pos: int) -> ObjectVerification {
    ObjectVerification {
        object_number: le16_at(data, pos),
        base_address: le32_at(data, pos + 2),
        virtual_size: le32_at(data, pos + 6),
    }
}

/// The `count` module dependencies stored from `pos` of `data` on. A
/// dependency is: the module ordinal, the version and the number of
/// objects, 2 bytes each, then 10 bytes for each object. What `data` does
/// not hold is `Truncated`, at the dependency or at its objects; offsets
/// count from the start of `data`.
pub open spec fn dependencies_at(data: Seq<u8>, pos: int, count: nat) -> Result<
    Seq<ModuleDependencyModel>,
    DecodeError,
>
    decreases count,
{
    if count == 0 {
        Ok(Seq::empty())
    } else if !in_bounds(data, pos, 6) {
        Err(truncated_at(pos))
    } else if !in_bounds(data, pos + 6, 10 * le16_at(data, pos + 4)) {
        Err(truncated_at(pos + 6))
    } else {
        joined(
            seq![
                ModuleDependencyModel {
                    module_ordinal: le16_at(data, pos),
                    version: le16_at(data, pos + 2),
                    module_object_count: le16_at(data, pos + 4),
                    object_verifications: Seq::new(
                        le16_at(data, pos + 4) as nat,
                        |i: int| object_verification_at(data, pos + 6 + 10 * i),
                    ),
                },
            ],
            dependencies_at(
                data,
                pos + 6 + 10 * le16_at(data, pos + 4),
                (count - 1) as nat,
            ),
        )
    }
}

/// The verify record that `directive` holds: a 16-bit count of module
/// dependencies, then the dependencies. A directive of another type is
/// `BadMagic`, data without the count is `Truncated`, both at offset 0 of
/// the data.
pub open spec fn verify_record_of(directive: ModuleDirectiveModel) -> Result<
    Seq<ModuleDependencyModel>,
    DecodeError,
> {
    if directive.directive_type != DirectiveType::VerifyRecord {
        Err(DecodeError { kind: ErrorKind::BadMagic, offset: 0 })
    } else if directive.data.len() < 2 {
        Err(truncated_at(0))
    } else {
        dependencies_at(directive.data, 2, le16_at(directive.data, 0) as nat)
    }
}

impl DirectiveType {
    /// What the directive number `value` is about.
    pub fn from(value: u16) -> (t: Self)
        ensures
            t == directive_type_of(value),
    {
        match value {
            0x8001 => DirectiveType::VerifyRecord,
            0x0002 => DirectiveType::LanguageInfo,
            0x0003 => DirectiveType::CoprocessorRequired,
            0x0004 => DirectiveType::ThreadStateInit,
            n => DirectiveType::Unknown(n),
        }
    }
}

impl ModuleDirectivesTable {
    /// A table without directives.
    pub fn empty() -> (t: Self)
        ensures
            t.directives.deep_view() == Seq::<ModuleDirectiveModel>::empty(),
    {
        ModuleDirectivesTable { directives: Vec::new() }
    }

    /// Decodes the directives of the module with header `header`, which
    /// stands at offset `e_lfanew`, each with its data. The source is not
    /// moved.
    pub fn read(src: &ByteSource, header: &LinearExecutableHeader, e_lfanew: u64) -> (r: Result<
        Self,
        DecodeError,
    >)
        ensures
            match r {
                Ok(t) => directives_of(src.image(), e_lfanew as int, *header) == Ok::<
                    Seq<ModuleDirectiveModel>,
                    DecodeError,
                >(t.directives.deep_view()),
                Err(e) => directives_of(src.image(), e_lfanew as int, *header) == Err::<
                    Seq<ModuleDirectiveModel>,
                    DecodeError,
                >(e),
            },
    {
        if header.e32_dirtab == 0 {
            return Ok(ModuleDirectivesTable::empty());
        }
        let length: u64 = src.length();
        if e_lfanew > length {
            return Err(DecodeError { kind: ErrorKind::Truncated, offset: e_lfanew });
        }
        let table: u64 = e_lfanew + header.e32_dirtab as u64;
        let mut cur = *src;
        if table >= length || cur.seek_absolute(table).is_err() || !cur.holds(
            8 * (header.e32_impmodcnt as u64),
        ) {
            return Err(DecodeError { kind: ErrorKind::Truncated, offset: table });
        }
        let ghost image = src.image();
        let count: u32 = header.e32_impmodcnt;
        let mut directives: Vec<ModuleDirective> = Vec::new();
        let mut i: u32 = 0;
        while i < count
            invariant
                i <= count,
                count == header.e32_impmodcnt,
                header.e32_dirtab != 0,
                table == e_lfanew + header.e32_dirtab,
                cur.image() == image,
                image == src.image(),
                length == image.len(),
                e_lfanew <= length <= crate::source::MAX_IMAGE_LEN,
                table < length,
                in_bounds(image, table as int, 8 * count),
                cur.cursor() == table + 8 * i,
                directives_at(image, e_lfanew as int, table as int, count as nat) == joined(
                    directives.deep_view(),
                    directives_at(image, e_lfanew as int, cur.cursor(), (count - i) as nat),
                ),
            decreases count - i,
        {
            let ghost before = directives.deep_view();
            let b = cur.read_exact(DIRECTIVE_SIZE)?;
            let entry = ModuleDirectiveRecord {
                directive_number: u16_le(b, 0),
                data_length: u16_le(b, 2),
                data_offset: u32_le(b, 4),
            };
            let directive_type = DirectiveType::from(entry.directive_number);
            let data_offset: u64 = if entry.directive_number & DIRECTIVE_RESIDENT != 0 {
                e_lfanew + entry.data_offset as u64
            } else {
                entry.data_offset as u64
            };
            let mut at_data = *src;
            if at_data.seek_absolute(data_offset).is_err() {
                return Err(DecodeError { kind: ErrorKind::Truncated, offset: data_offset });
            }
            let bytes = at_data.read_exact(entry.data_length as usize)?;
            let directive = ModuleDirective { directive_type, data: slice_to_vec(bytes) };
            let ghost model = directive.deep_view();
            directives.push(directive);
            i = i + 1;
            proof {
                assert(directives.deep_view() =~= before + seq![model]);
                lemma_joined_twice(
                    before,
                    seq![model],
                    directives_at(image, e_lfanew as int, cur.cursor(), (count - i) as nat),
                );
            }
        }
        Ok(ModuleDirectivesTable { directives })
    }

    /// Decodes the verify record that `directive` holds.
    pub fn read_verify_record(directive: &ModuleDirective) -> (r: Result<
        VerifyRecord,
        DecodeError,
    >)
        ensures
            match r {
                Ok(record) => verify_record_of(directive.deep_view()) == Ok::<
                    Seq<ModuleDependencyModel>,
                    DecodeError,
                >(record.module_dependencies.deep_view()),
                Err(e) => verify_record_of(directive.deep_view()) == Err::<
                    Seq<ModuleDependencyModel>,
                    DecodeError,
                >(e),
            },
    {
        match directive.directive_type {
            DirectiveType::VerifyRecord => {},
            _ => {
                return Err(DecodeError { kind: ErrorKind::BadMagic, offset: 0 });
            },
        }
        let data: &[u8] = directive.data.as_slice();
        let length: usize = data.len();
        if length < 2 {
            return Err(DecodeError { kind: ErrorKind::Truncated, offset: 0 });
        }
        let entry_count: u16 = u16_le(data, 0);
        let mut dependencies: Vec<ModuleDependency> = Vec::new();
        let mut offset: usize = 2;
        let mut done: u16 = 0;
        while done < entry_count
            invariant
                done <= entry_count,
                data@ == directive.data@,
                length == data@.len(),
                2 <= offset <= length,
                directive.directive_type == DirectiveType::VerifyRecord,
                entry_count == le16_at(data@, 0),
                dependencies_at(data@, 2, entry_count as nat) == joined(
                    dependencies.deep_view(),
                    dependencies_at(data@, offset as int, (entry_count - done) as nat),
                ),
            decreases entry_count - done,
        {
            let ghost before = dependencies.deep_view();
            if length - offset < 6 {
                return Err(DecodeError { kind: ErrorKind::Truncated, offset: offset as u64 });
            }
            let module_ordinal: u16 = u16_le(data, offset);
            let version: u16 = u16_le(data, offset + 2);
            let module_object_count: u16 = u16_le(data, offset + 4);
            let objects_at: usize = offset + 6;
            if ((length - objects_at) as u64) < 10 * (module_object_count as u64) {
                return Err(DecodeError { kind: ErrorKind::Truncated, offset: objects_at as u64 });
            }
            let mut object_verifications: Vec<ObjectVerification> = Vec::new();
            let mut k: usize = 0;
            while k < module_object_count as usize
                invariant
                    k <= module_object_count,
                    length == data@.len(),
                    objects_at <= length,
                    in_bounds(data@, objects_at as int, 10 * module_object_count),
                    object_verifications@ =~= Seq::new(
                        k as nat,
                        |j: int| object_verification_at(data@, objects_at + 10 * j),
                    ),
                decreases module_object_count - k,
            {
                let at: usize = objects_at + 10 * k;
                object_verifications.push(
                    ObjectVerification {
                        object_number: u16_le(data, at),
                        base_address: u32_le(data, at + 2),
                        virtual_size: u32_le(data, at + 6),
                    },
                );
                k = k + 1;
            }
            let dependency = ModuleDependency {
                module_ordinal,
                version,
                module_object_count,
                object_verifications,
            };
            let ghost model = dependency.deep_view();
            dependencies.push(dependency);
            offset = objects_at + 10 * (module_object_count as usize);
            done = done + 1;
            proof {
                assert(dependencies.deep_view() =~= before + seq![model]);
                lemma_joined_twice(
                    before,
                    seq![model],
                    dependencies_at(data@, offset as int, (entry_count - done) as nat),
                );
            }
        }
        Ok(VerifyRecord { module_dependencies: dependencies })
    }
}

} // verus!
