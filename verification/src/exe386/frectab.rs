//! The fixup record table of a Linear Executable: a stream of records of
//! variable length. Two flag bytes open each record and say which fields
//! follow and how wide they are.
use vstd::prelude::*;
use crate::error::{DecodeError, ErrorKind};
use crate::exe386::fpagetab::{FixupPageTable, FixupRecordTable};
use crate::exe386::fpagetab::{page_end, FixupPageModel};
use crate::source::{
    clipped, implausible_at, in_bounds, joined, le16_at, le32_at, lemma_joined_twice,
    lemma_prepended_twice, prepended, truncated_at, u16_le, ByteSource,
};

verus! {

/// Source flag: the record has a list of source offsets.
pub const FIXUP_SOURCE_LIST: u8 = 0x20;

/// Source type of a 16-bit selector fixup, whose internal target has no
/// offset.
pub const FIXUP_SOURCE_SELECTOR: u8 = 0x02;

/// Target flag: an additive value follows the target.
pub const FIXUP_ADDITIVE: u8 = 0x04;

/// Target flag: the target offset, or the ordinal, has 32 bits.
pub const FIXUP_TARGET_32: u8 = 0x10;

/// Target flag: the additive value has 32 bits.
pub const FIXUP_ADDITIVE_32: u8 = 0x20;

/// Target flag: the object number, or the module ordinal, has 16 bits.
pub const FIXUP_OBJECT_16: u8 = 0x40;

/// Target flag: the import ordinal has 8 bits.
pub const FIXUP_ORDINAL_8: u8 = 0x80;

/// The largest number of fixup records a module may hold.
pub const MAX_FIXUPS: u32 = 0x100_0000;

/// A target inside the module: an object and, but for a selector fixup,
/// an offset in it.
#[derive(Debug, Clone, Copy, PartialEq, Eq, Structural)]
pub struct FixupTargetInternal {
    pub object_number: u16,
    pub target_offset: Option<u32>,
}

/// A target imported by ordinal.
#[derive(Debug, Clone, Copy, PartialEq, Eq, Structural)]
pub struct FixupTargetImportedOrdinal {
    pub module_ordinal: u16,
    pub import_ordinal: u32,
}

/// A target imported by name: the name stands at `procedure_name_offset`
/// of the import procedure name table.
#[derive(Debug, Clone, Copy, PartialEq, Eq, Structural)]
pub struct FixupTargetImportedName {
    pub module_ordinal: u16,
    pub procedure_name_offset: u32,
}

/// A target reached through the entry table.
#[derive(Debug, Clone, Copy, PartialEq, Eq, Structural)]
pub struct FixupTargetEntryTable {
    pub entry_number: u16,
}

/// What a fixup points at.
#[derive(Debug, Clone, Copy, PartialEq, Eq, Structural)]
pub enum FixupTarget {
    Internal(FixupTargetInternal),
    ImportedOrdinal(FixupTargetImportedOrdinal),
    ImportedName(FixupTargetImportedName),
    FixupViaEntryTable(FixupTargetEntryTable),
}

/// The two flag bytes of a record, bit by bit.
#[derive(Debug, Clone, Copy, PartialEq, Eq, Structural)]
pub struct FixupFlags {
    pub has_source_list: bool,
    pub has_additive: bool,
    pub is_32bit_target: bool,
    pub is_32bit_additive: bool,
    pub is_16bit_object_module: bool,
    pub is_8bit_ordinal: bool,
    /// The kind of target: the two low bits of the target flags
    pub target_type: u8,
    /// The kind of source: the four low bits of the source flags
    pub source_type: u8,
}

/// A fixup record.
#[derive(Debug, Clone, PartialEq, Eq)]
pub struct FixupRecord {
    /// The source flags, as stored
    pub source: u8,
    /// The target flags, as stored
    pub target_flags: u8,
    /// The offset of the site in its page; in a record with a source list,
    /// the number of sites
    pub source_offset_or_count: u16,
    pub target_data: FixupTarget,
    pub additive_value: Option<u32>,
    /// The offsets of the sites of a record with a source list
    pub source_offset_list: Option<Vec<u16>>,
}

/// What a `FixupRecord` holds.
pub struct FixupRecordModel {
    pub source: u8,
    pub target_flags: u8,
    pub source_offset_or_count: u16,
    pub target_data: FixupTarget,
    pub additive_value: Option<u32>,
    pub source_offset_list: Option<Seq<u16>>,
}

impl DeepView for FixupRecord {
    type V = FixupRecordModel;

    open spec fn deep_view(&self) -> FixupRecordModel {
        FixupRecordModel {
            source: self.source,
            target_flags: self.target_flags,
            source_offset_or_count: self.source_offset_or_count,
            target_data: self.target_data,
            additive_value: self.additive_value,
            source_offset_list: match self.source_offset_list {
                Some(list) => Some(list@),
                None => None,
            },
        }
    }
}

/// The fixup records of a module, page after page.
#[derive(Debug, Clone, PartialEq, Eq)]
pub struct FixupRecordsTable {
    pub records: Vec<FixupRecord>,
}

/// The flags that the bytes `source` and `target_flags` hold.
pub open spec fn fixup_flags_of(source: u8, target_flags: u8) -> FixupFlags {
    FixupFlags {
        has_source_list: source & 0x20 != 0,
        has_additive: target_flags & 0x04 != 0,
        is_32bit_target: target_flags & 0x10 != 0,
        is_32bit_additive: target_flags & 0x20 != 0,
        is_16bit_object_module: target_flags & 0x40 != 0,
        is_8bit_ordinal: target_flags & 0x80 != 0,
        target_type: target_flags & 0x03,
        source_type: source & 0x0F,
    }
}

/// The number stored at `pos` in one byte, or in two where `wide`, and the
/// offset behind it.
pub open spec fn u8_or_u16_at(image: Seq<u8>, pos: int, wide: bool) -> Result<
    (u16, int),
    DecodeError,
> {
    if wide {
        if !in_bounds(image, pos, 2) {
            Err(truncated_at(pos))
        } else {
            Ok((le16_at(image, pos), pos + 2))
        }
    } else {
        if !in_bounds(image, pos, 1) {
            Err(truncated_at(pos))
        } else {
            Ok((image[pos] as u16, pos + 1))
        }
    }
}

/// The number stored at `pos` in two bytes, or in four where `wide`, and
/// the offset behind it.
pub open spec fn u16_or_u32_at(image: Seq<u8>, pos: int, wide: bool) -> Result<
    (u32, int),
    DecodeError,
> {
    if wide {
        if !in_bounds(image, pos, 4) {
            Err(truncated_at(pos))
        } else {
            Ok((le32_at(image, pos), pos + 4))
        }
    } else {
        if !in_bounds(image, pos, 2) {
            Err(truncated_at(pos))
        } else {
            Ok((le16_at(image, pos) as u32, pos + 2))
        }
    }
}

/// The internal target stored at `pos`: an object number, then an offset
/// unless the source is a 16-bit selector.
pub open spec fn internal_target_at(image: Seq<u8>, pos: int, flags: FixupFlags) -> Result<
    (FixupTarget, int),
    DecodeError,
> {
    match u8_or_u16_at(image, pos, flags.is_16bit_object_module) {
        Err(e) => Err(e),
        Ok((object_number, next)) => if flags.source_type == FIXUP_SOURCE_SELECTOR {
            Ok(
                (
                    FixupTarget::Internal(
                        FixupTargetInternal { object_number, target_offset: None },
                    ),
                    next,
                ),
            )
        } else {
            match u16_or_u32_at(image, next, flags.is_32bit_target) {
                Err(e) => Err(e),
                Ok((offset, end)) => Ok(
                    (
                        FixupTarget::Internal(
                            FixupTargetInternal { object_number, target_offset: Some(offset) },
                        ),
                        end,
                    ),
                ),
            }
        },
    }
}

/// The import ordinal stored at `pos`: one byte where the flags say so,
/// else four bytes for a 32-bit target and two bytes otherwise.
pub open spec fn import_ordinal_at(image: Seq<u8>, pos: int, flags: FixupFlags) -> Result<
    (u32, int),
    DecodeError,
> {
    if flags.is_8bit_ordinal {
        if !in_bounds(image, pos, 1) {
            Err(truncated_at(pos))
        } else {
            Ok((image[pos] as u32, pos + 1))
        }
    } else {
        u16_or_u32_at(image, pos, flags.is_32bit_target)
    }
}

/// The target imported by ordinal stored at `pos`: a module ordinal, then
/// the ordinal of the procedure.
pub open spec fn imported_ordinal_target_at(image: Seq<u8>, pos: int, flags: FixupFlags)
    -> Result<(FixupTarget, int), DecodeError> {
    match u8_or_u16_at(image, pos, flags.is_16bit_object_module) {
        Err(e) => Err(e),
        Ok((module_ordinal, next)) => match import_ordinal_at(image, next, flags) {
            Err(e) => Err(e),
            Ok((import_ordinal, end)) => Ok(
                (
                    FixupTarget::ImportedOrdinal(
                        FixupTargetImportedOrdinal { module_ordinal, import_ordinal },
                    ),
                    end,
                ),
            ),
        },
    }
}

/// The target imported by name stored at `pos`: a module ordinal, then the
/// offset of the procedure name.
pub open spec fn imported_name_target_at(image: Seq<u8>, pos: int, flags: FixupFlags) -> Result<
    (FixupTarget, int),
    DecodeError,
> {
    match u8_or_u16_at(image, pos, flags.is_16bit_object_module) {
        Err(e) => Err(e),
        Ok((module_ordinal, next)) => match u16_or_u32_at(image, next, flags.is_32bit_target) {
            Err(e) => Err(e),
            Ok((procedure_name_offset, end)) => Ok(
                (
                    FixupTarget::ImportedName(
                        FixupTargetImportedName { module_ordinal, procedure_name_offset },
                    ),
                    end,
                ),
            ),
        },
    }
}

/// The entry table target stored at `pos`: an entry number.
pub open spec fn entry_table_target_at(image: Seq<u8>, pos: int, flags: FixupFlags) -> Result<
    (FixupTarget, int),
    DecodeError,
> {
    match u8_or_u16_at(image, pos, flags.is_16bit_object_module) {
        Err(e) => Err(e),
        Ok((entry_number, end)) => Ok(
            (FixupTarget::FixupViaEntryTable(FixupTargetEntryTable { entry_number }), end),
        ),
    }
}

/// The target stored at `pos`, of the kind that `flags.target_type` names;
/// a kind above 3 is `InvalidFixup` at `pos`.
pub open spec fn fixup_target_at(image: Seq<u8>, pos: int, flags: FixupFlags) -> Result<
    (FixupTarget, int),
    DecodeError,
> {
    if flags.target_type == 0 {
        internal_target_at(image, pos, flags)
    } else if flags.target_type == 1 {
        imported_ordinal_target_at(image, pos, flags)
    } else if flags.target_type == 2 {
        imported_name_target_at(image, pos, flags)
    } else if flags.target_type == 3 {
        entry_table_target_at(image, pos, flags)
    } else {
        Err(DecodeError { kind: ErrorKind::InvalidFixup, offset: pos as u64 })
    }
}

/// The additive value stored at `pos`, where the flags announce one.
pub open spec fn additive_at(image: Seq<u8>, pos: int, flags: FixupFlags) -> Result<
    (Option<u32>, int),
    DecodeError,
> {
    if !flags.has_additive {
        Ok((None, pos))
    } else {
        match u16_or_u32_at(image, pos, flags.is_32bit_additive) {
            Err(e) => Err(e),
            Ok((value, end)) => Ok((Some(value), end)),
        }
    }
}

/// The `count` source offsets stored at `pos`, where the flags announce a
/// source list; a list that the image does not hold in full is `Truncated`
/// at `pos`.
pub open spec fn source_list_at(image: Seq<u8>, pos: int, flags: FixupFlags, count: u16)
    -> Result<(Option<Seq<u16>>, int), DecodeError> {
    if !flags.has_source_list {
        Ok((None, pos))
    } else if !in_bounds(image, pos, 2 * count) {
        Err(truncated_at(pos))
    } else {
        Ok((Some(Seq::new(count as nat, |i: int| le16_at(image, pos + 2 * i))), pos + 2 * count))
    }
}

/// The fixup record stored at `pos` and the offset behind it.
///
/// The record is: the source flags; the target flags; the site offset in
/// two bytes or, with a source list, the number of sites in one byte; the
/// target; the additive value, if any; the source list, if any. A field
/// that the image does not hold is `Truncated` where the field starts.
pub open spec fn fixup_record_at(image: Seq<u8>, pos: int) -> Result<
    (FixupRecordModel, int),
    DecodeError,
> {
    if !in_bounds(image, pos, 1) {
        Err(truncated_at(pos))
    } else if !in_bounds(image, pos + 1, 1) {
        Err(truncated_at(pos + 1))
    } else {
        let flags = fixup_flags_of(image[pos], image[pos + 1]);
        match u8_or_u16_at(image, pos + 2, !flags.has_source_list) {
            Err(e) => Err(e),
            Ok((source_offset_or_count, at_target)) => match fixup_target_at(
                image,
                at_target,
                flags,
            ) {
                Err(e) => Err(e),
                Ok((target_data, at_additive)) => match additive_at(image, at_additive, flags) {
                    Err(e) => Err(e),
                    Ok((additive_value, at_list)) => match source_list_at(
                        image,
                        at_list,
                        flags,
                        source_offset_or_count,
                    ) {
                        Err(e) => Err(e),
                        Ok((source_offset_list, end)) => Ok(
                            (
                                FixupRecordModel {
                                    source: image[pos],
                                    target_flags: image[pos + 1],
                                    source_offset_or_count,
                                    target_data,
                                    additive_value,
                                    source_offset_list,
                                },
                                end,
                            ),
                        ),
                    },
                },
            },
        }
    }
}

/// A decoded record takes up at least three bytes.
pub proof fn lemma_record_advances(image: Seq<u8>, pos: int)
    requires
        fixup_record_at(image, pos) is Ok,
    ensures
        pos + 3 <= fixup_record_at(image, pos)->Ok_0.1 <= image.len(),
{
}

/// Reads a number of one byte, or of two where `wide`. On failure the
/// source is left as it was.
pub fn read_u8_or_u16(src: &mut ByteSource, wide: bool) -> (r: Result<u16, DecodeError>)
    ensures
        final(src).image() == old(src).image(),
        match r {
            Ok(v) => u8_or_u16_at(old(src).image(), old(src).cursor(), wide) == Ok::<
                (u16, int),
                DecodeError,
            >((v, final(src).cursor())),
            Err(e) => u8_or_u16_at(old(src).image(), old(src).cursor(), wide) == Err::<
                (u16, int),
                DecodeError,
            >(e) && *final(src) == *old(src),
        },
{
    if wide {
        src.read_u16()
    } else {
        let v = src.read_u8()?;
        Ok(v as u16)
    }
}

/// Reads a number of two bytes, or of four where `wide`. On failure the
/// source is left as it was.
pub fn read_u16_or_u32(src: &mut ByteSource, wide: bool) -> (r: Result<u32, DecodeError>)
    ensures
        final(src).image() == old(src).image(),
        match r {
            Ok(v) => u16_or_u32_at(old(src).image(), old(src).cursor(), wide) == Ok::<
                (u32, int),
                DecodeError,
            >((v, final(src).cursor())),
            Err(e) => u16_or_u32_at(old(src).image(), old(src).cursor(), wide) == Err::<
                (u32, int),
                DecodeError,
            >(e) && *final(src) == *old(src),
        },
{
    if wide {
        src.read_u32()
    } else {
        let v = src.read_u16()?;
        Ok(v as u32)
    }
}

impl FixupFlags {
    /// The flags that the bytes `source` and `target_flags` hold.
    pub fn from_bytes(source: u8, target_flags: u8) -> (f: Self)
        ensures
            f == fixup_flags_of(source, target_flags),
    {
        FixupFlags {
            has_source_list: (source & 0x20) != 0,
            has_additive: (target_flags & 0x04) != 0,
            is_32bit_target: (target_flags & 0x10) != 0,
            is_32bit_additive: (target_flags & 0x20) != 0,
            is_16bit_object_module: (target_flags & 0x40) != 0,
            is_8bit_ordinal: (target_flags & 0x80) != 0,
            target_type: target_flags & 0x03,
            source_type: source & 0x0F,
        }
    }
}

impl FixupRecordsTable {
    /// Reads the fixup record at the cursor. On success the cursor stands
    /// behind the record; on failure the source is left as it was.
    pub fn read_single_fixup_record(src: &mut ByteSource) -> (r: Result<FixupRecord, DecodeError>)
        ensures
            final(src).image() == old(src).image(),
            match r {
                Ok(record) => fixup_record_at(old(src).image(), old(src).cursor()) == Ok::<
                    (FixupRecordModel, int),
                    DecodeError,
                >((record.deep_view(), final(src).cursor())),
                Err(e) => fixup_record_at(old(src).image(), old(src).cursor()) == Err::<
                    (FixupRecordModel, int),
                    DecodeError,
                >(e) && *final(src) == *old(src),
            },
    {
        let mut cur = *src;
        let ghost image = cur.image();
        let source: u8 = cur.read_u8()?;
        let target_flags: u8 = cur.read_u8()?;
        let flags = FixupFlags::from_bytes(source, target_flags);
        let source_offset_or_count: u16 = read_u8_or_u16(&mut cur, !flags.has_source_list)?;
        let target_data = Self::read_target_data(&mut cur, &flags)?;
        let additive_value: Option<u32> = if flags.has_additive {
            Some(read_u16_or_u32(&mut cur, flags.is_32bit_additive)?)
        } else {
            None
        };
        let source_offset_list: Option<Vec<u16>> = if flags.has_source_list {
            let count: usize = source_offset_or_count as usize;
            let ghost at_list = cur.cursor();
            let b = cur.read_exact(2 * count)?;
            let mut list: Vec<u16> = Vec::new();
            let mut i: usize = 0;
            while i < count
                invariant
                    i <= count <= 0xFFFF,
                    b@ == image.subrange(at_list, at_list + 2 * count),
                    in_bounds(image, at_list, 2 * count),
                    list@ =~= Seq::new(i as nat, |k: int| le16_at(image, at_list + 2 * k)),
                decreases count - i,
            {
                list.push(u16_le(b, 2 * i));
                i = i + 1;
            }
            Some(list)
        } else {
            None
        };
        *src = cur;
        Ok(
            FixupRecord {
                source,
                target_flags,
                source_offset_or_count,
                target_data,
                additive_value,
                source_offset_list,
            },
        )
    }

    /// Reads the target of a record with flags `flags`. On failure the
    /// source is left as it was.
    pub fn read_target_data(src: &mut ByteSource, flags: &FixupFlags) -> (r: Result<
        FixupTarget,
        DecodeError,
    >)
        ensures
            final(src).image() == old(src).image(),
            match r {
                Ok(target) => fixup_target_at(old(src).image(), old(src).cursor(), *flags) == Ok::<
                    (FixupTarget, int),
                    DecodeError,
                >((target, final(src).cursor())),
                Err(e) => fixup_target_at(old(src).image(), old(src).cursor(), *flags) == Err::<
                    (FixupTarget, int),
                    DecodeError,
                >(e) && *final(src) == *old(src),
            },
    {
        match flags.target_type {
            0x00 => Self::read_internal_target(src, flags),
            0x01 => Self::read_imported_ordinal_target(src, flags),
            0x02 => Self::read_imported_name_target(src, flags),
            0x03 => Self::read_entry_table_target(src, flags),
            _ => Err(DecodeError { kind: ErrorKind::InvalidFixup, offset: src.position() }),
        }
    }

    /// Reads an internal target. On failure the source is left as it was.
    pub fn read_internal_target(src: &mut ByteSource, flags: &FixupFlags) -> (r: Result<
        FixupTarget,
        DecodeError,
    >)
        ensures
            final(src).image() == old(src).image(),
            match r {
                Ok(target) => internal_target_at(old(src).image(), old(src).cursor(), *flags)
                    == Ok::<(FixupTarget, int), DecodeError>((target, final(src).cursor())),
                Err(e) => internal_target_at(old(src).image(), old(src).cursor(), *flags) == Err::<
                    (FixupTarget, int),
                    DecodeError,
                >(e) && *final(src) == *old(src),
            },
    {
        let mut cur = *src;
        let object_number: u16 = read_u8_or_u16(&mut cur, flags.is_16bit_object_module)?;
        let target_offset: Option<u32> = if flags.source_type != FIXUP_SOURCE_SELECTOR {
            Some(read_u16_or_u32(&mut cur, flags.is_32bit_target)?)
        } else {
            None
        };
        *src = cur;
        Ok(FixupTarget::Internal(FixupTargetInternal { object_number, target_offset }))
    }

    /// Reads a target imported by ordinal. On failure the source is left as
    /// it was.
    pub fn read_imported_ordinal_target(src: &mut ByteSource, flags: &FixupFlags) -> (r: Result<
        FixupTarget,
        DecodeError,
    >)
        ensures
            final(src).image() == old(src).image(),
            match r {
                Ok(target) => imported_ordinal_target_at(
                    old(src).image(),
                    old(src).cursor(),
                    *flags,
                ) == Ok::<(FixupTarget, int), DecodeError>((target, final(src).cursor())),
                Err(e) => imported_ordinal_target_at(old(src).image(), old(src).cursor(), *flags)
                    == Err::<(FixupTarget, int), DecodeError>(e) && *final(src) == *old(src),
            },
    {
        let mut cur = *src;
        let module_ordinal: u16 = read_u8_or_u16(&mut cur, flags.is_16bit_object_module)?;
        let import_ordinal: u32 = if flags.is_8bit_ordinal {
            cur.read_u8()? as u32
        } else {
            read_u16_or_u32(&mut cur, flags.is_32bit_target)?
        };
        *src = cur;
        Ok(
            FixupTarget::ImportedOrdinal(
                FixupTargetImportedOrdinal { module_ordinal, import_ordinal },
            ),
        )
    }

    /// Reads a target imported by name. On failure the source is left as it
    /// was.
    pub fn read_imported_name_target(src: &mut ByteSource, flags: &FixupFlags) -> (r: Result<
        FixupTarget,
        DecodeError,
    >)
        ensures
            final(src).image() == old(src).image(),
            match r {
                Ok(target) => imported_name_target_at(old(src).image(), old(src).cursor(), *flags)
                    == Ok::<(FixupTarget, int), DecodeError>((target, final(src).cursor())),
                Err(e) => imported_name_target_at(old(src).image(), old(src).cursor(), *flags)
                    == Err::<(FixupTarget, int), DecodeError>(e) && *final(src) == *old(src),
            },
    {
        let mut cur = *src;
        let module_ordinal: u16 = read_u8_or_u16(&mut cur, flags.is_16bit_object_module)?;
        let procedure_name_offset: u32 = read_u16_or_u32(&mut cur, flags.is_32bit_target)?;
        *src = cur;
        Ok(
            FixupTarget::ImportedName(
                FixupTargetImportedName { module_ordinal, procedure_name_offset },
            ),
        )
    }

    /// Reads an entry table target. On failure the source is left as it
    /// was.
    pub fn read_entry_table_target(src: &mut ByteSource, flags: &FixupFlags) -> (r: Result<
        FixupTarget,
        DecodeError,
    >)
        ensures
            final(src).image() == old(src).image(),
            match r {
                Ok(target) => entry_table_target_at(old(src).image(), old(src).cursor(), *flags)
                    == Ok::<(FixupTarget, int), DecodeError>((target, final(src).cursor())),
                Err(e) => entry_table_target_at(old(src).image(), old(src).cursor(), *flags)
                    == Err::<(FixupTarget, int), DecodeError>(e) && *final(src) == *old(src),
            },
    {
        let entry_number: u16 = read_u8_or_u16(src, flags.is_16bit_object_module)?;
        Ok(FixupTarget::FixupViaEntryTable(FixupTargetEntryTable { entry_number }))
    }
}

/// The fixup records of the page whose records lie from `pos` up to `end`,
/// and the offset at which decoding stops. `room` is the number of records
/// that may still be decoded.
///
/// Records are decoded as long as the offset lies before `end`. No record
/// reads at `end` or behind it: a record that would is `Truncated` where
/// its short field starts. A record beyond `room` is `ImplausibleCount`
/// where it starts.
pub open spec fn page_records_at(image: Seq<u8>, pos: int, end: int, room: int) -> Result<
    (Seq<FixupRecordModel>, int),
    DecodeError,
>
    decreases end - pos,
{
    if pos >= end {
        Ok((Seq::empty(), pos))
    } else if room <= 0 {
        Err(implausible_at(pos))
    } else {
        match fixup_record_at(clipped(image, end), pos) {
            Err(e) => Err(e),
            Ok((record, next)) => prepended(
                seq![record],
                page_records_at(image, next, end, room - 1),
            ),
        }
    }
}

/// The fixup records of the pages from `page` on, for the fixup record
/// table at `table` and the page offsets `index`; the failure of the first
/// page that fails.
pub open spec fn pages_records_at(
    image: Seq<u8>,
    table: int,
    index: Seq<u32>,
    end_marker: u32,
    page: int,
    room: int,
) -> Result<Seq<FixupRecordModel>, DecodeError>
    decreases index.len() - page,
{
    if page < 0 || page >= index.len() {
        Ok(Seq::empty())
    } else {
        match page_records_at(
            image,
            table + index[page],
            table + page_end(index, end_marker, page),
            room,
        ) {
            Err(e) => Err(e),
            Ok((records, _)) => joined(
                records,
                pages_records_at(image, table, index, end_marker, page + 1, room - records.len()),
            ),
        }
    }
}

/// The fixup records of a module: those of all its pages, in page order.
/// A table that starts past the end of the image is `Truncated` at
/// `table`; more than 2^24 records are `ImplausibleCount`.
pub open spec fn fixup_records_of(image: Seq<u8>, table: int, pages: FixupPageModel) -> Result<
    Seq<FixupRecordModel>,
    DecodeError,
> {
    if table > image.len() {
        Err(truncated_at(table))
    } else {
        pages_records_at(
            image,
            table,
            pages.page_offsets,
            pages.end_of_fixup_records,
            0,
            MAX_FIXUPS as int,
        )
    }
}

/// The records of a page take up the page exactly: decoding a page stops
/// at the end of the page, and since no record reads behind that end, none
/// crosses it.
pub proof fn lemma_page_consumed_exactly(image: Seq<u8>, pos: int, end: int, room: int)
    requires
        0 <= pos <= end,
        page_records_at(image, pos, end, room) is Ok,
    ensures
        page_records_at(image, pos, end, room)->Ok_0.1 == end,
        page_records_at(image, pos, end, room)->Ok_0.0.len() <= room || pos == end,
    decreases end - pos,
{
    if pos < end {
        lemma_record_advances(clipped(image, end), pos);
        let next = fixup_record_at(clipped(image, end), pos)->Ok_0.1;
        lemma_page_consumed_exactly(image, next, end, room - 1);
    }
}

impl FixupRecordTable {
    /// Decodes the fixup records of the page whose records lie from
    /// `start` up to `end`, at most `limit` of them. The source is not
    /// moved.
    pub fn read(src: &ByteSource, start: u64, end: u64, limit: u32) -> (r: Result<
        Self,
        DecodeError,
    >)
        ensures
            match r {
                Ok(t) => page_records_at(src.image(), start as int, end as int, limit as int)
                    == Ok::<(Seq<FixupRecordModel>, int), DecodeError>(
                    (
                        t.records.deep_view(),
                        if start < end {
                            end as int
                        } else {
                            start as int
                        },
                    ),
                ) && t.records@.len() <= limit,
                Err(e) => page_records_at(src.image(), start as int, end as int, limit as int)
                    == Err::<(Seq<FixupRecordModel>, int), DecodeError>(e),
            },
    {
        let mut records: Vec<FixupRecord> = Vec::new();
        assert(records.deep_view() =~= Seq::<FixupRecordModel>::empty());
        if start >= end {
            return Ok(FixupRecordTable { records });
        }
        if limit == 0 {
            return Err(DecodeError { kind: ErrorKind::ImplausibleCount, offset: start });
        }
        let mut cur = src.window(end);
        let ghost image = src.image();
        let ghost part = clipped(image, end as int);
        if cur.seek_absolute(start).is_err() {
            return Err(DecodeError { kind: ErrorKind::Truncated, offset: start });
        }
        let mut room: u32 = limit;
        let mut pos: u64 = start;
        while pos < end
            invariant
                cur.image() == part,
                part == clipped(image, end as int),
                image == src.image(),
                pos == cur.cursor(),
                start <= pos <= part.len() <= end,
                room <= limit,
                records@.len() == limit - room,
                page_records_at(image, start as int, end as int, limit as int) == prepended(
                    records.deep_view(),
                    page_records_at(image, pos as int, end as int, room as int),
                ),
            decreases end - pos,
        {
            let ghost before = records.deep_view();
            if room == 0 {
                return Err(DecodeError { kind: ErrorKind::ImplausibleCount, offset: pos });
            }
            let record = FixupRecordsTable::read_single_fixup_record(&mut cur)?;
            let ghost model = record.deep_view();
            proof {
                lemma_record_advances(part, pos as int);
            }
            records.push(record);
            room = room - 1;
            pos = cur.position();
            proof {
                assert(records.deep_view() =~= before + seq![model]);
                lemma_prepended_twice(
                    before,
                    seq![model],
                    page_records_at(image, pos as int, end as int, room as int),
                );
            }
        }
        Ok(FixupRecordTable { records })
    }
}

impl FixupRecordsTable {
    /// A table without records.
    pub fn empty() -> (t: Self)
        ensures
            t.records.deep_view() == Seq::<FixupRecordModel>::empty(),
    {
        FixupRecordsTable { records: Vec::new() }
    }

    /// Decodes the fixup records of all pages of `fixup_page_table`, for
    /// the fixup record table at `fixup_record_table_offset`. The source is
    /// not moved.
    pub fn read(
        src: &ByteSource,
        fixup_page_table: &FixupPageTable,
        fixup_record_table_offset: u64,
    ) -> (r: Result<Self, DecodeError>)
        ensures
            match r {
                Ok(t) => fixup_records_of(
                    src.image(),
                    fixup_record_table_offset as int,
                    fixup_page_table.deep_view(),
                ) == Ok::<Seq<FixupRecordModel>, DecodeError>(t.records.deep_view()),
                Err(e) => fixup_records_of(
                    src.image(),
                    fixup_record_table_offset as int,
                    fixup_page_table.deep_view(),
                ) == Err::<Seq<FixupRecordModel>, DecodeError>(e),
            },
    {
        if fixup_record_table_offset > src.length() {
            return Err(
                DecodeError { kind: ErrorKind::Truncated, offset: fixup_record_table_offset },
            );
        }
        let ghost image = src.image();
        let ghost index = fixup_page_table.page_offsets@;
        let ghost end_marker = fixup_page_table.end_of_fixup_records;
        let table: u64 = fixup_record_table_offset;
        let pages: usize = fixup_page_table.page_offsets.len();
        let mut records: Vec<FixupRecord> = Vec::new();
        let mut room: u32 = MAX_FIXUPS;
        let mut page: usize = 0;
        while page < pages
            invariant
                page <= pages,
                pages == index.len(),
                index == fixup_page_table.page_offsets@,
                end_marker == fixup_page_table.end_of_fixup_records,
                image == src.image(),
                table == fixup_record_table_offset,
                table <= image.len() <= crate::source::MAX_IMAGE_LEN,
                room <= MAX_FIXUPS,
                pages_records_at(image, table as int, index, end_marker, 0, MAX_FIXUPS as int)
                    == joined(
                    records.deep_view(),
                    pages_records_at(
                        image,
                        table as int,
                        index,
                        end_marker,
                        page as int,
                        room as int,
                    ),
                ),
            decreases pages - page,
        {
            let ghost before = records.deep_view();
            let start: u64 = table + fixup_page_table.page_offsets[page] as u64;
            let next: u32 = if page + 1 < pages {
                fixup_page_table.page_offsets[page + 1]
            } else {
                fixup_page_table.end_of_fixup_records
            };
            let end: u64 = table + next as u64;
            let mut found = FixupRecordTable::read(src, start, end, room)?;
            let ghost models = found.records.deep_view();
            room = room - found.records.len() as u32;
            records.append(&mut found.records);
            page = page + 1;
            proof {
                assert(records.deep_view() =~= before + models);
                lemma_joined_twice(
                    before,
                    models,
                    pages_records_at(
                        image,
                        table as int,
                        index,
                        end_marker,
                        page as int,
                        room as int,
                    ),
                );
            }
        }
        Ok(FixupRecordsTable { records })
    }
}

} // verus!
