//! Per-segment relocations of a New Executable. A record is 8 bytes and
//! is one of four kinds: an internal reference, an import by ordinal, an
//! import by name, or an operating-system fixup for floating-point
//! instructions.
use vstd::prelude::*;
use crate::error::DecodeError;
use crate::source::{in_bounds, le16_at, truncated_at, u16_le, ByteSource};

verus! {

/// The size of a relocation record in bytes.
pub const NE_RELOC_SIZE: usize = 8;

/// A reference to another place of the module.
#[derive(Debug, Clone, Copy, PartialEq, Eq, Structural)]
pub struct InternalFixup {
    /// The target segment, or 0xFF for a moveable one
    pub int_seg: u8,
    /// Whether the target is moveable
    pub int_mov: bool,
    /// The offset in a fixed segment; the entry ordinal for a moveable one
    pub int_offset: u16,
}

/// An import named by module and ordinal.
#[derive(Debug, Clone, Copy, PartialEq, Eq, Structural)]
pub struct ImportOrdinal {
    pub imp_mod_index: u16,
    pub imp_ordinal: u16,
}

/// An import named by module and by the offset of the procedure name in
/// the imported names table.
#[derive(Debug, Clone, Copy, PartialEq, Eq, Structural)]
pub struct ImportName {
    pub imp_mod_index: u16,
    pub imp_offset: u16,
}

/// The floating-point instruction that the loader patches.
#[derive(Debug, Clone, Copy, PartialEq, Eq, Structural)]
pub enum FPUFixupType {
    FiArqqFjArqq,
    FiSrqqFjSrqq,
    FiCrqqFjCrqq,
    FiErqq,
    FiDrqq,
    FiWrqq,
}

/// An operating-system fixup.
#[derive(Debug, Clone, Copy, PartialEq, Eq, Structural)]
pub struct FPUFixup {
    pub osf_type: FPUFixupType,
    /// Unused; usually 0
    pub osf_padd: u16,
}

/// The fixup type that the code `u` names. Codes 1 to 4 name the first
/// four types; every other code is read as `FiDrqq`.
pub open spec fn fpu_fixup_type_of(u: u16) -> FPUFixupType {
    if u == 1 {
        FPUFixupType::FiArqqFjArqq
    } else if u == 2 {
        FPUFixupType::FiSrqqFjSrqq
    } else if u == 3 {
        FPUFixupType::FiCrqqFjCrqq
    } else if u == 4 {
        FPUFixupType::FiErqq
    } else {
        FPUFixupType::FiDrqq
    }
}

impl FPUFixupType {
    /// The fixup type that the code `u` names.
    pub fn get_from(u: u16) -> (t: FPUFixupType)
        ensures
            t == fpu_fixup_type_of(u),
    {
        match u {
            0x0001 => FPUFixupType::FiArqqFjArqq,
            0x0002 => FPUFixupType::FiSrqqFjSrqq,
            0x0003 => FPUFixupType::FiCrqqFjCrqq,
            0x0004 => FPUFixupType::FiErqq,
            _ => FPUFixupType::FiDrqq,
        }
    }
}

/// What a relocation record points at.
#[derive(Debug, Clone, Copy, PartialEq, Eq, Structural)]
pub enum RelocationType {
    Internal(InternalFixup),
    ImportName(ImportName),
    ImportOrdinal(ImportOrdinal),
    OSFixup(FPUFixup),
}

/// A relocation record.
#[derive(Debug, Clone, Copy, PartialEq, Eq, Structural)]
pub struct RelocationEntry {
    /// The relocation kind: the two low bits of the second byte
    pub rel_rtp: u8,
    /// The address type: the first byte, as stored
    pub rel_atp: u8,
    /// Whether the fixup adds to what the site holds
    pub rel_add: bool,
    /// The offset of the site in its segment
    pub rel_seg_ptr: u16,
    pub rel_type: RelocationType,
}

/// The relocation records of one segment, in file order.
#[derive(Debug, Clone, PartialEq, Eq)]
pub struct RelocationTable {
    pub rel_entries: Vec<RelocationEntry>,
}

/// The target that the last four bytes of the record at `pos` hold, read
/// by the record's kind.
pub open spec fn ne_reloc_target_at(image: Seq<u8>, pos: int) -> RelocationType {
    let kind = image[pos + 1] & 0x03;
    if kind == 0 {
        RelocationType::Internal(
            InternalFixup {
                int_seg: image[pos + 4],
                int_mov: image[pos + 4] == 0xFF,
                int_offset: le16_at(image, pos + 6),
            },
        )
    } else if kind == 1 {
        RelocationType::ImportOrdinal(
            ImportOrdinal {
                imp_mod_index: le16_at(image, pos + 4),
                imp_ordinal: le16_at(image, pos + 6),
            },
        )
    } else if kind == 2 {
        RelocationType::ImportName(
            ImportName {
                imp_mod_index: le16_at(image, pos + 4),
                imp_offset: le16_at(image, pos + 6),
            },
        )
    } else {
        RelocationType::OSFixup(
            FPUFixup {
                osf_type: fpu_fixup_type_of(le16_at(image, pos + 4)),
                osf_padd: le16_at(image, pos + 6),
            },
        )
    }
}

/// The relocation record whose 8 bytes start at `pos`.
pub open spec fn ne_reloc_at(image: Seq<u8>, pos: int) -> RelocationEntry {
    RelocationEntry {
        rel_rtp: image[pos + 1] & 0x03,
        rel_atp: image[pos],
        rel_add: image[pos + 1] & 0x04 != 0,
        rel_seg_ptr: le16_at(image, pos + 2),
        rel_type: ne_reloc_target_at(image, pos),
    }
}

/// The relocation table stored at `pos`, a 16-bit count and that many
/// records, and the offset behind it. A missing count is `Truncated` at
/// `pos`; records that the image does not hold are `Truncated` at
/// `pos + 2`, where they start.
pub open spec fn ne_relocs_at(image: Seq<u8>, pos: int) -> Result<
    (Seq<RelocationEntry>, int),
    DecodeError,
> {
    if !in_bounds(image, pos, 2) {
        Err(truncated_at(pos))
    } else if !in_bounds(image, pos + 2, 8 * le16_at(image, pos)) {
        Err(truncated_at(pos + 2))
    } else {
        Ok(
            (
                Seq::new(le16_at(image, pos) as nat, |i: int| ne_reloc_at(image, pos + 2 + 8 * i)),
                pos + 2 + 8 * le16_at(image, pos),
            ),
        )
    }
}

impl RelocationEntry {
    /// Decodes the record at index `at` of `bytes`.
    pub fn decode(bytes: &[u8], at: usize) -> (entry: Self)
        requires
            at + 8 <= bytes.len(),
        ensures
            entry == ne_reloc_at(bytes@, at as int),
    {
        let address_type: u8 = bytes[at];
        let reloc_flags: u8 = bytes[at + 1];
        let reloc_type: u8 = reloc_flags & 0x03;
        let first: u16 = u16_le(bytes, at + 4);
        let second: u16 = u16_le(bytes, at + 6);
        let target = if reloc_type == 0 {
            let segment: u8 = bytes[at + 4];
            RelocationType::Internal(
                InternalFixup { int_seg: segment, int_mov: segment == 0xFF, int_offset: second },
            )
        } else if reloc_type == 1 {
            RelocationType::ImportOrdinal(
                ImportOrdinal { imp_mod_index: first, imp_ordinal: second },
            )
        } else if reloc_type == 2 {
            RelocationType::ImportName(ImportName { imp_mod_index: first, imp_offset: second })
        } else {
            RelocationType::OSFixup(
                FPUFixup { osf_type: FPUFixupType::get_from(first), osf_padd: second },
            )
        };
        RelocationEntry {
            rel_rtp: reloc_type,
            rel_atp: address_type,
            rel_add: reloc_flags & 0x04 != 0,
            rel_seg_ptr: u16_le(bytes, at + 2),
            rel_type: target,
        }
    }
}

impl RelocationTable {
    /// A table without records.
    pub fn empty() -> (t: Self)
        ensures
            t.rel_entries@ == Seq::<RelocationEntry>::empty(),
    {
        RelocationTable { rel_entries: Vec::new() }
    }

    /// Reads the relocation table at the cursor. On success the cursor
    /// stands behind the table; on failure the source is left as it was.
    pub fn read(src: &mut ByteSource) -> (r: Result<Self, DecodeError>)
        ensures
            final(src).image() == old(src).image(),
            match r {
                Ok(t) => ne_relocs_at(old(src).image(), old(src).cursor()) == Ok::<
                    (Seq<RelocationEntry>, int),
                    DecodeError,
                >((t.rel_entries@, final(src).cursor())),
                Err(e) => ne_relocs_at(old(src).image(), old(src).cursor()) == Err::<
                    (Seq<RelocationEntry>, int),
                    DecodeError,
                >(e) && *final(src) == *old(src),
            },
    {
        let mut cur = *src;
        let ghost image = cur.image();
        let ghost start = cur.cursor();
        let count: u16 = cur.read_u16()?;
        let b = cur.read_exact(NE_RELOC_SIZE * (count as usize))?;
        let mut entries: Vec<RelocationEntry> = Vec::new();
        let mut i: usize = 0;
        while i < count as usize
            invariant
                i <= count,
                b@ == image.subrange(start + 2, start + 2 + 8 * count),
                in_bounds(image, start + 2, 8 * count),
                entries@ =~= Seq::new(i as nat, |k: int| ne_reloc_at(image, start + 2 + 8 * k)),
            decreases count - i,
        {
            entries.push(RelocationEntry::decode(b, NE_RELOC_SIZE * i));
            i = i + 1;
        }
        *src = cur;
        Ok(RelocationTable { rel_entries: entries })
    }
}

} // verus!
