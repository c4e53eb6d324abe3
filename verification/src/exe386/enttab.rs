//! The entry table of a Linear Executable: bundles of entry points. A
//! bundle holds entries of one kind, and the ordinals run across the
//! bundles from 1.
use vstd::prelude::*;
use crate::error::{DecodeError, ErrorKind};
use crate::exe286::enttab::invalid_bundle_at;
use crate::source::{
    in_bounds, le16_at, le32_at, lemma_prepended_twice, prepended, sought, truncated_at, u16_le,
    u32_le, ByteSource,
};

verus! {

/// The kind of the entries of a bundle.
#[derive(Debug, Clone, Copy, PartialEq, Eq, Structural)]
pub enum BundleType {
    Unused,
    Entry16,
    Entry286CallGate,
    Entry32,
    Forwarder,
    Unknown(u8),
}

/// A 16-bit entry point.
#[derive(Debug, Clone, Copy, PartialEq, Eq, Structural)]
pub struct Entry16 {
    pub flags: u8,
    pub offset: u16,
}

/// A 32-bit entry point.
#[derive(Debug, Clone, Copy, PartialEq, Eq, Structural)]
pub struct Entry32 {
    pub flags: u8,
    pub offset: u32,
}

/// An entry point behind a 286 call gate.
#[derive(Debug, Clone, Copy, PartialEq, Eq, Structural)]
pub struct EntryCallGate {
    pub flags: u8,
    pub offset: u16,
    pub callgate_selector: u16,
}

/// An entry that forwards to an entry of another module.
#[derive(Debug, Clone, Copy, PartialEq, Eq, Structural)]
pub struct EntryForwarder {
    pub flags: u8,
    pub module_ordinal: u16,
    pub offset_or_ordinal: u32,
}

/// One ordinal of the entry table.
#[derive(Debug, Clone, Copy, PartialEq, Eq, Structural)]
pub enum Entry {
    Unused,
    Entry16(Entry16),
    Entry32(Entry32),
    EntryCallGate(EntryCallGate),
    EntryForwarder(EntryForwarder),
}

/// A bundle of the entry table.
#[derive(Debug, Clone, PartialEq, Eq)]
pub struct EntryBundle {
    pub count: u8,
    pub bundle_type: BundleType,
    /// The object of the entries; 0 for unused entries and forwarders,
    /// which name none
    pub object: u16,
    pub entries: Vec<Entry>,
}

/// What an `EntryBundle` holds.
pub struct EntryBundleModel {
    pub count: u8,
    pub bundle_type: BundleType,
    pub object: u16,
    pub entries: Seq<Entry>,
}

impl DeepView for EntryBundle {
    type V = EntryBundleModel;

    open spec fn deep_view(&self) -> EntryBundleModel {
        EntryBundleModel {
            count: self.count,
            bundle_type: self.bundle_type,
            object: self.object,
            entries: self.entries@,
        }
    }
}

/// The entry table.
#[derive(Debug, Clone, PartialEq, Eq)]
pub struct EntryTable {
    pub bundles: Vec<EntryBundle>,
}

/// The kind of bundle that the type byte `value` names: its low seven bits
/// count.
pub open spec fn bundle_type_of(value: u8) -> BundleType {
    let kind = value & 0x7F;
    if kind == 0 {
        BundleType::Unused
    } else if kind == 1 {
        BundleType::Entry16
    } else if kind == 2 {
        BundleType::Entry286CallGate
    } else if kind == 3 {
        BundleType::Entry32
    } else if kind == 4 {
        BundleType::Forwarder
    } else {
        BundleType::Unknown(kind)
    }
}

/// The 16-bit entry whose 3 bytes start at `pos`.
pub open spec fn entry16_at(image: Seq<u8>, pos: int) -> Entry16 {
    Entry16 { flags: image[pos], offset: le16_at(image, pos + 1) }
}

/// The 32-bit entry whose 5 bytes start at `pos`.
pub open spec fn entry32_at(image: Seq<u8>, pos: int) -> Entry32 {
    Entry32 { flags: image[pos], offset: le32_at(image, pos + 1) }
}

/// The call gate entry whose 5 bytes start at `pos`.
pub open spec fn call_gate_at(image: Seq<u8>, pos: int) -> EntryCallGate {
    EntryCallGate {
        flags: image[pos],
        offset: le16_at(image, pos + 1),
        callgate_selector: le16_at(image, pos + 3),
    }
}

/// The forwarder whose 9 bytes start at `pos`: a reserved word, then the
/// flags, the module ordinal and the offset or ordinal.
pub open spec fn forwarder_at(image: Seq<u8>, pos: int) -> EntryForwarder {
    EntryForwarder {
        flags: image[pos + 2],
        module_ordinal: le16_at(image, pos + 3),
        offset_or_ordinal: le32_at(image, pos + 5),
    }
}

/// Whether the header of a bundle of kind `kind` names an object.
pub open spec fn bundle_has_object(kind: BundleType) -> bool {
    kind != BundleType::Unused && kind != BundleType::Forwarder
}

/// The number of bytes that the `count` entries of a bundle of kind `kind`
/// take up.
pub open spec fn lx_bundle_len(count: u8, kind: BundleType) -> int {
    match kind {
        BundleType::Entry16 => 3 * count,
        BundleType::Entry286CallGate => 5 * count,
        BundleType::Entry32 => 5 * count,
        BundleType::Forwarder => 9 * count,
        _ => 0,
    }
}

/// The `i`-th entry of the bundle of kind `kind` whose entries start at
/// `pos`.
pub open spec fn lx_bundle_entry_at(image: Seq<u8>, pos: int, kind: BundleType, i: int) -> Entry {
    match kind {
        BundleType::Entry16 => Entry::Entry16(entry16_at(image, pos + 3 * i)),
        BundleType::Entry286CallGate => Entry::EntryCallGate(call_gate_at(image, pos + 5 * i)),
        BundleType::Entry32 => Entry::Entry32(entry32_at(image, pos + 5 * i)),
        BundleType::Forwarder => Entry::EntryForwarder(forwarder_at(image, pos + 9 * i)),
        _ => Entry::Unused,
    }
}

/// The bundles of the entry table that starts at `pos`, up to the bundle
/// with count 0 that ends it, and the offset behind that count.
///
/// A bundle is: its count; its type; for all kinds but unused entries and
/// forwarders, the object; its entries. A type the format does not define
/// is `InvalidBundle` at the bundle; a field that the image does not hold
/// is `Truncated` where the field starts, all entries of a bundle taken as
/// one field.
pub open spec fn lx_bundles_at(image: Seq<u8>, pos: int) -> Result<
    (Seq<EntryBundleModel>, int),
    DecodeError,
>
    decreases image.len() - pos,
{
    if !in_bounds(image, pos, 1) {
        Err(truncated_at(pos))
    } else if image[pos] == 0 {
        Ok((Seq::empty(), pos + 1))
    } else if !in_bounds(image, pos + 1, 1) {
        Err(truncated_at(pos + 1))
    } else {
        let count = image[pos];
        let kind = bundle_type_of(image[pos + 1]);
        let entries_at = if bundle_has_object(kind) {
            pos + 4
        } else {
            pos + 2
        };
        if kind is Unknown {
            Err(invalid_bundle_at(pos))
        } else if bundle_has_object(kind) && !in_bounds(image, pos + 2, 2) {
            Err(truncated_at(pos + 2))
        } else if !in_bounds(image, entries_at, lx_bundle_len(count, kind)) {
            Err(truncated_at(entries_at))
        } else {
            prepended(
                seq![
                    EntryBundleModel {
                        count,
                        bundle_type: kind,
                        object: if bundle_has_object(kind) {
                            le16_at(image, pos + 2)
                        } else {
                            0
                        },
                        entries: Seq::new(
                            count as nat,
                            |i: int| lx_bundle_entry_at(image, entries_at, kind, i),
                        ),
                    },
                ],
                lx_bundles_at(image, entries_at + lx_bundle_len(count, kind)),
            )
        }
    }
}

/// The outcome of decoding the entry table at offset `off`.
pub open spec fn lx_entry_table_of(image: Seq<u8>, off: int) -> Result<
    (Seq<EntryBundleModel>, int),
    DecodeError,
> {
    sought(image, off, lx_bundles_at(image, off))
}

impl BundleType {
    /// The kind of bundle that the type byte `value` names.
    pub fn from(value: u8) -> (kind: Self)
        ensures
            kind == bundle_type_of(value),
    {
        let low: u8 = value & 0x7F;
        match low {
            0x00 => BundleType::Unused,
            0x01 => BundleType::Entry16,
            0x02 => BundleType::Entry286CallGate,
            0x03 => BundleType::Entry32,
            0x04 => BundleType::Forwarder,
            n => BundleType::Unknown(n),
        }
    }
}

impl Entry16 {
    /// Reads a 16-bit entry at the cursor. On failure the source is left as
    /// it was.
    pub fn read(src: &mut ByteSource) -> (r: Result<Self, DecodeError>)
        ensures
            final(src).image() == old(src).image(),
            match r {
                Ok(entry) => in_bounds(old(src).image(), old(src).cursor(), 3) && entry
                    == entry16_at(old(src).image(), old(src).cursor()) && final(src).cursor()
                    == old(src).cursor() + 3,
                Err(e) => !in_bounds(old(src).image(), old(src).cursor(), 3) && e == truncated_at(
                    old(src).cursor(),
                ) && *final(src) == *old(src),
            },
    {
        let b = src.read_exact(3)?;
        Ok(Entry16 { flags: b[0], offset: u16_le(b, 1) })
    }
}

impl Entry32 {
    /// Reads a 32-bit entry at the cursor. On failure the source is left as
    /// it was.
    pub fn read(src: &mut ByteSource) -> (r: Result<Self, DecodeError>)
        ensures
            final(src).image() == old(src).image(),
            match r {
                Ok(entry) => in_bounds(old(src).image(), old(src).cursor(), 5) && entry
                    == entry32_at(old(src).image(), old(src).cursor()) && final(src).cursor()
                    == old(src).cursor() + 5,
                Err(e) => !in_bounds(old(src).image(), old(src).cursor(), 5) && e == truncated_at(
                    old(src).cursor(),
                ) && *final(src) == *old(src),
            },
    {
        let b = src.read_exact(5)?;
        Ok(Entry32 { flags: b[0], offset: u32_le(b, 1) })
    }
}

impl EntryCallGate {
    /// Reads a call gate entry at the cursor. On failure the source is left
    /// as it was.
    pub fn read(src: &mut ByteSource) -> (r: Result<Self, DecodeError>)
        ensures
            final(src).image() == old(src).image(),
            match r {
                Ok(entry) => in_bounds(old(src).image(), old(src).cursor(), 5) && entry
                    == call_gate_at(old(src).image(), old(src).cursor()) && final(src).cursor()
                    == old(src).cursor() + 5,
                Err(e) => !in_bounds(old(src).image(), old(src).cursor(), 5) && e == truncated_at(
                    old(src).cursor(),
                ) && *final(src) == *old(src),
            },
    {
        let b = src.read_exact(5)?;
        Ok(EntryCallGate { flags: b[0], offset: u16_le(b, 1), callgate_selector: u16_le(b, 3) })
    }
}

impl EntryForwarder {
    /// Reads a forwarder at the cursor. On failure the source is left as it
    /// was.
    pub fn read(src: &mut ByteSource) -> (r: Result<Self, DecodeError>)
        ensures
            final(src).image() == old(src).image(),
            match r {
                Ok(entry) => in_bounds(old(src).image(), old(src).cursor(), 9) && entry
                    == forwarder_at(old(src).image(), old(src).cursor()) && final(src).cursor()
                    == old(src).cursor() + 9,
                Err(e) => !in_bounds(old(src).image(), old(src).cursor(), 9) && e == truncated_at(
                    old(src).cursor(),
                ) && *final(src) == *old(src),
            },
    {
        let b = src.read_exact(9)?;
        Ok(
            EntryForwarder {
                flags: b[2],
                module_ordinal: u16_le(b, 3),
                offset_or_ordinal: u32_le(b, 5),
            },
        )
    }
}

impl EntryTable {
    /// A table without bundles.
    pub fn empty() -> (t: Self)
        ensures
            t.bundles.deep_view() == Seq::<EntryBundleModel>::empty(),
    {
        EntryTable { bundles: Vec::new() }
    }

    /// Decodes the entry table at offset `offset`. On success the cursor
    /// stands behind the count that ends the table; on failure the source
    /// is left as it was.
    pub fn read(src: &mut ByteSource, offset: u64) -> (r: Result<Self, DecodeError>)
        ensures
            final(src).image() == old(src).image(),
            match r {
                Ok(table) => lx_entry_table_of(old(src).image(), offset as int) == Ok::<
                    (Seq<EntryBundleModel>, int),
                    DecodeError,
                >((table.bundles.deep_view(), final(src).cursor())),
                Err(e) => lx_entry_table_of(old(src).image(), offset as int) == Err::<
                    (Seq<EntryBundleModel>, int),
                    DecodeError,
                >(e),
            },
            r is Err ==> *final(src) == *old(src),
    {
        let mut cur = *src;
        cur.seek_absolute(offset)?;
        let ghost image = cur.image();
        let mut bundles: Vec<EntryBundle> = Vec::new();
        loop
            invariant_except_break
                lx_bundles_at(image, offset as int) == prepended(
                    bundles.deep_view(),
                    lx_bundles_at(image, cur.cursor()),
                ),
            invariant
                cur.image() == image,
                image == old(src).image(),
                *src == *old(src),
                offset <= image.len(),
            ensures
                lx_bundles_at(image, offset as int) == Ok::<
                    (Seq<EntryBundleModel>, int),
                    DecodeError,
                >((bundles.deep_view(), cur.cursor())),
            decreases image.len() - cur.cursor(),
        {
            let ghost before = bundles.deep_view();
            let header: u64 = cur.position();
            let count: u8 = cur.read_u8()?;
            if count == 0 {
                break ;
            }
            let bundle_type = BundleType::from(cur.read_u8()?);
            let has_object: bool = match bundle_type {
                BundleType::Unknown(_) => {
                    return Err(DecodeError { kind: ErrorKind::InvalidBundle, offset: header });
                },
                BundleType::Unused => false,
                BundleType::Forwarder => false,
                _ => true,
            };
            let object: u16 = if has_object {
                cur.read_u16()?
            } else {
                0
            };
            let size: u64 = match bundle_type {
                BundleType::Entry16 => 3 * (count as u64),
                BundleType::Entry286CallGate => 5 * (count as u64),
                BundleType::Entry32 => 5 * (count as u64),
                BundleType::Forwarder => 9 * (count as u64),
                _ => 0,
            };
            if !cur.holds(size) {
                return Err(DecodeError { kind: ErrorKind::Truncated, offset: cur.position() });
            }
            let ghost entries_at = cur.cursor();
            let mut entries: Vec<Entry> = Vec::new();
            let mut i: u8 = 0;
            while i < count
                invariant
                    i <= count,
                    cur.image() == image,
                    image == old(src).image(),
                    *src == *old(src),
                    !(bundle_type is Unknown),
                    in_bounds(image, entries_at, lx_bundle_len(count, bundle_type)),
                    cur.cursor() == entries_at + lx_bundle_len(i, bundle_type),
                    entries@ =~= Seq::new(
                        i as nat,
                        |k: int| lx_bundle_entry_at(image, entries_at, bundle_type, k),
                    ),
                decreases count - i,
            {
                let entry = match bundle_type {
                    BundleType::Entry16 => Entry::Entry16(Entry16::read(&mut cur)?),
                    BundleType::Entry286CallGate => Entry::EntryCallGate(
                        EntryCallGate::read(&mut cur)?,
                    ),
                    BundleType::Entry32 => Entry::Entry32(Entry32::read(&mut cur)?),
                    BundleType::Forwarder => Entry::EntryForwarder(
                        EntryForwarder::read(&mut cur)?,
                    ),
                    _ => Entry::Unused,
                };
                entries.push(entry);
                i = i + 1;
            }
            let bundle = EntryBundle { count, bundle_type, object, entries };
            let ghost model = bundle.deep_view();
            bundles.push(bundle);
            proof {
                assert(bundles.deep_view() =~= before + seq![model]);
                lemma_prepended_twice(before, seq![model], lx_bundles_at(image, cur.cursor()));
            }
        }
        *src = cur;
        Ok(EntryTable { bundles })
    }
}

} // verus!
