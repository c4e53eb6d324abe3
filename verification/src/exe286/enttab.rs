//! The entry table of a New Executable: bundles of entry points, numbered
//! across the bundles by ordinals that start at 1.
use vstd::prelude::*;
use crate::error::{DecodeError, ErrorKind};
use crate::source::{
    in_bounds, le16_at, lemma_prepended_twice, prepended, sought, truncated_at, u16_le, ByteSource,
};

verus! {

/// The segment byte of a bundle of unused ordinals.
pub const BUNDLE_UNUSED: u8 = 0x00;

/// The segment byte of a bundle of moveable entries.
pub const BUNDLE_MOVEABLE: u8 = 0xFF;

/// An entry point in a fixed segment.
#[derive(Debug, Clone, Copy, PartialEq, Eq, Structural)]
pub struct FixedEntry {
    pub segment: u8,
    pub flags: u8,
    pub offset: u16,
}

/// An entry point in a moveable segment, reached through an `INT 3Fh`
/// thunk.
#[derive(Debug, Clone, Copy, PartialEq, Eq)]
pub struct MoveableEntry {
    pub flags: u8,
    pub magic: [u8; 2],
    pub segment: u8,
    pub offset: u16,
}

/// One ordinal of the entry table.
#[derive(Debug, Clone, Copy, PartialEq, Eq)]
pub enum Entry {
    Unused,
    Fixed(FixedEntry),
    Moveable(MoveableEntry),
}

/// The entry points of a module. The entry at index `i` has ordinal `i + 1`.
#[derive(Debug, Clone, PartialEq, Eq)]
pub struct EntryTable {
    pub entries: Vec<Entry>,
}

/// The fixed entry whose 3 bytes start at `pos`, in segment `segment`.
pub open spec fn fixed_entry_at(image: Seq<u8>, pos: int, segment: u8) -> FixedEntry {
    FixedEntry { segment, flags: image[pos], offset: le16_at(image, pos + 1) }
}

/// The moveable entry whose 6 bytes start at `pos`.
pub open spec fn moveable_entry_at(image: Seq<u8>, pos: int) -> MoveableEntry {
    MoveableEntry {
        flags: image[pos],
        magic: [image[pos + 1], image[pos + 2]],
        segment: image[pos + 3],
        offset: le16_at(image, pos + 4),
    }
}

/// The number of bytes that follow the header of a bundle of `count`
/// entries with segment byte `seg_id`.
pub open spec fn bundle_len(count: u8, seg_id: u8) -> int {
    if seg_id == BUNDLE_UNUSED {
        0
    } else if seg_id == BUNDLE_MOVEABLE {
        6 * count
    } else {
        3 * count
    }
}

/// The `i`-th entry of the bundle with segment byte `seg_id` whose entries
/// start at `pos`.
pub open spec fn bundle_entry_at(image: Seq<u8>, pos: int, seg_id: u8, i: int) -> Entry {
    if seg_id == BUNDLE_UNUSED {
        Entry::Unused
    } else if seg_id == BUNDLE_MOVEABLE {
        Entry::Moveable(moveable_entry_at(image, pos + 6 * i))
    } else {
        Entry::Fixed(fixed_entry_at(image, pos + 3 * i, seg_id))
    }
}

/// The entries of the bundle with header `(count, seg_id)` whose entries
/// start at `pos`.
pub open spec fn bundle_entries_at(image: Seq<u8>, pos: int, count: u8, seg_id: u8) -> Seq<Entry> {
    Seq::new(count as nat, |i: int| bundle_entry_at(image, pos, seg_id, i))
}

/// The error of a bundle, with its header at `pos`, that overruns its table.
pub open spec fn invalid_bundle_at(pos: int) -> DecodeError {
    DecodeError { kind: ErrorKind::InvalidBundle, offset: pos as u64 }
}

/// The entries of the table that starts at `pos` and is declared
/// `remaining` bytes long, and the offset at which decoding stops.
///
/// The table ends where `remaining` is used up or where a bundle has
/// count 0, whichever comes first. A bundle whose header or entries do not
/// fit in `remaining` is `InvalidBundle` at its header; a read past the end
/// of the image is `Truncated` where that read starts.
pub open spec fn ne_entries_at(image: Seq<u8>, pos: int, remaining: int) -> Result<
    (Seq<Entry>, int),
    DecodeError,
>
    decreases remaining,
{
    if remaining <= 0 {
        Ok((Seq::empty(), pos))
    } else if !in_bounds(image, pos, 1) {
        Err(truncated_at(pos))
    } else if image[pos] == 0 {
        Ok((Seq::empty(), pos + 1))
    } else if remaining < 2 {
        Err(invalid_bundle_at(pos))
    } else if !in_bounds(image, pos + 1, 1) {
        Err(truncated_at(pos + 1))
    } else if bundle_len(image[pos], image[pos + 1]) > remaining - 2 {
        Err(invalid_bundle_at(pos))
    } else if !in_bounds(image, pos + 2, bundle_len(image[pos], image[pos + 1])) {
        Err(truncated_at(pos + 2))
    } else {
        prepended(
            bundle_entries_at(image, pos + 2, image[pos], image[pos + 1]),
            ne_entries_at(
                image,
                pos + 2 + bundle_len(image[pos], image[pos + 1]),
                remaining - 2 - bundle_len(image[pos], image[pos + 1]),
            ),
        )
    }
}

/// The outcome of decoding the entry table of declared length `cb` at
/// offset `off`.
pub open spec fn ne_entry_table_of(image: Seq<u8>, off: int, cb: int) -> Result<
    (Seq<Entry>, int),
    DecodeError,
> {
    sought(image, off, ne_entries_at(image, off, cb))
}

/// The counts of the bundles that `ne_entries_at` walks through, in order.
pub open spec fn ne_bundle_counts_at(image: Seq<u8>, pos: int, remaining: int) -> Seq<int>
    decreases remaining,
{
    if remaining < 2 || !in_bounds(image, pos, 2) || image[pos] == 0 || bundle_len(
        image[pos],
        image[pos + 1],
    ) > remaining - 2 {
        Seq::empty()
    } else {
        seq![image[pos] as int] + ne_bundle_counts_at(
            image,
            pos + 2 + bundle_len(image[pos], image[pos + 1]),
            remaining - 2 - bundle_len(image[pos], image[pos + 1]),
        )
    }
}

/// The sum of `counts`.
pub open spec fn total_of(counts: Seq<int>) -> int
    decreases counts.len(),
{
    if counts.len() == 0 {
        0
    } else {
        counts[0] + total_of(counts.subrange(1, counts.len() as int))
    }
}

/// The ordinal of the entry at `index` of an entry table.
pub open spec fn ordinal_of(index: int) -> int {
    index + 1
}

/// A decoded entry table holds one entry for each ordinal that its bundles
/// declare, unused ones included: the number of entries is the sum of the
/// bundle counts, and that sum is the ordinal of the last entry.
pub proof fn lemma_entries_match_bundle_counts(image: Seq<u8>, pos: int, remaining: int)
    requires
        ne_entries_at(image, pos, remaining) is Ok,
    ensures
        ne_entries_at(image, pos, remaining)->Ok_0.0.len() == total_of(
            ne_bundle_counts_at(image, pos, remaining),
        ),
        ne_entries_at(image, pos, remaining)->Ok_0.0.len() > 0 ==> ordinal_of(
            ne_entries_at(image, pos, remaining)->Ok_0.0.len() - 1,
        ) == total_of(ne_bundle_counts_at(image, pos, remaining)),
    decreases remaining,
{
    if remaining <= 0 || image[pos] == 0 {
    } else {
        let len = bundle_len(image[pos], image[pos + 1]);
        lemma_entries_match_bundle_counts(image, pos + 2 + len, remaining - 2 - len);
        let counts = ne_bundle_counts_at(image, pos, remaining);
        assert(counts.subrange(1, counts.len() as int) =~= ne_bundle_counts_at(
            image,
            pos + 2 + len,
            remaining - 2 - len,
        ));
    }
}

impl FixedEntry {
    /// Reads a fixed entry of segment `segment` at the cursor. On failure
    /// the source is left as it was.
    pub fn read(src: &mut ByteSource, segment: u8) -> (r: Result<Self, DecodeError>)
        ensures
            final(src).image() == old(src).image(),
            match r {
                Ok(entry) => in_bounds(old(src).image(), old(src).cursor(), 3) && entry
                    == fixed_entry_at(old(src).image(), old(src).cursor(), segment)
                    && final(src).cursor() == old(src).cursor() + 3,
                Err(e) => !in_bounds(old(src).image(), old(src).cursor(), 3) && e == truncated_at(
                    old(src).cursor(),
                ) && *final(src) == *old(src),
            },
    {
        let b = src.read_exact(3)?;
        Ok(FixedEntry { segment, flags: b[0], offset: u16_le(b, 1) })
    }
}

impl MoveableEntry {
    /// Reads a moveable entry at the cursor. On failure the source is left
    /// as it was.
    pub fn read(src: &mut ByteSource) -> (r: Result<Self, DecodeError>)
        ensures
            final(src).image() == old(src).image(),
            match r {
                Ok(entry) => in_bounds(old(src).image(), old(src).cursor(), 6) && entry
                    == moveable_entry_at(old(src).image(), old(src).cursor())
                    && final(src).cursor() == old(src).cursor() + 6,
                Err(e) => !in_bounds(old(src).image(), old(src).cursor(), 6) && e == truncated_at(
                    old(src).cursor(),
                ) && *final(src) == *old(src),
            },
    {
        let b = src.read_exact(6)?;
        Ok(MoveableEntry { flags: b[0], magic: [b[1], b[2]], segment: b[3], offset: u16_le(b, 4) })
    }

    /// Whether the entry carries the `INT 3Fh` bytes of a loader thunk. An
    /// entry without them is unusual, not an error.
    pub fn has_thunk_magic(&self) -> (yes: bool)
        ensures
            yes == (self.magic[0] == 0xCD && self.magic[1] == 0x3F),
    {
        self.magic[0] == 0xCD && self.magic[1] == 0x3F
    }
}

impl EntryTable {
    /// A table without entries.
    pub fn empty() -> (t: Self)
        ensures
            t.entries@ == Seq::<Entry>::empty(),
    {
        EntryTable { entries: Vec::new() }
    }

    /// Decodes the entry table of declared length `cb_ent_tab` at offset
    /// `e_enttab`. On success the cursor stands where decoding stopped; on
    /// failure the source is left as it was.
    ///
    /// The table that comes back has one entry for each ordinal that its
    /// bundles declare.
    pub fn read(src: &mut ByteSource, e_enttab: u64, cb_ent_tab: u16) -> (r: Result<
        Self,
        DecodeError,
    >)
        ensures
            final(src).image() == old(src).image(),
            match r {
                Ok(table) => ne_entry_table_of(old(src).image(), e_enttab as int, cb_ent_tab as int)
                    == Ok::<(Seq<Entry>, int), DecodeError>(
                    (table.entries@, final(src).cursor()),
                ),
                Err(e) => ne_entry_table_of(old(src).image(), e_enttab as int, cb_ent_tab as int)
                    == Err::<(Seq<Entry>, int), DecodeError>(e),
            },
            r is Err ==> *final(src) == *old(src),
            r matches Ok(table) ==> table.entries@.len() == total_of(
                ne_bundle_counts_at(old(src).image(), e_enttab as int, cb_ent_tab as int),
            ),
    {
        let mut cur = *src;
        cur.seek_absolute(e_enttab)?;
        let ghost image = cur.image();
        let mut entries: Vec<Entry> = Vec::new();
        let mut remaining: u16 = cb_ent_tab;
        while remaining > 0
            invariant_except_break
                ne_entries_at(image, e_enttab as int, cb_ent_tab as int) == prepended(
                    entries@,
                    ne_entries_at(image, cur.cursor(), remaining as int),
                ),
            invariant
                cur.image() == image,
                image == old(src).image(),
                *src == *old(src),
            ensures
                ne_entries_at(image, e_enttab as int, cb_ent_tab as int) == Ok::<
                    (Seq<Entry>, int),
                    DecodeError,
                >((entries@, cur.cursor())),
            decreases remaining,
        {
            let ghost before = entries@;
            let header: u64 = cur.position();
            let count: u8 = cur.read_u8()?;
            if count == 0 {
                break ;
            }
            if remaining < 2 {
                return Err(DecodeError { kind: ErrorKind::InvalidBundle, offset: header });
            }
            let seg_id: u8 = cur.read_u8()?;
            remaining = remaining - 2;
            let size: u16 = if seg_id == BUNDLE_UNUSED {
                0
            } else if seg_id == BUNDLE_MOVEABLE {
                6 * (count as u16)
            } else {
                3 * (count as u16)
            };
            if size > remaining {
                return Err(DecodeError { kind: ErrorKind::InvalidBundle, offset: header });
            }
            if !cur.holds(size as u64) {
                return Err(DecodeError { kind: ErrorKind::Truncated, offset: cur.position() });
            }
            remaining = remaining - size;
            let ghost payload = cur.cursor();
            let mut i: u8 = 0;
            while i < count
                invariant
                    i <= count,
                    cur.image() == image,
                    image == old(src).image(),
                    *src == *old(src),
                    in_bounds(image, payload, bundle_len(count, seg_id)),
                    seg_id == BUNDLE_UNUSED ==> cur.cursor() == payload,
                    seg_id == BUNDLE_MOVEABLE ==> cur.cursor() == payload + 6 * i,
                    seg_id != BUNDLE_UNUSED && seg_id != BUNDLE_MOVEABLE ==> cur.cursor()
                        == payload + 3 * i,
                    entries@ =~= before + Seq::new(
                        i as nat,
                        |k: int| bundle_entry_at(image, payload, seg_id, k),
                    ),
                decreases count - i,
            {
                let entry = if seg_id == BUNDLE_UNUSED {
                    Entry::Unused
                } else if seg_id == BUNDLE_MOVEABLE {
                    Entry::Moveable(MoveableEntry::read(&mut cur)?)
                } else {
                    Entry::Fixed(FixedEntry::read(&mut cur, seg_id)?)
                };
                entries.push(entry);
                i = i + 1;
            }
            proof {
                let bundle = bundle_entries_at(image, payload, count, seg_id);
                lemma_prepended_twice(
                    before,
                    bundle,
                    ne_entries_at(image, cur.cursor(), remaining as int),
                );
            }
        }
        proof {
            lemma_entries_match_bundle_counts(image, e_enttab as int, cb_ent_tab as int);
        }
        *src = cur;
        Ok(EntryTable { entries })
    }

    /// The entry with ordinal `ordinal`, where the table has one. Ordinals
    /// start at 1 and run across the bundles, unused ones included.
    pub fn entry_at_ordinal(&self, ordinal: u32) -> (e: Option<Entry>)
        ensures
            e == if 1 <= ordinal <= self.entries@.len() {
                Some(self.entries@[ordinal - 1])
            } else {
                None
            },
    {
        if ordinal >= 1 && (ordinal as usize) <= self.entries.len() {
            Some(self.entries[(ordinal - 1) as usize])
        } else {
            None
        }
    }
}

} // verus!
