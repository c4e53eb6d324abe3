//! The fixup page table of a Linear Executable: for each page of the
//! module, the offset of its first fixup record in the fixup record table.
use vstd::prelude::*;
use crate::error::{DecodeError, ErrorKind};
use crate::exe386::frectab::FixupRecord;
use crate::exe386::header::LinearExecutableHeader;
use crate::exe386::objpagetab::MAX_PAGES;
use crate::source::{implausible_at, in_bounds, le32_at, truncated_at, u32_le, ByteSource};

verus! {

/// The fixup page table. The records of page `i` lie from
/// `page_offsets[i]` up to `page_offsets[i + 1]`, those of the last page up
/// to `end_of_fixup_records`.
#[derive(Debug, Clone, PartialEq, Eq)]
pub struct FixupPageTable {
    pub page_offsets: Vec<u32>,
    pub end_of_fixup_records: u32,
}

/// The fixup records of one page.
#[derive(Debug, Clone, PartialEq, Eq)]
pub struct FixupRecordTable {
    pub records: Vec<FixupRecord>,
}

/// What a `FixupPageTable` holds.
pub struct FixupPageModel {
    pub page_offsets: Seq<u32>,
    pub end_of_fixup_records: u32,
}

impl DeepView for FixupPageTable {
    type V = FixupPageModel;

    open spec fn deep_view(&self) -> FixupPageModel {
        FixupPageModel {
            page_offsets: self.page_offsets@,
            end_of_fixup_records: self.end_of_fixup_records,
        }
    }
}

/// Where the records of page `page` end: at the offset of the next page,
/// or at `end_marker` for the last page.
pub open spec fn page_end(index: Seq<u32>, end_marker: u32, page: int) -> u32 {
    if page + 1 < index.len() {
        index[page + 1]
    } else {
        end_marker
    }
}

/// Whether the records of no page end before they start: the page offsets
/// never descend, up to and including the end marker.
pub open spec fn page_index_ascends(pages: FixupPageModel) -> bool {
    forall|i: int|
        0 <= i < pages.page_offsets.len() ==> #[trigger] pages.page_offsets[i] <= page_end(
            pages.page_offsets,
            pages.end_of_fixup_records,
            i,
        )
}

/// The `count` offsets of the page index stored from `pos` on.
pub open spec fn page_index_at(image: Seq<u8>, pos: int, count: int) -> Seq<u32> {
    Seq::new(count as nat, |i: int| le32_at(image, pos + 4 * i))
}

/// The index of the first offset of `index`, behind `from`, that is
/// smaller than the offset before it; `None` where `index` never descends
/// from `from` on.
pub open spec fn first_descent(index: Seq<u32>, from: int) -> Option<int>
    decreases index.len() - from,
{
    if from < 0 || from + 1 >= index.len() {
        None
    } else if index[from] > index[from + 1] {
        Some(from + 1)
    } else {
        first_descent(index, from + 1)
    }
}

/// The error of a fixup structure at `pos` that the format does not allow.
pub open spec fn invalid_fixup_at(pos: int) -> DecodeError {
    DecodeError { kind: ErrorKind::InvalidFixup, offset: pos as u64 }
}

/// The fixup page table of the module with header `h`, stored at `pos`:
/// one offset for each of the `e32_mpages` pages and the end marker.
///
/// A module whose header has no fixup page table pointer has an empty
/// table. More than 2^20 pages are `ImplausibleCount` at `pos`; a table
/// that the image does not hold in full is `Truncated` at `pos`; an offset
/// that is smaller than the one before it is `InvalidFixup` where it is
/// stored.
pub open spec fn fixup_pages_of(image: Seq<u8>, pos: int, h: LinearExecutableHeader) -> Result<
    FixupPageModel,
    DecodeError,
> {
    let index = page_index_at(image, pos, h.e32_mpages + 1);
    if h.e32_fpagetab == 0 {
        Ok(FixupPageModel { page_offsets: Seq::empty(), end_of_fixup_records: 0 })
    } else if h.e32_mpages > MAX_PAGES {
        Err(implausible_at(pos))
    } else if !in_bounds(image, pos, 4 * (h.e32_mpages + 1)) {
        Err(truncated_at(pos))
    } else {
        match first_descent(index, 0) {
            Some(i) => Err(invalid_fixup_at(pos + 4 * i)),
            None => Ok(
                FixupPageModel {
                    page_offsets: index.take(h.e32_mpages as int),
                    end_of_fixup_records: index[h.e32_mpages as int],
                },
            ),
        }
    }
}

/// The offsets of a decoded fixup page table never descend, up to and
/// including the end marker.
pub proof fn lemma_page_index_ascends(index: Seq<u32>, from: int, i: int)
    requires
        first_descent(index, from) is None,
        0 <= from <= i,
        i + 1 < index.len(),
    ensures
        index[i] <= index[i + 1],
    decreases i - from,
{
    if from < i {
        lemma_page_index_ascends(index, from + 1, i);
    }
}

impl FixupPageTable {
    /// A table without pages.
    pub fn empty() -> (t: Self)
        ensures
            t.deep_view() == (FixupPageModel {
                page_offsets: Seq::empty(),
                end_of_fixup_records: 0,
            }),
    {
        FixupPageTable { page_offsets: Vec::new(), end_of_fixup_records: 0 }
    }

    /// Decodes the fixup page table of the module with header `header`,
    /// stored at `fpagetab`. On success with a table the cursor stands
    /// behind it; else the source is left as it was.
    ///
    /// In a table that comes back the records of no page end before they
    /// start.
    pub fn read(src: &mut ByteSource, fpagetab: u64, header: &LinearExecutableHeader) -> (r: Result<
        Self,
        DecodeError,
    >)
        ensures
            final(src).image() == old(src).image(),
            match r {
                Ok(t) => fixup_pages_of(old(src).image(), fpagetab as int, *header) == Ok::<
                    FixupPageModel,
                    DecodeError,
                >(t.deep_view()),
                Err(e) => fixup_pages_of(old(src).image(), fpagetab as int, *header) == Err::<
                    FixupPageModel,
                    DecodeError,
                >(e) && *final(src) == *old(src),
            },
            r is Ok && header.e32_fpagetab != 0 ==> final(src).cursor() == fpagetab + 4 * (
            header.e32_mpages + 1),
            r is Ok && header.e32_fpagetab == 0 ==> *final(src) == *old(src),
            r matches Ok(t) ==> page_index_ascends(t.deep_view()),
    {
        if header.e32_fpagetab == 0 {
            return Ok(FixupPageTable::empty());
        }
        if header.e32_mpages > MAX_PAGES {
            return Err(DecodeError { kind: ErrorKind::ImplausibleCount, offset: fpagetab });
        }
        let mut cur = *src;
        cur.seek_absolute(fpagetab)?;
        let count: usize = header.e32_mpages as usize;
        let b = cur.read_exact(4 * (count + 1))?;
        let ghost image = old(src).image();
        let ghost index = page_index_at(image, fpagetab as int, count + 1);
        let mut page_offsets: Vec<u32> = Vec::new();
        let mut i: usize = 0;
        while i < count
            invariant
                i <= count <= MAX_PAGES,
                count == header.e32_mpages,
                b@ == image.subrange(fpagetab as int, fpagetab + 4 * (count + 1)),
                in_bounds(image, fpagetab as int, 4 * (count + 1)),
                fpagetab <= image.len() <= crate::source::MAX_IMAGE_LEN,
                index == page_index_at(image, fpagetab as int, count + 1),
                first_descent(index, 0) == first_descent(index, i as int),
                page_offsets@ =~= index.take(i as int),
                image == old(src).image(),
                *src == *old(src),
                header.e32_fpagetab != 0,
            decreases count - i,
        {
            let offset: u32 = u32_le(b, 4 * i);
            let next: u32 = u32_le(b, 4 * (i + 1));
            if offset > next {
                return Err(
                    DecodeError {
                        kind: ErrorKind::InvalidFixup,
                        offset: fpagetab + 4 * ((i + 1) as u64),
                    },
                );
            }
            page_offsets.push(offset);
            i = i + 1;
        }
        let end_of_fixup_records: u32 = u32_le(b, 4 * count);
        *src = cur;
        let table = FixupPageTable { page_offsets, end_of_fixup_records };
        proof {
            assert forall|k: int| 0 <= k < count implies #[trigger] table.page_offsets@[k]
                <= page_end(table.page_offsets@, end_of_fixup_records, k) by {
                lemma_page_index_ascends(index, 0, k);
            }
        }
        Ok(table)
    }
}

} // verus!
