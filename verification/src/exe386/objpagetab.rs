//! The object page map of a Linear Executable: one record for each page of
//! the module, 8 bytes in an LX module and 4 bytes in an LE module.
use vstd::prelude::*;
use vstd::arithmetic::power2::{lemma2_to64, lemma_pow2_strictly_increases, pow2};
use vstd::bits::lemma_u64_shl_is_mul;
use vstd::slice::slice_to_vec;
use crate::error::{DecodeError, ErrorKind};
use crate::exe386::header::{LE_MAGIC, LX_MAGIC};
use crate::source::{
    implausible_at, in_bounds, le16_at, le32_at, truncated_at, u16_le, u32_le, ByteSource,
};

verus! {

/// The size of an LX page map record in bytes.
pub const LX_PAGE_SIZE: usize = 8;

/// The size of an LE page map record in bytes.
pub const LE_PAGE_SIZE: usize = 4;

/// The largest number of pages a module may declare.
pub const MAX_PAGES: u32 = 0x10_0000;

/// The largest shift that places a page.
pub const MAX_PAGE_SHIFT: u32 = 31;

/// A page map record of an LE module.
#[derive(Debug, Clone, Copy, PartialEq, Eq)]
pub struct LEObjectPageHeader {
    /// The 24-bit page number, byte by byte as stored
    pub page_number: [u8; 3],
    pub flags: u8,
}

/// A page map record of an LX module.
#[derive(Debug, Clone, Copy, PartialEq, Eq, Structural)]
pub struct LXObjectPageHeader {
    pub page_offset: u32,
    pub data_size: u16,
    pub flags: u16,
}

/// A page map record.
#[derive(Debug, Clone, Copy, PartialEq, Eq)]
pub enum ObjectPage {
    LEPageFormat(LEObjectPageHeader),
    LXPageFormat(LXObjectPageHeader),
}

/// The object page map.
#[derive(Debug, Clone, PartialEq, Eq)]
pub struct ObjectPagesTable {
    pub pages: Vec<ObjectPage>,
}

/// What the flags of a page say of it.
#[derive(Debug, Clone, Copy, PartialEq, Eq, Structural)]
pub struct PageFlags {
    /// The page lies in the file as it is
    pub is_legal_physical: bool,
    /// The page lies in the file as iterated data
    pub is_iterated: bool,
    /// The page is invalid
    pub is_invalid: bool,
    /// The page is filled with zeros
    pub is_zero_filled: bool,
    /// The page lies in the file compressed
    pub is_compressed: bool,
}

/// The data of an LX page.
#[derive(Debug, Clone, PartialEq, Eq)]
pub struct LXObjectPageData {
    pub data: Vec<u8>,
    pub flags: PageFlags,
    pub number: u32,
}

/// What an `LXObjectPageData` holds.
pub struct LXObjectPageDataModel {
    pub data: Seq<u8>,
    pub flags: PageFlags,
    pub number: u32,
}

impl DeepView for LXObjectPageData {
    type V = LXObjectPageDataModel;

    open spec fn deep_view(&self) -> LXObjectPageDataModel {
        LXObjectPageDataModel { data: self.data@, flags: self.flags, number: self.number }
    }
}

/// What the page flags `flags` say: 0 a legal physical page, 1 an iterated
/// page, 2 an invalid page, 3 a zero-filled page, 5 a compressed page.
pub open spec fn page_flags_of(flags: u16) -> PageFlags {
    PageFlags {
        is_legal_physical: flags == 0,
        is_iterated: flags == 1,
        is_invalid: flags == 2,
        is_zero_filled: flags == 3,
        is_compressed: flags == 5,
    }
}

/// The LX page map record whose 8 bytes start at `pos`.
pub open spec fn lx_page_at(image: Seq<u8>, pos: int) -> LXObjectPageHeader {
    LXObjectPageHeader {
        page_offset: le32_at(image, pos),
        data_size: le16_at(image, pos + 4),
        flags: le16_at(image, pos + 6),
    }
}

/// The LE page map record whose 4 bytes start at `pos`.
pub open spec fn le_page_at(image: Seq<u8>, pos: int) -> LEObjectPageHeader {
    LEObjectPageHeader {
        page_number: [image[pos], image[pos + 1], image[pos + 2]],
        flags: image[pos + 3],
    }
}

/// The `count` LX page map records stored from `pos` on.
pub open spec fn lx_pages_at(image: Seq<u8>, pos: int, count: int) -> Seq<ObjectPage> {
    Seq::new(count as nat, |i: int| ObjectPage::LXPageFormat(lx_page_at(image, pos + 8 * i)))
}

/// The `count` LE page map records stored from `pos` on.
pub open spec fn le_pages_at(image: Seq<u8>, pos: int, count: int) -> Seq<ObjectPage> {
    Seq::new(count as nat, |i: int| ObjectPage::LEPageFormat(le_page_at(image, pos + 4 * i)))
}

/// The page map of `count` pages stored from `pos` on, in the format that
/// the header signature `magic` calls for.
///
/// A signature that is neither "LX" nor "LE" is `BadMagic` at `pos`; more
/// than 2^20 pages are `ImplausibleCount` at `pos`; a map that the image
/// does not hold in full is `Truncated` at `pos`.
pub open spec fn object_pages_of(image: Seq<u8>, pos: int, count: int, magic: u16) -> Result<
    Seq<ObjectPage>,
    DecodeError,
> {
    if magic != LX_MAGIC && magic != LE_MAGIC {
        Err(DecodeError { kind: ErrorKind::BadMagic, offset: pos as u64 })
    } else if count > MAX_PAGES {
        Err(implausible_at(pos))
    } else if magic == LX_MAGIC {
        if !in_bounds(image, pos, 8 * count) {
            Err(truncated_at(pos))
        } else {
            Ok(lx_pages_at(image, pos, count))
        }
    } else {
        if !in_bounds(image, pos, 4 * count) {
            Err(truncated_at(pos))
        } else {
            Ok(le_pages_at(image, pos, count))
        }
    }
}

/// The data of the LX page `entry`, for the page offset shift `shift` and
/// the data pages that start at `data_pages`.
///
/// An invalid or zero-filled page has `data_size` zero bytes and takes
/// nothing from the image. Any other page has the `data_size` bytes at
/// `data_pages + (page_offset << shift)`. A shift above 31 is
/// `ImplausibleCount` at `data_pages`; data pages that start past the end
/// of the image are `Truncated` at `data_pages`; a page that the image does
/// not hold in full is `Truncated` at its first byte.
pub open spec fn page_data_of(
    image: Seq<u8>,
    entry: LXObjectPageHeader,
    shift: u32,
    data_pages: int,
) -> Result<LXObjectPageDataModel, DecodeError> {
    let flags = page_flags_of(entry.flags);
    let start = data_pages + entry.page_offset * pow2(shift as nat);
    if flags.is_zero_filled || flags.is_invalid {
        Ok(
            LXObjectPageDataModel {
                data: Seq::new(entry.data_size as nat, |i: int| 0u8),
                flags,
                number: 0,
            },
        )
    } else if shift > MAX_PAGE_SHIFT {
        Err(implausible_at(data_pages))
    } else if data_pages > image.len() {
        Err(truncated_at(data_pages))
    } else if !in_bounds(image, start, entry.data_size as int) {
        Err(truncated_at(start))
    } else {
        Ok(
            LXObjectPageDataModel {
                data: image.subrange(start, start + entry.data_size),
                flags,
                number: 0,
            },
        )
    }
}

impl PageFlags {
    /// What the page flags `flags` say.
    pub fn from(flags: u16) -> (f: Self)
        ensures
            f == page_flags_of(flags),
    {
        PageFlags {
            is_legal_physical: flags == 0,
            is_iterated: flags == 1,
            is_invalid: flags == 2,
            is_zero_filled: flags == 3,
            is_compressed: flags == 5,
        }
    }
}

impl LEObjectPageHeader {
    /// Reads an LE page map record at the cursor. On failure the source is
    /// left as it was.
    pub fn read(src: &mut ByteSource) -> (r: Result<Self, DecodeError>)
        ensures
            final(src).image() == old(src).image(),
            match r {
                Ok(page) => in_bounds(old(src).image(), old(src).cursor(), 4) && page
                    == le_page_at(old(src).image(), old(src).cursor()) && final(src).cursor()
                    == old(src).cursor() + 4,
                Err(e) => !in_bounds(old(src).image(), old(src).cursor(), 4) && e == truncated_at(
                    old(src).cursor(),
                ) && *final(src) == *old(src),
            },
    {
        let b = src.read_exact(LE_PAGE_SIZE)?;
        Ok(LEObjectPageHeader { page_number: [b[0], b[1], b[2]], flags: b[3] })
    }
}

impl LXObjectPageHeader {
    /// Reads an LX page map record at the cursor. On failure the source is
    /// left as it was.
    pub fn read(src: &mut ByteSource) -> (r: Result<Self, DecodeError>)
        ensures
            final(src).image() == old(src).image(),
            match r {
                Ok(page) => in_bounds(old(src).image(), old(src).cursor(), 8) && page
                    == lx_page_at(old(src).image(), old(src).cursor()) && final(src).cursor()
                    == old(src).cursor() + 8,
                Err(e) => !in_bounds(old(src).image(), old(src).cursor(), 8) && e == truncated_at(
                    old(src).cursor(),
                ) && *final(src) == *old(src),
            },
    {
        let b = src.read_exact(LX_PAGE_SIZE)?;
        Ok(
            LXObjectPageHeader {
                page_offset: u32_le(b, 0),
                data_size: u16_le(b, 4),
                flags: u16_le(b, 6),
            },
        )
    }

    /// Fetches the data of the page `page_entry`. The source is not moved.
    pub fn read_page_data(
        src: &ByteSource,
        page_entry: &LXObjectPageHeader,
        page_shift: u32,
        data_pages_offset: u64,
    ) -> (r: Result<LXObjectPageData, DecodeError>)
        ensures
            match r {
                Ok(page) => page_data_of(
                    src.image(),
                    *page_entry,
                    page_shift,
                    data_pages_offset as int,
                ) == Ok::<LXObjectPageDataModel, DecodeError>(page.deep_view()),
                Err(e) => page_data_of(
                    src.image(),
                    *page_entry,
                    page_shift,
                    data_pages_offset as int,
                ) == Err::<LXObjectPageDataModel, DecodeError>(e),
            },
    {
        let flags = PageFlags::from(page_entry.flags);
        if flags.is_zero_filled || flags.is_invalid {
            let mut data: Vec<u8> = Vec::new();
            let mut i: u16 = 0;
            while i < page_entry.data_size
                invariant
                    i <= page_entry.data_size,
                    data@ =~= Seq::new(i as nat, |k: int| 0u8),
                decreases page_entry.data_size - i,
            {
                data.push(0);
                i = i + 1;
            }
            return Ok(LXObjectPageData { data, flags, number: 0 });
        }
        if page_shift > MAX_PAGE_SHIFT {
            return Err(
                DecodeError { kind: ErrorKind::ImplausibleCount, offset: data_pages_offset },
            );
        }
        if data_pages_offset > src.length() {
            return Err(DecodeError { kind: ErrorKind::Truncated, offset: data_pages_offset });
        }
        proof {
            lemma_page_start_bound(page_entry.page_offset, page_shift);
            lemma_u64_shl_is_mul(page_entry.page_offset as u64, page_shift as u64);
        }
        let actual_offset: u64 = data_pages_offset + ((page_entry.page_offset as u64)
            << (page_shift as u64));
        let mut cur = *src;
        cur.seek_absolute(actual_offset)?;
        let bytes = cur.read_exact(page_entry.data_size as usize)?;
        Ok(LXObjectPageData { data: slice_to_vec(bytes), flags, number: 0 })
    }
}

/// A page offset shifted by at most 31 bits stays below 2^63.
pub proof fn lemma_page_start_bound(page_offset: u32, shift: u32)
    requires
        shift <= MAX_PAGE_SHIFT,
    ensures
        0 <= page_offset * pow2(shift as nat) < 0x8000_0000_0000_0000,
{
    lemma2_to64();
    if shift < 31 {
        lemma_pow2_strictly_increases(shift as nat, 31);
    }
    let p = pow2(shift as nat) as int;
    let b = page_offset as int;
    assert(0 <= b * p < 0x8000_0000_0000_0000) by (nonlinear_arith)
        requires
            0 <= b <= 0xFFFF_FFFF,
            0 <= p <= 0x8000_0000,
    ;
}

impl ObjectPagesTable {
    /// A page map without records.
    pub fn empty() -> (t: Self)
        ensures
            t.pages@ == Seq::<ObjectPage>::empty(),
    {
        ObjectPagesTable { pages: Vec::new() }
    }

    /// Decodes the page map of `pages_count` pages stored at `objmap`, in
    /// the format that the header signature `magic` calls for. On success
    /// the cursor stands behind the map; on failure the source is left as
    /// it was.
    pub fn read(src: &mut ByteSource, objmap: u64, pages_count: u32, magic: u16) -> (r: Result<
        Self,
        DecodeError,
    >)
        ensures
            final(src).image() == old(src).image(),
            match r {
                Ok(t) => object_pages_of(
                    old(src).image(),
                    objmap as int,
                    pages_count as int,
                    magic,
                ) == Ok::<Seq<ObjectPage>, DecodeError>(t.pages@) && final(src).cursor() == if magic
                    == LX_MAGIC {
                    objmap + 8 * pages_count
                } else {
                    objmap + 4 * pages_count
                },
                Err(e) => object_pages_of(
                    old(src).image(),
                    objmap as int,
                    pages_count as int,
                    magic,
                ) == Err::<Seq<ObjectPage>, DecodeError>(e) && *final(src) == *old(src),
            },
    {
        if magic != LX_MAGIC && magic != LE_MAGIC {
            return Err(DecodeError { kind: ErrorKind::BadMagic, offset: objmap });
        }
        if pages_count > MAX_PAGES {
            return Err(DecodeError { kind: ErrorKind::ImplausibleCount, offset: objmap });
        }
        let mut cur = *src;
        cur.seek_absolute(objmap)?;
        let mut pages: Vec<ObjectPage> = Vec::new();
        if magic == LX_MAGIC {
            Self::fill_lx_pages(&mut cur, &mut pages, pages_count)?;
        } else {
            Self::fill_le_pages(&mut cur, &mut pages, pages_count)?;
        }
        *src = cur;
        Ok(ObjectPagesTable { pages })
    }

    /// Appends to `pages` the `pages_count` LX records at the cursor. On
    /// failure `pages` and the source are left as they were.
    pub fn fill_lx_pages(src: &mut ByteSource, pages: &mut Vec<ObjectPage>, pages_count: u32) -> (r:
        Result<(), DecodeError>)
        ensures
            final(src).image() == old(src).image(),
            match r {
                Ok(()) => in_bounds(old(src).image(), old(src).cursor(), 8 * pages_count)
                    && final(pages)@ == old(pages)@ + lx_pages_at(
                    old(src).image(),
                    old(src).cursor(),
                    pages_count as int,
                ) && final(src).cursor() == old(src).cursor() + 8 * pages_count,
                Err(e) => {
                    &&& !in_bounds(old(src).image(), old(src).cursor(), 8 * pages_count)
                    &&& e == truncated_at(old(src).cursor())
                    &&& final(pages)@ == old(pages)@
                    &&& *final(src) == *old(src)
                },
            },
    {
        if !src.holds(8 * (pages_count as u64)) {
            return Err(DecodeError { kind: ErrorKind::Truncated, offset: src.position() });
        }
        let ghost image = src.image();
        let ghost start = src.cursor();
        let ghost before = pages@;
        let mut i: u32 = 0;
        while i < pages_count
            invariant
                i <= pages_count,
                src.image() == image,
                src.cursor() == start + 8 * i,
                in_bounds(image, start, 8 * pages_count),
                pages@ =~= before + lx_pages_at(image, start, i as int),
            decreases pages_count - i,
        {
            let entry = LXObjectPageHeader::read(src)?;
            pages.push(ObjectPage::LXPageFormat(entry));
            i = i + 1;
        }
        Ok(())
    }

    /// Appends to `pages` the `pages_count` LE records at the cursor. On
    /// failure `pages` and the source are left as they were.
    pub fn fill_le_pages(src: &mut ByteSource, pages: &mut Vec<ObjectPage>, pages_count: u32) -> (r:
        Result<(), DecodeError>)
        ensures
            final(src).image() == old(src).image(),
            match r {
                Ok(()) => in_bounds(old(src).image(), old(src).cursor(), 4 * pages_count)
                    && final(pages)@ == old(pages)@ + le_pages_at(
                    old(src).image(),
                    old(src).cursor(),
                    pages_count as int,
                ) && final(src).cursor() == old(src).cursor() + 4 * pages_count,
                Err(e) => {
                    &&& !in_bounds(old(src).image(), old(src).cursor(), 4 * pages_count)
                    &&& e == truncated_at(old(src).cursor())
                    &&& final(pages)@ == old(pages)@
                    &&& *final(src) == *old(src)
                },
            },
    {
        if !src.holds(4 * (pages_count as u64)) {
            return Err(DecodeError { kind: ErrorKind::Truncated, offset: src.position() });
        }
        let ghost image = src.image();
        let ghost start = src.cursor();
        let ghost before = pages@;
        let mut i: u32 = 0;
        while i < pages_count
            invariant
                i <= pages_count,
                src.image() == image,
                src.cursor() == start + 4 * i,
                in_bounds(image, start, 4 * pages_count),
                pages@ =~= before + le_pages_at(image, start, i as int),
            decreases pages_count - i,
        {
            let entry = LEObjectPageHeader::read(src)?;
            pages.push(ObjectPage::LEPageFormat(entry));
            i = i + 1;
        }
        Ok(())
    }
}

} // verus!
