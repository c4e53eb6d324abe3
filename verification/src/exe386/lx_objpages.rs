//! The page map of an LX module on its own, with the kinds of page its
//! flags tell apart.
use vstd::prelude::*;
use crate::error::{DecodeError, ErrorKind};
use crate::exe386::objpagetab::MAX_PAGES;
use crate::source::{
    implausible_at, in_bounds, le16_at, le32_at, truncated_at, u16_le, u32_le, ByteSource,
};

verus! {

/// A page map record of an LX module.
#[derive(Debug, Clone, Copy, PartialEq, Eq, Structural)]
pub struct LXPage {
    pub page_offset: u32,
    pub page_data_size: u16,
    pub page_flags: u16,
}

/// The kinds of page, as the page flags number them from 0.
#[derive(Debug, Clone, Copy, PartialEq, Eq, Structural)]
pub enum LXPageFlag {
    /// A legal physical page; its offset counts from the preload pages
    Legal,
    /// An iterated data page; its offset counts from the iterated pages
    Iterated,
    /// An invalid page
    Invalid,
    /// A page filled with zeros
    Zeroed,
    /// Unused
    Unused,
    /// A compressed page; its offset counts from the preload pages
    Compressed,
}

/// The page map of an LX module.
#[derive(Debug, Clone, PartialEq, Eq)]
pub struct LXObjectPageTable {
    pages: Vec<LXPage>,
}

/// The page map record whose 8 bytes start at `pos`.
pub open spec fn lx_map_record_at(image: Seq<u8>, pos: int) -> LXPage {
    LXPage {
        page_offset: le32_at(image, pos),
        page_data_size: le16_at(image, pos + 4),
        page_flags: le16_at(image, pos + 6),
    }
}

/// The `count` page map records stored from `pos` on. More than 2^20
/// pages are `ImplausibleCount` at `pos`; a map that the image does not
/// hold in full is `Truncated` at `pos`.
pub open spec fn lx_page_map_of(image: Seq<u8>, pos: int, count: int) -> Result<
    Seq<LXPage>,
    DecodeError,
> {
    if count > MAX_PAGES {
        Err(implausible_at(pos))
    } else if !in_bounds(image, pos, 8 * count) {
        Err(truncated_at(pos))
    } else {
        Ok(Seq::new(count as nat, |i: int| lx_map_record_at(image, pos + 8 * i)))
    }
}

/// The kind of page that the flags `flags` name; none for flags above 5.
pub open spec fn page_kind_of(flags: u16) -> Option<LXPageFlag> {
    if flags == 0 {
        Some(LXPageFlag::Legal)
    } else if flags == 1 {
        Some(LXPageFlag::Iterated)
    } else if flags == 2 {
        Some(LXPageFlag::Invalid)
    } else if flags == 3 {
        Some(LXPageFlag::Zeroed)
    } else if flags == 4 {
        Some(LXPageFlag::Unused)
    } else if flags == 5 {
        Some(LXPageFlag::Compressed)
    } else {
        None
    }
}

impl LXPage {
    /// The kind of the page.
    pub fn kind(&self) -> (k: Option<LXPageFlag>)
        ensures
            k == page_kind_of(self.page_flags),
    {
        match self.page_flags {
            0 => Some(LXPageFlag::Legal),
            1 => Some(LXPageFlag::Iterated),
            2 => Some(LXPageFlag::Invalid),
            3 => Some(LXPageFlag::Zeroed),
            4 => Some(LXPageFlag::Unused),
            5 => Some(LXPageFlag::Compressed),
            _ => None,
        }
    }
}

impl LXObjectPageTable {
    /// The records of the map.
    pub closed spec fn view(&self) -> Seq<LXPage> {
        self.pages@
    }

    /// Reads the page map of `pages` pages at the cursor. On success the
    /// cursor stands behind the map; on failure the source is left as it
    /// was.
    pub fn new(src: &mut ByteSource, pages: u32) -> (r: Result<LXObjectPageTable, DecodeError>)
        ensures
            final(src).image() == old(src).image(),
            match r {
                Ok(t) => lx_page_map_of(old(src).image(), old(src).cursor(), pages as int) == Ok::<
                    Seq<LXPage>,
                    DecodeError,
                >(t@) && final(src).cursor() == old(src).cursor() + 8 * pages,
                Err(e) => lx_page_map_of(old(src).image(), old(src).cursor(), pages as int)
                    == Err::<Seq<LXPage>, DecodeError>(e) && *final(src) == *old(src),
            },
    {
        let start: u64 = src.position();
        if pages > MAX_PAGES {
            return Err(DecodeError { kind: ErrorKind::ImplausibleCount, offset: start });
        }
        let mut cur = *src;
        let b = cur.read_exact(8 * (pages as usize))?;
        let ghost image = old(src).image();
        let mut list: Vec<LXPage> = Vec::new();
        let mut i: usize = 0;
        while i < pages as usize
            invariant
                i <= pages <= MAX_PAGES,
                b@ == image.subrange(start as int, start + 8 * pages),
                in_bounds(image, start as int, 8 * pages),
                list@ =~= Seq::new(i as nat, |k: int| lx_map_record_at(image, start + 8 * k)),
            decreases pages - i,
        {
            list.push(
                LXPage {
                    page_offset: u32_le(b, 8 * i),
                    page_data_size: u16_le(b, 8 * i + 4),
                    page_flags: u16_le(b, 8 * i + 6),
                },
            );
            i = i + 1;
        }
        *src = cur;
        Ok(LXObjectPageTable { pages: list })
    }

    /// The records of the map, in file order.
    pub fn pages(&self) -> (list: &Vec<LXPage>)
        ensures
            list@ == self@,
    {
        &self.pages
    }
}

} // verus!
