//! The relocation table of a DOS executable.
use vstd::prelude::*;
use crate::error::DecodeError;
use crate::source::{in_bounds, le16_at, truncated_at, u16_le, ByteSource};

verus! {

/// A real-mode far pointer as the relocation table stores it.
#[derive(Debug, Clone, Copy, PartialEq, Eq, Structural)]
pub struct FarPointer {
    pub segment: u16,
    pub offset: u16,
}

/// The relocation entries of a DOS executable, in file order.
#[derive(Debug, Clone, PartialEq, Eq)]
pub struct MzRelocationTable {
    pub relocations: Vec<FarPointer>,
}

/// The far pointer whose 4 bytes start at `pos`.
pub open spec fn far_pointer_at(image: Seq<u8>, pos: int) -> FarPointer {
    FarPointer { segment: le16_at(image, pos), offset: le16_at(image, pos + 2) }
}

/// The `count` far pointers stored from `pos` on; `Truncated` at `pos`
/// when the image does not hold them all.
pub open spec fn far_pointers_at(image: Seq<u8>, pos: int, count: int) -> Result<
    Seq<FarPointer>,
    DecodeError,
> {
    if !in_bounds(image, pos, 4 * count) {
        Err(truncated_at(pos))
    } else {
        Ok(Seq::new(count as nat, |i: int| far_pointer_at(image, pos + 4 * i)))
    }
}

impl MzRelocationTable {
    /// Decodes the `count` relocation entries stored at `offset`. On
    /// success the cursor stands behind the table; on failure the source is
    /// left as it was.
    pub fn read(src: &mut ByteSource, offset: u16, count: u16) -> (r: Result<Self, DecodeError>)
        ensures
            final(src).image() == old(src).image(),
            match r {
                Ok(t) => far_pointers_at(old(src).image(), offset as int, count as int) == Ok::<
                    Seq<FarPointer>,
                    DecodeError,
                >(t.relocations@) && final(src).cursor() == offset + 4 * count,
                Err(e) => far_pointers_at(old(src).image(), offset as int, count as int) == Err::<
                    Seq<FarPointer>,
                    DecodeError,
                >(e) && *final(src) == *old(src),
            },
    {
        let mut cur = *src;
        cur.seek_absolute(offset as u64)?;
        let b = cur.read_exact(4 * (count as usize))?;
        let mut relocations: Vec<FarPointer> = Vec::new();
        let mut i: usize = 0;
        while i < count as usize
            invariant
                i <= count,
                b@ == old(src).image().subrange(offset as int, offset + 4 * count),
                in_bounds(old(src).image(), offset as int, 4 * count),
                relocations@ =~= Seq::new(
                    i as nat,
                    |k: int| far_pointer_at(old(src).image(), offset + 4 * k),
                ),
            decreases count - i,
        {
            relocations.push(
                FarPointer { segment: u16_le(b, 4 * i), offset: u16_le(b, 4 * i + 2) },
            );
            i = i + 1;
        }
        *src = cur;
        Ok(MzRelocationTable { relocations })
    }
}

} // verus!
