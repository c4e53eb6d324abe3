//! The module reference table: for each imported module, the offset of its
//! name in the imported names table.
use vstd::prelude::*;
use crate::error::DecodeError;
use crate::source::{in_bounds, le16_at, truncated_at, u16_le, ByteSource};

verus! {

/// The module reference table. The module with ordinal `n` is named by the
/// length-prefixed string at offset `m_offsets[n - 1]` of the imported
/// names table.
#[derive(Debug, Clone, PartialEq, Eq)]
pub struct ModuleReferencesTable {
    pub m_offsets: Vec<u16>,
}

/// The `cmod` name offsets stored from `pos` on; `Truncated` at `pos` when
/// the image does not hold them all.
pub open spec fn module_refs_of(image: Seq<u8>, pos: int, cmod: int) -> Result<
    Seq<u16>,
    DecodeError,
> {
    if !in_bounds(image, pos, 2 * cmod) {
        Err(truncated_at(pos))
    } else {
        Ok(Seq::new(cmod as nat, |i: int| le16_at(image, pos + 2 * i)))
    }
}

impl ModuleReferencesTable {
    /// A table without references.
    pub fn empty() -> (t: Self)
        ensures
            t.m_offsets@ == Seq::<u16>::empty(),
    {
        ModuleReferencesTable { m_offsets: Vec::new() }
    }

    /// Decodes the `cmod` references stored at `e_modtab`. On success the
    /// cursor stands behind the table; on failure the source is left as it
    /// was.
    pub fn read(src: &mut ByteSource, e_modtab: u64, cmod: u16) -> (r: Result<Self, DecodeError>)
        ensures
            final(src).image() == old(src).image(),
            match r {
                Ok(t) => module_refs_of(old(src).image(), e_modtab as int, cmod as int) == Ok::<
                    Seq<u16>,
                    DecodeError,
                >(t.m_offsets@) && final(src).cursor() == e_modtab + 2 * cmod,
                Err(e) => module_refs_of(old(src).image(), e_modtab as int, cmod as int) == Err::<
                    Seq<u16>,
                    DecodeError,
                >(e) && *final(src) == *old(src),
            },
    {
        let mut cur = *src;
        cur.seek_absolute(e_modtab)?;
        let b = cur.read_exact(2 * (cmod as usize))?;
        let mut references: Vec<u16> = Vec::new();
        let mut i: usize = 0;
        while i < cmod as usize
            invariant
                i <= cmod,
                b@ == old(src).image().subrange(e_modtab as int, e_modtab + 2 * cmod),
                in_bounds(old(src).image(), e_modtab as int, 2 * cmod),
                references@ =~= Seq::new(
                    i as nat,
                    |k: int| le16_at(old(src).image(), e_modtab + 2 * k),
                ),
            decreases cmod - i,
        {
            references.push(u16_le(b, 2 * i));
            i = i + 1;
        }
        *src = cur;
        Ok(ModuleReferencesTable { m_offsets: references })
    }
}

} // verus!
