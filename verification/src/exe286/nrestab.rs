//! The non-resident name table: the module description, then the exported
//! names that the loader pages in on demand.
use vstd::prelude::*;
use crate::error::DecodeError;
use crate::exe286::resntab::{name_table_of, names_at, NameModel};
use crate::exe386::nrestab::NonResidentNameEntry;
use crate::source::{lemma_prepended_twice, prepended, ByteSource};

verus! {

/// The non-resident name table.
#[derive(Debug, Clone, PartialEq, Eq)]
pub struct NonResidentNameTable {
    pub entries: Vec<NonResidentNameEntry>,
}

impl DeepView for NonResidentNameTable {
    type V = Seq<NameModel>;

    open spec fn deep_view(&self) -> Seq<NameModel> {
        self.entries.deep_view()
    }
}

impl NonResidentNameTable {
    /// A table without records.
    pub fn empty() -> (t: Self)
        ensures
            t.deep_view() == Seq::<NameModel>::empty(),
    {
        NonResidentNameTable { entries: Vec::new() }
    }

    /// Decodes the name table at offset `offset`, which counts from the
    /// start of the file. On success the cursor stands behind the
    /// terminator; on failure the source is left as it was.
    pub fn read(src: &mut ByteSource, offset: u64) -> (r: Result<Self, DecodeError>)
        ensures
            final(src).image() == old(src).image(),
            match r {
                Ok(table) => name_table_of(old(src).image(), offset as int) == Ok::<
                    (Seq<NameModel>, int),
                    DecodeError,
                >((table.deep_view(), final(src).cursor())),
                Err(e) => name_table_of(old(src).image(), offset as int) == Err::<
                    (Seq<NameModel>, int),
                    DecodeError,
                >(e),
            },
            r is Err ==> *final(src) == *old(src),
    {
        let mut cur = *src;
        cur.seek_absolute(offset)?;
        let ghost image = cur.image();
        let mut entries: Vec<NonResidentNameEntry> = Vec::new();
        loop
            invariant_except_break
                names_at(image, offset as int) == prepended(
                    entries.deep_view(),
                    names_at(image, cur.cursor()),
                ),
            invariant
                cur.image() == image,
                image == old(src).image(),
                *src == *old(src),
                cur.cursor() <= image.len(),
            ensures
                names_at(image, offset as int) == Ok::<(Seq<NameModel>, int), DecodeError>(
                    (entries.deep_view(), cur.cursor()),
                ),
            decreases image.len() - cur.cursor(),
        {
            let ghost before = entries.deep_view();
            match NonResidentNameEntry::read(&mut cur)? {
                None => {
                    break ;
                },
                Some(entry) => {
                    let ghost record = entry.deep_view();
                    entries.push(entry);
                    proof {
                        assert(entries.deep_view() =~= before + seq![record]);
                        lemma_prepended_twice(before, seq![record], names_at(image, cur.cursor()));
                    }
                },
            }
        }
        *src = cur;
        Ok(NonResidentNameTable { entries })
    }
}

} // verus!
