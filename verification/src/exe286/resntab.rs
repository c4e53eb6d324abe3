//! The resident name table: the module name, then the exported names that
//! stay in memory, each with the ordinal of its entry point.
use vstd::prelude::*;
use crate::error::DecodeError;
use crate::source::{
    in_bounds, le16_at, lemma_prepended_twice, prepended, sought, truncated_at, ByteSource,
};
use crate::types::{len_string_at, PascalString};

verus! {

/// What a record of a name table holds: a name and an ordinal.
pub struct NameModel {
    pub name: Seq<u8>,
    pub ordinal: u16,
}

/// A record of the resident name table.
#[derive(Debug, Clone, PartialEq, Eq)]
pub struct ResidentNameEntry {
    pub name: PascalString,
    pub ordinal: u16,
}

/// The resident name table. Its first record names the module itself.
#[derive(Debug, Clone, PartialEq, Eq)]
pub struct ResidentNameTable {
    pub entries: Vec<ResidentNameEntry>,
}

impl DeepView for ResidentNameEntry {
    type V = NameModel;

    open spec fn deep_view(&self) -> NameModel {
        NameModel { name: self.name.deep_view(), ordinal: self.ordinal }
    }
}

impl DeepView for ResidentNameTable {
    type V = Seq<NameModel>;

    open spec fn deep_view(&self) -> Seq<NameModel> {
        self.entries.deep_view()
    }
}

/// The name record stored at `pos` and the offset behind it. A name of
/// length 0 ends its table: it yields no record and has no ordinal.
///
/// A name that does not fit in the image fails as `len_string_at` says; a
/// missing ordinal is `Truncated` where the ordinal starts.
pub open spec fn name_record_at(image: Seq<u8>, pos: int) -> Result<
    (Option<NameModel>, int),
    DecodeError,
> {
    match len_string_at(image, pos) {
        Err(e) => Err(e),
        Ok((name, next)) => if name.len() == 0 {
            Ok((None, next))
        } else if !in_bounds(image, next, 2) {
            Err(truncated_at(next))
        } else {
            Ok((Some(NameModel { name, ordinal: le16_at(image, next) }), next + 2))
        },
    }
}

/// The records of the name table that starts at `pos`, up to its
/// terminator, and the offset behind the terminator.
pub open spec fn names_at(image: Seq<u8>, pos: int) -> Result<(Seq<NameModel>, int), DecodeError>
    decreases image.len() - pos,
{
    match name_record_at(image, pos) {
        Err(e) => Err(e),
        Ok((None, next)) => Ok((Seq::empty(), next)),
        Ok((Some(record), next)) => prepended(seq![record], names_at(image, next)),
    }
}

/// The outcome of decoding the name table at offset `off`.
pub open spec fn name_table_of(image: Seq<u8>, off: int) -> Result<
    (Seq<NameModel>, int),
    DecodeError,
> {
    sought(image, off, names_at(image, off))
}

/// Reads a name and, unless the name is empty, the ordinal behind it. On
/// failure the source is left as it was.
pub fn read_name_record(src: &mut ByteSource) -> (r: Result<
    Option<(PascalString, u16)>,
    DecodeError,
>)
    ensures
        final(src).image() == old(src).image(),
        match r {
            Ok(None) => name_record_at(old(src).image(), old(src).cursor()) == Ok::<
                (Option<NameModel>, int),
                DecodeError,
            >((None, final(src).cursor())),
            Ok(Some((name, ordinal))) => name_record_at(old(src).image(), old(src).cursor())
                == Ok::<(Option<NameModel>, int), DecodeError>(
                (Some(NameModel { name: name.deep_view(), ordinal }), final(src).cursor()),
            ),
            Err(e) => name_record_at(old(src).image(), old(src).cursor()) == Err::<
                (Option<NameModel>, int),
                DecodeError,
            >(e) && *final(src) == *old(src),
        },
{
    let mut cur = *src;
    let name = PascalString::read(&mut cur)?;
    if name.len() == 0 {
        *src = cur;
        return Ok(None);
    }
    let ordinal = cur.read_u16()?;
    *src = cur;
    Ok(Some((name, ordinal)))
}

impl ResidentNameEntry {
    /// Reads the record at the cursor; `None` where it is the terminator.
    /// On failure the source is left as it was.
    pub fn read(src: &mut ByteSource) -> (r: Result<Option<Self>, DecodeError>)
        ensures
            final(src).image() == old(src).image(),
            match r {
                Ok(entry) => name_record_at(old(src).image(), old(src).cursor()) == Ok::<
                    (Option<NameModel>, int),
                    DecodeError,
                >((entry.deep_view(), final(src).cursor())),
                Err(e) => name_record_at(old(src).image(), old(src).cursor()) == Err::<
                    (Option<NameModel>, int),
                    DecodeError,
                >(e) && *final(src) == *old(src),
            },
    {
        match read_name_record(src)? {
            None => Ok(None),
            Some((name, ordinal)) => Ok(Some(ResidentNameEntry { name, ordinal })),
        }
    }
}

impl ResidentNameTable {
    /// A table without records.
    pub fn empty() -> (t: Self)
        ensures
            t.deep_view() == Seq::<NameModel>::empty(),
    {
        ResidentNameTable { entries: Vec::new() }
    }

    /// Decodes the name table at offset `offset`. On success the cursor
    /// stands behind the terminator; on failure the source is left as it
    /// was.
    pub fn read(src: &mut ByteSource, offset: u64) -> (r: Result<Self, DecodeError>)
        ensures
            final(src).image() == old(src).image(),
            match r {
                Ok(table) => name_table_of(old(src).image(), offset as int) == Ok::<
                    (Seq<NameModel>, int),
                    DecodeError,
                >((table.deep_view(), final(src).cursor())),
                Err(e) => name_table_of(old(src).image(), offset as int) == Err::<
                    (Seq<NameModel>, int),
                    DecodeError,
                >(e),
            },
            r is Err ==> *final(src) == *old(src),
    {
        let mut cur = *src;
        cur.seek_absolute(offset)?;
        let ghost image = cur.image();
        let mut entries: Vec<ResidentNameEntry> = Vec::new();
        loop
            invariant_except_break
                names_at(image, offset as int) == prepended(
                    entries.deep_view(),
                    names_at(image, cur.cursor()),
                ),
            invariant
                cur.image() == image,
                image == old(src).image(),
                *src == *old(src),
                cur.cursor() <= image.len(),
            ensures
                names_at(image, offset as int) == Ok::<(Seq<NameModel>, int), DecodeError>(
                    (entries.deep_view(), cur.cursor()),
                ),
            decreases image.len() - cur.cursor(),
        {
            let ghost before = entries.deep_view();
            match ResidentNameEntry::read(&mut cur)? {
                None => {
                    break ;
                },
                Some(entry) => {
                    let ghost record = entry.deep_view();
                    entries.push(entry);
                    proof {
                        assert(entries.deep_view() =~= before + seq![record]);
                        lemma_prepended_twice(before, seq![record], names_at(image, cur.cursor()));
                    }
                },
            }
        }
        *src = cur;
        Ok(ResidentNameTable { entries })
    }
}

} // verus!
