//! A record of the non-resident name table.
use vstd::prelude::*;
use crate::error::DecodeError;
use crate::exe286::resntab::{name_record_at, read_name_record, NameModel};
use crate::source::ByteSource;
use crate::types::PascalString;

verus! {

/// A record of the non-resident name table: an exported name that is paged
/// in only when needed, and the ordinal of its entry point.
#[derive(Debug, Clone, PartialEq, Eq)]
pub struct NonResidentNameEntry {
    pub name: PascalString,
    pub ordinal: u16,
}

impl DeepView for NonResidentNameEntry {
    type V = NameModel;

    open spec fn deep_view(&self) -> NameModel {
        NameModel { name: self.name.deep_view(), ordinal: self.ordinal }
    }
}

impl NonResidentNameEntry {
    /// Reads the record at the cursor; `None` where it is the terminator.
    /// On failure the source is left as it was.
    pub fn read(src: &mut ByteSource) -> (r: Result<Option<Self>, DecodeError>)
        ensures
            final(src).image() == old(src).image(),
            match r {
                Ok(entry) => name_record_at(old(src).image(), old(src).cursor()) == Ok::<
                    (Option<NameModel>, int),
                    DecodeError,
                >((entry.deep_view(), final(src).cursor())),
                Err(e) => name_record_at(old(src).image(), old(src).cursor()) == Err::<
                    (Option<NameModel>, int),
                    DecodeError,
                >(e) && *final(src) == *old(src),
            },
    {
        match read_name_record(src)? {
            None => Ok(None),
            Some((name, ordinal)) => Ok(Some(NonResidentNameEntry { name, ordinal })),
        }
    }
}

} // verus!
