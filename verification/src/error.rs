//! The failure taxonomy shared by every decoder.
use vstd::prelude::*;

verus! {

/// What went wrong in a decode call.
#[derive(Clone, Copy, Debug, PartialEq, Eq, Structural)]
pub enum ErrorKind {
    /// A read or a seek went past the end of the image.
    Truncated,
    /// The two bytes at the seek position are not the expected container tag.
    BadMagic,
    /// A linear header declares a byte or word order other than little-endian.
    BadByteOrder,
    /// An entry bundle overruns the table that declares it.
    InvalidBundle,
    /// A fixup record carries a target the format does not define.
    InvalidFixup,
    /// An import record names a module outside the import module table.
    InvalidModuleOrdinal,
    /// A header asks for more records than the decoder is willing to hold.
    ImplausibleCount,
    /// The image is none of MZ, NE, LE or LX.
    UnknownContainer,
}

/// A decode failure: its kind and the byte offset in the image it refers to.
#[derive(Clone, Copy, Debug, PartialEq, Eq, Structural)]
pub struct DecodeError {
    pub kind: ErrorKind,
    pub offset: u64,
}

} // verus!
