//! Types shared by the NE and LE/LX decoders.
use vstd::prelude::*;
use vstd::slice::slice_to_vec;
use crate::error::DecodeError;
use crate::source::{in_bounds, truncated_at, ByteSource};

pub mod procedure;

verus! {

/// What `String::from_utf8_lossy` makes of a byte string.
pub uninterp spec fn utf8_lossy(bytes: Seq<u8>) -> Seq<char>;

/// The length-prefixed string stored at `pos`: its bytes, without the
/// length byte, and the offset of the byte that follows it.
///
/// A missing length byte is `Truncated` at `pos`; a string cut short is
/// `Truncated` at its first byte, `pos + 1`.
pub open spec fn len_string_at(image: Seq<u8>, pos: int) -> Result<(Seq<u8>, int), DecodeError> {
    if !in_bounds(image, pos, 1) {
        Err(truncated_at(pos))
    } else if !in_bounds(image, pos + 1, image[pos] as int) {
        Err(truncated_at(pos + 1))
    } else {
        Ok((image.subrange(pos + 1, pos + 1 + image[pos] as int), pos + 1 + image[pos] as int))
    }
}

/// A length-prefixed ASCII string: one length byte, then that many bytes,
/// no terminator. The bytes are kept as they are; no decoding is attempted.
#[derive(Debug, PartialEq, Eq)]
pub struct PascalString {
    length: u8,
    string: Vec<u8>,
}

impl DeepView for PascalString {
    type V = Seq<u8>;

    closed spec fn deep_view(&self) -> Seq<u8> {
        self.string@
    }
}

impl Clone for PascalString {
    fn clone(&self) -> (r: Self)
        ensures
            r.deep_view() == self.deep_view(),
    {
        proof {
            use_type_invariant(self);
        }
        PascalString { length: self.length, string: slice_to_vec(self.string.as_slice()) }
    }
}

impl PascalString {
    #[verifier::type_invariant]
    spec fn length_matches(self) -> bool {
        self.length as int == self.string@.len()
    }

    /// The string of length 0. Allocates nothing.
    pub fn empty() -> (s: Self)
        ensures
            s.deep_view() == Seq::<u8>::empty(),
    {
        PascalString { length: 0, string: Vec::new() }
    }

    /// The string with length byte `len` and contents `bytes`.
    pub fn new(len: u8, bytes: Vec<u8>) -> (s: Self)
        requires
            len as int == bytes@.len(),
        ensures
            s.deep_view() == bytes@,
    {
        PascalString { length: len, string: bytes }
    }

    /// The value of the length byte.
    pub fn len(&self) -> (n: u8)
        ensures
            n as int == self.deep_view().len(),
    {
        proof {
            use_type_invariant(self);
        }
        self.length
    }

    /// The contents, without the length byte.
    pub fn to_bytes(&self) -> (b: &[u8])
        ensures
            b@ == self.deep_view(),
    {
        self.string.as_slice()
    }

    /// The contents as text, with every malformed UTF-8 sequence replaced
    /// by U+FFFD.
    pub fn to_string(&self) -> (s: String)
        ensures
            s@ == utf8_lossy(self.deep_view()),
    {
        lossy_text(self.string.as_slice())
    }

    /// Reads a length-prefixed string at the cursor. On failure the source
    /// is left as it was.
    pub fn read(src: &mut ByteSource) -> (r: Result<Self, DecodeError>)
        ensures
            final(src).image() == old(src).image(),
            match r {
                Ok(s) => len_string_at(old(src).image(), old(src).cursor()) == Ok::<
                    (Seq<u8>, int),
                    DecodeError,
                >((s.deep_view(), final(src).cursor())),
                Err(e) => len_string_at(old(src).image(), old(src).cursor()) == Err::<
                    (Seq<u8>, int),
                    DecodeError,
                >(e) && *final(src) == *old(src),
            },
    {
        let mut cur = *src;
        let len = cur.read_u8()?;
        if len == 0 {
            *src = cur;
            assert(old(src).image().subrange(old(src).cursor() + 1, old(src).cursor() + 1)
                =~= Seq::<u8>::empty());
            return Ok(PascalString::empty());
        }
        let bytes = cur.read_exact(len as usize)?;
        *src = cur;
        Ok(PascalString::new(len, slice_to_vec(bytes)))
    }
}

/// `String::from_utf8_lossy`: the text of `bytes`, which is a function of
/// the bytes alone.
#[verifier::external_body]
fn lossy_text(bytes: &[u8]) -> (s: String)
    ensures
        s@ == utf8_lossy(bytes@),
{
    String::from_utf8_lossy(bytes).into_owned()
}

} // verus!
