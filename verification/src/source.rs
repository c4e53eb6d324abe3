//! The byte source every decoder reads from, and the primitive codec:
//! little-endian integers at a position of an image.
use vstd::prelude::*;
use vstd::slice::slice_subrange;
use crate::error::{DecodeError, ErrorKind};

verus! {

/// The bytes `[pos, pos + n)` all lie inside `image`.
pub open spec fn in_bounds(image: Seq<u8>, pos: int, n: int) -> bool {
    0 <= pos && 0 <= n && pos + n <= image.len()
}

/// The unsigned 16-bit little-endian integer stored at `pos`.
pub open spec fn le16_at(image: Seq<u8>, pos: int) -> u16 {
    (image[pos] as int + 256 * (image[pos + 1] as int)) as u16
}

/// The unsigned 32-bit little-endian integer stored at `pos`.
pub open spec fn le32_at(image: Seq<u8>, pos: int) -> u32 {
    (image[pos] as int + 256 * (image[pos + 1] as int) + 65536 * (image[pos + 2] as int)
        + 16777216 * (image[pos + 3] as int)) as u32
}

/// The two bytes that store `v` in little-endian order.
pub open spec fn le16_bytes(v: u16) -> Seq<u8> {
    seq![(v % 256) as u8, (v / 256) as u8]
}

/// The four bytes that store `v` in little-endian order.
pub open spec fn le32_bytes(v: u32) -> Seq<u8> {
    seq![
        (v % 256) as u8,
        (v / 256 % 256) as u8,
        (v / 65536 % 256) as u8,
        (v / 16777216) as u8,
    ]
}

/// The error of a table at `pos` that is declared larger than any the
/// decoders accept.
pub open spec fn implausible_at(pos: int) -> DecodeError {
    DecodeError { kind: ErrorKind::ImplausibleCount, offset: pos as u64 }
}

/// The error of a read or seek that would leave the image at `pos`.
pub open spec fn truncated_at(pos: int) -> DecodeError {
    DecodeError { kind: ErrorKind::Truncated, offset: pos as u64 }
}

/// The outcome of seeking to `off` and then decoding there: `Truncated` at
/// `off` when `off` lies past the end of the image, else `then`.
pub open spec fn sought<T>(image: Seq<u8>, off: int, then: Result<T, DecodeError>) -> Result<
    T,
    DecodeError,
> {
    if off > image.len() {
        Err(truncated_at(off))
    } else {
        then
    }
}

/// `head`, followed by the records that `tail` decoded; the failure of
/// `tail` where it failed.
pub open spec fn prepended<T>(head: Seq<T>, tail: Result<(Seq<T>, int), DecodeError>) -> Result<
    (Seq<T>, int),
    DecodeError,
> {
    match tail {
        Ok((rest, end)) => Ok((head + rest, end)),
        Err(e) => Err(e),
    }
}

/// `head`, followed by the records that `tail` found; the failure of `tail`
/// where it failed.
pub open spec fn joined<T>(head: Seq<T>, tail: Result<Seq<T>, DecodeError>) -> Result<
    Seq<T>,
    DecodeError,
> {
    match tail {
        Ok(rest) => Ok(head + rest),
        Err(e) => Err(e),
    }
}

/// Prepending records in two steps is prepending them all at once.
pub proof fn lemma_prepended_twice<T>(
    first: Seq<T>,
    second: Seq<T>,
    tail: Result<(Seq<T>, int), DecodeError>,
)
    ensures
        prepended(first, prepended(second, tail)) == prepended(first + second, tail),
{
    if tail is Ok {
        assert(first + (second + tail->Ok_0.0) =~= (first + second) + tail->Ok_0.0);
    }
}

/// Joining records in two steps is joining them all at once.
pub proof fn lemma_joined_twice<T>(first: Seq<T>, second: Seq<T>, tail: Result<Seq<T>, DecodeError>)
    ensures
        joined(first, joined(second, tail)) == joined(first + second, tail),
{
    if tail is Ok {
        assert(first + (second + tail->Ok_0) =~= (first + second) + tail->Ok_0);
    }
}

/// Where the table lies that a header at `base` points to with the
/// relative pointer `p`: nowhere when `p` is 0, which says that the module
/// has no such table; else at `base + p`, which must lie inside the image
/// and is `Truncated` when it does not.
pub open spec fn located(image: Seq<u8>, base: int, p: int) -> Result<Option<int>, DecodeError> {
    if p == 0 {
        Ok(None)
    } else if base + p >= image.len() {
        Err(truncated_at(base + p))
    } else {
        Ok(Some(base + p))
    }
}

/// `image` without what lies at offset `end` and behind it: what a
/// decoder sees that must not read past `end`.
pub open spec fn clipped(image: Seq<u8>, end: int) -> Seq<u8> {
    if 0 <= end < image.len() {
        image.take(end)
    } else {
        image
    }
}

/// Decodes the little-endian `u16` at index `i` of `bytes`.
pub fn u16_le(bytes: &[u8], i: usize) -> (v: u16)
    requires
        in_bounds(bytes@, i as int, 2),
    ensures
        v == le16_at(bytes@, i as int),
{
    let lo: u16 = bytes[i] as u16;
    let hi: u16 = bytes[i + 1] as u16;
    lo + hi * 256
}

/// Decodes the little-endian `u32` at index `i` of `bytes`.
pub fn u32_le(bytes: &[u8], i: usize) -> (v: u32)
    requires
        in_bounds(bytes@, i as int, 4),
    ensures
        v == le32_at(bytes@, i as int),
{
    let b0: u32 = bytes[i] as u32;
    let b1: u32 = bytes[i + 1] as u32;
    let b2: u32 = bytes[i + 2] as u32;
    let b3: u32 = bytes[i + 3] as u32;
    b0 + b1 * 256 + b2 * 65536 + b3 * 16777216
}

/// Appends the little-endian encoding of `v` to `out`.
pub fn push_u16_le(out: &mut Vec<u8>, v: u16)
    ensures
        final(out)@ == old(out)@ + le16_bytes(v),
{
    out.push((v % 256) as u8);
    out.push((v / 256) as u8);
}

/// Appends the little-endian encoding of `v` to `out`.
pub fn push_u32_le(out: &mut Vec<u8>, v: u32)
    ensures
        final(out)@ == old(out)@ + le32_bytes(v),
{
    out.push((v % 256) as u8);
    out.push((v / 256 % 256) as u8);
    out.push((v / 65536 % 256) as u8);
    out.push((v / 16777216) as u8);
}

/// Encoding a decoded `u16` gives back the two bytes it was decoded from.
pub proof fn lemma_le16_round_trip(image: Seq<u8>, pos: int)
    requires
        in_bounds(image, pos, 2),
    ensures
        le16_bytes(le16_at(image, pos)) == image.subrange(pos, pos + 2),
{
}

/// Encoding a decoded `u32` gives back the four bytes it was decoded from.
pub proof fn lemma_le32_round_trip(image: Seq<u8>, pos: int)
    requires
        in_bounds(image, pos, 4),
    ensures
        le32_bytes(le32_at(image, pos)) == image.subrange(pos, pos + 4),
{
    let a = image[pos] as int;
    let b = image[pos + 1] as int;
    let c = image[pos + 2] as int;
    let d = image[pos + 3] as int;
    let v = a + 256 * b + 65536 * c + 16777216 * d;
    assert(v % 256 == a && v / 256 % 256 == b && v / 65536 % 256 == c && v / 16777216 == d)
        by (nonlinear_arith)
        requires
            0 <= a < 256,
            0 <= b < 256,
            0 <= c < 256,
            0 <= d < 256,
            v == a + 256 * b + 65536 * c + 16777216 * d,
    ;
}

/// The largest image a source can hold: no slice of bytes is longer.
pub const MAX_IMAGE_LEN: u64 = 0x7fff_ffff_ffff_ffff;

/// A bounded, seekable, read-exact stream over a file image held in memory.
///
/// A read or seek that fails leaves the source exactly as it was.
#[derive(Clone, Copy, Debug)]
pub struct ByteSource<'a> {
    data: &'a [u8],
    pos: usize,
}

impl<'a> ByteSource<'a> {
    #[verifier::type_invariant]
    spec fn cursor_inside(self) -> bool {
        self.pos <= self.data@.len() <= MAX_IMAGE_LEN
    }

    /// The whole image, from file offset 0.
    pub closed spec fn image(&self) -> Seq<u8> {
        self.data@
    }

    /// The offset of the next byte to be read.
    pub closed spec fn cursor(&self) -> int {
        self.pos as int
    }

    /// A source over `data`, positioned at offset 0. The length of `data`
    /// is at most `MAX_IMAGE_LEN`, as that of every slice of bytes is.
    pub fn new(data: &'a [u8]) -> (s: Self)
        requires
            data@.len() <= MAX_IMAGE_LEN,
        ensures
            s.image() == data@,
            s.cursor() == 0,
    {
        ByteSource { data, pos: 0 }
    }

    /// The length of the image in bytes.
    pub fn length(&self) -> (n: u64)
        ensures
            n == self.image().len(),
            n <= MAX_IMAGE_LEN,
    {
        proof {
            use_type_invariant(self);
        }
        self.data.len() as u64
    }

    /// The current offset, which never lies past the end of the image.
    pub fn position(&self) -> (p: u64)
        ensures
            p == self.cursor(),
            p <= self.image().len() <= MAX_IMAGE_LEN,
    {
        proof {
            use_type_invariant(self);
        }
        self.pos as u64
    }

    /// Resolves the relative pointer `p` of a header at `base`.
    pub fn locate(&self, base: u32, p: u32) -> (r: Result<Option<u64>, DecodeError>)
        ensures
            match r {
                Ok(Some(offset)) => located(self.image(), base as int, p as int) == Ok::<
                    Option<int>,
                    DecodeError,
                >(Some(offset as int)),
                Ok(None) => located(self.image(), base as int, p as int) == Ok::<
                    Option<int>,
                    DecodeError,
                >(None),
                Err(e) => located(self.image(), base as int, p as int) == Err::<
                    Option<int>,
                    DecodeError,
                >(e),
            },
    {
        if p == 0 {
            return Ok(None);
        }
        let offset: u64 = base as u64 + p as u64;
        if offset >= self.length() {
            return Err(DecodeError { kind: ErrorKind::Truncated, offset });
        }
        Ok(Some(offset))
    }

    /// A source over the part of the image that lies before offset `end`,
    /// positioned at offset 0. A read through it fails where it would go
    /// past `end`.
    pub fn window(&self, end: u64) -> (w: ByteSource<'a>)
        ensures
            w.image() == clipped(self.image(), end as int),
            w.cursor() == 0,
    {
        proof {
            use_type_invariant(self);
        }
        if end < self.data.len() as u64 {
            ByteSource { data: slice_subrange(self.data, 0, end as usize), pos: 0 }
        } else {
            ByteSource { data: self.data, pos: 0 }
        }
    }

    /// Whether `n` more bytes can be read at the cursor.
    pub fn holds(&self, n: u64) -> (yes: bool)
        ensures
            yes == in_bounds(self.image(), self.cursor(), n as int),
    {
        proof {
            use_type_invariant(&*self);
        }
        n <= (self.data.len() - self.pos) as u64
    }

    /// Moves the cursor to `off`. Seeking past the end of the image fails
    /// with `Truncated` at `off`; seeking to the end itself is allowed.
    pub fn seek_absolute(&mut self, off: u64) -> (r: Result<(), DecodeError>)
        ensures
            final(self).image() == old(self).image(),
            old(self).image().len() <= MAX_IMAGE_LEN,
            off <= old(self).image().len() ==> r is Ok && final(self).cursor() == off,
            off > old(self).image().len() ==> r == Err::<(), DecodeError>(truncated_at(off as int))
                && *final(self) == *old(self),
    {
        proof {
            use_type_invariant(&*self);
        }
        if off > self.data.len() as u64 {
            return Err(DecodeError { kind: ErrorKind::Truncated, offset: off });
        }
        self.pos = off as usize;
        Ok(())
    }

    /// Reads exactly `n` bytes at the cursor and advances past them. A short
    /// read fails with `Truncated` at the cursor.
    pub fn read_exact(&mut self, n: usize) -> (r: Result<&'a [u8], DecodeError>)
        ensures
            final(self).image() == old(self).image(),
            match r {
                Ok(bytes) => in_bounds(old(self).image(), old(self).cursor(), n as int)
                    && bytes@ == old(self).image().subrange(
                    old(self).cursor(),
                    old(self).cursor() + n,
                ) && final(self).cursor() == old(self).cursor() + n,
                Err(e) => !in_bounds(old(self).image(), old(self).cursor(), n as int)
                    && e == truncated_at(old(self).cursor()) && *final(self) == *old(self),
            },
    {
        proof {
            use_type_invariant(&*self);
        }
        if n > self.data.len() - self.pos {
            return Err(DecodeError { kind: ErrorKind::Truncated, offset: self.pos as u64 });
        }
        let bytes = slice_subrange(self.data, self.pos, self.pos + n);
        self.pos = self.pos + n;
        Ok(bytes)
    }

    /// Reads one byte.
    pub fn read_u8(&mut self) -> (r: Result<u8, DecodeError>)
        ensures
            final(self).image() == old(self).image(),
            match r {
                Ok(v) => in_bounds(old(self).image(), old(self).cursor(), 1)
                    && v == old(self).image()[old(self).cursor()]
                    && final(self).cursor() == old(self).cursor() + 1,
                Err(e) => !in_bounds(old(self).image(), old(self).cursor(), 1)
                    && e == truncated_at(old(self).cursor()) && *final(self) == *old(self),
            },
    {
        let bytes = self.read_exact(1)?;
        Ok(bytes[0])
    }

    /// Reads a little-endian `u16`.
    pub fn read_u16(&mut self) -> (r: Result<u16, DecodeError>)
        ensures
            final(self).image() == old(self).image(),
            match r {
                Ok(v) => in_bounds(old(self).image(), old(self).cursor(), 2)
                    && v == le16_at(old(self).image(), old(self).cursor())
                    && final(self).cursor() == old(self).cursor() + 2,
                Err(e) => !in_bounds(old(self).image(), old(self).cursor(), 2)
                    && e == truncated_at(old(self).cursor()) && *final(self) == *old(self),
            },
    {
        let bytes = self.read_exact(2)?;
        Ok(u16_le(bytes, 0))
    }

    /// Reads a little-endian `u32`.
    pub fn read_u32(&mut self) -> (r: Result<u32, DecodeError>)
        ensures
            final(self).image() == old(self).image(),
            match r {
                Ok(v) => in_bounds(old(self).image(), old(self).cursor(), 4)
                    && v == le32_at(old(self).image(), old(self).cursor())
                    && final(self).cursor() == old(self).cursor() + 4,
                Err(e) => !in_bounds(old(self).image(), old(self).cursor(), 4)
                    && e == truncated_at(old(self).cursor()) && *final(self) == *old(self),
            },
    {
        let bytes = self.read_exact(4)?;
        Ok(u32_le(bytes, 0))
    }
}

} // verus!
