//! The real-mode DOS executable: the 64-byte MZ header that opens every
//! image with a DOS stub, and the link it holds to the header that follows.
use vstd::prelude::*;
use crate::error::{DecodeError, ErrorKind};
use crate::exe::reltab::{far_pointers_at, MzRelocationTable};
use crate::source::{
    in_bounds, le16_at, le16_bytes, le32_at, le32_bytes, lemma_le16_round_trip,
    lemma_le32_round_trip, push_u16_le, push_u32_le, truncated_at, u16_le, u32_le, ByteSource,
    MAX_IMAGE_LEN,
};

pub mod reltab;

verus! {

/// "MZ", read as a little-endian word.
pub const E_MAGIC: u16 = 0x5a4d;

/// "ZM", the byte-swapped signature some linkers wrote.
pub const E_CIGAM: u16 = 0x4d5a;

/// Where linkers that know of a following header put the relocation table.
pub const E_LFARLC: u16 = 0x40;

/// The size of the MZ header in bytes.
pub const MZ_HEADER_SIZE: usize = 64;

/// Mark Zbikowski's header of DOS programs.
#[derive(Debug, Clone, Copy, PartialEq, Eq)]
pub struct MzHeader {
    /// Signature
    pub e_magic: u16,
    /// Bytes on last page of file
    pub e_cblp: u16,
    /// Pages in file
    pub e_cp: u16,
    /// Relocations
    pub e_crlc: u16,
    /// Size of header in paragraphs
    pub e_cparhdr: u16,
    /// Minimum extra paragraphs needed
    pub e_minalloc: u16,
    /// Maximum extra paragraphs needed
    pub e_maxalloc: u16,
    /// Initial (relative) SS value
    pub e_ss: u16,
    /// Initial SP value
    pub e_sp: u16,
    /// Checksum
    pub e_crc: u16,
    /// Initial IP value
    pub e_ip: u16,
    /// Initial (relative) CS value
    pub e_cs: u16,
    /// File address of relocation table
    pub e_lfarlc: u16,
    /// Overlay number
    pub e_ovno: u16,
    /// Reserved words
    pub e_res: [u16; 4],
    /// OEM identifier (for e_oeminfo)
    pub e_oemid: u16,
    /// OEM information; e_oemid specific
    pub e_oeminfo: u16,
    /// Reserved words
    pub e_res2: [u16; 10],
    /// Offset of the header that follows; 0 when there is none
    pub e_lfanew: u32,
}

/// Whether `magic` is one of the two accepted MZ signatures.
pub open spec fn mz_magic_ok(magic: u16) -> bool {
    magic == E_MAGIC || magic == E_CIGAM
}

/// The header whose 64 bytes start at `pos`, field by field.
pub open spec fn mz_header_at(image: Seq<u8>, pos: int) -> MzHeader {
    MzHeader {
        e_magic: le16_at(image, pos),
        e_cblp: le16_at(image, pos + 2),
        e_cp: le16_at(image, pos + 4),
        e_crlc: le16_at(image, pos + 6),
        e_cparhdr: le16_at(image, pos + 8),
        e_minalloc: le16_at(image, pos + 10),
        e_maxalloc: le16_at(image, pos + 12),
        e_ss: le16_at(image, pos + 14),
        e_sp: le16_at(image, pos + 16),
        e_crc: le16_at(image, pos + 18),
        e_ip: le16_at(image, pos + 20),
        e_cs: le16_at(image, pos + 22),
        e_lfarlc: le16_at(image, pos + 24),
        e_ovno: le16_at(image, pos + 26),
        e_res: [
            le16_at(image, pos + 28),
            le16_at(image, pos + 30),
            le16_at(image, pos + 32),
            le16_at(image, pos + 34),
        ],
        e_oemid: le16_at(image, pos + 36),
        e_oeminfo: le16_at(image, pos + 38),
        e_res2: [
            le16_at(image, pos + 40),
            le16_at(image, pos + 42),
            le16_at(image, pos + 44),
            le16_at(image, pos + 46),
            le16_at(image, pos + 48),
            le16_at(image, pos + 50),
            le16_at(image, pos + 52),
            le16_at(image, pos + 54),
            le16_at(image, pos + 56),
            le16_at(image, pos + 58),
        ],
        e_lfanew: le32_at(image, pos + 60),
    }
}

/// The outcome of decoding the MZ header of `image`: `Truncated` when the
/// image is shorter than the header, `BadMagic` when the signature is not
/// an MZ one, both at offset 0.
pub open spec fn mz_header_of(image: Seq<u8>) -> Result<MzHeader, DecodeError> {
    if !in_bounds(image, 0, 64) {
        Err(truncated_at(0))
    } else if !mz_magic_ok(le16_at(image, 0)) {
        Err(DecodeError { kind: ErrorKind::BadMagic, offset: 0 })
    } else {
        Ok(mz_header_at(image, 0))
    }
}

/// The 64 bytes that store `h`.
pub open spec fn mz_header_bytes(h: MzHeader) -> Seq<u8> {
    le16_bytes(h.e_magic) + le16_bytes(h.e_cblp) + le16_bytes(h.e_cp) + le16_bytes(h.e_crlc)
        + le16_bytes(h.e_cparhdr) + le16_bytes(h.e_minalloc) + le16_bytes(h.e_maxalloc)
        + le16_bytes(h.e_ss) + le16_bytes(h.e_sp) + le16_bytes(h.e_crc) + le16_bytes(h.e_ip)
        + le16_bytes(h.e_cs) + le16_bytes(h.e_lfarlc) + le16_bytes(h.e_ovno) + le16_bytes(
        h.e_res[0],
    ) + le16_bytes(h.e_res[1]) + le16_bytes(h.e_res[2]) + le16_bytes(h.e_res[3]) + le16_bytes(
        h.e_oemid,
    ) + le16_bytes(h.e_oeminfo) + le16_bytes(h.e_res2[0]) + le16_bytes(h.e_res2[1]) + le16_bytes(
        h.e_res2[2],
    ) + le16_bytes(h.e_res2[3]) + le16_bytes(h.e_res2[4]) + le16_bytes(h.e_res2[5]) + le16_bytes(
        h.e_res2[6],
    ) + le16_bytes(h.e_res2[7]) + le16_bytes(h.e_res2[8]) + le16_bytes(h.e_res2[9]) + le32_bytes(
        h.e_lfanew,
    )
}

/// The `i`-th 16-bit word of `bytes`; a last odd byte counts as the low
/// byte of a word whose high byte is 0.
pub open spec fn word_of(bytes: Seq<u8>, i: int) -> u16 {
    if 2 * i + 1 < bytes.len() {
        le16_at(bytes, 2 * i)
    } else {
        bytes[2 * i] as u16
    }
}

/// The sum, modulo 65536, of the first `count` words of `bytes`.
pub open spec fn word_sum(bytes: Seq<u8>, count: nat) -> u16
    decreases count,
{
    if count == 0 {
        0
    } else {
        ((word_sum(bytes, (count - 1) as nat) + word_of(bytes, count - 1)) % 65536) as u16
    }
}

/// The DOS checksum of `bytes`: the sum, modulo 65536, of all its words.
/// An image carries a valid checksum when this is 0.
pub open spec fn checksum_of(bytes: Seq<u8>) -> u16 {
    word_sum(bytes, ((bytes.len() + 1) / 2) as nat)
}

/// `bytemuck::bytes_of` on a `u16`: the two bytes of `word` as the machine
/// stores them, which is low byte first or high byte first.
#[verifier::external_body]
fn stored_bytes(word: &u16) -> (b: &[u8])
    ensures
        b@ == seq![(*word % 256) as u8, (*word / 256) as u8] || b@ == seq![
            (*word / 256) as u8,
            (*word % 256) as u8,
        ],
{
    bytemuck::bytes_of(word)
}

/// A DOS executable as decoded: its header and its relocation table.
#[derive(Debug, Clone, PartialEq, Eq)]
pub struct MzExecutableLayout {
    pub header: MzHeader,
    pub relocs: MzRelocationTable,
}

/// What an `MzExecutableLayout` holds.
pub struct MzLayoutModel {
    pub header: MzHeader,
    pub relocs: Seq<reltab::FarPointer>,
}

impl DeepView for MzExecutableLayout {
    type V = MzLayoutModel;

    open spec fn deep_view(&self) -> MzLayoutModel {
        MzLayoutModel { header: self.header, relocs: self.relocs.relocations@ }
    }
}

/// The outcome of decoding `image` as a DOS executable: the header, then
/// the `e_crlc` relocation entries at `e_lfarlc`.
pub open spec fn mz_layout_of(image: Seq<u8>) -> Result<MzLayoutModel, DecodeError> {
    match mz_header_of(image) {
        Err(e) => Err(e),
        Ok(header) => match far_pointers_at(
            image,
            header.e_lfarlc as int,
            header.e_crlc as int,
        ) {
            Err(e) => Err(e),
            Ok(relocs) => Ok(MzLayoutModel { header, relocs }),
        },
    }
}

impl MzExecutableLayout {
    /// Decodes `image`, the bytes of a file, as a DOS executable.
    pub fn get(image: &[u8]) -> (r: Result<Self, DecodeError>)
        requires
            image@.len() <= MAX_IMAGE_LEN,
        ensures
            match r {
                Ok(layout) => mz_layout_of(image@) == Ok::<MzLayoutModel, DecodeError>(
                    layout.deep_view(),
                ),
                Err(e) => mz_layout_of(image@) == Err::<MzLayoutModel, DecodeError>(e),
            },
    {
        let mut src = ByteSource::new(image);
        Self::read(&mut src)
    }

    /// Decodes the header and the relocation table. On success the cursor
    /// stands behind the relocation table; on failure the source is left as
    /// it was.
    pub fn read(src: &mut ByteSource) -> (r: Result<Self, DecodeError>)
        ensures
            final(src).image() == old(src).image(),
            match r {
                Ok(layout) => mz_layout_of(old(src).image()) == Ok::<MzLayoutModel, DecodeError>(
                    layout.deep_view(),
                ) && final(src).cursor() == layout.header.e_lfarlc + 4 * layout.header.e_crlc,
                Err(e) => mz_layout_of(old(src).image()) == Err::<MzLayoutModel, DecodeError>(e)
                    && *final(src) == *old(src),
            },
    {
        let mut cur = *src;
        let header = MzHeader::read(&mut cur)?;
        let relocs = MzRelocationTable::read(&mut cur, header.e_lfarlc, header.e_crlc)?;
        *src = cur;
        Ok(MzExecutableLayout { header, relocs })
    }
}

impl MzHeader {
    /// Decodes the header at offset 0 and checks its signature. On success
    /// the cursor stands behind the header; on failure the source is left
    /// as it was.
    pub fn read(src: &mut ByteSource) -> (r: Result<Self, DecodeError>)
        ensures
            final(src).image() == old(src).image(),
            r == mz_header_of(old(src).image()),
            r is Ok ==> final(src).cursor() == 64,
            r is Err ==> *final(src) == *old(src),
            r matches Ok(header) ==> mz_magic_ok(header.e_magic),
    {
        let mut cur = *src;
        cur.seek_absolute(0)?;
        let b = cur.read_exact(MZ_HEADER_SIZE)?;
        let header = MzHeader {
            e_magic: u16_le(b, 0),
            e_cblp: u16_le(b, 2),
            e_cp: u16_le(b, 4),
            e_crlc: u16_le(b, 6),
            e_cparhdr: u16_le(b, 8),
            e_minalloc: u16_le(b, 10),
            e_maxalloc: u16_le(b, 12),
            e_ss: u16_le(b, 14),
            e_sp: u16_le(b, 16),
            e_crc: u16_le(b, 18),
            e_ip: u16_le(b, 20),
            e_cs: u16_le(b, 22),
            e_lfarlc: u16_le(b, 24),
            e_ovno: u16_le(b, 26),
            e_res: [u16_le(b, 28), u16_le(b, 30), u16_le(b, 32), u16_le(b, 34)],
            e_oemid: u16_le(b, 36),
            e_oeminfo: u16_le(b, 38),
            e_res2: [
                u16_le(b, 40),
                u16_le(b, 42),
                u16_le(b, 44),
                u16_le(b, 46),
                u16_le(b, 48),
                u16_le(b, 50),
                u16_le(b, 52),
                u16_le(b, 54),
                u16_le(b, 56),
                u16_le(b, 58),
            ],
            e_lfanew: u32_le(b, 60),
        };
        if !header.has_valid_magic() {
            return Err(DecodeError { kind: ErrorKind::BadMagic, offset: 0 });
        }
        *src = cur;
        Ok(header)
    }

    /// Whether the signature is that of a DOS executable.
    pub fn has_valid_magic(&self) -> (ok: bool)
        ensures
            ok == mz_magic_ok(self.e_magic),
    {
        self.e_magic == E_CIGAM || self.e_magic == E_MAGIC
    }

    /// Checks the signature: `BadMagic` at offset 0 unless it is that of a
    /// DOS executable.
    pub fn validate(&self) -> (r: Result<(), DecodeError>)
        ensures
            mz_magic_ok(self.e_magic) ==> r is Ok,
            !mz_magic_ok(self.e_magic) ==> r == Err::<(), DecodeError>(
                DecodeError { kind: ErrorKind::BadMagic, offset: 0 },
            ),
    {
        if self.has_valid_magic() {
            Ok(())
        } else {
            Err(DecodeError { kind: ErrorKind::BadMagic, offset: 0 })
        }
    }

    /// Whether the words of `buffer`, the whole image, sum to 0 modulo
    /// 65536. This informs; no decoder fails on it.
    pub fn validate_crc(buffer: &[u8]) -> (ok: bool)
        ensures
            ok == (checksum_of(buffer@) == 0),
    {
        let n: usize = buffer.len();
        let count: usize = n / 2 + n % 2;
        let mut i: usize = 0;
        let mut sum: u16 = 0;
        while i < count
            invariant
                i <= count,
                n == buffer@.len(),
                count == (n + 1) / 2,
                sum == word_sum(buffer@, i as nat),
            decreases count - i,
        {
            let word: u16 = if 2 * i + 1 < n {
                u16_le(buffer, 2 * i)
            } else {
                buffer[2 * i] as u16
            };
            sum = sum.wrapping_add(word);
            i = i + 1;
        }
        sum == 0
    }

    /// Whether the header records no checksum: the words of the stored
    /// checksum field sum to 0, which they do exactly when the field is 0.
    pub fn has_valid_crc(&self) -> (ok: bool)
        ensures
            ok == (self.e_crc == 0),
    {
        let buffer = stored_bytes(&self.e_crc);
        proof {
            reveal_with_fuel(word_sum, 2);
        }
        Self::validate_crc(buffer)
    }

    /// The 64 bytes that store this header.
    pub fn to_bytes(&self) -> (bytes: Vec<u8>)
        ensures
            bytes@ == mz_header_bytes(*self),
    {
        let mut out: Vec<u8> = Vec::new();
        push_u16_le(&mut out, self.e_magic);
        push_u16_le(&mut out, self.e_cblp);
        push_u16_le(&mut out, self.e_cp);
        push_u16_le(&mut out, self.e_crlc);
        push_u16_le(&mut out, self.e_cparhdr);
        push_u16_le(&mut out, self.e_minalloc);
        push_u16_le(&mut out, self.e_maxalloc);
        push_u16_le(&mut out, self.e_ss);
        push_u16_le(&mut out, self.e_sp);
        push_u16_le(&mut out, self.e_crc);
        push_u16_le(&mut out, self.e_ip);
        push_u16_le(&mut out, self.e_cs);
        push_u16_le(&mut out, self.e_lfarlc);
        push_u16_le(&mut out, self.e_ovno);
        push_u16_le(&mut out, self.e_res[0]);
        push_u16_le(&mut out, self.e_res[1]);
        push_u16_le(&mut out, self.e_res[2]);
        push_u16_le(&mut out, self.e_res[3]);
        push_u16_le(&mut out, self.e_oemid);
        push_u16_le(&mut out, self.e_oeminfo);
        push_u16_le(&mut out, self.e_res2[0]);
        push_u16_le(&mut out, self.e_res2[1]);
        push_u16_le(&mut out, self.e_res2[2]);
        push_u16_le(&mut out, self.e_res2[3]);
        push_u16_le(&mut out, self.e_res2[4]);
        push_u16_le(&mut out, self.e_res2[5]);
        push_u16_le(&mut out, self.e_res2[6]);
        push_u16_le(&mut out, self.e_res2[7]);
        push_u16_le(&mut out, self.e_res2[8]);
        push_u16_le(&mut out, self.e_res2[9]);
        push_u32_le(&mut out, self.e_lfanew);
        out
    }

    /// Whether the relocation table pointer has the value that linkers
    /// write when a new-style header follows the DOS stub.
    pub fn has_default_rlcptr(&self) -> (yes: bool)
        ensures
            yes == (self.e_lfarlc == E_LFARLC),
    {
        self.e_lfarlc == E_LFARLC
    }
}

/// Serialising a decoded header gives back the 64 bytes it was decoded
/// from.
pub proof fn lemma_mz_round_trip(image: Seq<u8>, h: MzHeader)
    requires
        mz_header_of(image) == Ok::<MzHeader, DecodeError>(h),
    ensures
        mz_header_bytes(h) == image.subrange(0, 64),
{
    lemma_le16_round_trip(image, 0);
    lemma_le16_round_trip(image, 2);
    lemma_le16_round_trip(image, 4);
    lemma_le16_round_trip(image, 6);
    lemma_le16_round_trip(image, 8);
    lemma_le16_round_trip(image, 10);
    lemma_le16_round_trip(image, 12);
    lemma_le16_round_trip(image, 14);
    lemma_le16_round_trip(image, 16);
    lemma_le16_round_trip(image, 18);
    lemma_le16_round_trip(image, 20);
    lemma_le16_round_trip(image, 22);
    lemma_le16_round_trip(image, 24);
    lemma_le16_round_trip(image, 26);
    lemma_le16_round_trip(image, 28);
    lemma_le16_round_trip(image, 30);
    lemma_le16_round_trip(image, 32);
    lemma_le16_round_trip(image, 34);
    lemma_le16_round_trip(image, 36);
    lemma_le16_round_trip(image, 38);
    lemma_le16_round_trip(image, 40);
    lemma_le16_round_trip(image, 42);
    lemma_le16_round_trip(image, 44);
    lemma_le16_round_trip(image, 46);
    lemma_le16_round_trip(image, 48);
    lemma_le16_round_trip(image, 50);
    lemma_le16_round_trip(image, 52);
    lemma_le16_round_trip(image, 54);
    lemma_le16_round_trip(image, 56);
    lemma_le16_round_trip(image, 58);
    lemma_le32_round_trip(image, 60);
}

} // verus!
