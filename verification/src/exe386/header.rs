//! The header of a Linear Executable. It stands at the offset that the DOS
//! header links to, or at offset 0 of an image without a DOS stub, and
//! every table pointer in it but that of the non-resident name table counts
//! from its own start.
use vstd::prelude::*;
use crate::error::{DecodeError, ErrorKind};
use crate::source::{in_bounds, le16_at, le32_at, truncated_at, u16_le, u32_le, ByteSource};

verus! {

/// "LX", read as a little-endian word.
pub const LX_MAGIC: u16 = 0x584C;

/// "LE", read as a little-endian word.
pub const LE_MAGIC: u16 = 0x454C;

/// The number of header bytes the decoder reads: 176 bytes of fields and 8
/// reserved bytes.
pub const LX_HEADER_SIZE: usize = 184;

/// The header of an LE or LX module.
#[derive(Debug, Clone, Copy, PartialEq, Eq)]
pub struct LinearExecutableHeader {
    pub e32_magic: u16,
    /// Byte order; 0 is little-endian
    pub e32_border: u8,
    /// Word order; 0 is little-endian
    pub e32_worder: u8,
    pub e32_level: u32,
    pub e32_cpu: u16,
    pub e32_os: u16,
    pub e32_ver: u32,
    pub e32_mflags: u32,
    /// Number of pages of the module
    pub e32_mpages: u32,
    pub e32_cs: u32,
    pub e32_eip: u32,
    pub e32_ss: u32,
    pub e32_esp: u32,
    pub e32_pagesize: u32,
    /// In an LX module the page offset shift; in an LE module the number
    /// of bytes on the last page
    pub e32_pageshift_or_lastpage: u32,
    pub e32_fixupsize: u32,
    pub e32_fixupsum: u32,
    pub e32_ldrsize: u32,
    pub e32_ldrsum: u32,
    pub e32_objtab: u32,
    pub e32_objcnt: u32,
    pub e32_objmap: u32,
    pub e32_itermap: u32,
    pub e32_rsrctab: u32,
    pub e32_rsrccnt: u32,
    pub e32_restab: u32,
    pub e32_enttab: u32,
    pub e32_dirtab: u32,
    pub e32_dircnt: u32,
    pub e32_fpagetab: u32,
    pub e32_frectab: u32,
    pub e32_impmod: u32,
    pub e32_impmodcnt: u32,
    pub e32_impproc: u32,
    pub e32_pagesum: u32,
    pub e32_datapage: u32,
    pub e32_preload: u32,
    /// Offset of the non-resident name table, from the start of the file
    pub e32_nrestab: u32,
    pub e32_cbnrestab: u32,
    pub e32_nressum: u32,
    pub e32_autodata: u32,
    pub e32_debuginfo: u32,
    pub e32_debuglen: u32,
    pub e32_instpreload: u32,
    pub e32_instdemand: u32,
    pub e32_heapsize: u32,
    /// In LX modules only
    pub e32_stacksize: u32,
    pub e32_res3: [u8; 8],
}

/// The processor a module asks for, as `e32_cpu` numbers them from 1.
#[derive(Debug, Clone, Copy, PartialEq, Eq, Structural)]
pub enum CPU {
    /// Intel 286 and higher
    I286,
    /// Intel 386 and higher
    I386,
    /// Intel 486 and higher
    I486,
}

/// The operating system a module was linked for, as `e32_os` numbers them
/// from 0.
#[derive(Debug, Clone, Copy, PartialEq, Eq, Structural)]
pub enum OS {
    Unknown,
    /// OS/2 2.0 and later
    Os2v2,
    /// Windows without 32-bit support
    Windows286,
    /// DOS 4.0 and later
    Dos4,
    /// Windows that runs 32-bit code
    Windows386,
    PersonalityNeural,
}

/// The kinds of loadable module.
#[derive(Debug, Clone, Copy, PartialEq, Eq, Structural)]
pub enum LinearExecutableType {
    /// Executable
    EXE,
    /// Dynamically linked library
    DLL,
    /// Physical device driver
    PDD,
    /// Virtual device driver
    VDD,
    /// Dynamically linked driver
    DLD,
}

/// Whether `magic` is the signature of an LE or an LX module.
pub open spec fn linear_magic_ok(magic: u16) -> bool {
    magic == LX_MAGIC || magic == LE_MAGIC
}

/// The header whose 184 bytes start at `pos`, field by field.
#[verifier::opaque]
pub open spec fn lx_header_at(image: Seq<u8>, pos: int) -> LinearExecutableHeader {
    LinearExecutableHeader {
        e32_magic: le16_at(image, pos),
        e32_border: image[pos + 2],
        e32_worder: image[pos + 3],
        e32_level: le32_at(image, pos + 4),
        e32_cpu: le16_at(image, pos + 8),
        e32_os: le16_at(image, pos + 10),
        e32_ver: le32_at(image, pos + 12),
        e32_mflags: le32_at(image, pos + 16),
        e32_mpages: le32_at(image, pos + 20),
        e32_cs: le32_at(image, pos + 24),
        e32_eip: le32_at(image, pos + 28),
        e32_ss: le32_at(image, pos + 32),
        e32_esp: le32_at(image, pos + 36),
        e32_pagesize: le32_at(image, pos + 40),
        e32_pageshift_or_lastpage: le32_at(image, pos + 44),
        e32_fixupsize: le32_at(image, pos + 48),
        e32_fixupsum: le32_at(image, pos + 52),
        e32_ldrsize: le32_at(image, pos + 56),
        e32_ldrsum: le32_at(image, pos + 60),
        e32_objtab: le32_at(image, pos + 64),
        e32_objcnt: le32_at(image, pos + 68),
        e32_objmap: le32_at(image, pos + 72),
        e32_itermap: le32_at(image, pos + 76),
        e32_rsrctab: le32_at(image, pos + 80),
        e32_rsrccnt: le32_at(image, pos + 84),
        e32_restab: le32_at(image, pos + 88),
        e32_enttab: le32_at(image, pos + 92),
        e32_dirtab: le32_at(image, pos + 96),
        e32_dircnt: le32_at(image, pos + 100),
        e32_fpagetab: le32_at(image, pos + 104),
        e32_frectab: le32_at(image, pos + 108),
        e32_impmod: le32_at(image, pos + 112),
        e32_impmodcnt: le32_at(image, pos + 116),
        e32_impproc: le32_at(image, pos + 120),
        e32_pagesum: le32_at(image, pos + 124),
        e32_datapage: le32_at(image, pos + 128),
        e32_preload: le32_at(image, pos + 132),
        e32_nrestab: le32_at(image, pos + 136),
        e32_cbnrestab: le32_at(image, pos + 140),
        e32_nressum: le32_at(image, pos + 144),
        e32_autodata: le32_at(image, pos + 148),
        e32_debuginfo: le32_at(image, pos + 152),
        e32_debuglen: le32_at(image, pos + 156),
        e32_instpreload: le32_at(image, pos + 160),
        e32_instdemand: le32_at(image, pos + 164),
        e32_heapsize: le32_at(image, pos + 168),
        e32_stacksize: le32_at(image, pos + 172),
        e32_res3: [
            image[pos + 176],
            image[pos + 177],
            image[pos + 178],
            image[pos + 179],
            image[pos + 180],
            image[pos + 181],
            image[pos + 182],
            image[pos + 183],
        ],
    }
}

/// The outcome of decoding the linear header at `pos`: `Truncated` at
/// `pos` when the image does not hold its 184 bytes, `BadMagic` at `pos`
/// when they start with neither "LX" nor "LE", `BadByteOrder` at the byte
/// order field when the byte order or the word order is not 0.
pub open spec fn lx_header_of(image: Seq<u8>, pos: int) -> Result<
    LinearExecutableHeader,
    DecodeError,
> {
    if !in_bounds(image, pos, 184) {
        Err(truncated_at(pos))
    } else if !linear_magic_ok(le16_at(image, pos)) {
        Err(DecodeError { kind: ErrorKind::BadMagic, offset: pos as u64 })
    } else if image[pos + 2] != 0 || image[pos + 3] != 0 {
        Err(DecodeError { kind: ErrorKind::BadByteOrder, offset: (pos + 2) as u64 })
    } else {
        Ok(lx_header_at(image, pos))
    }
}

/// The kind of module that the flags `mflags` declare. The first of these
/// tests that holds decides: bit 0x8000 set, a library; bit 0x20000 set, a
/// physical device driver; any bit of 0x28000 set, a virtual device
/// driver; any bit of 0x30000 set, a dynamically linked driver. A module
/// that passes none is an executable.
pub open spec fn module_type_of(mflags: u32) -> LinearExecutableType {
    if mflags & 0x00008000 != 0 {
        LinearExecutableType::DLL
    } else if mflags & 0x00020000 != 0 {
        LinearExecutableType::PDD
    } else if mflags & 0x00028000 != 0 {
        LinearExecutableType::VDD
    } else if mflags & 0x00030000 != 0 {
        LinearExecutableType::DLD
    } else {
        LinearExecutableType::EXE
    }
}

/// The header read from the 184 bytes at `pos`, taken out of the image,
/// is the header at `pos` of the image.
pub proof fn lemma_header_in_place(image: Seq<u8>, pos: int)
    requires
        in_bounds(image, pos, 184),
    ensures
        lx_header_at(image.subrange(pos, pos + 184), 0) == lx_header_at(image, pos),
        lx_header_at(image, pos).e32_magic == le16_at(image, pos),
        lx_header_at(image, pos).e32_border == image[pos + 2],
        lx_header_at(image, pos).e32_worder == image[pos + 3],
{
    reveal(lx_header_at);
    let part = image.subrange(pos, pos + 184);
    assert forall|i: int| 0 <= i < 184 implies #[trigger] part[i] == image[pos + i] by {}
}

impl LinearExecutableHeader {
    /// Decodes the header that the first 184 bytes of `b` store.
    pub fn decode(b: &[u8]) -> (header: Self)
        requires
            b@.len() >= 184,
        ensures
            header == lx_header_at(b@, 0),
    {
        reveal(lx_header_at);
        LinearExecutableHeader {
            e32_magic: u16_le(b, 0),
            e32_border: b[2],
            e32_worder: b[3],
            e32_level: u32_le(b, 4),
            e32_cpu: u16_le(b, 8),
            e32_os: u16_le(b, 10),
            e32_ver: u32_le(b, 12),
            e32_mflags: u32_le(b, 16),
            e32_mpages: u32_le(b, 20),
            e32_cs: u32_le(b, 24),
            e32_eip: u32_le(b, 28),
            e32_ss: u32_le(b, 32),
            e32_esp: u32_le(b, 36),
            e32_pagesize: u32_le(b, 40),
            e32_pageshift_or_lastpage: u32_le(b, 44),
            e32_fixupsize: u32_le(b, 48),
            e32_fixupsum: u32_le(b, 52),
            e32_ldrsize: u32_le(b, 56),
            e32_ldrsum: u32_le(b, 60),
            e32_objtab: u32_le(b, 64),
            e32_objcnt: u32_le(b, 68),
            e32_objmap: u32_le(b, 72),
            e32_itermap: u32_le(b, 76),
            e32_rsrctab: u32_le(b, 80),
            e32_rsrccnt: u32_le(b, 84),
            e32_restab: u32_le(b, 88),
            e32_enttab: u32_le(b, 92),
            e32_dirtab: u32_le(b, 96),
            e32_dircnt: u32_le(b, 100),
            e32_fpagetab: u32_le(b, 104),
            e32_frectab: u32_le(b, 108),
            e32_impmod: u32_le(b, 112),
            e32_impmodcnt: u32_le(b, 116),
            e32_impproc: u32_le(b, 120),
            e32_pagesum: u32_le(b, 124),
            e32_datapage: u32_le(b, 128),
            e32_preload: u32_le(b, 132),
            e32_nrestab: u32_le(b, 136),
            e32_cbnrestab: u32_le(b, 140),
            e32_nressum: u32_le(b, 144),
            e32_autodata: u32_le(b, 148),
            e32_debuginfo: u32_le(b, 152),
            e32_debuglen: u32_le(b, 156),
            e32_instpreload: u32_le(b, 160),
            e32_instdemand: u32_le(b, 164),
            e32_heapsize: u32_le(b, 168),
            e32_stacksize: u32_le(b, 172),
            e32_res3: [b[176], b[177], b[178], b[179], b[180], b[181], b[182], b[183]],
        }
    }

    /// Reads the header at the cursor and checks its signature and its
    /// byte order. On success the cursor stands behind the 184 bytes read;
    /// on failure the source is left as it was.
    pub fn read(src: &mut ByteSource) -> (r: Result<Self, DecodeError>)
        ensures
            final(src).image() == old(src).image(),
            r == lx_header_of(old(src).image(), old(src).cursor()),
            r is Ok ==> final(src).cursor() == old(src).cursor() + 184,
            r is Err ==> *final(src) == *old(src),
            r matches Ok(header) ==> linear_magic_ok(header.e32_magic) && header.e32_border == 0
                && header.e32_worder == 0,
    {
        let mut cur = *src;
        let start: u64 = cur.position();
        let b = cur.read_exact(LX_HEADER_SIZE)?;
        let header = Self::decode(b);
        proof {
            lemma_header_in_place(old(src).image(), old(src).cursor());
        }
        if header.invalid_magic() {
            return Err(DecodeError { kind: ErrorKind::BadMagic, offset: start });
        }
        if !header.le_byte_ordering() {
            return Err(DecodeError { kind: ErrorKind::BadByteOrder, offset: start + 2 });
        }
        *src = cur;
        Ok(header)
    }

    /// Whether the module was linked without its external fixups.
    pub fn external_relocs_stripped(&self) -> (stripped: bool)
        ensures
            stripped == (self.e32_mflags & 0x00000020 != 0),
    {
        self.e32_mflags & 0x00000020 != 0
    }

    /// Whether the module was linked without its internal fixups: each
    /// object then has a preferred load address.
    pub fn internal_relocs_stripped(&self) -> (stripped: bool)
        ensures
            stripped == (self.e32_mflags & 0x00000010 != 0),
    {
        self.e32_mflags & 0x00000010 != 0
    }

    /// The kind of module.
    pub fn module_type(&self) -> (kind: LinearExecutableType)
        ensures
            kind == module_type_of(self.e32_mflags),
    {
        if self.e32_mflags & 0x00008000 != 0 {
            return LinearExecutableType::DLL;
        }
        if self.e32_mflags & 0x00020000 != 0 {
            return LinearExecutableType::PDD;
        }
        if self.e32_mflags & 0x00028000 != 0 {
            return LinearExecutableType::VDD;
        }
        if self.e32_mflags & 0x00030000 != 0 {
            return LinearExecutableType::DLD;
        }
        LinearExecutableType::EXE
    }

    /// Whether the module declares little-endian byte and word order, the
    /// only order the decoders read.
    pub fn le_byte_ordering(&self) -> (little: bool)
        ensures
            little == (self.e32_border == 0 && self.e32_worder == 0),
    {
        self.e32_border == 0 && self.e32_worder == 0
    }

    /// Whether the signature is neither that of an LX nor that of an LE
    /// module.
    pub fn invalid_magic(&self) -> (invalid: bool)
        ensures
            invalid == !linear_magic_ok(self.e32_magic),
    {
        !(self.e32_magic == LX_MAGIC || self.e32_magic == LE_MAGIC)
    }
}

} // verus!
