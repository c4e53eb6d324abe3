//! The header of a segmented New Executable.
use vstd::prelude::*;
use crate::error::{DecodeError, ErrorKind};
use crate::source::{in_bounds, le16_at, le32_at, truncated_at, u16_le, u32_le, ByteSource};

verus! {

/// "NE", read as a little-endian word.
pub const NE_MAGIC: u16 = 0x454e;

/// The size of the NE header in bytes.
pub const NE_HEADER_SIZE: usize = 64;

/// The sector shift that a stored shift of 0 stands for.
pub const NE_DEFAULT_ALIGN: u16 = 9;

/// The largest sector shift a header may declare.
pub const NE_MAX_ALIGN: u16 = 16;

/// The offset of `e_align` inside the header.
pub const NE_ALIGN_FIELD: u64 = 0x32;

/// OS/2 and Windows file header. All table offsets but `e_nres_tab` are
/// relative to the start of this header.
#[derive(Debug, Clone, Copy, PartialEq, Eq)]
pub struct NewExecutableHeader {
    pub e_magic: [u8; 2],
    pub e_link_maj: u8,
    pub e_link_min: u8,
    pub e_ent_tab: u16,
    pub e_cb_ent: u16,
    pub e_load_crc: u32,
    pub e_flags: u16,
    pub e_autodata: u16,
    pub e_heap: u16,
    pub e_stack: u16,
    pub e_csip: u32,
    pub e_sssp: u32,
    pub e_cseg: u16,
    pub e_cmod: u16,
    pub e_cbnres: u16,
    pub e_seg_tab: u16,
    pub e_rsrc_tab: u16,
    pub e_resn_tab: u16,
    pub e_mod_tab: u16,
    pub e_imp_tab: u16,
    /// Offset of the non-resident name table, from the start of the file
    pub e_nres_tab: u32,
    pub e_cmov_ent: u16,
    /// Sector alignment shift; 0 stands for 9
    pub e_align: u16,
    pub e_crsrc: u16,
    pub e_os: u8,
    pub e_flag_others: u8,
    pub e_ret_thunk: u16,
    pub e_segref_thunk: u16,
    pub min_code_swap: u16,
    pub expected_win_ver: [u8; 2],
}

/// The processor a module asks for.
#[derive(Debug, Clone, Copy, PartialEq, Eq, Structural)]
pub enum CPU {
    Undefined,
    I8086,
    I286,
    I386,
    I8087,
}

impl CPU {
    /// The processor that the code `flags` names.
    pub fn from(flags: u16) -> (cpu: CPU)
        ensures
            cpu == match flags {
                0x0004 => CPU::I8086,
                0x0005 => CPU::I286,
                0x0006 => CPU::I386,
                0x0007 => CPU::I8087,
                _ => CPU::Undefined,
            },
    {
        match flags {
            0x0004 => CPU::I8086,
            0x0005 => CPU::I286,
            0x0006 => CPU::I386,
            0x0007 => CPU::I8087,
            _ => CPU::Undefined,
        }
    }
}

/// The operating system a module was linked for, as `e_os` numbers them
/// from 0.
#[derive(Debug, Clone, Copy, PartialEq, Eq, Structural)]
pub enum OS {
    /// None or any
    Unknown,
    /// OS/2 1.x
    Os2,
    /// Windows 1.x-3.x on a 286
    Windows286,
    /// Multitasking MS-DOS 4.0
    Dos4,
    /// Windows 1.x-3.x on a 386
    Windows386,
}

/// How many automatic data segments a module has.
#[derive(Debug, Clone, Copy, PartialEq, Eq, Structural)]
pub enum DataSegment {
    /// No automatic data segment
    No,
    /// One, shared among the instances
    Single,
    /// One for each instance
    Multiple,
}

impl DataSegment {
    /// The data segment kind in the two low bits of the module flags.
    pub fn from(f: u16) -> (d: DataSegment)
        ensures
            d == data_segment_of(f),
    {
        let kind: u16 = f & 0x0003;
        if kind == 1 {
            DataSegment::Single
        } else if kind == 2 {
            DataSegment::Multiple
        } else {
            DataSegment::No
        }
    }
}

/// The data segment kind that module flags `f` declare.
pub open spec fn data_segment_of(f: u16) -> DataSegment {
    if f & 0x0003 == 1 {
        DataSegment::Single
    } else if f & 0x0003 == 2 {
        DataSegment::Multiple
    } else {
        DataSegment::No
    }
}

/// The module flags of `e_flags` and `e_flag_others`, bit by bit.
#[derive(Debug, Clone, Copy, PartialEq, Eq, Structural)]
pub struct ModuleFlags {
    /// The module is a library
    pub library_module: bool,
    /// The kind of automatic data segment
    pub data_segment: DataSegment,
    /// Errors in the image
    pub image_error: bool,
    /// Non-conforming program
    pub non_conforming: bool,
    /// Errors detected at link time; the module will not load
    pub linkage_errors: bool,
    /// The module runs in protected mode only
    pub protected_mode_only: bool,
}

/// `e_flag_others` as OS/2 1.x reads it.
#[derive(Debug, Clone, Copy, PartialEq, Eq, Structural)]
pub struct ModuleOs2Flags {
    pub os2_protected_mode: bool,
    pub proportional_fonts: bool,
    pub long_names_support: bool,
    pub gangload_area: bool,
}

/// `e_flag_others` as Windows 3.x reads it.
#[derive(Debug, Clone, Copy, PartialEq, Eq, Structural)]
pub struct ModuleWindowsFlags {
    pub win3x_protected_mode: bool,
    pub proportional_fonts: bool,
    pub fastload_area: bool,
}

/// The header whose 64 bytes start at `pos`, field by field.
pub open spec fn ne_header_at(image: Seq<u8>, pos: int) -> NewExecutableHeader {
    NewExecutableHeader {
        e_magic: [image[pos], image[pos + 1]],
        e_link_maj: image[pos + 2],
        e_link_min: image[pos + 3],
        e_ent_tab: le16_at(image, pos + 4),
        e_cb_ent: le16_at(image, pos + 6),
        e_load_crc: le32_at(image, pos + 8),
        e_flags: le16_at(image, pos + 12),
        e_autodata: le16_at(image, pos + 14),
        e_heap: le16_at(image, pos + 16),
        e_stack: le16_at(image, pos + 18),
        e_csip: le32_at(image, pos + 20),
        e_sssp: le32_at(image, pos + 24),
        e_cseg: le16_at(image, pos + 28),
        e_cmod: le16_at(image, pos + 30),
        e_cbnres: le16_at(image, pos + 32),
        e_seg_tab: le16_at(image, pos + 34),
        e_rsrc_tab: le16_at(image, pos + 36),
        e_resn_tab: le16_at(image, pos + 38),
        e_mod_tab: le16_at(image, pos + 40),
        e_imp_tab: le16_at(image, pos + 42),
        e_nres_tab: le32_at(image, pos + 44),
        e_cmov_ent: le16_at(image, pos + 48),
        e_align: le16_at(image, pos + 50),
        e_crsrc: le16_at(image, pos + 52),
        e_os: image[pos + 54],
        e_flag_others: image[pos + 55],
        e_ret_thunk: le16_at(image, pos + 56),
        e_segref_thunk: le16_at(image, pos + 58),
        min_code_swap: le16_at(image, pos + 60),
        expected_win_ver: [image[pos + 62], image[pos + 63]],
    }
}

/// The outcome of decoding the NE header at `pos`: `Truncated` at `pos`
/// when the image does not hold 64 bytes there, `BadMagic` at `pos` when
/// they do not start with "NE", `ImplausibleCount` at the alignment field
/// when the sector shift is above 16.
pub open spec fn ne_header_of(image: Seq<u8>, pos: int) -> Result<
    NewExecutableHeader,
    DecodeError,
> {
    if !in_bounds(image, pos, 64) {
        Err(truncated_at(pos))
    } else if le16_at(image, pos) != NE_MAGIC {
        Err(DecodeError { kind: ErrorKind::BadMagic, offset: pos as u64 })
    } else if le16_at(image, pos + 50) > NE_MAX_ALIGN {
        Err(DecodeError { kind: ErrorKind::ImplausibleCount, offset: (pos + 0x32) as u64 })
    } else {
        Ok(ne_header_at(image, pos))
    }
}

/// The sector shift that a stored `e_align` stands for.
pub open spec fn align_shift_of(e_align: u16) -> u16 {
    if e_align == 0 {
        NE_DEFAULT_ALIGN
    } else {
        e_align
    }
}

impl NewExecutableHeader {
    /// Decodes the header at offset `e_lfanew` and checks its signature and
    /// its sector shift. On success the cursor stands behind the header; on
    /// failure the source is left as it was.
    pub fn read(src: &mut ByteSource, e_lfanew: u32) -> (r: Result<Self, DecodeError>)
        ensures
            final(src).image() == old(src).image(),
            r == ne_header_of(old(src).image(), e_lfanew as int),
            r is Ok ==> final(src).cursor() == e_lfanew + 64,
            r is Err ==> *final(src) == *old(src),
            r matches Ok(header) ==> header.e_magic[0] == 0x4e && header.e_magic[1] == 0x45
                && 1 <= align_shift_of(header.e_align) <= NE_MAX_ALIGN,
    {
        let mut cur = *src;
        cur.seek_absolute(e_lfanew as u64)?;
        let b = cur.read_exact(NE_HEADER_SIZE)?;
        let header = NewExecutableHeader {
            e_magic: [b[0], b[1]],
            e_link_maj: b[2],
            e_link_min: b[3],
            e_ent_tab: u16_le(b, 4),
            e_cb_ent: u16_le(b, 6),
            e_load_crc: u32_le(b, 8),
            e_flags: u16_le(b, 12),
            e_autodata: u16_le(b, 14),
            e_heap: u16_le(b, 16),
            e_stack: u16_le(b, 18),
            e_csip: u32_le(b, 20),
            e_sssp: u32_le(b, 24),
            e_cseg: u16_le(b, 28),
            e_cmod: u16_le(b, 30),
            e_cbnres: u16_le(b, 32),
            e_seg_tab: u16_le(b, 34),
            e_rsrc_tab: u16_le(b, 36),
            e_resn_tab: u16_le(b, 38),
            e_mod_tab: u16_le(b, 40),
            e_imp_tab: u16_le(b, 42),
            e_nres_tab: u32_le(b, 44),
            e_cmov_ent: u16_le(b, 48),
            e_align: u16_le(b, 50),
            e_crsrc: u16_le(b, 52),
            e_os: b[54],
            e_flag_others: b[55],
            e_ret_thunk: u16_le(b, 56),
            e_segref_thunk: u16_le(b, 58),
            min_code_swap: u16_le(b, 60),
            expected_win_ver: [b[62], b[63]],
        };
        if !header.is_valid_magic() {
            return Err(DecodeError { kind: ErrorKind::BadMagic, offset: e_lfanew as u64 });
        }
        if header.e_align > NE_MAX_ALIGN {
            return Err(
                DecodeError {
                    kind: ErrorKind::ImplausibleCount,
                    offset: e_lfanew as u64 + NE_ALIGN_FIELD,
                },
            );
        }
        *src = cur;
        Ok(header)
    }

    /// Whether the header starts with "NE".
    pub fn is_valid_magic(&self) -> (ok: bool)
        ensures
            ok == (self.e_magic[0] as int + 256 * (self.e_magic[1] as int) == NE_MAGIC),
    {
        self.e_magic[0] == 0x4e && self.e_magic[1] == 0x45
    }

    /// The sector alignment shift in force: `e_align`, or 9 where it is 0.
    pub fn align_shift(&self) -> (shift: u16)
        ensures
            shift == align_shift_of(self.e_align),
    {
        if self.e_align == 0 {
            NE_DEFAULT_ALIGN
        } else {
            self.e_align
        }
    }

    /// How the module works with the windowing system: bits 8 and 9 of
    /// the module flags, as a number from 0 to 3.
    pub fn windowing(&self) -> (w: u16)
        ensures
            w == (self.e_flags >> 8) & 0x0003,
    {
        (self.e_flags >> 8) & 0x0003
    }

    /// The module flags.
    pub fn module_flags(&self) -> (f: ModuleFlags)
        ensures
            f == (ModuleFlags {
                linkage_errors: self.e_flags & 0x8000 != 0,
                library_module: self.e_flags & 0x0002 != 0,
                protected_mode_only: self.e_flags & 0x0008 != 0,
                data_segment: data_segment_of(self.e_flags),
                non_conforming: self.e_flag_others & 0x40 != 0,
                image_error: self.e_flag_others & 0x20 != 0,
            }),
    {
        ModuleFlags {
            linkage_errors: self.e_flags & 0x8000 != 0,
            library_module: self.e_flags & 0x0002 != 0,
            protected_mode_only: self.e_flags & 0x0008 != 0,
            data_segment: DataSegment::from(self.e_flags),
            non_conforming: self.e_flag_others & 0x40 != 0,
            image_error: self.e_flag_others & 0x20 != 0,
        }
    }

    /// `e_flag_others` read as OS/2 1.x does.
    pub fn other_os2_flags(&self) -> (f: ModuleOs2Flags)
        ensures
            f == (ModuleOs2Flags {
                long_names_support: self.e_flag_others & 0x01 != 0,
                os2_protected_mode: self.e_flag_others & 0x02 != 0,
                proportional_fonts: self.e_flag_others & 0x04 != 0,
                gangload_area: self.e_flag_others & 0x08 != 0,
            }),
    {
        ModuleOs2Flags {
            long_names_support: self.e_flag_others & 0x01 != 0,
            os2_protected_mode: self.e_flag_others & 0x02 != 0,
            proportional_fonts: self.e_flag_others & 0x04 != 0,
            gangload_area: self.e_flag_others & 0x08 != 0,
        }
    }

    /// `e_flag_others` read as Windows 3.x does.
    pub fn other_windows_flags(&self) -> (f: ModuleWindowsFlags)
        ensures
            f == (ModuleWindowsFlags {
                win3x_protected_mode: self.e_flag_others & 0x02 != 0,
                proportional_fonts: self.e_flag_others & 0x04 != 0,
                fastload_area: self.e_flag_others & 0x08 != 0,
            }),
    {
        ModuleWindowsFlags {
            win3x_protected_mode: self.e_flag_others & 0x02 != 0,
            proportional_fonts: self.e_flag_others & 0x04 != 0,
            fastload_area: self.e_flag_others & 0x08 != 0,
        }
    }
}

} // verus!
