//! The records that mark a Windows virtual device driver. They are laid
//! out here for callers that read them; no decoder of this crate does.
use vstd::prelude::*;

verus! {

/// The fields that a driver's header holds behind those of a linear
/// header.
#[derive(Debug, Clone, Copy, PartialEq, Eq, Structural)]
pub struct VxDHeader {
    pub e32_win_rsrc_offset: u32,
    pub e32_win_rsrc_size: u32,
    pub e32_device_id: u16,
    pub e32_ddk_major: u16,
    pub e32_ddk_minor: u16,
}

/// The header of the version resource of a driver built for Windows 9x.
/// A driver for Windows 3.x has none: its resource offset is 0.
#[derive(Debug, Clone, Copy, PartialEq, Eq, Structural)]
pub struct VxDRsrcHeader {
    pub rsrc_type: u8,
    pub rsrc_name: u8,
    pub rsrc_ordinal: u16,
    pub rsrc_flags: u16,
    pub rsrc_length: u16,
}

} // verus!
