//! Container discovery: which of the four formats an image holds, and
//! where its inner header stands.
use vstd::prelude::*;
use crate::error::{DecodeError, ErrorKind};
use crate::exe::{mz_header_of, MzHeader};
use crate::source::{in_bounds, truncated_at, ByteSource};

verus! {

/// The formats of executable.
#[derive(Debug, Clone, Copy, PartialEq, Eq, Structural)]
pub enum TargetObject {
    /// A DOS executable without an inner header
    MZModule,
    /// A New Executable
    NEModule,
    /// A Linear Executable of the LE kind
    LEModule,
    /// A Linear Executable of the LX kind
    LXModule,
}

/// What container discovery finds: the DOS header, if the image has one;
/// the offset of the inner header, which is 0 where there is none or where
/// it opens the image; and the format.
#[derive(Debug, Clone, Copy, PartialEq, Eq)]
pub struct Container {
    pub dos: Option<MzHeader>,
    pub base: u64,
    pub kind: TargetObject,
}

/// The format that the two bytes at `pos` announce: "NE", "LX" or "LE".
pub open spec fn tag_at(image: Seq<u8>, pos: int) -> Option<TargetObject> {
    if image[pos] == 0x4E && image[pos + 1] == 0x45 {
        Some(TargetObject::NEModule)
    } else if image[pos] == 0x4C && image[pos + 1] == 0x58 {
        Some(TargetObject::LXModule)
    } else if image[pos] == 0x4C && image[pos + 1] == 0x45 {
        Some(TargetObject::LEModule)
    } else {
        None
    }
}

/// Whether the image opens with the signature of a linear header.
pub open spec fn begins_linear(image: Seq<u8>) -> bool {
    in_bounds(image, 0, 2) && (tag_at(image, 0) == Some(TargetObject::LXModule) || tag_at(image, 0)
        == Some(TargetObject::LEModule))
}

/// The error of an image in which `pos` announces no known format.
pub open spec fn unknown_container_at(pos: int) -> DecodeError {
    DecodeError { kind: ErrorKind::UnknownContainer, offset: pos as u64 }
}

/// The container whose inner header stands at `base`: `Truncated` at
/// `base` where the image does not hold two bytes there, `UnknownContainer`
/// at `base` where they announce no known format.
pub open spec fn inner_container_of(image: Seq<u8>, dos: Option<MzHeader>, base: int) -> Result<
    Container,
    DecodeError,
> {
    if !in_bounds(image, base, 2) {
        Err(truncated_at(base))
    } else {
        match tag_at(image, base) {
            Some(kind) => Ok(Container { dos, base: base as u64, kind }),
            None => Err(unknown_container_at(base)),
        }
    }
}

/// The container that `image` holds.
///
/// An image with a DOS header that links to nothing is a DOS executable.
/// One with a DOS header that links to `e_lfanew` has its inner header
/// there. One without a DOS header that opens with "LX" or "LE" has its
/// inner header at 0. Any other image is `UnknownContainer` at 0.
pub open spec fn container_of(image: Seq<u8>) -> Result<Container, DecodeError> {
    match mz_header_of(image) {
        Ok(header) => if header.e_lfanew == 0 {
            Ok(Container { dos: Some(header), base: 0, kind: TargetObject::MZModule })
        } else {
            inner_container_of(image, Some(header), header.e_lfanew as int)
        },
        Err(_) => if begins_linear(image) {
            inner_container_of(image, None, 0)
        } else {
            Err(unknown_container_at(0))
        },
    }
}

impl Container {
    /// Whether the parts of the container agree: with a DOS header, the
    /// inner header stands where that header links to; without one, the
    /// image is a linear executable whose header opens it.
    pub open spec fn consistent(&self) -> bool {
        match self.dos {
            Some(header) => self.base == header.e_lfanew,
            None => self.base == 0 && (self.kind == TargetObject::LEModule || self.kind
                == TargetObject::LXModule),
        }
    }

    /// Finds out what the image of `src` holds. The source is not moved.
    pub fn detect(src: &ByteSource) -> (r: Result<Self, DecodeError>)
        ensures
            r == container_of(src.image()),
            r matches Ok(container) ==> container.consistent() && container.base <= u32::MAX,
    {
        let mut cur = *src;
        match MzHeader::read(&mut cur) {
            Ok(header) => {
                if header.e_lfanew == 0 {
                    Ok(Container { dos: Some(header), base: 0, kind: TargetObject::MZModule })
                } else {
                    Self::classify(src, Some(header), header.e_lfanew as u64)
                }
            },
            Err(_) => {
                match Self::classify(src, None, 0) {
                    Ok(container) => match container.kind {
                        TargetObject::LXModule => Ok(container),
                        TargetObject::LEModule => Ok(container),
                        _ => Err(DecodeError { kind: ErrorKind::UnknownContainer, offset: 0 }),
                    },
                    Err(_) => Err(DecodeError { kind: ErrorKind::UnknownContainer, offset: 0 }),
                }
            },
        }
    }

    /// Reads the signature at `base` and names the format it announces.
    pub fn classify(src: &ByteSource, dos: Option<MzHeader>, base: u64) -> (r: Result<
        Self,
        DecodeError,
    >)
        ensures
            r == inner_container_of(src.image(), dos, base as int),
    {
        let mut cur = *src;
        cur.seek_absolute(base)?;
        let tag = cur.read_exact(2)?;
        let kind = if tag[0] == 0x4E && tag[1] == 0x45 {
            TargetObject::NEModule
        } else if tag[0] == 0x4C && tag[1] == 0x58 {
            TargetObject::LXModule
        } else if tag[0] == 0x4C && tag[1] == 0x45 {
            TargetObject::LEModule
        } else {
            return Err(DecodeError { kind: ErrorKind::UnknownContainer, offset: base });
        };
        Ok(Container { dos, base, kind })
    }
}

} // verus!
