//! The object table of a Linear Executable. An object is what a segment is
//! in a New Executable: a unit of code or data with its own rights and its
//! own run of pages.
use vstd::prelude::*;
use crate::error::{DecodeError, ErrorKind};
use crate::source::{implausible_at, in_bounds, le32_at, truncated_at, u32_le, ByteSource};

verus! {

/// The object can be read.
pub const OBJ_READABLE: u16 = 0x0001;

/// The object can be written.
pub const OBJ_WRITEABLE: u16 = 0x0002;

/// The object can be executed.
pub const OBJ_EXECUTABLE: u16 = 0x0004;

/// The object holds resources.
pub const OBJ_RESOURCE: u16 = 0x0008;

/// The object can be discarded.
pub const OBJ_DISCARDABLE: u16 = 0x0010;

/// The object is shared among processes.
pub const OBJ_SHARABLE: u16 = 0x0020;

/// The object has preload pages.
pub const OBJ_HAS_PRELOAD: u16 = 0x0040;

/// The object has invalid pages.
pub const OBJ_HAS_INVALID: u16 = 0x0080;

/// The object can be swapped out; in LE modules.
pub const OBJ_PERM_SWAPPABLE: u16 = 0x0100;

/// The object has zero-filled pages; in LX modules.
pub const OBJ_HAS_ZERO_FILL: u16 = 0x0100;

/// The object stays resident.
pub const OBJ_PERM_RESIDENT: u16 = 0x0200;

/// The object stays resident and contiguous; in LX modules.
pub const OBJ_PERM_CONTIGUOUS: u16 = 0x0300;

/// The object can be locked for long.
pub const OBJ_PERM_LOCKABLE: u16 = 0x0400;

/// The object needs a 16:16 alias.
pub const OBJ_ALIAS_REQUIRED: u16 = 0x1000;

/// The object defaults to 32-bit operands and addresses.
pub const OBJ_BIG: u16 = 0x2000;

/// The object is conforming for code.
pub const OBJ_CONFORMING: u16 = 0x4000;

/// The object has I/O privilege.
pub const OBJ_IOPL: u16 = 0x8000;

/// The size of an object table record in bytes.
pub const OBJECT_SIZE: usize = 24;

/// The largest number of objects a module may declare.
pub const MAX_OBJECTS: u32 = 65535;

/// A record of the object table.
#[derive(Debug, Clone, Copy, PartialEq, Eq, Structural)]
pub struct Object {
    pub virtual_size: u32,
    pub virtual_addr: u32,
    pub flags: u32,
    /// The index of the object's first record in the object page map
    pub map_index: u32,
    /// The number of the object's records in the object page map
    pub map_size: u32,
    pub _reserved: u32,
}

/// What an object may be used for.
#[derive(Debug, Clone, Copy, PartialEq, Eq, Structural)]
pub enum LXObjectRights {
    /// Readable and executable
    CODE,
    /// Readable and writable
    DATA,
    /// Readable
    RDATA,
    /// Without a size in memory
    BSS,
    /// Readable, writable and executable
    GOD,
    /// Not writable
    SETTER,
}

/// The objects of a module, in table order. Other tables number them
/// from 1.
#[derive(Debug, Clone, PartialEq, Eq)]
pub struct ObjectsTable {
    pub objects: Vec<Object>,
}

/// The object table record whose 24 bytes start at `pos`.
pub open spec fn object_at(image: Seq<u8>, pos: int) -> Object {
    Object {
        virtual_size: le32_at(image, pos),
        virtual_addr: le32_at(image, pos + 4),
        flags: le32_at(image, pos + 8),
        map_index: le32_at(image, pos + 12),
        map_size: le32_at(image, pos + 16),
        _reserved: le32_at(image, pos + 20),
    }
}

/// The `count` objects stored from `pos` on. More than 65535 objects are
/// `ImplausibleCount` at `pos`; a table that the image does not hold in
/// full is `Truncated` at `pos`.
pub open spec fn objects_of(image: Seq<u8>, pos: int, count: int) -> Result<
    Seq<Object>,
    DecodeError,
> {
    if count > MAX_OBJECTS {
        Err(implausible_at(pos))
    } else if !in_bounds(image, pos, 24 * count) {
        Err(truncated_at(pos))
    } else {
        Ok(Seq::new(count as nat, |i: int| object_at(image, pos + 24 * i)))
    }
}

/// The rights of an object: `BSS` where it has no size in memory; else
/// `SETTER` where its writable bit is clear and `RDATA` where it is set.
pub open spec fn object_rights_of(object: Object) -> LXObjectRights {
    if object.virtual_size == 0 {
        LXObjectRights::BSS
    } else if object.flags & 0x0002 == 0 {
        LXObjectRights::SETTER
    } else {
        LXObjectRights::RDATA
    }
}

impl Object {
    /// What the object may be used for.
    pub fn get_object_rights(&self) -> (rights: LXObjectRights)
        ensures
            rights == object_rights_of(*self),
    {
        if self.virtual_size == 0 {
            return LXObjectRights::BSS;
        }
        if self.flags & 0x0002 == 0 {
            LXObjectRights::SETTER
        } else {
            LXObjectRights::RDATA
        }
    }

    /// Decodes the record at index `at` of `bytes`.
    pub fn decode(bytes: &[u8], at: usize) -> (object: Self)
        requires
            at + 24 <= bytes.len(),
        ensures
            object == object_at(bytes@, at as int),
    {
        Object {
            virtual_size: u32_le(bytes, at),
            virtual_addr: u32_le(bytes, at + 4),
            flags: u32_le(bytes, at + 8),
            map_index: u32_le(bytes, at + 12),
            map_size: u32_le(bytes, at + 16),
            _reserved: u32_le(bytes, at + 20),
        }
    }
}

impl ObjectsTable {
    /// A table without objects.
    pub fn empty() -> (t: Self)
        ensures
            t.objects@ == Seq::<Object>::empty(),
    {
        ObjectsTable { objects: Vec::new() }
    }

    /// Decodes the `count` objects stored at `objtab`. On success the
    /// cursor stands behind the table; on failure the source is left as it
    /// was.
    pub fn read(src: &mut ByteSource, objtab: u64, count: u32) -> (r: Result<Self, DecodeError>)
        ensures
            final(src).image() == old(src).image(),
            match r {
                Ok(t) => objects_of(old(src).image(), objtab as int, count as int) == Ok::<
                    Seq<Object>,
                    DecodeError,
                >(t.objects@) && final(src).cursor() == objtab + 24 * count,
                Err(e) => objects_of(old(src).image(), objtab as int, count as int) == Err::<
                    Seq<Object>,
                    DecodeError,
                >(e) && *final(src) == *old(src),
            },
    {
        if count > MAX_OBJECTS {
            return Err(DecodeError { kind: ErrorKind::ImplausibleCount, offset: objtab });
        }
        let mut cur = *src;
        cur.seek_absolute(objtab)?;
        let b = cur.read_exact(OBJECT_SIZE * (count as usize))?;
        let ghost image = old(src).image();
        let mut objects: Vec<Object> = Vec::new();
        let mut i: usize = 0;
        while i < count as usize
            invariant
                i <= count <= MAX_OBJECTS,
                b@ == image.subrange(objtab as int, objtab + 24 * count),
                in_bounds(image, objtab as int, 24 * count),
                objects@ =~= Seq::new(i as nat, |k: int| object_at(image, objtab + 24 * k)),
            decreases count - i,
        {
            objects.push(Object::decode(b, OBJECT_SIZE * i));
            i = i + 1;
        }
        *src = cur;
        Ok(ObjectsTable { objects })
    }
}

} // verus!
