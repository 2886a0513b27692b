//! Plain-value names for the objects that the device runtime owns.
//!
//! A handle is the runtime's pointer-sized token for one of its objects. The
//! crate stores handles, compares them and passes them on; it never looks
//! behind one.

use vstd::prelude::*;

verus! {

/// The token of a command queue: the channel through which requests reach one
/// device.
#[derive(Clone, Copy, PartialEq, Eq, Structural, Debug, Hash)]
pub struct Queue {
    pub raw: usize,
}

/// The token of a block of memory that resides on a device.
#[derive(Clone, Copy, PartialEq, Eq, Structural, Debug, Hash)]
pub struct MemCore {
    pub raw: usize,
}

/// What can stand for a memory object of elements `T`, such as the
/// destination of a copy.
pub trait AsMemRef<T> {
    /// The handle of the memory object.
    spec fn mem_ref(&self) -> MemCore;

    /// The handle of the memory object.
    fn as_mem_ref(&self) -> (mem: &MemCore)
        ensures
            *mem == self.mem_ref(),
    ;
}

impl<T> AsMemRef<T> for MemCore {
    open spec fn mem_ref(&self) -> MemCore {
        *self
    }

    fn as_mem_ref(&self) -> (mem: &MemCore) {
        self
    }
}

/// The token of an event: the completion signal of one submitted request.
#[derive(Clone, Copy, PartialEq, Eq, Structural, Debug, Hash)]
pub struct Event {
    pub raw: usize,
}

/// Bit of [`MemFlags`]: the device may both read and write the memory.
pub const MEM_READ_WRITE: u64 = 1;

/// The access policy a memory object is created with, as a bit mask.
#[derive(Clone, Copy, PartialEq, Eq, Structural, Debug, Hash)]
pub struct MemFlags {
    pub bits: u64,
}

impl MemFlags {
    /// The policy used where the caller names none: read and write.
    pub open spec fn spec_read_write() -> MemFlags {
        MemFlags { bits: MEM_READ_WRITE }
    }

    /// The policy used where the caller names none: read and write.
    #[verifier::when_used_as_spec(spec_read_write)]
    pub fn read_write() -> (flags: MemFlags)
        ensures
            flags == Self::spec_read_write(),
    {
        MemFlags { bits: MEM_READ_WRITE }
    }
}

/// How the host means to use a mapped window, as a bit mask.
#[derive(Clone, Copy, PartialEq, Eq, Structural, Debug, Hash)]
pub struct MapFlags {
    pub bits: u64,
}

impl MapFlags {
    /// No flag set.
    pub open spec fn spec_empty() -> MapFlags {
        MapFlags { bits: 0 }
    }

    /// No flag set.
    #[verifier::when_used_as_spec(spec_empty)]
    pub fn empty() -> (flags: MapFlags)
        ensures
            flags == Self::spec_empty(),
    {
        MapFlags { bits: 0 }
    }
}

} // verus!
