//! Why a request was not built.

use vstd::prelude::*;
use crate::dims::SpatialDims;

verus! {

/// A refusal. Each variant names one rule that the caller's parameters broke;
/// nothing has been handed to the device when one is returned.
#[derive(Clone, Copy, PartialEq, Eq, Structural, Debug)]
pub enum Error {
    /// The offset lies at or past the end of the memory object.
    OffsetOutOfRange { mem_len: usize, data_len: usize, offset: usize },
    /// The transfer would run past the end of the memory object.
    DataLenExceedsBuffer,
    /// A rectangular copy was given a destination offset or a length.
    RectCopyParams,
    /// A fill was asked for on a rectangular region.
    RectFill,
    /// A map was asked for on a rectangular region.
    RectMap,
    /// The builder was consumed before any operation was chosen.
    NoOperation,
    /// A map operation was sent down the general path.
    MapUsesEnqMap,
    /// The map path was taken before a map operation was chosen.
    NoMapOperation,
    /// An operation other than map was sent down the map path.
    NotAMapOperation,
    /// A sub-buffer starts past the end of its parent.
    SubBufferOrigin { origin: SpatialDims, buffer: SpatialDims },
    /// A sub-buffer runs past the end of its parent.
    SubBufferRegion { origin: SpatialDims, size: SpatialDims, buffer: SpatialDims },
    /// The mapped window has been released already.
    AlreadyUnmapped,
    /// The mapped window was never told how to release itself.
    UnmapNotDeferred,
}

impl Error {
    /// What went wrong and what to do about it, in words.
    pub open spec fn spec_message(self) -> Seq<char> {
        match self {
            Error::OffsetOutOfRange { .. } => "offset out of range: it must lie inside the memory object"@,
            Error::DataLenExceedsBuffer => "data length exceeds the length of the memory object"@,
            Error::RectCopyParams =>
                "a rectangular copy takes neither a destination offset nor a length: pass `None` for both"@,
            Error::RectFill => "a rectangular fill is not a valid operation: use linear addressing"@,
            Error::RectMap => "a rectangular map is not a valid operation: use linear addressing"@,
            Error::NoOperation => "no operation chosen: choose one, such as `read` or `write`, before `enq`"@,
            Error::MapUsesEnqMap => "a map operation is consumed by `enq_map`, not by `enq`"@,
            Error::NoMapOperation => "no operation chosen: call `map` before `enq_map`"@,
            Error::NotAMapOperation => "an operation other than map is consumed by `enq`, not by `enq_map`"@,
            Error::SubBufferOrigin { .. } => "the origin of the sub-buffer lies outside the buffer"@,
            Error::SubBufferRegion { .. } => "the region of the sub-buffer exceeds the buffer"@,
            Error::AlreadyUnmapped => "the mapped memory has been unmapped already"@,
            Error::UnmapNotDeferred => "`unmap` can only be called after `unmap_later`"@,
        }
    }

    /// What went wrong and what to do about it, in words.
    pub fn message(&self) -> (msg: &'static str)
        ensures
            msg@ == self.spec_message(),
    {
        match self {
            Error::OffsetOutOfRange { .. } => "offset out of range: it must lie inside the memory object",
            Error::DataLenExceedsBuffer => "data length exceeds the length of the memory object",
            Error::RectCopyParams =>
                "a rectangular copy takes neither a destination offset nor a length: pass `None` for both",
            Error::RectFill => "a rectangular fill is not a valid operation: use linear addressing",
            Error::RectMap => "a rectangular map is not a valid operation: use linear addressing",
            Error::NoOperation => "no operation chosen: choose one, such as `read` or `write`, before `enq`",
            Error::MapUsesEnqMap => "a map operation is consumed by `enq_map`, not by `enq`",
            Error::NoMapOperation => "no operation chosen: call `map` before `enq_map`",
            Error::NotAMapOperation => "an operation other than map is consumed by `enq`, not by `enq_map`",
            Error::SubBufferOrigin { .. } => "the origin of the sub-buffer lies outside the buffer",
            Error::SubBufferRegion { .. } => "the region of the sub-buffer exceeds the buffer",
            Error::AlreadyUnmapped => "the mapped memory has been unmapped already",
            Error::UnmapNotDeferred => "`unmap` can only be called after `unmap_later`",
        }
    }
}

} // verus!
