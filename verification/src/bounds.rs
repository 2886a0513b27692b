//! The bound that every linear transfer must meet.

use vstd::prelude::*;
use crate::error::Error;

verus! {

/// A transfer of `data_len` elements at `offset` lies inside a memory object
/// of `mem_len` elements: it starts strictly inside the object and does not
/// run past its end. No transfer lies inside an empty object.
pub open spec fn in_bounds(mem_len: usize, data_len: usize, offset: usize) -> bool {
    offset < mem_len && data_len <= mem_len - offset
}

/// The refusal that a transfer meets, if any: a bad offset is reported before
/// an overrun.
pub open spec fn len_error(mem_len: usize, data_len: usize, offset: usize) -> Option<Error> {
    if offset >= mem_len {
        Some(Error::OffsetOutOfRange { mem_len, data_len, offset })
    } else if data_len > mem_len - offset {
        Some(Error::DataLenExceedsBuffer)
    } else {
        None
    }
}

/// Checks a linear transfer against the length of the memory object.
pub fn check_len(mem_len: usize, data_len: usize, offset: usize) -> (res: Result<(), Error>)
    ensures
        res is Ok <==> in_bounds(mem_len, data_len, offset),
        res is Ok <==> offset + data_len <= mem_len && offset < mem_len,
        match len_error(mem_len, data_len, offset) {
            Some(e) => res == Err::<(), Error>(e),
            None => res == Ok::<(), Error>(()),
        },
{
    if offset >= mem_len {
        Err(Error::OffsetOutOfRange { mem_len, data_len, offset })
    } else if data_len > mem_len - offset {
        Err(Error::DataLenExceedsBuffer)
    } else {
        Ok(())
    }
}

/// A transfer is refused exactly where it does not lie inside the memory
/// object. In particular a transfer at the very end of the object is refused
/// even where it is empty, and so is every transfer on an empty object.
pub proof fn lemma_len_error_iff(mem_len: usize, data_len: usize, offset: usize)
    ensures
        len_error(mem_len, data_len, offset) is None <==> in_bounds(mem_len, data_len, offset),
        in_bounds(mem_len, data_len, offset) <==> offset < mem_len && offset + data_len <= mem_len,
        offset == mem_len ==> len_error(mem_len, data_len, offset) is Some,
        mem_len == 0 ==> len_error(mem_len, data_len, offset) is Some,
{
}

} // verus!
