//! Sub-buffers: views of a region of a buffer.

use vstd::prelude::*;
use std::marker::PhantomData;
use crate::buffer::{Buffer, BufferView, MemInfo, MemInfoQuery};
use crate::command::{BufferCmd, BufferCmdKind, BufferCmdView};
use crate::dims::SpatialDims;
use crate::error::Error;
use crate::handle::{AsMemRef, MemCore, MemFlags, Queue};

verus! {

/// A run of elements of a memory object: where it starts and how long it is.
#[derive(Clone, Copy, PartialEq, Eq, Structural, Debug)]
pub struct BufferRegion {
    pub origin: usize,
    pub len: usize,
}

/// A sub-buffer that has been decided on and is yet to be created by the
/// runtime, as contracts see it.
pub struct SubBufferAllocView {
    pub parent: MemCore,
    pub queue: Queue,
    pub origin: SpatialDims,
    pub size: SpatialDims,
    pub region: BufferRegion,
    pub flags: MemFlags,
}

/// A sub-buffer that has been decided on and is yet to be created by the
/// runtime: its region lies inside the parent. The caller has the runtime
/// create the memory object that the fields describe and passes its handle
/// to [`SubBufferAlloc::finish`]. The runtime may still refuse an origin that
/// the device cannot align.
#[derive(Debug)]
pub struct SubBufferAlloc<T> {
    parent: MemCore,
    queue: Queue,
    origin: SpatialDims,
    size: SpatialDims,
    region: BufferRegion,
    flags: MemFlags,
    _data: PhantomData<T>,
}

/// A sub-buffer, as contracts see it.
pub struct SubBufferView {
    pub obj_core: MemCore,
    pub queue: Queue,
    pub origin: SpatialDims,
    pub size: SpatialDims,
    pub len: usize,
    pub flags: MemFlags,
}

/// A region of a buffer with a memory object of its own, which shares the
/// storage of the parent.
#[derive(Debug)]
pub struct SubBuffer<T> {
    obj_core: MemCore,
    queue: Queue,
    origin: SpatialDims,
    size: SpatialDims,
    len: usize,
    flags: MemFlags,
    _data: PhantomData<T>,
}

impl<T> View for SubBufferAlloc<T> {
    type V = SubBufferAllocView;

    closed spec fn view(&self) -> SubBufferAllocView {
        SubBufferAllocView {
            parent: self.parent,
            queue: self.queue,
            origin: self.origin,
            size: self.size,
            region: self.region,
            flags: self.flags,
        }
    }
}

impl<T> View for SubBuffer<T> {
    type V = SubBufferView;

    closed spec fn view(&self) -> SubBufferView {
        SubBufferView {
            obj_core: self.obj_core,
            queue: self.queue,
            origin: self.origin,
            size: self.size,
            len: self.len,
            flags: self.flags,
        }
    }
}

impl SubBufferAllocView {
    /// What holds of every pending sub-buffer: its region is that of its
    /// origin and size.
    pub open spec fn wf(self) -> bool {
        self.region.origin == self.origin.spec_len() && self.region.len == self.size.spec_len()
    }

    /// The sub-buffer that comes of it once the runtime has created
    /// `obj_core`.
    pub open spec fn finish(self, obj_core: MemCore) -> SubBufferView {
        SubBufferView {
            obj_core,
            queue: self.queue,
            origin: self.origin,
            size: self.size,
            len: self.region.len,
            flags: self.flags,
        }
    }
}

impl SubBufferView {
    /// What holds of every sub-buffer: its length is that of its size.
    pub open spec fn wf(self) -> bool {
        self.len == self.size.spec_len()
    }

    /// A fresh builder for the sub-buffer: no operation chosen, linear
    /// addressing at offset 0, blocking on, no events.
    pub open spec fn cmd<'b, T>(&'b self) -> BufferCmdView<'b, T> {
        BufferCmdView::fresh(&self.queue, &self.obj_core, self.len)
    }
}

/// Why the region of `size` at `origin` cannot be a sub-buffer of `buffer`,
/// if it cannot: it starts past the end of the buffer, or it runs past it.
pub open spec fn region_error(buffer: BufferView, origin: SpatialDims, size: SpatialDims) -> Option<Error> {
    if origin.spec_len() > buffer.len {
        Some(Error::SubBufferOrigin { origin, buffer: buffer.dims })
    } else if origin.spec_len() + size.spec_len() > buffer.len {
        Some(Error::SubBufferRegion { origin, size, buffer: buffer.dims })
    } else {
        None
    }
}

/// A region is refused exactly where it does not lie inside the buffer.
pub proof fn lemma_region_error_iff(buffer: BufferView, origin: SpatialDims, size: SpatialDims)
    ensures
        region_error(buffer, origin, size) is None <==> origin.spec_len() + size.spec_len()
            <= buffer.len,
        region_error(buffer, origin, size) is None ==> origin.spec_len() <= buffer.len,
{
}

impl<T> SubBufferAlloc<T> {
    #[verifier::type_invariant]
    spec fn inv(self) -> bool {
        self@.wf()
    }

    /// The memory object that the sub-buffer is a region of.
    pub fn parent(&self) -> (parent: MemCore)
        ensures
            parent == self@.parent,
    {
        self.parent
    }

    /// The flags to create the memory object with.
    pub fn flags(&self) -> (flags: MemFlags)
        ensures
            flags == self@.flags,
    {
        self.flags
    }

    /// The region of the parent to create the memory object of.
    pub fn region(&self) -> (region: BufferRegion)
        ensures
            region == self@.region,
            region.origin == self@.origin.spec_len(),
            region.len == self@.size.spec_len(),
    {
        proof {
            use_type_invariant(self);
        }
        self.region
    }

    /// Makes the sub-buffer of the memory object `obj_core`, which the
    /// runtime created as the fields describe.
    pub fn finish(self, obj_core: MemCore) -> (sub: SubBuffer<T>)
        ensures
            sub@ == self@.finish(obj_core),
            sub@.len == self@.size.spec_len(),
    {
        proof {
            use_type_invariant(&self);
        }
        SubBuffer {
            obj_core,
            queue: self.queue,
            origin: self.origin,
            size: self.size,
            len: self.region.len,
            flags: self.flags,
            _data: PhantomData,
        }
    }
}

impl<T> SubBuffer<T> {
    #[verifier::type_invariant]
    spec fn inv(self) -> bool {
        self@.wf()
    }

    /// Decides on the sub-buffer of `buffer` that spans `size` from
    /// `origin`. It is refused where the region does not lie inside the
    /// buffer. `flags_opt` defaults to read and write; the default queue is
    /// that of `buffer` at this moment.
    pub fn new(buffer: &Buffer<T>, flags_opt: Option<MemFlags>, origin: SpatialDims, size: SpatialDims) -> (res:
        Result<SubBufferAlloc<T>, Error>)
        ensures
            res is Err <==> origin.spec_len() + size.spec_len() > buffer@.len,
            match region_error(buffer@, origin, size) {
                Some(e) => res matches Err(err) && err == e,
                None => res matches Ok(alloc) && alloc@ == (SubBufferAllocView {
                    parent: buffer@.obj_core,
                    queue: buffer@.queue,
                    origin,
                    size,
                    region: BufferRegion {
                        origin: origin.spec_len() as usize,
                        len: size.spec_len() as usize,
                    },
                    flags: flags_opt.unwrap_or(MemFlags::read_write()),
                }),
            },
    {
        let flags = flags_opt.unwrap_or(MemFlags::read_write());
        let buffer_len = buffer.len();
        let origin_len = match origin.checked_len() {
            Some(n) => n,
            None => {
                return Err(Error::SubBufferOrigin { origin, buffer: *buffer.dims() });
            },
        };
        if origin_len > buffer_len {
            return Err(Error::SubBufferOrigin { origin, buffer: *buffer.dims() });
        }
        let size_len = match size.checked_len() {
            Some(n) => n,
            None => {
                return Err(Error::SubBufferRegion { origin, size, buffer: *buffer.dims() });
            },
        };
        if size_len > buffer_len - origin_len {
            return Err(Error::SubBufferRegion { origin, size, buffer: *buffer.dims() });
        }
        Ok(
            SubBufferAlloc {
                parent: *buffer.core_as_ref(),
                queue: *buffer.default_queue(),
                origin,
                size,
                region: BufferRegion { origin: origin_len, len: size_len },
                flags,
                _data: PhantomData,
            },
        )
    }

    /// A builder of one operation on this sub-buffer, submitted on its
    /// default queue unless told otherwise.
    pub fn cmd(&self) -> (cmd: BufferCmd<'_, T>)
        ensures
            cmd@ == self@.cmd::<T>(),
    {
        BufferCmd::new(&self.queue, &self.obj_core, self.len)
    }

    /// A builder of a blocking read of this sub-buffer into `data`.
    pub fn read<'b>(&'b self, data: &'b mut [T]) -> (cmd: BufferCmd<'b, T>)
        ensures
            cmd@.kind matches BufferCmdKind::Read { data: dst } && dst@ == old(data)@ && final(dst)@
                == final(data)@,
            (BufferCmdView { kind: BufferCmdKind::<'b, T>::Unspecified, ..cmd@ }) == (BufferCmdView {
                lock_block: true,
                ..self@.cmd::<T>()
            }),
    {
        self.cmd().read(data)
    }

    /// A builder of a write of `data` to this sub-buffer.
    pub fn write<'b>(&'b self, data: &'b [T]) -> (cmd: BufferCmd<'b, T>)
        ensures
            cmd@ == (BufferCmdView {
                kind: BufferCmdKind::Write { data },
                ..self@.cmd::<T>()
            }),
    {
        self.cmd().write(data)
    }

    /// Where the sub-buffer starts within its parent.
    pub fn origin(&self) -> (origin: &SpatialDims)
        ensures
            *origin == self@.origin,
    {
        &self.origin
    }

    /// The shape of the sub-buffer.
    pub fn dims(&self) -> (dims: &SpatialDims)
        ensures
            *dims == self@.size,
    {
        &self.size
    }

    /// The number of elements of the sub-buffer: the length of its shape.
    pub fn len(&self) -> (len: usize)
        ensures
            len == self@.len,
            len == self@.size.spec_len(),
    {
        proof {
            use_type_invariant(self);
        }
        self.len
    }

    /// The question to put to the runtime for the fact `info_kind` about the
    /// memory object of this sub-buffer.
    pub fn mem_info(&self, info_kind: MemInfo) -> (query: MemInfoQuery)
        ensures
            query == (MemInfoQuery { mem: self@.obj_core, kind: info_kind }),
    {
        MemInfoQuery { mem: self.obj_core, kind: info_kind }
    }

    /// Makes `queue` the queue that requests on this sub-buffer go to by
    /// default. Neither the parent nor any other sub-buffer is affected.
    pub fn set_default_queue<'a>(&'a mut self, queue: Queue) -> (sub: &'a mut SubBuffer<T>)
        ensures
            sub@ == (SubBufferView { queue, ..old(self)@ }),
            *final(self) == *final(sub),
    {
        proof {
            use_type_invariant(&*self);
        }
        self.queue = queue;
        self
    }

    /// The queue that requests on this sub-buffer go to by default.
    pub fn default_queue(&self) -> (queue: &Queue)
        ensures
            *queue == self@.queue,
    {
        &self.queue
    }

    /// The handle of the memory object.
    pub fn core_as_ref(&self) -> (obj_core: &MemCore)
        ensures
            *obj_core == self@.obj_core,
    {
        &self.obj_core
    }

    /// The flags the memory object was created with.
    pub fn flags(&self) -> (flags: MemFlags)
        ensures
            flags == self@.flags,
    {
        self.flags
    }
}

impl<T> std::ops::Deref for SubBuffer<T> {
    type Target = MemCore;

    /// The handle of the memory object.
    fn deref(&self) -> (obj_core: &MemCore)
        ensures
            *obj_core == self@.obj_core,
    {
        &self.obj_core
    }
}

impl<T> AsRef<MemCore> for SubBuffer<T> {
    /// The handle of the memory object.
    fn as_ref(&self) -> (obj_core: &MemCore)
        ensures
            *obj_core == self@.obj_core,
    {
        &self.obj_core
    }
}

impl<T> AsMemRef<T> for SubBuffer<T> {
    open spec fn mem_ref(&self) -> MemCore {
        self@.obj_core
    }

    fn as_mem_ref(&self) -> (mem: &MemCore) {
        &self.obj_core
    }
}

impl<T> Clone for SubBuffer<T> {
    /// Another name for the same memory object, with the same default queue.
    fn clone(&self) -> (sub: SubBuffer<T>)
        ensures
            sub@ == self@,
    {
        proof {
            use_type_invariant(self);
        }
        SubBuffer {
            obj_core: self.obj_core,
            queue: self.queue,
            origin: self.origin,
            size: self.size,
            len: self.len,
            flags: self.flags,
            _data: PhantomData,
        }
    }
}

} // verus!
