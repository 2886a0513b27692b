//! Buffers: memory objects of a declared shape.

use vstd::prelude::*;
use std::marker::PhantomData;
use crate::command::{BufferCmd, BufferCmdKind, BufferCmdView, BufferOp};
use crate::dims::SpatialDims;
use crate::error::Error;
use crate::sub_buffer::{SubBuffer, SubBufferAlloc, SubBufferAllocView, BufferRegion, region_error};
use crate::handle::{AsMemRef, MemCore, MemFlags, Queue};

verus! {

/// Where the memory of a new buffer comes from.
#[derive(Debug, PartialEq)]
pub enum BufferSource<'d, T> {
    /// Fresh device memory, initialised from `data` where it is given.
    Host { data: Option<&'d [T]> },
    /// A buffer object of the graphics library, shared with the device.
    GlBuffer { gl_object: u32 },
}

/// How a buffer that was given no initial data is set to zero.
#[derive(Clone, Copy, PartialEq, Eq, Structural, Debug)]
pub enum ZeroFill {
    /// The device fills the buffer with the zero value.
    DeviceFill,
    /// The host stages a zeroed region and writes it to the buffer.
    HostWrite,
}

/// The initialisation that a new buffer still needs: the zero value of its
/// elements and, where the host is to write it, the staged region.
#[derive(Debug, PartialEq)]
pub struct ZeroInit<T> {
    pub zero: T,
    pub staging: Option<Vec<T>>,
}

/// One fact that the runtime can be asked about a memory object.
#[derive(Clone, Copy, PartialEq, Eq, Structural, Debug)]
pub enum MemInfo {
    Type,
    Flags,
    Size,
    HostPtr,
    MapCount,
    ReferenceCount,
    Context,
    AssociatedMemobject,
    Offset,
}

/// A question to the runtime: the fact `kind` about the memory object `mem`.
#[derive(Clone, Copy, PartialEq, Eq, Structural, Debug)]
pub struct MemInfoQuery {
    pub mem: MemCore,
    pub kind: MemInfo,
}

/// A buffer that has been decided on and is yet to be created by the
/// runtime, as contracts see it.
pub struct BufferAllocView<'d, T> {
    pub queue: Queue,
    pub flags: MemFlags,
    pub dims: SpatialDims,
    pub len: usize,
    pub source: BufferSource<'d, T>,
}

/// A buffer that has been decided on and is yet to be created by the
/// runtime. The caller has the runtime create the memory object that the
/// fields describe and passes its handle to [`BufferAlloc::finish`].
#[derive(Debug)]
pub struct BufferAlloc<'d, T> {
    queue: Queue,
    flags: MemFlags,
    dims: SpatialDims,
    len: usize,
    source: BufferSource<'d, T>,
}

/// A buffer, as contracts see it.
pub struct BufferView {
    pub obj_core: MemCore,
    pub queue: Queue,
    pub dims: SpatialDims,
    pub len: usize,
    pub flags: MemFlags,
}

/// A block of memory on a device: the handle of the memory object, the queue
/// its requests go to by default, its shape, its length and its flags.
#[derive(Debug)]
pub struct Buffer<T> {
    obj_core: MemCore,
    queue: Queue,
    dims: SpatialDims,
    len: usize,
    flags: MemFlags,
    _data: PhantomData<T>,
}

impl<'d, T> View for BufferAlloc<'d, T> {
    type V = BufferAllocView<'d, T>;

    closed spec fn view(&self) -> BufferAllocView<'d, T> {
        BufferAllocView {
            queue: self.queue,
            flags: self.flags,
            dims: self.dims,
            len: self.len,
            source: self.source,
        }
    }
}

impl<T> View for Buffer<T> {
    type V = BufferView;

    closed spec fn view(&self) -> BufferView {
        BufferView {
            obj_core: self.obj_core,
            queue: self.queue,
            dims: self.dims,
            len: self.len,
            flags: self.flags,
        }
    }
}

impl<'d, T> BufferAllocView<'d, T> {
    /// What holds of every pending buffer: its length is that of its shape.
    pub open spec fn wf(self) -> bool {
        self.len == self.dims.spec_len()
    }

    /// Whether the buffer must be set to zero once it is created: it is
    /// fresh device memory and no initial data was given.
    pub open spec fn needs_zero_fill(self) -> bool {
        self.source matches BufferSource::Host { data } && data is None
    }

    /// The buffer that comes of it once the runtime has created `obj_core`.
    pub open spec fn finish(self, obj_core: MemCore) -> BufferView {
        BufferView { obj_core, queue: self.queue, dims: self.dims, len: self.len, flags: self.flags }
    }
}

impl BufferView {
    /// What holds of every buffer: its length is that of its shape.
    pub open spec fn wf(self) -> bool {
        self.len == self.dims.spec_len()
    }

    /// A fresh builder for the buffer: no operation chosen, linear
    /// addressing at offset 0, blocking on, no events.
    pub open spec fn cmd<'b, T>(&'b self) -> BufferCmdView<'b, T> {
        BufferCmdView::fresh(&self.queue, &self.obj_core, self.len)
    }
}

impl BufferView {
    /// Whether `cmd` is the builder of the request that sets this buffer to
    /// zero as `init` says: a fresh builder for the buffer that holds a write
    /// of the staged region or, where none is staged, a fill of the whole
    /// buffer with the zero value.
    pub open spec fn zero_cmd<'b, T>(&'b self, init: ZeroInit<T>, cmd: BufferCmdView<'b, T>) -> bool {
        &&& (BufferCmdView { kind: BufferCmdKind::Unspecified, ..cmd }) == self.cmd::<T>()
        &&& match init.staging {
            Some(zeros) => cmd.kind matches BufferCmdKind::Write { data } && data@ == zeros@,
            None => cmd.kind matches BufferCmdKind::Fill { pattern, len } && pattern == init.zero
                && len is None,
        }
    }
}

impl<T> ZeroInit<T> {
    /// Whether the initialisation is one of a buffer of `len` elements by
    /// `strategy`: a region is staged for a host write and for nothing else,
    /// and it holds `len` copies of the zero value.
    pub open spec fn is_for(self, len: usize, strategy: ZeroFill) -> bool {
        match strategy {
            ZeroFill::DeviceFill => self.staging is None,
            ZeroFill::HostWrite => self.staging matches Some(zeros) && zeros@ == Seq::new(
                len as nat,
                |i: int| self.zero,
            ),
        }
    }
}

impl<'d, T> BufferAlloc<'d, T> {
    #[verifier::type_invariant]
    spec fn inv(self) -> bool {
        self@.wf()
    }

    /// The queue whose context the memory object is to be created in.
    pub fn queue(&self) -> (queue: Queue)
        ensures
            queue == self@.queue,
    {
        self.queue
    }

    /// The flags to create the memory object with.
    pub fn flags(&self) -> (flags: MemFlags)
        ensures
            flags == self@.flags,
    {
        self.flags
    }

    /// The number of elements to create the memory object with.
    pub fn len(&self) -> (len: usize)
        ensures
            len == self@.len,
            len == self@.dims.spec_len(),
    {
        proof {
            use_type_invariant(self);
        }
        self.len
    }

    /// Where the memory is to come from.
    pub fn source(&self) -> (source: &BufferSource<'d, T>)
        ensures
            *source == self@.source,
    {
        &self.source
    }

    /// Makes the buffer of the memory object `obj_core`, which the runtime
    /// created as the fields describe. Where the buffer was given no initial
    /// data, the second result is the initialisation it still needs, by the
    /// strategy `zero_fill`: submit [`Buffer::zero_cmd`] of it.
    pub fn finish(self, obj_core: MemCore, zero_fill: ZeroFill) -> (res: (Buffer<T>, Option<ZeroInit<T>>))
        where T: Copy + Default
        ensures
            res.0@ == self@.finish(obj_core),
            res.1 is Some == self@.needs_zero_fill(),
            res.1 matches Some(init) ==> init.is_for(self@.len, zero_fill) && call_ensures(
                T::default,
                (),
                init.zero,
            ),
    {
        proof {
            use_type_invariant(&self);
        }
        let needs_zero_fill = match &self.source {
            BufferSource::Host { data } => data.is_none(),
            BufferSource::GlBuffer { .. } => false,
        };
        let len = self.len;
        let buffer = Buffer {
            obj_core,
            queue: self.queue,
            dims: self.dims,
            len,
            flags: self.flags,
            _data: PhantomData,
        };
        if !needs_zero_fill {
            return (buffer, None);
        }
        let zero = T::default();
        let staging = match zero_fill {
            ZeroFill::DeviceFill => None,
            ZeroFill::HostWrite => {
                let mut zeros: Vec<T> = Vec::new();
                let mut i: usize = 0;
                while i < len
                    invariant
                        i <= len,
                        zeros@ == Seq::new(i as nat, |j: int| zero),
                    decreases len - i,
                {
                    zeros.push(zero);
                    i = i + 1;
                }
                Some(zeros)
            },
        };
        (buffer, Some(ZeroInit { zero, staging }))
    }
}

impl<T> Buffer<T> {
    #[verifier::type_invariant]
    spec fn inv(self) -> bool {
        self@.wf()
    }

    /// Decides on a buffer of the shape `dims`, to be created in the context
    /// of `queue`. `flags_opt` defaults to read and write. Where `data` is
    /// given, the runtime initialises the buffer from it.
    pub fn new<'d>(queue: Queue, flags_opt: Option<MemFlags>, dims: SpatialDims, data: Option<&'d [T]>) -> (alloc:
        BufferAlloc<'d, T>)
        requires
            dims.spec_len() <= usize::MAX,
        ensures
            alloc@ == (BufferAllocView {
                queue,
                flags: flags_opt.unwrap_or(MemFlags::read_write()),
                dims,
                len: dims.spec_len() as usize,
                source: BufferSource::Host { data },
            }),
    {
        let flags = flags_opt.unwrap_or(MemFlags::read_write());
        let len = dims.to_len();
        BufferAlloc { queue, flags, dims, len, source: BufferSource::Host { data } }
    }

    /// Decides on a buffer that shares the buffer object `gl_object` of the
    /// graphics library. `flags_opt` defaults to read and write. Such a
    /// buffer is never set to zero.
    pub fn from_gl_buffer<'d>(queue: Queue, flags_opt: Option<MemFlags>, dims: SpatialDims, gl_object: u32) -> (alloc:
        BufferAlloc<'d, T>)
        requires
            dims.spec_len() <= usize::MAX,
        ensures
            alloc@ == (BufferAllocView::<'d, T> {
                queue,
                flags: flags_opt.unwrap_or(MemFlags::read_write()),
                dims,
                len: dims.spec_len() as usize,
                source: BufferSource::GlBuffer { gl_object },
            }),
            !alloc@.needs_zero_fill(),
    {
        let flags = flags_opt.unwrap_or(MemFlags::read_write());
        let len = dims.to_len();
        BufferAlloc { queue, flags, dims, len, source: BufferSource::GlBuffer { gl_object } }
    }

    /// A builder of one operation on this buffer, submitted on its default
    /// queue unless told otherwise.
    pub fn cmd(&self) -> (cmd: BufferCmd<'_, T>)
        ensures
            cmd@ == self@.cmd::<T>(),
    {
        BufferCmd::new(&self.queue, &self.obj_core, self.len)
    }

    /// A builder of a blocking read of this buffer into `data`.
    pub fn read<'b>(&'b self, data: &'b mut [T]) -> (cmd: BufferCmd<'b, T>)
        ensures
            cmd@.kind matches BufferCmdKind::Read { data: dst } && dst@ == old(data)@ && final(dst)@
                == final(data)@,
            (BufferCmdView { kind: BufferCmdKind::<'b, T>::Unspecified, ..cmd@ }) == (BufferCmdView {
                lock_block: true,
                ..self@.cmd::<T>()
            }),
    {
        self.cmd().read(data)
    }

    /// A builder of a write of `data` to this buffer.
    pub fn write<'b>(&'b self, data: &'b [T]) -> (cmd: BufferCmd<'b, T>)
        ensures
            cmd@ == (BufferCmdView {
                kind: BufferCmdKind::Write { data },
                ..self@.cmd::<T>()
            }),
    {
        self.cmd().write(data)
    }

    /// A builder of the request that sets this buffer to zero as `init`
    /// says: a fill of the whole buffer with the zero value, or a write of
    /// the staged region.
    pub fn zero_cmd<'b>(&'b self, init: &'b ZeroInit<T>) -> (cmd: BufferCmd<'b, T>)
        where T: Copy
        ensures
            self@.zero_cmd(*init, cmd@),
    {
        match &init.staging {
            Some(zeros) => self.cmd().write(zeros.as_slice()),
            None => self.cmd().fill(init.zero, None),
        }
    }

    /// The number of elements of the buffer: the length of its shape.
    pub fn len(&self) -> (len: usize)
        ensures
            len == self@.len,
            len == self@.dims.spec_len(),
    {
        proof {
            use_type_invariant(self);
        }
        self.len
    }

    /// The shape of the buffer.
    pub fn dims(&self) -> (dims: &SpatialDims)
        ensures
            *dims == self@.dims,
    {
        &self.dims
    }

    /// The question to put to the runtime for the fact `info_kind` about the
    /// memory object of this buffer.
    pub fn mem_info(&self, info_kind: MemInfo) -> (query: MemInfoQuery)
        ensures
            query == (MemInfoQuery { mem: self@.obj_core, kind: info_kind }),
    {
        MemInfoQuery { mem: self.obj_core, kind: info_kind }
    }

    /// Makes `queue` the queue that requests on this buffer go to by default.
    /// No other buffer is affected.
    pub fn set_default_queue<'a>(&'a mut self, queue: &Queue) -> (buffer: &'a mut Buffer<T>)
        ensures
            buffer@ == (BufferView { queue: *queue, ..old(self)@ }),
            *final(self) == *final(buffer),
    {
        proof {
            use_type_invariant(&*self);
        }
        self.queue = *queue;
        self
    }

    /// The queue that requests on this buffer go to by default.
    pub fn default_queue(&self) -> (queue: &Queue)
        ensures
            *queue == self@.queue,
    {
        &self.queue
    }

    /// The handle of the memory object.
    pub fn core_as_ref(&self) -> (obj_core: &MemCore)
        ensures
            *obj_core == self@.obj_core,
    {
        &self.obj_core
    }

    /// The flags the memory object was created with.
    pub fn flags(&self) -> (flags: MemFlags)
        ensures
            flags == self@.flags,
    {
        self.flags
    }

    /// Decides on the sub-buffer of this buffer that spans `size` from
    /// `origin`. It is refused where the region does not lie inside the
    /// buffer. `flags` defaults to read and write.
    pub fn create_sub_buffer(&self, flags: Option<MemFlags>, origin: SpatialDims, size: SpatialDims) -> (res:
        Result<SubBufferAlloc<T>, Error>)
        ensures
            res is Err <==> origin.spec_len() + size.spec_len() > self@.len,
            match region_error(self@, origin, size) {
                Some(e) => res matches Err(err) && err == e,
                None => res matches Ok(alloc) && alloc@ == (SubBufferAllocView {
                    parent: self@.obj_core,
                    queue: self@.queue,
                    origin,
                    size,
                    region: BufferRegion {
                        origin: origin.spec_len() as usize,
                        len: size.spec_len() as usize,
                    },
                    flags: flags.unwrap_or(MemFlags::read_write()),
                }),
            },
    {
        SubBuffer::new(self, flags, origin, size)
    }
}

impl<T> std::ops::Deref for Buffer<T> {
    type Target = MemCore;

    /// The handle of the memory object.
    fn deref(&self) -> (obj_core: &MemCore)
        ensures
            *obj_core == self@.obj_core,
    {
        &self.obj_core
    }
}

impl<T> AsRef<MemCore> for Buffer<T> {
    /// The handle of the memory object.
    fn as_ref(&self) -> (obj_core: &MemCore)
        ensures
            *obj_core == self@.obj_core,
    {
        &self.obj_core
    }
}

impl<T> AsMemRef<T> for Buffer<T> {
    open spec fn mem_ref(&self) -> MemCore {
        self@.obj_core
    }

    fn as_mem_ref(&self) -> (mem: &MemCore) {
        &self.obj_core
    }
}

impl<T> Clone for Buffer<T> {
    /// Another name for the same memory object, with the same default queue.
    fn clone(&self) -> (buffer: Buffer<T>)
        ensures
            buffer@ == self@,
    {
        proof {
            use_type_invariant(self);
        }
        Buffer {
            obj_core: self.obj_core,
            queue: self.queue,
            dims: self.dims,
            len: self.len,
            flags: self.flags,
            _data: PhantomData,
        }
    }
}

/// Both ways of setting a buffer to zero ask for the same thing. Whichever
/// strategy `init` was made for, on a buffer that is not empty the request is
/// let through and stores the zero value in every element of the buffer.
pub proof fn lemma_zero_cmd_zeroes<'b, T>(
    buffer: &'b BufferView,
    strategy: ZeroFill,
    init: ZeroInit<T>,
    cmd: BufferCmdView<'b, T>,
    op: BufferOp<'b, T>,
)
    requires
        buffer.len > 0,
        init.is_for(buffer.len, strategy),
        buffer.zero_cmd(init, cmd),
        cmd.yields_op(op),
    ensures
        cmd.enq_error() is None,
        op.stores() == Some((0usize, Seq::new(buffer.len as nat, |i: int| init.zero))),
{
}

} // verus!
