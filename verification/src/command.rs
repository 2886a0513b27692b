//! The single-use builder of one memory operation, and the requests it
//! yields.

use vstd::prelude::*;
use std::marker::PhantomData;
use crate::bounds::{check_len, in_bounds, len_error};
use crate::error::Error;
use crate::handle::{AsMemRef, Event, MapFlags, MemCore, Queue};

verus! {

/// The operation a builder has been told to perform.
#[allow(inconsistent_fields)]
#[derive(Debug, PartialEq)]
pub enum BufferCmdKind<'b, T> {
    Unspecified,
    Read { data: &'b mut [T] },
    Write { data: &'b [T] },
    MapBuffer { flags: Option<MapFlags>, len: Option<usize> },
    Copy { dst_buffer: &'b MemCore, dst_offset: Option<usize>, len: Option<usize> },
    Fill { pattern: T, len: Option<usize> },
    CopyToImage { image: &'b MemCore, dst_origin: [usize; 3], region: [usize; 3] },
    GLAcquire,
    GLRelease,
}

impl<'b, T> BufferCmdKind<'b, T> {
    /// Whether no operation has been chosen yet.
    pub fn is_unspec(&self) -> (unspec: bool)
        ensures
            unspec == (*self is Unspecified),
    {
        match self {
            BufferCmdKind::Unspecified => true,
            _ => false,
        }
    }
}

/// How the memory touched by an operation is addressed: as one contiguous run
/// that starts at an offset, or as a box of rows and slices.
#[derive(Clone, Copy, PartialEq, Eq, Debug)]
pub enum BufferCmdDataShape {
    Lin { offset: usize },
    Rect {
        src_origin: [usize; 3],
        dst_origin: [usize; 3],
        region: [usize; 3],
        src_row_pitch: usize,
        src_slc_pitch: usize,
        dst_row_pitch: usize,
        dst_slc_pitch: usize,
    },
}

/// A box of rows and slices, as a rectangular request names it.
#[derive(Clone, Copy, PartialEq, Eq, Debug)]
pub struct RectRegion {
    pub src_origin: [usize; 3],
    pub dst_origin: [usize; 3],
    pub region: [usize; 3],
    pub src_row_pitch: usize,
    pub src_slc_pitch: usize,
    pub dst_row_pitch: usize,
    pub dst_slc_pitch: usize,
}

impl BufferCmdDataShape {
    /// The box that a rectangular shape names.
    pub open spec fn rect(self) -> RectRegion
        recommends
            self is Rect,
    {
        RectRegion {
            src_origin: self->src_origin,
            dst_origin: self->dst_origin,
            region: self->region,
            src_row_pitch: self->src_row_pitch,
            src_slc_pitch: self->src_slc_pitch,
            dst_row_pitch: self->dst_row_pitch,
            dst_slc_pitch: self->dst_slc_pitch,
        }
    }
}

/// One device operation with every parameter settled.
#[allow(inconsistent_fields)]
#[derive(Debug, PartialEq)]
pub enum BufferOp<'b, T> {
    /// Read `data.len()` elements, starting at `offset`, into `data`.
    Read { block: bool, offset: usize, data: &'b mut [T] },
    /// Read the box `rect` into `data`.
    ReadRect { block: bool, rect: RectRegion, data: &'b mut [T] },
    /// Write all of `data` to the memory object, starting at `offset`.
    Write { block: bool, offset: usize, data: &'b [T] },
    /// Write `data` to the box `rect`.
    WriteRect { block: bool, rect: RectRegion, data: &'b [T] },
    /// Copy `len` elements from `src_offset` to `dst_offset` of `dst_buffer`.
    Copy { dst_buffer: &'b MemCore, src_offset: usize, dst_offset: usize, len: usize },
    /// Copy the box `rect` to `dst_buffer`.
    CopyRect { dst_buffer: &'b MemCore, rect: RectRegion },
    /// Store `pattern` over `len` elements, starting at `offset`.
    Fill { pattern: T, offset: usize, len: usize },
    /// Take the memory object over from the graphics library.
    GLAcquire,
    /// Give the memory object back to the graphics library.
    GLRelease,
}

impl<'b, T> BufferOp<'b, T> {
    /// Whether the operation is a read that makes the caller wait until the
    /// device has finished.
    pub open spec fn is_blocking_read(self) -> bool {
        match self {
            BufferOp::Read { block, .. } => block,
            BufferOp::ReadRect { block, .. } => block,
            _ => false,
        }
    }

    /// What a linear write or fill stores in the memory object: the offset
    /// of the first element stored and the elements, in order.
    pub open spec fn stores(self) -> Option<(usize, Seq<T>)> {
        match self {
            BufferOp::Write { offset, data, .. } => Some((offset, data@)),
            BufferOp::Fill { pattern, offset, len } => Some(
                (offset, Seq::new(len as nat, |i: int| pattern)),
            ),
            _ => None,
        }
    }
}

/// A validated request for the general path: the operation `op` on the memory
/// object `obj_core`, to be submitted on `queue` after the events of `ewait`,
/// with its completion event stored in `enew`.
#[derive(Debug, PartialEq)]
pub struct Enqueue<'b, T> {
    pub queue: &'b Queue,
    pub obj_core: &'b MemCore,
    pub op: BufferOp<'b, T>,
    pub ewait: Option<&'b [Event]>,
    pub enew: Option<&'b mut Event>,
}

/// A validated request for the map path: map `len` elements of type `T` of
/// the memory object `obj_core`, starting at `offset`, into host memory.
#[derive(Debug, PartialEq)]
pub struct EnqueueMap<'b, T> {
    pub queue: &'b Queue,
    pub obj_core: &'b MemCore,
    pub block: bool,
    pub flags: MapFlags,
    pub offset: usize,
    pub len: usize,
    pub ewait: Option<&'b [Event]>,
    pub enew: Option<&'b mut Event>,
    pub elem: PhantomData<T>,
}

/// What a builder holds, as contracts see it.
pub struct BufferCmdView<'b, T> {
    pub queue: &'b Queue,
    pub obj_core: &'b MemCore,
    pub block: bool,
    pub lock_block: bool,
    pub kind: BufferCmdKind<'b, T>,
    pub shape: BufferCmdDataShape,
    pub ewait: Option<&'b [Event]>,
    pub enew: Option<&'b mut Event>,
    pub mem_len: usize,
}

/// A builder of one memory operation. It starts with no operation chosen,
/// linear addressing at offset 0 and blocking on; configuration calls change
/// one facet each; [`BufferCmd::enq`] or [`BufferCmd::enq_map`] consumes it.
pub struct BufferCmd<'b, T> {
    queue: &'b Queue,
    obj_core: &'b MemCore,
    block: bool,
    lock_block: bool,
    kind: BufferCmdKind<'b, T>,
    shape: BufferCmdDataShape,
    ewait: Option<&'b [Event]>,
    enew: Option<&'b mut Event>,
    mem_len: usize,
}

impl<'b, T> View for BufferCmd<'b, T> {
    type V = BufferCmdView<'b, T>;

    closed spec fn view(&self) -> BufferCmdView<'b, T> {
        BufferCmdView {
            queue: self.queue,
            obj_core: self.obj_core,
            block: self.block,
            lock_block: self.lock_block,
            kind: self.kind,
            shape: self.shape,
            ewait: self.ewait,
            enew: self.enew,
            mem_len: self.mem_len,
        }
    }
}

impl<'b, T> BufferCmdView<'b, T> {
    /// What holds of every builder: a locked builder is a blocking read.
    pub open spec fn wf(self) -> bool {
        self.lock_block ==> self.block && self.kind is Read
    }

    /// A builder as it starts out: no operation chosen, linear addressing at
    /// offset 0, blocking on and free to be changed, no events.
    pub open spec fn fresh(queue: &'b Queue, obj_core: &'b MemCore, mem_len: usize) -> Self {
        BufferCmdView {
            queue,
            obj_core,
            block: true,
            lock_block: false,
            kind: BufferCmdKind::Unspecified,
            shape: BufferCmdDataShape::Lin { offset: 0 },
            ewait: None,
            enew: None,
            mem_len,
        }
    }

    /// Whether an operation may still be chosen.
    pub open spec fn accepts_kind(self) -> bool {
        self.kind is Unspecified
    }

    /// Whether blocking may be set to `block`.
    pub open spec fn accepts_block(self, block: bool) -> bool {
        block || !self.lock_block
    }

    /// Whether a linear offset may be set.
    pub open spec fn accepts_offset(self) -> bool {
        self.shape is Lin
    }

    /// Whether a rectangular region may be set.
    pub open spec fn accepts_rect(self) -> bool {
        self.shape matches BufferCmdDataShape::Lin { offset } ==> offset == 0
    }

    /// Whether the general path can consume the builder: it has no request
    /// for a copy to an image.
    pub open spec fn accepts_enq(self) -> bool {
        !(self.kind is CopyToImage)
    }
}

impl<'b, T> BufferCmdView<'b, T> {
    /// The number of elements the chosen operation moves: the length of the
    /// host data, or the length asked for, the whole memory object by default.
    pub open spec fn transfer_len(self) -> usize {
        match self.kind {
            BufferCmdKind::Read { data } => data@.len() as usize,
            BufferCmdKind::Write { data } => data@.len() as usize,
            BufferCmdKind::MapBuffer { len, .. } => len.unwrap_or(self.mem_len),
            BufferCmdKind::Copy { len, .. } => len.unwrap_or(self.mem_len),
            BufferCmdKind::Fill { len, .. } => len.unwrap_or(self.mem_len),
            _ => 0,
        }
    }

    /// Why the general path refuses the builder, if it does. Linear reads,
    /// writes, copies and fills must lie inside the memory object;
    /// rectangular reads, writes and copies are left to the device to check.
    /// A copy to an image is not refused: the general path cannot consume it
    /// at all (see [`BufferCmdView::accepts_enq`]).
    pub open spec fn enq_error(self) -> Option<Error> {
        match self.kind {
            BufferCmdKind::Unspecified => Some(Error::NoOperation),
            BufferCmdKind::MapBuffer { .. } => Some(Error::MapUsesEnqMap),
            BufferCmdKind::Read { .. } | BufferCmdKind::Write { .. } => match self.shape {
                BufferCmdDataShape::Lin { offset } => len_error(
                    self.mem_len,
                    self.transfer_len(),
                    offset,
                ),
                BufferCmdDataShape::Rect { .. } => None,
            },
            BufferCmdKind::Copy { dst_offset, len, .. } => match self.shape {
                BufferCmdDataShape::Lin { offset } => len_error(
                    self.mem_len,
                    self.transfer_len(),
                    offset,
                ),
                BufferCmdDataShape::Rect { .. } => if dst_offset is Some || len is Some {
                    Some(Error::RectCopyParams)
                } else {
                    None
                },
            },
            BufferCmdKind::Fill { .. } => match self.shape {
                BufferCmdDataShape::Lin { offset } => len_error(
                    self.mem_len,
                    self.transfer_len(),
                    offset,
                ),
                BufferCmdDataShape::Rect { .. } => Some(Error::RectFill),
            },
            BufferCmdKind::GLAcquire | BufferCmdKind::GLRelease | BufferCmdKind::CopyToImage { .. } => None,
        }
    }

    /// Whether `op` is the operation the builder asks for, with each default
    /// filled in. Of the destination of a read this speaks of the elements it
    /// holds now; [`BufferCmd::enq`] adds that it is the caller's own slice.
    pub open spec fn yields_op(self, op: BufferOp<'b, T>) -> bool {
        match self.kind {
            BufferCmdKind::Read { data } => match self.shape {
                BufferCmdDataShape::Lin { offset } => op matches BufferOp::Read {
                    block,
                    offset: at,
                    data: dst,
                } && block == self.block && at == offset && dst@ == data@,
                BufferCmdDataShape::Rect { .. } => op matches BufferOp::ReadRect {
                    block,
                    rect,
                    data: dst,
                } && block == self.block && rect == self.shape.rect() && dst@ == data@,
            },
            BufferCmdKind::Write { data } => match self.shape {
                BufferCmdDataShape::Lin { offset } => op == (BufferOp::Write {
                    block: self.block,
                    offset,
                    data,
                }),
                BufferCmdDataShape::Rect { .. } => op == (BufferOp::WriteRect {
                    block: self.block,
                    rect: self.shape.rect(),
                    data,
                }),
            },
            BufferCmdKind::Copy { dst_buffer, dst_offset, len } => match self.shape {
                BufferCmdDataShape::Lin { offset } => {
                    let copy: BufferOp<'b, T> = BufferOp::Copy {
                        dst_buffer,
                        src_offset: offset,
                        dst_offset: dst_offset.unwrap_or(0),
                        len: len.unwrap_or(self.mem_len),
                    };
                    op == copy
                },
                BufferCmdDataShape::Rect { .. } => {
                    let copy: BufferOp<'b, T> = BufferOp::CopyRect {
                        dst_buffer,
                        rect: self.shape.rect(),
                    };
                    op == copy
                },
            },
            BufferCmdKind::Fill { pattern, len } => match self.shape {
                BufferCmdDataShape::Lin { offset } => op == (BufferOp::Fill {
                    pattern,
                    offset,
                    len: len.unwrap_or(self.mem_len),
                }),
                BufferCmdDataShape::Rect { .. } => false,
            },
            BufferCmdKind::GLAcquire => op is GLAcquire,
            BufferCmdKind::GLRelease => op is GLRelease,
            _ => false,
        }
    }

    /// Whether `req` is the request the builder asks for on the general
    /// path: its operation, on its memory object and queue, with its wait
    /// list and its event slot.
    pub open spec fn yields(self, req: Enqueue<'b, T>) -> bool {
        &&& req.queue == self.queue
        &&& req.obj_core == self.obj_core
        &&& req.ewait == self.ewait
        &&& req.enew == self.enew
        &&& self.yields_op(req.op)
    }

    /// Why the map path refuses the builder, if it does.
    pub open spec fn enq_map_error(self) -> Option<Error> {
        match self.kind {
            BufferCmdKind::MapBuffer { .. } => match self.shape {
                BufferCmdDataShape::Lin { offset } => len_error(
                    self.mem_len,
                    self.transfer_len(),
                    offset,
                ),
                BufferCmdDataShape::Rect { .. } => Some(Error::RectMap),
            },
            BufferCmdKind::Unspecified => Some(Error::NoMapOperation),
            _ => Some(Error::NotAMapOperation),
        }
    }

    /// The request the builder asks for on the map path, with each default
    /// filled in: no flags, the whole memory object.
    pub open spec fn map_request(self) -> EnqueueMap<'b, T>
        recommends
            self.kind is MapBuffer,
            self.shape is Lin,
    {
        EnqueueMap {
            queue: self.queue,
            obj_core: self.obj_core,
            block: self.block,
            flags: self.kind->flags.unwrap_or(MapFlags::empty()),
            offset: self.shape->offset,
            len: self.transfer_len(),
            ewait: self.ewait,
            enew: self.enew,
            elem: PhantomData,
        }
    }
}

impl<'b, T> BufferCmd<'b, T> {
    #[verifier::type_invariant]
    spec fn inv(self) -> bool {
        self@.wf()
    }

    /// A builder for the memory object `obj_core` of `mem_len` elements, to
    /// be submitted on `queue` unless told otherwise.
    pub fn new(queue: &'b Queue, obj_core: &'b MemCore, mem_len: usize) -> (cmd: BufferCmd<'b, T>)
        ensures
            cmd@ == BufferCmdView::<'b, T>::fresh(queue, obj_core, mem_len),
    {
        BufferCmd {
            queue,
            obj_core,
            block: true,
            lock_block: false,
            kind: BufferCmdKind::Unspecified,
            shape: BufferCmdDataShape::Lin { offset: 0 },
            ewait: None,
            enew: None,
            mem_len,
        }
    }

    /// Submits on `queue` instead, for this request only.
    pub fn queue(self, queue: &'b Queue) -> (cmd: BufferCmd<'b, T>)
        ensures
            cmd@ == (BufferCmdView { queue, ..self@ }),
    {
        proof {
            use_type_invariant(&self);
        }
        BufferCmd { queue, ..self }
    }

    /// Sets whether the caller waits until the device has finished.
    pub fn block(self, block: bool) -> (cmd: BufferCmd<'b, T>)
        requires
            self@.accepts_block(block),
        ensures
            cmd@ == (BufferCmdView { block, ..self@ }),
    {
        proof {
            use_type_invariant(&self);
        }
        BufferCmd { block, ..self }
    }

    /// Addresses the memory object linearly, starting at `offset`.
    pub fn offset(self, offset: usize) -> (cmd: BufferCmd<'b, T>)
        requires
            self@.accepts_offset(),
        ensures
            cmd@ == (BufferCmdView { shape: BufferCmdDataShape::Lin { offset }, ..self@ }),
    {
        proof {
            use_type_invariant(&self);
        }
        BufferCmd { shape: BufferCmdDataShape::Lin { offset }, ..self }
    }

    /// Chooses a blocking read into `dst_data`. From here on the builder
    /// refuses to have blocking switched off.
    pub fn read(self, dst_data: &'b mut [T]) -> (cmd: BufferCmd<'b, T>)
        requires
            self@.accepts_kind(),
        ensures
            cmd@.kind matches BufferCmdKind::Read { data } && data@ == old(dst_data)@
                && final(data)@ == final(dst_data)@,
            (BufferCmdView { kind: BufferCmdKind::<'b, T>::Unspecified, ..cmd@ }) == (BufferCmdView {
                block: true,
                lock_block: true,
                ..self@
            }),
            !cmd@.accepts_kind(),
    {
        proof {
            use_type_invariant(&self);
        }
        BufferCmd { kind: BufferCmdKind::Read { data: dst_data }, block: true, lock_block: true, ..self }
    }

    /// Chooses a read into `dst_data` that leaves blocking as it stands and
    /// free to be changed. A caller who switches blocking off must keep
    /// `dst_data` untouched until the device has finished.
    pub fn read_async(self, dst_data: &'b mut [T]) -> (cmd: BufferCmd<'b, T>)
        requires
            self@.accepts_kind(),
        ensures
            cmd@.kind matches BufferCmdKind::Read { data } && data@ == old(dst_data)@
                && final(data)@ == final(dst_data)@,
            (BufferCmdView { kind: BufferCmdKind::<'b, T>::Unspecified, ..cmd@ }) == self@,
            !cmd@.accepts_kind(),
    {
        proof {
            use_type_invariant(&self);
        }
        BufferCmd { kind: BufferCmdKind::Read { data: dst_data }, ..self }
    }

    /// Chooses a write of `src_data`.
    pub fn write(self, src_data: &'b [T]) -> (cmd: BufferCmd<'b, T>)
        requires
            self@.accepts_kind(),
        ensures
            cmd@ == (BufferCmdView { kind: BufferCmdKind::Write { data: src_data }, ..self@ }),
            !cmd@.accepts_kind(),
    {
        proof {
            use_type_invariant(&self);
        }
        BufferCmd { kind: BufferCmdKind::Write { data: src_data }, ..self }
    }

    /// Chooses a map of `len` elements into host memory; `None` stands for
    /// the whole memory object.
    pub fn map(self, flags: Option<MapFlags>, len: Option<usize>) -> (cmd: BufferCmd<'b, T>)
        requires
            self@.accepts_kind(),
        ensures
            cmd@ == (BufferCmdView { kind: BufferCmdKind::MapBuffer { flags, len }, ..self@ }),
            !cmd@.accepts_kind(),
    {
        proof {
            use_type_invariant(&self);
        }
        BufferCmd { kind: BufferCmdKind::MapBuffer { flags, len }, ..self }
    }

    /// Chooses a copy to `dst_buffer`. With linear addressing `None` stands
    /// for offset 0 and for the whole memory object; with rectangular
    /// addressing both must be `None`.
    pub fn copy<M: AsMemRef<T>>(self, dst_buffer: &'b M, dst_offset: Option<usize>, len: Option<usize>) -> (cmd:
        BufferCmd<'b, T>)
        requires
            self@.accepts_kind(),
        ensures
            cmd@ == (BufferCmdView {
                kind: BufferCmdKind::Copy { dst_buffer: &dst_buffer.mem_ref(), dst_offset, len },
                ..self@
            }),
            !cmd@.accepts_kind(),
    {
        proof {
            use_type_invariant(&self);
        }
        BufferCmd { kind: BufferCmdKind::Copy { dst_buffer: dst_buffer.as_mem_ref(), dst_offset, len }, ..self }
    }

    /// Chooses a copy of the memory object to the box `region` of `image`
    /// that starts at `dst_origin`.
    pub fn copy_to_image(self, image: &'b MemCore, dst_origin: [usize; 3], region: [usize; 3]) -> (cmd:
        BufferCmd<'b, T>)
        requires
            self@.accepts_kind(),
        ensures
            cmd@ == (BufferCmdView {
                kind: BufferCmdKind::CopyToImage { image, dst_origin, region },
                ..self@
            }),
            !cmd@.accepts_kind(),
    {
        proof {
            use_type_invariant(&self);
        }
        BufferCmd { kind: BufferCmdKind::CopyToImage { image, dst_origin, region }, ..self }
    }

    /// Chooses to take the memory object over from the graphics library.
    pub fn gl_acquire(self) -> (cmd: BufferCmd<'b, T>)
        requires
            self@.accepts_kind(),
        ensures
            cmd@ == (BufferCmdView { kind: BufferCmdKind::GLAcquire, ..self@ }),
            !cmd@.accepts_kind(),
    {
        proof {
            use_type_invariant(&self);
        }
        BufferCmd { kind: BufferCmdKind::GLAcquire, ..self }
    }

    /// Chooses to give the memory object back to the graphics library.
    pub fn gl_release(self) -> (cmd: BufferCmd<'b, T>)
        requires
            self@.accepts_kind(),
        ensures
            cmd@ == (BufferCmdView { kind: BufferCmdKind::GLRelease, ..self@ }),
            !cmd@.accepts_kind(),
    {
        proof {
            use_type_invariant(&self);
        }
        BufferCmd { kind: BufferCmdKind::GLRelease, ..self }
    }

    /// Chooses a fill with `pattern` over `len` elements; `None` stands for
    /// the whole memory object.
    pub fn fill(self, pattern: T, len: Option<usize>) -> (cmd: BufferCmd<'b, T>)
        requires
            self@.accepts_kind(),
        ensures
            cmd@ == (BufferCmdView { kind: BufferCmdKind::Fill { pattern, len }, ..self@ }),
            !cmd@.accepts_kind(),
    {
        proof {
            use_type_invariant(&self);
        }
        BufferCmd { kind: BufferCmdKind::Fill { pattern, len }, ..self }
    }

    /// Addresses the memory object as a box of rows and slices.
    pub fn rect(
        self,
        src_origin: [usize; 3],
        dst_origin: [usize; 3],
        region: [usize; 3],
        src_row_pitch: usize,
        src_slc_pitch: usize,
        dst_row_pitch: usize,
        dst_slc_pitch: usize,
    ) -> (cmd: BufferCmd<'b, T>)
        requires
            self@.accepts_rect(),
        ensures
            cmd@ == (BufferCmdView {
                shape: BufferCmdDataShape::Rect {
                    src_origin,
                    dst_origin,
                    region,
                    src_row_pitch,
                    src_slc_pitch,
                    dst_row_pitch,
                    dst_slc_pitch,
                },
                ..self@
            }),
    {
        proof {
            use_type_invariant(&self);
        }
        BufferCmd {
            shape: BufferCmdDataShape::Rect {
                src_origin,
                dst_origin,
                region,
                src_row_pitch,
                src_slc_pitch,
                dst_row_pitch,
                dst_slc_pitch,
            },
            ..self
        }
    }

    /// Makes the request wait for the events of `ewait`.
    pub fn ewait(self, ewait: &'b [Event]) -> (cmd: BufferCmd<'b, T>)
        ensures
            cmd@ == (BufferCmdView { ewait: Some(ewait), ..self@ }),
    {
        proof {
            use_type_invariant(&self);
        }
        BufferCmd { ewait: Some(ewait), ..self }
    }

    /// Makes the request wait for the events of `ewait`, or for none.
    pub fn ewait_opt(self, ewait: Option<&'b [Event]>) -> (cmd: BufferCmd<'b, T>)
        ensures
            cmd@ == (BufferCmdView { ewait, ..self@ }),
    {
        proof {
            use_type_invariant(&self);
        }
        BufferCmd { ewait, ..self }
    }

    /// Has the completion event of the request stored in `enew`.
    pub fn enew(self, enew: &'b mut Event) -> (cmd: BufferCmd<'b, T>)
        ensures
            cmd@.enew matches Some(slot) && *slot == *old(enew) && *final(slot) == *final(enew),
            (BufferCmdView { enew: None, ..cmd@ }) == (BufferCmdView { enew: None, ..self@ }),
    {
        proof {
            use_type_invariant(&self);
        }
        BufferCmd { enew: Some(enew), ..self }
    }

    /// Has the completion event of the request stored in `enew`, or nowhere.
    pub fn enew_opt(self, enew: Option<&'b mut Event>) -> (cmd: BufferCmd<'b, T>)
        ensures
            cmd@ == (BufferCmdView { enew, ..self@ }),
    {
        proof {
            use_type_invariant(&self);
        }
        BufferCmd { enew, ..self }
    }

    /// The operation chosen so far.
    pub fn kind(&self) -> (kind: &BufferCmdKind<'b, T>)
        ensures
            *kind == self@.kind,
    {
        &self.kind
    }

    /// The addressing chosen so far.
    pub fn shape(&self) -> (shape: &BufferCmdDataShape)
        ensures
            *shape == self@.shape,
    {
        &self.shape
    }

    /// Whether the caller is to wait until the device has finished.
    pub fn is_blocking(&self) -> (block: bool)
        ensures
            block == self@.block,
    {
        self.block
    }

    /// Whether an operation may still be chosen.
    pub fn accepts_kind(&self) -> (accepts: bool)
        ensures
            accepts == self@.accepts_kind(),
    {
        self.kind.is_unspec()
    }

    /// Whether blocking may be set to `block`.
    pub fn accepts_block(&self, block: bool) -> (accepts: bool)
        ensures
            accepts == self@.accepts_block(block),
    {
        block || !self.lock_block
    }

    /// Whether a linear offset may be set.
    pub fn accepts_offset(&self) -> (accepts: bool)
        ensures
            accepts == self@.accepts_offset(),
    {
        match self.shape {
            BufferCmdDataShape::Lin { .. } => true,
            BufferCmdDataShape::Rect { .. } => false,
        }
    }

    /// Whether a rectangular region may be set.
    pub fn accepts_rect(&self) -> (accepts: bool)
        ensures
            accepts == self@.accepts_rect(),
    {
        match self.shape {
            BufferCmdDataShape::Lin { offset } => offset == 0,
            BufferCmdDataShape::Rect { .. } => true,
        }
    }

    /// Whether the general path can consume the builder.
    pub fn accepts_enq(&self) -> (accepts: bool)
        ensures
            accepts == self@.accepts_enq(),
    {
        match self.kind {
            BufferCmdKind::CopyToImage { .. } => false,
            _ => true,
        }
    }

    /// Consumes the builder on the general path. Returns the request to
    /// submit, or the rule that the builder breaks; a builder that is refused
    /// has submitted nothing.
    pub fn enq(self) -> (res: Result<Enqueue<'b, T>, Error>)
        requires
            self@.accepts_enq(),
        ensures
            match self@.enq_error() {
                Some(e) => res matches Err(err) && err == e,
                None => res matches Ok(req) && self@.yields(req),
            },
            res matches Ok(req) ==> (req.op matches BufferOp::Read { data, .. }
                ==> self@.kind matches BufferCmdKind::Read { data: dst } && final(data)@ == final(dst)@),
            res matches Ok(req) ==> (req.op matches BufferOp::ReadRect { data, .. }
                ==> self@.kind matches BufferCmdKind::Read { data: dst } && final(data)@ == final(dst)@),
            self@.lock_block ==> (res matches Ok(req) ==> req.op.is_blocking_read()),
    {
        proof {
            use_type_invariant(&self);
        }
        let BufferCmd { queue, obj_core, block, lock_block: _, kind, shape, ewait, enew, mem_len } = self;
        let op = match kind {
            BufferCmdKind::Read { data } => match shape {
                BufferCmdDataShape::Lin { offset } => {
                    if let Err(e) = check_len(mem_len, data.len(), offset) {
                        return Err(e);
                    }
                    BufferOp::Read { block, offset, data }
                },
                BufferCmdDataShape::Rect {
                    src_origin,
                    dst_origin,
                    region,
                    src_row_pitch,
                    src_slc_pitch,
                    dst_row_pitch,
                    dst_slc_pitch,
                } => BufferOp::ReadRect {
                    block,
                    rect: RectRegion {
                        src_origin,
                        dst_origin,
                        region,
                        src_row_pitch,
                        src_slc_pitch,
                        dst_row_pitch,
                        dst_slc_pitch,
                    },
                    data,
                },
            },
            BufferCmdKind::Write { data } => match shape {
                BufferCmdDataShape::Lin { offset } => {
                    if let Err(e) = check_len(mem_len, data.len(), offset) {
                        return Err(e);
                    }
                    BufferOp::Write { block, offset, data }
                },
                BufferCmdDataShape::Rect {
                    src_origin,
                    dst_origin,
                    region,
                    src_row_pitch,
                    src_slc_pitch,
                    dst_row_pitch,
                    dst_slc_pitch,
                } => BufferOp::WriteRect {
                    block,
                    rect: RectRegion {
                        src_origin,
                        dst_origin,
                        region,
                        src_row_pitch,
                        src_slc_pitch,
                        dst_row_pitch,
                        dst_slc_pitch,
                    },
                    data,
                },
            },
            BufferCmdKind::Copy { dst_buffer, dst_offset, len } => match shape {
                BufferCmdDataShape::Lin { offset } => {
                    let len = len.unwrap_or(mem_len);
                    if let Err(e) = check_len(mem_len, len, offset) {
                        return Err(e);
                    }
                    let dst_offset = dst_offset.unwrap_or(0);
                    BufferOp::Copy { dst_buffer, src_offset: offset, dst_offset, len }
                },
                BufferCmdDataShape::Rect {
                    src_origin,
                    dst_origin,
                    region,
                    src_row_pitch,
                    src_slc_pitch,
                    dst_row_pitch,
                    dst_slc_pitch,
                } => {
                    if dst_offset.is_some() || len.is_some() {
                        return Err(Error::RectCopyParams);
                    }
                    BufferOp::CopyRect {
                        dst_buffer,
                        rect: RectRegion {
                            src_origin,
                            dst_origin,
                            region,
                            src_row_pitch,
                            src_slc_pitch,
                            dst_row_pitch,
                            dst_slc_pitch,
                        },
                    }
                },
            },
            BufferCmdKind::Fill { pattern, len } => match shape {
                BufferCmdDataShape::Lin { offset } => {
                    let len = len.unwrap_or(mem_len);
                    if let Err(e) = check_len(mem_len, len, offset) {
                        return Err(e);
                    }
                    BufferOp::Fill { pattern, offset, len }
                },
                BufferCmdDataShape::Rect { .. } => {
                    return Err(Error::RectFill);
                },
            },
            BufferCmdKind::GLAcquire => BufferOp::GLAcquire,
            BufferCmdKind::GLRelease => BufferOp::GLRelease,
            BufferCmdKind::Unspecified => {
                return Err(Error::NoOperation);
            },
            BufferCmdKind::MapBuffer { .. } => {
                return Err(Error::MapUsesEnqMap);
            },
            BufferCmdKind::CopyToImage { .. } => unreached(),
        };
        Ok(Enqueue { queue, obj_core, op, ewait, enew })
    }

    /// Consumes the builder on the map path. Returns the request to submit,
    /// or the rule that the builder breaks.
    pub fn enq_map(self) -> (res: Result<EnqueueMap<'b, T>, Error>)
        ensures
            match self@.enq_map_error() {
                Some(e) => res matches Err(err) && err == e,
                None => res matches Ok(req) && req == self@.map_request(),
            },
    {
        proof {
            use_type_invariant(&self);
        }
        let BufferCmd { queue, obj_core, block, lock_block: _, kind, shape, ewait, enew, mem_len } = self;
        match kind {
            BufferCmdKind::MapBuffer { flags, len } => match shape {
                BufferCmdDataShape::Lin { offset } => {
                    let len = len.unwrap_or(mem_len);
                    if let Err(e) = check_len(mem_len, len, offset) {
                        return Err(e);
                    }
                    let flags = flags.unwrap_or(MapFlags::empty());
                    Ok(EnqueueMap { queue, obj_core, block, flags, offset, len, ewait, enew, elem: PhantomData })
                },
                BufferCmdDataShape::Rect { .. } => Err(Error::RectMap),
            },
            BufferCmdKind::Unspecified => Err(Error::NoMapOperation),
            _ => Err(Error::NotAMapOperation),
        }
    }
}

/// An operation is chosen at most once: a builder that holds any operation,
/// whichever selector put it there, is accepted by none of the selectors.
pub proof fn lemma_kind_chosen_once<'b, T>(cmd: BufferCmdView<'b, T>, kind: BufferCmdKind<'b, T>)
    requires
        !(kind is Unspecified),
    ensures
        !(BufferCmdView { kind, ..cmd }).accepts_kind(),
{
}

/// Linear and rectangular addressing exclude each other: a builder with a
/// rectangular region accepts no offset, and one with an offset other than
/// 0 accepts no rectangular region.
pub proof fn lemma_shapes_exclude<'b, T>(cmd: BufferCmdView<'b, T>)
    ensures
        cmd.shape is Rect ==> !cmd.accepts_offset(),
        cmd.shape matches BufferCmdDataShape::Lin { offset } && offset != 0 ==> !cmd.accepts_rect(),
{
}

/// A rectangular builder is refused a fill, a map, and a copy that names a
/// destination offset or a length; no request comes of any of them.
pub proof fn lemma_rect_refusals<'b, T>(cmd: BufferCmdView<'b, T>)
    requires
        cmd.shape is Rect,
    ensures
        cmd.kind is Fill ==> cmd.enq_error() == Some(Error::RectFill),
        cmd.kind is MapBuffer ==> cmd.enq_map_error() == Some(Error::RectMap),
        cmd.kind matches BufferCmdKind::Copy { dst_offset, len, .. } ==> (cmd.enq_error() == Some(
            Error::RectCopyParams,
        ) <==> dst_offset is Some || len is Some),
        cmd.kind matches BufferCmdKind::Copy { dst_offset, len, .. } ==> (cmd.enq_error() is None
            <==> dst_offset is None && len is None),
{
}

/// Every linear request that is let through lies inside the memory object:
/// it starts strictly inside it and ends at or before its end.
pub proof fn lemma_linear_requests_in_bounds<'b, T>(cmd: BufferCmdView<'b, T>)
    requires
        cmd.shape is Lin,
    ensures
        (cmd.kind is Read || cmd.kind is Write || cmd.kind is Copy || cmd.kind is Fill) ==> (
        cmd.enq_error() is None <==> in_bounds(cmd.mem_len, cmd.transfer_len(), cmd.shape->offset)),
        cmd.kind is MapBuffer ==> (cmd.enq_map_error() is None <==> in_bounds(
            cmd.mem_len,
            cmd.transfer_len(),
            cmd.shape->offset,
        )),
{
}

/// The two paths exclude each other: whatever the general path lets
/// through, the map path refuses, and the other way round. A builder with
/// no operation is refused by both.
pub proof fn lemma_paths_exclude<'b, T>(cmd: BufferCmdView<'b, T>)
    ensures
        cmd.accepts_enq() && cmd.enq_error() is None ==> cmd.enq_map_error() is Some,
        cmd.enq_map_error() is None ==> cmd.enq_error() == Some(Error::MapUsesEnqMap),
        cmd.kind is Unspecified ==> cmd.enq_error() == Some(Error::NoOperation) && cmd.enq_map_error()
            == Some(Error::NoMapOperation),
{
}

/// A read that was chosen as blocking stays blocking: whatever request
/// comes of a locked builder makes the caller wait.
pub proof fn lemma_locked_read_blocks<'b, T>(cmd: BufferCmdView<'b, T>, op: BufferOp<'b, T>)
    requires
        cmd.wf(),
        cmd.lock_block,
        cmd.yields_op(op),
    ensures
        op.is_blocking_read(),
{
}

} // verus!
