//! Host-visible windows onto device memory, and when they are released.

use vstd::prelude::*;
use std::marker::PhantomData;
use crate::error::Error;
use crate::handle::{Event, MemCore, Queue};

verus! {

/// What the runtime reports of one mapping: where the window starts in host
/// memory, how many elements it spans, and whether it has been released.
#[derive(Clone, Copy, PartialEq, Eq, Structural, Debug)]
pub struct MappedMemCore {
    pub ptr: usize,
    pub len: usize,
    pub unmapped: bool,
}

/// The parameters of a release that was put off: the queue to submit it on,
/// the memory object the window belongs to, the events to wait for, and the
/// slot for the completion event.
#[derive(Debug)]
struct DelayedUnmap {
    queue: Queue,
    mem: MemCore,
    ewait: Option<Vec<Event>>,
    enew: Option<Event>,
}

/// The parameters of a release that was put off, as contracts see them.
pub struct DelayedUnmapView {
    pub queue: Queue,
    pub mem: MemCore,
    pub ewait: Option<Seq<Event>>,
    pub enew: Option<Event>,
}

/// A mapped window, as contracts see it: the runtime's report, and the
/// release that was put off, if one was.
pub struct MappedMemView {
    pub core: MappedMemCore,
    pub delayed_unmap: Option<DelayedUnmapView>,
}

/// A request to release the window `mapped` of the memory object `mem`.
#[derive(Debug, PartialEq)]
pub struct EnqueueUnmap<'a> {
    pub queue: Queue,
    pub mem: MemCore,
    pub mapped: MappedMemCore,
    pub ewait: Option<&'a [Event]>,
    pub enew: Option<Event>,
}

/// A host-visible window onto device memory: the product of a map request.
#[derive(Debug)]
pub struct MappedMem<T> {
    core: MappedMemCore,
    delayed_unmap: Option<DelayedUnmap>,
    _data: PhantomData<T>,
}

/// The events of a wait list that may be absent.
pub open spec fn wait_list_view(wait_list: Option<Vec<Event>>) -> Option<Seq<Event>> {
    match wait_list {
        Some(events) => Some(events@),
        None => None,
    }
}

impl DelayedUnmap {
    spec fn view(self) -> DelayedUnmapView {
        DelayedUnmapView {
            queue: self.queue,
            mem: self.mem,
            ewait: wait_list_view(self.ewait),
            enew: self.enew,
        }
    }
}

impl<'a> EnqueueUnmap<'a> {
    /// The events the request waits for.
    pub open spec fn ewait_view(self) -> Option<Seq<Event>> {
        match self.ewait {
            Some(events) => Some(events@),
            None => None,
        }
    }
}

impl<T> View for MappedMem<T> {
    type V = MappedMemView;

    closed spec fn view(&self) -> MappedMemView {
        MappedMemView {
            core: self.core,
            delayed_unmap: match self.delayed_unmap {
                Some(delayed) => Some(delayed.view()),
                None => None,
            },
        }
    }
}

impl MappedMemView {
    /// The window after its release has been put off with these parameters.
    pub open spec fn unmap_later(
        self,
        queue: Queue,
        mem: MemCore,
        ewait: Option<Seq<Event>>,
        enew: Option<Event>,
    ) -> MappedMemView {
        MappedMemView { delayed_unmap: Some(DelayedUnmapView { queue, mem, ewait, enew }), ..self }
    }

    /// Whether the events of the release may be replaced: the window is
    /// still mapped and its release has been put off.
    pub open spec fn accepts_unmap_events(self) -> bool {
        !self.core.unmapped && self.delayed_unmap is Some
    }

    /// The window after the events of its release have been replaced. An
    /// argument that is `None` leaves what was captured before.
    pub open spec fn set_unmap_events(self, ewait: Option<Seq<Event>>, enew: Option<Event>) -> MappedMemView {
        match self.delayed_unmap {
            Some(delayed) => MappedMemView {
                delayed_unmap: Some(
                    DelayedUnmapView {
                        ewait: if ewait is Some {
                            ewait
                        } else {
                            delayed.ewait
                        },
                        enew: if enew is Some {
                            enew
                        } else {
                            delayed.enew
                        },
                        ..delayed
                    },
                ),
                ..self
            },
            None => self,
        }
    }

    /// Why an explicit release is refused, if it is.
    pub open spec fn unmap_error(self) -> Option<Error> {
        if self.core.unmapped {
            Some(Error::AlreadyUnmapped)
        } else if self.delayed_unmap is None {
            Some(Error::UnmapNotDeferred)
        } else {
            None
        }
    }

    /// Whether `req` asks for the release of this window with the captured
    /// parameters.
    pub open spec fn unmaps_with(self, req: EnqueueUnmap) -> bool {
        &&& self.delayed_unmap matches Some(delayed)
        &&& req.queue == delayed.queue
        &&& req.mem == delayed.mem
        &&& req.mapped == self.core
        &&& req.ewait_view() == delayed.ewait
        &&& req.enew == delayed.enew
    }

    /// Whether the end of the window's scope releases it: it is still mapped
    /// and its release has been put off.
    pub open spec fn releases_on_drop(self) -> bool {
        !self.core.unmapped && self.delayed_unmap is Some
    }

    /// The window after the runtime has released it.
    pub open spec fn mark_unmapped(self) -> MappedMemView {
        MappedMemView { core: MappedMemCore { unmapped: true, ..self.core }, ..self }
    }
}

impl<T> MappedMem<T> {
    /// Wraps the runtime's report of a mapping. The release is not put off.
    pub fn new(core: MappedMemCore) -> (mapped: MappedMem<T>)
        ensures
            mapped@ == (MappedMemView { core, delayed_unmap: None }),
    {
        MappedMem { core, delayed_unmap: None, _data: PhantomData }
    }

    /// Puts the release off until [`MappedMem::unmap`] is called or the
    /// window's scope ends, and captures the parameters to release it with.
    /// The caller sees to it that `wait_list` holds the event that signals
    /// the end of the map request.
    pub fn unmap_later(
        &mut self,
        queue: Queue,
        mem: MemCore,
        wait_list: Option<Vec<Event>>,
        new_event: Option<Event>,
    )
        ensures
            final(self)@ == old(self)@.unmap_later(queue, mem, wait_list_view(wait_list), new_event),
    {
        self.delayed_unmap = Some(DelayedUnmap { queue, mem, ewait: wait_list, enew: new_event });
    }

    /// Replaces the events of a release that was put off. An argument that
    /// is `None` leaves what was captured before.
    pub fn set_unmap_events<'a>(
        &'a mut self,
        wait_list: Option<Vec<Event>>,
        new_event: Option<Event>,
    ) -> (mapped: &'a mut MappedMem<T>)
        requires
            old(self)@.accepts_unmap_events(),
        ensures
            mapped@ == old(self)@.set_unmap_events(wait_list_view(wait_list), new_event),
            *final(self) == *final(mapped),
    {
        match &mut self.delayed_unmap {
            Some(delayed) => {
                if wait_list.is_some() {
                    delayed.ewait = wait_list;
                }
                if new_event.is_some() {
                    delayed.enew = new_event;
                }
            },
            None => {},
        }
        self
    }

    /// Decides an explicit release. Returns the request to submit, or the
    /// reason why there is none: the window has been released already, or
    /// its release was never put off.
    pub fn unmap(&self) -> (res: Result<EnqueueUnmap<'_>, Error>)
        ensures
            match self@.unmap_error() {
                Some(e) => res matches Err(err) && err == e,
                None => res matches Ok(req) && self@.unmaps_with(req),
            },
    {
        if self.core.unmapped {
            return Err(Error::AlreadyUnmapped);
        }
        match &self.delayed_unmap {
            Some(delayed) => {
                let ewait: Option<&[Event]> = match &delayed.ewait {
                    Some(events) => Some(events.as_slice()),
                    None => None,
                };
                Ok(
                    EnqueueUnmap {
                        queue: delayed.queue,
                        mem: delayed.mem,
                        mapped: self.core,
                        ewait,
                        enew: delayed.enew,
                    },
                )
            },
            None => Err(Error::UnmapNotDeferred),
        }
    }

    /// Decides the release at the end of the window's scope. Returns the
    /// request to submit, or `None` where nothing is to be done: the window
    /// has been released already, or its release was never put off.
    pub fn on_drop(&self) -> (res: Option<EnqueueUnmap<'_>>)
        ensures
            res is Some == self@.releases_on_drop(),
            res matches Some(req) ==> self@.unmaps_with(req),
    {
        match self.unmap() {
            Ok(req) => Some(req),
            Err(_) => None,
        }
    }

    /// Records that the runtime has released the window.
    pub fn mark_unmapped(&mut self)
        ensures
            final(self)@ == old(self)@.mark_unmapped(),
    {
        self.core.unmapped = true;
    }

    /// Whether the window has been released.
    pub fn is_unmapped(&self) -> (unmapped: bool)
        ensures
            unmapped == self@.core.unmapped,
    {
        self.core.unmapped
    }

    /// Whether the release has been put off.
    pub fn has_unmap_later(&self) -> (deferred: bool)
        ensures
            deferred == self@.delayed_unmap is Some,
    {
        self.delayed_unmap.is_some()
    }

    /// Whether the events of the release may be replaced.
    pub fn accepts_unmap_events(&self) -> (accepts: bool)
        ensures
            accepts == self@.accepts_unmap_events(),
    {
        !self.core.unmapped && self.delayed_unmap.is_some()
    }
}

impl<T> std::ops::Deref for MappedMem<T> {
    type Target = MappedMemCore;

    /// The runtime's report of the mapping.
    fn deref(&self) -> (core: &MappedMemCore)
        ensures
            *core == self@.core,
    {
        &self.core
    }
}

impl<T> AsRef<MappedMemCore> for MappedMem<T> {
    fn as_ref(&self) -> (core: &MappedMemCore)
        ensures
            *core == self@.core,
    {
        &self.core
    }
}

/// A window is released at most once. Once the runtime has released it, an
/// explicit release is refused and the end of its scope does nothing. A
/// window whose release was never put off is not released at the end of its
/// scope either, so that nothing can fail there.
pub proof fn lemma_released_once(mapped: MappedMemView)
    ensures
        mapped.mark_unmapped().unmap_error() == Some(Error::AlreadyUnmapped),
        !mapped.mark_unmapped().releases_on_drop(),
        mapped.delayed_unmap is None ==> !mapped.releases_on_drop(),
        mapped.releases_on_drop() <==> mapped.unmap_error() is None,
{
}

/// Replacing the events of a release that was put off changes the wait list
/// and the event slot, each only where a new one is given, and nothing else:
/// the queue, the memory object and the runtime's report stay as they were.
pub proof fn lemma_set_unmap_events_after_unmap_later(
    mapped: MappedMemView,
    queue: Queue,
    mem: MemCore,
    ewait: Option<Seq<Event>>,
    enew: Option<Event>,
    new_ewait: Option<Seq<Event>>,
    new_enew: Option<Event>,
)
    ensures
        mapped.unmap_later(queue, mem, ewait, enew).set_unmap_events(new_ewait, new_enew)
            == mapped.unmap_later(
            queue,
            mem,
            if new_ewait is Some {
                new_ewait
            } else {
                ewait
            },
            if new_enew is Some {
                new_enew
            } else {
                enew
            },
        ),
        mapped.unmap_later(queue, mem, ewait, enew).set_unmap_events(new_ewait, new_enew).core
            == mapped.core,
        !mapped.core.unmapped ==> mapped.unmap_later(queue, mem, ewait, enew).accepts_unmap_events(),
{
}

/// The events of a release cannot be replaced before the release has been
/// put off, nor after the window has been released.
pub proof fn lemma_set_unmap_events_needs_unmap_later(mapped: MappedMemView)
    ensures
        mapped.delayed_unmap is None ==> !mapped.accepts_unmap_events(),
        mapped.core.unmapped ==> !mapped.accepts_unmap_events(),
{
}

} // verus!
