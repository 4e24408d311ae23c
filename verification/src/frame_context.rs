use vstd::prelude::*;

use crate::events::Event;

verus! {

/// The per-frame context owned by the frame orchestrator: the live input
/// queue staged for the hosted simulation, and the viewport size reported
/// by the host window.
///
/// One such value is passed by reference into every callback that needs it,
/// localizing the frame's mutable state to a single owner.
pub struct FrameContext {
    events: Vec<Event>,
    viewport_width: u32,
    viewport_height: u32,
}

impl FrameContext {
    /// The queued events, front first: `queue()[0]` is polled next.
    pub closed spec fn queue(self) -> Seq<Event> {
        self.events@
    }

    pub closed spec fn viewport(self) -> (u32, u32) {
        (self.viewport_width, self.viewport_height)
    }

    /// An empty context: no queued events, a zero-sized viewport.
    pub fn new() -> (r: Self)
        ensures
            r.queue() == Seq::<Event>::empty(),
            r.viewport() == (0u32, 0u32),
    {
        FrameContext { events: Vec::new(), viewport_width: 0, viewport_height: 0 }
    }

    /// Appends an event at the back of the live queue.
    pub fn enqueue_event(&mut self, event: Event)
        ensures
            final(self).queue() == old(self).queue().push(event),
            final(self).viewport() == old(self).viewport(),
    {
        self.events.push(event);
    }

    /// Hands out the next queued event, front first; `None` once the queue
    /// is drained for this frame.
    pub fn poll_events(&mut self) -> (r: Option<Event>)
        ensures
            old(self).queue().len() == 0 ==> {
                &&& r is None
                &&& *final(self) == *old(self)
            },
            old(self).queue().len() > 0 ==> {
                &&& r == Some(old(self).queue()[0])
                &&& final(self).queue() == old(self).queue().drop_first()
            },
            final(self).viewport() == old(self).viewport(),
    {
        if self.events.len() == 0 {
            None
        } else {
            Some(self.events.remove(0))
        }
    }

    /// Empties the live queue, as the orchestrator does before substituting
    /// recorded input for this frame.
    pub fn clear_events(&mut self)
        ensures
            final(self).queue() == Seq::<Event>::empty(),
            final(self).viewport() == old(self).viewport(),
    {
        self.events.clear();
    }

    /// How many events are queued for this frame.
    pub fn event_count(&self) -> (r: usize)
        ensures
            r == self.queue().len(),
    {
        self.events.len()
    }

    /// The `i`-th queued event, front first, without consuming it.
    pub fn event_at(&self, i: usize) -> (r: Event)
        requires
            i < self.queue().len(),
        ensures
            r == self.queue()[i as int],
    {
        self.events[i]
    }

    /// Records the host window's drawable size, in pixels.
    pub fn store_viewport_size(&mut self, size: (u32, u32))
        ensures
            final(self).viewport() == size,
            final(self).queue() == old(self).queue(),
    {
        self.viewport_width = size.0;
        self.viewport_height = size.1;
    }

    /// The viewport size last stored, as (width, height) in pixels.
    pub fn viewport_size(&self) -> (r: (u32, u32))
        ensures
            r == self.viewport(),
    {
        (self.viewport_width, self.viewport_height)
    }
}

} // verus!
