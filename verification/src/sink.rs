//! The ordered buffer of translated application events.
//!
//! Protocol callbacks push events in; once per dispatch pass the owning loop
//! drains them, in insertion order, into the caller's callback.

use vstd::prelude::*;

use crate::events::{Event, WindowEvent, WindowId};

verus! {

/// An insertion-order-preserving buffer of application events.  Draining is
/// destructive and single-consumer.
pub struct EventsLoopSink {
    buffer: Vec<Event>,
}

impl EventsLoopSink {
    /// The sequence of events waiting to be delivered, oldest first.
    pub closed spec fn view(&self) -> Seq<Event> {
        self.buffer@
    }

    /// An empty sink.
    pub fn new() -> (s: EventsLoopSink)
        ensures
            s@ == Seq::<Event>::empty(),
    {
        EventsLoopSink { buffer: Vec::new() }
    }

    /// Buffers a window event, tagged with the window it concerns.
    pub fn send_event(&mut self, evt: WindowEvent, wid: WindowId)
        ensures
            final(self)@ == old(self)@.push(Event::WindowEvent { window_id: wid, event: evt }),
    {
        let evt = Event::WindowEvent { window_id: wid, event: evt };
        self.buffer.push(evt);
    }

    /// Buffers an already fully-formed event.
    pub fn send_raw_event(&mut self, evt: Event)
        ensures
            final(self)@ == old(self)@.push(evt),
    {
        self.buffer.push(evt);
    }

    /// Removes and returns all buffered events, oldest first; the caller
    /// feeds them to its callback one by one.
    pub fn empty_with(&mut self) -> (drained: Vec<Event>)
        ensures
            drained@ == old(self)@,
            final(self)@ == Seq::<Event>::empty(),
    {
        let mut drained: Vec<Event> = Vec::new();
        core::mem::swap(&mut drained, &mut self.buffer);
        drained
    }
}

} // verus!
