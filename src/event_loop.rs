use vstd::prelude::*;

use crate::event::{drains, EventReceiver, EventSender, WindowEvent};
use crate::registry::{Registry, Window, WindowError, WindowState};
use crate::types::WindowId;

verus! {

/// The consumer side: owns the event queue that bound windows feed, and knows
/// which windows to pump when the queue runs dry.
pub struct EventLoop {
    receiver: EventReceiver,
    ids: Vec<WindowId>,
}

impl EventLoop {
    /// The windows bound to this loop, in the order they were bound.
    pub closed spec fn ids(&self) -> Seq<WindowId> {
        self.ids@
    }

    /// The events waiting to be taken, oldest first.
    pub closed spec fn queue(&self) -> Seq<(WindowId, WindowEvent)> {
        self.receiver@
    }

    /// The queue that the senders of bound windows append to.
    pub fn receiver(&mut self) -> (r: &mut EventReceiver)
        ensures
            r@ == old(self).queue(),
            final(self).queue() == final(r)@,
            final(self).ids() == old(self).ids(),
    {
        &mut self.receiver
    }

    pub fn new() -> (r: EventLoop)
        ensures
            r.queue() == Seq::<(WindowId, WindowEvent)>::empty(),
            r.ids() == Seq::<WindowId>::empty(),
    {
        EventLoop { receiver: EventReceiver::new(), ids: Vec::new() }
    }

    /// Binds `window` to this loop: its events now reach the loop's queue, and the
    /// loop pumps it when the queue is empty.
    pub fn bind(&mut self, reg: &mut Registry, window: &Window) -> (r: Result<(), WindowError>)
        ensures
            old(reg).has(window.spec_id()) ==> {
                &&& r is Ok
                &&& final(reg).windows() == old(reg).windows().insert(
                    window.spec_id().0,
                    WindowState { sender: EventSender { bound: true }, ..old(reg).get(window.spec_id()) },
                )
                &&& final(self).ids() == if old(self).ids().contains(window.spec_id()) {
                    old(self).ids()
                } else {
                    old(self).ids().push(window.spec_id())
                }
            },
            !old(reg).has(window.spec_id()) ==> r == Err::<(), WindowError>(WindowError::UnknownWindow)
                && final(self).ids() == old(self).ids() && final(reg).windows() == old(reg).windows(),
            final(self).queue() == old(self).queue(),
            final(reg).handles() == old(reg).handles(),
    {
        let id = window.id();
        match reg.bind_sender(id) {
            Ok(()) => {},
            Err(e) => {
                return Err(e);
            },
        }
        let mut i: usize = 0;
        let mut found = false;
        while i < self.ids.len()
            invariant
                0 <= i <= self.ids@.len(),
                found == exists|j: int| 0 <= j < i && self.ids@[j] == id,
            decreases self.ids@.len() - i,
        {
            if self.ids[i] == id {
                found = true;
            }
            i = i + 1;
        }
        if !found {
            self.ids.push(id);
        }
        Ok(())
    }

    /// The windows to pump before the next event is taken: every bound window
    /// when the queue is empty, none otherwise.
    pub fn pump_targets(&self) -> (r: Vec<WindowId>)
        ensures
            self.queue().len() == 0 ==> r@ == self.ids(),
            self.queue().len() > 0 ==> r@ == Seq::<WindowId>::empty(),
    {
        if self.receiver.is_empty() {
            self.ids.clone()
        } else {
            Vec::new()
        }
    }

    /// Takes the oldest queued event, if any.
    pub fn next_event(&mut self) -> (r: Option<(WindowId, WindowEvent)>)
        ensures
            old(self).queue().len() == 0 ==> r is None && final(self).queue() == old(self).queue(),
            old(self).queue().len() > 0 ==> r == Some(old(self).queue()[0])
                && final(self).queue() == old(self).queue().drop_first(),
            final(self).ids() == old(self).ids(),
    {
        self.receiver.pop_front()
    }

    /// Takes every queued event, oldest first.
    pub fn events(&mut self) -> (r: Vec<(WindowId, WindowEvent)>)
        ensures
            drains(old(self).queue(), final(self).queue(), r@),
            final(self).ids() == old(self).ids(),
    {
        self.receiver.drain()
    }
}

} // verus!
