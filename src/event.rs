use vstd::prelude::*;

use crate::keys::{KeyboardScancode, MouseScancode};
use crate::modifiers::Modifiers;
use crate::types::{Theme, WindowId};

verus! {

/// A canonical notification about one window.
#[allow(inconsistent_fields)]
#[derive(Copy, Clone, Debug, PartialEq, Eq, Structural)]
pub enum WindowEvent {
    Created,
    Resized { width: u32, height: u32 },
    Moved { x: u32, y: u32 },
    CloseRequested,
    Destroyed,
    Focused(bool),
    ThemeChanged(Theme),
    KeyDown {
        logical_scancode: KeyboardScancode,
        physical_scancode: Option<KeyboardScancode>,
        character: Option<char>,
        unshifted_char: Option<char>,
    },
    KeyUp { logical_scancode: KeyboardScancode, physical_scancode: Option<KeyboardScancode> },
    /// Cursor position in client coordinates.
    CursorMoved { x: i32, y: i32 },
    MouseButtonDown(MouseScancode),
    MouseButtonUp(MouseScancode),
    /// Wheel rotation, in the platform's signed delta units.
    MouseWheelScroll(i16),
    ModifiersChanged(Modifiers),
    UnrecoverableError,
}

/// The queue of events waiting for the consumer, oldest first.
pub struct EventReceiver {
    events: Vec<(WindowId, WindowEvent)>,
}

impl View for EventReceiver {
    type V = Seq<(WindowId, WindowEvent)>;

    closed spec fn view(&self) -> Seq<(WindowId, WindowEvent)> {
        self.events@
    }
}

impl EventReceiver {
    pub fn new() -> (r: EventReceiver)
        ensures
            r@ == Seq::<(WindowId, WindowEvent)>::empty(),
    {
        EventReceiver { events: Vec::new() }
    }

    /// Appends one event at the back of the queue.
    pub fn recv(&mut self, id: WindowId, ev: WindowEvent)
        ensures
            final(self)@ == old(self)@.push((id, ev)),
    {
        self.events.push((id, ev));
    }

    pub fn len(&self) -> (r: usize)
        ensures
            r == self@.len(),
    {
        self.events.len()
    }

    pub fn is_empty(&self) -> (r: bool)
        ensures
            r == (self@.len() == 0),
    {
        self.events.len() == 0
    }

    /// Removes and returns the oldest event.
    pub fn pop_front(&mut self) -> (r: Option<(WindowId, WindowEvent)>)
        ensures
            old(self)@.len() == 0 ==> r is None && final(self)@ == old(self)@,
            old(self)@.len() > 0 ==> r == Some(old(self)@[0]) && final(self)@ == old(self)@.drop_first(),
    {
        if self.events.len() == 0 {
            None
        } else {
            Some(self.events.remove(0))
        }
    }

    /// Removes and returns every queued event, oldest first.
    pub fn drain(&mut self) -> (r: Vec<(WindowId, WindowEvent)>)
        ensures
            drains(old(self)@, final(self)@, r@),
    {
        let mut taken: Vec<(WindowId, WindowEvent)> = Vec::new();
        core::mem::swap(&mut taken, &mut self.events);
        taken
    }
}

/// The producing side of a window's event channel. Until it is bound to the
/// consumer's receiver, what it sends is dropped.
#[derive(Copy, Clone, Debug, PartialEq, Eq, Structural)]
pub struct EventSender {
    pub bound: bool,
}

/// What a sender adds to the queue when it sends `evs` for window `id`.
pub open spec fn sent(s: EventSender, id: WindowId, evs: Seq<WindowEvent>) -> Seq<(WindowId, WindowEvent)> {
    if s.bound {
        evs.map_values(|e: WindowEvent| (id, e))
    } else {
        Seq::empty()
    }
}

impl EventSender {
    /// A sender bound to no receiver yet.
    pub fn new() -> (r: EventSender)
        ensures
            !r.bound,
    {
        EventSender { bound: false }
    }

    pub fn bind(&mut self)
        ensures
            final(self).bound,
    {
        self.bound = true;
    }

    /// Queues `ev` for window `id` if the sender is bound.
    pub fn send(&self, rx: &mut EventReceiver, id: WindowId, ev: WindowEvent)
        ensures
            final(rx)@ == old(rx)@ + sent(*self, id, seq![ev]),
    {
        proof {
            assert(seq![ev].map_values(|e: WindowEvent| (id, e)) =~= seq![(id, ev)]);
        }
        if self.bound {
            rx.recv(id, ev);
        } else {
            assert(old(rx)@ + Seq::<(WindowId, WindowEvent)>::empty() =~= old(rx)@);
        }
    }
}

/// `taken` is what a drain of the queue `before` hands out, and `after` is the queue
/// it leaves: every queued event, in order, and nothing behind.
pub open spec fn drains(
    before: Seq<(WindowId, WindowEvent)>,
    after: Seq<(WindowId, WindowEvent)>,
    taken: Seq<(WindowId, WindowEvent)>,
) -> bool {
    taken == before && after.len() == 0
}

/// Draining the queue twice with nothing sent in between hands out the queued
/// events once and then nothing: none is repeated and none is lost.
pub proof fn lemma_drain_twice(
    q0: Seq<(WindowId, WindowEvent)>,
    q1: Seq<(WindowId, WindowEvent)>,
    q2: Seq<(WindowId, WindowEvent)>,
    t1: Seq<(WindowId, WindowEvent)>,
    t2: Seq<(WindowId, WindowEvent)>,
)
    requires
        drains(q0, q1, t1),
        drains(q1, q2, t2),
    ensures
        t1 == q0,
        t2.len() == 0,
        q2.len() == 0,
        t1 + t2 == q0,
{
    assert(t1 + t2 =~= q0);
}

} // verus!
