//! The events of the system and the queue that hands them to listeners.

use vstd::prelude::*;
use std::collections::VecDeque;
use crate::math::scalar::Scalar;

verus! {

/// The modifier keys that are held.
#[derive(Clone, Copy, Debug, PartialEq, Eq, Structural)]
pub struct KeyModifiers {
    pub shift: bool,
    pub ctrl: bool,
    pub alt: bool,
    pub logo: bool,
}

impl KeyModifiers {
    /// No modifier held.
    pub open spec fn none() -> KeyModifiers {
        KeyModifiers { shift: false, ctrl: false, alt: false, logo: false }
    }
}

impl Default for KeyModifiers {
    fn default() -> (m: KeyModifiers)
        ensures
            m == KeyModifiers::none(),
    {
        KeyModifiers { shift: false, ctrl: false, alt: false, logo: false }
    }
}

/// A button of the mouse.
#[derive(Clone, Copy, Debug, PartialEq, Eq, Structural)]
pub enum MouseButton {
    Left,
    Right,
    Middle,
    Other(u16),
}

impl MouseButton {
    /// A number for the button that no other button has.
    pub open spec fn code(self) -> u32 {
        match self {
            MouseButton::Left => 0,
            MouseButton::Right => 1,
            MouseButton::Middle => 2,
            MouseButton::Other(id) => (3 + id) as u32,
        }
    }

    pub fn to_code(&self) -> (code: u32)
        ensures
            code == self.code(),
    {
        match self {
            MouseButton::Left => 0,
            MouseButton::Right => 1,
            MouseButton::Middle => 2,
            MouseButton::Other(id) => 3 + (*id as u32),
        }
    }
}

/// Different buttons have different codes.
pub proof fn lemma_button_codes_differ(a: MouseButton, b: MouseButton)
    ensures
        a.code() == b.code() <==> a == b,
{
}

/// What can happen to the engine from outside.
#[derive(Debug)]
pub enum SystemEvent {
    WindowResized { width: u32, height: u32 },
    WindowClosed,
    WindowFocused,
    WindowUnfocused,
    KeyPressed { key: String, modifiers: KeyModifiers },
    KeyReleased { key: String, modifiers: KeyModifiers },
    MousePressed { button: MouseButton, x: Scalar, y: Scalar },
    MouseReleased { button: MouseButton, x: Scalar, y: Scalar },
    MouseMoved { x: Scalar, y: Scalar, delta_x: Scalar, delta_y: Scalar },
    MouseWheelScrolled { delta_x: Scalar, delta_y: Scalar },
    SceneChanged,
    CameraChanged,
    Custom { name: String, data: String },
}

impl SystemEvent {
    pub fn window_resize(width: u32, height: u32) -> (e: SystemEvent)
        ensures
            e == (SystemEvent::WindowResized { width, height }),
    {
        SystemEvent::WindowResized { width, height }
    }

    pub fn key_press(key: String, modifiers: KeyModifiers) -> (e: SystemEvent)
        ensures
            e == (SystemEvent::KeyPressed { key, modifiers }),
    {
        SystemEvent::KeyPressed { key, modifiers }
    }

    pub fn key_release(key: String, modifiers: KeyModifiers) -> (e: SystemEvent)
        ensures
            e == (SystemEvent::KeyReleased { key, modifiers }),
    {
        SystemEvent::KeyReleased { key, modifiers }
    }

    pub fn mouse_press(button: MouseButton, x: Scalar, y: Scalar) -> (e: SystemEvent)
        ensures
            e == (SystemEvent::MousePressed { button, x, y }),
    {
        SystemEvent::MousePressed { button, x, y }
    }

    pub fn mouse_release(button: MouseButton, x: Scalar, y: Scalar) -> (e: SystemEvent)
        ensures
            e == (SystemEvent::MouseReleased { button, x, y }),
    {
        SystemEvent::MouseReleased { button, x, y }
    }

    pub fn mouse_move(x: Scalar, y: Scalar, delta_x: Scalar, delta_y: Scalar) -> (e: SystemEvent)
        ensures
            e == (SystemEvent::MouseMoved { x, y, delta_x, delta_y }),
    {
        SystemEvent::MouseMoved { x, y, delta_x, delta_y }
    }

    pub fn custom(name: String, data: String) -> (e: SystemEvent)
        ensures
            e == (SystemEvent::Custom { name, data }),
    {
        SystemEvent::Custom { name, data }
    }
}

/// Something that wants to hear of events.
pub trait EventListener {
    /// Whether hearing of `event` can take the listener from `before` to
    /// `self`, with the event used up or not. Each listener says of itself
    /// what it does on hearing; one that says nothing can do anything.
    open spec fn heard(&self, before: &Self, event: SystemEvent, used_up: bool) -> bool {
        true
    }

    /// Hears of `event`. Tells whether the event is used up, so that no
    /// later listener hears of it.
    fn handle_event(&mut self, event: &SystemEvent) -> (used_up: bool)
        ensures
            final(self).heard(old(self), *event, used_up),
    ;
}

/// Whether `after` is what the listeners `before` become when `event` is
/// handed to them: the first `reached` of them hear of it, one after the
/// other, and the rest are left as they were. Where a listener uses the
/// event up, it is the last to hear of it; where none does, all hear.
pub open spec fn handed_to<L: EventListener>(
    before: Seq<L>,
    after: Seq<L>,
    event: SystemEvent,
    reached: int,
    used_up: bool,
) -> bool {
    &&& after.len() == before.len()
    &&& 0 <= reached <= before.len()
    &&& used_up ==> reached >= 1
    &&& !used_up ==> reached == before.len()
    &&& forall|i: int|
        0 <= i < reached ==> (#[trigger] after[i]).heard(
            &before[i],
            event,
            used_up && i == reached - 1,
        )
    &&& forall|i: int| reached <= i < before.len() ==> #[trigger] after[i] == before[i]
}

/// A queue of events of bounded length, and the listeners that the events
/// are handed to.
pub struct Events<L> {
    event_queue: VecDeque<SystemEvent>,
    listeners: Vec<L>,
    max_events: usize,
}

/// The last `keep` events of `queue`, or all of them where they are
/// fewer.
pub open spec fn newest(queue: Seq<SystemEvent>, keep: int) -> Seq<SystemEvent> {
    if queue.len() <= keep {
        queue
    } else if keep <= 0 {
        Seq::empty()
    } else {
        queue.subrange(queue.len() - keep, queue.len() as int)
    }
}

impl<L: EventListener> Events<L> {
    /// The events that wait, oldest first.
    pub closed spec fn pending(&self) -> Seq<SystemEvent> {
        self.event_queue@
    }

    /// How many listeners there are.
    pub closed spec fn listener_count(&self) -> nat {
        self.listeners@.len()
    }

    /// The most events that the queue is meant to hold.
    pub closed spec fn limit(&self) -> usize {
        self.max_events
    }

    /// An empty queue for at most 1000 events, without listeners.
    pub fn new() -> (e: Events<L>)
        ensures
            e.pending() == Seq::<SystemEvent>::empty(),
            e.listener_count() == 0,
            e.limit() == 1000,
    {
        Events { event_queue: VecDeque::new(), listeners: Vec::new(), max_events: 1000 }
    }

    /// Puts `event` at the end of the queue. Where the queue is full, the
    /// oldest event makes room for it.
    pub fn push_event(&mut self, event: SystemEvent)
        ensures
            final(self).limit() == old(self).limit(),
            final(self).listener_count() == old(self).listener_count(),
            final(self).pending() == (if old(self).pending().len() >= old(self).limit() && old(
                self,
            ).pending().len() > 0 {
                old(self).pending().drop_first().push(event)
            } else {
                old(self).pending().push(event)
            }),
    {
        if self.event_queue.len() >= self.max_events {
            let dropped = self.event_queue.pop_front();
            assert(old(self).pending().len() > 0 ==> self.event_queue@ =~= old(
                self,
            ).pending().drop_first());
        }
        self.event_queue.push_back(event);
    }

    fn dispatch_event(&mut self, event: &SystemEvent)
        ensures
            final(self).limit() == old(self).limit(),
            final(self).listener_count() == old(self).listener_count(),
            final(self).pending() == old(self).pending(),
            exists|reached: int, used_up: bool| #[trigger]
                handed_to(old(self).listeners@, final(self).listeners@, *event, reached, used_up),
    {
        let n = self.listeners.len();
        let mut i: usize = 0;
        while i < n
            invariant
                i <= n,
                n == self.listeners@.len(),
                self.listeners@.len() == old(self).listeners@.len(),
                self.event_queue == old(self).event_queue,
                self.max_events == old(self).max_events,
                forall|k: int|
                    0 <= k < i ==> (#[trigger] self.listeners@[k]).heard(
                        &old(self).listeners@[k],
                        *event,
                        false,
                    ),
                forall|k: int| i <= k < n ==> #[trigger] self.listeners@[k] == old(self).listeners@[k],
            decreases n - i,
        {
            let ghost found = self.listeners@;
            let consumed = self.listeners[i].handle_event(event);
            assert(self.listeners@ =~= found.update(i as int, self.listeners@[i as int]));
            if consumed {
                assert(handed_to(old(self).listeners@, self.listeners@, *event, i + 1, true));
                return ;
            }
            i = i + 1;
        }
        assert(handed_to(old(self).listeners@, self.listeners@, *event, n as int, false));
    }

    /// Hands every waiting event to the listeners, oldest first, each
    /// event to one listener after the other until one uses it up. The
    /// queue is empty afterwards.
    pub fn poll(&mut self)
        ensures
            final(self).pending() == Seq::<SystemEvent>::empty(),
            final(self).limit() == old(self).limit(),
            final(self).listener_count() == old(self).listener_count(),
    {
        while self.event_queue.len() > 0
            invariant
                self.max_events == old(self).max_events,
                self.listeners@.len() == old(self).listeners@.len(),
            decreases self.event_queue@.len(),
        {
            let next = self.event_queue.pop_front();
            match next {
                Some(event) => {
                    self.dispatch_event(&event);
                },
                None => {},
            }
        }
        assert(self.event_queue@ =~= Seq::<SystemEvent>::empty());
    }

    /// Adds a listener behind those that are there.
    pub fn add_listener(&mut self, listener: L)
        ensures
            final(self).listener_count() == old(self).listener_count() + 1,
            final(self).pending() == old(self).pending(),
            final(self).limit() == old(self).limit(),
    {
        self.listeners.push(listener);
    }

    pub fn clear_listeners(&mut self)
        ensures
            final(self).listener_count() == 0,
            final(self).pending() == old(self).pending(),
            final(self).limit() == old(self).limit(),
    {
        self.listeners.clear();
    }

    pub fn has_pending_events(&self) -> (r: bool)
        ensures
            r == (self.pending().len() > 0),
    {
        self.event_queue.len() > 0
    }

    pub fn pending_event_count(&self) -> (n: usize)
        ensures
            n == self.pending().len(),
    {
        self.event_queue.len()
    }

    /// Sets the most events that the queue holds, and lets go of the
    /// oldest events until no more than that are left.
    pub fn set_max_events(&mut self, max_events: usize)
        ensures
            final(self).limit() == max_events,
            final(self).listener_count() == old(self).listener_count(),
            final(self).pending() == newest(old(self).pending(), max_events as int),
    {
        self.max_events = max_events;
        assert(self.event_queue@ =~= old(self).event_queue@.subrange(
            0,
            old(self).event_queue@.len() as int,
        ));
        while self.event_queue.len() > max_events
            invariant
                self.max_events == max_events,
                self.listeners@.len() == old(self).listeners@.len(),
                self.event_queue@.len() <= old(self).event_queue@.len(),
                self.event_queue@.len() == old(self).event_queue@.len() || self.event_queue@.len()
                    >= max_events,
                self.event_queue@ == old(self).event_queue@.subrange(
                    old(self).event_queue@.len() - self.event_queue@.len(),
                    old(self).event_queue@.len() as int,
                ),
            decreases self.event_queue@.len(),
        {
            let ghost before = self.event_queue@;
            let dropped = self.event_queue.pop_front();
            assert(self.event_queue@ =~= before.drop_first());
            assert(self.event_queue@ =~= old(self).event_queue@.subrange(
                old(self).event_queue@.len() - self.event_queue@.len(),
                old(self).event_queue@.len() as int,
            ));
        }
        assert(self.event_queue@ =~= newest(old(self).pending(), max_events as int));
    }

    pub fn clear_events(&mut self)
        ensures
            final(self).pending() == Seq::<SystemEvent>::empty(),
            final(self).limit() == old(self).limit(),
            final(self).listener_count() == old(self).listener_count(),
    {
        self.event_queue.clear();
    }
}

} // verus!
