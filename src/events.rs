use vstd::prelude::*;

verus! {

/// The keys whose state is tracked.
#[derive(Debug, Clone, Copy, PartialEq, Eq, Structural)]
pub enum Key {
    Escape,
    Up,
    Down,
    Left,
    Right,
    Space,
}

/// One raw input event, as drained from the platform's event queue.
#[derive(Debug, Clone, Copy, PartialEq, Eq, Structural)]
pub enum RawEvent {
    KeyDown(Key),
    KeyUp(Key),
    /// A request to close the window.
    Quit,
    /// Anything else, which is ignored.
    Other,
}

/// What changed during one poll: per key, `Some(true)` when it was just
/// pressed, `Some(false)` when it was just released, `None` when it did not
/// change; and the one-shot signals.
#[derive(Debug, Clone, Copy, PartialEq, Eq, Structural)]
pub struct ImmediateEvents {
    pub key_escape: Option<bool>,
    pub key_up: Option<bool>,
    pub key_down: Option<bool>,
    pub key_left: Option<bool>,
    pub key_right: Option<bool>,
    pub key_space: Option<bool>,
    pub quit: bool,
}

impl ImmediateEvents {
    /// The snapshot in which nothing changed.
    pub open spec fn unchanged() -> ImmediateEvents {
        ImmediateEvents {
            key_escape: None,
            key_up: None,
            key_down: None,
            key_left: None,
            key_right: None,
            key_space: None,
            quit: false,
        }
    }

    /// The change recorded for key `k`.
    pub open spec fn edge(self, k: Key) -> Option<bool> {
        match k {
            Key::Escape => self.key_escape,
            Key::Up => self.key_up,
            Key::Down => self.key_down,
            Key::Left => self.key_left,
            Key::Right => self.key_right,
            Key::Space => self.key_space,
        }
    }

    /// This snapshot with the change for `k` set to `v`.
    pub open spec fn with_edge(self, k: Key, v: Option<bool>) -> ImmediateEvents {
        match k {
            Key::Escape => ImmediateEvents { key_escape: v, ..self },
            Key::Up => ImmediateEvents { key_up: v, ..self },
            Key::Down => ImmediateEvents { key_down: v, ..self },
            Key::Left => ImmediateEvents { key_left: v, ..self },
            Key::Right => ImmediateEvents { key_right: v, ..self },
            Key::Space => ImmediateEvents { key_space: v, ..self },
        }
    }

    pub fn new() -> (r: ImmediateEvents)
        ensures
            r == ImmediateEvents::unchanged(),
    {
        ImmediateEvents {
            key_escape: None,
            key_up: None,
            key_down: None,
            key_left: None,
            key_right: None,
            key_space: None,
            quit: false,
        }
    }

    /// The change recorded for key `k`.
    pub fn changed(&self, k: Key) -> (r: Option<bool>)
        ensures
            r == self.edge(k),
    {
        match k {
            Key::Escape => self.key_escape,
            Key::Up => self.key_up,
            Key::Down => self.key_down,
            Key::Left => self.key_left,
            Key::Right => self.key_right,
            Key::Space => self.key_space,
        }
    }

    fn set_edge(&mut self, k: Key, v: Option<bool>)
        ensures
            *final(self) == old(self).with_edge(k, v),
    {
        match k {
            Key::Escape => self.key_escape = v,
            Key::Up => self.key_up = v,
            Key::Down => self.key_down = v,
            Key::Left => self.key_left = v,
            Key::Right => self.key_right = v,
            Key::Space => self.key_space = v,
        }
    }
}

/// The input state: which keys are held down, which persists from poll to
/// poll, and the snapshot of what changed during the last poll.
#[derive(Debug, Clone, Copy, PartialEq, Eq, Structural)]
pub struct Events {
    pub now: ImmediateEvents,
    pub key_escape: bool,
    pub key_up: bool,
    pub key_down: bool,
    pub key_left: bool,
    pub key_right: bool,
    pub key_space: bool,
}

impl Events {
    /// Whether key `k` is held down.
    pub open spec fn held(self, k: Key) -> bool {
        match k {
            Key::Escape => self.key_escape,
            Key::Up => self.key_up,
            Key::Down => self.key_down,
            Key::Left => self.key_left,
            Key::Right => self.key_right,
            Key::Space => self.key_space,
        }
    }

    /// This state with key `k` held or not as `v` says.
    pub open spec fn with_held(self, k: Key, v: bool) -> Events {
        match k {
            Key::Escape => Events { key_escape: v, ..self },
            Key::Up => Events { key_up: v, ..self },
            Key::Down => Events { key_down: v, ..self },
            Key::Left => Events { key_left: v, ..self },
            Key::Right => Events { key_right: v, ..self },
            Key::Space => Events { key_space: v, ..self },
        }
    }

    /// The state after one raw event is taken into account.
    pub open spec fn after(self, ev: RawEvent) -> Events {
        match ev {
            RawEvent::KeyDown(k) => {
                let now = if self.held(k) {
                    self.now
                } else {
                    self.now.with_edge(k, Some(true))
                };
                Events { now, ..self }.with_held(k, true)
            },
            RawEvent::KeyUp(k) => Events {
                now: self.now.with_edge(k, Some(false)),
                ..self
            }.with_held(k, false),
            RawEvent::Quit => Events { now: ImmediateEvents { quit: true, ..self.now }, ..self },
            RawEvent::Other => self,
        }
    }

    /// The state after the events of `evs` are taken into account in order.
    pub open spec fn after_all(self, evs: Seq<RawEvent>) -> Events
        decreases evs.len(),
    {
        if evs.len() == 0 {
            self
        } else {
            self.after_all(evs.drop_last()).after(evs.last())
        }
    }

    /// The state at the start of a poll: held keys kept, the snapshot cleared.
    pub open spec fn cleared(self) -> Events {
        Events { now: ImmediateEvents::unchanged(), ..self }
    }

    /// The state after a poll that drained `evs`.
    pub open spec fn polled(self, evs: Seq<RawEvent>) -> Events {
        self.cleared().after_all(evs)
    }

    /// No key held and nothing changed.
    pub fn new() -> (r: Events)
        ensures
            r.now == ImmediateEvents::unchanged(),
            forall|k: Key| !(#[trigger] r.held(k)),
    {
        Events {
            now: ImmediateEvents::new(),
            key_escape: false,
            key_up: false,
            key_down: false,
            key_left: false,
            key_right: false,
            key_space: false,
        }
    }

    /// Whether key `k` is held down.
    pub fn is_held(&self, k: Key) -> (r: bool)
        ensures
            r == self.held(k),
    {
        match k {
            Key::Escape => self.key_escape,
            Key::Up => self.key_up,
            Key::Down => self.key_down,
            Key::Left => self.key_left,
            Key::Right => self.key_right,
            Key::Space => self.key_space,
        }
    }

    fn set_held(&mut self, k: Key, v: bool)
        ensures
            *final(self) == old(self).with_held(k, v),
    {
        match k {
            Key::Escape => self.key_escape = v,
            Key::Up => self.key_up = v,
            Key::Down => self.key_down = v,
            Key::Left => self.key_left = v,
            Key::Right => self.key_right = v,
            Key::Space => self.key_space = v,
        }
    }

    /// Takes one raw event into account.
    pub fn handle(&mut self, ev: RawEvent)
        ensures
            *final(self) == old(self).after(ev),
    {
        match ev {
            RawEvent::KeyDown(k) => {
                if !self.is_held(k) {
                    self.now.set_edge(k, Some(true));
                }
                self.set_held(k, true);
            },
            RawEvent::KeyUp(k) => {
                self.now.set_edge(k, Some(false));
                self.set_held(k, false);
            },
            RawEvent::Quit => {
                self.now.quit = true;
            },
            RawEvent::Other => {},
        }
    }

    /// Clears the snapshot, then takes the drained events into account in
    /// order; held keys carry over from the previous poll.
    pub fn pump(&mut self, evs: &Vec<RawEvent>)
        ensures
            *final(self) == old(self).polled(evs@),
    {
        self.now = ImmediateEvents::new();
        let ghost start = *self;
        let mut i: usize = 0;
        while i < evs.len()
            invariant
                i <= evs.len(),
                start == old(self).cleared(),
                *self == start.after_all(evs@.take(i as int)),
            decreases evs.len() - i,
        {
            assert(evs@.take(i + 1).drop_last() == evs@.take(i as int));
            self.handle(evs[i]);
            i += 1;
        }
        assert(evs@.take(evs.len() as int) == evs@);
    }
}

/// A key pressed while it was not held reads as held and just pressed after
/// the poll that drained the press, and as still held with no change after
/// the next poll that drained nothing.
pub proof fn lemma_press_then_idle(e: Events, k: Key)
    requires
        !e.held(k),
    ensures
        e.polled(seq![RawEvent::KeyDown(k)]).held(k),
        e.polled(seq![RawEvent::KeyDown(k)]).now.edge(k) == Some(true),
        e.polled(seq![RawEvent::KeyDown(k)]).polled(seq![]).held(k),
        e.polled(seq![RawEvent::KeyDown(k)]).polled(seq![]).now.edge(k) == None::<bool>,
{
    let s = seq![RawEvent::KeyDown(k)];
    assert(s.drop_last() =~= Seq::<RawEvent>::empty());
    assert(s.last() == RawEvent::KeyDown(k));
    assert(e.cleared().after_all(s.drop_last()) == e.cleared());
    let p = e.polled(s);
    assert(p == e.cleared().after(RawEvent::KeyDown(k)));
}

/// Whatever was held before, a poll whose last event releases a key leaves
/// that key not held and just released.
pub proof fn lemma_release(e: Events, evs: Seq<RawEvent>, k: Key)
    ensures
        e.polled(evs.push(RawEvent::KeyUp(k))).held(k) == false,
        e.polled(evs.push(RawEvent::KeyUp(k))).now.edge(k) == Some(false),
{
    assert(evs.push(RawEvent::KeyUp(k)).drop_last() =~= evs);
}

} // verus!
