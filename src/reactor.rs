//! A reactor: several receiver queues multiplexed on one wait.
//!
//! `Control` hands out a distinct notification index to every attached source and attaches the
//! source's condition variable under it; `Dispatcher` holds one handler per attached source and
//! decides, in registration order, which source is ready. The caller runs the action (for
//! instance draining the queue with `take`) for the index it gets back, so that one call drains
//! at most one source.

use vstd::prelude::*;
use crate::runtime::{Runtime, RuntimeModel, SubscriberPortModel};
use crate::sample::{SampleReceiver, SubscriberStrongRef};

verus! {

/// The number of sources one reactor multiplexes.
pub const MAX_HANDLERS: usize = 20;

/// The value of a source's condition at a wake-up.
#[derive(Debug, Clone, Copy, PartialEq, Eq, Structural)]
pub enum Condition {
    /// Edge-triggered: evaluated once per wake-up.
    Event(bool),
    /// Level-triggered: evaluated before and after each action.
    State(bool),
}

/// A source that a reactor can multiplex: it exposes a subscriber port whose condition
/// variable can be attached and detached.
pub trait Foo {
    spec fn source_port(&self) -> usize;

    fn attach_condition_variable(&self, rt: &mut Runtime, notification_index: u64)
        requires
            old(rt).wf(),
            self.source_port() < old(rt)@.subscribers.len(),
        ensures
            final(rt).wf(),
            final(rt)@ == old(rt)@.with_subscriber(
                self.source_port() as int,
                SubscriberPortModel { condition: Some(notification_index), ..old(rt)@.subscribers[self.source_port() as int] },
            ),
    ;

    fn detach_condition_variable(&self, rt: &mut Runtime)
        requires
            old(rt).wf(),
            self.source_port() < old(rt)@.subscribers.len(),
        ensures
            final(rt).wf(),
            final(rt)@ == old(rt)@.with_subscriber(
                self.source_port() as int,
                SubscriberPortModel { condition: None, ..old(rt)@.subscribers[self.source_port() as int] },
            ),
    ;

    fn port(&self) -> (r: usize)
        ensures
            r == self.source_port(),
    ;
}

impl<T: ?Sized, S: SubscriberStrongRef> Foo for SampleReceiver<T, S> {
    open spec fn source_port(&self) -> usize {
        self.port()
    }

    fn attach_condition_variable(&self, rt: &mut Runtime, notification_index: u64) {
        rt.set_condition(self.receiver_port(), Some(notification_index));
    }

    fn detach_condition_variable(&self, rt: &mut Runtime) {
        rt.set_condition(self.receiver_port(), None);
    }

    fn port(&self) -> (r: usize) {
        self.receiver_port()
    }
}

/// What the dispatcher knows of an attached source.
#[derive(Debug, Clone, Copy, PartialEq, Eq, Structural)]
pub struct Handler {
    pub port: usize,
    pub notification_index: u64,
    pub level_triggered: bool,
}

/// The source of `h` has samples and is still attached under `h`'s index.
pub open spec fn fires(m: RuntimeModel, h: Handler) -> bool {
    &&& h.port < m.subscribers.len()
    &&& m.subscribers[h.port as int].condition == Some(h.notification_index)
    &&& m.subscribers[h.port as int].queue.len() > 0
}

impl Handler {
    /// The handler's condition: whether its source has samples, edge- or level-triggered.
    pub fn condition(&self, rt: &Runtime) -> (r: Condition)
        ensures
            r == (if self.level_triggered {
                Condition::State(fires(rt@, *self))
            } else {
                Condition::Event(fires(rt@, *self))
            }),
    {
        let ready = self.port < rt.subscriber_count() && rt.condition(self.port) == Some(
            self.notification_index,
        ) && rt.has_chunks(self.port);
        if self.level_triggered {
            Condition::State(ready)
        } else {
            Condition::Event(ready)
        }
    }
}

/// The receipt of an attached source, to hand back to `Control::detach`.
pub struct AttachToken<T> {
    source: T,
    notification_index: u64,
}

impl<T> AttachToken<T> {
    pub closed spec fn source(&self) -> T {
        self.source
    }

    pub closed spec fn index(&self) -> u64 {
        self.notification_index
    }

    pub fn notification_index(&self) -> (r: u64)
        ensures
            r == self.index(),
    {
        self.notification_index
    }
}

/// The half of a reactor that attaches and detaches sources.
pub struct Control {
    in_use: Vec<bool>,
}

impl Control {
    /// Notification index `i` is taken.
    pub closed spec fn is_used(&self, i: int) -> bool {
        self.in_use@[i]
    }

    pub closed spec fn wf(&self) -> bool {
        self.in_use@.len() == MAX_HANDLERS
    }

    fn new() -> (r: Control)
        ensures
            r.wf(),
            forall|i: int| 0 <= i < MAX_HANDLERS ==> !#[trigger] r.is_used(i),
    {
        let mut in_use: Vec<bool> = Vec::new();
        let mut i: usize = 0;
        while i < MAX_HANDLERS
            invariant
                i <= MAX_HANDLERS,
                in_use@.len() == i,
                forall|k: int| 0 <= k < i ==> !#[trigger] in_use@[k],
            decreases MAX_HANDLERS - i,
        {
            in_use.push(false);
            i = i + 1;
        }
        Control { in_use }
    }

    /// Attaches `target` under the lowest free notification index and returns its handler for
    /// the dispatcher; `None`, with nothing changed, when all indices are taken.
    pub fn attach<T: Foo>(&mut self, rt: &mut Runtime, target: T, level_triggered: bool) -> (r: Option<(AttachToken<T>, Handler)>)
        requires
            old(self).wf(),
            old(rt).wf(),
            target.source_port() < old(rt)@.subscribers.len(),
        ensures
            final(self).wf(),
            final(rt).wf(),
            (forall|i: int| 0 <= i < MAX_HANDLERS ==> #[trigger] old(self).is_used(i)) <==> r is None,
            r is None ==> final(rt)@ == old(rt)@ && *final(self) == *old(self),
            r matches Some((token, handler)) ==> {
                let i = token.index() as int;
                &&& 0 <= i < MAX_HANDLERS
                &&& !old(self).is_used(i)
                &&& forall|k: int| 0 <= k < i ==> #[trigger] old(self).is_used(k)
                &&& final(self).is_used(i)
                &&& forall|k: int| 0 <= k < MAX_HANDLERS && k != i ==> #[trigger] final(self).is_used(k) == old(self).is_used(k)
                &&& token.source() == target
                &&& handler == (Handler { port: target.source_port(), notification_index: token.index(), level_triggered })
                &&& final(rt)@ == old(rt)@.with_subscriber(
                    target.source_port() as int,
                    SubscriberPortModel { condition: Some(token.index()), ..old(rt)@.subscribers[target.source_port() as int] },
                )
            },
    {
        let mut i: usize = 0;
        while i < MAX_HANDLERS
            invariant
                i <= MAX_HANDLERS,
                self.wf(),
                *self == *old(self),
                *rt == *old(rt),
                rt.wf(),
                target.source_port() < rt@.subscribers.len(),
                forall|k: int| 0 <= k < i ==> #[trigger] self.is_used(k),
            decreases MAX_HANDLERS - i,
        {
            if !self.in_use[i] {
                assert(!old(self).is_used(i as int));
                self.in_use.set(i, true);
                target.attach_condition_variable(rt, i as u64);
                let handler = Handler { port: target.port(), notification_index: i as u64, level_triggered };
                return Some((AttachToken { source: target, notification_index: i as u64 }, handler));
            }
            i = i + 1;
        }
        None
    }

    /// Detaches the source of `token`: its condition variable is detached from its port and its
    /// index is free again. Notifications already under way find no handler and are ignored.
    pub fn detach<T: Foo>(&mut self, rt: &mut Runtime, token: AttachToken<T>) -> (r: T)
        requires
            old(self).wf(),
            old(rt).wf(),
            token.source().source_port() < old(rt)@.subscribers.len(),
            (token.index() as int) < MAX_HANDLERS,
        ensures
            final(self).wf(),
            final(rt).wf(),
            r == token.source(),
            !final(self).is_used(token.index() as int),
            forall|k: int| 0 <= k < MAX_HANDLERS && k != token.index() ==> #[trigger] final(self).is_used(k) == old(self).is_used(k),
            final(rt)@ == old(rt)@.with_subscriber(
                token.source().source_port() as int,
                SubscriberPortModel { condition: None, ..old(rt)@.subscribers[token.source().source_port() as int] },
            ),
    {
        let AttachToken { source, notification_index } = token;
        self.in_use.set(notification_index as usize, false);
        source.detach_condition_variable(rt);
        source
    }
}

/// One round of the dispatcher: the notification index of the source to act on, how many
/// nanoseconds to wait before asking again, or the end of the wait.
#[derive(Debug, Clone, Copy, PartialEq, Eq, Structural)]
pub enum DispatchStep {
    Ready(u64),
    Wait(u128),
    Timeout,
}

/// The half of a reactor that decides which source to act on.
pub struct Dispatcher {
    handlers: Vec<Handler>,
}

impl Dispatcher {
    /// The handlers, in registration order.
    pub closed spec fn handlers(&self) -> Seq<Handler> {
        self.handlers@
    }

    fn new() -> (r: Dispatcher)
        ensures
            r.handlers().len() == 0,
    {
        Dispatcher { handlers: Vec::new() }
    }

    /// Registers a handler after the others; `false`, with nothing changed, when the dispatcher
    /// holds `MAX_HANDLERS` already.
    pub fn add_handler(&mut self, handler: Handler) -> (r: bool)
        ensures
            r == (old(self).handlers().len() < MAX_HANDLERS),
            r ==> final(self).handlers() == old(self).handlers().push(handler),
            !r ==> final(self).handlers() == old(self).handlers(),
    {
        if self.handlers.len() < MAX_HANDLERS {
            self.handlers.push(handler);
            true
        } else {
            false
        }
    }

    /// Removes every handler registered under `notification_index`; an index that has none is
    /// ignored.
    pub fn remove_handler(&mut self, notification_index: u64)
        ensures
            final(self).handlers() == old(self).handlers().filter(
                |h: Handler| h.notification_index != notification_index,
            ),
    {
        let mut kept: Vec<Handler> = Vec::new();
        let mut i: usize = 0;
        while i < self.handlers.len()
            invariant
                i <= self.handlers@.len(),
                *self == *old(self),
                kept@ == self.handlers@.subrange(0, i as int).filter(
                    |h: Handler| h.notification_index != notification_index,
                ),
            decreases self.handlers@.len() - i,
        {
            proof {
                let s = self.handlers@.subrange(0, i + 1);
                assert(s.drop_last() =~= self.handlers@.subrange(0, i as int));
                reveal_with_fuel(Seq::filter, 1);
            }
            let h = self.handlers[i];
            if h.notification_index != notification_index {
                kept.push(h);
            }
            i = i + 1;
        }
        proof {
            assert(self.handlers@.subrange(0, i as int) =~= self.handlers@);
        }
        self.handlers = kept;
    }

    /// Decides one round of a wait of `timeout_ns` nanoseconds that has run for `elapsed_ns`:
    /// the first handler in registration order whose source fires is ready; with none, the
    /// time left to wait, or the end of the wait.
    pub fn next_with_timeout(&self, rt: &Runtime, elapsed_ns: u128, timeout_ns: u128) -> (r: DispatchStep)
        ensures
            r matches DispatchStep::Ready(index) ==> exists|i: int|
                0 <= i < self.handlers().len() && #[trigger] fires(rt@, self.handlers()[i])
                    && self.handlers()[i].notification_index == index
                    && forall|k: int| 0 <= k < i ==> !#[trigger] fires(rt@, self.handlers()[k]),
            (exists|i: int| 0 <= i < self.handlers().len() && #[trigger] fires(rt@, self.handlers()[i]))
                <==> r is Ready,
            !(r is Ready) && elapsed_ns >= timeout_ns ==> r is Timeout,
            !(r is Ready) && elapsed_ns < timeout_ns ==> r == DispatchStep::Wait((timeout_ns - elapsed_ns) as u128),
    {
        let mut i: usize = 0;
        while i < self.handlers.len()
            invariant
                i <= self.handlers@.len(),
                forall|k: int| 0 <= k < i ==> !#[trigger] fires(rt@, self.handlers@[k]),
            decreases self.handlers@.len() - i,
        {
            let h = self.handlers[i];
            match h.condition(rt) {
                Condition::Event(true) | Condition::State(true) => {
                    assert(fires(rt@, self.handlers@[i as int]));
                    assert(self.handlers()[i as int] == self.handlers@[i as int]);
                    assert(fires(rt@, self.handlers()[i as int]));
                    assert(forall|k: int| 0 <= k < i ==> self.handlers()[k] == self.handlers@[k]);
                    return DispatchStep::Ready(h.notification_index);
                },
                _ => {},
            }
            i = i + 1;
        }
        if elapsed_ns >= timeout_ns {
            DispatchStep::Timeout
        } else {
            DispatchStep::Wait(timeout_ns - elapsed_ns)
        }
    }
}

/// A reactor before it is split into its two halves.
pub struct Reactor {
    control: Control,
    dispatcher: Dispatcher,
}

impl Reactor {
    pub closed spec fn control(&self) -> Control {
        self.control
    }

    pub closed spec fn dispatcher(&self) -> Dispatcher {
        self.dispatcher
    }

    /// A reactor with no source attached.
    pub fn new() -> (r: Reactor)
        ensures
            r.control().wf(),
            forall|i: int| 0 <= i < MAX_HANDLERS ==> !#[trigger] r.control().is_used(i),
            r.dispatcher().handlers().len() == 0,
    {
        Reactor { control: Control::new(), dispatcher: Dispatcher::new() }
    }

    /// The two halves: one attaches sources, the other dispatches.
    pub fn split(self) -> (r: (Control, Dispatcher))
        ensures
            r.0 == self.control(),
            r.1 == self.dispatcher(),
    {
        let Reactor { control, dispatcher } = self;
        (control, dispatcher)
    }
}

} // verus!
