//! Subscribers: building, subscribing and handing out the receiver queue.

use vstd::prelude::*;
use core::marker::PhantomData;
use crate::error::IceoryxError;
use crate::options::{ServiceDescription, SubscribeState, SubscriberOptions, DEFAULT_QUEUE_CAPACITY};
use crate::queue_policy::QueueFullPolicy;
use crate::runtime::{Runtime, SubscriberPortModel, MAX_PORTS};
use crate::sample::{SampleReceiver, SubscriberArc, SubscriberRc, SubscriberStrongRef};

verus! {

/// Builds a subscriber with custom options.
pub struct SubscriberBuilder<'a, T: ?Sized> {
    service: &'a str,
    instance: &'a str,
    event: &'a str,
    options: SubscriberOptions,
    phantom: PhantomData<T>,
}

/// Proof that a subscriber's receiver queue has not been handed out yet.
pub struct SampleReceiverToken {}

/// The subscriber port that was added last to the transport `after`, which `before` lacked.
pub open spec fn subscriber_added(
    before: crate::runtime::RuntimeModel,
    after: crate::runtime::RuntimeModel,
    service: Seq<char>,
    instance: Seq<char>,
    event: Seq<char>,
    options: SubscriberOptions,
) -> bool {
    &&& after.subscribers.len() == before.subscribers.len() + 1
    &&& after.subscribers.drop_last() == before.subscribers
    &&& after.chunks == before.chunks
    &&& after.publishers == before.publishers
    &&& after.name == before.name
    &&& after.chunk_payload_size == before.chunk_payload_size
    &&& after.subscribers.last().service.service@ == service
    &&& after.subscribers.last().service.instance@ == instance
    &&& after.subscribers.last().service.event@ == event
    &&& after.subscribers.last().options == options
    &&& after.subscribers.last().subscribe_requested == options.subscribe_on_create
    &&& after.subscribers.last().queue.len() == 0
    &&& after.subscribers.last().condition is None
}

impl<'a, T: ?Sized> SubscriberBuilder<'a, T> {
    pub closed spec fn service_name(&self) -> Seq<char> {
        self.service@
    }

    pub closed spec fn instance_name(&self) -> Seq<char> {
        self.instance@
    }

    pub closed spec fn event_name(&self) -> Seq<char> {
        self.event@
    }

    pub closed spec fn options(&self) -> SubscriberOptions {
        self.options
    }

    /// A builder for the service `service`/`instance`/`event` with default options: a queue of
    /// `DEFAULT_QUEUE_CAPACITY` samples, no history, the oldest data discarded when full.
    pub fn new(service: &'a str, instance: &'a str, event: &'a str) -> (r: Self)
        ensures
            r.service_name() == service@,
            r.instance_name() == instance@,
            r.event_name() == event@,
            r.options().queue_capacity == DEFAULT_QUEUE_CAPACITY,
            r.options().history_request == 0,
            r.options().node_name@ == Seq::<char>::empty(),
            r.options().queue_full_policy == QueueFullPolicy::DiscardOldestData,
            !r.options().requires_publisher_history_support,
    {
        SubscriberBuilder { service, instance, event, options: SubscriberOptions::default(), phantom: PhantomData }
    }

    /// The capacity of the receiver queue.
    pub fn queue_capacity(self, size: u64) -> (r: Self)
        ensures
            r.options() == (SubscriberOptions { queue_capacity: size, ..self.options() }),
            r.service_name() == self.service_name(),
            r.instance_name() == self.instance_name(),
            r.event_name() == self.event_name(),
    {
        let SubscriberBuilder { service, instance, event, options, phantom } = self;
        SubscriberBuilder { service, instance, event, options: SubscriberOptions { queue_capacity: size, ..options }, phantom }
    }

    /// The number of samples asked for from the publisher's history; recorded with the port.
    pub fn history_request(self, max_number_of_samples: u64) -> (r: Self)
        ensures
            r.options() == (SubscriberOptions { history_request: max_number_of_samples, ..self.options() }),
            r.service_name() == self.service_name(),
            r.instance_name() == self.instance_name(),
            r.event_name() == self.event_name(),
    {
        let SubscriberBuilder { service, instance, event, options, phantom } = self;
        SubscriberBuilder {
            service,
            instance,
            event,
            options: SubscriberOptions { history_request: max_number_of_samples, ..options },
            phantom,
        }
    }

    /// The name of the node the subscriber belongs to.
    pub fn node_name(self, name: &str) -> (r: Self)
        ensures
            r.options().node_name@ == name@,
            r.options() == (SubscriberOptions { node_name: r.options().node_name, ..self.options() }),
            r.service_name() == self.service_name(),
            r.instance_name() == self.instance_name(),
            r.event_name() == self.event_name(),
    {
        let SubscriberBuilder { service, instance, event, options, phantom } = self;
        SubscriberBuilder {
            service,
            instance,
            event,
            options: SubscriberOptions { node_name: name.to_owned(), ..options },
            phantom,
        }
    }

    /// What the subscriber asks for when its queue is full; recorded with the port, the
    /// in-process transport always discards the oldest sample of a full queue.
    pub fn queue_full_policy(self, queue_full_policy: QueueFullPolicy) -> (r: Self)
        ensures
            r.options() == (SubscriberOptions { queue_full_policy, ..self.options() }),
            r.service_name() == self.service_name(),
            r.instance_name() == self.instance_name(),
            r.event_name() == self.event_name(),
    {
        let SubscriberBuilder { service, instance, event, options, phantom } = self;
        SubscriberBuilder { service, instance, event, options: SubscriberOptions { queue_full_policy, ..options }, phantom }
    }

    /// Whether only publishers with a history are eligible; recorded with the port.
    pub fn requires_publisher_history_support(self, flag: bool) -> (r: Self)
        ensures
            r.options() == (SubscriberOptions { requires_publisher_history_support: flag, ..self.options() }),
            r.service_name() == self.service_name(),
            r.instance_name() == self.instance_name(),
            r.event_name() == self.event_name(),
    {
        let SubscriberBuilder { service, instance, event, options, phantom } = self;
        SubscriberBuilder {
            service,
            instance,
            event,
            options: SubscriberOptions { requires_publisher_history_support: flag, ..options },
            phantom,
        }
    }

    fn register(self, rt: &mut Runtime, subscribe_on_create: bool) -> (r: Option<usize>)
        requires
            old(rt).wf(),
        ensures
            final(rt).wf(),
            old(rt)@.subscribers.len() >= MAX_PORTS ==> r is None && final(rt)@ == old(rt)@,
            old(rt)@.subscribers.len() < MAX_PORTS ==> r == Some(old(rt)@.subscribers.len() as usize)
                && subscriber_added(
                old(rt)@,
                final(rt)@,
                self.service_name(),
                self.instance_name(),
                self.event_name(),
                SubscriberOptions { subscribe_on_create, ..self.options() },
            ),
    {
        let ghost m = rt@;
        let SubscriberBuilder { service, instance, event, options, phantom: _ } = self;
        let description = ServiceDescription::new(service, instance, event);
        let r = rt.create_subscriber(description, SubscriberOptions { subscribe_on_create, ..options });
        proof {
            if r is Some {
                assert(rt@.subscribers.drop_last() =~= m.subscribers);
            }
        }
        r
    }

    /// Creates a subscriber restricted to one thread, subscribed right away.
    pub fn create(self, rt: &mut Runtime) -> (r: Result<(Subscriber<T, SubscriberRc>, SampleReceiverToken), IceoryxError>)
        requires
            old(rt).wf(),
        ensures
            final(rt).wf(),
            r is Err <==> old(rt)@.subscribers.len() >= MAX_PORTS,
            r is Err ==> r == Err::<(Subscriber<T, SubscriberRc>, SampleReceiverToken), IceoryxError>(
                IceoryxError::SubscriberCreationFailed,
            ) && final(rt)@ == old(rt)@,
            r matches Ok((s, _)) ==> s.port() == old(rt)@.subscribers.len() && subscriber_added(
                old(rt)@,
                final(rt)@,
                self.service_name(),
                self.instance_name(),
                self.event_name(),
                SubscriberOptions { subscribe_on_create: true, ..self.options() },
            ),
    {
        match self.register(rt, true) {
            Some(port) => Ok((Subscriber::from_port(port), SampleReceiverToken {})),
            None => Err(IceoryxError::SubscriberCreationFailed),
        }
    }

    /// Creates a subscriber that can be used from several threads, subscribed right away.
    pub fn create_mt(self, rt: &mut Runtime) -> (r: Result<(Subscriber<T, SubscriberArc>, SampleReceiverToken), IceoryxError>)
        requires
            old(rt).wf(),
        ensures
            final(rt).wf(),
            r is Err <==> old(rt)@.subscribers.len() >= MAX_PORTS,
            r is Err ==> r == Err::<(Subscriber<T, SubscriberArc>, SampleReceiverToken), IceoryxError>(
                IceoryxError::SubscriberCreationFailed,
            ) && final(rt)@ == old(rt)@,
            r matches Ok((s, _)) ==> s.port() == old(rt)@.subscribers.len() && subscriber_added(
                old(rt)@,
                final(rt)@,
                self.service_name(),
                self.instance_name(),
                self.event_name(),
                SubscriberOptions { subscribe_on_create: true, ..self.options() },
            ),
    {
        match self.register(rt, true) {
            Some(port) => Ok((Subscriber::from_port(port), SampleReceiverToken {})),
            None => Err(IceoryxError::SubscriberCreationFailed),
        }
    }

    /// Creates a subscriber that does not ask to be subscribed.
    pub fn create_without_subscribe(self, rt: &mut Runtime) -> (r: Result<InactiveSubscriber<T>, IceoryxError>)
        requires
            old(rt).wf(),
        ensures
            final(rt).wf(),
            r is Err <==> old(rt)@.subscribers.len() >= MAX_PORTS,
            r is Err ==> r == Err::<InactiveSubscriber<T>, IceoryxError>(IceoryxError::SubscriberCreationFailed)
                && final(rt)@ == old(rt)@,
            r matches Ok(s) ==> s.port() == old(rt)@.subscribers.len() && subscriber_added(
                old(rt)@,
                final(rt)@,
                self.service_name(),
                self.instance_name(),
                self.event_name(),
                SubscriberOptions { subscribe_on_create: false, ..self.options() },
            ),
    {
        match self.register(rt, false) {
            Some(port) => Ok(InactiveSubscriber { port, phantom: PhantomData }),
            None => Err(IceoryxError::SubscriberCreationFailed),
        }
    }
}

/// The transport with subscriber `s` asking to be subscribed or not.
pub open spec fn with_request(m: crate::runtime::RuntimeModel, s: int, requested: bool) -> crate::runtime::RuntimeModel {
    m.with_subscriber(s, SubscriberPortModel { subscribe_requested: requested, ..m.subscribers[s] })
}

/// The transport with the condition variable of subscriber `s` attached under `condition`.
pub open spec fn with_condition(m: crate::runtime::RuntimeModel, s: int, condition: Option<u64>) -> crate::runtime::RuntimeModel {
    m.with_subscriber(s, SubscriberPortModel { condition, ..m.subscribers[s] })
}

/// A subscriber that does not ask to be subscribed and receives nothing.
pub struct InactiveSubscriber<T: ?Sized> {
    port: usize,
    phantom: PhantomData<T>,
}

impl<T: ?Sized> InactiveSubscriber<T> {
    pub closed spec fn port(&self) -> usize {
        self.port
    }

    /// Asks to be subscribed; the subscriber is restricted to one thread.
    pub fn subscribe(self, rt: &mut Runtime) -> (r: (Subscriber<T, SubscriberRc>, SampleReceiverToken))
        requires
            old(rt).wf(),
            self.port() < old(rt)@.subscribers.len(),
        ensures
            final(rt).wf(),
            final(rt)@ == with_request(old(rt)@, self.port() as int, true),
            r.0.port() == self.port(),
    {
        rt.set_subscribe_requested(self.port, true);
        (Subscriber::from_port(self.port), SampleReceiverToken {})
    }

    /// Asks to be subscribed; the subscriber can be used from several threads.
    pub fn subscribe_mt(self, rt: &mut Runtime) -> (r: (Subscriber<T, SubscriberArc>, SampleReceiverToken))
        requires
            old(rt).wf(),
            self.port() < old(rt)@.subscribers.len(),
        ensures
            final(rt).wf(),
            final(rt)@ == with_request(old(rt)@, self.port() as int, true),
            r.0.port() == self.port(),
    {
        rt.set_subscribe_requested(self.port, true);
        (Subscriber::from_port(self.port), SampleReceiverToken {})
    }

    /// The subscription state.
    pub fn subscription_state(&self, rt: &Runtime) -> (r: SubscribeState)
        requires
            self.port() < rt@.subscribers.len(),
        ensures
            r == rt@.subscription_state(self.port() as int),
    {
        rt.subscription_state(self.port)
    }
}

/// A subscriber that asked to be subscribed.
pub struct Subscriber<T: ?Sized, S: SubscriberStrongRef> {
    subscriber: S,
    phantom: PhantomData<T>,
}

impl<T: ?Sized, S: SubscriberStrongRef> Subscriber<T, S> {
    fn from_port(port: usize) -> (r: Self)
        ensures
            r.port() == port,
    {
        Subscriber { subscriber: S::new(port), phantom: PhantomData }
    }

    pub closed spec fn port(&self) -> usize {
        self.subscriber.spec_port()
    }

    /// The subscription state.
    pub fn subscription_state(&self, rt: &Runtime) -> (r: SubscribeState)
        requires
            self.port() < rt@.subscribers.len(),
        ensures
            r == rt@.subscription_state(self.port() as int),
    {
        rt.subscription_state(self.subscriber.port())
    }

    /// Hands out the receiver queue and attaches its condition variable under notification index 0.
    pub fn get_sample_receiver(&self, rt: &mut Runtime, token: SampleReceiverToken) -> (r: SampleReceiver<T, S>)
        requires
            old(rt).wf(),
            self.port() < old(rt)@.subscribers.len(),
        ensures
            final(rt).wf(),
            final(rt)@ == with_condition(old(rt)@, self.port() as int, Some(0)),
            r.port() == self.port(),
    {
        rt.set_condition(self.subscriber.port(), Some(0));
        SampleReceiver::new(self.subscriber.share())
    }

    /// Detaches the receiver queue's condition variable, so that its waits end as stopped.
    pub fn stop_sample_receiver(&self, rt: &mut Runtime)
        requires
            old(rt).wf(),
            self.port() < old(rt)@.subscribers.len(),
        ensures
            final(rt).wf(),
            final(rt)@ == with_condition(old(rt)@, self.port() as int, None),
    {
        rt.set_condition(self.subscriber.port(), None)
    }

    /// Unsubscribes, consuming the receiver queue; samples already taken stay valid.
    pub fn unsubscribe(self, rt: &mut Runtime, _sample_receiver: SampleReceiver<T, S>) -> (r: InactiveSubscriber<T>)
        requires
            old(rt).wf(),
            self.port() < old(rt)@.subscribers.len(),
        ensures
            final(rt).wf(),
            final(rt)@ == with_request(with_condition(old(rt)@, self.port() as int, None), self.port() as int, false),
            r.port() == self.port(),
    {
        let port = self.subscriber.port();
        rt.set_condition(port, None);
        rt.set_subscribe_requested(port, false);
        InactiveSubscriber { port, phantom: PhantomData }
    }
}

} // verus!
