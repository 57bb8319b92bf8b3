//! Service names, port options and the subscription state.

use vstd::prelude::*;
use crate::queue_policy::{ConsumerTooSlowPolicy, QueueFullPolicy};

verus! {

/// The name of a service: publishers and subscribers with equal names are connected.
pub struct ServiceDescription {
    pub service: String,
    pub instance: String,
    pub event: String,
}

impl ServiceDescription {
    pub fn new(service: &str, instance: &str, event: &str) -> (r: ServiceDescription)
        ensures
            r.service@ == service@,
            r.instance@ == instance@,
            r.event@ == event@,
    {
        ServiceDescription {
            service: service.to_owned(),
            instance: instance.to_owned(),
            event: event.to_owned(),
        }
    }

    /// A copy with the same names.
    pub fn duplicate(&self) -> (r: ServiceDescription)
        ensures
            r.same(self),
    {
        ServiceDescription {
            service: self.service.clone(),
            instance: self.instance.clone(),
            event: self.event.clone(),
        }
    }

    /// Both name the same service.
    pub open spec fn same(&self, other: &ServiceDescription) -> bool {
        self.service@ == other.service@ && self.instance@ == other.instance@ && self.event@
            == other.event@
    }

    pub fn matches(&self, other: &ServiceDescription) -> (r: bool)
        ensures
            r == self.same(other),
    {
        self.service == other.service && self.instance == other.instance && self.event
            == other.event
    }
}

/// Options of a publisher port.
pub struct PublisherOptions {
    pub history_capacity: u64,
    pub node_name: String,
    pub offer_on_create: bool,
    pub subscriber_too_slow_policy: ConsumerTooSlowPolicy,
}

impl Default for PublisherOptions {
    fn default() -> (r: PublisherOptions)
        ensures
            r.history_capacity == 0,
            r.node_name@ == Seq::<char>::empty(),
            r.offer_on_create,
            r.subscriber_too_slow_policy == ConsumerTooSlowPolicy::DiscardOldestData,
    {
        PublisherOptions {
            history_capacity: 0,
            node_name: String::new(),
            offer_on_create: true,
            subscriber_too_slow_policy: ConsumerTooSlowPolicy::DiscardOldestData,
        }
    }
}

/// Queue capacity of a subscriber that does not ask for another one.
pub const DEFAULT_QUEUE_CAPACITY: u64 = 256;

/// Options of a subscriber port.
pub struct SubscriberOptions {
    pub queue_capacity: u64,
    pub history_request: u64,
    pub node_name: String,
    pub subscribe_on_create: bool,
    pub queue_full_policy: QueueFullPolicy,
    pub requires_publisher_history_support: bool,
}

impl Default for SubscriberOptions {
    fn default() -> (r: SubscriberOptions)
        ensures
            r.queue_capacity == DEFAULT_QUEUE_CAPACITY,
            r.history_request == 0,
            r.node_name@ == Seq::<char>::empty(),
            r.subscribe_on_create,
            r.queue_full_policy == QueueFullPolicy::DiscardOldestData,
            !r.requires_publisher_history_support,
    {
        SubscriberOptions {
            queue_capacity: DEFAULT_QUEUE_CAPACITY,
            history_request: 0,
            node_name: String::new(),
            subscribe_on_create: true,
            queue_full_policy: QueueFullPolicy::DiscardOldestData,
            requires_publisher_history_support: false,
        }
    }
}

/// The subscription state of a subscriber port.
#[derive(Debug, Clone, Copy, PartialEq, Eq, Structural)]
pub enum SubscribeState {
    NotSubscribed,
    SubscribeRequested,
    Subscribed,
    UnsubscribeRequested,
    WaitForOffer,
}

} // verus!
