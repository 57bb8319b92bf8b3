//! Subscribers that can be used from several threads.

use vstd::prelude::*;

verus! {

/// A sample of a multi-threaded subscriber.
pub type Sample<T> = crate::sample::Sample<T, crate::sample::SubscriberArc>;

/// The receiver queue of a multi-threaded subscriber.
pub type SampleReceiver<T> = crate::sample::SampleReceiver<T, crate::sample::SubscriberArc>;

/// A multi-threaded subscriber.
pub type Subscriber<T> = crate::subscriber::Subscriber<T, crate::sample::SubscriberArc>;

} // verus!
