//! Subscribers restricted to one thread.

use vstd::prelude::*;

verus! {

/// A sample of a single-threaded subscriber.
pub type Sample<T> = crate::sample::Sample<T, crate::sample::SubscriberRc>;

/// The receiver queue of a single-threaded subscriber.
pub type SampleReceiver<T> = crate::sample::SampleReceiver<T, crate::sample::SubscriberRc>;

/// A single-threaded subscriber.
pub type Subscriber<T> = crate::subscriber::Subscriber<T, crate::sample::SubscriberRc>;

} // verus!
