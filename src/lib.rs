//! Zero-copy publish/subscribe on top of an in-process shared-memory chunk transport.
//!
//! The library covers the ownership of samples (loaned, published, taken and released exactly
//! once), the alignment-checked views of chunks as typed values or slices, the receiver queue of
//! a subscriber, and a reactor that multiplexes several receiver queues. The transport itself is
//! the explicit `Runtime` value that every operation takes.

pub mod error;
pub mod introspection;
pub mod laws;
pub mod layout;
pub mod marker;
pub mod mt;
pub mod options;
pub mod publisher;
pub mod queue_policy;
pub mod reactor;
pub mod runtime;
pub mod sample;
pub mod sample_mut;
pub mod st;
pub mod subscriber;

pub use error::IceoryxError;
pub use options::SubscribeState;
pub use publisher::{InactivePublisher, Publisher, PublisherBuilder};
pub use queue_policy::{ConsumerTooSlowPolicy, QueueFullPolicy};
pub use runtime::Runtime;
pub use sample::{Sample, SampleReceiver, SampleReceiverWaitState};
pub use sample_mut::SampleMut;
pub use subscriber::{InactiveSubscriber, Subscriber, SubscriberBuilder};
