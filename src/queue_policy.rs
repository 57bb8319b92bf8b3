use vstd::prelude::*;

verus! {

/// What a publisher does when a subscriber's queue is full.
#[derive(Debug, Clone, Copy, PartialEq, Eq, Structural)]
pub enum ConsumerTooSlowPolicy {
    WaitForConsumer,
    DiscardOldestData,
}

/// What a subscriber asks for when its queue is full.
#[derive(Debug, Clone, Copy, PartialEq, Eq, Structural)]
pub enum QueueFullPolicy {
    BlockProducer,
    DiscardOldestData,
}

} // verus!
