use vstd::prelude::*;

verus! {

/// Error which can occur when using the transport.
#[derive(Debug, PartialEq, Eq, Clone, Copy, Structural)]
pub enum IceoryxError {
    /// Loaning a sample failed, e.g. due to exhausted memory pools.
    LoanSampleFailed,
    /// The requested alignment is smaller than the one required by the element type.
    InvalidAlignment {
        /// The requested alignment
        requested: usize,
        /// The required minimal alignment
        min_required: usize,
    },
    /// Creation of the publisher failed, e.g. due to exhausted resources.
    PublisherCreationFailed,
    /// Creation of the subscriber failed, e.g. due to exhausted resources.
    SubscriberCreationFailed,
    /// The maximum number of samples held in parallel is exhausted.
    TooManySamplesHoldInParallel,
}

} // verus!
