//! Shared samples and the receiver queue on the subscribing side.

use vstd::prelude::*;
use vstd::layout::size_of;
use core::marker::PhantomData;
use std::rc::Rc;
use std::sync::Arc;
use crate::layout::{fits_slice, fits_taken, fits_type};
use crate::marker::ShmSend;
use crate::options::SubscribeState;
use crate::runtime::{ChunkHeader, Runtime, RuntimeModel};

verus! {

/// How a subscriber port handle is shared between a receiver queue and its samples.
///
/// `SubscriberRc` cannot leave its thread; `SubscriberArc` can.
pub trait SubscriberStrongRef: Sized {
    /// The subscriber port this handle refers to.
    spec fn spec_port(&self) -> usize;

    fn new(port: usize) -> (r: Self)
        ensures
            r.spec_port() == port,
    ;

    fn port(&self) -> (r: usize)
        ensures
            r == self.spec_port(),
    ;

    /// Another handle to the same port.
    fn share(&self) -> (r: Self)
        ensures
            r.spec_port() == self.spec_port(),
    ;
}

/// A single-threaded handle to a subscriber port.
pub type SubscriberRc = Rc<usize>;

/// A handle to a subscriber port that can be shared across threads.
pub type SubscriberArc = Arc<usize>;

impl SubscriberStrongRef for Rc<usize> {
    open spec fn spec_port(&self) -> usize {
        **self
    }

    fn new(port: usize) -> (r: Self) {
        Rc::new(port)
    }

    fn port(&self) -> (r: usize) {
        **self
    }

    fn share(&self) -> (r: Self) {
        Rc::clone(self)
    }
}

impl SubscriberStrongRef for Arc<usize> {
    open spec fn spec_port(&self) -> usize {
        **self
    }

    fn new(port: usize) -> (r: Self) {
        Arc::new(port)
    }

    fn port(&self) -> (r: usize) {
        **self
    }

    fn share(&self) -> (r: Self) {
        Arc::clone(self)
    }
}

/// A received chunk, read-only, owned by this value until it is released.
pub struct Sample<T: ?Sized, S: SubscriberStrongRef> {
    chunk: usize,
    subscriber: S,
    phantom: PhantomData<T>,
}

/// A chunk handle taken out of a `Sample`; it must be given back with `release_raw`.
pub struct RawSample<T: ?Sized> {
    chunk: usize,
    phantom: PhantomData<T>,
}

impl<T: ?Sized> RawSample<T> {
    pub closed spec fn chunk(&self) -> usize {
        self.chunk
    }

    /// The handle of the chunk.
    pub fn chunk_handle(&self) -> (r: usize)
        ensures
            r == self.chunk(),
    {
        self.chunk
    }
}

impl<T: ?Sized, S: SubscriberStrongRef> Sample<T, S> {
    /// The chunk this sample owns.
    pub closed spec fn chunk(&self) -> usize {
        self.chunk
    }

    /// The subscriber port the chunk was taken from.
    pub closed spec fn subscriber(&self) -> usize {
        self.subscriber.spec_port()
    }

    /// The header of the sample's chunk.
    pub fn chunk_header(&self, rt: &Runtime) -> (r: ChunkHeader)
        requires
            self.chunk() < rt@.chunks.len(),
        ensures
            r == rt@.chunks[self.chunk() as int].header,
    {
        rt.chunk_header(self.chunk)
    }

    /// The payload bytes of the sample.
    pub fn as_bytes<'a>(&self, rt: &'a Runtime) -> (r: &'a [u8])
        requires
            self.chunk() < rt@.chunks.len(),
        ensures
            r@ == rt@.chunks[self.chunk() as int].payload,
    {
        rt.payload(self.chunk)
    }

    /// Turns the sample into a raw chunk handle that must be released by hand.
    pub fn into_raw(self) -> (r: RawSample<T>)
        ensures
            r.chunk() == self.chunk(),
    {
        RawSample { chunk: self.chunk, phantom: PhantomData }
    }

    /// Gives the chunk back to the transport; other samples are not affected.
    pub fn release(self, rt: &mut Runtime)
        requires
            old(rt).wf(),
            self.chunk() < old(rt)@.chunks.len(),
        ensures
            final(rt).wf(),
            final(rt)@ == old(rt)@.released(self.chunk() as int),
    {
        rt.release_chunk(self.chunk);
    }
}

impl<T: ShmSend, S: SubscriberStrongRef> Sample<T, S> {
    /// The value the sample holds: its first `size_of::<T>()` payload bytes.
    pub fn get(&self, rt: &Runtime) -> (r: T)
        requires
            self.chunk() < rt@.chunks.len(),
            rt@.chunks[self.chunk() as int].payload.len() >= size_of::<T>(),
        ensures
            r == T::spec_from_bytes(rt@.chunks[self.chunk() as int].payload.subrange(0, size_of::<T>() as int)),
    {
        crate::layout::element_at::<T>(rt.payload(self.chunk), 0)
    }
}

impl<T: ShmSend, S: SubscriberStrongRef> Sample<[T], S> {
    /// The number of elements of the slice.
    pub fn len(&self, rt: &Runtime) -> (r: usize)
        requires
            self.chunk() < rt@.chunks.len(),
            size_of::<T>() > 0,
        ensures
            r as nat == rt@.chunks[self.chunk() as int].header.payload_size as nat / size_of::<T>(),
    {
        rt.chunk_header(self.chunk).payload_size / core::mem::size_of::<T>()
    }

    /// Element `i` of the slice.
    pub fn get_at(&self, rt: &Runtime, i: usize) -> (r: T)
        requires
            self.chunk() < rt@.chunks.len(),
            (i + 1) * size_of::<T>() <= rt@.chunks[self.chunk() as int].payload.len(),
        ensures
            r == T::spec_from_bytes(
                rt@.chunks[self.chunk() as int].payload.subrange(
                    i * size_of::<T>(),
                    (i + 1) * size_of::<T>(),
                ),
            ),
    {
        crate::layout::element_at::<T>(rt.payload(self.chunk), i)
    }
}

impl<S: SubscriberStrongRef> Sample<[u8], S> {
    /// Reads the untyped payload as a `U`, if its recorded size and alignment admit one.
    ///
    /// The sample stays as it is either way.
    pub fn try_as<U: ShmSend>(&self, rt: &Runtime) -> (r: Option<U>)
        requires
            rt.wf(),
            self.chunk() < rt@.chunks.len(),
        ensures
            r is Some <==> fits_type::<U>(
                rt@.chunks[self.chunk() as int].header.payload_size as nat,
                rt@.chunks[self.chunk() as int].header.payload_alignment as nat,
            ),
            r matches Some(v) ==> v == U::spec_from_bytes(
                rt@.chunks[self.chunk() as int].payload.subrange(0, size_of::<U>() as int),
            ),
    {
        let header = rt.chunk_header(self.chunk);
        if crate::layout::can_view_as::<U>(header.payload_size, header.payload_alignment) {
            Some(crate::layout::element_at::<U>(rt.payload(self.chunk), 0))
        } else {
            None
        }
    }
}

/// The outcome of waiting for samples.
#[derive(Debug, Clone, Copy, PartialEq, Eq, Structural)]
pub enum SampleReceiverWaitState {
    /// Samples can be taken from the queue.
    SamplesAvailable,
    /// No sample arrived before the timeout.
    Timeout,
    /// The receiver was stopped: no condition variable is attached any more.
    Stopped,
}

/// One round of a blocking wait: its outcome, or how many nanoseconds to wait before asking again.
#[derive(Debug, Clone, Copy, PartialEq, Eq, Structural)]
pub enum WaitStep {
    Done(SampleReceiverWaitState),
    Wait(u128),
}

/// The round of a wait of `timeout_ns` nanoseconds that has run `elapsed_ns` so far.
pub open spec fn wait_decision(attached: bool, has_data: bool, elapsed_ns: u128, timeout_ns: u128) -> WaitStep {
    if !attached {
        WaitStep::Done(SampleReceiverWaitState::Stopped)
    } else if has_data {
        WaitStep::Done(SampleReceiverWaitState::SamplesAvailable)
    } else if elapsed_ns >= timeout_ns {
        WaitStep::Done(SampleReceiverWaitState::Timeout)
    } else {
        WaitStep::Wait((timeout_ns - elapsed_ns) as u128)
    }
}

/// The receiver queue of a subscriber.
pub struct SampleReceiver<T: ?Sized, S: SubscriberStrongRef> {
    subscriber: S,
    phantom: PhantomData<T>,
}

impl<T: ?Sized, S: SubscriberStrongRef> SampleReceiver<T, S> {
    pub(crate) fn new(subscriber: S) -> (r: Self)
        ensures
            r.port() == subscriber.spec_port(),
    {
        SampleReceiver { subscriber, phantom: PhantomData }
    }

    /// The subscriber port of the queue.
    pub closed spec fn port(&self) -> usize {
        self.subscriber.spec_port()
    }

    /// The subscriber port of the queue.
    pub fn receiver_port(&self) -> (r: usize)
        ensures
            r == self.port(),
    {
        self.subscriber.port()
    }

    /// The subscription state of the subscriber.
    pub fn subscription_state(&self, rt: &Runtime) -> (r: SubscribeState)
        requires
            self.port() < rt@.subscribers.len(),
        ensures
            r == rt@.subscription_state(self.port() as int),
    {
        rt.subscription_state(self.subscriber.port())
    }

    /// Whether samples are waiting in the queue.
    pub fn has_data(&self, rt: &Runtime) -> (r: bool)
        requires
            self.port() < rt@.subscribers.len(),
        ensures
            r == (rt@.subscribers[self.port() as int].queue.len() > 0),
    {
        rt.has_chunks(self.subscriber.port())
    }

    /// Gives back every queued sample without taking it.
    pub fn clear(&self, rt: &mut Runtime)
        requires
            old(rt).wf(),
            self.port() < old(rt)@.subscribers.len(),
        ensures
            final(rt).wf(),
            final(rt)@ == old(rt)@.cleared(self.port() as int),
    {
        rt.clear(self.subscriber.port())
    }

    /// Decides one round of a blocking wait of `timeout_ns` nanoseconds that has run for
    /// `elapsed_ns`: stopped when no condition variable is attached, samples available when the
    /// queue holds any, a timeout once the time is up, and otherwise the time left to wait.
    pub fn wait_for_samples(&self, rt: &Runtime, elapsed_ns: u128, timeout_ns: u128) -> (r: WaitStep)
        requires
            self.port() < rt@.subscribers.len(),
        ensures
            r == wait_decision(
                rt@.subscribers[self.port() as int].condition is Some,
                rt@.subscribers[self.port() as int].queue.len() > 0,
                elapsed_ns,
                timeout_ns,
            ),
    {
        let port = self.subscriber.port();
        if rt.condition(port).is_none() {
            WaitStep::Done(SampleReceiverWaitState::Stopped)
        } else if rt.has_chunks(port) {
            WaitStep::Done(SampleReceiverWaitState::SamplesAvailable)
        } else if elapsed_ns >= timeout_ns {
            WaitStep::Done(SampleReceiverWaitState::Timeout)
        } else {
            WaitStep::Wait(timeout_ns - elapsed_ns)
        }
    }

    /// Gives back a raw chunk handle taken out of a sample of this queue.
    pub fn release_raw(&self, rt: &mut Runtime, sample: RawSample<T>)
        requires
            old(rt).wf(),
            sample.chunk() < old(rt)@.chunks.len(),
        ensures
            final(rt).wf(),
            final(rt)@ == old(rt)@.released(sample.chunk() as int),
    {
        rt.release_chunk(sample.chunk_handle());
    }
}

/// The transport after subscriber `s` took its oldest chunk `h`, keeping it when `accepted` and
/// giving it back otherwise.
pub open spec fn take_outcome(before: RuntimeModel, s: int, accepted: bool) -> RuntimeModel {
    if accepted {
        before.taken(s)
    } else {
        before.taken(s).released(before.subscribers[s].queue[0] as int)
    }
}

impl<T: ShmSend, S: SubscriberStrongRef> SampleReceiver<T, S> {
    /// Takes the oldest sample out of the queue. A chunk that was not loaned for a `T` and is
    /// too small or too loosely aligned for one is given back and `None` returned.
    pub fn take(&self, rt: &mut Runtime) -> (r: Option<Sample<T, S>>)
        requires
            old(rt).wf(),
            self.port() < old(rt)@.subscribers.len(),
        ensures
            final(rt).wf(),
            old(rt)@.subscribers[self.port() as int].queue.len() == 0 ==> r is None && final(rt)@ == old(rt)@,
            old(rt)@.subscribers[self.port() as int].queue.len() > 0 ==> {
                let h = old(rt)@.subscribers[self.port() as int].queue[0];
                let header = old(rt)@.chunks[h as int].header;
                let accepted = fits_taken::<T>(header.payload_size as nat, header.payload_alignment as nat);
                &&& final(rt)@ == take_outcome(old(rt)@, self.port() as int, accepted)
                &&& r is Some <==> accepted
                &&& r matches Some(sample) ==> sample.chunk() == h && sample.subscriber() == self.port()
            },
    {
        let port = self.subscriber.port();
        match rt.try_get_chunk(port) {
            None => None,
            Some(chunk) => {
                let header = rt.chunk_header(chunk);
                if crate::layout::can_take_as::<T>(header.payload_size, header.payload_alignment) {
                    Some(Sample { chunk, subscriber: self.subscriber.share(), phantom: PhantomData })
                } else {
                    rt.release_chunk(chunk);
                    None
                }
            },
        }
    }
}

impl<T: ShmSend, S: SubscriberStrongRef> SampleReceiver<[T], S> {
    /// Takes the oldest sample out of the queue. A chunk that is not exactly a slice of `T`, or
    /// is aligned too loosely, is given back and `None` returned.
    pub fn take(&self, rt: &mut Runtime) -> (r: Option<Sample<[T], S>>)
        requires
            old(rt).wf(),
            self.port() < old(rt)@.subscribers.len(),
        ensures
            final(rt).wf(),
            old(rt)@.subscribers[self.port() as int].queue.len() == 0 ==> r is None && final(rt)@ == old(rt)@,
            old(rt)@.subscribers[self.port() as int].queue.len() > 0 ==> {
                let h = old(rt)@.subscribers[self.port() as int].queue[0];
                let header = old(rt)@.chunks[h as int].header;
                let accepted = fits_slice::<T>(header.payload_size as nat, header.payload_alignment as nat);
                &&& final(rt)@ == take_outcome(old(rt)@, self.port() as int, accepted)
                &&& r is Some <==> accepted
                &&& r matches Some(sample) ==> sample.chunk() == h && sample.subscriber() == self.port()
            },
    {
        let port = self.subscriber.port();
        match rt.try_get_chunk(port) {
            None => None,
            Some(chunk) => {
                let header = rt.chunk_header(chunk);
                if crate::layout::slice_len::<T>(header.payload_size, header.payload_alignment).is_some() {
                    Some(Sample { chunk, subscriber: self.subscriber.share(), phantom: PhantomData })
                } else {
                    rt.release_chunk(chunk);
                    None
                }
            },
        }
    }
}

} // verus!
