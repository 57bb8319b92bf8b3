//! Publishers: building, offering, loaning samples and publishing them.

use vstd::prelude::*;
use vstd::layout::{align_of, size_of};
use core::marker::PhantomData;
use core::mem::MaybeUninit;
use crate::error::IceoryxError;
use crate::marker::ShmSend;
use crate::options::{PublisherOptions, ServiceDescription};
use crate::queue_policy::ConsumerTooSlowPolicy;
use crate::layout::{lemma_repeat_len, repeat};
use crate::runtime::{Runtime, RuntimeModel, MAX_PORTS};
use crate::sample_mut::{RawSampleMut, SampleMut};

verus! {

/// The transport `after` is `before` with one more publisher port, for the service
/// `service`/`instance`/`event` and with `options`.
pub open spec fn publisher_added(
    before: RuntimeModel,
    after: RuntimeModel,
    service: Seq<char>,
    instance: Seq<char>,
    event: Seq<char>,
    options: PublisherOptions,
) -> bool {
    &&& after.publishers.len() == before.publishers.len() + 1
    &&& after.publishers.drop_last() == before.publishers
    &&& after.chunks == before.chunks
    &&& after.subscribers == before.subscribers
    &&& after.name == before.name
    &&& after.chunk_payload_size == before.chunk_payload_size
    &&& after.publishers.last().service.service@ == service
    &&& after.publishers.last().service.instance@ == instance
    &&& after.publishers.last().service.event@ == event
    &&& after.publishers.last().options == options
    &&& after.publishers.last().offered == options.offer_on_create
}

/// Builds a publisher with custom options.
pub struct PublisherBuilder<'a, T: ?Sized> {
    service: &'a str,
    instance: &'a str,
    event: &'a str,
    options: PublisherOptions,
    phantom: PhantomData<T>,
}

impl<'a, T: ?Sized> PublisherBuilder<'a, T> {
    pub closed spec fn service_name(&self) -> Seq<char> {
        self.service@
    }

    pub closed spec fn instance_name(&self) -> Seq<char> {
        self.instance@
    }

    pub closed spec fn event_name(&self) -> Seq<char> {
        self.event@
    }

    pub closed spec fn options(&self) -> PublisherOptions {
        self.options
    }

    /// A builder for the service `service`/`instance`/`event` with default options: no history,
    /// no node name, the oldest data discarded for slow subscribers.
    pub fn new(service: &'a str, instance: &'a str, event: &'a str) -> (r: Self)
        ensures
            r.service_name() == service@,
            r.instance_name() == instance@,
            r.event_name() == event@,
            r.options().history_capacity == 0,
            r.options().node_name@ == Seq::<char>::empty(),
            r.options().subscriber_too_slow_policy == ConsumerTooSlowPolicy::DiscardOldestData,
    {
        PublisherBuilder { service, instance, event, options: PublisherOptions::default(), phantom: PhantomData }
    }

    /// The number of samples kept for subscribers that ask for history; recorded with the port,
    /// the in-process transport keeps no history.
    pub fn history_capacity(self, size: u64) -> (r: Self)
        ensures
            r.options() == (PublisherOptions { history_capacity: size, ..self.options() }),
            r.service_name() == self.service_name(),
            r.instance_name() == self.instance_name(),
            r.event_name() == self.event_name(),
    {
        let PublisherBuilder { service, instance, event, options, phantom } = self;
        PublisherBuilder { service, instance, event, options: PublisherOptions { history_capacity: size, ..options }, phantom }
    }

    /// The name of the node the publisher belongs to.
    pub fn node_name(self, name: String) -> (r: Self)
        ensures
            r.options() == (PublisherOptions { node_name: name, ..self.options() }),
            r.service_name() == self.service_name(),
            r.instance_name() == self.instance_name(),
            r.event_name() == self.event_name(),
    {
        let PublisherBuilder { service, instance, event, options, phantom } = self;
        PublisherBuilder { service, instance, event, options: PublisherOptions { node_name: name, ..options }, phantom }
    }

    /// What to do when a subscriber is too slow to take the published samples; recorded with the
    /// port, the in-process transport always discards the oldest sample of a full queue.
    pub fn subscriber_too_slow_policy(self, policy: ConsumerTooSlowPolicy) -> (r: Self)
        ensures
            r.options() == (PublisherOptions { subscriber_too_slow_policy: policy, ..self.options() }),
            r.service_name() == self.service_name(),
            r.instance_name() == self.instance_name(),
            r.event_name() == self.event_name(),
    {
        let PublisherBuilder { service, instance, event, options, phantom } = self;
        PublisherBuilder { service, instance, event, options: PublisherOptions { subscriber_too_slow_policy: policy, ..options }, phantom }
    }

    fn register(self, rt: &mut Runtime, offer_on_create: bool) -> (r: Option<usize>)
        requires
            old(rt).wf(),
        ensures
            final(rt).wf(),
            old(rt)@.publishers.len() >= MAX_PORTS ==> r is None && final(rt)@ == old(rt)@,
            old(rt)@.publishers.len() < MAX_PORTS ==> r == Some(old(rt)@.publishers.len() as usize)
                && publisher_added(
                old(rt)@,
                final(rt)@,
                self.service_name(),
                self.instance_name(),
                self.event_name(),
                PublisherOptions { offer_on_create, ..self.options() },
            ),
    {
        let ghost m = rt@;
        let PublisherBuilder { service, instance, event, options, phantom: _ } = self;
        let description = ServiceDescription::new(service, instance, event);
        let r = rt.create_publisher(description, PublisherOptions { offer_on_create, ..options });
        proof {
            if r is Some {
                assert(rt@.publishers.drop_last() =~= m.publishers);
            }
        }
        r
    }

    /// Creates a publisher that offers its service right away.
    pub fn create(self, rt: &mut Runtime) -> (r: Result<Publisher<T>, IceoryxError>)
        requires
            old(rt).wf(),
        ensures
            final(rt).wf(),
            r is Err <==> old(rt)@.publishers.len() >= MAX_PORTS,
            r is Err ==> r == Err::<Publisher<T>, IceoryxError>(IceoryxError::PublisherCreationFailed)
                && final(rt)@ == old(rt)@,
            r matches Ok(p) ==> p.port() == old(rt)@.publishers.len() && publisher_added(
                old(rt)@,
                final(rt)@,
                self.service_name(),
                self.instance_name(),
                self.event_name(),
                PublisherOptions { offer_on_create: true, ..self.options() },
            ),
    {
        match self.register(rt, true) {
            Some(port) => Ok(Publisher { port, phantom: PhantomData }),
            None => Err(IceoryxError::PublisherCreationFailed),
        }
    }

    /// Creates a publisher that does not offer its service yet.
    pub fn create_without_offer(self, rt: &mut Runtime) -> (r: Result<InactivePublisher<T>, IceoryxError>)
        requires
            old(rt).wf(),
        ensures
            final(rt).wf(),
            r is Err <==> old(rt)@.publishers.len() >= MAX_PORTS,
            r is Err ==> r == Err::<InactivePublisher<T>, IceoryxError>(IceoryxError::PublisherCreationFailed)
                && final(rt)@ == old(rt)@,
            r matches Ok(p) ==> p.port() == old(rt)@.publishers.len() && publisher_added(
                old(rt)@,
                final(rt)@,
                self.service_name(),
                self.instance_name(),
                self.event_name(),
                PublisherOptions { offer_on_create: false, ..self.options() },
            ),
    {
        match self.register(rt, false) {
            Some(port) => Ok(InactivePublisher { port, phantom: PhantomData }),
            None => Err(IceoryxError::PublisherCreationFailed),
        }
    }
}

/// A publisher that does not offer its service and is not visible to subscribers.
pub struct InactivePublisher<T: ?Sized> {
    port: usize,
    phantom: PhantomData<T>,
}

impl<T: ?Sized> InactivePublisher<T> {
    pub closed spec fn port(&self) -> usize {
        self.port
    }

    /// Offers the service again.
    pub fn offer(self, rt: &mut Runtime) -> (r: Publisher<T>)
        requires
            old(rt).wf(),
            self.port() < old(rt)@.publishers.len(),
        ensures
            final(rt).wf(),
            final(rt)@ == old(rt)@.with_offer(self.port() as int, true),
            r.port() == self.port(),
    {
        rt.set_offer(self.port, true);
        Publisher { port: self.port, phantom: PhantomData }
    }
}

/// A publisher that offers its service.
pub struct Publisher<T: ?Sized> {
    port: usize,
    phantom: PhantomData<T>,
}

impl<T: ?Sized> Publisher<T> {
    pub closed spec fn port(&self) -> usize {
        self.port
    }

    /// Whether the service is offered.
    pub fn is_offered(&self, rt: &Runtime) -> (r: bool)
        requires
            self.port() < rt@.publishers.len(),
        ensures
            r == rt@.publishers[self.port() as int].offered,
    {
        rt.is_offered(self.port)
    }

    /// Stops offering the service.
    pub fn stop_offer(self, rt: &mut Runtime) -> (r: InactivePublisher<T>)
        requires
            old(rt).wf(),
            self.port() < old(rt)@.publishers.len(),
        ensures
            final(rt).wf(),
            final(rt)@ == old(rt)@.with_offer(self.port() as int, false),
            r.port() == self.port(),
    {
        rt.set_offer(self.port, false);
        InactivePublisher { port: self.port, phantom: PhantomData }
    }

    /// Whether some subscriber takes what this publisher sends.
    pub fn has_subscribers(&self, rt: &Runtime) -> (r: bool)
        requires
            self.port() < rt@.publishers.len(),
        ensures
            r == rt@.has_subscribers(self.port() as int),
    {
        rt.has_subscribers(self.port)
    }

    /// Publishes a sample: every connected subscriber receives its chunk, and the sample's
    /// ownership ends.
    pub fn publish(&self, rt: &mut Runtime, sample: SampleMut<T>)
        requires
            old(rt).wf(),
            sample.publisher() < old(rt)@.publishers.len(),
            sample.chunk() < old(rt)@.chunks.len(),
        ensures
            final(rt).wf(),
            final(rt)@ == old(rt)@.sent(sample.publisher() as int, sample.chunk() as int),
    {
        let (chunk, publisher) = sample.into_parts();
        rt.send_chunk(publisher, chunk);
    }

    /// Gives a sample back without publishing it.
    pub fn release(&self, rt: &mut Runtime, sample: SampleMut<T>)
        requires
            old(rt).wf(),
            sample.chunk() < old(rt)@.chunks.len(),
        ensures
            final(rt).wf(),
            final(rt)@ == old(rt)@.released(sample.chunk() as int),
    {
        let (chunk, _) = sample.into_parts();
        rt.release_chunk(chunk);
    }

    /// Publishes a raw chunk handle through this publisher.
    pub fn publish_raw(&self, rt: &mut Runtime, sample: RawSampleMut<T>)
        requires
            old(rt).wf(),
            self.port() < old(rt)@.publishers.len(),
            sample.chunk() < old(rt)@.chunks.len(),
        ensures
            final(rt).wf(),
            final(rt)@ == old(rt)@.sent(self.port() as int, sample.chunk() as int),
    {
        rt.send_chunk(self.port, sample.chunk_handle());
    }

    /// Gives a raw chunk handle back without publishing it.
    pub fn release_raw(&self, rt: &mut Runtime, sample: RawSampleMut<T>)
        requires
            old(rt).wf(),
            sample.chunk() < old(rt)@.chunks.len(),
        ensures
            final(rt).wf(),
            final(rt)@ == old(rt)@.released(sample.chunk() as int),
    {
        rt.release_chunk(sample.chunk_handle());
    }
}

impl<T: ShmSend> Publisher<T> {
    /// Loans a chunk of `size_of::<T>()` bytes aligned to `align_of::<T>()`, not yet initialized.
    pub fn loan_uninit(&self, rt: &mut Runtime) -> (r: Result<SampleMut<MaybeUninit<T>>, IceoryxError>)
        requires
            old(rt).wf(),
        ensures
            final(rt).wf(),
            r is Ok <==> old(rt)@.allocation(size_of::<T>() as usize) is Some,
            r is Err ==> r == Err::<SampleMut<MaybeUninit<T>>, IceoryxError>(IceoryxError::LoanSampleFailed)
                && final(rt)@ == old(rt)@,
            r matches Ok(s) ==> Some(s.chunk()) == old(rt)@.allocation(size_of::<T>() as usize)
                && s.chunk() < old(rt)@.chunks.len()
                && final(rt)@.chunks[s.chunk() as int].payload.len() == size_of::<T>()
                && s.publisher() == self.port()
                && final(rt)@ == old(rt)@.loaned(s.chunk() as int, size_of::<T>() as usize, align_of::<T>() as usize),
    {
        match rt.allocate_chunk(core::mem::size_of::<T>(), core::mem::align_of::<T>()) {
            Some(chunk) => Ok(SampleMut::new(chunk, self.port)),
            None => Err(IceoryxError::LoanSampleFailed),
        }
    }
}

impl<T: ShmSend + Default> Publisher<T> {
    /// Loans a sample that holds `T::default()`.
    pub fn loan(&self, rt: &mut Runtime) -> (r: Result<SampleMut<T>, IceoryxError>)
        requires
            old(rt).wf(),
        ensures
            final(rt).wf(),
            r is Ok <==> old(rt)@.allocation(size_of::<T>() as usize) is Some,
            r is Err ==> r == Err::<SampleMut<T>, IceoryxError>(IceoryxError::LoanSampleFailed)
                && final(rt)@ == old(rt)@,
            r matches Ok(s) ==> Some(s.chunk()) == old(rt)@.allocation(size_of::<T>() as usize)
                && s.publisher() == self.port()
                && exists|d: T| call_ensures(T::default, (), d)
                    && final(rt)@ == old(rt)@.loaned(s.chunk() as int, size_of::<T>() as usize, align_of::<T>() as usize)
                        .written(s.chunk() as int, 0, T::spec_to_bytes(d)),
    {
        let sample = self.loan_uninit(rt)?;
        let d = T::default();
        Ok(sample.write(rt, d))
    }
}

impl<T: ShmSend> Publisher<[T]> {
    /// Loans an uninitialized slice of `len` elements aligned like `T`.
    pub fn loan_uninit_slice(&self, rt: &mut Runtime, len: usize) -> (r: Result<
        SampleMut<[MaybeUninit<T>]>,
        IceoryxError,
    >)
        requires
            old(rt).wf(),
        ensures
            final(rt).wf(),
            r is Ok <==> len * size_of::<T>() <= usize::MAX && old(rt)@.allocation(
                (len * size_of::<T>()) as usize,
            ) is Some,
            r is Err ==> r == Err::<SampleMut<[MaybeUninit<T>]>, IceoryxError>(IceoryxError::LoanSampleFailed)
                && final(rt)@ == old(rt)@,
            r matches Ok(s) ==> s.chunk() < old(rt)@.chunks.len() && s.publisher() == self.port()
                && final(rt)@ == old(rt)@.loaned(
                s.chunk() as int,
                (len * size_of::<T>()) as usize,
                align_of::<T>() as usize,
            ),
    {
        self.loan_uninit_slice_with_alignment(rt, len, core::mem::align_of::<T>())
    }

    /// Loans an uninitialized slice of `len` elements aligned to `align`, which must be at
    /// least the alignment of `T`; a smaller one is rejected and nothing is allocated.
    pub fn loan_uninit_slice_with_alignment(&self, rt: &mut Runtime, len: usize, align: usize) -> (r:
        Result<SampleMut<[MaybeUninit<T>]>, IceoryxError>)
        requires
            old(rt).wf(),
        ensures
            final(rt).wf(),
            align < align_of::<T>() ==> r == Err::<SampleMut<[MaybeUninit<T>]>, IceoryxError>(
                IceoryxError::InvalidAlignment { requested: align, min_required: align_of::<T>() as usize },
            ) && final(rt)@ == old(rt)@,
            align >= align_of::<T>() ==> (r is Ok <==> len * size_of::<T>() <= usize::MAX
                && old(rt)@.allocation((len * size_of::<T>()) as usize) is Some),
            align >= align_of::<T>() && r is Err ==> r == Err::<SampleMut<[MaybeUninit<T>]>, IceoryxError>(
                IceoryxError::LoanSampleFailed,
            ) && final(rt)@ == old(rt)@,
            r matches Ok(s) ==> s.chunk() < old(rt)@.chunks.len() && s.publisher() == self.port()
                && Some(s.chunk()) == old(rt)@.allocation((len * size_of::<T>()) as usize)
                && final(rt)@ == old(rt)@.loaned(s.chunk() as int, (len * size_of::<T>()) as usize, align),
    {
        crate::layout::check_alignment::<T>(align)?;
        let size = match len.checked_mul(core::mem::size_of::<T>()) {
            Some(size) => size,
            None => return Err(IceoryxError::LoanSampleFailed),
        };
        match rt.allocate_chunk(size, align) {
            Some(chunk) => Ok(SampleMut::new(chunk, self.port)),
            None => Err(IceoryxError::LoanSampleFailed),
        }
    }
}

impl<T: ShmSend + Default> Publisher<[T]> {
    /// Loans a slice of `len` elements aligned like `T`, each holding `T::default()`.
    pub fn loan_slice(&self, rt: &mut Runtime, len: usize) -> (r: Result<SampleMut<[T]>, IceoryxError>)
        requires
            old(rt).wf(),
        ensures
            final(rt).wf(),
            r is Ok <==> len * size_of::<T>() <= usize::MAX && old(rt)@.allocation(
                (len * size_of::<T>()) as usize,
            ) is Some,
            r is Err ==> r == Err::<SampleMut<[T]>, IceoryxError>(IceoryxError::LoanSampleFailed)
                && final(rt)@ == old(rt)@,
            r matches Ok(s) ==> s.chunk() < old(rt)@.chunks.len() && s.publisher() == self.port()
                && exists|d: T| call_ensures(T::default, (), d)
                    && final(rt)@ == old(rt)@.loaned(s.chunk() as int, (len * size_of::<T>()) as usize, align_of::<T>() as usize)
                        .written(s.chunk() as int, 0, repeat(T::spec_to_bytes(d), len as nat)),
    {
        self.loan_slice_with_alignment(rt, len, core::mem::align_of::<T>())
    }

    /// Loans a slice of `len` elements aligned to `align`, each holding `T::default()`; an
    /// alignment below that of `T` is rejected and nothing is allocated.
    pub fn loan_slice_with_alignment(&self, rt: &mut Runtime, len: usize, align: usize) -> (r: Result<
        SampleMut<[T]>,
        IceoryxError,
    >)
        requires
            old(rt).wf(),
        ensures
            final(rt).wf(),
            align < align_of::<T>() ==> r == Err::<SampleMut<[T]>, IceoryxError>(
                IceoryxError::InvalidAlignment { requested: align, min_required: align_of::<T>() as usize },
            ) && final(rt)@ == old(rt)@,
            align >= align_of::<T>() ==> (r is Ok <==> len * size_of::<T>() <= usize::MAX
                && old(rt)@.allocation((len * size_of::<T>()) as usize) is Some),
            align >= align_of::<T>() && r is Err ==> r == Err::<SampleMut<[T]>, IceoryxError>(
                IceoryxError::LoanSampleFailed,
            ) && final(rt)@ == old(rt)@,
            r matches Ok(s) ==> s.chunk() < old(rt)@.chunks.len() && s.publisher() == self.port()
                && Some(s.chunk()) == old(rt)@.allocation((len * size_of::<T>()) as usize)
                && exists|d: T| call_ensures(T::default, (), d)
                    && final(rt)@ == old(rt)@.loaned(s.chunk() as int, (len * size_of::<T>()) as usize, align)
                        .written(s.chunk() as int, 0, repeat(T::spec_to_bytes(d), len as nat)),
    {
        let sample = self.loan_uninit_slice_with_alignment(rt, len, align)?;
        let d = T::default();
        proof {
            T::lemma_bytes(d);
        }
        let mut bytes: Vec<u8> = Vec::new();
        let mut i: usize = 0;
        while i < len
            invariant
                i <= len,
                bytes@ == repeat(T::spec_to_bytes(d), i as nat),
            decreases len - i,
        {
            let mut b = d.to_bytes();
            bytes.append(&mut b);
            i = i + 1;
        }
        proof {
            lemma_repeat_len(T::spec_to_bytes(d), len as nat);
        }
        rt.write_payload(sample.chunk_handle(), 0, bytes.as_slice());
        Ok(sample.assume_init())
    }
}

} // verus!
