//! Snapshots of the transport's memory pool and ports.

use vstd::prelude::*;
use crate::options::ServiceDescription;
use crate::runtime::{free_count, Runtime};

verus! {

/// Usage of a memory pool.
#[derive(Debug, Clone, Copy, PartialEq, Eq, Structural)]
pub struct MemPoolInfo {
    pub used_chunks: usize,
    pub total_number_of_chunks: usize,
    pub payload_size: usize,
}

/// A shared-memory segment and its pools.
pub struct MemorySegment {
    segment_id: u32,
    mempools: Vec<MemPoolInfo>,
}

impl MemorySegment {
    pub closed spec fn spec_segment_id(&self) -> u32 {
        self.segment_id
    }

    pub closed spec fn spec_mempools(&self) -> Seq<MemPoolInfo> {
        self.mempools@
    }

    pub fn segment_id(&self) -> (r: u32)
        ensures
            r == self.spec_segment_id(),
    {
        self.segment_id
    }

    pub fn mempools(&self) -> (r: &[MemPoolInfo])
        ensures
            r@ == self.spec_mempools(),
    {
        self.mempools.as_slice()
    }
}

/// The memory pool usage of a transport at one moment.
pub struct MemPoolIntrospectionTopic {
    segments: Vec<MemorySegment>,
}

impl MemPoolIntrospectionTopic {
    pub closed spec fn spec_segments(&self) -> Seq<MemorySegment> {
        self.segments@
    }

    /// The usage of `rt`'s pool: one segment with one pool, whose used chunks are those that
    /// somebody owns.
    pub fn new(rt: &Runtime) -> (r: MemPoolIntrospectionTopic)
        ensures
            r.spec_segments().len() == 1,
            r.spec_segments()[0].spec_segment_id() == 0,
            r.spec_segments()[0].spec_mempools() == seq![
                MemPoolInfo {
                    used_chunks: (rt@.chunks.len() - free_count(rt@.chunks)) as usize,
                    total_number_of_chunks: rt@.chunks.len() as usize,
                    payload_size: rt@.chunk_payload_size,
                },
            ],
    {
        let total = rt.chunk_count();
        let free = rt.free_chunk_count();
        proof {
            crate::runtime::lemma_free_count_bound(rt@.chunks);
        }
        let info = MemPoolInfo {
            used_chunks: total - free,
            total_number_of_chunks: total,
            payload_size: rt.chunk_payload_size(),
        };
        let mut mempools: Vec<MemPoolInfo> = Vec::new();
        mempools.push(info);
        let mut segments: Vec<MemorySegment> = Vec::new();
        segments.push(MemorySegment { segment_id: 0, mempools });
        let r = MemPoolIntrospectionTopic { segments };
        assert(r.spec_segments()[0].spec_mempools() =~= seq![info]);
        r
    }

    pub fn memory_segments(&self) -> (r: &[MemorySegment])
        ensures
            r@ == self.spec_segments(),
    {
        self.segments.as_slice()
    }
}

/// A publisher port as seen by introspection.
pub struct PublisherPortData {
    process_name: String,
    service: ServiceDescription,
    node_name: String,
}

/// A subscriber port as seen by introspection.
pub struct SubscriberPortData {
    process_name: String,
    service: ServiceDescription,
    node_name: String,
}

impl PublisherPortData {
    pub closed spec fn spec_process_name(&self) -> Seq<char> {
        self.process_name@
    }

    pub closed spec fn spec_service(&self) -> ServiceDescription {
        self.service
    }

    pub closed spec fn spec_node_name(&self) -> Seq<char> {
        self.node_name@
    }

    pub fn process_name(&self) -> (r: String)
        ensures
            r@ == self.spec_process_name(),
    {
        self.process_name.clone()
    }

    pub fn service_description(&self) -> (r: ServiceDescription)
        ensures
            r.same(&self.spec_service()),
    {
        self.service.duplicate()
    }

    pub fn node_name(&self) -> (r: String)
        ensures
            r@ == self.spec_node_name(),
    {
        self.node_name.clone()
    }
}

impl SubscriberPortData {
    pub closed spec fn spec_process_name(&self) -> Seq<char> {
        self.process_name@
    }

    pub closed spec fn spec_service(&self) -> ServiceDescription {
        self.service
    }

    pub closed spec fn spec_node_name(&self) -> Seq<char> {
        self.node_name@
    }

    pub fn process_name(&self) -> (r: String)
        ensures
            r@ == self.spec_process_name(),
    {
        self.process_name.clone()
    }

    pub fn service_description(&self) -> (r: ServiceDescription)
        ensures
            r.same(&self.spec_service()),
    {
        self.service.duplicate()
    }

    pub fn node_name(&self) -> (r: String)
        ensures
            r@ == self.spec_node_name(),
    {
        self.node_name.clone()
    }
}

/// The ports of a transport at one moment.
pub struct PortIntrospectionTopic {
    publishers: Vec<PublisherPortData>,
    subscribers: Vec<SubscriberPortData>,
}

impl PortIntrospectionTopic {
    pub closed spec fn spec_publishers(&self) -> Seq<PublisherPortData> {
        self.publishers@
    }

    pub closed spec fn spec_subscribers(&self) -> Seq<SubscriberPortData> {
        self.subscribers@
    }

    /// The ports of `rt`, in port order, each with the process name, its service and its node.
    pub fn new(rt: &Runtime) -> (r: PortIntrospectionTopic)
        ensures
            r.spec_publishers().len() == rt@.publishers.len(),
            forall|i: int| 0 <= i < rt@.publishers.len() ==> {
                let d = #[trigger] r.spec_publishers()[i];
                &&& d.spec_process_name() == rt@.name
                &&& d.spec_service().same(&rt@.publishers[i].service)
                &&& d.spec_node_name() == rt@.publishers[i].options.node_name@
            },
            r.spec_subscribers().len() == rt@.subscribers.len(),
            forall|i: int| 0 <= i < rt@.subscribers.len() ==> {
                let d = #[trigger] r.spec_subscribers()[i];
                &&& d.spec_process_name() == rt@.name
                &&& d.spec_service().same(&rt@.subscribers[i].service)
                &&& d.spec_node_name() == rt@.subscribers[i].options.node_name@
            },
    {
        let mut publishers: Vec<PublisherPortData> = Vec::new();
        let mut i: usize = 0;
        while i < rt.publisher_count()
            invariant
                i <= rt@.publishers.len(),
                publishers@.len() == i,
                forall|k: int| 0 <= k < i ==> {
                    let d = #[trigger] publishers@[k];
                    &&& d.process_name@ == rt@.name
                    &&& d.service.same(&rt@.publishers[k].service)
                    &&& d.node_name@ == rt@.publishers[k].options.node_name@
                },
            decreases rt@.publishers.len() - i,
        {
            publishers.push(
                PublisherPortData {
                    process_name: rt.name(),
                    service: rt.publisher_service(i).duplicate(),
                    node_name: rt.publisher_options(i).node_name.clone(),
                },
            );
            i = i + 1;
        }
        let mut subscribers: Vec<SubscriberPortData> = Vec::new();
        let mut j: usize = 0;
        while j < rt.subscriber_count()
            invariant
                j <= rt@.subscribers.len(),
                subscribers@.len() == j,
                forall|k: int| 0 <= k < j ==> {
                    let d = #[trigger] subscribers@[k];
                    &&& d.process_name@ == rt@.name
                    &&& d.service.same(&rt@.subscribers[k].service)
                    &&& d.node_name@ == rt@.subscribers[k].options.node_name@
                },
            decreases rt@.subscribers.len() - j,
        {
            subscribers.push(
                SubscriberPortData {
                    process_name: rt.name(),
                    service: rt.subscriber_service(j).duplicate(),
                    node_name: rt.subscriber_options(j).node_name.clone(),
                },
            );
            j = j + 1;
        }
        PortIntrospectionTopic { publishers, subscribers }
    }

    pub fn publisher_ports(&self) -> (r: &[PublisherPortData])
        ensures
            r@ == self.spec_publishers(),
    {
        self.publishers.as_slice()
    }

    pub fn subscriber_ports(&self) -> (r: &[SubscriberPortData])
        ensures
            r@ == self.spec_subscribers(),
    {
        self.subscribers.as_slice()
    }
}

} // verus!
