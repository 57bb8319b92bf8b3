//! The in-process shared-memory transport: a pool of chunks with headers and reference counts,
//! publisher ports and subscriber ports with their receive queues.
//!
//! All port and sample handles of this library refer into one `Runtime`, the explicit
//! process-wide state that every port-construction call takes. A sample is released by handing
//! it back (`Publisher::release`, `Sample::release`) or by publishing it; each of these consumes
//! the sample, so its chunk is given back at most once.

use vstd::prelude::*;
use crate::options::{PublisherOptions, ServiceDescription, SubscribeState, SubscriberOptions};

verus! {

/// Number of chunks in the pool of `Runtime::init`.
pub const DEFAULT_CHUNK_COUNT: usize = 64;

/// Largest payload of a chunk in the pool of `Runtime::init`.
pub const DEFAULT_CHUNK_PAYLOAD_SIZE: usize = 4096;

/// Number of publisher ports and of subscriber ports that a `Runtime` hands out.
pub const MAX_PORTS: usize = 128;

/// The header that the transport keeps for each chunk.
#[derive(Debug, Clone, Copy, PartialEq, Eq, Structural)]
pub struct ChunkHeader {
    pub payload_size: usize,
    pub payload_alignment: usize,
}

impl ChunkHeader {
    pub fn get_user_payload_size(&self) -> (r: usize)
        ensures
            r == self.payload_size,
    {
        self.payload_size
    }

    pub fn get_user_payload_alignment(&self) -> (r: usize)
        ensures
            r == self.payload_alignment,
    {
        self.payload_alignment
    }
}

/// A chunk as the transport sees it: how many owners it has, its header and its payload bytes.
pub struct ChunkModel {
    pub refs: nat,
    pub header: ChunkHeader,
    pub payload: Seq<u8>,
}

impl ChunkModel {
    pub open spec fn is_free(self) -> bool {
        self.refs == 0
    }

    /// The chunk after one owner gave it back.
    pub open spec fn released(self) -> ChunkModel {
        ChunkModel { refs: if self.refs > 0 { (self.refs - 1) as nat } else { 0 }, ..self }
    }
}

struct Chunk {
    refs: usize,
    header: ChunkHeader,
    payload: Vec<u8>,
}

impl View for Chunk {
    type V = ChunkModel;

    closed spec fn view(&self) -> ChunkModel {
        ChunkModel { refs: self.refs as nat, header: self.header, payload: self.payload@ }
    }
}

/// The number of free chunks among `chunks`.
pub open spec fn free_count(chunks: Seq<ChunkModel>) -> nat
    decreases chunks.len(),
{
    if chunks.len() == 0 {
        0
    } else {
        free_count(chunks.drop_last()) + if chunks.last().is_free() {
            1nat
        } else {
            0nat
        }
    }
}

/// At most every chunk is free.
pub proof fn lemma_free_count_bound(chunks: Seq<ChunkModel>)
    ensures
        free_count(chunks) <= chunks.len(),
    decreases chunks.len(),
{
    if chunks.len() > 0 {
        lemma_free_count_bound(chunks.drop_last());
    }
}

/// `n` zero bytes: the content of a freshly loaned chunk.
pub open spec fn zeros(n: nat) -> Seq<u8> {
    Seq::new(n, |i: int| 0u8)
}

/// A publisher port: the service it publishes, its options and whether it offers.
pub struct PublisherPort {
    pub service: ServiceDescription,
    pub options: PublisherOptions,
    pub offered: bool,
}

/// A subscriber port as the transport sees it.
pub struct SubscriberPortModel {
    pub service: ServiceDescription,
    pub options: SubscriberOptions,
    pub subscribe_requested: bool,
    /// Chunk handles waiting to be taken, oldest first.
    pub queue: Seq<usize>,
    /// The notification index under which a condition variable is attached, if one is.
    pub condition: Option<u64>,
}

struct SubscriberPort {
    service: ServiceDescription,
    options: SubscriberOptions,
    subscribe_requested: bool,
    queue: Vec<usize>,
    condition: Option<u64>,
}

impl View for SubscriberPort {
    type V = SubscriberPortModel;

    closed spec fn view(&self) -> SubscriberPortModel {
        SubscriberPortModel {
            service: self.service,
            options: self.options,
            subscribe_requested: self.subscribe_requested,
            queue: self.queue@,
            condition: self.condition,
        }
    }
}

/// The state of the whole transport.
pub struct RuntimeModel {
    pub name: Seq<char>,
    pub chunk_payload_size: usize,
    pub chunks: Seq<ChunkModel>,
    pub publishers: Seq<PublisherPort>,
    pub subscribers: Seq<SubscriberPortModel>,
}

impl RuntimeModel {
    /// The first free chunk, if any can hold `size` bytes.
    pub open spec fn allocation(self, size: usize) -> Option<usize> {
        if size <= self.chunk_payload_size && exists|i: int|
            0 <= i < self.chunks.len() && #[trigger] self.chunks[i].is_free() {
            Some(choose|i: usize|
                i < self.chunks.len() && self.chunks[i as int].is_free() && forall|k: int|
                    0 <= k < i ==> !#[trigger] self.chunks[k].is_free())
        } else {
            None
        }
    }

    /// The transport after chunk `h` was loaned for a payload of `size` bytes aligned to `align`.
    pub open spec fn loaned(self, h: int, size: usize, align: usize) -> RuntimeModel {
        RuntimeModel {
            chunks: self.chunks.update(
                h,
                ChunkModel {
                    refs: 1,
                    header: ChunkHeader { payload_size: size, payload_alignment: align },
                    payload: zeros(size as nat),
                },
            ),
            ..self
        }
    }

    /// The transport after one owner of chunk `h` gave it back.
    pub open spec fn released(self, h: int) -> RuntimeModel {
        RuntimeModel { chunks: self.chunks.update(h, self.chunks[h].released()), ..self }
    }

    /// The transport after `bytes` were written into chunk `h` from `offset` on.
    pub open spec fn written(self, h: int, offset: int, bytes: Seq<u8>) -> RuntimeModel {
        let p = self.chunks[h].payload;
        RuntimeModel {
            chunks: self.chunks.update(
                h,
                ChunkModel {
                    payload: p.subrange(0, offset) + bytes + p.subrange(
                        offset + bytes.len(),
                        p.len() as int,
                    ),
                    ..self.chunks[h]
                },
            ),
            ..self
        }
    }
}

/// The chunks after one owner of each chunk of `queue` gave it back, front to back.
pub open spec fn released_all(chunks: Seq<ChunkModel>, queue: Seq<usize>) -> Seq<ChunkModel>
    decreases queue.len(),
{
    if queue.len() == 0 {
        chunks
    } else {
        released_all(chunks.update(queue[0] as int, chunks[queue[0] as int].released()), queue.drop_first())
    }
}

impl RuntimeModel {
    /// Publisher `p` offers the service that subscriber `s` asked for.
    pub open spec fn offers_to(self, p: int, s: int) -> bool {
        self.publishers[p].offered && self.publishers[p].service.same(&self.subscribers[s].service)
    }

    /// Publisher `p` delivers to subscriber `s`.
    pub open spec fn connected(self, p: int, s: int) -> bool {
        self.offers_to(p, s) && self.subscribers[s].subscribe_requested
    }

    pub open spec fn subscription_state(self, s: int) -> SubscribeState {
        if !self.subscribers[s].subscribe_requested {
            SubscribeState::NotSubscribed
        } else if exists|p: int| 0 <= p < self.publishers.len() && #[trigger] self.offers_to(p, s) {
            SubscribeState::Subscribed
        } else {
            SubscribeState::WaitForOffer
        }
    }

    pub open spec fn has_subscribers(self, p: int) -> bool {
        exists|s: int| 0 <= s < self.subscribers.len() && #[trigger] self.connected(p, s)
    }

    /// Chunk `h` put into the queue of subscriber `s` by publisher `p`; a full queue loses its
    /// oldest chunk.
    pub open spec fn delivered_to(self, p: int, h: int, s: int) -> RuntimeModel {
        let sub = self.subscribers[s];
        let c = self.chunks[h];
        if self.connected(p, s) && sub.options.queue_capacity > 0 && c.refs < usize::MAX {
            let with_ref = self.chunks.update(h, ChunkModel { refs: c.refs + 1, ..c });
            if sub.queue.len() >= sub.options.queue_capacity {
                let oldest = sub.queue[0] as int;
                RuntimeModel {
                    chunks: with_ref.update(oldest, with_ref[oldest].released()),
                    subscribers: self.subscribers.update(
                        s,
                        SubscriberPortModel { queue: sub.queue.drop_first().push(h as usize), ..sub },
                    ),
                    ..self
                }
            } else {
                RuntimeModel {
                    chunks: with_ref,
                    subscribers: self.subscribers.update(
                        s,
                        SubscriberPortModel { queue: sub.queue.push(h as usize), ..sub },
                    ),
                    ..self
                }
            }
        } else {
            self
        }
    }

    /// Chunk `h` delivered by publisher `p` to the first `n` subscribers, in port order.
    pub open spec fn delivered_upto(self, p: int, h: int, n: nat) -> RuntimeModel
        decreases n,
    {
        if n == 0 {
            self
        } else {
            self.delivered_upto(p, h, (n - 1) as nat).delivered_to(p, h, n - 1)
        }
    }

    /// The transport after publisher `p` sent chunk `h`: every connected subscriber holds it and
    /// the publisher no longer does.
    pub open spec fn sent(self, p: int, h: int) -> RuntimeModel {
        self.delivered_upto(p, h, self.subscribers.len()).released(h)
    }

    /// The transport after the oldest chunk of subscriber `s` was taken out of its queue.
    pub open spec fn taken(self, s: int) -> RuntimeModel {
        RuntimeModel {
            subscribers: self.subscribers.update(
                s,
                SubscriberPortModel { queue: self.subscribers[s].queue.drop_first(), ..self.subscribers[s] },
            ),
            ..self
        }
    }

    /// The transport after every chunk queued for subscriber `s` was given back.
    pub open spec fn cleared(self, s: int) -> RuntimeModel {
        RuntimeModel {
            chunks: released_all(self.chunks, self.subscribers[s].queue),
            subscribers: self.subscribers.update(
                s,
                SubscriberPortModel { queue: Seq::empty(), ..self.subscribers[s] },
            ),
            ..self
        }
    }

    /// The transport with subscriber `s` changed to `sub`.
    pub open spec fn with_subscriber(self, s: int, sub: SubscriberPortModel) -> RuntimeModel {
        RuntimeModel { subscribers: self.subscribers.update(s, sub), ..self }
    }

    /// The transport with publisher `p` offering or not.
    pub open spec fn with_offer(self, p: int, offered: bool) -> RuntimeModel {
        RuntimeModel {
            publishers: self.publishers.update(p, PublisherPort { offered, ..self.publishers[p] }),
            ..self
        }
    }
}

/// A pool with a free chunk has a first free chunk.
proof fn lemma_first_free(chunks: Seq<ChunkModel>, w: int)
    requires
        0 <= w < chunks.len(),
        chunks.len() <= usize::MAX,
        chunks[w].is_free(),
    ensures
        exists|i: usize|
            i < chunks.len() && chunks[i as int].is_free() && forall|k: int|
                0 <= k < i ==> !#[trigger] chunks[k].is_free(),
    decreases w,
{
    if exists|k: int| 0 <= k < w && #[trigger] chunks[k].is_free() {
        let k = choose|k: int| 0 <= k < w && #[trigger] chunks[k].is_free();
        lemma_first_free(chunks, k);
    } else {
        let wi = w as usize;
        assert(wi < chunks.len() && chunks[wi as int].is_free() && forall|k: int|
            0 <= k < wi ==> !#[trigger] chunks[k].is_free());
    }
}

/// The chunk an allocation picks is in the pool, free, and the first free one.
pub proof fn lemma_allocation(m: RuntimeModel, size: usize)
    requires
        m.chunks.len() <= usize::MAX,
    ensures
        m.allocation(size) matches Some(h) ==> h < m.chunks.len() && m.chunks[h as int].is_free()
            && forall|k: int| 0 <= k < h ==> !#[trigger] m.chunks[k].is_free(),
{
    if m.allocation(size) is Some {
        let w = choose|i: int| 0 <= i < m.chunks.len() && #[trigger] m.chunks[i].is_free();
        lemma_first_free(m.chunks, w);
    }
}

/// The in-process transport: the chunk pool and the ports.
pub struct Runtime {
    name: String,
    chunk_payload_size: usize,
    chunks: Vec<Chunk>,
    publishers: Vec<PublisherPort>,
    subscribers: Vec<SubscriberPort>,
}

impl View for Runtime {
    type V = RuntimeModel;

    closed spec fn view(&self) -> RuntimeModel {
        RuntimeModel {
            name: self.name@,
            chunk_payload_size: self.chunk_payload_size,
            chunks: self.chunks@.map_values(|c: Chunk| c@),
            publishers: self.publishers@,
            subscribers: self.subscribers@.map_values(|p: SubscriberPort| p@),
        }
    }
}

impl Runtime {
    /// The transport's invariant: each chunk's payload has the size its header records.
    pub open spec fn wf(&self) -> bool {
        &&& forall|i: int|
            0 <= i < self@.chunks.len() ==> (#[trigger] self@.chunks[i]).payload.len()
                == self@.chunks[i].header.payload_size
        &&& forall|s: int, k: int|
            0 <= s < self@.subscribers.len() && 0 <= k < self@.subscribers[s].queue.len()
                ==> #[trigger] self@.subscribers[s].queue[k] < self@.chunks.len()
        &&& self@.publishers.len() <= MAX_PORTS
        &&& self@.subscribers.len() <= MAX_PORTS
    }

    /// Starts the transport of process `app_name` with the default memory pool.
    pub fn init(app_name: &str) -> (r: Runtime)
        ensures
            r.wf(),
            r@.name == app_name@,
            r@.chunk_payload_size == DEFAULT_CHUNK_PAYLOAD_SIZE,
            r@.chunks.len() == DEFAULT_CHUNK_COUNT,
            forall|i: int| 0 <= i < r@.chunks.len() ==> #[trigger] r@.chunks[i].is_free(),
            r@.publishers.len() == 0,
            r@.subscribers.len() == 0,
    {
        Self::with_memory_pool(app_name, DEFAULT_CHUNK_COUNT, DEFAULT_CHUNK_PAYLOAD_SIZE)
    }

    /// Starts the transport of process `app_name` with `chunk_count` chunks, each holding up to
    /// `chunk_payload_size` bytes.
    pub fn with_memory_pool(app_name: &str, chunk_count: usize, chunk_payload_size: usize) -> (r:
        Runtime)
        ensures
            r.wf(),
            r@.name == app_name@,
            r@.chunk_payload_size == chunk_payload_size,
            r@.chunks.len() == chunk_count,
            forall|i: int| 0 <= i < r@.chunks.len() ==> #[trigger] r@.chunks[i].is_free(),
            r@.publishers.len() == 0,
            r@.subscribers.len() == 0,
    {
        let mut chunks: Vec<Chunk> = Vec::new();
        let mut i: usize = 0;
        while i < chunk_count
            invariant
                i <= chunk_count,
                chunks@.len() == i,
                forall|k: int|
                    0 <= k < i ==> (#[trigger] chunks@[k]).refs == 0 && chunks@[k].payload@.len()
                        == chunks@[k].header.payload_size,
            decreases chunk_count - i,
        {
            chunks.push(
                Chunk {
                    refs: 0,
                    header: ChunkHeader { payload_size: 0, payload_alignment: 1 },
                    payload: Vec::new(),
                },
            );
            i = i + 1;
        }
        Runtime {
            name: app_name.to_owned(),
            chunk_payload_size,
            chunks,
            publishers: Vec::new(),
            subscribers: Vec::new(),
        }
    }

    /// The name the process registered with.
    pub fn name(&self) -> (r: String)
        ensures
            r@ == self@.name,
    {
        self.name.clone()
    }

    /// The largest payload a chunk holds.
    pub fn chunk_payload_size(&self) -> (r: usize)
        ensures
            r == self@.chunk_payload_size,
    {
        self.chunk_payload_size
    }

    /// The number of chunks in the pool.
    pub fn chunk_count(&self) -> (r: usize)
        ensures
            r == self@.chunks.len(),
    {
        self.chunks.len()
    }

    /// The number of chunks that nobody owns.
    pub fn free_chunk_count(&self) -> (r: usize)
        ensures
            r == free_count(self@.chunks),
    {
        let mut n: usize = 0;
        let mut i: usize = 0;
        while i < self.chunks.len()
            invariant
                i <= self.chunks@.len(),
                n == free_count(self@.chunks.subrange(0, i as int)),
                n <= i,
            decreases self.chunks@.len() - i,
        {
            proof {
                let s = self@.chunks.subrange(0, i + 1);
                assert(s.drop_last() =~= self@.chunks.subrange(0, i as int));
            }
            if self.chunks[i].refs == 0 {
                n = n + 1;
            }
            i = i + 1;
        }
        proof {
            assert(self@.chunks.subrange(0, i as int) =~= self@.chunks);
        }
        n
    }

    /// Loans the first free chunk for a payload of `size` bytes aligned to `align`; `None` when
    /// the pool is exhausted or `size` exceeds what a chunk holds.
    pub fn allocate_chunk(&mut self, size: usize, align: usize) -> (r: Option<usize>)
        requires
            old(self).wf(),
        ensures
            final(self).wf(),
            r == old(self)@.allocation(size),
            r matches Some(h) ==> h < old(self)@.chunks.len() && old(self)@.chunks[h as int].is_free()
                && final(self)@ == old(self)@.loaned(h as int, size, align),
            r is None ==> final(self)@ == old(self)@,
    {
        if size > self.chunk_payload_size {
            return None;
        }
        let mut i: usize = 0;
        while i < self.chunks.len()
            invariant
                i <= self.chunks@.len(),
                *self == *old(self),
                self.wf(),
                size <= self@.chunk_payload_size,
                forall|k: int| 0 <= k < i ==> !(#[trigger] self@.chunks[k]).is_free(),
            decreases self.chunks@.len() - i,
        {
            assert(self@.chunks[i as int] == self.chunks@[i as int]@);
            if self.chunks[i].refs == 0 {
                let payload = zero_bytes(size);
                let ghost m = self@;
                self.chunks.set(
                    i,
                    Chunk {
                        refs: 1,
                        header: ChunkHeader { payload_size: size, payload_alignment: align },
                        payload,
                    },
                );
                proof {
                    assert(m.chunks[i as int].is_free());
                    let j = choose|j: usize|
                        j < m.chunks.len() && m.chunks[j as int].is_free() && forall|k: int|
                            0 <= k < j ==> !#[trigger] m.chunks[k].is_free();
                    if j < i {
                        assert(!m.chunks[j as int].is_free());
                    }
                    if j > i {
                        assert(!m.chunks[i as int].is_free());
                    }
                    assert(m.allocation(size) == Some(i));
                    assert(self@.chunks =~= m.loaned(i as int, size, align).chunks);
                    assert forall|k: int| 0 <= k < self@.chunks.len() implies (
                    #[trigger] self@.chunks[k]).payload.len()
                        == self@.chunks[k].header.payload_size by {
                        if k != i {
                            assert(self@.chunks[k] == m.chunks[k]);
                        } else {
                            assert(self@.chunks[k].payload =~= zeros(size as nat));
                            assert(self@.chunks[k].header.payload_size == size);
                        }
                    }
                }
                return Some(i);
            }
            i = i + 1;
        }
        None
    }
}

impl Runtime {
    /// One owner of chunk `h` gives it back; the chunk is free once nobody owns it.
    pub fn release_chunk(&mut self, h: usize)
        requires
            old(self).wf(),
            h < old(self)@.chunks.len(),
        ensures
            final(self).wf(),
            final(self)@ == old(self)@.released(h as int),
    {
        let ghost m = self@;
        assert(self@.chunks[h as int] == self.chunks@[h as int]@);
        if self.chunks[h].refs > 0 {
            self.chunks[h].refs = self.chunks[h].refs - 1;
        }
        proof {
            assert(self@.chunks =~= m.released(h as int).chunks);
            assert(self@.subscribers =~= m.subscribers);
            assert forall|i: int| 0 <= i < self@.chunks.len() implies (
            #[trigger] self@.chunks[i]).payload.len() == self@.chunks[i].header.payload_size by {
                assert(m.chunks[i].payload.len() == m.chunks[i].header.payload_size);
            }
        }
    }

    /// The header of chunk `h`.
    pub fn chunk_header(&self, h: usize) -> (r: ChunkHeader)
        requires
            h < self@.chunks.len(),
        ensures
            r == self@.chunks[h as int].header,
    {
        assert(self@.chunks[h as int] == self.chunks@[h as int]@);
        self.chunks[h].header
    }

    /// The payload bytes of chunk `h`.
    pub fn payload(&self, h: usize) -> (r: &[u8])
        requires
            h < self@.chunks.len(),
        ensures
            r@ == self@.chunks[h as int].payload,
    {
        assert(self@.chunks[h as int] == self.chunks@[h as int]@);
        self.chunks[h].payload.as_slice()
    }

    /// Writes `bytes` into the payload of chunk `h`, from `offset` on.
    pub fn write_payload(&mut self, h: usize, offset: usize, bytes: &[u8])
        requires
            old(self).wf(),
            h < old(self)@.chunks.len(),
            offset + bytes@.len() <= old(self)@.chunks[h as int].payload.len(),
        ensures
            final(self).wf(),
            final(self)@ == old(self)@.written(h as int, offset as int, bytes@),
    {
        let ghost m = self@;
        assert(self@.chunks[h as int] == self.chunks@[h as int]@);
        proof {
            let p = m.chunks[h as int].payload;
            assert(p.subrange(0, offset as int) + bytes@.subrange(0, 0) + p.subrange(
                offset as int,
                p.len() as int,
            ) =~= p);
            assert(m.written(h as int, offset as int, bytes@.subrange(0, 0)).chunks =~= m.chunks);
        }
        let mut i: usize = 0;
        while i < bytes.len()
            invariant
                self.wf(),
                i <= bytes@.len(),
                h < self@.chunks.len(),
                h < m.chunks.len(),
                offset + bytes@.len() <= m.chunks[h as int].payload.len(),
                self.chunks@[h as int].payload@.len() == m.chunks[h as int].payload.len(),
                self@ == m.written(h as int, offset as int, bytes@.subrange(0, i as int)),
            decreases bytes@.len() - i,
        {
            let ghost before = self@;
            assert(self@.chunks[h as int] == self.chunks@[h as int]@);
            assert(offset + i < self.chunks@[h as int].payload@.len());
            let ghost q = self.chunks@[h as int].payload@;
            let ghost before_chunks = self.chunks@;
            assert(q == before.chunks[h as int].payload);
            assert(bytes@.subrange(0, i as int).len() == i);
            self.chunks[h].payload.set(offset + i, bytes[i]);
            i = i + 1;
            proof {
                let p = m.chunks[h as int].payload;
                assert(self.chunks@[h as int].payload@ == q.update(offset + i - 1, bytes@[i - 1]));
                assert(self@.chunks[h as int] == self.chunks@[h as int]@);
                assert(q == p.subrange(0, offset as int) + bytes@.subrange(0, i - 1) + p.subrange(
                    offset + i - 1,
                    p.len() as int,
                ));
                assert(self@.chunks[h as int].payload =~= p.subrange(0, offset as int)
                    + bytes@.subrange(0, i as int) + p.subrange(offset + i, p.len() as int));
                let target = m.written(h as int, offset as int, bytes@.subrange(0, i as int)).chunks;
                assert forall|k: int| 0 <= k < self@.chunks.len() implies self@.chunks[k]
                    == target[k] by {
                    if k != h {
                        assert(self.chunks@[k] == before_chunks[k]);
                        assert(self@.chunks[k] == before.chunks[k]);
                    } else {
                        assert(self@.chunks[k].refs == before.chunks[k].refs);
                        assert(self@.chunks[k].header == before.chunks[k].header);
                    }
                }
                assert(self@.chunks =~= target);
                assert(self@.subscribers =~= before.subscribers);
                assert forall|k: int| 0 <= k < self@.chunks.len() implies (
                #[trigger] self@.chunks[k]).payload.len() == self@.chunks[k].header.payload_size by {
                    assert(before.chunks[k].payload.len() == before.chunks[k].header.payload_size);
                }
            }
        }
        assert(bytes@.subrange(0, i as int) =~= bytes@);
    }

    /// Whether subscriber `s` has chunks waiting.
    pub fn has_chunks(&self, s: usize) -> (r: bool)
        requires
            s < self@.subscribers.len(),
        ensures
            r == (self@.subscribers[s as int].queue.len() > 0),
    {
        assert(self@.subscribers[s as int] == self.subscribers@[s as int]@);
        self.subscribers[s].queue.len() > 0
    }

    /// Takes the oldest chunk out of the queue of subscriber `s`; its owner is now the caller.
    pub fn try_get_chunk(&mut self, s: usize) -> (r: Option<usize>)
        requires
            old(self).wf(),
            s < old(self)@.subscribers.len(),
        ensures
            final(self).wf(),
            old(self)@.subscribers[s as int].queue.len() == 0 ==> r is None && final(self)@ == old(self)@,
            old(self)@.subscribers[s as int].queue.len() > 0 ==> r == Some(old(self)@.subscribers[s as int].queue[0])
                && final(self)@ == old(self)@.taken(s as int),
            r matches Some(h) ==> h < final(self)@.chunks.len(),
    {
        let ghost m = self@;
        assert(self@.subscribers[s as int] == self.subscribers@[s as int]@);
        if self.subscribers[s].queue.len() == 0 {
            return None;
        }
        let h = self.subscribers[s].queue.remove(0);
        proof {
            assert(self@.subscribers[s as int].queue =~= m.subscribers[s as int].queue.drop_first());
            assert(self@.subscribers =~= m.taken(s as int).subscribers);
            assert(self@.chunks =~= m.chunks);
            assert(h < m.chunks.len());
            assert forall|t: int, k: int|
                0 <= t < self@.subscribers.len() && 0 <= k < self@.subscribers[t].queue.len()
                implies #[trigger] self@.subscribers[t].queue[k] < self@.chunks.len() by {
                if t == s {
                    assert(self@.subscribers[t].queue[k] == m.subscribers[t].queue[k + 1]);
                } else {
                    assert(self@.subscribers[t] == m.subscribers[t]);
                }
            }
        }
        Some(h)
    }

    /// Gives back every chunk queued for subscriber `s`, oldest first.
    pub fn clear(&mut self, s: usize)
        requires
            old(self).wf(),
            s < old(self)@.subscribers.len(),
        ensures
            final(self).wf(),
            final(self)@ == old(self)@.cleared(s as int),
    {
        let ghost m = self@;
        while self.has_chunks(s)
            invariant
                self.wf(),
                s < self@.subscribers.len(),
                self@.cleared(s as int) == m.cleared(s as int),
            decreases self@.subscribers[s as int].queue.len(),
        {
            let ghost before = self@;
            let h = self.try_get_chunk(s);
            if let Some(h) = h {
                self.release_chunk(h);
                proof {
                    let q = before.subscribers[s as int].queue;
                    assert(q.drop_first() =~= self@.subscribers[s as int].queue);
                    assert(self@.subscribers.update(s as int, SubscriberPortModel { queue: Seq::empty(), ..self@.subscribers[s as int] })
                        =~= before.subscribers.update(s as int, SubscriberPortModel { queue: Seq::empty(), ..before.subscribers[s as int] }));
                }
            }
        }
        proof {
            assert(self@.subscribers[s as int].queue =~= Seq::<usize>::empty());
            assert(self@.subscribers =~= m.cleared(s as int).subscribers);
            assert(released_all(self@.chunks, self@.subscribers[s as int].queue) == self@.chunks);
        }
    }
}

impl Runtime {
    /// Whether publisher `p` delivers to subscriber `s`.
    fn is_connected(&self, p: usize, s: usize) -> (r: bool)
        requires
            p < self@.publishers.len(),
            s < self@.subscribers.len(),
        ensures
            r == self@.connected(p as int, s as int),
    {
        assert(self@.subscribers[s as int] == self.subscribers@[s as int]@);
        self.publishers[p].offered && self.subscribers[s].subscribe_requested
            && self.publishers[p].service.matches(&self.subscribers[s].service)
    }

    /// Puts chunk `h` into the queue of subscriber `s` if publisher `p` delivers to it.
    fn deliver_to(&mut self, p: usize, h: usize, s: usize)
        requires
            old(self).wf(),
            p < old(self)@.publishers.len(),
            h < old(self)@.chunks.len(),
            s < old(self)@.subscribers.len(),
        ensures
            final(self).wf(),
            final(self)@ == old(self)@.delivered_to(p as int, h as int, s as int),
    {
        let ghost m = self@;
        let connected = self.is_connected(p, s);
        assert(self@.subscribers[s as int] == self.subscribers@[s as int]@);
        assert(self@.chunks[h as int] == self.chunks@[h as int]@);
        let cap = self.subscribers[s].options.queue_capacity;
        if !(connected && cap > 0 && self.chunks[h].refs < usize::MAX) {
            return;
        }
        self.chunks[h].refs = self.chunks[h].refs + 1;
        let ghost with_ref = self@.chunks;
        proof {
            let c = m.chunks[h as int];
            assert(with_ref =~= m.chunks.update(h as int, ChunkModel { refs: c.refs + 1, ..c }));
        }
        let len = self.subscribers[s].queue.len();
        if len as u128 >= cap as u128 {
            let oldest = self.subscribers[s].queue.remove(0);
            self.subscribers[s].queue.push(h);
            assert(m.subscribers[s as int].queue[0] == oldest);
            assert(oldest < m.chunks.len());
            assert(self@.chunks[oldest as int] == self.chunks@[oldest as int]@);
            if self.chunks[oldest].refs > 0 {
                self.chunks[oldest].refs = self.chunks[oldest].refs - 1;
            }
            proof {
                assert(self@.chunks =~= with_ref.update(oldest as int, with_ref[oldest as int].released()));
                assert(self@.subscribers[s as int].queue =~= m.subscribers[s as int].queue.drop_first().push(h));
            }
        } else {
            self.subscribers[s].queue.push(h);
            proof {
                assert(self@.chunks =~= with_ref);
                assert(self@.subscribers[s as int].queue =~= m.subscribers[s as int].queue.push(h));
            }
        }
        proof {
            let target = m.delivered_to(p as int, h as int, s as int);
            assert forall|t: int| 0 <= t < self@.subscribers.len() implies self@.subscribers[t]
                == target.subscribers[t] by {
                if t != s {
                    assert(self@.subscribers[t] == m.subscribers[t]);
                }
            }
            assert(self@.subscribers =~= target.subscribers);
            assert(self@.publishers =~= target.publishers);
            assert forall|i: int| 0 <= i < self@.chunks.len() implies (
            #[trigger] self@.chunks[i]).payload.len() == self@.chunks[i].header.payload_size by {
                assert(m.chunks[i].payload.len() == m.chunks[i].header.payload_size);
            }
            assert forall|t: int, k: int|
                0 <= t < self@.subscribers.len() && 0 <= k < self@.subscribers[t].queue.len()
                implies #[trigger] self@.subscribers[t].queue[k] < self@.chunks.len() by {
                if t == s {
                    let q = m.subscribers[t].queue;
                    if k < self@.subscribers[t].queue.len() - 1 {
                        if len as u128 >= cap as u128 {
                            assert(self@.subscribers[t].queue[k] == q[k + 1]);
                        } else {
                            assert(self@.subscribers[t].queue[k] == q[k]);
                        }
                    }
                } else {
                    assert(self@.subscribers[t] == m.subscribers[t]);
                }
            }
        }
    }

    /// Publisher `p` sends chunk `h`, which it owns: every connected subscriber gets it, in port
    /// order, and the publisher no longer owns it.
    pub fn send_chunk(&mut self, p: usize, h: usize)
        requires
            old(self).wf(),
            p < old(self)@.publishers.len(),
            h < old(self)@.chunks.len(),
        ensures
            final(self).wf(),
            final(self)@ == old(self)@.sent(p as int, h as int),
    {
        let ghost m = self@;
        let n = self.subscribers.len();
        let mut s: usize = 0;
        while s < n
            invariant
                self.wf(),
                s <= n,
                n == m.subscribers.len(),
                p < m.publishers.len(),
                h < m.chunks.len(),
                self@ == m.delivered_upto(p as int, h as int, s as nat),
                self@.subscribers.len() == n,
                self@.publishers.len() == m.publishers.len(),
                self@.chunks.len() == m.chunks.len(),
            decreases n - s,
        {
            self.deliver_to(p, h, s);
            s = s + 1;
        }
        self.release_chunk(h);
    }
}

impl Runtime {
    /// Registers a publisher port for `service`; `None` when all ports are taken.
    pub fn create_publisher(&mut self, service: ServiceDescription, options: PublisherOptions) -> (r:
        Option<usize>)
        requires
            old(self).wf(),
        ensures
            final(self).wf(),
            old(self)@.publishers.len() >= MAX_PORTS ==> r is None && final(self)@ == old(self)@,
            old(self)@.publishers.len() < MAX_PORTS ==> r == Some(old(self)@.publishers.len() as usize)
                && final(self)@ == (RuntimeModel {
                publishers: old(self)@.publishers.push(
                    PublisherPort { service, options, offered: options.offer_on_create },
                ),
                ..old(self)@
            }),
    {
        if self.publishers.len() >= MAX_PORTS {
            return None;
        }
        let ghost m = self@;
        let offered = options.offer_on_create;
        let id = self.publishers.len();
        self.publishers.push(PublisherPort { service, options, offered });
        proof {
            assert(self@.publishers =~= m.publishers.push(
                PublisherPort { service, options, offered: options.offer_on_create },
            ));
        }
        Some(id)
    }

    /// Registers a subscriber port for `service` with an empty queue; `None` when all ports are
    /// taken.
    pub fn create_subscriber(&mut self, service: ServiceDescription, options: SubscriberOptions) -> (r:
        Option<usize>)
        requires
            old(self).wf(),
        ensures
            final(self).wf(),
            old(self)@.subscribers.len() >= MAX_PORTS ==> r is None && final(self)@ == old(self)@,
            old(self)@.subscribers.len() < MAX_PORTS ==> r == Some(old(self)@.subscribers.len() as usize)
                && final(self)@ == (RuntimeModel {
                subscribers: old(self)@.subscribers.push(
                    SubscriberPortModel {
                        service,
                        options,
                        subscribe_requested: options.subscribe_on_create,
                        queue: Seq::empty(),
                        condition: None,
                    },
                ),
                ..old(self)@
            }),
    {
        if self.subscribers.len() >= MAX_PORTS {
            return None;
        }
        let ghost m = self@;
        let subscribe_requested = options.subscribe_on_create;
        let id = self.subscribers.len();
        self.subscribers.push(
            SubscriberPort { service, options, subscribe_requested, queue: Vec::new(), condition: None },
        );
        proof {
            assert(self@.subscribers =~= m.subscribers.push(
                SubscriberPortModel {
                    service,
                    options,
                    subscribe_requested: options.subscribe_on_create,
                    queue: Seq::empty(),
                    condition: None,
                },
            ));
            assert forall|t: int, k: int|
                0 <= t < self@.subscribers.len() && 0 <= k < self@.subscribers[t].queue.len()
                implies #[trigger] self@.subscribers[t].queue[k] < self@.chunks.len() by {
                assert(self@.subscribers[t] == m.subscribers[t]);
            }
        }
        Some(id)
    }

    /// The number of publisher ports.
    pub fn publisher_count(&self) -> (r: usize)
        ensures
            r == self@.publishers.len(),
    {
        self.publishers.len()
    }

    /// The number of subscriber ports.
    pub fn subscriber_count(&self) -> (r: usize)
        ensures
            r == self@.subscribers.len(),
    {
        self.subscribers.len()
    }

    /// Publisher `p` starts or stops offering its service.
    pub fn set_offer(&mut self, p: usize, offered: bool)
        requires
            old(self).wf(),
            p < old(self)@.publishers.len(),
        ensures
            final(self).wf(),
            final(self)@ == old(self)@.with_offer(p as int, offered),
    {
        let ghost m = self@;
        self.publishers[p].offered = offered;
        assert(self@.publishers =~= m.with_offer(p as int, offered).publishers);
    }

    pub fn is_offered(&self, p: usize) -> (r: bool)
        requires
            p < self@.publishers.len(),
        ensures
            r == self@.publishers[p as int].offered,
    {
        self.publishers[p].offered
    }

    /// The service of publisher `p`.
    pub fn publisher_service(&self, p: usize) -> (r: &ServiceDescription)
        requires
            p < self@.publishers.len(),
        ensures
            *r == self@.publishers[p as int].service,
    {
        &self.publishers[p].service
    }

    /// The options of publisher `p`.
    pub fn publisher_options(&self, p: usize) -> (r: &PublisherOptions)
        requires
            p < self@.publishers.len(),
        ensures
            *r == self@.publishers[p as int].options,
    {
        &self.publishers[p].options
    }

    /// The service of subscriber `s`.
    pub fn subscriber_service(&self, s: usize) -> (r: &ServiceDescription)
        requires
            s < self@.subscribers.len(),
        ensures
            *r == self@.subscribers[s as int].service,
    {
        assert(self@.subscribers[s as int] == self.subscribers@[s as int]@);
        &self.subscribers[s].service
    }

    /// The options of subscriber `s`.
    pub fn subscriber_options(&self, s: usize) -> (r: &SubscriberOptions)
        requires
            s < self@.subscribers.len(),
        ensures
            *r == self@.subscribers[s as int].options,
    {
        assert(self@.subscribers[s as int] == self.subscribers@[s as int]@);
        &self.subscribers[s].options
    }

    /// Whether some subscriber takes what publisher `p` sends.
    pub fn has_subscribers(&self, p: usize) -> (r: bool)
        requires
            p < self@.publishers.len(),
        ensures
            r == self@.has_subscribers(p as int),
    {
        let mut s: usize = 0;
        while s < self.subscribers.len()
            invariant
                p < self@.publishers.len(),
                s <= self@.subscribers.len(),
                forall|t: int| 0 <= t < s ==> !#[trigger] self@.connected(p as int, t),
            decreases self@.subscribers.len() - s,
        {
            if self.is_connected(p, s) {
                return true;
            }
            s = s + 1;
        }
        false
    }

    /// Subscriber `s` asks to be subscribed or not.
    pub fn set_subscribe_requested(&mut self, s: usize, requested: bool)
        requires
            old(self).wf(),
            s < old(self)@.subscribers.len(),
        ensures
            final(self).wf(),
            final(self)@ == old(self)@.with_subscriber(
                s as int,
                SubscriberPortModel { subscribe_requested: requested, ..old(self)@.subscribers[s as int] },
            ),
    {
        let ghost m = self@;
        self.subscribers[s].subscribe_requested = requested;
        proof {
            let target = m.with_subscriber(
                s as int,
                SubscriberPortModel { subscribe_requested: requested, ..m.subscribers[s as int] },
            );
            assert forall|t: int| 0 <= t < self@.subscribers.len() implies self@.subscribers[t]
                == target.subscribers[t] by {
                if t != s {
                    assert(self@.subscribers[t] == m.subscribers[t]);
                }
            }
            assert(self@.subscribers =~= target.subscribers);
        }
    }

    /// The subscription state of subscriber `s`.
    pub fn subscription_state(&self, s: usize) -> (r: SubscribeState)
        requires
            s < self@.subscribers.len(),
        ensures
            r == self@.subscription_state(s as int),
    {
        assert(self@.subscribers[s as int] == self.subscribers@[s as int]@);
        if !self.subscribers[s].subscribe_requested {
            return SubscribeState::NotSubscribed;
        }
        let mut p: usize = 0;
        while p < self.publishers.len()
            invariant
                s < self@.subscribers.len(),
                p <= self@.publishers.len(),
                self@.subscribers[s as int].subscribe_requested,
                forall|q: int| 0 <= q < p ==> !#[trigger] self@.offers_to(q, s as int),
            decreases self@.publishers.len() - p,
        {
            assert(self@.subscribers[s as int] == self.subscribers@[s as int]@);
            if self.publishers[p].offered && self.publishers[p].service.matches(
                &self.subscribers[s].service,
            ) {
                assert(self@.offers_to(p as int, s as int));
                return SubscribeState::Subscribed;
            }
            p = p + 1;
        }
        SubscribeState::WaitForOffer
    }

    /// Attaches a condition variable to subscriber `s` under `notification_index`, or detaches
    /// the one it has (`None`).
    pub fn set_condition(&mut self, s: usize, condition: Option<u64>)
        requires
            old(self).wf(),
            s < old(self)@.subscribers.len(),
        ensures
            final(self).wf(),
            final(self)@ == old(self)@.with_subscriber(
                s as int,
                SubscriberPortModel { condition, ..old(self)@.subscribers[s as int] },
            ),
    {
        let ghost m = self@;
        self.subscribers[s].condition = condition;
        proof {
            let target = m.with_subscriber(
                s as int,
                SubscriberPortModel { condition, ..m.subscribers[s as int] },
            );
            assert forall|t: int| 0 <= t < self@.subscribers.len() implies self@.subscribers[t]
                == target.subscribers[t] by {
                if t != s {
                    assert(self@.subscribers[t] == m.subscribers[t]);
                }
            }
            assert(self@.subscribers =~= target.subscribers);
        }
    }

    /// The notification index of the condition variable attached to subscriber `s`, if any.
    pub fn condition(&self, s: usize) -> (r: Option<u64>)
        requires
            s < self@.subscribers.len(),
        ensures
            r == self@.subscribers[s as int].condition,
    {
        assert(self@.subscribers[s as int] == self.subscribers@[s as int]@);
        self.subscribers[s].condition
    }
}

/// `n` zero bytes.
fn zero_bytes(n: usize) -> (r: Vec<u8>)
    ensures
        r@ == zeros(n as nat),
{
    let mut v: Vec<u8> = Vec::new();
    let mut i: usize = 0;
    while i < n
        invariant
            i <= n,
            v@ == zeros(i as nat),
        decreases n - i,
    {
        v.push(0u8);
        i = i + 1;
        assert(v@ =~= zeros(i as nat));
    }
    v
}

} // verus!
