//! Properties that relate several operations, stated over the transport model.

use vstd::prelude::*;
use vstd::layout::{align_of, size_of};
use crate::layout::fits_taken;
use crate::marker::ShmSend;
use crate::runtime::{free_count, lemma_allocation, ChunkModel, RuntimeModel, MAX_PORTS};

verus! {

/// Two chunk sequences with the same free chunks have the same free count.
proof fn lemma_free_count_same(a: Seq<ChunkModel>, b: Seq<ChunkModel>)
    requires
        a.len() == b.len(),
        forall|i: int| 0 <= i < a.len() ==> (#[trigger] a[i]).is_free() == b[i].is_free(),
    ensures
        free_count(a) == free_count(b),
    decreases a.len(),
{
    if a.len() > 0 {
        lemma_free_count_same(a.drop_last(), b.drop_last());
    }
}

/// A sample that is loaned and then released without being published gives its chunk back
/// exactly once: the number of free chunks is what it was before the loan.
pub proof fn law_release_restores_free_count(m: RuntimeModel, size: usize, align: usize)
    requires
        m.chunks.len() <= usize::MAX,
        m.allocation(size) is Some,
    ensures
        ({
            let h = m.allocation(size).unwrap() as int;
            free_count(m.loaned(h, size, align).released(h).chunks) == free_count(m.chunks)
        }),
{
    lemma_allocation(m, size);
    let h = m.allocation(size).unwrap() as int;
    let after = m.loaned(h, size, align).released(h).chunks;
    assert forall|i: int| 0 <= i < m.chunks.len() implies (#[trigger] m.chunks[i]).is_free()
        == after[i].is_free() by {
        if i == h {
            assert(m.chunks[h].is_free());
        }
    }
    lemma_free_count_same(m.chunks, after);
}

/// Delivering to subscribers none of which is connected changes nothing.
proof fn lemma_no_delivery(m: RuntimeModel, p: int, h: int, n: nat)
    requires
        n <= m.subscribers.len(),
        forall|t: int| 0 <= t < m.subscribers.len() ==> !#[trigger] m.connected(p, t),
    ensures
        m.delivered_upto(p, h, n) == m,
    decreases n,
{
    if n > 0 {
        lemma_no_delivery(m, p, h, (n - 1) as nat);
        assert(!m.connected(p, n - 1));
    }
}

/// Publishing a loaned sample when no subscriber is connected hands its chunk back once, through
/// the publish itself: the number of free chunks is what it was before the loan.
pub proof fn law_publish_without_subscribers_restores_free_count(m: RuntimeModel, p: int, size: usize, align: usize)
    requires
        m.chunks.len() <= usize::MAX,
        m.allocation(size) is Some,
        forall|t: int| 0 <= t < m.subscribers.len() ==> !#[trigger] m.connected(p, t),
    ensures
        ({
            let h = m.allocation(size).unwrap() as int;
            free_count(m.loaned(h, size, align).sent(p, h).chunks) == free_count(m.chunks)
        }),
{
    lemma_allocation(m, size);
    let h = m.allocation(size).unwrap() as int;
    let m1 = m.loaned(h, size, align);
    assert forall|t: int| 0 <= t < m1.subscribers.len() implies !#[trigger] m1.connected(p, t) by {
        assert(!m.connected(p, t));
    }
    lemma_no_delivery(m1, p, h, m1.subscribers.len());
    law_release_restores_free_count(m, size, align);
}

/// Releasing one sample leaves every other chunk, its payload included, as it was.
pub proof fn law_release_is_independent(m: RuntimeModel, h1: int, h2: int)
    requires
        0 <= h1 < m.chunks.len(),
        0 <= h2 < m.chunks.len(),
        h1 != h2,
    ensures
        m.released(h1).chunks[h2] == m.chunks[h2],
        m.released(h1).chunks.len() == m.chunks.len(),
{
}

/// What delivering chunk `h` to the first `n` subscribers keeps: every chunk's header and payload,
/// the ports, and the subscribers not reached yet; and what it gives a subscriber that was
/// connected with room in its queue.
proof fn lemma_delivered_upto(m: RuntimeModel, p: int, h: int, n: nat)
    requires
        0 <= p < m.publishers.len(),
        0 <= h < m.chunks.len(),
        n <= m.subscribers.len(),
        m.subscribers.len() <= MAX_PORTS,
        m.chunks[h].refs == 1,
        forall|t: int, k: int|
            0 <= t < m.subscribers.len() && 0 <= k < m.subscribers[t].queue.len()
                ==> #[trigger] m.subscribers[t].queue[k] < m.chunks.len(),
    ensures
        ({
            let d = m.delivered_upto(p, h, n);
            &&& d.chunks.len() == m.chunks.len()
            &&& d.subscribers.len() == m.subscribers.len()
            &&& d.publishers == m.publishers
            &&& d.chunks[h].refs <= 1 + n
            &&& forall|c: int| 0 <= c < m.chunks.len() ==> (#[trigger] d.chunks[c]).payload == m.chunks[c].payload
                && d.chunks[c].header == m.chunks[c].header
            &&& forall|t: int| n <= t < m.subscribers.len() ==> #[trigger] d.subscribers[t] == m.subscribers[t]
            &&& forall|t: int, k: int|
                0 <= t < d.subscribers.len() && 0 <= k < d.subscribers[t].queue.len()
                    ==> #[trigger] d.subscribers[t].queue[k] < d.chunks.len()
            &&& forall|t: int|
                0 <= t < n && m.connected(p, t) && m.subscribers[t].options.queue_capacity > 0
                    && m.subscribers[t].queue.len() < m.subscribers[t].options.queue_capacity
                    ==> #[trigger] d.subscribers[t].queue == m.subscribers[t].queue.push(h as usize)
        }),
    decreases n,
{
    if n > 0 {
        let n1 = (n - 1) as nat;
        lemma_delivered_upto(m, p, h, n1);
        let d1 = m.delivered_upto(p, h, n1);
        let d = m.delivered_upto(p, h, n);
        let t0 = n1 as int;
        assert(d == d1.delivered_to(p, h, t0));
        assert(d1.subscribers[t0] == m.subscribers[t0]);
        assert(d1.chunks[h].refs <= 1 + n1);
        assert(1 + n1 < usize::MAX) by {
            assert(n1 < MAX_PORTS);
        }
        assert forall|t: int, k: int|
            0 <= t < d.subscribers.len() && 0 <= k < d.subscribers[t].queue.len()
                implies #[trigger] d.subscribers[t].queue[k] < d.chunks.len() by {
            if t == t0 {
                let q = d1.subscribers[t].queue;
                if k < d.subscribers[t].queue.len() - 1 && q.len() > 0 {
                    if d.subscribers[t].queue =~= q.drop_first().push(h as usize) {
                        assert(d.subscribers[t].queue[k] == q[k + 1]);
                    } else if d.subscribers[t].queue =~= q.push(h as usize) {
                        assert(d.subscribers[t].queue[k] == q[k]);
                    } else {
                        assert(d.subscribers[t] == d1.subscribers[t]);
                    }
                }
            } else {
                assert(d.subscribers[t] == d1.subscribers[t]);
            }
        }
        assert forall|t: int|
            0 <= t < n && m.connected(p, t) && m.subscribers[t].options.queue_capacity > 0
                && m.subscribers[t].queue.len() < m.subscribers[t].options.queue_capacity
                implies #[trigger] d.subscribers[t].queue == m.subscribers[t].queue.push(h as usize) by {
            if t < t0 {
                assert(d.subscribers[t] == d1.subscribers[t]);
            } else {
                assert(d1.connected(p, t));
            }
        }
        assert forall|c: int| 0 <= c < m.chunks.len() implies (#[trigger] d.chunks[c]).payload
            == m.chunks[c].payload && d.chunks[c].header == m.chunks[c].header by {
            assert(d1.chunks[c].payload == m.chunks[c].payload);
        }
    }
}

/// A value written into a freshly loaned sample of its type and published reaches a connected
/// subscriber whose queue was empty: the subscriber's oldest chunk is the published one, it
/// passes the alignment-checked view for the type, and its payload holds the value's bytes,
/// which read back as the value.
pub proof fn law_round_trip<T: ShmSend>(m: RuntimeModel, p: int, s: int, v: T)
    requires
        0 <= p < m.publishers.len(),
        0 <= s < m.subscribers.len(),
        m.subscribers.len() <= MAX_PORTS,
        m.chunks.len() <= usize::MAX,
        forall|t: int, k: int|
            0 <= t < m.subscribers.len() && 0 <= k < m.subscribers[t].queue.len()
                ==> #[trigger] m.subscribers[t].queue[k] < m.chunks.len(),
        m.connected(p, s),
        m.subscribers[s].options.queue_capacity > 0,
        m.subscribers[s].queue.len() == 0,
        m.allocation(size_of::<T>() as usize) is Some,
        size_of::<T>() as usize as nat == size_of::<T>(),
        align_of::<T>() as usize as nat == align_of::<T>(),
    ensures
        ({
            let h = m.allocation(size_of::<T>() as usize).unwrap() as int;
            let after = m.loaned(h, size_of::<T>() as usize, align_of::<T>() as usize).written(
                h,
                0,
                T::spec_to_bytes(v),
            ).sent(p, h);
            let header = after.chunks[h].header;
            &&& after.subscribers[s].queue.len() > 0
            &&& after.subscribers[s].queue[0] == h
            &&& fits_taken::<T>(header.payload_size as nat, header.payload_alignment as nat)
            &&& after.chunks[h].payload == T::spec_to_bytes(v)
            &&& T::spec_from_bytes(after.chunks[h].payload.subrange(0, size_of::<T>() as int)) == v
        }),
{
    lemma_allocation(m, size_of::<T>() as usize);
    let h = m.allocation(size_of::<T>() as usize).unwrap() as int;
    T::lemma_bytes(v);
    let m1 = m.loaned(h, size_of::<T>() as usize, align_of::<T>() as usize);
    let bytes = T::spec_to_bytes(v);
    let m2 = m1.written(h, 0, bytes);
    let fresh = m1.chunks[h].payload;
    assert(fresh.len() == size_of::<T>());
    assert(bytes.len() == size_of::<T>());
    assert(fresh.subrange(0, 0) + bytes + fresh.subrange(bytes.len() as int, fresh.len() as int) =~= bytes);
    assert(m2.chunks[h].payload == bytes);
    assert(m2.subscribers == m.subscribers);
    assert(m2.publishers == m.publishers);
    assert(m2.connected(p, s));
    lemma_delivered_upto(m2, p, h, m2.subscribers.len());
    let d = m2.delivered_upto(p, h, m2.subscribers.len());
    assert(d.subscribers[s].queue == Seq::<usize>::empty().push(h as usize));
    assert(bytes.subrange(0, size_of::<T>() as int) =~= bytes);
}

} // verus!
