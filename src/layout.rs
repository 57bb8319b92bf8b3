//! Decides whether a chunk's recorded payload size and alignment permit viewing it as a
//! concrete type or as a slice of a concrete type.

use vstd::prelude::*;
use vstd::layout::{align_of, size_of};
use crate::error::IceoryxError;
use crate::marker::ShmSend;

verus! {

/// A payload of `payload_size` bytes aligned to `payload_alignment` can hold one `T`.
pub open spec fn fits_type<T>(payload_size: nat, payload_alignment: nat) -> bool {
    payload_size >= size_of::<T>() && payload_alignment >= align_of::<T>()
}

/// A received payload may be taken as a `T`: it was loaned for a `T`, or it can hold one.
pub open spec fn fits_taken<T>(payload_size: nat, payload_alignment: nat) -> bool {
    payload_size == size_of::<T>() || fits_type::<T>(payload_size, payload_alignment)
}

/// A payload of `payload_size` bytes aligned to `payload_alignment` is exactly a slice of `T`.
/// A zero-sized element type never fits.
pub open spec fn fits_slice<T>(payload_size: nat, payload_alignment: nat) -> bool {
    size_of::<T>() > 0 && payload_size % size_of::<T>() == 0 && payload_alignment >= align_of::<T>()
}

/// Whether an untyped payload may be viewed as one `T`.
pub fn can_view_as<T>(payload_size: usize, payload_alignment: usize) -> (r: bool)
    ensures
        r == fits_type::<T>(payload_size as nat, payload_alignment as nat),
{
    payload_size >= core::mem::size_of::<T>() && payload_alignment >= core::mem::align_of::<T>()
}

/// Whether a received payload may be taken as a `T`.
pub fn can_take_as<T>(payload_size: usize, payload_alignment: usize) -> (r: bool)
    ensures
        r == fits_taken::<T>(payload_size as nat, payload_alignment as nat),
{
    payload_size == core::mem::size_of::<T>() || can_view_as::<T>(payload_size, payload_alignment)
}

/// The number of `T` elements of a payload that is exactly a slice of `T`, or `None`.
pub fn slice_len<T>(payload_size: usize, payload_alignment: usize) -> (r: Option<usize>)
    ensures
        r is Some <==> fits_slice::<T>(payload_size as nat, payload_alignment as nat),
        r matches Some(n) ==> n as nat == payload_size as nat / size_of::<T>(),
{
    let elem = core::mem::size_of::<T>();
    if elem > 0 && payload_size % elem == 0 && payload_alignment >= core::mem::align_of::<T>() {
        Some(payload_size / elem)
    } else {
        None
    }
}

/// Rejects an alignment below the natural alignment of `T`.
pub fn check_alignment<T>(align: usize) -> (r: Result<(), IceoryxError>)
    ensures
        align >= align_of::<T>() <==> r is Ok,
        align < align_of::<T>() ==> r == Err::<(), IceoryxError>(
            IceoryxError::InvalidAlignment { requested: align, min_required: align_of::<T>() as usize },
        ),
{
    let min_required = core::mem::align_of::<T>();
    if align < min_required {
        Err(IceoryxError::InvalidAlignment { requested: align, min_required })
    } else {
        Ok(())
    }
}

/// `n` copies of `b`, one after the other.
pub open spec fn repeat(b: Seq<u8>, n: nat) -> Seq<u8>
    decreases n,
{
    if n == 0 {
        Seq::empty()
    } else {
        repeat(b, (n - 1) as nat) + b
    }
}

pub proof fn lemma_repeat_len(b: Seq<u8>, n: nat)
    ensures
        repeat(b, n).len() == n * b.len(),
    decreases n,
{
    if n > 0 {
        let m = (n - 1) as nat;
        lemma_repeat_len(b, m);
        assert(repeat(b, n) == repeat(b, m) + b);
        assert(m * b.len() + b.len() == n * b.len()) by (nonlinear_arith)
            requires
                m + 1 == n,
        ;
    } else {
        assert(n * b.len() == 0) by (nonlinear_arith)
            requires
                n == 0,
        ;
    }
}

/// Element `i` of a payload that holds a slice of `T`.
pub fn element_at<T: ShmSend>(bytes: &[u8], i: usize) -> (r: T)
    requires
        (i + 1) * size_of::<T>() <= bytes@.len(),
    ensures
        r == T::spec_from_bytes(bytes@.subrange(i * size_of::<T>(), (i + 1) * size_of::<T>())),
{
    let elem = core::mem::size_of::<T>();
    let len = bytes.len();
    assert(len == bytes@.len());
    proof {
        assert(i * elem + elem == (i + 1) * elem) by (nonlinear_arith);
        assert(i * elem <= (i + 1) * elem) by (nonlinear_arith);
    }
    T::from_bytes(vstd::slice::slice_subrange(bytes, i * elem, i * elem + elem))
}

} // verus!
