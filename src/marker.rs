//! Types that can be carried through shared memory.

use vstd::prelude::*;
use vstd::layout::size_of;

verus! {

broadcast use vstd::layout::layout_of_primitives;

/// A type whose values are carried through shared memory as a fixed number of bytes.
///
/// The byte image of a value has exactly `size_of::<Self>()` bytes and reading it back yields the
/// value again, so a sample holds no pointers, no process-local state and nothing to drop.
pub trait ShmSend: Sized {
    /// The bytes that hold `v` in a chunk.
    spec fn spec_to_bytes(v: Self) -> Seq<u8>;

    /// The value held by the bytes `b`.
    spec fn spec_from_bytes(b: Seq<u8>) -> Self;

    fn to_bytes(&self) -> (r: Vec<u8>)
        ensures
            r@ == Self::spec_to_bytes(*self),
    ;

    fn from_bytes(b: &[u8]) -> (r: Self)
        requires
            b@.len() == size_of::<Self>(),
        ensures
            r == Self::spec_from_bytes(b@),
    ;

    proof fn lemma_bytes(v: Self)
        ensures
            Self::spec_to_bytes(v).len() == size_of::<Self>(),
            Self::spec_from_bytes(Self::spec_to_bytes(v)) == v,
    ;
}

impl ShmSend for u8 {
    open spec fn spec_to_bytes(v: u8) -> Seq<u8> {
        seq![v]
    }

    open spec fn spec_from_bytes(b: Seq<u8>) -> u8 {
        b[0]
    }

    fn to_bytes(&self) -> (r: Vec<u8>) {
        vec![*self]
    }

    fn from_bytes(b: &[u8]) -> (r: u8) {
        b[0]
    }

    proof fn lemma_bytes(v: u8) {
    }
}

impl ShmSend for u16 {
    open spec fn spec_to_bytes(v: u16) -> Seq<u8> {
        seq![v as u8, (v >> 8u16) as u8]
    }

    open spec fn spec_from_bytes(b: Seq<u8>) -> u16 {
        (b[0] as u16) | ((b[1] as u16) << 8u16)
    }

    fn to_bytes(&self) -> (r: Vec<u8>) {
        let v = *self;
        vec![v as u8, (v >> 8u16) as u8]
    }

    fn from_bytes(b: &[u8]) -> (r: u16) {
        (b[0] as u16) | ((b[1] as u16) << 8u16)
    }

    proof fn lemma_bytes(v: u16) {
        assert((((v as u8) as u16) | (((v >> 8u16) as u8) as u16) << 8u16) == v) by (bit_vector);
    }
}

impl ShmSend for u32 {
    open spec fn spec_to_bytes(v: u32) -> Seq<u8> {
        seq![v as u8, (v >> 8u32) as u8, (v >> 16u32) as u8, (v >> 24u32) as u8]
    }

    open spec fn spec_from_bytes(b: Seq<u8>) -> u32 {
        (b[0] as u32) | ((b[1] as u32) << 8u32) | ((b[2] as u32) << 16u32) | ((b[3] as u32) << 24u32)
    }

    fn to_bytes(&self) -> (r: Vec<u8>) {
        let v = *self;
        vec![v as u8, (v >> 8u32) as u8, (v >> 16u32) as u8, (v >> 24u32) as u8]
    }

    fn from_bytes(b: &[u8]) -> (r: u32) {
        (b[0] as u32) | ((b[1] as u32) << 8u32) | ((b[2] as u32) << 16u32) | ((b[3] as u32) << 24u32)
    }

    proof fn lemma_bytes(v: u32) {
        assert(((v as u8) as u32) | ((((v >> 8u32) as u8) as u32) << 8u32) | ((((v >> 16u32) as u8)
            as u32) << 16u32) | ((((v >> 24u32) as u8) as u32) << 24u32) == v) by (bit_vector);
    }
}

impl ShmSend for u64 {
    open spec fn spec_to_bytes(v: u64) -> Seq<u8> {
        seq![
            v as u8,
            (v >> 8u64) as u8,
            (v >> 16u64) as u8,
            (v >> 24u64) as u8,
            (v >> 32u64) as u8,
            (v >> 40u64) as u8,
            (v >> 48u64) as u8,
            (v >> 56u64) as u8,
        ]
    }

    open spec fn spec_from_bytes(b: Seq<u8>) -> u64 {
        (b[0] as u64) | ((b[1] as u64) << 8u64) | ((b[2] as u64) << 16u64) | ((b[3] as u64) << 24u64)
            | ((b[4] as u64) << 32u64) | ((b[5] as u64) << 40u64) | ((b[6] as u64) << 48u64) | ((
        b[7] as u64) << 56u64)
    }

    fn to_bytes(&self) -> (r: Vec<u8>) {
        let v = *self;
        vec![
            v as u8,
            (v >> 8u64) as u8,
            (v >> 16u64) as u8,
            (v >> 24u64) as u8,
            (v >> 32u64) as u8,
            (v >> 40u64) as u8,
            (v >> 48u64) as u8,
            (v >> 56u64) as u8,
        ]
    }

    fn from_bytes(b: &[u8]) -> (r: u64) {
        (b[0] as u64) | ((b[1] as u64) << 8u64) | ((b[2] as u64) << 16u64) | ((b[3] as u64) << 24u64)
            | ((b[4] as u64) << 32u64) | ((b[5] as u64) << 40u64) | ((b[6] as u64) << 48u64) | ((
        b[7] as u64) << 56u64)
    }

    proof fn lemma_bytes(v: u64) {
        assert(((v as u8) as u64) | ((((v >> 8u64) as u8) as u64) << 8u64) | ((((v >> 16u64) as u8)
            as u64) << 16u64) | ((((v >> 24u64) as u8) as u64) << 24u64) | ((((v >> 32u64) as u8)
            as u64) << 32u64) | ((((v >> 40u64) as u8) as u64) << 40u64) | ((((v >> 48u64) as u8)
            as u64) << 48u64) | ((((v >> 56u64) as u8) as u64) << 56u64) == v) by (bit_vector);
    }
}

impl ShmSend for i32 {
    open spec fn spec_to_bytes(v: i32) -> Seq<u8> {
        u32::spec_to_bytes(v as u32)
    }

    open spec fn spec_from_bytes(b: Seq<u8>) -> i32 {
        u32::spec_from_bytes(b) as i32
    }

    fn to_bytes(&self) -> (r: Vec<u8>) {
        (*self as u32).to_bytes()
    }

    fn from_bytes(b: &[u8]) -> (r: i32) {
        u32::from_bytes(b) as i32
    }

    proof fn lemma_bytes(v: i32) {
        u32::lemma_bytes(v as u32);
        assert(((v as u32) as i32) == v) by (bit_vector);
    }
}

impl ShmSend for i64 {
    open spec fn spec_to_bytes(v: i64) -> Seq<u8> {
        u64::spec_to_bytes(v as u64)
    }

    open spec fn spec_from_bytes(b: Seq<u8>) -> i64 {
        u64::spec_from_bytes(b) as i64
    }

    fn to_bytes(&self) -> (r: Vec<u8>) {
        (*self as u64).to_bytes()
    }

    fn from_bytes(b: &[u8]) -> (r: i64) {
        u64::from_bytes(b) as i64
    }

    proof fn lemma_bytes(v: i64) {
        u64::lemma_bytes(v as u64);
        assert(((v as u64) as i64) == v) by (bit_vector);
    }
}

} // verus!
