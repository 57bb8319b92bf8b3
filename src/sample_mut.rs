//! Owned samples on the publishing side.

use vstd::prelude::*;
use vstd::layout::size_of;
use core::marker::PhantomData;
use core::mem::MaybeUninit;
use crate::layout::fits_type;
use crate::marker::ShmSend;
use crate::runtime::{ChunkHeader, Runtime};

verus! {

/// A chunk loaned by a publisher and owned by this value until it is published or released.
///
/// `SampleMut<MaybeUninit<T>>` holds bytes that need not be a valid `T` yet; only `SampleMut<T>`
/// can be read as a `T`.
pub struct SampleMut<T: ?Sized> {
    chunk: usize,
    publisher: usize,
    phantom: PhantomData<T>,
}

/// A chunk handle taken out of a `SampleMut`; it must be handed back to its publisher with
/// `publish_raw` or `release_raw`.
pub struct RawSampleMut<T: ?Sized> {
    chunk: usize,
    phantom: PhantomData<T>,
}

impl<T: ?Sized> RawSampleMut<T> {
    pub closed spec fn chunk(&self) -> usize {
        self.chunk
    }

    /// The handle of the chunk.
    pub fn chunk_handle(&self) -> (r: usize)
        ensures
            r == self.chunk(),
    {
        self.chunk
    }

    /// The same chunk, to be read as another type.
    pub fn cast<U>(self) -> (r: RawSampleMut<U>)
        ensures
            r.chunk() == self.chunk(),
    {
        RawSampleMut { chunk: self.chunk, phantom: PhantomData }
    }
}

impl<T: ?Sized> SampleMut<T> {
    pub(crate) fn new(chunk: usize, publisher: usize) -> (r: Self)
        ensures
            r.chunk() == chunk,
            r.publisher() == publisher,
    {
        SampleMut { chunk, publisher, phantom: PhantomData }
    }

    /// The chunk this sample owns.
    pub closed spec fn chunk(&self) -> usize {
        self.chunk
    }

    /// The publisher port the chunk was loaned from.
    pub closed spec fn publisher(&self) -> usize {
        self.publisher
    }

    /// The chunk this sample owns.
    pub fn chunk_handle(&self) -> (r: usize)
        ensures
            r == self.chunk(),
    {
        self.chunk
    }

    /// Takes the chunk handle and the publisher port out of the sample.
    pub(crate) fn into_parts(self) -> (r: (usize, usize))
        ensures
            r == (self.chunk(), self.publisher()),
    {
        (self.chunk, self.publisher)
    }

    /// Turns the sample into a raw chunk handle that must be published or released by hand.
    pub fn into_raw(self) -> (r: RawSampleMut<T>)
        ensures
            r.chunk() == self.chunk(),
    {
        RawSampleMut { chunk: self.chunk, phantom: PhantomData }
    }

    /// The header of the sample's chunk.
    pub fn chunk_header(&self, rt: &Runtime) -> (r: ChunkHeader)
        requires
            self.chunk() < rt@.chunks.len(),
        ensures
            r == rt@.chunks[self.chunk() as int].header,
    {
        rt.chunk_header(self.chunk)
    }

    /// The payload bytes of the sample.
    pub fn as_bytes<'a>(&self, rt: &'a Runtime) -> (r: &'a [u8])
        requires
            self.chunk() < rt@.chunks.len(),
        ensures
            r@ == rt@.chunks[self.chunk() as int].payload,
    {
        rt.payload(self.chunk)
    }
}

impl<T: ShmSend> SampleMut<T> {
    /// The value the sample holds.
    pub fn get(&self, rt: &Runtime) -> (r: T)
        requires
            self.chunk() < rt@.chunks.len(),
            rt@.chunks[self.chunk() as int].payload.len() == size_of::<T>(),
        ensures
            r == T::spec_from_bytes(rt@.chunks[self.chunk() as int].payload),
    {
        T::from_bytes(rt.payload(self.chunk))
    }

    /// Stores `value` in the sample.
    pub fn set(&self, rt: &mut Runtime, value: T)
        requires
            old(rt).wf(),
            self.chunk() < old(rt)@.chunks.len(),
            old(rt)@.chunks[self.chunk() as int].payload.len() == size_of::<T>(),
        ensures
            final(rt).wf(),
            final(rt)@ == old(rt)@.written(self.chunk() as int, 0, T::spec_to_bytes(value)),
            final(rt)@.chunks[self.chunk() as int].payload == T::spec_to_bytes(value),
    {
        let bytes = value.to_bytes();
        proof {
            T::lemma_bytes(value);
        }
        rt.write_payload(self.chunk, 0, bytes.as_slice());
        proof {
            let p = old(rt)@.chunks[self.chunk() as int].payload;
            assert(p.subrange(0, 0) + bytes@ + p.subrange(bytes@.len() as int, p.len() as int)
                =~= bytes@);
        }
    }
}

impl<T: ShmSend> SampleMut<MaybeUninit<T>> {
    /// Stores `value` in the sample, which is then initialized.
    pub fn write(self, rt: &mut Runtime, value: T) -> (r: SampleMut<T>)
        requires
            old(rt).wf(),
            self.chunk() < old(rt)@.chunks.len(),
            old(rt)@.chunks[self.chunk() as int].payload.len() == size_of::<T>(),
        ensures
            final(rt).wf(),
            final(rt)@ == old(rt)@.written(self.chunk() as int, 0, T::spec_to_bytes(value)),
            r.chunk() == self.chunk(),
            r.publisher() == self.publisher(),
    {
        let init = SampleMut::<T>::new(self.chunk, self.publisher);
        init.set(rt, value);
        init
    }

    /// Labels the sample as initialized.
    ///
    /// The caller asserts that the payload bytes hold a valid `T`; nothing checks it.
    pub fn assume_init(self) -> (r: SampleMut<T>)
        ensures
            r.chunk() == self.chunk(),
            r.publisher() == self.publisher(),
    {
        SampleMut::new(self.chunk, self.publisher)
    }
}

impl<T: ShmSend> SampleMut<[MaybeUninit<T>]> {
    /// Labels the slice as initialized.
    ///
    /// The caller asserts that the payload bytes hold valid elements; nothing checks it.
    pub fn assume_init(self) -> (r: SampleMut<[T]>)
        ensures
            r.chunk() == self.chunk(),
            r.publisher() == self.publisher(),
    {
        SampleMut::new(self.chunk, self.publisher)
    }
}

impl SampleMut<[MaybeUninit<u8>]> {
    /// Writes `bytes` into the uninitialized buffer from `offset` on.
    pub fn write_bytes(&self, rt: &mut Runtime, offset: usize, bytes: &[u8])
        requires
            old(rt).wf(),
            self.chunk() < old(rt)@.chunks.len(),
            offset + bytes@.len() <= old(rt)@.chunks[self.chunk() as int].payload.len(),
        ensures
            final(rt).wf(),
            final(rt)@ == old(rt)@.written(self.chunk() as int, offset as int, bytes@),
    {
        rt.write_payload(self.chunk, offset, bytes);
    }

    /// Writes `value` at the start of the untyped buffer if its recorded size and alignment
    /// admit a `U`; returns whether it did.
    pub fn try_write_as<U: ShmSend>(&self, rt: &mut Runtime, value: U) -> (r: bool)
        requires
            old(rt).wf(),
            self.chunk() < old(rt)@.chunks.len(),
        ensures
            final(rt).wf(),
            r == fits_type::<U>(
                old(rt)@.chunks[self.chunk() as int].header.payload_size as nat,
                old(rt)@.chunks[self.chunk() as int].header.payload_alignment as nat,
            ),
            r ==> final(rt)@ == old(rt)@.written(self.chunk() as int, 0, U::spec_to_bytes(value)),
            !r ==> final(rt)@ == old(rt)@,
    {
        let header = rt.chunk_header(self.chunk);
        if crate::layout::can_view_as::<U>(header.payload_size, header.payload_alignment) {
            let bytes = value.to_bytes();
            proof {
                U::lemma_bytes(value);
            }
            rt.write_payload(self.chunk, 0, bytes.as_slice());
            true
        } else {
            false
        }
    }
}

impl<T: ShmSend> SampleMut<[T]> {
    /// Element `i` of the slice.
    pub fn get_at(&self, rt: &Runtime, i: usize) -> (r: T)
        requires
            self.chunk() < rt@.chunks.len(),
            (i + 1) * size_of::<T>() <= rt@.chunks[self.chunk() as int].payload.len(),
        ensures
            r == T::spec_from_bytes(
                rt@.chunks[self.chunk() as int].payload.subrange(
                    i * size_of::<T>(),
                    (i + 1) * size_of::<T>(),
                ),
            ),
    {
        crate::layout::element_at::<T>(rt.payload(self.chunk), i)
    }

    /// Stores `value` as element `i` of the slice.
    pub fn set_at(&self, rt: &mut Runtime, i: usize, value: T)
        requires
            old(rt).wf(),
            self.chunk() < old(rt)@.chunks.len(),
            (i + 1) * size_of::<T>() <= old(rt)@.chunks[self.chunk() as int].payload.len(),
        ensures
            final(rt).wf(),
            final(rt)@ == old(rt)@.written(
                self.chunk() as int,
                i * size_of::<T>(),
                T::spec_to_bytes(value),
            ),
    {
        let bytes = value.to_bytes();
        proof {
            T::lemma_bytes(value);
            assert(i * size_of::<T>() + size_of::<T>() == (i + 1) * size_of::<T>()) by (nonlinear_arith);
        }
        rt.write_payload(self.chunk, i * core::mem::size_of::<T>(), bytes.as_slice());
    }
}

} // verus!
