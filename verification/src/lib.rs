//! Best-effort memory-lock hygiene primitives.
//!
//! The operations here pin sensitive in-process memory (keys, passwords) so
//! the operating system never writes it to swap, and mark it excluded from
//! core dumps, for as long as it holds sensitive data; the inverse operations
//! restore normal paging and dumping once the memory is no longer sensitive.
//!
//! This crate is the portable core: the size computation shared by every
//! backend, and the fallback backend, in which every operation is a
//! deliberate no-op for targets (such as WebAssembly) that lack both the
//! POSIX and the Windows memory-locking interfaces. Platform backends are
//! thin unsafe shims over the operating system's calls, built on the same
//! size computation; they cannot stand in verified code and live with the
//! embedding application.

use vstd::prelude::*;

verus! {

/// The number of bytes that a contiguous region of `T` values occupies in
/// memory: element count times element size, padding included. This is the
/// byte length that a backend hands to the operating system's page-lock and
/// page-unlock calls for the region.
pub open spec fn region_bytes<T>(region: Seq<T>) -> nat {
    region.len() * vstd::layout::size_of::<T>()
}

/// The byte length of the memory backing `slice`: exactly the element count
/// times the in-memory element size, zero for an empty slice.
pub fn size_of_slice<T: Sized>(slice: &[T]) -> (len: usize)
    ensures
        len == region_bytes(slice@),
    no_unwind
{
    proof {
        broadcast use vstd::layout::layout_of_slices;
    }
    core::mem::size_of_val(slice)
}

/// A zero-length region occupies zero bytes, so every backend hands the
/// operating system a zero length for an empty sequence.
pub proof fn lemma_region_bytes_empty<T>()
    ensures
        region_bytes(Seq::<T>::empty()) == 0,
{
}

/// Best-effort request to pin the pages backing a single value in physical
/// memory and, where the platform supports it, exclude them from core dumps.
/// The value is borrowed immutably for the duration of the call, so its
/// content cannot change. No failure is ever surfaced: in this fallback
/// backend the operation is a deliberate no-op and always returns normally,
/// whatever the value and even if it is zero-sized.
pub fn mlock<T: Sized>(_cont: &T)
    no_unwind
{
}

/// Reverses [`mlock`]: best-effort request to un-pin the pages backing a
/// single value and re-include them in core dumps. Borrows the value
/// immutably, surfaces no failure, and in this fallback backend is a
/// deliberate no-op that always returns normally.
pub fn munlock<T: Sized>(_cont: &T)
    no_unwind
{
}

/// Best-effort request to pin the pages backing a contiguous sequence of
/// values, sized as [`size_of_slice`] computes it: element count times
/// element size. Borrows the slice immutably, surfaces no failure, and in
/// this fallback backend is a deliberate no-op that always returns normally,
/// an empty slice included.
pub fn mlock_slice<T: Sized>(_cont: &[T])
    no_unwind
{
}

/// Reverses [`mlock_slice`]: best-effort request to un-pin the pages backing
/// a contiguous sequence of values and re-include them in core dumps.
/// Borrows the slice immutably, surfaces no failure, and in this fallback
/// backend is a deliberate no-op that always returns normally, an empty
/// slice included.
pub fn munlock_slice<T: Sized>(_cont: &[T])
    no_unwind
{
}

} // verus!
