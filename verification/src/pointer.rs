use vstd::prelude::*;

use core::marker::PhantomData;

verus! {

/// A copyable handle on a raw mutable pointer to a `T`, represented by its
/// address.
///
/// The handle stores the address verbatim and never dereferences it, so it
/// imposes no validity requirement: the address may be null, dangling, or
/// live.  Validity, lifetime and exclusivity are entirely the caller's
/// responsibility at the point of dereference, which lies outside this type.
/// Duplicating a handle duplicates the address, never the pointee.
pub struct SharedMut<T>(pub usize, pub PhantomData<T>);

impl<T> Clone for SharedMut<T> {
    /// Duplicates the handle: the copy holds the same address.
    fn clone(&self) -> (c: Self)
        ensures
            c == *self,
    {
        SharedMut(self.0, PhantomData)
    }
}

impl<T> Copy for SharedMut<T> {

}

impl<T> View for SharedMut<T> {
    type V = usize;

    open spec fn view(&self) -> usize {
        self.0
    }
}

impl<T> SharedMut<T> {
    /// Wraps the given address verbatim; never fails and performs no
    /// validation.
    pub fn new(ptr: usize) -> (h: Self)
        ensures
            h@ == ptr,
    {
        SharedMut(ptr, PhantomData)
    }

    /// Returns the wrapped address verbatim.
    pub fn get(&self) -> (p: usize)
        ensures
            p == self@,
    {
        self.0
    }
}

impl<T> From<usize> for SharedMut<T> {
    /// Conversion from a bare address builds a handle that holds exactly that
    /// address.
    fn from(ptr: usize) -> (h: Self)
        ensures
            h@ == ptr,
    {
        SharedMut::new(ptr)
    }
}

impl<T> vstd::std_specs::convert::FromSpecImpl<usize> for SharedMut<T> {
    open spec fn obeys_from_spec() -> bool {
        true
    }

    open spec fn from_spec(ptr: usize) -> Self {
        SharedMut(ptr, PhantomData)
    }
}

/// Law: wrapping a pointer and reading it back is the identity.  Every handle
/// that `new` builds from `p` hands back exactly `p` from `get`.
pub proof fn lemma_pointer_round_trip<T>(p: usize, h: SharedMut<T>, q: usize)
    requires
        call_ensures(SharedMut::<T>::new, (p,), h),
        call_ensures(SharedMut::<T>::get, (&h,), q),
    ensures
        q == p,
{
}

} // verus!
