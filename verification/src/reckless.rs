use vstd::prelude::*;

use crate::racy::RacyCell;

verus! {

/// A cell that composes a [`RacyCell`] and forwards every accessor to it.
///
/// The composed cell is meant for values that were never examined for
/// concurrent use at all, so the caller's obligation is strictly broader than
/// with [`RacyCell`]: nothing about the contained type supports sharing it,
/// and every access must be kept free of conflicts by the caller alone.  The
/// one place where ordinary exclusivity checking still applies is
/// [`RecklessCell::reckless_get_mut`], which demands exclusive access to the
/// wrapper value itself.
pub struct RecklessCell<T> {
    inner: RacyCell<T>,
}

impl<T> View for RecklessCell<T> {
    type V = T;

    closed spec fn view(&self) -> T {
        self.inner@
    }
}

impl<T> RecklessCell<T> {
    /// Takes ownership of `v`; never fails.  The cell holds exactly `v` until
    /// it is next written through.
    pub fn new(v: T) -> (c: Self)
        ensures
            c@ == v,
    {
        RecklessCell { inner: RacyCell::new(v) }
    }

    /// Returns a reference to the inner [`RacyCell`], which holds the same
    /// value as this cell.
    pub fn reckless_inner(&self) -> (r: &RacyCell<T>)
        ensures
            r@ == self@,
    {
        &self.inner
    }

    /// Returns a reference to the underlying storage of the inner cell;
    /// obtaining it does not by itself constitute access to the value.
    pub fn reckless_cell(&self) -> (r: &T)
        ensures
            *r == self@,
    {
        self.inner.racy_inner()
    }

    /// Produces a reference to the contained value, with no check that it is
    /// used without conflicts; that discipline is the caller's.
    pub fn reckless_ref(&self) -> (r: &T)
        ensures
            *r == self@,
    {
        self.inner.racy_ref()
    }

    /// Produces a mutable reference to the contained value.  This accessor
    /// takes an exclusive borrow of the wrapper itself, so ordinary
    /// exclusivity checking applies to it; the cell afterwards holds exactly
    /// what the caller leaves behind through the reference.
    pub fn reckless_get_mut(&mut self) -> (r: &mut T)
        ensures
            *r == old(self)@,
            final(self)@ == *final(r),
    {
        self.inner.racy_mut()
    }
}

impl<T: Default> Default for RecklessCell<T> {
    /// Builds a cell around the contained type's default value.
    fn default() -> (c: Self)
        ensures
            call_ensures(T::default, (), c@),
    {
        RecklessCell::new(T::default())
    }
}

impl<T> From<T> for RecklessCell<T> {
    /// Conversion from a bare value builds a cell that holds exactly that
    /// value.
    fn from(v: T) -> (c: Self)
        ensures
            c@ == v,
    {
        RecklessCell { inner: RacyCell::from(v) }
    }
}

impl<T> vstd::std_specs::convert::FromSpecImpl<T> for RecklessCell<T> {
    open spec fn obeys_from_spec() -> bool {
        true
    }

    closed spec fn from_spec(v: T) -> Self {
        RecklessCell { inner: <RacyCell<T> as vstd::std_specs::convert::FromSpec<T>>::from_spec(v) }
    }
}

/// What conversion from a bare value builds: a cell that holds exactly that
/// value.
pub proof fn lemma_reckless_from_spec<T>(v: T)
    ensures
        <RecklessCell<T> as vstd::std_specs::convert::FromSpec<T>>::from_spec(v)@ == v,
{
    crate::racy::lemma_racy_from_spec::<T>(v);
}

} // verus!
