use vstd::prelude::*;

verus! {

/// A cell that owns one value and hands out references to it with no
/// tracking of how many are outstanding.
///
/// The cell provides no protection against conflicting access: the caller
/// must make sure that while a reference obtained from [`RacyCell::racy_mut`]
/// is live, no other reference into the same cell is used.  The cell only
/// names the aliased location; it never synchronizes.
pub struct RacyCell<T> {
    inner: T,
}

impl<T> View for RacyCell<T> {
    type V = T;

    closed spec fn view(&self) -> T {
        self.inner
    }
}

impl<T> RacyCell<T> {
    /// Takes ownership of `v`; never fails.  The cell holds exactly `v` until
    /// it is next written through.
    pub fn new(v: T) -> (c: Self)
        ensures
            c@ == v,
    {
        RacyCell { inner: v }
    }

    /// Returns a reference to the underlying storage; obtaining it does not
    /// by itself constitute access to the value.
    pub fn racy_inner(&self) -> (r: &T)
        ensures
            *r == self@,
    {
        &self.inner
    }

    /// Produces a reference to the contained value.  The cell performs no
    /// check that the reference is used without conflicts; that discipline is
    /// the caller's.
    pub fn racy_ref(&self) -> (r: &T)
        ensures
            *r == self@,
    {
        &self.inner
    }

    /// Produces a mutable reference to the contained value.  Whatever the
    /// caller leaves behind through the reference is exactly what the cell
    /// holds afterwards: there is no hidden buffering or copying.
    pub fn racy_mut(&mut self) -> (r: &mut T)
        ensures
            *r == old(self)@,
            final(self)@ == *final(r),
    {
        &mut self.inner
    }
}

impl<T: Default> Default for RacyCell<T> {
    /// Builds a cell around the contained type's default value.
    fn default() -> (c: Self)
        ensures
            call_ensures(T::default, (), c@),
    {
        RacyCell::new(T::default())
    }
}

impl<T> From<T> for RacyCell<T> {
    /// Conversion from a bare value builds a cell that holds exactly that
    /// value.
    fn from(v: T) -> (c: Self)
        ensures
            c@ == v,
    {
        RacyCell::new(v)
    }
}

impl<T> vstd::std_specs::convert::FromSpecImpl<T> for RacyCell<T> {
    open spec fn obeys_from_spec() -> bool {
        true
    }

    closed spec fn from_spec(v: T) -> Self {
        RacyCell { inner: v }
    }
}

/// What conversion from a bare value builds: a cell that holds exactly that
/// value.
pub proof fn lemma_racy_from_spec<T>(v: T)
    ensures
        <RacyCell<T> as vstd::std_specs::convert::FromSpec<T>>::from_spec(v)@ == v,
{
}

/// Law: wrapping a value and then producing an unchecked reference yields a
/// reference to that same value.
pub proof fn lemma_wrap_then_read<T>(v: T, c: RacyCell<T>, r: &T)
    requires
        call_ensures(RacyCell::<T>::new, (v,), c),
        call_ensures(RacyCell::<T>::racy_ref, (&c,), r),
    ensures
        *r == v,
{
}

/// Law: a mutation is observed by every later read.  A cell left holding `w`
/// (for instance through the reference [`RacyCell::racy_mut`] returns, whose
/// contract says the cell afterwards holds exactly what was written) hands
/// `w` back from every fresh unchecked reference.
pub proof fn lemma_fresh_read_observes_write<T>(c: RacyCell<T>, w: T, r: &T)
    requires
        c@ == w,
        call_ensures(RacyCell::<T>::racy_ref, (&c,), r),
    ensures
        *r == w,
{
}

} // verus!
