//! A fixed-capacity, append-only sequence.
//!
//! Everywhere the boot pipeline needs a heap-free "vector" (memory regions,
//! CPU lists, I/O-APIC lists) it uses one of these: an ordered list with a
//! compile-time maximum count.  Appends beyond the capacity are rejected and
//! reported to the caller; they never disturb the entries already stored.
use vstd::prelude::*;

verus! {

/// An ordered sequence holding at most `N` items.
///
/// Pushing new items can fail if there is no room.  Rejected items are handed
/// back to the caller; the stored prefix is never overwritten or truncated.
pub struct FixedArr<T, const N: usize> {
    items: Vec<T>,
}

impl<T, const N: usize> View for FixedArr<T, N> {
    type V = Seq<T>;

    closed spec fn view(&self) -> Seq<T> {
        self.items@
    }
}

impl<T, const N: usize> FixedArr<T, N> {
    /// The stored items never exceed the capacity.
    pub open spec fn wf(&self) -> bool {
        self@.len() <= N
    }

    /// Make a new empty `FixedArr`.
    pub fn new() -> (r: Self) where T: Default + Copy
        ensures
            r@ =~= Seq::<T>::empty(),
            r.wf(),
    {
        FixedArr { items: Vec::new() }
    }

    /// Make a new empty `FixedArr` for an item type that is not `Copy`.
    /// Storage is materialized on push, so the example item is not
    /// retained.
    pub fn new_from_example(_def: T) -> (r: Self) where T: Clone
        ensures
            r@ =~= Seq::<T>::empty(),
            r.wf(),
    {
        FixedArr { items: Vec::new() }
    }

    /// Make a new empty `FixedArr` for an item type that is neither
    /// `Default` nor `Clone`.  Storage is materialized on push, so the
    /// filler is not consulted.
    pub fn new_from_fn<F: FnMut(usize) -> T>(_f: F) -> (r: Self)
        ensures
            r@ =~= Seq::<T>::empty(),
            r.wf(),
    {
        FixedArr { items: Vec::new() }
    }

    /// The number of items currently stored.
    pub fn len(&self) -> (r: usize)
        ensures
            r == self@.len(),
    {
        self.items.len()
    }

    /// Try to push `item` onto the end.  This fails exactly when the array
    /// already holds `N` items; the rejected item is returned through the
    /// `Err` variant and the stored items are untouched.
    pub fn try_push(&mut self, item: T) -> (r: Result<(), T>)
        requires
            old(self).wf(),
        ensures
            final(self).wf(),
            old(self)@.len() < N ==> r is Ok && final(self)@ =~= old(self)@.push(item),
            old(self)@.len() >= N ==> (r matches Err(rejected) && rejected == item && final(self)@
                =~= old(self)@),
    {
        if self.items.len() < N {
            self.items.push(item);
            Ok(())
        } else {
            Err(item)
        }
    }

    /// Push `item` onto the end of an array known to have room.
    pub fn push(&mut self, item: T)
        requires
            old(self).wf(),
            old(self)@.len() < N,
        ensures
            final(self).wf(),
            final(self)@ =~= old(self)@.push(item),
    {
        self.items.push(item);
    }

    /// The stored items, in insertion order.
    pub fn as_slice(&self) -> (r: &[T])
        ensures
            r@ == self@,
    {
        self.items.as_slice()
    }

    /// Read the item at `index`.
    pub fn get(&self, index: usize) -> (r: &T)
        requires
            index < self@.len(),
        ensures
            *r == self@[index as int],
    {
        &self.items[index]
    }

    /// Iterate over the stored items in insertion order.
    pub fn iter(&self) -> (r: core::slice::Iter<'_, T>)
        ensures
            vstd::std_specs::slice::into_iter_elts(r) == self@,
    {
        self.items.as_slice().iter()
    }
}

} // verus!
