//! A slice behind an interface: anything that can lend out its elements as
//! a contiguous run.
use vstd::prelude::*;

verus! {

/// Something that can lend its elements out as a slice.
pub trait CSlice<V> {
    /// The elements, in order.
    spec fn elems(&self) -> Seq<V>;

    /// The elements, in order.
    fn elements(&self) -> (r: &[V])
        ensures
            r@ == self.elems(),
    ;

    /// The elements, in order, for writing.
    fn elements_mut(&mut self) -> (r: &mut [V])
        ensures
            r@ == old(self).elems(),
            final(r)@ == final(self).elems(),
    ;

    /// The number of elements.
    fn len(&self) -> (r: usize)
        ensures
            r == self.elems().len(),
    ;
}

/// Slice views of every [`CSlice`].
pub trait CSliceExt<V>: CSlice<V> {
    /// The elements as a slice.
    fn as_slice(&self) -> (r: &[V])
        ensures
            r@ == self.elems(),
    {
        self.elements()
    }

    /// The elements as a mutable slice.
    fn as_mut_slice(&mut self) -> (r: &mut [V])
        ensures
            r@ == old(self).elems(),
            final(r)@ == final(self).elems(),
    {
        self.elements_mut()
    }
}

impl<T: CSlice<V> + ?Sized, V> CSliceExt<V> for T {

}

impl<V> CSlice<V> for Vec<V> {
    open spec fn elems(&self) -> Seq<V> {
        self@
    }

    fn elements(&self) -> (r: &[V]) {
        self.as_slice()
    }

    fn elements_mut(&mut self) -> (r: &mut [V]) {
        self.as_mut_slice()
    }

    fn len(&self) -> (r: usize) {
        Vec::len(self)
    }
}

} // verus!
