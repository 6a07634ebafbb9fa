//! A growable vector behind an interface, and erased vectors that answer
//! it whatever concrete vector they hold.
use vstd::prelude::*;
use crate::cslice::CSlice;

verus! {

/// A growable vector.
pub trait CVec<V>: CSlice<V> {
    /// Adds an element at the end.
    fn push(&mut self, value: V)
        ensures
            final(self).elems() == old(self).elems().push(value),
    ;

    /// Makes room for at least `amount` more elements; the elements stay
    /// as they are.
    fn extend(&mut self, amount: usize)
        ensures
            final(self).elems() == old(self).elems(),
    ;

    /// The number of elements the vector can hold without growing.
    fn capacity(&self) -> (r: usize)
        ensures
            r >= self.elems().len(),
    ;
}

/// Relies on `Vec::capacity`: never less than the length.
#[verifier::external_body]
fn vec_capacity<T>(v: &Vec<T>) -> (r: usize)
    ensures
        r >= v@.len(),
{
    v.capacity()
}

impl<T> CVec<T> for Vec<T> {
    fn push(&mut self, value: T) {
        Vec::push(self, value);
    }

    fn extend(&mut self, amount: usize) {
        self.reserve(amount);
    }

    fn capacity(&self) -> (r: usize) {
        vec_capacity(self)
    }
}

/// A vector moved to the heap and answered through the [`CVec`] interface.
/// The concrete vector's type stays a type parameter, so every call goes
/// straight to that type's implementation; no C-layout table of function
/// pointers stands behind it.
#[verifier::reject_recursive_types(V)]
pub struct CVecRepr<V, GEN: CVec<V>> {
    inner: Box<GEN>,
    marker: core::marker::PhantomData<V>,
}

/// The factory of boxed vectors.
pub struct CVecVTable<V> {
    marker: core::marker::PhantomData<V>,
}

impl<V: 'static> CVecVTable<V> {
    /// Moves `input` to the heap behind the [`CVec`] interface; the result
    /// holds exactly the elements of `input`.
    pub fn new_boxed<GEN: CVec<V> + 'static>(input: GEN) -> (r: CVecRepr<V, GEN>)
        ensures
            r.elems() == input.elems(),
    {
        CVecRepr { inner: Box::new(input), marker: core::marker::PhantomData }
    }
}

impl<V, GEN: CVec<V>> CSlice<V> for CVecRepr<V, GEN> {
    closed spec fn elems(&self) -> Seq<V> {
        self.inner.elems()
    }

    fn elements(&self) -> &[V] {
        self.inner.elements()
    }

    fn elements_mut(&mut self) -> &mut [V] {
        self.inner.elements_mut()
    }

    fn len(&self) -> usize {
        self.inner.len()
    }
}

impl<V, GEN: CVec<V>> CVec<V> for CVecRepr<V, GEN> {
    fn push(&mut self, value: V) {
        self.inner.push(value)
    }

    fn extend(&mut self, amount: usize) {
        self.inner.extend(amount)
    }

    fn capacity(&self) -> usize {
        self.inner.capacity()
    }
}

} // verus!
