//! The erasure wrappers that generated code is written against: an owning
//! wrapper and two borrowed views, each a table reference paired with the
//! address of an opaque payload.
use vstd::prelude::*;

verus! {

/// Tears down the payload of an erased value (implemented by every
/// generated table type, through its drop slot).
pub trait CDrop: Sized + 'static {
    /// Drops the payload that the owning wrapper `repr` holds.
    fn drop(repr: CRepr<Self>);
}

/// Hands out a table of another interface (implemented by a table type for
/// each of its real super-interfaces).
pub trait AsVTable<T> {
    /// The table.
    fn as_vtable(&self) -> T;
}

/// An owned erased value: a table and the address of a payload that the
/// table's functions know how to read.
///
/// The type has no `Drop` impl: the payload is torn down, through the
/// table's drop slot, only by [`CRepr::release`]. A wrapper that goes out of
/// scope unreleased leaves its payload allocated.
pub struct CRepr<T: CDrop + 'static> {
    vtable: &'static T,
    ptr: usize,
}

/// Relies on `Box::into_raw`: the payload stays on the heap, owned by the
/// address handed back (never null) until `Box::from_raw` reclaims it.
#[verifier::external_body]
fn leak_payload<C>(b: Box<C>) -> (r: usize)
    ensures
        r != 0,
{
    Box::into_raw(b) as usize
}

impl<T: CDrop + 'static> CRepr<T> {
    pub closed spec fn table(&self) -> &'static T {
        self.vtable
    }

    pub closed spec fn payload(&self) -> usize {
        self.ptr
    }

    /// Moves `context` to the heap and pairs it with `vtable`.
    pub fn new_boxed<C>(vtable: &'static T, context: C) -> (r: Self)
        ensures
            r.table() == vtable,
            r.payload() != 0,
    {
        let ptr = leak_payload(Box::new(context));
        CRepr { vtable, ptr }
    }

    /// Pairs a table with the address of a payload it was made for.
    pub fn from_raw_parts(vtable: &'static T, ptr: usize) -> (r: Self)
        ensures
            r.table() == vtable,
            r.payload() == ptr,
    {
        CRepr { vtable, ptr }
    }

    /// The address of the payload.
    pub fn as_ptr(&self) -> (r: usize)
        ensures
            r == self.payload(),
    {
        self.ptr
    }

    /// The table.
    pub fn get_vtable(&self) -> (r: &'static T)
        ensures
            r == self.table(),
    {
        self.vtable
    }

    /// A shared view of the same payload through the same table.
    pub fn as_cref(&self) -> (r: CRef<'_, T>)
        ensures
            r.table() == self.table(),
            r.payload() == self.payload(),
    {
        CRef { vtable: self.vtable, ptr: self.ptr }
    }

    /// An exclusive view of the same payload through the same table.
    pub fn as_cref_mut(&mut self) -> (r: CRefMut<'_, T>)
        ensures
            r.table() == old(self).table(),
            r.payload() == old(self).payload(),
            *final(self) == *old(self),
    {
        CRefMut { vtable: self.vtable, ptr: self.ptr }
    }

    /// Ends the value: its table's teardown reclaims the payload. The
    /// payload of a wrapper that is never released stays allocated.
    pub fn release(self) {
        T::drop(self);
    }

    /// A shared view of the same payload through another table made for
    /// the same payload type (a super-interface's table).
    pub fn as_cref_with_methods<U>(&self, methods: &'static U) -> (r: CRef<'_, U>)
        ensures
            r.table() == methods,
            r.payload() == self.payload(),
    {
        CRef { vtable: methods, ptr: self.ptr }
    }

    /// An exclusive view of the same payload through another table made for
    /// the same payload type.
    pub fn as_cref_mut_with_methods<U>(&mut self, methods: &'static U) -> (r: CRefMut<'_, U>)
        ensures
            r.table() == methods,
            r.payload() == old(self).payload(),
            *final(self) == *old(self),
    {
        CRefMut { vtable: methods, ptr: self.ptr }
    }
}

impl<T: CDrop + 'static> core::ops::Deref for CRepr<T> {
    type Target = T;

    fn deref(&self) -> (r: &T)
        ensures
            r == self.table(),
    {
        self.vtable
    }
}

/// A shared view of an erased value.
pub struct CRef<'a, T> {
    vtable: &'a T,
    ptr: usize,
}

impl<'a, T> CRef<'a, T> {
    pub closed spec fn table(&self) -> &'a T {
        self.vtable
    }

    pub closed spec fn payload(&self) -> usize {
        self.ptr
    }

    /// Pairs a table with the address of a payload it was made for.
    pub fn from_raw_parts(vtable: &'a T, ptr: usize) -> (r: Self)
        ensures
            r.table() == vtable,
            r.payload() == ptr,
    {
        CRef { vtable, ptr }
    }

    /// The address of the payload.
    pub fn as_ptr(&self) -> (r: usize)
        ensures
            r == self.payload(),
    {
        self.ptr
    }

    /// The table.
    pub fn get_vtable(&self) -> (r: &'a T)
        ensures
            r == self.table(),
    {
        self.vtable
    }
}

impl<'a, T> Clone for CRef<'a, T> {
    fn clone(&self) -> (r: Self)
        ensures
            r == *self,
    {
        CRef { vtable: self.vtable, ptr: self.ptr }
    }
}

impl<'a, T> Copy for CRef<'a, T> {

}

impl<'a, T> core::ops::Deref for CRef<'a, T> {
    type Target = T;

    fn deref(&self) -> (r: &T)
        ensures
            r == self.table(),
    {
        self.vtable
    }
}

/// An exclusive view of an erased value.
pub struct CRefMut<'a, T> {
    vtable: &'a T,
    ptr: usize,
}

impl<'a, T> CRefMut<'a, T> {
    pub closed spec fn table(&self) -> &'a T {
        self.vtable
    }

    pub closed spec fn payload(&self) -> usize {
        self.ptr
    }

    /// The address of the payload.
    pub fn as_ptr(&self) -> (r: usize)
        ensures
            r == self.payload(),
    {
        self.ptr
    }

    /// The table.
    pub fn get_vtable(&self) -> (r: &'a T)
        ensures
            r == self.table(),
    {
        self.vtable
    }
}

impl<'a, T> core::ops::Deref for CRefMut<'a, T> {
    type Target = T;

    fn deref(&self) -> (r: &T)
        ensures
            r == self.table(),
    {
        self.vtable
    }
}

} // verus!
