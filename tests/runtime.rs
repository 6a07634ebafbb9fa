use crusty_traits::trait_wrapper::{CDrop, CRef, CRefMut, CRepr};

struct Table {
    tag: u32,
}

impl CDrop for Table {
    fn drop(_repr: CRepr<Self>) {}
}

fn table(tag: u32) -> &'static Table {
    Box::leak(Box::new(Table { tag }))
}

#[test]
fn c_repr_pairs_a_table_with_a_payload() {
    let t = table(3);
    let mut repr = CRepr::new_boxed(t, 42u64);
    assert_ne!(repr.as_ptr(), 0);
    assert!(std::ptr::eq(repr.get_vtable(), t));
    let p = repr.as_ptr();
    let r: CRef<Table> = repr.as_cref();
    assert_eq!(r.as_ptr(), p);
    assert_eq!(r.get_vtable().tag, 3);
    let m: CRefMut<Table> = repr.as_cref_mut();
    assert_eq!(m.as_ptr(), p);
    assert_eq!(m.tag, 3);
    repr.release();
}

#[test]
fn c_repr_views_through_another_table() {
    let t = table(1);
    let other = table(2);
    let mut repr = CRepr::from_raw_parts(t, 4096);
    assert_eq!(repr.as_ptr(), 4096);
    let r = repr.as_cref_with_methods(other);
    assert_eq!(r.get_vtable().tag, 2);
    assert_eq!(r.as_ptr(), 4096);
    let m = repr.as_cref_mut_with_methods(other);
    assert_eq!(m.get_vtable().tag, 2);
    assert_eq!(m.as_ptr(), 4096);
    assert_eq!(repr.tag, 1);
}

#[test]
fn c_ref_from_parts() {
    let t = table(9);
    let r = CRef::from_raw_parts(t, 77);
    let copy = r;
    assert_eq!(r.as_ptr(), 77);
    assert_eq!(copy.get_vtable().tag, 9);
    assert_eq!(copy.tag, 9);
}

#[test]
fn two_payloads_have_two_addresses() {
    let t = table(0);
    let a = CRepr::new_boxed(t, 1u8);
    let b = CRepr::new_boxed(t, 2u8);
    assert_ne!(a.as_ptr(), b.as_ptr());
}
