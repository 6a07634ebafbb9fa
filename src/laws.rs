//! Properties of the transformation as a whole, stated over the models
//! that the generating functions' contracts use.
use vstd::prelude::*;
use crate::expand::expansion_of;
use crate::methods::{super_inits_of, PassArg, SuperInitModel};
use crate::model::{BoundModel, InputModel, InterfaceModel, MethodModel, Receiver, SegmentModel};
use crate::names::is_marker_name;
use crate::super_trait::{
    as_vtable_of, classify, marker_names, real_supers, BoundClass, SuperModel,
};
use crate::trait_for_cref::ForwardArgModel;
use crate::vtable::{
    drop_field, layout_fields, layout_of, method_field, super_field, FieldKindModel, FieldModel,
};

verus! {

/// A table has exactly one field per method, one per real
/// super-interface and the drop field: the method slots first, in
/// declaration order, then the super-interface references, in declaration
/// order, then the drop slot.
pub proof fn law_layout_field_order(i: InterfaceModel)
    ensures
        ({
            let supers = real_supers(i.supertraits);
            let fields = layout_of(i, supers).fields;
            let n = i.methods.len() as int;
            let s = supers.len() as int;
            &&& fields.len() == n + s + 1
            &&& forall|k: int| 0 <= k < n ==> #[trigger] fields[k] == method_field(i.methods[k])
            &&& forall|k: int| 0 <= k < s ==> #[trigger] fields[n + k] == super_field(supers[k])
            &&& fields[n + s] == drop_field()
            &&& forall|k: int| 0 <= k < n ==> (#[trigger] fields[k]).name == i.methods[k].name
                && fields[k].kind is Method
            &&& forall|k: int| 0 <= k < s ==> (#[trigger] fields[n + k]).kind is SuperRef
            &&& fields[n + s].kind is Drop
        }),
{
    let supers = real_supers(i.supertraits);
    let fields = layout_fields(i.methods, supers);
    let n = i.methods.len() as int;
    let s = supers.len() as int;
    assert forall|k: int| 0 <= k < s implies #[trigger] fields[n + k] == super_field(supers[k]) by {
        assert(fields[n + k] == supers.map_values(|x: SuperModel| super_field(x))[k]);
    }
}

/// `bs` with a marker capability named `m` inserted at position `at`.
pub open spec fn insert_marker(bs: Seq<BoundModel>, at: int, m: Seq<char>, args: Seq<crate::model::ArgModel>) -> Seq<BoundModel> {
    bs.subrange(0, at) + seq![BoundModel::Trait(seq![SegmentModel { ident: m, args }])] + bs.subrange(
        at,
        bs.len() as int,
    )
}

proof fn lemma_real_supers_append(a: Seq<BoundModel>, b: Seq<BoundModel>)
    ensures
        real_supers(a + b) == real_supers(a) + real_supers(b),
    decreases b.len(),
{
    if b.len() == 0 {
        assert(a + b =~= a);
        assert(real_supers(b) =~= Seq::<SuperModel>::empty());
        assert(real_supers(a) + real_supers(b) =~= real_supers(a));
    } else {
        lemma_real_supers_append(a, b.drop_last());
        assert((a + b).drop_last() =~= a + b.drop_last());
        assert((a + b).last() == b.last());
        match classify(b.last()) {
            BoundClass::Real(x) => {
                assert(real_supers(a) + real_supers(b) =~= (real_supers(a) + real_supers(b.drop_last())).push(x));
            },
            _ => {},
        }
    }
}

/// Marker capabilities contribute nothing: inserting one anywhere among the
/// super-interface bounds leaves the real super-interfaces, hence the
/// table's fields and the upcast accessors, as they were; and no real
/// super-interface carries a marker's name.
pub proof fn law_markers_contribute_nothing(
    i: InterfaceModel,
    at: int,
    m: Seq<char>,
    args: Seq<crate::model::ArgModel>,
)
    requires
        0 <= at <= i.supertraits.len(),
        is_marker_name(m),
    ensures
        ({
            let j = InterfaceModel { supertraits: insert_marker(i.supertraits, at, m, args), ..i };
            &&& real_supers(j.supertraits) == real_supers(i.supertraits)
            &&& layout_of(j, real_supers(j.supertraits)) == layout_of(i, real_supers(i.supertraits))
            &&& expansion_of(j).as_vtable_impls == expansion_of(i).as_vtable_impls
        }),
        forall|k: int|
            0 <= k < real_supers(i.supertraits).len() ==> !is_marker_name(
                #[trigger] real_supers(i.supertraits)[k].ident,
            ),
{
    let bs = i.supertraits;
    let mk = seq![BoundModel::Trait(seq![SegmentModel { ident: m, args }])];
    let pre = bs.subrange(0, at);
    let post = bs.subrange(at, bs.len() as int);
    lemma_real_supers_append(pre + mk, post);
    lemma_real_supers_append(pre, mk);
    lemma_real_supers_append(pre, post);
    assert(mk.drop_last() =~= Seq::<BoundModel>::empty());
    assert(classify(mk.last()) == BoundClass::Marker(m));
    assert(real_supers(Seq::<BoundModel>::empty()) =~= Seq::<SuperModel>::empty());
    assert(real_supers(mk) =~= Seq::<SuperModel>::empty());
    assert(pre + post =~= bs);
    assert(real_supers(pre) + real_supers(mk) =~= real_supers(pre));
    lemma_no_marker_supers(bs);
}

/// The bounds with every marker capability taken out.
pub open spec fn without_markers(bs: Seq<BoundModel>) -> Seq<BoundModel>
    decreases bs.len(),
{
    if bs.len() == 0 {
        Seq::empty()
    } else {
        let rest = without_markers(bs.drop_last());
        if classify(bs.last()) is Marker {
            rest
        } else {
            rest.push(bs.last())
        }
    }
}

proof fn lemma_without_markers(bs: Seq<BoundModel>)
    ensures
        real_supers(without_markers(bs)) == real_supers(bs),
        marker_names(without_markers(bs)).len() == 0,
    decreases bs.len(),
{
    if bs.len() > 0 {
        lemma_without_markers(bs.drop_last());
        let rest = without_markers(bs.drop_last());
        if !(classify(bs.last()) is Marker) {
            assert(rest.push(bs.last()).drop_last() =~= rest);
        }
    }
}

/// Taking every marker capability out of the super-interface bounds
/// leaves the real super-interfaces, the table type and the upcast
/// accessors as they were.
pub proof fn law_removing_markers_changes_nothing(i: InterfaceModel)
    ensures
        ({
            let j = InterfaceModel { supertraits: without_markers(i.supertraits), ..i };
            &&& marker_names(j.supertraits).len() == 0
            &&& real_supers(j.supertraits) == real_supers(i.supertraits)
            &&& layout_of(j, real_supers(j.supertraits)) == layout_of(i, real_supers(i.supertraits))
            &&& expansion_of(j).vtable == expansion_of(i).vtable
            &&& expansion_of(j).as_vtable_impls == expansion_of(i).as_vtable_impls
        }),
{
    lemma_without_markers(i.supertraits);
}

proof fn lemma_no_marker_supers(bs: Seq<BoundModel>)
    ensures
        forall|k: int| 0 <= k < real_supers(bs).len() ==> !is_marker_name(#[trigger] real_supers(bs)[k].ident),
    decreases bs.len(),
{
    if bs.len() > 0 {
        lemma_no_marker_supers(bs.drop_last());
        let rest = real_supers(bs.drop_last());
        match classify(bs.last()) {
            BoundClass::Real(x) => {
                assert(!is_marker_name(x.ident));
                assert(real_supers(bs) == rest.push(x));
                assert forall|k: int| 0 <= k < real_supers(bs).len() implies !is_marker_name(
                    #[trigger] real_supers(bs)[k].ident,
                ) by {
                    if k < rest.len() {
                        assert(real_supers(bs)[k] == rest[k]);
                    }
                }
            },
            _ => {
                assert(real_supers(bs) == rest);
            },
        }
    }
}

/// Upcasting reaches the super-interface's own implementation: for each
/// real super-interface `A` of an interface `B`, `B`'s table has a field
/// holding a reference to `A`'s table; the accessor that hands out `A`'s
/// table reads exactly that field; and the cached constructor of `B` fills
/// that field with the table that `A`'s constructor builds for the same
/// concrete type.
pub proof fn law_upcast_reads_the_same_type_table(i: InterfaceModel, k: int)
    requires
        0 <= k < real_supers(i.supertraits).len(),
    ensures
        ({
            let supers = real_supers(i.supertraits);
            let v = layout_of(i, supers);
            let a = supers[k];
            let n = i.methods.len() as int;
            &&& v.fields[n + k].name == a.field_ident
            &&& v.fields[n + k].kind == FieldKindModel::SuperRef(a.vtable_ident, a.generics)
            &&& expansion_of(i).as_vtable_impls[k] == as_vtable_of(a, v)
            &&& as_vtable_of(a, v).field_ident == a.field_ident
            &&& as_vtable_of(a, v).target_vtable_ident == a.vtable_ident
            &&& super_inits_of(v.fields)[k].field_ident == a.field_ident
            &&& super_inits_of(v.fields)[k].vtable_ident == a.vtable_ident
        }),
{
    let supers = real_supers(i.supertraits);
    let v = layout_of(i, supers);
    law_layout_field_order(i);
    lemma_super_inits_layout(i.methods, supers);
}

spec fn is_super_ref(f: FieldModel) -> bool {
    f.kind is SuperRef
}

spec fn init_of(x: SuperModel) -> SuperInitModel {
    SuperInitModel { field_ident: x.field_ident, vtable_ident: x.vtable_ident }
}

proof fn lemma_super_inits_prefix(fs: Seq<FieldModel>, supers: Seq<SuperModel>)
    requires
        forall|k: int| 0 <= k < fs.len() ==> !is_super_ref(#[trigger] fs[k]),
    ensures
        super_inits_of(fs + supers.map_values(|x: SuperModel| super_field(x))) == supers.map_values(
            |x: SuperModel| init_of(x),
        ),
    decreases fs.len() + supers.len(),
{
    let all = fs + supers.map_values(|x: SuperModel| super_field(x));
    if supers.len() == 0 {
        lemma_super_inits_none(fs);
        assert(all =~= fs);
        assert(supers.map_values(|x: SuperModel| init_of(x)) =~= Seq::<SuperInitModel>::empty());
    } else {
        lemma_super_inits_prefix(fs, supers.drop_last());
        assert(all.drop_last() =~= fs + supers.drop_last().map_values(|x: SuperModel| super_field(x)));
        assert(all.last() == super_field(supers.last()));
        assert(supers.map_values(|x: SuperModel| init_of(x)) =~=
            supers.drop_last().map_values(|x: SuperModel| init_of(x)).push(
            init_of(supers.last())));
    }
}

proof fn lemma_super_inits_none(fs: Seq<FieldModel>)
    requires
        forall|k: int| 0 <= k < fs.len() ==> !is_super_ref(#[trigger] fs[k]),
    ensures
        super_inits_of(fs) == Seq::<SuperInitModel>::empty(),
    decreases fs.len(),
{
    if fs.len() > 0 {
        assert(fs.last() == fs[fs.len() - 1]);
        lemma_super_inits_none(fs.drop_last());
    }
}

proof fn lemma_super_inits_layout(methods: Seq<MethodModel>, supers: Seq<SuperModel>)
    ensures
        forall|k: int| 0 <= k < supers.len() ==> #[trigger] super_inits_of(layout_fields(methods, supers))[k]
            == init_of(supers[k]),
{
    let ms = methods.map_values(|m: MethodModel| method_field(m));
    let body = ms + supers.map_values(|x: SuperModel| super_field(x));
    lemma_super_inits_prefix(ms, supers);
    let all = layout_fields(methods, supers);
    assert(all.drop_last() =~= body);
    assert(all.last() == drop_field());
    assert(super_inits_of(all) == super_inits_of(body));
}

/// Calling a method through the generated path reaches the concrete
/// method with the same inputs: the forwarding method of the direct
/// strategy calls the slot of the same name; for every input, what it
/// passes and what the trampoline hands on correspond (a `&self` receiver
/// as a shared erased reference that the trampoline reads back as `&GEN`,
/// `&mut self` as an exclusive one read back as `&mut GEN`, `self` as the
/// owning wrapper whose payload the trampoline takes back, any other
/// input by its own pattern and unchanged); and the slot's output type is
/// the method's own, over the trampoline's renamed parameters.
pub proof fn law_round_trip(i: InterfaceModel, k: int, j: int)
    requires
        0 <= k < i.methods.len(),
        0 <= j < i.methods[k].inputs.len(),
    ensures
        ({
            let m = i.methods[k];
            let x = expansion_of(i);
            let t = x.methods.trampolines[k];
            let f = x.direct.methods[k];
            &&& t.name == m.name
            &&& f.sig == m
            &&& t.pass.len() == m.inputs.len() && f.args.len() == m.inputs.len()
            &&& m.inputs[j] == InputModel::Receiver(Receiver::Ref) ==> f.args[j] == ForwardArgModel::Shared
                && t.pass[j] == PassArg::Shared
            &&& m.inputs[j] == InputModel::Receiver(Receiver::RefMut) ==> f.args[j] == ForwardArgModel::Exclusive
                && t.pass[j] == PassArg::Exclusive
            &&& m.inputs[j] == InputModel::Receiver(Receiver::Owned) ==> f.args[j] == ForwardArgModel::Owned
                && t.pass[j] == PassArg::Owned
            &&& m.inputs[j] is Typed ==> f.args[j] == ForwardArgModel::Pattern(m.inputs[j]->Typed_0)
                && t.pass[j] == PassArg::Value
        }),
{
}

} // verus!
