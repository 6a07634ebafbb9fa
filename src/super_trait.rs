//! Interface analysis: the super-interface list, sorted into host markers
//! (which carry no table) and real super-interfaces (which do).
use vstd::prelude::*;
use crate::model::{
    arg_model, args_model, copy_str, copy_strs, lemma_args_model, lemma_segments_model, lemma_strs,
    params_model, strs, ArgModel, BoundModel, GenericArg, GenericParam, InterfaceDef, ParamModel,
    PathSegment, TypeBound, TypeExpr, TypeModel,
};
use crate::vtable::{VTable, VTableModel};
use crate::names::{
    field_ident_of, is_marker, is_marker_name, map_field_ident, map_vtable_ident, vtable_ident_of,
};

verus! {

/// A real super-interface: one whose table the generated table refers to.
pub struct SuperTrait {
    pub ident: String,
    /// The name of the super-interface's own table type.
    pub vtable_ident: String,
    /// The name of the field that holds the reference to that table.
    pub field_ident: String,
    /// The leading identifier of each type argument, in order (`T` for
    /// `Super<T>`).
    pub generics: Vec<String>,
}

pub struct SuperModel {
    pub ident: Seq<char>,
    pub vtable_ident: Seq<char>,
    pub field_ident: Seq<char>,
    pub generics: Seq<Seq<char>>,
}

impl View for SuperTrait {
    type V = SuperModel;

    open spec fn view(&self) -> SuperModel {
        SuperModel {
            ident: self.ident@,
            vtable_ident: self.vtable_ident@,
            field_ident: self.field_ident@,
            generics: strs(self.generics@),
        }
    }
}

pub open spec fn supers_model(s: Seq<SuperTrait>) -> Seq<SuperModel> {
    s.map_values(|t: SuperTrait| t@)
}

/// The analysed super-interface list.
pub struct SuperTraitReturn {
    /// The real super-interfaces, in declaration order.
    pub super_traits: Vec<SuperTrait>,
    /// The marker capabilities that were named, in declaration order.
    pub ignore_bounds: Vec<String>,
}

/// A super-interface bound that the generator cannot use.
pub struct Diagnostic {
    /// The position of the bound among the super-interface bounds.
    pub bound_index: usize,
    pub message: String,
}

/// What the analysis makes of one super-interface bound.
pub enum BoundClass {
    /// A lifetime bound: no interface at all.
    Skipped,
    /// Not a simple name.
    Malformed,
    Marker(Seq<char>),
    Real(SuperModel),
}

/// The leading identifiers of the path-typed arguments, in order.
pub open spec fn arg_generics(args: Seq<ArgModel>) -> Seq<Seq<char>>
    decreases args.len(),
{
    if args.len() == 0 {
        Seq::empty()
    } else {
        let rest = arg_generics(args.drop_last());
        match args.last() {
            ArgModel::Type(TypeModel::Path(segs)) => if segs.len() > 0 {
                rest.push(segs[0].ident)
            } else {
                rest
            },
            _ => rest,
        }
    }
}

pub open spec fn super_model_of(ident: Seq<char>, generics: Seq<Seq<char>>) -> SuperModel {
    SuperModel {
        ident,
        vtable_ident: vtable_ident_of(ident),
        field_ident: field_ident_of(ident),
        generics,
    }
}

pub open spec fn classify(b: BoundModel) -> BoundClass {
    match b {
        BoundModel::Lifetime(_) => BoundClass::Skipped,
        BoundModel::Verbatim(_) => BoundClass::Malformed,
        BoundModel::Trait(path) => if path.len() != 1 {
            BoundClass::Malformed
        } else if is_marker_name(path[0].ident) {
            BoundClass::Marker(path[0].ident)
        } else {
            BoundClass::Real(super_model_of(path[0].ident, arg_generics(path[0].args)))
        },
    }
}

/// The real super-interfaces among the bounds, in order.
pub open spec fn real_supers(bs: Seq<BoundModel>) -> Seq<SuperModel>
    decreases bs.len(),
{
    if bs.len() == 0 {
        Seq::empty()
    } else {
        let rest = real_supers(bs.drop_last());
        match classify(bs.last()) {
            BoundClass::Real(s) => rest.push(s),
            _ => rest,
        }
    }
}

/// The marker capabilities among the bounds, in order.
pub open spec fn marker_names(bs: Seq<BoundModel>) -> Seq<Seq<char>>
    decreases bs.len(),
{
    if bs.len() == 0 {
        Seq::empty()
    } else {
        let rest = marker_names(bs.drop_last());
        match classify(bs.last()) {
            BoundClass::Marker(n) => rest.push(n),
            _ => rest,
        }
    }
}

/// The positions of the bounds that are not simple names, in order.
pub open spec fn malformed_indices(bs: Seq<BoundModel>) -> Seq<int>
    decreases bs.len(),
{
    if bs.len() == 0 {
        Seq::empty()
    } else {
        let rest = malformed_indices(bs.drop_last());
        if classify(bs.last()) is Malformed {
            rest.push(bs.len() - 1)
        } else {
            rest
        }
    }
}

pub open spec fn simple_name_message() -> Seq<char> {
    "Only simple traits are supported as super traits"@
}

/// The leading identifiers of the path-typed arguments of a segment.
fn segment_generics(seg: &PathSegment) -> (r: Vec<String>)
    ensures
        strs(r@) == arg_generics(seg@.args),
{
    let args = &seg.args;
    let ghost am = args_model(args@);
    proof {
        lemma_args_model(args@);
        lemma_strs(Seq::<String>::empty());
    }
    let mut r: Vec<String> = Vec::new();
    let mut j: usize = 0;
    while j < args.len()
        invariant
            j <= args.len(),
            am == args_model(args@),
            am.len() == args.len(),
            forall|k: int| 0 <= k < args.len() ==> #[trigger] am[k] == arg_model(args@[k]),
            strs(r@) == arg_generics(am.subrange(0, j as int)),
        decreases args.len() - j,
    {
        let ghost prev = r@;
        assert(am.subrange(0, j + 1).drop_last() =~= am.subrange(0, j as int));
        match &args[j] {
            GenericArg::Type { ty: TypeExpr::Path { segments } } => {
                proof {
                    lemma_segments_model(segments@);
                }
                if segments.len() > 0 {
                    r.push(copy_str(&segments[0].ident));
                    assert(r@.drop_last() =~= prev);
                }
            },
            _ => {},
        }
        j += 1;
    }
    assert(am.subrange(0, args.len() as int) =~= am);
    r
}

/// Sorts the super-interface bounds of an interface into markers and real
/// super-interfaces, gathering every malformed bound into one report.
pub fn get_super_traits(input: &InterfaceDef) -> (r: Result<SuperTraitReturn, Vec<Diagnostic>>)
    ensures
        r is Ok <==> malformed_indices(input@.supertraits).len() == 0,
        r matches Ok(ret) ==> supers_model(ret.super_traits@) == real_supers(input@.supertraits)
            && strs(ret.ignore_bounds@) == marker_names(input@.supertraits),
        r matches Err(ds) ==> ds@.len() == malformed_indices(input@.supertraits).len()
            && forall|k: int|
            0 <= k < ds@.len() ==> #[trigger] ds@[k].bound_index as int == malformed_indices(
                input@.supertraits,
            )[k] && ds@[k].message@ == simple_name_message(),
{
    let bounds = &input.supertraits;
    let ghost bs = input@.supertraits;
    let mut supers: Vec<SuperTrait> = Vec::new();
    let mut markers: Vec<String> = Vec::new();
    let mut errors: Vec<Diagnostic> = Vec::new();
    let mut i: usize = 0;
    proof {
        lemma_strs(Seq::<String>::empty());
    }
    while i < bounds.len()
        invariant
            i <= bounds.len(),
            bs == input@.supertraits,
            bs.len() == bounds.len(),
            forall|k: int| 0 <= k < bounds.len() ==> #[trigger] bs[k] == bounds@[k]@,
            supers_model(supers@) == real_supers(bs.subrange(0, i as int)),
            strs(markers@) == marker_names(bs.subrange(0, i as int)),
            errors@.len() == malformed_indices(bs.subrange(0, i as int)).len(),
            forall|k: int|
                0 <= k < errors@.len() ==> #[trigger] errors@[k].bound_index as int
                    == malformed_indices(bs.subrange(0, i as int))[k],
            forall|k: int|
                0 <= k < errors@.len() ==> (#[trigger] errors@[k]).message@ == simple_name_message(),
        decreases bounds.len() - i,
    {
        let ghost sub = bs.subrange(0, i as int);
        let ghost sub1 = bs.subrange(0, i + 1);
        assert(sub1.drop_last() =~= sub);
        assert(sub1.last() == bounds@[i as int]@);
        let ghost prev_supers = supers@;
        let ghost prev_markers = markers@;
        let ghost prev_errors = errors@;
        match &bounds[i] {
            TypeBound::Lifetime { .. } => {},
            TypeBound::Verbatim { .. } => {
                errors.push(
                    Diagnostic {
                        bound_index: i,
                        message: String::from_str("Only simple traits are supported as super traits"),
                    },
                );
                assert(errors@.drop_last() =~= prev_errors);
                assert(malformed_indices(sub1) == malformed_indices(sub).push(i as int));
            },
            TypeBound::Trait { path } => {
                proof {
                    lemma_segments_model(path@);
                }
                if path.len() != 1 {
                    errors.push(
                        Diagnostic {
                            bound_index: i,
                            message: String::from_str(
                                "Only simple traits are supported as super traits",
                            ),
                        },
                    );
                    assert(errors@.drop_last() =~= prev_errors);
                    assert(malformed_indices(sub1) == malformed_indices(sub).push(i as int));
                } else {
                    let ident = &path[0].ident;
                    if is_marker(ident) {
                        markers.push(copy_str(ident));
                        assert(markers@.drop_last() =~= prev_markers);
                    } else {
                        let s = SuperTrait {
                            ident: copy_str(ident),
                            vtable_ident: map_vtable_ident(ident),
                            field_ident: map_field_ident(ident),
                            generics: segment_generics(&path[0]),
                        };
                        supers.push(s);
                        assert(supers_model(supers@) =~= supers_model(prev_supers).push(s@));
                    }
                }
            },
        }
        i += 1;
    }
    assert(bs.subrange(0, bounds.len() as int) =~= bs);
    if errors.len() > 0 {
        Err(errors)
    } else {
        Ok(SuperTraitReturn { super_traits: supers, ignore_bounds: markers })
    }
}

} // verus!

verus! {

/// An upcast accessor: the table of `vtable_ident` hands out its reference
/// to the table of one of its real super-interfaces.
pub struct AsVTableImpl {
    /// The type parameters the impl declares.
    pub generics: Vec<String>,
    pub vtable_ident: String,
    pub target_vtable_ident: String,
    pub target_generics: Vec<String>,
    /// The field that holds the reference.
    pub field_ident: String,
}

pub struct AsVTableModel {
    pub generics: Seq<Seq<char>>,
    pub vtable_ident: Seq<char>,
    pub target_vtable_ident: Seq<char>,
    pub target_generics: Seq<Seq<char>>,
    pub field_ident: Seq<char>,
}

impl View for AsVTableImpl {
    type V = AsVTableModel;

    open spec fn view(&self) -> AsVTableModel {
        AsVTableModel {
            generics: strs(self.generics@),
            vtable_ident: self.vtable_ident@,
            target_vtable_ident: self.target_vtable_ident@,
            target_generics: strs(self.target_generics@),
            field_ident: self.field_ident@,
        }
    }
}

pub open spec fn as_vtables_model(s: Seq<AsVTableImpl>) -> Seq<AsVTableModel> {
    s.map_values(|a: AsVTableImpl| a@)
}

/// The names of the type parameters among the parameters, in order.
pub open spec fn type_param_names(ps: Seq<ParamModel>) -> Seq<Seq<char>>
    decreases ps.len(),
{
    if ps.len() == 0 {
        Seq::empty()
    } else {
        let rest = type_param_names(ps.drop_last());
        match ps.last() {
            ParamModel::Type(n, _) => rest.push(n),
            _ => rest,
        }
    }
}

/// The accessor for one real super-interface of the table `v`.
pub open spec fn as_vtable_of(s: SuperModel, v: VTableModel) -> AsVTableModel {
    AsVTableModel {
        generics: type_param_names(v.generics),
        vtable_ident: v.ident,
        target_vtable_ident: s.vtable_ident,
        target_generics: s.generics,
        field_ident: s.field_ident,
    }
}

/// The names of the type parameters of a parameter list.
pub fn type_param_idents(ps: &Vec<GenericParam>) -> (r: Vec<String>)
    ensures
        strs(r@) == type_param_names(params_model(ps@)),
{
    let ghost pm = params_model(ps@);
    let mut r: Vec<String> = Vec::new();
    let mut i: usize = 0;
    proof {
        lemma_strs(Seq::<String>::empty());
    }
    while i < ps.len()
        invariant
            i <= ps.len(),
            pm == params_model(ps@),
            strs(r@) == type_param_names(pm.subrange(0, i as int)),
        decreases ps.len() - i,
    {
        let ghost prev = r@;
        assert(pm.subrange(0, i + 1).drop_last() =~= pm.subrange(0, i as int));
        if let GenericParam::Type { name, .. } = &ps[i] {
            r.push(copy_str(name));
            assert(r@.drop_last() =~= prev);
        }
        i += 1;
    }
    assert(pm.subrange(0, ps.len() as int) =~= pm);
    r
}

/// One upcast accessor per real super-interface, in order: each reads the
/// super-interface's field of the table. Markers have no field, hence no
/// accessor.
pub fn impl_as_vtable_for_super_traits(super_traits: &Vec<SuperTrait>, vtable: &VTable) -> (r: Vec<AsVTableImpl>)
    ensures
        as_vtables_model(r@) == supers_model(super_traits@).map_values(
            |s: SuperModel| as_vtable_of(s, vtable@),
        ),
{
    let ghost sm = supers_model(super_traits@);
    let mut r: Vec<AsVTableImpl> = Vec::new();
    let mut i: usize = 0;
    while i < super_traits.len()
        invariant
            i <= super_traits.len(),
            sm == supers_model(super_traits@),
            as_vtables_model(r@) == sm.subrange(0, i as int).map_values(|s: SuperModel| as_vtable_of(s, vtable@)),
        decreases super_traits.len() - i,
    {
        let ghost prev = r@;
        let s = &super_traits[i];
        let a = AsVTableImpl {
            generics: type_param_idents(&vtable.generics),
            vtable_ident: copy_str(&vtable.ident),
            target_vtable_ident: copy_str(&s.vtable_ident),
            target_generics: copy_strs(&s.generics),
            field_ident: copy_str(&s.field_ident),
        };
        r.push(a);
        assert(as_vtables_model(r@) =~= as_vtables_model(prev).push(as_vtable_of(sm[i as int], vtable@)));
        assert(sm.subrange(0, i + 1).map_values(|s: SuperModel| as_vtable_of(s, vtable@)) =~=
            sm.subrange(0, i as int).map_values(|s: SuperModel| as_vtable_of(s, vtable@)).push(as_vtable_of(sm[i as int], vtable@)));
        i += 1;
    }
    assert(sm.subrange(0, super_traits.len() as int) =~= sm);
    r
}

} // verus!
