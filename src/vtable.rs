//! Layout synthesis: the ordered fields of the table type generated for an
//! interface.
use vstd::prelude::*;
use crate::model::{
    args_model, bounds_model, copy_str, copy_strs, inputs_model, lemma_args_model,
    lemma_push_contains, lemma_segments_model, lemma_strs, opt_type, params_model, segments_model,
    strs, ArgModel, BoundModel, FnInput, GenericArg, GenericParam, InputModel, InterfaceDef,
    MethodModel, ParamModel, PathSegment, Receiver, SegmentModel, TypeBound, TypeExpr, TypeModel,
};
use crate::names::{map_vtable_ident, vtable_ident_of};
use crate::super_trait::{supers_model, SuperModel, SuperTrait};
use crate::types::{contains_str, copy_segments, copy_type};

verus! {

/// What a table field holds.
pub enum FieldKind {
    /// `unsafe extern "C" fn(inputs) -> output`, the slot of one method.
    Method { inputs: Vec<TypeExpr>, output: Option<TypeExpr> },
    /// `&'static Target<generics>`, the table of a real super-interface.
    SuperRef { vtable_ident: String, generics: Vec<String> },
    /// `unsafe extern "C" fn(input)`, the teardown of the payload, which
    /// takes the owning erased wrapper.
    Drop { input: TypeExpr },
}

pub struct VTableField {
    pub attrs: Vec<String>,
    pub name: String,
    pub kind: FieldKind,
}

/// The table type generated for an interface.
pub struct VTable {
    pub vis: String,
    pub ident: String,
    /// The interface the table is generated for.
    pub trait_ident: String,
    pub generics: Vec<GenericParam>,
    pub fields: Vec<VTableField>,
}

pub enum FieldKindModel {
    Method(Seq<TypeModel>, Option<TypeModel>),
    SuperRef(Seq<char>, Seq<Seq<char>>),
    Drop(TypeModel),
}

pub struct FieldModel {
    pub attrs: Seq<Seq<char>>,
    pub name: Seq<char>,
    pub kind: FieldKindModel,
}

pub struct VTableModel {
    pub vis: Seq<char>,
    pub ident: Seq<char>,
    pub trait_ident: Seq<char>,
    pub generics: Seq<ParamModel>,
    pub fields: Seq<FieldModel>,
}

pub open spec fn tys_model(s: Seq<TypeExpr>) -> Seq<TypeModel> {
    s.map_values(|t: TypeExpr| t@)
}

impl View for VTableField {
    type V = FieldModel;

    open spec fn view(&self) -> FieldModel {
        FieldModel {
            attrs: strs(self.attrs@),
            name: self.name@,
            kind: match self.kind {
                FieldKind::Method { inputs, output } => FieldKindModel::Method(
                    tys_model(inputs@),
                    opt_type(output),
                ),
                FieldKind::SuperRef { vtable_ident, generics } => FieldKindModel::SuperRef(
                    vtable_ident@,
                    strs(generics@),
                ),
                FieldKind::Drop { input } => FieldKindModel::Drop(input@),
            },
        }
    }
}

pub open spec fn fields_model(s: Seq<VTableField>) -> Seq<FieldModel> {
    s.map_values(|f: VTableField| f@)
}

impl View for VTable {
    type V = VTableModel;

    open spec fn view(&self) -> VTableModel {
        VTableModel {
            vis: self.vis@,
            ident: self.ident@,
            trait_ident: self.trait_ident@,
            generics: params_model(self.generics@),
            fields: fields_model(self.fields@),
        }
    }
}

/// A method whose receiver the erasure model cannot carry.
pub struct LayoutError {
    /// The position of the method among the interface's methods.
    pub method_index: usize,
}

/// The name of the erased form of a receiver.
pub open spec fn erased_wrapper(k: Receiver) -> Seq<char> {
    match k {
        Receiver::Ref => "CRef"@,
        Receiver::RefMut => "CRefMut"@,
        _ => "CRepr"@,
    }
}

pub open spec fn single_path(ident: Seq<char>, args: Seq<ArgModel>) -> TypeModel {
    TypeModel::Path(seq![SegmentModel { ident, args }])
}

/// The erased form of a receiver: `CRef<S>`, `CRefMut<S>` or `CRepr<S>`.
pub open spec fn erased_receiver(k: Receiver, self_ty: TypeModel) -> TypeModel {
    single_path(erased_wrapper(k), seq![ArgModel::Type(self_ty)])
}

/// The type a method input takes in a table slot: receivers are erased,
/// other inputs keep their type.
pub open spec fn erased_input(i: InputModel, self_ty: TypeModel) -> TypeModel {
    match i {
        InputModel::Receiver(k) => erased_receiver(k, self_ty),
        InputModel::Typed(_, ty) => ty,
    }
}

pub open spec fn erased_inputs(s: Seq<InputModel>, self_ty: TypeModel) -> Seq<TypeModel> {
    s.map_values(|i: InputModel| erased_input(i, self_ty))
}

pub open spec fn input_supported(i: InputModel) -> bool {
    i != InputModel::Receiver(Receiver::Unsupported)
}

pub open spec fn method_supported(m: MethodModel) -> bool {
    forall|k: int| 0 <= k < m.inputs.len() ==> input_supported(#[trigger] m.inputs[k])
}

pub open spec fn self_ty_model() -> TypeModel {
    single_path("Self"@, Seq::empty())
}

pub open spec fn method_field(m: MethodModel) -> FieldModel {
    FieldModel {
        attrs: m.attrs,
        name: m.name,
        kind: FieldKindModel::Method(erased_inputs(m.inputs, self_ty_model()), m.output),
    }
}

pub open spec fn super_field(s: SuperModel) -> FieldModel {
    FieldModel {
        attrs: Seq::empty(),
        name: s.field_ident,
        kind: FieldKindModel::SuperRef(s.vtable_ident, s.generics),
    }
}

/// The drop slot's one input: the owning erased wrapper, `CRepr<Self>`.
pub open spec fn drop_slot_input() -> TypeModel {
    erased_receiver(Receiver::Owned, self_ty_model())
}

pub open spec fn drop_field() -> FieldModel {
    FieldModel { attrs: Seq::empty(), name: "drop"@, kind: FieldKindModel::Drop(drop_slot_input()) }
}

/// The fields of a table: one slot per method in declaration order, one
/// reference per real super-interface in declaration order, the drop slot.
pub open spec fn layout_fields(methods: Seq<MethodModel>, supers: Seq<SuperModel>) -> Seq<FieldModel> {
    methods.map_values(|m: MethodModel| method_field(m)) + supers.map_values(
        |s: SuperModel| super_field(s),
    ) + seq![drop_field()]
}

/// Whether a parameter name is a type argument of a real super-interface.
pub open spec fn used_by_supers(name: Seq<char>, supers: Seq<SuperModel>) -> bool {
    exists|k: int| 0 <= k < supers.len() && (#[trigger] supers[k]).generics.contains(name)
}

pub open spec fn static_bound() -> BoundModel {
    BoundModel::Lifetime("static"@)
}

/// A type parameter used in a super-interface's table reference gains a
/// `'static` bound, unless it has one.
pub open spec fn static_param(p: ParamModel, supers: Seq<SuperModel>) -> ParamModel {
    match p {
        ParamModel::Type(name, bounds) => if used_by_supers(name, supers) && !bounds.contains(
            static_bound(),
        ) {
            ParamModel::Type(name, bounds.push(static_bound()))
        } else {
            p
        },
        _ => p,
    }
}

pub open spec fn layout_of(i: crate::model::InterfaceModel, supers: Seq<SuperModel>) -> VTableModel {
    VTableModel {
        vis: i.vis,
        ident: vtable_ident_of(i.ident),
        trait_ident: i.ident,
        generics: i.generics.map_values(|p: ParamModel| static_param(p, supers)),
        fields: layout_fields(i.methods, supers),
    }
}

/// A one-segment path `ident<args>`.
pub fn make_single_path(ident: String, args: Vec<GenericArg>) -> (r: TypeExpr)
    ensures
        r@ == single_path(ident@, args_model(args@)),
{
    let ghost iv = ident@;
    let ghost av = args_model(args@);
    let segments = vec![PathSegment { ident, args }];
    proof {
        lemma_segments_model(segments@);
        assert(segments_model(segments@) =~= seq![SegmentModel { ident: iv, args: av }]);
    }
    TypeExpr::Path { segments }
}

/// The erased form of a receiver over the given self type.
pub fn erase_receiver(k: Receiver, self_ty: &TypeExpr) -> (r: TypeExpr)
    ensures
        r@ == erased_receiver(k, self_ty@),
{
    let name = match k {
        Receiver::Ref => String::from_str("CRef"),
        Receiver::RefMut => String::from_str("CRefMut"),
        _ => String::from_str("CRepr"),
    };
    let args = vec![GenericArg::Type { ty: copy_type(self_ty) }];
    proof {
        lemma_args_model(args@);
        assert(args_model(args@) =~= seq![ArgModel::Type(self_ty@)]);
    }
    make_single_path(name, args)
}

/// The slot types of a method's inputs, or `None` where a receiver cannot
/// be erased.
pub fn map_inputs(inputs: &Vec<FnInput>, self_ty: &TypeExpr) -> (r: Option<Vec<TypeExpr>>)
    ensures
        r is Some <==> forall|k: int| 0 <= k < inputs@.len() ==> input_supported(#[trigger] inputs@[k]@),
        r matches Some(v) ==> tys_model(v@) == erased_inputs(inputs_model(inputs@), self_ty@),
{
    let mut out: Vec<TypeExpr> = Vec::new();
    let mut i: usize = 0;
    while i < inputs.len()
        invariant
            i <= inputs.len(),
            forall|k: int| 0 <= k < i ==> input_supported(#[trigger] inputs@[k]@),
            tys_model(out@) == erased_inputs(inputs_model(inputs@.subrange(0, i as int)), self_ty@),
        decreases inputs.len() - i,
    {
        let ghost prev = out@;
        match &inputs[i] {
            FnInput::Receiver { kind } => {
                if *kind == Receiver::Unsupported {
                    return None;
                }
                out.push(erase_receiver(*kind, self_ty));
            },
            FnInput::Typed { pat, ty } => {
                out.push(copy_type(ty));
            },
        }
        assert(tys_model(out@) =~= tys_model(prev).push(out@.last()@));
        assert(erased_inputs(inputs_model(inputs@.subrange(0, i + 1)), self_ty@) =~= erased_inputs(
            inputs_model(inputs@.subrange(0, i as int)),
            self_ty@,
        ).push(erased_input(inputs@[i as int]@, self_ty@)));
        i += 1;
    }
    assert(inputs@.subrange(0, inputs.len() as int) =~= inputs@);
    Some(out)
}

pub fn copy_bound(b: &TypeBound) -> (r: TypeBound)
    ensures
        r@ == b@,
{
    match b {
        TypeBound::Lifetime { name } => TypeBound::Lifetime { name: copy_str(name) },
        TypeBound::Trait { path } => TypeBound::Trait { path: copy_segments(path) },
        TypeBound::Verbatim { text } => TypeBound::Verbatim { text: copy_str(text) },
    }
}

/// A copy of a list of bounds, ending in `'static` where `add_static` holds
/// and no bound among them is `'static` already.
pub fn copy_bounds(v: &Vec<TypeBound>, add_static: bool) -> (r: Vec<TypeBound>)
    ensures
        bounds_model(r@) == if add_static && !bounds_model(v@).contains(static_bound()) {
            bounds_model(v@).push(static_bound())
        } else {
            bounds_model(v@)
        },
{
    let mut out: Vec<TypeBound> = Vec::new();
    let mut has_static = false;
    let mut i: usize = 0;
    while i < v.len()
        invariant
            i <= v.len(),
            bounds_model(out@) == bounds_model(v@.subrange(0, i as int)),
            has_static == bounds_model(v@.subrange(0, i as int)).contains(static_bound()),
        decreases v.len() - i,
    {
        let ghost prev = out@;
        let b = copy_bound(&v[i]);
        if let TypeBound::Lifetime { name } = &v[i] {
            let st = String::from_str("static");
            if *name == st {
                has_static = true;
            }
        }
        out.push(b);
        assert(bounds_model(out@) =~= bounds_model(prev).push(v@[i as int]@));
        assert(bounds_model(v@.subrange(0, i + 1)) =~= bounds_model(v@.subrange(0, i as int)).push(
            v@[i as int]@,
        ));
        proof {
            lemma_push_contains(bounds_model(v@.subrange(0, i as int)), v@[i as int]@, static_bound());
        }
        i += 1;
    }
    assert(v@.subrange(0, v.len() as int) =~= v@);
    if add_static && !has_static {
        let ghost prev = out@;
        out.push(TypeBound::Lifetime { name: String::from_str("static") });
        assert(bounds_model(out@) =~= bounds_model(prev).push(static_bound()));
    }
    out
}

/// Whether `name` is a type argument of one of the real super-interfaces.
pub fn is_used_by_supers(name: &String, supers: &Vec<SuperTrait>) -> (r: bool)
    ensures
        r == used_by_supers(name@, supers_model(supers@)),
{
    let mut i: usize = 0;
    while i < supers.len()
        invariant
            i <= supers.len(),
            forall|k: int| 0 <= k < i ==> !(#[trigger] supers_model(supers@)[k]).generics.contains(name@),
        decreases supers.len() - i,
    {
        if contains_str(&supers[i].generics, name) {
            assert(supers_model(supers@)[i as int].generics.contains(name@));
            return true;
        }
        i += 1;
    }
    false
}

/// A copy of a generic parameter, with `static_param` applied.
pub fn copy_param_static(p: &GenericParam, supers: &Vec<SuperTrait>) -> (r: GenericParam)
    ensures
        r@ == static_param(p@, supers_model(supers@)),
{
    match p {
        GenericParam::Lifetime { name, outlives } => GenericParam::Lifetime {
            name: copy_str(name),
            outlives: copy_strs(outlives),
        },
        GenericParam::Type { name, bounds } => {
            let used = is_used_by_supers(name, supers);
            GenericParam::Type { name: copy_str(name), bounds: copy_bounds(bounds, used) }
        },
        GenericParam::Const { name, ty } => GenericParam::Const {
            name: copy_str(name),
            ty: copy_type(ty),
        },
    }
}

/// The table field for a method, with its receiver erased over `Self`.
fn method_field_exec(m: &crate::model::MethodSig, self_ty: &TypeExpr) -> (r: Option<VTableField>)
    requires
        self_ty@ == self_ty_model(),
    ensures
        r is Some <==> method_supported(m@),
        r matches Some(f) ==> f@ == method_field(m@),
{
    match map_inputs(&m.inputs, self_ty) {
        None => {
            assert(!method_supported(m@)) by {
                let k = choose|k: int| 0 <= k < m.inputs@.len() && !input_supported(#[trigger] m.inputs@[k]@);
                assert(m@.inputs[k] == m.inputs@[k]@);
            }
            None
        },
        Some(inputs) => {
            assert(method_supported(m@)) by {
                assert forall|k: int| 0 <= k < m@.inputs.len() implies input_supported(#[trigger] m@.inputs[k]) by {
                    assert(m@.inputs[k] == m.inputs@[k]@);
                }
            }
            let output = match &m.output {
                Some(t) => Some(copy_type(t)),
                None => None,
            };
            Some(VTableField { attrs: copy_strs(&m.attrs), name: copy_str(&m.name), kind: FieldKind::Method { inputs, output } })
        },
    }
}

/// Synthesizes the table type of an interface whose real super-interfaces
/// are `super_traits`: the method slots in declaration order, then one
/// reference per real super-interface, then the drop slot.
pub fn create_vtable(input: &InterfaceDef, super_traits: &Vec<SuperTrait>) -> (r: Result<VTable, LayoutError>)
    ensures
        r is Ok <==> forall|k: int| 0 <= k < input@.methods.len() ==> method_supported(#[trigger] input@.methods[k]),
        r matches Ok(v) ==> v@ == layout_of(input@, supers_model(super_traits@)),
        r matches Err(e) ==> e.method_index < input@.methods.len() && !method_supported(input@.methods[e.method_index as int])
            && forall|k: int| 0 <= k < e.method_index ==> method_supported(#[trigger] input@.methods[k]),
{
    let ghost supers = supers_model(super_traits@);
    let self_ty = make_single_path(String::from_str("Self"), Vec::new());
    proof {
        lemma_args_model(Seq::<GenericArg>::empty());
        assert(args_model(Seq::<GenericArg>::empty()) =~= Seq::<ArgModel>::empty());
    }
    let mut fields: Vec<VTableField> = Vec::new();
    let mut i: usize = 0;
    while i < input.methods.len()
        invariant
            i <= input.methods.len(),
            self_ty@ == self_ty_model(),
            forall|k: int| 0 <= k < i ==> method_supported(#[trigger] input@.methods[k]),
            fields_model(fields@) == input@.methods.subrange(0, i as int).map_values(|m: MethodModel| method_field(m)),
        decreases input.methods.len() - i,
    {
        let ghost prev = fields@;
        match method_field_exec(&input.methods[i], &self_ty) {
            None => {
                return Err(LayoutError { method_index: i });
            },
            Some(f) => {
                fields.push(f);
            },
        }
        assert(fields_model(fields@) =~= fields_model(prev).push(method_field(input@.methods[i as int])));
        assert(input@.methods.subrange(0, i + 1).map_values(|m: MethodModel| method_field(m)) =~=
            input@.methods.subrange(0, i as int).map_values(|m: MethodModel| method_field(m)).push(method_field(input@.methods[i as int])));
        i += 1;
    }
    assert(input@.methods.subrange(0, input.methods.len() as int) =~= input@.methods);
    let ghost method_part = fields@;
    let mut j: usize = 0;
    while j < super_traits.len()
        invariant
            j <= super_traits.len(),
            supers == supers_model(super_traits@),
            fields_model(fields@) == input@.methods.map_values(|m: MethodModel| method_field(m))
                + supers.subrange(0, j as int).map_values(|s: SuperModel| super_field(s)),
        decreases super_traits.len() - j,
    {
        let ghost prev = fields@;
        let s = &super_traits[j];
        fields.push(VTableField {
            attrs: Vec::new(),
            name: copy_str(&s.field_ident),
            kind: FieldKind::SuperRef { vtable_ident: copy_str(&s.vtable_ident), generics: copy_strs(&s.generics) },
        });
        proof {
            lemma_strs(Seq::<String>::empty());
        }
        assert(fields_model(fields@) =~= fields_model(prev).push(super_field(supers[j as int])));
        assert(supers.subrange(0, j + 1).map_values(|s: SuperModel| super_field(s)) =~=
            supers.subrange(0, j as int).map_values(|s: SuperModel| super_field(s)).push(super_field(supers[j as int])));
        j += 1;
    }
    assert(supers.subrange(0, super_traits.len() as int) =~= supers);
    let ghost prev = fields@;
    let drop_input = erase_receiver(Receiver::Owned, &self_ty);
    fields.push(VTableField { attrs: Vec::new(), name: String::from_str("drop"), kind: FieldKind::Drop { input: drop_input } });
    proof {
        lemma_strs(Seq::<String>::empty());
    }
    assert(fields_model(fields@) =~= fields_model(prev).push(drop_field()));
    assert(fields_model(fields@) =~= layout_fields(input@.methods, supers));
    let mut generics: Vec<GenericParam> = Vec::new();
    let mut g: usize = 0;
    while g < input.generics.len()
        invariant
            g <= input.generics.len(),
            supers == supers_model(super_traits@),
            params_model(generics@) == input@.generics.subrange(0, g as int).map_values(|p: ParamModel| static_param(p, supers)),
        decreases input.generics.len() - g,
    {
        let ghost prev = generics@;
        generics.push(copy_param_static(&input.generics[g], super_traits));
        assert(params_model(generics@) =~= params_model(prev).push(static_param(input@.generics[g as int], supers)));
        assert(input@.generics.subrange(0, g + 1).map_values(|p: ParamModel| static_param(p, supers)) =~=
            input@.generics.subrange(0, g as int).map_values(|p: ParamModel| static_param(p, supers)).push(static_param(input@.generics[g as int], supers)));
        g += 1;
    }
    assert(input@.generics.subrange(0, input.generics.len() as int) =~= input@.generics);
    Ok(VTable {
        vis: copy_str(&input.vis),
        ident: map_vtable_ident(&input.ident),
        trait_ident: copy_str(&input.ident),
        generics,
        fields,
    })
}

} // verus!
