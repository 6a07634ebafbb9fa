//! Trampolines and the cached table constructor of an interface.
//!
//! A trampoline has the exact signature of its table slot. It is generic
//! over a concrete payload type `GEN`, reads the opaque payload back as a
//! `GEN` according to the receiver kind and calls `GEN`'s implementation.
//! The constructor fills a table with the trampolines for one `GEN` and the
//! super-interface tables of the same `GEN`, once per process.
use vstd::prelude::*;
use crate::model::{
    args_model, bounds_model, copy_str, copy_strs, lemma_args_model, params_model, strs, ArgModel,
    BoundModel, FnInput, GenericArg, GenericParam, InputModel, InterfaceDef, MethodModel, MethodSig,
    ParamModel, Receiver, TypeBound, TypeExpr, TypeModel,
};
use crate::names::{map_method_ident, method_ident_of};
use crate::super_trait::{type_param_idents, type_param_names};
use crate::types::{copy_type, map_ty, map_ty_generics, rename_ty, rename_ty_args};
use crate::vtable::{
    copy_bounds, erased_inputs, fields_model, make_single_path, map_inputs, method_supported,
    single_path, static_bound, tys_model, FieldKind, FieldKindModel, FieldModel, VTable,
};

verus! {

/// How a trampoline hands one of its inputs to the concrete method.
#[derive(PartialEq, Eq, Structural, Clone, Copy, Debug)]
pub enum PassArg {
    /// The payload, read as `&GEN`.
    Shared,
    /// The payload, read as `&mut GEN`.
    Exclusive,
    /// The payload, taken back from its heap allocation as a `GEN`.
    Owned,
    /// The input itself, unchanged.
    Value,
}

/// The trampoline of one method.
pub struct Trampoline {
    pub name: String,
    /// The slot's input types, over the renamed parameters.
    pub inputs: Vec<TypeExpr>,
    /// How each input reaches the concrete method, in the same order.
    pub pass: Vec<PassArg>,
    pub output: Option<TypeExpr>,
}

/// A super-interface field of the table, filled with the table that the
/// super-interface's constructor builds for the same concrete type.
pub struct SuperInit {
    pub field_ident: String,
    pub vtable_ident: String,
}

/// The inherent impl on a table type: the owning-wrapper factory
/// `new_boxed` and the cached constructor `create_vtable`.
pub struct VTableMethods {
    pub trait_ident: String,
    pub vtable_ident: String,
    /// The interface's parameters, every type parameter bounded by `'static`.
    pub impl_generics: Vec<GenericParam>,
    /// The interface's parameters as arguments (`T`, `'a`).
    pub type_args: Vec<GenericArg>,
    /// The renamed parameters that every trampoline declares.
    pub trampoline_generics: Vec<GenericParam>,
    /// The renamed parameters as arguments.
    pub trampoline_args: Vec<GenericArg>,
    pub trampolines: Vec<Trampoline>,
    pub super_inits: Vec<SuperInit>,
}

pub struct TrampolineModel {
    pub name: Seq<char>,
    pub inputs: Seq<TypeModel>,
    pub pass: Seq<PassArg>,
    pub output: Option<TypeModel>,
}

pub struct SuperInitModel {
    pub field_ident: Seq<char>,
    pub vtable_ident: Seq<char>,
}

pub struct VTableMethodsModel {
    pub trait_ident: Seq<char>,
    pub vtable_ident: Seq<char>,
    pub impl_generics: Seq<ParamModel>,
    pub type_args: Seq<ArgModel>,
    pub trampoline_generics: Seq<ParamModel>,
    pub trampoline_args: Seq<ArgModel>,
    pub trampolines: Seq<TrampolineModel>,
    pub super_inits: Seq<SuperInitModel>,
}

pub open spec fn opt_ty(o: Option<TypeExpr>) -> Option<TypeModel> {
    match o {
        Some(t) => Some(t@),
        None => None,
    }
}

impl View for Trampoline {
    type V = TrampolineModel;

    open spec fn view(&self) -> TrampolineModel {
        TrampolineModel {
            name: self.name@,
            inputs: tys_model(self.inputs@),
            pass: self.pass@,
            output: opt_ty(self.output),
        }
    }
}

impl View for SuperInit {
    type V = SuperInitModel;

    open spec fn view(&self) -> SuperInitModel {
        SuperInitModel { field_ident: self.field_ident@, vtable_ident: self.vtable_ident@ }
    }
}

impl View for VTableMethods {
    type V = VTableMethodsModel;

    open spec fn view(&self) -> VTableMethodsModel {
        VTableMethodsModel {
            trait_ident: self.trait_ident@,
            vtable_ident: self.vtable_ident@,
            impl_generics: params_model(self.impl_generics@),
            type_args: args_model(self.type_args@),
            trampoline_generics: params_model(self.trampoline_generics@),
            trampoline_args: args_model(self.trampoline_args@),
            trampolines: self.trampolines@.map_values(|t: Trampoline| t@),
            super_inits: self.super_inits@.map_values(|s: SuperInit| s@),
        }
    }
}

/// Every type parameter bounded by `'static`.
pub open spec fn static_all(p: ParamModel) -> ParamModel {
    match p {
        ParamModel::Type(n, b) => if b.contains(static_bound()) {
            p
        } else {
            ParamModel::Type(n, b.push(static_bound()))
        },
        _ => p,
    }
}

/// A lifetime inside a trampoline: renamed, but for `'static`.
pub open spec fn rename_lifetime(n: Seq<char>) -> Seq<char> {
    if n == "static"@ {
        n
    } else {
        method_ident_of(n)
    }
}

pub open spec fn rename_bound(b: BoundModel) -> BoundModel {
    match b {
        BoundModel::Lifetime(l) => BoundModel::Lifetime(rename_lifetime(l)),
        _ => b,
    }
}

/// A parameter as a trampoline declares it.
pub open spec fn rename_param(p: ParamModel) -> ParamModel {
    match p {
        ParamModel::Lifetime(n, outs) => ParamModel::Lifetime(
            rename_lifetime(n),
            outs.map_values(|o: Seq<char>| rename_lifetime(o)),
        ),
        ParamModel::Type(n, b) => ParamModel::Type(
            method_ident_of(n),
            b.map_values(|x: BoundModel| rename_bound(x)),
        ),
        ParamModel::Const(n, t) => ParamModel::Const(method_ident_of(n), t),
    }
}

/// A parameter used as an argument.
pub open spec fn param_arg(p: ParamModel) -> ArgModel {
    match p {
        ParamModel::Lifetime(n, _) => ArgModel::Lifetime(n),
        ParamModel::Type(n, _) => ArgModel::Type(single_path(n, Seq::empty())),
        ParamModel::Const(n, _) => ArgModel::Type(single_path(n, Seq::empty())),
    }
}

pub open spec fn pass_of(i: InputModel) -> PassArg {
    match i {
        InputModel::Receiver(Receiver::Ref) => PassArg::Shared,
        InputModel::Receiver(Receiver::RefMut) => PassArg::Exclusive,
        InputModel::Receiver(Receiver::Owned) => PassArg::Owned,
        _ => PassArg::Value,
    }
}

/// The trampoline of method `m`, whose slot takes `self_ty` erased and
/// whose interface has the type parameters `params`.
pub open spec fn trampoline_of(m: MethodModel, self_ty: TypeModel, params: Seq<Seq<char>>) -> TrampolineModel {
    TrampolineModel {
        name: m.name,
        inputs: erased_inputs(m.inputs, self_ty).map_values(|t: TypeModel| rename_ty(t, params)),
        pass: m.inputs.map_values(|i: InputModel| pass_of(i)),
        output: match m.output {
            Some(t) => Some(rename_ty_args(rename_ty(t, params), params)),
            None => None,
        },
    }
}

/// The super-interface fields of a table, in order.
pub open spec fn super_inits_of(fields: Seq<FieldModel>) -> Seq<SuperInitModel>
    decreases fields.len(),
{
    if fields.len() == 0 {
        Seq::empty()
    } else {
        let rest = super_inits_of(fields.drop_last());
        match fields.last().kind {
            FieldKindModel::SuperRef(v, _) => rest.push(
                SuperInitModel { field_ident: fields.last().name, vtable_ident: v },
            ),
            _ => rest,
        }
    }
}

pub open spec fn methods_of(i: crate::model::InterfaceModel, v: crate::vtable::VTableModel) -> VTableMethodsModel {
    let renamed = i.generics.map_values(|p: ParamModel| rename_param(p));
    let targs = renamed.map_values(|p: ParamModel| param_arg(p));
    let self_ty = single_path(v.ident, targs);
    VTableMethodsModel {
        trait_ident: i.ident,
        vtable_ident: v.ident,
        impl_generics: i.generics.map_values(|p: ParamModel| static_all(p)),
        type_args: i.generics.map_values(|p: ParamModel| param_arg(p)),
        trampoline_generics: renamed,
        trampoline_args: targs,
        trampolines: i.methods.map_values(
            |m: MethodModel| trampoline_of(m, self_ty, type_param_names(i.generics)),
        ),
        super_inits: super_inits_of(v.fields),
    }
}

fn rename_lifetime_exec(n: &String) -> (r: String)
    ensures
        r@ == rename_lifetime(n@),
{
    let st = String::from_str("static");
    if *n == st {
        copy_str(n)
    } else {
        map_method_ident(n)
    }
}

/// A parameter renamed as a trampoline declares it.
pub fn map_generics_ident(p: &GenericParam) -> (r: GenericParam)
    ensures
        r@ == rename_param(p@),
{
    match p {
        GenericParam::Lifetime { name, outlives } => {
            let mut outs: Vec<String> = Vec::new();
            let mut i: usize = 0;
            proof {
                crate::model::lemma_strs(outlives@);
            }
            while i < outlives.len()
                invariant
                    i <= outlives.len(),
                    strs(outlives@).len() == outlives.len(),
                    forall|k: int| 0 <= k < outlives.len() ==> #[trigger] strs(outlives@)[k] == outlives@[k]@,
                    strs(outs@) == strs(outlives@).subrange(0, i as int).map_values(|o: Seq<char>| rename_lifetime(o)),
                decreases outlives.len() - i,
            {
                let ghost prev = outs@;
                outs.push(rename_lifetime_exec(&outlives[i]));
                assert(outs@.drop_last() =~= prev);
                assert(strs(outlives@).subrange(0, i + 1).map_values(|o: Seq<char>| rename_lifetime(o)) =~=
                    strs(outlives@).subrange(0, i as int).map_values(|o: Seq<char>| rename_lifetime(o)).push(rename_lifetime(outlives@[i as int]@)));
                i += 1;
            }
            assert(strs(outlives@).subrange(0, outlives.len() as int) =~= strs(outlives@));
            GenericParam::Lifetime { name: rename_lifetime_exec(name), outlives: outs }
        },
        GenericParam::Type { name, bounds } => {
            let mut bs: Vec<TypeBound> = Vec::new();
            let mut i: usize = 0;
            while i < bounds.len()
                invariant
                    i <= bounds.len(),
                    bounds_model(bs@) == bounds_model(bounds@).subrange(0, i as int).map_values(|x: BoundModel| rename_bound(x)),
                decreases bounds.len() - i,
            {
                let ghost prev = bs@;
                let b = match &bounds[i] {
                    TypeBound::Lifetime { name } => TypeBound::Lifetime { name: rename_lifetime_exec(name) },
                    other => crate::vtable::copy_bound(other),
                };
                bs.push(b);
                assert(bounds_model(bs@) =~= bounds_model(prev).push(rename_bound(bounds@[i as int]@)));
                assert(bounds_model(bounds@).subrange(0, i + 1).map_values(|x: BoundModel| rename_bound(x)) =~=
                    bounds_model(bounds@).subrange(0, i as int).map_values(|x: BoundModel| rename_bound(x)).push(rename_bound(bounds@[i as int]@)));
                i += 1;
            }
            assert(bounds_model(bounds@).subrange(0, bounds.len() as int) =~= bounds_model(bounds@));
            GenericParam::Type { name: map_method_ident(name), bounds: bs }
        },
        GenericParam::Const { name, ty } => GenericParam::Const {
            name: map_method_ident(name),
            ty: copy_type(ty),
        },
    }
}

pub fn param_arg_exec(p: &GenericParam) -> (r: GenericArg)
    ensures
        r@ == param_arg(p@),
{
    proof {
        lemma_args_model(Seq::<GenericArg>::empty());
        assert(args_model(Seq::<GenericArg>::empty()) =~= Seq::<ArgModel>::empty());
    }
    match p {
        GenericParam::Lifetime { name, .. } => GenericArg::Lifetime { name: copy_str(name) },
        GenericParam::Type { name, .. } => GenericArg::Type {
            ty: make_single_path(copy_str(name), Vec::new()),
        },
        GenericParam::Const { name, .. } => GenericArg::Type {
            ty: make_single_path(copy_str(name), Vec::new()),
        },
    }
}

fn static_all_exec(p: &GenericParam) -> (r: GenericParam)
    ensures
        r@ == static_all(p@),
{
    match p {
        GenericParam::Type { name, bounds } => GenericParam::Type {
            name: copy_str(name),
            bounds: copy_bounds(bounds, true),
        },
        GenericParam::Lifetime { name, outlives } => GenericParam::Lifetime {
            name: copy_str(name),
            outlives: copy_strs(outlives),
        },
        GenericParam::Const { name, ty } => GenericParam::Const {
            name: copy_str(name),
            ty: copy_type(ty),
        },
    }
}

fn pass_of_exec(i: &FnInput) -> (r: PassArg)
    ensures
        r == pass_of(i@),
{
    match i {
        FnInput::Receiver { kind: Receiver::Ref } => PassArg::Shared,
        FnInput::Receiver { kind: Receiver::RefMut } => PassArg::Exclusive,
        FnInput::Receiver { kind: Receiver::Owned } => PassArg::Owned,
        _ => PassArg::Value,
    }
}

fn trampoline_exec(m: &MethodSig, self_ty: &TypeExpr, params: &Vec<String>) -> (r: Trampoline)
    requires
        method_supported(m@),
    ensures
        r@ == trampoline_of(m@, self_ty@, strs(params@)),
{
    let ghost ps = strs(params@);
    let erased = match map_inputs(&m.inputs, self_ty) {
        Some(v) => v,
        None => {
            assert(false) by {
                let k = choose|k: int| 0 <= k < m.inputs@.len() && !crate::vtable::input_supported(#[trigger] m.inputs@[k]@);
                assert(m@.inputs[k] == m.inputs@[k]@);
            }
            Vec::new()
        },
    };
    let ghost em = erased_inputs(m@.inputs, self_ty@);
    let mut inputs: Vec<TypeExpr> = Vec::new();
    let mut pass: Vec<PassArg> = Vec::new();
    let mut i: usize = 0;
    assert(tys_model(erased@).len() == erased@.len());
    while i < erased.len()
        invariant
            i <= erased.len(),
            tys_model(erased@) == em,
            ps == strs(params@),
            em.len() == m@.inputs.len(),
            m@.inputs.len() == m.inputs.len(),
            tys_model(inputs@) == em.subrange(0, i as int).map_values(|t: TypeModel| rename_ty(t, ps)),
            pass@ == m@.inputs.subrange(0, i as int).map_values(|x: InputModel| pass_of(x)),
        decreases erased.len() - i,
    {
        let ghost prev = inputs@;
        let ghost prevp = pass@;
        assert(em[i as int] == erased@[i as int]@);
        let t = map_ty(&erased[i], params);
        assert(t@ == rename_ty(em[i as int], ps));
        inputs.push(t);
        pass.push(pass_of_exec(&m.inputs[i]));
        assert(m@.inputs[i as int] == m.inputs@[i as int]@);
        assert(tys_model(inputs@) =~= tys_model(prev).push(rename_ty(em[i as int], ps)));
        assert(em.subrange(0, i + 1).map_values(|t: TypeModel| rename_ty(t, ps)) =~=
            em.subrange(0, i as int).map_values(|t: TypeModel| rename_ty(t, ps)).push(rename_ty(em[i as int], ps)));
        assert(m@.inputs.subrange(0, i + 1).map_values(|x: InputModel| pass_of(x)) =~=
            m@.inputs.subrange(0, i as int).map_values(|x: InputModel| pass_of(x)).push(pass_of(m@.inputs[i as int])));
        i += 1;
    }
    assert(em.subrange(0, erased.len() as int) =~= em);
    assert(m@.inputs.subrange(0, erased.len() as int) =~= m@.inputs);
    let output = match &m.output {
        Some(t) => {
            let renamed = map_ty(t, params);
            Some(map_ty_generics(&renamed, params))
        },
        None => None,
    };
    Trampoline { name: copy_str(&m.name), inputs, pass, output }
}

/// The super-interface fields of a table.
fn super_inits_exec(vtable: &VTable) -> (r: Vec<SuperInit>)
    ensures
        r@.map_values(|s: SuperInit| s@) == super_inits_of(vtable@.fields),
{
    let ghost fm = fields_model(vtable.fields@);
    let mut r: Vec<SuperInit> = Vec::new();
    let mut i: usize = 0;
    while i < vtable.fields.len()
        invariant
            i <= vtable.fields.len(),
            fm == vtable@.fields,
            r@.map_values(|s: SuperInit| s@) == super_inits_of(fm.subrange(0, i as int)),
        decreases vtable.fields.len() - i,
    {
        let ghost prev = r@;
        assert(fm.subrange(0, i + 1).drop_last() =~= fm.subrange(0, i as int));
        let f = &vtable.fields[i];
        if let FieldKind::SuperRef { vtable_ident, .. } = &f.kind {
            r.push(SuperInit { field_ident: copy_str(&f.name), vtable_ident: copy_str(vtable_ident) });
            assert(r@.map_values(|s: SuperInit| s@) =~= prev.map_values(|s: SuperInit| s@).push(r@.last()@));
        }
        i += 1;
    }
    assert(fm.subrange(0, vtable.fields.len() as int) =~= fm);
    r
}

/// The trampolines and the cached constructor for the table `vtable` of
/// the interface `input`, every method of which has an erasable receiver.
pub fn impl_vtable_methods(input: &InterfaceDef, vtable: &VTable) -> (r: VTableMethods)
    requires
        forall|k: int| 0 <= k < input@.methods.len() ==> method_supported(#[trigger] input@.methods[k]),
    ensures
        r@ == methods_of(input@, vtable@),
{
    let ghost gm = input@.generics;
    let mut impl_generics: Vec<GenericParam> = Vec::new();
    let mut type_args: Vec<GenericArg> = Vec::new();
    let mut tgen: Vec<GenericParam> = Vec::new();
    let mut targs: Vec<GenericArg> = Vec::new();
    let mut i: usize = 0;
    proof {
        lemma_args_model(Seq::<GenericArg>::empty());
    }
    while i < input.generics.len()
        invariant
            i <= input.generics.len(),
            gm == input@.generics,
            params_model(impl_generics@) == gm.subrange(0, i as int).map_values(|p: ParamModel| static_all(p)),
            args_model(type_args@) == gm.subrange(0, i as int).map_values(|p: ParamModel| param_arg(p)),
            params_model(tgen@) == gm.subrange(0, i as int).map_values(|p: ParamModel| rename_param(p)),
            args_model(targs@) == gm.subrange(0, i as int).map_values(|p: ParamModel| rename_param(p)).map_values(|p: ParamModel| param_arg(p)),
        decreases input.generics.len() - i,
    {
        let p = &input.generics[i];
        let ghost pm = gm[i as int];
        assert(pm == p@);
        let ghost (a, b, c, d) = (impl_generics@, type_args@, tgen@, targs@);
        impl_generics.push(static_all_exec(p));
        type_args.push(param_arg_exec(p));
        let renamed = map_generics_ident(p);
        targs.push(param_arg_exec(&renamed));
        tgen.push(renamed);
        assert(params_model(impl_generics@) =~= params_model(a).push(static_all(pm)));
        assert(type_args@.drop_last() =~= b);
        assert(params_model(tgen@) =~= params_model(c).push(rename_param(pm)));
        assert(targs@.drop_last() =~= d);
        assert(gm.subrange(0, i + 1).map_values(|p: ParamModel| static_all(p)) =~=
            gm.subrange(0, i as int).map_values(|p: ParamModel| static_all(p)).push(static_all(pm)));
        assert(gm.subrange(0, i + 1).map_values(|p: ParamModel| param_arg(p)) =~=
            gm.subrange(0, i as int).map_values(|p: ParamModel| param_arg(p)).push(param_arg(pm)));
        assert(gm.subrange(0, i + 1).map_values(|p: ParamModel| rename_param(p)) =~=
            gm.subrange(0, i as int).map_values(|p: ParamModel| rename_param(p)).push(rename_param(pm)));
        assert(gm.subrange(0, i + 1).map_values(|p: ParamModel| rename_param(p)).map_values(|p: ParamModel| param_arg(p)) =~=
            gm.subrange(0, i as int).map_values(|p: ParamModel| rename_param(p)).map_values(|p: ParamModel| param_arg(p)).push(param_arg(rename_param(pm))));
        i += 1;
    }
    assert(gm.subrange(0, input.generics.len() as int) =~= gm);
    let ghost renamed_m = gm.map_values(|p: ParamModel| rename_param(p));
    let ghost targs_m = renamed_m.map_values(|p: ParamModel| param_arg(p));
    let self_args = crate::types::copy_args(&targs);
    let self_ty = make_single_path(copy_str(&vtable.ident), self_args);
    let params = type_param_idents(&input.generics);
    let ghost self_m = single_path(vtable@.ident, targs_m);
    assert(self_ty@ == self_m);
    let mut trampolines: Vec<Trampoline> = Vec::new();
    let mut j: usize = 0;
    while j < input.methods.len()
        invariant
            j <= input.methods.len(),
            self_ty@ == self_m,
            strs(params@) == type_param_names(input@.generics),
            forall|k: int| 0 <= k < input@.methods.len() ==> method_supported(#[trigger] input@.methods[k]),
            trampolines@.map_values(|t: Trampoline| t@) == input@.methods.subrange(0, j as int).map_values(
                |m: MethodModel| trampoline_of(m, self_m, type_param_names(input@.generics)),
            ),
        decreases input.methods.len() - j,
    {
        let ghost prev = trampolines@;
        assert(input@.methods[j as int] == input.methods@[j as int]@);
        trampolines.push(trampoline_exec(&input.methods[j], &self_ty, &params));
        assert(trampolines@.map_values(|t: Trampoline| t@) =~= prev.map_values(|t: Trampoline| t@).push(
            trampoline_of(input@.methods[j as int], self_m, type_param_names(input@.generics))));
        assert(input@.methods.subrange(0, j + 1).map_values(|m: MethodModel| trampoline_of(m, self_m, type_param_names(input@.generics))) =~=
            input@.methods.subrange(0, j as int).map_values(|m: MethodModel| trampoline_of(m, self_m, type_param_names(input@.generics))).push(
            trampoline_of(input@.methods[j as int], self_m, type_param_names(input@.generics))));
        j += 1;
    }
    assert(input@.methods.subrange(0, input.methods.len() as int) =~= input@.methods);
    let r = VTableMethods {
        trait_ident: copy_str(&input.ident),
        vtable_ident: copy_str(&vtable.ident),
        impl_generics,
        type_args,
        trampoline_generics: tgen,
        trampoline_args: targs,
        trampolines,
        super_inits: super_inits_exec(vtable),
    };
    assert(r@ =~= methods_of(input@, vtable@));
    r
}

} // verus!
