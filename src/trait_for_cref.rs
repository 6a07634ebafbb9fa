//! The two forwarding strategies through which an erasure wrapper answers
//! the interface again.
//!
//! The direct strategy serves a wrapper whose table is exactly this
//! interface's table. The upcast strategy serves a wrapper over any table
//! that can hand out a reference to this interface's table (a table of a
//! sub-interface): each call first fetches that reference.
use vstd::prelude::*;
use crate::model::{
    args_model, copy_str, copy_strs, inputs_model, params_model, strs, ArgModel, FnInput,
    GenericArg, GenericParam, InputModel, InterfaceDef, InterfaceModel, MethodModel, MethodSig,
    ParamModel, Receiver,
};
use crate::methods::{param_arg, param_arg_exec};
use crate::super_trait::{supers_model, type_param_idents, type_param_names, SuperModel, SuperTrait};
use crate::types::copy_type;
use crate::vtable::{VTable, VTableModel};

verus! {

/// What a forwarding method hands to the table slot for one input.
pub enum ForwardArg {
    /// `self` borrowed as a shared erased reference.
    Shared,
    /// `self` borrowed as an exclusive erased reference.
    Exclusive,
    /// `self` itself, which is the owning erased wrapper.
    Owned,
    /// The input, by its pattern.
    Pattern { pat: String },
    /// A receiver this strategy cannot forward; emitted as a compile error.
    Unsupported,
}

pub enum ForwardArgModel {
    Shared,
    Exclusive,
    Owned,
    Pattern(Seq<char>),
    Unsupported,
}

impl View for ForwardArg {
    type V = ForwardArgModel;

    open spec fn view(&self) -> ForwardArgModel {
        match *self {
            ForwardArg::Shared => ForwardArgModel::Shared,
            ForwardArg::Exclusive => ForwardArgModel::Exclusive,
            ForwardArg::Owned => ForwardArgModel::Owned,
            ForwardArg::Pattern { pat } => ForwardArgModel::Pattern(pat@),
            ForwardArg::Unsupported => ForwardArgModel::Unsupported,
        }
    }
}

/// One method of a forwarding impl: the interface's signature, and what
/// the body passes to the slot.
pub struct ForwardMethod {
    pub sig: MethodSig,
    pub args: Vec<ForwardArg>,
}

pub struct ForwardMethodModel {
    pub sig: MethodModel,
    pub args: Seq<ForwardArgModel>,
}

impl View for ForwardMethod {
    type V = ForwardMethodModel;

    open spec fn view(&self) -> ForwardMethodModel {
        ForwardMethodModel {
            sig: self.sig@,
            args: self.args@.map_values(|a: ForwardArg| a@),
        }
    }
}

/// A super-interface table the upcast strategy asks the wrapper's table for.
pub struct SuperRef {
    pub vtable_ident: String,
    pub generics: Vec<String>,
}

/// `impl<generics> Trait<args> for CRepr<VTable<args>>`.
pub struct DirectImpl {
    pub generics: Vec<GenericParam>,
    pub type_args: Vec<GenericArg>,
    pub trait_ident: String,
    pub vtable_ident: String,
    pub methods: Vec<ForwardMethod>,
}

/// `impl<GEN, generics> Trait<args> for CRepr<GEN> where GEN: AsVTable<..> + ...`.
pub struct UpcastImpl {
    pub generics: Vec<GenericParam>,
    pub type_args: Vec<GenericArg>,
    pub trait_ident: String,
    pub vtable_ident: String,
    /// The tables of the real super-interfaces `GEN` must also hand out.
    pub super_refs: Vec<SuperRef>,
    /// The marker capabilities `GEN` must have.
    pub markers: Vec<String>,
    /// The type parameters, each of which must be `'static`.
    pub static_params: Vec<String>,
    pub methods: Vec<ForwardMethod>,
}

pub struct DirectModel {
    pub generics: Seq<ParamModel>,
    pub type_args: Seq<ArgModel>,
    pub trait_ident: Seq<char>,
    pub vtable_ident: Seq<char>,
    pub methods: Seq<ForwardMethodModel>,
}

pub struct UpcastModel {
    pub generics: Seq<ParamModel>,
    pub type_args: Seq<ArgModel>,
    pub trait_ident: Seq<char>,
    pub vtable_ident: Seq<char>,
    pub super_refs: Seq<(Seq<char>, Seq<Seq<char>>)>,
    pub markers: Seq<Seq<char>>,
    pub static_params: Seq<Seq<char>>,
    pub methods: Seq<ForwardMethodModel>,
}

pub open spec fn forward_methods_model(s: Seq<ForwardMethod>) -> Seq<ForwardMethodModel> {
    s.map_values(|m: ForwardMethod| m@)
}

impl View for DirectImpl {
    type V = DirectModel;

    open spec fn view(&self) -> DirectModel {
        DirectModel {
            generics: params_model(self.generics@),
            type_args: args_model(self.type_args@),
            trait_ident: self.trait_ident@,
            vtable_ident: self.vtable_ident@,
            methods: forward_methods_model(self.methods@),
        }
    }
}

impl View for UpcastImpl {
    type V = UpcastModel;

    open spec fn view(&self) -> UpcastModel {
        UpcastModel {
            generics: params_model(self.generics@),
            type_args: args_model(self.type_args@),
            trait_ident: self.trait_ident@,
            vtable_ident: self.vtable_ident@,
            super_refs: self.super_refs@.map_values(|s: SuperRef| (s.vtable_ident@, strs(s.generics@))),
            markers: strs(self.markers@),
            static_params: strs(self.static_params@),
            methods: forward_methods_model(self.methods@),
        }
    }
}

/// What is passed for an input: receivers by their erased borrow (an owned
/// receiver only in the direct strategy), other inputs by their pattern.
pub open spec fn forward_arg(i: InputModel, upcast: bool) -> ForwardArgModel {
    match i {
        InputModel::Receiver(Receiver::Ref) => ForwardArgModel::Shared,
        InputModel::Receiver(Receiver::RefMut) => ForwardArgModel::Exclusive,
        InputModel::Receiver(Receiver::Owned) => if upcast {
            ForwardArgModel::Unsupported
        } else {
            ForwardArgModel::Owned
        },
        InputModel::Receiver(Receiver::Unsupported) => ForwardArgModel::Unsupported,
        InputModel::Typed(pat, _) => ForwardArgModel::Pattern(pat),
    }
}

pub open spec fn forward_method(m: MethodModel, upcast: bool) -> ForwardMethodModel {
    ForwardMethodModel { sig: m, args: m.inputs.map_values(|i: InputModel| forward_arg(i, upcast)) }
}

pub open spec fn direct_of(i: InterfaceModel, v: VTableModel) -> DirectModel {
    DirectModel {
        generics: i.generics,
        type_args: i.generics.map_values(|p: ParamModel| param_arg(p)),
        trait_ident: i.ident,
        vtable_ident: v.ident,
        methods: i.methods.map_values(|m: MethodModel| forward_method(m, false)),
    }
}

pub open spec fn upcast_of(
    i: InterfaceModel,
    v: VTableModel,
    supers: Seq<SuperModel>,
    markers: Seq<Seq<char>>,
) -> UpcastModel {
    UpcastModel {
        generics: i.generics,
        type_args: i.generics.map_values(|p: ParamModel| param_arg(p)),
        trait_ident: i.ident,
        vtable_ident: v.ident,
        super_refs: supers.map_values(|s: SuperModel| (s.vtable_ident, s.generics)),
        markers,
        static_params: type_param_names(i.generics),
        methods: i.methods.map_values(|m: MethodModel| forward_method(m, true)),
    }
}

pub fn copy_input(i: &FnInput) -> (r: FnInput)
    ensures
        r@ == i@,
{
    match i {
        FnInput::Receiver { kind } => FnInput::Receiver { kind: *kind },
        FnInput::Typed { pat, ty } => FnInput::Typed { pat: copy_str(pat), ty: copy_type(ty) },
    }
}

pub fn copy_method(m: &MethodSig) -> (r: MethodSig)
    ensures
        r@ == m@,
{
    let mut inputs: Vec<FnInput> = Vec::new();
    let mut i: usize = 0;
    while i < m.inputs.len()
        invariant
            i <= m.inputs.len(),
            inputs_model(inputs@) == inputs_model(m.inputs@.subrange(0, i as int)),
        decreases m.inputs.len() - i,
    {
        let ghost prev = inputs@;
        inputs.push(copy_input(&m.inputs[i]));
        assert(inputs_model(inputs@) =~= inputs_model(prev).push(m.inputs@[i as int]@));
        assert(inputs_model(m.inputs@.subrange(0, i + 1)) =~= inputs_model(m.inputs@.subrange(0, i as int)).push(m.inputs@[i as int]@));
        i += 1;
    }
    assert(m.inputs@.subrange(0, m.inputs.len() as int) =~= m.inputs@);
    let output = match &m.output {
        Some(t) => Some(copy_type(t)),
        None => None,
    };
    MethodSig { attrs: copy_strs(&m.attrs), name: copy_str(&m.name), inputs, output }
}

fn forward_arg_exec(i: &FnInput, upcast: bool) -> (r: ForwardArg)
    ensures
        r@ == forward_arg(i@, upcast),
{
    match i {
        FnInput::Receiver { kind: Receiver::Ref } => ForwardArg::Shared,
        FnInput::Receiver { kind: Receiver::RefMut } => ForwardArg::Exclusive,
        FnInput::Receiver { kind: Receiver::Owned } => if upcast {
            ForwardArg::Unsupported
        } else {
            ForwardArg::Owned
        },
        FnInput::Receiver { kind: Receiver::Unsupported } => ForwardArg::Unsupported,
        FnInput::Typed { pat, .. } => ForwardArg::Pattern { pat: copy_str(pat) },
    }
}

fn forward_method_exec(m: &MethodSig, upcast: bool) -> (r: ForwardMethod)
    ensures
        r@ == forward_method(m@, upcast),
{
    let mut args: Vec<ForwardArg> = Vec::new();
    let mut i: usize = 0;
    while i < m.inputs.len()
        invariant
            i <= m.inputs.len(),
            args@.map_values(|a: ForwardArg| a@) == m@.inputs.subrange(0, i as int).map_values(
                |x: InputModel| forward_arg(x, upcast),
            ),
        decreases m.inputs.len() - i,
    {
        let ghost prev = args@;
        args.push(forward_arg_exec(&m.inputs[i], upcast));
        assert(m@.inputs[i as int] == m.inputs@[i as int]@);
        assert(args@.map_values(|a: ForwardArg| a@) =~= prev.map_values(|a: ForwardArg| a@).push(
            forward_arg(m@.inputs[i as int], upcast)));
        assert(m@.inputs.subrange(0, i + 1).map_values(|x: InputModel| forward_arg(x, upcast)) =~=
            m@.inputs.subrange(0, i as int).map_values(|x: InputModel| forward_arg(x, upcast)).push(forward_arg(m@.inputs[i as int], upcast)));
        i += 1;
    }
    assert(m@.inputs.subrange(0, m.inputs.len() as int) =~= m@.inputs);
    ForwardMethod { sig: copy_method(m), args }
}

fn forward_methods(input: &InterfaceDef, upcast: bool) -> (r: Vec<ForwardMethod>)
    ensures
        forward_methods_model(r@) == input@.methods.map_values(|m: MethodModel| forward_method(m, upcast)),
{
    let mut r: Vec<ForwardMethod> = Vec::new();
    let mut i: usize = 0;
    while i < input.methods.len()
        invariant
            i <= input.methods.len(),
            forward_methods_model(r@) == input@.methods.subrange(0, i as int).map_values(
                |m: MethodModel| forward_method(m, upcast),
            ),
        decreases input.methods.len() - i,
    {
        let ghost prev = r@;
        r.push(forward_method_exec(&input.methods[i], upcast));
        assert(input@.methods[i as int] == input.methods@[i as int]@);
        assert(forward_methods_model(r@) =~= forward_methods_model(prev).push(forward_method(input@.methods[i as int], upcast)));
        assert(input@.methods.subrange(0, i + 1).map_values(|m: MethodModel| forward_method(m, upcast)) =~=
            input@.methods.subrange(0, i as int).map_values(|m: MethodModel| forward_method(m, upcast)).push(forward_method(input@.methods[i as int], upcast)));
        i += 1;
    }
    assert(input@.methods.subrange(0, input.methods.len() as int) =~= input@.methods);
    r
}

fn copy_generics_and_args(input: &InterfaceDef) -> (r: (Vec<GenericParam>, Vec<GenericArg>))
    ensures
        params_model(r.0@) == input@.generics,
        args_model(r.1@) == input@.generics.map_values(|p: ParamModel| param_arg(p)),
{
    let mut gs: Vec<GenericParam> = Vec::new();
    let mut args: Vec<GenericArg> = Vec::new();
    let mut i: usize = 0;
    proof {
        crate::model::lemma_args_model(Seq::<GenericArg>::empty());
    }
    while i < input.generics.len()
        invariant
            i <= input.generics.len(),
            params_model(gs@) == input@.generics.subrange(0, i as int),
            args_model(args@) == input@.generics.subrange(0, i as int).map_values(|p: ParamModel| param_arg(p)),
        decreases input.generics.len() - i,
    {
        let ghost (pg, pa) = (gs@, args@);
        let p = copy_param(&input.generics[i]);
        args.push(param_arg_exec(&input.generics[i]));
        gs.push(p);
        assert(params_model(gs@) =~= params_model(pg).push(input@.generics[i as int]));
        assert(args@.drop_last() =~= pa);
        assert(input@.generics.subrange(0, i + 1) =~= input@.generics.subrange(0, i as int).push(input@.generics[i as int]));
        assert(input@.generics.subrange(0, i + 1).map_values(|p: ParamModel| param_arg(p)) =~=
            input@.generics.subrange(0, i as int).map_values(|p: ParamModel| param_arg(p)).push(param_arg(input@.generics[i as int])));
        i += 1;
    }
    assert(input@.generics.subrange(0, input.generics.len() as int) =~= input@.generics);
    (gs, args)
}

/// A copy of a generic parameter.
pub fn copy_param(p: &GenericParam) -> (r: GenericParam)
    ensures
        r@ == p@,
{
    match p {
        GenericParam::Lifetime { name, outlives } => GenericParam::Lifetime {
            name: copy_str(name),
            outlives: copy_strs(outlives),
        },
        GenericParam::Type { name, bounds } => GenericParam::Type {
            name: copy_str(name),
            bounds: crate::vtable::copy_bounds(bounds, false),
        },
        GenericParam::Const { name, ty } => GenericParam::Const {
            name: copy_str(name),
            ty: copy_type(ty),
        },
    }
}

/// The direct strategy: each method calls its slot in the wrapper's own
/// table, with `self` in the erased form its slot expects.
pub fn impl_trait_for_c_ref(input: &InterfaceDef, vtable: &VTable) -> (r: DirectImpl)
    ensures
        r@ == direct_of(input@, vtable@),
{
    let (generics, type_args) = copy_generics_and_args(input);
    let r = DirectImpl {
        generics,
        type_args,
        trait_ident: copy_str(&input.ident),
        vtable_ident: copy_str(&vtable.ident),
        methods: forward_methods(input, false),
    };
    assert(r@ =~= direct_of(input@, vtable@));
    r
}

/// The upcast strategy: for a wrapper over any table that hands out this
/// interface's table (and the tables of its real super-interfaces), each
/// method fetches this interface's table and calls its slot.
pub fn impl_trait_for_c_ref_where_as_vtable(
    input: &InterfaceDef,
    vtable: &VTable,
    super_traits: &Vec<SuperTrait>,
    ignore_bounds: &Vec<String>,
) -> (r: UpcastImpl)
    ensures
        r@ == upcast_of(input@, vtable@, supers_model(super_traits@), strs(ignore_bounds@)),
{
    let (generics, type_args) = copy_generics_and_args(input);
    let ghost sm = supers_model(super_traits@);
    let mut super_refs: Vec<SuperRef> = Vec::new();
    let mut i: usize = 0;
    while i < super_traits.len()
        invariant
            i <= super_traits.len(),
            sm == supers_model(super_traits@),
            super_refs@.map_values(|s: SuperRef| (s.vtable_ident@, strs(s.generics@))) == sm.subrange(0, i as int).map_values(
                |s: SuperModel| (s.vtable_ident, s.generics),
            ),
        decreases super_traits.len() - i,
    {
        let ghost prev = super_refs@;
        let s = &super_traits[i];
        super_refs.push(SuperRef { vtable_ident: copy_str(&s.vtable_ident), generics: copy_strs(&s.generics) });
        assert(super_refs@.map_values(|s: SuperRef| (s.vtable_ident@, strs(s.generics@))) =~=
            prev.map_values(|s: SuperRef| (s.vtable_ident@, strs(s.generics@))).push((sm[i as int].vtable_ident, sm[i as int].generics)));
        assert(sm.subrange(0, i + 1).map_values(|s: SuperModel| (s.vtable_ident, s.generics)) =~=
            sm.subrange(0, i as int).map_values(|s: SuperModel| (s.vtable_ident, s.generics)).push((sm[i as int].vtable_ident, sm[i as int].generics)));
        i += 1;
    }
    assert(sm.subrange(0, super_traits.len() as int) =~= sm);
    let r = UpcastImpl {
        generics,
        type_args,
        trait_ident: copy_str(&input.ident),
        vtable_ident: copy_str(&vtable.ident),
        super_refs,
        markers: copy_strs(ignore_bounds),
        static_params: type_param_idents(&input.generics),
        methods: forward_methods(input, true),
    };
    assert(r@ =~= upcast_of(input@, vtable@, sm, strs(ignore_bounds@)));
    r
}

} // verus!
