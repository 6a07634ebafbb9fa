//! The whole transformation: analysis, layout, accessors, teardown hook,
//! trampolines with the cache, and both forwarding strategies, rendered as
//! Rust source text.
use vstd::prelude::*;
use crate::cdrop::{clear_bounds, impl_cdrop_for_vtable, CDropImpl, CDropModel};
use crate::methods::{impl_vtable_methods, methods_of, VTableMethods, VTableMethodsModel};
use crate::model::{params_model, strs, InterfaceDef, InterfaceModel, ParamModel};
use crate::render::{append_str, join, join_strs, render_vtable, render_vtable_text};
use crate::render_forward::{render_direct, render_direct_text, render_upcast, render_upcast_text};
use crate::render_impls::{
    inst_names, render_as_vtable, render_as_vtable_text, render_cdrop, render_cdrop_text,
    render_methods, render_methods_text,
};
use crate::super_trait::{
    as_vtable_of, as_vtables_model, get_super_traits, impl_as_vtable_for_super_traits,
    malformed_indices, marker_names, real_supers, simple_name_message, AsVTableImpl, AsVTableModel,
    Diagnostic, SuperModel,
};
use crate::trait_for_cref::{
    direct_of, impl_trait_for_c_ref, impl_trait_for_c_ref_where_as_vtable, upcast_of, DirectImpl,
    DirectModel, UpcastImpl, UpcastModel,
};
use crate::vtable::{create_vtable, layout_of, method_supported, LayoutError, VTable, VTableModel};

verus! {

/// Why an interface could not be compiled.
pub enum GenError {
    /// Every super-interface bound that is not a simple name.
    SuperTraits { diagnostics: Vec<Diagnostic> },
    /// The first method whose receiver the erasure model cannot carry.
    Layout { error: LayoutError },
}

/// Everything generated for one interface.
pub struct Expansion {
    pub vtable: VTable,
    pub as_vtable_impls: Vec<AsVTableImpl>,
    pub cdrop: CDropImpl,
    pub methods: VTableMethods,
    pub direct: DirectImpl,
    pub upcast: UpcastImpl,
}

pub struct ExpansionModel {
    pub vtable: VTableModel,
    pub as_vtable_impls: Seq<AsVTableModel>,
    pub cdrop: CDropModel,
    pub methods: VTableMethodsModel,
    pub direct: DirectModel,
    pub upcast: UpcastModel,
}

impl View for Expansion {
    type V = ExpansionModel;

    open spec fn view(&self) -> ExpansionModel {
        ExpansionModel {
            vtable: self.vtable@,
            as_vtable_impls: as_vtables_model(self.as_vtable_impls@),
            cdrop: self.cdrop@,
            methods: self.methods@,
            direct: self.direct@,
            upcast: self.upcast@,
        }
    }
}

/// Whether every super-interface bound is usable.
pub open spec fn supers_well_formed(i: InterfaceModel) -> bool {
    malformed_indices(i.supertraits).len() == 0
}

/// Whether every method has a receiver the erasure model can carry.
pub open spec fn receivers_supported(i: InterfaceModel) -> bool {
    forall|k: int| 0 <= k < i.methods.len() ==> method_supported(#[trigger] i.methods[k])
}

/// What is generated for an interface that compiles.
pub open spec fn expansion_of(i: InterfaceModel) -> ExpansionModel {
    let supers = real_supers(i.supertraits);
    let v = layout_of(i, supers);
    ExpansionModel {
        vtable: v,
        as_vtable_impls: supers.map_values(|s: SuperModel| as_vtable_of(s, v)),
        cdrop: CDropModel {
            generics: v.generics.map_values(|p: ParamModel| clear_bounds(p)),
            vtable_ident: v.ident,
        },
        methods: methods_of(i, v),
        direct: direct_of(i, v),
        upcast: upcast_of(i, v, supers, marker_names(i.supertraits)),
    }
}

/// The source text of everything generated, item after item.
pub open spec fn expansion_text(e: ExpansionModel, generics: Seq<ParamModel>) -> Seq<char> {
    render_vtable_text(e.vtable) + join(
        e.as_vtable_impls.map_values(|a: AsVTableModel| render_as_vtable_text(a)),
        ""@,
    ) + render_cdrop_text(e.cdrop) + render_methods_text(e.methods, inst_names(generics))
        + render_direct_text(e.direct) + render_upcast_text(e.upcast)
}

/// Compiles an interface: every malformed super-interface bound is
/// reported at once; otherwise a receiver that cannot be erased stops the
/// generation; otherwise the full expansion.
pub fn expand_interface(input: &InterfaceDef) -> (r: Result<Expansion, GenError>)
    ensures
        r is Ok <==> supers_well_formed(input@) && receivers_supported(input@),
        r matches Ok(x) ==> x@ == expansion_of(input@),
        r matches Err(GenError::SuperTraits { diagnostics }) ==> !supers_well_formed(input@)
            && diagnostics@.len() == malformed_indices(input@.supertraits).len()
            && forall|k: int| 0 <= k < diagnostics@.len() ==> (#[trigger] diagnostics@[k]).bound_index as int
                == malformed_indices(input@.supertraits)[k] && diagnostics@[k].message@ == simple_name_message(),
        r matches Err(GenError::Layout { error }) ==> supers_well_formed(input@)
            && error.method_index < input@.methods.len()
            && !method_supported(input@.methods[error.method_index as int])
            && forall|k: int| 0 <= k < error.method_index ==> method_supported(#[trigger] input@.methods[k]),
{
    let supers = match get_super_traits(input) {
        Ok(s) => s,
        Err(diagnostics) => {
            return Err(GenError::SuperTraits { diagnostics });
        },
    };
    let vtable = match create_vtable(input, &supers.super_traits) {
        Ok(v) => v,
        Err(error) => {
            return Err(GenError::Layout { error });
        },
    };
    let as_vtable_impls = impl_as_vtable_for_super_traits(&supers.super_traits, &vtable);
    let cdrop = impl_cdrop_for_vtable(&vtable);
    let methods = impl_vtable_methods(input, &vtable);
    let direct = impl_trait_for_c_ref(input, &vtable);
    let upcast = impl_trait_for_c_ref_where_as_vtable(
        input,
        &vtable,
        &supers.super_traits,
        &supers.ignore_bounds,
    );
    let x = Expansion { vtable, as_vtable_impls, cdrop, methods, direct, upcast };
    assert(x@ =~= expansion_of(input@));
    Ok(x)
}

/// The source text of the upcast accessors, one after the other.
fn render_as_vtables(v: &Vec<AsVTableImpl>) -> (r: String)
    ensures
        r@ == join(as_vtables_model(v@).map_values(|a: AsVTableModel| render_as_vtable_text(a)), ""@),
{
    let mut parts: Vec<String> = Vec::new();
    let mut i: usize = 0;
    proof {
        crate::model::lemma_strs(Seq::<String>::empty());
    }
    while i < v.len()
        invariant
            i <= v.len(),
            strs(parts@) == as_vtables_model(v@).subrange(0, i as int).map_values(
                |a: AsVTableModel| render_as_vtable_text(a),
            ),
        decreases v.len() - i,
    {
        let ghost prev = parts@;
        parts.push(render_as_vtable(&v[i]));
        assert(parts@.drop_last() =~= prev);
        assert(as_vtables_model(v@).subrange(0, i + 1).map_values(|a: AsVTableModel| render_as_vtable_text(a)) =~=
            as_vtables_model(v@).subrange(0, i as int).map_values(|a: AsVTableModel| render_as_vtable_text(a)).push(
            render_as_vtable_text(v@[i as int]@)));
        i += 1;
    }
    assert(as_vtables_model(v@).subrange(0, v.len() as int) =~= as_vtables_model(v@));
    join_strs(&parts, "")
}

/// The source text of an expansion; `generics` are the parameters of the
/// interface it was generated for.
pub fn render_expansion(x: &Expansion, generics: &Vec<crate::model::GenericParam>) -> (r: String)
    ensures
        r@ == expansion_text(x@, params_model(generics@)),
{
    let mut out = render_vtable(&x.vtable);
    let a = render_as_vtables(&x.as_vtable_impls);
    append_str(&mut out, &a);
    let c = render_cdrop(&x.cdrop);
    append_str(&mut out, &c);
    let m = render_methods(&x.methods, generics);
    append_str(&mut out, &m);
    let d = render_direct(&x.direct);
    append_str(&mut out, &d);
    let u = render_upcast(&x.upcast);
    append_str(&mut out, &u);
    out
}

/// Compiles an interface to the Rust source text of everything generated
/// for it (the interface's own declaration is not repeated).
pub fn impl_crusty_trait(input: &InterfaceDef) -> (r: Result<String, GenError>)
    ensures
        r is Ok <==> supers_well_formed(input@) && receivers_supported(input@),
        r matches Ok(s) ==> s@ == expansion_text(expansion_of(input@), input@.generics),
        r matches Err(GenError::SuperTraits { diagnostics }) ==> !supers_well_formed(input@)
            && diagnostics@.len() == malformed_indices(input@.supertraits).len()
            && forall|k: int| 0 <= k < diagnostics@.len() ==> (#[trigger] diagnostics@[k]).bound_index as int
                == malformed_indices(input@.supertraits)[k] && diagnostics@[k].message@ == simple_name_message(),
        r matches Err(GenError::Layout { error }) ==> supers_well_formed(input@)
            && error.method_index < input@.methods.len()
            && !method_supported(input@.methods[error.method_index as int])
            && forall|k: int| 0 <= k < error.method_index ==> method_supported(#[trigger] input@.methods[k]),
{
    match expand_interface(input) {
        Ok(x) => Ok(render_expansion(&x, &input.generics)),
        Err(e) => Err(e),
    }
}

} // verus!
