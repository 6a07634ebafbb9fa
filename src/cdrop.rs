//! The teardown hook of a table type: dropping an erased value calls the
//! table's drop slot.
use vstd::prelude::*;
use crate::model::{copy_str, copy_strs, params_model, GenericParam, ParamModel};
use crate::types::copy_type;
use crate::vtable::VTable;

verus! {

/// `impl<generics> CDrop for VTable<generics>`, its parameters without bounds.
pub struct CDropImpl {
    pub generics: Vec<GenericParam>,
    pub vtable_ident: String,
}

pub struct CDropModel {
    pub generics: Seq<ParamModel>,
    pub vtable_ident: Seq<char>,
}

impl View for CDropImpl {
    type V = CDropModel;

    open spec fn view(&self) -> CDropModel {
        CDropModel { generics: params_model(self.generics@), vtable_ident: self.vtable_ident@ }
    }
}

/// A type parameter without its bounds; other parameters unchanged.
pub open spec fn clear_bounds(p: ParamModel) -> ParamModel {
    match p {
        ParamModel::Type(n, _) => ParamModel::Type(n, Seq::empty()),
        _ => p,
    }
}

pub fn clear_param_bounds(p: &GenericParam) -> (r: GenericParam)
    ensures
        r@ == clear_bounds(p@),
{
    match p {
        GenericParam::Lifetime { name, outlives } => GenericParam::Lifetime {
            name: copy_str(name),
            outlives: copy_strs(outlives),
        },
        GenericParam::Type { name, .. } => {
            let r = GenericParam::Type { name: copy_str(name), bounds: Vec::new() };
            assert(r@ == clear_bounds(p@)) by {
                assert(crate::model::bounds_model(Seq::<crate::model::TypeBound>::empty()) =~= Seq::empty());
            }
            r
        },
        GenericParam::Const { name, ty } => GenericParam::Const {
            name: copy_str(name),
            ty: copy_type(ty),
        },
    }
}

/// The `CDrop` impl of a table type.
pub fn impl_cdrop_for_vtable(vtable: &VTable) -> (r: CDropImpl)
    ensures
        r@.vtable_ident == vtable@.ident,
        r@.generics == vtable@.generics.map_values(|p: ParamModel| clear_bounds(p)),
{
    let mut generics: Vec<GenericParam> = Vec::new();
    let mut i: usize = 0;
    while i < vtable.generics.len()
        invariant
            i <= vtable.generics.len(),
            params_model(generics@) == vtable@.generics.subrange(0, i as int).map_values(|p: ParamModel| clear_bounds(p)),
        decreases vtable.generics.len() - i,
    {
        let ghost prev = generics@;
        generics.push(clear_param_bounds(&vtable.generics[i]));
        assert(params_model(generics@) =~= params_model(prev).push(clear_bounds(vtable@.generics[i as int])));
        assert(vtable@.generics.subrange(0, i + 1).map_values(|p: ParamModel| clear_bounds(p)) =~=
            vtable@.generics.subrange(0, i as int).map_values(|p: ParamModel| clear_bounds(p)).push(clear_bounds(vtable@.generics[i as int])));
        i += 1;
    }
    assert(vtable@.generics.subrange(0, vtable.generics.len() as int) =~= vtable@.generics);
    CDropImpl { generics, vtable_ident: copy_str(&vtable.ident) }
}

} // verus!
