//! Rust source text for the two forwarding strategies.
use vstd::prelude::*;
use crate::model::{lemma_strs, strs, FnInput, InputModel, ParamModel, Receiver};
use crate::render::{
    append_str, join, join_strs, render_args, render_args_exec, render_generics,
    render_generics_exec, render_lines, render_lines_exec, render_names, render_names_exec,
    render_param, render_param_exec, render_ret, render_ret_exec, render_ty, render_type,
};
use crate::trait_for_cref::{
    forward_methods_model, DirectImpl, DirectModel, ForwardArg, ForwardArgModel, ForwardMethod,
    ForwardMethodModel, UpcastImpl, UpcastModel,
};

verus! {

/// An input as the signature declares it.
pub open spec fn sig_input_text(i: InputModel) -> Seq<char> {
    match i {
        InputModel::Receiver(Receiver::Ref) => "&self"@,
        InputModel::Receiver(Receiver::RefMut) => "&mut self"@,
        InputModel::Receiver(_) => "self"@,
        InputModel::Typed(p, t) => p + ": "@ + render_ty(t),
    }
}

/// What the body passes to the slot for one input.
pub open spec fn fwd_arg_text(a: ForwardArgModel, upcast: bool) -> Seq<char> {
    match a {
        ForwardArgModel::Shared => if upcast {
            "self.as_cref_with_methods(methods)"@
        } else {
            "self.as_cref()"@
        },
        ForwardArgModel::Exclusive => if upcast {
            "self.as_cref_mut_with_methods(methods)"@
        } else {
            "self.as_cref_mut()"@
        },
        ForwardArgModel::Owned => "self"@,
        ForwardArgModel::Pattern(p) => p,
        ForwardArgModel::Unsupported => "compile_error!(\"Receiver type must be a reference\")"@,
    }
}

/// How the body reaches the table: its own, or the one the capability view
/// hands out (`table` is the table type, with its arguments).
pub open spec fn fwd_call_head(upcast: bool, table: Seq<char>) -> Seq<char> {
    if upcast {
        "        let methods: &'static "@ + table
            + " = self.as_vtable();\n        #[allow(unsafe_code)]\n        unsafe { (methods."@
    } else {
        "        #[allow(unsafe_code)]\n        unsafe { (self.get_vtable()."@
    }
}

pub open spec fn render_fwd_method(fm: ForwardMethodModel, upcast: bool, table: Seq<char>) -> Seq<char> {
    render_lines(fm.sig.attrs, "    "@) + "    fn "@ + fm.sig.name + "("@ + join(
        fm.sig.inputs.map_values(|i: InputModel| sig_input_text(i)),
        ", "@,
    ) + ")"@ + render_ret(fm.sig.output) + " {\n"@ + fwd_call_head(upcast, table) + fm.sig.name
        + ")("@ + join(fm.args.map_values(|a: ForwardArgModel| fwd_arg_text(a, upcast)), ", "@)
        + ") }\n    }\n"@
}

pub open spec fn render_fwd_methods(ms: Seq<ForwardMethodModel>, upcast: bool, table: Seq<char>) -> Seq<char> {
    join(ms.map_values(|m: ForwardMethodModel| render_fwd_method(m, upcast, table)), ""@)
}

/// `impl<generics> Trait<args> for CRepr<VTable<args>> { ... }`.
pub open spec fn render_direct_text(d: DirectModel) -> Seq<char> {
    "impl"@ + render_generics(d.generics) + " "@ + d.trait_ident + render_args(d.type_args)
        + " for CRepr<"@ + d.vtable_ident + render_args(d.type_args) + "> {\n"@ + render_fwd_methods(
        d.methods,
        false,
        d.vtable_ident + render_args(d.type_args),
    ) + "}\n"@
}

pub open spec fn super_bound_text(s: (Seq<char>, Seq<Seq<char>>)) -> Seq<char> {
    " + AsVTable<&'static "@ + s.0 + render_names(s.1) + ">"@
}

pub open spec fn marker_bound_text(m: Seq<char>) -> Seq<char> {
    " + "@ + m
}

pub open spec fn static_line(p: Seq<char>) -> Seq<char> {
    "    "@ + p + ": 'static,\n"@
}

/// `impl<GEN, generics> Trait<args> for CRepr<GEN> where GEN: ... { ... }`.
pub open spec fn render_upcast_text(u: UpcastModel) -> Seq<char> {
    "impl<GEN"@ + join(u.generics.map_values(|p: ParamModel| ", "@ + render_param(p)), ""@) + "> "@
        + u.trait_ident + render_args(u.type_args) + " for CRepr<GEN>\nwhere\n    GEN: AsVTable<&'static "@
        + u.vtable_ident + render_args(u.type_args) + "> + CDrop + 'static"@ + join(
        u.super_refs.map_values(|s: (Seq<char>, Seq<Seq<char>>)| super_bound_text(s)),
        ""@,
    ) + join(u.markers.map_values(|m: Seq<char>| marker_bound_text(m)), ""@) + ",\n"@ + join(
        u.static_params.map_values(|p: Seq<char>| static_line(p)),
        ""@,
    ) + "{\n"@ + render_fwd_methods(u.methods, true, u.vtable_ident + render_args(u.type_args))
        + "}\n"@
}

fn sig_input_exec(i: &FnInput) -> (r: String)
    ensures
        r@ == sig_input_text(i@),
{
    match i {
        FnInput::Receiver { kind: Receiver::Ref } => String::from_str("&self"),
        FnInput::Receiver { kind: Receiver::RefMut } => String::from_str("&mut self"),
        FnInput::Receiver { .. } => String::from_str("self"),
        FnInput::Typed { pat, ty } => {
            let mut out = crate::model::copy_str(pat);
            out.append(": ");
            let t = render_type(ty);
            append_str(&mut out, &t);
            out
        },
    }
}

fn fwd_arg_exec(a: &ForwardArg, upcast: bool) -> (r: String)
    ensures
        r@ == fwd_arg_text(a@, upcast),
{
    match a {
        ForwardArg::Shared => if upcast {
            String::from_str("self.as_cref_with_methods(methods)")
        } else {
            String::from_str("self.as_cref()")
        },
        ForwardArg::Exclusive => if upcast {
            String::from_str("self.as_cref_mut_with_methods(methods)")
        } else {
            String::from_str("self.as_cref_mut()")
        },
        ForwardArg::Owned => String::from_str("self"),
        ForwardArg::Pattern { pat } => crate::model::copy_str(pat),
        ForwardArg::Unsupported => String::from_str("compile_error!(\"Receiver type must be a reference\")"),
    }
}

fn render_fwd_method_exec(fm: &ForwardMethod, upcast: bool, table: &String) -> (r: String)
    ensures
        r@ == render_fwd_method(fm@, upcast, table@),
{
    let ghost mm = fm@;
    let mut ins: Vec<String> = Vec::new();
    let mut i: usize = 0;
    proof {
        lemma_strs(Seq::<String>::empty());
    }
    while i < fm.sig.inputs.len()
        invariant
            i <= fm.sig.inputs.len(),
            mm == fm@,
            strs(ins@) == mm.sig.inputs.subrange(0, i as int).map_values(|x: InputModel| sig_input_text(x)),
        decreases fm.sig.inputs.len() - i,
    {
        let ghost prev = ins@;
        ins.push(sig_input_exec(&fm.sig.inputs[i]));
        assert(ins@.drop_last() =~= prev);
        assert(mm.sig.inputs[i as int] == fm.sig.inputs@[i as int]@);
        assert(mm.sig.inputs.subrange(0, i + 1).map_values(|x: InputModel| sig_input_text(x)) =~=
            mm.sig.inputs.subrange(0, i as int).map_values(|x: InputModel| sig_input_text(x)).push(sig_input_text(mm.sig.inputs[i as int])));
        i += 1;
    }
    assert(mm.sig.inputs.subrange(0, fm.sig.inputs.len() as int) =~= mm.sig.inputs);
    let mut args: Vec<String> = Vec::new();
    let mut j: usize = 0;
    while j < fm.args.len()
        invariant
            j <= fm.args.len(),
            mm == fm@,
            strs(args@) == mm.args.subrange(0, j as int).map_values(|a: ForwardArgModel| fwd_arg_text(a, upcast)),
        decreases fm.args.len() - j,
    {
        let ghost prev = args@;
        args.push(fwd_arg_exec(&fm.args[j], upcast));
        assert(args@.drop_last() =~= prev);
        assert(mm.args.subrange(0, j + 1).map_values(|a: ForwardArgModel| fwd_arg_text(a, upcast)) =~=
            mm.args.subrange(0, j as int).map_values(|a: ForwardArgModel| fwd_arg_text(a, upcast)).push(fwd_arg_text(fm.args@[j as int]@, upcast)));
        j += 1;
    }
    assert(mm.args.subrange(0, fm.args.len() as int) =~= mm.args);
    let mut out = render_lines_exec(&fm.sig.attrs, "    ");
    out.append("    fn ");
    append_str(&mut out, &fm.sig.name);
    out.append("(");
    let si = join_strs(&ins, ", ");
    append_str(&mut out, &si);
    out.append(")");
    let ret = render_ret_exec(&fm.sig.output);
    append_str(&mut out, &ret);
    out.append(" {\n");
    if upcast {
        out.append("        let methods: &'static ");
        append_str(&mut out, table);
        out.append(" = self.as_vtable();\n        #[allow(unsafe_code)]\n        unsafe { (methods.");
    } else {
        out.append("        #[allow(unsafe_code)]\n        unsafe { (self.get_vtable().");
    }
    append_str(&mut out, &fm.sig.name);
    out.append(")(");
    let a = join_strs(&args, ", ");
    append_str(&mut out, &a);
    out.append(") }\n    }\n");
    assert(out@ =~= render_fwd_method(fm@, upcast, table@));
    out
}

fn render_fwd_methods_exec(ms: &Vec<ForwardMethod>, upcast: bool, table: &String) -> (r: String)
    ensures
        r@ == render_fwd_methods(forward_methods_model(ms@), upcast, table@),
{
    let ghost mm = forward_methods_model(ms@);
    let mut parts: Vec<String> = Vec::new();
    let mut i: usize = 0;
    proof {
        lemma_strs(Seq::<String>::empty());
    }
    while i < ms.len()
        invariant
            i <= ms.len(),
            mm == forward_methods_model(ms@),
            strs(parts@) == mm.subrange(0, i as int).map_values(|m: ForwardMethodModel| render_fwd_method(m, upcast, table@)),
        decreases ms.len() - i,
    {
        let ghost prev = parts@;
        parts.push(render_fwd_method_exec(&ms[i], upcast, table));
        assert(parts@.drop_last() =~= prev);
        assert(mm.subrange(0, i + 1).map_values(|m: ForwardMethodModel| render_fwd_method(m, upcast, table@)) =~=
            mm.subrange(0, i as int).map_values(|m: ForwardMethodModel| render_fwd_method(m, upcast, table@)).push(render_fwd_method(ms@[i as int]@, upcast, table@)));
        i += 1;
    }
    assert(mm.subrange(0, ms.len() as int) =~= mm);
    join_strs(&parts, "")
}

/// The source text of the direct strategy.
pub fn render_direct(d: &DirectImpl) -> (r: String)
    ensures
        r@ == render_direct_text(d@),
{
    let ta = render_args_exec(&d.type_args);
    let mut table = crate::model::copy_str(&d.vtable_ident);
    append_str(&mut table, &ta);
    let mut out = String::from_str("impl");
    let g = render_generics_exec(&d.generics);
    append_str(&mut out, &g);
    out.append(" ");
    append_str(&mut out, &d.trait_ident);
    append_str(&mut out, &ta);
    out.append(" for CRepr<");
    append_str(&mut out, &table);
    out.append("> {\n");
    let body = render_fwd_methods_exec(&d.methods, false, &table);
    append_str(&mut out, &body);
    out.append("}\n");
    assert(out@ =~= render_direct_text(d@));
    out
}

/// The source text of the upcast strategy.
pub fn render_upcast(u: &UpcastImpl) -> (r: String)
    ensures
        r@ == render_upcast_text(u@),
{
    let ghost um = u@;
    let ta = render_args_exec(&u.type_args);
    let mut table = crate::model::copy_str(&u.vtable_ident);
    append_str(&mut table, &ta);
    let mut gparts: Vec<String> = Vec::new();
    let mut i: usize = 0;
    proof {
        lemma_strs(Seq::<String>::empty());
    }
    while i < u.generics.len()
        invariant
            i <= u.generics.len(),
            um == u@,
            strs(gparts@) == um.generics.subrange(0, i as int).map_values(|p: ParamModel| ", "@ + render_param(p)),
        decreases u.generics.len() - i,
    {
        let ghost prev = gparts@;
        let mut s = String::from_str(", ");
        let p = render_param_exec(&u.generics[i]);
        append_str(&mut s, &p);
        gparts.push(s);
        assert(gparts@.drop_last() =~= prev);
        assert(um.generics.subrange(0, i + 1).map_values(|p: ParamModel| ", "@ + render_param(p)) =~=
            um.generics.subrange(0, i as int).map_values(|p: ParamModel| ", "@ + render_param(p)).push(", "@ + render_param(u.generics@[i as int]@)));
        i += 1;
    }
    assert(um.generics.subrange(0, u.generics.len() as int) =~= um.generics);
    let mut sparts: Vec<String> = Vec::new();
    let mut j: usize = 0;
    while j < u.super_refs.len()
        invariant
            j <= u.super_refs.len(),
            um == u@,
            strs(sparts@) == um.super_refs.subrange(0, j as int).map_values(|s: (Seq<char>, Seq<Seq<char>>)| super_bound_text(s)),
        decreases u.super_refs.len() - j,
    {
        let ghost prev = sparts@;
        let sr = &u.super_refs[j];
        let mut s = String::from_str(" + AsVTable<&'static ");
        append_str(&mut s, &sr.vtable_ident);
        let g = render_names_exec(&sr.generics);
        append_str(&mut s, &g);
        s.append(">");
        sparts.push(s);
        assert(sparts@.drop_last() =~= prev);
        assert(um.super_refs.subrange(0, j + 1).map_values(|s: (Seq<char>, Seq<Seq<char>>)| super_bound_text(s)) =~=
            um.super_refs.subrange(0, j as int).map_values(|s: (Seq<char>, Seq<Seq<char>>)| super_bound_text(s)).push(super_bound_text(um.super_refs[j as int])));
        j += 1;
    }
    assert(um.super_refs.subrange(0, u.super_refs.len() as int) =~= um.super_refs);
    let mut mparts: Vec<String> = Vec::new();
    let mut k: usize = 0;
    proof {
        lemma_strs(u.markers@);
        lemma_strs(u.static_params@);
    }
    while k < u.markers.len()
        invariant
            k <= u.markers.len(),
            um == u@,
            um.markers.len() == u.markers.len(),
            forall|x: int| 0 <= x < u.markers.len() ==> #[trigger] um.markers[x] == u.markers@[x]@,
            strs(mparts@) == um.markers.subrange(0, k as int).map_values(|m: Seq<char>| marker_bound_text(m)),
        decreases u.markers.len() - k,
    {
        let ghost prev = mparts@;
        let mut s = String::from_str(" + ");
        append_str(&mut s, &u.markers[k]);
        mparts.push(s);
        assert(mparts@.drop_last() =~= prev);
        assert(um.markers.subrange(0, k + 1).map_values(|m: Seq<char>| marker_bound_text(m)) =~=
            um.markers.subrange(0, k as int).map_values(|m: Seq<char>| marker_bound_text(m)).push(marker_bound_text(um.markers[k as int])));
        k += 1;
    }
    assert(um.markers.subrange(0, u.markers.len() as int) =~= um.markers);
    let mut lparts: Vec<String> = Vec::new();
    let mut l: usize = 0;
    while l < u.static_params.len()
        invariant
            l <= u.static_params.len(),
            um == u@,
            um.static_params.len() == u.static_params.len(),
            forall|x: int| 0 <= x < u.static_params.len() ==> #[trigger] um.static_params[x] == u.static_params@[x]@,
            strs(lparts@) == um.static_params.subrange(0, l as int).map_values(|p: Seq<char>| static_line(p)),
        decreases u.static_params.len() - l,
    {
        let ghost prev = lparts@;
        let mut s = String::from_str("    ");
        append_str(&mut s, &u.static_params[l]);
        s.append(": 'static,\n");
        lparts.push(s);
        assert(lparts@.drop_last() =~= prev);
        assert(um.static_params.subrange(0, l + 1).map_values(|p: Seq<char>| static_line(p)) =~=
            um.static_params.subrange(0, l as int).map_values(|p: Seq<char>| static_line(p)).push(static_line(um.static_params[l as int])));
        l += 1;
    }
    assert(um.static_params.subrange(0, u.static_params.len() as int) =~= um.static_params);
    let mut out = String::from_str("impl<GEN");
    let g = join_strs(&gparts, "");
    append_str(&mut out, &g);
    out.append("> ");
    append_str(&mut out, &u.trait_ident);
    append_str(&mut out, &ta);
    out.append(" for CRepr<GEN>\nwhere\n    GEN: AsVTable<&'static ");
    append_str(&mut out, &table);
    out.append("> + CDrop + 'static");
    let sb = join_strs(&sparts, "");
    append_str(&mut out, &sb);
    let mb = join_strs(&mparts, "");
    append_str(&mut out, &mb);
    out.append(",\n");
    let sl = join_strs(&lparts, "");
    append_str(&mut out, &sl);
    out.append("{\n");
    let body = render_fwd_methods_exec(&u.methods, true, &table);
    append_str(&mut out, &body);
    out.append("}\n");
    assert(out@ =~= render_upcast_text(u@));
    out
}

} // verus!
