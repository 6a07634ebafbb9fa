//! Rust source text for the impls generated around a table type: upcast
//! accessors, the teardown hook, the trampolines with the cached
//! constructor.
use vstd::prelude::*;
use crate::cdrop::{CDropImpl, CDropModel};
use crate::methods::{
    param_arg, param_arg_exec, PassArg, SuperInitModel, Trampoline, TrampolineModel, VTableMethods,
    VTableMethodsModel,
};
use crate::model::{
    args_model, lemma_strs, params_model, strs, ArgModel, GenericArg, GenericParam, ParamModel,
    TypeModel,
};
use crate::render::{
    append_str, join, join_strs, render_args, render_args_exec, render_generics,
    render_generics_exec, render_names, render_names_exec, render_param, render_param_exec,
    render_ret, render_ret_exec, render_ty, render_type,
};
use crate::super_trait::{AsVTableImpl, AsVTableModel};

verus! {

pub open spec fn digit_text(d: nat) -> Seq<char> {
    if d == 0 {
        "0"@
    } else if d == 1 {
        "1"@
    } else if d == 2 {
        "2"@
    } else if d == 3 {
        "3"@
    } else if d == 4 {
        "4"@
    } else if d == 5 {
        "5"@
    } else if d == 6 {
        "6"@
    } else if d == 7 {
        "7"@
    } else if d == 8 {
        "8"@
    } else {
        "9"@
    }
}

/// The decimal digits of `n`.
pub open spec fn decimal(n: nat) -> Seq<char>
    decreases n,
{
    if n < 10 {
        digit_text(n)
    } else {
        decimal(n / 10) + digit_text(n % 10)
    }
}

/// The decimal digits of `n`.
pub fn decimal_exec(n: usize) -> (r: String)
    ensures
        r@ == decimal(n as nat),
    decreases n,
{
    let d = n % 10;
    let last = if d == 0 {
        String::from_str("0")
    } else if d == 1 {
        String::from_str("1")
    } else if d == 2 {
        String::from_str("2")
    } else if d == 3 {
        String::from_str("3")
    } else if d == 4 {
        String::from_str("4")
    } else if d == 5 {
        String::from_str("5")
    } else if d == 6 {
        String::from_str("6")
    } else if d == 7 {
        String::from_str("7")
    } else if d == 8 {
        String::from_str("8")
    } else {
        String::from_str("9")
    };
    if n < 10 {
        last
    } else {
        let mut out = decimal_exec(n / 10);
        append_str(&mut out, &last);
        out
    }
}

pub open spec fn arg_name(i: int) -> Seq<char> {
    "arg"@ + decimal(i as nat)
}

// ---------------------------------------------------------------- accessors

pub open spec fn render_as_vtable_text(a: AsVTableModel) -> Seq<char> {
    "impl"@ + render_names(a.generics) + " AsVTable<&'static "@ + a.target_vtable_ident + render_names(
        a.target_generics,
    ) + "> for "@ + a.vtable_ident + render_names(a.generics) + " {\n    fn as_vtable(&self) -> &'static "@
        + a.target_vtable_ident + render_names(a.target_generics) + " {\n        self."@
        + a.field_ident + "\n    }\n}\n"@
}

/// The source text of an upcast accessor.
pub fn render_as_vtable(a: &AsVTableImpl) -> (r: String)
    ensures
        r@ == render_as_vtable_text(a@),
{
    let g = render_names_exec(&a.generics);
    let tg = render_names_exec(&a.target_generics);
    let mut out = String::from_str("impl");
    append_str(&mut out, &g);
    out.append(" AsVTable<&'static ");
    append_str(&mut out, &a.target_vtable_ident);
    append_str(&mut out, &tg);
    out.append("> for ");
    append_str(&mut out, &a.vtable_ident);
    append_str(&mut out, &g);
    out.append(" {\n    fn as_vtable(&self) -> &'static ");
    append_str(&mut out, &a.target_vtable_ident);
    append_str(&mut out, &tg);
    out.append(" {\n        self.");
    append_str(&mut out, &a.field_ident);
    out.append("\n    }\n}\n");
    assert(out@ =~= render_as_vtable_text(a@));
    out
}

// ---------------------------------------------------------------- teardown

pub open spec fn param_args(ps: Seq<ParamModel>) -> Seq<ArgModel> {
    ps.map_values(|p: ParamModel| param_arg(p))
}

pub open spec fn render_cdrop_text(c: CDropModel) -> Seq<char> {
    "impl"@ + render_generics(c.generics) + " CDrop for "@ + c.vtable_ident + render_args(
        param_args(c.generics),
    )
        + " {\n    fn drop(repr: CRepr<Self>) {\n        #[allow(unsafe_code)]\n        unsafe { (repr.get_vtable().drop)(repr) }\n    }\n}\n"@
}

/// The parameters as arguments: `<'a, T>`, or nothing.
pub fn render_param_args(ps: &Vec<GenericParam>) -> (r: String)
    ensures
        r@ == render_args(param_args(params_model(ps@))),
{
    let mut args: Vec<GenericArg> = Vec::new();
    let mut i: usize = 0;
    proof {
        crate::model::lemma_args_model(Seq::<GenericArg>::empty());
    }
    while i < ps.len()
        invariant
            i <= ps.len(),
            args_model(args@) == param_args(params_model(ps@).subrange(0, i as int)),
        decreases ps.len() - i,
    {
        let ghost prev = args@;
        args.push(param_arg_exec(&ps[i]));
        assert(args@.drop_last() =~= prev);
        assert(param_args(params_model(ps@).subrange(0, i + 1)) =~= param_args(params_model(ps@).subrange(0, i as int)).push(param_arg(ps@[i as int]@)));
        i += 1;
    }
    assert(params_model(ps@).subrange(0, ps.len() as int) =~= params_model(ps@));
    render_args_exec(&args)
}

/// The source text of the teardown hook.
pub fn render_cdrop(c: &CDropImpl) -> (r: String)
    ensures
        r@ == render_cdrop_text(c@),
{
    let mut out = String::from_str("impl");
    let g = render_generics_exec(&c.generics);
    append_str(&mut out, &g);
    out.append(" CDrop for ");
    append_str(&mut out, &c.vtable_ident);
    let a = render_param_args(&c.generics);
    append_str(&mut out, &a);
    out.append(" {\n    fn drop(repr: CRepr<Self>) {\n        #[allow(unsafe_code)]\n        unsafe { (repr.get_vtable().drop)(repr) }\n    }\n}\n");
    assert(out@ =~= render_cdrop_text(c@));
    out
}

// ---------------------------------------------------------------- trampolines

/// The names that instantiate a trampoline: every parameter but lifetimes.
pub open spec fn inst_names(ps: Seq<ParamModel>) -> Seq<Seq<char>>
    decreases ps.len(),
{
    if ps.len() == 0 {
        Seq::empty()
    } else {
        let rest = inst_names(ps.drop_last());
        match ps.last() {
            ParamModel::Type(n, _) => rest.push(n),
            ParamModel::Const(n, _) => rest.push(n),
            _ => rest,
        }
    }
}

/// Items joined by `, `, followed by `, ` when there are any.
pub open spec fn list_prefix(parts: Seq<Seq<char>>) -> Seq<char> {
    if parts.len() == 0 {
        Seq::empty()
    } else {
        join(parts, ", "@) + ", "@
    }
}

pub open spec fn tramp_input(i: int, t: TypeModel) -> Seq<char> {
    arg_name(i) + ": "@ + render_ty(t)
}

pub open spec fn pass_text(p: PassArg, i: int) -> Seq<char> {
    match p {
        PassArg::Shared => "&*("@ + arg_name(i) + ".as_ptr() as *const GEN)"@,
        PassArg::Exclusive => "&mut *("@ + arg_name(i) + ".as_ptr() as *mut GEN)"@,
        PassArg::Owned => "*Box::from_raw("@ + arg_name(i) + ".as_ptr() as *mut GEN)"@,
        PassArg::Value => arg_name(i),
    }
}

/// `<renamed params, GEN: Trait<renamed args>>`, the header every
/// trampoline shares.
pub open spec fn tramp_generics(m: VTableMethodsModel) -> Seq<char> {
    "<"@ + list_prefix(m.trampoline_generics.map_values(|p: ParamModel| render_param(p))) + "GEN: "@
        + m.trait_ident + render_args(m.trampoline_args) + ">"@
}

/// `::<names, GEN>`, the instantiation every trampoline shares.
pub open spec fn tramp_inst(inst: Seq<Seq<char>>) -> Seq<char> {
    "::<"@ + list_prefix(inst) + "GEN>"@
}

pub open spec fn render_trampoline_text(t: TrampolineModel, header: Seq<char>, inst: Seq<char>) -> Seq<char> {
    "                "@ + t.name + ": {\n                    unsafe extern \"C\" fn "@ + t.name + header + "("@
        + join(Seq::new(t.inputs.len(), |i: int| tramp_input(i, t.inputs[i])), ", "@) + ")"@
        + render_ret(t.output) + " {\n                        #[allow(unsafe_code)]\n                        unsafe { GEN::"@ + t.name + "("@ + join(
        Seq::new(t.pass.len(), |i: int| pass_text(t.pass[i], i)),
        ", "@,
    ) + ") }\n                    }\n                    "@ + t.name + inst + "\n                },\n"@
}

pub open spec fn render_super_init(s: SuperInitModel) -> Seq<char> {
    "                "@ + s.field_ident + ": "@ + s.vtable_ident + "::create_vtable::<GEN>(),\n"@
}

pub open spec fn render_drop_tramp(m: VTableMethodsModel, header: Seq<char>, inst: Seq<char>) -> Seq<char> {
    "                drop: {\n                    unsafe extern \"C\" fn drop"@ + header + "(arg_0: CRepr<"@
        + m.vtable_ident + render_args(m.trampoline_args)
        + ">) {\n                        #[allow(unsafe_code)]\n                        unsafe { ::core::mem::drop(Box::from_raw(arg_0.as_ptr() as *mut GEN)); }\n                    }\n                    drop"@
        + inst + "\n                },\n"@
}

pub open spec fn cache_head() -> Seq<char> {
    "        static FN_MAP: std::sync::LazyLock<std::sync::Mutex<std::collections::HashMap<(std::any::TypeId, std::any::TypeId), &'static (dyn std::any::Any + Send + Sync)>>> =\n            std::sync::LazyLock::new(|| std::sync::Mutex::new(std::collections::HashMap::new()));\n        let key = (std::any::TypeId::of::<Self>(), std::any::TypeId::of::<GEN>());\n        let mut map = FN_MAP.lock().unwrap();\n        let entry = map.entry(key).or_insert_with(|| {\n            let vtable = Box::new("@
}

pub open spec fn cache_tail() -> Seq<char> {
    "            });\n            Box::leak(vtable)\n        });\n        entry.downcast_ref().unwrap()\n    }\n}\n"@
}

/// The table literal built inside the cache: trampolines, super-interface
/// tables of the same `GEN`, the drop trampoline.
pub open spec fn render_table_literal(m: VTableMethodsModel, inst: Seq<Seq<char>>) -> Seq<char> {
    m.vtable_ident + " {\n"@ + join(
        m.trampolines.map_values(|t: TrampolineModel| render_trampoline_text(t, tramp_generics(m), tramp_inst(inst))),
        ""@,
    ) + join(m.super_inits.map_values(|s: SuperInitModel| render_super_init(s)), ""@)
        + render_drop_tramp(m, tramp_generics(m), tramp_inst(inst))
}

pub open spec fn render_factories(m: VTableMethodsModel) -> Seq<char> {
    "impl"@ + render_generics(m.impl_generics) + " "@ + m.vtable_ident + render_args(m.type_args)
        + " {\n    /// Creates a new vtable for the type GEN that implements the trait\n    pub fn new_boxed<GEN: "@
        + m.trait_ident + render_args(m.type_args) + " + 'static>(input: GEN) -> CRepr<"@ + m.vtable_ident
        + render_args(m.type_args) + "> {\n        let vtable = "@ + m.vtable_ident
        + "::create_vtable::<GEN>();\n        CRepr::new_boxed(vtable, input)\n    }\n\n    /// Creates a new vtable for the type GEN then store in a static variable in the heap\n    pub fn create_vtable<GEN: "@
        + m.trait_ident + render_args(m.type_args) + " + 'static>() -> &'static "@ + m.vtable_ident
        + render_args(m.type_args) + " {\n"@
}

/// The inherent impl of a table type: `new_boxed`, and `create_vtable` with
/// its per-process cache keyed by the concrete type.
pub open spec fn render_methods_text(m: VTableMethodsModel, inst: Seq<Seq<char>>) -> Seq<char> {
    render_factories(m) + cache_head() + render_table_literal(m, inst) + cache_tail()
}

fn list_prefix_exec(parts: &Vec<String>) -> (r: String)
    ensures
        r@ == list_prefix(strs(parts@)),
{
    proof {
        lemma_strs(parts@);
    }
    if parts.len() == 0 {
        String::new()
    } else {
        let mut out = join_strs(parts, ", ");
        out.append(", ");
        out
    }
}

fn inst_names_exec(ps: &Vec<GenericParam>) -> (r: Vec<String>)
    ensures
        strs(r@) == inst_names(params_model(ps@)),
{
    let ghost pm = params_model(ps@);
    let mut r: Vec<String> = Vec::new();
    let mut i: usize = 0;
    proof {
        lemma_strs(Seq::<String>::empty());
    }
    while i < ps.len()
        invariant
            i <= ps.len(),
            pm == params_model(ps@),
            strs(r@) == inst_names(pm.subrange(0, i as int)),
        decreases ps.len() - i,
    {
        let ghost prev = r@;
        assert(pm.subrange(0, i + 1).drop_last() =~= pm.subrange(0, i as int));
        match &ps[i] {
            GenericParam::Type { name, .. } => {
                r.push(crate::model::copy_str(name));
                assert(r@.drop_last() =~= prev);
            },
            GenericParam::Const { name, .. } => {
                r.push(crate::model::copy_str(name));
                assert(r@.drop_last() =~= prev);
            },
            _ => {},
        }
        i += 1;
    }
    assert(pm.subrange(0, ps.len() as int) =~= pm);
    r
}

fn tramp_generics_exec(m: &VTableMethods) -> (r: String)
    ensures
        r@ == tramp_generics(m@),
{
    let mut parts: Vec<String> = Vec::new();
    let mut i: usize = 0;
    proof {
        lemma_strs(Seq::<String>::empty());
    }
    while i < m.trampoline_generics.len()
        invariant
            i <= m.trampoline_generics.len(),
            strs(parts@) == params_model(m.trampoline_generics@).subrange(0, i as int).map_values(|p: ParamModel| render_param(p)),
        decreases m.trampoline_generics.len() - i,
    {
        let ghost prev = parts@;
        parts.push(render_param_exec(&m.trampoline_generics[i]));
        assert(parts@.drop_last() =~= prev);
        assert(params_model(m.trampoline_generics@).subrange(0, i + 1).map_values(|p: ParamModel| render_param(p)) =~=
            params_model(m.trampoline_generics@).subrange(0, i as int).map_values(|p: ParamModel| render_param(p)).push(render_param(m.trampoline_generics@[i as int]@)));
        i += 1;
    }
    assert(params_model(m.trampoline_generics@).subrange(0, m.trampoline_generics.len() as int) =~= params_model(m.trampoline_generics@));
    let mut out = String::from_str("<");
    let p = list_prefix_exec(&parts);
    append_str(&mut out, &p);
    out.append("GEN: ");
    append_str(&mut out, &m.trait_ident);
    let a = render_args_exec(&m.trampoline_args);
    append_str(&mut out, &a);
    out.append(">");
    out
}

fn arg_name_exec(i: usize) -> (r: String)
    ensures
        r@ == arg_name(i as int),
{
    let mut out = String::from_str("arg");
    let d = decimal_exec(i);
    append_str(&mut out, &d);
    out
}

fn pass_text_exec(p: PassArg, i: usize) -> (r: String)
    ensures
        r@ == pass_text(p, i as int),
{
    let name = arg_name_exec(i);
    match p {
        PassArg::Shared => {
            let mut out = String::from_str("&*(");
            append_str(&mut out, &name);
            out.append(".as_ptr() as *const GEN)");
            out
        },
        PassArg::Exclusive => {
            let mut out = String::from_str("&mut *(");
            append_str(&mut out, &name);
            out.append(".as_ptr() as *mut GEN)");
            out
        },
        PassArg::Owned => {
            let mut out = String::from_str("*Box::from_raw(");
            append_str(&mut out, &name);
            out.append(".as_ptr() as *mut GEN)");
            out
        },
        PassArg::Value => name,
    }
}

fn render_trampoline(t: &Trampoline, header: &String, inst: &String) -> (r: String)
    ensures
        r@ == render_trampoline_text(t@, header@, inst@),
{
    let ghost tm = t@;
    let mut inputs: Vec<String> = Vec::new();
    let mut i: usize = 0;
    proof {
        lemma_strs(Seq::<String>::empty());
    }
    while i < t.inputs.len()
        invariant
            i <= t.inputs.len(),
            tm == t@,
            tm.inputs.len() == t.inputs.len(),
            strs(inputs@) == Seq::new(i as nat, |k: int| tramp_input(k, tm.inputs[k])),
        decreases t.inputs.len() - i,
    {
        let ghost prev = inputs@;
        let mut s = arg_name_exec(i);
        s.append(": ");
        let ty = render_type(&t.inputs[i]);
        append_str(&mut s, &ty);
        inputs.push(s);
        assert(inputs@.drop_last() =~= prev);
        assert(Seq::new((i + 1) as nat, |k: int| tramp_input(k, tm.inputs[k])) =~= Seq::new(i as nat, |k: int| tramp_input(k, tm.inputs[k])).push(tramp_input(i as int, tm.inputs[i as int])));
        i += 1;
    }
    let mut passes: Vec<String> = Vec::new();
    let mut j: usize = 0;
    while j < t.pass.len()
        invariant
            j <= t.pass.len(),
            tm == t@,
            tm.pass == t.pass@,
            strs(passes@) == Seq::new(j as nat, |k: int| pass_text(tm.pass[k], k)),
        decreases t.pass.len() - j,
    {
        let ghost prev = passes@;
        passes.push(pass_text_exec(t.pass[j], j));
        assert(passes@.drop_last() =~= prev);
        assert(Seq::new((j + 1) as nat, |k: int| pass_text(tm.pass[k], k)) =~= Seq::new(j as nat, |k: int| pass_text(tm.pass[k], k)).push(pass_text(tm.pass[j as int], j as int)));
        j += 1;
    }
    let mut out = String::from_str("                ");
    append_str(&mut out, &t.name);
    out.append(": {\n                    unsafe extern \"C\" fn ");
    append_str(&mut out, &t.name);
    append_str(&mut out, header);
    out.append("(");
    let ins = join_strs(&inputs, ", ");
    append_str(&mut out, &ins);
    out.append(")");
    let ret = render_ret_exec(&t.output);
    append_str(&mut out, &ret);
    out.append(" {\n                        #[allow(unsafe_code)]\n                        unsafe { GEN::");
    append_str(&mut out, &t.name);
    out.append("(");
    let ps = join_strs(&passes, ", ");
    append_str(&mut out, &ps);
    out.append(") }\n                    }\n                    ");
    append_str(&mut out, &t.name);
    append_str(&mut out, inst);
    out.append("\n                },\n");
    assert(out@ =~= render_trampoline_text(t@, header@, inst@));
    out
}

fn render_factories_exec(m: &VTableMethods) -> (r: String)
    ensures
        r@ == render_factories(m@),
{
    let ta = render_args_exec(&m.type_args);
    let mut out = String::from_str("impl");
    let g = render_generics_exec(&m.impl_generics);
    append_str(&mut out, &g);
    out.append(" ");
    append_str(&mut out, &m.vtable_ident);
    append_str(&mut out, &ta);
    out.append(" {\n    /// Creates a new vtable for the type GEN that implements the trait\n    pub fn new_boxed<GEN: ");
    append_str(&mut out, &m.trait_ident);
    append_str(&mut out, &ta);
    out.append(" + 'static>(input: GEN) -> CRepr<");
    append_str(&mut out, &m.vtable_ident);
    append_str(&mut out, &ta);
    out.append("> {\n        let vtable = ");
    append_str(&mut out, &m.vtable_ident);
    out.append("::create_vtable::<GEN>();\n        CRepr::new_boxed(vtable, input)\n    }\n\n    /// Creates a new vtable for the type GEN then store in a static variable in the heap\n    pub fn create_vtable<GEN: ");
    append_str(&mut out, &m.trait_ident);
    append_str(&mut out, &ta);
    out.append(" + 'static>() -> &'static ");
    append_str(&mut out, &m.vtable_ident);
    append_str(&mut out, &ta);
    out.append(" {\n");
    assert(out@ =~= render_factories(m@));
    out
}

fn render_table_literal_exec(m: &VTableMethods, inst_list: &Vec<String>) -> (r: String)
    ensures
        r@ == render_table_literal(m@, strs(inst_list@)),
{
    let ghost mm = m@;
    let header = tramp_generics_exec(m);
    let p = list_prefix_exec(inst_list);
    let mut inst = String::from_str("::<");
    append_str(&mut inst, &p);
    inst.append("GEN>");
    assert(inst@ == tramp_inst(strs(inst_list@)));
    let mut parts: Vec<String> = Vec::new();
    let mut i: usize = 0;
    proof {
        lemma_strs(Seq::<String>::empty());
    }
    while i < m.trampolines.len()
        invariant
            i <= m.trampolines.len(),
            mm == m@,
            mm.trampolines.len() == m.trampolines.len(),
            header@ == tramp_generics(mm),
            inst@ == tramp_inst(strs(inst_list@)),
            strs(parts@) == mm.trampolines.subrange(0, i as int).map_values(
                |t: TrampolineModel| render_trampoline_text(t, tramp_generics(mm), tramp_inst(strs(inst_list@))),
            ),
        decreases m.trampolines.len() - i,
    {
        let ghost prev = parts@;
        parts.push(render_trampoline(&m.trampolines[i], &header, &inst));
        assert(parts@.drop_last() =~= prev);
        assert(mm.trampolines[i as int] == m.trampolines@[i as int]@);
        assert(mm.trampolines.subrange(0, i + 1).map_values(
                |t: TrampolineModel| render_trampoline_text(t, tramp_generics(mm), tramp_inst(strs(inst_list@)))) =~=
            mm.trampolines.subrange(0, i as int).map_values(
                |t: TrampolineModel| render_trampoline_text(t, tramp_generics(mm), tramp_inst(strs(inst_list@)))).push(
                render_trampoline_text(mm.trampolines[i as int], tramp_generics(mm), tramp_inst(strs(inst_list@)))));
        i += 1;
    }
    assert(mm.trampolines.subrange(0, m.trampolines.len() as int) =~= mm.trampolines);
    let mut inits: Vec<String> = Vec::new();
    let mut j: usize = 0;
    while j < m.super_inits.len()
        invariant
            j <= m.super_inits.len(),
            mm == m@,
            mm.super_inits.len() == m.super_inits.len(),
            strs(inits@) == mm.super_inits.subrange(0, j as int).map_values(|s: SuperInitModel| render_super_init(s)),
        decreases m.super_inits.len() - j,
    {
        let ghost prev = inits@;
        let s = &m.super_inits[j];
        let mut line = String::from_str("                ");
        append_str(&mut line, &s.field_ident);
        line.append(": ");
        append_str(&mut line, &s.vtable_ident);
        line.append("::create_vtable::<GEN>(),\n");
        inits.push(line);
        assert(inits@.drop_last() =~= prev);
        assert(mm.super_inits[j as int] == m.super_inits@[j as int]@);
        assert(mm.super_inits.subrange(0, j + 1).map_values(|s: SuperInitModel| render_super_init(s)) =~=
            mm.super_inits.subrange(0, j as int).map_values(|s: SuperInitModel| render_super_init(s)).push(render_super_init(mm.super_inits[j as int])));
        j += 1;
    }
    assert(mm.super_inits.subrange(0, m.super_inits.len() as int) =~= mm.super_inits);
    let mut out = crate::model::copy_str(&m.vtable_ident);
    out.append(" {\n");
    let tr = join_strs(&parts, "");
    append_str(&mut out, &tr);
    let si = join_strs(&inits, "");
    append_str(&mut out, &si);
    out.append("                drop: {\n                    unsafe extern \"C\" fn drop");
    append_str(&mut out, &header);
    out.append("(arg_0: CRepr<");
    append_str(&mut out, &m.vtable_ident);
    let targs = render_args_exec(&m.trampoline_args);
    append_str(&mut out, &targs);
    out.append(">) {\n                        #[allow(unsafe_code)]\n                        unsafe { ::core::mem::drop(Box::from_raw(arg_0.as_ptr() as *mut GEN)); }\n                    }\n                    drop");
    append_str(&mut out, &inst);
    out.append("\n                },\n");
    assert(out@ =~= render_table_literal(m@, strs(inst_list@)));
    out
}

/// The source text of the inherent impl of a table type; the trampolines
/// are instantiated with the non-lifetime parameters `generics` of the
/// interface.
pub fn render_methods(m: &VTableMethods, generics: &Vec<GenericParam>) -> (r: String)
    ensures
        r@ == render_methods_text(m@, inst_names(params_model(generics@))),
{
    let inst_list = inst_names_exec(generics);
    let mut out = render_factories_exec(m);
    out.append("        static FN_MAP: std::sync::LazyLock<std::sync::Mutex<std::collections::HashMap<(std::any::TypeId, std::any::TypeId), &'static (dyn std::any::Any + Send + Sync)>>> =\n            std::sync::LazyLock::new(|| std::sync::Mutex::new(std::collections::HashMap::new()));\n        let key = (std::any::TypeId::of::<Self>(), std::any::TypeId::of::<GEN>());\n        let mut map = FN_MAP.lock().unwrap();\n        let entry = map.entry(key).or_insert_with(|| {\n            let vtable = Box::new(");
    let lit = render_table_literal_exec(m, &inst_list);
    append_str(&mut out, &lit);
    out.append("            });\n            Box::leak(vtable)\n        });\n        entry.downcast_ref().unwrap()\n    }\n}\n");
    assert(out@ =~= render_methods_text(m@, inst_names(params_model(generics@))));
    out
}

} // verus!
