//! Rust source text for types, parameter lists and the table type.
use vstd::prelude::*;
use crate::model::{
    arg_model, args_model, bounds_model, lemma_args_model, lemma_segments_model, lemma_strs,
    lemma_types_model, params_model, segment_model, segments_model, strs, type_model, types_model,
    ArgModel, BoundModel, GenericArg, GenericParam, ParamModel, PathSegment, SegmentModel,
    TypeBound, TypeExpr, TypeModel,
};
use crate::vtable::{
    fields_model, FieldKind, FieldKindModel, FieldModel, VTable, VTableField, VTableModel,
};

verus! {

/// The parts joined by `sep`.
pub open spec fn join(parts: Seq<Seq<char>>, sep: Seq<char>) -> Seq<char>
    decreases parts.len(),
{
    if parts.len() == 0 {
        Seq::empty()
    } else if parts.len() == 1 {
        parts[0]
    } else {
        join(parts.drop_last(), sep) + sep + parts.last()
    }
}

pub proof fn lemma_join_push(parts: Seq<Seq<char>>, x: Seq<char>, sep: Seq<char>)
    ensures
        join(parts.push(x), sep) == if parts.len() == 0 {
            x
        } else {
            join(parts, sep) + sep + x
        },
{
    assert(parts.push(x).drop_last() =~= parts);
}

pub open spec fn render_ty(t: TypeModel) -> Seq<char>
    decreases t,
{
    match t {
        TypeModel::Path(segs) => render_path(segs),
        TypeModel::Reference(l, m, e) => "&"@ + match l {
            Some(n) => "'"@ + n + " "@,
            None => Seq::empty(),
        } + if m {
            "mut "@
        } else {
            Seq::empty()
        } + render_ty(*e),
        TypeModel::Ptr(m, e) => if m {
            "*mut "@ + render_ty(*e)
        } else {
            "*const "@ + render_ty(*e)
        },
        TypeModel::Slice(e) => "["@ + render_ty(*e) + "]"@,
        TypeModel::Array(e, n) => "["@ + render_ty(*e) + "; "@ + n + "]"@,
        TypeModel::Tuple(es) => "("@ + render_tys(es) + if es.len() == 1 {
            ","@
        } else {
            Seq::empty()
        } + ")"@,
        TypeModel::BareFn(q, ins, out) => q + "fn("@ + render_tys(ins) + ")"@ + match out {
            Some(o) => " -> "@ + render_ty(*o),
            None => Seq::empty(),
        },
        TypeModel::Verbatim(x) => x,
    }
}

/// Types separated by `, `.
pub open spec fn render_tys(es: Seq<TypeModel>) -> Seq<char>
    decreases es,
{
    if es.len() == 0 {
        Seq::empty()
    } else if es.len() == 1 {
        render_ty(es[0])
    } else {
        render_tys(es.drop_last()) + ", "@ + render_ty(es.last())
    }
}

/// Path segments separated by `::`.
pub open spec fn render_path(segs: Seq<SegmentModel>) -> Seq<char>
    decreases segs,
{
    if segs.len() == 0 {
        Seq::empty()
    } else if segs.len() == 1 {
        render_segment(segs[0])
    } else {
        render_path(segs.drop_last()) + "::"@ + render_segment(segs.last())
    }
}

pub open spec fn render_segment(s: SegmentModel) -> Seq<char>
    decreases s,
{
    s.ident + if s.args.len() == 0 {
        Seq::empty()
    } else if s.args.len() == 1 && s.args[0] is Sugar {
        render_arg(s.args[0])
    } else {
        "<"@ + render_arg_list(s.args) + ">"@
    }
}

/// `<a, b>`, or nothing when there are no arguments.
pub open spec fn render_args(args: Seq<ArgModel>) -> Seq<char> {
    if args.len() == 0 {
        Seq::empty()
    } else {
        "<"@ + render_arg_list(args) + ">"@
    }
}

pub open spec fn render_arg_list(args: Seq<ArgModel>) -> Seq<char>
    decreases args,
{
    if args.len() == 0 {
        Seq::empty()
    } else if args.len() == 1 {
        render_arg(args[0])
    } else {
        render_arg_list(args.drop_last()) + ", "@ + render_arg(args.last())
    }
}

pub open spec fn render_arg(a: ArgModel) -> Seq<char>
    decreases a,
{
    match a {
        ArgModel::Type(t) => render_ty(t),
        ArgModel::Lifetime(n) => "'"@ + n,
        ArgModel::Verbatim(x) => x,
        ArgModel::Sugar(ins, out) => "("@ + render_tys(ins) + ")"@ + match out {
            Some(o) => " -> "@ + render_ty(*o),
            None => Seq::empty(),
        },
    }
}

pub open spec fn render_bound(b: BoundModel) -> Seq<char> {
    match b {
        BoundModel::Lifetime(l) => "'"@ + l,
        BoundModel::Trait(p) => render_path(p),
        BoundModel::Verbatim(x) => x,
    }
}

pub open spec fn lifetime_text(n: Seq<char>) -> Seq<char> {
    "'"@ + n
}

/// A parameter as declared: `'a: 'b`, `T: A + B`, `const N: usize`.
pub open spec fn render_param(p: ParamModel) -> Seq<char> {
    match p {
        ParamModel::Lifetime(n, outs) => "'"@ + n + if outs.len() == 0 {
            Seq::empty()
        } else {
            ": "@ + join(outs.map_values(|o: Seq<char>| lifetime_text(o)), " + "@)
        },
        ParamModel::Type(n, bs) => n + if bs.len() == 0 {
            Seq::empty()
        } else {
            ": "@ + join(bs.map_values(|b: BoundModel| render_bound(b)), " + "@)
        },
        ParamModel::Const(n, t) => "const "@ + n + ": "@ + render_ty(t),
    }
}

/// A parameter list as declared, `<...>`, or nothing when empty.
pub open spec fn render_generics(ps: Seq<ParamModel>) -> Seq<char> {
    if ps.len() == 0 {
        Seq::empty()
    } else {
        "<"@ + join(ps.map_values(|p: ParamModel| render_param(p)), ", "@) + ">"@
    }
}

/// Names as arguments, `<A, B>`, or nothing when empty.
pub open spec fn render_names(ns: Seq<Seq<char>>) -> Seq<char> {
    if ns.len() == 0 {
        Seq::empty()
    } else {
        "<"@ + join(ns, ", "@) + ">"@
    }
}

pub open spec fn render_ret(o: Option<TypeModel>) -> Seq<char> {
    match o {
        Some(t) => " -> "@ + render_ty(t),
        None => Seq::empty(),
    }
}

/// Each line preceded by `indent` and followed by a line break.
pub open spec fn render_lines(lines: Seq<Seq<char>>, indent: Seq<char>) -> Seq<char>
    decreases lines.len(),
{
    if lines.len() == 0 {
        Seq::empty()
    } else {
        render_lines(lines.drop_last(), indent) + indent + lines.last() + "\n"@
    }
}

pub open spec fn vis_prefix(v: Seq<char>) -> Seq<char> {
    if v.len() == 0 {
        Seq::empty()
    } else {
        v + " "@
    }
}

pub open spec fn render_field(f: FieldModel) -> Seq<char> {
    render_lines(f.attrs, "    "@) + match f.kind {
        FieldKindModel::Method(inputs, out) => "    pub "@ + f.name + ": unsafe extern \"C\" fn("@
            + join(inputs.map_values(|t: TypeModel| render_ty(t)), ", "@) + ")"@ + render_ret(out)
            + ",\n"@,
        FieldKindModel::SuperRef(vt, gens) => "    pub "@ + f.name + ": &'static "@ + vt + render_names(
            gens,
        ) + ",\n"@,
        FieldKindModel::Drop(t) => "    #[doc = \"A function pointer to the drop function for the trait\"]\n    pub "@
            + f.name + ": unsafe extern \"C\" fn("@ + render_ty(t) + "),\n"@,
    }
}

pub open spec fn repr_c_text() -> Seq<char> {
    "#[repr(C)]"@
}

pub open spec fn doc_text(doc: Seq<char>) -> Seq<char> {
    "#[doc = \""@ + doc + "\"]"@
}

pub open spec fn render_vtable_text(v: VTableModel) -> Seq<char> {
    repr_c_text() + "\n"@ + doc_text("A repr C vtable for the trait "@ + v.trait_ident) + "\n"@ + vis_prefix(v.vis)
        + "struct "@ + v.ident + render_generics(v.generics) + " {\n"@ + join(
        v.fields.map_values(|f: FieldModel| render_field(f)),
        ""@,
    ) + "}\n"@
}

/// The attribute that gives a type the C layout.
pub fn repr_c_attribute() -> (r: String)
    ensures
        r@ == repr_c_text(),
{
    String::from_str("#[repr(C)]")
}

/// A doc attribute holding `doc`.
pub fn doc_attribute(doc: &String) -> (r: String)
    ensures
        r@ == doc_text(doc@),
{
    let mut out = String::from_str("#[doc = \"");
    append_str(&mut out, doc);
    out.append("\"]");
    out
}

pub fn append_str(out: &mut String, s: &String)
    ensures
        final(out)@ == old(out)@ + s@,
{
    out.append(s.as_str());
}

/// The source text of a type.
pub fn render_type(t: &TypeExpr) -> (r: String)
    ensures
        r@ == render_ty(t@),
    decreases t,
{
    match t {
        TypeExpr::Path { segments } => render_path_exec(segments),
        TypeExpr::Reference { lifetime, mutable, elem } => {
            let mut out = String::from_str("&");
            match lifetime {
                Some(n) => {
                    out.append("'");
                    append_str(&mut out, n);
                    out.append(" ");
                },
                None => {},
            }
            if *mutable {
                out.append("mut ");
            }
            let e = render_type(elem);
            append_str(&mut out, &e);
            assert(out@ =~= render_ty(t@));
            out
        },
        TypeExpr::Ptr { mutable, elem } => {
            let mut out = if *mutable {
                String::from_str("*mut ")
            } else {
                String::from_str("*const ")
            };
            let e = render_type(elem);
            append_str(&mut out, &e);
            out
        },
        TypeExpr::Slice { elem } => {
            let mut out = String::from_str("[");
            let e = render_type(elem);
            append_str(&mut out, &e);
            out.append("]");
            out
        },
        TypeExpr::Array { elem, len } => {
            let mut out = String::from_str("[");
            let e = render_type(elem);
            append_str(&mut out, &e);
            out.append("; ");
            append_str(&mut out, len);
            out.append("]");
            out
        },
        TypeExpr::Tuple { elems } => {
            let mut out = String::from_str("(");
            let inner = render_tys_exec(elems);
            append_str(&mut out, &inner);
            if elems.len() == 1 {
                out.append(",");
            }
            out.append(")");
            proof {
                lemma_types_model(elems@);
            }
            assert(out@ =~= render_ty(t@));
            out
        },
        TypeExpr::BareFn { qualifiers, inputs, output } => {
            let mut out = crate::model::copy_str(qualifiers);
            out.append("fn(");
            let ins = render_tys_exec(inputs);
            append_str(&mut out, &ins);
            out.append(")");
            match output {
                Some(o) => {
                    out.append(" -> ");
                    let r = render_type(o);
                    append_str(&mut out, &r);
                    assert(crate::model::out_model(*output) == Some(Box::new(type_model(**o))));
                },
                None => {},
            }
            proof {
                lemma_types_model(inputs@);
            }
            assert(out@ =~= render_ty(t@));
            out
        },
        TypeExpr::Verbatim { text } => crate::model::copy_str(text),
    }
}

fn render_tys_exec(v: &Vec<TypeExpr>) -> (r: String)
    ensures
        r@ == render_tys(types_model(v@)),
    decreases v,
{
    let ghost m = types_model(v@);
    proof {
        lemma_types_model(v@);
    }
    let mut out = String::new();
    let mut i: usize = 0;
    while i < v.len()
        invariant
            i <= v.len(),
            m == types_model(v@),
            m.len() == v.len(),
            forall|k: int| 0 <= k < v.len() ==> #[trigger] m[k] == type_model(v@[k]),
            out@ == render_tys(m.subrange(0, i as int)),
        decreases v.len() - i,
    {
        assert(m.subrange(0, i + 1).drop_last() =~= m.subrange(0, i as int));
        if i > 0 {
            out.append(", ");
        }
        assert(decreases_to!(v => v[i as int]));
        let e = render_type(&v[i]);
        append_str(&mut out, &e);
        assert(m.subrange(0, i + 1)[0] == m[0]);
        i += 1;
    }
    assert(m.subrange(0, v.len() as int) =~= m);
    out
}

/// The source text of a path.
pub fn render_path_exec(v: &Vec<PathSegment>) -> (r: String)
    ensures
        r@ == render_path(segments_model(v@)),
    decreases v,
{
    let ghost m = segments_model(v@);
    proof {
        lemma_segments_model(v@);
    }
    let mut out = String::new();
    let mut i: usize = 0;
    while i < v.len()
        invariant
            i <= v.len(),
            m == segments_model(v@),
            m.len() == v.len(),
            forall|k: int| 0 <= k < v.len() ==> #[trigger] m[k] == segment_model(v@[k]),
            out@ == render_path(m.subrange(0, i as int)),
        decreases v.len() - i,
    {
        assert(m.subrange(0, i + 1).drop_last() =~= m.subrange(0, i as int));
        if i > 0 {
            out.append("::");
        }
        assert(decreases_to!(v => v[i as int]));
        let e = render_segment_exec(&v[i]);
        append_str(&mut out, &e);
        assert(m.subrange(0, i + 1)[0] == m[0]);
        i += 1;
    }
    assert(m.subrange(0, v.len() as int) =~= m);
    out
}

fn render_segment_exec(s: &PathSegment) -> (r: String)
    ensures
        r@ == render_segment(s@),
    decreases s,
{
    let mut out = crate::model::copy_str(&s.ident);
    proof {
        lemma_args_model(s.args@);
    }
    let sugar = s.args.len() == 1 && matches!(s.args[0], GenericArg::Sugar { .. });
    if sugar {
        assert(decreases_to!(s => s.args));
        assert(decreases_to!(s.args => s.args[0]));
        let a = render_arg_exec(&s.args[0]);
        append_str(&mut out, &a);
    } else {
        let a = render_args_exec(&s.args);
        append_str(&mut out, &a);
    }
    out
}

/// The source text of path arguments: `<a, b>`, or nothing.
pub fn render_args_exec(v: &Vec<GenericArg>) -> (r: String)
    ensures
        r@ == render_args(args_model(v@)),
    decreases v,
{
    let ghost m = args_model(v@);
    proof {
        lemma_args_model(v@);
    }
    if v.len() == 0 {
        return String::new();
    }
    let mut out = String::new();
    let mut i: usize = 0;
    while i < v.len()
        invariant
            i <= v.len(),
            m == args_model(v@),
            m.len() == v.len(),
            forall|k: int| 0 <= k < v.len() ==> #[trigger] m[k] == arg_model(v@[k]),
            out@ == render_arg_list(m.subrange(0, i as int)),
        decreases v.len() - i,
    {
        assert(m.subrange(0, i + 1).drop_last() =~= m.subrange(0, i as int));
        if i > 0 {
            out.append(", ");
        }
        assert(decreases_to!(v => v[i as int]));
        let e = render_arg_exec(&v[i]);
        append_str(&mut out, &e);
        assert(m.subrange(0, i + 1)[0] == m[0]);
        i += 1;
    }
    assert(m.subrange(0, v.len() as int) =~= m);
    let mut r = String::from_str("<");
    append_str(&mut r, &out);
    r.append(">");
    r
}

fn render_arg_exec(a: &GenericArg) -> (r: String)
    ensures
        r@ == render_arg(a@),
    decreases a,
{
    match a {
        GenericArg::Type { ty } => render_type(ty),
        GenericArg::Lifetime { name } => {
            let mut out = String::from_str("'");
            append_str(&mut out, name);
            out
        },
        GenericArg::Verbatim { text } => crate::model::copy_str(text),
        GenericArg::Sugar { inputs, output } => {
            let mut out = String::from_str("(");
            let ins = render_tys_exec(inputs);
            append_str(&mut out, &ins);
            out.append(")");
            match output {
                Some(o) => {
                    out.append(" -> ");
                    let r = render_type(o);
                    append_str(&mut out, &r);
                    assert(crate::model::out_model(*output) == Some(Box::new(type_model(**o))));
                },
                None => {},
            }
            proof {
                lemma_types_model(inputs@);
            }
            assert(out@ =~= render_arg(a@));
            out
        },
    }
}

/// `parts` joined by `sep`, for parts given as strings.
pub fn join_strs(parts: &Vec<String>, sep: &str) -> (r: String)
    ensures
        r@ == join(strs(parts@), sep@),
{
    proof {
        lemma_strs(parts@);
    }
    let ghost m = strs(parts@);
    let mut out = String::new();
    let mut i: usize = 0;
    while i < parts.len()
        invariant
            i <= parts.len(),
            m == strs(parts@),
            m.len() == parts.len(),
            forall|k: int| 0 <= k < parts.len() ==> #[trigger] m[k] == parts@[k]@,
            out@ == join(m.subrange(0, i as int), sep@),
        decreases parts.len() - i,
    {
        proof {
            lemma_join_push(m.subrange(0, i as int), m[i as int], sep@);
            assert(m.subrange(0, i + 1) =~= m.subrange(0, i as int).push(m[i as int]));
        }
        if i > 0 {
            out.append(sep);
        }
        append_str(&mut out, &parts[i]);
        i += 1;
    }
    assert(m.subrange(0, parts.len() as int) =~= m);
    out
}

fn render_bound_exec(b: &TypeBound) -> (r: String)
    ensures
        r@ == render_bound(b@),
{
    match b {
        TypeBound::Lifetime { name } => {
            let mut out = String::from_str("'");
            append_str(&mut out, name);
            out
        },
        TypeBound::Trait { path } => render_path_exec(path),
        TypeBound::Verbatim { text } => crate::model::copy_str(text),
    }
}

/// The source text of a parameter as declared.
pub fn render_param_exec(p: &GenericParam) -> (r: String)
    ensures
        r@ == render_param(p@),
{
    match p {
        GenericParam::Lifetime { name, outlives } => {
            let mut out = String::from_str("'");
            append_str(&mut out, name);
            if outlives.len() > 0 {
                let mut parts: Vec<String> = Vec::new();
                let mut i: usize = 0;
                proof {
                    lemma_strs(outlives@);
                }
                while i < outlives.len()
                    invariant
                        i <= outlives.len(),
                        strs(outlives@).len() == outlives.len(),
                        forall|k: int| 0 <= k < outlives.len() ==> #[trigger] strs(outlives@)[k] == outlives@[k]@,
                        strs(parts@) == strs(outlives@).subrange(0, i as int).map_values(|o: Seq<char>| lifetime_text(o)),
                    decreases outlives.len() - i,
                {
                    let ghost prev = parts@;
                    let mut l = String::from_str("'");
                    append_str(&mut l, &outlives[i]);
                    parts.push(l);
                    assert(parts@.drop_last() =~= prev);
                    assert(strs(outlives@).subrange(0, i + 1).map_values(|o: Seq<char>| lifetime_text(o)) =~=
                        strs(outlives@).subrange(0, i as int).map_values(|o: Seq<char>| lifetime_text(o)).push(lifetime_text(outlives@[i as int]@)));
                    i += 1;
                }
                assert(strs(outlives@).subrange(0, outlives.len() as int) =~= strs(outlives@));
                out.append(": ");
                let j = join_strs(&parts, " + ");
                append_str(&mut out, &j);
            }
            out
        },
        GenericParam::Type { name, bounds } => {
            let mut out = crate::model::copy_str(name);
            if bounds.len() > 0 {
                let mut parts: Vec<String> = Vec::new();
                let mut i: usize = 0;
                proof {
                    lemma_strs(Seq::<String>::empty());
                }
                while i < bounds.len()
                    invariant
                        i <= bounds.len(),
                        strs(parts@) == bounds_model(bounds@).subrange(0, i as int).map_values(|b: BoundModel| render_bound(b)),
                    decreases bounds.len() - i,
                {
                    let ghost prev = parts@;
                    parts.push(render_bound_exec(&bounds[i]));
                    assert(parts@.drop_last() =~= prev);
                    assert(bounds_model(bounds@).subrange(0, i + 1).map_values(|b: BoundModel| render_bound(b)) =~=
                        bounds_model(bounds@).subrange(0, i as int).map_values(|b: BoundModel| render_bound(b)).push(render_bound(bounds@[i as int]@)));
                    i += 1;
                }
                assert(bounds_model(bounds@).subrange(0, bounds.len() as int) =~= bounds_model(bounds@));
                out.append(": ");
                let j = join_strs(&parts, " + ");
                append_str(&mut out, &j);
            }
            out
        },
        GenericParam::Const { name, ty } => {
            let mut out = String::from_str("const ");
            append_str(&mut out, name);
            out.append(": ");
            let t = render_type(ty);
            append_str(&mut out, &t);
            out
        },
    }
}

/// The source text of a parameter list as declared.
pub fn render_generics_exec(ps: &Vec<GenericParam>) -> (r: String)
    ensures
        r@ == render_generics(params_model(ps@)),
{
    if ps.len() == 0 {
        return String::new();
    }
    let mut parts: Vec<String> = Vec::new();
    let mut i: usize = 0;
    proof {
        lemma_strs(Seq::<String>::empty());
    }
    while i < ps.len()
        invariant
            i <= ps.len(),
            strs(parts@) == params_model(ps@).subrange(0, i as int).map_values(|p: ParamModel| render_param(p)),
        decreases ps.len() - i,
    {
        let ghost prev = parts@;
        parts.push(render_param_exec(&ps[i]));
        assert(parts@.drop_last() =~= prev);
        assert(params_model(ps@).subrange(0, i + 1).map_values(|p: ParamModel| render_param(p)) =~=
            params_model(ps@).subrange(0, i as int).map_values(|p: ParamModel| render_param(p)).push(render_param(ps@[i as int]@)));
        i += 1;
    }
    assert(params_model(ps@).subrange(0, ps.len() as int) =~= params_model(ps@));
    let mut out = String::from_str("<");
    let j = join_strs(&parts, ", ");
    append_str(&mut out, &j);
    out.append(">");
    out
}

/// Names as arguments: `<A, B>`, or nothing.
pub fn render_names_exec(ns: &Vec<String>) -> (r: String)
    ensures
        r@ == render_names(strs(ns@)),
{
    proof {
        lemma_strs(ns@);
    }
    if ns.len() == 0 {
        return String::new();
    }
    let mut out = String::from_str("<");
    let j = join_strs(ns, ", ");
    append_str(&mut out, &j);
    out.append(">");
    out
}

pub fn render_ret_exec(o: &Option<TypeExpr>) -> (r: String)
    ensures
        r@ == render_ret(crate::model::opt_type(*o)),
{
    match o {
        Some(t) => {
            let mut out = String::from_str(" -> ");
            let s = render_type(t);
            append_str(&mut out, &s);
            out
        },
        None => String::new(),
    }
}

/// Each line preceded by `indent` and followed by a line break.
pub fn render_lines_exec(lines: &Vec<String>, indent: &str) -> (r: String)
    ensures
        r@ == render_lines(strs(lines@), indent@),
{
    proof {
        lemma_strs(lines@);
    }
    let ghost m = strs(lines@);
    let mut out = String::new();
    let mut i: usize = 0;
    while i < lines.len()
        invariant
            i <= lines.len(),
            m == strs(lines@),
            m.len() == lines.len(),
            forall|k: int| 0 <= k < lines.len() ==> #[trigger] m[k] == lines@[k]@,
            out@ == render_lines(m.subrange(0, i as int), indent@),
        decreases lines.len() - i,
    {
        assert(m.subrange(0, i + 1).drop_last() =~= m.subrange(0, i as int));
        out.append(indent);
        append_str(&mut out, &lines[i]);
        out.append("\n");
        i += 1;
    }
    assert(m.subrange(0, lines.len() as int) =~= m);
    out
}

fn render_field_exec(f: &VTableField) -> (r: String)
    ensures
        r@ == render_field(f@),
{
    let mut out = render_lines_exec(&f.attrs, "    ");
    match &f.kind {
        FieldKind::Method { inputs, output } => {
            out.append("    pub ");
            append_str(&mut out, &f.name);
            out.append(": unsafe extern \"C\" fn(");
            let mut parts: Vec<String> = Vec::new();
            let mut i: usize = 0;
            proof {
                lemma_strs(Seq::<String>::empty());
            }
            while i < inputs.len()
                invariant
                    i <= inputs.len(),
                    strs(parts@) == crate::vtable::tys_model(inputs@).subrange(0, i as int).map_values(|t: TypeModel| render_ty(t)),
                decreases inputs.len() - i,
            {
                let ghost prev = parts@;
                parts.push(render_type(&inputs[i]));
                assert(parts@.drop_last() =~= prev);
                assert(crate::vtable::tys_model(inputs@).subrange(0, i + 1).map_values(|t: TypeModel| render_ty(t)) =~=
                    crate::vtable::tys_model(inputs@).subrange(0, i as int).map_values(|t: TypeModel| render_ty(t)).push(render_ty(inputs@[i as int]@)));
                i += 1;
            }
            assert(crate::vtable::tys_model(inputs@).subrange(0, inputs.len() as int) =~= crate::vtable::tys_model(inputs@));
            let j = join_strs(&parts, ", ");
            append_str(&mut out, &j);
            out.append(")");
            let ret = render_ret_exec(output);
            append_str(&mut out, &ret);
            out.append(",\n");
        },
        FieldKind::SuperRef { vtable_ident, generics } => {
            out.append("    pub ");
            append_str(&mut out, &f.name);
            out.append(": &'static ");
            append_str(&mut out, vtable_ident);
            let g = render_names_exec(generics);
            append_str(&mut out, &g);
            out.append(",\n");
        },
        FieldKind::Drop { input } => {
            out.append("    #[doc = \"A function pointer to the drop function for the trait\"]\n    pub ");
            append_str(&mut out, &f.name);
            out.append(": unsafe extern \"C\" fn(");
            let t = render_type(input);
            append_str(&mut out, &t);
            out.append("),\n");
        },
    }
    assert(out@ =~= render_field(f@));
    out
}

/// The source text of the table type.
pub fn render_vtable(v: &VTable) -> (r: String)
    ensures
        r@ == render_vtable_text(v@),
{
    let mut out = repr_c_attribute();
    out.append("\n");
    let mut doc = String::from_str("A repr C vtable for the trait ");
    append_str(&mut doc, &v.trait_ident);
    let d = doc_attribute(&doc);
    append_str(&mut out, &d);
    out.append("\n");
    if !v.vis.as_str().is_empty() {
        append_str(&mut out, &v.vis);
        out.append(" ");
    }
    out.append("struct ");
    append_str(&mut out, &v.ident);
    let g = render_generics_exec(&v.generics);
    append_str(&mut out, &g);
    out.append(" {\n");
    let mut parts: Vec<String> = Vec::new();
    let mut i: usize = 0;
    proof {
        lemma_strs(Seq::<String>::empty());
    }
    while i < v.fields.len()
        invariant
            i <= v.fields.len(),
            strs(parts@) == fields_model(v.fields@).subrange(0, i as int).map_values(|f: FieldModel| render_field(f)),
        decreases v.fields.len() - i,
    {
        let ghost prev = parts@;
        parts.push(render_field_exec(&v.fields[i]));
        assert(parts@.drop_last() =~= prev);
        assert(fields_model(v.fields@).subrange(0, i + 1).map_values(|f: FieldModel| render_field(f)) =~=
            fields_model(v.fields@).subrange(0, i as int).map_values(|f: FieldModel| render_field(f)).push(render_field(v.fields@[i as int]@)));
        i += 1;
    }
    assert(fields_model(v.fields@).subrange(0, v.fields.len() as int) =~= fields_model(v.fields@));
    let body = join_strs(&parts, "");
    append_str(&mut out, &body);
    out.append("}\n");
    assert(out@ =~= render_vtable_text(v@));
    out
}

} // verus!
