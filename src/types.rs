//! Copying types, and renaming the interface's generic parameters inside
//! them (a trampoline declares them afresh under `METHOD`-suffixed names).
use vstd::prelude::*;
use crate::model::{
    arg_model, args_model, copy_str, lemma_args_model, lemma_segments_model, lemma_strs,
    lemma_types_model, out_model, segment_model, segments_model, strs, type_model, types_model,
    ArgModel, GenericArg, PathSegment, SegmentModel, TypeExpr, TypeModel,
};
use crate::names::{map_method_ident, method_ident_of};

verus! {

/// A path that is exactly one of the given parameter names.
pub open spec fn is_param_path(segs: Seq<SegmentModel>, params: Seq<Seq<char>>) -> bool {
    segs.len() == 1 && segs[0].args.len() == 0 && params.contains(segs[0].ident)
}

pub open spec fn rename_path(segs: Seq<SegmentModel>, params: Seq<Seq<char>>) -> Seq<SegmentModel> {
    if is_param_path(segs, params) {
        seq![SegmentModel { ident: method_ident_of(segs[0].ident), args: Seq::empty() }]
    } else {
        segs
    }
}

/// Renames every parameter that stands as a whole type, looking through
/// references, pointers, slices, arrays and tuples (not into path arguments).
pub open spec fn rename_ty(t: TypeModel, params: Seq<Seq<char>>) -> TypeModel
    decreases t,
{
    match t {
        TypeModel::Path(segs) => TypeModel::Path(rename_path(segs, params)),
        TypeModel::Reference(l, m, e) => TypeModel::Reference(l, m, Box::new(rename_ty(*e, params))),
        TypeModel::Ptr(m, e) => TypeModel::Ptr(m, Box::new(rename_ty(*e, params))),
        TypeModel::Slice(e) => TypeModel::Slice(Box::new(rename_ty(*e, params))),
        TypeModel::Array(e, n) => TypeModel::Array(Box::new(rename_ty(*e, params)), n),
        TypeModel::Tuple(es) => TypeModel::Tuple(rename_tys(es, params)),
        TypeModel::BareFn(q, ins, out) => TypeModel::BareFn(q, rename_tys(ins, params), out),
        TypeModel::Verbatim(x) => TypeModel::Verbatim(x),
    }
}

pub open spec fn rename_tys(s: Seq<TypeModel>, params: Seq<Seq<char>>) -> Seq<TypeModel>
    decreases s,
{
    if s.len() == 0 {
        Seq::empty()
    } else {
        rename_tys(s.drop_last(), params).push(rename_ty(s.last(), params))
    }
}

/// One path argument renamed: a whole type argument that is a parameter,
/// and the types inside `Fn(..) -> ..` arguments throughout.
pub open spec fn rename_arg(a: ArgModel, params: Seq<Seq<char>>) -> ArgModel
    decreases a,
{
    match a {
        ArgModel::Type(TypeModel::Path(segs)) => ArgModel::Type(TypeModel::Path(rename_path(segs, params))),
        ArgModel::Sugar(ins, out) => ArgModel::Sugar(
            rename_tys_args(ins, params),
            match out {
                Some(o) => Some(Box::new(rename_ty_args(*o, params))),
                None => None,
            },
        ),
        _ => a,
    }
}

pub open spec fn rename_args(args: Seq<ArgModel>, params: Seq<Seq<char>>) -> Seq<ArgModel>
    decreases args,
{
    if args.len() == 0 {
        Seq::empty()
    } else {
        rename_args(args.drop_last(), params).push(rename_arg(args.last(), params))
    }
}

pub open spec fn rename_segment_args(s: SegmentModel, params: Seq<Seq<char>>) -> SegmentModel
    decreases s,
{
    SegmentModel { ident: s.ident, args: rename_args(s.args, params) }
}

pub open spec fn rename_segs_args(segs: Seq<SegmentModel>, params: Seq<Seq<char>>) -> Seq<SegmentModel>
    decreases segs,
{
    if segs.len() == 0 {
        Seq::empty()
    } else {
        rename_segs_args(segs.drop_last(), params).push(rename_segment_args(segs.last(), params))
    }
}

/// Renames every parameter that stands as a whole type argument of a path,
/// looking through references, pointers, slices, arrays and tuples.
pub open spec fn rename_ty_args(t: TypeModel, params: Seq<Seq<char>>) -> TypeModel
    decreases t,
{
    match t {
        TypeModel::Path(segs) => TypeModel::Path(rename_segs_args(segs, params)),
        TypeModel::Reference(l, m, e) => TypeModel::Reference(l, m, Box::new(rename_ty_args(*e, params))),
        TypeModel::Ptr(m, e) => TypeModel::Ptr(m, Box::new(rename_ty_args(*e, params))),
        TypeModel::Slice(e) => TypeModel::Slice(Box::new(rename_ty_args(*e, params))),
        TypeModel::Array(e, n) => TypeModel::Array(Box::new(rename_ty_args(*e, params)), n),
        TypeModel::Tuple(es) => TypeModel::Tuple(rename_tys_args(es, params)),
        TypeModel::BareFn(q, ins, out) => TypeModel::BareFn(q, rename_tys_args(ins, params), out),
        TypeModel::Verbatim(x) => TypeModel::Verbatim(x),
    }
}

pub open spec fn rename_tys_args(s: Seq<TypeModel>, params: Seq<Seq<char>>) -> Seq<TypeModel>
    decreases s,
{
    if s.len() == 0 {
        Seq::empty()
    } else {
        rename_tys_args(s.drop_last(), params).push(rename_ty_args(s.last(), params))
    }
}

/// Whether `name` is among `names`.
pub fn contains_str(names: &Vec<String>, name: &String) -> (r: bool)
    ensures
        r == strs(names@).contains(name@),
{
    proof {
        lemma_strs(names@);
    }
    let mut i: usize = 0;
    while i < names.len()
        invariant
            i <= names.len(),
            strs(names@).len() == names.len(),
            forall|k: int| 0 <= k < names.len() ==> #[trigger] strs(names@)[k] == names@[k]@,
            forall|k: int| 0 <= k < i ==> strs(names@)[k] != name@,
        decreases names.len() - i,
    {
        if names[i] == *name {
            assert(strs(names@)[i as int] == name@);
            return true;
        }
        i += 1;
    }
    false
}

pub fn copy_type(t: &TypeExpr) -> (r: TypeExpr)
    ensures
        r@ == t@,
    decreases t,
{
    match t {
        TypeExpr::Path { segments } => TypeExpr::Path { segments: copy_segments(segments) },
        TypeExpr::Reference { lifetime, mutable, elem } => {
            let l = match lifetime {
                Some(s) => Some(copy_str(s)),
                None => None,
            };
            TypeExpr::Reference { lifetime: l, mutable: *mutable, elem: Box::new(copy_type(elem)) }
        },
        TypeExpr::Ptr { mutable, elem } => TypeExpr::Ptr {
            mutable: *mutable,
            elem: Box::new(copy_type(elem)),
        },
        TypeExpr::Slice { elem } => TypeExpr::Slice { elem: Box::new(copy_type(elem)) },
        TypeExpr::Array { elem, len } => TypeExpr::Array {
            elem: Box::new(copy_type(elem)),
            len: copy_str(len),
        },
        TypeExpr::Tuple { elems } => TypeExpr::Tuple { elems: copy_types(elems) },
        TypeExpr::BareFn { qualifiers, inputs, output } => TypeExpr::BareFn {
            qualifiers: copy_str(qualifiers),
            inputs: copy_types(inputs),
            output: copy_output(output),
        },
        TypeExpr::Verbatim { text } => TypeExpr::Verbatim { text: copy_str(text) },
    }
}

/// A copy of a function type's output.
pub fn copy_output(o: &Option<Box<TypeExpr>>) -> (r: Option<Box<TypeExpr>>)
    ensures
        out_model(r) == out_model(*o),
    decreases o,
{
    match o {
        Some(b) => Some(Box::new(copy_type(b))),
        None => None,
    }
}

pub fn copy_types(v: &Vec<TypeExpr>) -> (r: Vec<TypeExpr>)
    ensures
        types_model(r@) == types_model(v@),
    decreases v,
{
    let mut r: Vec<TypeExpr> = Vec::new();
    let mut i: usize = 0;
    while i < v.len()
        invariant
            i <= v.len(),
            types_model(r@) == types_model(v@.subrange(0, i as int)),
        decreases v.len() - i,
    {
        let ghost prev = r@;
        assert(decreases_to!(v => v[i as int]));
        r.push(copy_type(&v[i]));
        assert(v@.subrange(0, i + 1).drop_last() =~= v@.subrange(0, i as int));
        assert(r@.drop_last() =~= prev);
        i += 1;
    }
    assert(v@.subrange(0, v.len() as int) =~= v@);
    r
}

pub fn copy_segment(s: &PathSegment) -> (r: PathSegment)
    ensures
        r@ == s@,
    decreases s,
{
    PathSegment { ident: copy_str(&s.ident), args: copy_args(&s.args) }
}

pub fn copy_segments(v: &Vec<PathSegment>) -> (r: Vec<PathSegment>)
    ensures
        segments_model(r@) == segments_model(v@),
    decreases v,
{
    let mut r: Vec<PathSegment> = Vec::new();
    let mut i: usize = 0;
    while i < v.len()
        invariant
            i <= v.len(),
            segments_model(r@) == segments_model(v@.subrange(0, i as int)),
        decreases v.len() - i,
    {
        let ghost prev = r@;
        assert(decreases_to!(v => v[i as int]));
        r.push(copy_segment(&v[i]));
        assert(v@.subrange(0, i + 1).drop_last() =~= v@.subrange(0, i as int));
        assert(r@.drop_last() =~= prev);
        i += 1;
    }
    assert(v@.subrange(0, v.len() as int) =~= v@);
    r
}

pub fn copy_arg(a: &GenericArg) -> (r: GenericArg)
    ensures
        r@ == a@,
    decreases a,
{
    match a {
        GenericArg::Type { ty } => GenericArg::Type { ty: copy_type(ty) },
        GenericArg::Lifetime { name } => GenericArg::Lifetime { name: copy_str(name) },
        GenericArg::Verbatim { text } => GenericArg::Verbatim { text: copy_str(text) },
        GenericArg::Sugar { inputs, output } => GenericArg::Sugar {
            inputs: copy_types(inputs),
            output: copy_output(output),
        },
    }
}

pub fn copy_args(v: &Vec<GenericArg>) -> (r: Vec<GenericArg>)
    ensures
        args_model(r@) == args_model(v@),
    decreases v,
{
    let mut r: Vec<GenericArg> = Vec::new();
    let mut i: usize = 0;
    while i < v.len()
        invariant
            i <= v.len(),
            args_model(r@) == args_model(v@.subrange(0, i as int)),
        decreases v.len() - i,
    {
        let ghost prev = r@;
        assert(decreases_to!(v => v[i as int]));
        r.push(copy_arg(&v[i]));
        assert(v@.subrange(0, i + 1).drop_last() =~= v@.subrange(0, i as int));
        assert(r@.drop_last() =~= prev);
        i += 1;
    }
    assert(v@.subrange(0, v.len() as int) =~= v@);
    r
}

/// A copy of a path with `rename_path` applied.
fn rename_path_exec(segments: &Vec<PathSegment>, params: &Vec<String>) -> (r: Vec<PathSegment>)
    ensures
        segments_model(r@) == rename_path(segments_model(segments@), strs(params@)),
{
    proof {
        lemma_segments_model(segments@);
    }
    if segments.len() == 1 && segments[0].args.len() == 0 && contains_str(params, &segments[0].ident) {
        proof {
            lemma_args_model(segments[0].args@);
        }
        let seg = PathSegment { ident: map_method_ident(&segments[0].ident), args: Vec::new() };
        let r = vec![seg];
        proof {
            lemma_segments_model(r@);
            assert(segments_model(r@) =~= rename_path(segments_model(segments@), strs(params@)));
        }
        r
    } else {
        proof {
            if segments.len() == 1 {
                lemma_args_model(segments[0].args@);
            }
        }
        copy_segments(segments)
    }
}

/// Renames the parameters `params` wherever one stands as a whole type.
pub fn map_ty(t: &TypeExpr, params: &Vec<String>) -> (r: TypeExpr)
    ensures
        r@ == rename_ty(t@, strs(params@)),
    decreases t,
{
    match t {
        TypeExpr::Path { segments } => TypeExpr::Path { segments: rename_path_exec(segments, params) },
        TypeExpr::Reference { lifetime, mutable, elem } => {
            let l = match lifetime {
                Some(s) => Some(copy_str(s)),
                None => None,
            };
            TypeExpr::Reference { lifetime: l, mutable: *mutable, elem: Box::new(map_ty(elem, params)) }
        },
        TypeExpr::Ptr { mutable, elem } => TypeExpr::Ptr {
            mutable: *mutable,
            elem: Box::new(map_ty(elem, params)),
        },
        TypeExpr::Slice { elem } => TypeExpr::Slice { elem: Box::new(map_ty(elem, params)) },
        TypeExpr::Array { elem, len } => TypeExpr::Array {
            elem: Box::new(map_ty(elem, params)),
            len: copy_str(len),
        },
        TypeExpr::Tuple { elems } => TypeExpr::Tuple { elems: map_tys(elems, params) },
        TypeExpr::BareFn { qualifiers, inputs, output } => TypeExpr::BareFn {
            qualifiers: copy_str(qualifiers),
            inputs: map_tys(inputs, params),
            output: copy_output(output),
        },
        TypeExpr::Verbatim { text } => TypeExpr::Verbatim { text: copy_str(text) },
    }
}

fn map_tys(v: &Vec<TypeExpr>, params: &Vec<String>) -> (r: Vec<TypeExpr>)
    ensures
        types_model(r@) == rename_tys(types_model(v@), strs(params@)),
    decreases v,
{
    let mut r: Vec<TypeExpr> = Vec::new();
    let mut i: usize = 0;
    proof {
        lemma_types_model(v@);
    }
    while i < v.len()
        invariant
            i <= v.len(),
            types_model(v@).len() == v.len(),
            forall|k: int| 0 <= k < v.len() ==> #[trigger] types_model(v@)[k] == type_model(v@[k]),
            types_model(r@) == rename_tys(types_model(v@).subrange(0, i as int), strs(params@)),
        decreases v.len() - i,
    {
        let ghost prev = r@;
        assert(decreases_to!(v => v[i as int]));
        r.push(map_ty(&v[i], params));
        assert(types_model(v@).subrange(0, i + 1).drop_last() =~= types_model(v@).subrange(0, i as int));
        assert(r@.drop_last() =~= prev);
        i += 1;
    }
    assert(types_model(v@).subrange(0, v.len() as int) =~= types_model(v@));
    r
}

/// `rename_arg` on one argument.
fn rename_arg_exec(a: &GenericArg, params: &Vec<String>) -> (r: GenericArg)
    ensures
        r@ == rename_arg(a@, strs(params@)),
    decreases a,
{
    match a {
        GenericArg::Type { ty: TypeExpr::Path { segments } } => GenericArg::Type {
            ty: TypeExpr::Path { segments: rename_path_exec(segments, params) },
        },
        GenericArg::Sugar { inputs, output } => {
            let ins = map_tys_generics(inputs, params);
            let out = match output {
                Some(o) => {
                    let r = Some(Box::new(map_ty_generics(o, params)));
                    assert(out_model(*output) == Some(Box::new(type_model(**o))));
                    r
                },
                None => None,
            };
            GenericArg::Sugar { inputs: ins, output: out }
        },
        _ => copy_arg(a),
    }
}

fn rename_segment_args_exec(s: &PathSegment, params: &Vec<String>) -> (r: PathSegment)
    ensures
        r@ == rename_segment_args(s@, strs(params@)),
    decreases s,
{
    PathSegment { ident: copy_str(&s.ident), args: rename_args_exec(&s.args, params) }
}

fn rename_args_exec(v: &Vec<GenericArg>, params: &Vec<String>) -> (r: Vec<GenericArg>)
    ensures
        args_model(r@) == rename_args(args_model(v@), strs(params@)),
    decreases v,
{
    let mut out: Vec<GenericArg> = Vec::new();
    let mut i: usize = 0;
    proof {
        lemma_args_model(v@);
    }
    while i < v.len()
        invariant
            i <= v.len(),
            args_model(v@).len() == v.len(),
            forall|k: int| 0 <= k < v.len() ==> #[trigger] args_model(v@)[k] == arg_model(v@[k]),
            args_model(out@) == rename_args(args_model(v@).subrange(0, i as int), strs(params@)),
        decreases v.len() - i,
    {
        let ghost prev = out@;
        assert(decreases_to!(v => v[i as int]));
        out.push(rename_arg_exec(&v[i], params));
        assert(out@.drop_last() =~= prev);
        assert(args_model(v@).subrange(0, i + 1).drop_last() =~= args_model(v@).subrange(0, i as int));
        i += 1;
    }
    assert(args_model(v@).subrange(0, v.len() as int) =~= args_model(v@));
    out
}

fn rename_segs_args_exec(v: &Vec<PathSegment>, params: &Vec<String>) -> (r: Vec<PathSegment>)
    ensures
        segments_model(r@) == rename_segs_args(segments_model(v@), strs(params@)),
    decreases v,
{
    let mut out: Vec<PathSegment> = Vec::new();
    let mut i: usize = 0;
    proof {
        lemma_segments_model(v@);
    }
    while i < v.len()
        invariant
            i <= v.len(),
            segments_model(v@).len() == v.len(),
            forall|k: int| 0 <= k < v.len() ==> #[trigger] segments_model(v@)[k] == segment_model(v@[k]),
            segments_model(out@) == rename_segs_args(segments_model(v@).subrange(0, i as int), strs(params@)),
        decreases v.len() - i,
    {
        let ghost prev = out@;
        assert(decreases_to!(v => v[i as int]));
        out.push(rename_segment_args_exec(&v[i], params));
        assert(out@.drop_last() =~= prev);
        assert(segments_model(v@).subrange(0, i + 1).drop_last() =~= segments_model(v@).subrange(0, i as int));
        i += 1;
    }
    assert(segments_model(v@).subrange(0, v.len() as int) =~= segments_model(v@));
    out
}

/// Renames the parameters `params` wherever one stands as a whole type
/// argument of a path.
pub fn map_ty_generics(t: &TypeExpr, params: &Vec<String>) -> (r: TypeExpr)
    ensures
        r@ == rename_ty_args(t@, strs(params@)),
    decreases t,
{
    match t {
        TypeExpr::Path { segments } => TypeExpr::Path { segments: rename_segs_args_exec(segments, params) },
        TypeExpr::Reference { lifetime, mutable, elem } => {
            let l = match lifetime {
                Some(s) => Some(copy_str(s)),
                None => None,
            };
            TypeExpr::Reference {
                lifetime: l,
                mutable: *mutable,
                elem: Box::new(map_ty_generics(elem, params)),
            }
        },
        TypeExpr::Ptr { mutable, elem } => TypeExpr::Ptr {
            mutable: *mutable,
            elem: Box::new(map_ty_generics(elem, params)),
        },
        TypeExpr::Slice { elem } => TypeExpr::Slice { elem: Box::new(map_ty_generics(elem, params)) },
        TypeExpr::Array { elem, len } => TypeExpr::Array {
            elem: Box::new(map_ty_generics(elem, params)),
            len: copy_str(len),
        },
        TypeExpr::Tuple { elems } => TypeExpr::Tuple { elems: map_tys_generics(elems, params) },
        TypeExpr::BareFn { qualifiers, inputs, output } => TypeExpr::BareFn {
            qualifiers: copy_str(qualifiers),
            inputs: map_tys_generics(inputs, params),
            output: copy_output(output),
        },
        TypeExpr::Verbatim { text } => TypeExpr::Verbatim { text: copy_str(text) },
    }
}

fn map_tys_generics(v: &Vec<TypeExpr>, params: &Vec<String>) -> (r: Vec<TypeExpr>)
    ensures
        types_model(r@) == rename_tys_args(types_model(v@), strs(params@)),
    decreases v,
{
    let mut r: Vec<TypeExpr> = Vec::new();
    let mut i: usize = 0;
    proof {
        lemma_types_model(v@);
    }
    while i < v.len()
        invariant
            i <= v.len(),
            types_model(v@).len() == v.len(),
            forall|k: int| 0 <= k < v.len() ==> #[trigger] types_model(v@)[k] == type_model(v@[k]),
            types_model(r@) == rename_tys_args(types_model(v@).subrange(0, i as int), strs(params@)),
        decreases v.len() - i,
    {
        let ghost prev = r@;
        assert(decreases_to!(v => v[i as int]));
        r.push(map_ty_generics(&v[i], params));
        assert(types_model(v@).subrange(0, i + 1).drop_last() =~= types_model(v@).subrange(0, i as int));
        assert(r@.drop_last() =~= prev);
        i += 1;
    }
    assert(types_model(v@).subrange(0, v.len() as int) =~= types_model(v@));
    r
}

} // verus!
