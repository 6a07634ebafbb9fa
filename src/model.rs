//! The declaration of an interface, as the generator reads it, and its
//! mathematical model.
//!
//! Each executable type below has a spec-level mirror (`TypeModel`,
//! `SegmentModel`, ...) built from `Seq` and `Seq<char>`, reached through
//! `@`. Contracts throughout the crate are stated over those mirrors.
use vstd::prelude::*;

verus! {

/// A Rust type, as far as the generator needs to look into it.
pub enum TypeExpr {
    /// `a::b::C<X, 'l>`: one entry per path segment.
    Path { segments: Vec<PathSegment> },
    /// `&'l T` or `&'l mut T`.
    Reference { lifetime: Option<String>, mutable: bool, elem: Box<TypeExpr> },
    /// `*const T` or `*mut T`.
    Ptr { mutable: bool, elem: Box<TypeExpr> },
    /// `[T]`.
    Slice { elem: Box<TypeExpr> },
    /// `[T; N]`, with the length expression kept as written.
    Array { elem: Box<TypeExpr>, len: String },
    /// `(A, B, ...)`.
    Tuple { elems: Vec<TypeExpr> },
    /// `unsafe extern "C" fn(A, B) -> R`: the qualifiers before `fn` as
    /// written (with a trailing space, or empty), the input types and the
    /// output type.
    BareFn { qualifiers: String, inputs: Vec<TypeExpr>, output: Option<Box<TypeExpr>> },
    /// Any other type, kept as its source text and never looked into.
    Verbatim { text: String },
}

/// One segment of a path: an identifier and its angle-bracketed arguments.
pub struct PathSegment {
    pub ident: String,
    pub args: Vec<GenericArg>,
}

/// One argument between the angle brackets of a path segment.
pub enum GenericArg {
    Type { ty: TypeExpr },
    Lifetime { name: String },
    /// A const expression or an associated-type binding, kept as written.
    Verbatim { text: String },
    /// The parenthesized arguments of `Fn(A, B) -> C`, which stand alone
    /// in their segment: the input types and the output type.
    Sugar { inputs: Vec<TypeExpr>, output: Option<Box<TypeExpr>> },
}

pub enum TypeModel {
    Path(Seq<SegmentModel>),
    Reference(Option<Seq<char>>, bool, Box<TypeModel>),
    Ptr(bool, Box<TypeModel>),
    Slice(Box<TypeModel>),
    Array(Box<TypeModel>, Seq<char>),
    Tuple(Seq<TypeModel>),
    BareFn(Seq<char>, Seq<TypeModel>, Option<Box<TypeModel>>),
    Verbatim(Seq<char>),
}

pub struct SegmentModel {
    pub ident: Seq<char>,
    pub args: Seq<ArgModel>,
}

pub enum ArgModel {
    Type(TypeModel),
    Lifetime(Seq<char>),
    Verbatim(Seq<char>),
    Sugar(Seq<TypeModel>, Option<Box<TypeModel>>),
}

/// A bound: on a generic parameter, or a super-interface of the interface.
pub enum TypeBound {
    Lifetime { name: String },
    Trait { path: Vec<PathSegment> },
    /// Any other bound (`?Sized`, a higher-ranked bound, ...), kept as written.
    Verbatim { text: String },
}

pub enum BoundModel {
    Lifetime(Seq<char>),
    Trait(Seq<SegmentModel>),
    Verbatim(Seq<char>),
}

impl View for TypeBound {
    type V = BoundModel;

    open spec fn view(&self) -> BoundModel {
        match *self {
            TypeBound::Lifetime { name } => BoundModel::Lifetime(name@),
            TypeBound::Trait { path } => BoundModel::Trait(segments_model(path@)),
            TypeBound::Verbatim { text } => BoundModel::Verbatim(text@),
        }
    }
}

/// A generic parameter of the interface.
pub enum GenericParam {
    Lifetime { name: String, outlives: Vec<String> },
    Type { name: String, bounds: Vec<TypeBound> },
    Const { name: String, ty: TypeExpr },
}

pub enum ParamModel {
    Lifetime(Seq<char>, Seq<Seq<char>>),
    Type(Seq<char>, Seq<BoundModel>),
    Const(Seq<char>, TypeModel),
}

pub open spec fn bounds_model(s: Seq<TypeBound>) -> Seq<BoundModel> {
    s.map_values(|b: TypeBound| b@)
}

impl View for GenericParam {
    type V = ParamModel;

    open spec fn view(&self) -> ParamModel {
        match *self {
            GenericParam::Lifetime { name, outlives } => ParamModel::Lifetime(name@, strs(outlives@)),
            GenericParam::Type { name, bounds } => ParamModel::Type(name@, bounds_model(bounds@)),
            GenericParam::Const { name, ty } => ParamModel::Const(name@, ty@),
        }
    }
}

pub open spec fn params_model(s: Seq<GenericParam>) -> Seq<ParamModel> {
    s.map_values(|p: GenericParam| p@)
}

/// How a method takes `self`.
#[derive(PartialEq, Eq, Structural, Clone, Copy, Debug)]
pub enum Receiver {
    /// `&self`
    Ref,
    /// `&mut self`
    RefMut,
    /// `self`
    Owned,
    /// Any other receiver (`self: Rc<Self>`, ...), which the erasure model cannot carry.
    Unsupported,
}

/// One input of a method signature.
pub enum FnInput {
    Receiver { kind: Receiver },
    /// `pat: ty`, with the pattern kept as written.
    Typed { pat: String, ty: TypeExpr },
}

pub enum InputModel {
    Receiver(Receiver),
    Typed(Seq<char>, TypeModel),
}

impl View for FnInput {
    type V = InputModel;

    open spec fn view(&self) -> InputModel {
        match *self {
            FnInput::Receiver { kind } => InputModel::Receiver(kind),
            FnInput::Typed { pat, ty } => InputModel::Typed(pat@, ty@),
        }
    }
}

pub open spec fn inputs_model(s: Seq<FnInput>) -> Seq<InputModel> {
    s.map_values(|i: FnInput| i@)
}

/// A method of the interface, in declaration order within it.
pub struct MethodSig {
    /// Outer attributes (doc comments included), each as written.
    pub attrs: Vec<String>,
    pub name: String,
    pub inputs: Vec<FnInput>,
    pub output: Option<TypeExpr>,
}

pub struct MethodModel {
    pub attrs: Seq<Seq<char>>,
    pub name: Seq<char>,
    pub inputs: Seq<InputModel>,
    pub output: Option<TypeModel>,
}

pub open spec fn opt_type(o: Option<TypeExpr>) -> Option<TypeModel> {
    match o {
        Some(t) => Some(t@),
        None => None,
    }
}

impl View for MethodSig {
    type V = MethodModel;

    open spec fn view(&self) -> MethodModel {
        MethodModel {
            attrs: strs(self.attrs@),
            name: self.name@,
            inputs: inputs_model(self.inputs@),
            output: opt_type(self.output),
        }
    }
}

pub open spec fn methods_model(s: Seq<MethodSig>) -> Seq<MethodModel> {
    s.map_values(|m: MethodSig| m@)
}

/// An interface declaration: a named set of methods and super-interfaces.
pub struct InterfaceDef {
    /// The visibility as written (`pub`, `pub(crate)`, or empty).
    pub vis: String,
    pub ident: String,
    pub generics: Vec<GenericParam>,
    /// The super-interface bounds, in declaration order.
    pub supertraits: Vec<TypeBound>,
    pub methods: Vec<MethodSig>,
}

pub struct InterfaceModel {
    pub vis: Seq<char>,
    pub ident: Seq<char>,
    pub generics: Seq<ParamModel>,
    pub supertraits: Seq<BoundModel>,
    pub methods: Seq<MethodModel>,
}

impl View for InterfaceDef {
    type V = InterfaceModel;

    open spec fn view(&self) -> InterfaceModel {
        InterfaceModel {
            vis: self.vis@,
            ident: self.ident@,
            generics: params_model(self.generics@),
            supertraits: bounds_model(self.supertraits@),
            methods: methods_model(self.methods@),
        }
    }
}

pub open spec fn opt_str(o: Option<String>) -> Option<Seq<char>> {
    match o {
        Some(s) => Some(s@),
        None => None,
    }
}

pub open spec fn strs(s: Seq<String>) -> Seq<Seq<char>>
    decreases s.len(),
{
    if s.len() == 0 {
        Seq::empty()
    } else {
        strs(s.drop_last()).push(s.last()@)
    }
}

pub open spec fn type_model(t: TypeExpr) -> TypeModel
    decreases t,
{
    match t {
        TypeExpr::Path { segments } => TypeModel::Path(segments_model(segments@)),
        TypeExpr::Reference { lifetime, mutable, elem } => TypeModel::Reference(
            opt_str(lifetime),
            mutable,
            Box::new(type_model(*elem)),
        ),
        TypeExpr::Ptr { mutable, elem } => TypeModel::Ptr(mutable, Box::new(type_model(*elem))),
        TypeExpr::Slice { elem } => TypeModel::Slice(Box::new(type_model(*elem))),
        TypeExpr::Array { elem, len } => TypeModel::Array(Box::new(type_model(*elem)), len@),
        TypeExpr::Tuple { elems } => TypeModel::Tuple(types_model(elems@)),
        TypeExpr::BareFn { qualifiers, inputs, output } => TypeModel::BareFn(
            qualifiers@,
            types_model(inputs@),
            out_model(output),
        ),
        TypeExpr::Verbatim { text } => TypeModel::Verbatim(text@),
    }
}

/// The output of a function type.
pub open spec fn out_model(o: Option<Box<TypeExpr>>) -> Option<Box<TypeModel>>
    decreases o,
{
    match o {
        Some(b) => Some(Box::new(type_model(*b))),
        None => None,
    }
}

pub open spec fn types_model(s: Seq<TypeExpr>) -> Seq<TypeModel>
    decreases s,
{
    if s.len() == 0 {
        Seq::empty()
    } else {
        types_model(s.drop_last()).push(type_model(s.last()))
    }
}

pub open spec fn segment_model(s: PathSegment) -> SegmentModel
    decreases s,
{
    SegmentModel { ident: s.ident@, args: args_model(s.args@) }
}

pub open spec fn segments_model(s: Seq<PathSegment>) -> Seq<SegmentModel>
    decreases s,
{
    if s.len() == 0 {
        Seq::empty()
    } else {
        segments_model(s.drop_last()).push(segment_model(s.last()))
    }
}

pub open spec fn arg_model(a: GenericArg) -> ArgModel
    decreases a,
{
    match a {
        GenericArg::Type { ty } => ArgModel::Type(type_model(ty)),
        GenericArg::Lifetime { name } => ArgModel::Lifetime(name@),
        GenericArg::Verbatim { text } => ArgModel::Verbatim(text@),
        GenericArg::Sugar { inputs, output } => ArgModel::Sugar(types_model(inputs@), out_model(output)),
    }
}

pub open spec fn args_model(s: Seq<GenericArg>) -> Seq<ArgModel>
    decreases s,
{
    if s.len() == 0 {
        Seq::empty()
    } else {
        args_model(s.drop_last()).push(arg_model(s.last()))
    }
}

impl View for TypeExpr {
    type V = TypeModel;

    open spec fn view(&self) -> TypeModel {
        type_model(*self)
    }
}

impl View for PathSegment {
    type V = SegmentModel;

    open spec fn view(&self) -> SegmentModel {
        segment_model(*self)
    }
}

impl View for GenericArg {
    type V = ArgModel;

    open spec fn view(&self) -> ArgModel {
        arg_model(*self)
    }
}

pub proof fn lemma_strs(s: Seq<String>)
    ensures
        strs(s).len() == s.len(),
        forall|i: int| 0 <= i < s.len() ==> #[trigger] strs(s)[i] == s[i]@,
    decreases s.len(),
{
    if s.len() > 0 {
        lemma_strs(s.drop_last());
    }
}

pub proof fn lemma_types_model(s: Seq<TypeExpr>)
    ensures
        types_model(s).len() == s.len(),
        forall|i: int| 0 <= i < s.len() ==> #[trigger] types_model(s)[i] == type_model(s[i]),
    decreases s.len(),
{
    if s.len() > 0 {
        lemma_types_model(s.drop_last());
    }
}

pub proof fn lemma_segments_model(s: Seq<PathSegment>)
    ensures
        segments_model(s).len() == s.len(),
        forall|i: int| 0 <= i < s.len() ==> #[trigger] segments_model(s)[i] == segment_model(s[i]),
    decreases s.len(),
{
    if s.len() > 0 {
        lemma_segments_model(s.drop_last());
    }
}

pub proof fn lemma_args_model(s: Seq<GenericArg>)
    ensures
        args_model(s).len() == s.len(),
        forall|i: int| 0 <= i < s.len() ==> #[trigger] args_model(s)[i] == arg_model(s[i]),
    decreases s.len(),
{
    if s.len() > 0 {
        lemma_args_model(s.drop_last());
    }
}

pub proof fn lemma_push_contains<A>(s: Seq<A>, x: A, y: A)
    ensures
        s.push(x).contains(y) == (s.contains(y) || x == y),
{
    if s.contains(y) {
        let k = choose|k: int| 0 <= k < s.len() && s[k] == y;
        assert(s.push(x)[k] == y);
    }
    if x == y {
        assert(s.push(x)[s.len() as int] == y);
    }
    if s.push(x).contains(y) {
        let k = choose|k: int| 0 <= k < s.len() + 1 && s.push(x)[k] == y;
        if k < s.len() {
            assert(s[k] == y);
        }
    }
}

/// A copy of a string with the same characters.
pub fn copy_str(s: &String) -> (r: String)
    ensures
        r@ == s@,
{
    s.clone()
}

pub fn copy_strs(v: &Vec<String>) -> (r: Vec<String>)
    ensures
        strs(r@) == strs(v@),
{
    let mut r: Vec<String> = Vec::new();
    let mut i: usize = 0;
    while i < v.len()
        invariant
            i <= v.len(),
            strs(r@) == strs(v@.subrange(0, i as int)),
        decreases v.len() - i,
    {
        let ghost prev = r@;
        r.push(copy_str(&v[i]));
        assert(v@.subrange(0, i + 1).drop_last() =~= v@.subrange(0, i as int));
        assert(r@.drop_last() =~= prev);
        i += 1;
    }
    assert(v@.subrange(0, v.len() as int) =~= v@);
    r
}

} // verus!
