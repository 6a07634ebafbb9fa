use crusty_traits::expand::{expand_interface, impl_crusty_trait, GenError};
use crusty_traits::methods::PassArg;
use crusty_traits::model::{
    FnInput, GenericArg, GenericParam, InterfaceDef, MethodSig, PathSegment, Receiver, TypeBound,
    TypeExpr,
};
use crusty_traits::names::{map_field_ident, map_method_ident, map_vtable_ident};
use crusty_traits::render::{render_type, render_vtable};
use crusty_traits::render_impls::{decimal_exec, render_as_vtable, render_methods};
use crusty_traits::render_forward::render_upcast;
use crusty_traits::super_trait::get_super_traits;
use crusty_traits::trait_for_cref::ForwardArg;
use crusty_traits::vtable::{create_vtable, FieldKind, VTable};

fn s(x: &str) -> String {
    x.to_string()
}

fn ty(name: &str) -> TypeExpr {
    ty_args(name, vec![])
}

fn ty_args(name: &str, args: Vec<TypeExpr>) -> TypeExpr {
    TypeExpr::Path {
        segments: vec![PathSegment {
            ident: s(name),
            args: args.into_iter().map(|ty| GenericArg::Type { ty }).collect(),
        }],
    }
}

fn bound(name: &str, args: Vec<TypeExpr>) -> TypeBound {
    TypeBound::Trait {
        path: vec![PathSegment {
            ident: s(name),
            args: args.into_iter().map(|ty| GenericArg::Type { ty }).collect(),
        }],
    }
}

fn tparam(name: &str) -> GenericParam {
    GenericParam::Type { name: s(name), bounds: vec![] }
}

fn recv(kind: Receiver) -> FnInput {
    FnInput::Receiver { kind }
}

fn arg(pat: &str, t: TypeExpr) -> FnInput {
    FnInput::Typed { pat: s(pat), ty: t }
}

fn method(name: &str, inputs: Vec<FnInput>, output: Option<TypeExpr>) -> MethodSig {
    MethodSig { attrs: vec![], name: s(name), inputs, output }
}

fn iface(
    vis: &str,
    ident: &str,
    generics: Vec<GenericParam>,
    supertraits: Vec<TypeBound>,
    methods: Vec<MethodSig>,
) -> InterfaceDef {
    InterfaceDef { vis: s(vis), ident: s(ident), generics, supertraits, methods }
}

fn norm(x: &str) -> String {
    x.split_whitespace().collect::<Vec<_>>().join(" ")
}

fn vtable_of(input: &InterfaceDef) -> VTable {
    let supers = match get_super_traits(input) {
        Ok(r) => r.super_traits,
        Err(_) => panic!("super traits"),
    };
    match create_vtable(input, &supers) {
        Ok(v) => v,
        Err(_) => panic!("layout"),
    }
}

fn field_names(v: &VTable) -> Vec<String> {
    v.fields.iter().map(|f| f.name.clone()).collect()
}

fn counter() -> InterfaceDef {
    iface(
        "pub",
        "Counter",
        vec![],
        vec![],
        vec![
            method("increment", vec![recv(Receiver::RefMut)], None),
            method("value", vec![recv(Receiver::Ref)], Some(ty("i64"))),
        ],
    )
}

#[test]
fn counter_scenario_dispatches_by_receiver_kind() {
    let x = expand_interface(&counter()).ok().unwrap();
    assert_eq!(field_names(&x.vtable), vec!["increment", "value", "drop"]);
    let v = render_vtable(&x.vtable);
    assert!(v.contains("pub increment: unsafe extern \"C\" fn(CRefMut<Self>),"));
    assert!(v.contains("pub value: unsafe extern \"C\" fn(CRef<Self>) -> i64,"));
    assert_eq!(x.methods.trampolines[0].pass, vec![PassArg::Exclusive]);
    assert_eq!(x.methods.trampolines[1].pass, vec![PassArg::Shared]);
    assert!(matches!(x.direct.methods[0].args[0], ForwardArg::Exclusive));
    assert!(matches!(x.direct.methods[1].args[0], ForwardArg::Shared));
    let m = render_methods(&x.methods, &vec![]);
    assert!(m.contains("GEN::increment(&mut *(arg0.as_ptr() as *mut GEN))"));
    assert!(m.contains("GEN::value(&*(arg0.as_ptr() as *const GEN))"));
}

#[test]
fn shape_with_a_marker_has_two_fields() {
    let shape = iface(
        "pub",
        "Shape",
        vec![],
        vec![bound("Send", vec![])],
        vec![method("area", vec![recv(Receiver::Ref)], Some(ty("f64")))],
    );
    let x = expand_interface(&shape).ok().unwrap();
    assert_eq!(x.vtable.fields.len(), 2);
    assert_eq!(field_names(&x.vtable), vec!["area", "drop"]);
    assert_eq!(x.as_vtable_impls.len(), 0);
    assert_eq!(x.upcast.markers, vec!["Send"]);
}

#[test]
fn sub_interface_reaches_its_super_interface() {
    let a = iface("pub", "A", vec![], vec![], vec![method("ping", vec![recv(Receiver::Ref)], Some(ty("i32")))]);
    let b = iface(
        "pub",
        "B",
        vec![],
        vec![bound("A", vec![])],
        vec![method("pong", vec![recv(Receiver::Ref)], Some(ty("i32")))],
    );
    let xb = expand_interface(&b).ok().unwrap();
    assert_eq!(field_names(&xb.vtable), vec!["pong", "field_a", "drop"]);
    assert_eq!(xb.as_vtable_impls.len(), 1);
    assert_eq!(xb.as_vtable_impls[0].field_ident, "field_a");
    assert_eq!(xb.as_vtable_impls[0].target_vtable_ident, "AVTable");
    assert_eq!(xb.methods.super_inits.len(), 1);
    assert_eq!(xb.methods.super_inits[0].field_ident, "field_a");
    assert_eq!(xb.methods.super_inits[0].vtable_ident, "AVTable");
    assert!(render_methods(&xb.methods, &vec![]).contains("field_a: AVTable::create_vtable::<GEN>(),"));
    let xa = expand_interface(&a).ok().unwrap();
    let up = render_upcast(&xa.upcast);
    assert!(up.contains("GEN: AsVTable<&'static AVTable> + CDrop + 'static,"));
    assert!(up.contains("(methods.ping)(self.as_cref_with_methods(methods))"));
    let acc = render_as_vtable(&xb.as_vtable_impls[0]);
    assert!(acc.contains("impl AsVTable<&'static AVTable> for BVTable {"));
}

#[test]
fn field_count_is_methods_plus_real_supers_plus_one() {
    let input = iface(
        "",
        "Big",
        vec![tparam("T")],
        vec![
            bound("First", vec![]),
            bound("Sync", vec![]),
            TypeBound::Lifetime { name: s("static") },
            bound("Second", vec![ty("T")]),
            bound("Sized", vec![]),
        ],
        vec![
            method("a", vec![recv(Receiver::Ref)], None),
            method("b", vec![recv(Receiver::RefMut), arg("t", ty("T"))], Some(ty("T"))),
            method("c", vec![recv(Receiver::Owned)], None),
        ],
    );
    let x = expand_interface(&input).ok().unwrap();
    assert_eq!(x.vtable.fields.len(), 3 + 2 + 1);
    assert_eq!(field_names(&x.vtable), vec!["a", "b", "c", "field_first", "field_second", "drop"]);
    assert!(matches!(x.vtable.fields[3].kind, FieldKind::SuperRef { .. }));
    assert!(matches!(x.vtable.fields[5].kind, FieldKind::Drop { .. }));
    assert_eq!(x.upcast.markers, vec!["Sync", "Sized"]);
    assert!(render_vtable(&x.vtable).contains("pub c: unsafe extern \"C\" fn(CRepr<Self>),"));
    assert_eq!(x.methods.trampolines[2].pass, vec![PassArg::Owned]);
    assert!(matches!(x.direct.methods[2].args[0], ForwardArg::Owned));
    assert!(matches!(x.upcast.methods[2].args[0], ForwardArg::Unsupported));
}

#[test]
fn adding_a_marker_changes_nothing_in_the_layout() {
    let plain = counter();
    let mut marked = counter();
    marked.supertraits.push(bound("Sync", vec![]));
    marked.supertraits.insert(0, bound("Send", vec![]));
    let a = expand_interface(&plain).ok().unwrap();
    let b = expand_interface(&marked).ok().unwrap();
    assert_eq!(render_vtable(&a.vtable), render_vtable(&b.vtable));
    assert_eq!(b.as_vtable_impls.len(), 0);
}

#[test]
fn every_malformed_super_interface_is_reported() {
    let input = iface(
        "",
        "Bad",
        vec![],
        vec![
            TypeBound::Trait {
                path: vec![
                    PathSegment { ident: s("a"), args: vec![] },
                    PathSegment { ident: s("B"), args: vec![] },
                ],
            },
            bound("Fine", vec![]),
            TypeBound::Verbatim { text: s("?Sized") },
        ],
        vec![],
    );
    match get_super_traits(&input) {
        Err(ds) => {
            assert_eq!(ds.len(), 2);
            assert_eq!(ds[0].bound_index, 0);
            assert_eq!(ds[1].bound_index, 2);
            assert_eq!(ds[0].message, "Only simple traits are supported as super traits");
        }
        Ok(_) => panic!("expected diagnostics"),
    }
    match impl_crusty_trait(&input) {
        Err(GenError::SuperTraits { diagnostics }) => assert_eq!(diagnostics.len(), 2),
        _ => panic!("expected diagnostics"),
    }
}

#[test]
fn unsupported_receiver_stops_generation() {
    let input = iface(
        "",
        "Rc",
        vec![],
        vec![],
        vec![
            method("fine", vec![recv(Receiver::Ref)], None),
            method("odd", vec![recv(Receiver::Unsupported)], None),
            method("also_odd", vec![recv(Receiver::Unsupported)], None),
        ],
    );
    match create_vtable(&input, &vec![]) {
        Err(e) => assert_eq!(e.method_index, 1),
        Ok(_) => panic!("expected a layout error"),
    }
    match expand_interface(&input) {
        Err(GenError::Layout { error }) => assert_eq!(error.method_index, 1),
        _ => panic!("expected a layout error"),
    }
}

#[test]
fn names_of_generated_items() {
    assert_eq!(map_vtable_ident(&s("Shape")), "ShapeVTable");
    assert_eq!(map_method_ident(&s("T")), "TMETHOD");
    assert_eq!(map_field_ident(&s("SuperTrait1")), "field_super_trait1");
    assert_eq!(map_field_ident(&s("CSlice")), "field_c_slice");
}

#[test]
fn types_render_as_written() {
    let t = TypeExpr::Reference {
        lifetime: Some(s("a")),
        mutable: true,
        elem: Box::new(TypeExpr::Tuple {
            elems: vec![
                ty_args("Vec", vec![ty("T")]),
                TypeExpr::Array { elem: Box::new(ty("u8")), len: s("4") },
                TypeExpr::Ptr { mutable: false, elem: Box::new(TypeExpr::Slice { elem: Box::new(ty("i32")) }) },
            ],
        }),
    };
    assert_eq!(render_type(&t), "&'a mut (Vec<T>, [u8; 4], *const [i32])");
    let one = TypeExpr::Tuple { elems: vec![ty("u8")] };
    assert_eq!(render_type(&one), "(u8,)");
    let path = TypeExpr::Path {
        segments: vec![
            PathSegment { ident: s("std"), args: vec![] },
            PathSegment { ident: s("Cow"), args: vec![GenericArg::Lifetime { name: s("a") }, GenericArg::Type { ty: ty("str") }] },
        ],
    };
    assert_eq!(render_type(&path), "std::Cow<'a, str>");
}

#[test]
fn decimal_digits() {
    assert_eq!(decimal_exec(0), "0");
    assert_eq!(decimal_exec(7), "7");
    assert_eq!(decimal_exec(1234), "1234");
}

#[test]
fn trampoline_renames_parameters_in_output_arguments() {
    let input = iface(
        "",
        "Maker",
        vec![tparam("T")],
        vec![],
        vec![method(
            "make",
            vec![recv(Receiver::Ref), arg("seed", TypeExpr::Reference { lifetime: None, mutable: false, elem: Box::new(ty("T")) })],
            Some(ty_args("Vec", vec![ty("T")])),
        )],
    );
    let x = expand_interface(&input).ok().unwrap();
    let t = &x.methods.trampolines[0];
    assert_eq!(render_type(&t.inputs[1]), "&TMETHOD");
    assert_eq!(render_type(t.output.as_ref().unwrap()), "Vec<TMETHOD>");
    assert_eq!(render_type(&t.inputs[0]), "CRef<MakerVTable<TMETHOD>>");
}

#[test]
fn fn_pointer_inputs_are_renamed_in_trampolines() {
    let callback = TypeExpr::BareFn {
        qualifiers: s(""),
        inputs: vec![ty("T"), ty_args("Vec", vec![ty("T")])],
        output: Some(Box::new(ty("T"))),
    };
    let returned = TypeExpr::BareFn {
        qualifiers: s("unsafe extern \"C\" "),
        inputs: vec![ty_args("Option", vec![ty("T")])],
        output: None,
    };
    let input = iface(
        "",
        "Caller",
        vec![tparam("T")],
        vec![],
        vec![method("call", vec![recv(Receiver::Ref), arg("f", callback)], Some(returned))],
    );
    let x = expand_interface(&input).ok().unwrap();
    assert!(render_vtable(&x.vtable).contains(
        "pub call: unsafe extern \"C\" fn(CRef<Self>, fn(T, Vec<T>) -> T) -> unsafe extern \"C\" fn(Option<T>),"
    ));
    let t = &x.methods.trampolines[0];
    assert_eq!(render_type(&t.inputs[1]), "fn(TMETHOD, Vec<T>) -> T");
    assert_eq!(render_type(t.output.as_ref().unwrap()), "unsafe extern \"C\" fn(Option<TMETHOD>)");
}

#[test]
fn drop_slot_owns_and_cache_is_keyed_by_interface_and_type() {
    let x = expand_interface(&counter()).ok().unwrap();
    assert!(render_vtable(&x.vtable).contains("pub drop: unsafe extern \"C\" fn(CRepr<Self>),"));
    let m = render_methods(&x.methods, &vec![]);
    assert!(m.contains("let key = (std::any::TypeId::of::<Self>(), std::any::TypeId::of::<GEN>());"));
    assert!(m.contains("map.entry(key)"));
    assert!(m.contains("unsafe extern \"C\" fn drop<GEN: Counter>(arg_0: CRepr<CounterVTable>)"));
    assert!(m.contains("#[allow(unsafe_code)]\n                        unsafe { GEN::value("));
}

#[test]
fn fn_style_arguments_are_renamed_in_outputs() {
    let sugar = PathSegment {
        ident: s("Fn"),
        args: vec![GenericArg::Sugar {
            inputs: vec![ty_args("Vec", vec![ty("T")]), ty("u8")],
            output: Some(Box::new(ty_args("Option", vec![ty("T")]))),
        }],
    };
    let callable = TypeExpr::Path { segments: vec![sugar] };
    let input = iface(
        "",
        "Maker",
        vec![tparam("T")],
        vec![],
        vec![method("maker", vec![recv(Receiver::Ref)], Some(callable))],
    );
    let x = expand_interface(&input).ok().unwrap();
    assert!(render_vtable(&x.vtable).contains("pub maker: unsafe extern \"C\" fn(CRef<Self>) -> Fn(Vec<T>, u8) -> Option<T>,"));
    let t = &x.methods.trampolines[0];
    assert_eq!(render_type(t.output.as_ref().unwrap()), "Fn(Vec<TMETHOD>, u8) -> Option<TMETHOD>");
}
