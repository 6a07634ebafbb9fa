use crusty_traits::cdrop::impl_cdrop_for_vtable;
use crusty_traits::expand::{expand_interface, impl_crusty_trait};
use crusty_traits::methods::impl_vtable_methods;
use crusty_traits::model::{
    FnInput, GenericArg, GenericParam, InterfaceDef, MethodSig, PathSegment, Receiver, TypeBound,
    TypeExpr,
};

use crusty_traits::render::render_vtable;
use crusty_traits::render_forward::{render_direct, render_upcast};
use crusty_traits::render_impls::{render_as_vtable, render_cdrop, render_methods};
use crusty_traits::super_trait::{get_super_traits, impl_as_vtable_for_super_traits};
use crusty_traits::trait_for_cref::{impl_trait_for_c_ref, impl_trait_for_c_ref_where_as_vtable};
use crusty_traits::vtable::{create_vtable, VTable};

fn s(x: &str) -> String {
    x.to_string()
}

fn ty(name: &str) -> TypeExpr {
    ty_args(name, vec![])
}

fn ty_args(name: &str, args: Vec<TypeExpr>) -> TypeExpr {
    TypeExpr::Path {
        segments: vec![PathSegment {
            ident: s(name),
            args: args.into_iter().map(|ty| GenericArg::Type { ty }).collect(),
        }],
    }
}

fn bound(name: &str, args: Vec<TypeExpr>) -> TypeBound {
    TypeBound::Trait {
        path: vec![PathSegment {
            ident: s(name),
            args: args.into_iter().map(|ty| GenericArg::Type { ty }).collect(),
        }],
    }
}

fn tparam(name: &str) -> GenericParam {
    GenericParam::Type { name: s(name), bounds: vec![] }
}

fn recv(kind: Receiver) -> FnInput {
    FnInput::Receiver { kind }
}

fn arg(pat: &str, t: TypeExpr) -> FnInput {
    FnInput::Typed { pat: s(pat), ty: t }
}

fn method(name: &str, inputs: Vec<FnInput>, output: Option<TypeExpr>) -> MethodSig {
    MethodSig { attrs: vec![], name: s(name), inputs, output }
}

fn iface(
    vis: &str,
    ident: &str,
    generics: Vec<GenericParam>,
    supertraits: Vec<TypeBound>,
    methods: Vec<MethodSig>,
) -> InterfaceDef {
    InterfaceDef { vis: s(vis), ident: s(ident), generics, supertraits, methods }
}

fn norm(x: &str) -> String {
    x.split_whitespace().collect::<Vec<_>>().join(" ")
}

fn vtable_of(input: &InterfaceDef) -> VTable {
    let supers = match get_super_traits(input) {
        Ok(r) => r.super_traits,
        Err(_) => panic!("super traits"),
    };
    match create_vtable(input, &supers) {
        Ok(v) => v,
        Err(_) => panic!("layout"),
    }
}

/// `pub trait MyTrait { fn my_method(&self, x: i32) -> i32; fn another_method(&mut self, y: String); }`
fn my_trait(generics: Vec<GenericParam>, supers: Vec<TypeBound>, t: TypeExpr) -> InterfaceDef {
    iface(
        "pub",
        "MyTrait",
        generics,
        supers,
        vec![
            method("my_method", vec![recv(Receiver::Ref), arg("x", t.clone_expr())], Some(t)),
            method("another_method", vec![recv(Receiver::RefMut), arg("y", ty("String"))], None),
        ],
    )
}

trait CloneExpr {
    fn clone_expr(&self) -> TypeExpr;
}

impl CloneExpr for TypeExpr {
    fn clone_expr(&self) -> TypeExpr {
        crusty_traits::types::copy_type(self)
    }
}

const CACHE: &str = "static FN_MAP: std::sync::LazyLock<std::sync::Mutex<std::collections::HashMap<(std::any::TypeId, std::any::TypeId), &'static (dyn std::any::Any + Send + Sync)>>> =
            std::sync::LazyLock::new(|| std::sync::Mutex::new(std::collections::HashMap::new()));
        let key = (std::any::TypeId::of::<Self>(), std::any::TypeId::of::<GEN>());
        let mut map = FN_MAP.lock().unwrap();
        let entry = map.entry(key).or_insert_with(|| {";

#[test]
fn super_trait_test_get_super_traits() {
    let item = iface(
        "",
        "MyTrait",
        vec![],
        vec![bound("SuperTrait1", vec![]), bound("SuperTrait2", vec![]), bound("Send", vec![])],
        vec![method("my_method", vec![recv(Receiver::Ref)], None)],
    );
    let result = get_super_traits(&item).ok().unwrap();
    assert_eq!(result.super_traits.len(), 2);
    assert_eq!(result.super_traits[0].ident, "SuperTrait1");
    assert_eq!(result.super_traits[1].ident, "SuperTrait2");
    assert_eq!(result.ignore_bounds, vec!["Send"]);
}

#[test]
fn test_get_super_traits_with_generic() {
    let item = iface(
        "",
        "MyTrait",
        vec![tparam("T")],
        vec![bound("SuperTrait1", vec![]), bound("Sized", vec![])],
        vec![method("my_method", vec![recv(Receiver::Ref), arg("value", ty("T"))], None)],
    );
    let result = get_super_traits(&item).ok().unwrap();
    assert_eq!(result.super_traits.len(), 1);
    assert_eq!(result.super_traits[0].ident, "SuperTrait1");
    assert_eq!(result.ignore_bounds, vec!["Sized"]);
}

#[test]
fn test_get_super_traits_no_super_traits() {
    let item = iface("", "MyTrait", vec![], vec![], vec![method("my_method", vec![recv(Receiver::Ref)], None)]);
    let result = get_super_traits(&item).ok().unwrap();
    assert_eq!(result.super_traits.len(), 0);
    assert_eq!(result.ignore_bounds.len(), 0);
}

#[test]
fn test_with_super_trait_generic() {
    let item = iface(
        "",
        "MyTrait",
        vec![tparam("T")],
        vec![bound("SuperTrait1", vec![ty("T")]), bound("Send", vec![])],
        vec![method("my_method", vec![recv(Receiver::Ref), arg("value", ty("T"))], None)],
    );
    let result = get_super_traits(&item).ok().unwrap();
    assert_eq!(result.super_traits.len(), 1);
    assert_eq!(result.super_traits[0].ident, "SuperTrait1");
    assert_eq!(result.super_traits[0].generics, vec!["T"]);
    assert_eq!(result.ignore_bounds, vec!["Send"]);

    let item = iface(
        "",
        "MyTrait",
        vec![tparam("T"), tparam("U")],
        vec![bound("SuperTrait1", vec![ty("T"), ty("U")]), bound("Send", vec![])],
        vec![method(
            "my_method",
            vec![recv(Receiver::Ref), arg("value", ty("T")), arg("other", ty("U"))],
            None,
        )],
    );
    let result = get_super_traits(&item).ok().unwrap();
    assert_eq!(result.super_traits.len(), 1);
    assert_eq!(result.super_traits[0].ident, "SuperTrait1");
    assert_eq!(result.super_traits[0].generics, vec!["T", "U"]);
    assert_eq!(result.ignore_bounds, vec!["Send"]);
}

#[test]
fn test_impl_as_vtable_for_super_traits() {
    let input = iface(
        "",
        "MyTrait",
        vec![tparam("T")],
        vec![bound("SuperTrait1", vec![]), bound("SuperTrait2", vec![ty("T")]), bound("Send", vec![])],
        vec![method("my_method", vec![recv(Receiver::Ref), arg("value", ty("T"))], None)],
    );
    let super_traits = get_super_traits(&input).ok().unwrap().super_traits;
    let vtable = vtable_of(&input);
    let impls = impl_as_vtable_for_super_traits(&super_traits, &vtable);
    let expected_1 = "impl<T> AsVTable<&'static SuperTrait1VTable> for MyTraitVTable<T> {
    fn as_vtable(&self) -> &'static SuperTrait1VTable {
        self.field_super_trait1
    }
}
";
    let expected_2 = "impl<T> AsVTable<&'static SuperTrait2VTable<T>> for MyTraitVTable<T> {
    fn as_vtable(&self) -> &'static SuperTrait2VTable<T> {
        self.field_super_trait2
    }
}
";
    assert_eq!(impls.len(), 2);
    assert_eq!(render_as_vtable(&impls[0]), expected_1);
    assert_eq!(render_as_vtable(&impls[1]), expected_2);
}

#[test]
fn test_create_vtable_no_methods() {
    let input = iface("pub", "MyTrait", vec![], vec![], vec![]);
    let vtable = create_vtable(&input, &vec![]).ok().unwrap();
    let expected = "#[repr(C)]
#[doc = \"A repr C vtable for the trait MyTrait\"]
pub struct MyTraitVTable {
    #[doc = \"A function pointer to the drop function for the trait\"]
    pub drop: unsafe extern \"C\" fn(CRepr<Self>),
}
";
    assert_eq!(render_vtable(&vtable), expected);
}

#[test]
fn test_create_vtable_with_methods() {
    let input = iface(
        "pub",
        "MyTrait",
        vec![],
        vec![],
        vec![
            method("method1", vec![recv(Receiver::Ref)], None),
            method("method2", vec![recv(Receiver::RefMut), arg("value", ty("i32"))], Some(ty("i32"))),
        ],
    );
    let vtable = create_vtable(&input, &vec![]).ok().unwrap();
    let expected = "#[repr(C)]
#[doc = \"A repr C vtable for the trait MyTrait\"]
pub struct MyTraitVTable {
    pub method1: unsafe extern \"C\" fn(CRef<Self>),
    pub method2: unsafe extern \"C\" fn(CRefMut<Self>, i32) -> i32,
    #[doc = \"A function pointer to the drop function for the trait\"]
    pub drop: unsafe extern \"C\" fn(CRepr<Self>),
}
";
    assert_eq!(render_vtable(&vtable), expected);
}

#[test]
fn test_create_vtable_with_super_traits() {
    let input = iface(
        "pub",
        "MyTrait",
        vec![],
        vec![bound("SuperTrait1", vec![])],
        vec![method("method1", vec![recv(Receiver::Ref)], None)],
    );
    let vtable = vtable_of(&input);
    let expected = "#[repr(C)]
#[doc = \"A repr C vtable for the trait MyTrait\"]
pub struct MyTraitVTable {
    pub method1: unsafe extern \"C\" fn(CRef<Self>),
    pub field_super_trait1: &'static SuperTrait1VTable,
    #[doc = \"A function pointer to the drop function for the trait\"]
    pub drop: unsafe extern \"C\" fn(CRepr<Self>),
}
";
    assert_eq!(render_vtable(&vtable), expected);
}

#[test]
fn test_create_vtable_with_super_traits_and_generics() {
    let input = iface(
        "pub",
        "MyTrait",
        vec![tparam("T")],
        vec![bound("SuperTrait1", vec![ty("T")])],
        vec![method("method1", vec![recv(Receiver::Ref), arg("value", ty("T"))], None)],
    );
    let vtable = vtable_of(&input);
    let expected = "#[repr(C)]
#[doc = \"A repr C vtable for the trait MyTrait\"]
pub struct MyTraitVTable<T: 'static> {
    pub method1: unsafe extern \"C\" fn(CRef<Self>, T),
    pub field_super_trait1: &'static SuperTrait1VTable<T>,
    #[doc = \"A function pointer to the drop function for the trait\"]
    pub drop: unsafe extern \"C\" fn(CRepr<Self>),
}
";
    assert_eq!(render_vtable(&vtable), expected);
}

#[test]
fn test_impl_cdrop_for_vtable() {
    let input = iface(
        "pub",
        "CVec",
        vec![tparam("V")],
        vec![],
        vec![
            method("push", vec![recv(Receiver::RefMut), arg("value", ty("V"))], None),
            method("extend", vec![recv(Receiver::RefMut), arg("amount", ty("usize"))], None),
            method("capacity", vec![recv(Receiver::Ref)], Some(ty("usize"))),
        ],
    );
    let vtable = vtable_of(&input);
    let output = impl_cdrop_for_vtable(&vtable);
    let expected = "impl<V> CDrop for CVecVTable<V> {
    fn drop(repr: CRepr<Self>) {
        #[allow(unsafe_code)]
        unsafe { (repr.get_vtable().drop)(repr) }
    }
}
";
    assert_eq!(render_cdrop(&output), expected);
}

#[test]
fn test_impl_vtable_methods() {
    let input = iface(
        "",
        "MyTrait",
        vec![tparam("T")],
        vec![],
        vec![method("my_method", vec![recv(Receiver::Ref), arg("value", ty("T"))], Some(ty("T")))],
    );
    let vtable = vtable_of(&input);
    let result = impl_vtable_methods(&input, &vtable);
    let expected = format!(
        "impl<T: 'static> MyTraitVTable<T> {{
    /// Creates a new vtable for the type GEN that implements the trait
    pub fn new_boxed<GEN: MyTrait<T> + 'static>(input: GEN) -> CRepr<MyTraitVTable<T>> {{
        let vtable = MyTraitVTable::create_vtable::<GEN>();
        CRepr::new_boxed(vtable, input)
    }}

    /// Creates a new vtable for the type GEN then store in a static variable in the heap
    pub fn create_vtable<GEN: MyTrait<T> + 'static>() -> &'static MyTraitVTable<T> {{
        {CACHE}
            let vtable = Box::new(MyTraitVTable {{
                my_method: {{
                    unsafe extern \"C\" fn my_method<TMETHOD, GEN: MyTrait<TMETHOD>>(arg0: CRef<MyTraitVTable<TMETHOD>>, arg1: TMETHOD) -> TMETHOD {{
                        #[allow(unsafe_code)]
                        unsafe {{ GEN::my_method(&*(arg0.as_ptr() as *const GEN), arg1) }}
                    }}
                    my_method::<T, GEN>
                }},
                drop: {{
                    unsafe extern \"C\" fn drop<TMETHOD, GEN: MyTrait<TMETHOD>>(arg_0: CRepr<MyTraitVTable<TMETHOD>>) {{
                        #[allow(unsafe_code)]
                        unsafe {{ ::core::mem::drop(Box::from_raw(arg_0.as_ptr() as *mut GEN)); }}
                    }}
                    drop::<T, GEN>
                }},
            }});
            Box::leak(vtable)
        }});
        entry.downcast_ref().unwrap()
    }}
}}
"
    );
    let got = render_methods(&result, &input.generics);
    assert_eq!(norm(&got), norm(&expected), "expected:\n{}\n\nGot:\n{}", expected, got);
}

#[test]
fn impl_trait_for_cref_test() {
    let input = my_trait(vec![], vec![], ty("i32"));
    let vtable = vtable_of(&input);
    let output = impl_trait_for_c_ref(&input, &vtable);
    let expected = "impl MyTrait for CRepr<MyTraitVTable> {
    fn my_method(&self, x: i32) -> i32 {
        #[allow(unsafe_code)]
        unsafe { (self.get_vtable().my_method)(self.as_cref(), x) }
    }
    fn another_method(&mut self, y: String) {
        #[allow(unsafe_code)]
        unsafe { (self.get_vtable().another_method)(self.as_cref_mut(), y) }
    }
}
";
    assert_eq!(render_direct(&output), expected);
}

#[test]
fn impl_trait_for_cref_test_with_generics() {
    let input = my_trait(vec![tparam("T")], vec![], ty("T"));
    let vtable = vtable_of(&input);
    let output = impl_trait_for_c_ref(&input, &vtable);
    let expected = "impl<T> MyTrait<T> for CRepr<MyTraitVTable<T>> {
    fn my_method(&self, x: T) -> T {
        #[allow(unsafe_code)]
        unsafe { (self.get_vtable().my_method)(self.as_cref(), x) }
    }
    fn another_method(&mut self, y: String) {
        #[allow(unsafe_code)]
        unsafe { (self.get_vtable().another_method)(self.as_cref_mut(), y) }
    }
}
";
    assert_eq!(render_direct(&output), expected);
}

#[test]
fn impl_trait_for_cref_test_with_generics_and_supertrait() {
    let input = my_trait(vec![tparam("T")], vec![bound("SuperTrait", vec![ty("T")])], ty("T"));
    let vtable = vtable_of(&input);
    let output = impl_trait_for_c_ref(&input, &vtable);
    let expected = "impl<T> MyTrait<T> for CRepr<MyTraitVTable<T>> {
    fn my_method(&self, x: T) -> T {
        #[allow(unsafe_code)]
        unsafe { (self.get_vtable().my_method)(self.as_cref(), x) }
    }
    fn another_method(&mut self, y: String) {
        #[allow(unsafe_code)]
        unsafe { (self.get_vtable().another_method)(self.as_cref_mut(), y) }
    }
}
";
    assert_eq!(render_direct(&output), expected);
}

#[test]
fn impl_trait_for_cref_test_where_as_vtable() {
    let input = my_trait(vec![], vec![bound("SuperTrait", vec![])], ty("i32"));
    let vtable = vtable_of(&input);
    let r = get_super_traits(&input).ok().unwrap();
    let output = impl_trait_for_c_ref_where_as_vtable(&input, &vtable, &r.super_traits, &r.ignore_bounds);
    let expected = "impl<GEN> MyTrait for CRepr<GEN>
where
    GEN: AsVTable<&'static MyTraitVTable> + CDrop + 'static + AsVTable<&'static SuperTraitVTable>,
{
    fn my_method(&self, x: i32) -> i32 {
        let methods: &'static MyTraitVTable = self.as_vtable();
        #[allow(unsafe_code)]
        unsafe { (methods.my_method)(self.as_cref_with_methods(methods), x) }
    }
    fn another_method(&mut self, y: String) {
        let methods: &'static MyTraitVTable = self.as_vtable();
        #[allow(unsafe_code)]
        unsafe { (methods.another_method)(self.as_cref_mut_with_methods(methods), y) }
    }
}
";
    assert_eq!(render_upcast(&output), expected);
}

#[test]
fn basic_test() {
    let input = my_trait(vec![], vec![], ty("i32"));
    let output = expand_interface(&input).ok().unwrap();

    let expected_vtable = "#[repr(C)]
#[doc = \"A repr C vtable for the trait MyTrait\"]
pub struct MyTraitVTable {
    pub my_method: unsafe extern \"C\" fn(CRef<Self>, i32) -> i32,
    pub another_method: unsafe extern \"C\" fn(CRefMut<Self>, String),
    #[doc = \"A function pointer to the drop function for the trait\"]
    pub drop: unsafe extern \"C\" fn(CRepr<Self>),
}
";
    assert_eq!(render_vtable(&output.vtable), expected_vtable, "Generated vtable does not match expected vtable");
    assert_eq!(output.as_vtable_impls.len(), 0);

    let expected_impl = "impl CDrop for MyTraitVTable {
    fn drop(repr: CRepr<Self>) {
        #[allow(unsafe_code)]
        unsafe { (repr.get_vtable().drop)(repr) }
    }
}
";
    assert_eq!(render_cdrop(&output.cdrop), expected_impl);

    let expected_methods = format!(
        "impl MyTraitVTable {{
    /// Creates a new vtable for the type GEN that implements the trait
    pub fn new_boxed<GEN: MyTrait + 'static>(input: GEN) -> CRepr<MyTraitVTable> {{
        let vtable = MyTraitVTable::create_vtable::<GEN>();
        CRepr::new_boxed(vtable, input)
    }}

    /// Creates a new vtable for the type GEN then store in a static variable in the heap
    pub fn create_vtable<GEN: MyTrait + 'static>() -> &'static MyTraitVTable {{
        {CACHE}
            let vtable = Box::new(MyTraitVTable {{
                my_method: {{
                    unsafe extern \"C\" fn my_method<GEN: MyTrait>(arg0: CRef<MyTraitVTable>, arg1: i32) -> i32 {{
                        #[allow(unsafe_code)]
                        unsafe {{ GEN::my_method(&*(arg0.as_ptr() as *const GEN), arg1) }}
                    }}
                    my_method::<GEN>
                }},
                another_method: {{
                    unsafe extern \"C\" fn another_method<GEN: MyTrait>(arg0: CRefMut<MyTraitVTable>, arg1: String) {{
                        #[allow(unsafe_code)]
                        unsafe {{ GEN::another_method(&mut *(arg0.as_ptr() as *mut GEN), arg1) }}
                    }}
                    another_method::<GEN>
                }},
                drop: {{
                    unsafe extern \"C\" fn drop<GEN: MyTrait>(arg_0: CRepr<MyTraitVTable>) {{
                        #[allow(unsafe_code)]
                        unsafe {{ ::core::mem::drop(Box::from_raw(arg_0.as_ptr() as *mut GEN)); }}
                    }}
                    drop::<GEN>
                }},
            }});
            Box::leak(vtable)
        }});
        entry.downcast_ref().unwrap()
    }}
}}
"
    );
    assert_eq!(norm(&render_methods(&output.methods, &input.generics)), norm(&expected_methods));

    let expected_trait_for_cref = "impl MyTrait for CRepr<MyTraitVTable> {
    fn my_method(&self, x: i32) -> i32 {
        #[allow(unsafe_code)]
        unsafe { (self.get_vtable().my_method)(self.as_cref(), x) }
    }
    fn another_method(&mut self, y: String) {
        #[allow(unsafe_code)]
        unsafe { (self.get_vtable().another_method)(self.as_cref_mut(), y) }
    }
}
";
    assert_eq!(render_direct(&output.direct), expected_trait_for_cref);

    let expected_where_as_vtable = "impl<GEN> MyTrait for CRepr<GEN>
where
    GEN: AsVTable<&'static MyTraitVTable> + CDrop + 'static,
{
    fn my_method(&self, x: i32) -> i32 {
        let methods: &'static MyTraitVTable = self.as_vtable();
        #[allow(unsafe_code)]
        unsafe { (methods.my_method)(self.as_cref_with_methods(methods), x) }
    }
    fn another_method(&mut self, y: String) {
        let methods: &'static MyTraitVTable = self.as_vtable();
        #[allow(unsafe_code)]
        unsafe { (methods.another_method)(self.as_cref_mut_with_methods(methods), y) }
    }
}
";
    assert_eq!(
        render_upcast(&output.upcast),
        expected_where_as_vtable,
        "Generated impl for trait for CRepr with where clause does not match"
    );

    let whole = impl_crusty_trait(&input).ok().unwrap();
    let mut parts = String::new();
    parts.push_str(expected_vtable);
    parts.push_str(expected_impl);
    parts.push_str(&render_methods(&output.methods, &input.generics));
    parts.push_str(expected_trait_for_cref);
    parts.push_str(expected_where_as_vtable);
    assert_eq!(whole, parts);
}

#[test]
fn lib_test_get_super_traits() {
    let input = iface(
        "",
        "MyTrait",
        vec![tparam("T")],
        vec![bound("SuperTrait1", vec![]), bound("SuperTrait2", vec![ty("T")]), bound("Send", vec![])],
        vec![method("my_method", vec![recv(Receiver::Ref), arg("value", ty("T"))], None)],
    );
    let output = expand_interface(&input).ok().unwrap();
    let expected_super_trait1 = "impl<T> AsVTable<&'static SuperTrait1VTable> for MyTraitVTable<T> {
    fn as_vtable(&self) -> &'static SuperTrait1VTable {
        self.field_super_trait1
    }
}
";
    let got1 = render_as_vtable(&output.as_vtable_impls[0]);
    assert_eq!(got1, expected_super_trait1, "Generated impl for SuperTrait1 does not match expected: got \n{} \nexpected \n{}", got1, expected_super_trait1);
    let expected_super_trait2 = "impl<T> AsVTable<&'static SuperTrait2VTable<T>> for MyTraitVTable<T> {
    fn as_vtable(&self) -> &'static SuperTrait2VTable<T> {
        self.field_super_trait2
    }
}
";
    let got2 = render_as_vtable(&output.as_vtable_impls[1]);
    assert_eq!(got2, expected_super_trait2, "Generated impl for SuperTrait2 does not match expected: got \n{} \nexpected \n{}", got2, expected_super_trait2);
    let expected_impl = "impl<T> CDrop for MyTraitVTable<T> {
    fn drop(repr: CRepr<Self>) {
        #[allow(unsafe_code)]
        unsafe { (repr.get_vtable().drop)(repr) }
    }
}
";
    assert_eq!(render_cdrop(&output.cdrop), expected_impl);
}
