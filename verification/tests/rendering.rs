use header_bindgen::items::Arg;
use header_bindgen::items::Constructor;
use header_bindgen::items::Destructor;
use header_bindgen::items::Field;
use header_bindgen::items::Item;
use header_bindgen::items::ItemFn;
use header_bindgen::items::ItemMod;
use header_bindgen::items::ItemStruct;
use header_bindgen::items::Method;
use header_bindgen::items::StaticMethod;
use header_bindgen::items::render_constructor;
use header_bindgen::items::render_destructor;
use header_bindgen::items::render_fn;
use header_bindgen::items::render_items;
use header_bindgen::items::render_method;
use header_bindgen::items::render_static_method;
use header_bindgen::items::render_struct;

fn arg(name: &str, ty: &str) -> Arg {
    Arg { name: name.to_string(), ty: ty.to_string() }
}

#[test]
fn function_binding_renders_with_its_link_symbol() {
    let f = ItemFn {
        name: "f".to_string(),
        symbol: "Z1fi".to_string(),
        args: vec![arg("a", "std::os::raw::c_int")],
        ret: "std::os::raw::c_int".to_string(),
        comments: vec!["/// doubles".to_string()],
    };
    assert_eq!(
        render_fn(&f),
        "/// doubles\nextern {\n#[link_name = \"Z1fi\"]\npub fn f(a: std::os::raw::c_int) -> std::os::raw::c_int;\n}\n"
    );
}

#[test]
fn constructor_prepends_the_instance_address_only_in_the_foreign_declaration() {
    let c = Constructor {
        name: "Point".to_string(),
        symbol: "ZN5PointC1Eid".to_string(),
        trampoline: "_t1".to_string(),
        args: vec![arg("p1", "std::os::raw::c_int"), arg("p2", "std::os::raw::c_double")],
        comments: vec![],
    };
    let text = render_constructor(&c);
    assert_eq!(
        text,
        "extern {\n#[link_name = \"ZN5PointC1Eid\"]\nfn _t1(this: *mut Point, p1: std::os::raw::c_int, p2: std::os::raw::c_double);\n}\nimpl Point {\npub unsafe fn new(p1: std::os::raw::c_int, p2: std::os::raw::c_double) -> Point {\nlet mut this = Point::default();\n_t1(&mut this as *mut Point, p1, p2);\nthis\n}\n}\n"
    );
}

#[test]
fn destructor_wires_the_symbol_into_automatic_cleanup() {
    let d = Destructor {
        name: "Point".to_string(),
        symbol: "ZN5PointD1Ev".to_string(),
        trampoline: "_t2".to_string(),
        comments: vec![],
    };
    assert_eq!(
        render_destructor(&d),
        "extern {\n#[link_name = \"ZN5PointD1Ev\"]\nfn _t2(this: *mut Point);\n}\nimpl Drop for Point {\nfn drop(&mut self) {\nunsafe { _t2(self as *mut Point); }\n}\n}\n"
    );
}

#[test]
fn method_prepends_the_receiver() {
    let m = Method {
        class: "Point".to_string(),
        name: "shift".to_string(),
        symbol: "Zshift".to_string(),
        trampoline: "_t3".to_string(),
        args: vec![arg("dx", "std::os::raw::c_int")],
        ret: "std::os::raw::c_void".to_string(),
        comments: vec![],
    };
    assert_eq!(
        render_method(&m),
        "extern {\n#[link_name = \"Zshift\"]\nfn _t3(this: *mut Point, dx: std::os::raw::c_int) -> std::os::raw::c_void;\n}\nimpl Point {\npub unsafe fn shift(&mut self, dx: std::os::raw::c_int) -> std::os::raw::c_void {\n_t3(self as *mut Point, dx)\n}\n}\n"
    );
}

#[test]
fn static_method_takes_no_receiver() {
    let m = StaticMethod {
        class: "Point".to_string(),
        name: "origin".to_string(),
        symbol: "Zorigin".to_string(),
        trampoline: "_t4".to_string(),
        args: vec![],
        ret: "std::os::raw::c_int".to_string(),
        comments: vec![],
    };
    assert_eq!(
        render_static_method(&m),
        "extern {\n#[link_name = \"Zorigin\"]\nfn _t4() -> std::os::raw::c_int;\n}\nimpl Point {\npub unsafe fn origin() -> std::os::raw::c_int {\n_t4()\n}\n}\n"
    );
}

#[test]
fn struct_renders_layout_fixed_with_field_order_and_visibility() {
    let s = ItemStruct {
        name: "Point".to_string(),
        fields: vec![
            Field { is_public: true, name: "x".to_string(), ty: "std::os::raw::c_int".to_string() },
            Field { is_public: false, name: "y".to_string(), ty: "std::os::raw::c_int".to_string() },
        ],
        constructor: None,
        destructor: None,
        methods: vec![],
        static_methods: vec![],
        comments: vec![],
    };
    assert_eq!(
        render_struct(&s),
        "#[repr(C)]\n#[derive(Default, Debug)]\npub struct Point {\npub x: std::os::raw::c_int,\ny: std::os::raw::c_int,\n}\n"
    );
}

#[test]
fn modules_nest_their_children_verbatim() {
    let f = ItemFn {
        name: "f".to_string(),
        symbol: "s".to_string(),
        args: vec![],
        ret: "std::os::raw::c_void".to_string(),
        comments: vec![],
    };
    let inner = ItemMod { name: "B".to_string(), items: vec![Item::Fn(f)], comments: vec![] };
    let outer = ItemMod {
        name: "A".to_string(),
        items: vec![Item::Mod(inner)],
        comments: vec![],
    };
    assert_eq!(
        render_items(&vec![Item::Mod(outer)]),
        "mod A {\nmod B {\nextern {\n#[link_name = \"s\"]\npub fn f() -> std::os::raw::c_void;\n}\n}\n}\n"
    );
}
