use header_bindgen::items::Item;
use header_bindgen::model::Context;
use header_bindgen::model::Entity;
use header_bindgen::model::Param;
use header_bindgen::process::generate_source;
use header_bindgen::process::process_entity;
use header_bindgen::types::CppType;
use header_bindgen::types::Error;
use header_bindgen::types::TypeKind;

fn int_ty() -> CppType {
    CppType { kind: TypeKind::Int, display: "int".to_string() }
}

fn double_ty() -> CppType {
    CppType { kind: TypeKind::Double, display: "double".to_string() }
}

fn void_ty() -> CppType {
    CppType { kind: TypeKind::Void, display: "void".to_string() }
}

fn class_ty(name: &str) -> CppType {
    CppType { kind: TypeKind::Other, display: name.to_string() }
}

fn named_param(name: &str, ty: CppType) -> Param {
    Param { name: Some(name.to_string()), ty }
}

fn run(root: &Entity, unix_like: bool) -> Result<(Vec<Item>, String), Error> {
    let mut glue = String::new();
    let mut ids: Vec<u64> = Vec::new();
    let items = process_entity(root, &Context::root(), unix_like, &mut glue, &mut ids)?;
    Ok((items, glue))
}

#[test]
fn nested_namespaces_nest_modules_without_flattening() {
    let f = Entity::Function {
        name: "f".to_string(),
        mangled: Some("_ZN1A1B1fEv".to_string()),
        is_inline: false,
        result: Some(void_ty()),
        params: vec![],
        comment: None,
    };
    let b = Entity::Namespace { name: "B".to_string(), comment: None, children: vec![f] };
    let a = Entity::Namespace { name: "A".to_string(), comment: None, children: vec![b] };
    let tu = Entity::TranslationUnit { children: vec![a] };
    let (items, glue) = run(&tu, true).unwrap();
    assert_eq!(glue, "");
    assert_eq!(items.len(), 1);
    match &items[0] {
        Item::Mod(outer) => {
            assert_eq!(outer.name, "A");
            assert_eq!(outer.items.len(), 1);
            match &outer.items[0] {
                Item::Mod(inner) => {
                    assert_eq!(inner.name, "B");
                    assert_eq!(inner.items.len(), 1);
                    match &inner.items[0] {
                        Item::Fn(func) => {
                            assert_eq!(func.name, "f");
                            assert_eq!(func.symbol, "ZN1A1B1fEv");
                        },
                        _ => panic!("expected a function inside the inner module"),
                    }
                },
                _ => panic!("expected the inner module"),
            }
        },
        _ => panic!("expected the outer module"),
    }
}

#[test]
fn class_fields_keep_declaration_order_and_visibility() {
    let class = Entity::Class {
        name: "Point".to_string(),
        comment: None,
        children: vec![
            Entity::Field { name: "f1".to_string(), is_public: true, ty: int_ty() },
            Entity::Field { name: "f2".to_string(), is_public: false, ty: double_ty() },
            Entity::Field { name: "f3".to_string(), is_public: true, ty: int_ty() },
        ],
    };
    let (items, _) = run(&class, true).unwrap();
    match &items[0] {
        Item::Struct(s) => {
            assert_eq!(s.name, "Point");
            assert_eq!(s.fields.len(), 3);
            assert_eq!(s.fields[0].name, "f1");
            assert!(s.fields[0].is_public);
            assert_eq!(s.fields[0].ty, "std::os::raw::c_int");
            assert_eq!(s.fields[1].name, "f2");
            assert!(!s.fields[1].is_public);
            assert_eq!(s.fields[1].ty, "std::os::raw::c_double");
            assert_eq!(s.fields[2].name, "f3");
            assert!(s.fields[2].is_public);
        },
        _ => panic!("expected a struct"),
    }
}

#[test]
fn constructor_keeps_declared_arity_and_order() {
    let class = Entity::Class {
        name: "Point".to_string(),
        comment: None,
        children: vec![Entity::Constructor {
            name: "Point".to_string(),
            mangled: Some("_ZN5PointC1Eid".to_string()),
            params: vec![named_param("p1", int_ty()), named_param("p2", double_ty())],
            comment: None,
        }],
    };
    let (items, _) = run(&class, true).unwrap();
    match &items[0] {
        Item::Struct(s) => {
            let c = s.constructor.as_ref().expect("constructor retained");
            assert_eq!(c.symbol, "ZN5PointC1Eid");
            assert_eq!(c.args.len(), 2);
            assert_eq!(c.args[0].name, "p1");
            assert_eq!(c.args[0].ty, "std::os::raw::c_int");
            assert_eq!(c.args[1].name, "p2");
            assert_eq!(c.args[1].ty, "std::os::raw::c_double");
        },
        _ => panic!("expected a struct"),
    }
}

#[test]
fn later_constructor_replaces_the_earlier_one() {
    let ctor = |mangled: &str| Entity::Constructor {
        name: "Point".to_string(),
        mangled: Some(mangled.to_string()),
        params: vec![],
        comment: None,
    };
    let class = Entity::Class {
        name: "Point".to_string(),
        comment: None,
        children: vec![ctor("_Zfirst"), ctor("_Zsecond")],
    };
    let (items, _) = run(&class, true).unwrap();
    match &items[0] {
        Item::Struct(s) => {
            assert_eq!(s.constructor.as_ref().unwrap().symbol, "Zsecond");
        },
        _ => panic!("expected a struct"),
    }
}

#[test]
fn destructor_uses_the_first_reported_mangled_name() {
    let class = Entity::Class {
        name: "Point".to_string(),
        comment: None,
        children: vec![Entity::Destructor {
            mangled_names: vec!["_ZN5PointD1Ev".to_string(), "_ZN5PointD0Ev".to_string()],
            comment: None,
        }],
    };
    let (items, _) = run(&class, true).unwrap();
    match &items[0] {
        Item::Struct(s) => {
            let d = s.destructor.as_ref().expect("destructor retained");
            assert_eq!(d.symbol, "ZN5PointD1Ev");
            assert_eq!(d.name, "Point");
        },
        _ => panic!("expected a struct"),
    }
}

#[test]
fn static_and_instance_methods_are_classified_by_the_flag() {
    let method = |name: &str, is_static: bool| Entity::Method {
        name: name.to_string(),
        mangled: Some(format!("_Z{}", name)),
        is_static,
        result: Some(int_ty()),
        params: vec![],
        comment: None,
    };
    let class = Entity::Class {
        name: "Point".to_string(),
        comment: None,
        children: vec![method("norm", false), method("origin", true)],
    };
    let (items, _) = run(&class, true).unwrap();
    match &items[0] {
        Item::Struct(s) => {
            assert_eq!(s.methods.len(), 1);
            assert_eq!(s.methods[0].name, "norm");
            assert_eq!(s.methods[0].symbol, "Znorm");
            assert_eq!(s.static_methods.len(), 1);
            assert_eq!(s.static_methods[0].name, "origin");
        },
        _ => panic!("expected a struct"),
    }
}

#[test]
fn inline_function_binding_and_glue_share_one_proxy_symbol() {
    let f = Entity::Function {
        name: "f".to_string(),
        mangled: Some("_Z1fi".to_string()),
        is_inline: true,
        result: Some(int_ty()),
        params: vec![named_param("a", int_ty())],
        comment: None,
    };
    let tu = Entity::TranslationUnit { children: vec![f] };
    let (items, glue) = run(&tu, true).unwrap();
    let symbol = match &items[0] {
        Item::Fn(func) => func.symbol.clone(),
        _ => panic!("expected a function"),
    };
    assert!(symbol.starts_with('_'));
    assert_ne!(symbol, "_Z1fi");
    assert_eq!(
        glue,
        format!("extern \"C\" {{ int {}(int a) {{ return f(a); }} }}", symbol)
    );
}

#[test]
fn non_inline_symbol_strips_only_on_the_prefixed_family() {
    let f = |mangled: &str| Entity::Function {
        name: "f".to_string(),
        mangled: Some(mangled.to_string()),
        is_inline: false,
        result: Some(void_ty()),
        params: vec![],
        comment: None,
    };
    let (items, _) = run(&f("_Z1fv"), true).unwrap();
    match &items[0] {
        Item::Fn(func) => assert_eq!(func.symbol, "Z1fv"),
        _ => panic!("expected a function"),
    }
    let (items, _) = run(&f("_Z1fv"), false).unwrap();
    match &items[0] {
        Item::Fn(func) => assert_eq!(func.symbol, "_Z1fv"),
        _ => panic!("expected a function"),
    }
}

#[test]
fn unnamed_parameters_get_positional_names() {
    let f = Entity::Function {
        name: "f".to_string(),
        mangled: Some("_Z1fii".to_string()),
        is_inline: false,
        result: Some(void_ty()),
        params: vec![
            Param { name: None, ty: int_ty() },
            Param { name: None, ty: int_ty() },
        ],
        comment: None,
    };
    let (items, _) = run(&f, true).unwrap();
    match &items[0] {
        Item::Fn(func) => {
            assert_eq!(func.args[0].name, "a0");
            assert_eq!(func.args[1].name, "a1");
        },
        _ => panic!("expected a function"),
    }
}

#[test]
fn missing_mangled_name_is_fatal() {
    let f = Entity::Function {
        name: "f".to_string(),
        mangled: None,
        is_inline: false,
        result: Some(void_ty()),
        params: vec![],
        comment: None,
    };
    assert_eq!(
        run(&f, true).unwrap_err(),
        Error::MissingMetadata { name: "f".to_string() }
    );
}

#[test]
fn missing_result_type_is_fatal() {
    let f = Entity::Function {
        name: "f".to_string(),
        mangled: Some("_Z1fv".to_string()),
        is_inline: false,
        result: None,
        params: vec![],
        comment: None,
    };
    assert_eq!(
        run(&f, true).unwrap_err(),
        Error::MissingMetadata { name: "f".to_string() }
    );
}

#[test]
fn inline_function_with_unnamed_parameter_is_fatal() {
    let f = Entity::Function {
        name: "f".to_string(),
        mangled: Some("_Z1fi".to_string()),
        is_inline: true,
        result: Some(int_ty()),
        params: vec![Param { name: None, ty: int_ty() }],
        comment: None,
    };
    assert_eq!(
        run(&f, true).unwrap_err(),
        Error::MissingMetadata { name: "f".to_string() }
    );
}

#[test]
fn class_passed_by_value_fails_the_whole_run_with_no_output() {
    let f = Entity::Function {
        name: "f".to_string(),
        mangled: Some("_Z1f7MyClass".to_string()),
        is_inline: false,
        result: Some(void_ty()),
        params: vec![named_param("x", class_ty("MyClass"))],
        comment: None,
    };
    let tu = Entity::TranslationUnit { children: vec![f] };
    let r = generate_source(&tu, "h.h", true);
    assert_eq!(
        r.unwrap_err(),
        Error::UnsupportedType { display: "MyClass".to_string() }
    );
}

#[test]
fn comments_are_carried_as_lines() {
    let ns = Entity::Namespace {
        name: "A".to_string(),
        comment: Some("/// one\n/// two".to_string()),
        children: vec![],
    };
    let (items, _) = run(&ns, true).unwrap();
    match &items[0] {
        Item::Mod(m) => {
            assert_eq!(m.comments, vec!["/// one".to_string(), "/// two".to_string()]);
        },
        _ => panic!("expected a module"),
    }
}

#[test]
fn generated_glue_file_includes_the_header_and_escapes_backslashes() {
    let f = Entity::Function {
        name: "f".to_string(),
        mangled: Some("_Z1fv".to_string()),
        is_inline: false,
        result: Some(void_ty()),
        params: vec![],
        comment: None,
    };
    let tu = Entity::TranslationUnit { children: vec![f] };
    let out = generate_source(&tu, "C:\\inc\\h.h", false).unwrap();
    assert!(out.glue.starts_with("#include \"C:\\\\inc\\\\h.h\"\n"));
    assert!(out.bindings.contains("#[link_name = \"_Z1fv\"]"));
    assert!(out.bindings.contains("pub fn f() -> std::os::raw::c_void;"));
}

#[test]
fn full_translation_unit_generates_consistent_artifacts() {
    let class = Entity::Class {
        name: "Point".to_string(),
        comment: Some("/// A planar point.".to_string()),
        children: vec![
            Entity::Field { name: "x".to_string(), is_public: true, ty: int_ty() },
            Entity::Field { name: "y".to_string(), is_public: true, ty: int_ty() },
            Entity::Constructor {
                name: "Point".to_string(),
                mangled: Some("_ZN3geo5PointC1Eii".to_string()),
                params: vec![named_param("a", int_ty()), named_param("b", int_ty())],
                comment: None,
            },
            Entity::Destructor {
                mangled_names: vec!["_ZN3geo5PointD1Ev".to_string()],
                comment: None,
            },
            Entity::Method {
                name: "norm".to_string(),
                mangled: Some("_ZN3geo5Point4normEv".to_string()),
                is_static: false,
                result: Some(int_ty()),
                params: vec![],
                comment: None,
            },
        ],
    };
    let twice = Entity::Function {
        name: "twice".to_string(),
        mangled: Some("_ZN3geo5twiceEi".to_string()),
        is_inline: true,
        result: Some(int_ty()),
        params: vec![named_param("v", int_ty())],
        comment: None,
    };
    let ns = Entity::Namespace {
        name: "geo".to_string(),
        comment: None,
        children: vec![class, twice],
    };
    let tu = Entity::TranslationUnit { children: vec![ns] };
    let out = generate_source(&tu, "geo.h", true).unwrap();
    assert!(out.bindings.starts_with("mod geo {\n"));
    assert!(out.bindings.contains("/// A planar point.\n#[repr(C)]\n#[derive(Default, Debug)]\npub struct Point {\npub x: std::os::raw::c_int,\npub y: std::os::raw::c_int,\n}\n"));
    assert!(out.bindings.contains("#[link_name = \"ZN3geo5PointC1Eii\"]"));
    assert!(out.bindings.contains(
        "pub unsafe fn new(a: std::os::raw::c_int, b: std::os::raw::c_int) -> Point"
    ));
    assert!(out.bindings.contains("impl Drop for Point"));
    assert!(out.bindings.contains("#[link_name = \"ZN3geo5PointD1Ev\"]"));
    assert!(out.bindings.contains("pub unsafe fn norm(&mut self) -> std::os::raw::c_int"));
    assert!(out.glue.starts_with("#include \"geo.h\"\n"));
    assert!(out.glue.contains("{ return twice(v); }"));
    let proxy_start = out.glue.find("int _").expect("proxy definition present");
    let proxy: String = out.glue[proxy_start + 4..]
        .chars()
        .take_while(|c| c.is_ascii_alphanumeric() || *c == '_')
        .collect();
    assert!(out.bindings.contains(&format!("#[link_name = \"{}\"]", proxy)));
}

#[test]
fn ignored_declaration_kinds_contribute_nothing() {
    let tu = Entity::TranslationUnit {
        children: vec![
            Entity::Other,
            Entity::Field { name: "loose".to_string(), is_public: true, ty: int_ty() },
        ],
    };
    let (items, glue) = run(&tu, true).unwrap();
    assert_eq!(items.len(), 0);
    assert_eq!(glue, "");
}
