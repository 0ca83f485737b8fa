use header_bindgen::types::CppType;
use header_bindgen::types::Error;
use header_bindgen::types::TypeKind;
use header_bindgen::types::map_type;

fn ty(kind: TypeKind, display: &str) -> CppType {
    CppType { kind, display: display.to_string() }
}

#[test]
fn maps_integer_kinds_to_c_abi_types() {
    assert_eq!(map_type(&ty(TypeKind::Int, "int")).unwrap(), "std::os::raw::c_int");
    assert_eq!(map_type(&ty(TypeKind::UInt, "unsigned int")).unwrap(), "std::os::raw::c_uint");
    assert_eq!(map_type(&ty(TypeKind::Short, "short")).unwrap(), "std::os::raw::c_short");
    assert_eq!(map_type(&ty(TypeKind::UShort, "unsigned short")).unwrap(), "std::os::raw::c_ushort");
    assert_eq!(map_type(&ty(TypeKind::Long, "long")).unwrap(), "std::os::raw::c_long");
    assert_eq!(map_type(&ty(TypeKind::ULong, "unsigned long")).unwrap(), "std::os::raw::c_ulong");
    assert_eq!(map_type(&ty(TypeKind::LongLong, "long long")).unwrap(), "std::os::raw::c_longlong");
    assert_eq!(
        map_type(&ty(TypeKind::ULongLong, "unsigned long long")).unwrap(),
        "std::os::raw::c_ulonglong"
    );
}

#[test]
fn maps_char_kinds_to_c_char_variants() {
    assert_eq!(map_type(&ty(TypeKind::CharS, "char")).unwrap(), "std::os::raw::c_char");
    assert_eq!(map_type(&ty(TypeKind::CharU, "char")).unwrap(), "std::os::raw::c_char");
    assert_eq!(map_type(&ty(TypeKind::SChar, "signed char")).unwrap(), "std::os::raw::c_schar");
    assert_eq!(map_type(&ty(TypeKind::UChar, "unsigned char")).unwrap(), "std::os::raw::c_uchar");
}

#[test]
fn maps_void_and_floating_kinds() {
    assert_eq!(map_type(&ty(TypeKind::Void, "void")).unwrap(), "std::os::raw::c_void");
    assert_eq!(map_type(&ty(TypeKind::Float, "float")).unwrap(), "std::os::raw::c_float");
    assert_eq!(map_type(&ty(TypeKind::Double, "double")).unwrap(), "std::os::raw::c_double");
}

#[test]
fn mapping_is_deterministic() {
    let t = ty(TypeKind::Int, "int");
    let first = map_type(&t).unwrap();
    let second = map_type(&t).unwrap();
    assert_eq!(first, second);
    assert_eq!(first, "std::os::raw::c_int");
}

#[test]
fn pointer_to_const_int_maps_to_immutable_pointer() {
    let t = CppType {
        kind: TypeKind::Pointer {
            pointee: Box::new(ty(TypeKind::Int, "const int")),
            pointee_const: true,
        },
        display: "const int *".to_string(),
    };
    assert_eq!(map_type(&t).unwrap(), "*const std::os::raw::c_int");
}

#[test]
fn pointer_to_mutable_int_maps_to_mutable_pointer() {
    let t = CppType {
        kind: TypeKind::Pointer {
            pointee: Box::new(ty(TypeKind::Int, "int")),
            pointee_const: false,
        },
        display: "int *".to_string(),
    };
    assert_eq!(map_type(&t).unwrap(), "*mut std::os::raw::c_int");
}

#[test]
fn nested_pointers_propagate_constness_per_level() {
    let inner = CppType {
        kind: TypeKind::Pointer {
            pointee: Box::new(ty(TypeKind::Int, "int")),
            pointee_const: false,
        },
        display: "int *".to_string(),
    };
    let outer = CppType {
        kind: TypeKind::Pointer { pointee: Box::new(inner), pointee_const: true },
        display: "int *const *".to_string(),
    };
    assert_eq!(map_type(&outer).unwrap(), "*const *mut std::os::raw::c_int");
}

#[test]
fn unsupported_kind_is_rejected_with_its_display_name() {
    let t = ty(TypeKind::Other, "MyClass");
    assert_eq!(
        map_type(&t),
        Err(Error::UnsupportedType { display: "MyClass".to_string() })
    );
}

#[test]
fn unsupported_pointee_is_rejected_with_the_pointee_display_name() {
    let t = CppType {
        kind: TypeKind::Pointer {
            pointee: Box::new(ty(TypeKind::Other, "MyClass")),
            pointee_const: false,
        },
        display: "MyClass *".to_string(),
    };
    assert_eq!(
        map_type(&t),
        Err(Error::UnsupportedType { display: "MyClass".to_string() })
    );
}
