//! The type mapper: a canonical C++ type is translated to the text of a
//! binary-compatible Rust type expression, or rejected.
use vstd::prelude::*;

verus! {

/// A fatal translation failure. Every failure aborts the whole generation
/// run; no partial output is produced from an erroneous declaration tree.
#[derive(Debug, Clone, PartialEq, Eq)]
pub enum Error {
    /// A declaration references a type kind the mapper does not support.
    /// Carries the display name of the offending type.
    UnsupportedType { display: String },
    /// The declaration tree omits a fact the translation cannot do without
    /// (a link name, a result type, a parameter name needed for glue).
    /// Carries the name of the offending declaration.
    MissingMetadata { name: String },
}

/// The ghost mirror of `Error`, over character sequences.
pub enum ErrorV {
    UnsupportedType { display: Seq<char> },
    MissingMetadata { name: Seq<char> },
}

/// What an `Error` value says, at the specification level.
pub open spec fn error_view(e: Error) -> ErrorV {
    match e {
        Error::UnsupportedType { display } => ErrorV::UnsupportedType { display: display@ },
        Error::MissingMetadata { name } => ErrorV::MissingMetadata { name: name@ },
    }
}

/// A canonicalized (typedef-stripped) C++ type, as the parser reports it:
/// the kind, and the source-level display name (used in glue text and in
/// error messages).
#[derive(Debug)]
pub struct CppType {
    pub kind: TypeKind,
    pub display: String,
}

/// The supported canonical type kinds, plus a catch-all for everything the
/// mapper rejects (class-by-value, references, arrays, templates, ...).
#[derive(Debug)]
pub enum TypeKind {
    /// Constness of the pointee is a property of the pointee type, not of
    /// the pointer itself.
    Pointer { pointee: Box<CppType>, pointee_const: bool },
    Void,
    CharS,
    CharU,
    SChar,
    UChar,
    Short,
    UShort,
    Int,
    UInt,
    Long,
    ULong,
    LongLong,
    ULongLong,
    Float,
    Double,
    Other,
}

/// What the mapper returns for a type: the mapped Rust type expression, or
/// the display name of the (innermost, first encountered) unsupported type.
pub open spec fn map_type_spec(t: CppType) -> Result<Seq<char>, Seq<char>>
    decreases t,
{
    match t.kind {
        TypeKind::Pointer { pointee, pointee_const } => match map_type_spec(*pointee) {
            Ok(inner) => Ok((if pointee_const {
                "*const "@
            } else {
                "*mut "@
            }) + inner),
            Err(d) => Err(d),
        },
        TypeKind::Void => Ok("std::os::raw::c_void"@),
        TypeKind::CharS => Ok("std::os::raw::c_char"@),
        TypeKind::CharU => Ok("std::os::raw::c_char"@),
        TypeKind::SChar => Ok("std::os::raw::c_schar"@),
        TypeKind::UChar => Ok("std::os::raw::c_uchar"@),
        TypeKind::Short => Ok("std::os::raw::c_short"@),
        TypeKind::UShort => Ok("std::os::raw::c_ushort"@),
        TypeKind::Int => Ok("std::os::raw::c_int"@),
        TypeKind::UInt => Ok("std::os::raw::c_uint"@),
        TypeKind::Long => Ok("std::os::raw::c_long"@),
        TypeKind::ULong => Ok("std::os::raw::c_ulong"@),
        TypeKind::LongLong => Ok("std::os::raw::c_longlong"@),
        TypeKind::ULongLong => Ok("std::os::raw::c_ulonglong"@),
        TypeKind::Float => Ok("std::os::raw::c_float"@),
        TypeKind::Double => Ok("std::os::raw::c_double"@),
        TypeKind::Other => Err(t.display@),
    }
}

/// A type is supported when no node of it (through pointers) is of an
/// unrecognized kind.
pub open spec fn type_supported(t: CppType) -> bool
    decreases t,
{
    match t.kind {
        TypeKind::Pointer { pointee, .. } => type_supported(*pointee),
        TypeKind::Other => false,
        _ => true,
    }
}

/// Map a canonical C++ type to the text of a binary-compatible Rust type
/// expression. Total and deterministic over the supported kinds; an
/// unsupported kind is a fatal `UnsupportedType` naming the offending type.
pub fn map_type(t: &CppType) -> (r: Result<String, Error>)
    ensures
        r is Ok <==> map_type_spec(*t) is Ok,
        r matches Ok(s) ==> map_type_spec(*t) == Ok::<Seq<char>, Seq<char>>(s@),
        r matches Err(e) ==> (e matches Error::UnsupportedType { display } && map_type_spec(*t)
            == Err::<Seq<char>, Seq<char>>(display@)),
    decreases *t,
{
    match &t.kind {
        TypeKind::Pointer { pointee, pointee_const } => match map_type(&**pointee) {
            Ok(inner) => {
                let mut s = if *pointee_const {
                    String::from_str("*const ")
                } else {
                    String::from_str("*mut ")
                };
                s.append(inner.as_str());
                Ok(s)
            },
            Err(e) => Err(e),
        },
        TypeKind::Void => Ok(String::from_str("std::os::raw::c_void")),
        TypeKind::CharS => Ok(String::from_str("std::os::raw::c_char")),
        TypeKind::CharU => Ok(String::from_str("std::os::raw::c_char")),
        TypeKind::SChar => Ok(String::from_str("std::os::raw::c_schar")),
        TypeKind::UChar => Ok(String::from_str("std::os::raw::c_uchar")),
        TypeKind::Short => Ok(String::from_str("std::os::raw::c_short")),
        TypeKind::UShort => Ok(String::from_str("std::os::raw::c_ushort")),
        TypeKind::Int => Ok(String::from_str("std::os::raw::c_int")),
        TypeKind::UInt => Ok(String::from_str("std::os::raw::c_uint")),
        TypeKind::Long => Ok(String::from_str("std::os::raw::c_long")),
        TypeKind::ULong => Ok(String::from_str("std::os::raw::c_ulong")),
        TypeKind::LongLong => Ok(String::from_str("std::os::raw::c_longlong")),
        TypeKind::ULongLong => Ok(String::from_str("std::os::raw::c_ulonglong")),
        TypeKind::Float => Ok(String::from_str("std::os::raw::c_float")),
        TypeKind::Double => Ok(String::from_str("std::os::raw::c_double")),
        TypeKind::Other => Err(
            Error::UnsupportedType { display: t.display.clone() },
        ),
    }
}

/// The mapping is a pure function of the type: any two results for the same
/// type are the same expression.
pub proof fn lemma_map_type_deterministic(t: CppType, r1: Seq<char>, r2: Seq<char>)
    requires
        map_type_spec(t) == Ok::<Seq<char>, Seq<char>>(r1),
        map_type_spec(t) == Ok::<Seq<char>, Seq<char>>(r2),
    ensures
        r1 == r2,
{
}

/// The mapper succeeds exactly on supported types, and rejects exactly the
/// types that contain an unsupported kind.
pub proof fn lemma_map_type_total_on_supported(t: CppType)
    ensures
        map_type_spec(t) is Ok <==> type_supported(t),
    decreases t,
{
    match t.kind {
        TypeKind::Pointer { pointee, .. } => lemma_map_type_total_on_supported(*pointee),
        _ => {},
    }
}

/// Constness of the pointee propagates to the mapped pointer: a pointer to a
/// const-qualified type maps to an immutable raw pointer, a pointer to a
/// non-const type to a mutable one, around the mapped pointee.
pub proof fn lemma_pointer_constness(t: CppType, pointee: CppType, pointee_const: bool)
    requires
        t.kind matches TypeKind::Pointer { pointee: p, pointee_const: c } && *p == pointee && c
            == pointee_const,
    ensures
        map_type_spec(pointee) matches Ok(inner) ==> map_type_spec(t) == Ok::<
            Seq<char>,
            Seq<char>,
        >(
            (if pointee_const {
                "*const "@
            } else {
                "*mut "@
            }) + inner,
        ),
        map_type_spec(pointee) matches Err(d) ==> map_type_spec(t) == Err::<Seq<char>, Seq<char>>(
            d,
        ),
{
}

} // verus!
