//! The entity processor: a recursive walk of the declaration tree that
//! dispatches by declaration kind, builds binding items, and accumulates
//! the glue source for inline functions. The walk draws one random word
//! per synthesized symbol; every drawn word is logged, and the outcome is
//! exactly the specification applied to the logged words.
use vstd::prelude::*;
use crate::items::Arg;
use crate::items::ArgV;
use crate::items::Constructor;
use crate::items::ConstructorV;
use crate::items::Destructor;
use crate::items::DestructorV;
use crate::items::Field;
use crate::items::FieldV;
use crate::items::Item;
use crate::items::ItemFn;
use crate::items::ItemFnV;
use crate::items::ItemMod;
use crate::items::ItemModV;
use crate::items::ItemStruct;
use crate::items::ItemStructV;
use crate::items::ItemV;
use crate::items::Method;
use crate::items::MethodV;
use crate::items::StaticMethod;
use crate::items::StaticMethodV;
use crate::items::args_view;
use crate::items::field_view;
use crate::items::fields_view;
use crate::items::items_view;
use crate::items::lemma_items_view_concat;
use crate::items::lemma_items_view_singleton;
use crate::items::method_view;
use crate::items::methods_view;
use crate::items::opt_constructor_view;
use crate::items::opt_destructor_view;
use crate::items::static_method_view;
use crate::items::static_methods_view;
use crate::model::Context;
use crate::model::Entity;
use crate::model::Param;
use crate::symbols::link_symbol;
use crate::symbols::link_symbol_spec;
use crate::symbols::proxy_symbol;
use crate::symbols::proxy_symbol_spec;
use crate::items::items_spec;
use crate::items::render_items;
use crate::text::dec_seq;
use crate::text::dec_string;
use crate::text::escape_backslashes;
use crate::text::escape_backslashes_spec;
use crate::text::join;
use crate::text::join_spec;
use crate::text::split_lines;
use crate::text::split_lines_spec;
use crate::types::CppType;
use crate::types::Error;
use crate::types::ErrorV;
use crate::types::error_view;
use crate::types::map_type;
use crate::types::map_type_spec;

verus! {

// ---------------------------------------------------------------------------
// Comments.
// ---------------------------------------------------------------------------
/// The doc-comment lines of a declaration: the comment text split at every
/// source newline; no comment means no lines (absence is not an error).
pub open spec fn comment_lines_spec(c: Option<String>) -> Seq<Seq<char>> {
    match c {
        Some(s) => split_lines_spec(s@),
        None => Seq::empty(),
    }
}

fn comment_lines(c: &Option<String>) -> (r: Vec<String>)
    ensures
        r.deep_view() == comment_lines_spec(*c),
{
    match c {
        Some(s) => split_lines(s.as_str()),
        None => {
            let r: Vec<String> = Vec::new();
            proof {
                assert(r.deep_view() =~= Seq::<Seq<char>>::empty());
            }
            r
        },
    }
}

// ---------------------------------------------------------------------------
// Parameters.
// ---------------------------------------------------------------------------
/// The binding-parameter name: the declared display name, or a synthetic
/// positional name indexed from zero when the display name is absent.
pub open spec fn param_name_spec(p: Param, i: int) -> Seq<char> {
    match p.name {
        Some(n) => n@,
        None => "a"@ + dec_seq(i),
    }
}

/// The binding parameters for the declared parameters from index `i` on:
/// each keeps its position and carries its mapped type; the first
/// unsupported parameter type fails the whole declaration.
pub open spec fn params_args_spec(params: Seq<Param>, i: int) -> Result<Seq<ArgV>, ErrorV>
    decreases params.len() - i,
{
    if i < 0 || i >= params.len() {
        Ok(Seq::empty())
    } else {
        match map_type_spec(params[i].ty) {
            Err(d) => Err(ErrorV::UnsupportedType { display: d }),
            Ok(ty) => match params_args_spec(params, i + 1) {
                Err(e) => Err(e),
                Ok(rest) => Ok(seq![ArgV { name: param_name_spec(params[i], i), ty: ty }] + rest),
            },
        }
    }
}

fn param_name(p: &Param, i: usize) -> (r: String)
    ensures
        r@ == param_name_spec(*p, i as int),
{
    match &p.name {
        Some(n) => n.clone(),
        None => {
            let mut s = String::from_str("a");
            s.append(dec_string(i as u64).as_str());
            s
        },
    }
}

fn build_args(params: &Vec<Param>, i: usize) -> (r: Result<Vec<Arg>, Error>)
    requires
        i <= params@.len(),
    ensures
        r matches Ok(v) ==> params_args_spec(params@, i as int) == Ok::<Seq<ArgV>, ErrorV>(
            args_view(v@),
        ),
        r matches Err(e) ==> params_args_spec(params@, i as int) == Err::<Seq<ArgV>, ErrorV>(
            error_view(e),
        ),
    decreases params@.len() - i,
{
    if i == params.len() {
        let v: Vec<Arg> = Vec::new();
        proof {
            assert(args_view(v@) =~= Seq::<ArgV>::empty());
        }
        Ok(v)
    } else {
        match map_type(&params[i].ty) {
            Err(e) => Err(e),
            Ok(ty) => {
                let name = param_name(&params[i], i);
                let ghost name_v = name@;
                let ghost ty_v = ty@;
                match build_args(params, i + 1) {
                    Err(e) => Err(e),
                    Ok(mut rest) => {
                        let ghost rest_v = rest@;
                        rest.insert(0, Arg { name, ty });
                        proof {
                            assert(args_view(rest@) =~= seq![
                                ArgV { name: name_v, ty: ty_v },
                            ] + args_view(rest_v));
                        }
                        Ok(rest)
                    },
                }
            },
        }
    }
}

// ---------------------------------------------------------------------------
// Glue text for inline functions.
// ---------------------------------------------------------------------------
/// Whether every declared parameter carries a display name; glue cannot be
/// written without them.
pub open spec fn all_params_named(params: Seq<Param>) -> bool {
    forall|i: int| 0 <= i < params.len() ==> params[i].name is Some
}

/// The glue parameter texts: the source-level type display name and the
/// display name of each parameter.
pub open spec fn glue_param_texts_spec(params: Seq<Param>) -> Seq<Seq<char>> {
    params.map_values(
        |p: Param| p.ty.display@ + " "@ + (match p.name {
            Some(n) => n@,
            None => Seq::<char>::empty(),
        }),
    )
}

/// The glue forwarding-call argument names.
pub open spec fn glue_name_texts_spec(params: Seq<Param>) -> Seq<Seq<char>> {
    params.map_values(
        |p: Param| match p.name {
            Some(n) => n@,
            None => Seq::<char>::empty(),
        },
    )
}

/// One platform-C-linkage forwarding definition: under the proxy symbol
/// `sym`, with the declared result and parameter display names, a body
/// that calls the original function by its source name with the forwarded
/// arguments.
pub open spec fn glue_def_spec(
    ret_display: Seq<char>,
    sym: Seq<char>,
    fname: Seq<char>,
    params: Seq<Param>,
) -> Seq<char> {
    "extern \"C\" { "@ + ret_display + " "@ + sym + "("@ + join_spec(
        glue_param_texts_spec(params),
        ", "@,
    ) + ") { return "@ + fname + "("@ + join_spec(glue_name_texts_spec(params), ", "@) + "); } }"@
}

fn glue_param_lists(fname: &String, params: &Vec<Param>) -> (r: Result<
    (Vec<String>, Vec<String>),
    Error,
>)
    ensures
        r matches Ok(pair) ==> all_params_named(params@) && pair.0.deep_view()
            == glue_param_texts_spec(params@) && pair.1.deep_view() == glue_name_texts_spec(
            params@,
        ),
        r matches Err(e) ==> !all_params_named(params@) && error_view(e)
            == (ErrorV::MissingMetadata { name: fname@ }),
{
    let mut texts: Vec<String> = Vec::new();
    let mut names: Vec<String> = Vec::new();
    let mut i: usize = 0;
    proof {
        assert(texts.deep_view() =~= glue_param_texts_spec(params@.take(0)));
        assert(names.deep_view() =~= glue_name_texts_spec(params@.take(0)));
    }
    while i < params.len()
        invariant
            i <= params@.len(),
            texts.deep_view() == glue_param_texts_spec(params@.take(i as int)),
            names.deep_view() == glue_name_texts_spec(params@.take(i as int)),
            forall|k: int| 0 <= k < i ==> params@[k].name is Some,
        decreases params@.len() - i,
    {
        match &params[i].name {
            None => {
                return Err(Error::MissingMetadata { name: fname.clone() });
            },
            Some(n) => {
                let ghost texts_prev = texts.deep_view();
                let ghost names_prev = names.deep_view();
                let mut t = params[i].ty.display.clone();
                t.append(" ");
                t.append(n.as_str());
                let ghost t_v = t@;
                texts.push(t);
                let nm = n.clone();
                let ghost nm_v = nm@;
                names.push(nm);
                proof {
                    assert(texts.deep_view() =~= texts_prev.push(t_v));
                    assert(glue_param_texts_spec(params@.take(i + 1)) =~= texts_prev.push(t_v));
                    assert(names.deep_view() =~= names_prev.push(nm_v));
                    assert(glue_name_texts_spec(params@.take(i + 1)) =~= names_prev.push(nm_v));
                }
            },
        }
        i += 1;
    }
    proof {
        assert(params@.take(params@.len() as int) =~= params@);
    }
    Ok((texts, names))
}

// ---------------------------------------------------------------------------
// Random-word consumption counts.
// ---------------------------------------------------------------------------
/// Whether a mangled link name is present and usable.
pub open spec fn mangled_present(m: Option<String>) -> bool {
    match m {
        Some(s) => s@.len() >= 1,
        None => false,
    }
}

/// How many random words processing this entity at the top level consumes
/// on success: one per inline function, one per constructor, destructor or
/// method of a class.
pub open spec fn ids_needed(e: Entity) -> nat
    decreases e,
{
    match e {
        Entity::TranslationUnit { children } => ids_needed_list(children@),
        Entity::Namespace { children, .. } => ids_needed_list(children@),
        Entity::Function { is_inline, .. } => if is_inline {
            1nat
        } else {
            0nat
        },
        Entity::Class { children, .. } => ids_needed_members(children@),
        _ => 0nat,
    }
}

pub open spec fn ids_needed_list(children: Seq<Entity>) -> nat
    decreases children,
{
    if children.len() == 0 {
        0nat
    } else {
        ids_needed(children[0]) + ids_needed_list(children.skip(1))
    }
}

/// How many random words one class member consumes: one trampoline name
/// per constructor, destructor or method.
pub open spec fn member_ids_needed(e: Entity) -> nat {
    match e {
        Entity::Constructor { .. } => 1nat,
        Entity::Destructor { .. } => 1nat,
        Entity::Method { .. } => 1nat,
        _ => 0nat,
    }
}

pub open spec fn ids_needed_members(children: Seq<Entity>) -> nat
    decreases children.len(),
{
    if children.len() == 0 {
        0nat
    } else {
        member_ids_needed(children[0]) + ids_needed_members(children.skip(1))
    }
}

// ---------------------------------------------------------------------------
// The processing specification.
// ---------------------------------------------------------------------------
/// The collected members of one class: fields in declaration order, the
/// retained constructor and destructor (the last declared wins, mirroring
/// the observed single-slot behavior), methods and static methods in
/// order.
pub struct MembersV {
    pub fields: Seq<FieldV>,
    pub constructor: Option<ConstructorV>,
    pub destructor: Option<DestructorV>,
    pub methods: Seq<MethodV>,
    pub static_methods: Seq<StaticMethodV>,
}

pub open spec fn empty_members() -> MembersV {
    MembersV {
        fields: Seq::empty(),
        constructor: None,
        destructor: None,
        methods: Seq::empty(),
        static_methods: Seq::empty(),
    }
}

pub open spec fn combine_members(d: MembersV, rest: MembersV) -> MembersV {
    MembersV {
        fields: d.fields + rest.fields,
        constructor: if rest.constructor is Some {
            rest.constructor
        } else {
            d.constructor
        },
        destructor: if rest.destructor is Some {
            rest.destructor
        } else {
            d.destructor
        },
        methods: d.methods + rest.methods,
        static_methods: d.static_methods + rest.static_methods,
    }
}

/// What one class member contributes, given the random words it consumes.
pub open spec fn member_delta_spec(e: Entity, class_name: Seq<char>, u: bool, ids: Seq<u64>) -> Result<
    MembersV,
    ErrorV,
> {
    match e {
        Entity::Field { name, is_public, ty } => match map_type_spec(ty) {
            Err(d) => Err(ErrorV::UnsupportedType { display: d }),
            Ok(t) => Ok(
                MembersV {
                    fields: seq![FieldV { is_public: is_public, name: name@, ty: t }],
                    constructor: None,
                    destructor: None,
                    methods: Seq::empty(),
                    static_methods: Seq::empty(),
                },
            ),
        },
        Entity::Constructor { name, mangled, params, comment } => if !mangled_present(mangled) {
            Err(ErrorV::MissingMetadata { name: name@ })
        } else {
            match params_args_spec(params@, 0) {
                Err(e) => Err(e),
                Ok(args) => Ok(
                    MembersV {
                        fields: Seq::empty(),
                        constructor: Some(
                            ConstructorV {
                                name: name@,
                                symbol: link_symbol_spec(mangled->0@, u),
                                trampoline: proxy_symbol_spec(ids[0] as int),
                                args: args,
                                comments: comment_lines_spec(comment),
                            },
                        ),
                        destructor: None,
                        methods: Seq::empty(),
                        static_methods: Seq::empty(),
                    },
                ),
            }
        },
        Entity::Destructor { mangled_names, comment } => if mangled_names@.len() == 0
            || mangled_names@[0]@.len() == 0 {
            Err(ErrorV::MissingMetadata { name: class_name })
        } else {
            Ok(
                MembersV {
                    fields: Seq::empty(),
                    constructor: None,
                    destructor: Some(
                        DestructorV {
                            name: class_name,
                            symbol: link_symbol_spec(mangled_names@[0]@, u),
                            trampoline: proxy_symbol_spec(ids[0] as int),
                            comments: comment_lines_spec(comment),
                        },
                    ),
                    methods: Seq::empty(),
                    static_methods: Seq::empty(),
                },
            )
        },
        Entity::Method { name, mangled, is_static, result, params, comment } => if !mangled_present(
            mangled,
        ) {
            Err(ErrorV::MissingMetadata { name: name@ })
        } else {
            match params_args_spec(params@, 0) {
                Err(e) => Err(e),
                Ok(args) => match result {
                    None => Err(ErrorV::MissingMetadata { name: name@ }),
                    Some(rt) => match map_type_spec(rt) {
                        Err(d) => Err(ErrorV::UnsupportedType { display: d }),
                        Ok(ret) => Ok(
                            if is_static {
                                MembersV {
                                    fields: Seq::empty(),
                                    constructor: None,
                                    destructor: None,
                                    methods: Seq::empty(),
                                    static_methods: seq![
                                        StaticMethodV {
                                            class: class_name,
                                            name: name@,
                                            symbol: link_symbol_spec(mangled->0@, u),
                                            trampoline: proxy_symbol_spec(ids[0] as int),
                                            args: args,
                                            ret: ret,
                                            comments: comment_lines_spec(comment),
                                        },
                                    ],
                                }
                            } else {
                                MembersV {
                                    fields: Seq::empty(),
                                    constructor: None,
                                    destructor: None,
                                    methods: seq![
                                        MethodV {
                                            class: class_name,
                                            name: name@,
                                            symbol: link_symbol_spec(mangled->0@, u),
                                            trampoline: proxy_symbol_spec(ids[0] as int),
                                            args: args,
                                            ret: ret,
                                            comments: comment_lines_spec(comment),
                                        },
                                    ],
                                    static_methods: Seq::empty(),
                                }
                            },
                        ),
                    },
                },
            }
        },
        _ => Ok(empty_members()),
    }
}

/// The members of a class, collected over its direct children in order;
/// random words are dealt to each member by its consumption count.
pub open spec fn members_spec(
    children: Seq<Entity>,
    class_name: Seq<char>,
    u: bool,
    ids: Seq<u64>,
) -> Result<MembersV, ErrorV>
    decreases children.len(),
{
    if children.len() == 0 {
        Ok(empty_members())
    } else {
        let n0 = member_ids_needed(children[0]);
        match member_delta_spec(children[0], class_name, u, ids.take(n0 as int)) {
            Err(e) => Err(e),
            Ok(d) => match members_spec(children.skip(1), class_name, u, ids.skip(n0 as int)) {
                Err(e) => Err(e),
                Ok(rest) => Ok(combine_members(d, rest)),
            },
        }
    }
}

/// Processing one function declaration: the link symbol is required; the
/// result type is required; an inline function additionally requires every
/// parameter's display name, takes a synthesized proxy symbol built from
/// the first dealt random word, and contributes one glue forwarding
/// definition under that same symbol.
pub open spec fn process_function_spec(
    name: String,
    mangled: Option<String>,
    is_inline: bool,
    result: Option<CppType>,
    params: Vec<Param>,
    comment: Option<String>,
    u: bool,
    ids: Seq<u64>,
) -> Result<(Seq<ItemV>, Seq<char>), ErrorV> {
    if !mangled_present(mangled) {
        Err(ErrorV::MissingMetadata { name: name@ })
    } else if result is None {
        Err(ErrorV::MissingMetadata { name: name@ })
    } else if is_inline && !all_params_named(params@) {
        Err(ErrorV::MissingMetadata { name: name@ })
    } else {
        match map_type_spec(result->0) {
            Err(d) => Err(ErrorV::UnsupportedType { display: d }),
            Ok(ret) => match params_args_spec(params@, 0) {
                Err(e) => Err(e),
                Ok(args) => {
                    let symbol = if is_inline {
                        proxy_symbol_spec(ids[0] as int)
                    } else {
                        link_symbol_spec(mangled->0@, u)
                    };
                    let glue = if is_inline {
                        glue_def_spec(result->0.display@, symbol, name@, params@)
                    } else {
                        Seq::<char>::empty()
                    };
                    Ok(
                        (
                            seq![
                                ItemV::Fn(
                                    ItemFnV {
                                        name: name@,
                                        symbol: symbol,
                                        args: args,
                                        ret: ret,
                                        comments: comment_lines_spec(comment),
                                    },
                                ),
                            ],
                            glue,
                        ),
                    )
                },
            },
        }
    }
}

/// What processing one entity yields: the binding items and the appended
/// glue text, or the first fatal error; `ids` are the random words the
/// walk of this entity consumes, dealt left to right.
pub open spec fn process_spec(e: Entity, ctx: Seq<Seq<char>>, u: bool, ids: Seq<u64>) -> Result<
    (Seq<ItemV>, Seq<char>),
    ErrorV,
>
    decreases e,
{
    match e {
        Entity::TranslationUnit { children } => process_list_spec(children@, ctx, u, ids),
        Entity::Namespace { name, comment, children } => match process_list_spec(
            children@,
            ctx.push(name@),
            u,
            ids,
        ) {
            Err(er) => Err(er),
            Ok(p) => Ok(
                (
                    seq![
                        ItemV::Mod(
                            ItemModV {
                                name: name@,
                                items: p.0,
                                comments: comment_lines_spec(comment),
                            },
                        ),
                    ],
                    p.1,
                ),
            ),
        },
        Entity::Function { name, mangled, is_inline, result, params, comment } =>
            process_function_spec(
            name,
            mangled,
            is_inline,
            result,
            params,
            comment,
            u,
            ids,
        ),
        Entity::Class { name, comment, children } => match members_spec(children@, name@, u, ids) {
            Err(er) => Err(er),
            Ok(m) => Ok(
                (
                    seq![
                        ItemV::Struct(
                            ItemStructV {
                                name: name@,
                                fields: m.fields,
                                constructor: m.constructor,
                                destructor: m.destructor,
                                methods: m.methods,
                                static_methods: m.static_methods,
                                comments: comment_lines_spec(comment),
                            },
                        ),
                    ],
                    Seq::empty(),
                ),
            ),
        },
        _ => Ok((Seq::empty(), Seq::empty())),
    }
}

/// Processing a list of sibling entities: results concatenated in order,
/// glue concatenated in order, random words dealt to each child by its
/// consumption count; the first error aborts everything.
pub open spec fn process_list_spec(
    children: Seq<Entity>,
    ctx: Seq<Seq<char>>,
    u: bool,
    ids: Seq<u64>,
) -> Result<(Seq<ItemV>, Seq<char>), ErrorV>
    decreases children,
{
    if children.len() == 0 {
        Ok((Seq::empty(), Seq::empty()))
    } else {
        let n0 = ids_needed(children[0]);
        match process_spec(children[0], ctx, u, ids.take(n0 as int)) {
            Err(e) => Err(e),
            Ok(p0) => match process_list_spec(children.skip(1), ctx, u, ids.skip(n0 as int)) {
                Err(e) => Err(e),
                Ok(p1) => Ok((p0.0 + p1.0, p0.1 + p1.1)),
            },
        }
    }
}

// ---------------------------------------------------------------------------
// The random words decide only the synthesized names: whether processing
// succeeds, and which error it fails with, do not depend on them.
// ---------------------------------------------------------------------------
pub proof fn lemma_status_any_ids(
    e: Entity,
    ctx: Seq<Seq<char>>,
    u: bool,
    ids1: Seq<u64>,
    ids2: Seq<u64>,
)
    ensures
        process_spec(e, ctx, u, ids1) is Err <==> process_spec(e, ctx, u, ids2) is Err,
        process_spec(e, ctx, u, ids1) matches Err(v) ==> process_spec(e, ctx, u, ids2) == Err::<
            (Seq<ItemV>, Seq<char>),
            ErrorV,
        >(v),
    decreases e,
{
    match e {
        Entity::TranslationUnit { children } => {
            lemma_status_any_ids_list(children@, ctx, u, ids1, ids2);
        },
        Entity::Namespace { name, children, .. } => {
            lemma_status_any_ids_list(children@, ctx.push(name@), u, ids1, ids2);
        },
        Entity::Class { name, children, .. } => {
            lemma_status_any_ids_members(children@, name@, u, ids1, ids2);
        },
        _ => {},
    }
}

pub proof fn lemma_status_any_ids_list(
    children: Seq<Entity>,
    ctx: Seq<Seq<char>>,
    u: bool,
    ids1: Seq<u64>,
    ids2: Seq<u64>,
)
    ensures
        process_list_spec(children, ctx, u, ids1) is Err <==> process_list_spec(
            children,
            ctx,
            u,
            ids2,
        ) is Err,
        process_list_spec(children, ctx, u, ids1) matches Err(v) ==> process_list_spec(
            children,
            ctx,
            u,
            ids2,
        ) == Err::<(Seq<ItemV>, Seq<char>), ErrorV>(v),
    decreases children,
{
    if children.len() == 0 {
    } else {
        let n0 = ids_needed(children[0]);
        lemma_status_any_ids(children[0], ctx, u, ids1.take(n0 as int), ids2.take(n0 as int));
        lemma_status_any_ids_list(children.skip(1), ctx, u, ids1.skip(n0 as int), ids2.skip(n0 as int));
    }
}

pub proof fn lemma_status_any_ids_members(
    children: Seq<Entity>,
    class_name: Seq<char>,
    u: bool,
    ids1: Seq<u64>,
    ids2: Seq<u64>,
)
    ensures
        members_spec(children, class_name, u, ids1) is Err <==> members_spec(
            children,
            class_name,
            u,
            ids2,
        ) is Err,
        members_spec(children, class_name, u, ids1) matches Err(v) ==> members_spec(
            children,
            class_name,
            u,
            ids2,
        ) == Err::<MembersV, ErrorV>(v),
    decreases children.len(),
{
    if children.len() == 0 {
    } else {
        let n0 = member_ids_needed(children[0]);
        lemma_status_any_ids_members(
            children.skip(1),
            class_name,
            u,
            ids1.skip(n0 as int),
            ids2.skip(n0 as int),
        );
    }
}

// ---------------------------------------------------------------------------
// The executable walk.
// ---------------------------------------------------------------------------
/// The collected members of one class, as built.
#[derive(Debug)]
pub struct Members {
    pub fields: Vec<Field>,
    pub constructor: Option<Constructor>,
    pub destructor: Option<Destructor>,
    pub methods: Vec<Method>,
    pub static_methods: Vec<StaticMethod>,
}

pub open spec fn members_view(m: Members) -> MembersV {
    MembersV {
        fields: fields_view(m.fields@),
        constructor: opt_constructor_view(m.constructor),
        destructor: opt_destructor_view(m.destructor),
        methods: methods_view(m.methods@),
        static_methods: static_methods_view(m.static_methods@),
    }
}

/// The link symbol of a declaration whose mangled name is required: a
/// missing or empty mangled name is fatal, never defaulted.
fn resolve_mangled(decl_name: &String, mangled: &Option<String>, u: bool) -> (r: Result<
    String,
    Error,
>)
    ensures
        r matches Ok(s) ==> mangled_present(*mangled) && s@ == link_symbol_spec(
            (*mangled)->0@,
            u,
        ),
        r matches Err(e) ==> !mangled_present(*mangled) && error_view(e)
            == (ErrorV::MissingMetadata { name: decl_name@ }),
{
    match mangled {
        None => Err(Error::MissingMetadata { name: decl_name.clone() }),
        Some(m) => {
            if m.as_str().is_empty() {
                Err(Error::MissingMetadata { name: decl_name.clone() })
            } else {
                Ok(link_symbol(m.as_str(), u))
            }
        },
    }
}

/// Merge one member's contribution into the members collected after it:
/// fields and methods keep declaration order; for the single constructor
/// and destructor slots the later declaration wins.
fn merge_members(delta: Members, rest: Members) -> (r: Members)
    ensures
        members_view(r) == combine_members(members_view(delta), members_view(rest)),
{
    let ghost delta_v = members_view(delta);
    let ghost rest_v = members_view(rest);
    let mut fields = delta.fields;
    let mut rest_fields = rest.fields;
    fields.append(&mut rest_fields);
    let mut methods = delta.methods;
    let mut rest_methods = rest.methods;
    methods.append(&mut rest_methods);
    let mut static_methods = delta.static_methods;
    let mut rest_statics = rest.static_methods;
    static_methods.append(&mut rest_statics);
    let constructor = match rest.constructor {
        Some(c) => Some(c),
        None => delta.constructor,
    };
    let destructor = match rest.destructor {
        Some(d) => Some(d),
        None => delta.destructor,
    };
    let r = Members { fields, constructor, destructor, methods, static_methods };
    proof {
        assert(fields_view(r.fields@) =~= delta_v.fields + rest_v.fields);
        assert(methods_view(r.methods@) =~= delta_v.methods + rest_v.methods);
        assert(static_methods_view(r.static_methods@) =~= delta_v.static_methods
            + rest_v.static_methods);
    }
    r
}

/// An empty members collection.
fn empty_members_exec() -> (r: Members)
    ensures
        members_view(r) == empty_members(),
{
    let m = Members {
        fields: Vec::new(),
        constructor: None,
        destructor: None,
        methods: Vec::new(),
        static_methods: Vec::new(),
    };
    proof {
        assert(fields_view(m.fields@) =~= Seq::<FieldV>::empty());
        assert(methods_view(m.methods@) =~= Seq::<MethodV>::empty());
        assert(static_methods_view(m.static_methods@) =~= Seq::<StaticMethodV>::empty());
    }
    m
}

/// What one class member contributes. Consumes (and logs) one random word
/// for a constructor, destructor or method; anything that is not a member
/// kind contributes nothing.
#[verifier::rlimit(100)]
fn member_delta(e: &Entity, class_name: &String, u: bool, ids: &mut Vec<u64>) -> (r: Result<
    Members,
    Error,
>)
    ensures
        old(ids)@.is_prefix_of(final(ids)@),
        r matches Ok(m) ==> final(ids)@.len() - old(ids)@.len() == member_ids_needed(*e)
            && member_delta_spec(*e, class_name@, u, final(ids)@.skip(old(ids)@.len() as int))
            == Ok::<MembersV, ErrorV>(members_view(m)),
        r matches Err(err) ==> forall|any: Seq<u64>|
            member_delta_spec(*e, class_name@, u, any) == Err::<MembersV, ErrorV>(error_view(err)),
{
    let ghost pre = ids@;
    proof {
        assert(pre.is_prefix_of(pre)) by {
            assert(pre.take(pre.len() as int) =~= pre);
        }
        assert(pre.skip(pre.len() as int) =~= Seq::<u64>::empty());
    }
    match e {
        Entity::Field { name, is_public, ty } => {
            let t = match map_type(ty) {
                Err(er) => {
                    return Err(er);
                },
                Ok(t) => t,
            };
            let f = Field { is_public: *is_public, name: name.clone(), ty: t };
            let ghost f_v = field_view(f);
            let mut m = empty_members_exec();
            m.fields.push(f);
            proof {
                assert(fields_view(m.fields@) =~= seq![f_v]);
                assert(methods_view(m.methods@) =~= Seq::<MethodV>::empty());
                assert(static_methods_view(m.static_methods@) =~= Seq::<StaticMethodV>::empty());
            }
            Ok(m)
        },
        Entity::Constructor { name, mangled, params, comment } => {
            let symbol = match resolve_mangled(name, mangled, u) {
                Err(er) => {
                    return Err(er);
                },
                Ok(s) => s,
            };
            let idw = rand::random::<u64>();
            ids.push(idw);
            proof {
                assert(pre.is_prefix_of(ids@)) by {
                    assert(ids@.take(pre.len() as int) =~= pre);
                }
                assert(ids@.skip(pre.len() as int) =~= seq![idw]);
            }
            let tramp = proxy_symbol(idw);
            let args = match build_args(params, 0) {
                Err(er) => {
                    return Err(er);
                },
                Ok(a) => a,
            };
            let comments = comment_lines(comment);
            let c = Constructor { name: name.clone(), symbol, trampoline: tramp, args, comments };
            let ghost c_v = crate::items::constructor_view(c);
            let mut m = empty_members_exec();
            m.constructor = Some(c);
            proof {
                assert(fields_view(m.fields@) =~= Seq::<FieldV>::empty());
                assert(methods_view(m.methods@) =~= Seq::<MethodV>::empty());
                assert(static_methods_view(m.static_methods@) =~= Seq::<StaticMethodV>::empty());
            }
            Ok(m)
        },
        Entity::Destructor { mangled_names, comment } => {
            if mangled_names.len() == 0 {
                return Err(Error::MissingMetadata { name: class_name.clone() });
            }
            if mangled_names[0].as_str().is_empty() {
                return Err(Error::MissingMetadata { name: class_name.clone() });
            }
            let symbol = link_symbol(mangled_names[0].as_str(), u);
            let idw = rand::random::<u64>();
            ids.push(idw);
            proof {
                assert(pre.is_prefix_of(ids@)) by {
                    assert(ids@.take(pre.len() as int) =~= pre);
                }
                assert(ids@.skip(pre.len() as int) =~= seq![idw]);
            }
            let tramp = proxy_symbol(idw);
            let comments = comment_lines(comment);
            let d = Destructor { name: class_name.clone(), symbol, trampoline: tramp, comments };
            let mut m = empty_members_exec();
            m.destructor = Some(d);
            proof {
                assert(fields_view(m.fields@) =~= Seq::<FieldV>::empty());
                assert(methods_view(m.methods@) =~= Seq::<MethodV>::empty());
                assert(static_methods_view(m.static_methods@) =~= Seq::<StaticMethodV>::empty());
            }
            Ok(m)
        },
        Entity::Method { name, mangled, is_static, result, params, comment } => {
            let symbol = match resolve_mangled(name, mangled, u) {
                Err(er) => {
                    return Err(er);
                },
                Ok(s) => s,
            };
            let idw = rand::random::<u64>();
            ids.push(idw);
            proof {
                assert(pre.is_prefix_of(ids@)) by {
                    assert(ids@.take(pre.len() as int) =~= pre);
                }
                assert(ids@.skip(pre.len() as int) =~= seq![idw]);
            }
            let tramp = proxy_symbol(idw);
            let args = match build_args(params, 0) {
                Err(er) => {
                    return Err(er);
                },
                Ok(a) => a,
            };
            let rt = match result {
                None => {
                    return Err(Error::MissingMetadata { name: name.clone() });
                },
                Some(rt) => rt,
            };
            let ret = match map_type(rt) {
                Err(er) => {
                    return Err(er);
                },
                Ok(t) => t,
            };
            let comments = comment_lines(comment);
            let mut m = empty_members_exec();
            if *is_static {
                let sm = StaticMethod {
                    class: class_name.clone(),
                    name: name.clone(),
                    symbol,
                    trampoline: tramp,
                    args,
                    ret,
                    comments,
                };
                let ghost sm_v = static_method_view(sm);
                m.static_methods.push(sm);
                proof {
                    assert(fields_view(m.fields@) =~= Seq::<FieldV>::empty());
                    assert(methods_view(m.methods@) =~= Seq::<MethodV>::empty());
                    assert(static_methods_view(m.static_methods@) =~= seq![sm_v]);
                }
            } else {
                let mm = Method {
                    class: class_name.clone(),
                    name: name.clone(),
                    symbol,
                    trampoline: tramp,
                    args,
                    ret,
                    comments,
                };
                let ghost mm_v = method_view(mm);
                m.methods.push(mm);
                proof {
                    assert(fields_view(m.fields@) =~= Seq::<FieldV>::empty());
                    assert(methods_view(m.methods@) =~= seq![mm_v]);
                    assert(static_methods_view(m.static_methods@) =~= Seq::<
                        StaticMethodV,
                    >::empty());
                }
            }
            Ok(m)
        },
        _ => {
            Ok(empty_members_exec())
        },
    }
}

/// Collect the members of a class over its direct children from index `i`
/// on, in order.
fn class_members_from(
    children: &Vec<Entity>,
    i: usize,
    class_name: &String,
    u: bool,
    ids: &mut Vec<u64>,
) -> (r: Result<Members, Error>)
    requires
        i <= children@.len(),
    ensures
        old(ids)@.is_prefix_of(final(ids)@),
        r matches Ok(m) ==> final(ids)@.len() - old(ids)@.len() == ids_needed_members(
            children@.skip(i as int),
        ) && members_spec(
            children@.skip(i as int),
            class_name@,
            u,
            final(ids)@.skip(old(ids)@.len() as int),
        ) == Ok::<MembersV, ErrorV>(members_view(m)),
        r matches Err(err) ==> forall|any: Seq<u64>|
            members_spec(children@.skip(i as int), class_name@, u, any) == Err::<MembersV, ErrorV>(
                error_view(err),
            ),
    decreases children@.len() - i,
{
    let ghost pre = ids@;
    if i == children.len() {
        proof {
            assert(pre.is_prefix_of(pre)) by {
                assert(pre.take(pre.len() as int) =~= pre);
            }
            assert(children@.skip(i as int) =~= Seq::<Entity>::empty());
        }
        return Ok(empty_members_exec());
    }
    let ghost tail = children@.skip(i as int);
    let ghost n0 = member_ids_needed(children@[i as int]);
    proof {
        assert(tail[0] == children@[i as int]);
        assert(tail.skip(1) =~= children@.skip(i as int + 1));
    }
    let delta = match member_delta(&children[i], class_name, u, ids) {
        Err(e) => {
            proof {
                assert forall|any: Seq<u64>|
                    members_spec(tail, class_name@, u, any) == Err::<MembersV, ErrorV>(
                        error_view(e),
                    ) by {
                    assert(member_delta_spec(tail[0], class_name@, u, any.take(n0 as int))
                        == Err::<MembersV, ErrorV>(error_view(e)));
                }
            }
            return Err(e);
        },
        Ok(d) => d,
    };
    let ghost mid = ids@;
    let ghost s1 = mid.skip(pre.len() as int);
    let ghost delta_v = members_view(delta);
    match class_members_from(children, i + 1, class_name, u, ids) {
        Err(e) => {
            proof {
                assert(pre.is_prefix_of(ids@)) by {
                    assert(mid.take(pre.len() as int) =~= pre);
                    assert(ids@.take(pre.len() as int) =~= pre);
                }
                assert forall|any: Seq<u64>|
                    members_spec(tail, class_name@, u, any) == Err::<MembersV, ErrorV>(
                        error_view(e),
                    ) by {
                    assert(member_delta_spec(tail[0], class_name@, u, s1) == Ok::<
                        MembersV,
                        ErrorV,
                    >(delta_v));
                    assert(member_delta_spec(tail[0], class_name@, u, any.take(n0 as int)) is Ok);
                    assert(members_spec(tail.skip(1), class_name@, u, any.skip(n0 as int)) == Err::<
                        MembersV,
                        ErrorV,
                    >(error_view(e)));
                }
            }
            Err(e)
        },
        Ok(rest) => {
            let ghost rest_v = members_view(rest);
            let ghost s2 = ids@.skip(mid.len() as int);
            let ghost suffix = ids@.skip(pre.len() as int);
            let merged = merge_members(delta, rest);
            proof {
                assert(pre.is_prefix_of(ids@)) by {
                    assert(mid.take(pre.len() as int) =~= pre);
                    assert(ids@.take(pre.len() as int) =~= pre);
                }
                assert(suffix =~= s1 + s2);
                assert(s1.len() == n0);
                assert(suffix.take(n0 as int) =~= s1);
                assert(suffix.skip(n0 as int) =~= s2);
                assert(members_spec(tail, class_name@, u, suffix) == Ok::<MembersV, ErrorV>(
                    combine_members(delta_v, rest_v),
                ));
            }
            Ok(merged)
        },
    }
}

/// Process one function declaration: resolve its symbol (a fresh proxy,
/// with a glue forwarding definition, when the function is inline), map
/// its result and parameter types, and build the binding item.
#[verifier::rlimit(100)]
fn process_function(
    name: &String,
    mangled: &Option<String>,
    is_inline: bool,
    result: &Option<CppType>,
    params: &Vec<Param>,
    comment: &Option<String>,
    u: bool,
    glue: &mut String,
    ids: &mut Vec<u64>,
) -> (r: Result<Vec<Item>, Error>)
    ensures
        old(ids)@.is_prefix_of(final(ids)@),
        old(glue)@.is_prefix_of(final(glue)@),
        r matches Ok(items) ==> final(ids)@.len() - old(ids)@.len() == (if is_inline {
            1nat
        } else {
            0nat
        }) && process_function_spec(
            *name,
            *mangled,
            is_inline,
            *result,
            *params,
            *comment,
            u,
            final(ids)@.skip(old(ids)@.len() as int),
        ) == Ok::<(Seq<ItemV>, Seq<char>), ErrorV>(
            (items_view(items@), final(glue)@.skip(old(glue)@.len() as int)),
        ),
        r matches Err(err) ==> forall|any: Seq<u64>|
            process_function_spec(*name, *mangled, is_inline, *result, *params, *comment, u, any)
                == Err::<(Seq<ItemV>, Seq<char>), ErrorV>(error_view(err)),
{
    let ghost pre_ids = ids@;
    let ghost pre_glue = glue@;
    proof {
        assert(pre_ids.is_prefix_of(pre_ids)) by {
            assert(pre_ids.take(pre_ids.len() as int) =~= pre_ids);
        }
        assert(pre_glue.is_prefix_of(pre_glue)) by {
            assert(pre_glue.take(pre_glue.len() as int) =~= pre_glue);
        }
        assert(pre_ids.skip(pre_ids.len() as int) =~= Seq::<u64>::empty());
        assert(pre_glue.skip(pre_glue.len() as int) =~= Seq::<char>::empty());
    }
    let symbol0 = match resolve_mangled(name, mangled, u) {
        Err(e) => {
            return Err(e);
        },
        Ok(s) => s,
    };
    let rt = match result {
        None => {
            return Err(Error::MissingMetadata { name: name.clone() });
        },
        Some(rt) => rt,
    };
    let symbol = if is_inline {
        let (ptexts, ntexts) = match glue_param_lists(name, params) {
            Err(e) => {
                return Err(e);
            },
            Ok(p) => p,
        };
        let idw = rand::random::<u64>();
        ids.push(idw);
        let sym = proxy_symbol(idw);
        let mut g = String::from_str("extern \"C\" { ");
        g.append(rt.display.as_str());
        g.append(" ");
        g.append(sym.as_str());
        g.append("(");
        let pj = join(&ptexts, ", ");
        g.append(pj.as_str());
        g.append(") { return ");
        g.append(name.as_str());
        g.append("(");
        let nj = join(&ntexts, ", ");
        g.append(nj.as_str());
        g.append("); } }");
        proof {
            assert(g@ =~= glue_def_spec(rt.display@, sym@, name@, params@));
            assert(ids@.skip(pre_ids.len() as int) =~= seq![idw]);
            assert(pre_ids.is_prefix_of(ids@)) by {
                assert(ids@.take(pre_ids.len() as int) =~= pre_ids);
            }
        }
        glue.append(g.as_str());
        proof {
            assert(glue@.skip(pre_glue.len() as int) =~= g@);
            assert(pre_glue.is_prefix_of(glue@)) by {
                assert(glue@.take(pre_glue.len() as int) =~= pre_glue);
            }
        }
        sym
    } else {
        symbol0
    };
    let ret = match map_type(rt) {
        Err(e) => {
            return Err(e);
        },
        Ok(t) => t,
    };
    let args = match build_args(params, 0) {
        Err(e) => {
            return Err(e);
        },
        Ok(a) => a,
    };
    let comments = comment_lines(comment);
    let f = ItemFn { name: name.clone(), symbol, args, ret, comments };
    let ghost f_v = crate::items::fn_view(f);
    let mut items: Vec<Item> = Vec::new();
    items.push(Item::Fn(f));
    proof {
        assert(items@ =~= seq![items@[0]]);
        lemma_items_view_singleton(items@[0]);
        assert(items_view(items@) == seq![ItemV::Fn(f_v)]);
    }
    Ok(items)
}

/// Walk one entity of the declaration tree under the given namespace
/// context: build its binding items, append any glue it requires, and log
/// every random word it draws. The outcome is exactly the processing
/// specification applied to the logged words; whether the walk succeeds,
/// and with which error it fails, does not depend on them.
pub fn process_entity(
    e: &Entity,
    ctx: &Context,
    unix_like: bool,
    glue: &mut String,
    ids: &mut Vec<u64>,
) -> (r: Result<Vec<Item>, Error>)
    ensures
        old(ids)@.is_prefix_of(final(ids)@),
        old(glue)@.is_prefix_of(final(glue)@),
        r matches Ok(items) ==> final(ids)@.len() - old(ids)@.len() == ids_needed(*e)
            && process_spec(
            *e,
            ctx.ns.deep_view(),
            unix_like,
            final(ids)@.skip(old(ids)@.len() as int),
        ) == Ok::<(Seq<ItemV>, Seq<char>), ErrorV>(
            (items_view(items@), final(glue)@.skip(old(glue)@.len() as int)),
        ),
        r matches Err(err) ==> forall|any: Seq<u64>|
            process_spec(*e, ctx.ns.deep_view(), unix_like, any) == Err::<
                (Seq<ItemV>, Seq<char>),
                ErrorV,
            >(error_view(err)),
    decreases *e, 0int,
{
    let ghost pre_ids = ids@;
    let ghost pre_glue = glue@;
    match e {
        Entity::TranslationUnit { children } => {
            let r = process_children_from(children, 0, ctx, unix_like, glue, ids);
            proof {
                assert(children@.skip(0) =~= children@);
                if r is Err {
                    let er = r->Err_0;
                    assert forall|any: Seq<u64>|
                        process_spec(*e, ctx.ns.deep_view(), unix_like, any) == Err::<
                            (Seq<ItemV>, Seq<char>),
                            ErrorV,
                        >(error_view(er)) by {
                        assert(process_list_spec(children@, ctx.ns.deep_view(), unix_like, any)
                            == Err::<(Seq<ItemV>, Seq<char>), ErrorV>(error_view(er)));
                    }
                }
            }
            r
        },
        Entity::Namespace { name, comment, children } => {
            let child_ctx = ctx.child(name);
            match process_children_from(children, 0, &child_ctx, unix_like, glue, ids) {
                Err(er) => {
                    proof {
                        assert(children@.skip(0) =~= children@);
                        assert forall|any: Seq<u64>|
                            process_spec(*e, ctx.ns.deep_view(), unix_like, any) == Err::<
                                (Seq<ItemV>, Seq<char>),
                                ErrorV,
                            >(error_view(er)) by {
                            assert(child_ctx.ns.deep_view() == ctx.ns.deep_view().push(name@));
                            assert(process_list_spec(
                                children@,
                                ctx.ns.deep_view().push(name@),
                                unix_like,
                                any,
                            ) == Err::<(Seq<ItemV>, Seq<char>), ErrorV>(error_view(er)));
                        }
                    }
                    Err(er)
                },
                Ok(inner) => {
                    let ghost inner_v = items_view(inner@);
                    let comments = comment_lines(comment);
                    let m = ItemMod { name: name.clone(), items: inner, comments };
                    let mut items: Vec<Item> = Vec::new();
                    items.push(Item::Mod(m));
                    proof {
                        assert(children@.skip(0) =~= children@);
                        assert(items@ =~= seq![items@[0]]);
                        lemma_items_view_singleton(items@[0]);
                    }
                    Ok(items)
                },
            }
        },
        Entity::Function { name, mangled, is_inline, result, params, comment } => {
            process_function(name, mangled, *is_inline, result, params, comment, unix_like, glue, ids)
        },
        Entity::Class { name, comment, children } => {
            match class_members_from(children, 0, name, unix_like, ids) {
                Err(er) => {
                    proof {
                        assert(children@.skip(0) =~= children@);
                        assert forall|any: Seq<u64>|
                            process_spec(*e, ctx.ns.deep_view(), unix_like, any) == Err::<
                                (Seq<ItemV>, Seq<char>),
                                ErrorV,
                            >(error_view(er)) by {
                            assert(members_spec(children@, name@, unix_like, any) == Err::<
                                MembersV,
                                ErrorV,
                            >(error_view(er)));
                        }
                    }
                    Err(er)
                },
                Ok(m) => {
                    let ghost m_v = members_view(m);
                    let comments = comment_lines(comment);
                    let s = ItemStruct {
                        name: name.clone(),
                        fields: m.fields,
                        constructor: m.constructor,
                        destructor: m.destructor,
                        methods: m.methods,
                        static_methods: m.static_methods,
                        comments,
                    };
                    let mut items: Vec<Item> = Vec::new();
                    items.push(Item::Struct(s));
                    proof {
                        assert(children@.skip(0) =~= children@);
                        assert(items@ =~= seq![items@[0]]);
                        lemma_items_view_singleton(items@[0]);
                        assert(pre_glue.skip(pre_glue.len() as int) =~= Seq::<char>::empty());
                        assert(pre_glue.is_prefix_of(pre_glue)) by {
                            assert(pre_glue.take(pre_glue.len() as int) =~= pre_glue);
                        }
                    }
                    Ok(items)
                },
            }
        },
        _ => {
            let items: Vec<Item> = Vec::new();
            proof {
                assert(pre_ids.is_prefix_of(pre_ids)) by {
                    assert(pre_ids.take(pre_ids.len() as int) =~= pre_ids);
                }
                assert(pre_glue.is_prefix_of(pre_glue)) by {
                    assert(pre_glue.take(pre_glue.len() as int) =~= pre_glue);
                }
                assert(items_view(items@) =~= Seq::<ItemV>::empty());
                assert(pre_ids.skip(pre_ids.len() as int) =~= Seq::<u64>::empty());
                assert(pre_glue.skip(pre_glue.len() as int) =~= Seq::<char>::empty());
            }
            Ok(items)
        },
    }
}

/// Process the sibling entities from index `i` on, in order, concatenating
/// their items and their glue.
#[verifier::rlimit(100)]
fn process_children_from(
    children: &Vec<Entity>,
    i: usize,
    ctx: &Context,
    u: bool,
    glue: &mut String,
    ids: &mut Vec<u64>,
) -> (r: Result<Vec<Item>, Error>)
    requires
        i <= children@.len(),
    ensures
        old(ids)@.is_prefix_of(final(ids)@),
        old(glue)@.is_prefix_of(final(glue)@),
        r matches Ok(items) ==> final(ids)@.len() - old(ids)@.len() == ids_needed_list(
            children@.skip(i as int),
        ) && process_list_spec(
            children@.skip(i as int),
            ctx.ns.deep_view(),
            u,
            final(ids)@.skip(old(ids)@.len() as int),
        ) == Ok::<(Seq<ItemV>, Seq<char>), ErrorV>(
            (items_view(items@), final(glue)@.skip(old(glue)@.len() as int)),
        ),
        r matches Err(err) ==> forall|any: Seq<u64>|
            process_list_spec(children@.skip(i as int), ctx.ns.deep_view(), u, any) == Err::<
                (Seq<ItemV>, Seq<char>),
                ErrorV,
            >(error_view(err)),
    decreases children@, children@.len() - i,
{
    let ghost pre_ids = ids@;
    let ghost pre_glue = glue@;
    if i == children.len() {
        let items: Vec<Item> = Vec::new();
        proof {
            assert(pre_ids.is_prefix_of(pre_ids)) by {
                assert(pre_ids.take(pre_ids.len() as int) =~= pre_ids);
            }
            assert(pre_glue.is_prefix_of(pre_glue)) by {
                assert(pre_glue.take(pre_glue.len() as int) =~= pre_glue);
            }
            assert(children@.skip(i as int) =~= Seq::<Entity>::empty());
            assert(items_view(items@) =~= Seq::<ItemV>::empty());
            assert(pre_ids.skip(pre_ids.len() as int) =~= Seq::<u64>::empty());
            assert(pre_glue.skip(pre_glue.len() as int) =~= Seq::<char>::empty());
        }
        return Ok(items);
    }
    let ghost tail = children@.skip(i as int);
    let ghost n0 = ids_needed(children@[i as int]);
    let ghost ctxv = ctx.ns.deep_view();
    proof {
        assert(tail[0] == children@[i as int]);
        assert(tail.skip(1) =~= children@.skip(i as int + 1));
    }
    let mut items0 = match process_entity(&children[i], ctx, u, glue, ids) {
        Err(er) => {
            proof {
                assert forall|any: Seq<u64>|
                    process_list_spec(tail, ctxv, u, any) == Err::<
                        (Seq<ItemV>, Seq<char>),
                        ErrorV,
                    >(error_view(er)) by {
                    assert(process_spec(tail[0], ctxv, u, any.take(n0 as int)) == Err::<
                        (Seq<ItemV>, Seq<char>),
                        ErrorV,
                    >(error_view(er)));
                }
            }
            return Err(er);
        },
        Ok(v) => v,
    };
    let ghost mid_ids = ids@;
    let ghost mid_glue = glue@;
    let ghost s1 = mid_ids.skip(pre_ids.len() as int);
    let ghost g1 = mid_glue.skip(pre_glue.len() as int);
    let ghost items0_s = items0@;
    match process_children_from(children, i + 1, ctx, u, glue, ids) {
        Err(er) => {
            proof {
                assert(pre_ids.is_prefix_of(ids@)) by {
                    assert(mid_ids.take(pre_ids.len() as int) =~= pre_ids);
                    assert(ids@.take(pre_ids.len() as int) =~= pre_ids);
                }
                assert(pre_glue.is_prefix_of(glue@)) by {
                    assert(mid_glue.take(pre_glue.len() as int) =~= pre_glue);
                    assert(glue@.take(pre_glue.len() as int) =~= pre_glue);
                }
                assert forall|any: Seq<u64>|
                    process_list_spec(tail, ctxv, u, any) == Err::<
                        (Seq<ItemV>, Seq<char>),
                        ErrorV,
                    >(error_view(er)) by {
                    lemma_status_any_ids(children@[i as int], ctxv, u, s1, any.take(n0 as int));
                    assert(process_spec(tail[0], ctxv, u, any.take(n0 as int)) is Ok);
                    assert(process_list_spec(tail.skip(1), ctxv, u, any.skip(n0 as int)) == Err::<
                        (Seq<ItemV>, Seq<char>),
                        ErrorV,
                    >(error_view(er)));
                }
            }
            Err(er)
        },
        Ok(mut rest) => {
            let ghost rest_s = rest@;
            let ghost s2 = ids@.skip(mid_ids.len() as int);
            let ghost g2 = glue@.skip(mid_glue.len() as int);
            items0.append(&mut rest);
            proof {
                assert(pre_ids.is_prefix_of(ids@)) by {
                    assert(mid_ids.take(pre_ids.len() as int) =~= pre_ids);
                    assert(ids@.take(pre_ids.len() as int) =~= pre_ids);
                }
                assert(pre_glue.is_prefix_of(glue@)) by {
                    assert(mid_glue.take(pre_glue.len() as int) =~= pre_glue);
                    assert(glue@.take(pre_glue.len() as int) =~= pre_glue);
                }
                let suffix = ids@.skip(pre_ids.len() as int);
                let gsuffix = glue@.skip(pre_glue.len() as int);
                assert(suffix =~= s1 + s2);
                assert(gsuffix =~= g1 + g2);
                assert(s1.len() == n0);
                assert(suffix.take(n0 as int) =~= s1);
                assert(suffix.skip(n0 as int) =~= s2);
                lemma_items_view_concat(items0_s, rest_s);
                assert(items0@ == items0_s + rest_s);
                assert(process_list_spec(tail, ctxv, u, suffix) == Ok::<
                    (Seq<ItemV>, Seq<char>),
                    ErrorV,
                >((items_view(items0@), gsuffix)));
            }
            Ok(items0)
        },
    }
}

// ---------------------------------------------------------------------------
// The driver: one full generation pass over a declaration tree.
// ---------------------------------------------------------------------------
/// The complete glue compilation unit: an include of the original header,
/// its path quoted verbatim with backslashes escaped, followed by all
/// accumulated forwarding definitions.
pub open spec fn glue_file_spec(header_path: Seq<char>, glue: Seq<char>) -> Seq<char> {
    "#include \""@ + escape_backslashes_spec(header_path) + "\"\n"@ + glue
}

/// The two generated artifacts of one run: the bindings source and the
/// glue source. Both are complete and consistent, or neither exists.
#[derive(Debug)]
pub struct GenOutput {
    pub bindings: String,
    pub glue: String,
}

/// One full generation pass: walk the declaration tree from the root under
/// an empty namespace context, render the binding items to the bindings
/// source, and wrap the accumulated glue into a compilation unit that
/// includes the original header. On any fatal error nothing is produced:
/// there is no partial-success mode.
pub fn generate_source(root: &Entity, header_path: &str, unix_like: bool) -> (r: Result<
    GenOutput,
    Error,
>)
    ensures
        r matches Ok(out) ==> exists|ids: Seq<u64>, items: Seq<Item>, g: Seq<char>|
            process_spec(*root, Seq::<Seq<char>>::empty(), unix_like, ids) == Ok::<
                (Seq<ItemV>, Seq<char>),
                ErrorV,
            >((items_view(items), g)) && out.bindings@ == items_spec(items) && out.glue@
                == glue_file_spec(header_path@, g),
        r matches Err(err) ==> forall|any: Seq<u64>|
            process_spec(*root, Seq::<Seq<char>>::empty(), unix_like, any) == Err::<
                (Seq<ItemV>, Seq<char>),
                ErrorV,
            >(error_view(err)),
{
    let ctx = Context::root();
    let mut glue_body = String::new();
    let mut ids: Vec<u64> = Vec::new();
    let items = match process_entity(root, &ctx, unix_like, &mut glue_body, &mut ids) {
        Err(e) => {
            proof {
                assert(ctx.ns.deep_view() =~= Seq::<Seq<char>>::empty());
            }
            return Err(e);
        },
        Ok(v) => v,
    };
    let bindings = render_items(&items);
    let mut glue_file = String::from_str("#include \"");
    let esc = escape_backslashes(header_path);
    glue_file.append(esc.as_str());
    glue_file.append("\"\n");
    glue_file.append(glue_body.as_str());
    proof {
        assert(ctx.ns.deep_view() =~= Seq::<Seq<char>>::empty());
        let ids_w = ids@;
        let items_w = items@;
        let g_w = glue_body@;
        assert(ids@.skip(0) =~= ids@);
        assert(glue_body@.skip(0) =~= glue_body@);
        assert(glue_file@ =~= glue_file_spec(header_path@, g_w));
        assert(process_spec(*root, Seq::<Seq<char>>::empty(), unix_like, ids_w) == Ok::<
            (Seq<ItemV>, Seq<char>),
            ErrorV,
        >((items_view(items_w), g_w)));
    }
    Ok(GenOutput { bindings, glue: glue_file })
}

// ---------------------------------------------------------------------------
// Laws of the walk.
// ---------------------------------------------------------------------------
pub open spec fn ok_members(r: Result<MembersV, ErrorV>) -> MembersV {
    match r {
        Ok(m) => m,
        Err(_) => empty_members(),
    }
}

/// The mapped text of a type, where mapping succeeds.
pub open spec fn mapped_or_empty(t: CppType) -> Seq<char> {
    match map_type_spec(t) {
        Ok(s) => s,
        Err(_) => Seq::empty(),
    }
}

/// The fields a class's children declare, in declaration order, each with
/// its declared visibility and mapped type.
pub open spec fn fields_of_members(children: Seq<Entity>) -> Seq<FieldV>
    decreases children.len(),
{
    if children.len() == 0 {
        Seq::empty()
    } else {
        (match children[0] {
            Entity::Field { name, is_public, ty } => seq![
                FieldV { is_public: is_public, name: name@, ty: mapped_or_empty(ty) },
            ],
            _ => Seq::<FieldV>::empty(),
        }) + fields_of_members(children.skip(1))
    }
}

/// Field order preservation: a successfully processed class lists exactly
/// its field children, in their declaration order, with visibility and
/// mapped type taken from each declaration.
pub proof fn lemma_field_order(
    children: Seq<Entity>,
    class_name: Seq<char>,
    u: bool,
    ids: Seq<u64>,
    m: MembersV,
)
    requires
        members_spec(children, class_name, u, ids) == Ok::<MembersV, ErrorV>(m),
    ensures
        m.fields == fields_of_members(children),
    decreases children.len(),
{
    if children.len() == 0 {
        assert(m.fields =~= fields_of_members(children));
    } else {
        let n0 = member_ids_needed(children[0]);
        let d = ok_members(member_delta_spec(children[0], class_name, u, ids.take(n0 as int)));
        let rest = ok_members(members_spec(children.skip(1), class_name, u, ids.skip(n0 as int)));
        lemma_field_order(children.skip(1), class_name, u, ids.skip(n0 as int), rest);
        assert(m == combine_members(d, rest));
        match children[0] {
            Entity::Field { name, is_public, ty } => {
                assert(m.fields =~= fields_of_members(children));
            },
            _ => {
                assert(d.fields =~= Seq::<FieldV>::empty());
                assert(m.fields =~= fields_of_members(children));
            },
        }
    }
}

/// The binding parameters mirror the declared parameters one for one: same
/// count, same order, each under its display (or positional) name with its
/// mapped type.
pub proof fn lemma_params_args(params: Seq<Param>, i: int, args: Seq<ArgV>)
    requires
        0 <= i <= params.len(),
        params_args_spec(params, i) == Ok::<Seq<ArgV>, ErrorV>(args),
    ensures
        args.len() == params.len() - i,
        forall|j: int|
            0 <= j < args.len() ==> args[j].name == param_name_spec(params[i + j], i + j)
                && map_type_spec(params[i + j].ty) == Ok::<Seq<char>, Seq<char>>(args[j].ty),
    decreases params.len() - i,
{
    if i < params.len() {
        let rest = match params_args_spec(params, i + 1) {
            Ok(r) => r,
            Err(_) => Seq::<ArgV>::empty(),
        };
        assert(params_args_spec(params, i + 1) == Ok::<Seq<ArgV>, ErrorV>(rest));
        assert(args.skip(1) =~= rest);
        lemma_params_args(params, i + 1, args.skip(1));
        assert(args[0].name == param_name_spec(params[i], i));
        assert forall|j: int|
            0 <= j < args.len() implies args[j].name == param_name_spec(params[i + j], i + j)
            && map_type_spec(params[i + j].ty) == Ok::<Seq<char>, Seq<char>>(args[j].ty) by {
            if j > 0 {
                assert(args.skip(1)[j - 1] == args[j]);
            }
        }
    }
}

/// Constructor arity: a processed constructor binds exactly the declared
/// parameters, in their order, with their mapped types; the implicit
/// leading instance parameter exists only in the rendered foreign
/// declaration, never among the wrapper's declared parameters.
pub proof fn lemma_constructor_arity_processed(
    name: String,
    mangled: Option<String>,
    params: Vec<Param>,
    comment: Option<String>,
    class_name: Seq<char>,
    u: bool,
    ids: Seq<u64>,
    m: MembersV,
)
    requires
        member_delta_spec(
            Entity::Constructor { name, mangled, params, comment },
            class_name,
            u,
            ids,
        ) == Ok::<MembersV, ErrorV>(m),
    ensures
        m.constructor is Some,
        m.constructor->0.args.len() == params@.len(),
        forall|j: int|
            0 <= j < params@.len() ==> m.constructor->0.args[j].name == param_name_spec(
                params@[j],
                j,
            ) && map_type_spec(params@[j].ty) == Ok::<Seq<char>, Seq<char>>(
                m.constructor->0.args[j].ty,
            ),
{
    lemma_params_args(params@, 0, m.constructor->0.args);
}

/// Cross-artifact consistency of inline proxying: processing an inline
/// function yields one binding whose link symbol is the synthesized proxy
/// symbol, and one glue forwarding definition defined under exactly that
/// same symbol.
pub proof fn lemma_inline_proxying(
    name: String,
    mangled: Option<String>,
    result: Option<CppType>,
    params: Vec<Param>,
    comment: Option<String>,
    ctx: Seq<Seq<char>>,
    u: bool,
    ids: Seq<u64>,
    items: Seq<ItemV>,
    glue: Seq<char>,
)
    requires
        process_spec(
            Entity::Function {
                name,
                mangled,
                is_inline: true,
                result,
                params,
                comment,
            },
            ctx,
            u,
            ids,
        ) == Ok::<(Seq<ItemV>, Seq<char>), ErrorV>((items, glue)),
    ensures
        items.len() == 1,
        items[0] matches ItemV::Fn(f) && f.symbol == proxy_symbol_spec(ids[0] as int) && glue
            == glue_def_spec(
            result->0.display@,
            proxy_symbol_spec(ids[0] as int),
            name@,
            params@,
        ),
{
}

/// Platform-keyed symbol stripping, as emitted: a processed non-inline
/// function is bound to its raw mangled name with exactly the leading
/// character dropped on the prefixed platform family, and to the raw
/// mangled name unchanged on the other family.
pub proof fn lemma_emitted_symbol_stripping(
    name: String,
    mangled: Option<String>,
    result: Option<CppType>,
    params: Vec<Param>,
    comment: Option<String>,
    ctx: Seq<Seq<char>>,
    u: bool,
    ids: Seq<u64>,
    items: Seq<ItemV>,
    glue: Seq<char>,
)
    requires
        process_spec(
            Entity::Function {
                name,
                mangled,
                is_inline: false,
                result,
                params,
                comment,
            },
            ctx,
            u,
            ids,
        ) == Ok::<(Seq<ItemV>, Seq<char>), ErrorV>((items, glue)),
    ensures
        items.len() == 1,
        items[0] matches ItemV::Fn(f) && (u ==> f.symbol == mangled->0@.skip(1)) && (!u
            ==> f.symbol == mangled->0@),
        glue == Seq::<char>::empty(),
{
}

/// Namespace nesting round-trip: a namespace maps to exactly one module
/// item, named after the namespace and carrying its doc comment, that
/// wraps the items of its children processed under the extended context —
/// no flattening, no duplication.
pub proof fn lemma_namespace_nesting(
    name: String,
    comment: Option<String>,
    children: Vec<Entity>,
    ctx: Seq<Seq<char>>,
    u: bool,
    ids: Seq<u64>,
    inner: Seq<ItemV>,
    inner_glue: Seq<char>,
)
    requires
        process_list_spec(children@, ctx.push(name@), u, ids) == Ok::<
            (Seq<ItemV>, Seq<char>),
            ErrorV,
        >((inner, inner_glue)),
    ensures
        process_spec(Entity::Namespace { name, comment, children }, ctx, u, ids) == Ok::<
            (Seq<ItemV>, Seq<char>),
            ErrorV,
        >(
            (
                seq![
                    ItemV::Mod(
                        ItemModV {
                            name: name@,
                            items: inner,
                            comments: comment_lines_spec(comment),
                        },
                    ),
                ],
                inner_glue,
            ),
        ),
{
}

} // verus!
