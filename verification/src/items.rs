//! The binding item model: the in-memory representation of the generated
//! artifacts, and its rendering to source text. Every item renders to a
//! self-consistent block; structs render with their layout fixed and their
//! fields in declaration order, and every foreign declaration carries the
//! link symbol the entity processor resolved for it.
use vstd::prelude::*;
use crate::text::concat_spec;
use crate::text::join;
use crate::text::join_spec;
use crate::text::lemma_concat_push;
use crate::text::lines_spec;
use crate::text::render_lines;

verus! {

/// One parameter of a generated binding: a display (or synthesized
/// positional) name, and the mapped type expression.
#[derive(Debug)]
pub struct Arg {
    pub name: String,
    pub ty: String,
}

/// A foreign declaration for a free function, bound to its link symbol.
#[derive(Debug)]
pub struct ItemFn {
    pub name: String,
    pub symbol: String,
    pub args: Vec<Arg>,
    pub ret: String,
    pub comments: Vec<String>,
}

/// A nested module mirroring one source namespace.
#[derive(Debug)]
pub struct ItemMod {
    pub name: String,
    pub items: Vec<Item>,
    pub comments: Vec<String>,
}

/// One struct field: visibility bit, name, mapped type expression.
#[derive(Debug)]
pub struct Field {
    pub is_public: bool,
    pub name: String,
    pub ty: String,
}

/// A constructor binding: the generated foreign declaration takes the
/// constructed instance's address as an implicit leading parameter; the
/// public wrapper takes exactly the declared parameters. `trampoline` is
/// the private local name of the foreign declaration.
#[derive(Debug)]
pub struct Constructor {
    pub name: String,
    pub symbol: String,
    pub trampoline: String,
    pub args: Vec<Arg>,
    pub comments: Vec<String>,
}

/// A destructor binding, wired into automatic cleanup of the struct.
#[derive(Debug)]
pub struct Destructor {
    pub name: String,
    pub symbol: String,
    pub trampoline: String,
    pub comments: Vec<String>,
}

/// A non-static method binding: the receiving instance is prepended as an
/// implicit first parameter, mirroring the C++ `this` convention.
#[derive(Debug)]
pub struct Method {
    pub class: String,
    pub name: String,
    pub symbol: String,
    pub trampoline: String,
    pub args: Vec<Arg>,
    pub ret: String,
    pub comments: Vec<String>,
}

/// A static method binding: no implicit receiver.
#[derive(Debug)]
pub struct StaticMethod {
    pub class: String,
    pub name: String,
    pub symbol: String,
    pub trampoline: String,
    pub args: Vec<Arg>,
    pub ret: String,
    pub comments: Vec<String>,
}

/// A struct item: layout-fixed fields in declaration order, an optional
/// constructor and destructor, and the method bindings.
#[derive(Debug)]
pub struct ItemStruct {
    pub name: String,
    pub fields: Vec<Field>,
    pub constructor: Option<Constructor>,
    pub destructor: Option<Destructor>,
    pub methods: Vec<Method>,
    pub static_methods: Vec<StaticMethod>,
    pub comments: Vec<String>,
}

/// One node of the binding item tree.
#[derive(Debug)]
pub enum Item {
    Mod(ItemMod),
    Fn(ItemFn),
    Struct(ItemStruct),
}

// ---------------------------------------------------------------------------
// Ghost mirrors of the item structs, over character sequences: the values
// the entity processor's specification constructs.
// ---------------------------------------------------------------------------
pub struct ArgV {
    pub name: Seq<char>,
    pub ty: Seq<char>,
}

pub struct ItemFnV {
    pub name: Seq<char>,
    pub symbol: Seq<char>,
    pub args: Seq<ArgV>,
    pub ret: Seq<char>,
    pub comments: Seq<Seq<char>>,
}

pub struct ItemModV {
    pub name: Seq<char>,
    pub items: Seq<ItemV>,
    pub comments: Seq<Seq<char>>,
}

pub struct FieldV {
    pub is_public: bool,
    pub name: Seq<char>,
    pub ty: Seq<char>,
}

pub struct ConstructorV {
    pub name: Seq<char>,
    pub symbol: Seq<char>,
    pub trampoline: Seq<char>,
    pub args: Seq<ArgV>,
    pub comments: Seq<Seq<char>>,
}

pub struct DestructorV {
    pub name: Seq<char>,
    pub symbol: Seq<char>,
    pub trampoline: Seq<char>,
    pub comments: Seq<Seq<char>>,
}

pub struct MethodV {
    pub class: Seq<char>,
    pub name: Seq<char>,
    pub symbol: Seq<char>,
    pub trampoline: Seq<char>,
    pub args: Seq<ArgV>,
    pub ret: Seq<char>,
    pub comments: Seq<Seq<char>>,
}

pub struct StaticMethodV {
    pub class: Seq<char>,
    pub name: Seq<char>,
    pub symbol: Seq<char>,
    pub trampoline: Seq<char>,
    pub args: Seq<ArgV>,
    pub ret: Seq<char>,
    pub comments: Seq<Seq<char>>,
}

pub struct ItemStructV {
    pub name: Seq<char>,
    pub fields: Seq<FieldV>,
    pub constructor: Option<ConstructorV>,
    pub destructor: Option<DestructorV>,
    pub methods: Seq<MethodV>,
    pub static_methods: Seq<StaticMethodV>,
    pub comments: Seq<Seq<char>>,
}

pub enum ItemV {
    Mod(ItemModV),
    Fn(ItemFnV),
    Struct(ItemStructV),
}

pub open spec fn arg_view(a: Arg) -> ArgV {
    ArgV { name: a.name@, ty: a.ty@ }
}

pub open spec fn args_view(s: Seq<Arg>) -> Seq<ArgV> {
    s.map_values(|a: Arg| arg_view(a))
}

pub open spec fn field_view(f: Field) -> FieldV {
    FieldV { is_public: f.is_public, name: f.name@, ty: f.ty@ }
}

pub open spec fn fields_view(s: Seq<Field>) -> Seq<FieldV> {
    s.map_values(|f: Field| field_view(f))
}

pub open spec fn fn_view(f: ItemFn) -> ItemFnV {
    ItemFnV {
        name: f.name@,
        symbol: f.symbol@,
        args: args_view(f.args@),
        ret: f.ret@,
        comments: f.comments.deep_view(),
    }
}

pub open spec fn constructor_view(c: Constructor) -> ConstructorV {
    ConstructorV {
        name: c.name@,
        symbol: c.symbol@,
        trampoline: c.trampoline@,
        args: args_view(c.args@),
        comments: c.comments.deep_view(),
    }
}

pub open spec fn destructor_view(d: Destructor) -> DestructorV {
    DestructorV {
        name: d.name@,
        symbol: d.symbol@,
        trampoline: d.trampoline@,
        comments: d.comments.deep_view(),
    }
}

pub open spec fn method_view(m: Method) -> MethodV {
    MethodV {
        class: m.class@,
        name: m.name@,
        symbol: m.symbol@,
        trampoline: m.trampoline@,
        args: args_view(m.args@),
        ret: m.ret@,
        comments: m.comments.deep_view(),
    }
}

pub open spec fn static_method_view(m: StaticMethod) -> StaticMethodV {
    StaticMethodV {
        class: m.class@,
        name: m.name@,
        symbol: m.symbol@,
        trampoline: m.trampoline@,
        args: args_view(m.args@),
        ret: m.ret@,
        comments: m.comments.deep_view(),
    }
}

pub open spec fn opt_constructor_view(c: Option<Constructor>) -> Option<ConstructorV> {
    match c {
        Some(c) => Some(constructor_view(c)),
        None => None,
    }
}

pub open spec fn opt_destructor_view(d: Option<Destructor>) -> Option<DestructorV> {
    match d {
        Some(d) => Some(destructor_view(d)),
        None => None,
    }
}

pub open spec fn methods_view(s: Seq<Method>) -> Seq<MethodV> {
    s.map_values(|m: Method| method_view(m))
}

pub open spec fn static_methods_view(s: Seq<StaticMethod>) -> Seq<StaticMethodV> {
    s.map_values(|m: StaticMethod| static_method_view(m))
}

pub open spec fn struct_view(s: ItemStruct) -> ItemStructV {
    ItemStructV {
        name: s.name@,
        fields: fields_view(s.fields@),
        constructor: opt_constructor_view(s.constructor),
        destructor: opt_destructor_view(s.destructor),
        methods: methods_view(s.methods@),
        static_methods: static_methods_view(s.static_methods@),
        comments: s.comments.deep_view(),
    }
}

pub open spec fn item_view(it: Item) -> ItemV
    decreases it,
{
    match it {
        Item::Fn(f) => ItemV::Fn(fn_view(f)),
        Item::Struct(s) => ItemV::Struct(struct_view(s)),
        Item::Mod(m) => ItemV::Mod(
            ItemModV { name: m.name@, items: items_view(m.items@), comments: m.comments.deep_view() },
        ),
    }
}

pub open spec fn items_view(items: Seq<Item>) -> Seq<ItemV>
    decreases items,
{
    if items.len() == 0 {
        Seq::empty()
    } else {
        seq![item_view(items[0])] + items_view(items.skip(1))
    }
}

pub proof fn lemma_items_view_singleton(x: Item)
    ensures
        items_view(seq![x]) == seq![item_view(x)],
{
    assert(seq![x].skip(1) =~= Seq::<Item>::empty());
    assert(items_view(Seq::<Item>::empty()) == Seq::<ItemV>::empty());
    assert(seq![x][0] == x);
    assert(items_view(seq![x]) =~= seq![item_view(x)]);
}

pub proof fn lemma_items_view_concat(a: Seq<Item>, b: Seq<Item>)
    ensures
        items_view(a + b) == items_view(a) + items_view(b),
    decreases a,
{
    if a.len() == 0 {
        assert(a + b =~= b);
        assert(items_view(a) == Seq::<ItemV>::empty());
        assert(items_view(a) + items_view(b) =~= items_view(b));
    } else {
        lemma_items_view_concat(a.skip(1), b);
        assert((a + b)[0] == a[0]);
        assert((a + b).skip(1) =~= a.skip(1) + b);
        assert((a + b).len() != 0);
        assert(items_view(a + b) == seq![item_view(a[0])] + items_view(a.skip(1) + b));
        assert(seq![item_view(a[0])] + (items_view(a.skip(1)) + items_view(b)) =~= (seq![
            item_view(a[0]),
        ] + items_view(a.skip(1))) + items_view(b));
    }
}

// ---------------------------------------------------------------------------
// Argument list texts.
// ---------------------------------------------------------------------------
pub open spec fn arg_text_spec(a: Arg) -> Seq<char> {
    a.name@ + ": "@ + a.ty@
}

pub open spec fn args_texts_spec(args: Seq<Arg>) -> Seq<Seq<char>> {
    args.map_values(|a: Arg| arg_text_spec(a))
}

pub open spec fn arg_names_spec(args: Seq<Arg>) -> Seq<Seq<char>> {
    args.map_values(|a: Arg| a.name@)
}

fn arg_text(a: &Arg) -> (r: String)
    ensures
        r@ == arg_text_spec(*a),
{
    let mut s = a.name.clone();
    s.append(": ");
    s.append(a.ty.as_str());
    s
}

fn arg_texts(args: &Vec<Arg>) -> (r: Vec<String>)
    ensures
        r.deep_view() == args_texts_spec(args@),
{
    let mut r: Vec<String> = Vec::new();
    let mut i: usize = 0;
    while i < args.len()
        invariant
            i <= args@.len(),
            r.deep_view() == args_texts_spec(args@.take(i as int)),
        decreases args@.len() - i,
    {
        let ghost r_prev = r.deep_view();
        let t = arg_text(&args[i]);
        let ghost t_v = t@;
        r.push(t);
        proof {
            assert(r.deep_view() =~= r_prev.push(t_v));
            assert(args_texts_spec(args@.take(i + 1)) =~= r_prev.push(t_v));
        }
        i += 1;
    }
    proof {
        assert(args@.take(args@.len() as int) =~= args@);
    }
    r
}

fn arg_names(args: &Vec<Arg>) -> (r: Vec<String>)
    ensures
        r.deep_view() == arg_names_spec(args@),
{
    let mut r: Vec<String> = Vec::new();
    let mut i: usize = 0;
    while i < args.len()
        invariant
            i <= args@.len(),
            r.deep_view() == arg_names_spec(args@.take(i as int)),
        decreases args@.len() - i,
    {
        let ghost r_prev = r.deep_view();
        let t = args[i].name.clone();
        let ghost t_v = t@;
        r.push(t);
        proof {
            assert(r.deep_view() =~= r_prev.push(t_v));
            assert(arg_names_spec(args@.take(i + 1)) =~= r_prev.push(t_v));
        }
        i += 1;
    }
    proof {
        assert(args@.take(args@.len() as int) =~= args@);
    }
    r
}

/// The comma-separated parameter list of a binding.
pub open spec fn args_list_spec(args: Seq<Arg>) -> Seq<char> {
    join_spec(args_texts_spec(args), ", "@)
}

/// The comma-separated argument names of a forwarding call.
pub open spec fn names_list_spec(args: Seq<Arg>) -> Seq<char> {
    join_spec(arg_names_spec(args), ", "@)
}

/// A parameter list with one extra leading parameter text.
pub open spec fn led_list_spec(head: Seq<char>, parts: Seq<Seq<char>>) -> Seq<char> {
    join_spec(seq![head] + parts, ", "@)
}

fn args_list(args: &Vec<Arg>) -> (r: String)
    ensures
        r@ == args_list_spec(args@),
{
    let parts = arg_texts(args);
    join(&parts, ", ")
}

fn names_list(args: &Vec<Arg>) -> (r: String)
    ensures
        r@ == names_list_spec(args@),
{
    let parts = arg_names(args);
    join(&parts, ", ")
}

fn led_list(head: String, parts: Vec<String>) -> (r: String)
    ensures
        r@ == led_list_spec(head@, parts.deep_view()),
{
    let ghost head_v = head@;
    let ghost parts_v = parts.deep_view();
    let mut all: Vec<String> = Vec::new();
    all.push(head);
    let mut rest = parts;
    all.append(&mut rest);
    proof {
        assert(all.deep_view() =~= seq![head_v] + parts_v);
    }
    join(&all, ", ")
}

// ---------------------------------------------------------------------------
// Rendering.
// ---------------------------------------------------------------------------
pub open spec fn comments_spec(comments: Seq<Seq<char>>) -> Seq<char> {
    lines_spec(comments)
}

/// The rendering of a free-function binding: its doc comment lines, then a
/// foreign block declaring the function under its link symbol.
pub open spec fn fn_spec(f: ItemFn) -> Seq<char> {
    comments_spec(f.comments.deep_view()) + "extern {\n#[link_name = \""@ + f.symbol@
        + "\"]\npub fn "@ + f.name@ + "("@ + args_list_spec(f.args@) + ") -> "@ + f.ret@
        + ";\n}\n"@
}

/// The rendering of a field: visibility, name, mapped type.
pub open spec fn field_spec(f: Field) -> Seq<char> {
    (if f.is_public {
        "pub "@
    } else {
        Seq::<char>::empty()
    }) + f.name@ + ": "@ + f.ty@ + ",\n"@
}

/// The rendering of a constructor binding: a foreign declaration whose
/// parameter list prepends the constructed instance's address, and a public
/// `new`-style wrapper over exactly the declared parameters that
/// default-initializes the value and invokes the real constructor symbol
/// on its address.
pub open spec fn constructor_spec(c: Constructor) -> Seq<char> {
    "extern {\n#[link_name = \""@ + c.symbol@ + "\"]\nfn "@ + c.trampoline@ + "("@ + led_list_spec(
        "this: *mut "@ + c.name@,
        args_texts_spec(c.args@),
    ) + ");\n}\nimpl "@ + c.name@ + " {\n"@ + comments_spec(c.comments.deep_view())
        + "pub unsafe fn new("@ + args_list_spec(c.args@) + ") -> "@ + c.name@
        + " {\nlet mut this = "@ + c.name@ + "::default();\n"@ + c.trampoline@ + "("@
        + led_list_spec("&mut this as *mut "@ + c.name@, arg_names_spec(c.args@))
        + ");\nthis\n}\n}\n"@
}

/// The rendering of a destructor binding: a foreign declaration over the
/// instance's address, wired into the automatic cleanup of the struct.
pub open spec fn destructor_spec(d: Destructor) -> Seq<char> {
    "extern {\n#[link_name = \""@ + d.symbol@ + "\"]\nfn "@ + d.trampoline@ + "(this: *mut "@
        + d.name@ + ");\n}\nimpl Drop for "@ + d.name@ + " {\n"@ + comments_spec(
        d.comments.deep_view(),
    ) + "fn drop(&mut self) {\nunsafe { "@ + d.trampoline@ + "(self as *mut "@ + d.name@
        + "); }\n}\n}\n"@
}

/// The rendering of a method binding: the foreign declaration prepends the
/// receiving instance's address; the public wrapper takes `&mut self` and
/// forwards.
pub open spec fn method_spec(m: Method) -> Seq<char> {
    "extern {\n#[link_name = \""@ + m.symbol@ + "\"]\nfn "@ + m.trampoline@ + "("@ + led_list_spec(
        "this: *mut "@ + m.class@,
        args_texts_spec(m.args@),
    ) + ") -> "@ + m.ret@ + ";\n}\nimpl "@ + m.class@ + " {\n"@ + comments_spec(
        m.comments.deep_view(),
    ) + "pub unsafe fn "@ + m.name@ + "("@ + led_list_spec("&mut self"@, args_texts_spec(m.args@))
        + ") -> "@ + m.ret@ + " {\n"@ + m.trampoline@ + "("@ + led_list_spec(
        "self as *mut "@ + m.class@,
        arg_names_spec(m.args@),
    ) + ")\n}\n}\n"@
}

/// The rendering of a static method binding: no implicit receiver on
/// either side.
pub open spec fn static_method_spec(m: StaticMethod) -> Seq<char> {
    "extern {\n#[link_name = \""@ + m.symbol@ + "\"]\nfn "@ + m.trampoline@ + "("@ + args_list_spec(
        m.args@,
    ) + ") -> "@ + m.ret@ + ";\n}\nimpl "@ + m.class@ + " {\n"@ + comments_spec(
        m.comments.deep_view(),
    ) + "pub unsafe fn "@ + m.name@ + "("@ + args_list_spec(m.args@) + ") -> "@ + m.ret@ + " {\n"@
        + m.trampoline@ + "("@ + names_list_spec(m.args@) + ")\n}\n}\n"@
}

pub open spec fn opt_constructor_spec(c: Option<Constructor>) -> Seq<char> {
    match c {
        Some(c) => constructor_spec(c),
        None => Seq::empty(),
    }
}

pub open spec fn opt_destructor_spec(d: Option<Destructor>) -> Seq<char> {
    match d {
        Some(d) => destructor_spec(d),
        None => Seq::empty(),
    }
}

/// The rendering of a struct item: a layout-fixed, default-constructible,
/// debug-printable aggregate with the fields in declaration order,
/// followed by the constructor, destructor and method bindings.
pub open spec fn struct_spec(s: ItemStruct) -> Seq<char> {
    comments_spec(s.comments.deep_view()) + "#[repr(C)]\n#[derive(Default, Debug)]\npub struct "@
        + s.name@ + " {\n"@ + concat_spec(s.fields@.map_values(|f: Field| field_spec(f))) + "}\n"@
        + opt_constructor_spec(s.constructor) + opt_destructor_spec(s.destructor) + concat_spec(
        s.methods@.map_values(|m: Method| method_spec(m)),
    ) + concat_spec(s.static_methods@.map_values(|m: StaticMethod| static_method_spec(m)))
}

/// The rendering of one binding item.
pub open spec fn item_spec(it: Item) -> Seq<char>
    decreases it,
{
    match it {
        Item::Fn(f) => fn_spec(f),
        Item::Struct(s) => struct_spec(s),
        Item::Mod(m) => comments_spec(m.comments.deep_view()) + "mod "@ + m.name@ + " {\n"@
            + items_spec(m.items@) + "}\n"@,
    }
}

/// The rendering of a sequence of items: their renderings concatenated.
pub open spec fn items_spec(items: Seq<Item>) -> Seq<char>
    decreases items,
{
    if items.len() == 0 {
        Seq::empty()
    } else {
        item_spec(items[0]) + items_spec(items.skip(1))
    }
}

/// Appending one more item extends the rendering at its end.
pub proof fn lemma_items_push(items: Seq<Item>, x: Item)
    ensures
        items_spec(items.push(x)) == items_spec(items) + item_spec(x),
    decreases items,
{
    if items.len() == 0 {
        assert(items.push(x).skip(1) =~= Seq::<Item>::empty());
        assert(items.push(x)[0] == x);
        assert(items_spec(Seq::<Item>::empty()) == Seq::<char>::empty());
        assert(items_spec(items.push(x)) == item_spec(x) + Seq::<char>::empty());
        assert(item_spec(x) + Seq::<char>::empty() =~= Seq::<char>::empty() + item_spec(x));
    } else {
        lemma_items_push(items.skip(1), x);
        assert(items.push(x).skip(1) =~= items.skip(1).push(x));
        assert(items.push(x)[0] == items[0]);
        assert(items_spec(items.push(x)) == item_spec(items[0]) + items_spec(
            items.skip(1).push(x),
        ));
        assert(item_spec(items[0]) + (items_spec(items.skip(1)) + item_spec(x)) =~= (item_spec(
            items[0],
        ) + items_spec(items.skip(1))) + item_spec(x));
    }
}

// ---------------------------------------------------------------------------
// Executable rendering.
// ---------------------------------------------------------------------------
fn render_field(f: &Field) -> (r: String)
    ensures
        r@ == field_spec(*f),
{
    let mut r = if f.is_public {
        String::from_str("pub ")
    } else {
        String::new()
    };
    r.append(f.name.as_str());
    r.append(": ");
    r.append(f.ty.as_str());
    r.append(",\n");
    proof {
        assert(r@ =~= field_spec(*f));
    }
    r
}

fn fields_block(fields: &Vec<Field>) -> (r: String)
    ensures
        r@ == concat_spec(fields@.map_values(|f: Field| field_spec(f))),
{
    let mut r = String::new();
    let mut i: usize = 0;
    proof {
        assert(fields@.take(0).map_values(|f: Field| field_spec(f)) =~= Seq::<Seq<char>>::empty());
    }
    while i < fields.len()
        invariant
            i <= fields@.len(),
            r@ == concat_spec(fields@.take(i as int).map_values(|f: Field| field_spec(f))),
        decreases fields@.len() - i,
    {
        let piece = render_field(&fields[i]);
        r.append(piece.as_str());
        proof {
            lemma_concat_push(
                fields@.take(i as int).map_values(|f: Field| field_spec(f)),
                field_spec(fields@[i as int]),
            );
            assert(fields@.take(i + 1).map_values(|f: Field| field_spec(f)) =~= fields@.take(
                i as int,
            ).map_values(|f: Field| field_spec(f)).push(field_spec(fields@[i as int])));
        }
        i += 1;
    }
    proof {
        assert(fields@.take(fields@.len() as int) =~= fields@);
    }
    r
}

/// Render a free-function binding.
pub fn render_fn(f: &ItemFn) -> (r: String)
    ensures
        r@ == fn_spec(*f),
{
    let mut r = render_lines(&f.comments);
    r.append("extern {\n#[link_name = \"");
    r.append(f.symbol.as_str());
    r.append("\"]\npub fn ");
    r.append(f.name.as_str());
    r.append("(");
    let al = args_list(&f.args);
    r.append(al.as_str());
    r.append(") -> ");
    r.append(f.ret.as_str());
    r.append(";\n}\n");
    proof {
        assert(r@ =~= fn_spec(*f));
    }
    r
}

/// Render a constructor binding.
pub fn render_constructor(c: &Constructor) -> (r: String)
    ensures
        r@ == constructor_spec(*c),
{
    let mut this_param = String::from_str("this: *mut ");
    this_param.append(c.name.as_str());
    let raw_args = led_list(this_param, arg_texts(&c.args));
    let mut this_call = String::from_str("&mut this as *mut ");
    this_call.append(c.name.as_str());
    let call_args = led_list(this_call, arg_names(&c.args));
    let al = args_list(&c.args);
    let cm = render_lines(&c.comments);
    let mut r = String::from_str("extern {\n#[link_name = \"");
    r.append(c.symbol.as_str());
    r.append("\"]\nfn ");
    r.append(c.trampoline.as_str());
    r.append("(");
    r.append(raw_args.as_str());
    r.append(");\n}\nimpl ");
    r.append(c.name.as_str());
    r.append(" {\n");
    r.append(cm.as_str());
    r.append("pub unsafe fn new(");
    r.append(al.as_str());
    r.append(") -> ");
    r.append(c.name.as_str());
    r.append(" {\nlet mut this = ");
    r.append(c.name.as_str());
    r.append("::default();\n");
    r.append(c.trampoline.as_str());
    r.append("(");
    r.append(call_args.as_str());
    r.append(");\nthis\n}\n}\n");
    proof {
        assert(r@ =~= constructor_spec(*c));
    }
    r
}

/// Render a destructor binding.
pub fn render_destructor(d: &Destructor) -> (r: String)
    ensures
        r@ == destructor_spec(*d),
{
    let cm = render_lines(&d.comments);
    let mut r = String::from_str("extern {\n#[link_name = \"");
    r.append(d.symbol.as_str());
    r.append("\"]\nfn ");
    r.append(d.trampoline.as_str());
    r.append("(this: *mut ");
    r.append(d.name.as_str());
    r.append(");\n}\nimpl Drop for ");
    r.append(d.name.as_str());
    r.append(" {\n");
    r.append(cm.as_str());
    r.append("fn drop(&mut self) {\nunsafe { ");
    r.append(d.trampoline.as_str());
    r.append("(self as *mut ");
    r.append(d.name.as_str());
    r.append("); }\n}\n}\n");
    proof {
        assert(r@ =~= destructor_spec(*d));
    }
    r
}

/// Render a method binding.
pub fn render_method(m: &Method) -> (r: String)
    ensures
        r@ == method_spec(*m),
{
    let mut this_param = String::from_str("this: *mut ");
    this_param.append(m.class.as_str());
    let raw_args = led_list(this_param, arg_texts(&m.args));
    let wrapper_args = led_list(String::from_str("&mut self"), arg_texts(&m.args));
    let mut this_call = String::from_str("self as *mut ");
    this_call.append(m.class.as_str());
    let call_args = led_list(this_call, arg_names(&m.args));
    let cm = render_lines(&m.comments);
    let mut r = String::from_str("extern {\n#[link_name = \"");
    r.append(m.symbol.as_str());
    r.append("\"]\nfn ");
    r.append(m.trampoline.as_str());
    r.append("(");
    r.append(raw_args.as_str());
    r.append(") -> ");
    r.append(m.ret.as_str());
    r.append(";\n}\nimpl ");
    r.append(m.class.as_str());
    r.append(" {\n");
    r.append(cm.as_str());
    r.append("pub unsafe fn ");
    r.append(m.name.as_str());
    r.append("(");
    r.append(wrapper_args.as_str());
    r.append(") -> ");
    r.append(m.ret.as_str());
    r.append(" {\n");
    r.append(m.trampoline.as_str());
    r.append("(");
    r.append(call_args.as_str());
    r.append(")\n}\n}\n");
    proof {
        assert(r@ =~= method_spec(*m));
    }
    r
}

/// Render a static-method binding.
pub fn render_static_method(m: &StaticMethod) -> (r: String)
    ensures
        r@ == static_method_spec(*m),
{
    let al = args_list(&m.args);
    let nl = names_list(&m.args);
    let cm = render_lines(&m.comments);
    let mut r = String::from_str("extern {\n#[link_name = \"");
    r.append(m.symbol.as_str());
    r.append("\"]\nfn ");
    r.append(m.trampoline.as_str());
    r.append("(");
    r.append(al.as_str());
    r.append(") -> ");
    r.append(m.ret.as_str());
    r.append(";\n}\nimpl ");
    r.append(m.class.as_str());
    r.append(" {\n");
    r.append(cm.as_str());
    r.append("pub unsafe fn ");
    r.append(m.name.as_str());
    r.append("(");
    r.append(al.as_str());
    r.append(") -> ");
    r.append(m.ret.as_str());
    r.append(" {\n");
    r.append(m.trampoline.as_str());
    r.append("(");
    r.append(nl.as_str());
    r.append(")\n}\n}\n");
    proof {
        assert(r@ =~= static_method_spec(*m));
    }
    r
}

fn methods_block(methods: &Vec<Method>) -> (r: String)
    ensures
        r@ == concat_spec(methods@.map_values(|m: Method| method_spec(m))),
{
    let mut r = String::new();
    let mut i: usize = 0;
    proof {
        assert(methods@.take(0).map_values(|m: Method| method_spec(m)) =~= Seq::<
            Seq<char>,
        >::empty());
    }
    while i < methods.len()
        invariant
            i <= methods@.len(),
            r@ == concat_spec(methods@.take(i as int).map_values(|m: Method| method_spec(m))),
        decreases methods@.len() - i,
    {
        let piece = render_method(&methods[i]);
        r.append(piece.as_str());
        proof {
            lemma_concat_push(
                methods@.take(i as int).map_values(|m: Method| method_spec(m)),
                method_spec(methods@[i as int]),
            );
            assert(methods@.take(i + 1).map_values(|m: Method| method_spec(m)) =~= methods@.take(
                i as int,
            ).map_values(|m: Method| method_spec(m)).push(method_spec(methods@[i as int])));
        }
        i += 1;
    }
    proof {
        assert(methods@.take(methods@.len() as int) =~= methods@);
    }
    r
}

fn static_methods_block(methods: &Vec<StaticMethod>) -> (r: String)
    ensures
        r@ == concat_spec(methods@.map_values(|m: StaticMethod| static_method_spec(m))),
{
    let mut r = String::new();
    let mut i: usize = 0;
    proof {
        assert(methods@.take(0).map_values(|m: StaticMethod| static_method_spec(m)) =~= Seq::<
            Seq<char>,
        >::empty());
    }
    while i < methods.len()
        invariant
            i <= methods@.len(),
            r@ == concat_spec(
                methods@.take(i as int).map_values(|m: StaticMethod| static_method_spec(m)),
            ),
        decreases methods@.len() - i,
    {
        let piece = render_static_method(&methods[i]);
        r.append(piece.as_str());
        proof {
            lemma_concat_push(
                methods@.take(i as int).map_values(|m: StaticMethod| static_method_spec(m)),
                static_method_spec(methods@[i as int]),
            );
            assert(methods@.take(i + 1).map_values(|m: StaticMethod| static_method_spec(m))
                =~= methods@.take(i as int).map_values(
                |m: StaticMethod| static_method_spec(m),
            ).push(static_method_spec(methods@[i as int])));
        }
        i += 1;
    }
    proof {
        assert(methods@.take(methods@.len() as int) =~= methods@);
    }
    r
}

/// Render a struct item with all its bindings.
pub fn render_struct(s: &ItemStruct) -> (r: String)
    ensures
        r@ == struct_spec(*s),
{
    let mut r = render_lines(&s.comments);
    r.append("#[repr(C)]\n#[derive(Default, Debug)]\npub struct ");
    r.append(s.name.as_str());
    r.append(" {\n");
    let fb = fields_block(&s.fields);
    r.append(fb.as_str());
    r.append("}\n");
    match &s.constructor {
        Some(c) => {
            let t = render_constructor(c);
            r.append(t.as_str());
        },
        None => {},
    }
    match &s.destructor {
        Some(d) => {
            let t = render_destructor(d);
            r.append(t.as_str());
        },
        None => {},
    }
    let mb = methods_block(&s.methods);
    r.append(mb.as_str());
    let sb = static_methods_block(&s.static_methods);
    r.append(sb.as_str());
    proof {
        assert(r@ =~= struct_spec(*s));
    }
    r
}

/// Render one binding item.
pub fn render_item(it: &Item) -> (r: String)
    ensures
        r@ == item_spec(*it),
    decreases *it,
{
    match it {
        Item::Fn(f) => render_fn(f),
        Item::Struct(s) => render_struct(s),
        Item::Mod(m) => {
            let mut r = render_lines(&m.comments);
            r.append("mod ");
            r.append(m.name.as_str());
            r.append(" {\n");
            let inner = render_items(&m.items);
            r.append(inner.as_str());
            r.append("}\n");
            proof {
                assert(r@ =~= item_spec(*it));
            }
            r
        },
    }
}

/// Render a binding item tree to one source text blob: the renderings of
/// the top-level items, concatenated in order.
pub fn render_items(items: &Vec<Item>) -> (r: String)
    ensures
        r@ == items_spec(items@),
    decreases items@,
{
    let mut r = String::new();
    let mut i: usize = 0;
    proof {
        assert(items_spec(items@.take(0)) == Seq::<char>::empty());
    }
    while i < items.len()
        invariant
            i <= items@.len(),
            r@ == items_spec(items@.take(i as int)),
        decreases items@.len() - i,
    {
        let piece = render_item(&items[i]);
        r.append(piece.as_str());
        proof {
            lemma_items_push(items@.take(i as int), items@[i as int]);
            assert(items@.take(i + 1) =~= items@.take(i as int).push(items@[i as int]));
        }
        i += 1;
    }
    proof {
        assert(items@.take(items@.len() as int) =~= items@);
    }
    r
}

/// A namespace module wraps the renderings of its children verbatim,
/// carrying its doc comment forward: nothing is flattened, nothing
/// duplicated.
pub proof fn lemma_module_nesting(m: ItemMod)
    ensures
        item_spec(Item::Mod(m)) == comments_spec(m.comments.deep_view()) + "mod "@ + m.name@
            + " {\n"@ + items_spec(m.items@) + "}\n"@,
{
}

/// The generated constructor binding has the declared arity: the foreign
/// declaration's parameter list prepends exactly one instance-address
/// parameter to the declared parameter texts, and the public wrapper's
/// parameter list is exactly the declared parameter texts.
pub proof fn lemma_constructor_arity(c: Constructor)
    ensures
        led_list_spec("this: *mut "@ + c.name@, args_texts_spec(c.args@)) == join_spec(
            seq!["this: *mut "@ + c.name@] + c.args@.map_values(|a: Arg| arg_text_spec(a)),
            ", "@,
        ),
        args_texts_spec(c.args@).len() == c.args@.len(),
        forall|i: int|
            0 <= i < c.args@.len() ==> args_texts_spec(c.args@)[i] == c.args@[i].name@ + ": "@
                + c.args@[i].ty@,
{
}

} // verus!
