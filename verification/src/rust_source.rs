//! A Rust source file as the scanners read it: its top-level items with
//! their visibility, names, struct fields and `impl` methods, and every
//! attribute as its last path segment and argument token text.
use vstd::prelude::*;
use quote::ToTokens;
use syn::Item;
use crate::codegen::route_decl::arg_views;
use crate::declaration_catalog::{field_views, PublicItem, RustItemKind};
use crate::text::views;

verus! {

/// What kind of top-level item a file holds.
#[derive(Clone, Copy, Debug, PartialEq, Eq, Structural)]
pub enum SourceItemKind {
    Struct,
    Enum,
    TypeAlias,
    Trait,
    Impl,
    Other,
}

/// A function of an `impl` block: its name, attributes and visibility,
/// whether it takes `self`, how many inputs it has (the receiver included),
/// the tokens of its first input's type when that input is typed, with the
/// last path segment of that type and whether the path is qualified
/// (`<T as Trait>::X`) when the type is a path, and the tokens of its return
/// type (empty when it has none).
#[derive(Clone, Debug)]
pub struct SourceMethod {
    pub name: String,
    pub attrs: Vec<(String, Option<String>)>,
    pub public: bool,
    pub has_receiver: bool,
    pub inputs: usize,
    pub first_arg_type: Option<String>,
    pub first_arg_path: Option<(String, bool)>,
    pub return_type: String,
}

/// One top-level item: for a struct its fields (identifier and attributes,
/// and apart the field types in the same order), whether they are unnamed
/// and whether it has generic parameters; for an `impl` block the last
/// segment of its self type's path (empty when it is not a path) and its
/// functions; for a trait its functions.
#[derive(Debug)]
pub struct SourceItem {
    pub kind: SourceItemKind,
    pub public: bool,
    pub name: String,
    pub unnamed_fields: bool,
    pub generic: bool,
    pub fields: Vec<(Option<String>, Vec<(String, Option<String>)>)>,
    pub field_types: Vec<RustType>,
    pub methods: Vec<SourceMethod>,
}

/// A Rust type as the declarations read it: a path by its last segment and
/// that segment's angle-bracketed arguments (none when there are none), a
/// tuple, a reference, `!`, a parenthesized or invisible group, a slice, a
/// trait object, or another form.
#[derive(Debug)]
pub enum RustType {
    Path(String, Vec<RustTypeArgument>),
    Tuple(Vec<RustType>),
    Reference(Box<RustType>),
    Never,
    Paren(Box<RustType>),
    Group(Box<RustType>),
    Slice(Box<RustType>),
    TraitObject,
    Other,
}

/// A generic argument: a type, or something else (a lifetime, a constant,
/// a binding).
#[derive(Debug)]
pub enum RustTypeArgument {
    Type(RustType),
    Other,
}

/// The items of one parsed file, in source order.
#[derive(Debug)]
pub struct RustFile {
    pub items: Vec<SourceItem>,
}

/// What `syn::parse_file` makes of a source text, read into plain parts; or
/// the parser's message.
pub uninterp spec fn parsed_rust_file(source: Seq<char>) -> Result<RustFile, Seq<char>>;

#[verifier::external_type_specification]
#[verifier::external_body]
pub struct ExSynItem(syn::Item);

#[verifier::external_type_specification]
#[verifier::external_body]
pub struct ExSynItemStruct(syn::ItemStruct);

#[verifier::external_type_specification]
#[verifier::external_body]
pub struct ExSynItemImpl(syn::ItemImpl);

#[verifier::external_type_specification]
#[verifier::external_body]
pub struct ExSynItemTrait(syn::ItemTrait);

#[verifier::external_type_specification]
#[verifier::external_body]
pub struct ExSynSignature(syn::Signature);

#[verifier::external_type_specification]
#[verifier::external_body]
pub struct ExSynVisibility(syn::Visibility);

#[verifier::external_type_specification]
#[verifier::external_body]
pub struct ExSynType(syn::Type);

#[verifier::external_type_specification]
#[verifier::external_body]
pub struct ExSynPathArguments(syn::PathArguments);

#[verifier::external_type_specification]
#[verifier::external_body]
pub struct ExSynTypePath(syn::TypePath);

#[verifier::external_type_specification]
#[verifier::external_body]
pub struct ExSynItemEnum(syn::ItemEnum);

#[verifier::external_type_specification]
#[verifier::external_body]
pub struct ExSynItemType(syn::ItemType);

#[verifier::external_type_specification]
#[verifier::external_body]
pub struct ExSynAttribute(syn::Attribute);

/// `syn::parse_file`, with the parsed file read into plain parts by the
/// readers below: the contract names the outcome; what the parser accepts
/// is not restated.
#[verifier::external_body]
pub(crate) fn parse_rust_file(source: &str) -> (r: Result<RustFile, String>)
    ensures
        match r {
            Ok(f) => parsed_rust_file(source@) == Ok::<RustFile, Seq<char>>(f),
            Err(e) => parsed_rust_file(source@) == Err::<RustFile, Seq<char>>(e@),
        },
{
    let file = syn::parse_file(source).map_err(|error| error.to_string())?;
    Ok(RustFile { items: file.items.iter().map(read_item).collect() })
}

/// Reads the attributes of a syn node as their last path segment and the
/// token text of their argument list; part of reading a parsed file, of
/// which `parsed_rust_file` names the outcome, so nothing is stated here.
#[verifier::external_body]
fn read_attributes(attrs: &Vec<syn::Attribute>) -> Vec<(String, Option<String>)> {
    attrs.iter().map(|a| (a.path().segments.last().map(|s| s.ident.to_string()).unwrap_or_default(), match &a.meta {
        syn::Meta::List(l) => Some(l.tokens.to_string()),
        _ => None,
    })).collect()
}

/// Reads whether a syn visibility is `pub`; part of reading a parsed file.
#[verifier::external_body]
fn read_public(vis: &syn::Visibility) -> bool {
    matches!(vis, syn::Visibility::Public(_))
}

/// Reads one top-level syn item; part of reading a parsed file.
#[verifier::external_body]
fn read_item(item: &syn::Item) -> SourceItem {
    match item {
        Item::Struct(s) => read_struct(s),
        Item::Enum(e) => read_enum(e),
        Item::Type(t) => read_type_alias(t),
        Item::Trait(t) => read_trait(t),
        Item::Impl(b) => read_impl(b),
        _ => SourceItem { kind: SourceItemKind::Other, public: false, name: String::new(), unnamed_fields: false, generic: false, fields: vec![], field_types: vec![], methods: vec![] },
    }
}

/// Reads a syn enum item by its visibility and name; part of reading a
/// parsed file.
#[verifier::external_body]
fn read_enum(e: &syn::ItemEnum) -> SourceItem {
    SourceItem { kind: SourceItemKind::Enum, public: read_public(&e.vis), name: e.ident.to_string(), unnamed_fields: false, generic: false, fields: vec![], field_types: vec![], methods: vec![] }
}

/// Reads a syn type-alias item by its visibility and name; part of reading
/// a parsed file.
#[verifier::external_body]
fn read_type_alias(t: &syn::ItemType) -> SourceItem {
    SourceItem { kind: SourceItemKind::TypeAlias, public: read_public(&t.vis), name: t.ident.to_string(), unnamed_fields: false, generic: false, fields: vec![], field_types: vec![], methods: vec![] }
}

/// Reads a syn type; part of reading a parsed file.
#[verifier::external_body]
fn read_type(t: &syn::Type) -> RustType {
    match t {
        syn::Type::Path(p) => read_path_type(p),
        syn::Type::Tuple(u) => RustType::Tuple(u.elems.iter().map(read_type).collect()),
        syn::Type::Reference(r) => RustType::Reference(Box::new(read_type(&r.elem))),
        syn::Type::Never(_) => RustType::Never,
        syn::Type::Paren(p) => RustType::Paren(Box::new(read_type(&p.elem))),
        syn::Type::Group(g) => RustType::Group(Box::new(read_type(&g.elem))),
        syn::Type::Slice(s) => RustType::Slice(Box::new(read_type(&s.elem))),
        syn::Type::TraitObject(_) => RustType::TraitObject,
        _ => RustType::Other,
    }
}

/// Reads a syn path type by its last segment and that segment's
/// arguments; part of reading a parsed file.
#[verifier::external_body]
fn read_path_type(p: &syn::TypePath) -> RustType {
    p.path.segments.last().map(|s| RustType::Path(s.ident.to_string(), read_type_arguments(&s.arguments))).unwrap_or(RustType::Other)
}

/// Reads the angle-bracketed arguments of a syn path segment (none for
/// other arguments); part of reading a parsed file.
#[verifier::external_body]
fn read_type_arguments(a: &syn::PathArguments) -> Vec<RustTypeArgument> {
    match a {
        syn::PathArguments::AngleBracketed(b) => b.args.iter().map(|g| match g { syn::GenericArgument::Type(t) => RustTypeArgument::Type(read_type(t)), _ => RustTypeArgument::Other }).collect(),
        _ => Vec::new(),
    }
}

/// Reads a syn struct item; part of reading a parsed file.
#[verifier::external_body]
fn read_struct(s: &syn::ItemStruct) -> SourceItem {
    SourceItem {
        kind: SourceItemKind::Struct,
        public: read_public(&s.vis),
        name: s.ident.to_string(),
        unnamed_fields: matches!(s.fields, syn::Fields::Unnamed(_)),
        generic: !s.generics.params.is_empty(),
        fields: s.fields.iter().map(|f| (f.ident.as_ref().map(|i| i.to_string()), read_attributes(&f.attrs))).collect(),
        field_types: s.fields.iter().map(|f| read_type(&f.ty)).collect(),
        methods: vec![],
    }
}

/// Reads a syn `impl` block: the last segment of its self type's path
/// (empty when it is not a path) and its functions; part of reading a
/// parsed file.
#[verifier::external_body]
fn read_impl(b: &syn::ItemImpl) -> SourceItem {
    let name = match b.self_ty.as_ref() {
        syn::Type::Path(p) => p.path.segments.last().map(|s| s.ident.to_string()).unwrap_or_default(),
        _ => String::new(),
    };
    let methods = b.items.iter().filter_map(|i| match i { syn::ImplItem::Fn(f) => Some(read_method(&f.attrs, read_public(&f.vis), &f.sig)), _ => None }).collect();
    SourceItem { kind: SourceItemKind::Impl, public: false, name, unnamed_fields: false, generic: false, fields: vec![], field_types: vec![], methods }
}

/// Reads a syn trait item with its functions (which have no visibility of
/// their own); part of reading a parsed file.
#[verifier::external_body]
fn read_trait(t: &syn::ItemTrait) -> SourceItem {
    let methods = t.items.iter().filter_map(|i| match i { syn::TraitItem::Fn(f) => Some(read_method(&f.attrs, false, &f.sig)), _ => None }).collect();
    SourceItem { kind: SourceItemKind::Trait, public: read_public(&t.vis), name: t.ident.to_string(), unnamed_fields: false, generic: false, fields: vec![], field_types: vec![], methods }
}

/// Reads a syn function from its attributes, visibility and signature;
/// part of reading a parsed file.
#[verifier::external_body]
fn read_method(attrs: &Vec<syn::Attribute>, public: bool, sig: &syn::Signature) -> SourceMethod {
    let (first_arg_type, first_arg_path) = read_first_input(sig);
    let return_type = match &sig.output { syn::ReturnType::Default => String::new(), syn::ReturnType::Type(_, t) => t.to_token_stream().to_string() };
    SourceMethod { name: sig.ident.to_string(), attrs: read_attributes(attrs), public, has_receiver: sig.receiver().is_some(), inputs: sig.inputs.len(), first_arg_type, first_arg_path, return_type }
}

/// Reads the type of a syn function's first input when it is typed: its
/// tokens, and when it is a path the last segment and whether the path is
/// qualified; part of reading a parsed file.
#[verifier::external_body]
fn read_first_input(sig: &syn::Signature) -> (Option<String>, Option<(String, bool)>) {
    let first = sig.inputs.first().and_then(|a| match a { syn::FnArg::Typed(p) => Some(p.ty.as_ref()), syn::FnArg::Receiver(_) => None });
    let path = first.and_then(|t| match t { syn::Type::Path(p) => p.path.segments.last().map(|s| (s.ident.to_string(), p.qself.is_some())), _ => None });
    (first.map(|t| t.to_token_stream().to_string()), path)
}

/// The declaration kind of an item, for the kinds declarations are made of.
pub open spec fn declaration_kind(k: SourceItemKind) -> Option<RustItemKind> {
    match k {
        SourceItemKind::Struct => Some(RustItemKind::Struct),
        SourceItemKind::Enum => Some(RustItemKind::Enum),
        SourceItemKind::TypeAlias => Some(RustItemKind::TypeAlias),
        SourceItemKind::Trait => Some(RustItemKind::Trait),
        _ => None,
    }
}

/// The public struct, enum, type-alias and trait items among the first `n`
/// items of a file, in order.
pub open spec fn public_items_upto(items: Seq<SourceItem>, n: int) -> Seq<(RustItemKind, Seq<char>, bool, Seq<(Option<Seq<char>>, Seq<(Seq<char>, Option<Seq<char>>)>)>)>
    decreases n,
{
    if n <= 0 {
        Seq::empty()
    } else {
        let it = items[n - 1];
        let rest = public_items_upto(items, n - 1);
        match declaration_kind(it.kind) {
            Some(k) => if it.public {
                rest.push((k, it.name@, it.unnamed_fields, field_views(it.fields@)))
            } else {
                rest
            },
            None => rest,
        }
    }
}

/// The plain values of public items.
pub open spec fn public_item_views(items: Seq<PublicItem>) -> Seq<(RustItemKind, Seq<char>, bool, Seq<(Option<Seq<char>>, Seq<(Seq<char>, Option<Seq<char>>)>)>)> {
    items.map_values(|p: PublicItem| (p.kind, p.name@, p.unnamed_fields, field_views(p.fields@)))
}

/// The public declaration items of a file, in order.
pub open spec fn public_items(f: RustFile) -> Seq<(RustItemKind, Seq<char>, bool, Seq<(Option<Seq<char>>, Seq<(Seq<char>, Option<Seq<char>>)>)>)> {
    public_items_upto(f.items@, f.items@.len() as int)
}

/// The `impl` methods among the first `n` items of a file, in order.
pub open spec fn methods_upto(items: Seq<SourceItem>, n: int) -> Seq<(Seq<char>, Seq<(Seq<char>, Option<Seq<char>>)>)>
    decreases n,
{
    if n <= 0 {
        Seq::empty()
    } else if items[n - 1].kind == SourceItemKind::Impl {
        methods_upto(items, n - 1) + method_views(items[n - 1].methods@)
    } else {
        methods_upto(items, n - 1)
    }
}

/// The plain values of methods with their attributes.
pub open spec fn method_views(ms: Seq<SourceMethod>) -> Seq<(Seq<char>, Seq<(Seq<char>, Option<Seq<char>>)>)> {
    ms.map_values(|m: SourceMethod| (m.name@, arg_views(m.attrs@)))
}

/// The plain values of names with their attributes.
pub open spec fn named_attr_views(ms: Seq<(String, Vec<(String, Option<String>)>)>) -> Seq<(Seq<char>, Seq<(Seq<char>, Option<Seq<char>>)>)> {
    ms.map_values(|m: (String, Vec<(String, Option<String>)>)| (m.0@, arg_views(m.1@)))
}

/// A copy of a list of attributes.
fn copy_attrs(a: &Vec<(String, Option<String>)>) -> (r: Vec<(String, Option<String>)>)
    ensures
        arg_views(r@) == arg_views(a@),
{
    let mut r: Vec<(String, Option<String>)> = Vec::new();
    let mut i: usize = 0;
    while i < a.len()
        invariant
            i <= a.len(),
            arg_views(r@) =~= arg_views(a@.subrange(0, i as int)),
        decreases a.len() - i,
    {
        let t = match &a[i].1 {
            Some(x) => Some(x.clone()),
            None => None,
        };
        let ghost before = arg_views(r@);
        r.push((a[i].0.clone(), t));
        assert(arg_views(r@) =~= before.push((a@[i as int].0@, match a@[i as int].1 { Some(v) => Some(v@), None => None })));
        assert(arg_views(a@.subrange(0, i + 1)) =~= arg_views(a@.subrange(0, i as int)).push((a@[i as int].0@, match a@[i as int].1 { Some(v) => Some(v@), None => None })));
        i = i + 1;
    }
    assert(a@.subrange(0, a.len() as int) =~= a@);
    r
}

/// A copy of a list of fields.
fn copy_fields(f: &Vec<(Option<String>, Vec<(String, Option<String>)>)>) -> (r: Vec<(Option<String>, Vec<(String, Option<String>)>)>)
    ensures
        field_views(r@) == field_views(f@),
{
    let mut r: Vec<(Option<String>, Vec<(String, Option<String>)>)> = Vec::new();
    let mut i: usize = 0;
    while i < f.len()
        invariant
            i <= f.len(),
            field_views(r@) =~= field_views(f@.subrange(0, i as int)),
        decreases f.len() - i,
    {
        let ident = match &f[i].0 {
            Some(x) => Some(x.clone()),
            None => None,
        };
        let attrs = copy_attrs(&f[i].1);
        proof {
            assert(crate::declaration_catalog::attr_views(attrs@) =~= arg_views(attrs@));
            assert(crate::declaration_catalog::attr_views(f@[i as int].1@) =~= arg_views(f@[i as int].1@));
        }
        let ghost before = field_views(r@);
        let ghost x = (match f@[i as int].0 { Some(v) => Some(v@), None => None }, crate::declaration_catalog::attr_views(f@[i as int].1@));
        r.push((ident, attrs));
        assert(field_views(r@) =~= before.push(x));
        assert(field_views(f@.subrange(0, i + 1)) =~= field_views(f@.subrange(0, i as int)).push(x));
        i = i + 1;
    }
    assert(f@.subrange(0, f.len() as int) =~= f@);
    r
}

/// Every `impl` method of a file with its attributes, in source order.
pub open spec fn file_methods(f: RustFile) -> Seq<(Seq<char>, Seq<(Seq<char>, Option<Seq<char>>)>)> {
    methods_upto(f.items@, f.items@.len() as int)
}

/// Reads the public struct, enum, type-alias and trait items of a source
/// file, in order; a file that does not parse is refused with the parser's
/// message.
pub fn source_public_items(source: &str) -> (r: Result<Vec<PublicItem>, String>)
    ensures
        match parsed_rust_file(source@) {
            Ok(f) => r matches Ok(items) && public_item_views(items@) == public_items(f),
            Err(e) => r matches Err(m) && m@ == e,
        },
{
    let file = match parse_rust_file(source) {
        Ok(f) => f,
        Err(e) => return Err(e),
    };
    let mut out: Vec<PublicItem> = Vec::new();
    assert(public_item_views(out@) =~= public_items_upto(file.items@, 0));
    let mut i: usize = 0;
    while i < file.items.len()
        invariant
            i <= file.items.len(),
            parsed_rust_file(source@) == Ok::<RustFile, Seq<char>>(file),
            public_item_views(out@) == public_items_upto(file.items@, i as int),
        decreases file.items.len() - i,
    {
        let it = &file.items[i];
        let kind = match it.kind {
            SourceItemKind::Struct => Some(RustItemKind::Struct),
            SourceItemKind::Enum => Some(RustItemKind::Enum),
            SourceItemKind::TypeAlias => Some(RustItemKind::TypeAlias),
            SourceItemKind::Trait => Some(RustItemKind::Trait),
            _ => None,
        };
        match kind {
            Some(k) => if it.public {
                let ghost before = public_item_views(out@);
                let p = PublicItem { kind: k, name: it.name.clone(), unnamed_fields: it.unnamed_fields, fields: copy_fields(&it.fields) };
                out.push(p);
                assert(public_item_views(out@) =~= before.push((k, it.name@, it.unnamed_fields, field_views(it.fields@))));
            },
            None => {},
        }
        i = i + 1;
    }
    Ok(out)
}

/// Reads every `impl` method of a source file with its attributes, in source
/// order; a file that does not parse is refused with the parser's message.
pub fn source_methods(source: &str) -> (r: Result<Vec<(String, Vec<(String, Option<String>)>)>, String>)
    ensures
        match parsed_rust_file(source@) {
            Ok(f) => r matches Ok(ms) && named_attr_views(ms@) == file_methods(f),
            Err(e) => r matches Err(m) && m@ == e,
        },
{
    let file = match parse_rust_file(source) {
        Ok(f) => f,
        Err(e) => return Err(e),
    };
    let mut out: Vec<(String, Vec<(String, Option<String>)>)> = Vec::new();
    assert(named_attr_views(out@) =~= methods_upto(file.items@, 0));
    let mut i: usize = 0;
    while i < file.items.len()
        invariant
            i <= file.items.len(),
            parsed_rust_file(source@) == Ok::<RustFile, Seq<char>>(file),
            named_attr_views(out@) == methods_upto(file.items@, i as int),
        decreases file.items.len() - i,
    {
        let it = &file.items[i];
        if it.kind == SourceItemKind::Impl {
            let ghost before = named_attr_views(out@);
            let mut j: usize = 0;
            while j < it.methods.len()
                invariant
                    j <= it.methods.len(),
                    named_attr_views(out@) =~= before + method_views(it.methods@.subrange(0, j as int)),
                decreases it.methods.len() - j,
            {
                let name = it.methods[j].name.clone();
                let attrs = copy_attrs(&it.methods[j].attrs);
                let ghost prev = named_attr_views(out@);
                let ghost x = (it.methods@[j as int].name@, arg_views(it.methods@[j as int].attrs@));
                out.push((name, attrs));
                assert(named_attr_views(out@) =~= prev.push(x));
                assert(method_views(it.methods@.subrange(0, j + 1)) =~= method_views(it.methods@.subrange(0, j as int)).push(x));
                j = j + 1;
            }
            assert(it.methods@.subrange(0, it.methods.len() as int) =~= it.methods@);
        }
        i = i + 1;
    }
    Ok(out)
}

/// The function names of each public declaration item among the first `n`
/// items of a file, parallel to `public_items_upto`: a trait's functions in
/// order, nothing for other items.
pub open spec fn trait_functions_upto(items: Seq<SourceItem>, n: int) -> Seq<Seq<Seq<char>>>
    decreases n,
{
    if n <= 0 {
        Seq::empty()
    } else {
        let it = items[n - 1];
        let rest = trait_functions_upto(items, n - 1);
        if declaration_kind(it.kind) is Some && it.public {
            rest.push(if it.kind == SourceItemKind::Trait { method_names(it.methods@) } else { Seq::empty() })
        } else {
            rest
        }
    }
}

/// The names of functions.
pub open spec fn method_names(ms: Seq<SourceMethod>) -> Seq<Seq<char>> {
    ms.map_values(|m: SourceMethod| m.name@)
}

/// Reads, for each public struct, enum, type-alias and trait item of a
/// source file (in the order of `source_public_items`), the names of its
/// functions when it is a trait; a file that does not parse is refused with
/// the parser's message.
pub fn source_trait_functions(source: &str) -> (r: Result<Vec<Vec<String>>, String>)
    ensures
        match parsed_rust_file(source@) {
            Ok(f) => r matches Ok(fs) && fs@.map_values(|v: Vec<String>| views(v@)) == trait_functions_upto(f.items@, f.items@.len() as int),
            Err(e) => r matches Err(m) && m@ == e,
        },
{
    let file = match parse_rust_file(source) {
        Ok(f) => f,
        Err(e) => return Err(e),
    };
    let mut out: Vec<Vec<String>> = Vec::new();
    assert(out@.map_values(|v: Vec<String>| views(v@)) =~= trait_functions_upto(file.items@, 0));
    let mut i: usize = 0;
    while i < file.items.len()
        invariant
            i <= file.items.len(),
            parsed_rust_file(source@) == Ok::<RustFile, Seq<char>>(file),
            out@.map_values(|v: Vec<String>| views(v@)) == trait_functions_upto(file.items@, i as int),
        decreases file.items.len() - i,
    {
        let it = &file.items[i];
        let declared = match it.kind {
            SourceItemKind::Struct => true,
            SourceItemKind::Enum => true,
            SourceItemKind::TypeAlias => true,
            SourceItemKind::Trait => true,
            _ => false,
        };
        if declared && it.public {
            let mut names: Vec<String> = Vec::new();
            if it.kind == SourceItemKind::Trait {
                let mut j: usize = 0;
                while j < it.methods.len()
                    invariant
                        j <= it.methods.len(),
                        views(names@) =~= method_names(it.methods@.subrange(0, j as int)),
                    decreases it.methods.len() - j,
                {
                    let ghost before = views(names@);
                    let x = it.methods[j].name.clone();
                    names.push(x);
                    assert(views(names@) =~= before.push(x@));
                    assert(method_names(it.methods@.subrange(0, j + 1)) =~= method_names(it.methods@.subrange(0, j as int)).push(it.methods@[j as int].name@));
                    j = j + 1;
                }
                assert(it.methods@.subrange(0, it.methods.len() as int) =~= it.methods@);
            } else {
                assert(views(names@) =~= Seq::<Seq<char>>::empty());
            }
            let ghost before = out@.map_values(|v: Vec<String>| views(v@));
            let ghost nv = views(names@);
            out.push(names);
            assert(out@.map_values(|v: Vec<String>| views(v@)) =~= before.push(nv));
        }
        i = i + 1;
    }
    Ok(out)
}

/// The field types of each public declaration item among the first `n`
/// items of a file, parallel to `public_items_upto`.
pub open spec fn field_types_upto(items: Seq<SourceItem>, n: int) -> Seq<Seq<RustType>>
    decreases n,
{
    if n <= 0 {
        Seq::empty()
    } else {
        let it = items[n - 1];
        let rest = field_types_upto(items, n - 1);
        if declaration_kind(it.kind) is Some && it.public { rest.push(it.field_types@) } else { rest }
    }
}

/// Reads, for each public struct, enum, type-alias and trait item of a
/// source file (in the order of `source_public_items`), the types of its
/// fields in order; a file that does not parse is refused with the
/// parser's message.
pub fn source_field_types(source: &str) -> (r: Result<Vec<Vec<RustType>>, String>)
    ensures
        match parsed_rust_file(source@) {
            Ok(f) => r matches Ok(ts) && ts@.map_values(|v: Vec<RustType>| v@) == field_types_upto(f.items@, f.items@.len() as int),
            Err(e) => r matches Err(m) && m@ == e,
        },
{
    let file = match parse_rust_file(source) {
        Ok(f) => f,
        Err(e) => return Err(e),
    };
    let ghost all = file.items@;
    let mut items = file.items;
    assert(all.len() == items.len());
    let mut out: Vec<Vec<RustType>> = Vec::new();
    assert(out@.map_values(|v: Vec<RustType>| v@) =~= field_types_upto(all, 0));
    let mut i: usize = 0;
    while items.len() > 0
        invariant
            i + items.len() == all.len(),
            all.len() <= usize::MAX,
            parsed_rust_file(source@) == Ok::<RustFile, Seq<char>>(RustFile { items: file.items }),
            items@ == all.subrange(i as int, all.len() as int),
            out@.map_values(|v: Vec<RustType>| v@) == field_types_upto(all, i as int),
        decreases items.len(),
    {
        let it = items.remove(0);
        assert(it == all[i as int]);
        let declared = match it.kind {
            SourceItemKind::Struct => true,
            SourceItemKind::Enum => true,
            SourceItemKind::TypeAlias => true,
            SourceItemKind::Trait => true,
            _ => false,
        };
        if declared && it.public {
            let ghost before = out@.map_values(|v: Vec<RustType>| v@);
            let ghost ft = it.field_types@;
            out.push(it.field_types);
            assert(out@.map_values(|v: Vec<RustType>| v@) =~= before.push(ft));
        }
        i = i + 1;
        assert(items@ =~= all.subrange(i as int, all.len() as int));
    }
    Ok(out)
}

} // verus!
