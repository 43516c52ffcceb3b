//! How a Rust SDK type is written in the TypeScript declarations: the
//! built-in scalar and wrapper types map to their TypeScript forms, tuples
//! to tuple types, references and parentheses to what they hold, and any
//! other named type to its declaration as seen from the current namespace
//! (recording the import of a type of another module).
use vstd::prelude::*;
use crate::declaration_catalog::{catalog_views, CatalogEntry};
use crate::declaration_module::{import_views, insert_import, named_path_views, named_type_import, named_type_text, resolve_named_type};
use crate::rust_source::{RustType, RustTypeArgument};
use crate::text::{join, str_eq, views};

verus! {

/// The TypeScript form of a built-in scalar type.
pub open spec fn scalar_form(name: Seq<char>) -> Option<Seq<char>> {
    if name == "String"@ || name == "str"@ || name == "JsDate"@ { Some("string"@) }
    else if name == "bool"@ { Some("boolean"@) }
    else if name == "f32"@ || name == "f64"@ || name == "i8"@ || name == "i16"@ || name == "i32"@ || name == "i64"@ || name == "i128"@ || name == "isize"@
        || name == "u8"@ || name == "u16"@ || name == "u32"@ || name == "u64"@ || name == "u128"@ || name == "usize"@ { Some("number"@) }
    else if name == "Value"@ { Some("unknown"@) }
    else if name == "JsAny"@ { Some("any"@) }
    else if name == "JsObject"@ { Some("object"@) }
    else if name == "JsNever"@ { Some("never"@) }
    else { None }
}

/// How many type arguments a built-in wrapper type reads; 0 for any other
/// name.
pub open spec fn wrapper_arity(name: Seq<char>) -> int {
    if scalar_form(name) is Some { 0 }
    else if name == "Vec"@ || name == "Option"@ || name == "JsUndefined"@ || name == "JsOptional"@ || name == "JsNullable"@
        || name == "JsFuture"@ || name == "Arc"@ || name == "Box"@ || name == "Pin"@ || name == "PhantomData"@ { 1 }
    else if name == "BTreeMap"@ || name == "HashMap"@ || name == "JsTypeIndex"@ { 2 }
    else { 0 }
}

/// The TypeScript form of a built-in wrapper type around the forms `a` and
/// `b` of its type arguments.
pub open spec fn wrapper_form(name: Seq<char>, a: Seq<char>, b: Seq<char>) -> Seq<char> {
    if name == "Vec"@ { a + "[]"@ }
    else if name == "Option"@ || name == "JsUndefined"@ { a + " | undefined"@ }
    else if name == "JsOptional"@ { a + " | null | undefined"@ }
    else if name == "JsNullable"@ { a + " | null"@ }
    else if name == "JsFuture"@ { "Promise<"@ + a + ">"@ }
    else if name == "BTreeMap"@ || name == "HashMap"@ { "Record<"@ + a + ", "@ + b + ">"@ }
    else if name == "JsTypeIndex"@ { a + "["@ + b + " & keyof "@ + a + "]"@ }
    else { a }
}

/// Where a type is written: the namespace, the module's named declaration
/// paths, the catalog of every SDK type, and the module's file.
pub type FormContext = (Seq<Seq<char>>, Seq<(Seq<char>, Seq<Seq<char>>)>, Seq<(Seq<char>, Seq<char>, Seq<Seq<char>>)>, Seq<char>);

/// The imports after referring to a named type.
pub open spec fn named_imports(name: Seq<char>, ctx: FormContext, imp: Seq<(Seq<char>, Seq<Seq<char>>)>) -> Seq<(Seq<char>, Seq<Seq<char>>)> {
    match named_type_import(name, ctx.1, ctx.2, ctx.3) {
        Some((file, first)) => insert_import(imp, file, first),
        None => imp,
    }
}

/// The TypeScript form of a type and the import table after writing it,
/// from the table before.
pub open spec fn type_out(t: RustType, ctx: FormContext, imp: Seq<(Seq<char>, Seq<Seq<char>>)>) -> (Seq<char>, Seq<(Seq<char>, Seq<Seq<char>>)>)
    decreases t,
{
    match t {
        RustType::Path(name, args) => {
            if scalar_form(name@) is Some {
                (scalar_form(name@)->Some_0, imp)
            } else if wrapper_arity(name@) == 1 {
                let a = argument_out(args@, 0, ctx, imp);
                (wrapper_form(name@, a.0, Seq::empty()), a.1)
            } else if wrapper_arity(name@) == 2 {
                let a = argument_out(args@, 0, ctx, imp);
                let b = argument_out(args@, 1, ctx, a.1);
                (wrapper_form(name@, a.0, b.0), b.1)
            } else {
                let imp1 = named_imports(name@, ctx, imp);
                let forms = arguments_out(args@, ctx, imp1);
                (named_type_text(name@, ctx.0, ctx.1, ctx.2, ctx.3)
                    + (if forms.0.len() == 0 { Seq::empty() } else { "<"@ + join(forms.0, ", "@) + ">"@ }), forms.1)
            }
        },
        RustType::Tuple(ts) => {
            if ts@.len() == 0 {
                ("void"@, imp)
            } else {
                let forms = elements_out(ts@, ctx, imp);
                ("["@ + join(forms.0, ", "@) + "]"@, forms.1)
            }
        },
        RustType::Reference(b) => type_out(*b, ctx, imp),
        RustType::Never => ("never"@, imp),
        RustType::Paren(b) => type_out(*b, ctx, imp),
        RustType::Group(b) => type_out(*b, ctx, imp),
        RustType::Slice(b) => {
            let inner = type_out(*b, ctx, imp);
            (inner.0 + "[]"@, inner.1)
        },
        RustType::TraitObject => (Seq::empty(), imp),
        RustType::Other => (Seq::empty(), imp),
    }
}

/// The form of the type argument at `i`.
pub open spec fn argument_out(args: Seq<RustTypeArgument>, i: int, ctx: FormContext, imp: Seq<(Seq<char>, Seq<Seq<char>>)>) -> (Seq<char>, Seq<(Seq<char>, Seq<Seq<char>>)>)
    decreases args, 0int,
{
    if 0 <= i < args.len() {
        match args[i] {
            RustTypeArgument::Type(u) => type_out(u, ctx, imp),
            RustTypeArgument::Other => (Seq::empty(), imp),
        }
    } else {
        (Seq::empty(), imp)
    }
}

/// The forms of the type arguments among `args`, in order, skipping the
/// other arguments.
pub open spec fn arguments_out(args: Seq<RustTypeArgument>, ctx: FormContext, imp: Seq<(Seq<char>, Seq<Seq<char>>)>) -> (Seq<Seq<char>>, Seq<(Seq<char>, Seq<Seq<char>>)>)
    decreases args, 1int,
{
    if args.len() == 0 {
        (Seq::empty(), imp)
    } else {
        let rest = arguments_out(args.drop_last(), ctx, imp);
        match args.last() {
            RustTypeArgument::Type(u) => {
                let f = type_out(u, ctx, rest.1);
                (rest.0.push(f.0), f.1)
            },
            RustTypeArgument::Other => rest,
        }
    }
}

/// The forms of tuple elements, in order.
pub open spec fn elements_out(ts: Seq<RustType>, ctx: FormContext, imp: Seq<(Seq<char>, Seq<Seq<char>>)>) -> (Seq<Seq<char>>, Seq<(Seq<char>, Seq<Seq<char>>)>)
    decreases ts,
{
    if ts.len() == 0 {
        (Seq::empty(), imp)
    } else {
        let rest = elements_out(ts.drop_last(), ctx, imp);
        let f = type_out(ts.last(), ctx, rest.1);
        (rest.0.push(f.0), f.1)
    }
}

/// A type the declarations can write: no trait object or other form
/// anywhere it is read, and every built-in wrapper with the type arguments
/// it reads.
pub open spec fn type_supported(t: RustType) -> bool
    decreases t,
{
    match t {
        RustType::Path(name, args) => {
            if scalar_form(name@) is Some {
                true
            } else if wrapper_arity(name@) > 0 {
                argument_supported(args@, 0) && (wrapper_arity(name@) == 2 ==> argument_supported(args@, 1))
            } else {
                arguments_supported(args@)
            }
        },
        RustType::Tuple(ts) => elements_supported(ts@),
        RustType::Reference(b) => type_supported(*b),
        RustType::Never => true,
        RustType::Paren(b) => type_supported(*b),
        RustType::Group(b) => type_supported(*b),
        RustType::Slice(b) => type_supported(*b),
        RustType::TraitObject => false,
        RustType::Other => false,
    }
}

/// The argument at `i` is a type the declarations can write.
pub open spec fn argument_supported(args: Seq<RustTypeArgument>, i: int) -> bool
    decreases args, 0int,
{
    0 <= i < args.len() && match args[i] {
        RustTypeArgument::Type(u) => type_supported(u),
        RustTypeArgument::Other => false,
    }
}

/// Every type argument is a type the declarations can write.
pub open spec fn arguments_supported(args: Seq<RustTypeArgument>) -> bool
    decreases args, 1int,
{
    args.len() == 0 || (arguments_supported(args.drop_last()) && match args.last() {
        RustTypeArgument::Type(u) => type_supported(u),
        RustTypeArgument::Other => true,
    })
}

/// Every tuple element is a type the declarations can write.
pub open spec fn elements_supported(ts: Seq<RustType>) -> bool
    decreases ts,
{
    ts.len() == 0 || (elements_supported(ts.drop_last()) && type_supported(ts.last()))
}

/// The TypeScript form of a built-in scalar type.
fn scalar_text(name: &str) -> (r: Option<&'static str>)
    ensures
        match r {
            Some(x) => scalar_form(name@) == Some(x@),
            None => scalar_form(name@) is None,
        },
{
    if str_eq(name, "String") || str_eq(name, "str") || str_eq(name, "JsDate") { Some("string") }
    else if str_eq(name, "bool") { Some("boolean") }
    else if str_eq(name, "f32") || str_eq(name, "f64") || str_eq(name, "i8") || str_eq(name, "i16") || str_eq(name, "i32") || str_eq(name, "i64") || str_eq(name, "i128") || str_eq(name, "isize")
        || str_eq(name, "u8") || str_eq(name, "u16") || str_eq(name, "u32") || str_eq(name, "u64") || str_eq(name, "u128") || str_eq(name, "usize") { Some("number") }
    else if str_eq(name, "Value") { Some("unknown") }
    else if str_eq(name, "JsAny") { Some("any") }
    else if str_eq(name, "JsObject") { Some("object") }
    else if str_eq(name, "JsNever") { Some("never") }
    else { None }
}

/// How many type arguments a built-in wrapper type reads.
fn arity_of(name: &str) -> (r: usize)
    requires
        scalar_form(name@) is None,
    ensures
        r == wrapper_arity(name@),
{
    if str_eq(name, "Vec") || str_eq(name, "Option") || str_eq(name, "JsUndefined") || str_eq(name, "JsOptional") || str_eq(name, "JsNullable")
        || str_eq(name, "JsFuture") || str_eq(name, "Arc") || str_eq(name, "Box") || str_eq(name, "Pin") || str_eq(name, "PhantomData") { 1 }
    else if str_eq(name, "BTreeMap") || str_eq(name, "HashMap") || str_eq(name, "JsTypeIndex") { 2 }
    else { 0 }
}

/// Appends text to a string.
fn appended(mut s: String, t: &str) -> (r: String)
    ensures
        r@ == s@ + t@,
{
    s.append(t);
    s
}

/// The TypeScript form of a built-in wrapper type.
fn wrapper_text(name: &str, a: &str, b: &str) -> (r: String)
    requires
        scalar_form(name@) is None,
        wrapper_arity(name@) > 0,
    ensures
        r@ == wrapper_form(name@, a@, b@),
{
    proof {
        reveal_strlit("[]");
        reveal_strlit(" | undefined");
        reveal_strlit(" | null | undefined");
        reveal_strlit(" | null");
        reveal_strlit("Promise<");
        reveal_strlit(">");
        reveal_strlit("Record<");
        reveal_strlit(", ");
        reveal_strlit("[");
        reveal_strlit(" & keyof ");
        reveal_strlit("]");
    }
    if str_eq(name, "Vec") { appended(String::from_str(a), "[]") }
    else if str_eq(name, "Option") || str_eq(name, "JsUndefined") { appended(String::from_str(a), " | undefined") }
    else if str_eq(name, "JsOptional") { appended(String::from_str(a), " | null | undefined") }
    else if str_eq(name, "JsNullable") { appended(String::from_str(a), " | null") }
    else if str_eq(name, "JsFuture") { appended(appended(String::from_str("Promise<"), a), ">") }
    else if str_eq(name, "BTreeMap") || str_eq(name, "HashMap") { appended(appended(appended(appended(String::from_str("Record<"), a), ", "), b), ">") }
    else if str_eq(name, "JsTypeIndex") { appended(appended(appended(appended(appended(String::from_str(a), "["), b), " & keyof "), a), "]") }
    else { String::from_str(a) }
}

/// The context of a type written from `scope` in the module `current_file`.
pub open spec fn form_context(scope: Seq<String>, named: Seq<(String, Vec<String>)>, catalog: Seq<CatalogEntry>, current_file: Seq<char>) -> FormContext {
    (views(scope), named_path_views(named), catalog_views(catalog), current_file)
}

/// Writes a Rust type as the declarations of the module `current_file`
/// write it from the namespace `scope`, recording the imports of named
/// types of other modules, in the order the type mentions them.
pub fn emit_type(t: &RustType, scope: &Vec<String>, named: &Vec<(String, Vec<String>)>, catalog: &Vec<CatalogEntry>, current_file: &str, imports: &mut Vec<(String, Vec<String>)>) -> (r: String)
    requires
        type_supported(*t),
        forall|i: int| 0 <= i < catalog@.len() ==> (#[trigger] catalog@[i]).path@.len() > 0,
    ensures
        (r@, import_views(final(imports)@)) == type_out(*t, form_context(scope@, named@, catalog@, current_file@), import_views(old(imports)@)),
    decreases t,
{
    let ghost ctx = form_context(scope@, named@, catalog@, current_file@);
    match t {
        RustType::Path(name, args) => {
            match scalar_text(name.as_str()) {
                Some(x) => return String::from_str(x),
                None => {},
            }
            let arity = arity_of(name.as_str());
            if arity > 0 {
                assert(argument_supported(args@, 0));
                let ghost imp0 = import_views(imports@);
                let a = match &args[0] {
                    RustTypeArgument::Type(u) => {
                        proof {
                            assert(decreases_to!(*t => *args));
                            assert(decreases_to!(*args => args@));
                            assert(decreases_to!(args@ => args@[0]));
                            assert(decreases_to!(args@[0] => *u));
                        }
                        emit_type(u, scope, named, catalog, current_file, imports)
                    },
                    RustTypeArgument::Other => String::new(),
                };
                assert((a@, import_views(imports@)) == argument_out(args@, 0, ctx, imp0));
                let ghost imp1 = import_views(imports@);
                let b = if arity == 2 {
                    assert(argument_supported(args@, 1));
                    match &args[1] {
                        RustTypeArgument::Type(u) => {
                            proof {
                                assert(decreases_to!(*t => *args));
                                assert(decreases_to!(*args => args@));
                                assert(decreases_to!(args@ => args@[1]));
                                assert(decreases_to!(args@[1] => *u));
                            }
                            emit_type(u, scope, named, catalog, current_file, imports)
                        },
                        RustTypeArgument::Other => String::new(),
                    }
                } else {
                    String::new()
                };
                assert(arity == 2 ==> (b@, import_views(imports@)) == argument_out(args@, 1, ctx, imp1));
                assert(arity == 1 ==> b@ == Seq::<char>::empty() && import_views(imports@) == imp1);
                return wrapper_text(name.as_str(), a.as_str(), b.as_str());
            }
            let head = resolve_named_type(name.as_str(), scope, named, catalog, current_file, imports);
            let ghost imp1 = import_views(imports@);
            proof {
                assert(decreases_to!(*t => *args));
                assert(decreases_to!(*args => args@));
            }
            let mut forms: Vec<String> = Vec::new();
            let mut j: usize = 0;
            assert(args@.subrange(0, 0) =~= Seq::<RustTypeArgument>::empty());
            while j < args.len()
                invariant
                    j <= args.len(),
                    ctx == form_context(scope@, named@, catalog@, current_file@),
                    forall|i: int| 0 <= i < catalog@.len() ==> (#[trigger] catalog@[i]).path@.len() > 0,
                    arguments_supported(args@),
                    decreases_to!(*t => args@),
                    (views(forms@), import_views(imports@)) == arguments_out(args@.subrange(0, j as int), ctx, imp1),
                decreases args.len() - j,
            {
                let ghost pre = args@.subrange(0, j + 1);
                assert(pre.drop_last() =~= args@.subrange(0, j as int));
                assert(pre.last() == args@[j as int]);
                proof { lemma_arguments_supported_prefix(args@, j + 1); }
                match &args[j] {
                    RustTypeArgument::Type(u) => {
                        let ghost before = views(forms@);
                        proof {
                            assert(decreases_to!(args@ => args@[j as int]));
                            assert(decreases_to!(args@[j as int] => *u));
                        }
                        let f = emit_type(u, scope, named, catalog, current_file, imports);
                        forms.push(f);
                        assert(views(forms@) =~= before.push(f@));
                    },
                    RustTypeArgument::Other => {},
                }
                j = j + 1;
            }
            assert(args@.subrange(0, args.len() as int) =~= args@);
            if forms.len() == 0 {
                head
            } else {
                proof { reveal_strlit("<"); reveal_strlit(">"); }
                appended(appended(appended(head, "<"), crate::text::join_strings(&forms, ", ").as_str()), ">")
            }
        },
        RustType::Tuple(ts) => {
            if ts.len() == 0 {
                return String::from_str("void");
            }
            let ghost imp0 = import_views(imports@);
            proof {
                assert(decreases_to!(*t => *ts));
                assert(decreases_to!(*ts => ts@));
            }
            let mut forms: Vec<String> = Vec::new();
            let mut j: usize = 0;
            assert(ts@.subrange(0, 0) =~= Seq::<RustType>::empty());
            while j < ts.len()
                invariant
                    j <= ts.len(),
                    ctx == form_context(scope@, named@, catalog@, current_file@),
                    forall|i: int| 0 <= i < catalog@.len() ==> (#[trigger] catalog@[i]).path@.len() > 0,
                    elements_supported(ts@),
                    decreases_to!(*t => ts@),
                    (views(forms@), import_views(imports@)) == elements_out(ts@.subrange(0, j as int), ctx, imp0),
                decreases ts.len() - j,
            {
                let ghost pre = ts@.subrange(0, j + 1);
                assert(pre.drop_last() =~= ts@.subrange(0, j as int));
                assert(pre.last() == ts@[j as int]);
                proof { lemma_elements_supported_prefix(ts@, j + 1); }
                let ghost before = views(forms@);
                proof {
                    assert(decreases_to!(ts@ => ts@[j as int]));
                }
                let f = emit_type(&ts[j], scope, named, catalog, current_file, imports);
                forms.push(f);
                assert(views(forms@) =~= before.push(f@));
                j = j + 1;
            }
            assert(ts@.subrange(0, ts.len() as int) =~= ts@);
            proof { reveal_strlit("["); reveal_strlit("]"); }
            appended(appended(String::from_str("["), crate::text::join_strings(&forms, ", ").as_str()), "]")
        },
        RustType::Reference(b) => emit_type(b, scope, named, catalog, current_file, imports),
        RustType::Never => String::from_str("never"),
        RustType::Paren(b) => emit_type(b, scope, named, catalog, current_file, imports),
        RustType::Group(b) => emit_type(b, scope, named, catalog, current_file, imports),
        RustType::Slice(b) => {
            let inner = emit_type(b, scope, named, catalog, current_file, imports);
            proof { reveal_strlit("[]"); }
            appended(inner, "[]")
        },
        RustType::TraitObject => String::new(),
        RustType::Other => String::new(),
    }
}

/// Every prefix of supported type arguments is supported, and so is each
/// type among them.
proof fn lemma_arguments_supported_prefix(args: Seq<RustTypeArgument>, n: int)
    requires
        0 <= n <= args.len(),
        arguments_supported(args),
    ensures
        arguments_supported(args.subrange(0, n)),
        n > 0 ==> (args[n - 1] matches RustTypeArgument::Type(u) ==> type_supported(u)),
    decreases args.len(),
{
    if n < args.len() {
        assert(args.drop_last().subrange(0, n) =~= args.subrange(0, n));
        if n > 0 {
            assert(args.drop_last()[n - 1] == args[n - 1]);
        }
        lemma_arguments_supported_prefix(args.drop_last(), n);
    } else {
        assert(args.subrange(0, n) =~= args);
    }
}

/// Every prefix of supported tuple elements is supported, and so is each
/// element.
proof fn lemma_elements_supported_prefix(ts: Seq<RustType>, n: int)
    requires
        0 <= n <= ts.len(),
        elements_supported(ts),
    ensures
        elements_supported(ts.subrange(0, n)),
        n > 0 ==> type_supported(ts[n - 1]),
    decreases ts.len(),
{
    if n < ts.len() {
        assert(ts.drop_last().subrange(0, n) =~= ts.subrange(0, n));
        if n > 0 {
            assert(ts.drop_last()[n - 1] == ts[n - 1]);
        }
        lemma_elements_supported_prefix(ts.drop_last(), n);
    } else {
        assert(ts.subrange(0, n) =~= ts);
    }
}

/// The index signature a flattened map field declares: its value type
/// under string keys.
pub open spec fn index_signature_out(field_type: RustType, indent: Seq<char>, ctx: FormContext, imp: Seq<(Seq<char>, Seq<Seq<char>>)>) -> (Seq<char>, Seq<(Seq<char>, Seq<Seq<char>>)>) {
    let value = argument_out(field_type->Path_1@, 1, ctx, imp);
    (indent + "[key: string]: "@ + value.0 + ";\n"@, value.1)
}

/// Writes the index signature of a flattened map field (a path type whose
/// second type argument is the value type) at `indent`.
pub fn emit_index_signature(output: &mut String, field_type: &RustType, scope: &Vec<String>, named: &Vec<(String, Vec<String>)>, catalog: &Vec<CatalogEntry>, current_file: &str, imports: &mut Vec<(String, Vec<String>)>, indent: &str)
    requires
        field_type is Path,
        argument_supported(field_type->Path_1@, 1),
        forall|i: int| 0 <= i < catalog@.len() ==> (#[trigger] catalog@[i]).path@.len() > 0,
    ensures
        (final(output)@, import_views(final(imports)@)) == ({
            let sig = index_signature_out(*field_type, indent@, form_context(scope@, named@, catalog@, current_file@), import_views(old(imports)@));
            (old(output)@ + sig.0, sig.1)
        }),
{
    match field_type {
        RustType::Path(_, args) => {
            match &args[1] {
                RustTypeArgument::Type(value) => {
                    let text = emit_type(value, scope, named, catalog, current_file, imports);
                    output.append(indent);
                    output.append("[key: string]: ");
                    output.append(text.as_str());
                    output.append(";\n");
                    proof { reveal_strlit("[key: string]: "); reveal_strlit(";\n"); }
                },
                RustTypeArgument::Other => {},
            }
        },
        _ => {},
    }
}

/// Every Rust integer and floating-point primitive is written as the
/// TypeScript `number`, whatever its arguments, the namespace, the module
/// and its imports; writing it records no import.
pub proof fn law_numeric_primitives_are_numbers(t: RustType, ctx: FormContext, imp: Seq<(Seq<char>, Seq<Seq<char>>)>)
    requires
        t matches RustType::Path(n, _) && (n@ == "i8"@ || n@ == "i16"@ || n@ == "i32"@ || n@ == "i64"@ || n@ == "i128"@ || n@ == "isize"@
            || n@ == "u8"@ || n@ == "u16"@ || n@ == "u32"@ || n@ == "u64"@ || n@ == "u128"@ || n@ == "usize"@
            || n@ == "f32"@ || n@ == "f64"@),
    ensures
        type_out(t, ctx, imp) == ("number"@, imp),
{
    reveal_strlit("i8");
    reveal_strlit("i16");
    reveal_strlit("i32");
    reveal_strlit("i64");
    reveal_strlit("i128");
    reveal_strlit("isize");
    reveal_strlit("u8");
    reveal_strlit("u16");
    reveal_strlit("u32");
    reveal_strlit("u64");
    reveal_strlit("u128");
    reveal_strlit("usize");
    reveal_strlit("f32");
    reveal_strlit("f64");
    reveal_strlit("String");
    reveal_strlit("str");
    reveal_strlit("JsDate");
    reveal_strlit("bool");
    assert("i8"@.len() == 2);
    assert("i8"@[0] == 'i');
    assert("i16"@.len() == 3);
    assert("i16"@[0] == 'i');
    assert("i32"@.len() == 3);
    assert("i32"@[0] == 'i');
    assert("i64"@.len() == 3);
    assert("i64"@[0] == 'i');
    assert("i128"@.len() == 4);
    assert("i128"@[0] == 'i');
    assert("isize"@.len() == 5);
    assert("isize"@[0] == 'i');
    assert("u8"@.len() == 2);
    assert("u8"@[0] == 'u');
    assert("u16"@.len() == 3);
    assert("u16"@[0] == 'u');
    assert("u32"@.len() == 3);
    assert("u32"@[0] == 'u');
    assert("u64"@.len() == 3);
    assert("u64"@[0] == 'u');
    assert("u128"@.len() == 4);
    assert("u128"@[0] == 'u');
    assert("usize"@.len() == 5);
    assert("usize"@[0] == 'u');
    assert("f32"@.len() == 3);
    assert("f32"@[0] == 'f');
    assert("f64"@.len() == 3);
    assert("f64"@[0] == 'f');
    assert("String"@.len() == 6);
    assert("String"@[0] == 'S');
    assert("str"@.len() == 3);
    assert("str"@[0] == 's');
    assert("JsDate"@.len() == 6);
    assert("JsDate"@[0] == 'J');
    assert("bool"@.len() == 4);
    assert("bool"@[0] == 'b');
    let n = t->Path_0@;
    assert(n[0] != 'S' && n[0] != 's' && n[0] != 'J' && n[0] != 'b');
    assert(scalar_form(n) == Some("number"@));
}

/// `String`, `str` and `JsDate` are written as the TypeScript `string`, and
/// `bool` as `boolean`, recording no import.
pub proof fn law_text_and_bool_primitives(t: RustType, ctx: FormContext, imp: Seq<(Seq<char>, Seq<Seq<char>>)>)
    requires
        t matches RustType::Path(n, _) && (n@ == "String"@ || n@ == "str"@ || n@ == "JsDate"@ || n@ == "bool"@),
    ensures
        type_out(t, ctx, imp) == (if t->Path_0@ == "bool"@ { "boolean"@ } else { "string"@ }, imp),
{
    reveal_strlit("String");
    reveal_strlit("str");
    reveal_strlit("JsDate");
    reveal_strlit("bool");
    assert("String"@.len() == 6);
    assert("String"@[0] == 'S');
    assert("str"@.len() == 3);
    assert("str"@[0] == 's');
    assert("JsDate"@.len() == 6);
    assert("JsDate"@[0] == 'J');
    assert("bool"@.len() == 4);
    assert("bool"@[0] == 'b');
}

/// Only `String`, `str` and `JsDate` are written as `string` among the
/// built-in scalar types: in particular no numeric primitive is.
pub proof fn law_only_text_scalars_are_strings(name: Seq<char>)
    requires
        scalar_form(name) == Some("string"@),
    ensures
        name == "String"@ || name == "str"@ || name == "JsDate"@,
{
    reveal_strlit("string");
    reveal_strlit("boolean");
    reveal_strlit("number");
    reveal_strlit("unknown");
    reveal_strlit("any");
    reveal_strlit("object");
    reveal_strlit("never");
    assert("string"@.len() == 6);
    assert("string"@[0] == 's');
    assert("boolean"@.len() == 7);
    assert("boolean"@[0] == 'b');
    assert("number"@.len() == 6);
    assert("number"@[0] == 'n');
    assert("unknown"@.len() == 7);
    assert("unknown"@[0] == 'u');
    assert("any"@.len() == 3);
    assert("any"@[0] == 'a');
    assert("object"@.len() == 6);
    assert("object"@[0] == 'o');
    assert("never"@.len() == 5);
    assert("never"@[0] == 'n');
}

/// `Vec<T>` is written as `T[]`, after writing `T` (and recording its imports).
pub proof fn law_vec_is_an_array(t: RustType, u: RustType, ctx: FormContext, imp: Seq<(Seq<char>, Seq<Seq<char>>)>)
    ensures
        (t is Path && t->Path_0@ == "Vec"@ && t->Path_1@.len() >= 1 && t->Path_1@[0] == RustTypeArgument::Type(u))
            ==> type_out(t, ctx, imp) == (type_out(u, ctx, imp).0 + "[]"@, type_out(u, ctx, imp).1),
{
    reveal_strlit("String");
    reveal_strlit("str");
    reveal_strlit("JsDate");
    reveal_strlit("bool");
    reveal_strlit("i8");
    reveal_strlit("i16");
    reveal_strlit("i32");
    reveal_strlit("i64");
    reveal_strlit("i128");
    reveal_strlit("isize");
    reveal_strlit("u8");
    reveal_strlit("u16");
    reveal_strlit("u32");
    reveal_strlit("u64");
    reveal_strlit("u128");
    reveal_strlit("usize");
    reveal_strlit("f32");
    reveal_strlit("f64");
    reveal_strlit("Value");
    reveal_strlit("JsAny");
    reveal_strlit("JsObject");
    reveal_strlit("JsNever");
    reveal_strlit("Vec");
    reveal_strlit("Option");
    reveal_strlit("JsUndefined");
    reveal_strlit("JsOptional");
    reveal_strlit("JsNullable");
    reveal_strlit("JsFuture");
    reveal_strlit("Arc");
    reveal_strlit("Box");
    reveal_strlit("Pin");
    reveal_strlit("PhantomData");
    reveal_strlit("BTreeMap");
    reveal_strlit("HashMap");
    reveal_strlit("JsTypeIndex");
    assert("String"@.len() == 6 && "String"@[0] == 'S' && "String"@[1] == 't' && "String"@[2] == 'r' && "String"@[3] == 'i' && "String"@[4] == 'n' && "String"@[5] == 'g');
    assert("str"@.len() == 3 && "str"@[0] == 's' && "str"@[1] == 't' && "str"@[2] == 'r');
    assert("JsDate"@.len() == 6 && "JsDate"@[0] == 'J' && "JsDate"@[1] == 's' && "JsDate"@[2] == 'D' && "JsDate"@[3] == 'a' && "JsDate"@[4] == 't' && "JsDate"@[5] == 'e');
    assert("bool"@.len() == 4 && "bool"@[0] == 'b' && "bool"@[1] == 'o' && "bool"@[2] == 'o' && "bool"@[3] == 'l');
    assert("i8"@.len() == 2 && "i8"@[0] == 'i' && "i8"@[1] == '8');
    assert("i16"@.len() == 3 && "i16"@[0] == 'i' && "i16"@[1] == '1' && "i16"@[2] == '6');
    assert("i32"@.len() == 3 && "i32"@[0] == 'i' && "i32"@[1] == '3' && "i32"@[2] == '2');
    assert("i64"@.len() == 3 && "i64"@[0] == 'i' && "i64"@[1] == '6' && "i64"@[2] == '4');
    assert("i128"@.len() == 4 && "i128"@[0] == 'i' && "i128"@[1] == '1' && "i128"@[2] == '2' && "i128"@[3] == '8');
    assert("isize"@.len() == 5 && "isize"@[0] == 'i' && "isize"@[1] == 's' && "isize"@[2] == 'i' && "isize"@[3] == 'z' && "isize"@[4] == 'e');
    assert("u8"@.len() == 2 && "u8"@[0] == 'u' && "u8"@[1] == '8');
    assert("u16"@.len() == 3 && "u16"@[0] == 'u' && "u16"@[1] == '1' && "u16"@[2] == '6');
    assert("u32"@.len() == 3 && "u32"@[0] == 'u' && "u32"@[1] == '3' && "u32"@[2] == '2');
    assert("u64"@.len() == 3 && "u64"@[0] == 'u' && "u64"@[1] == '6' && "u64"@[2] == '4');
    assert("u128"@.len() == 4 && "u128"@[0] == 'u' && "u128"@[1] == '1' && "u128"@[2] == '2' && "u128"@[3] == '8');
    assert("usize"@.len() == 5 && "usize"@[0] == 'u' && "usize"@[1] == 's' && "usize"@[2] == 'i' && "usize"@[3] == 'z' && "usize"@[4] == 'e');
    assert("f32"@.len() == 3 && "f32"@[0] == 'f' && "f32"@[1] == '3' && "f32"@[2] == '2');
    assert("f64"@.len() == 3 && "f64"@[0] == 'f' && "f64"@[1] == '6' && "f64"@[2] == '4');
    assert("Value"@.len() == 5 && "Value"@[0] == 'V' && "Value"@[1] == 'a' && "Value"@[2] == 'l' && "Value"@[3] == 'u' && "Value"@[4] == 'e');
    assert("JsAny"@.len() == 5 && "JsAny"@[0] == 'J' && "JsAny"@[1] == 's' && "JsAny"@[2] == 'A' && "JsAny"@[3] == 'n' && "JsAny"@[4] == 'y');
    assert("JsObject"@.len() == 8 && "JsObject"@[0] == 'J' && "JsObject"@[1] == 's' && "JsObject"@[2] == 'O' && "JsObject"@[3] == 'b' && "JsObject"@[4] == 'j' && "JsObject"@[5] == 'e' && "JsObject"@[6] == 'c' && "JsObject"@[7] == 't');
    assert("JsNever"@.len() == 7 && "JsNever"@[0] == 'J' && "JsNever"@[1] == 's' && "JsNever"@[2] == 'N' && "JsNever"@[3] == 'e' && "JsNever"@[4] == 'v' && "JsNever"@[5] == 'e' && "JsNever"@[6] == 'r');
    assert("Vec"@.len() == 3 && "Vec"@[0] == 'V' && "Vec"@[1] == 'e' && "Vec"@[2] == 'c');
    assert("Option"@.len() == 6 && "Option"@[0] == 'O' && "Option"@[1] == 'p' && "Option"@[2] == 't' && "Option"@[3] == 'i' && "Option"@[4] == 'o' && "Option"@[5] == 'n');
    assert("JsUndefined"@.len() == 11 && "JsUndefined"@[0] == 'J' && "JsUndefined"@[1] == 's' && "JsUndefined"@[2] == 'U' && "JsUndefined"@[3] == 'n' && "JsUndefined"@[4] == 'd' && "JsUndefined"@[5] == 'e' && "JsUndefined"@[6] == 'f' && "JsUndefined"@[7] == 'i' && "JsUndefined"@[8] == 'n' && "JsUndefined"@[9] == 'e' && "JsUndefined"@[10] == 'd');
    assert("JsOptional"@.len() == 10 && "JsOptional"@[0] == 'J' && "JsOptional"@[1] == 's' && "JsOptional"@[2] == 'O' && "JsOptional"@[3] == 'p' && "JsOptional"@[4] == 't' && "JsOptional"@[5] == 'i' && "JsOptional"@[6] == 'o' && "JsOptional"@[7] == 'n' && "JsOptional"@[8] == 'a' && "JsOptional"@[9] == 'l');
    assert("JsNullable"@.len() == 10 && "JsNullable"@[0] == 'J' && "JsNullable"@[1] == 's' && "JsNullable"@[2] == 'N' && "JsNullable"@[3] == 'u' && "JsNullable"@[4] == 'l' && "JsNullable"@[5] == 'l' && "JsNullable"@[6] == 'a' && "JsNullable"@[7] == 'b' && "JsNullable"@[8] == 'l' && "JsNullable"@[9] == 'e');
    assert("JsFuture"@.len() == 8 && "JsFuture"@[0] == 'J' && "JsFuture"@[1] == 's' && "JsFuture"@[2] == 'F' && "JsFuture"@[3] == 'u' && "JsFuture"@[4] == 't' && "JsFuture"@[5] == 'u' && "JsFuture"@[6] == 'r' && "JsFuture"@[7] == 'e');
    assert("Arc"@.len() == 3 && "Arc"@[0] == 'A' && "Arc"@[1] == 'r' && "Arc"@[2] == 'c');
    assert("Box"@.len() == 3 && "Box"@[0] == 'B' && "Box"@[1] == 'o' && "Box"@[2] == 'x');
    assert("Pin"@.len() == 3 && "Pin"@[0] == 'P' && "Pin"@[1] == 'i' && "Pin"@[2] == 'n');
    assert("PhantomData"@.len() == 11 && "PhantomData"@[0] == 'P' && "PhantomData"@[1] == 'h' && "PhantomData"@[2] == 'a' && "PhantomData"@[3] == 'n' && "PhantomData"@[4] == 't' && "PhantomData"@[5] == 'o' && "PhantomData"@[6] == 'm' && "PhantomData"@[7] == 'D' && "PhantomData"@[8] == 'a' && "PhantomData"@[9] == 't' && "PhantomData"@[10] == 'a');
    assert("BTreeMap"@.len() == 8 && "BTreeMap"@[0] == 'B' && "BTreeMap"@[1] == 'T' && "BTreeMap"@[2] == 'r' && "BTreeMap"@[3] == 'e' && "BTreeMap"@[4] == 'e' && "BTreeMap"@[5] == 'M' && "BTreeMap"@[6] == 'a' && "BTreeMap"@[7] == 'p');
    assert("HashMap"@.len() == 7 && "HashMap"@[0] == 'H' && "HashMap"@[1] == 'a' && "HashMap"@[2] == 's' && "HashMap"@[3] == 'h' && "HashMap"@[4] == 'M' && "HashMap"@[5] == 'a' && "HashMap"@[6] == 'p');
    assert("JsTypeIndex"@.len() == 11 && "JsTypeIndex"@[0] == 'J' && "JsTypeIndex"@[1] == 's' && "JsTypeIndex"@[2] == 'T' && "JsTypeIndex"@[3] == 'y' && "JsTypeIndex"@[4] == 'p' && "JsTypeIndex"@[5] == 'e' && "JsTypeIndex"@[6] == 'I' && "JsTypeIndex"@[7] == 'n' && "JsTypeIndex"@[8] == 'd' && "JsTypeIndex"@[9] == 'e' && "JsTypeIndex"@[10] == 'x');
    assert(scalar_form("Vec"@) is None);
    assert(wrapper_arity("Vec"@) == 1);
    if t is Path && t->Path_1@.len() >= 1 && t->Path_1@[0] == RustTypeArgument::Type(u) {
        assert(argument_out(t->Path_1@, 0, ctx, imp) == type_out(u, ctx, imp));
    }
}

/// `Option<T>` and `JsUndefined<T>` are written as `T | undefined`,
/// `JsOptional<T>` as `T | null | undefined` and `JsNullable<T>` as
/// `T | null`, after writing `T`.
pub proof fn law_optional_wrappers(t: RustType, u: RustType, ctx: FormContext, imp: Seq<(Seq<char>, Seq<Seq<char>>)>)
    ensures
        (t is Path && t->Path_0@ == "Option"@ && t->Path_1@.len() >= 1 && t->Path_1@[0] == RustTypeArgument::Type(u))
            ==> type_out(t, ctx, imp) == (type_out(u, ctx, imp).0 + " | undefined"@, type_out(u, ctx, imp).1),
        (t is Path && t->Path_0@ == "JsUndefined"@ && t->Path_1@.len() >= 1 && t->Path_1@[0] == RustTypeArgument::Type(u))
            ==> type_out(t, ctx, imp) == (type_out(u, ctx, imp).0 + " | undefined"@, type_out(u, ctx, imp).1),
        (t is Path && t->Path_0@ == "JsOptional"@ && t->Path_1@.len() >= 1 && t->Path_1@[0] == RustTypeArgument::Type(u))
            ==> type_out(t, ctx, imp) == (type_out(u, ctx, imp).0 + " | null | undefined"@, type_out(u, ctx, imp).1),
        (t is Path && t->Path_0@ == "JsNullable"@ && t->Path_1@.len() >= 1 && t->Path_1@[0] == RustTypeArgument::Type(u))
            ==> type_out(t, ctx, imp) == (type_out(u, ctx, imp).0 + " | null"@, type_out(u, ctx, imp).1),
{
    reveal_strlit("String");
    reveal_strlit("str");
    reveal_strlit("JsDate");
    reveal_strlit("bool");
    reveal_strlit("i8");
    reveal_strlit("i16");
    reveal_strlit("i32");
    reveal_strlit("i64");
    reveal_strlit("i128");
    reveal_strlit("isize");
    reveal_strlit("u8");
    reveal_strlit("u16");
    reveal_strlit("u32");
    reveal_strlit("u64");
    reveal_strlit("u128");
    reveal_strlit("usize");
    reveal_strlit("f32");
    reveal_strlit("f64");
    reveal_strlit("Value");
    reveal_strlit("JsAny");
    reveal_strlit("JsObject");
    reveal_strlit("JsNever");
    reveal_strlit("Vec");
    reveal_strlit("Option");
    reveal_strlit("JsUndefined");
    reveal_strlit("JsOptional");
    reveal_strlit("JsNullable");
    reveal_strlit("JsFuture");
    reveal_strlit("Arc");
    reveal_strlit("Box");
    reveal_strlit("Pin");
    reveal_strlit("PhantomData");
    reveal_strlit("BTreeMap");
    reveal_strlit("HashMap");
    reveal_strlit("JsTypeIndex");
    assert("String"@.len() == 6 && "String"@[0] == 'S' && "String"@[1] == 't' && "String"@[2] == 'r' && "String"@[3] == 'i' && "String"@[4] == 'n' && "String"@[5] == 'g');
    assert("str"@.len() == 3 && "str"@[0] == 's' && "str"@[1] == 't' && "str"@[2] == 'r');
    assert("JsDate"@.len() == 6 && "JsDate"@[0] == 'J' && "JsDate"@[1] == 's' && "JsDate"@[2] == 'D' && "JsDate"@[3] == 'a' && "JsDate"@[4] == 't' && "JsDate"@[5] == 'e');
    assert("bool"@.len() == 4 && "bool"@[0] == 'b' && "bool"@[1] == 'o' && "bool"@[2] == 'o' && "bool"@[3] == 'l');
    assert("i8"@.len() == 2 && "i8"@[0] == 'i' && "i8"@[1] == '8');
    assert("i16"@.len() == 3 && "i16"@[0] == 'i' && "i16"@[1] == '1' && "i16"@[2] == '6');
    assert("i32"@.len() == 3 && "i32"@[0] == 'i' && "i32"@[1] == '3' && "i32"@[2] == '2');
    assert("i64"@.len() == 3 && "i64"@[0] == 'i' && "i64"@[1] == '6' && "i64"@[2] == '4');
    assert("i128"@.len() == 4 && "i128"@[0] == 'i' && "i128"@[1] == '1' && "i128"@[2] == '2' && "i128"@[3] == '8');
    assert("isize"@.len() == 5 && "isize"@[0] == 'i' && "isize"@[1] == 's' && "isize"@[2] == 'i' && "isize"@[3] == 'z' && "isize"@[4] == 'e');
    assert("u8"@.len() == 2 && "u8"@[0] == 'u' && "u8"@[1] == '8');
    assert("u16"@.len() == 3 && "u16"@[0] == 'u' && "u16"@[1] == '1' && "u16"@[2] == '6');
    assert("u32"@.len() == 3 && "u32"@[0] == 'u' && "u32"@[1] == '3' && "u32"@[2] == '2');
    assert("u64"@.len() == 3 && "u64"@[0] == 'u' && "u64"@[1] == '6' && "u64"@[2] == '4');
    assert("u128"@.len() == 4 && "u128"@[0] == 'u' && "u128"@[1] == '1' && "u128"@[2] == '2' && "u128"@[3] == '8');
    assert("usize"@.len() == 5 && "usize"@[0] == 'u' && "usize"@[1] == 's' && "usize"@[2] == 'i' && "usize"@[3] == 'z' && "usize"@[4] == 'e');
    assert("f32"@.len() == 3 && "f32"@[0] == 'f' && "f32"@[1] == '3' && "f32"@[2] == '2');
    assert("f64"@.len() == 3 && "f64"@[0] == 'f' && "f64"@[1] == '6' && "f64"@[2] == '4');
    assert("Value"@.len() == 5 && "Value"@[0] == 'V' && "Value"@[1] == 'a' && "Value"@[2] == 'l' && "Value"@[3] == 'u' && "Value"@[4] == 'e');
    assert("JsAny"@.len() == 5 && "JsAny"@[0] == 'J' && "JsAny"@[1] == 's' && "JsAny"@[2] == 'A' && "JsAny"@[3] == 'n' && "JsAny"@[4] == 'y');
    assert("JsObject"@.len() == 8 && "JsObject"@[0] == 'J' && "JsObject"@[1] == 's' && "JsObject"@[2] == 'O' && "JsObject"@[3] == 'b' && "JsObject"@[4] == 'j' && "JsObject"@[5] == 'e' && "JsObject"@[6] == 'c' && "JsObject"@[7] == 't');
    assert("JsNever"@.len() == 7 && "JsNever"@[0] == 'J' && "JsNever"@[1] == 's' && "JsNever"@[2] == 'N' && "JsNever"@[3] == 'e' && "JsNever"@[4] == 'v' && "JsNever"@[5] == 'e' && "JsNever"@[6] == 'r');
    assert("Vec"@.len() == 3 && "Vec"@[0] == 'V' && "Vec"@[1] == 'e' && "Vec"@[2] == 'c');
    assert("Option"@.len() == 6 && "Option"@[0] == 'O' && "Option"@[1] == 'p' && "Option"@[2] == 't' && "Option"@[3] == 'i' && "Option"@[4] == 'o' && "Option"@[5] == 'n');
    assert("JsUndefined"@.len() == 11 && "JsUndefined"@[0] == 'J' && "JsUndefined"@[1] == 's' && "JsUndefined"@[2] == 'U' && "JsUndefined"@[3] == 'n' && "JsUndefined"@[4] == 'd' && "JsUndefined"@[5] == 'e' && "JsUndefined"@[6] == 'f' && "JsUndefined"@[7] == 'i' && "JsUndefined"@[8] == 'n' && "JsUndefined"@[9] == 'e' && "JsUndefined"@[10] == 'd');
    assert("JsOptional"@.len() == 10 && "JsOptional"@[0] == 'J' && "JsOptional"@[1] == 's' && "JsOptional"@[2] == 'O' && "JsOptional"@[3] == 'p' && "JsOptional"@[4] == 't' && "JsOptional"@[5] == 'i' && "JsOptional"@[6] == 'o' && "JsOptional"@[7] == 'n' && "JsOptional"@[8] == 'a' && "JsOptional"@[9] == 'l');
    assert("JsNullable"@.len() == 10 && "JsNullable"@[0] == 'J' && "JsNullable"@[1] == 's' && "JsNullable"@[2] == 'N' && "JsNullable"@[3] == 'u' && "JsNullable"@[4] == 'l' && "JsNullable"@[5] == 'l' && "JsNullable"@[6] == 'a' && "JsNullable"@[7] == 'b' && "JsNullable"@[8] == 'l' && "JsNullable"@[9] == 'e');
    assert("JsFuture"@.len() == 8 && "JsFuture"@[0] == 'J' && "JsFuture"@[1] == 's' && "JsFuture"@[2] == 'F' && "JsFuture"@[3] == 'u' && "JsFuture"@[4] == 't' && "JsFuture"@[5] == 'u' && "JsFuture"@[6] == 'r' && "JsFuture"@[7] == 'e');
    assert("Arc"@.len() == 3 && "Arc"@[0] == 'A' && "Arc"@[1] == 'r' && "Arc"@[2] == 'c');
    assert("Box"@.len() == 3 && "Box"@[0] == 'B' && "Box"@[1] == 'o' && "Box"@[2] == 'x');
    assert("Pin"@.len() == 3 && "Pin"@[0] == 'P' && "Pin"@[1] == 'i' && "Pin"@[2] == 'n');
    assert("PhantomData"@.len() == 11 && "PhantomData"@[0] == 'P' && "PhantomData"@[1] == 'h' && "PhantomData"@[2] == 'a' && "PhantomData"@[3] == 'n' && "PhantomData"@[4] == 't' && "PhantomData"@[5] == 'o' && "PhantomData"@[6] == 'm' && "PhantomData"@[7] == 'D' && "PhantomData"@[8] == 'a' && "PhantomData"@[9] == 't' && "PhantomData"@[10] == 'a');
    assert("BTreeMap"@.len() == 8 && "BTreeMap"@[0] == 'B' && "BTreeMap"@[1] == 'T' && "BTreeMap"@[2] == 'r' && "BTreeMap"@[3] == 'e' && "BTreeMap"@[4] == 'e' && "BTreeMap"@[5] == 'M' && "BTreeMap"@[6] == 'a' && "BTreeMap"@[7] == 'p');
    assert("HashMap"@.len() == 7 && "HashMap"@[0] == 'H' && "HashMap"@[1] == 'a' && "HashMap"@[2] == 's' && "HashMap"@[3] == 'h' && "HashMap"@[4] == 'M' && "HashMap"@[5] == 'a' && "HashMap"@[6] == 'p');
    assert("JsTypeIndex"@.len() == 11 && "JsTypeIndex"@[0] == 'J' && "JsTypeIndex"@[1] == 's' && "JsTypeIndex"@[2] == 'T' && "JsTypeIndex"@[3] == 'y' && "JsTypeIndex"@[4] == 'p' && "JsTypeIndex"@[5] == 'e' && "JsTypeIndex"@[6] == 'I' && "JsTypeIndex"@[7] == 'n' && "JsTypeIndex"@[8] == 'd' && "JsTypeIndex"@[9] == 'e' && "JsTypeIndex"@[10] == 'x');
    assert(scalar_form("Option"@) is None);
    assert(wrapper_arity("Option"@) == 1);
    assert(scalar_form("JsUndefined"@) is None);
    assert(wrapper_arity("JsUndefined"@) == 1);
    assert(scalar_form("JsOptional"@) is None);
    assert(wrapper_arity("JsOptional"@) == 1);
    assert(scalar_form("JsNullable"@) is None);
    assert(wrapper_arity("JsNullable"@) == 1);
    if t is Path && t->Path_1@.len() >= 1 && t->Path_1@[0] == RustTypeArgument::Type(u) {
        assert(argument_out(t->Path_1@, 0, ctx, imp) == type_out(u, ctx, imp));
    }
}

/// `JsFuture<T>` is written as `Promise<T>`; `Arc`, `Box`, `Pin` and
/// `PhantomData` of `T` as `T` itself.
pub proof fn law_future_and_pointer_wrappers(t: RustType, u: RustType, ctx: FormContext, imp: Seq<(Seq<char>, Seq<Seq<char>>)>)
    ensures
        (t is Path && t->Path_0@ == "JsFuture"@ && t->Path_1@.len() >= 1 && t->Path_1@[0] == RustTypeArgument::Type(u))
            ==> type_out(t, ctx, imp) == ("Promise<"@ + type_out(u, ctx, imp).0 + ">"@, type_out(u, ctx, imp).1),
        (t is Path && t->Path_0@ == "Arc"@ && t->Path_1@.len() >= 1 && t->Path_1@[0] == RustTypeArgument::Type(u))
            ==> type_out(t, ctx, imp) == (type_out(u, ctx, imp).0, type_out(u, ctx, imp).1),
        (t is Path && t->Path_0@ == "Box"@ && t->Path_1@.len() >= 1 && t->Path_1@[0] == RustTypeArgument::Type(u))
            ==> type_out(t, ctx, imp) == (type_out(u, ctx, imp).0, type_out(u, ctx, imp).1),
        (t is Path && t->Path_0@ == "Pin"@ && t->Path_1@.len() >= 1 && t->Path_1@[0] == RustTypeArgument::Type(u))
            ==> type_out(t, ctx, imp) == (type_out(u, ctx, imp).0, type_out(u, ctx, imp).1),
        (t is Path && t->Path_0@ == "PhantomData"@ && t->Path_1@.len() >= 1 && t->Path_1@[0] == RustTypeArgument::Type(u))
            ==> type_out(t, ctx, imp) == (type_out(u, ctx, imp).0, type_out(u, ctx, imp).1),
{
    reveal_strlit("String");
    reveal_strlit("str");
    reveal_strlit("JsDate");
    reveal_strlit("bool");
    reveal_strlit("i8");
    reveal_strlit("i16");
    reveal_strlit("i32");
    reveal_strlit("i64");
    reveal_strlit("i128");
    reveal_strlit("isize");
    reveal_strlit("u8");
    reveal_strlit("u16");
    reveal_strlit("u32");
    reveal_strlit("u64");
    reveal_strlit("u128");
    reveal_strlit("usize");
    reveal_strlit("f32");
    reveal_strlit("f64");
    reveal_strlit("Value");
    reveal_strlit("JsAny");
    reveal_strlit("JsObject");
    reveal_strlit("JsNever");
    reveal_strlit("Vec");
    reveal_strlit("Option");
    reveal_strlit("JsUndefined");
    reveal_strlit("JsOptional");
    reveal_strlit("JsNullable");
    reveal_strlit("JsFuture");
    reveal_strlit("Arc");
    reveal_strlit("Box");
    reveal_strlit("Pin");
    reveal_strlit("PhantomData");
    reveal_strlit("BTreeMap");
    reveal_strlit("HashMap");
    reveal_strlit("JsTypeIndex");
    assert("String"@.len() == 6 && "String"@[0] == 'S' && "String"@[1] == 't' && "String"@[2] == 'r' && "String"@[3] == 'i' && "String"@[4] == 'n' && "String"@[5] == 'g');
    assert("str"@.len() == 3 && "str"@[0] == 's' && "str"@[1] == 't' && "str"@[2] == 'r');
    assert("JsDate"@.len() == 6 && "JsDate"@[0] == 'J' && "JsDate"@[1] == 's' && "JsDate"@[2] == 'D' && "JsDate"@[3] == 'a' && "JsDate"@[4] == 't' && "JsDate"@[5] == 'e');
    assert("bool"@.len() == 4 && "bool"@[0] == 'b' && "bool"@[1] == 'o' && "bool"@[2] == 'o' && "bool"@[3] == 'l');
    assert("i8"@.len() == 2 && "i8"@[0] == 'i' && "i8"@[1] == '8');
    assert("i16"@.len() == 3 && "i16"@[0] == 'i' && "i16"@[1] == '1' && "i16"@[2] == '6');
    assert("i32"@.len() == 3 && "i32"@[0] == 'i' && "i32"@[1] == '3' && "i32"@[2] == '2');
    assert("i64"@.len() == 3 && "i64"@[0] == 'i' && "i64"@[1] == '6' && "i64"@[2] == '4');
    assert("i128"@.len() == 4 && "i128"@[0] == 'i' && "i128"@[1] == '1' && "i128"@[2] == '2' && "i128"@[3] == '8');
    assert("isize"@.len() == 5 && "isize"@[0] == 'i' && "isize"@[1] == 's' && "isize"@[2] == 'i' && "isize"@[3] == 'z' && "isize"@[4] == 'e');
    assert("u8"@.len() == 2 && "u8"@[0] == 'u' && "u8"@[1] == '8');
    assert("u16"@.len() == 3 && "u16"@[0] == 'u' && "u16"@[1] == '1' && "u16"@[2] == '6');
    assert("u32"@.len() == 3 && "u32"@[0] == 'u' && "u32"@[1] == '3' && "u32"@[2] == '2');
    assert("u64"@.len() == 3 && "u64"@[0] == 'u' && "u64"@[1] == '6' && "u64"@[2] == '4');
    assert("u128"@.len() == 4 && "u128"@[0] == 'u' && "u128"@[1] == '1' && "u128"@[2] == '2' && "u128"@[3] == '8');
    assert("usize"@.len() == 5 && "usize"@[0] == 'u' && "usize"@[1] == 's' && "usize"@[2] == 'i' && "usize"@[3] == 'z' && "usize"@[4] == 'e');
    assert("f32"@.len() == 3 && "f32"@[0] == 'f' && "f32"@[1] == '3' && "f32"@[2] == '2');
    assert("f64"@.len() == 3 && "f64"@[0] == 'f' && "f64"@[1] == '6' && "f64"@[2] == '4');
    assert("Value"@.len() == 5 && "Value"@[0] == 'V' && "Value"@[1] == 'a' && "Value"@[2] == 'l' && "Value"@[3] == 'u' && "Value"@[4] == 'e');
    assert("JsAny"@.len() == 5 && "JsAny"@[0] == 'J' && "JsAny"@[1] == 's' && "JsAny"@[2] == 'A' && "JsAny"@[3] == 'n' && "JsAny"@[4] == 'y');
    assert("JsObject"@.len() == 8 && "JsObject"@[0] == 'J' && "JsObject"@[1] == 's' && "JsObject"@[2] == 'O' && "JsObject"@[3] == 'b' && "JsObject"@[4] == 'j' && "JsObject"@[5] == 'e' && "JsObject"@[6] == 'c' && "JsObject"@[7] == 't');
    assert("JsNever"@.len() == 7 && "JsNever"@[0] == 'J' && "JsNever"@[1] == 's' && "JsNever"@[2] == 'N' && "JsNever"@[3] == 'e' && "JsNever"@[4] == 'v' && "JsNever"@[5] == 'e' && "JsNever"@[6] == 'r');
    assert("Vec"@.len() == 3 && "Vec"@[0] == 'V' && "Vec"@[1] == 'e' && "Vec"@[2] == 'c');
    assert("Option"@.len() == 6 && "Option"@[0] == 'O' && "Option"@[1] == 'p' && "Option"@[2] == 't' && "Option"@[3] == 'i' && "Option"@[4] == 'o' && "Option"@[5] == 'n');
    assert("JsUndefined"@.len() == 11 && "JsUndefined"@[0] == 'J' && "JsUndefined"@[1] == 's' && "JsUndefined"@[2] == 'U' && "JsUndefined"@[3] == 'n' && "JsUndefined"@[4] == 'd' && "JsUndefined"@[5] == 'e' && "JsUndefined"@[6] == 'f' && "JsUndefined"@[7] == 'i' && "JsUndefined"@[8] == 'n' && "JsUndefined"@[9] == 'e' && "JsUndefined"@[10] == 'd');
    assert("JsOptional"@.len() == 10 && "JsOptional"@[0] == 'J' && "JsOptional"@[1] == 's' && "JsOptional"@[2] == 'O' && "JsOptional"@[3] == 'p' && "JsOptional"@[4] == 't' && "JsOptional"@[5] == 'i' && "JsOptional"@[6] == 'o' && "JsOptional"@[7] == 'n' && "JsOptional"@[8] == 'a' && "JsOptional"@[9] == 'l');
    assert("JsNullable"@.len() == 10 && "JsNullable"@[0] == 'J' && "JsNullable"@[1] == 's' && "JsNullable"@[2] == 'N' && "JsNullable"@[3] == 'u' && "JsNullable"@[4] == 'l' && "JsNullable"@[5] == 'l' && "JsNullable"@[6] == 'a' && "JsNullable"@[7] == 'b' && "JsNullable"@[8] == 'l' && "JsNullable"@[9] == 'e');
    assert("JsFuture"@.len() == 8 && "JsFuture"@[0] == 'J' && "JsFuture"@[1] == 's' && "JsFuture"@[2] == 'F' && "JsFuture"@[3] == 'u' && "JsFuture"@[4] == 't' && "JsFuture"@[5] == 'u' && "JsFuture"@[6] == 'r' && "JsFuture"@[7] == 'e');
    assert("Arc"@.len() == 3 && "Arc"@[0] == 'A' && "Arc"@[1] == 'r' && "Arc"@[2] == 'c');
    assert("Box"@.len() == 3 && "Box"@[0] == 'B' && "Box"@[1] == 'o' && "Box"@[2] == 'x');
    assert("Pin"@.len() == 3 && "Pin"@[0] == 'P' && "Pin"@[1] == 'i' && "Pin"@[2] == 'n');
    assert("PhantomData"@.len() == 11 && "PhantomData"@[0] == 'P' && "PhantomData"@[1] == 'h' && "PhantomData"@[2] == 'a' && "PhantomData"@[3] == 'n' && "PhantomData"@[4] == 't' && "PhantomData"@[5] == 'o' && "PhantomData"@[6] == 'm' && "PhantomData"@[7] == 'D' && "PhantomData"@[8] == 'a' && "PhantomData"@[9] == 't' && "PhantomData"@[10] == 'a');
    assert("BTreeMap"@.len() == 8 && "BTreeMap"@[0] == 'B' && "BTreeMap"@[1] == 'T' && "BTreeMap"@[2] == 'r' && "BTreeMap"@[3] == 'e' && "BTreeMap"@[4] == 'e' && "BTreeMap"@[5] == 'M' && "BTreeMap"@[6] == 'a' && "BTreeMap"@[7] == 'p');
    assert("HashMap"@.len() == 7 && "HashMap"@[0] == 'H' && "HashMap"@[1] == 'a' && "HashMap"@[2] == 's' && "HashMap"@[3] == 'h' && "HashMap"@[4] == 'M' && "HashMap"@[5] == 'a' && "HashMap"@[6] == 'p');
    assert("JsTypeIndex"@.len() == 11 && "JsTypeIndex"@[0] == 'J' && "JsTypeIndex"@[1] == 's' && "JsTypeIndex"@[2] == 'T' && "JsTypeIndex"@[3] == 'y' && "JsTypeIndex"@[4] == 'p' && "JsTypeIndex"@[5] == 'e' && "JsTypeIndex"@[6] == 'I' && "JsTypeIndex"@[7] == 'n' && "JsTypeIndex"@[8] == 'd' && "JsTypeIndex"@[9] == 'e' && "JsTypeIndex"@[10] == 'x');
    assert(scalar_form("JsFuture"@) is None);
    assert(wrapper_arity("JsFuture"@) == 1);
    assert(scalar_form("Arc"@) is None);
    assert(wrapper_arity("Arc"@) == 1);
    assert(scalar_form("Box"@) is None);
    assert(wrapper_arity("Box"@) == 1);
    assert(scalar_form("Pin"@) is None);
    assert(wrapper_arity("Pin"@) == 1);
    assert(scalar_form("PhantomData"@) is None);
    assert(wrapper_arity("PhantomData"@) == 1);
    if t is Path && t->Path_1@.len() >= 1 && t->Path_1@[0] == RustTypeArgument::Type(u) {
        assert(argument_out(t->Path_1@, 0, ctx, imp) == type_out(u, ctx, imp));
    }
}

/// `HashMap<K, V>` and `BTreeMap<K, V>` are written as `Record<K, V>`,
/// writing `K` and then `V`.
pub proof fn law_maps_are_records(t: RustType, u: RustType, v: RustType, ctx: FormContext, imp: Seq<(Seq<char>, Seq<Seq<char>>)>)
    ensures
        (t is Path && t->Path_0@ == "HashMap"@ && t->Path_1@.len() >= 2 && t->Path_1@[0] == RustTypeArgument::Type(u)
            && t->Path_1@[1] == RustTypeArgument::Type(v))
            ==> type_out(t, ctx, imp) == ("Record<"@ + type_out(u, ctx, imp).0 + ", "@ + type_out(v, ctx, type_out(u, ctx, imp).1).0 + ">"@, type_out(v, ctx, type_out(u, ctx, imp).1).1),
        (t is Path && t->Path_0@ == "BTreeMap"@ && t->Path_1@.len() >= 2 && t->Path_1@[0] == RustTypeArgument::Type(u)
            && t->Path_1@[1] == RustTypeArgument::Type(v))
            ==> type_out(t, ctx, imp) == ("Record<"@ + type_out(u, ctx, imp).0 + ", "@ + type_out(v, ctx, type_out(u, ctx, imp).1).0 + ">"@, type_out(v, ctx, type_out(u, ctx, imp).1).1),
{
    reveal_strlit("String");
    reveal_strlit("str");
    reveal_strlit("JsDate");
    reveal_strlit("bool");
    reveal_strlit("i8");
    reveal_strlit("i16");
    reveal_strlit("i32");
    reveal_strlit("i64");
    reveal_strlit("i128");
    reveal_strlit("isize");
    reveal_strlit("u8");
    reveal_strlit("u16");
    reveal_strlit("u32");
    reveal_strlit("u64");
    reveal_strlit("u128");
    reveal_strlit("usize");
    reveal_strlit("f32");
    reveal_strlit("f64");
    reveal_strlit("Value");
    reveal_strlit("JsAny");
    reveal_strlit("JsObject");
    reveal_strlit("JsNever");
    reveal_strlit("Vec");
    reveal_strlit("Option");
    reveal_strlit("JsUndefined");
    reveal_strlit("JsOptional");
    reveal_strlit("JsNullable");
    reveal_strlit("JsFuture");
    reveal_strlit("Arc");
    reveal_strlit("Box");
    reveal_strlit("Pin");
    reveal_strlit("PhantomData");
    reveal_strlit("BTreeMap");
    reveal_strlit("HashMap");
    reveal_strlit("JsTypeIndex");
    assert("String"@.len() == 6 && "String"@[0] == 'S' && "String"@[1] == 't' && "String"@[2] == 'r' && "String"@[3] == 'i' && "String"@[4] == 'n' && "String"@[5] == 'g');
    assert("str"@.len() == 3 && "str"@[0] == 's' && "str"@[1] == 't' && "str"@[2] == 'r');
    assert("JsDate"@.len() == 6 && "JsDate"@[0] == 'J' && "JsDate"@[1] == 's' && "JsDate"@[2] == 'D' && "JsDate"@[3] == 'a' && "JsDate"@[4] == 't' && "JsDate"@[5] == 'e');
    assert("bool"@.len() == 4 && "bool"@[0] == 'b' && "bool"@[1] == 'o' && "bool"@[2] == 'o' && "bool"@[3] == 'l');
    assert("i8"@.len() == 2 && "i8"@[0] == 'i' && "i8"@[1] == '8');
    assert("i16"@.len() == 3 && "i16"@[0] == 'i' && "i16"@[1] == '1' && "i16"@[2] == '6');
    assert("i32"@.len() == 3 && "i32"@[0] == 'i' && "i32"@[1] == '3' && "i32"@[2] == '2');
    assert("i64"@.len() == 3 && "i64"@[0] == 'i' && "i64"@[1] == '6' && "i64"@[2] == '4');
    assert("i128"@.len() == 4 && "i128"@[0] == 'i' && "i128"@[1] == '1' && "i128"@[2] == '2' && "i128"@[3] == '8');
    assert("isize"@.len() == 5 && "isize"@[0] == 'i' && "isize"@[1] == 's' && "isize"@[2] == 'i' && "isize"@[3] == 'z' && "isize"@[4] == 'e');
    assert("u8"@.len() == 2 && "u8"@[0] == 'u' && "u8"@[1] == '8');
    assert("u16"@.len() == 3 && "u16"@[0] == 'u' && "u16"@[1] == '1' && "u16"@[2] == '6');
    assert("u32"@.len() == 3 && "u32"@[0] == 'u' && "u32"@[1] == '3' && "u32"@[2] == '2');
    assert("u64"@.len() == 3 && "u64"@[0] == 'u' && "u64"@[1] == '6' && "u64"@[2] == '4');
    assert("u128"@.len() == 4 && "u128"@[0] == 'u' && "u128"@[1] == '1' && "u128"@[2] == '2' && "u128"@[3] == '8');
    assert("usize"@.len() == 5 && "usize"@[0] == 'u' && "usize"@[1] == 's' && "usize"@[2] == 'i' && "usize"@[3] == 'z' && "usize"@[4] == 'e');
    assert("f32"@.len() == 3 && "f32"@[0] == 'f' && "f32"@[1] == '3' && "f32"@[2] == '2');
    assert("f64"@.len() == 3 && "f64"@[0] == 'f' && "f64"@[1] == '6' && "f64"@[2] == '4');
    assert("Value"@.len() == 5 && "Value"@[0] == 'V' && "Value"@[1] == 'a' && "Value"@[2] == 'l' && "Value"@[3] == 'u' && "Value"@[4] == 'e');
    assert("JsAny"@.len() == 5 && "JsAny"@[0] == 'J' && "JsAny"@[1] == 's' && "JsAny"@[2] == 'A' && "JsAny"@[3] == 'n' && "JsAny"@[4] == 'y');
    assert("JsObject"@.len() == 8 && "JsObject"@[0] == 'J' && "JsObject"@[1] == 's' && "JsObject"@[2] == 'O' && "JsObject"@[3] == 'b' && "JsObject"@[4] == 'j' && "JsObject"@[5] == 'e' && "JsObject"@[6] == 'c' && "JsObject"@[7] == 't');
    assert("JsNever"@.len() == 7 && "JsNever"@[0] == 'J' && "JsNever"@[1] == 's' && "JsNever"@[2] == 'N' && "JsNever"@[3] == 'e' && "JsNever"@[4] == 'v' && "JsNever"@[5] == 'e' && "JsNever"@[6] == 'r');
    assert("Vec"@.len() == 3 && "Vec"@[0] == 'V' && "Vec"@[1] == 'e' && "Vec"@[2] == 'c');
    assert("Option"@.len() == 6 && "Option"@[0] == 'O' && "Option"@[1] == 'p' && "Option"@[2] == 't' && "Option"@[3] == 'i' && "Option"@[4] == 'o' && "Option"@[5] == 'n');
    assert("JsUndefined"@.len() == 11 && "JsUndefined"@[0] == 'J' && "JsUndefined"@[1] == 's' && "JsUndefined"@[2] == 'U' && "JsUndefined"@[3] == 'n' && "JsUndefined"@[4] == 'd' && "JsUndefined"@[5] == 'e' && "JsUndefined"@[6] == 'f' && "JsUndefined"@[7] == 'i' && "JsUndefined"@[8] == 'n' && "JsUndefined"@[9] == 'e' && "JsUndefined"@[10] == 'd');
    assert("JsOptional"@.len() == 10 && "JsOptional"@[0] == 'J' && "JsOptional"@[1] == 's' && "JsOptional"@[2] == 'O' && "JsOptional"@[3] == 'p' && "JsOptional"@[4] == 't' && "JsOptional"@[5] == 'i' && "JsOptional"@[6] == 'o' && "JsOptional"@[7] == 'n' && "JsOptional"@[8] == 'a' && "JsOptional"@[9] == 'l');
    assert("JsNullable"@.len() == 10 && "JsNullable"@[0] == 'J' && "JsNullable"@[1] == 's' && "JsNullable"@[2] == 'N' && "JsNullable"@[3] == 'u' && "JsNullable"@[4] == 'l' && "JsNullable"@[5] == 'l' && "JsNullable"@[6] == 'a' && "JsNullable"@[7] == 'b' && "JsNullable"@[8] == 'l' && "JsNullable"@[9] == 'e');
    assert("JsFuture"@.len() == 8 && "JsFuture"@[0] == 'J' && "JsFuture"@[1] == 's' && "JsFuture"@[2] == 'F' && "JsFuture"@[3] == 'u' && "JsFuture"@[4] == 't' && "JsFuture"@[5] == 'u' && "JsFuture"@[6] == 'r' && "JsFuture"@[7] == 'e');
    assert("Arc"@.len() == 3 && "Arc"@[0] == 'A' && "Arc"@[1] == 'r' && "Arc"@[2] == 'c');
    assert("Box"@.len() == 3 && "Box"@[0] == 'B' && "Box"@[1] == 'o' && "Box"@[2] == 'x');
    assert("Pin"@.len() == 3 && "Pin"@[0] == 'P' && "Pin"@[1] == 'i' && "Pin"@[2] == 'n');
    assert("PhantomData"@.len() == 11 && "PhantomData"@[0] == 'P' && "PhantomData"@[1] == 'h' && "PhantomData"@[2] == 'a' && "PhantomData"@[3] == 'n' && "PhantomData"@[4] == 't' && "PhantomData"@[5] == 'o' && "PhantomData"@[6] == 'm' && "PhantomData"@[7] == 'D' && "PhantomData"@[8] == 'a' && "PhantomData"@[9] == 't' && "PhantomData"@[10] == 'a');
    assert("BTreeMap"@.len() == 8 && "BTreeMap"@[0] == 'B' && "BTreeMap"@[1] == 'T' && "BTreeMap"@[2] == 'r' && "BTreeMap"@[3] == 'e' && "BTreeMap"@[4] == 'e' && "BTreeMap"@[5] == 'M' && "BTreeMap"@[6] == 'a' && "BTreeMap"@[7] == 'p');
    assert("HashMap"@.len() == 7 && "HashMap"@[0] == 'H' && "HashMap"@[1] == 'a' && "HashMap"@[2] == 's' && "HashMap"@[3] == 'h' && "HashMap"@[4] == 'M' && "HashMap"@[5] == 'a' && "HashMap"@[6] == 'p');
    assert("JsTypeIndex"@.len() == 11 && "JsTypeIndex"@[0] == 'J' && "JsTypeIndex"@[1] == 's' && "JsTypeIndex"@[2] == 'T' && "JsTypeIndex"@[3] == 'y' && "JsTypeIndex"@[4] == 'p' && "JsTypeIndex"@[5] == 'e' && "JsTypeIndex"@[6] == 'I' && "JsTypeIndex"@[7] == 'n' && "JsTypeIndex"@[8] == 'd' && "JsTypeIndex"@[9] == 'e' && "JsTypeIndex"@[10] == 'x');
    assert(scalar_form("HashMap"@) is None);
    assert(wrapper_arity("HashMap"@) == 2);
    assert(scalar_form("BTreeMap"@) is None);
    assert(wrapper_arity("BTreeMap"@) == 2);
    if t is Path && t->Path_1@.len() >= 1 && t->Path_1@[0] == RustTypeArgument::Type(u) {
        assert(argument_out(t->Path_1@, 0, ctx, imp) == type_out(u, ctx, imp));
    }
    if t is Path && t->Path_1@.len() >= 2 && t->Path_1@[1] == RustTypeArgument::Type(v) {
        assert(argument_out(t->Path_1@, 1, ctx, type_out(u, ctx, imp).1) == type_out(v, ctx, type_out(u, ctx, imp).1));
    }
}

/// `JsTypeIndex<M, K>` is written as `M[K & keyof M]`, writing `M` and then
/// `K`.
pub proof fn law_type_index(t: RustType, u: RustType, v: RustType, ctx: FormContext, imp: Seq<(Seq<char>, Seq<Seq<char>>)>)
    ensures
        (t is Path && t->Path_0@ == "JsTypeIndex"@ && t->Path_1@.len() >= 2 && t->Path_1@[0] == RustTypeArgument::Type(u)
            && t->Path_1@[1] == RustTypeArgument::Type(v))
            ==> type_out(t, ctx, imp) == (type_out(u, ctx, imp).0 + "["@ + type_out(v, ctx, type_out(u, ctx, imp).1).0 + " & keyof "@ + type_out(u, ctx, imp).0 + "]"@, type_out(v, ctx, type_out(u, ctx, imp).1).1),
{
    reveal_strlit("String");
    reveal_strlit("str");
    reveal_strlit("JsDate");
    reveal_strlit("bool");
    reveal_strlit("i8");
    reveal_strlit("i16");
    reveal_strlit("i32");
    reveal_strlit("i64");
    reveal_strlit("i128");
    reveal_strlit("isize");
    reveal_strlit("u8");
    reveal_strlit("u16");
    reveal_strlit("u32");
    reveal_strlit("u64");
    reveal_strlit("u128");
    reveal_strlit("usize");
    reveal_strlit("f32");
    reveal_strlit("f64");
    reveal_strlit("Value");
    reveal_strlit("JsAny");
    reveal_strlit("JsObject");
    reveal_strlit("JsNever");
    reveal_strlit("Vec");
    reveal_strlit("Option");
    reveal_strlit("JsUndefined");
    reveal_strlit("JsOptional");
    reveal_strlit("JsNullable");
    reveal_strlit("JsFuture");
    reveal_strlit("Arc");
    reveal_strlit("Box");
    reveal_strlit("Pin");
    reveal_strlit("PhantomData");
    reveal_strlit("BTreeMap");
    reveal_strlit("HashMap");
    reveal_strlit("JsTypeIndex");
    assert("String"@.len() == 6 && "String"@[0] == 'S' && "String"@[1] == 't' && "String"@[2] == 'r' && "String"@[3] == 'i' && "String"@[4] == 'n' && "String"@[5] == 'g');
    assert("str"@.len() == 3 && "str"@[0] == 's' && "str"@[1] == 't' && "str"@[2] == 'r');
    assert("JsDate"@.len() == 6 && "JsDate"@[0] == 'J' && "JsDate"@[1] == 's' && "JsDate"@[2] == 'D' && "JsDate"@[3] == 'a' && "JsDate"@[4] == 't' && "JsDate"@[5] == 'e');
    assert("bool"@.len() == 4 && "bool"@[0] == 'b' && "bool"@[1] == 'o' && "bool"@[2] == 'o' && "bool"@[3] == 'l');
    assert("i8"@.len() == 2 && "i8"@[0] == 'i' && "i8"@[1] == '8');
    assert("i16"@.len() == 3 && "i16"@[0] == 'i' && "i16"@[1] == '1' && "i16"@[2] == '6');
    assert("i32"@.len() == 3 && "i32"@[0] == 'i' && "i32"@[1] == '3' && "i32"@[2] == '2');
    assert("i64"@.len() == 3 && "i64"@[0] == 'i' && "i64"@[1] == '6' && "i64"@[2] == '4');
    assert("i128"@.len() == 4 && "i128"@[0] == 'i' && "i128"@[1] == '1' && "i128"@[2] == '2' && "i128"@[3] == '8');
    assert("isize"@.len() == 5 && "isize"@[0] == 'i' && "isize"@[1] == 's' && "isize"@[2] == 'i' && "isize"@[3] == 'z' && "isize"@[4] == 'e');
    assert("u8"@.len() == 2 && "u8"@[0] == 'u' && "u8"@[1] == '8');
    assert("u16"@.len() == 3 && "u16"@[0] == 'u' && "u16"@[1] == '1' && "u16"@[2] == '6');
    assert("u32"@.len() == 3 && "u32"@[0] == 'u' && "u32"@[1] == '3' && "u32"@[2] == '2');
    assert("u64"@.len() == 3 && "u64"@[0] == 'u' && "u64"@[1] == '6' && "u64"@[2] == '4');
    assert("u128"@.len() == 4 && "u128"@[0] == 'u' && "u128"@[1] == '1' && "u128"@[2] == '2' && "u128"@[3] == '8');
    assert("usize"@.len() == 5 && "usize"@[0] == 'u' && "usize"@[1] == 's' && "usize"@[2] == 'i' && "usize"@[3] == 'z' && "usize"@[4] == 'e');
    assert("f32"@.len() == 3 && "f32"@[0] == 'f' && "f32"@[1] == '3' && "f32"@[2] == '2');
    assert("f64"@.len() == 3 && "f64"@[0] == 'f' && "f64"@[1] == '6' && "f64"@[2] == '4');
    assert("Value"@.len() == 5 && "Value"@[0] == 'V' && "Value"@[1] == 'a' && "Value"@[2] == 'l' && "Value"@[3] == 'u' && "Value"@[4] == 'e');
    assert("JsAny"@.len() == 5 && "JsAny"@[0] == 'J' && "JsAny"@[1] == 's' && "JsAny"@[2] == 'A' && "JsAny"@[3] == 'n' && "JsAny"@[4] == 'y');
    assert("JsObject"@.len() == 8 && "JsObject"@[0] == 'J' && "JsObject"@[1] == 's' && "JsObject"@[2] == 'O' && "JsObject"@[3] == 'b' && "JsObject"@[4] == 'j' && "JsObject"@[5] == 'e' && "JsObject"@[6] == 'c' && "JsObject"@[7] == 't');
    assert("JsNever"@.len() == 7 && "JsNever"@[0] == 'J' && "JsNever"@[1] == 's' && "JsNever"@[2] == 'N' && "JsNever"@[3] == 'e' && "JsNever"@[4] == 'v' && "JsNever"@[5] == 'e' && "JsNever"@[6] == 'r');
    assert("Vec"@.len() == 3 && "Vec"@[0] == 'V' && "Vec"@[1] == 'e' && "Vec"@[2] == 'c');
    assert("Option"@.len() == 6 && "Option"@[0] == 'O' && "Option"@[1] == 'p' && "Option"@[2] == 't' && "Option"@[3] == 'i' && "Option"@[4] == 'o' && "Option"@[5] == 'n');
    assert("JsUndefined"@.len() == 11 && "JsUndefined"@[0] == 'J' && "JsUndefined"@[1] == 's' && "JsUndefined"@[2] == 'U' && "JsUndefined"@[3] == 'n' && "JsUndefined"@[4] == 'd' && "JsUndefined"@[5] == 'e' && "JsUndefined"@[6] == 'f' && "JsUndefined"@[7] == 'i' && "JsUndefined"@[8] == 'n' && "JsUndefined"@[9] == 'e' && "JsUndefined"@[10] == 'd');
    assert("JsOptional"@.len() == 10 && "JsOptional"@[0] == 'J' && "JsOptional"@[1] == 's' && "JsOptional"@[2] == 'O' && "JsOptional"@[3] == 'p' && "JsOptional"@[4] == 't' && "JsOptional"@[5] == 'i' && "JsOptional"@[6] == 'o' && "JsOptional"@[7] == 'n' && "JsOptional"@[8] == 'a' && "JsOptional"@[9] == 'l');
    assert("JsNullable"@.len() == 10 && "JsNullable"@[0] == 'J' && "JsNullable"@[1] == 's' && "JsNullable"@[2] == 'N' && "JsNullable"@[3] == 'u' && "JsNullable"@[4] == 'l' && "JsNullable"@[5] == 'l' && "JsNullable"@[6] == 'a' && "JsNullable"@[7] == 'b' && "JsNullable"@[8] == 'l' && "JsNullable"@[9] == 'e');
    assert("JsFuture"@.len() == 8 && "JsFuture"@[0] == 'J' && "JsFuture"@[1] == 's' && "JsFuture"@[2] == 'F' && "JsFuture"@[3] == 'u' && "JsFuture"@[4] == 't' && "JsFuture"@[5] == 'u' && "JsFuture"@[6] == 'r' && "JsFuture"@[7] == 'e');
    assert("Arc"@.len() == 3 && "Arc"@[0] == 'A' && "Arc"@[1] == 'r' && "Arc"@[2] == 'c');
    assert("Box"@.len() == 3 && "Box"@[0] == 'B' && "Box"@[1] == 'o' && "Box"@[2] == 'x');
    assert("Pin"@.len() == 3 && "Pin"@[0] == 'P' && "Pin"@[1] == 'i' && "Pin"@[2] == 'n');
    assert("PhantomData"@.len() == 11 && "PhantomData"@[0] == 'P' && "PhantomData"@[1] == 'h' && "PhantomData"@[2] == 'a' && "PhantomData"@[3] == 'n' && "PhantomData"@[4] == 't' && "PhantomData"@[5] == 'o' && "PhantomData"@[6] == 'm' && "PhantomData"@[7] == 'D' && "PhantomData"@[8] == 'a' && "PhantomData"@[9] == 't' && "PhantomData"@[10] == 'a');
    assert("BTreeMap"@.len() == 8 && "BTreeMap"@[0] == 'B' && "BTreeMap"@[1] == 'T' && "BTreeMap"@[2] == 'r' && "BTreeMap"@[3] == 'e' && "BTreeMap"@[4] == 'e' && "BTreeMap"@[5] == 'M' && "BTreeMap"@[6] == 'a' && "BTreeMap"@[7] == 'p');
    assert("HashMap"@.len() == 7 && "HashMap"@[0] == 'H' && "HashMap"@[1] == 'a' && "HashMap"@[2] == 's' && "HashMap"@[3] == 'h' && "HashMap"@[4] == 'M' && "HashMap"@[5] == 'a' && "HashMap"@[6] == 'p');
    assert("JsTypeIndex"@.len() == 11 && "JsTypeIndex"@[0] == 'J' && "JsTypeIndex"@[1] == 's' && "JsTypeIndex"@[2] == 'T' && "JsTypeIndex"@[3] == 'y' && "JsTypeIndex"@[4] == 'p' && "JsTypeIndex"@[5] == 'e' && "JsTypeIndex"@[6] == 'I' && "JsTypeIndex"@[7] == 'n' && "JsTypeIndex"@[8] == 'd' && "JsTypeIndex"@[9] == 'e' && "JsTypeIndex"@[10] == 'x');
    assert(scalar_form("JsTypeIndex"@) is None);
    assert(wrapper_arity("JsTypeIndex"@) == 2);
    if t is Path && t->Path_1@.len() >= 1 && t->Path_1@[0] == RustTypeArgument::Type(u) {
        assert(argument_out(t->Path_1@, 0, ctx, imp) == type_out(u, ctx, imp));
    }
    if t is Path && t->Path_1@.len() >= 2 && t->Path_1@[1] == RustTypeArgument::Type(v) {
        assert(argument_out(t->Path_1@, 1, ctx, type_out(u, ctx, imp).1) == type_out(v, ctx, type_out(u, ctx, imp).1));
    }
}

/// References, parentheses and invisible groups are written as what they
/// hold, a slice as its element's form followed by `[]`, `!` as `never`,
/// and the empty tuple as `void`.
pub proof fn law_structural_types(t: RustType, ctx: FormContext, imp: Seq<(Seq<char>, Seq<Seq<char>>)>)
    ensures
        t matches RustType::Reference(b) ==> type_out(t, ctx, imp) == type_out(*b, ctx, imp),
        t matches RustType::Paren(b) ==> type_out(t, ctx, imp) == type_out(*b, ctx, imp),
        t matches RustType::Group(b) ==> type_out(t, ctx, imp) == type_out(*b, ctx, imp),
        t matches RustType::Slice(b) ==> type_out(t, ctx, imp) == (type_out(*b, ctx, imp).0 + "[]"@, type_out(*b, ctx, imp).1),
        t matches RustType::Never ==> type_out(t, ctx, imp) == ("never"@, imp),
        (t matches RustType::Tuple(ts) && ts@.len() == 0) ==> type_out(t, ctx, imp) == ("void"@, imp),
{
}

} // verus!
