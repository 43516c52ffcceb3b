//! How the generated dispatchers decode a method's arguments from a request
//! and pass them on to the method.
use vstd::prelude::*;
use crate::codegen::model::{SourceArg, SourceMethod};
use crate::text::{chars_of, debug_text, has_prefix, join, quoted, str_eq, string_of_range, views};

verus! {

/// The type argument of `name<..>`: `ty` without `name<` in front and `>` at the end.
pub open spec fn generic_inner(ty: Seq<char>, name: Seq<char>) -> Option<Seq<char>> {
    if ty.len() >= name.len() + 2 && has_prefix(ty, name + "<"@) && ty.last() == '>' {
        Some(ty.subrange(name.len() as int + 1, ty.len() - 1))
    } else {
        None
    }
}

/// The element type of a borrowed slice `&[..]`.
pub open spec fn slice_inner(ty: Seq<char>) -> Option<Seq<char>> {
    if ty.len() >= 3 && has_prefix(ty, "&["@) && ty.last() == ']' {
        Some(ty.subrange(2, ty.len() - 1))
    } else {
        None
    }
}

/// `s` without a leading `&`.
pub open spec fn strip_ref(s: Seq<char>) -> Option<Seq<char>> {
    if s.len() >= 1 && s[0] == '&' { Some(s.drop_first()) } else { None }
}

/// The argument is an optional reference `Option<&T>`; gives `T`.
pub open spec fn optional_ref_inner(ty: Seq<char>) -> Option<Seq<char>> {
    match generic_inner(ty, "Option"@) {
        Some(i) => strip_ref(i),
        None => None,
    }
}

/// The owned type that an argument is decoded into.
pub open spec fn decode_type(ty: Seq<char>) -> Seq<char> {
    if ty == "&str"@ {
        "String"@
    } else if ty == "Option<&str>"@ {
        "Option<String>"@
    } else if optional_ref_inner(ty) is Some {
        "Option<"@ + optional_ref_inner(ty)->Some_0 + ">"@
    } else if ty == "&std::path::Path"@ {
        "String"@
    } else if slice_inner(ty) is Some {
        let inner = slice_inner(ty)->Some_0;
        if inner == "std::path::PathBuf"@ {
            "Vec<std::path::PathBuf>"@
        } else if inner == "i64"@ {
            "Vec<i64>"@
        } else if inner == "String"@ {
            "Vec<String>"@
        } else {
            ty
        }
    } else if strip_ref(ty) is Some {
        strip_ref(ty)->Some_0
    } else {
        ty
    }
}

/// The expression that passes a decoded argument on to the method.
pub open spec fn call_expr(name: Seq<char>, ty: Seq<char>) -> Seq<char> {
    if ty == "&str"@ {
        name + ".as_str()"@
    } else if ty == "Option<&str>"@ {
        name + ".as_deref()"@
    } else if optional_ref_inner(ty) is Some {
        name + ".as_ref()"@
    } else if ty == "&std::path::Path"@ {
        "std::path::Path::new(&"@ + name + ")"@
    } else if slice_inner(ty) is Some {
        name + ".as_slice()"@
    } else if strip_ref(ty) is Some {
        "&"@ + name
    } else {
        name
    }
}

/// The call expressions of a list of arguments.
pub open spec fn call_exprs(args: Seq<SourceArg>) -> Seq<Seq<char>> {
    Seq::new(args.len(), |i: int| call_expr(args[i].name@, args[i].ty@))
}

/// The argument list of the method call: the call expressions joined by `, `.
pub open spec fn call_list(args: Seq<SourceArg>) -> Seq<char> {
    join(call_exprs(args), ", "@)
}

/// The statement that decodes one argument.
pub open spec fn decoder_line(a: SourceArg) -> Seq<char> {
    "            let "@ + a.name@ + ": "@ + decode_type(a.ty@) + " = decode_core_arg(&mut __core_args, "@
        + debug_text(a.name@) + ")?;\n"@
}

/// The statements that decode the first `n` arguments.
pub open spec fn decoders(args: Seq<SourceArg>, n: int) -> Seq<char>
    decreases n,
{
    if n <= 0 { Seq::empty() } else { decoders(args, n - 1) + decoder_line(args[n - 1]) }
}

/// The first `n` configuration attributes, one per line.
pub open spec fn cfg_text(attrs: Seq<Seq<char>>, n: int) -> Seq<char>
    decreases n,
{
    if n <= 0 { Seq::empty() } else { cfg_text(attrs, n - 1) + "        "@ + attrs[n - 1] + "\n"@ }
}

/// `.await` for an async method.
pub open spec fn await_text(m: SourceMethod) -> Seq<char> {
    if m.is_async { ".await"@ } else { Seq::empty() }
}

/// The type argument of `name<..>`, as `generic_inner` describes it.
fn single_generic_arg(ty: &str, name: &str) -> (r: Option<String>)
    ensures
        match r {
            Some(s) => generic_inner(ty@, name@) == Some(s@),
            None => generic_inner(ty@, name@) is None,
        },
{
    let v = chars_of(ty);
    let mut open = String::from_str(name);
    open.append("<");
    let p = chars_of(open.as_str());
    proof {
        reveal_strlit("<");
    }
    if v.len() <= p.len() {
        return None;
    }
    if !crate::text::matches_at(&v, &p, 0) || v[v.len() - 1] != '>' {
        return None;
    }
    Some(string_of_range(&v, p.len(), v.len() - 1))
}

/// The element type of a borrowed slice, as `slice_inner` describes it.
fn borrowed_slice_inner(ty: &str) -> (r: Option<String>)
    ensures
        match r {
            Some(s) => slice_inner(ty@) == Some(s@),
            None => slice_inner(ty@) is None,
        },
{
    let v = chars_of(ty);
    if v.len() < 3 || v[0] != '&' || v[1] != '[' || v[v.len() - 1] != ']' {
        proof {
            if v@.len() >= 3 && has_prefix(ty@, "&["@) {
                reveal_strlit("&[");
                assert(ty@.subrange(0, 2)[0] == '&');
                assert(ty@.subrange(0, 2)[1] == '[');
            }
        }
        return None;
    }
    proof {
        reveal_strlit("&[");
        assert(ty@.subrange(0, 2) =~= "&["@);
    }
    Some(string_of_range(&v, 2, v.len() - 1))
}

/// `s` without a leading `&`, as `strip_ref` describes it.
fn strip_leading_ref(s: &str) -> (r: Option<String>)
    ensures
        match r {
            Some(t) => strip_ref(s@) == Some(t@),
            None => strip_ref(s@) is None,
        },
{
    let v = chars_of(s);
    if v.len() >= 1 && v[0] == '&' {
        let t = string_of_range(&v, 1, v.len());
        assert(t@ =~= s@.drop_first());
        Some(t)
    } else {
        None
    }
}

/// `T` of an optional reference `Option<&T>`.
fn optional_reference_inner(ty: &str) -> (r: Option<String>)
    ensures
        match r {
            Some(t) => optional_ref_inner(ty@) == Some(t@),
            None => optional_ref_inner(ty@) is None,
        },
{
    match single_generic_arg(ty, "Option") {
        Some(i) => strip_leading_ref(i.as_str()),
        None => None,
    }
}

/// Renders the owned type that one argument is decoded into.
pub fn render_arg_decode_type(arg: &SourceArg) -> (r: String)
    ensures
        r@ == decode_type(arg.ty@),
{
    let ty = arg.ty.as_str();
    if str_eq(ty, "&str") {
        return String::from_str("String");
    }
    if str_eq(ty, "Option<&str>") {
        return String::from_str("Option<String>");
    }
    if let Some(inner) = optional_reference_inner(ty) {
        let mut r = String::from_str("Option<");
        r.append(inner.as_str());
        r.append(">");
        return r;
    }
    if str_eq(ty, "&std::path::Path") {
        return String::from_str("String");
    }
    if let Some(inner) = borrowed_slice_inner(ty) {
        let i = inner.as_str();
        if str_eq(i, "std::path::PathBuf") {
            return String::from_str("Vec<std::path::PathBuf>");
        } else if str_eq(i, "i64") {
            return String::from_str("Vec<i64>");
        } else if str_eq(i, "String") {
            return String::from_str("Vec<String>");
        } else {
            return arg.ty.clone();
        }
    }
    if let Some(inner) = strip_leading_ref(ty) {
        return inner;
    }
    arg.ty.clone()
}

/// Renders the expression that passes one decoded argument to the method.
pub fn render_arg_call_expr(arg: &SourceArg) -> (r: String)
    ensures
        r@ == call_expr(arg.name@, arg.ty@),
{
    let ty = arg.ty.as_str();
    let name = arg.name.as_str();
    let mut r = String::new();
    if str_eq(ty, "&str") {
        r.append(name);
        r.append(".as_str()");
    } else if str_eq(ty, "Option<&str>") {
        r.append(name);
        r.append(".as_deref()");
    } else if optional_reference_inner(ty).is_some() {
        r.append(name);
        r.append(".as_ref()");
    } else if str_eq(ty, "&std::path::Path") {
        r.append("std::path::Path::new(&");
        r.append(name);
        r.append(")");
    } else if borrowed_slice_inner(ty).is_some() {
        r.append(name);
        r.append(".as_slice()");
    } else if strip_leading_ref(ty).is_some() {
        r.append("&");
        r.append(name);
    } else {
        r.append(name);
    }
    r
}

/// Renders the argument list of the method call.
pub fn render_arg_call_list(method: &SourceMethod) -> (r: String)
    ensures
        r@ == call_list(method.args@),
{
    let mut parts: Vec<String> = Vec::new();
    let mut i: usize = 0;
    while i < method.args.len()
        invariant
            i <= method.args.len(),
            views(parts@) =~= call_exprs(method.args@).subrange(0, i as int),
        decreases method.args.len() - i,
    {
        let e = render_arg_call_expr(&method.args[i]);
        let ghost before = parts@;
        parts.push(e);
        proof {
            assert(views(parts@) =~= views(before).push(e@));
            assert(call_exprs(method.args@).subrange(0, i + 1) =~= call_exprs(method.args@).subrange(0, i as int).push(e@));
        }
        i = i + 1;
    }
    assert(call_exprs(method.args@).subrange(0, method.args.len() as int) =~= call_exprs(method.args@));
    crate::text::join_strings(&parts, ", ")
}

/// Renders the statements that decode every argument of the method.
pub fn render_arg_decoders(method: &SourceMethod) -> (r: String)
    ensures
        r@ == decoders(method.args@, method.args@.len() as int),
{
    let mut r = String::new();
    let mut i: usize = 0;
    while i < method.args.len()
        invariant
            i <= method.args.len(),
            r@ == decoders(method.args@, i as int),
        decreases method.args.len() - i,
    {
        let a = &method.args[i];
        r.append("            let ");
        r.append(a.name.as_str());
        r.append(": ");
        let t = render_arg_decode_type(a);
        r.append(t.as_str());
        r.append(" = decode_core_arg(&mut __core_args, ");
        let q = quoted(a.name.as_str());
        r.append(q.as_str());
        r.append(")?;\n");
        i = i + 1;
    }
    r
}

/// Renders the configuration attributes that guard a method's arm.
pub fn render_cfg_attrs(method: &SourceMethod) -> (r: String)
    ensures
        r@ == cfg_text(views(method.cfg_attrs@), method.cfg_attrs@.len() as int),
{
    let mut r = String::new();
    let mut i: usize = 0;
    while i < method.cfg_attrs.len()
        invariant
            i <= method.cfg_attrs.len(),
            r@ == cfg_text(views(method.cfg_attrs@), i as int),
        decreases method.cfg_attrs.len() - i,
    {
        r.append("        ");
        r.append(method.cfg_attrs[i].as_str());
        r.append("\n");
        i = i + 1;
    }
    r
}

/// `.await` for an async method, nothing otherwise.
pub fn await_suffix(method: &SourceMethod) -> (r: &'static str)
    ensures
        r@ == await_text(*method),
{
    proof {
        reveal_strlit("");
    }
    if method.is_async { ".await" } else { "" }
}

/// A borrowed slice `&[T]` of `String`, `i64` or `std::path::PathBuf` is
/// decoded into the owned vector `Vec<T>`.
pub proof fn law_borrowed_slices_decode_to_vectors(elem: Seq<char>)
    requires
        elem == "String"@ || elem == "i64"@ || elem == "std::path::PathBuf"@,
    ensures
        decode_type("&["@ + elem + "]"@) == "Vec<"@ + elem + ">"@,
{
    reveal_strlit("String");
    reveal_strlit("i64");
    reveal_strlit("std::path::PathBuf");
    reveal_strlit("&[");
    reveal_strlit("]");
    reveal_strlit("Vec<");
    reveal_strlit(">");
    reveal_strlit("&str");
    reveal_strlit("Option<&str>");
    reveal_strlit("&std::path::Path");
    reveal_strlit("Option");
    reveal_strlit("<");
    assert("String"@.len() == 6);
    assert("i64"@.len() == 3);
    assert("std::path::PathBuf"@.len() == 18);
    assert("&["@.len() == 2);
    assert("]"@.len() == 1);
    assert("Vec<"@.len() == 4);
    assert(">"@.len() == 1);
    assert("&str"@.len() == 4);
    assert("Option<&str>"@.len() == 12);
    assert("&std::path::Path"@.len() == 16);
    assert("Option"@.len() == 6);
    assert("<"@.len() == 1);
    let ty = "&["@ + elem + "]"@;
    assert(ty[0] == '&' && ty[1] == '[');
    assert(ty.last() == ']');
    assert(("Option"@ + "<"@)[0] == 'O');
    assert(!has_prefix(ty, "Option"@ + "<"@)) by {
        if has_prefix(ty, "Option"@ + "<"@) {
            assert(ty.subrange(0, 7)[0] == ty[0]);
        }
    }
    assert(optional_ref_inner(ty) is None);
    assert(ty != "&str"@) by {
        if ty == "&str"@ { assert(ty.len() == 4); }
    }
    assert("&std::path::Path"@[16 - 1] == 'h');
    assert(ty != "&std::path::Path"@) by {
        if ty == "&std::path::Path"@ { assert(ty.last() == 'h'); }
    }
    assert(has_prefix(ty, "&["@)) by {
        assert(ty.subrange(0, 2) =~= "&["@);
    }
    assert(slice_inner(ty) == Some(elem)) by {
        assert(ty.subrange(2, ty.len() - 1) =~= elem);
    }
    reveal_strlit("Vec<std::path::PathBuf>");
    reveal_strlit("Vec<i64>");
    reveal_strlit("Vec<String>");
    assert("Vec<std::path::PathBuf>"@ =~= "Vec<"@ + "std::path::PathBuf"@ + ">"@);
    assert("Vec<i64>"@ =~= "Vec<"@ + "i64"@ + ">"@);
    assert("Vec<String>"@ =~= "Vec<"@ + "String"@ + ">"@);
}

/// The argument kinds the dispatcher knows are decoded into owned values and
/// lent back to the method: `&str` and `&std::path::Path` are decoded as a
/// `String` (passed as `name.as_str()` and `std::path::Path::new(&name)`),
/// `Option<&str>` as an `Option<String>` (passed as `name.as_deref()`), and a
/// borrowed slice of `String`, `i64` or `std::path::PathBuf` as its `Vec`
/// (passed as `name.as_slice()`).
pub proof fn law_borrowed_arguments_are_decoded_owned(name: Seq<char>, elem: Seq<char>)
    requires
        elem == "String"@ || elem == "i64"@ || elem == "std::path::PathBuf"@,
    ensures
        decode_type("&str"@) == "String"@ && call_expr(name, "&str"@) == name + ".as_str()"@,
        decode_type("&std::path::Path"@) == "String"@ && call_expr(name, "&std::path::Path"@) == "std::path::Path::new(&"@ + name + ")"@,
        decode_type("Option<&str>"@) == "Option<String>"@ && call_expr(name, "Option<&str>"@) == name + ".as_deref()"@,
        call_expr(name, "&["@ + elem + "]"@) == name + ".as_slice()"@,
{
    reveal_strlit("&str");
    reveal_strlit("Option<&str>");
    reveal_strlit("&std::path::Path");
    reveal_strlit("Option");
    reveal_strlit("<");
    reveal_strlit("&[");
    reveal_strlit("]");
    reveal_strlit("String");
    reveal_strlit("Option<String>");
    reveal_strlit("Option<&");
    reveal_strlit(".as_str()");
    reveal_strlit(".as_deref()");
    reveal_strlit(".as_ref()");
    reveal_strlit("std::path::Path::new(&");
    reveal_strlit(")");
    reveal_strlit(".as_slice()");
    reveal_strlit("&");
    reveal_strlit("str");
    reveal_strlit("std::path::Path");
    assert("&str"@.len() == 4);
    assert("Option<&str>"@.len() == 12);
    assert("&std::path::Path"@.len() == 16);
    assert("Option"@.len() == 6);
    assert("<"@.len() == 1);
    assert("&["@.len() == 2);
    assert("]"@.len() == 1);
    assert("String"@.len() == 6);
    assert("Option<String>"@.len() == 14);
    assert("Option<&"@.len() == 8);
    assert(".as_str()"@.len() == 9);
    assert(".as_deref()"@.len() == 11);
    assert(".as_ref()"@.len() == 9);
    assert("std::path::Path::new(&"@.len() == 22);
    assert(")"@.len() == 1);
    assert(".as_slice()"@.len() == 11);
    assert("&"@.len() == 1);
    assert("str"@.len() == 3);
    assert("std::path::Path"@.len() == 15);
    assert("&str"@ != "Option<&str>"@);
    assert("&std::path::Path"@[0] == '&' && "Option<&str>"@[0] == 'O');
    law_borrowed_slices_decode_to_vectors(elem);
    let ty = "&["@ + elem + "]"@;
    assert(ty[0] == '&' && ty[1] == '[' && ty.last() == ']');
    assert(!has_prefix(ty, "Option"@ + "<"@)) by {
        if has_prefix(ty, "Option"@ + "<"@) {
            assert(ty.subrange(0, 7)[0] == ty[0]);
            assert(("Option"@ + "<"@)[0] == "Option"@[0]);
            assert("Option"@[0] == 'O');
        }
    }
    assert(ty != "&str"@) by { if ty == "&str"@ { assert("&str"@[1] == 's'); } }
    assert(ty != "&std::path::Path"@) by { if ty == "&std::path::Path"@ { assert("&std::path::Path"@[1] == 's'); } }
    assert(has_prefix(ty, "&["@)) by { assert(ty.subrange(0, 2) =~= "&["@); }
}

/// Any other borrowed argument `&T` (not a slice, `str` or
/// `std::path::Path`) is decoded as `T` and passed as `&name`.
pub proof fn law_other_references_are_decoded_as_their_target(name: Seq<char>, t: Seq<char>)
    requires
        t.len() > 0,
        t[0] != '[',
        t != "str"@,
        t != "std::path::Path"@,
    ensures
        decode_type("&"@ + t) == t,
        call_expr(name, "&"@ + t) == "&"@ + name,
{
    reveal_strlit("&str");
    reveal_strlit("Option<&str>");
    reveal_strlit("&std::path::Path");
    reveal_strlit("Option");
    reveal_strlit("<");
    reveal_strlit("&[");
    reveal_strlit("]");
    reveal_strlit("String");
    reveal_strlit("Option<String>");
    reveal_strlit("Option<&");
    reveal_strlit(".as_str()");
    reveal_strlit(".as_deref()");
    reveal_strlit(".as_ref()");
    reveal_strlit("std::path::Path::new(&");
    reveal_strlit(")");
    reveal_strlit(".as_slice()");
    reveal_strlit("&");
    reveal_strlit("str");
    reveal_strlit("std::path::Path");
    assert("&str"@.len() == 4);
    assert("Option<&str>"@.len() == 12);
    assert("&std::path::Path"@.len() == 16);
    assert("Option"@.len() == 6);
    assert("<"@.len() == 1);
    assert("&["@.len() == 2);
    assert("]"@.len() == 1);
    assert("String"@.len() == 6);
    assert("Option<String>"@.len() == 14);
    assert("Option<&"@.len() == 8);
    assert(".as_str()"@.len() == 9);
    assert(".as_deref()"@.len() == 11);
    assert(".as_ref()"@.len() == 9);
    assert("std::path::Path::new(&"@.len() == 22);
    assert(")"@.len() == 1);
    assert(".as_slice()"@.len() == 11);
    assert("&"@.len() == 1);
    assert("str"@.len() == 3);
    assert("std::path::Path"@.len() == 15);
    let ty = "&"@ + t;
    assert(ty[0] == '&' && ty[1] == t[0]);
    assert(ty.drop_first() =~= t);
    assert(ty != "&str"@) by { if ty == "&str"@ { assert(ty.drop_first() =~= "str"@); } }
    assert(ty != "&std::path::Path"@) by { if ty == "&std::path::Path"@ { assert(ty.drop_first() =~= "std::path::Path"@); } }
    assert(ty != "Option<&str>"@) by { if ty == "Option<&str>"@ { assert("Option<&str>"@[0] == 'O'); } }
    assert(!has_prefix(ty, "Option"@ + "<"@)) by {
        if has_prefix(ty, "Option"@ + "<"@) {
            assert(ty.subrange(0, 7)[0] == ty[0]);
            assert(("Option"@ + "<"@)[0] == "Option"@[0]);
            assert("Option"@[0] == 'O');
        }
    }
    assert(!has_prefix(ty, "&["@)) by {
        if has_prefix(ty, "&["@) {
            assert(ty.subrange(0, 2)[1] == ty[1]);
            assert("&["@[1] == '[');
        }
    }
}

/// An owned argument type (not a reference and not an optional reference)
/// is decoded as itself and passed by its name.
pub proof fn law_owned_arguments_pass_through(name: Seq<char>, ty: Seq<char>)
    requires
        ty.len() == 0 || ty[0] != '&',
        !has_prefix(ty, "Option<&"@),
    ensures
        decode_type(ty) == ty,
        call_expr(name, ty) == name,
{
    reveal_strlit("&str");
    reveal_strlit("Option<&str>");
    reveal_strlit("&std::path::Path");
    reveal_strlit("Option");
    reveal_strlit("<");
    reveal_strlit("&[");
    reveal_strlit("]");
    reveal_strlit("String");
    reveal_strlit("Option<String>");
    reveal_strlit("Option<&");
    reveal_strlit(".as_str()");
    reveal_strlit(".as_deref()");
    reveal_strlit(".as_ref()");
    reveal_strlit("std::path::Path::new(&");
    reveal_strlit(")");
    reveal_strlit(".as_slice()");
    reveal_strlit("&");
    reveal_strlit("str");
    reveal_strlit("std::path::Path");
    assert("&str"@.len() == 4);
    assert("Option<&str>"@.len() == 12);
    assert("&std::path::Path"@.len() == 16);
    assert("Option"@.len() == 6);
    assert("<"@.len() == 1);
    assert("&["@.len() == 2);
    assert("]"@.len() == 1);
    assert("String"@.len() == 6);
    assert("Option<String>"@.len() == 14);
    assert("Option<&"@.len() == 8);
    assert(".as_str()"@.len() == 9);
    assert(".as_deref()"@.len() == 11);
    assert(".as_ref()"@.len() == 9);
    assert("std::path::Path::new(&"@.len() == 22);
    assert(")"@.len() == 1);
    assert(".as_slice()"@.len() == 11);
    assert("&"@.len() == 1);
    assert("str"@.len() == 3);
    assert("std::path::Path"@.len() == 15);
    assert(ty != "&str"@) by { if ty == "&str"@ { assert("&str"@[0] == '&'); } }
    assert(ty != "&std::path::Path"@) by { if ty == "&std::path::Path"@ { assert("&std::path::Path"@[0] == '&'); } }
    assert(ty != "Option<&str>"@) by {
        if ty == "Option<&str>"@ { assert("Option<&str>"@.subrange(0, 8) =~= "Option<&"@); }
    }
    assert(optional_ref_inner(ty) is None) by {
        if generic_inner(ty, "Option"@) is Some {
            let i = generic_inner(ty, "Option"@)->Some_0;
            if i.len() >= 1 && i[0] == '&' {
                assert(ty.subrange(0, 7) =~= "Option"@ + "<"@);
                assert(i[0] == ty[7]);
                assert(ty.subrange(0, 8) =~= "Option<&"@);
            }
        }
    }
    assert(!has_prefix(ty, "&["@)) by {
        if has_prefix(ty, "&["@) {
            assert(ty.subrange(0, 2)[0] == ty[0]);
            assert("&["@[0] == '&');
        }
    }
}

} // verus!
