//! Scanning a Rust source file for the Core routes its methods declare: the
//! file is parsed with `syn`, each `impl` method's attributes are read as
//! plain text, and the route arguments are read and judged here.
use vstd::prelude::*;
use crate::codegen::model::MethodRoute;
use crate::codegen::route_decl::{
    arguments_route, declared_route, method_prefix, method_route, route_view, RouteDeclaration, arg_views,
};
use crate::rust_source::{file_methods, named_attr_views, parsed_rust_file, source_methods};
use crate::text::{ascii_alnum, is_ascii_alnum, split_char, split_on, str_eq, trim, trim_string, views};

verus! {

/// A Rust identifier in ASCII: letters, digits and `_`, not starting with a digit.
pub open spec fn is_identifier(v: Seq<char>) -> bool {
    &&& v.len() > 0
    &&& !('0' <= v[0] && v[0] <= '9')
    &&& forall|i: int| 0 <= i < v.len() ==> is_ascii_alnum(#[trigger] v[i]) || v[i] == '_'
}

/// One `name = value` route argument: the name's last path segment, and the
/// value when it is a single identifier; or why it does not read.
pub open spec fn route_argument(p: Seq<char>) -> Result<(Seq<char>, Option<Seq<char>>), Seq<char>> {
    let halves = split_on(p, '=');
    if halves.len() != 2 {
        Err("expected `name = value`"@)
    } else {
        let name = trim(split_on(trim(halves[0]), ':').last());
        let value = trim(halves[1]);
        if name.len() == 0 {
            Err("expected identifier"@)
        } else {
            Ok((name, if is_identifier(value) { Some(value) } else { None }))
        }
    }
}

/// The comma-separated pieces of an argument list, without an empty last one
/// (a trailing comma or no arguments).
pub open spec fn argument_pieces(t: Seq<char>) -> Seq<Seq<char>> {
    let ps = split_on(t, ',');
    if ps.len() > 0 && trim(ps.last()).len() == 0 { ps.drop_last() } else { ps }
}

/// The first `n` arguments of a list, read, or the first one that does not read.
pub open spec fn read_arguments(ps: Seq<Seq<char>>, n: int) -> Result<Seq<(Seq<char>, Option<Seq<char>>)>, Seq<char>>
    decreases n,
{
    if n <= 0 {
        Ok(Seq::empty())
    } else {
        match read_arguments(ps, n - 1) {
            Err(e) => Err(e),
            Ok(a) => match route_argument(ps[n - 1]) {
                Err(e) => Err(e),
                Ok(x) => Ok(a.push(x)),
            },
        }
    }
}

/// The route arguments written in an attribute's token text.
pub open spec fn route_arguments(t: Seq<char>) -> Result<Seq<(Seq<char>, Option<Seq<char>>)>, Seq<char>> {
    read_arguments(argument_pieces(t), argument_pieces(t).len() as int)
}

/// Whether an attribute is a Core route declaration.
pub open spec fn is_route_attribute(a: (Seq<char>, Option<Seq<char>>)) -> bool {
    a.0 == "operit_core_route"@
}

/// The route a method's attributes declare, or why it is refused.
pub open spec fn attribute_route(method: Seq<char>, attrs: Seq<(Seq<char>, Option<Seq<char>>)>) -> Result<(Option<Seq<char>>, Option<Seq<char>>, bool), Seq<char>> {
    let rs = attrs.filter(|a: (Seq<char>, Option<Seq<char>>)| is_route_attribute(a));
    if rs.len() > 1 {
        Err(method_prefix(method) + "declares multiple Core route attributes"@)
    } else if rs.len() == 0 {
        Ok((None, None, false))
    } else {
        match rs[0].1 {
            None => Err(method_prefix(method) + "Core route requires arguments"@),
            Some(t) => match route_arguments(t) {
                Err(e) => Err(method_prefix(method) + "has invalid Core route arguments: "@ + e),
                Ok(a) => arguments_route(method, a),
            },
        }
    }
}

/// Whether a text is an identifier.
fn identifier(v: &str) -> (r: bool)
    ensures
        r == is_identifier(v@),
{
    let cs = crate::text::chars_of(v);
    if cs.len() == 0 || ('0' <= cs[0] && cs[0] <= '9') {
        return false;
    }
    let mut i: usize = 0;
    while i < cs.len()
        invariant
            i <= cs.len(),
            cs@ == v@,
            forall|k: int| 0 <= k < i ==> is_ascii_alnum(#[trigger] cs@[k]) || cs@[k] == '_',
        decreases cs.len() - i,
    {
        if !(ascii_alnum(cs[i]) || cs[i] == '_') {
            return false;
        }
        i = i + 1;
    }
    true
}

/// Reads one `name = value` argument.
fn read_argument(p: &str) -> (r: Result<(String, Option<String>), String>)
    ensures
        match r {
            Ok(x) => route_argument(p@) == Ok::<_, Seq<char>>((x.0@, match x.1 { Some(v) => Some(v@), None => None })),
            Err(e) => route_argument(p@) == Err::<(Seq<char>, Option<Seq<char>>), _>(e@),
        },
{
    let halves = split_char(p, '=');
    if halves.len() != 2 {
        return Err(String::from_str("expected `name = value`"));
    }
    let left = trim_string(halves[0].as_str());
    let segments = split_char(left.as_str(), ':');
    let last = segments.len() - 1;
    let name = trim_string(segments[last].as_str());
    let value = trim_string(halves[1].as_str());
    if name.as_str().unicode_len() == 0 {
        return Err(String::from_str("expected identifier"));
    }
    if identifier(value.as_str()) {
        Ok((name, Some(value)))
    } else {
        Ok((name, None))
    }
}

/// Reads the route arguments written in an attribute's token text.
fn read_route_arguments(t: &str) -> (r: Result<Vec<(String, Option<String>)>, String>)
    ensures
        match r {
            Ok(a) => route_arguments(t@) == Ok::<_, Seq<char>>(arg_views(a@)),
            Err(e) => route_arguments(t@) == Err::<Seq<(Seq<char>, Option<Seq<char>>)>, _>(e@),
        },
{
    let mut ps = split_char(t, ',');
    let ghost all = views(ps@);
    let last = ps.len() - 1;
    if crate::text::is_blank(ps[last].as_str()) {
        ps.pop();
        assert(views(ps@) =~= all.drop_last());
    }
    let ghost pv = argument_pieces(t@);
    assert(views(ps@) == pv);
    let mut args: Vec<(String, Option<String>)> = Vec::new();
    assert(arg_views(args@) =~= Seq::<(Seq<char>, Option<Seq<char>>)>::empty());
    let mut i: usize = 0;
    while i < ps.len()
        invariant
            i <= ps.len(),
            views(ps@) == pv,
            pv == argument_pieces(t@),
            read_arguments(pv, i as int) == Ok::<_, Seq<char>>(arg_views(args@)),
        decreases ps.len() - i,
    {
        assert(pv[i as int] == ps@[i as int]@);
        match read_argument(ps[i].as_str()) {
            Ok(x) => {
                let ghost before = arg_views(args@);
                args.push(x);
                assert(arg_views(args@) =~= before.push((x.0@, match x.1 { Some(v) => Some(v@), None => None })));
            },
            Err(e) => {
                proof {
                    assert(read_arguments(pv, i + 1) == Err::<Seq<(Seq<char>, Option<Seq<char>>)>, Seq<char>>(e@));
                    lemma_read_err_stays(pv, i + 1, pv.len() as int);
                }
                return Err(e);
            },
        }
        i = i + 1;
    }
    Ok(args)
}

/// A refusal while reading arguments is final.
proof fn lemma_read_err_stays(ps: Seq<Seq<char>>, n: int, m: int)
    requires
        0 <= n <= m,
        read_arguments(ps, n) is Err,
    ensures
        read_arguments(ps, m) == read_arguments(ps, n),
    decreases m - n,
{
    if m > n {
        lemma_read_err_stays(ps, n, m - 1);
    }
}

/// Reads the route that a method's attributes declare.
pub fn attributes_route(method: &str, attributes: &Vec<(String, Option<String>)>) -> (r: Result<MethodRoute, String>)
    ensures
        match r {
            Ok(route) => attribute_route(method@, arg_views(attributes@)) == Ok::<_, Seq<char>>(route_view(route)),
            Err(e) => attribute_route(method@, arg_views(attributes@)) == Err::<(Option<Seq<char>>, Option<Seq<char>>, bool), _>(e@),
        },
{
    let ghost a = arg_views(attributes@);
    let mut count: usize = 0;
    let mut first: Option<usize> = None;
    let mut i: usize = 0;
    while i < attributes.len()
        invariant
            i <= attributes.len(),
            a == arg_views(attributes@),
            count == a.subrange(0, i as int).filter(|x: (Seq<char>, Option<Seq<char>>)| is_route_attribute(x)).len(),
            count <= i,
            match first {
                None => count == 0,
                Some(k) => k < i && count > 0 && a.subrange(0, i as int).filter(|x: (Seq<char>, Option<Seq<char>>)| is_route_attribute(x))[0] == a[k as int],
            },
        decreases attributes.len() - i,
    {
        proof {
            reveal(Seq::filter);
            assert(a.subrange(0, i + 1).drop_last() =~= a.subrange(0, i as int));
            assert(a[i as int] == (attributes@[i as int].0@, match attributes@[i as int].1 { Some(v) => Some(v@), None => None::<Seq<char>> }));
            let f0 = a.subrange(0, i as int).filter(|x: (Seq<char>, Option<Seq<char>>)| is_route_attribute(x));
            if is_route_attribute(a[i as int]) {
                assert(a.subrange(0, i + 1).filter(|x: (Seq<char>, Option<Seq<char>>)| is_route_attribute(x)) == f0.push(a[i as int]));
            }
        }
        if str_eq(attributes[i].0.as_str(), "operit_core_route") {
            if first.is_none() {
                first = Some(i);
            }
            count = count + 1;
        }
        i = i + 1;
    }
    assert(a.subrange(0, attributes.len() as int) =~= a);
    let declaration = if count > 1 {
        RouteDeclaration::Repeated
    } else if count == 0 {
        RouteDeclaration::Absent
    } else {
        let k = first.unwrap();
        match &attributes[k].1 {
            None => RouteDeclaration::WithoutArguments,
            Some(t) => match read_route_arguments(t.as_str()) {
                Err(e) => RouteDeclaration::Unparsable(e),
                Ok(args) => RouteDeclaration::Arguments(args),
            },
        }
    };
    method_route(method, &declaration)
}

/// Reads every `impl` method of a source file with the route it declares,
/// in source order; a file that does not parse, or a malformed route, is
/// refused with its message.
pub fn scan_method_routes(content: &str) -> (r: Result<Vec<(String, MethodRoute)>, String>)
    ensures
        match parsed_rust_file(content@) {
            Err(e) => r matches Err(m) && m@ == e,
            Ok(f) => match r {
                Ok(routes) => routes@.len() == file_methods(f).len() && forall|i: int| 0 <= i < file_methods(f).len() ==>
                    (#[trigger] routes@[i]).0@ == file_methods(f)[i].0
                    && attribute_route(file_methods(f)[i].0, file_methods(f)[i].1) == Ok::<_, Seq<char>>(route_view(routes@[i].1)),
                Err(e) => exists|i: int| 0 <= i < file_methods(f).len()
                    && attribute_route(file_methods(f)[i].0, file_methods(f)[i].1) == Err::<(Option<Seq<char>>, Option<Seq<char>>, bool), _>(e@)
                    && forall|j: int| 0 <= j < i ==> (#[trigger] attribute_route(file_methods(f)[j].0, file_methods(f)[j].1)) is Ok,
            },
        },
{
    let methods = match source_methods(content) {
        Ok(ms) => ms,
        Err(e) => return Err(e),
    };
    let ghost f = parsed_rust_file(content@)->Ok_0;
    let ghost ms = named_attr_views(methods@);
    let mut routes: Vec<(String, MethodRoute)> = Vec::new();
    let mut i: usize = 0;
    while i < methods.len()
        invariant
            i <= methods.len(),
            ms == named_attr_views(methods@),
            parsed_rust_file(content@) == Ok::<_, Seq<char>>(f),
            ms == file_methods(f),
            routes@.len() == i,
            forall|j: int| 0 <= j < i ==> (#[trigger] routes@[j]).0@ == ms[j].0
                && attribute_route(ms[j].0, ms[j].1) == Ok::<_, Seq<char>>(route_view(routes@[j].1)),
        decreases methods.len() - i,
    {
        assert(ms[i as int] == (methods@[i as int].0@, arg_views(methods@[i as int].1@)));
        match attributes_route(methods[i].0.as_str(), &methods[i].1) {
            Ok(route) => {
                routes.push((methods[i].0.clone(), route));
            },
            Err(e) => {
                assert forall|j: int| 0 <= j < i implies (#[trigger] attribute_route(ms[j].0, ms[j].1)) is Ok by {
                    assert(routes@[j].0@ == ms[j].0);
                }
                return Err(e);
            },
        }
        i = i + 1;
    }
    Ok(routes)
}

} // verus!
