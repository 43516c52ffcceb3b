//! Reading a method's Core route declaration: at most one `operit_core_route`
//! attribute, whose arguments name the binding argument, optionally the
//! current-value resolver, and whether the route follows source transitions.
use vstd::prelude::*;
use crate::codegen::model::MethodRoute;
use crate::text::{concat, join, join_strings, str_eq, views};

verus! {

/// What the scanner found of a method's route attributes.
#[derive(Clone, Debug)]
pub enum RouteDeclaration {
    /// No route attribute: the method is served locally.
    Absent,
    /// More than one route attribute.
    Repeated,
    /// A route attribute without an argument list.
    WithoutArguments,
    /// An argument list that does not parse, with the parser's message.
    Unparsable(String),
    /// The arguments in order: each name, and its value when the value is a
    /// single identifier.
    Arguments(Vec<(String, Option<String>)>),
}

/// The plain values of a declaration's arguments.
pub open spec fn arg_views(args: Seq<(String, Option<String>)>) -> Seq<(Seq<char>, Option<Seq<char>>)> {
    args.map_values(|a: (String, Option<String>)| (a.0@, match a.1 { Some(v) => Some(v@), None => None }))
}

/// `Method <name> ` in front of each route error.
pub open spec fn method_prefix(method: Seq<char>) -> Seq<char> {
    "Method "@ + method + " "@
}

/// The first error among the arguments from position `i` on: a value that
/// is not an identifier, or a name given twice.
pub open spec fn argument_error(method: Seq<char>, args: Seq<(Seq<char>, Option<Seq<char>>)>, i: int) -> Option<Seq<char>>
    decreases args.len() - i,
{
    if i < 0 || i >= args.len() {
        None
    } else if args[i].1 is None {
        Some(method_prefix(method) + "Core route argument "@ + args[i].0 + " must be an identifier"@)
    } else if exists|j: int| 0 <= j < i && #[trigger] args[j].0 == args[i].0 {
        Some(method_prefix(method) + "declares Core route argument "@ + args[i].0 + " more than once"@)
    } else {
        argument_error(method, args, i + 1)
    }
}

/// The value of the argument called `name`, if one is given.
pub open spec fn argument_value(args: Seq<(Seq<char>, Option<Seq<char>>)>, name: Seq<char>) -> Option<Seq<char>>
    decreases args.len(),
{
    if args.len() == 0 {
        None
    } else if args.last().0 == name {
        args.last().1
    } else {
        argument_value(args.drop_last(), name)
    }
}

/// Whether an argument name is one the route understands.
pub open spec fn known_argument(name: Seq<char>) -> bool {
    name == "binding"@ || name == "current"@ || name == "source"@
}

/// The names of the arguments the route does not understand, in order.
pub open spec fn unknown_arguments(args: Seq<(Seq<char>, Option<Seq<char>>)>) -> Seq<Seq<char>>
    decreases args.len(),
{
    if args.len() == 0 {
        Seq::empty()
    } else if known_argument(args.last().0) {
        unknown_arguments(args.drop_last())
    } else {
        unknown_arguments(args.drop_last()).push(args.last().0)
    }
}

/// The route a declaration gives, or why it is refused.
pub open spec fn declared_route(method: Seq<char>, d: RouteDeclaration) -> Result<(Option<Seq<char>>, Option<Seq<char>>, bool), Seq<char>> {
    match d {
        RouteDeclaration::Absent => Ok((None, None, false)),
        RouteDeclaration::Repeated => Err(method_prefix(method) + "declares multiple Core route attributes"@),
        RouteDeclaration::WithoutArguments => Err(method_prefix(method) + "Core route requires arguments"@),
        RouteDeclaration::Unparsable(e) => Err(method_prefix(method) + "has invalid Core route arguments: "@ + e@),
        RouteDeclaration::Arguments(args) => arguments_route(method, arg_views(args@)),
    }
}

/// The route that read arguments give, or why they are refused.
pub open spec fn arguments_route(method: Seq<char>, a: Seq<(Seq<char>, Option<Seq<char>>)>) -> Result<(Option<Seq<char>>, Option<Seq<char>>, bool), Seq<char>> {
    match argument_error(method, a, 0) {
        Some(e) => Err(e),
        None => if unknown_arguments(a).len() > 0 {
            Err(method_prefix(method) + "has unsupported Core route arguments: "@ + join(unknown_arguments(a), ", "@))
        } else {
            match argument_value(a, "binding"@) {
                None => Err(method_prefix(method) + "Core route requires binding"@),
                Some(b) => Ok((Some(b), argument_value(a, "current"@), argument_value(a, "source"@) is Some)),
            }
        },
    }
}

/// The plain reading of a route: the binding argument (none for a local
/// route), the current-value resolver, and whether it follows transitions.
pub open spec fn route_view(r: MethodRoute) -> (Option<Seq<char>>, Option<Seq<char>>, bool) {
    match r {
        MethodRoute::Local => (None, None, false),
        MethodRoute::Binding { binding_argument, current_resolver, supports_source_transition } =>
            (Some(binding_argument@), match current_resolver { Some(c) => Some(c@), None => None }, supports_source_transition),
    }
}

/// `Method <name> ` followed by `rest`.
fn method_error(method: &str, rest: &str) -> (r: String)
    ensures
        r@ == method_prefix(method@) + rest@,
{
    let mut r = String::from_str("Method ");
    r.append(method);
    r.append(" ");
    r.append(rest);
    r
}

/// The value of the last argument called `name`.
fn value_named(args: &Vec<(String, Option<String>)>, name: &str) -> (r: Option<String>)
    ensures
        match r {
            Some(v) => argument_value(arg_views(args@), name@) == Some(v@),
            None => argument_value(arg_views(args@), name@) is None,
        },
{
    let ghost a = arg_views(args@);
    let mut i: usize = args.len();
    assert(a.subrange(0, args.len() as int) =~= a);
    while i > 0
        invariant
            i <= args.len(),
            a == arg_views(args@),
            argument_value(a, name@) == argument_value(a.subrange(0, i as int), name@),
        decreases i,
    {
        let ghost sub = a.subrange(0, i as int);
        assert(sub.drop_last() =~= a.subrange(0, i - 1));
        assert(sub.last() == a[i - 1]);
        if str_eq(args[i - 1].0.as_str(), name) {
            return match &args[i - 1].1 {
                Some(v) => Some(v.clone()),
                None => None,
            };
        }
        i = i - 1;
    }
    assert(a.subrange(0, 0).len() == 0);
    None
}

/// Reads a method's Core route declaration: no attribute makes a local
/// route; one attribute must carry identifier arguments, each named once,
/// among `binding` (required), `current` and `source`.
pub fn method_route(method: &str, declaration: &RouteDeclaration) -> (r: Result<MethodRoute, String>)
    ensures
        match r {
            Ok(route) => declared_route(method@, *declaration) == Ok::<_, Seq<char>>(route_view(route)),
            Err(e) => declared_route(method@, *declaration) == Err::<(Option<Seq<char>>, Option<Seq<char>>, bool), _>(e@),
        },
{
    let args = match declaration {
        RouteDeclaration::Absent => return Ok(MethodRoute::Local),
        RouteDeclaration::Repeated => return Err(method_error(method, "declares multiple Core route attributes")),
        RouteDeclaration::WithoutArguments => return Err(method_error(method, "Core route requires arguments")),
        RouteDeclaration::Unparsable(e) => {
            let mut r = method_error(method, "has invalid Core route arguments: ");
            r.append(e.as_str());
            return Err(r);
        },
        RouteDeclaration::Arguments(args) => args,
    };
    let ghost a = arg_views(args@);
    let mut i: usize = 0;
    while i < args.len()
        invariant
            i <= args.len(),
            a == arg_views(args@),
            *declaration == RouteDeclaration::Arguments(*args),
            argument_error(method@, a, 0) == argument_error(method@, a, i as int),
        decreases args.len() - i,
    {
        let name = &args[i].0;
        let value = &args[i].1;
        assert(a[i as int] == (name@, match value { Some(v) => Some(v@), None => None::<Seq<char>> }));
        if value.is_none() {
            let mut r = method_error(method, "Core route argument ");
            r.append(name.as_str());
            r.append(" must be an identifier");
            assert(r@ =~= method_prefix(method@) + "Core route argument "@ + name@ + " must be an identifier"@);
            return Err(r);
        }
        let mut j: usize = 0;
        while j < i
            invariant
                j <= i < args.len(),
                a == arg_views(args@),
                *declaration == RouteDeclaration::Arguments(*args),
                argument_error(method@, a, 0) == argument_error(method@, a, i as int),
                a[i as int].0 == name@,
                a[i as int].1 is Some,
                forall|k: int| 0 <= k < j ==> a[k].0 != a[i as int].0,
            decreases i - j,
        {
            assert(a[j as int] == (args@[j as int].0@, match args@[j as int].1 { Some(v) => Some(v@), None => None::<Seq<char>> }));
            if str_eq(args[j].0.as_str(), name.as_str()) {
                assert(a[j as int].0 == a[i as int].0);
                let mut r = method_error(method, "declares Core route argument ");
                r.append(name.as_str());
                r.append(" more than once");
                assert(r@ =~= method_prefix(method@) + "declares Core route argument "@ + name@ + " more than once"@);
                return Err(r);
            }
            j = j + 1;
        }
        i = i + 1;
    }
    let mut unknown: Vec<String> = Vec::new();
    let mut k: usize = 0;
    while k < args.len()
        invariant
            k <= args.len(),
            a == arg_views(args@),
            *declaration == RouteDeclaration::Arguments(*args),
            views(unknown@) =~= unknown_arguments(a.subrange(0, k as int)),
        decreases args.len() - k,
    {
        let ghost sub = a.subrange(0, k + 1);
        assert(sub.drop_last() =~= a.subrange(0, k as int));
        assert(sub.last() == a[k as int]);
        let n = args[k].0.as_str();
        if !(str_eq(n, "binding") || str_eq(n, "current") || str_eq(n, "source")) {
            let ghost before = views(unknown@);
            unknown.push(args[k].0.clone());
            assert(views(unknown@) =~= before.push(a[k as int].0));
        }
        k = k + 1;
    }
    assert(a.subrange(0, args.len() as int) =~= a);
    if unknown.len() > 0 {
        let mut r = method_error(method, "has unsupported Core route arguments: ");
        r.append(join_strings(&unknown, ", ").as_str());
        return Err(r);
    }
    let binding = match value_named(args, "binding") {
        Some(b) => b,
        None => return Err(method_error(method, "Core route requires binding")),
    };
    let current = value_named(args, "current");
    let source = value_named(args, "source").is_some();
    Ok(MethodRoute::Binding { binding_argument: binding, current_resolver: current, supports_source_transition: source })
}

} // verus!
