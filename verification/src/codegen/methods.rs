//! Decisions of the source scanner about one object's methods: how a scanned
//! method is carried by the link, and whether its Binding routes are sound.
use vstd::prelude::*;
use crate::codegen::args::generic_inner;
use crate::codegen::model::{
    is_call, is_reverse_stream, is_watch, FactoryProtocol, MethodProtocol, MethodRoute, ObjectSpec, ReverseStreamProtocol,
    SourceArg, SourceMethod, SourceObject,
};
use crate::codegen::object_dispatch::{binding_argument, first_named, transition_watch, transitions_declared};
use crate::text::{chars_of, concat, has_prefix, str_eq, string_of_range};

verus! {

/// The first method named `name` from position `i` on, or -1.
pub open spec fn first_method_named(ms: Seq<SourceMethod>, name: Seq<char>, i: int) -> int
    decreases ms.len() - i,
{
    if i < 0 || i >= ms.len() {
        -1
    } else if ms[i].name@ == name {
        i
    } else {
        first_method_named(ms, name, i + 1)
    }
}

/// `Object <type> does not declare route method <name>`.
pub open spec fn missing_route_method(ty_name: Seq<char>, name: Seq<char>) -> Seq<char> {
    "Object "@ + ty_name + " does not declare route method "@ + name
}

/// Returns one named method declared on the current generated object.
pub fn required_route_method<'a>(methods: &'a Vec<SourceMethod>, ty_name: &str, method_name: &str) -> (r: Result<&'a SourceMethod, String>)
    ensures
        match r {
            Ok(m) => first_method_named(methods@, method_name@, 0) >= 0
                && *m == methods@[first_method_named(methods@, method_name@, 0)],
            Err(e) => first_method_named(methods@, method_name@, 0) == -1
                && e@ == missing_route_method(ty_name@, method_name@),
        },
{
    let mut i: usize = 0;
    while i < methods.len()
        invariant
            i <= methods.len(),
            first_method_named(methods@, method_name@, 0) == first_method_named(methods@, method_name@, i as int),
        decreases methods.len() - i,
    {
        if str_eq(methods[i].name.as_str(), method_name) {
            return Ok(&methods[i]);
        }
        i = i + 1;
    }
    let mut e = concat("Object ", ty_name);
    e.append(" does not declare route method ");
    e.append(method_name);
    Err(e)
}

/// Why a current-key resolver is unusable, if it is: it must be a declared
/// zero-argument watch.
pub open spec fn resolver_error(ms: Seq<SourceMethod>, ty_name: Seq<char>, resolver: Seq<char>) -> Option<Seq<char>> {
    let k = first_method_named(ms, resolver, 0);
    if k < 0 {
        Some(missing_route_method(ty_name, resolver))
    } else if !is_watch(ms[k]) || ms[k].args@.len() != 0 {
        Some("Binding resolver "@ + ty_name + "."@ + resolver + " must be a zero-argument watch"@)
    } else {
        None
    }
}

/// Verifies that one explicit current-key resolver is a zero-argument watch.
pub fn validate_binding_resolver(methods: &Vec<SourceMethod>, ty_name: &str, resolver: &str) -> (r: Result<(), String>)
    ensures
        match r {
            Ok(()) => resolver_error(methods@, ty_name@, resolver@) is None,
            Err(e) => resolver_error(methods@, ty_name@, resolver@) == Some(e@),
        },
{
    let method = match required_route_method(methods, ty_name, resolver) {
        Ok(m) => m,
        Err(e) => return Err(e),
    };
    if !method.answers_watches() || method.args.len() != 0 {
        let mut e = concat("Binding resolver ", ty_name);
        e.append(".");
        e.append(resolver);
        e.append(" must be a zero-argument watch");
        return Err(e);
    }
    Ok(())
}

/// `Method <type>.<name> <what>`.
pub open spec fn method_message(ty_name: Seq<char>, m: SourceMethod, what: Seq<char>) -> Seq<char> {
    "Method "@ + ty_name + "."@ + m.name@ + what
}

/// Why one method's Binding declaration is unsound, if it is.
pub open spec fn route_error(ms: Seq<SourceMethod>, ty_name: Seq<char>, m: SourceMethod) -> Option<Seq<char>> {
    match m.route {
        MethodRoute::Local => None,
        MethodRoute::Binding { binding_argument, current_resolver, supports_source_transition } =>
            if !is_call(m) && !is_watch(m) && !is_reverse_stream(m) {
                Some(method_message(ty_name, m, " declares Binding routing without a Link protocol"@))
            } else if first_named(m.args@, binding_argument@, 0) < 0 {
                Some(method_message(ty_name, m, " declares unknown Binding argument "@ + binding_argument@))
            } else if current_resolver is Some && resolver_error(ms, ty_name, current_resolver->Some_0@) is Some {
                resolver_error(ms, ty_name, current_resolver->Some_0@)
            } else if supports_source_transition && !is_watch(m) {
                Some(method_message(ty_name, m, " declares a source transition without a watch protocol"@))
            } else {
                None
            },
    }
}

/// The first unsound Binding declaration among the first `n` methods.
pub open spec fn routes_error(ms: Seq<SourceMethod>, ty_name: Seq<char>, n: int) -> Option<Seq<char>>
    decreases n,
{
    if n <= 0 {
        None
    } else {
        match routes_error(ms, ty_name, n - 1) {
            Some(e) => Some(e),
            None => route_error(ms, ty_name, ms[n - 1]),
        }
    }
}

/// Whether a method has an argument with a given name.
fn has_arg_named(args: &Vec<SourceArg>, name: &str) -> (r: bool)
    ensures
        r == (first_named(args@, name@, 0) >= 0),
{
    let mut i: usize = 0;
    while i < args.len()
        invariant
            i <= args.len(),
            first_named(args@, name@, 0) == first_named(args@, name@, i as int),
        decreases args.len() - i,
    {
        if str_eq(args[i].name.as_str(), name) {
            return true;
        }
        i = i + 1;
    }
    false
}

/// Checks one method's Binding declaration.
fn validate_method_route(methods: &Vec<SourceMethod>, ty_name: &str, method: &SourceMethod) -> (r: Result<(), String>)
    ensures
        match r {
            Ok(()) => route_error(methods@, ty_name@, *method) is None,
            Err(e) => route_error(methods@, ty_name@, *method) == Some(e@),
        },
{
    let (binding_argument, current_resolver, supports_source_transition) = match &method.route {
        MethodRoute::Local => return Ok(()),
        MethodRoute::Binding { binding_argument, current_resolver, supports_source_transition } =>
            (binding_argument, current_resolver, *supports_source_transition),
    };
    if !method.answers_calls() && !method.answers_watches() && !method.takes_reverse_stream() {
        let mut e = concat("Method ", ty_name);
        e.append(".");
        e.append(method.name.as_str());
        e.append(" declares Binding routing without a Link protocol");
        return Err(e);
    }
    if !has_arg_named(&method.args, binding_argument.as_str()) {
        let mut e = concat("Method ", ty_name);
        e.append(".");
        e.append(method.name.as_str());
        e.append(" declares unknown Binding argument ");
        e.append(binding_argument.as_str());
        return Err(e);
    }
    if let Some(resolver) = current_resolver {
        if let Err(e) = validate_binding_resolver(methods, ty_name, resolver.as_str()) {
            return Err(e);
        }
    }
    if supports_source_transition && !method.answers_watches() {
        let mut e = concat("Method ", ty_name);
        e.append(".");
        e.append(method.name.as_str());
        e.append(" declares a source transition without a watch protocol");
        return Err(e);
    }
    Ok(())
}

/// Validates every method-level Binding declaration on one generated object,
/// giving the first unsound declaration's message.
pub fn validate_method_routes(methods: &Vec<SourceMethod>, ty_name: &str) -> (r: Result<(), String>)
    ensures
        match r {
            Ok(()) => routes_error(methods@, ty_name@, methods@.len() as int) is None,
            Err(e) => routes_error(methods@, ty_name@, methods@.len() as int) == Some(e@),
        },
{
    let mut i: usize = 0;
    while i < methods.len()
        invariant
            i <= methods.len(),
            routes_error(methods@, ty_name@, i as int) is None,
        decreases methods.len() - i,
    {
        if let Err(e) = validate_method_route(methods, ty_name, &methods[i]) {
            proof {
                assert(routes_error(methods@, ty_name@, i + 1) == Some(e@));
                lemma_routes_error_stays(methods@, ty_name@, i + 1, methods@.len() as int);
            }
            return Err(e);
        }
        i = i + 1;
    }
    Ok(())
}

/// Once an error is found among the first `a` methods, it is the first error
/// among any longer prefix.
proof fn lemma_routes_error_stays(ms: Seq<SourceMethod>, ty_name: Seq<char>, a: int, b: int)
    requires
        0 <= a <= b,
        routes_error(ms, ty_name, a) is Some,
    ensures
        routes_error(ms, ty_name, b) == routes_error(ms, ty_name, a),
    decreases b - a,
{
    if a < b {
        lemma_routes_error_stays(ms, ty_name, a, b - 1);
    }
}

/// Whether the object's methods include one that the proxy can call or watch.
pub open spec fn proxyable(ms: Seq<SourceMethod>) -> bool {
    exists|i: int| 0 <= i < ms.len() && (is_call(#[trigger] ms[i]) || is_watch(ms[i]))
}

/// Reports whether some method of a type answers calls or watches.
pub fn has_proxyable_instance_methods(methods: &Vec<SourceMethod>) -> (r: bool)
    ensures
        r == proxyable(methods@),
{
    let mut i: usize = 0;
    while i < methods.len()
        invariant
            i <= methods.len(),
            forall|k: int| 0 <= k < i ==> !(is_call(#[trigger] methods@[k]) || is_watch(methods@[k])),
        decreases methods.len() - i,
    {
        if methods[i].answers_calls() || methods[i].answers_watches() {
            return true;
        }
        i = i + 1;
    }
    false
}

/// The path of the portable caller-owned reverse stream type.
pub open spec fn reverse_stream_path() -> Seq<char> {
    "operit_util::stream::ReverseStream::ReverseStream"@
}

/// Returns the item type for the portable caller-owned reverse stream argument.
pub fn reverse_stream_item_type(ty: &str) -> (r: Option<String>)
    ensures
        match r {
            Some(s) => generic_inner(ty@, reverse_stream_path()) == Some(s@),
            None => generic_inner(ty@, reverse_stream_path()) is None,
        },
{
    let v = chars_of(ty);
    let p = chars_of("operit_util::stream::ReverseStream::ReverseStream<");
    proof {
        reveal_strlit("operit_util::stream::ReverseStream::ReverseStream<");
        reveal_strlit("operit_util::stream::ReverseStream::ReverseStream");
        reveal_strlit("<");
        assert("operit_util::stream::ReverseStream::ReverseStream<"@ =~= reverse_stream_path() + "<"@);
    }
    if v.len() <= p.len() || !crate::text::matches_at(&v, &p, 0) || v[v.len() - 1] != '>' {
        return None;
    }
    Some(string_of_range(&v, p.len(), v.len() - 1))
}

/// One input of a scanned method as the scanner reads it: the receiver, or a
/// typed argument with its identifier (absent for another pattern), its
/// normalized type, and whether that type can cross the link.
#[derive(Clone, Debug)]
pub enum ScannedInput {
    Receiver,
    Typed { ident: Option<String>, ty: String, supported: bool },
}

/// The arguments a method's inputs declare: the typed inputs with an identifier.
pub open spec fn input_args(inputs: Seq<ScannedInput>, n: int) -> Seq<(Seq<char>, Seq<char>)>
    decreases n,
{
    if n <= 0 {
        Seq::empty()
    } else {
        match inputs[n - 1] {
            ScannedInput::Typed { ident: Some(name), ty, .. } => input_args(inputs, n - 1).push((name@, ty@)),
            _ => input_args(inputs, n - 1),
        }
    }
}

/// The last argument error among the first `n` inputs.
pub open spec fn input_error(inputs: Seq<ScannedInput>, n: int) -> Option<Seq<char>>
    decreases n,
{
    if n <= 0 {
        None
    } else {
        match inputs[n - 1] {
            ScannedInput::Receiver => input_error(inputs, n - 1),
            ScannedInput::Typed { ident: None, .. } => Some("non-ident argument pattern"@),
            ScannedInput::Typed { ident: Some(_), ty, supported } =>
                if generic_inner(ty@, reverse_stream_path()) is None && !supported {
                    Some("unsupported argument type: "@ + ty@)
                } else {
                    input_error(inputs, n - 1)
                },
        }
    }
}

/// Some input is the receiver.
pub open spec fn has_receiver(inputs: Seq<ScannedInput>) -> bool {
    exists|i: int| 0 <= i < inputs.len() && (#[trigger] inputs[i]) is Receiver
}

/// The arguments that are reverse streams, with their item types.
pub open spec fn reverse_args(args: Seq<(Seq<char>, Seq<char>)>, n: int) -> Seq<(Seq<char>, Seq<char>)>
    decreases n,
{
    if n <= 0 {
        Seq::empty()
    } else {
        match generic_inner(args[n - 1].1, reverse_stream_path()) {
            Some(item) => reverse_args(args, n - 1).push((args[n - 1].0, item)),
            None => reverse_args(args, n - 1),
        }
    }
}

/// The arguments as name and type.
pub open spec fn arg_views(args: Seq<SourceArg>) -> Seq<(Seq<char>, Seq<char>)> {
    Seq::new(args.len(), |i: int| (args[i].name@, args[i].ty@))
}

/// What becomes of the protocol that a method's return type gives.
pub enum ProtocolOutcome {
    /// The returned protocol stands.
    Returned,
    /// The method is fed by its one reverse stream argument.
    ReverseStream { argument_name: Seq<char>, item_type: Seq<char> },
    /// The method cannot cross the link, for this reason.
    Unsupported(Seq<char>),
}

/// How a scanned method is carried by the link, from its inputs, whether it
/// is async, and whether its return type gives a watch: the last argument
/// error, a missing receiver or several reverse streams make it unsupported;
/// one reverse stream argument makes it a reverse stream; an async watch is
/// unsupported.
pub open spec fn protocol_outcome(inputs: Seq<ScannedInput>, is_async: bool, returns_watch: bool) -> ProtocolOutcome {
    let args = input_args(inputs, inputs.len() as int);
    let rev = reverse_args(args, args.len() as int);
    let e1 = input_error(inputs, inputs.len() as int);
    let e2 = if !has_receiver(inputs) { Some("associated function is not an instance method"@) } else { e1 };
    let e3 = if rev.len() > 1 { Some("a reverse-stream method accepts exactly one ReverseStream argument"@) } else { e2 };
    match e3 {
        Some(reason) => ProtocolOutcome::Unsupported(reason),
        None => if rev.len() == 1 {
            ProtocolOutcome::ReverseStream { argument_name: rev[0].0, item_type: rev[0].1 }
        } else if is_async && returns_watch {
            ProtocolOutcome::Unsupported("async watch method is not supported"@)
        } else {
            ProtocolOutcome::Returned
        },
    }
}

/// Builds one scanned method from what the scanner read of its signature and
/// the protocol its return type gives.
pub fn scanned_method(
    name: String,
    route: MethodRoute,
    inputs: &Vec<ScannedInput>,
    is_async: bool,
    cfg_attrs: Vec<String>,
    doc_lines: Vec<String>,
    rust_return_type: String,
    returned: MethodProtocol,
) -> (r: SourceMethod)
    ensures
        r.name == name,
        r.route == route,
        r.is_async == is_async,
        r.cfg_attrs == cfg_attrs,
        r.doc_lines == doc_lines,
        r.rust_return_type == rust_return_type,
        arg_views(r.args@) == input_args(inputs@, inputs@.len() as int),
        match protocol_outcome(inputs@, is_async, returned is Watch) {
            ProtocolOutcome::Returned => r.protocol == returned,
            ProtocolOutcome::ReverseStream { argument_name, item_type } =>
                r.protocol matches MethodProtocol::ReverseStream(p) && p.argument_name@ == argument_name && p.item_type@ == item_type,
            ProtocolOutcome::Unsupported(reason) => r.protocol matches MethodProtocol::Unsupported(m) && m@ == reason,
        },
{
    let mut args: Vec<SourceArg> = Vec::new();
    let mut error: Option<String> = None;
    let mut receiver = false;
    let mut i: usize = 0;
    while i < inputs.len()
        invariant
            i <= inputs.len(),
            arg_views(args@) =~= input_args(inputs@, i as int),
            match error {
                Some(e) => input_error(inputs@, i as int) == Some(e@),
                None => input_error(inputs@, i as int) is None,
            },
            receiver == exists|k: int| 0 <= k < i && (#[trigger] inputs@[k]) is Receiver,
        decreases inputs.len() - i,
    {
        match &inputs[i] {
            ScannedInput::Receiver => {
                receiver = true;
            },
            ScannedInput::Typed { ident, ty, supported } => {
                match ident {
                    None => {
                        error = Some(String::from_str("non-ident argument pattern"));
                    },
                    Some(n) => {
                        if reverse_stream_item_type(ty.as_str()).is_none() && !*supported {
                            error = Some(concat("unsupported argument type: ", ty.as_str()));
                        }
                        let a = SourceArg { name: n.clone(), ty: ty.clone() };
                        let ghost before = args@;
                        args.push(a);
                        assert(arg_views(args@) =~= arg_views(before).push((n@, ty@)));
                    },
                }
            },
        }
        i = i + 1;
    }
    if !receiver {
        error = Some(String::from_str("associated function is not an instance method"));
    }
    let mut rev_name: Option<String> = None;
    let mut rev_item: Option<String> = None;
    let mut rev_count: usize = 0;
    let ghost av = arg_views(args@);
    let mut j: usize = 0;
    while j < args.len()
        invariant
            j <= args.len(),
            av == arg_views(args@),
            rev_count == reverse_args(av, j as int).len(),
            rev_count <= j,
            rev_count >= 1 ==> (rev_name matches Some(n) && rev_item matches Some(t)
                && reverse_args(av, j as int)[0] == (n@, t@)),
        decreases args.len() - j,
    {
        let ghost prev = reverse_args(av, j as int);
        match reverse_stream_item_type(args[j].ty.as_str()) {
            Some(item) => {
                if rev_count == 0 {
                    rev_name = Some(args[j].name.clone());
                    rev_item = Some(item);
                }
                assert(reverse_args(av, j + 1) == prev.push((args@[j as int].name@, item@)));
                rev_count = rev_count + 1;
            },
            None => {},
        }
        j = j + 1;
    }
    let mut protocol = returned;
    if rev_count == 1 {
        match (rev_name, rev_item) {
            (Some(n), Some(t)) => {
                protocol = MethodProtocol::ReverseStream(ReverseStreamProtocol { argument_name: n, item_type: t });
            },
            _ => {},
        }
    } else if rev_count > 1 {
        error = Some(String::from_str("a reverse-stream method accepts exactly one ReverseStream argument"));
    }
    let is_watch_protocol = match &protocol {
        MethodProtocol::Watch(_) => true,
        _ => false,
    };
    if is_async && is_watch_protocol {
        protocol = MethodProtocol::Unsupported(String::from_str("async watch method is not supported"));
    }
    if let Some(reason) = error {
        protocol = MethodProtocol::Unsupported(reason);
    }
    SourceMethod { name, args, rust_return_type, is_async, cfg_attrs, doc_lines, route, protocol }
}

/// `<object key>.<method name>`: the schema key of a factory method's target.
pub open spec fn factory_key(o: SourceObject, m: SourceMethod) -> Seq<char> {
    o.schema_key@ + "."@ + m.name@
}

/// Some factory object has this schema key.
pub open spec fn has_factory_spec(specs: Seq<ObjectSpec>, key: Seq<char>) -> bool {
    exists|k: int| 0 <= k < specs.len() && (#[trigger] specs[k]).schema_key@ == key
}

/// The method after marking: a factory of its target when a factory object
/// has its key, unchanged otherwise.
pub open spec fn marked(m: SourceMethod, after: SourceMethod, specs: Seq<ObjectSpec>, key: Seq<char>) -> bool {
    &&& after.name == m.name
    &&& after.args == m.args
    &&& after.rust_return_type == m.rust_return_type
    &&& after.is_async == m.is_async
    &&& after.cfg_attrs == m.cfg_attrs
    &&& after.doc_lines == m.doc_lines
    &&& after.route == m.route
    &&& if has_factory_spec(specs, key) {
        after.protocol matches MethodProtocol::Factory(f) && f.target_schema_key@ == key
    } else {
        after.protocol == m.protocol
    }
}

/// Whether a factory object has the key.
fn factory_spec_exists(specs: &Vec<ObjectSpec>, key: &str) -> (r: bool)
    ensures
        r == has_factory_spec(specs@, key@),
{
    let mut k: usize = 0;
    while k < specs.len()
        invariant
            k <= specs.len(),
            forall|t: int| 0 <= t < k ==> (#[trigger] specs@[t]).schema_key@ != key@,
        decreases specs.len() - k,
    {
        if str_eq(specs[k].schema_key.as_str(), key) {
            return true;
        }
        k = k + 1;
    }
    false
}

/// Marks the methods of one object whose targets became factory objects.
fn mark_object_methods(object: SourceObject, factory_specs: &Vec<ObjectSpec>) -> (r: SourceObject)
    ensures
        r.schema_key == object.schema_key,
        r.dispatch_name == object.dispatch_name,
        r.full_type == object.full_type,
        r.access == object.access,
        r.path_match == object.path_match,
        r.methods@.len() == object.methods@.len(),
        forall|j: int| 0 <= j < object.methods@.len() ==>
            marked(object.methods@[j], #[trigger] r.methods@[j], factory_specs@, factory_key(object, object.methods@[j])),
{
    let SourceObject { schema_key, dispatch_name, full_type, access, path_match, methods } = object;
    let ghost orig = methods@;
    let mut rest = methods;
    let mut out: Vec<SourceMethod> = Vec::new();
    while rest.len() > 0
        invariant
            out@.len() + rest@.len() == orig.len(),
            rest@ == orig.subrange(out@.len() as int, orig.len() as int),
            forall|j: int| 0 <= j < out@.len() ==>
                marked(orig[j], #[trigger] out@[j], factory_specs@, schema_key@ + "."@ + orig[j].name@),
        decreases rest.len(),
    {
        let mut m = rest.remove(0);
        let ghost om = m;
        assert(om == orig[out@.len() as int]);
        let mut key = concat(schema_key.as_str(), ".");
        key.append(m.name.as_str());
        if factory_spec_exists(factory_specs, key.as_str()) {
            m.protocol = MethodProtocol::Factory(FactoryProtocol { target_schema_key: key });
        }
        out.push(m);
    }
    SourceObject { schema_key, dispatch_name, full_type, access, path_match, methods: out }
}

/// Marks every method whose returned object became a generated factory object.
pub fn mark_factory_methods(objects: &mut Vec<SourceObject>, factory_specs: &Vec<ObjectSpec>)
    ensures
        final(objects)@.len() == old(objects)@.len(),
        forall|i: int| 0 <= i < old(objects)@.len() ==> {
            let o = old(objects)@[i];
            let n = #[trigger] final(objects)@[i];
            &&& n.schema_key == o.schema_key
            &&& n.dispatch_name == o.dispatch_name
            &&& n.full_type == o.full_type
            &&& n.access == o.access
            &&& n.path_match == o.path_match
            &&& n.methods@.len() == o.methods@.len()
            &&& forall|j: int| 0 <= j < o.methods@.len() ==>
                marked(o.methods@[j], #[trigger] n.methods@[j], factory_specs@, factory_key(o, o.methods@[j]))
        },
{
    let ghost orig = objects@;
    let mut i: usize = 0;
    while i < objects.len()
        invariant
            objects@.len() == orig.len(),
            i <= objects@.len(),
            forall|t: int| i <= t < orig.len() ==> objects@[t] == orig[t],
            forall|t: int| 0 <= t < i ==> {
                let o = orig[t];
                let n = #[trigger] objects@[t];
                &&& n.schema_key == o.schema_key
                &&& n.dispatch_name == o.dispatch_name
                &&& n.full_type == o.full_type
                &&& n.access == o.access
                &&& n.path_match == o.path_match
                &&& n.methods@.len() == o.methods@.len()
                &&& forall|j: int| 0 <= j < o.methods@.len() ==>
                    marked(o.methods@[j], #[trigger] n.methods@[j], factory_specs@, factory_key(o, o.methods@[j]))
            },
        decreases orig.len() - i,
    {
        let o = objects.remove(i);
        let n = mark_object_methods(o, factory_specs);
        objects.insert(i, n);
        i = i + 1;
    }
}

/// No method among the first `n` has an unsound Binding declaration when
/// none is reported.
proof fn lemma_routes_error_none(ms: Seq<SourceMethod>, ty_name: Seq<char>, n: int)
    requires
        0 <= n <= ms.len(),
        routes_error(ms, ty_name, n) is None,
    ensures
        forall|i: int| 0 <= i < n ==> route_error(ms, ty_name, #[trigger] ms[i]) is None,
    decreases n,
{
    if n > 0 {
        lemma_routes_error_none(ms, ty_name, n - 1);
    }
}

/// An object whose Binding routes validate declares the Binding argument of
/// every watch that accepts source transitions, which is what its transition
/// dispatcher needs.
pub proof fn law_validated_routes_declare_transition_bindings(o: SourceObject, ty_name: Seq<char>)
    requires
        routes_error(o.methods@, ty_name, o.methods@.len() as int) is None,
    ensures
        transitions_declared(o),
{
    lemma_routes_error_none(o.methods@, ty_name, o.methods@.len() as int);
    assert forall|i: int| 0 <= i < o.methods@.len() && transition_watch(#[trigger] o.methods@[i])
        implies first_named(o.methods@[i].args@, binding_argument(o.methods@[i]), 0) >= 0 by {
        assert(route_error(o.methods@, ty_name, o.methods@[i]) is None);
    }
}

} // verus!
