//! The per-object dispatch functions of the generated proxy: one for calls,
//! one for blocking calls, one for watch snapshots, one for watch streams and
//! one for watch source transitions.
use vstd::prelude::*;
use crate::codegen::args::{call_expr, decode_type, render_arg_call_expr, render_arg_decode_type};
use crate::codegen::arms::{
    call_arm, errors_known, render_call_arm, render_watch_snapshot_arm, render_watch_stream_arm,
    snapshot_typed, text_events_bound, watch_snapshot_arm, watch_stream_arm,
};
use crate::codegen::model::{accepts_transition, is_call, is_watch, MethodProtocol, MethodRoute, SourceArg, SourceMethod, SourceObject};
use crate::text::{debug_text, quoted, str_eq};

verus! {

/// Whether the call dispatcher holds an arm for the method: every call, or
/// only the blocking ones for the blocking dispatcher.
pub open spec fn in_call_dispatch(m: SourceMethod, blocking: bool) -> bool {
    is_call(m) && (!blocking || !m.is_async)
}

/// The call arms of the first `n` methods.
pub open spec fn call_arms(ms: Seq<SourceMethod>, table: Seq<(String, String)>, blocking: bool, n: int) -> Seq<char>
    decreases n,
{
    if n <= 0 {
        Seq::empty()
    } else {
        call_arms(ms, table, blocking, n - 1) + if in_call_dispatch(ms[n - 1], blocking) { call_arm(ms[n - 1], table) } else { Seq::empty() }
    }
}

/// Every call method's error types have converters.
pub open spec fn object_errors_known(o: SourceObject, table: Seq<(String, String)>) -> bool {
    forall|i: int| 0 <= i < o.methods@.len() ==> errors_known(#[trigger] o.methods@[i], table)
}

/// The arm the `application` object adds for its schema.
pub open spec fn schema_arm(o: SourceObject) -> Seq<char> {
    if o.schema_key@ == "application"@ {
        "        \"coreProxySchema\" => Ok(generated_core_proxy_schema()),\n"@
    } else {
        Seq::empty()
    }
}

/// The call dispatcher of one object, async or blocking.
pub open spec fn object_call_dispatch(o: SourceObject, table: Seq<(String, String)>, blocking: bool) -> Seq<char> {
    "#[allow(unused_mut, unused_variables)]\n"@
        + (if blocking { "fn generated_dispatch_"@ } else { "async fn generated_dispatch_"@ })
        + o.dispatch_name@
        + (if blocking { "_call_sync(object: &mut "@ } else { "_call(object: &mut "@ })
        + o.full_type@
        + ", request: operit_link::CoreCallRequest) -> Result<operit_link::CoreValue, operit_link::CoreLinkError> {\n"@
        + "    let registryKey = request.registryKey();\n"@
        + "    let mut __core_args = object_args(request.args)?;\n"@
        + "    match request.methodName.as_str() {\n"@
        + call_arms(o.methods@, table, blocking, o.methods@.len() as int)
        + schema_arm(o)
        + "        _ => Err(operit_link::CoreLinkError::methodNotFound(&registryKey)),\n"@
        + "    }\n}\n"@
}

/// Renders one object's call dispatcher.
fn render_call_dispatch(object: &SourceObject, error_types: &Vec<(String, String)>, blocking: bool) -> (r: String)
    requires
        object_errors_known(*object, error_types@),
    ensures
        r@ == object_call_dispatch(*object, error_types@, blocking),
{
    let mut r = String::from_str("#[allow(unused_mut, unused_variables)]\n");
    if blocking {
        r.append("fn generated_dispatch_");
    } else {
        r.append("async fn generated_dispatch_");
    }
    r.append(object.dispatch_name.as_str());
    if blocking {
        r.append("_call_sync(object: &mut ");
    } else {
        r.append("_call(object: &mut ");
    }
    r.append(object.full_type.as_str());
    r.append(", request: operit_link::CoreCallRequest) -> Result<operit_link::CoreValue, operit_link::CoreLinkError> {\n");
    r.append("    let registryKey = request.registryKey();\n");
    r.append("    let mut __core_args = object_args(request.args)?;\n");
    r.append("    match request.methodName.as_str() {\n");
    let ghost head = r@;
    let mut i: usize = 0;
    while i < object.methods.len()
        invariant
            i <= object.methods.len(),
            object_errors_known(*object, error_types@),
            r@ == head + call_arms(object.methods@, error_types@, blocking, i as int),
        decreases object.methods.len() - i,
    {
        let m = &object.methods[i];
        if m.answers_calls() && (!blocking || !m.is_async) {
            assert(errors_known(object.methods@[i as int], error_types@));
            let a = render_call_arm(m, error_types);
            r.append(a.as_str());
        }
        i = i + 1;
    }
    if str_eq(object.schema_key.as_str(), "application") {
        r.append("        \"coreProxySchema\" => Ok(generated_core_proxy_schema()),\n");
    }
    r.append("        _ => Err(operit_link::CoreLinkError::methodNotFound(&registryKey)),\n");
    r.append("    }\n}\n");
    r
}

/// Renders the async call dispatcher of one object.
pub fn render_object_call_dispatch(object: &SourceObject, error_types: &Vec<(String, String)>) -> (r: String)
    requires
        object_errors_known(*object, error_types@),
    ensures
        r@ == object_call_dispatch(*object, error_types@, false),
{
    render_call_dispatch(object, error_types, false)
}

/// Renders the blocking call dispatcher of one object: its non-async calls only.
pub fn render_object_sync_call_dispatch(object: &SourceObject, error_types: &Vec<(String, String)>) -> (r: String)
    requires
        object_errors_known(*object, error_types@),
    ensures
        r@ == object_call_dispatch(*object, error_types@, true),
{
    render_call_dispatch(object, error_types, true)
}

/// The method is a watch with a snapshot type.
pub open spec fn has_snapshot(m: SourceMethod) -> bool {
    m.protocol matches MethodProtocol::Watch(w) && w.snapshot_type is Some
}

/// The snapshot arms of the first `n` methods.
pub open spec fn snapshot_arms(ms: Seq<SourceMethod>, n: int) -> Seq<char>
    decreases n,
{
    if n <= 0 {
        Seq::empty()
    } else {
        snapshot_arms(ms, n - 1) + if has_snapshot(ms[n - 1]) { watch_snapshot_arm(ms[n - 1]) } else { Seq::empty() }
    }
}

/// The watch snapshot dispatcher of one object.
pub open spec fn object_watch_snapshot_dispatch(o: SourceObject) -> Seq<char> {
    "#[allow(unused_mut, unused_variables)]\n"@
        + "fn generated_dispatch_"@ + o.dispatch_name@ + "_watch_snapshot(object: &mut "@ + o.full_type@
        + ", request: &operit_link::CoreWatchRequest) -> Result<operit_link::CoreValue, operit_link::CoreLinkError> {\n"@
        + "    let registryKey = request.registryKey();\n"@
        + "    let mut __core_args = object_args(request.args.clone())?;\n"@
        + "    match request.propertyName.as_str() {\n"@
        + snapshot_arms(o.methods@, o.methods@.len() as int)
        + "        _ => Err(operit_link::CoreLinkError::watchNotFound(&registryKey)),\n"@
        + "    }\n}\n"@
}

/// Renders the watch snapshot dispatcher of one object.
pub fn render_object_watch_snapshot_dispatch(object: &SourceObject) -> (r: String)
    ensures
        r@ == object_watch_snapshot_dispatch(*object),
{
    let mut r = String::from_str("#[allow(unused_mut, unused_variables)]\n");
    r.append("fn generated_dispatch_");
    r.append(object.dispatch_name.as_str());
    r.append("_watch_snapshot(object: &mut ");
    r.append(object.full_type.as_str());
    r.append(", request: &operit_link::CoreWatchRequest) -> Result<operit_link::CoreValue, operit_link::CoreLinkError> {\n");
    r.append("    let registryKey = request.registryKey();\n");
    r.append("    let mut __core_args = object_args(request.args.clone())?;\n");
    r.append("    match request.propertyName.as_str() {\n");
    let ghost head = r@;
    let mut i: usize = 0;
    while i < object.methods.len()
        invariant
            i <= object.methods.len(),
            r@ == head + snapshot_arms(object.methods@, i as int),
        decreases object.methods.len() - i,
    {
        let m = &object.methods[i];
        let typed = match &m.protocol {
            MethodProtocol::Watch(w) => w.snapshot_type.is_some(),
            _ => false,
        };
        if typed {
            let a = render_watch_snapshot_arm(m);
            r.append(a.as_str());
        }
        i = i + 1;
    }
    r.append("        _ => Err(operit_link::CoreLinkError::watchNotFound(&registryKey)),\n");
    r.append("    }\n}\n");
    r
}

/// The stream arms of the first `n` methods.
pub open spec fn stream_arms(ms: Seq<SourceMethod>, n: int) -> Seq<char>
    decreases n,
{
    if n <= 0 {
        Seq::empty()
    } else {
        stream_arms(ms, n - 1) + if is_watch(ms[n - 1]) { watch_stream_arm(ms[n - 1]) } else { Seq::empty() }
    }
}

/// Every text-event watch of the object is routed by a Binding key.
pub open spec fn object_text_events_bound(o: SourceObject) -> bool {
    forall|i: int| 0 <= i < o.methods@.len() ==> text_events_bound(#[trigger] o.methods@[i])
}

/// The watch stream dispatcher of one object.
pub open spec fn object_watch_dispatch(o: SourceObject) -> Seq<char> {
    "#[allow(unused_mut, unused_variables)]\n"@
        + "fn generated_dispatch_"@ + o.dispatch_name@ + "_watch(object: &mut "@ + o.full_type@
        + ", request: operit_link::CoreWatchRequest) -> Result<operit_link::CoreEventStream, operit_link::CoreLinkError> {\n"@
        + "    let registryKey = request.registryKey();\n"@
        + "    let mut __core_args = object_args(request.args.clone())?;\n"@
        + "    match request.propertyName.as_str() {\n"@
        + stream_arms(o.methods@, o.methods@.len() as int)
        + "        _ => Err(operit_link::CoreLinkError::watchNotFound(&registryKey)),\n"@
        + "    }\n}\n"@
}

/// Renders the watch stream dispatcher of one object.
pub fn render_object_watch_dispatch(object: &SourceObject) -> (r: String)
    requires
        object_text_events_bound(*object),
    ensures
        r@ == object_watch_dispatch(*object),
{
    let mut r = String::from_str("#[allow(unused_mut, unused_variables)]\n");
    r.append("fn generated_dispatch_");
    r.append(object.dispatch_name.as_str());
    r.append("_watch(object: &mut ");
    r.append(object.full_type.as_str());
    r.append(", request: operit_link::CoreWatchRequest) -> Result<operit_link::CoreEventStream, operit_link::CoreLinkError> {\n");
    r.append("    let registryKey = request.registryKey();\n");
    r.append("    let mut __core_args = object_args(request.args.clone())?;\n");
    r.append("    match request.propertyName.as_str() {\n");
    let ghost head = r@;
    let mut i: usize = 0;
    while i < object.methods.len()
        invariant
            i <= object.methods.len(),
            object_text_events_bound(*object),
            r@ == head + stream_arms(object.methods@, i as int),
        decreases object.methods.len() - i,
    {
        let m = &object.methods[i];
        if m.answers_watches() {
            assert(text_events_bound(object.methods@[i as int]));
            let a = render_watch_stream_arm(m);
            r.append(a.as_str());
        }
        i = i + 1;
    }
    r.append("        _ => Err(operit_link::CoreLinkError::watchNotFound(&registryKey)),\n");
    r.append("    }\n}\n");
    r
}

/// The position of the first argument named `name` from `i` on, or -1.
pub open spec fn first_named(args: Seq<SourceArg>, name: Seq<char>, i: int) -> int
    decreases args.len() - i,
{
    if i < 0 || i >= args.len() {
        -1
    } else if args[i].name@ == name {
        i
    } else {
        first_named(args, name, i + 1)
    }
}

/// The method's Binding argument, when its route is a Binding.
pub open spec fn binding_argument(m: SourceMethod) -> Seq<char> {
    m.route->binding_argument@
}

/// The watch accepts source transitions.
pub open spec fn transition_watch(m: SourceMethod) -> bool {
    is_watch(m) && accepts_transition(m)
}

/// Every transition watch of the object declares its Binding argument.
pub open spec fn transitions_declared(o: SourceObject) -> bool {
    forall|i: int| 0 <= i < o.methods@.len() && transition_watch(#[trigger] o.methods@[i])
        ==> first_named(o.methods@[i].args@, binding_argument(o.methods@[i]), 0) >= 0
}

/// The transition arm of one watch.
pub open spec fn transition_arm(m: SourceMethod) -> Seq<char> {
    let b = m.args@[first_named(m.args@, binding_argument(m), 0)];
    "        "@ + debug_text(m.name@) + " => {\n            let "@ + b.name@ + ": "@ + decode_type(b.ty@)
        + " = decode_core_arg(&mut __core_args, "@ + debug_text(b.name@)
        + ")?;\n            operit_link::CoreWatchSourceActivator::activateWatchSource(object, "@ + call_expr(b.name@, b.ty@)
        + ".to_string(), transition).await.map_err(|error| operit_link::CoreLinkError::new(\"STREAM_SOURCE_RESUME_FAILED\", error.to_string()))\n        }\n"@
}

/// The transition arms of the first `n` methods.
pub open spec fn transition_arms(ms: Seq<SourceMethod>, n: int) -> Seq<char>
    decreases n,
{
    if n <= 0 {
        Seq::empty()
    } else {
        transition_arms(ms, n - 1) + if transition_watch(ms[n - 1]) { transition_arm(ms[n - 1]) } else { Seq::empty() }
    }
}

/// The watch transition dispatcher of one object, or nothing when no watch
/// of the object accepts source transitions.
pub open spec fn object_watch_transition_dispatch(o: SourceObject) -> Seq<char> {
    if !(exists|i: int| 0 <= i < o.methods@.len() && transition_watch(#[trigger] o.methods@[i])) {
        Seq::empty()
    } else {
        "#[allow(unused_mut, unused_variables)]\n"@
            + "async fn generated_dispatch_"@ + o.dispatch_name@ + "_watch_transition(object: &mut "@ + o.full_type@
            + ", request: &operit_link::CoreWatchRequest, transition: operit_link::CoreWatchSourceResume) -> Result<(), operit_link::CoreLinkError> {\n"@
            + "    let mut __core_args = object_args(request.args.clone())?;\n"@
            + "    match request.propertyName.as_str() {\n"@
            + transition_arms(o.methods@, o.methods@.len() as int)
            + "        _ => Err(operit_link::CoreLinkError::new(\"STREAM_SOURCE_RESUME_UNSUPPORTED\", format!(\"Core watch {} does not accept source transitions\", request.propertyName))),\n"@
            + "    }\n}\n"@
    }
}

/// Finds the first argument with a given name.
fn find_arg<'a>(args: &'a Vec<SourceArg>, name: &str) -> (r: Option<&'a SourceArg>)
    ensures
        match r {
            Some(a) => first_named(args@, name@, 0) >= 0 && *a == args@[first_named(args@, name@, 0)],
            None => first_named(args@, name@, 0) == -1,
        },
{
    let mut i: usize = 0;
    while i < args.len()
        invariant
            i <= args.len(),
            first_named(args@, name@, 0) == first_named(args@, name@, i as int),
        decreases args.len() - i,
    {
        if str_eq(args[i].name.as_str(), name) {
            return Some(&args[i]);
        }
        i = i + 1;
    }
    None
}

/// Renders the transition arm of one watch.
fn render_transition_arm(method: &SourceMethod) -> (r: String)
    requires
        transition_watch(*method),
        first_named(method.args@, binding_argument(*method), 0) >= 0,
    ensures
        r@ == transition_arm(*method),
{
    let key = match &method.route {
        MethodRoute::Binding { binding_argument, .. } => binding_argument,
        MethodRoute::Local => return String::new(),
    };
    let b = match find_arg(&method.args, key.as_str()) {
        Some(b) => b,
        None => return String::new(),
    };
    let mut r = String::from_str("        ");
    let q = quoted(method.name.as_str());
    r.append(q.as_str());
    r.append(" => {\n            let ");
    r.append(b.name.as_str());
    r.append(": ");
    let t = render_arg_decode_type(b);
    r.append(t.as_str());
    r.append(" = decode_core_arg(&mut __core_args, ");
    let qb = quoted(b.name.as_str());
    r.append(qb.as_str());
    r.append(")?;\n            operit_link::CoreWatchSourceActivator::activateWatchSource(object, ");
    let e = render_arg_call_expr(b);
    r.append(e.as_str());
    r.append(".to_string(), transition).await.map_err(|error| operit_link::CoreLinkError::new(\"STREAM_SOURCE_RESUME_FAILED\", error.to_string()))\n        }\n");
    r
}

/// Renders the source activation dispatcher for one generated watch object.
pub fn render_object_watch_transition_dispatch(object: &SourceObject) -> (r: String)
    requires
        transitions_declared(*object),
    ensures
        r@ == object_watch_transition_dispatch(*object),
{
    if !crate::codegen::model::object_has_watch_transition(object) {
        proof {
            assert forall|i: int| 0 <= i < object.methods@.len() implies !transition_watch(#[trigger] object.methods@[i]) by {
                assert(!(is_watch(object.methods@[i]) && accepts_transition(object.methods@[i])));
            }
        }
        return String::new();
    }
    let mut r = String::from_str("#[allow(unused_mut, unused_variables)]\n");
    r.append("async fn generated_dispatch_");
    r.append(object.dispatch_name.as_str());
    r.append("_watch_transition(object: &mut ");
    r.append(object.full_type.as_str());
    r.append(", request: &operit_link::CoreWatchRequest, transition: operit_link::CoreWatchSourceResume) -> Result<(), operit_link::CoreLinkError> {\n");
    r.append("    let mut __core_args = object_args(request.args.clone())?;\n");
    r.append("    match request.propertyName.as_str() {\n");
    let ghost head = r@;
    let mut i: usize = 0;
    while i < object.methods.len()
        invariant
            i <= object.methods.len(),
            transitions_declared(*object),
            r@ == head + transition_arms(object.methods@, i as int),
        decreases object.methods.len() - i,
    {
        let m = &object.methods[i];
        if m.answers_watches() && m.accepts_source_transition() {
            assert(transition_watch(object.methods@[i as int]));
            let a = render_transition_arm(m);
            r.append(a.as_str());
        }
        i = i + 1;
    }
    r.append("        _ => Err(operit_link::CoreLinkError::new(\"STREAM_SOURCE_RESUME_UNSUPPORTED\", format!(\"Core watch {} does not accept source transitions\", request.propertyName))),\n");
    r.append("    }\n}\n");
    proof {
        let k = choose|k: int| 0 <= k < object.methods@.len() && is_watch(#[trigger] object.methods@[k]) && accepts_transition(object.methods@[k]);
        assert(transition_watch(object.methods@[k]));
    }
    r
}

} // verus!
