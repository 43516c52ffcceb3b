//! The match arms that the generated dispatchers hold for each method: a
//! call, a watch snapshot, or the stream of a watch.
use vstd::prelude::*;
use crate::codegen::args::{
    await_suffix, await_text, call_list, cfg_text, decoders, render_arg_call_list, render_arg_decoders,
    render_cfg_attrs,
};
use crate::codegen::model::{CallProtocol, MethodProtocol, MethodRoute, SourceMethod, WatchStreamProtocol};
use crate::text::{debug_text, quoted, str_eq, views};

verus! {

/// The first entry of an error-type table for `key`: the table pairs each
/// generated error type with the function that converts its details.
pub open spec fn table_lookup(t: Seq<(String, String)>, key: Seq<char>) -> Option<Seq<char>>
    decreases t.len(),
{
    if t.len() == 0 {
        None
    } else if t[0].0@ == key {
        Some(t[0].1@)
    } else {
        table_lookup(t.drop_first(), key)
    }
}

/// The details converter for an error type: the fixed one for `String`,
/// otherwise the one the table names.
pub open spec fn error_converter(error_type: Seq<char>, table: Seq<(String, String)>) -> Option<Seq<char>> {
    if error_type == "String"@ {
        Some("generated_core_proxy_error_details_for_string"@)
    } else {
        table_lookup(table, error_type)
    }
}

/// Names the function that converts one error type's details.
pub fn error_details_converter(error_type: &str, error_types: &Vec<(String, String)>) -> (r: String)
    requires
        error_converter(error_type@, error_types@) is Some,
    ensures
        r@ == error_converter(error_type@, error_types@)->Some_0,
{
    if str_eq(error_type, "String") {
        return String::from_str("generated_core_proxy_error_details_for_string");
    }
    let mut i: usize = 0;
    assert(error_types@.subrange(0, error_types@.len() as int) =~= error_types@);
    while i < error_types.len()
        invariant
            i <= error_types.len(),
            error_type@ != "String"@,
            table_lookup(error_types@, error_type@) == table_lookup(error_types@.subrange(i as int, error_types@.len() as int), error_type@),
            table_lookup(error_types@, error_type@) is Some,
        decreases error_types.len() - i,
    {
        assert(error_types@.subrange(i as int, error_types@.len() as int).drop_first()
            =~= error_types@.subrange(i + 1, error_types@.len() as int));
        assert(error_types@.subrange(i as int, error_types@.len() as int)[0] == error_types@[i as int]);
        if str_eq(error_types[i].0.as_str(), error_type) {
            let r = error_types[i].1.clone();
            assert(table_lookup(error_types@.subrange(i as int, error_types@.len() as int), error_type@) == Some(error_types@[i as int].1@));
            assert(r@ == error_types@[i as int].1@);
            return r;
        }
        i = i + 1;
    }
    assert(error_types@.subrange(i as int, error_types@.len() as int).len() == 0);
    String::new()
}

/// A typed runtime value as a native CoreValue result: bytes directly, any
/// other value through its serialized form.
pub open spec fn core_value_result(value_type: Seq<char>, value: Seq<char>) -> Seq<char> {
    if value_type == "Vec<u8>"@ {
        "Ok(operit_link::CoreValue::Bytes("@ + value + "))"@
    } else {
        "to_core_value("@ + value + ")"@
    }
}

/// Renders a typed runtime value as a native CoreValue result.
pub fn render_core_value_result(value_type: &str, value: &str) -> (r: String)
    ensures
        r@ == core_value_result(value_type@, value@),
{
    let mut r = String::new();
    if str_eq(value_type, "Vec<u8>") {
        r.append("Ok(operit_link::CoreValue::Bytes(");
        r.append(value);
        r.append("))");
    } else {
        r.append("to_core_value(");
        r.append(value);
        r.append(")");
    }
    r
}

/// The error types that a method's call needs converters for are known.
pub open spec fn errors_known(m: SourceMethod, table: Seq<(String, String)>) -> bool {
    match m.protocol {
        MethodProtocol::Call(CallProtocol::ResultUnit { error_type }) => error_converter(error_type@, table) is Some,
        MethodProtocol::Call(CallProtocol::ResultValue { error_type, .. }) => error_converter(error_type@, table) is Some,
        _ => true,
    }
}

/// `object.<name>(<args>)`, awaited for an async method.
pub open spec fn invocation(m: SourceMethod) -> Seq<char> {
    "object."@ + m.name@ + "("@ + call_list(m.args@) + ")"@ + await_text(m)
}

/// The conversion of a call's error into a link error.
pub open spec fn error_mapping(converter: Seq<char>) -> Seq<char> {
    ".map_err(|error| core_call_error(error.to_string(), "@ + converter + "(&error)))?"@
}

/// One arm: the quoted name, the argument decoders and the body.
pub open spec fn arm(m: SourceMethod, body: Seq<char>) -> Seq<char> {
    "        "@ + debug_text(m.name@) + " => {\n"@ + decoders(m.args@, m.args@.len() as int) + body + "        }\n"@
}

/// The method's configuration attributes.
pub open spec fn cfg_of(m: SourceMethod) -> Seq<char> {
    cfg_text(views(m.cfg_attrs@), m.cfg_attrs@.len() as int)
}

/// The arm that answers one call, after the method's configuration attributes.
pub open spec fn call_arm(m: SourceMethod, table: Seq<(String, String)>) -> Seq<char> {
    cfg_of(m) + match m.protocol {
        MethodProtocol::Call(CallProtocol::Unit) =>
            arm(m, "            "@ + invocation(m) + ";\n            Ok(operit_link::CoreValue::Null)\n"@),
        MethodProtocol::Call(CallProtocol::ResultUnit { error_type }) =>
            arm(m, "            "@ + invocation(m) + error_mapping(error_converter(error_type@, table)->Some_0)
                + ";\n            Ok(operit_link::CoreValue::Null)\n"@),
        MethodProtocol::Call(CallProtocol::Value(value_type)) =>
            arm(m, "            "@ + core_value_result(value_type@, invocation(m)) + "\n"@),
        MethodProtocol::Call(CallProtocol::ResultValue { value_type, error_type }) =>
            arm(m, "            "@ + core_value_result(value_type@, invocation(m) + error_mapping(error_converter(error_type@, table)->Some_0)) + "\n"@),
        _ => Seq::empty(),
    }
}

/// Renders `object.<name>(<args>)`, awaited for an async method.
fn render_invocation(method: &SourceMethod) -> (r: String)
    ensures
        r@ == invocation(*method),
{
    let mut r = String::from_str("object.");
    r.append(method.name.as_str());
    r.append("(");
    let ca = render_arg_call_list(method);
    r.append(ca.as_str());
    r.append(")");
    r.append(await_suffix(method));
    r
}

/// Renders one arm around its body.
fn render_arm(method: &SourceMethod, body: &str) -> (r: String)
    ensures
        r@ == arm(*method, body@),
{
    let mut r = String::from_str("        ");
    let q = quoted(method.name.as_str());
    r.append(q.as_str());
    r.append(" => {\n");
    let d = render_arg_decoders(method);
    r.append(d.as_str());
    r.append(body);
    r.append("        }\n");
    r
}

/// Renders the arm that answers one call.
pub fn render_call_arm(method: &SourceMethod, error_types: &Vec<(String, String)>) -> (r: String)
    requires
        errors_known(*method, error_types@),
    ensures
        r@ == call_arm(*method, error_types@),
{
    let mut r = render_cfg_attrs(method);
    let a = match &method.protocol {
        MethodProtocol::Call(CallProtocol::Unit) => {
            let mut body = String::from_str("            ");
            let inv = render_invocation(method);
            body.append(inv.as_str());
            body.append(";\n            Ok(operit_link::CoreValue::Null)\n");
            render_arm(method, body.as_str())
        },
        MethodProtocol::Call(CallProtocol::ResultUnit { error_type }) => {
            let mut body = String::from_str("            ");
            let inv = render_invocation(method);
            body.append(inv.as_str());
            body.append(".map_err(|error| core_call_error(error.to_string(), ");
            let conv = error_details_converter(error_type.as_str(), error_types);
            body.append(conv.as_str());
            body.append("(&error)))?");
            body.append(";\n            Ok(operit_link::CoreValue::Null)\n");
            render_arm(method, body.as_str())
        },
        MethodProtocol::Call(CallProtocol::Value(value_type)) => {
            let mut body = String::from_str("            ");
            let inv = render_invocation(method);
            let v = render_core_value_result(value_type.as_str(), inv.as_str());
            body.append(v.as_str());
            body.append("\n");
            render_arm(method, body.as_str())
        },
        MethodProtocol::Call(CallProtocol::ResultValue { value_type, error_type }) => {
            let mut body = String::from_str("            ");
            let mut value = render_invocation(method);
            value.append(".map_err(|error| core_call_error(error.to_string(), ");
            let conv = error_details_converter(error_type.as_str(), error_types);
            value.append(conv.as_str());
            value.append("(&error)))?");
            let v = render_core_value_result(value_type.as_str(), value.as_str());
            body.append(v.as_str());
            body.append("\n");
            render_arm(method, body.as_str())
        },
        _ => String::new(),
    };
    r.append(a.as_str());
    r
}

/// `object.<name>(<args>)` without awaiting: the call a watch starts with.
pub open spec fn watch_source(m: SourceMethod) -> Seq<char> {
    "object."@ + m.name@ + "("@ + call_list(m.args@) + ")"@
}

/// A failure of the watched source as an internal link error.
pub open spec fn internal_error() -> Seq<char> {
    ".map_err(|error| operit_link::CoreLinkError::internal(error.to_string()))?"@
}

/// The expression that reads a watch's current value, for the streams that have one.
pub open spec fn snapshot_value(m: SourceMethod, stream: WatchStreamProtocol) -> Option<Seq<char>> {
    match stream {
        WatchStreamProtocol::JsonFlow { fallible } => Some(if fallible {
            watch_source(m) + internal_error() + ".first()"@ + internal_error()
        } else {
            watch_source(m) + ".first()"@ + internal_error()
        }),
        WatchStreamProtocol::JsonState { fallible } => Some(if fallible {
            watch_source(m) + internal_error() + ".value()"@
        } else {
            watch_source(m) + ".value()"@
        }),
        _ => None,
    }
}

/// A watch whose snapshot arm needs its snapshot type has one.
pub open spec fn snapshot_typed(m: SourceMethod) -> bool {
    m.protocol matches MethodProtocol::Watch(w) ==> (snapshot_value(m, w.stream) is Some ==> w.snapshot_type is Some)
}

/// The arm that answers one watch snapshot, or nothing for a method whose
/// stream has no current value.
pub open spec fn watch_snapshot_arm(m: SourceMethod) -> Seq<char> {
    match m.protocol {
        MethodProtocol::Watch(w) => match snapshot_value(m, w.stream) {
            Some(v) => cfg_of(m) + arm(m, "            "@ + core_value_result(w.snapshot_type->Some_0@, v) + "\n"@),
            None => Seq::empty(),
        },
        _ => Seq::empty(),
    }
}

/// Renders `object.<name>(<args>)` without awaiting.
fn render_watch_source(method: &SourceMethod) -> (r: String)
    ensures
        r@ == watch_source(*method),
{
    let mut r = String::from_str("object.");
    r.append(method.name.as_str());
    r.append("(");
    let ca = render_arg_call_list(method);
    r.append(ca.as_str());
    r.append(")");
    r
}

/// Renders the arm that answers one watch snapshot.
pub fn render_watch_snapshot_arm(method: &SourceMethod) -> (r: String)
    requires
        snapshot_typed(*method),
    ensures
        r@ == watch_snapshot_arm(*method),
{
    let w = match &method.protocol {
        MethodProtocol::Watch(w) => w,
        _ => return String::new(),
    };
    let mut value = render_watch_source(method);
    match w.stream {
        WatchStreamProtocol::JsonFlow { fallible } => {
            if fallible {
                value.append(".map_err(|error| operit_link::CoreLinkError::internal(error.to_string()))?");
            }
            value.append(".first()");
            value.append(".map_err(|error| operit_link::CoreLinkError::internal(error.to_string()))?");
        },
        WatchStreamProtocol::JsonState { fallible } => {
            if fallible {
                value.append(".map_err(|error| operit_link::CoreLinkError::internal(error.to_string()))?");
            }
            value.append(".value()");
        },
        _ => return String::new(),
    }
    let snapshot = match &w.snapshot_type {
        Some(t) => t,
        None => return String::new(),
    };
    let mut body = String::from_str("            ");
    let v = render_core_value_result(snapshot.as_str(), value.as_str());
    body.append(v.as_str());
    body.append("\n");
    let mut r = render_cfg_attrs(method);
    let a = render_arm(method, body.as_str());
    r.append(a.as_str());
    r
}

/// What a JSON flow watch does after it has its flow.
pub open spec fn flow_tail() -> Seq<char> {
    ";\n            let (sender, receiver) = core_event_stream_channel();\n            let incremental = request.acceptsIncrementalValues();\n            let requestId = request.requestId;\n            let targetPath = request.targetPath;\n            let propertyName = request.propertyName;\n            let previousValue = std::sync::Arc::new(std::sync::Mutex::new(None::<operit_link::CoreValue>));\n            let subscription = flow.subscribeWithCancellation(\n                operit_store::PreferencesDataStore::FlowCancellation::new(),\n                move |value| {\n                    if let Ok(value) = to_core_value(value) {\n                        let (kind, value) = operit_link::CoreValue::incrementalEvent(\n                            &mut *previousValue.lock().expect(\"incremental flow value mutex must not be poisoned\"),\n                            value,\n                            incremental,\n                        );\n                        let _ = sender.send(operit_link::CoreEvent {\n                            requestId: Some(requestId.clone()),\n                            targetPath: targetPath.clone(),\n                            propertyName: propertyName.clone(),\n                            kind,\n                            value,\n                        });\n                    }\n                },\n            ).map_err(|error| operit_link::CoreLinkError::internal(error.to_string()))?;\n            Ok(receiver.withOnClose(move || subscription.cancel()))\n        }\n"@
}

/// What a JSON state watch does after it has its state flow.
pub open spec fn state_tail() -> Seq<char> {
    ";\n            let (sender, receiver) = core_event_stream_channel();\n            let incremental = request.acceptsIncrementalValues();\n            let requestId = request.requestId;\n            let targetPath = request.targetPath;\n            let propertyName = request.propertyName;\n            let previousValue = std::sync::Arc::new(std::sync::Mutex::new(None::<operit_link::CoreValue>));\n            let subscriptionId = stateFlow.subscribe(move |value| {\n                if let Ok(value) = to_core_value(value) {\n                    let (kind, value) = operit_link::CoreValue::incrementalEvent(\n                        &mut *previousValue.lock().expect(\"incremental state flow value mutex must not be poisoned\"),\n                        value,\n                        incremental,\n                    );\n                    let _ = sender.send(operit_link::CoreEvent {\n                        requestId: Some(requestId.clone()),\n                        targetPath: targetPath.clone(),\n                        propertyName: propertyName.clone(),\n                        kind,\n                        value,\n                    });\n                }\n            });\n            Ok(receiver.withOnClose(move || stateFlow.unsubscribe(subscriptionId)))\n        }\n"@
}

/// The watched source, failing as an internal link error when it is fallible.
pub open spec fn fallible_source(m: SourceMethod, fallible: bool) -> Seq<char> {
    if fallible { watch_source(m) + internal_error() } else { watch_source(m) }
}

/// The start of a stream arm: the quoted name and the argument decoders.
pub open spec fn arm_head(m: SourceMethod) -> Seq<char> {
    "        "@ + debug_text(m.name@) + " => {\n"@ + decoders(m.args@, m.args@.len() as int)
}

/// A watch that streams renderable text events is routed by a Binding key.
pub open spec fn text_events_bound(m: SourceMethod) -> bool {
    (m.protocol matches MethodProtocol::Watch(w) && w.stream is TextEvent) ==> m.route is Binding
}

/// What a stream arm does after its argument decoders.
pub open spec fn stream_body(m: SourceMethod, stream: WatchStreamProtocol) -> Seq<char> {
    match stream {
        WatchStreamProtocol::JsonFlow { fallible } =>
            "            let flow = "@ + fallible_source(m, fallible) + flow_tail(),
        WatchStreamProtocol::JsonState { fallible } =>
            "            let stateFlow = "@ + fallible_source(m, fallible) + state_tail(),
        WatchStreamProtocol::JsonStream =>
            "            let stream = object."@ + m.name@ + "("@ + call_list(m.args@)
                + ");\n            Ok(core_json_event_stream(stream, request))\n        }\n"@,
        WatchStreamProtocol::StringStream =>
            "            let stream = object."@ + m.name@ + "("@ + call_list(m.args@)
                + ");\n            Ok(core_string_event_stream(stream, request))\n        }\n"@,
        WatchStreamProtocol::TextEvent { optional } =>
            "            let streamKey = "@ + m.route->binding_argument@ + ".clone();\n            let stream = "@
                + (if optional {
                    watch_source(m) + ".ok_or_else(|| operit_link::CoreLinkError::watchNotFound(&registryKey))?"@
                } else {
                    watch_source(m)
                })
                + ";\n            core_text_event_stream(streamKey, stream, request)\n        }\n"@,
    }
}

/// The arm that opens one watch's stream.
pub open spec fn watch_stream_arm(m: SourceMethod) -> Seq<char> {
    match m.protocol {
        MethodProtocol::Watch(w) => cfg_of(m) + arm_head(m) + stream_body(m, w.stream),
        _ => Seq::empty(),
    }
}

/// Renders the part of a stream arm after its argument decoders.
fn render_stream_body(method: &SourceMethod, stream: WatchStreamProtocol) -> (r: String)
    requires
        stream is TextEvent ==> method.route is Binding,
    ensures
        r@ == stream_body(*method, stream),
{
    let mut r = String::new();
    match stream {
        WatchStreamProtocol::JsonFlow { fallible } => {
            r.append("            let flow = ");
            let s = render_watch_source(method);
            r.append(s.as_str());
            if fallible {
                r.append(".map_err(|error| operit_link::CoreLinkError::internal(error.to_string()))?");
            }
            r.append(";\n            let (sender, receiver) = core_event_stream_channel();\n            let incremental = request.acceptsIncrementalValues();\n            let requestId = request.requestId;\n            let targetPath = request.targetPath;\n            let propertyName = request.propertyName;\n            let previousValue = std::sync::Arc::new(std::sync::Mutex::new(None::<operit_link::CoreValue>));\n            let subscription = flow.subscribeWithCancellation(\n                operit_store::PreferencesDataStore::FlowCancellation::new(),\n                move |value| {\n                    if let Ok(value) = to_core_value(value) {\n                        let (kind, value) = operit_link::CoreValue::incrementalEvent(\n                            &mut *previousValue.lock().expect(\"incremental flow value mutex must not be poisoned\"),\n                            value,\n                            incremental,\n                        );\n                        let _ = sender.send(operit_link::CoreEvent {\n                            requestId: Some(requestId.clone()),\n                            targetPath: targetPath.clone(),\n                            propertyName: propertyName.clone(),\n                            kind,\n                            value,\n                        });\n                    }\n                },\n            ).map_err(|error| operit_link::CoreLinkError::internal(error.to_string()))?;\n            Ok(receiver.withOnClose(move || subscription.cancel()))\n        }\n");
        },
        WatchStreamProtocol::JsonState { fallible } => {
            r.append("            let stateFlow = ");
            let s = render_watch_source(method);
            r.append(s.as_str());
            if fallible {
                r.append(".map_err(|error| operit_link::CoreLinkError::internal(error.to_string()))?");
            }
            r.append(";\n            let (sender, receiver) = core_event_stream_channel();\n            let incremental = request.acceptsIncrementalValues();\n            let requestId = request.requestId;\n            let targetPath = request.targetPath;\n            let propertyName = request.propertyName;\n            let previousValue = std::sync::Arc::new(std::sync::Mutex::new(None::<operit_link::CoreValue>));\n            let subscriptionId = stateFlow.subscribe(move |value| {\n                if let Ok(value) = to_core_value(value) {\n                    let (kind, value) = operit_link::CoreValue::incrementalEvent(\n                        &mut *previousValue.lock().expect(\"incremental state flow value mutex must not be poisoned\"),\n                        value,\n                        incremental,\n                    );\n                    let _ = sender.send(operit_link::CoreEvent {\n                        requestId: Some(requestId.clone()),\n                        targetPath: targetPath.clone(),\n                        propertyName: propertyName.clone(),\n                        kind,\n                        value,\n                    });\n                }\n            });\n            Ok(receiver.withOnClose(move || stateFlow.unsubscribe(subscriptionId)))\n        }\n");
        },
        WatchStreamProtocol::JsonStream => {
            r.append("            let stream = object.");
            r.append(method.name.as_str());
            r.append("(");
            let ca = render_arg_call_list(method);
            r.append(ca.as_str());
            r.append(");\n            Ok(core_json_event_stream(stream, request))\n        }\n");
        },
        WatchStreamProtocol::StringStream => {
            r.append("            let stream = object.");
            r.append(method.name.as_str());
            r.append("(");
            let ca = render_arg_call_list(method);
            r.append(ca.as_str());
            r.append(");\n            Ok(core_string_event_stream(stream, request))\n        }\n");
        },
        WatchStreamProtocol::TextEvent { optional } => {
            let key = match &method.route {
                MethodRoute::Binding { binding_argument, .. } => binding_argument,
                MethodRoute::Local => return String::new(),
            };
            r.append("            let streamKey = ");
            r.append(key.as_str());
            r.append(".clone();\n            let stream = ");
            let s = render_watch_source(method);
            r.append(s.as_str());
            if optional {
                r.append(".ok_or_else(|| operit_link::CoreLinkError::watchNotFound(&registryKey))?");
            }
            r.append(";\n            core_text_event_stream(streamKey, stream, request)\n        }\n");
        },
    }
    r
}

/// Renders the arm that opens one watch's stream.
pub fn render_watch_stream_arm(method: &SourceMethod) -> (r: String)
    requires
        text_events_bound(*method),
    ensures
        r@ == watch_stream_arm(*method),
{
    let stream = match &method.protocol {
        MethodProtocol::Watch(w) => w.stream,
        _ => return String::new(),
    };
    let mut r = render_cfg_attrs(method);
    r.append("        ");
    let q = quoted(method.name.as_str());
    r.append(q.as_str());
    r.append(" => {\n");
    let d = render_arg_decoders(method);
    r.append(d.as_str());
    let b = render_stream_body(method, stream);
    r.append(b.as_str());
    r
}

} // verus!
