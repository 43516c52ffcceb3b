use operit::codegen::dispatch::{
    render_object_constructor_for_access, render_object_path_predicate,
    render_segmented_object_path_predicate, DispatchMode,
};
use operit::codegen::args::{render_arg_call_expr, render_arg_decode_type};
use operit::codegen::arms::{error_details_converter, render_call_arm, render_watch_snapshot_arm, render_watch_stream_arm};
use operit::codegen::methods::{
    has_proxyable_instance_methods, mark_factory_methods, reverse_stream_item_type, scanned_method,
    validate_method_routes, ScannedInput,
};
use operit::codegen::model::{
    object_has_call_dispatch, object_has_watch_transition, CallProtocol, MethodProtocol, MethodRoute,
    ObjectAccess, ObjectPathMatch, ObjectSpec, SourceArg, SourceMethod, SourceObject, WatchProtocol,
    WatchStreamProtocol,
};
use operit::codegen::object_dispatch::{
    render_object_call_dispatch, render_object_sync_call_dispatch, render_object_watch_transition_dispatch,
};
use operit::codegen::routes::render_core_route_classifier;
use operit::codegen::scanner::{
    constructible_object_path_match, discover_constructible_type, is_factory_path_arg_type,
    returns_arc_mutex_self, ScannedFn, ScannedStruct,
};

fn object(key: &str, path_match: ObjectPathMatch, methods: Vec<SourceMethod>) -> SourceObject {
    SourceObject {
        schema_key: key.to_string(),
        dispatch_name: key.replace('.', "_"),
        full_type: "crate::Service".to_string(),
        access: ObjectAccess::NewConstruct,
        path_match,
        methods,
    }
}

fn method(name: &str, call: bool, watch: bool, transition: bool) -> SourceMethod {
    let protocol = if call {
        MethodProtocol::Call(CallProtocol::Unit)
    } else if watch {
        MethodProtocol::Watch(WatchProtocol {
            snapshot_type: Some("String".to_string()),
            stream: WatchStreamProtocol::JsonState { fallible: false },
        })
    } else {
        MethodProtocol::Unsupported("none".to_string())
    };
    let route = if transition {
        MethodRoute::Binding {
            binding_argument: "key".to_string(),
            current_resolver: None,
            supports_source_transition: true,
        }
    } else {
        MethodRoute::Local
    };
    SourceMethod {
        name: name.to_string(),
        args: vec![arg("key", "&str")],
        rust_return_type: "()".to_string(),
        is_async: false,
        cfg_attrs: vec![],
        doc_lines: vec![],
        route,
        protocol,
    }
}

fn arg(name: &str, ty: &str) -> SourceArg {
    SourceArg { name: name.to_string(), ty: ty.to_string() }
}

fn bare(name: &str, args: Vec<SourceArg>, is_async: bool, protocol: MethodProtocol) -> SourceMethod {
    SourceMethod {
        name: name.to_string(),
        args,
        rust_return_type: String::new(),
        is_async,
        cfg_attrs: vec![],
        doc_lines: vec![],
        route: MethodRoute::Local,
        protocol,
    }
}

#[test]
fn exact_paths_compare_the_quoted_key() {
    let o = object("services.chat", ObjectPathMatch::Exact, vec![]);
    assert_eq!(render_object_path_predicate(&o), "path.key() == \"services.chat\"");
    let quoted = object("a\"b", ObjectPathMatch::Exact, vec![]);
    assert_eq!(render_object_path_predicate(&quoted), "path.key() == \"a\\\"b\"");
}

#[test]
fn segmented_paths_check_every_key_segment() {
    assert_eq!(
        render_segmented_object_path_predicate("terminal.sessions", 1),
        "path.segments.len() == 3 && path.segments.get(0).map(String::as_str) == Some(\"terminal\") && path.segments.get(1).map(String::as_str) == Some(\"sessions\")"
    );
    let o = object("x", ObjectPathMatch::Predicate("matches_x".to_string()), vec![]);
    assert_eq!(render_object_path_predicate(&o), "matches_x(&path.segments)");
}

#[test]
fn constructors_follow_the_access() {
    assert_eq!(
        render_object_constructor_for_access("svc", "crate::Svc", &ObjectAccess::NewConstruct, DispatchMode::Call),
        "            let mut svc = crate::Svc::new();\n"
    );
    assert_eq!(
        render_object_constructor_for_access(
            "svc",
            "crate::Svc",
            &ObjectAccess::ContextRefGetInstanceArcMutexConstruct,
            DispatchMode::Watch
        ),
        "            let svc = crate::Svc::getInstance(&proxy.hostManager);\n"
    );
}

#[test]
fn dispatch_kinds_follow_method_protocols() {
    let calls = object("a", ObjectPathMatch::Exact, vec![method("get", true, false, false)]);
    assert!(object_has_call_dispatch(&calls));
    assert!(!object_has_watch_transition(&calls));
    let watches = object("b", ObjectPathMatch::Exact, vec![method("flow", false, true, true)]);
    assert!(!object_has_call_dispatch(&watches));
    assert!(object_has_watch_transition(&watches));
}

fn scanned_fn(impl_type: &str, name: &str, receiver: bool, first_arg: Option<&str>, ret: &str) -> ScannedFn {
    ScannedFn {
        impl_type: Some(impl_type.to_string()),
        public: true,
        core_internal: false,
        has_receiver: receiver,
        name: name.to_string(),
        inputs: if receiver { 1 } else if first_arg.is_some() { 1 } else { 0 },
        first_arg_type: first_arg.map(|s| s.to_string()),
        first_arg_path_ident: None,
        return_type: ret.to_string(),
    }
}

#[test]
fn constructible_types_prefer_context_instances() {
    let structs = vec![
        ScannedStruct { name: "Hidden".to_string(), public: false, generic: false },
        ScannedStruct { name: "Service".to_string(), public: true, generic: false },
    ];
    let fns = vec![
        scanned_fn("Service", "new", false, None, "Self"),
        scanned_fn("Service", "getInstance", false, Some("&HostManager"), "Self"),
        scanned_fn("Service", "status", true, None, "String"),
    ];
    let (name, access) = discover_constructible_type(&structs, &fns).unwrap();
    assert_eq!(name, "Service");
    assert!(matches!(access, ObjectAccess::ContextRefGetInstanceConstruct));
}

#[test]
fn types_without_instance_methods_are_not_constructible() {
    let structs = vec![ScannedStruct { name: "Plain".to_string(), public: true, generic: false }];
    let fns = vec![scanned_fn("Plain", "new", false, None, "Self")];
    assert!(discover_constructible_type(&structs, &fns).is_none());
}

#[test]
fn string_constructed_objects_take_one_trailing_segment() {
    assert!(matches!(
        constructible_object_path_match(&ObjectAccess::StringNewConstruct),
        ObjectPathMatch::TrailingSegments(1)
    ));
    assert!(matches!(constructible_object_path_match(&ObjectAccess::NewConstruct), ObjectPathMatch::Exact));
    assert!(is_factory_path_arg_type("&str"));
    assert!(is_factory_path_arg_type("String"));
    assert!(!is_factory_path_arg_type("usize"));
}

#[test]
fn arc_mutex_return_types_are_recognized() {
    assert!(returns_arc_mutex_self("Arc<Mutex<Self>>"));
    assert!(!returns_arc_mutex_self("Self"));
}

#[test]
fn argument_types_decode_to_owned_values() {
    let cases = [
        ("&str", "String", "a.as_str()"),
        ("Option<&str>", "Option<String>", "a.as_deref()"),
        ("Option<&Config>", "Option<Config>", "a.as_ref()"),
        ("&std::path::Path", "String", "std::path::Path::new(&a)"),
        ("&[String]", "Vec<String>", "a.as_slice()"),
        ("&[u8]", "&[u8]", "a.as_slice()"),
        ("&Config", "Config", "&a"),
        ("i32", "i32", "a"),
    ];
    for (ty, decoded, call) in cases {
        let a = arg("a", ty);
        assert_eq!(render_arg_decode_type(&a), decoded, "decode type of {ty}");
        assert_eq!(render_arg_call_expr(&a), call, "call expression of {ty}");
    }
}

#[test]
fn call_arms_decode_arguments_and_convert_results() {
    let get = bare("getName", vec![], false, MethodProtocol::Call(CallProtocol::Value("String".to_string())));
    assert_eq!(
        render_call_arm(&get, &vec![]),
        "        \"getName\" => {\n            to_core_value(object.getName())\n        }\n"
    );
    let save = bare(
        "save",
        vec![arg("key", "&str"), arg("ids", "&[i64]")],
        true,
        MethodProtocol::Call(CallProtocol::ResultUnit { error_type: "String".to_string() }),
    );
    assert_eq!(
        render_call_arm(&save, &vec![]),
        [
            "        \"save\" => {\n",
            "            let key: String = decode_core_arg(&mut __core_args, \"key\")?;\n",
            "            let ids: Vec<i64> = decode_core_arg(&mut __core_args, \"ids\")?;\n",
            "            object.save(key.as_str(), ids.as_slice()).await.map_err(|error| core_call_error(error.to_string(), generated_core_proxy_error_details_for_string(&error)))?;\n",
            "            Ok(operit_link::CoreValue::Null)\n",
            "        }\n",
        ]
        .concat()
    );
    let bytes = bare(
        "read",
        vec![],
        false,
        MethodProtocol::Call(CallProtocol::ResultValue {
            value_type: "Vec<u8>".to_string(),
            error_type: "StoreError".to_string(),
        }),
    );
    let table = vec![("StoreError".to_string(), "store_error_details".to_string())];
    assert_eq!(error_details_converter("StoreError", &table), "store_error_details");
    assert!(render_call_arm(&bytes, &table).contains(
        "Ok(operit_link::CoreValue::Bytes(object.read().map_err(|error| core_call_error(error.to_string(), store_error_details(&error)))?))"
    ));
}

#[test]
fn watch_arms_follow_the_stream_kind() {
    let mut state = method("theme", false, true, false);
    state.args = vec![];
    assert_eq!(
        render_watch_snapshot_arm(&state),
        "        \"theme\" => {\n            to_core_value(object.theme().value())\n        }\n"
    );
    let stream = bare(
        "logs",
        vec![],
        false,
        MethodProtocol::Watch(WatchProtocol { snapshot_type: None, stream: WatchStreamProtocol::StringStream }),
    );
    assert_eq!(render_watch_snapshot_arm(&stream), "");
    assert_eq!(
        render_watch_stream_arm(&stream),
        "        \"logs\" => {\n            let stream = object.logs();\n            Ok(core_string_event_stream(stream, request))\n        }\n"
    );
    let flow = method("items", false, true, false);
    let text = render_watch_stream_arm(&SourceMethod {
        protocol: MethodProtocol::Watch(WatchProtocol {
            snapshot_type: Some("Vec<String>".to_string()),
            stream: WatchStreamProtocol::JsonFlow { fallible: true },
        }),
        ..flow
    });
    assert!(text.starts_with("        \"items\" => {\n            let key: String = decode_core_arg(&mut __core_args, \"key\")?;\n            let flow = object.items(key.as_str()).map_err("));
    assert!(text.ends_with("Ok(receiver.withOnClose(move || subscription.cancel()))\n        }\n"));
}

#[test]
fn object_dispatchers_list_their_arms() {
    let mut o = object("application", ObjectPathMatch::Exact, vec![]);
    o.methods = vec![
        bare("ping", vec![], false, MethodProtocol::Call(CallProtocol::Unit)),
        bare("sync", vec![], true, MethodProtocol::Call(CallProtocol::Unit)),
    ];
    let dispatch = render_object_call_dispatch(&o, &vec![]);
    assert!(dispatch.starts_with("#[allow(unused_mut, unused_variables)]\nasync fn generated_dispatch_application_call(object: &mut crate::Service, request: operit_link::CoreCallRequest)"));
    assert!(dispatch.contains("        \"ping\" => {"));
    assert!(dispatch.contains("        \"sync\" => {"));
    assert!(dispatch.contains("        \"coreProxySchema\" => Ok(generated_core_proxy_schema()),\n"));
    let blocking = render_object_sync_call_dispatch(&o, &vec![]);
    assert!(blocking.contains("fn generated_dispatch_application_call_sync("));
    assert!(blocking.contains("\"ping\""));
    assert!(!blocking.contains("\"sync\""));
    assert_eq!(render_object_watch_transition_dispatch(&o), "");
    let watcher = object("terminal", ObjectPathMatch::Exact, vec![method("output", false, true, true)]);
    let transition = render_object_watch_transition_dispatch(&watcher);
    assert!(transition.contains("operit_link::CoreWatchSourceActivator::activateWatchSource(object, key.as_str().to_string(), transition)"));
}

fn bound(name: &str, binding: &str, resolver: Option<&str>, protocol: MethodProtocol, args: Vec<SourceArg>) -> SourceMethod {
    SourceMethod {
        route: MethodRoute::Binding {
            binding_argument: binding.to_string(),
            current_resolver: resolver.map(|r| r.to_string()),
            supports_source_transition: false,
        },
        ..bare(name, args, false, protocol)
    }
}

#[test]
fn route_classifier_routes_binding_methods() {
    let terminal = object(
        "terminal",
        ObjectPathMatch::Exact,
        vec![bound("close", "sessionId", None, MethodProtocol::Call(CallProtocol::Unit), vec![arg("sessionId", "&str")])],
    );
    let local = object("settings", ObjectPathMatch::Exact, vec![method("get", true, false, false)]);
    let source = render_core_route_classifier(&vec![local, terminal]);
    assert!(source.contains("        0 => generated_object_path_matches_terminal(path),\n"));
    assert!(source.contains("    if generated_binding_scope_matches(0, &request.targetPath) && request.methodName == \"close\" {\n"));
    assert!(source.contains("generated_binding_route_from_args(&request.targetPath, &request.args, \"sessionId\", 0)?"));
    assert!(source.contains("        (0, \"close\") => \"sessionId\",\n"));
    assert!(!source.contains("settings"));
}

#[test]
fn binding_routes_are_validated() {
    let ok = vec![bound("close", "sessionId", None, MethodProtocol::Call(CallProtocol::Unit), vec![arg("sessionId", "&str")])];
    assert!(validate_method_routes(&ok, "Terminal").is_ok());
    let unknown = vec![bound("close", "sessionId", None, MethodProtocol::Call(CallProtocol::Unit), vec![])];
    assert_eq!(
        validate_method_routes(&unknown, "Terminal").unwrap_err(),
        "Method Terminal.close declares unknown Binding argument sessionId"
    );
    let bad_resolver = vec![bound(
        "close",
        "sessionId",
        Some("current"),
        MethodProtocol::Call(CallProtocol::Unit),
        vec![arg("sessionId", "&str")],
    )];
    assert_eq!(
        validate_method_routes(&bad_resolver, "Terminal").unwrap_err(),
        "Object Terminal does not declare route method current"
    );
    let no_protocol = vec![bound("close", "sessionId", None, MethodProtocol::Unsupported("x".to_string()), vec![])];
    assert_eq!(
        validate_method_routes(&no_protocol, "Terminal").unwrap_err(),
        "Method Terminal.close declares Binding routing without a Link protocol"
    );
}

#[test]
fn scanned_methods_take_reverse_streams_and_refuse_bad_signatures() {
    let reverse = "operit_util::stream::ReverseStream::ReverseStream<String>";
    assert_eq!(reverse_stream_item_type(reverse).as_deref(), Some("String"));
    assert_eq!(reverse_stream_item_type("Vec<String>"), None);
    let inputs = vec![
        ScannedInput::Receiver,
        ScannedInput::Typed { ident: Some("input".to_string()), ty: reverse.to_string(), supported: false },
    ];
    let m = scanned_method(
        "feed".to_string(),
        MethodRoute::Local,
        &inputs,
        false,
        vec![],
        vec![],
        "()".to_string(),
        MethodProtocol::Call(CallProtocol::Unit),
    );
    match &m.protocol {
        MethodProtocol::ReverseStream(p) => {
            assert_eq!(p.argument_name, "input");
            assert_eq!(p.item_type, "String");
        }
        other => panic!("unexpected protocol: {:?}", other),
    }
    let no_receiver = scanned_method(
        "make".to_string(),
        MethodRoute::Local,
        &vec![],
        false,
        vec![],
        vec![],
        "Self".to_string(),
        MethodProtocol::Call(CallProtocol::Unit),
    );
    assert!(matches!(&no_receiver.protocol, MethodProtocol::Unsupported(r) if r == "associated function is not an instance method"));
    let unsupported_arg = scanned_method(
        "send".to_string(),
        MethodRoute::Local,
        &vec![
            ScannedInput::Receiver,
            ScannedInput::Typed { ident: Some("f".to_string()), ty: "fn()".to_string(), supported: false },
        ],
        false,
        vec![],
        vec![],
        "()".to_string(),
        MethodProtocol::Call(CallProtocol::Unit),
    );
    assert!(matches!(&unsupported_arg.protocol, MethodProtocol::Unsupported(r) if r == "unsupported argument type: fn()"));
    let async_watch = scanned_method(
        "watch".to_string(),
        MethodRoute::Local,
        &vec![ScannedInput::Receiver],
        true,
        vec![],
        vec![],
        "Flow<String>".to_string(),
        MethodProtocol::Watch(WatchProtocol { snapshot_type: None, stream: WatchStreamProtocol::StringStream }),
    );
    assert!(matches!(&async_watch.protocol, MethodProtocol::Unsupported(r) if r == "async watch method is not supported"));
}

#[test]
fn factory_methods_are_marked() {
    let mut objects = vec![object("terminal", ObjectPathMatch::Exact, vec![method("session", true, false, false)])];
    let specs = vec![ObjectSpec {
        schema_key: "terminal.session".to_string(),
        dispatch_name: "terminal_session".to_string(),
        rust_type_name: "Session".to_string(),
        full_type: "crate::Session".to_string(),
        source_path: "src/session.rs".to_string(),
        access: ObjectAccess::NewConstruct,
        path_match: ObjectPathMatch::TrailingSegments(1),
    }];
    assert!(has_proxyable_instance_methods(&objects[0].methods));
    mark_factory_methods(&mut objects, &specs);
    match &objects[0].methods[0].protocol {
        MethodProtocol::Factory(f) => assert_eq!(f.target_schema_key, "terminal.session"),
        other => panic!("unexpected protocol: {:?}", other),
    }
    assert!(!has_proxyable_instance_methods(&objects[0].methods));
}
