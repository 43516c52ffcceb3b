use operit::codegen::model::MethodRoute;
use operit::codegen::route_decl::{method_route, RouteDeclaration};
use operit::codegen::route_scan::{attributes_route, scan_method_routes};

fn args(items: &[(&str, Option<&str>)]) -> RouteDeclaration {
    RouteDeclaration::Arguments(items.iter().map(|(n, v)| (n.to_string(), v.map(|v| v.to_string()))).collect())
}

#[test]
fn absent_route_is_local() {
    assert!(matches!(method_route("read", &RouteDeclaration::Absent), Ok(MethodRoute::Local)));
}

#[test]
fn binding_route_reads_its_arguments() {
    match method_route("read", &args(&[("binding", Some("key")), ("current", Some("resolve")), ("source", Some("yes"))])) {
        Ok(MethodRoute::Binding { binding_argument, current_resolver, supports_source_transition }) => {
            assert_eq!(binding_argument, "key");
            assert_eq!(current_resolver.as_deref(), Some("resolve"));
            assert!(supports_source_transition);
        }
        other => panic!("unexpected route: {:?}", other),
    }
    match method_route("read", &args(&[("binding", Some("key"))])) {
        Ok(MethodRoute::Binding { current_resolver, supports_source_transition, .. }) => {
            assert_eq!(current_resolver, None);
            assert!(!supports_source_transition);
        }
        other => panic!("unexpected route: {:?}", other),
    }
}

#[test]
fn malformed_routes_are_refused() {
    assert_eq!(
        method_route("read", &RouteDeclaration::Repeated).unwrap_err(),
        "Method read declares multiple Core route attributes"
    );
    assert_eq!(
        method_route("read", &RouteDeclaration::WithoutArguments).unwrap_err(),
        "Method read Core route requires arguments"
    );
    assert_eq!(
        method_route("read", &RouteDeclaration::Unparsable("expected `=`".to_string())).unwrap_err(),
        "Method read has invalid Core route arguments: expected `=`"
    );
    assert_eq!(
        method_route("read", &args(&[("binding", None)])).unwrap_err(),
        "Method read Core route argument binding must be an identifier"
    );
    assert_eq!(
        method_route("read", &args(&[("binding", Some("a")), ("binding", Some("b"))])).unwrap_err(),
        "Method read declares Core route argument binding more than once"
    );
    assert_eq!(
        method_route("read", &args(&[("binding", Some("a")), ("speed", Some("x")), ("mode", Some("y"))])).unwrap_err(),
        "Method read has unsupported Core route arguments: speed, mode"
    );
    assert_eq!(
        method_route("read", &args(&[("current", Some("c"))])).unwrap_err(),
        "Method read Core route requires binding"
    );
}

#[test]
fn routes_are_read_from_source_text() {
    let source = r#"
        struct Service;
        impl Service {
            #[operit_core_route(binding = key, current = resolve_current, source = transitions,)]
            pub fn watch_value(&self, key: String) -> String { key }
            /// Local method.
            pub fn plain(&self) {}
        }
    "#;
    let routes = scan_method_routes(source).unwrap();
    assert_eq!(routes.len(), 2);
    assert_eq!(routes[0].0, "watch_value");
    match &routes[0].1 {
        MethodRoute::Binding { binding_argument, current_resolver, supports_source_transition } => {
            assert_eq!(binding_argument, "key");
            assert_eq!(current_resolver.as_deref(), Some("resolve_current"));
            assert!(*supports_source_transition);
        }
        other => panic!("unexpected route: {:?}", other),
    }
    assert!(matches!(routes[1].1, MethodRoute::Local));
}

#[test]
fn malformed_route_text_is_refused() {
    let literal = "impl S { #[operit_core_route(binding = \"key\")] fn f(&self) {} }";
    assert_eq!(
        scan_method_routes(literal).unwrap_err(),
        "Method f Core route argument binding must be an identifier"
    );
    let twice = "impl S { #[operit_core_route(binding = a)] #[operit_core_route(binding = b)] fn f(&self) {} }";
    assert_eq!(scan_method_routes(twice).unwrap_err(), "Method f declares multiple Core route attributes");
    let bare = "impl S { #[operit_core_route] fn f(&self) {} }";
    assert_eq!(scan_method_routes(bare).unwrap_err(), "Method f Core route requires arguments");
    let no_value = "impl S { #[operit_core_route(binding)] fn f(&self) {} }";
    assert!(scan_method_routes(no_value).unwrap_err().starts_with("Method f has invalid Core route arguments: "));
    assert!(scan_method_routes("impl {").is_err());
}

#[test]
fn attributes_route_reads_plain_attributes() {
    let attrs = vec![
        ("doc".to_string(), None),
        ("operit_core_route".to_string(), Some("binding = id".to_string())),
    ];
    assert!(matches!(attributes_route("m", &attrs), Ok(MethodRoute::Binding { .. })));
}
