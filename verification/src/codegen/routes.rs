//! The generated route classifiers: which CoreNode a request goes to when
//! its method is routed by a Binding key, and how a locally resolved key is
//! put back into the request's arguments.
use vstd::prelude::*;
use crate::codegen::dispatch::{dec, dec_text};
use crate::codegen::model::{is_call, is_reverse_stream, is_watch, MethodRoute, SourceMethod, SourceObject};
use crate::text::{debug_text, quoted};

verus! {

/// The request protocol whose Binding key may be injected locally.
#[derive(Clone, Copy, Debug, PartialEq, Eq, Structural)]
pub enum BindingRequestProtocol {
    Call,
    Watch,
    Push,
}

/// The object has a method routed other than locally.
pub open spec fn is_binding_scope(o: SourceObject) -> bool {
    exists|i: int| 0 <= i < o.methods@.len() && !((#[trigger] o.methods@[i]).route is Local)
}

/// The objects among the first `n` that are Binding scopes, in order.
pub open spec fn scopes(objs: Seq<SourceObject>, n: int) -> Seq<SourceObject>
    decreases n,
{
    if n <= 0 {
        Seq::empty()
    } else if is_binding_scope(objs[n - 1]) {
        scopes(objs, n - 1).push(objs[n - 1])
    } else {
        scopes(objs, n - 1)
    }
}

/// The objects behind a list of references.
pub open spec fn derefs(s: Seq<&SourceObject>) -> Seq<SourceObject> {
    Seq::new(s.len(), |i: int| *s[i])
}

/// Whether one object declares a method-level Binding route.
fn declares_binding(object: &SourceObject) -> (r: bool)
    ensures
        r == is_binding_scope(*object),
{
    let mut i: usize = 0;
    while i < object.methods.len()
        invariant
            i <= object.methods.len(),
            forall|k: int| 0 <= k < i ==> (#[trigger] object.methods@[k]).route is Local,
        decreases object.methods.len() - i,
    {
        match &object.methods[i].route {
            MethodRoute::Local => {},
            MethodRoute::Binding { .. } => return true,
        }
        i = i + 1;
    }
    false
}

/// Returns objects that declare at least one method-level Binding route.
pub fn binding_scope_objects<'a>(objects: &'a Vec<SourceObject>) -> (r: Vec<&'a SourceObject>)
    ensures
        derefs(r@) == scopes(objects@, objects@.len() as int),
{
    let mut r: Vec<&'a SourceObject> = Vec::new();
    let mut i: usize = 0;
    while i < objects.len()
        invariant
            i <= objects.len(),
            derefs(r@) =~= scopes(objects@, i as int),
        decreases objects.len() - i,
    {
        let ghost before = r@;
        if declares_binding(&objects[i]) {
            r.push(&objects[i]);
            assert(derefs(r@) =~= derefs(before).push(objects@[i as int]));
        }
        i = i + 1;
    }
    r
}

/// One scope's case in the scope matcher.
pub open spec fn scope_case(k: int, o: SourceObject) -> Seq<char> {
    "        "@ + dec(k) + " => generated_object_path_matches_"@ + o.dispatch_name@ + "(path),\n"@
}

/// The cases of the first `n` scopes.
pub open spec fn scope_cases(s: Seq<SourceObject>, n: int) -> Seq<char>
    decreases n,
{
    if n <= 0 { Seq::empty() } else { scope_cases(s, n - 1) + scope_case(n - 1, s[n - 1]) }
}

/// The function that tells whether a path belongs to a Binding scope.
pub open spec fn scope_matcher(s: Seq<SourceObject>) -> Seq<char> {
    "/// Returns whether a concrete object path belongs to one generated Binding scope.\n"@
        + "fn generated_binding_scope_matches(scope: usize, path: &operit_link::CoreObjectPath) -> bool {\n"@
        + "    match scope {\n"@
        + scope_cases(s, s.len() as int)
        + "        _ => false,\n"@
        + "    }\n"@
        + "}\n\n"@
}

/// Renders exact path matching for generated Binding method scopes.
pub fn render_binding_scope_matcher(scopes: &Vec<&SourceObject>) -> (r: String)
    ensures
        r@ == scope_matcher(derefs(scopes@)),
{
    let mut r = String::from_str("/// Returns whether a concrete object path belongs to one generated Binding scope.\n");
    r.append("fn generated_binding_scope_matches(scope: usize, path: &operit_link::CoreObjectPath) -> bool {\n");
    r.append("    match scope {\n");
    let ghost head = r@;
    let ghost s = derefs(scopes@);
    let mut k: usize = 0;
    while k < scopes.len()
        invariant
            k <= scopes.len(),
            s == derefs(scopes@),
            r@ == head + scope_cases(s, k as int),
        decreases scopes.len() - k,
    {
        r.append("        ");
        let n = dec_text(k);
        r.append(n.as_str());
        r.append(" => generated_object_path_matches_");
        r.append(scopes[k].dispatch_name.as_str());
        r.append("(path),\n");
        k = k + 1;
    }
    r.append("        _ => false,\n");
    r.append("    }\n");
    r.append("}\n\n");
    r
}

/// Whether one method is carried by a particular Link request protocol.
pub open spec fn uses_protocol(m: SourceMethod, p: BindingRequestProtocol) -> bool {
    match p {
        BindingRequestProtocol::Call => is_call(m),
        BindingRequestProtocol::Watch => is_watch(m),
        BindingRequestProtocol::Push => is_reverse_stream(m),
    }
}

/// Reports whether one method is carried by a particular Link request protocol.
pub fn method_uses_protocol(method: &SourceMethod, protocol: BindingRequestProtocol) -> (r: bool)
    ensures
        r == uses_protocol(*method, protocol),
{
    match protocol {
        BindingRequestProtocol::Call => method.answers_calls(),
        BindingRequestProtocol::Watch => method.answers_watches(),
        BindingRequestProtocol::Push => method.takes_reverse_stream(),
    }
}

/// The generated function name, request type, method field and description of a protocol.
pub open spec fn classifier_name(p: BindingRequestProtocol) -> Seq<char> {
    match p {
        BindingRequestProtocol::Call => "generated_core_call_route"@,
        BindingRequestProtocol::Watch => "generated_core_watch_route"@,
        BindingRequestProtocol::Push => "generated_core_push_route"@,
    }
}

/// The injector's function name for a protocol.
pub open spec fn injector_name(p: BindingRequestProtocol) -> Seq<char> {
    match p {
        BindingRequestProtocol::Call => "generated_inject_current_binding_call"@,
        BindingRequestProtocol::Watch => "generated_inject_current_binding_watch"@,
        BindingRequestProtocol::Push => "generated_inject_current_binding_push"@,
    }
}

/// The request type of a protocol.
pub open spec fn request_type(p: BindingRequestProtocol) -> Seq<char> {
    match p {
        BindingRequestProtocol::Call => "operit_link::CoreCallRequest"@,
        BindingRequestProtocol::Watch => "operit_link::CoreWatchRequest"@,
        BindingRequestProtocol::Push => "operit_link::CorePushRequest"@,
    }
}

/// The request field that names the method.
pub open spec fn method_field(p: BindingRequestProtocol) -> Seq<char> {
    match p {
        BindingRequestProtocol::Watch => "propertyName"@,
        _ => "methodName"@,
    }
}

/// The word that describes a protocol's requests.
pub open spec fn description(p: BindingRequestProtocol) -> Seq<char> {
    match p {
        BindingRequestProtocol::Call => "call"@,
        BindingRequestProtocol::Watch => "watch"@,
        BindingRequestProtocol::Push => "push"@,
    }
}

/// Executable names of a protocol: function, injector, request type, field, description.
fn protocol_names(p: BindingRequestProtocol) -> (r: (&'static str, &'static str, &'static str, &'static str, &'static str))
    ensures
        r.0@ == classifier_name(p),
        r.1@ == injector_name(p),
        r.2@ == request_type(p),
        r.3@ == method_field(p),
        r.4@ == description(p),
{
    match p {
        BindingRequestProtocol::Call => ("generated_core_call_route", "generated_inject_current_binding_call", "operit_link::CoreCallRequest", "methodName", "call"),
        BindingRequestProtocol::Watch => ("generated_core_watch_route", "generated_inject_current_binding_watch", "operit_link::CoreWatchRequest", "propertyName", "watch"),
        BindingRequestProtocol::Push => ("generated_core_push_route", "generated_inject_current_binding_push", "operit_link::CorePushRequest", "methodName", "push"),
    }
}

/// The check that routes one Binding method of scope `k`.
pub open spec fn route_check(k: int, m: SourceMethod, p: BindingRequestProtocol) -> Seq<char> {
    match m.route {
        MethodRoute::Binding { binding_argument, current_resolver, .. } => if uses_protocol(m, p) {
            "    if generated_binding_scope_matches("@ + dec(k) + ", &request.targetPath) && request."@ + method_field(p)
                + " == "@ + debug_text(m.name@) + " {\n"@
                + "        if let Some(route) = generated_binding_route_from_args(&request.targetPath, &request.args, "@
                + debug_text(binding_argument@) + ", "@ + dec(k) + ")? { return Ok(route); }\n"@
                + match current_resolver {
                    Some(res) => "        return Ok(GeneratedCoreRoute::CurrentBinding { scope: "@ + dec(k) + ", resolver: "@
                        + debug_text(res@) + " });\n"@,
                    None => "        return Err(operit_link::CoreLinkError::new(\"CORE_BINDING_KEY_REQUIRED\", \"Binding request does not include its required key\"));\n"@,
                }
                + "    }\n"@
        } else {
            Seq::empty()
        },
        MethodRoute::Local => Seq::empty(),
    }
}

/// The checks of the first `n` methods of scope `k`.
pub open spec fn method_checks(k: int, ms: Seq<SourceMethod>, p: BindingRequestProtocol, n: int) -> Seq<char>
    decreases n,
{
    if n <= 0 { Seq::empty() } else { method_checks(k, ms, p, n - 1) + route_check(k, ms[n - 1], p) }
}

/// The checks of the first `n` scopes.
pub open spec fn scope_checks(s: Seq<SourceObject>, p: BindingRequestProtocol, n: int) -> Seq<char>
    decreases n,
{
    if n <= 0 {
        Seq::empty()
    } else {
        scope_checks(s, p, n - 1) + method_checks(n - 1, s[n - 1].methods@, p, s[n - 1].methods@.len() as int)
    }
}

/// The classifier for one concrete Link request protocol.
pub open spec fn protocol_route_classifier(s: Seq<SourceObject>, p: BindingRequestProtocol) -> Seq<char> {
    "/// Resolves method-level Binding metadata for one "@ + description(p) + " request.\n"@
        + "pub(crate) fn "@ + classifier_name(p) + "(request: &"@ + request_type(p)
        + ") -> Result<GeneratedCoreRoute, operit_link::CoreLinkError> {\n"@
        + scope_checks(s, p, s.len() as int)
        + "    Ok(GeneratedCoreRoute::Local)\n"@
        + "}\n\n"@
}

/// Renders the check that routes one method of scope `k`.
fn render_route_check(k: usize, method: &SourceMethod, protocol: BindingRequestProtocol) -> (r: String)
    ensures
        r@ == route_check(k as int, *method, protocol),
{
    let (binding_argument, current_resolver) = match &method.route {
        MethodRoute::Binding { binding_argument, current_resolver, .. } => (binding_argument, current_resolver),
        MethodRoute::Local => return String::new(),
    };
    if !method_uses_protocol(method, protocol) {
        return String::new();
    }
    let names = protocol_names(protocol);
    let n = dec_text(k);
    let mut r = String::from_str("    if generated_binding_scope_matches(");
    r.append(n.as_str());
    r.append(", &request.targetPath) && request.");
    r.append(names.3);
    r.append(" == ");
    let q = quoted(method.name.as_str());
    r.append(q.as_str());
    r.append(" {\n");
    r.append("        if let Some(route) = generated_binding_route_from_args(&request.targetPath, &request.args, ");
    let qb = quoted(binding_argument.as_str());
    r.append(qb.as_str());
    r.append(", ");
    r.append(n.as_str());
    r.append(")? { return Ok(route); }\n");
    match current_resolver {
        Some(res) => {
            r.append("        return Ok(GeneratedCoreRoute::CurrentBinding { scope: ");
            r.append(n.as_str());
            r.append(", resolver: ");
            let qr = quoted(res.as_str());
            r.append(qr.as_str());
            r.append(" });\n");
        },
        None => {
            r.append("        return Err(operit_link::CoreLinkError::new(\"CORE_BINDING_KEY_REQUIRED\", \"Binding request does not include its required key\"));\n");
        },
    }
    r.append("    }\n");
    r
}

/// Renders the classifier for one concrete Link request protocol.
pub fn render_protocol_route_classifier(scopes: &Vec<&SourceObject>, protocol: BindingRequestProtocol) -> (r: String)
    ensures
        r@ == protocol_route_classifier(derefs(scopes@), protocol),
{
    let names = protocol_names(protocol);
    let mut r = String::from_str("/// Resolves method-level Binding metadata for one ");
    r.append(names.4);
    r.append(" request.\n");
    r.append("pub(crate) fn ");
    r.append(names.0);
    r.append("(request: &");
    r.append(names.2);
    r.append(") -> Result<GeneratedCoreRoute, operit_link::CoreLinkError> {\n");
    let ghost head = r@;
    let ghost s = derefs(scopes@);
    let mut k: usize = 0;
    while k < scopes.len()
        invariant
            k <= scopes.len(),
            s == derefs(scopes@),
            r@ == head + scope_checks(s, protocol, k as int),
        decreases scopes.len() - k,
    {
        let object = scopes[k];
        let ghost before = r@;
        let mut j: usize = 0;
        while j < object.methods.len()
            invariant
                j <= object.methods.len(),
                *object == s[k as int],
                r@ == before + method_checks(k as int, object.methods@, protocol, j as int),
            decreases object.methods.len() - j,
        {
            let c = render_route_check(k, &object.methods[j], protocol);
            r.append(c.as_str());
            j = j + 1;
        }
        k = k + 1;
    }
    r.append("    Ok(GeneratedCoreRoute::Local)\n");
    r.append("}\n\n");
    r
}

/// The key-argument mapping of one method of scope `k`.
pub open spec fn injector_mapping(k: int, m: SourceMethod, p: BindingRequestProtocol) -> Seq<char> {
    match m.route {
        MethodRoute::Binding { binding_argument, .. } => if uses_protocol(m, p) {
            "        ("@ + dec(k) + ", "@ + debug_text(m.name@) + ") => "@ + debug_text(binding_argument@) + ",\n"@
        } else {
            Seq::empty()
        },
        MethodRoute::Local => Seq::empty(),
    }
}

/// The mappings of the first `n` methods of scope `k`.
pub open spec fn method_mappings(k: int, ms: Seq<SourceMethod>, p: BindingRequestProtocol, n: int) -> Seq<char>
    decreases n,
{
    if n <= 0 { Seq::empty() } else { method_mappings(k, ms, p, n - 1) + injector_mapping(k, ms[n - 1], p) }
}

/// The mappings of the first `n` scopes.
pub open spec fn scope_mappings(s: Seq<SourceObject>, p: BindingRequestProtocol, n: int) -> Seq<char>
    decreases n,
{
    if n <= 0 {
        Seq::empty()
    } else {
        scope_mappings(s, p, n - 1) + method_mappings(n - 1, s[n - 1].methods@, p, s[n - 1].methods@.len() as int)
    }
}

/// The function that injects a locally resolved Binding key for one protocol.
pub open spec fn binding_argument_injector(s: Seq<SourceObject>, p: BindingRequestProtocol) -> Seq<char> {
    "/// Injects a locally resolved Binding key into one generated "@ + description(p) + " request.\n"@
        + "pub(crate) fn "@ + injector_name(p) + "(scope: usize, request: &mut "@ + request_type(p)
        + ", key: String) -> Result<(), operit_link::CoreLinkError> {\n"@
        + "    let argumentName: &str = match (scope, request."@ + method_field(p) + ".as_str()) {\n"@
        + scope_mappings(s, p, s.len() as int)
        + "        _ => return Err(operit_link::CoreLinkError::new(\"CORE_BINDING_ARGUMENT_UNDECLARED\", \"Binding request does not declare a key argument\")),\n"@
        + "    };\n"@
        + "    let operit_link::CoreValue::Map(arguments) = &mut request.args else { return Err(operit_link::CoreLinkError::new(\"INVALID_ARGS\", \"Binding request arguments must be a map\")); };\n"@
        + "    arguments.insert(argumentName.to_string(), operit_link::CoreValue::String(key));\n"@
        + "    Ok(())\n"@
        + "}\n\n"@
}

/// Renders the key-argument mapping of one method of scope `k`.
fn render_injector_mapping(k: usize, method: &SourceMethod, protocol: BindingRequestProtocol) -> (r: String)
    ensures
        r@ == injector_mapping(k as int, *method, protocol),
{
    let binding_argument = match &method.route {
        MethodRoute::Binding { binding_argument, .. } => binding_argument,
        MethodRoute::Local => return String::new(),
    };
    if !method_uses_protocol(method, protocol) {
        return String::new();
    }
    let mut r = String::from_str("        (");
    let n = dec_text(k);
    r.append(n.as_str());
    r.append(", ");
    let q = quoted(method.name.as_str());
    r.append(q.as_str());
    r.append(") => ");
    let qb = quoted(binding_argument.as_str());
    r.append(qb.as_str());
    r.append(",\n");
    r
}

/// Renders method-to-key argument mapping for one Link request protocol.
pub fn render_binding_argument_injector(scopes: &Vec<&SourceObject>, protocol: BindingRequestProtocol) -> (r: String)
    ensures
        r@ == binding_argument_injector(derefs(scopes@), protocol),
{
    let names = protocol_names(protocol);
    let mut mappings = String::new();
    let ghost s = derefs(scopes@);
    let mut k: usize = 0;
    while k < scopes.len()
        invariant
            k <= scopes.len(),
            s == derefs(scopes@),
            mappings@ == scope_mappings(s, protocol, k as int),
        decreases scopes.len() - k,
    {
        let object = scopes[k];
        let ghost before = mappings@;
        let mut j: usize = 0;
        while j < object.methods.len()
            invariant
                j <= object.methods.len(),
                *object == s[k as int],
                mappings@ == before + method_mappings(k as int, object.methods@, protocol, j as int),
            decreases object.methods.len() - j,
        {
            let c = render_injector_mapping(k, &object.methods[j], protocol);
            mappings.append(c.as_str());
            j = j + 1;
        }
        k = k + 1;
    }
    let mut r = String::from_str("/// Injects a locally resolved Binding key into one generated ");
    r.append(names.4);
    r.append(" request.\n");
    r.append("pub(crate) fn ");
    r.append(names.1);
    r.append("(scope: usize, request: &mut ");
    r.append(names.2);
    r.append(", key: String) -> Result<(), operit_link::CoreLinkError> {\n");
    r.append("    let argumentName: &str = match (scope, request.");
    r.append(names.3);
    r.append(".as_str()) {\n");
    r.append(mappings.as_str());
    r.append("        _ => return Err(operit_link::CoreLinkError::new(\"CORE_BINDING_ARGUMENT_UNDECLARED\", \"Binding request does not declare a key argument\")),\n");
    r.append("    };\n");
    r.append("    let operit_link::CoreValue::Map(arguments) = &mut request.args else { return Err(operit_link::CoreLinkError::new(\"INVALID_ARGS\", \"Binding request arguments must be a map\")); };\n");
    r.append("    arguments.insert(argumentName.to_string(), operit_link::CoreValue::String(key));\n");
    r.append("    Ok(())\n");
    r.append("}\n\n");
    r
}

/// The injectors of the three protocols, in call, watch, push order.
pub open spec fn binding_argument_injectors(s: Seq<SourceObject>) -> Seq<char> {
    binding_argument_injector(s, BindingRequestProtocol::Call)
        + binding_argument_injector(s, BindingRequestProtocol::Watch)
        + binding_argument_injector(s, BindingRequestProtocol::Push)
}

/// Renders Binding-key injection for methods whose explicit key resolved locally.
pub fn render_binding_argument_injectors(scopes: &Vec<&SourceObject>) -> (r: String)
    ensures
        r@ == binding_argument_injectors(derefs(scopes@)),
{
    let mut r = render_binding_argument_injector(scopes, BindingRequestProtocol::Call);
    let w = render_binding_argument_injector(scopes, BindingRequestProtocol::Watch);
    r.append(w.as_str());
    let p = render_binding_argument_injector(scopes, BindingRequestProtocol::Push);
    r.append(p.as_str());
    r
}

/// The route enum and the function that reads an explicit Binding key from a request's arguments.
pub open spec fn route_preamble() -> Seq<char> {
    "/// Identifies the CoreNode selected by one generated request.\n"@
        + "#[derive(Clone, Debug, PartialEq, Eq)]\n"@
        + "pub(crate) enum GeneratedCoreRoute {\n"@
        + "    Local,\n"@
        + "    Binding { scope: usize, key: String },\n"@
        + "    CurrentBinding { scope: usize, resolver: &'static str },\n"@
        + "}\n\n"@
}

/// The function that reads an explicit Binding key from a request's arguments.
pub open spec fn route_from_args() -> Seq<char> {
    "/// Resolves an explicit Binding key from one generated argument map.\n"@
        + "fn generated_binding_route_from_args(path: &operit_link::CoreObjectPath, args: &operit_link::CoreValue, bindingArgument: &str, scope: usize) -> Result<Option<GeneratedCoreRoute>, operit_link::CoreLinkError> {\n"@
        + "    if !generated_binding_scope_matches(scope, path) { return Ok(None); }\n"@
        + "    let operit_link::CoreValue::Map(arguments) = args else { return Err(operit_link::CoreLinkError::new(\"INVALID_ARGS\", \"Binding request arguments must be a map\")); };\n"@
        + "    let Some(value) = arguments.get(bindingArgument) else { return Ok(None); };\n"@
        + "    if matches!(value, operit_link::CoreValue::Null) { return Ok(None); }\n"@
        + "    let operit_link::CoreValue::String(key) = value else { return Err(operit_link::CoreLinkError::new(\"CORE_BINDING_KEY_INVALID\", \"Binding key must be a string\")); };\n"@
        + "    if key.trim().is_empty() { return Err(operit_link::CoreLinkError::new(\"CORE_BINDING_KEY_REQUIRED\", \"Binding requires a non-empty key\")); }\n"@
        + "    Ok(Some(GeneratedCoreRoute::Binding { scope, key: key.clone() }))\n"@
        + "}\n\n"@
}

/// The whole route classifier source for a set of objects.
pub open spec fn core_route_classifier(objs: Seq<SourceObject>) -> Seq<char> {
    let s = scopes(objs, objs.len() as int);
    route_preamble() + scope_matcher(s) + route_from_args()
        + protocol_route_classifier(s, BindingRequestProtocol::Call)
        + protocol_route_classifier(s, BindingRequestProtocol::Watch)
        + protocol_route_classifier(s, BindingRequestProtocol::Push)
        + binding_argument_injectors(s)
}

/// Renders method-level Binding route metadata for generated Link requests.
pub fn render_core_route_classifier(objects: &Vec<SourceObject>) -> (r: String)
    ensures
        r@ == core_route_classifier(objects@),
{
    let scopes = binding_scope_objects(objects);
    let mut r = String::from_str("/// Identifies the CoreNode selected by one generated request.\n");
    r.append("#[derive(Clone, Debug, PartialEq, Eq)]\n");
    r.append("pub(crate) enum GeneratedCoreRoute {\n");
    r.append("    Local,\n");
    r.append("    Binding { scope: usize, key: String },\n");
    r.append("    CurrentBinding { scope: usize, resolver: &'static str },\n");
    r.append("}\n\n");
    let m = render_binding_scope_matcher(&scopes);
    r.append(m.as_str());
    r.append("/// Resolves an explicit Binding key from one generated argument map.\n");
    r.append("fn generated_binding_route_from_args(path: &operit_link::CoreObjectPath, args: &operit_link::CoreValue, bindingArgument: &str, scope: usize) -> Result<Option<GeneratedCoreRoute>, operit_link::CoreLinkError> {\n");
    r.append("    if !generated_binding_scope_matches(scope, path) { return Ok(None); }\n");
    r.append("    let operit_link::CoreValue::Map(arguments) = args else { return Err(operit_link::CoreLinkError::new(\"INVALID_ARGS\", \"Binding request arguments must be a map\")); };\n");
    r.append("    let Some(value) = arguments.get(bindingArgument) else { return Ok(None); };\n");
    r.append("    if matches!(value, operit_link::CoreValue::Null) { return Ok(None); }\n");
    r.append("    let operit_link::CoreValue::String(key) = value else { return Err(operit_link::CoreLinkError::new(\"CORE_BINDING_KEY_INVALID\", \"Binding key must be a string\")); };\n");
    r.append("    if key.trim().is_empty() { return Err(operit_link::CoreLinkError::new(\"CORE_BINDING_KEY_REQUIRED\", \"Binding requires a non-empty key\")); }\n");
    r.append("    Ok(Some(GeneratedCoreRoute::Binding { scope, key: key.clone() }))\n");
    r.append("}\n\n");
    let c = render_protocol_route_classifier(&scopes, BindingRequestProtocol::Call);
    r.append(c.as_str());
    let w = render_protocol_route_classifier(&scopes, BindingRequestProtocol::Watch);
    r.append(w.as_str());
    let p = render_protocol_route_classifier(&scopes, BindingRequestProtocol::Push);
    r.append(p.as_str());
    let inj = render_binding_argument_injectors(&scopes);
    r.append(inj.as_str());
    r
}

} // verus!
