//! The generated Rust source of the Core proxy's dispatchers: how each object
//! is matched by path, constructed, and handed a call or a watch.
use vstd::prelude::*;
use crate::codegen::model::{is_call, has_call_dispatch, has_watch_transition, is_constructible, object_has_call_dispatch, object_has_watch_transition, object_uses_arc_mutex_instance, uses_arc_mutex, ObjectAccess, ObjectPathMatch, SourceMethod, SourceObject};
use crate::num::{nat_digits, u64_to_string};
use crate::text::{debug_text, join, quoted, split_char, split_on, str_eq, views};

verus! {

/// The decimal digits of a count.
pub open spec fn dec(n: int) -> Seq<char> {
    nat_digits(n as nat)
}

/// The decimal text of a count.
pub(crate) fn dec_text(n: usize) -> (r: String)
    ensures
        r@ == dec(n as int),
{
    u64_to_string(n as u64)
}

/// How a dispatcher reaches the object.
#[derive(Clone, Copy, Debug, PartialEq, Eq, Structural)]
pub enum DispatchMode {
    Call,
    WatchSnapshot,
    Watch,
}

/// The dotted segments of a schema key.
pub open spec fn key_segments(key: Seq<char>) -> Seq<Seq<char>> {
    split_on(key, '.')
}

/// `<target>.get(<i>).map(String::as_str) == Some(<quoted segment>)` for each segment.
pub open spec fn segment_checks(target: Seq<char>, segs: Seq<Seq<char>>) -> Seq<Seq<char>> {
    Seq::new(segs.len(), |i: int| target + ".get("@ + dec(i) + ").map(String::as_str) == Some("@ + debug_text(segs[i]) + ")"@)
}

/// Renders the checks of a schema key's segments, joined by ` && `.
fn render_segment_checks(target: &str, segs: &Vec<String>) -> (r: String)
    ensures
        r@ == join(segment_checks(target@, views(segs@)), " && "@),
{
    let mut checks: Vec<String> = Vec::new();
    let mut i: usize = 0;
    while i < segs.len()
        invariant
            i <= segs.len(),
            views(checks@) =~= segment_checks(target@, views(segs@)).subrange(0, i as int),
        decreases segs.len() - i,
    {
        let mut c = String::from_str(target);
        c.append(".get(");
        let n = dec_text(i);
        c.append(n.as_str());
        c.append(").map(String::as_str) == Some(");
        let q = quoted(segs[i].as_str());
        c.append(q.as_str());
        c.append(")");
        let ghost before = checks@;
        checks.push(c);
        proof {
            assert(views(checks@) =~= views(before).push(c@));
            assert(segment_checks(target@, views(segs@)).subrange(0, i + 1)
                =~= segment_checks(target@, views(segs@)).subrange(0, i as int).push(c@));
        }
        i = i + 1;
    }
    assert(segment_checks(target@, views(segs@)).subrange(0, segs.len() as int) =~= segment_checks(target@, views(segs@)));
    crate::text::join_strings(&checks, " && ")
}

/// The predicate for an exact schema prefix followed by `dynamic` more segments.
pub open spec fn segmented_predicate(key: Seq<char>, dynamic: int) -> Seq<char> {
    "path.segments.len() == "@ + dec(key_segments(key).len() + dynamic) + " && "@
        + join(segment_checks("path.segments"@, key_segments(key)), " && "@)
}

/// Renders an exact schema prefix followed by a declared number of dynamic segments.
pub fn render_segmented_object_path_predicate(schema_key: &str, dynamic_segments: usize) -> (r: String)
    requires
        split_on(schema_key@, '.').len() + dynamic_segments <= usize::MAX,
    ensures
        r@ == segmented_predicate(schema_key@, dynamic_segments as int),
{
    let segs = split_char(schema_key, '.');
    let mut r = String::from_str("path.segments.len() == ");
    let n = dec_text(segs.len() + dynamic_segments);
    r.append(n.as_str());
    r.append(" && ");
    let checks = render_segment_checks("path.segments", &segs);
    r.append(checks.as_str());
    r
}

/// The number of segments a path-matched object adds, if any.
pub open spec fn path_match_fits(o: SourceObject) -> bool {
    o.path_match matches ObjectPathMatch::TrailingSegments(n) ==> key_segments(o.schema_key@).len() + n <= usize::MAX
}

/// The concrete path predicate implied by one object's path shape.
pub open spec fn path_predicate(o: SourceObject) -> Seq<char> {
    match o.path_match {
        ObjectPathMatch::Exact => "path.key() == "@ + debug_text(o.schema_key@),
        ObjectPathMatch::TrailingSegments(n) => segmented_predicate(o.schema_key@, n as int),
        ObjectPathMatch::Predicate(f) => f@ + "(&path.segments)"@,
    }
}

/// Renders the concrete path predicate implied by one dispatch access strategy.
pub fn render_object_path_predicate(object: &SourceObject) -> (r: String)
    requires
        path_match_fits(*object),
    ensures
        r@ == path_predicate(*object),
{
    match &object.path_match {
        ObjectPathMatch::Exact => {
            let mut r = String::from_str("path.key() == ");
            let q = quoted(object.schema_key.as_str());
            r.append(q.as_str());
            r
        },
        ObjectPathMatch::TrailingSegments(n) => render_segmented_object_path_predicate(object.schema_key.as_str(), *n),
        ObjectPathMatch::Predicate(f) => {
            let mut r = String::from_str(f.as_str());
            r.append("(&path.segments)");
            r
        },
    }
}

/// One object's path matcher function.
pub open spec fn path_matcher(o: SourceObject) -> Seq<char> {
    "/// Returns whether a concrete path resolves to generated object `"@ + o.schema_key@ + "`.\n"@
        + "fn generated_object_path_matches_"@ + o.dispatch_name@ + "(path: &operit_link::CoreObjectPath) -> bool {\n"@
        + "    "@ + path_predicate(o) + "\n"@ + "}\n\n"@
}

/// The texts of all objects, in order.
pub open spec fn concat_each(objs: Seq<SourceObject>, f: spec_fn(SourceObject) -> Seq<char>) -> Seq<char>
    decreases objs.len(),
{
    if objs.len() == 0 {
        Seq::empty()
    } else {
        concat_each(objs.drop_last(), f) + f(objs.last())
    }
}

/// Renders the canonical concrete-path predicate for every generated object.
pub fn render_object_path_matchers(objects: &Vec<SourceObject>) -> (r: String)
    requires
        forall|i: int| 0 <= i < objects@.len() ==> path_match_fits(#[trigger] objects@[i]),
    ensures
        r@ == concat_each(objects@, |o: SourceObject| path_matcher(o)),
{
    let mut r = String::new();
    let mut i: usize = 0;
    while i < objects.len()
        invariant
            i <= objects.len(),
            forall|i: int| 0 <= i < objects@.len() ==> path_match_fits(#[trigger] objects@[i]),
            r@ == concat_each(objects@.subrange(0, i as int), |o: SourceObject| path_matcher(o)),
        decreases objects.len() - i,
    {
        let o = &objects[i];
        r.append("/// Returns whether a concrete path resolves to generated object `");
        r.append(o.schema_key.as_str());
        r.append("`.\n");
        r.append("fn generated_object_path_matches_");
        r.append(o.dispatch_name.as_str());
        r.append("(path: &operit_link::CoreObjectPath) -> bool {\n");
        r.append("    ");
        let p = render_object_path_predicate(o);
        r.append(p.as_str());
        r.append("\n");
        r.append("}\n\n");
        proof {
            assert(objects@.subrange(0, i + 1).drop_last() =~= objects@.subrange(0, i as int));
        }
        i = i + 1;
    }
    assert(objects@.subrange(0, objects.len() as int) =~= objects@);
    r
}

/// `let mut v = t<call>;` (without `mut` for a shared object), indented.
pub open spec fn let_text(v: Seq<char>, t: Seq<char>, call: Seq<char>, shared: bool) -> Seq<char> {
    "            "@ + (if shared { "let "@ } else { "let mut "@ }) + v + " = "@ + t + call + ";\n"@
}

/// The statement that obtains the object `v` of type `t` for one access.
pub open spec fn construct_line(v: Seq<char>, t: Seq<char>, a: ObjectAccess, mode: DispatchMode) -> Seq<char> {
    match a {
        ObjectAccess::Application => "            "@ + (if mode == DispatchMode::Call {
            "let mut __core_application = proxy.application.lock().await;\n"@
        } else {
            "let mut __core_application = proxy.application.try_lock().map_err(|_| operit_link::CoreLinkError::internal(\"Application is busy\"))?;\n"@
        }) + "            "@ + "let "@ + v + " = &mut *__core_application;\n"@,
        ObjectAccess::DefaultConstruct => let_text(v, t, "::default()"@, false),
        ObjectAccess::GetInstanceConstruct => let_text(v, t, "::getInstance()"@, false),
        ObjectAccess::ResultGetInstanceConstruct => let_text(v, t, "::getInstance().map_err(|error| operit_link::CoreLinkError::internal(error.to_string()))?"@, false),
        ObjectAccess::NewConstruct => let_text(v, t, "::new()"@, false),
        ObjectAccess::ContextGetInstanceConstruct => let_text(v, t, "::getInstance(proxy.hostManager.clone())"@, false),
        ObjectAccess::ContextRefGetInstanceConstruct => let_text(v, t, "::getInstance(&proxy.hostManager)"@, false),
        ObjectAccess::ResultContextGetInstanceConstruct => let_text(v, t, "::getInstance(proxy.hostManager.clone()).map_err(|error| operit_link::CoreLinkError::internal(error.to_string()))?"@, false),
        ObjectAccess::ResultContextRefGetInstanceConstruct => let_text(v, t, "::getInstance(&proxy.hostManager).map_err(|error| operit_link::CoreLinkError::internal(error.to_string()))?"@, false),
        ObjectAccess::ContextGetInstanceArcMutexConstruct => let_text(v, t, "::getInstance(proxy.hostManager.clone())"@, true),
        ObjectAccess::ContextRefGetInstanceArcMutexConstruct => let_text(v, t, "::getInstance(&proxy.hostManager)"@, true),
        ObjectAccess::CoreProxyConstruct => let_text(v, t, "::new(proxy.clone())"@, false),
        ObjectAccess::StorePathsConstruct => let_text(v, t, "::new(operit_store::RuntimeStorePaths::RuntimeStorePaths::default())"@, false),
        ObjectAccess::ResultStorePathsConstruct => let_text(v, t, "::new(operit_store::RuntimeStorePaths::RuntimeStorePaths::default()).map_err(|error| operit_link::CoreLinkError::internal(error.to_string()))?"@, false),
        _ => Seq::empty(),
    }
}

/// `ind let mut v = t<call>;\n` or, for a shared object, without `mut`.
fn let_line(v: &str, t: &str, call: &str, shared: bool) -> (r: String)
    ensures
        r@ == let_text(v@, t@, call@, shared),
{
    let mut r = String::from_str("            ");
    if shared {
        r.append("let ");
    } else {
        r.append("let mut ");
    }
    r.append(v);
    r.append(" = ");
    r.append(t);
    r.append(call);
    r.append(";\n");
    r
}

/// Renders the statement that obtains the object `variable_name` of type
/// `full_type` for one access.
pub fn render_object_constructor_for_access(variable_name: &str, full_type: &str, access: &ObjectAccess, mode: DispatchMode) -> (r: String)
    ensures
        r@ == construct_line(variable_name@, full_type@, *access, mode),
{
    let r = match access {
        ObjectAccess::Application => {
            let mut r = String::from_str("            ");
            if mode == DispatchMode::Call {
                r.append("let mut __core_application = proxy.application.lock().await;\n");
            } else {
                r.append("let mut __core_application = proxy.application.try_lock().map_err(|_| operit_link::CoreLinkError::internal(\"Application is busy\"))?;\n");
            }
            r.append("            ");
            r.append("let ");
            r.append(variable_name);
            r.append(" = &mut *__core_application;\n");
            r
        },
        ObjectAccess::DefaultConstruct => let_line(variable_name, full_type, "::default()", false),
        ObjectAccess::GetInstanceConstruct => let_line(variable_name, full_type, "::getInstance()", false),
        ObjectAccess::ResultGetInstanceConstruct => let_line(variable_name, full_type, "::getInstance().map_err(|error| operit_link::CoreLinkError::internal(error.to_string()))?", false),
        ObjectAccess::NewConstruct => let_line(variable_name, full_type, "::new()", false),
        ObjectAccess::ContextGetInstanceConstruct => let_line(variable_name, full_type, "::getInstance(proxy.hostManager.clone())", false),
        ObjectAccess::ContextRefGetInstanceConstruct => let_line(variable_name, full_type, "::getInstance(&proxy.hostManager)", false),
        ObjectAccess::ResultContextGetInstanceConstruct => let_line(variable_name, full_type, "::getInstance(proxy.hostManager.clone()).map_err(|error| operit_link::CoreLinkError::internal(error.to_string()))?", false),
        ObjectAccess::ResultContextRefGetInstanceConstruct => let_line(variable_name, full_type, "::getInstance(&proxy.hostManager).map_err(|error| operit_link::CoreLinkError::internal(error.to_string()))?", false),
        ObjectAccess::ContextGetInstanceArcMutexConstruct => let_line(variable_name, full_type, "::getInstance(proxy.hostManager.clone())", true),
        ObjectAccess::ContextRefGetInstanceArcMutexConstruct => let_line(variable_name, full_type, "::getInstance(&proxy.hostManager)", true),
        ObjectAccess::CoreProxyConstruct => let_line(variable_name, full_type, "::new(proxy.clone())", false),
        ObjectAccess::StorePathsConstruct => let_line(variable_name, full_type, "::new(operit_store::RuntimeStorePaths::RuntimeStorePaths::default())", false),
        ObjectAccess::ResultStorePathsConstruct => let_line(variable_name, full_type, "::new(operit_store::RuntimeStorePaths::RuntimeStorePaths::default()).map_err(|error| operit_link::CoreLinkError::internal(error.to_string()))?", false),
        _ => String::new(),
    };
    r
}

/// How one factory argument is passed: a borrow for `&str`, a clone otherwise.
pub open spec fn factory_arg(i: int, ty: Seq<char>) -> Seq<char> {
    if ty == "&str"@ {
        "&__core_factory_arg_"@ + dec(i)
    } else {
        "__core_factory_arg_"@ + dec(i) + ".clone()"@
    }
}

/// The statement reading factory argument `i` from path segment `base + i`.
pub open spec fn factory_arg_line(i: int, base: int) -> Seq<char> {
    "            let __core_factory_arg_"@ + dec(i) + " = request.targetPath.segments.get("@ + dec(base + i)
        + ").cloned().ok_or_else(|| operit_link::CoreLinkError::internal(\"missing object factory argument\"))?;\n"@
}

/// The factory argument statements for `n` arguments after `base` key segments.
pub open spec fn factory_arg_lines(n: int, base: int) -> Seq<char>
    decreases n,
{
    if n <= 0 { Seq::empty() } else { factory_arg_lines(n - 1, base) + factory_arg_line(n - 1, base) }
}

/// The block that obtains an object from its parent's factory method.
pub open spec fn factory_constructor(
    key: Seq<char>,
    parent_full_type: Seq<char>,
    parent_access: ObjectAccess,
    factory_method: Seq<char>,
    arg_types: Seq<Seq<char>>,
    returns_result: bool,
    returns_arc_mutex: bool,
    mode: DispatchMode,
) -> Seq<char> {
    factory_arg_lines(arg_types.len() as int, key_segments(key).len() as int)
        + (if returns_arc_mutex { "            let object = {\n"@ } else { "            let mut object = {\n"@ })
        + construct_line("__core_parent_object"@, parent_full_type, parent_access, mode)
        + (if uses_arc_mutex(parent_access) {
            "            let mut __core_parent_object = __core_parent_object.lock().expect(\"core proxy object mutex poisoned\");\n"@
        } else {
            Seq::empty()
        })
        + "                __core_parent_object."@ + factory_method + "("@
        + join(Seq::new(arg_types.len(), |i: int| factory_arg(i, arg_types[i])), ", "@) + ")"@
        + (if returns_result { ".map_err(|error| operit_link::CoreLinkError::internal(error.to_string()))?"@ } else { Seq::empty() })
        + "\n"@ + "            };\n"@
}

/// Renders the block that obtains an object from its parent's factory method.
fn render_factory_object_constructor(
    schema_key: &str,
    parent_full_type: &str,
    parent_access: &ObjectAccess,
    factory_method: &str,
    factory_arg_types: &Vec<String>,
    returns_result: bool,
    returns_arc_mutex: bool,
    mode: DispatchMode,
) -> (r: String)
    requires
        split_on(schema_key@, '.').len() + factory_arg_types@.len() <= usize::MAX,
    ensures
        r@ == factory_constructor(schema_key@, parent_full_type@, *parent_access, factory_method@,
            views(factory_arg_types@), returns_result, returns_arc_mutex, mode),
{
    let base_index = split_char(schema_key, '.').len();
    let mut output = String::new();
    let mut index: usize = 0;
    while index < factory_arg_types.len()
        invariant
            index <= factory_arg_types.len(),
            base_index == split_on(schema_key@, '.').len(),
            base_index + factory_arg_types@.len() <= usize::MAX,
            output@ == factory_arg_lines(index as int, base_index as int),
        decreases factory_arg_types.len() - index,
    {
        output.append("            let __core_factory_arg_");
        let i = dec_text(index);
        output.append(i.as_str());
        output.append(" = request.targetPath.segments.get(");
        let j = dec_text(base_index + index);
        output.append(j.as_str());
        output.append(").cloned().ok_or_else(|| operit_link::CoreLinkError::internal(\"missing object factory argument\"))?;\n");
        index = index + 1;
    }
    if returns_arc_mutex {
        output.append("            let object = {\n");
    } else {
        output.append("            let mut object = {\n");
    }
    let parent = render_object_constructor_for_access("__core_parent_object", parent_full_type, parent_access, mode);
    output.append(parent.as_str());
    let mut args: Vec<String> = Vec::new();
    let mut k: usize = 0;
    let ghost types = views(factory_arg_types@);
    let ghost all = Seq::new(types.len(), |i: int| factory_arg(i, types[i]));
    while k < factory_arg_types.len()
        invariant
            k <= factory_arg_types.len(),
            types == views(factory_arg_types@),
            all == Seq::new(types.len(), |i: int| factory_arg(i, types[i])),
            views(args@) =~= all.subrange(0, k as int),
        decreases factory_arg_types.len() - k,
    {
        let n = dec_text(k);
        let a = if str_eq(factory_arg_types[k].as_str(), "&str") {
            let mut a = String::from_str("&__core_factory_arg_");
            a.append(n.as_str());
            a
        } else {
            let mut a = String::from_str("__core_factory_arg_");
            a.append(n.as_str());
            a.append(".clone()");
            a
        };
        let ghost before = args@;
        args.push(a);
        proof {
            assert(views(args@) =~= views(before).push(a@));
            assert(all.subrange(0, k + 1) =~= all.subrange(0, k as int).push(all[k as int]));
        }
        k = k + 1;
    }
    assert(all.subrange(0, types.len() as int) =~= all);
    if object_uses_arc_mutex_instance(parent_access) {
        output.append("            let mut __core_parent_object = __core_parent_object.lock().expect(\"core proxy object mutex poisoned\");\n");
    }
    output.append("                __core_parent_object.");
    output.append(factory_method);
    output.append("(");
    let joined = crate::text::join_strings(&args, ", ");
    output.append(joined.as_str());
    output.append(")");
    if returns_result {
        output.append(".map_err(|error| operit_link::CoreLinkError::internal(error.to_string()))?");
    }
    output.append("\n");
    output.append("            };\n");
    proof {
        assert(output@ =~= factory_constructor(schema_key@, parent_full_type@, *parent_access, factory_method@,
            views(factory_arg_types@), returns_result, returns_arc_mutex, mode));
    }
    output
}

/// Key segments and factory arguments fit in a count.
pub open spec fn counts_fit(o: SourceObject) -> bool {
    &&& key_segments(o.schema_key@).len() + 1 <= usize::MAX
    &&& o.access matches ObjectAccess::FactoryMethodConstruct { factory_arg_types, .. } ==>
            key_segments(o.schema_key@).len() + factory_arg_types@.len() <= usize::MAX
}

/// The statements that construct one object for a request.
pub open spec fn object_constructor(o: SourceObject, mode: DispatchMode) -> Seq<char> {
    match o.access {
        ObjectAccess::Application => Seq::empty(),
        ObjectAccess::ResolvedHolder { .. } => Seq::empty(),
        ObjectAccess::StringNewConstruct =>
            "            let __core_instance_id = request.targetPath.segments.get("@ + dec(key_segments(o.schema_key@).len() as int)
                + ").cloned().ok_or_else(|| operit_link::CoreLinkError::internal(\"missing object instance id\"))?;\n            let mut object = "@
                + o.full_type@ + "::new(__core_instance_id);\n"@,
        ObjectAccess::FactoryMethodConstruct { parent_full_type, parent_access, factory_method, factory_arg_types, returns_result, returns_arc_mutex, .. } =>
            factory_constructor(o.schema_key@, parent_full_type@, *parent_access, factory_method@, views(factory_arg_types@),
                returns_result, returns_arc_mutex, mode),
        _ => construct_line("object"@, o.full_type@, o.access, mode),
    }
}

/// Renders the statements that construct one object for a request.
pub fn render_object_constructor(object: &SourceObject, mode: DispatchMode) -> (r: String)
    requires
        counts_fit(*object),
    ensures
        r@ == object_constructor(*object, mode),
{
    match &object.access {
        ObjectAccess::Application => String::new(),
        ObjectAccess::ResolvedHolder { .. } => String::new(),
        ObjectAccess::StringNewConstruct => {
            let segment_index = split_char(object.schema_key.as_str(), '.').len();
            let mut r = String::from_str("            let __core_instance_id = request.targetPath.segments.get(");
            let n = dec_text(segment_index);
            r.append(n.as_str());
            r.append(").cloned().ok_or_else(|| operit_link::CoreLinkError::internal(\"missing object instance id\"))?;\n            let mut object = ");
            r.append(object.full_type.as_str());
            r.append("::new(__core_instance_id);\n");
            r
        },
        ObjectAccess::FactoryMethodConstruct { parent_full_type, parent_access, factory_method, factory_arg_types, returns_result, returns_arc_mutex, .. } =>
            render_factory_object_constructor(object.schema_key.as_str(), parent_full_type.as_str(), parent_access,
                factory_method.as_str(), factory_arg_types, *returns_result, *returns_arc_mutex, mode),
        _ => render_object_constructor_for_access("object", object.full_type.as_str(), &object.access, mode),
    }
}

/// The methods of an object that answer calls asynchronously.
pub open spec fn async_call_methods(ms: Seq<SourceMethod>) -> Seq<SourceMethod>
    decreases ms.len(),
{
    if ms.len() == 0 {
        ms
    } else if ms.last().is_async && is_call(ms.last()) {
        async_call_methods(ms.drop_last()).push(ms.last())
    } else {
        async_call_methods(ms.drop_last())
    }
}

/// The quoted names of a list of methods.
pub open spec fn quoted_names(ms: Seq<SourceMethod>) -> Seq<Seq<char>> {
    ms.map_values(|m: SourceMethod| debug_text(m.name@))
}

/// The lock taken on a shared constructed object.
pub open spec fn object_lock() -> Seq<char> {
    "            let mut object = object.lock().expect(\"core proxy object mutex poisoned\");\n"@
}

/// The call of the object's own dispatcher for one mode.
pub open spec fn own_dispatch(dn: Seq<char>, mode: DispatchMode, sync_call: bool) -> Seq<char> {
    match mode {
        DispatchMode::Call => if sync_call {
            "            generated_dispatch_"@ + dn + "_call_sync(&mut object, request)\n"@
        } else {
            "            generated_dispatch_"@ + dn + "_call(&mut object, request).await\n"@
        },
        DispatchMode::WatchSnapshot => "            generated_dispatch_"@ + dn + "_watch_snapshot(&mut object, &request)?\n"@,
        DispatchMode::Watch => "            generated_dispatch_"@ + dn + "_watch(&mut object, request)\n"@,
    }
}

/// The statements that hand a request to a constructed object: a shared
/// object is locked first, and asynchronous calls run on a clone of it.
pub open spec fn constructed_dispatch(o: SourceObject, mode: DispatchMode) -> Seq<char> {
    let dn = o.dispatch_name@;
    let asyncs = async_call_methods(o.methods@);
    if uses_arc_mutex(o.access) {
        if mode == DispatchMode::Call && asyncs.len() > 0 {
            "            if matches!(request.methodName.as_str(), "@ + join(quoted_names(asyncs), " | "@)
                + ") {\n                let mut object = object.lock().expect(\"core proxy object mutex poisoned\").clone();\n                generated_dispatch_"@
                + dn + "_call(&mut object, request).await\n            } else {\n"@ + object_lock()
                + "            generated_dispatch_"@ + dn + "_call_sync(&mut object, request)\n            }\n"@
        } else {
            object_lock() + own_dispatch(dn, mode, true)
        }
    } else {
        own_dispatch(dn, mode, false)
    }
}

/// The quoted names of the asynchronous call methods, in order.
fn async_method_names(methods: &Vec<SourceMethod>) -> (r: Vec<String>)
    ensures
        views(r@) == quoted_names(async_call_methods(methods@)),
{
    let mut r: Vec<String> = Vec::new();
    let mut i: usize = 0;
    assert(views(r@) =~= quoted_names(async_call_methods(methods@.subrange(0, 0))));
    while i < methods.len()
        invariant
            i <= methods.len(),
            views(r@) =~= quoted_names(async_call_methods(methods@.subrange(0, i as int))),
        decreases methods.len() - i,
    {
        let ghost before = r@;
        proof {
            let pre = methods@.subrange(0, i + 1);
            assert(pre.drop_last() =~= methods@.subrange(0, i as int));
            assert(pre.last() == methods@[i as int]);
        }
        if methods[i].is_async && methods[i].answers_calls() {
            let q = quoted(methods[i].name.as_str());
            r.push(q);
            proof {
                assert(views(r@) =~= views(before).push(q@));
                let pre = async_call_methods(methods@.subrange(0, i as int));
                assert(quoted_names(pre.push(methods@[i as int])) =~= quoted_names(pre).push(q@));
            }
        }
        i = i + 1;
    }
    assert(methods@.subrange(0, methods.len() as int) =~= methods@);
    r
}

/// The call of the object's own dispatcher.
fn render_own_dispatch(dn: &str, mode: DispatchMode, sync_call: bool) -> (r: String)
    ensures
        r@ == own_dispatch(dn@, mode, sync_call),
{
    let mut r = String::from_str("            generated_dispatch_");
    r.append(dn);
    match mode {
        DispatchMode::Call => {
            if sync_call {
                r.append("_call_sync(&mut object, request)\n");
            } else {
                r.append("_call(&mut object, request).await\n");
            }
        },
        DispatchMode::WatchSnapshot => r.append("_watch_snapshot(&mut object, &request)?\n"),
        DispatchMode::Watch => r.append("_watch(&mut object, request)\n"),
    }
    r
}

/// Renders the statements that hand a request to a constructed object.
pub fn render_constructed_dispatch(object: &SourceObject, mode: DispatchMode) -> (r: String)
    ensures
        r@ == constructed_dispatch(*object, mode),
{
    let dn = object.dispatch_name.as_str();
    if object_uses_arc_mutex_instance(&object.access) {
        let names = async_method_names(&object.methods);
        if mode == DispatchMode::Call && names.len() > 0 {
            let mut r = String::from_str("            if matches!(request.methodName.as_str(), ");
            let joined = crate::text::join_strings(&names, " | ");
            r.append(joined.as_str());
            r.append(") {\n                let mut object = object.lock().expect(\"core proxy object mutex poisoned\").clone();\n                generated_dispatch_");
            r.append(dn);
            r.append("_call(&mut object, request).await\n            } else {\n");
            r.append("            let mut object = object.lock().expect(\"core proxy object mutex poisoned\");\n");
            r.append("            generated_dispatch_");
            r.append(dn);
            r.append("_call_sync(&mut object, request)\n            }\n");
            r
        } else {
            let mut r = String::from_str("            let mut object = object.lock().expect(\"core proxy object mutex poisoned\");\n");
            let d = render_own_dispatch(dn, mode, true);
            r.append(d.as_str());
            r
        }
    } else {
        render_own_dispatch(dn, mode, false)
    }
}

/// The match arm for an object constructed from a key and `extra` trailing segments.
pub open spec fn constructible_arm(o: SourceObject, extra: int, mode: DispatchMode) -> Seq<char> {
    "        _ if request.targetPath.segments.len() == "@ + dec(key_segments(o.schema_key@).len() + extra) + " && "@
        + join(segment_checks("request.targetPath.segments"@, key_segments(o.schema_key@)), " && "@) + " => {\n"@
        + object_constructor(o, mode) + constructed_dispatch(o, mode) + "        }\n"@
}

/// Renders the match arm for an object constructed from its key and `extra` trailing segments.
fn render_constructible_arm(object: &SourceObject, extra: usize, mode: DispatchMode) -> (r: String)
    requires
        counts_fit(*object),
        key_segments(object.schema_key@).len() + extra <= usize::MAX,
    ensures
        r@ == constructible_arm(*object, extra as int, mode),
{
    let segs = split_char(object.schema_key.as_str(), '.');
    let mut r = String::from_str("        _ if request.targetPath.segments.len() == ");
    let n = dec_text(segs.len() + extra);
    r.append(n.as_str());
    r.append(" && ");
    let checks = render_segment_checks("request.targetPath.segments", &segs);
    r.append(checks.as_str());
    r.append(" => {\n");
    let c = render_object_constructor(object, mode);
    r.append(c.as_str());
    let d = render_constructed_dispatch(object, mode);
    r.append(d.as_str());
    r.append("        }\n");
    r
}

/// The arm for an object constructed from a trailing instance id.
pub open spec fn string_constructible_dispatch(o: SourceObject, mode: DispatchMode) -> Seq<char> {
    constructible_arm(o, 1, mode)
}

/// Renders the arm for an object constructed from a trailing instance id.
pub fn render_string_constructible_dispatch(object: &SourceObject, mode: DispatchMode) -> (r: String)
    requires
        counts_fit(*object),
    ensures
        r@ == string_constructible_dispatch(*object, mode),
{
    render_constructible_arm(object, 1, mode)
}

/// The arm for an object produced by its parent's factory method; nothing
/// for other objects.
pub open spec fn factory_constructible_dispatch(o: SourceObject, mode: DispatchMode) -> Seq<char> {
    match o.access {
        ObjectAccess::FactoryMethodConstruct { factory_arg_types, .. } => constructible_arm(o, factory_arg_types@.len() as int, mode),
        _ => Seq::empty(),
    }
}

/// Renders the arm for an object produced by its parent's factory method.
pub fn render_factory_constructible_dispatch(object: &SourceObject, mode: DispatchMode) -> (r: String)
    requires
        counts_fit(*object),
    ensures
        r@ == factory_constructible_dispatch(*object, mode),
{
    match &object.access {
        ObjectAccess::FactoryMethodConstruct { factory_arg_types, .. } => render_constructible_arm(object, factory_arg_types.len(), mode),
        _ => String::new(),
    }
}

/// The per-object pieces of the proxy dispatchers.
#[derive(Clone, Copy, Debug, PartialEq, Eq, Structural)]
pub enum ObjectFragment {
    CallHolder,
    CallFactory,
    CallString,
    CallConstructed,
    SnapshotAsyncHolder,
    TransitionHolder,
    WatchAsyncHolder,
    SnapshotHolder,
    SnapshotString,
    SnapshotFactory,
    SnapshotConstructed,
    WatchHolder,
    WatchString,
    WatchFactory,
    WatchConstructed,
}

/// The arm for an object constructed from its exact key.
pub open spec fn keyed_arm(o: SourceObject, mode: DispatchMode) -> Seq<char> {
    "        "@ + debug_text(o.schema_key@) + " => {\n"@ + object_constructor(o, mode) + constructed_dispatch(o, mode) + "        }\n"@
}

/// `Ok(CoreEvent { .. Snapshot .. })` for a watch snapshot.
pub open spec fn snapshot_event() -> Seq<char> {
    "operit_link::CoreEvent { requestId: Some(request.requestId), targetPath: request.targetPath, propertyName, kind: operit_link::CoreEventKind::Snapshot, value }"@
}

/// The refusal of a watch that does not accept source transitions.
pub open spec fn unsupported_transition() -> Seq<char> {
    "Err(operit_link::CoreLinkError::new(\"STREAM_SOURCE_RESUME_UNSUPPORTED\", format!(\"Core watch {} does not accept source transitions\", request.propertyName)))"@
}

/// The lines that resolve a holder-backed object, up to its `if let`.
pub open spec fn holder_lookup(dn: Seq<char>, hf: Seq<char>, rm: Seq<char>, lock: Seq<char>, property: bool) -> Seq<char> {
    "    if generated_object_path_matches_"@ + dn + "(&request.targetPath) {\n"@
        + (if property { "        let propertyName = request.propertyName.clone();\n"@ } else { Seq::empty() })
        + "        let mut holder = proxy."@ + hf + lock + "\n"@
        + "        if let Some(object) = holder."@ + rm + "(&request.targetPath.segments) {\n"@
}

/// `.lock().await;` for asynchronous dispatchers.
pub open spec fn async_lock() -> Seq<char> {
    ".lock().await;"@
}

/// `.try_lock()..?;` for synchronous dispatchers.
pub open spec fn holder_try_lock() -> Seq<char> {
    ".try_lock().map_err(|_| operit_link::CoreLinkError::internal(\"Resolved holder is busy\"))?;"@
}

/// One per-object piece of the proxy dispatchers.
pub open spec fn fragment(k: ObjectFragment, o: SourceObject) -> Seq<char> {
    let dn = o.dispatch_name@;
    let call = has_call_dispatch(o);
    match o.access {
        ObjectAccess::ResolvedHolder { holder_field, resolver_method, .. } => {
            let hf = holder_field@;
            let rm = resolver_method@;
            match k {
                ObjectFragment::CallHolder => if call {
                    holder_lookup(dn, hf, rm, async_lock(), false)
                        + "            return generated_dispatch_"@ + dn + "_call(object, request).await;\n        }\n    }\n"@
                } else {
                    Seq::empty()
                },
                ObjectFragment::SnapshotAsyncHolder => holder_lookup(dn, hf, rm, async_lock(), true)
                    + "            let value = generated_dispatch_"@ + dn + "_watch_snapshot(object, &request)?;\n            return Ok("@
                    + snapshot_event() + ");\n        }\n    }\n"@,
                ObjectFragment::TransitionHolder => if has_watch_transition(o) {
                    holder_lookup(dn, hf, rm, async_lock(), false)
                        + "            return generated_dispatch_"@ + dn + "_watch_transition(object, request, transition).await;\n        }\n"@
                        + "        return Err(operit_link::CoreLinkError::new(\"STREAM_SOURCE_RUNTIME_NOT_FOUND\", format!(\"No runtime owns Core path {}\", request.targetPath.key())));\n    }\n"@
                } else {
                    "    if generated_object_path_matches_"@ + dn + "(&request.targetPath) { return "@ + unsupported_transition() + "; }\n"@
                },
                ObjectFragment::WatchAsyncHolder => holder_lookup(dn, hf, rm, async_lock(), false)
                    + "            return generated_dispatch_"@ + dn + "_watch(object, request);\n        }\n    }\n"@,
                ObjectFragment::SnapshotHolder => holder_lookup(dn, hf, rm, holder_try_lock(), true)
                    + "            let value = generated_dispatch_"@ + dn + "_watch_snapshot(object, &request)?;\n            return Ok("@
                    + snapshot_event() + ");\n        }\n    }\n"@,
                ObjectFragment::WatchHolder => holder_lookup(dn, hf, rm, holder_try_lock(), false)
                    + "            return generated_dispatch_"@ + dn + "_watch(object, request);\n        }\n    }\n"@,
                _ => Seq::empty(),
            }
        },
        ObjectAccess::Application => Seq::empty(),
        ObjectAccess::StringNewConstruct => match k {
            ObjectFragment::CallString => if call { string_constructible_dispatch(o, DispatchMode::Call) } else { Seq::empty() },
            ObjectFragment::SnapshotString => string_constructible_dispatch(o, DispatchMode::WatchSnapshot),
            ObjectFragment::WatchString => string_constructible_dispatch(o, DispatchMode::Watch),
            _ => Seq::empty(),
        },
        ObjectAccess::FactoryMethodConstruct { .. } => match k {
            ObjectFragment::CallFactory => if call { factory_constructible_dispatch(o, DispatchMode::Call) } else { Seq::empty() },
            ObjectFragment::SnapshotFactory => factory_constructible_dispatch(o, DispatchMode::WatchSnapshot),
            ObjectFragment::WatchFactory => factory_constructible_dispatch(o, DispatchMode::Watch),
            _ => Seq::empty(),
        },
        _ => match k {
            ObjectFragment::CallConstructed => if call { keyed_arm(o, DispatchMode::Call) } else { Seq::empty() },
            ObjectFragment::SnapshotConstructed => keyed_arm(o, DispatchMode::WatchSnapshot),
            ObjectFragment::WatchConstructed => keyed_arm(o, DispatchMode::Watch),
            _ => Seq::empty(),
        },
    }
}

/// Renders the lines that resolve a holder-backed object, up to its `if let`.
fn render_holder_lookup(dn: &str, hf: &str, rm: &str, lock: &str, property: bool) -> (r: String)
    ensures
        r@ == holder_lookup(dn@, hf@, rm@, lock@, property),
{
    let mut r = String::from_str("    if generated_object_path_matches_");
    r.append(dn);
    r.append("(&request.targetPath) {\n");
    if property {
        r.append("        let propertyName = request.propertyName.clone();\n");
    }
    r.append("        let mut holder = proxy.");
    r.append(hf);
    r.append(lock);
    r.append("\n");
    r.append("        if let Some(object) = holder.");
    r.append(rm);
    r.append("(&request.targetPath.segments) {\n");
    proof {
        assert(r@ =~= holder_lookup(dn@, hf@, rm@, lock@, property));
    }
    r
}

/// Renders the arm for an object constructed from its exact key.
fn render_keyed_arm(object: &SourceObject, mode: DispatchMode) -> (r: String)
    requires
        counts_fit(*object),
    ensures
        r@ == keyed_arm(*object, mode),
{
    let mut r = String::from_str("        ");
    let q = quoted(object.schema_key.as_str());
    r.append(q.as_str());
    r.append(" => {\n");
    let c = render_object_constructor(object, mode);
    r.append(c.as_str());
    let d = render_constructed_dispatch(object, mode);
    r.append(d.as_str());
    r.append("        }\n");
    r
}

/// Renders one per-object piece of the proxy dispatchers.
pub fn render_fragment(k: ObjectFragment, object: &SourceObject) -> (r: String)
    requires
        counts_fit(*object),
    ensures
        r@ == fragment(k, *object),
{
    let dn = object.dispatch_name.as_str();
    let call = object_has_call_dispatch(object);
    match &object.access {
        ObjectAccess::ResolvedHolder { holder_field, resolver_method, .. } => {
            let hf = holder_field.as_str();
            let rm = resolver_method.as_str();
            match k {
                ObjectFragment::CallHolder => {
                    if call {
                        let mut r = render_holder_lookup(dn, hf, rm, ".lock().await;", false);
                        r.append("            return generated_dispatch_");
                        r.append(dn);
                        r.append("_call(object, request).await;\n        }\n    }\n");
                        r
                    } else {
                        String::new()
                    }
                },
                ObjectFragment::SnapshotAsyncHolder => {
                    let mut r = render_holder_lookup(dn, hf, rm, ".lock().await;", true);
                    r.append("            let value = generated_dispatch_");
                    r.append(dn);
                    r.append("_watch_snapshot(object, &request)?;\n            return Ok(");
                    r.append("operit_link::CoreEvent { requestId: Some(request.requestId), targetPath: request.targetPath, propertyName, kind: operit_link::CoreEventKind::Snapshot, value }");
                    r.append(");\n        }\n    }\n");
                    r
                },
                ObjectFragment::TransitionHolder => {
                    if object_has_watch_transition(object) {
                        let mut r = render_holder_lookup(dn, hf, rm, ".lock().await;", false);
                        r.append("            return generated_dispatch_");
                        r.append(dn);
                        r.append("_watch_transition(object, request, transition).await;\n        }\n");
                        r.append("        return Err(operit_link::CoreLinkError::new(\"STREAM_SOURCE_RUNTIME_NOT_FOUND\", format!(\"No runtime owns Core path {}\", request.targetPath.key())));\n    }\n");
                        r
                    } else {
                        let mut r = String::from_str("    if generated_object_path_matches_");
                        r.append(dn);
                        r.append("(&request.targetPath) { return ");
                        r.append("Err(operit_link::CoreLinkError::new(\"STREAM_SOURCE_RESUME_UNSUPPORTED\", format!(\"Core watch {} does not accept source transitions\", request.propertyName)))");
                        r.append("; }\n");
                        r
                    }
                },
                ObjectFragment::WatchAsyncHolder => {
                    let mut r = render_holder_lookup(dn, hf, rm, ".lock().await;", false);
                    r.append("            return generated_dispatch_");
                    r.append(dn);
                    r.append("_watch(object, request);\n        }\n    }\n");
                    r
                },
                ObjectFragment::SnapshotHolder => {
                    let mut r = render_holder_lookup(dn, hf, rm, ".try_lock().map_err(|_| operit_link::CoreLinkError::internal(\"Resolved holder is busy\"))?;", true);
                    r.append("            let value = generated_dispatch_");
                    r.append(dn);
                    r.append("_watch_snapshot(object, &request)?;\n            return Ok(");
                    r.append("operit_link::CoreEvent { requestId: Some(request.requestId), targetPath: request.targetPath, propertyName, kind: operit_link::CoreEventKind::Snapshot, value }");
                    r.append(");\n        }\n    }\n");
                    r
                },
                ObjectFragment::WatchHolder => {
                    let mut r = render_holder_lookup(dn, hf, rm, ".try_lock().map_err(|_| operit_link::CoreLinkError::internal(\"Resolved holder is busy\"))?;", false);
                    r.append("            return generated_dispatch_");
                    r.append(dn);
                    r.append("_watch(object, request);\n        }\n    }\n");
                    r
                },
                _ => String::new(),
            }
        },
        ObjectAccess::Application => String::new(),
        ObjectAccess::StringNewConstruct => match k {
            ObjectFragment::CallString => if call { render_string_constructible_dispatch(object, DispatchMode::Call) } else { String::new() },
            ObjectFragment::SnapshotString => render_string_constructible_dispatch(object, DispatchMode::WatchSnapshot),
            ObjectFragment::WatchString => render_string_constructible_dispatch(object, DispatchMode::Watch),
            _ => String::new(),
        },
        ObjectAccess::FactoryMethodConstruct { .. } => match k {
            ObjectFragment::CallFactory => if call { render_factory_constructible_dispatch(object, DispatchMode::Call) } else { String::new() },
            ObjectFragment::SnapshotFactory => render_factory_constructible_dispatch(object, DispatchMode::WatchSnapshot),
            ObjectFragment::WatchFactory => render_factory_constructible_dispatch(object, DispatchMode::Watch),
            _ => String::new(),
        },
        _ => match k {
            ObjectFragment::CallConstructed => if call { render_keyed_arm(object, DispatchMode::Call) } else { String::new() },
            ObjectFragment::SnapshotConstructed => render_keyed_arm(object, DispatchMode::WatchSnapshot),
            ObjectFragment::WatchConstructed => render_keyed_arm(object, DispatchMode::Watch),
            _ => String::new(),
        },
    }
}

/// Appends one kind of piece for every object, in order.
fn append_fragments(out: &mut String, objects: &Vec<SourceObject>, k: ObjectFragment)
    requires
        forall|i: int| 0 <= i < objects@.len() ==> counts_fit(#[trigger] objects@[i]),
    ensures
        final(out)@ == old(out)@ + concat_each(objects@, |o: SourceObject| fragment(k, o)),
{
    let ghost start = out@;
    let mut i: usize = 0;
    assert(concat_each(objects@.subrange(0, 0), |o: SourceObject| fragment(k, o)) =~= Seq::<char>::empty());
    assert(out@ =~= start + concat_each(objects@.subrange(0, 0), |o: SourceObject| fragment(k, o)));
    while i < objects.len()
        invariant
            i <= objects.len(),
            forall|i: int| 0 <= i < objects@.len() ==> counts_fit(#[trigger] objects@[i]),
            out@ =~= start + concat_each(objects@.subrange(0, i as int), |o: SourceObject| fragment(k, o)),
        decreases objects.len() - i,
    {
        let piece = render_fragment(k, &objects[i]);
        out.append(piece.as_str());
        proof {
            assert(objects@.subrange(0, i + 1).drop_last() =~= objects@.subrange(0, i as int));
        }
        i = i + 1;
    }
    assert(objects@.subrange(0, objects.len() as int) =~= objects@);
}

/// The application's pieces of the proxy dispatchers.
#[derive(Clone, Copy, Debug, PartialEq, Eq, Structural)]
pub enum AppFragment {
    Call,
    SnapshotAsync,
    Transition,
    WatchAsync,
    Snapshot,
    Watch,
}

/// The application object (one that answers calls, for the call dispatcher).
pub open spec fn is_app(o: SourceObject, need_call: bool) -> bool {
    o.access is Application && (!need_call || has_call_dispatch(o))
}

/// `i` is the first application object.
pub open spec fn first_app_at(objs: Seq<SourceObject>, need_call: bool, i: int) -> bool {
    0 <= i < objs.len() && is_app(objs[i], need_call) && forall|j: int| 0 <= j < i ==> !is_app(#[trigger] objs[j], need_call)
}

/// The application's piece, from the first application object, if any.
pub open spec fn app_text(objs: Seq<SourceObject>, k: AppFragment) -> Seq<char> {
    let need_call = k == AppFragment::Call;
    if exists|i: int| first_app_at(objs, need_call, i) {
        app_fragment(k, objs[choose|i: int| first_app_at(objs, need_call, i)])
    } else {
        Seq::empty()
    }
}

/// `    if request.targetPath.key() == <key> {`.
pub open spec fn app_key_test(o: SourceObject) -> Seq<char> {
    "    if request.targetPath.key() == "@ + debug_text(o.schema_key@)
}

/// The application's lock and hand-over for the asynchronous dispatchers.
pub open spec fn app_fragment(k: AppFragment, o: SourceObject) -> Seq<char> {
    let dn = o.dispatch_name@;
    let busy = "proxy.application.try_lock().map_err(|_| operit_link::CoreLinkError::internal(\"Application is busy\"))?;"@;
    match k {
        AppFragment::Call => app_key_test(o) + " {\n        let mut application = proxy.application.lock().await;\n        return generated_dispatch_"@
            + dn + "_call(&mut application, request).await;\n    }\n"@,
        AppFragment::SnapshotAsync => app_key_test(o)
            + " {\n        let propertyName = request.propertyName.clone();\n        let mut application = proxy.application.lock().await;\n        let value = generated_dispatch_"@
            + dn + "_watch_snapshot(&mut application, &request)?;\n        return Ok("@ + snapshot_event() + ");\n    }\n"@,
        AppFragment::Transition => if has_watch_transition(o) {
            app_key_test(o) + " {\n        let mut application = proxy.application.lock().await;\n        return generated_dispatch_"@
                + dn + "_watch_transition(&mut application, request, transition).await;\n    }\n"@
        } else {
            app_key_test(o) + " { return "@ + unsupported_transition() + "; }\n"@
        },
        AppFragment::WatchAsync => app_key_test(o) + " {\n        let mut application = proxy.application.lock().await;\n        return generated_dispatch_"@
            + dn + "_watch(&mut application, request);\n    }\n"@,
        AppFragment::Snapshot => "        "@ + debug_text(o.schema_key@) + " => { let mut application = "@ + busy + " generated_dispatch_"@
            + dn + "_watch_snapshot(&mut application, &request)? },\n"@,
        AppFragment::Watch => "        "@ + debug_text(o.schema_key@) + " => { let mut application = "@ + busy + " generated_dispatch_"@
            + dn + "_watch(&mut application, request) },\n"@,
    }
}

/// Renders the application's piece for one dispatcher.
fn render_app_fragment(k: AppFragment, o: &SourceObject) -> (r: String)
    ensures
        r@ == app_fragment(k, *o),
{
    let dn = o.dispatch_name.as_str();
    let q = quoted(o.schema_key.as_str());
    let mut r = String::new();
    match k {
        AppFragment::Snapshot | AppFragment::Watch => {
            r.append("        ");
            r.append(q.as_str());
            r.append(" => { let mut application = ");
            r.append("proxy.application.try_lock().map_err(|_| operit_link::CoreLinkError::internal(\"Application is busy\"))?;");
            r.append(" generated_dispatch_");
            r.append(dn);
            if k == AppFragment::Snapshot {
                r.append("_watch_snapshot(&mut application, &request)? },\n");
            } else {
                r.append("_watch(&mut application, request) },\n");
            }
        },
        _ => {
            r.append("    if request.targetPath.key() == ");
            r.append(q.as_str());
            match k {
                AppFragment::Call => {
                    r.append(" {\n        let mut application = proxy.application.lock().await;\n        return generated_dispatch_");
                    r.append(dn);
                    r.append("_call(&mut application, request).await;\n    }\n");
                },
                AppFragment::SnapshotAsync => {
                    r.append(" {\n        let propertyName = request.propertyName.clone();\n        let mut application = proxy.application.lock().await;\n        let value = generated_dispatch_");
                    r.append(dn);
                    r.append("_watch_snapshot(&mut application, &request)?;\n        return Ok(");
                    r.append("operit_link::CoreEvent { requestId: Some(request.requestId), targetPath: request.targetPath, propertyName, kind: operit_link::CoreEventKind::Snapshot, value }");
                    r.append(");\n    }\n");
                },
                AppFragment::Transition => {
                    if object_has_watch_transition(o) {
                        r.append(" {\n        let mut application = proxy.application.lock().await;\n        return generated_dispatch_");
                        r.append(dn);
                        r.append("_watch_transition(&mut application, request, transition).await;\n    }\n");
                    } else {
                        r.append(" { return ");
                        r.append("Err(operit_link::CoreLinkError::new(\"STREAM_SOURCE_RESUME_UNSUPPORTED\", format!(\"Core watch {} does not accept source transitions\", request.propertyName)))");
                        r.append("; }\n");
                    }
                },
                _ => {
                    r.append(" {\n        let mut application = proxy.application.lock().await;\n        return generated_dispatch_");
                    r.append(dn);
                    r.append("_watch(&mut application, request);\n    }\n");
                },
            }
        },
    }
    proof {
        assert(r@ =~= app_fragment(k, *o));
    }
    r
}

/// Appends the application's piece for one dispatcher, from the first
/// application object, if there is one.
fn append_app(out: &mut String, objects: &Vec<SourceObject>, k: AppFragment)
    ensures
        final(out)@ == old(out)@ + app_text(objects@, k),
{
    let need_call = k == AppFragment::Call;
    let mut i: usize = 0;
    while i < objects.len()
        invariant
            i <= objects.len(),
            need_call == (k == AppFragment::Call),
            out@ == old(out)@,
            forall|j: int| 0 <= j < i ==> !is_app(#[trigger] objects@[j], need_call),
        decreases objects.len() - i,
    {
        let app = match objects[i].access {
            ObjectAccess::Application => !need_call || object_has_call_dispatch(&objects[i]),
            _ => false,
        };
        if app {
            assert(first_app_at(objects@, need_call, i as int));
            proof {
                let c = choose|c: int| first_app_at(objects@, need_call, c);
                if c < i {
                    assert(!is_app(objects@[c], need_call));
                }
                if c > i {
                    assert(!is_app(objects@[i as int], need_call));
                }
            }
            let piece = render_app_fragment(k, &objects[i]);
            out.append(piece.as_str());
            return;
        }
        i = i + 1;
    }
    assert(!exists|c: int| first_app_at(objects@, need_call, c));
    assert(app_text(objects@, k) =~= Seq::<char>::empty());
    assert(out@ =~= old(out)@ + app_text(objects@, k));
}

/// The pieces of one kind for every object.
pub open spec fn each(objs: Seq<SourceObject>, k: ObjectFragment) -> Seq<char> {
    concat_each(objs, |o: SourceObject| fragment(k, o))
}

/// The attribute that starts every dispatcher.
pub open spec fn allow_unused() -> Seq<char> {
    "#[allow(unused_mut, unused_variables)]\n"@
}

/// The call dispatcher.
pub open spec fn call_dispatcher(objs: Seq<SourceObject>) -> Seq<char> {
    allow_unused()
        + "async fn generated_dispatch_core_proxy_call(proxy: &LocalCoreProxy, request: operit_link::CoreCallRequest) -> Result<operit_link::CoreValue, operit_link::CoreLinkError> {\n"@
        + "    #[cfg(not(target_arch = \"wasm32\"))]\n"@
        + "    if request.targetPath.key() == \"application\" && request.methodName == \"runCoreCommand\" {\n"@
        + "        let mut __core_args = object_args(request.args)?;\n"@
        + "        let args: Vec<String> = decode_core_arg(&mut __core_args, \"args\")?;\n"@
        + "        let mut application = proxy.application.lock().await;\n"@
        + "        let output = tokio::task::block_in_place(|| operit_command_core::run_core_command(&mut application, &args)).map_err(operit_link::CoreLinkError::command)?;\n"@
        + "        return to_core_value(output);\n"@
        + "    }\n"@
        + app_text(objs, AppFragment::Call)
        + each(objs, ObjectFragment::CallHolder)
        + "    match request.targetPath.key().as_str() {\n"@
        + each(objs, ObjectFragment::CallFactory)
        + each(objs, ObjectFragment::CallString)
        + each(objs, ObjectFragment::CallConstructed)
        + "        _ => Err(operit_link::CoreLinkError::methodNotFound(&request.registryKey())),\n"@
        + "    }\n}\n\n"@
}

/// The asynchronous watch-snapshot dispatcher.
pub open spec fn snapshot_async_dispatcher(objs: Seq<SourceObject>) -> Seq<char> {
    allow_unused()
        + "async fn generated_dispatch_core_proxy_watch_snapshot_async(proxy: &LocalCoreProxy, request: operit_link::CoreWatchRequest) -> Result<operit_link::CoreEvent, operit_link::CoreLinkError> {\n"@
        + each(objs, ObjectFragment::SnapshotAsyncHolder)
        + app_text(objs, AppFragment::SnapshotAsync)
        + "    generated_dispatch_core_proxy_watch_snapshot(proxy, request)\n"@
        + "}\n\n"@
}

/// The asynchronous watch-transition dispatcher.
pub open spec fn transition_dispatcher(objs: Seq<SourceObject>) -> Seq<char> {
    allow_unused()
        + "async fn generated_dispatch_core_proxy_watch_transition_async(proxy: &LocalCoreProxy, request: &operit_link::CoreWatchRequest, transition: operit_link::CoreWatchSourceResume) -> Result<(), operit_link::CoreLinkError> {\n"@
        + each(objs, ObjectFragment::TransitionHolder)
        + app_text(objs, AppFragment::Transition)
        + "    "@ + unsupported_transition() + "\n"@
        + "}\n\n"@
}

/// The asynchronous watch dispatcher.
pub open spec fn watch_async_dispatcher(objs: Seq<SourceObject>) -> Seq<char> {
    allow_unused()
        + "async fn generated_dispatch_core_proxy_watch_async(proxy: &LocalCoreProxy, request: operit_link::CoreWatchRequest) -> Result<operit_link::CoreEventStream, operit_link::CoreLinkError> {\n"@
        + each(objs, ObjectFragment::WatchAsyncHolder)
        + app_text(objs, AppFragment::WatchAsync)
        + "    generated_dispatch_core_proxy_watch(proxy, request)\n"@
        + "}\n\n"@
}

/// The synchronous watch-snapshot dispatcher.
pub open spec fn snapshot_dispatcher(objs: Seq<SourceObject>) -> Seq<char> {
    allow_unused()
        + "fn generated_dispatch_core_proxy_watch_snapshot(proxy: &LocalCoreProxy, request: operit_link::CoreWatchRequest) -> Result<operit_link::CoreEvent, operit_link::CoreLinkError> {\n"@
        + each(objs, ObjectFragment::SnapshotHolder)
        + "    let propertyName = request.propertyName.clone();\n"@
        + "    let value = match request.targetPath.key().as_str() {\n"@
        + app_text(objs, AppFragment::Snapshot)
        + each(objs, ObjectFragment::SnapshotString)
        + each(objs, ObjectFragment::SnapshotFactory)
        + each(objs, ObjectFragment::SnapshotConstructed)
        + "        _ => return Err(operit_link::CoreLinkError::watchNotFound(&request.registryKey())),\n"@
        + "    };\n"@
        + "    Ok("@ + snapshot_event() + ")\n"@
        + "}\n\n"@
}

/// The synchronous watch dispatcher.
pub open spec fn watch_dispatcher(objs: Seq<SourceObject>) -> Seq<char> {
    allow_unused()
        + "fn generated_dispatch_core_proxy_watch(proxy: &LocalCoreProxy, request: operit_link::CoreWatchRequest) -> Result<operit_link::CoreEventStream, operit_link::CoreLinkError> {\n"@
        + each(objs, ObjectFragment::WatchHolder)
        + "    match request.targetPath.key().as_str() {\n"@
        + app_text(objs, AppFragment::Watch)
        + each(objs, ObjectFragment::WatchString)
        + each(objs, ObjectFragment::WatchFactory)
        + each(objs, ObjectFragment::WatchConstructed)
        + "        _ => Err(operit_link::CoreLinkError::watchNotFound(&request.registryKey())),\n"@
        + "    }\n}\n"@
}

/// The Core proxy's six top-level dispatchers, in order.
pub open spec fn core_proxy_dispatch(objs: Seq<SourceObject>) -> Seq<char> {
    call_dispatcher(objs) + snapshot_async_dispatcher(objs) + transition_dispatcher(objs)
        + watch_async_dispatcher(objs) + snapshot_dispatcher(objs) + watch_dispatcher(objs)
}

/// Renders the call dispatcher.
fn render_call_dispatcher(objects: &Vec<SourceObject>) -> (r: String)
    requires
        forall|i: int| 0 <= i < objects@.len() ==> counts_fit(#[trigger] objects@[i]),
    ensures
        r@ == call_dispatcher(objects@),
{
    let mut output = String::new();
    output.append("#[allow(unused_mut, unused_variables)]\n");
    output.append("async fn generated_dispatch_core_proxy_call(proxy: &LocalCoreProxy, request: operit_link::CoreCallRequest) -> Result<operit_link::CoreValue, operit_link::CoreLinkError> {\n");
    output.append("    #[cfg(not(target_arch = \"wasm32\"))]\n");
    output.append("    if request.targetPath.key() == \"application\" && request.methodName == \"runCoreCommand\" {\n");
    output.append("        let mut __core_args = object_args(request.args)?;\n");
    output.append("        let args: Vec<String> = decode_core_arg(&mut __core_args, \"args\")?;\n");
    output.append("        let mut application = proxy.application.lock().await;\n");
    output.append("        let output = tokio::task::block_in_place(|| operit_command_core::run_core_command(&mut application, &args)).map_err(operit_link::CoreLinkError::command)?;\n");
    output.append("        return to_core_value(output);\n");
    output.append("    }\n");
    append_app(&mut output, objects, AppFragment::Call);
    append_fragments(&mut output, objects, ObjectFragment::CallHolder);
    output.append("    match request.targetPath.key().as_str() {\n");
    append_fragments(&mut output, objects, ObjectFragment::CallFactory);
    append_fragments(&mut output, objects, ObjectFragment::CallString);
    append_fragments(&mut output, objects, ObjectFragment::CallConstructed);
    output.append("        _ => Err(operit_link::CoreLinkError::methodNotFound(&request.registryKey())),\n");
    output.append("    }\n}\n\n");
    assert(output@ =~= call_dispatcher(objects@));
    output
}

/// Renders the asynchronous watch-snapshot dispatcher.
fn render_snapshot_async_dispatcher(objects: &Vec<SourceObject>) -> (r: String)
    requires
        forall|i: int| 0 <= i < objects@.len() ==> counts_fit(#[trigger] objects@[i]),
    ensures
        r@ == snapshot_async_dispatcher(objects@),
{
    let mut output = String::new();
    output.append("#[allow(unused_mut, unused_variables)]\n");
    output.append("async fn generated_dispatch_core_proxy_watch_snapshot_async(proxy: &LocalCoreProxy, request: operit_link::CoreWatchRequest) -> Result<operit_link::CoreEvent, operit_link::CoreLinkError> {\n");
    append_fragments(&mut output, objects, ObjectFragment::SnapshotAsyncHolder);
    append_app(&mut output, objects, AppFragment::SnapshotAsync);
    output.append("    generated_dispatch_core_proxy_watch_snapshot(proxy, request)\n");
    output.append("}\n\n");
    assert(output@ =~= snapshot_async_dispatcher(objects@));
    output
}

/// Renders the asynchronous watch-transition dispatcher.
fn render_transition_dispatcher(objects: &Vec<SourceObject>) -> (r: String)
    requires
        forall|i: int| 0 <= i < objects@.len() ==> counts_fit(#[trigger] objects@[i]),
    ensures
        r@ == transition_dispatcher(objects@),
{
    let mut output = String::new();
    output.append("#[allow(unused_mut, unused_variables)]\n");
    output.append("async fn generated_dispatch_core_proxy_watch_transition_async(proxy: &LocalCoreProxy, request: &operit_link::CoreWatchRequest, transition: operit_link::CoreWatchSourceResume) -> Result<(), operit_link::CoreLinkError> {\n");
    append_fragments(&mut output, objects, ObjectFragment::TransitionHolder);
    append_app(&mut output, objects, AppFragment::Transition);
    output.append("    ");
    output.append("Err(operit_link::CoreLinkError::new(\"STREAM_SOURCE_RESUME_UNSUPPORTED\", format!(\"Core watch {} does not accept source transitions\", request.propertyName)))");
    output.append("\n");
    output.append("}\n\n");
    assert(output@ =~= transition_dispatcher(objects@));
    output
}

/// Renders the asynchronous watch dispatcher.
fn render_watch_async_dispatcher(objects: &Vec<SourceObject>) -> (r: String)
    requires
        forall|i: int| 0 <= i < objects@.len() ==> counts_fit(#[trigger] objects@[i]),
    ensures
        r@ == watch_async_dispatcher(objects@),
{
    let mut output = String::new();
    output.append("#[allow(unused_mut, unused_variables)]\n");
    output.append("async fn generated_dispatch_core_proxy_watch_async(proxy: &LocalCoreProxy, request: operit_link::CoreWatchRequest) -> Result<operit_link::CoreEventStream, operit_link::CoreLinkError> {\n");
    append_fragments(&mut output, objects, ObjectFragment::WatchAsyncHolder);
    append_app(&mut output, objects, AppFragment::WatchAsync);
    output.append("    generated_dispatch_core_proxy_watch(proxy, request)\n");
    output.append("}\n\n");
    assert(output@ =~= watch_async_dispatcher(objects@));
    output
}

/// Renders the synchronous watch-snapshot dispatcher.
fn render_snapshot_dispatcher(objects: &Vec<SourceObject>) -> (r: String)
    requires
        forall|i: int| 0 <= i < objects@.len() ==> counts_fit(#[trigger] objects@[i]),
    ensures
        r@ == snapshot_dispatcher(objects@),
{
    let mut output = String::new();
    output.append("#[allow(unused_mut, unused_variables)]\n");
    output.append("fn generated_dispatch_core_proxy_watch_snapshot(proxy: &LocalCoreProxy, request: operit_link::CoreWatchRequest) -> Result<operit_link::CoreEvent, operit_link::CoreLinkError> {\n");
    append_fragments(&mut output, objects, ObjectFragment::SnapshotHolder);
    output.append("    let propertyName = request.propertyName.clone();\n");
    output.append("    let value = match request.targetPath.key().as_str() {\n");
    append_app(&mut output, objects, AppFragment::Snapshot);
    append_fragments(&mut output, objects, ObjectFragment::SnapshotString);
    append_fragments(&mut output, objects, ObjectFragment::SnapshotFactory);
    append_fragments(&mut output, objects, ObjectFragment::SnapshotConstructed);
    output.append("        _ => return Err(operit_link::CoreLinkError::watchNotFound(&request.registryKey())),\n");
    output.append("    };\n");
    output.append("    Ok(");
    output.append("operit_link::CoreEvent { requestId: Some(request.requestId), targetPath: request.targetPath, propertyName, kind: operit_link::CoreEventKind::Snapshot, value }");
    output.append(")\n");
    output.append("}\n\n");
    assert(output@ =~= snapshot_dispatcher(objects@));
    output
}

/// Renders the synchronous watch dispatcher.
fn render_watch_dispatcher(objects: &Vec<SourceObject>) -> (r: String)
    requires
        forall|i: int| 0 <= i < objects@.len() ==> counts_fit(#[trigger] objects@[i]),
    ensures
        r@ == watch_dispatcher(objects@),
{
    let mut output = String::new();
    output.append("#[allow(unused_mut, unused_variables)]\n");
    output.append("fn generated_dispatch_core_proxy_watch(proxy: &LocalCoreProxy, request: operit_link::CoreWatchRequest) -> Result<operit_link::CoreEventStream, operit_link::CoreLinkError> {\n");
    append_fragments(&mut output, objects, ObjectFragment::WatchHolder);
    output.append("    match request.targetPath.key().as_str() {\n");
    append_app(&mut output, objects, AppFragment::Watch);
    append_fragments(&mut output, objects, ObjectFragment::WatchString);
    append_fragments(&mut output, objects, ObjectFragment::WatchFactory);
    append_fragments(&mut output, objects, ObjectFragment::WatchConstructed);
    output.append("        _ => Err(operit_link::CoreLinkError::watchNotFound(&request.registryKey())),\n");
    output.append("    }\n}\n");
    assert(output@ =~= watch_dispatcher(objects@));
    output
}

/// Renders the Core proxy's top-level dispatchers: calls, watch snapshots
/// (asynchronous and not), watch transitions and watches, each trying the
/// holder-backed objects by path, then the application, then the objects
/// constructed per request by key.
pub fn render_core_proxy_dispatch(objects: &Vec<SourceObject>) -> (r: String)
    requires
        forall|i: int| 0 <= i < objects@.len() ==> counts_fit(#[trigger] objects@[i]),
    ensures
        r@ == core_proxy_dispatch(objects@),
{
    let mut output = render_call_dispatcher(objects);
    let b = render_snapshot_async_dispatcher(objects);
    output.append(b.as_str());
    let c = render_transition_dispatcher(objects);
    output.append(c.as_str());
    let d = render_watch_async_dispatcher(objects);
    output.append(d.as_str());
    let e = render_snapshot_dispatcher(objects);
    output.append(e.as_str());
    let f = render_watch_dispatcher(objects);
    output.append(f.as_str());
    output
}
} // verus!
