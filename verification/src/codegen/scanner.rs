//! How the source scanner classifies a source file's public type by the way
//! it can be constructed.
use vstd::prelude::*;
use vstd::multiset::Multiset;
use crate::codegen::model::{ObjectAccess, ObjectPathMatch, ObjectSpec};
use crate::rust_source::{parse_rust_file, parsed_rust_file, RustFile, SourceItem, SourceItemKind, SourceMethod};
use crate::order::{compare_text, lemma_text_le_reflexive, lemma_text_le_total, lemma_text_le_transitive, text_le};
use crate::text::{contains_text, has_infix, has_prefix, remove_whitespace, starts_with, str_eq, trim, trim_start, trim_start_string, trim_string, without_whitespace};

verus! {

/// A struct declared at the top level of a source file.
#[derive(Clone, Debug)]
pub struct ScannedStruct {
    pub name: String,
    pub public: bool,
    pub generic: bool,
}

/// A function declared in an `impl` block of a source file.
#[derive(Clone, Debug)]
pub struct ScannedFn {
    /// The last segment of the implemented type's path, when it is a path.
    pub impl_type: Option<String>,
    pub public: bool,
    /// The function carries the in-process-only marker attribute.
    pub core_internal: bool,
    /// The function takes `self` in some form.
    pub has_receiver: bool,
    pub name: String,
    /// The number of inputs, the receiver included.
    pub inputs: usize,
    /// The tokens of the first input's type, when the first input is typed.
    pub first_arg_type: Option<String>,
    /// The last path segment of the first input's type, when it is a plain path.
    pub first_arg_path_ident: Option<String>,
    /// The tokens of the return type; empty when there is none.
    pub return_type: String,
}

/// `Result < Self` or `Result<Self` begins the return type.
pub open spec fn returns_result_self(rt: Seq<char>) -> bool {
    has_prefix(rt, "Result < Self"@) || has_prefix(rt, "Result<Self"@)
}

/// The return type is `Arc<Mutex<Self>>`, written in one of its usual paths.
pub open spec fn arc_mutex_self(rt: Seq<char>) -> bool {
    let compact = without_whitespace(rt);
    compact == "Arc<Mutex<Self>>"@ || compact == "std::sync::Arc<std::sync::Mutex<Self>>"@
        || compact == "::std::sync::Arc<::std::sync::Mutex<Self>>"@
}

/// Returns whether a return type is `Arc<Mutex<Self>>`.
pub fn returns_arc_mutex_self(return_type: &str) -> (r: bool)
    ensures
        r == arc_mutex_self(return_type@),
{
    let compact = remove_whitespace(return_type);
    str_eq(compact.as_str(), "Arc<Mutex<Self>>") || str_eq(compact.as_str(), "std::sync::Arc<std::sync::Mutex<Self>>")
        || str_eq(compact.as_str(), "::std::sync::Arc<::std::sync::Mutex<Self>>")
}

/// The ways in which a type's public functions let the proxy construct it.
#[derive(Clone, Copy, Debug)]
pub struct ConstructionFlags {
    pub default: bool,
    pub get_instance: bool,
    pub result_get_instance: bool,
    pub new: bool,
    pub string_new: bool,
    pub context_get_instance: bool,
    pub context_ref_get_instance: bool,
    pub result_context_get_instance: bool,
    pub result_context_ref_get_instance: bool,
    pub context_get_instance_arc_mutex: bool,
    pub context_ref_get_instance_arc_mutex: bool,
    pub store_paths_new: bool,
    pub result_store_paths_new: bool,
    pub core_proxy_new: bool,
    pub public_instance_method: bool,
}

/// No way known yet.
pub open spec fn no_flags() -> ConstructionFlags {
    ConstructionFlags {
        default: false, get_instance: false, result_get_instance: false, new: false, string_new: false,
        context_get_instance: false, context_ref_get_instance: false, result_context_get_instance: false,
        result_context_ref_get_instance: false, context_get_instance_arc_mutex: false,
        context_ref_get_instance_arc_mutex: false, store_paths_new: false, result_store_paths_new: false,
        core_proxy_new: false, public_instance_method: false,
    }
}

/// A function of the type that the scan reads: public, and not reserved for
/// in-process dispatch.
pub open spec fn counts_for(f: ScannedFn, ty_name: Seq<char>) -> bool {
    f.impl_type matches Some(t) && t@ == ty_name && f.public && !f.core_internal
}

/// The first input is a `HostManager` context, by value or by reference.
pub open spec fn context_arg(f: ScannedFn) -> bool {
    f.inputs == 1 && f.name@ == "getInstance"@ && (f.first_arg_type matches Some(a) && has_infix(a@, "HostManager"@))
}

/// The context is passed by reference.
pub open spec fn context_by_ref(f: ScannedFn) -> bool {
    f.first_arg_type matches Some(a) && has_prefix(trim_start(a@), "&"@)
}

/// The first input is the runtime store paths.
pub open spec fn store_paths_arg(f: ScannedFn) -> bool {
    f.inputs == 1 && f.name@ == "new"@ && (f.first_arg_type matches Some(a) && has_infix(a@, "RuntimeStorePaths"@))
}

/// The ways that one counted function adds.
pub open spec fn fn_flags(flags: ConstructionFlags, f: ScannedFn) -> ConstructionFlags {
    let rt = f.return_type@;
    let zero = f.inputs == 0;
    let one = f.inputs == 1 && f.first_arg_type is Some;
    let at = if f.first_arg_type is Some { f.first_arg_type->Some_0@ } else { Seq::empty() };
    let ctx = one && context_arg(f);
    let by_ref = context_by_ref(f);
    let arc = arc_mutex_self(rt);
    let res = returns_result_self(rt);
    ConstructionFlags {
        default: flags.default || (zero && f.name@ == "default"@),
        get_instance: flags.get_instance || (zero && f.name@ == "getInstance"@ && !res),
        result_get_instance: flags.result_get_instance || (zero && f.name@ == "getInstance"@ && res),
        new: flags.new || (zero && f.name@ == "new"@),
        string_new: flags.string_new || (one && f.name@ == "new"@
            && (has_infix(at, "impl Into < String >"@) || has_infix(at, "impl Into<String>"@) || trim(at) == "String"@)),
        context_get_instance: flags.context_get_instance || (ctx && !by_ref && !arc && !res),
        context_ref_get_instance: flags.context_ref_get_instance || (ctx && by_ref && !arc && !res),
        result_context_get_instance: flags.result_context_get_instance || (ctx && !by_ref && !arc && res),
        result_context_ref_get_instance: flags.result_context_ref_get_instance || (ctx && by_ref && !arc && res),
        context_get_instance_arc_mutex: flags.context_get_instance_arc_mutex || (ctx && !by_ref && arc),
        context_ref_get_instance_arc_mutex: flags.context_ref_get_instance_arc_mutex || (ctx && by_ref && arc),
        store_paths_new: flags.store_paths_new || (one && store_paths_arg(f) && !has_infix(rt, "Result"@)),
        result_store_paths_new: flags.result_store_paths_new || (one && store_paths_arg(f) && has_infix(rt, "Result"@)),
        core_proxy_new: flags.core_proxy_new || (one && f.name@ == "new"@
            && (f.first_arg_path_ident matches Some(p) && p@ == "LocalCoreProxy"@)),
        public_instance_method: flags.public_instance_method || f.has_receiver,
    }
}

/// The ways found among the first `n` functions of the file for `ty_name`.
pub open spec fn type_flags(fns: Seq<ScannedFn>, ty_name: Seq<char>, n: int) -> ConstructionFlags
    decreases n,
{
    if n <= 0 {
        no_flags()
    } else {
        let prev = type_flags(fns, ty_name, n - 1);
        if counts_for(fns[n - 1], ty_name) { fn_flags(prev, fns[n - 1]) } else { prev }
    }
}

/// How the proxy constructs a type with these ways, by fixed preference, or
/// `None` when it has no public instance method or no way.
pub open spec fn access_kind(f: ConstructionFlags) -> Option<int> {
    if !f.public_instance_method { None }
    else if f.context_get_instance_arc_mutex { Some(0) }
    else if f.context_ref_get_instance_arc_mutex { Some(1) }
    else if f.result_context_get_instance { Some(2) }
    else if f.result_context_ref_get_instance { Some(3) }
    else if f.context_get_instance { Some(4) }
    else if f.context_ref_get_instance { Some(5) }
    else if f.get_instance { Some(6) }
    else if f.result_get_instance { Some(7) }
    else if f.store_paths_new { Some(8) }
    else if f.result_store_paths_new { Some(9) }
    else if f.core_proxy_new { Some(10) }
    else if f.string_new { Some(11) }
    else if f.new { Some(12) }
    else if f.default { Some(13) }
    else { None }
}

/// The access that a preference stands for.
pub open spec fn access_of_kind(k: int, a: ObjectAccess) -> bool {
    match a {
        ObjectAccess::ContextGetInstanceArcMutexConstruct => k == 0,
        ObjectAccess::ContextRefGetInstanceArcMutexConstruct => k == 1,
        ObjectAccess::ResultContextGetInstanceConstruct => k == 2,
        ObjectAccess::ResultContextRefGetInstanceConstruct => k == 3,
        ObjectAccess::ContextGetInstanceConstruct => k == 4,
        ObjectAccess::ContextRefGetInstanceConstruct => k == 5,
        ObjectAccess::GetInstanceConstruct => k == 6,
        ObjectAccess::ResultGetInstanceConstruct => k == 7,
        ObjectAccess::StorePathsConstruct => k == 8,
        ObjectAccess::ResultStorePathsConstruct => k == 9,
        ObjectAccess::CoreProxyConstruct => k == 10,
        ObjectAccess::StringNewConstruct => k == 11,
        ObjectAccess::NewConstruct => k == 12,
        ObjectAccess::DefaultConstruct => k == 13,
        _ => false,
    }
}

/// A struct that the scan considers: public and without generic parameters.
pub open spec fn candidate(s: ScannedStruct) -> bool {
    s.public && !s.generic
}

/// The struct at `i` is a candidate with a way to construct it.
pub open spec fn constructible_at(structs: Seq<ScannedStruct>, fns: Seq<ScannedFn>, i: int) -> bool {
    candidate(structs[i]) && access_kind(type_flags(fns, structs[i].name@, fns.len() as int)) is Some
}

/// What the first input's type says: a `HostManager` context, taken by
/// reference, the runtime store paths, a string.
fn first_arg_facts(f: &ScannedFn) -> (r: (bool, bool, bool, bool))
    ensures
        r.0 == (f.first_arg_type matches Some(a) && has_infix(a@, "HostManager"@)),
        r.1 == context_by_ref(*f),
        r.2 == (f.first_arg_type matches Some(a) && has_infix(a@, "RuntimeStorePaths"@)),
        r.3 == (f.first_arg_type matches Some(a) && (has_infix(a@, "impl Into < String >"@)
            || has_infix(a@, "impl Into<String>"@) || trim(a@) == "String"@)),
{
    match &f.first_arg_type {
        Some(at) => {
            let host = contains_text(at.as_str(), "HostManager");
            let lead = trim_start_string(at.as_str());
            let by_ref = starts_with(lead.as_str(), "&");
            let store = contains_text(at.as_str(), "RuntimeStorePaths");
            let trimmed = trim_string(at.as_str());
            let text = contains_text(at.as_str(), "impl Into < String >") || contains_text(at.as_str(), "impl Into<String>")
                || str_eq(trimmed.as_str(), "String");
            (host, by_ref, store, text)
        },
        None => (false, false, false, false),
    }
}

/// Reads the ways one function lets the proxy construct its type.
fn add_fn_flags(flags: &mut ConstructionFlags, f: &ScannedFn)
    ensures
        *final(flags) == fn_flags(*old(flags), *f),
{
    let zero = f.inputs == 0;
    let one = f.inputs == 1 && f.first_arg_type.is_some();
    let res = starts_with(f.return_type.as_str(), "Result < Self") || starts_with(f.return_type.as_str(), "Result<Self");
    let arc = returns_arc_mutex_self(f.return_type.as_str());
    let result_any = contains_text(f.return_type.as_str(), "Result");
    let is_default = str_eq(f.name.as_str(), "default");
    let is_get = str_eq(f.name.as_str(), "getInstance");
    let is_new = str_eq(f.name.as_str(), "new");
    let (host, by_ref, store, text) = first_arg_facts(f);
    let proxy_arg = match &f.first_arg_path_ident {
        Some(p) => str_eq(p.as_str(), "LocalCoreProxy"),
        None => false,
    };
    let ctx = one && is_get && host;
    let st = one && is_new && store;
    let old_flags = *flags;
    *flags = ConstructionFlags {
        default: old_flags.default || (zero && is_default),
        get_instance: old_flags.get_instance || (zero && is_get && !res),
        result_get_instance: old_flags.result_get_instance || (zero && is_get && res),
        new: old_flags.new || (zero && is_new),
        string_new: old_flags.string_new || (one && is_new && text),
        context_get_instance: old_flags.context_get_instance || (ctx && !by_ref && !arc && !res),
        context_ref_get_instance: old_flags.context_ref_get_instance || (ctx && by_ref && !arc && !res),
        result_context_get_instance: old_flags.result_context_get_instance || (ctx && !by_ref && !arc && res),
        result_context_ref_get_instance: old_flags.result_context_ref_get_instance || (ctx && by_ref && !arc && res),
        context_get_instance_arc_mutex: old_flags.context_get_instance_arc_mutex || (ctx && !by_ref && arc),
        context_ref_get_instance_arc_mutex: old_flags.context_ref_get_instance_arc_mutex || (ctx && by_ref && arc),
        store_paths_new: old_flags.store_paths_new || (st && !result_any),
        result_store_paths_new: old_flags.result_store_paths_new || (st && result_any),
        core_proxy_new: old_flags.core_proxy_new || (one && is_new && proxy_arg),
        public_instance_method: old_flags.public_instance_method || f.has_receiver,
    };
}

/// Collects the ways that the file's functions let the proxy construct `ty_name`.
fn construction_flags(fns: &Vec<ScannedFn>, ty_name: &str) -> (r: ConstructionFlags)
    ensures
        r == type_flags(fns@, ty_name@, fns@.len() as int),
{
    let mut flags = ConstructionFlags {
        default: false, get_instance: false, result_get_instance: false, new: false, string_new: false,
        context_get_instance: false, context_ref_get_instance: false, result_context_get_instance: false,
        result_context_ref_get_instance: false, context_get_instance_arc_mutex: false,
        context_ref_get_instance_arc_mutex: false, store_paths_new: false, result_store_paths_new: false,
        core_proxy_new: false, public_instance_method: false,
    };
    let mut i: usize = 0;
    while i < fns.len()
        invariant
            i <= fns.len(),
            flags == type_flags(fns@, ty_name@, i as int),
        decreases fns.len() - i,
    {
        let f = &fns[i];
        let counts = match &f.impl_type {
            Some(t) => str_eq(t.as_str(), ty_name) && f.public && !f.core_internal,
            None => false,
        };
        if counts {
            add_fn_flags(&mut flags, f);
        }
        i = i + 1;
    }
    flags
}

/// Finds the first public, non-generic struct of a source file that the
/// proxy can construct, with the way it constructs it: the file's `impl`
/// functions of that type decide, by a fixed preference among the ways.
pub fn discover_constructible_type(structs: &Vec<ScannedStruct>, fns: &Vec<ScannedFn>) -> (r: Option<(String, ObjectAccess)>)
    ensures
        match r {
            Some((name, access)) => exists|i: int| 0 <= i < structs@.len() && #[trigger] constructible_at(structs@, fns@, i)
                && (forall|j: int| 0 <= j < i ==> !#[trigger] constructible_at(structs@, fns@, j))
                && name@ == structs@[i].name@
                && access_of_kind(access_kind(type_flags(fns@, structs@[i].name@, fns@.len() as int))->Some_0, access),
            None => forall|i: int| 0 <= i < structs@.len() ==> !#[trigger] constructible_at(structs@, fns@, i),
        },
{
    let mut i: usize = 0;
    while i < structs.len()
        invariant
            i <= structs.len(),
            forall|j: int| 0 <= j < i ==> !#[trigger] constructible_at(structs@, fns@, j),
        decreases structs.len() - i,
    {
        let s = &structs[i];
        if s.public && !s.generic {
            let f = construction_flags(fns, s.name.as_str());
            if f.public_instance_method {
                let access = if f.context_get_instance_arc_mutex {
                    Some(ObjectAccess::ContextGetInstanceArcMutexConstruct)
                } else if f.context_ref_get_instance_arc_mutex {
                    Some(ObjectAccess::ContextRefGetInstanceArcMutexConstruct)
                } else if f.result_context_get_instance {
                    Some(ObjectAccess::ResultContextGetInstanceConstruct)
                } else if f.result_context_ref_get_instance {
                    Some(ObjectAccess::ResultContextRefGetInstanceConstruct)
                } else if f.context_get_instance {
                    Some(ObjectAccess::ContextGetInstanceConstruct)
                } else if f.context_ref_get_instance {
                    Some(ObjectAccess::ContextRefGetInstanceConstruct)
                } else if f.get_instance {
                    Some(ObjectAccess::GetInstanceConstruct)
                } else if f.result_get_instance {
                    Some(ObjectAccess::ResultGetInstanceConstruct)
                } else if f.store_paths_new {
                    Some(ObjectAccess::StorePathsConstruct)
                } else if f.result_store_paths_new {
                    Some(ObjectAccess::ResultStorePathsConstruct)
                } else if f.core_proxy_new {
                    Some(ObjectAccess::CoreProxyConstruct)
                } else if f.string_new {
                    Some(ObjectAccess::StringNewConstruct)
                } else if f.new {
                    Some(ObjectAccess::NewConstruct)
                } else if f.default {
                    Some(ObjectAccess::DefaultConstruct)
                } else {
                    None
                };
                if let Some(a) = access {
                    assert(constructible_at(structs@, fns@, i as int));
                    return Some((s.name.clone(), a));
                }
            }
        }
        i = i + 1;
    }
    None
}

/// Which concrete paths resolve to a constructed object: one trailing
/// instance id for string-constructed objects, the exact key otherwise.
pub fn constructible_object_path_match(access: &ObjectAccess) -> (r: crate::codegen::model::ObjectPathMatch)
    ensures
        (*access is StringNewConstruct) ==> r == crate::codegen::model::ObjectPathMatch::TrailingSegments(1),
        !(*access is StringNewConstruct) ==> r is Exact,
{
    match access {
        ObjectAccess::StringNewConstruct => crate::codegen::model::ObjectPathMatch::TrailingSegments(1),
        _ => crate::codegen::model::ObjectPathMatch::Exact,
    }
}

/// Whether a factory method's argument type can come from a path segment.
pub fn is_factory_path_arg_type(ty: &str) -> (r: bool)
    ensures
        r == (ty@ == "&str"@ || ty@ == "String"@),
{
    str_eq(ty, "&str") || str_eq(ty, "String")
}

/// Where the fixed objects of the proxy are found: the name by which the
/// proxy dispatches to it, its type, its path and its source file.
pub struct FixedObject {
    pub dispatch_name: String,
    pub full_type: String,
    pub source_path: String,
}

/// The specs are listed by schema key.
pub open spec fn specs_sorted(s: Seq<ObjectSpec>) -> bool {
    forall|i: int, j: int| 0 <= i < j < s.len() ==> text_le((#[trigger] s[i]).schema_key@, (#[trigger] s[j]).schema_key@)
}

/// Orders object specs by schema key.
pub fn sort_specs(v: Vec<ObjectSpec>) -> (r: Vec<ObjectSpec>)
    ensures
        r@.to_multiset() == v@.to_multiset(),
        specs_sorted(r@),
{
    broadcast use vstd::seq_lib::group_to_multiset_ensures;
    let mut rest = v;
    let mut out: Vec<ObjectSpec> = Vec::new();
    while rest.len() > 0
        invariant
            out@.to_multiset().add(rest@.to_multiset()) == v@.to_multiset(),
            specs_sorted(out@),
        decreases rest.len(),
    {
        let ghost before_rest = rest@;
        let x = rest.pop().unwrap();
        assert(before_rest =~= rest@.push(x));
        let mut p: usize = 0;
        while p < out.len()
            invariant
                p <= out.len(),
                forall|i: int| 0 <= i < p ==> text_le((#[trigger] out@[i]).schema_key@, x.schema_key@),
            ensures
                p <= out.len(),
                forall|i: int| 0 <= i < p ==> text_le((#[trigger] out@[i]).schema_key@, x.schema_key@),
                p < out.len() ==> text_le(x.schema_key@, out@[p as int].schema_key@),
            decreases out.len() - p,
        {
            let c = compare_text(x.schema_key.as_str(), out[p].schema_key.as_str());
            let x_first = match c {
                Some(b) => b,
                None => true,
            };
            if x_first {
                proof {
                    if c is None {
                        lemma_text_le_reflexive(x.schema_key@);
                    }
                }
                break;
            }
            proof { lemma_text_le_total(x.schema_key@, out@[p as int].schema_key@); }
            p = p + 1;
        }
        let ghost before_out = out@;
        proof {
            assert forall|j: int| p <= j < before_out.len() implies text_le(x.schema_key@, (#[trigger] before_out[j]).schema_key@) by {
                if j > p {
                    lemma_text_le_transitive(x.schema_key@, before_out[p as int].schema_key@, before_out[j].schema_key@);
                }
            }
        }
        out.insert(p, x);
        proof {
            assert(out@ == before_out.insert(p as int, x));
            assert forall|i: int, j: int| 0 <= i < j < out@.len() implies text_le((#[trigger] out@[i]).schema_key@, (#[trigger] out@[j]).schema_key@) by {
                if j == p {
                } else if i == p {
                    assert(out@[j] == before_out[j - 1]);
                } else {
                    let ii = if i < p { i } else { i - 1 };
                    let jj = if j < p { j } else { j - 1 };
                    assert(out@[i] == before_out[ii]);
                    assert(out@[j] == before_out[jj]);
                }
            }
            vstd::seq_lib::to_multiset_insert(before_out, p as int, x);
            vstd::seq_lib::to_multiset_build(rest@, x);
            assert(out@.to_multiset().add(rest@.to_multiset()) =~= before_out.to_multiset().add(before_rest.to_multiset()));
        }
    }
    assert(rest@.to_multiset() =~= Multiset::<ObjectSpec>::empty());
    assert(out@.to_multiset().add(rest@.to_multiset()) =~= out@.to_multiset());
    out
}

/// The object spec of a fixed object.
pub open spec fn fixed_spec(s: ObjectSpec, key: Seq<char>, ty_name: Seq<char>, f: FixedObject) -> bool {
    &&& s.schema_key@ == key
    &&& s.rust_type_name@ == ty_name
    &&& s.dispatch_name == f.dispatch_name
    &&& s.full_type == f.full_type
    &&& s.source_path == f.source_path
}

/// The holder that resolves chat runtimes by path.
pub open spec fn chat_holder_access(a: ObjectAccess) -> bool {
    a matches ObjectAccess::ResolvedHolder { holder_field, resolver_method, proxy_aliases }
        && holder_field@ == "chatRuntimeHolder"@ && resolver_method@ == "coreForPath"@
        && proxy_aliases@.len() == 1 && proxy_aliases@[0].0@ == "chatRuntimeHolderFloating"@
        && proxy_aliases@[0].1@ == "chatRuntimeHolder.floating"@
}

/// Lists every object the proxy dispatches to, by schema key: the Core proxy's
/// own objects, the application, the Link access store, the chat runtime
/// holder, and the objects discovered under each scanned source directory.
pub fn object_specs(
    core_proxy_objects: Vec<ObjectSpec>,
    application: FixedObject,
    link_access_store: FixedObject,
    chat_runtime_holder: FixedObject,
    discovered: Vec<Vec<ObjectSpec>>,
) -> (r: Vec<ObjectSpec>)
    ensures
        specs_sorted(r@),
        r@.len() == core_proxy_objects@.len() + 3 + total_len(discovered@),
        forall|i: int| 0 <= i < core_proxy_objects@.len() ==> r@.contains(#[trigger] core_proxy_objects@[i]),
        forall|i: int, j: int| 0 <= i < discovered@.len() && 0 <= j < discovered@[i]@.len() ==> r@.contains(#[trigger] discovered@[i]@[j]),
        exists|k: int| 0 <= k < r@.len() && fixed_spec(#[trigger] r@[k], "application"@, "OperitApplication"@, application)
            && r@[k].access is Application && r@[k].path_match is Exact,
        exists|k: int| 0 <= k < r@.len() && fixed_spec(#[trigger] r@[k], "linkAccessStore"@, "LinkAccessStore"@, link_access_store)
            && r@[k].access is ContextRefGetInstanceConstruct && r@[k].path_match is Exact,
        exists|k: int| 0 <= k < r@.len() && fixed_spec(#[trigger] r@[k], "chatRuntimeHolder.main"@, "ChatServiceCore"@, chat_runtime_holder)
            && chat_holder_access(r@[k].access)
            && (r@[k].path_match matches ObjectPathMatch::Predicate(p)
            && p@ == "operit_runtime::core::chat::ChatRuntimeHolder::ChatRuntimeHolder::matchesCorePath"@),
{
    broadcast use vstd::seq_lib::group_to_multiset_ensures;
    let mut specs = core_proxy_objects;
    let ghost base = specs@;
    let app = ObjectSpec {
        schema_key: String::from_str("application"),
        dispatch_name: application.dispatch_name,
        rust_type_name: String::from_str("OperitApplication"),
        full_type: application.full_type,
        source_path: application.source_path,
        access: ObjectAccess::Application,
        path_match: ObjectPathMatch::Exact,
    };
    let store = ObjectSpec {
        schema_key: String::from_str("linkAccessStore"),
        dispatch_name: link_access_store.dispatch_name,
        rust_type_name: String::from_str("LinkAccessStore"),
        full_type: link_access_store.full_type,
        source_path: link_access_store.source_path,
        access: ObjectAccess::ContextRefGetInstanceConstruct,
        path_match: ObjectPathMatch::Exact,
    };
    let mut aliases: Vec<(String, String)> = Vec::new();
    aliases.push((String::from_str("chatRuntimeHolderFloating"), String::from_str("chatRuntimeHolder.floating")));
    let holder = ObjectSpec {
        schema_key: String::from_str("chatRuntimeHolder.main"),
        dispatch_name: chat_runtime_holder.dispatch_name,
        rust_type_name: String::from_str("ChatServiceCore"),
        full_type: chat_runtime_holder.full_type,
        source_path: chat_runtime_holder.source_path,
        access: ObjectAccess::ResolvedHolder {
            holder_field: String::from_str("chatRuntimeHolder"),
            resolver_method: String::from_str("coreForPath"),
            proxy_aliases: aliases,
        },
        path_match: ObjectPathMatch::Predicate(String::from_str("operit_runtime::core::chat::ChatRuntimeHolder::ChatRuntimeHolder::matchesCorePath")),
    };
    let ghost fixed = seq![app, store, holder];
    specs.push(app);
    specs.push(store);
    specs.push(holder);
    assert(specs@ =~= base + fixed);
    let ghost with_fixed = specs@;
    let mut lists = discovered;
    let ghost all_lists = lists@;
    let mut tail: Vec<ObjectSpec> = Vec::new();
    let ghost mut count: int = 0;
    while lists.len() > 0
        invariant
            all_lists == lists@ + all_lists.subrange(lists@.len() as int, all_lists.len() as int),
            lists@.len() <= all_lists.len(),
            count == total_len(all_lists.subrange(lists@.len() as int, all_lists.len() as int)),
            tail@.len() == count,
            forall|i: int, j: int| lists@.len() <= i < all_lists.len() && 0 <= j < all_lists[i]@.len() ==> tail@.contains(#[trigger] all_lists[i]@[j]),
        decreases lists.len(),
    {
        let mut list = lists.pop().unwrap();
        let ghost li = lists@.len() as int;
        assert(all_lists[li] == list);
        let ghost items = list@;
        let ghost old_tail = tail@;
        while list.len() > 0
            invariant
                items == list@ + items.subrange(list@.len() as int, items.len() as int),
                list@.len() <= items.len(),
                tail@.len() == old_tail.len() + (items.len() - list@.len()),
                forall|x: ObjectSpec| old_tail.contains(x) ==> tail@.contains(x),
                forall|j: int| list@.len() <= j < items.len() ==> tail@.contains(#[trigger] items[j]),
            decreases list.len(),
        {
            let ghost before = tail@;
            let ghost at = list@.len() - 1;
            let item = list.pop().unwrap();
            assert(item == items[at]);
            tail.push(item);
            assert(tail@[before.len() as int] == item);
            assert forall|x: ObjectSpec| old_tail.contains(x) implies tail@.contains(x) by {
                let k = choose|k: int| 0 <= k < before.len() && before[k] == x;
                assert(tail@[k] == x);
            }
            assert forall|j: int| list@.len() <= j < items.len() implies tail@.contains(#[trigger] items[j]) by {
                if j == at {
                    assert(tail@[before.len() as int] == items[j]);
                } else {
                    let k = choose|k: int| 0 <= k < before.len() && before[k] == items[j];
                    assert(tail@[k] == items[j]);
                }
            }
        }
        proof {
            let suffix_old = all_lists.subrange(li + 1, all_lists.len() as int);
            let suffix_new = all_lists.subrange(li, all_lists.len() as int);
            assert(suffix_new.subrange(1, suffix_new.len() as int) =~= suffix_old);
            count = count + items.len();
            assert forall|i: int, j: int| li <= i < all_lists.len() && 0 <= j < all_lists[i]@.len() implies tail@.contains(#[trigger] all_lists[i]@[j]) by {
                if i == li {
                    assert(items == all_lists[i]@);
                } else {
                    assert(old_tail.contains(all_lists[i]@[j]));
                }
            }
        }
    }
    let ghost tail_view = tail@;
    specs.append(&mut tail);
    assert(specs@ =~= with_fixed + tail_view);
    let r = sort_specs(specs);
    proof {
        assert(lists@.len() == 0);
        assert(all_lists.subrange(0, all_lists.len() as int) =~= all_lists);
        assert(r@.len() == with_fixed.len() + tail_view.len()) by {
            assert(r@.to_multiset().len() == (with_fixed + tail_view).to_multiset().len());
        }
        assert forall|x: ObjectSpec| (with_fixed + tail_view).contains(x) implies r@.contains(x) by {
            assert((with_fixed + tail_view).to_multiset().count(x) > 0);
            assert(r@.to_multiset().count(x) > 0);
        }
        assert forall|i: int| 0 <= i < base.len() implies r@.contains(#[trigger] base[i]) by {
            assert((with_fixed + tail_view)[i] == base[i]);
        }
        assert forall|i: int, j: int| 0 <= i < all_lists.len() && 0 <= j < all_lists[i]@.len() implies r@.contains(#[trigger] all_lists[i]@[j]) by {
            let k = choose|k: int| 0 <= k < tail_view.len() && tail_view[k] == all_lists[i]@[j];
            assert((with_fixed + tail_view)[with_fixed.len() + k] == all_lists[i]@[j]);
        }
        assert((with_fixed + tail_view)[base.len() as int] == app);
        assert((with_fixed + tail_view)[base.len() + 1int] == store);
        assert((with_fixed + tail_view)[base.len() + 2int] == holder);
        assert(r@.contains(app));
        assert(r@.contains(store));
        assert(r@.contains(holder));
        reveal_strlit("chatRuntimeHolderFloating");
    }
    r
}

/// The number of specs in all lists.
pub open spec fn total_len(lists: Seq<Vec<ObjectSpec>>) -> int
    decreases lists.len(),
{
    if lists.len() == 0 {
        0
    } else {
        lists[0]@.len() + total_len(lists.subrange(1, lists.len() as int))
    }
}

/// The plain values of a scanned struct: name, visibility, genericity.
pub open spec fn struct_scan_view(s: ScannedStruct) -> (Seq<char>, bool, bool) {
    (s.name@, s.public, s.generic)
}

/// The plain values of scanned structs.
pub open spec fn struct_scan_views(ss: Seq<ScannedStruct>) -> Seq<(Seq<char>, bool, bool)> {
    ss.map_values(|s: ScannedStruct| struct_scan_view(s))
}

/// The plain value of an optional text.
pub open spec fn text_option(o: Option<String>) -> Option<Seq<char>> {
    match o {
        Some(t) => Some(t@),
        None => None,
    }
}

/// The plain values of a scanned function, field by field.
pub open spec fn fn_scan_view(f: ScannedFn) -> (Option<Seq<char>>, bool, bool, bool, Seq<char>, usize, Option<Seq<char>>, Option<Seq<char>>, Seq<char>) {
    (text_option(f.impl_type), f.public, f.core_internal, f.has_receiver, f.name@, f.inputs, text_option(f.first_arg_type), text_option(f.first_arg_path_ident), f.return_type@)
}

/// The plain values of scanned functions.
pub open spec fn fn_scan_views(fs: Seq<ScannedFn>) -> Seq<(Option<Seq<char>>, bool, bool, bool, Seq<char>, usize, Option<Seq<char>>, Option<Seq<char>>, Seq<char>)> {
    fs.map_values(|f: ScannedFn| fn_scan_view(f))
}

/// Some attribute's last path segment is `operit_core_internal`.
pub open spec fn marks_core_internal(attrs: Seq<(String, Option<String>)>) -> bool {
    exists|i: int| 0 <= i < attrs.len() && (#[trigger] attrs[i]).0@ == "operit_core_internal"@
}

/// What the scanner records of a method of an `impl` block whose self type
/// has the given last path segment (empty when the self type is not a
/// path, since an identifier is never empty): the first input's path
/// identifier only when the path is not qualified.
pub open spec fn scanned_method(impl_name: Seq<char>, m: SourceMethod) -> (Option<Seq<char>>, bool, bool, bool, Seq<char>, usize, Option<Seq<char>>, Option<Seq<char>>, Seq<char>) {
    (
        if impl_name.len() == 0 { None } else { Some(impl_name) },
        m.public,
        marks_core_internal(m.attrs@),
        m.has_receiver,
        m.name@,
        m.inputs,
        text_option(m.first_arg_type),
        match m.first_arg_path {
            Some((ident, qualified)) => if qualified { None } else { Some(ident@) },
            None => None,
        },
        m.return_type@,
    )
}

/// What the scanner records of the methods of one `impl` block.
pub open spec fn scanned_methods(impl_name: Seq<char>, ms: Seq<SourceMethod>) -> Seq<(Option<Seq<char>>, bool, bool, bool, Seq<char>, usize, Option<Seq<char>>, Option<Seq<char>>, Seq<char>)> {
    ms.map_values(|m: SourceMethod| scanned_method(impl_name, m))
}

/// The structs among the first `n` items of a file, in order.
pub open spec fn structs_upto(items: Seq<SourceItem>, n: int) -> Seq<(Seq<char>, bool, bool)>
    decreases n,
{
    if n <= 0 {
        Seq::empty()
    } else if items[n - 1].kind == SourceItemKind::Struct {
        structs_upto(items, n - 1).push((items[n - 1].name@, items[n - 1].public, items[n - 1].generic))
    } else {
        structs_upto(items, n - 1)
    }
}

/// The `impl` functions among the first `n` items of a file, in order.
pub open spec fn fns_upto(items: Seq<SourceItem>, n: int) -> Seq<(Option<Seq<char>>, bool, bool, bool, Seq<char>, usize, Option<Seq<char>>, Option<Seq<char>>, Seq<char>)>
    decreases n,
{
    if n <= 0 {
        Seq::empty()
    } else if items[n - 1].kind == SourceItemKind::Impl {
        fns_upto(items, n - 1) + scanned_methods(items[n - 1].name@, items[n - 1].methods@)
    } else {
        fns_upto(items, n - 1)
    }
}

/// Whether a method carries the in-process-only marker attribute.
fn has_core_internal_marker(attrs: &Vec<(String, Option<String>)>) -> (r: bool)
    ensures
        r == marks_core_internal(attrs@),
{
    let mut i: usize = 0;
    while i < attrs.len()
        invariant
            i <= attrs.len(),
            forall|j: int| 0 <= j < i ==> (#[trigger] attrs@[j]).0@ != "operit_core_internal"@,
        decreases attrs.len() - i,
    {
        if str_eq(attrs[i].0.as_str(), "operit_core_internal") {
            assert(attrs@[i as int].0@ == "operit_core_internal"@);
            return true;
        }
        i = i + 1;
    }
    false
}

/// A copy of an optional text.
fn copy_text_option(o: &Option<String>) -> (r: Option<String>)
    ensures
        text_option(r) == text_option(*o),
{
    match o {
        Some(t) => Some(t.clone()),
        None => None,
    }
}

/// What the scanner records of one `impl` method.
fn scan_method(impl_name: &String, m: &SourceMethod) -> (r: ScannedFn)
    ensures
        fn_scan_view(r) == scanned_method(impl_name@, *m),
{
    let impl_type = if impl_name.as_str().unicode_len() == 0 { None } else { Some(impl_name.clone()) };
    let first_arg_path_ident = match &m.first_arg_path {
        Some((ident, qualified)) => if *qualified { None } else { Some(ident.clone()) },
        None => None,
    };
    ScannedFn {
        impl_type,
        public: m.public,
        core_internal: has_core_internal_marker(&m.attrs),
        has_receiver: m.has_receiver,
        name: m.name.clone(),
        inputs: m.inputs,
        first_arg_type: copy_text_option(&m.first_arg_type),
        first_arg_path_ident,
        return_type: m.return_type.clone(),
    }
}

/// Reads the structs and `impl` functions of a source file, in source
/// order, as the constructible-type discovery takes them; a file that does
/// not parse is refused with the parser's message.
pub fn scan_source(content: &str) -> (r: Result<(Vec<ScannedStruct>, Vec<ScannedFn>), String>)
    ensures
        match parsed_rust_file(content@) {
            Ok(f) => r matches Ok((ss, fs))
                && struct_scan_views(ss@) == structs_upto(f.items@, f.items@.len() as int)
                && fn_scan_views(fs@) == fns_upto(f.items@, f.items@.len() as int),
            Err(e) => r matches Err(m) && m@ == e,
        },
{
    let file = match parse_rust_file(content) {
        Ok(f) => f,
        Err(e) => return Err(e),
    };
    let mut structs: Vec<ScannedStruct> = Vec::new();
    let mut fns: Vec<ScannedFn> = Vec::new();
    assert(struct_scan_views(structs@) =~= structs_upto(file.items@, 0));
    assert(fn_scan_views(fns@) =~= fns_upto(file.items@, 0));
    let mut i: usize = 0;
    while i < file.items.len()
        invariant
            i <= file.items.len(),
            parsed_rust_file(content@) == Ok::<RustFile, Seq<char>>(file),
            struct_scan_views(structs@) == structs_upto(file.items@, i as int),
            fn_scan_views(fns@) == fns_upto(file.items@, i as int),
        decreases file.items.len() - i,
    {
        let it = &file.items[i];
        if it.kind == SourceItemKind::Struct {
            let ghost before = struct_scan_views(structs@);
            structs.push(ScannedStruct { name: it.name.clone(), public: it.public, generic: it.generic });
            assert(struct_scan_views(structs@) =~= before.push((it.name@, it.public, it.generic)));
        } else if it.kind == SourceItemKind::Impl {
            let ghost before = fn_scan_views(fns@);
            let mut j: usize = 0;
            while j < it.methods.len()
                invariant
                    j <= it.methods.len(),
                    fn_scan_views(fns@) =~= before + scanned_methods(it.name@, it.methods@.subrange(0, j as int)),
                decreases it.methods.len() - j,
            {
                let ghost prev = fn_scan_views(fns@);
                let f = scan_method(&it.name, &it.methods[j]);
                fns.push(f);
                assert(fn_scan_views(fns@) =~= prev.push(scanned_method(it.name@, it.methods@[j as int])));
                assert(scanned_methods(it.name@, it.methods@.subrange(0, j + 1)) =~= scanned_methods(it.name@, it.methods@.subrange(0, j as int)).push(scanned_method(it.name@, it.methods@[j as int])));
                j = j + 1;
            }
            assert(it.methods@.subrange(0, it.methods.len() as int) =~= it.methods@);
        }
        i = i + 1;
    }
    Ok((structs, fns))
}

} // verus!
