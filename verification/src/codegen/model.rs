//! The objects that the Core proxy dispatches to, as the source scanner
//! describes them.
use vstd::prelude::*;

verus! {

/// How the proxy reaches one object.
#[derive(Debug)]
pub enum ObjectAccess {
    Application,
    DefaultConstruct,
    GetInstanceConstruct,
    ResultGetInstanceConstruct,
    NewConstruct,
    StringNewConstruct,
    ContextGetInstanceConstruct,
    ContextRefGetInstanceConstruct,
    ResultContextGetInstanceConstruct,
    ResultContextRefGetInstanceConstruct,
    ContextGetInstanceArcMutexConstruct,
    ContextRefGetInstanceArcMutexConstruct,
    CoreProxyConstruct,
    StorePathsConstruct,
    ResultStorePathsConstruct,
    FactoryMethodConstruct {
        parent_schema_key: String,
        parent_full_type: String,
        parent_access: Box<ObjectAccess>,
        factory_method: String,
        factory_arg_types: Vec<String>,
        returns_result: bool,
        returns_arc_mutex: bool,
    },
    ResolvedHolder {
        holder_field: String,
        resolver_method: String,
        proxy_aliases: Vec<(String, String)>,
    },
}

/// Which concrete paths resolve to an object.
#[derive(Clone, Debug)]
pub enum ObjectPathMatch {
    Exact,
    TrailingSegments(usize),
    Predicate(String),
}

/// One typed argument of a scanned method; the type in its normalized spelling.
#[derive(Clone, Debug)]
pub struct SourceArg {
    pub name: String,
    pub ty: String,
}

/// How a call's result crosses the link.
#[derive(Clone, Debug)]
pub enum CallProtocol {
    Unit,
    ResultUnit { error_type: String },
    Value(String),
    ResultValue { value_type: String, error_type: String },
}

/// How a watch's values are streamed.
#[derive(Clone, Copy, Debug, PartialEq, Eq, Structural)]
pub enum WatchStreamProtocol {
    JsonFlow { fallible: bool },
    JsonState { fallible: bool },
    JsonStream,
    StringStream,
    TextEvent { optional: bool },
}

/// A watch: the type of its snapshot, when it has one, and its stream.
#[derive(Clone, Debug)]
pub struct WatchProtocol {
    pub snapshot_type: Option<String>,
    pub stream: WatchStreamProtocol,
}

/// A method fed by one caller-owned reverse stream argument.
#[derive(Clone, Debug)]
pub struct ReverseStreamProtocol {
    pub argument_name: String,
    pub item_type: String,
}

/// A method that returns another dispatched object.
#[derive(Clone, Debug)]
pub struct FactoryProtocol {
    pub target_schema_key: String,
}

/// How one method is carried by the link, or why it cannot be.
#[derive(Clone, Debug)]
pub enum MethodProtocol {
    Call(CallProtocol),
    Watch(WatchProtocol),
    ReverseStream(ReverseStreamProtocol),
    Factory(FactoryProtocol),
    Unsupported(String),
}

/// Which CoreNode a method's requests go to.
#[derive(Clone, Debug)]
pub enum MethodRoute {
    Local,
    Binding { binding_argument: String, current_resolver: Option<String>, supports_source_transition: bool },
}

/// What the dispatcher needs of one method of an object.
#[derive(Clone, Debug)]
pub struct SourceMethod {
    pub name: String,
    pub args: Vec<SourceArg>,
    pub rust_return_type: String,
    pub is_async: bool,
    pub cfg_attrs: Vec<String>,
    pub doc_lines: Vec<String>,
    pub route: MethodRoute,
    pub protocol: MethodProtocol,
}

/// The method answers calls.
pub open spec fn is_call(m: SourceMethod) -> bool {
    m.protocol is Call
}

/// The method answers watches.
pub open spec fn is_watch(m: SourceMethod) -> bool {
    m.protocol is Watch
}

/// The method is fed by a reverse stream.
pub open spec fn is_reverse_stream(m: SourceMethod) -> bool {
    m.protocol is ReverseStream
}

/// The method's binding route accepts source transitions.
pub open spec fn accepts_transition(m: SourceMethod) -> bool {
    m.route matches MethodRoute::Binding { supports_source_transition, .. } && supports_source_transition
}

impl SourceMethod {
    /// Executable `is_call`.
    pub fn answers_calls(&self) -> (r: bool)
        ensures
            r == is_call(*self),
    {
        match &self.protocol {
            MethodProtocol::Call(_) => true,
            _ => false,
        }
    }

    /// Executable `is_watch`.
    pub fn answers_watches(&self) -> (r: bool)
        ensures
            r == is_watch(*self),
    {
        match &self.protocol {
            MethodProtocol::Watch(_) => true,
            _ => false,
        }
    }

    /// Executable `is_reverse_stream`.
    pub fn takes_reverse_stream(&self) -> (r: bool)
        ensures
            r == is_reverse_stream(*self),
    {
        match &self.protocol {
            MethodProtocol::ReverseStream(_) => true,
            _ => false,
        }
    }

    /// Executable `accepts_transition`.
    pub fn accepts_source_transition(&self) -> (r: bool)
        ensures
            r == accepts_transition(*self),
    {
        match &self.route {
            MethodRoute::Binding { supports_source_transition, .. } => *supports_source_transition,
            MethodRoute::Local => false,
        }
    }
}

/// One object that the proxy dispatches to.
#[derive(Debug)]
pub struct SourceObject {
    pub schema_key: String,
    pub dispatch_name: String,
    pub full_type: String,
    pub access: ObjectAccess,
    pub path_match: ObjectPathMatch,
    pub methods: Vec<SourceMethod>,
}

/// The object is constructed per request rather than held.
pub open spec fn is_constructible(a: ObjectAccess) -> bool {
    !(a is Application) && !(a is ResolvedHolder)
}

/// The constructed object is shared behind `Arc<Mutex<_>>`.
pub open spec fn uses_arc_mutex(a: ObjectAccess) -> bool {
    ||| a is ContextGetInstanceArcMutexConstruct
    ||| a is ContextRefGetInstanceArcMutexConstruct
    ||| a matches ObjectAccess::FactoryMethodConstruct { returns_arc_mutex, .. } && returns_arc_mutex
}

/// Executable `uses_arc_mutex`.
pub fn object_uses_arc_mutex_instance(access: &ObjectAccess) -> (r: bool)
    ensures
        r == uses_arc_mutex(*access),
{
    match access {
        ObjectAccess::ContextGetInstanceArcMutexConstruct => true,
        ObjectAccess::ContextRefGetInstanceArcMutexConstruct => true,
        ObjectAccess::FactoryMethodConstruct { returns_arc_mutex, .. } => *returns_arc_mutex,
        _ => false,
    }
}

/// Some method of the object answers calls.
pub open spec fn has_call_dispatch(o: SourceObject) -> bool {
    exists|i: int| 0 <= i < o.methods@.len() && is_call(#[trigger] o.methods@[i])
}

/// Executable `has_call_dispatch`.
pub fn object_has_call_dispatch(object: &SourceObject) -> (r: bool)
    ensures
        r == has_call_dispatch(*object),
{
    let mut i: usize = 0;
    while i < object.methods.len()
        invariant
            i <= object.methods.len(),
            forall|k: int| 0 <= k < i ==> !is_call(#[trigger] object.methods@[k]),
        decreases object.methods.len() - i,
    {
        if object.methods[i].answers_calls() {
            return true;
        }
        i = i + 1;
    }
    false
}

/// Some watch of the object accepts source transitions.
pub open spec fn has_watch_transition(o: SourceObject) -> bool {
    exists|i: int| 0 <= i < o.methods@.len()
        && is_watch(#[trigger] o.methods@[i]) && accepts_transition(o.methods@[i])
}

/// Returns whether one object declares a watch that accepts source transitions.
pub fn object_has_watch_transition(object: &SourceObject) -> (r: bool)
    ensures
        r == has_watch_transition(*object),
{
    let mut i: usize = 0;
    while i < object.methods.len()
        invariant
            i <= object.methods.len(),
            forall|k: int| 0 <= k < i ==> !(is_watch(#[trigger] object.methods@[k]) && accepts_transition(object.methods@[k])),
        decreases object.methods.len() - i,
    {
        if object.methods[i].answers_watches() && object.methods[i].accepts_source_transition() {
            return true;
        }
        i = i + 1;
    }
    false
}

/// One object found in the runtime sources, before its methods are scanned.
#[derive(Debug)]
pub struct ObjectSpec {
    pub schema_key: String,
    pub dispatch_name: String,
    pub rust_type_name: String,
    pub full_type: String,
    pub source_path: String,
    pub access: ObjectAccess,
    pub path_match: ObjectPathMatch,
}

} // verus!
