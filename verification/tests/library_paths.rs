use operit::codegen::dispatch::render_core_proxy_dispatch;
use operit::codegen::model::{
    CallProtocol, MethodProtocol, MethodRoute, ObjectAccess, ObjectPathMatch, ObjectSpec, SourceArg,
    SourceMethod, SourceObject, WatchProtocol, WatchStreamProtocol,
};
use operit::codegen::scanner::{object_specs, sort_specs, FixedObject};
use operit::commands::market::{market_entry_lines, print_entry, MarketEntrySummary, MarketUser};
use operit::discovery::{sort_devices, RuntimeRemoteDiscoveredDevice};
use operit::output::CoreCommandOutput;
use operit::remote::{topology_connections, topology_devices, CoreSpaceDeviceProfile};
use operit::space_sync::{
    requestSynchronization, schedulingFailed, synchronizationFinished, ScheduleDecision, SyncSchedule,
};

fn method(name: &str, protocol: MethodProtocol) -> SourceMethod {
    SourceMethod {
        name: name.to_string(),
        args: vec![SourceArg { name: "id".to_string(), ty: "String".to_string() }],
        rust_return_type: "String".to_string(),
        is_async: false,
        cfg_attrs: vec![],
        doc_lines: vec![],
        route: MethodRoute::Local,
        protocol,
    }
}

fn service() -> SourceObject {
    SourceObject {
        schema_key: "demo.service".to_string(),
        dispatch_name: "demo_service".to_string(),
        full_type: "crate::DemoService".to_string(),
        access: ObjectAccess::NewConstruct,
        path_match: ObjectPathMatch::Exact,
        methods: vec![
            method("lookup", MethodProtocol::Call(CallProtocol::Value("String".to_string()))),
            method(
                "changes",
                MethodProtocol::Watch(WatchProtocol {
                    snapshot_type: Some("String".to_string()),
                    stream: WatchStreamProtocol::JsonState { fallible: false },
                }),
            ),
        ],
    }
}

#[test]
fn core_proxy_dispatch_lists_dispatchers_in_order() {
    let text = render_core_proxy_dispatch(&vec![service()]);
    let headers = [
        "async fn generated_dispatch_core_proxy_watch_snapshot_async(",
        "async fn generated_dispatch_core_proxy_watch_transition_async(",
        "async fn generated_dispatch_core_proxy_watch_async(",
        "fn generated_dispatch_core_proxy_watch_snapshot(",
        "fn generated_dispatch_core_proxy_watch(",
    ];
    let mut last = 0;
    for header in headers {
        let at = text[last..].find(header).map(|i| i + last).expect(header);
        last = at;
    }
    assert!(text.contains("\"demo.service\""));
    assert!(text.contains("crate::DemoService"));
    assert!(text.contains("operit_link::CoreLinkError::watchNotFound(&request.registryKey())"));
    assert!(text.ends_with("    }\n}\n"));
}

#[test]
fn core_proxy_dispatch_without_objects_still_has_fallbacks() {
    let text = render_core_proxy_dispatch(&vec![]);
    assert!(!text.contains("demo.service"));
    assert!(text.contains("STREAM_SOURCE_RESUME_UNSUPPORTED"));
    assert!(text.contains("        _ => Err(operit_link::CoreLinkError::watchNotFound(&request.registryKey())),\n"));
}

fn spec(key: &str) -> ObjectSpec {
    ObjectSpec {
        schema_key: key.to_string(),
        dispatch_name: key.replace('.', "_"),
        rust_type_name: "Thing".to_string(),
        full_type: "crate::Thing".to_string(),
        source_path: "src/thing.rs".to_string(),
        access: ObjectAccess::DefaultConstruct,
        path_match: ObjectPathMatch::Exact,
    }
}

fn fixed(name: &str) -> FixedObject {
    FixedObject {
        dispatch_name: name.to_string(),
        full_type: format!("crate::{name}"),
        source_path: format!("src/{name}.rs"),
    }
}

#[test]
fn object_specs_are_sorted_by_schema_key() {
    let sorted = sort_specs(vec![spec("b"), spec("a.c"), spec("a")]);
    let keys: Vec<&str> = sorted.iter().map(|s| s.schema_key.as_str()).collect();
    assert_eq!(keys, vec!["a", "a.c", "b"]);

    let all = object_specs(
        vec![spec("zeta")],
        fixed("application"),
        fixed("link_access_store"),
        fixed("chat_holder"),
        vec![vec![spec("alpha")], vec![]],
    );
    let keys: Vec<&str> = all.iter().map(|s| s.schema_key.as_str()).collect();
    assert_eq!(keys, vec!["alpha", "application", "chatRuntimeHolder.main", "linkAccessStore", "zeta"]);
    assert!(matches!(all[1].access, ObjectAccess::Application));
}

fn found(name: &str, id: &str) -> RuntimeRemoteDiscoveredDevice {
    RuntimeRemoteDiscoveredDevice {
        deviceId: id.to_string(),
        displayName: name.to_string(),
        userName: String::new(),
        platform: String::new(),
        model: String::new(),
        baseUrl: String::new(),
        hostname: String::new(),
        port: 0,
        tokenHash: String::new(),
        version: String::new(),
    }
}

#[test]
fn discovered_devices_sort_by_name_then_id() {
    let sorted = sort_devices(vec![found("Phone", "2"), found("Laptop", "9"), found("Phone", "1")]);
    let ids: Vec<&str> = sorted.iter().map(|d| d.deviceId.as_str()).collect();
    assert_eq!(ids, vec!["9", "1", "2"]);
}

fn profile(id: &str, version: Option<&str>) -> CoreSpaceDeviceProfile {
    CoreSpaceDeviceProfile {
        nodeId: id.to_string(),
        userName: "u".to_string(),
        displayName: format!("{id}-name"),
        platform: "linux".to_string(),
        model: "pc".to_string(),
        coreVersion: version.map(|v| v.to_string()),
    }
}

#[test]
fn topology_lists_members_and_their_links() {
    let members = vec!["me".to_string(), "peer".to_string()];
    let profiles = vec![profile("me", Some("1.0")), profile("peer", Some("1.0"))];
    let devices = topology_devices("me", &members, &profiles, &[false, false]).unwrap();
    assert_eq!(devices.len(), 2);
    assert!(devices[0].online);
    assert!(!devices[1].online);
    assert_eq!(devices[1].deviceName, "peer-name");
    assert_eq!(
        topology_devices("me", &vec!["ghost".to_string()], &profiles, &[true]).unwrap_err(),
        "Device profile is missing in the current device space: ghost"
    );
    let links = topology_connections("me", &devices, &["peer".to_string()], &[("me".to_string(), "peer".to_string())]).unwrap();
    assert_eq!(links.len(), 1);
    assert_eq!(links[0].firstDeviceId, "me");
    assert_eq!(
        topology_connections("me", &devices, &[], &[("me".to_string(), "nobody".to_string())]).unwrap_err(),
        "Device profile is missing for connection endpoint: nobody"
    );
}

#[test]
fn synchronization_runs_one_at_a_time() {
    let mut schedule = SyncSchedule { scheduled: false };
    assert_eq!(requestSynchronization(&mut schedule), ScheduleDecision::ScheduleTask);
    assert_eq!(requestSynchronization(&mut schedule), ScheduleDecision::AlreadyScheduled);
    assert!(synchronizationFinished(&mut schedule, 4, 5));
    assert!(!schedule.scheduled);
    assert_eq!(requestSynchronization(&mut schedule), ScheduleDecision::ScheduleTask);
    assert!(!synchronizationFinished(&mut schedule, 5, 5));
    assert_eq!(requestSynchronization(&mut schedule), ScheduleDecision::ScheduleTask);
    schedulingFailed(&mut schedule);
    assert!(!schedule.scheduled);
}

#[test]
fn market_entry_is_shown_field_by_field() {
    let entry = MarketEntrySummary {
        id: "e1".to_string(),
        entry_type: "script".to_string(),
        title: "Weather".to_string(),
        description: "Forecasts".to_string(),
        detail: "Long text".to_string(),
        author: Some(MarketUser { login: "alice".to_string(), avatar: String::new() }),
        publisher: None,
        category_id: None,
        state_code: "published".to_string(),
        featured: false,
        downloads: 3,
        download_count: 7,
        allow_public_updates: true,
        source_url: None,
        artifact: None,
        versions: vec![],
        latest_version: None,
        assets: vec![],
        reactions: vec![],
    };
    let lines = market_entry_lines(&entry);
    assert!(lines.iter().any(|l| l == "assets: 0"));
    assert!(lines.iter().any(|l| l == "source: None"));
    let mut output = CoreCommandOutput::new();
    print_entry(&entry, &mut output);
    assert_eq!(output.stdout, lines.iter().map(|l| format!("{l}\n")).collect::<String>());
}
