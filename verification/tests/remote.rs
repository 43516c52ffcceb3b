use operit::core_stream::CoreStream;
use operit::discovery::{
    addDiscoveredDevice, groupDiscoveredSpaces, DiscoveredHello, RuntimeRemoteDiscoveryEndpoint,
};
use operit::link_access::{
    link_transport_name, parse_link_transport, AcceptedRemoteSessionRecord,
    LinkTransportPreference, PairedRemoteSessionRecord, RemoteDeviceInfo,
};
use operit::remote::{
    deviceSpaceTopology, ensureDeviceInfoMatches, ensureRemoteIdentity, ensureRemoteIdentityById,
    mergePairedDevices, pairStartResult, pairedDeviceRemoval, runtimeDeviceSpaceConnectionState,
    validatePairFinishInput, validatePairStartInput, CoreSpaceDeviceProfile,
    RuntimeDeviceSpaceConnectionStatus, RuntimeDeviceSpaceDevice,
};

fn info(platform: &str, model: &str) -> RemoteDeviceInfo {
    RemoteDeviceInfo { platform: platform.to_string(), model: model.to_string() }
}

fn outbound(device: &str, url: &str) -> PairedRemoteSessionRecord {
    PairedRemoteSessionRecord {
        baseUrl: url.to_string(),
        sessionId: "s".to_string(),
        deviceId: "local".to_string(),
        coreDeviceId: device.to_string(),
        remoteDeviceInfo: info("android", "pixel"),
        pairingServiceVersion: 1,
        sessionSecret: "secret".to_string(),
        transport: LinkTransportPreference::Http,
    }
}

fn inbound(device: &str, platform: &str) -> AcceptedRemoteSessionRecord {
    AcceptedRemoteSessionRecord {
        deviceId: device.to_string(),
        deviceInfo: info(platform, "pixel"),
        pairingServiceVersion: 1,
        sessionSecret: "secret".to_string(),
    }
}

fn device(name: &str, online: bool, version: Option<&str>) -> RuntimeDeviceSpaceDevice {
    RuntimeDeviceSpaceDevice {
        deviceId: name.to_lowercase(),
        userName: "user".to_string(),
        deviceName: name.to_string(),
        platform: "linux".to_string(),
        model: "pc".to_string(),
        coreVersion: version.map(|v| v.to_string()),
        online,
    }
}

#[test]
fn transport_names_round_trip() {
    for t in [LinkTransportPreference::Http, LinkTransportPreference::WebSocket] {
        assert_eq!(parse_link_transport(link_transport_name(&t)).unwrap(), t);
    }
    assert!(parse_link_transport("carrier-pigeon").is_err());
}

#[test]
fn healthy_connection_needs_matching_versions_and_direct_link() {
    let a = device("Laptop", true, Some("1.0"));
    let b = device("Phone", true, Some("1.0"));
    let (status, reason) = runtimeDeviceSpaceConnectionState(&a, &b, Some(true));
    assert_eq!(status, RuntimeDeviceSpaceConnectionStatus::Online);
    assert_eq!(reason, "Link is healthy");
    let (status, reason) = runtimeDeviceSpaceConnectionState(&a, &b, None);
    assert_eq!(status, RuntimeDeviceSpaceConnectionStatus::Unknown);
    assert_eq!(reason, "Direct Peer Link status is not observable from the current device");
}

#[test]
fn offline_and_mismatched_connections_list_every_reason() {
    let a = device("Laptop", false, Some("1.0"));
    let b = device("Phone", true, Some("2.0"));
    let (status, reason) = runtimeDeviceSpaceConnectionState(&a, &b, Some(false));
    assert_eq!(status, RuntimeDeviceSpaceConnectionStatus::Offline);
    assert_eq!(
        reason,
        "Laptop is offline; Core version mismatch: Laptop=1.0, Phone=2.0; Direct Peer Link is offline"
    );
    let a = device("Laptop", true, Some("1.0"));
    let (status, _) = runtimeDeviceSpaceConnectionState(&a, &b, Some(true));
    assert_eq!(status, RuntimeDeviceSpaceConnectionStatus::VersionMismatch);
    let c = device("Tablet", true, None);
    let (status, reason) = runtimeDeviceSpaceConnectionState(&a, &c, Some(true));
    assert_eq!(status, RuntimeDeviceSpaceConnectionStatus::Unknown);
    assert_eq!(reason, "Core version is unavailable");
}

#[test]
fn merge_indexes_pairings_by_device() {
    let outs = vec![("home".to_string(), outbound("node-b", "http://b"))];
    let ins = vec![
        ("in-1".to_string(), inbound("node-b", "android")),
        ("in-2".to_string(), inbound("node-c", "ios")),
        ("in-3".to_string(), inbound("node-b", "android")),
    ];
    let devices = mergePairedDevices(&outs, &ins).unwrap();
    assert_eq!(devices.len(), 2);
    let b = devices.iter().find(|d| d.deviceId == "node-b").unwrap();
    assert_eq!(b.outboundSessionName.as_deref(), Some("home"));
    assert_eq!(b.outboundBaseUrl.as_deref(), Some("http://b"));
    assert_eq!(b.inboundSessionIds, vec!["in-1".to_string(), "in-3".to_string()]);
    let c = devices.iter().find(|d| d.deviceId == "node-c").unwrap();
    assert!(c.outboundSessionName.is_none());
    assert_eq!(c.inboundSessionIds, vec!["in-2".to_string()]);
}

#[test]
fn merge_refuses_two_outbound_pairings_to_one_device() {
    let outs = vec![
        ("a".to_string(), outbound("node-b", "http://b1")),
        ("b".to_string(), outbound("node-b", "http://b2")),
    ];
    assert_eq!(
        mergePairedDevices(&outs, &[]).unwrap_err(),
        "multiple outgoing pairings target device node-b"
    );
}

#[test]
fn merge_refuses_conflicting_device_metadata() {
    let outs = vec![("a".to_string(), outbound("node-b", "http://b"))];
    let ins = vec![("in".to_string(), inbound("node-b", "ios"))];
    assert_eq!(
        mergePairedDevices(&outs, &ins).unwrap_err(),
        "paired device metadata conflicts across session directions"
    );
    assert!(ensureDeviceInfoMatches(&info("ios", "x"), &info("ios", "x")).is_ok());
}

#[test]
fn removal_selects_records_of_one_device() {
    let outs = vec![("home".to_string(), outbound("node-b", "http://b"))];
    let ins = vec![("in-1".to_string(), inbound("node-b", "android")), ("in-2".to_string(), inbound("node-c", "ios"))];
    let (names, ids) = pairedDeviceRemoval(&outs, &ins, "node-b").unwrap();
    assert_eq!(names, vec!["home".to_string()]);
    assert_eq!(ids, vec!["in-1".to_string()]);
    assert!(pairedDeviceRemoval(&outs, &ins, "node-z").is_err());
}

#[test]
fn identity_checks_compare_device_ids() {
    let record = outbound("node-b", "http://b");
    assert!(ensureRemoteIdentity(&record, "node-b").is_ok());
    assert_eq!(ensureRemoteIdentity(&record, "node-x").unwrap_err(), "remote runtime identity changed");
    assert_eq!(
        ensureRemoteIdentityById("node-a", "node-b").unwrap_err(),
        "paired device identity mismatch: expected=node-a, observed=node-b"
    );
}

fn profile(id: &str, name: &str) -> CoreSpaceDeviceProfile {
    CoreSpaceDeviceProfile {
        nodeId: id.to_string(),
        userName: "user".to_string(),
        displayName: name.to_string(),
        platform: "linux".to_string(),
        model: "pc".to_string(),
        coreVersion: Some("1.0".to_string()),
    }
}

#[test]
fn topology_marks_current_and_reachable_devices_online() {
    let members = vec!["a".to_string(), "b".to_string(), "c".to_string()];
    let profiles = vec![profile("a", "A"), profile("b", "B"), profile("c", "C")];
    let reachable = vec![false, true, false];
    let active = vec!["b".to_string()];
    let connections = vec![("a".to_string(), "b".to_string()), ("b".to_string(), "c".to_string())];
    let topology =
        deviceSpaceTopology("a".to_string(), &members, &profiles, &reachable, &active, &connections).unwrap();
    assert_eq!(topology.currentDeviceId, "a");
    let online: Vec<bool> = topology.devices.iter().map(|d| d.online).collect();
    assert_eq!(online, vec![true, true, false]);
    assert_eq!(topology.connections.len(), 2);
    assert_eq!(topology.connections[0].status, RuntimeDeviceSpaceConnectionStatus::Online);
    assert_eq!(topology.connections[1].status, RuntimeDeviceSpaceConnectionStatus::Offline);
}

#[test]
fn topology_refuses_members_without_profiles() {
    let members = vec!["a".to_string(), "z".to_string()];
    let profiles = vec![profile("a", "A")];
    assert!(deviceSpaceTopology("a".to_string(), &members, &profiles, &[true, true], &[], &[]).is_err());
}

#[test]
fn pair_start_checks_inputs_and_identity() {
    assert_eq!(
        validatePairStartInput("  ", "hash").unwrap_err(),
        "paired remote base URL must not be empty"
    );
    assert_eq!(
        validatePairStartInput("http://b", "").unwrap_err(),
        "paired remote token hash must not be empty"
    );
    assert!(validatePairStartInput("http://b", "hash").is_ok());
    let started = pairStartResult(
        "node-b",
        "Bob".to_string(),
        "pairing-1".to_string(),
        2,
        "node-b".to_string(),
        info("android", "pixel"),
    )
    .unwrap();
    assert_eq!(started.pairingId, "pairing-1");
    assert_eq!(started.coreUserName, "Bob");
    assert_eq!(started.pairingServiceVersion, 2);
    assert_eq!(
        pairStartResult("node-c", "Bob".to_string(), "p".to_string(), 2, "node-b".to_string(), info("a", "b"))
            .unwrap_err(),
        "paired remote identity changed during pairing"
    );
}

#[test]
fn pair_finish_needs_new_session_name() {
    let existing = vec!["home".to_string()];
    assert!(validatePairFinishInput("p", "123456", "office", &existing).is_ok());
    assert_eq!(
        validatePairFinishInput("p", "123456", "home", &existing).unwrap_err(),
        "paired remote session already exists: home"
    );
    assert_eq!(
        validatePairFinishInput("", "1", "x", &existing).unwrap_err(),
        "paired remote pairing id must not be empty"
    );
    assert_eq!(
        validatePairFinishInput("p", " ", "x", &existing).unwrap_err(),
        "paired remote pairing code must not be empty"
    );
    assert_eq!(
        validatePairFinishInput("p", "1", "\t", &existing).unwrap_err(),
        "paired remote session name must not be empty"
    );
}

fn endpoint(id: &str, name: &str) -> RuntimeRemoteDiscoveryEndpoint {
    RuntimeRemoteDiscoveryEndpoint {
        deviceId: id.to_string(),
        baseUrl: format!("http://{name}"),
        hostname: name.to_string(),
        port: 8080,
        tokenHash: "t".to_string(),
        version: "1".to_string(),
    }
}

fn hello(id: &str, display: &str, space: &str, space_name: &str, revision: i64, count: usize) -> DiscoveredHello {
    DiscoveredHello {
        coreDeviceId: id.to_string(),
        displayName: display.to_string(),
        userName: "user".to_string(),
        platform: "linux".to_string(),
        model: "pc".to_string(),
        spaceId: space.to_string(),
        spaceName: space_name.to_string(),
        spaceRevision: revision,
        deviceCount: count,
    }
}

#[test]
fn discovered_devices_group_by_space() {
    let found = vec![
        (endpoint("b", "b"), hello("b", "Zed", "s2", "Home", 1, 2)),
        (endpoint("a", "a"), hello("a", "Amy", "s1", "Work", 3, 1)),
        (endpoint("c", "c"), hello("c", "Bea", "s2", "Home v2", 2, 3)),
    ];
    let spaces = groupDiscoveredSpaces(&found).unwrap();
    let ids: Vec<&str> = spaces.iter().map(|s| s.spaceId.as_str()).collect();
    assert_eq!(ids, vec!["s1", "s2"]);
    let home = &spaces[1];
    assert_eq!(home.spaceName, "Home v2");
    assert_eq!(home.spaceRevision, 2);
    assert_eq!(home.memberCount, 3);
    let names: Vec<&str> = home.devices.iter().map(|d| d.displayName.as_str()).collect();
    assert_eq!(names, vec!["Bea", "Zed"]);
}

#[test]
fn discovery_refuses_conflicts_and_impostors() {
    let conflicting = vec![
        (endpoint("a", "a"), hello("a", "A", "s", "One", 4, 1)),
        (endpoint("b", "b"), hello("b", "B", "s", "Two", 4, 1)),
    ];
    assert_eq!(
        groupDiscoveredSpaces(&conflicting).unwrap_err(),
        "device space s advertises conflicting names at revision 4"
    );
    let mut spaces = Vec::new();
    assert!(addDiscoveredDevice(&mut spaces, &endpoint("a", "a"), &hello("x", "X", "s", "S", 1, 1)).is_err());
    assert!(spaces.is_empty());
    assert_eq!(
        addDiscoveredDevice(&mut spaces, &endpoint("a", "a"), &hello("a", "A", "s", "S", 1, 0)).unwrap_err(),
        "discovered device space has no devices"
    );
}

#[test]
fn core_streams_compare_by_source() {
    let a: CoreStream<u8> = CoreStream::new_at("s1".to_string(), "chat".to_string(), "messages".to_string(), "{}".to_string());
    let b: CoreStream<String> = CoreStream::new_at("s1".to_string(), "chat".to_string(), "messages".to_string(), "{}".to_string());
    let c: CoreStream<u8> = CoreStream::new_at("s2".to_string(), "chat".to_string(), "messages".to_string(), "{}".to_string());
    assert_eq!(a.descriptor.propertyName, "messages");
    assert!(a.same_source(&b));
    assert!(!a.same_source(&c));
}

#[test]
fn merged_devices_are_listed_by_device_id() {
    let ins = vec![
        ("in-1".to_string(), inbound("node-z", "android")),
        ("in-2".to_string(), inbound("node-a", "ios")),
        ("in-3".to_string(), inbound("node-m", "ios")),
    ];
    let devices = mergePairedDevices(&[], &ins).unwrap();
    let ids: Vec<&str> = devices.iter().map(|d| d.deviceId.as_str()).collect();
    assert_eq!(ids, vec!["node-a", "node-m", "node-z"]);
}
