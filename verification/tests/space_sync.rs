use operit::link_access::{LinkTransportPreference, PairedRemoteSessionRecord, RemoteDeviceInfo};
use operit::space_sync::{
    blobChunkOffset, blobTransfer, mergeSyncOperations, requiredBlobs, startPeerSync,
    stepPeerSync, synchronizationOutcome, validateDirectPeerSessions, BlobTransfer,
    PeerSyncAction, PeerSyncEvent, PeerSyncFailure, PeerSyncPhase, RuntimeFileSyncReference,
    SyncOperationOrder, SYNC_BLOB_CHUNK_BYTES,
};

fn reference(hash: &str, size: i64) -> RuntimeFileSyncReference {
    RuntimeFileSyncReference { contentHash: hash.to_string(), size }
}

fn order(op: &str, origin: &str, sequence: i64, created: i64) -> SyncOperationOrder {
    SyncOperationOrder {
        opId: op.to_string(),
        originDeviceId: origin.to_string(),
        sequence,
        createdAt: created,
    }
}

#[test]
fn chunk_offsets_stay_within_declared_size() {
    assert_eq!(blobChunkOffset("h", 100, 0, 60).unwrap(), 60);
    assert_eq!(blobChunkOffset("h", 100, 60, 40).unwrap(), 100);
    assert_eq!(
        blobChunkOffset("h", 100, 60, 41).unwrap_err(),
        "synchronization blob h exceeded its declared size"
    );
    assert_eq!(
        blobChunkOffset("h", 100, 60, 0).unwrap_err(),
        "synchronization blob h ended before its declared size"
    );
    assert_eq!(
        blobChunkOffset("h", i64::MAX, i64::MAX, 1).unwrap_err(),
        "synchronization blob offset overflow"
    );
    assert_eq!(SYNC_BLOB_CHUNK_BYTES, 65536);
}

#[test]
fn required_blobs_are_deduplicated() {
    let refs = vec![reference("h2", 10), reference("h1", 5), reference("h2", 10)];
    let blobs = requiredBlobs(&refs).unwrap();
    let mut hashes: Vec<&str> = blobs.iter().map(|b| b.contentHash.as_str()).collect();
    hashes.sort();
    assert_eq!(hashes, vec!["h1", "h2"]);
    let conflicting = vec![reference("h", 1), reference("h", 2)];
    assert_eq!(
        requiredBlobs(&conflicting).unwrap_err(),
        "synchronization blob h has conflicting declared sizes"
    );
}

#[test]
fn blob_transfer_direction_follows_holders() {
    assert_eq!(blobTransfer("h", true, true).unwrap(), BlobTransfer::Present);
    assert_eq!(blobTransfer("h", true, false).unwrap(), BlobTransfer::PushLocalToRemote);
    assert_eq!(blobTransfer("h", false, true).unwrap(), BlobTransfer::PushRemoteToLocal);
    assert_eq!(
        blobTransfer("h", false, false).unwrap_err(),
        "synchronization blob h is missing from both direct peers"
    );
}

#[test]
fn synchronization_failures_are_joined() {
    assert!(synchronizationOutcome(&vec![]).is_ok());
    let failures = vec![
        ("a".to_string(), PeerSyncFailure::PeerLink, "down".to_string()),
        ("b".to_string(), PeerSyncFailure::Persistence, "full".to_string()),
    ];
    assert_eq!(
        synchronizationOutcome(&failures).unwrap_err(),
        "CoreNode a Peer Link: down | CoreNode b persistence sync: full"
    );
}

#[test]
fn merged_operations_are_ordered_and_last_wins() {
    let left = vec![
        (order("op-2", "node-a", 2, 20), "left-2"),
        (order("op-1", "node-a", 1, 10), "left-1"),
    ];
    let right = vec![
        (order("op-3", "node-b", 1, 10), "right-3"),
        (order("op-2", "node-a", 2, 20), "right-2"),
    ];
    let merged = mergeSyncOperations(left, right);
    let payloads: Vec<&str> = merged.iter().map(|(_, p)| *p).collect();
    assert_eq!(payloads, vec!["left-1", "right-3", "right-2"]);
}

fn session(device: &str) -> PairedRemoteSessionRecord {
    PairedRemoteSessionRecord {
        baseUrl: "http://x".to_string(),
        sessionId: "s".to_string(),
        deviceId: "local".to_string(),
        coreDeviceId: device.to_string(),
        remoteDeviceInfo: RemoteDeviceInfo { platform: "p".to_string(), model: "m".to_string() },
        pairingServiceVersion: 1,
        sessionSecret: "k".to_string(),
        transport: LinkTransportPreference::WebSocket,
    }
}

#[test]
fn one_direct_pairing_per_peer() {
    let ok = vec![("a".to_string(), session("n1")), ("b".to_string(), session("n2"))];
    assert!(validateDirectPeerSessions(&ok).is_ok());
    let twice = vec![("a".to_string(), session("n1")), ("b".to_string(), session("n1"))];
    assert_eq!(
        validateDirectPeerSessions(&twice).unwrap_err(),
        "multiple direct pairings target CoreNode n1: a, b"
    );
}

#[test]
fn peer_sync_walks_pages_until_a_short_one() {
    let (mut sync, action) = startPeerSync(2, false, "node-b".to_string());
    assert!(matches!(action, PeerSyncAction::ReadSessionInfo));
    let a = stepPeerSync(&mut sync, PeerSyncEvent::SessionInfo { coreDeviceId: "node-b".to_string() });
    assert!(matches!(a, PeerSyncAction::ReadVersions));
    let a = stepPeerSync(&mut sync, PeerSyncEvent::Versions { local: "1".to_string(), remote: "1".to_string() });
    assert!(matches!(a, PeerSyncAction::ExchangeProjection));
    let a = stepPeerSync(&mut sync, PeerSyncEvent::Projection { sameSpace: true });
    assert!(matches!(a, PeerSyncAction::FetchPage));
    let a = stepPeerSync(&mut sync, PeerSyncEvent::Page { operations: 2 });
    assert!(matches!(a, PeerSyncAction::ApplyPage { operations: 2 }));
    let a = stepPeerSync(&mut sync, PeerSyncEvent::PageApplied);
    assert!(matches!(a, PeerSyncAction::FetchPage));
    let a = stepPeerSync(&mut sync, PeerSyncEvent::Page { operations: 1 });
    assert!(matches!(a, PeerSyncAction::ApplyPage { operations: 1 }));
    let a = stepPeerSync(&mut sync, PeerSyncEvent::PageApplied);
    assert!(matches!(a, PeerSyncAction::Finish(Ok(()))));
    assert_eq!(sync.phase, PeerSyncPhase::Finished);
}

#[test]
fn peer_sync_stops_on_identity_or_version_change() {
    let (_, action) = startPeerSync(0, false, "node-b".to_string());
    match action {
        PeerSyncAction::Finish(Err(e)) => assert_eq!(e, "sync limit must be greater than 0"),
        other => panic!("unexpected action: {:?}", other),
    }
    let (mut sync, _) = startPeerSync(5, true, "node-b".to_string());
    match stepPeerSync(&mut sync, PeerSyncEvent::SessionInfo { coreDeviceId: "node-x".to_string() }) {
        PeerSyncAction::Finish(Err(e)) => assert_eq!(e, "remote runtime identity changed"),
        other => panic!("unexpected action: {:?}", other),
    }
    let (mut sync, _) = startPeerSync(5, true, "node-b".to_string());
    stepPeerSync(&mut sync, PeerSyncEvent::SessionInfo { coreDeviceId: "node-b".to_string() });
    match stepPeerSync(&mut sync, PeerSyncEvent::Versions { local: "1".to_string(), remote: "2".to_string() }) {
        PeerSyncAction::Finish(Err(e)) => {
            assert_eq!(e, "core version mismatch: local=1, remote=2. sync blocked")
        }
        other => panic!("unexpected action: {:?}", other),
    }
}

#[test]
fn bootstrap_sync_resets_before_fetching() {
    let (mut sync, _) = startPeerSync(5, true, "node-b".to_string());
    stepPeerSync(&mut sync, PeerSyncEvent::SessionInfo { coreDeviceId: "node-b".to_string() });
    stepPeerSync(&mut sync, PeerSyncEvent::Versions { local: "1".to_string(), remote: "1".to_string() });
    let a = stepPeerSync(&mut sync, PeerSyncEvent::Projection { sameSpace: true });
    assert!(matches!(a, PeerSyncAction::ForceApplyEmpty));
    let a = stepPeerSync(&mut sync, PeerSyncEvent::BootstrapReset);
    assert!(matches!(a, PeerSyncAction::FetchPage));
    let a = stepPeerSync(&mut sync, PeerSyncEvent::Page { operations: 0 });
    assert!(matches!(a, PeerSyncAction::Finish(Ok(()))));
}

#[test]
fn other_space_ends_sync_without_error() {
    let (mut sync, _) = startPeerSync(5, false, "node-b".to_string());
    stepPeerSync(&mut sync, PeerSyncEvent::SessionInfo { coreDeviceId: "node-b".to_string() });
    stepPeerSync(&mut sync, PeerSyncEvent::Versions { local: "1".to_string(), remote: "1".to_string() });
    let a = stepPeerSync(&mut sync, PeerSyncEvent::Projection { sameSpace: false });
    assert!(matches!(a, PeerSyncAction::Finish(Ok(()))));
}
