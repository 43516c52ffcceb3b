//! Runtime-facing projections of Link pairings and of the device space:
//! connection health, the device-indexed pairing view, and identity checks.
use vstd::prelude::*;
use vstd::multiset::Multiset;
use crate::link_access::{AcceptedRemoteSessionRecord, LinkTransportPreference, PairedRemoteSessionRecord, RemoteDeviceInfo};
use crate::model::{clone_opt, opt_view};
use crate::order::{compare_text, lemma_text_le_reflexive, lemma_text_le_total, lemma_text_le_transitive, text_le};
use crate::text::{concat, is_blank, join, join_strings, str_eq, trim, views};

verus! {

/// One device in the UI-facing device-space topology projection.
#[derive(Clone, Debug)]
pub struct RuntimeDeviceSpaceDevice {
    pub deviceId: String,
    pub userName: String,
    pub deviceName: String,
    pub platform: String,
    pub model: String,
    pub coreVersion: Option<String>,
    pub online: bool,
}

/// The health of one direct device-space connection.
#[derive(Clone, Copy, Debug, PartialEq, Eq, Structural)]
pub enum RuntimeDeviceSpaceConnectionStatus {
    Online,
    Offline,
    VersionMismatch,
    Unknown,
}

/// One direct connection in the UI-facing device-space topology projection.
#[derive(Clone, Debug)]
pub struct RuntimeDeviceSpaceConnection {
    pub firstDeviceId: String,
    pub secondDeviceId: String,
    pub status: RuntimeDeviceSpaceConnectionStatus,
    pub reason: String,
}

/// The current device and all visible device-space connections.
#[derive(Clone, Debug)]
pub struct RuntimeDeviceSpaceTopology {
    pub currentDeviceId: String,
    pub devices: Vec<RuntimeDeviceSpaceDevice>,
    pub connections: Vec<RuntimeDeviceSpaceConnection>,
}

/// The synchronized metadata of one space member, as the space store keeps it.
#[derive(Clone, Debug)]
pub struct CoreSpaceDeviceProfile {
    pub nodeId: String,
    pub userName: String,
    pub displayName: String,
    pub platform: String,
    pub model: String,
    pub coreVersion: Option<String>,
}

/// Whether both endpoints report a Core version and the two differ.
pub open spec fn versions_mismatch(first: Option<Seq<char>>, second: Option<Seq<char>>) -> bool {
    first is Some && second is Some && first->Some_0 != second->Some_0
}

/// The status of a connection between `first` and `second`.
pub open spec fn connection_status(
    first_online: bool,
    second_online: bool,
    first_version: Option<Seq<char>>,
    second_version: Option<Seq<char>>,
    directly_online: Option<bool>,
) -> RuntimeDeviceSpaceConnectionStatus {
    if !first_online || !second_online || directly_online == Some(false) {
        RuntimeDeviceSpaceConnectionStatus::Offline
    } else if versions_mismatch(first_version, second_version) {
        RuntimeDeviceSpaceConnectionStatus::VersionMismatch
    } else if first_version is None || second_version is None {
        RuntimeDeviceSpaceConnectionStatus::Unknown
    } else if directly_online is None {
        RuntimeDeviceSpaceConnectionStatus::Unknown
    } else {
        RuntimeDeviceSpaceConnectionStatus::Online
    }
}

/// `name is offline`.
pub open spec fn offline_reason(name: Seq<char>) -> Seq<char> {
    name + " is offline"@
}

/// `Core version mismatch: a=1, b=2`.
pub open spec fn mismatch_reason(first_name: Seq<char>, first_version: Seq<char>, second_name: Seq<char>, second_version: Seq<char>) -> Seq<char> {
    "Core version mismatch: "@ + first_name + "="@ + first_version + ", "@ + second_name + "="@ + second_version
}

/// The reasons given for a connection's status, in the order they are found.
pub open spec fn connection_reasons(
    first_name: Seq<char>,
    first_online: bool,
    first_version: Option<Seq<char>>,
    second_name: Seq<char>,
    second_online: bool,
    second_version: Option<Seq<char>>,
    directly_online: Option<bool>,
) -> Seq<Seq<char>> {
    let r0: Seq<Seq<char>> = Seq::empty();
    let r1 = if !first_online { r0.push(offline_reason(first_name)) } else { r0 };
    let r2 = if !second_online { r1.push(offline_reason(second_name)) } else { r1 };
    let r3 = if versions_mismatch(first_version, second_version) {
        r2.push(mismatch_reason(first_name, first_version->Some_0, second_name, second_version->Some_0))
    } else {
        r2
    };
    let r4 = if directly_online == Some(false) { r3.push("Direct Peer Link is offline"@) } else { r3 };
    let offline = !first_online || !second_online || directly_online == Some(false);
    if offline || versions_mismatch(first_version, second_version) {
        r4
    } else if first_version is None || second_version is None {
        r4.push("Core version is unavailable"@)
    } else if directly_online is None {
        r4.push("Direct Peer Link status is not observable from the current device"@)
    } else {
        r4
    }
}

/// The reason text: the reasons joined by `"; "`, or a healthy note when there are none.
pub open spec fn reason_text(reasons: Seq<Seq<char>>) -> Seq<char> {
    if reasons.len() == 0 {
        "Link is healthy"@
    } else {
        join(reasons, "; "@)
    }
}

/// The versions of a device, as plain text.
pub open spec fn device_version(d: RuntimeDeviceSpaceDevice) -> Option<Seq<char>> {
    opt_view(d.coreVersion)
}

/// The status and reason for one direct connection, from both endpoints'
/// reachability and Core versions.
pub open spec fn connection_state(first: RuntimeDeviceSpaceDevice, second: RuntimeDeviceSpaceDevice, directly_online: Option<bool>) -> (RuntimeDeviceSpaceConnectionStatus, Seq<char>) {
    (
        connection_status(first.online, second.online, device_version(first), device_version(second), directly_online),
        reason_text(connection_reasons(
            first.deviceName@, first.online, device_version(first),
            second.deviceName@, second.online, device_version(second),
            directly_online,
        )),
    )
}

/// Computes one connection status from both endpoint reachability and versions.
pub fn runtimeDeviceSpaceConnectionState(
    first: &RuntimeDeviceSpaceDevice,
    second: &RuntimeDeviceSpaceDevice,
    directlyOnline: Option<bool>,
) -> (r: (RuntimeDeviceSpaceConnectionStatus, String))
    ensures
        r.0 == connection_state(*first, *second, directlyOnline).0,
        r.1@ == connection_state(*first, *second, directlyOnline).1,
{
    let ghost fv = device_version(*first);
    let ghost sv = device_version(*second);
    let mut reasons: Vec<String> = Vec::new();
    if !first.online {
        reasons.push(concat(first.deviceName.as_str(), " is offline"));
    }
    if !second.online {
        reasons.push(concat(second.deviceName.as_str(), " is offline"));
    }
    let versionsMismatch = match (&first.coreVersion, &second.coreVersion) {
        (Some(firstVersion), Some(secondVersion)) => {
            if !str_eq(firstVersion.as_str(), secondVersion.as_str()) {
                let mut text = String::from_str("Core version mismatch: ");
                text.append(first.deviceName.as_str());
                text.append("=");
                text.append(firstVersion.as_str());
                text.append(", ");
                text.append(second.deviceName.as_str());
                text.append("=");
                text.append(secondVersion.as_str());
                reasons.push(text);
                true
            } else {
                false
            }
        },
        _ => false,
    };
    let directOffline = match directlyOnline {
        Some(b) => !b,
        None => false,
    };
    if directOffline {
        reasons.push(String::from_str("Direct Peer Link is offline"));
    }
    let status = if !first.online || !second.online || directOffline {
        RuntimeDeviceSpaceConnectionStatus::Offline
    } else if versionsMismatch {
        RuntimeDeviceSpaceConnectionStatus::VersionMismatch
    } else if first.coreVersion.is_none() || second.coreVersion.is_none() {
        reasons.push(String::from_str("Core version is unavailable"));
        RuntimeDeviceSpaceConnectionStatus::Unknown
    } else if directlyOnline.is_none() {
        reasons.push(String::from_str("Direct Peer Link status is not observable from the current device"));
        RuntimeDeviceSpaceConnectionStatus::Unknown
    } else {
        RuntimeDeviceSpaceConnectionStatus::Online
    };
    proof {
        let expected = connection_reasons(
            first.deviceName@, first.online, fv,
            second.deviceName@, second.online, sv,
            directlyOnline,
        );
        assert(views(reasons@) =~= expected);
    }
    let reason = if reasons.len() == 0 {
        String::from_str("Link is healthy")
    } else {
        join_strings(&reasons, "; ")
    };
    (status, reason)
}

/// Converts one synchronized profile into the runtime-facing device model.
pub fn runtimeDeviceSpaceDevice(profile: &CoreSpaceDeviceProfile, online: bool) -> (r: RuntimeDeviceSpaceDevice)
    ensures
        r.deviceId == profile.nodeId,
        r.userName == profile.userName,
        r.deviceName == profile.displayName,
        r.platform == profile.platform,
        r.model == profile.model,
        r.coreVersion == profile.coreVersion,
        r.online == online,
{
    RuntimeDeviceSpaceDevice {
        deviceId: profile.nodeId.clone(),
        userName: profile.userName.clone(),
        deviceName: profile.displayName.clone(),
        platform: profile.platform.clone(),
        model: profile.model.clone(),
        coreVersion: clone_opt(&profile.coreVersion),
        online,
    }
}

/// Verifies that the endpoint answered for the paired runtime identity stored locally.
pub fn ensureRemoteIdentity(record: &PairedRemoteSessionRecord, coreDeviceId: &str) -> (r: Result<(), String>)
    ensures
        r is Ok <==> coreDeviceId@ == record.coreDeviceId@,
        r matches Err(e) ==> e@ == "remote runtime identity changed"@,
{
    if !str_eq(coreDeviceId, record.coreDeviceId.as_str()) {
        return Err(String::from_str("remote runtime identity changed"));
    }
    Ok(())
}

/// `paired device identity mismatch: expected=.., observed=..`.
pub open spec fn identity_mismatch(expected: Seq<char>, observed: Seq<char>) -> Seq<char> {
    "paired device identity mismatch: expected="@ + expected + ", observed="@ + observed
}

/// Verifies one observed CoreNode id against an authenticated Link response.
pub fn ensureRemoteIdentityById(expectedNodeId: &str, observedNodeId: &str) -> (r: Result<(), String>)
    ensures
        r is Ok <==> observedNodeId@ == expectedNodeId@,
        r matches Err(e) ==> e@ == identity_mismatch(expectedNodeId@, observedNodeId@),
{
    if !str_eq(observedNodeId, expectedNodeId) {
        let mut text = String::from_str("paired device identity mismatch: expected=");
        text.append(expectedNodeId);
        text.append(", observed=");
        text.append(observedNodeId);
        return Err(text);
    }
    Ok(())
}

/// The message given when two session records describe different devices.
pub open spec fn metadata_conflict() -> Seq<char> {
    "paired device metadata conflicts across session directions"@
}

/// Verifies that directional session records describe the same paired device.
pub fn ensureDeviceInfoMatches(expected: &RemoteDeviceInfo, observed: &RemoteDeviceInfo) -> (r: Result<(), String>)
    ensures
        r is Ok <==> (expected.platform@ == observed.platform@ && expected.model@ == observed.model@),
        r matches Err(e) ==> e@ == metadata_conflict(),
{
    if !str_eq(expected.platform.as_str(), observed.platform.as_str()) || !str_eq(expected.model.as_str(), observed.model.as_str()) {
        return Err(String::from_str("paired device metadata conflicts across session directions"));
    }
    Ok(())
}

/// One paired device after merging inbound and outbound session records.
#[derive(Clone, Debug)]
pub struct RuntimePairedDevice {
    pub deviceId: String,
    pub deviceInfo: RemoteDeviceInfo,
    pub outboundSessionName: Option<String>,
    pub outboundBaseUrl: Option<String>,
    pub outboundTransport: Option<LinkTransportPreference>,
    pub inboundSessionIds: Vec<String>,
}

/// What the merge reads of one named outbound record.
pub struct OutboundView {
    pub name: Seq<char>,
    pub device: Seq<char>,
    pub platform: Seq<char>,
    pub model: Seq<char>,
    pub base_url: Seq<char>,
    pub transport: LinkTransportPreference,
}

/// What the merge reads of one accepted inbound record.
pub struct InboundView {
    pub session: Seq<char>,
    pub device: Seq<char>,
    pub platform: Seq<char>,
    pub model: Seq<char>,
}

/// A merged device as plain values.
pub struct DeviceView {
    pub id: Seq<char>,
    pub platform: Seq<char>,
    pub model: Seq<char>,
    pub outbound: Option<(Seq<char>, Seq<char>, LinkTransportPreference)>,
    pub inbound: Seq<Seq<char>>,
}

/// The plain view of one outbound entry.
pub open spec fn outbound_view(e: (String, PairedRemoteSessionRecord)) -> OutboundView {
    OutboundView {
        name: e.0@,
        device: e.1.coreDeviceId@,
        platform: e.1.remoteDeviceInfo.platform@,
        model: e.1.remoteDeviceInfo.model@,
        base_url: e.1.baseUrl@,
        transport: e.1.transport,
    }
}

/// The plain view of one inbound entry.
pub open spec fn inbound_view(e: (String, AcceptedRemoteSessionRecord)) -> InboundView {
    InboundView {
        session: e.0@,
        device: e.1.deviceId@,
        platform: e.1.deviceInfo.platform@,
        model: e.1.deviceInfo.model@,
    }
}

/// The plain view of one merged device.
pub open spec fn device_view(d: RuntimePairedDevice) -> DeviceView {
    DeviceView {
        id: d.deviceId@,
        platform: d.deviceInfo.platform@,
        model: d.deviceInfo.model@,
        outbound: match (d.outboundSessionName, d.outboundBaseUrl, d.outboundTransport) {
            (Some(n), Some(u), Some(t)) => Some((n@, u@, t)),
            _ => None,
        },
        inbound: views(d.inboundSessionIds@),
    }
}

/// A merged device holds all three outbound fields or none of them.
pub open spec fn paired_device_wf(d: RuntimePairedDevice) -> bool {
    &&& d.outboundSessionName is Some <==> d.outboundBaseUrl is Some
    &&& d.outboundSessionName is Some <==> d.outboundTransport is Some
}

/// The plain views of a list of merged devices.
pub open spec fn device_views(v: Seq<RuntimePairedDevice>) -> Seq<DeviceView> {
    v.map_values(|d: RuntimePairedDevice| device_view(d))
}

/// The last position of the device with id `id`, or -1.
pub open spec fn find_device(devs: Seq<DeviceView>, id: Seq<char>) -> int
    decreases devs.len(),
{
    if devs.len() == 0 {
        -1
    } else if devs.last().id == id {
        devs.len() - 1
    } else {
        find_device(devs.drop_last(), id)
    }
}

/// `multiple outgoing pairings target device <id>`.
pub open spec fn duplicate_outbound(id: Seq<char>) -> Seq<char> {
    "multiple outgoing pairings target device "@ + id
}

/// Adds one outbound record to the devices merged so far.
pub open spec fn outbound_step(devs: Seq<DeviceView>, r: OutboundView) -> Result<Seq<DeviceView>, Seq<char>> {
    let k = find_device(devs, r.device);
    let link = Some((r.name, r.base_url, r.transport));
    if k < 0 {
        Ok(devs.push(DeviceView { id: r.device, platform: r.platform, model: r.model, outbound: link, inbound: Seq::empty() }))
    } else if devs[k].platform != r.platform || devs[k].model != r.model {
        Err(metadata_conflict())
    } else if devs[k].outbound is Some {
        Err(duplicate_outbound(r.device))
    } else {
        Ok(devs.update(k, DeviceView { outbound: link, ..devs[k] }))
    }
}

/// Adds one inbound record to the devices merged so far.
pub open spec fn inbound_step(devs: Seq<DeviceView>, r: InboundView) -> Result<Seq<DeviceView>, Seq<char>> {
    let k = find_device(devs, r.device);
    if k < 0 {
        Ok(devs.push(DeviceView { id: r.device, platform: r.platform, model: r.model, outbound: None, inbound: seq![r.session] }))
    } else if devs[k].platform != r.platform || devs[k].model != r.model {
        Err(metadata_conflict())
    } else {
        Ok(devs.update(k, DeviceView { inbound: devs[k].inbound.push(r.session), ..devs[k] }))
    }
}

/// The devices after merging the first `n` outbound records, in first-seen order.
pub open spec fn merge_outbound(out: Seq<OutboundView>, n: int) -> Result<Seq<DeviceView>, Seq<char>>
    decreases n,
{
    if n <= 0 {
        Ok(Seq::empty())
    } else {
        match merge_outbound(out, n - 1) {
            Err(e) => Err(e),
            Ok(devs) => outbound_step(devs, out[n - 1]),
        }
    }
}

/// The devices after merging all outbound records and the first `n` inbound ones.
pub open spec fn merge_inbound(out: Seq<OutboundView>, inb: Seq<InboundView>, n: int) -> Result<Seq<DeviceView>, Seq<char>>
    decreases n,
{
    if n <= 0 {
        merge_outbound(out, out.len() as int)
    } else {
        match merge_inbound(out, inb, n - 1) {
            Err(e) => Err(e),
            Ok(devs) => inbound_step(devs, inb[n - 1]),
        }
    }
}

/// The merge of all records: outbound ones first, then inbound ones, each in key order.
pub open spec fn merge_paired(out: Seq<OutboundView>, inb: Seq<InboundView>) -> Result<Seq<DeviceView>, Seq<char>> {
    merge_inbound(out, inb, inb.len() as int)
}

/// A refusal while merging outbound records is final.
proof fn lemma_outbound_err_stays(out: Seq<OutboundView>, n: int, m: int)
    requires
        0 <= n <= m,
        merge_outbound(out, n) is Err,
    ensures
        merge_outbound(out, m) == merge_outbound(out, n),
    decreases m - n,
{
    if m > n {
        lemma_outbound_err_stays(out, n, m - 1);
    }
}

/// A refusal while merging is final.
proof fn lemma_inbound_err_stays(out: Seq<OutboundView>, inb: Seq<InboundView>, n: int, m: int)
    requires
        0 <= n <= m,
        merge_inbound(out, inb, n) is Err,
    ensures
        merge_inbound(out, inb, m) == merge_inbound(out, inb, n),
    decreases m - n,
{
    if m > n {
        lemma_inbound_err_stays(out, inb, n, m - 1);
    }
}

/// Position of the device with id `id` in `devs` (the last one), or `None`.
fn find_device_index(devs: &Vec<RuntimePairedDevice>, id: &str) -> (r: Option<usize>)
    ensures
        match r {
            Some(k) => k < devs.len() && find_device(device_views(devs@), id@) == k,
            None => find_device(device_views(devs@), id@) == -1,
        },
{
    let ghost all = device_views(devs@);
    let mut i: usize = devs.len();
    assert(all.subrange(0, i as int) =~= all);
    while i > 0
        invariant
            i <= devs.len(),
            all == device_views(devs@),
            find_device(all, id@) == find_device(all.subrange(0, i as int), id@),
        decreases i,
    {
        let ghost prefix = all.subrange(0, i as int);
        assert(prefix.drop_last() =~= all.subrange(0, i - 1));
        assert(prefix.last() == device_view(devs@[i - 1]));
        if str_eq(devs[i - 1].deviceId.as_str(), id) {
            return Some(i - 1);
        }
        i = i - 1;
    }
    None
}

/// A copy of a device description.
fn copy_info(info: &RemoteDeviceInfo) -> (r: RemoteDeviceInfo)
    ensures
        r.platform == info.platform,
        r.model == info.model,
{
    RemoteDeviceInfo { platform: info.platform.clone(), model: info.model.clone() }
}

/// The plain views of a list of outbound entries.
pub open spec fn outbound_views(v: Seq<(String, PairedRemoteSessionRecord)>) -> Seq<OutboundView> {
    v.map_values(|e: (String, PairedRemoteSessionRecord)| outbound_view(e))
}

/// The plain views of a list of inbound entries.
pub open spec fn inbound_views(v: Seq<(String, AcceptedRemoteSessionRecord)>) -> Seq<InboundView> {
    v.map_values(|e: (String, AcceptedRemoteSessionRecord)| inbound_view(e))
}

/// The devices are listed by device id.
pub open spec fn ids_in_order(devs: Seq<DeviceView>) -> bool {
    forall|i: int, j: int| 0 <= i < j < devs.len() ==> text_le((#[trigger] devs[i]).id, (#[trigger] devs[j]).id)
}

/// `r` holds the devices of `m`, each once, listed by device id.
pub open spec fn by_device_id(m: Seq<DeviceView>, r: Seq<DeviceView>) -> bool {
    &&& r.len() == m.len()
    &&& forall|k: int| 0 <= k < r.len() ==> m.contains(#[trigger] r[k])
    &&& forall|j: int| 0 <= j < m.len() ==> r.contains(#[trigger] m[j])
    &&& ids_in_order(r)
}

/// Orders merged devices by device id.
fn sort_paired_devices(v: Vec<RuntimePairedDevice>) -> (r: Vec<RuntimePairedDevice>)
    ensures
        r@.to_multiset() == v@.to_multiset(),
        forall|i: int, j: int| 0 <= i < j < r@.len() ==> text_le((#[trigger] r@[i]).deviceId@, (#[trigger] r@[j]).deviceId@),
{
    broadcast use vstd::seq_lib::group_to_multiset_ensures;
    let mut rest = v;
    let mut out: Vec<RuntimePairedDevice> = Vec::new();
    while rest.len() > 0
        invariant
            out@.to_multiset().add(rest@.to_multiset()) == v@.to_multiset(),
            forall|i: int, j: int| 0 <= i < j < out@.len() ==> text_le((#[trigger] out@[i]).deviceId@, (#[trigger] out@[j]).deviceId@),
        decreases rest.len(),
    {
        let ghost before_rest = rest@;
        let x = rest.pop().unwrap();
        assert(before_rest =~= rest@.push(x));
        let mut p: usize = 0;
        while p < out.len()
            invariant
                p <= out.len(),
                forall|i: int| 0 <= i < p ==> text_le((#[trigger] out@[i]).deviceId@, x.deviceId@),
            ensures
                p <= out.len(),
                forall|i: int| 0 <= i < p ==> text_le((#[trigger] out@[i]).deviceId@, x.deviceId@),
                p < out.len() ==> text_le(x.deviceId@, out@[p as int].deviceId@),
            decreases out.len() - p,
        {
            let x_first = match compare_text(x.deviceId.as_str(), out[p].deviceId.as_str()) {
                Some(b) => b,
                None => true,
            };
            if x_first {
                proof {
                    if x.deviceId@ == out@[p as int].deviceId@ {
                        lemma_text_le_reflexive(x.deviceId@);
                    }
                }
                break;
            }
            proof {
                lemma_text_le_total(x.deviceId@, out@[p as int].deviceId@);
            }
            p = p + 1;
        }
        let ghost before_out = out@;
        proof {
            assert forall|j: int| p <= j < before_out.len() implies text_le(x.deviceId@, (#[trigger] before_out[j]).deviceId@) by {
                if j > p {
                    lemma_text_le_transitive(x.deviceId@, before_out[p as int].deviceId@, before_out[j].deviceId@);
                }
            }
        }
        out.insert(p, x);
        proof {
            assert(out@ == before_out.insert(p as int, x));
            assert forall|i: int, j: int| 0 <= i < j < out@.len() implies text_le((#[trigger] out@[i]).deviceId@, (#[trigger] out@[j]).deviceId@) by {
                if j == p {
                } else if i == p {
                    assert(out@[j] == before_out[j - 1]);
                } else {
                    let ii = if i < p { i } else { i - 1 };
                    let jj = if j < p { j } else { j - 1 };
                    assert(out@[i] == before_out[ii]);
                    assert(out@[j] == before_out[jj]);
                }
            }
            vstd::seq_lib::to_multiset_insert(before_out, p as int, x);
            vstd::seq_lib::to_multiset_build(rest@, x);
            assert(out@.to_multiset() == before_out.to_multiset().insert(x));
            assert(before_rest.to_multiset() == rest@.to_multiset().insert(x));
            assert(out@.to_multiset().add(rest@.to_multiset()) =~= before_out.to_multiset().add(before_rest.to_multiset()));
        }
    }
    assert(rest@.to_multiset() =~= Multiset::<RuntimePairedDevice>::empty());
    assert(out@.to_multiset().add(rest@.to_multiset()) =~= out@.to_multiset());
    out
}

/// Two lists with the same elements list the same views.
proof fn lemma_same_elements_same_views(a: Seq<RuntimePairedDevice>, b: Seq<RuntimePairedDevice>)
    requires
        a.to_multiset() == b.to_multiset(),
    ensures
        a.len() == b.len(),
        forall|k: int| 0 <= k < a.len() ==> device_views(b).contains(#[trigger] device_views(a)[k]),
{
    broadcast use vstd::seq_lib::group_to_multiset_ensures;
    vstd::seq_lib::to_multiset_len(a);
    vstd::seq_lib::to_multiset_len(b);
    assert forall|k: int| 0 <= k < a.len() implies device_views(b).contains(#[trigger] device_views(a)[k]) by {
        assert(a.contains(a[k]));
        assert(a.to_multiset().count(a[k]) > 0);
        assert(b.to_multiset().count(a[k]) > 0);
        assert(b.contains(a[k]));
        let j = choose|j: int| 0 <= j < b.len() && b[j] == a[k];
        assert(device_views(b)[j] == device_views(a)[k]);
    }
}

/// The entries' keys are strictly ascending, as a sorted map yields them.
pub open spec fn keys_ascending<T>(entries: Seq<(String, T)>) -> bool {
    forall|i: int, j: int| 0 <= i < j < entries.len() ==> crate::order::text_lt((#[trigger] entries[i]).0@, (#[trigger] entries[j]).0@)
}

/// Merges inbound and outbound pairing records into one device-indexed
/// projection, listed by device id. The entries come in key order, as a
/// sorted map yields them.
pub fn mergePairedDevices(
    outboundSessions: &[(String, PairedRemoteSessionRecord)],
    inboundSessions: &[(String, AcceptedRemoteSessionRecord)],
) -> (r: Result<Vec<RuntimePairedDevice>, String>)
    requires
        keys_ascending(outboundSessions@),
        keys_ascending(inboundSessions@),
    ensures
        match r {
            Ok(devs) => merge_paired(outbound_views(outboundSessions@), inbound_views(inboundSessions@)) matches Ok(m)
                && by_device_id(m, device_views(devs@))
                && forall|k: int| 0 <= k < devs@.len() ==> paired_device_wf(#[trigger] devs@[k]),
            Err(e) => merge_paired(outbound_views(outboundSessions@), inbound_views(inboundSessions@)) == Err::<Seq<DeviceView>, _>(e@),
        },
{
    let ghost out = outbound_views(outboundSessions@);
    let ghost inb = inbound_views(inboundSessions@);
    let mut devices: Vec<RuntimePairedDevice> = Vec::new();
    let mut i: usize = 0;
    assert(device_views(devices@) =~= Seq::<DeviceView>::empty());
    while i < outboundSessions.len()
        invariant
            out == outbound_views(outboundSessions@),
            inb == inbound_views(inboundSessions@),
            i <= outboundSessions.len(),
            merge_outbound(out, i as int) == Ok::<_, Seq<char>>(device_views(devices@)),
            forall|k: int| 0 <= k < devices@.len() ==> paired_device_wf(#[trigger] devices@[k]),
        decreases outboundSessions.len() - i,
    {
        let name = &outboundSessions[i].0;
        let record = &outboundSessions[i].1;
        let ghost before = device_views(devices@);
        assert(out[i as int] == outbound_view(outboundSessions@[i as int]));
        match find_device_index(&devices, record.coreDeviceId.as_str()) {
            None => {
                let device = RuntimePairedDevice {
                    deviceId: record.coreDeviceId.clone(),
                    deviceInfo: copy_info(&record.remoteDeviceInfo),
                    outboundSessionName: Some(name.clone()),
                    outboundBaseUrl: Some(record.baseUrl.clone()),
                    outboundTransport: Some(record.transport),
                    inboundSessionIds: Vec::new(),
                };
                assert(views(device.inboundSessionIds@) =~= Seq::<Seq<char>>::empty());
                devices.push(device);
                assert(device_views(devices@) =~= before.push(device_view(device)));
            },
            Some(k) => {
                if let Err(e) = ensureDeviceInfoMatches(&devices[k].deviceInfo, &record.remoteDeviceInfo) {
                    proof {
                        assert(merge_outbound(out, i + 1) == Err::<Seq<DeviceView>, Seq<char>>(e@));
                        lemma_outbound_err_stays(out, i + 1, out.len() as int);
                        lemma_inbound_err_stays(out, inb, 0, inb.len() as int);
                    }
                    return Err(e);
                }
                assert(paired_device_wf(devices@[k as int]));
                if devices[k].outboundSessionName.is_some() {
                    let e = concat("multiple outgoing pairings target device ", record.coreDeviceId.as_str());
                    proof {
                        assert(merge_outbound(out, i + 1) == Err::<Seq<DeviceView>, Seq<char>>(e@));
                        lemma_outbound_err_stays(out, i + 1, out.len() as int);
                        lemma_inbound_err_stays(out, inb, 0, inb.len() as int);
                    }
                    return Err(e);
                }
                let old_device = &devices[k];
                let device = RuntimePairedDevice {
                    deviceId: old_device.deviceId.clone(),
                    deviceInfo: copy_info(&old_device.deviceInfo),
                    outboundSessionName: Some(name.clone()),
                    outboundBaseUrl: Some(record.baseUrl.clone()),
                    outboundTransport: Some(record.transport),
                    inboundSessionIds: old_device.inboundSessionIds.clone(),
                };
                devices.set(k, device);
                assert(device_views(devices@) =~= before.update(k as int, device_view(device)));
            },
        }
        i = i + 1;
    }
    let mut j: usize = 0;
    while j < inboundSessions.len()
        invariant
            out == outbound_views(outboundSessions@),
            inb == inbound_views(inboundSessions@),
            j <= inboundSessions.len(),
            merge_inbound(out, inb, j as int) == Ok::<_, Seq<char>>(device_views(devices@)),
            forall|k: int| 0 <= k < devices@.len() ==> paired_device_wf(#[trigger] devices@[k]),
        decreases inboundSessions.len() - j,
    {
        let sessionId = &inboundSessions[j].0;
        let record = &inboundSessions[j].1;
        let ghost before = device_views(devices@);
        assert(inb[j as int] == inbound_view(inboundSessions@[j as int]));
        match find_device_index(&devices, record.deviceId.as_str()) {
            None => {
                let mut ids: Vec<String> = Vec::new();
                ids.push(sessionId.clone());
                let device = RuntimePairedDevice {
                    deviceId: record.deviceId.clone(),
                    deviceInfo: copy_info(&record.deviceInfo),
                    outboundSessionName: None,
                    outboundBaseUrl: None,
                    outboundTransport: None,
                    inboundSessionIds: ids,
                };
                assert(views(device.inboundSessionIds@) =~= seq![sessionId@]);
                devices.push(device);
                assert(device_views(devices@) =~= before.push(device_view(device)));
            },
            Some(k) => {
                if let Err(e) = ensureDeviceInfoMatches(&devices[k].deviceInfo, &record.deviceInfo) {
                    proof {
                        assert(merge_inbound(out, inb, j + 1) == Err::<Seq<DeviceView>, Seq<char>>(e@));
                        lemma_inbound_err_stays(out, inb, j + 1, inb.len() as int);
                    }
                    return Err(e);
                }
                let old_device = &devices[k];
                let mut ids = old_device.inboundSessionIds.clone();
                assert(ids@ == old_device.inboundSessionIds@);
                ids.push(sessionId.clone());
                let device = RuntimePairedDevice {
                    deviceId: old_device.deviceId.clone(),
                    deviceInfo: copy_info(&old_device.deviceInfo),
                    outboundSessionName: clone_opt(&old_device.outboundSessionName),
                    outboundBaseUrl: clone_opt(&old_device.outboundBaseUrl),
                    outboundTransport: old_device.outboundTransport,
                    inboundSessionIds: ids,
                };
                assert(views(device.inboundSessionIds@) =~= views(old_device.inboundSessionIds@).push(sessionId@));
                devices.set(k, device);
                assert(device_views(devices@) =~= before.update(k as int, device_view(device)));
            },
        }
        j = j + 1;
    }
    let ghost merged = devices@;
    let sorted = sort_paired_devices(devices);
    proof {
        broadcast use vstd::seq_lib::group_to_multiset_ensures;
        assert forall|k: int| 0 <= k < sorted@.len() implies paired_device_wf(#[trigger] sorted@[k]) by {
            assert(sorted@.contains(sorted@[k]));
            assert(sorted@.to_multiset().count(sorted@[k]) > 0);
            assert(merged.to_multiset().count(sorted@[k]) > 0);
            assert(merged.contains(sorted@[k]));
            let w = choose|w: int| 0 <= w < merged.len() && merged[w] == sorted@[k];
            assert(paired_device_wf(merged[w]));
        }
        lemma_same_elements_same_views(sorted@, merged);
        lemma_same_elements_same_views(merged, sorted@);
        assert forall|i: int, j: int| 0 <= i < j < device_views(sorted@).len() implies
            text_le((#[trigger] device_views(sorted@)[i]).id, (#[trigger] device_views(sorted@)[j]).id) by {
            assert(device_views(sorted@)[i].id == sorted@[i].deviceId@);
            assert(device_views(sorted@)[j].id == sorted@[j].deviceId@);
        }
    }
    Ok(sorted)
}

/// The inbound session ids that name device `id`, in order.
pub open spec fn sessions_for(inb: Seq<InboundView>, id: Seq<char>) -> Seq<Seq<char>>
    decreases inb.len(),
{
    if inb.len() == 0 {
        Seq::empty()
    } else if inb.last().device == id {
        sessions_for(inb.drop_last(), id).push(inb.last().session)
    } else {
        sessions_for(inb.drop_last(), id)
    }
}

/// No two merged devices share an id.
pub open spec fn distinct_ids(devs: Seq<DeviceView>) -> bool {
    forall|a: int, b: int| 0 <= a < b < devs.len() ==> devs[a].id != devs[b].id
}

/// `find_device` gives the last position holding `id`, or -1 when none does.
proof fn lemma_find_device(devs: Seq<DeviceView>, id: Seq<char>)
    ensures
        -1 <= find_device(devs, id) < devs.len(),
        find_device(devs, id) >= 0 ==> devs[find_device(devs, id)].id == id,
        forall|k: int| 0 <= k < devs.len() && devs[k].id == id ==> k <= find_device(devs, id),
    decreases devs.len(),
{
    if devs.len() > 0 {
        lemma_find_device(devs.drop_last(), id);
        assert forall|k: int| 0 <= k < devs.len() && devs[k].id == id implies k <= find_device(devs, id) by {
            if k < devs.len() - 1 {
                assert(devs.drop_last()[k] == devs[k]);
            }
        }
    }
}

/// Replacing a device by one with the same id moves no lookup.
proof fn lemma_find_update(devs: Seq<DeviceView>, k: int, y: DeviceView, id: Seq<char>)
    requires
        0 <= k < devs.len(),
        y.id == devs[k].id,
    ensures
        find_device(devs.update(k, y), id) == find_device(devs, id),
    decreases devs.len(),
{
    let u = devs.update(k, y);
    if k < devs.len() - 1 {
        assert(u.drop_last() =~= devs.drop_last().update(k, y));
        lemma_find_update(devs.drop_last(), k, y, id);
    } else {
        assert(u.drop_last() =~= devs.drop_last());
    }
}

/// Appending a device puts its id at the end of every lookup.
proof fn lemma_find_push(devs: Seq<DeviceView>, y: DeviceView, id: Seq<char>)
    ensures
        find_device(devs.push(y), id) == if y.id == id { devs.len() as int } else { find_device(devs, id) },
{
    assert(devs.push(y).drop_last() =~= devs);
}

/// Outbound record `r` is found under its device with its name, base URL and carrier.
pub open spec fn outbound_found(devs: Seq<DeviceView>, r: OutboundView) -> bool {
    let k = find_device(devs, r.device);
    0 <= k < devs.len() && devs[k].id == r.device && devs[k].outbound == Some((r.name, r.base_url, r.transport))
}

/// What holds after the outbound records were merged without refusal.
pub open spec fn outbound_merged(out: Seq<OutboundView>, n: int, devs: Seq<DeviceView>) -> bool {
    &&& distinct_ids(devs)
    &&& forall|j: int| 0 <= j < n ==> outbound_found(devs, #[trigger] out[j])
    &&& forall|k: int| 0 <= k < devs.len() ==> (#[trigger] devs[k]).inbound.len() == 0
    &&& forall|k: int| 0 <= k < devs.len() ==> (#[trigger] devs[k]).outbound is Some
    &&& forall|a: int, b: int| 0 <= a < b < n ==> (#[trigger] out[a]).device != (#[trigger] out[b]).device
}

proof fn lemma_merge_outbound(out: Seq<OutboundView>, n: int)
    requires
        0 <= n <= out.len(),
        merge_outbound(out, n) is Ok,
    ensures
        outbound_merged(out, n, merge_outbound(out, n)->Ok_0),
    decreases n,
{
    if n > 0 {
        let prev = merge_outbound(out, n - 1);
        if prev is Err {
            assert(false);
        }
        lemma_merge_outbound(out, n - 1);
        let devs = prev->Ok_0;
        let r = out[n - 1];
        let k = find_device(devs, r.device);
        lemma_find_device(devs, r.device);
        let link = Some((r.name, r.base_url, r.transport));
        let next = merge_outbound(out, n)->Ok_0;
        if k < 0 {
            let y = DeviceView { id: r.device, platform: r.platform, model: r.model, outbound: link, inbound: Seq::empty() };
            assert(next == devs.push(y));
            assert forall|j: int| 0 <= j < n implies outbound_found(next, #[trigger] out[j]) by {
                lemma_find_push(devs, y, out[j].device);
                if j < n - 1 {
                    assert(find_device(devs, out[j].device) >= 0);
                    lemma_find_device(devs, out[j].device);
                    if out[j].device == r.device {
                        assert(false);
                    }
                }
            }
            assert forall|a: int, b: int| 0 <= a < b < n implies (#[trigger] out[a]).device != (#[trigger] out[b]).device by {
                if b == n - 1 {
                    assert(find_device(devs, out[a].device) >= 0);
                    lemma_find_device(devs, out[a].device);
                }
            }
            assert(distinct_ids(next)) by {
                assert forall|a: int, b: int| 0 <= a < b < next.len() implies next[a].id != next[b].id by {
                    if b == next.len() - 1 {
                        assert(devs[a].id != r.device);
                    }
                }
            }
        } else {
            assert(devs[k].outbound is Some);
            assert(false);
        }
    }
}

/// What holds after all outbound and the first `n` inbound records were merged.
pub open spec fn inbound_merged(out: Seq<OutboundView>, inb: Seq<InboundView>, n: int, devs: Seq<DeviceView>) -> bool {
    &&& distinct_ids(devs)
    &&& forall|j: int| 0 <= j < out.len() ==> outbound_found(devs, #[trigger] out[j])
    &&& forall|k: int| 0 <= k < devs.len() ==> (#[trigger] devs[k]).inbound == sessions_for(inb.take(n), devs[k].id)
    &&& forall|id: Seq<char>| find_device(devs, id) < 0 ==> #[trigger] sessions_for(inb.take(n), id) == Seq::<Seq<char>>::empty()
    &&& forall|a: int, b: int| 0 <= a < b < out.len() ==> (#[trigger] out[a]).device != (#[trigger] out[b]).device
}

proof fn lemma_sessions_for_empty(id: Seq<char>)
    ensures
        sessions_for(Seq::<InboundView>::empty(), id) == Seq::<Seq<char>>::empty(),
{
}

proof fn lemma_merge_inbound(out: Seq<OutboundView>, inb: Seq<InboundView>, n: int)
    requires
        0 <= n <= inb.len(),
        merge_inbound(out, inb, n) is Ok,
    ensures
        inbound_merged(out, inb, n, merge_inbound(out, inb, n)->Ok_0),
    decreases n,
{
    if n == 0 {
        lemma_merge_outbound(out, out.len() as int);
        let devs = merge_outbound(out, out.len() as int)->Ok_0;
        assert(inb.take(0) =~= Seq::<InboundView>::empty());
        assert forall|k: int| 0 <= k < devs.len() implies (#[trigger] devs[k]).inbound == sessions_for(inb.take(0), devs[k].id) by {
            lemma_sessions_for_empty(devs[k].id);
            assert(devs[k].inbound.len() == 0);
            assert(devs[k].inbound =~= Seq::<Seq<char>>::empty());
        }
        assert forall|id: Seq<char>| find_device(devs, id) < 0 implies #[trigger] sessions_for(inb.take(0), id) == Seq::<Seq<char>>::empty() by {
            lemma_sessions_for_empty(id);
        }
    } else {
        let prev = merge_inbound(out, inb, n - 1);
        if prev is Err {
            assert(false);
        }
        lemma_merge_inbound(out, inb, n - 1);
        let devs = prev->Ok_0;
        let r = inb[n - 1];
        let k = find_device(devs, r.device);
        lemma_find_device(devs, r.device);
        let next = merge_inbound(out, inb, n)->Ok_0;
        let t = inb.take(n);
        assert(t.drop_last() =~= inb.take(n - 1));
        assert(t.last() == r);
        if k < 0 {
            let y = DeviceView { id: r.device, platform: r.platform, model: r.model, outbound: None, inbound: seq![r.session] };
            assert(next == devs.push(y));
            assert(sessions_for(inb.take(n - 1), r.device) == Seq::<Seq<char>>::empty());
            assert(sessions_for(t, r.device) =~= seq![r.session]);
            assert forall|j: int| 0 <= j < out.len() implies outbound_found(next, #[trigger] out[j]) by {
                lemma_find_push(devs, y, out[j].device);
                assert(find_device(devs, out[j].device) >= 0);
                lemma_find_device(devs, out[j].device);
                if out[j].device == r.device {
                    assert(false);
                }
            }
            assert forall|kk: int| 0 <= kk < next.len() implies (#[trigger] next[kk]).inbound == sessions_for(t, next[kk].id) by {
                if kk < devs.len() {
                    assert(next[kk] == devs[kk]);
                    assert(devs[kk].id != r.device);
                }
            }
            assert forall|id: Seq<char>| find_device(next, id) < 0 implies #[trigger] sessions_for(t, id) == Seq::<Seq<char>>::empty() by {
                lemma_find_push(devs, y, id);
                assert(id != r.device);
                assert(sessions_for(t, id) == sessions_for(t.drop_last(), id));
                assert(sessions_for(inb.take(n - 1), id) == Seq::<Seq<char>>::empty());
            }
            assert(distinct_ids(next)) by {
                assert forall|a: int, b: int| 0 <= a < b < next.len() implies next[a].id != next[b].id by {
                    if b == next.len() - 1 {
                        assert(devs[a].id != r.device);
                    }
                }
            }
        } else {
            let y = DeviceView { inbound: devs[k].inbound.push(r.session), ..devs[k] };
            assert(next == devs.update(k, y));
            assert forall|j: int| 0 <= j < out.len() implies outbound_found(next, #[trigger] out[j]) by {
                lemma_find_update(devs, k, y, out[j].device);
                assert(find_device(devs, out[j].device) >= 0);
            }
            assert forall|kk: int| 0 <= kk < next.len() implies (#[trigger] next[kk]).inbound == sessions_for(t, next[kk].id) by {
                if kk != k {
                    assert(next[kk] == devs[kk]);
                    assert(devs[kk].id != r.device) by {
                        if kk < k { } else { }
                    }
                }
            }
            assert forall|id: Seq<char>| find_device(next, id) < 0 implies #[trigger] sessions_for(t, id) == Seq::<Seq<char>>::empty() by {
                lemma_find_update(devs, k, y, id);
                if id == r.device {
                    assert(false);
                }
                assert(sessions_for(t, id) == sessions_for(t.drop_last(), id));
                assert(sessions_for(inb.take(n - 1), id) == Seq::<Seq<char>>::empty());
            }
        }
    }
}

/// The merged projection is indexed by device: no two devices share an id;
/// every outbound record is found under its device with its name, base URL and
/// carrier, and no two outbound records name the same device; each device
/// lists exactly the inbound session ids that name it, in key order.
pub proof fn law_merge_is_device_indexed(out: Seq<OutboundView>, inb: Seq<InboundView>)
    requires
        merge_paired(out, inb) is Ok,
    ensures
        distinct_ids(merge_paired(out, inb)->Ok_0),
        forall|j: int| 0 <= j < out.len() ==> outbound_found(merge_paired(out, inb)->Ok_0, #[trigger] out[j]),
        forall|a: int, b: int| 0 <= a < b < out.len() ==> (#[trigger] out[a]).device != (#[trigger] out[b]).device,
        forall|k: int| 0 <= k < merge_paired(out, inb)->Ok_0.len() ==>
            (#[trigger] merge_paired(out, inb)->Ok_0[k]).inbound == sessions_for(inb, merge_paired(out, inb)->Ok_0[k].id),
{
    lemma_merge_inbound(out, inb, inb.len() as int);
    let devs = merge_paired(out, inb)->Ok_0;
    assert(inb.take(inb.len() as int) =~= inb);
}

/// The last position in `keys` holding `id`, or -1.
pub open spec fn last_key(keys: Seq<Seq<char>>, id: Seq<char>) -> int
    decreases keys.len(),
{
    if keys.len() == 0 {
        -1
    } else if keys.last() == id {
        keys.len() - 1
    } else {
        last_key(keys.drop_last(), id)
    }
}

proof fn lemma_last_key(keys: Seq<Seq<char>>, id: Seq<char>)
    ensures
        -1 <= last_key(keys, id) < keys.len(),
        last_key(keys, id) >= 0 ==> keys[last_key(keys, id)] == id,
        last_key(keys, id) < 0 <==> forall|k: int| 0 <= k < keys.len() ==> keys[k] != id,
    decreases keys.len(),
{
    if keys.len() > 0 {
        lemma_last_key(keys.drop_last(), id);
        if last_key(keys, id) < 0 {
            assert forall|k: int| 0 <= k < keys.len() implies keys[k] != id by {
                if k < keys.len() - 1 {
                    assert(keys.drop_last()[k] == keys[k]);
                }
            }
        }
    }
}

/// A key is held exactly when `last_key` finds it.
proof fn lemma_contains_last_key(keys: Seq<Seq<char>>, id: Seq<char>)
    ensures
        keys.contains(id) <==> last_key(keys, id) >= 0,
{
    lemma_last_key(keys, id);
    if keys.contains(id) {
        let k = choose|k: int| 0 <= k < keys.len() && keys[k] == id;
        assert(keys[k] == id);
    }
    if last_key(keys, id) >= 0 {
        assert(keys[last_key(keys, id)] == id);
    }
}

/// Searches `keys` from the end for `id`.
fn find_last_key(keys: &Vec<String>, id: &str) -> (r: Option<usize>)
    ensures
        match r {
            Some(k) => k < keys.len() && last_key(views(keys@), id@) == k,
            None => last_key(views(keys@), id@) == -1,
        },
{
    let ghost all = views(keys@);
    let mut i: usize = keys.len();
    assert(all.subrange(0, i as int) =~= all);
    while i > 0
        invariant
            i <= keys.len(),
            all == views(keys@),
            last_key(all, id@) == last_key(all.subrange(0, i as int), id@),
        decreases i,
    {
        let ghost prefix = all.subrange(0, i as int);
        assert(prefix.drop_last() =~= all.subrange(0, i - 1));
        if str_eq(keys[i - 1].as_str(), id) {
            return Some(i - 1);
        }
        i = i - 1;
    }
    None
}

/// Whether `v` holds a string equal to `s`.
fn contains_str(v: &[String], s: &str) -> (r: bool)
    ensures
        r == exists|k: int| 0 <= k < v@.len() && (#[trigger] v@[k])@ == s@,
{
    let mut i: usize = 0;
    while i < v.len()
        invariant
            i <= v.len(),
            forall|k: int| 0 <= k < i ==> (#[trigger] v@[k])@ != s@,
        decreases v.len() - i,
    {
        if str_eq(v[i].as_str(), s) {
            return true;
        }
        i = i + 1;
    }
    false
}

/// The node ids of a list of profiles.
pub open spec fn profile_ids(ps: Seq<CoreSpaceDeviceProfile>) -> Seq<Seq<char>> {
    ps.map_values(|p: CoreSpaceDeviceProfile| p.nodeId@)
}

/// The device ids of a list of topology devices.
pub open spec fn topology_ids(ds: Seq<RuntimeDeviceSpaceDevice>) -> Seq<Seq<char>> {
    ds.map_values(|d: RuntimeDeviceSpaceDevice| d.deviceId@)
}

/// `d` is the projection of profile `p` with the given reachability.
pub open spec fn device_of_profile(d: RuntimeDeviceSpaceDevice, p: CoreSpaceDeviceProfile, online: bool) -> bool {
    &&& d.deviceId == p.nodeId
    &&& d.userName == p.userName
    &&& d.deviceName == p.displayName
    &&& d.platform == p.platform
    &&& d.model == p.model
    &&& d.coreVersion == p.coreVersion
    &&& d.online == online
}

/// `Device profile is missing in the current device space: <id>`.
pub open spec fn missing_member_profile(id: Seq<char>) -> Seq<char> {
    "Device profile is missing in the current device space: "@ + id
}

/// `Device profile is missing for connection endpoint: <id>`.
pub open spec fn missing_endpoint_profile(id: Seq<char>) -> Seq<char> {
    "Device profile is missing for connection endpoint: "@ + id
}

/// The devices of the topology: one per space member, from its synchronized
/// profile; a member is online when it is the current device or when a next
/// hop through the active peers reaches it (`reachable`, one answer per member).
pub fn topology_devices(
    currentDeviceId: &str,
    members: &[String],
    profiles: &Vec<CoreSpaceDeviceProfile>,
    reachable: &[bool],
) -> (r: Result<Vec<RuntimeDeviceSpaceDevice>, String>)
    requires
        reachable.len() == members.len(),
    ensures
        r is Ok <==> forall|i: int| 0 <= i < members@.len() ==> last_key(profile_ids(profiles@), (#[trigger] members@[i])@) >= 0,
        r matches Ok(ds) ==> ds@.len() == members@.len() && forall|i: int| 0 <= i < members@.len() ==>
            device_of_profile(#[trigger] ds@[i], profiles@[last_key(profile_ids(profiles@), members@[i]@)],
                members@[i]@ == currentDeviceId@ || reachable@[i]),
        r matches Err(e) ==> exists|i: int| 0 <= i < members@.len()
            && last_key(profile_ids(profiles@), (#[trigger] members@[i])@) < 0
            && (forall|j: int| 0 <= j < i ==> last_key(profile_ids(profiles@), (#[trigger] members@[j])@) >= 0)
            && e@ == missing_member_profile(members@[i]@),
{
    let mut ids: Vec<String> = Vec::new();
    let mut p: usize = 0;
    while p < profiles.len()
        invariant
            p <= profiles.len(),
            views(ids@) =~= profile_ids(profiles@.subrange(0, p as int)),
        decreases profiles.len() - p,
    {
        let ghost before = ids@;
        let id = profiles[p].nodeId.clone();
        ids.push(id);
        proof {
            assert(views(ids@) =~= views(before).push(id@));
            assert(profiles@.subrange(0, p + 1) =~= profiles@.subrange(0, p as int).push(profiles@[p as int]));
            assert(profile_ids(profiles@.subrange(0, p + 1)) =~= profile_ids(profiles@.subrange(0, p as int)).push(profiles@[p as int].nodeId@));
        }
        p = p + 1;
    }
    assert(profiles@.subrange(0, profiles.len() as int) =~= profiles@);
    let mut devices: Vec<RuntimeDeviceSpaceDevice> = Vec::new();
    let mut i: usize = 0;
    while i < members.len()
        invariant
            i <= members.len(),
            reachable.len() == members.len(),
            views(ids@) == profile_ids(profiles@),
            devices@.len() == i,
            forall|j: int| 0 <= j < i ==> last_key(profile_ids(profiles@), (#[trigger] members@[j])@) >= 0,
            forall|j: int| 0 <= j < i ==>
                device_of_profile(#[trigger] devices@[j], profiles@[last_key(profile_ids(profiles@), members@[j]@)],
                    members@[j]@ == currentDeviceId@ || reachable@[j]),
        decreases members.len() - i,
    {
        let id = members[i].as_str();
        match find_last_key(&ids, id) {
            None => {
                return Err(concat("Device profile is missing in the current device space: ", id));
            },
            Some(k) => {
                proof { lemma_last_key(profile_ids(profiles@), id@); }
                let online = str_eq(id, currentDeviceId) || reachable[i];
                let device = runtimeDeviceSpaceDevice(&profiles[k], online);
                devices.push(device);
            },
        }
        i = i + 1;
    }
    Ok(devices)
}

/// Whether the current device observes the direct link of a connection: only
/// when it is one of the two endpoints, by whether the other one is an active peer.
pub open spec fn direct_observation(current: Seq<char>, first: Seq<char>, second: Seq<char>, peers: Seq<Seq<char>>) -> Option<bool> {
    if first == current {
        Some(peers.contains(second))
    } else if second == current {
        Some(peers.contains(first))
    } else {
        None
    }
}

/// One projected connection, as the topology gives it for a stored pair.
pub open spec fn connection_of(
    c: RuntimeDeviceSpaceConnection,
    pair: (String, String),
    devices: Seq<RuntimeDeviceSpaceDevice>,
    current: Seq<char>,
    peers: Seq<Seq<char>>,
) -> bool {
    let f = devices[last_key(topology_ids(devices), pair.0@)];
    let g = devices[last_key(topology_ids(devices), pair.1@)];
    let st = connection_state(f, g, direct_observation(current, pair.0@, pair.1@, peers));
    &&& c.firstDeviceId == pair.0
    &&& c.secondDeviceId == pair.1
    &&& c.status == st.0
    &&& c.reason@ == st.1
}

/// Both endpoints of a stored pair are among the known device ids.
pub open spec fn endpoints_known(keys: Seq<Seq<char>>, pair: (String, String)) -> bool {
    keys.contains(pair.0@) && keys.contains(pair.1@)
}

/// The error for a stored pair with an unknown endpoint (the first one is checked first).
pub open spec fn endpoint_error(keys: Seq<Seq<char>>, pair: (String, String)) -> Seq<char> {
    if !keys.contains(pair.0@) {
        missing_endpoint_profile(pair.0@)
    } else {
        missing_endpoint_profile(pair.1@)
    }
}

/// The connections of the topology: one per stored pair, with its status and reason.
pub fn topology_connections(
    currentDeviceId: &str,
    devices: &Vec<RuntimeDeviceSpaceDevice>,
    activePeers: &[String],
    connections: &[(String, String)],
) -> (r: Result<Vec<RuntimeDeviceSpaceConnection>, String>)
    ensures
        r is Ok <==> forall|i: int| 0 <= i < connections@.len() ==> endpoints_known(topology_ids(devices@), #[trigger] connections@[i]),
        r matches Ok(cs) ==> cs@.len() == connections@.len() && forall|i: int| 0 <= i < connections@.len() ==>
            connection_of(#[trigger] cs@[i], connections@[i], devices@, currentDeviceId@, views(activePeers@)),
        r matches Err(e) ==> exists|i: int| 0 <= i < connections@.len()
            && !endpoints_known(topology_ids(devices@), #[trigger] connections@[i])
            && (forall|j: int| 0 <= j < i ==> endpoints_known(topology_ids(devices@), #[trigger] connections@[j]))
            && e@ == endpoint_error(topology_ids(devices@), connections@[i]),
{
    let mut ids: Vec<String> = Vec::new();
    let mut p: usize = 0;
    while p < devices.len()
        invariant
            p <= devices.len(),
            views(ids@) =~= topology_ids(devices@.subrange(0, p as int)),
        decreases devices.len() - p,
    {
        let ghost before = ids@;
        let id = devices[p].deviceId.clone();
        ids.push(id);
        proof {
            assert(views(ids@) =~= views(before).push(id@));
            assert(devices@.subrange(0, p + 1) =~= devices@.subrange(0, p as int).push(devices@[p as int]));
            assert(topology_ids(devices@.subrange(0, p + 1)) =~= topology_ids(devices@.subrange(0, p as int)).push(devices@[p as int].deviceId@));
        }
        p = p + 1;
    }
    assert(devices@.subrange(0, devices.len() as int) =~= devices@);
    let ghost peers = views(activePeers@);
    let mut out: Vec<RuntimeDeviceSpaceConnection> = Vec::new();
    let mut i: usize = 0;
    while i < connections.len()
        invariant
            i <= connections.len(),
            views(ids@) == topology_ids(devices@),
            peers == views(activePeers@),
            out@.len() == i,
            forall|j: int| 0 <= j < i ==> endpoints_known(topology_ids(devices@), #[trigger] connections@[j]),
            forall|j: int| 0 <= j < i ==> connection_of(#[trigger] out@[j], connections@[j], devices@, currentDeviceId@, peers),
        decreases connections.len() - i,
    {
        let first = connections[i].0.as_str();
        let second = connections[i].1.as_str();
        proof {
            lemma_last_key(topology_ids(devices@), first@);
            lemma_last_key(topology_ids(devices@), second@);
            lemma_contains_last_key(topology_ids(devices@), first@);
            lemma_contains_last_key(topology_ids(devices@), second@);
        }
        let f = match find_last_key(&ids, first) {
            Some(f) => f,
            None => {
                return Err(concat("Device profile is missing for connection endpoint: ", first));
            },
        };
        let g = match find_last_key(&ids, second) {
            Some(g) => g,
            None => {
                return Err(concat("Device profile is missing for connection endpoint: ", second));
            },
        };
        let directly = if str_eq(first, currentDeviceId) {
            let b = contains_str(activePeers, second);
            proof {
                if b {
                    let k = choose|k: int| 0 <= k < activePeers@.len() && (#[trigger] activePeers@[k])@ == second@;
                    assert(peers[k] == second@);
                }
                if peers.contains(second@) {
                    let k = choose|k: int| 0 <= k < peers.len() && peers[k] == second@;
                    assert(activePeers@[k]@ == second@);
                }
            }
            Some(b)
        } else if str_eq(second, currentDeviceId) {
            let b = contains_str(activePeers, first);
            proof {
                if b {
                    let k = choose|k: int| 0 <= k < activePeers@.len() && (#[trigger] activePeers@[k])@ == first@;
                    assert(peers[k] == first@);
                }
                if peers.contains(first@) {
                    let k = choose|k: int| 0 <= k < peers.len() && peers[k] == first@;
                    assert(activePeers@[k]@ == first@);
                }
            }
            Some(b)
        } else {
            None
        };
        let (status, reason) = runtimeDeviceSpaceConnectionState(&devices[f], &devices[g], directly);
        let c = RuntimeDeviceSpaceConnection {
            firstDeviceId: connections[i].0.clone(),
            secondDeviceId: connections[i].1.clone(),
            status,
            reason,
        };
        out.push(c);
        i = i + 1;
    }
    Ok(out)
}

/// Assembles the synchronized device metadata and direct-connection graph of
/// the current device space.
pub fn deviceSpaceTopology(
    currentDeviceId: String,
    members: &[String],
    profiles: &Vec<CoreSpaceDeviceProfile>,
    reachable: &[bool],
    activePeers: &[String],
    connections: &[(String, String)],
) -> (r: Result<RuntimeDeviceSpaceTopology, String>)
    requires
        reachable.len() == members.len(),
    ensures
        r is Ok <==> (forall|i: int| 0 <= i < members@.len() ==> last_key(profile_ids(profiles@), (#[trigger] members@[i])@) >= 0)
            && (forall|i: int| 0 <= i < connections@.len() ==> endpoints_known(views(members@), #[trigger] connections@[i])),
        r matches Ok(t) ==> t.currentDeviceId == currentDeviceId
            && t.devices@.len() == members@.len()
            && (forall|i: int| 0 <= i < members@.len() ==>
                device_of_profile(#[trigger] t.devices@[i], profiles@[last_key(profile_ids(profiles@), members@[i]@)],
                    members@[i]@ == currentDeviceId@ || reachable@[i]))
            && t.connections@.len() == connections@.len()
            && (forall|i: int| 0 <= i < connections@.len() ==>
                connection_of(#[trigger] t.connections@[i], connections@[i], t.devices@, currentDeviceId@, views(activePeers@))),
        r matches Err(e) ==> (exists|i: int| 0 <= i < members@.len()
                && last_key(profile_ids(profiles@), (#[trigger] members@[i])@) < 0
                && (forall|j: int| 0 <= j < i ==> last_key(profile_ids(profiles@), (#[trigger] members@[j])@) >= 0)
                && e@ == missing_member_profile(members@[i]@))
            || ((forall|i: int| 0 <= i < members@.len() ==> last_key(profile_ids(profiles@), (#[trigger] members@[i])@) >= 0)
                && exists|i: int| 0 <= i < connections@.len()
                && !endpoints_known(views(members@), #[trigger] connections@[i])
                && (forall|j: int| 0 <= j < i ==> endpoints_known(views(members@), #[trigger] connections@[j]))
                && e@ == endpoint_error(views(members@), connections@[i])),
{
    let devices = match topology_devices(currentDeviceId.as_str(), members, profiles, reachable) {
        Ok(d) => d,
        Err(e) => return Err(e),
    };
    proof {
        assert(topology_ids(devices@) =~= views(members@)) by {
            assert forall|i: int| 0 <= i < members@.len() implies topology_ids(devices@)[i] == views(members@)[i] by {
                assert(last_key(profile_ids(profiles@), members@[i]@) >= 0);
                lemma_last_key(profile_ids(profiles@), members@[i]@);
            }
        }
    }
    let conns = match topology_connections(currentDeviceId.as_str(), &devices, activePeers, connections) {
        Ok(c) => c,
        Err(e) => return Err(e),
    };
    Ok(RuntimeDeviceSpaceTopology { currentDeviceId, devices, connections: conns })
}

/// The names of the outbound records that target device `id`, in key order.
pub open spec fn outbound_names_for(out: Seq<OutboundView>, id: Seq<char>) -> Seq<Seq<char>>
    decreases out.len(),
{
    if out.len() == 0 {
        Seq::empty()
    } else if out.last().device == id {
        outbound_names_for(out.drop_last(), id).push(out.last().name)
    } else {
        outbound_names_for(out.drop_last(), id)
    }
}

/// `paired device does not exist: <id>`.
pub open spec fn unknown_paired_device(id: Seq<char>) -> Seq<char> {
    "paired device does not exist: "@ + id
}

/// Selects the pairing records to remove for one device: the names of the
/// outbound records and the ids of the inbound sessions that name it, or an
/// error when it has none of either.
pub fn pairedDeviceRemoval(
    outboundSessions: &[(String, PairedRemoteSessionRecord)],
    inboundSessions: &[(String, AcceptedRemoteSessionRecord)],
    deviceId: &str,
) -> (r: Result<(Vec<String>, Vec<String>), String>)
    requires
        keys_ascending(outboundSessions@),
        keys_ascending(inboundSessions@),
    ensures
        match r {
            Ok((names, ids)) => views(names@) == outbound_names_for(outbound_views(outboundSessions@), deviceId@)
                && views(ids@) == sessions_for(inbound_views(inboundSessions@), deviceId@)
                && (names@.len() > 0 || ids@.len() > 0),
            Err(e) => outbound_names_for(outbound_views(outboundSessions@), deviceId@).len() == 0
                && sessions_for(inbound_views(inboundSessions@), deviceId@).len() == 0
                && e@ == unknown_paired_device(deviceId@),
        },
{
    let ghost out = outbound_views(outboundSessions@);
    let ghost inb = inbound_views(inboundSessions@);
    let mut names: Vec<String> = Vec::new();
    let mut i: usize = 0;
    assert(views(names@) =~= Seq::<Seq<char>>::empty());
    while i < outboundSessions.len()
        invariant
            out == outbound_views(outboundSessions@),
            i <= outboundSessions.len(),
            views(names@) == outbound_names_for(out.take(i as int), deviceId@),
        decreases outboundSessions.len() - i,
    {
        let ghost before = names@;
        assert(out.take(i + 1).drop_last() =~= out.take(i as int));
        assert(out.take(i + 1).last() == outbound_view(outboundSessions@[i as int]));
        if str_eq(outboundSessions[i].1.coreDeviceId.as_str(), deviceId) {
            let n = outboundSessions[i].0.clone();
            names.push(n);
            assert(views(names@) =~= views(before).push(n@));
        }
        i = i + 1;
    }
    let mut ids: Vec<String> = Vec::new();
    let mut j: usize = 0;
    assert(views(ids@) =~= Seq::<Seq<char>>::empty());
    while j < inboundSessions.len()
        invariant
            inb == inbound_views(inboundSessions@),
            j <= inboundSessions.len(),
            views(ids@) == sessions_for(inb.take(j as int), deviceId@),
        decreases inboundSessions.len() - j,
    {
        let ghost before = ids@;
        assert(inb.take(j + 1).drop_last() =~= inb.take(j as int));
        assert(inb.take(j + 1).last() == inbound_view(inboundSessions@[j as int]));
        if str_eq(inboundSessions[j].1.deviceId.as_str(), deviceId) {
            let n = inboundSessions[j].0.clone();
            ids.push(n);
            assert(views(ids@) =~= views(before).push(n@));
        }
        j = j + 1;
    }
    assert(out.take(out.len() as int) =~= out);
    assert(inb.take(inb.len() as int) =~= inb);
    if names.len() == 0 && ids.len() == 0 {
        return Err(concat("paired device does not exist: ", deviceId));
    }
    Ok((names, ids))
}

/// Reports the remote identity returned after beginning an outbound pairing transaction.
#[derive(Clone, Debug)]
pub struct RuntimeRemotePairStartResult {
    pub pairingId: String,
    pub pairingServiceVersion: i32,
    pub coreDeviceId: String,
    pub coreDeviceInfo: RemoteDeviceInfo,
    pub coreUserName: String,
}

/// Checks the arguments of an outbound pairing start: neither the base URL nor
/// the token hash may be blank.
pub fn validatePairStartInput(baseUrl: &str, tokenHash: &str) -> (r: Result<(), String>)
    ensures
        match r {
            Ok(()) => trim(baseUrl@).len() > 0 && trim(tokenHash@).len() > 0,
            Err(e) => if trim(baseUrl@).len() == 0 {
                e@ == "paired remote base URL must not be empty"@
            } else {
                trim(tokenHash@).len() == 0 && e@ == "paired remote token hash must not be empty"@
            },
        },
{
    if is_blank(baseUrl) {
        return Err(String::from_str("paired remote base URL must not be empty"));
    }
    if is_blank(tokenHash) {
        return Err(String::from_str("paired remote token hash must not be empty"));
    }
    Ok(())
}

/// The start result of a pairing, from the identity the endpoint greeted with
/// and the pairing state it then answered; refused when the two identities differ.
pub fn pairStartResult(
    helloCoreDeviceId: &str,
    helloUserName: String,
    pairingId: String,
    pairingServiceVersion: i32,
    coreDeviceId: String,
    coreDeviceInfo: RemoteDeviceInfo,
) -> (r: Result<RuntimeRemotePairStartResult, String>)
    ensures
        match r {
            Ok(p) => helloCoreDeviceId@ == coreDeviceId@
                && p.pairingId@ == pairingId@
                && p.pairingServiceVersion == pairingServiceVersion
                && p.coreDeviceId@ == coreDeviceId@
                && p.coreDeviceInfo.platform@ == coreDeviceInfo.platform@
                && p.coreDeviceInfo.model@ == coreDeviceInfo.model@
                && p.coreUserName@ == helloUserName@,
            Err(e) => helloCoreDeviceId@ != coreDeviceId@
                && e@ == "paired remote identity changed during pairing"@,
        },
{
    if !str_eq(helloCoreDeviceId, coreDeviceId.as_str()) {
        return Err(String::from_str("paired remote identity changed during pairing"));
    }
    Ok(RuntimeRemotePairStartResult {
        pairingId,
        pairingServiceVersion,
        coreDeviceId,
        coreDeviceInfo,
        coreUserName: helloUserName,
    })
}

/// `paired remote session already exists: {name}`.
pub open spec fn session_exists_message(name: Seq<char>) -> Seq<char> {
    "paired remote session already exists: "@ + name
}

/// Checks the arguments of an outbound pairing finish against the names of the
/// stored outbound sessions: no argument may be blank and the name must be new.
pub fn validatePairFinishInput(pairingId: &str, pairingCode: &str, name: &str, existingNames: &[String]) -> (r: Result<(), String>)
    ensures
        match r {
            Ok(()) => trim(pairingId@).len() > 0 && trim(pairingCode@).len() > 0 && trim(name@).len() > 0
                && forall|k: int| 0 <= k < existingNames@.len() ==> (#[trigger] existingNames@[k])@ != name@,
            Err(e) => if trim(pairingId@).len() == 0 {
                e@ == "paired remote pairing id must not be empty"@
            } else if trim(pairingCode@).len() == 0 {
                e@ == "paired remote pairing code must not be empty"@
            } else if trim(name@).len() == 0 {
                e@ == "paired remote session name must not be empty"@
            } else {
                (exists|k: int| 0 <= k < existingNames@.len() && (#[trigger] existingNames@[k])@ == name@)
                    && e@ == session_exists_message(name@)
            },
        },
{
    if is_blank(pairingId) {
        return Err(String::from_str("paired remote pairing id must not be empty"));
    }
    if is_blank(pairingCode) {
        return Err(String::from_str("paired remote pairing code must not be empty"));
    }
    if is_blank(name) {
        return Err(String::from_str("paired remote session name must not be empty"));
    }
    if contains_str(existingNames, name) {
        return Err(concat("paired remote session already exists: ", name));
    }
    Ok(())
}

} // verus!
