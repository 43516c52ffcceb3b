//! Grouping of discovered Link runtimes by the device space they advertise.
use vstd::prelude::*;
use vstd::multiset::Multiset;
use crate::num::{decimal, i64_to_string};
use crate::order::{compare_text, lemma_text_le_reflexive, lemma_text_le_total, lemma_text_le_transitive, lemma_text_le_antisymmetric, text_le, text_lt};
use crate::remote::{ensureRemoteIdentityById, identity_mismatch};
use crate::text::{str_eq, views};

verus! {

/// A Link-enabled runtime found on the local network.
#[derive(Clone, Debug)]
pub struct RuntimeRemoteDiscoveryEndpoint {
    pub deviceId: String,
    pub baseUrl: String,
    pub hostname: String,
    pub port: u16,
    pub tokenHash: String,
    pub version: String,
}

/// What a runtime's authenticated hello answered about itself and its space.
#[derive(Clone, Debug)]
pub struct DiscoveredHello {
    pub coreDeviceId: String,
    pub displayName: String,
    pub userName: String,
    pub platform: String,
    pub model: String,
    pub spaceId: String,
    pub spaceName: String,
    pub spaceRevision: i64,
    pub deviceCount: usize,
}

/// A discovered runtime, as the UI lists it.
#[derive(Clone, Debug)]
pub struct RuntimeRemoteDiscoveredDevice {
    pub deviceId: String,
    pub displayName: String,
    pub userName: String,
    pub platform: String,
    pub model: String,
    pub baseUrl: String,
    pub hostname: String,
    pub port: u16,
    pub tokenHash: String,
    pub version: String,
}

/// Every discovered runtime that advertises the same space identity.
#[derive(Clone, Debug)]
pub struct RuntimeRemoteDiscoveredSpace {
    pub spaceId: String,
    pub spaceName: String,
    pub spaceRevision: i64,
    pub memberCount: usize,
    pub devices: Vec<RuntimeRemoteDiscoveredDevice>,
}

/// A discovered space as plain values.
pub struct SpaceView {
    pub id: Seq<char>,
    pub name: Seq<char>,
    pub revision: int,
    pub members: int,
    pub devices: Seq<RuntimeRemoteDiscoveredDevice>,
}

/// The plain view of a discovered space.
pub open spec fn space_view(s: RuntimeRemoteDiscoveredSpace) -> SpaceView {
    SpaceView { id: s.spaceId@, name: s.spaceName@, revision: s.spaceRevision as int, members: s.memberCount as int, devices: s.devices@ }
}

/// The plain views of a list of discovered spaces.
pub open spec fn space_views(v: Seq<RuntimeRemoteDiscoveredSpace>) -> Seq<SpaceView> {
    v.map_values(|s: RuntimeRemoteDiscoveredSpace| space_view(s))
}

/// The listed device for one endpoint and its hello answer.
pub open spec fn device_for(e: RuntimeRemoteDiscoveryEndpoint, h: DiscoveredHello) -> RuntimeRemoteDiscoveredDevice {
    RuntimeRemoteDiscoveredDevice {
        deviceId: e.deviceId,
        displayName: h.displayName,
        userName: h.userName,
        platform: h.platform,
        model: h.model,
        baseUrl: e.baseUrl,
        hostname: e.hostname,
        port: e.port,
        tokenHash: e.tokenHash,
        version: e.version,
    }
}

/// The last position of the space with id `id`, or -1.
pub open spec fn find_space(spaces: Seq<SpaceView>, id: Seq<char>) -> int
    decreases spaces.len(),
{
    if spaces.len() == 0 {
        -1
    } else if spaces.last().id == id {
        spaces.len() - 1
    } else {
        find_space(spaces.drop_last(), id)
    }
}

/// `discovered device space has no devices`.
pub open spec fn empty_space_error() -> Seq<char> {
    "discovered device space has no devices"@
}

/// `device space <id> advertises conflicting names at revision <n>`.
pub open spec fn conflicting_names(id: Seq<char>, revision: int) -> Seq<char> {
    "device space "@ + id + " advertises conflicting names at revision "@ + decimal(revision)
}

/// Adds one answered endpoint to the spaces grouped so far.
pub open spec fn group_step(spaces: Seq<SpaceView>, e: RuntimeRemoteDiscoveryEndpoint, h: DiscoveredHello) -> Result<Seq<SpaceView>, Seq<char>> {
    let d = device_for(e, h);
    let k = find_space(spaces, h.spaceId@);
    let rev = h.spaceRevision as int;
    let count = h.deviceCount as int;
    if h.coreDeviceId@ != e.deviceId@ {
        Err(identity_mismatch(e.deviceId@, h.coreDeviceId@))
    } else if count == 0 {
        Err(empty_space_error())
    } else if k < 0 {
        Ok(spaces.push(SpaceView { id: h.spaceId@, name: h.spaceName@, revision: rev, members: count, devices: seq![d] }))
    } else if rev > spaces[k].revision {
        Ok(spaces.update(k, SpaceView { name: h.spaceName@, revision: rev, members: count, devices: spaces[k].devices.push(d), ..spaces[k] }))
    } else if rev == spaces[k].revision {
        if h.spaceName@ != spaces[k].name {
            Err(conflicting_names(h.spaceId@, rev))
        } else {
            let members = if spaces[k].members >= count { spaces[k].members } else { count };
            Ok(spaces.update(k, SpaceView { members: members, devices: spaces[k].devices.push(d), ..spaces[k] }))
        }
    } else {
        Ok(spaces.update(k, SpaceView { devices: spaces[k].devices.push(d), ..spaces[k] }))
    }
}

/// Position of the space with id `id` (the last one), or `None`.
fn find_space_index(spaces: &Vec<RuntimeRemoteDiscoveredSpace>, id: &str) -> (r: Option<usize>)
    ensures
        match r {
            Some(k) => k < spaces.len() && find_space(space_views(spaces@), id@) == k,
            None => find_space(space_views(spaces@), id@) == -1,
        },
{
    let ghost all = space_views(spaces@);
    let mut i: usize = spaces.len();
    assert(all.subrange(0, i as int) =~= all);
    while i > 0
        invariant
            i <= spaces.len(),
            all == space_views(spaces@),
            find_space(all, id@) == find_space(all.subrange(0, i as int), id@),
        decreases i,
    {
        let ghost prefix = all.subrange(0, i as int);
        assert(prefix.drop_last() =~= all.subrange(0, i - 1));
        if str_eq(spaces[i - 1].spaceId.as_str(), id) {
            return Some(i - 1);
        }
        i = i - 1;
    }
    None
}

/// The device listed for one answered endpoint.
pub fn discoveredDevice(endpoint: &RuntimeRemoteDiscoveryEndpoint, hello: &DiscoveredHello) -> (d: RuntimeRemoteDiscoveredDevice)
    ensures
        d == device_for(*endpoint, *hello),
{
    RuntimeRemoteDiscoveredDevice {
        deviceId: endpoint.deviceId.clone(),
        displayName: hello.displayName.clone(),
        userName: hello.userName.clone(),
        platform: hello.platform.clone(),
        model: hello.model.clone(),
        baseUrl: endpoint.baseUrl.clone(),
        hostname: endpoint.hostname.clone(),
        port: endpoint.port,
        tokenHash: endpoint.tokenHash.clone(),
        version: endpoint.version.clone(),
    }
}

/// Adds one answered endpoint to the spaces grouped so far: checks that the
/// runtime answered for the id it was discovered under and that its space has
/// members, then files it under its space, where a newer revision renames the
/// space and an equal one must agree on the name.
pub fn addDiscoveredDevice(
    spaces: &mut Vec<RuntimeRemoteDiscoveredSpace>,
    endpoint: &RuntimeRemoteDiscoveryEndpoint,
    hello: &DiscoveredHello,
) -> (r: Result<(), String>)
    ensures
        match r {
            Ok(()) => group_step(space_views(old(spaces)@), *endpoint, *hello) == Ok::<_, Seq<char>>(space_views(final(spaces)@)),
            Err(e) => group_step(space_views(old(spaces)@), *endpoint, *hello) == Err::<Seq<SpaceView>, _>(e@)
                && final(spaces)@ == old(spaces)@,
        },
{
    let ghost before = space_views(spaces@);
    if let Err(e) = ensureRemoteIdentityById(endpoint.deviceId.as_str(), hello.coreDeviceId.as_str()) {
        return Err(e);
    }
    if hello.deviceCount == 0 {
        return Err(String::from_str("discovered device space has no devices"));
    }
    let device = discoveredDevice(endpoint, hello);
    match find_space_index(spaces, hello.spaceId.as_str()) {
        None => {
            let mut devices: Vec<RuntimeRemoteDiscoveredDevice> = Vec::new();
            devices.push(device);
            let space = RuntimeRemoteDiscoveredSpace {
                spaceId: hello.spaceId.clone(),
                spaceName: hello.spaceName.clone(),
                spaceRevision: hello.spaceRevision,
                memberCount: hello.deviceCount,
                devices,
            };
            spaces.push(space);
            assert(space_views(spaces@) =~= before.push(space_view(space)));
            assert(space.devices@ =~= seq![device_for(*endpoint, *hello)]);
        },
        Some(k) => {
            let mut space = spaces.remove(k);
            assert(space_view(space) == before[k as int]);
            if hello.spaceRevision > space.spaceRevision {
                space.spaceName = hello.spaceName.clone();
                space.spaceRevision = hello.spaceRevision;
                space.memberCount = hello.deviceCount;
            } else if hello.spaceRevision == space.spaceRevision {
                if !str_eq(hello.spaceName.as_str(), space.spaceName.as_str()) {
                    let mut text = String::from_str("device space ");
                    text.append(hello.spaceId.as_str());
                    text.append(" advertises conflicting names at revision ");
                    let n = i64_to_string(hello.spaceRevision);
                    text.append(n.as_str());
                    spaces.insert(k, space);
                    assert(spaces@ =~= old(spaces)@);
                    return Err(text);
                }
                if space.memberCount < hello.deviceCount {
                    space.memberCount = hello.deviceCount;
                }
            }
            space.devices.push(device);
            spaces.insert(k, space);
            assert(space_views(spaces@) =~= before.update(k as int, space_view(space)));
        },
    }
    Ok(())
}

/// Devices are listed by display name, then by device id.
pub open spec fn device_le(a: RuntimeRemoteDiscoveredDevice, b: RuntimeRemoteDiscoveredDevice) -> bool {
    text_lt(a.displayName@, b.displayName@) || (a.displayName@ == b.displayName@ && text_le(a.deviceId@, b.deviceId@))
}

/// The devices are in listing order.
pub open spec fn devices_sorted(s: Seq<RuntimeRemoteDiscoveredDevice>) -> bool {
    forall|i: int, j: int| 0 <= i < j < s.len() ==> device_le(#[trigger] s[i], #[trigger] s[j])
}

proof fn lemma_device_le_total(a: RuntimeRemoteDiscoveredDevice, b: RuntimeRemoteDiscoveredDevice)
    ensures
        device_le(a, b) || device_le(b, a),
{
    lemma_text_le_total(a.displayName@, b.displayName@);
    lemma_text_le_total(a.deviceId@, b.deviceId@);
}

proof fn lemma_device_le_transitive(a: RuntimeRemoteDiscoveredDevice, b: RuntimeRemoteDiscoveredDevice, c: RuntimeRemoteDiscoveredDevice)
    requires
        device_le(a, b),
        device_le(b, c),
    ensures
        device_le(a, c),
{
    let (an, bn, cn) = (a.displayName@, b.displayName@, c.displayName@);
    if text_lt(an, bn) {
        if text_lt(bn, cn) {
            lemma_text_le_transitive(an, bn, cn);
        } else {
            lemma_text_le_reflexive(bn);
        }
        if an == cn {
            lemma_text_le_antisymmetric(an, bn);
        }
    } else if text_le(a.deviceId@, b.deviceId@) && text_le(b.deviceId@, c.deviceId@) {
        lemma_text_le_transitive(a.deviceId@, b.deviceId@, c.deviceId@);
    }
}

/// Orders devices by display name, then by device id.
pub fn sort_devices(v: Vec<RuntimeRemoteDiscoveredDevice>) -> (r: Vec<RuntimeRemoteDiscoveredDevice>)
    ensures
        r@.to_multiset() == v@.to_multiset(),
        devices_sorted(r@),
{
    broadcast use vstd::seq_lib::group_to_multiset_ensures;
    let mut rest = v;
    let mut out: Vec<RuntimeRemoteDiscoveredDevice> = Vec::new();
    while rest.len() > 0
        invariant
            out@.to_multiset().add(rest@.to_multiset()) == v@.to_multiset(),
            devices_sorted(out@),
        decreases rest.len(),
    {
        let ghost before_rest = rest@;
        let x = rest.pop().unwrap();
        assert(before_rest =~= rest@.push(x));
        let mut p: usize = 0;
        while p < out.len()
            invariant
                p <= out.len(),
                forall|i: int| 0 <= i < p ==> device_le(#[trigger] out@[i], x),
            ensures
                p <= out.len(),
                forall|i: int| 0 <= i < p ==> device_le(#[trigger] out@[i], x),
                p < out.len() ==> device_le(x, out@[p as int]),
            decreases out.len() - p,
        {
            let y = &out[p];
            let by_name = compare_text(x.displayName.as_str(), y.displayName.as_str());
            let x_first = match by_name {
                Some(b) => b,
                None => match compare_text(x.deviceId.as_str(), y.deviceId.as_str()) {
                    Some(b) => b,
                    None => true,
                },
            };
            if x_first {
                proof {
                    if by_name is None {
                        if x.deviceId@ == y.deviceId@ {
                            lemma_text_le_reflexive(x.deviceId@);
                        }
                    }
                }
                assert(device_le(x, out@[p as int]));
                break;
            }
            proof {
                lemma_device_le_total(x, out@[p as int]);
                if by_name is None {
                    lemma_text_le_total(x.deviceId@, out@[p as int].deviceId@);
                }
            }
            p = p + 1;
        }
        let ghost before_out = out@;
        proof {
            assert forall|j: int| p <= j < before_out.len() implies device_le(x, #[trigger] before_out[j]) by {
                if j > p {
                    lemma_device_le_transitive(x, before_out[p as int], before_out[j]);
                }
            }
        }
        out.insert(p, x);
        proof {
            assert(out@ == before_out.insert(p as int, x));
            assert forall|i: int, j: int| 0 <= i < j < out@.len() implies device_le(#[trigger] out@[i], #[trigger] out@[j]) by {
                if j == p {
                } else if i == p {
                    assert(out@[j] == before_out[j - 1]);
                } else {
                    let ii = if i < p { i } else { i - 1 };
                    let jj = if j < p { j } else { j - 1 };
                    assert(out@[i] == before_out[ii]);
                    assert(out@[j] == before_out[jj]);
                }
            }
            vstd::seq_lib::to_multiset_insert(before_out, p as int, x);
            vstd::seq_lib::to_multiset_build(rest@, x);
            assert(out@.to_multiset() == before_out.to_multiset().insert(x));
            assert(before_rest.to_multiset() == rest@.to_multiset().insert(x));
            assert(out@.to_multiset().add(rest@.to_multiset()) =~= before_out.to_multiset().add(before_rest.to_multiset()));
        }
    }
    assert(rest@.to_multiset() =~= Multiset::<RuntimeRemoteDiscoveredDevice>::empty());
    assert(out@.to_multiset().add(rest@.to_multiset()) =~= out@.to_multiset());
    out
}

/// The spaces after grouping the first `n` answered endpoints, in first-seen order.
pub open spec fn group_found(found: Seq<(RuntimeRemoteDiscoveryEndpoint, DiscoveredHello)>, n: int) -> Result<Seq<SpaceView>, Seq<char>>
    decreases n,
{
    if n <= 0 {
        Ok(Seq::empty())
    } else {
        match group_found(found, n - 1) {
            Err(e) => Err(e),
            Ok(spaces) => group_step(spaces, found[n - 1].0, found[n - 1].1),
        }
    }
}

/// No two grouped spaces share an id.
pub open spec fn distinct_space_ids(spaces: Seq<SpaceView>) -> bool {
    forall|a: int, b: int| 0 <= a < b < spaces.len() ==> spaces[a].id != spaces[b].id
}

proof fn lemma_find_space(spaces: Seq<SpaceView>, id: Seq<char>)
    ensures
        -1 <= find_space(spaces, id) < spaces.len(),
        find_space(spaces, id) >= 0 ==> spaces[find_space(spaces, id)].id == id,
        find_space(spaces, id) < 0 ==> forall|k: int| 0 <= k < spaces.len() ==> spaces[k].id != id,
        forall|k: int| 0 <= k < spaces.len() && spaces[k].id == id ==> k <= find_space(spaces, id),
    decreases spaces.len(),
{
    if spaces.len() > 0 {
        lemma_find_space(spaces.drop_last(), id);
        assert forall|k: int| 0 <= k < spaces.len() && spaces[k].id == id implies k <= find_space(spaces, id) by {
            if k < spaces.len() - 1 {
                assert(spaces.drop_last()[k] == spaces[k]);
            }
        }
        if find_space(spaces, id) < 0 {
            assert forall|k: int| 0 <= k < spaces.len() implies spaces[k].id != id by {
                if k < spaces.len() - 1 {
                    assert(spaces.drop_last()[k] == spaces[k]);
                }
            }
        }
    }
}

/// Grouping files every runtime under exactly one space: the grouped spaces
/// never share an id.
pub proof fn law_grouped_spaces_distinct(found: Seq<(RuntimeRemoteDiscoveryEndpoint, DiscoveredHello)>, n: int)
    requires
        0 <= n <= found.len(),
        group_found(found, n) is Ok,
    ensures
        distinct_space_ids(group_found(found, n)->Ok_0),
    decreases n,
{
    if n > 0 {
        let prev = group_found(found, n - 1);
        if prev is Err {
            assert(false);
        }
        law_grouped_spaces_distinct(found, n - 1);
        let spaces = prev->Ok_0;
        let h = found[n - 1].1;
        lemma_find_space(spaces, h.spaceId@);
        let next = group_found(found, n)->Ok_0;
        assert forall|a: int, b: int| 0 <= a < b < next.len() implies next[a].id != next[b].id by {
            if b < spaces.len() {
                assert(next[a].id == spaces[a].id);
                assert(next[b].id == spaces[b].id);
            }
        }
    }
}

/// A refusal while grouping is final.
proof fn lemma_group_err_stays(found: Seq<(RuntimeRemoteDiscoveryEndpoint, DiscoveredHello)>, n: int, m: int)
    requires
        0 <= n <= m,
        group_found(found, n) is Err,
    ensures
        group_found(found, m) == group_found(found, n),
    decreases m - n,
{
    if m > n {
        lemma_group_err_stays(found, n, m - 1);
    }
}

/// What identifies a grouped space apart from its devices.
pub open spec fn space_head(s: SpaceView) -> (Seq<char>, Seq<char>, int, int) {
    (s.id, s.name, s.revision, s.members)
}

/// `r` is `g` listed for the UI: as many spaces, in strictly increasing id
/// order, each one of `g` with its name, revision and member count, and with
/// the same devices ordered by display name and device id.
pub open spec fn listed_spaces(r: Seq<RuntimeRemoteDiscoveredSpace>, g: Seq<SpaceView>) -> bool {
    &&& r.len() == g.len()
    &&& forall|i: int, j: int| 0 <= i < j < r.len() ==> text_lt((#[trigger] r[i]).spaceId@, (#[trigger] r[j]).spaceId@)
    &&& forall|i: int| 0 <= i < r.len() ==> {
            let k = find_space(g, (#[trigger] r[i]).spaceId@);
            &&& 0 <= k < g.len()
            &&& space_head(g[k]) == space_head(space_view(r[i]))
            &&& devices_sorted(r[i].devices@)
            &&& r[i].devices@.to_multiset() == g[k].devices.to_multiset()
        }
}

/// Orders spaces with distinct ids by id.
pub fn sort_spaces(v: Vec<RuntimeRemoteDiscoveredSpace>) -> (r: Vec<RuntimeRemoteDiscoveredSpace>)
    requires
        distinct_space_ids(space_views(v@)),
    ensures
        r@.to_multiset() == v@.to_multiset(),
        forall|i: int, j: int| 0 <= i < j < r@.len() ==> text_lt((#[trigger] r@[i]).spaceId@, (#[trigger] r@[j]).spaceId@),
{
    broadcast use vstd::seq_lib::group_to_multiset_ensures;
    let mut rest = v;
    let mut out: Vec<RuntimeRemoteDiscoveredSpace> = Vec::new();
    assert(forall|k: int| 0 <= k < rest@.len() ==> space_views(rest@)[k].id == (#[trigger] rest@[k]).spaceId@);
    while rest.len() > 0
        invariant
            out@.to_multiset().add(rest@.to_multiset()) == v@.to_multiset(),
            forall|i: int, j: int| 0 <= i < j < out@.len() ==> text_lt((#[trigger] out@[i]).spaceId@, (#[trigger] out@[j]).spaceId@),
            forall|a: int, b: int| 0 <= a < b < rest@.len() ==> (#[trigger] rest@[a]).spaceId@ != (#[trigger] rest@[b]).spaceId@,
            forall|a: int, b: int| 0 <= a < out@.len() && 0 <= b < rest@.len() ==> (#[trigger] out@[a]).spaceId@ != (#[trigger] rest@[b]).spaceId@,
        decreases rest.len(),
    {
        let ghost before_rest = rest@;
        let x = rest.pop().unwrap();
        assert(before_rest =~= rest@.push(x));
        assert(forall|a: int| 0 <= a < out@.len() ==> (#[trigger] out@[a]).spaceId@ != x.spaceId@) by {
            assert forall|a: int| 0 <= a < out@.len() implies (#[trigger] out@[a]).spaceId@ != x.spaceId@ by {
                assert(before_rest[before_rest.len() - 1] == x);
            }
        }
        let mut p: usize = 0;
        while p < out.len()
            invariant
                p <= out.len(),
                forall|i: int| 0 <= i < p ==> text_lt((#[trigger] out@[i]).spaceId@, x.spaceId@),
            ensures
                p <= out.len(),
                forall|i: int| 0 <= i < p ==> text_lt((#[trigger] out@[i]).spaceId@, x.spaceId@),
                p < out.len() ==> text_le(x.spaceId@, out@[p as int].spaceId@),
            decreases out.len() - p,
        {
            let c = compare_text(x.spaceId.as_str(), out[p].spaceId.as_str());
            let x_first = match c {
                Some(b) => b,
                None => true,
            };
            if x_first {
                proof {
                    if c is None {
                        lemma_text_le_reflexive(x.spaceId@);
                    }
                }
                break;
            }
            p = p + 1;
        }
        let ghost before_out = out@;
        proof {
            assert forall|j: int| p <= j < before_out.len() implies text_lt(x.spaceId@, (#[trigger] before_out[j]).spaceId@) by {
                if j > p {
                    lemma_text_le_transitive(x.spaceId@, before_out[p as int].spaceId@, before_out[j].spaceId@);
                }
            }
        }
        out.insert(p, x);
        proof {
            assert(out@ == before_out.insert(p as int, x));
            assert forall|i: int, j: int| 0 <= i < j < out@.len() implies text_lt((#[trigger] out@[i]).spaceId@, (#[trigger] out@[j]).spaceId@) by {
                if j == p {
                } else if i == p {
                    assert(out@[j] == before_out[j - 1]);
                } else {
                    let ii = if i < p { i } else { i - 1 };
                    let jj = if j < p { j } else { j - 1 };
                    assert(out@[i] == before_out[ii]);
                    assert(out@[j] == before_out[jj]);
                }
            }
            assert forall|a: int, b: int| 0 <= a < out@.len() && 0 <= b < rest@.len() implies (#[trigger] out@[a]).spaceId@ != (#[trigger] rest@[b]).spaceId@ by {
                assert(rest@[b] == before_rest[b]);
                if a == p {
                    assert(before_rest[before_rest.len() - 1] == x);
                } else {
                    let aa = if a < p { a } else { a - 1 };
                    assert(out@[a] == before_out[aa]);
                }
            }
            assert forall|a: int, b: int| 0 <= a < b < rest@.len() implies (#[trigger] rest@[a]).spaceId@ != (#[trigger] rest@[b]).spaceId@ by {
                assert(rest@[a] == before_rest[a]);
                assert(rest@[b] == before_rest[b]);
            }
            vstd::seq_lib::to_multiset_insert(before_out, p as int, x);
            vstd::seq_lib::to_multiset_build(rest@, x);
            assert(out@.to_multiset().add(rest@.to_multiset()) =~= before_out.to_multiset().add(before_rest.to_multiset()));
        }
    }
    assert(rest@.to_multiset() =~= Multiset::<RuntimeRemoteDiscoveredSpace>::empty());
    assert(out@.to_multiset().add(rest@.to_multiset()) =~= out@.to_multiset());
    out
}

/// Groups discovered runtimes, each with its hello answer, by the space they
/// advertise, and lists the spaces by id and each space's devices by display
/// name and device id. The first refused answer ends the grouping.
pub fn groupDiscoveredSpaces(found: &[(RuntimeRemoteDiscoveryEndpoint, DiscoveredHello)]) -> (r: Result<Vec<RuntimeRemoteDiscoveredSpace>, String>)
    ensures
        match r {
            Ok(spaces) => group_found(found@, found@.len() as int) is Ok
                && listed_spaces(spaces@, group_found(found@, found@.len() as int)->Ok_0),
            Err(e) => group_found(found@, found@.len() as int) == Err::<Seq<SpaceView>, _>(e@),
        },
{
    broadcast use vstd::seq_lib::group_to_multiset_ensures;
    let mut spaces: Vec<RuntimeRemoteDiscoveredSpace> = Vec::new();
    let mut i: usize = 0;
    assert(space_views(spaces@) =~= Seq::<SpaceView>::empty());
    while i < found.len()
        invariant
            i <= found.len(),
            group_found(found@, i as int) == Ok::<_, Seq<char>>(space_views(spaces@)),
        decreases found.len() - i,
    {
        match addDiscoveredDevice(&mut spaces, &found[i].0, &found[i].1) {
            Ok(()) => {},
            Err(e) => {
                proof { lemma_group_err_stays(found@, i + 1, found@.len() as int); }
                return Err(e);
            },
        }
        i = i + 1;
    }
    let ghost g = space_views(spaces@);
    proof { law_grouped_spaces_distinct(found@, found@.len() as int); }
    let ghost n = spaces@.len();
    let mut inner: Vec<RuntimeRemoteDiscoveredSpace> = Vec::new();
    while spaces.len() > 0
        invariant
            g.len() == n,
            distinct_space_ids(g),
            spaces@.len() + inner@.len() == n,
            forall|k: int| 0 <= k < spaces@.len() ==> space_view(#[trigger] spaces@[k]) == g[k],
            forall|k: int| 0 <= k < inner@.len() ==> {
                &&& space_head(space_view(#[trigger] inner@[k])) == space_head(g[n - 1 - k])
                &&& devices_sorted(inner@[k].devices@)
                &&& inner@[k].devices@.to_multiset() == g[n - 1 - k].devices.to_multiset()
            },
        decreases spaces.len(),
    {
        let ghost at = spaces@.len() - 1;
        let space = spaces.pop().unwrap();
        assert(space_view(space) == g[at]);
        let sorted = sort_devices(space.devices);
        let item = RuntimeRemoteDiscoveredSpace {
            spaceId: space.spaceId,
            spaceName: space.spaceName,
            spaceRevision: space.spaceRevision,
            memberCount: space.memberCount,
            devices: sorted,
        };
        inner.push(item);
    }
    assert(distinct_space_ids(space_views(inner@))) by {
        assert forall|a: int, b: int| 0 <= a < b < space_views(inner@).len() implies space_views(inner@)[a].id != space_views(inner@)[b].id by {
            assert(space_head(space_view(inner@[a])) == space_head(g[n - 1 - a]));
            assert(space_head(space_view(inner@[b])) == space_head(g[n - 1 - b]));
        }
    }
    let result = sort_spaces(inner);
    proof {
        assert forall|i: int| 0 <= i < result@.len() implies {
            let k = find_space(g, (#[trigger] result@[i]).spaceId@);
            &&& 0 <= k < g.len()
            &&& space_head(g[k]) == space_head(space_view(result@[i]))
            &&& devices_sorted(result@[i].devices@)
            &&& result@[i].devices@.to_multiset() == g[k].devices.to_multiset()
        } by {
            let x = result@[i];
            assert(result@.to_multiset().count(x) > 0);
            assert(inner@.to_multiset().count(x) > 0);
            assert(inner@.contains(x));
            let m = choose|m: int| 0 <= m < inner@.len() && inner@[m] == x;
            let j = n - 1 - m;
            lemma_find_space(g, x.spaceId@);
            assert(g[j].id == x.spaceId@);
            assert(find_space(g, x.spaceId@) >= j);
            if find_space(g, x.spaceId@) != j {
                assert(g[find_space(g, x.spaceId@)].id == g[j].id);
            }
        }
        assert(result@.len() == inner@.len()) by {
            assert(result@.to_multiset().len() == inner@.to_multiset().len());
        }
    }
    Ok(result)
}

} // verus!
