//! Decisions of the space persistence synchronizer: which direct peers may be
//! synchronized, in which order merged operations apply, which content blobs
//! a page needs and which way each must travel, and how blob chunks advance.
use vstd::prelude::*;
use vstd::multiset::Multiset;
use crate::link_access::PairedRemoteSessionRecord;
use crate::order::{compare_text, lemma_text_le_antisymmetric, lemma_text_le_reflexive, lemma_text_le_total, lemma_text_le_transitive, text_le, text_lt};
use crate::text::{concat, join, join_strings, str_eq, views};

verus! {

/// `multiple direct pairings target CoreNode <id>: <first>, <second>`.
pub open spec fn ambiguous_peer(id: Seq<char>, first: Seq<char>, second: Seq<char>) -> Seq<char> {
    "multiple direct pairings target CoreNode "@ + id + ": "@ + first + ", "@ + second
}

/// The peer targeted by the `i`-th session.
pub open spec fn session_peer(sessions: Seq<(String, PairedRemoteSessionRecord)>, i: int) -> Seq<char> {
    sessions[i].1.coreDeviceId@
}

/// The first `n` sessions target pairwise different peers.
pub open spec fn peers_distinct(sessions: Seq<(String, PairedRemoteSessionRecord)>, n: int) -> bool {
    forall|c: int, d: int| 0 <= c < d < n ==> #[trigger] session_peer(sessions, c) != #[trigger] session_peer(sessions, d)
}

/// Validates that every direct space peer has one unambiguous outbound
/// session: the first session, in key order, that targets a peer already
/// targeted by an earlier one is refused together with that earlier one.
pub fn validateDirectPeerSessions(sessions: &[(String, PairedRemoteSessionRecord)]) -> (r: Result<(), String>)
    ensures
        r is Ok <==> peers_distinct(sessions@, sessions@.len() as int),
        r matches Err(e) ==> exists|a: int, b: int| 0 <= a < b < sessions@.len()
            && #[trigger] session_peer(sessions@, a) == #[trigger] session_peer(sessions@, b)
            && peers_distinct(sessions@, b)
            && e@ == ambiguous_peer(session_peer(sessions@, b), sessions@[a].0@, sessions@[b].0@),
{
    let mut b: usize = 0;
    while b < sessions.len()
        invariant
            b <= sessions.len(),
            peers_distinct(sessions@, b as int),
        decreases sessions.len() - b,
    {
        let mut a: usize = 0;
        let mut found = false;
        while a < b
            invariant
                a <= b < sessions.len(),
                forall|c: int| 0 <= c < a ==> #[trigger] session_peer(sessions@, c) != session_peer(sessions@, b as int),
                found ==> a < b && session_peer(sessions@, a as int) == session_peer(sessions@, b as int),
            ensures
                found ==> a < b && session_peer(sessions@, a as int) == session_peer(sessions@, b as int),
                !found ==> forall|c: int| 0 <= c < b ==> #[trigger] session_peer(sessions@, c) != session_peer(sessions@, b as int),
            decreases b - a,
        {
            if str_eq(sessions[a].1.coreDeviceId.as_str(), sessions[b].1.coreDeviceId.as_str()) {
                found = true;
                break;
            }
            a = a + 1;
        }
        if found {
            let mut text = String::from_str("multiple direct pairings target CoreNode ");
            text.append(sessions[b].1.coreDeviceId.as_str());
            text.append(": ");
            text.append(sessions[a].0.as_str());
            text.append(", ");
            text.append(sessions[b].0.as_str());
            proof {
                assert(session_peer(sessions@, a as int) == session_peer(sessions@, b as int));
                assert(!peers_distinct(sessions@, sessions@.len() as int));
            }
            return Err(text);
        }
        b = b + 1;
    }
    Ok(())
}

/// The size of one blob chunk read per request, in bytes.
pub const SYNC_BLOB_CHUNK_BYTES: i64 = 65536;

/// `synchronization blob <hash> ended before its declared size`.
pub open spec fn blob_ended_early(hash: Seq<char>) -> Seq<char> {
    "synchronization blob "@ + hash + " ended before its declared size"@
}

/// `synchronization blob <hash> exceeded its declared size`.
pub open spec fn blob_exceeded(hash: Seq<char>) -> Seq<char> {
    "synchronization blob "@ + hash + " exceeded its declared size"@
}

/// The offset after one received chunk of a blob of declared size `size`, or
/// why the chunk is refused: an empty chunk ends the blob early, and no chunk
/// may reach past the declared size.
pub open spec fn next_blob_offset(hash: Seq<char>, size: int, offset: int, chunk_len: int) -> Result<int, Seq<char>> {
    if chunk_len == 0 {
        Err(blob_ended_early(hash))
    } else if chunk_len > i64::MAX {
        Err("synchronization blob chunk length does not fit i64"@)
    } else if offset + chunk_len > i64::MAX || offset + chunk_len < i64::MIN {
        Err("synchronization blob offset overflow"@)
    } else if offset + chunk_len > size {
        Err(blob_exceeded(hash))
    } else {
        Ok(offset + chunk_len)
    }
}

/// Checks one non-empty blob chunk before it is sent and returns the next
/// absolute offset.
pub fn blobChunkOffset(contentHash: &str, size: i64, offset: i64, chunkLength: usize) -> (r: Result<i64, String>)
    ensures
        match r {
            Ok(n) => next_blob_offset(contentHash@, size as int, offset as int, chunkLength as int) == Ok::<int, Seq<char>>(n as int),
            Err(e) => next_blob_offset(contentHash@, size as int, offset as int, chunkLength as int) == Err::<int, Seq<char>>(e@),
        },
{
    if chunkLength == 0 {
        let mut text = String::from_str("synchronization blob ");
        text.append(contentHash);
        text.append(" ended before its declared size");
        return Err(text);
    }
    if chunkLength as u128 > 9223372036854775807u128 {
        return Err(String::from_str("synchronization blob chunk length does not fit i64"));
    }
    let length = chunkLength as i64;
    let next = match offset.checked_add(length) {
        Some(n) => n,
        None => return Err(String::from_str("synchronization blob offset overflow")),
    };
    if next > size {
        let mut text = String::from_str("synchronization blob ");
        text.append(contentHash);
        text.append(" exceeded its declared size");
        return Err(text);
    }
    Ok(next)
}

/// A content-addressed blob that a synchronization page refers to.
#[derive(Clone, Debug)]
pub struct RuntimeFileSyncReference {
    pub contentHash: String,
    pub size: i64,
}

/// `synchronization blob <hash> has conflicting declared sizes`.
pub open spec fn conflicting_sizes(hash: Seq<char>) -> Seq<char> {
    "synchronization blob "@ + hash + " has conflicting declared sizes"@
}

/// The blobs a page needs, each once: the references in page order, without
/// those whose hash appears again later (a later reference replaces an earlier one).
pub open spec fn last_reference(refs: Seq<RuntimeFileSyncReference>, i: int) -> bool {
    forall|j: int| i < j < refs.len() ==> (#[trigger] refs[j]).contentHash@ != refs[i].contentHash@
}

/// `x` is the last reference, among the first `bound`, to its blob.
pub open spec fn from_last_reference(refs: Seq<RuntimeFileSyncReference>, x: RuntimeFileSyncReference, bound: int) -> bool {
    exists|j: int| 0 <= j < bound && #[trigger] last_reference(refs, j)
        && x.contentHash@ == refs[j].contentHash@ && x.size == refs[j].size
}

/// Some entry of `v` refers to the blob `hash`.
pub open spec fn holds_blob(v: Seq<RuntimeFileSyncReference>, hash: Seq<char>) -> bool {
    exists|k: int| 0 <= k < v.len() && (#[trigger] v[k]).contentHash@ == hash
}

/// Two references to one blob declare different sizes.
pub open spec fn sizes_conflict(refs: Seq<RuntimeFileSyncReference>) -> bool {
    exists|a: int, b: int| 0 <= a < b < refs.len()
        && (#[trigger] refs[a]).contentHash@ == (#[trigger] refs[b]).contentHash@ && refs[a].size != refs[b].size
}

/// Collects the distinct blobs that a page requires (the references of its
/// operations, in order), refusing one blob declared with two sizes.
pub fn requiredBlobs(refs: &Vec<RuntimeFileSyncReference>) -> (r: Result<Vec<RuntimeFileSyncReference>, String>)
    ensures
        r is Ok <==> !sizes_conflict(refs@),
        r matches Err(e) ==> exists|a: int, b: int| 0 <= a < b < refs@.len()
            && (#[trigger] refs@[a]).contentHash@ == (#[trigger] refs@[b]).contentHash@ && refs@[a].size != refs@[b].size
            && e@ == conflicting_sizes(refs@[b].contentHash@),
        r matches Ok(v) ==> forall|k: int| 0 <= k < v@.len() ==> from_last_reference(refs@, #[trigger] v@[k], refs@.len() as int),
        r matches Ok(v) ==> forall|i: int| 0 <= i < refs@.len() ==> holds_blob(v@, (#[trigger] refs@[i]).contentHash@),
        r matches Ok(v) ==> forall|a: int, b: int| 0 <= a < b < v@.len() ==> (#[trigger] v@[a]).contentHash@ != (#[trigger] v@[b]).contentHash@,
{
    let mut b: usize = 0;
    while b < refs.len()
        invariant
            b <= refs.len(),
            forall|a: int, c: int| 0 <= a < c < b && (#[trigger] refs@[a]).contentHash@ == (#[trigger] refs@[c]).contentHash@ ==> refs@[a].size == refs@[c].size,
        decreases refs.len() - b,
    {
        let mut a: usize = 0;
        while a < b
            invariant
                a <= b < refs.len(),
                forall|c: int| 0 <= c < a && (#[trigger] refs@[c]).contentHash@ == refs@[b as int].contentHash@ ==> refs@[c].size == refs@[b as int].size,
            decreases b - a,
        {
            if str_eq(refs[a].contentHash.as_str(), refs[b].contentHash.as_str()) && refs[a].size != refs[b].size {
                let mut text = String::from_str("synchronization blob ");
                text.append(refs[b].contentHash.as_str());
                text.append(" has conflicting declared sizes");
                return Err(text);
            }
            a = a + 1;
        }
        b = b + 1;
    }
    let mut out: Vec<RuntimeFileSyncReference> = Vec::new();
    let mut i: usize = 0;
    while i < refs.len()
        invariant
            i <= refs.len(),
            !sizes_conflict(refs@),
            forall|k: int| 0 <= k < out@.len() ==> from_last_reference(refs@, #[trigger] out@[k], i as int),
            forall|j: int| 0 <= j < i && last_reference(refs@, j) ==> holds_blob(out@, (#[trigger] refs@[j]).contentHash@),
            forall|a: int, c: int| 0 <= a < c < out@.len() ==> (#[trigger] out@[a]).contentHash@ != (#[trigger] out@[c]).contentHash@,
            forall|k: int, j: int| 0 <= k < out@.len() && i <= j < refs@.len() ==> (#[trigger] out@[k]).contentHash@ != (#[trigger] refs@[j]).contentHash@,
        decreases refs.len() - i,
    {
        let mut later = false;
        let mut j: usize = i + 1;
        while j < refs.len()
            invariant
                i < refs.len(),
                i + 1 <= j <= refs.len(),
                !later ==> forall|m: int| i < m < j ==> (#[trigger] refs@[m]).contentHash@ != refs@[i as int].contentHash@,
                later ==> exists|m: int| i < m < refs@.len() && (#[trigger] refs@[m]).contentHash@ == refs@[i as int].contentHash@,
            decreases refs.len() - j,
        {
            if str_eq(refs[j].contentHash.as_str(), refs[i].contentHash.as_str()) {
                later = true;
            }
            j = j + 1;
        }
        if !later {
            let item = RuntimeFileSyncReference { contentHash: refs[i].contentHash.clone(), size: refs[i].size };
            let ghost before = out@;
            out.push(item);
            proof {
                assert(last_reference(refs@, i as int));
                assert(out@[out@.len() - 1] == item);
                assert forall|k: int| 0 <= k < out@.len() implies from_last_reference(refs@, #[trigger] out@[k], i + 1) by {
                    if k < before.len() {
                        assert(out@[k] == before[k]);
                        assert(from_last_reference(refs@, before[k], i as int));
                        let jj = choose|jj: int| 0 <= jj < i && #[trigger] last_reference(refs@, jj)
                            && before[k].contentHash@ == refs@[jj].contentHash@ && before[k].size == refs@[jj].size;
                        assert(last_reference(refs@, jj));
                    } else {
                        assert(out@[k].contentHash@ == refs@[i as int].contentHash@);
                        assert(last_reference(refs@, i as int));
                    }
                }
                assert forall|jj: int| 0 <= jj < i + 1 && last_reference(refs@, jj) implies holds_blob(out@, (#[trigger] refs@[jj]).contentHash@) by {
                    if jj < i {
                        assert(holds_blob(before, refs@[jj].contentHash@));
                        let k = choose|k: int| 0 <= k < before.len() && (#[trigger] before[k]).contentHash@ == refs@[jj].contentHash@;
                        assert(out@[k] == before[k]);
                    } else {
                        assert(out@[before.len() as int].contentHash@ == refs@[jj].contentHash@);
                    }
                }
                assert forall|a: int, c: int| 0 <= a < c < out@.len() implies (#[trigger] out@[a]).contentHash@ != (#[trigger] out@[c]).contentHash@ by {
                    if c == before.len() {
                        assert(out@[a] == before[a]);
                    } else {
                        assert(out@[a] == before[a]);
                        assert(out@[c] == before[c]);
                    }
                }
                assert forall|k: int, jj: int| 0 <= k < out@.len() && i + 1 <= jj < refs@.len() implies (#[trigger] out@[k]).contentHash@ != (#[trigger] refs@[jj]).contentHash@ by {
                    if k < before.len() {
                        assert(out@[k] == before[k]);
                    }
                }
            }
        } else {
            proof {
                assert forall|k: int| 0 <= k < out@.len() implies from_last_reference(refs@, #[trigger] out@[k], i + 1) by {
                    assert(from_last_reference(refs@, out@[k], i as int));
                    let jj = choose|jj: int| 0 <= jj < i && #[trigger] last_reference(refs@, jj)
                        && out@[k].contentHash@ == refs@[jj].contentHash@ && out@[k].size == refs@[jj].size;
                    assert(last_reference(refs@, jj));
                }
                assert(!last_reference(refs@, i as int));
            }
        }
        i = i + 1;
    }
    proof {
        assert forall|i: int| 0 <= i < refs@.len() implies holds_blob(out@, (#[trigger] refs@[i]).contentHash@) by {
            lemma_has_last_reference(refs@, i);
            let j = choose|j: int| i <= j < refs@.len() && last_reference(refs@, j) && refs@[j].contentHash@ == refs@[i].contentHash@;
            assert(holds_blob(out@, refs@[j].contentHash@));
        }
    }
    Ok(out)
}

/// Every reference has a last reference to the same blob at or after it.
proof fn lemma_has_last_reference(refs: Seq<RuntimeFileSyncReference>, i: int)
    requires
        0 <= i < refs.len(),
    ensures
        exists|j: int| i <= j < refs.len() && last_reference(refs, j) && refs[j].contentHash@ == refs[i].contentHash@,
    decreases refs.len() - i,
{
    if last_reference(refs, i) {
        assert(refs[i].contentHash@ == refs[i].contentHash@);
    } else {
        let m = choose|m: int| i < m < refs.len() && (#[trigger] refs[m]).contentHash@ == refs[i].contentHash@;
        lemma_has_last_reference(refs, m);
    }
}

/// Which way one required blob travels between the two direct peers.
#[derive(Clone, Copy, Debug, PartialEq, Eq, Structural)]
pub enum BlobTransfer {
    Present,
    PushLocalToRemote,
    PushRemoteToLocal,
}

/// `synchronization blob <hash> is missing from both direct peers`.
pub open spec fn blob_missing(hash: Seq<char>) -> Seq<char> {
    "synchronization blob "@ + hash + " is missing from both direct peers"@
}

/// Decides the transfer of one required blob from whether each peer holds it.
pub fn blobTransfer(contentHash: &str, localHasBlob: bool, remoteHasBlob: bool) -> (r: Result<BlobTransfer, String>)
    ensures
        localHasBlob && remoteHasBlob ==> r == Ok::<BlobTransfer, String>(BlobTransfer::Present),
        localHasBlob && !remoteHasBlob ==> r == Ok::<BlobTransfer, String>(BlobTransfer::PushLocalToRemote),
        !localHasBlob && remoteHasBlob ==> r == Ok::<BlobTransfer, String>(BlobTransfer::PushRemoteToLocal),
        !localHasBlob && !remoteHasBlob ==> (r matches Err(e) && e@ == blob_missing(contentHash@)),
{
    if localHasBlob && remoteHasBlob {
        Ok(BlobTransfer::Present)
    } else if localHasBlob {
        Ok(BlobTransfer::PushLocalToRemote)
    } else if remoteHasBlob {
        Ok(BlobTransfer::PushRemoteToLocal)
    } else {
        let mut text = String::from_str("synchronization blob ");
        text.append(contentHash);
        text.append(" is missing from both direct peers");
        Err(text)
    }
}

/// The error reported for one peer whose synchronization failed.
#[derive(Clone, Copy, Debug, PartialEq, Eq, Structural)]
pub enum PeerSyncFailure {
    PeerLink,
    Persistence,
}

/// `CoreNode <id> Peer Link: <error>` or `CoreNode <id> persistence sync: <error>`.
pub open spec fn peer_failure_text(device: Seq<char>, stage: PeerSyncFailure, error: Seq<char>) -> Seq<char> {
    match stage {
        PeerSyncFailure::PeerLink => "CoreNode "@ + device + " Peer Link: "@ + error,
        PeerSyncFailure::Persistence => "CoreNode "@ + device + " persistence sync: "@ + error,
    }
}

/// The outcome of one pass over all direct peers: success when no peer
/// failed, else every failure, in peer order, joined by `" | "`.
pub fn synchronizationOutcome(failures: &Vec<(String, PeerSyncFailure, String)>) -> (r: Result<(), String>)
    ensures
        r is Ok <==> failures@.len() == 0,
        r matches Err(e) ==> e@ == join(failures@.map_values(|f: (String, PeerSyncFailure, String)| peer_failure_text(f.0@, f.1, f.2@)), " | "@),
{
    if failures.len() == 0 {
        return Ok(());
    }
    let mut texts: Vec<String> = Vec::new();
    let mut i: usize = 0;
    while i < failures.len()
        invariant
            i <= failures.len(),
            views(texts@) =~= failures@.subrange(0, i as int).map_values(|f: (String, PeerSyncFailure, String)| peer_failure_text(f.0@, f.1, f.2@)),
        decreases failures.len() - i,
    {
        let f = &failures[i];
        let mut text = concat("CoreNode ", f.0.as_str());
        match f.1 {
            PeerSyncFailure::PeerLink => text.append(" Peer Link: "),
            PeerSyncFailure::Persistence => text.append(" persistence sync: "),
        }
        text.append(f.2.as_str());
        let ghost before = texts@;
        texts.push(text);
        proof {
            assert(views(texts@) =~= views(before).push(text@));
            assert(failures@.subrange(0, i + 1) =~= failures@.subrange(0, i as int).push(failures@[i as int]));
        }
        i = i + 1;
    }
    assert(failures@.subrange(0, failures@.len() as int) =~= failures@);
    Err(join_strings(&texts, " | "))
}

/// The fields by which synchronized operations are ordered and identified.
#[derive(Clone, Debug)]
pub struct SyncOperationOrder {
    pub opId: String,
    pub originDeviceId: String,
    pub sequence: i64,
    pub createdAt: i64,
}

/// Application order: by creation time, origin device, sequence, then operation id.
pub open spec fn op_lt(a: SyncOperationOrder, b: SyncOperationOrder) -> bool {
    ||| a.createdAt < b.createdAt
    ||| a.createdAt == b.createdAt && text_lt(a.originDeviceId@, b.originDeviceId@)
    ||| a.createdAt == b.createdAt && a.originDeviceId@ == b.originDeviceId@ && a.sequence < b.sequence
    ||| a.createdAt == b.createdAt && a.originDeviceId@ == b.originDeviceId@ && a.sequence == b.sequence && text_lt(a.opId@, b.opId@)
}

proof fn lemma_text_lt_transitive(a: Seq<char>, b: Seq<char>, c: Seq<char>)
    requires
        text_lt(a, b),
        text_lt(b, c),
    ensures
        text_lt(a, c),
{
    lemma_text_le_transitive(a, b, c);
    if a == c {
        lemma_text_le_antisymmetric(a, b);
    }
}

proof fn lemma_op_lt_transitive(a: SyncOperationOrder, b: SyncOperationOrder, c: SyncOperationOrder)
    requires
        op_lt(a, b),
        op_lt(b, c),
    ensures
        op_lt(a, c),
{
    if a.createdAt == b.createdAt && b.createdAt == c.createdAt {
        if text_lt(a.originDeviceId@, b.originDeviceId@) && text_lt(b.originDeviceId@, c.originDeviceId@) {
            lemma_text_lt_transitive(a.originDeviceId@, b.originDeviceId@, c.originDeviceId@);
        }
        if text_lt(a.opId@, b.opId@) && text_lt(b.opId@, c.opId@) {
            lemma_text_lt_transitive(a.opId@, b.opId@, c.opId@);
        }
    }
}

proof fn lemma_op_lt_total(a: SyncOperationOrder, b: SyncOperationOrder)
    requires
        a.opId@ != b.opId@,
    ensures
        op_lt(a, b) || op_lt(b, a),
{
    lemma_text_le_total(a.originDeviceId@, b.originDeviceId@);
    lemma_text_le_total(a.opId@, b.opId@);
}

/// Whether `a` comes before `b` in application order.
fn op_before(a: &SyncOperationOrder, b: &SyncOperationOrder) -> (r: bool)
    ensures
        r == op_lt(*a, *b),
{
    if a.createdAt != b.createdAt {
        return a.createdAt < b.createdAt;
    }
    match compare_text(a.originDeviceId.as_str(), b.originDeviceId.as_str()) {
        Some(lt) => return lt,
        None => {},
    }
    if a.sequence != b.sequence {
        return a.sequence < b.sequence;
    }
    match compare_text(a.opId.as_str(), b.opId.as_str()) {
        Some(lt) => lt,
        None => false,
    }
}

/// Position `i` holds the last operation with its id among `ops`.
pub open spec fn last_op<P>(ops: Seq<(SyncOperationOrder, P)>, i: int) -> bool {
    forall|j: int| i < j < ops.len() ==> (#[trigger] ops[j]).0.opId@ != ops[i].0.opId@
}

/// `x` is the last operation with its id among `ops[from..]`.
pub open spec fn kept_op<P>(ops: Seq<(SyncOperationOrder, P)>, x: (SyncOperationOrder, P), from: int) -> bool {
    exists|i: int| from <= i < ops.len() && #[trigger] last_op(ops, i) && ops[i] == x
}

/// Some entry of `v` has operation id `id`.
pub open spec fn holds_op<P>(v: Seq<(SyncOperationOrder, P)>, id: Seq<char>) -> bool {
    exists|k: int| 0 <= k < v.len() && (#[trigger] v[k]).0.opId@ == id
}

/// Inserts `x`, whose id is new, into operations in application order with
/// pairwise different ids, and returns its position.
fn insert_in_order<P>(out: &mut Vec<(SyncOperationOrder, P)>, x: (SyncOperationOrder, P)) -> (p: usize)
    requires
        forall|a: int, b: int| 0 <= a < b < old(out)@.len() ==> op_lt((#[trigger] old(out)@[a]).0, (#[trigger] old(out)@[b]).0),
        forall|a: int, b: int| 0 <= a < b < old(out)@.len() ==> (#[trigger] old(out)@[a]).0.opId@ != (#[trigger] old(out)@[b]).0.opId@,
        forall|k: int| 0 <= k < old(out)@.len() ==> (#[trigger] old(out)@[k]).0.opId@ != x.0.opId@,
    ensures
        p <= old(out)@.len(),
        final(out)@ == old(out)@.insert(p as int, x),
        forall|a: int, b: int| 0 <= a < b < final(out)@.len() ==> op_lt((#[trigger] final(out)@[a]).0, (#[trigger] final(out)@[b]).0),
        forall|a: int, b: int| 0 <= a < b < final(out)@.len() ==> (#[trigger] final(out)@[a]).0.opId@ != (#[trigger] final(out)@[b]).0.opId@,
{
    let mut p: usize = 0;
    while p < out.len()
        invariant
            p <= out.len(),
            out@ == old(out)@,
            forall|k: int| 0 <= k < out@.len() ==> (#[trigger] out@[k]).0.opId@ != x.0.opId@,
            forall|i: int| 0 <= i < p ==> op_lt((#[trigger] out@[i]).0, x.0),
        ensures
            p <= out.len(),
            out@ == old(out)@,
            forall|i: int| 0 <= i < p ==> op_lt((#[trigger] out@[i]).0, x.0),
            p < out.len() ==> op_lt(x.0, out@[p as int].0),
        decreases out.len() - p,
    {
        if op_before(&x.0, &out[p].0) {
            break;
        }
        proof { lemma_op_lt_total(x.0, out@[p as int].0); }
        p = p + 1;
    }
    let ghost before = out@;
    proof {
        assert forall|j: int| p <= j < before.len() implies op_lt(x.0, (#[trigger] before[j]).0) by {
            if j > p {
                lemma_op_lt_transitive(x.0, before[p as int].0, before[j].0);
            }
        }
    }
    out.insert(p, x);
    proof {
        assert(out@ == before.insert(p as int, x));
        assert forall|a: int, b: int| 0 <= a < b < out@.len() implies op_lt((#[trigger] out@[a]).0, (#[trigger] out@[b]).0) by {
            if b == p {
            } else if a == p {
                assert(out@[b] == before[b - 1]);
            } else {
                let aa = if a < p { a } else { a - 1 };
                let bb = if b < p { b } else { b - 1 };
                assert(out@[a] == before[aa]);
                assert(out@[b] == before[bb]);
            }
        }
        assert forall|a: int, b: int| 0 <= a < b < out@.len() implies (#[trigger] out@[a]).0.opId@ != (#[trigger] out@[b]).0.opId@ by {
            if b == p {
            } else if a == p {
                assert(out@[b] == before[b - 1]);
            } else {
                let aa = if a < p { a } else { a - 1 };
                let bb = if b < p { b } else { b - 1 };
                assert(out@[a] == before[aa]);
                assert(out@[b] == before[bb]);
            }
        }
    }
    p
}

/// Merges two operation pages into their deterministic application order:
/// one entry per operation id, the one that comes last when the right page
/// follows the left one, ordered by creation time, origin device, sequence
/// and operation id.
#[verifier::rlimit(40)]
pub fn mergeSyncOperations<P>(left: Vec<(SyncOperationOrder, P)>, right: Vec<(SyncOperationOrder, P)>) -> (r: Vec<(SyncOperationOrder, P)>)
    ensures
        forall|k: int| 0 <= k < r@.len() ==> kept_op(left@ + right@, #[trigger] r@[k], 0),
        forall|i: int| 0 <= i < (left@ + right@).len() && #[trigger] last_op(left@ + right@, i) ==> r@.contains((left@ + right@)[i]),
        forall|a: int, b: int| 0 <= a < b < r@.len() ==> op_lt((#[trigger] r@[a]).0, (#[trigger] r@[b]).0),
{
    let ghost all = left@ + right@;
    let mut rest = left;
    let mut tail = right;
    rest.append(&mut tail);
    assert(rest@ =~= all);
    let mut out: Vec<(SyncOperationOrder, P)> = Vec::new();
    while rest.len() > 0
        invariant
            rest@ =~= all.take(rest@.len() as int),
            rest@.len() <= all.len(),
            forall|k: int| 0 <= k < out@.len() ==> kept_op(all, #[trigger] out@[k], rest@.len() as int),
            forall|i: int| rest@.len() <= i < all.len() && #[trigger] last_op(all, i) ==> out@.contains(all[i]),
            forall|i: int| rest@.len() <= i < all.len() ==> holds_op(out@, (#[trigger] all[i]).0.opId@),
            forall|k: int| 0 <= k < out@.len() ==> exists|i: int| rest@.len() <= i < all.len() && (#[trigger] out@[k]).0.opId@ == (#[trigger] all[i]).0.opId@,
            forall|a: int, b: int| 0 <= a < b < out@.len() ==> op_lt((#[trigger] out@[a]).0, (#[trigger] out@[b]).0),
            forall|a: int, b: int| 0 <= a < b < out@.len() ==> (#[trigger] out@[a]).0.opId@ != (#[trigger] out@[b]).0.opId@,
        decreases rest.len(),
    {
        let ghost m = rest@.len() - 1;
        let x = rest.pop().unwrap();
        assert(x == all[m]);
        let mut seen = false;
        let mut q: usize = 0;
        while q < out.len()
            invariant
                q <= out.len(),
                !seen ==> forall|k: int| 0 <= k < q ==> (#[trigger] out@[k]).0.opId@ != x.0.opId@,
                seen ==> holds_op(out@, x.0.opId@),
            decreases out.len() - q,
        {
            if str_eq(out[q].0.opId.as_str(), x.0.opId.as_str()) {
                seen = true;
            }
            q = q + 1;
        }
        if seen {
            proof {
                let k = choose|k: int| 0 <= k < out@.len() && (#[trigger] out@[k]).0.opId@ == x.0.opId@;
                let j = choose|j: int| m + 1 <= j < all.len() && (#[trigger] out@[k]).0.opId@ == (#[trigger] all[j]).0.opId@;
                assert(!last_op(all, m));
                assert forall|k: int| 0 <= k < out@.len() implies kept_op(all, #[trigger] out@[k], m) by {
                    let i = choose|i: int| m + 1 <= i < all.len() && #[trigger] last_op(all, i) && all[i] == out@[k];
                }
                assert forall|k: int| 0 <= k < out@.len() implies exists|i: int| m <= i < all.len() && (#[trigger] out@[k]).0.opId@ == (#[trigger] all[i]).0.opId@ by {
                    let i = choose|i: int| m + 1 <= i < all.len() && (#[trigger] out@[k]).0.opId@ == (#[trigger] all[i]).0.opId@;
                }
            }
        } else {
            proof {
                assert(last_op(all, m)) by {
                    assert forall|j: int| m < j < all.len() implies (#[trigger] all[j]).0.opId@ != all[m].0.opId@ by {
                        assert(holds_op(out@, all[j].0.opId@));
                    }
                }
            }
            let ghost before = out@;
            let p = insert_in_order(&mut out, x);
            proof {
                assert forall|k: int| 0 <= k < out@.len() implies kept_op(all, #[trigger] out@[k], m) by {
                    if k == p {
                        assert(last_op(all, m));
                    } else {
                        let kk = if k < p { k } else { k - 1 };
                        assert(out@[k] == before[kk]);
                        let i = choose|i: int| m + 1 <= i < all.len() && #[trigger] last_op(all, i) && all[i] == before[kk];
                    }
                }
                assert forall|i: int| m <= i < all.len() && #[trigger] last_op(all, i) implies out@.contains(all[i]) by {
                    if i == m {
                        assert(out@[p as int] == all[i]);
                    } else {
                        let k = choose|k: int| 0 <= k < before.len() && before[k] == all[i];
                        let kk = if k < p { k } else { k + 1 };
                        assert(out@[kk] == all[i]);
                    }
                }
                assert forall|i: int| m <= i < all.len() implies holds_op(out@, (#[trigger] all[i]).0.opId@) by {
                    if i == m {
                        assert(out@[p as int].0.opId@ == all[i].0.opId@);
                    } else {
                        assert(holds_op(before, all[i].0.opId@));
                        let k = choose|k: int| 0 <= k < before.len() && (#[trigger] before[k]).0.opId@ == all[i].0.opId@;
                        let kk = if k < p { k } else { k + 1 };
                        assert(out@[kk] == before[k]);
                    }
                }
                assert forall|k: int| 0 <= k < out@.len() implies exists|i: int| m <= i < all.len() && (#[trigger] out@[k]).0.opId@ == (#[trigger] all[i]).0.opId@ by {
                    if k == p {
                        assert(out@[k].0.opId@ == all[m].0.opId@);
                    } else {
                        let kk = if k < p { k } else { k - 1 };
                        assert(out@[k] == before[kk]);
                        let i = choose|i: int| m + 1 <= i < all.len() && (#[trigger] before[kk]).0.opId@ == (#[trigger] all[i]).0.opId@;
                    }
                }
            }
        }
    }
    out
}

/// Where one peer synchronization stands.
#[derive(Clone, Copy, Debug, PartialEq, Eq, Structural)]
pub enum PeerSyncPhase {
    AwaitSessionInfo,
    AwaitVersions,
    AwaitProjection,
    AwaitBootstrapReset,
    AwaitPage,
    AwaitPageApplied { operations: usize },
    Finished,
}

/// The synchronization of one directly paired peer, driven one outside step at a time.
#[derive(Clone, Debug)]
pub struct PeerSync {
    pub limit: usize,
    pub bootstrap: bool,
    pub expectedDeviceId: String,
    pub phase: PeerSyncPhase,
}

/// What the outside step that was asked for gave back.
#[derive(Clone, Debug)]
pub enum PeerSyncEvent {
    SessionInfo { coreDeviceId: String },
    Versions { local: String, remote: String },
    Projection { sameSpace: bool },
    BootstrapReset,
    Page { operations: usize },
    PageApplied,
}

/// The outside step to take next.
#[derive(Debug)]
pub enum PeerSyncAction {
    /// Read the remote session's identity.
    ReadSessionInfo,
    /// Read the local and remote Core versions.
    ReadVersions,
    /// Exchange device-space projections and compare the space ids.
    ExchangeProjection,
    /// Force-apply an empty operation list locally before the first page.
    ForceApplyEmpty,
    /// Fetch the next page (bootstrap: the remote operations; otherwise the
    /// merge of both sides' operations since the other's clock).
    FetchPage,
    /// Transfer the page's blobs and apply its operations.
    ApplyPage { operations: usize },
    /// Stop with this outcome.
    Finish(Result<(), String>),
}

/// The event that a phase waits for.
pub open spec fn awaits(phase: PeerSyncPhase, event: PeerSyncEvent) -> bool {
    match (phase, event) {
        (PeerSyncPhase::AwaitSessionInfo, PeerSyncEvent::SessionInfo { .. }) => true,
        (PeerSyncPhase::AwaitVersions, PeerSyncEvent::Versions { .. }) => true,
        (PeerSyncPhase::AwaitProjection, PeerSyncEvent::Projection { .. }) => true,
        (PeerSyncPhase::AwaitBootstrapReset, PeerSyncEvent::BootstrapReset) => true,
        (PeerSyncPhase::AwaitPage, PeerSyncEvent::Page { .. }) => true,
        (PeerSyncPhase::AwaitPageApplied { .. }, PeerSyncEvent::PageApplied) => true,
        _ => false,
    }
}

/// `core version mismatch: local=<l>, remote=<r>. sync blocked`.
pub open spec fn version_mismatch(local: Seq<char>, remote: Seq<char>) -> Seq<char> {
    "core version mismatch: local="@ + local + ", remote="@ + remote + ". sync blocked"@
}

/// `a` finishes with success.
pub open spec fn finishes_ok(a: PeerSyncAction) -> bool {
    a matches PeerSyncAction::Finish(Ok(()))
}

/// `a` finishes with the error `e`.
pub open spec fn finishes_err(a: PeerSyncAction, e: Seq<char>) -> bool {
    a matches PeerSyncAction::Finish(Err(m)) && m@ == e
}

/// Starts synchronizing the peer paired under `expectedDeviceId`, exchanging
/// at most `limit` operations per page; `bootstrap` first force-applies and
/// then adopts the remote operations only.
pub fn startPeerSync(limit: usize, bootstrap: bool, expectedDeviceId: String) -> (r: (PeerSync, PeerSyncAction))
    ensures
        r.0.limit == limit && r.0.bootstrap == bootstrap && r.0.expectedDeviceId == expectedDeviceId,
        limit == 0 ==> r.0.phase == PeerSyncPhase::Finished && finishes_err(r.1, "sync limit must be greater than 0"@),
        limit > 0 ==> r.0.phase == PeerSyncPhase::AwaitSessionInfo && r.1 is ReadSessionInfo,
{
    if limit == 0 {
        return (
            PeerSync { limit, bootstrap, expectedDeviceId, phase: PeerSyncPhase::Finished },
            PeerSyncAction::Finish(Err(String::from_str("sync limit must be greater than 0"))),
        );
    }
    (PeerSync { limit, bootstrap, expectedDeviceId, phase: PeerSyncPhase::AwaitSessionInfo }, PeerSyncAction::ReadSessionInfo)
}

/// Takes one decision of a peer synchronization: from the phase and what the
/// last outside step gave back, the next phase and the next outside step.
pub fn stepPeerSync(sync: &mut PeerSync, event: PeerSyncEvent) -> (a: PeerSyncAction)
    requires
        awaits(old(sync).phase, event),
    ensures
        final(sync).limit == old(sync).limit,
        final(sync).bootstrap == old(sync).bootstrap,
        final(sync).expectedDeviceId == old(sync).expectedDeviceId,
        event matches PeerSyncEvent::SessionInfo { coreDeviceId } ==> if coreDeviceId@ != old(sync).expectedDeviceId@ {
            final(sync).phase == PeerSyncPhase::Finished && finishes_err(a, "remote runtime identity changed"@)
        } else {
            final(sync).phase == PeerSyncPhase::AwaitVersions && a is ReadVersions
        },
        event matches PeerSyncEvent::Versions { local, remote } ==> if local@ != remote@ {
            final(sync).phase == PeerSyncPhase::Finished && finishes_err(a, version_mismatch(local@, remote@))
        } else {
            final(sync).phase == PeerSyncPhase::AwaitProjection && a is ExchangeProjection
        },
        event matches PeerSyncEvent::Projection { sameSpace } ==> if !sameSpace {
            final(sync).phase == PeerSyncPhase::Finished && finishes_ok(a)
        } else if old(sync).bootstrap {
            final(sync).phase == PeerSyncPhase::AwaitBootstrapReset && a is ForceApplyEmpty
        } else {
            final(sync).phase == PeerSyncPhase::AwaitPage && a is FetchPage
        },
        event is BootstrapReset ==> final(sync).phase == PeerSyncPhase::AwaitPage && a is FetchPage,
        event matches PeerSyncEvent::Page { operations } ==> if operations == 0 {
            final(sync).phase == PeerSyncPhase::Finished && finishes_ok(a)
        } else {
            final(sync).phase == (PeerSyncPhase::AwaitPageApplied { operations })
                && a == (PeerSyncAction::ApplyPage { operations })
        },
        event is PageApplied ==> (old(sync).phase matches PeerSyncPhase::AwaitPageApplied { operations } && if operations < old(sync).limit {
            final(sync).phase == PeerSyncPhase::Finished && finishes_ok(a)
        } else {
            final(sync).phase == PeerSyncPhase::AwaitPage && a is FetchPage
        }),
{
    match event {
        PeerSyncEvent::SessionInfo { coreDeviceId } => {
            if !str_eq(coreDeviceId.as_str(), sync.expectedDeviceId.as_str()) {
                sync.phase = PeerSyncPhase::Finished;
                PeerSyncAction::Finish(Err(String::from_str("remote runtime identity changed")))
            } else {
                sync.phase = PeerSyncPhase::AwaitVersions;
                PeerSyncAction::ReadVersions
            }
        },
        PeerSyncEvent::Versions { local, remote } => {
            if !str_eq(local.as_str(), remote.as_str()) {
                let mut text = String::from_str("core version mismatch: local=");
                text.append(local.as_str());
                text.append(", remote=");
                text.append(remote.as_str());
                text.append(". sync blocked");
                sync.phase = PeerSyncPhase::Finished;
                PeerSyncAction::Finish(Err(text))
            } else {
                sync.phase = PeerSyncPhase::AwaitProjection;
                PeerSyncAction::ExchangeProjection
            }
        },
        PeerSyncEvent::Projection { sameSpace } => {
            if !sameSpace {
                sync.phase = PeerSyncPhase::Finished;
                PeerSyncAction::Finish(Ok(()))
            } else if sync.bootstrap {
                sync.phase = PeerSyncPhase::AwaitBootstrapReset;
                PeerSyncAction::ForceApplyEmpty
            } else {
                sync.phase = PeerSyncPhase::AwaitPage;
                PeerSyncAction::FetchPage
            }
        },
        PeerSyncEvent::BootstrapReset => {
            sync.phase = PeerSyncPhase::AwaitPage;
            PeerSyncAction::FetchPage
        },
        PeerSyncEvent::Page { operations } => {
            if operations == 0 {
                sync.phase = PeerSyncPhase::Finished;
                PeerSyncAction::Finish(Ok(()))
            } else {
                sync.phase = PeerSyncPhase::AwaitPageApplied { operations };
                PeerSyncAction::ApplyPage { operations }
            }
        },
        PeerSyncEvent::PageApplied => {
            let operations = match sync.phase {
                PeerSyncPhase::AwaitPageApplied { operations } => operations,
                _ => 0,
            };
            if operations < sync.limit {
                sync.phase = PeerSyncPhase::Finished;
                PeerSyncAction::Finish(Ok(()))
            } else {
                sync.phase = PeerSyncPhase::AwaitPage;
                PeerSyncAction::FetchPage
            }
        },
    }
}

/// Whether a persistence synchronization is scheduled or running: at most
/// one is, and mutations made meanwhile are picked up by one more run.
#[derive(Clone, Copy, Debug, PartialEq, Eq, Structural)]
pub struct SyncSchedule {
    pub scheduled: bool,
}

/// What a request for synchronization leads to.
#[derive(Clone, Copy, Debug, PartialEq, Eq, Structural)]
pub enum ScheduleDecision {
    /// A run is already scheduled or running; it will see the request.
    AlreadyScheduled,
    /// Hand one run to the task scheduler.
    ScheduleTask,
}

/// A request: the first one while nothing is scheduled schedules a run,
/// later ones join it.
pub open spec fn request_step(s: SyncSchedule) -> (SyncSchedule, ScheduleDecision) {
    if s.scheduled {
        (s, ScheduleDecision::AlreadyScheduled)
    } else {
        (SyncSchedule { scheduled: true }, ScheduleDecision::ScheduleTask)
    }
}

/// The end of a run: nothing is scheduled, and another run is owed when the
/// mutation revision moved while it ran.
pub open spec fn finish_step(s: SyncSchedule, revision_at_start: int, revision_now: int) -> (SyncSchedule, bool) {
    (SyncSchedule { scheduled: false }, revision_at_start != revision_now)
}

/// Takes a synchronization request.
pub fn requestSynchronization(schedule: &mut SyncSchedule) -> (d: ScheduleDecision)
    ensures
        (*final(schedule), d) == request_step(*old(schedule)),
{
    if schedule.scheduled {
        ScheduleDecision::AlreadyScheduled
    } else {
        schedule.scheduled = true;
        ScheduleDecision::ScheduleTask
    }
}

/// The task scheduler refused the run: nothing is scheduled any more.
pub fn schedulingFailed(schedule: &mut SyncSchedule)
    ensures
        !final(schedule).scheduled,
{
    schedule.scheduled = false;
}

/// A run finished; says whether it must be followed by another one.
pub fn synchronizationFinished(schedule: &mut SyncSchedule, revisionAtStart: u64, revisionNow: u64) -> (reschedule: bool)
    ensures
        (*final(schedule), reschedule) == finish_step(*old(schedule), revisionAtStart as int, revisionNow as int),
{
    schedule.scheduled = false;
    revisionAtStart != revisionNow
}

/// At most one run is scheduled at a time: a request while one is scheduled
/// or running never schedules another.
pub proof fn law_single_scheduled_run(s: SyncSchedule)
    requires
        s.scheduled,
    ensures
        request_step(s).1 == ScheduleDecision::AlreadyScheduled,
        request_step(s).0 == s,
{
}

/// A mutation made while a run was in progress is not lost: the finished run
/// owes another, and asking for it schedules a new run.
pub proof fn law_mutation_during_run_schedules_another(s: SyncSchedule, revision_at_start: int, revision_now: int)
    requires
        revision_at_start != revision_now,
    ensures
        finish_step(s, revision_at_start, revision_now).1,
        request_step(finish_step(s, revision_at_start, revision_now).0).1 == ScheduleDecision::ScheduleTask,
{
}

} // verus!
