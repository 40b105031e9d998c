//! # Distributed Peer Manager
//!
//! Large transfers can go through nearby peers acting as relays, each
//! carrying a contiguous range of chunks, so that several network paths are
//! used at once:
//!
//! ```text
//! Sender ──→ Peer1 ──→ Receiver    (chunks 0-49)
//! Sender ──→ Peer2 ──→ Receiver    (chunks 50-99)
//! Sender ─────────────→ Receiver   (remaining chunks, direct)
//! ```
//!
//! Known peers live in a concurrent map (`dashmap::DashMap`) keyed by
//! device ID.

use dashmap::DashMap;

use vstd::prelude::*;

use crate::network::addr::EndpointAddr;
use crate::network::discovery::{same_device, DeviceInfo};
use crate::text::{
    ascii_lowercase, contains_str, contains_text, eq_lit, is_ascii_text, lowercase_of, to_lowercase,
};

verus! {

/// Maximum number of relay peers used for one transfer.
pub const MAX_RELAY_PEERS: usize = 8;

/// Minimum file size for a distributed transfer (100 MB).
pub const MIN_DISTRIBUTED_SIZE: u64 = 104857600;

#[verifier::external_type_specification]
#[verifier::external_body]
#[verifier::reject_recursive_types(K)]
#[verifier::reject_recursive_types(V)]
#[verifier::reject_recursive_types(S)]
pub struct ExDashMap<K, V, S>(DashMap<K, V, S>);

/// Status of a peer in the distributed transfer network.
#[derive(Debug, Clone, PartialEq, Eq)]
pub enum PeerStatus {
    /// Discovered but not yet connected.
    Discovered,
    /// QUIC connection being established.
    Connecting,
    /// Connected and ready for transfers.
    Connected,
    /// Actively relaying chunks.
    Transferring,
    /// Finished its assigned chunks.
    Completed,
    /// Encountered an error.
    Error(String),
    /// Disconnected.
    Disconnected,
}

/// A peer that can take part in a distributed transfer.
#[derive(Debug, Clone)]
pub struct Peer {
    /// The device information from discovery.
    pub device_info: DeviceInfo,
    /// Current status.
    pub status: PeerStatus,
    /// The peer's QUIC server address.
    pub addr: EndpointAddr,
    /// Estimated bandwidth to this peer (bytes/sec).
    pub estimated_bandwidth: u64,
    /// Number of chunks assigned to this peer.
    pub chunks_assigned: u64,
    /// Number of chunks completed by this peer.
    pub chunks_completed: u64,
}

impl PeerStatus {
    /// A copy of this status.
    pub fn duplicate(&self) -> (r: Self)
        ensures
            r == *self,
    {
        match self {
            PeerStatus::Discovered => PeerStatus::Discovered,
            PeerStatus::Connecting => PeerStatus::Connecting,
            PeerStatus::Connected => PeerStatus::Connected,
            PeerStatus::Transferring => PeerStatus::Transferring,
            PeerStatus::Completed => PeerStatus::Completed,
            PeerStatus::Error(e) => PeerStatus::Error(e.clone()),
            PeerStatus::Disconnected => PeerStatus::Disconnected,
        }
    }
}

/// Two peer records hold the same values.
pub open spec fn same_peer(a: Peer, b: Peer) -> bool {
    &&& same_device(a.device_info, b.device_info)
    &&& a.status == b.status
    &&& a.addr == b.addr
    &&& a.estimated_bandwidth == b.estimated_bandwidth
    &&& a.chunks_assigned == b.chunks_assigned
    &&& a.chunks_completed == b.chunks_completed
}

impl Peer {
    /// A field-by-field copy.
    pub fn duplicate(&self) -> (r: Self)
        ensures
            same_peer(r, *self),
    {
        Peer {
            device_info: self.device_info.duplicate(),
            status: self.status.duplicate(),
            addr: self.addr,
            estimated_bandwidth: self.estimated_bandwidth,
            chunks_assigned: self.chunks_assigned,
            chunks_completed: self.chunks_completed,
        }
    }
}

/// Assignment of chunk ranges to relay peers for one transfer.
#[derive(Debug, Clone)]
pub struct DistributedPlan {
    /// File ID being transferred.
    pub file_id: String,
    /// Total number of chunks.
    pub total_chunks: u64,
    /// Relay device ID and the chunk indices it carries, one entry per
    /// relay, in assignment order. Chunks not listed go direct. vstd
    /// specifies `HashMap` only for keys it knows to hash consistently
    /// (integers and the like), not for `String` keys, so the relays are a
    /// vector of pairs.
    pub assignments: Vec<(String, Vec<u64>)>,
}

/// The assignments as plain values: relay ID and chunk indices.
pub open spec fn assignment_view(a: Seq<(String, Vec<u64>)>) -> Seq<(Seq<char>, Seq<u64>)> {
    a.map_values(|e: (String, Vec<u64>)| (e.0@, e.1@))
}

/// Two plans hold the same values.
pub open spec fn same_plan(a: DistributedPlan, b: DistributedPlan) -> bool {
    &&& a.file_id == b.file_id
    &&& a.total_chunks == b.total_chunks
    &&& assignment_view(a.assignments@) == assignment_view(b.assignments@)
}

impl DistributedPlan {
    /// A field-by-field copy.
    pub fn duplicate(&self) -> (r: Self)
        ensures
            same_plan(r, *self),
    {
        let mut assignments: Vec<(String, Vec<u64>)> = Vec::new();
        let mut i: usize = 0;
        while i < self.assignments.len()
            invariant
                i <= self.assignments@.len(),
                assignment_view(assignments@) == assignment_view(self.assignments@).take(i as int),
            decreases self.assignments@.len() - i,
        {
            let entry = &self.assignments[i];
            let id = entry.0.clone();
            let copy = entry.1.clone();
            assert(copy@ =~= entry.1@);
            let ghost before = assignments@;
            assignments.push((id, copy));
            assert(assignments@ == before.push((id, copy)));
            assert(assignment_view(assignments@) =~= assignment_view(before).push((entry.0@, entry.1@)));
            assert(assignment_view(assignments@) =~= assignment_view(self.assignments@).take(
                i + 1,
            ));
            i = i + 1;
        }
        assert(assignment_view(self.assignments@).take(i as int) =~= assignment_view(
            self.assignments@,
        ));
        DistributedPlan {
            file_id: self.file_id.clone(),
            total_chunks: self.total_chunks,
            assignments,
        }
    }
}

/// The chunk indices `start..end`.
pub open spec fn chunk_run(start: int, end: int) -> Seq<u64> {
    Seq::new((end - start) as nat, |i: int| (start + i) as u64)
}

/// The assignments made to relays `ids[i..]` when the next unassigned
/// chunk is `start`: each relay but the last takes its share, the last
/// takes everything left, no range runs past `total`, and relays whose
/// range is empty get no entry.
pub open spec fn planned_ranges(
    total: nat,
    start: nat,
    ids: Seq<Seq<char>>,
    shares: Seq<u64>,
    i: nat,
) -> Seq<(Seq<char>, Seq<u64>)>
    decreases ids.len() - i,
{
    if i >= ids.len() {
        Seq::empty()
    } else {
        let num: int = if i == ids.len() - 1 {
            total - start
        } else {
            shares[i as int] as int
        };
        let end: nat = if start + num >= total {
            total
        } else {
            (start + num) as nat
        };
        let rest = planned_ranges(total, end, ids, shares, i + 1);
        if end > start {
            seq![(ids[i as int], chunk_run(start as int, end as int))] + rest
        } else {
            rest
        }
    }
}

/// All chunk indices of a plan's assignments, in assignment order.
pub open spec fn chunks_of(plan: Seq<(Seq<char>, Seq<u64>)>) -> Seq<u64>
    decreases plan.len(),
{
    if plan.len() == 0 {
        Seq::empty()
    } else {
        plan[0].1 + chunks_of(plan.drop_first())
    }
}

/// Once relays are chosen, the assigned ranges tile the file: laid end to
/// end, in assignment order, they are exactly the chunks `0..total`.
pub proof fn lemma_plan_tiles_file(total: nat, ids: Seq<Seq<char>>, shares: Seq<u64>)
    requires
        ids.len() > 0,
        shares.len() == ids.len(),
    ensures
        chunks_of(planned_ranges(total, 0, ids, shares, 0)) == chunk_run(0, total as int),
{
    lemma_planned_suffix_tiles(total, 0, ids, shares, 0);
}

proof fn lemma_planned_suffix_tiles(
    total: nat,
    start: nat,
    ids: Seq<Seq<char>>,
    shares: Seq<u64>,
    i: nat,
)
    requires
        i < ids.len(),
        start <= total,
        shares.len() == ids.len(),
    ensures
        chunks_of(planned_ranges(total, start, ids, shares, i)) == chunk_run(
            start as int,
            total as int,
        ),
    decreases ids.len() - i,
{
    let num: int = if i == ids.len() - 1 {
        total - start
    } else {
        shares[i as int] as int
    };
    let end: nat = if start + num >= total {
        total
    } else {
        (start + num) as nat
    };
    let rest = planned_ranges(total, end, ids, shares, i + 1);
    if i + 1 < ids.len() {
        lemma_planned_suffix_tiles(total, end, ids, shares, i + 1);
    } else {
        assert(end == total);
        assert(rest == Seq::<(Seq<char>, Seq<u64>)>::empty());
        assert(chunks_of(rest) =~= chunk_run(end as int, total as int));
    }
    if end > start {
        let head = seq![(ids[i as int], chunk_run(start as int, end as int))];
        assert((head + rest).drop_first() =~= rest);
        assert(chunk_run(start as int, end as int) + chunk_run(end as int, total as int)
            =~= chunk_run(start as int, total as int));
    }
}

/// The contents of a list of strings.
pub open spec fn string_views(s: Seq<String>) -> Seq<Seq<char>> {
    s.map_values(|x: String| x@)
}

/// The device IDs of a list of peers.
pub open spec fn peer_ids(p: Seq<Peer>) -> Seq<Seq<char>> {
    p.map_values(|x: Peer| x.device_info.device_id@)
}

/// The chunk indices `start..end` as a vector.
pub fn chunk_range(start: u64, end: u64) -> (v: Vec<u64>)
    requires
        start <= end,
    ensures
        v@ == chunk_run(start as int, end as int),
{
    let mut v: Vec<u64> = Vec::new();
    let mut c = start;
    while c < end
        invariant
            start <= c <= end,
            v@ == chunk_run(start as int, c as int),
        decreases end - c,
    {
        v.push(c);
        c = c + 1;
        assert(v@ =~= chunk_run(start as int, c as int));
    }
    v
}

/// Assign contiguous chunk ranges to the relays in order, starting at
/// chunk 0: each relay but the last takes `shares[i]` chunks, the last
/// takes all that remain, and no range runs past `total_chunks`. A relay
/// left with no chunks gets no entry. (The share of the last relay is not
/// used.)
pub fn assign_chunk_ranges(total_chunks: u64, relay_ids: &Vec<String>, shares: &Vec<u64>) -> (a:
    Vec<(String, Vec<u64>)>)
    requires
        shares@.len() == relay_ids@.len(),
    ensures
        assignment_view(a@) == planned_ranges(
            total_chunks as nat,
            0,
            string_views(relay_ids@),
            shares@,
            0,
        ),
{
    let ghost ids = string_views(relay_ids@);
    let mut out: Vec<(String, Vec<u64>)> = Vec::new();
    let mut chunk_index: u64 = 0;
    let mut i: usize = 0;
    while i < relay_ids.len()
        invariant
            i <= relay_ids@.len(),
            shares@.len() == relay_ids@.len(),
            ids == string_views(relay_ids@),
            chunk_index <= total_chunks,
            assignment_view(out@) + planned_ranges(
                total_chunks as nat,
                chunk_index as nat,
                ids,
                shares@,
                i as nat,
            ) == planned_ranges(total_chunks as nat, 0, ids, shares@, 0),
        decreases relay_ids@.len() - i,
    {
        let num = if i == relay_ids.len() - 1 {
            total_chunks - chunk_index
        } else {
            shares[i]
        };
        let end = if num >= total_chunks - chunk_index {
            total_chunks
        } else {
            chunk_index + num
        };
        let ghost before = out@;
        let ghost rest = planned_ranges(
            total_chunks as nat,
            end as nat,
            ids,
            shares@,
            (i + 1) as nat,
        );
        if end > chunk_index {
            let range = chunk_range(chunk_index, end);
            out.push((relay_ids[i].clone(), range));
            proof {
                let head = seq![(ids[i as int], chunk_run(chunk_index as int, end as int))];
                assert(assignment_view(out@) =~= assignment_view(before) + head);
                assert(assignment_view(out@) + rest =~= assignment_view(before) + (head + rest));
            }
        }
        chunk_index = end;
        i = i + 1;
    }
    assert(assignment_view(out@) + Seq::<(Seq<char>, Seq<u64>)>::empty() =~= assignment_view(
        out@,
    ));
    out
}

/// The peers a `DashMap<String, Peer>` holds, by key.
pub uninterp spec fn peer_table(m: DashMap<String, Peer>) -> Map<Seq<char>, Peer>;

/// The plans a `DashMap<String, DistributedPlan>` holds, by key.
pub uninterp spec fn plan_table(m: DashMap<String, DistributedPlan>) -> Map<
    Seq<char>,
    DistributedPlan,
>;

/// `keys` lists every key of `m` exactly once.
pub open spec fn keys_enumerate<V>(keys: Seq<Seq<char>>, m: Map<Seq<char>, V>) -> bool {
    &&& keys.no_duplicates()
    &&& forall|k: Seq<char>| m.contains_key(k) <==> keys.contains(k)
}

/// `vals` lists copies of the peers of `m`, one per key, in some order.
pub open spec fn lists_peers(vals: Seq<Peer>, m: Map<Seq<char>, Peer>) -> bool {
    exists|keys: Seq<Seq<char>>|
        #[trigger] keys_enumerate(keys, m) && vals.len() == keys.len() && forall|i: int|
            0 <= i < vals.len() ==> same_peer(vals[i], m[keys[i]])
}

/// The peer map holds nothing.
pub open spec fn holds_no_peers(table: DashMap<String, Peer>) -> bool {
    peer_table(table) == Map::<Seq<char>, Peer>::empty()
}

/// The plan map holds nothing.
pub open spec fn holds_no_plans(table: DashMap<String, DistributedPlan>) -> bool {
    plan_table(table) == Map::<Seq<char>, DistributedPlan>::empty()
}

/// Calls `DashMap::new`: an empty map.
#[verifier::external_body]
fn new_peer_table() -> (table: DashMap<String, Peer>)
    ensures
        holds_no_peers(table),
{
    DashMap::new()
}

/// Calls `DashMap::new`: an empty map.
#[verifier::external_body]
fn new_plan_table() -> (table: DashMap<String, DistributedPlan>)
    ensures
        holds_no_plans(table),
{
    DashMap::new()
}

/// Calls `DashMap::insert`: the key now maps to the value, other keys are
/// untouched. (The map is taken by `&mut` so that the change is visible to
/// the verifier; `insert` itself only needs `&`.)
#[verifier::external_body]
fn peer_table_insert(m: &mut DashMap<String, Peer>, key: String, value: Peer)
    ensures
        peer_table(*final(m)) == peer_table(*old(m)).insert(key@, value),
{
    m.insert(key, value);
}

/// Calls `DashMap::insert` on the plan map.
#[verifier::external_body]
fn plan_table_insert(m: &mut DashMap<String, DistributedPlan>, key: String, value: DistributedPlan)
    ensures
        plan_table(*final(m)) == plan_table(*old(m)).insert(key@, value),
{
    m.insert(key, value);
}

/// Calls `DashMap::remove`: the key no longer maps to anything.
#[verifier::external_body]
fn peer_table_remove(m: &mut DashMap<String, Peer>, key: &str)
    ensures
        peer_table(*final(m)) == peer_table(*old(m)).remove(key@),
{
    m.remove(key);
}

/// `r` is a copy of the peer stored under `key`, or `None` when there is none.
pub open spec fn found_peer(r: Option<Peer>, m: Map<Seq<char>, Peer>, key: Seq<char>) -> bool {
    match r {
        Some(p) => m.contains_key(key) && same_peer(p, m[key]),
        None => !m.contains_key(key),
    }
}

/// Calls `DashMap::get` and clones the value found (the derived `Clone` of
/// `Peer`, a field-by-field copy).
#[verifier::external_body]
fn peer_table_get(m: &DashMap<String, Peer>, key: &str) -> (r: Option<Peer>)
    ensures
        found_peer(r, peer_table(*m), key@),
{
    m.get(key).map(|p| p.value().clone())
}

/// Calls `DashMap::get_mut` and sets the status of the peer found.
#[verifier::external_body]
fn peer_table_set_status(m: &mut DashMap<String, Peer>, key: &str, status: PeerStatus)
    ensures
        peer_table(*final(m)) == if peer_table(*old(m)).contains_key(key@) {
            peer_table(*old(m)).insert(key@, Peer { status, ..peer_table(*old(m))[key@] })
        } else {
            peer_table(*old(m))
        },
{
    if let Some(mut p) = m.get_mut(key) {
        p.status = status;
    }
}

/// Calls `DashMap::len`.
#[verifier::external_body]
fn peer_table_len(m: &DashMap<String, Peer>) -> (n: usize)
    ensures
        n == peer_table(*m).len(),
{
    m.len()
}

/// Walks the map with `DashMap::iter` and clones every value (the derived
/// `Clone` of `Peer`, a field-by-field copy). The order is the map's
/// internal order, which depends on its hasher: assumed only that every
/// entry is listed once.
#[verifier::external_body]
fn peer_table_values(m: &DashMap<String, Peer>) -> (v: Vec<Peer>)
    ensures
        lists_peers(v@, peer_table(*m)),
{
    m.iter().map(|p| p.value().clone()).collect()
}

/// Whether a peer can be used: it was discovered or is connected.
pub open spec fn is_available(p: Peer) -> bool {
    p.status is Discovered || p.status is Connected
}

/// Bytes per second estimated from a bandwidth class such as "10Gb" or
/// "1Gb", looked up case-insensitively in this order: "10g", "5g", "2.5g"
/// or "2g", "1g", "100m"; 100 Mbps when unrecognised. (A class naming
/// "2.5g" also contains "5g", which is looked for first.)
pub open spec fn bandwidth_of_class(lower: Seq<char>) -> u64 {
    if contains_text(lower, "10g"@) {
        1250000000
    } else if contains_text(lower, "5g"@) {
        625000000
    } else if contains_text(lower, "2.5g"@) || contains_text(lower, "2g"@) {
        312500000
    } else if contains_text(lower, "1g"@) {
        125000000
    } else if contains_text(lower, "100m"@) {
        12500000
    } else {
        12500000
    }
}

/// Estimate bandwidth in bytes per second from the advertised class.
pub fn estimate_bandwidth(max_bandwidth: &str) -> (b: u64)
    ensures
        b == bandwidth_of_class(lowercase_of(max_bandwidth@)),
        is_ascii_text(max_bandwidth@) ==> b == bandwidth_of_class(ascii_lowercase(max_bandwidth@)),
{
    let lower = to_lowercase(max_bandwidth);
    let l = lower.as_str();
    if contains_str(l, "10g") {
        1250000000
    } else if contains_str(l, "5g") {
        625000000
    } else if contains_str(l, "2.5g") || contains_str(l, "2g") {
        312500000
    } else if contains_str(l, "1g") {
        125000000
    } else if contains_str(l, "100m") {
        12500000
    } else {
        12500000
    }
}

/// The feature list names `name`.
pub open spec fn has_feature(features: Seq<String>, name: Seq<char>) -> bool {
    exists|i: int| 0 <= i < features.len() && features[i]@ == name
}

/// Whether a feature list names `name`.
pub fn supports_feature(features: &Vec<String>, name: &str) -> (b: bool)
    ensures
        b == has_feature(features@, name@),
{
    let mut i: usize = 0;
    while i < features.len()
        invariant
            i <= features@.len(),
            forall|j: int| 0 <= j < i ==> features@[j]@ != name@,
        decreases features@.len() - i,
    {
        if eq_lit(&features[i], name) {
            return true;
        }
        i = i + 1;
    }
    false
}

/// A peer can relay for a transfer from `own` to `receiver`: it is neither
/// of the two, it is discovered or connected, and it supports distributed
/// transfers.
pub open spec fn relay_eligible(p: Peer, own: Seq<char>, receiver: Seq<char>) -> bool {
    &&& p.device_info.device_id@ != own
    &&& p.device_info.device_id@ != receiver
    &&& is_available(p)
    &&& has_feature(p.device_info.supported_features@, "distributed_transfer"@)
}

/// Manages the peers known for distributed transfers.
pub struct PeerManager {
    /// Our device ID.
    device_id: String,
    /// Known peers keyed by device ID.
    peers: DashMap<String, Peer>,
    /// Plans of distributed transfers, keyed by file ID.
    active_transfers: DashMap<String, DistributedPlan>,
}

impl PeerManager {
    /// Every peer is stored under its own device ID.
    pub closed spec fn wf(&self) -> bool {
        forall|k: Seq<char>|
            #[trigger] peer_table(self.peers).contains_key(k) ==> peer_table(
                self.peers,
            )[k].device_info.device_id@ == k
    }

    /// Our device ID.
    pub closed spec fn own_id(&self) -> Seq<char> {
        self.device_id@
    }

    /// Known peers by device ID.
    pub closed spec fn peer_map(&self) -> Map<Seq<char>, Peer> {
        peer_table(self.peers)
    }

    /// Recorded plans by file ID.
    pub closed spec fn plan_map(&self) -> Map<Seq<char>, DistributedPlan> {
        plan_table(self.active_transfers)
    }

    /// A manager for our device, with no peers and no plans.
    pub fn new(device_id: String) -> (m: Self)
        ensures
            m.wf(),
            m.own_id() == device_id@,
            m.peer_map() == Map::<Seq<char>, Peer>::empty(),
            m.plan_map() == Map::<Seq<char>, DistributedPlan>::empty(),
    {
        PeerManager {
            device_id,
            peers: new_peer_table(),
            active_transfers: new_plan_table(),
        }
    }

    /// Register or refresh a peer from discovery: status Discovered, its
    /// address from the device record, bandwidth estimated from its class,
    /// no chunks assigned or completed.
    pub fn register_peer(&mut self, device: DeviceInfo)
        requires
            old(self).wf(),
        ensures
            final(self).wf(),
            final(self).own_id() == old(self).own_id(),
            final(self).plan_map() == old(self).plan_map(),
            final(self).peer_map() == old(self).peer_map().insert(
                device.device_id@,
                Peer {
                    device_info: device,
                    status: PeerStatus::Discovered,
                    addr: EndpointAddr { ip: device.ip_address, port: device.port },
                    estimated_bandwidth: bandwidth_of_class(lowercase_of(device.max_bandwidth@)),
                    chunks_assigned: 0,
                    chunks_completed: 0,
                },
            ),
    {
        let addr = EndpointAddr { ip: device.ip_address, port: device.port };
        let bandwidth = estimate_bandwidth(device.max_bandwidth.as_str());
        let key = device.device_id.clone();
        let peer = Peer {
            device_info: device,
            status: PeerStatus::Discovered,
            addr,
            estimated_bandwidth: bandwidth,
            chunks_assigned: 0,
            chunks_completed: 0,
        };
        peer_table_insert(&mut self.peers, key, peer);
    }

    /// Forget a peer.
    pub fn remove_peer(&mut self, device_id: &str)
        requires
            old(self).wf(),
        ensures
            final(self).wf(),
            final(self).own_id() == old(self).own_id(),
            final(self).plan_map() == old(self).plan_map(),
            final(self).peer_map() == old(self).peer_map().remove(device_id@),
    {
        peer_table_remove(&mut self.peers, device_id);
    }

    /// Set a known peer's status; unknown IDs are ignored.
    pub fn update_peer_status(&mut self, device_id: &str, status: PeerStatus)
        requires
            old(self).wf(),
        ensures
            final(self).wf(),
            final(self).own_id() == old(self).own_id(),
            final(self).plan_map() == old(self).plan_map(),
            final(self).peer_map() == if old(self).peer_map().contains_key(device_id@) {
                old(self).peer_map().insert(
                    device_id@,
                    Peer { status, ..old(self).peer_map()[device_id@] },
                )
            } else {
                old(self).peer_map()
            },
    {
        peer_table_set_status(&mut self.peers, device_id, status);
    }

    /// A known peer by device ID.
    pub fn get_peer(&self, device_id: &str) -> (p: Option<Peer>)
        ensures
            found_peer(p, self.peer_map(), device_id@),
    {
        peer_table_get(&self.peers, device_id)
    }

    /// Number of known peers.
    pub fn peer_count(&self) -> (n: usize)
        ensures
            n == self.peer_map().len(),
    {
        peer_table_len(&self.peers)
    }

    /// Whether a file is large enough (100 MB or more) to benefit from a
    /// distributed transfer.
    pub fn should_distribute(file_size: u64) -> (b: bool)
        ensures
            b == (file_size >= MIN_DISTRIBUTED_SIZE),
    {
        file_size >= MIN_DISTRIBUTED_SIZE
    }

    /// The peers that are discovered or connected, each once, in no
    /// particular order.
    pub fn available_peers(&self) -> (v: Vec<Peer>)
        requires
            self.wf(),
        ensures
            forall|i: int|
                0 <= i < v@.len() ==> is_available(#[trigger] v@[i]) && self.peer_map().contains_key(
                    v@[i].device_info.device_id@,
                ) && same_peer(v@[i], self.peer_map()[v@[i].device_info.device_id@]),
            forall|i: int, j: int|
                0 <= i < j < v@.len() ==> v@[i].device_info.device_id@
                    != v@[j].device_info.device_id@,
            forall|k: Seq<char>|
                self.peer_map().contains_key(k) && is_available(#[trigger] self.peer_map()[k])
                    ==> exists|i: int| 0 <= i < v@.len() && v@[i].device_info.device_id@ == k,
    {
        let all = peer_table_values(&self.peers);
        let ghost table = peer_table(self.peers);
        let ghost keys = choose|keys: Seq<Seq<char>>|
            #[trigger] keys_enumerate(keys, table) && all@.len() == keys.len() && forall|i: int|
                0 <= i < all@.len() ==> same_peer(all@[i], table[keys[i]]);
        let mut out: Vec<Peer> = Vec::new();
        let ghost mut taken: Seq<int> = Seq::empty();
        let mut i: usize = 0;
        while i < all.len()
            invariant
                i <= all@.len(),
                table == peer_table(self.peers),
                keys_enumerate(keys, table),
                all@.len() == keys.len(),
                forall|j: int| 0 <= j < all@.len() ==> same_peer(all@[j], table[keys[j]]),
                forall|k: Seq<char>|
                    #[trigger] table.contains_key(k) ==> table[k].device_info.device_id@ == k,
                out@.len() == taken.len(),
                forall|a: int| 0 <= a < taken.len() ==> 0 <= #[trigger] taken[a] < i,
                forall|a: int, b: int| 0 <= a < b < taken.len() ==> taken[a] < taken[b],
                forall|a: int| 0 <= a < out@.len() ==> same_peer(#[trigger] out@[a], all@[taken[a]]),
                forall|a: int| 0 <= a < out@.len() ==> is_available(#[trigger] out@[a]),
                forall|j: int|
                    0 <= j < i && is_available(all@[j]) ==> exists|a: int|
                        0 <= a < taken.len() && taken[a] == j,
            decreases all@.len() - i,
        {
            let p = &all[i];
            let keep = match p.status {
                PeerStatus::Discovered => true,
                PeerStatus::Connected => true,
                _ => false,
            };
            if keep {
                let q = p.duplicate();
                let ghost old_taken = taken;
                out.push(q);
                proof {
                    taken = taken.push(i as int);
                    assert(taken[taken.len() - 1] == i);
                    assert forall|j: int|
                        0 <= j <= i && is_available(all@[j]) implies exists|a: int|
                            0 <= a < taken.len() && taken[a] == j by {
                        if j < i {
                            let a = choose|a: int| 0 <= a < old_taken.len() && old_taken[a] == j;
                            assert(taken[a] == j);
                        } else {
                            assert(taken[taken.len() - 1] == j);
                        }
                    }
                }
            }
            i = i + 1;
        }
        proof {
            assert forall|a: int| 0 <= a < out@.len() implies #[trigger] out@[a].device_info.device_id@
                == keys[taken[a]] && table.contains_key(keys[taken[a]]) && same_peer(
                out@[a],
                table[keys[taken[a]]],
            ) by {
                let t = taken[a];
                assert(keys.contains(keys[t]));
                assert(table.contains_key(keys[t]));
                assert(same_peer(all@[t], table[keys[t]]));
            }
            assert forall|a: int, b: int| 0 <= a < b < out@.len() implies out@[a].device_info.device_id@
                != out@[b].device_info.device_id@ by {
                assert(out@[a].device_info.device_id@ == keys[taken[a]]);
                assert(out@[b].device_info.device_id@ == keys[taken[b]]);
                assert(taken[a] < taken[b]);
            }
            assert forall|k: Seq<char>|
                table.contains_key(k) && is_available(#[trigger] table[k]) implies exists|a: int|
                    0 <= a < out@.len() && out@[a].device_info.device_id@ == k by {
                assert(keys.contains(k));
                let j = choose|j: int| 0 <= j < keys.len() && keys[j] == k;
                assert(same_peer(all@[j], table[keys[j]]));
                assert(is_available(all@[j]));
                let a = choose|a: int| 0 <= a < taken.len() && taken[a] == j;
                assert(out@[a].device_info.device_id@ == keys[taken[a]]);
            }
        }
        out
    }

    /// The peers that may relay a transfer to `receiver_id`, each once, in
    /// the map's order.
    fn relay_pool(&self, receiver_id: &str) -> (v: Vec<Peer>)
        requires
            self.wf(),
        ensures
            forall|i: int|
                0 <= i < v@.len() ==> relay_eligible(#[trigger] v@[i], self.own_id(), receiver_id@)
                    && self.peer_map().contains_key(v@[i].device_info.device_id@) && same_peer(
                    v@[i],
                    self.peer_map()[v@[i].device_info.device_id@],
                ),
            forall|i: int, j: int|
                0 <= i < j < v@.len() ==> v@[i].device_info.device_id@
                    != v@[j].device_info.device_id@,
            forall|k: Seq<char>|
                self.peer_map().contains_key(k) && relay_eligible(
                    #[trigger] self.peer_map()[k],
                    self.own_id(),
                    receiver_id@,
                ) ==> exists|i: int| 0 <= i < v@.len() && v@[i].device_info.device_id@ == k,
    {
        let avail = self.available_peers();
        let mut out: Vec<Peer> = Vec::new();
        let ghost mut taken: Seq<int> = Seq::empty();
        let mut i: usize = 0;
        while i < avail.len()
            invariant
                i <= avail@.len(),
                self.wf(),
                forall|a: int|
                    0 <= a < avail@.len() ==> is_available(#[trigger] avail@[a])
                        && self.peer_map().contains_key(avail@[a].device_info.device_id@)
                        && same_peer(avail@[a], self.peer_map()[avail@[a].device_info.device_id@]),
                forall|a: int, b: int|
                    0 <= a < b < avail@.len() ==> avail@[a].device_info.device_id@
                        != avail@[b].device_info.device_id@,
                out@.len() == taken.len(),
                forall|a: int| 0 <= a < taken.len() ==> 0 <= #[trigger] taken[a] < i,
                forall|a: int, b: int| 0 <= a < b < taken.len() ==> taken[a] < taken[b],
                forall|a: int|
                    0 <= a < out@.len() ==> same_peer(#[trigger] out@[a], avail@[taken[a]]),
                forall|a: int|
                    0 <= a < out@.len() ==> relay_eligible(#[trigger] out@[a], self.own_id(), receiver_id@),
                forall|j: int|
                    0 <= j < i && relay_eligible(avail@[j], self.own_id(), receiver_id@)
                        ==> exists|a: int| 0 <= a < taken.len() && taken[a] == j,
            decreases avail@.len() - i,
        {
            let p = &avail[i];
            let keep = p.device_info.device_id != self.device_id
                && !eq_lit(&p.device_info.device_id, receiver_id)
                && supports_feature(&p.device_info.supported_features, "distributed_transfer");
            proof {
                reveal_strlit("distributed_transfer");
            }
            if keep {
                let q = p.duplicate();
                let ghost old_taken = taken;
                out.push(q);
                proof {
                    taken = taken.push(i as int);
                    assert forall|j: int|
                        0 <= j <= i && relay_eligible(avail@[j], self.own_id(), receiver_id@)
                            implies exists|a: int| 0 <= a < taken.len() && taken[a] == j by {
                        if j < i {
                            let a = choose|a: int| 0 <= a < old_taken.len() && old_taken[a] == j;
                            assert(taken[a] == j);
                        } else {
                            assert(taken[taken.len() - 1] == j);
                        }
                    }
                }
            }
            i = i + 1;
        }
        proof {
            assert forall|a: int| 0 <= a < out@.len() implies #[trigger] out@[a].device_info.device_id@
                == avail@[taken[a]].device_info.device_id@ && self.peer_map().contains_key(
                out@[a].device_info.device_id@,
            ) && same_peer(out@[a], self.peer_map()[out@[a].device_info.device_id@]) by {
                assert(same_peer(out@[a], avail@[taken[a]]));
            }
            assert forall|a: int, b: int| 0 <= a < b < out@.len() implies out@[a].device_info.device_id@
                != out@[b].device_info.device_id@ by {
                assert(out@[a].device_info.device_id@ == avail@[taken[a]].device_info.device_id@);
                assert(out@[b].device_info.device_id@ == avail@[taken[b]].device_info.device_id@);
                assert(taken[a] < taken[b]);
            }
            assert forall|k: Seq<char>|
                self.peer_map().contains_key(k) && relay_eligible(
                    #[trigger] self.peer_map()[k],
                    self.own_id(),
                    receiver_id@,
                ) implies exists|a: int| 0 <= a < out@.len() && out@[a].device_info.device_id@ == k by {
                assert(is_available(self.peer_map()[k]));
                let j = choose|j: int| 0 <= j < avail@.len() && avail@[j].device_info.device_id@ == k;
                assert(same_peer(avail@[j], self.peer_map()[k]));
                assert(relay_eligible(avail@[j], self.own_id(), receiver_id@));
                let a = choose|a: int| 0 <= a < taken.len() && taken[a] == j;
                assert(out@[a].device_info.device_id@ == avail@[taken[a]].device_info.device_id@);
            }
        }
        out
    }

    /// The relays for a transfer to `receiver_id`: the eligible peers with
    /// the highest estimated bandwidth, fastest first, at most
    /// `MAX_RELAY_PEERS` of them. Peers of equal bandwidth keep the map's
    /// order. Fewer are returned only when there are no more eligible peers.
    pub fn relay_candidates(&self, receiver_id: &str) -> (v: Vec<Peer>)
        requires
            self.wf(),
        ensures
            v@.len() <= MAX_RELAY_PEERS,
            forall|i: int|
                0 <= i < v@.len() ==> relay_eligible(#[trigger] v@[i], self.own_id(), receiver_id@)
                    && self.peer_map().contains_key(v@[i].device_info.device_id@) && same_peer(
                    v@[i],
                    self.peer_map()[v@[i].device_info.device_id@],
                ),
            forall|i: int, j: int|
                0 <= i < j < v@.len() ==> v@[i].device_info.device_id@
                    != v@[j].device_info.device_id@,
            forall|i: int, j: int|
                0 <= i < j < v@.len() ==> v@[i].estimated_bandwidth >= v@[j].estimated_bandwidth,
            forall|k: Seq<char>|
                self.peer_map().contains_key(k) && relay_eligible(
                    #[trigger] self.peer_map()[k],
                    self.own_id(),
                    receiver_id@,
                ) && !(exists|i: int| 0 <= i < v@.len() && v@[i].device_info.device_id@ == k)
                    ==> v@.len() == MAX_RELAY_PEERS && forall|i: int|
                    0 <= i < v@.len() ==> self.peer_map()[k].estimated_bandwidth
                        <= #[trigger] v@[i].estimated_bandwidth,
    {
        let mut rest = self.relay_pool(receiver_id);
        let mut out: Vec<Peer> = Vec::new();
        let ghost own = self.own_id();
        let ghost recv = receiver_id@;
        let ghost table = self.peer_map();
        while out.len() < MAX_RELAY_PEERS && rest.len() > 0
            invariant
                out@.len() <= MAX_RELAY_PEERS,
                own == self.own_id(),
                recv == receiver_id@,
                table == self.peer_map(),
                forall|a: int|
                    0 <= a < out@.len() ==> relay_eligible(#[trigger] out@[a], own, recv)
                        && table.contains_key(out@[a].device_info.device_id@) && same_peer(
                        out@[a],
                        table[out@[a].device_info.device_id@],
                    ),
                forall|b: int|
                    0 <= b < rest@.len() ==> relay_eligible(#[trigger] rest@[b], own, recv)
                        && table.contains_key(rest@[b].device_info.device_id@) && same_peer(
                        rest@[b],
                        table[rest@[b].device_info.device_id@],
                    ),
                forall|a: int, b: int|
                    0 <= a < b < out@.len() ==> out@[a].device_info.device_id@
                        != out@[b].device_info.device_id@,
                forall|a: int, b: int|
                    0 <= a < b < rest@.len() ==> rest@[a].device_info.device_id@
                        != rest@[b].device_info.device_id@,
                forall|a: int, b: int|
                    0 <= a < out@.len() && 0 <= b < rest@.len() ==> out@[a].device_info.device_id@
                        != rest@[b].device_info.device_id@,
                forall|a: int, b: int|
                    0 <= a < b < out@.len() ==> out@[a].estimated_bandwidth
                        >= out@[b].estimated_bandwidth,
                forall|a: int, b: int|
                    0 <= a < out@.len() && 0 <= b < rest@.len() ==> out@[a].estimated_bandwidth
                        >= rest@[b].estimated_bandwidth,
                forall|k: Seq<char>|
                    table.contains_key(k) && relay_eligible(#[trigger] table[k], own, recv) ==> (
                    exists|a: int| 0 <= a < out@.len() && out@[a].device_info.device_id@ == k) || (
                    exists|b: int| 0 <= b < rest@.len() && rest@[b].device_info.device_id@ == k),
            decreases rest@.len(),
        {
            let mut best: usize = 0;
            let mut j: usize = 1;
            while j < rest.len()
                invariant
                    best < j <= rest@.len(),
                    forall|b: int|
                        0 <= b < j ==> #[trigger] rest@[b].estimated_bandwidth
                            <= rest@[best as int].estimated_bandwidth,
                decreases rest@.len() - j,
            {
                if rest[j].estimated_bandwidth > rest[best].estimated_bandwidth {
                    best = j;
                }
                j = j + 1;
            }
            let ghost old_rest = rest@;
            let ghost old_out = out@;
            let p = rest.remove(best);
            out.push(p);
            proof {
                let bi = best as int;
                assert(rest@ == old_rest.remove(bi));
                assert(out@ == old_out.push(old_rest[bi]));
                assert forall|b: int| 0 <= b < rest@.len() implies #[trigger] rest@[b] == old_rest[
                    if b < bi { b } else { b + 1 }
                ] by {}
                assert forall|k: Seq<char>|
                    table.contains_key(k) && relay_eligible(#[trigger] table[k], own, recv) implies (
                    exists|a: int| 0 <= a < out@.len() && out@[a].device_info.device_id@ == k) || (
                    exists|b: int| 0 <= b < rest@.len() && rest@[b].device_info.device_id@ == k) by {
                    if exists|a: int|
                        0 <= a < old_out.len() && old_out[a].device_info.device_id@ == k {
                        let a = choose|a: int|
                            0 <= a < old_out.len() && old_out[a].device_info.device_id@ == k;
                        assert(out@[a] == old_out[a]);
                    } else {
                        let b = choose|b: int|
                            0 <= b < old_rest.len() && old_rest[b].device_info.device_id@ == k;
                        if b == bi {
                            assert(out@[old_out.len() as int] == old_rest[b]);
                        } else if b < bi {
                            assert(rest@[b] == old_rest[b]);
                        } else {
                            assert(rest@[b - 1] == old_rest[b]);
                        }
                    }
                }
            }
        }
        proof {
            assert forall|k: Seq<char>|
                table.contains_key(k) && relay_eligible(#[trigger] table[k], own, recv) && !(exists|
                    i: int,
                | 0 <= i < out@.len() && out@[i].device_info.device_id@ == k) implies out@.len()
                == MAX_RELAY_PEERS && forall|i: int|
                0 <= i < out@.len() ==> table[k].estimated_bandwidth
                    <= #[trigger] out@[i].estimated_bandwidth by {
                let b = choose|b: int| 0 <= b < rest@.len() && rest@[b].device_info.device_id@ == k;
                assert(same_peer(rest@[b], table[k]));
            }
        }
        out
    }

    /// Plan a distributed transfer of `file_id` over `relays` (as chosen by
    /// `relay_candidates`, fastest first), relay `i` taking `shares[i]`
    /// chunks and the last relay the rest (see `assign_chunk_ranges`), and
    /// record the plan under the file ID. With no relays the plan is empty:
    /// every chunk goes direct.
    pub fn create_distribution_plan(
        &mut self,
        file_id: &str,
        total_chunks: u64,
        relays: &Vec<Peer>,
        shares: &Vec<u64>,
    ) -> (plan: DistributedPlan)
        requires
            old(self).wf(),
            shares@.len() == relays@.len(),
        ensures
            final(self).wf(),
            final(self).own_id() == old(self).own_id(),
            final(self).peer_map() == old(self).peer_map(),
            plan.file_id@ == file_id@,
            plan.total_chunks == total_chunks,
            assignment_view(plan.assignments@) == planned_ranges(
                total_chunks as nat,
                0,
                peer_ids(relays@),
                shares@,
                0,
            ),
            final(self).plan_map().contains_key(file_id@),
            same_plan(final(self).plan_map()[file_id@], plan),
            final(self).plan_map().remove(file_id@) == old(self).plan_map().remove(file_id@),
    {
        let mut ids: Vec<String> = Vec::new();
        let mut i: usize = 0;
        while i < relays.len()
            invariant
                i <= relays@.len(),
                ids@.len() == i,
                string_views(ids@) == peer_ids(relays@).take(i as int),
            decreases relays@.len() - i,
        {
            let id = relays[i].device_info.device_id.clone();
            let ghost before = ids@;
            ids.push(id);
            assert(ids@ == before.push(id));
            assert(id@ == relays@[i as int].device_info.device_id@);
            assert forall|j: int| 0 <= j <= i implies #[trigger] string_views(ids@)[j] == peer_ids(
                relays@,
            )[j] by {
                assert(string_views(ids@)[j] == ids@[j]@);
                assert(peer_ids(relays@)[j] == relays@[j].device_info.device_id@);
                if j < i {
                    assert(ids@[j] == before[j]);
                    assert(string_views(before)[j] == before[j]@);
                    assert(string_views(before)[j] == peer_ids(relays@).take(i as int)[j]);
                }
            }
            assert(string_views(ids@) =~= peer_ids(relays@).take(i + 1));
            i = i + 1;
        }
        assert(peer_ids(relays@).take(i as int)
            =~= peer_ids(relays@));
        let assignments = assign_chunk_ranges(total_chunks, &ids, shares);
        let plan = DistributedPlan { file_id: String::from_str(file_id), total_chunks, assignments };
        let stored = plan.duplicate();
        plan_table_insert(&mut self.active_transfers, String::from_str(file_id), stored);
        proof {
            assert(self.plan_map().remove(file_id@) =~= old(self).plan_map().remove(file_id@));
        }
        plan
    }
}

} // verus!
