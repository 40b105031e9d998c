//! # Distributed Chunk Router
//!
//! Routes file chunks through relay peers to the final receiver. Each relay
//! receives its chunks from the sender and forwards them to the receiver;
//! chunks that no relay carries go direct.
//!
//! ```text
//!                 ┌─ Relay Peer 1 ─┐
//! Sender ────────>│ chunks [0-49]  │────────> Receiver
//!                 └────────────────┘
//! Sender ─────────────────────────────────> Receiver
//!                 (remaining chunks, direct)
//! ```

use std::collections::HashMap;
use std::sync::Arc;

use vstd::prelude::*;

use crate::distributed::peer_manager::{
    assignment_view, chunk_run, chunks_of, found_peer, lemma_plan_tiles_file, planned_ranges,
    DistributedPlan, Peer, PeerManager,
};
use crate::network::addr::EndpointAddr;

verus! {

broadcast use vstd::std_specs::hash::group_hash_axioms;

/// How a chunk travels to its destination.
#[derive(Debug, Clone)]
pub enum RouteType {
    /// Straight from sender to receiver.
    Direct,
    /// Through a relay peer.
    Relay {
        /// Device ID of the relay peer.
        relay_device_id: String,
        /// Address of the relay peer.
        relay_addr: EndpointAddr,
    },
}

/// The routing instruction for one chunk.
#[derive(Debug, Clone)]
pub struct ChunkRoute {
    /// The chunk to route.
    pub chunk_index: u64,
    /// Direct or through a relay.
    pub route_type: RouteType,
    /// Where the sender sends the chunk.
    pub target_addr: EndpointAddr,
    /// The final destination (differs from the target when relayed).
    pub destination_addr: EndpointAddr,
}

/// Control message sent to relay peers.
#[derive(Debug, Clone)]
pub enum RelayMessage {
    /// Forward the listed chunks of the file to the destination.
    StartRelay { file_id: String, destination_addr: EndpointAddr, chunk_indices: Vec<u64> },
    /// Stop relaying the file.
    StopRelay { file_id: String },
    /// Progress report of a relay.
    RelayStatus { file_id: String, chunks_forwarded: u64 },
}

/// The position of the assignment that carries chunk `c`: the last one
/// that lists it, when several do.
pub open spec fn owner_index(a: Seq<(Seq<char>, Seq<u64>)>, c: u64) -> Option<int>
    decreases a.len(),
{
    if a.len() == 0 {
        None
    } else if a.last().1.contains(c) {
        Some(a.len() - 1)
    } else {
        owner_index(a.drop_last(), c)
    }
}

/// `m` maps each chunk to the position of its owning assignment in `a`,
/// and holds no other chunk.
pub open spec fn indexes_owners(m: Map<u64, usize>, a: Seq<(Seq<char>, Seq<u64>)>) -> bool {
    forall|c: u64|
        (#[trigger] m.contains_key(c) <==> owner_index(a, c) is Some) && (m.contains_key(c)
            ==> m[c] as int == owner_index(a, c)->0)
}

/// The route of chunk `c` of a plan with assignments `a`, given the known
/// peers: through the relay that carries it when that relay is known,
/// otherwise direct to the receiver.
pub open spec fn routes_chunk(
    r: ChunkRoute,
    c: u64,
    a: Seq<(Seq<char>, Seq<u64>)>,
    peers: Map<Seq<char>, Peer>,
    receiver: EndpointAddr,
) -> bool {
    &&& r.chunk_index == c
    &&& r.destination_addr == receiver
    &&& match owner_index(a, c) {
        Some(i) if peers.contains_key(a[i].0) => {
            &&& r.route_type matches RouteType::Relay { relay_device_id, relay_addr } && relay_device_id@
                == a[i].0 && relay_addr == peers[a[i].0].addr
            &&& r.target_addr == peers[a[i].0].addr
        },
        _ => r.route_type is Direct && r.target_addr == receiver,
    }
}

/// Adding an assignment at the end makes it the owner of the chunks it
/// lists and leaves the owner of every other chunk as it was.
proof fn lemma_owner_after_push(s: Seq<(Seq<char>, Seq<u64>)>, x: (Seq<char>, Seq<u64>), c: u64)
    ensures
        owner_index(s.push(x), c) == if x.1.contains(c) {
            Some(s.len() as int)
        } else {
            owner_index(s, c)
        },
{
    assert(s.push(x).drop_last() =~= s);
}

/// The owning assignment, when there is one, is a position of `a`.
proof fn lemma_owner_in_range(a: Seq<(Seq<char>, Seq<u64>)>, c: u64)
    ensures
        owner_index(a, c) matches Some(i) ==> 0 <= i < a.len(),
    decreases a.len(),
{
    if a.len() > 0 && !a.last().1.contains(c) {
        lemma_owner_in_range(a.drop_last(), c);
    }
}

/// A chunk is among a plan's chunks exactly when some assignment lists it.
proof fn lemma_chunks_of_contains(p: Seq<(Seq<char>, Seq<u64>)>, c: u64)
    ensures
        chunks_of(p).contains(c) <==> exists|i: int| 0 <= i < p.len() && #[trigger] p[i].1.contains(c),
    decreases p.len(),
{
    if p.len() > 0 {
        lemma_chunks_of_contains(p.drop_first(), c);
        let head = p[0].1;
        let rest = chunks_of(p.drop_first());
        assert(chunks_of(p) == head + rest);
        if chunks_of(p).contains(c) {
            let k = choose|k: int| 0 <= k < (head + rest).len() && (head + rest)[k] == c;
            if k < head.len() {
                assert(head[k] == c);
                assert(p[0].1.contains(c));
            } else {
                assert(rest[k - head.len()] == c);
                let i = choose|i: int| 0 <= i < p.drop_first().len() && p.drop_first()[i].1.contains(c);
                assert(p[i + 1].1.contains(c));
            }
        }
        if exists|i: int| 0 <= i < p.len() && #[trigger] p[i].1.contains(c) {
            let i = choose|i: int| 0 <= i < p.len() && #[trigger] p[i].1.contains(c);
            let k = choose|k: int| 0 <= k < p[i].1.len() && p[i].1[k] == c;
            if i == 0 {
                assert((head + rest)[k] == c);
            } else {
                assert(p.drop_first()[i - 1].1.contains(c));
                assert(rest.contains(c));
                let m = choose|m: int| 0 <= m < rest.len() && rest[m] == c;
                assert((head + rest)[head.len() + m] == c);
            }
        }
    }
}

/// When a plan's chunks are all distinct, no two assignments list the same
/// chunk.
proof fn lemma_chunks_of_disjoint(p: Seq<(Seq<char>, Seq<u64>)>, c: u64, i: int, j: int)
    requires
        chunks_of(p).no_duplicates(),
        0 <= i < j < p.len(),
        p[i].1.contains(c),
    ensures
        !p[j].1.contains(c),
    decreases p.len(),
{
    let head = p[0].1;
    let rest = chunks_of(p.drop_first());
    assert(chunks_of(p) == head + rest);
    if i == 0 {
        if p[j].1.contains(c) {
            assert(p.drop_first()[j - 1].1.contains(c));
            lemma_chunks_of_contains(p.drop_first(), c);
            let m = choose|m: int| 0 <= m < rest.len() && rest[m] == c;
            let k = choose|k: int| 0 <= k < head.len() && head[k] == c;
            assert((head + rest)[k] == (head + rest)[head.len() + m]);
        }
    } else {
        assert(rest.no_duplicates()) by {
            assert forall|a: int, b: int| 0 <= a < b < rest.len() implies rest[a] != rest[b] by {
                assert((head + rest)[head.len() + a] == rest[a]);
                assert((head + rest)[head.len() + b] == rest[b]);
            }
        }
        assert(p.drop_first()[i - 1] == p[i]);
        assert(p.drop_first()[j - 1] == p[j]);
        lemma_chunks_of_disjoint(p.drop_first(), c, i - 1, j - 1);
    }
}

/// The chunk listed by exactly one assignment is owned by that assignment.
proof fn lemma_single_owner(a: Seq<(Seq<char>, Seq<u64>)>, c: u64, i: int)
    requires
        0 <= i < a.len(),
        a[i].1.contains(c),
        forall|j: int| 0 <= j < a.len() && j != i ==> !(#[trigger] a[j].1.contains(c)),
    ensures
        owner_index(a, c) == Some(i),
    decreases a.len(),
{
    if i < a.len() - 1 {
        let d = a.drop_last();
        assert(!a.last().1.contains(c));
        assert forall|j: int| 0 <= j < d.len() && j != i implies !(#[trigger] d[j].1.contains(c)) by {
            assert(d[j] == a[j]);
        }
        lemma_single_owner(d, c, i);
    }
}

/// Every chunk of a distributed transfer goes through the relay it was
/// assigned to: in a plan laid out over one or more relays, each chunk
/// below the total is listed by exactly one assignment, and that
/// assignment is the one the routing table follows for it.
pub proof fn lemma_planned_chunk_has_one_relay(
    total: nat,
    ids: Seq<Seq<char>>,
    shares: Seq<u64>,
    c: u64,
)
    requires
        ids.len() > 0,
        shares.len() == ids.len(),
        c < total,
        total <= u64::MAX + 1,
    ensures
        ({
            let plan = planned_ranges(total, 0, ids, shares, 0);
            exists|i: int|
                0 <= i < plan.len() && #[trigger] plan[i].1.contains(c) && owner_index(plan, c)
                    == Some(i) && forall|j: int|
                    0 <= j < plan.len() && j != i ==> !plan[j].1.contains(c)
        }),
{
    let plan = planned_ranges(total, 0, ids, shares, 0);
    lemma_plan_tiles_file(total, ids, shares);
    let run = chunk_run(0, total as int);
    assert(run.no_duplicates()) by {
        assert forall|a: int, b: int| 0 <= a < b < run.len() implies run[a] != run[b] by {}
    }
    assert(run[c as int] == c);
    lemma_chunks_of_contains(plan, c);
    let i = choose|i: int| 0 <= i < plan.len() && #[trigger] plan[i].1.contains(c);
    assert forall|j: int| 0 <= j < plan.len() && j != i implies !(#[trigger] plan[j].1.contains(c)) by {
        if j < i {
            if plan[j].1.contains(c) {
                lemma_chunks_of_disjoint(plan, c, j, i);
            }
        } else {
            lemma_chunks_of_disjoint(plan, c, i, j);
        }
    }
    lemma_single_owner(plan, c, i);
}

/// Builds routing tables for distributed transfers.
pub struct ChunkRouter {
    /// The peers that relays are looked up in.
    peer_manager: Arc<PeerManager>,
}

impl ChunkRouter {
    /// A router over the given peers.
    pub fn new(peer_manager: Arc<PeerManager>) -> (r: Self)
        ensures
            r.peers() == peer_manager.peer_map(),
    {
        ChunkRouter { peer_manager }
    }

    /// The peers known to the router.
    pub closed spec fn peers(&self) -> Map<Seq<char>, Peer> {
        self.peer_manager.peer_map()
    }

    /// The routing table of a plan: one route per chunk, in chunk order.
    /// A chunk carried by a known relay goes through that relay; every other
    /// chunk, and every chunk of a relay that is no longer known, goes
    /// direct to the receiver.
    pub fn create_routing_table(&self, plan: &DistributedPlan, receiver_addr: EndpointAddr) -> (routes:
        Vec<ChunkRoute>)
        ensures
            routes@.len() == plan.total_chunks,
            forall|c: int|
                0 <= c < routes@.len() ==> routes_chunk(
                    #[trigger] routes@[c],
                    c as u64,
                    assignment_view(plan.assignments@),
                    self.peers(),
                    receiver_addr,
                ),
    {
        let ghost a = assignment_view(plan.assignments@);
        let mut owners: HashMap<u64, usize> = HashMap::new();
        let mut i: usize = 0;
        while i < plan.assignments.len()
            invariant
                i <= plan.assignments@.len(),
                a == assignment_view(plan.assignments@),
                indexes_owners(owners@, a.take(i as int)),
            decreases plan.assignments@.len() - i,
        {
            let chunks = &plan.assignments[i].1;
            let ghost id = a[i as int].0;
            let mut j: usize = 0;
            proof {
                assert forall|c: u64|
                    owner_index(a.take(i as int).push((id, chunks@.take(0))), c) == owner_index(
                        a.take(i as int),
                        c,
                    ) by {
                    lemma_owner_after_push(a.take(i as int), (id, chunks@.take(0)), c);
                }
            }
            while j < chunks.len()
                invariant
                    i < plan.assignments@.len(),
                    j <= chunks@.len(),
                    a == assignment_view(plan.assignments@),
                    chunks@ == a[i as int].1,
                    id == a[i as int].0,
                    indexes_owners(owners@, a.take(i as int).push((id, chunks@.take(j as int)))),
                decreases chunks@.len() - j,
            {
                let c = chunks[j];
                let ghost old_owners = owners@;
                owners.insert(c, i);
                proof {
                    let s = a.take(i as int);
                    assert forall|d: u64| true implies (#[trigger] owners@.contains_key(d)
                        <==> owner_index(s.push((id, chunks@.take(j + 1))), d) is Some) && (
                    owners@.contains_key(d) ==> owners@[d] as int == owner_index(
                        s.push((id, chunks@.take(j + 1))),
                        d,
                    )->0) by {
                        lemma_owner_after_push(s, (id, chunks@.take(j + 1)), d);
                        lemma_owner_after_push(s, (id, chunks@.take(j as int)), d);
                        assert(old_owners.contains_key(d) <==> owner_index(
                            s.push((id, chunks@.take(j as int))),
                            d,
                        ) is Some);
                        if d == c {
                            assert(chunks@.take(j + 1)[j as int] == d);
                            assert(chunks@.take(j + 1).contains(d));
                        } else {
                            assert(owners@.contains_key(d) == old_owners.contains_key(d));
                            let t1 = chunks@.take(j + 1);
                            let t0 = chunks@.take(j as int);
                            if t1.contains(d) {
                                let k = choose|k: int| 0 <= k < t1.len() && t1[k] == d;
                                assert(t0[k] == d);
                            }
                            if t0.contains(d) {
                                let k = choose|k: int| 0 <= k < t0.len() && t0[k] == d;
                                assert(t1[k] == d);
                            }
                        }
                    }
                }
                j = j + 1;
            }
            proof {
                assert(chunks@.take(j as int) =~= chunks@);
                assert(a.take(i as int).push((id, chunks@)) =~= a.take(i + 1));
            }
            i = i + 1;
        }
        assert(a.take(i as int) =~= a);
        let mut routes: Vec<ChunkRoute> = Vec::new();
        let mut c: u64 = 0;
        while c < plan.total_chunks
            invariant
                c <= plan.total_chunks,
                a == assignment_view(plan.assignments@),
                indexes_owners(owners@, a),
                routes@.len() == c,
                forall|d: int|
                    0 <= d < c ==> routes_chunk(
                        #[trigger] routes@[d],
                        d as u64,
                        a,
                        self.peers(),
                        receiver_addr,
                    ),
            decreases plan.total_chunks - c,
        {
            let direct = ChunkRoute {
                chunk_index: c,
                route_type: RouteType::Direct,
                target_addr: receiver_addr,
                destination_addr: receiver_addr,
            };
            let route = match owners.get(&c) {
                Some(k) => {
                    let idx: usize = *k;
                    proof {
                        lemma_owner_in_range(a, c);
                    }
                    let peer_id = &plan.assignments[idx].0;
                    assert(peer_id@ == a[idx as int].0);
                    match self.peer_manager.get_peer(peer_id.as_str()) {
                        Some(peer) => ChunkRoute {
                            chunk_index: c,
                            route_type: RouteType::Relay {
                                relay_device_id: peer_id.clone(),
                                relay_addr: peer.addr,
                            },
                            target_addr: peer.addr,
                            destination_addr: receiver_addr,
                        },
                        None => direct,
                    }
                },
                None => direct,
            };
            routes.push(route);
            c = c + 1;
        }
        routes
    }
}

} // verus!
