//! # Stream Scheduler
//!
//! Distributes file chunks across several parallel QUIC streams.
//!
//! - **Round robin**: chunks go to streams 0, 1, ..., N-1, 0, 1, ...
//! - **Weighted**: a chunk goes to the stream given by its chunk index
//!   modulo N.
//! - **Adaptive**: for now the same as round robin.

use std::collections::VecDeque;

use vstd::prelude::*;

use crate::transfer::chunker::ChunkMeta;

verus! {

/// How chunks are spread over streams.
#[derive(Debug, Clone, Copy, PartialEq, Eq, Structural)]
pub enum ScheduleStrategy {
    /// Even round-robin distribution.
    RoundRobin,
    /// By chunk index.
    Weighted,
    /// Adjusted by metrics (currently round robin).
    Adaptive,
}

/// Which chunk goes to which stream.
#[derive(Debug, Clone)]
pub struct StreamAssignment {
    /// Stream index (0 to N-1).
    pub stream_index: usize,
    /// The chunk to send on this stream.
    pub chunk: ChunkMeta,
}

/// Assigns queued chunks to parallel streams.
pub struct StreamScheduler {
    num_streams: usize,
    strategy: ScheduleStrategy,
    pending_chunks: VecDeque<ChunkMeta>,
    current_stream: usize,
}

/// Number of positions `i < len` with `i % n == s`: the length of stream
/// `s`'s queue when `len` chunks are dealt round robin over `n` streams.
pub open spec fn dealt_count(len: int, n: int, s: int) -> int {
    if s < len {
        (len - 1 - s) / n + 1
    } else {
        0
    }
}

/// `queues` is `chunks` dealt round robin over `n` streams: chunk `i` is
/// entry `i / n` of queue `i % n`, and each queue holds nothing else.
pub open spec fn dealt_round_robin(chunks: Seq<ChunkMeta>, n: int, queues: Seq<Seq<ChunkMeta>>) -> bool {
    &&& queues.len() == n
    &&& forall|s: int| 0 <= s < n ==> #[trigger] queues[s].len() == dealt_count(chunks.len() as int, n, s)
    &&& forall|i: int| 0 <= i < chunks.len() ==> queues[i % n][i / n] == #[trigger] chunks[i]
}

/// Dealing chunk number `len` adds one entry to queue `len % n`, at
/// position `len / n`, and leaves the other queues as they are.
pub proof fn lemma_deal_next(len: int, n: int, s: int)
    requires
        len >= 0,
        n > 0,
        0 <= s < n,
    ensures
        dealt_count(len, n, len % n) == len / n,
        dealt_count(len + 1, n, s) == dealt_count(len, n, s) + if s == len % n {
            1int
        } else {
            0int
        },
        0 <= len % n < n,
{
    let q = len / n;
    let r = len % n;
    vstd::arithmetic::div_mod::lemma_fundamental_div_mod(len, n);
    assert(0 <= r < n && q >= 0) by (nonlinear_arith)
        requires
            q == len / n,
            r == len % n,
            n > 0,
            len >= 0,
    ;
    assert(len == q * n + r) by (nonlinear_arith)
        requires
            len == n * q + r,
    ;
    // the count for queue r
    assert((q - 1) * n == q * n - n) by (nonlinear_arith);
    if r < len {
        assert(q >= 1) by (nonlinear_arith)
            requires
                len == q * n + r,
                r < len,
                q >= 0,
        ;
        vstd::arithmetic::div_mod::lemma_fundamental_div_mod_converse(len - 1 - r, n, q - 1, n - 1);
    } else {
        assert(q == 0) by (nonlinear_arith)
            requires
                len == q * n + r,
                r >= len,
                n > 0,
                q >= 0,
        ;
    }
    if s < len {
        if s < r {
            vstd::arithmetic::div_mod::lemma_fundamental_div_mod_converse(len - s, n, q, r - s);
            vstd::arithmetic::div_mod::lemma_fundamental_div_mod_converse(
                len - 1 - s,
                n,
                q,
                r - s - 1,
            );
        } else if s == r {
            vstd::arithmetic::div_mod::lemma_fundamental_div_mod_converse(len - s, n, q, 0);
            vstd::arithmetic::div_mod::lemma_fundamental_div_mod_converse(
                len - 1 - s,
                n,
                q - 1,
                n - 1,
            );
        } else {
            assert(q >= 1) by (nonlinear_arith)
                requires
                    len == q * n + r,
                    s < len,
                    s < n,
                    r < s,
                    q >= 0,
            ;
            vstd::arithmetic::div_mod::lemma_fundamental_div_mod_converse(
                len - s,
                n,
                q - 1,
                n + r - s,
            );
            vstd::arithmetic::div_mod::lemma_fundamental_div_mod_converse(
                len - 1 - s,
                n,
                q - 1,
                n + r - s - 1,
            );
        }
    } else if s == len {
        if q >= 1 {
            assert(q * n >= n) by (nonlinear_arith)
                requires
                    q >= 1,
                    n > 0,
            ;
        }
        vstd::arithmetic::div_mod::lemma_fundamental_div_mod_converse(0, n, 0, 0);
    } else {
        if q >= 1 {
            assert(q * n >= n) by (nonlinear_arith)
                requires
                    q >= 1,
                    n > 0,
            ;
        }
    }
}

/// Two positions dealt to the same queue keep their order there.
pub proof fn lemma_same_queue_order(j: int, i: int, n: int)
    requires
        0 <= j < i,
        n > 0,
        j % n == i % n,
    ensures
        j / n < i / n,
{
    vstd::arithmetic::div_mod::lemma_fundamental_div_mod(j, n);
    vstd::arithmetic::div_mod::lemma_fundamental_div_mod(i, n);
    assert(j / n < i / n) by (nonlinear_arith)
        requires
            j == n * (j / n) + j % n,
            i == n * (i / n) + i % n,
            j % n == i % n,
            j < i,
            n > 0,
    ;
}

/// The stream a chunk goes to when it is the `k`-th taken from the queue:
/// its chunk index modulo `n` for the weighted strategy, `k` modulo `n`
/// otherwise (round robin).
pub open spec fn stream_for(strategy: ScheduleStrategy, chunk: ChunkMeta, k: int, n: int) -> int {
    match strategy {
        ScheduleStrategy::Weighted => (chunk.chunk_index as usize) as int % n,
        _ => k % n,
    }
}

/// One call of [`StreamScheduler::next_assignment`] took scheduler
/// `before` to `after` and returned `a`: with nothing queued it returns
/// `None` and changes nothing; else it hands out the oldest chunk, on the
/// stream its strategy picks, and round robin moves its cursor on.
pub open spec fn assignment_step(before: StreamScheduler, after: StreamScheduler, a: Option<StreamAssignment>) -> bool {
    &&& after.streams() == before.streams()
    &&& after.strategy() == before.strategy()
    &&& before.pending().len() == 0 ==> a is None && after.pending() == before.pending()
        && after.cursor() == before.cursor()
    &&& before.pending().len() > 0 ==> {
        &&& a matches Some(asg)
        &&& asg.chunk == before.pending()[0]
        &&& after.pending() == before.pending().drop_first()
        &&& match before.strategy() {
            ScheduleStrategy::Weighted => {
                &&& asg.stream_index == (asg.chunk.chunk_index as usize) as int % before.streams() as int
                &&& after.cursor() == before.cursor()
            },
            _ => {
                &&& asg.stream_index == before.cursor()
                &&& after.cursor() == (before.cursor() + 1) as int % before.streams() as int
            },
        }
    }
}

/// One call of [`StreamScheduler::add_chunks`] with `cs` took scheduler
/// `before` to `after`: the chunks are queued after those already queued,
/// and nothing else changes.
pub open spec fn chunks_added(before: StreamScheduler, after: StreamScheduler, cs: Seq<ChunkMeta>) -> bool {
    &&& after.pending() == before.pending() + cs
    &&& after.streams() == before.streams()
    &&& after.strategy() == before.strategy()
    &&& after.cursor() == before.cursor()
}

/// Scheduler `s` is where one that was given the chunks `cs` on an empty
/// queue with its cursor at 0 stands after `k` chunks were taken.
pub open spec fn taken_from(s: StreamScheduler, cs: Seq<ChunkMeta>, k: int) -> bool {
    &&& 0 <= k <= cs.len()
    &&& s.pending() == cs.subrange(k, cs.len() as int)
    &&& s.strategy() != ScheduleStrategy::Weighted ==> s.cursor() == k % (s.streams() as int)
}

/// One call from the state after `k` chunks were taken: the `k`-th chunk
/// comes out on the stream [`stream_for`] gives, or `None` once all are
/// taken.
pub proof fn lemma_assignment_step_takes_next(
    before: StreamScheduler,
    after: StreamScheduler,
    a: Option<StreamAssignment>,
    cs: Seq<ChunkMeta>,
    k: int,
)
    requires
        before.streams() > 0,
        taken_from(before, cs, k),
        assignment_step(before, after, a),
    ensures
        k == cs.len() ==> a is None && taken_from(after, cs, k),
        k < cs.len() ==> {
            &&& a matches Some(asg)
            &&& asg.chunk == cs[k]
            &&& asg.stream_index == stream_for(before.strategy(), cs[k], k, before.streams() as int)
            &&& taken_from(after, cs, k + 1)
            &&& after.pending().len() == cs.len() - k - 1
        },
{
    let n = before.streams() as int;
    if k < cs.len() {
        assert(before.pending()[0] == cs[k]);
        assert(before.pending().drop_first() =~= cs.subrange(k + 1, cs.len() as int));
        if before.strategy() != ScheduleStrategy::Weighted {
            if n == 1 {
                assert((k + 1) % n == 0 && (before.cursor() + 1) as int % n == 0) by (nonlinear_arith)
                    requires
                        n == 1,
                ;
            } else {
                vstd::arithmetic::div_mod::lemma_add_mod_noop(k, 1, n);
                vstd::arithmetic::div_mod::lemma_small_mod(1, n as nat);
            }
        }
    } else {
        assert(before.pending().len() == 0);
    }
}

/// The law of repeated calls: give a fresh scheduler (empty queue, cursor
/// at 0) the chunks `cs` and call `next_assignment` again and again. Call
/// number `k` returns chunk `cs[k]` on the stream [`stream_for`] picks, and
/// every call after the last chunk returns `None`; after the calls the
/// queue holds the chunks not yet handed out.
pub proof fn lemma_assignments_follow_queue(
    states: Seq<StreamScheduler>,
    outs: Seq<Option<StreamAssignment>>,
    cs: Seq<ChunkMeta>,
)
    requires
        states.len() == outs.len() + 1,
        states[0].streams() > 0,
        states[0].pending() == cs,
        states[0].cursor() == 0,
        forall|i: int| 0 <= i < outs.len() ==> assignment_step(#[trigger] states[i], states[i + 1], outs[i]),
    ensures
        forall|k: int|
            0 <= k < outs.len() && k < cs.len() ==> (#[trigger] outs[k] matches Some(asg) && asg.chunk
                == cs[k] && asg.stream_index == stream_for(
                states[0].strategy(),
                cs[k],
                k,
                states[0].streams() as int,
            )),
        forall|k: int| cs.len() <= k < outs.len() ==> #[trigger] outs[k] is None,
        states.last().pending() == cs.subrange(
            if outs.len() < cs.len() {
                outs.len() as int
            } else {
                cs.len() as int
            },
            cs.len() as int,
        ),
    decreases outs.len(),
{
    if outs.len() == 0 {
        assert(cs.subrange(0, cs.len() as int) =~= cs);
    } else {
        let m = outs.len() - 1;
        let prev = states.take(m + 1);
        let prev_outs = outs.take(m);
        assert forall|i: int| 0 <= i < prev_outs.len() implies assignment_step(#[trigger] prev[i], prev[i + 1], prev_outs[i]) by {
            assert(prev[i] == states[i] && prev[i + 1] == states[i + 1] && prev_outs[i] == outs[i]);
            assert(assignment_step(states[i], states[i + 1], outs[i]));
        }
        lemma_assignments_follow_queue(prev, prev_outs, cs);
        // every state so far stands where the calls before it left it
        assert forall|i: int| 0 <= i <= m implies #[trigger] states[i].streams() == states[0].streams()
            && states[i].strategy() == states[0].strategy() && taken_from(
            states[i],
            cs,
            if i < cs.len() {
                i
            } else {
                cs.len() as int
            },
        ) by {
            lemma_prefix_taken(states, outs, cs, i);
        }
        let j = if m < cs.len() {
            m as int
        } else {
            cs.len() as int
        };
        lemma_assignment_step_takes_next(states[m], states[m + 1], outs[m], cs, j);
        assert forall|k: int|
            0 <= k < outs.len() && k < cs.len() implies (#[trigger] outs[k] matches Some(asg) && asg.chunk
            == cs[k] && asg.stream_index == stream_for(
            states[0].strategy(),
            cs[k],
            k,
            states[0].streams() as int,
        )) by {
            if k < m {
                assert(prev_outs[k] == outs[k]);
            }
        }
        assert forall|k: int| cs.len() <= k < outs.len() implies #[trigger] outs[k] is None by {
            if k < m {
                assert(prev_outs[k] == outs[k]);
            }
        }
    }
}

/// The law of `next_assignment` after `add_chunks`: a new scheduler over
/// `n > 0` streams (empty queue, cursor at 0) is given the chunks `cs`;
/// then `next_assignment` is called again and again. Call number `k`
/// returns `None` exactly when `k >= cs.len()`; otherwise it returns chunk
/// `cs[k]` on stream `cs[k].chunk_index % n` (weighted) or `k % n` (the
/// other strategies), after which `cs.len() - k - 1` chunks are pending.
pub proof fn lemma_kth_call_after_add_chunks(
    fresh: StreamScheduler,
    states: Seq<StreamScheduler>,
    outs: Seq<Option<StreamAssignment>>,
    cs: Seq<ChunkMeta>,
)
    requires
        fresh.streams() > 0,
        fresh.pending() == Seq::<ChunkMeta>::empty(),
        fresh.cursor() == 0,
        states.len() == outs.len() + 1,
        chunks_added(fresh, states[0], cs),
        forall|i: int| 0 <= i < outs.len() ==> assignment_step(#[trigger] states[i], states[i + 1], outs[i]),
    ensures
        forall|k: int| 0 <= k < outs.len() ==> ((#[trigger] outs[k] is None) <==> k >= cs.len()),
        forall|k: int|
            0 <= k < outs.len() && k < cs.len() ==> {
                &&& #[trigger] outs[k] matches Some(asg)
                &&& asg.chunk == cs[k]
                &&& asg.stream_index == stream_for(fresh.strategy(), cs[k], k, fresh.streams() as int)
                &&& states[k + 1].pending().len() == cs.len() - k - 1
            },
{
    assert(states[0].pending() =~= cs);
    lemma_assignments_follow_queue(states, outs, cs);
    assert forall|k: int| 0 <= k < outs.len() implies ((#[trigger] outs[k] is None) <==> k >= cs.len()) by {
        if k < cs.len() {
            assert(outs[k] matches Some(_));
        }
    }
    assert forall|k: int|
        0 <= k < outs.len() && k < cs.len() implies {
            &&& #[trigger] outs[k] matches Some(asg)
            &&& asg.chunk == cs[k]
            &&& asg.stream_index == stream_for(fresh.strategy(), cs[k], k, fresh.streams() as int)
            &&& states[k + 1].pending().len() == cs.len() - k - 1
        } by {
        lemma_prefix_taken(states, outs, cs, k + 1);
    }
}

/// The state after `i` of the calls stands where taking `min(i, |cs|)`
/// chunks leaves it.
proof fn lemma_prefix_taken(
    states: Seq<StreamScheduler>,
    outs: Seq<Option<StreamAssignment>>,
    cs: Seq<ChunkMeta>,
    i: int,
)
    requires
        states.len() == outs.len() + 1,
        states[0].streams() > 0,
        states[0].pending() == cs,
        states[0].cursor() == 0,
        forall|t: int| 0 <= t < outs.len() ==> assignment_step(#[trigger] states[t], states[t + 1], outs[t]),
        0 <= i < states.len(),
    ensures
        states[i].streams() == states[0].streams(),
        states[i].strategy() == states[0].strategy(),
        taken_from(
            states[i],
            cs,
            if i < cs.len() {
                i
            } else {
                cs.len() as int
            },
        ),
    decreases i,
{
    if i == 0 {
        assert(cs.subrange(0, cs.len() as int) =~= cs);
    } else {
        lemma_prefix_taken(states, outs, cs, i - 1);
        let j = if i - 1 < cs.len() {
            i - 1
        } else {
            cs.len() as int
        };
        assert(assignment_step(states[i - 1], states[i], outs[i - 1]));
        lemma_assignment_step_takes_next(states[i - 1], states[i], outs[i - 1], cs, j);
    }
}

impl StreamScheduler {
    /// Number of streams.
    pub closed spec fn streams(&self) -> usize {
        self.num_streams
    }

    /// The strategy in use.
    pub closed spec fn strategy(&self) -> ScheduleStrategy {
        self.strategy
    }

    /// Chunks waiting to be assigned, oldest first.
    pub closed spec fn pending(&self) -> Seq<ChunkMeta> {
        self.pending_chunks@
    }

    /// The stream the next round-robin assignment uses.
    pub closed spec fn cursor(&self) -> usize {
        self.current_stream
    }

    /// Create a scheduler over `num_streams` streams with an empty queue.
    pub fn new(num_streams: usize, strategy: ScheduleStrategy) -> (s: Self)
        ensures
            s.streams() == num_streams,
            s.strategy() == strategy,
            s.pending() == Seq::<ChunkMeta>::empty(),
            s.cursor() == 0,
    {
        StreamScheduler {
            num_streams,
            strategy,
            pending_chunks: VecDeque::new(),
            current_stream: 0,
        }
    }

    /// Queue chunks for scheduling, after those already queued.
    pub fn add_chunks(&mut self, chunks: Vec<ChunkMeta>)
        ensures
            chunks_added(*old(self), *final(self), chunks@),
    {
        let mut chunks = chunks;
        let ghost start = self.pending_chunks@;
        let ghost all = chunks@;
        let mut rest: Vec<ChunkMeta> = Vec::new();
        // keep the order: move into `rest` reversed, then pop
        while chunks.len() > 0
            invariant
                rest@ + chunks@.reverse() == all.reverse(),
            decreases chunks.len(),
        {
            let c = chunks.pop().unwrap();
            proof {
                assert(chunks@.push(c).reverse() =~= seq![c] + chunks@.reverse());
            }
            rest.push(c);
            assert(rest@ + chunks@.reverse() =~= all.reverse());
        }
        assert(rest@ =~= all.reverse());
        while rest.len() > 0
            invariant
                self.pending_chunks@ + rest@.reverse() == start + all,
                self.num_streams == old(self).num_streams,
                self.strategy == old(self).strategy,
                self.current_stream == old(self).current_stream,
            decreases rest.len(),
        {
            let ghost before = rest@;
            let c = rest.pop().unwrap();
            assert(before.reverse() =~= seq![c] + rest@.reverse());
            self.pending_chunks.push_back(c);
            assert(self.pending_chunks@ + rest@.reverse() =~= start + all);
        }
        assert(rest@.reverse() =~= Seq::<ChunkMeta>::empty());
        assert(self.pending_chunks@ =~= start + all);
    }

    /// Take the next queued chunk and pick its stream; `None` when nothing
    /// is queued.
    pub fn next_assignment(&mut self) -> (a: Option<StreamAssignment>)
        requires
            old(self).streams() > 0,
        ensures
            assignment_step(*old(self), *final(self), a),
    {
        let chunk = match self.pending_chunks.pop_front() {
            Some(c) => c,
            None => {
                return None;
            },
        };
        let stream_index = match self.strategy {
            ScheduleStrategy::Weighted => (chunk.chunk_index as usize) % self.num_streams,
            _ => {
                let index = self.current_stream;
                self.current_stream = ((self.current_stream as u128 + 1) % (
                self.num_streams as u128)) as usize;
                index
            },
        };
        Some(StreamAssignment { stream_index, chunk })
    }

    /// Deal `chunks` over the streams: chunk `i` goes to stream `i % N`,
    /// whatever the strategy. Returns one queue per stream.
    pub fn schedule_all(&self, chunks: Vec<ChunkMeta>) -> (queues: Vec<Vec<ChunkMeta>>)
        requires
            self.streams() > 0,
        ensures
            dealt_round_robin(chunks@, self.streams() as int, queues@.map_values(|q: Vec<ChunkMeta>| q@)),
    {
        let n = self.num_streams;
        let mut queues: Vec<Vec<ChunkMeta>> = Vec::new();
        let mut s: usize = 0;
        while s < n
            invariant
                s <= n,
                queues@.len() == s,
                forall|t: int| 0 <= t < s ==> (#[trigger] queues@[t])@.len() == 0,
            decreases n - s,
        {
            queues.push(Vec::new());
            s = s + 1;
        }
        let mut chunks = chunks;
        let ghost all = chunks@;
        let total_len = chunks.len();
        let mut rest: Vec<ChunkMeta> = Vec::new();
        while chunks.len() > 0
            invariant
                rest@ + chunks@.reverse() == all.reverse(),
            decreases chunks.len(),
        {
            let c = chunks.pop().unwrap();
            proof {
                assert(chunks@.push(c).reverse() =~= seq![c] + chunks@.reverse());
            }
            rest.push(c);
            assert(rest@ + chunks@.reverse() =~= all.reverse());
        }
        assert(rest@.reverse() =~= all);
        assert(all.subrange(0, all.len() as int) =~= all);
        let mut i: usize = 0;
        while rest.len() > 0
            invariant
                n == self.num_streams,
                n > 0,
                queues@.len() == n,
                i + rest@.len() == all.len(),
                all.len() == total_len,
                rest@.reverse() == all.subrange(i as int, all.len() as int),
                forall|t: int| 0 <= t < n ==> (#[trigger] queues@[t])@.len() == dealt_count(i as int, n as int, t),
                forall|j: int| 0 <= j < i ==> queues@[j % (n as int)]@[j / (n as int)] == #[trigger] all[j],
            decreases rest.len(),
        {
            let ghost before = rest@;
            let c = rest.pop().unwrap();
            proof {
                assert(before =~= rest@.push(c));
                assert(before.reverse() =~= seq![c] + rest@.reverse());
                let sub = all.subrange(i as int, all.len() as int);
                assert(sub[0] == all[i as int]);
                assert(before.reverse()[0] == c);
                assert(rest@.reverse() =~= sub.subrange(1, sub.len() as int));
                assert(sub.subrange(1, sub.len() as int) =~= all.subrange(i + 1, all.len() as int));
            }
            let stream = i % n;
            proof {
                assert forall|t: int| 0 <= t < n implies dealt_count(i + 1, n as int, t) == dealt_count(i as int, n as int, t) + if t == stream as int { 1int } else { 0int } by {
                    lemma_deal_next(i as int, n as int, t);
                }
                lemma_deal_next(i as int, n as int, 0);
            }
            let ghost old_queues = queues@;
            let mut q = Vec::new();
            std::mem::swap(&mut q, &mut queues[stream]);
            q.push(c);
            queues.set(stream, q);
            assert forall|j: int| 0 <= j < i + 1 implies queues@[j % (n as int)]@[j / (n as int)] == #[trigger] all[j] by {
                if j < i {
                    lemma_deal_next(j, n as int, 0);
                    if j % (n as int) == stream as int {
                        lemma_same_queue_order(j, i as int, n as int);
                        assert(old_queues[j % (n as int)]@[j / (n as int)] == all[j]);
                    }
                }
            }
            i = i + 1;
        }
        assert(queues@.map_values(|q: Vec<ChunkMeta>| q@).len() == n);
        queues
    }

    /// Number of chunks still queued.
    pub fn pending_count(&self) -> (c: usize)
        ensures
            c == self.pending().len(),
    {
        self.pending_chunks.len()
    }

    /// Number of streams.
    pub fn num_streams(&self) -> (n: usize)
        ensures
            n == self.streams(),
    {
        self.num_streams
    }
}

} // verus!
