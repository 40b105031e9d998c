//! # Transfer Resume State
//!
//! Tracks which chunks of a transfer have been received and verified, so an
//! interrupted transfer can continue where it stopped. The state is saved as
//! JSON per transfer by the application; this module holds the bookkeeping.

use std::collections::HashSet;

use vstd::prelude::*;

use crate::external::clock::{is_clock_stamp, now_rfc3339};
use crate::storage::paths::{join_path, path_join};
use crate::transfer::chunker::{chunk_count, lemma_chunk_count_bounds};

verus! {

broadcast use vstd::std_specs::hash::group_hash_axioms;

/// Persistent transfer state for resume capability.
#[derive(Debug)]
pub struct TransferState {
    /// Unique file transfer identifier.
    pub file_id: String,
    /// Original file name.
    pub file_name: String,
    /// Total file size in bytes.
    pub total_size: u64,
    /// Chunk size used for the transfer.
    pub chunk_size: u64,
    /// Total number of chunks.
    pub total_chunks: u64,
    /// Indices of the chunks received so far.
    pub received_chunks: HashSet<u64>,
    /// Remote device ID.
    pub remote_device_id: String,
    /// RFC 3339 time when the transfer started.
    pub started_at: String,
    /// RFC 3339 time of the last update.
    pub updated_at: String,
}

/// Every chunk index below `total` is among the `received` ones.
pub open spec fn all_received(received: Set<u64>, total: u64) -> bool {
    forall|i: u64| i < total ==> received.contains(i)
}

/// The size of the chunk that starts `remaining` bytes before the end of
/// the file: a full chunk, or what is left when that is less.
pub open spec fn slot_len(remaining: nat, chunk_size: nat) -> nat {
    if remaining < chunk_size {
        remaining
    } else {
        chunk_size
    }
}

/// Bytes of the `received` chunks among the file's chunks from index
/// `start` on, when `remaining` bytes of the file start at chunk `start`:
/// the file is walked chunk by chunk, and each received chunk counts with
/// its real size.
pub open spec fn received_bytes_from(
    received: Set<u64>,
    start: nat,
    remaining: nat,
    chunk_size: nat,
) -> nat
    decreases remaining,
{
    if remaining == 0 || chunk_size == 0 {
        0
    } else {
        let len = slot_len(remaining, chunk_size);
        (if received.contains(start as u64) {
            len
        } else {
            0
        }) + received_bytes_from(received, start + 1, (remaining - len) as nat, chunk_size)
    }
}

/// Bytes of a file of `total_size` bytes in `chunk_size` chunks that the
/// `received` chunks hold: the sum of the sizes of the received chunks.
pub open spec fn received_file_bytes(received: Set<u64>, total_size: nat, chunk_size: nat) -> nat {
    received_bytes_from(received, 0, total_size, chunk_size)
}

/// The received bytes from chunk `start` on never exceed what is left of
/// the file.
pub proof fn lemma_received_bytes_from_bound(received: Set<u64>, start: nat, remaining: nat, chunk_size: nat)
    ensures
        received_bytes_from(received, start, remaining, chunk_size) <= remaining,
    decreases remaining,
{
    if remaining > 0 && chunk_size > 0 {
        let len = slot_len(remaining, chunk_size);
        lemma_received_bytes_from_bound(received, start + 1, (remaining - len) as nat, chunk_size);
    }
}

/// Every chunk of the rest of the file from index `start` on was received
/// (the chunks that begin within the `remaining` bytes): then the received
/// bytes from `start` on are all of those bytes.
pub proof fn lemma_all_remaining_received(received: Set<u64>, start: nat, remaining: nat, chunk_size: nat)
    requires
        chunk_size > 0,
        forall|j: nat| j * chunk_size < remaining ==> #[trigger] received.contains((start + j) as u64),
    ensures
        received_bytes_from(received, start, remaining, chunk_size) == remaining,
    decreases remaining,
{
    if remaining > 0 {
        assert(0 * chunk_size == 0) by (nonlinear_arith);
        assert(received.contains((start + 0nat) as u64));
        let len = slot_len(remaining, chunk_size);
        let rest = (remaining - len) as nat;
        assert forall|j: nat| j * chunk_size < rest implies #[trigger] received.contains(
            ((start + 1) + j) as u64,
        ) by {
            assert((j + 1) * chunk_size == j * chunk_size + chunk_size) by (nonlinear_arith);
            assert(((j + 1) as nat) * chunk_size < remaining);
            assert(received.contains((start + (j + 1) as nat) as u64));
        }
        lemma_all_remaining_received(received, start + 1, rest, chunk_size);
    }
}

/// Once every chunk of the file is received, the bytes received are the
/// whole file: with `total_chunks` the number of `chunk_size` chunks a file
/// of `total_size` bytes has, and every index below it received,
/// `bytes_received` is `total_size`.
pub proof fn lemma_complete_transfer_has_every_byte(
    received: Set<u64>,
    total_size: u64,
    chunk_size: u64,
    total_chunks: u64,
)
    requires
        chunk_size > 0,
        total_chunks == chunk_count(total_size as int, chunk_size as int),
        all_received(received, total_chunks),
    ensures
        received_file_bytes(received, total_size as nat, chunk_size as nat) == total_size,
{
    lemma_chunk_count_bounds(total_size as int, chunk_size as int);
    assert forall|j: nat| j * (chunk_size as nat) < total_size implies #[trigger] received.contains(
        (0 + j) as u64,
    ) by {
        if j >= total_chunks {
            assert(j * (chunk_size as nat) >= total_chunks * (chunk_size as nat)) by (nonlinear_arith)
                requires
                    j >= total_chunks,
            ;
        }
        assert((j as u64) < total_chunks);
    }
    lemma_all_remaining_received(received, 0, total_size as nat, chunk_size as nat);
}

/// A chunk index before `start` is not walked again: marking it received
/// changes nothing from `start` on.
proof fn lemma_earlier_index_not_counted(received: Set<u64>, i: u64, start: nat, remaining: nat, chunk_size: nat)
    requires
        i < start,
        start + remaining <= 0x1_0000_0000_0000_0000,
    ensures
        received_bytes_from(received.insert(i), start, remaining, chunk_size) == received_bytes_from(
            received,
            start,
            remaining,
            chunk_size,
        ),
    decreases remaining,
{
    if remaining > 0 && chunk_size > 0 {
        assert((start as u64) as int == start);
        let len = slot_len(remaining, chunk_size);
        lemma_earlier_index_not_counted(received, i, start + 1, (remaining - len) as nat, chunk_size);
    }
}

/// Marking one more chunk received (chunk `i`, which begins within the
/// `remaining` bytes walked from chunk `start` on) adds exactly that
/// chunk's size: a full chunk, or what is left of the file for the last.
proof fn lemma_new_chunk_adds_its_size(received: Set<u64>, i: u64, start: nat, remaining: nat, chunk_size: nat)
    requires
        chunk_size > 0,
        start <= i,
        (i - start) * chunk_size < remaining,
        start + remaining <= 0x1_0000_0000_0000_0000,
        !received.contains(i),
    ensures
        received_bytes_from(received.insert(i), start, remaining, chunk_size) == received_bytes_from(
            received,
            start,
            remaining,
            chunk_size,
        ) + slot_len((remaining - (i - start) * chunk_size) as nat, chunk_size),
    decreases remaining,
{
    assert((start as u64) as int == start);
    let len = slot_len(remaining, chunk_size);
    if i == start {
        assert((i - start) * chunk_size == 0) by (nonlinear_arith)
            requires
                i == start,
        ;
        lemma_earlier_index_not_counted(received, i, start + 1, (remaining - len) as nat, chunk_size);
    } else {
        let d = i - start;
        assert(d * chunk_size >= chunk_size) by (nonlinear_arith)
            requires
                d >= 1,
                chunk_size > 0,
        ;
        assert((d - 1) * chunk_size == d * chunk_size - chunk_size) by (nonlinear_arith);
        assert(len == chunk_size);
        lemma_new_chunk_adds_its_size(received, i, start + 1, (remaining - len) as nat, chunk_size);
    }
}

/// Receiving a chunk that was missing adds its real size to the bytes
/// received: `chunk_size` for a full chunk, the remainder of the file for
/// the last one, and always more than nothing.
pub proof fn lemma_received_chunk_adds_its_size(received: Set<u64>, i: u64, total_size: u64, chunk_size: u64)
    requires
        chunk_size > 0,
        (i as int) * (chunk_size as int) < total_size,
        !received.contains(i),
    ensures
        received_file_bytes(received.insert(i), total_size as nat, chunk_size as nat)
            == received_file_bytes(received, total_size as nat, chunk_size as nat) + slot_len(
            (total_size - i * chunk_size) as nat,
            chunk_size as nat,
        ),
        slot_len((total_size - i * chunk_size) as nat, chunk_size as nat) > 0,
        slot_len((total_size - i * chunk_size) as nat, chunk_size as nat) == if total_size - i
            * chunk_size < chunk_size {
            total_size - i * chunk_size
        } else {
            chunk_size as int
        },
{
    lemma_new_chunk_adds_its_size(received, i, 0, total_size as nat, chunk_size as nat);
}

/// Nothing received, no bytes.
pub proof fn lemma_nothing_received_no_bytes(start: nat, remaining: nat, chunk_size: nat)
    ensures
        received_bytes_from(Set::<u64>::empty(), start, remaining, chunk_size) == 0,
    decreases remaining,
{
    if remaining > 0 && chunk_size > 0 {
        let len = slot_len(remaining, chunk_size);
        lemma_nothing_received_no_bytes(start + 1, (remaining - len) as nat, chunk_size);
    }
}

/// The chunk indices below `total` that `received` lacks, in increasing order.
pub open spec fn lists_missing(missing: Seq<u64>, total: u64, received: Set<u64>) -> bool {
    &&& forall|k: int| 0 <= k < missing.len() ==> #[trigger] missing[k] < total
    &&& forall|k: int| 0 <= k < missing.len() ==> !received.contains(#[trigger] missing[k])
    &&& forall|a: int, b: int| 0 <= a < b < missing.len() ==> missing[a] < missing[b]
    &&& forall|i: u64| i < total && !received.contains(i) ==> missing.contains(i)
}

impl TransferState {
    /// Create the state of a fresh transfer: nothing received yet, both
    /// timestamps set to the current time.
    pub fn new(
        file_id: String,
        file_name: String,
        total_size: u64,
        chunk_size: u64,
        total_chunks: u64,
        remote_device_id: String,
    ) -> (s: Self)
        ensures
            s.file_id == file_id,
            s.file_name == file_name,
            s.total_size == total_size,
            s.chunk_size == chunk_size,
            s.total_chunks == total_chunks,
            s.remote_device_id == remote_device_id,
            s.received_chunks@ == Set::<u64>::empty(),
            s.started_at == s.updated_at,
            is_clock_stamp(s.started_at@),
    {
        let now = now_rfc3339();
        TransferState {
            file_id,
            file_name,
            total_size,
            chunk_size,
            total_chunks,
            received_chunks: HashSet::new(),
            remote_device_id,
            started_at: now.clone(),
            updated_at: now,
        }
    }

    /// Record a chunk as received and refresh the update time.
    pub fn mark_chunk_received(&mut self, chunk_index: u64)
        ensures
            final(self).received_chunks@ == old(self).received_chunks@.insert(chunk_index),
            final(self).file_id == old(self).file_id,
            final(self).file_name == old(self).file_name,
            final(self).total_size == old(self).total_size,
            final(self).chunk_size == old(self).chunk_size,
            final(self).total_chunks == old(self).total_chunks,
            final(self).remote_device_id == old(self).remote_device_id,
            final(self).started_at == old(self).started_at,
            is_clock_stamp(final(self).updated_at@),
    {
        self.received_chunks.insert(chunk_index);
        self.updated_at = now_rfc3339();
    }

    /// Whether all chunks have been received: every index below
    /// `total_chunks`.
    pub fn is_complete(&self) -> (b: bool)
        ensures
            b == all_received(self.received_chunks@, self.total_chunks),
    {
        let mut i: u64 = 0;
        while i < self.total_chunks
            invariant
                i <= self.total_chunks,
                forall|j: u64| j < i ==> self.received_chunks@.contains(j),
            decreases self.total_chunks - i,
        {
            if !self.received_chunks.contains(&i) {
                return false;
            }
            i = i + 1;
        }
        true
    }

    /// The chunk indices not yet received, in increasing order.
    pub fn missing_chunks(&self) -> (m: Vec<u64>)
        ensures
            lists_missing(m@, self.total_chunks, self.received_chunks@),
    {
        let mut missing: Vec<u64> = Vec::new();
        let mut i: u64 = 0;
        while i < self.total_chunks
            invariant
                i <= self.total_chunks,
                forall|k: int| 0 <= k < missing@.len() ==> #[trigger] missing@[k] < i,
                forall|k: int|
                    0 <= k < missing@.len() ==> !self.received_chunks@.contains(
                        #[trigger] missing@[k],
                    ),
                forall|a: int, b: int| 0 <= a < b < missing@.len() ==> missing@[a] < missing@[b],
                forall|j: u64|
                    j < i && !self.received_chunks@.contains(j) ==> missing@.contains(j),
            decreases self.total_chunks - i,
        {
            if !self.received_chunks.contains(&i) {
                let ghost before = missing@;
                missing.push(i);
                assert forall|j: u64| j < i + 1 && !self.received_chunks@.contains(j) implies missing@.contains(j) by {
                    if j == i {
                        assert(missing@[missing@.len() - 1] == i);
                    } else {
                        assert(before.contains(j));
                        let k = choose|k: int| 0 <= k < before.len() && before[k] == j;
                        assert(missing@[k] == j);
                    }
                }
            } else {
                assert forall|j: u64| j < i + 1 && !self.received_chunks@.contains(j) implies missing@.contains(j) by {
                    assert(j != i);
                }
            }
            i = i + 1;
        }
        missing
    }

    /// Bytes received so far: the sum of the sizes of the received chunks
    /// of the file (a full chunk each, the last one only what is left of
    /// the file).
    pub fn bytes_received(&self) -> (b: u64)
        requires
            self.chunk_size > 0,
        ensures
            b == received_file_bytes(self.received_chunks@, self.total_size as nat, self.chunk_size as nat),
            b <= self.total_size,
    {
        let cs = self.chunk_size;
        let mut remaining: u64 = self.total_size;
        let mut index: u64 = 0;
        let mut bytes: u64 = 0;
        proof {
            lemma_received_bytes_from_bound(self.received_chunks@, 0, self.total_size as nat, cs as nat);
        }
        while remaining > 0
            invariant
                cs == self.chunk_size,
                cs > 0,
                remaining <= self.total_size,
                index <= self.total_size - remaining,
                bytes <= self.total_size - remaining,
                bytes + received_bytes_from(self.received_chunks@, index as nat, remaining as nat, cs as nat)
                    == received_file_bytes(self.received_chunks@, self.total_size as nat, cs as nat),
            decreases remaining,
        {
            let len = if remaining < cs {
                remaining
            } else {
                cs
            };
            if self.received_chunks.contains(&index) {
                bytes = bytes + len;
            }
            remaining = remaining - len;
            index = index + 1;
        }
        bytes
    }
}

/// A transfer is complete exactly when no chunk is missing.
pub proof fn lemma_complete_iff_nothing_missing(received: Set<u64>, total: u64, missing: Seq<u64>)
    requires
        lists_missing(missing, total, received),
    ensures
        all_received(received, total) <==> missing.len() == 0,
{
    if missing.len() > 0 {
        assert(missing[0] < total && !received.contains(missing[0]));
    } else {
        assert forall|i: u64| i < total implies received.contains(i) by {
            if !received.contains(i) {
                assert(missing.contains(i));
            }
        }
    }
}

/// The directory where resume states are kept, under the local data
/// directory (or the home directory): `<dir>/.fastshare/resume`.
pub open spec fn resume_dir_under(dir: Seq<char>) -> Seq<char> {
    path_join(path_join(dir, ".fastshare"@), "resume"@)
}

/// Why the resume state directory cannot be determined.
#[derive(Debug, Clone, Copy, PartialEq, Eq, Structural)]
pub enum ResumeError {
    /// Neither a local data directory nor a home directory is known.
    NoHomeDirectory,
}

/// The resume state directory, under the local data directory when there
/// is one, else under the home directory.
pub fn resume_state_dir(data_local_dir: Option<&str>, home_dir: Option<&str>) -> (r: Result<
    String,
    ResumeError,
>)
    ensures
        match r {
            Ok(p) => match data_local_dir {
                Some(d) => p@ == resume_dir_under(d@),
                None => home_dir is Some && p@ == resume_dir_under(home_dir->0@),
            },
            Err(e) => data_local_dir is None && home_dir is None && e
                == ResumeError::NoHomeDirectory,
        },
{
    let base = match data_local_dir {
        Some(d) => d,
        None => match home_dir {
            Some(h) => h,
            None => return Err(ResumeError::NoHomeDirectory),
        },
    };
    let app_dir = join_path(base, ".fastshare");
    Ok(join_path(app_dir.as_str(), "resume"))
}

/// The resume state file of a transfer: `<file_id>.json` in the state
/// directory.
pub open spec fn state_file_of(state_dir: Seq<char>, file_id: Seq<char>) -> Seq<char> {
    path_join(state_dir, file_id + ".json"@)
}

/// Some chunk of the transfer has not been received.
pub open spec fn still_incomplete(s: TransferState) -> bool {
    !all_received(s.received_chunks@, s.total_chunks)
}

/// Where the resume states of transfers are kept. The application reads,
/// writes and deletes the JSON files.
pub struct ResumeManager {
    state_dir: String,
}

impl ResumeManager {
    /// The state directory.
    pub closed spec fn dir(&self) -> Seq<char> {
        self.state_dir@
    }

    /// A manager keeping its states in `state_dir`.
    pub fn new(state_dir: String) -> (m: Self)
        ensures
            m.dir() == state_dir@,
    {
        ResumeManager { state_dir }
    }

    /// The state directory.
    pub fn state_dir(&self) -> (p: &str)
        ensures
            p@ == self.dir(),
    {
        self.state_dir.as_str()
    }

    /// The file the state of transfer `file_id` is saved in.
    pub fn state_path(&self, file_id: &str) -> (p: String)
        ensures
            p@ == state_file_of(self.dir(), file_id@),
    {
        let mut name = String::from_str(file_id);
        name.append(".json");
        join_path(self.state_dir.as_str(), name.as_str())
    }

    /// The states of transfers that are not complete, in the order given.
    pub fn incomplete(states: Vec<TransferState>) -> (r: Vec<TransferState>)
        ensures
            r@ == states@.filter(|s: TransferState| still_incomplete(s)),
    {
        let ghost keep = |s: TransferState| still_incomplete(s);
        let ghost all = states@;
        let mut states = states;
        let mut kept: Vec<TransferState> = Vec::new();
        let ghost mut i: int = 0;
        while states.len() > 0
            invariant
                0 <= i <= all.len(),
                keep == (|s: TransferState| still_incomplete(s)),
                states@ == all.subrange(i, all.len() as int),
                kept@ == all.take(i).filter(keep),
            decreases states@.len(),
        {
            let s = states.remove(0);
            let ghost old_kept = kept@;
            proof {
                reveal(Seq::filter);
                assert(all.take(i + 1).drop_last() =~= all.take(i));
                assert(all.take(i + 1).last() == s);
                assert(all.take(i + 1).filter(keep) == if keep(s) {
                    all.take(i).filter(keep).push(s)
                } else {
                    all.take(i).filter(keep)
                });
            }
            let done = s.is_complete();
            assert(keep(s) == !done);
            assert(old_kept == all.take(i).filter(keep));
            if !done {
                kept.push(s);
                assert(kept@ == old_kept.push(s));
            } else {
                assert(kept@ == old_kept);
            }
            proof {
                assert(kept@ == all.take(i + 1).filter(keep));
                i = i + 1;
                assert(states@ =~= all.subrange(i, all.len() as int));
            }
        }
        assert(all.take(i) =~= all);
        kept
    }
}

} // verus!
