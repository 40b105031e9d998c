//! # Chunk Storage
//!
//! Temporary storage for file chunks during transfer. Chunks are stored as
//! individual files, one directory per transfer:
//!
//! ```text
//! temp/
//!   <file_id>/
//!     chunk_000000
//!     chunk_000001
//!     ...
//! ```
//!
//! This allows out-of-order reception and easy resume (the chunk files
//! present are the chunks received). This module decides the layout: the
//! directory and file names, and which directory entries are chunks; the
//! application does the file operations.

use vstd::prelude::*;

use crate::storage::paths::{join_path, path_join};
use crate::text::{
    decimal_zero_padded, lemma_zero_padded_reads_back, parse_u64, parsed_u64, unsigned_digits,
    zero_padded,
};

verus! {

broadcast use vstd::seq_lib::group_to_multiset_ensures;

/// Prefix of every chunk file name.
pub open spec fn chunk_prefix() -> Seq<char> {
    "chunk_"@
}

/// The file name of chunk `index`: `chunk_` and the index in decimal,
/// zero-padded to six digits.
pub open spec fn chunk_file_name_of(index: u64) -> Seq<char> {
    chunk_prefix() + zero_padded(index as nat, 6)
}

/// The chunk index a directory entry stands for: the entry's name must be
/// `chunk_` followed by a number as `str::parse::<u64>` reads it.
pub open spec fn chunk_index_of(name: Seq<char>) -> Option<u64> {
    if name.len() >= 6 && name.take(6) == chunk_prefix() {
        parsed_u64(name.skip(6))
    } else {
        None
    }
}

/// The chunk indices named by a list of directory entries, in list order.
pub open spec fn chunk_indices_in(names: Seq<Seq<char>>) -> Seq<u64>
    decreases names.len(),
{
    if names.len() == 0 {
        Seq::empty()
    } else {
        let rest = chunk_indices_in(names.drop_last());
        match chunk_index_of(names.last()) {
            Some(i) => rest.push(i),
            None => rest,
        }
    }
}

/// The sequence is in ascending order.
pub open spec fn ascending(s: Seq<u64>) -> bool {
    forall|i: int, j: int| 0 <= i <= j < s.len() ==> s[i] <= s[j]
}

/// Chunk files are found again: the file name of chunk `index` reads back
/// as `index`.
pub proof fn lemma_chunk_file_name_reads_back(index: u64)
    ensures
        chunk_index_of(chunk_file_name_of(index)) == Some(index),
{
    reveal_strlit("chunk_");
    let name = chunk_file_name_of(index);
    let digits = zero_padded(index as nat, 6);
    lemma_zero_padded_reads_back(index as nat, 6);
    assert(name.take(6) =~= chunk_prefix());
    assert(name.skip(6) =~= digits);
    assert(unsigned_digits(digits) == digits);
}

/// The file name of chunk `index`.
pub fn chunk_file_name(index: u64) -> (name: String)
    ensures
        name@ == chunk_file_name_of(index),
{
    let mut name = String::from_str("chunk_");
    let digits = decimal_zero_padded(index, 6);
    name.append(digits.as_str());
    name
}

/// The chunk index named by a directory entry, if it is a chunk file.
pub fn parse_chunk_file_name(name: &str) -> (r: Option<u64>)
    ensures
        r == chunk_index_of(name@),
{
    proof {
        reveal_strlit("chunk_");
    }
    let n = name.unicode_len();
    if n < 6 {
        return None;
    }
    let head = name.substring_char(0, 6);
    let is_chunk = head.get_char(0) == 'c' && head.get_char(1) == 'h' && head.get_char(2) == 'u'
        && head.get_char(3) == 'n' && head.get_char(4) == 'k' && head.get_char(5) == '_';
    if !is_chunk {
        proof {
            if name@.take(6) == chunk_prefix() {
                assert(head@ =~= name@.take(6));
            }
        }
        return None;
    }
    assert(name@.take(6) =~= chunk_prefix());
    let rest = name.substring_char(6, n);
    assert(rest@ =~= name@.skip(6));
    parse_u64(rest)
}

/// Insert `x` into an ascending vector, keeping it ascending.
fn insert_ascending(v: &mut Vec<u64>, x: u64)
    requires
        ascending(old(v)@),
    ensures
        ascending(final(v)@),
        final(v)@.to_multiset() == old(v)@.to_multiset().insert(x),
{
    let mut pos: usize = 0;
    while pos < v.len() && v[pos] <= x
        invariant
            pos <= v@.len(),
            forall|i: int| 0 <= i < pos ==> v@[i] <= x,
        decreases v@.len() - pos,
    {
        pos = pos + 1;
    }
    let ghost before = v@;
    v.insert(pos, x);
    proof {
        assert(v@ == before.insert(pos as int, x));
        assert forall|i: int, j: int| 0 <= i <= j < v@.len() implies v@[i] <= v@[j] by {
            if j < pos {
            } else if i > pos {
                assert(v@[i] == before[i - 1]);
                assert(v@[j] == before[j - 1]);
            } else if i == pos {
                if j > pos {
                    assert(before[j - 1] >= before[pos as int]);
                }
            } else {
                if j > pos {
                    assert(v@[j] == before[j - 1]);
                }
            }
        }
    }
}

/// The chunk indices named by the entries of a transfer's directory, in
/// ascending order (what `received_chunks` reports).
pub fn sorted_chunk_indices(names: &Vec<String>) -> (indices: Vec<u64>)
    ensures
        ascending(indices@),
        indices@.to_multiset() == chunk_indices_in(names@.map_values(|s: String| s@)).to_multiset(),
{
    let ghost all = names@.map_values(|s: String| s@);
    let mut out: Vec<u64> = Vec::new();
    let mut i: usize = 0;
    while i < names.len()
        invariant
            i <= names@.len(),
            all == names@.map_values(|s: String| s@),
            ascending(out@),
            out@.to_multiset() == chunk_indices_in(all.take(i as int)).to_multiset(),
        decreases names@.len() - i,
    {
        let parsed = parse_chunk_file_name(names[i].as_str());
        proof {
            assert(all.take(i + 1).drop_last() =~= all.take(i as int));
            assert(all.take(i + 1).last() == names@[i as int]@);
        }
        match parsed {
            Some(index) => {
                insert_ascending(&mut out, index);
            },
            None => {},
        }
        i = i + 1;
    }
    assert(all.take(i as int) =~= all);
    out
}

/// Temporary chunk storage rooted at a base directory.
pub struct ChunkStorage {
    base_dir: String,
}

impl ChunkStorage {
    /// The base directory.
    pub closed spec fn base(&self) -> Seq<char> {
        self.base_dir@
    }

    /// Storage under the system temporary directory `temp_dir`:
    /// `<temp_dir>/fastshare/chunks`.
    pub fn new(temp_dir: &str) -> (s: Self)
        ensures
            s.base() == path_join(path_join(temp_dir@, "fastshare"@), "chunks"@),
    {
        let app_dir = join_path(temp_dir, "fastshare");
        let base_dir = join_path(app_dir.as_str(), "chunks");
        ChunkStorage { base_dir }
    }

    /// Storage at a given base directory.
    pub fn with_path(base_dir: String) -> (s: Self)
        ensures
            s.base() == base_dir@,
    {
        ChunkStorage { base_dir }
    }

    /// The base directory.
    pub fn base_dir(&self) -> (p: &str)
        ensures
            p@ == self.base(),
    {
        self.base_dir.as_str()
    }

    /// The directory holding the chunks of a transfer.
    pub fn file_dir(&self, file_id: &str) -> (p: String)
        ensures
            p@ == path_join(self.base(), file_id@),
    {
        join_path(self.base_dir.as_str(), file_id)
    }

    /// The file holding chunk `chunk_index` of a transfer.
    pub fn chunk_path(&self, file_id: &str, chunk_index: u64) -> (p: String)
        ensures
            p@ == path_join(path_join(self.base(), file_id@), chunk_file_name_of(chunk_index)),
    {
        let dir = self.file_dir(file_id);
        let name = chunk_file_name(chunk_index);
        join_path(dir.as_str(), name.as_str())
    }
}

} // verus!
