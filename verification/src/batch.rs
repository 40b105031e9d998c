//! # Batch Sends
//!
//! Several files sent to one peer over one connection: where to connect,
//! the batch totals carried in each file plan, and the message reported
//! when the batch ends.

use vstd::prelude::*;

use crate::text::{contains_char, decimal, decimal_u64};

verus! {

/// The QUIC port used when a target names no port.
pub const DEFAULT_PORT: u16 = 5000;

/// The target address text with the default port appended when it names
/// none (contains no `:`).
pub open spec fn with_default_port_spec(target: Seq<char>) -> Seq<char> {
    if target.contains(':') {
        target
    } else {
        target + ":5000"@
    }
}

/// Append the default port to a target that names none.
pub fn with_default_port(target: &str) -> (r: String)
    ensures
        r@ == with_default_port_spec(target@),
{
    let mut r = String::from_str(target);
    if !contains_char(target, ':') {
        r.append(":5000");
    }
    r
}

/// The total size of a batch: the sum of the file sizes, saturating at
/// `u64::MAX`.
pub open spec fn batch_total(sizes: Seq<u64>) -> int
    decreases sizes.len(),
{
    if sizes.len() == 0 {
        0
    } else {
        let t = batch_total(sizes.drop_last()) + sizes.last();
        if t > u64::MAX {
            u64::MAX as int
        } else {
            t
        }
    }
}

/// The total size of a batch of files.
pub fn total_batch_size(sizes: &Vec<u64>) -> (t: u64)
    ensures
        t == batch_total(sizes@),
{
    let mut t: u64 = 0;
    let mut i: usize = 0;
    while i < sizes.len()
        invariant
            i <= sizes@.len(),
            t == batch_total(sizes@.take(i as int)),
        decreases sizes@.len() - i,
    {
        assert(sizes@.take(i + 1).drop_last() =~= sizes@.take(i as int));
        t = t.saturating_add(sizes[i]);
        i = i + 1;
    }
    assert(sizes@.take(i as int) =~= sizes@);
    t
}

/// Progress of a batch: how many files went through and how many of the
/// batch's bytes they carried.
pub struct BatchProgress {
    /// Number of files in the batch.
    pub total_files: u32,
    /// Files sent so far.
    pub sent_files: u32,
    /// Bytes of the files sent so far (saturating).
    pub bytes_sent: u64,
}

impl BatchProgress {
    /// Nothing sent of a batch of `total_files` files.
    pub fn new(total_files: u32) -> (b: Self)
        ensures
            b.total_files == total_files,
            b.sent_files == 0,
            b.bytes_sent == 0,
    {
        BatchProgress { total_files, sent_files: 0, bytes_sent: 0 }
    }

    /// The 1-based index of the next file.
    pub fn next_index(&self) -> (i: u32)
        requires
            self.sent_files < u32::MAX,
        ensures
            i == self.sent_files + 1,
    {
        self.sent_files + 1
    }

    /// A file of `size` bytes went through.
    pub fn file_sent(&mut self, size: u64)
        requires
            old(self).sent_files < u32::MAX,
        ensures
            final(self).total_files == old(self).total_files,
            final(self).sent_files == old(self).sent_files + 1,
            final(self).bytes_sent == if old(self).bytes_sent + size > u64::MAX {
                u64::MAX as int
            } else {
                old(self).bytes_sent + size
            },
    {
        self.sent_files = self.sent_files + 1;
        self.bytes_sent = self.bytes_sent.saturating_add(size);
    }

    /// The report of a batch that went through: `Success! Sent n/t files
    /// to <target>`.
    pub fn success_message(&self, target: &str) -> (m: String)
        ensures
            m@ == "Success! Sent "@ + decimal(self.sent_files as nat) + "/"@ + decimal(
                self.total_files as nat,
            ) + " files to "@ + target@,
    {
        let mut m = String::from_str("Success! Sent ");
        m.append(decimal_u64(self.sent_files as u64).as_str());
        m.append("/");
        m.append(decimal_u64(self.total_files as u64).as_str());
        m.append(" files to ");
        m.append(target);
        m
    }

    /// The report of a batch cut short by `error`: `Interrupted! Sent n/t
    /// files. Last error: <error>`.
    pub fn interrupted_message(&self, error: &str) -> (m: String)
        ensures
            m@ == "Interrupted! Sent "@ + decimal(self.sent_files as nat) + "/"@ + decimal(
                self.total_files as nat,
            ) + " files. Last error: "@ + error@,
    {
        let mut m = String::from_str("Interrupted! Sent ");
        m.append(decimal_u64(self.sent_files as u64).as_str());
        m.append("/");
        m.append(decimal_u64(self.total_files as u64).as_str());
        m.append(" files. Last error: ");
        m.append(error);
        m
    }
}

} // verus!
