//! # Connection Sessions
//!
//! Decisions taken while serving a connection and while connecting out.
//!
//! An incoming connection may carry several files. The first file plan of
//! a batch asks the user once, through the single prompt slot shared by
//! all connections; the other plans of the same connection wait for that
//! answer. A prompt that gets no answer within two minutes, or whose
//! channel closes, counts as a decline.
//!
//! An outgoing transfer tries to connect up to `CONNECT_RETRIES` times,
//! `CONNECT_RETRY_DELAY_SECS` apart, each attempt bounded by
//! `CONNECT_TIMEOUT_SECS`.

use vstd::prelude::*;

use crate::network::addr::EndpointAddr;

verus! {

/// How long the user has to answer a prompt (seconds).
pub const DECISION_TIMEOUT_SECS: u64 = 120;

/// How long a stream waits before looking at the prompt slot again
/// (milliseconds).
pub const PROMPT_POLL_MS: u64 = 500;

/// Connection attempts before giving up.
pub const CONNECT_RETRIES: u32 = 3;

/// Delay between connection attempts (seconds).
pub const CONNECT_RETRY_DELAY_SECS: u64 = 2;

/// Bound on one connection attempt (seconds).
pub const CONNECT_TIMEOUT_SECS: u64 = 15;

/// What a file-plan stream does next.
#[derive(Debug, Clone, Copy, PartialEq, Eq, Structural)]
pub enum PlanStep {
    /// The session is decided: receive the file or decline it.
    Proceed { accepted: bool },
    /// Another connection's prompt is showing: wait, then look again.
    WaitForPrompt,
    /// Take the prompt slot and ask the user.
    AskUser,
}

/// How a prompt ended.
#[derive(Debug, Clone, Copy, PartialEq, Eq, Structural)]
pub enum PromptReply {
    /// The user answered.
    Answered(bool),
    /// No answer within `DECISION_TIMEOUT_SECS`.
    TimedOut,
    /// The answer channel closed.
    Dropped,
}

/// The accept/decline decision of one incoming connection.
#[derive(Debug, Clone, Copy, PartialEq, Eq, Structural)]
pub struct SessionDecision {
    /// `None` until decided.
    pub decided: Option<bool>,
}

impl SessionDecision {
    /// Undecided.
    pub fn new() -> (d: Self)
        ensures
            d.decided is None,
    {
        SessionDecision { decided: None }
    }

    /// The next step of a file-plan stream, given whether the shared
    /// prompt slot is taken.
    pub fn next_step(&self, prompt_busy: bool) -> (step: PlanStep)
        ensures
            step == match self.decided {
                Some(a) => PlanStep::Proceed { accepted: a },
                None => if prompt_busy {
                    PlanStep::WaitForPrompt
                } else {
                    PlanStep::AskUser
                },
            },
    {
        match self.decided {
            Some(a) => PlanStep::Proceed { accepted: a },
            None => if prompt_busy {
                PlanStep::WaitForPrompt
            } else {
                PlanStep::AskUser
            },
        }
    }

    /// Record how the prompt ended: only an explicit acceptance accepts.
    pub fn record(&mut self, reply: PromptReply)
        ensures
            final(self).decided == Some(reply == PromptReply::Answered(true)),
    {
        let accepted = match reply {
            PromptReply::Answered(a) => a,
            PromptReply::TimedOut => false,
            PromptReply::Dropped => false,
        };
        self.decided = Some(accepted);
    }

    /// Whether the files of this connection are received: only once
    /// accepted.
    pub fn accepted(&self) -> (b: bool)
        ensures
            b == (self.decided == Some(true)),
    {
        match self.decided {
            Some(a) => a,
            None => false,
        }
    }
}

/// How one connection attempt ended.
#[derive(Debug, Clone, Copy, PartialEq, Eq, Structural)]
pub enum ConnectOutcome {
    /// Connected and handshaken.
    Connected,
    /// The attempt failed.
    Failed,
    /// The attempt took longer than `CONNECT_TIMEOUT_SECS`.
    TimedOut,
}

/// What follows a connection attempt.
#[derive(Debug, Clone, Copy, PartialEq, Eq, Structural)]
pub enum ConnectAction {
    /// Send the file over the connection.
    Send,
    /// Wait `CONNECT_RETRY_DELAY_SECS`, then try again.
    RetryAfterDelay,
    /// Report the last error and stop.
    GiveUp,
}

/// What follows attempt number `attempt` (counted from 1).
pub fn after_attempt(attempt: u32, outcome: ConnectOutcome) -> (action: ConnectAction)
    ensures
        outcome == ConnectOutcome::Connected ==> action == ConnectAction::Send,
        outcome != ConnectOutcome::Connected && attempt < CONNECT_RETRIES ==> action
            == ConnectAction::RetryAfterDelay,
        outcome != ConnectOutcome::Connected && attempt >= CONNECT_RETRIES ==> action
            == ConnectAction::GiveUp,
{
    match outcome {
        ConnectOutcome::Connected => ConnectAction::Send,
        _ => if attempt < CONNECT_RETRIES {
            ConnectAction::RetryAfterDelay
        } else {
            ConnectAction::GiveUp
        },
    }
}

/// The error reported for an attempt that timed out.
pub fn timeout_message() -> (m: String)
    ensures
        m@ == "Connection timeout after 15s"@,
{
    String::from_str("Connection timeout after 15s")
}

/// The incoming transfer the GUI is asked about: file ID, sender address,
/// file name and number of files in the batch.
#[derive(Debug)]
pub struct PendingPrompt {
    pub file_id: String,
    pub from_addr: EndpointAddr,
    pub file_name: String,
    pub total_files: u32,
}

/// The channel registered for `k`: the last entry with that key.
pub open spec fn lookup<S>(entries: Seq<(String, S)>, k: Seq<char>) -> Option<S>
    decreases entries.len(),
{
    if entries.len() == 0 {
        None
    } else if entries.last().0@ == k {
        Some(entries.last().1)
    } else {
        lookup(entries.drop_last(), k)
    }
}

/// The entries whose key is not `k`, in order.
pub open spec fn without_key<S>(entries: Seq<(String, S)>, k: Seq<char>) -> Seq<(String, S)> {
    entries.filter(|e: (String, S)| e.0@ != k)
}

/// Dropping the entries of one key forgets that key and keeps the others.
proof fn lemma_lookup_without_key<S>(entries: Seq<(String, S)>, k: Seq<char>, q: Seq<char>)
    ensures
        lookup(without_key(entries, k), q) == if q == k {
            None
        } else {
            lookup(entries, q)
        },
    decreases entries.len(),
{
    reveal(Seq::filter);
    if entries.len() > 0 {
        lemma_lookup_without_key(entries.drop_last(), k, q);
        let last = entries.last();
        let rest = without_key(entries.drop_last(), k);
        assert(without_key(entries, k) == if last.0@ != k {
            rest.push(last)
        } else {
            rest
        });
        if last.0@ != k {
            assert(rest.push(last).drop_last() =~= rest);
            assert(rest.push(last).last() == last);
        }
    }
}

/// The answer channels of the prompts waiting for the user, by file ID
/// (`S` is the sending half of a channel), and the one prompt shown. The
/// whole value sits behind one lock in the application, so the channels
/// need no concurrent map; they are a vector of pairs because vstd
/// specifies `HashMap` only for keys it knows to hash consistently
/// (integers and the like), not for `String` keys.
pub struct PendingDecisions<S> {
    entries: Vec<(String, S)>,
    display: Option<PendingPrompt>,
}

impl<S> PendingDecisions<S> {
    /// The channel waiting for the answer about `file_id`, if any.
    pub closed spec fn channel_for(&self, file_id: Seq<char>) -> Option<S> {
        lookup(self.entries@, file_id)
    }

    /// The prompt shown, if any.
    pub closed spec fn shown(&self) -> Option<PendingPrompt> {
        self.display
    }

    /// Whether a prompt is showing.
    pub open spec fn showing(&self) -> bool {
        self.shown() is Some
    }

    /// Nothing waiting, nothing shown.
    pub fn new() -> (p: Self)
        ensures
            forall|k: Seq<char>| p.channel_for(k) is None,
            p.shown() is None,
    {
        PendingDecisions { entries: Vec::new(), display: None }
    }

    /// Remove the entries of `file_id`, returning the channel registered
    /// for it.
    fn take_entry(&mut self, file_id: &str) -> (r: Option<S>)
        ensures
            r == lookup(old(self).entries@, file_id@),
            final(self).entries@ == without_key(old(self).entries@, file_id@),
            final(self).display == old(self).display,
    {
        let ghost all = self.entries@;
        let ghost keep = |e: (String, S)| e.0@ != file_id@;
        let mut rest: Vec<(String, S)> = Vec::new();
        std::mem::swap(&mut rest, &mut self.entries);
        let mut kept: Vec<(String, S)> = Vec::new();
        let mut found: Option<S> = None;
        let ghost mut i: int = 0;
        while rest.len() > 0
            invariant
                0 <= i <= all.len(),
                keep == (|e: (String, S)| e.0@ != file_id@),
                rest@ == all.subrange(i, all.len() as int),
                kept@ == all.take(i).filter(keep),
                found == lookup(all.take(i), file_id@),
            decreases rest@.len(),
        {
            let e = rest.remove(0);
            proof {
                reveal(Seq::filter);
                assert(all.take(i + 1).drop_last() =~= all.take(i));
                assert(all.take(i + 1).last() == e);
            }
            let (key, channel) = e;
            if crate::text::eq_lit(&key, file_id) {
                found = Some(channel);
            } else {
                kept.push((key, channel));
            }
            proof {
                i = i + 1;
                assert(rest@ =~= all.subrange(i, all.len() as int));
            }
        }
        assert(all.take(i) =~= all);
        self.entries = kept;
        found
    }

    /// Show a prompt and register its answer channel, replacing (and
    /// dropping) one registered for the same file.
    pub fn ask(&mut self, prompt: PendingPrompt, channel: S)
        ensures
            final(self).shown() == Some(prompt),
            final(self).channel_for(prompt.file_id@) == Some(channel),
            forall|k: Seq<char>|
                k != prompt.file_id@ ==> final(self).channel_for(k) == old(self).channel_for(k),
    {
        let key = prompt.file_id.clone();
        let _replaced = self.take_entry(key.as_str());
        let ghost before = self.entries@;
        self.entries.push((key, channel));
        self.display = Some(prompt);
        proof {
            assert(self.entries@.drop_last() =~= before);
            assert forall|k: Seq<char>| k != prompt.file_id@ implies self.channel_for(k)
                == old(self).channel_for(k) by {
                lemma_lookup_without_key(old(self).entries@, prompt.file_id@, k);
            }
        }
    }

    /// The user answered about `file_id`: hand back its channel (for the
    /// caller to send the answer on), forget it, and stop showing the
    /// prompt.
    pub fn respond_incoming(&mut self, file_id: &str) -> (r: Option<S>)
        ensures
            r == old(self).channel_for(file_id@),
            final(self).channel_for(file_id@) is None,
            forall|k: Seq<char>|
                k != file_id@ ==> final(self).channel_for(k) == old(self).channel_for(k),
            final(self).shown() is None,
    {
        let r = self.take_entry(file_id);
        self.display = None;
        proof {
            lemma_lookup_without_key(old(self).entries@, file_id@, file_id@);
            assert forall|k: Seq<char>| k != file_id@ implies self.channel_for(k)
                == old(self).channel_for(k) by {
                lemma_lookup_without_key(old(self).entries@, file_id@, k);
            }
        }
        r
    }

    /// The decision about `file_id` was taken: forget its channel and stop
    /// showing the prompt.
    pub fn finish(&mut self, file_id: &str)
        ensures
            final(self).channel_for(file_id@) is None,
            forall|k: Seq<char>|
                k != file_id@ ==> final(self).channel_for(k) == old(self).channel_for(k),
            final(self).shown() is None,
    {
        let _dropped = self.respond_incoming(file_id);
    }

    /// Whether a prompt is showing.
    pub fn is_showing(&self) -> (b: bool)
        ensures
            b == self.showing(),
    {
        self.display.is_some()
    }

    /// The prompt shown, if any.
    pub fn prompt(&self) -> (p: Option<&PendingPrompt>)
        ensures
            match p {
                Some(q) => self.shown() == Some(*q),
                None => self.shown() is None,
            },
    {
        match &self.display {
            Some(q) => Some(q),
            None => None,
        }
    }
}

} // verus!
