//! The backend status message shown once by the GUI.

use vstd::prelude::*;

verus! {

/// The most recent backend status message, kept until the GUI takes it.
pub struct BackendStatus {
    message: Option<String>,
}

impl BackendStatus {
    /// The message waiting, if any.
    pub closed spec fn pending(&self) -> Option<Seq<char>> {
        match self.message {
            Some(m) => Some(m@),
            None => None,
        }
    }

    /// No message waiting.
    pub fn new() -> (s: Self)
        ensures
            s.pending() is None,
    {
        BackendStatus { message: None }
    }

    /// Replace the waiting message.
    pub fn set_backend_status(&mut self, msg: String)
        ensures
            final(self).pending() == Some(msg@),
    {
        self.message = Some(msg);
    }

    /// Take the waiting message, leaving none.
    pub fn take_backend_status(&mut self) -> (m: Option<String>)
        ensures
            match m {
                Some(s) => old(self).pending() == Some(s@),
                None => old(self).pending() is None,
            },
            final(self).pending() is None,
    {
        let m = self.message.take();
        m
    }
}

} // verus!
