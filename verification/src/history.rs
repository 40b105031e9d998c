//! # Transfer History
//!
//! One record per finished transfer, sent or received, kept as
//! `history.json` in the download directory by the application.

use vstd::prelude::*;

use crate::external::clock::{local_display_shape, now_local_display};
use crate::storage::paths::{join_path, path_join};

verus! {

/// A finished transfer.
#[derive(Debug)]
pub struct TransferHistoryItem {
    /// File name (the full path for sent files).
    pub file_name: String,
    /// File size in bytes (0 for sent files).
    pub size: u64,
    /// "Success", "Failed: <reason>" or "Declined".
    pub status: String,
    /// Local time, `YYYY-MM-DD HH:MM:SS`.
    pub timestamp: String,
    /// Whether the file was received.
    pub is_incoming: bool,
    /// Where the file is on this device, when known.
    pub saved_path: Option<String>,
}

/// The status text of a transfer that ended with `error` (none on success).
pub open spec fn status_text(error: Option<Seq<char>>) -> Seq<char> {
    match error {
        None => "Success"@,
        Some(e) => "Failed: "@ + e,
    }
}

/// The status text of a transfer that ended with `error` (none on success).
pub fn status_for(error: Option<&str>) -> (s: String)
    ensures
        s@ == status_text(
            match error {
                Some(e) => Some(e@),
                None => None,
            },
        ),
{
    match error {
        None => String::from_str("Success"),
        Some(e) => {
            let mut s = String::from_str("Failed: ");
            s.append(e);
            s
        },
    }
}

impl TransferHistoryItem {
    /// The record of a sent file of `size` bytes, at `timestamp`: named
    /// and located by its path, outgoing.
    pub fn sent(path: &str, size: u64, error: Option<&str>, timestamp: String) -> (item: Self)
        ensures
            item.file_name@ == path@,
            item.size == size,
            item.status@ == status_text(
                match error {
                    Some(e) => Some(e@),
                    None => None,
                },
            ),
            item.timestamp == timestamp,
            !item.is_incoming,
            item.saved_path matches Some(p) && p@ == path@,
    {
        TransferHistoryItem {
            file_name: String::from_str(path),
            size,
            status: status_for(error),
            timestamp,
            is_incoming: false,
            saved_path: Some(String::from_str(path)),
        }
    }

    /// The record of a received file, at `timestamp`.
    pub fn received(file_name: &str, size: u64, error: Option<&str>, timestamp: String) -> (item:
        Self)
        ensures
            item.file_name@ == file_name@,
            item.size == size,
            item.status@ == status_text(
                match error {
                    Some(e) => Some(e@),
                    None => None,
                },
            ),
            item.timestamp == timestamp,
            item.is_incoming,
            item.saved_path is None,
    {
        TransferHistoryItem {
            file_name: String::from_str(file_name),
            size,
            status: status_for(error),
            timestamp,
            is_incoming: true,
            saved_path: None,
        }
    }

    /// The record of an incoming transfer the user declined, at
    /// `timestamp`.
    pub fn declined(file_name: &str, size: u64, timestamp: String) -> (item: Self)
        ensures
            item.file_name@ == file_name@,
            item.size == size,
            item.status@ == "Declined"@,
            item.timestamp == timestamp,
            item.is_incoming,
            item.saved_path is None,
    {
        TransferHistoryItem {
            file_name: String::from_str(file_name),
            size,
            status: String::from_str("Declined"),
            timestamp,
            is_incoming: true,
            saved_path: None,
        }
    }

    /// The record of a sent file of `size` bytes, stamped with the current
    /// local time.
    pub fn sent_now(path: &str, size: u64, error: Option<&str>) -> (item: Self)
        ensures
            item.file_name@ == path@,
            item.size == size,
            item.status@ == status_text(
                match error {
                    Some(e) => Some(e@),
                    None => None,
                },
            ),
            !item.is_incoming,
            item.saved_path matches Some(p) && p@ == path@,
            local_display_shape(item.timestamp@),
    {
        Self::sent(path, size, error, now_local_display())
    }

    /// The record of a received file, stamped with the current local time.
    pub fn received_now(file_name: &str, size: u64, error: Option<&str>) -> (item: Self)
        ensures
            item.file_name@ == file_name@,
            item.size == size,
            item.status@ == status_text(
                match error {
                    Some(e) => Some(e@),
                    None => None,
                },
            ),
            item.is_incoming,
            item.saved_path is None,
            local_display_shape(item.timestamp@),
    {
        Self::received(file_name, size, error, now_local_display())
    }

    /// The record of a declined transfer, stamped with the current local
    /// time.
    pub fn declined_now(file_name: &str, size: u64) -> (item: Self)
        ensures
            item.file_name@ == file_name@,
            item.size == size,
            item.status@ == "Declined"@,
            item.is_incoming,
            item.saved_path is None,
            local_display_shape(item.timestamp@),
    {
        Self::declined(file_name, size, now_local_display())
    }
}

/// The history file in a download directory.
pub fn history_path(download_path: &str) -> (p: String)
    ensures
        p@ == path_join(download_path@, "history.json"@),
{
    join_path(download_path, "history.json")
}

} // verus!
