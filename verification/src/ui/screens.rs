//! State of the terminal screens: home, nearby devices, send and receive.

use vstd::prelude::*;
use vstd::string::StringSliceAdditionalSpecFns;
use vstd::utf8::{decode_utf8, encode_utf8, encode_utf8_decode_utf8, is_char_boundary};

use crate::network::discovery::DeviceInfo;
use crate::security::auth::TransferRequest;
use crate::text::{
    ascii_lowercase, contains_str, contains_text, is_ascii_text, lowercase_of, to_lowercase,
};

verus! {

/// Home screen state.
pub struct HomeScreen {
    /// Current device name.
    pub device_name: String,
    /// Current device ID (shortened for display).
    pub device_id_short: String,
    /// Number of nearby discovered devices.
    pub nearby_count: usize,
    /// Number of active transfers.
    pub active_transfers: usize,
    /// Current network status line.
    pub network_status: String,
    /// Whether the QUIC server is running.
    pub server_running: bool,
}

/// The first eight characters of a device ID, as the home screen shows it.
pub fn short_device_id(device_id: &str) -> (s: String)
    requires
        device_id@.len() >= 8,
    ensures
        s@ == device_id@.take(8),
{
    String::from_str(device_id.substring_char(0, 8))
}

impl HomeScreen {
    /// Home screen state for a running server with no active transfer; the
    /// network status line is computed by the caller.
    pub fn from_parts(
        device_name: String,
        device_id: &str,
        nearby_count: usize,
        network_status: String,
    ) -> (h: Self)
        requires
            device_id@.len() >= 8,
        ensures
            h.device_name == device_name,
            h.device_id_short@ == device_id@.take(8),
            h.nearby_count == nearby_count,
            h.active_transfers == 0,
            h.network_status == network_status,
            h.server_running,
    {
        HomeScreen {
            device_name,
            device_id_short: short_device_id(device_id),
            nearby_count,
            active_transfers: 0,
            network_status,
            server_running: true,
        }
    }
}

/// Receive screen: a pending incoming request, if any.
pub struct ReceiveScreen {
    /// Pending transfer request.
    pub request: Option<TransferRequest>,
    /// Whether a transfer is being received.
    pub is_receiving: bool,
}

impl ReceiveScreen {
    /// No request, not receiving.
    pub fn new() -> (r: Self)
        ensures
            r.request is None,
            !r.is_receiving,
    {
        ReceiveScreen { request: None, is_receiving: false }
    }

    /// Show a pending request.
    pub fn set_request(&mut self, request: TransferRequest)
        ensures
            final(self).request == Some(request),
            final(self).is_receiving == old(self).is_receiving,
    {
        self.request = Some(request);
    }
}

/// Send screen: the chosen file and the device it goes to.
pub struct SendScreen {
    /// Path of the chosen file.
    pub file_path: Option<String>,
    /// Name of the chosen file.
    pub file_name: String,
    /// Size of the chosen file in bytes.
    pub file_size: u64,
    /// Device the file goes to.
    pub target_device: Option<DeviceInfo>,
    /// Whether chunks are compressed.
    pub compression_enabled: bool,
    /// Number of parallel streams.
    pub parallel_streams: usize,
}

impl SendScreen {
    /// No file, no target; compression on and eight streams.
    pub fn new() -> (s: Self)
        ensures
            s.file_path is None,
            s.file_name@ == Seq::<char>::empty(),
            s.file_size == 0,
            s.target_device is None,
            s.compression_enabled,
            s.parallel_streams == 8,
    {
        SendScreen {
            file_path: None,
            file_name: String::new(),
            file_size: 0,
            target_device: None,
            compression_enabled: true,
            parallel_streams: 8,
        }
    }

    /// Choose the file to send.
    pub fn set_file(&mut self, path: String, name: String, size: u64)
        ensures
            final(self).file_path == Some(path),
            final(self).file_name == name,
            final(self).file_size == size,
            final(self).target_device == old(self).target_device,
            final(self).compression_enabled == old(self).compression_enabled,
            final(self).parallel_streams == old(self).parallel_streams,
    {
        self.file_path = Some(path);
        self.file_name = name;
        self.file_size = size;
    }

    /// Choose the device the file goes to.
    pub fn set_target(&mut self, device: DeviceInfo)
        ensures
            final(self).target_device == Some(device),
            final(self).file_path == old(self).file_path,
            final(self).file_name == old(self).file_name,
            final(self).file_size == old(self).file_size,
            final(self).compression_enabled == old(self).compression_enabled,
            final(self).parallel_streams == old(self).parallel_streams,
    {
        self.target_device = Some(device);
    }
}

/// A path as a column of `max_len` bytes shows it: a path whose UTF-8 form
/// fits is shown whole; a longer one is `...` followed by its last
/// `max_len - 3` bytes.
pub open spec fn path_display(path: Seq<char>, max_len: nat) -> Seq<char> {
    let bytes = encode_utf8(path);
    if bytes.len() <= max_len {
        path
    } else {
        "..."@ + decode_utf8(bytes.subrange(bytes.len() - max_len + 3, bytes.len() as int))
    }
}

/// Fit a path to a column of `max_len` bytes, keeping its end.
pub fn truncate_path(path: &str, max_len: usize) -> (r: String)
    requires
        path.spec_bytes().len() <= usize::MAX,
        path.spec_bytes().len() <= max_len || (max_len >= 3 && is_char_boundary(
            path.spec_bytes(),
            path.spec_bytes().len() - max_len + 3,
        )),
    ensures
        r@ == path_display(path@, max_len as nat),
{
    let len = path.len();
    if len <= max_len {
        String::from_str(path)
    } else {
        let (_, tail) = path.split_at(len - max_len + 3);
        let mut r = String::from_str("...");
        r.append(tail);
        proof {
            reveal_strlit("...");
            encode_utf8_decode_utf8(tail@);
        }
        r
    }
}

/// Nearby devices screen.
pub struct DevicesScreen {
    /// Discovered devices, in display order.
    pub devices: Vec<DeviceInfo>,
}

impl DevicesScreen {
    /// A screen listing `devices`.
    pub fn new(devices: Vec<DeviceInfo>) -> (d: Self)
        ensures
            d.devices == devices,
    {
        DevicesScreen { devices }
    }

    /// The device at a display position, counted from 1.
    pub fn get_device(&self, index: usize) -> (d: Option<&DeviceInfo>)
        ensures
            match d {
                Some(x) => 1 <= index <= self.devices@.len() && *x == self.devices@[index - 1],
                None => index == 0 || index > self.devices@.len(),
            },
    {
        if index > 0 && index <= self.devices.len() {
            Some(&self.devices[index - 1])
        } else {
            None
        }
    }
}

/// The icon shown for a device type.
pub open spec fn device_icon_of(device_type: Seq<char>) -> Seq<char> {
    if device_type == "phone"@ || device_type == "tablet"@ {
        "📱"@
    } else if device_type == "laptop"@ {
        "💻"@
    } else if device_type == "desktop"@ {
        "🖥️"@
    } else {
        "📟"@
    }
}

/// The icon shown for a device type.
pub fn device_icon(device_type: &String) -> (icon: String)
    ensures
        icon@ == device_icon_of(device_type@),
{
    let icon = if crate::text::eq_lit(device_type, "phone") || crate::text::eq_lit(
        device_type,
        "tablet",
    ) {
        "📱"
    } else if crate::text::eq_lit(device_type, "laptop") {
        "💻"
    } else if crate::text::eq_lit(device_type, "desktop") {
        "🖥️"
    } else {
        "📟"
    };
    String::from_str(icon)
}

/// The icon on a device's button in the window: a phone for a lowercased
/// type that names Android or a phone, a computer for every other type.
pub open spec fn button_icon_of(lower_type: Seq<char>) -> Seq<char> {
    if contains_text(lower_type, "android"@) || contains_text(lower_type, "phone"@) {
        "📱"@
    } else {
        "💻"@
    }
}

/// The icon on a device's button in the window, decided from its type
/// without regard to case.
pub fn device_button_icon(device_type: &str) -> (icon: String)
    ensures
        icon@ == button_icon_of(lowercase_of(device_type@)),
        is_ascii_text(device_type@) ==> icon@ == button_icon_of(ascii_lowercase(device_type@)),
{
    let lower = to_lowercase(device_type);
    let l = lower.as_str();
    let icon = if contains_str(l, "android") || contains_str(l, "phone") {
        "📱"
    } else {
        "💻"
    };
    String::from_str(icon)
}

/// `s` fitted to a column of `max` characters with `marker` as the sign of
/// a cut: text of at most `max` bytes is padded with spaces to `max`
/// characters; longer text keeps its first `max - marker.len()` characters
/// followed by the marker.
pub open spec fn fitted_marked(s: Seq<char>, byte_len: nat, max: nat, marker: Seq<char>) -> Seq<char> {
    if byte_len <= max {
        if s.len() < max {
            s + Seq::new((max - s.len()) as nat, |i: int| ' ')
        } else {
            s
        }
    } else {
        (if s.len() <= max - marker.len() {
            s
        } else {
            s.take(max - marker.len())
        }) + marker
    }
}

/// `s` fitted to a column of `max` characters, cut text ending in `...`.
pub open spec fn fitted(s: Seq<char>, byte_len: nat, max: nat) -> Seq<char> {
    fitted_marked(s, byte_len, max, "..."@)
}

/// `s` fitted to a history column of `max` characters, cut text ending in
/// an ellipsis.
pub open spec fn fitted_with_ellipsis(s: Seq<char>, byte_len: nat, max: nat) -> Seq<char> {
    fitted_marked(s, byte_len, max, "…"@)
}

/// Fit text to a column of `max_len` characters, marking a cut with
/// `marker`.
fn fit_marked(s: &str, max_len: usize, marker: &str) -> (r: String)
    requires
        s.spec_bytes().len() <= max_len || max_len >= marker@.len(),
    ensures
        r@ == fitted_marked(s@, s.spec_bytes().len(), max_len as nat, marker@),
{
    let n = s.unicode_len();
    let byte_len = s.as_bytes().len();
    if byte_len <= max_len {
        let mut r = String::from_str(s);
        if n < max_len {
            let mut i: usize = n;
            while i < max_len
                invariant
                    n <= i <= max_len,
                    r@ == s@ + Seq::new((i - n) as nat, |k: int| ' '),
                decreases max_len - i,
            {
                crate::text::push_char(&mut r, ' ');
                i = i + 1;
                assert(r@ =~= s@ + Seq::new((i - n) as nat, |k: int| ' '));
            }
        }
        r
    } else {
        let width = max_len - marker.unicode_len();
        let keep = if n <= width {
            n
        } else {
            width
        };
        let mut r = String::from_str(s.substring_char(0, keep));
        r.append(marker);
        proof {
            if n > width {
                assert(s@.subrange(0, keep as int) =~= s@.take(keep as int));
            } else {
                assert(s@.subrange(0, keep as int) =~= s@);
            }
        }
        r
    }
}

/// Fit text to a column of `max_len` characters.
pub fn truncate_string(s: &str, max_len: usize) -> (r: String)
    requires
        s.spec_bytes().len() <= max_len || max_len >= 3,
    ensures
        r@ == fitted(s@, s.spec_bytes().len(), max_len as nat),
{
    proof {
        reveal_strlit("...");
    }
    fit_marked(s, max_len, "...")
}

/// Fit text to a history column of `max_len` characters.
pub fn truncate_with_ellipsis(s: &str, max_len: usize) -> (r: String)
    requires
        s.spec_bytes().len() <= max_len || max_len >= 1,
    ensures
        r@ == fitted_with_ellipsis(s@, s.spec_bytes().len(), max_len as nat),
{
    proof {
        reveal_strlit("…");
    }
    fit_marked(s, max_len, "…")
}

} // verus!
