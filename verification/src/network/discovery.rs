//! # Device Discovery
//!
//! Devices announce themselves on the LAN (UDP broadcast and multicast)
//! with their metadata. This module holds the device record and the
//! decisions made about announcements; sockets and timers belong to the
//! application.

use vstd::prelude::*;

use crate::network::addr::{is_loopback_spec, IpAddress};
use crate::external::clock::{is_clock_stamp, now_rfc3339};
use crate::external::ids::{is_uuid_text, new_uuid_v4_string};
use crate::text::eq_lit;

verus! {

/// UDP broadcast port for LAN discovery.
pub const BROADCAST_PORT: u16 = 5001;

/// Multicast group for discovery: 239.255.42.1.
pub const MULTICAST_ADDR: u32 = 0xefff_2a01;

/// Multicast port.
pub const MULTICAST_PORT: u16 = 5002;

/// How often announcements are sent (milliseconds).
pub const ANNOUNCE_INTERVAL_MS: u64 = 500;

/// Seconds without an announcement after which a device is dropped.
pub const DEVICE_STALE_SECS: u64 = 10;

/// The same, in nanoseconds.
pub const DEVICE_STALE_NANOS: u64 = 10_000_000_000;

/// Metadata about a device on the network.
#[derive(Debug, Clone)]
pub struct DeviceInfo {
    /// Unique device identifier (UUID v4).
    pub device_id: String,
    /// Human-readable device name.
    pub device_name: String,
    /// Device type: "desktop", "laptop", "phone", "tablet" or "unknown".
    pub device_type: String,
    /// Features supported by this device.
    pub supported_features: Vec<String>,
    /// Maximum bandwidth capability (e.g., "10Gb", "1Gb").
    pub max_bandwidth: String,
    /// Device IP address.
    pub ip_address: IpAddress,
    /// QUIC server port.
    pub port: u16,
    /// Protocol version for compatibility checking.
    pub protocol_version: u32,
    /// When the last announcement from this device arrived, in nanoseconds
    /// on the engine's monotonic clock.
    pub last_seen: Option<u64>,
}

/// Two device records hold the same values (the feature lists compared by
/// their contents).
pub open spec fn same_device(a: DeviceInfo, b: DeviceInfo) -> bool {
    &&& a.device_id == b.device_id
    &&& a.device_name == b.device_name
    &&& a.device_type == b.device_type
    &&& a.supported_features@ == b.supported_features@
    &&& a.max_bandwidth == b.max_bandwidth
    &&& a.ip_address == b.ip_address
    &&& a.port == b.port
    &&& a.protocol_version == b.protocol_version
    &&& a.last_seen == b.last_seen
}

impl DeviceInfo {
    /// A field-by-field copy.
    pub fn duplicate(&self) -> (r: Self)
        ensures
            same_device(r, *self),
    {
        let features = self.supported_features.clone();
        assert(features@ =~= self.supported_features@);
        DeviceInfo {
            device_id: self.device_id.clone(),
            device_name: self.device_name.clone(),
            device_type: self.device_type.clone(),
            supported_features: features,
            max_bandwidth: self.max_bandwidth.clone(),
            ip_address: self.ip_address,
            port: self.port,
            protocol_version: self.protocol_version,
            last_seen: self.last_seen,
        }
    }
}

/// A fresh identity for this device: a random UUID v4 as hyphenated
/// lowercase text.
pub fn new_device_id() -> (id: String)
    ensures
        is_uuid_text(id@),
{
    new_uuid_v4_string()
}

/// The time stamp an announcement carries: the current UTC time as RFC 3339
/// text, which parses back to the clock reading it was made from.
pub fn announcement_timestamp() -> (s: String)
    ensures
        is_clock_stamp(s@),
{
    now_rfc3339()
}

/// The device type reported for an operating system name (as in
/// `std::env::consts::OS`).
pub open spec fn device_type_for_os(os: Seq<char>) -> Seq<char> {
    if os == "android"@ || os == "ios"@ {
        "phone"@
    } else if os == "macos"@ {
        "laptop"@
    } else if os == "windows"@ || os == "linux"@ {
        "desktop"@
    } else {
        "unknown"@
    }
}

/// The device type for the operating system the engine runs on.
pub fn detect_device_type(os: &str) -> (t: String)
    ensures
        t@ == device_type_for_os(os@),
{
    let os_name = String::from_str(os);
    let t = if eq_lit(&os_name, "android") || eq_lit(&os_name, "ios") {
        "phone"
    } else if eq_lit(&os_name, "macos") {
        "laptop"
    } else if eq_lit(&os_name, "windows") || eq_lit(&os_name, "linux") {
        "desktop"
    } else {
        "unknown"
    };
    String::from_str(t)
}

/// The bandwidth class this device advertises ("1Gb"; no interface probing
/// is done).
pub fn detect_max_bandwidth() -> (b: String)
    ensures
        b@ == "1Gb"@,
{
    String::from_str("1Gb")
}

/// The features every device of this version supports.
pub open spec fn supported_feature_names() -> Seq<Seq<char>> {
    seq![
        "parallel_streams"@,
        "compression_lz4"@,
        "compression_zstd"@,
        "distributed_transfer"@,
        "transfer_resume"@,
    ]
}

/// The record this device announces: its identity and address, the
/// device type of its operating system, all supported features, the
/// "1Gb" bandwidth class and protocol version 1.
pub fn local_device_info(
    device_id: String,
    device_name: String,
    ip_address: IpAddress,
    port: u16,
    os: &str,
) -> (d: DeviceInfo)
    ensures
        d.device_id == device_id,
        d.device_name == device_name,
        d.device_type@ == device_type_for_os(os@),
        d.supported_features@.map_values(|f: String| f@) == supported_feature_names(),
        d.max_bandwidth@ == "1Gb"@,
        d.ip_address == ip_address,
        d.port == port,
        d.protocol_version == 1,
        d.last_seen is None,
{
    let mut features: Vec<String> = Vec::new();
    features.push(String::from_str("parallel_streams"));
    features.push(String::from_str("compression_lz4"));
    features.push(String::from_str("compression_zstd"));
    features.push(String::from_str("distributed_transfer"));
    features.push(String::from_str("transfer_resume"));
    assert(features@.map_values(|f: String| f@) =~= supported_feature_names());
    DeviceInfo {
        device_id,
        device_name,
        device_type: detect_device_type(os),
        supported_features: features,
        max_bandwidth: detect_max_bandwidth(),
        ip_address,
        port,
        protocol_version: 1,
        last_seen: None,
    }
}

/// Whether a device seen at monotonic time `seen` has gone quiet at time
/// `now` (both in nanoseconds): more than `DEVICE_STALE_SECS` seconds
/// passed. A time before `seen` counts as no time passed.
pub open spec fn quiet_since(seen: u64, now: u64) -> bool {
    now - seen > DEVICE_STALE_SECS * 1_000_000_000
}

/// Whether a device has gone quiet at monotonic time `now` (nanoseconds):
/// it was seen, and more than `DEVICE_STALE_SECS` seconds ago. A device
/// never stamped is kept.
pub fn is_stale(device: &DeviceInfo, now: u64) -> (b: bool)
    ensures
        b == (device.last_seen matches Some(seen) && quiet_since(seen, now)),
{
    match device.last_seen {
        Some(seen) => now > seen && now - seen > DEVICE_STALE_NANOS,
        None => false,
    }
}

/// Whether an announcement is our own (same device ID), to be skipped.
pub fn is_own_announcement(announced: &DeviceInfo, own: &DeviceInfo) -> (b: bool)
    ensures
        b == (announced.device_id@ == own.device_id@),
{
    announced.device_id == own.device_id
}

/// The record kept for an announced device: stamped with the monotonic
/// time (nanoseconds) it was seen, and with the packet's source address in place of an announced
/// loopback address.
pub fn observe_announcement(device: DeviceInfo, source_ip: IpAddress, seen: u64) -> (d: DeviceInfo)
    ensures
        d.device_id == device.device_id,
        d.device_name == device.device_name,
        d.device_type == device.device_type,
        d.supported_features == device.supported_features,
        d.max_bandwidth == device.max_bandwidth,
        d.port == device.port,
        d.protocol_version == device.protocol_version,
        d.last_seen == Some(seen),
        d.ip_address == if is_loopback_spec(device.ip_address) {
            source_ip
        } else {
            device.ip_address
        },
{
    let mut device = device;
    device.last_seen = Some(seen);
    if device.ip_address.is_loopback() {
        device.ip_address = source_ip;
    }
    device
}

} // verus!
