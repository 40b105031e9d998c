//! # Wi-Fi Direct Hotspot Controller
//!
//! Device-to-device transfer without a router by creating a Wi-Fi Direct
//! hotspot: when no router is available, for lower latency, or for the
//! full bandwidth between two devices.
//!
//! Creating the access point itself needs platform APIs (WlanHostedNetwork
//! on Windows, hostapd or NetworkManager on Linux, CoreWLAN on macOS,
//! WifiP2pManager on Android, NEHotspotConfiguration on iOS); the mobile
//! ones are not integrated.

use vstd::prelude::*;

use crate::external::digest::hex_lower;
use crate::external::ids::{is_lower_hex_char, is_uuid_text, new_uuid_v4_bytes, new_uuid_v4_string};
use crate::text::lower_hex;

verus! {

/// Wi-Fi Direct hotspot configuration.
#[derive(Debug)]
pub struct HotspotConfig {
    /// SSID of the hotspot (generated).
    pub ssid: String,
    /// Password of the hotspot (generated).
    pub password: String,
    /// Channel to use (0 = automatic).
    pub channel: u8,
    /// Whether the hotspot is currently active.
    pub active: bool,
    /// IP address of this device as the hotspot host.
    pub host_ip: String,
    /// Subnet mask.
    pub subnet: String,
}

/// Status of the Wi-Fi Direct hotspot.
#[derive(Debug, PartialEq, Eq)]
pub enum HotspotStatus {
    Inactive,
    Starting,
    Active,
    Stopping,
    Error(String),
}

/// The SSID made from a UUID's text: `FastShare-` and its first eight
/// characters.
pub open spec fn ssid_of(uuid_text: Seq<char>) -> Seq<char> {
    "FastShare-"@ + uuid_text.take(8)
}

/// The password made from a UUID's bytes: the lowercase hex text of its
/// first eight bytes, cut to eight characters (the hex of the first four).
pub open spec fn password_of(bytes: Seq<u8>) -> Seq<char> {
    hex_lower(bytes.take(4))
}

/// The hotspot's SSID for a UUID's text.
pub fn ssid_from_uuid(uuid_text: &str) -> (ssid: String)
    requires
        uuid_text@.len() >= 8,
    ensures
        ssid@ == ssid_of(uuid_text@),
{
    let mut ssid = String::from_str("FastShare-");
    ssid.append(uuid_text.substring_char(0, 8));
    ssid
}

/// The hotspot's password for a UUID's bytes.
pub fn password_from_bytes(bytes: &[u8; 16]) -> (password: String)
    ensures
        password@ == password_of(bytes@),
{
    let head: [u8; 4] = [bytes[0], bytes[1], bytes[2], bytes[3]];
    assert(head@ =~= bytes@.take(4));
    lower_hex(&head)
}

/// Every character is a lowercase hex digit.
pub open spec fn all_lower_hex(s: Seq<char>) -> bool {
    forall|i: int| 0 <= i < s.len() ==> is_lower_hex_char(#[trigger] s[i])
}

/// Hex text is made of lowercase hex digits, two per byte.
proof fn lemma_hex_lower_shape(bytes: Seq<u8>)
    ensures
        hex_lower(bytes).len() == 2 * bytes.len(),
        all_lower_hex(hex_lower(bytes)),
    decreases bytes.len(),
{
    if bytes.len() > 0 {
        lemma_hex_lower_shape(bytes.drop_first());
        let h = hex_lower(bytes);
        let rest = hex_lower(bytes.drop_first());
        assert forall|i: int| 0 <= i < h.len() implies is_lower_hex_char(#[trigger] h[i]) by {
            if i >= 2 {
                assert(h[i] == rest[i - 2]);
            }
        }
    }
}

/// Controls the Wi-Fi Direct access point of this device.
pub struct HotspotController {
    config: HotspotConfig,
    status: HotspotStatus,
}

impl HotspotController {
    /// The current configuration.
    pub closed spec fn config_spec(&self) -> HotspotConfig {
        self.config
    }

    /// The current status.
    pub closed spec fn status_spec(&self) -> HotspotStatus {
        self.status
    }

    /// An inactive hotspot with the given credentials: automatic channel,
    /// host address 192.168.49.1 on a /24 subnet.
    pub fn with_credentials(ssid: String, password: String) -> (h: Self)
        ensures
            h.config_spec().ssid == ssid,
            h.config_spec().password == password,
            h.config_spec().channel == 0,
            !h.config_spec().active,
            h.config_spec().host_ip@ == "192.168.49.1"@,
            h.config_spec().subnet@ == "255.255.255.0"@,
            h.status_spec() == HotspotStatus::Inactive,
    {
        HotspotController {
            config: HotspotConfig {
                ssid,
                password,
                channel: 0,
                active: false,
                host_ip: String::from_str("192.168.49.1"),
                subnet: String::from_str("255.255.255.0"),
            },
            status: HotspotStatus::Inactive,
        }
    }

    /// A hotspot with generated credentials: the SSID from one random UUID,
    /// the password from another.
    pub fn new() -> (h: Self)
        ensures
            exists|u: Seq<char>| is_uuid_text(u) && h.config_spec().ssid@ == ssid_of(u),
            h.config_spec().password@.len() == 8,
            all_lower_hex(h.config_spec().password@),
            h.config_spec().channel == 0,
            !h.config_spec().active,
            h.config_spec().host_ip@ == "192.168.49.1"@,
            h.config_spec().subnet@ == "255.255.255.0"@,
            h.status_spec() == HotspotStatus::Inactive,
    {
        let id = new_uuid_v4_string();
        let ssid = ssid_from_uuid(id.as_str());
        let bytes = new_uuid_v4_bytes();
        let password = password_from_bytes(&bytes);
        proof {
            lemma_hex_lower_shape(bytes@.take(4));
        }
        Self::with_credentials(ssid, password)
    }

    /// Start the hotspot on the operating system `target_os` (as in
    /// `std::env::consts::OS`). On Android and iOS the platform API is not
    /// integrated: the status becomes an error and the hotspot stays
    /// inactive. Elsewhere the hotspot becomes active.
    pub fn start(&mut self, target_os: &str)
        ensures
            final(self).config_spec().ssid == old(self).config_spec().ssid,
            final(self).config_spec().password == old(self).config_spec().password,
            final(self).config_spec().channel == old(self).config_spec().channel,
            final(self).config_spec().host_ip == old(self).config_spec().host_ip,
            final(self).config_spec().subnet == old(self).config_spec().subnet,
            if target_os@ == "android"@ || target_os@ == "ios"@ {
                &&& final(self).config_spec().active == old(self).config_spec().active
                &&& final(self).status_spec() matches HotspotStatus::Error(e) && e@
                    == "Platform API not yet integrated"@
            } else {
                hotspot_activated(*old(self), *final(self))
            },
    {
        self.status = HotspotStatus::Starting;
        let os = String::from_str(target_os);
        if crate::text::eq_lit(&os, "android") || crate::text::eq_lit(&os, "ios") {
            self.status = HotspotStatus::Error(String::from_str("Platform API not yet integrated"));
            return;
        }
        self.config.active = true;
        self.status = HotspotStatus::Active;
    }

    /// Stop the hotspot.
    pub fn stop(&mut self)
        ensures
            final(self).config_spec().ssid == old(self).config_spec().ssid,
            final(self).config_spec().password == old(self).config_spec().password,
            final(self).config_spec().channel == old(self).config_spec().channel,
            final(self).config_spec().host_ip == old(self).config_spec().host_ip,
            final(self).config_spec().subnet == old(self).config_spec().subnet,
            hotspot_deactivated(*old(self), *final(self)),
    {
        self.status = HotspotStatus::Stopping;
        self.config.active = false;
        self.status = HotspotStatus::Inactive;
    }

    /// The current configuration.
    pub fn config(&self) -> (c: &HotspotConfig)
        ensures
            *c == self.config_spec(),
    {
        &self.config
    }

    /// The current status.
    pub fn status(&self) -> (s: &HotspotStatus)
        ensures
            *s == self.status_spec(),
    {
        &self.status
    }
}

/// A start that succeeded took `before` to `after`: the hotspot is active
/// and says so, with its settings unchanged.
pub open spec fn hotspot_activated(before: HotspotController, after: HotspotController) -> bool {
    &&& after.config_spec().ssid == before.config_spec().ssid
    &&& after.config_spec().password == before.config_spec().password
    &&& after.config_spec().channel == before.config_spec().channel
    &&& after.config_spec().host_ip == before.config_spec().host_ip
    &&& after.config_spec().subnet == before.config_spec().subnet
    &&& after.config_spec().active
    &&& after.status_spec() == HotspotStatus::Active
}

/// A stop took `before` to `after`: the hotspot is inactive and says so,
/// with its settings unchanged.
pub open spec fn hotspot_deactivated(before: HotspotController, after: HotspotController) -> bool {
    &&& after.config_spec().ssid == before.config_spec().ssid
    &&& after.config_spec().password == before.config_spec().password
    &&& after.config_spec().channel == before.config_spec().channel
    &&& after.config_spec().host_ip == before.config_spec().host_ip
    &&& after.config_spec().subnet == before.config_spec().subnet
    &&& !after.config_spec().active
    &&& after.status_spec() == HotspotStatus::Inactive
}

/// The status reports the hotspot active exactly when its configuration
/// says it is.
pub open spec fn status_follows_active(h: HotspotController) -> bool {
    (h.status_spec() == HotspotStatus::Active) == h.config_spec().active
}

/// Over any sequence of starts (on Linux, Windows, macOS or any other
/// system where starting succeeds) and stops, beginning from a hotspot
/// whose status agrees with its configuration (as a new one does), the
/// status is `Active` exactly when the configuration is active.
pub proof fn lemma_status_follows_active(states: Seq<HotspotController>)
    requires
        states.len() > 0,
        status_follows_active(states[0]),
        forall|i: int|
            0 <= i < states.len() - 1 ==> hotspot_activated(#[trigger] states[i], states[i + 1])
                || hotspot_deactivated(states[i], states[i + 1]),
    ensures
        forall|i: int| 0 <= i < states.len() ==> status_follows_active(#[trigger] states[i]),
{
    assert forall|i: int| 0 <= i < states.len() implies status_follows_active(#[trigger] states[i]) by {
        if i > 0 {
            assert(hotspot_activated(states[i - 1], states[i]) || hotspot_deactivated(states[i - 1], states[i]));
        }
    }
}

} // verus!
