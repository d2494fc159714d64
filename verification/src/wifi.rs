//! The shared record format for discovered networks, and the error type of
//! the scan capability.

use vstd::prelude::*;
use crate::misc::channel_of;
use crate::misc::get_channel;

verus! {

/// One visible wireless network, as reported by the active platform.
#[derive(Debug)]
pub struct Wifi {
    /// Native BSSID representation, exactly as the platform reported it.
    pub mac: String,
    /// Network name as reported; an empty string is a hidden SSID.
    pub ssid: String,
    /// Channel number, read from the platform or derived from a frequency.
    pub channel: u32,
    /// Platform-native signal strength, commonly dBm.
    pub signal_level: i32,
    /// Security-capability tags; never populated by the current scanners.
    pub security: Vec<String>,
}

/// An ordered snapshot of the networks one scan call observed, in the
/// platform's native enumeration order.
pub type ScanSnapshot = Vec<Wifi>;

/// What a scan call can fail with.
#[derive(Debug)]
pub enum Error {
    /// The process-wide scanner handle was never initialized.
    NotInitialized,
    /// A native bridge call failed; the message comes from the platform.
    JNIError(String),
}

impl Wifi {
    /// Projects the four fields a platform reports for one record into a
    /// `Wifi` value: the strings and the level pass through untouched, the
    /// frequency is mapped to its channel, and `security` is left empty.
    pub fn from_fields(mac: String, ssid: String, signal_level: i32, frequency: u32) -> (wifi: Wifi)
        ensures
            wifi.mac@ == mac@,
            wifi.ssid@ == ssid@,
            wifi.signal_level == signal_level,
            wifi.channel == channel_of(frequency as int),
            wifi.security@.len() == 0,
    {
        Wifi {
            mac,
            ssid,
            channel: get_channel(frequency),
            signal_level,
            security: Vec::new(),
        }
    }
}

} // verus!
