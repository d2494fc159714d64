//! Wireless network discovery with a verified core.
//!
//! The crate separates the platform-independent logic of a wifi scan from the
//! platform bridge that performs it.  `misc` holds the frequency-to-channel
//! mapper, `wifi` the shared record types, `scanner` the scan driver, which
//! is generic over a narrow platform port, and `sim` a simulated platform
//! that exercises the driver without a host environment.

pub mod misc;
pub mod scanner;
pub mod sim;
pub mod wifi;
