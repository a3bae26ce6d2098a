//! Presence detection for configured short-range wireless devices.
//!
//! The library holds the verified core of a presence-detection daemon: the
//! per-device debounce and rate-limit state machine that turns a stream of
//! advertisement triggers and remote scan commands into a paced sequence of
//! active probes and presence announcements, together with the pure logic
//! around it (manufacturer filtering, topic naming, payload formatting).
//! The surrounding process — adapter events, the message-bus client, the
//! probe subprocess — performs the I/O and feeds plain values in and out.

pub mod config;
pub mod filter;
pub mod messages;
pub mod mqtt;
pub mod scanner;
pub mod text;
