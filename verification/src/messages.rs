//! The typed records exchanged between the components: commands on the
//! scanner's input topic and announcements on its output topic.

use vstd::prelude::*;

verus! {

/// A command consumed by the presence scanner, in receipt order.
#[derive(Clone, Debug)]
pub enum StateAnnouncement {
    /// A passive sighting of something from a manufacturer of interest.
    DeviceTrigger,
    /// A remote request for a blanket arrival sweep.
    ScanArrive,
    /// A remote request for a blanket departure sweep.
    ScanDepart,
    /// A self-scheduled re-verification of the named device.
    CheckStillPresent(String),
}

/// The presence state attached to an announcement.
#[derive(Clone, Copy, Debug, PartialEq, Eq, Structural)]
pub enum DevicePresence {
    /// The device answered the probe; carries a confidence of 0 to 100.
    Present(u8),
    /// The device did not answer the probe.
    Absent,
}

/// One announcement, produced exactly once per completed probe.
#[derive(Clone, Debug)]
pub struct DeviceAnnouncement {
    pub name: String,
    pub mac_address: String,
    pub presence: DevicePresence,
}

/// The confidence value carried outward for a presence state: absent
/// devices are announced with confidence 0, present ones with the
/// confidence recorded at the probe.
pub open spec fn spec_confidence_of(p: DevicePresence) -> u8 {
    match p {
        DevicePresence::Present(c) => c,
        DevicePresence::Absent => 0u8,
    }
}

/// The confidence written into an outward message for presence state `p`.
pub fn confidence_of(p: &DevicePresence) -> (r: u8)
    ensures
        r == spec_confidence_of(*p),
{
    match p {
        DevicePresence::Present(c) => *c,
        DevicePresence::Absent => 0u8,
    }
}

} // verus!
