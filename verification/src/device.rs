//! Device identity and the events the monitor publishes.
use vstd::prelude::*;

verus! {

/// A stable, comparable snapshot of one device's identity.
///
/// The platform enumerates devices as native references; the monitor keeps
/// only the numeric identity of each reference, never the reference itself,
/// so an identifier owns nothing and can outlive the enumeration that
/// produced it. Two identifiers are equal exactly when they denote the same
/// underlying device instance at the same point in time.
#[derive(Clone, Copy, Debug, Hash, PartialEq, Eq, Structural)]
pub struct DeviceId {
    pub raw: u64,
}

impl DeviceId {
    /// Wraps the numeric identity taken from a native device reference.
    pub fn from_raw(raw: u64) -> (d: DeviceId)
        ensures
            d.raw == raw,
    {
        DeviceId { raw }
    }
}

/// One observation about device presence, produced by a poll cycle and
/// consumed exactly once by whoever drains the event channel.
#[derive(Clone, Copy, Debug, PartialEq, Eq, Structural)]
pub enum Event {
    /// The device was absent in the previous cycle and is present now.
    Add(DeviceId),
    /// The device was present in the previous cycle and is absent now.
    Remove(DeviceId),
}

} // verus!
