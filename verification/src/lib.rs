//! A device-presence monitor for security-token HID hardware.
//!
//! The monitor's engine is a poll-and-diff loop: each cycle takes a snapshot
//! of the devices currently visible, diffs it against the set observed after
//! the previous cycle, and publishes a `Remove` event for every device that
//! vanished followed by an `Add` event for every device that appeared. The
//! events travel through an ordered, unbounded single-producer channel to
//! the consumer, which drains them without blocking.
//!
//! Everything that decides — the set difference, the order of the emitted
//! events, the loop's two-state lifecycle, and the channel's queueing — is
//! verified here. The platform's enumeration session and the background
//! thread that drives the loop live outside the library and feed it plain
//! snapshots of device identifiers.
pub mod channel;
pub mod device;
pub mod diff;
pub mod monitor;

pub use channel::Channel;
pub use channel::ChannelClosed;
pub use device::DeviceId;
pub use device::Event;
pub use monitor::Monitor;
pub use monitor::Phase;
pub use monitor::POLL_INTERVAL_MS;
