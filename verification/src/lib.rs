//! Core logic of a single-door access controller: the door-actuator state
//! machine, the bounded byte link and serial channel adapter behind the
//! half-duplex bus bridge, the wire codec for the command/report channel,
//! and the health, reconnection and network-poll decision rules.

pub mod bridge;
pub mod codec;
pub mod connection;
pub mod door;
pub mod health;
pub mod link;
pub mod manage_command;
pub mod serial_channel;
pub mod wifi;

pub use health::is_healthy;
