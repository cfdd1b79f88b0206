//! A verified core for a host-connectivity probe service.
//!
//! The library models the two pieces of the service that carry real logic:
//! a broadcast event bus with bounded per-subscriber backlog, and the
//! sequential connectivity prober that walks an ordered host directory,
//! classifies each failure mode, and publishes structured status messages.
//! Reading the host directory from its TOML form is included as well; the
//! network and HTTP edges around the core stay outside the library.

pub mod bus;
pub mod directory;
pub mod heartbeat;
pub mod message;
pub mod prober;
