//! Pairing and bounded-concurrency transfer logic for Doppler devices.
//!
//! The library holds the verified decision logic: the wire data model, the
//! response mailbox that sorts out-of-order server messages, the pairing
//! session's state machine, the device capability checks and the upload
//! batch orchestrator. Connections, timers and files are driven by the caller.
pub mod batch;
pub mod config;
pub mod device;
pub mod endpoint;
pub mod error;
pub mod mailbox;
pub mod model;
pub mod session;
pub mod wire;
