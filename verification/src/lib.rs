//! Control-link core for a remotely piloted underwater vehicle.
//!
//! The crate models the resilient link between an operator station and the
//! vehicle-side endpoint: the message codec, the session and supervisor state
//! machines, liveness tracking, configuration hot-reload decisions, and the
//! merging of two physical input sources into one bounded command vector.
//! All transport, device polling and UI glue live outside this crate and talk
//! to it through plain values.

pub mod axes;
pub mod codec;
pub mod config;
pub mod gamepad;
pub mod keys;
pub mod messages;
pub mod models;
pub mod queue;
pub mod recording;
pub mod router;
pub mod sampler;
pub mod session;
pub mod status;
pub mod supervisor;
pub mod toast;
pub mod updater;
