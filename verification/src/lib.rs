//! Coordination core for a live audio-capture pipeline.
//!
//! The library models the lifecycle of one capture session: a dedicated
//! capture thread that owns the audio device, a single-use stop signal that
//! tears the session down, and a supervised worker subprocess whose lifetime
//! follows the same start/stop contract.  The device, thread, process and
//! event I/O themselves live outside the library; every decision about them
//! is made here, under contract.

pub mod codec;
pub mod errors;
pub mod level;
pub mod worker;
pub mod stop_signal;
pub mod capture;
pub mod coordinator;
