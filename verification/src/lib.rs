//! Core of an audio capture engine: the session state machine, the stream
//! format negotiator, the decisions made on the capture thread's sample path,
//! and the naming of the recorded PCM container file.
//!
//! Device access, the real-time stream callback and all file writing are left
//! to a thin unverified shell; everything here is pure logic with contracts.

pub mod capture;
pub mod devices;
pub mod errors;
pub mod naming;
pub mod negotiate;
pub mod sidecar;
