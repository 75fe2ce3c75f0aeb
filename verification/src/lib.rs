//! Core of a microphone recording engine: a start/stop session controller,
//! streaming conversion of captured samples to 16-bit signed integers, and an
//! incremental writer that renders a well-formed linear PCM (WAV) container.
//!
//! Device access, threads and network upload live outside this crate; the
//! logic here works on plain values handed in from that edge.

pub mod capture;
pub mod errors;
pub mod naming;
pub mod response;
pub mod samples;
pub mod session;
pub mod wav;

use vstd::prelude::*;

verus! {

/// Largest number of sample-data bytes a container can declare: the data
/// chunk length and the enclosing RIFF length (data + 36) are 32-bit fields.
pub const MAX_DATA_BYTES: u32 = 0xFFFF_FFDB;

} // verus!
