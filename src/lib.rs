//! GPU telemetry engine: name-based hardware estimates, the enrichment of raw
//! device samples into frames, the streaming bus lifecycle, and the
//! single-flight recording session.
//!
//! Hardware queries, sleeping, channels and files stay with the caller: the
//! library takes the readings as plain values and returns what to do next.

pub mod text;
pub mod estimate;
pub mod frame;
pub mod bus;
pub mod clock;
pub mod device;
pub mod recording;
