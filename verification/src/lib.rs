//! A caching tee for byte streams.
//!
//! Every item of a source passes through unchanged while a zstd-compressed
//! copy of the bytes is built on the side, under a size budget. At the end of
//! the source the copy, or the notice that none was kept, is handed over once.
//!
//! - [`compressor`]: the incremental zstd compressor.
//! - [`policy`]: when the copy is kept and when it is given up.
//! - [`tee`]: the stream as a state machine from events to actions.
//! - [`laws`]: what holds of every run of that machine.
//! - [`adapt`]: the context that travels with a stream.

pub mod adapt;
pub mod compressor;
pub mod laws;
pub mod policy;
pub mod tee;
