//! Replays a compiler invocation captured from the build tool's verbose output,
//! so that many small entries of one project build without going through the
//! build tool each time.

pub mod capture;
pub mod error;
pub mod scratch;
pub mod pipeline;
