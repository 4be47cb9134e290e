//! Batch image-compression engine: decodes images, re-encodes them under a
//! target format and quality, and reports per-file size deltas, while adapting
//! its parallelism to the host's available memory and CPU count and aborting
//! early when too many files fail.

pub mod batch;
pub mod codec;
pub mod encoder;
pub mod loader;
pub mod messages;
pub mod paths;
pub mod planner;
pub mod probe;
pub mod worker;
