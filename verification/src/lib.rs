//! Bridges a linter's machine-readable diagnostic stream to a code-review
//! annotation payload: classify each diagnostic's level, validate and build
//! annotation records, assemble the summary report, and collect the batch
//! that a caller hands to its publisher.

pub mod annotation;
pub mod pipeline;
pub mod record;
pub mod report;
pub mod severity;
