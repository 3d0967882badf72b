//! A pull-based audio sample pipeline: the `Source` capability contract that
//! every pipeline stage implements, and the completion-tracking `Done`
//! decorator that watches a wrapped source for exhaustion, decrements a shared
//! liveness counter exactly once, and runs an optional completion callback.

pub mod source;

pub use source::done::Done;
pub use source::SeekError;
pub use source::Source;
pub use source::TimeSpan;
