//! A lazily initialised container for one value that is loaded from an
//! encoded document, read by many, replaced as a whole, and reloaded on a
//! timer.
//!
//! The crate holds the rules of the container as plain state transitions:
//! what `init`, `get`, `update` and one turn of the `watch` loop do to the
//! stored value, and which error each failure becomes. Reading the source,
//! sleeping and locking are the caller's part.

pub mod artifact;
pub mod error;
pub mod example;
pub mod laws;
pub mod source;
pub mod watch;

pub use artifact::{get_data, Artifact};
pub use error::{ArtifactError, FailureKind};
pub use example::ExampleStruct;
pub use source::get_env_or_default;
pub use watch::{WatchAction, WatchEvent, WatchPhase, WatchTask};
