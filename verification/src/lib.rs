//! Create a file and fill it with the default template for its extension.
//!
//! Templates live under a layered search path: `.cmps` directories found
//! beside the working directory and its ancestors, the user's configuration
//! and data directories, and the defaults shipped with the tool. The first
//! readable template on that path wins; a target that already holds data is
//! only overwritten on request.
//!
//! The library decides and computes. It reads and writes no file: a caller
//! probes the paths the library names, hands back what it found, and
//! carries out what the library decided.

pub mod compose;
pub mod resolve;
pub mod describe;
pub mod paths;

pub use compose::{compose, create_file, template_or_empty};
pub use compose::{CreateError, CreationMode, TargetStatus, ALREADY_EXISTS};
pub use describe::{describe, show_extension_info, Report};
pub use paths::{base_directories, base_paths, template_paths};
pub use paths::{pick_extension, target_extension};
pub use paths::{local_config_candidates, local_config_directories, SearchRoots, Sighting};
pub use resolve::{first_readable, template_contents, Candidate, Probe};
