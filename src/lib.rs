//! Gathers the source files under a directory tree into one text blob.
//!
//! The library works on an in-memory picture of the tree ([`tree::Entry`]):
//! the filter policy decides which folders are entered and which files are
//! taken, the walk visits the tree depth-first in listing order, and the
//! aggregate collects one record (path line, content, blank line) per file.

pub mod args;
pub mod filter;
pub mod laws;
pub mod output;
pub mod tree;
pub mod walk;

pub use filter::{default_extensions, extension_of, is_eligible_file, is_excluded_folder};
pub use output::{Aggregate, Record};
pub use tree::{join_path, Config, Entry};
pub use walk::{run, Report, RunError, Warning, WarningKind};
pub use args::{parse_args, ArgsError, Invocation};
