//! Template resolution for stored media-tool command recipes.
//!
//! A configuration holds named command templates. For a chosen template the
//! library settles the options, the input path and the output path, expands
//! the template's argument skeleton into an argument vector, and says, stage
//! by stage, what the surrounding program is to do: ask the user, probe a
//! file, launch the command.

pub mod args;
pub mod config;
pub mod editor;
pub mod error;
pub mod hash;
pub mod invocation;
pub mod number;
pub mod path;
pub mod runner;
pub mod session;
pub mod startup_checker;
pub mod substitute;
pub mod text;

pub use args::Args;
pub use hash::get_hash;
pub use runner::Runner;
pub use startup_checker::StartupChecker;
