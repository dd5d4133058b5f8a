//! What was asked for on the command line.

use vstd::prelude::*;

verus! {

/// The command-line arguments, already parsed.
#[derive(Clone, Debug, PartialEq, Eq)]
pub struct Args {
    /// Show the configuration.
    pub config: bool,
    /// Hash code of the template to run without interaction.
    pub hash: Option<String>,
    /// Input file to run the template on without interaction.
    pub input_path: Option<String>,
}

/// What an [`Args`] holds.
pub struct ArgsView {
    pub config: bool,
    pub hash: Option<Seq<char>>,
    pub input_path: Option<Seq<char>>,
}

/// The contents of an optional string.
pub open spec fn text_of(text: Option<String>) -> Option<Seq<char>> {
    match text {
        Some(s) => Some(s@),
        None => None,
    }
}

impl View for Args {
    type V = ArgsView;

    open spec fn view(&self) -> ArgsView {
        ArgsView {
            config: self.config,
            hash: text_of(self.hash),
            input_path: text_of(self.input_path),
        }
    }
}

/// How a run is driven.
#[derive(Clone, Copy, Debug, PartialEq, Eq, Structural)]
pub enum Mode {
    /// Template, options and paths are asked for on the console.
    Interactive,
    /// Template and input path were given; nothing is asked.
    Scripted,
}

impl ArgsView {
    /// The mode that the arguments select. A hash code and an input path
    /// select the scripted mode, neither selects the interactive mode, and
    /// one without the other is a usage error.
    pub open spec fn mode(self) -> Result<Mode, crate::error::ErrorKind> {
        match (self.hash, self.input_path) {
            (Some(_), Some(_)) => Ok(Mode::Scripted),
            (None, None) => Ok(Mode::Interactive),
            _ => Err(crate::error::ErrorKind::UsageError),
        }
    }
}

impl Args {
    /// The mode that the arguments select; `UsageError` when exactly one
    /// of the hash code and the input path was given.
    pub fn mode(&self) -> (mode: Result<Mode, crate::error::ErrorKind>)
        ensures
            mode == self@.mode(),
    {
        match (&self.hash, &self.input_path) {
            (Some(_), Some(_)) => Ok(Mode::Scripted),
            (None, None) => Ok(Mode::Interactive),
            _ => Err(crate::error::ErrorKind::UsageError),
        }
    }
}

} // verus!
