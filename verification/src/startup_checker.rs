//! The checks made before a run begins.

use vstd::prelude::*;

use crate::args::{Args, ArgsView, Mode};
use crate::config::{Config, ConfigView};
use crate::error::ErrorKind;

verus! {

/// Gathers what is known at startup and decides whether a run may begin.
#[derive(Clone, Debug, PartialEq, Eq)]
pub struct StartupChecker {
    pub args: Args,
    /// The configuration, once it has been loaded.
    pub config: Option<Config>,
    /// Whether the executable is the one that the configuration names;
    /// unknown until the executable has been looked for.
    pub should_use_ffmpeg_path_field: Option<bool>,
}

/// What a [`StartupChecker`] holds.
pub struct StartupView {
    pub args: ArgsView,
    pub config: Option<ConfigView>,
    pub should_use_ffmpeg_path_field: Option<bool>,
}

impl View for StartupChecker {
    type V = StartupView;

    open spec fn view(&self) -> StartupView {
        StartupView {
            args: self.args@,
            config: match self.config {
                Some(config) => Some(config@),
                None => None,
            },
            should_use_ffmpeg_path_field: self.should_use_ffmpeg_path_field,
        }
    }
}

impl StartupView {
    /// Whether some template of the loaded configuration carries `code`.
    /// Without a configuration no template is known.
    pub open spec fn knows_hash(self, code: Seq<char>) -> bool {
        match self.config {
            Some(config) => config.position_of_hash(code) is Some,
            None => false,
        }
    }

    /// The verdict on the arguments.
    ///
    /// One of the hash code and the input path without the other is a
    /// `UsageError`. With both, the code must belong to a template, else
    /// `NotFound`, and the path must be an existing file, else
    /// `InvalidInput`; the run is then scripted. With neither the run is
    /// interactive.
    pub open spec fn args_checked(self, input_is_file: bool) -> Result<Mode, ErrorKind> {
        match self.args.mode() {
            Err(error) => Err(error),
            Ok(Mode::Interactive) => Ok(Mode::Interactive),
            Ok(Mode::Scripted) => if !self.knows_hash(self.args.hash.unwrap()) {
                Err(ErrorKind::NotFound)
            } else if !input_is_file {
                Err(ErrorKind::InvalidInput)
            } else {
                Ok(Mode::Scripted)
            },
        }
    }
}

/// Whether an executable was found: on the search path, or else at the
/// path that the configuration names.
pub open spec fn executable_found(on_search_path: bool, at_configured_path: bool) -> bool {
    on_search_path || at_configured_path
}

impl StartupChecker {
    /// Checks the arguments against the loaded configuration.
    /// `input_is_file` says whether the input path, where one was given,
    /// is an existing regular file.
    pub fn check_args(&self, input_is_file: bool) -> (verdict: Result<Mode, ErrorKind>)
        ensures
            verdict == self@.args_checked(input_is_file),
    {
        match self.args.mode() {
            Err(error) => Err(error),
            Ok(Mode::Interactive) => Ok(Mode::Interactive),
            Ok(Mode::Scripted) => {
                let known: bool = match (&self.config, &self.args.hash) {
                    (Some(config), Some(hash)) => config.position_of_hash(hash.as_str()).is_some(),
                    _ => false,
                };
                if !known {
                    Err(ErrorKind::NotFound)
                } else if !input_is_file {
                    Err(ErrorKind::InvalidInput)
                } else {
                    Ok(Mode::Scripted)
                }
            },
        }
    }

    /// Settles which executable is used. `on_search_path` says whether the
    /// bare executable name resolves; `at_configured_path`, which counts
    /// only where it does not, whether the path named by the configuration
    /// does. The executable on the search path is preferred; the run
    /// cannot begin when neither is found.
    pub fn check_ffmpeg_executable(&mut self, on_search_path: bool, at_configured_path: bool) -> (found:
        bool)
        ensures
            found == executable_found(on_search_path, at_configured_path),
            final(self).should_use_ffmpeg_path_field == Some(!on_search_path),
            final(self).args == old(self).args,
            final(self).config == old(self).config,
    {
        if on_search_path {
            self.should_use_ffmpeg_path_field = Some(false);
            true
        } else {
            self.should_use_ffmpeg_path_field = Some(true);
            at_configured_path
        }
    }

    /// Makes every startup check and says whether the run may begin: the
    /// configuration file was found, the arguments are in order, and an
    /// executable is there. Every check is made, whatever the others say.
    pub fn check(
        &mut self,
        config_found: bool,
        input_is_file: bool,
        on_search_path: bool,
        at_configured_path: bool,
    ) -> (ready: bool)
        ensures
            ready == (config_found && old(self)@.args_checked(input_is_file) is Ok
                && executable_found(on_search_path, at_configured_path)),
            final(self).should_use_ffmpeg_path_field == Some(!on_search_path),
            final(self).args == old(self).args,
            final(self).config == old(self).config,
    {
        let mut ready: bool = config_found;
        let args_ok: bool = self.check_args(input_is_file).is_ok();
        ready = args_ok && ready;
        let executable_ok: bool = self.check_ffmpeg_executable(on_search_path, at_configured_path);
        ready = executable_ok && ready;
        ready
    }
}

} // verus!
