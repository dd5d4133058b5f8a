//! One fully resolved run of a template.

use vstd::prelude::*;

use crate::config::{strings_view, Command, CommandView};
use crate::error::ErrorKind;
use crate::substitute::{substitute, substituted};

verus! {

/// Everything one run needs: what went into the resolution, and the
/// argument vector that came out of it. The first argument is the program
/// to launch.
#[derive(Clone, Debug, PartialEq, Eq)]
pub struct ResolvedInvocation {
    pub executable: String,
    pub input_path: String,
    pub options: Vec<String>,
    pub output_path: String,
    pub arguments: Vec<String>,
}

/// What a [`ResolvedInvocation`] holds.
pub struct InvocationView {
    pub executable: Seq<char>,
    pub input_path: Seq<char>,
    pub options: Seq<Seq<char>>,
    pub output_path: Seq<char>,
    pub arguments: Seq<Seq<char>>,
}

impl View for ResolvedInvocation {
    type V = InvocationView;

    open spec fn view(&self) -> InvocationView {
        InvocationView {
            executable: self.executable@,
            input_path: self.input_path@,
            options: strings_view(self.options@),
            output_path: self.output_path@,
            arguments: strings_view(self.arguments@),
        }
    }
}

impl InvocationView {
    /// The arguments are the template's skeleton, substituted with the
    /// other four parts, and there is a program to launch among them.
    pub open spec fn resolves(self, command: CommandView) -> bool {
        &&& self.arguments == substituted(
            command.command,
            self.executable,
            self.input_path,
            self.options,
            self.output_path,
        )
        &&& self.arguments.len() > 0
    }
}

/// The invocation that a template resolves to. A skeleton that leaves no
/// argument at all is an `EmptyCommand`.
pub open spec fn resolved(
    command: CommandView,
    executable: Seq<char>,
    input_path: Seq<char>,
    options: Seq<Seq<char>>,
    output_path: Seq<char>,
) -> Result<InvocationView, ErrorKind> {
    let arguments = substituted(command.command, executable, input_path, options, output_path);
    if arguments.len() > 0 {
        Ok(InvocationView { executable, input_path, options, output_path, arguments })
    } else {
        Err(ErrorKind::EmptyCommand)
    }
}

/// The contents of a resolution's result.
pub open spec fn resolution_view(result: Result<ResolvedInvocation, ErrorKind>) -> Result<
    InvocationView,
    ErrorKind,
> {
    match result {
        Ok(invocation) => Ok(invocation@),
        Err(error) => Err(error),
    }
}

/// Resolves `command` for one run.
pub fn resolve(
    command: &Command,
    executable: String,
    input_path: String,
    options: Vec<String>,
    output_path: String,
) -> (result: Result<ResolvedInvocation, ErrorKind>)
    ensures
        resolution_view(result) == resolved(
            command@,
            executable@,
            input_path@,
            strings_view(options@),
            output_path@,
        ),
        result matches Ok(invocation) ==> invocation@.resolves(command@),
{
    let arguments = substitute(
        &command.command,
        executable.as_str(),
        input_path.as_str(),
        &options,
        output_path.as_str(),
    );
    if arguments.len() > 0 {
        Ok(ResolvedInvocation { executable, input_path, options, output_path, arguments })
    } else {
        Err(ErrorKind::EmptyCommand)
    }
}

} // verus!
