//! The stages of one run, what each waits for, and what may answer it.

use vstd::prelude::*;

use crate::config::{clone_strings, strings_view};
use crate::editor::{EditorView, OptionEditor};
use crate::error::ErrorKind;
use crate::invocation::{InvocationView, ResolvedInvocation};

verus! {

/// How a run ended.
#[derive(Clone, Copy, Debug, PartialEq, Eq, Structural)]
pub enum Outcome {
    /// The external process ran and reported success.
    Succeeded,
    /// The user declined to run the command; nothing was launched.
    Declined,
    /// The run failed for the given reason.
    Failed(ErrorKind),
}

/// A question put to the user.
#[derive(Clone, Copy, Debug, PartialEq, Eq, Structural)]
pub enum Prompt {
    /// Which template to use, by position.
    TemplateIndex,
    /// Whether the options on display are accepted.
    AcceptOptions,
    /// Which option to change, by position.
    OptionIndex,
    /// The new value of the chosen option.
    OptionValue,
    /// The path of the input file.
    InputPath,
    /// Whether the derived output path is accepted.
    AcceptOutputPath,
    /// The output path to use instead of the derived one.
    OutputPath,
    /// Whether to run the command on display.
    Proceed,
}

/// Where a run stands. Each stage but the last waits for one thing to be
/// done outside, which [`Stage::pending`] names.
#[derive(Clone, Debug, PartialEq, Eq)]
pub enum Stage {
    /// The templates are on display; the user picks one.
    SelectTemplate,
    /// The options of template `template` are being edited.
    EditOptions { template: usize, editor: OptionEditor },
    /// The options are settled; the user is asked for the input path.
    ReadInputPath { template: usize, options: Vec<String> },
    /// It is to be found out whether `input_path` is an existing file.
    ProbeInput { template: usize, options: Vec<String>, input_path: String, scripted: bool },
    /// The derived output path is on display; the user accepts it or not.
    ConfirmOutput { template: usize, options: Vec<String>, input_path: String, output_path: String },
    /// The user rejected the derived output path and is asked for another.
    ReadOutputPath { template: usize, options: Vec<String>, input_path: String },
    /// The command is on display; the user decides whether it runs.
    ConfirmRun { invocation: ResolvedInvocation },
    /// The command is to be launched, or is running.
    Running { invocation: ResolvedInvocation },
    /// The run is over.
    Done { outcome: Outcome },
}

/// What a [`Stage`] holds.
pub enum StageView {
    SelectTemplate,
    EditOptions { template: int, editor: EditorView },
    ReadInputPath { template: int, options: Seq<Seq<char>> },
    ProbeInput { template: int, options: Seq<Seq<char>>, input_path: Seq<char>, scripted: bool },
    ConfirmOutput {
        template: int,
        options: Seq<Seq<char>>,
        input_path: Seq<char>,
        output_path: Seq<char>,
    },
    ReadOutputPath { template: int, options: Seq<Seq<char>>, input_path: Seq<char> },
    ConfirmRun { invocation: InvocationView },
    Running { invocation: InvocationView },
    Done { outcome: Outcome },
}

impl View for Stage {
    type V = StageView;

    open spec fn view(&self) -> StageView {
        match self {
            Stage::SelectTemplate => StageView::SelectTemplate,
            Stage::EditOptions { template, editor } => StageView::EditOptions {
                template: *template as int,
                editor: editor@,
            },
            Stage::ReadInputPath { template, options } => StageView::ReadInputPath {
                template: *template as int,
                options: strings_view(options@),
            },
            Stage::ProbeInput { template, options, input_path, scripted } => StageView::ProbeInput {
                template: *template as int,
                options: strings_view(options@),
                input_path: input_path@,
                scripted: *scripted,
            },
            Stage::ConfirmOutput {
                template,
                options,
                input_path,
                output_path,
            } => StageView::ConfirmOutput {
                template: *template as int,
                options: strings_view(options@),
                input_path: input_path@,
                output_path: output_path@,
            },
            Stage::ReadOutputPath { template, options, input_path } => StageView::ReadOutputPath {
                template: *template as int,
                options: strings_view(options@),
                input_path: input_path@,
            },
            Stage::ConfirmRun { invocation } => StageView::ConfirmRun { invocation: invocation@ },
            Stage::Running { invocation } => StageView::Running { invocation: invocation@ },
            Stage::Done { outcome } => StageView::Done { outcome: *outcome },
        }
    }
}

/// Something that happened outside and answers what a stage waited for.
#[derive(Clone, Debug, PartialEq, Eq)]
pub enum Event {
    /// The user typed a line.
    Line(String),
    /// The probed path is an existing regular file, or is not.
    FileProbed(bool),
    /// The launched process ended, with success or without.
    Exited(bool),
    /// The process could not be started.
    LaunchFailed,
}

/// What an [`Event`] holds.
pub enum EventView {
    Line(Seq<char>),
    FileProbed(bool),
    Exited(bool),
    LaunchFailed,
}

impl View for Event {
    type V = EventView;

    open spec fn view(&self) -> EventView {
        match self {
            Event::Line(line) => EventView::Line(line@),
            Event::FileProbed(found) => EventView::FileProbed(*found),
            Event::Exited(success) => EventView::Exited(*success),
            Event::LaunchFailed => EventView::LaunchFailed,
        }
    }
}

/// What is to be done outside before a run can move on.
#[derive(Clone, Debug, PartialEq, Eq)]
pub enum Action {
    /// Put the question to the user and read a line.
    Ask(Prompt),
    /// Find out whether the path is an existing regular file.
    ProbeFile(String),
    /// Launch the first argument as a process, with the others as its
    /// arguments, and wait for it to end.
    Launch(Vec<String>),
    /// Nothing more; report the outcome.
    Finish(Outcome),
}

/// What an [`Action`] holds.
pub enum ActionView {
    Ask(Prompt),
    ProbeFile(Seq<char>),
    Launch(Seq<Seq<char>>),
    Finish(Outcome),
}

impl View for Action {
    type V = ActionView;

    open spec fn view(&self) -> ActionView {
        match self {
            Action::Ask(prompt) => ActionView::Ask(*prompt),
            Action::ProbeFile(path) => ActionView::ProbeFile(path@),
            Action::Launch(arguments) => ActionView::Launch(strings_view(arguments@)),
            Action::Finish(outcome) => ActionView::Finish(*outcome),
        }
    }
}

impl EditorView {
    /// The question that an editing session puts next.
    pub open spec fn prompt(self) -> Prompt {
        match self {
            EditorView::SelectIndex { .. } => Prompt::OptionIndex,
            EditorView::ReadValue { .. } => Prompt::OptionValue,
            _ => Prompt::AcceptOptions,
        }
    }
}

impl StageView {
    /// What the stage waits for.
    pub open spec fn pending(self) -> ActionView {
        match self {
            StageView::SelectTemplate => ActionView::Ask(Prompt::TemplateIndex),
            StageView::EditOptions { editor, .. } => ActionView::Ask(editor.prompt()),
            StageView::ReadInputPath { .. } => ActionView::Ask(Prompt::InputPath),
            StageView::ProbeInput { input_path, .. } => ActionView::ProbeFile(input_path),
            StageView::ConfirmOutput { .. } => ActionView::Ask(Prompt::AcceptOutputPath),
            StageView::ReadOutputPath { .. } => ActionView::Ask(Prompt::OutputPath),
            StageView::ConfirmRun { .. } => ActionView::Ask(Prompt::Proceed),
            StageView::Running { invocation } => ActionView::Launch(invocation.arguments),
            StageView::Done { outcome } => ActionView::Finish(outcome),
        }
    }

    /// The stage puts a question to the user.
    pub open spec fn asks(self) -> bool {
        self.pending() is Ask
    }

    /// The stage has the command launched.
    pub open spec fn launches(self) -> bool {
        self.pending() is Launch
    }
}

impl Stage {
    /// What is to be done outside before the run can move on.
    pub fn pending(&self) -> (action: Action)
        ensures
            action@ == self@.pending(),
    {
        match self {
            Stage::SelectTemplate => Action::Ask(Prompt::TemplateIndex),
            Stage::EditOptions { editor, .. } => match editor {
                OptionEditor::SelectIndex { .. } => Action::Ask(Prompt::OptionIndex),
                OptionEditor::ReadValue { .. } => Action::Ask(Prompt::OptionValue),
                _ => Action::Ask(Prompt::AcceptOptions),
            },
            Stage::ReadInputPath { .. } => Action::Ask(Prompt::InputPath),
            Stage::ProbeInput { input_path, .. } => Action::ProbeFile(input_path.clone()),
            Stage::ConfirmOutput { .. } => Action::Ask(Prompt::AcceptOutputPath),
            Stage::ReadOutputPath { .. } => Action::Ask(Prompt::OutputPath),
            Stage::ConfirmRun { .. } => Action::Ask(Prompt::Proceed),
            Stage::Running { invocation } => Action::Launch(clone_strings(&invocation.arguments)),
            Stage::Done { outcome } => Action::Finish(*outcome),
        }
    }

    /// Whether the run is over.
    pub fn is_done(&self) -> (done: bool)
        ensures
            done == (self@ is Done),
    {
        match self {
            Stage::Done { .. } => true,
            _ => false,
        }
    }
}

} // verus!
