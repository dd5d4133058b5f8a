//! The dispatcher: carries one run from the choice of a template to its
//! outcome, one outside event at a time.

use vstd::prelude::*;

use crate::args::{Args, ArgsView, Mode};
use crate::config::{clone_options, flatten, flattened, options_view, Config, ConfigView};
use crate::editor::{EditorView, OptionEditor, ACCEPT};
use crate::error::ErrorKind;
use crate::invocation::{resolve, resolved, InvocationView, ResolvedInvocation};
use crate::number::{index_of_line, parse_index};
use crate::path::{derive_output_path, derived_output_path, unquote_string, unquoted};
use crate::session::{Event, EventView, Outcome, Stage, StageView};
use crate::text::same_text;

verus! {

/// The name under which the executable is looked for on the search path.
pub const EXECUTABLE_NAME: &'static str = "ffmpeg";

/// Runs one template: resolves the command and says, stage by stage, what
/// is to be done outside.
#[derive(Clone, Debug, PartialEq, Eq)]
pub struct Runner {
    pub args: Args,
    pub config: Config,
    /// Whether the executable is the one that the configuration names,
    /// rather than the one on the search path.
    pub should_use_ffmpeg_path_field: bool,
}

/// What a [`Runner`] holds.
pub struct RunnerView {
    pub args: ArgsView,
    pub config: ConfigView,
    pub should_use_ffmpeg_path_field: bool,
}

impl View for Runner {
    type V = RunnerView;

    open spec fn view(&self) -> RunnerView {
        RunnerView {
            args: self.args@,
            config: self.config@,
            should_use_ffmpeg_path_field: self.should_use_ffmpeg_path_field,
        }
    }
}

/// The stage that follows an editing step: the input path is asked for
/// once the options are accepted, the run ends where an answer failed, and
/// the editing goes on otherwise.
pub open spec fn after_edit(template: int, editor: EditorView) -> StageView {
    match editor {
        EditorView::Accepted { arguments } => StageView::ReadInputPath {
            template,
            options: arguments,
        },
        EditorView::Failed { error } => StageView::Done { outcome: Outcome::Failed(error) },
        _ => StageView::EditOptions { template, editor },
    }
}

/// The stage that follows a resolution: what was resolved runs at once when
/// `confirmed`, and is shown for confirmation otherwise; a failed
/// resolution ends the run.
pub open spec fn after_resolution(
    resolution: Result<InvocationView, ErrorKind>,
    confirmed: bool,
) -> StageView {
    match resolution {
        Ok(invocation) => if confirmed {
            StageView::Running { invocation }
        } else {
            StageView::ConfirmRun { invocation }
        },
        Err(error) => StageView::Done { outcome: Outcome::Failed(error) },
    }
}

impl RunnerView {
    /// The executable that stands for the executable placeholder.
    pub open spec fn executable(self) -> Seq<char> {
        if self.should_use_ffmpeg_path_field {
            self.config.ffmpeg_path
        } else {
            EXECUTABLE_NAME@
        }
    }

    /// The stage in which a run begins.
    ///
    /// With a hash code and an input path the template is looked up by the
    /// code, its default options are taken as they are, and the path is
    /// probed next; an unknown code ends the run with `NotFound`. With
    /// neither, the user is asked for a template. With only one of the two
    /// the run ends at once with `UsageError`.
    pub open spec fn opening(self) -> StageView {
        match self.args.mode() {
            Err(error) => StageView::Done { outcome: Outcome::Failed(error) },
            Ok(Mode::Interactive) => StageView::SelectTemplate,
            Ok(Mode::Scripted) => match self.config.position_of_hash(self.args.hash.unwrap()) {
                Some(template) => StageView::ProbeInput {
                    template,
                    options: flattened(self.config.commands[template].options),
                    input_path: self.args.input_path.unwrap(),
                    scripted: true,
                },
                None => StageView::Done { outcome: Outcome::Failed(ErrorKind::NotFound) },
            },
        }
    }

    /// The invocation that template `template` resolves to.
    pub open spec fn resolution(
        self,
        template: int,
        input_path: Seq<char>,
        options: Seq<Seq<char>>,
        output_path: Seq<char>,
    ) -> Result<InvocationView, ErrorKind> {
        match self.config.lookup_by_index(template) {
            Ok(command) => resolved(command, self.executable(), input_path, options, output_path),
            Err(error) => Err(error),
        }
    }

    /// The stage that follows the probe of an input path.
    ///
    /// A path that is no file is asked for again, or ends a scripted run
    /// with `InvalidInput`. For a file the output path is derived; a
    /// scripted run resolves the command with it and runs it at once, an
    /// interactive one shows the path for confirmation.
    pub open spec fn after_probe(
        self,
        template: int,
        options: Seq<Seq<char>>,
        input_path: Seq<char>,
        scripted: bool,
        found: bool,
    ) -> StageView {
        if !found {
            if scripted {
                StageView::Done { outcome: Outcome::Failed(ErrorKind::InvalidInput) }
            } else {
                StageView::ReadInputPath { template, options }
            }
        } else {
            match self.config.lookup_by_index(template) {
                Err(error) => StageView::Done { outcome: Outcome::Failed(error) },
                Ok(command) => match derived_output_path(
                    input_path,
                    command.output_filename_suffix,
                    command.output_extension,
                ) {
                    Err(error) => StageView::Done { outcome: Outcome::Failed(error) },
                    Ok(output_path) => if scripted {
                        after_resolution(
                            self.resolution(template, input_path, options, output_path),
                            true,
                        )
                    } else {
                        StageView::ConfirmOutput { template, options, input_path, output_path }
                    },
                },
            }
        }
    }

    /// The stage that follows `stage` once `event` has happened. An event
    /// that does not answer what the stage waits for leaves it as it is.
    pub open spec fn advanced(self, stage: StageView, event: EventView) -> StageView {
        match (stage, event) {
            (StageView::SelectTemplate, EventView::Line(line)) => match index_of_line(line) {
                Err(error) => StageView::Done { outcome: Outcome::Failed(error) },
                Ok(index) => match self.config.lookup_by_index(index as int) {
                    Err(error) => StageView::Done { outcome: Outcome::Failed(error) },
                    Ok(command) => StageView::EditOptions {
                        template: index as int,
                        editor: EditorView::Presenting { options: command.options },
                    },
                },
            },
            (StageView::EditOptions { template, editor }, EventView::Line(line)) => after_edit(
                template,
                editor.fed(line),
            ),
            (
                StageView::ReadInputPath { template, options },
                EventView::Line(line),
            ) => StageView::ProbeInput {
                template,
                options,
                input_path: unquoted(line),
                scripted: false,
            },
            (
                StageView::ProbeInput { template, options, input_path, scripted },
                EventView::FileProbed(found),
            ) => self.after_probe(template, options, input_path, scripted, found),
            (
                StageView::ConfirmOutput { template, options, input_path, output_path },
                EventView::Line(line),
            ) => if line == ACCEPT@ {
                after_resolution(self.resolution(template, input_path, options, output_path), false)
            } else {
                StageView::ReadOutputPath { template, options, input_path }
            },
            (
                StageView::ReadOutputPath { template, options, input_path },
                EventView::Line(line),
            ) => after_resolution(self.resolution(template, input_path, options, line), false),
            (StageView::ConfirmRun { invocation }, EventView::Line(line)) => if line == ACCEPT@ {
                StageView::Running { invocation }
            } else {
                StageView::Done { outcome: Outcome::Declined }
            },
            (StageView::Running { .. }, EventView::Exited(success)) => StageView::Done {
                outcome: if success {
                    Outcome::Succeeded
                } else {
                    Outcome::Failed(ErrorKind::ExecutionFailure)
                },
            },
            (StageView::Running { .. }, EventView::LaunchFailed) => StageView::Done {
                outcome: Outcome::Failed(ErrorKind::LaunchFailure),
            },
            _ => stage,
        }
    }

    /// The stage reached from `stage` once each of `events` has happened
    /// in turn.
    pub open spec fn advanced_all(self, stage: StageView, events: Seq<EventView>) -> StageView
        decreases events.len(),
    {
        if events.len() == 0 {
            stage
        } else {
            self.advanced_all(self.advanced(stage, events[0]), events.skip(1))
        }
    }
}

impl StageView {
    /// The stage belongs to a run that asks the user nothing: it probes
    /// the input path given on the command line, runs the command, or is
    /// over.
    pub open spec fn unattended(self) -> bool {
        match self {
            StageView::ProbeInput { scripted, .. } => scripted,
            StageView::Running { .. } => true,
            StageView::Done { .. } => true,
            _ => false,
        }
    }
}

/// A run that is over stays over, with the same outcome, whatever happens
/// afterwards.
pub proof fn lemma_done_is_final(runner: RunnerView, outcome: Outcome, events: Seq<EventView>)
    ensures
        runner.advanced_all(StageView::Done { outcome }, events) == (StageView::Done { outcome }),
    decreases events.len(),
{
    if events.len() > 0 {
        lemma_done_is_final(runner, outcome, events.skip(1));
    }
}

/// A command is launched only with consent: a stage that launches is
/// reached either from the confirmation of the command, by the accepting
/// answer, or in a scripted run, once the input path has been found.
pub proof fn lemma_launch_needs_consent(runner: RunnerView, stage: StageView, event: EventView)
    requires
        runner.advanced(stage, event).launches(),
    ensures
        stage.launches() || (stage is ConfirmRun && event == EventView::Line(ACCEPT@)) || (
        stage matches StageView::ProbeInput { scripted, .. } && scripted && event
            == EventView::FileProbed(true)),
{
}

/// Declining the confirmation of the command ends the run without a
/// launch: any answer but the accepting one leads to the outcome
/// `Declined`, and nothing that happens afterwards launches the command.
pub proof fn lemma_declining_never_launches(
    runner: RunnerView,
    invocation: InvocationView,
    line: Seq<char>,
    events: Seq<EventView>,
)
    requires
        line != ACCEPT@,
    ensures
        runner.advanced(StageView::ConfirmRun { invocation }, EventView::Line(line)) == (
        StageView::Done { outcome: Outcome::Declined }),
        forall|k: int|
            0 <= k <= events.len() ==> !(#[trigger] runner.advanced_all(
                runner.advanced(StageView::ConfirmRun { invocation }, EventView::Line(line)),
                events.take(k),
            )).launches(),
{
    assert forall|k: int| 0 <= k <= events.len() implies !(#[trigger] runner.advanced_all(
        runner.advanced(StageView::ConfirmRun { invocation }, EventView::Line(line)),
        events.take(k),
    )).launches() by {
        lemma_done_is_final(runner, Outcome::Declined, events.take(k));
    }
}

/// A scripted run never asks the user anything: from its first stage on,
/// whatever happens, no stage puts a question.
pub proof fn lemma_scripted_run_asks_nothing(runner: RunnerView, events: Seq<EventView>)
    requires
        runner.args.mode() == Ok::<Mode, ErrorKind>(Mode::Scripted),
    ensures
        runner.advanced_all(runner.opening(), events).unattended(),
        !runner.advanced_all(runner.opening(), events).asks(),
{
    lemma_unattended_stays(runner, runner.opening(), events);
}

/// A run that asks nothing goes on asking nothing.
pub proof fn lemma_unattended_stays(runner: RunnerView, stage: StageView, events: Seq<EventView>)
    requires
        stage.unattended(),
    ensures
        runner.advanced_all(stage, events).unattended(),
        !runner.advanced_all(stage, events).asks(),
    decreases events.len(),
{
    if events.len() > 0 {
        lemma_unattended_stays(runner, runner.advanced(stage, events[0]), events.skip(1));
    }
}

impl RunnerView {
    /// `invocation` is the resolution of template `template` with the
    /// runner's executable and with exactly the given options and paths.
    pub open spec fn settles(
        self,
        invocation: InvocationView,
        template: int,
        options: Seq<Seq<char>>,
        input_path: Seq<char>,
        output_path: Seq<char>,
    ) -> bool {
        &&& 0 <= template < self.config.commands.len()
        &&& invocation.resolves(self.config.commands[template])
        &&& invocation.executable == self.executable()
        &&& invocation.options == options
        &&& invocation.input_path == input_path
        &&& invocation.output_path == output_path
    }

    /// `output_path` is the path derived from `input_path` for template
    /// `template`.
    pub open spec fn derives(self, template: int, input_path: Seq<char>, output_path: Seq<char>) -> bool {
        &&& 0 <= template < self.config.commands.len()
        &&& derived_output_path(
            input_path,
            self.config.commands[template].output_filename_suffix,
            self.config.commands[template].output_extension,
        ) == Ok::<Seq<char>, ErrorKind>(output_path)
    }
}

/// What runs is what was settled before. The output path shown for
/// confirmation is the one derived from the input path; the command shown
/// for confirmation resolves the chosen template with the accepted options,
/// the probed input path, and the output path that was accepted or typed in
/// its place; and the command that runs is the one that was confirmed, or,
/// in a scripted run, the resolution with the derived output path.
pub proof fn lemma_run_uses_what_was_settled(
    runner: RunnerView,
    stage: StageView,
    event: EventView,
)
    ensures
        match (stage, runner.advanced(stage, event)) {
            (
                StageView::ProbeInput { template, options, input_path, scripted },
                StageView::ConfirmOutput {
                    template: shown_template,
                    options: shown_options,
                    input_path: shown_input,
                    output_path,
                },
            ) => {
                &&& !scripted
                &&& shown_template == template
                &&& shown_options == options
                &&& shown_input == input_path
                &&& runner.derives(template, input_path, output_path)
            },
            (
                StageView::ConfirmOutput { template, options, input_path, output_path },
                StageView::ConfirmRun { invocation },
            ) => {
                &&& event == EventView::Line(ACCEPT@)
                &&& runner.settles(invocation, template, options, input_path, output_path)
            },
            (
                StageView::ReadOutputPath { template, options, input_path },
                StageView::ConfirmRun { invocation },
            ) => {
                &&& event == EventView::Line(invocation.output_path)
                &&& runner.settles(
                    invocation,
                    template,
                    options,
                    input_path,
                    invocation.output_path,
                )
            },
            (
                StageView::ProbeInput { template, options, input_path, scripted },
                StageView::Running { invocation },
            ) => {
                &&& scripted
                &&& event == EventView::FileProbed(true)
                &&& runner.derives(template, input_path, invocation.output_path)
                &&& runner.settles(
                    invocation,
                    template,
                    options,
                    input_path,
                    invocation.output_path,
                )
            },
            (StageView::ConfirmRun { invocation }, StageView::Running { invocation: launched }) => {
                &&& event == EventView::Line(ACCEPT@)
                &&& launched == invocation
            },
            (StageView::Running { invocation }, StageView::Running { invocation: launched }) =>
                launched == invocation,
            (_, StageView::Running { .. }) => false,
            (StageView::ConfirmRun { invocation }, StageView::ConfirmRun { invocation: shown }) =>
                shown == invocation,
            (_, StageView::ConfirmRun { .. }) => false,
            _ => true,
        },
{
}

/// In a scripted run whose template and input file are found, the command
/// that is launched is the template's skeleton, substituted with the
/// executable, the input path as given, the template's default options in
/// order, and the output path derived from the input path.
pub proof fn lemma_scripted_run_launches_resolved_command(runner: RunnerView, template: int)
    requires
        runner.args.mode() == Ok::<Mode, ErrorKind>(Mode::Scripted),
        runner.config.position_of_hash(runner.args.hash.unwrap()) == Some(template),
    ensures
        ({
            let command = runner.config.commands[template];
            let input_path = runner.args.input_path.unwrap();
            let output_path = derived_output_path(
                input_path,
                command.output_filename_suffix,
                command.output_extension,
            );
            let last = runner.advanced(runner.opening(), EventView::FileProbed(true));
            &&& 0 <= template < runner.config.commands.len()
            &&& runner.opening().pending() == crate::session::ActionView::ProbeFile(input_path)
            &&& output_path is Ok ==> last == after_resolution(
                resolved(
                    command,
                    runner.executable(),
                    input_path,
                    flattened(command.options),
                    output_path.unwrap(),
                ),
                true,
            )
            &&& output_path is Err ==> last == (StageView::Done {
                outcome: Outcome::Failed(ErrorKind::InvalidInput),
            })
            &&& runner.advanced(runner.opening(), EventView::FileProbed(false)) == (
            StageView::Done { outcome: Outcome::Failed(ErrorKind::InvalidInput) })
        }),
{
    runner.config.codes().index_of_first_ensures(runner.args.hash.unwrap());
}

impl Runner {
    /// The executable that stands for the executable placeholder.
    pub fn executable(&self) -> (executable: String)
        ensures
            executable@ == self@.executable(),
    {
        if self.should_use_ffmpeg_path_field {
            self.config.ffmpeg_path.clone()
        } else {
            EXECUTABLE_NAME.to_owned()
        }
    }

    /// Begins a run: decides between the scripted and the interactive mode
    /// and returns the stage in which the run starts.
    pub fn run(&self) -> (stage: Stage)
        ensures
            stage@ == self@.opening(),
    {
        match self.args.mode() {
            Err(error) => Stage::Done { outcome: Outcome::Failed(error) },
            Ok(Mode::Interactive) => Stage::SelectTemplate,
            Ok(Mode::Scripted) => {
                match (&self.args.hash, &self.args.input_path) {
                    (Some(hash), Some(input_path)) => {
                        match self.config.position_of_hash(hash.as_str()) {
                            Some(template) => {
                                proof {
                                    self@.config.codes().index_of_first_ensures(hash@);
                                }
                                Stage::ProbeInput {
                                    template,
                                    options: flatten(&self.config.commands[template].options),
                                    input_path: input_path.clone(),
                                    scripted: true,
                                }
                            },
                            None => Stage::Done { outcome: Outcome::Failed(ErrorKind::NotFound) },
                        }
                    },
                    _ => Stage::Done { outcome: Outcome::Failed(ErrorKind::UsageError) },
                }
            },
        }
    }

    /// Resolves template `template` with the given paths and options.
    fn resolve(
        &self,
        template: usize,
        input_path: String,
        options: Vec<String>,
        output_path: String,
        confirmed: bool,
    ) -> (stage: Stage)
        ensures
            stage@ == after_resolution(
                self@.resolution(
                    template as int,
                    input_path@,
                    crate::config::strings_view(options@),
                    output_path@,
                ),
                confirmed,
            ),
    {
        match self.config.lookup_by_index(template) {
            Err(error) => Stage::Done { outcome: Outcome::Failed(error) },
            Ok(command) => {
                match resolve(command, self.executable(), input_path, options, output_path) {
                    Ok(invocation) => {
                        if confirmed {
                            Stage::Running { invocation }
                        } else {
                            Stage::ConfirmRun { invocation }
                        }
                    },
                    Err(error) => Stage::Done { outcome: Outcome::Failed(error) },
                }
            },
        }
    }

    /// The stage that follows an editing step.
    fn settle_edit(template: usize, editor: OptionEditor) -> (stage: Stage)
        ensures
            stage@ == after_edit(template as int, editor@),
    {
        match editor {
            OptionEditor::Accepted { arguments } => Stage::ReadInputPath {
                template,
                options: arguments,
            },
            OptionEditor::Failed { error } => Stage::Done { outcome: Outcome::Failed(error) },
            editor => Stage::EditOptions { template, editor },
        }
    }

    /// The stage that follows the probe of an input path.
    fn settle_probe(
        &self,
        template: usize,
        options: Vec<String>,
        input_path: String,
        scripted: bool,
        found: bool,
    ) -> (stage: Stage)
        ensures
            stage@ == self@.after_probe(
                template as int,
                crate::config::strings_view(options@),
                input_path@,
                scripted,
                found,
            ),
    {
        if !found {
            if scripted {
                Stage::Done { outcome: Outcome::Failed(ErrorKind::InvalidInput) }
            } else {
                Stage::ReadInputPath { template, options }
            }
        } else {
            match self.config.lookup_by_index(template) {
                Err(error) => Stage::Done { outcome: Outcome::Failed(error) },
                Ok(command) => {
                    match derive_output_path(
                        input_path.as_str(),
                        command.output_filename_suffix.as_str(),
                        command.output_extension.as_str(),
                    ) {
                        Err(error) => Stage::Done { outcome: Outcome::Failed(error) },
                        Ok(output_path) => {
                            if scripted {
                                self.resolve(template, input_path, options, output_path, true)
                            } else {
                                Stage::ConfirmOutput { template, options, input_path, output_path }
                            }
                        },
                    }
                },
            }
        }
    }

    /// Moves a run on: returns the stage that follows `stage` once `event`
    /// has happened outside.
    pub fn advance(&self, stage: Stage, event: Event) -> (next: Stage)
        ensures
            next@ == self@.advanced(stage@, event@),
    {
        match (stage, event) {
            (Stage::SelectTemplate, Event::Line(line)) => {
                match parse_index(line.as_str()) {
                    Err(error) => Stage::Done { outcome: Outcome::Failed(error) },
                    Ok(index) => {
                        match self.config.lookup_by_index(index) {
                            Err(error) => Stage::Done { outcome: Outcome::Failed(error) },
                            Ok(command) => Stage::EditOptions {
                                template: index,
                                editor: OptionEditor::new(clone_options(&command.options)),
                            },
                        }
                    },
                }
            },
            (Stage::EditOptions { template, editor }, Event::Line(line)) => {
                Runner::settle_edit(template, editor.feed(line.as_str()))
            },
            (Stage::ReadInputPath { template, options }, Event::Line(line)) => Stage::ProbeInput {
                template,
                options,
                input_path: unquote_string(line.as_str()),
                scripted: false,
            },
            (
                Stage::ProbeInput { template, options, input_path, scripted },
                Event::FileProbed(found),
            ) => self.settle_probe(template, options, input_path, scripted, found),
            (
                Stage::ConfirmOutput { template, options, input_path, output_path },
                Event::Line(line),
            ) => {
                if same_text(line.as_str(), ACCEPT) {
                    self.resolve(template, input_path, options, output_path, false)
                } else {
                    Stage::ReadOutputPath { template, options, input_path }
                }
            },
            (Stage::ReadOutputPath { template, options, input_path }, Event::Line(line)) => {
                self.resolve(template, input_path, options, line, false)
            },
            (Stage::ConfirmRun { invocation }, Event::Line(line)) => {
                if same_text(line.as_str(), ACCEPT) {
                    Stage::Running { invocation }
                } else {
                    Stage::Done { outcome: Outcome::Declined }
                }
            },
            (Stage::Running { .. }, Event::Exited(success)) => Stage::Done {
                outcome: if success {
                    Outcome::Succeeded
                } else {
                    Outcome::Failed(ErrorKind::ExecutionFailure)
                },
            },
            (Stage::Running { .. }, Event::LaunchFailed) => Stage::Done {
                outcome: Outcome::Failed(ErrorKind::LaunchFailure),
            },
            (stage, _) => stage,
        }
    }
}

} // verus!
