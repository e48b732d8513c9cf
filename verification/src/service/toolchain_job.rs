use vstd::prelude::*;
use vstd::string::StringExecFns;

use crate::service::platformio_service::PlatformIOService;
use crate::service::toolchain_io::{
    captured_text, decodes_faithfully, lossy_text, result_view, FilesystemOutcome, FilesystemOutcomeView,
    FilesystemStep, Invocation, InvocationView, ProcessOutcome, ProcessOutcomeView,
    ToolchainAction, ToolchainActionView, ToolchainError, ToolchainErrorView, ToolchainEvent,
    ToolchainEventView,
};
use crate::text::{copy_texts, texts};

verus! {

/// The name under which the toolchain is found on the execution path.
pub const TOOLCHAIN_PROGRAM: &'static str = "platformio";

/// The argument of the version probe.
pub const VERSION_FLAG: &'static str = "--version";

/// The source directory of a project, relative to the project directory.
pub const SOURCE_DIR_SUFFIX: &'static str = "/src";

/// The main source file, relative to the source directory.
pub const MAIN_FILE_SUFFIX: &'static str = "/main.cpp";

/// The minimal blink-and-log program that `create_basic_main` writes.
pub const MAIN_CPP_TEMPLATE: &'static str =
    "#include <Arduino.h>\n\n// Basic ESP32 program\nvoid setup() {\n    Serial.begin(115200);\n    pinMode(LED_BUILTIN, OUTPUT);\n    Serial.println(\"ESP32 Remote Lab Device Started\");\n}\n\nvoid loop() {\n    digitalWrite(LED_BUILTIN, HIGH);\n    Serial.println(\"LED ON\");\n    delay(1000);\n    digitalWrite(LED_BUILTIN, LOW);\n    Serial.println(\"LED OFF\");\n    delay(1000);\n}\n";

/// The version probe: the toolchain asked for its version, in no particular
/// directory.
pub open spec fn probe_invocation() -> InvocationView {
    InvocationView { program: TOOLCHAIN_PROGRAM@, args: seq![VERSION_FLAG@], working_dir: None }
}

/// The toolchain run with `args` in the project directory.
pub open spec fn command_invocation(project_path: Seq<char>, args: Seq<Seq<char>>) -> InvocationView {
    InvocationView { program: TOOLCHAIN_PROGRAM@, args, working_dir: Some(project_path) }
}

/// The source directory of the project at `project_path`.
pub open spec fn source_dir(project_path: Seq<char>) -> Seq<char> {
    project_path + SOURCE_DIR_SUFFIX@
}

/// The main source file of the project at `project_path`.
pub open spec fn main_file(project_path: Seq<char>) -> Seq<char> {
    source_dir(project_path) + MAIN_FILE_SUFFIX@
}

/// What the outcome of the version probe says of the toolchain: present where
/// the probe ran and reported success, unavailable otherwise.
pub open spec fn probe_verdict(probe: ProcessOutcomeView) -> Result<(), ToolchainErrorView> {
    match probe {
        ProcessOutcomeView::Exited { success, .. } => if success {
            Ok(())
        } else {
            Err(ToolchainErrorView::ToolchainUnavailable { launch_error: None })
        },
        ProcessOutcomeView::NotStarted { reason } => Err(
            ToolchainErrorView::ToolchainUnavailable { launch_error: Some(reason) },
        ),
    }
}

/// The result of a command that exited, from its exit status and the text of
/// its two streams: the status alone decides. With status zero the result is
/// the standard output followed by the standard error; with another status
/// the error is `CommandFailed`, which carries the two texts, and so that
/// same output.
pub open spec fn exit_verdict(success: bool, stdout: Seq<char>, stderr: Seq<char>) -> Result<
    Seq<char>,
    ToolchainErrorView,
> {
    if success {
        Ok(stdout + stderr)
    } else {
        Err(ToolchainErrorView::CommandFailed { stdout, stderr, launch_error: None })
    }
}

/// The result of a toolchain command, from how the attempt to run it ended.
pub open spec fn command_verdict(outcome: ProcessOutcomeView) -> Result<
    Seq<char>,
    ToolchainErrorView,
> {
    match outcome {
        ProcessOutcomeView::Exited { success, stdout, stderr } => exit_verdict(
            success,
            lossy_text(stdout),
            lossy_text(stderr),
        ),
        ProcessOutcomeView::NotStarted { reason } => Err(
            ToolchainErrorView::CommandFailed {
                stdout: Seq::empty(),
                stderr: Seq::empty(),
                launch_error: Some(reason),
            },
        ),
    }
}

/// Whether the texts of the two streams that `outcome` holds are known
/// exactly wherever the streams are valid UTF-8.
pub open spec fn outputs_decode_faithfully(outcome: ProcessOutcomeView) -> bool {
    outcome matches ProcessOutcomeView::Exited { stdout, stderr, .. } ==> decodes_faithfully(
        stdout,
    ) && decodes_faithfully(stderr)
}

/// A toolchain operation under way: what it waits for, and what it needs to
/// go on from there.
#[derive(Debug, PartialEq, Eq)]
pub enum ToolchainJob {
    /// Waits for the version probe; then creates the project directory.
    AwaitingProbeThenDir { project_path: String, args: Vec<String> },
    /// Waits for the project directory to be created; then runs the command.
    AwaitingProjectDir { project_path: String, args: Vec<String> },
    /// Waits for the version probe; then runs the command.
    AwaitingProbe { project_path: String, args: Vec<String> },
    /// Waits for the command to end.
    AwaitingCommand { project_path: String, args: Vec<String> },
    /// Waits for the source directory to be created; then writes the main file.
    AwaitingSourceDir { project_path: String },
    /// Waits for the main file to be written.
    AwaitingMainFile { project_path: String },
}

/// The mathematical value of a `ToolchainJob`.
pub enum ToolchainJobView {
    AwaitingProbeThenDir { project_path: Seq<char>, args: Seq<Seq<char>> },
    AwaitingProjectDir { project_path: Seq<char>, args: Seq<Seq<char>> },
    AwaitingProbe { project_path: Seq<char>, args: Seq<Seq<char>> },
    AwaitingCommand { project_path: Seq<char>, args: Seq<Seq<char>> },
    AwaitingSourceDir { project_path: Seq<char> },
    AwaitingMainFile { project_path: Seq<char> },
}

impl View for ToolchainJob {
    type V = ToolchainJobView;

    open spec fn view(&self) -> ToolchainJobView {
        match *self {
            ToolchainJob::AwaitingProbeThenDir { project_path, args } => {
                ToolchainJobView::AwaitingProbeThenDir {
                    project_path: project_path@,
                    args: texts(args@),
                }
            },
            ToolchainJob::AwaitingProjectDir { project_path, args } => {
                ToolchainJobView::AwaitingProjectDir {
                    project_path: project_path@,
                    args: texts(args@),
                }
            },
            ToolchainJob::AwaitingProbe { project_path, args } => ToolchainJobView::AwaitingProbe {
                project_path: project_path@,
                args: texts(args@),
            },
            ToolchainJob::AwaitingCommand { project_path, args } => {
                ToolchainJobView::AwaitingCommand {
                    project_path: project_path@,
                    args: texts(args@),
                }
            },
            ToolchainJob::AwaitingSourceDir { project_path } => {
                ToolchainJobView::AwaitingSourceDir { project_path: project_path@ }
            },
            ToolchainJob::AwaitingMainFile { project_path } => ToolchainJobView::AwaitingMainFile {
                project_path: project_path@,
            },
        }
    }
}

/// Where a job stands after an event: still under way, or finished with its
/// result.
#[derive(Debug, PartialEq, Eq)]
pub enum ToolchainStep {
    Pending(ToolchainJob),
    Finished(Result<String, ToolchainError>),
}

/// The mathematical value of a `ToolchainStep`.
pub enum ToolchainStepView {
    Pending(ToolchainJobView),
    Finished(Result<Seq<char>, ToolchainErrorView>),
}

impl View for ToolchainStep {
    type V = ToolchainStepView;

    open spec fn view(&self) -> ToolchainStepView {
        match *self {
            ToolchainStep::Pending(job) => ToolchainStepView::Pending(job@),
            ToolchainStep::Finished(result) => ToolchainStepView::Finished(result_view(result)),
        }
    }
}

impl ToolchainJobView {
    /// The action whose outcome the job waits for.
    pub open spec fn action(self) -> ToolchainActionView {
        match self {
            ToolchainJobView::AwaitingProjectDir { project_path, .. } => {
                ToolchainActionView::CreateDirAll { path: project_path }
            },
            ToolchainJobView::AwaitingProbeThenDir { .. } | ToolchainJobView::AwaitingProbe { .. } => {
                ToolchainActionView::Spawn(probe_invocation())
            },
            ToolchainJobView::AwaitingCommand { project_path, args } => ToolchainActionView::Spawn(
                command_invocation(project_path, args),
            ),
            ToolchainJobView::AwaitingSourceDir { project_path } => {
                ToolchainActionView::CreateDirAll { path: source_dir(project_path) }
            },
            ToolchainJobView::AwaitingMainFile { project_path } => ToolchainActionView::WriteFile {
                path: main_file(project_path),
                contents: MAIN_CPP_TEMPLATE@,
            },
        }
    }

    /// Whether `event` reports on the kind of action that the job waits for.
    pub open spec fn answers(self, event: ToolchainEventView) -> bool {
        match self {
            ToolchainJobView::AwaitingProbeThenDir { .. }
            | ToolchainJobView::AwaitingProbe { .. }
            | ToolchainJobView::AwaitingCommand { .. } => event is Process,
            _ => event is Filesystem,
        }
    }

    /// Where the job stands after `event`. An event that does not answer the
    /// pending action leaves the job where it is.
    pub open spec fn advance(self, event: ToolchainEventView) -> ToolchainStepView {
        match (self, event) {
            (
                ToolchainJobView::AwaitingProbeThenDir { project_path, args },
                ToolchainEventView::Process(outcome),
            ) => match probe_verdict(outcome) {
                Ok(_) => ToolchainStepView::Pending(
                    ToolchainJobView::AwaitingProjectDir { project_path, args },
                ),
                Err(error) => ToolchainStepView::Finished(Err(error)),
            },
            (
                ToolchainJobView::AwaitingProjectDir { project_path, args },
                ToolchainEventView::Filesystem(outcome),
            ) => match outcome {
                FilesystemOutcomeView::Done => ToolchainStepView::Pending(
                    ToolchainJobView::AwaitingCommand { project_path, args },
                ),
                FilesystemOutcomeView::Failed { reason } => ToolchainStepView::Finished(
                    Err(
                        ToolchainErrorView::FilesystemError {
                            step: FilesystemStep::ProjectDirectory,
                            reason,
                        },
                    ),
                ),
            },
            (
                ToolchainJobView::AwaitingProbe { project_path, args },
                ToolchainEventView::Process(outcome),
            ) => match probe_verdict(outcome) {
                Ok(_) => ToolchainStepView::Pending(
                    ToolchainJobView::AwaitingCommand { project_path, args },
                ),
                Err(error) => ToolchainStepView::Finished(Err(error)),
            },
            (ToolchainJobView::AwaitingCommand { .. }, ToolchainEventView::Process(outcome)) => {
                ToolchainStepView::Finished(command_verdict(outcome))
            },
            (
                ToolchainJobView::AwaitingSourceDir { project_path },
                ToolchainEventView::Filesystem(outcome),
            ) => match outcome {
                FilesystemOutcomeView::Done => ToolchainStepView::Pending(
                    ToolchainJobView::AwaitingMainFile { project_path },
                ),
                FilesystemOutcomeView::Failed { reason } => ToolchainStepView::Finished(
                    Err(
                        ToolchainErrorView::FilesystemError {
                            step: FilesystemStep::SourceDirectory,
                            reason,
                        },
                    ),
                ),
            },
            (
                ToolchainJobView::AwaitingMainFile { .. },
                ToolchainEventView::Filesystem(outcome),
            ) => match outcome {
                FilesystemOutcomeView::Done => ToolchainStepView::Finished(Ok(Seq::empty())),
                FilesystemOutcomeView::Failed { reason } => ToolchainStepView::Finished(
                    Err(
                        ToolchainErrorView::FilesystemError {
                            step: FilesystemStep::MainFile,
                            reason,
                        },
                    ),
                ),
            },
            _ => ToolchainStepView::Pending(self),
        }
    }
}

/// The result of a command that exited, from its exit status and the text of
/// its two streams.
pub fn classify_exit(success: bool, stdout: String, stderr: String) -> (result: Result<
    String,
    ToolchainError,
>)
    ensures
        result_view(result) == exit_verdict(success, stdout@, stderr@),
{
    if success {
        Ok(stdout.concat(stderr.as_str()))
    } else {
        Err(ToolchainError::CommandFailed { stdout, stderr, launch_error: None })
    }
}

/// The result of a toolchain command, from how the attempt to run it ended.
pub fn classify_command(outcome: ProcessOutcome) -> (result: Result<String, ToolchainError>)
    ensures
        result_view(result) == command_verdict(outcome@),
        outputs_decode_faithfully(outcome@),
{
    match outcome {
        ProcessOutcome::Exited { success, stdout, stderr } => {
            let stdout_text = captured_text(&stdout);
            let stderr_text = captured_text(&stderr);
            classify_exit(success, stdout_text, stderr_text)
        },
        ProcessOutcome::NotStarted { reason } => Err(
            ToolchainError::CommandFailed {
                stdout: String::new(),
                stderr: String::new(),
                launch_error: Some(reason),
            },
        ),
    }
}

impl ToolchainJob {
    /// The action to perform next; its outcome is the event that `advance`
    /// takes.
    pub fn action(&self) -> (action: ToolchainAction)
        ensures
            action@ == self@.action(),
    {
        match self {
            ToolchainJob::AwaitingProjectDir { project_path, .. } => ToolchainAction::CreateDirAll {
                path: project_path.clone(),
            },
            ToolchainJob::AwaitingProbeThenDir { .. } | ToolchainJob::AwaitingProbe { .. } => {
                ToolchainAction::Spawn(PlatformIOService::new().version_probe())
            },
            ToolchainJob::AwaitingCommand { project_path, args } => ToolchainAction::Spawn(
                Invocation {
                    program: String::from_str(TOOLCHAIN_PROGRAM),
                    args: copy_texts(args),
                    working_dir: Some(project_path.clone()),
                },
            ),
            ToolchainJob::AwaitingSourceDir { project_path } => ToolchainAction::CreateDirAll {
                path: project_path.clone().concat(SOURCE_DIR_SUFFIX),
            },
            ToolchainJob::AwaitingMainFile { project_path } => ToolchainAction::WriteFile {
                path: project_path.clone().concat(SOURCE_DIR_SUFFIX).concat(MAIN_FILE_SUFFIX),
                contents: String::from_str(MAIN_CPP_TEMPLATE),
            },
        }
    }

    /// Takes the outcome of the pending action and says where the job stands
    /// then. Where the outcome is that of the command, the texts of its two
    /// streams are known exactly wherever the streams are valid UTF-8.
    pub fn advance(self, event: ToolchainEvent) -> (step: ToolchainStep)
        ensures
            step@ == self@.advance(event@),
            self@ is AwaitingCommand ==> (event@ matches ToolchainEventView::Process(outcome)
                ==> outputs_decode_faithfully(outcome)),
    {
        match (self, event) {
            (
                ToolchainJob::AwaitingProbeThenDir { project_path, args },
                ToolchainEvent::Process(outcome),
            ) => match PlatformIOService::new().check_pio_installed(outcome) {
                Ok(_) => ToolchainStep::Pending(
                    ToolchainJob::AwaitingProjectDir { project_path, args },
                ),
                Err(error) => ToolchainStep::Finished(Err(error)),
            },
            (
                ToolchainJob::AwaitingProjectDir { project_path, args },
                ToolchainEvent::Filesystem(outcome),
            ) => match outcome {
                FilesystemOutcome::Done => ToolchainStep::Pending(
                    ToolchainJob::AwaitingCommand { project_path, args },
                ),
                FilesystemOutcome::Failed { reason } => ToolchainStep::Finished(
                    Err(
                        ToolchainError::FilesystemError {
                            step: FilesystemStep::ProjectDirectory,
                            reason,
                        },
                    ),
                ),
            },
            (
                ToolchainJob::AwaitingProbe { project_path, args },
                ToolchainEvent::Process(outcome),
            ) => match PlatformIOService::new().check_pio_installed(outcome) {
                Ok(_) => ToolchainStep::Pending(
                    ToolchainJob::AwaitingCommand { project_path, args },
                ),
                Err(error) => ToolchainStep::Finished(Err(error)),
            },
            (ToolchainJob::AwaitingCommand { .. }, ToolchainEvent::Process(outcome)) => {
                ToolchainStep::Finished(classify_command(outcome))
            },
            (
                ToolchainJob::AwaitingSourceDir { project_path },
                ToolchainEvent::Filesystem(outcome),
            ) => match outcome {
                FilesystemOutcome::Done => ToolchainStep::Pending(
                    ToolchainJob::AwaitingMainFile { project_path },
                ),
                FilesystemOutcome::Failed { reason } => ToolchainStep::Finished(
                    Err(
                        ToolchainError::FilesystemError {
                            step: FilesystemStep::SourceDirectory,
                            reason,
                        },
                    ),
                ),
            },
            (ToolchainJob::AwaitingMainFile { .. }, ToolchainEvent::Filesystem(outcome)) => {
                match outcome {
                    FilesystemOutcome::Done => ToolchainStep::Finished(Ok(String::new())),
                    FilesystemOutcome::Failed { reason } => ToolchainStep::Finished(
                        Err(
                            ToolchainError::FilesystemError {
                                step: FilesystemStep::MainFile,
                                reason,
                            },
                        ),
                    ),
                }
            },
            (job, _) => ToolchainStep::Pending(job),
        }
    }
}

} // verus!
