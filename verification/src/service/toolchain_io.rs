use vstd::prelude::*;
use vstd::string::StringExecFns;
use vstd::utf8::{decode_utf8, valid_utf8};

use crate::text::{optional_text, texts};

verus! {

/// How an attempt to run a process ended.
#[derive(Debug, PartialEq, Eq)]
pub enum ProcessOutcome {
    /// The process ran to its end; `success` tells whether its exit status
    /// was zero, `stdout` and `stderr` hold what it wrote to the two streams.
    Exited { success: bool, stdout: Vec<u8>, stderr: Vec<u8> },
    /// The process could not be started.
    NotStarted { reason: String },
}

/// The mathematical value of a `ProcessOutcome`.
pub enum ProcessOutcomeView {
    Exited { success: bool, stdout: Seq<u8>, stderr: Seq<u8> },
    NotStarted { reason: Seq<char> },
}

impl View for ProcessOutcome {
    type V = ProcessOutcomeView;

    open spec fn view(&self) -> ProcessOutcomeView {
        match *self {
            ProcessOutcome::Exited { success, stdout, stderr } => ProcessOutcomeView::Exited {
                success,
                stdout: stdout@,
                stderr: stderr@,
            },
            ProcessOutcome::NotStarted { reason } => ProcessOutcomeView::NotStarted {
                reason: reason@,
            },
        }
    }
}

/// How a directory creation or a file write ended.
#[derive(Debug, PartialEq, Eq)]
pub enum FilesystemOutcome {
    Done,
    Failed { reason: String },
}

/// The mathematical value of a `FilesystemOutcome`.
pub enum FilesystemOutcomeView {
    Done,
    Failed { reason: Seq<char> },
}

impl View for FilesystemOutcome {
    type V = FilesystemOutcomeView;

    open spec fn view(&self) -> FilesystemOutcomeView {
        match *self {
            FilesystemOutcome::Done => FilesystemOutcomeView::Done,
            FilesystemOutcome::Failed { reason } => FilesystemOutcomeView::Failed {
                reason: reason@,
            },
        }
    }
}

/// What the outside world reports back after it performed an action.
#[derive(Debug, PartialEq, Eq)]
pub enum ToolchainEvent {
    Process(ProcessOutcome),
    Filesystem(FilesystemOutcome),
}

/// The mathematical value of a `ToolchainEvent`.
pub enum ToolchainEventView {
    Process(ProcessOutcomeView),
    Filesystem(FilesystemOutcomeView),
}

impl View for ToolchainEvent {
    type V = ToolchainEventView;

    open spec fn view(&self) -> ToolchainEventView {
        match *self {
            ToolchainEvent::Process(outcome) => ToolchainEventView::Process(outcome@),
            ToolchainEvent::Filesystem(outcome) => ToolchainEventView::Filesystem(outcome@),
        }
    }
}

/// A process to run: the program, its arguments, and the directory to run it
/// in (`None`: wherever the caller is).
#[derive(Debug, PartialEq, Eq)]
pub struct Invocation {
    pub program: String,
    pub args: Vec<String>,
    pub working_dir: Option<String>,
}

/// The mathematical value of an `Invocation`.
pub struct InvocationView {
    pub program: Seq<char>,
    pub args: Seq<Seq<char>>,
    pub working_dir: Option<Seq<char>>,
}

impl View for Invocation {
    type V = InvocationView;

    open spec fn view(&self) -> InvocationView {
        InvocationView {
            program: self.program@,
            args: texts(self.args@),
            working_dir: optional_text(self.working_dir),
        }
    }
}

/// What a toolchain job asks the outside world to do next.
#[derive(Debug, PartialEq, Eq)]
pub enum ToolchainAction {
    /// Run the process to its end, capturing both output streams.
    Spawn(Invocation),
    /// Create the directory and any missing parents.
    CreateDirAll { path: String },
    /// Write the file, replacing one that is there.
    WriteFile { path: String, contents: String },
}

/// The mathematical value of a `ToolchainAction`.
pub enum ToolchainActionView {
    Spawn(InvocationView),
    CreateDirAll { path: Seq<char> },
    WriteFile { path: Seq<char>, contents: Seq<char> },
}

impl View for ToolchainAction {
    type V = ToolchainActionView;

    open spec fn view(&self) -> ToolchainActionView {
        match *self {
            ToolchainAction::Spawn(invocation) => ToolchainActionView::Spawn(invocation@),
            ToolchainAction::CreateDirAll { path } => ToolchainActionView::CreateDirAll {
                path: path@,
            },
            ToolchainAction::WriteFile { path, contents } => ToolchainActionView::WriteFile {
                path: path@,
                contents: contents@,
            },
        }
    }
}

/// The filesystem step at which a job failed.
#[derive(Debug, Clone, Copy, PartialEq, Eq)]
pub enum FilesystemStep {
    ProjectDirectory,
    SourceDirectory,
    MainFile,
}

/// Why a toolchain operation failed.
#[derive(Debug, PartialEq, Eq)]
pub enum ToolchainError {
    /// The version probe could not be started (`launch_error` holds why) or
    /// reported failure (`launch_error` is `None`).
    ToolchainUnavailable { launch_error: Option<String> },
    /// The command reported failure, with `stdout` and `stderr` what it wrote
    /// to its standard output and to its standard error; or it could not be
    /// started, with both empty and `launch_error` why. The output that the
    /// error carries is the two texts joined: see `output`.
    CommandFailed { stdout: String, stderr: String, launch_error: Option<String> },
    /// A directory could not be created or a file not written.
    FilesystemError { step: FilesystemStep, reason: String },
}

/// The mathematical value of a `ToolchainError`.
pub enum ToolchainErrorView {
    ToolchainUnavailable { launch_error: Option<Seq<char>> },
    CommandFailed { stdout: Seq<char>, stderr: Seq<char>, launch_error: Option<Seq<char>> },
    FilesystemError { step: FilesystemStep, reason: Seq<char> },
}

impl View for ToolchainError {
    type V = ToolchainErrorView;

    open spec fn view(&self) -> ToolchainErrorView {
        match *self {
            ToolchainError::ToolchainUnavailable { launch_error } => {
                ToolchainErrorView::ToolchainUnavailable {
                    launch_error: optional_text(launch_error),
                }
            },
            ToolchainError::CommandFailed { stdout, stderr, launch_error } => {
                ToolchainErrorView::CommandFailed {
                    stdout: stdout@,
                    stderr: stderr@,
                    launch_error: optional_text(launch_error),
                }
            },
            ToolchainError::FilesystemError { step, reason } => {
                ToolchainErrorView::FilesystemError { step, reason: reason@ }
            },
        }
    }
}

impl ToolchainErrorView {
    /// The captured output that the error carries: for a failed command what
    /// it wrote to its standard output followed, with nothing in between, by
    /// what it wrote to its standard error; empty for every other error.
    pub open spec fn output(self) -> Seq<char> {
        match self {
            ToolchainErrorView::CommandFailed { stdout, stderr, .. } => stdout + stderr,
            _ => Seq::empty(),
        }
    }

    /// The text of the error, as `ToolchainError::message` returns it.
    pub open spec fn message(self) -> Seq<char> {
        match self {
            ToolchainErrorView::ToolchainUnavailable { launch_error: Some(reason) } => {
                "PlatformIO not found. Please install PlatformIO: "@ + reason
            },
            ToolchainErrorView::ToolchainUnavailable { launch_error: None } => {
                "PlatformIO installation check failed"@
            },
            ToolchainErrorView::CommandFailed { launch_error: Some(reason), .. } => {
                "Failed to execute platformio command: "@ + reason
            },
            ToolchainErrorView::CommandFailed { stdout, stderr, launch_error: None } => {
                "PlatformIO command failed: "@ + stdout + "\n"@ + stderr
            },
            ToolchainErrorView::FilesystemError { step, reason } => {
                match step {
                    FilesystemStep::ProjectDirectory => {
                        "Failed to create project directory: "@ + reason
                    },
                    FilesystemStep::SourceDirectory => "Failed to create src directory: "@ + reason,
                    FilesystemStep::MainFile => "Failed to write main.cpp: "@ + reason,
                }
            },
        }
    }
}

impl ToolchainError {
    /// The captured output that the error carries.
    pub fn output(&self) -> (text: String)
        ensures
            text@ == self@.output(),
    {
        match self {
            ToolchainError::CommandFailed { stdout, stderr, .. } => {
                stdout.clone().concat(stderr.as_str())
            },
            _ => String::new(),
        }
    }

    /// A description of the error.
    pub fn message(&self) -> (text: String)
        ensures
            text@ == self@.message(),
    {
        match self {
            ToolchainError::ToolchainUnavailable { launch_error: Some(reason) } => {
                String::from_str("PlatformIO not found. Please install PlatformIO: ").concat(
                    reason.as_str(),
                )
            },
            ToolchainError::ToolchainUnavailable { launch_error: None } => {
                String::from_str("PlatformIO installation check failed")
            },
            ToolchainError::CommandFailed { launch_error: Some(reason), .. } => {
                String::from_str("Failed to execute platformio command: ").concat(reason.as_str())
            },
            ToolchainError::CommandFailed { stdout, stderr, launch_error: None } => {
                String::from_str("PlatformIO command failed: ").concat(stdout.as_str()).concat(
                    "\n",
                ).concat(stderr.as_str())
            },
            ToolchainError::FilesystemError { step, reason } => {
                let prefix = match step {
                    FilesystemStep::ProjectDirectory => "Failed to create project directory: ",
                    FilesystemStep::SourceDirectory => "Failed to create src directory: ",
                    FilesystemStep::MainFile => "Failed to write main.cpp: ",
                };
                String::from_str(prefix).concat(reason.as_str())
            },
        }
    }
}

/// The value of the result of a toolchain operation.
pub open spec fn result_view(result: Result<String, ToolchainError>) -> Result<
    Seq<char>,
    ToolchainErrorView,
> {
    match result {
        Ok(output) => Ok(output@),
        Err(error) => Err(error@),
    }
}

/// The text that `String::from_utf8_lossy` makes of `bytes`.
pub uninterp spec fn lossy_text(bytes: Seq<u8>) -> Seq<char>;

/// Whether the text of `bytes` is known exactly: bytes that are valid UTF-8
/// decode to the text that they encode.
pub open spec fn decodes_faithfully(bytes: Seq<u8>) -> bool {
    valid_utf8(bytes) ==> lossy_text(bytes) == decode_utf8(bytes)
}

/// Decodes captured output with `String::from_utf8_lossy`.
///
/// Trusted: the text depends on the bytes alone and `lossy_text` names it;
/// bytes that are valid UTF-8 decode to the text they encode. What becomes of
/// invalid sequences (each is replaced by U+FFFD) is not stated.
#[verifier::external_body]
pub(crate) fn decode_lossy(bytes: &Vec<u8>) -> (text: String)
    ensures
        text@ == lossy_text(bytes@),
        valid_utf8(bytes@) ==> text@ == decode_utf8(bytes@),
{
    String::from_utf8_lossy(bytes).into_owned()
}

/// The text of captured output: the bytes decoded as UTF-8, with each invalid
/// sequence replaced. Valid UTF-8 decodes to the text that it encodes.
pub fn captured_text(bytes: &Vec<u8>) -> (text: String)
    ensures
        text@ == lossy_text(bytes@),
        valid_utf8(bytes@) ==> text@ == decode_utf8(bytes@),
        decodes_faithfully(bytes@),
{
    decode_lossy(bytes)
}

} // verus!
