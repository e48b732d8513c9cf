use vstd::prelude::*;
use vstd::string::StringExecFns;

use crate::service::toolchain_io::{Invocation, ProcessOutcome, ToolchainError, ToolchainErrorView};
use crate::service::toolchain_job::{
    probe_invocation, probe_verdict, ToolchainJob, ToolchainJobView, TOOLCHAIN_PROGRAM,
    VERSION_FLAG,
};
use crate::text::{optional_str, texts};

verus! {

/// The arguments of the build action.
pub open spec fn build_args() -> Seq<Seq<char>> {
    seq!["run"@]
}

/// The arguments of the upload action: with `port` an explicit target port,
/// without it the toolchain detects the port itself.
pub open spec fn upload_args(port: Option<Seq<char>>) -> Seq<Seq<char>> {
    match port {
        Some(p) => seq!["run"@, "--target"@, "upload"@, "--upload-port"@, p],
        None => seq!["run"@, "--target"@, "upload"@],
    }
}

/// The arguments of the clean action.
pub open spec fn clean_args() -> Seq<Seq<char>> {
    seq!["run"@, "--target"@, "clean"@]
}

/// The arguments of the configuration query.
pub open spec fn info_args() -> Seq<Seq<char>> {
    seq!["project"@, "config"@]
}

/// The arguments of the project initialization for `board`.
pub open spec fn init_args(board: Seq<char>) -> Seq<Seq<char>> {
    seq!["project"@, "init"@, "--board"@, board]
}

/// The firmware toolchain runner. It holds no state: each method starts a job
/// that the caller drives by performing the job's action and handing back the
/// outcome, until the job is finished.
#[derive(Debug, Clone, Copy, PartialEq, Eq)]
pub struct PlatformIOService;

impl PlatformIOService {
    /// The runner.
    pub fn new() -> (service: Self)
        ensures
            service == PlatformIOService,
    {
        PlatformIOService
    }

    /// Starts the default build of the project.
    pub fn build_project(&self, project_path: &str) -> (job: ToolchainJob)
        ensures
            job@ == (ToolchainJobView::AwaitingProbe {
                project_path: project_path@,
                args: build_args(),
            }),
    {
        let args: Vec<String> = vec![String::from_str("run")];
        assert(texts(args@) =~= build_args());
        self.run_pio_command(project_path, args)
    }

    /// Starts an upload of the project's firmware, to `port` where one is
    /// given.
    pub fn upload_firmware(&self, project_path: &str, port: Option<&str>) -> (job: ToolchainJob)
        ensures
            job@ == (ToolchainJobView::AwaitingProbe {
                project_path: project_path@,
                args: upload_args(optional_str(port)),
            }),
    {
        let mut args: Vec<String> = vec![
            String::from_str("run"),
            String::from_str("--target"),
            String::from_str("upload"),
        ];
        if let Some(p) = port {
            args.push(String::from_str("--upload-port"));
            args.push(String::from_str(p));
        }
        assert(texts(args@) =~= upload_args(optional_str(port)));
        self.run_pio_command(project_path, args)
    }

    /// Starts the removal of the project's build artifacts.
    pub fn clean_project(&self, project_path: &str) -> (job: ToolchainJob)
        ensures
            job@ == (ToolchainJobView::AwaitingProbe {
                project_path: project_path@,
                args: clean_args(),
            }),
    {
        let args: Vec<String> = vec![
            String::from_str("run"),
            String::from_str("--target"),
            String::from_str("clean"),
        ];
        assert(texts(args@) =~= clean_args());
        self.run_pio_command(project_path, args)
    }

    /// Starts the read-only query of the project's configuration.
    pub fn get_project_info(&self, project_path: &str) -> (job: ToolchainJob)
        ensures
            job@ == (ToolchainJobView::AwaitingProbe {
                project_path: project_path@,
                args: info_args(),
            }),
    {
        let args: Vec<String> = vec![String::from_str("project"), String::from_str("config")];
        assert(texts(args@) =~= info_args());
        self.run_pio_command(project_path, args)
    }

    /// Starts the initialization of a project for `board`: the toolchain is
    /// probed first; then the project directory is created, with any missing
    /// parents, before the initialization runs in it.
    pub fn init_project(&self, project_path: &str, board: &str) -> (job: ToolchainJob)
        ensures
            job@ == (ToolchainJobView::AwaitingProbeThenDir {
                project_path: project_path@,
                args: init_args(board@),
            }),
    {
        let args: Vec<String> = vec![
            String::from_str("project"),
            String::from_str("init"),
            String::from_str("--board"),
            String::from_str(board),
        ];
        assert(texts(args@) =~= init_args(board@));
        ToolchainJob::AwaitingProbeThenDir { project_path: String::from_str(project_path), args }
    }

    /// Starts the writing of the template main file under the project's
    /// source directory.
    pub fn create_basic_main(&self, project_path: &str) -> (job: ToolchainJob)
        ensures
            job@ == (ToolchainJobView::AwaitingSourceDir { project_path: project_path@ }),
    {
        ToolchainJob::AwaitingSourceDir { project_path: String::from_str(project_path) }
    }

    /// Starts a toolchain command with the given arguments in the project
    /// directory: the toolchain is probed first.
    pub fn run_pio_command(&self, project_path: &str, args: Vec<String>) -> (job: ToolchainJob)
        ensures
            job@ == (ToolchainJobView::AwaitingProbe {
                project_path: project_path@,
                args: texts(args@),
            }),
    {
        ToolchainJob::AwaitingProbe { project_path: String::from_str(project_path), args }
    }

    /// The version probe: the process whose outcome `check_pio_installed`
    /// judges.
    pub fn version_probe(&self) -> (probe: Invocation)
        ensures
            probe@ == probe_invocation(),
    {
        let args: Vec<String> = vec![String::from_str(VERSION_FLAG)];
        assert(texts(args@) =~= seq![VERSION_FLAG@]);
        Invocation { program: String::from_str(TOOLCHAIN_PROGRAM), args, working_dir: None }
    }

    /// Judges the outcome of the version probe: the toolchain is installed
    /// where the probe ran and reported success.
    pub fn check_pio_installed(&self, probe: ProcessOutcome) -> (result: Result<
        (),
        ToolchainError,
    >)
        ensures
            match result {
                Ok(_) => probe_verdict(probe@) is Ok,
                Err(error) => probe_verdict(probe@) == Err::<(), ToolchainErrorView>(error@),
            },
    {
        match probe {
            ProcessOutcome::Exited { success, .. } => {
                if success {
                    Ok(())
                } else {
                    Err(ToolchainError::ToolchainUnavailable { launch_error: None })
                }
            },
            ProcessOutcome::NotStarted { reason } => Err(
                ToolchainError::ToolchainUnavailable { launch_error: Some(reason) },
            ),
        }
    }
}

} // verus!
