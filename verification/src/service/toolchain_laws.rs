use vstd::prelude::*;

use crate::service::toolchain_io::{
    lossy_text, FilesystemOutcomeView, FilesystemStep, ProcessOutcomeView, ToolchainActionView,
    ToolchainErrorView, ToolchainEventView,
};
use crate::service::toolchain_job::{
    command_invocation, exit_verdict, main_file, probe_invocation, probe_verdict, source_dir,
    ToolchainJobView, ToolchainStepView, MAIN_CPP_TEMPLATE, MAIN_FILE_SUFFIX, SOURCE_DIR_SUFFIX,
};

verus! {

/// The actions that are performed, in order, when a job is driven and the
/// outcomes of its actions are `events`, the first of them first: the job's
/// action is performed, the next event is its outcome, and so on until the
/// job is finished or the events are used up.
pub open spec fn actions_performed(
    job: ToolchainJobView,
    events: Seq<ToolchainEventView>,
) -> Seq<ToolchainActionView>
    decreases events.len(),
{
    if events.len() == 0 {
        Seq::empty()
    } else {
        match job.advance(events[0]) {
            ToolchainStepView::Pending(next) => seq![job.action()] + actions_performed(
                next,
                events.drop_first(),
            ),
            ToolchainStepView::Finished(_) => seq![job.action()],
        }
    }
}

/// The result of a job that is driven with `events`, or `None` where the job
/// is not finished when the events are used up.
pub open spec fn result_reached(job: ToolchainJobView, events: Seq<ToolchainEventView>) -> Option<
    Result<Seq<char>, ToolchainErrorView>,
>
    decreases events.len(),
{
    if events.len() == 0 {
        None
    } else {
        match job.advance(events[0]) {
            ToolchainStepView::Pending(next) => result_reached(next, events.drop_first()),
            ToolchainStepView::Finished(result) => Some(result),
        }
    }
}

/// Whether `action` touches the filesystem or runs a toolchain command in a
/// project: every action but the version probe does.
pub open spec fn touches_project(action: ToolchainActionView) -> bool {
    action != ToolchainActionView::Spawn(probe_invocation())
}

/// Whether `job` is a toolchain operation at its start: a command (build,
/// upload, clean, configuration query) or a project initialization, before
/// anything was done.
pub open spec fn starts_toolchain_operation(job: ToolchainJobView) -> bool {
    job is AwaitingProbe || job is AwaitingProbeThenDir
}

/// A toolchain operation (build, upload, clean, configuration query, project
/// initialization) that is started while the toolchain is unavailable fails
/// with `ToolchainUnavailable`, and nothing was done but the version probe: no
/// directory created, no file written, no command run.
pub proof fn lemma_unavailable_toolchain_stops_operation(
    job: ToolchainJobView,
    events: Seq<ToolchainEventView>,
)
    requires
        starts_toolchain_operation(job),
        events.len() > 0,
        events[0] matches ToolchainEventView::Process(probe) && probe_verdict(probe) is Err,
    ensures
        result_reached(job, events) matches Some(
            Err(ToolchainErrorView::ToolchainUnavailable { .. }),
        ),
        actions_performed(job, events) == seq![ToolchainActionView::Spawn(probe_invocation())],
        forall|i: int|
            0 <= i < actions_performed(job, events).len() ==> !touches_project(
                #[trigger] actions_performed(job, events)[i],
            ),
{
}

/// Every toolchain operation begins with the version probe, whatever
/// follows: nothing is done to a project before the toolchain was found.
pub proof fn lemma_operation_probes_first(job: ToolchainJobView, events: Seq<ToolchainEventView>)
    requires
        starts_toolchain_operation(job),
        events.len() > 0,
    ensures
        actions_performed(job, events).len() > 0,
        actions_performed(job, events)[0] == ToolchainActionView::Spawn(probe_invocation()),
{
}

/// A project initialization that finds the toolchain creates the project
/// directory before it runs the initialization in it: the probe, the
/// directory, the command, in this order.
pub proof fn lemma_init_creates_directory_first(
    project_path: Seq<char>,
    args: Seq<Seq<char>>,
    probe: ProcessOutcomeView,
    last: ToolchainEventView,
)
    requires
        probe_verdict(probe) is Ok,
    ensures
        ({
            let job = ToolchainJobView::AwaitingProbeThenDir { project_path, args };
            let events = seq![
                ToolchainEventView::Process(probe),
                ToolchainEventView::Filesystem(FilesystemOutcomeView::Done),
                last,
            ];
            actions_performed(job, events) == seq![
                ToolchainActionView::Spawn(probe_invocation()),
                ToolchainActionView::CreateDirAll { path: project_path },
                ToolchainActionView::Spawn(command_invocation(project_path, args)),
            ]
        }),
{
    let job = ToolchainJobView::AwaitingProbeThenDir { project_path, args };
    let second = ToolchainJobView::AwaitingProjectDir { project_path, args };
    let third = ToolchainJobView::AwaitingCommand { project_path, args };
    let events = seq![
        ToolchainEventView::Process(probe),
        ToolchainEventView::Filesystem(FilesystemOutcomeView::Done),
        last,
    ];
    let rest = events.drop_first();
    let tail = rest.drop_first();
    assert(rest[0] == events[1]);
    assert(tail[0] == last);
    assert(job.advance(events[0]) == ToolchainStepView::Pending(second));
    assert(second.advance(rest[0]) == ToolchainStepView::Pending(third));
    assert(actions_performed(third, tail) =~= seq![third.action()]) by {
        assert(actions_performed(third, tail.drop_first()) =~= Seq::empty());
    }
    assert(actions_performed(second, rest) =~= seq![second.action(), third.action()]);
    assert(actions_performed(job, events) =~= seq![
        job.action(),
        second.action(),
        third.action(),
    ]);
}

/// Where the project directory cannot be created, a project initialization
/// fails with `FilesystemError` and the initialization is never run: the
/// probe and the attempt to create the directory are all that was done.
pub proof fn lemma_failed_directory_stops_init(
    project_path: Seq<char>,
    args: Seq<Seq<char>>,
    events: Seq<ToolchainEventView>,
    reason: Seq<char>,
)
    requires
        events.len() > 1,
        events[0] matches ToolchainEventView::Process(probe) && probe_verdict(probe) is Ok,
        events[1] == ToolchainEventView::Filesystem(FilesystemOutcomeView::Failed { reason }),
    ensures
        ({
            let job = ToolchainJobView::AwaitingProbeThenDir { project_path, args };
            &&& result_reached(job, events) == Some(
                Err::<Seq<char>, ToolchainErrorView>(
                    ToolchainErrorView::FilesystemError {
                        step: FilesystemStep::ProjectDirectory,
                        reason,
                    },
                ),
            )
            &&& actions_performed(job, events) == seq![
                ToolchainActionView::Spawn(probe_invocation()),
                ToolchainActionView::CreateDirAll { path: project_path },
            ]
        }),
{
    let job = ToolchainJobView::AwaitingProbeThenDir { project_path, args };
    let next = ToolchainJobView::AwaitingProjectDir { project_path, args };
    let rest = events.drop_first();
    assert(rest[0] == events[1]);
    assert(job.advance(events[0]) == ToolchainStepView::Pending(next));
    assert(actions_performed(next, rest) == seq![next.action()]);
    assert(result_reached(job, events) == result_reached(next, rest));
    assert(actions_performed(job, events) =~= seq![job.action(), next.action()]);
}

/// An event that does not answer the action that a job waits for (a process
/// outcome while it waits for the filesystem, or the other way round) leaves
/// the job where it is; one that answers it never does.
pub proof fn lemma_only_answers_move_a_job(job: ToolchainJobView, event: ToolchainEventView)
    ensures
        job.answers(event) <==> job.advance(event) != ToolchainStepView::Pending(job),
{
}

/// A command is judged by its exit status alone, whatever it wrote: with
/// status zero the result is what it wrote to its standard output followed by
/// what it wrote to its standard error; with another status the operation
/// fails with `CommandFailed`, whose output is exactly that same text.
pub proof fn lemma_exit_status_decides(success: bool, stdout: Seq<char>, stderr: Seq<char>)
    ensures
        success ==> exit_verdict(success, stdout, stderr) == Ok::<Seq<char>, ToolchainErrorView>(
            stdout + stderr,
        ),
        !success ==> (exit_verdict(success, stdout, stderr) matches Err(error) && error
            is CommandFailed && error.output() == stdout + stderr),
{
}

/// A toolchain command that runs, after a successful probe, and exits with a
/// status other than zero makes its job fail with `CommandFailed`; the output
/// of the error is the text of the captured standard output followed by the
/// text of the captured standard error. The command was run in the project
/// directory.
pub proof fn lemma_failed_command_carries_output(
    project_path: Seq<char>,
    args: Seq<Seq<char>>,
    probe: ProcessOutcomeView,
    stdout: Seq<u8>,
    stderr: Seq<u8>,
)
    requires
        probe_verdict(probe) is Ok,
    ensures
        ({
            let job = ToolchainJobView::AwaitingProbe { project_path, args };
            let events = seq![
                ToolchainEventView::Process(probe),
                ToolchainEventView::Process(
                    ProcessOutcomeView::Exited { success: false, stdout, stderr },
                ),
            ];
            &&& result_reached(job, events) == Some(
                Err::<Seq<char>, ToolchainErrorView>(
                    ToolchainErrorView::CommandFailed {
                        stdout: lossy_text(stdout),
                        stderr: lossy_text(stderr),
                        launch_error: None,
                    },
                ),
            )
            &&& result_reached(job, events)->0->Err_0.output() == lossy_text(stdout) + lossy_text(
                stderr,
            )
            &&& actions_performed(job, events) == seq![
                ToolchainActionView::Spawn(probe_invocation()),
                ToolchainActionView::Spawn(command_invocation(project_path, args)),
            ]
        }),
{
    let job = ToolchainJobView::AwaitingProbe { project_path, args };
    let next = ToolchainJobView::AwaitingCommand { project_path, args };
    let events = seq![
        ToolchainEventView::Process(probe),
        ToolchainEventView::Process(ProcessOutcomeView::Exited { success: false, stdout, stderr }),
    ];
    let rest = events.drop_first();
    assert(rest[0] == events[1]);
    assert(job.advance(events[0]) == ToolchainStepView::Pending(next));
    assert(actions_performed(next, rest) == seq![
        ToolchainActionView::Spawn(command_invocation(project_path, args)),
    ]);
    assert(result_reached(job, events) == result_reached(next, rest));
    assert(actions_performed(job, events) =~= seq![
        ToolchainActionView::Spawn(probe_invocation()),
        ToolchainActionView::Spawn(command_invocation(project_path, args)),
    ]);
}

/// Writing the main file of a project creates `<path>/src`, then writes
/// `<path>/src/main.cpp` with exactly the template, whatever was there
/// before; nothing else is done, and the toolchain is not involved. What is
/// done depends on the path alone, so doing it again leaves the same file.
pub proof fn lemma_main_file_plan(project_path: Seq<char>)
    ensures
        ({
            let job = ToolchainJobView::AwaitingSourceDir { project_path };
            let done = ToolchainEventView::Filesystem(FilesystemOutcomeView::Done);
            &&& actions_performed(job, seq![done, done]) == seq![
                ToolchainActionView::CreateDirAll { path: project_path + "/src"@ },
                ToolchainActionView::WriteFile {
                    path: project_path + "/src/main.cpp"@,
                    contents: MAIN_CPP_TEMPLATE@,
                },
            ]
            &&& result_reached(job, seq![done, done]) == Some(
                Ok::<Seq<char>, ToolchainErrorView>(Seq::empty()),
            )
        }),
{
    let job = ToolchainJobView::AwaitingSourceDir { project_path };
    let next = ToolchainJobView::AwaitingMainFile { project_path };
    let done = ToolchainEventView::Filesystem(FilesystemOutcomeView::Done);
    let events = seq![done, done];
    let rest = events.drop_first();
    assert(rest[0] == done);
    assert(job.advance(events[0]) == ToolchainStepView::Pending(next));
    assert(next.advance(rest[0]) == ToolchainStepView::Finished(Ok(Seq::empty())));
    reveal_strlit("/src");
    reveal_strlit("/main.cpp");
    reveal_strlit("/src/main.cpp");
    assert(SOURCE_DIR_SUFFIX@ + MAIN_FILE_SUFFIX@ =~= "/src/main.cpp"@);
    assert(main_file(project_path) =~= project_path + "/src/main.cpp"@);
    assert(source_dir(project_path) == project_path + "/src"@);
    assert(actions_performed(next, rest) == seq![next.action()]);
    assert(result_reached(job, events) == result_reached(next, rest));
    assert(actions_performed(job, events) =~= seq![job.action(), next.action()]);
}

} // verus!
