use iot_remote_lab_server::service::toolchain_io::{
    captured_text, FilesystemOutcome, FilesystemStep, Invocation, ProcessOutcome, ToolchainAction,
    ToolchainError, ToolchainEvent,
};
use iot_remote_lab_server::service::toolchain_job::{
    classify_command, classify_exit, ToolchainJob, ToolchainStep, MAIN_CPP_TEMPLATE,
};
use iot_remote_lab_server::service::PlatformIOService;
use iot_remote_lab_server::text::{copy_optional_text, copy_texts};

fn strings(items: &[&str]) -> Vec<String> {
    items.iter().map(|s| s.to_string()).collect()
}

fn probe() -> ToolchainAction {
    ToolchainAction::Spawn(Invocation {
        program: "platformio".to_string(),
        args: strings(&["--version"]),
        working_dir: None,
    })
}

fn command(dir: &str, args: &[&str]) -> ToolchainAction {
    ToolchainAction::Spawn(Invocation {
        program: "platformio".to_string(),
        args: strings(args),
        working_dir: Some(dir.to_string()),
    })
}

fn exited(success: bool, stdout: &[u8], stderr: &[u8]) -> ToolchainEvent {
    ToolchainEvent::Process(ProcessOutcome::Exited {
        success,
        stdout: stdout.to_vec(),
        stderr: stderr.to_vec(),
    })
}

fn not_started(reason: &str) -> ToolchainEvent {
    ToolchainEvent::Process(ProcessOutcome::NotStarted { reason: reason.to_string() })
}

fn fs_done() -> ToolchainEvent {
    ToolchainEvent::Filesystem(FilesystemOutcome::Done)
}

fn fs_failed(reason: &str) -> ToolchainEvent {
    ToolchainEvent::Filesystem(FilesystemOutcome::Failed { reason: reason.to_string() })
}

/// Drives a job with the given outcomes; returns the actions performed and
/// the result, if the job finished.
fn drive(
    job: ToolchainJob,
    events: Vec<ToolchainEvent>,
) -> (Vec<ToolchainAction>, Option<Result<String, ToolchainError>>) {
    let mut actions = Vec::new();
    let mut current = job;
    for event in events {
        actions.push(current.action());
        match current.advance(event) {
            ToolchainStep::Pending(next) => current = next,
            ToolchainStep::Finished(result) => return (actions, Some(result)),
        }
    }
    (actions, None)
}

/// Test for PlatformIO installation check (expects failure in test env).
#[test]
fn test_pio_check() {
    let service = PlatformIOService::new();
    let _ = service.check_pio_installed(ProcessOutcome::NotStarted {
        reason: "No such file or directory (os error 2)".to_string(),
    });
}

#[test]
fn check_pio_installed_accepts_a_successful_probe() {
    let service = PlatformIOService::new();
    let probe = ProcessOutcome::Exited {
        success: true,
        stdout: b"PlatformIO Core, version 6.1.11\n".to_vec(),
        stderr: Vec::new(),
    };
    assert_eq!(service.check_pio_installed(probe), Ok(()));
}

#[test]
fn check_pio_installed_rejects_a_failed_probe() {
    let service = PlatformIOService::new();
    let probe = ProcessOutcome::Exited {
        success: false,
        stdout: b"looks fine".to_vec(),
        stderr: Vec::new(),
    };
    let error = service.check_pio_installed(probe).unwrap_err();
    assert_eq!(error, ToolchainError::ToolchainUnavailable { launch_error: None });
    assert_eq!(error.message(), "PlatformIO installation check failed");
}

#[test]
fn check_pio_installed_rejects_a_probe_that_did_not_start() {
    let service = PlatformIOService::new();
    let probe = ProcessOutcome::NotStarted { reason: "No such file or directory".to_string() };
    let error = service.check_pio_installed(probe).unwrap_err();
    assert_eq!(
        error,
        ToolchainError::ToolchainUnavailable {
            launch_error: Some("No such file or directory".to_string())
        }
    );
    assert_eq!(
        error.message(),
        "PlatformIO not found. Please install PlatformIO: No such file or directory"
    );
}

#[test]
fn build_project_probes_then_runs_in_project_dir() {
    let job = PlatformIOService::new().build_project("/srv/blink");
    let (actions, result) = drive(
        job,
        vec![exited(true, b"6.1.11", b""), exited(true, b"compiled\n", b"warning: x\n")],
    );
    assert_eq!(actions, vec![probe(), command("/srv/blink", &["run"])]);
    assert_eq!(result, Some(Ok("compiled\nwarning: x\n".to_string())));
}

#[test]
fn upload_firmware_with_port_passes_the_override() {
    let job = PlatformIOService::new().upload_firmware("/srv/blink", Some("/dev/ttyUSB0"));
    let (actions, result) = drive(job, vec![exited(true, b"", b""), exited(true, b"done", b"")]);
    assert_eq!(
        actions,
        vec![
            probe(),
            command("/srv/blink", &["run", "--target", "upload", "--upload-port", "/dev/ttyUSB0"])
        ]
    );
    assert_eq!(result, Some(Ok("done".to_string())));
}

#[test]
fn upload_firmware_without_port_lets_the_toolchain_detect() {
    let job = PlatformIOService::new().upload_firmware("/srv/blink", None);
    let (actions, _) = drive(job, vec![exited(true, b"", b""), exited(true, b"", b"")]);
    assert_eq!(actions, vec![probe(), command("/srv/blink", &["run", "--target", "upload"])]);
}

#[test]
fn clean_project_runs_the_clean_target() {
    let job = PlatformIOService::new().clean_project("p");
    let (actions, result) = drive(job, vec![exited(true, b"", b""), exited(true, b"", b"")]);
    assert_eq!(actions, vec![probe(), command("p", &["run", "--target", "clean"])]);
    assert_eq!(result, Some(Ok(String::new())));
}

#[test]
fn get_project_info_queries_the_configuration() {
    let job = PlatformIOService::new().get_project_info("p");
    let (actions, result) =
        drive(job, vec![exited(true, b"", b""), exited(true, b"[env:esp32dev]\n", b"")]);
    assert_eq!(actions, vec![probe(), command("p", &["project", "config"])]);
    assert_eq!(result, Some(Ok("[env:esp32dev]\n".to_string())));
}

#[test]
fn run_pio_command_passes_arguments_through() {
    let job = PlatformIOService::new().run_pio_command("dir", strings(&["device", "list"]));
    assert_eq!(
        job,
        ToolchainJob::AwaitingProbe {
            project_path: "dir".to_string(),
            args: strings(&["device", "list"])
        }
    );
    let (actions, _) = drive(job, vec![exited(true, b"", b""), exited(true, b"", b"")]);
    assert_eq!(actions, vec![probe(), command("dir", &["device", "list"])]);
}

#[test]
fn init_project_probes_then_creates_directory_then_initializes() {
    let job = PlatformIOService::new().init_project("/new/deep/project", "esp32dev");
    let (actions, result) = drive(
        job,
        vec![exited(true, b"", b""), fs_done(), exited(true, b"Project has been initialized", b"")],
    );
    assert_eq!(
        actions,
        vec![
            probe(),
            ToolchainAction::CreateDirAll { path: "/new/deep/project".to_string() },
            command("/new/deep/project", &["project", "init", "--board", "esp32dev"]),
        ]
    );
    assert_eq!(result, Some(Ok("Project has been initialized".to_string())));
}

#[test]
fn init_project_never_runs_the_initialization_when_directory_fails() {
    let job = PlatformIOService::new().init_project("/ro/project", "esp32dev");
    let (actions, result) = drive(
        job,
        vec![
            exited(true, b"", b""),
            fs_failed("Read-only file system (os error 30)"),
            exited(true, b"", b""),
        ],
    );
    assert_eq!(
        actions,
        vec![probe(), ToolchainAction::CreateDirAll { path: "/ro/project".to_string() }]
    );
    let error = result.unwrap().unwrap_err();
    assert_eq!(
        error,
        ToolchainError::FilesystemError {
            step: FilesystemStep::ProjectDirectory,
            reason: "Read-only file system (os error 30)".to_string()
        }
    );
    assert_eq!(
        error.message(),
        "Failed to create project directory: Read-only file system (os error 30)"
    );
}

#[test]
fn unavailable_toolchain_stops_every_operation_after_the_probe() {
    let service = PlatformIOService::new();
    let jobs = vec![
        service.init_project("p", "esp32dev"),
        service.build_project("p"),
        service.upload_firmware("p", Some("COM3")),
        service.upload_firmware("p", None),
        service.clean_project("p"),
        service.get_project_info("p"),
    ];
    for job in jobs {
        let (actions, result) = drive(job, vec![not_started("not found"), exited(true, b"", b"")]);
        assert_eq!(actions, vec![probe()]);
        assert_eq!(
            result,
            Some(Err(ToolchainError::ToolchainUnavailable {
                launch_error: Some("not found".to_string())
            }))
        );
    }
    let (actions, result) =
        drive(service.build_project("p"), vec![exited(false, b"out", b"err")]);
    assert_eq!(actions, vec![probe()]);
    assert_eq!(result, Some(Err(ToolchainError::ToolchainUnavailable { launch_error: None })));
}

#[test]
fn unavailable_toolchain_stops_init_before_anything_is_created() {
    let service = PlatformIOService::new();
    let (actions, result) =
        drive(service.init_project("/not/there/yet", "esp32dev"), vec![exited(false, b"", b"")]);
    assert_eq!(actions, vec![probe()]);
    assert_eq!(result, Some(Err(ToolchainError::ToolchainUnavailable { launch_error: None })));
    let (actions, result) = drive(
        service.init_project("/not/there/yet", "esp32dev"),
        vec![not_started("No such file or directory (os error 2)"), fs_done()],
    );
    assert_eq!(actions, vec![probe()]);
    assert_eq!(
        result,
        Some(Err(ToolchainError::ToolchainUnavailable {
            launch_error: Some("No such file or directory (os error 2)".to_string())
        }))
    );
}

#[test]
fn failed_command_carries_stdout_then_stderr() {
    let job = PlatformIOService::new().build_project("p");
    let (_, result) = drive(
        job,
        vec![exited(true, b"", b""), exited(false, b"Compiling main.cpp\n", b"error: boom\n")],
    );
    let error = result.unwrap().unwrap_err();
    assert_eq!(
        error,
        ToolchainError::CommandFailed {
            stdout: "Compiling main.cpp\n".to_string(),
            stderr: "error: boom\n".to_string(),
            launch_error: None
        }
    );
    assert_eq!(error.output(), "Compiling main.cpp\nerror: boom\n");
    assert_eq!(
        error.message(),
        "PlatformIO command failed: Compiling main.cpp\n\nerror: boom\n"
    );
}

#[test]
fn success_is_judged_by_exit_status_alone() {
    assert_eq!(
        classify_exit(true, "error: fatal".to_string(), "FAILED".to_string()),
        Ok("error: fatalFAILED".to_string())
    );
    assert_eq!(
        classify_exit(false, "SUCCESS".to_string(), String::new()),
        Err(ToolchainError::CommandFailed {
            stdout: "SUCCESS".to_string(),
            stderr: String::new(),
            launch_error: None
        })
    );
    assert_eq!(classify_exit(true, String::new(), String::new()), Ok(String::new()));
    let silent = classify_exit(false, String::new(), String::new()).unwrap_err();
    assert_eq!(
        silent,
        ToolchainError::CommandFailed {
            stdout: String::new(),
            stderr: String::new(),
            launch_error: None
        }
    );
    assert_eq!(silent.output(), "");
    assert_eq!(silent.message(), "PlatformIO command failed: \n");
}

#[test]
fn command_that_cannot_start_fails_with_the_launch_error() {
    let job = PlatformIOService::new().build_project("p");
    let (actions, result) =
        drive(job, vec![exited(true, b"", b""), not_started("Permission denied (os error 13)")]);
    assert_eq!(actions, vec![probe(), command("p", &["run"])]);
    let error = result.unwrap().unwrap_err();
    assert_eq!(
        error,
        ToolchainError::CommandFailed {
            stdout: String::new(),
            stderr: String::new(),
            launch_error: Some("Permission denied (os error 13)".to_string())
        }
    );
    assert_eq!(error.output(), "");
    assert_eq!(
        error.message(),
        "Failed to execute platformio command: Permission denied (os error 13)"
    );
}

#[test]
fn captured_output_is_decoded_lossily() {
    let outcome = ProcessOutcome::Exited {
        success: true,
        stdout: vec![b'o', b'k', 0xff, b'!'],
        stderr: "gr\u{fc}n \u{2713}".as_bytes().to_vec(),
    };
    assert_eq!(classify_command(outcome), Ok("ok\u{fffd}!gr\u{fc}n \u{2713}".to_string()));
    let outcome = ProcessOutcome::Exited { success: false, stdout: vec![0xc3], stderr: vec![0x28] };
    let error = classify_command(outcome).unwrap_err();
    assert_eq!(
        error,
        ToolchainError::CommandFailed {
            stdout: "\u{fffd}".to_string(),
            stderr: "(".to_string(),
            launch_error: None
        }
    );
    assert_eq!(error.output(), "\u{fffd}(");
}

#[test]
fn create_basic_main_writes_the_template_under_src() {
    let job = PlatformIOService::new().create_basic_main("/srv/fresh");
    let (actions, result) = drive(job, vec![fs_done(), fs_done()]);
    assert_eq!(
        actions,
        vec![
            ToolchainAction::CreateDirAll { path: "/srv/fresh/src".to_string() },
            ToolchainAction::WriteFile {
                path: "/srv/fresh/src/main.cpp".to_string(),
                contents: MAIN_CPP_TEMPLATE.to_string(),
            },
        ]
    );
    assert_eq!(result, Some(Ok(String::new())));
}

#[test]
fn create_basic_main_twice_asks_for_the_same_file() {
    let service = PlatformIOService::new();
    let first = drive(service.create_basic_main("proj"), vec![fs_done(), fs_done()]);
    let second = drive(service.create_basic_main("proj"), vec![fs_done(), fs_done()]);
    assert_eq!(first, second);
    assert_eq!(first.0.len(), 2);
}

#[test]
fn main_template_is_the_blink_program() {
    let expected = r#"#include <Arduino.h>

// Basic ESP32 program
void setup() {
    Serial.begin(115200);
    pinMode(LED_BUILTIN, OUTPUT);
    Serial.println("ESP32 Remote Lab Device Started");
}

void loop() {
    digitalWrite(LED_BUILTIN, HIGH);
    Serial.println("LED ON");
    delay(1000);
    digitalWrite(LED_BUILTIN, LOW);
    Serial.println("LED OFF");
    delay(1000);
}
"#;
    assert_eq!(MAIN_CPP_TEMPLATE, expected);
}

#[test]
fn create_basic_main_reports_a_failed_source_directory() {
    let job = PlatformIOService::new().create_basic_main("p");
    let (actions, result) = drive(job, vec![fs_failed("denied"), fs_done()]);
    assert_eq!(actions, vec![ToolchainAction::CreateDirAll { path: "p/src".to_string() }]);
    let error = result.unwrap().unwrap_err();
    assert_eq!(
        error,
        ToolchainError::FilesystemError {
            step: FilesystemStep::SourceDirectory,
            reason: "denied".to_string()
        }
    );
    assert_eq!(error.message(), "Failed to create src directory: denied");
}

#[test]
fn create_basic_main_reports_a_failed_write() {
    let job = PlatformIOService::new().create_basic_main("p");
    let (actions, result) = drive(job, vec![fs_done(), fs_failed("disk full")]);
    assert_eq!(actions.len(), 2);
    let error = result.unwrap().unwrap_err();
    assert_eq!(
        error,
        ToolchainError::FilesystemError {
            step: FilesystemStep::MainFile,
            reason: "disk full".to_string()
        }
    );
    assert_eq!(error.message(), "Failed to write main.cpp: disk full");
}

#[test]
fn an_event_of_the_wrong_kind_leaves_the_job_where_it_is() {
    let job = PlatformIOService::new().build_project("p");
    let step = job.advance(fs_done());
    assert_eq!(step, ToolchainStep::Pending(PlatformIOService::new().build_project("p")));
    let job = PlatformIOService::new().create_basic_main("p");
    let step = job.advance(exited(true, b"", b""));
    assert_eq!(step, ToolchainStep::Pending(PlatformIOService::new().create_basic_main("p")));
    let job = PlatformIOService::new().init_project("p", "b");
    let step = job.advance(fs_done());
    assert_eq!(step, ToolchainStep::Pending(PlatformIOService::new().init_project("p", "b")));
    let waiting_for_directory = ToolchainJob::AwaitingProjectDir {
        project_path: "p".to_string(),
        args: strings(&["project", "init", "--board", "b"]),
    };
    let step = waiting_for_directory.advance(exited(true, b"", b""));
    assert_eq!(
        step,
        ToolchainStep::Pending(ToolchainJob::AwaitingProjectDir {
            project_path: "p".to_string(),
            args: strings(&["project", "init", "--board", "b"]),
        })
    );
}

#[test]
fn an_unfinished_job_has_no_result() {
    let job = PlatformIOService::new().build_project("p");
    let (actions, result) = drive(job, vec![exited(true, b"", b"")]);
    assert_eq!(actions, vec![probe()]);
    assert_eq!(result, None);
}

#[test]
fn empty_project_path_is_passed_on_as_it_is() {
    let job = PlatformIOService::new().create_basic_main("");
    let (actions, _) = drive(job, vec![fs_done(), fs_done()]);
    assert_eq!(
        actions,
        vec![
            ToolchainAction::CreateDirAll { path: "/src".to_string() },
            ToolchainAction::WriteFile {
                path: "/src/main.cpp".to_string(),
                contents: MAIN_CPP_TEMPLATE.to_string(),
            },
        ]
    );
}

#[test]
fn copy_texts_copies_each_text() {
    assert_eq!(copy_texts(&strings(&["a", "", "c d"])), strings(&["a", "", "c d"]));
    assert_eq!(copy_texts(&Vec::new()), Vec::<String>::new());
}

#[test]
fn copy_optional_text_copies_the_text() {
    assert_eq!(copy_optional_text(&Some("abc".to_string())), Some("abc".to_string()));
    assert_eq!(copy_optional_text(&Some(String::new())), Some(String::new()));
    assert_eq!(copy_optional_text(&None), None);
}

#[test]
fn captured_text_decodes_valid_utf8_to_the_text_it_encodes() {
    assert_eq!(captured_text(&b"out".to_vec()), "out");
    assert_eq!(captured_text(&Vec::new()), "");
    let text = "gr\u{fc}n \u{2713} \u{1f600}";
    assert_eq!(captured_text(&text.as_bytes().to_vec()), text);
    assert_eq!(captured_text(&vec![b'a', 0x80, b'b']), "a\u{fffd}b");
}

#[test]
fn output_of_other_errors_is_empty() {
    assert_eq!(ToolchainError::ToolchainUnavailable { launch_error: None }.output(), "");
    let error = ToolchainError::FilesystemError {
        step: FilesystemStep::MainFile,
        reason: "r".to_string(),
    };
    assert_eq!(error.output(), "");
}

#[test]
fn valid_output_is_joined_exactly() {
    let outcome = ProcessOutcome::Exited {
        success: true,
        stdout: b"out".to_vec(),
        stderr: b"err".to_vec(),
    };
    assert_eq!(classify_command(outcome), Ok("outerr".to_string()));
}
