use vstd::prelude::*;
use vstd::string::StringExecFns;

use crate::domain::device::optional_device_view;
use crate::domain::device_id::{parse_device_id, parsed_uuid};
use crate::domain::{Device, DeviceView};
use crate::dto::{BuildRequest, InitProjectRequest, UploadRequest};
use crate::handlers::reply::{
    HttpReply, HttpReplyView, STATUS_BAD_REQUEST, STATUS_INTERNAL_SERVER_ERROR, STATUS_NOT_FOUND,
};
use crate::repository::device_repository::lookup;
use crate::repository::{DeviceRepository, StoreError};
use crate::service::platformio_service::{build_args, clean_args, init_args, upload_args};
use crate::service::toolchain_io::{
    result_view, ToolchainAction, ToolchainError, ToolchainErrorView, ToolchainEvent,
    ToolchainEventView,
};
use crate::service::toolchain_job::{
    outputs_decode_faithfully, ToolchainJob, ToolchainJobView, ToolchainStep, ToolchainStepView,
};
use crate::service::{DeviceService, PlatformIOService};
use crate::text::optional_text;

verus! {

/// What a successful `create-main` request reports in place of an output.
pub const MAIN_CREATED_MESSAGE: &'static str = "Basic main.cpp created successfully";

/// The firmware operations that the endpoints offer.
#[derive(Debug, Clone, Copy, PartialEq, Eq)]
pub enum FirmwareOperation {
    Build,
    Upload,
    Init,
    CreateMain,
    Clean,
}

impl FirmwareOperation {
    /// How the error of a failed operation is introduced in the reply.
    pub open spec fn failure_prefix(self) -> Seq<char> {
        match self {
            FirmwareOperation::Build => "Build failed: "@,
            FirmwareOperation::Upload => "Upload failed: "@,
            FirmwareOperation::Init => "Project initialization failed: "@,
            FirmwareOperation::CreateMain => "Failed to create main file: "@,
            FirmwareOperation::Clean => "Clean failed: "@,
        }
    }

    /// The reply to a request whose operation ended with `result`: the
    /// output under status 200 (for `CreateMain` a fixed message in its
    /// place), or the error under status 500.
    pub open spec fn reply(self, result: Result<Seq<char>, ToolchainErrorView>) -> HttpReplyView {
        match result {
            Ok(output) => HttpReplyView::command_success(
                if self is CreateMain {
                    MAIN_CREATED_MESSAGE@
                } else {
                    output
                },
            ),
            Err(error) => HttpReplyView::command_failure(
                STATUS_INTERNAL_SERVER_ERROR,
                self.failure_prefix() + error.message(),
            ),
        }
    }

    /// Where a request stands when its job stands at `step`.
    pub open spec fn lift(self, step: ToolchainStepView) -> FirmwareStepView {
        match step {
            ToolchainStepView::Pending(job) => FirmwareStepView::Pending(
                FirmwareSessionView { operation: self, job },
            ),
            ToolchainStepView::Finished(result) => FirmwareStepView::Reply(self.reply(result)),
        }
    }
}

/// A firmware operation as requested, with its parameters.
#[derive(Debug, PartialEq, Eq)]
pub enum FirmwareRequest {
    Build,
    Upload { port: Option<String> },
    Init { board: String },
    CreateMain,
    Clean,
}

/// The mathematical value of a `FirmwareRequest`.
pub enum FirmwareRequestView {
    Build,
    Upload { port: Option<Seq<char>> },
    Init { board: Seq<char> },
    CreateMain,
    Clean,
}

impl View for FirmwareRequest {
    type V = FirmwareRequestView;

    open spec fn view(&self) -> FirmwareRequestView {
        match *self {
            FirmwareRequest::Build => FirmwareRequestView::Build,
            FirmwareRequest::Upload { port } => FirmwareRequestView::Upload {
                port: optional_text(port),
            },
            FirmwareRequest::Init { board } => FirmwareRequestView::Init { board: board@ },
            FirmwareRequest::CreateMain => FirmwareRequestView::CreateMain,
            FirmwareRequest::Clean => FirmwareRequestView::Clean,
        }
    }
}

impl FirmwareRequestView {
    /// The operation that is requested.
    pub open spec fn operation(self) -> FirmwareOperation {
        match self {
            FirmwareRequestView::Build => FirmwareOperation::Build,
            FirmwareRequestView::Upload { .. } => FirmwareOperation::Upload,
            FirmwareRequestView::Init { .. } => FirmwareOperation::Init,
            FirmwareRequestView::CreateMain => FirmwareOperation::CreateMain,
            FirmwareRequestView::Clean => FirmwareOperation::Clean,
        }
    }

    /// The toolchain job that serves the request on the project at
    /// `project_path`, as it starts.
    pub open spec fn job(self, project_path: Seq<char>) -> ToolchainJobView {
        match self {
            FirmwareRequestView::Build => ToolchainJobView::AwaitingProbe {
                project_path,
                args: build_args(),
            },
            FirmwareRequestView::Upload { port } => ToolchainJobView::AwaitingProbe {
                project_path,
                args: upload_args(port),
            },
            FirmwareRequestView::Init { board } => ToolchainJobView::AwaitingProbeThenDir {
                project_path,
                args: init_args(board),
            },
            FirmwareRequestView::CreateMain => ToolchainJobView::AwaitingSourceDir { project_path },
            FirmwareRequestView::Clean => ToolchainJobView::AwaitingProbe {
                project_path,
                args: clean_args(),
            },
        }
    }

    /// Where the request stands once the device was looked up: turned away
    /// where no device was found (404) or the device has no project (400),
    /// under way with its job otherwise.
    pub open spec fn start(self, found: Option<DeviceView>) -> FirmwareStepView {
        match found {
            None => FirmwareStepView::Reply(
                HttpReplyView::command_failure(STATUS_NOT_FOUND, "Device not found"@),
            ),
            Some(device) => match device.project_path {
                None => FirmwareStepView::Reply(
                    HttpReplyView::command_failure(
                        STATUS_BAD_REQUEST,
                        "Device has no project path configured"@,
                    ),
                ),
                Some(project_path) => FirmwareStepView::Pending(
                    FirmwareSessionView { operation: self.operation(), job: self.job(project_path) },
                ),
            },
        }
    }
}

/// Where a request stands whose device the store refused to look up: turned
/// away with the store's error (500).
pub open spec fn lookup_failed_step(error: StoreError) -> FirmwareStepView {
    FirmwareStepView::Reply(
        HttpReplyView::command_failure(
            STATUS_INTERNAL_SERVER_ERROR,
            "Failed to get device: "@ + error.message_text(),
        ),
    )
}

/// Where a request stands whose device identifier is no UUID: turned away
/// (400).
pub open spec fn invalid_device_id_step() -> FirmwareStepView {
    FirmwareStepView::Reply(
        HttpReplyView::command_failure(STATUS_BAD_REQUEST, "Invalid device ID"@),
    )
}

/// A firmware request under way: the operation and the toolchain job that
/// serves it.
#[derive(Debug, PartialEq, Eq)]
pub struct FirmwareSession {
    pub operation: FirmwareOperation,
    pub job: ToolchainJob,
}

/// The mathematical value of a `FirmwareSession`.
pub struct FirmwareSessionView {
    pub operation: FirmwareOperation,
    pub job: ToolchainJobView,
}

impl View for FirmwareSession {
    type V = FirmwareSessionView;

    open spec fn view(&self) -> FirmwareSessionView {
        FirmwareSessionView { operation: self.operation, job: self.job@ }
    }
}

/// Where a firmware request stands: under way, or answered.
#[derive(Debug, PartialEq, Eq)]
pub enum FirmwareStep {
    Pending(FirmwareSession),
    Reply(HttpReply),
}

/// The mathematical value of a `FirmwareStep`.
pub enum FirmwareStepView {
    Pending(FirmwareSessionView),
    Reply(HttpReplyView),
}

impl View for FirmwareStep {
    type V = FirmwareStepView;

    open spec fn view(&self) -> FirmwareStepView {
        match *self {
            FirmwareStep::Pending(session) => FirmwareStepView::Pending(session@),
            FirmwareStep::Reply(reply) => FirmwareStepView::Reply(reply@),
        }
    }
}

/// Builds the reply to a request whose operation ended with `result`.
pub fn operation_reply(operation: FirmwareOperation, result: Result<String, ToolchainError>) -> (reply:
    HttpReply)
    ensures
        reply@ == operation.reply(result_view(result)),
{
    match result {
        Ok(output) => match operation {
            FirmwareOperation::CreateMain => HttpReply::command_success(
                String::from_str(MAIN_CREATED_MESSAGE),
            ),
            _ => HttpReply::command_success(output),
        },
        Err(error) => {
            let prefix = match operation {
                FirmwareOperation::Build => "Build failed: ",
                FirmwareOperation::Upload => "Upload failed: ",
                FirmwareOperation::Init => "Project initialization failed: ",
                FirmwareOperation::CreateMain => "Failed to create main file: ",
                FirmwareOperation::Clean => "Clean failed: ",
            };
            HttpReply::command_failure(
                STATUS_INTERNAL_SERVER_ERROR,
                String::from_str(prefix).concat(error.message().as_str()),
            )
        },
    }
}

impl FirmwareSession {
    /// The action to perform next; its outcome is the event that `advance`
    /// takes.
    pub fn action(&self) -> (action: ToolchainAction)
        ensures
            action@ == self@.job.action(),
    {
        self.job.action()
    }

    /// Takes the outcome of the pending action and says where the request
    /// stands then: still under way, or answered with the reply that the
    /// job's result calls for. Where the outcome is that of the command, the
    /// texts of its two streams are known exactly wherever the streams are
    /// valid UTF-8.
    pub fn advance(self, event: ToolchainEvent) -> (step: FirmwareStep)
        ensures
            step@ == self@.operation.lift(self@.job.advance(event@)),
            self@.job is AwaitingCommand ==> (event@ matches ToolchainEventView::Process(outcome)
                ==> outputs_decode_faithfully(outcome)),
    {
        let operation = self.operation;
        match self.job.advance(event) {
            ToolchainStep::Pending(job) => FirmwareStep::Pending(FirmwareSession { operation, job }),
            ToolchainStep::Finished(result) => FirmwareStep::Reply(
                operation_reply(operation, result),
            ),
        }
    }
}

/// Starts the requested operation on the device that the registry returned
/// for the request, or turns the request away.
pub fn begin_operation(
    pio_service: &PlatformIOService,
    request: FirmwareRequest,
    found: Result<Option<Device>, StoreError>,
) -> (step: FirmwareStep)
    ensures
        match found {
            Ok(device) => step@ == request@.start(optional_device_view(device)),
            Err(error) => step@ == lookup_failed_step(error),
        },
{
    let device = match found {
        Ok(Some(device)) => device,
        Ok(None) => {
            return FirmwareStep::Reply(
                HttpReply::command_failure(STATUS_NOT_FOUND, String::from_str("Device not found")),
            );
        },
        Err(error) => {
            return FirmwareStep::Reply(
                HttpReply::command_failure(
                    STATUS_INTERNAL_SERVER_ERROR,
                    String::from_str("Failed to get device: ").concat(error.message().as_str()),
                ),
            );
        },
    };
    let project_path = match device.project_path {
        Some(path) => path,
        None => {
            return FirmwareStep::Reply(
                HttpReply::command_failure(
                    STATUS_BAD_REQUEST,
                    String::from_str("Device has no project path configured"),
                ),
            );
        },
    };
    let path = project_path.as_str();
    let session = match request {
        FirmwareRequest::Build => FirmwareSession {
            operation: FirmwareOperation::Build,
            job: pio_service.build_project(path),
        },
        FirmwareRequest::Upload { port } => {
            let job = match &port {
                Some(p) => pio_service.upload_firmware(path, Some(p.as_str())),
                None => pio_service.upload_firmware(path, None),
            };
            FirmwareSession { operation: FirmwareOperation::Upload, job }
        },
        FirmwareRequest::Init { board } => FirmwareSession {
            operation: FirmwareOperation::Init,
            job: pio_service.init_project(path, board.as_str()),
        },
        FirmwareRequest::CreateMain => FirmwareSession {
            operation: FirmwareOperation::CreateMain,
            job: pio_service.create_basic_main(path),
        },
        FirmwareRequest::Clean => FirmwareSession {
            operation: FirmwareOperation::Clean,
            job: pio_service.clean_project(path),
        },
    };
    FirmwareStep::Pending(session)
}

/// Looks up the device and starts the requested operation on its project, or
/// turns the request away: see `FirmwareRequestView::start`. `device_id` is
/// `None` for a request whose identifier was no UUID; such a request is
/// turned away (400) without a lookup. Only a store that can fail may have
/// the request turned away with its error (500) instead.
pub fn start_operation<R: DeviceRepository>(
    device_service: &DeviceService<R>,
    pio_service: &PlatformIOService,
    device_id: Option<u128>,
    request: FirmwareRequest,
) -> (step: FirmwareStep)
    requires
        device_service.inv(),
    ensures
        match device_id {
            None => step@ == invalid_device_id_step(),
            Some(id) => {
                ||| step@ == request@.start(lookup(device_service.records(), id))
                ||| !R::infallible() && exists|error: StoreError|
                    step@ == #[trigger] lookup_failed_step(error)
            },
        },
{
    match device_id {
        None => FirmwareStep::Reply(
            HttpReply::command_failure(STATUS_BAD_REQUEST, String::from_str("Invalid device ID")),
        ),
        Some(id) => {
            let found = device_service.get(id);
            let ghost outcome = found;
            let step = begin_operation(pio_service, request, found);
            proof {
                if outcome is Err {
                    assert(step@ == lookup_failed_step(outcome->Err_0));
                }
            }
            step
        },
    }
}

/// Starts a build of the firmware of the device that the request names.
pub fn build_firmware<R: DeviceRepository>(
    device_service: &DeviceService<R>,
    pio_service: &PlatformIOService,
    payload: BuildRequest,
) -> (step: FirmwareStep)
    requires
        device_service.inv(),
    ensures
        ({
            ||| step@ == FirmwareRequestView::Build.start(
                lookup(device_service.records(), payload.device_id),
            )
            ||| !R::infallible() && exists|error: StoreError|
                step@ == #[trigger] lookup_failed_step(error)
        }),
{
    start_operation(device_service, pio_service, Some(payload.device_id), FirmwareRequest::Build)
}

/// Starts an upload of the firmware of the device that the request names, to
/// the port that the request names, if any.
pub fn upload_firmware<R: DeviceRepository>(
    device_service: &DeviceService<R>,
    pio_service: &PlatformIOService,
    payload: UploadRequest,
) -> (step: FirmwareStep)
    requires
        device_service.inv(),
    ensures
        ({
            ||| step@ == (FirmwareRequestView::Upload { port: optional_text(payload.port) }).start(
                lookup(device_service.records(), payload.device_id),
            )
            ||| !R::infallible() && exists|error: StoreError|
                step@ == #[trigger] lookup_failed_step(error)
        }),
{
    start_operation(
        device_service,
        pio_service,
        Some(payload.device_id),
        FirmwareRequest::Upload { port: payload.port },
    )
}

/// Starts the initialization of the project of the device that the request
/// names, for the board that the request names.
pub fn init_project<R: DeviceRepository>(
    device_service: &DeviceService<R>,
    pio_service: &PlatformIOService,
    payload: InitProjectRequest,
) -> (step: FirmwareStep)
    requires
        device_service.inv(),
    ensures
        ({
            ||| step@ == (FirmwareRequestView::Init { board: payload.board@ }).start(
                lookup(device_service.records(), payload.device_id),
            )
            ||| !R::infallible() && exists|error: StoreError|
                step@ == #[trigger] lookup_failed_step(error)
        }),
{
    start_operation(
        device_service,
        pio_service,
        Some(payload.device_id),
        FirmwareRequest::Init { board: payload.board },
    )
}

/// Starts the writing of the template main file into the project of the
/// device whose identifier `device_id` spells.
pub fn create_basic_main<R: DeviceRepository>(
    device_service: &DeviceService<R>,
    pio_service: &PlatformIOService,
    device_id: &str,
) -> (step: FirmwareStep)
    requires
        device_service.inv(),
    ensures
        match parsed_uuid(device_id@) {
            None => step@ == invalid_device_id_step(),
            Some(id) => {
                ||| step@ == FirmwareRequestView::CreateMain.start(
                    lookup(device_service.records(), id),
                )
                ||| !R::infallible() && exists|error: StoreError|
                    step@ == #[trigger] lookup_failed_step(error)
            },
        },
{
    start_operation(
        device_service,
        pio_service,
        parse_device_id(device_id),
        FirmwareRequest::CreateMain,
    )
}

/// Starts the removal of the build artifacts of the project of the device
/// whose identifier `device_id` spells.
pub fn clean_project<R: DeviceRepository>(
    device_service: &DeviceService<R>,
    pio_service: &PlatformIOService,
    device_id: &str,
) -> (step: FirmwareStep)
    requires
        device_service.inv(),
    ensures
        match parsed_uuid(device_id@) {
            None => step@ == invalid_device_id_step(),
            Some(id) => {
                ||| step@ == FirmwareRequestView::Clean.start(lookup(device_service.records(), id))
                ||| !R::infallible() && exists|error: StoreError|
                    step@ == #[trigger] lookup_failed_step(error)
            },
        },
{
    start_operation(device_service, pio_service, parse_device_id(device_id), FirmwareRequest::Clean)
}

} // verus!
