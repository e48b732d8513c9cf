use vstd::prelude::*;
use vstd::std_specs::convert::FromSpecImpl;

use crate::domain::{Device, DeviceView};
use crate::text::{copy_optional_text, optional_text};

verus! {

/// The body of a request to register a device.
#[derive(Debug, PartialEq, Eq)]
pub struct DeviceCreateRequest {
    pub name: String,
    pub board_type: Option<String>,
    pub board_id: String,
    pub project_path: Option<String>,
}

/// A device record as it is sent out. Its value is that of the device it was
/// made from.
#[derive(Debug, PartialEq, Eq)]
pub struct DeviceResponse {
    pub id: u128,
    pub name: String,
    pub board_type: Option<String>,
    pub board_id: String,
    pub project_path: Option<String>,
}

impl View for DeviceResponse {
    type V = DeviceView;

    open spec fn view(&self) -> DeviceView {
        DeviceView {
            id: self.id,
            name: self.name@,
            board_id: self.board_id@,
            board_type: optional_text(self.board_type),
            project_path: optional_text(self.project_path),
        }
    }
}

impl From<&Device> for DeviceResponse {
    fn from(d: &Device) -> (response: DeviceResponse)
        ensures
            response@ == d@,
    {
        DeviceResponse {
            id: d.id,
            board_id: d.board_id.clone(),
            name: d.name.clone(),
            board_type: copy_optional_text(&d.board_type),
            project_path: copy_optional_text(&d.project_path),
        }
    }
}

impl FromSpecImpl<&Device> for DeviceResponse {
    open spec fn obeys_from_spec() -> bool {
        true
    }

    open spec fn from_spec(d: &Device) -> DeviceResponse {
        DeviceResponse {
            id: d.id,
            board_id: d.board_id,
            name: d.name,
            board_type: d.board_type,
            project_path: d.project_path,
        }
    }
}

/// A request to build the firmware of the device that it names.
#[derive(Debug, PartialEq, Eq)]
pub struct BuildRequest {
    pub device_id: u128,
}

/// A request to upload the firmware of the device that it names, to `port`
/// where one is given.
#[derive(Debug, PartialEq, Eq)]
pub struct UploadRequest {
    pub device_id: u128,
    pub port: Option<String>,
}

/// A request to initialize the project of the device that it names, for
/// `board`.
#[derive(Debug, PartialEq, Eq)]
pub struct InitProjectRequest {
    pub device_id: u128,
    pub board: String,
}

/// The outcome of a firmware operation as it is sent out.
#[derive(Debug, PartialEq, Eq)]
pub struct CommandResponse {
    pub success: bool,
    pub output: String,
    pub error: Option<String>,
}

/// The mathematical value of a `CommandResponse`.
pub struct CommandResponseView {
    pub success: bool,
    pub output: Seq<char>,
    pub error: Option<Seq<char>>,
}

impl View for CommandResponse {
    type V = CommandResponseView;

    open spec fn view(&self) -> CommandResponseView {
        CommandResponseView {
            success: self.success,
            output: self.output@,
            error: optional_text(self.error),
        }
    }
}

} // verus!
