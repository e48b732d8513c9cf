use vstd::prelude::*;

use crate::domain::device_id::{fresh_device_id, is_random_id};
use crate::text::{copy_optional_text, optional_text};

verus! {

/// A registered device: a logical entry for a physical board, optionally bound
/// to a toolchain project.
#[derive(Debug, PartialEq, Eq)]
pub struct Device {
    pub id: u128,
    pub name: String,
    pub board_id: String,
    pub board_type: Option<String>,
    pub project_path: Option<String>,
}

/// The mathematical value of a `Device`.
pub struct DeviceView {
    pub id: u128,
    pub name: Seq<char>,
    pub board_id: Seq<char>,
    pub board_type: Option<Seq<char>>,
    pub project_path: Option<Seq<char>>,
}

/// The value of an optional device.
pub open spec fn optional_device_view(device: Option<Device>) -> Option<DeviceView> {
    match device {
        Some(d) => Some(d@),
        None => None,
    }
}

impl DeviceView {
    /// A device is either toolchain-configured or bare, never partially.
    pub open spec fn well_formed(self) -> bool {
        self.board_type is Some <==> self.project_path is Some
    }

    /// Whether the device is bound to a toolchain project.
    pub open spec fn is_configured(self) -> bool {
        self.board_type is Some && self.project_path is Some
    }

    /// The bare device of the given identifier and name.
    pub open spec fn bare(id: u128, name: Seq<char>) -> DeviceView {
        DeviceView { id, name, board_id: Seq::empty(), board_type: None, project_path: None }
    }

    /// The toolchain-configured device of the given identifier and values.
    pub open spec fn configured(
        id: u128,
        name: Seq<char>,
        board_id: Seq<char>,
        board_type: Seq<char>,
        project_path: Seq<char>,
    ) -> DeviceView {
        DeviceView {
            id,
            name,
            board_id,
            board_type: Some(board_type),
            project_path: Some(project_path),
        }
    }
}

impl View for Device {
    type V = DeviceView;

    open spec fn view(&self) -> DeviceView {
        DeviceView {
            id: self.id,
            name: self.name@,
            board_id: self.board_id@,
            board_type: optional_text(self.board_type),
            project_path: optional_text(self.project_path),
        }
    }
}

impl Clone for Device {
    fn clone(&self) -> (copy: Self)
        ensures
            copy == *self,
    {
        Device {
            id: self.id,
            name: self.name.clone(),
            board_id: self.board_id.clone(),
            board_type: copy_optional_text(&self.board_type),
            project_path: copy_optional_text(&self.project_path),
        }
    }
}

impl Device {
    /// A device is either toolchain-configured or bare, never partially.
    pub open spec fn well_formed(&self) -> bool {
        self@.well_formed()
    }

    /// A bare device under the given identifier.
    pub fn bare(id: u128, name: &str) -> (device: Device)
        ensures
            device@ == DeviceView::bare(id, name@),
            device.well_formed(),
    {
        Device {
            id,
            name: name.to_owned(),
            board_id: String::new(),
            board_type: None,
            project_path: None,
        }
    }

    /// A toolchain-configured device under the given identifier.
    pub fn configured(
        id: u128,
        name: &str,
        board_id: String,
        board_type: String,
        project_path: String,
    ) -> (device: Device)
        ensures
            device@ == DeviceView::configured(id, name@, board_id@, board_type@, project_path@),
            device.well_formed(),
    {
        Device {
            id,
            name: name.to_owned(),
            board_id,
            board_type: Some(board_type),
            project_path: Some(project_path),
        }
    }

    /// A bare device under a freshly drawn identifier.
    pub fn new(name: &str) -> (device: Device)
        ensures
            device@ == DeviceView::bare(device.id, name@),
            device.well_formed(),
            is_random_id(device.id),
    {
        Device::bare(fresh_device_id(), name)
    }

    /// A toolchain-configured device under a freshly drawn identifier.
    pub fn with_esp32_config(
        name: &str,
        board_id: String,
        board_type: String,
        project_path: String,
    ) -> (device: Device)
        ensures
            device@ == DeviceView::configured(
                device.id,
                name@,
                board_id@,
                board_type@,
                project_path@,
            ),
            device.well_formed(),
            is_random_id(device.id),
    {
        Device::configured(fresh_device_id(), name, board_id, board_type, project_path)
    }
}

} // verus!
