use vstd::prelude::*;

use crate::domain::device::optional_device_view;
use crate::domain::device_id::is_random_id;
use crate::domain::{Device, DeviceView};
use crate::repository::device_repository::{
    device_views, is_listing, lookup, stored, valid_records,
};
use crate::repository::{DeviceRepository, StoreError};
use crate::text::optional_text;

verus! {

/// The device that a registration creates under `id`: toolchain-configured
/// with the given values where both `board_type` and `project_path` are
/// supplied, bare otherwise, whatever else was supplied.
pub open spec fn registered_device(
    id: u128,
    name: Seq<char>,
    board_id: Seq<char>,
    board_type: Option<Seq<char>>,
    project_path: Option<Seq<char>>,
) -> DeviceView {
    match (board_type, project_path) {
        (Some(board), Some(path)) => DeviceView::configured(id, name, board_id, board, path),
        _ => DeviceView::bare(id, name),
    }
}

/// The registration rule, spelled out: with both a board type and a project
/// path the device is toolchain-configured and carries the values that were
/// supplied; with either missing it is bare, with both fields absent and no
/// board identifier. Either way it is well-formed.
pub proof fn lemma_registration_rule(
    id: u128,
    name: Seq<char>,
    board_id: Seq<char>,
    board_type: Option<Seq<char>>,
    project_path: Option<Seq<char>>,
)
    ensures
        ({
            let device = registered_device(id, name, board_id, board_type, project_path);
            &&& device.well_formed()
            &&& device.id == id
            &&& device.name == name
            &&& device.is_configured() <==> board_type is Some && project_path is Some
            &&& device.is_configured() ==> {
                &&& device.board_id == board_id
                &&& device.board_type == board_type
                &&& device.project_path == project_path
            }
            &&& !device.is_configured() ==> {
                &&& device.board_id == Seq::<char>::empty()
                &&& device.board_type is None
                &&& device.project_path is None
            }
        }),
{
}

/// The device registry: builds devices by the registration rule and keeps them
/// in a store.
pub struct DeviceService<R: DeviceRepository> {
    repository: R,
}

impl<R: DeviceRepository> DeviceService<R> {
    /// The records of the underlying store.
    pub closed spec fn records(&self) -> Map<u128, DeviceView> {
        self.repository.records()
    }

    /// The registry is in good standing when its store is.
    pub closed spec fn inv(&self) -> bool {
        self.repository.inv()
    }

    /// A registry over `repository`.
    pub fn new(repository: R) -> (service: Self)
        requires
            repository.inv(),
        ensures
            service.inv(),
            service.records() == repository.records(),
    {
        DeviceService { repository }
    }

    /// Registers a device under a freshly drawn identifier and returns what
    /// the store returned.
    pub fn create(
        &mut self,
        name: &str,
        board_id: String,
        board_type: Option<String>,
        project_path: Option<String>,
    ) -> (result: Result<Device, StoreError>)
        requires
            old(self).inv(),
        ensures
            final(self).inv(),
            R::infallible() ==> result is Ok,
            match result {
                Ok(device) => {
                    &&& is_random_id(device.id)
                    &&& device@ == registered_device(
                        device.id,
                        name@,
                        board_id@,
                        optional_text(board_type),
                        optional_text(project_path),
                    )
                    &&& final(self).records() == stored(old(self).records(), device@)
                },
                Err(_) => final(self).records() == old(self).records(),
            },
    {
        let device = match (board_type, project_path) {
            (Some(board), Some(path)) => Device::with_esp32_config(name, board_id, board, path),
            _ => Device::new(name),
        };
        self.repository.create(device.clone())
    }

    /// Registers a device under the identifier `id`.
    pub fn create_with_id(
        &mut self,
        id: u128,
        name: &str,
        board_id: String,
        board_type: Option<String>,
        project_path: Option<String>,
    ) -> (result: Result<Device, StoreError>)
        requires
            old(self).inv(),
        ensures
            final(self).inv(),
            R::infallible() ==> result is Ok,
            match result {
                Ok(device) => {
                    &&& device@ == registered_device(
                        id,
                        name@,
                        board_id@,
                        optional_text(board_type),
                        optional_text(project_path),
                    )
                    &&& final(self).records() == stored(old(self).records(), device@)
                },
                Err(_) => final(self).records() == old(self).records(),
            },
    {
        let device = match (board_type, project_path) {
            (Some(board), Some(path)) => Device::configured(id, name, board_id, board, path),
            _ => Device::bare(id, name),
        };
        self.repository.create(device.clone())
    }

    /// The device registered under `id`, or `None` where there is none.
    pub fn get(&self, id: u128) -> (result: Result<Option<Device>, StoreError>)
        requires
            self.inv(),
        ensures
            R::infallible() ==> result is Ok,
            result matches Ok(found) ==> optional_device_view(found) == lookup(self.records(), id),
    {
        self.repository.find_by_id(id)
    }

    /// All registered devices, in no particular order.
    pub fn list(&self) -> (result: Result<Vec<Device>, StoreError>)
        requires
            self.inv(),
        ensures
            R::infallible() ==> result is Ok,
            result matches Ok(devices) ==> is_listing(device_views(devices@), self.records()),
    {
        self.repository.list()
    }

    /// A registry in good standing holds well-formed devices, each under its
    /// own identifier.
    pub proof fn lemma_records_valid(&self)
        requires
            self.inv(),
        ensures
            valid_records(self.records()),
    {
        self.repository.lemma_records_valid();
    }
}

} // verus!
