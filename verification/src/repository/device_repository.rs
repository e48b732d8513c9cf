use vstd::prelude::*;
use vstd::string::StringExecFns;

use crate::domain::device::optional_device_view;
use crate::domain::{Device, DeviceView};

verus! {

/// Why a store could not complete an operation.
#[derive(Debug, PartialEq, Eq)]
pub enum StoreError {
    /// The backing storage could not be reached or refused the operation.
    StorageUnavailable { reason: String },
}

impl StoreError {
    /// The text of the error, as `message` returns it.
    pub open spec fn message_text(self) -> Seq<char> {
        match self {
            StoreError::StorageUnavailable { reason } => "storage unavailable: "@ + reason@,
        }
    }

    /// A one-line description of the error.
    pub fn message(&self) -> (text: String)
        ensures
            text@ == self.message_text(),
    {
        match self {
            StoreError::StorageUnavailable { reason } => {
                String::from_str("storage unavailable: ").concat(reason.as_str())
            },
        }
    }
}

/// The contents of a device store: finitely many records, each a well-formed
/// device under its own identifier.
pub open spec fn valid_records(records: Map<u128, DeviceView>) -> bool {
    &&& records.dom().finite()
    &&& forall|id: u128| #[trigger]
        records.contains_key(id) ==> records[id].id == id && records[id].well_formed()
}

/// The contents after `device` was stored: inserted under its identifier, in
/// place of any record that was there.
pub open spec fn stored(records: Map<u128, DeviceView>, device: DeviceView) -> Map<
    u128,
    DeviceView,
> {
    records.insert(device.id, device)
}

/// The record under `id`, if there is one.
pub open spec fn lookup(records: Map<u128, DeviceView>, id: u128) -> Option<DeviceView> {
    if records.contains_key(id) {
        Some(records[id])
    } else {
        None
    }
}

/// Whether `listing` holds every record of `records` exactly once, in any order.
pub open spec fn is_listing(listing: Seq<DeviceView>, records: Map<u128, DeviceView>) -> bool {
    &&& listing.len() == records.dom().len()
    &&& forall|i: int|
        0 <= i < listing.len() ==> lookup(records, (#[trigger] listing[i]).id) == Some(listing[i])
    &&& forall|i: int, j: int|
        0 <= i < j < listing.len() ==> (#[trigger] listing[i]).id != (#[trigger] listing[j]).id
    &&& forall|id: u128| #[trigger]
        records.contains_key(id) ==> exists|i: int|
            0 <= i < listing.len() && (#[trigger] listing[i]).id == id
}

/// The values of a sequence of devices.
pub open spec fn device_views(devices: Seq<Device>) -> Seq<DeviceView> {
    devices.map_values(|device: Device| device@)
}

/// The storage contract of the registry: create, find and list, over contents
/// that `records` names.
///
/// An implementation may fail with `StoreError` at any call, unless it declares
/// itself `infallible`. A failed call leaves the contents as they were.
pub trait DeviceRepository {
    /// The records that the store holds.
    spec fn records(&self) -> Map<u128, DeviceView>;

    /// The implementation's own invariant.
    spec fn inv(&self) -> bool;

    /// Whether no operation of this implementation ever fails.
    spec fn infallible() -> bool;

    /// A store in good standing holds well-formed devices, each under its own
    /// identifier.
    proof fn lemma_records_valid(&self)
        requires
            self.inv(),
        ensures
            valid_records(self.records()),
    ;

    /// Inserts `device` under its identifier, overwriting a record that is
    /// already there, and returns the stored value.
    fn create(&mut self, device: Device) -> (result: Result<Device, StoreError>)
        requires
            old(self).inv(),
            device.well_formed(),
        ensures
            final(self).inv(),
            Self::infallible() ==> result is Ok,
            match result {
                Ok(created) => {
                    &&& created@ == device@
                    &&& final(self).records() == stored(old(self).records(), device@)
                },
                Err(_) => final(self).records() == old(self).records(),
            },
    ;

    /// A copy of the record under `id`, or `None` where there is none.
    fn find_by_id(&self, id: u128) -> (result: Result<Option<Device>, StoreError>)
        requires
            self.inv(),
        ensures
            Self::infallible() ==> result is Ok,
            result matches Ok(found) ==> optional_device_view(found) == lookup(self.records(), id),
    ;

    /// A snapshot of all records, in no particular order.
    fn list(&self) -> (result: Result<Vec<Device>, StoreError>)
        requires
            self.inv(),
        ensures
            Self::infallible() ==> result is Ok,
            result matches Ok(devices) ==> is_listing(device_views(devices@), self.records()),
    ;
}

} // verus!
