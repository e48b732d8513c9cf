use vstd::prelude::*;
use vstd::string::StringExecFns;

use crate::domain::device_id::{is_random_id, parse_device_id, parsed_uuid};
use crate::domain::{Device, DeviceView};
use crate::dto::{DeviceCreateRequest, DeviceResponse};
use crate::handlers::reply::{
    response_views, HttpReply, HttpReplyView, ReplyBody, ReplyBodyView, STATUS_BAD_REQUEST,
    STATUS_CREATED, STATUS_INTERNAL_SERVER_ERROR, STATUS_NOT_FOUND, STATUS_OK,
};
use crate::repository::device_repository::{device_views, is_listing, lookup, stored};
use crate::repository::{DeviceRepository, StoreError};
use crate::service::device_service::registered_device;
use crate::service::DeviceService;
use crate::text::optional_text;

verus! {

/// The reply to a registration that went through: the created record (201).
pub open spec fn created_reply(device: DeviceView) -> HttpReplyView {
    HttpReplyView { status: STATUS_CREATED, body: ReplyBodyView::Device(device) }
}

/// The reply to a registration that the store refused (500).
pub open spec fn create_failed_reply(error: StoreError) -> HttpReplyView {
    HttpReplyView::text(
        STATUS_INTERNAL_SERVER_ERROR,
        "failed to create device: "@ + error.message_text(),
    )
}

/// The reply to a lookup that the store answered: the record (200), or "not
/// found" (404).
pub open spec fn found_reply(found: Option<DeviceView>) -> HttpReplyView {
    match found {
        Some(device) => HttpReplyView { status: STATUS_OK, body: ReplyBodyView::Device(device) },
        None => HttpReplyView::text(STATUS_NOT_FOUND, "not found"@),
    }
}

/// The reply to a lookup that the store refused (500).
pub open spec fn find_failed_reply(error: StoreError) -> HttpReplyView {
    HttpReplyView::text(
        STATUS_INTERNAL_SERVER_ERROR,
        "failed to find device: "@ + error.message_text(),
    )
}

/// The reply to a request whose identifier is no UUID (400).
pub open spec fn invalid_uuid_reply() -> HttpReplyView {
    HttpReplyView::text(STATUS_BAD_REQUEST, "invalid uuid"@)
}

/// The reply to a listing that the store answered: the records (200).
pub open spec fn listed_reply(listing: Seq<DeviceView>) -> HttpReplyView {
    HttpReplyView { status: STATUS_OK, body: ReplyBodyView::Devices(listing) }
}

/// The reply to a listing that the store refused (500).
pub open spec fn list_failed_reply(error: StoreError) -> HttpReplyView {
    HttpReplyView::text(
        STATUS_INTERNAL_SERVER_ERROR,
        "failed to list devices: "@ + error.message_text(),
    )
}

/// Builds the reply to a registration from what the registry returned.
pub fn create_device_reply(result: Result<Device, StoreError>) -> (reply: HttpReply)
    ensures
        match result {
            Ok(device) => reply@ == created_reply(device@),
            Err(error) => reply@ == create_failed_reply(error),
        },
{
    match result {
        Ok(device) => HttpReply {
            status: STATUS_CREATED,
            body: ReplyBody::Device(DeviceResponse::from(&device)),
        },
        Err(error) => HttpReply::text(
            STATUS_INTERNAL_SERVER_ERROR,
            String::from_str("failed to create device: ").concat(error.message().as_str()),
        ),
    }
}

/// Builds the reply to a lookup from what the registry returned.
pub fn find_device_reply(result: Result<Option<Device>, StoreError>) -> (reply: HttpReply)
    ensures
        match result {
            Ok(Some(device)) => reply@ == found_reply(Some(device@)),
            Ok(None) => reply@ == found_reply(None),
            Err(error) => reply@ == find_failed_reply(error),
        },
{
    match result {
        Ok(Some(device)) => HttpReply {
            status: STATUS_OK,
            body: ReplyBody::Device(DeviceResponse::from(&device)),
        },
        Ok(None) => HttpReply::text(STATUS_NOT_FOUND, String::from_str("not found")),
        Err(error) => HttpReply::text(
            STATUS_INTERNAL_SERVER_ERROR,
            String::from_str("failed to find device: ").concat(error.message().as_str()),
        ),
    }
}

/// Builds the reply to a listing from what the registry returned.
pub fn list_devices_reply(result: Result<Vec<Device>, StoreError>) -> (reply: HttpReply)
    ensures
        match result {
            Ok(devices) => reply@ == listed_reply(device_views(devices@)),
            Err(error) => reply@ == list_failed_reply(error),
        },
{
    match result {
        Ok(devices) => {
            let mut responses: Vec<DeviceResponse> = Vec::new();
            let mut i: usize = 0;
            while i < devices.len()
                invariant
                    i <= devices.len(),
                    responses@.len() == i,
                    forall|k: int| 0 <= k < i ==> responses@[k]@ == devices@[k]@,
                decreases devices.len() - i,
            {
                responses.push(DeviceResponse::from(&devices[i]));
                i = i + 1;
            }
            assert(response_views(responses@) =~= device_views(devices@));
            HttpReply { status: STATUS_OK, body: ReplyBody::Devices(responses) }
        },
        Err(error) => HttpReply::text(
            STATUS_INTERNAL_SERVER_ERROR,
            String::from_str("failed to list devices: ").concat(error.message().as_str()),
        ),
    }
}

/// Registers a device from the request and replies with the created record
/// (201). The device gets a fresh identifier; it is configured for the
/// toolchain where the request names both a board type and a project path, and
/// bare otherwise. Only a store that can fail may make the reply a report of
/// its error (500) instead; the registry is then as it was.
pub fn create_device<R: DeviceRepository>(
    service: &mut DeviceService<R>,
    payload: DeviceCreateRequest,
) -> (reply: HttpReply)
    requires
        old(service).inv(),
    ensures
        final(service).inv(),
        match reply@.body {
            ReplyBodyView::Device(device) => {
                &&& reply@ == created_reply(device)
                &&& is_random_id(device.id)
                &&& device == registered_device(
                    device.id,
                    payload.name@,
                    payload.board_id@,
                    optional_text(payload.board_type),
                    optional_text(payload.project_path),
                )
                &&& final(service).records() == stored(old(service).records(), device)
            },
            _ => {
                &&& !R::infallible()
                &&& exists|error: StoreError| reply@ == #[trigger] create_failed_reply(error)
                &&& final(service).records() == old(service).records()
            },
        },
{
    let result = service.create(
        payload.name.as_str(),
        payload.board_id,
        payload.board_type,
        payload.project_path,
    );
    let ghost outcome = result;
    let reply = create_device_reply(result);
    proof {
        if outcome is Err {
            assert(reply@ == create_failed_reply(outcome->Err_0));
        }
    }
    reply
}

/// Replies to a lookup of the device of the given identifier, where `id` is
/// `None` for a request whose identifier was no UUID: see `get_device`.
pub fn get_device_by_id<R: DeviceRepository>(service: &DeviceService<R>, id: Option<u128>) -> (reply:
    HttpReply)
    requires
        service.inv(),
    ensures
        match id {
            None => reply@ == invalid_uuid_reply(),
            Some(device_id) => {
                ||| reply@ == found_reply(lookup(service.records(), device_id))
                ||| !R::infallible() && exists|error: StoreError|
                    reply@ == #[trigger] find_failed_reply(error)
            },
        },
{
    match id {
        None => HttpReply::text(STATUS_BAD_REQUEST, String::from_str("invalid uuid")),
        Some(device_id) => {
            let result = service.get(device_id);
            let ghost outcome = result;
            let reply = find_device_reply(result);
            proof {
                if outcome is Err {
                    assert(reply@ == find_failed_reply(outcome->Err_0));
                }
            }
            reply
        },
    }
}

/// Looks up the device whose identifier `id` spells and replies with its
/// record (200), with "invalid uuid" (400) where `id` is no UUID, or with "not
/// found" (404) where no such device is registered. Only a store that can
/// fail may make the reply a report of its error (500) instead.
pub fn get_device<R: DeviceRepository>(service: &DeviceService<R>, id: &str) -> (reply: HttpReply)
    requires
        service.inv(),
    ensures
        match parsed_uuid(id@) {
            None => reply@ == invalid_uuid_reply(),
            Some(device_id) => {
                ||| reply@ == found_reply(lookup(service.records(), device_id))
                ||| !R::infallible() && exists|error: StoreError|
                    reply@ == #[trigger] find_failed_reply(error)
            },
        },
{
    get_device_by_id(service, parse_device_id(id))
}

/// Lists the registered devices and replies with their records (200): every
/// record exactly once, in no particular order. Only a store that can fail
/// may make the reply a report of its error (500) instead.
pub fn list_devices<R: DeviceRepository>(service: &DeviceService<R>) -> (reply: HttpReply)
    requires
        service.inv(),
    ensures
        match reply@.body {
            ReplyBodyView::Devices(listing) => {
                &&& reply@ == listed_reply(listing)
                &&& is_listing(listing, service.records())
            },
            _ => !R::infallible() && exists|error: StoreError|
                reply@ == #[trigger] list_failed_reply(error),
        },
{
    let result = service.list();
    let ghost outcome = result;
    let reply = list_devices_reply(result);
    proof {
        if outcome is Err {
            assert(reply@ == list_failed_reply(outcome->Err_0));
        }
    }
    reply
}

} // verus!
