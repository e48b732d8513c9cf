use vstd::prelude::*;

use crate::domain::DeviceView;
use crate::dto::device_dto::CommandResponseView;
use crate::dto::{CommandResponse, DeviceResponse};

verus! {

pub const STATUS_OK: u16 = 200;

pub const STATUS_CREATED: u16 = 201;

pub const STATUS_BAD_REQUEST: u16 = 400;

pub const STATUS_NOT_FOUND: u16 = 404;

pub const STATUS_INTERNAL_SERVER_ERROR: u16 = 500;

/// What a reply carries: a device record, a list of them, a plain text, or
/// the outcome of a firmware operation.
#[derive(Debug, PartialEq, Eq)]
pub enum ReplyBody {
    Device(DeviceResponse),
    Devices(Vec<DeviceResponse>),
    Text(String),
    Command(CommandResponse),
}

/// The mathematical value of a `ReplyBody`.
pub enum ReplyBodyView {
    Device(DeviceView),
    Devices(Seq<DeviceView>),
    Text(Seq<char>),
    Command(CommandResponseView),
}

/// The values of a sequence of device records.
pub open spec fn response_views(responses: Seq<DeviceResponse>) -> Seq<DeviceView> {
    responses.map_values(|response: DeviceResponse| response@)
}

impl View for ReplyBody {
    type V = ReplyBodyView;

    open spec fn view(&self) -> ReplyBodyView {
        match *self {
            ReplyBody::Device(device) => ReplyBodyView::Device(device@),
            ReplyBody::Devices(devices) => ReplyBodyView::Devices(response_views(devices@)),
            ReplyBody::Text(text) => ReplyBodyView::Text(text@),
            ReplyBody::Command(response) => ReplyBodyView::Command(response@),
        }
    }
}

/// The answer to a request: a status code and a body.
#[derive(Debug, PartialEq, Eq)]
pub struct HttpReply {
    pub status: u16,
    pub body: ReplyBody,
}

/// The mathematical value of an `HttpReply`.
pub struct HttpReplyView {
    pub status: u16,
    pub body: ReplyBodyView,
}

impl View for HttpReply {
    type V = HttpReplyView;

    open spec fn view(&self) -> HttpReplyView {
        HttpReplyView { status: self.status, body: self.body@ }
    }
}

impl HttpReplyView {
    /// A reply that carries a plain text.
    pub open spec fn text(status: u16, text: Seq<char>) -> HttpReplyView {
        HttpReplyView { status, body: ReplyBodyView::Text(text) }
    }

    /// A reply that reports a failed request to the firmware endpoints.
    pub open spec fn command_failure(status: u16, error: Seq<char>) -> HttpReplyView {
        HttpReplyView {
            status,
            body: ReplyBodyView::Command(
                CommandResponseView { success: false, output: Seq::empty(), error: Some(error) },
            ),
        }
    }

    /// A reply that reports a firmware operation that went through.
    pub open spec fn command_success(output: Seq<char>) -> HttpReplyView {
        HttpReplyView {
            status: STATUS_OK,
            body: ReplyBodyView::Command(
                CommandResponseView { success: true, output, error: None },
            ),
        }
    }
}

impl HttpReply {
    /// A reply that carries a plain text.
    pub fn text(status: u16, text: String) -> (reply: HttpReply)
        ensures
            reply@ == HttpReplyView::text(status, text@),
    {
        HttpReply { status, body: ReplyBody::Text(text) }
    }

    /// A reply that reports a failed request to the firmware endpoints.
    pub fn command_failure(status: u16, error: String) -> (reply: HttpReply)
        ensures
            reply@ == HttpReplyView::command_failure(status, error@),
    {
        HttpReply {
            status,
            body: ReplyBody::Command(
                CommandResponse { success: false, output: String::new(), error: Some(error) },
            ),
        }
    }

    /// A reply that reports a firmware operation that went through.
    pub fn command_success(output: String) -> (reply: HttpReply)
        ensures
            reply@ == HttpReplyView::command_success(output@),
    {
        HttpReply {
            status: STATUS_OK,
            body: ReplyBody::Command(CommandResponse { success: true, output, error: None }),
        }
    }
}

} // verus!
