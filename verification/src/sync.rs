//! The three operations of the data plane: download the waiting messages,
//! delete up to a message, acknowledge the receipt of an emergency. Each is
//! a request and a check of the answer; none is ever repeated here.

use vstd::prelude::*;
use crate::json::json_i64_member;
use crate::service::{
    API_URL, Method, Request, RequestView, ServiceError, STATUS_OK, body_verdict, confirm, field,
    is_success, success,
};
use crate::types::{Message, MessagesResponse};

verus! {

/// The request that downloads the messages waiting for a device.
pub open spec fn download_spec(secret: Seq<char>, device_id: Seq<char>) -> RequestView {
    RequestView {
        method: Method::Get,
        url: API_URL@ + "/messages.json?secret="@ + secret + "&device_id="@ + device_id,
        form: Seq::empty(),
    }
}

/// The request that deletes a device's messages up to `message_id`.
pub open spec fn delete_spec(
    secret: Seq<char>,
    device_id: Seq<char>,
    message_id: Seq<char>,
) -> RequestView {
    RequestView {
        method: Method::Post,
        url: API_URL@ + "/devices/"@ + device_id + "/update_highest_message.json"@,
        form: seq![("secret"@, secret), ("message"@, message_id)],
    }
}

/// The request that acknowledges the receipt of an emergency.
pub open spec fn acknowledge_spec(secret: Seq<char>, receipt: Seq<char>) -> RequestView {
    RequestView {
        method: Method::Post,
        url: API_URL@ + "/receipts/"@ + receipt + "/acknowledge.json"@,
        form: seq![("secret"@, secret)],
    }
}

/// Builds the download request.
pub fn download_request(secret: &str, device_id: &str) -> (request: Request)
    ensures
        request@ == download_spec(secret@, device_id@),
{
    let mut url = String::from_str(API_URL);
    url.append("/messages.json?secret=");
    url.append(secret);
    url.append("&device_id=");
    url.append(device_id);
    let request = Request { method: Method::Get, url, form: Vec::new() };
    assert(request@.form =~= Seq::empty());
    request
}

/// Builds the request that deletes up to `message_id`.
pub fn delete_request(secret: &str, device_id: &str, message_id: &str) -> (request: Request)
    ensures
        request@ == delete_spec(secret@, device_id@, message_id@),
{
    let mut url = String::from_str(API_URL);
    url.append("/devices/");
    url.append(device_id);
    url.append("/update_highest_message.json");
    let mut form: Vec<(String, String)> = Vec::new();
    form.push(field("secret", secret));
    form.push(field("message", message_id));
    let request = Request { method: Method::Post, url, form };
    assert(request@.form =~= seq![("secret"@, secret@), ("message"@, message_id@)]);
    request
}

/// Builds the request that acknowledges `receipt`. There is no such
/// request for an empty receipt.
pub fn acknowledge_request(secret: &str, receipt: &str) -> (request: Request)
    requires
        receipt@.len() > 0,
    ensures
        request@ == acknowledge_spec(secret@, receipt@),
{
    let mut url = String::from_str(API_URL);
    url.append("/receipts/");
    url.append(receipt);
    url.append("/acknowledge.json");
    let mut form: Vec<(String, String)> = Vec::new();
    form.push(field("secret", secret));
    let request = Request { method: Method::Post, url, form };
    assert(request@.form =~= seq![("secret"@, secret@)]);
    request
}

/// Judges a decoded download: with the success value as its `status` the
/// batch is handed on as it came, empty or not; with any other the answer
/// counts as a failure.
pub fn accept_messages(response: MessagesResponse) -> (batch: Result<Vec<Message>, ServiceError>)
    ensures
        response.status == STATUS_OK ==> batch == Ok::<Vec<Message>, ServiceError>(
            response.messages,
        ),
        response.status != STATUS_OK ==> batch == Err::<Vec<Message>, ServiceError>(
            ServiceError::Refused(Some(response.status as i64)),
        ),
{
    if response.status == 1 {
        Ok(response.messages)
    } else {
        let status: i64 = response.status as i64;
        Err(ServiceError::Refused(Some(status)))
    }
}

/// Judges the answer to a download from its HTTP status and its decoded
/// body, `None` standing for a body that could not be decoded. The HTTP
/// status is looked at first, and a body is asked for only behind a
/// successful one.
pub fn judge_download(code: u16, response: Option<MessagesResponse>) -> (batch: Result<
    Vec<Message>,
    ServiceError,
>)
    ensures
        !success(code) ==> batch == Err::<Vec<Message>, ServiceError>(ServiceError::Http(code)),
        success(code) && response is None ==> batch == Err::<Vec<Message>, ServiceError>(
            ServiceError::Malformed,
        ),
        success(code) && response is Some && response->0.status == STATUS_OK ==> batch == Ok::<
            Vec<Message>,
            ServiceError,
        >(response->0.messages),
        success(code) && response is Some && response->0.status != STATUS_OK ==> batch == Err::<
            Vec<Message>,
            ServiceError,
        >(ServiceError::Refused(Some(response->0.status as i64))),
{
    if !is_success(code) {
        return Err(ServiceError::Http(code));
    }
    match response {
        Some(response) => accept_messages(response),
        None => Err(ServiceError::Malformed),
    }
}

/// The verdict on the answer to a deletion or an acknowledgement, from its
/// HTTP status and from what the body's `status` member was read as.
pub open spec fn confirmation_verdict(code: u16, member: Option<Option<i64>>) -> Result<
    (),
    ServiceError,
> {
    if success(code) {
        body_verdict(member)
    } else {
        Err(ServiceError::Http(code))
    }
}

/// Judges the answer to a deletion or an acknowledgement.
pub fn judge_confirmation(code: u16, body: &str) -> (verdict: Result<(), ServiceError>)
    ensures
        verdict == confirmation_verdict(code, json_i64_member(body@, "status"@)),
{
    if is_success(code) {
        confirm(body)
    } else {
        Err(ServiceError::Http(code))
    }
}

} // verus!
