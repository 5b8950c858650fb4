//! What goes to the service's REST interface and how its answers are
//! judged. Nothing here sends anything: a `Request` says what to send, and
//! the checks take what came back as plain values.

use vstd::prelude::*;
use crate::json::{json_i64_member, read_i64_member};

verus! {

/// The root of the service's REST interface.
pub const API_URL: &'static str = "https://api.pushover.net/1";

/// The endpoint of the control channel.
pub const REALTIME_URL: &'static str = "wss://client.pushover.net/push";

/// The value of `status` by which the service reports success.
pub const STATUS_OK: i64 = 1;

/// The HTTP status by which the service asks for a second factor.
pub const PRECONDITION_FAILED: u16 = 412;

/// The verb of a request.
#[derive(Clone, Copy, Debug, PartialEq, Eq, Structural)]
pub enum Method {
    Get,
    Post,
}

/// A request to the service: where it goes and the form fields it carries.
#[derive(Clone, Debug, PartialEq, Eq)]
pub struct Request {
    pub method: Method,
    pub url: String,
    pub form: Vec<(String, String)>,
}

pub ghost struct RequestView {
    pub method: Method,
    pub url: Seq<char>,
    pub form: Seq<(Seq<char>, Seq<char>)>,
}

/// The names and values of a form, in its order.
pub open spec fn form_view(form: Seq<(String, String)>) -> Seq<(Seq<char>, Seq<char>)> {
    Seq::new(form.len(), |i: int| (form[i].0@, form[i].1@))
}

impl View for Request {
    type V = RequestView;

    open spec fn view(&self) -> RequestView {
        RequestView { method: self.method, url: self.url@, form: form_view(self.form@) }
    }
}

/// Why the service's answer does not count as success.
#[derive(Clone, Copy, Debug, PartialEq, Eq)]
pub enum ServiceError {
    /// The login needs a second factor.
    TwoFactorRequired,
    /// The HTTP status was outside the successful range.
    Http(u16),
    /// The body was no JSON document.
    Malformed,
    /// The body's `status` was not the success value; it is given where
    /// the body held an integer at all.
    Refused(Option<i64>),
}

/// Whether an HTTP status is in the successful range.
pub open spec fn success(code: u16) -> bool {
    200 <= code < 300
}

/// Whether an HTTP status is in the successful range.
pub fn is_success(code: u16) -> (yes: bool)
    ensures
        yes == success(code),
{
    200 <= code && code < 300
}

/// The verdict on an HTTP status.
pub open spec fn http_verdict(code: u16) -> Result<(), ServiceError> {
    if success(code) {
        Ok(())
    } else {
        Err(ServiceError::Http(code))
    }
}

/// Judges the HTTP status of an answer.
pub fn check_http(code: u16) -> (verdict: Result<(), ServiceError>)
    ensures
        verdict == http_verdict(code),
{
    if is_success(code) {
        Ok(())
    } else {
        Err(ServiceError::Http(code))
    }
}

/// The verdict on the `status` of a body: only the success value passes,
/// whatever the HTTP status was.
pub open spec fn status_verdict(status: Option<i64>) -> Result<(), ServiceError> {
    if status == Some(STATUS_OK) {
        Ok(())
    } else {
        Err(ServiceError::Refused(status))
    }
}

/// Judges the `status` that a body held.
pub fn judge_status(status: Option<i64>) -> (verdict: Result<(), ServiceError>)
    ensures
        verdict == status_verdict(status),
{
    match status {
        Some(value) => {
            if value == STATUS_OK {
                Ok(())
            } else {
                Err(ServiceError::Refused(status))
            }
        },
        None => Err(ServiceError::Refused(status)),
    }
}

/// The verdict on a body, from what its `status` member was read as.
pub open spec fn body_verdict(member: Option<Option<i64>>) -> Result<(), ServiceError> {
    match member {
        Some(status) => status_verdict(status),
        None => Err(ServiceError::Malformed),
    }
}

/// Judges a body from what its `status` member was read as: `None` for a
/// body that is no JSON document, else the integer found there, if any.
pub fn judge_member(member: Option<Option<i64>>) -> (verdict: Result<(), ServiceError>)
    ensures
        verdict == body_verdict(member),
{
    match member {
        Some(status) => judge_status(status),
        None => Err(ServiceError::Malformed),
    }
}

/// Judges the body of an answer that carries nothing but its `status`.
pub fn confirm(body: &str) -> (verdict: Result<(), ServiceError>)
    ensures
        verdict == body_verdict(json_i64_member(body@, "status"@)),
{
    let member = match read_i64_member(body, "status") {
        Ok(status) => Some(status),
        Err(_) => None,
    };
    judge_member(member)
}

/// A form field.
pub fn field(name: &str, value: &str) -> (pair: (String, String))
    ensures
        pair.0@ == name@,
        pair.1@ == value@,
{
    (name.to_owned(), value.to_owned())
}

} // verus!
