//! Logging in and registering the device: the two requests and the checks
//! of their answers.

use vstd::prelude::*;
use crate::service::{
    API_URL, Method, PRECONDITION_FAILED, Request, RequestView, ServiceError, STATUS_OK, field,
    is_success, success,
};
use crate::types::{DeviceRegisterResponse, LoginResponse};

verus! {

/// The name under which the client registers its device.
pub const DEVICE_NAME: &'static str = "miniover_client";

/// The login request: the second factor is a field of its own where there
/// is one.
pub open spec fn login_spec(
    email: Seq<char>,
    password: Seq<char>,
    twofa: Option<Seq<char>>,
) -> RequestView {
    RequestView {
        method: Method::Post,
        url: API_URL@ + "/users/login.json"@,
        form: match twofa {
            Some(code) => seq![("email"@, email), ("password"@, password), ("twofa"@, code)],
            None => seq![("email"@, email), ("password"@, password)],
        },
    }
}

/// The request that registers this client as a device of the account.
pub open spec fn register_spec(secret: Seq<char>) -> RequestView {
    RequestView {
        method: Method::Post,
        url: API_URL@ + "/devices.json"@,
        form: seq![("secret"@, secret), ("name"@, DEVICE_NAME@), ("os"@, "O"@)],
    }
}

/// Builds the login request.
pub fn login_request(email: &str, password: &str, twofa: Option<&str>) -> (request: Request)
    ensures
        request@ == login_spec(
            email@,
            password@,
            match twofa {
                Some(code) => Some(code@),
                None => None,
            },
        ),
{
    let mut url = String::from_str(API_URL);
    url.append("/users/login.json");
    let mut form: Vec<(String, String)> = Vec::new();
    form.push(field("email", email));
    form.push(field("password", password));
    match twofa {
        Some(code) => {
            form.push(field("twofa", code));
            let request = Request { method: Method::Post, url, form };
            assert(request@.form =~= seq![
                ("email"@, email@),
                ("password"@, password@),
                ("twofa"@, code@),
            ]);
            request
        },
        None => {
            let request = Request { method: Method::Post, url, form };
            assert(request@.form =~= seq![("email"@, email@), ("password"@, password@)]);
            request
        },
    }
}

/// Builds the request that registers the device.
pub fn register_request(secret: &str) -> (request: Request)
    ensures
        request@ == register_spec(secret@),
{
    let mut url = String::from_str(API_URL);
    url.append("/devices.json");
    let mut form: Vec<(String, String)> = Vec::new();
    form.push(field("secret", secret));
    form.push(field("name", DEVICE_NAME));
    form.push(field("os", "O"));
    let request = Request { method: Method::Post, url, form };
    assert(request@.form =~= seq![("secret"@, secret@), ("name"@, DEVICE_NAME@), ("os"@, "O"@)]);
    request
}

/// The verdict on the HTTP status of a login: the demand for a second
/// factor is told apart from every other failure.
pub open spec fn login_http_verdict(code: u16) -> Result<(), ServiceError> {
    if code == PRECONDITION_FAILED {
        Err(ServiceError::TwoFactorRequired)
    } else if success(code) {
        Ok(())
    } else {
        Err(ServiceError::Http(code))
    }
}

/// Judges the HTTP status of the answer to a login.
pub fn check_login_http(code: u16) -> (verdict: Result<(), ServiceError>)
    ensures
        verdict == login_http_verdict(code),
{
    if code == PRECONDITION_FAILED {
        Err(ServiceError::TwoFactorRequired)
    } else if is_success(code) {
        Ok(())
    } else {
        Err(ServiceError::Http(code))
    }
}

/// Judges a decoded answer to a login: it passes as it came where its
/// `status` is the success value.
pub fn accept_login(response: LoginResponse) -> (verdict: Result<LoginResponse, ServiceError>)
    ensures
        response.status == STATUS_OK ==> verdict == Ok::<LoginResponse, ServiceError>(response),
        response.status != STATUS_OK ==> verdict == Err::<LoginResponse, ServiceError>(
            ServiceError::Refused(Some(response.status as i64)),
        ),
{
    if response.status == 1 {
        Ok(response)
    } else {
        let status: i64 = response.status as i64;
        Err(ServiceError::Refused(Some(status)))
    }
}

/// Judges a decoded answer to the registration of the device.
pub fn accept_device(response: DeviceRegisterResponse) -> (verdict: Result<
    DeviceRegisterResponse,
    ServiceError,
>)
    ensures
        response.status == STATUS_OK ==> verdict == Ok::<DeviceRegisterResponse, ServiceError>(
            response,
        ),
        response.status != STATUS_OK ==> verdict == Err::<DeviceRegisterResponse, ServiceError>(
            ServiceError::Refused(Some(response.status as i64)),
        ),
{
    if response.status == 1 {
        Ok(response)
    } else {
        let status: i64 = response.status as i64;
        Err(ServiceError::Refused(Some(status)))
    }
}

/// Judges the answer to a login from its HTTP status and its decoded body,
/// `None` standing for a body that could not be decoded.
pub fn judge_login(code: u16, response: Option<LoginResponse>) -> (verdict: Result<
    LoginResponse,
    ServiceError,
>)
    ensures
        login_http_verdict(code) matches Err(e) ==> verdict == Err::<LoginResponse, ServiceError>(
            e,
        ),
        login_http_verdict(code) is Ok && response is None ==> verdict == Err::<
            LoginResponse,
            ServiceError,
        >(ServiceError::Malformed),
        login_http_verdict(code) is Ok && response is Some && response->0.status == STATUS_OK
            ==> verdict == Ok::<LoginResponse, ServiceError>(response->0),
        login_http_verdict(code) is Ok && response is Some && response->0.status != STATUS_OK
            ==> verdict == Err::<LoginResponse, ServiceError>(
            ServiceError::Refused(Some(response->0.status as i64)),
        ),
{
    match check_login_http(code) {
        Err(e) => Err(e),
        Ok(_) => match response {
            Some(response) => accept_login(response),
            None => Err(ServiceError::Malformed),
        },
    }
}

/// Judges the answer to the registration of the device in the same way.
pub fn judge_device(code: u16, response: Option<DeviceRegisterResponse>) -> (verdict: Result<
    DeviceRegisterResponse,
    ServiceError,
>)
    ensures
        !success(code) ==> verdict == Err::<DeviceRegisterResponse, ServiceError>(
            ServiceError::Http(code),
        ),
        success(code) && response is None ==> verdict == Err::<
            DeviceRegisterResponse,
            ServiceError,
        >(ServiceError::Malformed),
        success(code) && response is Some && response->0.status == STATUS_OK ==> verdict == Ok::<
            DeviceRegisterResponse,
            ServiceError,
        >(response->0),
        success(code) && response is Some && response->0.status != STATUS_OK ==> verdict == Err::<
            DeviceRegisterResponse,
            ServiceError,
        >(ServiceError::Refused(Some(response->0.status as i64))),
{
    if !is_success(code) {
        return Err(ServiceError::Http(code));
    }
    match response {
        Some(response) => accept_device(response),
        None => Err(ServiceError::Malformed),
    }
}

} // verus!
