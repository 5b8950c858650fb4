use miniover::service::{
    check_http, confirm, field, is_success, judge_member, judge_status, ServiceError, API_URL,
    REALTIME_URL, STATUS_OK,
};
use miniover::sync::{
    accept_messages, acknowledge_request, delete_request, download_request, judge_confirmation,
    judge_download,
};
use miniover::service::Method;
use miniover::types::MessagesResponse;

#[test]
fn endpoints() {
    assert_eq!(API_URL, "https://api.pushover.net/1");
    assert_eq!(REALTIME_URL, "wss://client.pushover.net/push");
    assert_eq!(STATUS_OK, 1);
}

#[test]
fn success_is_the_two_hundreds() {
    assert!(!is_success(199));
    assert!(is_success(200));
    assert!(is_success(204));
    assert!(is_success(299));
    assert!(!is_success(300));
    assert!(!is_success(404));
    assert!(!is_success(0));
    assert!(!is_success(u16::MAX));
}

#[test]
fn http_failure_carries_the_status() {
    assert_eq!(check_http(200), Ok(()));
    assert_eq!(check_http(500), Err(ServiceError::Http(500)));
    assert_eq!(check_http(412), Err(ServiceError::Http(412)));
}

#[test]
fn only_status_one_passes() {
    assert_eq!(judge_status(Some(1)), Ok(()));
    assert_eq!(judge_status(Some(0)), Err(ServiceError::Refused(Some(0))));
    assert_eq!(judge_status(Some(2)), Err(ServiceError::Refused(Some(2))));
    assert_eq!(judge_status(Some(-1)), Err(ServiceError::Refused(Some(-1))));
    assert_eq!(judge_status(None), Err(ServiceError::Refused(None)));
}

#[test]
fn body_with_status_one_confirms() {
    assert_eq!(confirm("{\"status\":1}"), Ok(()));
    assert_eq!(confirm("{\"status\": 1, \"request\": \"abc\"}"), Ok(()));
}

#[test]
fn body_with_other_status_is_refused() {
    assert_eq!(confirm("{\"status\":0}"), Err(ServiceError::Refused(Some(0))));
    assert_eq!(confirm("{\"status\":7,\"errors\":[\"x\"]}"), Err(ServiceError::Refused(Some(7))));
}

#[test]
fn body_without_integer_status_is_refused() {
    assert_eq!(confirm("{}"), Err(ServiceError::Refused(None)));
    assert_eq!(confirm("{\"status\":\"1\"}"), Err(ServiceError::Refused(None)));
    assert_eq!(confirm("{\"status\":1.0}"), Err(ServiceError::Refused(None)));
    assert_eq!(confirm("[1]"), Err(ServiceError::Refused(None)));
    assert_eq!(confirm("1"), Err(ServiceError::Refused(None)));
    assert_eq!(confirm("null"), Err(ServiceError::Refused(None)));
}

#[test]
fn body_that_is_no_json_is_malformed() {
    assert_eq!(confirm(""), Err(ServiceError::Malformed));
    assert_eq!(confirm("status"), Err(ServiceError::Malformed));
    assert_eq!(confirm("{\"status\":1"), Err(ServiceError::Malformed));
}

#[test]
fn field_copies_name_and_value() {
    assert_eq!(field("secret", "s"), ("secret".to_string(), "s".to_string()));
}

#[test]
fn download_request_is_a_get_with_query() {
    let request = download_request("sec", "dev");
    assert_eq!(request.method, Method::Get);
    assert_eq!(request.url, "https://api.pushover.net/1/messages.json?secret=sec&device_id=dev");
    assert!(request.form.is_empty());
}

#[test]
fn delete_request_posts_the_mark() {
    let request = delete_request("sec", "dev", "9");
    assert_eq!(request.method, Method::Post);
    assert_eq!(
        request.url,
        "https://api.pushover.net/1/devices/dev/update_highest_message.json"
    );
    assert_eq!(
        request.form,
        vec![
            ("secret".to_string(), "sec".to_string()),
            ("message".to_string(), "9".to_string()),
        ]
    );
}

#[test]
fn acknowledge_request_posts_the_secret() {
    let request = acknowledge_request("sec", "r1");
    assert_eq!(request.method, Method::Post);
    assert_eq!(request.url, "https://api.pushover.net/1/receipts/r1/acknowledge.json");
    assert_eq!(request.form, vec![("secret".to_string(), "sec".to_string())]);
}

#[test]
fn empty_download_is_no_error() {
    let response = MessagesResponse { status: 1, request: "q".to_string(), messages: vec![] };
    assert_eq!(accept_messages(response), Ok(vec![]));
}

#[test]
fn download_with_other_status_fails() {
    let response = MessagesResponse { status: 0, request: "q".to_string(), messages: vec![] };
    assert_eq!(accept_messages(response), Err(ServiceError::Refused(Some(0))));
    let response = MessagesResponse { status: -4, request: "q".to_string(), messages: vec![] };
    assert_eq!(accept_messages(response), Err(ServiceError::Refused(Some(-4))));
}

#[test]
fn download_is_judged_by_http_status_first() {
    let good = MessagesResponse { status: 1, request: "q".to_string(), messages: vec![] };
    assert_eq!(judge_download(500, Some(good.clone())), Err(ServiceError::Http(500)));
    assert_eq!(judge_download(404, None), Err(ServiceError::Http(404)));
    assert_eq!(judge_download(200, None), Err(ServiceError::Malformed));
    assert_eq!(judge_download(200, Some(good.clone())), Ok(vec![]));
    let bad = MessagesResponse { status: 0, ..good };
    assert_eq!(judge_download(200, Some(bad)), Err(ServiceError::Refused(Some(0))));
}

#[test]
fn confirmation_is_judged_by_http_status_first() {
    assert_eq!(judge_confirmation(200, "{\"status\":1}"), Ok(()));
    assert_eq!(judge_confirmation(500, "{\"status\":1}"), Err(ServiceError::Http(500)));
    assert_eq!(judge_confirmation(200, "{\"status\":0}"), Err(ServiceError::Refused(Some(0))));
    assert_eq!(judge_confirmation(201, "oops"), Err(ServiceError::Malformed));
    assert_eq!(judge_confirmation(302, "oops"), Err(ServiceError::Http(302)));
}

#[test]
fn member_that_was_not_read_is_malformed() {
    assert_eq!(judge_member(None), Err(ServiceError::Malformed));
    assert_eq!(judge_member(Some(None)), Err(ServiceError::Refused(None)));
    assert_eq!(judge_member(Some(Some(1))), Ok(()));
    assert_eq!(judge_member(Some(Some(5))), Err(ServiceError::Refused(Some(5))));
}
