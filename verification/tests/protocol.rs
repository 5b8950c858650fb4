use miniover::protocol::{decode, decode_payload, login_line, Command};

#[test]
fn decode_keep_alive() {
    assert_eq!(decode(b'#'), Command::KeepAlive);
}

#[test]
fn decode_new_data() {
    assert_eq!(decode(b'!'), Command::NewData);
}

#[test]
fn decode_reload() {
    assert_eq!(decode(b'R'), Command::ReloadRequested);
}

#[test]
fn decode_permanent_error() {
    assert_eq!(decode(b'E'), Command::PermanentError);
}

#[test]
fn decode_superseded() {
    assert_eq!(decode(b'A'), Command::SessionSupersededElsewhere);
}

#[test]
fn decode_is_total_over_all_bytes() {
    for byte in 0u8..=255 {
        let expected = match byte {
            b'#' => Command::KeepAlive,
            b'!' => Command::NewData,
            b'R' => Command::ReloadRequested,
            b'E' => Command::PermanentError,
            b'A' => Command::SessionSupersededElsewhere,
            other => Command::Unknown(other),
        };
        assert_eq!(decode(byte), expected);
        assert_eq!(decode(byte), decode(byte));
    }
}

#[test]
fn decode_is_case_sensitive() {
    assert_eq!(decode(b'e'), Command::Unknown(b'e'));
    assert_eq!(decode(b'r'), Command::Unknown(b'r'));
    assert_eq!(decode(b'a'), Command::Unknown(b'a'));
    assert_eq!(decode(0), Command::Unknown(0));
    assert_eq!(decode(0xff), Command::Unknown(0xff));
}

#[test]
fn payload_of_one_byte_is_a_command() {
    assert_eq!(decode_payload(b"!"), Some(Command::NewData));
    assert_eq!(decode_payload(b"?"), Some(Command::Unknown(b'?')));
}

#[test]
fn payload_of_other_length_is_none() {
    assert_eq!(decode_payload(b""), None);
    assert_eq!(decode_payload(b"!!"), None);
    assert_eq!(decode_payload(b"hello"), None);
}

#[test]
fn login_line_has_the_service_format() {
    assert_eq!(login_line("dev1", "s3cr3t"), "login:dev1:s3cr3t\n");
    assert_eq!(login_line("", ""), "login::\n");
}
