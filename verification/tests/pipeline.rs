use miniover::pipeline::{
    credentials, highest, plan_batch, receipt_to_acknowledge, settle, Credentials, Effect,
    PipelineError,
};
use miniover::sync::delete_request;
use miniover::types::{Config, Message};

fn message(id: i64, priority: i32, acked: i32, receipt: Option<&str>) -> Message {
    Message {
        id,
        id_str: id.to_string(),
        message: format!("body {}", id),
        app: "App".to_string(),
        aid: 1,
        aid_str: "1".to_string(),
        icon: "icon".to_string(),
        date: 1_700_000_000,
        priority,
        acked,
        umid: id,
        umid_str: id.to_string(),
        title: None,
        url: None,
        url_title: None,
        sound: None,
        html: None,
        receipt: receipt.map(|r| r.to_string()),
    }
}

fn logged_in() -> Config {
    Config {
        user_key: Some("user".to_string()),
        secret: Some("sec".to_string()),
        device_id: Some("dev".to_string()),
        start_on_boot: false,
        last_message_id: Some("3".to_string()),
    }
}

#[test]
fn credentials_of_a_full_record() {
    assert_eq!(
        credentials(&logged_in()),
        Ok(Credentials { secret: "sec".to_string(), device_id: "dev".to_string() })
    );
}

#[test]
fn missing_secret_fails_fast() {
    let mut config = logged_in();
    config.secret = None;
    assert_eq!(credentials(&config), Err(PipelineError::MissingCredentials));
}

#[test]
fn missing_device_fails_fast() {
    let mut config = logged_in();
    config.device_id = None;
    assert_eq!(credentials(&config), Err(PipelineError::MissingCredentials));
    assert_eq!(credentials(&Config::default()), Err(PipelineError::MissingCredentials));
}

#[test]
fn empty_batch_asks_for_nothing() {
    assert_eq!(plan_batch(&vec![]), None);
    assert_eq!(highest(&vec![]), None);
}

#[test]
fn emergency_is_acknowledged_once() {
    let batch = vec![message(7, 2, 0, Some("r1"))];
    let plan = plan_batch(&batch).unwrap();
    let acknowledged: Vec<&Effect> = plan
        .effects
        .iter()
        .filter(|e| matches!(e, Effect::Acknowledge { .. }))
        .collect();
    assert_eq!(acknowledged, vec![&Effect::Acknowledge { index: 0, receipt: "r1".to_string() }]);
    assert_eq!(receipt_to_acknowledge(&batch[0]), Some("r1".to_string()));
}

#[test]
fn normal_priority_is_not_acknowledged() {
    let batch = vec![message(7, 0, 0, Some("r1"))];
    let plan = plan_batch(&batch).unwrap();
    assert_eq!(plan.effects, vec![Effect::Notify { index: 0 }]);
    assert_eq!(receipt_to_acknowledge(&batch[0]), None);
}

#[test]
fn acknowledged_or_receiptless_emergency_is_left_alone() {
    assert_eq!(receipt_to_acknowledge(&message(1, 2, 1, Some("r"))), None);
    assert_eq!(receipt_to_acknowledge(&message(1, 2, 0, None)), None);
    assert_eq!(receipt_to_acknowledge(&message(1, 1, 0, Some("r"))), None);
    assert_eq!(receipt_to_acknowledge(&message(1, 3, 0, Some("r"))), Some("r".to_string()));
    assert_eq!(receipt_to_acknowledge(&message(1, 2, 0, Some(""))), None);
    let plan = plan_batch(&vec![message(1, 2, 0, Some(""))]).unwrap();
    assert_eq!(plan.effects, vec![Effect::Notify { index: 0 }]);
}

#[test]
fn mark_is_the_largest_identifier() {
    let batch = vec![
        message(4, 0, 0, None),
        message(12, 0, 0, None),
        message(9, 0, 0, None),
        message(-3, 0, 0, None),
    ];
    let plan = plan_batch(&batch).unwrap();
    assert_eq!(plan.highest, 1);
    assert_eq!(plan.mark, "12");
    assert_eq!(highest(&batch), Some(1));
}

#[test]
fn last_of_equal_identifiers_gives_the_mark() {
    let mut first = message(9, 0, 0, None);
    first.id_str = "nine-a".to_string();
    let mut second = message(9, 0, 0, None);
    second.id_str = "nine-b".to_string();
    let batch = vec![first, message(2, 0, 0, None), second, message(8, 0, 0, None)];
    let plan = plan_batch(&batch).unwrap();
    assert_eq!(plan.highest, 2);
    assert_eq!(plan.mark, "nine-b");
}

#[test]
fn every_message_is_shown_in_order() {
    let batch = vec![
        message(1, 2, 0, Some("a")),
        message(2, -2, 0, None),
        message(3, 2, 0, Some("c")),
    ];
    let plan = plan_batch(&batch).unwrap();
    assert_eq!(
        plan.effects,
        vec![
            Effect::Notify { index: 0 },
            Effect::Acknowledge { index: 0, receipt: "a".to_string() },
            Effect::Notify { index: 1 },
            Effect::Notify { index: 2 },
            Effect::Acknowledge { index: 2, receipt: "c".to_string() },
        ]
    );
}

#[test]
fn failed_delete_leaves_the_record() {
    let mut config = logged_in();
    let store = settle(&mut config, "9", false);
    assert!(!store);
    assert_eq!(config, logged_in());
    assert_eq!(config.last_message_id, Some("3".to_string()));
}

#[test]
fn successful_delete_moves_the_mark() {
    let mut config = logged_in();
    let store = settle(&mut config, "9", true);
    assert!(store);
    assert_eq!(config.last_message_id, Some("9".to_string()));
    assert_eq!(config.secret, Some("sec".to_string()));
    assert_eq!(config.device_id, Some("dev".to_string()));
    assert_eq!(config.user_key, Some("user".to_string()));
    assert!(!config.start_on_boot);
}

#[test]
fn end_to_end_pass() {
    let mut config = logged_in();
    let creds = credentials(&config).unwrap();
    let batch = vec![message(5, 0, 0, None), message(9, 2, 0, Some("rcpt9"))];
    let plan = plan_batch(&batch).unwrap();
    assert_eq!(
        plan.effects,
        vec![
            Effect::Notify { index: 0 },
            Effect::Notify { index: 1 },
            Effect::Acknowledge { index: 1, receipt: "rcpt9".to_string() },
        ]
    );
    assert_eq!(plan.mark, "9");
    let request = delete_request(&creds.secret, &creds.device_id, &plan.mark);
    assert_eq!(
        request.form,
        vec![
            ("secret".to_string(), "sec".to_string()),
            ("message".to_string(), "9".to_string()),
        ]
    );
    assert!(settle(&mut config, &plan.mark, true));
    assert_eq!(config.last_message_id, Some("9".to_string()));
}
