use miniover::notice::{Notice, Urgency};
use miniover::pass::{Pass, PassAction, PassEvent, Stage};
use miniover::pipeline::PipelineError;
use miniover::service::{Method, Request};
use miniover::types::{Config, Message};

fn incoming(id: i64, priority: i32, acked: i32, receipt: Option<&str>) -> Message {
    Message {
        id,
        id_str: id.to_string(),
        message: format!("text {}", id),
        app: "App".to_string(),
        aid: 1,
        aid_str: "1".to_string(),
        icon: "icon".to_string(),
        date: 1_700_000_000,
        priority,
        acked,
        umid: id,
        umid_str: id.to_string(),
        title: None,
        url: None,
        url_title: None,
        sound: None,
        html: None,
        receipt: receipt.map(|r| r.to_string()),
    }
}

fn account() -> Config {
    Config {
        user_key: Some("user".to_string()),
        secret: Some("sec".to_string()),
        device_id: Some("dev".to_string()),
        start_on_boot: false,
        last_message_id: Some("3".to_string()),
    }
}

fn shown(id: i64, urgency: Urgency) -> PassAction {
    PassAction::Notify(Notice {
        title: "App".to_string(),
        body: format!("text {}", id),
        urgency,
        link: None,
    })
}

fn acknowledged(receipt: &str) -> PassAction {
    PassAction::Acknowledge(Request {
        method: Method::Post,
        url: format!("https://api.pushover.net/1/receipts/{}/acknowledge.json", receipt),
        form: vec![("secret".to_string(), "sec".to_string())],
    })
}

fn deleted_up_to(mark: &str) -> PassAction {
    PassAction::Delete(Request {
        method: Method::Post,
        url: "https://api.pushover.net/1/devices/dev/update_highest_message.json".to_string(),
        form: vec![
            ("secret".to_string(), "sec".to_string()),
            ("message".to_string(), mark.to_string()),
        ],
    })
}

fn downloading(config: &mut Config) -> Pass {
    let (pass, action) = Pass::new().step(PassEvent::Begun, config);
    assert_eq!(
        action,
        PassAction::Download(Request {
            method: Method::Get,
            url: "https://api.pushover.net/1/messages.json?secret=sec&device_id=dev".to_string(),
            form: vec![],
        })
    );
    assert_eq!(pass.stage(), Stage::Downloading);
    pass
}

#[test]
fn pass_without_secret_sends_nothing() {
    let mut config = Config { secret: None, ..account() };
    let pass = Pass::new();
    assert_eq!(pass.stage(), Stage::Fresh);
    let (pass, action) = pass.step(PassEvent::Begun, &mut config);
    assert_eq!(action, PassAction::Finish(Err(PipelineError::MissingCredentials)));
    assert!(pass.finished());
    assert_eq!(config, Config { secret: None, ..account() });
    let (pass, action) = pass.step(PassEvent::Begun, &mut config);
    assert_eq!(action, PassAction::Finish(Err(PipelineError::OutOfSequence)));
    assert_eq!(pass.stage(), Stage::Finished);
}

#[test]
fn pass_without_device_sends_nothing() {
    let mut config = Config { device_id: None, ..account() };
    let (_, action) = Pass::new().step(PassEvent::Begun, &mut config);
    assert_eq!(action, PassAction::Finish(Err(PipelineError::MissingCredentials)));
}

#[test]
fn empty_download_ends_the_pass() {
    let mut config = account();
    let pass = downloading(&mut config);
    let (pass, action) = pass.step(PassEvent::Downloaded(vec![]), &mut config);
    assert_eq!(action, PassAction::Finish(Ok(())));
    assert!(pass.finished());
    assert_eq!(config, account());
}

#[test]
fn failed_download_is_an_error() {
    let mut config = account();
    let pass = downloading(&mut config);
    let (pass, action) = pass.step(PassEvent::DownloadFailed, &mut config);
    assert_eq!(action, PassAction::Finish(Err(PipelineError::Download)));
    assert!(pass.finished());
    assert_eq!(config, account());
}

#[test]
fn whole_pass_notifies_acknowledges_deletes_and_stores() {
    let mut config = account();
    let pass = downloading(&mut config);
    let batch = vec![incoming(5, 0, 0, None), incoming(9, 2, 0, Some("rcpt9"))];
    let (pass, action) = pass.step(PassEvent::Downloaded(batch), &mut config);
    assert_eq!(action, shown(5, Urgency::Low));
    assert_eq!(pass.stage(), Stage::Working);
    let (pass, action) = pass.step(PassEvent::EffectDone, &mut config);
    assert_eq!(action, shown(9, Urgency::Critical));
    let (pass, action) = pass.step(PassEvent::EffectDone, &mut config);
    assert_eq!(action, acknowledged("rcpt9"));
    let (pass, action) = pass.step(PassEvent::EffectDone, &mut config);
    assert_eq!(action, deleted_up_to("9"));
    assert_eq!(pass.stage(), Stage::Deleting);
    assert_eq!(config, account());
    let (pass, action) = pass.step(PassEvent::Deleted, &mut config);
    assert_eq!(action, PassAction::Store);
    assert_eq!(pass.stage(), Stage::Storing);
    assert_eq!(config.last_message_id, Some("9".to_string()));
    let (pass, action) = pass.step(PassEvent::Stored, &mut config);
    assert_eq!(action, PassAction::Finish(Ok(())));
    assert!(pass.finished());
    assert_eq!(config, Config { last_message_id: Some("9".to_string()), ..account() });
}

#[test]
fn failed_delete_keeps_the_last_message_id() {
    let mut config = account();
    let pass = downloading(&mut config);
    let (pass, _) = pass.step(PassEvent::Downloaded(vec![incoming(8, 0, 0, None)]), &mut config);
    let (pass, action) = pass.step(PassEvent::EffectDone, &mut config);
    assert_eq!(action, deleted_up_to("8"));
    let (pass, action) = pass.step(PassEvent::DeleteFailed, &mut config);
    assert_eq!(action, PassAction::Finish(Ok(())));
    assert!(pass.finished());
    assert_eq!(config, account());
}

#[test]
fn failed_store_is_an_error() {
    let mut config = account();
    let pass = downloading(&mut config);
    let (pass, _) = pass.step(PassEvent::Downloaded(vec![incoming(8, 0, 0, None)]), &mut config);
    let (pass, _) = pass.step(PassEvent::EffectDone, &mut config);
    let (pass, _) = pass.step(PassEvent::Deleted, &mut config);
    let (pass, action) = pass.step(PassEvent::StoreFailed, &mut config);
    assert_eq!(action, PassAction::Finish(Err(PipelineError::Store)));
    assert!(pass.finished());
    assert_eq!(config.last_message_id, Some("8".to_string()));
}

#[test]
fn pass_deletes_up_to_the_largest_identifier() {
    let mut config = account();
    let pass = downloading(&mut config);
    let batch = vec![incoming(30, 0, 0, None), incoming(10, 0, 0, None), incoming(20, 0, 0, None)];
    let (mut pass, mut action) = pass.step(PassEvent::Downloaded(batch), &mut config);
    let mut notified = 0;
    while let PassAction::Notify(_) = action {
        notified += 1;
        let turn = pass.step(PassEvent::EffectDone, &mut config);
        pass = turn.0;
        action = turn.1;
    }
    assert_eq!(notified, 3);
    assert_eq!(action, deleted_up_to("30"));
    assert_eq!(pass.stage(), Stage::Deleting);
}

#[test]
fn event_out_of_sequence_ends_the_pass() {
    let mut config = account();
    let pass = downloading(&mut config);
    let (pass, action) = pass.step(PassEvent::Deleted, &mut config);
    assert_eq!(action, PassAction::Finish(Err(PipelineError::OutOfSequence)));
    assert!(pass.finished());
    assert_eq!(config, account());
    let (_, action) = Pass::new().step(PassEvent::Downloaded(vec![]), &mut config);
    assert_eq!(action, PassAction::Finish(Err(PipelineError::OutOfSequence)));
}
