//! The records that the client keeps and exchanges with the service.

use vstd::prelude::*;

verus! {

/// The characters of an optional string.
pub open spec fn text(value: Option<String>) -> Option<Seq<char>> {
    match value {
        Some(s) => Some(s@),
        None => None,
    }
}

/// The persisted record: account, device credentials, the autostart wish
/// and the identifier of the last message that the service was told about.
#[derive(Clone, Debug, PartialEq, Eq)]
pub struct Config {
    pub user_key: Option<String>,
    pub secret: Option<String>,
    pub device_id: Option<String>,
    pub start_on_boot: bool,
    pub last_message_id: Option<String>,
}

/// What a `Config` holds, as plain values.
pub ghost struct ConfigView {
    pub user_key: Option<Seq<char>>,
    pub secret: Option<Seq<char>>,
    pub device_id: Option<Seq<char>>,
    pub start_on_boot: bool,
    pub last_message_id: Option<Seq<char>>,
}

impl View for Config {
    type V = ConfigView;

    open spec fn view(&self) -> ConfigView {
        ConfigView {
            user_key: text(self.user_key),
            secret: text(self.secret),
            device_id: text(self.device_id),
            start_on_boot: self.start_on_boot,
            last_message_id: text(self.last_message_id),
        }
    }
}

/// Whether both halves of the device's credentials are there.
pub open spec fn has_credentials(config: ConfigView) -> bool {
    config.secret is Some && config.device_id is Some
}

impl Default for Config {
    /// The record of a client that never logged in.
    fn default() -> (config: Config)
        ensures
            config@ == (ConfigView {
                user_key: None,
                secret: None,
                device_id: None,
                start_on_boot: false,
                last_message_id: None,
            }),
    {
        Config {
            user_key: None,
            secret: None,
            device_id: None,
            start_on_boot: false,
            last_message_id: None,
        }
    }
}

/// What the rest of the application shares with its tasks.
#[derive(Debug)]
pub struct AppState {
    pub config: Config,
}

/// The service's answer to a login.
#[derive(Clone, Debug, PartialEq, Eq)]
pub struct LoginResponse {
    pub status: i32,
    pub id: String,
    pub secret: String,
    pub request: String,
}

/// The service's answer to the registration of a device.
#[derive(Clone, Debug, PartialEq, Eq)]
pub struct DeviceRegisterResponse {
    pub status: i32,
    pub id: String,
    pub request: String,
}

/// One message as the service delivers it.
#[derive(Clone, Debug, PartialEq, Eq)]
pub struct Message {
    pub id: i64,
    pub id_str: String,
    pub message: String,
    pub app: String,
    pub aid: i64,
    pub aid_str: String,
    pub icon: String,
    pub date: i64,
    pub priority: i32,
    pub acked: i32,
    pub umid: i64,
    pub umid_str: String,
    pub title: Option<String>,
    pub url: Option<String>,
    pub url_title: Option<String>,
    pub sound: Option<String>,
    pub html: Option<i32>,
    pub receipt: Option<String>,
}

/// What a `Message` holds, as plain values.
pub ghost struct MessageView {
    pub id: i64,
    pub id_str: Seq<char>,
    pub message: Seq<char>,
    pub app: Seq<char>,
    pub aid: i64,
    pub aid_str: Seq<char>,
    pub icon: Seq<char>,
    pub date: i64,
    pub priority: i32,
    pub acked: i32,
    pub umid: i64,
    pub umid_str: Seq<char>,
    pub title: Option<Seq<char>>,
    pub url: Option<Seq<char>>,
    pub url_title: Option<Seq<char>>,
    pub sound: Option<Seq<char>>,
    pub html: Option<i32>,
    pub receipt: Option<Seq<char>>,
}

impl View for Message {
    type V = MessageView;

    open spec fn view(&self) -> MessageView {
        MessageView {
            id: self.id,
            id_str: self.id_str@,
            message: self.message@,
            app: self.app@,
            aid: self.aid,
            aid_str: self.aid_str@,
            icon: self.icon@,
            date: self.date,
            priority: self.priority,
            acked: self.acked,
            umid: self.umid,
            umid_str: self.umid_str@,
            title: text(self.title),
            url: text(self.url),
            url_title: text(self.url_title),
            sound: text(self.sound),
            html: self.html,
            receipt: text(self.receipt),
        }
    }
}

/// The views of a batch of messages, in the order of the batch.
pub open spec fn views(batch: Seq<Message>) -> Seq<MessageView> {
    Seq::new(batch.len(), |i: int| batch[i]@)
}

/// The service's answer to a download.
#[derive(Clone, Debug, PartialEq, Eq)]
pub struct MessagesResponse {
    pub status: i32,
    pub request: String,
    pub messages: Vec<Message>,
}

/// What the tray and the message feed tell the application.
#[derive(Clone, Copy, Debug, PartialEq, Eq, Structural)]
pub enum Event {
    Quit,
    ToggleStartOnBoot,
    ShowAbout,
    ShowLogs,
    Logout,
}

} // verus!
