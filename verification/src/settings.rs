//! The rules by which the record changes outside the message feed: login,
//! logout, and the wish to start with the session.

use vstd::prelude::*;
use crate::strings::{trim_copy, trimmed};
use crate::types::{Config, ConfigView, DeviceRegisterResponse, LoginResponse, text};

verus! {

/// Whether the record lacks anything that a login provides.
pub open spec fn login_missing(config: ConfigView) -> bool {
    config.user_key is None || config.secret is None || config.device_id is None
}

/// Whether the user has to log in before the client can run.
pub fn login_needed(config: &Config) -> (needed: bool)
    ensures
        needed == login_missing(config@),
{
    config.user_key.is_none() || config.secret.is_none() || config.device_id.is_none()
}

/// What the user typed counts as credentials where neither part is empty.
pub fn entered_credentials(email: String, password: String) -> (entry: Option<(String, String)>)
    ensures
        entry is Some <==> email@.len() > 0 && password@.len() > 0,
        entry matches Some(pair) ==> pair.0 == email && pair.1 == password,
{
    if email.as_str().is_empty() || password.as_str().is_empty() {
        None
    } else {
        Some((email, password))
    }
}

/// A value that the user gave: none where it is empty.
pub open spec fn given(value: Seq<char>) -> Option<Seq<char>> {
    if value.len() == 0 {
        None
    } else {
        Some(value)
    }
}

/// Takes a value that the user gave. An empty value means that the user
/// gave up.
pub fn given_value(value: String) -> (kept: Option<String>)
    ensures
        text(kept) == given(value@),
{
    if value.as_str().is_empty() {
        None
    } else {
        Some(value)
    }
}

/// Reads a value from a line typed at the terminal: the line without the
/// white space at its ends.
pub fn typed_value(line: &str) -> (value: Option<String>)
    ensures
        text(value) == given(trimmed(line@)),
{
    given_value(trim_copy(line))
}

/// Whether a word is the one by which the service manager reports that the
/// autostart unit is enabled.
pub fn is_enabled_word(word: &str) -> (enabled: bool)
    ensures
        enabled == (word@ == "enabled"@),
{
    let word = word.to_owned();
    let wanted = String::from_str("enabled");
    word == wanted
}

/// Whether the service manager's report on the autostart unit says that it
/// is enabled: the report is that word, white space at its ends apart.
pub fn reports_enabled(report: &str) -> (enabled: bool)
    ensures
        enabled == (trimmed(report@) == "enabled"@),
{
    let word = trim_copy(report);
    is_enabled_word(word.as_str())
}

/// The record after a login and the registration of the device.
pub open spec fn logged_in(
    config: ConfigView,
    user_key: Seq<char>,
    secret: Seq<char>,
    device_id: Seq<char>,
) -> ConfigView {
    ConfigView {
        user_key: Some(user_key),
        secret: Some(secret),
        device_id: Some(device_id),
        ..config
    }
}

/// Takes the account and the secret from the login and the device
/// identifier from the registration into the record.
pub fn adopt_login(config: &mut Config, login: &LoginResponse, device: &DeviceRegisterResponse)
    ensures
        final(config)@ == logged_in(old(config)@, login.id@, login.secret@, device.id@),
        !login_missing(final(config)@),
{
    config.user_key = Some(login.id.clone());
    config.secret = Some(login.secret.clone());
    config.device_id = Some(device.id.clone());
}

/// The record after the user has logged out.
pub open spec fn logged_out(config: ConfigView) -> ConfigView {
    ConfigView { user_key: None, secret: None, device_id: None, ..config }
}

/// Removes what a login provided from the record.
pub fn forget_login(config: &mut Config)
    ensures
        final(config)@ == logged_out(old(config)@),
        login_missing(final(config)@),
{
    config.user_key = None;
    config.secret = None;
    config.device_id = None;
}

/// Turns the wish to start with the session around and returns the new one.
pub fn toggle_start_on_boot(config: &mut Config) -> (wanted: bool)
    ensures
        wanted == !old(config)@.start_on_boot,
        final(config)@ == (ConfigView { start_on_boot: wanted, ..old(config)@ }),
{
    config.start_on_boot = !config.start_on_boot;
    config.start_on_boot
}

/// The text of the tray's autostart entry.
pub fn toggle_label(wanted: bool) -> (label: &'static str)
    ensures
        wanted ==> label@ == "Start on boot [\u{2713}]"@,
        !wanted ==> label@ == "Start on boot [ ]"@,
{
    if wanted {
        "Start on boot [\u{2713}]"
    } else {
        "Start on boot [ ]"
    }
}

/// The word for the autostart wish in a message to the user.
pub fn toggle_word(wanted: bool) -> (word: &'static str)
    ensures
        wanted ==> word@ == "enabled"@,
        !wanted ==> word@ == "disabled"@,
{
    if wanted {
        "enabled"
    } else {
        "disabled"
    }
}

/// What has to happen to the system's autostart entry.
#[derive(Clone, Copy, Debug, PartialEq, Eq, Structural)]
pub enum AutorunChange {
    Enable,
    Disable,
    Keep,
}

/// The change that brings the system's entry in line with the wish.
pub open spec fn change_for(wanted: bool, enabled: bool) -> AutorunChange {
    if wanted && !enabled {
        AutorunChange::Enable
    } else if !wanted && enabled {
        AutorunChange::Disable
    } else {
        AutorunChange::Keep
    }
}

/// Decides what to do with the system's autostart entry.
pub fn autorun_change(wanted: bool, enabled: bool) -> (change: AutorunChange)
    ensures
        change == change_for(wanted, enabled),
{
    if wanted && !enabled {
        AutorunChange::Enable
    } else if !wanted && enabled {
        AutorunChange::Disable
    } else {
        AutorunChange::Keep
    }
}

} // verus!
