//! What a message looks like on the desktop.

use vstd::prelude::*;
use crate::types::{Message, MessageView, text};

verus! {

/// How pressing a notification is.
#[derive(Clone, Copy, Debug, PartialEq, Eq, Structural)]
pub enum Urgency {
    Low,
    Normal,
    Critical,
}

/// A notification, ready to be shown.
#[derive(Clone, Debug, PartialEq, Eq)]
pub struct Notice {
    pub title: String,
    pub body: String,
    pub urgency: Urgency,
    /// The address to open when the user clicks, if the message has one.
    pub link: Option<String>,
}

pub ghost struct NoticeView {
    pub title: Seq<char>,
    pub body: Seq<char>,
    pub urgency: Urgency,
    pub link: Option<Seq<char>>,
}

impl View for Notice {
    type V = NoticeView;

    open spec fn view(&self) -> NoticeView {
        NoticeView {
            title: self.title@,
            body: self.body@,
            urgency: self.urgency,
            link: text(self.link),
        }
    }
}

/// An optional text that is there and not empty.
pub open spec fn filled(value: Option<Seq<char>>) -> Option<Seq<char>> {
    match value {
        Some(s) => if s.len() > 0 {
            Some(s)
        } else {
            None
        },
        None => None,
    }
}

/// The urgency that goes with a priority.
pub open spec fn urgency_of(priority: i32) -> Urgency {
    if priority >= 2 {
        Urgency::Critical
    } else if priority >= 1 {
        Urgency::Normal
    } else {
        Urgency::Low
    }
}

/// The notification of a message: its own title where it has one, else
/// the name of the application that sent it.
pub open spec fn notice_of(message: MessageView) -> NoticeView {
    NoticeView {
        title: match filled(message.title) {
            Some(title) => title,
            None => message.app,
        },
        body: message.message,
        urgency: urgency_of(message.priority),
        link: filled(message.url),
    }
}

/// Whether a notification of this urgency makes a sound.
pub open spec fn audible(urgency: Urgency) -> bool {
    urgency != Urgency::Low
}

fn filled_copy(value: &Option<String>) -> (copy: Option<String>)
    ensures
        text(copy) == filled(text(*value)),
{
    match value {
        Some(s) => {
            if s.as_str().is_empty() {
                None
            } else {
                Some(s.clone())
            }
        },
        None => None,
    }
}

/// The urgency that goes with a priority.
pub fn urgency_for(priority: i32) -> (urgency: Urgency)
    ensures
        urgency == urgency_of(priority),
{
    if priority >= 2 {
        Urgency::Critical
    } else if priority >= 1 {
        Urgency::Normal
    } else {
        Urgency::Low
    }
}

/// Whether a notification of this urgency makes a sound.
pub fn is_audible(urgency: Urgency) -> (yes: bool)
    ensures
        yes == audible(urgency),
{
    match urgency {
        Urgency::Low => false,
        _ => true,
    }
}

/// Makes the notification of a message.
pub fn notice_for(message: &Message) -> (notice: Notice)
    ensures
        notice@ == notice_of(message@),
{
    let title = match filled_copy(&message.title) {
        Some(title) => title,
        None => message.app.clone(),
    };
    Notice {
        title,
        body: message.message.clone(),
        urgency: urgency_for(message.priority),
        link: filled_copy(&message.url),
    }
}

} // verus!
