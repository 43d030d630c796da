//! The records that the tracker keeps, and the errors that its operations
//! report.

use vstd::prelude::*;

verus! {

/// A tracked mod.
#[derive(Debug, Clone, PartialEq, Eq)]
pub struct Mod {
    pub id: Option<i64>,
    pub curseforge_id: i64,
    pub name: String,
    pub game_name: String,
    pub last_updated: String,
}

/// A tracked mod with the webhooks that are notified of its updates.
#[derive(Debug, Clone, PartialEq, Eq)]
pub struct ModWithWebhooks {
    pub mod_info: Mod,
    pub webhook_ids: Vec<i64>,
}

/// A target for notifications.
#[derive(Debug, Clone, PartialEq, Eq)]
pub struct Webhook {
    pub id: Option<i64>,
    pub name: String,
    pub url: String,
    pub avatar_url: Option<String>,
    pub username: Option<String>,
    pub enabled: bool,
    pub use_custom_template: bool,
}

/// An entry of the activity log. The timestamp counts microseconds since the
/// Unix epoch, in UTC.
#[derive(Debug, Clone, PartialEq, Eq)]
pub struct Activity {
    pub id: Option<i64>,
    pub activity_type: String,
    pub mod_id: Option<i64>,
    pub mod_name: Option<String>,
    pub description: String,
    pub timestamp: i64,
    pub metadata: Option<String>,
}

/// An activity with its texts as characters.
pub struct ActivityView {
    pub id: Option<i64>,
    pub activity_type: Seq<char>,
    pub mod_id: Option<i64>,
    pub mod_name: Option<Seq<char>>,
    pub description: Seq<char>,
    pub timestamp: i64,
    pub metadata: Option<Seq<char>>,
}

/// The characters of a text that may be absent.
pub open spec fn text_of(text: Option<String>) -> Option<Seq<char>> {
    match text {
        Some(s) => Some(s@),
        None => None,
    }
}

impl View for Activity {
    type V = ActivityView;

    open spec fn view(&self) -> ActivityView {
        ActivityView {
            id: self.id,
            activity_type: self.activity_type@,
            mod_id: self.mod_id,
            mod_name: text_of(self.mod_name),
            description: self.description@,
            timestamp: self.timestamp,
            metadata: text_of(self.metadata),
        }
    }
}

/// The settings of the application.
#[derive(Debug, Clone, PartialEq, Eq)]
pub struct Settings {
    pub api_key: Option<String>,
    pub update_interval: i64,
    pub show_quick_start: bool,
}

/// What went wrong: in the local database, at the mod-hosting API, in the
/// input, or at the delivery of a notification.
#[derive(PartialEq, Eq, Structural, Clone, Copy, Debug)]
pub enum ErrorKind {
    Database,
    UpstreamApi,
    Validation,
    Delivery,
}

/// An error with its kind and its message.
#[derive(Debug, Clone, PartialEq, Eq)]
pub struct TrackerError {
    pub kind: ErrorKind,
    pub message: String,
}

/// An error with its message as characters.
pub struct ErrorView {
    pub kind: ErrorKind,
    pub message: Seq<char>,
}

impl View for TrackerError {
    type V = ErrorView;

    open spec fn view(&self) -> ErrorView {
        ErrorView { kind: self.kind, message: self.message@ }
    }
}

/// The view of an error of a kind with a message.
pub open spec fn failure(kind: ErrorKind, message: Seq<char>) -> ErrorView {
    ErrorView { kind, message }
}

impl TrackerError {
    /// The error has this kind and this message.
    pub open spec fn says(&self, kind: ErrorKind, message: Seq<char>) -> bool {
        self.kind == kind && self.message@ == message
    }

    /// An error of a kind with a message.
    pub fn new(kind: ErrorKind, message: &str) -> (e: TrackerError)
        ensures
            e.says(kind, message@),
    {
        TrackerError { kind, message: String::from_str(message) }
    }

    /// The message of the error.
    pub fn to_text(&self) -> (text: String)
        ensures
            text@ == self.message@,
    {
        self.message.clone()
    }
}

/// A copy of a text that may be absent.
pub fn clone_text(text: &Option<String>) -> (copy: Option<String>)
    ensures
        copy == *text,
{
    match text {
        Some(s) => Some(s.clone()),
        None => None,
    }
}

/// A copy of a mod record.
pub fn clone_mod(m: &Mod) -> (copy: Mod)
    ensures
        copy == *m,
{
    Mod {
        id: m.id,
        curseforge_id: m.curseforge_id,
        name: m.name.clone(),
        game_name: m.game_name.clone(),
        last_updated: m.last_updated.clone(),
    }
}

/// A copy of a webhook record.
pub fn clone_webhook(w: &Webhook) -> (copy: Webhook)
    ensures
        copy == *w,
{
    Webhook {
        id: w.id,
        name: w.name.clone(),
        url: w.url.clone(),
        avatar_url: clone_text(&w.avatar_url),
        username: clone_text(&w.username),
        enabled: w.enabled,
        use_custom_template: w.use_custom_template,
    }
}

/// A copy of an activity.
pub fn clone_activity(a: &Activity) -> (copy: Activity)
    ensures
        copy == *a,
{
    Activity {
        id: a.id,
        activity_type: a.activity_type.clone(),
        mod_id: a.mod_id,
        mod_name: clone_text(&a.mod_name),
        description: a.description.clone(),
        timestamp: a.timestamp,
        metadata: clone_text(&a.metadata),
    }
}

} // verus!
