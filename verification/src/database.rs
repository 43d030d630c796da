//! The tracker's persisted state as one value: the tables of mods, webhooks,
//! assignments, templates, activities and settings, with the invariants that
//! every operation keeps.

use crate::records::{Activity, ErrorKind, Mod, TrackerError, Webhook};
use crate::tables::{every, pairwise};
use crate::template::WebhookTemplate;
use crate::text::same_ignoring_case;
use vstd::prelude::*;

verus! {

/// The largest number of entries that the activity log holds.
pub const MAX_ACTIVITIES: usize = 50;

/// The rows of the settings table: the stored text of each setting, absent
/// where the row is missing or holds no value.
#[derive(Debug, Clone, PartialEq, Eq)]
pub struct StoredSettings {
    pub api_key: Option<String>,
    pub update_interval: Option<String>,
    pub show_quick_start: Option<String>,
    pub minimize_to_tray: Option<String>,
    pub close_to_tray: Option<String>,
}

/// The persisted state of the tracker.
#[derive(Debug, Clone, PartialEq, Eq)]
pub struct Database {
    pub mods: Vec<Mod>,
    pub last_mod_id: i64,
    pub webhooks: Vec<Webhook>,
    pub last_webhook_id: i64,
    /// The pairs of a mod's id and a webhook's id that is notified for it.
    pub assignments: Vec<(i64, i64)>,
    pub default_template: WebhookTemplate,
    pub custom_templates: Vec<WebhookTemplate>,
    pub last_template_id: i64,
    /// The activity log, oldest timestamp first.
    pub activities: Vec<Activity>,
    pub last_activity_id: i64,
    pub settings: StoredSettings,
}

/// A mod's id was given out: it is no larger than the last one.
pub open spec fn mod_has_id(last_id: i64) -> spec_fn(Mod) -> bool {
    |m: Mod| m.id is Some && m.id->0 <= last_id
}

/// Two mods differ in their ids and in their platform ids.
pub open spec fn mods_apart() -> spec_fn(Mod, Mod) -> bool {
    |a: Mod, b: Mod| a.id != b.id && a.curseforge_id != b.curseforge_id
}

/// Every mod has an id of its own, no larger than the last id given out, and
/// a platform id of its own.
pub open spec fn mods_well_formed(mods: Seq<Mod>, last_id: i64) -> bool {
    every(mods, mod_has_id(last_id)) && pairwise(mods, mods_apart())
}

/// A webhook's id was given out: it is no larger than the last one.
pub open spec fn webhook_has_id(last_id: i64) -> spec_fn(Webhook) -> bool {
    |w: Webhook| w.id is Some && w.id->0 <= last_id
}

/// Two webhooks differ in their ids, and in their names even when the case
/// of ASCII letters is ignored.
pub open spec fn webhooks_apart() -> spec_fn(Webhook, Webhook) -> bool {
    |a: Webhook, b: Webhook| a.id != b.id && !same_ignoring_case(a.name@, b.name@)
}

/// Every webhook has an id of its own, no larger than the last id given out,
/// and no two webhooks have the same name but for the case of ASCII letters.
pub open spec fn webhooks_well_formed(webhooks: Seq<Webhook>, last_id: i64) -> bool {
    every(webhooks, webhook_has_id(last_id)) && pairwise(webhooks, webhooks_apart())
}

/// Any assignment will do.
pub open spec fn any_assignment() -> spec_fn((i64, i64)) -> bool {
    |p: (i64, i64)| true
}

/// Two assignments differ.
pub open spec fn assignments_apart() -> spec_fn((i64, i64), (i64, i64)) -> bool {
    |a: (i64, i64), b: (i64, i64)| a != b
}

/// No pair of a mod and a webhook stands twice.
pub open spec fn assignments_well_formed(assignments: Seq<(i64, i64)>) -> bool {
    pairwise(assignments, assignments_apart())
}

/// A custom template is not the default and belongs to a webhook.
pub open spec fn is_custom() -> spec_fn(WebhookTemplate) -> bool {
    |t: WebhookTemplate| !t.is_default && t.webhook_id is Some
}

/// Two templates belong to different webhooks.
pub open spec fn templates_apart() -> spec_fn(WebhookTemplate, WebhookTemplate) -> bool {
    |a: WebhookTemplate, b: WebhookTemplate| a.webhook_id != b.webhook_id
}

/// Every custom template belongs to a webhook, and no webhook has two.
pub open spec fn custom_templates_well_formed(templates: Seq<WebhookTemplate>) -> bool {
    every(templates, is_custom()) && pairwise(templates, templates_apart())
}

/// The entries stand in the order of their timestamps, oldest first.
pub open spec fn oldest_first(log: Seq<Activity>) -> bool {
    forall|i: int, j: int|
        0 <= i < j < log.len() ==> (#[trigger] log[i]).timestamp <= (#[trigger] log[j]).timestamp
}

impl Database {
    /// The invariants of the tables: ids and names are unique as each table
    /// asks, exactly one template is the default, and the activity log is
    /// ordered and within its cap.
    pub open spec fn well_formed(&self) -> bool {
        &&& mods_well_formed(self.mods@, self.last_mod_id)
        &&& webhooks_well_formed(self.webhooks@, self.last_webhook_id)
        &&& assignments_well_formed(self.assignments@)
        &&& self.default_template.is_default
        &&& self.default_template.webhook_id is None
        &&& custom_templates_well_formed(self.custom_templates@)
        &&& self.activities@.len() <= MAX_ACTIVITIES
        &&& oldest_first(self.activities@)
    }

    /// The state but for the activity log is the same as in `other`.
    pub open spec fn same_but_log(&self, other: &Database) -> bool {
        &&& self.mods == other.mods
        &&& self.last_mod_id == other.last_mod_id
        &&& self.webhooks == other.webhooks
        &&& self.last_webhook_id == other.last_webhook_id
        &&& self.assignments == other.assignments
        &&& self.default_template == other.default_template
        &&& self.custom_templates == other.custom_templates
        &&& self.last_template_id == other.last_template_id
        &&& self.settings == other.settings
    }
}

/// An error of the local database.
pub fn database_error(message: &str) -> (e: TrackerError)
    ensures
        e.says(ErrorKind::Database, message@),
{
    TrackerError::new(ErrorKind::Database, message)
}

/// An error of validation.
pub fn validation_error(message: &str) -> (e: TrackerError)
    ensures
        e.says(ErrorKind::Validation, message@),
{
    TrackerError::new(ErrorKind::Validation, message)
}

} // verus!
