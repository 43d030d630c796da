//! The first state of the tracker, the seeding of its settings, and the test
//! that a state read from storage keeps the invariants.

use crate::database::{
    assignments_apart, is_custom, mod_has_id, mods_apart, oldest_first,
    templates_apart, webhook_has_id, webhooks_apart, Database, StoredSettings, MAX_ACTIVITIES,
};
use crate::records::text_of;
use crate::template::WebhookTemplate;
use crate::text::eq_ignoring_case;
use vstd::prelude::*;

verus! {

/// The embed fields of the stock template, as stored text.
pub open spec fn stock_fields() -> Seq<char> {
    "[{\"name\":\"Mod Name\",\"value\":\"{modName}\",\"inline\":true},{\"name\":\"Author\",\"value\":\"{modAuthorName}\",\"inline\":true},{\"name\":\"Last Updated\",\"value\":\"{newReleaseDate}\",\"inline\":false},{\"name\":\"Latest File\",\"value\":\"{lastestModFileName}\",\"inline\":false}]"@
}

/// The template is the stock default: a rich embed with the mod's name, its
/// author, the release date and the newest file.
pub open spec fn is_stock_template(t: WebhookTemplate) -> bool {
    &&& t.id == Some(1i64)
    &&& t.is_default
    &&& t.webhook_id is None
    &&& t.title@ == "🔄 Mod Update Available!"@
    &&& t.color == 5814783
    &&& t.content is None
    &&& t.use_embed
    &&& text_of(t.author_name) == Some("Mod Tracker"@)
    &&& t.author_icon_url is None
    &&& text_of(t.footer_text) == Some("Powered by Artis Mod Tracker"@)
    &&& t.footer_icon_url is None
    &&& t.include_timestamp
    &&& t.embed_fields@ == stock_fields()
}

/// The stock default template.
pub fn default_template() -> (t: WebhookTemplate)
    ensures
        is_stock_template(t),
{
    WebhookTemplate {
        id: Some(1),
        is_default: true,
        webhook_id: None,
        title: String::from_str("🔄 Mod Update Available!"),
        color: 5814783,
        content: None,
        use_embed: true,
        author_name: Some(String::from_str("Mod Tracker")),
        author_icon_url: None,
        footer_text: Some(String::from_str("Powered by Artis Mod Tracker")),
        footer_icon_url: None,
        include_timestamp: true,
        embed_fields: String::from_str(
            "[{\"name\":\"Mod Name\",\"value\":\"{modName}\",\"inline\":true},{\"name\":\"Author\",\"value\":\"{modAuthorName}\",\"inline\":true},{\"name\":\"Last Updated\",\"value\":\"{newReleaseDate}\",\"inline\":false},{\"name\":\"Latest File\",\"value\":\"{lastestModFileName}\",\"inline\":false}]",
        ),
    }
}

/// The settings hold their seeds: no API key, an interval of 30 minutes,
/// and the quick-start panel shown.
pub open spec fn seeded(settings: StoredSettings, before: StoredSettings) -> bool {
    &&& settings.api_key == before.api_key
    &&& settings.minimize_to_tray == before.minimize_to_tray
    &&& settings.close_to_tray == before.close_to_tray
    &&& match before.update_interval {
        Some(_) => settings.update_interval == before.update_interval,
        None => text_of(settings.update_interval) == Some("30"@),
    }
    &&& match before.show_quick_start {
        Some(_) => settings.show_quick_start == before.show_quick_start,
        None => text_of(settings.show_quick_start) == Some("true"@),
    }
}

/// Seeds the settings that hold no value yet. Settings that hold one stay
/// as they are, so seeding twice is seeding once.
pub fn initialize_settings_table(db: &mut Database)
    ensures
        old(db).well_formed() ==> final(db).well_formed(),
        seeded(final(db).settings, old(db).settings),
        *final(db) == (Database { settings: final(db).settings, ..*old(db) }),
{
    if db.settings.update_interval.is_none() {
        db.settings.update_interval = Some(String::from_str("30"));
    }
    if db.settings.show_quick_start.is_none() {
        db.settings.show_quick_start = Some(String::from_str("true"));
    }
}

/// Makes a state ready for use: the settings are seeded. The tables and
/// their invariants stay as they are.
pub fn initialize_database(db: &mut Database)
    requires
        old(db).well_formed(),
    ensures
        final(db).well_formed(),
        seeded(final(db).settings, old(db).settings),
        *final(db) == (Database { settings: final(db).settings, ..*old(db) }),
{
    initialize_settings_table(db);
}

/// The state of a tracker that was never used: no mods, no webhooks, an
/// empty log, the stock default template and the seeded settings.
pub fn new_database() -> (db: Database)
    ensures
        db.well_formed(),
        db.mods@.len() == 0,
        db.webhooks@.len() == 0,
        db.assignments@.len() == 0,
        db.custom_templates@.len() == 0,
        db.activities@.len() == 0,
        db.last_mod_id == 0,
        db.last_webhook_id == 0,
        db.last_template_id == 1,
        db.last_activity_id == 0,
        is_stock_template(db.default_template),
        db.settings.api_key is None,
        text_of(db.settings.update_interval) == Some("30"@),
        text_of(db.settings.show_quick_start) == Some("true"@),
        db.settings.minimize_to_tray is None,
        db.settings.close_to_tray is None,
{
    let mut db = Database {
        mods: Vec::new(),
        last_mod_id: 0,
        webhooks: Vec::new(),
        last_webhook_id: 0,
        assignments: Vec::new(),
        default_template: default_template(),
        custom_templates: Vec::new(),
        last_template_id: 1,
        activities: Vec::new(),
        last_activity_id: 0,
        settings: StoredSettings {
            api_key: None,
            update_interval: None,
            show_quick_start: None,
            minimize_to_tray: None,
            close_to_tray: None,
        },
    };
    initialize_database(&mut db);
    db
}

fn mods_are_well_formed(db: &Database) -> (ok: bool)
    ensures
        ok == crate::database::mods_well_formed(db.mods@, db.last_mod_id),
{
    let n: usize = db.mods.len();
    let mut j: usize = 0;
    while j < n
        invariant
            j <= n,
            n == db.mods@.len(),
            forall|a: int| 0 <= a < j ==> mod_has_id(db.last_mod_id)(#[trigger] db.mods@[a]),
            forall|a: int, b: int|
                0 <= a < b < j ==> mods_apart()(#[trigger] db.mods@[a], #[trigger] db.mods@[b]),
        decreases n - j,
    {
        let id: i64 = match db.mods[j].id {
            Some(id) => id,
            None => {
                assert(!mod_has_id(db.last_mod_id)(db.mods@[j as int]));
                return false;
            },
        };
        if id > db.last_mod_id {
            assert(!mod_has_id(db.last_mod_id)(db.mods@[j as int]));
            return false;
        }
        let mut i: usize = 0;
        while i < j
            invariant
                i <= j < n,
                n == db.mods@.len(),
                db.mods@[j as int].id == Some(id),
                forall|a: int| 0 <= a < j ==> mod_has_id(db.last_mod_id)(#[trigger] db.mods@[a]),
                forall|a: int|
                    0 <= a < i ==> mods_apart()(#[trigger] db.mods@[a], db.mods@[j as int]),
            decreases j - i,
        {
            assert(mod_has_id(db.last_mod_id)(db.mods@[i as int]));
            let other: i64 = match db.mods[i].id {
                Some(other) => other,
                None => 0,
            };
            if other == id || db.mods[i].curseforge_id == db.mods[j].curseforge_id {
                assert(!mods_apart()(db.mods@[i as int], db.mods@[j as int]));
                return false;
            }
            i += 1;
        }
        j += 1;
    }
    true
}

fn webhooks_are_well_formed(db: &Database) -> (ok: bool)
    ensures
        ok == crate::database::webhooks_well_formed(db.webhooks@, db.last_webhook_id),
{
    let n: usize = db.webhooks.len();
    let mut j: usize = 0;
    while j < n
        invariant
            j <= n,
            n == db.webhooks@.len(),
            forall|a: int|
                0 <= a < j ==> webhook_has_id(db.last_webhook_id)(#[trigger] db.webhooks@[a]),
            forall|a: int, b: int|
                0 <= a < b < j ==> webhooks_apart()(
                    #[trigger] db.webhooks@[a],
                    #[trigger] db.webhooks@[b],
                ),
        decreases n - j,
    {
        let id: i64 = match db.webhooks[j].id {
            Some(id) => id,
            None => {
                assert(!webhook_has_id(db.last_webhook_id)(db.webhooks@[j as int]));
                return false;
            },
        };
        if id > db.last_webhook_id {
            assert(!webhook_has_id(db.last_webhook_id)(db.webhooks@[j as int]));
            return false;
        }
        let mut i: usize = 0;
        while i < j
            invariant
                i <= j < n,
                n == db.webhooks@.len(),
                db.webhooks@[j as int].id == Some(id),
                forall|a: int|
                    0 <= a < j ==> webhook_has_id(db.last_webhook_id)(#[trigger] db.webhooks@[a]),
                forall|a: int|
                    0 <= a < i ==> webhooks_apart()(
                        #[trigger] db.webhooks@[a],
                        db.webhooks@[j as int],
                    ),
            decreases j - i,
        {
            assert(webhook_has_id(db.last_webhook_id)(db.webhooks@[i as int]));
            let other: i64 = match db.webhooks[i].id {
                Some(other) => other,
                None => 0,
            };
            if other == id || eq_ignoring_case(
                db.webhooks[i].name.as_str(),
                db.webhooks[j].name.as_str(),
            ) {
                assert(!webhooks_apart()(db.webhooks@[i as int], db.webhooks@[j as int]));
                return false;
            }
            i += 1;
        }
        j += 1;
    }
    true
}

fn assignments_are_well_formed(db: &Database) -> (ok: bool)
    ensures
        ok == crate::database::assignments_well_formed(db.assignments@),
{
    let n: usize = db.assignments.len();
    let mut j: usize = 0;
    while j < n
        invariant
            j <= n,
            n == db.assignments@.len(),
            forall|a: int, b: int|
                0 <= a < b < j ==> assignments_apart()(
                    #[trigger] db.assignments@[a],
                    #[trigger] db.assignments@[b],
                ),
        decreases n - j,
    {
        let pair = db.assignments[j];
        let mut i: usize = 0;
        while i < j
            invariant
                i <= j < n,
                n == db.assignments@.len(),
                pair == db.assignments@[j as int],
                forall|a: int|
                    0 <= a < i ==> assignments_apart()(
                        #[trigger] db.assignments@[a],
                        db.assignments@[j as int],
                    ),
            decreases j - i,
        {
            let other = db.assignments[i];
            if other.0 == pair.0 && other.1 == pair.1 {
                assert(!assignments_apart()(db.assignments@[i as int], db.assignments@[j as int]));
                return false;
            }
            i += 1;
        }
        j += 1;
    }
    true
}

fn templates_are_well_formed(db: &Database) -> (ok: bool)
    ensures
        ok == crate::database::custom_templates_well_formed(db.custom_templates@),
{
    let n: usize = db.custom_templates.len();
    let mut j: usize = 0;
    while j < n
        invariant
            j <= n,
            n == db.custom_templates@.len(),
            forall|a: int| 0 <= a < j ==> is_custom()(#[trigger] db.custom_templates@[a]),
            forall|a: int, b: int|
                0 <= a < b < j ==> templates_apart()(
                    #[trigger] db.custom_templates@[a],
                    #[trigger] db.custom_templates@[b],
                ),
        decreases n - j,
    {
        let owner: i64 = match db.custom_templates[j].webhook_id {
            Some(owner) => owner,
            None => {
                assert(!is_custom()(db.custom_templates@[j as int]));
                return false;
            },
        };
        if db.custom_templates[j].is_default {
            assert(!is_custom()(db.custom_templates@[j as int]));
            return false;
        }
        let mut i: usize = 0;
        while i < j
            invariant
                i <= j < n,
                n == db.custom_templates@.len(),
                db.custom_templates@[j as int].webhook_id == Some(owner),
                forall|a: int| 0 <= a < j ==> is_custom()(#[trigger] db.custom_templates@[a]),
                forall|a: int|
                    0 <= a < i ==> templates_apart()(
                        #[trigger] db.custom_templates@[a],
                        db.custom_templates@[j as int],
                    ),
            decreases j - i,
        {
            assert(is_custom()(db.custom_templates@[i as int]));
            let other: i64 = match db.custom_templates[i].webhook_id {
                Some(other) => other,
                None => 0,
            };
            if other == owner {
                assert(!templates_apart()(
                    db.custom_templates@[i as int],
                    db.custom_templates@[j as int],
                ));
                return false;
            }
            i += 1;
        }
        j += 1;
    }
    true
}

fn log_is_well_formed(db: &Database) -> (ok: bool)
    ensures
        ok == (db.activities@.len() <= MAX_ACTIVITIES && oldest_first(db.activities@)),
{
    let n: usize = db.activities.len();
    if n > MAX_ACTIVITIES {
        return false;
    }
    let mut j: usize = 1;
    while j < n
        invariant
            1 <= j,
            n == db.activities@.len(),
            forall|a: int, b: int|
                0 <= a < b < j && b < n ==> (#[trigger] db.activities@[a]).timestamp <= (
                #[trigger] db.activities@[b]).timestamp,
        decreases n - j,
    {
        if db.activities[j - 1].timestamp > db.activities[j].timestamp {
            return false;
        }
        assert forall|a: int, b: int| 0 <= a < b < j + 1 && b < n implies (
        #[trigger] db.activities@[a]).timestamp <= (#[trigger] db.activities@[b]).timestamp by {
            if b == j && a < j - 1 {
                assert(db.activities@[a].timestamp <= db.activities@[j - 1].timestamp);
            }
        }
        j += 1;
    }
    true
}

/// Whether a state keeps the invariants of the tables. A state that was
/// read from storage is to pass this test before it is used.
pub fn check_well_formed(db: &Database) -> (ok: bool)
    ensures
        ok == db.well_formed(),
{
    mods_are_well_formed(db) && webhooks_are_well_formed(db) && assignments_are_well_formed(db)
        && db.default_template.is_default && db.default_template.webhook_id.is_none()
        && templates_are_well_formed(db) && log_is_well_formed(db)
}

} // verus!
