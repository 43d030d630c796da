//! The entries that the tracker writes into the activity log, one kind for
//! each thing that happens.

use crate::activities::{add_activity, logged, stored_as};
use crate::database::Database;
use crate::json::{json_object_text, meta_id, meta_text, MetaBuilder, MetaView};
use crate::records::{Activity, ActivityView, ErrorKind, TrackerError};
use crate::text::{from_chars, push_str};
use vstd::prelude::*;

verus! {

/// An entry that is not stored yet, with its texts as characters.
pub open spec fn event(
    kind: Seq<char>,
    mod_id: Option<i64>,
    mod_name: Option<Seq<char>>,
    description: Seq<char>,
    timestamp: i64,
    metadata: Seq<char>,
) -> ActivityView {
    ActivityView {
        id: None,
        activity_type: kind,
        mod_id,
        mod_name,
        description,
        timestamp,
        metadata: Some(metadata),
    }
}

/// A name between double quotes, with a text before and a text after.
pub open spec fn naming(before: Seq<char>, name: Seq<char>, after: Seq<char>) -> Seq<char> {
    before + "\""@ + name + "\""@ + after
}

/// Two names between double quotes, with texts around them.
pub open spec fn naming_two(
    before: Seq<char>,
    first: Seq<char>,
    between: Seq<char>,
    second: Seq<char>,
) -> Seq<char> {
    before + "\""@ + first + "\""@ + between + "\""@ + second + "\""@
}

/// Writes a name between double quotes, with a text before and a text after.
pub fn name_in(before: &str, name: &str, after: &str) -> (text: String)
    ensures
        text@ == naming(before@, name@, after@),
{
    let mut out: Vec<char> = Vec::new();
    push_str(&mut out, before);
    push_str(&mut out, "\"");
    push_str(&mut out, name);
    push_str(&mut out, "\"");
    push_str(&mut out, after);
    assert(out@ =~= naming(before@, name@, after@));
    from_chars(&out)
}

/// Writes two names between double quotes, with texts around them.
pub fn names_in(before: &str, first: &str, between: &str, second: &str) -> (text: String)
    ensures
        text@ == naming_two(before@, first@, between@, second@),
{
    let mut out: Vec<char> = Vec::new();
    push_str(&mut out, before);
    push_str(&mut out, "\"");
    push_str(&mut out, first);
    push_str(&mut out, "\"");
    push_str(&mut out, between);
    push_str(&mut out, "\"");
    push_str(&mut out, second);
    push_str(&mut out, "\"");
    assert(out@ =~= naming_two(before@, first@, between@, second@));
    from_chars(&out)
}

/// An entry that is not stored yet.
pub fn new_event(
    kind: &str,
    mod_id: Option<i64>,
    mod_name: Option<&str>,
    description: String,
    timestamp: i64,
    metadata: String,
) -> (entry: Activity)
    ensures
        entry@ == event(
            kind@,
            mod_id,
            match mod_name {
                Some(name) => Some(name@),
                None => None,
            },
            description@,
            timestamp,
            metadata@,
        ),
{
    Activity {
        id: None,
        activity_type: String::from_str(kind),
        mod_id,
        mod_name: match mod_name {
            Some(name) => Some(String::from_str(name)),
            None => None,
        },
        description,
        timestamp,
        metadata: Some(metadata),
    }
}

/// The log `after` is the log `before` with one entry added, which has the
/// given content.
pub open spec fn logged_with(before: Seq<Activity>, after: Seq<Activity>, entry: ActivityView) -> bool {
    exists|a: Activity| a@ == entry && #[trigger] logged(before, a) == after
}

/// An entry as the log stores it under an id.
pub open spec fn with_id(entry: ActivityView, id: i64) -> ActivityView {
    ActivityView { id: Some(id), ..entry }
}

/// The activity log has an id left for one more entry.
pub open spec fn can_log(db: Database) -> bool {
    db.last_activity_id < i64::MAX
}

/// Adds an event to the activity log, under the next id.
pub fn log_event(db: &mut Database, entry: Activity)
    requires
        old(db).well_formed(),
        can_log(*old(db)),
    ensures
        final(db).well_formed(),
        final(db).same_but_log(old(db)),
        final(db).last_activity_id == old(db).last_activity_id + 1,
        final(db).activities@ == logged(
            old(db).activities@,
            stored_as(entry, final(db).last_activity_id),
        ),
        logged_with(
            old(db).activities@,
            final(db).activities@,
            with_id(entry@, final(db).last_activity_id),
        ),
{
    let ghost stored = stored_as(entry, (db.last_activity_id + 1) as i64);
    let r = add_activity(db, entry);
    assert(logged(old(db).activities@, stored) == db.activities@);
}

/// The error of a log whose ids are used up.
pub fn log_full() -> (e: TrackerError)
    ensures
        e.says(ErrorKind::Database, "activity ids are exhausted"@),
{
    TrackerError::new(ErrorKind::Database, "activity ids are exhausted")
}

/// The metadata of an event about a webhook.
pub open spec fn webhook_metadata(name: Seq<char>, id: Option<i64>) -> Seq<char> {
    json_object_text(seq![("webhook_name"@, MetaView::Text(name)), ("webhook_id"@, meta_id(id))])
}

/// Writes the metadata of an event about a webhook.
pub fn write_webhook_metadata(name: &str, id: Option<i64>) -> (text: String)
    ensures
        text@ == webhook_metadata(name@, id),
{
    let mut meta = MetaBuilder::new();
    meta.text("webhook_name", name);
    meta.optional_integer("webhook_id", id);
    assert(meta@ =~= seq![("webhook_name"@, MetaView::Text(name@)), ("webhook_id"@, meta_id(id))]);
    meta.finish()
}

/// The metadata of an event about an assignment.
pub open spec fn assignment_metadata(webhook_id: i64, webhook_name: Seq<char>) -> Seq<char> {
    json_object_text(
        seq![("webhook_id"@, MetaView::Int(webhook_id)), ("webhook_name"@, MetaView::Text(webhook_name))],
    )
}

/// Writes the metadata of an event about an assignment.
pub fn write_assignment_metadata(webhook_id: i64, webhook_name: &str) -> (text: String)
    ensures
        text@ == assignment_metadata(webhook_id, webhook_name@),
{
    let mut meta = MetaBuilder::new();
    meta.integer("webhook_id", webhook_id);
    meta.text("webhook_name", webhook_name);
    assert(meta@ =~= seq![
        ("webhook_id"@, MetaView::Int(webhook_id)),
        ("webhook_name"@, MetaView::Text(webhook_name@)),
    ]);
    meta.finish()
}

/// The metadata of the event that a mod was removed.
pub open spec fn removal_metadata(game: Seq<char>, mod_id: i64) -> Seq<char> {
    json_object_text(seq![("game"@, MetaView::Text(game)), ("deleted_mod_id"@, MetaView::Int(mod_id))])
}

/// Writes the metadata of the event that a mod was removed.
pub fn write_removal_metadata(game: &str, mod_id: i64) -> (text: String)
    ensures
        text@ == removal_metadata(game@, mod_id),
{
    let mut meta = MetaBuilder::new();
    meta.text("game", game);
    meta.integer("deleted_mod_id", mod_id);
    assert(meta@ =~= seq![("game"@, MetaView::Text(game@)), ("deleted_mod_id"@, MetaView::Int(mod_id))]);
    meta.finish()
}

/// The metadata of the event that a mod was added.
pub open spec fn addition_metadata(
    game: Seq<char>,
    curseforge_id: i64,
    released: Seq<char>,
    page_url: Seq<char>,
) -> Seq<char> {
    json_object_text(
        seq![
            ("game"@, MetaView::Text(game)),
            ("curseforge_id"@, MetaView::Int(curseforge_id)),
            ("initial_version_date"@, MetaView::Text(released)),
            ("page_url"@, MetaView::Text(page_url)),
        ],
    )
}

/// Writes the metadata of the event that a mod was added.
pub fn write_addition_metadata(game: &str, curseforge_id: i64, released: &str, page_url: &str) -> (text: String)
    ensures
        text@ == addition_metadata(game@, curseforge_id, released@, page_url@),
{
    let mut meta = MetaBuilder::new();
    meta.text("game", game);
    meta.integer("curseforge_id", curseforge_id);
    meta.text("initial_version_date", released);
    meta.text("page_url", page_url);
    assert(meta@ =~= seq![
        ("game"@, MetaView::Text(game@)),
        ("curseforge_id"@, MetaView::Int(curseforge_id)),
        ("initial_version_date"@, MetaView::Text(released@)),
        ("page_url"@, MetaView::Text(page_url@)),
    ]);
    meta.finish()
}

/// The metadata of the event that a notification was sent or failed.
pub open spec fn delivery_metadata(
    webhook_name: Seq<char>,
    webhook_id: Option<i64>,
    error: Option<Seq<char>>,
) -> Seq<char> {
    json_object_text(
        seq![
            ("webhook_name"@, MetaView::Text(webhook_name)),
            ("webhook_id"@, meta_id(webhook_id)),
            ("error"@, meta_text(error)),
        ],
    )
}

/// Writes the metadata of the event that a notification was sent or failed.
pub fn write_delivery_metadata(webhook_name: &str, webhook_id: Option<i64>, error: &Option<String>) -> (text: String)
    ensures
        text@ == delivery_metadata(webhook_name@, webhook_id, crate::records::text_of(*error)),
{
    let mut meta = MetaBuilder::new();
    meta.text("webhook_name", webhook_name);
    meta.optional_integer("webhook_id", webhook_id);
    meta.optional_text("error", error);
    assert(meta@ =~= seq![
        ("webhook_name"@, MetaView::Text(webhook_name@)),
        ("webhook_id"@, meta_id(webhook_id)),
        ("error"@, meta_text(crate::records::text_of(*error))),
    ]);
    meta.finish()
}

} // verus!
