//! The operations that the user interface asks for. Each changes the
//! registries and writes what happened into the activity log, or changes
//! nothing and says why.

use crate::activities::add_activity;
use crate::database::{database_error, validation_error, Database};
use crate::events::{
    addition_metadata, assignment_metadata, can_log, delivery_metadata, event, log_event,
    log_full, logged_with, name_in, names_in, naming, naming_two, new_event, removal_metadata,
    webhook_metadata, with_id, write_addition_metadata, write_assignment_metadata,
    write_delivery_metadata, write_removal_metadata, write_webhook_metadata,
};
use crate::mods::{
    assign_webhook_to_mod, assigned_to_row, find_mod, insert_mod, mod_with_id, not_of_mod,
    other_mod, remove_webhook_from_mod, tracks_platform_id, unlinked_log, with_assignment,
    without_assignment,
};
use crate::notify::{is_success, status_is_success};
use crate::ordering::{mod_order, ordered, webhook_order};
use crate::records::{
    clone_mod, failure, text_of, Activity, ActivityView, ErrorKind, ErrorView, Mod,
    ModWithWebhooks, TrackerError, Webhook,
};
use crate::text::{from_chars, push_str};
use crate::update::CurseForgeModData;
use crate::webhooks::{
    find_webhook, insert_webhook, name_taken, not_of_webhook, other_webhook, serves_mod,
    template_of_other, webhook_replaced, webhook_stored_as, webhook_with_id,
};
use vstd::prelude::*;

verus! {

/// The message of a query that found no row.
pub open spec fn no_rows() -> ErrorView {
    failure(ErrorKind::Database, "Query returned no rows"@)
}

/// The message of a log whose ids are used up.
pub open spec fn log_is_full() -> ErrorView {
    failure(ErrorKind::Database, "activity ids are exhausted"@)
}

fn no_rows_error() -> (e: TrackerError)
    ensures
        e@ == no_rows(),
{
    database_error("Query returned no rows")
}

/// Adds an entry to the activity log on behalf of the user interface.
pub fn add_activity_entry(
    db: &mut Database,
    activity_type: String,
    mod_id: Option<i64>,
    mod_name: Option<String>,
    description: String,
    metadata: Option<String>,
    now: i64,
) -> (r: Result<i64, TrackerError>)
    requires
        old(db).well_formed(),
    ensures
        final(db).well_formed(),
        final(db).same_but_log(old(db)),
        match r {
            Ok(id) => {
                &&& can_log(*old(db))
                &&& id == old(db).last_activity_id + 1
                &&& final(db).last_activity_id == id
                &&& final(db).activities@ == crate::activities::logged(
                    old(db).activities@,
                    Activity {
                        id: Some(id),
                        activity_type,
                        mod_id,
                        mod_name,
                        description,
                        timestamp: now,
                        metadata,
                    },
                )
            },
            Err(e) => !can_log(*old(db)) && e@ == log_is_full() && *final(db) == *old(db),
        },
{
    add_activity(
        db,
        Activity { id: None, activity_type, mod_id, mod_name, description, timestamp: now, metadata },
    )
}

/// The newest entries of the activity log, newest first.
pub fn get_activities(db: &Database, limit: Option<i64>) -> (entries: Vec<Activity>)
    ensures
        entries@ == crate::activities::recent(
            db.activities@,
            match limit {
                Some(n) => n as int,
                None => crate::database::MAX_ACTIVITIES as int,
            },
        ),
{
    crate::activities::get_recent_activities(db, limit)
}

/// Empties the activity log.
pub fn clear_activity_history(db: &mut Database)
    requires
        old(db).well_formed(),
    ensures
        final(db).well_formed(),
        final(db).same_but_log(old(db)),
        final(db).last_activity_id == old(db).last_activity_id,
        final(db).activities@.len() == 0,
{
    crate::activities::clear_activities(db);
}

/// The mods in the order of their games' names and their own names, each
/// with the ids of the webhooks assigned to it.
pub fn get_mods(db: &Database) -> (all: Vec<ModWithWebhooks>)
    ensures
        all@.len() == db.mods@.len(),
        forall|i: int|
            0 <= i < all@.len() ==> (#[trigger] all@[i]).mod_info == ordered(
                db.mods@,
                mod_order(),
            )[i] && all@[i].webhook_ids@ == assigned_to_row(
                db.assignments@,
                all@[i].mod_info.id,
            ),
{
    crate::mods::get_all_mods(db)
}

/// The webhooks in the order of their names.
pub fn get_webhooks(db: &Database) -> (all: Vec<Webhook>)
    ensures
        all@ == ordered(db.webhooks@, webhook_order()),
{
    crate::webhooks::get_all_webhooks(db)
}

/// The webhooks assigned to a mod, in the order of their names.
pub fn get_mod_assigned_webhooks(db: &Database, mod_id: i64) -> (assigned: Vec<Webhook>)
    ensures
        assigned@ == ordered(
            db.webhooks@.filter(serves_mod(db.assignments@, mod_id)),
            webhook_order(),
        ),
{
    crate::webhooks::get_mod_webhooks(db, mod_id)
}

/// Tells whether a mod of the platform can still be added: a mod that is
/// among the mods already is refused before anything is fetched.
pub fn check_not_added(db: &Database, curseforge_id: i64) -> (r: Result<(), TrackerError>)
    ensures
        match r {
            Ok(_) => !tracks_platform_id(db.mods@, curseforge_id),
            Err(e) => tracks_platform_id(db.mods@, curseforge_id) && e@ == failure(
                ErrorKind::Validation,
                "A mod with this CurseForge ID already exists."@,
            ),
        },
{
    if crate::mods::has_platform_id(db, curseforge_id) {
        Err(validation_error("A mod with this CurseForge ID already exists."))
    } else {
        Ok(())
    }
}

/// The error for a mod that the platform did not hand out: not found for
/// the status 404, and the status in words for any other.
pub open spec fn mod_fetch_fault(status: u16, status_text: Seq<char>) -> ErrorView {
    if status == 404 {
        failure(ErrorKind::UpstreamApi, "Mod not found on CurseForge."@)
    } else {
        failure(ErrorKind::UpstreamApi, "Failed to fetch mod from CurseForge: "@ + status_text)
    }
}

/// The error for a mod that the platform did not hand out when it was to be
/// added.
pub fn mod_fetch_failure(status: u16, status_text: &str) -> (e: TrackerError)
    ensures
        e@ == mod_fetch_fault(status, status_text@),
{
    if status == 404 {
        TrackerError::new(ErrorKind::UpstreamApi, "Mod not found on CurseForge.")
    } else {
        upstream_failure("Failed to fetch mod from CurseForge: ", status_text)
    }
}

/// An error of the platform: what failed, and the status in words.
pub fn upstream_failure(what: &str, status_text: &str) -> (e: TrackerError)
    ensures
        e@ == failure(ErrorKind::UpstreamApi, what@ + status_text@),
{
    let mut out: Vec<char> = Vec::new();
    push_str(&mut out, what);
    push_str(&mut out, status_text);
    TrackerError { kind: ErrorKind::UpstreamApi, message: from_chars(&out) }
}

/// The event that a mod was added.
pub open spec fn mod_added_event(
    id: i64,
    curseforge_id: i64,
    fetched: CurseForgeModData,
    game_name: Seq<char>,
    now: i64,
) -> ActivityView {
    event(
        "mod_added"@,
        Some(id),
        Some(fetched.name@),
        naming("Added mod "@, fetched.name@, ""@),
        now,
        addition_metadata(
            game_name,
            curseforge_id,
            fetched.date_released@,
            match fetched.links.website_url {
                Some(url) => url@,
                None => ""@,
            },
        ),
    )
}

/// The row of a mod that was added from what the platform reports.
pub open spec fn is_added_mod(
    row: Mod,
    id: i64,
    curseforge_id: i64,
    fetched: CurseForgeModData,
    game_name: Seq<char>,
) -> bool {
    &&& row.id == Some(id)
    &&& row.curseforge_id == curseforge_id
    &&& row.name@ == fetched.name@
    &&& row.game_name@ == game_name
    &&& row.last_updated@ == fetched.date_released@
}

/// Why a mod cannot be added, if anything stands against it.
pub open spec fn add_mod_fault(db: Database, curseforge_id: i64) -> Option<ErrorView> {
    if tracks_platform_id(db.mods@, curseforge_id) {
        Some(failure(ErrorKind::Validation, "A mod with this CurseForge ID already exists."@))
    } else if db.last_mod_id == i64::MAX {
        Some(failure(ErrorKind::Database, "mod ids are exhausted"@))
    } else if !can_log(db) {
        Some(log_is_full())
    } else {
        None
    }
}

/// Starts tracking a mod, given what the platform reports of it and the
/// name of its game, and logs the addition. A mod that is tracked already is
/// rejected and nothing changes.
pub fn add_mod(
    db: &mut Database,
    curseforge_id: i64,
    fetched: &CurseForgeModData,
    game_name: &str,
    now: i64,
) -> (r: Result<ModWithWebhooks, TrackerError>)
    requires
        old(db).well_formed(),
    ensures
        final(db).well_formed(),
        match r {
            Err(e) => add_mod_fault(*old(db), curseforge_id) == Some(e@) && *final(db) == *old(db),
            Ok(added) => {
                let id = (old(db).last_mod_id + 1) as i64;
                &&& add_mod_fault(*old(db), curseforge_id) is None
                &&& is_added_mod(added.mod_info, id, curseforge_id, *fetched, game_name@)
                &&& added.webhook_ids@.len() == 0
                &&& *final(db) == (Database {
                    mods: final(db).mods,
                    last_mod_id: id,
                    activities: final(db).activities,
                    last_activity_id: (old(db).last_activity_id + 1) as i64,
                    ..*old(db)
                })
                &&& final(db).mods@ == old(db).mods@.push(added.mod_info)
                &&& logged_with(
                    old(db).activities@,
                    final(db).activities@,
                    with_id(
                        mod_added_event(id, curseforge_id, *fetched, game_name@, now),
                        final(db).last_activity_id,
                    ),
                )
            },
        },
{
    if crate::mods::has_platform_id(db, curseforge_id) {
        return Err(validation_error("A mod with this CurseForge ID already exists."));
    }
    if db.last_mod_id == i64::MAX {
        return Err(database_error("mod ids are exhausted"));
    }
    if db.last_activity_id == i64::MAX {
        return Err(log_full());
    }
    let row = Mod {
        id: None,
        curseforge_id,
        name: fetched.name.clone(),
        game_name: String::from_str(game_name),
        last_updated: fetched.date_released.clone(),
    };
    let mut stored = clone_mod(&row);
    let id: i64 = match insert_mod(db, row) {
        Ok(id) => id,
        Err(e) => {
            return Err(e);
        },
    };
    stored.id = Some(id);
    let page_url: String = match &fetched.links.website_url {
        Some(url) => url.clone(),
        None => String::from_str(""),
    };
    let entry = new_event(
        "mod_added",
        Some(id),
        Some(fetched.name.as_str()),
        name_in("Added mod ", fetched.name.as_str(), ""),
        now,
        write_addition_metadata(
            game_name,
            curseforge_id,
            fetched.date_released.as_str(),
            page_url.as_str(),
        ),
    );
    log_event(db, entry);
    Ok(ModWithWebhooks { mod_info: stored, webhook_ids: Vec::new() })
}

/// The event that a mod was removed.
pub open spec fn mod_removed_event(removed: Mod, mod_id: i64, now: i64) -> ActivityView {
    event(
        "mod_removed"@,
        None,
        Some(removed.name@),
        naming("Removed mod "@, removed.name@, ""@),
        now,
        removal_metadata(removed.game_name@, mod_id),
    )
}

/// Why a mod cannot be removed, if anything stands against it.
pub open spec fn delete_mod_fault(db: Database, mod_id: i64) -> Option<ErrorView> {
    if mod_with_id(db.mods@, mod_id) is None {
        Some(failure(ErrorKind::Validation, "Mod not found"@))
    } else if !can_log(db) {
        Some(log_is_full())
    } else {
        None
    }
}

/// Stops tracking a mod and logs the removal. The mod's assignments leave
/// with it, and the entries of the log that refer to it lose the reference
/// and stay. All of this happens, or none of it: a mod that is not tracked
/// is an error and nothing changes.
pub fn delete_mod(db: &mut Database, mod_id: i64, now: i64) -> (r: Result<(), TrackerError>)
    requires
        old(db).well_formed(),
    ensures
        final(db).well_formed(),
        match r {
            Err(e) => delete_mod_fault(*old(db), mod_id) == Some(e@) && *final(db) == *old(db),
            Ok(_) => {
                &&& delete_mod_fault(*old(db), mod_id) is None
                &&& *final(db) == (Database {
                    mods: final(db).mods,
                    assignments: final(db).assignments,
                    activities: final(db).activities,
                    last_activity_id: (old(db).last_activity_id + 1) as i64,
                    ..*old(db)
                })
                &&& final(db).assignments@ == old(db).assignments@.filter(not_of_mod(mod_id))
                &&& final(db).mods@ == old(db).mods@.filter(other_mod(mod_id))
                &&& logged_with(
                    unlinked_log(old(db).activities@, mod_id),
                    final(db).activities@,
                    with_id(
                        mod_removed_event(mod_with_id(old(db).mods@, mod_id)->0, mod_id, now),
                        final(db).last_activity_id,
                    ),
                )
            },
        },
{
    let place = match find_mod(db, mod_id) {
        Some(place) => place,
        None => {
            return Err(validation_error("Mod not found"));
        },
    };
    if db.last_activity_id == i64::MAX {
        return Err(log_full());
    }
    let entry = new_event(
        "mod_removed",
        None,
        Some(db.mods[place].name.as_str()),
        name_in("Removed mod ", db.mods[place].name.as_str(), ""),
        now,
        write_removal_metadata(db.mods[place].game_name.as_str(), mod_id),
    );
    crate::mods::delete_mod(db, mod_id);
    log_event(db, entry);
    Ok(())
}

/// The event that a webhook was assigned to a mod or taken from it.
pub open spec fn assignment_event(
    kind: Seq<char>,
    description: Seq<char>,
    mod_id: i64,
    assigned: Mod,
    webhook_id: i64,
    webhook: Webhook,
    now: i64,
) -> ActivityView {
    event(
        kind,
        Some(mod_id),
        Some(assigned.name@),
        description,
        now,
        assignment_metadata(webhook_id, webhook.name@),
    )
}

/// Why an assignment cannot be changed, if anything stands against it.
pub open spec fn assignment_fault(db: Database, mod_id: i64, webhook_id: i64) -> Option<ErrorView> {
    if mod_with_id(db.mods@, mod_id) is None || webhook_with_id(db.webhooks@, webhook_id) is None {
        Some(no_rows())
    } else if !can_log(db) {
        Some(log_is_full())
    } else {
        None
    }
}

/// Assigns a webhook to a mod and logs the assignment. Assigning twice
/// leaves one assignment. A mod or a webhook that does not exist is an error
/// and nothing changes.
pub fn assign_webhook(db: &mut Database, mod_id: i64, webhook_id: i64, now: i64) -> (r: Result<
    (),
    TrackerError,
>)
    requires
        old(db).well_formed(),
    ensures
        final(db).well_formed(),
        match r {
            Err(e) => assignment_fault(*old(db), mod_id, webhook_id) == Some(e@) && *final(db)
                == *old(db),
            Ok(_) => {
                let assigned = mod_with_id(old(db).mods@, mod_id)->0;
                let webhook = webhook_with_id(old(db).webhooks@, webhook_id)->0;
                &&& assignment_fault(*old(db), mod_id, webhook_id) is None
                &&& *final(db) == (Database {
                    assignments: final(db).assignments,
                    activities: final(db).activities,
                    last_activity_id: (old(db).last_activity_id + 1) as i64,
                    ..*old(db)
                })
                &&& final(db).assignments@ == with_assignment(
                    old(db).assignments@,
                    mod_id,
                    webhook_id,
                )
                &&& logged_with(
                    old(db).activities@,
                    final(db).activities@,
                    with_id(
                        assignment_event(
                            "webhook_assigned"@,
                            naming_two(
                                "Assigned webhook "@,
                                webhook.name@,
                                " to mod "@,
                                assigned.name@,
                            ),
                            mod_id,
                            assigned,
                            webhook_id,
                            webhook,
                            now,
                        ),
                        final(db).last_activity_id,
                    ),
                )
            },
        },
{
    let mod_place = match find_mod(db, mod_id) {
        Some(place) => place,
        None => {
            return Err(no_rows_error());
        },
    };
    let webhook_place = match find_webhook(db, Some(webhook_id)) {
        Some(place) => place,
        None => {
            return Err(no_rows_error());
        },
    };
    if db.last_activity_id == i64::MAX {
        return Err(log_full());
    }
    let entry = new_event(
        "webhook_assigned",
        Some(mod_id),
        Some(db.mods[mod_place].name.as_str()),
        names_in(
            "Assigned webhook ",
            db.webhooks[webhook_place].name.as_str(),
            " to mod ",
            db.mods[mod_place].name.as_str(),
        ),
        now,
        write_assignment_metadata(webhook_id, db.webhooks[webhook_place].name.as_str()),
    );
    assign_webhook_to_mod(db, mod_id, webhook_id);
    log_event(db, entry);
    Ok(())
}

/// Takes a webhook's assignment to a mod away and logs it. Where there was
/// no assignment, none is there afterwards either. A mod or a webhook that
/// does not exist is an error and nothing changes.
pub fn remove_webhook_assignment(db: &mut Database, mod_id: i64, webhook_id: i64, now: i64) -> (r:
    Result<(), TrackerError>)
    requires
        old(db).well_formed(),
    ensures
        final(db).well_formed(),
        match r {
            Err(e) => assignment_fault(*old(db), mod_id, webhook_id) == Some(e@) && *final(db)
                == *old(db),
            Ok(_) => {
                let assigned = mod_with_id(old(db).mods@, mod_id)->0;
                let webhook = webhook_with_id(old(db).webhooks@, webhook_id)->0;
                &&& assignment_fault(*old(db), mod_id, webhook_id) is None
                &&& *final(db) == (Database {
                    assignments: final(db).assignments,
                    activities: final(db).activities,
                    last_activity_id: (old(db).last_activity_id + 1) as i64,
                    ..*old(db)
                })
                &&& final(db).assignments@ == without_assignment(
                    old(db).assignments@,
                    mod_id,
                    webhook_id,
                )
                &&& logged_with(
                    old(db).activities@,
                    final(db).activities@,
                    with_id(
                        assignment_event(
                            "webhook_unassigned"@,
                            naming_two(
                                "Removed webhook "@,
                                webhook.name@,
                                " from mod "@,
                                assigned.name@,
                            ),
                            mod_id,
                            assigned,
                            webhook_id,
                            webhook,
                            now,
                        ),
                        final(db).last_activity_id,
                    ),
                )
            },
        },
{
    let mod_place = match find_mod(db, mod_id) {
        Some(place) => place,
        None => {
            return Err(no_rows_error());
        },
    };
    let webhook_place = match find_webhook(db, Some(webhook_id)) {
        Some(place) => place,
        None => {
            return Err(no_rows_error());
        },
    };
    if db.last_activity_id == i64::MAX {
        return Err(log_full());
    }
    let entry = new_event(
        "webhook_unassigned",
        Some(mod_id),
        Some(db.mods[mod_place].name.as_str()),
        names_in(
            "Removed webhook ",
            db.webhooks[webhook_place].name.as_str(),
            " from mod ",
            db.mods[mod_place].name.as_str(),
        ),
        now,
        write_assignment_metadata(webhook_id, db.webhooks[webhook_place].name.as_str()),
    );
    remove_webhook_from_mod(db, mod_id, webhook_id);
    log_event(db, entry);
    Ok(())
}

/// The event that something happened to a webhook.
pub open spec fn webhook_event(
    kind: Seq<char>,
    verb: Seq<char>,
    name: Seq<char>,
    id: Option<i64>,
    now: i64,
) -> ActivityView {
    event(kind, None, None, naming(verb, name, ""@), now, webhook_metadata(name, id))
}

fn new_webhook_event(kind: &str, verb: &str, name: &str, id: Option<i64>, now: i64) -> (entry:
    Activity)
    ensures
        entry@ == webhook_event(kind@, verb@, name@, id, now),
{
    new_event(kind, None, None, name_in(verb, name, ""), now, write_webhook_metadata(name, id))
}

/// Why a webhook cannot be added, if anything stands against it.
pub open spec fn add_webhook_fault(db: Database, webhook: Webhook) -> Option<ErrorView> {
    if name_taken(db.webhooks@, webhook.name@, None) {
        Some(failure(ErrorKind::Validation, "A webhook with this name already exists"@))
    } else if db.last_webhook_id == i64::MAX {
        Some(failure(ErrorKind::Database, "webhook ids are exhausted"@))
    } else if !can_log(db) {
        Some(log_is_full())
    } else {
        None
    }
}

/// Adds a webhook and logs the addition. A name that another webhook has,
/// whatever the case of its ASCII letters, is rejected and nothing changes.
pub fn add_webhook(db: &mut Database, webhook: Webhook, now: i64) -> (r: Result<Webhook, TrackerError>)
    requires
        old(db).well_formed(),
    ensures
        final(db).well_formed(),
        match r {
            Err(e) => add_webhook_fault(*old(db), webhook) == Some(e@) && *final(db) == *old(db),
            Ok(added) => {
                let id = (old(db).last_webhook_id + 1) as i64;
                &&& add_webhook_fault(*old(db), webhook) is None
                &&& added == webhook_stored_as(webhook, id)
                &&& *final(db) == (Database {
                    webhooks: final(db).webhooks,
                    last_webhook_id: id,
                    activities: final(db).activities,
                    last_activity_id: (old(db).last_activity_id + 1) as i64,
                    ..*old(db)
                })
                &&& final(db).webhooks@ == old(db).webhooks@.push(added)
                &&& logged_with(
                    old(db).activities@,
                    final(db).activities@,
                    with_id(
                        webhook_event(
                            "webhook_added"@,
                            "Added webhook "@,
                            webhook.name@,
                            Some(id),
                            now,
                        ),
                        final(db).last_activity_id,
                    ),
                )
            },
        },
{
    if crate::webhooks::webhook_name_exists(db, webhook.name.as_str(), None) {
        return Err(validation_error("A webhook with this name already exists"));
    }
    if db.last_webhook_id == i64::MAX {
        return Err(database_error("webhook ids are exhausted"));
    }
    if db.last_activity_id == i64::MAX {
        return Err(log_full());
    }
    let mut added = crate::records::clone_webhook(&webhook);
    let id: i64 = db.last_webhook_id + 1;
    let entry = new_webhook_event("webhook_added", "Added webhook ", webhook.name.as_str(), Some(id), now);
    match insert_webhook(db, webhook) {
        Ok(_) => {},
        Err(e) => {
            return Err(e);
        },
    }
    added.id = Some(id);
    log_event(db, entry);
    Ok(added)
}

/// Why a webhook cannot be replaced, if anything stands against it.
pub open spec fn update_webhook_fault(db: Database, webhook: Webhook) -> Option<ErrorView> {
    if name_taken(db.webhooks@, webhook.name@, webhook.id) {
        Some(failure(ErrorKind::Validation, "A webhook with this name already exists"@))
    } else if !can_log(db) {
        Some(log_is_full())
    } else {
        None
    }
}

/// Replaces the webhook that has the given webhook's id and logs the
/// update. A name that another webhook has is rejected and nothing changes.
pub fn update_webhook(db: &mut Database, webhook: Webhook, now: i64) -> (r: Result<(), TrackerError>)
    requires
        old(db).well_formed(),
    ensures
        final(db).well_formed(),
        match r {
            Err(e) => update_webhook_fault(*old(db), webhook) == Some(e@) && *final(db) == *old(db),
            Ok(_) => {
                &&& update_webhook_fault(*old(db), webhook) is None
                &&& *final(db) == (Database {
                    webhooks: final(db).webhooks,
                    activities: final(db).activities,
                    last_activity_id: (old(db).last_activity_id + 1) as i64,
                    ..*old(db)
                })
                &&& final(db).webhooks@ == webhook_replaced(old(db).webhooks@, webhook)
                &&& logged_with(
                    old(db).activities@,
                    final(db).activities@,
                    with_id(
                        webhook_event(
                            "webhook_updated"@,
                            "Updated webhook "@,
                            webhook.name@,
                            webhook.id,
                            now,
                        ),
                        final(db).last_activity_id,
                    ),
                )
            },
        },
{
    if crate::webhooks::webhook_name_exists(db, webhook.name.as_str(), webhook.id) {
        return Err(validation_error("A webhook with this name already exists"));
    }
    if db.last_activity_id == i64::MAX {
        return Err(log_full());
    }
    let entry = new_webhook_event(
        "webhook_updated",
        "Updated webhook ",
        webhook.name.as_str(),
        webhook.id,
        now,
    );
    match crate::webhooks::update_webhook(db, webhook) {
        Ok(_) => {},
        Err(e) => {
            return Err(e);
        },
    }
    log_event(db, entry);
    Ok(())
}

/// Why a webhook cannot be removed, if anything stands against it.
pub open spec fn delete_webhook_fault(db: Database, webhook_id: i64) -> Option<ErrorView> {
    if webhook_with_id(db.webhooks@, webhook_id) is None {
        Some(no_rows())
    } else if !can_log(db) {
        Some(log_is_full())
    } else {
        None
    }
}

/// Removes a webhook and logs the removal. Its assignments and its custom
/// template leave with it. All of this happens, or none of it: a webhook
/// that does not exist is an error and nothing changes.
pub fn delete_webhook(db: &mut Database, webhook_id: i64, now: i64) -> (r: Result<(), TrackerError>)
    requires
        old(db).well_formed(),
    ensures
        final(db).well_formed(),
        match r {
            Err(e) => delete_webhook_fault(*old(db), webhook_id) == Some(e@) && *final(db) == *old(
                db,
            ),
            Ok(_) => {
                &&& delete_webhook_fault(*old(db), webhook_id) is None
                &&& *final(db) == (Database {
                    webhooks: final(db).webhooks,
                    assignments: final(db).assignments,
                    custom_templates: final(db).custom_templates,
                    activities: final(db).activities,
                    last_activity_id: (old(db).last_activity_id + 1) as i64,
                    ..*old(db)
                })
                &&& final(db).assignments@ == old(db).assignments@.filter(
                    not_of_webhook(webhook_id),
                )
                &&& final(db).custom_templates@ == old(db).custom_templates@.filter(
                    template_of_other(webhook_id),
                )
                &&& final(db).webhooks@ == old(db).webhooks@.filter(other_webhook(webhook_id))
                &&& logged_with(
                    old(db).activities@,
                    final(db).activities@,
                    with_id(
                        webhook_event(
                            "webhook_removed"@,
                            "Removed webhook "@,
                            webhook_with_id(old(db).webhooks@, webhook_id)->0.name@,
                            Some(webhook_id),
                            now,
                        ),
                        final(db).last_activity_id,
                    ),
                )
            },
        },
{
    let place = match find_webhook(db, Some(webhook_id)) {
        Some(place) => place,
        None => {
            return Err(no_rows_error());
        },
    };
    if db.last_activity_id == i64::MAX {
        return Err(log_full());
    }
    let entry = new_webhook_event(
        "webhook_removed",
        "Removed webhook ",
        db.webhooks[place].name.as_str(),
        Some(webhook_id),
        now,
    );
    crate::webhooks::delete_webhook(db, webhook_id);
    log_event(db, entry);
    Ok(())
}

/// What the chat service said where it refused a message: the body of its
/// answer, or a stock text where the body could not be read.
pub open spec fn refusal_text(status: u16, body: Option<String>) -> Option<Seq<char>> {
    if is_success(status) {
        None
    } else {
        match body {
            Some(text) => Some(text@),
            None => Some("Unknown error"@),
        }
    }
}

/// The error of a refused message.
pub open spec fn delivery_fault(refusal: Seq<char>) -> ErrorView {
    failure(ErrorKind::Delivery, "Discord API error: "@ + refusal)
}

fn delivery_failure(refusal: &str) -> (e: TrackerError)
    ensures
        e@ == delivery_fault(refusal@),
{
    let mut out: Vec<char> = Vec::new();
    push_str(&mut out, "Discord API error: ");
    push_str(&mut out, refusal);
    TrackerError { kind: ErrorKind::Delivery, message: from_chars(&out) }
}

fn refusal(status: u16, body: Option<String>) -> (text: Option<String>)
    ensures
        text_of(text) == refusal_text(status, body),
{
    if status_is_success(status) {
        None
    } else {
        match body {
            Some(text) => Some(text),
            None => Some(String::from_str("Unknown error")),
        }
    }
}

/// What the answer to a test message means: success for a status from 200
/// to 299, and an error with the body of the answer for any other.
pub fn test_webhook(status: u16, body: Option<String>) -> (r: Result<bool, TrackerError>)
    ensures
        match r {
            Ok(sent) => sent && is_success(status),
            Err(e) => refusal_text(status, body) is Some && e@ == delivery_fault(
                refusal_text(status, body)->0,
            ),
        },
{
    match refusal(status, body) {
        None => Ok(true),
        Some(text) => Err(delivery_failure(text.as_str())),
    }
}

/// The event that a notification was sent, or that sending it failed.
pub open spec fn delivery_event(
    webhook: Webhook,
    mod_id: i64,
    mod_name: Seq<char>,
    status: u16,
    body: Option<String>,
    now: i64,
) -> ActivityView {
    event(
        if is_success(status) {
            "notification_sent"@
        } else {
            "webhook_error"@
        },
        Some(mod_id),
        Some(mod_name),
        naming_two(
            if is_success(status) {
                "Sent update notification for "@
            } else {
                "Failed to send update notification for "@
            },
            mod_name,
            " to webhook "@,
            webhook.name@,
        ),
        now,
        delivery_metadata(webhook.name@, webhook.id, refusal_text(status, body)),
    )
}

/// Records what became of a notification that was posted to a webhook, given
/// the status and the body of the answer. The attempt is logged whether it
/// succeeded or not; a refused notification is an error as well.
pub fn send_update_notification(
    db: &mut Database,
    webhook: &Webhook,
    mod_id: i64,
    mod_name: &str,
    status: u16,
    body: Option<String>,
    now: i64,
) -> (r: Result<bool, TrackerError>)
    requires
        old(db).well_formed(),
    ensures
        final(db).well_formed(),
        final(db).same_but_log(old(db)),
        if !can_log(*old(db)) {
            &&& (r matches Err(e) && e@ == log_is_full())
            &&& *final(db) == *old(db)
        } else {
            &&& final(db).last_activity_id == old(db).last_activity_id + 1
            &&& logged_with(
                old(db).activities@,
                final(db).activities@,
                with_id(
                    delivery_event(*webhook, mod_id, mod_name@, status, body, now),
                    final(db).last_activity_id,
                ),
            )
            &&& match r {
                Ok(sent) => sent && is_success(status),
                Err(e) => !is_success(status) && e@ == delivery_fault(
                    refusal_text(status, body)->0,
                ),
            }
        },
{
    if db.last_activity_id == i64::MAX {
        return Err(log_full());
    }
    let sent = status_is_success(status);
    let error_text = refusal(status, body);
    let description = if sent {
        names_in("Sent update notification for ", mod_name, " to webhook ", webhook.name.as_str())
    } else {
        names_in(
            "Failed to send update notification for ",
            mod_name,
            " to webhook ",
            webhook.name.as_str(),
        )
    };
    let entry = new_event(
        if sent {
            "notification_sent"
        } else {
            "webhook_error"
        },
        Some(mod_id),
        Some(mod_name),
        description,
        now,
        write_delivery_metadata(webhook.name.as_str(), webhook.id, &error_text),
    );
    log_event(db, entry);
    match error_text {
        None => Ok(true),
        Some(text) => Err(delivery_failure(text.as_str())),
    }
}

} // verus!
