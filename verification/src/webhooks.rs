//! The registry of webhooks: the targets of notifications, with names that
//! are unique whatever the case of their ASCII letters.

use crate::database::{
    any_assignment, assignments_apart, database_error, is_custom, templates_apart,
    validation_error, webhook_has_id, webhooks_apart, Database,
};
use crate::mods::is_assigned;
use crate::ordering::{ordered, webhook_order, webhooks_by_name};
use crate::records::{clone_webhook, ErrorKind, TrackerError, Webhook};
use crate::tables::{lemma_filter_keeps, lemma_push_keeps};
use crate::template::{clone_template, WebhookTemplate};
use crate::text::{eq_ignoring_case, same_ignoring_case};
use vstd::prelude::*;

verus! {

/// A webhook other than the excluded one has the name, the case of ASCII
/// letters ignored.
pub open spec fn name_taken(webhooks: Seq<Webhook>, name: Seq<char>, exclude_id: Option<i64>) -> bool {
    exists|i: int|
        0 <= i < webhooks.len() && same_ignoring_case((#[trigger] webhooks[i]).name@, name) && (
        exclude_id is None || webhooks[i].id != exclude_id)
}

/// An assignment belongs to another webhook.
pub open spec fn not_of_webhook(webhook_id: i64) -> spec_fn((i64, i64)) -> bool {
    |p: (i64, i64)| p.1 != webhook_id
}

/// A template belongs to another webhook.
pub open spec fn template_of_other(webhook_id: i64) -> spec_fn(WebhookTemplate) -> bool {
    |t: WebhookTemplate| t.webhook_id != Some(webhook_id)
}

/// A webhook has another id.
pub open spec fn other_webhook(webhook_id: i64) -> spec_fn(Webhook) -> bool {
    |w: Webhook| w.id != Some(webhook_id)
}

/// A webhook is assigned to the mod.
pub open spec fn serves_mod(assignments: Seq<(i64, i64)>, mod_id: i64) -> spec_fn(Webhook) -> bool {
    |w: Webhook| w.id is Some && is_assigned(assignments, mod_id, w.id->0)
}

/// The place of the first webhook from `from` on that has the id, or the
/// number of webhooks.
pub open spec fn webhook_place_from(webhooks: Seq<Webhook>, id: Option<i64>, from: int) -> int
    decreases webhooks.len() - from,
{
    if from < 0 || from >= webhooks.len() {
        webhooks.len() as int
    } else if id is Some && webhooks[from].id == id {
        from
    } else {
        webhook_place_from(webhooks, id, from + 1)
    }
}

/// The webhook with the id, if there is one.
pub open spec fn webhook_with_id(webhooks: Seq<Webhook>, webhook_id: i64) -> Option<Webhook> {
    let place = webhook_place_from(webhooks, Some(webhook_id), 0);
    if 0 <= place < webhooks.len() {
        Some(webhooks[place])
    } else {
        None
    }
}

/// The webhooks after one is replaced by a webhook with the same id; the
/// same webhooks where none has the id.
pub open spec fn webhook_replaced(webhooks: Seq<Webhook>, webhook: Webhook) -> Seq<Webhook> {
    let place = webhook_place_from(webhooks, webhook.id, 0);
    if 0 <= place < webhooks.len() {
        webhooks.update(place, webhook)
    } else {
        webhooks
    }
}

/// The webhook as the table stores it under an id.
pub open spec fn webhook_stored_as(webhook: Webhook, id: i64) -> Webhook {
    Webhook { id: Some(id), ..webhook }
}

/// The webhooks with the mark of a custom template set on the one with the
/// id.
pub open spec fn custom_marked(webhooks: Seq<Webhook>, webhook_id: i64, mark: bool) -> Seq<Webhook> {
    Seq::new(
        webhooks.len(),
        |i: int|
            if webhooks[i].id == Some(webhook_id) {
                Webhook { use_custom_template: mark, ..webhooks[i] }
            } else {
                webhooks[i]
            },
    )
}

/// Ignoring case is symmetric.
pub proof fn lemma_same_ignoring_case_symmetric(a: Seq<char>, b: Seq<char>)
    ensures
        same_ignoring_case(a, b) == same_ignoring_case(b, a),
{
    if same_ignoring_case(a, b) {
        assert forall|i: int| 0 <= i < b.len() implies crate::text::lower_code(#[trigger] b[i])
            == crate::text::lower_code(a[i]) by {
            assert(crate::text::lower_code(a[i]) == crate::text::lower_code(b[i]));
        }
    }
    if same_ignoring_case(b, a) {
        assert forall|i: int| 0 <= i < a.len() implies crate::text::lower_code(#[trigger] a[i])
            == crate::text::lower_code(b[i]) by {
            assert(crate::text::lower_code(b[i]) == crate::text::lower_code(a[i]));
        }
    }
}

/// Whether a webhook has the name, the case of ASCII letters ignored. With
/// an id to exclude, the webhook with that id does not count.
pub fn webhook_name_exists(db: &Database, name: &str, exclude_id: Option<i64>) -> (taken: bool)
    ensures
        taken == name_taken(db.webhooks@, name@, exclude_id),
{
    let mut i: usize = 0;
    while i < db.webhooks.len()
        invariant
            i <= db.webhooks.len(),
            forall|j: int|
                0 <= j < i ==> !(same_ignoring_case((#[trigger] db.webhooks@[j]).name@, name@) && (
                exclude_id is None || db.webhooks@[j].id != exclude_id)),
        decreases db.webhooks.len() - i,
    {
        if eq_ignoring_case(db.webhooks[i].name.as_str(), name) {
            let counts: bool = match exclude_id {
                None => true,
                Some(excluded) => match db.webhooks[i].id {
                    Some(id) => id != excluded,
                    None => true,
                },
            };
            if counts {
                return true;
            }
        }
        i += 1;
    }
    false
}

/// The place of the webhook with the id among the webhooks.
pub fn find_webhook(db: &Database, id: Option<i64>) -> (place: Option<usize>)
    ensures
        match place {
            Some(i) => i < db.webhooks@.len() && webhook_place_from(db.webhooks@, id, 0) == i
                && id is Some && db.webhooks@[i as int].id == id,
            None => webhook_place_from(db.webhooks@, id, 0) == db.webhooks@.len() && forall|j: int|
                0 <= j < db.webhooks@.len() ==> id is None || (#[trigger] db.webhooks@[j]).id != id,
        },
{
    let wanted: i64 = match id {
        Some(wanted) => wanted,
        None => {
            proof {
                lemma_no_place(db.webhooks@, 0);
            }
            return None;
        },
    };
    let mut i: usize = 0;
    while i < db.webhooks.len()
        invariant
            i <= db.webhooks.len(),
            id == Some(wanted),
            webhook_place_from(db.webhooks@, id, 0) == webhook_place_from(db.webhooks@, id, i as int),
            forall|j: int| 0 <= j < i ==> (#[trigger] db.webhooks@[j]).id != id,
        decreases db.webhooks.len() - i,
    {
        match db.webhooks[i].id {
            Some(found) => {
                if found == wanted {
                    return Some(i);
                }
            },
            None => {},
        }
        i += 1;
    }
    None
}

proof fn lemma_no_place(webhooks: Seq<Webhook>, from: int)
    requires
        0 <= from <= webhooks.len(),
    ensures
        webhook_place_from(webhooks, None, from) == webhooks.len(),
    decreases webhooks.len() - from,
{
    if from < webhooks.len() {
        lemma_no_place(webhooks, from + 1);
    }
}

/// Adds a webhook and returns its id. A webhook whose name another one has,
/// the case of ASCII letters ignored, is rejected, and nothing changes.
pub fn insert_webhook(db: &mut Database, webhook: Webhook) -> (r: Result<i64, TrackerError>)
    requires
        old(db).well_formed(),
    ensures
        final(db).well_formed(),
        match r {
            Ok(id) => {
                &&& !name_taken(old(db).webhooks@, webhook.name@, None)
                &&& old(db).last_webhook_id < i64::MAX
                &&& id == old(db).last_webhook_id + 1
                &&& *final(db) == (Database {
                    webhooks: final(db).webhooks,
                    last_webhook_id: id,
                    ..*old(db)
                })
                &&& final(db).webhooks@ == old(db).webhooks@.push(webhook_stored_as(webhook, id))
            },
            Err(e) => {
                &&& *final(db) == *old(db)
                &&& if name_taken(old(db).webhooks@, webhook.name@, None) {
                    e.says(ErrorKind::Validation, "A webhook with this name already exists"@)
                } else {
                    old(db).last_webhook_id == i64::MAX && e.says(
                        ErrorKind::Database,
                        "webhook ids are exhausted"@,
                    )
                }
            },
        },
{
    if webhook_name_exists(db, webhook.name.as_str(), None) {
        return Err(validation_error("A webhook with this name already exists"));
    }
    if db.last_webhook_id == i64::MAX {
        return Err(database_error("webhook ids are exhausted"));
    }
    let id: i64 = db.last_webhook_id + 1;
    let mut row = webhook;
    row.id = Some(id);
    proof {
        let rows = db.webhooks@;
        assert forall|i: int| 0 <= i < rows.len() implies webhook_has_id(id)(#[trigger] rows[i]) by {
            assert(webhook_has_id(db.last_webhook_id)(rows[i]));
        }
        assert forall|i: int| 0 <= i < rows.len() implies webhooks_apart()(
            #[trigger] rows[i],
            row,
        ) by {
            assert(webhook_has_id(db.last_webhook_id)(rows[i]));
        }
        lemma_push_keeps(rows, row, webhook_has_id(id), webhooks_apart());
    }
    db.webhooks.push(row);
    db.last_webhook_id = id;
    Ok(id)
}

/// The webhooks in the order of their names.
pub fn get_all_webhooks(db: &Database) -> (all: Vec<Webhook>)
    ensures
        all@ == ordered(db.webhooks@, webhook_order()),
{
    webhooks_by_name(&db.webhooks)
}

/// Replaces the webhook that has the given webhook's id. A name that another
/// webhook has, the case of ASCII letters ignored, is rejected, and nothing
/// changes. Where no webhook has the id, nothing changes either.
pub fn update_webhook(db: &mut Database, webhook: Webhook) -> (r: Result<(), TrackerError>)
    requires
        old(db).well_formed(),
    ensures
        final(db).well_formed(),
        match r {
            Ok(_) => {
                &&& !name_taken(old(db).webhooks@, webhook.name@, webhook.id)
                &&& *final(db) == (Database { webhooks: final(db).webhooks, ..*old(db) })
                &&& final(db).webhooks@ == webhook_replaced(old(db).webhooks@, webhook)
            },
            Err(e) => {
                &&& name_taken(old(db).webhooks@, webhook.name@, webhook.id)
                &&& e.says(ErrorKind::Validation, "A webhook with this name already exists"@)
                &&& *final(db) == *old(db)
            },
        },
{
    if webhook_name_exists(db, webhook.name.as_str(), webhook.id) {
        return Err(validation_error("A webhook with this name already exists"));
    }
    match find_webhook(db, webhook.id) {
        Some(place) => {
            let ghost before = db.webhooks@;
            proof {
                let after = before.update(place as int, webhook);
                assert forall|i: int| 0 <= i < after.len() implies webhook_has_id(
                    db.last_webhook_id,
                )(#[trigger] after[i]) by {
                    assert(webhook_has_id(db.last_webhook_id)(before[i]));
                }
                assert forall|i: int, j: int| 0 <= i < j < after.len() implies webhooks_apart()(
                    #[trigger] after[i],
                    #[trigger] after[j],
                ) by {
                    assert(webhooks_apart()(before[i], before[j]));
                    lemma_same_ignoring_case_symmetric(before[i].name@, webhook.name@);
                }
            }
            db.webhooks.set(place, webhook);
        },
        None => {},
    }
    Ok(())
}

fn assignments_without_webhook(assignments: &Vec<(i64, i64)>, webhook_id: i64) -> (kept: Vec<
    (i64, i64),
>)
    ensures
        kept@ == assignments@.filter(not_of_webhook(webhook_id)),
{
    let mut kept: Vec<(i64, i64)> = Vec::new();
    let mut i: usize = 0;
    while i < assignments.len()
        invariant
            i <= assignments.len(),
            kept@ == assignments@.take(i as int).filter(not_of_webhook(webhook_id)),
        decreases assignments.len() - i,
    {
        let pair = assignments[i];
        proof {
            assert(assignments@.take(i + 1) =~= assignments@.take(i as int).push(pair));
            assignments@.take(i as int).lemma_filter_push(pair, not_of_webhook(webhook_id));
        }
        if pair.1 != webhook_id {
            kept.push(pair);
        }
        i += 1;
    }
    assert(assignments@.take(assignments@.len() as int) =~= assignments@);
    kept
}

/// The custom templates without the one of a webhook.
pub fn templates_without(templates: &Vec<WebhookTemplate>, webhook_id: i64) -> (kept: Vec<
    WebhookTemplate,
>)
    ensures
        kept@ == templates@.filter(template_of_other(webhook_id)),
{
    let mut kept: Vec<WebhookTemplate> = Vec::new();
    let mut i: usize = 0;
    while i < templates.len()
        invariant
            i <= templates.len(),
            kept@ == templates@.take(i as int).filter(template_of_other(webhook_id)),
        decreases templates.len() - i,
    {
        proof {
            assert(templates@.take(i + 1) =~= templates@.take(i as int).push(templates@[i as int]));
            templates@.take(i as int).lemma_filter_push(
                templates@[i as int],
                template_of_other(webhook_id),
            );
        }
        let is_it: bool = match templates[i].webhook_id {
            Some(id) => id == webhook_id,
            None => false,
        };
        if !is_it {
            kept.push(clone_template(&templates[i]));
        }
        i += 1;
    }
    assert(templates@.take(templates@.len() as int) =~= templates@);
    kept
}

fn webhooks_without(webhooks: &Vec<Webhook>, webhook_id: i64) -> (kept: Vec<Webhook>)
    ensures
        kept@ == webhooks@.filter(other_webhook(webhook_id)),
{
    let mut kept: Vec<Webhook> = Vec::new();
    let mut i: usize = 0;
    while i < webhooks.len()
        invariant
            i <= webhooks.len(),
            kept@ == webhooks@.take(i as int).filter(other_webhook(webhook_id)),
        decreases webhooks.len() - i,
    {
        proof {
            assert(webhooks@.take(i + 1) =~= webhooks@.take(i as int).push(webhooks@[i as int]));
            webhooks@.take(i as int).lemma_filter_push(
                webhooks@[i as int],
                other_webhook(webhook_id),
            );
        }
        let is_it: bool = match webhooks[i].id {
            Some(id) => id == webhook_id,
            None => false,
        };
        if !is_it {
            kept.push(clone_webhook(&webhooks[i]));
        }
        i += 1;
    }
    assert(webhooks@.take(webhooks@.len() as int) =~= webhooks@);
    kept
}

/// Removes the webhook with the id: its assignments leave, its custom
/// template leaves, and the webhook's row leaves.
pub fn delete_webhook(db: &mut Database, webhook_id: i64)
    requires
        old(db).well_formed(),
    ensures
        final(db).well_formed(),
        *final(db) == (Database {
            webhooks: final(db).webhooks,
            assignments: final(db).assignments,
            custom_templates: final(db).custom_templates,
            ..*old(db)
        }),
        final(db).assignments@ == old(db).assignments@.filter(not_of_webhook(webhook_id)),
        final(db).custom_templates@ == old(db).custom_templates@.filter(
            template_of_other(webhook_id),
        ),
        final(db).webhooks@ == old(db).webhooks@.filter(other_webhook(webhook_id)),
{
    let assignments = assignments_without_webhook(&db.assignments, webhook_id);
    let templates = templates_without(&db.custom_templates, webhook_id);
    let webhooks = webhooks_without(&db.webhooks, webhook_id);
    proof {
        lemma_filter_keeps(
            db.assignments@,
            not_of_webhook(webhook_id),
            any_assignment(),
            assignments_apart(),
        );
        lemma_filter_keeps(
            db.custom_templates@,
            template_of_other(webhook_id),
            is_custom(),
            templates_apart(),
        );
        lemma_filter_keeps(
            db.webhooks@,
            other_webhook(webhook_id),
            webhook_has_id(db.last_webhook_id),
            webhooks_apart(),
        );
    }
    db.assignments = assignments;
    db.custom_templates = templates;
    db.webhooks = webhooks;
}

/// The webhooks assigned to a mod, in the order of their names.
pub fn get_mod_webhooks(db: &Database, mod_id: i64) -> (assigned: Vec<Webhook>)
    ensures
        assigned@ == ordered(
            db.webhooks@.filter(serves_mod(db.assignments@, mod_id)),
            webhook_order(),
        ),
{
    let mut assigned: Vec<Webhook> = Vec::new();
    let mut i: usize = 0;
    let ghost serves = serves_mod(db.assignments@, mod_id);
    while i < db.webhooks.len()
        invariant
            i <= db.webhooks.len(),
            serves == serves_mod(db.assignments@, mod_id),
            assigned@ == db.webhooks@.take(i as int).filter(serves),
        decreases db.webhooks.len() - i,
    {
        proof {
            assert(db.webhooks@.take(i + 1) =~= db.webhooks@.take(i as int).push(
                db.webhooks@[i as int],
            ));
            db.webhooks@.take(i as int).lemma_filter_push(db.webhooks@[i as int], serves);
        }
        let is_assigned: bool = match db.webhooks[i].id {
            Some(id) => crate::mods::has_assignment(db, mod_id, id),
            None => false,
        };
        if is_assigned {
            assigned.push(clone_webhook(&db.webhooks[i]));
        }
        i += 1;
    }
    assert(db.webhooks@.take(db.webhooks@.len() as int) =~= db.webhooks@);
    webhooks_by_name(&assigned)
}

/// Sets or clears the mark of a custom template on the webhook with the id.
pub fn mark_custom_template(db: &mut Database, webhook_id: i64, mark: bool)
    requires
        old(db).well_formed(),
    ensures
        final(db).well_formed(),
        *final(db) == (Database { webhooks: final(db).webhooks, ..*old(db) }),
        final(db).webhooks@ == custom_marked(old(db).webhooks@, webhook_id, mark),
{
    let ghost before = db.webhooks@;
    let mut marked: Vec<Webhook> = Vec::new();
    let mut i: usize = 0;
    while i < db.webhooks.len()
        invariant
            i <= db.webhooks.len(),
            db.webhooks@ == before,
            marked@.len() == i,
            forall|j: int| 0 <= j < i ==> marked@[j] == custom_marked(before, webhook_id, mark)[j],
        decreases db.webhooks.len() - i,
    {
        let mut row = clone_webhook(&db.webhooks[i]);
        let is_it: bool = match row.id {
            Some(id) => id == webhook_id,
            None => false,
        };
        if is_it {
            row.use_custom_template = mark;
        }
        marked.push(row);
        i += 1;
    }
    proof {
        let after = custom_marked(before, webhook_id, mark);
        assert(marked@ =~= after);
        assert forall|i: int| 0 <= i < after.len() implies webhook_has_id(db.last_webhook_id)(
            #[trigger] after[i],
        ) by {
            assert(webhook_has_id(db.last_webhook_id)(before[i]));
        }
        assert forall|i: int, j: int| 0 <= i < j < after.len() implies webhooks_apart()(
            #[trigger] after[i],
            #[trigger] after[j],
        ) by {
            assert(webhooks_apart()(before[i], before[j]));
        }
    }
    db.webhooks = marked;
}

/// After a webhook with a name is added, a webhook whose name differs only
/// in the case of ASCII letters is taken and will be rejected.
pub proof fn lemma_name_taken_after_insert(webhooks: Seq<Webhook>, added: Webhook, name: Seq<char>)
    requires
        same_ignoring_case(added.name@, name),
    ensures
        name_taken(webhooks.push(added), name, None),
{
    let after = webhooks.push(added);
    assert(same_ignoring_case(after[webhooks.len() as int].name@, name));
}

} // verus!
