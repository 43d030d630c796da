//! The stored templates: one default, and at most one custom template for
//! each webhook. A lookup yields the webhook's own template where it has
//! one, and the default otherwise.

use crate::database::{
    database_error, is_custom, templates_apart, validation_error, Database,
};
use crate::json::{embed_fields_verdict, validate_embed_fields};
use crate::records::{failure, ErrorKind, ErrorView, TrackerError};
use crate::tables::{lemma_filter_keeps, lemma_push_keeps};
use crate::template::{clone_template, WebhookTemplate};
use crate::text::{from_chars, push_str};
use crate::webhooks::{
    custom_marked, mark_custom_template, template_of_other, templates_without,
};
use vstd::prelude::*;

verus! {

/// The place of the first template from `from` on that belongs to the
/// webhook, or the number of templates.
pub open spec fn custom_place_from(templates: Seq<WebhookTemplate>, webhook_id: i64, from: int) -> int
    decreases templates.len() - from,
{
    if from < 0 || from >= templates.len() {
        templates.len() as int
    } else if templates[from].webhook_id == Some(webhook_id) {
        from
    } else {
        custom_place_from(templates, webhook_id, from + 1)
    }
}

/// The template that serves a webhook: its custom one where it has one, the
/// default otherwise, and the default always for the id -1.
pub open spec fn template_for(db: Database, webhook_id: i64) -> WebhookTemplate {
    let place = custom_place_from(db.custom_templates@, webhook_id, 0);
    if webhook_id != -1 && 0 <= place < db.custom_templates@.len() {
        db.custom_templates@[place]
    } else {
        db.default_template
    }
}

/// The default template with the wording and layout of another template.
pub open spec fn default_reworded(default: WebhookTemplate, template: WebhookTemplate) -> WebhookTemplate {
    WebhookTemplate { id: default.id, is_default: true, webhook_id: None, ..template }
}

/// A template as the table stores it under an id.
pub open spec fn template_stored_as(template: WebhookTemplate, id: Option<i64>) -> WebhookTemplate {
    WebhookTemplate { id, ..template }
}

/// What is wrong with a template that is to be stored, if anything.
pub open spec fn template_fault(db: Database, template: WebhookTemplate) -> Option<ErrorView> {
    match embed_fields_verdict(template.embed_fields@) {
        Err(message) => Some(
            failure(ErrorKind::Validation, "Invalid embed fields format: "@ + message),
        ),
        Ok(_) => if template.is_default {
            None
        } else if template.webhook_id is None {
            Some(failure(ErrorKind::Validation, "A custom template needs a webhook"@))
        } else if custom_place_from(db.custom_templates@, template.webhook_id->0, 0)
            >= db.custom_templates@.len() && db.last_template_id == i64::MAX {
            Some(failure(ErrorKind::Database, "template ids are exhausted"@))
        } else {
            None
        },
    }
}

fn find_custom(db: &Database, webhook_id: i64) -> (place: Option<usize>)
    ensures
        match place {
            Some(i) => i < db.custom_templates@.len() && custom_place_from(
                db.custom_templates@,
                webhook_id,
                0,
            ) == i && db.custom_templates@[i as int].webhook_id == Some(webhook_id),
            None => custom_place_from(db.custom_templates@, webhook_id, 0)
                == db.custom_templates@.len() && forall|j: int|
                0 <= j < db.custom_templates@.len() ==> (#[trigger] db.custom_templates@[j]).webhook_id
                    != Some(webhook_id),
        },
{
    let mut i: usize = 0;
    while i < db.custom_templates.len()
        invariant
            i <= db.custom_templates.len(),
            custom_place_from(db.custom_templates@, webhook_id, 0) == custom_place_from(
                db.custom_templates@,
                webhook_id,
                i as int,
            ),
            forall|j: int|
                0 <= j < i ==> (#[trigger] db.custom_templates@[j]).webhook_id != Some(webhook_id),
        decreases db.custom_templates.len() - i,
    {
        match db.custom_templates[i].webhook_id {
            Some(id) => {
                if id == webhook_id {
                    return Some(i);
                }
            },
            None => {},
        }
        i += 1;
    }
    None
}

/// The template that serves a webhook. The id -1 asks for the default.
pub fn get_webhook_template(db: &Database, webhook_id: i64) -> (template: WebhookTemplate)
    ensures
        template == template_for(*db, webhook_id),
{
    if webhook_id == -1 {
        return clone_template(&db.default_template);
    }
    match find_custom(db, webhook_id) {
        Some(place) => clone_template(&db.custom_templates[place]),
        None => clone_template(&db.default_template),
    }
}

/// Stores a template. Its embed fields are checked first, and a template
/// whose fields are malformed is rejected before anything changes. A
/// template marked as default rewords the default template; any other
/// becomes the custom template of its webhook, in place of an earlier one,
/// and the webhook is marked as having a custom template.
pub fn update_webhook_template(db: &mut Database, template: WebhookTemplate) -> (r: Result<
    (),
    TrackerError,
>)
    requires
        old(db).well_formed(),
    ensures
        final(db).well_formed(),
        match r {
            Err(e) => {
                &&& template_fault(*old(db), template) == Some(e@)
                &&& *final(db) == *old(db)
            },
            Ok(_) => {
                &&& template_fault(*old(db), template) is None
                &&& if template.is_default {
                    *final(db) == (Database {
                        default_template: default_reworded(old(db).default_template, template),
                        ..*old(db)
                    })
                } else {
                    let webhook_id = template.webhook_id->0;
                    let place = custom_place_from(old(db).custom_templates@, webhook_id, 0);
                    &&& *final(db) == (Database {
                        custom_templates: final(db).custom_templates,
                        last_template_id: final(db).last_template_id,
                        webhooks: final(db).webhooks,
                        ..*old(db)
                    })
                    &&& final(db).webhooks@ == custom_marked(old(db).webhooks@, webhook_id, true)
                    &&& if place < old(db).custom_templates@.len() {
                        &&& final(db).last_template_id == old(db).last_template_id
                        &&& final(db).custom_templates@ == old(db).custom_templates@.update(
                            place,
                            template_stored_as(template, old(db).custom_templates@[place].id),
                        )
                    } else {
                        &&& final(db).last_template_id == old(db).last_template_id + 1
                        &&& final(db).custom_templates@ == old(db).custom_templates@.push(
                            template_stored_as(template, Some(final(db).last_template_id)),
                        )
                    }
                }
            },
        },
{
    match validate_embed_fields(template.embed_fields.as_str()) {
        Ok(_) => {},
        Err(message) => {
            let mut out: Vec<char> = Vec::new();
            push_str(&mut out, "Invalid embed fields format: ");
            push_str(&mut out, message.as_str());
            let text = from_chars(&out);
            return Err(TrackerError { kind: ErrorKind::Validation, message: text });
        },
    }
    let mut row = template;
    if row.is_default {
        row.id = db.default_template.id;
        row.webhook_id = None;
        db.default_template = row;
        return Ok(());
    }
    let webhook_id: i64 = match row.webhook_id {
        Some(id) => id,
        None => {
            return Err(validation_error("A custom template needs a webhook"));
        },
    };
    let ghost before = db.custom_templates@;
    match find_custom(db, webhook_id) {
        Some(place) => {
            row.id = db.custom_templates[place].id;
            proof {
                let after = before.update(place as int, row);
                assert forall|i: int| 0 <= i < after.len() implies is_custom()(
                    #[trigger] after[i],
                ) by {
                    assert(is_custom()(before[i]));
                }
                assert forall|i: int, j: int| 0 <= i < j < after.len() implies templates_apart()(
                    #[trigger] after[i],
                    #[trigger] after[j],
                ) by {
                    assert(templates_apart()(before[i], before[j]));
                }
            }
            db.custom_templates.set(place, row);
        },
        None => {
            if db.last_template_id == i64::MAX {
                return Err(database_error("template ids are exhausted"));
            }
            let id: i64 = db.last_template_id + 1;
            row.id = Some(id);
            proof {
                lemma_push_keeps(before, row, is_custom(), templates_apart());
            }
            db.custom_templates.push(row);
            db.last_template_id = id;
        },
    }
    mark_custom_template(db, webhook_id, true);
    Ok(())
}

/// Removes the custom template of a webhook, which the default serves from
/// then on, and clears the webhook's mark of a custom template.
pub fn delete_custom_template(db: &mut Database, webhook_id: i64)
    requires
        old(db).well_formed(),
    ensures
        final(db).well_formed(),
        *final(db) == (Database {
            custom_templates: final(db).custom_templates,
            webhooks: final(db).webhooks,
            ..*old(db)
        }),
        final(db).custom_templates@ == old(db).custom_templates@.filter(
            template_of_other(webhook_id),
        ),
        final(db).webhooks@ == custom_marked(old(db).webhooks@, webhook_id, false),
{
    let kept = templates_without(&db.custom_templates, webhook_id);
    proof {
        lemma_filter_keeps(
            db.custom_templates@,
            template_of_other(webhook_id),
            is_custom(),
            templates_apart(),
        );
    }
    db.custom_templates = kept;
    mark_custom_template(db, webhook_id, false);
}

} // verus!
