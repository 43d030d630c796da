//! The registry of tracked mods and of the webhooks assigned to them.

use crate::database::{
    any_assignment, assignments_apart, database_error, mod_has_id, mods_apart, oldest_first,
    validation_error, Database,
};
use crate::records::{clone_activity, clone_mod, Activity, ErrorKind, Mod, ModWithWebhooks, TrackerError};
use crate::ordering::{lemma_ordered_len, mod_order, mods_by_name, ordered};
use crate::tables::{
    lemma_filter_keeps, lemma_filter_members, lemma_filter_twice, lemma_push_keeps,
};
use vstd::prelude::*;

verus! {

/// An assignment belongs to another mod.
pub open spec fn not_of_mod(mod_id: i64) -> spec_fn((i64, i64)) -> bool {
    |p: (i64, i64)| p.0 != mod_id
}

/// An assignment belongs to the mod.
pub open spec fn of_mod(mod_id: i64) -> spec_fn((i64, i64)) -> bool {
    |p: (i64, i64)| p.0 == mod_id
}

/// An assignment is another pair.
pub open spec fn other_pair(mod_id: i64, webhook_id: i64) -> spec_fn((i64, i64)) -> bool {
    |p: (i64, i64)| p != (mod_id, webhook_id)
}

/// A mod has another id.
pub open spec fn other_mod(mod_id: i64) -> spec_fn(Mod) -> bool {
    |m: Mod| m.id != Some(mod_id)
}

/// An activity without its reference to the mod, where it had one.
pub open spec fn unlinked(entry: Activity, mod_id: i64) -> Activity {
    if entry.mod_id == Some(mod_id) {
        Activity { mod_id: None, ..entry }
    } else {
        entry
    }
}

/// A log in which no entry refers to the mod any more.
pub open spec fn unlinked_log(log: Seq<Activity>, mod_id: i64) -> Seq<Activity> {
    Seq::new(log.len(), |i: int| unlinked(log[i], mod_id))
}

/// A mod with the platform id is tracked.
pub open spec fn tracks_platform_id(mods: Seq<Mod>, curseforge_id: i64) -> bool {
    exists|i: int| 0 <= i < mods.len() && (#[trigger] mods[i]).curseforge_id == curseforge_id
}

/// The place of the first mod from `from` on that has the id, or the number
/// of mods.
pub open spec fn mod_place_from(mods: Seq<Mod>, mod_id: i64, from: int) -> int
    decreases mods.len() - from,
{
    if from < 0 || from >= mods.len() {
        mods.len() as int
    } else if mods[from].id == Some(mod_id) {
        from
    } else {
        mod_place_from(mods, mod_id, from + 1)
    }
}

/// The mod with the id, if it is tracked.
pub open spec fn mod_with_id(mods: Seq<Mod>, mod_id: i64) -> Option<Mod> {
    let place = mod_place_from(mods, mod_id, 0);
    if 0 <= place < mods.len() {
        Some(mods[place])
    } else {
        None
    }
}

/// The webhook ids assigned to a mod, in the order of their assignment.
pub open spec fn assigned_to(assignments: Seq<(i64, i64)>, mod_id: i64) -> Seq<i64> {
    assignments.filter(of_mod(mod_id)).map_values(|p: (i64, i64)| p.1)
}

/// The mod as the table stores it under an id.
pub open spec fn mod_stored_as(m: Mod, id: i64) -> Mod {
    Mod { id: Some(id), ..m }
}

/// The mod with another release timestamp.
pub open spec fn mod_updated_to(m: Mod, last_updated: Seq<char>, after: Mod) -> bool {
    &&& after.id == m.id
    &&& after.curseforge_id == m.curseforge_id
    &&& after.name == m.name
    &&& after.game_name == m.game_name
    &&& after.last_updated@ == last_updated
}

/// Whether a mod with the platform id is tracked.
pub fn has_platform_id(db: &Database, curseforge_id: i64) -> (found: bool)
    ensures
        found == tracks_platform_id(db.mods@, curseforge_id),
{
    let mut i: usize = 0;
    while i < db.mods.len()
        invariant
            i <= db.mods.len(),
            forall|j: int| 0 <= j < i ==> (#[trigger] db.mods@[j]).curseforge_id != curseforge_id,
        decreases db.mods.len() - i,
    {
        if db.mods[i].curseforge_id == curseforge_id {
            return true;
        }
        i += 1;
    }
    false
}

/// The place of the mod with the id among the mods.
pub fn find_mod(db: &Database, mod_id: i64) -> (place: Option<usize>)
    ensures
        match place {
            Some(i) => i < db.mods@.len() && mod_place_from(db.mods@, mod_id, 0) == i
                && db.mods@[i as int].id == Some(mod_id) && mod_with_id(db.mods@, mod_id) == Some(
                db.mods@[i as int],
            ),
            None => mod_with_id(db.mods@, mod_id) is None && forall|j: int|
                0 <= j < db.mods@.len() ==> (#[trigger] db.mods@[j]).id != Some(mod_id),
        },
{
    let mut i: usize = 0;
    while i < db.mods.len()
        invariant
            i <= db.mods.len(),
            mod_place_from(db.mods@, mod_id, 0) == mod_place_from(db.mods@, mod_id, i as int),
            forall|j: int| 0 <= j < i ==> (#[trigger] db.mods@[j]).id != Some(mod_id),
        decreases db.mods.len() - i,
    {
        match db.mods[i].id {
            Some(id) => {
                if id == mod_id {
                    return Some(i);
                }
            },
            None => {},
        }
        i += 1;
    }
    None
}

/// The webhook ids assigned to the mod of a row.
pub open spec fn assigned_to_row(assignments: Seq<(i64, i64)>, id: Option<i64>) -> Seq<i64> {
    match id {
        Some(mod_id) => assigned_to(assignments, mod_id),
        None => Seq::empty(),
    }
}

/// The mods in the order of their games' names and their own names, each
/// with the ids of the webhooks assigned to it.
pub fn get_all_mods(db: &Database) -> (all: Vec<ModWithWebhooks>)
    ensures
        all@.len() == db.mods@.len(),
        forall|i: int|
            0 <= i < all@.len() ==> (#[trigger] all@[i]).mod_info == ordered(
                db.mods@,
                mod_order(),
            )[i] && all@[i].webhook_ids@ == assigned_to_row(
                db.assignments@,
                all@[i].mod_info.id,
            ),
{
    let sorted = mods_by_name(&db.mods);
    proof {
        lemma_ordered_len(db.mods@, mod_order());
    }
    let mut all: Vec<ModWithWebhooks> = Vec::new();
    let mut i: usize = 0;
    while i < sorted.len()
        invariant
            i <= sorted.len(),
            all@.len() == i,
            forall|k: int|
                0 <= k < i ==> (#[trigger] all@[k]).mod_info == sorted@[k] && all@[k].webhook_ids@
                    == assigned_to_row(db.assignments@, all@[k].mod_info.id),
        decreases sorted.len() - i,
    {
        let info = clone_mod(&sorted[i]);
        let webhook_ids = match info.id {
            Some(id) => webhooks_assigned_to(db, id),
            None => Vec::new(),
        };
        all.push(ModWithWebhooks { mod_info: info, webhook_ids });
        i += 1;
    }
    all
}

/// The ids of the webhooks assigned to a mod, in the order of assignment.
pub fn webhooks_assigned_to(db: &Database, mod_id: i64) -> (ids: Vec<i64>)
    ensures
        ids@ == assigned_to(db.assignments@, mod_id),
{
    let mut ids: Vec<i64> = Vec::new();
    let mut i: usize = 0;
    let ghost pick = |p: (i64, i64)| p.1;
    while i < db.assignments.len()
        invariant
            i <= db.assignments.len(),
            pick == |p: (i64, i64)| p.1,
            ids@ == db.assignments@.take(i as int).filter(of_mod(mod_id)).map_values(pick),
        decreases db.assignments.len() - i,
    {
        let pair = db.assignments[i];
        proof {
            let front = db.assignments@.take(i as int);
            assert(db.assignments@.take(i + 1) =~= front.push(pair));
            front.lemma_filter_push(pair, of_mod(mod_id));
            if pair.0 == mod_id {
                assert(front.filter(of_mod(mod_id)).push(pair).map_values(pick) =~= front.filter(
                    of_mod(mod_id),
                ).map_values(pick).push(pair.1));
            }
        }
        if pair.0 == mod_id {
            ids.push(pair.1);
        }
        i += 1;
    }
    assert(db.assignments@.take(db.assignments@.len() as int) =~= db.assignments@);
    ids
}

/// Starts tracking a mod and returns its id. A mod whose platform id is
/// tracked already is rejected, and nothing changes.
pub fn insert_mod(db: &mut Database, mod_data: Mod) -> (r: Result<i64, TrackerError>)
    requires
        old(db).well_formed(),
    ensures
        final(db).well_formed(),
        match r {
            Ok(id) => {
                &&& !tracks_platform_id(old(db).mods@, mod_data.curseforge_id)
                &&& old(db).last_mod_id < i64::MAX
                &&& id == old(db).last_mod_id + 1
                &&& *final(db) == (Database {
                    mods: final(db).mods,
                    last_mod_id: id,
                    ..*old(db)
                })
                &&& final(db).mods@ == old(db).mods@.push(mod_stored_as(mod_data, id))
            },
            Err(e) => {
                &&& *final(db) == *old(db)
                &&& if tracks_platform_id(old(db).mods@, mod_data.curseforge_id) {
                    e.says(ErrorKind::Validation, "A mod with this CurseForge ID already exists."@)
                } else {
                    old(db).last_mod_id == i64::MAX && e.says(
                        ErrorKind::Database,
                        "mod ids are exhausted"@,
                    )
                }
            },
        },
{
    if has_platform_id(db, mod_data.curseforge_id) {
        return Err(validation_error("A mod with this CurseForge ID already exists."));
    }
    if db.last_mod_id == i64::MAX {
        return Err(database_error("mod ids are exhausted"));
    }
    let id: i64 = db.last_mod_id + 1;
    let mut row = mod_data;
    row.id = Some(id);
    proof {
        let mods = db.mods@;
        assert forall|i: int| 0 <= i < mods.len() implies mod_has_id(id)(#[trigger] mods[i]) by {
            assert(mod_has_id(db.last_mod_id)(mods[i]));
        }
        assert forall|i: int| 0 <= i < mods.len() implies mods_apart()(#[trigger] mods[i], row) by {
            assert(mod_has_id(db.last_mod_id)(mods[i]));
        }
        lemma_push_keeps(mods, row, mod_has_id(id), mods_apart());
    }
    db.mods.push(row);
    db.last_mod_id = id;
    Ok(id)
}

/// Records a new release timestamp for the mod with the id. Where no mod has
/// the id, nothing changes.
pub fn update_mod_last_updated(db: &mut Database, mod_id: i64, last_updated: &str)
    requires
        old(db).well_formed(),
    ensures
        final(db).well_formed(),
        *final(db) == (Database { mods: final(db).mods, ..*old(db) }),
        final(db).mods@.len() == old(db).mods@.len(),
        forall|i: int|
            0 <= i < old(db).mods@.len() ==> if old(db).mods@[i].id == Some(mod_id) {
                mod_updated_to(old(db).mods@[i], last_updated@, #[trigger] final(db).mods@[i])
            } else {
                final(db).mods@[i] == old(db).mods@[i]
            },
{
    match find_mod(db, mod_id) {
        Some(place) => {
            let ghost before = db.mods@;
            let mut row = clone_mod(&db.mods[place]);
            row.last_updated = String::from_str(last_updated);
            db.mods.set(place, row);
            proof {
                let after = db.mods@;
                assert forall|i: int| 0 <= i < after.len() implies mod_has_id(db.last_mod_id)(
                    #[trigger] after[i],
                ) by {
                    assert(mod_has_id(db.last_mod_id)(before[i]));
                }
                assert forall|i: int, j: int| 0 <= i < j < after.len() implies mods_apart()(
                    #[trigger] after[i],
                    #[trigger] after[j],
                ) by {
                    assert(mods_apart()(before[i], before[j]));
                }
                assert forall|i: int| 0 <= i < before.len() && i != place implies before[i].id
                    != Some(mod_id) by {
                    if i < place {
                        assert(mods_apart()(before[i], before[place as int]));
                    } else {
                        assert(mods_apart()(before[place as int], before[i]));
                    }
                }
            }
        },
        None => {},
    }
}

fn assignments_without_mod(assignments: &Vec<(i64, i64)>, mod_id: i64) -> (kept: Vec<(i64, i64)>)
    ensures
        kept@ == assignments@.filter(not_of_mod(mod_id)),
{
    let mut kept: Vec<(i64, i64)> = Vec::new();
    let mut i: usize = 0;
    while i < assignments.len()
        invariant
            i <= assignments.len(),
            kept@ == assignments@.take(i as int).filter(not_of_mod(mod_id)),
        decreases assignments.len() - i,
    {
        let pair = assignments[i];
        proof {
            assert(assignments@.take(i + 1) =~= assignments@.take(i as int).push(pair));
            assignments@.take(i as int).lemma_filter_push(pair, not_of_mod(mod_id));
        }
        if pair.0 != mod_id {
            kept.push(pair);
        }
        i += 1;
    }
    assert(assignments@.take(assignments@.len() as int) =~= assignments@);
    kept
}

fn mods_without(mods: &Vec<Mod>, mod_id: i64) -> (kept: Vec<Mod>)
    ensures
        kept@ == mods@.filter(other_mod(mod_id)),
{
    let mut kept: Vec<Mod> = Vec::new();
    let mut i: usize = 0;
    while i < mods.len()
        invariant
            i <= mods.len(),
            kept@ == mods@.take(i as int).filter(other_mod(mod_id)),
        decreases mods.len() - i,
    {
        proof {
            assert(mods@.take(i + 1) =~= mods@.take(i as int).push(mods@[i as int]));
            mods@.take(i as int).lemma_filter_push(mods@[i as int], other_mod(mod_id));
        }
        let is_it: bool = match mods[i].id {
            Some(id) => id == mod_id,
            None => false,
        };
        if !is_it {
            kept.push(clone_mod(&mods[i]));
        }
        i += 1;
    }
    assert(mods@.take(mods@.len() as int) =~= mods@);
    kept
}

fn log_unlinked(log: &Vec<Activity>, mod_id: i64) -> (out: Vec<Activity>)
    ensures
        out@ == unlinked_log(log@, mod_id),
{
    let mut out: Vec<Activity> = Vec::new();
    let mut i: usize = 0;
    while i < log.len()
        invariant
            i <= log.len(),
            out@.len() == i,
            forall|j: int| 0 <= j < i ==> out@[j] == unlinked(log@[j], mod_id),
        decreases log.len() - i,
    {
        let mut entry = clone_activity(&log[i]);
        let refers: bool = match entry.mod_id {
            Some(id) => id == mod_id,
            None => false,
        };
        if refers {
            entry.mod_id = None;
        }
        out.push(entry);
        i += 1;
    }
    assert(out@ =~= unlinked_log(log@, mod_id));
    out
}

/// Stops tracking the mod with the id: its assignments leave, the entries of
/// the activity log that refer to it lose the reference and stay, and the
/// mod's row leaves. Where no mod has the id, no mod's row leaves.
pub fn delete_mod(db: &mut Database, mod_id: i64)
    requires
        old(db).well_formed(),
    ensures
        final(db).well_formed(),
        *final(db) == (Database {
            mods: final(db).mods,
            assignments: final(db).assignments,
            activities: final(db).activities,
            ..*old(db)
        }),
        final(db).assignments@ == old(db).assignments@.filter(not_of_mod(mod_id)),
        final(db).activities@ == unlinked_log(old(db).activities@, mod_id),
        final(db).mods@ == old(db).mods@.filter(other_mod(mod_id)),
{
    let assignments = assignments_without_mod(&db.assignments, mod_id);
    let activities = log_unlinked(&db.activities, mod_id);
    let mods = mods_without(&db.mods, mod_id);
    proof {
        lemma_filter_keeps(
            db.assignments@,
            not_of_mod(mod_id),
            any_assignment(),
            assignments_apart(),
        );
        lemma_filter_keeps(db.mods@, other_mod(mod_id), mod_has_id(db.last_mod_id), mods_apart());
        assert(oldest_first(activities@));
    }
    db.assignments = assignments;
    db.activities = activities;
    db.mods = mods;
}

/// A pair of a mod and a webhook stands among the assignments.
pub open spec fn is_assigned(assignments: Seq<(i64, i64)>, mod_id: i64, webhook_id: i64) -> bool {
    assignments.contains((mod_id, webhook_id))
}

/// Whether the webhook is assigned to the mod.
pub fn has_assignment(db: &Database, mod_id: i64, webhook_id: i64) -> (found: bool)
    ensures
        found == is_assigned(db.assignments@, mod_id, webhook_id),
{
    let mut i: usize = 0;
    while i < db.assignments.len()
        invariant
            i <= db.assignments.len(),
            forall|j: int| 0 <= j < i ==> db.assignments@[j] != (mod_id, webhook_id),
        decreases db.assignments.len() - i,
    {
        let pair = db.assignments[i];
        if pair.0 == mod_id && pair.1 == webhook_id {
            assert(db.assignments@[i as int] == (mod_id, webhook_id));
            return true;
        }
        i += 1;
    }
    false
}

/// The assignments with the pair among them: added at the end where it was
/// not there.
pub open spec fn with_assignment(assignments: Seq<(i64, i64)>, mod_id: i64, webhook_id: i64) -> Seq<
    (i64, i64),
> {
    if is_assigned(assignments, mod_id, webhook_id) {
        assignments
    } else {
        assignments.push((mod_id, webhook_id))
    }
}

/// The assignments without the pair.
pub open spec fn without_assignment(assignments: Seq<(i64, i64)>, mod_id: i64, webhook_id: i64) -> Seq<
    (i64, i64),
> {
    assignments.filter(other_pair(mod_id, webhook_id))
}

/// Assigning is idempotent, and so is taking an assignment away: the second
/// time changes nothing.
pub proof fn lemma_assignment_idempotent(assignments: Seq<(i64, i64)>, mod_id: i64, webhook_id: i64)
    ensures
        with_assignment(with_assignment(assignments, mod_id, webhook_id), mod_id, webhook_id)
            == with_assignment(assignments, mod_id, webhook_id),
        without_assignment(without_assignment(assignments, mod_id, webhook_id), mod_id, webhook_id)
            == without_assignment(assignments, mod_id, webhook_id),
{
    let added = with_assignment(assignments, mod_id, webhook_id);
    if !is_assigned(assignments, mod_id, webhook_id) {
        assert(added[added.len() - 1] == (mod_id, webhook_id));
    }
    lemma_filter_twice(assignments, other_pair(mod_id, webhook_id));
}

/// Assigns a webhook to a mod. Where it is assigned already, nothing changes.
pub fn assign_webhook_to_mod(db: &mut Database, mod_id: i64, webhook_id: i64)
    requires
        old(db).well_formed(),
    ensures
        final(db).well_formed(),
        *final(db) == (Database { assignments: final(db).assignments, ..*old(db) }),
        final(db).assignments@ == with_assignment(old(db).assignments@, mod_id, webhook_id),
        is_assigned(final(db).assignments@, mod_id, webhook_id),
{
    if !has_assignment(db, mod_id, webhook_id) {
        proof {
            lemma_push_keeps(
                db.assignments@,
                (mod_id, webhook_id),
                any_assignment(),
                assignments_apart(),
            );
        }
        db.assignments.push((mod_id, webhook_id));
        assert(db.assignments@[db.assignments@.len() - 1] == (mod_id, webhook_id));
    }
}

/// Takes a webhook's assignment to a mod away. Where there is none, nothing
/// changes.
pub fn remove_webhook_from_mod(db: &mut Database, mod_id: i64, webhook_id: i64)
    requires
        old(db).well_formed(),
    ensures
        final(db).well_formed(),
        *final(db) == (Database { assignments: final(db).assignments, ..*old(db) }),
        final(db).assignments@ == without_assignment(old(db).assignments@, mod_id, webhook_id),
        !is_assigned(final(db).assignments@, mod_id, webhook_id),
{
    let mut kept: Vec<(i64, i64)> = Vec::new();
    let mut i: usize = 0;
    while i < db.assignments.len()
        invariant
            i <= db.assignments.len(),
            kept@ == db.assignments@.take(i as int).filter(other_pair(mod_id, webhook_id)),
        decreases db.assignments.len() - i,
    {
        let pair = db.assignments[i];
        proof {
            assert(db.assignments@.take(i + 1) =~= db.assignments@.take(i as int).push(pair));
            db.assignments@.take(i as int).lemma_filter_push(pair, other_pair(mod_id, webhook_id));
        }
        if !(pair.0 == mod_id && pair.1 == webhook_id) {
            kept.push(pair);
        }
        i += 1;
    }
    proof {
        assert(db.assignments@.take(db.assignments@.len() as int) =~= db.assignments@);
        lemma_filter_keeps(
            db.assignments@,
            other_pair(mod_id, webhook_id),
            any_assignment(),
            assignments_apart(),
        );
        lemma_filter_members(db.assignments@, other_pair(mod_id, webhook_id));
    }
    db.assignments = kept;
}

/// After a mod is taken out, no assignment and no activity refers to it, no
/// mod has its id, every other assignment and every other mod is still
/// there, and as many assignments left as the mod had.
pub proof fn lemma_mod_deleted(
    assignments: Seq<(i64, i64)>,
    mods: Seq<Mod>,
    log: Seq<Activity>,
    mod_id: i64,
)
    ensures
        forall|i: int|
            0 <= i < assignments.filter(not_of_mod(mod_id)).len() ==> (
            #[trigger] assignments.filter(not_of_mod(mod_id))[i]).0 != mod_id,
        forall|i: int|
            0 <= i < assignments.len() && assignments[i].0 != mod_id ==> assignments.filter(
                not_of_mod(mod_id),
            ).contains(#[trigger] assignments[i]),
        assignments.filter(not_of_mod(mod_id)).len() + assignments.filter(of_mod(mod_id)).len()
            == assignments.len(),
        forall|i: int|
            0 <= i < mods.filter(other_mod(mod_id)).len() ==> (#[trigger] mods.filter(
                other_mod(mod_id),
            )[i]).id != Some(mod_id),
        forall|i: int|
            0 <= i < mods.len() && mods[i].id != Some(mod_id) ==> mods.filter(
                other_mod(mod_id),
            ).contains(#[trigger] mods[i]),
        unlinked_log(log, mod_id).len() == log.len(),
        forall|i: int|
            0 <= i < log.len() ==> (#[trigger] unlinked_log(log, mod_id)[i]).mod_id != Some(mod_id)
                && (log[i].mod_id != Some(mod_id) ==> unlinked_log(log, mod_id)[i] == log[i])
                && unlinked_log(log, mod_id)[i] == (Activity {
                mod_id: unlinked_log(log, mod_id)[i].mod_id,
                ..log[i]
            }),
{
    lemma_filter_members(assignments, not_of_mod(mod_id));
    lemma_filter_members(mods, other_mod(mod_id));
    lemma_split_count(assignments, mod_id);
}

proof fn lemma_split_count(assignments: Seq<(i64, i64)>, mod_id: i64)
    ensures
        assignments.filter(not_of_mod(mod_id)).len() + assignments.filter(of_mod(mod_id)).len()
            == assignments.len(),
    decreases assignments.len(),
{
    reveal(Seq::filter);
    if assignments.len() > 0 {
        lemma_split_count(assignments.drop_last(), mod_id);
    }
}

} // verus!
