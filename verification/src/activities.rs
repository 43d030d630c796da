//! The activity log: a bounded list of events in the order of their
//! timestamps. An entry that would exceed the cap pushes the oldest out.

use crate::database::{database_error, oldest_first, Database, MAX_ACTIVITIES};
use crate::records::{clone_activity, Activity, ErrorKind, TrackerError};
use vstd::prelude::*;

verus! {

/// What is left of a log once room is made for one more entry: where the log
/// is at its cap or over it, the oldest entries leave until one place is
/// free.
pub open spec fn room_made(log: Seq<Activity>) -> Seq<Activity> {
    if log.len() >= MAX_ACTIVITIES {
        log.skip(log.len() - MAX_ACTIVITIES + 1)
    } else {
        log
    }
}

/// The first position at or after `from` whose entry is newer than the
/// timestamp, or the length of the log.
pub open spec fn place_from(log: Seq<Activity>, timestamp: i64, from: int) -> int
    decreases log.len() - from,
{
    if from < 0 || from >= log.len() {
        log.len() as int
    } else if log[from].timestamp > timestamp {
        from
    } else {
        place_from(log, timestamp, from + 1)
    }
}

/// The place of a new entry in a log: after every entry that is not newer.
pub open spec fn place_of(log: Seq<Activity>, timestamp: i64) -> int {
    place_from(log, timestamp, 0)
}

/// The log after an entry is added: room is made, and the entry stands at
/// its place.
pub open spec fn logged(log: Seq<Activity>, entry: Activity) -> Seq<Activity> {
    let kept = room_made(log);
    kept.insert(place_of(kept, entry.timestamp), entry)
}

/// The entry as the log stores it under an id.
pub open spec fn stored_as(entry: Activity, id: i64) -> Activity {
    Activity { id: Some(id), ..entry }
}

proof fn lemma_place(log: Seq<Activity>, timestamp: i64, from: int)
    requires
        0 <= from <= log.len(),
    ensures
        from <= place_from(log, timestamp, from) <= log.len(),
        forall|i: int|
            from <= i < place_from(log, timestamp, from) ==> (#[trigger] log[i]).timestamp
                <= timestamp,
        place_from(log, timestamp, from) < log.len() ==> log[place_from(
            log,
            timestamp,
            from,
        )].timestamp > timestamp,
    decreases log.len() - from,
{
    if from < log.len() && log[from].timestamp <= timestamp {
        lemma_place(log, timestamp, from + 1);
    }
}

/// An ordered log stays ordered and gains one entry when an entry is added,
/// and it never exceeds its cap.
pub proof fn lemma_logged_well_formed(log: Seq<Activity>, entry: Activity)
    requires
        oldest_first(log),
        log.len() <= MAX_ACTIVITIES,
    ensures
        oldest_first(logged(log, entry)),
        logged(log, entry).len() == room_made(log).len() + 1,
        logged(log, entry).len() <= MAX_ACTIVITIES,
        logged(log, entry).contains(entry),
{
    let kept = room_made(log);
    let k = place_of(kept, entry.timestamp);
    lemma_place(kept, entry.timestamp, 0);
    let after = kept.insert(k, entry);
    assert forall|i: int, j: int| 0 <= i < j < after.len() implies (#[trigger] after[i]).timestamp
        <= (#[trigger] after[j]).timestamp by {
        if j < k {
            assert(after[i] == kept[i] && after[j] == kept[j]);
        } else if j == k {
            assert(after[i] == kept[i]);
        } else if i < k {
            assert(after[i] == kept[i] && after[j] == kept[j - 1]);
            if k < j - 1 {
                assert(kept[k].timestamp <= kept[j - 1].timestamp);
            }
        } else if i == k {
            assert(after[j] == kept[j - 1]);
            if k < j - 1 {
                assert(kept[k].timestamp <= kept[j - 1].timestamp);
            }
        } else {
            assert(after[i] == kept[i - 1] && after[j] == kept[j - 1]);
        }
    }
    assert(after[k] == entry);
}

/// Adding an entry to a log that is at its cap removes exactly one entry,
/// the oldest, and leaves the log at its cap.
pub proof fn lemma_full_log_evicts_oldest(log: Seq<Activity>, entry: Activity)
    requires
        oldest_first(log),
        log.len() == MAX_ACTIVITIES,
    ensures
        room_made(log) == log.skip(1),
        logged(log, entry).len() == MAX_ACTIVITIES,
        forall|i: int| 1 <= i < log.len() ==> logged(log, entry).contains(#[trigger] log[i]),
        forall|i: int| 0 <= i < log.len() ==> log[0].timestamp <= (#[trigger] log[i]).timestamp,
{
    let kept = room_made(log);
    let k = place_of(kept, entry.timestamp);
    lemma_place(kept, entry.timestamp, 0);
    let after = kept.insert(k, entry);
    assert forall|i: int| 1 <= i < log.len() implies after.contains(#[trigger] log[i]) by {
        if i - 1 < k {
            assert(after[i - 1] == kept[i - 1]);
        } else {
            assert(after[i] == kept[i - 1]);
        }
    }
}

/// Adds an entry to the activity log and returns its id. Where the log holds
/// its cap of entries, the oldest leave first, so that the log stays within
/// the cap. The entry's own id is ignored: the log gives it the next one.
pub fn add_activity(db: &mut Database, activity: Activity) -> (r: Result<i64, TrackerError>)
    requires
        old(db).well_formed(),
    ensures
        final(db).well_formed(),
        final(db).same_but_log(old(db)),
        match r {
            Ok(id) => {
                &&& old(db).last_activity_id < i64::MAX
                &&& id == old(db).last_activity_id + 1
                &&& final(db).last_activity_id == id
                &&& final(db).activities@ == logged(old(db).activities@, stored_as(activity, id))
            },
            Err(e) => {
                &&& old(db).last_activity_id == i64::MAX
                &&& e.says(ErrorKind::Database, "activity ids are exhausted"@)
                &&& *final(db) == *old(db)
            },
        },
{
    if db.last_activity_id == i64::MAX {
        return Err(database_error("activity ids are exhausted"));
    }
    let id: i64 = db.last_activity_id + 1;
    let mut entry = activity;
    entry.id = Some(id);
    proof {
        lemma_logged_well_formed(db.activities@, entry);
    }
    let ghost before = db.activities@;
    let count: usize = db.activities.len();
    if count >= MAX_ACTIVITIES {
        let to_delete: usize = count - MAX_ACTIVITIES + 1;
        let mut removed: usize = 0;
        while removed < to_delete
            invariant
                removed <= to_delete <= before.len(),
                db.activities@ == before.skip(removed as int),
                db.same_but_log(old(db)),
                db.last_activity_id == old(db).last_activity_id,
            decreases to_delete - removed,
        {
            db.activities.remove(0);
            removed += 1;
            assert(db.activities@ =~= before.skip(removed as int));
        }
    }
    assert(db.activities@ == room_made(before));
    let mut place: usize = 0;
    while place < db.activities.len() && db.activities[place].timestamp <= entry.timestamp
        invariant
            place <= db.activities.len(),
            db.activities@ == room_made(before),
            place_of(db.activities@, entry.timestamp) == place_from(
                db.activities@,
                entry.timestamp,
                place as int,
            ),
        decreases db.activities.len() - place,
    {
        place += 1;
    }
    db.activities.insert(place, entry);
    db.last_activity_id = id;
    Ok(id)
}

/// The newest entries of a log, newest first: all of them where the limit is
/// negative, else no more than the limit.
pub open spec fn recent(log: Seq<Activity>, limit: int) -> Seq<Activity> {
    let count = if limit < 0 || limit > log.len() {
        log.len() as int
    } else {
        limit
    };
    Seq::new(count as nat, |i: int| log[log.len() - 1 - i])
}

/// The newest entries of the activity log, newest first. Without a limit the
/// log's cap is the limit; a negative limit is none.
pub fn get_recent_activities(db: &Database, limit: Option<i64>) -> (entries: Vec<Activity>)
    ensures
        entries@ == recent(
            db.activities@,
            match limit {
                Some(n) => n as int,
                None => MAX_ACTIVITIES as int,
            },
        ),
{
    let wanted: i64 = match limit {
        Some(n) => n,
        None => MAX_ACTIVITIES as i64,
    };
    let total: usize = db.activities.len();
    let count: usize = if wanted < 0 || wanted as u64 > total as u64 {
        total
    } else {
        wanted as usize
    };
    let mut entries: Vec<Activity> = Vec::new();
    let mut i: usize = 0;
    while i < count
        invariant
            i <= count <= total,
            total == db.activities.len(),
            entries.len() == i,
            forall|j: int| 0 <= j < i ==> entries@[j] == db.activities@[total - 1 - j],
        decreases count - i,
    {
        entries.push(clone_activity(&db.activities[total - 1 - i]));
        i += 1;
    }
    assert(entries@ =~= recent(db.activities@, wanted as int));
    entries
}

/// Empties the activity log.
pub fn clear_activities(db: &mut Database)
    requires
        old(db).well_formed(),
    ensures
        final(db).well_formed(),
        final(db).same_but_log(old(db)),
        final(db).last_activity_id == old(db).last_activity_id,
        final(db).activities@.len() == 0,
{
    db.activities.clear();
}

} // verus!
