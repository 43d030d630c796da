use mod_tracker::activities::{add_activity, clear_activities, get_recent_activities};
use mod_tracker::database::{Database, MAX_ACTIVITIES};
use mod_tracker::init::{check_well_formed, default_template, initialize_database, new_database};
use mod_tracker::mods::{
    assign_webhook_to_mod, delete_mod, get_all_mods, has_assignment, has_platform_id, insert_mod,
    remove_webhook_from_mod, update_mod_last_updated, webhooks_assigned_to,
};
use mod_tracker::ordering::text_not_after;
use mod_tracker::records::{Activity, ErrorKind, Mod, Webhook};
use mod_tracker::settings::{
    get_api_key, get_close_to_tray, get_minimize_to_tray, get_show_quick_start,
    get_update_interval, handle_close_requested, read_settings, set_api_key, set_close_to_tray,
    set_minimize_to_tray, set_show_quick_start, set_update_interval,
};
use mod_tracker::webhook_templates::{
    delete_custom_template, get_webhook_template, update_webhook_template,
};
use mod_tracker::webhooks::{
    delete_webhook, get_all_webhooks, get_mod_webhooks, insert_webhook, update_webhook,
    webhook_name_exists,
};

fn entry(kind: &str, mod_id: Option<i64>, timestamp: i64) -> Activity {
    Activity {
        id: None,
        activity_type: kind.to_string(),
        mod_id,
        mod_name: mod_id.map(|id| format!("mod {}", id)),
        description: format!("{} at {}", kind, timestamp),
        timestamp,
        metadata: None,
    }
}

fn a_mod(curseforge_id: i64, name: &str) -> Mod {
    Mod {
        id: None,
        curseforge_id,
        name: name.to_string(),
        game_name: "Game".to_string(),
        last_updated: "2024-01-01T00:00:00Z".to_string(),
    }
}

fn a_webhook(name: &str) -> Webhook {
    Webhook {
        id: None,
        name: name.to_string(),
        url: format!("https://example.invalid/{}", name),
        avatar_url: None,
        username: None,
        enabled: true,
        use_custom_template: false,
    }
}

fn stocked() -> (Database, Vec<i64>, Vec<i64>) {
    let mut db = new_database();
    let mut mods = Vec::new();
    let mut hooks = Vec::new();
    for (i, name) in ["One", "Two", "Three"].iter().enumerate() {
        mods.push(insert_mod(&mut db, a_mod(100 + i as i64, name)).unwrap());
    }
    for name in ["Alpha", "Beta", "Gamma", "Delta"] {
        hooks.push(insert_webhook(&mut db, a_webhook(name)).unwrap());
    }
    (db, mods, hooks)
}

#[test]
fn a_new_database_is_well_formed_and_seeded() {
    let db = new_database();
    assert!(check_well_formed(&db));
    assert!(db.mods.is_empty() && db.webhooks.is_empty() && db.activities.is_empty());
    assert_eq!(db.default_template, default_template());
    assert_eq!(get_api_key(&db), None);
    assert_eq!(get_update_interval(&db), 30);
    assert!(get_show_quick_start(&db));
    assert!(!get_minimize_to_tray(&db));
    assert!(!get_close_to_tray(&db));
}

#[test]
fn initializing_twice_is_initializing_once() {
    let mut db = new_database();
    set_update_interval(&mut db, 5);
    set_show_quick_start(&mut db, false);
    set_api_key(&mut db, "key");
    let before = db.clone();
    initialize_database(&mut db);
    assert_eq!(db, before);
    initialize_database(&mut db);
    assert_eq!(db, before);
}

#[test]
fn activity_ids_count_up() {
    let mut db = new_database();
    assert_eq!(add_activity(&mut db, entry("a", None, 10)).unwrap(), 1);
    assert_eq!(add_activity(&mut db, entry("b", None, 20)).unwrap(), 2);
    assert_eq!(db.activities[0].id, Some(1));
    assert_eq!(db.activities[1].id, Some(2));
    assert_eq!(db.activities[1].activity_type, "b");
}

#[test]
fn a_full_log_evicts_its_oldest_entry() {
    let mut db = new_database();
    for t in 0..MAX_ACTIVITIES as i64 {
        add_activity(&mut db, entry("fill", None, 1000 + t)).unwrap();
    }
    assert_eq!(db.activities.len(), 50);
    let id = add_activity(&mut db, entry("new", None, 5000)).unwrap();
    assert_eq!(id, 51);
    assert_eq!(db.activities.len(), 50);
    assert_eq!(db.activities[0].timestamp, 1001);
    assert_eq!(db.activities[49].timestamp, 5000);
    assert_eq!(db.activities[49].activity_type, "new");
    assert!(db.activities.iter().all(|a| a.timestamp != 1000));
    assert!(check_well_formed(&db));
}

#[test]
fn eviction_goes_by_timestamp_not_by_arrival() {
    let mut db = new_database();
    add_activity(&mut db, entry("late", None, 9000)).unwrap();
    add_activity(&mut db, entry("early", None, 1)).unwrap();
    for t in 0..48 {
        add_activity(&mut db, entry("fill", None, 100 + t)).unwrap();
    }
    assert_eq!(db.activities[0].activity_type, "early");
    assert_eq!(db.activities[49].activity_type, "late");
    add_activity(&mut db, entry("new", None, 50)).unwrap();
    assert_eq!(db.activities.len(), 50);
    assert!(db.activities.iter().all(|a| a.activity_type != "early"));
    assert_eq!(db.activities[0].activity_type, "new");
    assert_eq!(db.activities[49].activity_type, "late");
}

#[test]
fn an_overfull_log_is_cut_to_the_cap() {
    let mut db = new_database();
    for t in 0..60 {
        db.activities.push(Activity { id: Some(t + 1), ..entry("old", None, t) });
    }
    db.last_activity_id = 60;
    assert!(!check_well_formed(&db));
    db.activities.truncate(50);
    db.last_activity_id = 60;
    assert!(check_well_formed(&db));
    add_activity(&mut db, entry("new", None, 7)).unwrap();
    assert_eq!(db.activities.len(), 50);
    assert_eq!(db.activities[0].timestamp, 1);
}

#[test]
fn entries_with_equal_timestamps_keep_their_order() {
    let mut db = new_database();
    add_activity(&mut db, entry("first", None, 5)).unwrap();
    add_activity(&mut db, entry("second", None, 5)).unwrap();
    add_activity(&mut db, entry("before", None, 4)).unwrap();
    let kinds: Vec<&str> = db.activities.iter().map(|a| a.activity_type.as_str()).collect();
    assert_eq!(kinds, vec!["before", "first", "second"]);
}

#[test]
fn exhausted_activity_ids_are_an_error() {
    let mut db = new_database();
    db.last_activity_id = i64::MAX;
    let before = db.clone();
    let e = add_activity(&mut db, entry("a", None, 1)).unwrap_err();
    assert_eq!(e.kind, ErrorKind::Database);
    assert_eq!(e.message, "activity ids are exhausted");
    assert_eq!(e.to_text(), "activity ids are exhausted");
    assert_eq!(db, before);
}

#[test]
fn recent_activities_come_newest_first() {
    let mut db = new_database();
    for t in [30, 10, 20] {
        add_activity(&mut db, entry("e", None, t)).unwrap();
    }
    let stamps = |v: Vec<Activity>| v.iter().map(|a| a.timestamp).collect::<Vec<i64>>();
    assert_eq!(stamps(get_recent_activities(&db, None)), vec![30, 20, 10]);
    assert_eq!(stamps(get_recent_activities(&db, Some(2))), vec![30, 20]);
    assert_eq!(stamps(get_recent_activities(&db, Some(0))), Vec::<i64>::new());
    assert_eq!(stamps(get_recent_activities(&db, Some(99))), vec![30, 20, 10]);
    assert_eq!(stamps(get_recent_activities(&db, Some(-1))), vec![30, 20, 10]);
}

#[test]
fn the_log_is_cleared() {
    let mut db = new_database();
    add_activity(&mut db, entry("e", None, 1)).unwrap();
    clear_activities(&mut db);
    assert!(db.activities.is_empty());
    assert_eq!(add_activity(&mut db, entry("e", None, 1)).unwrap(), 2);
}

#[test]
fn mods_are_inserted_with_fresh_ids() {
    let mut db = new_database();
    assert_eq!(insert_mod(&mut db, a_mod(7, "Seven")).unwrap(), 1);
    assert_eq!(insert_mod(&mut db, a_mod(8, "Eight")).unwrap(), 2);
    assert_eq!(db.mods[1], Mod { id: Some(2), ..a_mod(8, "Eight") });
    assert!(has_platform_id(&db, 7));
    assert!(!has_platform_id(&db, 9));
}

#[test]
fn a_platform_id_is_kept_once() {
    let mut db = new_database();
    insert_mod(&mut db, a_mod(7, "Seven")).unwrap();
    let before = db.clone();
    let e = insert_mod(&mut db, a_mod(7, "Again")).unwrap_err();
    assert_eq!(e.kind, ErrorKind::Validation);
    assert_eq!(e.message, "A mod with this CurseForge ID already exists.");
    assert_eq!(db, before);
}

#[test]
fn exhausted_mod_ids_are_an_error() {
    let mut db = new_database();
    db.last_mod_id = i64::MAX;
    let e = insert_mod(&mut db, a_mod(7, "Seven")).unwrap_err();
    assert_eq!(e.kind, ErrorKind::Database);
    assert_eq!(e.message, "mod ids are exhausted");
}

#[test]
fn release_timestamp_is_updated_for_one_mod() {
    let (mut db, mods, _) = stocked();
    update_mod_last_updated(&mut db, mods[1], "2025-05-05T05:05:05Z");
    assert_eq!(db.mods[0].last_updated, "2024-01-01T00:00:00Z");
    assert_eq!(db.mods[1].last_updated, "2025-05-05T05:05:05Z");
    assert_eq!(db.mods[1].name, "Two");
    assert_eq!(db.mods[2].last_updated, "2024-01-01T00:00:00Z");
    let before = db.clone();
    update_mod_last_updated(&mut db, 999, "x");
    assert_eq!(db, before);
}

#[test]
fn assigning_twice_is_assigning_once() {
    let (mut db, mods, hooks) = stocked();
    assign_webhook_to_mod(&mut db, mods[0], hooks[0]);
    assign_webhook_to_mod(&mut db, mods[0], hooks[0]);
    assign_webhook_to_mod(&mut db, mods[0], hooks[2]);
    assert_eq!(db.assignments, vec![(mods[0], hooks[0]), (mods[0], hooks[2])]);
    assert!(has_assignment(&db, mods[0], hooks[2]));
    assert!(!has_assignment(&db, mods[1], hooks[2]));
    assert_eq!(webhooks_assigned_to(&db, mods[0]), vec![hooks[0], hooks[2]]);
    assert!(check_well_formed(&db));
}

#[test]
fn removing_an_assignment_that_is_absent_changes_nothing() {
    let (mut db, mods, hooks) = stocked();
    assign_webhook_to_mod(&mut db, mods[0], hooks[0]);
    assign_webhook_to_mod(&mut db, mods[1], hooks[0]);
    remove_webhook_from_mod(&mut db, mods[0], hooks[0]);
    assert_eq!(db.assignments, vec![(mods[1], hooks[0])]);
    remove_webhook_from_mod(&mut db, mods[0], hooks[0]);
    assert_eq!(db.assignments, vec![(mods[1], hooks[0])]);
}

#[test]
fn all_mods_come_with_their_webhooks() {
    let (mut db, mods, hooks) = stocked();
    assign_webhook_to_mod(&mut db, mods[2], hooks[1]);
    assign_webhook_to_mod(&mut db, mods[0], hooks[3]);
    assign_webhook_to_mod(&mut db, mods[2], hooks[0]);
    let all = get_all_mods(&db);
    assert_eq!(all.len(), 3);
    assert_eq!(all[0].mod_info, db.mods[0]);
    assert_eq!(all[0].webhook_ids, vec![hooks[3]]);
    assert_eq!(all[1].mod_info.name, "Three");
    assert_eq!(all[1].webhook_ids, vec![hooks[1], hooks[0]]);
    assert_eq!(all[2].mod_info.name, "Two");
    assert_eq!(all[2].webhook_ids, Vec::<i64>::new());
}

#[test]
fn mods_are_listed_by_game_and_name() {
    let mut db = new_database();
    let rows = [("Zeta", "b"), ("Alpha", "z"), ("Zeta", "a"), ("Alpha", "a"), ("Al", "zz"), ("Zeta", "B")];
    for (i, (game, name)) in rows.iter().enumerate() {
        let mut m = a_mod(i as i64, name);
        m.game_name = game.to_string();
        insert_mod(&mut db, m).unwrap();
    }
    let listed: Vec<(String, String)> =
        get_all_mods(&db).into_iter().map(|m| (m.mod_info.game_name, m.mod_info.name)).collect();
    let mut expected: Vec<(String, String)> =
        rows.iter().map(|(g, n)| (g.to_string(), n.to_string())).collect();
    expected.sort();
    assert_eq!(listed, expected);
}

#[test]
fn mods_with_equal_names_keep_their_order() {
    let mut db = new_database();
    for i in 0..4 {
        insert_mod(&mut db, a_mod(10 + i, "Same")).unwrap();
    }
    let ids: Vec<i64> = get_all_mods(&db).into_iter().map(|m| m.mod_info.curseforge_id).collect();
    assert_eq!(ids, vec![10, 11, 12, 13]);
}

#[test]
fn texts_are_ordered_by_code_points() {
    let samples = ["", "a", "A", "ab", "b", "aa", "é", "z", "\u{10000}", "\u{ffff}", "a\u{0}", "Z"];
    for a in samples {
        for b in samples {
            assert_eq!(text_not_after(a, b), a <= b, "{:?} {:?}", a, b);
        }
    }
}

#[test]
fn deleting_a_mod_takes_its_assignments_and_unlinks_its_activities() {
    let (mut db, mods, hooks) = stocked();
    for h in &hooks {
        assign_webhook_to_mod(&mut db, mods[1], *h);
    }
    assign_webhook_to_mod(&mut db, mods[0], hooks[0]);
    assign_webhook_to_mod(&mut db, mods[2], hooks[3]);
    add_activity(&mut db, entry("mod_updated", Some(mods[1]), 1)).unwrap();
    add_activity(&mut db, entry("mod_updated", Some(mods[0]), 2)).unwrap();
    add_activity(&mut db, entry("note", None, 3)).unwrap();
    add_activity(&mut db, entry("mod_updated", Some(mods[1]), 4)).unwrap();
    assert_eq!(db.assignments.len(), 6);
    let before = db.clone();
    delete_mod(&mut db, mods[1]);
    assert_eq!(db.assignments, vec![(mods[0], hooks[0]), (mods[2], hooks[3])]);
    assert_eq!(db.mods.len(), 2);
    assert!(db.mods.iter().all(|m| m.id != Some(mods[1])));
    assert_eq!(db.mods[0], before.mods[0]);
    assert_eq!(db.mods[1], before.mods[2]);
    assert_eq!(db.activities.len(), 4);
    let refs: Vec<Option<i64>> = db.activities.iter().map(|a| a.mod_id).collect();
    assert_eq!(refs, vec![None, Some(mods[0]), None, None]);
    for (after, was) in db.activities.iter().zip(before.activities.iter()) {
        assert_eq!(after.mod_name, was.mod_name);
        assert_eq!(after.description, was.description);
        assert_eq!(after.id, was.id);
    }
    assert_eq!(db.webhooks, before.webhooks);
    assert!(check_well_formed(&db));
}

#[test]
fn deleting_an_unknown_mod_changes_nothing() {
    let (mut db, mods, hooks) = stocked();
    assign_webhook_to_mod(&mut db, mods[0], hooks[0]);
    let before = db.clone();
    delete_mod(&mut db, 12345);
    assert_eq!(db, before);
}

#[test]
fn webhook_names_are_unique_whatever_their_case() {
    let mut db = new_database();
    assert_eq!(insert_webhook(&mut db, a_webhook("Alpha")).unwrap(), 1);
    let before = db.clone();
    let e = insert_webhook(&mut db, a_webhook("alpha")).unwrap_err();
    assert_eq!(e.kind, ErrorKind::Validation);
    assert_eq!(e.message, "A webhook with this name already exists");
    assert_eq!(db, before);
    assert!(insert_webhook(&mut db, a_webhook("ALPHA")).is_err());
    assert_eq!(insert_webhook(&mut db, a_webhook("Alpha2")).unwrap(), 2);
    assert!(webhook_name_exists(&db, "aLpHa", None));
    assert!(!webhook_name_exists(&db, "aLpHa", Some(1)));
    assert!(webhook_name_exists(&db, "aLpHa", Some(2)));
    assert!(!webhook_name_exists(&db, "Omega", None));
}

#[test]
fn a_webhook_may_keep_or_recase_its_own_name() {
    let (mut db, _, hooks) = stocked();
    let mut changed = Webhook { id: Some(hooks[0]), ..a_webhook("ALPHA") };
    changed.enabled = false;
    update_webhook(&mut db, changed.clone()).unwrap();
    assert_eq!(db.webhooks[0], changed);
    let before = db.clone();
    let e = update_webhook(&mut db, Webhook { id: Some(hooks[0]), ..a_webhook("beta") }).unwrap_err();
    assert_eq!(e.message, "A webhook with this name already exists");
    assert_eq!(db, before);
    update_webhook(&mut db, Webhook { id: Some(999), ..a_webhook("Fresh") }).unwrap();
    assert_eq!(db, before);
    assert!(update_webhook(&mut db, Webhook { id: None, ..a_webhook("Beta") }).is_err());
    update_webhook(&mut db, Webhook { id: None, ..a_webhook("Fresh") }).unwrap();
    assert_eq!(db, before);
}

#[test]
fn all_webhooks_are_listed() {
    let (db, _, _) = stocked();
    let names: Vec<String> = get_all_webhooks(&db).into_iter().map(|w| w.name).collect();
    assert_eq!(names, vec!["Alpha", "Beta", "Delta", "Gamma"]);
}

#[test]
fn webhooks_of_a_mod_are_listed() {
    let (mut db, mods, hooks) = stocked();
    assign_webhook_to_mod(&mut db, mods[0], hooks[3]);
    assign_webhook_to_mod(&mut db, mods[0], hooks[2]);
    assign_webhook_to_mod(&mut db, mods[0], hooks[0]);
    assign_webhook_to_mod(&mut db, mods[1], hooks[1]);
    let names: Vec<String> = get_mod_webhooks(&db, mods[0]).into_iter().map(|w| w.name).collect();
    assert_eq!(names, vec!["Alpha", "Delta", "Gamma"]);
    assert!(get_mod_webhooks(&db, 999).is_empty());
}

#[test]
fn deleting_a_webhook_takes_its_assignments_and_its_template() {
    let (mut db, mods, hooks) = stocked();
    assign_webhook_to_mod(&mut db, mods[0], hooks[1]);
    assign_webhook_to_mod(&mut db, mods[1], hooks[1]);
    assign_webhook_to_mod(&mut db, mods[1], hooks[2]);
    let mut custom = default_template();
    custom.is_default = false;
    custom.webhook_id = Some(hooks[1]);
    custom.title = "custom".to_string();
    update_webhook_template(&mut db, custom).unwrap();
    assert_eq!(db.custom_templates.len(), 1);
    delete_webhook(&mut db, hooks[1]);
    assert_eq!(db.assignments, vec![(mods[1], hooks[2])]);
    assert!(db.custom_templates.is_empty());
    assert_eq!(db.webhooks.len(), 3);
    assert!(db.webhooks.iter().all(|w| w.id != Some(hooks[1])));
    assert_eq!(get_webhook_template(&db, hooks[1]), db.default_template);
    assert!(check_well_formed(&db));
}

#[test]
fn a_webhook_without_a_custom_template_gets_the_default() {
    let (db, _, hooks) = stocked();
    assert_eq!(get_webhook_template(&db, hooks[0]), default_template());
    assert_eq!(get_webhook_template(&db, -1), default_template());
    assert_eq!(get_webhook_template(&db, 424242), default_template());
}

#[test]
fn a_custom_template_serves_its_webhook_only() {
    let (mut db, _, hooks) = stocked();
    let mut custom = default_template();
    custom.id = None;
    custom.is_default = false;
    custom.webhook_id = Some(hooks[2]);
    custom.title = "Mine".to_string();
    update_webhook_template(&mut db, custom.clone()).unwrap();
    let stored = get_webhook_template(&db, hooks[2]);
    assert_eq!(stored.title, "Mine");
    assert_eq!(stored.id, Some(2));
    assert!(!stored.is_default);
    assert!(db.webhooks[2].use_custom_template);
    assert!(!db.webhooks[0].use_custom_template);
    assert_eq!(get_webhook_template(&db, hooks[0]), default_template());
    custom.title = "Mine again".to_string();
    update_webhook_template(&mut db, custom).unwrap();
    assert_eq!(db.custom_templates.len(), 1);
    assert_eq!(get_webhook_template(&db, hooks[2]).title, "Mine again");
    assert_eq!(get_webhook_template(&db, hooks[2]).id, Some(2));
    delete_custom_template(&mut db, hooks[2]);
    assert!(db.custom_templates.is_empty());
    assert!(!db.webhooks[2].use_custom_template);
    assert_eq!(get_webhook_template(&db, hooks[2]), default_template());
    assert!(check_well_formed(&db));
}

#[test]
fn the_default_template_is_reworded_in_place() {
    let mut db = new_database();
    let mut reworded = default_template();
    reworded.id = Some(77);
    reworded.webhook_id = Some(5);
    reworded.title = "New title".to_string();
    reworded.color = 1;
    update_webhook_template(&mut db, reworded).unwrap();
    assert_eq!(db.default_template.title, "New title");
    assert_eq!(db.default_template.color, 1);
    assert_eq!(db.default_template.id, Some(1));
    assert_eq!(db.default_template.webhook_id, None);
    assert!(db.default_template.is_default);
    assert!(db.custom_templates.is_empty());
    assert!(check_well_formed(&db));
}

#[test]
fn a_template_with_malformed_fields_is_rejected_before_any_change() {
    let (mut db, _, hooks) = stocked();
    let before = db.clone();
    let mut bad = default_template();
    bad.embed_fields = "[{\"name\":\"a\",\"value\":\"b\"}]".to_string();
    let e = update_webhook_template(&mut db, bad.clone()).unwrap_err();
    assert_eq!(e.kind, ErrorKind::Validation);
    assert_eq!(e.message, "Invalid embed fields format: Field 0 missing 'inline' property");
    assert_eq!(db, before);
    bad.is_default = false;
    bad.webhook_id = Some(hooks[0]);
    bad.embed_fields = "{".to_string();
    let e = update_webhook_template(&mut db, bad).unwrap_err();
    let parser = serde_json::from_str::<Vec<serde_json::Value>>("{").unwrap_err().to_string();
    assert_eq!(e.message, format!("Invalid embed fields format: Invalid JSON: {}", parser));
    assert_eq!(db, before);
}

#[test]
fn a_custom_template_needs_a_webhook() {
    let mut db = new_database();
    let mut orphan = default_template();
    orphan.is_default = false;
    orphan.webhook_id = None;
    let before = db.clone();
    let e = update_webhook_template(&mut db, orphan).unwrap_err();
    assert_eq!(e.kind, ErrorKind::Validation);
    assert_eq!(e.message, "A custom template needs a webhook");
    assert_eq!(db, before);
}

#[test]
fn settings_fall_back_to_their_defaults() {
    let mut db = new_database();
    db.settings.update_interval = Some("soon".to_string());
    db.settings.show_quick_start = Some("maybe".to_string());
    db.settings.minimize_to_tray = Some("TRUE".to_string());
    db.settings.close_to_tray = Some("".to_string());
    assert_eq!(get_update_interval(&db), 30);
    assert!(get_show_quick_start(&db));
    assert!(!get_minimize_to_tray(&db));
    assert!(!get_close_to_tray(&db));
    db.settings.update_interval = None;
    db.settings.show_quick_start = None;
    assert_eq!(get_update_interval(&db), 30);
    assert!(get_show_quick_start(&db));
}

#[test]
fn settings_read_back_as_they_were_set() {
    let mut db = new_database();
    set_api_key(&mut db, "secret key");
    set_update_interval(&mut db, 45);
    set_show_quick_start(&mut db, false);
    set_minimize_to_tray(&mut db, true);
    set_close_to_tray(&mut db, true);
    assert_eq!(get_api_key(&db).as_deref(), Some("secret key"));
    assert_eq!(get_update_interval(&db), 45);
    assert_eq!(db.settings.update_interval.as_deref(), Some("45"));
    assert!(!get_show_quick_start(&db));
    assert!(get_minimize_to_tray(&db));
    assert!(get_close_to_tray(&db));
    assert!(handle_close_requested(&db));
    let shown = read_settings(&db);
    assert_eq!(shown.api_key.as_deref(), Some("secret key"));
    assert_eq!(shown.update_interval, 45);
    assert!(!shown.show_quick_start);
    set_update_interval(&mut db, -7);
    assert_eq!(get_update_interval(&db), -7);
    set_update_interval(&mut db, i64::MIN);
    assert_eq!(get_update_interval(&db), i64::MIN);
    set_close_to_tray(&mut db, false);
    assert!(!handle_close_requested(&db));
}

#[test]
fn broken_states_are_told_apart() {
    let (good, mods, hooks) = stocked();
    assert!(check_well_formed(&good));
    let mut db = good.clone();
    db.mods[1].curseforge_id = db.mods[0].curseforge_id;
    assert!(!check_well_formed(&db));
    let mut db = good.clone();
    db.mods[2].id = Some(mods[0]);
    assert!(!check_well_formed(&db));
    let mut db = good.clone();
    db.mods[2].id = None;
    assert!(!check_well_formed(&db));
    let mut db = good.clone();
    db.last_mod_id = 1;
    assert!(!check_well_formed(&db));
    let mut db = good.clone();
    db.webhooks[3].name = "BETA".to_string();
    assert!(!check_well_formed(&db));
    let mut db = good.clone();
    db.webhooks[3].id = Some(hooks[0]);
    assert!(!check_well_formed(&db));
    let mut db = good.clone();
    db.assignments = vec![(1, 2), (2, 1), (1, 2)];
    assert!(!check_well_formed(&db));
    let mut db = good.clone();
    db.default_template.is_default = false;
    assert!(!check_well_formed(&db));
    let mut db = good.clone();
    db.custom_templates.push(default_template());
    assert!(!check_well_formed(&db));
    let mut db = good.clone();
    let mut custom = default_template();
    custom.is_default = false;
    custom.webhook_id = Some(1);
    db.custom_templates = vec![custom.clone(), custom];
    assert!(!check_well_formed(&db));
    let mut db = good.clone();
    db.activities = vec![entry("b", None, 2), entry("a", None, 1)];
    assert!(!check_well_formed(&db));
}

#[test]
fn exhausted_webhook_and_template_ids_are_errors() {
    let (mut db, _, hooks) = stocked();
    db.last_webhook_id = i64::MAX;
    let before = db.clone();
    let e = insert_webhook(&mut db, a_webhook("Fresh")).unwrap_err();
    assert_eq!((e.kind, e.message.as_str()), (ErrorKind::Database, "webhook ids are exhausted"));
    assert_eq!(db, before);
    let e = insert_webhook(&mut db, a_webhook("alpha")).unwrap_err();
    assert_eq!(e.kind, ErrorKind::Validation);
    db.last_template_id = i64::MAX;
    let before = db.clone();
    let mut custom = default_template();
    custom.is_default = false;
    custom.webhook_id = Some(hooks[0]);
    let e = update_webhook_template(&mut db, custom).unwrap_err();
    assert_eq!((e.kind, e.message.as_str()), (ErrorKind::Database, "template ids are exhausted"));
    assert_eq!(db, before);
    let mut reworded = default_template();
    reworded.title = "still fine".to_string();
    update_webhook_template(&mut db, reworded).unwrap();
    assert_eq!(db.default_template.title, "still fine");
}

#[test]
fn a_custom_template_for_a_webhook_that_is_not_there_marks_nothing() {
    let (mut db, _, _) = stocked();
    let mut custom = default_template();
    custom.is_default = false;
    custom.webhook_id = Some(4242);
    update_webhook_template(&mut db, custom).unwrap();
    assert_eq!(db.custom_templates.len(), 1);
    assert!(db.webhooks.iter().all(|w| !w.use_custom_template));
    assert_eq!(get_webhook_template(&db, 4242).webhook_id, Some(4242));
    assert!(check_well_formed(&db));
}
