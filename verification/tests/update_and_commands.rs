use mod_tracker::commands::{
    add_activity_entry, add_mod, add_webhook, assign_webhook, check_not_added,
    clear_activity_history, delete_mod, delete_webhook, get_activities,
    get_mod_assigned_webhooks, get_mods, get_webhooks, mod_fetch_failure,
    remove_webhook_assignment, send_update_notification, test_webhook, update_webhook,
    upstream_failure,
};
use mod_tracker::database::Database;
use mod_tracker::events::{
    name_in, names_in, write_addition_metadata, write_assignment_metadata,
    write_delivery_metadata, write_removal_metadata, write_webhook_metadata,
};
use mod_tracker::init::{check_well_formed, new_database};
use mod_tracker::json::MetaBuilder;
use mod_tracker::records::{ErrorKind, Webhook};
use mod_tracker::update::{
    check_mod_update, has_new_release, plain_text_changelog, sanitize_changelog,
    CurseForgeModData, ModAuthor, ModFile, ModLinks, ModLogo,
};

fn fetched(released: &str) -> CurseForgeModData {
    CurseForgeModData {
        id: 900,
        name: "Shiny Blocks".to_string(),
        date_modified: "2024-11-01T15:00:00Z".to_string(),
        date_released: released.to_string(),
        date_created: "2020-01-01T00:00:00Z".to_string(),
        authors: vec![
            ModAuthor { name: "Ada".to_string(), url: "https://example.invalid/ada".to_string() },
            ModAuthor { name: "Bob".to_string(), url: "https://example.invalid/bob".to_string() },
        ],
        latest_files: vec![
            ModFile { file_name: "shiny-1.2.jar".to_string() },
            ModFile { file_name: "shiny-1.1.jar".to_string() },
        ],
        game_id: 432,
        logo: Some(ModLogo {
            id: 1,
            mod_id: 900,
            title: "logo".to_string(),
            description: "".to_string(),
            thumbnail_url: "https://example.invalid/t.png".to_string(),
            url: "https://example.invalid/l.png".to_string(),
        }),
        links: ModLinks {
            website_url: Some("https://example.invalid/shiny".to_string()),
            wiki_url: None,
            issues_url: None,
            source_url: None,
        },
        main_file_id: 55,
    }
}

fn a_webhook(name: &str) -> Webhook {
    Webhook {
        id: None,
        name: name.to_string(),
        url: format!("https://example.invalid/{}", name),
        avatar_url: None,
        username: None,
        enabled: true,
        use_custom_template: false,
    }
}

fn with_a_mod() -> (Database, i64) {
    let mut db = new_database();
    let added = add_mod(&mut db, 900, &fetched("2024-10-01T00:00:00Z"), "Minecraft", 1_000).unwrap();
    (db, added.mod_info.id.unwrap())
}

fn json(text: &str) -> serde_json::Value {
    serde_json::from_str(text).unwrap()
}

fn object(pairs: Vec<(&str, serde_json::Value)>) -> serde_json::Value {
    let mut map = serde_json::Map::new();
    for (k, v) in pairs {
        map.insert(k.to_string(), v);
    }
    serde_json::Value::Object(map)
}

fn s(text: &str) -> serde_json::Value {
    serde_json::Value::String(text.to_string())
}

fn n(number: i64) -> serde_json::Value {
    serde_json::Value::from(number)
}

#[test]
fn changelog_is_made_plain_text() {
    assert_eq!(
        sanitize_changelog("<p>Fixed &amp; improved</p><p>More&nbsp;here<br>line<br/>two<br />three</p>  "),
        "Fixed & improved\nMore\u{a0}here\nline\ntwo\nthree"
    );
    assert_eq!(sanitize_changelog("  &lt;b&gt;bold&lt;/b&gt; ✨ done  "), "<b>bold</b>  done");
    assert_eq!(sanitize_changelog(""), "");
    assert_eq!(sanitize_changelog("<p></p>"), "");
    assert_eq!(sanitize_changelog("&lt;p&gt;x&lt;/p&gt;"), "x");
}

#[test]
fn decoded_changelog_is_made_plain_text() {
    assert_eq!(plain_text_changelog("<p>a</p><p>b</p>"), "a\nb");
    assert_eq!(plain_text_changelog("&amp;"), "&amp;");
    assert_eq!(plain_text_changelog("é<br>ü"), "");
    assert_eq!(plain_text_changelog(" <BR> x "), "<BR> x");
}

#[test]
fn release_is_compared_character_by_character() {
    assert!(!has_new_release("2024-10-01T00:00:00Z", &fetched("2024-10-01T00:00:00Z")));
    assert!(has_new_release("2024-10-01T00:00:00Z", &fetched("2024-10-01T00:00:00+00:00")));
    assert!(has_new_release("", &fetched("2024-10-01T00:00:00Z")));
}

#[test]
fn unchanged_release_is_no_update_and_writes_nothing() {
    let (mut db, id) = with_a_mod();
    let before = db.clone();
    let r = check_mod_update(
        &mut db,
        id,
        900,
        "2024-10-01T00:00:00Z",
        &fetched("2024-10-01T00:00:00Z"),
        Some("<p>ignored</p>"),
        2_000,
    );
    assert_eq!(r, Ok(None));
    assert_eq!(db, before);
}

#[test]
fn unchanged_release_without_files_is_no_error() {
    let (mut db, id) = with_a_mod();
    let mut report = fetched("2024-10-01T00:00:00Z");
    report.latest_files.clear();
    let before = db.clone();
    assert_eq!(check_mod_update(&mut db, id, 900, "2024-10-01T00:00:00Z", &report, None, 2_000), Ok(None));
    assert_eq!(db, before);
}

#[test]
fn changed_release_writes_the_date_logs_once_and_returns_the_delta() {
    let (mut db, id) = with_a_mod();
    let before = db.clone();
    let info = check_mod_update(
        &mut db,
        id,
        900,
        "2024-10-01T00:00:00Z",
        &fetched("2024-11-01T14:42:00Z"),
        Some("<p>Fixed &amp; improved</p>"),
        2_000,
    )
    .unwrap()
    .unwrap();
    assert_eq!(info.mod_id, id);
    assert_eq!(info.curseforge_id, 900);
    assert_eq!(info.name, "Shiny Blocks");
    assert_eq!(info.old_update_time, "2024-10-01T00:00:00Z");
    assert_eq!(info.new_update_time, "2024-11-01T14:42:00Z");
    assert_eq!(info.mod_author, "Ada");
    assert_eq!(info.latest_file_name, "shiny-1.2.jar");
    assert_eq!(info.logo_url.as_deref(), Some("https://example.invalid/l.png"));
    assert_eq!(info.changelog.as_deref(), Some("Fixed & improved"));
    assert_eq!(db.mods[0].last_updated, "2024-11-01T14:42:00Z");
    assert_eq!(db.activities.len(), before.activities.len() + 1);
    let logged = db.activities.last().unwrap();
    assert_eq!(logged.id, Some(before.last_activity_id + 1));
    assert_eq!(logged.activity_type, "mod_updated");
    assert_eq!(logged.mod_id, Some(id));
    assert_eq!(logged.mod_name.as_deref(), Some("Shiny Blocks"));
    assert_eq!(logged.description, "\"Shiny Blocks\" has been updated");
    assert_eq!(logged.timestamp, 2_000);
    assert_eq!(
        json(logged.metadata.as_deref().unwrap()),
        object(vec![
            ("old_version_date", s("2024-10-01T00:00:00Z")),
            ("new_version_date", s("2024-11-01T14:42:00Z")),
            ("author", s("Ada")),
            ("latest_file", s("shiny-1.2.jar")),
            ("logo_url", s("https://example.invalid/l.png")),
            ("page_url", s("https://example.invalid/shiny")),
            ("changelog", s("Fixed & improved")),
        ])
    );
    assert_eq!(db.webhooks, before.webhooks);
    assert_eq!(db.assignments, before.assignments);
    assert!(check_well_formed(&db));
}

#[test]
fn update_without_authors_logo_or_changelog() {
    let (mut db, id) = with_a_mod();
    let mut report = fetched("2024-11-01T14:42:00Z");
    report.authors.clear();
    report.logo = None;
    report.links.website_url = None;
    let info = check_mod_update(&mut db, id, 900, "old", &report, None, 5).unwrap().unwrap();
    assert_eq!(info.mod_author, "Unknown Author");
    assert_eq!(info.logo_url, None);
    assert_eq!(info.changelog, None);
    assert_eq!(info.old_update_time, "old");
    let meta = json(db.activities[0].metadata.as_deref().unwrap());
    assert_eq!(meta["author"], s("Unknown Author"));
    assert_eq!(meta["logo_url"], serde_json::Value::Null);
    assert_eq!(meta["page_url"], serde_json::Value::Null);
    assert_eq!(meta["changelog"], serde_json::Value::Null);
    assert_eq!(db.activities[0].timestamp, 5);
}

#[test]
fn changed_release_without_files_is_an_error() {
    let (mut db, id) = with_a_mod();
    let mut report = fetched("2024-11-01T14:42:00Z");
    report.latest_files.clear();
    let before = db.clone();
    let e = check_mod_update(&mut db, id, 900, "2024-10-01T00:00:00Z", &report, None, 2_000).unwrap_err();
    assert_eq!(e.kind, ErrorKind::UpstreamApi);
    assert_eq!(e.message, "No files found for mod");
    assert_eq!(db.activities, before.activities);
    assert_eq!(db.mods[0].last_updated, "2024-11-01T14:42:00Z");
}

#[test]
fn failed_fetches_are_described() {
    let e = mod_fetch_failure(404, "404 Not Found");
    assert_eq!((e.kind, e.message.as_str()), (ErrorKind::UpstreamApi, "Mod not found on CurseForge."));
    let e = mod_fetch_failure(500, "500 Internal Server Error");
    assert_eq!(e.message, "Failed to fetch mod from CurseForge: 500 Internal Server Error");
    let e = upstream_failure("Failed to fetch game details: ", "403 Forbidden");
    assert_eq!((e.kind, e.message.as_str()), (ErrorKind::UpstreamApi, "Failed to fetch game details: 403 Forbidden"));
}

#[test]
fn adding_a_mod_tracks_it_and_logs_it() {
    let mut db = new_database();
    let added = add_mod(&mut db, 900, &fetched("2024-10-01T00:00:00Z"), "Minecraft", 1_000).unwrap();
    assert_eq!(added.mod_info.id, Some(1));
    assert_eq!(added.mod_info.curseforge_id, 900);
    assert_eq!(added.mod_info.name, "Shiny Blocks");
    assert_eq!(added.mod_info.game_name, "Minecraft");
    assert_eq!(added.mod_info.last_updated, "2024-10-01T00:00:00Z");
    assert!(added.webhook_ids.is_empty());
    assert_eq!(db.mods, vec![added.mod_info.clone()]);
    assert_eq!(db.activities.len(), 1);
    let logged = &db.activities[0];
    assert_eq!(logged.activity_type, "mod_added");
    assert_eq!(logged.mod_id, Some(1));
    assert_eq!(logged.mod_name.as_deref(), Some("Shiny Blocks"));
    assert_eq!(logged.description, "Added mod \"Shiny Blocks\"");
    assert_eq!(
        json(logged.metadata.as_deref().unwrap()),
        object(vec![
            ("game", s("Minecraft")),
            ("curseforge_id", n(900)),
            ("initial_version_date", s("2024-10-01T00:00:00Z")),
            ("page_url", s("https://example.invalid/shiny")),
        ])
    );
}

#[test]
fn adding_a_known_mod_is_rejected() {
    let (mut db, _) = with_a_mod();
    let before = db.clone();
    let e = add_mod(&mut db, 900, &fetched("2025-01-01T00:00:00Z"), "Minecraft", 1).unwrap_err();
    assert_eq!(e.kind, ErrorKind::Validation);
    assert_eq!(e.message, "A mod with this CurseForge ID already exists.");
    assert_eq!(db, before);
}

#[test]
fn deleting_a_mod_is_all_or_nothing() {
    let (mut db, id) = with_a_mod();
    let hook = add_webhook(&mut db, a_webhook("Alpha"), 1_001).unwrap().id.unwrap();
    let other = add_webhook(&mut db, a_webhook("Beta"), 1_002).unwrap().id.unwrap();
    assign_webhook(&mut db, id, hook, 1_003).unwrap();
    assign_webhook(&mut db, id, other, 1_004).unwrap();
    let before = db.clone();
    let e = delete_mod(&mut db, id + 1, 2_000).unwrap_err();
    assert_eq!((e.kind, e.message.as_str()), (ErrorKind::Validation, "Mod not found"));
    assert_eq!(db, before);
    db.last_activity_id = i64::MAX;
    let full = db.clone();
    let e = delete_mod(&mut db, id, 2_000).unwrap_err();
    assert_eq!((e.kind, e.message.as_str()), (ErrorKind::Database, "activity ids are exhausted"));
    assert_eq!(db, full);
    db.last_activity_id = before.last_activity_id;
    delete_mod(&mut db, id, 2_000).unwrap();
    assert!(db.mods.is_empty());
    assert!(db.assignments.is_empty());
    assert_eq!(db.activities.len(), before.activities.len() + 1);
    assert!(db.activities.iter().all(|a| a.mod_id.is_none()));
    assert_eq!(db.activities[0].mod_name.as_deref(), Some("Shiny Blocks"));
    let logged = db.activities.last().unwrap();
    assert_eq!(logged.activity_type, "mod_removed");
    assert_eq!(logged.mod_id, None);
    assert_eq!(logged.mod_name.as_deref(), Some("Shiny Blocks"));
    assert_eq!(logged.description, "Removed mod \"Shiny Blocks\"");
    assert_eq!(
        json(logged.metadata.as_deref().unwrap()),
        object(vec![("game", s("Minecraft")), ("deleted_mod_id", n(id))])
    );
    assert_eq!(db.webhooks.len(), 2);
    assert!(check_well_formed(&db));
}

#[test]
fn assignments_are_made_and_taken_with_an_entry_each() {
    let (mut db, id) = with_a_mod();
    let hook = add_webhook(&mut db, a_webhook("Alpha"), 1_001).unwrap().id.unwrap();
    assign_webhook(&mut db, id, hook, 1_100).unwrap();
    assign_webhook(&mut db, id, hook, 1_200).unwrap();
    assert_eq!(db.assignments, vec![(id, hook)]);
    let logged = db.activities.last().unwrap();
    assert_eq!(logged.activity_type, "webhook_assigned");
    assert_eq!(logged.description, "Assigned webhook \"Alpha\" to mod \"Shiny Blocks\"");
    assert_eq!(logged.mod_id, Some(id));
    assert_eq!(
        json(logged.metadata.as_deref().unwrap()),
        object(vec![("webhook_id", n(hook)), ("webhook_name", s("Alpha"))])
    );
    remove_webhook_assignment(&mut db, id, hook, 1_300).unwrap();
    remove_webhook_assignment(&mut db, id, hook, 1_400).unwrap();
    assert!(db.assignments.is_empty());
    let logged = db.activities.last().unwrap();
    assert_eq!(logged.activity_type, "webhook_unassigned");
    assert_eq!(logged.description, "Removed webhook \"Alpha\" from mod \"Shiny Blocks\"");
    assert_eq!(db.activities.len(), 6);
}

#[test]
fn assignments_need_a_mod_and_a_webhook() {
    let (mut db, id) = with_a_mod();
    let hook = add_webhook(&mut db, a_webhook("Alpha"), 1_001).unwrap().id.unwrap();
    let before = db.clone();
    for (m, w) in [(id + 9, hook), (id, hook + 9)] {
        let e = assign_webhook(&mut db, m, w, 1).unwrap_err();
        assert_eq!((e.kind, e.message.as_str()), (ErrorKind::Database, "Query returned no rows"));
        let e = remove_webhook_assignment(&mut db, m, w, 1).unwrap_err();
        assert_eq!((e.kind, e.message.as_str()), (ErrorKind::Database, "Query returned no rows"));
        assert_eq!(db, before);
    }
}

#[test]
fn webhooks_are_added_updated_and_removed_with_an_entry_each() {
    let mut db = new_database();
    let added = add_webhook(&mut db, a_webhook("Alpha"), 10).unwrap();
    assert_eq!(added, Webhook { id: Some(1), ..a_webhook("Alpha") });
    assert_eq!(db.webhooks, vec![added.clone()]);
    assert_eq!(db.activities[0].activity_type, "webhook_added");
    assert_eq!(db.activities[0].description, "Added webhook \"Alpha\"");
    assert_eq!(db.activities[0].mod_id, None);
    assert_eq!(db.activities[0].mod_name, None);
    assert_eq!(
        json(db.activities[0].metadata.as_deref().unwrap()),
        object(vec![("webhook_name", s("Alpha")), ("webhook_id", n(1))])
    );
    let before = db.clone();
    let e = add_webhook(&mut db, a_webhook("alpha"), 11).unwrap_err();
    assert_eq!((e.kind, e.message.as_str()), (ErrorKind::Validation, "A webhook with this name already exists"));
    assert_eq!(db, before);
    update_webhook(&mut db, Webhook { id: Some(1), ..a_webhook("Omega") }, 20).unwrap();
    assert_eq!(db.webhooks[0].name, "Omega");
    assert_eq!(db.activities[1].activity_type, "webhook_updated");
    assert_eq!(db.activities[1].description, "Updated webhook \"Omega\"");
    delete_webhook(&mut db, 1, 30).unwrap();
    assert!(db.webhooks.is_empty());
    assert_eq!(db.activities[2].activity_type, "webhook_removed");
    assert_eq!(db.activities[2].description, "Removed webhook \"Omega\"");
    let gone = db.clone();
    let e = delete_webhook(&mut db, 1, 40).unwrap_err();
    assert_eq!((e.kind, e.message.as_str()), (ErrorKind::Database, "Query returned no rows"));
    assert_eq!(db, gone);
}

#[test]
fn a_delivered_notification_is_logged() {
    let (mut db, id) = with_a_mod();
    let hook = add_webhook(&mut db, a_webhook("Alpha"), 1_001).unwrap();
    let r = send_update_notification(&mut db, &hook, id, "Shiny Blocks", 204, None, 3_000);
    assert_eq!(r, Ok(true));
    let logged = db.activities.last().unwrap();
    assert_eq!(logged.activity_type, "notification_sent");
    assert_eq!(logged.description, "Sent update notification for \"Shiny Blocks\" to webhook \"Alpha\"");
    assert_eq!(logged.mod_id, Some(id));
    assert_eq!(
        json(logged.metadata.as_deref().unwrap()),
        object(vec![
            ("webhook_name", s("Alpha")),
            ("webhook_id", n(hook.id.unwrap())),
            ("error", serde_json::Value::Null),
        ])
    );
}

#[test]
fn a_refused_notification_is_logged_and_is_an_error() {
    let (mut db, id) = with_a_mod();
    let hook = add_webhook(&mut db, a_webhook("Alpha"), 1_001).unwrap();
    let count = db.activities.len();
    let e = send_update_notification(
        &mut db,
        &hook,
        id,
        "Shiny Blocks",
        400,
        Some("{\"message\": \"bad\"}".to_string()),
        3_000,
    )
    .unwrap_err();
    assert_eq!(e.kind, ErrorKind::Delivery);
    assert_eq!(e.message, "Discord API error: {\"message\": \"bad\"}");
    assert_eq!(db.activities.len(), count + 1);
    let logged = db.activities.last().unwrap();
    assert_eq!(logged.activity_type, "webhook_error");
    assert_eq!(
        logged.description,
        "Failed to send update notification for \"Shiny Blocks\" to webhook \"Alpha\""
    );
    assert_eq!(json(logged.metadata.as_deref().unwrap())["error"], s("{\"message\": \"bad\"}"));
    let e = send_update_notification(&mut db, &hook, id, "Shiny Blocks", 500, None, 3_001).unwrap_err();
    assert_eq!(e.message, "Discord API error: Unknown error");
    assert_eq!(db.activities.len(), count + 2);
}

#[test]
fn the_answer_to_a_test_message_is_read() {
    assert_eq!(test_webhook(200, None), Ok(true));
    assert_eq!(test_webhook(204, Some("ignored".to_string())), Ok(true));
    let e = test_webhook(404, Some("Unknown Webhook".to_string())).unwrap_err();
    assert_eq!((e.kind, e.message.as_str()), (ErrorKind::Delivery, "Discord API error: Unknown Webhook"));
    let e = test_webhook(301, None).unwrap_err();
    assert_eq!(e.message, "Discord API error: Unknown error");
}

#[test]
fn the_user_interface_adds_entries() {
    let mut db = new_database();
    let id = add_activity_entry(
        &mut db,
        "note".to_string(),
        Some(4),
        Some("Mod".to_string()),
        "something happened".to_string(),
        Some("{}".to_string()),
        77,
    )
    .unwrap();
    assert_eq!(id, 1);
    assert_eq!(db.activities[0].activity_type, "note");
    assert_eq!(db.activities[0].mod_id, Some(4));
    assert_eq!(db.activities[0].metadata.as_deref(), Some("{}"));
    assert_eq!(db.activities[0].timestamp, 77);
}

#[test]
fn names_are_quoted() {
    assert_eq!(name_in("Added mod ", "X \"Y\"", ""), "Added mod \"X \"Y\"\"");
    assert_eq!(name_in("", "X", " has been updated"), "\"X\" has been updated");
    assert_eq!(names_in("A ", "b", " to ", "c"), "A \"b\" to \"c\"");
}

#[test]
fn metadata_is_written_as_json() {
    assert_eq!(
        json(&write_webhook_metadata("A \"quoted\" name\n", None)),
        object(vec![("webhook_name", s("A \"quoted\" name\n")), ("webhook_id", serde_json::Value::Null)])
    );
    assert_eq!(write_assignment_metadata(3, "x"), "{\"webhook_id\":3,\"webhook_name\":\"x\"}");
    assert_eq!(write_removal_metadata("G", -4), "{\"deleted_mod_id\":-4,\"game\":\"G\"}");
    assert_eq!(
        json(&write_addition_metadata("G", 5, "d", "")),
        object(vec![("game", s("G")), ("curseforge_id", n(5)), ("initial_version_date", s("d")), ("page_url", s(""))])
    );
    assert_eq!(
        json(&write_delivery_metadata("w", Some(2), &Some("bad".to_string()))),
        object(vec![("webhook_name", s("w")), ("webhook_id", n(2)), ("error", s("bad"))])
    );
    let mut meta = MetaBuilder::new();
    assert_eq!(meta.finish(), "{}");
    meta.text("k", "v");
    meta.integer("n", 1);
    meta.optional_integer("none", None);
    meta.optional_text("some", &Some("t".to_string()));
    assert_eq!(
        json(&meta.finish()),
        object(vec![("k", s("v")), ("n", n(1)), ("none", serde_json::Value::Null), ("some", s("t"))])
    );
}

#[test]
fn a_mod_is_refused_before_it_is_fetched_again() {
    let (db, _) = with_a_mod();
    assert_eq!(check_not_added(&db, 901), Ok(()));
    let e = check_not_added(&db, 900).unwrap_err();
    assert_eq!((e.kind, e.message.as_str()), (ErrorKind::Validation, "A mod with this CurseForge ID already exists."));
}

#[test]
fn the_user_interface_lists_what_is_kept() {
    let (mut db, id) = with_a_mod();
    let zulu = add_webhook(&mut db, a_webhook("Zulu"), 2_000).unwrap().id.unwrap();
    let alpha = add_webhook(&mut db, a_webhook("Alpha"), 2_001).unwrap().id.unwrap();
    let mike = add_webhook(&mut db, a_webhook("Mike"), 2_002).unwrap().id.unwrap();
    assign_webhook(&mut db, id, zulu, 2_003).unwrap();
    assign_webhook(&mut db, id, alpha, 2_004).unwrap();
    let names = |v: Vec<Webhook>| v.into_iter().map(|w| w.name).collect::<Vec<String>>();
    assert_eq!(names(get_webhooks(&db)), vec!["Alpha", "Mike", "Zulu"]);
    assert_eq!(names(get_mod_assigned_webhooks(&db, id)), vec!["Alpha", "Zulu"]);
    assert!(get_mod_assigned_webhooks(&db, id + 1).is_empty());
    let listed = get_mods(&db);
    assert_eq!(listed.len(), 1);
    assert_eq!(listed[0].mod_info.name, "Shiny Blocks");
    assert_eq!(listed[0].webhook_ids, vec![zulu, alpha]);
    let _ = mike;
    let kinds: Vec<String> =
        get_activities(&db, Some(3)).into_iter().map(|a| a.activity_type).collect();
    assert_eq!(kinds, vec!["webhook_assigned", "webhook_assigned", "webhook_added"]);
    assert_eq!(get_activities(&db, None).len(), 6);
    clear_activity_history(&mut db);
    assert!(get_activities(&db, None).is_empty());
    assert_eq!(db.mods.len(), 1);
}

#[test]
fn a_full_id_space_of_the_log_stops_a_command_before_it_changes_anything() {
    let (mut db, id) = with_a_mod();
    let hook = add_webhook(&mut db, a_webhook("Alpha"), 1).unwrap();
    db.last_activity_id = i64::MAX;
    let before = db.clone();
    let full = (ErrorKind::Database, "activity ids are exhausted");
    let e = add_mod(&mut db, 901, &fetched("d"), "G", 1).unwrap_err();
    assert_eq!((e.kind, e.message.as_str()), full);
    let e = add_webhook(&mut db, a_webhook("Beta"), 1).unwrap_err();
    assert_eq!((e.kind, e.message.as_str()), full);
    let e = update_webhook(&mut db, Webhook { name: "Gamma".to_string(), ..hook.clone() }, 1).unwrap_err();
    assert_eq!((e.kind, e.message.as_str()), full);
    let e = delete_webhook(&mut db, hook.id.unwrap(), 1).unwrap_err();
    assert_eq!((e.kind, e.message.as_str()), full);
    let e = assign_webhook(&mut db, id, hook.id.unwrap(), 1).unwrap_err();
    assert_eq!((e.kind, e.message.as_str()), full);
    let e = remove_webhook_assignment(&mut db, id, hook.id.unwrap(), 1).unwrap_err();
    assert_eq!((e.kind, e.message.as_str()), full);
    let e = send_update_notification(&mut db, &hook, id, "Shiny Blocks", 200, None, 1).unwrap_err();
    assert_eq!((e.kind, e.message.as_str()), full);
    let e = add_activity_entry(&mut db, "n".to_string(), None, None, "d".to_string(), None, 1).unwrap_err();
    assert_eq!((e.kind, e.message.as_str()), full);
    assert_eq!(db, before);
    let e = check_mod_update(&mut db, id, 900, "old", &fetched("new"), None, 1).unwrap_err();
    assert_eq!((e.kind, e.message.as_str()), full);
    assert_eq!(db.mods[0].last_updated, "new");
    assert_eq!(db.activities, before.activities);
}

#[test]
fn exhausted_mod_ids_stop_the_adding() {
    let mut db = new_database();
    db.last_mod_id = i64::MAX;
    let before = db.clone();
    let e = add_mod(&mut db, 900, &fetched("d"), "G", 1).unwrap_err();
    assert_eq!((e.kind, e.message.as_str()), (ErrorKind::Database, "mod ids are exhausted"));
    assert_eq!(db, before);
    db.last_mod_id = 0;
    db.last_webhook_id = i64::MAX;
    let before = db.clone();
    let e = add_webhook(&mut db, a_webhook("A"), 1).unwrap_err();
    assert_eq!((e.kind, e.message.as_str()), (ErrorKind::Database, "webhook ids are exhausted"));
    assert_eq!(db, before);
}
