//! The settings of the application. Each is stored as text; a reading falls
//! back to the setting's default where the text is absent or unreadable.

use crate::database::Database;
use crate::records::{clone_text, text_of, Settings};
use crate::text::{
    from_chars, lemma_signed_decimal_parses, parse_bool, parse_i64, parsed_bool, parsed_i64, push_signed_decimal,
    signed_decimal,
};
use vstd::prelude::*;

verus! {

/// The minutes between two update checks where none are set.
pub const DEFAULT_UPDATE_INTERVAL: i64 = 30;

/// The interval that a stored text sets.
pub open spec fn interval_of(stored: Option<Seq<char>>) -> i64 {
    match stored {
        Some(s) => match parsed_i64(s) {
            Some(minutes) => minutes,
            None => DEFAULT_UPDATE_INTERVAL,
        },
        None => DEFAULT_UPDATE_INTERVAL,
    }
}

/// The toggle that a stored text sets, with its default.
pub open spec fn toggle_of(stored: Option<Seq<char>>, default: bool) -> bool {
    match stored {
        Some(s) => match parsed_bool(s) {
            Some(on) => on,
            None => default,
        },
        None => default,
    }
}

/// The text that stores a toggle.
pub open spec fn toggle_text(on: bool) -> Seq<char> {
    if on {
        "true"@
    } else {
        "false"@
    }
}

fn read_toggle(stored: &Option<String>, default: bool) -> (on: bool)
    ensures
        on == toggle_of(text_of(*stored), default),
{
    match stored {
        Some(s) => match parse_bool(s.as_str()) {
            Some(on) => on,
            None => default,
        },
        None => default,
    }
}

fn write_toggle(on: bool) -> (stored: Option<String>)
    ensures
        text_of(stored) == Some(toggle_text(on)),
{
    if on {
        Some(String::from_str("true"))
    } else {
        Some(String::from_str("false"))
    }
}

/// The API key of the mod-hosting platform, if one is set.
pub fn get_api_key(db: &Database) -> (key: Option<String>)
    ensures
        key == db.settings.api_key,
{
    clone_text(&db.settings.api_key)
}

/// Sets the API key.
pub fn set_api_key(db: &mut Database, api_key: &str)
    ensures
        old(db).well_formed() ==> final(db).well_formed(),
        text_of(final(db).settings.api_key) == Some(api_key@),
        *final(db) == (Database {
            settings: crate::database::StoredSettings {
                api_key: final(db).settings.api_key,
                ..old(db).settings
            },
            ..*old(db)
        }),
{
    db.settings.api_key = Some(String::from_str(api_key));
}

/// The minutes between two update checks: 30 where none are stored or the
/// stored text is no integer.
pub fn get_update_interval(db: &Database) -> (minutes: i64)
    ensures
        minutes == interval_of(text_of(db.settings.update_interval)),
{
    match &db.settings.update_interval {
        Some(s) => match parse_i64(s.as_str()) {
            Some(minutes) => minutes,
            None => DEFAULT_UPDATE_INTERVAL,
        },
        None => DEFAULT_UPDATE_INTERVAL,
    }
}

/// Sets the minutes between two update checks.
pub fn set_update_interval(db: &mut Database, interval: i64)
    ensures
        old(db).well_formed() ==> final(db).well_formed(),
        text_of(final(db).settings.update_interval) == Some(signed_decimal(interval as int)),
        *final(db) == (Database {
            settings: crate::database::StoredSettings {
                update_interval: final(db).settings.update_interval,
                ..old(db).settings
            },
            ..*old(db)
        }),
{
    let mut out: Vec<char> = Vec::new();
    push_signed_decimal(&mut out, interval);
    assert(out@ =~= signed_decimal(interval as int));
    db.settings.update_interval = Some(from_chars(&out));
}

/// Whether the quick-start panel is shown: yes where nothing readable is
/// stored.
pub fn get_show_quick_start(db: &Database) -> (show: bool)
    ensures
        show == toggle_of(text_of(db.settings.show_quick_start), true),
{
    read_toggle(&db.settings.show_quick_start, true)
}

/// Sets whether the quick-start panel is shown.
pub fn set_show_quick_start(db: &mut Database, show: bool)
    ensures
        old(db).well_formed() ==> final(db).well_formed(),
        text_of(final(db).settings.show_quick_start) == Some(toggle_text(show)),
        *final(db) == (Database {
            settings: crate::database::StoredSettings {
                show_quick_start: final(db).settings.show_quick_start,
                ..old(db).settings
            },
            ..*old(db)
        }),
{
    db.settings.show_quick_start = write_toggle(show);
}

/// Whether minimizing the window hides it in the tray: no where nothing
/// readable is stored.
pub fn get_minimize_to_tray(db: &Database) -> (enabled: bool)
    ensures
        enabled == toggle_of(text_of(db.settings.minimize_to_tray), false),
{
    read_toggle(&db.settings.minimize_to_tray, false)
}

/// Sets whether minimizing the window hides it in the tray.
pub fn set_minimize_to_tray(db: &mut Database, enabled: bool)
    ensures
        old(db).well_formed() ==> final(db).well_formed(),
        text_of(final(db).settings.minimize_to_tray) == Some(toggle_text(enabled)),
        *final(db) == (Database {
            settings: crate::database::StoredSettings {
                minimize_to_tray: final(db).settings.minimize_to_tray,
                ..old(db).settings
            },
            ..*old(db)
        }),
{
    db.settings.minimize_to_tray = write_toggle(enabled);
}

/// Whether closing the window hides it in the tray: no where nothing
/// readable is stored.
pub fn get_close_to_tray(db: &Database) -> (enabled: bool)
    ensures
        enabled == toggle_of(text_of(db.settings.close_to_tray), false),
{
    read_toggle(&db.settings.close_to_tray, false)
}

/// Sets whether closing the window hides it in the tray.
pub fn set_close_to_tray(db: &mut Database, enabled: bool)
    ensures
        old(db).well_formed() ==> final(db).well_formed(),
        text_of(final(db).settings.close_to_tray) == Some(toggle_text(enabled)),
        *final(db) == (Database {
            settings: crate::database::StoredSettings {
                close_to_tray: final(db).settings.close_to_tray,
                ..old(db).settings
            },
            ..*old(db)
        }),
{
    db.settings.close_to_tray = write_toggle(enabled);
}

/// What a request to close the window does: it hides the window in the tray
/// where that is set, and closes it otherwise.
pub fn handle_close_requested(db: &Database) -> (hide: bool)
    ensures
        hide == toggle_of(text_of(db.settings.close_to_tray), false),
{
    get_close_to_tray(db)
}

/// The settings that the user interface shows.
pub fn read_settings(db: &Database) -> (settings: Settings)
    ensures
        settings.api_key == db.settings.api_key,
        settings.update_interval == interval_of(text_of(db.settings.update_interval)),
        settings.show_quick_start == toggle_of(text_of(db.settings.show_quick_start), true),
{
    Settings {
        api_key: get_api_key(db),
        update_interval: get_update_interval(db),
        show_quick_start: get_show_quick_start(db),
    }
}

/// An interval that was stored reads back as it was set.
pub proof fn lemma_interval_reads_back(interval: i64)
    ensures
        interval_of(Some(signed_decimal(interval as int))) == interval,
{
    lemma_signed_decimal_parses(interval);
}

/// A toggle that was stored reads back as it was set.
pub proof fn lemma_toggle_reads_back(on: bool, default: bool)
    ensures
        toggle_of(Some(toggle_text(on)), default) == on,
{
    reveal_strlit("true");
    reveal_strlit("false");
    assert("true"@.len() != "false"@.len());
}

} // verus!
