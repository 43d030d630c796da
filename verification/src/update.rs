//! The update check: what the mod-hosting platform reports of a mod, held
//! against the release timestamp that is stored for it.

use crate::database::Database;
use crate::events::{
    can_log, event, log_event, log_full, logged_with, name_in, naming, new_event, with_id,
};
use crate::json::{json_object_text, meta_text, MetaBuilder, MetaView};
use crate::mods::{mod_updated_to, update_mod_last_updated};
use crate::records::{text_of, ErrorKind, TrackerError};
use crate::text::{
    from_chars, replace_all, replaced, same_text, strip_symbols, to_chars, trim, trimmed,
    without_symbols,
};
use vstd::prelude::*;

verus! {

/// The answer of the platform to a request for a mod.
#[derive(Debug, Clone, PartialEq, Eq)]
pub struct CurseForgeResponse {
    pub data: CurseForgeModData,
}

/// What the platform reports of a mod.
#[derive(Debug, Clone, PartialEq, Eq)]
pub struct CurseForgeModData {
    pub id: i64,
    pub name: String,
    pub date_modified: String,
    pub date_released: String,
    pub date_created: String,
    pub authors: Vec<ModAuthor>,
    pub latest_files: Vec<ModFile>,
    pub game_id: i64,
    pub logo: Option<ModLogo>,
    pub links: ModLinks,
    pub main_file_id: i64,
}

/// The links of a mod.
#[derive(Debug, Clone, PartialEq, Eq)]
pub struct ModLinks {
    pub website_url: Option<String>,
    pub wiki_url: Option<String>,
    pub issues_url: Option<String>,
    pub source_url: Option<String>,
}

/// An author of a mod.
#[derive(Debug, Clone, PartialEq, Eq)]
pub struct ModAuthor {
    pub name: String,
    pub url: String,
}

/// A file of a mod.
#[derive(Debug, Clone, PartialEq, Eq)]
pub struct ModFile {
    pub file_name: String,
}

/// The logo of a mod.
#[derive(Debug, Clone, PartialEq, Eq)]
pub struct ModLogo {
    pub id: i64,
    pub mod_id: i64,
    pub title: String,
    pub description: String,
    pub thumbnail_url: String,
    pub url: String,
}

/// What changed when a mod was updated.
#[derive(Debug, Clone, PartialEq, Eq)]
pub struct ModUpdateInfo {
    pub mod_id: i64,
    pub curseforge_id: i64,
    pub name: String,
    pub old_update_time: String,
    pub new_update_time: String,
    pub mod_author: String,
    pub latest_file_name: String,
    pub logo_url: Option<String>,
    pub changelog: Option<String>,
}

/// The answer of the platform to a request for a game.
#[derive(Debug, Clone, PartialEq, Eq)]
pub struct CurseForgeGameResponse {
    pub data: CurseForgeGameData,
}

/// What the platform reports of a game.
#[derive(Debug, Clone, PartialEq, Eq)]
pub struct CurseForgeGameData {
    pub id: i64,
    pub name: String,
}

/// A text with its HTML character references decoded.
pub uninterp spec fn html_entities_decoded(text: Seq<char>) -> Seq<char>;

/// `html_escape::decode_html_entities`: the text with its named and numeric
/// character references decoded. The contract names the outcome after the
/// text alone.
#[verifier::external_body]
fn decode_html_entities(text: &str) -> (decoded: String)
    ensures
        decoded@ == html_entities_decoded(text@),
{
    html_escape::decode_html_entities(text).into_owned()
}

/// A decoded changelog as plain text: without the characters that are
/// neither ASCII nor white space, the paragraph and line-break tags turned
/// into line ends, and the white space at both ends removed.
pub open spec fn plain_changelog(decoded: Seq<char>) -> Seq<char> {
    let t = without_symbols(decoded);
    let t = replaced(t, "<p>"@, ""@);
    let t = replaced(t, "</p>"@, "\n"@);
    let t = replaced(t, "<br>"@, "\n"@);
    let t = replaced(t, "<br/>"@, "\n"@);
    let t = replaced(t, "<br />"@, "\n"@);
    trimmed(t)
}

/// A changelog as the platform sends it, made plain text.
pub open spec fn sanitized_changelog(html: Seq<char>) -> Seq<char> {
    plain_changelog(html_entities_decoded(html))
}

fn replace_tag(text: &Vec<char>, tag: &str, with: &str) -> (out: Vec<char>)
    ensures
        out@ == replaced(text@, tag@, with@),
{
    let pat = to_chars(tag);
    let value = to_chars(with);
    replace_all(text, &pat, &value)
}

/// Turns a changelog whose character references are decoded into plain text.
pub fn plain_text_changelog(decoded: &str) -> (plain: String)
    ensures
        plain@ == plain_changelog(decoded@),
{
    let t = to_chars(decoded);
    let t = strip_symbols(&t);
    let t = replace_tag(&t, "<p>", "");
    let t = replace_tag(&t, "</p>", "\n");
    let t = replace_tag(&t, "<br>", "\n");
    let t = replace_tag(&t, "<br/>", "\n");
    let t = replace_tag(&t, "<br />", "\n");
    let t = trim(&t);
    from_chars(&t)
}

/// Turns a changelog as the platform sends it into plain text.
pub fn sanitize_changelog(html: &str) -> (plain: String)
    ensures
        plain@ == sanitized_changelog(html@),
{
    let decoded = decode_html_entities(html);
    plain_text_changelog(decoded.as_str())
}

/// The name of the first author, or a placeholder where none is listed.
pub open spec fn author_of(fetched: CurseForgeModData) -> Seq<char> {
    if fetched.authors@.len() > 0 {
        fetched.authors@[0].name@
    } else {
        "Unknown Author"@
    }
}

/// The address of the logo, where the mod has one.
pub open spec fn logo_of(fetched: CurseForgeModData) -> Option<Seq<char>> {
    match fetched.logo {
        Some(logo) => Some(logo.url@),
        None => None,
    }
}

/// The changelog as plain text, where one was fetched.
pub open spec fn changelog_of(html: Option<Seq<char>>) -> Option<Seq<char>> {
    match html {
        Some(h) => Some(sanitized_changelog(h)),
        None => None,
    }
}

/// The release timestamp that the platform reports differs from the stored
/// one, character by character.
pub open spec fn release_changed(current: Seq<char>, fetched: CurseForgeModData) -> bool {
    fetched.date_released@ != current
}

/// Whether the platform reports another release timestamp than the stored
/// one.
pub fn has_new_release(current_last_updated: &str, fetched: &CurseForgeModData) -> (changed: bool)
    ensures
        changed == release_changed(current_last_updated@, *fetched),
{
    !same_text(fetched.date_released.as_str(), current_last_updated)
}

/// The delta tells what changed: the old and the new release timestamp, the
/// author, the newest file, the logo and the changelog.
pub open spec fn describes_update(
    info: ModUpdateInfo,
    mod_id: i64,
    curseforge_id: i64,
    current: Seq<char>,
    fetched: CurseForgeModData,
    changelog_html: Option<Seq<char>>,
) -> bool {
    &&& info.mod_id == mod_id
    &&& info.curseforge_id == curseforge_id
    &&& info.name@ == fetched.name@
    &&& info.old_update_time@ == current
    &&& info.new_update_time@ == fetched.date_released@
    &&& info.mod_author@ == author_of(fetched)
    &&& fetched.latest_files@.len() > 0
    &&& info.latest_file_name@ == fetched.latest_files@[0].file_name@
    &&& text_of(info.logo_url) == logo_of(fetched)
    &&& text_of(info.changelog) == changelog_of(changelog_html)
}

/// The metadata of the event that a mod was updated.
pub open spec fn update_metadata(
    current: Seq<char>,
    fetched: CurseForgeModData,
    changelog_html: Option<Seq<char>>,
) -> Seq<char> {
    json_object_text(
        seq![
            ("old_version_date"@, MetaView::Text(current)),
            ("new_version_date"@, MetaView::Text(fetched.date_released@)),
            ("author"@, MetaView::Text(author_of(fetched))),
            ("latest_file"@, MetaView::Text(fetched.latest_files@[0].file_name@)),
            ("logo_url"@, meta_text(logo_of(fetched))),
            ("page_url"@, meta_text(text_of(fetched.links.website_url))),
            ("changelog"@, meta_text(changelog_of(changelog_html))),
        ],
    )
}

/// The event that a mod was updated.
pub open spec fn update_event(
    mod_id: i64,
    current: Seq<char>,
    fetched: CurseForgeModData,
    changelog_html: Option<Seq<char>>,
    now: i64,
) -> crate::records::ActivityView {
    event(
        "mod_updated"@,
        Some(mod_id),
        Some(fetched.name@),
        naming(""@, fetched.name@, " has been updated"@),
        now,
        update_metadata(current, fetched, changelog_html),
    )
}

/// The characters of a text that may be absent.
pub open spec fn chars_of(text: Option<&str>) -> Option<Seq<char>> {
    match text {
        Some(s) => Some(s@),
        None => None,
    }
}

/// Checks a mod for an update, given what the platform reports of it.
///
/// Where the reported release timestamp equals the stored one, there is no
/// update and nothing is written. Where it differs, the new timestamp is
/// stored; then a report without files is an error; else one entry is added
/// to the activity log and the delta is returned.
pub fn check_mod_update(
    db: &mut Database,
    mod_id: i64,
    curseforge_id: i64,
    current_last_updated: &str,
    fetched: &CurseForgeModData,
    changelog_html: Option<&str>,
    now: i64,
) -> (r: Result<Option<ModUpdateInfo>, TrackerError>)
    requires
        old(db).well_formed(),
    ensures
        final(db).well_formed(),
        !release_changed(current_last_updated@, *fetched) ==> (r matches Ok(None)) && *final(db)
            == *old(db),
        release_changed(current_last_updated@, *fetched) ==> {
            &&& final(db).mods@.len() == old(db).mods@.len()
            &&& forall|i: int|
                0 <= i < old(db).mods@.len() ==> if old(db).mods@[i].id == Some(mod_id) {
                    mod_updated_to(
                        old(db).mods@[i],
                        fetched.date_released@,
                        #[trigger] final(db).mods@[i],
                    )
                } else {
                    final(db).mods@[i] == old(db).mods@[i]
                }
            &&& if fetched.latest_files@.len() == 0 {
                &&& (r matches Err(e) && e.says(ErrorKind::UpstreamApi, "No files found for mod"@))
                &&& *final(db) == (Database { mods: final(db).mods, ..*old(db) })
            } else if !can_log(*old(db)) {
                &&& (r matches Err(e) && e.says(ErrorKind::Database, "activity ids are exhausted"@))
                &&& *final(db) == (Database { mods: final(db).mods, ..*old(db) })
            } else {
                &&& (r matches Ok(Some(info)) && describes_update(
                    info,
                    mod_id,
                    curseforge_id,
                    current_last_updated@,
                    *fetched,
                    chars_of(changelog_html),
                ))
                &&& *final(db) == (Database {
                    mods: final(db).mods,
                    activities: final(db).activities,
                    last_activity_id: final(db).last_activity_id,
                    ..*old(db)
                })
                &&& final(db).last_activity_id == old(db).last_activity_id + 1
                &&& logged_with(
                    old(db).activities@,
                    final(db).activities@,
                    with_id(
                        update_event(
                            mod_id,
                            current_last_updated@,
                            *fetched,
                            chars_of(changelog_html),
                            now,
                        ),
                        final(db).last_activity_id,
                    ),
                )
            }
        },
{
    if !has_new_release(current_last_updated, fetched) {
        return Ok(None);
    }
    let changelog: Option<String> = match changelog_html {
        Some(html) => Some(sanitize_changelog(html)),
        None => None,
    };
    update_mod_last_updated(db, mod_id, fetched.date_released.as_str());
    if fetched.latest_files.len() == 0 {
        return Err(TrackerError::new(ErrorKind::UpstreamApi, "No files found for mod"));
    }
    let latest_file = &fetched.latest_files[0];
    let author_name: String = if fetched.authors.len() > 0 {
        fetched.authors[0].name.clone()
    } else {
        String::from_str("Unknown Author")
    };
    let logo_url: Option<String> = match &fetched.logo {
        Some(logo) => Some(logo.url.clone()),
        None => None,
    };
    if db.last_activity_id == i64::MAX {
        return Err(log_full());
    }
    let mut meta = MetaBuilder::new();
    meta.text("old_version_date", current_last_updated);
    meta.text("new_version_date", fetched.date_released.as_str());
    meta.text("author", author_name.as_str());
    meta.text("latest_file", latest_file.file_name.as_str());
    meta.optional_text("logo_url", &logo_url);
    meta.optional_text("page_url", &fetched.links.website_url);
    meta.optional_text("changelog", &changelog);
    assert(meta@ =~= seq![
        ("old_version_date"@, MetaView::Text(current_last_updated@)),
        ("new_version_date"@, MetaView::Text(fetched.date_released@)),
        ("author"@, MetaView::Text(author_of(*fetched))),
        ("latest_file"@, MetaView::Text(fetched.latest_files@[0].file_name@)),
        ("logo_url"@, meta_text(logo_of(*fetched))),
        ("page_url"@, meta_text(text_of(fetched.links.website_url))),
        ("changelog"@, meta_text(changelog_of(chars_of(changelog_html)))),
    ]);
    let entry = new_event(
        "mod_updated",
        Some(mod_id),
        Some(fetched.name.as_str()),
        name_in("", fetched.name.as_str(), " has been updated"),
        now,
        meta.finish(),
    );
    log_event(db, entry);
    Ok(
        Some(
            ModUpdateInfo {
                mod_id,
                curseforge_id,
                name: fetched.name.clone(),
                old_update_time: String::from_str(current_last_updated),
                new_update_time: fetched.date_released.clone(),
                mod_author: author_name,
                latest_file_name: latest_file.file_name.clone(),
                logo_url,
                changelog,
            },
        ),
    )
}

} // verus!
