use mod_tracker::init::default_template;
use mod_tracker::json::{parse_embed_fields, validate_embed_fields, EmbedField};
use mod_tracker::notify::{
    render_payload, render_update_notification, test_payload, status_is_success,
};
use mod_tracker::records::Webhook;
use mod_tracker::template::{replace_template_variables, rewrite_mentions, ModUpdateData};

fn facts() -> ModUpdateData {
    ModUpdateData {
        mod_id: 4711,
        mod_name: "Shiny Blocks".to_string(),
        mod_author: "Ada".to_string(),
        new_release_date: "1st November 2024 at 14:42 UTC".to_string(),
        old_release_date: "3rd October 2024 at 09:05 UTC".to_string(),
        latest_file_name: "shiny-1.2.jar".to_string(),
    }
}

fn webhook() -> Webhook {
    Webhook {
        id: Some(3),
        name: "Updates".to_string(),
        url: "https://example.invalid/hook".to_string(),
        avatar_url: None,
        username: None,
        enabled: true,
        use_custom_template: false,
    }
}

#[test]
fn every_placeholder_is_filled() {
    let text = "{modID}|{modName}|{newReleaseDate}|{oldPreviousDate}|{everyone}|{here}|{lastestModFileName}|{modAuthorName}";
    assert_eq!(
        replace_template_variables(text, &facts()),
        "4711|Shiny Blocks|1st November 2024 at 14:42 UTC|3rd October 2024 at 09:05 UTC|@everyone|@here|shiny-1.2.jar|Ada"
    );
}

#[test]
fn a_placeholder_is_filled_wherever_it_stands() {
    assert_eq!(
        replace_template_variables("{modName} and {modName}!", &facts()),
        "Shiny Blocks and Shiny Blocks!"
    );
    assert_eq!(replace_template_variables("", &facts()), "");
    assert_eq!(replace_template_variables("{unknown} {modname}", &facts()), "{unknown} {modname}");
}

#[test]
fn negative_mod_id_is_written_with_its_sign() {
    let mut f = facts();
    f.mod_id = -12;
    assert_eq!(replace_template_variables("id {modID}", &f), "id -12");
}

#[test]
fn later_placeholders_see_earlier_values() {
    let mut f = facts();
    f.mod_name = "{here}".to_string();
    assert_eq!(replace_template_variables("{modName}", &f), "@here");
    f.mod_author = "{modName}".to_string();
    assert_eq!(replace_template_variables("{modAuthorName}", &f), "{modName}");
}

#[test]
fn role_and_channel_mentions_are_rewritten() {
    assert_eq!(replace_template_variables("{&123}", &facts()), "<@&123>");
    assert_eq!(replace_template_variables("{#123}", &facts()), "<#123>");
    assert_eq!(
        replace_template_variables("ping {&123} in {#456} and {&123}", &facts()),
        "ping <@&123> in <#456> and <@&123>"
    );
}

#[test]
fn non_numeric_mention_stays() {
    assert_eq!(replace_template_variables("{&abc}", &facts()), "{&abc}");
    assert_eq!(replace_template_variables("{#abc}", &facts()), "{#abc}");
    assert_eq!(replace_template_variables("{&}", &facts()), "{&}");
    assert_eq!(replace_template_variables("{&-1}", &facts()), "{&-1}");
    assert_eq!(replace_template_variables("{&12 }", &facts()), "{&12 }");
    assert_eq!(
        replace_template_variables("{&99999999999999999999999}", &facts()),
        "{&99999999999999999999999}"
    );
}

#[test]
fn mention_after_a_malformed_one_is_still_rewritten() {
    assert_eq!(replace_template_variables("{&abc} {&7}", &facts()), "{&abc} <@&7>");
    assert_eq!(replace_template_variables("{&x{&12}}", &facts()), "{&x<@&12>}");
}

#[test]
fn mention_numbers_are_written_in_decimal() {
    assert_eq!(replace_template_variables("{&007}", &facts()), "<@&7>");
    assert_eq!(replace_template_variables("{#+5}", &facts()), "<#5>");
    assert_eq!(
        replace_template_variables("{&18446744073709551615}", &facts()),
        "<@&18446744073709551615>"
    );
}

#[test]
fn unterminated_mention_stops_the_scan() {
    assert_eq!(replace_template_variables("a {&12", &facts()), "a {&12");
    assert_eq!(replace_template_variables("{&1} then {&2", &facts()), "<@&1> then {&2");
    assert_eq!(replace_template_variables("{#", &facts()), "{#");
}

#[test]
fn mentions_of_one_sigil_only() {
    let text: Vec<char> = "{&1}{#2}".chars().collect();
    let out: String = rewrite_mentions(&text, '&', "<@&").iter().collect();
    assert_eq!(out, "<@&1>{#2}");
    let out: String = rewrite_mentions(&text, '#', "<#").iter().collect();
    assert_eq!(out, "{&1}<#2>");
}

#[test]
fn embed_fields_are_read() {
    let fields = parse_embed_fields(
        "[{\"name\":\"A\",\"value\":\"{modName}\",\"inline\":true,\"extra\":1},{\"inline\":false,\"value\":\"v\",\"name\":\"n\"}]",
    )
    .unwrap();
    assert_eq!(
        fields,
        vec![
            EmbedField { name: "A".to_string(), value: "{modName}".to_string(), inline: true },
            EmbedField { name: "n".to_string(), value: "v".to_string(), inline: false },
        ]
    );
    assert_eq!(parse_embed_fields("[]").unwrap(), Vec::<EmbedField>::new());
}

#[test]
fn embed_fields_are_validated() {
    assert_eq!(validate_embed_fields("[]"), Ok(()));
    assert_eq!(
        validate_embed_fields("[{\"name\":\"a\",\"value\":\"b\",\"inline\":false}]"),
        Ok(())
    );
    assert_eq!(validate_embed_fields(&default_template().embed_fields), Ok(()));
}

#[test]
fn each_fault_of_an_embed_field_is_named() {
    let cases = [
        ("[1]", "Field 0 is not an object"),
        ("[{\"name\":\"a\",\"value\":\"b\",\"inline\":true},null]", "Field 1 is not an object"),
        ("[{\"value\":\"b\",\"inline\":true}]", "Field 0 missing 'name' property"),
        ("[{\"name\":\"a\",\"inline\":true}]", "Field 0 missing 'value' property"),
        ("[{\"name\":\"a\",\"value\":\"b\"}]", "Field 0 missing 'inline' property"),
        ("[{\"name\":1,\"value\":\"b\",\"inline\":true}]", "Field 0 'name' must be a string"),
        ("[{\"name\":\"a\",\"value\":[],\"inline\":true}]", "Field 0 'value' must be a string"),
        ("[{\"name\":\"a\",\"value\":\"b\",\"inline\":\"yes\"}]", "Field 0 'inline' must be a boolean"),
        ("[{\"name\":1,\"inline\":1}]", "Field 0 missing 'value' property"),
    ];
    for (text, message) in cases {
        assert_eq!(validate_embed_fields(text), Err(message.to_string()), "{}", text);
        assert_eq!(parse_embed_fields(text), Err(message.to_string()), "{}", text);
    }
    let mut many = String::from("[");
    for _ in 0..12 {
        many.push_str("{\"name\":\"a\",\"value\":\"b\",\"inline\":true},");
    }
    many.push_str("7]");
    assert_eq!(validate_embed_fields(&many), Err("Field 12 is not an object".to_string()));
}

#[test]
fn malformed_json_is_reported_with_the_parser_message() {
    for text in ["", "not json", "{\"name\":1}", "[1,", "\"text\""] {
        let expected = serde_json::from_str::<Vec<serde_json::Value>>(text).unwrap_err().to_string();
        assert_eq!(validate_embed_fields(text), Err(format!("Invalid JSON: {}", expected)));
        assert_eq!(parse_embed_fields(text), Err(expected));
    }
}

#[test]
fn default_template_renders_an_embed() {
    let raw = ModUpdateData {
        new_release_date: "2024-11-01T14:42:00Z".to_string(),
        old_release_date: "2024-10-03T09:05:00Z".to_string(),
        ..facts()
    };
    let payload =
        render_update_notification(&default_template(), &webhook(), &raw, "2024-11-02T00:00:00+00:00")
            .unwrap();
    assert_eq!(payload.username, "Mod Tracker");
    assert_eq!(payload.avatar_url, None);
    assert_eq!(payload.content, None);
    assert_eq!(payload.embeds.len(), 1);
    let embed = &payload.embeds[0];
    assert_eq!(embed.title, "🔄 Mod Update Available!");
    assert_eq!(embed.description, None);
    assert_eq!(embed.color, 5814783);
    assert_eq!(
        embed.fields,
        vec![
            EmbedField { name: "Mod Name".to_string(), value: "Shiny Blocks".to_string(), inline: true },
            EmbedField { name: "Author".to_string(), value: "Ada".to_string(), inline: true },
            EmbedField {
                name: "Last Updated".to_string(),
                value: "1st November 2024 at 14:42 UTC".to_string(),
                inline: false
            },
            EmbedField { name: "Latest File".to_string(), value: "shiny-1.2.jar".to_string(), inline: false },
        ]
    );
    let author = embed.author.as_ref().unwrap();
    assert_eq!(author.name, "Mod Tracker");
    assert_eq!(author.icon_url, None);
    let footer = embed.footer.as_ref().unwrap();
    assert_eq!(footer.text.as_deref(), Some("Powered by Artis Mod Tracker"));
    assert_eq!(footer.icon_url, None);
    assert_eq!(embed.timestamp.as_deref(), Some("2024-11-02T00:00:00+00:00"));
}

#[test]
fn rendering_twice_gives_the_same_message() {
    let mut template = default_template();
    template.title = "{modName} {&12} {everyone}".to_string();
    let a = render_update_notification(&template, &webhook(), &facts(), "now").unwrap();
    let b = render_update_notification(&template, &webhook(), &facts(), "now").unwrap();
    assert_eq!(a, b);
    assert_eq!(a.embeds[0].title, "Shiny Blocks <@&12> @everyone");
}

#[test]
fn blank_author_and_footer_are_left_out() {
    let mut template = default_template();
    template.author_name = Some("   ".to_string());
    template.author_icon_url = Some("https://example.invalid/a.png".to_string());
    template.footer_text = Some("\t".to_string());
    template.footer_icon_url = None;
    template.include_timestamp = false;
    let payload = render_update_notification(&template, &webhook(), &facts(), "now").unwrap();
    let embed = &payload.embeds[0];
    assert_eq!(embed.author, None);
    assert_eq!(embed.footer, None);
    assert_eq!(embed.timestamp, None);
}

#[test]
fn footer_is_there_for_the_timestamp_alone() {
    let mut template = default_template();
    template.footer_text = None;
    template.footer_icon_url = Some(" ".to_string());
    template.include_timestamp = true;
    let payload = render_update_notification(&template, &webhook(), &facts(), "T").unwrap();
    let footer = payload.embeds[0].footer.as_ref().unwrap();
    assert_eq!(footer.text, None);
    assert_eq!(footer.icon_url, None);
    assert_eq!(payload.embeds[0].timestamp.as_deref(), Some("T"));
}

#[test]
fn author_and_footer_icons_are_substituted() {
    let mut template = default_template();
    template.author_name = Some("by {modAuthorName}".to_string());
    template.author_icon_url = Some("https://example.invalid/{modID}.png".to_string());
    template.footer_text = None;
    template.footer_icon_url = Some("https://example.invalid/f/{modID}".to_string());
    template.include_timestamp = false;
    let payload = render_update_notification(&template, &webhook(), &facts(), "T").unwrap();
    let embed = &payload.embeds[0];
    let author = embed.author.as_ref().unwrap();
    assert_eq!(author.name, "by Ada");
    assert_eq!(author.icon_url.as_deref(), Some("https://example.invalid/4711.png"));
    let footer = embed.footer.as_ref().unwrap();
    assert_eq!(footer.text, None);
    assert_eq!(footer.icon_url.as_deref(), Some("https://example.invalid/f/4711"));
}

#[test]
fn plain_content_replaces_the_embed() {
    let mut template = default_template();
    template.use_embed = false;
    template.content = Some("{modName} was updated, {here}".to_string());
    let payload = render_update_notification(&template, &webhook(), &facts(), "T").unwrap();
    assert_eq!(payload.content.as_deref(), Some("Shiny Blocks was updated, @here"));
    assert!(payload.embeds.is_empty());
    template.content = None;
    let payload = render_update_notification(&template, &webhook(), &facts(), "T").unwrap();
    assert_eq!(payload.content.as_deref(), Some("🔄 Mod Update Available!"));
}

#[test]
fn sender_comes_from_the_webhook() {
    let mut w = webhook();
    w.username = Some("Herald".to_string());
    w.avatar_url = Some("https://example.invalid/h.png".to_string());
    let payload = render_update_notification(&default_template(), &w, &facts(), "T").unwrap();
    assert_eq!(payload.username, "Herald");
    assert_eq!(payload.avatar_url.as_deref(), Some("https://example.invalid/h.png"));
    w.username = Some("  ".to_string());
    w.avatar_url = Some("".to_string());
    let payload = render_update_notification(&default_template(), &w, &facts(), "T").unwrap();
    assert_eq!(payload.username, "Mod Tracker");
    assert_eq!(payload.avatar_url, None);
}

#[test]
fn malformed_fields_abort_the_rendering() {
    let mut template = default_template();
    template.embed_fields = "[{\"name\":\"a\"}]".to_string();
    assert_eq!(
        render_update_notification(&template, &webhook(), &facts(), "T"),
        Err("Field 0 missing 'value' property".to_string())
    );
    template.use_embed = false;
    template.embed_fields = "oops".to_string();
    let expected = serde_json::from_str::<Vec<serde_json::Value>>("oops").unwrap_err().to_string();
    assert_eq!(render_update_notification(&template, &webhook(), &facts(), "T"), Err(expected));
}

#[test]
fn payload_is_rendered_from_given_fields() {
    let fields = vec![EmbedField {
        name: "{modName}".to_string(),
        value: "{&9} {oldPreviousDate}".to_string(),
        inline: true,
    }];
    let payload = render_payload(&default_template(), &webhook(), &fields, &facts(), "T");
    assert_eq!(
        payload.embeds[0].fields,
        vec![EmbedField {
            name: "Shiny Blocks".to_string(),
            value: "<@&9> 3rd October 2024 at 09:05 UTC".to_string(),
            inline: true
        }]
    );
}

#[test]
fn test_message_is_built() {
    let payload = test_payload(&webhook(), "2024-01-01T00:00:00+00:00");
    assert_eq!(payload.username, "Mod Tracker");
    assert_eq!(payload.content, None);
    assert_eq!(payload.embeds.len(), 1);
    let embed = &payload.embeds[0];
    assert_eq!(embed.title, "🧪 Test Message");
    assert_eq!(
        embed.description.as_deref(),
        Some("This is a test message from Arti's CurseForge Mod Tracker!")
    );
    assert_eq!(embed.color, 5814783);
    assert!(embed.fields.is_empty());
    assert_eq!(embed.author, None);
    assert_eq!(embed.footer.as_ref().unwrap().text.as_deref(), Some("Test completed successfully"));
    assert_eq!(embed.timestamp.as_deref(), Some("2024-01-01T00:00:00+00:00"));
}

#[test]
fn success_is_a_status_from_200_to_299() {
    assert!(status_is_success(200));
    assert!(status_is_success(204));
    assert!(status_is_success(299));
    assert!(!status_is_success(199));
    assert!(!status_is_success(300));
    assert!(!status_is_success(404));
    assert!(!status_is_success(0));
}
