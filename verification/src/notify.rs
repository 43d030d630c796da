//! Notifications: the message that a template and the facts of an update
//! give, and what the answer of the chat service means.

use crate::dates::{format_date, formatted_date};
use crate::json::{parse_embed_fields, parsed_embed_fields, EmbedField};
use crate::records::{text_of, Webhook};
use crate::template::{
    replace_template_variables, substituted, ModUpdateData, UpdateFacts, WebhookTemplate,
};
use crate::text::{blank, is_blank};
use vstd::prelude::*;

verus! {

/// The author block of a rich embed.
#[derive(Debug, Clone, PartialEq, Eq)]
pub struct EmbedAuthor {
    pub name: String,
    pub icon_url: Option<String>,
}

/// The footer block of a rich embed.
#[derive(Debug, Clone, PartialEq, Eq)]
pub struct EmbedFooter {
    pub text: Option<String>,
    pub icon_url: Option<String>,
}

/// A rich embed of a chat message.
#[derive(Debug, Clone, PartialEq, Eq)]
pub struct Embed {
    pub title: String,
    pub description: Option<String>,
    pub color: i32,
    pub fields: Vec<EmbedField>,
    pub author: Option<EmbedAuthor>,
    pub footer: Option<EmbedFooter>,
    pub timestamp: Option<String>,
}

/// The body that is posted to a webhook: the sender, and either a plain
/// content or embeds.
#[derive(Debug, Clone, PartialEq, Eq)]
pub struct WebhookPayload {
    pub username: String,
    pub avatar_url: Option<String>,
    pub content: Option<String>,
    pub embeds: Vec<Embed>,
}

/// An embed field with its texts as characters.
pub struct EmbedFieldView {
    pub name: Seq<char>,
    pub value: Seq<char>,
    pub inline: bool,
}

/// An author block with its texts as characters.
pub struct EmbedAuthorView {
    pub name: Seq<char>,
    pub icon_url: Option<Seq<char>>,
}

/// A footer block with its texts as characters.
pub struct EmbedFooterView {
    pub text: Option<Seq<char>>,
    pub icon_url: Option<Seq<char>>,
}

/// An embed with its texts as characters.
pub struct EmbedView {
    pub title: Seq<char>,
    pub description: Option<Seq<char>>,
    pub color: i32,
    pub fields: Seq<EmbedFieldView>,
    pub author: Option<EmbedAuthorView>,
    pub footer: Option<EmbedFooterView>,
    pub timestamp: Option<Seq<char>>,
}

/// A payload with its texts as characters.
pub struct PayloadView {
    pub username: Seq<char>,
    pub avatar_url: Option<Seq<char>>,
    pub content: Option<Seq<char>>,
    pub embeds: Seq<EmbedView>,
}

impl View for EmbedField {
    type V = EmbedFieldView;

    open spec fn view(&self) -> EmbedFieldView {
        EmbedFieldView { name: self.name@, value: self.value@, inline: self.inline }
    }
}

impl View for EmbedAuthor {
    type V = EmbedAuthorView;

    open spec fn view(&self) -> EmbedAuthorView {
        EmbedAuthorView { name: self.name@, icon_url: text_of(self.icon_url) }
    }
}

impl View for EmbedFooter {
    type V = EmbedFooterView;

    open spec fn view(&self) -> EmbedFooterView {
        EmbedFooterView { text: text_of(self.text), icon_url: text_of(self.icon_url) }
    }
}

/// The fields of an embed with their texts as characters.
pub open spec fn fields_view(fields: Seq<EmbedField>) -> Seq<EmbedFieldView> {
    Seq::new(fields.len(), |i: int| fields[i]@)
}

impl View for Embed {
    type V = EmbedView;

    open spec fn view(&self) -> EmbedView {
        EmbedView {
            title: self.title@,
            description: text_of(self.description),
            color: self.color,
            fields: fields_view(self.fields@),
            author: match self.author {
                Some(a) => Some(a@),
                None => None,
            },
            footer: match self.footer {
                Some(f) => Some(f@),
                None => None,
            },
            timestamp: text_of(self.timestamp),
        }
    }
}

impl View for WebhookPayload {
    type V = PayloadView;

    open spec fn view(&self) -> PayloadView {
        PayloadView {
            username: self.username@,
            avatar_url: text_of(self.avatar_url),
            content: text_of(self.content),
            embeds: Seq::new(self.embeds@.len(), |i: int| self.embeds@[i]@),
        }
    }
}

/// A text that is present and holds more than white space.
pub open spec fn shown(text: Option<String>) -> Option<Seq<char>> {
    match text {
        Some(s) => if blank(s@) {
            None
        } else {
            Some(s@)
        },
        None => None,
    }
}

/// A templated text that may be absent, made concrete where it is shown.
pub open spec fn shown_substituted(text: Option<String>, facts: UpdateFacts) -> Option<Seq<char>> {
    match shown(text) {
        Some(s) => Some(substituted(s, facts)),
        None => None,
    }
}

/// The fields of a template made concrete.
pub open spec fn rendered_fields(fields: Seq<EmbedField>, facts: UpdateFacts) -> Seq<EmbedFieldView> {
    Seq::new(
        fields.len(),
        |i: int|
            EmbedFieldView {
                name: substituted(fields[i].name@, facts),
                value: substituted(fields[i].value@, facts),
                inline: fields[i].inline,
            },
    )
}

/// The author block of a template: present where the author's name is shown.
pub open spec fn rendered_author(template: WebhookTemplate, facts: UpdateFacts) -> Option<
    EmbedAuthorView,
> {
    match shown(template.author_name) {
        Some(name) => Some(
            EmbedAuthorView {
                name: substituted(name, facts),
                icon_url: shown_substituted(template.author_icon_url, facts),
            },
        ),
        None => None,
    }
}

/// The footer block of a template: present where the footer's text or icon
/// is shown, or the template asks for a timestamp.
pub open spec fn rendered_footer(template: WebhookTemplate, facts: UpdateFacts) -> Option<
    EmbedFooterView,
> {
    if shown(template.footer_text) is Some || shown(template.footer_icon_url) is Some
        || template.include_timestamp {
        Some(
            EmbedFooterView {
                text: shown_substituted(template.footer_text, facts),
                icon_url: shown_substituted(template.footer_icon_url, facts),
            },
        )
    } else {
        None
    }
}

/// The embed that a template gives for the facts of an update. `now` is the
/// time of rendering, which the embed carries where the template asks for a
/// timestamp.
pub open spec fn rendered_embed(
    template: WebhookTemplate,
    fields: Seq<EmbedField>,
    facts: UpdateFacts,
    now: Seq<char>,
) -> EmbedView {
    EmbedView {
        title: substituted(template.title@, facts),
        description: None,
        color: template.color,
        fields: rendered_fields(fields, facts),
        author: rendered_author(template, facts),
        footer: rendered_footer(template, facts),
        timestamp: if template.include_timestamp {
            Some(now)
        } else {
            None
        },
    }
}

/// The name under which a webhook posts: its own where one is shown.
pub open spec fn sender_name(webhook: Webhook) -> Seq<char> {
    match shown(webhook.username) {
        Some(name) => name,
        None => "Mod Tracker"@,
    }
}

/// The plain content of a template: its own, or the stock line.
pub open spec fn plain_content(template: WebhookTemplate) -> Seq<char> {
    match template.content {
        Some(content) => content@,
        None => "🔄 Mod Update Available!"@,
    }
}

/// The message that a template gives for a webhook and the facts of an
/// update: one embed where the template uses embeds, the plain content
/// otherwise.
pub open spec fn rendered_payload(
    template: WebhookTemplate,
    webhook: Webhook,
    fields: Seq<EmbedField>,
    facts: UpdateFacts,
    now: Seq<char>,
) -> PayloadView {
    PayloadView {
        username: sender_name(webhook),
        avatar_url: shown(webhook.avatar_url),
        content: if template.use_embed {
            None
        } else {
            Some(substituted(plain_content(template), facts))
        },
        embeds: if template.use_embed {
            seq![rendered_embed(template, fields, facts, now)]
        } else {
            Seq::empty()
        },
    }
}

/// The facts as a notification shows them: the two release dates formatted.
pub open spec fn shown_facts(facts: UpdateFacts) -> UpdateFacts {
    UpdateFacts {
        new_release_date: formatted_date(facts.new_release_date),
        old_release_date: formatted_date(facts.old_release_date),
        ..facts
    }
}

/// The notification of an update: the message, or the reason why the
/// template's stored fields cannot be read.
pub open spec fn rendered_notification(
    template: WebhookTemplate,
    webhook: Webhook,
    facts: UpdateFacts,
    now: Seq<char>,
) -> Result<PayloadView, Seq<char>> {
    match parsed_embed_fields(template.embed_fields@) {
        Err(message) => Err(message),
        Ok(fields) => Ok(rendered_payload(template, webhook, fields, shown_facts(facts), now)),
    }
}

fn show(text: &Option<String>) -> (kept: Option<String>)
    ensures
        text_of(kept) == shown(*text),
{
    match text {
        Some(s) => if is_blank(s.as_str()) {
            None
        } else {
            Some(s.clone())
        },
        None => None,
    }
}

fn show_substituted(text: &Option<String>, data: &ModUpdateData) -> (kept: Option<String>)
    ensures
        text_of(kept) == shown_substituted(*text, data@),
{
    match text {
        Some(s) => if is_blank(s.as_str()) {
            None
        } else {
            Some(replace_template_variables(s.as_str(), data))
        },
        None => None,
    }
}

/// Makes the fields of a template concrete.
pub fn render_fields(fields: &Vec<EmbedField>, data: &ModUpdateData) -> (out: Vec<EmbedField>)
    ensures
        fields_view(out@) == rendered_fields(fields@, data@),
{
    let mut out: Vec<EmbedField> = Vec::new();
    let mut i: usize = 0;
    while i < fields.len()
        invariant
            i <= fields.len(),
            out@.len() == i,
            forall|j: int| 0 <= j < i ==> (#[trigger] out@[j])@ == rendered_fields(fields@, data@)[j],
        decreases fields.len() - i,
    {
        let field = &fields[i];
        out.push(
            EmbedField {
                name: replace_template_variables(field.name.as_str(), data),
                value: replace_template_variables(field.value.as_str(), data),
                inline: field.inline,
            },
        );
        i += 1;
    }
    assert(fields_view(out@) =~= rendered_fields(fields@, data@));
    out
}

/// Renders the message for an update from a template, the fields that its
/// stored text holds, and the facts as they are to be shown.
pub fn render_payload(
    template: &WebhookTemplate,
    webhook: &Webhook,
    fields: &Vec<EmbedField>,
    data: &ModUpdateData,
    now: &str,
) -> (payload: WebhookPayload)
    ensures
        payload@ == rendered_payload(*template, *webhook, fields@, data@, now@),
{
    let username = match show(&webhook.username) {
        Some(name) => name,
        None => String::from_str("Mod Tracker"),
    };
    let avatar_url = show(&webhook.avatar_url);
    if !template.use_embed {
        let content = match &template.content {
            Some(content) => replace_template_variables(content.as_str(), data),
            None => replace_template_variables("🔄 Mod Update Available!", data),
        };
        let payload = WebhookPayload {
            username,
            avatar_url,
            content: Some(content),
            embeds: Vec::new(),
        };
        assert(payload@.embeds =~= Seq::empty());
        return payload;
    }
    let author = match show(&template.author_name) {
        Some(name) => Some(
            EmbedAuthor {
                name: replace_template_variables(name.as_str(), data),
                icon_url: show_substituted(&template.author_icon_url, data),
            },
        ),
        None => None,
    };
    let footer_text = show_substituted(&template.footer_text, data);
    let footer_icon = show_substituted(&template.footer_icon_url, data);
    let footer = if footer_text.is_some() || footer_icon.is_some() || template.include_timestamp {
        Some(EmbedFooter { text: footer_text, icon_url: footer_icon })
    } else {
        None
    };
    let embed = Embed {
        title: replace_template_variables(template.title.as_str(), data),
        description: None,
        color: template.color,
        fields: render_fields(fields, data),
        author,
        footer,
        timestamp: if template.include_timestamp {
            Some(String::from_str(now))
        } else {
            None
        },
    };
    assert(embed@ == rendered_embed(*template, fields@, data@, now@));
    let mut embeds: Vec<Embed> = Vec::new();
    embeds.push(embed);
    let payload = WebhookPayload { username, avatar_url, content: None, embeds };
    assert(payload@.embeds =~= seq![rendered_embed(*template, fields@, data@, now@)]);
    payload
}

/// The facts with the two release dates formatted for a notification.
pub fn show_facts(data: &ModUpdateData) -> (out: ModUpdateData)
    ensures
        out@ == shown_facts(data@),
{
    ModUpdateData {
        mod_id: data.mod_id,
        mod_name: data.mod_name.clone(),
        mod_author: data.mod_author.clone(),
        new_release_date: format_date(data.new_release_date.as_str()),
        old_release_date: format_date(data.old_release_date.as_str()),
        latest_file_name: data.latest_file_name.clone(),
    }
}

/// The outcome of a rendering is the notification of the update.
pub open spec fn is_rendering(
    outcome: Result<WebhookPayload, String>,
    template: WebhookTemplate,
    webhook: Webhook,
    facts: UpdateFacts,
    now: Seq<char>,
) -> bool {
    match outcome {
        Ok(payload) => rendered_notification(template, webhook, facts, now) == Ok::<
            PayloadView,
            Seq<char>,
        >(payload@),
        Err(message) => rendered_notification(template, webhook, facts, now) == Err::<
            PayloadView,
            Seq<char>,
        >(message@),
    }
}

/// Rendering again gives the same: two renderings from the same template,
/// webhook, facts and time are both messages with the same content, or both
/// fail for the same reason.
pub proof fn lemma_rendering_repeats(
    first: Result<WebhookPayload, String>,
    second: Result<WebhookPayload, String>,
    template: WebhookTemplate,
    webhook: Webhook,
    facts: UpdateFacts,
    now: Seq<char>,
)
    requires
        is_rendering(first, template, webhook, facts, now),
        is_rendering(second, template, webhook, facts, now),
    ensures
        match (first, second) {
            (Ok(a), Ok(b)) => a@ == b@,
            (Err(a), Err(b)) => a@ == b@,
            _ => false,
        },
{
}

/// Renders the notification of an update for a webhook. The message is a
/// function of the template, the webhook, the facts and the time of
/// rendering alone. A template whose stored fields are no list of embed
/// fields gives no message but the reason.
pub fn render_update_notification(
    template: &WebhookTemplate,
    webhook: &Webhook,
    data: &ModUpdateData,
    now: &str,
) -> (r: Result<WebhookPayload, String>)
    ensures
        is_rendering(r, *template, *webhook, data@, now@),
{
    let fields = match parse_embed_fields(template.embed_fields.as_str()) {
        Ok(fields) => fields,
        Err(message) => {
            return Err(message);
        },
    };
    let facts = show_facts(data);
    Ok(render_payload(template, webhook, &fields, &facts, now))
}

/// The message that tests a webhook.
pub open spec fn test_message(webhook: Webhook, now: Seq<char>) -> PayloadView {
    PayloadView {
        username: sender_name(webhook),
        avatar_url: shown(webhook.avatar_url),
        content: None,
        embeds: seq![
            EmbedView {
                title: "🧪 Test Message"@,
                description: Some("This is a test message from Arti's CurseForge Mod Tracker!"@),
                color: 5814783,
                fields: Seq::empty(),
                author: None,
                footer: Some(
                    EmbedFooterView { text: Some("Test completed successfully"@), icon_url: None },
                ),
                timestamp: Some(now),
            },
        ],
    }
}

/// Builds the message that tests a webhook.
pub fn test_payload(webhook: &Webhook, now: &str) -> (payload: WebhookPayload)
    ensures
        payload@ == test_message(*webhook, now@),
{
    let username = match show(&webhook.username) {
        Some(name) => name,
        None => String::from_str("Mod Tracker"),
    };
    let embed = Embed {
        title: String::from_str("🧪 Test Message"),
        description: Some(
            String::from_str("This is a test message from Arti's CurseForge Mod Tracker!"),
        ),
        color: 5814783,
        fields: Vec::new(),
        author: None,
        footer: Some(
            EmbedFooter { text: Some(String::from_str("Test completed successfully")), icon_url: None },
        ),
        timestamp: Some(String::from_str(now)),
    };
    assert(embed@.fields =~= Seq::empty());
    let mut embeds: Vec<Embed> = Vec::new();
    embeds.push(embed);
    let payload = WebhookPayload {
        username,
        avatar_url: show(&webhook.avatar_url),
        content: None,
        embeds,
    };
    assert(payload@.embeds =~= test_message(*webhook, now@).embeds);
    payload
}

/// The status of an HTTP answer is a success: 200 to 299.
pub open spec fn is_success(status: u16) -> bool {
    200 <= status <= 299
}

/// Whether the status of an HTTP answer is a success.
pub fn status_is_success(status: u16) -> (ok: bool)
    ensures
        ok == is_success(status),
{
    200 <= status && status <= 299
}

} // verus!
