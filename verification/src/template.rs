//! Notification templates: the stored record, the facts of an update, and the
//! substitution of placeholders and mention tokens in templated text.

use crate::records::clone_text;
use crate::text::{
    decimal, digit_value, find_from, lemma_decimal_is_digits, lemma_decimal_parses,
    lemma_index_of_first, from_chars, index_of_from, parse_u64, parsed_u64, push_decimal,
    push_signed_decimal, push_str, replace_all, replaced, signed_decimal, to_chars,
};
use vstd::prelude::*;

verus! {

/// How an update notification is worded and laid out: the system-wide default
/// or the custom template of one webhook.
#[derive(Debug, Clone, PartialEq, Eq)]
pub struct WebhookTemplate {
    pub id: Option<i64>,
    pub is_default: bool,
    pub webhook_id: Option<i64>,
    pub title: String,
    pub color: i32,
    pub content: Option<String>,
    pub use_embed: bool,
    pub author_name: Option<String>,
    pub author_icon_url: Option<String>,
    pub footer_text: Option<String>,
    pub footer_icon_url: Option<String>,
    pub include_timestamp: bool,
    pub embed_fields: String,
}

/// The facts of one mod update that a template can mention.
#[derive(Debug, Clone, PartialEq, Eq)]
pub struct ModUpdateData {
    pub mod_id: i64,
    pub mod_name: String,
    pub mod_author: String,
    pub new_release_date: String,
    pub old_release_date: String,
    pub latest_file_name: String,
}

/// The facts of an update with their texts as characters.
pub struct UpdateFacts {
    pub mod_id: i64,
    pub mod_name: Seq<char>,
    pub mod_author: Seq<char>,
    pub new_release_date: Seq<char>,
    pub old_release_date: Seq<char>,
    pub latest_file_name: Seq<char>,
}

impl View for ModUpdateData {
    type V = UpdateFacts;

    open spec fn view(&self) -> UpdateFacts {
        UpdateFacts {
            mod_id: self.mod_id,
            mod_name: self.mod_name@,
            mod_author: self.mod_author@,
            new_release_date: self.new_release_date@,
            old_release_date: self.old_release_date@,
            latest_file_name: self.latest_file_name@,
        }
    }
}

/// `text` with the placeholders of the fixed vocabulary filled in, one
/// placeholder after the other, in this order.
pub open spec fn placeholders_filled(text: Seq<char>, data: UpdateFacts) -> Seq<char> {
    let t = replaced(text, "{modID}"@, signed_decimal(data.mod_id as int));
    let t = replaced(t, "{modName}"@, data.mod_name);
    let t = replaced(t, "{newReleaseDate}"@, data.new_release_date);
    let t = replaced(t, "{oldPreviousDate}"@, data.old_release_date);
    let t = replaced(t, "{everyone}"@, "@everyone"@);
    let t = replaced(t, "{here}"@, "@here"@);
    let t = replaced(t, "{lastestModFileName}"@, data.latest_file_name);
    replaced(t, "{modAuthorName}"@, data.mod_author)
}

/// What is left of `text` from position `from` on when the mention tokens
/// with the given sigil are rewritten. A token is an opening brace, the
/// sigil, an unsigned integer and a closing brace; it becomes `open`, the
/// integer in decimal and `>`. A brace and sigil whose text up to the next
/// closing brace is no unsigned integer stay as they are, and so does all the
/// rest where no closing brace follows.
pub open spec fn mentions_from(text: Seq<char>, sigil: char, open: Seq<char>, from: int) -> Seq<
    char,
>
    decreases text.len() - from,
{
    if from < 0 || from >= text.len() {
        Seq::empty()
    } else if from + 1 < text.len() && text[from] == '{' && text[from + 1] == sigil {
        let close = index_of_from(text, '}', from + 2);
        if close >= text.len() || close < from + 2 {
            text.skip(from)
        } else {
            match parsed_u64(text.subrange(from + 2, close)) {
                Some(id) => open + decimal(id as nat) + ">"@ + mentions_from(
                    text,
                    sigil,
                    open,
                    close + 1,
                ),
                None => seq![text[from]] + mentions_from(text, sigil, open, from + 1),
            }
        }
    } else {
        seq![text[from]] + mentions_from(text, sigil, open, from + 1)
    }
}

/// `text` with its mention tokens of one sigil rewritten.
pub open spec fn mentions_rewritten(text: Seq<char>, sigil: char, open: Seq<char>) -> Seq<char> {
    mentions_from(text, sigil, open, 0)
}

/// `text` with its role mentions `{&id}` rewritten to `<@&id>`.
pub open spec fn role_mentions_rewritten(text: Seq<char>) -> Seq<char> {
    mentions_rewritten(text, '&', "<@&"@)
}

/// `text` with its channel mentions `{#id}` rewritten to `<#id>`.
pub open spec fn channel_mentions_rewritten(text: Seq<char>) -> Seq<char> {
    mentions_rewritten(text, '#', "<#"@)
}

/// A templated text made concrete: the placeholders filled in, then the role
/// mentions rewritten, then the channel mentions.
pub open spec fn substituted(text: Seq<char>, data: UpdateFacts) -> Seq<char> {
    channel_mentions_rewritten(role_mentions_rewritten(placeholders_filled(text, data)))
}

/// Rewrites the mention tokens of one sigil.
pub fn rewrite_mentions(text: &Vec<char>, sigil: char, open: &str) -> (out: Vec<char>)
    ensures
        out@ == mentions_rewritten(text@, sigil, open@),
{
    let mut out: Vec<char> = Vec::new();
    let mut i: usize = 0;
    let n: usize = text.len();
    while i < n
        invariant
            i <= n,
            n == text.len(),
            mentions_rewritten(text@, sigil, open@) == out@ + mentions_from(
                text@,
                sigil,
                open@,
                i as int,
            ),
        decreases n - i,
    {
        let ghost before = out@;
        let ghost rest = mentions_from(text@, sigil, open@, i as int);
        if n - i >= 2 && text[i] == '{' && text[i + 1] == sigil {
            let close: usize = find_from(text, '}', i + 2);
            if close >= n {
                let mut k: usize = i;
                while k < n
                    invariant
                        i <= k <= n,
                        n == text.len(),
                        out@ == before + text@.subrange(i as int, k as int),
                    decreases n - k,
                {
                    out.push(text[k]);
                    k += 1;
                    assert(out@ =~= before + text@.subrange(i as int, k as int));
                }
                assert(text@.subrange(i as int, n as int) =~= text@.skip(i as int));
                return out;
            }
            match parse_u64(text, i + 2, close) {
                Some(id) => {
                    push_str(&mut out, open);
                    push_decimal(&mut out, id);
                    out.push('>');
                    proof {
                        reveal_strlit(">");
                        assert(">"@ =~= seq!['>']);
                        let tail = mentions_from(text@, sigil, open@, close + 1);
                        assert(out@ + tail =~= before + (open@ + decimal(id as nat) + ">"@ + tail));
                    }
                    i = close + 1;
                },
                None => {
                    out.push(text[i]);
                    i += 1;
                    assert(out@ + mentions_from(text@, sigil, open@, i as int) =~= before + rest);
                },
            }
        } else {
            out.push(text[i]);
            i += 1;
            assert(out@ + mentions_from(text@, sigil, open@, i as int) =~= before + rest);
        }
    }
    assert(out@ + Seq::<char>::empty() =~= out@);
    out
}

fn replace_placeholder(text: &Vec<char>, placeholder: &str, with: &str) -> (out: Vec<char>)
    ensures
        out@ == replaced(text@, placeholder@, with@),
{
    let pat = to_chars(placeholder);
    let value = to_chars(with);
    replace_all(text, &pat, &value)
}

/// Makes a templated text concrete: fills in the placeholders `{modID}`,
/// `{modName}`, `{newReleaseDate}`, `{oldPreviousDate}`, `{everyone}`,
/// `{here}`, `{lastestModFileName}` and `{modAuthorName}`, then rewrites the
/// role mentions `{&id}` and the channel mentions `{#id}`.
pub fn replace_template_variables(text: &str, data: &ModUpdateData) -> (out: String)
    ensures
        out@ == substituted(text@, data@),
{
    let t = to_chars(text);
    let mut id: Vec<char> = Vec::new();
    push_signed_decimal(&mut id, data.mod_id);
    assert(id@ =~= signed_decimal(data.mod_id as int));
    let pat = to_chars("{modID}");
    let t = replace_all(&t, &pat, &id);
    let t = replace_placeholder(&t, "{modName}", data.mod_name.as_str());
    let t = replace_placeholder(&t, "{newReleaseDate}", data.new_release_date.as_str());
    let t = replace_placeholder(&t, "{oldPreviousDate}", data.old_release_date.as_str());
    let t = replace_placeholder(&t, "{everyone}", "@everyone");
    let t = replace_placeholder(&t, "{here}", "@here");
    let t = replace_placeholder(&t, "{lastestModFileName}", data.latest_file_name.as_str());
    let t = replace_placeholder(&t, "{modAuthorName}", data.mod_author.as_str());
    let t = rewrite_mentions(&t, '&', "<@&");
    let t = rewrite_mentions(&t, '#', "<#");
    from_chars(&t)
}

/// A copy of a template.
pub fn clone_template(t: &WebhookTemplate) -> (copy: WebhookTemplate)
    ensures
        copy == *t,
{
    WebhookTemplate {
        id: t.id,
        is_default: t.is_default,
        webhook_id: t.webhook_id,
        title: t.title.clone(),
        color: t.color,
        content: clone_text(&t.content),
        use_embed: t.use_embed,
        author_name: clone_text(&t.author_name),
        author_icon_url: clone_text(&t.author_icon_url),
        footer_text: clone_text(&t.footer_text),
        footer_icon_url: clone_text(&t.footer_icon_url),
        include_timestamp: t.include_timestamp,
        embed_fields: t.embed_fields.clone(),
    }
}

/// A mention token: an opening brace, the sigil, the id in decimal and a
/// closing brace.
pub open spec fn mention_token(sigil: char, id: u64) -> Seq<char> {
    seq!['{', sigil] + decimal(id as nat) + seq!['}']
}

/// A mention token with a numeric id is rewritten: `open`, the id and `>`
/// take its place.
pub proof fn lemma_mention_token_rewritten(sigil: char, open: Seq<char>, id: u64)
    ensures
        mentions_rewritten(mention_token(sigil, id), sigil, open) == open + decimal(id as nat)
            + ">"@,
{
    let digits = decimal(id as nat);
    let text = mention_token(sigil, id);
    let close = text.len() - 1;
    lemma_decimal_is_digits(id as nat);
    lemma_decimal_parses(id);
    assert(text[0] == '{' && text[1] == sigil && text[close] == '}');
    assert forall|j: int| 2 <= j < close implies text[j] != '}' by {
        assert(text[j] == digits[j - 2]);
        assert(digit_value(digits[j - 2]) is Some);
    }
    lemma_index_of_first(text, '}', 2, close);
    assert(text.subrange(2, close) =~= digits);
    assert(mentions_from(text, sigil, open, close + 1) =~= Seq::<char>::empty());
    assert(open + digits + ">"@ + Seq::<char>::empty() =~= open + digits + ">"@);
}

/// A role mention `{&id}` becomes `<@&id>`, and a channel mention `{#id}`
/// becomes `<#id>`, for every id.
pub proof fn lemma_mentions_rewritten(id: u64)
    ensures
        role_mentions_rewritten(mention_token('&', id)) == "<@&"@ + decimal(id as nat) + ">"@,
        channel_mentions_rewritten(mention_token('#', id)) == "<#"@ + decimal(id as nat) + ">"@,
{
    lemma_mention_token_rewritten('&', "<@&"@, id);
    lemma_mention_token_rewritten('#', "<#"@, id);
}

/// From a position on from which a text holds no opening brace, rewriting
/// the mentions leaves the text as it is.
pub proof fn lemma_without_brace_verbatim(text: Seq<char>, sigil: char, open: Seq<char>, from: int)
    requires
        0 <= from <= text.len(),
        forall|j: int| from <= j < text.len() ==> text[j] != '{',
    ensures
        mentions_from(text, sigil, open, from) == text.skip(from),
    decreases text.len() - from,
{
    if from < text.len() {
        lemma_without_brace_verbatim(text, sigil, open, from + 1);
        assert(seq![text[from]] + text.skip(from + 1) =~= text.skip(from));
    } else {
        assert(text.skip(from) =~= Seq::<char>::empty());
    }
}

/// A token whose text between the sigil and the closing brace is no
/// unsigned integer stays as it is.
pub proof fn lemma_malformed_mention_stays(sigil: char, open: Seq<char>, body: Seq<char>)
    requires
        sigil != '{',
        parsed_u64(body) is None,
        forall|j: int| 0 <= j < body.len() ==> body[j] != '{' && body[j] != '}',
    ensures
        mentions_rewritten(seq!['{', sigil] + body + seq!['}'], sigil, open) == seq!['{', sigil]
            + body + seq!['}'],
{
    let text = seq!['{', sigil] + body + seq!['}'];
    let close = text.len() - 1;
    assert(text[0] == '{' && text[1] == sigil && text[close] == '}');
    assert forall|j: int| 2 <= j < close implies text[j] != '}' by {
        assert(text[j] == body[j - 2]);
    }
    lemma_index_of_first(text, '}', 2, close);
    assert(text.subrange(2, close) =~= body);
    assert forall|j: int| 1 <= j < text.len() implies text[j] != '{' by {
        if 2 <= j < close {
            assert(text[j] == body[j - 2]);
        }
    }
    lemma_without_brace_verbatim(text, sigil, open, 1);
    assert(seq![text[0]] + text.skip(1) =~= text);
}

} // verus!
