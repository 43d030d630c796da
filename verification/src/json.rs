//! JSON as the library reads it: parsed values, the embedded fields of a
//! template, and the structured metadata of an activity.

use crate::text::{decimal, from_chars, push_decimal, push_str, same_text};
use vstd::prelude::*;

verus! {

/// A JSON value. A number is kept as it is written; the members of an object
/// stand in the order of their keys.
#[derive(Debug, PartialEq, Eq)]
pub enum JsonValue {
    Null,
    Bool(bool),
    Number(String),
    Text(String),
    Array(Vec<JsonValue>),
    Object(Vec<(String, JsonValue)>),
}

/// `serde_json::Value`, carried through as it is: nothing is known of what
/// a value of it holds.
#[verifier::external_type_specification]
#[verifier::external_body]
pub struct ExJsonValue(serde_json::Value);

/// One variant of `serde_json::Value` to the same variant of `JsonValue`,
/// with its content moved over; a number by `Number::to_string`.
#[verifier::external_body]
fn lift_json(value: serde_json::Value) -> JsonValue {
    match value {
        serde_json::Value::Null => JsonValue::Null,
        serde_json::Value::Bool(b) => JsonValue::Bool(b),
        serde_json::Value::Number(n) => JsonValue::Number(n.to_string()),
        serde_json::Value::String(s) => JsonValue::Text(s),
        serde_json::Value::Array(items) => JsonValue::Array(
            items.into_iter().map(lift_json).collect(),
        ),
        serde_json::Value::Object(members) => JsonValue::Object(
            members.into_iter().map(|(k, v)| (k, lift_json(v))).collect(),
        ),
    }
}

/// What a text holds when read as a JSON array: its items, or the parser's
/// message where the text is no JSON array.
pub uninterp spec fn json_array(text: Seq<char>) -> Result<Seq<JsonValue>, Seq<char>>;

/// `serde_json::from_str::<Vec<serde_json::Value>>`. The contract names the
/// outcome after the text alone: the items on success, the displayed error
/// otherwise.
#[verifier::external_body]
fn parse_json_array(text: &str) -> (r: Result<Vec<JsonValue>, String>)
    ensures
        match r {
            Ok(items) => json_array(text@) == Ok::<Seq<JsonValue>, Seq<char>>(items@),
            Err(message) => json_array(text@) == Err::<Seq<JsonValue>, Seq<char>>(message@),
        },
{
    match serde_json::from_str::<Vec<serde_json::Value>>(text) {
        Ok(items) => Ok(items.into_iter().map(lift_json).collect()),
        Err(e) => Err(e.to_string()),
    }
}

/// One field of a rich embed.
#[derive(Debug, Clone, PartialEq, Eq)]
pub struct EmbedField {
    pub name: String,
    pub value: String,
    pub inline: bool,
}

/// Why a JSON value is no embed field.
#[derive(Debug, Clone, PartialEq, Eq)]
pub enum FieldFault {
    NotObject,
    MissingName,
    MissingValue,
    MissingInline,
    NameNotString,
    ValueNotString,
    InlineNotBoolean,
}

/// The value of the first member from position `from` on that has the key.
pub open spec fn member_from(members: Seq<(String, JsonValue)>, key: Seq<char>, from: int) -> Option<
    JsonValue,
>
    decreases members.len() - from,
{
    if from < 0 || from >= members.len() {
        None
    } else if members[from].0@ == key {
        Some(members[from].1)
    } else {
        member_from(members, key, from + 1)
    }
}

/// The value that an object holds under a key.
pub open spec fn member(members: Seq<(String, JsonValue)>, key: Seq<char>) -> Option<JsonValue> {
    member_from(members, key, 0)
}

/// The first reason, in the order of the checks, why a value is no embed
/// field: it must be an object with the members `name` and `value`, both
/// strings, and `inline`, a boolean.
pub open spec fn field_fault(value: JsonValue) -> Option<FieldFault> {
    match value {
        JsonValue::Object(members) => {
            let name = member(members@, "name"@);
            let val = member(members@, "value"@);
            let inline = member(members@, "inline"@);
            if name is None {
                Some(FieldFault::MissingName)
            } else if val is None {
                Some(FieldFault::MissingValue)
            } else if inline is None {
                Some(FieldFault::MissingInline)
            } else if !(name->0 is Text) {
                Some(FieldFault::NameNotString)
            } else if !(val->0 is Text) {
                Some(FieldFault::ValueNotString)
            } else if !(inline->0 is Bool) {
                Some(FieldFault::InlineNotBoolean)
            } else {
                None
            }
        },
        _ => Some(FieldFault::NotObject),
    }
}

/// The embed field that a faultless value holds.
pub open spec fn field_of(value: JsonValue) -> EmbedField
    recommends
        field_fault(value) is None,
{
    let members = value->Object_0@;
    EmbedField {
        name: member(members, "name"@)->0->Text_0,
        value: member(members, "value"@)->0->Text_0,
        inline: member(members, "inline"@)->0->Bool_0,
    }
}

/// What a fault says of the field at a position.
pub open spec fn fault_message(index: nat, fault: FieldFault) -> Seq<char> {
    "Field "@ + decimal(index) + match fault {
        FieldFault::NotObject => " is not an object"@,
        FieldFault::MissingName => " missing 'name' property"@,
        FieldFault::MissingValue => " missing 'value' property"@,
        FieldFault::MissingInline => " missing 'inline' property"@,
        FieldFault::NameNotString => " 'name' must be a string"@,
        FieldFault::ValueNotString => " 'value' must be a string"@,
        FieldFault::InlineNotBoolean => " 'inline' must be a boolean"@,
    }
}

/// The position of the first value from `from` on that is no embed field.
pub open spec fn first_faulty_from(values: Seq<JsonValue>, from: int) -> Option<int>
    decreases values.len() - from,
{
    if from < 0 || from >= values.len() {
        None
    } else if field_fault(values[from]) is Some {
        Some(from)
    } else {
        first_faulty_from(values, from + 1)
    }
}

/// The embed fields that a list of JSON values holds, or the message for the
/// first value that is none.
pub open spec fn embed_fields_of(values: Seq<JsonValue>) -> Result<Seq<EmbedField>, Seq<char>> {
    match first_faulty_from(values, 0) {
        Some(i) => Err(fault_message(i as nat, field_fault(values[i])->0)),
        None => Ok(Seq::new(values.len(), |i: int| field_of(values[i]))),
    }
}

/// The embed fields that a stored text holds: the parser's message where the
/// text is no JSON array, the first field's fault where one is malformed.
pub open spec fn parsed_embed_fields(text: Seq<char>) -> Result<Seq<EmbedField>, Seq<char>> {
    match json_array(text) {
        Err(message) => Err(message),
        Ok(values) => embed_fields_of(values),
    }
}

/// Whether a stored text is a list of embed fields, with the reason where it
/// is not.
pub open spec fn embed_fields_verdict(text: Seq<char>) -> Result<(), Seq<char>> {
    match json_array(text) {
        Err(message) => Err("Invalid JSON: "@ + message),
        Ok(values) => match embed_fields_of(values) {
            Err(message) => Err(message),
            Ok(_) => Ok(()),
        },
    }
}

fn find_member<'a>(members: &'a Vec<(String, JsonValue)>, key: &str) -> (found: Option<
    &'a JsonValue,
>)
    ensures
        match found {
            Some(v) => member(members@, key@) == Some(*v),
            None => member(members@, key@) is None,
        },
{
    let mut i: usize = 0;
    while i < members.len()
        invariant
            i <= members.len(),
            member(members@, key@) == member_from(members@, key@, i as int),
        decreases members.len() - i,
    {
        if same_text(members[i].0.as_str(), key) {
            return Some(&members[i].1);
        }
        i += 1;
    }
    None
}

/// Reads one JSON value as an embed field.
pub fn read_embed_field(value: &JsonValue) -> (r: Result<EmbedField, FieldFault>)
    ensures
        match r {
            Ok(field) => field_fault(*value) is None && field == field_of(*value),
            Err(fault) => field_fault(*value) == Some(fault),
        },
{
    match value {
        JsonValue::Object(members) => {
            let name = match find_member(members, "name") {
                Some(v) => v,
                None => { return Err(FieldFault::MissingName); },
            };
            let val = match find_member(members, "value") {
                Some(v) => v,
                None => { return Err(FieldFault::MissingValue); },
            };
            let inline = match find_member(members, "inline") {
                Some(v) => v,
                None => { return Err(FieldFault::MissingInline); },
            };
            let name_text = match name {
                JsonValue::Text(s) => s,
                _ => { return Err(FieldFault::NameNotString); },
            };
            let value_text = match val {
                JsonValue::Text(s) => s,
                _ => { return Err(FieldFault::ValueNotString); },
            };
            let inline_flag = match inline {
                JsonValue::Bool(b) => *b,
                _ => { return Err(FieldFault::InlineNotBoolean); },
            };
            Ok(EmbedField { name: name_text.clone(), value: value_text.clone(), inline: inline_flag })
        },
        _ => Err(FieldFault::NotObject),
    }
}

/// Writes what a fault says of the field at a position.
pub fn describe_fault(index: usize, fault: &FieldFault) -> (message: String)
    ensures
        message@ == fault_message(index as nat, *fault),
{
    let mut out: Vec<char> = Vec::new();
    push_str(&mut out, "Field ");
    push_decimal(&mut out, index as u64);
    match fault {
        FieldFault::NotObject => push_str(&mut out, " is not an object"),
        FieldFault::MissingName => push_str(&mut out, " missing 'name' property"),
        FieldFault::MissingValue => push_str(&mut out, " missing 'value' property"),
        FieldFault::MissingInline => push_str(&mut out, " missing 'inline' property"),
        FieldFault::NameNotString => push_str(&mut out, " 'name' must be a string"),
        FieldFault::ValueNotString => push_str(&mut out, " 'value' must be a string"),
        FieldFault::InlineNotBoolean => push_str(&mut out, " 'inline' must be a boolean"),
    }
    assert(out@ =~= fault_message(index as nat, *fault));
    from_chars(&out)
}

/// Reads a list of JSON values as embed fields. The first value that is no
/// embed field ends the reading with its message.
pub fn read_embed_fields(values: &Vec<JsonValue>) -> (r: Result<Vec<EmbedField>, String>)
    ensures
        match r {
            Ok(fields) => embed_fields_of(values@) == Ok::<Seq<EmbedField>, Seq<char>>(fields@),
            Err(message) => embed_fields_of(values@) == Err::<Seq<EmbedField>, Seq<char>>(
                message@,
            ),
        },
{
    let mut fields: Vec<EmbedField> = Vec::new();
    let mut i: usize = 0;
    while i < values.len()
        invariant
            i <= values.len(),
            first_faulty_from(values@, 0) == first_faulty_from(values@, i as int),
            fields.len() == i,
            forall|j: int| 0 <= j < i ==> fields@[j] == field_of(#[trigger] values@[j]),
        decreases values.len() - i,
    {
        match read_embed_field(&values[i]) {
            Ok(field) => {
                fields.push(field);
            },
            Err(fault) => {
                return Err(describe_fault(i, &fault));
            },
        }
        i += 1;
    }
    assert(fields@ =~= Seq::new(values@.len(), |i: int| field_of(values@[i])));
    Ok(fields)
}

/// Reads the embed fields that a template stores as text.
pub fn parse_embed_fields(text: &str) -> (r: Result<Vec<EmbedField>, String>)
    ensures
        match r {
            Ok(fields) => parsed_embed_fields(text@) == Ok::<Seq<EmbedField>, Seq<char>>(fields@),
            Err(message) => parsed_embed_fields(text@) == Err::<Seq<EmbedField>, Seq<char>>(
                message@,
            ),
        },
{
    match parse_json_array(text) {
        Ok(values) => read_embed_fields(&values),
        Err(message) => Err(message),
    }
}

/// Checks that a text is a JSON array of embed fields: objects with a string
/// `name`, a string `value` and a boolean `inline`.
pub fn validate_embed_fields(fields_str: &str) -> (r: Result<(), String>)
    ensures
        match r {
            Ok(_) => embed_fields_verdict(fields_str@) is Ok,
            Err(message) => embed_fields_verdict(fields_str@) == Err::<(), Seq<char>>(message@),
        },
{
    match parse_json_array(fields_str) {
        Ok(values) => match read_embed_fields(&values) {
            Ok(_) => Ok(()),
            Err(message) => Err(message),
        },
        Err(message) => {
            let mut out: Vec<char> = Vec::new();
            push_str(&mut out, "Invalid JSON: ");
            push_str(&mut out, message.as_str());
            Err(from_chars(&out))
        },
    }
}

/// A value in the structured metadata of an activity.
#[derive(Debug, Clone, PartialEq, Eq)]
pub enum MetaValue {
    Null,
    Int(i64),
    Text(String),
}

/// A metadata value with its text as characters.
pub enum MetaView {
    Null,
    Int(i64),
    Text(Seq<char>),
}

impl View for MetaValue {
    type V = MetaView;

    open spec fn view(&self) -> MetaView {
        match *self {
            MetaValue::Null => MetaView::Null,
            MetaValue::Int(n) => MetaView::Int(n),
            MetaValue::Text(s) => MetaView::Text(s@),
        }
    }
}

/// A metadata value for a text that may be absent.
pub open spec fn meta_text(text: Option<Seq<char>>) -> MetaView {
    match text {
        Some(s) => MetaView::Text(s),
        None => MetaView::Null,
    }
}

/// A metadata value for an identifier that may be absent.
pub open spec fn meta_id(id: Option<i64>) -> MetaView {
    match id {
        Some(n) => MetaView::Int(n),
        None => MetaView::Null,
    }
}

/// The members of a metadata object, keys and values by their characters.
pub open spec fn members_view(members: Seq<(String, MetaValue)>) -> Seq<(Seq<char>, MetaView)> {
    Seq::new(members.len(), |i: int| (members[i].0@, members[i].1@))
}

/// The JSON text of an object with the given members.
pub uninterp spec fn json_object_text(members: Seq<(Seq<char>, MetaView)>) -> Seq<char>;

/// `serde_json::Value::to_string` on the object built from the members with
/// `serde_json::Map`'s `FromIterator`, each value converted with
/// `serde_json::Value::from`. The contract names the text after the members'
/// keys and values.
#[verifier::external_body]
fn write_json_object(members: &Vec<(String, MetaValue)>) -> (text: String)
    ensures
        text@ == json_object_text(members_view(members@)),
{
    let object: serde_json::Map<String, serde_json::Value> = members.iter().map(
        |(key, value)| (key.clone(), match value {
            MetaValue::Null => serde_json::Value::Null,
            MetaValue::Int(n) => serde_json::Value::from(*n),
            MetaValue::Text(s) => serde_json::Value::from(s.clone()),
        }),
    ).collect();
    serde_json::Value::Object(object).to_string()
}

/// Collects the members of a metadata object.
pub struct MetaBuilder {
    pub members: Vec<(String, MetaValue)>,
}

impl MetaBuilder {
    /// The members so far, by their characters.
    pub open spec fn view(&self) -> Seq<(Seq<char>, MetaView)> {
        members_view(self.members@)
    }

    /// A builder without members.
    pub fn new() -> (b: MetaBuilder)
        ensures
            b@ == Seq::<(Seq<char>, MetaView)>::empty(),
    {
        let b = MetaBuilder { members: Vec::new() };
        assert(b@ =~= Seq::<(Seq<char>, MetaView)>::empty());
        b
    }

    fn put(&mut self, key: &str, value: MetaValue)
        ensures
            final(self)@ == old(self)@.push((key@, value@)),
    {
        self.members.push((String::from_str(key), value));
        assert(self@ =~= old(self)@.push((key@, value@)));
    }

    /// Adds a text member.
    pub fn text(&mut self, key: &str, value: &str)
        ensures
            final(self)@ == old(self)@.push((key@, MetaView::Text(value@))),
    {
        self.put(key, MetaValue::Text(String::from_str(value)));
    }

    /// Adds a text member, or a null where the text is absent.
    pub fn optional_text(&mut self, key: &str, value: &Option<String>)
        ensures
            final(self)@ == old(self)@.push(
                (
                    key@,
                    meta_text(
                        match *value {
                            Some(s) => Some(s@),
                            None => None,
                        },
                    ),
                ),
            ),
    {
        match value {
            Some(s) => self.put(key, MetaValue::Text(s.clone())),
            None => self.put(key, MetaValue::Null),
        }
    }

    /// Adds an integer member.
    pub fn integer(&mut self, key: &str, value: i64)
        ensures
            final(self)@ == old(self)@.push((key@, MetaView::Int(value))),
    {
        self.put(key, MetaValue::Int(value));
    }

    /// Adds an integer member, or a null where the integer is absent.
    pub fn optional_integer(&mut self, key: &str, value: Option<i64>)
        ensures
            final(self)@ == old(self)@.push((key@, meta_id(value))),
    {
        match value {
            Some(n) => self.put(key, MetaValue::Int(n)),
            None => self.put(key, MetaValue::Null),
        }
    }

    /// The JSON text of the object with the collected members.
    pub fn finish(&self) -> (text: String)
        ensures
            text@ == json_object_text(self@),
    {
        write_json_object(&self.members)
    }
}

} // verus!
