//! The field model as JSON text, the form in which the page's script reads it.
//!
//! Objects and arrays are written here; the quoting of strings is serde_json's.

use crate::model::{
    ChoiceOption, EnumOption, Field, FieldDescriptor, FieldKind, FieldType, SubcommandDescriptor,
    SubcommandGroup,
};
use crate::text::{bool_string, bool_text, Text};
use vstd::prelude::*;

verus! {

/// serde_json's error. It is only ever told apart from success.
#[verifier::external_type_specification]
#[verifier::external_body]
pub struct ExJsonError(serde_json::Error);

/// What `serde_json::to_string` makes of a string slice: the JSON string
/// literal for that text, or nothing where it reports an error.
pub uninterp spec fn json_string_of(s: Text) -> Option<Text>;

/// Calls `serde_json::to_string` on a string slice. Trusted: the outcome is
/// determined by the text alone.
#[verifier::external_body]
pub(crate) fn json_string(s: &str) -> (r: Result<String, serde_json::Error>)
    ensures
        match r {
            Ok(t) => json_string_of(s@) == Some(t@),
            Err(_) => json_string_of(s@) is None,
        },
{
    serde_json::to_string(s)
}

/// Whether `s` can be written as a JSON string.
pub open spec fn encodable(s: Text) -> bool {
    json_string_of(s) is Some
}

/// `s` as a JSON string literal.
pub open spec fn quoted(s: Text) -> Text
    recommends
        encodable(s),
{
    json_string_of(s)->0
}

/// Whether an optional text can be written as JSON.
pub open spec fn optional_encodable(s: Option<Text>) -> bool {
    match s {
        Some(t) => encodable(t),
        None => true,
    }
}

/// An optional text as JSON: the string, or `null`.
pub open spec fn optional_json(s: Option<Text>) -> Text {
    match s {
        Some(t) => quoted(t),
        None => "null"@,
    }
}

/// An optional character as text.
pub open spec fn char_text(c: Option<char>) -> Option<Text> {
    match c {
        Some(c) => Some(seq![c]),
        None => None,
    }
}

pub open spec fn option_encodable(o: ChoiceOption) -> bool {
    encodable(o.value) && encodable(o.description)
}

/// One option of a choice: an object with its value and its help text.
pub open spec fn option_json(o: ChoiceOption) -> Text {
    "{\"value\":"@ + quoted(o.value) + ",\"help\":"@ + quoted(o.description) + "}"@
}

pub open spec fn options_encodable(options: Seq<ChoiceOption>) -> bool {
    forall|i: int| 0 <= i < options.len() ==> option_encodable(#[trigger] options[i])
}

/// The elements of the array of options: the options in declared order,
/// separated by commas.
pub open spec fn option_items_json(options: Seq<ChoiceOption>) -> Text
    decreases options.len(),
{
    if options.len() == 0 {
        Seq::empty()
    } else if options.len() == 1 {
        option_json(options[0])
    } else {
        option_items_json(options.drop_last()) + ","@ + option_json(options.last())
    }
}

pub open spec fn kind_encodable(kind: FieldKind) -> bool {
    match kind {
        FieldKind::Choice(options) => options_encodable(options),
        _ => true,
    }
}

/// The kind of a field: an object with the kind's tag under `type`, and for a
/// choice its options under `options`.
pub open spec fn kind_json(kind: FieldKind) -> Text {
    match kind {
        FieldKind::Text => "{\"type\":\"String\"}"@,
        FieldKind::Flag => "{\"type\":\"Bool\"}"@,
        FieldKind::Number => "{\"type\":\"Integer\"}"@,
        FieldKind::Counter => "{\"type\":\"Counter\"}"@,
        FieldKind::Choice(options) => "{\"type\":\"Enum\",\"options\":["@ + option_items_json(
            options,
        ) + "]}"@,
        FieldKind::Multi => "{\"type\":\"Vec\"}"@,
    }
}

pub open spec fn field_encodable(f: Field) -> bool {
    &&& encodable(f.name)
    &&& optional_encodable(char_text(f.short_flag))
    &&& optional_encodable(f.long_flag)
    &&& encodable(f.description)
    &&& kind_encodable(f.kind)
    &&& optional_encodable(f.default_value)
}

/// One field: an object with the field's eight properties in a fixed order.
pub open spec fn field_json(f: Field) -> Text {
    "{\"name\":"@ + quoted(f.name) + ",\"short\":"@ + optional_json(char_text(f.short_flag))
        + ",\"long\":"@ + optional_json(f.long_flag) + ",\"help\":"@ + quoted(f.description)
        + ",\"field_type\":"@ + kind_json(f.kind) + ",\"default_value\":"@ + optional_json(
        f.default_value,
    ) + ",\"required\":"@ + bool_text(f.required) + ",\"is_positional\":"@ + bool_text(
        f.is_positional,
    ) + "}"@
}

pub open spec fn fields_encodable(fields: Seq<Field>) -> bool {
    forall|i: int| 0 <= i < fields.len() ==> field_encodable(#[trigger] fields[i])
}

/// The elements of the array of fields, separated by commas.
pub open spec fn field_items_json(fields: Seq<Field>) -> Text
    decreases fields.len(),
{
    if fields.len() == 0 {
        Seq::empty()
    } else if fields.len() == 1 {
        field_json(fields[0])
    } else {
        field_items_json(fields.drop_last()) + ","@ + field_json(fields.last())
    }
}

/// A field set: the array of its fields in declaration order.
pub open spec fn fields_json(fields: Seq<Field>) -> Text {
    "["@ + field_items_json(fields) + "]"@
}

pub open spec fn subcommand_encodable(g: SubcommandGroup) -> bool {
    encodable(g.name) && encodable(g.description) && fields_encodable(g.fields)
}

/// One subcommand: an object with its name, its help text and its fields.
pub open spec fn subcommand_json(g: SubcommandGroup) -> Text {
    "{\"name\":"@ + quoted(g.name) + ",\"help\":"@ + quoted(g.description) + ",\"fields\":"@
        + fields_json(g.fields) + "}"@
}

pub open spec fn subcommands_encodable(groups: Seq<SubcommandGroup>) -> bool {
    forall|i: int| 0 <= i < groups.len() ==> subcommand_encodable(#[trigger] groups[i])
}

/// The elements of the array of subcommands, separated by commas.
pub open spec fn subcommand_items_json(groups: Seq<SubcommandGroup>) -> Text
    decreases groups.len(),
{
    if groups.len() == 0 {
        Seq::empty()
    } else if groups.len() == 1 {
        subcommand_json(groups[0])
    } else {
        subcommand_items_json(groups.drop_last()) + ","@ + subcommand_json(groups.last())
    }
}

/// The subcommands of a form: the array of them in declared order.
pub open spec fn subcommands_json(groups: Seq<SubcommandGroup>) -> Text {
    "["@ + subcommand_items_json(groups) + "]"@
}

/// `s` as a JSON string literal, if it can be written as one.
fn quoted_string(s: &str) -> (r: Option<String>)
    ensures
        r is Some <==> encodable(s@),
        r matches Some(t) ==> t@ == quoted(s@),
{
    match json_string(s) {
        Ok(t) => Some(t),
        Err(_) => None,
    }
}

/// An optional string as JSON.
fn optional_json_string(s: &Option<String>) -> (r: Option<String>)
    ensures
        r is Some <==> optional_encodable(s.deep_view()),
        r matches Some(t) ==> t@ == optional_json(s.deep_view()),
{
    match s {
        Some(t) => quoted_string(t.as_str()),
        None => Some(String::from_str("null")),
    }
}

/// An optional character as JSON: a string of that one character, or `null`.
fn optional_char_json_string(c: Option<char>) -> (r: Option<String>)
    ensures
        r is Some <==> optional_encodable(char_text(c)),
        r matches Some(t) ==> t@ == optional_json(char_text(c)),
{
    match c {
        Some(c) => {
            let mut s = String::new();
            s.push(c);
            assert(s@ =~= seq![c]);
            quoted_string(s.as_str())
        },
        None => Some(String::from_str("null")),
    }
}

/// One option of a choice as JSON.
fn option_json_string(option: &EnumOption) -> (r: Option<String>)
    ensures
        r is Some <==> option_encodable(option@),
        r matches Some(t) ==> t@ == option_json(option@),
{
    let value = match quoted_string(option.value.as_str()) {
        Some(t) => t,
        None => { return None; },
    };
    let help = match quoted_string(option.help.as_str()) {
        Some(t) => t,
        None => { return None; },
    };
    let mut out = String::from_str("{\"value\":");
    out.append(value.as_str());
    out.append(",\"help\":");
    out.append(help.as_str());
    out.append("}");
    Some(out)
}

/// The elements of the array of options.
fn option_items_json_string(options: &Vec<EnumOption>) -> (r: Option<String>)
    ensures
        r is Some <==> options_encodable(options.deep_view()),
        r matches Some(t) ==> t@ == option_items_json(options.deep_view()),
{
    let ghost all = options.deep_view();
    let mut out = String::new();
    let mut i: usize = 0;
    while i < options.len()
        invariant
            i <= options.len(),
            all == options.deep_view(),
            options_encodable(all.take(i as int)),
            out@ == option_items_json(all.take(i as int)),
        decreases options.len() - i,
    {
        let item = match option_json_string(&options[i]) {
            Some(t) => t,
            None => {
                assert(!option_encodable(all[i as int]));
                return None;
            },
        };
        if i > 0 {
            out.append(",");
        }
        out.append(item.as_str());
        proof {
            let next = all.take(i + 1);
            assert(next.drop_last() =~= all.take(i as int));
            assert(next.last() == options[i as int]@);
            assert forall|k: int| 0 <= k < next.len() implies option_encodable(
                #[trigger] next[k],
            ) by {
                if k < i {
                    assert(next[k] == all.take(i as int)[k]);
                }
            }
            if i == 0 {
                assert(out@ =~= option_json(next[0]));
            }
        }
        i += 1;
    }
    assert(all.take(options.len() as int) =~= all);
    Some(out)
}

/// The kind of a field as JSON.
fn kind_json_string(kind: &FieldType) -> (r: Option<String>)
    ensures
        r is Some <==> kind_encodable(kind@),
        r matches Some(t) ==> t@ == kind_json(kind@),
{
    match kind {
        FieldType::String => Some(String::from_str("{\"type\":\"String\"}")),
        FieldType::Bool => Some(String::from_str("{\"type\":\"Bool\"}")),
        FieldType::Integer => Some(String::from_str("{\"type\":\"Integer\"}")),
        FieldType::Counter => Some(String::from_str("{\"type\":\"Counter\"}")),
        FieldType::Enum(options) => {
            let items = match option_items_json_string(options) {
                Some(t) => t,
                None => { return None; },
            };
            let mut out = String::from_str("{\"type\":\"Enum\",\"options\":[");
            out.append(items.as_str());
            out.append("]}");
            Some(out)
        },
        FieldType::Vec => Some(String::from_str("{\"type\":\"Vec\"}")),
    }
}

/// One field as JSON.
fn field_json_string(field: &FieldDescriptor) -> (r: Option<String>)
    ensures
        r is Some <==> field_encodable(field@),
        r matches Some(t) ==> t@ == field_json(field@),
{
    let name = match quoted_string(field.name.as_str()) {
        Some(t) => t,
        None => { return None; },
    };
    let short = match optional_char_json_string(field.short) {
        Some(t) => t,
        None => { return None; },
    };
    let long = match optional_json_string(&field.long) {
        Some(t) => t,
        None => { return None; },
    };
    let help = match quoted_string(field.help.as_str()) {
        Some(t) => t,
        None => { return None; },
    };
    let kind = match kind_json_string(&field.field_type) {
        Some(t) => t,
        None => { return None; },
    };
    let default_value = match optional_json_string(&field.default_value) {
        Some(t) => t,
        None => { return None; },
    };
    let mut out = String::from_str("{\"name\":");
    out.append(name.as_str());
    out.append(",\"short\":");
    out.append(short.as_str());
    out.append(",\"long\":");
    out.append(long.as_str());
    out.append(",\"help\":");
    out.append(help.as_str());
    out.append(",\"field_type\":");
    out.append(kind.as_str());
    out.append(",\"default_value\":");
    out.append(default_value.as_str());
    out.append(",\"required\":");
    out.append(bool_string(field.required).as_str());
    out.append(",\"is_positional\":");
    out.append(bool_string(field.is_positional).as_str());
    out.append("}");
    Some(out)
}

/// A field set as JSON, if every string in it can be written.
pub fn fields_json_string(fields: &Vec<FieldDescriptor>) -> (r: Option<String>)
    ensures
        r is Some <==> fields_encodable(fields.deep_view()),
        r matches Some(t) ==> t@ == fields_json(fields.deep_view()),
{
    let ghost all = fields.deep_view();
    let mut items = String::new();
    let mut i: usize = 0;
    while i < fields.len()
        invariant
            i <= fields.len(),
            all == fields.deep_view(),
            fields_encodable(all.take(i as int)),
            items@ == field_items_json(all.take(i as int)),
        decreases fields.len() - i,
    {
        let item = match field_json_string(&fields[i]) {
            Some(t) => t,
            None => {
                assert(!field_encodable(all[i as int]));
                return None;
            },
        };
        if i > 0 {
            items.append(",");
        }
        items.append(item.as_str());
        proof {
            let next = all.take(i + 1);
            assert(next.drop_last() =~= all.take(i as int));
            assert(next.last() == fields[i as int]@);
            assert forall|k: int| 0 <= k < next.len() implies field_encodable(
                #[trigger] next[k],
            ) by {
                if k < i {
                    assert(next[k] == all.take(i as int)[k]);
                }
            }
            if i == 0 {
                assert(items@ =~= field_json(next[0]));
            }
        }
        i += 1;
    }
    assert(all.take(fields.len() as int) =~= all);
    let mut out = String::from_str("[");
    out.append(items.as_str());
    out.append("]");
    Some(out)
}

/// One subcommand as JSON.
fn subcommand_json_string(subcommand: &SubcommandDescriptor) -> (r: Option<String>)
    ensures
        r is Some <==> subcommand_encodable(subcommand@),
        r matches Some(t) ==> t@ == subcommand_json(subcommand@),
{
    let name = match quoted_string(subcommand.name.as_str()) {
        Some(t) => t,
        None => { return None; },
    };
    let help = match quoted_string(subcommand.help.as_str()) {
        Some(t) => t,
        None => { return None; },
    };
    let fields = match fields_json_string(&subcommand.fields) {
        Some(t) => t,
        None => { return None; },
    };
    let mut out = String::from_str("{\"name\":");
    out.append(name.as_str());
    out.append(",\"help\":");
    out.append(help.as_str());
    out.append(",\"fields\":");
    out.append(fields.as_str());
    out.append("}");
    Some(out)
}

/// The subcommands of a form as JSON, if every string in them can be written.
pub fn subcommands_json_string(subcommands: &Vec<SubcommandDescriptor>) -> (r: Option<String>)
    ensures
        r is Some <==> subcommands_encodable(subcommands.deep_view()),
        r matches Some(t) ==> t@ == subcommands_json(subcommands.deep_view()),
{
    let ghost all = subcommands.deep_view();
    let mut items = String::new();
    let mut i: usize = 0;
    while i < subcommands.len()
        invariant
            i <= subcommands.len(),
            all == subcommands.deep_view(),
            subcommands_encodable(all.take(i as int)),
            items@ == subcommand_items_json(all.take(i as int)),
        decreases subcommands.len() - i,
    {
        let item = match subcommand_json_string(&subcommands[i]) {
            Some(t) => t,
            None => {
                assert(!subcommand_encodable(all[i as int]));
                return None;
            },
        };
        if i > 0 {
            items.append(",");
        }
        items.append(item.as_str());
        proof {
            let next = all.take(i + 1);
            assert(next.drop_last() =~= all.take(i as int));
            assert(next.last() == subcommands[i as int]@);
            assert forall|k: int| 0 <= k < next.len() implies subcommand_encodable(
                #[trigger] next[k],
            ) by {
                if k < i {
                    assert(next[k] == all.take(i as int)[k]);
                }
            }
            if i == 0 {
                assert(items@ =~= subcommand_json(next[0]));
            }
        }
        i += 1;
    }
    assert(all.take(subcommands.len() as int) =~= all);
    let mut out = String::from_str("[");
    out.append(items.as_str());
    out.append("]");
    Some(out)
}

} // verus!
