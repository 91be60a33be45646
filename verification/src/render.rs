//! The markup renderer: one labelled control per field, and for a form with
//! subcommands a selector and one section per subcommand, hidden until chosen.
//!
//! Positional arguments are kept in the form. A text field without any flag is
//! entered in a multi-line text area; every other field renders by its kind.

use crate::markup::{
    attribute, attribute_string, element, element_string, escaped, html_escaped,
    lemma_occurs_in_attributes, lemma_occurs_in_element, lemma_occurs_in_void_element, toggle,
    toggle_string, void_element, void_element_string,
};
use crate::model::{
    ChoiceOption, EnumOption, Field, FieldDescriptor, FieldKind, FieldType, SubcommandDescriptor,
    SubcommandGroup,
};
use crate::text::{
    bool_string, bool_text, chars_of, join, lemma_occurs_before, lemma_occurs_behind,
    lemma_occurs_whole, occurs_at, push_chars, replace_char, replaced_char, same_text, skipped,
    uppercase, uppercase_of, Text,
};
use vstd::prelude::*;

verus! {

/// The text of an optional string slice.
pub open spec fn prefix_text(prefix: Option<&str>) -> Option<Text> {
    match prefix {
        Some(p) => Some(p@),
        None => None,
    }
}

/// The identity of a field's control in the page: the field's name, behind the
/// name of its subcommand and a hyphen where it belongs to one.
pub open spec fn control_id(prefix: Option<Text>, name: Text) -> Text {
    match prefix {
        Some(p) => p + "-"@ + name,
        None => name,
    }
}

/// What a field is called in the page: its help text, or without one its name
/// if it is positional, else its long flag, else its name.
pub open spec fn label_text(f: Field) -> Text {
    if f.description.len() > 0 {
        f.description
    } else if f.is_positional {
        f.name
    } else {
        match f.long_flag {
            Some(l) => l,
            None => f.name,
        }
    }
}

/// The flag forms of a field as they are typed: `-s`, `--long`.
pub open spec fn flag_forms(f: Field) -> Seq<Text> {
    let short = match f.short_flag {
        Some(c) => seq!["-"@.push(c)],
        None => Seq::<Text>::empty(),
    };
    let long = match f.long_flag {
        Some(l) => seq!["--"@ + l],
        None => Seq::<Text>::empty(),
    };
    short + long
}

/// The hint shown beside a label: the flag forms in parentheses, or nothing for
/// a positional field and for one without flags.
pub open spec fn flag_info(f: Field) -> Text {
    if !f.is_positional && flag_forms(f).len() > 0 {
        " ("@ + join(flag_forms(f), ", "@) + ")"@
    } else {
        Seq::empty()
    }
}

/// The mark that follows the label of a required field.
pub open spec fn required_marker(f: Field) -> Text {
    if f.required {
        " *"@
    } else {
        Seq::empty()
    }
}

/// The default value of a field, or `fallback` where it has none.
pub open spec fn default_or(f: Field, fallback: Text) -> Text {
    match f.default_value {
        Some(d) => d,
        None => fallback,
    }
}

/// `s` with its first character in upper case.
pub open spec fn capitalized(s: Text) -> Text {
    if s.len() == 0 {
        Seq::empty()
    } else {
        uppercase_of(s[0]) + s.skip(1)
    }
}

/// A value made readable: hyphens and underscores become spaces and the first
/// letter a capital.
pub open spec fn humanized(value: Text) -> Text {
    capitalized(replace_char(replace_char(value, '-', " "@), '_', " "@))
}

/// What an option of a choice shows: its description with the raw value in
/// parentheses, or without a description the value made readable.
pub open spec fn option_label(o: ChoiceOption) -> Text {
    if o.description.len() > 0 {
        o.description + " ("@ + o.value + ")"@
    } else {
        humanized(o.value)
    }
}

/// One option of a select control, selected when its value is `selected`.
pub open spec fn option_markup(o: ChoiceOption, selected: Text) -> Text {
    element(
        "option"@,
        attribute("value"@, o.value) + toggle("selected"@, o.value == selected),
        html_escaped(option_label(o)),
    )
}

/// The options of a select control, in declared order.
pub open spec fn options_markup(options: Seq<ChoiceOption>, selected: Text) -> Text
    decreases options.len(),
{
    if options.len() == 0 {
        Seq::empty()
    } else {
        options_markup(options.drop_last(), selected) + option_markup(options.last(), selected)
    }
}

/// Whether a select control starts on an empty "please choose" entry: it does
/// when the field is not required and has no default, or an empty one.
pub open spec fn offers_empty_choice(f: Field) -> bool {
    !f.required && default_or(f, Seq::empty()).len() == 0
}

/// The empty entry that a select control may start on.
pub open spec fn empty_choice_markup() -> Text {
    element(
        "option"@,
        attribute("value"@, Seq::empty()) + toggle("selected"@, true),
        html_escaped("-- Select an option --"@),
    )
}

/// The label of a control.
pub open spec fn label_markup(id: Text, f: Field) -> Text {
    element(
        "label"@,
        attribute("for"@, id),
        html_escaped(label_text(f)) + html_escaped(required_marker(f)),
    )
}

/// The hint with the flag forms, present when there are any.
pub open spec fn hint_markup(f: Field) -> Text {
    if flag_info(f).len() > 0 {
        element("span"@, attribute("class"@, "help-text"@), html_escaped(flag_info(f)))
    } else {
        Seq::empty()
    }
}

/// The attributes that every field's group carries: its classes, the field's
/// name and whether it is positional.
pub open spec fn group_attributes(classes: Text, f: Field) -> Text {
    attribute("class"@, classes) + attribute("data-field-name"@, f.name) + attribute(
        "data-is-positional"@,
        bool_text(f.is_positional),
    )
}

/// The `id` and `name` attributes of a control.
pub open spec fn identity_attributes(id: Text) -> Text {
    attribute("id"@, id) + attribute("name"@, id)
}

/// A free-form field without flags: a multi-line text area.
pub open spec fn text_area_markup(id: Text, f: Field) -> Text {
    element(
        "div"@,
        group_attributes("field-group"@, f),
        label_markup(id, f) + element(
            "textarea"@,
            identity_attributes(id) + attribute("placeholder"@, label_text(f)) + toggle(
                "required"@,
                f.required,
            ) + attribute("rows"@, "5"@),
            html_escaped(default_or(f, Seq::empty())),
        ),
    )
}

/// A free-form field with a flag: a single-line text input.
pub open spec fn text_input_markup(id: Text, f: Field) -> Text {
    element(
        "div"@,
        group_attributes("field-group"@, f),
        label_markup(id, f) + hint_markup(f) + void_element(
            "input"@,
            attribute("type"@, "text"@) + identity_attributes(id) + attribute(
                "value"@,
                default_or(f, Seq::empty()),
            ) + attribute("placeholder"@, label_text(f)) + toggle("required"@, f.required),
        ),
    )
}

/// A flag: a checkbox inside its label, never checked to begin with.
pub open spec fn checkbox_markup(id: Text, f: Field) -> Text {
    element(
        "div"@,
        group_attributes("field-group checkbox-group"@, f),
        element(
            "label"@,
            attribute("for"@, id),
            void_element("input"@, attribute("type"@, "checkbox"@) + identity_attributes(id))
                + html_escaped(label_text(f)) + html_escaped(required_marker(f)),
        ) + hint_markup(f),
    )
}

/// An integer: a number input that starts at the default, or at 0.
pub open spec fn number_markup(id: Text, f: Field) -> Text {
    element(
        "div"@,
        group_attributes("field-group"@, f),
        label_markup(id, f) + hint_markup(f) + void_element(
            "input"@,
            attribute("type"@, "number"@) + identity_attributes(id) + attribute(
                "value"@,
                default_or(f, "0"@),
            ) + toggle("required"@, f.required),
        ),
    )
}

/// A counter: a number input from 0 up, with the note that the flag is
/// repeated as often as the number says.
pub open spec fn counter_markup(id: Text, f: Field) -> Text {
    element(
        "div"@,
        group_attributes("field-group"@, f),
        label_markup(id, f) + element(
            "span"@,
            attribute("class"@, "help-text"@),
            html_escaped(flag_info(f)) + html_escaped(" (flag will be repeated N times)"@),
        ) + void_element(
            "input"@,
            attribute("type"@, "number"@) + identity_attributes(id) + attribute(
                "value"@,
                default_or(f, "0"@),
            ) + attribute("min"@, "0"@) + toggle("required"@, f.required),
        ),
    )
}

/// A choice: a select control with one option per declared value, the default
/// selected, and before them the empty entry where the field offers it.
pub open spec fn select_markup(id: Text, f: Field, options: Seq<ChoiceOption>) -> Text {
    element(
        "div"@,
        group_attributes("field-group"@, f),
        label_markup(id, f) + hint_markup(f) + element(
            "select"@,
            identity_attributes(id) + toggle("required"@, f.required),
            (if offers_empty_choice(f) {
                empty_choice_markup()
            } else {
                Seq::empty()
            }) + options_markup(options, default_or(f, Seq::empty())),
        ),
    )
}

/// A multi-value field: an input to type a value into and an empty area that
/// collects the accepted values.
pub open spec fn multi_markup(id: Text, f: Field) -> Text {
    element(
        "div"@,
        group_attributes("field-group vec-group"@, f) + attribute(
            "data-vec-required"@,
            bool_text(f.required),
        ),
        label_markup(id, f) + hint_markup(f) + element(
            "div"@,
            attribute("class"@, "vec-container"@) + attribute("id"@, id + "-container"@),
            void_element(
                "input"@,
                attribute("class"@, "vec-input"@) + attribute("type"@, "text"@) + attribute(
                    "placeholder"@,
                    "Enter value and press Enter"@,
                ) + attribute("data-field-name"@, id),
            ) + element(
                "div"@,
                attribute("class"@, "vec-items"@) + attribute("id"@, id + "-items"@),
                Seq::empty(),
            ),
        ),
    )
}

/// The markup of one field: its group with label, hint and control.
pub open spec fn field_markup(f: Field, prefix: Option<Text>) -> Text {
    let id = control_id(prefix, f.name);
    match f.kind {
        FieldKind::Text => if f.short_flag is None && f.long_flag is None {
            text_area_markup(id, f)
        } else {
            text_input_markup(id, f)
        },
        FieldKind::Flag => checkbox_markup(id, f),
        FieldKind::Number => number_markup(id, f),
        FieldKind::Counter => counter_markup(id, f),
        FieldKind::Choice(options) => select_markup(id, f, options),
        FieldKind::Multi => multi_markup(id, f),
    }
}

/// The markup of a field set: the fields' markup in declaration order.
pub open spec fn fields_markup(fields: Seq<Field>, prefix: Option<Text>) -> Text
    decreases fields.len(),
{
    if fields.len() == 0 {
        Seq::empty()
    } else {
        fields_markup(fields.drop_last(), prefix) + field_markup(fields.last(), prefix)
    }
}

/// What a subcommand is called: its help text with the name in parentheses, or
/// without help text the name alone.
pub open spec fn subcommand_label(g: SubcommandGroup) -> Text {
    if g.description.len() > 0 {
        g.description + " ("@ + g.name + ")"@
    } else {
        g.name
    }
}

/// The heading of a subcommand's section.
pub open spec fn section_heading(g: SubcommandGroup) -> Text {
    if g.description.len() > 0 {
        g.description + " ("@ + g.name + ")"@
    } else {
        "Options for '"@ + g.name + "'"@
    }
}

/// The entry of one subcommand in the selector.
pub open spec fn selector_option_markup(g: SubcommandGroup) -> Text {
    element("option"@, attribute("value"@, g.name), html_escaped(subcommand_label(g)))
}

/// The selector's entries, one per subcommand in declared order.
pub open spec fn selector_options_markup(groups: Seq<SubcommandGroup>) -> Text
    decreases groups.len(),
{
    if groups.len() == 0 {
        Seq::empty()
    } else {
        selector_options_markup(groups.drop_last()) + selector_option_markup(groups.last())
    }
}

/// The control that chooses a subcommand. It starts on an empty entry: no
/// subcommand is chosen to begin with.
pub open spec fn selector_markup(groups: Seq<SubcommandGroup>) -> Text {
    element(
        "div"@,
        attribute("class"@, "field-group"@),
        element(
            "label"@,
            attribute("for"@, "subcommand-selector"@),
            html_escaped("Select Subcommand"@),
        ) + element(
            "select"@,
            attribute("id"@, "subcommand-selector"@) + attribute("name"@, "subcommand"@),
            element(
                "option"@,
                attribute("value"@, Seq::empty()) + toggle("selected"@, true),
                html_escaped("-- Select a subcommand --"@),
            ) + selector_options_markup(groups),
        ),
    )
}

/// The section of one subcommand: hidden, with a heading and the subcommand's
/// fields, whose controls carry the subcommand's name as prefix.
pub open spec fn section_markup(g: SubcommandGroup) -> Text {
    element(
        "div"@,
        attribute("class"@, "subcommand-fields"@) + attribute("id"@, "subcommand-"@ + g.name)
            + attribute("data-subcommand"@, g.name) + attribute("style"@, "display: none;"@),
        element("h3"@, Seq::empty(), html_escaped(section_heading(g))) + fields_markup(
            g.fields,
            Some(g.name),
        ),
    )
}

/// The sections of all subcommands, in declared order.
pub open spec fn sections_markup(groups: Seq<SubcommandGroup>) -> Text
    decreases groups.len(),
{
    if groups.len() == 0 {
        Seq::empty()
    } else {
        sections_markup(groups.drop_last()) + section_markup(groups.last())
    }
}

/// The part of the form that deals with subcommands: nothing for a form
/// without any, else a heading, the selector and one section per subcommand.
pub open spec fn subcommands_markup(groups: Seq<SubcommandGroup>) -> Text {
    if groups.len() == 0 {
        Seq::empty()
    } else {
        element(
            "div"@,
            attribute("class"@, "form-section subcommand-section"@),
            element("h2"@, Seq::empty(), html_escaped("Subcommands"@)) + selector_markup(groups)
                + sections_markup(groups),
        )
    }
}

/// What carries the identity of a field's control in its markup: the `id` and
/// `name` attributes of the control, and for a multi-value field the attribute
/// that names the field on its entry input.
pub open spec fn identity_markup(f: Field, id: Text) -> Text {
    if f.kind == FieldKind::Multi {
        attribute("data-field-name"@, id)
    } else {
        identity_attributes(id)
    }
}

/// Fields with distinct names have controls with distinct identities, with
/// the same prefix or without one.
pub proof fn law_distinct_names_give_distinct_identities(
    first: Text,
    second: Text,
    prefix: Option<Text>,
)
    requires
        first != second,
    ensures
        control_id(prefix, first) != control_id(prefix, second),
{
    match prefix {
        Some(p) => {
            let head = p + "-"@;
            if head + first == head + second {
                assert(first =~= (head + first).skip(head.len() as int));
                assert(second =~= (head + second).skip(head.len() as int));
            }
        },
        None => {},
    }
}

/// The identity stands in the markup of a text area.
proof fn lemma_text_area_identity(id: Text, f: Field) -> (at: int)
    ensures
        occurs_at(text_area_markup(id, f), identity_attributes(id), at),
{
    let identity = identity_attributes(id);
    let placeholder = attribute("placeholder"@, label_text(f));
    let required = toggle("required"@, f.required);
    let rows = attribute("rows"@, "5"@);
    lemma_occurs_whole(identity);
    lemma_occurs_before(identity, placeholder, identity, 0);
    lemma_occurs_before(identity + placeholder, required, identity, 0);
    lemma_occurs_before(identity + placeholder + required, rows, identity, 0);
    let attributes = identity + placeholder + required + rows;
    let content = html_escaped(default_or(f, Seq::empty()));
    let inner = lemma_occurs_in_attributes("textarea"@, attributes, content, identity, 0);
    let control = element("textarea"@, attributes, content);
    lemma_occurs_behind(label_markup(id, f), control, identity, inner);
    lemma_occurs_in_element(
        "div"@,
        group_attributes("field-group"@, f),
        label_markup(id, f) + control,
        identity,
        label_markup(id, f).len() + inner,
    )
}

/// The identity stands in the markup of a text input.
proof fn lemma_text_input_identity(id: Text, f: Field) -> (at: int)
    ensures
        occurs_at(text_input_markup(id, f), identity_attributes(id), at),
{
    let identity = identity_attributes(id);
    let kind = attribute("type"@, "text"@);
    let value = attribute("value"@, default_or(f, Seq::empty()));
    let placeholder = attribute("placeholder"@, label_text(f));
    let required = toggle("required"@, f.required);
    lemma_occurs_whole(identity);
    lemma_occurs_behind(kind, identity, identity, 0);
    lemma_occurs_before(kind + identity, value, identity, kind.len() as int);
    lemma_occurs_before(kind + identity + value, placeholder, identity, kind.len() as int);
    lemma_occurs_before(
        kind + identity + value + placeholder,
        required,
        identity,
        kind.len() as int,
    );
    let attributes = kind + identity + value + placeholder + required;
    let inner = lemma_occurs_in_void_element("input"@, attributes, identity, kind.len() as int);
    let control = void_element("input"@, attributes);
    let lead = label_markup(id, f) + hint_markup(f);
    lemma_occurs_behind(lead, control, identity, inner);
    lemma_occurs_in_element(
        "div"@,
        group_attributes("field-group"@, f),
        lead + control,
        identity,
        lead.len() + inner,
    )
}

/// The identity stands in the markup of a checkbox.
proof fn lemma_checkbox_identity(id: Text, f: Field) -> (at: int)
    ensures
        occurs_at(checkbox_markup(id, f), identity_attributes(id), at),
{
    let identity = identity_attributes(id);
    let kind = attribute("type"@, "checkbox"@);
    lemma_occurs_whole(identity);
    lemma_occurs_behind(kind, identity, identity, 0);
    let inner = lemma_occurs_in_void_element("input"@, kind + identity, identity, kind.len() as int);
    let control = void_element("input"@, kind + identity);
    let label = html_escaped(label_text(f));
    let marker = html_escaped(required_marker(f));
    lemma_occurs_before(control, label, identity, inner);
    lemma_occurs_before(control + label, marker, identity, inner);
    let in_label = lemma_occurs_in_element(
        "label"@,
        attribute("for"@, id),
        control + label + marker,
        identity,
        inner,
    );
    let labelled = element("label"@, attribute("for"@, id), control + label + marker);
    lemma_occurs_before(labelled, hint_markup(f), identity, in_label);
    lemma_occurs_in_element(
        "div"@,
        group_attributes("field-group checkbox-group"@, f),
        labelled + hint_markup(f),
        identity,
        in_label,
    )
}

/// The identity stands in the markup of a number input.
proof fn lemma_number_identity(id: Text, f: Field) -> (at: int)
    ensures
        occurs_at(number_markup(id, f), identity_attributes(id), at),
{
    let identity = identity_attributes(id);
    let kind = attribute("type"@, "number"@);
    let value = attribute("value"@, default_or(f, "0"@));
    let required = toggle("required"@, f.required);
    lemma_occurs_whole(identity);
    lemma_occurs_behind(kind, identity, identity, 0);
    lemma_occurs_before(kind + identity, value, identity, kind.len() as int);
    lemma_occurs_before(kind + identity + value, required, identity, kind.len() as int);
    let attributes = kind + identity + value + required;
    let inner = lemma_occurs_in_void_element("input"@, attributes, identity, kind.len() as int);
    let control = void_element("input"@, attributes);
    let lead = label_markup(id, f) + hint_markup(f);
    lemma_occurs_behind(lead, control, identity, inner);
    lemma_occurs_in_element(
        "div"@,
        group_attributes("field-group"@, f),
        lead + control,
        identity,
        lead.len() + inner,
    )
}

/// The identity stands in the markup of a counter.
proof fn lemma_counter_identity(id: Text, f: Field) -> (at: int)
    ensures
        occurs_at(counter_markup(id, f), identity_attributes(id), at),
{
    let identity = identity_attributes(id);
    let kind = attribute("type"@, "number"@);
    let value = attribute("value"@, default_or(f, "0"@));
    let minimum = attribute("min"@, "0"@);
    let required = toggle("required"@, f.required);
    lemma_occurs_whole(identity);
    lemma_occurs_behind(kind, identity, identity, 0);
    lemma_occurs_before(kind + identity, value, identity, kind.len() as int);
    lemma_occurs_before(kind + identity + value, minimum, identity, kind.len() as int);
    lemma_occurs_before(kind + identity + value + minimum, required, identity, kind.len() as int);
    let attributes = kind + identity + value + minimum + required;
    let inner = lemma_occurs_in_void_element("input"@, attributes, identity, kind.len() as int);
    let control = void_element("input"@, attributes);
    let note = element(
        "span"@,
        attribute("class"@, "help-text"@),
        html_escaped(flag_info(f)) + html_escaped(" (flag will be repeated N times)"@),
    );
    let lead = label_markup(id, f) + note;
    lemma_occurs_behind(lead, control, identity, inner);
    lemma_occurs_in_element(
        "div"@,
        group_attributes("field-group"@, f),
        lead + control,
        identity,
        lead.len() + inner,
    )
}

/// The identity stands in the markup of a select control.
proof fn lemma_select_identity(id: Text, f: Field, options: Seq<ChoiceOption>) -> (at: int)
    ensures
        occurs_at(select_markup(id, f, options), identity_attributes(id), at),
{
    let identity = identity_attributes(id);
    let required = toggle("required"@, f.required);
    lemma_occurs_whole(identity);
    lemma_occurs_before(identity, required, identity, 0);
    let entries = (if offers_empty_choice(f) {
        empty_choice_markup()
    } else {
        Seq::empty()
    }) + options_markup(options, default_or(f, Seq::empty()));
    let inner = lemma_occurs_in_attributes("select"@, identity + required, entries, identity, 0);
    let control = element("select"@, identity + required, entries);
    let lead = label_markup(id, f) + hint_markup(f);
    lemma_occurs_behind(lead, control, identity, inner);
    lemma_occurs_in_element(
        "div"@,
        group_attributes("field-group"@, f),
        lead + control,
        identity,
        lead.len() + inner,
    )
}

/// The attribute that names the field stands in the markup of a multi-value
/// field.
proof fn lemma_multi_identity(id: Text, f: Field) -> (at: int)
    ensures
        occurs_at(multi_markup(id, f), attribute("data-field-name"@, id), at),
{
    let naming = attribute("data-field-name"@, id);
    let before = attribute("class"@, "vec-input"@) + attribute("type"@, "text"@) + attribute(
        "placeholder"@,
        "Enter value and press Enter"@,
    );
    lemma_occurs_whole(naming);
    lemma_occurs_behind(before, naming, naming, 0);
    let in_entry = lemma_occurs_in_void_element(
        "input"@,
        before + naming,
        naming,
        before.len() as int,
    );
    let entry = void_element("input"@, before + naming);
    let items = element(
        "div"@,
        attribute("class"@, "vec-items"@) + attribute("id"@, id + "-items"@),
        Seq::empty(),
    );
    lemma_occurs_before(entry, items, naming, in_entry);
    let container_attributes = attribute("class"@, "vec-container"@) + attribute(
        "id"@,
        id + "-container"@,
    );
    let in_container = lemma_occurs_in_element(
        "div"@,
        container_attributes,
        entry + items,
        naming,
        in_entry,
    );
    let container = element("div"@, container_attributes, entry + items);
    let lead = label_markup(id, f) + hint_markup(f);
    lemma_occurs_behind(lead, container, naming, in_container);
    lemma_occurs_in_element(
        "div"@,
        group_attributes("field-group vec-group"@, f) + attribute(
            "data-vec-required"@,
            bool_text(f.required),
        ),
        lead + container,
        naming,
        lead.len() + in_container,
    )
}

/// Every field's markup carries the identity of its control: the field's
/// name, behind the prefix and a hyphen where there is a prefix. The result is
/// a position at which it stands.
pub proof fn law_control_carries_identity(f: Field, prefix: Option<Text>) -> (at: int)
    ensures
        occurs_at(field_markup(f, prefix), identity_markup(f, control_id(prefix, f.name)), at),
{
    let id = control_id(prefix, f.name);
    match f.kind {
        FieldKind::Text => {
            if f.short_flag is None && f.long_flag is None {
                lemma_text_area_identity(id, f)
            } else {
                lemma_text_input_identity(id, f)
            }
        },
        FieldKind::Flag => lemma_checkbox_identity(id, f),
        FieldKind::Number => lemma_number_identity(id, f),
        FieldKind::Counter => lemma_counter_identity(id, f),
        FieldKind::Choice(options) => lemma_select_identity(id, f, options),
        FieldKind::Multi => lemma_multi_identity(id, f),
    }
}

/// The identity of a field's control.
fn control_id_string(prefix: Option<&str>, name: &str) -> (out: String)
    ensures
        out@ == control_id(prefix_text(prefix), name@),
{
    match prefix {
        Some(p) => {
            let mut out = String::from_str(p);
            out.append("-");
            out.append(name);
            out
        },
        None => String::from_str(name),
    }
}

/// What a field is called in the page.
pub(crate) fn label_of(field: &FieldDescriptor) -> (out: &str)
    ensures
        out@ == label_text(field@),
{
    if !field.help.as_str().is_empty() {
        field.help.as_str()
    } else if field.is_positional {
        field.name.as_str()
    } else {
        match &field.long {
            Some(l) => l.as_str(),
            None => field.name.as_str(),
        }
    }
}

/// The hint with the flag forms of a field, or nothing.
fn flag_info_of(field: &FieldDescriptor) -> (out: String)
    ensures
        out@ == flag_info(field@),
{
    if field.is_positional {
        return String::new();
    }
    let ghost forms = flag_forms(field@);
    match (&field.short, &field.long) {
        (None, None) => {
            assert(forms.len() == 0);
            String::new()
        },
        (Some(c), None) => {
            let mut out = String::from_str(" (");
            out.append("-");
            out.push(*c);
            out.append(")");
            assert(forms =~= seq!["-"@.push(*c)]);
            assert(out@ =~= " ("@ + join(forms, ", "@) + ")"@);
            out
        },
        (None, Some(l)) => {
            let mut out = String::from_str(" (");
            out.append("--");
            out.append(l.as_str());
            out.append(")");
            assert(forms =~= seq!["--"@ + l@]);
            assert(out@ =~= " ("@ + join(forms, ", "@) + ")"@);
            out
        },
        (Some(c), Some(l)) => {
            let mut out = String::from_str(" (");
            out.append("-");
            out.push(*c);
            out.append(", ");
            out.append("--");
            out.append(l.as_str());
            out.append(")");
            assert(forms =~= seq!["-"@.push(*c), "--"@ + l@]);
            assert(forms.drop_last() =~= seq!["-"@.push(*c)]);
            assert(join(forms.drop_last(), ", "@) == "-"@.push(*c));
            assert(join(forms, ", "@) == "-"@.push(*c) + ", "@ + ("--"@ + l@));
            assert(out@ =~= " ("@ + join(forms, ", "@) + ")"@);
            out
        },
    }
}

/// The mark that follows the label of a required field.
fn required_marker_of(field: &FieldDescriptor) -> (out: &'static str)
    ensures
        out@ == required_marker(field@),
{
    if field.required {
        " *"
    } else {
        proof {
            reveal_strlit("");
        }
        assert(""@ =~= Seq::<char>::empty());
        ""
    }
}

/// The default value of a field, or `fallback`.
pub(crate) fn default_of<'a>(field: &'a FieldDescriptor, fallback: &'a str) -> (out: &'a str)
    ensures
        out@ == default_or(field@, fallback@),
{
    match &field.default_value {
        Some(d) => d.as_str(),
        None => fallback,
    }
}

/// `s` with its first character in upper case.
fn capitalized_string(s: &str) -> (out: String)
    ensures
        out@ == capitalized(s@),
{
    let chars = chars_of(s);
    if chars.len() == 0 {
        String::new()
    } else {
        let mut out = uppercase(chars[0]);
        push_chars(&mut out, skipped(chars.as_slice(), 1));
        out
    }
}

/// A value made readable.
fn humanized_string(value: &str) -> (out: String)
    ensures
        out@ == humanized(value@),
{
    let spaced = replaced_char(value, '-', " ");
    let spaced = replaced_char(spaced.as_str(), '_', " ");
    capitalized_string(spaced.as_str())
}

/// What an option of a choice shows.
fn option_label_of(option: &EnumOption) -> (out: String)
    ensures
        out@ == option_label(option@),
{
    if !option.help.as_str().is_empty() {
        let mut out = String::from_str(option.help.as_str());
        out.append(" (");
        out.append(option.value.as_str());
        out.append(")");
        out
    } else {
        humanized_string(option.value.as_str())
    }
}

/// The empty text.
pub(crate) fn nothing() -> (out: &'static str)
    ensures
        out@ == Seq::<char>::empty(),
{
    proof {
        reveal_strlit("");
    }
    assert(""@ =~= Seq::<char>::empty());
    ""
}

/// The label of a control.
fn label_string(id: &str, field: &FieldDescriptor) -> (out: String)
    ensures
        out@ == label_markup(id@, field@),
{
    let attributes = attribute_string("for", id);
    let mut body = escaped(label_of(field));
    body.append(escaped(required_marker_of(field)).as_str());
    element_string("label", attributes.as_str(), body.as_str())
}

/// The hint with the flag forms, present when there are any.
fn hint_string(field: &FieldDescriptor) -> (out: String)
    ensures
        out@ == hint_markup(field@),
{
    let info = flag_info_of(field);
    if !info.as_str().is_empty() {
        let attributes = attribute_string("class", "help-text");
        let body = escaped(info.as_str());
        element_string("span", attributes.as_str(), body.as_str())
    } else {
        String::new()
    }
}

/// The attributes that every field's group carries.
fn group_attributes_string(classes: &str, field: &FieldDescriptor) -> (out: String)
    ensures
        out@ == group_attributes(classes@, field@),
{
    let mut out = attribute_string("class", classes);
    out.append(attribute_string("data-field-name", field.name.as_str()).as_str());
    out.append(
        attribute_string("data-is-positional", bool_string(field.is_positional).as_str()).as_str(),
    );
    out
}

/// The `id` and `name` attributes of a control.
fn identity_attributes_string(id: &str) -> (out: String)
    ensures
        out@ == identity_attributes(id@),
{
    let mut out = attribute_string("id", id);
    out.append(attribute_string("name", id).as_str());
    out
}

/// A free-form field without flags: a multi-line text area.
fn text_area_string(id: &str, field: &FieldDescriptor) -> (out: String)
    ensures
        out@ == text_area_markup(id@, field@),
{
    let mut attributes = identity_attributes_string(id);
    attributes.append(attribute_string("placeholder", label_of(field)).as_str());
    attributes.append(toggle_string("required", field.required).as_str());
    attributes.append(attribute_string("rows", "5").as_str());
    let content = escaped(default_of(field, nothing()));
    let mut body = label_string(id, field);
    body.append(element_string("textarea", attributes.as_str(), content.as_str()).as_str());
    let group = group_attributes_string("field-group", field);
    element_string("div", group.as_str(), body.as_str())
}

/// A free-form field with a flag: a single-line text input.
fn text_input_string(id: &str, field: &FieldDescriptor) -> (out: String)
    ensures
        out@ == text_input_markup(id@, field@),
{
    let mut attributes = attribute_string("type", "text");
    attributes.append(identity_attributes_string(id).as_str());
    attributes.append(attribute_string("value", default_of(field, nothing())).as_str());
    attributes.append(attribute_string("placeholder", label_of(field)).as_str());
    attributes.append(toggle_string("required", field.required).as_str());
    let mut body = label_string(id, field);
    body.append(hint_string(field).as_str());
    body.append(void_element_string("input", attributes.as_str()).as_str());
    let group = group_attributes_string("field-group", field);
    element_string("div", group.as_str(), body.as_str())
}

/// A flag: a checkbox inside its label.
fn checkbox_string(id: &str, field: &FieldDescriptor) -> (out: String)
    ensures
        out@ == checkbox_markup(id@, field@),
{
    let mut attributes = attribute_string("type", "checkbox");
    attributes.append(identity_attributes_string(id).as_str());
    let mut caption = void_element_string("input", attributes.as_str());
    caption.append(escaped(label_of(field)).as_str());
    caption.append(escaped(required_marker_of(field)).as_str());
    let mut body = element_string("label", attribute_string("for", id).as_str(), caption.as_str());
    body.append(hint_string(field).as_str());
    let group = group_attributes_string("field-group checkbox-group", field);
    element_string("div", group.as_str(), body.as_str())
}

/// An integer: a number input.
fn number_string(id: &str, field: &FieldDescriptor) -> (out: String)
    ensures
        out@ == number_markup(id@, field@),
{
    let mut attributes = attribute_string("type", "number");
    attributes.append(identity_attributes_string(id).as_str());
    attributes.append(attribute_string("value", default_of(field, "0")).as_str());
    attributes.append(toggle_string("required", field.required).as_str());
    let mut body = label_string(id, field);
    body.append(hint_string(field).as_str());
    body.append(void_element_string("input", attributes.as_str()).as_str());
    let group = group_attributes_string("field-group", field);
    element_string("div", group.as_str(), body.as_str())
}

/// A counter: a number input from 0 up, with its note.
fn counter_string(id: &str, field: &FieldDescriptor) -> (out: String)
    ensures
        out@ == counter_markup(id@, field@),
{
    let mut attributes = attribute_string("type", "number");
    attributes.append(identity_attributes_string(id).as_str());
    attributes.append(attribute_string("value", default_of(field, "0")).as_str());
    attributes.append(attribute_string("min", "0").as_str());
    attributes.append(toggle_string("required", field.required).as_str());
    let mut note = escaped(flag_info_of(field).as_str());
    note.append(escaped(" (flag will be repeated N times)").as_str());
    let mut body = label_string(id, field);
    body.append(
        element_string("span", attribute_string("class", "help-text").as_str(), note.as_str())
            .as_str(),
    );
    body.append(void_element_string("input", attributes.as_str()).as_str());
    let group = group_attributes_string("field-group", field);
    element_string("div", group.as_str(), body.as_str())
}

/// One option of a select control.
fn option_string(option: &EnumOption, selected: &str) -> (out: String)
    ensures
        out@ == option_markup(option@, selected@),
{
    let mut attributes = attribute_string("value", option.value.as_str());
    attributes.append(
        toggle_string("selected", same_text(option.value.as_str(), selected)).as_str(),
    );
    let body = escaped(option_label_of(option).as_str());
    element_string("option", attributes.as_str(), body.as_str())
}

/// The options of a select control, in declared order.
fn options_string(options: &Vec<EnumOption>, selected: &str) -> (out: String)
    ensures
        out@ == options_markup(options.deep_view(), selected@),
{
    let ghost all = options.deep_view();
    let mut out = String::new();
    let mut i: usize = 0;
    while i < options.len()
        invariant
            i <= options.len(),
            all == options.deep_view(),
            out@ == options_markup(all.take(i as int), selected@),
        decreases options.len() - i,
    {
        out.append(option_string(&options[i], selected).as_str());
        proof {
            assert(all.take(i + 1).drop_last() =~= all.take(i as int));
            assert(all.take(i + 1).last() == options[i as int]@);
        }
        i += 1;
    }
    assert(all.take(options.len() as int) =~= all);
    out
}

/// The empty entry that a select control may start on.
fn empty_choice_string() -> (out: String)
    ensures
        out@ == empty_choice_markup(),
{
    let mut attributes = attribute_string("value", nothing());
    attributes.append(toggle_string("selected", true).as_str());
    let body = escaped("-- Select an option --");
    element_string("option", attributes.as_str(), body.as_str())
}

/// A choice: a select control.
fn select_string(id: &str, field: &FieldDescriptor, options: &Vec<EnumOption>) -> (out: String)
    ensures
        out@ == select_markup(id@, field@, options.deep_view()),
{
    let selected = default_of(field, nothing());
    let mut attributes = identity_attributes_string(id);
    attributes.append(toggle_string("required", field.required).as_str());
    let mut entries = if !field.required && selected.is_empty() {
        empty_choice_string()
    } else {
        String::new()
    };
    entries.append(options_string(options, selected).as_str());
    let mut body = label_string(id, field);
    body.append(hint_string(field).as_str());
    body.append(element_string("select", attributes.as_str(), entries.as_str()).as_str());
    let group = group_attributes_string("field-group", field);
    element_string("div", group.as_str(), body.as_str())
}

/// A multi-value field: an entry input and the area that collects the values.
fn multi_string(id: &str, field: &FieldDescriptor) -> (out: String)
    ensures
        out@ == multi_markup(id@, field@),
{
    let mut entry = attribute_string("class", "vec-input");
    entry.append(attribute_string("type", "text").as_str());
    entry.append(attribute_string("placeholder", "Enter value and press Enter").as_str());
    entry.append(attribute_string("data-field-name", id).as_str());
    let mut items_id = String::from_str(id);
    items_id.append("-items");
    let mut items = attribute_string("class", "vec-items");
    items.append(attribute_string("id", items_id.as_str()).as_str());
    let mut inner = void_element_string("input", entry.as_str());
    inner.append(element_string("div", items.as_str(), nothing()).as_str());
    let mut container_id = String::from_str(id);
    container_id.append("-container");
    let mut container = attribute_string("class", "vec-container");
    container.append(attribute_string("id", container_id.as_str()).as_str());
    let mut body = label_string(id, field);
    body.append(hint_string(field).as_str());
    body.append(element_string("div", container.as_str(), inner.as_str()).as_str());
    let mut group = group_attributes_string("field-group vec-group", field);
    group.append(
        attribute_string("data-vec-required", bool_string(field.required).as_str()).as_str(),
    );
    element_string("div", group.as_str(), body.as_str())
}

/// The markup of one field.
fn field_string(field: &FieldDescriptor, prefix: Option<&str>) -> (out: String)
    ensures
        out@ == field_markup(field@, prefix_text(prefix)),
{
    let id = control_id_string(prefix, field.name.as_str());
    match &field.field_type {
        FieldType::String => {
            if field.short.is_none() && field.long.is_none() {
                text_area_string(id.as_str(), field)
            } else {
                text_input_string(id.as_str(), field)
            }
        },
        FieldType::Bool => checkbox_string(id.as_str(), field),
        FieldType::Integer => number_string(id.as_str(), field),
        FieldType::Counter => counter_string(id.as_str(), field),
        FieldType::Enum(options) => select_string(id.as_str(), field, options),
        FieldType::Vec => multi_string(id.as_str(), field),
    }
}

/// Renders a field set: one labelled control per field, in declaration order.
/// With a prefix, which is the name of the subcommand that owns the fields,
/// every control's identity starts with the prefix and a hyphen.
pub fn generate_form_fields_with_prefix(fields: &Vec<FieldDescriptor>, prefix: Option<&str>) -> (out:
    String)
    ensures
        out@ == fields_markup(fields.deep_view(), prefix_text(prefix)),
{
    let ghost all = fields.deep_view();
    let mut out = String::new();
    let mut i: usize = 0;
    while i < fields.len()
        invariant
            i <= fields.len(),
            all == fields.deep_view(),
            out@ == fields_markup(all.take(i as int), prefix_text(prefix)),
        decreases fields.len() - i,
    {
        out.append(field_string(&fields[i], prefix).as_str());
        proof {
            assert(all.take(i + 1).drop_last() =~= all.take(i as int));
            assert(all.take(i + 1).last() == fields[i as int]@);
        }
        i += 1;
    }
    assert(all.take(fields.len() as int) =~= all);
    out
}

/// Renders the top-level field set of a form.
pub fn generate_form_fields(fields: &Vec<FieldDescriptor>) -> (out: String)
    ensures
        out@ == fields_markup(fields.deep_view(), None),
{
    generate_form_fields_with_prefix(fields, None)
}

/// The help text of a subcommand with its name in parentheses.
fn described_name(subcommand: &SubcommandDescriptor) -> (out: String)
    ensures
        out@ == subcommand.help@ + " ("@ + subcommand.name@ + ")"@,
{
    let mut out = String::from_str(subcommand.help.as_str());
    out.append(" (");
    out.append(subcommand.name.as_str());
    out.append(")");
    out
}

/// The entry of one subcommand in the selector.
fn selector_option_string(subcommand: &SubcommandDescriptor) -> (out: String)
    ensures
        out@ == selector_option_markup(subcommand@),
{
    let label = if !subcommand.help.as_str().is_empty() {
        described_name(subcommand)
    } else {
        String::from_str(subcommand.name.as_str())
    };
    let attributes = attribute_string("value", subcommand.name.as_str());
    let body = escaped(label.as_str());
    element_string("option", attributes.as_str(), body.as_str())
}

/// The selector's entries, one per subcommand in declared order.
fn selector_options_string(subcommands: &Vec<SubcommandDescriptor>) -> (out: String)
    ensures
        out@ == selector_options_markup(subcommands.deep_view()),
{
    let ghost all = subcommands.deep_view();
    let mut out = String::new();
    let mut i: usize = 0;
    while i < subcommands.len()
        invariant
            i <= subcommands.len(),
            all == subcommands.deep_view(),
            out@ == selector_options_markup(all.take(i as int)),
        decreases subcommands.len() - i,
    {
        out.append(selector_option_string(&subcommands[i]).as_str());
        proof {
            assert(all.take(i + 1).drop_last() =~= all.take(i as int));
            assert(all.take(i + 1).last() == subcommands[i as int]@);
        }
        i += 1;
    }
    assert(all.take(subcommands.len() as int) =~= all);
    out
}

/// The control that chooses a subcommand.
fn selector_string(subcommands: &Vec<SubcommandDescriptor>) -> (out: String)
    ensures
        out@ == selector_markup(subcommands.deep_view()),
{
    let mut first = attribute_string("value", nothing());
    first.append(toggle_string("selected", true).as_str());
    let mut entries = element_string(
        "option",
        first.as_str(),
        escaped("-- Select a subcommand --").as_str(),
    );
    entries.append(selector_options_string(subcommands).as_str());
    let mut identity = attribute_string("id", "subcommand-selector");
    identity.append(attribute_string("name", "subcommand").as_str());
    let mut body = element_string(
        "label",
        attribute_string("for", "subcommand-selector").as_str(),
        escaped("Select Subcommand").as_str(),
    );
    body.append(element_string("select", identity.as_str(), entries.as_str()).as_str());
    element_string("div", attribute_string("class", "field-group").as_str(), body.as_str())
}

/// The section of one subcommand.
fn section_string(subcommand: &SubcommandDescriptor) -> (out: String)
    ensures
        out@ == section_markup(subcommand@),
{
    let name = subcommand.name.as_str();
    let heading = if !subcommand.help.as_str().is_empty() {
        described_name(subcommand)
    } else {
        let mut out = String::from_str("Options for '");
        out.append(name);
        out.append("'");
        out
    };
    let mut section_id = String::from_str("subcommand-");
    section_id.append(name);
    let mut attributes = attribute_string("class", "subcommand-fields");
    attributes.append(attribute_string("id", section_id.as_str()).as_str());
    attributes.append(attribute_string("data-subcommand", name).as_str());
    attributes.append(attribute_string("style", "display: none;").as_str());
    let mut body = element_string("h3", nothing(), escaped(heading.as_str()).as_str());
    body.append(generate_form_fields_with_prefix(&subcommand.fields, Some(name)).as_str());
    element_string("div", attributes.as_str(), body.as_str())
}

/// The sections of all subcommands, in declared order.
fn sections_string(subcommands: &Vec<SubcommandDescriptor>) -> (out: String)
    ensures
        out@ == sections_markup(subcommands.deep_view()),
{
    let ghost all = subcommands.deep_view();
    let mut out = String::new();
    let mut i: usize = 0;
    while i < subcommands.len()
        invariant
            i <= subcommands.len(),
            all == subcommands.deep_view(),
            out@ == sections_markup(all.take(i as int)),
        decreases subcommands.len() - i,
    {
        out.append(section_string(&subcommands[i]).as_str());
        proof {
            assert(all.take(i + 1).drop_last() =~= all.take(i as int));
            assert(all.take(i + 1).last() == subcommands[i as int]@);
        }
        i += 1;
    }
    assert(all.take(subcommands.len() as int) =~= all);
    out
}

/// Renders the part of the form that deals with subcommands: the selector and
/// one hidden section per subcommand, or nothing for a form without any.
pub fn generate_subcommand_sections(subcommands: &Vec<SubcommandDescriptor>) -> (out: String)
    ensures
        out@ == subcommands_markup(subcommands.deep_view()),
{
    if subcommands.len() == 0 {
        return String::new();
    }
    let mut body = element_string("h2", nothing(), escaped("Subcommands").as_str());
    body.append(selector_string(subcommands).as_str());
    body.append(sections_string(subcommands).as_str());
    element_string(
        "div",
        attribute_string("class", "form-section subcommand-section").as_str(),
        body.as_str(),
    )
}

} // verus!
