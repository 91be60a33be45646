//! What the script of a page does with the form, as functions of the field
//! model and of the state of the controls: validation and the translation of
//! the form into an argument list.

use crate::model::{
    Field, FieldDescriptor, FieldKind, FieldType, FormModel, SubcommandGroup, WasmFunctionConfig,
};
use crate::render::{label_of, label_text};
use crate::text::{
    chars_of, lemma_occurs_before, lemma_occurs_behind, lemma_occurs_whole, occurs_at, skipped,
    trim, trimmed, trimmed_chars, Text,
};
use vstd::prelude::*;

verus! {

/// The state of one field's control, as the contracts see it.
pub struct Control {
    /// What a text, number or select control holds.
    pub value: Text,
    /// Whether a checkbox is checked.
    pub checked: bool,
    /// What a multi-value control has collected, in the order of entry.
    pub items: Seq<Text>,
}

/// The state of a form's controls, as the contracts see it.
pub struct FormControls {
    /// The controls of the top-level fields, one per field.
    pub controls: Seq<Control>,
    /// The controls of each subcommand's fields, one list per subcommand.
    pub sections: Seq<Seq<Control>>,
    /// The position of the chosen subcommand, if one is chosen.
    pub selected: Option<nat>,
}

/// The state of one field's control. A control uses the part that its kind
/// calls for and ignores the others.
#[derive(Debug, Clone)]
pub struct ControlState {
    /// What a text, number or select control holds.
    pub value: String,
    /// Whether a checkbox is checked.
    pub checked: bool,
    /// What a multi-value control has collected.
    pub items: Vec<String>,
}

/// The state of a form's controls. A field whose control is missing from the
/// lists counts as unset.
#[derive(Debug, Clone)]
pub struct FormState {
    /// The controls of the top-level fields, in the order of the fields.
    pub controls: Vec<ControlState>,
    /// The controls of each subcommand's fields, in the order of the
    /// subcommands.
    pub sections: Vec<Vec<ControlState>>,
    /// The position of the chosen subcommand, if one is chosen.
    pub selected: Option<usize>,
}

impl View for ControlState {
    type V = Control;

    open spec fn view(&self) -> Control {
        Control { value: self.value@, checked: self.checked, items: self.items.deep_view() }
    }
}

impl DeepView for ControlState {
    type V = Control;

    open spec fn deep_view(&self) -> Control {
        self@
    }
}

impl View for FormState {
    type V = FormControls;

    open spec fn view(&self) -> FormControls {
        FormControls {
            controls: self.controls.deep_view(),
            sections: self.sections.deep_view(),
            selected: match self.selected {
                Some(k) => Some(k as nat),
                None => None,
            },
        }
    }
}

/// A control that nothing was entered in.
pub open spec fn unset() -> Control {
    Control { value: Seq::empty(), checked: false, items: Seq::empty() }
}

/// The control of the field at position `i`, unset if the list has none.
pub open spec fn control_at(controls: Seq<Control>, i: int) -> Control {
    if 0 <= i < controls.len() {
        controls[i]
    } else {
        unset()
    }
}

/// The controls of the subcommand at position `k`, none if the list is short.
pub open spec fn section_at(sections: Seq<Seq<Control>>, k: int) -> Seq<Control> {
    if 0 <= k < sections.len() {
        sections[k]
    } else {
        Seq::empty()
    }
}

/// The subcommand that is chosen, if the choice names one of the form's.
pub open spec fn chosen_group(m: FormModel, s: FormControls) -> Option<SubcommandGroup> {
    match s.selected {
        Some(k) => if k < m.subcommands.len() {
            Some(m.subcommands[k as int])
        } else {
            None
        },
        None => None,
    }
}

/// The controls of the chosen subcommand.
pub open spec fn chosen_controls(s: FormControls) -> Seq<Control> {
    match s.selected {
        Some(k) => section_at(s.sections, k as int),
        None => Seq::empty(),
    }
}

/// The token that stands for a field on the command line: its long form if it
/// has one, else its short form, else none.
pub open spec fn flag_token(f: Field) -> Option<Text> {
    match f.long_flag {
        Some(l) => Some("--"@ + l),
        None => match f.short_flag {
            Some(c) => Some("-"@.push(c)),
            None => None,
        },
    }
}

/// A decimal digit.
pub open spec fn is_digit(c: char) -> bool {
    '0' <= c <= '9'
}

/// Whether every character of `s` is a decimal digit.
pub open spec fn all_digits(s: Text) -> bool {
    forall|i: int| 0 <= i < s.len() ==> is_digit(#[trigger] s[i])
}

/// The number that the digits `s` denote.
pub open spec fn decimal_value(s: Text) -> nat
    decreases s.len(),
{
    if s.len() == 0 {
        0
    } else {
        (decimal_value(s.drop_last()) * 10 + (s.last() as u32 - '0' as u32)) as nat
    }
}

/// `t` without a sign in front.
pub open spec fn unsigned_part(t: Text) -> Text {
    if t.len() > 0 && (t[0] == '+' || t[0] == '-') {
        t.skip(1)
    } else {
        t
    }
}

/// What counts as a number in a form: an optional sign and then one or more
/// decimal digits that denote at most 2^64 - 1.
pub open spec fn is_integer_text(t: Text) -> bool {
    let digits = unsigned_part(t);
    digits.len() > 0 && all_digits(digits) && decimal_value(digits) <= u64::MAX
}

/// How often a counter's flag is repeated: the number that the trimmed value
/// denotes, and 0 if it is no number or a negative one.
pub open spec fn count_of(value: Text) -> nat {
    let t = trim(value);
    if is_integer_text(t) && t[0] != '-' {
        decimal_value(unsigned_part(t))
    } else {
        0
    }
}

/// The message for a value that is no number.
pub open spec fn invalid_number_message(f: Field) -> Text {
    "Field \""@ + label_text(f) + "\": Invalid number value"@
}

/// The message for a required field that was left empty.
pub open spec fn missing_value_message(f: Field) -> Text {
    "Field \""@ + label_text(f) + "\": This field is required"@
}

/// The message for a required multi-value field without values.
pub open spec fn missing_items_message(f: Field) -> Text {
    "Field \""@ + label_text(f) + "\": At least one value is required"@
}

/// Whether a field holds something that should be a number and is not. An
/// empty control is not a wrong number.
pub open spec fn number_is_invalid(f: Field, c: Control) -> bool {
    (f.kind == FieldKind::Number || f.kind == FieldKind::Counter) && trim(c.value).len() > 0
        && !is_integer_text(trim(c.value))
}

/// Whether a required field was left unset. A flag is never missing.
pub open spec fn is_missing(f: Field, c: Control) -> bool {
    f.required && match f.kind {
        FieldKind::Flag => false,
        FieldKind::Multi => c.items.len() == 0,
        _ => trim(c.value).len() == 0,
    }
}

/// The errors of one field: at most one message.
pub open spec fn field_errors(f: Field, c: Control) -> Seq<Text> {
    if number_is_invalid(f, c) {
        seq![invalid_number_message(f)]
    } else if is_missing(f, c) {
        if f.kind == FieldKind::Multi {
            seq![missing_items_message(f)]
        } else {
            seq![missing_value_message(f)]
        }
    } else {
        Seq::empty()
    }
}

/// The errors of a field set, in the order of the fields.
pub open spec fn field_set_errors(fields: Seq<Field>, controls: Seq<Control>) -> Seq<Text>
    decreases fields.len(),
{
    if fields.len() == 0 {
        Seq::empty()
    } else {
        field_set_errors(fields.drop_last(), controls) + field_errors(
            fields.last(),
            control_at(controls, fields.len() - 1),
        )
    }
}

/// The errors of a form: those of the top-level fields, then those of the
/// chosen subcommand's fields.
pub open spec fn validation_errors(m: FormModel, s: FormControls) -> Seq<Text> {
    field_set_errors(m.fields, s.controls) + match chosen_group(m, s) {
        Some(g) => field_set_errors(g.fields, chosen_controls(s)),
        None => Seq::empty(),
    }
}

/// The tokens for collected values: each value behind the flag token, or bare
/// where the field has no flag.
pub open spec fn item_tokens(token: Option<Text>, items: Seq<Text>) -> Seq<Text>
    decreases items.len(),
{
    if items.len() == 0 {
        Seq::empty()
    } else {
        match token {
            Some(t) => item_tokens(token, items.drop_last()).push(t).push(items.last()),
            None => item_tokens(token, items.drop_last()).push(items.last()),
        }
    }
}

/// `n` times the token `t`.
pub open spec fn repeated(t: Text, n: nat) -> Seq<Text> {
    Seq::new(n, |i: int| t)
}

/// The tokens of one field.
pub open spec fn field_tokens(f: Field, c: Control) -> Seq<Text> {
    match f.kind {
        FieldKind::Flag => match flag_token(f) {
            Some(t) => if c.checked {
                seq![t]
            } else {
                Seq::empty()
            },
            None => Seq::empty(),
        },
        FieldKind::Counter => match flag_token(f) {
            Some(t) => repeated(t, count_of(c.value)),
            None => Seq::empty(),
        },
        FieldKind::Multi => item_tokens(flag_token(f), c.items),
        _ => if trim(c.value).len() > 0 {
            item_tokens(flag_token(f), seq![trim(c.value)])
        } else {
            Seq::empty()
        },
    }
}

/// The tokens of a field set, in the order of the fields.
pub open spec fn field_set_tokens(fields: Seq<Field>, controls: Seq<Control>) -> Seq<Text>
    decreases fields.len(),
{
    if fields.len() == 0 {
        Seq::empty()
    } else {
        field_set_tokens(fields.drop_last(), controls) + field_tokens(
            fields.last(),
            control_at(controls, fields.len() - 1),
        )
    }
}

/// The argument list of a form: the tokens of the top-level fields, then, if a
/// subcommand is chosen, its name and the tokens of its fields.
pub open spec fn collected_arguments(m: FormModel, s: FormControls) -> Seq<Text> {
    field_set_tokens(m.fields, s.controls) + match chosen_group(m, s) {
        Some(g) => seq![g.name] + field_set_tokens(g.fields, chosen_controls(s)),
        None => Seq::empty(),
    }
}

/// A flag is never the cause of a validation error, whether it is required
/// or not and whatever its control holds.
pub proof fn law_flag_causes_no_error(f: Field, c: Control)
    requires
        f.kind == FieldKind::Flag,
    ensures
        field_errors(f, c) == Seq::<Text>::empty(),
{
}

/// A field causes at most one validation error.
pub proof fn law_at_most_one_error_per_field(f: Field, c: Control)
    ensures
        field_errors(f, c).len() <= 1,
{
}

/// A required field that is neither a flag nor a multi-value field and whose
/// control is empty causes exactly one error, which names the field's label.
pub proof fn law_empty_required_field_is_reported(f: Field, c: Control)
    requires
        f.required,
        f.kind != FieldKind::Flag,
        f.kind != FieldKind::Multi,
        trim(c.value).len() == 0,
    ensures
        field_errors(f, c) == seq![missing_value_message(f)],
        occurs_at(missing_value_message(f), label_text(f), "Field \""@.len() as int),
{
    lemma_occurs_whole(label_text(f));
    lemma_occurs_behind("Field \""@, label_text(f), label_text(f), 0);
    lemma_occurs_before(
        "Field \""@ + label_text(f),
        "\": This field is required"@,
        label_text(f),
        "Field \""@.len() as int,
    );
}

/// A counter gives its flag token as often as its value says and nothing
/// else.
pub proof fn law_counter_repeats_its_flag(f: Field, c: Control, token: Text)
    requires
        f.kind == FieldKind::Counter,
        flag_token(f) == Some(token),
    ensures
        field_tokens(f, c).len() == count_of(c.value),
        forall|i: int| 0 <= i < field_tokens(f, c).len() ==> field_tokens(f, c)[i] == token,
{
}

/// A flag gives its flag token when it is checked and nothing when it is not.
pub proof fn law_flag_token_follows_checkbox(f: Field, c: Control, token: Text)
    requires
        f.kind == FieldKind::Flag,
        flag_token(f) == Some(token),
    ensures
        field_tokens(f, c) == if c.checked {
            seq![token]
        } else {
            Seq::<Text>::empty()
        },
{
}

/// A multi-value field with a flag gives, for each collected value in order,
/// the flag token and then the value.
pub proof fn law_multi_pairs_flag_and_value(f: Field, c: Control, token: Text, i: int)
    requires
        f.kind == FieldKind::Multi,
        flag_token(f) == Some(token),
        0 <= i < c.items.len(),
    ensures
        field_tokens(f, c).len() == 2 * c.items.len(),
        field_tokens(f, c)[2 * i] == token,
        field_tokens(f, c)[2 * i + 1] == c.items[i],
{
    lemma_item_tokens_with_flag(token, c.items, i);
}

/// With a flag token, the tokens for collected values alternate between the
/// token and the values.
pub proof fn lemma_item_tokens_with_flag(token: Text, items: Seq<Text>, i: int)
    requires
        0 <= i < items.len(),
    ensures
        item_tokens(Some(token), items).len() == 2 * items.len(),
        item_tokens(Some(token), items)[2 * i] == token,
        item_tokens(Some(token), items)[2 * i + 1] == items[i],
    decreases items.len(),
{
    let rest = items.drop_last();
    let before = item_tokens(Some(token), rest);
    assert(item_tokens(Some(token), items) == before.push(token).push(items.last()));
    if rest.len() > 0 {
        lemma_item_tokens_with_flag(
            token,
            rest,
            if i < rest.len() {
                i
            } else {
                0
            },
        );
    } else {
        assert(before.len() == 0);
    }
}

/// The digits of a longer number denote at least what a prefix of them does.
pub proof fn lemma_decimal_value_prefix(s: Text, k: int)
    requires
        all_digits(s),
        0 <= k <= s.len(),
    ensures
        decimal_value(s.take(k)) <= decimal_value(s),
    decreases s.len(),
{
    if k == s.len() {
        assert(s.take(k) =~= s);
    } else {
        let t = s.drop_last();
        assert(all_digits(t)) by {
            assert forall|i: int| 0 <= i < t.len() implies is_digit(#[trigger] t[i]) by {
                assert(t[i] == s[i]);
            }
        }
        assert(t.take(k) =~= s.take(k));
        lemma_decimal_value_prefix(t, k);
        assert(is_digit(s[s.len() - 1]));
    }
}

/// Reads `s` as a number in decimal digits.
fn parse_digits(s: &[char]) -> (r: Option<u64>)
    ensures
        r is Some <==> s@.len() > 0 && all_digits(s@) && decimal_value(s@) <= u64::MAX,
        r matches Some(v) ==> v == decimal_value(s@),
{
    if s.len() == 0 {
        return None;
    }
    let mut acc: u64 = 0;
    let mut i: usize = 0;
    while i < s.len()
        invariant
            i <= s.len(),
            all_digits(s@.take(i as int)),
            acc == decimal_value(s@.take(i as int)),
        decreases s.len() - i,
    {
        let c = s[i];
        if c < '0' || c > '9' {
            assert(!is_digit(s@[i as int]));
            return None;
        }
        let d: u64 = (c as u32 - '0' as u32) as u64;
        proof {
            let next = s@.take(i + 1);
            assert(next.drop_last() =~= s@.take(i as int));
            assert(next.last() == c);
            assert(decimal_value(next) == acc * 10 + d);
            assert(all_digits(next)) by {
                assert forall|k: int| 0 <= k < next.len() implies is_digit(#[trigger] next[k]) by {
                    if k < i {
                        assert(next[k] == s@.take(i as int)[k]);
                    }
                }
            }
            if all_digits(s@) {
                lemma_decimal_value_prefix(s@, i + 1);
            }
        }
        if acc > (u64::MAX - d) / 10 {
            return None;
        }
        acc = acc * 10 + d;
        i += 1;
    }
    assert(s@.take(s.len() as int) =~= s@);
    Some(acc)
}

/// `t` without a sign in front.
fn without_sign(t: &[char]) -> (digits: &[char])
    ensures
        digits@ == unsigned_part(t@),
{
    if t.len() > 0 && (t[0] == '+' || t[0] == '-') {
        skipped(t, 1)
    } else {
        t
    }
}

/// Whether `text` counts as a number in a form.
pub fn is_integer(text: &str) -> (b: bool)
    ensures
        b == is_integer_text(text@),
{
    let chars = chars_of(text);
    parse_digits(without_sign(chars.as_slice())).is_some()
}

/// How often a counter's flag is repeated for the value in its control.
pub fn count_for(value: &str) -> (n: u64)
    ensures
        n == count_of(value@),
{
    let chars = chars_of(value);
    let t = trimmed_chars(chars.as_slice());
    match parse_digits(without_sign(t)) {
        Some(n) => {
            if t[0] == '-' {
                0
            } else {
                n
            }
        },
        None => 0,
    }
}

/// The token that stands for a field on the command line.
fn flag_token_of(field: &FieldDescriptor) -> (token: Option<String>)
    ensures
        token.deep_view() == flag_token(field@),
{
    match &field.long {
        Some(l) => {
            let mut token = String::from_str("--");
            token.append(l.as_str());
            Some(token)
        },
        None => match field.short {
            Some(c) => {
                let mut token = String::from_str("-");
                token.push(c);
                Some(token)
            },
            None => None,
        },
    }
}

/// Appends one text to a list of texts.
fn push_text(list: &mut Vec<String>, text: String)
    ensures
        final(list).deep_view() == old(list).deep_view().push(text@),
{
    list.push(text);
    assert(list.deep_view() =~= old(list).deep_view().push(text@));
}

/// A message about a field: `Field "<label>": <what>`.
fn message_for(field: &FieldDescriptor, what: &str) -> (message: String)
    ensures
        message@ == "Field \""@ + label_text(field@) + what@,
{
    let mut message = String::from_str("Field \"");
    message.append(label_of(field));
    message.append(what);
    message
}

/// Appends the errors of one field to `errors`.
fn push_field_errors(errors: &mut Vec<String>, field: &FieldDescriptor, control: &ControlState)
    ensures
        final(errors).deep_view() == old(errors).deep_view() + field_errors(field@, control@),
{
    let value = trimmed(control.value.as_str());
    let numeric = match &field.field_type {
        FieldType::Integer => true,
        FieldType::Counter => true,
        _ => false,
    };
    if numeric && !value.as_str().is_empty() && !is_integer(value.as_str()) {
        push_text(errors, message_for(field, "\": Invalid number value"));
        assert(errors.deep_view() =~= old(errors).deep_view() + field_errors(field@, control@));
        return ;
    }
    assert(!number_is_invalid(field@, control@));
    if field.required {
        match &field.field_type {
            FieldType::Bool => {},
            FieldType::Vec => {
                if control.items.len() == 0 {
                    push_text(errors, message_for(field, "\": At least one value is required"));
                }
            },
            _ => {
                if value.as_str().is_empty() {
                    push_text(errors, message_for(field, "\": This field is required"));
                }
            },
        }
    }
    assert(errors.deep_view() =~= old(errors).deep_view() + field_errors(field@, control@));
}

/// A control that nothing was entered in.
pub(crate) fn unset_control() -> (control: ControlState)
    ensures
        control@ == unset(),
{
    let control = ControlState { value: String::new(), checked: false, items: Vec::new() };
    assert(control.items.deep_view() =~= Seq::<Text>::empty());
    control
}

/// Appends the errors of a field set to `errors`.
fn push_field_set_errors(
    errors: &mut Vec<String>,
    fields: &Vec<FieldDescriptor>,
    controls: &Vec<ControlState>,
)
    ensures
        final(errors).deep_view() == old(errors).deep_view() + field_set_errors(
            fields.deep_view(),
            controls.deep_view(),
        ),
{
    let ghost all = fields.deep_view();
    let ghost states = controls.deep_view();
    let blank = unset_control();
    let mut i: usize = 0;
    assert(errors.deep_view() =~= old(errors).deep_view() + field_set_errors(all.take(0), states));
    while i < fields.len()
        invariant
            i <= fields.len(),
            all == fields.deep_view(),
            states == controls.deep_view(),
            blank@ == unset(),
            errors.deep_view() == old(errors).deep_view() + field_set_errors(
                all.take(i as int),
                states,
            ),
        decreases fields.len() - i,
    {
        let control = if i < controls.len() {
            &controls[i]
        } else {
            &blank
        };
        assert(control@ == control_at(states, i as int));
        let ghost before = errors.deep_view();
        push_field_errors(errors, &fields[i], control);
        proof {
            let next = all.take(i + 1);
            assert(next.drop_last() =~= all.take(i as int));
            assert(next.last() == fields[i as int]@);
            assert(errors.deep_view() =~= old(errors).deep_view() + field_set_errors(next, states));
        }
        i += 1;
    }
    assert(all.take(fields.len() as int) =~= all);
}

/// Checks a form: every top-level field and, if a subcommand is chosen, every
/// field of that subcommand. A value that should be a number and is not, and
/// a required field that was left unset, give one message each; a flag gives
/// none. No message means that the form is valid.
pub fn validate(config: &WasmFunctionConfig, state: &FormState) -> (errors: Vec<String>)
    ensures
        errors.deep_view() == validation_errors(config@, state@),
{
    let mut errors: Vec<String> = Vec::new();
    assert(errors.deep_view() =~= Seq::<Text>::empty());
    push_field_set_errors(&mut errors, &config.fields, &state.controls);
    let ghost top = errors.deep_view();
    assert(top =~= field_set_errors(config@.fields, state@.controls));
    match state.selected {
        Some(k) => {
            if k < config.subcommands.len() {
                let none: Vec<ControlState> = Vec::new();
                let controls = if k < state.sections.len() {
                    &state.sections[k]
                } else {
                    &none
                };
                assert(controls.deep_view() =~= chosen_controls(state@));
                assert(chosen_group(config@, state@) == Some(config.subcommands[k as int]@));
                push_field_set_errors(&mut errors, &config.subcommands[k].fields, controls);
            } else {
                assert(errors.deep_view() =~= top + Seq::<Text>::empty());
            }
        },
        None => {
            assert(errors.deep_view() =~= top + Seq::<Text>::empty());
        },
    }
    errors
}

/// Appends a value to `tokens`, behind the flag token if there is one.
fn push_value_tokens(tokens: &mut Vec<String>, token: &Option<String>, value: &str)
    ensures
        final(tokens).deep_view() == match token.deep_view() {
            Some(t) => old(tokens).deep_view().push(t).push(value@),
            None => old(tokens).deep_view().push(value@),
        },
{
    match token {
        Some(t) => {
            push_text(tokens, t.clone());
        },
        None => {},
    }
    push_text(tokens, String::from_str(value));
}

/// Appends the tokens for collected values to `tokens`.
fn push_item_tokens(tokens: &mut Vec<String>, token: &Option<String>, items: &Vec<String>)
    ensures
        final(tokens).deep_view() == old(tokens).deep_view() + item_tokens(
            token.deep_view(),
            items.deep_view(),
        ),
{
    let ghost all = items.deep_view();
    let ghost flag = token.deep_view();
    let mut i: usize = 0;
    assert(tokens.deep_view() =~= old(tokens).deep_view() + item_tokens(flag, all.take(0)));
    while i < items.len()
        invariant
            i <= items.len(),
            all == items.deep_view(),
            flag == token.deep_view(),
            tokens.deep_view() == old(tokens).deep_view() + item_tokens(flag, all.take(i as int)),
        decreases items.len() - i,
    {
        push_value_tokens(tokens, token, items[i].as_str());
        proof {
            let next = all.take(i + 1);
            assert(next.drop_last() =~= all.take(i as int));
            assert(next.last() == items[i as int]@);
            assert(tokens.deep_view() =~= old(tokens).deep_view() + item_tokens(flag, next));
        }
        i += 1;
    }
    assert(all.take(items.len() as int) =~= all);
}

/// Appends `token` to `tokens`, `count` times.
fn push_repeated(tokens: &mut Vec<String>, token: &String, count: u64)
    ensures
        final(tokens).deep_view() == old(tokens).deep_view() + repeated(token@, count as nat),
{
    let mut k: u64 = 0;
    assert(tokens.deep_view() =~= old(tokens).deep_view() + repeated(token@, 0));
    while k < count
        invariant
            k <= count,
            tokens.deep_view() == old(tokens).deep_view() + repeated(token@, k as nat),
        decreases count - k,
    {
        push_text(tokens, token.clone());
        assert(tokens.deep_view() =~= old(tokens).deep_view() + repeated(token@, (k + 1) as nat));
        k += 1;
    }
}

/// Appends the tokens of one field to `tokens`.
fn push_field_tokens(tokens: &mut Vec<String>, field: &FieldDescriptor, control: &ControlState)
    ensures
        final(tokens).deep_view() == old(tokens).deep_view() + field_tokens(field@, control@),
{
    let token = flag_token_of(field);
    match &field.field_type {
        FieldType::Bool => {
            match token {
                Some(t) => {
                    if control.checked {
                        push_text(tokens, t);
                    }
                },
                None => {},
            }
        },
        FieldType::Counter => {
            match token {
                Some(t) => {
                    push_repeated(tokens, &t, count_for(control.value.as_str()));
                },
                None => {},
            }
        },
        FieldType::Vec => {
            push_item_tokens(tokens, &token, &control.items);
        },
        _ => {
            let value = trimmed(control.value.as_str());
            if !value.as_str().is_empty() {
                push_value_tokens(tokens, &token, value.as_str());
                proof {
                    let one = seq![trim(control@.value)];
                    assert(one.drop_last() =~= Seq::<Text>::empty());
                    assert(item_tokens(flag_token(field@), one.drop_last()) =~= Seq::<Text>::empty());
                }
            }
        },
    }
    assert(tokens.deep_view() =~= old(tokens).deep_view() + field_tokens(field@, control@));
}

/// Appends the tokens of a field set to `tokens`.
fn push_field_set_tokens(
    tokens: &mut Vec<String>,
    fields: &Vec<FieldDescriptor>,
    controls: &Vec<ControlState>,
)
    ensures
        final(tokens).deep_view() == old(tokens).deep_view() + field_set_tokens(
            fields.deep_view(),
            controls.deep_view(),
        ),
{
    let ghost all = fields.deep_view();
    let ghost states = controls.deep_view();
    let blank = unset_control();
    let mut i: usize = 0;
    assert(tokens.deep_view() =~= old(tokens).deep_view() + field_set_tokens(all.take(0), states));
    while i < fields.len()
        invariant
            i <= fields.len(),
            all == fields.deep_view(),
            states == controls.deep_view(),
            blank@ == unset(),
            tokens.deep_view() == old(tokens).deep_view() + field_set_tokens(
                all.take(i as int),
                states,
            ),
        decreases fields.len() - i,
    {
        let control = if i < controls.len() {
            &controls[i]
        } else {
            &blank
        };
        assert(control@ == control_at(states, i as int));
        push_field_tokens(tokens, &fields[i], control);
        proof {
            let next = all.take(i + 1);
            assert(next.drop_last() =~= all.take(i as int));
            assert(next.last() == fields[i as int]@);
            assert(tokens.deep_view() =~= old(tokens).deep_view() + field_set_tokens(next, states));
        }
        i += 1;
    }
    assert(all.take(fields.len() as int) =~= all);
}

/// Turns a form into the argument list of the invocation: for each field in
/// declaration order its tokens, then, if a subcommand is chosen, the
/// subcommand's name and the tokens of its fields. A checked flag gives its
/// flag token; a counter gives its flag token as often as its value says; a
/// multi-value field gives its flag token before each value; any other field
/// that is not empty gives its flag token and its trimmed value. A field
/// without a flag gives the bare values.
pub fn collect_arguments(config: &WasmFunctionConfig, state: &FormState) -> (tokens: Vec<String>)
    ensures
        tokens.deep_view() == collected_arguments(config@, state@),
{
    let mut tokens: Vec<String> = Vec::new();
    assert(tokens.deep_view() =~= Seq::<Text>::empty());
    push_field_set_tokens(&mut tokens, &config.fields, &state.controls);
    let ghost top = tokens.deep_view();
    assert(top =~= field_set_tokens(config@.fields, state@.controls));
    match state.selected {
        Some(k) => {
            if k < config.subcommands.len() {
                let none: Vec<ControlState> = Vec::new();
                let controls = if k < state.sections.len() {
                    &state.sections[k]
                } else {
                    &none
                };
                assert(controls.deep_view() =~= chosen_controls(state@));
                assert(chosen_group(config@, state@) == Some(config.subcommands[k as int]@));
                push_text(&mut tokens, config.subcommands[k].name.clone());
                push_field_set_tokens(&mut tokens, &config.subcommands[k].fields, controls);
                assert(tokens.deep_view() =~= top + (seq![config.subcommands[k as int]@.name]
                    + field_set_tokens(config.subcommands[k as int]@.fields, chosen_controls(state@))));
            } else {
                assert(tokens.deep_view() =~= top + Seq::<Text>::empty());
            }
        },
        None => {
            assert(tokens.deep_view() =~= top + Seq::<Text>::empty());
        },
    }
    tokens
}

} // verus!
