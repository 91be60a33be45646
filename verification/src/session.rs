//! The life of a page: the module loads, the form is run or reset, the
//! invocation returns or fails. Each event is a function from the state of the
//! page to its next state; running also says whether, and with which
//! arguments, the invocable is to be called. Whoever drives the page performs
//! the call and reports how it ended.

use crate::form::{
    collect_arguments, collected_arguments, unset, unset_control, validate, validation_errors,
    Control, ControlState, FormControls, FormState,
};
use crate::model::{
    find_option, has_option, ChoiceOption, Field, FieldDescriptor, FieldKind, FieldType,
    FormModel, WasmFunctionConfig,
};
use crate::markup::{
    attribute, element, html_escaped, lemma_occurs_in_element, lemma_occurs_in_void_element,
    toggle, void_element,
};
use crate::render::{
    control_id, counter_markup, default_of, default_or, field_markup, flag_info,
    group_attributes, hint_markup, identity_attributes, label_markup, label_text, nothing,
    number_markup, offers_empty_choice, text_area_markup, text_input_markup,
};
use crate::text::{
    join, lemma_occurs_before, lemma_occurs_behind, lemma_occurs_whole, occurs_at, Text,
};
use vstd::prelude::*;

verus! {

/// What the status area shows, as the contracts see it.
pub enum Indicator {
    /// Nothing.
    Clear,
    /// The module is loading.
    Loading,
    /// The module has loaded; shown for a moment.
    Loaded,
    /// The module could not be loaded, with the reason.
    LoadFailed(Text),
    /// An invocation has succeeded; shown for a moment.
    Finished,
}

/// The state of a page, as the contracts see it.
pub struct Page {
    pub form: FormControls,
    pub module_ready: bool,
    pub run_enabled: bool,
    pub status: Indicator,
    pub output: Text,
    pub output_failed: bool,
}

/// What the status area shows.
#[derive(Debug, Clone)]
pub enum Status {
    /// Nothing.
    Clear,
    /// The module is loading.
    Loading,
    /// The module has loaded; shown for a moment.
    Loaded,
    /// The module could not be loaded, with the reason.
    LoadFailed(String),
    /// An invocation has succeeded; shown for a moment.
    Finished,
}

/// The state of a page.
#[derive(Debug, Clone)]
pub struct PageState {
    /// The controls of the form.
    pub form: FormState,
    /// Whether the module has finished loading.
    pub module_ready: bool,
    /// Whether the run control can be used.
    pub run_enabled: bool,
    /// What the status area shows.
    pub status: Status,
    /// What the output area shows.
    pub output: String,
    /// Whether the output area shows a failure.
    pub output_failed: bool,
}

impl View for Status {
    type V = Indicator;

    open spec fn view(&self) -> Indicator {
        match self {
            Status::Clear => Indicator::Clear,
            Status::Loading => Indicator::Loading,
            Status::Loaded => Indicator::Loaded,
            Status::LoadFailed(reason) => Indicator::LoadFailed(reason@),
            Status::Finished => Indicator::Finished,
        }
    }
}

impl View for PageState {
    type V = Page;

    open spec fn view(&self) -> Page {
        Page {
            form: self.form@,
            module_ready: self.module_ready,
            run_enabled: self.run_enabled,
            status: self.status@,
            output: self.output@,
            output_failed: self.output_failed,
        }
    }
}

/// What a select control holds when the page opens: nothing where it starts on
/// the empty entry; else the default where it is one of the options; else the
/// first option.
pub open spec fn initial_choice(f: Field, options: Seq<ChoiceOption>) -> Text {
    if offers_empty_choice(f) {
        Seq::empty()
    } else if has_option(options, default_or(f, Seq::empty())) {
        default_or(f, Seq::empty())
    } else if options.len() > 0 {
        options[0].value
    } else {
        Seq::empty()
    }
}

/// The state of a field's control when the page opens.
pub open spec fn initial_control(f: Field) -> Control {
    match f.kind {
        FieldKind::Text => Control { value: default_or(f, Seq::empty()), ..unset() },
        FieldKind::Number => Control { value: default_or(f, "0"@), ..unset() },
        FieldKind::Counter => Control { value: default_or(f, "0"@), ..unset() },
        FieldKind::Choice(options) => Control { value: initial_choice(f, options), ..unset() },
        FieldKind::Flag => unset(),
        FieldKind::Multi => unset(),
    }
}

/// The controls of a field set when the page opens.
pub open spec fn initial_controls(fields: Seq<Field>) -> Seq<Control> {
    Seq::new(fields.len(), |i: int| initial_control(fields[i]))
}

/// The controls of a form when the page opens: no subcommand is chosen.
pub open spec fn initial_form(m: FormModel) -> FormControls {
    FormControls {
        controls: initial_controls(m.fields),
        sections: Seq::new(m.subcommands.len(), |k: int| initial_controls(m.subcommands[k].fields)),
        selected: None,
    }
}

/// What the output area shows before anything was run.
pub open spec fn initial_output() -> Text {
    "No output yet. Fill in the form and click \"Run\"."@
}

/// The page as it opens: the module is loading and running is disabled.
pub open spec fn opened(m: FormModel) -> Page {
    Page {
        form: initial_form(m),
        module_ready: false,
        run_enabled: false,
        status: Indicator::Loading,
        output: initial_output(),
        output_failed: false,
    }
}

/// The page once the module has loaded: running is enabled.
pub open spec fn after_module_loaded(p: Page) -> Page {
    Page { module_ready: true, run_enabled: true, status: Indicator::Loaded, ..p }
}

/// The page once loading the module has failed: running stays disabled.
pub open spec fn after_module_failed(p: Page, reason: Text) -> Page {
    Page {
        module_ready: false,
        run_enabled: false,
        status: Indicator::LoadFailed(reason),
        ..p
    }
}

/// The page once a momentary status has been shown long enough.
pub open spec fn after_status_expired(p: Page) -> Page {
    match p.status {
        Indicator::Loaded => Page { status: Indicator::Clear, ..p },
        Indicator::Finished => Page { status: Indicator::Clear, ..p },
        _ => p,
    }
}

/// Whether running calls the invocable: the module is ready, no invocation is
/// under way and the form is valid.
pub open spec fn run_invokes(m: FormModel, p: Page) -> bool {
    p.module_ready && p.run_enabled && validation_errors(m, p.form).len() == 0
}

/// What the output area shows when the form is run before the module has
/// loaded.
pub open spec fn not_ready_message() -> Text {
    "The module is not loaded yet."@
}

/// The page once running was asked for.
pub open spec fn after_run(m: FormModel, p: Page) -> Page {
    if !p.module_ready {
        Page { output: not_ready_message(), output_failed: true, ..p }
    } else if !p.run_enabled {
        p
    } else if validation_errors(m, p.form).len() > 0 {
        Page { output: join(validation_errors(m, p.form), "\n"@), output_failed: true, ..p }
    } else {
        Page { run_enabled: false, ..p }
    }
}

/// What the output area shows for a result: the result, or a notice where it
/// is empty.
pub open spec fn shown_result(result: Text) -> Text {
    if result.len() == 0 {
        "(no output)"@
    } else {
        result
    }
}

/// The page once the invocation has returned.
pub open spec fn after_returned(p: Page, result: Text) -> Page {
    Page {
        run_enabled: true,
        status: Indicator::Finished,
        output: shown_result(result),
        output_failed: false,
        ..p
    }
}

/// The page once the invocation has failed.
pub open spec fn after_failed(p: Page, reason: Text) -> Page {
    Page { run_enabled: true, output: "Error: "@ + reason, output_failed: true, ..p }
}

/// A field set's controls with nothing entered.
pub open spec fn cleared_controls(controls: Seq<Control>) -> Seq<Control> {
    Seq::new(controls.len(), |i: int| unset())
}

/// A form with nothing entered and no subcommand chosen.
pub open spec fn cleared_form(s: FormControls) -> FormControls {
    FormControls {
        controls: cleared_controls(s.controls),
        sections: Seq::new(s.sections.len(), |k: int| cleared_controls(s.sections[k])),
        selected: None,
    }
}

/// The page once it was reset.
pub open spec fn after_reset(p: Page) -> Page {
    Page {
        form: cleared_form(p.form),
        status: Indicator::Clear,
        output: Seq::empty(),
        output_failed: false,
        ..p
    }
}

/// Nothing but a reset changes what was entered in the form: not loading, not
/// running, not the end of an invocation and no failure.
pub proof fn law_entries_survive(m: FormModel, p: Page, text: Text)
    ensures
        after_module_loaded(p).form == p.form,
        after_module_failed(p, text).form == p.form,
        after_status_expired(p).form == p.form,
        after_run(m, p).form == p.form,
        after_returned(p, text).form == p.form,
        after_failed(p, text).form == p.form,
{
}

/// Once loading the module has failed, running calls nothing for good: the
/// module is not ready after the failure, no event but the loading of the
/// module makes it ready, and while it is not ready running calls nothing.
pub proof fn law_failed_module_disables_running(m: FormModel, p: Page, text: Text)
    ensures
        !after_module_failed(p, text).module_ready,
        !p.module_ready ==> !run_invokes(m, p),
        !p.module_ready ==> !after_run(m, p).module_ready,
        !p.module_ready ==> !after_reset(p).module_ready,
        !p.module_ready ==> !after_status_expired(p).module_ready,
        !p.module_ready ==> !after_returned(p, text).module_ready,
        !p.module_ready ==> !after_failed(p, text).module_ready,
{
}

/// While an invocation is under way, running calls nothing: the invocation
/// that was started disables the run control until it has ended.
pub proof fn law_no_overlapping_invocations(m: FormModel, p: Page)
    requires
        run_invokes(m, p),
    ensures
        !after_run(m, p).run_enabled,
        !run_invokes(m, after_run(m, p)),
{
}

/// After an invocation has ended, well or badly, and after validation errors
/// were shown, the form can be run again.
pub proof fn law_running_can_be_retried(m: FormModel, p: Page, text: Text)
    ensures
        after_returned(p, text).run_enabled,
        after_failed(p, text).run_enabled,
        p.module_ready && p.run_enabled && !run_invokes(m, p) ==> after_run(m, p).run_enabled,
{
}

/// A choice that is not required and has no default starts on the empty
/// entry: none of its options is chosen when the page opens.
pub proof fn law_optional_choice_starts_empty(f: Field, options: Seq<ChoiceOption>)
    requires
        f.kind == FieldKind::Choice(options),
        !f.required,
        f.default_value is None,
    ensures
        offers_empty_choice(f),
        initial_control(f).value == Seq::<char>::empty(),
{
}

/// A choice whose default is one of its options, as the field model asks,
/// starts on its default.
pub proof fn law_choice_starts_on_its_default(f: Field, options: Seq<ChoiceOption>, default: Text)
    requires
        f.wf(),
        f.kind == FieldKind::Choice(options),
        f.default_value == Some(default),
    ensures
        initial_control(f).value == default,
{
}

/// What in the markup of a field seeds its control: the `value` attribute of
/// a text or number input and the content of a text area. The other controls
/// are not seeded by a text of their own.
pub open spec fn seed_markup(f: Field) -> Text {
    let value = initial_control(f).value;
    match f.kind {
        FieldKind::Text => if f.short_flag is None && f.long_flag is None {
            html_escaped(value)
        } else {
            attribute("value"@, value)
        },
        FieldKind::Number => attribute("value"@, value),
        FieldKind::Counter => attribute("value"@, value),
        _ => Seq::empty(),
    }
}

/// The content of a text area stands in its markup.
proof fn lemma_text_area_seed(id: Text, f: Field) -> (at: int)
    ensures
        occurs_at(text_area_markup(id, f), html_escaped(default_or(f, Seq::empty())), at),
{
    let content = html_escaped(default_or(f, Seq::empty()));
    let attributes = identity_attributes(id) + attribute("placeholder"@, label_text(f)) + toggle(
        "required"@,
        f.required,
    ) + attribute("rows"@, "5"@);
    lemma_occurs_whole(content);
    let inner = lemma_occurs_in_element("textarea"@, attributes, content, content, 0);
    let control = element("textarea"@, attributes, content);
    lemma_occurs_behind(label_markup(id, f), control, content, inner);
    lemma_occurs_in_element(
        "div"@,
        group_attributes("field-group"@, f),
        label_markup(id, f) + control,
        content,
        label_markup(id, f).len() + inner,
    )
}

/// The `value` attribute of a text input stands in its markup.
proof fn lemma_text_input_seed(id: Text, f: Field) -> (at: int)
    ensures
        occurs_at(text_input_markup(id, f), attribute("value"@, default_or(f, Seq::empty())), at),
{
    let value = attribute("value"@, default_or(f, Seq::empty()));
    let lead = attribute("type"@, "text"@) + identity_attributes(id);
    let placeholder = attribute("placeholder"@, label_text(f));
    let required = toggle("required"@, f.required);
    lemma_occurs_whole(value);
    lemma_occurs_behind(lead, value, value, 0);
    lemma_occurs_before(lead + value, placeholder, value, lead.len() as int);
    lemma_occurs_before(lead + value + placeholder, required, value, lead.len() as int);
    let attributes = lead + value + placeholder + required;
    let inner = lemma_occurs_in_void_element("input"@, attributes, value, lead.len() as int);
    let control = void_element("input"@, attributes);
    let before = label_markup(id, f) + hint_markup(f);
    lemma_occurs_behind(before, control, value, inner);
    lemma_occurs_in_element(
        "div"@,
        group_attributes("field-group"@, f),
        before + control,
        value,
        before.len() + inner,
    )
}

/// The `value` attribute of a number input stands in its markup.
proof fn lemma_number_seed(id: Text, f: Field) -> (at: int)
    ensures
        occurs_at(number_markup(id, f), attribute("value"@, default_or(f, "0"@)), at),
{
    let value = attribute("value"@, default_or(f, "0"@));
    let lead = attribute("type"@, "number"@) + identity_attributes(id);
    let required = toggle("required"@, f.required);
    lemma_occurs_whole(value);
    lemma_occurs_behind(lead, value, value, 0);
    lemma_occurs_before(lead + value, required, value, lead.len() as int);
    let attributes = lead + value + required;
    let inner = lemma_occurs_in_void_element("input"@, attributes, value, lead.len() as int);
    let control = void_element("input"@, attributes);
    let before = label_markup(id, f) + hint_markup(f);
    lemma_occurs_behind(before, control, value, inner);
    lemma_occurs_in_element(
        "div"@,
        group_attributes("field-group"@, f),
        before + control,
        value,
        before.len() + inner,
    )
}

/// The `value` attribute of a counter stands in its markup.
proof fn lemma_counter_seed(id: Text, f: Field) -> (at: int)
    ensures
        occurs_at(counter_markup(id, f), attribute("value"@, default_or(f, "0"@)), at),
{
    let value = attribute("value"@, default_or(f, "0"@));
    let lead = attribute("type"@, "number"@) + identity_attributes(id);
    let minimum = attribute("min"@, "0"@);
    let required = toggle("required"@, f.required);
    lemma_occurs_whole(value);
    lemma_occurs_behind(lead, value, value, 0);
    lemma_occurs_before(lead + value, minimum, value, lead.len() as int);
    lemma_occurs_before(lead + value + minimum, required, value, lead.len() as int);
    let attributes = lead + value + minimum + required;
    let inner = lemma_occurs_in_void_element("input"@, attributes, value, lead.len() as int);
    let control = void_element("input"@, attributes);
    let note = element(
        "span"@,
        attribute("class"@, "help-text"@),
        html_escaped(flag_info(f)) + html_escaped(" (flag will be repeated N times)"@),
    );
    let before = label_markup(id, f) + note;
    lemma_occurs_behind(before, control, value, inner);
    lemma_occurs_in_element(
        "div"@,
        group_attributes("field-group"@, f),
        before + control,
        value,
        before.len() + inner,
    )
}

/// A page opens with what its markup says: the value that a text input, a
/// number input, a counter or a text area starts with, as the state of the
/// opened page has it, stands in the markup of the field. The result is a
/// position at which it stands.
pub proof fn law_controls_open_as_rendered(f: Field, prefix: Option<Text>) -> (at: int)
    ensures
        occurs_at(field_markup(f, prefix), seed_markup(f), at),
{
    let id = control_id(prefix, f.name);
    match f.kind {
        FieldKind::Text => {
            if f.short_flag is None && f.long_flag is None {
                lemma_text_area_seed(id, f)
            } else {
                lemma_text_input_seed(id, f)
            }
        },
        FieldKind::Number => lemma_number_seed(id, f),
        FieldKind::Counter => lemma_counter_seed(id, f),
        _ => {
            assert(field_markup(f, prefix).subrange(0, 0) =~= Seq::<char>::empty());
            0
        },
    }
}

/// A control that holds `value`.
fn control_with(value: &str) -> (control: ControlState)
    ensures
        control@ == (Control { value: value@, ..unset() }),
{
    let control = ControlState { value: String::from_str(value), checked: false, items: Vec::new() };
    assert(control.items.deep_view() =~= Seq::<Text>::empty());
    control
}

/// The state of a field's control when the page opens.
fn initial_control_for(field: &FieldDescriptor) -> (control: ControlState)
    ensures
        control@ == initial_control(field@),
{
    match &field.field_type {
        FieldType::String => control_with(default_of(field, nothing())),
        FieldType::Integer => control_with(default_of(field, "0")),
        FieldType::Counter => control_with(default_of(field, "0")),
        FieldType::Enum(options) => {
            let default = default_of(field, nothing());
            if !field.required && default.is_empty() {
                control_with(nothing())
            } else if find_option(options, default) {
                control_with(default)
            } else if options.len() > 0 {
                assert(options.deep_view()[0] == options[0]@);
                control_with(options[0].value.as_str())
            } else {
                control_with(nothing())
            }
        },
        FieldType::Bool => unset_control(),
        FieldType::Vec => unset_control(),
    }
}

/// The controls of a field set when the page opens.
fn initial_controls_for(fields: &Vec<FieldDescriptor>) -> (controls: Vec<ControlState>)
    ensures
        controls.deep_view() == initial_controls(fields.deep_view()),
{
    let mut controls: Vec<ControlState> = Vec::new();
    let mut i: usize = 0;
    while i < fields.len()
        invariant
            i <= fields.len(),
            controls.len() == i,
            forall|k: int| 0 <= k < i ==> (#[trigger] controls[k])@ == initial_control(fields[k]@),
        decreases fields.len() - i,
    {
        controls.push(initial_control_for(&fields[i]));
        i += 1;
    }
    assert(controls.deep_view() =~= initial_controls(fields.deep_view()));
    controls
}

/// A field set's controls with nothing entered.
fn cleared_controls_for(controls: &Vec<ControlState>) -> (cleared: Vec<ControlState>)
    ensures
        cleared.deep_view() == cleared_controls(controls.deep_view()),
{
    let mut cleared: Vec<ControlState> = Vec::new();
    let mut i: usize = 0;
    while i < controls.len()
        invariant
            i <= controls.len(),
            cleared.len() == i,
            forall|k: int| 0 <= k < i ==> (#[trigger] cleared[k])@ == unset(),
        decreases controls.len() - i,
    {
        cleared.push(unset_control());
        i += 1;
    }
    assert(cleared.deep_view() =~= cleared_controls(controls.deep_view()));
    cleared
}

/// The texts joined, with `separator` between each two neighbours.
fn joined(parts: &Vec<String>, separator: &str) -> (out: String)
    ensures
        out@ == join(parts.deep_view(), separator@),
{
    let ghost all = parts.deep_view();
    let mut out = String::new();
    let mut i: usize = 0;
    while i < parts.len()
        invariant
            i <= parts.len(),
            all == parts.deep_view(),
            out@ == join(all.take(i as int), separator@),
        decreases parts.len() - i,
    {
        proof {
            let next = all.take(i + 1);
            assert(next.drop_last() =~= all.take(i as int));
            assert(next.last() == parts[i as int]@);
            if i == 0 {
                assert(next[0] == parts[0]@);
                assert(join(next, separator@) == parts[0]@);
            }
        }
        if i > 0 {
            out.append(separator);
        }
        out.append(parts[i].as_str());
        assert(out@ =~= join(all.take(i + 1), separator@));
        i += 1;
    }
    assert(all.take(parts.len() as int) =~= all);
    out
}

impl PageState {
    /// The page as it opens for a form: every control holds what the markup
    /// seeds it with, no subcommand is chosen, the module is loading and
    /// running is disabled until it has loaded.
    pub fn open(config: &WasmFunctionConfig) -> (page: PageState)
        ensures
            page@ == opened(config@),
    {
        let mut sections: Vec<Vec<ControlState>> = Vec::new();
        let mut k: usize = 0;
        while k < config.subcommands.len()
            invariant
                k <= config.subcommands.len(),
                sections.len() == k,
                forall|j: int|
                    0 <= j < k ==> (#[trigger] sections[j]).deep_view() == initial_controls(
                        config.subcommands[j]@.fields,
                    ),
            decreases config.subcommands.len() - k,
        {
            sections.push(initial_controls_for(&config.subcommands[k].fields));
            k += 1;
        }
        let form = FormState {
            controls: initial_controls_for(&config.fields),
            sections,
            selected: None,
        };
        assert(form@.sections =~= initial_form(config@).sections);
        PageState {
            form,
            module_ready: false,
            run_enabled: false,
            status: Status::Loading,
            output: String::from_str("No output yet. Fill in the form and click \"Run\"."),
            output_failed: false,
        }
    }

    /// The module has finished loading: running is enabled and the status
    /// area says so for a moment.
    pub fn module_loaded(&mut self)
        ensures
            final(self)@ == after_module_loaded(old(self)@),
    {
        self.module_ready = true;
        self.run_enabled = true;
        self.status = Status::Loaded;
    }

    /// Loading the module has failed: the status area shows the reason and
    /// running stays disabled.
    pub fn module_failed(&mut self, reason: &str)
        ensures
            final(self)@ == after_module_failed(old(self)@, reason@),
    {
        self.module_ready = false;
        self.run_enabled = false;
        self.status = Status::LoadFailed(String::from_str(reason));
    }

    /// A momentary status has been shown long enough and is cleared. Any other
    /// status stays.
    pub fn status_expired(&mut self)
        ensures
            final(self)@ == after_status_expired(old(self)@),
    {
        let momentary = match &self.status {
            Status::Loaded => true,
            Status::Finished => true,
            _ => false,
        };
        if momentary {
            self.status = Status::Clear;
        }
    }

    /// Running was asked for. Before the module has loaded the output area
    /// shows an error. While an invocation is under way nothing happens. With
    /// an invalid form the output area shows the validation errors, one per
    /// line. Otherwise running is disabled and the arguments are returned with
    /// which the invocable is to be called. What was entered in the form stays
    /// as it is in every case.
    pub fn run(&mut self, config: &WasmFunctionConfig) -> (arguments: Option<Vec<String>>)
        ensures
            final(self)@ == after_run(config@, old(self)@),
            arguments is Some <==> run_invokes(config@, old(self)@),
            arguments matches Some(tokens) ==> tokens.deep_view() == collected_arguments(
                config@,
                old(self)@.form,
            ),
    {
        if !self.module_ready {
            self.output = String::from_str("The module is not loaded yet.");
            self.output_failed = true;
            return None;
        }
        if !self.run_enabled {
            return None;
        }
        let errors = validate(config, &self.form);
        if errors.len() > 0 {
            self.output = joined(&errors, "\n");
            self.output_failed = true;
            return None;
        }
        self.run_enabled = false;
        Some(collect_arguments(config, &self.form))
    }

    /// The invocation has returned: the output area shows the result, or a
    /// notice where the result is empty, the status area reports success for a
    /// moment and running is enabled again.
    pub fn invocation_returned(&mut self, result: &str)
        ensures
            final(self)@ == after_returned(old(self)@, result@),
    {
        self.run_enabled = true;
        self.status = Status::Finished;
        self.output = if result.is_empty() {
            String::from_str("(no output)")
        } else {
            String::from_str(result)
        };
        self.output_failed = false;
    }

    /// The invocation has failed: the output area shows the reason as a
    /// failure and running is enabled again.
    pub fn invocation_failed(&mut self, reason: &str)
        ensures
            final(self)@ == after_failed(old(self)@, reason@),
    {
        self.run_enabled = true;
        let mut output = String::from_str("Error: ");
        output.append(reason);
        self.output = output;
        self.output_failed = true;
    }

    /// Resets the page: every control is unset, no subcommand is chosen, and
    /// the output and status areas are empty.
    pub fn reset(&mut self)
        ensures
            final(self)@ == after_reset(old(self)@),
    {
        let mut sections: Vec<Vec<ControlState>> = Vec::new();
        let mut k: usize = 0;
        while k < self.form.sections.len()
            invariant
                k <= self.form.sections.len(),
                sections.len() == k,
                *self == *old(self),
                forall|j: int|
                    0 <= j < k ==> (#[trigger] sections[j]).deep_view() == cleared_controls(
                        self.form.sections[j].deep_view(),
                    ),
            decreases self.form.sections.len() - k,
        {
            sections.push(cleared_controls_for(&self.form.sections[k]));
            k += 1;
        }
        let controls = cleared_controls_for(&self.form.controls);
        let ghost before = self.form@;
        assert(sections.deep_view() =~= cleared_form(before).sections);
        self.form = FormState { controls, sections, selected: None };
        self.status = Status::Clear;
        self.output = String::new();
        self.output_failed = false;
    }
}

} // verus!
