//! The field model: what one argument, one subcommand and one whole form are,
//! both as the values a caller builds and as the mathematical model that the
//! contracts of the other modules speak of.

use crate::text::{replace_char, same_text, Text};
use vstd::prelude::*;

verus! {

/// One legal value of a closed value set, as the contracts see it.
pub struct ChoiceOption {
    pub value: Text,
    pub description: Text,
}

/// The kind of control a field is entered with.
pub enum FieldKind {
    /// Free-form string.
    Text,
    /// Boolean, presence only.
    Flag,
    /// Integer-valued.
    Number,
    /// Integer derived from repeated occurrences of a flag.
    Counter,
    /// One value out of a closed set, in declared order.
    Choice(Seq<ChoiceOption>),
    /// Zero or more string values, in the order they were entered.
    Multi,
}

/// One argument of the invocable, as the contracts see it.
pub struct Field {
    pub name: Text,
    pub short_flag: Option<char>,
    pub long_flag: Option<Text>,
    pub description: Text,
    pub kind: FieldKind,
    pub default_value: Option<Text>,
    pub required: bool,
    pub is_positional: bool,
}

/// One named subcommand with its own fields, as the contracts see it.
pub struct SubcommandGroup {
    pub name: Text,
    pub description: Text,
    pub fields: Seq<Field>,
}

/// Everything a page is generated from, as the contracts see it.
pub struct FormModel {
    pub invocable_name: Text,
    pub module_reference: Text,
    pub page_title: Text,
    pub fields: Seq<Field>,
    pub subcommands: Seq<SubcommandGroup>,
}

/// Whether one of the options has the value `value`.
pub open spec fn has_option(options: Seq<ChoiceOption>, value: Text) -> bool {
    exists|i: int| 0 <= i < options.len() && (#[trigger] options[i]).value == value
}

impl Field {
    /// A positional field has no flag form, and the default of a choice is one
    /// of its options.
    pub open spec fn wf(self) -> bool {
        &&& self.is_positional ==> self.short_flag is None && self.long_flag is None
        &&& match (self.kind, self.default_value) {
            (FieldKind::Choice(options), Some(default)) => has_option(options, default),
            _ => true,
        }
    }
}

/// No two of the first `n` fields have the same name.
pub open spec fn field_names_distinct(fields: Seq<Field>, n: int) -> bool {
    forall|i: int, j: int|
        0 <= i < j < n ==> (#[trigger] fields[i]).name != (#[trigger] fields[j]).name
}

/// Every field is well formed and the names are distinct.
pub open spec fn field_set_wf(fields: Seq<Field>) -> bool {
    &&& forall|i: int| 0 <= i < fields.len() ==> (#[trigger] fields[i]).wf()
    &&& field_names_distinct(fields, fields.len() as int)
}

impl SubcommandGroup {
    /// The fields of a subcommand are a well-formed set of their own.
    pub open spec fn wf(self) -> bool {
        field_set_wf(self.fields)
    }
}

/// No two of the first `n` subcommands have the same name.
pub open spec fn subcommand_names_distinct(groups: Seq<SubcommandGroup>, n: int) -> bool {
    forall|i: int, j: int|
        0 <= i < j < n ==> (#[trigger] groups[i]).name != (#[trigger] groups[j]).name
}

impl FormModel {
    /// The top-level fields and each subcommand's fields are well-formed sets,
    /// and sibling subcommands have distinct names.
    pub open spec fn wf(self) -> bool {
        &&& field_set_wf(self.fields)
        &&& forall|i: int| 0 <= i < self.subcommands.len() ==> (#[trigger] self.subcommands[i]).wf()
        &&& subcommand_names_distinct(self.subcommands, self.subcommands.len() as int)
    }
}

/// The module specifier a page loads for a package: the package's file beside
/// the page, with the hyphens of the package name turned into underscores.
pub open spec fn module_reference_of(package_name: Text) -> Text {
    "./"@ + replace_char(package_name, '-', "_"@) + ".js"@
}

/// One legal value of a closed value set.
#[derive(Debug, Clone)]
pub struct EnumOption {
    /// The token that is passed on the command line.
    pub value: String,
    /// Help text for this value; may be empty.
    pub help: String,
}

/// The kind of a field.
#[derive(Debug, Clone)]
pub enum FieldType {
    /// Free-form string, entered in a text input.
    String,
    /// Presence-only flag, entered with a checkbox.
    Bool,
    /// Integer, entered in a number input.
    Integer,
    /// A flag that is repeated as many times as the number entered.
    Counter,
    /// One value out of the listed ones.
    Enum(Vec<EnumOption>),
    /// Any number of values, collected one by one.
    Vec,
}

/// One argument of the invocable.
#[derive(Debug, Clone)]
pub struct FieldDescriptor {
    /// Identifier: the element id in the page and the key of the argument.
    pub name: String,
    /// Short flag, `s` for `-s`.
    pub short: Option<char>,
    /// Long flag, `string-field` for `--string-field`.
    pub long: Option<String>,
    /// Help text; may be empty.
    pub help: String,
    /// Kind of the field.
    pub field_type: FieldType,
    /// Default value in its string form.
    pub default_value: Option<String>,
    /// Whether leaving the field unset is an error.
    pub required: bool,
    /// Whether the argument is given by position, not by flag.
    pub is_positional: bool,
}

/// One named subcommand.
#[derive(Debug, Clone)]
pub struct SubcommandDescriptor {
    /// Name of the subcommand, unique among its siblings.
    pub name: String,
    /// Help text; may be empty.
    pub help: String,
    /// The subcommand's own fields.
    pub fields: Vec<FieldDescriptor>,
}

/// What a page is generated from.
pub struct WasmFunctionConfig {
    /// Name of the function that the page calls.
    pub function_name: String,
    /// Name of the package whose module the page loads.
    pub package_name: String,
    /// Title shown on the page.
    pub page_title: String,
    /// Top-level fields.
    pub fields: Vec<FieldDescriptor>,
    /// Subcommands, if any.
    pub subcommands: Vec<SubcommandDescriptor>,
}

impl View for EnumOption {
    type V = ChoiceOption;

    open spec fn view(&self) -> ChoiceOption {
        ChoiceOption { value: self.value@, description: self.help@ }
    }
}

impl DeepView for EnumOption {
    type V = ChoiceOption;

    open spec fn deep_view(&self) -> ChoiceOption {
        self@
    }
}

impl View for FieldType {
    type V = FieldKind;

    open spec fn view(&self) -> FieldKind {
        match self {
            FieldType::String => FieldKind::Text,
            FieldType::Bool => FieldKind::Flag,
            FieldType::Integer => FieldKind::Number,
            FieldType::Counter => FieldKind::Counter,
            FieldType::Enum(options) => FieldKind::Choice(options.deep_view()),
            FieldType::Vec => FieldKind::Multi,
        }
    }
}

impl DeepView for FieldType {
    type V = FieldKind;

    open spec fn deep_view(&self) -> FieldKind {
        self@
    }
}

impl View for FieldDescriptor {
    type V = Field;

    open spec fn view(&self) -> Field {
        Field {
            name: self.name@,
            short_flag: self.short,
            long_flag: self.long.deep_view(),
            description: self.help@,
            kind: self.field_type@,
            default_value: self.default_value.deep_view(),
            required: self.required,
            is_positional: self.is_positional,
        }
    }
}

impl DeepView for FieldDescriptor {
    type V = Field;

    open spec fn deep_view(&self) -> Field {
        self@
    }
}

impl View for SubcommandDescriptor {
    type V = SubcommandGroup;

    open spec fn view(&self) -> SubcommandGroup {
        SubcommandGroup {
            name: self.name@,
            description: self.help@,
            fields: self.fields.deep_view(),
        }
    }
}

impl DeepView for SubcommandDescriptor {
    type V = SubcommandGroup;

    open spec fn deep_view(&self) -> SubcommandGroup {
        self@
    }
}

impl View for WasmFunctionConfig {
    type V = FormModel;

    open spec fn view(&self) -> FormModel {
        FormModel {
            invocable_name: self.function_name@,
            module_reference: module_reference_of(self.package_name@),
            page_title: self.page_title@,
            fields: self.fields.deep_view(),
            subcommands: self.subcommands.deep_view(),
        }
    }
}

/// Whether one of the options has the value `value`.
pub fn find_option(options: &Vec<EnumOption>, value: &str) -> (found: bool)
    ensures
        found == has_option(options.deep_view(), value@),
{
    let mut i: usize = 0;
    while i < options.len()
        invariant
            i <= options.len(),
            forall|k: int| 0 <= k < i ==> (#[trigger] options.deep_view()[k]).value != value@,
        decreases options.len() - i,
    {
        if same_text(options[i].value.as_str(), value) {
            assert(options.deep_view()[i as int].value == value@);
            return true;
        }
        i += 1;
    }
    false
}

impl FieldDescriptor {
    /// Whether the field keeps the invariant of the field model.
    pub fn is_well_formed(&self) -> (ok: bool)
        ensures
            ok == self@.wf(),
    {
        if self.is_positional && (self.short.is_some() || self.long.is_some()) {
            return false;
        }
        match (&self.field_type, &self.default_value) {
            (FieldType::Enum(options), Some(default)) => find_option(options, default.as_str()),
            _ => true,
        }
    }
}

/// Whether the fields are well formed and their names distinct.
pub fn field_set_is_well_formed(fields: &Vec<FieldDescriptor>) -> (ok: bool)
    ensures
        ok == field_set_wf(fields.deep_view()),
{
    let ghost all = fields.deep_view();
    let mut j: usize = 0;
    while j < fields.len()
        invariant
            j <= fields.len(),
            all == fields.deep_view(),
            forall|k: int| 0 <= k < j ==> (#[trigger] all[k]).wf(),
            field_names_distinct(all, j as int),
        decreases fields.len() - j,
    {
        assert(all[j as int] == fields[j as int]@);
        if !fields[j].is_well_formed() {
            return false;
        }
        let mut i: usize = 0;
        while i < j
            invariant
                i <= j < fields.len(),
                all == fields.deep_view(),
                field_names_distinct(all, j as int),
                forall|k: int| 0 <= k < i ==> (#[trigger] all[k]).name != all[j as int].name,
            decreases j - i,
        {
            assert(all[i as int] == fields[i as int]@);
            assert(all[j as int] == fields[j as int]@);
            if same_text(fields[i].name.as_str(), fields[j].name.as_str()) {
                return false;
            }
            i += 1;
        }
        j += 1;
    }
    true
}

impl WasmFunctionConfig {
    /// Whether the form keeps the invariants of the field model: in every
    /// field set the fields are well formed and their names distinct, and the
    /// names of the subcommands are distinct.
    pub fn is_well_formed(&self) -> (ok: bool)
        ensures
            ok == self@.wf(),
    {
        if !field_set_is_well_formed(&self.fields) {
            return false;
        }
        let ghost groups = self.subcommands.deep_view();
        let mut j: usize = 0;
        while j < self.subcommands.len()
            invariant
                j <= self.subcommands.len(),
                groups == self.subcommands.deep_view(),
                forall|k: int| 0 <= k < j ==> (#[trigger] groups[k]).wf(),
                subcommand_names_distinct(groups, j as int),
            decreases self.subcommands.len() - j,
        {
            assert(groups[j as int] == self.subcommands[j as int]@);
            if !field_set_is_well_formed(&self.subcommands[j].fields) {
                return false;
            }
            let mut i: usize = 0;
            while i < j
                invariant
                    i <= j < self.subcommands.len(),
                    groups == self.subcommands.deep_view(),
                    subcommand_names_distinct(groups, j as int),
                    forall|k: int| 0 <= k < i ==> (#[trigger] groups[k]).name != groups[j as int].name,
                decreases j - i,
            {
                assert(groups[i as int] == self.subcommands[i as int]@);
                assert(groups[j as int] == self.subcommands[j as int]@);
                if same_text(self.subcommands[i].name.as_str(), self.subcommands[j].name.as_str()) {
                    return false;
                }
                i += 1;
            }
            j += 1;
        }
        true
    }
}

} // verus!
