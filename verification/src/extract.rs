//! The field extractor: from the arguments and subcommands that a parser
//! definition declares to the field model of its form.

use crate::introspect::{
    arg_action_of, arg_id_of, command_args, command_name_of, command_subcommands,
    declared_type_of, describes, describes_all, describes_command, describes_subcommand, describes_subcommands, read_arguments,
    read_command, read_subcommands, ArgActionKind, ArgInfo, ArgModel, CommandInfo, CommandModel,
    DeclaredType, SubcommandInfo, SubcommandModel,
};
use crate::model::{
    module_reference_of, EnumOption, Field, FieldDescriptor, FieldKind, FieldType, FormModel,
    SubcommandDescriptor, SubcommandGroup, WasmFunctionConfig,
};
use crate::page::{generate_wasm_function_page, page_text};
use crate::text::{same_text, Text};
use vstd::prelude::*;

verus! {

/// The identifiers of the arguments that a parser adds for itself.
pub open spec fn is_reserved_argument(id: Text) -> bool {
    id == "help"@ || id == "version"@
}

/// The name of the subcommand that a parser adds for itself.
pub open spec fn is_reserved_subcommand(name: Text) -> bool {
    name == "help"@
}

/// Whether the argument collects several values: it appends, or it declares a
/// maximum number of values above one.
pub open spec fn accepts_many(a: ArgModel) -> bool {
    a.action == ArgActionKind::Append || match a.max_values {
        Some(n) => n > 1,
        None => false,
    }
}

/// Whether the action alone says that the argument is a switch: it stores a
/// constant truth value, or it stores a value and is declared to take none.
pub open spec fn action_is_switch(a: ArgModel) -> bool {
    a.action == ArgActionKind::StoreTrue || a.action == ArgActionKind::StoreFalse || (a.action
        == ArgActionKind::Store && a.max_values == Some(0nat))
}

/// The kind of the field for an argument. The first rule that applies decides.
pub open spec fn kind_of(a: ArgModel) -> FieldKind {
    if a.action == ArgActionKind::Count {
        FieldKind::Counter
    } else if accepts_many(a) {
        FieldKind::Multi
    } else if a.choices.len() > 0 {
        FieldKind::Choice(a.choices)
    } else if action_is_switch(a) || a.value_type == DeclaredType::Bool {
        FieldKind::Flag
    } else if a.value_type == DeclaredType::Integer {
        FieldKind::Number
    } else {
        FieldKind::Text
    }
}

/// The first declared default, if there is one and it has a string form.
pub open spec fn first_default(a: ArgModel) -> Option<Text> {
    if a.defaults.len() > 0 {
        a.defaults[0]
    } else {
        None
    }
}

/// The field for an argument.
pub open spec fn field_of(a: ArgModel) -> Field {
    Field {
        name: a.id,
        short_flag: a.short_flag,
        long_flag: a.long_flag,
        description: a.help,
        kind: kind_of(a),
        default_value: first_default(a),
        required: a.required,
        is_positional: a.positional,
    }
}

/// The fields for a list of arguments: one per argument in declared order, but
/// none for the reserved ones.
pub open spec fn extracted_fields(args: Seq<ArgModel>) -> Seq<Field>
    decreases args.len(),
{
    if args.len() == 0 {
        Seq::empty()
    } else if is_reserved_argument(args.last().id) {
        extracted_fields(args.drop_last())
    } else {
        extracted_fields(args.drop_last()).push(field_of(args.last()))
    }
}

/// The group for a subcommand.
pub open spec fn group_of(s: SubcommandModel) -> SubcommandGroup {
    SubcommandGroup { name: s.name, description: s.about, fields: extracted_fields(s.args) }
}

/// The groups for a list of subcommands: one per subcommand in declared order,
/// but none for the reserved one.
pub open spec fn extracted_subcommands(subcommands: Seq<SubcommandModel>) -> Seq<SubcommandGroup>
    decreases subcommands.len(),
{
    if subcommands.len() == 0 {
        Seq::empty()
    } else if is_reserved_subcommand(subcommands.last().name) {
        extracted_subcommands(subcommands.drop_last())
    } else {
        extracted_subcommands(subcommands.drop_last()).push(group_of(subcommands.last()))
    }
}

/// The form model for a parser definition and the three names of a page.
pub open spec fn form_model_of(
    command: CommandModel,
    function_name: Text,
    package_name: Text,
    page_title: Text,
) -> FormModel {
    FormModel {
        invocable_name: function_name,
        module_reference: module_reference_of(package_name),
        page_title: page_title,
        fields: extracted_fields(command.args),
        subcommands: extracted_subcommands(command.subcommands),
    }
}

/// The arguments that extraction keeps: all but the reserved ones.
pub open spec fn kept_arguments(args: Seq<ArgModel>) -> Seq<ArgModel> {
    args.filter(|a: ArgModel| !is_reserved_argument(a.id))
}

/// The subcommands that extraction keeps: all but the reserved one.
pub open spec fn kept_subcommands(subcommands: Seq<SubcommandModel>) -> Seq<SubcommandModel> {
    subcommands.filter(|s: SubcommandModel| !is_reserved_subcommand(s.name))
}

/// Extraction leaves out the arguments named `help` and `version` and no
/// others: the fields are those of the remaining arguments, one for one and
/// in the declared order.
pub proof fn law_only_reserved_arguments_are_dropped(args: Seq<ArgModel>)
    ensures
        extracted_fields(args) == kept_arguments(args).map_values(|a: ArgModel| field_of(a)),
    decreases args.len(),
{
    reveal(Seq::filter);
    let kept = kept_arguments(args);
    let fields = kept.map_values(|a: ArgModel| field_of(a));
    if args.len() == 0 {
        assert(extracted_fields(args) =~= fields);
    } else {
        law_only_reserved_arguments_are_dropped(args.drop_last());
        assert(extracted_fields(args) =~= fields);
    }
}

/// Extraction leaves out the subcommand named `help` and no other: the groups
/// are those of the remaining subcommands, one for one and in the declared
/// order.
pub proof fn law_only_reserved_subcommand_is_dropped(subcommands: Seq<SubcommandModel>)
    ensures
        extracted_subcommands(subcommands) == kept_subcommands(subcommands).map_values(
            |s: SubcommandModel| group_of(s),
        ),
    decreases subcommands.len(),
{
    reveal(Seq::filter);
    let kept = kept_subcommands(subcommands);
    let groups = kept.map_values(|s: SubcommandModel| group_of(s));
    if subcommands.len() == 0 {
        assert(extracted_subcommands(subcommands) =~= groups);
    } else {
        law_only_reserved_subcommand_is_dropped(subcommands.drop_last());
        assert(extracted_subcommands(subcommands) =~= groups);
    }
}

/// No extracted field has a reserved name, and every argument that is not
/// reserved has its field among the extracted ones.
pub proof fn law_extraction_keeps_every_other_argument(args: Seq<ArgModel>)
    ensures
        forall|j: int|
            0 <= j < extracted_fields(args).len() ==> !is_reserved_argument(
                (#[trigger] extracted_fields(args)[j]).name,
            ),
        forall|i: int|
            0 <= i < args.len() && !is_reserved_argument((#[trigger] args[i]).id)
                ==> extracted_fields(args).contains(field_of(args[i])),
    decreases args.len(),
{
    if args.len() > 0 {
        let rest = args.drop_last();
        law_extraction_keeps_every_other_argument(rest);
        let fields = extracted_fields(args);
        let before = extracted_fields(rest);
        assert forall|j: int| 0 <= j < fields.len() implies !is_reserved_argument(
            (#[trigger] fields[j]).name,
        ) by {
            if j < before.len() {
                assert(fields[j] == before[j]);
            }
        }
        assert forall|i: int|
            0 <= i < args.len() && !is_reserved_argument((#[trigger] args[i]).id) implies fields.contains(
            field_of(args[i]),
        ) by {
            if i < rest.len() {
                assert(rest[i] == args[i]);
                let j = choose|j: int| 0 <= j < before.len() && before[j] == field_of(rest[i]);
                assert(fields[j] == field_of(args[i]));
            } else {
                assert(fields[fields.len() - 1] == field_of(args[i]));
            }
        }
    }
}

/// An argument that counts its occurrences becomes a counter, whatever type
/// it declares and whatever else it declares.
pub proof fn law_counting_argument_is_counter(a: ArgModel)
    requires
        a.action == ArgActionKind::Count,
    ensures
        kind_of(a) == FieldKind::Counter,
        field_of(a).kind == FieldKind::Counter,
{
}

/// A clap argument whose action is to count becomes a counter, whatever its
/// value parser reports.
pub proof fn law_counting_clap_argument_is_counter(arg: clap::Arg, m: ArgModel)
    requires
        describes(arg, m),
        arg_action_of(arg) == ArgActionKind::Count,
    ensures
        field_of(m).kind == FieldKind::Counter,
{
}

/// A clap argument that neither counts nor collects several values, has no
/// closed value set and is no switch by its action becomes a flag where its
/// value parser yields `bool`, a number where it yields an integer of any
/// width, and free text otherwise.
pub proof fn law_declared_type_decides_plain_clap_argument(arg: clap::Arg, m: ArgModel)
    requires
        describes(arg, m),
        arg_action_of(arg) != ArgActionKind::Count,
        !accepts_many(m),
        m.choices.len() == 0,
        !action_is_switch(m),
    ensures
        field_of(m).kind == match declared_type_of(arg) {
            DeclaredType::Bool => FieldKind::Flag,
            DeclaredType::Integer => FieldKind::Number,
            DeclaredType::Other => FieldKind::Text,
        },
{
}

/// An argument with a closed value set becomes a choice among exactly the
/// declared values, in the declared order, unless it counts its occurrences
/// or collects several values, which decide first.
pub proof fn law_closed_value_set_is_choice(a: ArgModel)
    requires
        a.choices.len() > 0,
        a.action != ArgActionKind::Count,
        !accepts_many(a),
    ensures
        kind_of(a) == FieldKind::Choice(a.choices),
        field_of(a).kind == FieldKind::Choice(a.choices),
{
}

/// A field whose argument says that it is positional exactly when it has no
/// flag keeps the invariant of the field model: a positional field has
/// neither a short nor a long flag.
pub proof fn law_positional_field_has_no_flag(a: ArgModel)
    requires
        a.positional == (a.short_flag is None && a.long_flag is None),
    ensures
        field_of(a).is_positional ==> field_of(a).short_flag is None && field_of(a).long_flag
            is None,
{
}

/// The names of the fields, in order.
pub open spec fn field_names(fields: Seq<Field>) -> Seq<Text> {
    Seq::new(fields.len(), |i: int| fields[i].name)
}

/// The names of the groups, in order.
pub open spec fn group_names(groups: Seq<SubcommandGroup>) -> Seq<Text> {
    Seq::new(groups.len(), |i: int| groups[i].name)
}

/// The identifiers that a command's arguments declare, in order.
pub open spec fn argument_ids(args: Seq<clap::Arg>) -> Seq<Text> {
    Seq::new(args.len(), |i: int| arg_id_of(args[i]))
}

/// The names that a command's subcommands declare, in order.
pub open spec fn subcommand_names(subcommands: Seq<clap::Command>) -> Seq<Text> {
    Seq::new(subcommands.len(), |i: int| command_name_of(subcommands[i]))
}

/// The identifiers without `help` and `version`.
pub open spec fn without_reserved_arguments(ids: Seq<Text>) -> Seq<Text> {
    ids.filter(|id: Text| !is_reserved_argument(id))
}

/// The names without `help`.
pub open spec fn without_reserved_subcommand(names: Seq<Text>) -> Seq<Text> {
    names.filter(|name: Text| !is_reserved_subcommand(name))
}

/// The names of the extracted fields are the identifiers of the arguments
/// without the reserved ones.
pub proof fn lemma_extracted_field_names(args: Seq<clap::Arg>, models: Seq<ArgModel>)
    requires
        describes_all(args, models),
    ensures
        field_names(extracted_fields(models)) == without_reserved_arguments(argument_ids(args)),
    decreases models.len(),
{
    reveal(Seq::filter);
    let ids = argument_ids(args);
    if models.len() == 0 {
        assert(field_names(extracted_fields(models)) =~= without_reserved_arguments(ids));
    } else {
        let last = models.len() - 1;
        assert(describes(args[last], models[last]));
        assert(describes_all(args.drop_last(), models.drop_last())) by {
            assert forall|i: int| 0 <= i < args.drop_last().len() implies describes(
                args.drop_last()[i],
                #[trigger] models.drop_last()[i],
            ) by {
                assert(describes(args[i], models[i]));
            }
        }
        lemma_extracted_field_names(args.drop_last(), models.drop_last());
        assert(ids.drop_last() =~= argument_ids(args.drop_last()));
        assert(ids.last() == models.last().id);
        assert(field_names(extracted_fields(models)) =~= without_reserved_arguments(ids));
    }
}

/// The names of the extracted groups are the names of the subcommands without
/// the reserved one.
pub proof fn lemma_extracted_group_names(
    subcommands: Seq<clap::Command>,
    models: Seq<SubcommandModel>,
)
    requires
        describes_subcommands(subcommands, models),
    ensures
        group_names(extracted_subcommands(models)) == without_reserved_subcommand(
            subcommand_names(subcommands),
        ),
    decreases models.len(),
{
    reveal(Seq::filter);
    let names = subcommand_names(subcommands);
    if models.len() == 0 {
        assert(group_names(extracted_subcommands(models)) =~= without_reserved_subcommand(names));
    } else {
        let last = models.len() - 1;
        assert(describes_subcommand(subcommands[last], models[last]));
        assert(describes_subcommands(subcommands.drop_last(), models.drop_last())) by {
            assert forall|i: int| 0 <= i < subcommands.drop_last().len() implies describes_subcommand(
                subcommands.drop_last()[i],
                #[trigger] models.drop_last()[i],
            ) by {
                assert(describes_subcommand(subcommands[i], models[i]));
            }
        }
        lemma_extracted_group_names(subcommands.drop_last(), models.drop_last());
        assert(names.drop_last() =~= subcommand_names(subcommands.drop_last()));
        assert(names.last() == models.last().name);
        assert(group_names(extracted_subcommands(models)) =~= without_reserved_subcommand(names));
    }
}

/// A copy of an optional string.
fn copy_of_optional(s: &Option<String>) -> (out: Option<String>)
    ensures
        out.deep_view() == s.deep_view(),
{
    match s {
        Some(t) => Some(t.clone()),
        None => None,
    }
}

/// A copy of a list of options.
fn copy_of_options(options: &Vec<EnumOption>) -> (out: Vec<EnumOption>)
    ensures
        out.deep_view() == options.deep_view(),
{
    let mut out: Vec<EnumOption> = Vec::new();
    let mut i: usize = 0;
    while i < options.len()
        invariant
            i <= options.len(),
            out.len() == i,
            forall|k: int| 0 <= k < i ==> (#[trigger] out[k])@ == options[k]@,
        decreases options.len() - i,
    {
        out.push(EnumOption { value: options[i].value.clone(), help: options[i].help.clone() });
        i += 1;
    }
    assert(out.deep_view() =~= options.deep_view());
    out
}

/// Decides the kind of the field for an argument: a counter for a counting
/// argument whatever else it declares; else a multi-value field for one that
/// collects several values; else a choice for one with a closed value set;
/// else a flag, a number or free text by its action and declared type.
pub fn determine_field_type(arg: &ArgInfo) -> (kind: FieldType)
    ensures
        kind@ == kind_of(arg@),
{
    let many = match arg.action {
        ArgActionKind::Append => true,
        _ => match arg.max_values {
            Some(n) => n > 1,
            None => false,
        },
    };
    let switch = match arg.action {
        ArgActionKind::StoreTrue => true,
        ArgActionKind::StoreFalse => true,
        ArgActionKind::Store => match arg.max_values {
            Some(n) => n == 0,
            None => false,
        },
        _ => false,
    };
    assert(many == accepts_many(arg@));
    assert(switch == action_is_switch(arg@));
    if let ArgActionKind::Count = arg.action {
        FieldType::Counter
    } else if many {
        FieldType::Vec
    } else if arg.choices.len() > 0 {
        FieldType::Enum(copy_of_options(&arg.choices))
    } else if switch {
        FieldType::Bool
    } else {
        match arg.value_type {
            DeclaredType::Bool => FieldType::Bool,
            DeclaredType::Integer => FieldType::Integer,
            DeclaredType::Other => FieldType::String,
        }
    }
}

/// Whether an argument is one that the parser adds for itself.
fn is_reserved(id: &str) -> (reserved: bool)
    ensures
        reserved == is_reserved_argument(id@),
{
    same_text(id, "help") || same_text(id, "version")
}

/// The field for one argument.
fn field_for(arg: &ArgInfo) -> (field: FieldDescriptor)
    ensures
        field@ == field_of(arg@),
{
    let default_value = if arg.defaults.len() > 0 {
        copy_of_optional(&arg.defaults[0])
    } else {
        None
    };
    FieldDescriptor {
        name: arg.id.clone(),
        short: arg.short,
        long: copy_of_optional(&arg.long),
        help: arg.help.clone(),
        field_type: determine_field_type(arg),
        default_value,
        required: arg.required,
        is_positional: arg.positional,
    }
}

/// Derives the fields of a form from the arguments of a parser definition:
/// one field per argument, in declared order, the parser's own `help` and
/// `version` left out.
pub fn extract_fields_from_arguments(args: &Vec<ArgInfo>) -> (fields: Vec<FieldDescriptor>)
    ensures
        fields.deep_view() == extracted_fields(args.deep_view()),
{
    let ghost all = args.deep_view();
    let mut fields: Vec<FieldDescriptor> = Vec::new();
    let mut i: usize = 0;
    while i < args.len()
        invariant
            i <= args.len(),
            all == args.deep_view(),
            fields.deep_view() == extracted_fields(all.take(i as int)),
        decreases args.len() - i,
    {
        let ghost before = fields.deep_view();
        proof {
            assert(all.take(i + 1).drop_last() =~= all.take(i as int));
            assert(all.take(i + 1).last() == args[i as int]@);
        }
        if !is_reserved(args[i].id.as_str()) {
            fields.push(field_for(&args[i]));
            assert(fields.deep_view() =~= before.push(field_of(args[i as int]@)));
        }
        i += 1;
    }
    assert(all.take(args.len() as int) =~= all);
    fields
}

/// The group for one subcommand.
fn group_for(subcommand: &SubcommandInfo) -> (group: SubcommandDescriptor)
    ensures
        group@ == group_of(subcommand@),
{
    SubcommandDescriptor {
        name: subcommand.name.clone(),
        help: subcommand.about.clone(),
        fields: extract_fields_from_arguments(&subcommand.args),
    }
}

/// Derives the subcommand groups of a form from the subcommands of a parser
/// definition: one group per subcommand, in declared order, the parser's own
/// `help` left out; each group's fields are derived as the top-level ones are.
pub fn extract_subcommands(subcommands: &Vec<SubcommandInfo>) -> (groups: Vec<SubcommandDescriptor>)
    ensures
        groups.deep_view() == extracted_subcommands(subcommands.deep_view()),
{
    let ghost all = subcommands.deep_view();
    let mut groups: Vec<SubcommandDescriptor> = Vec::new();
    let mut i: usize = 0;
    while i < subcommands.len()
        invariant
            i <= subcommands.len(),
            all == subcommands.deep_view(),
            groups.deep_view() == extracted_subcommands(all.take(i as int)),
        decreases subcommands.len() - i,
    {
        let ghost before = groups.deep_view();
        proof {
            assert(all.take(i + 1).drop_last() =~= all.take(i as int));
            assert(all.take(i + 1).last() == subcommands[i as int]@);
        }
        if !same_text(subcommands[i].name.as_str(), "help") {
            groups.push(group_for(&subcommands[i]));
            assert(groups.deep_view() =~= before.push(group_of(subcommands[i as int]@)));
        }
        i += 1;
    }
    assert(all.take(subcommands.len() as int) =~= all);
    groups
}

/// Derives everything a page is generated from: the fields and subcommand
/// groups of the parser definition, under the three names given.
pub fn extract_form_model(
    command: &CommandInfo,
    function_name: &str,
    package_name: &str,
    page_title: &str,
) -> (config: WasmFunctionConfig)
    ensures
        config@ == form_model_of(command@, function_name@, package_name@, page_title@),
{
    WasmFunctionConfig {
        function_name: String::from_str(function_name),
        package_name: String::from_str(package_name),
        page_title: String::from_str(page_title),
        fields: extract_fields_from_arguments(&command.args),
        subcommands: extract_subcommands(&command.subcommands),
    }
}

/// Extracts the fields of a form from a clap command: one field per argument
/// that the command declares, in its order, without `help` and `version`.
pub fn extract_field_descriptors_from_command(command: &clap::Command) -> (fields: Vec<
    FieldDescriptor,
>)
    ensures
        exists|args: Seq<ArgModel>|
            describes_all(command_args(*command), args) && fields.deep_view() == extracted_fields(
                args,
            ),
        field_names(fields.deep_view()) == without_reserved_arguments(
            argument_ids(command_args(*command)),
        ),
{
    let infos = read_arguments(command);
    let fields = extract_fields_from_arguments(&infos);
    proof {
        lemma_extracted_field_names(command_args(*command), infos.deep_view());
    }
    assert(describes_all(command_args(*command), infos.deep_view()) && fields.deep_view()
        == extracted_fields(infos.deep_view()));
    fields
}

/// Extracts the subcommand groups of a form from a clap command: one group per
/// subcommand that the command declares, in its order, without `help`.
pub fn extract_subcommands_from_command(command: &clap::Command) -> (groups: Vec<
    SubcommandDescriptor,
>)
    ensures
        exists|subcommands: Seq<SubcommandModel>|
            describes_subcommands(command_subcommands(*command), subcommands)
                && groups.deep_view() == extracted_subcommands(subcommands),
        group_names(groups.deep_view()) == without_reserved_subcommand(
            subcommand_names(command_subcommands(*command)),
        ),
{
    let infos = read_subcommands(command);
    let groups = extract_subcommands(&infos);
    proof {
        lemma_extracted_group_names(command_subcommands(*command), infos.deep_view());
    }
    assert(describes_subcommands(command_subcommands(*command), infos.deep_view())
        && groups.deep_view() == extracted_subcommands(infos.deep_view()));
    groups
}

/// Generates the page for the parser that `command` defines. The page calls
/// `function_name` of the package's module.
pub fn generate_ui_for_parser_with_function(
    command: &clap::Command,
    package_name: &str,
    page_title: &str,
    function_name: &str,
) -> (page: String)
    ensures
        exists|m: CommandModel|
            describes_command(*command, m) && page@ == page_text(
                form_model_of(m, function_name@, package_name@, page_title@),
            ),
{
    let info = read_command(command);
    let config = extract_form_model(&info, function_name, package_name, page_title);
    let page = generate_wasm_function_page(&config);
    assert(describes_command(*command, info@) && page@ == page_text(
        form_model_of(info@, function_name@, package_name@, page_title@),
    ));
    page
}

/// Generates the page for the parser that `command` defines. The page calls
/// the function `process_bind` of the package's module.
pub fn generate_ui_for_parser(command: &clap::Command, package_name: &str, page_title: &str) -> (page:
    String)
    ensures
        exists|m: CommandModel|
            describes_command(*command, m) && page@ == page_text(
                form_model_of(m, "process_bind"@, package_name@, page_title@),
            ),
{
    generate_ui_for_parser_with_function(command, package_name, page_title, "process_bind")
}

} // verus!
