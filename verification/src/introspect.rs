//! Reading the definition of a clap parser: what a `Command` and its `Arg`s
//! declare, as plain values that the extractor works on.
//!
//! A closed value set is reported only for an argument whose action stores a
//! value (set or append): what the parser of a presence-only flag would accept
//! is not something the user of a form chooses from.

use crate::model::{ChoiceOption, EnumOption};
use crate::text::Text;
use vstd::prelude::*;

verus! {

/// clap's `Command`: the definition of a parser. Nothing inside it is visible
/// here; what it declares is read through the functions below.
#[verifier::external_type_specification]
#[verifier::external_body]
pub struct ExCommand(clap::Command);

/// clap's `Arg`: the definition of one argument. Nothing inside it is visible
/// here; what it declares is read through the functions below.
#[verifier::external_type_specification]
#[verifier::external_body]
pub struct ExArg(clap::Arg);

/// What an argument does when it is met on the command line.
#[derive(Debug, Clone, Copy, PartialEq, Eq, Structural)]
pub enum ArgActionKind {
    /// Stores the value.
    Store,
    /// Adds the value to those already stored.
    Append,
    /// Stores `true`.
    StoreTrue,
    /// Stores `false`.
    StoreFalse,
    /// Counts the occurrences.
    Count,
    /// Prints help.
    Help,
    /// Prints short help.
    HelpShort,
    /// Prints long help.
    HelpLong,
    /// Prints the version.
    Version,
    /// An action that this library does not know.
    Other,
}

/// The declared type of an argument's value, as far as the form cares.
#[derive(Debug, Clone, Copy, PartialEq, Eq, Structural)]
pub enum DeclaredType {
    /// `bool`.
    Bool,
    /// An integer type of any width, signed or unsigned.
    Integer,
    /// Anything else.
    Other,
}

/// The primitive types that are told apart when the type that a value parser
/// yields is read: `bool` and the integers of every width.
#[derive(Debug, Clone, Copy, PartialEq, Eq, Structural)]
pub enum ScalarType {
    Bool,
    U8,
    U16,
    U32,
    U64,
    U128,
    Usize,
    I8,
    I16,
    I32,
    I64,
    I128,
    Isize,
}

/// A primitive type that a value parser may yield. Each of them has a tag of
/// its own, so that the tag stands for the type.
pub(crate) trait Scalar {
    /// The tag of the type.
    spec fn scalar() -> ScalarType;
}

impl Scalar for bool {
    open spec fn scalar() -> ScalarType {
        ScalarType::Bool
    }
}

impl Scalar for u8 {
    open spec fn scalar() -> ScalarType {
        ScalarType::U8
    }
}

impl Scalar for u16 {
    open spec fn scalar() -> ScalarType {
        ScalarType::U16
    }
}

impl Scalar for u32 {
    open spec fn scalar() -> ScalarType {
        ScalarType::U32
    }
}

impl Scalar for u64 {
    open spec fn scalar() -> ScalarType {
        ScalarType::U64
    }
}

impl Scalar for u128 {
    open spec fn scalar() -> ScalarType {
        ScalarType::U128
    }
}

impl Scalar for usize {
    open spec fn scalar() -> ScalarType {
        ScalarType::Usize
    }
}

impl Scalar for i8 {
    open spec fn scalar() -> ScalarType {
        ScalarType::I8
    }
}

impl Scalar for i16 {
    open spec fn scalar() -> ScalarType {
        ScalarType::I16
    }
}

impl Scalar for i32 {
    open spec fn scalar() -> ScalarType {
        ScalarType::I32
    }
}

impl Scalar for i64 {
    open spec fn scalar() -> ScalarType {
        ScalarType::I64
    }
}

impl Scalar for i128 {
    open spec fn scalar() -> ScalarType {
        ScalarType::I128
    }
}

impl Scalar for isize {
    open spec fn scalar() -> ScalarType {
        ScalarType::Isize
    }
}

/// One argument of a parser definition, as the contracts see it.
pub struct ArgModel {
    pub id: Text,
    pub short_flag: Option<char>,
    pub long_flag: Option<Text>,
    pub help: Text,
    pub defaults: Seq<Option<Text>>,
    pub positional: bool,
    pub max_values: Option<nat>,
    pub choices: Seq<ChoiceOption>,
    pub action: ArgActionKind,
    pub value_type: DeclaredType,
    pub required: bool,
}

/// One subcommand of a parser definition, as the contracts see it.
pub struct SubcommandModel {
    pub name: Text,
    pub about: Text,
    pub args: Seq<ArgModel>,
}

/// A parser definition, as the contracts see it.
pub struct CommandModel {
    pub args: Seq<ArgModel>,
    pub subcommands: Seq<SubcommandModel>,
}

/// One argument of a parser definition.
#[derive(Debug, Clone)]
pub struct ArgInfo {
    /// Identifier of the argument.
    pub id: String,
    /// Short flag, if any.
    pub short: Option<char>,
    /// Long flag, if any.
    pub long: Option<String>,
    /// Help text, empty if none was declared.
    pub help: String,
    /// Declared defaults in their string form; an entry is `None` where the
    /// default has no string form.
    pub defaults: Vec<Option<String>>,
    /// Whether the argument is given by position.
    pub positional: bool,
    /// The declared maximum number of values, if one was declared.
    pub max_values: Option<usize>,
    /// The closed value set, empty if the argument has none.
    pub choices: Vec<EnumOption>,
    /// What the argument does when it is met.
    pub action: ArgActionKind,
    /// The declared type of the value.
    pub value_type: DeclaredType,
    /// Whether the argument was declared as required.
    pub required: bool,
}

/// One subcommand of a parser definition.
#[derive(Debug, Clone)]
pub struct SubcommandInfo {
    /// Name of the subcommand.
    pub name: String,
    /// Its help text, empty if none was declared.
    pub about: String,
    /// Its own arguments.
    pub args: Vec<ArgInfo>,
}

/// A parser definition.
#[derive(Debug, Clone)]
pub struct CommandInfo {
    /// The top-level arguments.
    pub args: Vec<ArgInfo>,
    /// The subcommands.
    pub subcommands: Vec<SubcommandInfo>,
}

/// The maximum number of values as a natural number.
pub open spec fn limit_of(max_values: Option<usize>) -> Option<nat> {
    match max_values {
        Some(n) => Some(n as nat),
        None => None,
    }
}

impl View for ArgInfo {
    type V = ArgModel;

    open spec fn view(&self) -> ArgModel {
        ArgModel {
            id: self.id@,
            short_flag: self.short,
            long_flag: self.long.deep_view(),
            help: self.help@,
            defaults: self.defaults.deep_view(),
            positional: self.positional,
            max_values: limit_of(self.max_values),
            choices: self.choices.deep_view(),
            action: self.action,
            value_type: self.value_type,
            required: self.required,
        }
    }
}

impl DeepView for ArgInfo {
    type V = ArgModel;

    open spec fn deep_view(&self) -> ArgModel {
        self@
    }
}

impl View for SubcommandInfo {
    type V = SubcommandModel;

    open spec fn view(&self) -> SubcommandModel {
        SubcommandModel { name: self.name@, about: self.about@, args: self.args.deep_view() }
    }
}

impl DeepView for SubcommandInfo {
    type V = SubcommandModel;

    open spec fn deep_view(&self) -> SubcommandModel {
        self@
    }
}

impl View for CommandInfo {
    type V = CommandModel;

    open spec fn view(&self) -> CommandModel {
        CommandModel { args: self.args.deep_view(), subcommands: self.subcommands.deep_view() }
    }
}

/// The arguments that a command declares, in the order of `get_arguments`.
pub uninterp spec fn command_args(command: clap::Command) -> Seq<clap::Arg>;

/// The subcommands that a command declares, in the order of `get_subcommands`.
pub uninterp spec fn command_subcommands(command: clap::Command) -> Seq<clap::Command>;

/// What `Command::get_name` returns.
pub uninterp spec fn command_name_of(command: clap::Command) -> Text;

/// What `Command::get_about` returns, as text.
pub uninterp spec fn command_about_of(command: clap::Command) -> Option<Text>;

/// What `Arg::get_id` returns, as text.
pub uninterp spec fn arg_id_of(arg: clap::Arg) -> Text;

/// What `Arg::get_short` returns.
pub uninterp spec fn arg_short_of(arg: clap::Arg) -> Option<char>;

/// What `Arg::get_long` returns.
pub uninterp spec fn arg_long_of(arg: clap::Arg) -> Option<Text>;

/// What `Arg::get_help` returns, as text.
pub uninterp spec fn arg_help_of(arg: clap::Arg) -> Option<Text>;

/// What `Arg::get_default_values` returns, each value as text where it is
/// valid Unicode.
pub uninterp spec fn arg_defaults_of(arg: clap::Arg) -> Seq<Option<Text>>;

/// What `Arg::get_action` returns.
pub uninterp spec fn arg_action_of(arg: clap::Arg) -> ArgActionKind;

/// The upper end of what `Arg::get_num_args` returns.
pub uninterp spec fn arg_max_values_of(arg: clap::Arg) -> Option<nat>;

/// What `Arg::is_required_set` returns.
pub uninterp spec fn arg_required_of(arg: clap::Arg) -> bool;

/// Collects `Command::get_arguments`. Trusted: the references are to the
/// command's arguments, in its order.
#[verifier::external_body]
pub(crate) fn command_arguments(command: &clap::Command) -> (args: Vec<&clap::Arg>)
    ensures
        args@.len() == command_args(*command).len(),
        forall|i: int| 0 <= i < args@.len() ==> *(#[trigger] args@[i]) == command_args(*command)[i],
{
    command.get_arguments().collect()
}

/// Collects `Command::get_subcommands`. Trusted: the references are to the
/// command's subcommands, in its order.
#[verifier::external_body]
pub(crate) fn command_subcommand_list(command: &clap::Command) -> (subcommands: Vec<
    &clap::Command,
>)
    ensures
        subcommands@.len() == command_subcommands(*command).len(),
        forall|i: int|
            0 <= i < subcommands@.len() ==> *(#[trigger] subcommands@[i]) == command_subcommands(
                *command,
            )[i],
{
    command.get_subcommands().collect()
}

/// Calls `Command::get_name`. Trusted: the result is the name that the
/// command holds.
#[verifier::external_body]
pub(crate) fn command_name(command: &clap::Command) -> (name: String)
    ensures
        name@ == command_name_of(*command),
{
    command.get_name().to_string()
}

/// Calls `Command::get_about` and writes the styled text out as plain text.
/// Trusted: the result is the help text that the command holds, if it holds
/// one.
#[verifier::external_body]
pub(crate) fn command_about(command: &clap::Command) -> (about: Option<String>)
    ensures
        about.deep_view() == command_about_of(*command),
{
    command.get_about().map(|a| a.to_string())
}

/// Calls `Arg::get_id`. Trusted: the result is the identifier that the
/// argument holds.
#[verifier::external_body]
pub(crate) fn arg_id(arg: &clap::Arg) -> (id: String)
    ensures
        id@ == arg_id_of(*arg),
{
    arg.get_id().as_str().to_string()
}

/// Calls `Arg::get_short`. Trusted: the result is the short flag that the
/// argument holds, if it holds one.
#[verifier::external_body]
pub(crate) fn arg_short(arg: &clap::Arg) -> (short: Option<char>)
    ensures
        short == arg_short_of(*arg),
{
    arg.get_short()
}

/// Calls `Arg::get_long`. Trusted: the result is the long flag that the
/// argument holds, if it holds one.
#[verifier::external_body]
pub(crate) fn arg_long(arg: &clap::Arg) -> (long: Option<String>)
    ensures
        long.deep_view() == arg_long_of(*arg),
{
    arg.get_long().map(|l| l.to_string())
}

/// Calls `Arg::get_help` and writes the styled text out as plain text.
/// Trusted: the result is the help text that the argument holds, if it holds
/// one.
#[verifier::external_body]
pub(crate) fn arg_help(arg: &clap::Arg) -> (help: Option<String>)
    ensures
        help.deep_view() == arg_help_of(*arg),
{
    arg.get_help().map(|h| h.to_string())
}

/// Calls `Arg::get_default_values` and converts each value to a string where
/// it is valid Unicode. Trusted: the result lists the defaults that the
/// argument holds, in its order.
#[verifier::external_body]
pub(crate) fn arg_default_values(arg: &clap::Arg) -> (defaults: Vec<Option<String>>)
    ensures
        defaults.deep_view() == arg_defaults_of(*arg),
{
    arg.get_default_values().iter().map(|d| d.to_str().map(|s| s.to_string())).collect()
}

/// Calls `Arg::is_positional`. Trusted: an argument is positional exactly when
/// it has neither a short nor a long flag.
#[verifier::external_body]
pub(crate) fn arg_is_positional(arg: &clap::Arg) -> (positional: bool)
    ensures
        positional == (arg_short_of(*arg) is None && arg_long_of(*arg) is None),
{
    arg.is_positional()
}

/// Calls `Arg::get_action` and names the variant. Trusted: the result is the
/// action that the argument holds, or clap's default where it holds none.
#[verifier::external_body]
pub(crate) fn arg_action(arg: &clap::Arg) -> (action: ArgActionKind)
    ensures
        action == arg_action_of(*arg),
{
    match arg.get_action() {
        clap::ArgAction::Set => ArgActionKind::Store,
        clap::ArgAction::Append => ArgActionKind::Append,
        clap::ArgAction::SetTrue => ArgActionKind::StoreTrue,
        clap::ArgAction::SetFalse => ArgActionKind::StoreFalse,
        clap::ArgAction::Count => ArgActionKind::Count,
        clap::ArgAction::Help => ArgActionKind::Help,
        clap::ArgAction::HelpShort => ArgActionKind::HelpShort,
        clap::ArgAction::HelpLong => ArgActionKind::HelpLong,
        clap::ArgAction::Version => ArgActionKind::Version,
        _ => ArgActionKind::Other,
    }
}

/// Calls `Arg::get_num_args` and `ValueRange::max_values` on what it returns.
/// Trusted: the result is the upper end of the number of values that the
/// argument holds, if it holds one.
#[verifier::external_body]
pub(crate) fn arg_max_values(arg: &clap::Arg) -> (max_values: Option<usize>)
    ensures
        limit_of(max_values) == arg_max_values_of(*arg),
{
    arg.get_num_args().map(|n| n.max_values())
}

/// Calls `ValueParser::possible_values` on the argument's value parser and
/// reads the name and the help text of each value. Nothing is claimed of the
/// answer: a value parser may be one that the user of clap wrote.
#[verifier::external_body]
pub(crate) fn arg_possible_values(arg: &clap::Arg) -> (values: Option<
    Vec<(String, Option<String>)>,
>) {
    arg.get_value_parser().possible_values().map(
        |values|
            values.map(|v| (v.get_name().to_string(), v.get_help().map(|h| h.to_string()))).collect(),
    )
}

/// Calls `Arg::is_required_set`. Trusted: the result is the setting that the
/// argument holds.
#[verifier::external_body]
pub(crate) fn arg_is_required(arg: &clap::Arg) -> (required: bool)
    ensures
        required == arg_required_of(*arg),
{
    arg.is_required_set()
}

/// Whether the type that the argument's value parser yields, as
/// `ValueParser::type_id` reports it, is the primitive type with the tag
/// `scalar`.
pub uninterp spec fn arg_yields(arg: clap::Arg, scalar: ScalarType) -> bool;

/// Compares what `ValueParser::type_id` reports for the argument's value
/// parser with the type `T`. Trusted: the answer is determined by the argument
/// and by `T`, for which its tag stands. clap fixes the reported type by the
/// type of the values that the parser yields; no code of a parser's author
/// takes part in it.
#[verifier::external_body]
pub(crate) fn value_parser_yields<T: Scalar + 'static>(arg: &clap::Arg) -> (yields: bool)
    ensures
        yields == arg_yields(*arg, T::scalar()),
{
    arg.get_value_parser().type_id() == std::any::TypeId::of::<T>()
}

/// Whether an action stores a value that was given on the command line.
pub open spec fn stores_value(action: ArgActionKind) -> bool {
    action == ArgActionKind::Store || action == ArgActionKind::Append
}

/// A text, or the empty text where there is none.
pub open spec fn text_or_empty(t: Option<Text>) -> Text {
    match t {
        Some(t) => t,
        None => Seq::empty(),
    }
}

/// The option for one possible value: its name, and its help text or none.
pub open spec fn choice_of(value: (Text, Option<Text>)) -> ChoiceOption {
    ChoiceOption { value: value.0, description: text_or_empty(value.1) }
}

/// Whether the argument's value parser yields an integer: a signed or unsigned
/// one of 8, 16, 32, 64 or 128 bits or of the width of a pointer.
pub open spec fn yields_integer(arg: clap::Arg) -> bool {
    ||| arg_yields(arg, ScalarType::U8)
    ||| arg_yields(arg, ScalarType::U16)
    ||| arg_yields(arg, ScalarType::U32)
    ||| arg_yields(arg, ScalarType::U64)
    ||| arg_yields(arg, ScalarType::U128)
    ||| arg_yields(arg, ScalarType::Usize)
    ||| arg_yields(arg, ScalarType::I8)
    ||| arg_yields(arg, ScalarType::I16)
    ||| arg_yields(arg, ScalarType::I32)
    ||| arg_yields(arg, ScalarType::I64)
    ||| arg_yields(arg, ScalarType::I128)
    ||| arg_yields(arg, ScalarType::Isize)
}

/// The declared type of an argument's value: `bool` where its value parser
/// yields `bool`, else an integer where it yields one, else something else.
pub open spec fn declared_type_of(arg: clap::Arg) -> DeclaredType {
    if arg_yields(arg, ScalarType::Bool) {
        DeclaredType::Bool
    } else if yields_integer(arg) {
        DeclaredType::Integer
    } else {
        DeclaredType::Other
    }
}

/// What an argument declares, with the closed value set that its value parser
/// reported.
pub open spec fn arg_model(arg: clap::Arg, choices: Seq<ChoiceOption>) -> ArgModel {
    ArgModel {
        id: arg_id_of(arg),
        short_flag: arg_short_of(arg),
        long_flag: arg_long_of(arg),
        help: text_or_empty(arg_help_of(arg)),
        defaults: arg_defaults_of(arg),
        positional: arg_short_of(arg) is None && arg_long_of(arg) is None,
        max_values: arg_max_values_of(arg),
        choices: choices,
        action: arg_action_of(arg),
        value_type: declared_type_of(arg),
        required: arg_required_of(arg),
    }
}

/// `m` is what `arg` declares. The closed value set is whatever the value
/// parser reported; an argument whose action stores no value has no closed
/// value set.
pub open spec fn describes(arg: clap::Arg, m: ArgModel) -> bool {
    &&& m == arg_model(arg, m.choices)
    &&& !stores_value(m.action) ==> m.choices.len() == 0
}

/// The models are what the arguments declare, one for one.
pub open spec fn describes_all(args: Seq<clap::Arg>, models: Seq<ArgModel>) -> bool {
    &&& args.len() == models.len()
    &&& forall|i: int| 0 <= i < args.len() ==> describes(args[i], #[trigger] models[i])
}

/// `m` is what the subcommand declares: its name, its help text and its
/// arguments.
pub open spec fn describes_subcommand(subcommand: clap::Command, m: SubcommandModel) -> bool {
    &&& m.name == command_name_of(subcommand)
    &&& m.about == text_or_empty(command_about_of(subcommand))
    &&& describes_all(command_args(subcommand), m.args)
}

/// The models are what the subcommands declare, one for one.
pub open spec fn describes_subcommands(
    subcommands: Seq<clap::Command>,
    models: Seq<SubcommandModel>,
) -> bool {
    &&& subcommands.len() == models.len()
    &&& forall|i: int|
        0 <= i < subcommands.len() ==> describes_subcommand(subcommands[i], #[trigger] models[i])
}

/// `m` is what the command declares: its arguments and its subcommands.
pub open spec fn describes_command(command: clap::Command, m: CommandModel) -> bool {
    &&& describes_all(command_args(command), m.args)
    &&& describes_subcommands(command_subcommands(command), m.subcommands)
}

/// The string, or the empty string where there is none.
fn string_or_empty(s: Option<String>) -> (out: String)
    ensures
        out@ == text_or_empty(s.deep_view()),
{
    match s {
        Some(t) => t,
        None => String::new(),
    }
}

/// The options for a list of possible values: one per value, in the order of
/// the list, with its name and with its help text or none.
fn choices_from(values: &Vec<(String, Option<String>)>) -> (out: Vec<EnumOption>)
    ensures
        out.len() == values.len(),
        forall|i: int|
            0 <= i < out.len() ==> (#[trigger] out[i])@ == choice_of(values.deep_view()[i]),
{
    let mut out: Vec<EnumOption> = Vec::new();
    let mut i: usize = 0;
    while i < values.len()
        invariant
            i <= values.len(),
            out.len() == i,
            forall|k: int| 0 <= k < i ==> (#[trigger] out[k])@ == choice_of(values.deep_view()[k]),
        decreases values.len() - i,
    {
        let help = match &values[i].1 {
            Some(h) => h.clone(),
            None => String::new(),
        };
        out.push(EnumOption { value: values[i].0.clone(), help });
        i += 1;
    }
    out
}

/// The declared type of an argument's value: `bool`, an integer of any width,
/// or something else, by the type that the argument's value parser yields.
fn declared_type(arg: &clap::Arg) -> (declared: DeclaredType)
    ensures
        declared == declared_type_of(*arg),
{
    if value_parser_yields::<bool>(arg) {
        DeclaredType::Bool
    } else if value_parser_yields::<u8>(arg) || value_parser_yields::<u16>(arg)
        || value_parser_yields::<u32>(arg) || value_parser_yields::<u64>(arg)
        || value_parser_yields::<u128>(arg) || value_parser_yields::<usize>(arg)
        || value_parser_yields::<i8>(arg) || value_parser_yields::<i16>(arg)
        || value_parser_yields::<i32>(arg) || value_parser_yields::<i64>(arg)
        || value_parser_yields::<i128>(arg) || value_parser_yields::<isize>(arg) {
        DeclaredType::Integer
    } else {
        DeclaredType::Other
    }
}

/// Reads what one argument declares.
pub fn read_argument(arg: &clap::Arg) -> (info: ArgInfo)
    ensures
        describes(*arg, info@),
{
    let action = arg_action(arg);
    let stores = match action {
        ArgActionKind::Store => true,
        ArgActionKind::Append => true,
        _ => false,
    };
    let choices = if stores {
        match arg_possible_values(arg) {
            Some(values) => choices_from(&values),
            None => Vec::new(),
        }
    } else {
        Vec::new()
    };
    let info = ArgInfo {
        id: arg_id(arg),
        short: arg_short(arg),
        long: arg_long(arg),
        help: string_or_empty(arg_help(arg)),
        defaults: arg_default_values(arg),
        positional: arg_is_positional(arg),
        max_values: arg_max_values(arg),
        choices,
        action,
        value_type: declared_type(arg),
        required: arg_is_required(arg),
    };
    info
}

/// Reads what the arguments of a command declare, in the command's order.
pub fn read_arguments(command: &clap::Command) -> (infos: Vec<ArgInfo>)
    ensures
        describes_all(command_args(*command), infos.deep_view()),
{
    let args = command_arguments(command);
    let mut infos: Vec<ArgInfo> = Vec::new();
    let mut i: usize = 0;
    while i < args.len()
        invariant
            i <= args.len(),
            infos.len() == i,
            args@.len() == command_args(*command).len(),
            forall|k: int|
                0 <= k < args@.len() ==> *(#[trigger] args@[k]) == command_args(*command)[k],
            forall|k: int| 0 <= k < i ==> describes(command_args(*command)[k], (#[trigger] infos[k])@),
        decreases args.len() - i,
    {
        infos.push(read_argument(args[i]));
        i += 1;
    }
    infos
}

/// Reads what a subcommand declares.
pub fn read_subcommand(subcommand: &clap::Command) -> (info: SubcommandInfo)
    ensures
        describes_subcommand(*subcommand, info@),
{
    SubcommandInfo {
        name: command_name(subcommand),
        about: string_or_empty(command_about(subcommand)),
        args: read_arguments(subcommand),
    }
}

/// Reads what the subcommands of a command declare, in the command's order.
pub fn read_subcommands(command: &clap::Command) -> (infos: Vec<SubcommandInfo>)
    ensures
        describes_subcommands(command_subcommands(*command), infos.deep_view()),
{
    let subcommands = command_subcommand_list(command);
    let mut infos: Vec<SubcommandInfo> = Vec::new();
    let mut i: usize = 0;
    while i < subcommands.len()
        invariant
            i <= subcommands.len(),
            infos.len() == i,
            subcommands@.len() == command_subcommands(*command).len(),
            forall|k: int|
                0 <= k < subcommands@.len() ==> *(#[trigger] subcommands@[k])
                    == command_subcommands(*command)[k],
            forall|k: int|
                0 <= k < i ==> describes_subcommand(
                    command_subcommands(*command)[k],
                    (#[trigger] infos[k])@,
                ),
        decreases subcommands.len() - i,
    {
        infos.push(read_subcommand(subcommands[i]));
        i += 1;
    }
    infos
}

/// Reads a parser definition: its arguments and its subcommands with theirs.
pub fn read_command(command: &clap::Command) -> (info: CommandInfo)
    ensures
        describes_command(*command, info@),
{
    CommandInfo { args: read_arguments(command), subcommands: read_subcommands(command) }
}

} // verus!
