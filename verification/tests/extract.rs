use clap::builder::{
    EnumValueParser, PossibleValue, RangedI64ValueParser, RangedU64ValueParser, ValueParser,
};
use clap::{Arg, ArgAction, Command, ValueEnum};
use code_gen::extract::{
    determine_field_type, extract_field_descriptors_from_command, extract_fields_from_arguments,
    extract_form_model, extract_subcommands, extract_subcommands_from_command,
    generate_ui_for_parser, generate_ui_for_parser_with_function,
};
use code_gen::introspect::{ArgActionKind, ArgInfo, CommandInfo, DeclaredType, SubcommandInfo};
use code_gen::model::{EnumOption, FieldType};

#[derive(Clone, Copy)]
enum TestColor {
    Red,
    Green,
    Blue,
}

impl ValueEnum for TestColor {
    fn value_variants<'a>() -> &'a [Self] {
        &[TestColor::Red, TestColor::Green, TestColor::Blue]
    }

    fn to_possible_value(&self) -> Option<PossibleValue> {
        Some(match self {
            TestColor::Red => PossibleValue::new("red"),
            TestColor::Green => PossibleValue::new("green"),
            TestColor::Blue => PossibleValue::new("blue"),
        })
    }
}

fn test_command() -> Command {
    Command::new("test")
        .arg(
            Arg::new("name")
                .short('n')
                .long("name")
                .help("Name field")
                .required(true)
                .action(ArgAction::Set)
                .value_parser(ValueParser::string()),
        )
        .arg(
            Arg::new("count")
                .short('c')
                .long("count")
                .help("Count field")
                .default_value("5")
                .action(ArgAction::Set)
                .value_parser(RangedU64ValueParser::<u32>::new()),
        )
        .arg(
            Arg::new("enabled")
                .short('e')
                .long("enabled")
                .help("Enable flag")
                .action(ArgAction::SetTrue)
                .value_parser(ValueParser::bool()),
        )
        .arg(
            Arg::new("color")
                .short('o')
                .long("color")
                .help("Color choice")
                .required(true)
                .action(ArgAction::Set)
                .value_parser(EnumValueParser::<TestColor>::new()),
        )
        .arg(
            Arg::new("tags")
                .short('t')
                .long("tags")
                .help("Tags")
                .action(ArgAction::Append)
                .value_parser(ValueParser::string()),
        )
}

#[test]
fn test_extract_field_descriptors() {
    let cmd = test_command();
    let fields = extract_field_descriptors_from_command(&cmd);

    assert_eq!(fields.len(), 5);

    let name_field = fields.iter().find(|f| f.name == "name").unwrap();
    assert_eq!(name_field.short, Some('n'));
    assert_eq!(name_field.long, Some("name".to_string()));
    assert_eq!(name_field.help, "Name field");
    assert!(matches!(name_field.field_type, FieldType::String));

    let count_field = fields.iter().find(|f| f.name == "count").unwrap();
    assert_eq!(count_field.short, Some('c'));
    assert_eq!(count_field.default_value, Some("5".to_string()));
    assert!(matches!(count_field.field_type, FieldType::Integer));

    let enabled_field = fields.iter().find(|f| f.name == "enabled").unwrap();
    assert!(matches!(enabled_field.field_type, FieldType::Bool));

    let color_field = fields.iter().find(|f| f.name == "color").unwrap();
    if let FieldType::Enum(options) = &color_field.field_type {
        assert_eq!(options.len(), 3);
        assert!(options.iter().any(|o| o.value == "red"));
        assert!(options.iter().any(|o| o.value == "green"));
        assert!(options.iter().any(|o| o.value == "blue"));
    } else {
        panic!("Expected Enum field type");
    }

    let _tags_field = fields.iter().find(|f| f.name == "tags").unwrap();
}

#[test]
fn extraction_keeps_declared_order_and_details() {
    let fields = extract_field_descriptors_from_command(&test_command());
    let names: Vec<&str> = fields.iter().map(|f| f.name.as_str()).collect();
    assert_eq!(names, vec!["name", "count", "enabled", "color", "tags"]);
    assert!(fields[0].required);
    assert!(!fields[1].required);
    assert!(fields.iter().all(|f| !f.is_positional));
    assert!(matches!(fields[4].field_type, FieldType::Vec));
    assert_eq!(fields[2].default_value, None);
    if let FieldType::Enum(options) = &fields[3].field_type {
        let values: Vec<&str> = options.iter().map(|o| o.value.as_str()).collect();
        assert_eq!(values, vec!["red", "green", "blue"]);
        assert!(options.iter().all(|o| o.help.is_empty()));
    } else {
        panic!("Expected Enum field type");
    }
}

#[test]
fn extraction_skips_reserved_arguments_only() {
    let cmd = Command::new("tool")
        .disable_help_flag(true)
        .disable_version_flag(true)
        .arg(Arg::new("help").long("help").action(ArgAction::Help))
        .arg(Arg::new("input").help("Input file"))
        .arg(Arg::new("version").long("version").action(ArgAction::Version))
        .arg(Arg::new("helpful").long("helpful").action(ArgAction::SetTrue));
    let fields = extract_field_descriptors_from_command(&cmd);
    let names: Vec<&str> = fields.iter().map(|f| f.name.as_str()).collect();
    assert_eq!(names, vec!["input", "helpful"]);
    assert!(fields[0].is_positional);
    assert_eq!(fields[0].short, None);
    assert_eq!(fields[0].long, None);
    assert_eq!(fields[0].help, "Input file");
    assert!(matches!(fields[0].field_type, FieldType::String));
}

#[test]
fn counting_argument_is_a_counter_whatever_its_type() {
    let cmd = Command::new("tool")
        .arg(
            Arg::new("verbose")
                .short('v')
                .long("verbose")
                .action(ArgAction::Count)
                .value_parser(RangedU64ValueParser::<u8>::new()),
        )
        .arg(Arg::new("quiet").short('q').action(ArgAction::Count));
    let fields = extract_field_descriptors_from_command(&cmd);
    assert_eq!(fields.len(), 2);
    assert!(matches!(fields[0].field_type, FieldType::Counter));
    assert!(matches!(fields[1].field_type, FieldType::Counter));
}

#[test]
fn choice_options_carry_their_help() {
    let cmd = Command::new("tool").arg(
        Arg::new("mode").long("mode").action(ArgAction::Set).value_parser([
            PossibleValue::new("fast").help("Quick and rough"),
            PossibleValue::new("slow"),
        ]),
    );
    let fields = extract_field_descriptors_from_command(&cmd);
    if let FieldType::Enum(options) = &fields[0].field_type {
        assert_eq!(options.len(), 2);
        assert_eq!(options[0].value, "fast");
        assert_eq!(options[0].help, "Quick and rough");
        assert_eq!(options[1].value, "slow");
        assert_eq!(options[1].help, "");
    } else {
        panic!("Expected Enum field type");
    }
}

#[test]
fn several_values_make_a_multi_field() {
    let cmd = Command::new("tool")
        .arg(Arg::new("pair").long("pair").num_args(2).action(ArgAction::Set))
        .arg(Arg::new("one").long("one").num_args(1).action(ArgAction::Set))
        .arg(Arg::new("none").long("none").num_args(0).action(ArgAction::Set));
    let fields = extract_field_descriptors_from_command(&cmd);
    assert!(matches!(fields[0].field_type, FieldType::Vec));
    assert!(matches!(fields[1].field_type, FieldType::String));
    assert!(matches!(fields[2].field_type, FieldType::Bool));
}

#[test]
fn integer_types_of_any_width_are_numbers() {
    let cmd = Command::new("tool")
        .arg(Arg::new("a").long("a").value_parser(RangedU64ValueParser::<u64>::new()))
        .arg(Arg::new("b").long("b").value_parser(RangedI64ValueParser::<i16>::new()))
        .arg(Arg::new("c").long("c").value_parser(ValueParser::path_buf()))
        .arg(Arg::new("d").long("d").action(ArgAction::Set).value_parser(ValueParser::bool()));
    let fields = extract_field_descriptors_from_command(&cmd);
    assert!(matches!(fields[0].field_type, FieldType::Integer));
    assert!(matches!(fields[1].field_type, FieldType::Integer));
    assert!(matches!(fields[2].field_type, FieldType::String));
    // a boolean that is given as a value is chosen from `true` and `false`
    if let FieldType::Enum(options) = &fields[3].field_type {
        let values: Vec<&str> = options.iter().map(|o| o.value.as_str()).collect();
        assert_eq!(values, vec!["true", "false"]);
    } else {
        panic!("Expected Enum field type");
    }
}

#[test]
fn subcommands_are_extracted_with_their_fields() {
    let cmd = Command::new("tool")
        .arg(Arg::new("top").long("top"))
        .subcommand(
            Command::new("add")
                .about("Add an entry")
                .arg(Arg::new("name").required(true))
                .arg(Arg::new("force").short('f').long("force").action(ArgAction::SetTrue)),
        )
        .subcommand(Command::new("help"))
        .subcommand(Command::new("list"));
    let groups = extract_subcommands_from_command(&cmd);
    assert_eq!(groups.len(), 2);
    assert_eq!(groups[0].name, "add");
    assert_eq!(groups[0].help, "Add an entry");
    assert_eq!(groups[0].fields.len(), 2);
    assert_eq!(groups[0].fields[0].name, "name");
    assert!(groups[0].fields[0].is_positional);
    assert!(groups[0].fields[0].required);
    assert!(matches!(groups[0].fields[1].field_type, FieldType::Bool));
    assert_eq!(groups[1].name, "list");
    assert_eq!(groups[1].help, "");
    assert!(groups[1].fields.is_empty());
}

fn plain_argument(id: &str) -> ArgInfo {
    ArgInfo {
        id: id.to_string(),
        short: None,
        long: Some(id.to_string()),
        help: String::new(),
        defaults: vec![],
        positional: false,
        max_values: None,
        choices: vec![],
        action: ArgActionKind::Store,
        value_type: DeclaredType::Other,
        required: false,
    }
}

#[test]
fn kind_is_decided_by_the_first_rule_that_applies() {
    let choices = vec![EnumOption { value: "a".to_string(), help: String::new() }];

    let mut everything = plain_argument("x");
    everything.action = ArgActionKind::Count;
    everything.max_values = Some(3);
    everything.choices = choices.clone();
    everything.value_type = DeclaredType::Bool;
    assert!(matches!(determine_field_type(&everything), FieldType::Counter));

    everything.action = ArgActionKind::Append;
    assert!(matches!(determine_field_type(&everything), FieldType::Vec));

    everything.action = ArgActionKind::StoreTrue;
    assert!(matches!(determine_field_type(&everything), FieldType::Vec));

    everything.max_values = Some(1);
    assert!(matches!(determine_field_type(&everything), FieldType::Enum(options) if options.len() == 1));

    everything.choices = vec![];
    assert!(matches!(determine_field_type(&everything), FieldType::Bool));

    everything.action = ArgActionKind::Store;
    assert!(matches!(determine_field_type(&everything), FieldType::Bool));

    everything.value_type = DeclaredType::Integer;
    assert!(matches!(determine_field_type(&everything), FieldType::Integer));

    everything.max_values = Some(0);
    assert!(matches!(determine_field_type(&everything), FieldType::Bool));

    everything.max_values = None;
    everything.value_type = DeclaredType::Other;
    assert!(matches!(determine_field_type(&everything), FieldType::String));

    everything.action = ArgActionKind::Other;
    assert!(matches!(determine_field_type(&everything), FieldType::String));
}

#[test]
fn fields_come_from_plain_descriptions_too() {
    let mut name = plain_argument("name");
    name.short = Some('n');
    name.help = "Name".to_string();
    name.defaults = vec![None, Some("later".to_string())];
    name.required = true;
    let mut level = plain_argument("level");
    level.defaults = vec![Some("1".to_string()), Some("2".to_string())];
    let mut input = plain_argument("input");
    input.long = None;
    input.positional = true;
    let args = vec![plain_argument("help"), name, plain_argument("version"), level, input];

    let fields = extract_fields_from_arguments(&args);
    let names: Vec<&str> = fields.iter().map(|f| f.name.as_str()).collect();
    assert_eq!(names, vec!["name", "level", "input"]);
    assert_eq!(fields[0].short, Some('n'));
    assert_eq!(fields[0].help, "Name");
    assert_eq!(fields[0].default_value, None);
    assert!(fields[0].required);
    assert_eq!(fields[1].default_value, Some("1".to_string()));
    assert!(fields[2].is_positional);
    assert_eq!(fields[2].long, None);

    let subcommands = vec![
        SubcommandInfo { name: "help".to_string(), about: "Print help".to_string(), args: vec![] },
        SubcommandInfo { name: "add".to_string(), about: "Add".to_string(), args: args.clone() },
    ];
    let groups = extract_subcommands(&subcommands);
    assert_eq!(groups.len(), 1);
    assert_eq!(groups[0].name, "add");
    assert_eq!(groups[0].help, "Add");
    assert_eq!(groups[0].fields.len(), 3);

    let config = extract_form_model(&CommandInfo { args, subcommands }, "run_bind", "demo", "Demo");
    assert_eq!(config.function_name, "run_bind");
    assert_eq!(config.package_name, "demo");
    assert_eq!(config.page_title, "Demo");
    assert_eq!(config.fields.len(), 3);
    assert_eq!(config.subcommands.len(), 1);
}

#[test]
fn page_for_a_parser() {
    let cmd = test_command().subcommand(Command::new("sub").arg(Arg::new("file").required(true)));
    let page = generate_ui_for_parser(&cmd, "my-pkg", "My Web UI");
    assert!(page.contains("<title>My Web UI</title>"));
    assert!(page.contains("import init, { process_bind as invocable } from './my_pkg.js';"));
    assert!(page.contains("id=\"name\""));
    assert!(page.contains("<option value=\"green\">Green</option>"));
    assert!(page.contains("<textarea id=\"sub-file\" name=\"sub-file\" placeholder=\"file\" required rows=\"5\">"));
    let custom = generate_ui_for_parser_with_function(&cmd, "my-pkg", "My Web UI", "execute_bind");
    assert!(custom.contains("import init, { execute_bind as invocable } from './my_pkg.js';"));
    assert_eq!(custom.replace("execute_bind", "process_bind"), page);
}

#[test]
fn every_integer_type_is_a_number_and_nothing_else_is() {
    let cmd = Command::new("tool")
        .arg(Arg::new("u8").long("u8").value_parser(RangedU64ValueParser::<u8>::new()))
        .arg(Arg::new("u16").long("u16").value_parser(RangedU64ValueParser::<u16>::new()))
        .arg(Arg::new("u32").long("u32").value_parser(RangedU64ValueParser::<u32>::new()))
        .arg(Arg::new("u64").long("u64").value_parser(RangedU64ValueParser::<u64>::new()))
        .arg(Arg::new("u128").long("u128").value_parser(RangedU64ValueParser::<u128>::new()))
        .arg(Arg::new("usize").long("usize").value_parser(RangedU64ValueParser::<usize>::new()))
        .arg(Arg::new("i8").long("i8").value_parser(RangedI64ValueParser::<i8>::new()))
        .arg(Arg::new("i16").long("i16").value_parser(RangedI64ValueParser::<i16>::new()))
        .arg(Arg::new("i32").long("i32").value_parser(RangedI64ValueParser::<i32>::new()))
        .arg(Arg::new("i64").long("i64").value_parser(RangedI64ValueParser::<i64>::new()))
        .arg(Arg::new("i128").long("i128").value_parser(RangedI64ValueParser::<i128>::new()))
        .arg(Arg::new("isize").long("isize").value_parser(RangedI64ValueParser::<isize>::new()))
        .arg(Arg::new("text").long("text").value_parser(ValueParser::string()))
        .arg(Arg::new("raw").long("raw").value_parser(ValueParser::os_string()))
        .arg(Arg::new("unset").long("unset"));
    let fields = extract_field_descriptors_from_command(&cmd);
    assert_eq!(fields.len(), 15);
    for field in &fields[..12] {
        assert!(matches!(field.field_type, FieldType::Integer), "{}", field.name);
    }
    for field in &fields[12..] {
        assert!(matches!(field.field_type, FieldType::String), "{}", field.name);
    }
}
