use code_gen::form::{
    collect_arguments, count_for, is_integer, validate, ControlState, FormState,
};
use code_gen::model::{
    EnumOption, FieldDescriptor, FieldType, SubcommandDescriptor, WasmFunctionConfig,
};

fn field(name: &str, long: &str, field_type: FieldType) -> FieldDescriptor {
    FieldDescriptor {
        name: name.to_string(),
        short: None,
        long: Some(long.to_string()),
        help: String::new(),
        field_type,
        default_value: None,
        required: false,
        is_positional: false,
    }
}

fn positional(name: &str, field_type: FieldType) -> FieldDescriptor {
    FieldDescriptor {
        name: name.to_string(),
        short: None,
        long: None,
        help: String::new(),
        field_type,
        default_value: None,
        required: false,
        is_positional: true,
    }
}

fn form(fields: Vec<FieldDescriptor>, subcommands: Vec<SubcommandDescriptor>) -> WasmFunctionConfig {
    WasmFunctionConfig {
        function_name: "process_bind".to_string(),
        package_name: "example".to_string(),
        page_title: "Example".to_string(),
        fields,
        subcommands,
    }
}

fn value(text: &str) -> ControlState {
    ControlState { value: text.to_string(), checked: false, items: vec![] }
}

fn checked(on: bool) -> ControlState {
    ControlState { value: String::new(), checked: on, items: vec![] }
}

fn items(list: &[&str]) -> ControlState {
    ControlState {
        value: String::new(),
        checked: false,
        items: list.iter().map(|s| s.to_string()).collect(),
    }
}

fn top(controls: Vec<ControlState>) -> FormState {
    FormState { controls, sections: vec![], selected: None }
}

#[test]
fn arguments_follow_the_declaration_order() {
    let mut name = field("name", "name", FieldType::String);
    name.required = true;
    let config = form(
        vec![name, field("verbose", "verbose", FieldType::Bool), field("tag", "tag", FieldType::Vec)],
        vec![],
    );
    let state = top(vec![value("Ada"), checked(true), items(&["x", "y"])]);
    assert_eq!(
        collect_arguments(&config, &state),
        vec!["--name", "Ada", "--verbose", "--tag", "x", "--tag", "y"]
    );
    assert!(validate(&config, &state).is_empty());
}

#[test]
fn empty_required_text_gives_one_error_with_its_label() {
    let mut name = field("name", "name", FieldType::String);
    name.required = true;
    name.help = "Your name".to_string();
    let config = form(vec![name, field("verbose", "verbose", FieldType::Bool)], vec![]);
    let errors = validate(&config, &top(vec![value("   "), checked(false)]));
    assert_eq!(errors, vec!["Field \"Your name\": This field is required"]);
}

#[test]
fn flag_never_fails_validation() {
    let mut required_flag = field("force", "force", FieldType::Bool);
    required_flag.required = true;
    let config = form(vec![required_flag, field("verbose", "verbose", FieldType::Bool)], vec![]);
    assert!(validate(&config, &top(vec![checked(false), checked(false)])).is_empty());
    assert!(validate(&config, &top(vec![checked(true), value("junk")])).is_empty());
    assert!(collect_arguments(&config, &top(vec![checked(false), checked(false)])).is_empty());
}

#[test]
fn counter_repeats_its_flag() {
    let config = form(vec![field("verbosity", "verbose", FieldType::Counter)], vec![]);
    assert_eq!(
        collect_arguments(&config, &top(vec![value("3")])),
        vec!["--verbose", "--verbose", "--verbose"]
    );
    assert_eq!(collect_arguments(&config, &top(vec![value(" +2 ")])), vec!["--verbose", "--verbose"]);
    for nothing in ["0", "", "-3", "abc", "1.5", "2x", "99999999999999999999999"] {
        assert!(collect_arguments(&config, &top(vec![value(nothing)])).is_empty(), "{}", nothing);
    }
}

#[test]
fn counter_uses_the_short_flag_without_a_long_one() {
    let mut counter = field("verbosity", "", FieldType::Counter);
    counter.long = None;
    counter.short = Some('v');
    let config = form(vec![counter], vec![]);
    assert_eq!(collect_arguments(&config, &top(vec![value("2")])), vec!["-v", "-v"]);
}

#[test]
fn count_of_a_value() {
    assert_eq!(count_for("3"), 3);
    assert_eq!(count_for("  12\t"), 12);
    assert_eq!(count_for("+7"), 7);
    assert_eq!(count_for("007"), 7);
    assert_eq!(count_for("-7"), 0);
    assert_eq!(count_for("-0"), 0);
    assert_eq!(count_for(""), 0);
    assert_eq!(count_for("+"), 0);
    assert_eq!(count_for("seven"), 0);
    assert_eq!(count_for("18446744073709551615"), u64::MAX);
    assert_eq!(count_for("18446744073709551616"), 0);
}

#[test]
fn what_counts_as_a_number() {
    for good in ["0", "42", "-42", "+42", "000", "18446744073709551615", "-18446744073709551615"] {
        assert!(is_integer(good), "{}", good);
    }
    for bad in ["", "+", "-", "4 2", " 42", "4.2", "0x10", "1e3", "--1", "18446744073709551616", "\u{664}"] {
        assert!(!is_integer(bad), "{}", bad);
    }
}

#[test]
fn wrong_number_is_reported() {
    let mut port = field("port", "port", FieldType::Integer);
    port.required = true;
    let config = form(vec![port, field("level", "level", FieldType::Counter)], vec![]);
    assert_eq!(
        validate(&config, &top(vec![value("80a"), value("many")])),
        vec!["Field \"port\": Invalid number value", "Field \"level\": Invalid number value"]
    );
    assert_eq!(
        validate(&config, &top(vec![value(""), value("")])),
        vec!["Field \"port\": This field is required"]
    );
    assert!(validate(&config, &top(vec![value(" -12 "), value("3")])).is_empty());
}

#[test]
fn required_multi_needs_a_value() {
    let mut tags = field("tags", "tag", FieldType::Vec);
    tags.required = true;
    let config = form(vec![tags], vec![]);
    let mut typed_only = items(&[]);
    typed_only.value = "pending".to_string();
    assert_eq!(
        validate(&config, &top(vec![typed_only])),
        vec!["Field \"tag\": At least one value is required"]
    );
    assert!(validate(&config, &top(vec![items(&["a"])])).is_empty());
}

#[test]
fn required_choice_needs_a_selection() {
    let mut color = field(
        "color",
        "color",
        FieldType::Enum(vec![EnumOption { value: "red".to_string(), help: String::new() }]),
    );
    color.required = true;
    let config = form(vec![color], vec![]);
    assert_eq!(
        validate(&config, &top(vec![value("")])),
        vec!["Field \"color\": This field is required"]
    );
    assert!(validate(&config, &top(vec![value("red")])).is_empty());
    assert_eq!(collect_arguments(&config, &top(vec![value("red")])), vec!["--color", "red"]);
}

#[test]
fn label_in_messages_prefers_help_then_flag_then_name() {
    let mut with_help = field("a", "alpha", FieldType::String);
    with_help.help = "First".to_string();
    with_help.required = true;
    let mut with_long = field("b", "beta", FieldType::String);
    with_long.required = true;
    let mut bare = positional("c", FieldType::String);
    bare.required = true;
    let mut short_only = field("d", "", FieldType::String);
    short_only.long = None;
    short_only.short = Some('d');
    short_only.required = true;
    let config = form(vec![with_help, with_long, bare, short_only], vec![]);
    assert_eq!(
        validate(&config, &top(vec![])),
        vec![
            "Field \"First\": This field is required",
            "Field \"beta\": This field is required",
            "Field \"c\": This field is required",
            "Field \"d\": This field is required",
        ]
    );
}

#[test]
fn values_are_trimmed_and_empty_ones_left_out() {
    let config = form(
        vec![
            field("name", "name", FieldType::String),
            field("port", "port", FieldType::Integer),
            field("note", "note", FieldType::String),
        ],
        vec![],
    );
    assert_eq!(
        collect_arguments(&config, &top(vec![value("  Ada Lovelace \n"), value(" 80"), value(" \t ")])),
        vec!["--name", "Ada Lovelace", "--port", "80"]
    );
}

#[test]
fn positional_fields_give_bare_values() {
    let config = form(
        vec![
            positional("input", FieldType::String),
            positional("files", FieldType::Vec),
            positional("switch", FieldType::Bool),
            positional("level", FieldType::Counter),
        ],
        vec![],
    );
    let state = top(vec![value("in.txt"), items(&["a", "b"]), checked(true), value("2")]);
    assert_eq!(collect_arguments(&config, &state), vec!["in.txt", "a", "b"]);
}

#[test]
fn short_flag_is_used_without_a_long_one() {
    let mut quiet = field("quiet", "", FieldType::Bool);
    quiet.long = None;
    quiet.short = Some('q');
    let mut both = field("name", "name", FieldType::String);
    both.short = Some('n');
    let config = form(vec![quiet, both], vec![]);
    assert_eq!(
        collect_arguments(&config, &top(vec![checked(true), value("x")])),
        vec!["-q", "--name", "x"]
    );
}

#[test]
fn chosen_subcommand_follows_the_top_level() {
    let mut arg = positional("arg1", FieldType::String);
    arg.required = true;
    let config = form(
        vec![field("verbose", "verbose", FieldType::Bool)],
        vec![
            SubcommandDescriptor {
                name: "sub1".to_string(),
                help: String::new(),
                fields: vec![arg, field("flag1", "flag1", FieldType::Bool)],
            },
            SubcommandDescriptor {
                name: "sub2".to_string(),
                help: String::new(),
                fields: vec![field("num", "num", FieldType::Integer)],
            },
        ],
    );
    let mut state = FormState {
        controls: vec![checked(true)],
        sections: vec![vec![value("hello"), checked(true)], vec![value("x1")]],
        selected: None,
    };
    assert_eq!(collect_arguments(&config, &state), vec!["--verbose"]);
    assert!(validate(&config, &state).is_empty());

    state.selected = Some(0);
    assert_eq!(
        collect_arguments(&config, &state),
        vec!["--verbose", "sub1", "hello", "--flag1"]
    );
    assert!(validate(&config, &state).is_empty());

    state.selected = Some(1);
    assert_eq!(collect_arguments(&config, &state), vec!["--verbose", "sub2", "--num", "x1"]);
    assert_eq!(validate(&config, &state), vec!["Field \"num\": Invalid number value"]);

    state.selected = Some(2);
    assert_eq!(collect_arguments(&config, &state), vec!["--verbose"]);
    assert!(validate(&config, &state).is_empty());
}

#[test]
fn missing_controls_count_as_unset() {
    let mut name = field("name", "name", FieldType::String);
    name.required = true;
    let config = form(
        vec![field("verbose", "verbose", FieldType::Bool), name],
        vec![SubcommandDescriptor {
            name: "add".to_string(),
            help: String::new(),
            fields: vec![field("n", "n", FieldType::Counter)],
        }],
    );
    let state = FormState { controls: vec![checked(true)], sections: vec![], selected: Some(0) };
    assert_eq!(collect_arguments(&config, &state), vec!["--verbose", "add"]);
    assert_eq!(validate(&config, &state), vec!["Field \"name\": This field is required"]);
}
