use code_gen::model::{
    field_set_is_well_formed, find_option, EnumOption, FieldDescriptor, FieldType,
    SubcommandDescriptor, WasmFunctionConfig,
};

fn field(name: &str, field_type: FieldType) -> FieldDescriptor {
    FieldDescriptor {
        name: name.to_string(),
        short: None,
        long: Some(name.to_string()),
        help: String::new(),
        field_type,
        default_value: None,
        required: false,
        is_positional: false,
    }
}

fn options(values: &[&str]) -> Vec<EnumOption> {
    values.iter().map(|v| EnumOption { value: v.to_string(), help: String::new() }).collect()
}

fn form(fields: Vec<FieldDescriptor>, subcommands: Vec<SubcommandDescriptor>) -> WasmFunctionConfig {
    WasmFunctionConfig {
        function_name: "process_bind".to_string(),
        package_name: "example".to_string(),
        page_title: "Example".to_string(),
        fields,
        subcommands,
    }
}

#[test]
fn option_is_found_by_its_value() {
    let list = options(&["red", "blue"]);
    assert!(find_option(&list, "red"));
    assert!(find_option(&list, "blue"));
    assert!(!find_option(&list, "Red"));
    assert!(!find_option(&list, ""));
    assert!(!find_option(&vec![], "red"));
}

#[test]
fn positional_field_must_not_have_a_flag() {
    let mut positional = field("input", FieldType::String);
    positional.is_positional = true;
    assert!(!positional.is_well_formed());
    positional.long = None;
    assert!(positional.is_well_formed());
    positional.short = Some('i');
    assert!(!positional.is_well_formed());
    positional.is_positional = false;
    assert!(positional.is_well_formed());
}

#[test]
fn default_of_a_choice_must_be_an_option() {
    let mut choice = field("color", FieldType::Enum(options(&["red", "blue"])));
    assert!(choice.is_well_formed());
    choice.default_value = Some("blue".to_string());
    assert!(choice.is_well_formed());
    choice.default_value = Some("green".to_string());
    assert!(!choice.is_well_formed());
    let mut text = field("note", FieldType::String);
    text.default_value = Some("anything".to_string());
    assert!(text.is_well_formed());
}

#[test]
fn names_must_be_distinct_within_a_field_set() {
    assert!(field_set_is_well_formed(&vec![]));
    assert!(field_set_is_well_formed(&vec![
        field("a", FieldType::String),
        field("b", FieldType::Bool),
    ]));
    assert!(!field_set_is_well_formed(&vec![
        field("a", FieldType::String),
        field("b", FieldType::Bool),
        field("a", FieldType::Integer),
    ]));
}

#[test]
fn form_is_well_formed_set_by_set() {
    let group = |name: &str, fields: Vec<FieldDescriptor>| SubcommandDescriptor {
        name: name.to_string(),
        help: String::new(),
        fields,
    };
    let same_name_in_two_sets = form(
        vec![field("name", FieldType::String)],
        vec![
            group("add", vec![field("name", FieldType::String)]),
            group("remove", vec![field("name", FieldType::String)]),
        ],
    );
    assert!(same_name_in_two_sets.is_well_formed());

    let twin_subcommands = form(vec![], vec![group("add", vec![]), group("add", vec![])]);
    assert!(!twin_subcommands.is_well_formed());

    let twin_fields_in_a_subcommand = form(
        vec![],
        vec![group("add", vec![field("x", FieldType::Bool), field("x", FieldType::Bool)])],
    );
    assert!(!twin_fields_in_a_subcommand.is_well_formed());

    let mut stray = field("color", FieldType::Enum(options(&["red"])));
    stray.default_value = Some("blue".to_string());
    assert!(!form(vec![stray.clone()], vec![]).is_well_formed());
    assert!(!form(vec![], vec![group("add", vec![stray])]).is_well_formed());
    assert!(form(vec![], vec![]).is_well_formed());
}
