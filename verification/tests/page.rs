use code_gen::model::{
    EnumOption, FieldDescriptor, FieldType, SubcommandDescriptor, WasmFunctionConfig,
};
use code_gen::page::generate_wasm_function_page;
use code_gen::render::{
    generate_form_fields, generate_form_fields_with_prefix, generate_subcommand_sections,
};
use code_gen::script::{generate_script, generate_styles};

fn field(name: &str, field_type: FieldType) -> FieldDescriptor {
    FieldDescriptor {
        name: name.to_string(),
        short: None,
        long: Some(name.to_string()),
        help: String::new(),
        field_type,
        default_value: None,
        required: false,
        is_positional: false,
    }
}

fn config(fields: Vec<FieldDescriptor>, subcommands: Vec<SubcommandDescriptor>) -> WasmFunctionConfig {
    WasmFunctionConfig {
        function_name: "process_bind".to_string(),
        package_name: "example".to_string(),
        page_title: "Example".to_string(),
        fields,
        subcommands,
    }
}

fn count(haystack: &str, needle: &str) -> usize {
    haystack.matches(needle).count()
}

#[test]
fn test_generate_basic_page() {
    let config = WasmFunctionConfig {
        function_name: "test_func".to_string(),
        package_name: "test_pkg".to_string(),
        page_title: "Test Page".to_string(),
        fields: vec![FieldDescriptor {
            name: "test_field".to_string(),
            short: Some('t'),
            long: Some("test".to_string()),
            help: "Test field".to_string(),
            field_type: FieldType::String,
            default_value: None,
            required: false,
            is_positional: false,
        }],
        subcommands: vec![],
    };

    let html = generate_wasm_function_page(&config);

    assert!(html.contains("Test Page"));
    assert!(html.contains("test_func"));
    assert!(html.contains("./test_pkg.js"));
    assert!(html.contains("test_field"));
}

#[test]
fn test_generate_page_with_fields() {
    let config = WasmFunctionConfig {
        function_name: "process".to_string(),
        package_name: "example".to_string(),
        page_title: "Example".to_string(),
        fields: vec![
            FieldDescriptor {
                name: "name".to_string(),
                short: Some('n'),
                long: Some("name".to_string()),
                help: "Name field".to_string(),
                field_type: FieldType::String,
                default_value: Some("default".to_string()),
                required: true,
                is_positional: false,
            },
            FieldDescriptor {
                name: "enabled".to_string(),
                short: Some('e'),
                long: Some("enabled".to_string()),
                help: "Enable feature".to_string(),
                field_type: FieldType::Bool,
                default_value: None,
                required: false,
                is_positional: false,
            },
        ],
        subcommands: vec![],
    };

    let html = generate_wasm_function_page(&config);

    assert!(html.contains("name"));
    assert!(html.contains("enabled"));
    assert!(html.contains("Name field"));
    assert!(html.contains("Enable feature"));
}

#[test]
fn test_enum_field_generation() {
    let config = WasmFunctionConfig {
        function_name: "test".to_string(),
        package_name: "test".to_string(),
        page_title: "Test".to_string(),
        fields: vec![FieldDescriptor {
            name: "color".to_string(),
            short: Some('c'),
            long: Some("color".to_string()),
            help: "Select color".to_string(),
            field_type: FieldType::Enum(vec![
                EnumOption { value: "red".to_string(), help: "Red color".to_string() },
                EnumOption { value: "green".to_string(), help: "Green color".to_string() },
                EnumOption { value: "blue".to_string(), help: "Blue color".to_string() },
            ]),
            default_value: Some("red".to_string()),
            required: false,
            is_positional: false,
        }],
        subcommands: vec![],
    };

    let html = generate_wasm_function_page(&config);

    assert!(html.contains("color"));
    assert!(html.contains("red"));
    assert!(html.contains("Red color (red)"));
    assert!(html.contains("Green color (green)"));
    assert!(html.contains("Blue color (blue)"));
    assert!(html.contains("<select"));
}

#[test]
fn text_field_with_flag_is_a_text_input() {
    let fields = vec![FieldDescriptor {
        name: "name".to_string(),
        short: Some('n'),
        long: Some("name".to_string()),
        help: "Name field".to_string(),
        field_type: FieldType::String,
        default_value: Some("default".to_string()),
        required: true,
        is_positional: false,
    }];
    assert_eq!(
        generate_form_fields(&fields),
        "<div class=\"field-group\" data-field-name=\"name\" data-is-positional=\"false\">\
         <label for=\"name\">Name field *</label>\
         <span class=\"help-text\"> (-n, --name)</span>\
         <input type=\"text\" id=\"name\" name=\"name\" value=\"default\" \
         placeholder=\"Name field\" required></div>"
    );
}

#[test]
fn positional_text_field_is_a_text_area() {
    let fields = vec![FieldDescriptor {
        name: "input".to_string(),
        short: None,
        long: None,
        help: String::new(),
        field_type: FieldType::String,
        default_value: Some("a<b".to_string()),
        required: false,
        is_positional: true,
    }];
    assert_eq!(
        generate_form_fields(&fields),
        "<div class=\"field-group\" data-field-name=\"input\" data-is-positional=\"true\">\
         <label for=\"input\">input</label>\
         <textarea id=\"input\" name=\"input\" placeholder=\"input\" rows=\"5\">a&lt;b</textarea>\
         </div>"
    );
}

#[test]
fn flag_is_an_unchecked_checkbox() {
    let mut flag = field("verbose", FieldType::Bool);
    flag.short = Some('v');
    flag.default_value = Some("true".to_string());
    assert_eq!(
        generate_form_fields(&vec![flag]),
        "<div class=\"field-group checkbox-group\" data-field-name=\"verbose\" \
         data-is-positional=\"false\"><label for=\"verbose\">\
         <input type=\"checkbox\" id=\"verbose\" name=\"verbose\">verbose</label>\
         <span class=\"help-text\"> (-v, --verbose)</span></div>"
    );
}

#[test]
fn number_starts_at_default_or_zero() {
    let mut with_default = field("port", FieldType::Integer);
    with_default.default_value = Some("8080".to_string());
    let html = generate_form_fields(&vec![with_default, field("retries", FieldType::Integer)]);
    assert!(html.contains("<input type=\"number\" id=\"port\" name=\"port\" value=\"8080\">"));
    assert!(html.contains("<input type=\"number\" id=\"retries\" name=\"retries\" value=\"0\">"));
}

#[test]
fn counter_notes_the_repetition_and_has_a_minimum() {
    let mut counter = field("verbosity", FieldType::Counter);
    counter.long = Some("verbose".to_string());
    assert_eq!(
        generate_form_fields(&vec![counter]),
        "<div class=\"field-group\" data-field-name=\"verbosity\" data-is-positional=\"false\">\
         <label for=\"verbosity\">verbose</label>\
         <span class=\"help-text\"> (--verbose) (flag will be repeated N times)</span>\
         <input type=\"number\" id=\"verbosity\" name=\"verbosity\" value=\"0\" min=\"0\"></div>"
    );
}

#[test]
fn optional_choice_without_default_starts_on_the_empty_entry() {
    let choice = FieldDescriptor {
        name: "color".to_string(),
        short: None,
        long: Some("color".to_string()),
        help: String::new(),
        field_type: FieldType::Enum(vec![
            EnumOption { value: "red".to_string(), help: String::new() },
            EnumOption { value: "blue".to_string(), help: String::new() },
        ]),
        default_value: None,
        required: false,
        is_positional: false,
    };
    let html = generate_form_fields(&vec![choice]);
    assert!(html.contains(
        "<select id=\"color\" name=\"color\">\
         <option value=\"\" selected>-- Select an option --</option>\
         <option value=\"red\">Red</option>\
         <option value=\"blue\">Blue</option></select>"
    ));
    assert_eq!(count(&html, " selected"), 1);
}

#[test]
fn choice_selects_its_default_and_offers_no_empty_entry() {
    let choice = FieldDescriptor {
        name: "mode".to_string(),
        short: None,
        long: Some("mode".to_string()),
        help: "Mode".to_string(),
        field_type: FieldType::Enum(vec![
            EnumOption { value: "option-a".to_string(), help: String::new() },
            EnumOption { value: "option_b".to_string(), help: "Second".to_string() },
        ]),
        default_value: Some("option_b".to_string()),
        required: false,
        is_positional: false,
    };
    let html = generate_form_fields(&vec![choice]);
    assert!(html.contains(
        "<select id=\"mode\" name=\"mode\">\
         <option value=\"option-a\">Option a</option>\
         <option value=\"option_b\" selected>Second (option_b)</option></select>"
    ));
    assert!(!html.contains("-- Select an option --"));
}

#[test]
fn required_choice_offers_no_empty_entry() {
    let mut choice = field(
        "level",
        FieldType::Enum(vec![EnumOption { value: "low".to_string(), help: String::new() }]),
    );
    choice.required = true;
    let html = generate_form_fields(&vec![choice]);
    assert!(html.contains("<select id=\"level\" name=\"level\" required><option value=\"low\">Low</option></select>"));
    assert!(html.contains("<label for=\"level\">level *</label>"));
}

#[test]
fn option_label_is_capitalised_beyond_ascii() {
    let choice = field(
        "word",
        FieldType::Enum(vec![
            EnumOption { value: "\u{e9}t\u{e9}-long".to_string(), help: String::new() },
            EnumOption { value: "\u{df}x".to_string(), help: String::new() },
        ]),
    );
    let html = generate_form_fields(&vec![choice]);
    assert!(html.contains(">\u{c9}t\u{e9} long</option>"));
    assert!(html.contains(">SSx</option>"));
}

#[test]
fn multi_field_has_an_entry_and_an_empty_list() {
    let mut multi = field("tags", FieldType::Vec);
    multi.required = true;
    assert_eq!(
        generate_form_fields_with_prefix(&vec![multi], Some("add")),
        "<div class=\"field-group vec-group\" data-field-name=\"tags\" \
         data-is-positional=\"false\" data-vec-required=\"true\">\
         <label for=\"add-tags\">tags *</label>\
         <span class=\"help-text\"> (--tags)</span>\
         <div class=\"vec-container\" id=\"add-tags-container\">\
         <input class=\"vec-input\" type=\"text\" placeholder=\"Enter value and press Enter\" \
         data-field-name=\"add-tags\"><div class=\"vec-items\" id=\"add-tags-items\"></div>\
         </div></div>"
    );
}

#[test]
fn fields_render_in_declaration_order() {
    let html = generate_form_fields(&vec![
        field("first", FieldType::String),
        field("second", FieldType::Bool),
        field("third", FieldType::Integer),
    ]);
    let first = html.find("id=\"first\"").unwrap();
    let second = html.find("id=\"second\"").unwrap();
    let third = html.find("id=\"third\"").unwrap();
    assert!(first < second && second < third);
    assert_eq!(generate_form_fields(&vec![]), "");
}

#[test]
fn markup_escapes_what_it_shows() {
    let mut risky = field("q", FieldType::String);
    risky.help = "a & b <c> \"d\" 'e'".to_string();
    risky.default_value = Some("\"x\"".to_string());
    let html = generate_form_fields(&vec![risky]);
    assert!(html.contains("<label for=\"q\">a &amp; b &lt;c&gt; &quot;d&quot; 'e'</label>"));
    assert!(html.contains("value=\"&quot;x&quot;\""));
    assert!(!html.contains("<c>"));
}

#[test]
fn no_subcommands_no_section() {
    assert_eq!(generate_subcommand_sections(&vec![]), "");
}

#[test]
fn subcommands_get_a_selector_and_hidden_sections() {
    let subcommands = vec![
        SubcommandDescriptor {
            name: "add".to_string(),
            help: "Add an entry".to_string(),
            fields: vec![field("name", FieldType::String)],
        },
        SubcommandDescriptor { name: "list".to_string(), help: String::new(), fields: vec![] },
    ];
    assert_eq!(
        generate_subcommand_sections(&subcommands),
        "<div class=\"form-section subcommand-section\"><h2>Subcommands</h2>\
         <div class=\"field-group\"><label for=\"subcommand-selector\">Select Subcommand</label>\
         <select id=\"subcommand-selector\" name=\"subcommand\">\
         <option value=\"\" selected>-- Select a subcommand --</option>\
         <option value=\"add\">Add an entry (add)</option>\
         <option value=\"list\">list</option></select></div>\
         <div class=\"subcommand-fields\" id=\"subcommand-add\" data-subcommand=\"add\" \
         style=\"display: none;\"><h3>Add an entry (add)</h3>\
         <div class=\"field-group\" data-field-name=\"name\" data-is-positional=\"false\">\
         <label for=\"add-name\">name</label><span class=\"help-text\"> (--name)</span>\
         <input type=\"text\" id=\"add-name\" name=\"add-name\" value=\"\" placeholder=\"name\">\
         </div></div>\
         <div class=\"subcommand-fields\" id=\"subcommand-list\" data-subcommand=\"list\" \
         style=\"display: none;\"><h3>Options for 'list'</h3></div></div>"
    );
}

#[test]
fn page_has_its_parts_in_order() {
    let html = generate_wasm_function_page(&config(
        vec![field("name", FieldType::String)],
        vec![SubcommandDescriptor { name: "add".to_string(), help: String::new(), fields: vec![] }],
    ));
    assert!(html.starts_with(
        "<!DOCTYPE html><html><head><meta charset=\"UTF-8\"><title>Example</title><style>"
    ));
    assert!(html.ends_with("initModule();\n</script></body></html>"));
    let style = html.find("<style>").unwrap();
    let body = html.find("<body>").unwrap();
    let form = html.find("<form id=\"cliForm\">").unwrap();
    let control = html.find("id=\"name\"").unwrap();
    let selector = html.find("id=\"subcommand-selector\"").unwrap();
    let buttons = html.find("<button id=\"runButton\" type=\"button\">Run</button>").unwrap();
    let reset = html
        .find("<button class=\"clear-btn\" id=\"clearButton\" type=\"button\">Reset</button>")
        .unwrap();
    let output = html
        .find("<pre id=\"output\">No output yet. Fill in the form and click &quot;Run&quot;.</pre>")
        .unwrap();
    let script = html.find("<script>").unwrap();
    let module = html.find("<script type=\"module\">").unwrap();
    assert!(style < body && body < form && form < control && control < selector);
    assert!(selector < buttons && buttons < reset && reset < output && output < script);
    assert!(script < module);
    assert!(html.contains("<h1>Example</h1><div id=\"status\"></div><form id=\"cliForm\">"));
    assert_eq!(count(&html, "<script"), 2);
}

#[test]
fn page_title_is_escaped() {
    let mut with_title = config(vec![], vec![]);
    with_title.page_title = "Tom & \"Jerry\" <live>".to_string();
    let html = generate_wasm_function_page(&with_title);
    assert!(html.contains("<title>Tom &amp; &quot;Jerry&quot; &lt;live&gt;</title>"));
    assert!(html.contains("<h1>Tom &amp; &quot;Jerry&quot; &lt;live&gt;</h1>"));
}

#[test]
fn generating_twice_gives_the_same_page() {
    let make = || {
        config(
            vec![
                field("name", FieldType::String),
                field(
                    "color",
                    FieldType::Enum(vec![EnumOption {
                        value: "red".to_string(),
                        help: "Red".to_string(),
                    }]),
                ),
            ],
            vec![SubcommandDescriptor {
                name: "add".to_string(),
                help: "Add".to_string(),
                fields: vec![field("tags", FieldType::Vec)],
            }],
        )
    };
    let once = make();
    assert_eq!(generate_wasm_function_page(&once), generate_wasm_function_page(&once));
    assert_eq!(generate_wasm_function_page(&once), generate_wasm_function_page(&make()));
}

#[test]
fn script_imports_the_function_from_the_module() {
    let html = generate_script("run_bind", "word-count-cli", "[]", "[]");
    assert!(html.starts_with(
        "<script>window.CLI_CONFIG = { fields: [], subcommands: [] };</script>\
         <script type=\"module\">import init, { run_bind as invocable } from \
         './word_count_cli.js';\nconst config = window.CLI_CONFIG;\n"
    ));
    assert!(html.ends_with("initModule();\n</script>"));
    for operation in [
        "function validate()",
        "function collectArguments()",
        "async function run()",
        "function reset()",
        "async function initModule()",
    ] {
        assert!(html.contains(operation), "{}", operation);
    }
}

#[test]
fn styles_are_one_style_element() {
    let html = generate_styles();
    assert!(html.starts_with("<style>"));
    assert!(html.ends_with("</style>"));
    assert!(html.contains(".field-group"));
    assert_eq!(count(&html, "<style>"), 1);
}

fn text(value: &str) -> serde_json::Value {
    serde_json::Value::String(value.to_string())
}

fn object(entries: Vec<(&str, serde_json::Value)>) -> serde_json::Value {
    let mut map = serde_json::Map::new();
    for (key, value) in entries {
        map.insert(key.to_string(), value);
    }
    serde_json::Value::Object(map)
}

#[test]
fn script_is_given_the_field_model_as_json() {
    let tricky = "say \"hi\"\n\\ \u{1} \u{e9} </b>";
    let fields = vec![
        FieldDescriptor {
            name: "color".to_string(),
            short: Some('c'),
            long: Some("color".to_string()),
            help: tricky.to_string(),
            field_type: FieldType::Enum(vec![
                EnumOption { value: "red".to_string(), help: "Red \"r\"".to_string() },
                EnumOption { value: "blue".to_string(), help: String::new() },
            ]),
            default_value: Some("red".to_string()),
            required: true,
            is_positional: false,
        },
        FieldDescriptor {
            name: "input".to_string(),
            short: None,
            long: None,
            help: String::new(),
            field_type: FieldType::String,
            default_value: None,
            required: false,
            is_positional: true,
        },
    ];
    let subcommands = vec![SubcommandDescriptor {
        name: "add".to_string(),
        help: "Add".to_string(),
        fields: vec![field("n", FieldType::Counter), field("v", FieldType::Vec)],
    }];
    let html = generate_wasm_function_page(&config(fields, subcommands));
    let start = html.find("window.CLI_CONFIG = { fields: ").unwrap()
        + "window.CLI_CONFIG = { fields: ".len();
    let middle = html.find(", subcommands: ").unwrap();
    let end = html.find(" };</script>").unwrap();
    let fields_json: serde_json::Value = serde_json::from_str(&html[start..middle]).unwrap();
    let subcommands_json: serde_json::Value =
        serde_json::from_str(&html[middle + ", subcommands: ".len()..end]).unwrap();

    let plain = |name: &str, kind: &str| {
        object(vec![
            ("name", text(name)),
            ("short", serde_json::Value::Null),
            ("long", text(name)),
            ("help", text("")),
            ("field_type", object(vec![("type", text(kind))])),
            ("default_value", serde_json::Value::Null),
            ("required", serde_json::Value::Bool(false)),
            ("is_positional", serde_json::Value::Bool(false)),
        ])
    };
    let expected_fields = serde_json::Value::Array(vec![
        object(vec![
            ("name", text("color")),
            ("short", text("c")),
            ("long", text("color")),
            ("help", text(tricky)),
            (
                "field_type",
                object(vec![
                    ("type", text("Enum")),
                    (
                        "options",
                        serde_json::Value::Array(vec![
                            object(vec![("value", text("red")), ("help", text("Red \"r\""))]),
                            object(vec![("value", text("blue")), ("help", text(""))]),
                        ]),
                    ),
                ]),
            ),
            ("default_value", text("red")),
            ("required", serde_json::Value::Bool(true)),
            ("is_positional", serde_json::Value::Bool(false)),
        ]),
        object(vec![
            ("name", text("input")),
            ("short", serde_json::Value::Null),
            ("long", serde_json::Value::Null),
            ("help", text("")),
            ("field_type", object(vec![("type", text("String"))])),
            ("default_value", serde_json::Value::Null),
            ("required", serde_json::Value::Bool(false)),
            ("is_positional", serde_json::Value::Bool(true)),
        ]),
    ]);
    assert_eq!(fields_json, expected_fields);
    let expected_subcommands = serde_json::Value::Array(vec![object(vec![
        ("name", text("add")),
        ("help", text("Add")),
        ("fields", serde_json::Value::Array(vec![plain("n", "Counter"), plain("v", "Vec")])),
    ])]);
    assert_eq!(subcommands_json, expected_subcommands);
}

#[test]
fn json_keeps_the_order_of_the_properties() {
    let html = generate_wasm_function_page(&config(vec![field("a", FieldType::Bool)], vec![]));
    assert!(html.contains(
        "window.CLI_CONFIG = { fields: [{\"name\":\"a\",\"short\":null,\"long\":\"a\",\
         \"help\":\"\",\"field_type\":{\"type\":\"Bool\"},\"default_value\":null,\
         \"required\":false,\"is_positional\":false}], subcommands: [] };"
    ));
}
