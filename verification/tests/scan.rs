use code_gen::scan::{
    calculate_module_path, extract_quoted_string, find_code_gen_dependency,
    find_html_name_conflict, generate_ui_generator_code, html_name_from_arguments,
    is_in_binary_target, package_name_from_manifest, path_dependency, resolve_path_dependency,
    temp_manifest, BoundFunction,
};

fn bound(name: &str, module: &str, html_name: &str) -> BoundFunction {
    BoundFunction {
        name: name.to_string(),
        module: module.to_string(),
        html_name: html_name.to_string(),
    }
}

#[test]
fn module_path_of_source_files() {
    assert_eq!(calculate_module_path("main.rs", '/'), "__BINARY_TARGET__");
    assert_eq!(calculate_module_path("lib.rs", '/'), "");
    assert_eq!(calculate_module_path("commands.rs", '/'), "commands");
    assert_eq!(calculate_module_path("commands/run.rs", '/'), "commands::run");
    assert_eq!(calculate_module_path("commands/mod.rs", '/'), "commands");
    assert_eq!(calculate_module_path("a/b/mod.rs", '/'), "a::b");
    assert_eq!(calculate_module_path("a\\b\\c.rs", '\\'), "a::b::c");
    assert_eq!(calculate_module_path("a\\b.rs", '/'), "a\\b");
    assert_eq!(calculate_module_path("bin/main.rs", '/'), "bin::main");
    assert_eq!(calculate_module_path("mod.rs", '/'), "mod");
    assert_eq!(calculate_module_path("x.rs.rs", '/'), "x");
    assert_eq!(calculate_module_path("a/mod/mod.rs", '/'), "a");
    assert_eq!(calculate_module_path("notes.txt", '/'), "notes.txt");
    assert_eq!(calculate_module_path("", '/'), "");
}

#[test]
fn quoted_string_at_the_start() {
    assert_eq!(extract_quoted_string("\"page.html\""), Some("page.html".to_string()));
    assert_eq!(extract_quoted_string("  \"a b\" , more"), Some("a b".to_string()));
    assert_eq!(extract_quoted_string("\"\""), Some(String::new()));
    assert_eq!(extract_quoted_string("\"one\"\"two\""), Some("one".to_string()));
    assert_eq!(extract_quoted_string("\"\u{e9}t\u{e9}\" x"), Some("\u{e9}t\u{e9}".to_string()));
    assert_eq!(extract_quoted_string("\"open"), None);
    assert_eq!(extract_quoted_string("\""), None);
    assert_eq!(extract_quoted_string("x \"late\""), None);
    assert_eq!(extract_quoted_string("'single'"), None);
    assert_eq!(extract_quoted_string("   "), None);
    assert_eq!(extract_quoted_string(""), None);
}

#[test]
fn html_name_of_the_attribute() {
    assert_eq!(html_name_from_arguments("html_name = \"custom.html\""), "custom.html");
    assert_eq!(html_name_from_arguments("title = \"x\", html_name=\"a.html\", y"), "a.html");
    assert_eq!(html_name_from_arguments("html_name = custom"), "index.html");
    assert_eq!(html_name_from_arguments("html_name"), "index.html");
    assert_eq!(html_name_from_arguments("name = \"a.html\""), "index.html");
    assert_eq!(html_name_from_arguments(""), "index.html");
    assert_eq!(html_name_from_arguments("html_name = \"\""), "");
}

#[test]
fn generator_program_for_no_function() {
    assert_eq!(
        generate_ui_generator_code("demo", &vec![]),
        "use std::fs;\n\nfn main() {\n    println!(\"Generating Web UIs...\\n\");\n\n    \
         // Create pkg directory if it doesn't exist\n    fs::create_dir_all(\"pkg\")\n        \
         .expect(\"Failed to create pkg directory\");\n\n}\n"
    );
}

#[test]
fn generator_program_calls_each_page_generator() {
    let code = generate_ui_generator_code(
        "word-count",
        &vec![bound("process", "", "index.html"), bound("run", "commands::run", "run.html")],
    );
    let steps = "    // Generate UI for process\n    \
                 let html = word_count::generate_process_ui(\"word-count\", \"\");\n    \
                 fs::write(\"pkg/index.html\", html)\n        \
                 .expect(\"Failed to write HTML file\");\n    \
                 println!(\"  Generated: pkg/index.html\");\n\n    \
                 // Generate UI for run\n    \
                 let html = word_count::commands::run::generate_run_ui(\"word-count\", \"\");\n    \
                 fs::write(\"pkg/run.html\", html)\n        \
                 .expect(\"Failed to write HTML file\");\n    \
                 println!(\"  Generated: pkg/run.html\");\n\n}\n";
    assert!(code.ends_with(steps), "{}", code);
    assert!(code.starts_with("use std::fs;\n\nfn main() {\n"));
    assert_eq!(code.len(), generate_ui_generator_code("demo", &vec![]).len() - 2 + steps.len());
}

#[test]
fn path_named_by_a_dependency() {
    assert_eq!(
        resolve_path_dependency("{ path = \"../clap-web-gen/code_gen\" }"),
        Some("../clap-web-gen/code_gen".to_string())
    );
    assert_eq!(
        resolve_path_dependency("{ version = \"1\", path = \"../x\", features = [\"a\"] }"),
        Some("../x".to_string())
    );
    assert_eq!(resolve_path_dependency("{path='lib', optional = true}"), Some("lib".to_string()));
    assert_eq!(resolve_path_dependency("path = local }"), Some("local".to_string()));
    assert_eq!(resolve_path_dependency("{ path = \"\" }"), Some(String::new()));
    assert_eq!(resolve_path_dependency("{ path }"), None);
    assert_eq!(resolve_path_dependency("\"0.1\""), None);
    assert_eq!(resolve_path_dependency(""), None);
}

#[test]
fn dependency_with_a_path() {
    assert_eq!(path_dependency("/home/me/code_gen"), "{ path = \"/home/me/code_gen\" }");
}

#[test]
fn package_name_of_a_manifest() {
    assert_eq!(
        package_name_from_manifest("[package]\nname = \"example\"\nversion = \"0.1.0\"\n"),
        "example"
    );
    assert_eq!(package_name_from_manifest("  name='quoted-single'  \r\nname = \"b\""), "quoted-single");
    assert_eq!(package_name_from_manifest("names\nname = plain"), "plain");
    assert_eq!(package_name_from_manifest("namespace = \"x\""), "x");
    assert_eq!(package_name_from_manifest("[package]\nversion = \"1\""), "unknown");
    assert_eq!(package_name_from_manifest("title = \"name\""), "unknown");
    assert_eq!(package_name_from_manifest(""), "unknown");
    assert_eq!(package_name_from_manifest("name ="), "");
}

#[test]
fn dependency_on_the_library_in_a_manifest() {
    let manifest = "[package]\nname = \"demo\"\ncode_gen = \"0\"\n\n[dependencies]\nclap = \"4\"\n\
                    code_gen = { path = \"../code_gen\" }\n\n[features]\ncode_gen = []\n";
    assert_eq!(
        find_code_gen_dependency(manifest),
        Some("{ path = \"../code_gen\" }".to_string())
    );
    assert_eq!(
        find_code_gen_dependency("[dev-dependencies]\n  code_gen_macro=\"1.2\"  \n"),
        Some("\"1.2\"".to_string())
    );
    assert_eq!(find_code_gen_dependency("[dependencies]\n[other]\ncode_gen = \"1\"\n"), None);
    assert_eq!(find_code_gen_dependency("code_gen = \"1\"\n[dependencies]\n"), None);
    assert_eq!(
        find_code_gen_dependency("[dependencies]\ncode_gen\ncode_gen = \"2\""),
        Some("\"2\"".to_string())
    );
    assert_eq!(find_code_gen_dependency(""), None);
}

#[test]
fn manifest_of_the_generator_program() {
    assert_eq!(
        temp_manifest("demo", "/work/demo", "{ path = \"/work/code_gen\" }"),
        "[package]\nname = \"clap-web-gen-temp\"\nversion = \"0.1.0\"\nedition = \"2024\"\n\n\
         # Empty workspace to mark this as standalone, not part of parent workspace\n\
         [workspace]\n\n[[bin]]\nname = \"ui_generator\"\npath = \"ui_generator.rs\"\n\n\
         [dependencies]\ndemo = { path = \"/work/demo\" }\n\
         code_gen = { path = \"/work/code_gen\" }\n"
    );
}

#[test]
fn conflict_between_page_files() {
    assert_eq!(find_html_name_conflict(&vec![]), None);
    assert_eq!(
        find_html_name_conflict(&vec![bound("a", "", "a.html"), bound("b", "", "b.html")]),
        None
    );
    assert_eq!(
        find_html_name_conflict(&vec![
            bound("a", "", "index.html"),
            bound("b", "", "b.html"),
            bound("c", "x", "index.html"),
            bound("d", "", "b.html"),
        ]),
        Some((0, 2))
    );
    assert_eq!(
        find_html_name_conflict(&vec![
            bound("a", "", "a.html"),
            bound("b", "", "b.html"),
            bound("c", "", "b.html"),
            bound("d", "", "a.html"),
        ]),
        Some((1, 2))
    );
}

#[test]
fn functions_of_a_binary_target() {
    assert!(is_in_binary_target(&bound("run", "__BINARY_TARGET__", "index.html")));
    assert!(!is_in_binary_target(&bound("run", "", "index.html")));
    assert!(!is_in_binary_target(&bound("run", "bin::main", "index.html")));
}

#[test]
fn names_of_the_functions_that_belong_to_a_bound_function() {
    assert_eq!(code_gen::scan::bind_function_name("process"), "process_bind");
    assert_eq!(code_gen::scan::page_generator_function_name("process"), "generate_process_ui");
}
