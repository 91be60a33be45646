//! What the command-line front end computes from the text it has read: module
//! paths, attribute arguments and the source of the program that writes the
//! pages.

use crate::text::{
    begins_with_text, chars_of, find_text, first_index_of, first_occurrence, index_of, is_text,
    lines, replace_char, replaced_char, replaced_in, same_text, skipped, starts_with, strip,
    strip_start, strip_suffixes, stripped, stripped_start, stripped_suffixes, taken, text_of,
    trim, trimmed_chars, CharClass, Text,
};
use vstd::prelude::*;

verus! {

/// A function that a page is generated for, as the contracts see it.
pub struct BoundTarget {
    pub name: Text,
    pub module: Text,
    pub html_name: Text,
}

/// A function that a page is generated for.
#[derive(Debug, Clone)]
pub struct BoundFunction {
    /// Name of the function.
    pub name: String,
    /// Path of its module below the crate root, empty for the root itself.
    pub module: String,
    /// File name of its page.
    pub html_name: String,
}

impl View for BoundFunction {
    type V = BoundTarget;

    open spec fn view(&self) -> BoundTarget {
        BoundTarget { name: self.name@, module: self.module@, html_name: self.html_name@ }
    }
}

impl DeepView for BoundFunction {
    type V = BoundTarget;

    open spec fn deep_view(&self) -> BoundTarget {
        self@
    }
}

/// The text between the double quote that `s` starts with, once trimmed, and
/// the next double quote; nothing if `s` does not start with one or the quote
/// is never closed.
pub open spec fn quoted_prefix(s: Text) -> Option<Text> {
    let t = trim(s);
    if t.len() > 0 && t[0] == '"' && first_index_of(t.skip(1), '"') < t.len() - 1 {
        Some(t.subrange(1, 1 + first_index_of(t.skip(1), '"') as int))
    } else {
        None
    }
}

/// Reads a quoted string from the start of `s`, ignoring whitespace around it.
fn quoted_prefix_of(s: &[char]) -> (r: Option<String>)
    ensures
        r.deep_view() == quoted_prefix(s@),
{
    let t = trimmed_chars(s);
    if t.len() > 0 && t[0] == '"' {
        let rest = skipped(t, 1);
        let n = index_of(rest, '"');
        if n < rest.len() {
            assert(rest@.take(n as int) =~= t@.subrange(1, 1 + n));
            Some(text_of(taken(rest, n)))
        } else {
            None
        }
    } else {
        None
    }
}

/// Reads a quoted string from the start of `s`, ignoring whitespace around it:
/// the text between the first double quote and the next one.
pub fn extract_quoted_string(s: &str) -> (r: Option<String>)
    ensures
        r.deep_view() == quoted_prefix(s@),
{
    let chars = chars_of(s);
    quoted_prefix_of(chars.as_slice())
}

/// The name of the function that generates the page of `name`.
pub open spec fn page_generator_name(name: Text) -> Text {
    "generate_"@ + name + "_ui"@
}

/// The name of the function that a page calls for the function `name`.
pub open spec fn bind_name(name: Text) -> Text {
    name + "_bind"@
}

/// The name of the function that generates the page of the function `name`.
pub fn page_generator_function_name(name: &str) -> (out: String)
    ensures
        out@ == page_generator_name(name@),
{
    let mut out = String::from_str("generate_");
    out.append(name);
    out.append("_ui");
    out
}

/// The name of the function that a page calls for the function `name`.
pub fn bind_function_name(name: &str) -> (out: String)
    ensures
        out@ == bind_name(name@),
{
    let mut out = String::from_str(name);
    out.append("_bind");
    out
}

/// The path by which the generated program calls the page generator of a
/// function: crate, module path if any, and the generator's name.
pub open spec fn page_generator_path(crate_name: Text, target: BoundTarget) -> Text {
    if target.module.len() == 0 {
        crate_name + "::"@ + page_generator_name(target.name)
    } else {
        crate_name + "::"@ + target.module + "::"@ + page_generator_name(target.name)
    }
}

/// The file that the page of a function is written to.
pub open spec fn page_file(target: BoundTarget) -> Text {
    "pkg/"@ + target.html_name
}

/// The statements of the generated program for one function: generate the
/// page, write it, report it.
pub open spec fn generator_step(package_name: Text, target: BoundTarget) -> Text {
    "    // Generate UI for "@ + target.name + "\n"@ + "    let html = "@ + page_generator_path(
        replace_char(package_name, '-', "_"@),
        target,
    ) + "(\""@ + package_name + "\", \"\");\n"@ + "    fs::write(\""@ + page_file(target)
        + "\", html)\n"@ + "        .expect(\"Failed to write HTML file\");\n"@
        + "    println!(\"  Generated: "@ + page_file(target) + "\");\n\n"@
}

/// The steps for all functions, in the order given.
pub open spec fn generator_steps(package_name: Text, targets: Seq<BoundTarget>) -> Text
    decreases targets.len(),
{
    if targets.len() == 0 {
        Seq::empty()
    } else {
        generator_steps(package_name, targets.drop_last()) + generator_step(
            package_name,
            targets.last(),
        )
    }
}

/// The opening of the generated program, up to the first step.
pub open spec fn generator_prelude() -> Text {
    "use std::fs;\n\n"@ + "fn main() {\n"@ + "    println!(\"Generating Web UIs...\\n\");\n\n"@
        + "    // Create pkg directory if it doesn't exist\n"@ + "    fs::create_dir_all(\"pkg\")\n"@
        + "        .expect(\"Failed to create pkg directory\");\n\n"@
}

/// The source of the program that writes one page per function.
pub open spec fn generator_code(package_name: Text, targets: Seq<BoundTarget>) -> Text {
    generator_prelude() + generator_steps(package_name, targets) + "}\n"@
}

/// The statements of the generated program for one function.
fn generator_step_string(package_name: &str, function: &BoundFunction) -> (out: String)
    ensures
        out@ == generator_step(package_name@, function@),
{
    let generator = page_generator_function_name(function.name.as_str());
    let mut path = replaced_char(package_name, '-', "_");
    path.append("::");
    if !function.module.as_str().is_empty() {
        path.append(function.module.as_str());
        path.append("::");
    }
    path.append(generator.as_str());
    let mut file = String::from_str("pkg/");
    file.append(function.html_name.as_str());
    let mut out = String::from_str("    // Generate UI for ");
    out.append(function.name.as_str());
    out.append("\n");
    out.append("    let html = ");
    out.append(path.as_str());
    out.append("(\"");
    out.append(package_name);
    out.append("\", \"\");\n");
    out.append("    fs::write(\"");
    out.append(file.as_str());
    out.append("\", html)\n");
    out.append("        .expect(\"Failed to write HTML file\");\n");
    out.append("    println!(\"  Generated: ");
    out.append(file.as_str());
    out.append("\");\n\n");
    out
}

/// Writes the source of the program that generates the page of every function
/// given and writes each to its file under `pkg/`.
pub fn generate_ui_generator_code(package_name: &str, functions: &Vec<BoundFunction>) -> (code:
    String)
    ensures
        code@ == generator_code(package_name@, functions.deep_view()),
{
    let ghost all = functions.deep_view();
    let mut steps = String::new();
    let mut i: usize = 0;
    while i < functions.len()
        invariant
            i <= functions.len(),
            all == functions.deep_view(),
            steps@ == generator_steps(package_name@, all.take(i as int)),
        decreases functions.len() - i,
    {
        steps.append(generator_step_string(package_name, &functions[i]).as_str());
        proof {
            assert(all.take(i + 1).drop_last() =~= all.take(i as int));
            assert(all.take(i + 1).last() == functions[i as int]@);
        }
        i += 1;
    }
    assert(all.take(functions.len() as int) =~= all);
    let mut code = String::from_str("use std::fs;\n\n");
    code.append("fn main() {\n");
    code.append("    println!(\"Generating Web UIs...\\n\");\n\n");
    code.append("    // Create pkg directory if it doesn't exist\n");
    code.append("    fs::create_dir_all(\"pkg\")\n");
    code.append("        .expect(\"Failed to create pkg directory\");\n\n");
    code.append(steps.as_str());
    code.append("}\n");
    code
}

/// The module path that stands for the file of a binary target, which holds
/// no function that a page can be generated for.
pub open spec fn binary_target_marker() -> Text {
    "__BINARY_TARGET__"@
}

/// The module path of a source file, given by its path below the source
/// directory: the marker for `main.rs`, nothing for `lib.rs`, and else the
/// path without `.rs`, with `::` for each separator and without a final
/// `::mod`.
pub open spec fn module_of(path: Text, separator: char) -> Text {
    if path == "main.rs"@ {
        binary_target_marker()
    } else if path == "lib.rs"@ {
        Seq::empty()
    } else {
        strip_suffixes(
            replace_char(strip_suffixes(path, ".rs"@), separator, "::"@),
            "::mod"@,
        )
    }
}

/// Computes the module path of a source file from its path below the source
/// directory, in which `separator` parts the components.
pub fn calculate_module_path(relative_path: &str, separator: char) -> (module: String)
    ensures
        module@ == module_of(relative_path@, separator),
{
    if same_text(relative_path, "main.rs") {
        return String::from_str("__BINARY_TARGET__");
    }
    if same_text(relative_path, "lib.rs") {
        return String::new();
    }
    let chars = chars_of(relative_path);
    let extension = chars_of(".rs");
    let stem = stripped_suffixes(chars.as_slice(), extension.as_slice());
    let joined = chars_of(replaced_in(stem, separator, "::").as_str());
    let suffix = chars_of("::mod");
    text_of(stripped_suffixes(joined.as_slice(), suffix.as_slice()))
}

/// `s` without double quotes and then without single quotes at its ends.
pub open spec fn unquoted(s: Text) -> Text {
    strip(strip(s, CharClass::Only('"')), CharClass::Only('\''))
}

/// `s` without double quotes and then without single quotes at its ends.
fn unquoted_chars(s: &[char]) -> (out: &[char])
    ensures
        out@ == unquoted(s@),
{
    stripped(stripped(s, CharClass::Only('"')), CharClass::Only('\''))
}

/// What follows the first `=` of `s`, if there is one.
pub open spec fn after_equals(s: Text) -> Option<Text> {
    if first_index_of(s, '=') < s.len() {
        Some(s.skip(first_index_of(s, '=') as int + 1))
    } else {
        None
    }
}

/// What follows the first `=` of `s`, if there is one.
fn after_equals_of(s: &[char]) -> (r: Option<&[char]>)
    ensures
        match r {
            Some(rest) => after_equals(s@) == Some(rest@),
            None => after_equals(s@) is None,
        },
{
    let n = index_of(s, '=');
    if n < s.len() {
        Some(skipped(s, n + 1))
    } else {
        None
    }
}

/// What follows the first occurrence of `key` and the first `=` behind it.
pub open spec fn value_behind(s: Text, key: Text) -> Option<Text> {
    match first_occurrence(s, key) {
        Some(p) => after_equals(s.skip(p as int)),
        None => None,
    }
}

/// What follows the first occurrence of `key` and the first `=` behind it.
fn value_behind_of<'a>(s: &'a [char], key: &str) -> (r: Option<&'a [char]>)
    ensures
        match r {
            Some(rest) => value_behind(s@, key@) == Some(rest@),
            None => value_behind(s@, key@) is None,
        },
{
    match find_text(s, key) {
        Some(p) => after_equals_of(skipped(s, p)),
        None => None,
    }
}

/// The file name that a page gets where the attribute names none.
pub open spec fn default_html_name() -> Text {
    "index.html"@
}

/// The file name of the page that the arguments of the attribute ask for: the
/// quoted string behind `html_name` and `=`, or the default where the
/// arguments hold none.
pub open spec fn html_name_in(arguments: Text) -> Text {
    match value_behind(arguments, "html_name"@) {
        Some(v) => match quoted_prefix(trim(v)) {
            Some(name) => name,
            None => default_html_name(),
        },
        None => default_html_name(),
    }
}

/// Reads the file name of the page from the arguments of the attribute that
/// marks a function, given as text.
pub fn html_name_from_arguments(arguments: &str) -> (name: String)
    ensures
        name@ == html_name_in(arguments@),
{
    let chars = chars_of(arguments);
    match value_behind_of(chars.as_slice(), "html_name") {
        Some(v) => match quoted_prefix_of(trimmed_chars(v)) {
            Some(name) => name,
            None => String::from_str("index.html"),
        },
        None => String::from_str("index.html"),
    }
}

/// Where the path ends in what follows `path =`: before the first comma, or
/// without a comma before the first closing brace, or at the end.
pub open spec fn path_end(v: Text) -> nat {
    if first_index_of(v, ',') < v.len() {
        first_index_of(v, ',')
    } else {
        first_index_of(v, '}')
    }
}

/// The path that a dependency specification names: what stands behind `path`
/// and `=`, without the braces, quotes and whitespace around it. Nothing if
/// the specification names no path.
pub open spec fn dependency_path(dep_spec: Text) -> Option<Text> {
    match value_behind(dep_spec, "path"@) {
        Some(v) => {
            let value = unquoted(trim(strip_start(trim(v), CharClass::Only('{'))));
            Some(unquoted(trim(value.take(path_end(value) as int))))
        },
        None => None,
    }
}

/// Reads the path that a dependency specification names, as it is written
/// there. It is for the caller to resolve it against the project's directory
/// and to put the absolute path back with `path_dependency`.
pub fn resolve_path_dependency(dep_spec: &str) -> (path: Option<String>)
    ensures
        path.deep_view() == dependency_path(dep_spec@),
{
    let chars = chars_of(dep_spec);
    match value_behind_of(chars.as_slice(), "path") {
        Some(v) => {
            let inner = trimmed_chars(stripped_start(trimmed_chars(v), CharClass::Only('{')));
            let value = unquoted_chars(inner);
            let comma = index_of(value, ',');
            let end = if comma < value.len() {
                comma
            } else {
                index_of(value, '}')
            };
            Some(text_of(unquoted_chars(trimmed_chars(taken(value, end)))))
        },
        None => None,
    }
}

/// A dependency specification that names the path `path`.
pub open spec fn path_dependency_text(path: Text) -> Text {
    "{ path = \""@ + path + "\" }"@
}

/// Writes the dependency specification that names `path`.
pub fn path_dependency(path: &str) -> (dep_spec: String)
    ensures
        dep_spec@ == path_dependency_text(path@),
{
    let mut dep_spec = String::from_str("{ path = \"");
    dep_spec.append(path);
    dep_spec.append("\" }");
    dep_spec
}

/// The package name that a line of a manifest gives: on a line that begins
/// with `name`, what follows the first `=`, without whitespace and quotes.
pub open spec fn name_in_line(line: Text) -> Option<Text> {
    let l = trim(line);
    if starts_with(l, "name"@) {
        match after_equals(l) {
            Some(v) => Some(unquoted(trim(v))),
            None => None,
        }
    } else {
        None
    }
}

/// The package name that the first of the lines to give one gives.
pub open spec fn name_in_lines(lines: Seq<Text>) -> Option<Text>
    decreases lines.len(),
{
    if lines.len() == 0 {
        None
    } else {
        match name_in_line(lines[0]) {
            Some(name) => Some(name),
            None => name_in_lines(lines.drop_first()),
        }
    }
}

/// The package name that a manifest gives, or `unknown`.
pub open spec fn package_name_in(manifest: Text) -> Text {
    match name_in_lines(lines(manifest)) {
        Some(name) => name,
        None => "unknown"@,
    }
}

/// The package name that a line of a manifest gives.
fn name_from_line(line: &[char]) -> (r: Option<String>)
    ensures
        r.deep_view() == name_in_line(line@),
{
    let l = trimmed_chars(line);
    if begins_with_text(l, "name") {
        match after_equals_of(l) {
            Some(v) => Some(text_of(unquoted_chars(trimmed_chars(v)))),
            None => None,
        }
    } else {
        None
    }
}

/// The first line of `s` and what follows its line feed.
fn split_line(s: &[char]) -> (r: (&[char], &[char]))
    requires
        s.len() > 0,
    ensures
        lines(s@) == seq![r.0@] + lines(r.1@),
        r.1.len() < s.len(),
{
    let n = index_of(s, '\n');
    if n < s.len() {
        (taken(s, n), skipped(s, n + 1))
    } else {
        let rest = skipped(s, n);
        assert(s@.take(n as int) =~= s@);
        assert(seq![s@] + lines(rest@) =~= seq![s@]);
        (taken(s, n), rest)
    }
}

/// Reads the name of the package from the text of its manifest: what the
/// first line that begins with `name` and holds a `=` gives behind it, or
/// `unknown` if no line does.
pub fn package_name_from_manifest(manifest: &str) -> (name: String)
    ensures
        name@ == package_name_in(manifest@),
{
    let chars = chars_of(manifest);
    let mut rest = chars.as_slice();
    while rest.len() > 0
        invariant
            chars@ == manifest@,
            name_in_lines(lines(rest@)) == name_in_lines(lines(chars@)),
        decreases rest.len(),
    {
        let (line, tail) = split_line(rest);
        assert((seq![line@] + lines(tail@)).drop_first() =~= lines(tail@));
        assert((seq![line@] + lines(tail@))[0] == line@);
        match name_from_line(line) {
            Some(name) => {
                return name;
            },
            None => {},
        }
        rest = tail;
    }
    String::from_str("unknown")
}

/// What a manifest says of the dependency on this library: the specification
/// behind the first `=` of the first line that begins with `code_gen` inside a
/// dependencies section. `inside` says whether the lines begin inside one.
pub open spec fn dependency_in_lines(lines: Seq<Text>, inside: bool) -> Option<Text>
    decreases lines.len(),
{
    if lines.len() == 0 {
        None
    } else {
        let l = trim(lines[0]);
        let rest = lines.drop_first();
        if l == "[dependencies]"@ || l == "[dev-dependencies]"@ {
            dependency_in_lines(rest, true)
        } else if starts_with(l, "["@) && inside {
            dependency_in_lines(rest, false)
        } else if inside && starts_with(l, "code_gen"@) && after_equals(l) is Some {
            Some(trim(after_equals(l)->0))
        } else {
            dependency_in_lines(rest, inside)
        }
    }
}

/// What a manifest says of the dependency on this library, if anything.
pub open spec fn dependency_in(manifest: Text) -> Option<Text> {
    dependency_in_lines(lines(manifest), false)
}

/// Finds the specification of the dependency on this library in the text of a
/// manifest: in a `[dependencies]` or `[dev-dependencies]` section, on the
/// first line that begins with `code_gen` and holds a `=`, what follows it.
pub fn find_code_gen_dependency(manifest: &str) -> (dep_spec: Option<String>)
    ensures
        dep_spec.deep_view() == dependency_in(manifest@),
{
    let chars = chars_of(manifest);
    let mut rest = chars.as_slice();
    let mut inside = false;
    while rest.len() > 0
        invariant
            chars@ == manifest@,
            dependency_in_lines(lines(rest@), inside) == dependency_in(chars@),
        decreases rest.len(),
    {
        let (line, tail) = split_line(rest);
        assert((seq![line@] + lines(tail@)).drop_first() =~= lines(tail@));
        assert((seq![line@] + lines(tail@))[0] == line@);
        let l = trimmed_chars(line);
        if is_text(l, "[dependencies]") || is_text(l, "[dev-dependencies]") {
            inside = true;
        } else if begins_with_text(l, "[") && inside {
            inside = false;
        } else if inside && begins_with_text(l, "code_gen") {
            match after_equals_of(l) {
                Some(v) => {
                    return Some(text_of(trimmed_chars(v)));
                },
                None => {},
            }
        }
        rest = tail;
    }
    None
}

/// The manifest of the program that writes the pages: a package of its own
/// with one binary, which depends on the project at `project_root` and on this
/// library as `dependency` specifies.
pub open spec fn temp_manifest_text(package_name: Text, project_root: Text, dependency: Text) -> Text {
    "[package]\nname = \"clap-web-gen-temp\"\nversion = \"0.1.0\"\nedition = \"2024\"\n\n"@
        + "# Empty workspace to mark this as standalone, not part of parent workspace\n[workspace]\n\n"@
        + "[[bin]]\nname = \"ui_generator\"\npath = \"ui_generator.rs\"\n\n[dependencies]\n"@
        + package_name + " = { path = \""@ + project_root + "\" }\ncode_gen = "@ + dependency
        + "\n"@
}

/// Writes the manifest of the program that writes the pages.
pub fn temp_manifest(package_name: &str, project_root: &str, dependency: &str) -> (manifest: String)
    ensures
        manifest@ == temp_manifest_text(package_name@, project_root@, dependency@),
{
    let mut manifest = String::from_str(
        "[package]\nname = \"clap-web-gen-temp\"\nversion = \"0.1.0\"\nedition = \"2024\"\n\n",
    );
    manifest.append(
        "# Empty workspace to mark this as standalone, not part of parent workspace\n[workspace]\n\n",
    );
    manifest.append(
        "[[bin]]\nname = \"ui_generator\"\npath = \"ui_generator.rs\"\n\n[dependencies]\n",
    );
    manifest.append(package_name);
    manifest.append(" = { path = \"");
    manifest.append(project_root);
    manifest.append("\" }\ncode_gen = ");
    manifest.append(dependency);
    manifest.append("\n");
    manifest
}

/// Whether a function stands in the file of a binary target.
pub open spec fn in_binary_target(target: BoundTarget) -> bool {
    target.module == binary_target_marker()
}

/// Whether a function stands in the file of a binary target, from which no
/// page can be generated.
pub fn is_in_binary_target(function: &BoundFunction) -> (b: bool)
    ensures
        b == in_binary_target(function@),
{
    same_text(function.module.as_str(), "__BINARY_TARGET__")
}

/// No two of the first `n` functions write their page to the same file.
pub open spec fn html_names_distinct(targets: Seq<BoundTarget>, n: int) -> bool {
    forall|a: int, b: int|
        0 <= a < b < n ==> (#[trigger] targets[a]).html_name != (#[trigger] targets[b]).html_name
}

/// The function at `later` is the first whose file an earlier function, the
/// one at `earlier`, already writes.
pub open spec fn is_first_conflict(targets: Seq<BoundTarget>, earlier: int, later: int) -> bool {
    &&& 0 <= earlier < later < targets.len()
    &&& targets[earlier].html_name == targets[later].html_name
    &&& html_names_distinct(targets, later)
}

/// Finds the first function that writes its page to the file of an earlier
/// one, and that earlier one; nothing if all files differ.
pub fn find_html_name_conflict(functions: &Vec<BoundFunction>) -> (r: Option<(usize, usize)>)
    ensures
        match r {
            Some((earlier, later)) => is_first_conflict(
                functions.deep_view(),
                earlier as int,
                later as int,
            ),
            None => html_names_distinct(functions.deep_view(), functions.len() as int),
        },
{
    let ghost all = functions.deep_view();
    let mut later: usize = 0;
    while later < functions.len()
        invariant
            later <= functions.len(),
            all == functions.deep_view(),
            html_names_distinct(all, later as int),
        decreases functions.len() - later,
    {
        let mut earlier: usize = 0;
        while earlier < later
            invariant
                earlier <= later < functions.len(),
                all == functions.deep_view(),
                html_names_distinct(all, later as int),
                forall|a: int| 0 <= a < earlier ==> (#[trigger] all[a]).html_name != all[later as int].html_name,
            decreases later - earlier,
        {
            if same_text(
                functions[earlier].html_name.as_str(),
                functions[later].html_name.as_str(),
            ) {
                assert(all[earlier as int] == functions[earlier as int]@);
                assert(all[later as int] == functions[later as int]@);
                return Some((earlier, later));
            }
            assert(all[earlier as int] == functions[earlier as int]@);
            assert(all[later as int] == functions[later as int]@);
            earlier += 1;
        }
        later += 1;
    }
    None
}

} // verus!
