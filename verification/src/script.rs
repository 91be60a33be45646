//! The script generator and the style sheet: the two parts of a page that are
//! text of another language.

use crate::assets::{SCRIPT_BODY, STYLE_SHEET};
use crate::markup::{attribute, attribute_string, element, element_string};
use crate::model::module_reference_of;
use crate::render::nothing;
use crate::text::{replaced_char, Text};
use vstd::prelude::*;

verus! {

/// The style element of a page. The style sheet is written as it is.
pub open spec fn styles_markup() -> Text {
    element("style"@, Seq::empty(), STYLE_SHEET@)
}

/// The statement that hands the field model to the script.
pub open spec fn config_script(fields_json: Text, subcommands_json: Text) -> Text {
    "window.CLI_CONFIG = { fields: "@ + fields_json + ", subcommands: "@ + subcommands_json
        + " };"@
}

/// The script proper: the import of the module's initializer and of the
/// invocable from the module reference, then the script body.
pub open spec fn main_script(invocable_name: Text, module_reference: Text) -> Text {
    "import init, { "@ + invocable_name + " as invocable } from '"@ + module_reference + "';\n"@
        + SCRIPT_BODY@
}

/// The two script elements of a page: first the one that sets the
/// configuration, then the module script. Neither is escaped.
pub open spec fn script_markup(
    invocable_name: Text,
    module_reference: Text,
    fields_json: Text,
    subcommands_json: Text,
) -> Text {
    element("script"@, Seq::empty(), config_script(fields_json, subcommands_json)) + element(
        "script"@,
        attribute("type"@, "module"@),
        main_script(invocable_name, module_reference),
    )
}

/// The style element of a page.
pub fn generate_styles() -> (out: String)
    ensures
        out@ == styles_markup(),
{
    element_string("style", nothing(), STYLE_SHEET)
}

/// The module specifier that a page loads for a package.
fn module_reference(package_name: &str) -> (out: String)
    ensures
        out@ == module_reference_of(package_name@),
{
    let mut out = String::from_str("./");
    out.append(replaced_char(package_name, '-', "_").as_str());
    out.append(".js");
    out
}

/// The script elements of a page that calls `function_name` of the package's
/// module with the argument list collected from the form described by the two
/// JSON texts.
pub fn generate_script(
    function_name: &str,
    package_name: &str,
    fields_json: &str,
    subcommands_json: &str,
) -> (out: String)
    ensures
        out@ == script_markup(
            function_name@,
            module_reference_of(package_name@),
            fields_json@,
            subcommands_json@,
        ),
{
    let mut config = String::from_str("window.CLI_CONFIG = { fields: ");
    config.append(fields_json);
    config.append(", subcommands: ");
    config.append(subcommands_json);
    config.append(" };");
    let mut main = String::from_str("import init, { ");
    main.append(function_name);
    main.append(" as invocable } from '");
    main.append(module_reference(package_name).as_str());
    main.append("';\n");
    main.append(SCRIPT_BODY);
    let mut out = element_string("script", nothing(), config.as_str());
    out.append(
        element_string("script", attribute_string("type", "module").as_str(), main.as_str())
            .as_str(),
    );
    out
}

} // verus!
