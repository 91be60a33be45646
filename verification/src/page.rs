//! The page assembler: the document shell around the rendered form, the style
//! sheet and the script.

use crate::json::{
    fields_encodable, fields_json, fields_json_string, subcommands_encodable, subcommands_json,
    subcommands_json_string,
};
use crate::markup::{
    attribute, attribute_string, doctype, element, element_string, escaped, html_escaped,
    lemma_occurs_in_element, void_element, void_element_string,
};
use crate::model::{Field, FormModel, SubcommandGroup, WasmFunctionConfig};
use crate::render::{
    fields_markup, generate_form_fields, generate_subcommand_sections, nothing,
    subcommands_markup,
};
use crate::script::{generate_script, generate_styles, script_markup, styles_markup};
use crate::text::{
    lemma_occurs_before, lemma_occurs_behind, lemma_occurs_whole, occurs_at, Text,
};
use vstd::prelude::*;

verus! {

/// The JSON that the script is given for the top-level fields: the array of
/// them, or an empty array if some string in them cannot be written.
pub open spec fn config_fields_json(fields: Seq<Field>) -> Text {
    if fields_encodable(fields) {
        fields_json(fields)
    } else {
        "[]"@
    }
}

/// The JSON that the script is given for the subcommands: the array of them,
/// or an empty array if some string in them cannot be written.
pub open spec fn config_subcommands_json(groups: Seq<SubcommandGroup>) -> Text {
    if subcommands_encodable(groups) {
        subcommands_json(groups)
    } else {
        "[]"@
    }
}

/// The head of the document: character set, title and style sheet.
pub open spec fn head_markup(m: FormModel) -> Text {
    element(
        "head"@,
        Seq::empty(),
        void_element("meta"@, attribute("charset"@, "UTF-8"@)) + element(
            "title"@,
            Seq::empty(),
            html_escaped(m.page_title),
        ) + styles_markup(),
    )
}

/// The two buttons under the form.
pub open spec fn buttons_markup() -> Text {
    element(
        "div"@,
        attribute("class"@, "button-group"@),
        element(
            "button"@,
            attribute("id"@, "runButton"@) + attribute("type"@, "button"@),
            html_escaped("Run"@),
        ) + element(
            "button"@,
            attribute("class"@, "clear-btn"@) + attribute("id"@, "clearButton"@) + attribute(
                "type"@,
                "button"@,
            ),
            html_escaped("Reset"@),
        ),
    )
}

/// The form: the top-level fields, the subcommands and the buttons.
pub open spec fn form_markup(m: FormModel) -> Text {
    element(
        "form"@,
        attribute("id"@, "cliForm"@),
        element("div"@, attribute("class"@, "form-section"@), fields_markup(m.fields, None))
            + subcommands_markup(m.subcommands) + buttons_markup(),
    )
}

/// The area that shows what the invocable returned.
pub open spec fn output_markup() -> Text {
    element(
        "div"@,
        attribute("class"@, "output-section"@),
        element("label"@, Seq::empty(), html_escaped("Output:"@)) + element(
            "pre"@,
            attribute("id"@, "output"@),
            html_escaped("No output yet. Fill in the form and click \"Run\"."@),
        ),
    )
}

/// What the page shows: title, status area, form and output area.
pub open spec fn container_markup(m: FormModel) -> Text {
    element(
        "div"@,
        attribute("class"@, "container"@),
        element("h1"@, Seq::empty(), html_escaped(m.page_title)) + element(
            "div"@,
            attribute("id"@, "status"@),
            Seq::empty(),
        ) + form_markup(m) + output_markup(),
    )
}

/// The scripts of the page for a form model.
pub open spec fn page_script_markup(m: FormModel) -> Text {
    script_markup(
        m.invocable_name,
        m.module_reference,
        config_fields_json(m.fields),
        config_subcommands_json(m.subcommands),
    )
}

/// The body of the document: what the page shows, then the scripts.
pub open spec fn body_markup(m: FormModel) -> Text {
    element("body"@, Seq::empty(), container_markup(m) + page_script_markup(m))
}

/// The complete document for a form model.
pub open spec fn page_text(m: FormModel) -> Text {
    "<!DOCTYPE html>"@ + element("html"@, Seq::empty(), head_markup(m) + body_markup(m))
}

/// Generating is repeatable: two pages generated from the same form model are
/// the same text, character for character.
pub proof fn law_generation_is_repeatable(
    first: WasmFunctionConfig,
    second: WasmFunctionConfig,
    first_page: Text,
    second_page: Text,
)
    requires
        first@ == second@,
        first_page == page_text(first@),
        second_page == page_text(second@),
    ensures
        first_page == second_page,
{
}

/// The order of a page: the style sheet stands before the form and the form
/// before the scripts, so that every control exists when the scripts run.
pub proof fn law_page_order(m: FormModel)
    ensures
        exists|i: int, j: int, k: int|
            {
                &&& #[trigger] occurs_at(page_text(m), styles_markup(), i)
                &&& #[trigger] occurs_at(page_text(m), form_markup(m), j)
                &&& #[trigger] occurs_at(page_text(m), page_script_markup(m), k)
                &&& i + styles_markup().len() <= j
                &&& j + form_markup(m).len() <= k
            },
{
    let styles = styles_markup();
    let form = form_markup(m);
    let script = page_script_markup(m);
    let none = Seq::<char>::empty();
    // the style sheet in the head
    let title = void_element("meta"@, attribute("charset"@, "UTF-8"@)) + element(
        "title"@,
        none,
        html_escaped(m.page_title),
    );
    lemma_occurs_whole(styles);
    lemma_occurs_behind(title, styles, styles, 0);
    let in_head = lemma_occurs_in_element("head"@, none, title + styles, styles, title.len() as int);
    let head = head_markup(m);
    // the form and the scripts in the body
    let top = element("h1"@, none, html_escaped(m.page_title)) + element(
        "div"@,
        attribute("id"@, "status"@),
        none,
    );
    lemma_occurs_whole(form);
    lemma_occurs_behind(top, form, form, 0);
    lemma_occurs_before(top + form, output_markup(), form, top.len() as int);
    let class = attribute("class"@, "container"@);
    let in_container = lemma_occurs_in_element(
        "div"@,
        class,
        top + form + output_markup(),
        form,
        top.len() as int,
    );
    let container = container_markup(m);
    lemma_occurs_before(container, script, form, in_container);
    lemma_occurs_whole(script);
    lemma_occurs_behind(container, script, script, 0);
    let form_in_body = lemma_occurs_in_element(
        "body"@,
        none,
        container + script,
        form,
        in_container,
    );
    let script_in_body = lemma_occurs_in_element(
        "body"@,
        none,
        container + script,
        script,
        container.len() as int,
    );
    let body = body_markup(m);
    // head and body in the document
    lemma_occurs_before(head, body, styles, in_head);
    lemma_occurs_behind(head, body, form, form_in_body);
    lemma_occurs_behind(head, body, script, script_in_body);
    let i = lemma_occurs_in_element("html"@, none, head + body, styles, in_head);
    let j = lemma_occurs_in_element("html"@, none, head + body, form, head.len() + form_in_body);
    let k = lemma_occurs_in_element(
        "html"@,
        none,
        head + body,
        script,
        head.len() + script_in_body,
    );
    let document = element("html"@, none, head + body);
    let doctype = "<!DOCTYPE html>"@;
    lemma_occurs_behind(doctype, document, styles, i);
    lemma_occurs_behind(doctype, document, form, j);
    lemma_occurs_behind(doctype, document, script, k);
    assert(occurs_at(page_text(m), styles, doctype.len() + i));
    assert(occurs_at(page_text(m), form, doctype.len() + j));
    assert(occurs_at(page_text(m), script, doctype.len() + k));
}

/// The head of the document.
fn head_string(config: &WasmFunctionConfig) -> (out: String)
    ensures
        out@ == head_markup(config@),
{
    let mut body = void_element_string("meta", attribute_string("charset", "UTF-8").as_str());
    body.append(
        element_string("title", nothing(), escaped(config.page_title.as_str()).as_str()).as_str(),
    );
    body.append(generate_styles().as_str());
    element_string("head", nothing(), body.as_str())
}

/// The two buttons under the form.
fn buttons_string() -> (out: String)
    ensures
        out@ == buttons_markup(),
{
    let mut run = attribute_string("id", "runButton");
    run.append(attribute_string("type", "button").as_str());
    let mut clear = attribute_string("class", "clear-btn");
    clear.append(attribute_string("id", "clearButton").as_str());
    clear.append(attribute_string("type", "button").as_str());
    let mut body = element_string("button", run.as_str(), escaped("Run").as_str());
    body.append(element_string("button", clear.as_str(), escaped("Reset").as_str()).as_str());
    element_string("div", attribute_string("class", "button-group").as_str(), body.as_str())
}

/// The form.
fn form_string(config: &WasmFunctionConfig) -> (out: String)
    ensures
        out@ == form_markup(config@),
{
    let mut body = element_string(
        "div",
        attribute_string("class", "form-section").as_str(),
        generate_form_fields(&config.fields).as_str(),
    );
    body.append(generate_subcommand_sections(&config.subcommands).as_str());
    body.append(buttons_string().as_str());
    element_string("form", attribute_string("id", "cliForm").as_str(), body.as_str())
}

/// The area that shows what the invocable returned.
fn output_string() -> (out: String)
    ensures
        out@ == output_markup(),
{
    let mut body = element_string("label", nothing(), escaped("Output:").as_str());
    body.append(
        element_string(
            "pre",
            attribute_string("id", "output").as_str(),
            escaped("No output yet. Fill in the form and click \"Run\".").as_str(),
        ).as_str(),
    );
    element_string("div", attribute_string("class", "output-section").as_str(), body.as_str())
}

/// What the page shows.
fn container_string(config: &WasmFunctionConfig) -> (out: String)
    ensures
        out@ == container_markup(config@),
{
    let mut body = element_string("h1", nothing(), escaped(config.page_title.as_str()).as_str());
    body.append(element_string("div", attribute_string("id", "status").as_str(), nothing()).as_str());
    body.append(form_string(config).as_str());
    body.append(output_string().as_str());
    element_string("div", attribute_string("class", "container").as_str(), body.as_str())
}

/// The scripts of the page.
fn page_script_string(config: &WasmFunctionConfig) -> (out: String)
    ensures
        out@ == page_script_markup(config@),
{
    let fields = match fields_json_string(&config.fields) {
        Some(t) => t,
        None => String::from_str("[]"),
    };
    let subcommands = match subcommands_json_string(&config.subcommands) {
        Some(t) => t,
        None => String::from_str("[]"),
    };
    generate_script(
        config.function_name.as_str(),
        config.package_name.as_str(),
        fields.as_str(),
        subcommands.as_str(),
    )
}

/// Generates the page for a form: one complete, self-contained document with
/// the style sheet in its head, the form in its body and the scripts after the
/// form, so that every control exists when the scripts run.
///
/// The form is meant to keep the invariants of the field model, which
/// `is_well_formed` tests. A page is generated for any form; in one that does
/// not keep them, controls may share an identity, and a choice whose default
/// is none of its options has no option selected.
pub fn generate_wasm_function_page(config: &WasmFunctionConfig) -> (page: String)
    ensures
        page@ == page_text(config@),
{
    let mut body = container_string(config);
    body.append(page_script_string(config).as_str());
    let mut document = head_string(config);
    document.append(element_string("body", nothing(), body.as_str()).as_str());
    let mut page = String::from_str(doctype());
    page.append(element_string("html", nothing(), document.as_str()).as_str());
    page
}

} // verus!
