//! Markup as text: escaping, attributes and elements.

use crate::text::{lemma_occurs_before, lemma_occurs_behind, occurs_at, Text};
use vstd::prelude::*;

verus! {

/// What one character becomes inside markup: the four characters that markup
/// gives a meaning to are written as entities, every other one as itself.
pub open spec fn escape_char(c: char) -> Text {
    if c == '&' {
        "&amp;"@
    } else if c == '<' {
        "&lt;"@
    } else if c == '>' {
        "&gt;"@
    } else if c == '"' {
        "&quot;"@
    } else {
        seq![c]
    }
}

/// `s` with every character escaped for markup.
pub open spec fn html_escaped(s: Text) -> Text
    decreases s.len(),
{
    if s.len() == 0 {
        Seq::empty()
    } else {
        html_escaped(s.drop_last()) + escape_char(s.last())
    }
}

/// Appends `text` to `out` through maud's `Render::render_to` for `str`.
/// Trusted: maud writes `&`, `<`, `>` and `"` as `&amp;`, `&lt;`, `&gt;` and
/// `&quot;` and passes every other character through unchanged.
#[verifier::external_body]
pub(crate) fn push_escaped(out: &mut String, text: &str)
    ensures
        final(out)@ == old(out)@ + html_escaped(text@),
{
    maud::Render::render_to(text, out);
}

/// The text of maud's `DOCTYPE`. Trusted: it is the literal `<!DOCTYPE html>`.
#[verifier::external_body]
pub(crate) fn doctype() -> (out: &'static str)
    ensures
        out@ == "<!DOCTYPE html>"@,
{
    maud::DOCTYPE.0
}

/// An attribute with a value: a space, the name, and the escaped value in
/// double quotes.
pub open spec fn attribute(name: Text, value: Text) -> Text {
    " "@ + name + "=\""@ + html_escaped(value) + "\""@
}

/// An attribute without a value, present only when `on`.
pub open spec fn toggle(name: Text, on: bool) -> Text {
    if on {
        " "@ + name
    } else {
        Seq::empty()
    }
}

/// An element with a body. `attributes` and `body` are markup already.
pub open spec fn element(tag: Text, attributes: Text, body: Text) -> Text {
    "<"@ + tag + attributes + ">"@ + body + "</"@ + tag + ">"@
}

/// An element that has no body and no closing tag.
pub open spec fn void_element(tag: Text, attributes: Text) -> Text {
    "<"@ + tag + attributes + ">"@
}

/// A character that markup gives a meaning to outside of entities.
pub open spec fn is_markup_char(c: char) -> bool {
    c == '<' || c == '>' || c == '"'
}

/// What a character becomes inside markup holds no character that opens or
/// closes a tag or an attribute value.
pub proof fn lemma_escaped_char_is_inert(c: char)
    ensures
        forall|i: int| 0 <= i < escape_char(c).len() ==> !is_markup_char(#[trigger] escape_char(c)[i]),
{
    reveal_strlit("&amp;");
    reveal_strlit("&lt;");
    reveal_strlit("&gt;");
    reveal_strlit("&quot;");
}

/// Escaped text is inert: whatever the text, its escaped form holds no
/// character that opens or closes a tag or an attribute value, so that text
/// never becomes markup.
pub proof fn law_escaped_text_is_inert(s: Text)
    ensures
        forall|i: int| 0 <= i < html_escaped(s).len() ==> !is_markup_char(#[trigger] html_escaped(s)[i]),
    decreases s.len(),
{
    if s.len() > 0 {
        let head = html_escaped(s.drop_last());
        let tail = escape_char(s.last());
        law_escaped_text_is_inert(s.drop_last());
        lemma_escaped_char_is_inert(s.last());
        assert forall|i: int| 0 <= i < html_escaped(s).len() implies !is_markup_char(
            #[trigger] html_escaped(s)[i],
        ) by {
            if i < head.len() {
                assert(html_escaped(s)[i] == head[i]);
            } else {
                assert(html_escaped(s)[i] == tail[i - head.len()]);
            }
        }
    }
}

/// Text without characters to escape is its own escaped form.
pub proof fn law_plain_text_is_unchanged(s: Text)
    requires
        forall|i: int| 0 <= i < s.len() ==> !is_markup_char(#[trigger] s[i]) && s[i] != '&',
    ensures
        html_escaped(s) == s,
    decreases s.len(),
{
    if s.len() > 0 {
        law_plain_text_is_unchanged(s.drop_last());
        assert(!is_markup_char(s[s.len() - 1]) && s[s.len() - 1] != '&');
        assert(html_escaped(s) =~= s);
    }
}

/// What stands in the body of an element stands in the element, behind the
/// opening tag. The result is the position in the element.
pub proof fn lemma_occurs_in_element(
    tag: Text,
    attributes: Text,
    body: Text,
    part: Text,
    at: int,
) -> (position: int)
    requires
        occurs_at(body, part, at),
    ensures
        position == void_element(tag, attributes).len() + at,
        occurs_at(element(tag, attributes, body), part, position),
{
    let opening = void_element(tag, attributes);
    let closing = "</"@ + tag + ">"@;
    lemma_occurs_behind(opening, body, part, at);
    lemma_occurs_before(opening + body, closing, part, opening.len() + at);
    assert(element(tag, attributes, body) =~= opening + body + closing);
    opening.len() + at
}

/// What stands in the attributes of an element without body stands in the
/// element, behind the tag's name. The result is the position in the element.
pub proof fn lemma_occurs_in_void_element(tag: Text, attributes: Text, part: Text, at: int) -> (position:
    int)
    requires
        occurs_at(attributes, part, at),
    ensures
        position == ("<"@ + tag).len() + at,
        occurs_at(void_element(tag, attributes), part, position),
{
    lemma_occurs_behind("<"@ + tag, attributes, part, at);
    lemma_occurs_before("<"@ + tag + attributes, ">"@, part, ("<"@ + tag).len() + at);
    ("<"@ + tag).len() + at
}

/// What stands in the attributes of an element stands in the element, behind
/// the tag's name. The result is the position in the element.
pub proof fn lemma_occurs_in_attributes(
    tag: Text,
    attributes: Text,
    body: Text,
    part: Text,
    at: int,
) -> (position: int)
    requires
        occurs_at(attributes, part, at),
    ensures
        position == ("<"@ + tag).len() + at,
        occurs_at(element(tag, attributes, body), part, position),
{
    let position = lemma_occurs_in_void_element(tag, attributes, part, at);
    let opening = void_element(tag, attributes);
    let closing = "</"@ + tag + ">"@;
    lemma_occurs_before(opening, body + closing, part, position);
    assert(element(tag, attributes, body) =~= opening + (body + closing));
    position
}

/// `text`, escaped for markup.
pub fn escaped(text: &str) -> (out: String)
    ensures
        out@ == html_escaped(text@),
{
    let mut out = String::new();
    push_escaped(&mut out, text);
    assert(Seq::<char>::empty() + html_escaped(text@) =~= html_escaped(text@));
    out
}

/// The attribute `name="value"`, the value escaped.
pub fn attribute_string(name: &str, value: &str) -> (out: String)
    ensures
        out@ == attribute(name@, value@),
{
    let mut out = String::from_str(" ");
    out.append(name);
    out.append("=\"");
    push_escaped(&mut out, value);
    out.append("\"");
    out
}

/// The bare attribute `name` when `on`, nothing otherwise.
pub fn toggle_string(name: &str, on: bool) -> (out: String)
    ensures
        out@ == toggle(name@, on),
{
    if on {
        let mut out = String::from_str(" ");
        out.append(name);
        out
    } else {
        String::new()
    }
}

/// An element with the given attributes and body.
pub fn element_string(tag: &str, attributes: &str, body: &str) -> (out: String)
    ensures
        out@ == element(tag@, attributes@, body@),
{
    let mut out = String::from_str("<");
    out.append(tag);
    out.append(attributes);
    out.append(">");
    out.append(body);
    out.append("</");
    out.append(tag);
    out.append(">");
    out
}

/// An element without body.
pub fn void_element_string(tag: &str, attributes: &str) -> (out: String)
    ensures
        out@ == void_element(tag@, attributes@),
{
    let mut out = String::from_str("<");
    out.append(tag);
    out.append(attributes);
    out.append(">");
    out
}

} // verus!
