use code_gen::text::{
    begins_with, bool_string, chars_of, find, finishes_with, index_of, replaced_char, same_text,
    stripped, stripped_suffixes, text_of, trimmed, CharClass,
};

fn chars(s: &str) -> Vec<char> {
    s.chars().collect()
}

#[test]
fn trimming_removes_unicode_whitespace_at_both_ends() {
    assert_eq!(trimmed("  a b \t\r\n"), "a b");
    assert_eq!(trimmed("\u{a0}\u{2003}x\u{3000}\u{85}"), "x");
    assert_eq!(trimmed("\u{200b}x\u{feff}"), "\u{200b}x\u{feff}");
    assert_eq!(trimmed(" \n "), "");
    assert_eq!(trimmed(""), "");
    for text in ["  a b \t\r\n", "\u{1680}x\u{2028}\u{2029}\u{202f}\u{205f}", "\u{b}\u{c}y\u{1c}"] {
        assert_eq!(trimmed(text), text.trim());
    }
}

#[test]
fn stripping_one_character() {
    assert_eq!(text_of(stripped(&chars("\"\"a\"b\"\""), CharClass::Only('"'))), "a\"b");
    assert_eq!(text_of(stripped(&chars("'''"), CharClass::Only('\''))), "");
    assert_eq!(text_of(stripped(&chars("abc"), CharClass::Only('x'))), "abc");
}

#[test]
fn stripping_repeated_suffixes() {
    assert_eq!(text_of(stripped_suffixes(&chars("a.rs.rs"), &chars(".rs"))), "a");
    assert_eq!(text_of(stripped_suffixes(&chars(".rs"), &chars(".rs"))), "");
    assert_eq!(text_of(stripped_suffixes(&chars("a.rsx"), &chars(".rs"))), "a.rsx");
    assert_eq!(text_of(stripped_suffixes(&chars("abc"), &chars(""))), "abc");
}

#[test]
fn searching() {
    assert_eq!(index_of(&chars("a=b=c"), '='), 1);
    assert_eq!(index_of(&chars("abc"), '='), 3);
    assert_eq!(index_of(&chars(""), '='), 0);
    assert_eq!(find(&chars("xx path = path"), &chars("path")), Some(3));
    assert_eq!(find(&chars("pat"), &chars("path")), None);
    assert_eq!(find(&chars("abc"), &chars("")), Some(0));
    assert_eq!(find(&chars(""), &chars("")), Some(0));
    assert_eq!(find(&chars("aab"), &chars("ab")), Some(1));
    assert!(begins_with(&chars("name = x"), &chars("name")));
    assert!(!begins_with(&chars("nam"), &chars("name")));
    assert!(finishes_with(&chars("a::mod"), &chars("::mod")));
    assert!(!finishes_with(&chars("mod"), &chars("::mod")));
}

#[test]
fn replacing_a_character() {
    assert_eq!(replaced_char("a-b--c", '-', "_"), "a_b__c");
    assert_eq!(replaced_char("a/b", '/', "::"), "a::b");
    assert_eq!(replaced_char("abc", '-', "_"), "abc");
    assert_eq!(replaced_char("--", '-', ""), "");
}

#[test]
fn small_conversions() {
    assert_eq!(chars_of("h\u{e9}"), vec!['h', '\u{e9}']);
    assert_eq!(text_of(&['o', 'k']), "ok");
    assert_eq!(bool_string(true), "true");
    assert_eq!(bool_string(false), "false");
    assert!(same_text("a", "a"));
    assert!(!same_text("a", "A"));
}
