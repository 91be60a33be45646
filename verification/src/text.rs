//! Character sequences: the vocabulary in which every contract of this crate
//! speaks about text, and the verified routines that compute it on slices of
//! characters and on `String`s.

use vstd::prelude::*;
use vstd::slice::slice_subrange;

verus! {

/// A piece of text, as the contracts see it.
pub type Text = Seq<char>;

/// `std`'s `String::push` appends exactly one character.
pub assume_specification[ std::string::String::push ](s: &mut std::string::String, c: char)
    ensures
        final(s)@ == old(s)@.push(c),
;

/// What `char::to_uppercase` yields for `c`, as text. The mapping is Unicode's
/// and is not spelled out here.
pub uninterp spec fn uppercase_of(c: char) -> Text;

/// Calls `char::to_uppercase` and collects what it yields. Trusted: the result
/// is the upper-case mapping of `c`, which may be longer than one character.
#[verifier::external_body]
pub(crate) fn uppercase(c: char) -> (out: String)
    ensures
        out@ == uppercase_of(c),
{
    c.to_uppercase().collect()
}

/// A set of characters that can be stripped from the ends of a text.
#[derive(Debug, Clone, Copy, PartialEq, Eq, Structural)]
pub enum CharClass {
    /// Unicode's `White_Space` characters.
    Whitespace,
    /// One character.
    Only(char),
}

/// Unicode's `White_Space` characters.
pub open spec fn is_whitespace(c: char) -> bool {
    let n = c as u32;
    ||| 0x09 <= n <= 0x0D
    ||| n == 0x20
    ||| n == 0x85
    ||| n == 0xA0
    ||| n == 0x1680
    ||| 0x2000 <= n <= 0x200A
    ||| n == 0x2028
    ||| n == 0x2029
    ||| n == 0x202F
    ||| n == 0x205F
    ||| n == 0x3000
}

/// Whether `c` belongs to the class.
pub open spec fn in_class(class: CharClass, c: char) -> bool {
    match class {
        CharClass::Whitespace => is_whitespace(c),
        CharClass::Only(only) => c == only,
    }
}

/// The number of characters of the class that `s` begins with.
pub open spec fn leading(s: Text, class: CharClass) -> nat
    decreases s.len(),
{
    if s.len() > 0 && in_class(class, s[0]) {
        1 + leading(s.drop_first(), class)
    } else {
        0
    }
}

/// The number of characters of the class that `s` ends with.
pub open spec fn trailing(s: Text, class: CharClass) -> nat
    decreases s.len(),
{
    if s.len() > 0 && in_class(class, s.last()) {
        1 + trailing(s.drop_last(), class)
    } else {
        0
    }
}

/// `s` without the characters of the class at its start.
pub open spec fn strip_start(s: Text, class: CharClass) -> Text {
    s.skip(leading(s, class) as int)
}

/// `s` without the characters of the class at its end.
pub open spec fn strip_end(s: Text, class: CharClass) -> Text {
    s.take(s.len() - trailing(s, class))
}

/// `s` without the characters of the class at both ends.
pub open spec fn strip(s: Text, class: CharClass) -> Text {
    strip_end(strip_start(s, class), class)
}

/// `s` without leading and trailing whitespace.
pub open spec fn trim(s: Text) -> Text {
    strip(s, CharClass::Whitespace)
}

/// The position of the first `c` in `s`, or the length of `s` if there is none.
pub open spec fn first_index_of(s: Text, c: char) -> nat
    decreases s.len(),
{
    if s.len() == 0 || s[0] == c {
        0
    } else {
        1 + first_index_of(s.drop_first(), c)
    }
}

/// Whether `s` begins with `p`.
pub open spec fn starts_with(s: Text, p: Text) -> bool {
    p.len() <= s.len() && s.take(p.len() as int) == p
}

/// Whether `s` ends with `p`.
pub open spec fn ends_with(s: Text, p: Text) -> bool {
    p.len() <= s.len() && s.skip(s.len() - p.len()) == p
}

/// The position at which `p` first occurs in `s`, if it occurs.
pub open spec fn first_occurrence(s: Text, p: Text) -> Option<nat>
    decreases s.len(),
{
    if starts_with(s, p) {
        Some(0)
    } else if s.len() == 0 {
        None
    } else {
        match first_occurrence(s.drop_first(), p) {
            Some(k) => Some(k + 1),
            None => None,
        }
    }
}

/// `s` without any repetitions of `p` at its end.
pub open spec fn strip_suffixes(s: Text, p: Text) -> Text
    decreases s.len(),
{
    if p.len() > 0 && ends_with(s, p) {
        strip_suffixes(s.take(s.len() - p.len()), p)
    } else {
        s
    }
}

/// `s` with every `from` replaced by the text `to`.
pub open spec fn replace_char(s: Text, from: char, to: Text) -> Text
    decreases s.len(),
{
    if s.len() == 0 {
        Seq::empty()
    } else if s.last() == from {
        replace_char(s.drop_last(), from, to) + to
    } else {
        replace_char(s.drop_last(), from, to).push(s.last())
    }
}

/// The parts joined, with `sep` between each two neighbours.
pub open spec fn join(parts: Seq<Text>, sep: Text) -> Text
    decreases parts.len(),
{
    if parts.len() == 0 {
        Seq::empty()
    } else if parts.len() == 1 {
        parts[0]
    } else {
        join(parts.drop_last(), sep) + sep + parts.last()
    }
}

/// The lines of `s`: the pieces between line feeds. A line feed at the very
/// end does not begin another line.
pub open spec fn lines(s: Text) -> Seq<Text>
    decreases s.len(),
{
    if s.len() == 0 {
        Seq::empty()
    } else {
        let n = first_index_of(s, '\n');
        if n < s.len() {
            seq![s.take(n as int)] + lines(s.skip(n as int + 1))
        } else {
            seq![s]
        }
    }
}

/// Whether `part` stands in `whole` at position `at`.
pub open spec fn occurs_at(whole: Text, part: Text, at: int) -> bool {
    0 <= at && at + part.len() <= whole.len() && whole.subrange(at, at + part.len()) == part
}

/// A text stands in itself at the start.
pub proof fn lemma_occurs_whole(part: Text)
    ensures
        occurs_at(part, part, 0),
{
    assert(part.subrange(0, part.len() as int) =~= part);
}

/// What stands in a text stands at the same place when more text follows.
pub proof fn lemma_occurs_before(whole: Text, after: Text, part: Text, at: int)
    requires
        occurs_at(whole, part, at),
    ensures
        occurs_at(whole + after, part, at),
{
    assert((whole + after).subrange(at, at + part.len()) =~= whole.subrange(at, at + part.len()));
}

/// What stands in a text stands further on when text is put before it.
pub proof fn lemma_occurs_behind(before: Text, whole: Text, part: Text, at: int)
    requires
        occurs_at(whole, part, at),
    ensures
        occurs_at(before + whole, part, before.len() + at),
{
    assert((before + whole).subrange(before.len() + at, before.len() + at + part.len())
        =~= whole.subrange(at, at + part.len()));
}

/// `true` or `false`, spelled out.
pub open spec fn bool_text(b: bool) -> Text {
    if b {
        "true"@
    } else {
        "false"@
    }
}

/// `leading` is the length of the longest run of the class at the start.
pub proof fn lemma_leading_is(s: Text, class: CharClass, n: nat)
    requires
        n <= s.len(),
        forall|i: int| 0 <= i < n ==> in_class(class, #[trigger] s[i]),
        n < s.len() ==> !in_class(class, s[n as int]),
    ensures
        leading(s, class) == n,
    decreases s.len(),
{
    if n > 0 {
        let t = s.drop_first();
        assert(in_class(class, s[0]));
        assert forall|i: int| 0 <= i < n - 1 implies in_class(class, #[trigger] t[i]) by {
            assert(t[i] == s[i + 1]);
        }
        lemma_leading_is(t, class, (n - 1) as nat);
    }
}

/// `trailing` is the length of the longest run of the class at the end.
pub proof fn lemma_trailing_is(s: Text, class: CharClass, n: nat)
    requires
        n <= s.len(),
        forall|i: int| s.len() - n <= i < s.len() ==> in_class(class, #[trigger] s[i]),
        n < s.len() ==> !in_class(class, s[s.len() - n - 1]),
    ensures
        trailing(s, class) == n,
    decreases s.len(),
{
    if n > 0 {
        let t = s.drop_last();
        assert(in_class(class, s[s.len() - 1]));
        assert forall|i: int| t.len() - (n - 1) <= i < t.len() implies in_class(
            class,
            #[trigger] t[i],
        ) by {
            assert(t[i] == s[i]);
        }
        lemma_trailing_is(t, class, (n - 1) as nat);
    }
}

/// Before `leading` stand characters of the class only, and at it, unless it
/// is the end, stands a character that is not of the class.
pub proof fn lemma_leading_run(s: Text, class: CharClass)
    ensures
        leading(s, class) <= s.len(),
        forall|i: int| 0 <= i < leading(s, class) ==> in_class(class, #[trigger] s[i]),
        leading(s, class) < s.len() ==> !in_class(class, s[leading(s, class) as int]),
    decreases s.len(),
{
    if s.len() > 0 && in_class(class, s[0]) {
        let t = s.drop_first();
        lemma_leading_run(t, class);
        assert forall|i: int| 0 <= i < leading(s, class) implies in_class(class, #[trigger] s[i]) by {
            if i > 0 {
                assert(s[i] == t[i - 1]);
            }
        }
        if leading(s, class) < s.len() {
            assert(s[leading(s, class) as int] == t[leading(t, class) as int]);
        }
    }
}

/// From `trailing` before the end on stand characters of the class only, and
/// before them, unless they are all, stands a character that is not of the
/// class.
pub proof fn lemma_trailing_run(s: Text, class: CharClass)
    ensures
        trailing(s, class) <= s.len(),
        forall|i: int|
            s.len() - trailing(s, class) <= i < s.len() ==> in_class(class, #[trigger] s[i]),
        trailing(s, class) < s.len() ==> !in_class(class, s[s.len() - trailing(s, class) - 1]),
    decreases s.len(),
{
    if s.len() > 0 && in_class(class, s.last()) {
        let t = s.drop_last();
        lemma_trailing_run(t, class);
        assert forall|i: int| s.len() - trailing(s, class) <= i < s.len() implies in_class(
            class,
            #[trigger] s[i],
        ) by {
            if i < s.len() - 1 {
                assert(s[i] == t[i]);
            }
        }
        if trailing(s, class) < s.len() {
            assert(s[s.len() - trailing(s, class) - 1] == t[t.len() - trailing(t, class) - 1]);
        }
    }
}

/// What is left after stripping neither begins nor ends with a character of
/// the class.
pub proof fn law_stripped_has_clean_ends(s: Text, class: CharClass)
    ensures
        strip(s, class).len() > 0 ==> !in_class(class, strip(s, class)[0]) && !in_class(
            class,
            strip(s, class).last(),
        ),
{
    let t = strip_start(s, class);
    lemma_leading_run(s, class);
    lemma_trailing_run(t, class);
    if strip(s, class).len() > 0 {
        assert(strip(s, class)[0] == t[0]);
        assert(t[0] == s[leading(s, class) as int]);
        assert(strip(s, class).last() == t[t.len() - trailing(t, class) - 1]);
    }
}

/// Stripping twice is stripping once. In particular trimming is idempotent.
pub proof fn law_strip_is_idempotent(s: Text, class: CharClass)
    ensures
        strip(strip(s, class), class) == strip(s, class),
{
    let once = strip(s, class);
    law_stripped_has_clean_ends(s, class);
    if once.len() > 0 {
        lemma_leading_is(once, class, 0);
        assert(strip_start(once, class) =~= once);
        lemma_trailing_is(once, class, 0);
        assert(strip_end(once, class) =~= once);
    } else {
        assert(strip_start(once, class) =~= once);
        assert(strip_end(once, class) =~= once);
    }
}

/// `first_index_of` is the one position before which no `c` stands and at
/// which, unless it is the end, a `c` stands.
pub proof fn lemma_first_index_is(s: Text, c: char, n: nat)
    requires
        n <= s.len(),
        forall|i: int| 0 <= i < n ==> #[trigger] s[i] != c,
        n < s.len() ==> s[n as int] == c,
    ensures
        first_index_of(s, c) == n,
    decreases s.len(),
{
    if n > 0 {
        let t = s.drop_first();
        assert(s[0] != c);
        assert forall|i: int| 0 <= i < n - 1 implies #[trigger] t[i] != c by {
            assert(t[i] == s[i + 1]);
        }
        lemma_first_index_is(t, c, (n - 1) as nat);
    }
}

/// `first_occurrence` is the one position at which `p` occurs and before which
/// it does not, and nothing if `p` occurs nowhere.
pub proof fn lemma_first_occurrence_is(s: Text, p: Text, n: nat)
    requires
        n <= s.len(),
        forall|i: int| 0 <= i < n ==> !starts_with(#[trigger] s.skip(i), p),
    ensures
        starts_with(s.skip(n as int), p) ==> first_occurrence(s, p) == Some(n),
        n == s.len() && !starts_with(s.skip(n as int), p) ==> first_occurrence(s, p) is None,
    decreases s.len(),
{
    assert(s.skip(0) =~= s);
    if n > 0 {
        let t = s.drop_first();
        assert forall|i: int| 0 <= i < n - 1 implies !starts_with(#[trigger] t.skip(i), p) by {
            assert(t.skip(i) =~= s.skip(i + 1));
        }
        assert(t.skip(n - 1) =~= s.skip(n as int));
        lemma_first_occurrence_is(t, p, (n - 1) as nat);
    }
}

/// The characters of `s`, in order.
pub fn chars_of(s: &str) -> (out: Vec<char>)
    ensures
        out@ == s@,
{
    let mut out: Vec<char> = Vec::new();
    for c in it: s.chars()
        invariant
            out@ == it.seq().take(it.index() as int),
            it.seq() == s@,
    {
        out.push(c);
    }
    out
}

/// Appends the characters of `chars` to `out`.
pub fn push_chars(out: &mut String, chars: &[char])
    ensures
        final(out)@ == old(out)@ + chars@,
{
    let mut i: usize = 0;
    assert(out@ =~= old(out)@ + chars@.take(0));
    while i < chars.len()
        invariant
            i <= chars.len(),
            out@ == old(out)@ + chars@.take(i as int),
        decreases chars.len() - i,
    {
        out.push(chars[i]);
        assert(out@ =~= old(out)@ + chars@.take(i + 1));
        i += 1;
    }
    assert(chars@.take(chars.len() as int) =~= chars@);
}

/// The text of `chars` as a `String`.
pub fn text_of(chars: &[char]) -> (out: String)
    ensures
        out@ == chars@,
{
    let mut out = String::new();
    push_chars(&mut out, chars);
    assert(Seq::<char>::empty() + chars@ =~= chars@);
    out
}

/// `s` from position `from` on.
pub fn skipped(s: &[char], from: usize) -> (out: &[char])
    requires
        from <= s.len(),
    ensures
        out@ == s@.skip(from as int),
{
    slice_subrange(s, from, s.len())
}

/// `s` up to position `to`.
pub fn taken(s: &[char], to: usize) -> (out: &[char])
    requires
        to <= s.len(),
    ensures
        out@ == s@.take(to as int),
{
    slice_subrange(s, 0, to)
}

/// Whether `c` is a whitespace character.
pub fn char_is_whitespace(c: char) -> (b: bool)
    ensures
        b == is_whitespace(c),
{
    let n: u32 = c as u32;
    (0x09 <= n && n <= 0x0D) || n == 0x20 || n == 0x85 || n == 0xA0 || n == 0x1680 || (0x2000 <= n
        && n <= 0x200A) || n == 0x2028 || n == 0x2029 || n == 0x202F || n == 0x205F || n == 0x3000
}

/// Whether `c` belongs to the class.
pub fn char_in_class(class: CharClass, c: char) -> (b: bool)
    ensures
        b == in_class(class, c),
{
    match class {
        CharClass::Whitespace => char_is_whitespace(c),
        CharClass::Only(only) => c == only,
    }
}

/// `s` without the characters of the class at its start.
pub fn stripped_start(s: &[char], class: CharClass) -> (out: &[char])
    ensures
        out@ == strip_start(s@, class),
{
    let mut start: usize = 0;
    while start < s.len() && char_in_class(class, s[start])
        invariant
            start <= s.len(),
            forall|i: int| 0 <= i < start ==> in_class(class, #[trigger] s@[i]),
        decreases s.len() - start,
    {
        start += 1;
    }
    proof {
        lemma_leading_is(s@, class, start as nat);
    }
    skipped(s, start)
}

/// `s` without the characters of the class at its end.
pub fn stripped_end(s: &[char], class: CharClass) -> (out: &[char])
    ensures
        out@ == strip_end(s@, class),
{
    let mut end: usize = s.len();
    while end > 0 && char_in_class(class, s[end - 1])
        invariant
            end <= s.len(),
            forall|i: int| end <= i < s.len() ==> in_class(class, #[trigger] s@[i]),
        decreases end,
    {
        end -= 1;
    }
    proof {
        lemma_trailing_is(s@, class, (s.len() - end) as nat);
    }
    taken(s, end)
}

/// `s` without the characters of the class at both ends.
pub fn stripped(s: &[char], class: CharClass) -> (out: &[char])
    ensures
        out@ == strip(s@, class),
{
    stripped_end(stripped_start(s, class), class)
}

/// `s` without leading and trailing whitespace.
pub fn trimmed_chars(s: &[char]) -> (out: &[char])
    ensures
        out@ == trim(s@),
{
    stripped(s, CharClass::Whitespace)
}

/// `s` without leading and trailing whitespace.
pub fn trimmed(s: &str) -> (out: String)
    ensures
        out@ == trim(s@),
{
    let chars = chars_of(s);
    text_of(trimmed_chars(chars.as_slice()))
}

/// The position of the first `c` in `s`, or the length of `s` if there is none.
pub fn index_of(s: &[char], c: char) -> (n: usize)
    ensures
        n == first_index_of(s@, c),
        n <= s.len(),
{
    let mut i: usize = 0;
    while i < s.len() && s[i] != c
        invariant
            i <= s.len(),
            forall|k: int| 0 <= k < i ==> #[trigger] s@[k] != c,
        decreases s.len() - i,
    {
        i += 1;
    }
    proof {
        lemma_first_index_is(s@, c, i as nat);
    }
    i
}

/// Whether `s` begins with `p`.
pub fn begins_with(s: &[char], p: &[char]) -> (b: bool)
    ensures
        b == starts_with(s@, p@),
{
    if p.len() > s.len() {
        return false;
    }
    let mut i: usize = 0;
    while i < p.len()
        invariant
            i <= p.len() <= s.len(),
            forall|k: int| 0 <= k < i ==> s@[k] == p@[k],
        decreases p.len() - i,
    {
        if s[i] != p[i] {
            assert(s@.take(p.len() as int)[i as int] != p@[i as int]);
            return false;
        }
        i += 1;
    }
    assert(s@.take(p.len() as int) =~= p@);
    true
}

/// Whether `s` ends with `p`.
pub fn finishes_with(s: &[char], p: &[char]) -> (b: bool)
    ensures
        b == ends_with(s@, p@),
{
    if p.len() > s.len() {
        return false;
    }
    let tail = skipped(s, s.len() - p.len());
    assert(tail@.take(p.len() as int) =~= tail@);
    begins_with(tail, p)
}

/// The position at which `p` first occurs in `s`, if it occurs.
pub fn find(s: &[char], p: &[char]) -> (r: Option<usize>)
    ensures
        match r {
            Some(n) => first_occurrence(s@, p@) == Some(n as nat) && n + p.len() <= s.len(),
            None => first_occurrence(s@, p@) is None,
        },
{
    let mut i: usize = 0;
    while i < s.len()
        invariant
            i <= s.len(),
            forall|k: int| 0 <= k < i ==> !starts_with(#[trigger] s@.skip(k), p@),
        decreases s.len() - i,
    {
        if begins_with(skipped(s, i), p) {
            proof {
                lemma_first_occurrence_is(s@, p@, i as nat);
            }
            return Some(i);
        }
        i += 1;
    }
    proof {
        lemma_first_occurrence_is(s@, p@, i as nat);
    }
    if begins_with(skipped(s, i), p) {
        Some(i)
    } else {
        None
    }
}

/// `s` without any repetitions of `p` at its end.
pub fn stripped_suffixes<'a>(s: &'a [char], p: &[char]) -> (out: &'a [char])
    ensures
        out@ == strip_suffixes(s@, p@),
{
    if p.len() == 0 {
        return s;
    }
    let mut rest = s;
    while finishes_with(rest, p)
        invariant
            p.len() > 0,
            strip_suffixes(rest@, p@) == strip_suffixes(s@, p@),
        decreases rest.len(),
    {
        rest = taken(rest, rest.len() - p.len());
    }
    rest
}

/// `s` with every `from` replaced by the text `to`.
pub fn replaced_in(s: &[char], from: char, to: &str) -> (out: String)
    ensures
        out@ == replace_char(s@, from, to@),
{
    let mut out = String::new();
    let mut i: usize = 0;
    while i < s.len()
        invariant
            i <= s.len(),
            out@ == replace_char(s@.take(i as int), from, to@),
        decreases s.len() - i,
    {
        assert(s@.take(i + 1).drop_last() =~= s@.take(i as int));
        if s[i] == from {
            out.append(to);
        } else {
            out.push(s[i]);
        }
        i += 1;
    }
    assert(s@.take(s.len() as int) =~= s@);
    out
}

/// `s` with every `from` replaced by the text `to`.
pub fn replaced_char(s: &str, from: char, to: &str) -> (out: String)
    ensures
        out@ == replace_char(s@, from, to@),
{
    let chars = chars_of(s);
    replaced_in(chars.as_slice(), from, to)
}

/// Whether the characters are those of the string slice.
pub fn is_text(s: &[char], text: &str) -> (same: bool)
    ensures
        same == (s@ == text@),
{
    let chars = chars_of(text);
    if s.len() != chars.len() {
        return false;
    }
    assert(s@.take(chars.len() as int) =~= s@);
    begins_with(s, chars.as_slice())
}

/// Whether `s` begins with the text of the string slice.
pub fn begins_with_text(s: &[char], text: &str) -> (b: bool)
    ensures
        b == starts_with(s@, text@),
{
    let chars = chars_of(text);
    begins_with(s, chars.as_slice())
}

/// The position at which the text of the string slice first occurs in `s`.
pub fn find_text(s: &[char], text: &str) -> (r: Option<usize>)
    ensures
        match r {
            Some(n) => first_occurrence(s@, text@) == Some(n as nat) && n + text@.len() <= s.len(),
            None => first_occurrence(s@, text@) is None,
        },
{
    let chars = chars_of(text);
    find(s, chars.as_slice())
}

/// `true` or `false`, spelled out.
pub fn bool_string(b: bool) -> (out: String)
    ensures
        out@ == bool_text(b),
{
    if b {
        String::from_str("true")
    } else {
        String::from_str("false")
    }
}

/// Whether two string slices hold the same text.
pub fn same_text(a: &str, b: &str) -> (same: bool)
    ensures
        same == (a@ == b@),
{
    let x = String::from_str(a);
    let y = String::from_str(b);
    x == y
}

} // verus!
