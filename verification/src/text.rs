//! Characters and strings: what the rest of the library says about text, as
//! functions on sequences of characters, and the code that computes it.
use vstd::prelude::*;
use vstd::string::*;

verus! {

/// `String::push` puts one character behind the text.
pub assume_specification[ String::push ](text: &mut String, character: char)
    ensures
        final(text)@ == old(text)@.push(character),
;

/// The text that some bytes hold, where what is no UTF-8 is replaced.
pub uninterp spec fn lossy_text(bytes: Seq<u8>) -> Seq<char>;

/// `String::from_utf8_lossy` turns bytes into text. Bytes that are UTF-8 are
/// decoded; what stands in place of others is left to the name.
#[verifier::external_body]
pub(crate) fn lossy(bytes: &[u8]) -> (result: String)
    ensures
        result@ == lossy_text(bytes@),
        vstd::utf8::valid_utf8(bytes@) ==> result@ == vstd::utf8::decode_utf8(bytes@),
{
    String::from_utf8_lossy(bytes).into_owned()
}

/// A text in lower case, by Unicode's rules.
pub uninterp spec fn lower_case(text: Seq<char>) -> Seq<char>;

/// `str::to_lowercase` gives the lower-case form of a text.
#[verifier::external_body]
pub(crate) fn to_lowercase(text: &str) -> (result: String)
    ensures
        result@ == lower_case(text@),
{
    text.to_lowercase()
}

// ---------------------------------------------------------------------------
// Characters
// ---------------------------------------------------------------------------
/// The characters with Unicode's `White_Space` property.
pub open spec fn is_space(c: char) -> bool {
    ||| '\u{9}' <= c <= '\u{d}'
    ||| c == ' '
    ||| c == '\u{85}'
    ||| c == '\u{a0}'
    ||| c == '\u{1680}'
    ||| '\u{2000}' <= c <= '\u{200a}'
    ||| c == '\u{2028}'
    ||| c == '\u{2029}'
    ||| c == '\u{202f}'
    ||| c == '\u{205f}'
    ||| c == '\u{3000}'
}

pub fn is_whitespace(c: char) -> (result: bool)
    ensures
        result == is_space(c),
{
    ('\u{9}' <= c && c <= '\u{d}') || c == ' ' || c == '\u{85}' || c == '\u{a0}' || c == '\u{1680}'
        || ('\u{2000}' <= c && c <= '\u{200a}') || c == '\u{2028}' || c == '\u{2029}' || c
        == '\u{202f}' || c == '\u{205f}' || c == '\u{3000}'
}

pub open spec fn is_digit(c: char) -> bool {
    '0' <= c <= '9'
}

pub open spec fn is_alphanumeric(c: char) -> bool {
    is_digit(c) || 'a' <= c <= 'z' || 'A' <= c <= 'Z'
}

pub fn is_ascii_digit(c: char) -> (result: bool)
    ensures
        result == is_digit(c),
{
    '0' <= c && c <= '9'
}

pub fn is_ascii_alphanumeric(c: char) -> (result: bool)
    ensures
        result == is_alphanumeric(c),
{
    is_ascii_digit(c) || ('a' <= c && c <= 'z') || ('A' <= c && c <= 'Z')
}

/// The ASCII lower-case form of a character; others stay as they are.
pub open spec fn lower(c: char) -> char {
    if 'A' <= c <= 'Z' {
        ((c as u8) + 32) as char
    } else {
        c
    }
}

pub fn to_lower(c: char) -> (result: char)
    ensures
        result == lower(c),
{
    if 'A' <= c && c <= 'Z' {
        ((c as u8) + 32) as char
    } else {
        c
    }
}

// ---------------------------------------------------------------------------
// Strings and sequences of characters
// ---------------------------------------------------------------------------
/// The characters of a string, in order.
pub fn chars_of(text: &str) -> (result: Vec<char>)
    ensures
        result@ == text@,
{
    let mut result: Vec<char> = Vec::new();
    for c in it: text.chars()
        invariant
            it.seq() == text@,
            result@ == text@.take(it.index() as int),
    {
        result.push(c);
    }
    result
}

/// The string that consists of the given characters.
pub fn string_of(chars: &[char]) -> (result: String)
    ensures
        result@ == chars@,
{
    let mut result = String::new();
    for i in 0..chars.len()
        invariant
            result@ == chars@.take(i as int),
    {
        result.push(chars[i]);
    }
    result
}

/// Whether two strings hold the same characters.
pub fn same(a: &str, b: &str) -> (result: bool)
    ensures
        result == (a@ == b@),
{
    a.to_owned() == b.to_owned()
}

/// Whether an optional string is the given one.
pub fn is_text(value: &Option<String>, text: &str) -> (result: bool)
    ensures
        result == (value.deep_view() == Some(text@)),
{
    match value {
        Some(value) => same(value.as_str(), text),
        None => false,
    }
}

/// The first text behind which the second stands.
pub fn concat(a: &str, b: &str) -> (result: String)
    ensures
        result@ == a@ + b@,
{
    let mut result = a.to_owned();
    result.append(b);
    result
}

pub fn concat3(a: &str, b: &str, c: &str) -> (result: String)
    ensures
        result@ == a@ + b@ + c@,
{
    let mut result = a.to_owned();
    result.append(b);
    result.append(c);
    result
}

pub fn concat4(a: &str, b: &str, c: &str, d: &str) -> (result: String)
    ensures
        result@ == a@ + b@ + c@ + d@,
{
    let mut result = a.to_owned();
    result.append(b);
    result.append(c);
    result.append(d);
    result
}

pub fn concat6(a: &str, b: &str, c: &str, d: &str, e: &str, f: &str) -> (result: String)
    ensures
        result@ == a@ + b@ + c@ + d@ + e@ + f@,
{
    let mut result = concat5(a, b, c, d, e);
    result.append(f);
    result
}

pub fn concat7(a: &str, b: &str, c: &str, d: &str, e: &str, f: &str, g: &str) -> (result: String)
    ensures
        result@ == a@ + b@ + c@ + d@ + e@ + f@ + g@,
{
    let mut result = concat6(a, b, c, d, e, f);
    result.append(g);
    result
}

pub fn concat5(a: &str, b: &str, c: &str, d: &str, e: &str) -> (result: String)
    ensures
        result@ == a@ + b@ + c@ + d@ + e@,
{
    let mut result = a.to_owned();
    result.append(b);
    result.append(c);
    result.append(d);
    result.append(e);
    result
}

/// A copy of an optional string.
pub fn copy_option(value: &Option<String>) -> (result: Option<String>)
    ensures
        result.deep_view() == value.deep_view(),
        result == *value,
{
    match value {
        Some(value) => Some(value.clone()),
        None => None,
    }
}

/// A copy of a list of strings.
pub fn copy_list(values: &Vec<String>) -> (result: Vec<String>)
    ensures
        result.deep_view() == values.deep_view(),
        result@ == values@,
{
    let mut result: Vec<String> = Vec::new();
    for i in 0..values.len()
        invariant
            result@ == values@.take(i as int),
    {
        result.push(values[i].clone());
    }
    assert(result@ == values@);
    result
}

/// Pushing onto a list pushes onto its deep view.
pub broadcast proof fn lemma_deep_push<T: DeepView>(before: Vec<T>, after: Vec<T>, value: T)
    requires
        after@ == #[trigger] before@.push(value),
    ensures
        #[trigger] after.deep_view() == before.deep_view().push(value.deep_view()),
{
    assert(after.deep_view() =~= before.deep_view().push(value.deep_view()));
}

/// A list of strings with the given texts.
pub fn strings(values: &[&str]) -> (result: Vec<String>)
    ensures
        result.deep_view() == values.deep_view(),
{
    broadcast use lemma_deep_push;

    let mut result: Vec<String> = Vec::new();
    assert(result.deep_view() == values.deep_view().take(0));
    for i in 0..values.len()
        invariant
            result.deep_view() == values.deep_view().take(i as int),
    {
        assert(values.deep_view().take(i + 1) == values.deep_view().take(i as int).push(
            values@[i as int]@,
        ));
        result.push(values[i].to_owned());
    }
    assert(values.deep_view().take(values@.len() as int) == values.deep_view());
    result
}

pub fn texts1(a: &str) -> (result: Vec<String>)
    ensures
        result.deep_view() == seq![a@],
{
    let result = strings(&[a]);
    assert(result.deep_view() == seq![a@]);
    result
}

pub fn texts2(a: &str, b: &str) -> (result: Vec<String>)
    ensures
        result.deep_view() == seq![a@, b@],
{
    let result = strings(&[a, b]);
    assert(result.deep_view() == seq![a@, b@]);
    result
}

pub fn texts3(a: &str, b: &str, c: &str) -> (result: Vec<String>)
    ensures
        result.deep_view() == seq![a@, b@, c@],
{
    let result = strings(&[a, b, c]);
    assert(result.deep_view() == seq![a@, b@, c@]);
    result
}

pub fn texts4(a: &str, b: &str, c: &str, d: &str) -> (result: Vec<String>)
    ensures
        result.deep_view() == seq![a@, b@, c@, d@],
{
    let result = strings(&[a, b, c, d]);
    assert(result.deep_view() == seq![a@, b@, c@, d@]);
    result
}

pub fn texts5(a: &str, b: &str, c: &str, d: &str, e: &str) -> (result: Vec<String>)
    ensures
        result.deep_view() == seq![a@, b@, c@, d@, e@],
{
    let result = strings(&[a, b, c, d, e]);
    assert(result.deep_view() == seq![a@, b@, c@, d@, e@]);
    result
}

/// The texts of a list that are not some text.
pub open spec fn without_text(list: Seq<Seq<char>>, text: Seq<char>) -> Seq<Seq<char>>
    decreases list.len(),
{
    if list.len() == 0 {
        Seq::empty()
    } else if list.last() == text {
        without_text(list.drop_last(), text)
    } else {
        without_text(list.drop_last(), text).push(list.last())
    }
}

pub fn drop_text(list: &Vec<String>, text: &str) -> (result: Vec<String>)
    ensures
        result.deep_view() == without_text(list.deep_view(), text@),
{
    let ghost all = list.deep_view();
    let mut result: Vec<String> = empty_list();
    for i in 0..list.len()
        invariant
            all == list.deep_view(),
            result.deep_view() == without_text(all.take(i as int), text@),
    {
        assert(all.take(i + 1).drop_last() == all.take(i as int));
        assert(all.take(i + 1).last() == list@[i as int]@);
        if !same(list[i].as_str(), text) {
            push_text(&mut result, list[i].as_str());
        }
    }
    assert(all.take(all.len() as int) == all);
    result
}

/// Whether a text is in a list.
pub fn has_text(list: &Vec<String>, text: &str) -> (result: bool)
    ensures
        result == list.deep_view().contains(text@),
{
    let ghost all = list.deep_view();
    for i in 0..list.len()
        invariant
            all == list.deep_view(),
            forall|j: int| 0 <= j < i ==> #[trigger] all[j] != text@,
    {
        assert(all[i as int] == list@[i as int]@);
        if same(list[i].as_str(), text) {
            return true;
        }
    }
    false
}

/// The texts of a list that are, or are not, in another.
pub open spec fn members(list: Seq<Seq<char>>, other: Seq<Seq<char>>, inside: bool) -> Seq<Seq<char>>
    decreases list.len(),
{
    if list.len() == 0 {
        Seq::empty()
    } else if other.contains(list.last()) == inside {
        members(list.drop_last(), other, inside).push(list.last())
    } else {
        members(list.drop_last(), other, inside)
    }
}

pub fn keep_members(list: &Vec<String>, other: &Vec<String>, inside: bool) -> (result: Vec<String>)
    ensures
        result.deep_view() == members(list.deep_view(), other.deep_view(), inside),
{
    let ghost all = list.deep_view();
    let mut result: Vec<String> = empty_list();
    for i in 0..list.len()
        invariant
            all == list.deep_view(),
            result.deep_view() == members(all.take(i as int), other.deep_view(), inside),
    {
        assert(all.take(i + 1).drop_last() == all.take(i as int));
        assert(all.take(i + 1).last() == list@[i as int]@);
        if has_text(other, list[i].as_str()) == inside {
            push_text(&mut result, list[i].as_str());
        }
    }
    assert(all.take(all.len() as int) == all);
    result
}

pub proof fn lemma_without_text(list: Seq<Seq<char>>, text: Seq<char>)
    ensures
        !without_text(list, text).contains(text),
        forall|x: Seq<char>|
            without_text(list, text).contains(x) ==> #[trigger] list.contains(x) && x != text,
        list.no_duplicates() ==> without_text(list, text).no_duplicates(),
    decreases list.len(),
{
    if list.len() > 0 {
        let front = list.drop_last();
        lemma_without_text(front, text);
        let kept = without_text(front, text);
        let result = without_text(list, text);
        assert forall|x: Seq<char>| result.contains(x) implies #[trigger] list.contains(x) && x
            != text by {
            if kept.contains(x) {
                assert(front.contains(x));
                let i = choose|i: int| 0 <= i < front.len() && front[i] == x;
                assert(list[i] == x);
            } else {
                let i = choose|i: int| 0 <= i < result.len() && result[i] == x;
                assert(i == kept.len());
                assert(list[list.len() - 1] == x);
            }
        }
        if list.no_duplicates() {
            assert(front.no_duplicates());
            if kept.contains(list.last()) {
                assert(front.contains(list.last()));
                let i = choose|i: int| 0 <= i < front.len() && front[i] == list.last();
                assert(list[i] == list[list.len() - 1]);
            }
        }
    }
}

pub proof fn lemma_members(list: Seq<Seq<char>>, other: Seq<Seq<char>>, inside: bool)
    ensures
        forall|x: Seq<char>|
            members(list, other, inside).contains(x) ==> #[trigger] list.contains(x)
                && other.contains(x) == inside,
        list.no_duplicates() ==> members(list, other, inside).no_duplicates(),
    decreases list.len(),
{
    if list.len() > 0 {
        let front = list.drop_last();
        lemma_members(front, other, inside);
        let kept = members(front, other, inside);
        let result = members(list, other, inside);
        assert forall|x: Seq<char>| result.contains(x) implies #[trigger] list.contains(x)
            && other.contains(x) == inside by {
            if kept.contains(x) {
                assert(front.contains(x));
                let i = choose|i: int| 0 <= i < front.len() && front[i] == x;
                assert(list[i] == x);
            } else {
                let i = choose|i: int| 0 <= i < result.len() && result[i] == x;
                assert(i == kept.len());
                assert(list[list.len() - 1] == x);
            }
        }
        if list.no_duplicates() {
            assert(front.no_duplicates());
            if kept.contains(list.last()) {
                assert(front.contains(list.last()));
                let i = choose|i: int| 0 <= i < front.len() && front[i] == list.last();
                assert(list[i] == list[list.len() - 1]);
            }
        }
    }
}

/// Puts the strings of a list behind those of another.
pub fn extend(list: &mut Vec<String>, more: &Vec<String>)
    ensures
        final(list).deep_view() == old(list).deep_view() + more.deep_view(),
{
    broadcast use lemma_deep_push;

    let ghost start = list.deep_view();
    assert(start == start + more.deep_view().take(0));
    for i in 0..more.len()
        invariant
            list.deep_view() == start + more.deep_view().take(i as int),
    {
        assert(start + more.deep_view().take(i + 1) == (start + more.deep_view().take(
            i as int,
        )).push(more@[i as int]@));
        list.push(more[i].clone());
    }
    assert(more.deep_view().take(more@.len() as int) == more.deep_view());
}

/// Each value of a list with a flag before it.
pub open spec fn flagged(flag: Seq<char>, values: Seq<Seq<char>>) -> Seq<Seq<char>>
    decreases values.len(),
{
    if values.len() == 0 {
        Seq::empty()
    } else {
        flagged(flag, values.drop_last()).push(flag).push(values.last())
    }
}

/// Puts a text behind the strings of a list.
pub fn push_text(list: &mut Vec<String>, value: &str)
    ensures
        final(list).deep_view() == old(list).deep_view().push(value@),
{
    let ghost start = *list;
    let owned = value.to_owned();
    list.push(owned);
    assert(list@ == start@.push(owned));
    assert(list.deep_view() =~= start.deep_view().push(value@));
}

/// Puts a member behind those of a list.
pub fn push_deep<T: DeepView>(list: &mut Vec<T>, item: T)
    ensures
        final(list).deep_view() == old(list).deep_view().push(item.deep_view()),
        final(list)@ == old(list)@.push(item),
{
    let ghost start = *list;
    list.push(item);
    assert(list.deep_view() =~= start.deep_view().push(item.deep_view()));
}

/// A list with no members.
pub fn empty_list<T: DeepView>() -> (result: Vec<T>)
    ensures
        result.deep_view() == Seq::<T::V>::empty(),
        result@ == Seq::<T>::empty(),
{
    let result: Vec<T> = Vec::new();
    assert(result.deep_view() =~= Seq::<T::V>::empty());
    result
}

/// Puts the values of a list behind another, each with a flag before it.
pub fn extend_flagged(list: &mut Vec<String>, flag: &str, values: &Vec<String>)
    ensures
        final(list).deep_view() == old(list).deep_view() + flagged(flag@, values.deep_view()),
{
    broadcast use lemma_deep_push;

    let ghost start = list.deep_view();
    assert(start == start + flagged(flag@, values.deep_view().take(0)));
    for i in 0..values.len()
        invariant
            list.deep_view() == start + flagged(flag@, values.deep_view().take(i as int)),
    {
        assert(values.deep_view().take(i + 1).drop_last() == values.deep_view().take(i as int));
        let ghost done = flagged(flag@, values.deep_view().take(i as int));
        push_text(list, flag);
        assert(list.deep_view() == start + done.push(flag@));
        push_text(list, values[i].as_str());
        assert(list.deep_view() == start + done.push(flag@).push(values@[i as int]@));
    }
    assert(values.deep_view().take(values@.len() as int) == values.deep_view());
}

/// The texts that do not start with a prefix.
pub open spec fn without_prefixed(values: Seq<Seq<char>>, prefix: Seq<char>) -> Seq<Seq<char>>
    decreases values.len(),
{
    if values.len() == 0 {
        values
    } else if prefix.is_prefix_of(values.last()) {
        without_prefixed(values.drop_last(), prefix)
    } else {
        without_prefixed(values.drop_last(), prefix).push(values.last())
    }
}

pub fn drop_prefixed(values: &Vec<String>, prefix: &str) -> (result: Vec<String>)
    ensures
        result.deep_view() == without_prefixed(values.deep_view(), prefix@),
{
    broadcast use lemma_deep_push;

    let mut result: Vec<String> = Vec::new();
    assert(result.deep_view() == Seq::<Seq<char>>::empty());
    for i in 0..values.len()
        invariant
            result.deep_view() == without_prefixed(values.deep_view().take(i as int), prefix@),
    {
        assert(values.deep_view().take(i + 1).drop_last() == values.deep_view().take(i as int));
        if !starts_with(values[i].as_str(), prefix) {
            result.push(values[i].clone());
        }
    }
    assert(values.deep_view().take(values@.len() as int) == values.deep_view());
    result
}

/// The deep view of a result.
pub open spec fn outcome<T: DeepView, E: DeepView>(result: Result<T, E>) -> Result<T::V, E::V> {
    match result {
        Ok(value) => Ok(value.deep_view()),
        Err(error) => Err(error.deep_view()),
    }
}

// ---------------------------------------------------------------------------
// Case
// ---------------------------------------------------------------------------
pub open spec fn lowered(text: Seq<char>) -> Seq<char> {
    text.map_values(|c: char| lower(c))
}

pub fn to_ascii_lowercase(text: &str) -> (result: String)
    ensures
        result@ == lowered(text@),
{
    let chars = chars_of(text);
    let mut result = String::new();
    for i in 0..chars.len()
        invariant
            chars@ == text@,
            result@ == lowered(text@.take(i as int)),
    {
        result.push(to_lower(chars[i]));
    }
    result
}

pub fn eq_ignore_ascii_case(a: &str, b: &str) -> (result: bool)
    ensures
        result == (lowered(a@) == lowered(b@)),
{
    to_ascii_lowercase(a) == to_ascii_lowercase(b)
}

// ---------------------------------------------------------------------------
// Trimming
// ---------------------------------------------------------------------------
/// A text without the white space at its start.
pub open spec fn trimmed_start(text: Seq<char>) -> Seq<char>
    decreases text.len(),
{
    if text.len() > 0 && is_space(text.first()) {
        trimmed_start(text.drop_first())
    } else {
        text
    }
}

/// A text without the white space at its end.
pub open spec fn trimmed_end(text: Seq<char>) -> Seq<char>
    decreases text.len(),
{
    if text.len() > 0 && is_space(text.last()) {
        trimmed_end(text.drop_last())
    } else {
        text
    }
}

/// A text without the white space at either end.
pub open spec fn trimmed(text: Seq<char>) -> Seq<char> {
    trimmed_end(trimmed_start(text))
}

pub fn trim_start(text: &str) -> (result: &str)
    ensures
        result@ == trimmed_start(text@),
{
    let chars = chars_of(text);
    let mut from: usize = 0;
    assert(text@.skip(0) == text@);
    while from < chars.len() && is_whitespace(chars[from])
        invariant
            from <= chars.len(),
            chars@ == text@,
            trimmed_start(text@) == trimmed_start(text@.skip(from as int)),
        decreases chars.len() - from,
    {
        assert(text@.skip(from as int).drop_first() == text@.skip(from + 1));
        from += 1;
    }
    assert(text@.skip(from as int) == text@.subrange(from as int, text@.len() as int));
    text.substring_char(from, chars.len())
}

pub fn trim_end(text: &str) -> (result: &str)
    ensures
        result@ == trimmed_end(text@),
{
    let chars = chars_of(text);
    let mut to: usize = chars.len();
    assert(text@.take(to as int) == text@);
    while to > 0 && is_whitespace(chars[to - 1])
        invariant
            to <= chars.len(),
            chars@ == text@,
            trimmed_end(text@) == trimmed_end(text@.take(to as int)),
        decreases to,
    {
        assert(text@.take(to as int).drop_last() == text@.take(to - 1));
        to -= 1;
    }
    assert(text@.take(to as int) == text@.subrange(0, to as int));
    text.substring_char(0, to)
}

pub fn trim(text: &str) -> (result: &str)
    ensures
        result@ == trimmed(text@),
{
    trim_end(trim_start(text))
}

/// Whether nothing but white space is in the text.
pub open spec fn is_blank(text: Seq<char>) -> bool {
    trimmed(text).len() == 0
}

pub fn blank(text: &str) -> (result: bool)
    ensures
        result == is_blank(text@),
{
    trim(text).is_empty()
}

/// An optional text, trimmed; one that is blank counts as absent.
pub open spec fn present(value: Option<Seq<char>>) -> Option<Seq<char>> {
    match value {
        Some(text) if !is_blank(text) => Some(trimmed(text)),
        _ => None,
    }
}

pub fn present_text(value: &Option<String>) -> (result: Option<String>)
    ensures
        result.deep_view() == present(value.deep_view()),
{
    match value {
        Some(text) => {
            let text = trim(text.as_str());
            if text.is_empty() {
                None
            } else {
                Some(text.to_owned())
            }
        },
        None => None,
    }
}

// ---------------------------------------------------------------------------
// Splitting and joining
// ---------------------------------------------------------------------------
/// The pieces between the characters for which `separates` holds.
pub open spec fn pieces(text: Seq<char>, separates: spec_fn(char) -> bool) -> Seq<Seq<char>>
    decreases text.len(),
{
    if text.len() == 0 {
        seq![Seq::<char>::empty()]
    } else {
        let before = pieces(text.drop_last(), separates);
        if separates(text.last()) {
            before.push(Seq::<char>::empty())
        } else {
            before.drop_last().push(before.last().push(text.last()))
        }
    }
}

/// The test for one character.
pub open spec fn is_char(separator: char) -> spec_fn(char) -> bool {
    |c: char| c == separator
}

/// The test for white space.
pub open spec fn is_any_space() -> spec_fn(char) -> bool {
    |c: char| is_space(c)
}

/// The pieces between the occurrences of a separator.
pub open spec fn split_at(text: Seq<char>, separator: char) -> Seq<Seq<char>> {
    pieces(text, is_char(separator))
}

pub proof fn lemma_pieces_nonempty(text: Seq<char>, separates: spec_fn(char) -> bool)
    ensures
        pieces(text, separates).len() > 0,
    decreases text.len(),
{
    if text.len() > 0 {
        lemma_pieces_nonempty(text.drop_last(), separates);
    }
}

pub fn split(text: &str, separator: char) -> (result: Vec<String>)
    ensures
        result.deep_view() == split_at(text@, separator),
        result@.len() > 0,
{
    broadcast use lemma_deep_push;

    let chars = chars_of(text);
    let ghost separates = is_char(separator);
    let mut done: Vec<String> = Vec::new();
    let mut current = String::new();
    assert(done.deep_view().push(current@) == seq![Seq::<char>::empty()]);
    for i in 0..chars.len()
        invariant
            chars@ == text@,
            separates == is_char(separator),
            done.deep_view().push(current@) == pieces(text@.take(i as int), separates),
    {
        assert(text@.take(i + 1).drop_last() == text@.take(i as int));
        let ghost before = done.deep_view().push(current@);
        assert(before.drop_last() == done.deep_view());
        if chars[i] == separator {
            done.push(current);
            current = String::new();
        } else {
            current.push(chars[i]);
        }
    }
    assert(text@.take(text@.len() as int) == text@);
    done.push(current);
    done
}

/// The texts that are not empty.
pub open spec fn without_empty(parts: Seq<Seq<char>>) -> Seq<Seq<char>>
    decreases parts.len(),
{
    if parts.len() == 0 {
        parts
    } else if parts.last().len() == 0 {
        without_empty(parts.drop_last())
    } else {
        without_empty(parts.drop_last()).push(parts.last())
    }
}

pub fn drop_empty(parts: Vec<String>) -> (result: Vec<String>)
    ensures
        result.deep_view() == without_empty(parts.deep_view()),
{
    broadcast use lemma_deep_push;

    let mut result: Vec<String> = Vec::new();
    assert(result.deep_view() == Seq::<Seq<char>>::empty());
    for i in 0..parts.len()
        invariant
            result.deep_view() == without_empty(parts.deep_view().take(i as int)),
    {
        assert(parts.deep_view().take(i + 1).drop_last() == parts.deep_view().take(i as int));
        if !parts[i].as_str().is_empty() {
            result.push(parts[i].clone());
        }
    }
    assert(parts.deep_view().take(parts@.len() as int) == parts.deep_view());
    result
}

/// The maximal runs of characters that are not white space.
pub open spec fn words_of(text: Seq<char>) -> Seq<Seq<char>> {
    without_empty(pieces(text, is_any_space()))
}

pub fn split_whitespace(text: &str) -> (result: Vec<String>)
    ensures
        result.deep_view() == words_of(text@),
{
    broadcast use lemma_deep_push;

    let chars = chars_of(text);
    let ghost separates = is_any_space();
    let mut done: Vec<String> = Vec::new();
    let mut current = String::new();
    assert(done.deep_view().push(current@) == seq![Seq::<char>::empty()]);
    for i in 0..chars.len()
        invariant
            chars@ == text@,
            separates == is_any_space(),
            done.deep_view().push(current@) == pieces(text@.take(i as int), separates),
    {
        assert(text@.take(i + 1).drop_last() == text@.take(i as int));
        let ghost before = done.deep_view().push(current@);
        assert(before.drop_last() == done.deep_view());
        if is_whitespace(chars[i]) {
            done.push(current);
            current = String::new();
        } else {
            current.push(chars[i]);
        }
    }
    assert(text@.take(text@.len() as int) == text@);
    done.push(current);
    drop_empty(done)
}

/// A line without the carriage return that may stand before its line feed.
pub open spec fn without_return(line: Seq<char>) -> Seq<char> {
    if line.len() > 0 && line.last() == '\r' {
        line.drop_last()
    } else {
        line
    }
}

/// The lines of a text. A line ends in a line feed or in a carriage return and
/// a line feed; the end of the last line is optional.
pub open spec fn lines_of(text: Seq<char>) -> Seq<Seq<char>> {
    let parts = split_at(text, '\n');
    let ended = parts.drop_last().map_values(|line: Seq<char>| without_return(line));
    if parts.last().len() == 0 {
        ended
    } else {
        ended.push(parts.last())
    }
}

pub fn lines(text: &str) -> (result: Vec<String>)
    ensures
        result.deep_view() == lines_of(text@),
{
    broadcast use lemma_deep_push;

    let parts = split(text, '\n');
    let ghost ended = parts.deep_view().drop_last().map_values(
        |line: Seq<char>| without_return(line),
    );
    let mut result: Vec<String> = Vec::new();
    assert(result.deep_view() == Seq::<Seq<char>>::empty());
    let last: usize = parts.len() - 1;
    for i in 0..last
        invariant
            last == parts@.len() - 1,
            ended == parts.deep_view().drop_last().map_values(
                |line: Seq<char>| without_return(line),
            ),
            result.deep_view() == ended.take(i as int),
    {
        let line = parts[i].as_str();
        let count: usize = line.unicode_len();
        assert(ended.take(i + 1) == ended.take(i as int).push(without_return(line@)));
        if count > 0 && line.get_char(count - 1) == '\r' {
            assert(line@.drop_last() == line@.subrange(0, count - 1));
            result.push(line.substring_char(0, count - 1).to_owned());
        } else {
            result.push(line.to_owned());
        }
    }
    assert(ended.take(last as int) == ended);
    if !parts[last].as_str().is_empty() {
        result.push(parts[last].clone());
    }
    result
}

/// The texts one behind the other, with a separator between neighbours.
pub open spec fn joined(parts: Seq<Seq<char>>, separator: Seq<char>) -> Seq<char>
    decreases parts.len(),
{
    if parts.len() == 0 {
        Seq::empty()
    } else if parts.len() == 1 {
        parts[0]
    } else {
        joined(parts.drop_last(), separator) + separator + parts.last()
    }
}

pub fn join(parts: &Vec<String>, separator: &str) -> (result: String)
    ensures
        result@ == joined(parts.deep_view(), separator@),
{
    let mut result = String::new();
    for i in 0..parts.len()
        invariant
            result@ == joined(parts.deep_view().take(i as int), separator@),
    {
        let ghost head = parts.deep_view().take(i + 1);
        assert(head.drop_last() == parts.deep_view().take(i as int));
        if i > 0 {
            result.append(separator);
        }
        result.append(parts[i].as_str());
    }
    assert(parts.deep_view().take(parts@.len() as int) == parts.deep_view());
    result
}

// ---------------------------------------------------------------------------
// Searching
// ---------------------------------------------------------------------------
/// Whether `needle` stands somewhere in `text`.
pub open spec fn occurs(text: Seq<char>, needle: Seq<char>) -> bool {
    exists|i: int|
        0 <= i <= text.len() - needle.len() && #[trigger] text.subrange(i, i + needle.len())
            == needle
}

fn stands_at(text: &Vec<char>, needle: &Vec<char>, at: usize) -> (result: bool)
    requires
        at + needle.len() <= text.len(),
    ensures
        result == (text@.subrange(at as int, at + needle@.len()) == needle@),
{
    for i in 0..needle.len()
        invariant
            at + needle.len() <= text.len(),
            forall|j: int| 0 <= j < i ==> text@[at + j] == needle@[j],
    {
        if text[at + i] != needle[i] {
            assert(text@.subrange(at as int, at + needle@.len())[i as int] != needle@[i as int]);
            return false;
        }
    }
    assert(text@.subrange(at as int, at + needle@.len()) =~= needle@);
    true
}

pub fn contains(text: &str, needle: &str) -> (result: bool)
    ensures
        result == occurs(text@, needle@),
{
    let text_chars = chars_of(text);
    let needle_chars = chars_of(needle);
    if needle_chars.len() > text_chars.len() {
        return false;
    }
    let count: usize = text_chars.len() - needle_chars.len();
    let mut at: usize = count;
    if stands_at(&text_chars, &needle_chars, at) {
        assert(text@.subrange(at as int, at + needle@.len()) == needle@);
        return true;
    }
    while at > 0
        invariant
            at <= count,
            text_chars@ == text@,
            needle_chars@ == needle@,
            count == text@.len() - needle@.len(),
            forall|i: int|
                at <= i <= count ==> #[trigger] text@.subrange(i, i + needle@.len()) != needle@,
        decreases at,
    {
        at -= 1;
        if stands_at(&text_chars, &needle_chars, at) {
            assert(text@.subrange(at as int, at + needle@.len()) == needle@);
            return true;
        }
    }
    false
}

pub fn contains_char(text: &str, c: char) -> (result: bool)
    ensures
        result == text@.contains(c),
{
    let chars = chars_of(text);
    for i in 0..chars.len()
        invariant
            chars@ == text@,
            forall|j: int| 0 <= j < i ==> text@[j] != c,
    {
        if chars[i] == c {
            assert(text@[i as int] == c);
            return true;
        }
    }
    false
}

pub fn starts_with(text: &str, prefix: &str) -> (result: bool)
    ensures
        result == prefix@.is_prefix_of(text@),
{
    let text_chars = chars_of(text);
    let prefix_chars = chars_of(prefix);
    if prefix_chars.len() > text_chars.len() {
        return false;
    }
    stands_at(&text_chars, &prefix_chars, 0)
}

/// What follows a prefix, for a text that starts with it.
pub open spec fn after_prefix(text: Seq<char>, prefix: Seq<char>) -> Option<Seq<char>> {
    if prefix.is_prefix_of(text) {
        Some(text.skip(prefix.len() as int))
    } else {
        None
    }
}

pub fn strip_prefix<'a>(text: &'a str, prefix: &str) -> (result: Option<&'a str>)
    ensures
        result.deep_view() == after_prefix(text@, prefix@),
{
    if starts_with(text, prefix) {
        let from: usize = prefix.unicode_len();
        let to: usize = text.unicode_len();
        assert(text@.skip(from as int) == text@.subrange(from as int, to as int));
        Some(text.substring_char(from, to))
    } else {
        None
    }
}

/// What is left of a text once a prefix has been taken off as often as it is
/// there.
pub open spec fn without_prefixes(text: Seq<char>, prefix: Seq<char>) -> Seq<char>
    decreases text.len(),
{
    if prefix.len() > 0 && prefix.is_prefix_of(text) {
        without_prefixes(text.skip(prefix.len() as int), prefix)
    } else {
        text
    }
}

pub fn trim_start_matches<'a>(text: &'a str, prefix: &str) -> (result: &'a str)
    ensures
        result@ == without_prefixes(text@, prefix@),
{
    let mut rest = text;
    if prefix.unicode_len() == 0 {
        return rest;
    }
    loop
        invariant
            prefix@.len() > 0,
            without_prefixes(rest@, prefix@) == without_prefixes(text@, prefix@),
        decreases rest@.len(),
    {
        match strip_prefix(rest, prefix) {
            Some(after) => {
                rest = after;
            },
            None => {
                return rest;
            },
        }
    }
}

/// The place of the first occurrence of a character; the text's length if it
/// does not occur.
pub open spec fn first_place(text: Seq<char>, c: char) -> int
    decreases text.len(),
{
    if text.len() == 0 || text.first() == c {
        0
    } else {
        1 + first_place(text.drop_first(), c)
    }
}

/// The place of the last occurrence of a character; -1 if it does not occur.
pub open spec fn last_place(text: Seq<char>, c: char) -> int
    decreases text.len(),
{
    if text.len() == 0 {
        -1
    } else if text.last() == c {
        text.len() - 1
    } else {
        last_place(text.drop_last(), c)
    }
}

pub proof fn lemma_first_place(text: Seq<char>, c: char)
    ensures
        0 <= first_place(text, c) <= text.len(),
        first_place(text, c) < text.len() ==> text[first_place(text, c)] == c,
        forall|i: int| 0 <= i < first_place(text, c) ==> text[i] != c,
    decreases text.len(),
{
    if text.len() > 0 && text.first() != c {
        let rest = text.drop_first();
        lemma_first_place(rest, c);
        assert forall|i: int| 0 <= i < first_place(text, c) implies text[i] != c by {
            if i > 0 {
                assert(rest[i - 1] == text[i]);
            }
        }
    }
}

pub proof fn lemma_last_place(text: Seq<char>, c: char)
    ensures
        -1 <= last_place(text, c) < text.len(),
        last_place(text, c) >= 0 ==> text[last_place(text, c)] == c,
        forall|i: int| last_place(text, c) < i < text.len() ==> text[i] != c,
    decreases text.len(),
{
    if text.len() > 0 && text.last() != c {
        lemma_last_place(text.drop_last(), c);
        assert forall|i: int| last_place(text, c) < i < text.len() implies text[i] != c by {
            if i < text.len() - 1 {
                assert(text.drop_last()[i] == text[i]);
            }
        }
    }
}

pub fn find(text: &str, c: char) -> (result: Option<usize>)
    ensures
        match result {
            Some(place) => place == first_place(text@, c) && place < text@.len(),
            None => first_place(text@, c) == text@.len(),
        },
{
    let chars = chars_of(text);
    let mut i: usize = 0;
    assert(text@.skip(0) == text@);
    while i < chars.len()
        invariant
            i <= chars.len(),
            chars@ == text@,
            first_place(text@, c) == i + first_place(text@.skip(i as int), c),
        decreases chars.len() - i,
    {
        if chars[i] == c {
            return Some(i);
        }
        assert(text@.skip(i as int).drop_first() == text@.skip(i + 1));
        i += 1;
    }
    None
}

pub fn rfind(text: &str, c: char) -> (result: Option<usize>)
    ensures
        match result {
            Some(place) => place == last_place(text@, c) && place < text@.len(),
            None => last_place(text@, c) == -1,
        },
{
    let chars = chars_of(text);
    let mut i: usize = chars.len();
    assert(text@.take(text@.len() as int) == text@);
    while i > 0
        invariant
            i <= chars.len(),
            chars@ == text@,
            last_place(text@, c) == last_place(text@.take(i as int), c),
        decreases i,
    {
        if chars[i - 1] == c {
            return Some(i - 1);
        }
        assert(text@.take(i as int).drop_last() == text@.take(i - 1));
        i -= 1;
    }
    None
}

/// The text before the first occurrence of a separator and the text behind it.
pub open spec fn split_first(text: Seq<char>, separator: char) -> Option<(Seq<char>, Seq<char>)> {
    let place = first_place(text, separator);
    if place < text.len() {
        Some((text.take(place), text.skip(place + 1)))
    } else {
        None
    }
}

pub fn split_once<'a>(text: &'a str, separator: char) -> (result: Option<(&'a str, &'a str)>)
    ensures
        result.deep_view() == split_first(text@, separator),
{
    match find(text, separator) {
        Some(place) => {
            let to: usize = text.unicode_len();
            assert(text@.take(place as int) == text@.subrange(0, place as int));
            assert(text@.skip(place + 1) == text@.subrange(place + 1, to as int));
            Some((text.substring_char(0, place), text.substring_char(place + 1, to)))
        },
        None => None,
    }
}

/// Whether a character is a control character.
pub open spec fn is_control(c: char) -> bool {
    c <= '\u{1f}' || '\u{7f}' <= c <= '\u{9f}'
}

pub open spec fn any_control(text: Seq<char>) -> bool {
    exists|i: int| 0 <= i < text.len() && is_control(#[trigger] text[i])
}

pub fn has_control(text: &str) -> (result: bool)
    ensures
        result == any_control(text@),
{
    let chars = chars_of(text);
    for i in 0..chars.len()
        invariant
            chars@ == text@,
            forall|j: int| 0 <= j < i ==> !is_control(#[trigger] text@[j]),
    {
        if chars[i] <= '\u{1f}' || ('\u{7f}' <= chars[i] && chars[i] <= '\u{9f}') {
            assert(is_control(text@[i as int]));
            return true;
        }
    }
    false
}

/// A text in which another text stands in place of every occurrence of `c`.
pub open spec fn replaced(text: Seq<char>, c: char, with: Seq<char>) -> Seq<char>
    decreases text.len(),
{
    if text.len() == 0 {
        text
    } else if text.last() == c {
        replaced(text.drop_last(), c, with) + with
    } else {
        replaced(text.drop_last(), c, with).push(text.last())
    }
}

pub fn replace_char(text: &str, c: char, with: &str) -> (result: String)
    ensures
        result@ == replaced(text@, c, with@),
{
    let chars = chars_of(text);
    let mut result = String::new();
    for i in 0..chars.len()
        invariant
            chars@ == text@,
            result@ == replaced(text@.take(i as int), c, with@),
    {
        assert(text@.take(i + 1).drop_last() == text@.take(i as int));
        if chars[i] == c {
            result.append(with);
        } else {
            result.push(chars[i]);
        }
    }
    assert(text@.take(text@.len() as int) == text@);
    result
}

/// Replacing works from the front as well.
pub proof fn lemma_replaced_first(text: Seq<char>, c: char, with: Seq<char>)
    requires
        text.len() > 0,
    ensures
        replaced(text, c, with) == (if text.first() == c {
            with
        } else {
            seq![text.first()]
        }) + replaced(text.drop_first(), c, with),
    decreases text.len(),
{
    let head = text.drop_last();
    let tail = text.drop_first();
    if text.len() == 1 {
        assert(head == Seq::<char>::empty());
        assert(tail == Seq::<char>::empty());
        assert(replaced(head, c, with) == Seq::<char>::empty());
        assert(replaced(text, c, with) == (if text.first() == c {
            with
        } else {
            seq![text.first()]
        }) + replaced(tail, c, with));
    } else {
        lemma_replaced_first(head, c, with);
        assert(head.drop_first() == tail.drop_last());
        assert(replaced(text, c, with) == (if text.first() == c {
            with
        } else {
            seq![text.first()]
        }) + replaced(tail, c, with));
    }
}

// ---------------------------------------------------------------------------
// Numbers
// ---------------------------------------------------------------------------
/// The decimal digit with the given value.
pub open spec fn digit(value: int) -> char {
    ((48 + value) as u8) as char
}

/// A number in decimal digits, without leading zeros.
pub open spec fn decimal(value: nat) -> Seq<char>
    decreases value,
{
    if value < 10 {
        seq![digit(value as int)]
    } else {
        decimal(value / 10).push(digit((value % 10) as int))
    }
}

pub fn decimal_text(value: u128) -> (result: String)
    ensures
        result@ == decimal(value as nat),
    decreases value,
{
    let last = (48u8 + (value % 10) as u8) as char;
    if value < 10 {
        let mut result = String::new();
        result.push(last);
        assert(result@ == seq![last]);
        result
    } else {
        let mut result = decimal_text(value / 10);
        result.push(last);
        result
    }
}

pub fn count_text(value: usize) -> (result: String)
    ensures
        result@ == decimal(value as nat),
{
    decimal_text(value as u128)
}

/// The lower-case hexadecimal digit with the given value.
pub open spec fn hex_digit(value: int) -> char {
    if value < 10 {
        ((48 + value) as u8) as char
    } else {
        ((87 + value) as u8) as char
    }
}

/// The last `width` hexadecimal digits of a number.
pub open spec fn hexadecimal(value: nat, width: nat) -> Seq<char>
    decreases width,
{
    if width == 0 {
        Seq::empty()
    } else {
        hexadecimal(value / 16, (width - 1) as nat).push(hex_digit((value % 16) as int))
    }
}

pub fn hexadecimal_text(value: u64, width: usize) -> (result: String)
    ensures
        result@ == hexadecimal(value as nat, width as nat),
    decreases width,
{
    if width == 0 {
        String::new()
    } else {
        let mut result = hexadecimal_text(value / 16, width - 1);
        let rest: u8 = (value % 16) as u8;
        if rest < 10 {
            result.push((48u8 + rest) as char);
        } else {
            result.push((87u8 + rest) as char);
        }
        result
    }
}

pub open spec fn all_digits(text: Seq<char>) -> bool {
    forall|i: int| 0 <= i < text.len() ==> is_digit(#[trigger] text[i])
}

/// The value of a text of decimal digits.
pub open spec fn digits_value(text: Seq<char>) -> nat
    decreases text.len(),
{
    if text.len() == 0 {
        0
    } else {
        digits_value(text.drop_last()) * 10 + (text.last() as u8 - 48) as nat
    }
}

/// The number that a text denotes, if it is one of at most `max`: decimal
/// digits, at least one of them, behind an optional plus sign.
pub open spec fn parsed_number(text: Seq<char>, max: nat) -> Option<nat> {
    let digits = if text.len() > 0 && text.first() == '+' {
        text.drop_first()
    } else {
        text
    };
    if digits.len() > 0 && all_digits(digits) && digits_value(digits) <= max {
        Some(digits_value(digits))
    } else {
        None
    }
}

pub fn parse_u64(text: &str) -> (result: Option<u64>)
    ensures
        match result {
            Some(value) => parsed_number(text@, u64::MAX as nat) == Some(value as nat),
            None => parsed_number(text@, u64::MAX as nat) is None,
        },
{
    let chars = chars_of(text);
    let from: usize = if chars.len() > 0 && chars[0] == '+' {
        1
    } else {
        0
    };
    let ghost digits = text@.skip(from as int);
    assert(from == 1 ==> digits == text@.drop_first());
    assert(from == 0 ==> digits == text@);
    if from == chars.len() {
        return None;
    }
    let mut value: u64 = 0;
    let mut over = false;
    let mut i: usize = from;
    while i < chars.len()
        invariant
            from <= i <= chars.len(),
            chars@ == text@,
            digits == text@.skip(from as int),
            digits == (if text@.len() > 0 && text@.first() == '+' {
                text@.drop_first()
            } else {
                text@
            }),
            forall|j: int| 0 <= j < i - from ==> is_digit(#[trigger] digits[j]),
            over ==> digits_value(digits.take(i - from)) > u64::MAX,
            !over ==> value == digits_value(digits.take(i - from)),
        decreases chars.len() - i,
    {
        let c = chars[i];
        assert(digits[i - from] == c);
        if !is_ascii_digit(c) {
            assert(!all_digits(digits));
            return None;
        }
        assert(digits.take(i + 1 - from).drop_last() == digits.take(i - from));
        let next: u64 = (c as u8 - 48) as u64;
        if !over {
            if value > (u64::MAX - next) / 10 {
                over = true;
            } else {
                value = value * 10 + next;
            }
        }
        i += 1;
    }
    assert(digits.take(digits.len() as int) == digits);
    if over {
        None
    } else {
        Some(value)
    }
}

// ---------------------------------------------------------------------------
// Shortening
// ---------------------------------------------------------------------------
/// A text cut to a number of characters, the last three of them dots.
pub open spec fn shortened(text: Seq<char>, max: nat) -> Seq<char> {
    if text.len() <= max {
        text
    } else {
        text.take(if max < 3 { 0 } else { max - 3 }) + "..."@
    }
}

pub fn short_text(value: &str, max_chars: usize) -> (result: String)
    ensures
        result@ == shortened(value@, max_chars as nat),
{
    if value.unicode_len() <= max_chars {
        return value.to_owned();
    }
    let kept: usize = if max_chars < 3 {
        0
    } else {
        max_chars - 3
    };
    assert(value@.take(kept as int) == value@.subrange(0, kept as int));
    concat(value.substring_char(0, kept), "...")
}

/// Shortening keeps a text within the limit, where the limit has room for the
/// three dots.
pub proof fn law_shortened_fits(text: Seq<char>, max: nat)
    requires
        max >= 3,
    ensures
        shortened(text, max).len() <= max,
{
    reveal_strlit("...");
}

// ---------------------------------------------------------------------------
// Order
// ---------------------------------------------------------------------------
/// Whether `a` stands before `b` in the order of their characters.
pub open spec fn before(a: Seq<char>, b: Seq<char>) -> bool
    decreases b.len(),
{
    if b.len() == 0 {
        false
    } else if a.len() == 0 {
        true
    } else if a.first() == b.first() {
        before(a.drop_first(), b.drop_first())
    } else {
        a.first() < b.first()
    }
}

/// Whether each text stands before all that follow it.
pub open spec fn ascending(values: Seq<Seq<char>>) -> bool {
    forall|i: int, j: int| 0 <= i < j < values.len() ==> before(#[trigger] values[i], #[trigger] values[j])
}

pub proof fn lemma_before_transitive(a: Seq<char>, b: Seq<char>, c: Seq<char>)
    requires
        before(a, b),
        before(b, c),
    ensures
        before(a, c),
    decreases a.len(),
{
    if a.len() > 0 && a.first() == b.first() && b.first() == c.first() {
        lemma_before_transitive(a.drop_first(), b.drop_first(), c.drop_first());
    }
}

pub proof fn lemma_before_total(a: Seq<char>, b: Seq<char>)
    ensures
        before(a, b) || before(b, a) || a == b,
        !(before(a, b) && before(b, a)),
        !before(a, a),
    decreases a.len(),
{
    if a.len() > 0 && b.len() > 0 && a.first() == b.first() {
        lemma_before_total(a.drop_first(), b.drop_first());
        if a.drop_first() == b.drop_first() {
            assert(a == seq![a.first()] + a.drop_first());
            assert(b == seq![b.first()] + b.drop_first());
        }
    } else if a.len() == 0 && b.len() == 0 {
        assert(a == b);
    }
    if a.len() > 0 {
        lemma_before_total(a.drop_first(), a.drop_first());
    }
}

fn stands_before(a: &str, b: &str) -> (result: bool)
    ensures
        result == before(a@, b@),
{
    let left = chars_of(a);
    let right = chars_of(b);
    let mut i: usize = 0;
    assert(a@.skip(0) == a@);
    assert(b@.skip(0) == b@);
    while i < left.len() && i < right.len() && left[i] == right[i]
        invariant
            i <= left.len(),
            i <= right.len(),
            left@ == a@,
            right@ == b@,
            before(a@, b@) == before(a@.skip(i as int), b@.skip(i as int)),
        decreases left.len() - i,
    {
        assert(a@.skip(i as int).drop_first() == a@.skip(i + 1));
        assert(b@.skip(i as int).drop_first() == b@.skip(i + 1));
        i += 1;
    }
    if i == right.len() {
        false
    } else if i == left.len() {
        true
    } else {
        left[i] < right[i]
    }
}

/// The texts of a list in ascending order, each once.
pub fn sorted_distinct(values: &Vec<String>) -> (result: Vec<String>)
    ensures
        ascending(result.deep_view()),
        result.deep_view().to_set() == values.deep_view().to_set(),
{
    let mut result: Vec<String> = Vec::new();
    assert(result.deep_view().to_set() =~= values.deep_view().take(0).to_set());
    for i in 0..values.len()
        invariant
            ascending(result.deep_view()),
            result.deep_view().to_set() == values.deep_view().take(i as int).to_set(),
    {
        insert_sorted(&mut result, &values[i]);
        let ghost head = values.deep_view().take(i as int);
        let ghost next = values.deep_view().take(i + 1);
        assert(next == head.push(values@[i as int]@));
        assert(next.to_set() =~= head.to_set().insert(values@[i as int]@)) by {
            assert forall|x: Seq<char>| next.to_set().contains(x) implies head.to_set().insert(
                values@[i as int]@,
            ).contains(x) by {
                let k = next.index_of(x);
                if k < i {
                    assert(head[k] == x);
                }
            }
            assert forall|x: Seq<char>|
                head.to_set().insert(values@[i as int]@).contains(x) implies next.to_set().contains(
                x,
            ) by {
                if head.to_set().contains(x) {
                    let k = head.index_of(x);
                    assert(next[k] == x);
                } else {
                    assert(next[i as int] == x);
                }
            }
        }
    }
    assert(values.deep_view().take(values@.len() as int) == values.deep_view());
    result
}

fn insert_sorted(list: &mut Vec<String>, value: &String)
    requires
        ascending(old(list).deep_view()),
    ensures
        ascending(final(list).deep_view()),
        final(list).deep_view().to_set() == old(list).deep_view().to_set().insert(value@),
{
    let ghost start = list.deep_view();
    let mut at: usize = 0;
    while at < list.len() && stands_before(list[at].as_str(), value.as_str())
        invariant
            at <= list.len(),
            list.deep_view() == start,
            forall|j: int| 0 <= j < at ==> before(#[trigger] start[j], value@),
        decreases list.len() - at,
    {
        assert(start[at as int] == list@[at as int]@);
        at += 1;
    }
    if at < list.len() && list[at] == *value {
        assert(start[at as int] == value@);
        assert(start.to_set() =~= start.to_set().insert(value@));
        return;
    }
    let ghost whole = *list;
    list.insert(at, value.clone());
    let ghost end = list.deep_view();
    assert(end == start.insert(at as int, value@));
    proof {
        if at < start.len() {
            assert(start[at as int] == whole@[at as int]@);
            lemma_before_total(start[at as int], value@);
        }
        assert forall|i: int, j: int| 0 <= i < j < end.len() implies before(
            #[trigger] end[i],
            #[trigger] end[j],
        ) by {
            if i == at {
                if j - 1 > at {
                    lemma_before_transitive(value@, start[at as int], start[j - 1]);
                }
            } else if j == at {
                assert(end[i] == start[i]);
            } else {
                let a = if i < at { i } else { i - 1 };
                let b = if j < at { j } else { j - 1 };
                assert(before(start[a], start[b]));
            }
        }
        assert(end.to_set() =~= start.to_set().insert(value@)) by {
            assert forall|x: Seq<char>| end.to_set().contains(x) implies start.to_set().insert(
                value@,
            ).contains(x) by {
                let k = end.index_of(x);
                if k < at {
                    assert(start[k] == x);
                } else if k > at {
                    assert(start[k - 1] == x);
                }
            }
            assert forall|x: Seq<char>| start.to_set().insert(value@).contains(x) implies
                end.to_set().contains(x) by {
                if x == value@ {
                    assert(end[at as int] == x);
                } else {
                    let k = start.index_of(x);
                    if k < at {
                        assert(end[k] == x);
                    } else {
                        assert(end[k + 1] == x);
                    }
                }
            }
        }
    }
}

/// An ascending list is the only one with its texts.
pub proof fn law_ascending_unique(a: Seq<Seq<char>>, b: Seq<Seq<char>>)
    requires
        ascending(a),
        ascending(b),
        a.to_set() == b.to_set(),
    ensures
        a == b,
    decreases a.len(),
{
    if a.len() == 0 {
        if b.len() > 0 {
            assert(b.to_set().contains(b[0]));
            assert(a.to_set().contains(b[0]));
        }
        assert(a == b);
    } else {
        assert(a.to_set().contains(a[0]));
        assert(b.to_set().contains(a[0]));
        let k = b.index_of(a[0]);
        assert(b.to_set().contains(b[0]));
        assert(a.to_set().contains(b[0]));
        let m = a.index_of(b[0]);
        lemma_before_total(a[0], b[0]);
        assert(a[0] == b[0]);
        let ra = a.drop_first();
        let rb = b.drop_first();
        assert(ra.to_set() =~= rb.to_set()) by {
            assert forall|x: Seq<char>| ra.to_set().contains(x) implies rb.to_set().contains(x) by {
                let i = ra.index_of(x);
                assert(a[i + 1] == x);
                assert(a.to_set().contains(x));
                assert(b.to_set().contains(x));
                let j = b.index_of(x);
                lemma_before_total(a[0], x);
                assert(rb[j - 1] == x);
            }
            assert forall|x: Seq<char>| rb.to_set().contains(x) implies ra.to_set().contains(x) by {
                let i = rb.index_of(x);
                assert(b[i + 1] == x);
                assert(b.to_set().contains(x));
                assert(a.to_set().contains(x));
                let j = a.index_of(x);
                lemma_before_total(b[0], x);
                assert(ra[j - 1] == x);
            }
        }
        law_ascending_unique(ra, rb);
        assert(a == seq![a[0]] + ra);
        assert(b == seq![b[0]] + rb);
    }
}

// ---------------------------------------------------------------------------
// Places in texts and lists
// ---------------------------------------------------------------------------
/// Whether a value stands right behind a flag in a list.
pub open spec fn has_pair(list: Seq<Seq<char>>, flag: Seq<char>, value: Seq<char>) -> bool {
    exists|i: int|
        0 <= i < list.len() - 1 && #[trigger] list[i] == flag && list[i + 1] == value
}

/// Whether some values stand in a list one behind the other.
pub open spec fn has_run(list: Seq<Seq<char>>, values: Seq<Seq<char>>) -> bool {
    exists|i: int|
        0 <= i <= list.len() - values.len() && #[trigger] list.subrange(i, i + values.len())
            == values
}

/// What stands in the middle of a text occurs in it.
pub proof fn lemma_occurs(a: Seq<char>, b: Seq<char>, c: Seq<char>)
    ensures
        occurs(a + b + c, b),
{
    let text = a + b + c;
    assert(text.subrange(a.len() as int, 0int + a.len() + b.len()) == b);
}

/// What occurs in a part of a text occurs in the text.
pub proof fn lemma_occurs_within(a: Seq<char>, b: Seq<char>, c: Seq<char>, needle: Seq<char>)
    requires
        occurs(b, needle),
    ensures
        occurs(a + b + c, needle),
{
    let i = choose|i: int|
        0 <= i <= b.len() - needle.len() && #[trigger] b.subrange(i, i + needle.len()) == needle;
    let text = a + b + c;
    assert(text.subrange(a.len() + i, a.len() + i + needle.len()) == b.subrange(
        i,
        i + needle.len(),
    ));
}

/// A flag stands before each of the values that follow it, and nothing else is
/// there.
pub proof fn law_flags_precede_values(flag: Seq<char>, values: Seq<Seq<char>>, i: int)
    requires
        0 <= i < values.len(),
    ensures
        flagged(flag, values).len() == 2 * values.len(),
        flagged(flag, values)[2 * i] == flag,
        flagged(flag, values)[2 * i + 1] == values[i],
    decreases values.len(),
{
    let head = values.drop_last();
    if i < head.len() {
        law_flags_precede_values(flag, head, i);
        assert(head[i] == values[i]);
    } else {
        lemma_flagged_length(flag, head);
    }
}

pub proof fn lemma_flagged_length(flag: Seq<char>, values: Seq<Seq<char>>)
    ensures
        flagged(flag, values).len() == 2 * values.len(),
    decreases values.len(),
{
    if values.len() > 0 {
        lemma_flagged_length(flag, values.drop_last());
    }
}

} // verus!
