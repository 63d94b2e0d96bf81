//! How the operations on text relate to one another and to what they are given.
use vstd::prelude::*;

use crate::splitting::{is_whole, lemma_pieces_are_whole, lemma_pieces_concat, lemma_pieces_of_whole};
use crate::text::{
    after_prefix, all_digits, decimal, digits_value, first_place, is_any_space, is_blank, is_char,
    is_digit, is_space, joined, lemma_first_place, lemma_pieces_nonempty, lines_of, lowered,
    members, parsed_number, pieces, present, replaced, shortened, split_at, split_first, trimmed,
    trimmed_end, trimmed_start, without_empty, without_prefixed, without_return, without_text,
    words_of,
};

verus! {

// ---------------------------------------------------------------------------
// Spaces and letters
// ---------------------------------------------------------------------------
pub open spec fn all_spaces(text: Seq<char>) -> bool {
    forall|i: int| 0 <= i < text.len() ==> is_space(#[trigger] text[i])
}

proof fn lemma_trimmed_start(text: Seq<char>)
    ensures
        trimmed_start(text).len() <= text.len(),
        trimmed_start(text) == text.skip(text.len() - trimmed_start(text).len()),
        all_spaces(text.take(text.len() - trimmed_start(text).len())),
        trimmed_start(text).len() > 0 ==> !is_space(trimmed_start(text)[0]),
    decreases text.len(),
{
    if text.len() > 0 && is_space(text.first()) {
        let rest = text.drop_first();
        lemma_trimmed_start(rest);
        let k = rest.len() - trimmed_start(rest).len();
        assert(rest.skip(k) == text.skip(k + 1));
        assert forall|i: int| 0 <= i < k + 1 implies is_space(#[trigger] text.take(k + 1)[i]) by {
            if i > 0 {
                assert(rest.take(k)[i - 1] == text[i]);
            }
        }
    } else {
        assert(text.skip(0) == text);
    }
}

proof fn lemma_trimmed_end(text: Seq<char>)
    ensures
        trimmed_end(text).len() <= text.len(),
        trimmed_end(text) == text.take(trimmed_end(text).len() as int),
        all_spaces(text.skip(trimmed_end(text).len() as int)),
        trimmed_end(text).len() > 0 ==> !is_space(trimmed_end(text).last()),
    decreases text.len(),
{
    if text.len() > 0 && is_space(text.last()) {
        let rest = text.drop_last();
        lemma_trimmed_end(rest);
        let k = trimmed_end(rest).len() as int;
        assert(rest.take(k) == text.take(k));
        assert forall|i: int| 0 <= i < text.len() - k implies is_space(#[trigger] text.skip(k)[i]) by {
            if i < rest.len() - k {
                assert(rest.skip(k)[i] == text[k + i]);
            }
        }
    } else {
        assert(text.take(text.len() as int) == text);
    }
}

/// A text is its trimmed form with nothing but spaces before and behind it, and
/// the trimmed form starts and ends with none.
pub proof fn law_trimming_drops_spaces(text: Seq<char>) -> (around: (Seq<char>, Seq<char>))
    ensures
        text == around.0 + trimmed(text) + around.1,
        all_spaces(around.0),
        all_spaces(around.1),
        trimmed(text).len() > 0 ==> !is_space(trimmed(text)[0]) && !is_space(trimmed(text).last()),
{
    lemma_trimmed_start(text);
    let middle = trimmed_start(text);
    lemma_trimmed_end(middle);
    let front = text.take(text.len() - middle.len());
    let back = middle.skip(trimmed(text).len() as int);
    assert(middle == trimmed(text) + back);
    assert(text == front + middle);
    assert(text == front + trimmed(text) + back);
    if trimmed(text).len() > 0 {
        assert(trimmed(text)[0] == middle[0]);
    }
    (front, back)
}

/// A text with no space at either end is left as it is; so trimming twice is
/// trimming once.
pub proof fn law_trimmed_is_kept(text: Seq<char>)
    requires
        text.len() == 0 || (!is_space(text[0]) && !is_space(text.last())),
    ensures
        trimmed(text) == text,
{
}

/// A text is blank just where it holds nothing but spaces; what is not blank is
/// present, without the spaces around it.
pub proof fn law_blank_is_spaces(text: Seq<char>)
    ensures
        is_blank(text) <==> all_spaces(text),
        present(Some(text)) == (if all_spaces(text) {
            None
        } else {
            Some(trimmed(text))
        }),
        present(None) is None,
{
    let around = law_trimming_drops_spaces(text);
    if is_blank(text) {
        assert forall|i: int| 0 <= i < text.len() implies is_space(#[trigger] text[i]) by {
            if i < around.0.len() {
                assert(text[i] == around.0[i]);
            } else {
                assert(text[i] == around.1[i - around.0.len()]);
            }
        }
    } else {
        assert(text[around.0.len() as int] == trimmed(text)[0]);
    }
}

/// Lower case changes the letters from A to Z to those from a to z, and nothing
/// else.
pub proof fn law_lower_case(text: Seq<char>, i: int)
    requires
        0 <= i < text.len(),
    ensures
        lowered(text).len() == text.len(),
        'A' <= text[i] <= 'Z' ==> lowered(text)[i] as int == text[i] as int + 32,
        !('A' <= text[i] <= 'Z') ==> lowered(text)[i] == text[i],
        lowered(lowered(text)) == lowered(text),
{
    assert(lowered(lowered(text)) =~= lowered(text));
    let c = text[i];
    if 'A' <= c <= 'Z' {
        assert(c as u8 as int == c as int);
    }
}

// ---------------------------------------------------------------------------
// Numbers
// ---------------------------------------------------------------------------
/// A number that is written down is read back, and is written in digits alone,
/// without a zero in front.
pub proof fn law_numbers_are_read_back(value: nat)
    ensures
        decimal(value).len() > 0,
        all_digits(decimal(value)),
        digits_value(decimal(value)) == value,
        decimal(value)[0] == '0' ==> value == 0,
        value > 0 ==> decimal(value)[0] != '0',
    decreases value,
{
    let text = decimal(value);
    if value < 10 {
        assert(text.drop_last().len() == 0);
        reveal_with_fuel(digits_value, 2);
    } else {
        let front = decimal(value / 10);
        law_numbers_are_read_back(value / 10);
        assert(text.drop_last() == front);
        assert forall|i: int| 0 <= i < text.len() implies is_digit(#[trigger] text[i]) by {
            if i < front.len() {
                assert(front[i] == text[i]);
            }
        }
        assert(text[0] == front[0]);
    }
}

/// Any number within its bound is parsed from the text that writes it.
pub proof fn law_written_number_is_parsed(value: nat, max: nat)
    ensures
        parsed_number(decimal(value), max) == (if value <= max {
            Some(value)
        } else {
            None
        }),
        parsed_number(seq!['+'] + decimal(value), max) == parsed_number(decimal(value), max),
{
    law_numbers_are_read_back(value);
    let text = decimal(value);
    assert(is_digit(text[0]));
    let signed = seq!['+'] + text;
    assert(signed.drop_first() == text);
}

/// Different numbers are written differently.
pub proof fn law_numbers_are_told_apart(a: nat, b: nat)
    requires
        a != b,
    ensures
        decimal(a) != decimal(b),
{
    law_numbers_are_read_back(a);
    law_numbers_are_read_back(b);
}

// ---------------------------------------------------------------------------
// Words, lines and pairs
// ---------------------------------------------------------------------------
pub proof fn lemma_without_empty_joined(a: Seq<Seq<char>>, b: Seq<Seq<char>>)
    ensures
        without_empty(a + b) == without_empty(a) + without_empty(b),
    decreases b.len(),
{
    if b.len() == 0 {
        assert(a + b == a);
        assert(without_empty(a) + without_empty(b) == without_empty(a));
    } else {
        assert((a + b).drop_last() == a + b.drop_last());
        lemma_without_empty_joined(a, b.drop_last());
        assert(without_empty(a + b) == without_empty(a) + without_empty(b));
    }
}

/// The words of two texts with a space between them are the words of the one
/// and those of the other.
pub proof fn law_words_are_apart(a: Seq<char>, space: char, b: Seq<char>)
    requires
        is_space(space),
    ensures
        words_of(a.push(space) + b) == words_of(a) + words_of(b),
{
    let first = pieces(a, is_any_space());
    let second = pieces(b, is_any_space());
    lemma_pieces_nonempty(a, is_any_space());
    lemma_pieces_nonempty(b, is_any_space());
    lemma_pieces_concat(a.push(space), b, is_any_space());
    assert(a.push(space).drop_last() == a);
    let ended = pieces(a.push(space), is_any_space());
    assert(ended == first.push(Seq::<char>::empty()));
    assert(ended.drop_last() == first);
    assert(ended.last() + second[0] == second[0]);
    assert(pieces(a.push(space) + b, is_any_space()) == first + second) by {
        assert(first.push(second[0]) + second.drop_first() == first + second);
    }
    lemma_without_empty_joined(first, second);
}

/// A text without spaces is one word, and no text is none.
pub proof fn law_word_is_whole(word: Seq<char>)
    requires
        forall|i: int| 0 <= i < word.len() ==> !is_space(#[trigger] word[i]),
    ensures
        words_of(word) == (if word.len() == 0 {
            seq![]
        } else {
            seq![word]
        }),
{
    lemma_pieces_of_whole(word, is_any_space());
    let parts = pieces(word, is_any_space());
    assert(parts.drop_last() == Seq::<Seq<char>>::empty());
    reveal_with_fuel(without_empty, 2);
    assert(words_of(word) == (if word.len() == 0 {
        seq![]
    } else {
        seq![word]
    }));
}

proof fn lemma_kept_parts(parts: Seq<Seq<char>>)
    ensures
        forall|k: int|
            0 <= k < without_empty(parts).len() ==> (#[trigger] without_empty(parts)[k]).len() > 0
                && parts.contains(without_empty(parts)[k]),
    decreases parts.len(),
{
    if parts.len() > 0 {
        let head = parts.drop_last();
        lemma_kept_parts(head);
        let all = without_empty(parts);
        assert forall|k: int| 0 <= k < all.len() implies (#[trigger] all[k]).len() > 0
            && parts.contains(all[k]) by {
            let before = without_empty(head);
            if k < before.len() {
                assert(all[k] == before[k]);
                let j = choose|j: int| 0 <= j < head.len() && head[j] == before[k];
                assert(parts[j] == all[k]);
            } else {
                assert(all[k] == parts[parts.len() - 1]);
            }
        }
    }
}

/// No word is empty, and none holds a space.
pub proof fn law_words_have_no_space(text: Seq<char>, k: int)
    requires
        0 <= k < words_of(text).len(),
    ensures
        words_of(text)[k].len() > 0,
        forall|i: int|
            0 <= i < words_of(text)[k].len() ==> !is_space(#[trigger] words_of(text)[k][i]),
{
    let parts = pieces(text, is_any_space());
    lemma_kept_parts(parts);
    lemma_pieces_are_whole(text, is_any_space());
    let word = words_of(text)[k];
    let j = choose|j: int| 0 <= j < parts.len() && parts[j] == word;
    assert(is_whole(parts[j], is_any_space()));
    assert forall|i: int| 0 <= i < word.len() implies !is_space(#[trigger] word[i]) by {
        assert(!is_any_space()(parts[j][i]));
    }
}

/// The first line of a text ends where the first line break stands, without the
/// carriage return before it; the other lines are those of the rest. A text
/// without a line break is one line, and no text is none.
pub proof fn law_lines_end_at_breaks(line: Seq<char>, rest: Seq<char>)
    requires
        !line.contains('\n'),
    ensures
        lines_of(line.push('\n') + rest) == seq![without_return(line)] + lines_of(rest),
        lines_of(line) == (if line.len() == 0 {
            seq![]
        } else {
            seq![line]
        }),
{
    let breaks = is_char('\n');
    assert(is_whole(line, breaks)) by {
        assert forall|i: int| 0 <= i < line.len() implies !breaks(#[trigger] line[i]) by {
            assert(line.contains(line[i]));
        }
    }
    lemma_pieces_of_whole(line, breaks);
    let front = line.push('\n');
    assert(front.drop_last() == line);
    assert(pieces(front, breaks) == seq![line, Seq::<char>::empty()]);
    lemma_pieces_concat(front, rest, breaks);
    lemma_pieces_nonempty(rest, breaks);
    let tail = pieces(rest, breaks);
    let parts = split_at(front + rest, '\n');
    assert(Seq::<char>::empty() + tail[0] == tail[0]);
    assert(parts == seq![line] + tail) by {
        assert(pieces(front, breaks).drop_last() == seq![line]);
        assert(seq![line].push(tail[0]) + tail.drop_first() == seq![line] + tail);
    }
    assert(parts.drop_last() == seq![line] + tail.drop_last());
    assert(parts.last() == tail.last());
    assert(lines_of(front + rest) =~= seq![without_return(line)] + lines_of(rest));
    assert(split_at(line, '\n') == seq![line]);
    assert(lines_of(line) =~= (if line.len() == 0 {
        seq![]
    } else {
        seq![line]
    }));
}

/// A carriage return goes from the end of a line, and only one does.
pub proof fn law_return_is_dropped(line: Seq<char>)
    ensures
        without_return(line.push('\r')) == line,
        !line.contains('\r') ==> without_return(line) == line,
{
    assert(line.push('\r').drop_last() == line);
    if line.len() > 0 && line.last() == '\r' {
        assert(line.contains(line[line.len() - 1]));
    }
}

/// A text is split at the first place of a separator, and not where it has
/// none.
pub proof fn law_split_at_first(a: Seq<char>, separator: char, b: Seq<char>)
    requires
        !a.contains(separator),
    ensures
        split_first(a.push(separator) + b, separator) == Some((a, b)),
        split_first(a, separator) is None,
{
    let text = a.push(separator) + b;
    lemma_first_place(text, separator);
    lemma_first_place(a, separator);
    let place = first_place(text, separator);
    assert(text[a.len() as int] == separator);
    if place < a.len() {
        assert(text[place] == a[place]);
        assert(a.contains(a[place]));
    }
    assert(text.take(a.len() as int) == a);
    assert(text.skip(a.len() as int + 1) == b);
    if first_place(a, separator) < a.len() {
        assert(a.contains(a[first_place(a, separator)]));
    }
}

/// What stands behind a prefix is found, and nothing where the prefix is not
/// there.
pub proof fn law_prefix_is_taken_off(prefix: Seq<char>, rest: Seq<char>, text: Seq<char>)
    ensures
        after_prefix(prefix + rest, prefix) == Some(rest),
        after_prefix(text, prefix) matches Some(found) ==> text == prefix + found,
{
    let whole = prefix + rest;
    assert(whole.take(prefix.len() as int) == prefix);
    assert(whole.skip(prefix.len() as int) == rest);
    if prefix.is_prefix_of(text) {
        assert(text == prefix + text.skip(prefix.len() as int));
    }
}

// ---------------------------------------------------------------------------
// Changing texts and lists
// ---------------------------------------------------------------------------
/// A character is replaced wherever it stands, and the rest is kept in order.
pub proof fn law_replaced_in_parts(a: Seq<char>, b: Seq<char>, c: char, with: Seq<char>)
    ensures
        replaced(a + b, c, with) == replaced(a, c, with) + replaced(b, c, with),
        replaced(seq![c], c, with) == with,
        !a.contains(c) ==> replaced(a, c, with) == a,
    decreases a.len() + b.len(),
{
    assert(seq![c].drop_last() == Seq::<char>::empty());
    reveal_with_fuel(replaced, 2);
    assert(Seq::<char>::empty() + with == with);
    if b.len() == 0 {
        assert(a + b == a);
        assert(replaced(a, c, with) + replaced(b, c, with) == replaced(a, c, with));
    } else {
        assert((a + b).drop_last() == a + b.drop_last());
        law_replaced_in_parts(a, b.drop_last(), c, with);
        assert(replaced(a + b, c, with) =~= replaced(a, c, with) + replaced(b, c, with));
    }
    if !a.contains(c) && a.len() > 0 {
        let head = a.drop_last();
        assert(a.contains(a[a.len() - 1]));
        assert(!head.contains(c)) by {
            if head.contains(c) {
                let i = choose|i: int| 0 <= i < head.len() && head[i] == c;
                assert(a.contains(a[i]));
            }
        }
        lemma_nothing_replaced(head, c, with);
        assert(head.push(a.last()) == a);
    }
}

proof fn lemma_nothing_replaced(a: Seq<char>, c: char, with: Seq<char>)
    requires
        !a.contains(c),
    ensures
        replaced(a, c, with) == a,
    decreases a.len(),
{
    if a.len() > 0 {
        let head = a.drop_last();
        assert(a.contains(a[a.len() - 1]));
        assert(!head.contains(c)) by {
            if head.contains(c) {
                let i = choose|i: int| 0 <= i < head.len() && head[i] == c;
                assert(a.contains(a[i]));
            }
        }
        lemma_nothing_replaced(head, c, with);
        assert(head.push(a.last()) == a);
    }
}

/// A text that fits is kept whole; of one that does not, the front is kept and
/// three dots say so.
pub proof fn law_shortened_keeps_the_front(text: Seq<char>, max: nat)
    requires
        max >= 3,
    ensures
        text.len() <= max ==> shortened(text, max) == text,
        text.len() > max ==> shortened(text, max).len() == max && shortened(text, max).take(max - 3)
            == text.take(max - 3) && shortened(text, max).skip(max - 3) == "..."@,
{
    reveal_strlit("...");
    if text.len() > max {
        assert(shortened(text, max).take(max - 3) == text.take(max - 3));
        assert(shortened(text, max).skip(max - 3) == "..."@);
    }
}

/// Taking a text out of a list takes it out wherever it stands, and keeps the
/// others in their order.
pub proof fn law_others_are_kept(a: Seq<Seq<char>>, b: Seq<Seq<char>>, text: Seq<char>)
    ensures
        without_text(a + b, text) == without_text(a, text) + without_text(b, text),
        without_text(seq![text], text) == Seq::<Seq<char>>::empty(),
        !a.contains(text) ==> without_text(a, text) == a,
    decreases a.len() + b.len(),
{
    reveal_with_fuel(without_text, 2);
    assert(seq![text].drop_last() == Seq::<Seq<char>>::empty());
    if b.len() == 0 {
        assert(a + b == a);
        assert(without_text(a, text) + without_text(b, text) == without_text(a, text));
    } else {
        assert((a + b).drop_last() == a + b.drop_last());
        law_others_are_kept(a, b.drop_last(), text);
        assert(without_text(a + b, text) =~= without_text(a, text) + without_text(b, text));
    }
    if !a.contains(text) && a.len() > 0 {
        let head = a.drop_last();
        assert(a.contains(a[a.len() - 1]));
        assert(!head.contains(text)) by {
            if head.contains(text) {
                let i = choose|i: int| 0 <= i < head.len() && head[i] == text;
                assert(a.contains(a[i]));
            }
        }
        law_others_are_kept(head, seq![], text);
        assert(head.push(a.last()) == a);
    }
}

/// The members of a list that another holds, or does not hold, are all there
/// and in their order.
pub proof fn law_members_are_all(
    a: Seq<Seq<char>>,
    b: Seq<Seq<char>>,
    other: Seq<Seq<char>>,
    inside: bool,
    text: Seq<char>,
)
    ensures
        members(a + b, other, inside) == members(a, other, inside) + members(b, other, inside),
        members(seq![text], other, inside) == (if other.contains(text) == inside {
            seq![text]
        } else {
            seq![]
        }),
    decreases b.len(),
{
    reveal_with_fuel(members, 2);
    assert(seq![text].drop_last() == Seq::<Seq<char>>::empty());
    assert(members(seq![text], other, inside) =~= (if other.contains(text) == inside {
        seq![text]
    } else {
        seq![]
    }));
    if b.len() == 0 {
        assert(a + b == a);
        assert(members(a, other, inside) + members(b, other, inside) == members(a, other, inside));
    } else {
        assert((a + b).drop_last() == a + b.drop_last());
        law_members_are_all(a, b.drop_last(), other, inside, text);
        assert(members(a + b, other, inside) =~= members(a, other, inside) + members(
            b,
            other,
            inside,
        ));
    }
}

/// Values with a prefix go from a list, and the others stay in their order.
pub proof fn law_prefixed_are_dropped(
    a: Seq<Seq<char>>,
    b: Seq<Seq<char>>,
    prefix: Seq<char>,
    text: Seq<char>,
)
    ensures
        without_prefixed(a + b, prefix) == without_prefixed(a, prefix) + without_prefixed(b, prefix),
        without_prefixed(seq![text], prefix) == (if prefix.is_prefix_of(text) {
            seq![]
        } else {
            seq![text]
        }),
    decreases b.len(),
{
    reveal_with_fuel(without_prefixed, 2);
    assert(seq![text].drop_last() == Seq::<Seq<char>>::empty());
    assert(without_prefixed(seq![text], prefix) =~= (if prefix.is_prefix_of(text) {
        seq![]
    } else {
        seq![text]
    }));
    if b.len() == 0 {
        assert(a + b == a);
        assert(without_prefixed(a, prefix) + without_prefixed(b, prefix) == without_prefixed(
            a,
            prefix,
        ));
    } else {
        assert((a + b).drop_last() == a + b.drop_last());
        law_prefixed_are_dropped(a, b.drop_last(), prefix, text);
        assert(without_prefixed(a + b, prefix) =~= without_prefixed(a, prefix) + without_prefixed(
            b,
            prefix,
        ));
    }
}

/// Joined parts stand in their order with the separator between any two.
pub proof fn law_joined_in_order(parts: Seq<Seq<char>>, part: Seq<char>, separator: Seq<char>)
    ensures
        joined(seq![], separator) == Seq::<char>::empty(),
        joined(seq![part], separator) == part,
        parts.len() > 0 ==> joined(parts.push(part), separator) == joined(parts, separator)
            + separator + part,
{
    assert(parts.push(part).drop_last() == parts);
}

} // verus!
