//! What splitting a text and joining its pieces have to do with each other.
use vstd::prelude::*;

use crate::text::{
    is_char, joined, lemma_pieces_nonempty, lines_of, pieces, split_at, without_return,
};

verus! {

/// Whether no character of a text separates.
pub open spec fn is_whole(text: Seq<char>, separates: spec_fn(char) -> bool) -> bool {
    forall|i: int| 0 <= i < text.len() ==> !separates(#[trigger] text[i])
}

/// The pieces of two texts behind each other: the last piece of the first and
/// the first of the second become one.
pub proof fn lemma_pieces_concat(a: Seq<char>, b: Seq<char>, separates: spec_fn(char) -> bool)
    ensures
        pieces(a + b, separates) == pieces(a, separates).drop_last().push(
            pieces(a, separates).last() + pieces(b, separates)[0],
        ) + pieces(b, separates).drop_first(),
    decreases b.len(),
{
    lemma_pieces_nonempty(a, separates);
    lemma_pieces_nonempty(b, separates);
    let first = pieces(a, separates);
    if b.len() == 0 {
        assert(a + b == a);
        assert(first.last() + Seq::<char>::empty() == first.last());
        assert(pieces(b, separates).drop_first() == Seq::<Seq<char>>::empty());
    } else {
        let head = b.drop_last();
        let c = b.last();
        lemma_pieces_concat(a, head, separates);
        lemma_pieces_nonempty(head, separates);
        assert((a + b).drop_last() == a + head);
        assert((a + b).last() == c);
        let before = pieces(head, separates);
        let whole = pieces(a + head, separates);
        if separates(c) {
            assert(pieces(b, separates) == before.push(Seq::<char>::empty()));
            assert(pieces(b, separates).drop_first() == before.drop_first().push(
                Seq::<char>::empty(),
            ));
        } else {
            let longer = before.last().push(c);
            assert(pieces(b, separates) == before.drop_last().push(longer));
            if before.len() == 1 {
                assert(whole.last() == first.last() + before[0]);
                assert((first.last() + before[0]).push(c) == first.last() + longer);
                assert(pieces(b, separates).drop_first() == Seq::<Seq<char>>::empty());
            } else {
                assert(whole.last() == before.last());
                assert(pieces(b, separates).drop_first() == before.drop_first().drop_last().push(
                    longer,
                ));
            }
        }
    }
}

/// A text in which nothing separates is its only piece.
pub proof fn lemma_pieces_of_whole(text: Seq<char>, separates: spec_fn(char) -> bool)
    requires
        is_whole(text, separates),
    ensures
        pieces(text, separates) == seq![text],
    decreases text.len(),
{
    if text.len() > 0 {
        let head = text.drop_last();
        assert(is_whole(head, separates)) by {
            assert forall|i: int| 0 <= i < head.len() implies !separates(#[trigger] head[i]) by {
                assert(text[i] == head[i]);
            }
        }
        lemma_pieces_of_whole(head, separates);
        assert(!separates(text[text.len() - 1]));
        assert(seq![head].drop_last() == Seq::<Seq<char>>::empty());
        assert(head.push(text.last()) == text);
        assert(pieces(text, separates) == seq![text]);
    } else {
        assert(text == Seq::<char>::empty());
    }
}

/// No character of a piece separates.
pub proof fn lemma_pieces_are_whole(text: Seq<char>, separates: spec_fn(char) -> bool)
    ensures
        forall|k: int|
            0 <= k < pieces(text, separates).len() ==> is_whole(
                #[trigger] pieces(text, separates)[k],
                separates,
            ),
    decreases text.len(),
{
    let all = pieces(text, separates);
    if text.len() > 0 {
        lemma_pieces_are_whole(text.drop_last(), separates);
        lemma_pieces_nonempty(text.drop_last(), separates);
        let before = pieces(text.drop_last(), separates);
        assert forall|k: int| 0 <= k < all.len() implies is_whole(
            #[trigger] all[k],
            separates,
        ) by {
            if separates(text.last()) {
                if k < before.len() {
                    assert(all[k] == before[k]);
                }
            } else if k < before.len() - 1 {
                assert(all[k] == before[k]);
            } else {
                assert(is_whole(before[before.len() - 1], separates));
                assert(all[k] == before.last().push(text.last()));
            }
        }
    }
}

/// The characters of the pieces are characters of the text.
pub proof fn lemma_pieces_hold(text: Seq<char>, separates: spec_fn(char) -> bool, c: char)
    requires
        !text.contains(c),
    ensures
        forall|k: int|
            0 <= k < pieces(text, separates).len() ==> !(#[trigger] pieces(
                text,
                separates,
            )[k]).contains(c),
    decreases text.len(),
{
    let all = pieces(text, separates);
    if text.len() > 0 {
        let head = text.drop_last();
        assert(!head.contains(c)) by {
            if head.contains(c) {
                let i = choose|i: int| 0 <= i < head.len() && head[i] == c;
                assert(text[i] == c);
            }
        }
        assert(text.last() != c) by {
            assert(text[text.len() - 1] == text.last());
        }
        lemma_pieces_hold(head, separates, c);
        lemma_pieces_nonempty(head, separates);
        let before = pieces(head, separates);
        assert forall|k: int| 0 <= k < all.len() implies !(#[trigger] all[k]).contains(c) by {
            if separates(text.last()) {
                if k < before.len() {
                    assert(all[k] == before[k]);
                }
            } else if k < before.len() - 1 {
                assert(all[k] == before[k]);
            } else {
                assert(!before[before.len() - 1].contains(c));
                let longer = before.last().push(text.last());
                assert(all[k] == longer);
                if longer.contains(c) {
                    let i = choose|i: int| 0 <= i < longer.len() && longer[i] == c;
                    assert(i < before.last().len());
                    assert(before.last()[i] == c);
                }
            }
        }
    }
}

/// Pieces that are joined with a separator are the pieces of what comes out.
pub proof fn lemma_pieces_of_joined(
    parts: Seq<Seq<char>>,
    separator: char,
    separates: spec_fn(char) -> bool,
)
    requires
        parts.len() > 0,
        separates(separator),
        forall|k: int| 0 <= k < parts.len() ==> is_whole(#[trigger] parts[k], separates),
    ensures
        pieces(joined(parts, seq![separator]), separates) == parts,
    decreases parts.len(),
{
    if parts.len() == 1 {
        lemma_pieces_of_whole(parts[0], separates);
        assert(seq![parts[0]] == parts);
    } else {
        let head = parts.drop_last();
        let last = parts.last();
        assert forall|k: int| 0 <= k < head.len() implies is_whole(
            #[trigger] head[k],
            separates,
        ) by {
            assert(parts[k] == head[k]);
        }
        lemma_pieces_of_joined(head, separator, separates);
        let start = joined(head, seq![separator]);
        let middle = start + seq![separator];
        assert(middle.drop_last() == start);
        assert(pieces(middle, separates) == head.push(Seq::<char>::empty()));
        assert(is_whole(parts[parts.len() - 1], separates));
        lemma_pieces_of_whole(last, separates);
        lemma_pieces_concat(middle, last, separates);
        assert(Seq::<char>::empty() + last == last);
        assert(seq![last].drop_first() == Seq::<Seq<char>>::empty());
        assert(head.push(Seq::<char>::empty()).drop_last() == head);
        assert(head.push(last) == parts);
    }
}

/// The pieces of a text, joined again, are the text.
pub proof fn lemma_joined_pieces(text: Seq<char>, separator: char)
    ensures
        joined(split_at(text, separator), seq![separator]) == text,
    decreases text.len(),
{
    let all = split_at(text, separator);
    let between = seq![separator];
    lemma_pieces_nonempty(text, is_char(separator));
    if text.len() > 0 {
        let head = text.drop_last();
        lemma_joined_pieces(head, separator);
        lemma_pieces_nonempty(head, is_char(separator));
        let before = split_at(head, separator);
        if text.last() == separator {
            assert(all.drop_last() == before);
            assert(joined(all, between) == joined(before, between) + between
                + Seq::<char>::empty());
            assert(head + between + Seq::<char>::empty() == text);
        } else {
            assert(all.drop_last() == before.drop_last());
            if before.len() == 1 {
                assert(all.len() == 1);
                assert(all[0] == before[0].push(text.last()));
                assert(head.push(text.last()) == text);
            } else {
                assert(joined(all, between) == joined(before.drop_last(), between) + between
                    + before.last().push(text.last()));
                assert(joined(before.drop_last(), between) + between + before.last().push(
                    text.last(),
                ) == (joined(before.drop_last(), between) + between + before.last()).push(
                    text.last(),
                ));
                assert(head.push(text.last()) == text);
            }
        }
    } else {
        assert(all == seq![Seq::<char>::empty()]);
        assert(joined(all, between) == text);
    }
}

/// Joining can be done in two steps.
pub proof fn lemma_joined_cut(parts: Seq<Seq<char>>, separator: Seq<char>, at: int)
    requires
        0 < at < parts.len(),
    ensures
        joined(parts, separator) == joined(parts.take(at), separator) + separator + joined(
            parts.skip(at),
            separator,
        ),
    decreases parts.len(),
{
    if at == parts.len() - 1 {
        assert(parts.take(at) == parts.drop_last());
        assert(parts.skip(at) == seq![parts.last()]);
    } else {
        let head = parts.drop_last();
        lemma_joined_cut(head, separator, at);
        assert(head.take(at) == parts.take(at));
        assert(parts.skip(at).drop_last() == head.skip(at));
        assert(parts.skip(at).last() == parts.last());
        let a = joined(parts.take(at), separator);
        let b = joined(head.skip(at), separator);
        assert(a + separator + b + separator + parts.last() == a + separator + (b + separator
            + parts.last()));
    }
}

/// Whether a text is empty or ends with its last line.
pub open spec fn is_ended(text: Seq<char>) -> bool {
    text.len() == 0 || text.last() == '\n'
}

/// The lines of two texts behind each other, where the first ends with its last
/// line.
pub proof fn lemma_lines_concat(a: Seq<char>, b: Seq<char>)
    requires
        is_ended(a),
    ensures
        lines_of(a + b) == lines_of(a) + lines_of(b),
{
    let first = split_at(a, '\n');
    let second = split_at(b, '\n');
    let all = split_at(a + b, '\n');
    lemma_pieces_nonempty(a, is_char('\n'));
    lemma_pieces_nonempty(b, is_char('\n'));
    lemma_pieces_nonempty(a + b, is_char('\n'));
    lemma_pieces_concat(a, b, is_char('\n'));
    assert(first.last() == Seq::<char>::empty());
    assert(Seq::<char>::empty() + second[0] == second[0]);
    assert(all == first.drop_last() + second);
    assert(all.last() == second.last());
    assert(all.drop_last() == first.drop_last() + second.drop_last());
    let plain = |line: Seq<char>| without_return(line);
    assert(all.drop_last().map_values(plain) == first.drop_last().map_values(plain)
        + second.drop_last().map_values(plain));
    assert(lines_of(a + b) == lines_of(a) + lines_of(b));
}

/// The lines of a text without carriage returns are its pieces.
pub proof fn lemma_lines_are_pieces(text: Seq<char>)
    requires
        !text.contains('\r'),
    ensures
        ({
            let parts = split_at(text, '\n');
            lines_of(text) == (if parts.last().len() == 0 {
                parts.drop_last()
            } else {
                parts
            })
        }),
{
    let parts = split_at(text, '\n');
    lemma_pieces_nonempty(text, is_char('\n'));
    lemma_pieces_hold(text, is_char('\n'), '\r');
    let ended = parts.drop_last().map_values(|line: Seq<char>| without_return(line));
    assert forall|k: int| 0 <= k < parts.drop_last().len() implies #[trigger] ended[k]
        == parts.drop_last()[k] by {
        let line = parts[k];
        assert(!line.contains('\r'));
        if line.len() > 0 && line.last() == '\r' {
            assert(line[line.len() - 1] == '\r');
        }
    }
    assert(ended == parts.drop_last());
    assert(parts.drop_last().push(parts.last()) == parts);
}

} // verus!
