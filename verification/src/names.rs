//! What holds of the names that are made from the names of profiles.
use vstd::prelude::*;
use vstd::utf8::*;

use crate::container_sessions::{
    container_name_of, is_name_break, name_parts, short_socket, slug_of,
};
use crate::relay_launch::{name_hash, UNIX_SOCKET_PATH_BYTES, WAYPIPE_CLIENT_SUFFIX_RESERVE};
use crate::splitting::{
    is_whole, lemma_pieces_are_whole, lemma_pieces_of_joined, lemma_pieces_of_whole,
};
use crate::text::{
    decimal, hexadecimal, is_alphanumeric, is_digit, joined, lemma_pieces_nonempty, lower, lowered,
    pieces, without_empty,
};

verus! {

/// A lower-case letter or a digit.
pub open spec fn is_plain(c: char) -> bool {
    is_digit(c) || 'a' <= c <= 'z'
}

/// Letters in lower case and digits, and at least one of them.
pub open spec fn is_part(text: Seq<char>) -> bool {
    text.len() > 0 && forall|i: int| 0 <= i < text.len() ==> is_plain(#[trigger] text[i])
}

/// A character of a name that was made.
pub open spec fn is_name_char(c: char) -> bool {
    is_plain(c) || c == '-'
}

pub open spec fn is_made_of_name_chars(text: Seq<char>) -> bool {
    forall|i: int| 0 <= i < text.len() ==> is_name_char(#[trigger] text[i])
}

proof fn lemma_pieces_stay_lowered(text: Seq<char>, separates: spec_fn(char) -> bool)
    requires
        forall|i: int| 0 <= i < text.len() ==> lower(#[trigger] text[i]) == text[i],
    ensures
        forall|k: int, i: int|
            0 <= k < pieces(text, separates).len() && 0 <= i < pieces(text, separates)[k].len()
                ==> lower(#[trigger] pieces(text, separates)[k][i]) == pieces(
                text,
                separates,
            )[k][i],
    decreases text.len(),
{
    if text.len() > 0 {
        let head = text.drop_last();
        assert forall|i: int| 0 <= i < head.len() implies lower(#[trigger] head[i]) == head[i] by {
            assert(text[i] == head[i]);
        }
        lemma_pieces_stay_lowered(head, separates);
        lemma_pieces_nonempty(head, separates);
        let before = pieces(head, separates);
        let all = pieces(text, separates);
        assert forall|k: int, i: int| 0 <= k < all.len() && 0 <= i < all[k].len() implies lower(
            #[trigger] all[k][i],
        ) == all[k][i] by {
            if separates(text.last()) {
                if k < before.len() {
                    assert(all[k][i] == before[k][i]);
                }
            } else if k < before.len() - 1 {
                assert(all[k][i] == before[k][i]);
            } else if i < before.last().len() {
                assert(all[k][i] == before[before.len() - 1][i]);
            } else {
                assert(all[k][i] == text[text.len() - 1]);
            }
        }
    }
}

/// The pieces that hold something are among the pieces.
proof fn lemma_without_empty(parts: Seq<Seq<char>>)
    ensures
        forall|k: int|
            0 <= k < without_empty(parts).len() ==> (#[trigger] without_empty(parts)[k]).len() > 0
                && parts.contains(without_empty(parts)[k]),
    decreases parts.len(),
{
    if parts.len() > 0 {
        let head = parts.drop_last();
        lemma_without_empty(head);
        let all = without_empty(parts);
        assert forall|k: int| 0 <= k < all.len() implies (#[trigger] all[k]).len() > 0
            && parts.contains(all[k]) by {
            let before = without_empty(head);
            if k < before.len() {
                assert(all[k] == before[k]);
                let j = choose|j: int| 0 <= j < head.len() && head[j] == before[k];
                assert(parts[j] == all[k]);
            } else {
                assert(all[k] == parts[parts.len() - 1]);
            }
        }
    }
}

proof fn lemma_nothing_empty(parts: Seq<Seq<char>>)
    requires
        forall|k: int| 0 <= k < parts.len() ==> (#[trigger] parts[k]).len() > 0,
    ensures
        without_empty(parts) == parts,
    decreases parts.len(),
{
    if parts.len() > 0 {
        let head = parts.drop_last();
        assert forall|k: int| 0 <= k < head.len() implies (#[trigger] head[k]).len() > 0 by {
            assert(parts[k] == head[k]);
        }
        lemma_nothing_empty(head);
        assert(parts[parts.len() - 1].len() > 0);
        assert(head.push(parts.last()) == parts);
    }
}

/// The parts of a name are lower-case letters and digits.
proof fn lemma_name_parts(name: Seq<char>)
    ensures
        forall|k: int| 0 <= k < name_parts(name).len() ==> is_part(#[trigger] name_parts(name)[k]),
{
    let text = lowered(name);
    let separates = is_name_break();
    let all = pieces(text, separates);
    let parts = name_parts(name);
    assert forall|i: int| 0 <= i < text.len() implies lower(#[trigger] text[i]) == text[i] by {
        assert(text[i] == lower(name[i]));
    }
    lemma_pieces_stay_lowered(text, separates);
    lemma_pieces_are_whole(text, separates);
    lemma_without_empty(all);
    assert forall|k: int| 0 <= k < parts.len() implies is_part(#[trigger] parts[k]) by {
        let j = choose|j: int| 0 <= j < all.len() && all[j] == parts[k];
        assert(is_whole(all[j], separates));
        assert forall|i: int| 0 <= i < parts[k].len() implies is_plain(#[trigger] parts[k][i]) by {
            let c = all[j][i];
            assert(!separates(c));
            assert(is_alphanumeric(c));
            assert(lower(c) == c);
        }
    }
}

proof fn lemma_joined_chars(parts: Seq<Seq<char>>)
    requires
        forall|k: int| 0 <= k < parts.len() ==> is_part(#[trigger] parts[k]),
    ensures
        is_made_of_name_chars(joined(parts, "-"@)),
        parts.len() > 0 ==> joined(parts, "-"@).len() > 0,
    decreases parts.len(),
{
    reveal_strlit("-");
    if parts.len() == 1 {
        assert(is_part(parts[0]));
    } else if parts.len() > 1 {
        let head = parts.drop_last();
        assert forall|k: int| 0 <= k < head.len() implies is_part(#[trigger] head[k]) by {
            assert(parts[k] == head[k]);
        }
        lemma_joined_chars(head);
        assert(is_part(parts[parts.len() - 1]));
    }
}

/// A name that is made holds nothing but lower-case letters, digits and hyphens,
/// and is not empty, where that holds of the name for want of a better one.
pub proof fn law_slug_is_plain(name: Seq<char>, fallback: Seq<char>)
    requires
        fallback.len() > 0,
        is_made_of_name_chars(fallback),
    ensures
        slug_of(name, fallback).len() > 0,
        is_made_of_name_chars(slug_of(name, fallback)),
{
    lemma_name_parts(name);
    lemma_joined_chars(name_parts(name));
}

/// A name that is made from a made name is that name.
pub proof fn law_slug_is_stable(name: Seq<char>, fallback: Seq<char>)
    requires
        slug_of(fallback, fallback) == fallback,
    ensures
        slug_of(slug_of(name, fallback), fallback) == slug_of(name, fallback),
{
    let parts = name_parts(name);
    let slug = joined(parts, "-"@);
    lemma_name_parts(name);
    lemma_joined_chars(parts);
    if slug.len() > 0 {
        reveal_strlit("-");
        assert("-"@ == seq!['-']);
        let separates = is_name_break();
        assert(lowered(slug) == slug) by {
            assert forall|i: int| 0 <= i < slug.len() implies lower(slug[i]) == #[trigger] slug[i] by {
                assert(is_name_char(slug[i]));
            }
        }
        assert forall|k: int| 0 <= k < parts.len() implies is_whole(
            #[trigger] parts[k],
            separates,
        ) by {
            assert(is_part(parts[k]));
            assert forall|i: int| 0 <= i < parts[k].len() implies !separates(
                #[trigger] parts[k][i],
            ) by {
                assert(is_plain(parts[k][i]));
            }
        }
        assert(parts.len() > 0);
        lemma_pieces_of_joined(parts, '-', separates);
        assert forall|k: int| 0 <= k < parts.len() implies (#[trigger] parts[k]).len() > 0 by {
            assert(is_part(parts[k]));
        }
        lemma_nothing_empty(parts);
        assert(name_parts(slug) == parts);
    }
}

// ---------------------------------------------------------------------------
// Hyphens, and what stands between them
// ---------------------------------------------------------------------------
/// Something that neither begins nor ends with a hyphen, and in which no two
/// hyphens stand side by side.
pub open spec fn is_tidy(text: Seq<char>) -> bool {
    &&& text.len() > 0
    &&& text.first() != '-'
    &&& text.last() != '-'
    &&& forall|i: int|
        0 <= i < text.len() - 1 && #[trigger] text[i] == '-' ==> text[i + 1] != '-'
}

/// The letters and digits of a name, in lower case.
pub open spec fn letters_of(name: Seq<char>) -> Seq<char> {
    lowered(name).filter(|c: char| is_alphanumeric(c))
}

/// A text without its hyphens.
pub open spec fn without_hyphens(text: Seq<char>) -> Seq<char> {
    text.filter(|c: char| c != '-')
}

/// Texts behind each other.
spec fn run_on(parts: Seq<Seq<char>>) -> Seq<char>
    decreases parts.len(),
{
    if parts.len() == 0 {
        Seq::empty()
    } else {
        run_on(parts.drop_last()) + parts.last()
    }
}

proof fn lemma_run_on_filled(parts: Seq<Seq<char>>)
    ensures
        run_on(without_empty(parts)) == run_on(parts),
    decreases parts.len(),
{
    if parts.len() > 0 {
        let head = parts.drop_last();
        lemma_run_on_filled(head);
        if parts.last().len() == 0 {
            assert(run_on(head) + parts.last() == run_on(head));
        } else {
            let filled = without_empty(head).push(parts.last());
            assert(filled.drop_last() == without_empty(head));
        }
    }
}

/// The pieces of a text are the text without what separates them.
proof fn lemma_run_on_pieces(text: Seq<char>, keeps: spec_fn(char) -> bool)
    ensures
        run_on(pieces(text, |c: char| !keeps(c))) == text.filter(keeps),
    decreases text.len(),
{
    reveal(Seq::filter);
    let separates = |c: char| !keeps(c);
    let all = pieces(text, separates);
    if text.len() == 0 {
        assert(all.drop_last() == Seq::<Seq<char>>::empty());
        assert(run_on(all.drop_last()) == Seq::<char>::empty());
        assert(run_on(all) == Seq::<char>::empty());
    } else {
        let head = text.drop_last();
        let before = pieces(head, separates);
        lemma_run_on_pieces(head, keeps);
        lemma_pieces_nonempty(head, separates);
        if separates(text.last()) {
            assert(all.drop_last() == before);
            assert(run_on(all) == run_on(before));
        } else {
            assert(all.drop_last() == before.drop_last());
            assert(all.last() == before.last().push(text.last()));
            assert(run_on(all) == run_on(before).push(text.last()));
        }
    }
}

proof fn lemma_part_is_kept(part: Seq<char>)
    requires
        forall|i: int| 0 <= i < part.len() ==> #[trigger] part[i] != '-',
    ensures
        without_hyphens(part) == part,
    decreases part.len(),
{
    reveal(Seq::filter);
    if part.len() > 0 {
        let head = part.drop_last();
        assert forall|i: int| 0 <= i < head.len() implies #[trigger] head[i] != '-' by {
            assert(head[i] == part[i]);
        }
        lemma_part_is_kept(head);
        assert(part[part.len() - 1] != '-');
        assert(head.push(part.last()) == part);
    }
}

proof fn lemma_hyphens_between(x: Seq<char>, y: Seq<char>)
    ensures
        without_hyphens(x + y) == without_hyphens(x) + without_hyphens(y),
{
    Seq::filter_distributes_over_add(x, y, |c: char| c != '-');
}

/// Parts with hyphens between them are tidy, and hold nothing else.
proof fn lemma_joined_is_tidy(parts: Seq<Seq<char>>)
    requires
        parts.len() > 0,
        forall|k: int| 0 <= k < parts.len() ==> is_part(#[trigger] parts[k]),
    ensures
        is_tidy(joined(parts, "-"@)),
        without_hyphens(joined(parts, "-"@)) == run_on(parts),
    decreases parts.len(),
{
    reveal_strlit("-");
    assert("-"@ == seq!['-']);
    let last = parts[parts.len() - 1];
    assert(is_part(last));
    assert forall|i: int| 0 <= i < last.len() implies #[trigger] last[i] != '-' by {
        assert(is_plain(last[i]));
    }
    lemma_part_is_kept(last);
    let head = parts.drop_last();
    if parts.len() == 1 {
        assert(run_on(head) == Seq::<char>::empty());
        assert(run_on(parts) == last);
        assert(joined(parts, "-"@) == last);
    } else {
        assert forall|k: int| 0 <= k < head.len() implies is_part(#[trigger] head[k]) by {
            assert(parts[k] == head[k]);
        }
        lemma_joined_is_tidy(head);
        let start = joined(head, "-"@);
        let all = joined(parts, "-"@);
        assert(all == start + seq!['-'] + last);
        lemma_hyphens_between(start + seq!['-'], last);
        lemma_hyphens_between(start, seq!['-']);
        assert(without_hyphens(seq!['-']) == Seq::<char>::empty()) by {
            reveal(Seq::filter);
            assert(seq!['-'].drop_last() == Seq::<char>::empty());
            assert(Seq::<char>::empty().filter(|c: char| c != '-') == Seq::<char>::empty());
        }
        assert(without_hyphens(start) + Seq::<char>::empty() == without_hyphens(start));
        assert(all.first() == start.first());
        assert(all.last() == last.last());
        assert forall|i: int| 0 <= i < all.len() - 1 && #[trigger] all[i] == '-' implies all[i + 1]
            != '-' by {
            if i < start.len() - 1 {
                assert(all[i] == start[i]);
                assert(all[i + 1] == start[i + 1]);
            } else if i == start.len() - 1 {
                assert(all[i] == start.last());
            } else if i == start.len() {
                assert(all[i + 1] == last[0]);
            } else {
                assert(all[i] == last[i - start.len() - 1]);
            }
        }
    }
}

/// A name that is made keeps the letters and digits of the name that it is made
/// from, in lower case and in their order, with single hyphens between some of
/// them. Where there are none, it is the name for want of a better one.
pub proof fn law_slug_keeps_letters(name: Seq<char>, fallback: Seq<char>)
    ensures
        letters_of(name).len() == 0 ==> slug_of(name, fallback) == fallback,
        letters_of(name).len() > 0 ==> {
            &&& is_tidy(slug_of(name, fallback))
            &&& without_hyphens(slug_of(name, fallback)) == letters_of(name)
        },
{
    let text = lowered(name);
    let parts = name_parts(name);
    let keeps = |c: char| is_alphanumeric(c);
    assert(is_name_break() =~= (|c: char| !keeps(c)));
    lemma_run_on_pieces(text, keeps);
    lemma_run_on_filled(pieces(text, is_name_break()));
    assert(run_on(parts) == letters_of(name));
    lemma_name_parts(name);
    if parts.len() > 0 {
        lemma_joined_is_tidy(parts);
        assert(is_part(parts[parts.len() - 1]));
        assert(run_on(parts).len() > 0);
    }
}

/// A slug is never empty, holds nothing but lower-case letters, digits and single
/// hyphens between them, and is its own slug.
pub proof fn law_slug_is_tidy(name: Seq<char>)
    ensures
        is_tidy(slug_of(name, "container"@)),
        is_made_of_name_chars(slug_of(name, "container"@)),
        slug_of(slug_of(name, "container"@), "container"@) == slug_of(name, "container"@),
{
    reveal_strlit("container");
    let fallback = "container"@;
    assert(is_part(fallback));
    assert(lowered(fallback) == fallback);
    assert forall|i: int| 0 <= i < fallback.len() implies !is_name_break()(
        #[trigger] fallback[i],
    ) by {
        assert(is_plain(fallback[i]));
    }
    lemma_pieces_of_whole(fallback, is_name_break());
    lemma_nothing_empty(seq![fallback]);
    assert(name_parts(fallback) == seq![fallback]);
    assert(slug_of(fallback, fallback) == fallback);
    law_slug_keeps_letters(name, fallback);
    law_slug_is_plain(name, fallback);
    law_slug_is_stable(name, fallback);
}

/// The name of a container is always one that runtimes accept: lower-case
/// letters, digits and hyphens.
pub proof fn law_container_name_is_plain(name: Seq<char>)
    ensures
        is_made_of_name_chars(container_name_of(name)),
{
    reveal_strlit("cocoa-way-");
    reveal_strlit("container");
    law_slug_is_plain(name, "container"@);
    let slug = slug_of(name, "container"@);
    let start = "cocoa-way-"@;
    assert forall|i: int| 0 <= i < container_name_of(name).len() implies is_name_char(
        #[trigger] container_name_of(name)[i],
    ) by {
        if i < start.len() {
            assert(container_name_of(name)[i] == start[i]);
        } else {
            assert(container_name_of(name)[i] == slug[i - start.len()]);
        }
    }
}

/// A number has so many digits at most if it is below that power of ten.
pub open spec fn power_of_ten(exponent: nat) -> nat
    decreases exponent,
{
    if exponent == 0 {
        1
    } else {
        10 * power_of_ten((exponent - 1) as nat)
    }
}

proof fn lemma_decimal(value: nat, digits: nat)
    requires
        digits > 0,
        value < power_of_ten(digits),
    ensures
        decimal(value).len() <= digits,
        is_ascii_chars(decimal(value)),
    decreases digits,
{
    if value >= 10 {
        assert(digits > 1) by {
            reveal_with_fuel(power_of_ten, 2);
        }
        assert(power_of_ten(digits) == 10 * power_of_ten((digits - 1) as nat));
        lemma_decimal(value / 10, (digits - 1) as nat);
    }
}

proof fn lemma_hexadecimal(value: nat, width: nat)
    ensures
        hexadecimal(value, width).len() == width,
        is_ascii_chars(hexadecimal(value, width)),
    decreases width,
{
    if width > 0 {
        lemma_hexadecimal(value / 16, (width - 1) as nat);
    }
}

/// Whatever a profile is called, the socket that is made for it leaves room for
/// what waypipe adds to its name.
pub proof fn law_short_socket_fits(uid: u32, pid: u32, name: Seq<char>)
    ensures
        encode_utf8(short_socket(uid, pid, name)).len() + WAYPIPE_CLIENT_SUFFIX_RESERVE
            <= UNIX_SOCKET_PATH_BYTES,
{
    assert(power_of_ten(10) == 10000000000) by {
        reveal_with_fuel(power_of_ten, 11);
    }
    lemma_decimal(uid as nat, 10);
    lemma_decimal(pid as nat, 10);
    lemma_hexadecimal((name_hash(name) % 0x1_0000_0000) as nat, 8);
    reveal_strlit("/tmp/cw-");
    reveal_strlit("-");
    reveal_strlit("/");
    reveal_strlit(".sock");
    reveal_strlit("container");
    law_slug_is_plain(name, "container"@);
    let slug = slug_of(name, "container"@);
    let kept = slug.take(
        if slug.len() < 24 {
            slug.len() as int
        } else {
            24
        },
    );
    assert(is_ascii_chars(kept)) by {
        assert forall|i: int| 0 <= i < kept.len() implies '\0' <= #[trigger] kept[i] <= '\u{7f}' by {
            assert(is_name_char(slug[i]));
        }
    }
    let path = short_socket(uid, pid, name);
    assert(path.len() <= 68);
    assert(is_ascii_chars(path));
    is_ascii_chars_encode_utf8(path);
}

} // verus!
