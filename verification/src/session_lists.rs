//! Which profiles a reader finds in a file, and which it finds once a profile was
//! added, replaced or removed.
//!
//! A reader goes block by block; one of them is the model of a reader of TOML that
//! reads the profiles.
use vstd::prelude::*;
use vstd::string::*;

use crate::container_sessions::SessionView;
use crate::session_config::{
    appended, header_offsets, is_session_header, lines_size, ranges_of, removed_session,
    replaced_session, session_toml, with_blank_line, with_feed,
};
use crate::session_files::{
    is_quiet, law_profile_can_be_cut, law_profile_is_one_block, law_remove_takes_one,
    law_replaced_profile_is_found, lemma_cut, lemma_divided, lemma_empty_is_no_header,
    lemma_first_header, lemma_header_line, lemma_headers_concat, lemma_line_is_quiet,
    lemma_lines_of_empty, lemma_one_line, lemma_quiet_concat, parts_around,
};
use crate::session_reading::{
    entries_in, entry_in, is_comment, is_plain_block, is_plain_line, is_writable, kept_session,
    law_saved_profile_is_read_back, names_in, read_session,
};
use crate::splitting::{is_ended, lemma_lines_concat};
use crate::text::{
    is_char, lemma_pieces_nonempty, lines_of, split_at, split_first, without_return,
};

verus! {

// ---------------------------------------------------------------------------
// The profiles of a file
// ---------------------------------------------------------------------------
/// The lines of each profile: the line that starts it, and those up to the start
/// of the next one.
pub open spec fn blocks(lines: Seq<Seq<char>>) -> Seq<Seq<Seq<char>>>
    decreases lines.len(),
{
    if lines.len() == 0 {
        Seq::empty()
    } else {
        let before = blocks(lines.drop_last());
        if is_session_header(lines.last()) {
            before.push(seq![lines.last()])
        } else if before.len() == 0 {
            before
        } else {
            before.drop_last().push(before.last().push(lines.last()))
        }
    }
}

/// The profiles that blocks hold for one who reads a block so; none if one of the
/// blocks holds none.
pub open spec fn read_blocks(
    blocks: Seq<Seq<Seq<char>>>,
    reads: spec_fn(Seq<Seq<char>>) -> Option<SessionView>,
) -> Option<Seq<SessionView>> {
    if forall|i: int| 0 <= i < blocks.len() ==> reads(#[trigger] blocks[i]) is Some {
        Some(Seq::new(blocks.len(), |i: int| reads(blocks[i])->0))
    } else {
        None
    }
}

/// The profiles of a file for one who reads a block so; none if one of them cannot
/// be read.
pub open spec fn read_file(
    content: Seq<char>,
    reads: spec_fn(Seq<Seq<char>>) -> Option<SessionView>,
) -> Option<Seq<SessionView>> {
    read_blocks(blocks(lines_of(content)), reads)
}

/// The lines before the first profile.
pub open spec fn opening(lines: Seq<Seq<char>>) -> Seq<Seq<char>>
    decreases lines.len(),
{
    if lines.len() == 0 {
        Seq::empty()
    } else if header_offsets(lines).len() > 0 {
        opening(lines.drop_last())
    } else {
        lines
    }
}

/// Whether there are but empty lines and comments before the first profile.
pub open spec fn is_plain_opening(lines: Seq<Seq<char>>) -> bool {
    forall|i: int|
        0 <= i < opening(lines).len() ==> (#[trigger] opening(lines)[i]).len() == 0 || is_comment(
            opening(lines)[i],
        )
}

/// The profiles of a file; none if one of them cannot be read, or if something else
/// stands before the first.
pub open spec fn read_profiles(content: Seq<char>) -> Option<Seq<SessionView>> {
    if is_plain_opening(lines_of(content)) {
        read_file(content, |lines: Seq<Seq<char>>| read_session(lines))
    } else {
        None
    }
}

/// Whether a reader finds in what is written of a profile that profile, without its
/// empty values.
pub open spec fn reads_back(
    reads: spec_fn(Seq<Seq<char>>) -> Option<SessionView>,
    session: SessionView,
) -> bool {
    reads(lines_of(session_toml(session))) == Some(kept_session(session))
}

/// Whether an empty line behind a profile makes no difference to a reader.
pub open spec fn skips_blank_ends(reads: spec_fn(Seq<Seq<char>>) -> Option<SessionView>) -> bool {
    forall|block: Seq<Seq<char>>|
        reads(#[trigger] block.push(Seq::<char>::empty())) == reads(block)
}

/// Every line that starts a profile starts a block.
proof fn lemma_block_count(lines: Seq<Seq<char>>)
    ensures
        blocks(lines).len() == header_offsets(lines).len(),
    decreases lines.len(),
{
    if lines.len() > 0 {
        lemma_block_count(lines.drop_last());
    }
}

/// Lines that begin with a profile add its block and those behind it.
proof fn lemma_blocks_concat(x: Seq<Seq<char>>, y: Seq<Seq<char>>)
    requires
        y.len() > 0 ==> is_session_header(y[0]),
    ensures
        blocks(x + y) == blocks(x) + blocks(y),
        y.len() > 0 ==> blocks(y).len() > 0,
    decreases y.len(),
{
    if y.len() == 0 {
        assert(x + y == x);
        assert(blocks(x) + blocks(y) == blocks(x));
    } else {
        let head = y.drop_last();
        assert(head.len() > 0 ==> head[0] == y[0]);
        lemma_blocks_concat(x, head);
        assert((x + y).drop_last() == x + head);
        assert((x + y).last() == y.last());
        let whole = blocks(x + head);
        if is_session_header(y.last()) {
            assert(whole.push(seq![y.last()]) == blocks(x) + blocks(head).push(seq![y.last()]));
        } else {
            assert(head.len() > 0);
            assert(whole.last() == blocks(head).last());
            assert(whole.drop_last() == blocks(x) + blocks(head).drop_last());
            let longer = blocks(head).last().push(y.last());
            assert(whole.drop_last().push(longer) == blocks(x) + blocks(head).drop_last().push(
                longer,
            ));
        }
    }
}

/// Profiles behind lines change nothing of what stands before the first.
proof fn lemma_opening_concat(x: Seq<Seq<char>>, y: Seq<Seq<char>>)
    requires
        y.len() > 0 ==> is_session_header(y[0]),
    ensures
        opening(x + y) == opening(x),
    decreases y.len(),
{
    if y.len() == 0 {
        assert(x + y == x);
    } else {
        let head = y.drop_last();
        assert(head.len() > 0 ==> head[0] == y[0]);
        lemma_opening_concat(x, head);
        assert((x + y).drop_last() == x + head);
        lemma_headers_concat(x, y);
        lemma_first_header(y);
        assert(header_offsets(x + y).len() > 0);
    }
}

/// An empty line does not make an opening plain, nor does it spoil it.
proof fn lemma_blank_opening(lines: Seq<Seq<char>>)
    ensures
        is_plain_opening(lines.push(Seq::<char>::empty())) == is_plain_opening(lines),
{
    let none = Seq::<char>::empty();
    let longer = lines.push(none);
    lemma_empty_is_no_header();
    assert(longer.drop_last() == lines);
    assert(longer.last() == none);
    assert(header_offsets(longer) == header_offsets(lines));
    if header_offsets(lines).len() == 0 {
        assert(opening(longer) == longer);
        assert(opening(lines) == lines);
        if is_plain_opening(lines) {
            assert forall|i: int| 0 <= i < longer.len() implies (#[trigger] longer[i]).len() == 0
                || is_comment(longer[i]) by {
                if i < lines.len() {
                    assert(longer[i] == lines[i]);
                    assert(opening(lines)[i].len() == 0 || is_comment(opening(lines)[i]));
                }
            }
            assert(is_plain_opening(longer));
        }
        if is_plain_opening(longer) {
            assert forall|i: int| 0 <= i < lines.len() implies (#[trigger] lines[i]).len() == 0
                || is_comment(lines[i]) by {
                assert(longer[i] == lines[i]);
                assert(opening(longer)[i].len() == 0 || is_comment(opening(longer)[i]));
            }
        }
    } else {
        assert(opening(longer) == opening(lines));
    }
}

/// Lines of which just the first starts a profile are one block.
proof fn lemma_one_block(lines: Seq<Seq<char>>)
    requires
        lines.len() > 0,
        is_session_header(lines[0]),
        header_offsets(lines).len() == 1,
    ensures
        blocks(lines) == seq![lines],
    decreases lines.len(),
{
    let head = lines.drop_last();
    if head.len() == 0 {
        assert(blocks(head) == Seq::<Seq<Seq<char>>>::empty());
        assert(lines == seq![lines.last()]);
    } else {
        assert(head[0] == lines[0]);
        lemma_first_header(head);
        assert(!is_session_header(lines.last()));
        lemma_one_block(head);
        assert(seq![head].drop_last() == Seq::<Seq<Seq<char>>>::empty());
        assert(head.push(lines.last()) == lines);
    }
}

proof fn lemma_size_grows(lines: Seq<Seq<char>>)
    ensures
        lines_size(lines) >= lines.len(),
    decreases lines.len(),
{
    if lines.len() > 0 {
        lemma_size_grows(lines.drop_last());
    }
}

/// What is written of a profile is one block.
proof fn lemma_written_block(session: SessionView)
    ensures
        is_ended(session_toml(session)),
        lines_of(session_toml(session)).len() > 0,
        is_session_header(lines_of(session_toml(session))[0]),
        blocks(lines_of(session_toml(session))) == seq![lines_of(session_toml(session))],
{
    let lines = lines_of(session_toml(session));
    law_profile_is_one_block(session);
    let at = lemma_header_line(lines, 0);
    lemma_size_grows(lines.take(at));
    lemma_one_block(lines);
}

// ---------------------------------------------------------------------------
// Blocks that are read
// ---------------------------------------------------------------------------
proof fn lemma_read_concat(
    x: Seq<Seq<Seq<char>>>,
    y: Seq<Seq<Seq<char>>>,
    reads: spec_fn(Seq<Seq<char>>) -> Option<SessionView>,
)
    ensures
        read_blocks(x + y, reads) is Some <==> read_blocks(x, reads) is Some && read_blocks(
            y,
            reads,
        ) is Some,
        read_blocks(x + y, reads) is Some ==> read_blocks(x + y, reads)->0 == read_blocks(x, reads)->0 + read_blocks(y, reads)->0,
{
    let all = x + y;
    assert forall|i: int| 0 <= i < x.len() implies #[trigger] x[i] == all[i] by {}
    assert forall|i: int| 0 <= i < y.len() implies #[trigger] y[i] == all[x.len() + i] by {}
    if read_blocks(x, reads) is Some && read_blocks(y, reads) is Some {
        assert forall|i: int| 0 <= i < all.len() implies reads(#[trigger] all[i]) is Some by {
            if i < x.len() {
                assert(all[i] == x[i]);
            } else {
                assert(all[i] == y[i - x.len()]);
            }
        }
    }
    if read_blocks(all, reads) is Some {
        assert forall|i: int| 0 <= i < x.len() implies reads(#[trigger] x[i]) is Some by {
            assert(all[i] == x[i]);
        }
        assert forall|i: int| 0 <= i < y.len() implies reads(#[trigger] y[i]) is Some by {
            assert(all[x.len() + i] == y[i]);
        }
        assert(read_blocks(all, reads)->0 =~= read_blocks(x, reads)->0 + read_blocks(y, reads)->0);
    }
}

/// What is written of a profile is read as that profile.
proof fn lemma_read_written(
    session: SessionView,
    reads: spec_fn(Seq<Seq<char>>) -> Option<SessionView>,
)
    requires
        reads_back(reads, session),
    ensures
        read_blocks(seq![lines_of(session_toml(session))], reads) == Some(
            seq![kept_session(session)],
        ),
{
    let lines = lines_of(session_toml(session));
    let all = seq![lines];
    assert(all[0] == lines);
    assert(read_blocks(all, reads)->0 =~= seq![kept_session(session)]);
}

/// An empty line says nothing.
proof fn lemma_blank_line(
    lines: Seq<Seq<char>>,
    reads: spec_fn(Seq<Seq<char>>) -> Option<SessionView>,
)
    requires
        skips_blank_ends(reads),
    ensures
        read_blocks(blocks(lines.push(Seq::<char>::empty())), reads) == read_blocks(
            blocks(lines),
            reads,
        ),
{
    let none = Seq::<char>::empty();
    let longer = lines.push(none);
    let before = blocks(lines);
    lemma_empty_is_no_header();
    assert(longer.drop_last() == lines);
    assert(longer.last() == none);
    if before.len() > 0 {
        let block = before.last();
        let more = block.push(none);
        assert(reads(more) == reads(block));
        let after = before.drop_last().push(more);
        assert(before.drop_last().push(block) == before);
        lemma_read_concat(before.drop_last(), seq![block], reads);
        lemma_read_concat(before.drop_last(), seq![more], reads);
        assert(before.drop_last() + seq![block] == before);
        assert(before.drop_last() + seq![more] == after);
        assert(seq![block][0] == block);
        assert(seq![more][0] == more);
        assert(read_blocks(seq![block], reads) is Some <==> reads(block) is Some);
        assert(read_blocks(seq![more], reads) is Some <==> reads(more) is Some);
        if reads(block) is Some {
            assert(read_blocks(seq![block], reads)->0 =~= read_blocks(seq![more], reads)->0);
        }
    }
}

/// An empty line behind a profile changes nothing of its form.
proof fn lemma_blank_keeps_plain(block: Seq<Seq<char>>)
    ensures
        is_plain_block(block.push(Seq::<char>::empty())) == is_plain_block(block),
{
    let none = Seq::<char>::empty();
    let more = block.push(none);
    reveal_strlit("[[session]]");
    assert(more.drop_last() == block);
    assert(more.last() == none);
    assert(split_first(none, ' ') is None);
    assert(names_in(more) == names_in(block));
    if block.len() == 0 {
        assert(more[0] == none);
    } else {
        assert(more[0] == block[0]);
        if is_plain_block(block) {
            assert forall|i: int| 1 <= i < more.len() implies is_plain_line(#[trigger] more[i]) by {
                if i < block.len() {
                    assert(more[i] == block[i]);
                }
            }
        }
        if is_plain_block(more) {
            assert forall|i: int| 1 <= i < block.len() implies is_plain_line(
                #[trigger] block[i],
            ) by {
                assert(more[i] == block[i]);
            }
        }
    }
}

/// The reader of profiles finds in what is written of a profile that profile, and
/// an empty line makes no difference to it.
proof fn lemma_reader(session: SessionView)
    requires
        is_writable(session),
    ensures
        reads_back(|lines: Seq<Seq<char>>| read_session(lines), session),
        skips_blank_ends(|lines: Seq<Seq<char>>| read_session(lines)),
{
    law_saved_profile_is_read_back(session);
    let reads = |lines: Seq<Seq<char>>| read_session(lines);
    let none = Seq::<char>::empty();
    assert(split_first(none, ' ') is None);
    assert(entry_in(none) is None);
    assert forall|block: Seq<Seq<char>>| reads(#[trigger] block.push(none)) == reads(block) by {
        let more = block.push(none);
        assert(more.drop_last() == block);
        assert(more.last() == none);
        assert(entries_in(more) == entries_in(block));
        lemma_blank_keeps_plain(block);
    }
}

/// A profile that can be written is read back as the one profile of its text, but for
/// values that are empty, which are left out.
pub proof fn law_saved_profile_is_alone(session: SessionView)
    requires
        is_writable(session),
    ensures
        read_profiles(session_toml(session)) == Some(seq![kept_session(session)]),
{
    lemma_written_block(session);
    lemma_reader(session);
    lemma_read_written(session, |lines: Seq<Seq<char>>| read_session(lines));
    let lines = lines_of(session_toml(session));
    let none = Seq::<Seq<char>>::empty();
    lemma_opening_concat(none, lines);
    assert(none + lines == lines);
}

// ---------------------------------------------------------------------------
// Adding a profile
// ---------------------------------------------------------------------------
/// The lines of a text that gets a line feed at its end.
proof fn lemma_feed_lines(text: Seq<char>)
    requires
        text.len() > 0 ==> text.last() != '\r',
    ensures
        lines_of(with_feed(text)) == lines_of(text) || lines_of(with_feed(text)) == lines_of(
            text,
        ).push(Seq::<char>::empty()),
        is_ended(with_feed(text)),
{
    if !(text.len() > 0 && text.last() == '\n') {
        let longer = text.push('\n');
        assert(longer.drop_last() == text);
        let parts = split_at(text, '\n');
        lemma_pieces_nonempty(text, is_char('\n'));
        let more = split_at(longer, '\n');
        assert(more == parts.push(Seq::<char>::empty()));
        assert(more.drop_last() == parts);
        let plain = |line: Seq<char>| without_return(line);
        let before = parts.drop_last().map_values(plain);
        let last = parts.last();
        assert(parts.map_values(plain) == before.push(without_return(last)));
        assert(lines_of(longer) == before.push(without_return(last)));
        if last.len() == 0 {
            assert(without_return(last) == Seq::<char>::empty());
            assert(lines_of(text) == before);
        } else {
            lemma_last_piece(text);
            assert(without_return(last) == last);
            assert(lines_of(text) == before.push(last));
        }
    }
}

/// A text ends as its last piece does, if that holds anything.
proof fn lemma_last_piece(text: Seq<char>)
    ensures
        split_at(text, '\n').last().len() > 0 ==> text.len() > 0 && split_at(
            text,
            '\n',
        ).last().last() == text.last(),
{
    if text.len() > 0 {
        lemma_pieces_nonempty(text.drop_last(), is_char('\n'));
    }
}

/// What is put behind a file to have an empty line there changes none of its
/// profiles.
proof fn lemma_blank_end(
    text: Seq<char>,
    reads: spec_fn(Seq<Seq<char>>) -> Option<SessionView>,
)
    requires
        skips_blank_ends(reads),
        text.len() > 0 ==> text.last() != '\r',
    ensures
        read_file(with_blank_line(text), reads) == read_file(text, reads),
        is_ended(with_blank_line(text)),
{
    lemma_feed_lines(text);
    lemma_blank_line(lines_of(text), reads);
    let ended = with_feed(text);
    if with_blank_line(text) != ended {
        let feed = seq!['\n'];
        let none = Seq::<char>::empty();
        assert(ended + feed == with_blank_line(text));
        lemma_lines_concat(ended, feed);
        assert(none.push('\n') == feed);
        lemma_one_line(none);
        assert(without_return(none) == none);
        assert(lines_of(ended) + seq![none] == lines_of(ended).push(none));
        lemma_blank_line(lines_of(ended), reads);
    }
}

/// Nor does it change what stands before the first of them.
proof fn lemma_blank_end_opening(text: Seq<char>)
    requires
        text.len() > 0 ==> text.last() != '\r',
    ensures
        is_plain_opening(lines_of(with_blank_line(text))) == is_plain_opening(lines_of(text)),
{
    lemma_feed_lines(text);
    lemma_blank_opening(lines_of(text));
    let ended = with_feed(text);
    if with_blank_line(text) != ended {
        let feed = seq!['\n'];
        let none = Seq::<char>::empty();
        assert(ended + feed == with_blank_line(text));
        lemma_lines_concat(ended, feed);
        assert(none.push('\n') == feed);
        lemma_one_line(none);
        assert(without_return(none) == none);
        assert(lines_of(ended) + seq![none] == lines_of(ended).push(none));
        lemma_blank_opening(lines_of(ended));
    }
}

/// A profile behind whole lines is read behind theirs.
proof fn lemma_read_behind(
    start: Seq<char>,
    session: SessionView,
    reads: spec_fn(Seq<Seq<char>>) -> Option<SessionView>,
)
    requires
        reads_back(reads, session),
        is_ended(start),
        read_file(start, reads) is Some,
    ensures
        read_file(start + session_toml(session), reads) == Some(
            read_file(start, reads)->0.push(kept_session(session)),
        ),
{
    let text = session_toml(session);
    lemma_written_block(session);
    lemma_read_written(session, reads);
    lemma_lines_concat(start, text);
    lemma_blocks_concat(lines_of(start), lines_of(text));
    lemma_read_concat(blocks(lines_of(start)), blocks(lines_of(text)), reads);
    let before = read_file(start, reads)->0;
    assert(before + seq![kept_session(session)] == before.push(kept_session(session)));
}

/// A file that is begun holds a heading and no profile.
proof fn lemma_heading(reads: spec_fn(Seq<Seq<char>>) -> Option<SessionView>)
    ensures
        read_file(
            "# cocoa-way container sessions\n# Container Mode owns local Linux GUI sessions.\n"@,
            reads,
        ) == Some(Seq::<SessionView>::empty()),
        is_plain_opening(
            lines_of(
                "# cocoa-way container sessions\n# Container Mode owns local Linux GUI sessions.\n"@,
            ),
        ),
{
    reveal_strlit(
        "# cocoa-way container sessions\n# Container Mode owns local Linux GUI sessions.\n",
    );
    let text = "# cocoa-way container sessions\n# Container Mode owns local Linux GUI sessions.\n"@;
    let first = text.take(30);
    let second = text.subrange(31, text.len() - 1);
    assert(text == first.push('\n') + second.push('\n'));
    lemma_line_is_quiet(first);
    lemma_line_is_quiet(second);
    lemma_quiet_concat(first.push('\n'), second.push('\n'));
    assert(is_quiet(text));
    lemma_block_count(lines_of(text));
    lemma_lines_concat(first.push('\n'), second.push('\n'));
    lemma_one_line(first);
    lemma_one_line(second);
    assert(without_return(first) == first);
    assert(without_return(second) == second);
    let lines = seq![first] + seq![second];
    assert(lines_of(text) == lines);
    assert(opening(lines) == lines);
    assert(is_comment(first));
    assert(is_comment(second));
    assert forall|i: int| 0 <= i < lines.len() implies (#[trigger] lines[i]).len() == 0
        || is_comment(lines[i]) by {
        assert(lines[i] == first || lines[i] == second);
    }
    assert(read_file(text, reads)->0 =~= Seq::<SessionView>::empty());
}

/// Once a profile was added to a file, whoever reads profiles back and skips empty
/// lines finds the profiles that were found before and, behind them, that profile
/// without its empty values. A file that was not there held none. What the file
/// held is still there, at its start.
pub proof fn law_every_reader_finds_added(
    content: Option<Seq<char>>,
    session: SessionView,
    profiles: Seq<SessionView>,
    reads: spec_fn(Seq<Seq<char>>) -> Option<SessionView>,
)
    requires
        reads_back(reads, session),
        skips_blank_ends(reads),
        match content {
            Some(text) => read_file(text, reads) == Some(profiles) && (text.len() > 0 ==> text.last()
                != '\r'),
            None => profiles.len() == 0,
        },
    ensures
        read_file(appended(content, session), reads) == Some(profiles.push(kept_session(session))),
        content is Some ==> content->0.is_prefix_of(appended(content, session)),
{
    let text = match content {
        Some(text) => text,
        None => "# cocoa-way container sessions\n# Container Mode owns local Linux GUI sessions.\n"@,
    };
    if content is None {
        lemma_heading(reads);
        reveal_strlit(
            "# cocoa-way container sessions\n# Container Mode owns local Linux GUI sessions.\n",
        );
        assert(profiles == Seq::<SessionView>::empty());
    }
    lemma_blank_end(text, reads);
    lemma_read_behind(with_blank_line(text), session, reads);
    assert(text.is_prefix_of(with_blank_line(text) + session_toml(session)));
}

/// Once a profile was added to a file, the profiles that were read before are read
/// again and, behind them, that profile without its empty values. A file that was
/// not there held none.
pub proof fn law_added_profile_is_read_last(
    content: Option<Seq<char>>,
    session: SessionView,
    profiles: Seq<SessionView>,
)
    requires
        is_writable(session),
        match content {
            Some(text) => read_profiles(text) == Some(profiles) && (text.len() > 0 ==> text.last()
                != '\r'),
            None => profiles.len() == 0,
        },
    ensures
        read_profiles(appended(content, session)) == Some(profiles.push(kept_session(session))),
{
    let reads = |lines: Seq<Seq<char>>| read_session(lines);
    lemma_reader(session);
    law_every_reader_finds_added(content, session, profiles, reads);
    let text = match content {
        Some(text) => text,
        None => "# cocoa-way container sessions\n# Container Mode owns local Linux GUI sessions.\n"@,
    };
    if content is None {
        lemma_heading(reads);
        reveal_strlit(
            "# cocoa-way container sessions\n# Container Mode owns local Linux GUI sessions.\n",
        );
    }
    lemma_blank_end(text, reads);
    lemma_blank_end_opening(text);
    lemma_written_block(session);
    lemma_lines_concat(with_blank_line(text), session_toml(session));
    lemma_opening_concat(lines_of(with_blank_line(text)), lines_of(session_toml(session)));
}

// ---------------------------------------------------------------------------
// Replacing and removing a profile
// ---------------------------------------------------------------------------
/// The lines of a file around a profile: those before `places.0`, those of the
/// profile, and those from `places.1` on.
proof fn lemma_lines_around(content: Seq<char>, index: int) -> (places: (int, int))
    requires
        !content.contains('\r'),
        0 <= index < ranges_of(content).len(),
    ensures
        0 <= places.0 < places.1 <= lines_of(content).len(),
        is_session_header(lines_of(content)[places.0]),
        places.1 < lines_of(content).len() ==> is_session_header(lines_of(content)[places.1]),
        header_offsets(lines_of(content).subrange(places.0, places.1)).len() == 1,
        header_offsets(lines_of(content).take(places.0)).len() == index,
        lines_of(parts_around(content, index).0) == lines_of(content).take(places.0),
        lines_of(parts_around(content, index).2) == lines_of(content).skip(places.1),
{
    let all = lines_of(content);
    let offsets = header_offsets(all);
    let at = lemma_header_line(all, index);
    let first = lemma_cut(content, at);
    lemma_divided(first.0, first.1);
    assert(parts_around(content, index).0 == first.0);
    if index + 1 < offsets.len() {
        let next = lemma_header_line(all, index + 1);
        let second = lemma_cut(content, next);
        lemma_divided(second.0, second.1);
        assert(parts_around(content, index).2 == second.1);
        if next <= at {
            assert(all.take(at) == all.take(next) + all.subrange(next, at));
            lemma_headers_concat(all.take(next), all.subrange(next, at));
        }
        assert(all.take(next) == all.take(at) + all.subrange(at, next));
        lemma_headers_concat(all.take(at), all.subrange(at, next));
        (at, next)
    } else {
        let none = Seq::<char>::empty();
        assert(content + none == content);
        lemma_divided(content, none);
        assert(parts_around(content, index).2 == none);
        lemma_lines_of_empty();
        let next = all.len() as int;
        assert(all.skip(next) == Seq::<Seq<char>>::empty());
        assert(all == all.take(at) + all.subrange(at, next));
        lemma_headers_concat(all.take(at), all.subrange(at, next));
        (at, next)
    }
}

/// The profiles of a file that is read stand in its blocks around one of them.
proof fn lemma_profiles_around(
    content: Seq<char>,
    index: int,
    reads: spec_fn(Seq<Seq<char>>) -> Option<SessionView>,
)
    requires
        !content.contains('\r'),
        0 <= index < ranges_of(content).len(),
        read_file(content, reads) is Some,
    ensures
        ({
            let (before, own, after) = parts_around(content, index);
            let profiles = read_file(content, reads)->0;
            &&& profiles.len() == ranges_of(content).len()
            &&& read_file(before, reads) == Some(profiles.take(index))
            &&& read_file(after, reads) == Some(profiles.skip(index + 1))
            &&& lines_of(after).len() > 0 ==> is_session_header(lines_of(after)[0])
        }),
{
    let all = lines_of(content);
    let (at, next) = lemma_lines_around(content, index);
    let head = all.take(at);
    let own = all.subrange(at, next);
    let tail = all.skip(next);
    lemma_block_count(all);
    lemma_block_count(head);
    lemma_one_block(own);
    assert(tail.len() > 0 ==> tail[0] == all[next]);
    assert(all == head + own + tail);
    lemma_blocks_concat(head + own, tail);
    lemma_blocks_concat(head, own);
    lemma_read_concat(blocks(head + own), blocks(tail), reads);
    lemma_read_concat(blocks(head), blocks(own), reads);
    let profiles = read_file(content, reads)->0;
    assert(profiles.take(index) == read_blocks(blocks(head), reads)->0);
    assert(profiles.skip(index + 1) == read_blocks(blocks(tail), reads)->0);
}

/// What stands before the first profile stands before each profile.
proof fn lemma_opening_around(content: Seq<char>, index: int)
    requires
        !content.contains('\r'),
        0 <= index < ranges_of(content).len(),
    ensures
        opening(lines_of(parts_around(content, index).0)) == opening(lines_of(content)),
{
    let all = lines_of(content);
    let (at, next) = lemma_lines_around(content, index);
    assert(all == all.take(at) + all.skip(at));
    assert(all.skip(at)[0] == all[at]);
    lemma_opening_concat(all.take(at), all.skip(at));
}

/// Whole lines behind anything end it.
proof fn lemma_ended_behind(before: Seq<char>, text: Seq<char>)
    requires
        is_ended(text),
        lines_of(text).len() > 0,
    ensures
        is_ended(before + text),
{
    lemma_lines_of_empty();
    if text.len() == 0 {
        assert(text == Seq::<char>::empty());
    }
    assert((before + text).last() == text.last());
}

/// Once a profile was removed from a file, whoever reads it finds the other
/// profiles, in the same order.
pub proof fn law_every_reader_misses_removed(
    content: Seq<char>,
    index: int,
    profiles: Seq<SessionView>,
    reads: spec_fn(Seq<Seq<char>>) -> Option<SessionView>,
)
    requires
        !content.contains('\r'),
        0 <= index < profiles.len(),
        read_file(content, reads) == Some(profiles),
    ensures
        removed_session(content, index) is Some,
        read_file(removed_session(content, index)->0, reads) == Some(profiles.remove(index)),
{
    lemma_block_count(lines_of(content));
    law_profile_can_be_cut(content, index);
    law_remove_takes_one(content, index);
    lemma_profiles_around(content, index, reads);
    let (before, own, after) = parts_around(content, index);
    lemma_lines_concat(before, after);
    lemma_blocks_concat(lines_of(before), lines_of(after));
    lemma_read_concat(blocks(lines_of(before)), blocks(lines_of(after)), reads);
    assert(profiles.remove(index) == profiles.take(index) + profiles.skip(index + 1));
}

/// Once a profile was removed from a file, the other profiles are read, in the same
/// order.
pub proof fn law_removed_profile_is_not_read(
    content: Seq<char>,
    index: int,
    profiles: Seq<SessionView>,
)
    requires
        !content.contains('\r'),
        0 <= index < profiles.len(),
        read_profiles(content) == Some(profiles),
    ensures
        removed_session(content, index) is Some,
        read_profiles(removed_session(content, index)->0) == Some(profiles.remove(index)),
{
    let reads = |lines: Seq<Seq<char>>| read_session(lines);
    law_every_reader_misses_removed(content, index, profiles, reads);
    lemma_block_count(lines_of(content));
    law_profile_can_be_cut(content, index);
    law_remove_takes_one(content, index);
    lemma_opening_around(content, index);
    let (before, own, after) = parts_around(content, index);
    lemma_profiles_around(content, index, reads);
    lemma_lines_concat(before, after);
    lemma_opening_concat(lines_of(before), lines_of(after));
}

/// Once a profile of a file was replaced, whoever reads profiles back finds in its
/// place the profile that was put there, without its empty values, and the others as
/// they were.
pub proof fn law_every_reader_finds_replaced(
    content: Seq<char>,
    index: int,
    session: SessionView,
    profiles: Seq<SessionView>,
    reads: spec_fn(Seq<Seq<char>>) -> Option<SessionView>,
)
    requires
        reads_back(reads, session),
        !content.contains('\r'),
        0 <= index < profiles.len(),
        read_file(content, reads) == Some(profiles),
    ensures
        replaced_session(content, index, session) is Some,
        read_file(replaced_session(content, index, session)->0, reads) == Some(
            profiles.update(index, kept_session(session)),
        ),
{
    lemma_block_count(lines_of(content));
    law_profile_can_be_cut(content, index);
    law_replaced_profile_is_found(content, index, session);
    lemma_profiles_around(content, index, reads);
    lemma_written_block(session);
    let (before, own, after) = parts_around(content, index);
    let text = session_toml(session);
    let front = before + text;
    lemma_read_behind(before, session, reads);
    lemma_ended_behind(before, text);
    lemma_lines_concat(front, after);
    lemma_blocks_concat(lines_of(front), lines_of(after));
    lemma_read_concat(blocks(lines_of(front)), blocks(lines_of(after)), reads);
    assert(profiles.update(index, kept_session(session)) == profiles.take(index).push(
        kept_session(session),
    ) + profiles.skip(index + 1));
}

/// Once a profile of a file was replaced, in its place the profile is read that was
/// put there, without its empty values, and the others are read as they were.
pub proof fn law_replaced_profile_is_read(
    content: Seq<char>,
    index: int,
    session: SessionView,
    profiles: Seq<SessionView>,
)
    requires
        is_writable(session),
        !content.contains('\r'),
        0 <= index < profiles.len(),
        read_profiles(content) == Some(profiles),
    ensures
        replaced_session(content, index, session) is Some,
        read_profiles(replaced_session(content, index, session)->0) == Some(
            profiles.update(index, kept_session(session)),
        ),
{
    let reads = |lines: Seq<Seq<char>>| read_session(lines);
    lemma_reader(session);
    law_every_reader_finds_replaced(content, index, session, profiles, reads);
    lemma_block_count(lines_of(content));
    law_profile_can_be_cut(content, index);
    law_replaced_profile_is_found(content, index, session);
    lemma_opening_around(content, index);
    lemma_profiles_around(content, index, reads);
    lemma_written_block(session);
    let (before, own, after) = parts_around(content, index);
    let text = session_toml(session);
    let front = before + text;
    lemma_ended_behind(before, text);
    lemma_lines_concat(before, text);
    lemma_opening_concat(lines_of(before), lines_of(text));
    lemma_lines_concat(front, after);
    lemma_opening_concat(lines_of(front), lines_of(after));
}

/// A file in which there is no profile of a number is left as it is.
pub proof fn law_unknown_profile_changes_nothing(
    content: Seq<char>,
    index: int,
    session: SessionView,
    profiles: Seq<SessionView>,
    reads: spec_fn(Seq<Seq<char>>) -> Option<SessionView>,
)
    requires
        index < 0 || index >= profiles.len(),
        read_file(content, reads) == Some(profiles),
    ensures
        removed_session(content, index) is None,
        replaced_session(content, index, session) is None,
{
    lemma_block_count(lines_of(content));
}

} // verus!
