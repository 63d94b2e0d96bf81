//! The file in which sessions are saved: sessions as text, and where each
//! stands in the file.
use vstd::prelude::*;
use vstd::string::*;
use vstd::utf8::*;

use crate::container_sessions::{ContainerSession, SessionView};
use crate::text::{
    chars_of, concat3, concat4, count_text, decimal, join, joined, lines, lines_of, is_char,
    push_text, same, split_at, trim, trimmed, without_return,
};

verus! {

// ---------------------------------------------------------------------------
// Escaping
// ---------------------------------------------------------------------------
/// A character inside the quotation marks of a string.
pub open spec fn escaped_char(c: char) -> Seq<char> {
    if c == '\\' {
        seq!['\\', '\\']
    } else if c == '"' {
        seq!['\\', '"']
    } else if c == '\n' {
        seq!['\\', 'n']
    } else if c == '\r' {
        seq!['\\', 'r']
    } else if c == '\t' {
        seq!['\\', 't']
    } else {
        seq![c]
    }
}

/// A text inside the quotation marks of a string.
pub open spec fn escaped(text: Seq<char>) -> Seq<char>
    decreases text.len(),
{
    if text.len() == 0 {
        text
    } else {
        escaped(text.drop_last()) + escaped_char(text.last())
    }
}

pub fn toml_escape(value: &str) -> (result: String)
    ensures
        result@ == escaped(value@),
{
    let chars = chars_of(value);
    let mut result = String::new();
    for i in 0..chars.len()
        invariant
            chars@ == value@,
            result@ == escaped(value@.take(i as int)),
    {
        let c = chars[i];
        assert(value@.take(i + 1).drop_last() == value@.take(i as int));
        let ghost before = result@;
        if c == '\\' {
            result.push('\\');
            result.push('\\');
        } else if c == '"' {
            result.push('\\');
            result.push('"');
        } else if c == '\n' {
            result.push('\\');
            result.push('n');
        } else if c == '\r' {
            result.push('\\');
            result.push('r');
        } else if c == '\t' {
            result.push('\\');
            result.push('t');
        } else {
            result.push(c);
        }
        assert(result@ == before + escaped_char(c));
    }
    assert(value@.take(value@.len() as int) == value@);
    result
}

/// A character that a text of TOML cannot hold as it is, and that gets no escape
/// when it is written.
pub open spec fn is_bare_control(c: char) -> bool {
    (c < ' ' || c == '\u{7f}') && c != '\n' && c != '\r' && c != '\t'
}

/// Whether a text can be written: it holds no control characters but those that are
/// escaped.
pub open spec fn is_writable_text(text: Seq<char>) -> bool {
    forall|i: int| 0 <= i < text.len() ==> !is_bare_control(#[trigger] text[i])
}

/// What a reader of TOML makes of the text inside quotation marks, as far as the
/// escapes go that are written here: nothing, if an escape is another one or a
/// control character stands bare.
pub open spec fn unescaped(text: Seq<char>) -> Option<Seq<char>>
    decreases text.len(),
{
    if text.len() == 0 {
        Some(text)
    } else if text.first() == '\\' {
        if text.len() == 1 {
            None
        } else {
            let c = text[1];
            let plain = if c == '\\' {
                Some('\\')
            } else if c == '"' {
                Some('"')
            } else if c == 'n' {
                Some('\n')
            } else if c == 'r' {
                Some('\r')
            } else if c == 't' {
                Some('\t')
            } else {
                None
            };
            match (plain, unescaped(text.skip(2))) {
                (Some(plain), Some(rest)) => Some(seq![plain] + rest),
                _ => None,
            }
        }
    } else if text.first() == '"' || text.first() < ' ' || text.first() == '\u{7f}' {
        None
    } else {
        match unescaped(text.drop_first()) {
            Some(rest) => Some(seq![text.first()] + rest),
            None => None,
        }
    }
}

pub proof fn lemma_escaped_first(text: Seq<char>)
    requires
        text.len() > 0,
    ensures
        escaped(text) == escaped_char(text.first()) + escaped(text.drop_first()),
    decreases text.len(),
{
    let head = text.drop_last();
    let tail = text.drop_first();
    if text.len() == 1 {
        assert(head == Seq::<char>::empty());
        assert(tail == Seq::<char>::empty());
        assert(escaped(text) == escaped_char(text.first()) + escaped(tail));
    } else {
        lemma_escaped_first(head);
        assert(head.drop_first() == tail.drop_last());
        assert(escaped(text) == escaped_char(text.first()) + escaped(tail));
    }
}

/// A text that was escaped is read back as it was, where it can be written.
pub proof fn law_escaping_is_undone(text: Seq<char>)
    requires
        is_writable_text(text),
    ensures
        unescaped(escaped(text)) == Some(text),
    decreases text.len(),
{
    if text.len() > 0 {
        let rest = text.drop_first();
        assert(!is_bare_control(text[0]));
        assert forall|i: int| 0 <= i < rest.len() implies !is_bare_control(#[trigger] rest[i]) by {
            assert(rest[i] == text[i + 1]);
        }
        law_escaping_is_undone(rest);
        lemma_escaped_first(text);
        let front = escaped_char(text.first());
        let whole = escaped(text);
        assert(whole == front + escaped(rest));
        if front.len() == 2 {
            assert(whole.skip(2) == escaped(rest));
        } else {
            assert(whole.drop_first() == escaped(rest));
        }
        assert(text == seq![text.first()] + rest);
    } else {
        assert(text == Seq::<char>::empty());
    }
}

/// An escaped text stays on its line.
pub proof fn law_escaped_stays_on_line(text: Seq<char>)
    ensures
        !escaped(text).contains('\n'),
        !escaped(text).contains('\r'),
    decreases text.len(),
{
    if text.len() > 0 {
        law_escaped_stays_on_line(text.drop_last());
        let before = escaped(text.drop_last());
        let whole = escaped(text);
        assert forall|i: int| 0 <= i < whole.len() implies whole[i] != '\n' && whole[i] != '\r' by {
            if i < before.len() {
                assert(before.contains(before[i]));
            }
        }
    }
}

// ---------------------------------------------------------------------------
// A session as text
// ---------------------------------------------------------------------------
pub open spec fn toml_field(key: Seq<char>, value: Seq<char>) -> Seq<char> {
    key + " = \""@ + escaped(value) + "\"\n"@
}

/// The line of a value that need not be there; an empty one is left out.
pub open spec fn toml_optional(key: Seq<char>, value: Option<Seq<char>>) -> Seq<char> {
    match value {
        Some(value) if value.len() > 0 => toml_field(key, value),
        _ => Seq::empty(),
    }
}

pub open spec fn toml_strings(values: Seq<Seq<char>>) -> Seq<char> {
    joined(values.map_values(|value: Seq<char>| "\""@ + escaped(value) + "\""@), ", "@)
}

/// The line of a list; an empty one is left out.
pub open spec fn toml_list(key: Seq<char>, values: Seq<Seq<char>>) -> Seq<char> {
    if values.len() == 0 {
        Seq::empty()
    } else {
        key + " = ["@ + toml_strings(values) + "]\n"@
    }
}

pub open spec fn toml_threads(threads: Option<usize>) -> Seq<char> {
    match threads {
        Some(threads) => "waypipe_threads = "@ + decimal(threads as nat) + "\n"@,
        None => Seq::empty(),
    }
}

pub open spec fn toml_audio(audio: bool) -> Seq<char> {
    if audio {
        "audio = true\n"@
    } else {
        "audio = false\n"@
    }
}

pub open spec fn session_toml(session: SessionView) -> Seq<char> {
    "[[session]]\n"@ + toml_field("name"@, session.name) + toml_field("runtime"@, session.runtime)
        + toml_field("image"@, session.image) + toml_optional("display"@, session.display)
        + toml_optional("presentation"@, session.presentation) + toml_optional(
        "profile"@,
        session.profile,
    ) + toml_optional("command"@, session.command) + toml_optional("app"@, session.app)
        + toml_optional("socket"@, session.socket) + toml_optional(
        "container_socket"@,
        session.container_socket,
    ) + toml_optional("waypipe_path"@, session.waypipe_path) + toml_optional(
        "waypipe_compress"@,
        session.waypipe_compress,
    ) + toml_threads(session.waypipe_threads) + toml_audio(session.audio) + toml_list(
        "runtime_args"@,
        session.runtime_args,
    ) + toml_list("mounts"@, session.mounts) + toml_list("env"@, session.env)
}

fn field_text(key: &str, value: &str) -> (result: String)
    ensures
        result@ == toml_field(key@, value@),
{
    let inner = toml_escape(value);
    concat4(key, " = \"", inner.as_str(), "\"\n")
}

fn optional_text(key: &str, value: &Option<String>) -> (result: String)
    ensures
        result@ == toml_optional(key@, value.deep_view()),
{
    match value {
        Some(value) => if value.as_str().is_empty() {
            String::new()
        } else {
            field_text(key, value.as_str())
        },
        None => String::new(),
    }
}

pub fn toml_string_list(values: &Vec<String>) -> (result: String)
    ensures
        result@ == toml_strings(values.deep_view()),
{
    let ghost wanted = values.deep_view().map_values(
        |value: Seq<char>| "\""@ + escaped(value) + "\""@,
    );
    let mut parts: Vec<String> = Vec::new();
    assert(parts.deep_view() == wanted.take(0));
    for i in 0..values.len()
        invariant
            wanted == values.deep_view().map_values(
                |value: Seq<char>| "\""@ + escaped(value) + "\""@,
            ),
            parts.deep_view() == wanted.take(i as int),
    {
        let inner = toml_escape(values[i].as_str());
        let part = concat3("\"", inner.as_str(), "\"");
        push_text(&mut parts, part.as_str());
        assert(wanted.take(i + 1) == wanted.take(i as int).push(part@));
    }
    assert(wanted.take(wanted.len() as int) == wanted);
    join(&parts, ", ")
}

fn list_text(key: &str, values: &Vec<String>) -> (result: String)
    ensures
        result@ == toml_list(key@, values.deep_view()),
{
    if values.len() == 0 {
        return String::new();
    }
    let inner = toml_string_list(values);
    concat4(key, " = [", inner.as_str(), "]\n")
}

/// A session as it stands in the file.
pub fn session_to_toml(session: &ContainerSession) -> (result: String)
    ensures
        result@ == session_toml(session.deep_view()),
{
    let mut content = "[[session]]\n".to_owned();
    content.append(field_text("name", session.name.as_str()).as_str());
    content.append(field_text("runtime", session.runtime.as_str()).as_str());
    content.append(field_text("image", session.image.as_str()).as_str());
    content.append(optional_text("display", &session.display).as_str());
    content.append(optional_text("presentation", &session.presentation).as_str());
    content.append(optional_text("profile", &session.profile).as_str());
    content.append(optional_text("command", &session.command).as_str());
    content.append(optional_text("app", &session.app).as_str());
    content.append(optional_text("socket", &session.socket).as_str());
    content.append(optional_text("container_socket", &session.container_socket).as_str());
    content.append(optional_text("waypipe_path", &session.waypipe_path).as_str());
    content.append(optional_text("waypipe_compress", &session.waypipe_compress).as_str());
    if let Some(threads) = session.waypipe_threads {
        let count = count_text(threads);
        content.append(concat3("waypipe_threads = ", count.as_str(), "\n").as_str());
    } else {
        content.append(String::new().as_str());
    }
    if session.audio {
        content.append("audio = true\n");
    } else {
        content.append("audio = false\n");
    }
    content.append(list_text("runtime_args", &session.runtime_args).as_str());
    content.append(list_text("mounts", &session.mounts).as_str());
    content.append(list_text("env", &session.env).as_str());
    content
}

// ---------------------------------------------------------------------------
// Sessions in the file
// ---------------------------------------------------------------------------
/// A line that starts a session.
pub open spec fn is_session_header(line: Seq<char>) -> bool {
    trimmed(line) == "[[session]]"@
}

/// The bytes of some lines, with one byte for the end of each.
pub open spec fn lines_size(lines: Seq<Seq<char>>) -> int
    decreases lines.len(),
{
    if lines.len() == 0 {
        0
    } else {
        lines_size(lines.drop_last()) + encode_utf8(lines.last()).len() + 1
    }
}

/// The offsets in bytes at which the lines that start a session stand.
pub open spec fn header_offsets(lines: Seq<Seq<char>>) -> Seq<int>
    decreases lines.len(),
{
    if lines.len() == 0 {
        Seq::empty()
    } else {
        let before = header_offsets(lines.drop_last());
        if is_session_header(lines.last()) {
            before.push(lines_size(lines.drop_last()))
        } else {
            before
        }
    }
}

/// Where each session of a file stands: from its own start to the start of the
/// next one, or to the end of the file.
pub open spec fn ranges_of(content: Seq<char>) -> Seq<(int, int)> {
    let starts = header_offsets(lines_of(content));
    Seq::new(
        starts.len(),
        |i: int|
            (
                starts[i],
                if i + 1 < starts.len() {
                    starts[i + 1]
                } else {
                    encode_utf8(content).len() as int
                },
            ),
    )
}

pub proof fn lemma_encode_push(text: Seq<char>, c: char)
    ensures
        encode_utf8(text.push(c)) == encode_utf8(text) + encode_scalar(c as u32),
    decreases text.len(),
{
    if text.len() == 0 {
        assert(text.push(c)[0] == c);
        assert(text.push(c).drop_first() == text);
        assert(encode_utf8(text) == Seq::<u8>::empty());
        assert(encode_scalar(c as u32) + Seq::<u8>::empty() == encode_scalar(c as u32));
        assert(Seq::<u8>::empty() + encode_scalar(c as u32) == encode_scalar(c as u32));
        assert(encode_utf8(text.push(c)) == encode_utf8(text) + encode_scalar(c as u32));
    } else {
        lemma_encode_push(text.drop_first(), c);
        assert(text.push(c).drop_first() == text.drop_first().push(c));
        assert(encode_utf8(text.push(c)) == encode_utf8(text) + encode_scalar(c as u32));
    }
}

proof fn lemma_encode_last(text: Seq<char>)
    requires
        text.len() > 0,
    ensures
        encode_utf8(text) == encode_utf8(text.drop_last()) + encode_scalar(text.last() as u32),
{
    lemma_encode_push(text.drop_last(), text.last());
    assert(text.drop_last().push(text.last()) == text);
}

/// The pieces of a text between line feeds hold all of its other bytes.
pub proof fn lemma_pieces_size(text: Seq<char>)
    ensures
        lines_size(split_at(text, '\n')) == encode_utf8(text).len() + 1,
    decreases text.len(),
{
    let parts = split_at(text, '\n');
    crate::text::lemma_pieces_nonempty(text, is_char('\n'));
    if text.len() == 0 {
        assert(parts.drop_last() == Seq::<Seq<char>>::empty());
        assert(lines_size(parts.drop_last()) == 0);
    } else {
        let head = text.drop_last();
        let before = split_at(head, '\n');
        crate::text::lemma_pieces_nonempty(head, is_char('\n'));
        lemma_pieces_size(head);
        lemma_encode_last(text);
        if text.last() == '\n' {
            assert(parts.drop_last() == before);
            assert(encode_utf8(Seq::<char>::empty()).len() == 0);
            assert(encode_scalar('\n' as u32).len() == 1);
        } else {
            assert(parts.drop_last() == before.drop_last());
            lemma_encode_push(before.last(), text.last());
        }
    }
}

proof fn lemma_without_return_size(line: Seq<char>)
    ensures
        encode_utf8(without_return(line)).len() <= encode_utf8(line).len(),
{
    if line.len() > 0 && line.last() == '\r' {
        lemma_encode_last(line);
    }
}

/// The lines before a line take no more bytes than the text.
proof fn lemma_lines_size(text: Seq<char>, count: int)
    requires
        0 <= count < lines_of(text).len(),
    ensures
        lines_size(lines_of(text).take(count)) <= encode_utf8(text).len(),
{
    lemma_pieces_size(text);
    let parts = split_at(text, '\n');
    lemma_lines_below_pieces(text, count);
    lemma_size_prefix(parts, count);
}

proof fn lemma_lines_below_pieces(text: Seq<char>, count: int)
    requires
        0 <= count < lines_of(text).len(),
    ensures
        count < split_at(text, '\n').len(),
        lines_size(lines_of(text).take(count)) <= lines_size(split_at(text, '\n').take(count)),
    decreases count,
{
    let parts = split_at(text, '\n');
    let all = lines_of(text);
    crate::text::lemma_pieces_nonempty(text, is_char('\n'));
    assert(all.len() <= parts.len());
    if count > 0 {
        lemma_lines_below_pieces(text, count - 1);
        assert(all.take(count).drop_last() == all.take(count - 1));
        assert(parts.take(count).drop_last() == parts.take(count - 1));
        lemma_without_return_size(parts[count - 1]);
    }
}

/// Fewer lines take fewer bytes.
proof fn lemma_size_prefix(lines: Seq<Seq<char>>, count: int)
    requires
        0 <= count < lines.len(),
    ensures
        lines_size(lines.take(count)) < lines_size(lines),
        lines_size(lines.take(count)) >= 0,
    decreases lines.len(),
{
    lemma_size_nonnegative(lines.take(count));
    if count < lines.len() - 1 {
        lemma_size_prefix(lines.drop_last(), count);
        assert(lines.drop_last().take(count) == lines.take(count));
    } else {
        assert(lines.drop_last() == lines.take(count));
    }
}

proof fn lemma_size_nonnegative(lines: Seq<Seq<char>>)
    ensures
        lines_size(lines) >= 0,
    decreases lines.len(),
{
    if lines.len() > 0 {
        lemma_size_nonnegative(lines.drop_last());
    }
}

/// Offsets as integers.
pub open spec fn as_ints(values: Seq<usize>) -> Seq<int> {
    values.map_values(|value: usize| value as int)
}

/// The offsets at which sessions start.
fn session_starts(content: &str) -> (result: Vec<usize>)
    ensures
        as_ints(result@) == header_offsets(lines_of(content@)),
{
    let rows = lines(content);
    let ghost all = lines_of(content@);
    let mut starts: Vec<usize> = Vec::new();
    let mut offset: usize = 0;
    assert(as_ints(starts@) == header_offsets(all.take(0)));
    for i in 0..rows.len()
        invariant
            all == lines_of(content@),
            rows.deep_view() == all,
            i == 0 ==> offset == 0,
            i > 0 ==> offset == lines_size(all.take(i - 1)),
            as_ints(starts@) == header_offsets(all.take(i as int)),
    {
        if i > 0 {
            offset = next_offset(content, rows[i - 1].as_str(), offset, i);
        }
        assert(offset == lines_size(all.take(i as int)));
        let ghost before = starts@;
        let header = same(trim(rows[i].as_str()), "[[session]]");
        assert(all[i as int] == rows@[i as int]@);
        assert(all.take(i + 1).drop_last() == all.take(i as int));
        assert(all.take(i + 1).last() == all[i as int]);
        if header {
            starts.push(offset);
            assert(as_ints(starts@) == as_ints(before).push(offset as int));
        }
    }
    assert(all.take(all.len() as int) == all);
    starts
}

/// The offset of a line, from the line before it and that line's offset.
fn next_offset(content: &str, previous: &str, offset: usize, line: usize) -> (result: usize)
    requires
        0 < line < lines_of(content@).len(),
        previous@ == lines_of(content@)[line - 1],
        offset == lines_size(lines_of(content@).take(line - 1)),
    ensures
        result == lines_size(lines_of(content@).take(line as int)),
{
    let total: usize = content.as_bytes().len();
    let size: usize = previous.as_bytes().len();
    let ghost all = lines_of(content@);
    assert(all.take(line as int).drop_last() == all.take(line - 1));
    assert(all.take(line as int).last() == previous@);
    proof {
        lemma_lines_size(content@, line as int);
    }
    assert(offset + size + 1 <= total);
    offset + size + 1
}

pub fn session_ranges(content: &str) -> (result: Vec<(usize, usize)>)
    ensures
        result@.len() == ranges_of(content@).len(),
        forall|i: int|
            0 <= i < result@.len() ==> (#[trigger] result@[i]).0 == ranges_of(content@)[i].0
                && result@[i].1 == ranges_of(content@)[i].1,
{
    let starts = session_starts(content);
    let ghost offsets = header_offsets(lines_of(content@));
    let end: usize = content.as_bytes().len();
    let mut ranges: Vec<(usize, usize)> = Vec::new();
    for i in 0..starts.len()
        invariant
            end == encode_utf8(content@).len(),
            offsets == header_offsets(lines_of(content@)),
            as_ints(starts@) == offsets,
            ranges@.len() == i,
            forall|k: int|
                0 <= k < i ==> (#[trigger] ranges@[k]).0 == ranges_of(content@)[k].0
                    && ranges@[k].1 == ranges_of(content@)[k].1,
    {
        assert(offsets[i as int] == starts@[i as int]);
        assert(i + 1 < offsets.len() ==> offsets[i + 1] == starts@[i + 1]);
        let stop: usize = if i + 1 < starts.len() {
            starts[i + 1]
        } else {
            end
        };
        ranges.push((starts[i], stop));
    }
    assert(as_ints(starts@).len() == starts@.len());
    ranges
}

/// The text before an offset in bytes.
pub open spec fn text_before(content: Seq<char>, offset: int) -> Seq<char> {
    decode_utf8(encode_utf8(content).take(offset))
}

/// The text from an offset in bytes on.
pub open spec fn text_from(content: Seq<char>, offset: int) -> Seq<char> {
    decode_utf8(encode_utf8(content).skip(offset))
}

/// Whether a text can be divided at both ends of a range.
pub open spec fn divides(content: Seq<char>, range: (int, int)) -> bool {
    is_char_boundary(encode_utf8(content), range.0) && is_char_boundary(
        encode_utf8(content),
        range.1,
    )
}

fn divided(content: &str, offset: usize) -> (result: (&str, &str))
    requires
        is_char_boundary(encode_utf8(content@), offset as int),
    ensures
        result.0@ == text_before(content@, offset as int),
        result.1@ == text_from(content@, offset as int),
{
    let result = content.split_at(offset);
    proof {
        let bytes = encode_utf8(content@);
        encode_utf8_decode_utf8(result.0@);
        encode_utf8_decode_utf8(result.1@);
        encode_utf8_valid_utf8(content@);
        lemma_boundary_in_range(bytes, offset as int);
        assert(bytes.subrange(0, offset as int) == bytes.take(offset as int));
        assert(bytes.subrange(offset as int, bytes.len() as int) == bytes.skip(offset as int));
    }
    result
}

proof fn lemma_boundary_in_range(bytes: Seq<u8>, index: int)
    requires
        valid_utf8(bytes),
        is_char_boundary(bytes, index),
    ensures
        0 <= index <= bytes.len(),
    decreases bytes.len(),
{
}

/// A text without the line feeds at its start.
pub open spec fn without_leading_feeds(text: Seq<char>) -> Seq<char>
    decreases text.len(),
{
    if text.len() > 0 && text.first() == '\n' {
        without_leading_feeds(text.drop_first())
    } else {
        text
    }
}

fn trim_leading_feeds(text: &str) -> (result: &str)
    ensures
        result@ == without_leading_feeds(text@),
{
    let chars = chars_of(text);
    let mut from: usize = 0;
    assert(text@.skip(0) == text@);
    while from < chars.len() && chars[from] == '\n'
        invariant
            from <= chars.len(),
            chars@ == text@,
            without_leading_feeds(text@) == without_leading_feeds(text@.skip(from as int)),
        decreases chars.len() - from,
    {
        assert(text@.skip(from as int).drop_first() == text@.skip(from + 1));
        from += 1;
    }
    assert(text@.skip(from as int) == text@.subrange(from as int, text@.len() as int));
    text.substring_char(from, chars.len())
}

/// A text that ends in a line feed.
pub open spec fn with_feed(text: Seq<char>) -> Seq<char> {
    if text.len() > 0 && text.last() == '\n' {
        text
    } else {
        text.push('\n')
    }
}

/// A text that ends in an empty line.
pub open spec fn with_blank_line(text: Seq<char>) -> Seq<char> {
    let ended = with_feed(text);
    if ended.len() > 1 && ended[ended.len() - 2] == '\n' {
        ended
    } else {
        ended.push('\n')
    }
}

/// The text of a file with a further session at its end; a file that cannot be
/// read counts as one that holds a heading alone.
pub open spec fn appended(content: Option<Seq<char>>, session: SessionView) -> Seq<char> {
    with_blank_line(
        match content {
            Some(content) => content,
            None => "# cocoa-way container sessions\n# Container Mode owns local Linux GUI sessions.\n"@,
        },
    ) + session_toml(session)
}

fn end_char(text: &String, back: usize) -> (result: Option<char>)
    requires
        back > 0,
    ensures
        result == (if text@.len() >= back {
            Some(text@[text@.len() - back])
        } else {
            None
        }),
{
    let count: usize = text.as_str().unicode_len();
    if count < back {
        None
    } else {
        Some(text.as_str().get_char(count - back))
    }
}

pub fn append_session(content: Option<&str>, session: &ContainerSession) -> (result: String)
    ensures
        result@ == appended(content.deep_view(), session.deep_view()),
{
    let mut updated = match content {
        Some(content) => content.to_owned(),
        None => "# cocoa-way container sessions\n# Container Mode owns local Linux GUI sessions.\n".to_owned(),
    };
    if end_char(&updated, 1) != Some('\n') {
        updated.push('\n');
    }
    if end_char(&updated, 2) != Some('\n') {
        updated.push('\n');
    }
    updated.append(session_to_toml(session).as_str());
    updated
}

/// The text of a file in which one session is replaced; none if the file has
/// no session of that number.
pub open spec fn replaced_session(content: Seq<char>, index: int, session: SessionView) -> Option<
    Seq<char>,
> {
    if 0 <= index < ranges_of(content).len() {
        let range = ranges_of(content)[index];
        let before = text_before(content, range.0);
        Some(
            (if before.len() == 0 {
                before
            } else {
                with_feed(before)
            }) + session_toml(session) + without_leading_feeds(text_from(content, range.1)),
        )
    } else {
        None
    }
}

/// Whether the session of a number can be cut out of a file: there is none of
/// that number, or the file can be divided where it starts and ends.
pub fn can_cut_session(content: &str, index: usize) -> (result: bool)
    ensures
        result == (index < ranges_of(content@).len() ==> divides(
            content@,
            ranges_of(content@)[index as int],
        )),
{
    let ranges = session_ranges(content);
    if index < ranges.len() {
        content.is_char_boundary(ranges[index].0) && content.is_char_boundary(ranges[index].1)
    } else {
        true
    }
}

pub fn replace_session(content: &str, index: usize, session: &ContainerSession) -> (result: Result<
    String,
    String,
>)
    requires
        index < ranges_of(content@).len() ==> divides(content@, ranges_of(content@)[index as int]),
    ensures
        match replaced_session(content@, index as int, session.deep_view()) {
            Some(updated) => result matches Ok(text) && text@ == updated,
            None => result matches Err(message) && message@ == "session index not found"@,
        },
{
    let ranges = session_ranges(content);
    if index >= ranges.len() {
        return Err("session index not found".to_owned());
    }
    let range = ranges[index];
    let mut updated = divided(content, range.0).0.to_owned();
    if !updated.as_str().is_empty() && end_char(&updated, 1) != Some('\n') {
        updated.push('\n');
    }
    updated.append(session_to_toml(session).as_str());
    proof {
        lemma_toml_ends_line(session.deep_view());
    }
    updated.append(trim_leading_feeds(divided(content, range.1).1));
    Ok(updated)
}

proof fn lemma_toml_ends_line(session: SessionView)
    ensures
        session_toml(session).len() > 0,
        session_toml(session).last() == '\n',
{
    reveal_strlit("[[session]]\n");
    reveal_strlit("\"\n");
    reveal_strlit("]\n");
    reveal_strlit("\n");
    reveal_strlit("audio = true\n");
    reveal_strlit("audio = false\n");
    let audio = toml_audio(session.audio);
    assert(audio.last() == '\n');
    let a = toml_list("runtime_args"@, session.runtime_args);
    let b = toml_list("mounts"@, session.mounts);
    let c = toml_list("env"@, session.env);
    assert(a.len() > 0 ==> a.last() == '\n');
    assert(b.len() > 0 ==> b.last() == '\n');
    assert(c.len() > 0 ==> c.last() == '\n');
}

/// The text of a file without one session; none if the file has no session of
/// that number.
pub open spec fn removed_session(content: Seq<char>, index: int) -> Option<Seq<char>> {
    if 0 <= index < ranges_of(content).len() {
        let range = ranges_of(content)[index];
        Some(
            text_before(content, range.0) + without_leading_feeds(text_from(content, range.1)),
        )
    } else {
        None
    }
}

pub fn remove_session(content: &str, index: usize) -> (result: Result<String, String>)
    requires
        index < ranges_of(content@).len() ==> divides(content@, ranges_of(content@)[index as int]),
    ensures
        match removed_session(content@, index as int) {
            Some(updated) => result matches Ok(text) && text@ == updated,
            None => result matches Err(message) && message@ == "session index not found"@,
        },
{
    let ranges = session_ranges(content);
    if index >= ranges.len() {
        return Err("session index not found".to_owned());
    }
    let range = ranges[index];
    let mut updated = divided(content, range.0).0.to_owned();
    updated.append(trim_leading_feeds(divided(content, range.1).1));
    Ok(updated)
}

} // verus!
