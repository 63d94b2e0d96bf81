//! What holds of a file of profiles when a profile is added, replaced or removed.
use vstd::prelude::*;
use vstd::string::*;
use vstd::utf8::*;

use crate::container_sessions::SessionView;
use crate::session_config::{
    appended, divides, escaped, header_offsets, is_session_header, law_escaped_stays_on_line,
    lemma_encode_push, lemma_pieces_size, lines_size, ranges_of,
    removed_session, replaced_session, session_toml, text_before, text_from, toml_audio,
    toml_field, toml_list, toml_optional, toml_strings, toml_threads, with_blank_line, with_feed,
    without_leading_feeds,
};
use crate::splitting::{
    is_ended, lemma_joined_cut, lemma_joined_pieces, lemma_lines_are_pieces, lemma_lines_concat,
    lemma_pieces_are_whole, lemma_pieces_of_joined, lemma_pieces_of_whole,
};
use crate::text::{
    decimal, is_char, is_digit, is_space, joined, lemma_pieces_nonempty, lines_of, split_at,
    trimmed, trimmed_end, trimmed_start, without_return,
};

verus! {

// ---------------------------------------------------------------------------
// Lines that start profiles
// ---------------------------------------------------------------------------
/// The starts of profiles in lines behind each other.
pub proof fn lemma_headers_concat(x: Seq<Seq<char>>, y: Seq<Seq<char>>)
    ensures
        lines_size(x + y) == lines_size(x) + lines_size(y),
        header_offsets(x + y) == header_offsets(x) + header_offsets(y).map_values(
            |offset: int| offset + lines_size(x),
        ),
    decreases y.len(),
{
    let moved = |offset: int| offset + lines_size(x);
    if y.len() == 0 {
        assert(x + y == x);
        assert(header_offsets(y).map_values(moved) == Seq::<int>::empty());
        assert(header_offsets(x) + Seq::<int>::empty() == header_offsets(x));
    } else {
        let head = y.drop_last();
        lemma_headers_concat(x, head);
        assert((x + y).drop_last() == x + head);
        assert((x + y).last() == y.last());
        if is_session_header(y.last()) {
            assert(header_offsets(y) == header_offsets(head).push(lines_size(head)));
            assert(header_offsets(y).map_values(moved) == header_offsets(head).map_values(
                moved,
            ).push(lines_size(head) + lines_size(x)));
            assert(header_offsets(x + y) == header_offsets(x) + header_offsets(y).map_values(moved));
        }
    }
}

proof fn lemma_trimmed_first(line: Seq<char>)
    requires
        line.len() > 0,
        !is_space(line[0]),
    ensures
        trimmed(line).len() > 0,
        trimmed(line)[0] == line[0],
    decreases line.len(),
{
    assert(trimmed_start(line) == line);
    if is_space(line.last()) {
        let head = line.drop_last();
        assert(head.len() > 0);
        lemma_trimmed_first(head);
        assert(trimmed_start(head) == head);
    }
}

proof fn lemma_trimmed_start_push(line: Seq<char>, c: char)
    requires
        is_space(c),
    ensures
        trimmed_start(line.push(c)) == (if trimmed_start(line).len() == 0 {
            Seq::<char>::empty()
        } else {
            trimmed_start(line).push(c)
        }),
    decreases line.len(),
{
    let longer = line.push(c);
    if line.len() == 0 {
        assert(longer.drop_first() == Seq::<char>::empty());
        assert(trimmed_start(Seq::<char>::empty()) == Seq::<char>::empty());
        assert(trimmed_start(longer) == trimmed_start(longer.drop_first()));
    } else {
        assert(longer.first() == line.first());
        if is_space(line.first()) {
            lemma_trimmed_start_push(line.drop_first(), c);
            assert(longer.drop_first() == line.drop_first().push(c));
        }
    }
}

/// White space at the end of a line makes no difference.
proof fn lemma_trimmed_push(line: Seq<char>, c: char)
    requires
        is_space(c),
    ensures
        trimmed(line.push(c)) == trimmed(line),
{
    lemma_trimmed_start_push(line, c);
    let start = trimmed_start(line);
    if start.len() == 0 {
        assert(trimmed_end(start) == start);
        assert(start == Seq::<char>::empty());
    } else {
        assert(start.push(c).drop_last() == start);
    }
}

pub proof fn lemma_empty_is_no_header()
    ensures
        !is_session_header(Seq::<char>::empty()),
{
    reveal_strlit("[[session]]");
    assert(trimmed_start(Seq::<char>::empty()) == Seq::<char>::empty());
    assert(trimmed_end(Seq::<char>::empty()) == Seq::<char>::empty());
}

pub proof fn lemma_lines_of_empty()
    ensures
        lines_of(Seq::<char>::empty()) == Seq::<Seq<char>>::empty(),
{
    let parts = split_at(Seq::<char>::empty(), '\n');
    assert(parts == seq![Seq::<char>::empty()]);
    assert(parts.last().len() == 0);
    assert(lines_of(Seq::<char>::empty()) == Seq::<Seq<char>>::empty());
}

/// The line of a text without line feeds.
pub proof fn lemma_one_line(line: Seq<char>)
    requires
        !line.contains('\n'),
    ensures
        lines_of(line.push('\n')) == seq![without_return(line)],
{
    let text = line.push('\n');
    assert forall|i: int| 0 <= i < line.len() implies !is_char('\n')(#[trigger] line[i]) by {
        assert(line.contains(line[i]));
    }
    lemma_pieces_of_whole(line, is_char('\n'));
    assert(text.drop_last() == line);
    let parts = split_at(text, '\n');
    assert(parts == seq![line].push(Seq::<char>::empty()));
    assert(parts.drop_last() == seq![line]);
    assert(parts.last().len() == 0);
    assert(lines_of(text) == seq![without_return(line)]);
}

// ---------------------------------------------------------------------------
// Lines that start none
// ---------------------------------------------------------------------------
/// Whole lines of which none starts a profile.
pub open spec fn is_quiet(text: Seq<char>) -> bool {
    &&& is_ended(text)
    &&& !text.contains('\r')
    &&& header_offsets(lines_of(text)).len() == 0
}

proof fn lemma_empty_is_quiet()
    ensures
        is_quiet(Seq::<char>::empty()),
{
    lemma_lines_of_empty();
}

pub proof fn lemma_lacks_concat(a: Seq<char>, b: Seq<char>, c: char)
    ensures
        (a + b).contains(c) <==> a.contains(c) || b.contains(c),
{
    if a.contains(c) {
        let i = choose|i: int| 0 <= i < a.len() && a[i] == c;
        assert((a + b)[i] == c);
    }
    if b.contains(c) {
        let i = choose|i: int| 0 <= i < b.len() && b[i] == c;
        assert((a + b)[a.len() + i] == c);
    }
    if (a + b).contains(c) {
        let i = choose|i: int| 0 <= i < (a + b).len() && (a + b)[i] == c;
        if i < a.len() {
            assert(a[i] == c);
        } else {
            assert(b[i - a.len()] == c);
        }
    }
}

pub proof fn lemma_quiet_concat(a: Seq<char>, b: Seq<char>)
    requires
        is_quiet(a),
        is_quiet(b),
    ensures
        is_quiet(a + b),
{
    lemma_lines_concat(a, b);
    lemma_headers_concat(lines_of(a), lines_of(b));
    lemma_lacks_concat(a, b, '\r');
    if b.len() == 0 {
        assert(a + b == a);
    } else {
        assert((a + b).last() == b.last());
    }
}

/// A line that begins with something else starts no profile.
pub proof fn lemma_line_is_quiet(line: Seq<char>)
    requires
        line.len() > 0,
        !line.contains('\n'),
        !line.contains('\r'),
        !is_space(line[0]),
        line[0] != '[',
    ensures
        is_quiet(line.push('\n')),
{
    lemma_one_line(line);
    assert(without_return(line) == line) by {
        if line.last() == '\r' {
            assert(line[line.len() - 1] == '\r');
        }
    }
    lemma_trimmed_first(line);
    reveal_strlit("[[session]]");
    assert(!is_session_header(line));
    let lines = seq![line];
    assert(lines.drop_last() == Seq::<Seq<char>>::empty());
    assert(lines.last() == line);
    assert(header_offsets(lines) == header_offsets(lines.drop_last()));
    lemma_lacks_concat(line, seq!['\n'], '\r');
    assert(line + seq!['\n'] == line.push('\n'));
}

/// Whether a text can be the name of a value.
pub open spec fn is_key(key: Seq<char>) -> bool {
    &&& key.len() > 0
    &&& !is_space(key[0])
    &&& key[0] != '['
    &&& !key.contains('\n')
    &&& !key.contains('\r')
}

proof fn lemma_value_is_quiet(key: Seq<char>, start: Seq<char>, value: Seq<char>, end: Seq<char>)
    requires
        is_key(key),
        !start.contains('\n') && !start.contains('\r'),
        !value.contains('\n') && !value.contains('\r'),
        end.len() > 0,
        end.last() == '\n',
        !end.drop_last().contains('\n') && !end.drop_last().contains('\r'),
    ensures
        is_quiet(key + start + value + end),
{
    let line = key + start + value + end.drop_last();
    lemma_lacks_concat(key, start, '\n');
    lemma_lacks_concat(key, start, '\r');
    lemma_lacks_concat(key + start, value, '\n');
    lemma_lacks_concat(key + start, value, '\r');
    lemma_lacks_concat(key + start + value, end.drop_last(), '\n');
    lemma_lacks_concat(key + start + value, end.drop_last(), '\r');
    assert(line[0] == key[0]);
    lemma_line_is_quiet(line);
    assert(line.push('\n') == key + start + value + end);
}

proof fn lemma_field_is_quiet(key: Seq<char>, value: Seq<char>)
    requires
        is_key(key),
    ensures
        is_quiet(toml_field(key, value)),
{
    reveal_strlit(" = \"");
    reveal_strlit("\"\n");
    law_escaped_stays_on_line(value);
    let end = "\"\n"@;
    assert(end.drop_last() == seq!['"']);
    lemma_value_is_quiet(key, " = \""@, escaped(value), end);
}

proof fn lemma_optional_is_quiet(key: Seq<char>, value: Option<Seq<char>>)
    requires
        is_key(key),
    ensures
        is_quiet(toml_optional(key, value)),
{
    lemma_empty_is_quiet();
    if value is Some {
        lemma_field_is_quiet(key, value->0);
    }
}

proof fn lemma_joined_lacks(parts: Seq<Seq<char>>, separator: Seq<char>, c: char)
    requires
        !separator.contains(c),
        forall|k: int| 0 <= k < parts.len() ==> !(#[trigger] parts[k]).contains(c),
    ensures
        !joined(parts, separator).contains(c),
    decreases parts.len(),
{
    if parts.len() > 1 {
        let head = parts.drop_last();
        assert forall|k: int| 0 <= k < head.len() implies !(#[trigger] head[k]).contains(c) by {
            assert(parts[k] == head[k]);
        }
        lemma_joined_lacks(head, separator, c);
        lemma_lacks_concat(joined(head, separator), separator, c);
        lemma_lacks_concat(joined(head, separator) + separator, parts.last(), c);
        assert(!parts[parts.len() - 1].contains(c));
    } else if parts.len() == 1 {
        assert(!parts[0].contains(c));
    }
}

pub proof fn lemma_strings_lack(values: Seq<Seq<char>>, c: char)
    requires
        c == '\n' || c == '\r',
    ensures
        !toml_strings(values).contains(c),
{
    reveal_strlit("\"");
    reveal_strlit(", ");
    let parts = values.map_values(|value: Seq<char>| "\""@ + escaped(value) + "\""@);
    assert forall|k: int| 0 <= k < parts.len() implies !(#[trigger] parts[k]).contains(c) by {
        law_escaped_stays_on_line(values[k]);
        lemma_lacks_concat("\""@, escaped(values[k]), c);
        lemma_lacks_concat("\""@ + escaped(values[k]), "\""@, c);
    }
    lemma_joined_lacks(parts, ", "@, c);
}

proof fn lemma_list_is_quiet(key: Seq<char>, values: Seq<Seq<char>>)
    requires
        is_key(key),
    ensures
        is_quiet(toml_list(key, values)),
{
    lemma_empty_is_quiet();
    reveal_strlit(" = [");
    reveal_strlit("]\n");
    lemma_strings_lack(values, '\n');
    lemma_strings_lack(values, '\r');
    let end = "]\n"@;
    assert(end.drop_last() == seq![']']);
    lemma_value_is_quiet(key, " = ["@, toml_strings(values), end);
}

pub proof fn lemma_decimal_lacks(value: nat, c: char)
    requires
        !is_digit(c),
    ensures
        !decimal(value).contains(c),
    decreases value,
{
    if value >= 10 {
        lemma_decimal_lacks(value / 10, c);
    }
}

proof fn lemma_threads_are_quiet(threads: Option<usize>)
    ensures
        is_quiet(toml_threads(threads)),
{
    lemma_empty_is_quiet();
    if threads is Some {
        reveal_strlit("waypipe_threads = ");
        reveal_strlit("\n");
        let digits = decimal(threads->0 as nat);
        lemma_decimal_lacks(threads->0 as nat, '\n');
        lemma_decimal_lacks(threads->0 as nat, '\r');
        let none = Seq::<char>::empty();
        let end = "\n"@;
        assert(end.drop_last() == none);
        lemma_value_is_quiet("waypipe_threads = "@, none, digits, end);
        assert("waypipe_threads = "@ + none == "waypipe_threads = "@);
    }
}

proof fn lemma_audio_is_quiet(audio: bool)
    ensures
        is_quiet(toml_audio(audio)),
{
    reveal_strlit("audio = true\n");
    reveal_strlit("audio = false\n");
    let text = toml_audio(audio);
    let line = text.drop_last();
    assert(line.push('\n') == text);
    lemma_line_is_quiet(line);
}

proof fn lemma_keys()
    ensures
        is_key("name"@),
        is_key("runtime"@),
        is_key("image"@),
        is_key("display"@),
        is_key("presentation"@),
        is_key("profile"@),
        is_key("command"@),
        is_key("app"@),
        is_key("socket"@),
        is_key("container_socket"@),
        is_key("waypipe_path"@),
        is_key("waypipe_compress"@),
        is_key("runtime_args"@),
        is_key("mounts"@),
        is_key("env"@),
{
    reveal_strlit("name");
    reveal_strlit("runtime");
    reveal_strlit("image");
    reveal_strlit("display");
    reveal_strlit("presentation");
    reveal_strlit("profile");
    reveal_strlit("command");
    reveal_strlit("app");
    reveal_strlit("socket");
    reveal_strlit("container_socket");
    reveal_strlit("waypipe_path");
    reveal_strlit("waypipe_compress");
    reveal_strlit("runtime_args");
    reveal_strlit("mounts");
    reveal_strlit("env");
}

/// What is written of a profile behind its first line.
pub open spec fn toml_values(session: SessionView) -> Seq<char> {
    toml_field("name"@, session.name) + toml_field("runtime"@, session.runtime) + toml_field(
        "image"@,
        session.image,
    ) + toml_optional("display"@, session.display) + toml_optional(
        "presentation"@,
        session.presentation,
    ) + toml_optional("profile"@, session.profile) + toml_optional("command"@, session.command)
        + toml_optional("app"@, session.app) + toml_optional("socket"@, session.socket)
        + toml_optional("container_socket"@, session.container_socket) + toml_optional(
        "waypipe_path"@,
        session.waypipe_path,
    ) + toml_optional("waypipe_compress"@, session.waypipe_compress) + toml_threads(
        session.waypipe_threads,
    ) + toml_audio(session.audio) + toml_list("runtime_args"@, session.runtime_args) + toml_list(
        "mounts"@,
        session.mounts,
    ) + toml_list("env"@, session.env)
}

proof fn lemma_add_optional(text: Seq<char>, key: Seq<char>, value: Option<Seq<char>>)
    requires
        is_quiet(text),
        is_key(key),
    ensures
        is_quiet(text + toml_optional(key, value)),
{
    lemma_optional_is_quiet(key, value);
    lemma_quiet_concat(text, toml_optional(key, value));
}

proof fn lemma_add_list(text: Seq<char>, key: Seq<char>, values: Seq<Seq<char>>)
    requires
        is_quiet(text),
        is_key(key),
    ensures
        is_quiet(text + toml_list(key, values)),
{
    lemma_list_is_quiet(key, values);
    lemma_quiet_concat(text, toml_list(key, values));
}

proof fn lemma_values_are_quiet(session: SessionView)
    ensures
        is_quiet(toml_values(session)),
{
    lemma_keys();
    lemma_field_is_quiet("name"@, session.name);
    lemma_field_is_quiet("runtime"@, session.runtime);
    lemma_field_is_quiet("image"@, session.image);
    let a = toml_field("name"@, session.name);
    let b = a + toml_field("runtime"@, session.runtime);
    lemma_quiet_concat(a, toml_field("runtime"@, session.runtime));
    let c = b + toml_field("image"@, session.image);
    lemma_quiet_concat(b, toml_field("image"@, session.image));
    lemma_add_optional(c, "display"@, session.display);
    let d = c + toml_optional("display"@, session.display);
    lemma_add_optional(d, "presentation"@, session.presentation);
    let e = d + toml_optional("presentation"@, session.presentation);
    lemma_add_optional(e, "profile"@, session.profile);
    let f = e + toml_optional("profile"@, session.profile);
    lemma_add_optional(f, "command"@, session.command);
    let g = f + toml_optional("command"@, session.command);
    lemma_add_optional(g, "app"@, session.app);
    let h = g + toml_optional("app"@, session.app);
    lemma_add_optional(h, "socket"@, session.socket);
    let i = h + toml_optional("socket"@, session.socket);
    lemma_add_optional(i, "container_socket"@, session.container_socket);
    let j = i + toml_optional("container_socket"@, session.container_socket);
    lemma_add_optional(j, "waypipe_path"@, session.waypipe_path);
    let k = j + toml_optional("waypipe_path"@, session.waypipe_path);
    lemma_add_optional(k, "waypipe_compress"@, session.waypipe_compress);
    let l = k + toml_optional("waypipe_compress"@, session.waypipe_compress);
    lemma_threads_are_quiet(session.waypipe_threads);
    lemma_quiet_concat(l, toml_threads(session.waypipe_threads));
    let m = l + toml_threads(session.waypipe_threads);
    lemma_audio_is_quiet(session.audio);
    lemma_quiet_concat(m, toml_audio(session.audio));
    let n = m + toml_audio(session.audio);
    lemma_add_list(n, "runtime_args"@, session.runtime_args);
    let o = n + toml_list("runtime_args"@, session.runtime_args);
    lemma_add_list(o, "mounts"@, session.mounts);
    let p = o + toml_list("mounts"@, session.mounts);
    lemma_add_list(p, "env"@, session.env);
}

proof fn lemma_add_assoc(a: Seq<char>, b: Seq<char>, c: Seq<char>)
    ensures
        a + b + c == a + (b + c),
{
    assert(a + b + c == a + (b + c));
}

proof fn lemma_add_to_front(
    a: Seq<char>,
    b: Seq<char>,
    c: Seq<char>,
    d: Seq<char>,
    e: Seq<char>,
    f: Seq<char>,
    g: Seq<char>,
    h: Seq<char>,
    i: Seq<char>,
    j: Seq<char>,
    k: Seq<char>,
    l: Seq<char>,
    m: Seq<char>,
    n: Seq<char>,
    o: Seq<char>,
    p: Seq<char>,
    q: Seq<char>,
    r: Seq<char>,
)
    ensures
        a + b + c + d + e + f + g + h + i + j + k + l + m + n + o + p + q + r == a + (b + c + d + e + f + g + h + i + j + k + l + m + n + o + p + q + r),
{
    lemma_add_assoc(a, b, c);
    lemma_add_assoc(a, b + c, d);
    lemma_add_assoc(a, b + c + d, e);
    lemma_add_assoc(a, b + c + d + e, f);
    lemma_add_assoc(a, b + c + d + e + f, g);
    lemma_add_assoc(a, b + c + d + e + f + g, h);
    lemma_add_assoc(a, b + c + d + e + f + g + h, i);
    lemma_add_assoc(a, b + c + d + e + f + g + h + i, j);
    lemma_add_assoc(a, b + c + d + e + f + g + h + i + j, k);
    lemma_add_assoc(a, b + c + d + e + f + g + h + i + j + k, l);
    lemma_add_assoc(a, b + c + d + e + f + g + h + i + j + k + l, m);
    lemma_add_assoc(a, b + c + d + e + f + g + h + i + j + k + l + m, n);
    lemma_add_assoc(a, b + c + d + e + f + g + h + i + j + k + l + m + n, o);
    lemma_add_assoc(a, b + c + d + e + f + g + h + i + j + k + l + m + n + o, p);
    lemma_add_assoc(a, b + c + d + e + f + g + h + i + j + k + l + m + n + o + p, q);
    lemma_add_assoc(a, b + c + d + e + f + g + h + i + j + k + l + m + n + o + p + q, r);
}

proof fn lemma_toml_parts(session: SessionView)
    ensures
        session_toml(session) == "[[session]]\n"@ + toml_values(session),
{
    lemma_add_to_front(
        "[[session]]\n"@,
        toml_field("name"@, session.name),
        toml_field("runtime"@, session.runtime),
        toml_field("image"@, session.image),
        toml_optional("display"@, session.display),
        toml_optional("presentation"@, session.presentation),
        toml_optional("profile"@, session.profile),
        toml_optional("command"@, session.command),
        toml_optional("app"@, session.app),
        toml_optional("socket"@, session.socket),
        toml_optional("container_socket"@, session.container_socket),
        toml_optional("waypipe_path"@, session.waypipe_path),
        toml_optional("waypipe_compress"@, session.waypipe_compress),
        toml_threads(session.waypipe_threads),
        toml_audio(session.audio),
        toml_list("runtime_args"@, session.runtime_args),
        toml_list("mounts"@, session.mounts),
        toml_list("env"@, session.env),
    );
}

/// A line that starts a profile and lines that start none.
proof fn lemma_block(rest: Seq<char>)
    requires
        is_quiet(rest),
    ensures
        header_offsets(lines_of("[[session]]\n"@ + rest)) == seq![0int],
        is_ended("[[session]]\n"@ + rest),
        !("[[session]]\n"@ + rest).contains('\r'),
{
    let first = "[[session]]\n"@;
    let line = "[[session]]"@;
    reveal_strlit("[[session]]\n");
    reveal_strlit("[[session]]");
    assert(line.push('\n') == first);
    lemma_one_line(line);
    assert(without_return(line) == line);
    lemma_lines_concat(first, rest);
    let lines = seq![line];
    assert(trimmed_start(line) == line);
    assert(trimmed_end(line) == line);
    assert(is_session_header(line));
    assert(lines.drop_last() == Seq::<Seq<char>>::empty());
    assert(lines_size(lines.drop_last()) == 0);
    assert(header_offsets(lines.drop_last()) == Seq::<int>::empty());
    assert(header_offsets(lines) == Seq::<int>::empty().push(0));
    lemma_headers_concat(lines, lines_of(rest));
    assert(header_offsets(lines_of(first + rest)) == seq![0int]);
    if rest.len() > 0 {
        assert((first + rest).last() == rest.last());
    } else {
        assert((first + rest).last() == first.last());
    }
    lemma_lacks_concat(first, rest, '\r');
}

/// A profile is written with just one line that starts a profile: its first.
pub proof fn law_profile_is_one_block(session: SessionView)
    ensures
        header_offsets(lines_of(session_toml(session))) == seq![0int],
        is_ended(session_toml(session)),
        !session_toml(session).contains('\r'),
{
    lemma_toml_parts(session);
    lemma_values_are_quiet(session);
    lemma_block(toml_values(session));
}

// ---------------------------------------------------------------------------
// Bytes and characters
// ---------------------------------------------------------------------------
proof fn lemma_encode_concat(a: Seq<char>, b: Seq<char>)
    ensures
        encode_utf8(a + b) == encode_utf8(a) + encode_utf8(b),
    decreases b.len(),
{
    if b.len() == 0 {
        assert(a + b == a);
        assert(encode_utf8(b) == Seq::<u8>::empty());
        assert(encode_utf8(a) + Seq::<u8>::empty() == encode_utf8(a));
    } else {
        let head = b.drop_last();
        lemma_encode_concat(a, head);
        lemma_encode_push(a + head, b.last());
        lemma_encode_push(head, b.last());
        assert((a + head).push(b.last()) == a + b);
        assert(head.push(b.last()) == b);
        assert(encode_utf8(a + b) == encode_utf8(a) + encode_utf8(b));
    }
}

/// A text can be divided where its first part ends.
pub proof fn lemma_divided(a: Seq<char>, b: Seq<char>)
    ensures
        is_char_boundary(encode_utf8(a + b), encode_utf8(a).len() as int),
        text_before(a + b, encode_utf8(a).len() as int) == a,
        text_from(a + b, encode_utf8(a).len() as int) == b,
{
    lemma_encode_concat(a, b);
    assert(encode_utf8(a + b).take(encode_utf8(a).len() as int) == encode_utf8(a));
    assert(encode_utf8(a + b).skip(encode_utf8(a).len() as int) == encode_utf8(b));
    encode_utf8_decode_utf8(a);
    encode_utf8_decode_utf8(b);
    lemma_boundary(a, b);
}

proof fn lemma_boundary(a: Seq<char>, b: Seq<char>)
    ensures
        is_char_boundary(encode_utf8(a + b), encode_utf8(a).len() as int),
    decreases a.len(),
{
    encode_utf8_valid_utf8(a + b);
    if a.len() > 0 {
        let whole = a + b;
        let tail = a.drop_first();
        encode_utf8_first_scalar(whole);
        encode_utf8_first_scalar(a);
        assert(whole.drop_first() == tail + b);
        assert(pop_first_scalar(encode_utf8(whole)) == encode_utf8(tail + b));
        lemma_encode_concat(a, b);
        lemma_boundary(tail, b);
        assert(whole[0] == a[0]);
        assert(encode_utf8(a) == encode_scalar(a[0] as u32) + encode_utf8(tail));
    }
}

/// The lines of whole lines without carriage returns take all of their bytes.
proof fn lemma_ended_size(text: Seq<char>)
    requires
        is_ended(text),
        !text.contains('\r'),
    ensures
        lines_size(lines_of(text)) == encode_utf8(text).len(),
{
    lemma_pieces_size(text);
    lemma_lines_are_pieces(text);
    let parts = split_at(text, '\n');
    lemma_pieces_nonempty(text, is_char('\n'));
    assert(parts.last() == Seq::<char>::empty());
    assert(encode_utf8(Seq::<char>::empty()).len() == 0);
}

// ---------------------------------------------------------------------------
// Adding a profile
// ---------------------------------------------------------------------------
proof fn lemma_feed_keeps_headers(text: Seq<char>)
    ensures
        header_offsets(lines_of(with_feed(text))) == header_offsets(lines_of(text)),
        is_ended(with_feed(text)),
        with_feed(text).len() > 0,
{
    if !(text.len() > 0 && text.last() == '\n') {
        let longer = text.push('\n');
        assert(longer.drop_last() == text);
        let parts = split_at(text, '\n');
        lemma_pieces_nonempty(text, is_char('\n'));
        let more = split_at(longer, '\n');
        assert(more == parts.push(Seq::<char>::empty()));
        assert(more.drop_last() == parts);
        let plain = |line: Seq<char>| without_return(line);
        let before = parts.drop_last().map_values(plain);
        let last = parts.last();
        assert(parts.map_values(plain) == before.push(without_return(last)));
        assert(lines_of(longer) == before.push(without_return(last)));
        assert(before.push(without_return(last)).drop_last() == before);
        assert(before.push(last).drop_last() == before);
        if last.len() == 0 {
            lemma_empty_is_no_header();
            assert(without_return(last) == Seq::<char>::empty());
            assert(lines_of(text) == before);
        } else {
            if last.last() == '\r' {
                lemma_trimmed_push(last.drop_last(), '\r');
                assert(last.drop_last().push('\r') == last);
            }
            assert(lines_of(text) == before.push(last));
        }
    }
}

proof fn lemma_blank_line_keeps_headers(text: Seq<char>)
    ensures
        header_offsets(lines_of(with_blank_line(text))) == header_offsets(lines_of(text)),
        is_ended(with_blank_line(text)),
{
    lemma_feed_keeps_headers(text);
    let ended = with_feed(text);
    if with_blank_line(text) != ended {
        let feed = seq!['\n'];
        assert(ended + feed == with_blank_line(text));
        lemma_lines_concat(ended, feed);
        let none = Seq::<char>::empty();
        assert(none.push('\n') == feed);
        lemma_one_line(none);
        lemma_empty_is_no_header();
        assert(without_return(none) == none);
        let lines = seq![none];
        assert(lines.drop_last() == Seq::<Seq<char>>::empty());
        assert(header_offsets(lines.drop_last()) == Seq::<int>::empty());
        assert(header_offsets(lines) == Seq::<int>::empty());
        lemma_headers_concat(lines_of(ended), lines);
        assert(header_offsets(lines_of(ended)) + header_offsets(lines).map_values(
            |offset: int| offset + lines_size(lines_of(ended)),
        ) == header_offsets(lines_of(ended)));
    }
}

/// A profile that is added comes last, and the others start where they started,
/// whatever the file holds.
pub proof fn law_append_adds_one(content: Seq<char>, session: SessionView)
    ensures
        ranges_of(appended(Some(content), session)).len() == ranges_of(content).len() + 1,
        forall|i: int|
            0 <= i < ranges_of(content).len() ==> (#[trigger] ranges_of(
                appended(Some(content), session),
            )[i]).0 == ranges_of(content)[i].0,
{
    let start = with_blank_line(content);
    let text = session_toml(session);
    lemma_blank_line_keeps_headers(content);
    law_profile_is_one_block(session);
    lemma_lines_concat(start, text);
    lemma_headers_concat(lines_of(start), lines_of(text));
}

/// The text of a profile in a file.
pub open spec fn session_text(content: Seq<char>, index: int) -> Seq<char> {
    decode_utf8(
        encode_utf8(content).subrange(ranges_of(content)[index].0, ranges_of(content)[index].1),
    )
}

/// A profile that was added to a file is found there as it was written. In a file
/// with carriage returns it may be looked for in the wrong place.
pub proof fn law_appended_profile_is_found(content: Seq<char>, session: SessionView)
    requires
        !content.contains('\r'),
    ensures
        session_text(appended(Some(content), session), ranges_of(content).len() as int)
            == session_toml(session),
{
    let start = with_blank_line(content);
    let text = session_toml(session);
    lemma_blank_line_keeps_headers(content);
    law_profile_is_one_block(session);
    lemma_lines_concat(start, text);
    lemma_headers_concat(lines_of(start), lines_of(text));
    lemma_lacks_concat(content, seq!['\n'], '\r');
    lemma_lacks_concat(content.push('\n'), seq!['\n'], '\r');
    assert(content + seq!['\n'] == content.push('\n'));
    assert(content.push('\n') + seq!['\n'] == content.push('\n').push('\n'));
    assert(!start.contains('\r'));
    lemma_ended_size(start);
    lemma_encode_concat(start, text);
    let whole = appended(Some(content), session);
    let n = ranges_of(content).len() as int;
    let moved = header_offsets(lines_of(text)).map_values(
        |offset: int| offset + lines_size(lines_of(start)),
    );
    assert(moved == seq![lines_size(lines_of(start))]);
    assert(header_offsets(lines_of(whole))[n] == lines_size(lines_of(start)));
    assert(ranges_of(whole)[n].0 == encode_utf8(start).len());
    assert(ranges_of(whole)[n].1 == encode_utf8(whole).len());
    assert(encode_utf8(whole).subrange(
        encode_utf8(start).len() as int,
        encode_utf8(whole).len() as int,
    ) == encode_utf8(text));
    encode_utf8_decode_utf8(text);
}

// ---------------------------------------------------------------------------
// Replacing and removing a profile
// ---------------------------------------------------------------------------
/// Where the line stands that starts a profile.
pub proof fn lemma_header_line(lines: Seq<Seq<char>>, index: int) -> (at: int)
    requires
        0 <= index < header_offsets(lines).len(),
    ensures
        0 <= at < lines.len(),
        is_session_header(lines[at]),
        header_offsets(lines)[index] == lines_size(lines.take(at)),
        header_offsets(lines.take(at)).len() == index,
    decreases lines.len(),
{
    let head = lines.drop_last();
    let before = header_offsets(head);
    if index < before.len() {
        let at = lemma_header_line(head, index);
        assert(head.take(at) == lines.take(at));
        assert(head[at] == lines[at]);
        at
    } else {
        assert(lines.take(lines.len() - 1) == head);
        lines.len() - 1
    }
}

/// A file without carriage returns can be cut before each of its lines.
pub proof fn lemma_cut(content: Seq<char>, at: int) -> (cut: (Seq<char>, Seq<char>))
    requires
        !content.contains('\r'),
        0 <= at < lines_of(content).len(),
    ensures
        content == cut.0 + cut.1,
        is_ended(cut.0),
        !cut.0.contains('\r'),
        lines_of(cut.0) == lines_of(content).take(at),
        lines_of(cut.1) == lines_of(content).skip(at),
        encode_utf8(cut.0).len() == lines_size(lines_of(content).take(at)),
{
    let all = lines_of(content);
    if at == 0 {
        let none = Seq::<char>::empty();
        lemma_lines_of_empty();
        assert(none + content == content);
        assert(all.take(0) == Seq::<Seq<char>>::empty());
        assert(all.skip(0) == all);
        assert(encode_utf8(none).len() == 0);
        (none, content)
    } else {
        let parts = split_at(content, '\n');
        lemma_lines_are_pieces(content);
        lemma_pieces_nonempty(content, is_char('\n'));
        assert(at < parts.len());
        let feed = seq!['\n'];
        let start = joined(parts.take(at), feed);
        let head = start + feed;
        let tail = joined(parts.skip(at), feed);
        lemma_joined_pieces(content, '\n');
        lemma_joined_cut(parts, feed, at);
        assert(content == head + tail);
        lemma_lacks_concat(head, tail, '\r');
        lemma_pieces_are_whole(content, is_char('\n'));
        assert forall|k: int| 0 <= k < at implies crate::splitting::is_whole(
            #[trigger] parts.take(at)[k],
            is_char('\n'),
        ) by {
            assert(parts.take(at)[k] == parts[k]);
        }
        lemma_pieces_of_joined(parts.take(at), '\n', is_char('\n'));
        assert(head.drop_last() == start);
        let pieces = split_at(head, '\n');
        assert(pieces == parts.take(at).push(Seq::<char>::empty()));
        assert(pieces.drop_last() == parts.take(at));
        lemma_lines_are_pieces(head);
        assert(parts.take(at) == all.take(at));
        lemma_lines_concat(head, tail);
        assert(all.skip(at) == lines_of(tail));
        lemma_ended_size(head);
        (head, tail)
    }
}

/// A text whose first line starts a profile begins with no line feed.
proof fn lemma_no_leading_feed(text: Seq<char>)
    requires
        lines_of(text).len() > 0,
        is_session_header(lines_of(text)[0]),
    ensures
        without_leading_feeds(text) == text,
{
    if text.len() > 0 && text.first() == '\n' {
        let feed = seq!['\n'];
        let rest = text.drop_first();
        assert(feed + rest == text);
        lemma_lines_concat(feed, rest);
        let none = Seq::<char>::empty();
        assert(none.push('\n') == feed);
        lemma_one_line(none);
        assert(without_return(none) == none);
        assert(lines_of(text)[0] == none);
        lemma_empty_is_no_header();
    }
}

/// The parts of a file around a profile: what stands before it, the profile, and
/// what stands behind it.
pub open spec fn parts_around(content: Seq<char>, index: int) -> (Seq<char>, Seq<char>, Seq<char>) {
    let range = ranges_of(content)[index];
    (
        text_before(content, range.0),
        session_text(content, index),
        text_from(content, range.1),
    )
}

/// The end of a profile: where the next one starts, or the end of the file.
proof fn lemma_rest(content: Seq<char>, index: int) -> (cut: (Seq<char>, Seq<char>))
    requires
        !content.contains('\r'),
        0 <= index < ranges_of(content).len(),
    ensures
        content == cut.0 + cut.1,
        ranges_of(content)[index].1 == encode_utf8(cut.0).len(),
        header_offsets(lines_of(cut.1)).len() == ranges_of(content).len() - index - 1,
        cut.1.len() > 0 ==> lines_of(cut.1).len() > 0 && is_session_header(lines_of(cut.1)[0]),
        without_leading_feeds(cut.1) == cut.1,
        !cut.1.contains('\r'),
{
    let all = lines_of(content);
    let offsets = header_offsets(all);
    if index + 1 < offsets.len() {
        let at = lemma_header_line(all, index + 1);
        let cut = lemma_cut(content, at);
        assert(all.take(at) + all.skip(at) == all);
        lemma_headers_concat(all.take(at), all.skip(at));
        assert(lines_of(cut.1)[0] == all[at]);
        lemma_no_leading_feed(cut.1);
        lemma_lacks_concat(cut.0, cut.1, '\r');
        cut
    } else {
        let none = Seq::<char>::empty();
        assert(content + none == content);
        lemma_lines_of_empty();
        (content, none)
    }
}

/// A file without carriage returns can be cut around each of its profiles, and
/// holds just what it is cut into. Before the profile there are whole lines.
pub proof fn law_profile_can_be_cut(content: Seq<char>, index: int)
    requires
        !content.contains('\r'),
        0 <= index < ranges_of(content).len(),
    ensures
        divides(content, ranges_of(content)[index]),
        ({
            let (before, own, after) = parts_around(content, index);
            &&& content == before + own + after
            &&& is_ended(before)
            &&& !before.contains('\r')
            &&& header_offsets(lines_of(before)).len() == index
            &&& header_offsets(lines_of(after)).len() == ranges_of(content).len() - index - 1
            &&& after.len() > 0 ==> lines_of(after).len() > 0 && is_session_header(
                lines_of(after)[0],
            )
            &&& without_leading_feeds(after) == after
            &&& !after.contains('\r')
        }),
{
    let all = lines_of(content);
    let range = ranges_of(content)[index];
    let at = lemma_header_line(all, index);
    let first = lemma_cut(content, at);
    let second = lemma_rest(content, index);
    lemma_divided(first.0, first.1);
    lemma_divided(second.0, second.1);
    assert(range.0 == encode_utf8(first.0).len());
    // The profile ends behind its start, so the first part begins the second.
    lemma_offsets_grow(content, index);
    if first.0.len() > second.0.len() {
        let extra = first.0.skip(second.0.len() as int);
        assert(first.0 == second.0 + extra) by {
            assert forall|i: int| 0 <= i < second.0.len() implies first.0[i] == second.0[i] by {
                assert(content[i] == first.0[i]);
                assert(content[i] == second.0[i]);
            }
        }
        lemma_encode_concat(second.0, extra);
    }
    let own = second.0.skip(first.0.len() as int);
    assert(second.0 == first.0 + own) by {
        assert forall|i: int| 0 <= i < first.0.len() implies first.0[i] == second.0[i] by {
            assert(content[i] == first.0[i]);
            assert(content[i] == second.0[i]);
        }
    }
    lemma_encode_concat(first.0, own);
    lemma_encode_concat(second.0, second.1);
    assert(encode_utf8(content).subrange(range.0, range.1) == encode_utf8(own));
    encode_utf8_decode_utf8(own);
    assert(session_text(content, index) == own);
}

/// A profile ends no earlier than it starts.
proof fn lemma_offsets_grow(content: Seq<char>, index: int)
    requires
        !content.contains('\r'),
        0 <= index < ranges_of(content).len(),
    ensures
        ranges_of(content)[index].0 <= ranges_of(content)[index].1,
{
    let all = lines_of(content);
    let offsets = header_offsets(all);
    let at = lemma_header_line(all, index);
    let cut = lemma_cut(content, at);
    lemma_encode_concat(cut.0, cut.1);
    if index + 1 < offsets.len() {
        let next = lemma_header_line(all, index + 1);
        if next < at {
            assert(all.take(at) == all.take(next) + all.subrange(next, at));
            lemma_headers_concat(all.take(next), all.subrange(next, at));
        } else {
            assert(all.take(next) == all.take(at) + all.subrange(at, next));
            lemma_headers_concat(all.take(at), all.subrange(at, next));
            lemma_sizes(all.subrange(at, next));
        }
    }
}

proof fn lemma_sizes(lines: Seq<Seq<char>>)
    ensures
        lines_size(lines) >= 0,
    decreases lines.len(),
{
    if lines.len() > 0 {
        lemma_sizes(lines.drop_last());
    }
}

/// A profile that is removed is all that a file loses.
pub proof fn law_remove_takes_one(content: Seq<char>, index: int)
    requires
        !content.contains('\r'),
        0 <= index < ranges_of(content).len(),
    ensures
        ({
            let (before, own, after) = parts_around(content, index);
            let removed = removed_session(content, index)->0;
            &&& removed_session(content, index) is Some
            &&& content == before + own + after
            &&& removed == before + after
            &&& ranges_of(removed).len() == ranges_of(content).len() - 1
        }),
{
    law_profile_can_be_cut(content, index);
    let (before, own, after) = parts_around(content, index);
    lemma_lines_concat(before, after);
    lemma_headers_concat(lines_of(before), lines_of(after));
}

/// A profile that is replaced is found in its place as it was written, and the
/// rest of the file stays as it was.
pub proof fn law_replaced_profile_is_found(content: Seq<char>, index: int, session: SessionView)
    requires
        !content.contains('\r'),
        0 <= index < ranges_of(content).len(),
    ensures
        ({
            let (before, own, after) = parts_around(content, index);
            let replaced = replaced_session(content, index, session)->0;
            &&& replaced_session(content, index, session) is Some
            &&& content == before + own + after
            &&& replaced == before + session_toml(session) + after
            &&& ranges_of(replaced).len() == ranges_of(content).len()
            &&& session_text(replaced, index) == session_toml(session)
        }),
{
    law_profile_can_be_cut(content, index);
    law_profile_is_one_block(session);
    let (before, own, after) = parts_around(content, index);
    let text = session_toml(session);
    let front = before + text;
    let replaced = front + after;
    assert(replaced_session(content, index, session) == Some(replaced));
    lemma_lines_concat(before, text);
    lemma_headers_concat(lines_of(before), lines_of(text));
    if text.len() > 0 {
        assert(front.last() == text.last());
    } else {
        assert(front == before);
    }
    lemma_lines_concat(front, after);
    lemma_headers_concat(lines_of(front), lines_of(after));
    lemma_lacks_concat(before, text, '\r');
    lemma_ended_size(before);
    lemma_ended_size(front);
    lemma_encode_concat(before, text);
    lemma_encode_concat(front, after);
    let offsets = header_offsets(lines_of(replaced));
    let middle = header_offsets(lines_of(front));
    let moved = header_offsets(lines_of(text)).map_values(
        |offset: int| offset + lines_size(lines_of(before)),
    );
    assert(moved == seq![lines_size(lines_of(before))]);
    assert(middle[index] == moved[0]);
    assert(offsets[index] == middle[index]);
    assert(ranges_of(replaced)[index].0 == encode_utf8(before).len());
    if after.len() > 0 {
        let lines = lines_of(after);
        lemma_first_header(lines);
        let later = header_offsets(lines).map_values(
            |offset: int| offset + lines_size(lines_of(front)),
        );
        assert(later[0] == lines_size(lines_of(front)));
        assert(offsets[index + 1] == later[0]);
    } else {
        lemma_lines_of_empty();
        assert(after == Seq::<char>::empty());
        assert(replaced == front);
    }
    assert(ranges_of(replaced)[index].1 == encode_utf8(front).len());
    assert(encode_utf8(replaced).subrange(
        encode_utf8(before).len() as int,
        encode_utf8(front).len() as int,
    ) == encode_utf8(text));
    encode_utf8_decode_utf8(text);
}

/// Where the first line starts a profile, that profile starts at once.
pub proof fn lemma_first_header(lines: Seq<Seq<char>>)
    requires
        lines.len() > 0,
        is_session_header(lines[0]),
    ensures
        header_offsets(lines).len() > 0,
        header_offsets(lines)[0] == 0,
    decreases lines.len(),
{
    let head = lines.drop_last();
    if head.len() == 0 {
        assert(lines_size(head) == 0);
        assert(header_offsets(head) == Seq::<int>::empty());
    } else {
        assert(head[0] == lines[0]);
        lemma_first_header(head);
    }
}

} // verus!
