//! What a reader finds in a profile that was saved: the profile.
//!
//! The reader is a model of one of TOML. It reads profiles in the form in which they
//! are written, with empty lines and comments between the lines and the values in
//! any order, and refuses whatever else there is in a profile. What it reads, a
//! reader of TOML reads in the same way.
use vstd::prelude::*;
use vstd::string::*;

use crate::container_sessions::SessionView;
use crate::session_config::{
    escaped, is_writable_text, law_escaped_stays_on_line, law_escaping_is_undone, lemma_escaped_first, session_toml,
    toml_audio, toml_field, toml_list, toml_optional, toml_strings, toml_threads, unescaped,
};
use crate::session_files::{
    lemma_decimal_lacks, lemma_lacks_concat, lemma_one_line, lemma_strings_lack,
};
use crate::splitting::{is_ended, lemma_joined_cut, lemma_lines_concat};
use crate::text::{
    all_digits, decimal, digits_value, first_place, is_alphanumeric, is_digit, joined,
    lemma_first_place, lines_of, parsed_number, split_first, without_return,
};

verus! {

// ---------------------------------------------------------------------------
// Entries
// ---------------------------------------------------------------------------
/// The name of a value and what is written for it, on a line that holds both and is
/// no comment.
pub open spec fn entry_in(line: Seq<char>) -> Option<(Seq<char>, Seq<char>)> {
    match split_first(line, ' ') {
        Some((key, rest)) => if line[0] != '#' && rest.len() >= 2 && rest[0] == '=' && rest[1]
            == ' ' {
            Some((key, rest.skip(2)))
        } else {
            None
        },
        None => None,
    }
}

/// What lines hold, by the names of the values.
pub open spec fn entries_in(lines: Seq<Seq<char>>) -> Map<Seq<char>, Seq<char>>
    decreases lines.len(),
{
    if lines.len() == 0 {
        Map::empty()
    } else {
        match entry_in(lines.last()) {
            Some((key, value)) => entries_in(lines.drop_last()).insert(key, value),
            None => entries_in(lines.drop_last()),
        }
    }
}

/// Entries with one more, which may be left out.
#[verifier::opaque]
pub open spec fn with_entry(
    entries: Map<Seq<char>, Seq<char>>,
    key: Seq<char>,
    value: Option<Seq<char>>,
) -> Map<Seq<char>, Seq<char>> {
    match value {
        Some(value) => entries.insert(key, value),
        None => entries,
    }
}

/// What is written under a name.
#[verifier::opaque]
pub open spec fn lookup(entries: Map<Seq<char>, Seq<char>>, key: Seq<char>) -> Option<Seq<char>> {
    if entries.contains_key(key) {
        Some(entries[key])
    } else {
        None
    }
}

proof fn lemma_lookup(
    entries: Map<Seq<char>, Seq<char>>,
    key: Seq<char>,
    value: Option<Seq<char>>,
)
    ensures
        forall|name: Seq<char>| #[trigger]
            lookup(with_entry(entries, key, value), name) == (if name == key && value is Some {
                value
            } else {
                lookup(entries, name)
            }),
{
    reveal(lookup);
    reveal(with_entry);
}

proof fn lemma_entry(key: Seq<char>, value: Seq<char>)
    requires
        is_name(key),
    ensures
        entry_in(key + " = "@ + value) == Some((key, value)),
{
    reveal_strlit(" = ");
    let line = key + " = "@ + value;
    let place = first_place(line, ' ');
    lemma_first_place(line, ' ');
    assert(is_alphanumeric(key[0]) || key[0] == '_' || key[0] == '-');
    assert(line[0] == key[0]);
    assert(line[key.len() as int] == ' ');
    assert(place == key.len()) by {
        if place < key.len() {
            assert(key[place] == ' ');
        }
    }
    assert(line.take(place) == key);
    assert(line.skip(place + 1).skip(2) == value);
    assert(line.skip(place + 1)[0] == '=');
    assert(line.skip(place + 1)[1] == ' ');
}

/// A line that is added at the end adds its entry.
proof fn lemma_add_line(text: Seq<char>, key: Seq<char>, value: Seq<char>)
    requires
        is_ended(text),
        is_name(key),
        !value.contains('\n') && !value.contains('\r'),
    ensures
        is_ended(text + (key + " = "@ + value).push('\n')),
        entries_in(lines_of(text + (key + " = "@ + value).push('\n'))) == with_entry(
            entries_in(lines_of(text)),
            key,
            Some(value),
        ),
{
    let line = key + " = "@ + value;
    reveal(with_entry);
    reveal_strlit(" = ");
    lemma_lacks_concat(key, " = "@, '\n');
    lemma_lacks_concat(key, " = "@, '\r');
    lemma_lacks_concat(key + " = "@, value, '\n');
    lemma_lacks_concat(key + " = "@, value, '\r');
    lemma_one_line(line);
    assert(without_return(line) == line) by {
        if line.last() == '\r' {
            assert(line[line.len() - 1] == '\r');
        }
    }
    lemma_lines_concat(text, line.push('\n'));
    lemma_entry(key, value);
    let all = lines_of(text) + seq![line];
    assert(all.drop_last() == lines_of(text));
    assert(all.last() == line);
    assert((text + line.push('\n')).last() == '\n');
}

/// Whether a text can be the name of a value.
pub open spec fn is_name(key: Seq<char>) -> bool {
    &&& is_bare_key(key)
    &&& !key.contains(' ')
    &&& !key.contains('\n')
    &&& !key.contains('\r')
}

// ---------------------------------------------------------------------------
// Values
// ---------------------------------------------------------------------------
pub open spec fn quoted_text(value: Seq<char>) -> Seq<char> {
    "\""@ + escaped(value) + "\""@
}

/// What is written for a value that need not be there.
pub open spec fn optional_entry(value: Option<Seq<char>>) -> Option<Seq<char>> {
    match value {
        Some(value) if value.len() > 0 => Some(quoted_text(value)),
        _ => None,
    }
}

pub open spec fn list_entry(values: Seq<Seq<char>>) -> Option<Seq<char>> {
    if values.len() == 0 {
        None
    } else {
        Some("["@ + toml_strings(values) + "]"@)
    }
}

pub open spec fn threads_entry(threads: Option<usize>) -> Option<Seq<char>> {
    match threads {
        Some(threads) => Some(decimal(threads as nat)),
        None => None,
    }
}

pub open spec fn audio_entry(audio: bool) -> Seq<char> {
    if audio {
        "true"@
    } else {
        "false"@
    }
}

proof fn lemma_quoted_lacks(value: Seq<char>)
    ensures
        !quoted_text(value).contains('\n'),
        !quoted_text(value).contains('\r'),
{
    reveal_strlit("\"");
    law_escaped_stays_on_line(value);
    lemma_lacks_concat("\""@, escaped(value), '\n');
    lemma_lacks_concat("\""@, escaped(value), '\r');
    lemma_lacks_concat("\""@ + escaped(value), "\""@, '\n');
    lemma_lacks_concat("\""@ + escaped(value), "\""@, '\r');
}

proof fn lemma_add_field(text: Seq<char>, key: Seq<char>, value: Seq<char>)
    requires
        is_ended(text),
        is_name(key),
    ensures
        is_ended(text + toml_field(key, value)),
        entries_in(lines_of(text + toml_field(key, value))) == with_entry(
            entries_in(lines_of(text)),
            key,
            Some(quoted_text(value)),
        ),
{
    lemma_quoted_lacks(value);
    lemma_add_line(text, key, quoted_text(value));
    reveal_strlit(" = ");
    reveal_strlit(" = \"");
    reveal_strlit("\"");
    reveal_strlit("\"\n");
    assert((key + " = "@ + quoted_text(value)).push('\n') == toml_field(key, value));
}

proof fn lemma_add_optional(text: Seq<char>, key: Seq<char>, value: Option<Seq<char>>)
    requires
        is_ended(text),
        is_name(key),
    ensures
        is_ended(text + toml_optional(key, value)),
        entries_in(lines_of(text + toml_optional(key, value))) == with_entry(
            entries_in(lines_of(text)),
            key,
            optional_entry(value),
        ),
{
    reveal(with_entry);
    assert(text + Seq::<char>::empty() == text);
    if value is Some {
        lemma_add_field(text, key, value->0);
    }
}

proof fn lemma_add_list(text: Seq<char>, key: Seq<char>, values: Seq<Seq<char>>)
    requires
        is_ended(text),
        is_name(key),
    ensures
        is_ended(text + toml_list(key, values)),
        entries_in(lines_of(text + toml_list(key, values))) == with_entry(
            entries_in(lines_of(text)),
            key,
            list_entry(values),
        ),
{
    reveal(with_entry);
    assert(text + Seq::<char>::empty() == text);
    if values.len() > 0 {
        let inner = toml_strings(values);
        let value = "["@ + inner + "]"@;
        reveal_strlit("[");
        reveal_strlit("]");
        reveal_strlit(" = ");
        reveal_strlit(" = [");
        reveal_strlit("]\n");
        lemma_strings_lack(values, '\n');
        lemma_strings_lack(values, '\r');
        lemma_lacks_concat("["@, inner, '\n');
        lemma_lacks_concat("["@, inner, '\r');
        lemma_lacks_concat("["@ + inner, "]"@, '\n');
        lemma_lacks_concat("["@ + inner, "]"@, '\r');
        lemma_add_line(text, key, value);
        assert((key + " = "@ + value).push('\n') == toml_list(key, values));
    }
}

proof fn lemma_add_threads(text: Seq<char>, threads: Option<usize>)
    requires
        is_ended(text),
    ensures
        is_ended(text + toml_threads(threads)),
        entries_in(lines_of(text + toml_threads(threads))) == with_entry(
            entries_in(lines_of(text)),
            "waypipe_threads"@,
            threads_entry(threads),
        ),
{
    reveal(with_entry);
    assert(text + Seq::<char>::empty() == text);
    if threads is Some {
        let key = "waypipe_threads"@;
        let value = decimal(threads->0 as nat);
        reveal_strlit("waypipe_threads");
        reveal_strlit("waypipe_threads = ");
        reveal_strlit(" = ");
        reveal_strlit("\n");
        lemma_decimal_lacks(threads->0 as nat, '\n');
        lemma_decimal_lacks(threads->0 as nat, '\r');
        lemma_add_line(text, key, value);
        assert((key + " = "@ + value).push('\n') == toml_threads(threads));
    }
}

proof fn lemma_add_audio(text: Seq<char>, audio: bool)
    requires
        is_ended(text),
    ensures
        is_ended(text + toml_audio(audio)),
        entries_in(lines_of(text + toml_audio(audio))) == with_entry(
            entries_in(lines_of(text)),
            "audio"@,
            Some(audio_entry(audio)),
        ),
{
    let key = "audio"@;
    reveal_strlit("audio");
    reveal_strlit("true");
    reveal_strlit("false");
    reveal_strlit(" = ");
    reveal_strlit("audio = true\n");
    reveal_strlit("audio = false\n");
    lemma_add_line(text, key, audio_entry(audio));
    assert((key + " = "@ + audio_entry(audio)).push('\n') == toml_audio(audio));
}

// ---------------------------------------------------------------------------
// The entries of a profile
// ---------------------------------------------------------------------------
/// What is written of a profile, by the names of its values.
pub open spec fn written(session: SessionView) -> Map<Seq<char>, Seq<char>> {
    let entries = Map::<Seq<char>, Seq<char>>::empty();
    let entries = with_entry(entries, "name"@, Some(quoted_text(session.name)));
    let entries = with_entry(entries, "runtime"@, Some(quoted_text(session.runtime)));
    let entries = with_entry(entries, "image"@, Some(quoted_text(session.image)));
    let entries = with_entry(entries, "display"@, optional_entry(session.display));
    let entries = with_entry(entries, "presentation"@, optional_entry(session.presentation));
    let entries = with_entry(entries, "profile"@, optional_entry(session.profile));
    let entries = with_entry(entries, "command"@, optional_entry(session.command));
    let entries = with_entry(entries, "app"@, optional_entry(session.app));
    let entries = with_entry(entries, "socket"@, optional_entry(session.socket));
    let entries = with_entry(entries, "container_socket"@, optional_entry(session.container_socket));
    let entries = with_entry(entries, "waypipe_path"@, optional_entry(session.waypipe_path));
    let entries = with_entry(entries, "waypipe_compress"@, optional_entry(session.waypipe_compress));
    let entries = with_entry(entries, "waypipe_threads"@, threads_entry(session.waypipe_threads));
    let entries = with_entry(entries, "audio"@, Some(audio_entry(session.audio)));
    let entries = with_entry(entries, "runtime_args"@, list_entry(session.runtime_args));
    let entries = with_entry(entries, "mounts"@, list_entry(session.mounts));
    let entries = with_entry(entries, "env"@, list_entry(session.env));
    entries
}

proof fn lemma_names()
    ensures
        is_name("name"@),
        is_name("runtime"@),
        is_name("image"@),
        is_name("display"@),
        is_name("presentation"@),
        is_name("profile"@),
        is_name("command"@),
        is_name("app"@),
        is_name("socket"@),
        is_name("container_socket"@),
        is_name("waypipe_path"@),
        is_name("waypipe_compress"@),
        is_name("waypipe_threads"@),
        is_name("audio"@),
        is_name("runtime_args"@),
        is_name("mounts"@),
        is_name("env"@),
{
    reveal_strlit("name");
    reveal_strlit("runtime");
    reveal_strlit("image");
    reveal_strlit("display");
    reveal_strlit("presentation");
    reveal_strlit("profile");
    reveal_strlit("command");
    reveal_strlit("app");
    reveal_strlit("socket");
    reveal_strlit("container_socket");
    reveal_strlit("waypipe_path");
    reveal_strlit("waypipe_compress");
    reveal_strlit("waypipe_threads");
    reveal_strlit("audio");
    reveal_strlit("runtime_args");
    reveal_strlit("mounts");
    reveal_strlit("env");
}

proof fn lemma_first_line()
    ensures
        is_ended("[[session]]\n"@),
        entries_in(lines_of("[[session]]\n"@)) == Map::<Seq<char>, Seq<char>>::empty(),
{
    let line = "[[session]]"@;
    reveal_strlit("[[session]]\n");
    reveal_strlit("[[session]]");
    assert(line.push('\n') == "[[session]]\n"@);
    lemma_one_line(line);
    assert(without_return(line) == line);
    lemma_first_place(line, ' ');
    assert(entry_in(line) is None);
    let lines = seq![line];
    assert(lines.last() == line);
    assert(lines.drop_last() == Seq::<Seq<char>>::empty());
    assert(entries_in(lines.drop_last()) == Map::<Seq<char>, Seq<char>>::empty());
}

/// The lines of a saved profile hold its values.
proof fn lemma_written(session: SessionView)
    ensures
        entries_in(lines_of(session_toml(session))) == written(session),
{
    lemma_names();
    lemma_first_line();
    let text = "[[session]]\n"@;
    lemma_add_field(text, "name"@, session.name);
    let text = text + toml_field("name"@, session.name);
    lemma_add_field(text, "runtime"@, session.runtime);
    let text = text + toml_field("runtime"@, session.runtime);
    lemma_add_field(text, "image"@, session.image);
    let text = text + toml_field("image"@, session.image);
    lemma_add_optional(text, "display"@, session.display);
    let text = text + toml_optional("display"@, session.display);
    lemma_add_optional(text, "presentation"@, session.presentation);
    let text = text + toml_optional("presentation"@, session.presentation);
    lemma_add_optional(text, "profile"@, session.profile);
    let text = text + toml_optional("profile"@, session.profile);
    lemma_add_optional(text, "command"@, session.command);
    let text = text + toml_optional("command"@, session.command);
    lemma_add_optional(text, "app"@, session.app);
    let text = text + toml_optional("app"@, session.app);
    lemma_add_optional(text, "socket"@, session.socket);
    let text = text + toml_optional("socket"@, session.socket);
    lemma_add_optional(text, "container_socket"@, session.container_socket);
    let text = text + toml_optional("container_socket"@, session.container_socket);
    lemma_add_optional(text, "waypipe_path"@, session.waypipe_path);
    let text = text + toml_optional("waypipe_path"@, session.waypipe_path);
    lemma_add_optional(text, "waypipe_compress"@, session.waypipe_compress);
    let text = text + toml_optional("waypipe_compress"@, session.waypipe_compress);
    lemma_add_threads(text, session.waypipe_threads);
    let text = text + toml_threads(session.waypipe_threads);
    lemma_add_audio(text, session.audio);
    let text = text + toml_audio(session.audio);
    lemma_add_list(text, "runtime_args"@, session.runtime_args);
    let text = text + toml_list("runtime_args"@, session.runtime_args);
    lemma_add_list(text, "mounts"@, session.mounts);
    let text = text + toml_list("mounts"@, session.mounts);
    lemma_add_list(text, "env"@, session.env);
    let text = text + toml_list("env"@, session.env);
}

// ---------------------------------------------------------------------------
// Reading values
// ---------------------------------------------------------------------------
/// What stands between quotation marks, where a value is nothing else.
pub open spec fn read_text(value: Seq<char>) -> Option<Seq<char>> {
    if value.len() >= 2 && value.first() == '"' && value.last() == '"' {
        unescaped(value.subrange(1, value.len() - 1))
    } else {
        None
    }
}

/// The place of the quotation mark that ends a text.
pub open spec fn closing(text: Seq<char>) -> int
    decreases text.len(),
{
    if text.len() == 0 || text.first() == '"' {
        0
    } else if text.first() == '\\' && text.len() > 1 {
        2 + closing(text.skip(2))
    } else {
        1 + closing(text.drop_first())
    }
}

/// The texts between quotation marks, with commas between them.
pub open spec fn read_texts(text: Seq<char>) -> Option<Seq<Seq<char>>>
    decreases text.len(),
{
    if text.len() == 0 || text.first() != '"' {
        None
    } else {
        let end = closing(text.drop_first());
        let inner = text.drop_first().take(end);
        let rest = text.skip(end + 2);
        if end < 0 || end + 2 > text.len() {
            None
        } else if end + 2 == text.len() {
            match unescaped(inner) {
                Some(value) => Some(seq![value]),
                None => None,
            }
        } else if rest.len() >= 2 && rest[0] == ',' && rest[1] == ' ' {
            match (unescaped(inner), read_texts(rest.skip(2))) {
                (Some(value), Some(values)) => Some(seq![value] + values),
                _ => None,
            }
        } else {
            None
        }
    }
}

/// The texts of a list.
pub open spec fn read_list(value: Seq<char>) -> Option<Seq<Seq<char>>> {
    if value.len() >= 2 && value.first() == '[' && value.last() == ']' {
        read_texts(value.subrange(1, value.len() - 1))
    } else {
        None
    }
}

/// The most that a number of TOML is read as.
pub open spec fn most_threads() -> nat {
    if usize::MAX <= i64::MAX {
        usize::MAX as nat
    } else {
        i64::MAX as nat
    }
}

/// A number without a sign and without leading zeros.
pub open spec fn read_number(value: Seq<char>) -> Option<usize> {
    match parsed_number(value, most_threads()) {
        Some(number) => if decimal(number) == value {
            Some(number as usize)
        } else {
            None
        },
        None => None,
    }
}

pub open spec fn read_switch(value: Seq<char>) -> Option<bool> {
    if value == "true"@ {
        Some(true)
    } else if value == "false"@ {
        Some(false)
    } else {
        None
    }
}

proof fn lemma_read_text(value: Seq<char>)
    requires
        is_writable_text(value),
    ensures
        read_text(quoted_text(value)) == Some(value),
{
    reveal_strlit("\"");
    let text = quoted_text(value);
    assert(text.subrange(1, text.len() - 1) == escaped(value));
    law_escaping_is_undone(value);
}

proof fn lemma_closing(value: Seq<char>, rest: Seq<char>)
    ensures
        closing(escaped(value) + seq!['"'] + rest) == escaped(value).len(),
    decreases value.len(),
{
    let text = escaped(value) + seq!['"'] + rest;
    if value.len() == 0 {
        assert(text.first() == '"');
    } else {
        let tail = value.drop_first();
        lemma_escaped_first(value);
        lemma_closing(tail, rest);
        let after = escaped(tail) + seq!['"'] + rest;
        let front = crate::session_config::escaped_char(value.first());
        assert(text == front + after);
        if front.len() == 2 {
            assert(text.skip(2) == after);
        } else {
            assert(text.drop_first() == after);
        }
    }
}

/// A text between quotation marks is read before what follows it.
proof fn lemma_read_first(first: Seq<char>, after: Seq<char>)
    requires
        is_writable_text(first),
    ensures
        after.len() == 0 ==> read_texts(quoted_text(first) + after) == Some(seq![first]),
        after.len() >= 2 && after[0] == ',' && after[1] == ' ' ==> read_texts(
            quoted_text(first) + after,
        ) == (match read_texts(after.skip(2)) {
            Some(values) => Some(seq![first] + values),
            None => None,
        }),
{
    reveal_strlit("\"");
    let text = quoted_text(first) + after;
    let inner = escaped(first);
    law_escaping_is_undone(first);
    lemma_closing(first, after);
    assert(text.drop_first() == inner + seq!['"'] + after);
    assert(text.drop_first().take(inner.len() as int) == inner);
    assert(text.skip(inner.len() as int + 2) == after);
    assert(text.len() == inner.len() + 2 + after.len());
    assert(text.first() == '"');
}

proof fn lemma_strings_first(values: Seq<Seq<char>>)
    requires
        values.len() > 0,
    ensures
        toml_strings(values) == quoted_text(values.first()) + (if values.len() == 1 {
            Seq::<char>::empty()
        } else {
            ", "@ + toml_strings(values.drop_first())
        }),
{
    let quote = |value: Seq<char>| "\""@ + escaped(value) + "\""@;
    let parts = values.map_values(quote);
    let first = quoted_text(values.first());
    if values.len() == 1 {
        assert(parts.last() == first);
        assert(first + Seq::<char>::empty() == first);
    } else {
        let tail = values.drop_first();
        lemma_joined_cut(parts, ", "@, 1);
        assert(parts.skip(1) == tail.map_values(quote));
        assert(parts.take(1) == seq![first]);
        assert(joined(parts.take(1), ", "@) == first);
        assert(first + ", "@ + toml_strings(tail) == first + (", "@ + toml_strings(tail)));
    }
}

proof fn lemma_read_texts(values: Seq<Seq<char>>)
    requires
        values.len() > 0,
        are_writable(values),
    ensures
        read_texts(toml_strings(values)) == Some(values),
    decreases values.len(),
{
    let first = values.first();
    let tail = values.drop_first();
    assert(is_writable_text(values[0]));
    assert forall|i: int| 0 <= i < tail.len() implies is_writable_text(#[trigger] tail[i]) by {
        assert(tail[i] == values[i + 1]);
    }
    lemma_strings_first(values);
    if values.len() == 1 {
        lemma_read_first(first, Seq::empty());
        assert(values == seq![first]);
    } else {
        reveal_strlit(", ");
        let after = ", "@ + toml_strings(tail);
        lemma_read_texts(tail);
        lemma_read_first(first, after);
        assert(after.skip(2) == toml_strings(tail));
        assert(values == seq![first] + tail);
    }
}

proof fn lemma_read_list(values: Seq<Seq<char>>)
    requires
        values.len() > 0,
        are_writable(values),
    ensures
        list_entry(values) is Some,
        read_list(list_entry(values)->0) == Some(values),
{
    reveal_strlit("[");
    reveal_strlit("]");
    lemma_read_texts(values);
    let inner = toml_strings(values);
    let value = "["@ + inner + "]"@;
    assert(value.subrange(1, value.len() - 1) == inner);
}

proof fn lemma_read_number(value: nat)
    ensures
        decimal(value).len() > 0,
        all_digits(decimal(value)),
        digits_value(decimal(value)) == value,
    decreases value,
{
    let text = decimal(value);
    if value < 10 {
        assert(text.drop_last() == Seq::<char>::empty());
        assert(digits_value(text.drop_last()) == 0);
    } else {
        lemma_read_number(value / 10);
        assert(text.drop_last() == decimal(value / 10));
        assert forall|i: int| 0 <= i < text.len() implies is_digit(#[trigger] text[i]) by {
            if i < text.len() - 1 {
                assert(text[i] == decimal(value / 10)[i]);
            }
        }
    }
}

// ---------------------------------------------------------------------------
// Reading a profile
// ---------------------------------------------------------------------------
pub open spec fn found_text(entries: Map<Seq<char>, Seq<char>>, key: Seq<char>) -> Option<Seq<char>> {
    match lookup(entries, key) {
        Some(value) => read_text(value),
        None => None,
    }
}

pub open spec fn found_list(entries: Map<Seq<char>, Seq<char>>, key: Seq<char>) -> Seq<Seq<char>> {
    match lookup(entries, key) {
        Some(value) => match read_list(value) {
            Some(values) => values,
            None => Seq::empty(),
        },
        None => Seq::empty(),
    }
}

pub open spec fn found_number(entries: Map<Seq<char>, Seq<char>>, key: Seq<char>) -> Option<usize> {
    match lookup(entries, key) {
        Some(value) => read_number(value),
        None => None,
    }
}

/// What is switched on where nothing else is said.
pub open spec fn found_switch(entries: Map<Seq<char>, Seq<char>>, key: Seq<char>) -> bool {
    match lookup(entries, key) {
        Some(value) => match read_switch(value) {
            Some(on) => on,
            None => true,
        },
        None => true,
    }
}

/// Whether a text of a file is one of TOML that names a value by itself.
pub open spec fn is_bare_key(key: Seq<char>) -> bool {
    key.len() > 0 && forall|i: int|
        0 <= i < key.len() ==> is_alphanumeric(#[trigger] key[i]) || key[i] == '_' || key[i] == '-'
}

/// The place of a name in the order in which values are written; names that are
/// never written have none.
pub open spec fn place_of(key: Seq<char>) -> int {
    if key == "name"@ {
        0
    } else if key == "runtime"@ {
        1
    } else if key == "image"@ {
        2
    } else if key == "display"@ {
        3
    } else if key == "presentation"@ {
        4
    } else if key == "profile"@ {
        5
    } else if key == "command"@ {
        6
    } else if key == "app"@ {
        7
    } else if key == "socket"@ {
        8
    } else if key == "container_socket"@ {
        9
    } else if key == "waypipe_path"@ {
        10
    } else if key == "waypipe_compress"@ {
        11
    } else if key == "waypipe_threads"@ {
        12
    } else if key == "audio"@ {
        13
    } else if key == "runtime_args"@ {
        14
    } else if key == "mounts"@ {
        15
    } else if key == "env"@ {
        16
    } else {
        17
    }
}

/// Whether what is written under a name is a value of the right kind.
pub open spec fn is_value_of(key: Seq<char>, value: Seq<char>) -> bool {
    let place = place_of(key);
    if place < 12 {
        read_text(value) is Some
    } else if place == 12 {
        read_number(value) is Some
    } else if place == 13 {
        read_switch(value) is Some
    } else if place < 17 {
        read_list(value) is Some
    } else {
        read_text(value) is Some || read_number(value) is Some || read_switch(value) is Some
            || read_list(value) is Some
    }
}

/// A comment.
pub open spec fn is_comment(line: Seq<char>) -> bool {
    line.len() > 0 && line[0] == '#' && forall|i: int|
        0 <= i < line.len() ==> (#[trigger] line[i] >= ' ' && line[i] != '\u{7f}')
}

/// A line that is empty, a comment, or a name with its value.
pub open spec fn is_plain_line(line: Seq<char>) -> bool {
    line.len() == 0 || is_comment(line) || (entry_in(line) matches Some((key, value))
        && is_bare_key(key) && is_value_of(key, value))
}

/// The names on lines that hold values.
pub open spec fn names_in(lines: Seq<Seq<char>>) -> Seq<Seq<char>>
    decreases lines.len(),
{
    if lines.len() == 0 {
        Seq::empty()
    } else {
        match entry_in(lines.last()) {
            Some((key, _)) => names_in(lines.drop_last()).push(key),
            None => names_in(lines.drop_last()),
        }
    }
}

/// Whether lines are a profile in a form that is read: the line that starts it,
/// plain lines, and no name twice.
pub open spec fn is_plain_block(lines: Seq<Seq<char>>) -> bool {
    &&& lines.len() > 0
    &&& lines[0] == "[[session]]"@
    &&& forall|i: int| 1 <= i < lines.len() ==> is_plain_line(#[trigger] lines[i])
    &&& names_in(lines).no_duplicates()
}

/// The profile that lines hold: its name and its image have to be there, what
/// else is left out has its default.
pub open spec fn read_session(lines: Seq<Seq<char>>) -> Option<SessionView> {
    let entries = entries_in(lines);
    match (found_text(entries, "name"@), found_text(entries, "image"@)) {
        (Some(name), Some(image)) if is_plain_block(lines) => Some(
            SessionView {
                name,
                image,
                runtime: match found_text(entries, "runtime"@) {
                    Some(runtime) => runtime,
                    None => "container"@,
                },
                display: found_text(entries, "display"@),
                presentation: found_text(entries, "presentation"@),
                profile: found_text(entries, "profile"@),
                command: found_text(entries, "command"@),
                app: found_text(entries, "app"@),
                socket: found_text(entries, "socket"@),
                container_socket: found_text(entries, "container_socket"@),
                waypipe_path: found_text(entries, "waypipe_path"@),
                waypipe_compress: found_text(entries, "waypipe_compress"@),
                waypipe_threads: found_number(entries, "waypipe_threads"@),
                audio: found_switch(entries, "audio"@),
                runtime_args: found_list(entries, "runtime_args"@),
                mounts: found_list(entries, "mounts"@),
                env: found_list(entries, "env"@),
            },
        ),
        _ => None,
    }
}

/// A value that need not be there; an empty one is not kept.
pub open spec fn kept(value: Option<Seq<char>>) -> Option<Seq<char>> {
    match value {
        Some(value) if value.len() > 0 => Some(value),
        _ => None,
    }
}

/// A profile as it is kept: without empty values.
pub open spec fn kept_session(session: SessionView) -> SessionView {
    SessionView {
        display: kept(session.display),
        presentation: kept(session.presentation),
        profile: kept(session.profile),
        command: kept(session.command),
        app: kept(session.app),
        socket: kept(session.socket),
        container_socket: kept(session.container_socket),
        waypipe_path: kept(session.waypipe_path),
        waypipe_compress: kept(session.waypipe_compress),
        ..session
    }
}

proof fn lemma_found_text(entries: Map<Seq<char>, Seq<char>>, key: Seq<char>, value: Seq<char>)
    requires
        is_writable_text(value),
        lookup(entries, key) == Some(quoted_text(value)),
    ensures
        found_text(entries, key) == Some(value),
{
    lemma_read_text(value);
}

proof fn lemma_found_optional(
    entries: Map<Seq<char>, Seq<char>>,
    key: Seq<char>,
    value: Option<Seq<char>>,
)
    requires
        is_writable_option(value),
        lookup(entries, key) == optional_entry(value),
    ensures
        found_text(entries, key) == kept(value),
{
    if value is Some {
        lemma_read_text(value->0);
    }
}

proof fn lemma_found_list(
    entries: Map<Seq<char>, Seq<char>>,
    key: Seq<char>,
    values: Seq<Seq<char>>,
)
    requires
        are_writable(values),
        lookup(entries, key) == list_entry(values),
    ensures
        found_list(entries, key) == values,
{
    if values.len() > 0 {
        lemma_read_list(values);
    } else {
        assert(values == Seq::<Seq<char>>::empty());
    }
}

/// The names of the values are all different.
proof fn lemma_names_differ()
    ensures
        "name"@ != "runtime"@,
        "name"@ != "image"@,
        "name"@ != "display"@,
        "name"@ != "presentation"@,
        "name"@ != "profile"@,
        "name"@ != "command"@,
        "name"@ != "app"@,
        "name"@ != "socket"@,
        "name"@ != "container_socket"@,
        "name"@ != "waypipe_path"@,
        "name"@ != "waypipe_compress"@,
        "name"@ != "waypipe_threads"@,
        "name"@ != "audio"@,
        "name"@ != "runtime_args"@,
        "name"@ != "mounts"@,
        "name"@ != "env"@,
        "runtime"@ != "image"@,
        "runtime"@ != "display"@,
        "runtime"@ != "presentation"@,
        "runtime"@ != "profile"@,
        "runtime"@ != "command"@,
        "runtime"@ != "app"@,
        "runtime"@ != "socket"@,
        "runtime"@ != "container_socket"@,
        "runtime"@ != "waypipe_path"@,
        "runtime"@ != "waypipe_compress"@,
        "runtime"@ != "waypipe_threads"@,
        "runtime"@ != "audio"@,
        "runtime"@ != "runtime_args"@,
        "runtime"@ != "mounts"@,
        "runtime"@ != "env"@,
        "image"@ != "display"@,
        "image"@ != "presentation"@,
        "image"@ != "profile"@,
        "image"@ != "command"@,
        "image"@ != "app"@,
        "image"@ != "socket"@,
        "image"@ != "container_socket"@,
        "image"@ != "waypipe_path"@,
        "image"@ != "waypipe_compress"@,
        "image"@ != "waypipe_threads"@,
        "image"@ != "audio"@,
        "image"@ != "runtime_args"@,
        "image"@ != "mounts"@,
        "image"@ != "env"@,
        "display"@ != "presentation"@,
        "display"@ != "profile"@,
        "display"@ != "command"@,
        "display"@ != "app"@,
        "display"@ != "socket"@,
        "display"@ != "container_socket"@,
        "display"@ != "waypipe_path"@,
        "display"@ != "waypipe_compress"@,
        "display"@ != "waypipe_threads"@,
        "display"@ != "audio"@,
        "display"@ != "runtime_args"@,
        "display"@ != "mounts"@,
        "display"@ != "env"@,
        "presentation"@ != "profile"@,
        "presentation"@ != "command"@,
        "presentation"@ != "app"@,
        "presentation"@ != "socket"@,
        "presentation"@ != "container_socket"@,
        "presentation"@ != "waypipe_path"@,
        "presentation"@ != "waypipe_compress"@,
        "presentation"@ != "waypipe_threads"@,
        "presentation"@ != "audio"@,
        "presentation"@ != "runtime_args"@,
        "presentation"@ != "mounts"@,
        "presentation"@ != "env"@,
        "profile"@ != "command"@,
        "profile"@ != "app"@,
        "profile"@ != "socket"@,
        "profile"@ != "container_socket"@,
        "profile"@ != "waypipe_path"@,
        "profile"@ != "waypipe_compress"@,
        "profile"@ != "waypipe_threads"@,
        "profile"@ != "audio"@,
        "profile"@ != "runtime_args"@,
        "profile"@ != "mounts"@,
        "profile"@ != "env"@,
        "command"@ != "app"@,
        "command"@ != "socket"@,
        "command"@ != "container_socket"@,
        "command"@ != "waypipe_path"@,
        "command"@ != "waypipe_compress"@,
        "command"@ != "waypipe_threads"@,
        "command"@ != "audio"@,
        "command"@ != "runtime_args"@,
        "command"@ != "mounts"@,
        "command"@ != "env"@,
        "app"@ != "socket"@,
        "app"@ != "container_socket"@,
        "app"@ != "waypipe_path"@,
        "app"@ != "waypipe_compress"@,
        "app"@ != "waypipe_threads"@,
        "app"@ != "audio"@,
        "app"@ != "runtime_args"@,
        "app"@ != "mounts"@,
        "app"@ != "env"@,
        "socket"@ != "container_socket"@,
        "socket"@ != "waypipe_path"@,
        "socket"@ != "waypipe_compress"@,
        "socket"@ != "waypipe_threads"@,
        "socket"@ != "audio"@,
        "socket"@ != "runtime_args"@,
        "socket"@ != "mounts"@,
        "socket"@ != "env"@,
        "container_socket"@ != "waypipe_path"@,
        "container_socket"@ != "waypipe_compress"@,
        "container_socket"@ != "waypipe_threads"@,
        "container_socket"@ != "audio"@,
        "container_socket"@ != "runtime_args"@,
        "container_socket"@ != "mounts"@,
        "container_socket"@ != "env"@,
        "waypipe_path"@ != "waypipe_compress"@,
        "waypipe_path"@ != "waypipe_threads"@,
        "waypipe_path"@ != "audio"@,
        "waypipe_path"@ != "runtime_args"@,
        "waypipe_path"@ != "mounts"@,
        "waypipe_path"@ != "env"@,
        "waypipe_compress"@ != "waypipe_threads"@,
        "waypipe_compress"@ != "audio"@,
        "waypipe_compress"@ != "runtime_args"@,
        "waypipe_compress"@ != "mounts"@,
        "waypipe_compress"@ != "env"@,
        "waypipe_threads"@ != "audio"@,
        "waypipe_threads"@ != "runtime_args"@,
        "waypipe_threads"@ != "mounts"@,
        "waypipe_threads"@ != "env"@,
        "audio"@ != "runtime_args"@,
        "audio"@ != "mounts"@,
        "audio"@ != "env"@,
        "runtime_args"@ != "mounts"@,
        "runtime_args"@ != "env"@,
        "mounts"@ != "env"@,
{
    reveal_strlit("name");
    reveal_strlit("runtime");
    reveal_strlit("image");
    reveal_strlit("display");
    reveal_strlit("presentation");
    reveal_strlit("profile");
    reveal_strlit("command");
    reveal_strlit("app");
    reveal_strlit("socket");
    reveal_strlit("container_socket");
    reveal_strlit("waypipe_path");
    reveal_strlit("waypipe_compress");
    reveal_strlit("waypipe_threads");
    reveal_strlit("audio");
    reveal_strlit("runtime_args");
    reveal_strlit("mounts");
    reveal_strlit("env");
    assert("name"@.len() == 4);
    assert("runtime"@.len() == 7);
    assert("image"@.len() == 5);
    assert("display"@.len() == 7);
    assert("presentation"@.len() == 12);
    assert("profile"@.len() == 7);
    assert("command"@.len() == 7);
    assert("app"@.len() == 3);
    assert("socket"@.len() == 6);
    assert("container_socket"@.len() == 16);
    assert("waypipe_path"@.len() == 12);
    assert("waypipe_compress"@.len() == 16);
    assert("waypipe_threads"@.len() == 15);
    assert("audio"@.len() == 5);
    assert("runtime_args"@.len() == 12);
    assert("mounts"@.len() == 6);
    assert("env"@.len() == 3);
    assert("runtime"@[0] != "display"@[0]);
    assert("runtime"@[0] != "profile"@[0]);
    assert("runtime"@[0] != "command"@[0]);
    assert("image"@[0] != "audio"@[0]);
    assert("display"@[0] != "profile"@[0]);
    assert("display"@[0] != "command"@[0]);
    assert("presentation"@[0] != "waypipe_path"@[0]);
    assert("presentation"@[0] != "runtime_args"@[0]);
    assert("profile"@[0] != "command"@[0]);
    assert("app"@[0] != "env"@[0]);
    assert("socket"@[0] != "mounts"@[0]);
    assert("container_socket"@[0] != "waypipe_compress"@[0]);
    assert("waypipe_path"@[0] != "runtime_args"@[0]);
}

/// What is written of a profile stands under its name.
proof fn lemma_written_holds(session: SessionView)
    ensures
        ({
            let entries = written(session);
            &&& lookup(entries, "name"@) == Some(quoted_text(session.name))
            &&& lookup(entries, "runtime"@) == Some(quoted_text(session.runtime))
            &&& lookup(entries, "image"@) == Some(quoted_text(session.image))
            &&& lookup(entries, "display"@) == optional_entry(session.display)
            &&& lookup(entries, "presentation"@) == optional_entry(session.presentation)
            &&& lookup(entries, "profile"@) == optional_entry(session.profile)
            &&& lookup(entries, "command"@) == optional_entry(session.command)
            &&& lookup(entries, "app"@) == optional_entry(session.app)
            &&& lookup(entries, "socket"@) == optional_entry(session.socket)
            &&& lookup(entries, "container_socket"@) == optional_entry(session.container_socket)
            &&& lookup(entries, "waypipe_path"@) == optional_entry(session.waypipe_path)
            &&& lookup(entries, "waypipe_compress"@) == optional_entry(session.waypipe_compress)
            &&& lookup(entries, "waypipe_threads"@) == threads_entry(session.waypipe_threads)
            &&& lookup(entries, "audio"@) == Some(audio_entry(session.audio))
            &&& lookup(entries, "runtime_args"@) == list_entry(session.runtime_args)
            &&& lookup(entries, "mounts"@) == list_entry(session.mounts)
            &&& lookup(entries, "env"@) == list_entry(session.env)
        }),
{
    lemma_names_differ();
    let entries = Map::<Seq<char>, Seq<char>>::empty();
    assert(forall|name: Seq<char>| lookup(entries, name) is None) by {
        reveal(lookup);
    }
    lemma_lookup(entries, "name"@, Some(quoted_text(session.name)));
    let entries = with_entry(entries, "name"@, Some(quoted_text(session.name)));
    lemma_lookup(entries, "runtime"@, Some(quoted_text(session.runtime)));
    let entries = with_entry(entries, "runtime"@, Some(quoted_text(session.runtime)));
    lemma_lookup(entries, "image"@, Some(quoted_text(session.image)));
    let entries = with_entry(entries, "image"@, Some(quoted_text(session.image)));
    lemma_lookup(entries, "display"@, optional_entry(session.display));
    let entries = with_entry(entries, "display"@, optional_entry(session.display));
    lemma_lookup(entries, "presentation"@, optional_entry(session.presentation));
    let entries = with_entry(entries, "presentation"@, optional_entry(session.presentation));
    lemma_lookup(entries, "profile"@, optional_entry(session.profile));
    let entries = with_entry(entries, "profile"@, optional_entry(session.profile));
    lemma_lookup(entries, "command"@, optional_entry(session.command));
    let entries = with_entry(entries, "command"@, optional_entry(session.command));
    lemma_lookup(entries, "app"@, optional_entry(session.app));
    let entries = with_entry(entries, "app"@, optional_entry(session.app));
    lemma_lookup(entries, "socket"@, optional_entry(session.socket));
    let entries = with_entry(entries, "socket"@, optional_entry(session.socket));
    lemma_lookup(entries, "container_socket"@, optional_entry(session.container_socket));
    let entries = with_entry(entries, "container_socket"@, optional_entry(session.container_socket));
    lemma_lookup(entries, "waypipe_path"@, optional_entry(session.waypipe_path));
    let entries = with_entry(entries, "waypipe_path"@, optional_entry(session.waypipe_path));
    lemma_lookup(entries, "waypipe_compress"@, optional_entry(session.waypipe_compress));
    let entries = with_entry(entries, "waypipe_compress"@, optional_entry(session.waypipe_compress));
    lemma_lookup(entries, "waypipe_threads"@, threads_entry(session.waypipe_threads));
    let entries = with_entry(entries, "waypipe_threads"@, threads_entry(session.waypipe_threads));
    lemma_lookup(entries, "audio"@, Some(audio_entry(session.audio)));
    let entries = with_entry(entries, "audio"@, Some(audio_entry(session.audio)));
    lemma_lookup(entries, "runtime_args"@, list_entry(session.runtime_args));
    let entries = with_entry(entries, "runtime_args"@, list_entry(session.runtime_args));
    lemma_lookup(entries, "mounts"@, list_entry(session.mounts));
    let entries = with_entry(entries, "mounts"@, list_entry(session.mounts));
    lemma_lookup(entries, "env"@, list_entry(session.env));
    let entries = with_entry(entries, "env"@, list_entry(session.env));
}

// ---------------------------------------------------------------------------
// What is written is plain
// ---------------------------------------------------------------------------
/// Whether all of some texts can be written.
pub open spec fn are_writable(values: Seq<Seq<char>>) -> bool {
    forall|i: int| 0 <= i < values.len() ==> is_writable_text(#[trigger] values[i])
}

pub open spec fn is_writable_option(value: Option<Seq<char>>) -> bool {
    value matches Some(text) ==> is_writable_text(text)
}

/// Whether a profile can be written: its texts can, and the number of its threads is
/// one that TOML knows.
pub open spec fn is_writable(session: SessionView) -> bool {
    &&& is_writable_text(session.name)
    &&& is_writable_text(session.runtime)
    &&& is_writable_text(session.image)
    &&& is_writable_option(session.display)
    &&& is_writable_option(session.presentation)
    &&& is_writable_option(session.profile)
    &&& is_writable_option(session.command)
    &&& is_writable_option(session.app)
    &&& is_writable_option(session.socket)
    &&& is_writable_option(session.container_socket)
    &&& is_writable_option(session.waypipe_path)
    &&& is_writable_option(session.waypipe_compress)
    &&& session.waypipe_threads matches Some(threads) ==> threads <= i64::MAX
    &&& are_writable(session.runtime_args)
    &&& are_writable(session.mounts)
    &&& are_writable(session.env)
}

/// The start of a profile whose values come before a place in the order.
spec fn is_plain_start(text: Seq<char>, place: int) -> bool {
    &&& is_ended(text)
    &&& is_plain_block(lines_of(text))
    &&& forall|i: int|
        0 <= i < names_in(lines_of(text)).len() ==> place_of(#[trigger] names_in(lines_of(text))[i])
            < place
}

/// A line with a value of the next name keeps a start plain.
proof fn lemma_plain_line(text: Seq<char>, key: Seq<char>, value: Seq<char>)
    requires
        is_plain_start(text, place_of(key)),
        is_name(key),
        !value.contains('\n') && !value.contains('\r'),
        is_value_of(key, value),
    ensures
        is_plain_start(text + (key + " = "@ + value).push('\n'), place_of(key) + 1),
{
    let line = key + " = "@ + value;
    reveal_strlit(" = ");
    lemma_lacks_concat(key, " = "@, '\n');
    lemma_lacks_concat(key, " = "@, '\r');
    lemma_lacks_concat(key + " = "@, value, '\n');
    lemma_lacks_concat(key + " = "@, value, '\r');
    lemma_one_line(line);
    assert(without_return(line) == line) by {
        if line.last() == '\r' {
            assert(line[line.len() - 1] == '\r');
        }
    }
    lemma_lines_concat(text, line.push('\n'));
    lemma_entry(key, value);
    let before = lines_of(text);
    let all = before + seq![line];
    assert(all.drop_last() == before);
    assert(all.last() == line);
    assert((text + line.push('\n')).last() == '\n');
    assert(is_plain_line(line));
    assert(all[0] == before[0]);
    assert forall|i: int| 1 <= i < all.len() implies is_plain_line(#[trigger] all[i]) by {
        if i < before.len() {
            assert(all[i] == before[i]);
        }
    }
    let names = names_in(before);
    assert(names_in(all) == names.push(key));
    assert forall|i: int, j: int| 0 <= i < j < names.push(key).len() implies names.push(key)[i]
        != names.push(key)[j] by {
        assert(names.push(key)[i] == names[i]);
        if j < names.len() {
            assert(names.push(key)[j] == names[j]);
        }
    }
    assert forall|i: int| 0 <= i < names.push(key).len() implies place_of(
        #[trigger] names.push(key)[i],
    ) < place_of(key) + 1 by {
        if i < names.len() {
            assert(names.push(key)[i] == names[i]);
        }
    }
}

proof fn lemma_plain_field(text: Seq<char>, key: Seq<char>, value: Seq<char>)
    requires
        is_plain_start(text, place_of(key)),
        is_name(key),
        place_of(key) < 12,
        is_writable_text(value),
    ensures
        is_plain_start(text + toml_field(key, value), place_of(key) + 1),
{
    lemma_quoted_lacks(value);
    lemma_read_text(value);
    lemma_plain_line(text, key, quoted_text(value));
    reveal_strlit(" = ");
    reveal_strlit(" = \"");
    reveal_strlit("\"");
    reveal_strlit("\"\n");
    assert((key + " = "@ + quoted_text(value)).push('\n') == toml_field(key, value));
}

proof fn lemma_plain_optional(text: Seq<char>, key: Seq<char>, value: Option<Seq<char>>)
    requires
        is_plain_start(text, place_of(key)),
        is_name(key),
        place_of(key) < 12,
        is_writable_option(value),
    ensures
        is_plain_start(text + toml_optional(key, value), place_of(key) + 1),
{
    assert(text + Seq::<char>::empty() == text);
    if value is Some {
        lemma_plain_field(text, key, value->0);
    }
}

proof fn lemma_plain_list(text: Seq<char>, key: Seq<char>, values: Seq<Seq<char>>)
    requires
        is_plain_start(text, place_of(key)),
        is_name(key),
        14 <= place_of(key) < 17,
        are_writable(values),
    ensures
        is_plain_start(text + toml_list(key, values), place_of(key) + 1),
{
    assert(text + Seq::<char>::empty() == text);
    if values.len() > 0 {
        let inner = toml_strings(values);
        let value = "["@ + inner + "]"@;
        reveal_strlit("[");
        reveal_strlit("]");
        reveal_strlit(" = ");
        reveal_strlit(" = [");
        reveal_strlit("]\n");
        lemma_strings_lack(values, '\n');
        lemma_strings_lack(values, '\r');
        lemma_lacks_concat("["@, inner, '\n');
        lemma_lacks_concat("["@, inner, '\r');
        lemma_lacks_concat("["@ + inner, "]"@, '\n');
        lemma_lacks_concat("["@ + inner, "]"@, '\r');
        lemma_read_list(values);
        lemma_plain_line(text, key, value);
        assert((key + " = "@ + value).push('\n') == toml_list(key, values));
    }
}

proof fn lemma_plain_threads(text: Seq<char>, threads: Option<usize>)
    requires
        is_plain_start(text, 12),
        place_of("waypipe_threads"@) == 12,
        threads matches Some(count) ==> count <= i64::MAX,
    ensures
        is_plain_start(text + toml_threads(threads), 13),
{
    assert(text + Seq::<char>::empty() == text);
    if threads is Some {
        let key = "waypipe_threads"@;
        let value = decimal(threads->0 as nat);
        lemma_names();
        reveal_strlit("waypipe_threads");
        reveal_strlit("waypipe_threads = ");
        reveal_strlit(" = ");
        reveal_strlit("\n");
        lemma_decimal_lacks(threads->0 as nat, '\n');
        lemma_decimal_lacks(threads->0 as nat, '\r');
        lemma_read_threads(threads->0);
        lemma_plain_line(text, key, value);
        assert((key + " = "@ + value).push('\n') == toml_threads(threads));
    }
}

proof fn lemma_read_threads(threads: usize)
    requires
        threads <= i64::MAX,
    ensures
        read_number(decimal(threads as nat)) == Some(threads),
{
    let number = threads as nat;
    lemma_read_number(number);
    assert(is_digit(decimal(number)[0]));
}

proof fn lemma_plain_audio(text: Seq<char>, audio: bool)
    requires
        is_plain_start(text, 13),
        place_of("audio"@) == 13,
    ensures
        is_plain_start(text + toml_audio(audio), 14),
{
    let key = "audio"@;
    lemma_names();
    reveal_strlit("audio");
    reveal_strlit("true");
    reveal_strlit("false");
    reveal_strlit(" = ");
    reveal_strlit("audio = true\n");
    reveal_strlit("audio = false\n");
    lemma_plain_line(text, key, audio_entry(audio));
    assert((key + " = "@ + audio_entry(audio)).push('\n') == toml_audio(audio));
}

proof fn lemma_places()
    ensures
        place_of("name"@) == 0,
        place_of("runtime"@) == 1,
        place_of("image"@) == 2,
        place_of("display"@) == 3,
        place_of("presentation"@) == 4,
        place_of("profile"@) == 5,
        place_of("command"@) == 6,
        place_of("app"@) == 7,
        place_of("socket"@) == 8,
        place_of("container_socket"@) == 9,
        place_of("waypipe_path"@) == 10,
        place_of("waypipe_compress"@) == 11,
        place_of("waypipe_threads"@) == 12,
        place_of("audio"@) == 13,
        place_of("runtime_args"@) == 14,
        place_of("mounts"@) == 15,
        place_of("env"@) == 16,
{
    lemma_names_differ();
}

proof fn lemma_plain_first()
    ensures
        is_plain_start("[[session]]\n"@, 0),
{
    let line = "[[session]]"@;
    reveal_strlit("[[session]]\n");
    reveal_strlit("[[session]]");
    assert(line.push('\n') == "[[session]]\n"@);
    lemma_one_line(line);
    assert(without_return(line) == line);
    lemma_first_place(line, ' ');
    assert(entry_in(line) is None);
    let lines = seq![line];
    assert(lines.last() == line);
    assert(lines.drop_last() == Seq::<Seq<char>>::empty());
    assert(names_in(lines.drop_last()) == Seq::<Seq<char>>::empty());
    assert(names_in(lines) == Seq::<Seq<char>>::empty());
}

/// What is written of a profile is a profile in a form that is read.
proof fn lemma_written_is_plain(session: SessionView)
    requires
        is_writable(session),
    ensures
        is_plain_block(lines_of(session_toml(session))),
{
    lemma_names();
    lemma_places();
    lemma_plain_first();
    let text = "[[session]]\n"@;
    lemma_plain_field(text, "name"@, session.name);
    let text = text + toml_field("name"@, session.name);
    lemma_plain_field(text, "runtime"@, session.runtime);
    let text = text + toml_field("runtime"@, session.runtime);
    lemma_plain_field(text, "image"@, session.image);
    let text = text + toml_field("image"@, session.image);
    lemma_plain_optional(text, "display"@, session.display);
    let text = text + toml_optional("display"@, session.display);
    lemma_plain_optional(text, "presentation"@, session.presentation);
    let text = text + toml_optional("presentation"@, session.presentation);
    lemma_plain_optional(text, "profile"@, session.profile);
    let text = text + toml_optional("profile"@, session.profile);
    lemma_plain_optional(text, "command"@, session.command);
    let text = text + toml_optional("command"@, session.command);
    lemma_plain_optional(text, "app"@, session.app);
    let text = text + toml_optional("app"@, session.app);
    lemma_plain_optional(text, "socket"@, session.socket);
    let text = text + toml_optional("socket"@, session.socket);
    lemma_plain_optional(text, "container_socket"@, session.container_socket);
    let text = text + toml_optional("container_socket"@, session.container_socket);
    lemma_plain_optional(text, "waypipe_path"@, session.waypipe_path);
    let text = text + toml_optional("waypipe_path"@, session.waypipe_path);
    lemma_plain_optional(text, "waypipe_compress"@, session.waypipe_compress);
    let text = text + toml_optional("waypipe_compress"@, session.waypipe_compress);
    lemma_plain_threads(text, session.waypipe_threads);
    let text = text + toml_threads(session.waypipe_threads);
    lemma_plain_audio(text, session.audio);
    let text = text + toml_audio(session.audio);
    lemma_plain_list(text, "runtime_args"@, session.runtime_args);
    let text = text + toml_list("runtime_args"@, session.runtime_args);
    lemma_plain_list(text, "mounts"@, session.mounts);
    let text = text + toml_list("mounts"@, session.mounts);
    lemma_plain_list(text, "env"@, session.env);
    let text = text + toml_list("env"@, session.env);
}

/// A saved profile that can be written is read back as it was, but for values that
/// are empty, which are left out.
pub proof fn law_saved_profile_is_read_back(session: SessionView)
    requires
        is_writable(session),
    ensures
        read_session(lines_of(session_toml(session))) == Some(kept_session(session)),
{
    lemma_written(session);
    lemma_written_holds(session);
    lemma_written_is_plain(session);
    let entries = written(session);
    lemma_found_text(entries, "name"@, session.name);
    lemma_found_text(entries, "runtime"@, session.runtime);
    lemma_found_text(entries, "image"@, session.image);
    lemma_found_optional(entries, "display"@, session.display);
    lemma_found_optional(entries, "presentation"@, session.presentation);
    lemma_found_optional(entries, "profile"@, session.profile);
    lemma_found_optional(entries, "command"@, session.command);
    lemma_found_optional(entries, "app"@, session.app);
    lemma_found_optional(entries, "socket"@, session.socket);
    lemma_found_optional(entries, "container_socket"@, session.container_socket);
    lemma_found_optional(entries, "waypipe_path"@, session.waypipe_path);
    lemma_found_optional(entries, "waypipe_compress"@, session.waypipe_compress);
    lemma_found_list(entries, "runtime_args"@, session.runtime_args);
    lemma_found_list(entries, "mounts"@, session.mounts);
    lemma_found_list(entries, "env"@, session.env);
    if session.waypipe_threads is Some {
        lemma_read_threads(session.waypipe_threads->0);
    }
    reveal_strlit("true");
    reveal_strlit("false");
    assert("true"@.len() != "false"@.len());
    assert(read_session(lines_of(session_toml(session)))->0 == kept_session(session));
}

} // verus!
