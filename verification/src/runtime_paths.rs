//! Paths as text, and text as a word of a shell command.
use vstd::prelude::*;
use vstd::string::*;

use crate::text::{
    concat, concat3, lemma_replaced_first, replace_char, replaced, rfind, same, split, split_at,
};

verus! {

// ---------------------------------------------------------------------------
// Words of a shell command
// ---------------------------------------------------------------------------
/// A text between single quotes; each single quote inside closes the quotes,
/// stands escaped, and opens them again.
pub open spec fn quoted(text: Seq<char>) -> Seq<char> {
    "'"@ + replaced(text, '\'', "'\\''"@) + "'"@
}

pub fn shell_single_quote(value: &str) -> (result: String)
    ensures
        result@ == quoted(value@),
{
    let inner = replace_char(value, '\'', "'\\''");
    concat3("'", inner.as_str(), "'")
}

/// What a shell reads from a word of single-quoted parts and escaped
/// characters: nothing, if a quote stays open or a character stands bare.
pub open spec fn shell_word(word: Seq<char>, quoting: bool) -> Option<Seq<char>>
    decreases word.len(),
{
    if word.len() == 0 {
        if quoting {
            None
        } else {
            Some(Seq::empty())
        }
    } else if word.first() == '\'' {
        shell_word(word.drop_first(), !quoting)
    } else if quoting {
        match shell_word(word.drop_first(), true) {
            Some(rest) => Some(seq![word.first()] + rest),
            None => None,
        }
    } else if word.first() == '\\' && word.len() > 1 {
        match shell_word(word.skip(2), false) {
            Some(rest) => Some(seq![word[1]] + rest),
            None => None,
        }
    } else {
        None
    }
}

proof fn lemma_quoted_inside(text: Seq<char>)
    ensures
        shell_word(replaced(text, '\'', "'\\''"@) + "'"@, true) == Some(text),
    decreases text.len(),
{
    reveal_strlit("'");
    reveal_strlit("'\\''");
    let with = "'\\''"@;
    if text.len() == 0 {
        let word = replaced(text, '\'', with) + "'"@;
        assert(word == seq!['\'']);
        assert(word.drop_first() == Seq::<char>::empty());
        assert(shell_word(word.drop_first(), false) == Some(Seq::<char>::empty()));
        assert(text == Seq::<char>::empty());
    } else {
        let rest = text.drop_first();
        lemma_quoted_inside(rest);
        lemma_replaced_first(text, '\'', with);
        let tail = replaced(rest, '\'', with) + "'"@;
        let word = replaced(text, '\'', with) + "'"@;
        assert(text == seq![text.first()] + rest);
        if text.first() == '\'' {
            assert(word == with + tail);
            assert(with.len() == 4);
            assert(word.drop_first().skip(2) == seq!['\''] + tail);
            assert((seq!['\''] + tail).drop_first() == tail);
            assert(word.drop_first().first() == '\\');
            assert(word.drop_first()[1] == '\'');
            assert(shell_word(seq!['\''] + tail, false) == Some(rest));
            assert(shell_word(word.drop_first(), false) == Some(seq!['\''] + rest));
        } else {
            assert(word == seq![text.first()] + tail);
            assert(word.drop_first() == tail);
        }
    }
}

/// A shell reads a quoted text as the text itself, whatever it holds.
pub proof fn law_quoting_is_undone(text: Seq<char>)
    ensures
        shell_word(quoted(text), false) == Some(text),
{
    reveal_strlit("'");
    lemma_quoted_inside(text);
    let inner = replaced(text, '\'', "'\\''"@) + "'"@;
    assert(quoted(text) == seq!['\''] + inner);
    assert(quoted(text).drop_first() == inner);
}

// ---------------------------------------------------------------------------
// Components of a path
// ---------------------------------------------------------------------------
/// Whether the part of a path between two slashes names something.
pub open spec fn names_something(part: Seq<char>) -> bool {
    part.len() > 0 && part != "."@
}

/// The last part that names something.
pub open spec fn last_part(parts: Seq<Seq<char>>) -> Option<Seq<char>>
    decreases parts.len(),
{
    if parts.len() == 0 {
        None
    } else if names_something(parts.last()) {
        Some(parts.last())
    } else {
        last_part(parts.drop_last())
    }
}

/// The final component of a path; none if there is none or if it is `..`.
pub open spec fn final_name(path: Seq<char>) -> Option<Seq<char>> {
    match last_part(split_at(path, '/')) {
        Some(part) if part != ".."@ => Some(part),
        _ => None,
    }
}

pub fn file_name(path: &str) -> (result: Option<String>)
    ensures
        result.deep_view() == final_name(path@),
{
    let parts = split(path, '/');
    let mut i: usize = parts.len();
    assert(parts.deep_view().take(i as int) == parts.deep_view());
    while i > 0
        invariant
            i <= parts.len(),
            parts.deep_view() == split_at(path@, '/'),
            last_part(parts.deep_view()) == last_part(parts.deep_view().take(i as int)),
        decreases i,
    {
        let part = parts[i - 1].as_str();
        assert(parts.deep_view().take(i as int).last() == part@);
        assert(parts.deep_view().take(i as int).drop_last() == parts.deep_view().take(i - 1));
        if !part.is_empty() && !same(part, ".") {
            if same(part, "..") {
                return None;
            }
            return Some(part.to_owned());
        }
        i -= 1;
    }
    None
}

/// A path without the slashes and the lone dots at its end that name nothing;
/// a leading slash or dot stays.
pub open spec fn without_tail(path: Seq<char>) -> Seq<char>
    decreases path.len(),
{
    if path.len() > 1 && path.last() == '/' {
        without_tail(path.drop_last())
    } else if path.len() > 1 && path.last() == '.' && path[path.len() - 2] == '/' {
        without_tail(path.drop_last())
    } else {
        path
    }
}

/// The place behind the last slash of a path.
pub open spec fn name_start(path: Seq<char>) -> int {
    crate::text::last_place(path, '/') + 1
}

/// A path without its final component; none for the root and the empty path.
pub open spec fn parent_of(path: Seq<char>) -> Option<Seq<char>> {
    let base = without_tail(path);
    if base.len() == 0 || base == "/"@ {
        None
    } else {
        Some(without_tail(base.take(name_start(base))))
    }
}

fn trim_path(path: &str) -> (result: &str)
    ensures
        result@ == without_tail(path@),
{
    let chars = crate::text::chars_of(path);
    let mut to: usize = chars.len();
    assert(path@.take(to as int) == path@);
    while to > 1 && (chars[to - 1] == '/' || (chars[to - 1] == '.' && chars[to - 2] == '/'))
        invariant
            to <= chars.len(),
            chars@ == path@,
            without_tail(path@) == without_tail(path@.take(to as int)),
        decreases to,
    {
        assert(path@.take(to as int).drop_last() == path@.take(to - 1));
        to -= 1;
    }
    assert(path@.take(to as int) == path@.subrange(0, to as int));
    path.substring_char(0, to)
}

pub fn parent(path: &str) -> (result: Option<String>)
    ensures
        result.deep_view() == parent_of(path@),
{
    let base = trim_path(path);
    if base.is_empty() || same(base, "/") {
        return None;
    }
    let count: usize = base.unicode_len();
    let from: usize = match rfind(base, '/') {
        Some(place) => place + 1,
        None => 0,
    };
    assert(from <= count);
    assert(base@.take(from as int) == base@.subrange(0, from as int));
    Some(trim_path(base.substring_char(0, from)).to_owned())
}

/// The path of an entry in a directory. A name that is a path from the root is
/// that path, whatever the directory is.
pub open spec fn entry_of(directory: Seq<char>, name: Seq<char>) -> Seq<char> {
    if name.len() > 0 && name.first() == '/' {
        name
    } else if directory.len() == 0 || directory.last() == '/' {
        directory + name
    } else {
        directory + "/"@ + name
    }
}

pub fn entry(directory: &str, name: &str) -> (result: String)
    ensures
        result@ == entry_of(directory@, name@),
{
    if name.unicode_len() > 0 && name.get_char(0) == '/' {
        return name.to_owned();
    }
    let count: usize = directory.unicode_len();
    if count == 0 || directory.get_char(count - 1) == '/' {
        concat(directory, name)
    } else {
        concat3(directory, "/", name)
    }
}

/// Whether a path is written without anything at its end that names nothing.
pub open spec fn is_tidy_path(path: Seq<char>) -> bool {
    path.len() > 0 && path.last() != '/' && !(path.last() == '.' && path.len() > 1 && path[path.len()
        - 2] == '/')
}

/// The parent of an entry is the directory that it is in.
pub proof fn law_entry_is_in_its_directory(directory: Seq<char>, name: Seq<char>)
    requires
        is_tidy_path(directory),
        name.len() > 0,
        !name.contains('/'),
        name != "."@,
    ensures
        entry_of(directory, name) == directory + "/"@ + name,
        parent_of(entry_of(directory, name)) == Some(directory),
{
    reveal_strlit("/");
    reveal_strlit(".");
    let path = directory + "/"@ + name;
    assert(name[0] != '/' && name[name.len() - 1] != '/') by {
        assert(name.contains(name[0]));
        assert(name.contains(name[name.len() - 1]));
    }
    assert(path.last() == name[name.len() - 1]);
    assert(without_tail(path) == path) by {
        if path.last() == '.' && path[path.len() - 2] == '/' {
            if name.len() == 1 {
                assert(name == "."@);
            } else {
                assert(path[path.len() - 2] == name[name.len() - 2]);
                assert(name.contains(name[name.len() - 2]));
            }
        }
    }
    crate::text::lemma_last_place(path, '/');
    let at = crate::text::last_place(path, '/');
    assert(path[directory.len() as int] == '/');
    assert(at == directory.len()) by {
        if at > directory.len() {
            assert(path[at] == name[at - directory.len() - 1]);
            assert(name.contains(path[at]));
        }
    }
    let base = path.take(at + 1);
    assert(base == directory + seq!['/']);
    assert(base.drop_last() == directory);
    assert(without_tail(directory) == directory);
    assert(path != "/"@);
}

} // verus!
