//! What has happened: the activity of the program, and what the applications
//! have said.
use vstd::prelude::*;
use vstd::string::*;

use crate::tasks::{keep_last, last_of, last_texts};
use crate::text::{
    chars_of, concat4, contains, copy_list, decimal, decimal_text, is_ascii_digit, is_digit, join,
    joined, occurs, push_text, split_whitespace, string_of, words_of,
};

verus! {

/// The most lines of activity that are remembered.
pub const ACTIVITY_LIMIT: usize = 50;

/// The most lines that are remembered of one application.
pub const LOG_LIMIT: usize = 200;

// ---------------------------------------------------------------------------
// Cleaning lines
// ---------------------------------------------------------------------------
pub open spec fn is_final_byte(c: char) -> bool {
    '@' <= c && c <= '~'
}

/// What follows the character that ends a control sequence.
pub open spec fn after_final(text: Seq<char>) -> Seq<char>
    decreases text.len(),
{
    if text.len() == 0 {
        text
    } else if is_final_byte(text.first()) {
        text.drop_first()
    } else {
        after_final(text.drop_first())
    }
}

/// How many characters at the start are digits or semicolons.
pub open spec fn code_length(text: Seq<char>) -> nat
    decreases text.len(),
{
    if text.len() == 0 || !(is_digit(text.first()) || text.first() == ';') {
        0
    } else {
        code_length(text.drop_first()) + 1
    }
}

pub proof fn lemma_after_final_shorter(text: Seq<char>)
    ensures
        after_final(text).len() <= text.len(),
    decreases text.len(),
{
    if text.len() > 0 {
        lemma_after_final_shorter(text.drop_first());
    }
}

pub proof fn lemma_code_length(text: Seq<char>)
    ensures
        code_length(text) <= text.len(),
    decreases text.len(),
{
    if text.len() > 0 {
        lemma_code_length(text.drop_first());
    }
}

/// A text without the sequences by which a terminal is told colours and the
/// like: those after an escape character, and colours whose escape character
/// was lost on the way.
pub open spec fn plain(text: Seq<char>) -> Seq<char>
    decreases text.len(),
{
    if text.len() == 0 {
        Seq::empty()
    } else {
        let rest = text.drop_first();
        proof {
            lemma_code_length(rest);
        }
        if text.first() == '\u{1b}' {
            if rest.len() > 0 && rest.first() == '[' {
                proof {
                    lemma_after_final_shorter(rest.drop_first());
                }
                plain(after_final(rest.drop_first()))
            } else {
                plain(rest)
            }
        } else if text.first() == '[' {
            let length = code_length(rest) as int;
            if length > 0 && length < rest.len() && rest[length] == 'm' {
                plain(rest.skip(length + 1))
            } else {
                seq!['['] + rest.take(length) + plain(rest.skip(length))
            }
        } else {
            seq![text.first()] + plain(rest)
        }
    }
}

proof fn lemma_code_has_no_escape(text: Seq<char>)
    ensures
        forall|i: int| 0 <= i < code_length(text) ==> #[trigger] text[i] != '\u{1b}',
    decreases text.len(),
{
    if text.len() > 0 && (is_digit(text.first()) || text.first() == ';') {
        lemma_code_length(text);
        lemma_code_has_no_escape(text.drop_first());
        assert forall|i: int| 0 <= i < code_length(text) implies #[trigger] text[i]
            != '\u{1b}' by {
            if i > 0 {
                assert(text[i] == text.drop_first()[i - 1]);
            }
        }
    }
}

/// No escape character is left in a plain text, whatever it was made from.
pub proof fn law_plain_has_no_escape(text: Seq<char>)
    ensures
        !plain(text).contains('\u{1b}'),
    decreases text.len(),
{
    if text.len() > 0 {
        let rest = text.drop_first();
        lemma_code_length(rest);
        lemma_code_has_no_escape(rest);
        if text.first() == '\u{1b}' {
            if rest.len() > 0 && rest.first() == '[' {
                lemma_after_final_shorter(rest.drop_first());
                law_plain_has_no_escape(after_final(rest.drop_first()));
            } else {
                law_plain_has_no_escape(rest);
            }
        } else if text.first() == '[' {
            let length = code_length(rest) as int;
            if length > 0 && length < rest.len() && rest[length] == 'm' {
                law_plain_has_no_escape(rest.skip(length + 1));
            } else {
                law_plain_has_no_escape(rest.skip(length));
                let tail = plain(rest.skip(length));
                assert forall|i: int| 0 <= i < plain(text).len() implies #[trigger] plain(text)[i]
                    != '\u{1b}' by {
                    if i == 0 {
                    } else if i <= length {
                        assert(plain(text)[i] == rest[i - 1]);
                    } else {
                        assert(plain(text)[i] == tail[i - 1 - length]);
                    }
                }
            }
        } else {
            law_plain_has_no_escape(rest);
            let tail = plain(rest);
            assert forall|i: int| 0 <= i < plain(text).len() implies #[trigger] plain(text)[i]
                != '\u{1b}' by {
                if i > 0 {
                    assert(plain(text)[i] == tail[i - 1]);
                }
            }
        }
    }
}

/// A text without escape characters and brackets is plain.
pub proof fn law_plain_text_is_kept(text: Seq<char>)
    requires
        !text.contains('\u{1b}'),
        !text.contains('['),
    ensures
        plain(text) == text,
    decreases text.len(),
{
    if text.len() > 0 {
        let rest = text.drop_first();
        assert(text[0] == text.first());
        assert forall|i: int| 0 <= i < rest.len() implies #[trigger] rest[i] == text[i + 1] by {}
        law_plain_text_is_kept(rest);
        assert(seq![text.first()] + rest == text);
    }
}

pub fn strip_ansi_sequences(line: &str) -> (result: String)
    ensures
        result@ == plain(line@),
{
    let chars = chars_of(line);
    let mut output: Vec<char> = Vec::new();
    let mut i: usize = 0;
    assert(line@.skip(0) == line@);
    while i < chars.len()
        invariant
            i <= chars@.len(),
            chars@ == line@,
            output@ + plain(line@.skip(i as int)) == plain(line@),
        decreases chars@.len() - i,
    {
        let ghost start = line@.skip(i as int);
        let ghost written = output@;
        let c = chars[i];
        i = i + 1;
        assert(start.drop_first() == line@.skip(i as int));
        if c == '\u{1b}' {
            if i < chars.len() && chars[i] == '[' {
                i = i + 1;
                assert(start.drop_first().drop_first() == line@.skip(i as int));
                let mut over = false;
                let ghost from = i;
                while i < chars.len() && !over
                    invariant
                        from <= i <= chars@.len(),
                        chars@ == line@,
                        after_final(start.drop_first().drop_first()) == (if over {
                            line@.skip(i as int)
                        } else {
                            after_final(line@.skip(i as int))
                        }),
                    decreases chars@.len() - i,
                {
                    assert(line@.skip(i as int).drop_first() == line@.skip(i + 1));
                    if '@' <= chars[i] && chars[i] <= '~' {
                        over = true;
                    }
                    i = i + 1;
                }
                assert(after_final(start.drop_first().drop_first()) == line@.skip(i as int));
            }
        } else if c == '[' {
            let ghost rest = start.drop_first();
            let from: usize = i;
            while i < chars.len() && (is_ascii_digit(chars[i]) || chars[i] == ';')
                invariant
                    from <= i <= chars@.len(),
                    chars@ == line@,
                    rest == line@.skip(from as int),
                    code_length(rest) == i - from + code_length(line@.skip(i as int)),
                decreases chars@.len() - i,
            {
                assert(line@.skip(i as int).drop_first() == line@.skip(i + 1));
                i = i + 1;
            }
            assert(code_length(rest) == i - from);
            assert(rest.skip(i - from) == line@.skip(i as int));
            if i > from && i < chars.len() && chars[i] == 'm' {
                assert(rest[i - from] == 'm');
                i = i + 1;
                assert(rest.skip(i - from) == line@.skip(i as int));
            } else {
                output.push('[');
                let mut k: usize = from;
                while k < i
                    invariant
                        from <= k <= i <= chars@.len(),
                        chars@ == line@,
                        rest == line@.skip(from as int),
                        output@ == written + seq!['['] + rest.take(k - from),
                    decreases i - k,
                {
                    output.push(chars[k]);
                    k = k + 1;
                    assert(output@ == written + seq!['['] + rest.take(k - from));
                }
                assert(output@ + plain(line@.skip(i as int)) == written + plain(start));
            }
        } else {
            output.push(c);
            assert(output@ + plain(line@.skip(i as int)) == written + plain(start));
        }
    }
    assert(output@ == plain(line@));
    string_of(output.as_slice())
}

pub open spec fn is_locale_warning(line: Seq<char>) -> bool {
    occurs(line, "niri::dbus"@) && occurs(line, "locale1 watcher"@) && occurs(
        line,
        "No such file or directory"@,
    )
}

/// A line of an application as it is shown: plain, with single spaces, and with
/// a warning that means nothing in a container put in better words.
pub open spec fn cleaned(line: Seq<char>) -> Seq<char> {
    let collapsed = joined(words_of(plain(line)), " "@);
    if is_locale_warning(collapsed) {
        "niri: locale1 watcher is unavailable in this container; this is non-fatal when the desktop is running."@
    } else {
        collapsed
    }
}

pub fn is_niri_locale_warning(line: &str) -> (result: bool)
    ensures
        result == is_locale_warning(line@),
{
    contains(line, "niri::dbus") && contains(line, "locale1 watcher") && contains(
        line,
        "No such file or directory",
    )
}

pub fn clean_session_log_line(line: &str) -> (result: String)
    ensures
        result@ == cleaned(line@),
{
    let stripped = strip_ansi_sequences(line);
    let words = split_whitespace(stripped.as_str());
    let collapsed = join(&words, " ");
    if is_niri_locale_warning(collapsed.as_str()) {
        "niri: locale1 watcher is unavailable in this container; this is non-fatal when the desktop is running.".to_owned()
    } else {
        collapsed
    }
}

// ---------------------------------------------------------------------------
// Activity
// ---------------------------------------------------------------------------
/// A line of activity: the second in which it happened, and what.
pub open spec fn activity_line(now_ms: u128, message: Seq<char>) -> Seq<char> {
    "["@ + decimal((now_ms / 1000) as nat) + "] "@ + message
}

/// The activity after something has happened.
pub open spec fn noted(lines: Seq<Seq<char>>, now_ms: u128, message: Seq<char>) -> Seq<Seq<char>> {
    last_of(lines.push(activity_line(now_ms, message)), ACTIVITY_LIMIT as nat)
}

/// What the program has done, oldest first.
#[derive(Debug)]
pub struct ActivityLog {
    pub lines: Vec<String>,
}

impl ActivityLog {
    pub open spec fn well_formed(&self) -> bool {
        self.lines@.len() <= ACTIVITY_LIMIT
    }

    pub fn new() -> (result: Self)
        ensures
            result.well_formed(),
            result.lines.deep_view() == Seq::<Seq<char>>::empty(),
    {
        let lines: Vec<String> = Vec::new();
        assert(lines.deep_view() == Seq::<Seq<char>>::empty());
        ActivityLog { lines }
    }

    pub fn push_activity(&mut self, now_ms: u128, message: &str)
        requires
            old(self).well_formed(),
        ensures
            final(self).well_formed(),
            final(self).lines.deep_view() == noted(old(self).lines.deep_view(), now_ms, message@),
            final(self).lines.deep_view().last() == activity_line(now_ms, message@),
    {
        let seconds = decimal_text(now_ms / 1000);
        let line = concat4("[", seconds.as_str(), "] ", message);
        push_text(&mut self.lines, line.as_str());
        keep_last(&mut self.lines, ACTIVITY_LIMIT);
    }

    pub fn clear(&mut self)
        ensures
            final(self).well_formed(),
            final(self).lines.deep_view() == Seq::<Seq<char>>::empty(),
    {
        self.lines = Vec::new();
        assert(self.lines.deep_view() == Seq::<Seq<char>>::empty());
    }

    pub fn activity_snapshot(&self) -> (result: Vec<String>)
        ensures
            result.deep_view() == self.lines.deep_view(),
    {
        copy_list(&self.lines)
    }

    /// The last lines, at most some number of them.
    pub fn control_activity_snapshot(&self, limit: usize) -> (result: Vec<String>)
        ensures
            result.deep_view() == last_of(self.lines.deep_view(), limit as nat),
    {
        last_texts(&self.lines, limit)
    }
}

// ---------------------------------------------------------------------------
// What applications say
// ---------------------------------------------------------------------------
/// The place of the first entry of an application, or -1.
pub open spec fn entry_place<A>(entries: Seq<(usize, A)>, index: usize) -> int
    decreases entries.len(),
{
    if entries.len() == 0 {
        -1
    } else {
        let before = entry_place(entries.drop_last(), index);
        if before >= 0 {
            before
        } else if entries.last().0 == index {
            entries.len() - 1
        } else {
            -1
        }
    }
}

pub proof fn lemma_entry_place<A>(entries: Seq<(usize, A)>, index: usize)
    ensures
        -1 <= entry_place(entries, index) < entries.len(),
        entry_place(entries, index) >= 0 ==> entries[entry_place(entries, index)].0 == index,
        forall|i: int|
            0 <= i < entries.len() && #[trigger] entries[i].0 == index ==> entry_place(
                entries,
                index,
            ) >= 0,
    decreases entries.len(),
{
    if entries.len() > 0 {
        lemma_entry_place(entries.drop_last(), index);
        assert forall|i: int| 0 <= i < entries.len() && #[trigger] entries[i].0
            == index implies entry_place(entries, index) >= 0 by {
            if i < entries.len() - 1 {
                assert(entries.drop_last()[i].0 == index);
            }
        }
    }
}

proof fn lemma_entry_stays<A>(entries: Seq<(usize, A)>, index: usize, count: int)
    requires
        0 <= count <= entries.len(),
        entry_place(entries.take(count), index) >= 0,
    ensures
        entry_place(entries, index) == entry_place(entries.take(count), index),
    decreases entries.len() - count,
{
    if count == entries.len() {
        assert(entries.take(count) == entries);
    } else {
        assert(entries.take(count + 1).drop_last() == entries.take(count));
        lemma_entry_stays(entries, index, count + 1);
    }
}

/// Finds the first entry of an application.
pub fn find_entry<A: DeepView>(entries: &Vec<(usize, A)>, index: usize) -> (result: Option<usize>)
    ensures
        match result {
            Some(place) => place < entries@.len() && place == entry_place(
                entries.deep_view(),
                index,
            ) && entries@[place as int].0 == index,
            None => entry_place(entries.deep_view(), index) < 0,
        },
{
    let ghost all = entries.deep_view();
    for i in 0..entries.len()
        invariant
            all == entries.deep_view(),
            entry_place(all.take(i as int), index) < 0,
    {
        assert(all.take(i + 1).last() == entries@[i as int].deep_view());
        assert(all.take(i + 1).drop_last() == all.take(i as int));
        if entries[i].0 == index {
            proof {
                lemma_entry_stays(all, index, i + 1);
            }
            return Some(i);
        }
    }
    assert(all.take(all.len() as int) == all);
    None
}

/// A line as it is remembered: who said it, and what.
pub open spec fn log_line(source: Seq<char>, line: Seq<char>) -> Seq<char> {
    "["@ + source + "] "@ + cleaned(line)
}

/// The lines of all applications after one of them has said something.
pub open spec fn logged(
    logs: Seq<(usize, Seq<Seq<char>>)>,
    index: usize,
    source: Seq<char>,
    line: Seq<char>,
) -> Seq<(usize, Seq<Seq<char>>)> {
    let place = entry_place(logs, index);
    if place < 0 {
        logs.push((index, seq![log_line(source, line)]))
    } else {
        logs.update(
            place,
            (index, last_of(logs[place].1.push(log_line(source, line)), LOG_LIMIT as nat)),
        )
    }
}

pub open spec fn log_cleared(logs: Seq<(usize, Seq<Seq<char>>)>, index: usize) -> Seq<
    (usize, Seq<Seq<char>>),
> {
    let place = entry_place(logs, index);
    if place < 0 {
        logs
    } else {
        logs.update(place, (index, Seq::empty()))
    }
}

/// The lines of one application.
pub open spec fn log_of(logs: Seq<(usize, Seq<Seq<char>>)>, index: usize) -> Seq<Seq<char>> {
    let place = entry_place(logs, index);
    if place < 0 {
        Seq::empty()
    } else {
        logs[place].1
    }
}

/// What the applications have said, each oldest first.
#[derive(Debug)]
pub struct SessionLogs {
    pub entries: Vec<(usize, Vec<String>)>,
}

impl SessionLogs {
    /// No more lines are remembered of an application than fit.
    pub open spec fn well_formed(&self) -> bool {
        forall|i: int|
            0 <= i < self.entries@.len() ==> (#[trigger] self.entries@[i]).1@.len() <= LOG_LIMIT
    }

    pub fn new() -> (result: Self)
        ensures
            result.well_formed(),
            result.entries.deep_view() == Seq::<(usize, Seq<Seq<char>>)>::empty(),
    {
        let entries: Vec<(usize, Vec<String>)> = Vec::new();
        assert(entries.deep_view() == Seq::<(usize, Seq<Seq<char>>)>::empty());
        SessionLogs { entries }
    }

    pub fn push_session_log(&mut self, index: usize, source: &str, line: &str)
        requires
            old(self).well_formed(),
        ensures
            final(self).well_formed(),
            final(self).entries.deep_view() == logged(
                old(self).entries.deep_view(),
                index,
                source@,
                line@,
            ),
    {
        let clean = clean_session_log_line(line);
        let formatted = concat4("[", source, "] ", clean.as_str());
        let ghost before = self.entries.deep_view();
        match find_entry(&self.entries, index) {
            Some(place) => {
                let mut entry = self.entries.remove(place);
                push_text(&mut entry.1, formatted.as_str());
                keep_last(&mut entry.1, LOG_LIMIT);
                let ghost changed = entry.deep_view();
                self.entries.insert(place, entry);
                assert(self.entries.deep_view() == before.update(place as int, changed));
            },
            None => {
                let mut lines: Vec<String> = Vec::new();
                push_text(&mut lines, formatted.as_str());
                assert(lines.deep_view() == seq![formatted@]);
                self.entries.push((index, lines));
                assert(self.entries.deep_view() == before.push((index, seq![formatted@])));
            },
        }
    }

    pub fn clear_session_logs(&mut self, index: usize)
        requires
            old(self).well_formed(),
        ensures
            final(self).well_formed(),
            final(self).entries.deep_view() == log_cleared(old(self).entries.deep_view(), index),
    {
        let ghost before = self.entries.deep_view();
        if let Some(place) = find_entry(&self.entries, index) {
            let mut entry = self.entries.remove(place);
            entry.1 = Vec::new();
            assert(entry.1.deep_view() == Seq::<Seq<char>>::empty());
            let ghost changed = entry.deep_view();
            self.entries.insert(place, entry);
            assert(self.entries.deep_view() == before.update(place as int, changed));
        }
    }

    pub fn session_logs(&self, index: usize) -> (result: Vec<String>)
        ensures
            result.deep_view() == log_of(self.entries.deep_view(), index),
    {
        match find_entry(&self.entries, index) {
            Some(place) => copy_list(&self.entries[place].1),
            None => {
                let result: Vec<String> = Vec::new();
                assert(result.deep_view() == Seq::<Seq<char>>::empty());
                result
            },
        }
    }

    /// The last lines of an application, at most some number of them.
    pub fn control_session_logs(&self, index: usize, limit: usize) -> (result: Vec<String>)
        ensures
            result.deep_view() == last_of(log_of(self.entries.deep_view(), index), limit as nat),
    {
        let lines = self.session_logs(index);
        last_texts(&lines, limit)
    }
}

/// What one application says changes nothing of what another has said.
pub proof fn law_logs_are_apart(
    logs: Seq<(usize, Seq<Seq<char>>)>,
    index: usize,
    other: usize,
    source: Seq<char>,
    line: Seq<char>,
)
    requires
        index != other,
    ensures
        log_of(logged(logs, index, source, line), other) == log_of(logs, other),
{
    lemma_entry_place(logs, index);
    let place = entry_place(logs, index);
    let after = logged(logs, index, source, line);
    if place < 0 {
        assert(after.drop_last() == logs);
        lemma_entry_place(logs, other);
    } else {
        lemma_same_places(logs, after, other);
        lemma_entry_place(logs, other);
        lemma_entry_place(after, other);
    }
}

/// What an application has said last is what is read last.
pub proof fn law_log_ends_with_line(
    logs: Seq<(usize, Seq<Seq<char>>)>,
    index: usize,
    source: Seq<char>,
    line: Seq<char>,
)
    ensures
        log_of(logged(logs, index, source, line), index).len() > 0,
        log_of(logged(logs, index, source, line), index).last() == log_line(source, line),
{
    lemma_entry_place(logs, index);
    let place = entry_place(logs, index);
    let after = logged(logs, index, source, line);
    if place < 0 {
        assert(after.drop_last() == logs);
    } else {
        lemma_same_places(logs, after, index);
    }
}

pub proof fn lemma_same_places<A>(a: Seq<(usize, A)>, b: Seq<(usize, A)>, index: usize)
    requires
        a.len() == b.len(),
        forall|i: int| 0 <= i < a.len() ==> #[trigger] a[i].0 == b[i].0,
    ensures
        entry_place(a, index) == entry_place(b, index),
    decreases a.len(),
{
    if a.len() > 0 {
        assert forall|i: int| 0 <= i < a.drop_last().len() implies #[trigger] a.drop_last()[i].0
            == b.drop_last()[i].0 by {
            assert(a[i].0 == b[i].0);
        }
        lemma_same_places(a.drop_last(), b.drop_last(), index);
        assert(a[a.len() - 1].0 == b[b.len() - 1].0);
    }
}

} // verus!
