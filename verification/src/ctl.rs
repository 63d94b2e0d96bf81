//! The command line of the control program.
use vstd::prelude::*;
use vstd::string::*;

use crate::text::{
    concat, drop_text, empty_list, has_text, outcome, parse_u64, parsed_number, push_text, same,
    starts_with, without_text,
};

verus! {

/// What is asked of a running Cocoa-Way.
#[derive(Debug)]
pub struct ControlRequest {
    pub command: String,
    pub session: Option<String>,
    pub limit: usize,
}

#[verifier::ext_equal]
pub struct RequestView {
    pub command: Seq<char>,
    pub session: Option<Seq<char>>,
    pub limit: usize,
}

impl DeepView for ControlRequest {
    type V = RequestView;

    open spec fn deep_view(&self) -> RequestView {
        RequestView {
            command: self.command@,
            session: self.session.deep_view(),
            limit: self.limit,
        }
    }
}

/// How many lines are asked for where nothing else is said.
pub const DEFAULT_LIMIT: usize = 100;

/// What a command line says: where to ask, for how much, and the words that are
/// no options.
#[derive(Debug)]
pub struct Arguments {
    pub socket: Option<String>,
    pub limit: usize,
    pub positional: Vec<String>,
}

#[verifier::ext_equal]
pub struct ArgumentsView {
    pub socket: Option<Seq<char>>,
    pub limit: usize,
    pub positional: Seq<Seq<char>>,
}

impl DeepView for Arguments {
    type V = ArgumentsView;

    open spec fn deep_view(&self) -> ArgumentsView {
        ArgumentsView {
            socket: self.socket.deep_view(),
            limit: self.limit,
            positional: self.positional.deep_view(),
        }
    }
}

/// The words of a command line, read one after the other. The last of several
/// options of a kind counts.
pub open spec fn read_words(words: Seq<Seq<char>>, so_far: ArgumentsView) -> Result<
    ArgumentsView,
    Seq<char>,
>
    decreases words.len(),
{
    if words.len() == 0 {
        Ok(so_far)
    } else if words[0] == "--socket"@ {
        if words.len() < 2 {
            Err("--socket requires a path"@)
        } else {
            read_words(words.skip(2), ArgumentsView { socket: Some(words[1]), ..so_far })
        }
    } else if words[0] == "--limit"@ {
        if words.len() < 2 {
            Err("--limit requires a number"@)
        } else {
            match parsed_number(words[1], usize::MAX as nat) {
                Some(limit) => read_words(
                    words.skip(2),
                    ArgumentsView { limit: limit as usize, ..so_far },
                ),
                None => Err("--limit must be a positive integer"@),
            }
        }
    } else if "-"@.is_prefix_of(words[0]) {
        Err("unknown option: "@ + words[0])
    } else {
        read_words(
            words.skip(1),
            ArgumentsView { positional: so_far.positional.push(words[0]), ..so_far },
        )
    }
}

fn parse_limit(text: &str) -> (result: Option<usize>)
    ensures
        match result {
            Some(value) => parsed_number(text@, usize::MAX as nat) == Some(value as nat),
            None => parsed_number(text@, usize::MAX as nat) is None,
        },
{
    match parse_u64(text) {
        Some(value) => if value <= usize::MAX as u64 {
            Some(value as usize)
        } else {
            None
        },
        None => None,
    }
}

/// Reads the words of a command line.
pub fn read_arguments(words: &Vec<String>) -> (result: Result<Arguments, String>)
    ensures
        outcome(result) == read_words(
            words.deep_view(),
            ArgumentsView { socket: None, limit: DEFAULT_LIMIT, positional: Seq::empty() },
        ),
{
    let ghost all = words.deep_view();
    let ghost whole = read_words(
        all,
        ArgumentsView { socket: None, limit: DEFAULT_LIMIT, positional: Seq::empty() },
    );
    let mut arguments = Arguments {
        socket: None,
        limit: DEFAULT_LIMIT,
        positional: empty_list(),
    };
    let mut index: usize = 0;
    assert(all.skip(0) == all);
    while index < words.len()
        invariant
            all == words.deep_view(),
            all.len() == words@.len(),
            index <= words@.len(),
            read_words(all.skip(index as int), arguments.deep_view()) == whole,
            whole == read_words(
                all,
                ArgumentsView { socket: None, limit: DEFAULT_LIMIT, positional: Seq::empty() },
            ),
        decreases words@.len() - index,
    {
        let ghost rest = all.skip(index as int);
        assert(rest[0] == words@[index as int]@);
        assert(rest.skip(1) == all.skip(index + 1));
        let word = words[index].as_str();
        if same(word, "--socket") || same(word, "--limit") {
            if words.len() - index < 2 {
                return Err(
                    if same(word, "--socket") {
                        "--socket requires a path".to_owned()
                    } else {
                        "--limit requires a number".to_owned()
                    },
                );
            }
            assert(rest[1] == words@[index + 1]@);
            assert(rest.skip(2) == all.skip(index + 2));
            if same(word, "--socket") {
                arguments.socket = Some(words[index + 1].clone());
            } else {
                match parse_limit(words[index + 1].as_str()) {
                    Some(limit) => {
                        arguments.limit = limit;
                    },
                    None => {
                        proof {
                            reveal_strlit("--socket");
                            reveal_strlit("--limit");
                        }
                        return Err("--limit must be a positive integer".to_owned());
                    },
                }
            }
            index = index + 2;
        } else if starts_with(word, "-") {
            return Err(concat("unknown option: ", word));
        } else {
            push_text(&mut arguments.positional, word);
            index = index + 1;
        }
    }
    assert(all.skip(index as int).len() == 0);
    Ok(arguments)
}

/// What the words that are no options ask for.
pub open spec fn request_of(arguments: ArgumentsView) -> Result<RequestView, Seq<char>> {
    if arguments.positional.len() == 0 {
        Err("missing command; run cocoa-wayctl --help"@)
    } else if arguments.positional.len() > 2 {
        Err("too many positional arguments"@)
    } else {
        Ok(
            RequestView {
                command: arguments.positional[0],
                session: if arguments.positional.len() == 2 {
                    Some(arguments.positional[1])
                } else {
                    None
                },
                limit: arguments.limit,
            },
        )
    }
}

fn control_request(arguments: &Arguments) -> (result: Result<ControlRequest, String>)
    ensures
        outcome(result) == request_of(arguments.deep_view()),
{
    let ghost words = arguments.positional.deep_view();
    let count: usize = arguments.positional.len();
    assert(words.len() == count);
    if count == 0 {
        return Err("missing command; run cocoa-wayctl --help".to_owned());
    }
    if count > 2 {
        return Err("too many positional arguments".to_owned());
    }
    assert(words[0] == arguments.positional@[0]@);
    Ok(
        ControlRequest {
            command: arguments.positional[0].clone(),
            session: if count == 2 {
                Some(arguments.positional[1].clone())
            } else {
                None
            },
            limit: arguments.limit,
        },
    )
}

/// What is to be done for a command line.
#[derive(Debug)]
pub enum Invocation {
    Help,
    /// A request, and where to send it if not to the usual place. The reply is
    /// printed on one line if `compact`.
    Send { socket: Option<String>, request: ControlRequest, compact: bool },
}

pub enum InvocationView {
    Help,
    Send { socket: Option<Seq<char>>, request: RequestView, compact: bool },
}

impl DeepView for Invocation {
    type V = InvocationView;

    open spec fn deep_view(&self) -> InvocationView {
        match self {
            Invocation::Help => InvocationView::Help,
            Invocation::Send { socket, request, compact } => InvocationView::Send {
                socket: socket.deep_view(),
                request: request.deep_view(),
                compact: *compact,
            },
        }
    }
}

/// What a command line asks for. Help is given whatever else it says.
pub open spec fn invocation_of(words: Seq<Seq<char>>) -> Result<InvocationView, Seq<char>> {
    if words.contains("--help"@) || words.contains("-h"@) {
        Ok(InvocationView::Help)
    } else {
        match read_words(
            without_text(words, "--json"@),
            ArgumentsView { socket: None, limit: DEFAULT_LIMIT, positional: Seq::empty() },
        ) {
            Ok(arguments) => match request_of(arguments) {
                Ok(request) => Ok(
                    InvocationView::Send {
                        socket: arguments.socket,
                        request,
                        compact: words.contains("--json"@),
                    },
                ),
                Err(error) => Err(error),
            },
            Err(error) => Err(error),
        }
    }
}

/// Decides what to do for a command line, without the name of the program.
pub fn run(words: &Vec<String>) -> (result: Result<Invocation, String>)
    ensures
        outcome(result) == invocation_of(words.deep_view()),
{
    if has_text(words, "--help") || has_text(words, "-h") {
        return Ok(Invocation::Help);
    }
    let compact = has_text(words, "--json");
    let rest = drop_text(words, "--json");
    match read_arguments(&rest) {
        Ok(arguments) => match control_request(&arguments) {
            Ok(request) => Ok(Invocation::Send { socket: arguments.socket, request, compact }),
            Err(error) => Err(error),
        },
        Err(error) => Err(error),
    }
}

/// How the control program is used.
pub fn help_text() -> (result: &'static str)
    ensures
        result@
            == "cocoa-wayctl [--json] [--socket PATH] [--limit N] COMMAND [SESSION]\n\nCommands:\n  status\n  applications\n  sessions (compatibility alias)\n  running\n  displays\n  images\n  volumes\n  runtimes\n  tasks\n  environment\n  features\n  diagnostics [APPLICATION]\n  logs APPLICATION\n  check APPLICATION\n  launch APPLICATION\n  stop APPLICATION\n  display-create [NAME]\n  display-close NAME\n\nAPPLICATION is an exact profile name or the zero-based index shown by `applications`. Display names are normalized to stable lowercase slots."@,
{
    "cocoa-wayctl [--json] [--socket PATH] [--limit N] COMMAND [SESSION]\n\nCommands:\n  status\n  applications\n  sessions (compatibility alias)\n  running\n  displays\n  images\n  volumes\n  runtimes\n  tasks\n  environment\n  features\n  diagnostics [APPLICATION]\n  logs APPLICATION\n  check APPLICATION\n  launch APPLICATION\n  stop APPLICATION\n  display-create [NAME]\n  display-close NAME\n\nAPPLICATION is an exact profile name or the zero-based index shown by `applications`. Display names are normalized to stable lowercase slots."
}

/// The option that asks for a reply on one line can stand anywhere, but not in
/// the place of a path or a number: it never counts as a word.
pub proof fn law_json_is_no_word(words: Seq<Seq<char>>)
    ensures
        !without_text(words, "--json"@).contains("--json"@),
    decreases words.len(),
{
    if words.len() > 0 {
        law_json_is_no_word(words.drop_last());
        let before = without_text(words.drop_last(), "--json"@);
        let all = without_text(words, "--json"@);
        if all.contains("--json"@) {
            let i = choose|i: int| 0 <= i < all.len() && all[i] == "--json"@;
            if i < before.len() {
                assert(before[i] == "--json"@);
            }
        }
    }
}

} // verus!
