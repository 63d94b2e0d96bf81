//! How command lines are read, and what those hold that start the relay.
use vstd::prelude::*;

use crate::ctl::{
    invocation_of, read_words, request_of, ArgumentsView, InvocationView, RequestView,
};
use crate::guest_programs::{GUEST_PUBLISH_SOCKET_RELAY_PERL, GUEST_RELAY_PERL};
use crate::relay::{relay_arguments, relay_scan};
use crate::relay_launch::{
    audio_settings, bridge_notice, bridged_environment, container_settings, guest_audio,
    guest_transport, publish_relay_line, stdio_relay_line, transport_for, ProxyBridge,
    RelayContainer,
};
use crate::text::{
    decimal, flagged, has_pair, has_run, law_flags_precede_values, lemma_flagged_length, lowered,
    without_prefixed,
};
use crate::text_laws::{law_others_are_kept, law_split_at_first, law_written_number_is_parsed};

verus! {

// ---------------------------------------------------------------------------
// The control program
// ---------------------------------------------------------------------------
/// Whether none of some words is an option.
pub open spec fn are_plain(words: Seq<Seq<char>>) -> bool {
    forall|i: int| 0 <= i < words.len() ==> !"-"@.is_prefix_of(#[trigger] words[i])
}

proof fn lemma_options_start_with_dash(word: Seq<char>)
    requires
        !"-"@.is_prefix_of(word),
    ensures
        word != "--socket"@,
        word != "--limit"@,
        word != "--json"@,
        word != "--help"@,
        word != "-h"@,
{
    reveal_strlit("-");
    reveal_strlit("--socket");
    reveal_strlit("--limit");
    reveal_strlit("--json");
    reveal_strlit("--help");
    reveal_strlit("-h");
    assert("--socket"@.take(1) =~= "-"@);
    assert("--limit"@.take(1) =~= "-"@);
    assert("--json"@.take(1) =~= "-"@);
    assert("--help"@.take(1) =~= "-"@);
    assert("-h"@.take(1) =~= "-"@);
}

proof fn lemma_options_differ()
    ensures
        "--socket"@ != "--limit"@,
        "--socket"@ != "--json"@,
        "--limit"@ != "--json"@,
        "--socket"@ != "--help"@,
        "--limit"@ != "--help"@,
        "--socket"@ != "-h"@,
        "--limit"@ != "-h"@,
        "--json"@ != "--help"@,
        "--json"@ != "-h"@,
{
    reveal_strlit("--socket");
    reveal_strlit("--limit");
    reveal_strlit("--json");
    reveal_strlit("--help");
    reveal_strlit("-h");
    assert("--socket"@[2] == 's' && "--limit"@[2] == 'l' && "--json"@[2] == 'j' && "--help"@[2]
        == 'h' && "-h"@.len() == 2 && "--socket"@.len() == 8 && "--limit"@.len() == 7
        && "--json"@.len() == 6);
}

/// Words that are no options are kept in their order, whatever stands behind
/// them.
pub proof fn law_plain_words_are_kept(
    words: Seq<Seq<char>>,
    rest: Seq<Seq<char>>,
    so_far: ArgumentsView,
)
    requires
        are_plain(words),
    ensures
        read_words(words + rest, so_far) == read_words(
            rest,
            ArgumentsView { positional: so_far.positional + words, ..so_far },
        ),
    decreases words.len(),
{
    if words.len() == 0 {
        assert(words + rest == rest);
        assert(so_far.positional + words == so_far.positional);
    } else {
        let all = words + rest;
        assert(all[0] == words[0]);
        lemma_options_start_with_dash(words[0]);
        assert(all.skip(1) == words.skip(1) + rest);
        let next = ArgumentsView { positional: so_far.positional.push(words[0]), ..so_far };
        assert(are_plain(words.skip(1)));
        law_plain_words_are_kept(words.skip(1), rest, next);
        assert(next.positional + words.skip(1) == so_far.positional + words);
    }
}

/// An option is read wherever it stands among the words: a socket becomes the
/// socket, a number becomes the limit, and the words around it stay.
pub proof fn law_options_are_read(
    before: Seq<Seq<char>>,
    path: Seq<char>,
    limit: usize,
    after: Seq<Seq<char>>,
    so_far: ArgumentsView,
)
    requires
        are_plain(before),
        are_plain(after),
    ensures
        read_words(before + seq!["--socket"@, path] + after, so_far) == Ok::<
            ArgumentsView,
            Seq<char>,
        >(
            ArgumentsView {
                socket: Some(path),
                limit: so_far.limit,
                positional: so_far.positional + before + after,
            },
        ),
        read_words(before + seq!["--limit"@, decimal(limit as nat)] + after, so_far) == Ok::<
            ArgumentsView,
            Seq<char>,
        >(
            ArgumentsView {
                socket: so_far.socket,
                limit,
                positional: so_far.positional + before + after,
            },
        ),
{
    let none = Seq::<Seq<char>>::empty();
    let next = ArgumentsView { positional: so_far.positional + before, ..so_far };
    lemma_options_differ();
    let first = seq!["--socket"@, path] + after;
    assert(before + seq!["--socket"@, path] + after == before + first);
    law_plain_words_are_kept(before, first, so_far);
    assert(first.skip(2) == after);
    assert(after + none == after);
    let with_socket = ArgumentsView { socket: Some(path), ..next };
    law_plain_words_are_kept(after, none, with_socket);
    assert(read_words(first, next) == read_words(after, with_socket));
    let second = seq!["--limit"@, decimal(limit as nat)] + after;
    assert(before + seq!["--limit"@, decimal(limit as nat)] + after == before + second);
    law_plain_words_are_kept(before, second, so_far);
    assert(second.skip(2) == after);
    law_written_number_is_parsed(limit as nat, usize::MAX as nat);
    let with_limit = ArgumentsView { limit, ..next };
    law_plain_words_are_kept(after, none, with_limit);
    assert(read_words(second, next) == read_words(after, with_limit));
}

/// An option that is not known, or that lacks its value, is refused.
pub proof fn law_bad_options_are_refused(
    before: Seq<Seq<char>>,
    option: Seq<char>,
    after: Seq<Seq<char>>,
    so_far: ArgumentsView,
)
    requires
        are_plain(before),
        "-"@.is_prefix_of(option),
    ensures
        option != "--socket"@ && option != "--limit"@ ==> read_words(
            before + seq![option] + after,
            so_far,
        ) == Err::<ArgumentsView, Seq<char>>("unknown option: "@ + option),
        option == "--socket"@ || option == "--limit"@ ==> read_words(
            before + seq![option],
            so_far,
        ) is Err,
{
    let first = seq![option] + after;
    assert(before + seq![option] + after == before + first);
    law_plain_words_are_kept(before, first, so_far);
    law_plain_words_are_kept(before, seq![option], so_far);
    lemma_options_differ();
}

/// One word or two make a request: the command, and the session that it is
/// about. None is too few, and three are too many.
pub proof fn law_words_make_a_request(words: Seq<Seq<char>>, arguments: ArgumentsView)
    ensures
        arguments.positional.len() == 1 ==> request_of(arguments) == Ok::<RequestView, Seq<char>>(
            RequestView {
                command: arguments.positional[0],
                session: None,
                limit: arguments.limit,
            },
        ),
        arguments.positional.len() == 2 ==> request_of(arguments) == Ok::<RequestView, Seq<char>>(
            RequestView {
                command: arguments.positional[0],
                session: Some(arguments.positional[1]),
                limit: arguments.limit,
            },
        ),
        arguments.positional.len() == 0 || arguments.positional.len() > 2 ==> request_of(arguments)
            is Err,
{
}

/// A call for help is answered, whatever else is asked.
pub proof fn law_help_is_given(words: Seq<Seq<char>>)
    ensures
        words.contains("--help"@) || words.contains("-h"@) ==> invocation_of(words) == Ok::<
            InvocationView,
            Seq<char>,
        >(InvocationView::Help),
{
}

/// Plain words are sent as a request for at most a hundred entries, to the usual
/// socket and for a reader; with `--json` before or behind them they are sent
/// the same way for a program.
pub proof fn law_request_is_sent(words: Seq<Seq<char>>)
    requires
        are_plain(words),
        words.len() == 1 || words.len() == 2,
    ensures
        ({
            let request = RequestView {
                command: words[0],
                session: if words.len() == 2 {
                    Some(words[1])
                } else {
                    None
                },
                limit: 100,
            };
            &&& invocation_of(words) == Ok::<InvocationView, Seq<char>>(
                InvocationView::Send { socket: None, request, compact: false },
            )
            &&& invocation_of(words + seq!["--json"@]) == Ok::<InvocationView, Seq<char>>(
                InvocationView::Send { socket: None, request, compact: true },
            )
            &&& invocation_of(seq!["--json"@] + words) == Ok::<InvocationView, Seq<char>>(
                InvocationView::Send { socket: None, request, compact: true },
            )
        }),
{
    let none = Seq::<Seq<char>>::empty();
    let json = seq!["--json"@];
    lemma_options_differ();
    assert forall|i: int| 0 <= i < words.len() implies #[trigger] words[i] != "--json"@ && words[i]
        != "--help"@ && words[i] != "-h"@ by {
        lemma_options_start_with_dash(words[i]);
    }
    law_others_are_kept(words, json, "--json"@);
    law_others_are_kept(json, words, "--json"@);
    assert(words + none == words);
    assert(none + words == words);
    let start = ArgumentsView { socket: None, limit: 100, positional: none };
    law_plain_words_are_kept(words, none, start);
    assert((words + json)[words.len() as int] == "--json"@);
    assert((json + words)[0] == "--json"@);
    assert forall|i: int| 0 <= i < (words + json).len() implies #[trigger] (words + json)[i]
        != "--help"@ && (words + json)[i] != "-h"@ by {
        if i < words.len() {
            assert((words + json)[i] == words[i]);
        }
    }
    assert forall|i: int| 0 <= i < (json + words).len() implies #[trigger] (json + words)[i]
        != "--help"@ && (json + words)[i] != "-h"@ by {
        if i > 0 {
            assert((json + words)[i] == words[i - 1]);
        }
    }
}

// ---------------------------------------------------------------------------
// The relay's own arguments
// ---------------------------------------------------------------------------
/// Whether none of some words means anything to the relay.
pub open spec fn are_passed_over(words: Seq<Seq<char>>) -> bool {
    forall|i: int| 0 <= i < words.len() ==> #[trigger] words[i] != "-R"@ && words[i] != "--"@
}

proof fn lemma_passed_over(
    words: Seq<Seq<char>>,
    rest: Seq<Seq<char>>,
    sockets: Option<(Seq<char>, Seq<char>)>,
)
    requires
        are_passed_over(words),
    ensures
        relay_scan(words + rest, sockets) == relay_scan(rest, sockets),
    decreases words.len(),
{
    if words.len() == 0 {
        assert(words + rest == rest);
    } else {
        assert((words + rest)[0] == words[0]);
        assert((words + rest).skip(1) == words.skip(1) + rest);
        lemma_passed_over(words.skip(1), rest, sockets);
    }
}

/// The relay is told two sockets behind `-R` and a command behind `--`, and
/// passes over whatever else stands before the command.
pub proof fn law_relay_arguments_are_read(
    before: Seq<Seq<char>>,
    remote: Seq<char>,
    local: Seq<char>,
    between: Seq<Seq<char>>,
    command: Seq<Seq<char>>,
)
    requires
        are_passed_over(before),
        are_passed_over(between),
        !remote.contains(':'),
        command.len() > 0,
    ensures
        relay_arguments(
            before + seq!["-R"@, remote.push(':') + local] + between + seq!["--"@] + command,
        ) == Ok::<(Seq<char>, Seq<char>, Seq<Seq<char>>), Seq<char>>((remote, local, command)),
{
    reveal_strlit("-R");
    reveal_strlit("--");
    assert("-R"@[1] != "--"@[1]);
    let mapping = remote.push(':') + local;
    let end = seq!["--"@] + command;
    let middle = between + end;
    let rest = seq!["-R"@, mapping] + middle;
    let all = before + seq!["-R"@, mapping] + between + seq!["--"@] + command;
    assert(all == before + rest);
    lemma_passed_over(before, rest, None);
    law_split_at_first(remote, ':', local);
    assert(rest.skip(2) == middle);
    lemma_passed_over(between, end, Some((remote, local)));
    assert(end.skip(1) == command);
}

/// Without the sockets, without a command, or with sockets that are no pair the
/// relay is not started.
pub proof fn law_bad_relay_arguments_are_refused(
    before: Seq<Seq<char>>,
    mapping: Seq<char>,
    rest: Seq<Seq<char>>,
)
    requires
        are_passed_over(before),
        !mapping.contains(':'),
    ensures
        relay_arguments(before) == Err::<(Seq<char>, Seq<char>, Seq<Seq<char>>), Seq<char>>(
            "missing ssh -R remote socket"@,
        ),
        relay_arguments(before + seq!["-R"@, mapping] + rest) == Err::<
            (Seq<char>, Seq<char>, Seq<Seq<char>>),
            Seq<char>,
        >("invalid -R socket mapping `"@ + mapping + "`"@),
        relay_arguments(before + seq!["--"@] + rest) == Err::<
            (Seq<char>, Seq<char>, Seq<Seq<char>>),
            Seq<char>,
        >("missing ssh -R remote socket"@),
{
    reveal_strlit("-R");
    reveal_strlit("--");
    assert("-R"@[1] != "--"@[1]);
    assert(before + Seq::empty() == before);
    lemma_passed_over(before, Seq::empty(), None);
    let bad = seq!["-R"@, mapping] + rest;
    assert(before + seq!["-R"@, mapping] + rest == before + bad);
    lemma_passed_over(before, bad, None);
    law_split_at_first(mapping, ':', Seq::empty());
    let end = seq!["--"@] + rest;
    assert(before + seq!["--"@] + rest == before + end);
    lemma_passed_over(before, end, None);
}

// ---------------------------------------------------------------------------
// Starting the relay's container
// ---------------------------------------------------------------------------
/// The standard streams carry the relay just where that is asked for; else a
/// published socket does, where the runtime can publish one.
pub proof fn law_transport_is_picked(preference: Option<Seq<char>>, supported: bool)
    ensures
        transport_for(preference, supported) is Stdio <==> (preference matches Some(wanted)
            && lowered(wanted) == "stdio"@),
        transport_for(preference, supported) is Published ==> supported,
        supported && preference is None ==> transport_for(preference, supported) is Published,
        !supported && preference is None ==> transport_for(preference, supported) is Fallback,
{
    reveal_strlit("stdio");
    reveal_strlit("auto");
    assert("stdio"@.len() != "auto"@.len());
}

/// The relay's container gets every variable of the session but its runtime
/// directory, every mount and every argument.
pub proof fn law_relay_container_gets_the_settings(container: &RelayContainer, i: int)
    ensures
        ({
            let env = without_prefixed(container.environment.deep_view(), "XDG_RUNTIME_DIR="@);
            &&& 0 <= i < env.len() ==> has_pair(container_settings(container), "--env"@, env[i])
            &&& 0 <= i < container.mounts.deep_view().len() ==> has_pair(
                container_settings(container),
                "--mount"@,
                container.mounts.deep_view()[i],
            )
            &&& container.runtime_args.deep_view().is_suffix_of(container_settings(container))
        }),
{
    let settings = container_settings(container);
    let kept = without_prefixed(container.environment.deep_view(), "XDG_RUNTIME_DIR="@);
    let env = flagged("--env"@, kept);
    let mounts = flagged("--mount"@, container.mounts.deep_view());
    lemma_flagged_length("--env"@, kept);
    lemma_flagged_length("--mount"@, container.mounts.deep_view());
    if 0 <= i < kept.len() {
        law_flags_precede_values("--env"@, kept, i);
        assert(settings[2 * i] == env[2 * i]);
        assert(settings[2 * i + 1] == env[2 * i + 1]);
    }
    if 0 <= i < container.mounts.deep_view().len() {
        law_flags_precede_values("--mount"@, container.mounts.deep_view(), i);
        assert(settings[env.len() + 2 * i] == mounts[2 * i]);
        assert(settings[env.len() + 2 * i + 1] == mounts[2 * i + 1]);
    }
    let arguments = container.runtime_args.deep_view();
    assert(settings.skip(settings.len() - arguments.len()) == arguments);
}

/// A relay over a published socket publishes the host's socket, runs the guest's
/// program in the image on the session's socket, and ends with the command. The
/// sound's socket is published just where there is one.
pub proof fn law_published_relay_is_started(
    container: &RelayContainer,
    host: Seq<char>,
    audio: Option<Seq<char>>,
    pid: u32,
    socket: Seq<char>,
    command: Seq<Seq<char>>,
)
    ensures
        ({
            let line = publish_relay_line(container, host, audio, pid, socket, command);
            let n = line.len() - command.len();
            &&& line[0] == "run"@
            &&& line[1] == "--rm"@
            &&& line[2] == "--name"@
            &&& line[3] == container.name@
            &&& line[4] == "--publish-socket"@
            &&& line[5] == host + ":"@ + guest_transport(pid)
            &&& command.is_suffix_of(line)
            &&& line[n - 6] == container.image@
            &&& line[n - 5] == "perl"@
            &&& line[n - 4] == "-e"@
            &&& line[n - 3] == GUEST_PUBLISH_SOCKET_RELAY_PERL@
            &&& line[n - 2] == socket
            &&& line[n - 1] == guest_transport(pid)
            &&& has_run(line, container_settings(container))
            &&& audio is Some ==> has_pair(
                line,
                "--publish-socket"@,
                audio->0 + ":"@ + guest_audio(pid),
            ) && has_pair(line, "--env"@, "COCOA_WAY_AUDIO_SOCKET="@ + guest_audio(pid))
            &&& line.len() == 14 + command.len() + container_settings(container).len() + (
            if audio is Some {
                4int
            } else {
                0
            })
        }),
{
    let line = publish_relay_line(container, host, audio, pid, socket, command);
    let settings = container_settings(container);
    let sound = audio_settings(audio, pid);
    let at: int = 8int + sound.len();
    assert(line.subrange(at, at + settings.len()) == settings);
    assert(line.skip(line.len() - command.len()) == command);
    if audio is Some {
        assert(line[8] == "--publish-socket"@);
        assert(line[8int + 1] == audio->0 + ":"@ + guest_audio(pid));
        assert(line[10] == "--env"@);
        assert(line[10int + 1] == "COCOA_WAY_AUDIO_SOCKET="@ + guest_audio(pid));
    }
}

/// A relay over the standard streams keeps them open, runs the guest's program
/// in the image on the session's socket, and ends with the command.
pub proof fn law_stdio_relay_is_started(
    container: &RelayContainer,
    socket: Seq<char>,
    command: Seq<Seq<char>>,
)
    ensures
        ({
            let line = stdio_relay_line(container, socket, command);
            let n = line.len() - command.len();
            &&& line[0] == "run"@
            &&& line[1] == "--rm"@
            &&& line[2] == "-i"@
            &&& line[3] == "--name"@
            &&& line[4] == container.name@
            &&& command.is_suffix_of(line)
            &&& line[n - 5] == container.image@
            &&& line[n - 4] == "perl"@
            &&& line[n - 3] == "-e"@
            &&& line[n - 2] == GUEST_RELAY_PERL@
            &&& line[n - 1] == socket
            &&& has_run(line, container_settings(container))
            &&& line.len() == 12 + command.len() + container_settings(container).len()
        }),
{
    let line = stdio_relay_line(container, socket, command);
    let settings = container_settings(container);
    assert(line.subrange(7, 7int + settings.len()) == settings);
    assert(line.skip(line.len() - command.len()) == command);
}

/// The variables of a proxy bridge are added behind the session's own, which all
/// stay, and only where the session names no proxy. The user is told of a bridge
/// that is used and of one that failed.
pub proof fn law_bridge_adds_its_variables(
    environment: Seq<Seq<char>>,
    names_proxy: bool,
    bridge: ProxyBridge,
)
    ensures
        environment.is_prefix_of(bridged_environment(environment, names_proxy, bridge)),
        names_proxy ==> bridged_environment(environment, names_proxy, bridge) == environment
            && bridge_notice(names_proxy, bridge) is None,
        !names_proxy ==> (bridge matches ProxyBridge::Started(variables) ==> bridged_environment(
            environment,
            names_proxy,
            bridge,
        ).skip(environment.len() as int) == variables.deep_view()),
        !names_proxy ==> (bridge_notice(names_proxy, bridge) is None <==> bridge is Absent),
{
    let all = bridged_environment(environment, names_proxy, bridge);
    assert(all.take(environment.len() as int) == environment);
    if bridge is Started && !names_proxy {
        assert(all.skip(environment.len() as int) == bridge->Started_0.deep_view());
    }
}

} // verus!
