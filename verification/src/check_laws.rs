//! What a check of a session promises, and what is read of the answers of the
//! runtimes.
use vstd::prelude::*;

use crate::application_model::LaunchStep;
use crate::container_sessions::{
    binary_of, command_binary_of, command_of, container_name_of, display_of, display_problem,
    label_of, launch_error_text, presentation_problem, program_of, remote_gui_command, runtime_of,
    slug_of, terminal_command_of, unquoted_end, unquoted_start, ContainerRuntime, LaunchErrorView,
    SessionView,
};
use crate::launch_laws::law_settings_are_whole;
use crate::presentation::{presentation_of, PresentationMode};
use crate::runtime_paths::quoted;
use crate::session_launch::{
    any_running_status, check_of, cleanup_line, cleanup_warning_text, is_running_row, lists_running,
    probe_line, probes_for, progress_of, running_answer, says_not_found, session_settings,
    CheckFacts, CheckQuestion, CheckStepView, CleanupReply, LaunchStateView,
};
use crate::text::{
    has_pair, has_run, is_control, is_space, joined, lemma_occurs, lines_of, lossy_text, occurs,
    trimmed, words_of,
};
use crate::text_laws::{law_word_is_whole, law_words_are_apart};

verus! {

// ---------------------------------------------------------------------------
// Checking
// ---------------------------------------------------------------------------
/// Whether a display has a control character in its name.
pub open spec fn has_control(text: Seq<char>) -> bool {
    exists|i: int|
        0 <= i < text.len() && ((#[trigger] text[i]) as int <= 0x1f || 0x7f <= text[i] as int
            <= 0x9f)
}

/// Whether everything that a session needs was found.
pub open spec fn is_ready(session: SessionView, facts: CheckFacts) -> bool {
    let runtime = runtime_of(session.runtime);
    &&& facts.waypipe matches Some(Some(_))
    &&& facts.runtime_binary matches Some(Some(_))
    &&& !has_control(display_of(session))
    &&& presentation_problem(session) is None
    &&& runtime == ContainerRuntime::Apple ==> (facts.system_status matches Some(Ok(output))
        && output.success && exists|i: int|
        0 <= i < lines_of(lossy_text(output.stdout@)).len() && ({
            let words = words_of(#[trigger] lines_of(lossy_text(output.stdout@))[i]);
            words.len() >= 2 && words[0] == "status"@ && words[1] == "running"@
        }))
    &&& runtime != ContainerRuntime::OrbStack ==> (facts.image matches Some(Ok(true))) && (
    facts.gui_tools matches Some(Ok(true))) && facts.running is Some
}

/// A check succeeds just where everything that the session needs was found, and
/// then tells of the session and of what was found.
#[verifier::rlimit(40)]
pub proof fn law_check_succeeds_when_ready(session: SessionView, facts: CheckFacts)
    ensures
        check_of(session, facts) is Done <==> is_ready(session, facts),
        match check_of(session, facts) {
            CheckStepView::Done {
                runtime,
                image,
                command,
                waypipe,
                runtime_binary,
                container_name,
                running,
            } => {
                &&& image == session.image
                &&& command == command_of(session)
                &&& facts.waypipe matches Some(Some(path)) && path@ == waypipe
                &&& facts.runtime_binary matches Some(Some(path)) && path@ == runtime_binary
                &&& container_name == "cocoa-way-"@ + slug_of(session.name, "container"@)
                &&& running <==> runtime_of(session.runtime) != ContainerRuntime::OrbStack
                    && facts.running == Some(true)
            },
            _ => true,
        },
{
    law_control_is_refused(session);
}

/// A display whose name has a control character is refused, and no other.
pub proof fn law_control_is_refused(session: SessionView)
    ensures
        display_problem(session) is Some <==> has_control(display_of(session)),
        display_problem(session) matches Some(problem) ==> problem
            is UnsupportedDisplay,
{
    let name = display_of(session);
    if display_problem(session) is Some {
        let i = choose|i: int| 0 <= i < name.len() && is_control(#[trigger] name[i]);
        assert(is_control(name[i]));
        assert(name[i] as int <= 0x1f || 0x7f <= name[i] as int <= 0x9f);
    }
    if has_control(name) {
        let i = choose|i: int|
            0 <= i < name.len() && ((#[trigger] name[i]) as int <= 0x1f || 0x7f <= name[i] as int
                <= 0x9f);
        assert(is_control(name[i]));
    }
}

/// A check asks for nothing that it has been told, and for nothing of the image
/// before the programs were found.
#[verifier::rlimit(40)]
pub proof fn law_check_asks_what_is_missing(session: SessionView, facts: CheckFacts)
    ensures
        check_of(session, facts) matches CheckStepView::Ask(question) ==> match question {
            CheckQuestion::Waypipe => facts.waypipe is None,
            CheckQuestion::RuntimeBinary => facts.runtime_binary is None && facts.waypipe is Some,
            CheckQuestion::SystemStatus => facts.system_status is None && runtime_of(
                session.runtime,
            ) == ContainerRuntime::Apple && facts.runtime_binary is Some,
            CheckQuestion::Image => facts.image is None && facts.runtime_binary is Some,
            CheckQuestion::GuiTools => facts.gui_tools is None && (facts.image matches Some(
                Ok(true),
            )),
            CheckQuestion::Running => facts.running is None && runtime_of(session.runtime)
                != ContainerRuntime::OrbStack,
        },
{
}

/// A check fails with what was found wanting: a program, the display, Apple's
/// system, the image, or the tools in it.
#[verifier::rlimit(40)]
pub proof fn law_check_failure_names_its_cause(session: SessionView, facts: CheckFacts)
    requires
        check_of(session, facts) is Failed,
    ensures
        match check_of(session, facts)->Failed_0 {
            LaunchErrorView::MissingCommand { command, .. } => (command == "waypipe"@ && (
            facts.waypipe matches Some(None))) || (command == binary_of(
                runtime_of(session.runtime),
            ) && (facts.runtime_binary matches Some(None))),
            LaunchErrorView::UnsupportedDisplay { .. } => has_control(display_of(session))
                || presentation_of(session.presentation) != PresentationMode::Desktop,
            LaunchErrorView::RuntimeNotReady { .. } => facts.system_status matches Some(Ok(output))
                && !(output.success && any_running_status(lossy_text(output.stdout@))),
            LaunchErrorView::ImageUnavailable { image, .. } => image == session.image && (
            facts.image matches Some(Ok(false))),
            LaunchErrorView::ImageNotGuiReady { image, .. } => image == session.image && (
            facts.gui_tools matches Some(Ok(false))),
            LaunchErrorView::StartContainer { source, .. } => (facts.system_status matches Some(
                Err(problem),
            ) && problem@ == source) || (facts.image matches Some(Err(problem)) && problem@
                == source) || (facts.gui_tools matches Some(Err(problem)) && problem@ == source),
            _ => false,
        },
{
    law_control_is_refused(session);
}

/// Rootless, an application of X11 and a compositor are refused; on a desktop
/// nothing is.
pub proof fn law_rootless_needs_a_wayland_application(session: SessionView, binary: Seq<char>)
    requires
        command_binary_of(command_of(session)) == Some(binary),
    ensures
        presentation_problem(session) is Some <==> presentation_of(session.presentation)
            != PresentationMode::Desktop && (program_of(binary) == "xterm"@ || program_of(binary)
            == "niri"@ || program_of(binary) == "hyprland"@),
{
}

// ---------------------------------------------------------------------------
// Tests in an image
// ---------------------------------------------------------------------------
/// An image is tested for waypipe, for what Apple's relay needs, and for the
/// program of the session's command.
pub proof fn law_image_is_tested_for_its_programs(session: SessionView, runtime: ContainerRuntime)
    ensures
        probes_for(session, runtime).contains("command -v waypipe >/dev/null"@),
        runtime == ContainerRuntime::Apple ==> probes_for(session, runtime).contains(
            "command -v perl >/dev/null"@,
        ),
        command_binary_of(command_of(session)) matches Some(binary) ==> probes_for(
            session,
            runtime,
        ).contains("command -v "@ + quoted(binary) + " >/dev/null"@),
{
    let probes = probes_for(session, runtime);
    assert(probes[0] == "command -v waypipe >/dev/null"@);
    if runtime == ContainerRuntime::Apple {
        assert(probes[1] == "command -v perl >/dev/null"@);
    }
    if command_binary_of(command_of(session)) is Some {
        assert(probes[probes.len() - 1] == "command -v "@ + quoted(
            command_binary_of(command_of(session))->0,
        ) + " >/dev/null"@);
    }
}

/// The tests are run in the session's image, with the session's settings, in a
/// container that is gone afterwards, and one fails where any does.
pub proof fn law_tests_run_in_the_image(session: SessionView, probes: Seq<Seq<char>>, i: int)
    ensures
        ({
            let line = probe_line(session, probes);
            let n = line.len();
            &&& n >= 6
            &&& line[0] == "run"@
            &&& line[1] == "--rm"@
            &&& line[n - 4] == session.image
            &&& line[n - 3] == "sh"@
            &&& line[n - 2] == "-lc"@
            &&& line[n - 1] == joined(probes, " && "@)
            &&& 0 <= i < session.env.len() ==> has_pair(line, "--env"@, session.env[i])
            &&& 0 <= i < session.mounts.len() ==> has_pair(line, "--mount"@, session.mounts[i])
            &&& has_run(line, session.runtime_args)
        }),
{
    let line = probe_line(session, probes);
    let settings = session_settings(session);
    law_settings_are_whole(session, i);
    assert(forall|k: int| 0 <= k < settings.len() ==> line[2 + k] == #[trigger] settings[k]);
    if 0 <= i < session.env.len() {
        let k = choose|k: int|
            0 <= k < settings.len() - 1 && #[trigger] settings[k] == "--env"@ && settings[k + 1]
                == session.env[i];
        assert(line[2 + k] == settings[k]);
        assert(line[2 + k + 1] == settings[k + 1]);
    }
    if 0 <= i < session.mounts.len() {
        let k = choose|k: int|
            0 <= k < settings.len() - 1 && #[trigger] settings[k] == "--mount"@ && settings[k + 1]
                == session.mounts[i];
        assert(line[2 + k] == settings[k]);
        assert(line[2 + k + 1] == settings[k + 1]);
    }
    let count = session.runtime_args.len() as int;
    let at = 2 + settings.len() - count;
    assert(settings.skip(settings.len() - count) == session.runtime_args);
    assert(line.subrange(at, at + count) == session.runtime_args) by {
        assert forall|k: int| 0 <= k < count implies #[trigger] line.subrange(at, at + count)[k]
            == session.runtime_args[k] by {
            assert(line[at + k] == settings[at + k - 2]);
        }
    }
}

/// The program of a command is its first word, unless that is a variable or a
/// shell, of which the program cannot be told.
pub proof fn law_program_is_the_first_word(word: Seq<char>, rest: Seq<char>)
    requires
        word.len() > 0,
        forall|i: int| 0 <= i < word.len() ==> !is_space(#[trigger] word[i]),
        word[0] != '"' && word[0] != '\'' && word.last() != '"' && word.last() != '\'',
    ensures
        command_binary_of(word.push(' ') + rest) == command_binary_of(word),
        command_binary_of(word) is None <==> word.contains('=') || word == "exec"@ || word
            == "env"@ || word == "sh"@ || word == "bash"@,
        command_binary_of(word) matches Some(binary) ==> binary == word,
{
    law_words_are_apart(word, ' ', rest);
    law_word_is_whole(word);
    assert(words_of(word.push(' ') + rest)[0] == word);
    assert(unquoted_start(word) == word);
    assert(unquoted_end(word) == word);
}

// ---------------------------------------------------------------------------
// What runtimes answer
// ---------------------------------------------------------------------------
/// A container runs where its runtime says so: Apple's in a row that starts with
/// its name and says so behind that, Docker's by the word true on a line. A
/// command that failed says nothing, and OrbStack is not asked.
pub proof fn law_running_is_read(success: bool, stdout: Seq<u8>, name: Seq<char>)
    ensures
        running_answer(ContainerRuntime::Apple, success, stdout, name) <==> success && exists|
            i: int,
            k: int,
        |
            0 <= i < lines_of(lossy_text(stdout)).len() && 1 <= k < words_of(
                #[trigger] lines_of(lossy_text(stdout))[i],
            ).len() && words_of(lines_of(lossy_text(stdout))[i])[0] == name
                && #[trigger] words_of(lines_of(lossy_text(stdout))[i])[k] == "running"@,
        running_answer(ContainerRuntime::Docker, success, stdout, name) <==> success && exists|
            i: int,
        |
            0 <= i < lines_of(lossy_text(stdout)).len() && trimmed(
                #[trigger] lines_of(lossy_text(stdout))[i],
            ) == "true"@,
        !running_answer(ContainerRuntime::OrbStack, success, stdout, name),
{
    let text = lossy_text(stdout);
    let all = lines_of(text);
    if lists_running(text, name) {
        let i = choose|i: int|
            0 <= i < lines_of(text).len() && is_running_row(#[trigger] lines_of(text)[i], name);
        let words = words_of(all[i]);
        let k = choose|k: int| 0 <= k < words.skip(1).len() && words.skip(1)[k] == "running"@;
        assert(words[k + 1] == "running"@);
        assert(words_of(lines_of(lossy_text(stdout))[i])[k + 1] == "running"@);
    }
    if exists|i: int, k: int|
        0 <= i < all.len() && 1 <= k < words_of(#[trigger] all[i]).len() && words_of(all[i])[0]
            == name && #[trigger] words_of(all[i])[k] == "running"@ {
        let (i, k) = choose|i: int, k: int|
            0 <= i < all.len() && 1 <= k < words_of(#[trigger] all[i]).len() && words_of(all[i])[0]
                == name && #[trigger] words_of(all[i])[k] == "running"@;
        let words = words_of(all[i]);
        assert(words.skip(1)[k - 1] == "running"@);
        assert(words.skip(1).contains("running"@));
        assert(is_running_row(lines_of(text)[i], name));
    }
}

/// What is left of a container is removed by its name and by force.
pub proof fn law_leftovers_are_removed_by_name(runtime: ContainerRuntime, name: Seq<char>)
    ensures
        cleanup_line(runtime, name) is None <==> runtime == ContainerRuntime::OrbStack,
        cleanup_line(runtime, name) matches Some(line) ==> line.len() == 3 && line[2] == name && (
        line[1] == "--force"@ || line[1] == "-f"@) && (line[0] == "delete"@ || line[0] == "rm"@),
        runtime == ContainerRuntime::Apple ==> (cleanup_line(runtime, name)->0)[0] == "delete"@,
        runtime == ContainerRuntime::Docker ==> (cleanup_line(runtime, name)->0)[0] == "rm"@,
{
}

/// Removing what is left of a container is warned of unless it went well or
/// there was nothing to remove; the warning names the container.
pub proof fn law_failed_removal_is_warned_of(name: Seq<char>, reply: CleanupReply)
    ensures
        cleanup_warning_text(name, reply) is None <==> (reply matches CleanupReply::Output(output)
            && (output.success || says_not_found(lossy_text(output.stderr@)) || says_not_found(
            lossy_text(output.stdout@),
        ))),
        cleanup_warning_text(name, reply) matches Some(text) ==> occurs(text, "'"@ + name + "'"@),
        reply matches CleanupReply::Failed(error) ==> error@.is_suffix_of(
            cleanup_warning_text(name, reply)->0,
        ),
{
    if cleanup_warning_text(name, reply) is Some {
        let text = cleanup_warning_text(name, reply)->0;
        reveal_strlit("Failed to cleanup stale container '");
        reveal_strlit("Failed to cleanup stale container ");
        reveal_strlit("Timed out cleaning up stale container '");
        reveal_strlit("Timed out cleaning up stale container ");
        reveal_strlit("'");
        reveal_strlit("': ");
        reveal_strlit(": ");
        reveal_strlit("'; runtime may still be wedged");
        reveal_strlit("; runtime may still be wedged");
        assert("Failed to cleanup stale container '"@ =~= "Failed to cleanup stale container "@
            + "'"@);
        assert("Timed out cleaning up stale container '"@
            =~= "Timed out cleaning up stale container "@ + "'"@);
        assert("': "@ =~= "'"@ + ": "@);
        assert("'; runtime may still be wedged"@ =~= "'"@ + "; runtime may still be wedged"@);
        let middle = "'"@ + name + "'"@;
        if reply is TimedOut {
            assert(text =~= "Timed out cleaning up stale container "@ + middle
                + "; runtime may still be wedged"@);
            lemma_occurs(
                "Timed out cleaning up stale container "@,
                middle,
                "; runtime may still be wedged"@,
            );
        } else {
            let head = "Failed to cleanup stale container '"@ + name + "': "@;
            let rest = text.skip(head.len() as int);
            assert(text =~= head + rest);
            assert(text =~= "Failed to cleanup stale container "@ + middle + (": "@ + rest));
            lemma_occurs("Failed to cleanup stale container "@, middle, ": "@ + rest);
            if reply is Failed {
                assert(text.skip(text.len() - reply->Failed_0@.len()) =~= reply->Failed_0@);
            }
        }
    }
}

// ---------------------------------------------------------------------------
// Runtimes, terminals and words for the user
// ---------------------------------------------------------------------------
/// A runtime is found again under the name of its command, and the three have
/// different commands and different names.
pub proof fn law_runtimes_are_told_apart(a: ContainerRuntime, b: ContainerRuntime)
    ensures
        runtime_of(binary_of(a)) == a,
        a != b ==> binary_of(a) != binary_of(b) && label_of(a) != label_of(b),
        runtime_of("orbstack"@) == ContainerRuntime::OrbStack,
{
    reveal_strlit("docker");
    reveal_strlit("orb");
    reveal_strlit("orbstack");
    reveal_strlit("container");
    reveal_strlit("Docker");
    reveal_strlit("OrbStack");
    reveal_strlit("Apple Container");
    assert("docker"@.len() == 6 && "orb"@.len() == 3 && "container"@.len() == 9
        && "orbstack"@.len() == 8 && "Docker"@.len() == 6 && "OrbStack"@.len() == 8
        && "Apple Container"@.len() == 15);
}

/// The command for a terminal enters the container of the session.
pub proof fn law_terminal_enters_the_container(session: SessionView)
    ensures
        occurs(
            terminal_command_of(session),
            " exec -it "@ + quoted("cocoa-way-"@ + slug_of(session.name, "container"@)),
        ),
        binary_of(runtime_of(session.runtime)).is_prefix_of(terminal_command_of(session)),
{
    let name = quoted(container_name_of(session.name));
    let binary = binary_of(runtime_of(session.runtime));
    let last = " sh -lc "@ + quoted("exec ${SHELL:-/bin/sh}"@);
    assert(terminal_command_of(session) =~= binary + (" exec -it "@ + name) + last);
    lemma_occurs(binary, " exec -it "@ + name, last);
    assert(terminal_command_of(session).take(binary.len() as int) =~= binary);
}

/// The command for an Apple container ends by running the application; one that
/// runs a compositor is handed to the clipboard relay, where that can be had.
pub proof fn law_remote_command_runs_the_application(command: Seq<char>, relay: Seq<char>)
    ensures
        ("exec "@ + command).is_suffix_of(remote_gui_command(command, false, relay)),
        occurs(remote_gui_command(command, true, relay), " sh -lc "@ + quoted(command)),
        occurs(remote_gui_command(command, true, relay), quoted(relay)),
        occurs(remote_gui_command(command, true, relay), "exec "@ + command + "; fi"@),
{
    let plain = remote_gui_command(command, false, relay);
    let run = "exec "@ + command;
    assert(plain.skip(plain.len() - run.len()) =~= run);
    let bridged = remote_gui_command(command, true, relay);
    let first = bridged.take(
        bridged.len() - (quoted(relay)
            + " > \"$helper\" && chmod 700 \"$helper\" && exec \"$helper\" sh -lc "@ + quoted(
            command,
        )
            + "; exit 1; else printf '%s\\n' 'cocoa-way: nested clipboard needs wl-clipboard and coreutils timeout' >&2; exec "@
            + command + "; fi"@).len(),
    );
    let second = " > \"$helper\" && chmod 700 \"$helper\" && exec \"$helper\" sh -lc "@;
    let third =
        "; exit 1; else printf '%s\\n' 'cocoa-way: nested clipboard needs wl-clipboard and coreutils timeout' >&2; exec "@;
    let tail = third + command + "; fi"@;
    assert(bridged =~= first + quoted(relay) + (second + quoted(command) + tail));
    lemma_occurs(first, quoted(relay), second + quoted(command) + tail);
    reveal_strlit(" > \"$helper\" && chmod 700 \"$helper\" && exec \"$helper\" sh -lc ");
    reveal_strlit(" > \"$helper\" && chmod 700 \"$helper\" && exec \"$helper\"");
    reveal_strlit(" sh -lc ");
    assert(second =~= " > \"$helper\" && chmod 700 \"$helper\" && exec \"$helper\""@ + " sh -lc "@);
    let helper = " > \"$helper\" && chmod 700 \"$helper\" && exec \"$helper\""@;
    assert(bridged =~= (first + quoted(relay) + helper) + (" sh -lc "@ + quoted(command)) + tail);
    lemma_occurs(first + quoted(relay) + helper, " sh -lc "@ + quoted(command), tail);
    reveal_strlit(
        "; exit 1; else printf '%s\\n' 'cocoa-way: nested clipboard needs wl-clipboard and coreutils timeout' >&2; exec ",
    );
    reveal_strlit(
        "; exit 1; else printf '%s\\n' 'cocoa-way: nested clipboard needs wl-clipboard and coreutils timeout' >&2; ",
    );
    reveal_strlit("exec ");
    let warn =
        "; exit 1; else printf '%s\\n' 'cocoa-way: nested clipboard needs wl-clipboard and coreutils timeout' >&2; "@;
    assert(third =~= warn + "exec "@);
    let before = first + quoted(relay) + second + quoted(command) + warn;
    assert(bridged =~= before + ("exec "@ + command + "; fi"@) + Seq::empty());
    lemma_occurs(before, "exec "@ + command + "; fi"@, Seq::empty());
}

/// The words for an error hold what the error is about.
pub proof fn law_error_text_tells_the_error(error: LaunchErrorView)
    ensures
        match error {
            LaunchErrorView::MissingCommand { command, hint } => occurs(
                launch_error_text(error),
                command,
            ) && hint.is_suffix_of(launch_error_text(error)),
            LaunchErrorView::InvalidSocketPath { host_socket } => occurs(
                launch_error_text(error),
                host_socket,
            ),
            LaunchErrorView::CreateSocketDir { dir, source } => occurs(
                launch_error_text(error),
                dir,
            ) && source.is_suffix_of(launch_error_text(error)),
            LaunchErrorView::StartContainer { session, source } => occurs(
                launch_error_text(error),
                session,
            ) && source.is_suffix_of(launch_error_text(error)),
            LaunchErrorView::RuntimeNotReady { runtime, hint } => runtime.is_prefix_of(
                launch_error_text(error),
            ) && hint.is_suffix_of(launch_error_text(error)),
            LaunchErrorView::ImageUnavailable { runtime, image, hint } => runtime.is_prefix_of(
                launch_error_text(error),
            ) && occurs(launch_error_text(error), image) && hint.is_suffix_of(
                launch_error_text(error),
            ),
            LaunchErrorView::ImageNotGuiReady { runtime, image, hint } => runtime.is_prefix_of(
                launch_error_text(error),
            ) && occurs(launch_error_text(error), image) && hint.is_suffix_of(
                launch_error_text(error),
            ),
            LaunchErrorView::ContainerAlreadyRunning { runtime, container_name, hint } =>
            runtime.is_prefix_of(launch_error_text(error)) && occurs(
                launch_error_text(error),
                container_name,
            ) && hint.is_suffix_of(launch_error_text(error)),
            LaunchErrorView::UnsupportedDisplay { display, hint } => occurs(
                launch_error_text(error),
                display,
            ) && hint.is_suffix_of(launch_error_text(error)),
            LaunchErrorView::SocketTimeout { host_socket } => occurs(
                launch_error_text(error),
                host_socket,
            ),
            LaunchErrorView::StartWaypipe { source } => source.is_suffix_of(
                launch_error_text(error),
            ),
        },
{
    let text = launch_error_text(error);
    match error {
        LaunchErrorView::MissingCommand { command, hint } => {
            assert(text =~= "Missing command '"@ + command + ("'. "@ + hint));
            lemma_occurs("Missing command '"@, command, "'. "@ + hint);
            assert(text.skip(text.len() - hint.len()) =~= hint);
        },
        LaunchErrorView::InvalidSocketPath { host_socket } => {
            let front = "Invalid host socket path '"@;
            let rest = text.skip((front.len() + host_socket.len()) as int);
            assert(text =~= front + host_socket + rest);
            lemma_occurs(front, host_socket, rest);
        },
        LaunchErrorView::CreateSocketDir { dir, source } => {
            assert(text =~= "Failed to create socket directory '"@ + dir + ("': "@ + source));
            lemma_occurs("Failed to create socket directory '"@, dir, "': "@ + source);
            assert(text.skip(text.len() - source.len()) =~= source);
        },
        LaunchErrorView::StartContainer { session, source } => {
            assert(text =~= "Failed to start container session '"@ + session + ("': "@ + source));
            lemma_occurs("Failed to start container session '"@, session, "': "@ + source);
            assert(text.skip(text.len() - source.len()) =~= source);
        },
        LaunchErrorView::RuntimeNotReady { runtime, hint } => {
            assert(text.take(runtime.len() as int) =~= runtime);
            assert(text.skip(text.len() - hint.len()) =~= hint);
        },
        LaunchErrorView::ImageUnavailable { runtime, image, hint } => {
            assert(text =~= (runtime + " image '"@) + image + ("' is not available locally. "@
                + hint));
            lemma_occurs(runtime + " image '"@, image, "' is not available locally. "@ + hint);
            assert(text.take(runtime.len() as int) =~= runtime);
            assert(text.skip(text.len() - hint.len()) =~= hint);
        },
        LaunchErrorView::ImageNotGuiReady { runtime, image, hint } => {
            assert(text =~= (runtime + " image '"@) + image + ("' is not GUI-ready. "@ + hint));
            lemma_occurs(runtime + " image '"@, image, "' is not GUI-ready. "@ + hint);
            assert(text.take(runtime.len() as int) =~= runtime);
            assert(text.skip(text.len() - hint.len()) =~= hint);
        },
        LaunchErrorView::ContainerAlreadyRunning { runtime, container_name, hint } => {
            let front = runtime + " session container '"@;
            assert(text =~= front + container_name + ("' is already running. "@ + hint));
            lemma_occurs(front, container_name, "' is already running. "@ + hint);
            assert(text.take(runtime.len() as int) =~= runtime);
            assert(text.skip(text.len() - hint.len()) =~= hint);
        },
        LaunchErrorView::UnsupportedDisplay { display, hint } => {
            assert(text =~= "Display '"@ + display + ("' is not available. "@ + hint));
            lemma_occurs("Display '"@, display, "' is not available. "@ + hint);
            assert(text.skip(text.len() - hint.len()) =~= hint);
        },
        LaunchErrorView::SocketTimeout { host_socket } => {
            let front = "Timed out waiting for container socket at '"@;
            assert(text =~= front + host_socket + "'"@);
            lemma_occurs(front, host_socket, "'"@);
        },
        LaunchErrorView::StartWaypipe { source } => {
            assert(text.skip(text.len() - source.len()) =~= source);
        },
    }
}

/// The user is told that waypipe is being started, that the command was handed
/// over, and that an old container is removed where one is; of nothing else.
pub proof fn law_progress_is_told(session: SessionView, state: LaunchStateView)
    ensures
        match state {
            LaunchStateView::AskWaypipe { .. } => progress_of(session, state) is Some && (
            progress_of(session, state)->0).0 == LaunchStep::StartWaypipe,
            LaunchStateView::Done { .. } => progress_of(session, state) is Some && (progress_of(
                session,
                state,
            )->0).0 == LaunchStep::StartCommand,
            LaunchStateView::AskRunningStill { remove: true } => progress_of(session, state) is Some
                && (progress_of(session, state)->0).0 == LaunchStep::CreateContainer,
            _ => progress_of(session, state) is None,
        },
{
}

} // verus!
