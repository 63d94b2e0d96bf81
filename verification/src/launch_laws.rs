//! What every launch of a session promises, whatever the session holds.
use vstd::prelude::*;

use crate::container_sessions::{
    assigns, binary_of, command_of, runtime_of, server_command, short_socket, slug_of, tuning_of,
    ContainerRuntime, LaunchErrorView, SessionView,
};
use crate::relay_launch::{aux_host_socket, guest_runtime_dir};
use crate::runtime_paths::{parent_of, quoted};
use crate::session_launch::{
    apple_waypipe_line, client_waypipe_line, client_waypipe_variables, container_line,
    guest_socket_of, host_socket_of, launch_audio, launch_of, session_settings, LaunchFacts,
    LaunchPlace, LaunchStateView,
};
use crate::text::{
    decimal, flagged, has_pair, has_run, joined, lemma_flagged_length, lemma_occurs,
    law_flags_precede_values, occurs, present,
};

verus! {

// ---------------------------------------------------------------------------
// Sockets and commands
// ---------------------------------------------------------------------------
/// A socket that a session names is the one that is used; without one, the
/// socket is that of the user, the process and the session's name.
pub proof fn law_named_sockets_are_used(session: SessionView, place: LaunchPlace)
    ensures
        session.socket matches Some(socket) ==> host_socket_of(session, place) == socket,
        session.socket is None ==> host_socket_of(session, place) == short_socket(
            place.uid,
            place.pid,
            session.name,
        ),
        session.container_socket matches Some(socket) ==> guest_socket_of(session, place)
            == socket,
        session.container_socket is None && runtime_of(session.runtime)
            != ContainerRuntime::Apple ==> guest_socket_of(session, place) == host_socket_of(
            session,
            place,
        ),
        session.container_socket is None && runtime_of(session.runtime)
            == ContainerRuntime::Apple ==> guest_socket_of(session, place)
            == "/tmp/cocoa-way/waypipe.sock"@,
{
}

/// A command that a session names is the one that is run. Without one, a
/// profile that is known runs its own; else the application is run, and a
/// terminal where there is none.
pub proof fn law_named_command_is_run(session: SessionView)
    ensures
        session.command matches Some(command) ==> command_of(session) == command,
        session.command is None && session.profile == Some("niri"@) ==> command_of(session)
            == "niri"@,
        session.command is None && session.profile == Some("shell"@) ==> command_of(session)
            == "sh"@,
        session.command is None && session.profile != Some("niri"@) && session.profile != Some(
            "shell"@,
        ) && session.app is Some ==> Some(command_of(session)) == session.app,
        session.command is None && session.profile != Some("niri"@) && session.profile != Some(
            "shell"@,
        ) && session.app is None ==> command_of(session) == "weston-terminal"@,
{
    reveal_strlit("niri");
    reveal_strlit("shell");
    assert("niri"@.len() != "shell"@.len());
}

/// A compression and a number of threads that a session asks for are handed to
/// waypipe; one that it does not ask for is not, save that Apple's runtime
/// compresses nothing.
pub proof fn law_tuning_is_handed_on(session: SessionView, runtime: ContainerRuntime)
    ensures
        present(session.waypipe_compress) matches Some(compress) ==> has_pair(
            tuning_of(session, runtime),
            "--compress"@,
            compress,
        ),
        present(session.waypipe_compress) is None && runtime == ContainerRuntime::Apple
            ==> has_pair(tuning_of(session, runtime), "--compress"@, "none"@),
        session.waypipe_threads matches Some(threads) ==> has_pair(
            tuning_of(session, runtime),
            "--threads"@,
            decimal(threads as nat),
        ),
        present(session.waypipe_compress) is None && runtime != ContainerRuntime::Apple
            && session.waypipe_threads is None ==> tuning_of(session, runtime).len() == 0,
        tuning_of(session, runtime).len() <= 4,
{
    let tuning = tuning_of(session, runtime);
    if present(session.waypipe_compress) is Some || runtime == ContainerRuntime::Apple {
        assert(tuning[0] == "--compress"@);
    }
    if session.waypipe_threads is Some {
        let threads = session.waypipe_threads->0;
        assert(tuning[tuning.len() - 2] == "--threads"@);
        assert(tuning[tuning.len() - 2 + 1] == decimal(threads as nat));
    }
}

/// The command that a container runs reaches the socket that it is told, tunes
/// waypipe as it is told, and ends by running the application.
pub proof fn law_server_reaches_its_socket(
    socket: Seq<char>,
    command: Seq<char>,
    arguments: Seq<Seq<char>>,
)
    ensures
        occurs(server_command(socket, command, arguments), " --socket "@ + quoted(socket)),
        occurs(
            server_command(socket, command, arguments),
            "mkdir -p \"$XDG_RUNTIME_DIR\" $(dirname "@ + quoted(socket) + ")"@,
        ),
        occurs(
            server_command(socket, command, arguments),
            "export XDG_RUNTIME_DIR=${XDG_RUNTIME_DIR:-"@ + quoted(guest_runtime_dir()),
        ),
        arguments.len() > 0 ==> occurs(
            server_command(socket, command, arguments),
            " && exec waypipe "@ + joined(
                arguments.map_values(|argument: Seq<char>| quoted(argument)),
                " "@,
            ) + " --socket "@,
        ),
        (" server sh -lc "@ + quoted("sleep 0.35; exec "@ + command)).is_suffix_of(
            server_command(socket, command, arguments),
        ),
{
    let whole = server_command(socket, command, arguments);
    let place = quoted(socket);
    let export = "export XDG_RUNTIME_DIR=${XDG_RUNTIME_DIR:-"@ + quoted(guest_runtime_dir());
    let make = "} && mkdir -p \"$XDG_RUNTIME_DIR\" $(dirname "@;
    let run = ") && exec waypipe"@;
    let shell = crate::container_sessions::shell_arguments(arguments);
    let last = " server sh -lc "@ + quoted("sleep 0.35; exec "@ + command);
    assert(whole == export + make + place + run + shell + " --socket "@ + place + last);
    let before = export + make + place + run + shell;
    assert(whole == before + (" --socket "@ + place) + last);
    lemma_occurs(before, " --socket "@ + place, last);
    let tail = make + place + run + shell + " --socket "@ + place + last;
    assert(whole == Seq::empty() + export + tail);
    lemma_occurs(Seq::empty(), export, tail);
    reveal_strlit("} && mkdir -p \"$XDG_RUNTIME_DIR\" $(dirname ");
    reveal_strlit("mkdir -p \"$XDG_RUNTIME_DIR\" $(dirname ");
    reveal_strlit("} && ");
    reveal_strlit(") && exec waypipe");
    reveal_strlit(" && exec waypipe");
    reveal_strlit(")");
    let made = "mkdir -p \"$XDG_RUNTIME_DIR\" $(dirname "@ + place + ")"@;
    assert(make == "} && "@ + "mkdir -p \"$XDG_RUNTIME_DIR\" $(dirname "@);
    assert(run == ")"@ + " && exec waypipe"@);
    let rest = " && exec waypipe"@ + shell + " --socket "@ + place + last;
    assert(whole == (export + "} && "@) + made + rest);
    lemma_occurs(export + "} && "@, made, rest);
    if arguments.len() > 0 {
        reveal_strlit(" && exec waypipe ");
        reveal_strlit(" ");
        assert(" && exec waypipe "@ == " && exec waypipe"@ + " "@);
        let words = joined(arguments.map_values(|argument: Seq<char>| quoted(argument)), " "@);
        assert(arguments.map_values(|argument: Seq<char>| quoted(argument))
            == arguments.map_values(|arg: Seq<char>| quoted(arg)));
        let middle = " && exec waypipe "@ + words + " --socket "@;
        assert(whole == (export + make + place + ")"@) + middle + (place + last));
        lemma_occurs(export + make + place + ")"@, middle, place + last);
    }
    assert(whole.skip(whole.len() - last.len()) == last);
}

// ---------------------------------------------------------------------------
// Starting the container
// ---------------------------------------------------------------------------
/// Every variable, every mount and every argument of the runtime that a session
/// lists is among its settings.
pub proof fn law_settings_are_whole(session: SessionView, i: int)
    ensures
        0 <= i < session.env.len() ==> has_pair(
            session_settings(session),
            "--env"@,
            session.env[i],
        ),
        0 <= i < session.mounts.len() ==> has_pair(
            session_settings(session),
            "--mount"@,
            session.mounts[i],
        ),
        session.runtime_args.is_suffix_of(session_settings(session)),
        session_settings(session).len() == 2 * session.env.len() + 2 * session.mounts.len()
            + session.runtime_args.len(),
{
    let settings = session_settings(session);
    let env = flagged("--env"@, session.env);
    let mounts = flagged("--mount"@, session.mounts);
    lemma_flagged_length("--env"@, session.env);
    lemma_flagged_length("--mount"@, session.mounts);
    if 0 <= i < session.env.len() {
        law_flags_precede_values("--env"@, session.env, i);
        assert(settings[2 * i] == env[2 * i]);
        assert(settings[2 * i + 1] == env[2 * i + 1]);
    }
    if 0 <= i < session.mounts.len() {
        law_flags_precede_values("--mount"@, session.mounts, i);
        assert(settings[env.len() + 2 * i] == mounts[2 * i]);
        assert(settings[env.len() + 2 * i + 1] == mounts[2 * i + 1]);
    }
    assert(settings.skip(settings.len() - session.runtime_args.len()) == session.runtime_args);
}

/// A container that a launch starts has the directory of the host's socket
/// mounted where the host has it, and runs a server in the session's image that
/// reaches the socket. So a session that names no socket for its container
/// finds the host's socket in a directory that is mounted.
#[verifier::rlimit(40)]
pub proof fn law_container_reaches_its_socket(
    session: SessionView,
    place: LaunchPlace,
    facts: LaunchFacts,
)
    requires
        launch_of(session, place, facts) is AskContainer,
    ensures
        ({
            let arguments = launch_of(session, place, facts)->AskContainer_arguments;
            let n = arguments.len();
            let host = match session.socket {
                Some(socket) => socket,
                None => short_socket(place.uid, place.pid, session.name),
            };
            let guest = match session.container_socket {
                Some(socket) => socket,
                None => host,
            };
            &&& parent_of(host) is Some
            &&& n >= 10
            &&& arguments[n - 6] == "-v"@
            &&& arguments[n - 5] == parent_of(host)->0 + ":"@ + parent_of(host)->0
            &&& arguments[n - 4] == session.image
            &&& arguments[n - 3] == "sh"@
            &&& arguments[n - 2] == "-lc"@
            &&& occurs(arguments[n - 1], " --socket "@ + quoted(guest))
            &&& (" server sh -lc "@ + quoted("sleep 0.35; exec "@ + command_of(
                session,
            ))).is_suffix_of(arguments[n - 1])
        }),
{
    let host = host_socket_of(session, place);
    let line = container_line(session, place);
    let n = line.len();
    let runtime = runtime_of(session.runtime);
    let server = server_command(
        guest_socket_of(session, place),
        command_of(session),
        tuning_of(session, runtime),
    );
    let last = seq![
        "-v"@,
        parent_of(host)->0 + ":"@ + parent_of(host)->0,
        session.image,
        "sh"@,
        "-lc"@,
        server,
    ];
    assert(line.skip(n - 6) == last);
    assert(forall|k: int| 0 <= k < 6 ==> line[n - 6 + k] == #[trigger] last[k]);
    assert(line[n - 6 + 0] == last[0]);
    assert(line[n - 6 + 1] == last[1]);
    assert(line[n - 6 + 2] == last[2]);
    assert(line[n - 6 + 3] == last[3]);
    assert(line[n - 6 + 4] == last[4]);
    assert(line[n - 6 + 5] == last[5]);
    law_server_reaches_its_socket(
        guest_socket_of(session, place),
        command_of(session),
        tuning_of(session, runtime),
    );
}

/// A container that a launch starts is a new one under the session's name, is
/// gone once it ends, and gets every variable, every mount and every argument
/// that the session lists. A session that sets no runtime directory gets one.
#[verifier::rlimit(40)]
pub proof fn law_container_gets_the_settings(
    session: SessionView,
    place: LaunchPlace,
    facts: LaunchFacts,
    i: int,
)
    requires
        launch_of(session, place, facts) is AskContainer,
    ensures
        ({
            let arguments = launch_of(session, place, facts)->AskContainer_arguments;
            &&& arguments[0] == "run"@
            &&& arguments[1] == "--rm"@
            &&& arguments[2] == "--name"@
            &&& arguments[3] == "cocoa-way-"@ + slug_of(session.name, "container"@)
            &&& 0 <= i < session.env.len() ==> has_pair(arguments, "--env"@, session.env[i])
            &&& 0 <= i < session.mounts.len() ==> has_pair(
                arguments,
                "--mount"@,
                session.mounts[i],
            )
            &&& has_run(arguments, session.runtime_args)
            &&& !assigns(session.env, "XDG_RUNTIME_DIR"@) ==> has_pair(
                arguments,
                "--env"@,
                "XDG_RUNTIME_DIR="@ + guest_runtime_dir(),
            )
        }),
{
    let line = container_line(session, place);
    let settings = session_settings(session);
    let start: int = if assigns(session.env, "XDG_RUNTIME_DIR"@) {
        4
    } else {
        6
    };
    assert(line.subrange(start, start + settings.len()) == settings);
    assert(forall|k: int| 0 <= k < settings.len() ==> line[start + k] == #[trigger] settings[k]);
    law_settings_are_whole(session, i);
    if 0 <= i < session.env.len() {
        lemma_pair_within(line, start, settings, "--env"@, session.env[i]);
    }
    if 0 <= i < session.mounts.len() {
        lemma_pair_within(line, start, settings, "--mount"@, session.mounts[i]);
    }
    let at = start + settings.len() - session.runtime_args.len();
    assert(line.subrange(at, at + session.runtime_args.len()) == session.runtime_args) by {
        assert(settings.skip(settings.len() - session.runtime_args.len()) == session.runtime_args);
        assert forall|k: int| 0 <= k < session.runtime_args.len() implies #[trigger] line.subrange(
            at,
            at + session.runtime_args.len(),
        )[k] == session.runtime_args[k] by {
            assert(line[at + k] == settings[at + k - start]);
        }
    }
    if start == 6 {
        assert(line[4] == "--env"@);
        assert(line[4int + 1] == "XDG_RUNTIME_DIR="@ + guest_runtime_dir());
    }
}

proof fn lemma_pair_within(
    list: Seq<Seq<char>>,
    start: int,
    part: Seq<Seq<char>>,
    flag: Seq<char>,
    value: Seq<char>,
)
    requires
        0 <= start <= list.len() - part.len(),
        forall|k: int| 0 <= k < part.len() ==> list[start + k] == #[trigger] part[k],
        has_pair(part, flag, value),
    ensures
        has_pair(list, flag, value),
{
    let k = choose|k: int|
        0 <= k < part.len() - 1 && #[trigger] part[k] == flag && part[k + 1] == value;
    assert(list[start + k] == flag);
    assert(list[start + k + 1] == part[k + 1]);
}

// ---------------------------------------------------------------------------
// Starting waypipe
// ---------------------------------------------------------------------------
/// Waypipe is started on the host's socket, speaks to the display of the place
/// that it is launched on, and is tuned as the session asks. For Apple's
/// runtime it reaches into the container through this program; for the others
/// it waits as a client.
#[verifier::rlimit(40)]
pub proof fn law_waypipe_serves_the_session(
    session: SessionView,
    place: LaunchPlace,
    facts: LaunchFacts,
)
    requires
        launch_of(session, place, facts) is AskWaypipe,
    ensures
        ({
            let arguments = launch_of(session, place, facts)->AskWaypipe_arguments;
            let variables = launch_of(session, place, facts)->AskWaypipe_variables;
            let remove = launch_of(session, place, facts)->AskWaypipe_remove;
            let apple = runtime_of(session.runtime) == ContainerRuntime::Apple;
            let host = match session.socket {
                Some(socket) => socket,
                None => short_socket(place.uid, place.pid, session.name),
            };
            let tuning = tuning_of(session, runtime_of(session.runtime));
            &&& has_pair(arguments, "--socket"@, host)
            &&& tuning.is_prefix_of(arguments)
            &&& variables.contains(("XDG_RUNTIME_DIR"@, place.runtime_dir@))
            &&& variables.contains(("WAYLAND_DISPLAY"@, place.display@))
            &&& remove == apple
            &&& !apple ==> arguments.last() == "client"@ && arguments.len() == tuning.len() + 3
                && variables.len() == 2
            &&& apple ==> has_pair(
                arguments,
                "--remote-socket"@,
                match session.container_socket {
                    Some(socket) => socket,
                    None => "/tmp/cocoa-way/waypipe.sock"@,
                },
            ) && has_pair(arguments, "--ssh-bin"@, place.helper@) && has_pair(
                arguments,
                "--remote-bin"@,
                "waypipe"@,
            ) && has_pair(arguments, "sh"@, "-lc"@)
        }),
{
    let apple = runtime_of(session.runtime) == ContainerRuntime::Apple;
    let tuning = tuning_of(session, runtime_of(session.runtime));
    let t = tuning.len() as int;
    if apple {
        let line = apple_waypipe_line(session, place);
        assert(line[t + 0] == "--socket"@);
        assert(line[t + 1] == host_socket_of(session, place));
        assert(line[t + 2] == "--remote-socket"@);
        assert(line[t + 2 + 1] == guest_socket_of(session, place));
        assert(line[t + 4] == "--ssh-bin"@);
        assert(line[t + 4 + 1] == place.helper@);
        assert(line[t + 6] == "--remote-bin"@);
        assert(line[t + 6 + 1] == "waypipe"@);
        assert(line[t + 10] == "sh"@);
        assert(line[t + 10 + 1] == "-lc"@);
        assert(line.take(t) == tuning);
        let variables = launch_of(session, place, facts)->AskWaypipe_variables;
        assert(variables[0] == ("XDG_RUNTIME_DIR"@, place.runtime_dir@));
        assert(variables[1] == ("WAYLAND_DISPLAY"@, place.display@));
    } else {
        let line = client_waypipe_line(session, place);
        assert(line[t + 0] == "--socket"@);
        assert(line[t + 1] == host_socket_of(session, place));
        assert(line[t + 2] == "client"@);
        assert(line.take(t) == tuning);
        let variables = client_waypipe_variables(place);
        assert(variables[0] == ("XDG_RUNTIME_DIR"@, place.runtime_dir@));
        assert(variables[1] == ("WAYLAND_DISPLAY"@, place.display@));
    }
}

/// The relay of an Apple container is told the image, the container's name, the
/// variables, the mounts and the arguments of the session; it is told of sound,
/// and of the socket that carries it, just where the session has sound.
#[verifier::rlimit(40)]
pub proof fn law_relay_is_told_the_session(
    session: SessionView,
    place: LaunchPlace,
    facts: LaunchFacts,
)
    requires
        launch_of(session, place, facts) is AskWaypipe,
        runtime_of(session.runtime) == ContainerRuntime::Apple,
    ensures
        ({
            let variables = launch_of(session, place, facts)->AskWaypipe_variables;
            &&& variables.contains(("COCOA_WAY_CONTAINER_RELAY"@, "1"@))
            &&& variables.contains(("COCOA_WAY_RELAY_IMAGE"@, session.image))
            &&& variables.contains(
                (
                    "COCOA_WAY_RELAY_CONTAINER_NAME"@,
                    "cocoa-way-"@ + slug_of(session.name, "container"@),
                ),
            )
            &&& variables.contains(("COCOA_WAY_RELAY_ENV"@, joined(session.env, "\n"@)))
            &&& variables.contains(("COCOA_WAY_RELAY_MOUNTS"@, joined(session.mounts, "\n"@)))
            &&& variables.contains(
                ("COCOA_WAY_RELAY_RUNTIME_ARGS"@, joined(session.runtime_args, "\n"@)),
            )
            &&& session.audio ==> variables.len() == 10 && variables[8] == (
                "COCOA_WAY_RELAY_AUDIO"@,
                "1"@,
            ) && variables[9].0 == "COCOA_WAY_RELAY_AUDIO_HOST"@
                && aux_host_socket(
                host_socket_of(session, place),
                "audio"@,
            ) == Ok::<Seq<char>, Seq<char>>(variables[9].1)
            &&& !session.audio ==> variables.len() == 8
        }),
{
    let variables = launch_of(session, place, facts)->AskWaypipe_variables;
    assert(variables[2] == ("COCOA_WAY_CONTAINER_RELAY"@, "1"@));
    assert(variables[3] == ("COCOA_WAY_RELAY_IMAGE"@, session.image));
    assert(variables[4].0 == "COCOA_WAY_RELAY_CONTAINER_NAME"@);
    assert(variables[5] == ("COCOA_WAY_RELAY_ENV"@, joined(session.env, "\n"@)));
    assert(variables[6] == ("COCOA_WAY_RELAY_MOUNTS"@, joined(session.mounts, "\n"@)));
    assert(variables[7].0 == "COCOA_WAY_RELAY_RUNTIME_ARGS"@);
}

// ---------------------------------------------------------------------------
// Questions, failures and success
// ---------------------------------------------------------------------------
/// A launch asks for nothing that it has been told, and asks for the directory
/// that its socket is in.
#[verifier::rlimit(40)]
pub proof fn law_launch_asks_what_is_missing(
    session: SessionView,
    place: LaunchPlace,
    facts: LaunchFacts,
)
    ensures
        match launch_of(session, place, facts) {
            LaunchStateView::AskRuntimeBinary => facts.runtime_binary is None,
            LaunchStateView::AskRunning => facts.running is None,
            LaunchStateView::AskRunningStill { remove } => facts.running_still is None && remove
                == (runtime_of(session.runtime) == ContainerRuntime::Apple),
            LaunchStateView::AskSocketDirectory { directory } => facts.socket_directory is None
                && parent_of(host_socket_of(session, place)) == Some(directory),
            LaunchStateView::AskWaypipe { .. } => facts.waypipe is None,
            LaunchStateView::AskSocket => facts.socket is None && facts.waypipe is Some,
            LaunchStateView::AskContainer { .. } => facts.container is None && facts.socket
                == Some(true),
            _ => true,
        },
{
}

/// A launch fails just for a reason that it was told: a runtime that is not
/// there, a container that still runs, a path that no socket can have, and a
/// directory, a waypipe, a socket or a container that did not come. The error
/// names what failed.
#[verifier::rlimit(40)]
pub proof fn law_failure_names_its_cause(
    session: SessionView,
    place: LaunchPlace,
    facts: LaunchFacts,
)
    requires
        launch_of(session, place, facts) is Failed,
    ensures
        match launch_of(session, place, facts)->Failed_0 {
            LaunchErrorView::MissingCommand { command, .. } => command == binary_of(
                runtime_of(session.runtime),
            ) && (facts.runtime_binary matches Some(None)),
            LaunchErrorView::ContainerAlreadyRunning { container_name, .. } => facts.running_still
                == Some(true) && container_name == "cocoa-way-"@ + slug_of(
                session.name,
                "container"@,
            ),
            LaunchErrorView::InvalidSocketPath { host_socket } => host_socket == host_socket_of(
                session,
                place,
            ),
            LaunchErrorView::CreateSocketDir { dir, source } => parent_of(
                host_socket_of(session, place),
            ) == Some(dir) && (facts.socket_directory matches Some(Err(problem)) && problem@
                == source),
            LaunchErrorView::StartWaypipe { source } => facts.waypipe matches Some(Err(problem))
                && problem@ == source,
            LaunchErrorView::SocketTimeout { host_socket } => facts.socket == Some(false)
                && host_socket == host_socket_of(session, place),
            LaunchErrorView::StartContainer { session: name, source } => name == session.name && (
            facts.container matches Some(Err(problem)) && problem@ == source),
            _ => false,
        },
{
}

/// A launch that is done says which container runs, on which sockets and with
/// which command.
#[verifier::rlimit(60)]
pub proof fn law_done_tells_the_session(
    session: SessionView,
    place: LaunchPlace,
    facts: LaunchFacts,
)
    requires
        launch_of(session, place, facts) is Done,
    ensures
        match launch_of(session, place, facts) {
            LaunchStateView::Done {
                container_name,
                host_socket,
                container_socket,
                audio_host_socket,
                command,
                ..
            } => {
                &&& container_name == "cocoa-way-"@ + slug_of(session.name, "container"@)
                &&& host_socket == host_socket_of(session, place)
                &&& container_socket == guest_socket_of(session, place)
                &&& command == command_of(session)
                &&& audio_host_socket is Some <==> session.audio && runtime_of(session.runtime)
                    == ContainerRuntime::Apple
            },
            _ => false,
        },
{
    lemma_done_has_sound(session, place, facts);
}

proof fn lemma_done_has_sound(session: SessionView, place: LaunchPlace, facts: LaunchFacts)
    requires
        launch_of(session, place, facts) is Done,
    ensures
        launch_audio(session, host_socket_of(session, place)) == Ok::<
            Option<Seq<char>>,
            LaunchErrorView,
        >(launch_of(session, place, facts)->audio_host_socket),
{
}

/// By the time that a launch is done the runtime was there, the container did
/// not run before, waypipe was started, and, save on Apple's runtime, the
/// socket came and the container was started.
#[verifier::rlimit(60)]
pub proof fn law_done_needs_every_step(
    session: SessionView,
    place: LaunchPlace,
    facts: LaunchFacts,
)
    requires
        launch_of(session, place, facts) is Done,
    ensures
        facts.runtime_binary matches Some(Some(_)),
        facts.running_still == Some(true) && runtime_of(session.runtime)
            != ContainerRuntime::OrbStack ==> facts.running != Some(true),
        facts.socket_directory matches Some(Ok(_)),
        facts.waypipe matches Some(Ok(_)),
        runtime_of(session.runtime) != ContainerRuntime::Apple ==> facts.socket == Some(true) && (
        facts.container matches Some(Ok(_))),
{
}

} // verus!
