//! How the relay of an Apple container is started: its transport, its sockets
//! and its command line.
use vstd::prelude::*;
use vstd::string::*;

use crate::guest_programs::{
    guest_publish_socket_relay_perl, guest_relay_perl, GUEST_PUBLISH_SOCKET_RELAY_PERL,
    GUEST_RELAY_PERL,
};
use crate::relay::{WaypipeRelayArgs, RELAY_V2_READY_LINE};
use crate::runtime_paths::{entry, entry_of, parent, parent_of};
use crate::session_launch::CommandOutput;
use crate::text::{
    blank, concat, concat3, concat4, contains, decimal, decimal_text, drop_prefixed, extend,
    extend_flagged, flagged, hexadecimal, hexadecimal_text, is_blank, lossy, lossy_text, lowered, occurs, outcome,
    same, strings, to_ascii_lowercase, without_prefixed,
};

verus! {

/// The most bytes that the path of a Unix socket may have.
pub const UNIX_SOCKET_PATH_BYTES: usize = 103;

/// The bytes that waypipe may put behind the path of its socket.
pub const WAYPIPE_CLIENT_SUFFIX_RESERVE: usize = 28;

/// The directory that stands for a runtime directory inside a container.
pub open spec fn guest_runtime_dir() -> Seq<char> {
    "/tmp/cocoa-way-runtime"@
}

pub fn default_guest_runtime_dir() -> (result: &'static str)
    ensures
        result@ == guest_runtime_dir(),
{
    "/tmp/cocoa-way-runtime"
}

// ---------------------------------------------------------------------------
// Sockets
// ---------------------------------------------------------------------------
/// The 64-bit FNV-1a hash of some bytes.
pub open spec fn fnv1a(bytes: Seq<u8>) -> u64
    decreases bytes.len(),
{
    if bytes.len() == 0 {
        0xcbf29ce484222325
    } else {
        (fnv1a(bytes.drop_last()) ^ (bytes.last() as u64)).wrapping_mul(0x100000001b3)
    }
}

pub open spec fn name_hash(value: Seq<char>) -> u64 {
    fnv1a(vstd::utf8::encode_utf8(value))
}

/// A number that stays the same for a name, in every process.
pub fn stable_name_hash(value: &str) -> (result: u64)
    ensures
        result == name_hash(value@),
{
    let bytes = value.as_bytes();
    let mut hash: u64 = 0xcbf29ce484222325;
    for i in 0..bytes.len()
        invariant
            bytes@ == vstd::utf8::encode_utf8(value@),
            hash == fnv1a(bytes@.take(i as int)),
    {
        assert(bytes@.take(i + 1).drop_last() == bytes@.take(i as int));
        let mixed: u64 = hash ^ (bytes[i] as u64);
        hash = mixed.wrapping_mul(0x100000001b3);
    }
    assert(bytes@.take(bytes@.len() as int) == bytes@);
    hash
}

/// The path of a socket that stands beside the socket of a session.
pub open spec fn aux_socket(directory: Seq<char>, local_socket: Seq<char>, kind: Seq<char>) -> Seq<
    char,
> {
    entry_of(
        directory,
        kind + "-"@ + hexadecimal(name_hash(local_socket) as nat, 16) + ".sock"@,
    )
}

/// The socket of a kind beside a session's socket: an error if the session's
/// socket stands in no directory, or if the path is too long for a socket.
pub open spec fn aux_host_socket(local_socket: Seq<char>, kind: Seq<char>) -> Result<
    Seq<char>,
    Seq<char>,
> {
    match parent_of(local_socket) {
        None => Err("session socket `"@ + local_socket + "` has no parent directory"@),
        Some(directory) => {
            let socket = aux_socket(directory, local_socket, kind);
            if vstd::utf8::encode_utf8(socket).len() >= UNIX_SOCKET_PATH_BYTES {
                Err("auxiliary socket path is too long: `"@ + socket + "`"@)
            } else {
                Ok(socket)
            }
        },
    }
}

/// The directory in which the sockets of a session stand.
pub fn relay_socket_directory(local_socket: &str) -> (result: Result<String, String>)
    ensures
        outcome(result) == (match parent_of(local_socket@) {
            Some(directory) => Ok::<Seq<char>, Seq<char>>(directory),
            None => Err("session socket `"@ + local_socket@ + "` has no parent directory"@),
        }),
{
    match parent(local_socket) {
        Some(directory) => Ok(directory),
        None => Err(concat3("session socket `", local_socket, "` has no parent directory")),
    }
}

pub fn relay_aux_host_socket(local_socket: &str, kind: &str) -> (result: Result<String, String>)
    ensures
        outcome(result) == aux_host_socket(local_socket@, kind@),
{
    let directory = match relay_socket_directory(local_socket) {
        Ok(directory) => directory,
        Err(message) => return Err(message),
    };
    let hash = hexadecimal_text(stable_name_hash(local_socket), 16);
    let name = concat4(kind, "-", hash.as_str(), ".sock");
    let socket = entry(directory.as_str(), name.as_str());
    if socket.as_str().as_bytes().len() >= UNIX_SOCKET_PATH_BYTES {
        return Err(concat3("auxiliary socket path is too long: `", socket.as_str(), "`"));
    }
    Ok(socket)
}

/// The host's end of the published transport socket.
pub fn relay_transport_host_socket(local_socket: &str) -> (result: Result<String, String>)
    ensures
        outcome(result) == aux_host_socket(local_socket@, "v2"@),
{
    relay_aux_host_socket(local_socket, "v2")
}

/// The host's end of the audio socket.
pub fn relay_audio_host_socket(local_socket: &str) -> (result: Result<String, String>)
    ensures
        outcome(result) == aux_host_socket(local_socket@, "audio"@),
{
    relay_aux_host_socket(local_socket, "audio")
}

/// The transport socket and the audio socket of a session are never the same
/// path.
pub proof fn law_aux_sockets_differ(local_socket: Seq<char>, directory: Seq<char>)
    ensures
        aux_socket(directory, local_socket, "v2"@) != aux_socket(
            directory,
            local_socket,
            "audio"@,
        ),
{
    reveal_strlit("v2");
    reveal_strlit("audio");
    let hash = hexadecimal(name_hash(local_socket) as nat, 16);
    let video = "v2"@ + "-"@ + hash + ".sock"@;
    let audio = "audio"@ + "-"@ + hash + ".sock"@;
    assert(audio.len() == video.len() + 3);
    assert(entry_of(directory, audio).len() == entry_of(directory, video).len() + 3);
}

/// A socket that the relay accepts fits in the path of a Unix socket.
pub proof fn law_aux_socket_fits(local_socket: Seq<char>, kind: Seq<char>, socket: Seq<char>)
    requires
        aux_host_socket(local_socket, kind) == Ok::<Seq<char>, Seq<char>>(socket),
    ensures
        vstd::utf8::encode_utf8(socket).len() < UNIX_SOCKET_PATH_BYTES,
{
}

// ---------------------------------------------------------------------------
// Transport
// ---------------------------------------------------------------------------
/// The transport with which a relay starts.
#[derive(Debug, Clone, Copy, PartialEq, Eq, Structural)]
pub enum RelayTransport {
    /// The published socket; standard input and output if it does not start.
    Published,
    /// Standard input and output, because no socket can be published.
    Fallback,
    /// Standard input and output, as asked.
    Stdio,
}

pub open spec fn transport_for(preference: Option<Seq<char>>, publish_supported: bool) -> RelayTransport {
    let wanted = match preference {
        Some(preference) => lowered(preference),
        None => "auto"@,
    };
    if wanted == "stdio"@ {
        RelayTransport::Stdio
    } else if publish_supported {
        RelayTransport::Published
    } else {
        RelayTransport::Fallback
    }
}

/// Chooses the transport from a preference, which need not be set.
pub fn relay_transport(preference: Option<&str>, publish_supported: bool) -> (result:
    RelayTransport)
    ensures
        result == transport_for(preference.deep_view(), publish_supported),
{
    proof {
        reveal_strlit("auto");
        reveal_strlit("stdio");
        assert("auto"@.len() != "stdio"@.len());
    }
    let stdio = match preference {
        Some(preference) => same(to_ascii_lowercase(preference).as_str(), "stdio"),
        None => false,
    };
    if stdio {
        RelayTransport::Stdio
    } else if publish_supported {
        RelayTransport::Published
    } else {
        RelayTransport::Fallback
    }
}

/// Whether the help text of `container run` knows published sockets.
pub fn help_offers_publish_socket(help: &str) -> (result: bool)
    ensures
        result == occurs(help@, "--publish-socket"@),
{
    contains(help, "--publish-socket")
}

/// Whether the runtime knows published sockets, by its reply to `run --help`.
pub fn publish_socket_offered(reply: &Result<CommandOutput, String>) -> (result: bool)
    ensures
        result == (reply matches Ok(output) && output.success && occurs(
            lossy_text(output.stdout@),
            "--publish-socket"@,
        )),
{
    match reply {
        Ok(output) => {
            if output.success {
                let help = lossy(output.stdout.as_slice());
                return help_offers_publish_socket(help.as_str());
            }
            false
        },
        Err(_) => false,
    }
}

/// What came of the bridge to a proxy on the host's loopback.
#[derive(Debug)]
pub enum ProxyBridge {
    /// It runs, and these variables lead to it.
    Started(Vec<String>),
    /// The host has no such proxy.
    Absent,
    Failed(String),
}

/// The environment of a relay. Only one that names no proxy gets the variables of
/// the bridge.
pub open spec fn bridged_environment(
    environment: Seq<Seq<char>>,
    names_proxy: bool,
    bridge: ProxyBridge,
) -> Seq<Seq<char>> {
    match bridge {
        ProxyBridge::Started(variables) if !names_proxy => environment + variables.deep_view(),
        _ => environment,
    }
}

/// What the user is told of the bridge.
pub open spec fn bridge_notice(names_proxy: bool, bridge: ProxyBridge) -> Option<Seq<char>> {
    if names_proxy {
        None
    } else {
        match bridge {
            ProxyBridge::Started(_) => Some(
                "cocoa-way network: forwarding the host loopback proxy to Apple Container"@,
            ),
            ProxyBridge::Absent => None,
            ProxyBridge::Failed(error) => Some(
                "cocoa-way network: host proxy bridge unavailable: "@ + error@,
            ),
        }
    }
}

/// The environment of a relay and what the user is told. An environment that names
/// a proxy is left as it is, and no bridge is asked for.
pub fn relay_environment(environment: Vec<String>, names_proxy: bool, bridge: ProxyBridge) -> (
    result: (Vec<String>, Option<String>))
    ensures
        result.0.deep_view() == bridged_environment(environment.deep_view(), names_proxy, bridge),
        result.1.deep_view() == bridge_notice(names_proxy, bridge),
{
    if names_proxy {
        return (environment, None);
    }
    match bridge {
        ProxyBridge::Started(variables) => {
            let mut environment = environment;
            extend(&mut environment, &variables);
            (
                environment,
                Some(
                    "cocoa-way network: forwarding the host loopback proxy to Apple Container".to_owned(),
                ),
            )
        },
        ProxyBridge::Absent => (environment, None),
        ProxyBridge::Failed(error) => (
            environment,
            Some(concat("cocoa-way network: host proxy bridge unavailable: ", error.as_str())),
        ),
    }
}

/// Why a relay over a published socket ended.
#[derive(Debug)]
pub enum PublishRelayError {
    /// It did not start.
    Startup(String),
    /// It ended after it had started.
    Active(String),
}

/// The host's audio socket of a published relay: none without audio; the path
/// that was handed over, unless it is blank; else the one beside the session's
/// socket.
pub fn published_audio_socket(audio_enabled: bool, handed_over: Option<&str>, local_socket: &str) -> (result: Result<Option<String>, String>)
    ensures
        outcome(result) == (if !audio_enabled {
            Ok::<Option<Seq<char>>, Seq<char>>(None)
        } else {
            match handed_over {
                Some(path) if !is_blank(path@) => Ok(Some(path@)),
                _ => match aux_host_socket(local_socket@, "audio"@) {
                    Ok(socket) => Ok(Some(socket)),
                    Err(message) => Err(message),
                },
            }
        }),
{
    if !audio_enabled {
        return Ok(None);
    }
    if let Some(path) = handed_over {
        if !blank(path) {
            return Ok(Some(path.to_owned()));
        }
    }
    match relay_audio_host_socket(local_socket) {
        Ok(socket) => Ok(Some(socket)),
        Err(message) => Err(message),
    }
}

pub open spec fn guest_transport(pid: u32) -> Seq<char> {
    "/tmp/cocoa-way/transport-v2-"@ + decimal(pid as nat) + ".sock"@
}

pub fn guest_transport_socket(pid: u32) -> (result: String)
    ensures
        result@ == guest_transport(pid),
{
    let number = decimal_text(pid as u128);
    concat3("/tmp/cocoa-way/transport-v2-", number.as_str(), ".sock")
}

pub open spec fn guest_audio(pid: u32) -> Seq<char> {
    "/tmp/cocoa-way/audio-"@ + decimal(pid as nat) + ".sock"@
}

pub fn guest_audio_socket(pid: u32) -> (result: String)
    ensures
        result@ == guest_audio(pid),
{
    let number = decimal_text(pid as u128);
    concat3("/tmp/cocoa-way/audio-", number.as_str(), ".sock")
}

// ---------------------------------------------------------------------------
// Command lines
// ---------------------------------------------------------------------------
/// What a relay needs to start its container.
#[derive(Debug)]
pub struct RelayContainer {
    pub image: String,
    pub name: String,
    pub environment: Vec<String>,
    pub mounts: Vec<String>,
    pub runtime_args: Vec<String>,
}

/// The arguments that name the environment, the mounts and the runtime's own
/// arguments. The runtime directory is set by the relay alone.
pub open spec fn container_settings(container: &RelayContainer) -> Seq<Seq<char>> {
    flagged("--env"@, without_prefixed(container.environment.deep_view(), "XDG_RUNTIME_DIR="@))
        + flagged("--mount"@, container.mounts.deep_view()) + container.runtime_args.deep_view()
}

fn extend_settings(arguments: &mut Vec<String>, container: &RelayContainer)
    ensures
        final(arguments).deep_view() == old(arguments).deep_view() + container_settings(container),
{
    let ghost start = arguments.deep_view();
    let kept = drop_prefixed(&container.environment, "XDG_RUNTIME_DIR=");
    extend_flagged(arguments, "--env", &kept);
    extend_flagged(arguments, "--mount", &container.mounts);
    extend(arguments, &container.runtime_args);
    assert(arguments.deep_view() == start + container_settings(container));
}

pub open spec fn stdio_relay_line(
    container: &RelayContainer,
    remote_socket: Seq<char>,
    remote_command: Seq<Seq<char>>,
) -> Seq<Seq<char>> {
    seq![
        "run"@,
        "--rm"@,
        "-i"@,
        "--name"@,
        container.name@,
        "--env"@,
        "XDG_RUNTIME_DIR="@ + guest_runtime_dir(),
    ] + container_settings(container) + seq![
        container.image@,
        "perl"@,
        "-e"@,
        GUEST_RELAY_PERL@,
        remote_socket,
    ] + remote_command
}

/// The arguments with which the runtime starts a relay over standard input and
/// output.
pub fn stdio_relay_arguments(container: &RelayContainer, relay: &WaypipeRelayArgs) -> (result: Vec<
    String,
>)
    ensures
        result.deep_view() == stdio_relay_line(
            container,
            relay.remote_socket@,
            relay.remote_command.deep_view(),
        ),
{
    let directory = concat("XDG_RUNTIME_DIR=", default_guest_runtime_dir());
    let mut result = strings(
        &["run", "--rm", "-i", "--name", container.name.as_str(), "--env", directory.as_str()],
    );
    extend_settings(&mut result, container);
    let program = strings(
        &[
            container.image.as_str(),
            "perl",
            "-e",
            guest_relay_perl(),
            relay.remote_socket.as_str(),
        ],
    );
    extend(&mut result, &program);
    extend(&mut result, &relay.remote_command);
    assert(result.deep_view() == stdio_relay_line(
        container,
        relay.remote_socket@,
        relay.remote_command.deep_view(),
    ));
    result
}

/// The arguments that publish the audio socket, where there is one.
pub open spec fn audio_settings(host_audio: Option<Seq<char>>, pid: u32) -> Seq<Seq<char>> {
    match host_audio {
        Some(host_audio) => seq![
            "--publish-socket"@,
            host_audio + ":"@ + guest_audio(pid),
            "--env"@,
            "COCOA_WAY_AUDIO_SOCKET="@ + guest_audio(pid),
        ],
        None => Seq::empty(),
    }
}

pub open spec fn publish_relay_line(
    container: &RelayContainer,
    host_transport: Seq<char>,
    host_audio: Option<Seq<char>>,
    pid: u32,
    remote_socket: Seq<char>,
    remote_command: Seq<Seq<char>>,
) -> Seq<Seq<char>> {
    seq![
        "run"@,
        "--rm"@,
        "--name"@,
        container.name@,
        "--publish-socket"@,
        host_transport + ":"@ + guest_transport(pid),
        "--env"@,
        "XDG_RUNTIME_DIR="@ + guest_runtime_dir(),
    ] + audio_settings(host_audio, pid) + container_settings(container) + seq![
        container.image@,
        "perl"@,
        "-e"@,
        GUEST_PUBLISH_SOCKET_RELAY_PERL@,
        remote_socket,
        guest_transport(pid),
    ] + remote_command
}

/// The arguments with which the runtime starts a relay over a published socket.
pub fn publish_relay_arguments(
    container: &RelayContainer,
    relay: &WaypipeRelayArgs,
    host_transport: &str,
    host_audio: &Option<String>,
    pid: u32,
) -> (result: Vec<String>)
    ensures
        result.deep_view() == publish_relay_line(
            container,
            host_transport@,
            host_audio.deep_view(),
            pid,
            relay.remote_socket@,
            relay.remote_command.deep_view(),
        ),
{
    let directory = concat("XDG_RUNTIME_DIR=", default_guest_runtime_dir());
    let transport = guest_transport_socket(pid);
    let published = concat3(host_transport, ":", transport.as_str());
    let mut result = strings(
        &[
            "run",
            "--rm",
            "--name",
            container.name.as_str(),
            "--publish-socket",
            published.as_str(),
            "--env",
            directory.as_str(),
        ],
    );
    let ghost first = result.deep_view();
    if let Some(host_audio) = host_audio {
        let audio = guest_audio_socket(pid);
        let published_audio = concat3(host_audio.as_str(), ":", audio.as_str());
        let variable = concat("COCOA_WAY_AUDIO_SOCKET=", audio.as_str());
        let settings = strings(
            &["--publish-socket", published_audio.as_str(), "--env", variable.as_str()],
        );
        extend(&mut result, &settings);
    }
    assert(result.deep_view() == first + audio_settings(host_audio.deep_view(), pid));
    extend_settings(&mut result, container);
    let program = strings(
        &[
            container.image.as_str(),
            "perl",
            "-e",
            guest_publish_socket_relay_perl(),
            relay.remote_socket.as_str(),
            transport.as_str(),
        ],
    );
    extend(&mut result, &program);
    extend(&mut result, &relay.remote_command);
    assert(result.deep_view() == publish_relay_line(
        container,
        host_transport@,
        host_audio.deep_view(),
        pid,
        relay.remote_socket@,
        relay.remote_command.deep_view(),
    ));
    result
}

// ---------------------------------------------------------------------------
// Readiness of the published socket
// ---------------------------------------------------------------------------
/// What came over the control channel of a container.
#[derive(Debug)]
pub enum ControlEvent {
    Line(String),
    ReadFailed(String),
    End,
}

/// What is done about it.
#[derive(Debug)]
pub enum ControlStep {
    /// The listener is ready.
    Ready,
    /// The line is the container's own output.
    Print(String),
    /// The listener will not become ready.
    Fail(String),
    /// Nothing; the channel has ended after the listener became ready.
    Stop,
}

/// Decides on an event of the control channel, after which the listener is
/// known to be ready where `ready` is set.
pub fn control_step(ready: bool, event: ControlEvent) -> (result: (bool, ControlStep))
    ensures
        match event {
            ControlEvent::Line(line) => if line@ == RELAY_V2_READY_LINE@ {
                result.0 && result.1 is Ready
            } else {
                result.0 == ready && (result.1 matches ControlStep::Print(shown) && shown@ == line@)
            },
            ControlEvent::ReadFailed(error) => {
                &&& result.0 == ready
                &&& if ready {
                    result.1 is Stop
                } else {
                    result.1 matches ControlStep::Fail(message) && message@
                        == "failed to read container transport readiness: "@ + error@
                }
            },
            ControlEvent::End => {
                &&& result.0 == ready
                &&& if ready {
                    result.1 is Stop
                } else {
                    result.1 matches ControlStep::Fail(message) && message@
                        == "container exited before its publish-socket listener became ready"@
                }
            },
        },
{
    match event {
        ControlEvent::Line(line) => if same(line.as_str(), RELAY_V2_READY_LINE) {
            (true, ControlStep::Ready)
        } else {
            (ready, ControlStep::Print(line))
        },
        ControlEvent::ReadFailed(error) => if ready {
            (ready, ControlStep::Stop)
        } else {
            (
                ready,
                ControlStep::Fail(
                    concat("failed to read container transport readiness: ", error.as_str()),
                ),
            )
        },
        ControlEvent::End => if ready {
            (ready, ControlStep::Stop)
        } else {
            (
                ready,
                ControlStep::Fail(
                    "container exited before its publish-socket listener became ready".to_owned(),
                ),
            )
        },
    }
}

/// The message for a local socket that could not be reached in time.
pub fn connect_failure(path: &str, last_error: Option<&str>) -> (result: String)
    ensures
        result@ == "failed to connect local waypipe socket `"@ + path@ + "`: "@ + (match last_error {
            Some(error) => error@,
            None => "timed out"@,
        }),
{
    let reason = match last_error {
        Some(error) => error,
        None => "timed out",
    };
    concat4("failed to connect local waypipe socket `", path, "`: ", reason)
}

/// The message for a published socket that could not be reached in time.
pub fn published_connect_failure(path: &str, last_error: Option<&str>) -> (result: String)
    ensures
        result@ == "timed out connecting to published transport socket `"@ + path@ + "`: "@ + (
        match last_error {
            Some(error) => error@,
            None => "socket was not created"@,
        }),
{
    let reason = match last_error {
        Some(error) => error,
        None => "socket was not created",
    };
    concat4("timed out connecting to published transport socket `", path, "`: ", reason)
}

} // verus!
