//! Saved container sessions: their names, their commands, and what is wrong
//! with them.
use vstd::prelude::*;
use vstd::string::*;

use crate::presentation::{presentation_of, PresentationMode};
use crate::relay_launch::{
    default_guest_runtime_dir, guest_runtime_dir, name_hash, stable_name_hash, UNIX_SOCKET_PATH_BYTES,
    WAYPIPE_CLIENT_SUFFIX_RESERVE,
};
use crate::runtime_paths::{file_name, final_name, quoted, shell_single_quote};
use crate::text::{
    chars_of, concat, concat3, concat4, concat5, concat6, concat7, contains, contains_char,
    copy_list, copy_option, count_text, decimal, decimal_text, drop_empty, empty_list, has_control,
    hexadecimal, hexadecimal_text, is_alphanumeric, is_ascii_alphanumeric, is_text, join, joined,
    lemma_deep_push, lowered, occurs, pieces, present, present_text, push_text, same, split_first,
    split_once, split_whitespace, to_ascii_lowercase, without_empty, words_of, any_control,
};

verus! {

/// A saved application: what runs in which container, and how it is shown.
#[derive(Debug)]
pub struct ContainerSession {
    pub name: String,
    pub image: String,
    pub runtime: String,
    pub display: Option<String>,
    pub presentation: Option<String>,
    pub profile: Option<String>,
    pub app: Option<String>,
    pub command: Option<String>,
    pub socket: Option<String>,
    pub container_socket: Option<String>,
    pub waypipe_path: Option<String>,
    pub waypipe_compress: Option<String>,
    pub waypipe_threads: Option<usize>,
    pub audio: bool,
    pub runtime_args: Vec<String>,
    pub mounts: Vec<String>,
    pub env: Vec<String>,
}

/// What a session holds, as text.
#[verifier::ext_equal]
pub struct SessionView {
    pub name: Seq<char>,
    pub image: Seq<char>,
    pub runtime: Seq<char>,
    pub display: Option<Seq<char>>,
    pub presentation: Option<Seq<char>>,
    pub profile: Option<Seq<char>>,
    pub app: Option<Seq<char>>,
    pub command: Option<Seq<char>>,
    pub socket: Option<Seq<char>>,
    pub container_socket: Option<Seq<char>>,
    pub waypipe_path: Option<Seq<char>>,
    pub waypipe_compress: Option<Seq<char>>,
    pub waypipe_threads: Option<usize>,
    pub audio: bool,
    pub runtime_args: Seq<Seq<char>>,
    pub mounts: Seq<Seq<char>>,
    pub env: Seq<Seq<char>>,
}

impl DeepView for ContainerSession {
    type V = SessionView;

    open spec fn deep_view(&self) -> SessionView {
        SessionView {
            name: self.name@,
            image: self.image@,
            runtime: self.runtime@,
            display: self.display.deep_view(),
            presentation: self.presentation.deep_view(),
            profile: self.profile.deep_view(),
            app: self.app.deep_view(),
            command: self.command.deep_view(),
            socket: self.socket.deep_view(),
            container_socket: self.container_socket.deep_view(),
            waypipe_path: self.waypipe_path.deep_view(),
            waypipe_compress: self.waypipe_compress.deep_view(),
            waypipe_threads: self.waypipe_threads,
            audio: self.audio,
            runtime_args: self.runtime_args.deep_view(),
            mounts: self.mounts.deep_view(),
            env: self.env.deep_view(),
        }
    }
}

impl Clone for ContainerSession {
    fn clone(&self) -> (result: Self)
        ensures
            result.deep_view() == self.deep_view(),
    {
        ContainerSession {
            name: self.name.clone(),
            image: self.image.clone(),
            runtime: self.runtime.clone(),
            display: copy_option(&self.display),
            presentation: copy_option(&self.presentation),
            profile: copy_option(&self.profile),
            app: copy_option(&self.app),
            command: copy_option(&self.command),
            socket: copy_option(&self.socket),
            container_socket: copy_option(&self.container_socket),
            waypipe_path: copy_option(&self.waypipe_path),
            waypipe_compress: copy_option(&self.waypipe_compress),
            waypipe_threads: self.waypipe_threads,
            audio: self.audio,
            runtime_args: copy_list(&self.runtime_args),
            mounts: copy_list(&self.mounts),
            env: copy_list(&self.env),
        }
    }
}

impl ContainerSession {
    pub fn presentation_mode(&self) -> (result: PresentationMode)
        ensures
            result == presentation_of(self.presentation.deep_view()),
    {
        match &self.presentation {
            Some(value) => PresentationMode::parse(Some(value.as_str())),
            None => PresentationMode::parse(None),
        }
    }
}

/// The runtime of a session that names none.
pub fn default_runtime() -> (result: &'static str)
    ensures
        result@ == "container"@,
{
    "container"
}

/// Whether a session that does not say has audio.
pub fn default_audio() -> (result: bool)
    ensures
        result,
{
    true
}

/// An entry of the file in which sessions are saved: a session that may leave
/// most of its fields out.
#[derive(Debug)]
pub struct SessionEntry {
    pub name: String,
    pub image: String,
    pub runtime: Option<String>,
    pub display: Option<String>,
    pub presentation: Option<String>,
    pub profile: Option<String>,
    pub app: Option<String>,
    pub command: Option<String>,
    pub socket: Option<String>,
    pub container_socket: Option<String>,
    pub waypipe_path: Option<String>,
    pub waypipe_compress: Option<String>,
    pub waypipe_threads: Option<usize>,
    pub audio: Option<bool>,
    pub runtime_args: Option<Vec<String>>,
    pub mounts: Option<Vec<String>>,
    pub env: Option<Vec<String>>,
}

/// What a list that may be left out holds.
pub open spec fn list_of(list: Option<Vec<String>>) -> Seq<Seq<char>> {
    match list {
        Some(list) => list.deep_view(),
        None => Seq::empty(),
    }
}

fn list_or_empty(list: Option<Vec<String>>) -> (result: Vec<String>)
    ensures
        result.deep_view() == list_of(list),
{
    match list {
        Some(list) => list,
        None => empty_list(),
    }
}

/// The session that an entry stands for: what is left out has its default.
pub fn session_of_entry(entry: SessionEntry) -> (result: ContainerSession)
    ensures
        result.deep_view() == (SessionView {
            name: entry.name@,
            image: entry.image@,
            runtime: match entry.runtime {
                Some(runtime) => runtime@,
                None => "container"@,
            },
            display: entry.display.deep_view(),
            presentation: entry.presentation.deep_view(),
            profile: entry.profile.deep_view(),
            app: entry.app.deep_view(),
            command: entry.command.deep_view(),
            socket: entry.socket.deep_view(),
            container_socket: entry.container_socket.deep_view(),
            waypipe_path: entry.waypipe_path.deep_view(),
            waypipe_compress: entry.waypipe_compress.deep_view(),
            waypipe_threads: entry.waypipe_threads,
            audio: match entry.audio {
                Some(audio) => audio,
                None => true,
            },
            runtime_args: list_of(entry.runtime_args),
            mounts: list_of(entry.mounts),
            env: list_of(entry.env),
        }),
{
    ContainerSession {
        name: entry.name,
        image: entry.image,
        runtime: match entry.runtime {
            Some(runtime) => runtime,
            None => default_runtime().to_owned(),
        },
        display: entry.display,
        presentation: entry.presentation,
        profile: entry.profile,
        app: entry.app,
        command: entry.command,
        socket: entry.socket,
        container_socket: entry.container_socket,
        waypipe_path: entry.waypipe_path,
        waypipe_compress: entry.waypipe_compress,
        waypipe_threads: entry.waypipe_threads,
        audio: match entry.audio {
            Some(audio) => audio,
            None => default_audio(),
        },
        runtime_args: list_or_empty(entry.runtime_args),
        mounts: list_or_empty(entry.mounts),
        env: list_or_empty(entry.env),
    }
}

/// The sessions of the configuration, or why there are none.
#[derive(Debug)]
pub struct SessionLoadReport {
    pub sessions: Vec<ContainerSession>,
    pub error: Option<String>,
}

/// What became of the configuration file.
#[derive(Debug)]
pub enum ConfigRead {
    /// It could not be read; an example was written in its place.
    Missing,
    /// It was read and holds these sessions.
    Parsed(Vec<ContainerSession>),
    /// It was read and makes no sense, for this reason.
    Malformed(String),
}

/// The report on a configuration file: a file that is missing holds no
/// sessions, and is no error.
pub fn load_sessions_report(read: ConfigRead, path: &str) -> (result: SessionLoadReport)
    ensures
        match read {
            ConfigRead::Missing => result.sessions@.len() == 0 && result.error is None,
            ConfigRead::Parsed(sessions) => result.sessions == sessions && result.error is None,
            ConfigRead::Malformed(reason) => {
                &&& result.sessions@.len() == 0
                &&& result.error.deep_view() == Some(
                    "Failed to parse "@ + path@ + ": "@ + reason@,
                )
            },
        },
{
    match read {
        ConfigRead::Missing => SessionLoadReport { sessions: Vec::new(), error: None },
        ConfigRead::Parsed(sessions) => SessionLoadReport { sessions, error: None },
        ConfigRead::Malformed(reason) => SessionLoadReport {
            sessions: Vec::new(),
            error: Some(concat4("Failed to parse ", path, ": ", reason.as_str())),
        },
    }
}

/// The sessions of a configuration file; none if it is missing or malformed.
pub fn load_sessions(read: ConfigRead, path: &str) -> (result: Vec<ContainerSession>)
    ensures
        match read {
            ConfigRead::Parsed(sessions) => result == sessions,
            _ => result@.len() == 0,
        },
{
    load_sessions_report(read, path).sessions
}

// ---------------------------------------------------------------------------
// Errors
// ---------------------------------------------------------------------------
/// Why a session cannot be launched.
#[derive(Debug)]
pub enum LaunchError {
    MissingCommand { command: String, hint: String },
    InvalidSocketPath { host_socket: String },
    CreateSocketDir { dir: String, source: String },
    StartContainer { session: String, source: String },
    RuntimeNotReady { runtime: String, hint: String },
    ImageUnavailable { runtime: String, image: String, hint: String },
    ImageNotGuiReady { runtime: String, image: String, hint: String },
    ContainerAlreadyRunning { runtime: String, container_name: String, hint: String },
    UnsupportedDisplay { display: String, hint: String },
    SocketTimeout { host_socket: String },
    StartWaypipe { source: String },
}

/// What a launch error holds, as text.
pub enum LaunchErrorView {
    MissingCommand { command: Seq<char>, hint: Seq<char> },
    InvalidSocketPath { host_socket: Seq<char> },
    CreateSocketDir { dir: Seq<char>, source: Seq<char> },
    StartContainer { session: Seq<char>, source: Seq<char> },
    RuntimeNotReady { runtime: Seq<char>, hint: Seq<char> },
    ImageUnavailable { runtime: Seq<char>, image: Seq<char>, hint: Seq<char> },
    ImageNotGuiReady { runtime: Seq<char>, image: Seq<char>, hint: Seq<char> },
    ContainerAlreadyRunning { runtime: Seq<char>, container_name: Seq<char>, hint: Seq<char> },
    UnsupportedDisplay { display: Seq<char>, hint: Seq<char> },
    SocketTimeout { host_socket: Seq<char> },
    StartWaypipe { source: Seq<char> },
}

impl DeepView for LaunchError {
    type V = LaunchErrorView;

    open spec fn deep_view(&self) -> LaunchErrorView {
        match self {
            LaunchError::MissingCommand { command, hint } => LaunchErrorView::MissingCommand {
                command: command@,
                hint: hint@,
            },
            LaunchError::InvalidSocketPath { host_socket } => LaunchErrorView::InvalidSocketPath {
                host_socket: host_socket@,
            },
            LaunchError::CreateSocketDir { dir, source } => LaunchErrorView::CreateSocketDir {
                dir: dir@,
                source: source@,
            },
            LaunchError::StartContainer { session, source } => LaunchErrorView::StartContainer {
                session: session@,
                source: source@,
            },
            LaunchError::RuntimeNotReady { runtime, hint } => LaunchErrorView::RuntimeNotReady {
                runtime: runtime@,
                hint: hint@,
            },
            LaunchError::ImageUnavailable { runtime, image, hint } => {
                LaunchErrorView::ImageUnavailable {
                    runtime: runtime@,
                    image: image@,
                    hint: hint@,
                }
            },
            LaunchError::ImageNotGuiReady { runtime, image, hint } => {
                LaunchErrorView::ImageNotGuiReady {
                    runtime: runtime@,
                    image: image@,
                    hint: hint@,
                }
            },
            LaunchError::ContainerAlreadyRunning { runtime, container_name, hint } => {
                LaunchErrorView::ContainerAlreadyRunning {
                    runtime: runtime@,
                    container_name: container_name@,
                    hint: hint@,
                }
            },
            LaunchError::UnsupportedDisplay { display, hint } => {
                LaunchErrorView::UnsupportedDisplay { display: display@, hint: hint@ }
            },
            LaunchError::SocketTimeout { host_socket } => LaunchErrorView::SocketTimeout {
                host_socket: host_socket@,
            },
            LaunchError::StartWaypipe { source } => LaunchErrorView::StartWaypipe {
                source: source@,
            },
        }
    }
}

/// What the user reads of a launch error.
pub open spec fn launch_error_text(error: LaunchErrorView) -> Seq<char> {
    match error {
        LaunchErrorView::MissingCommand { command, hint } => "Missing command '"@ + command + "'. "@
            + hint,
        LaunchErrorView::InvalidSocketPath { host_socket } => "Invalid host socket path '"@
            + host_socket + "'. Keep the base path below "@ + decimal(75)
            + " bytes so waypipe can create its derived client sockets on macOS."@,
        LaunchErrorView::CreateSocketDir { dir, source } => "Failed to create socket directory '"@
            + dir + "': "@ + source,
        LaunchErrorView::StartContainer { session, source } => "Failed to start container session '"@
            + session + "': "@ + source,
        LaunchErrorView::RuntimeNotReady { runtime, hint } => runtime + " is not ready. "@ + hint,
        LaunchErrorView::ImageUnavailable { runtime, image, hint } => runtime + " image '"@ + image
            + "' is not available locally. "@ + hint,
        LaunchErrorView::ImageNotGuiReady { runtime, image, hint } => runtime + " image '"@ + image
            + "' is not GUI-ready. "@ + hint,
        LaunchErrorView::ContainerAlreadyRunning { runtime, container_name, hint } => runtime
            + " session container '"@ + container_name + "' is already running. "@ + hint,
        LaunchErrorView::UnsupportedDisplay { display, hint } => "Display '"@ + display
            + "' is not available. "@ + hint,
        LaunchErrorView::SocketTimeout { host_socket } => "Timed out waiting for container socket at '"@
            + host_socket + "'"@,
        LaunchErrorView::StartWaypipe { source } => "Failed to start waypipe client: "@ + source,
    }
}

impl LaunchError {
    pub fn to_string(&self) -> (result: String)
        ensures
            result@ == launch_error_text(self.deep_view()),
    {
        match self {
            LaunchError::MissingCommand { command, hint } => concat4(
                "Missing command '",
                command.as_str(),
                "'. ",
                hint.as_str(),
            ),
            LaunchError::InvalidSocketPath { host_socket } => {
                let limit = count_text(UNIX_SOCKET_PATH_BYTES - WAYPIPE_CLIENT_SUFFIX_RESERVE);
                concat5(
                    "Invalid host socket path '",
                    host_socket.as_str(),
                    "'. Keep the base path below ",
                    limit.as_str(),
                    " bytes so waypipe can create its derived client sockets on macOS.",
                )
            },
            LaunchError::CreateSocketDir { dir, source } => concat4(
                "Failed to create socket directory '",
                dir.as_str(),
                "': ",
                source.as_str(),
            ),
            LaunchError::StartContainer { session, source } => concat4(
                "Failed to start container session '",
                session.as_str(),
                "': ",
                source.as_str(),
            ),
            LaunchError::RuntimeNotReady { runtime, hint } => concat3(
                runtime.as_str(),
                " is not ready. ",
                hint.as_str(),
            ),
            LaunchError::ImageUnavailable { runtime, image, hint } => concat5(
                runtime.as_str(),
                " image '",
                image.as_str(),
                "' is not available locally. ",
                hint.as_str(),
            ),
            LaunchError::ImageNotGuiReady { runtime, image, hint } => concat5(
                runtime.as_str(),
                " image '",
                image.as_str(),
                "' is not GUI-ready. ",
                hint.as_str(),
            ),
            LaunchError::ContainerAlreadyRunning { runtime, container_name, hint } => concat5(
                runtime.as_str(),
                " session container '",
                container_name.as_str(),
                "' is already running. ",
                hint.as_str(),
            ),
            LaunchError::UnsupportedDisplay { display, hint } => concat4(
                "Display '",
                display.as_str(),
                "' is not available. ",
                hint.as_str(),
            ),
            LaunchError::SocketTimeout { host_socket } => concat3(
                "Timed out waiting for container socket at '",
                host_socket.as_str(),
                "'",
            ),
            LaunchError::StartWaypipe { source } => concat(
                "Failed to start waypipe client: ",
                source.as_str(),
            ),
        }
    }

    pub fn is_apple_container_transport_blocked(&self) -> (result: bool)
        ensures
            result == (self.deep_view() matches LaunchErrorView::RuntimeNotReady { runtime, .. }
                && occurs(runtime, "Apple Container GUI transport"@)),
    {
        match self {
            LaunchError::RuntimeNotReady { runtime, .. } => contains(
                runtime.as_str(),
                "Apple Container GUI transport",
            ),
            _ => false,
        }
    }

    pub fn is_container_already_running(&self) -> (result: bool)
        ensures
            result == (self is ContainerAlreadyRunning),
    {
        match self {
            LaunchError::ContainerAlreadyRunning { .. } => true,
            _ => false,
        }
    }

    pub fn is_unsupported_display(&self) -> (result: bool)
        ensures
            result == (self is UnsupportedDisplay),
    {
        match self {
            LaunchError::UnsupportedDisplay { .. } => true,
            _ => false,
        }
    }
}

// ---------------------------------------------------------------------------
// Runtimes
// ---------------------------------------------------------------------------
#[derive(Debug, Clone, Copy, PartialEq, Eq, Structural)]
pub enum ContainerRuntime {
    Apple,
    Docker,
    OrbStack,
}

/// The runtime that a name stands for: Apple's, unless it names another.
pub open spec fn runtime_of(name: Seq<char>) -> ContainerRuntime {
    if name == "docker"@ {
        ContainerRuntime::Docker
    } else if name == "orb"@ || name == "orbstack"@ {
        ContainerRuntime::OrbStack
    } else {
        ContainerRuntime::Apple
    }
}

pub fn normalize_container_runtime(runtime: &str) -> (result: ContainerRuntime)
    ensures
        result == runtime_of(runtime@),
{
    if same(runtime, "docker") {
        ContainerRuntime::Docker
    } else if same(runtime, "orb") || same(runtime, "orbstack") {
        ContainerRuntime::OrbStack
    } else {
        ContainerRuntime::Apple
    }
}

pub open spec fn binary_of(runtime: ContainerRuntime) -> Seq<char> {
    match runtime {
        ContainerRuntime::Docker => "docker"@,
        ContainerRuntime::OrbStack => "orb"@,
        ContainerRuntime::Apple => "container"@,
    }
}

/// The command that runs a runtime.
pub fn runtime_binary_name(runtime: &str) -> (result: &'static str)
    ensures
        result@ == binary_of(runtime_of(runtime@)),
{
    match normalize_container_runtime(runtime) {
        ContainerRuntime::Docker => "docker",
        ContainerRuntime::OrbStack => "orb",
        ContainerRuntime::Apple => "container",
    }
}

pub open spec fn label_of(runtime: ContainerRuntime) -> Seq<char> {
    match runtime {
        ContainerRuntime::Docker => "Docker"@,
        ContainerRuntime::OrbStack => "OrbStack"@,
        ContainerRuntime::Apple => "Apple Container"@,
    }
}

/// What the user reads of a runtime.
pub fn runtime_label(runtime: &str) -> (result: &'static str)
    ensures
        result@ == label_of(runtime_of(runtime@)),
{
    match normalize_container_runtime(runtime) {
        ContainerRuntime::Docker => "Docker",
        ContainerRuntime::OrbStack => "OrbStack",
        ContainerRuntime::Apple => "Apple Container",
    }
}

pub fn is_apple_container_session(session: &ContainerSession) -> (result: bool)
    ensures
        result == (runtime_of(session.runtime@) == ContainerRuntime::Apple),
{
    match normalize_container_runtime(session.runtime.as_str()) {
        ContainerRuntime::Apple => true,
        _ => false,
    }
}

// ---------------------------------------------------------------------------
// Names
// ---------------------------------------------------------------------------
/// The test for a character that separates the parts of a name.
pub open spec fn is_name_break() -> spec_fn(char) -> bool {
    |c: char| !is_alphanumeric(c)
}

/// The runs of letters and digits of a name, in lower case.
pub open spec fn name_parts(name: Seq<char>) -> Seq<Seq<char>> {
    without_empty(pieces(lowered(name), is_name_break()))
}

/// A name as letters and digits with single hyphens between its parts; the
/// fallback if it has no parts.
pub open spec fn slug_of(name: Seq<char>, fallback: Seq<char>) -> Seq<char> {
    let slug = joined(name_parts(name), "-"@);
    if slug.len() == 0 {
        fallback
    } else {
        slug
    }
}

/// Splits a name into its parts and joins them with hyphens.
pub fn slug_text(name: &str, fallback: &str) -> (result: String)
    ensures
        result@ == slug_of(name@, fallback@),
{
    broadcast use lemma_deep_push;

    let lowercase = to_ascii_lowercase(name);
    let chars = chars_of(lowercase.as_str());
    let ghost text = lowered(name@);
    let ghost separates = is_name_break();
    let mut done: Vec<String> = Vec::new();
    let mut current = String::new();
    assert(done.deep_view().push(current@) == seq![Seq::<char>::empty()]);
    for i in 0..chars.len()
        invariant
            chars@ == text,
            separates == is_name_break(),
            done.deep_view().push(current@) == pieces(text.take(i as int), separates),
    {
        assert(text.take(i + 1).drop_last() == text.take(i as int));
        let ghost before = done.deep_view().push(current@);
        assert(before.drop_last() == done.deep_view());
        if is_ascii_alphanumeric(chars[i]) {
            current.push(chars[i]);
        } else {
            done.push(current);
            current = String::new();
        }
    }
    assert(text.take(text.len() as int) == text);
    done.push(current);
    let parts = drop_empty(done);
    let slug = join(&parts, "-");
    if slug.as_str().is_empty() {
        fallback.to_owned()
    } else {
        slug
    }
}

pub fn slugify(name: &str) -> (result: String)
    ensures
        result@ == slug_of(name@, "container"@),
{
    slug_text(name, "container")
}

pub open spec fn container_name_of(name: Seq<char>) -> Seq<char> {
    "cocoa-way-"@ + slug_of(name, "container"@)
}

/// The name of the container of a session.
pub fn container_name(session: &ContainerSession) -> (result: String)
    ensures
        result@ == container_name_of(session.name@),
{
    let slug = slugify(session.name.as_str());
    concat("cocoa-way-", slug.as_str())
}

pub open spec fn short_socket(uid: u32, pid: u32, name: Seq<char>) -> Seq<char> {
    let slug = slug_of(name, "container"@);
    "/tmp/cw-"@ + decimal(uid as nat) + "-"@ + decimal(pid as nat) + "/"@ + slug.take(
        if slug.len() < 24 {
            slug.len() as int
        } else {
            24
        },
    ) + "-"@ + hexadecimal((name_hash(name) % 0x1_0000_0000) as nat, 8) + ".sock"@
}

/// The socket of a session that names none: in a directory of the user and the
/// process, with a name that is short and its own.
pub fn default_container_socket(_runtime_dir: &str, name: &str, uid: u32, pid: u32) -> (result:
    String)
    ensures
        result@ == short_socket(uid, pid, name@),
{
    let slug = slugify(name);
    let count: usize = slug.as_str().unicode_len();
    let kept: usize = if count < 24 {
        count
    } else {
        24
    };
    assert(slug@.take(kept as int) == slug@.subrange(0, kept as int));
    let user = decimal_text(uid as u128);
    let process = decimal_text(pid as u128);
    let hash = hexadecimal_text(stable_name_hash(name) % 0x1_0000_0000, 8);
    let mut result = concat5("/tmp/cw-", user.as_str(), "-", process.as_str(), "/");
    result.append(slug.as_str().substring_char(0, kept));
    result.append("-");
    result.append(hash.as_str());
    result.append(".sock");
    result
}

/// The socket inside the container of a session that names none.
pub open spec fn container_socket_of(host_socket: Seq<char>, runtime: ContainerRuntime) -> Seq<char> {
    match runtime {
        ContainerRuntime::Apple => "/tmp/cocoa-way/waypipe.sock"@,
        _ => host_socket,
    }
}

pub fn default_container_socket_path(host_socket: &str, runtime: ContainerRuntime) -> (result:
    String)
    ensures
        result@ == container_socket_of(host_socket@, runtime),
{
    match runtime {
        ContainerRuntime::Apple => "/tmp/cocoa-way/waypipe.sock".to_owned(),
        _ => host_socket.to_owned(),
    }
}

// ---------------------------------------------------------------------------
// Commands
// ---------------------------------------------------------------------------
/// The command of a session: its own, else that of its profile, else its
/// application, else a terminal.
pub open spec fn command_of(session: SessionView) -> Seq<char> {
    match session.command {
        Some(command) => command,
        None => if session.profile == Some("niri"@) {
            "niri"@
        } else if session.profile == Some("shell"@) {
            "sh"@
        } else {
            match session.app {
                Some(app) => app,
                None => "weston-terminal"@,
            }
        },
    }
}

pub fn session_command(session: &ContainerSession) -> (result: String)
    ensures
        result@ == command_of(session.deep_view()),
{
    match &session.command {
        Some(command) => command.clone(),
        None => if is_text(&session.profile, "niri") {
            "niri".to_owned()
        } else if is_text(&session.profile, "shell") {
            "sh".to_owned()
        } else {
            match &session.app {
                Some(app) => app.clone(),
                None => "weston-terminal".to_owned(),
            }
        },
    }
}

/// Whether a character is a quotation mark.
pub open spec fn is_quote(c: char) -> bool {
    c == '"' || c == '\''
}

pub open spec fn unquoted_start(text: Seq<char>) -> Seq<char>
    decreases text.len(),
{
    if text.len() > 0 && is_quote(text.first()) {
        unquoted_start(text.drop_first())
    } else {
        text
    }
}

pub open spec fn unquoted_end(text: Seq<char>) -> Seq<char>
    decreases text.len(),
{
    if text.len() > 0 && is_quote(text.last()) {
        unquoted_end(text.drop_last())
    } else {
        text
    }
}

/// A text without the quotation marks at either end.
pub open spec fn unquoted(text: Seq<char>) -> Seq<char> {
    unquoted_end(unquoted_start(text))
}

fn trim_quotes(text: &str) -> (result: String)
    ensures
        result@ == unquoted(text@),
{
    let chars = chars_of(text);
    let mut from: usize = 0;
    assert(text@.skip(0) == text@);
    while from < chars.len() && (chars[from] == '"' || chars[from] == '\'')
        invariant
            from <= chars.len(),
            chars@ == text@,
            unquoted_start(text@) == unquoted_start(text@.skip(from as int)),
        decreases chars.len() - from,
    {
        assert(text@.skip(from as int).drop_first() == text@.skip(from + 1));
        from += 1;
    }
    let ghost rest = text@.skip(from as int);
    let mut to: usize = chars.len();
    assert(rest.take(to - from) == rest);
    while to > from && (chars[to - 1] == '"' || chars[to - 1] == '\'')
        invariant
            from <= to <= chars.len(),
            chars@ == text@,
            rest == text@.skip(from as int),
            unquoted_end(rest) == unquoted_end(rest.take(to - from)),
        decreases to - from,
    {
        assert(rest.take(to - from).drop_last() == rest.take(to - 1 - from));
        to -= 1;
    }
    assert(rest.take(to - from) == text@.subrange(from as int, to as int));
    text.substring_char(from, to).to_owned()
}

/// The program that a command starts: the first word without its quotation
/// marks. None if that is an assignment, a shell, or another word that stands
/// for a further command.
pub open spec fn command_binary_of(command: Seq<char>) -> Option<Seq<char>> {
    let words = words_of(command);
    if words.len() == 0 {
        None
    } else {
        let first = unquoted(words[0]);
        if first.len() == 0 || first.contains('=') || first == "exec"@ || first == "env"@ || first
            == "sh"@ || first == "bash"@ {
            None
        } else {
            Some(first)
        }
    }
}

pub fn session_command_binary(session: &ContainerSession) -> (result: Option<String>)
    ensures
        result.deep_view() == command_binary_of(command_of(session.deep_view())),
{
    let command = session_command(session);
    let words = split_whitespace(command.as_str());
    if words.len() == 0 {
        return None;
    }
    let first = trim_quotes(words[0].as_str());
    let text = first.as_str();
    if text.is_empty() || contains_char(text, '=') || same(text, "exec") || same(text, "env")
        || same(text, "sh") || same(text, "bash") {
        None
    } else {
        Some(first)
    }
}

pub open spec fn terminal_command_of(session: SessionView) -> Seq<char> {
    binary_of(runtime_of(session.runtime)) + " exec -it "@ + quoted(
        container_name_of(session.name),
    ) + " sh -lc "@ + quoted("exec ${SHELL:-/bin/sh}"@)
}

/// The command that opens a shell in the container of a session.
pub fn terminal_command(session: &ContainerSession) -> (result: String)
    ensures
        result@ == terminal_command_of(session.deep_view()),
{
    let runtime = runtime_binary_name(session.runtime.as_str());
    let name = shell_single_quote(container_name(session).as_str());
    let shell = shell_single_quote("exec ${SHELL:-/bin/sh}");
    concat5(runtime, " exec -it ", name.as_str(), " sh -lc ", shell.as_str())
}

/// The compression of a session: its own, else none for Apple's runtime.
pub open spec fn compression_of(session: SessionView, runtime: ContainerRuntime) -> Option<Seq<char>> {
    match present(session.waypipe_compress) {
        Some(compress) => Some(compress),
        None => if runtime == ContainerRuntime::Apple {
            Some("none"@)
        } else {
            None
        },
    }
}

pub open spec fn tuning_of(session: SessionView, runtime: ContainerRuntime) -> Seq<Seq<char>> {
    (match compression_of(session, runtime) {
        Some(compress) => seq!["--compress"@, compress],
        None => Seq::empty(),
    }) + (match session.waypipe_threads {
        Some(threads) => seq!["--threads"@, decimal(threads as nat)],
        None => Seq::empty(),
    })
}

/// The arguments of waypipe that tune it for a session.
pub fn waypipe_tuning_args(session: &ContainerSession, runtime: ContainerRuntime) -> (result: Vec<
    String,
>)
    ensures
        result.deep_view() == tuning_of(session.deep_view(), runtime),
{
    let mut args: Vec<String> = Vec::new();
    assert(args.deep_view() == Seq::<Seq<char>>::empty());
    match present_text(&session.waypipe_compress) {
        Some(compress) => {
            push_text(&mut args, "--compress");
            push_text(&mut args, compress.as_str());
        },
        None => {
            if let ContainerRuntime::Apple = runtime {
                push_text(&mut args, "--compress");
                push_text(&mut args, "none");
            }
        },
    }
    if let Some(threads) = session.waypipe_threads {
        let count = count_text(threads);
        push_text(&mut args, "--threads");
        push_text(&mut args, count.as_str());
    }
    assert(args.deep_view() == tuning_of(session.deep_view(), runtime));
    args
}

/// Whether a variable is among assignments of the form `NAME=value`.
pub open spec fn assigns(env: Seq<Seq<char>>, key: Seq<char>) -> bool {
    exists|i: int|
        0 <= i < env.len() && (split_first(#[trigger] env[i], '=') matches Some(pair) && pair.0
            == key)
}

pub fn has_env_key(env: &Vec<String>, key: &str) -> (result: bool)
    ensures
        result == assigns(env.deep_view(), key@),
{
    let ghost all = env.deep_view();
    for i in 0..env.len()
        invariant
            all == env.deep_view(),
            forall|j: int|
                0 <= j < i ==> !(split_first(#[trigger] all[j], '=') matches Some(pair) && pair.0
                    == key@),
    {
        assert(all[i as int] == env@[i as int]@);
        if let Some(pair) = split_once(env[i].as_str(), '=') {
            if same(pair.0, key) {
                return true;
            }
        }
    }
    false
}

/// The words of a command line, each quoted, with a space before each.
pub open spec fn shell_arguments(args: Seq<Seq<char>>) -> Seq<char> {
    if args.len() == 0 {
        Seq::empty()
    } else {
        " "@ + joined(args.map_values(|arg: Seq<char>| quoted(arg)), " "@)
    }
}

pub fn shell_args(args: &Vec<String>) -> (result: String)
    ensures
        result@ == shell_arguments(args.deep_view()),
{
    if args.len() == 0 {
        return String::new();
    }
    let ghost wanted = args.deep_view().map_values(|arg: Seq<char>| quoted(arg));
    let mut words: Vec<String> = Vec::new();
    assert(words.deep_view() == wanted.take(0));
    for i in 0..args.len()
        invariant
            wanted == args.deep_view().map_values(|arg: Seq<char>| quoted(arg)),
            words.deep_view() == wanted.take(i as int),
    {
        let word = shell_single_quote(args[i].as_str());
        push_text(&mut words, word.as_str());
        assert(wanted.take(i + 1) == wanted.take(i as int).push(quoted(args@[i as int]@)));
    }
    assert(wanted.take(wanted.len() as int) == wanted);
    let line = join(&words, " ");
    concat(" ", line.as_str())
}

pub open spec fn server_command(
    container_socket: Seq<char>,
    command: Seq<char>,
    waypipe_args: Seq<Seq<char>>,
) -> Seq<char> {
    let socket = quoted(container_socket);
    "export XDG_RUNTIME_DIR=${XDG_RUNTIME_DIR:-"@ + quoted(guest_runtime_dir())
        + "} && mkdir -p \"$XDG_RUNTIME_DIR\" $(dirname "@ + socket + ") && exec waypipe"@
        + shell_arguments(waypipe_args) + " --socket "@ + socket + " server sh -lc "@ + quoted(
        "sleep 0.35; exec "@ + command,
    )
}

/// The command that runs waypipe and the application inside a container.
pub fn build_server_command(container_socket: &str, command: &str, waypipe_args: &Vec<String>) -> (result: String)
    ensures
        result@ == server_command(container_socket@, command@, waypipe_args.deep_view()),
{
    let socket = shell_single_quote(container_socket);
    let delayed = concat("sleep 0.35; exec ", command);
    let command = shell_single_quote(delayed.as_str());
    let directory = shell_single_quote(default_guest_runtime_dir());
    let arguments = shell_args(waypipe_args);
    let mut result = concat6(
        "export XDG_RUNTIME_DIR=${XDG_RUNTIME_DIR:-",
        directory.as_str(),
        "} && mkdir -p \"$XDG_RUNTIME_DIR\" $(dirname ",
        socket.as_str(),
        ") && exec waypipe",
        arguments.as_str(),
    );
    result.append(" --socket ");
    result.append(socket.as_str());
    result.append(" server sh -lc ");
    result.append(command.as_str());
    result
}

/// Whether a name is that of a compositor that runs inside a session.
pub open spec fn is_compositor(name: Seq<char>) -> bool {
    name == "niri"@ || name == "hyprland"@ || name == "sway"@ || name == "wayfire"@ || name
        == "weston"@
}

fn compositor(name: &str) -> (result: bool)
    ensures
        result == is_compositor(name@),
{
    same(name, "niri") || same(name, "hyprland") || same(name, "sway") || same(name, "wayfire")
        || same(name, "weston")
}

pub open spec fn runs_compositor(session: SessionView) -> bool {
    ||| (session.profile matches Some(profile) && is_compositor(lowered(profile)))
    ||| (command_binary_of(command_of(session)) matches Some(command) && (final_name(
        command,
    ) matches Some(name) && is_compositor(lowered(name))))
}

/// Whether a session runs a compositor of its own, by its profile or by its
/// command.
pub fn uses_nested_wayland_compositor(session: &ContainerSession) -> (result: bool)
    ensures
        result == runs_compositor(session.deep_view()),
{
    if let Some(profile) = &session.profile {
        if compositor(to_ascii_lowercase(profile.as_str()).as_str()) {
            return true;
        }
    }
    match session_command_binary(session) {
        Some(command) => match file_name(command.as_str()) {
            Some(name) => compositor(to_ascii_lowercase(name.as_str()).as_str()),
            None => false,
        },
        None => false,
    }
}

pub open spec fn remote_gui_command(
    command: Seq<char>,
    bridge: bool,
    clipboard_relay: Seq<char>,
) -> Seq<char> {
    "sleep 0.35; if [ -n \"${COCOA_WAY_AUDIO_SOCKET:-}\" ] && [ -e /tmp/cocoa-way-audio.ready ]; then export PULSE_SERVER=\"unix:${XDG_RUNTIME_DIR:-/tmp/cocoa-way}/pulse/native\" PULSE_SINK=cocoa_way; fi; export MOZ_ENABLE_WAYLAND=${MOZ_ENABLE_WAYLAND:-1}; "@
        + (if bridge {
        "if command -v wl-paste >/dev/null 2>&1 && command -v wl-copy >/dev/null 2>&1 && command -v timeout >/dev/null 2>&1; then helper=$(mktemp \"${XDG_RUNTIME_DIR:-/tmp}/cocoa-way-clipboard-relay.XXXXXX\") && printf '%s' "@
            + quoted(clipboard_relay)
            + " > \"$helper\" && chmod 700 \"$helper\" && exec \"$helper\" sh -lc "@ + quoted(
            command,
        )
            + "; exit 1; else printf '%s\\n' 'cocoa-way: nested clipboard needs wl-clipboard and coreutils timeout' >&2; exec "@
            + command + "; fi"@
    } else {
        "exec "@ + command
    })
}

/// The command that starts an application in an Apple container. One that runs
/// a compositor of its own is started under the clipboard relay, whose program
/// is handed in.
pub fn apple_remote_gui_command(command: &str, bridge_nested_clipboard: bool, clipboard_relay: &str) -> (result: String)
    ensures
        result@ == remote_gui_command(command@, bridge_nested_clipboard, clipboard_relay@),
{
    let launch = if bridge_nested_clipboard {
        let relay = shell_single_quote(clipboard_relay);
        let inner = shell_single_quote(command);
        concat7(
            "if command -v wl-paste >/dev/null 2>&1 && command -v wl-copy >/dev/null 2>&1 && command -v timeout >/dev/null 2>&1; then helper=$(mktemp \"${XDG_RUNTIME_DIR:-/tmp}/cocoa-way-clipboard-relay.XXXXXX\") && printf '%s' ",
            relay.as_str(),
            " > \"$helper\" && chmod 700 \"$helper\" && exec \"$helper\" sh -lc ",
            inner.as_str(),
            "; exit 1; else printf '%s\\n' 'cocoa-way: nested clipboard needs wl-clipboard and coreutils timeout' >&2; exec ",
            command,
            "; fi",
        )
    } else {
        concat("exec ", command)
    };
    concat(
        "sleep 0.35; if [ -n \"${COCOA_WAY_AUDIO_SOCKET:-}\" ] && [ -e /tmp/cocoa-way-audio.ready ]; then export PULSE_SERVER=\"unix:${XDG_RUNTIME_DIR:-/tmp/cocoa-way}/pulse/native\" PULSE_SINK=cocoa_way; fi; export MOZ_ENABLE_WAYLAND=${MOZ_ENABLE_WAYLAND:-1}; ",
        launch.as_str(),
    )
}

// ---------------------------------------------------------------------------
// Validation
// ---------------------------------------------------------------------------
/// The display that a session asks for; `auto` if it asks for none.
pub open spec fn display_of(session: SessionView) -> Seq<char> {
    match present(session.display) {
        Some(display) => display,
        None => "auto"@,
    }
}

pub fn session_display(session: &ContainerSession) -> (result: String)
    ensures
        result@ == display_of(session.deep_view()),
{
    match present_text(&session.display) {
        Some(display) => display,
        None => "auto".to_owned(),
    }
}

pub open spec fn display_problem(session: SessionView) -> Option<LaunchErrorView> {
    if any_control(display_of(session)) {
        Some(
            LaunchErrorView::UnsupportedDisplay {
                display: display_of(session),
                hint: "Display names cannot contain control characters."@,
            },
        )
    } else {
        None
    }
}

/// Refuses a display whose name holds control characters.
pub fn validate_display_slot(session: &ContainerSession) -> (result: Result<(), LaunchError>)
    ensures
        match result {
            Ok(_) => display_problem(session.deep_view()) is None,
            Err(error) => display_problem(session.deep_view()) == Some(error.deep_view()),
        },
{
    let display = session_display(session);
    if has_control(display.as_str()) {
        return Err(
            LaunchError::UnsupportedDisplay {
                display,
                hint: "Display names cannot contain control characters.".to_owned(),
            },
        );
    }
    Ok(())
}

/// The name of the program that a command's first word starts, in lower case.
pub open spec fn program_of(command: Seq<char>) -> Seq<char> {
    match final_name(command) {
        Some(name) => lowered(name),
        None => lowered(command),
    }
}

pub open spec fn presentation_problem(session: SessionView) -> Option<LaunchErrorView> {
    if presentation_of(session.presentation) == PresentationMode::Desktop {
        None
    } else {
        match command_binary_of(command_of(session)) {
            None => None,
            Some(command) => if program_of(command) == "xterm"@ {
                Some(
                    LaunchErrorView::UnsupportedDisplay {
                        display: "rootless"@,
                        hint: "xterm is an X11 application, but Cocoa-Way rootless currently accepts native Wayland applications. Use foot for validation, or use desktop mode until Xwayland integration is available."@,
                    },
                )
            } else if program_of(command) == "niri"@ || program_of(command) == "hyprland"@ {
                Some(
                    LaunchErrorView::UnsupportedDisplay {
                        display: "rootless"@,
                        hint: command
                            + " is a desktop compositor. Select desktop presentation for compositor sessions; rootless presentation is for individual native Wayland applications."@,
                    },
                )
            } else {
                None
            },
        }
    }
}

/// Refuses to show without a desktop what cannot be shown so.
pub fn validate_presentation_command(session: &ContainerSession) -> (result: Result<(), LaunchError>)
    ensures
        match result {
            Ok(_) => presentation_problem(session.deep_view()) is None,
            Err(error) => presentation_problem(session.deep_view()) == Some(error.deep_view()),
        },
{
    if !session.presentation_mode().is_rootless() {
        return Ok(());
    }
    let command = match session_command_binary(session) {
        Some(command) => command,
        None => return Ok(()),
    };
    let program = match file_name(command.as_str()) {
        Some(name) => to_ascii_lowercase(name.as_str()),
        None => to_ascii_lowercase(command.as_str()),
    };
    if same(program.as_str(), "xterm") {
        return Err(
            LaunchError::UnsupportedDisplay {
                display: "rootless".to_owned(),
                hint: "xterm is an X11 application, but Cocoa-Way rootless currently accepts native Wayland applications. Use foot for validation, or use desktop mode until Xwayland integration is available.".to_owned(),
            },
        );
    }
    if same(program.as_str(), "niri") || same(program.as_str(), "hyprland") {
        return Err(
            LaunchError::UnsupportedDisplay {
                display: "rootless".to_owned(),
                hint: concat(
                    command.as_str(),
                    " is a desktop compositor. Select desktop presentation for compositor sessions; rootless presentation is for individual native Wayland applications.",
                ),
            },
        );
    }
    Ok(())
}

} // verus!
