//! Checking and launching a session: which question is asked next, and what
//! follows from the answers.
use vstd::prelude::*;
use vstd::string::*;

use crate::application_model::LaunchStep;
use crate::container_sessions::{
    apple_remote_gui_command, assigns, binary_of, build_server_command, command_binary_of,
    command_of, container_name, container_name_of, container_socket_of, default_container_socket,
    default_container_socket_path, display_problem, has_env_key, is_apple_container_session,
    label_of, normalize_container_runtime, presentation_problem, remote_gui_command,
    runs_compositor, runtime_binary_name, runtime_label, runtime_of, server_command,
    session_command, session_command_binary, short_socket, tuning_of,
    uses_nested_wayland_compositor, validate_display_slot, validate_presentation_command,
    waypipe_tuning_args, ContainerRuntime, ContainerSession, LaunchError, LaunchErrorView,
    SessionView,
};
use crate::relay::{listed, listed_lines};
use crate::relay_launch::{
    aux_host_socket, default_guest_runtime_dir, guest_runtime_dir, relay_audio_host_socket,
    UNIX_SOCKET_PATH_BYTES, WAYPIPE_CLIENT_SUFFIX_RESERVE,
};
use crate::runtime_paths::{parent, parent_of, quoted, shell_single_quote};
use crate::text::{
    concat, concat3, contains, extend, extend_flagged, flagged, join, joined, lines, lines_of,
    lossy, lossy_text, lower_case, occurs, outcome, push_text, same, split_whitespace, strings,
    to_lowercase, trim, trimmed, words_of,
};

verus! {

// ---------------------------------------------------------------------------
// What runtimes print
// ---------------------------------------------------------------------------
/// What a command left behind.
#[derive(Debug)]
pub struct CommandOutput {
    pub success: bool,
    pub stdout: Vec<u8>,
    pub stderr: Vec<u8>,
}

/// The first line that is not blank, trimmed.
pub open spec fn first_line(text: Seq<char>) -> Option<Seq<char>> {
    if listed(text).len() > 0 {
        Some(listed(text)[0])
    } else {
        None
    }
}

pub fn runtime_output_message(output: &[u8]) -> (result: Option<String>)
    ensures
        result.deep_view() == first_line(lossy_text(output@)),
{
    let text = lossy(output);
    let found = listed_lines(text.as_str());
    if found.len() > 0 {
        assert(found.deep_view()[0] == found@[0]@);
        Some(found[0].clone())
    } else {
        None
    }
}

pub open spec fn says_not_found(text: Seq<char>) -> bool {
    occurs(lower_case(text), "not found"@) || occurs(lower_case(text), "no such container"@)
}

/// Whether the runtime says that there is no such container.
pub fn runtime_output_is_not_found(output: &[u8]) -> (result: bool)
    ensures
        result == says_not_found(lossy_text(output@)),
{
    let text = lossy(output);
    let lowercase = to_lowercase(text.as_str());
    contains(lowercase.as_str(), "not found") || contains(lowercase.as_str(), "no such container")
}

/// A row of the container list that names a container and calls it running.
pub open spec fn is_running_row(row: Seq<char>, name: Seq<char>) -> bool {
    let words = words_of(row);
    words.len() > 0 && words[0] == name && words.skip(1).contains("running"@)
}

pub open spec fn lists_running(text: Seq<char>, name: Seq<char>) -> bool {
    exists|i: int|
        0 <= i < lines_of(text).len() && is_running_row(#[trigger] lines_of(text)[i], name)
}

fn running_row(row: &str, name: &str) -> (result: bool)
    ensures
        result == is_running_row(row@, name@),
{
    let words = split_whitespace(row);
    let ghost all = words_of(row@);
    if words.len() == 0 {
        return false;
    }
    assert(all[0] == words@[0]@);
    if !same(words[0].as_str(), name) {
        return false;
    }
    for i in 1..words.len()
        invariant
            words@.len() > 0,
            words.deep_view() == all,
            all == words_of(row@),
            all[0] == name@,
            forall|j: int| 1 <= j < i ==> #[trigger] all[j] != "running"@,
    {
        assert(all[i as int] == words@[i as int]@);
        if same(words[i].as_str(), "running") {
            assert(all.skip(1)[i - 1] == "running"@);
            return true;
        }
    }
    assert forall|j: int| 0 <= j < all.skip(1).len() implies all.skip(1)[j] != "running"@ by {
        assert(all.skip(1)[j] == all[j + 1]);
    }
    false
}

pub fn list_has_running(list: &str, name: &str) -> (result: bool)
    ensures
        result == lists_running(list@, name@),
{
    let rows = lines(list);
    for i in 0..rows.len()
        invariant
            rows.deep_view() == lines_of(list@),
            forall|j: int|
                0 <= j < i ==> !is_running_row(#[trigger] lines_of(list@)[j], name@),
    {
        assert(lines_of(list@)[i as int] == rows@[i as int]@);
        if running_row(rows[i].as_str(), name) {
            return true;
        }
    }
    false
}

/// Whether the container list of Apple's runtime calls a container running.
pub fn apple_container_list_has_running(output: &[u8], name: &str) -> (result: bool)
    ensures
        result == lists_running(lossy_text(output@), name@),
{
    let list = lossy(output);
    list_has_running(list.as_str(), name)
}

/// A line that reads `status running`.
pub open spec fn is_running_status(line: Seq<char>) -> bool {
    let words = words_of(line);
    words.len() >= 2 && words[0] == "status"@ && words[1] == "running"@
}

pub fn is_apple_container_running_status(line: &str) -> (result: bool)
    ensures
        result == is_running_status(line@),
{
    let words = split_whitespace(line);
    if words.len() < 2 {
        return false;
    }
    assert(words_of(line@)[0] == words@[0]@);
    assert(words_of(line@)[1] == words@[1]@);
    same(words[0].as_str(), "status") && same(words[1].as_str(), "running")
}

pub open spec fn any_running_status(text: Seq<char>) -> bool {
    exists|i: int| 0 <= i < lines_of(text).len() && is_running_status(#[trigger] lines_of(text)[i])
}

pub fn reports_running(status: &str) -> (result: bool)
    ensures
        result == any_running_status(status@),
{
    let rows = lines(status);
    for i in 0..rows.len()
        invariant
            rows.deep_view() == lines_of(status@),
            forall|j: int| 0 <= j < i ==> !is_running_status(#[trigger] lines_of(status@)[j]),
    {
        assert(lines_of(status@)[i as int] == rows@[i as int]@);
        if is_apple_container_running_status(rows[i].as_str()) {
            return true;
        }
    }
    false
}

/// Whether a line of Docker's answer reads `true`.
pub open spec fn any_true_line(text: Seq<char>) -> bool {
    exists|i: int| 0 <= i < lines_of(text).len() && trimmed(#[trigger] lines_of(text)[i]) == "true"@
}

pub fn says_true(answer: &str) -> (result: bool)
    ensures
        result == any_true_line(answer@),
{
    let rows = lines(answer);
    for i in 0..rows.len()
        invariant
            rows.deep_view() == lines_of(answer@),
            forall|j: int| 0 <= j < i ==> trimmed(#[trigger] lines_of(answer@)[j]) != "true"@,
    {
        assert(lines_of(answer@)[i as int] == rows@[i as int]@);
        if same(trim(rows[i].as_str()), "true") {
            return true;
        }
    }
    false
}

/// The arguments that ask a runtime whether a container runs; none for a
/// runtime that is not asked.
pub fn running_query(runtime: ContainerRuntime, name: &str) -> (result: Option<Vec<String>>)
    ensures
        result.deep_view() == (match runtime {
            ContainerRuntime::Apple => Some(seq!["list"@, "--all"@]),
            ContainerRuntime::Docker => Some(
                seq!["inspect"@, "-f"@, "{{.State.Running}}"@, name@],
            ),
            ContainerRuntime::OrbStack => None,
        }),
{
    match runtime {
        ContainerRuntime::Apple => {
            let query = strings(&["list", "--all"]);
            assert(query.deep_view() == seq!["list"@, "--all"@]);
            Some(query)
        },
        ContainerRuntime::Docker => {
            let query = strings(&["inspect", "-f", "{{.State.Running}}", name]);
            assert(query.deep_view() == seq!["inspect"@, "-f"@, "{{.State.Running}}"@, name@]);
            Some(query)
        },
        ContainerRuntime::OrbStack => None,
    }
}

/// What the answer to that question says; a command that failed says no.
pub open spec fn running_answer(
    runtime: ContainerRuntime,
    success: bool,
    stdout: Seq<u8>,
    name: Seq<char>,
) -> bool {
    success && match runtime {
        ContainerRuntime::Apple => lists_running(lossy_text(stdout), name),
        ContainerRuntime::Docker => any_true_line(lossy_text(stdout)),
        ContainerRuntime::OrbStack => false,
    }
}

pub fn runtime_container_is_running(
    runtime: ContainerRuntime,
    output: &CommandOutput,
    name: &str,
) -> (result: bool)
    ensures
        result == running_answer(runtime, output.success, output.stdout@, name@),
{
    if !output.success {
        return false;
    }
    match runtime {
        ContainerRuntime::Apple => apple_container_list_has_running(
            output.stdout.as_slice(),
            name,
        ),
        ContainerRuntime::Docker => {
            let answer = lossy(output.stdout.as_slice());
            says_true(answer.as_str())
        },
        ContainerRuntime::OrbStack => false,
    }
}

// ---------------------------------------------------------------------------
// Removing what is left of a container
// ---------------------------------------------------------------------------
pub open spec fn cleanup_line(runtime: ContainerRuntime, name: Seq<char>) -> Option<Seq<Seq<char>>> {
    match runtime {
        ContainerRuntime::Apple => Some(seq!["delete"@, "--force"@, name]),
        ContainerRuntime::Docker => Some(seq!["rm"@, "-f"@, name]),
        ContainerRuntime::OrbStack => None,
    }
}

/// The arguments that remove a container by force; none where the runtime is
/// left alone.
pub fn cleanup_arguments(runtime: ContainerRuntime, name: &str) -> (result: Option<Vec<String>>)
    ensures
        result.deep_view() == cleanup_line(runtime, name@),
{
    match runtime {
        ContainerRuntime::Apple => {
            let line = strings(&["delete", "--force", name]);
            assert(line.deep_view() == seq!["delete"@, "--force"@, name@]);
            Some(line)
        },
        ContainerRuntime::Docker => {
            let line = strings(&["rm", "-f", name]);
            assert(line.deep_view() == seq!["rm"@, "-f"@, name@]);
            Some(line)
        },
        ContainerRuntime::OrbStack => None,
    }
}

/// What is to be done to remove the container of a session.
#[derive(Debug)]
pub enum CleanupPlan {
    /// Nothing: the runtime removes its containers itself.
    Nothing,
    /// Run a command with these arguments.
    Run { binary: String, arguments: Vec<String> },
}

/// Plans the removal of a session's container, where `binary` is the path of
/// the runtime's command, if it was found.
pub fn cleanup_named_session(session: &ContainerSession, binary: Option<&str>) -> (result: Result<
    CleanupPlan,
    String,
>)
    ensures
        ({
            let runtime = runtime_of(session.runtime@);
            match cleanup_line(runtime, container_name_of(session.name@)) {
                None => result matches Ok(CleanupPlan::Nothing),
                Some(line) => match binary {
                    None => result matches Err(message) && message@ == "Missing command `"@
                        + binary_of(runtime) + "`."@,
                    Some(path) => result matches Ok(CleanupPlan::Run { binary, arguments })
                        && binary@ == path@ && arguments.deep_view() == line,
                },
            }
        }),
{
    let runtime = normalize_container_runtime(session.runtime.as_str());
    let name = container_name(session);
    match cleanup_arguments(runtime, name.as_str()) {
        None => Ok(CleanupPlan::Nothing),
        Some(arguments) => match binary {
            Some(path) => Ok(CleanupPlan::Run { binary: path.to_owned(), arguments }),
            None => {
                let missing = runtime_binary_name(session.runtime.as_str());
                Err(concat3("Missing command `", missing, "`."))
            },
        },
    }
}

/// What came of the command that removes a container.
#[derive(Debug)]
pub enum CleanupReply {
    Output(CommandOutput),
    TimedOut,
    Failed(String),
}

pub open spec fn cleanup_warning_text(name: Seq<char>, reply: CleanupReply) -> Option<Seq<char>> {
    match reply {
        CleanupReply::Output(output) => if output.success || says_not_found(
            lossy_text(output.stderr@),
        ) || says_not_found(lossy_text(output.stdout@)) {
            None
        } else {
            Some(
                "Failed to cleanup stale container '"@ + name + "': "@ + (match first_line(
                    lossy_text(output.stderr@),
                ) {
                    Some(line) => line,
                    None => match first_line(lossy_text(output.stdout@)) {
                        Some(line) => line,
                        None => "runtime cleanup failed"@,
                    },
                }),
            )
        },
        CleanupReply::TimedOut => Some(
            "Timed out cleaning up stale container '"@ + name
                + "'; runtime may still be wedged"@,
        ),
        CleanupReply::Failed(error) => Some(
            "Failed to cleanup stale container '"@ + name + "': "@ + error@,
        ),
    }
}

/// The warning about a removal that failed; none if the container is gone.
pub fn cleanup_warning(name: &str, reply: &CleanupReply) -> (result: Option<String>)
    ensures
        result.deep_view() == cleanup_warning_text(name@, *reply),
{
    match reply {
        CleanupReply::Output(output) => {
            if output.success || runtime_output_is_not_found(output.stderr.as_slice())
                || runtime_output_is_not_found(output.stdout.as_slice()) {
                return None;
            }
            let message = match runtime_output_message(output.stderr.as_slice()) {
                Some(line) => line,
                None => match runtime_output_message(output.stdout.as_slice()) {
                    Some(line) => line,
                    None => "runtime cleanup failed".to_owned(),
                },
            };
            let mut warning = concat3("Failed to cleanup stale container '", name, "': ");
            warning.append(message.as_str());
            Some(warning)
        },
        CleanupReply::TimedOut => Some(
            concat3(
                "Timed out cleaning up stale container '",
                name,
                "'; runtime may still be wedged",
            ),
        ),
        CleanupReply::Failed(error) => {
            let mut warning = concat3("Failed to cleanup stale container '", name, "': ");
            warning.append(error.as_str());
            Some(warning)
        },
    }
}

// ---------------------------------------------------------------------------
// Probing an image
// ---------------------------------------------------------------------------
/// The shell tests that an image must pass before a session is launched in it.
pub open spec fn probes_for(session: SessionView, runtime: ContainerRuntime) -> Seq<Seq<char>> {
    seq!["command -v waypipe >/dev/null"@] + (if runtime == ContainerRuntime::Apple {
        seq!["command -v perl >/dev/null"@]
    } else {
        Seq::empty()
    }) + (match command_binary_of(command_of(session)) {
        Some(binary) => seq!["command -v "@ + quoted(binary) + " >/dev/null"@],
        None => Seq::empty(),
    })
}

pub fn required_probes(session: &ContainerSession, runtime: ContainerRuntime) -> (result: Vec<
    String,
>)
    ensures
        result.deep_view() == probes_for(session.deep_view(), runtime),
{
    let mut probes = strings(&["command -v waypipe >/dev/null"]);
    if let ContainerRuntime::Apple = runtime {
        push_text(&mut probes, "command -v perl >/dev/null");
    }
    if let Some(binary) = session_command_binary(session) {
        let word = shell_single_quote(binary.as_str());
        let probe = concat3("command -v ", word.as_str(), " >/dev/null");
        push_text(&mut probes, probe.as_str());
    }
    assert(probes.deep_view() == probes_for(session.deep_view(), runtime));
    probes
}

/// The shell tests for sound, which an image may fail: none for a session
/// without sound.
pub fn audio_probes(session: &ContainerSession, runtime: ContainerRuntime) -> (result: Vec<String>)
    ensures
        result.deep_view() == (if runtime == ContainerRuntime::Apple && session.audio {
            seq![
                "command -v cocoa-way-audio-relay >/dev/null"@,
                "command -v pipewire >/dev/null"@,
                "command -v pipewire-pulse >/dev/null"@,
                "command -v wireplumber >/dev/null"@,
                "command -v pactl >/dev/null"@,
                "command -v parec >/dev/null"@,
            ]
        } else {
            Seq::empty()
        }),
{
    let apple = match runtime {
        ContainerRuntime::Apple => true,
        _ => false,
    };
    if apple && session.audio {
        let probes = strings(
            &[
                "command -v cocoa-way-audio-relay >/dev/null",
                "command -v pipewire >/dev/null",
                "command -v pipewire-pulse >/dev/null",
                "command -v wireplumber >/dev/null",
                "command -v pactl >/dev/null",
                "command -v parec >/dev/null",
            ],
        );
        assert(probes.deep_view() == seq![
            "command -v cocoa-way-audio-relay >/dev/null"@,
            "command -v pipewire >/dev/null"@,
            "command -v pipewire-pulse >/dev/null"@,
            "command -v wireplumber >/dev/null"@,
            "command -v pactl >/dev/null"@,
            "command -v parec >/dev/null"@,
        ]);
        probes
    } else {
        let none: Vec<String> = Vec::new();
        assert(none.deep_view() == Seq::<Seq<char>>::empty());
        none
    }
}

/// The environment, the mounts and the runtime's own arguments of a session.
pub open spec fn session_settings(session: SessionView) -> Seq<Seq<char>> {
    flagged("--env"@, session.env) + flagged("--mount"@, session.mounts) + session.runtime_args
}

fn extend_session_settings(arguments: &mut Vec<String>, session: &ContainerSession)
    ensures
        final(arguments).deep_view() == old(arguments).deep_view() + session_settings(
            session.deep_view(),
        ),
{
    let ghost start = arguments.deep_view();
    extend_flagged(arguments, "--env", &session.env);
    extend_flagged(arguments, "--mount", &session.mounts);
    extend(arguments, &session.runtime_args);
    assert(arguments.deep_view() == start + session_settings(session.deep_view()));
}

pub open spec fn probe_line(session: SessionView, probes: Seq<Seq<char>>) -> Seq<Seq<char>> {
    seq!["run"@, "--rm"@] + session_settings(session) + seq![
        session.image,
        "sh"@,
        "-lc"@,
        joined(probes, " && "@),
    ]
}

/// The arguments with which a runtime runs tests in the image of a session.
pub fn probe_arguments(session: &ContainerSession, probes: &Vec<String>) -> (result: Vec<String>)
    ensures
        result.deep_view() == probe_line(session.deep_view(), probes.deep_view()),
{
    let script = join(probes, " && ");
    let mut result = strings(&["run", "--rm"]);
    extend_session_settings(&mut result, session);
    let program = strings(&[session.image.as_str(), "sh", "-lc", script.as_str()]);
    extend(&mut result, &program);
    assert(result.deep_view() == probe_line(session.deep_view(), probes.deep_view()));
    result
}

// ---------------------------------------------------------------------------
// Checking a session
// ---------------------------------------------------------------------------
/// What a check found.
#[derive(Debug)]
pub struct CheckReport {
    pub runtime: String,
    pub image: String,
    pub command: String,
    pub waypipe: String,
    pub runtime_binary: String,
    pub container_name: String,
    pub running: bool,
}

/// What a check asks of the machine.
#[derive(Debug, Clone, Copy, PartialEq, Eq, Structural)]
pub enum CheckQuestion {
    /// Where waypipe is.
    Waypipe,
    /// Where the runtime's command is.
    RuntimeBinary,
    /// What `container system status` prints.
    SystemStatus,
    /// Whether the image is there.
    Image,
    /// Whether the image passes the tests.
    GuiTools,
    /// Whether the container runs already.
    Running,
}

/// The answers that a check has so far; an answer that is missing was not
/// asked for yet.
#[derive(Debug)]
pub struct CheckFacts {
    pub waypipe: Option<Option<String>>,
    pub runtime_binary: Option<Option<String>>,
    pub system_status: Option<Result<CommandOutput, String>>,
    pub image: Option<Result<bool, String>>,
    pub gui_tools: Option<Result<bool, String>>,
    pub running: Option<bool>,
}

/// Where a check stands.
#[derive(Debug)]
pub enum CheckStep {
    Ask(CheckQuestion),
    Failed(LaunchError),
    Done(CheckReport),
}

/// Where a check stands, as text.
pub enum CheckStepView {
    Ask(CheckQuestion),
    Failed(LaunchErrorView),
    Done {
        runtime: Seq<char>,
        image: Seq<char>,
        command: Seq<char>,
        waypipe: Seq<char>,
        runtime_binary: Seq<char>,
        container_name: Seq<char>,
        running: bool,
    },
}

impl DeepView for CheckStep {
    type V = CheckStepView;

    open spec fn deep_view(&self) -> CheckStepView {
        match self {
            CheckStep::Ask(question) => CheckStepView::Ask(*question),
            CheckStep::Failed(error) => CheckStepView::Failed(error.deep_view()),
            CheckStep::Done(report) => CheckStepView::Done {
                runtime: report.runtime@,
                image: report.image@,
                command: report.command@,
                waypipe: report.waypipe@,
                runtime_binary: report.runtime_binary@,
                container_name: report.container_name@,
                running: report.running,
            },
        }
    }
}

pub open spec fn missing_runtime(runtime: ContainerRuntime) -> LaunchErrorView {
    LaunchErrorView::MissingCommand {
        command: binary_of(runtime),
        hint: "Install "@ + label_of(runtime) + " or choose another runtime for this session."@,
    }
}

fn missing_runtime_error(session: &ContainerSession) -> (result: LaunchError)
    ensures
        result.deep_view() == missing_runtime(runtime_of(session.runtime@)),
{
    LaunchError::MissingCommand {
        command: runtime_binary_name(session.runtime.as_str()).to_owned(),
        hint: concat3(
            "Install ",
            runtime_label(session.runtime.as_str()),
            " or choose another runtime for this session.",
        ),
    }
}

/// What the state of Apple's container service says against a launch.
pub open spec fn status_problem(status: Result<CommandOutput, String>) -> Option<LaunchErrorView> {
    match status {
        Err(source) => Some(
            LaunchErrorView::StartContainer {
                session: "Apple Container status check"@,
                source: source@,
            },
        ),
        Ok(output) => if !output.success {
            Some(
                LaunchErrorView::RuntimeNotReady {
                    runtime: "Apple Container"@,
                    hint: "Run `container system start` and try again."@,
                },
            )
        } else if !any_running_status(lossy_text(output.stdout@)) {
            Some(
                LaunchErrorView::RuntimeNotReady {
                    runtime: "Apple Container"@,
                    hint: "Run `container system start` and wait until `container system status` reports running."@,
                },
            )
        } else {
            None
        },
    }
}

pub fn preflight_apple_container(status: &Result<CommandOutput, String>) -> (result: Option<
    LaunchError,
>)
    ensures
        result.deep_view() == status_problem(*status),
{
    match status {
        Err(source) => Some(
            LaunchError::StartContainer {
                session: "Apple Container status check".to_owned(),
                source: source.clone(),
            },
        ),
        Ok(output) => {
            if !output.success {
                return Some(
                    LaunchError::RuntimeNotReady {
                        runtime: "Apple Container".to_owned(),
                        hint: "Run `container system start` and try again.".to_owned(),
                    },
                );
            }
            let text = lossy(output.stdout.as_slice());
            if !reports_running(text.as_str()) {
                return Some(
                    LaunchError::RuntimeNotReady {
                        runtime: "Apple Container".to_owned(),
                        hint: "Run `container system start` and wait until `container system status` reports running.".to_owned(),
                    },
                );
            }
            None
        },
    }
}

pub open spec fn image_problem(
    runtime: ContainerRuntime,
    image: Seq<char>,
    found: Result<bool, String>,
) -> Option<LaunchErrorView> {
    match found {
        Ok(true) => None,
        Ok(false) => Some(
            LaunchErrorView::ImageUnavailable {
                runtime: label_of(runtime),
                image,
                hint: if runtime == ContainerRuntime::Apple {
                    "Run `container image pull <image>` or build/tag the image before launching."@
                } else {
                    "Run `docker pull <image>` or build/tag the image before launching."@
                },
            },
        ),
        Err(source) => Some(
            LaunchErrorView::StartContainer {
                session: label_of(runtime) + " image check"@,
                source: source@,
            },
        ),
    }
}

/// What the search for the image of a session says against a launch.
pub fn inspect_image(session: &ContainerSession, found: &Result<bool, String>) -> (result: Option<
    LaunchError,
>)
    ensures
        result.deep_view() == image_problem(
            runtime_of(session.runtime@),
            session.image@,
            *found,
        ),
{
    let label = runtime_label(session.runtime.as_str());
    match found {
        Ok(there) => if *there {
            None
        } else {
            let hint = match normalize_container_runtime(session.runtime.as_str()) {
                ContainerRuntime::Apple => "Run `container image pull <image>` or build/tag the image before launching.",
                _ => "Run `docker pull <image>` or build/tag the image before launching.",
            };
            Some(
                LaunchError::ImageUnavailable {
                    runtime: label.to_owned(),
                    image: session.image.clone(),
                    hint: hint.to_owned(),
                },
            )
        },
        Err(source) => Some(
            LaunchError::StartContainer {
                session: concat(label, " image check"),
                source: source.clone(),
            },
        ),
    }
}

pub open spec fn tools_problem(
    runtime: ContainerRuntime,
    image: Seq<char>,
    passed: Result<bool, String>,
) -> Option<LaunchErrorView> {
    match passed {
        Ok(true) => None,
        Ok(false) => Some(
            LaunchErrorView::ImageNotGuiReady {
                runtime: label_of(runtime),
                image,
                hint: "Install waypipe, Apple relay dependencies, and the configured GUI command in the image, then rebuild/tag it for Cocoa-Way."@,
            },
        ),
        Err(source) => Some(
            LaunchErrorView::StartContainer {
                session: label_of(runtime) + " GUI readiness check"@,
                source: source@,
            },
        ),
    }
}

/// What the tests in the image of a session say against a launch.
pub fn verify_gui_tools_in_image(session: &ContainerSession, passed: &Result<bool, String>) -> (result: Option<LaunchError>)
    ensures
        result.deep_view() == tools_problem(
            runtime_of(session.runtime@),
            session.image@,
            *passed,
        ),
{
    let label = runtime_label(session.runtime.as_str());
    match passed {
        Ok(all) => if *all {
            None
        } else {
            Some(
                LaunchError::ImageNotGuiReady {
                    runtime: label.to_owned(),
                    image: session.image.clone(),
                    hint: "Install waypipe, Apple relay dependencies, and the configured GUI command in the image, then rebuild/tag it for Cocoa-Way.".to_owned(),
                },
            )
        },
        Err(source) => Some(
            LaunchError::StartContainer {
                session: concat(label, " GUI readiness check"),
                source: source.clone(),
            },
        ),
    }
}

/// The first thing that a check before the launch finds: a problem, or a
/// question whose answer is missing. None if the session may be launched.
pub open spec fn preflight_of(session: SessionView, facts: CheckFacts) -> Option<CheckStepView> {
    let runtime = runtime_of(session.runtime);
    if display_problem(session) is Some {
        Some(CheckStepView::Failed(display_problem(session)->0))
    } else if presentation_problem(session) is Some {
        Some(CheckStepView::Failed(presentation_problem(session)->0))
    } else if runtime == ContainerRuntime::OrbStack {
        None
    } else if runtime == ContainerRuntime::Apple && facts.system_status is None {
        Some(CheckStepView::Ask(CheckQuestion::SystemStatus))
    } else if runtime == ContainerRuntime::Apple && status_problem(
        facts.system_status->0,
    ) is Some {
        Some(CheckStepView::Failed(status_problem(facts.system_status->0)->0))
    } else {
        match facts.image {
            None => Some(CheckStepView::Ask(CheckQuestion::Image)),
            Some(found) => match image_problem(runtime, session.image, found) {
                Some(problem) => Some(CheckStepView::Failed(problem)),
                None => match facts.gui_tools {
                    None => Some(CheckStepView::Ask(CheckQuestion::GuiTools)),
                    Some(passed) => match tools_problem(runtime, session.image, passed) {
                        Some(problem) => Some(CheckStepView::Failed(problem)),
                        None => None,
                    },
                },
            },
        }
    }
}

pub fn preflight_session(session: &ContainerSession, facts: &CheckFacts) -> (result: Option<
    CheckStep,
>)
    ensures
        result.deep_view() == preflight_of(session.deep_view(), *facts),
{
    if let Err(error) = validate_display_slot(session) {
        return Some(CheckStep::Failed(error));
    }
    if let Err(error) = validate_presentation_command(session) {
        return Some(CheckStep::Failed(error));
    }
    match normalize_container_runtime(session.runtime.as_str()) {
        ContainerRuntime::OrbStack => return None,
        ContainerRuntime::Apple => match &facts.system_status {
            None => return Some(CheckStep::Ask(CheckQuestion::SystemStatus)),
            Some(status) => {
                if let Some(error) = preflight_apple_container(status) {
                    return Some(CheckStep::Failed(error));
                }
            },
        },
        ContainerRuntime::Docker => {},
    }
    match &facts.image {
        None => Some(CheckStep::Ask(CheckQuestion::Image)),
        Some(found) => match inspect_image(session, found) {
            Some(error) => Some(CheckStep::Failed(error)),
            None => match &facts.gui_tools {
                None => Some(CheckStep::Ask(CheckQuestion::GuiTools)),
                Some(passed) => match verify_gui_tools_in_image(session, passed) {
                    Some(error) => Some(CheckStep::Failed(error)),
                    None => None,
                },
            },
        },
    }
}

/// Whether a container runs, as far as that is known. OrbStack is not asked: of
/// its containers none counts as running.
pub open spec fn known_running(runtime: ContainerRuntime, answer: Option<bool>) -> Option<bool> {
    match runtime {
        ContainerRuntime::OrbStack => Some(false),
        _ => answer,
    }
}

fn running_known(runtime: ContainerRuntime, answer: Option<bool>) -> (result: Option<bool>)
    ensures
        result == known_running(runtime, answer),
{
    match runtime {
        ContainerRuntime::OrbStack => Some(false),
        _ => answer,
    }
}

/// Where a check stands with the answers that it has: it asks for waypipe,
/// then for the runtime, then does what must precede a launch, then asks
/// whether the container runs.
pub open spec fn check_of(session: SessionView, facts: CheckFacts) -> CheckStepView {
    let runtime = runtime_of(session.runtime);
    match facts.waypipe {
        None => CheckStepView::Ask(CheckQuestion::Waypipe),
        Some(None) => CheckStepView::Failed(
            LaunchErrorView::MissingCommand {
                command: "waypipe"@,
                hint: "Install waypipe or set waypipe_path in container-sessions.toml."@,
            },
        ),
        Some(Some(waypipe)) => match facts.runtime_binary {
            None => CheckStepView::Ask(CheckQuestion::RuntimeBinary),
            Some(None) => CheckStepView::Failed(missing_runtime(runtime)),
            Some(Some(runtime_binary)) => match preflight_of(session, facts) {
                Some(step) => step,
                None => match known_running(runtime, facts.running) {
                    None => CheckStepView::Ask(CheckQuestion::Running),
                    Some(running) => CheckStepView::Done {
                        runtime: label_of(runtime),
                        image: session.image,
                        command: command_of(session),
                        waypipe: waypipe@,
                        runtime_binary: runtime_binary@,
                        container_name: container_name_of(session.name),
                        running,
                    },
                },
            },
        },
    }
}

pub fn check_session(session: &ContainerSession, facts: &CheckFacts) -> (result: CheckStep)
    ensures
        result.deep_view() == check_of(session.deep_view(), *facts),
{
    let waypipe = match &facts.waypipe {
        None => return CheckStep::Ask(CheckQuestion::Waypipe),
        Some(None) => {
            return CheckStep::Failed(
                LaunchError::MissingCommand {
                    command: "waypipe".to_owned(),
                    hint: "Install waypipe or set waypipe_path in container-sessions.toml.".to_owned(),
                },
            );
        },
        Some(Some(waypipe)) => waypipe.clone(),
    };
    let runtime_binary = match &facts.runtime_binary {
        None => return CheckStep::Ask(CheckQuestion::RuntimeBinary),
        Some(None) => return CheckStep::Failed(missing_runtime_error(session)),
        Some(Some(binary)) => binary.clone(),
    };
    if let Some(step) = preflight_session(session, facts) {
        return step;
    }
    match running_known(normalize_container_runtime(session.runtime.as_str()), facts.running) {
        None => CheckStep::Ask(CheckQuestion::Running),
        Some(running) => CheckStep::Done(
            CheckReport {
                runtime: runtime_label(session.runtime.as_str()).to_owned(),
                image: session.image.clone(),
                command: session_command(session),
                waypipe,
                runtime_binary,
                container_name: container_name(session),
                running,
            },
        ),
    }
}

/// A check that succeeds tells what it has checked: the image, the command and
/// the container of the profile, whose display and presentation are in order. A
/// profile of OrbStack never counts as running.
pub proof fn law_checked_is_of_the_profile(session: SessionView, facts: CheckFacts)
    requires
        check_of(session, facts) is Done,
    ensures
        check_of(session, facts) matches CheckStepView::Done {
            runtime,
            image,
            command,
            container_name,
            running,
            ..
        } && image == session.image && command == command_of(session) && container_name
            == container_name_of(session.name) && runtime == label_of(runtime_of(session.runtime))
            && (runtime_of(session.runtime) == ContainerRuntime::OrbStack ==> !running),
        display_problem(session) is None,
        presentation_problem(session) is None,
{
}

// ---------------------------------------------------------------------------
// Launching a session
// ---------------------------------------------------------------------------
/// What a launch has led to.
#[derive(Debug)]
pub struct LaunchReport {
    pub runtime: String,
    pub container_name: String,
    pub host_socket: String,
    pub container_socket: String,
    pub audio_host_socket: Option<String>,
    pub command: String,
}

/// What a launch asks of the machine.
#[derive(Debug)]
pub enum LaunchQuestion {
    /// Where the runtime's command is.
    RuntimeBinary,
    /// Whether the container runs already.
    Running,
    /// Whether it still runs; before that, remove it where `remove` is set.
    RunningStill { remove: bool },
    /// Make a private directory for the socket, and remove a socket of that
    /// name.
    SocketDirectory { directory: String },
    /// Start waypipe with these arguments and these variables; before that,
    /// remove what is left of the container where `remove` is set.
    Waypipe { arguments: Vec<String>, variables: Vec<(String, String)>, remove: bool },
    /// Whether the socket appears in time.
    Socket,
    /// Start the container with these arguments.
    Container { arguments: Vec<String> },
}

/// The answers that a launch has so far.
#[derive(Debug)]
pub struct LaunchFacts {
    pub runtime_binary: Option<Option<String>>,
    pub running: Option<bool>,
    pub running_still: Option<bool>,
    pub socket_directory: Option<Result<(), String>>,
    pub waypipe: Option<Result<(), String>>,
    pub socket: Option<bool>,
    pub container: Option<Result<(), String>>,
}

/// Where a launch stands. A launch that fails after waypipe was started ends
/// waypipe.
#[derive(Debug)]
pub enum LaunchState {
    Ask(LaunchQuestion),
    Failed(LaunchError),
    Done(LaunchReport),
}

/// Where a launch stands, as text.
pub enum LaunchStateView {
    AskRuntimeBinary,
    AskRunning,
    AskRunningStill { remove: bool },
    AskSocketDirectory { directory: Seq<char> },
    AskWaypipe {
        arguments: Seq<Seq<char>>,
        variables: Seq<(Seq<char>, Seq<char>)>,
        remove: bool,
    },
    AskSocket,
    AskContainer { arguments: Seq<Seq<char>> },
    Failed(LaunchErrorView),
    Done {
        runtime: Seq<char>,
        container_name: Seq<char>,
        host_socket: Seq<char>,
        container_socket: Seq<char>,
        audio_host_socket: Option<Seq<char>>,
        command: Seq<char>,
    },
}

impl DeepView for LaunchState {
    type V = LaunchStateView;

    open spec fn deep_view(&self) -> LaunchStateView {
        match self {
            LaunchState::Ask(question) => match question {
                LaunchQuestion::RuntimeBinary => LaunchStateView::AskRuntimeBinary,
                LaunchQuestion::Running => LaunchStateView::AskRunning,
                LaunchQuestion::RunningStill { remove } => LaunchStateView::AskRunningStill {
                    remove: *remove,
                },
                LaunchQuestion::SocketDirectory { directory } => {
                    LaunchStateView::AskSocketDirectory { directory: directory@ }
                },
                LaunchQuestion::Waypipe { arguments, variables, remove } => {
                    LaunchStateView::AskWaypipe {
                        arguments: arguments.deep_view(),
                        variables: variables.deep_view(),
                        remove: *remove,
                    }
                },
                LaunchQuestion::Socket => LaunchStateView::AskSocket,
                LaunchQuestion::Container { arguments } => LaunchStateView::AskContainer {
                    arguments: arguments.deep_view(),
                },
            },
            LaunchState::Failed(error) => LaunchStateView::Failed(error.deep_view()),
            LaunchState::Done(report) => LaunchStateView::Done {
                runtime: report.runtime@,
                container_name: report.container_name@,
                host_socket: report.host_socket@,
                container_socket: report.container_socket@,
                audio_host_socket: report.audio_host_socket.deep_view(),
                command: report.command@,
            },
        }
    }
}

/// What the launch is made on: the user, the process, the display, and the
/// programs that take part.
#[derive(Debug)]
pub struct LaunchPlace {
    pub runtime_dir: String,
    pub display: String,
    pub uid: u32,
    pub pid: u32,
    /// The path of this program, which relays for waypipe.
    pub helper: String,
    /// The program that relays the clipboard of a nested compositor.
    pub clipboard_relay: String,
}

pub open spec fn host_socket_of(session: SessionView, place: LaunchPlace) -> Seq<char> {
    match session.socket {
        Some(socket) => socket,
        None => short_socket(place.uid, place.pid, session.name),
    }
}

pub open spec fn guest_socket_of(session: SessionView, place: LaunchPlace) -> Seq<char> {
    match session.container_socket {
        Some(socket) => socket,
        None => container_socket_of(host_socket_of(session, place), runtime_of(session.runtime)),
    }
}

/// The directory of a socket whose path waypipe can build on; none if the path
/// is too long or stands in no directory.
pub open spec fn socket_directory_of(host_socket: Seq<char>) -> Option<Seq<char>> {
    if vstd::utf8::encode_utf8(host_socket).len() + WAYPIPE_CLIENT_SUFFIX_RESERVE
        > UNIX_SOCKET_PATH_BYTES {
        None
    } else {
        parent_of(host_socket)
    }
}

pub fn prepare_host_socket(host_socket: &str) -> (result: Result<String, LaunchError>)
    ensures
        outcome(result) == (match socket_directory_of(host_socket@) {
            Some(directory) => Ok::<Seq<char>, LaunchErrorView>(directory),
            None => Err(LaunchErrorView::InvalidSocketPath { host_socket: host_socket@ }),
        }),
{
    if host_socket.as_bytes().len() > UNIX_SOCKET_PATH_BYTES - WAYPIPE_CLIENT_SUFFIX_RESERVE {
        return Err(LaunchError::InvalidSocketPath { host_socket: host_socket.to_owned() });
    }
    match parent(host_socket) {
        Some(directory) => Ok(directory),
        None => Err(LaunchError::InvalidSocketPath { host_socket: host_socket.to_owned() }),
    }
}

/// The sound socket of a launch: only Apple's runtime and only with sound.
pub open spec fn launch_audio(session: SessionView, host_socket: Seq<char>) -> Result<
    Option<Seq<char>>,
    LaunchErrorView,
> {
    if runtime_of(session.runtime) == ContainerRuntime::Apple && session.audio {
        match aux_host_socket(host_socket, "audio"@) {
            Ok(socket) => Ok(Some(socket)),
            Err(_) => Err(LaunchErrorView::InvalidSocketPath { host_socket }),
        }
    } else {
        Ok(None)
    }
}

fn launch_audio_socket(session: &ContainerSession, host_socket: &str) -> (result: Result<
    Option<String>,
    LaunchError,
>)
    ensures
        outcome(result) == launch_audio(session.deep_view(), host_socket@),
{
    if !session.audio {
        return Ok(None);
    }
    match normalize_container_runtime(session.runtime.as_str()) {
        ContainerRuntime::Apple => match relay_audio_host_socket(host_socket) {
            Ok(socket) => Ok(Some(socket)),
            Err(_) => Err(LaunchError::InvalidSocketPath { host_socket: host_socket.to_owned() }),
        },
        _ => Ok(None),
    }
}

pub open spec fn container_line(session: SessionView, place: LaunchPlace) -> Seq<Seq<char>> {
    let directory = parent_of(host_socket_of(session, place))->0;
    let runtime = runtime_of(session.runtime);
    seq!["run"@, "--rm"@, "--name"@, container_name_of(session.name)] + (if assigns(
        session.env,
        "XDG_RUNTIME_DIR"@,
    ) {
        Seq::empty()
    } else {
        seq!["--env"@, "XDG_RUNTIME_DIR="@ + guest_runtime_dir()]
    }) + session_settings(session) + seq![
        "-v"@,
        directory + ":"@ + directory,
        session.image,
        "sh"@,
        "-lc"@,
        server_command(
            guest_socket_of(session, place),
            command_of(session),
            tuning_of(session, runtime),
        ),
    ]
}

/// The arguments with which a runtime starts the container of a session.
fn container_arguments(
    session: &ContainerSession,
    runtime: ContainerRuntime,
    directory: &str,
    container_socket: &str,
    Ghost(place): Ghost<LaunchPlace>,
) -> (result: Vec<String>)
    requires
        runtime == runtime_of(session.runtime@),
        parent_of(host_socket_of(session.deep_view(), place)) == Some(directory@),
        container_socket@ == guest_socket_of(session.deep_view(), place),
    ensures
        result.deep_view() == container_line(session.deep_view(), place),
{
    let name = container_name(session);
    let command = session_command(session);
    let tuning = waypipe_tuning_args(session, runtime);
    let server = build_server_command(container_socket, command.as_str(), &tuning);
    let mut result = strings(&["run", "--rm", "--name", name.as_str()]);
    let ghost first = result.deep_view();
    if !has_env_key(&session.env, "XDG_RUNTIME_DIR") {
        let variable = concat("XDG_RUNTIME_DIR=", default_guest_runtime_dir());
        push_text(&mut result, "--env");
        push_text(&mut result, variable.as_str());
    }
    let ghost second = result.deep_view();
    extend_session_settings(&mut result, session);
    let volume = concat3(directory, ":", directory);
    let program = strings(
        &["-v", volume.as_str(), session.image.as_str(), "sh", "-lc", server.as_str()],
    );
    extend(&mut result, &program);
    assert(result.deep_view() == container_line(session.deep_view(), place));
    result
}

pub open spec fn apple_waypipe_line(session: SessionView, place: LaunchPlace) -> Seq<Seq<char>> {
    tuning_of(session, ContainerRuntime::Apple) + seq![
        "--socket"@,
        host_socket_of(session, place),
        "--remote-socket"@,
        guest_socket_of(session, place),
        "--ssh-bin"@,
        place.helper@,
        "--remote-bin"@,
        "waypipe"@,
        "ssh"@,
        "apple-container"@,
        "sh"@,
        "-lc"@,
        remote_gui_command(command_of(session), runs_compositor(session), place.clipboard_relay@),
    ]
}

/// The variables that waypipe hands on to the relay of an Apple container.
pub open spec fn apple_waypipe_variables(
    session: SessionView,
    place: LaunchPlace,
    audio: Option<Seq<char>>,
) -> Seq<(Seq<char>, Seq<char>)> {
    let separator = "\n"@;
    seq![
        ("XDG_RUNTIME_DIR"@, place.runtime_dir@),
        ("WAYLAND_DISPLAY"@, place.display@),
        ("COCOA_WAY_CONTAINER_RELAY"@, "1"@),
        ("COCOA_WAY_RELAY_IMAGE"@, session.image),
        ("COCOA_WAY_RELAY_CONTAINER_NAME"@, container_name_of(session.name)),
        ("COCOA_WAY_RELAY_ENV"@, joined(session.env, separator)),
        ("COCOA_WAY_RELAY_MOUNTS"@, joined(session.mounts, separator)),
        ("COCOA_WAY_RELAY_RUNTIME_ARGS"@, joined(session.runtime_args, separator)),
    ] + (if session.audio {
        seq![("COCOA_WAY_RELAY_AUDIO"@, "1"@)] + (match audio {
            Some(socket) => seq![("COCOA_WAY_RELAY_AUDIO_HOST"@, socket)],
            None => Seq::empty(),
        })
    } else {
        Seq::empty()
    })
}

fn push_pair(list: &mut Vec<(String, String)>, name: &str, value: &str)
    ensures
        final(list).deep_view() == old(list).deep_view().push((name@, value@)),
{
    let ghost start = *list;
    let pair = (name.to_owned(), value.to_owned());
    list.push(pair);
    assert(list@ == start@.push(pair));
    assert(list.deep_view() =~= start.deep_view().push((name@, value@)));
}

fn apple_variables(session: &ContainerSession, place: &LaunchPlace, audio: &Option<String>) -> (result: Vec<(String, String)>)
    ensures
        result.deep_view() == apple_waypipe_variables(
            session.deep_view(),
            *place,
            audio.deep_view(),
        ),
{
    let name = container_name(session);
    let env = join(&session.env, "\n");
    let mounts = join(&session.mounts, "\n");
    let runtime_args = join(&session.runtime_args, "\n");
    let mut result: Vec<(String, String)> = Vec::new();
    assert(result.deep_view() == Seq::<(Seq<char>, Seq<char>)>::empty());
    push_pair(&mut result, "XDG_RUNTIME_DIR", place.runtime_dir.as_str());
    push_pair(&mut result, "WAYLAND_DISPLAY", place.display.as_str());
    push_pair(&mut result, "COCOA_WAY_CONTAINER_RELAY", "1");
    push_pair(&mut result, "COCOA_WAY_RELAY_IMAGE", session.image.as_str());
    push_pair(&mut result, "COCOA_WAY_RELAY_CONTAINER_NAME", name.as_str());
    push_pair(&mut result, "COCOA_WAY_RELAY_ENV", env.as_str());
    push_pair(&mut result, "COCOA_WAY_RELAY_MOUNTS", mounts.as_str());
    push_pair(&mut result, "COCOA_WAY_RELAY_RUNTIME_ARGS", runtime_args.as_str());
    if session.audio {
        push_pair(&mut result, "COCOA_WAY_RELAY_AUDIO", "1");
        if let Some(socket) = audio {
            push_pair(&mut result, "COCOA_WAY_RELAY_AUDIO_HOST", socket.as_str());
        }
    }
    assert(result.deep_view() == apple_waypipe_variables(
        session.deep_view(),
        *place,
        audio.deep_view(),
    ));
    result
}

fn apple_arguments(session: &ContainerSession, place: &LaunchPlace, host_socket: &str, container_socket: &str) -> (result: Vec<String>)
    requires
        host_socket@ == host_socket_of(session.deep_view(), *place),
        container_socket@ == guest_socket_of(session.deep_view(), *place),
    ensures
        result.deep_view() == apple_waypipe_line(session.deep_view(), *place),
{
    let command = session_command(session);
    let remote = apple_remote_gui_command(
        command.as_str(),
        uses_nested_wayland_compositor(session),
        place.clipboard_relay.as_str(),
    );
    let mut result = waypipe_tuning_args(session, ContainerRuntime::Apple);
    let rest = strings(
        &[
            "--socket",
            host_socket,
            "--remote-socket",
            container_socket,
            "--ssh-bin",
            place.helper.as_str(),
            "--remote-bin",
            "waypipe",
            "ssh",
            "apple-container",
            "sh",
            "-lc",
            remote.as_str(),
        ],
    );
    extend(&mut result, &rest);
    assert(result.deep_view() == apple_waypipe_line(session.deep_view(), *place));
    result
}

pub open spec fn client_waypipe_line(session: SessionView, place: LaunchPlace) -> Seq<Seq<char>> {
    tuning_of(session, runtime_of(session.runtime)) + seq![
        "--socket"@,
        host_socket_of(session, place),
        "client"@,
    ]
}

pub open spec fn client_waypipe_variables(place: LaunchPlace) -> Seq<(Seq<char>, Seq<char>)> {
    seq![("XDG_RUNTIME_DIR"@, place.runtime_dir@), ("WAYLAND_DISPLAY"@, place.display@)]
}

fn client_arguments(session: &ContainerSession, runtime: ContainerRuntime, host_socket: &str, Ghost(place): Ghost<LaunchPlace>) -> (result:
    Vec<String>)
    requires
        runtime == runtime_of(session.runtime@),
        host_socket@ == host_socket_of(session.deep_view(), place),
    ensures
        result.deep_view() == client_waypipe_line(session.deep_view(), place),
{
    let mut result = waypipe_tuning_args(session, runtime);
    let rest = strings(&["--socket", host_socket, "client"]);
    extend(&mut result, &rest);
    assert(result.deep_view() == client_waypipe_line(session.deep_view(), place));
    result
}

fn client_variables(place: &LaunchPlace) -> (result: Vec<(String, String)>)
    ensures
        result.deep_view() == client_waypipe_variables(*place),
{
    let mut result: Vec<(String, String)> = Vec::new();
    assert(result.deep_view() == Seq::<(Seq<char>, Seq<char>)>::empty());
    push_pair(&mut result, "XDG_RUNTIME_DIR", place.runtime_dir.as_str());
    push_pair(&mut result, "WAYLAND_DISPLAY", place.display.as_str());
    assert(result.deep_view() == client_waypipe_variables(*place));
    result
}

/// What a launch still has to ask, or how it failed, once its container is
/// known not to run; none if everything is started.
pub open spec fn start_of(
    session: SessionView,
    place: LaunchPlace,
    facts: LaunchFacts,
    audio: Option<Seq<char>>,
) -> Option<LaunchStateView> {
    let apple = runtime_of(session.runtime) == ContainerRuntime::Apple;
    match facts.waypipe {
        None => Some(
            if apple {
                LaunchStateView::AskWaypipe {
                    arguments: apple_waypipe_line(session, place),
                    variables: apple_waypipe_variables(session, place, audio),
                    remove: true,
                }
            } else {
                LaunchStateView::AskWaypipe {
                    arguments: client_waypipe_line(session, place),
                    variables: client_waypipe_variables(place),
                    remove: false,
                }
            },
        ),
        Some(Err(source)) => Some(
            LaunchStateView::Failed(LaunchErrorView::StartWaypipe { source: source@ }),
        ),
        Some(Ok(_)) => if apple {
            None
        } else {
            match facts.socket {
                None => Some(LaunchStateView::AskSocket),
                Some(false) => Some(
                    LaunchStateView::Failed(
                        LaunchErrorView::SocketTimeout {
                            host_socket: host_socket_of(session, place),
                        },
                    ),
                ),
                Some(true) => match facts.container {
                    None => Some(
                        LaunchStateView::AskContainer {
                            arguments: container_line(session, place),
                        },
                    ),
                    Some(Err(source)) => Some(
                        LaunchStateView::Failed(
                            LaunchErrorView::StartContainer {
                                session: session.name,
                                source: source@,
                            },
                        ),
                    ),
                    Some(Ok(_)) => None,
                },
            }
        },
    }
}

/// Whether the container of a session was found running, and was not removed.
pub open spec fn already_running(session: SessionView) -> LaunchErrorView {
    LaunchErrorView::ContainerAlreadyRunning {
        runtime: label_of(runtime_of(session.runtime)),
        container_name: container_name_of(session.name),
        hint: "Stop the existing container from Container Mode before launching this profile again, or choose a different profile name."@,
    }
}

/// Where a launch stands with the answers that it has.
pub open spec fn launch_of(session: SessionView, place: LaunchPlace, facts: LaunchFacts) -> LaunchStateView {
    let runtime = runtime_of(session.runtime);
    let host_socket = host_socket_of(session, place);
    let running = known_running(runtime, facts.running);
    if facts.runtime_binary is None {
        LaunchStateView::AskRuntimeBinary
    } else if facts.runtime_binary->0 is None {
        LaunchStateView::Failed(missing_runtime(runtime))
    } else if running is None {
        LaunchStateView::AskRunning
    } else if running == Some(true) && facts.running_still is None {
        LaunchStateView::AskRunningStill { remove: runtime == ContainerRuntime::Apple }
    } else if running == Some(true) && facts.running_still == Some(true) {
        LaunchStateView::Failed(already_running(session))
    } else {
        match socket_directory_of(host_socket) {
            None => LaunchStateView::Failed(LaunchErrorView::InvalidSocketPath { host_socket }),
            Some(directory) => match facts.socket_directory {
                None => LaunchStateView::AskSocketDirectory { directory },
                Some(Err(source)) => LaunchStateView::Failed(
                    LaunchErrorView::CreateSocketDir { dir: directory, source: source@ },
                ),
                Some(Ok(_)) => match launch_audio(session, host_socket) {
                    Err(error) => LaunchStateView::Failed(error),
                    Ok(audio) => match start_of(session, place, facts, audio) {
                        Some(state) => state,
                        None => LaunchStateView::Done {
                            runtime: label_of(runtime),
                            container_name: container_name_of(session.name),
                            host_socket,
                            container_socket: guest_socket_of(session, place),
                            audio_host_socket: audio,
                            command: command_of(session),
                        },
                    },
                },
            },
        }
    }
}

fn start_session(
    session: &ContainerSession,
    place: &LaunchPlace,
    facts: &LaunchFacts,
    audio: &Option<String>,
    directory: &str,
    host_socket: &str,
    container_socket: &str,
) -> (result: Option<LaunchState>)
    requires
        host_socket@ == host_socket_of(session.deep_view(), *place),
        container_socket@ == guest_socket_of(session.deep_view(), *place),
        parent_of(host_socket@) == Some(directory@),
    ensures
        result.deep_view() == start_of(session.deep_view(), *place, *facts, audio.deep_view()),
{
    let runtime = normalize_container_runtime(session.runtime.as_str());
    let apple = match runtime {
        ContainerRuntime::Apple => true,
        _ => false,
    };
    match &facts.waypipe {
        None => if apple {
            Some(
                LaunchState::Ask(
                    LaunchQuestion::Waypipe {
                        arguments: apple_arguments(session, place, host_socket, container_socket),
                        variables: apple_variables(session, place, audio),
                        remove: true,
                    },
                ),
            )
        } else {
            Some(
                LaunchState::Ask(
                    LaunchQuestion::Waypipe {
                        arguments: client_arguments(session, runtime, host_socket, Ghost(*place)),
                        variables: client_variables(place),
                        remove: false,
                    },
                ),
            )
        },
        Some(Err(source)) => Some(
            LaunchState::Failed(LaunchError::StartWaypipe { source: source.clone() }),
        ),
        Some(Ok(_)) => if apple {
            None
        } else {
            match facts.socket {
                None => Some(LaunchState::Ask(LaunchQuestion::Socket)),
                Some(ready) => if !ready {
                    Some(
                        LaunchState::Failed(
                            LaunchError::SocketTimeout { host_socket: host_socket.to_owned() },
                        ),
                    )
                } else {
                    match &facts.container {
                        None => Some(
                            LaunchState::Ask(
                                LaunchQuestion::Container {
                                    arguments: container_arguments(
                                        session,
                                        runtime,
                                        directory,
                                        container_socket,
                                        Ghost(*place),
                                    ),
                                },
                            ),
                        ),
                        Some(Err(source)) => Some(
                            LaunchState::Failed(
                                LaunchError::StartContainer {
                                    session: session.name.clone(),
                                    source: source.clone(),
                                },
                            ),
                        ),
                        Some(Ok(_)) => None,
                    }
                },
            }
        },
    }
}

pub fn launch_checked_session(session: &ContainerSession, place: &LaunchPlace, facts: &LaunchFacts) -> (result: LaunchState)
    ensures
        result.deep_view() == launch_of(session.deep_view(), *place, *facts),
{
    match &facts.runtime_binary {
        None => return LaunchState::Ask(LaunchQuestion::RuntimeBinary),
        Some(None) => return LaunchState::Failed(missing_runtime_error(session)),
        Some(Some(_)) => {},
    }
    let runtime = normalize_container_runtime(session.runtime.as_str());
    let apple = match runtime {
        ContainerRuntime::Apple => true,
        _ => false,
    };
    match running_known(runtime, facts.running) {
        None => return LaunchState::Ask(LaunchQuestion::Running),
        Some(running) => if running {
            match facts.running_still {
                None => return LaunchState::Ask(LaunchQuestion::RunningStill { remove: apple }),
                Some(still) => if still {
                    return LaunchState::Failed(
                        LaunchError::ContainerAlreadyRunning {
                            runtime: runtime_label(session.runtime.as_str()).to_owned(),
                            container_name: container_name(session),
                            hint: "Stop the existing container from Container Mode before launching this profile again, or choose a different profile name.".to_owned(),
                        },
                    );
                },
            }
        },
    }
    let host_socket = match &session.socket {
        Some(socket) => socket.clone(),
        None => default_container_socket(
            place.runtime_dir.as_str(),
            session.name.as_str(),
            place.uid,
            place.pid,
        ),
    };
    let container_socket = match &session.container_socket {
        Some(socket) => socket.clone(),
        None => default_container_socket_path(host_socket.as_str(), runtime),
    };
    let directory = match prepare_host_socket(host_socket.as_str()) {
        Ok(directory) => directory,
        Err(error) => return LaunchState::Failed(error),
    };
    match &facts.socket_directory {
        None => return LaunchState::Ask(LaunchQuestion::SocketDirectory { directory }),
        Some(Err(source)) => {
            return LaunchState::Failed(
                LaunchError::CreateSocketDir { dir: directory, source: source.clone() },
            );
        },
        Some(Ok(_)) => {},
    }
    let audio = match launch_audio_socket(session, host_socket.as_str()) {
        Ok(audio) => audio,
        Err(error) => return LaunchState::Failed(error),
    };
    if let Some(state) = start_session(
        session,
        place,
        facts,
        &audio,
        directory.as_str(),
        host_socket.as_str(),
        container_socket.as_str(),
    ) {
        return state;
    }
    LaunchState::Done(
        LaunchReport {
            runtime: runtime_label(session.runtime.as_str()).to_owned(),
            container_name: container_name(session),
            host_socket,
            container_socket,
            audio_host_socket: audio,
            command: session_command(session),
        },
    )
}

/// What is reported of a launch when it gets to a state: the step that it takes,
/// and what that means.
pub open spec fn progress_of(session: SessionView, state: LaunchStateView) -> Option<
    (LaunchStep, Seq<char>),
> {
    let apple = runtime_of(session.runtime) == ContainerRuntime::Apple;
    match state {
        LaunchStateView::AskRunningStill { remove } => if remove {
            Some(
                (
                    LaunchStep::CreateContainer,
                    "Removing an untracked Cocoa-Way Apple Container instance left by an earlier run"@,
                ),
            )
        } else {
            None
        },
        LaunchStateView::AskWaypipe { .. } => Some(
            (
                LaunchStep::StartWaypipe,
                if apple {
                    "Starting the native socket transport and Waypipe client"@
                } else {
                    "Starting the Waypipe client for the selected display"@
                },
            ),
        ),
        LaunchStateView::Done { .. } => Some(
            (
                LaunchStep::StartCommand,
                if apple {
                    "The application command was handed to Apple Container"@
                } else {
                    "The application command was started inside the container"@
                },
            ),
        ),
        _ => None,
    }
}

pub fn launch_progress(session: &ContainerSession, state: &LaunchState) -> (result: Option<
    (LaunchStep, &'static str),
>)
    ensures
        match result {
            Some((step, text)) => progress_of(session.deep_view(), state.deep_view()) == Some(
                (step, text@),
            ),
            None => progress_of(session.deep_view(), state.deep_view()) is None,
        },
{
    let apple = is_apple_container_session(session);
    match state {
        LaunchState::Ask(LaunchQuestion::RunningStill { remove }) => if *remove {
            Some(
                (
                    LaunchStep::CreateContainer,
                    "Removing an untracked Cocoa-Way Apple Container instance left by an earlier run",
                ),
            )
        } else {
            None
        },
        LaunchState::Ask(LaunchQuestion::Waypipe { .. }) => Some(
            (
                LaunchStep::StartWaypipe,
                if apple {
                    "Starting the native socket transport and Waypipe client"
                } else {
                    "Starting the Waypipe client for the selected display"
                },
            ),
        ),
        LaunchState::Done(_) => Some(
            (
                LaunchStep::StartCommand,
                if apple {
                    "The application command was handed to Apple Container"
                } else {
                    "The application command was started inside the container"
                },
            ),
        ),
        _ => None,
    }
}

/// Waypipe is started only once the container is known not to run and there is
/// a place for the socket.
#[verifier::rlimit(40)]
pub proof fn law_waypipe_waits(session: SessionView, place: LaunchPlace, facts: LaunchFacts)
    requires
        launch_of(session, place, facts) is AskWaypipe,
    ensures
        known_running(runtime_of(session.runtime), facts.running) == Some(false)
            || facts.running_still == Some(false),
        facts.socket_directory is Some && facts.socket_directory->0 is Ok,
{
}

/// The container is started only once waypipe runs and its socket is there.
#[verifier::rlimit(40)]
pub proof fn law_container_waits(session: SessionView, place: LaunchPlace, facts: LaunchFacts)
    requires
        launch_of(session, place, facts) is AskContainer,
    ensures
        facts.waypipe is Some && facts.waypipe->0 is Ok,
        facts.socket == Some(true),
{
}

/// A launch is done only once waypipe runs, and the container, where it is
/// started from here.
#[verifier::rlimit(40)]
pub proof fn law_done_is_last(session: SessionView, place: LaunchPlace, facts: LaunchFacts)
    requires
        launch_of(session, place, facts) is Done,
    ensures
        facts.waypipe is Some && facts.waypipe->0 is Ok,
        runtime_of(session.runtime) == ContainerRuntime::Apple || (facts.container is Some
            && facts.container->0 is Ok),
{
}

/// A launch that gets good answers all along is done, where the socket has a
/// directory and a name for the sound can be made.
pub proof fn law_launch_succeeds(session: SessionView, place: LaunchPlace, facts: LaunchFacts)
    requires
        facts.runtime_binary is Some && facts.runtime_binary->0 is Some,
        known_running(runtime_of(session.runtime), facts.running) == Some(false),
        facts.socket_directory is Some && facts.socket_directory->0 is Ok,
        facts.waypipe is Some && facts.waypipe->0 is Ok,
        facts.socket == Some(true),
        facts.container is Some && facts.container->0 is Ok,
        socket_directory_of(host_socket_of(session, place)) is Some,
        launch_audio(session, host_socket_of(session, place)) is Ok,
    ensures
        launch_of(session, place, facts) is Done,
{
}

} // verus!
