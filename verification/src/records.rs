//! What the container window makes of the things that happen.
use vstd::prelude::*;
use vstd::string::*;

use crate::activity::{clean_session_log_line, cleaned, logged};
use crate::application_model::{
    instance_label, launch_step_label, InstanceStatus, LaunchStep, ProfileStatus, RuntimeStatus,
    TaskStatus, TaskStepStatus,
};
use crate::container_mode::{
    active_of, checked_instance_status, image_task_set, known_state_set, launch_key,
    launch_task_key, name_at, note, one_effect, resource_key, resource_task_key, runtime_set,
    runtime_task_key, session_name, session_selected, state_of, state_set, stop_key, stop_task_key,
    system_key, task_finished, task_started, task_stepped, two_effects, validation_forgotten,
    ActiveSessionSnapshot, ContainerMode, DetailsView, Effect, EffectView, ManagedDisplaySnapshot,
    ManagedView, ModeView, RuntimeContainerDetails, SelectedContainerView, SessionState,
    SessionStateView,
};
use crate::container_sessions::{
    launch_error_text, ContainerSession, LaunchError, LaunchErrorView, SessionView,
};
use crate::profiles::{runtime_label, shown_runtime};
use crate::session_launch::{CheckReport, LaunchReport};
use crate::text::{
    concat, concat3, concat4, concat5, concat6, concat7, count_text, decimal, decimal_text,
    drop_text, empty_list, has_text, is_blank, blank, keep_members, lemma_members,
    lemma_without_text, members, push_deep, push_text, same, texts2, texts3, texts4, without_text,
};

verus! {

// ---------------------------------------------------------------------------
// Launching
// ---------------------------------------------------------------------------

/// A launch has come to a step.
pub fn record_launch_progress(
    mode: &mut ContainerMode,
    sessions: &Vec<ContainerSession>,
    index: usize,
    step: LaunchStep,
    detail: &str,
    now: u128,
) -> (result: Vec<Effect>)
    requires
        old(mode).well_formed(),
    ensures
        final(mode).well_formed(),
        final(mode).deep_view() == ({
            let mode = old(mode).deep_view();
            let stepped = task_stepped(
                mode,
                launch_key(index),
                launch_step_label(step),
                TaskStepStatus::Running,
                detail@,
                now,
            );
            let known = known_state_set(
                stepped,
                index,
                SessionStateView {
                    profile: ProfileStatus::Ready,
                    instance: Some(InstanceStatus::Starting),
                    detail: detail@,
                    failed_step: None,
                    force_stop_available: false,
                },
            );
            note(
                known,
                now,
                name_at(sessions.deep_view(), index, "Application"@) + ": "@ + detail@,
            )
        }),
        result.deep_view() == seq![EffectView::RefreshThrottled(100)],
{
    let key = launch_task_key(index);
    mode.step_task(key.as_str(), step.label(), TaskStepStatus::Running, detail, now);
    let name = session_name(sessions, index, "Application");
    mode.replace_known_state(
        index,
        SessionState {
            profile: ProfileStatus::Ready,
            instance: Some(InstanceStatus::Starting),
            detail: detail.to_owned(),
            failed_step: None,
            force_stop_available: false,
        },
    );
    let message = concat3(name.as_str(), ": ", detail);
    mode.push_activity(now, message.as_str());
    one_effect(Effect::RefreshThrottled(100))
}

/// A launch was given up.
pub fn record_launch_cancelled(
    mode: &mut ContainerMode,
    index: usize,
    detail: &str,
    now: u128,
) -> (result: Vec<Effect>)
    requires
        old(mode).well_formed(),
    ensures
        final(mode).well_formed(),
        final(mode).deep_view() == ({
            let mode = old(mode).deep_view();
            let ended = task_finished(mode, launch_key(index), TaskStatus::Cancelled, detail@, now);
            note(state_set(ended, index, "Stopped"@, detail@), now, detail@)
        }),
        result.deep_view() == seq![EffectView::Rebuild],
{
    let key = launch_task_key(index);
    mode.finish_task(key.as_str(), TaskStatus::Cancelled, detail, now);
    mode.set_session_state(index, "Stopped", detail);
    mode.push_activity(now, detail);
    one_effect(Effect::Rebuild)
}

pub open spec fn force_stop_detail() -> Seq<char> {
    "The application did not exit before the timeout. Force Stop is now available."@
}

/// An application has not ended when it was asked to.
pub fn record_force_stop_available(
    mode: &mut ContainerMode,
    index: usize,
    now: u128,
) -> (result: Vec<Effect>)
    requires
        old(mode).well_formed(),
        index < usize::MAX,
    ensures
        final(mode).well_formed(),
        final(mode).deep_view() == ({
            let mode = old(mode).deep_view();
            let offered = match state_of(mode.states, index) {
                Some(state) => known_state_set(
                    mode,
                    index,
                    SessionStateView {
                        detail: force_stop_detail(),
                        force_stop_available: true,
                        ..state
                    },
                ),
                None => mode,
            };
            note(
                offered,
                now,
                "Application #"@ + decimal((index + 1) as nat)
                    + " did not exit gracefully; Force Stop is available"@,
            )
        }),
        result.deep_view() == seq![EffectView::Rebuild],
{
    let known = match mode.session_state(index) {
        Some(state) => Some(state.clone()),
        None => None,
    };
    if let Some(mut state) = known {
        state.force_stop_available = true;
        state.detail =
        "The application did not exit before the timeout. Force Stop is now available.".to_owned();
        mode.replace_known_state(index, state);
    }
    let number = count_text(index + 1);
    let message = concat3(
        "Application #",
        number.as_str(),
        " did not exit gracefully; Force Stop is available",
    );
    mode.push_activity(now, message.as_str());
    one_effect(Effect::Rebuild)
}

/// The end of an application has come to a step.
pub fn record_stop_progress(
    mode: &mut ContainerMode,
    index: usize,
    step: &str,
    detail: &str,
    now: u128,
) -> (result: Vec<Effect>)
    requires
        old(mode).well_formed(),
    ensures
        final(mode).well_formed(),
        final(mode).deep_view() == ({
            let mode = old(mode).deep_view();
            note(
                task_stepped(mode, stop_key(index), step@, TaskStepStatus::Running, detail@, now),
                now,
                detail@,
            )
        }),
        result.deep_view() == seq![EffectView::RefreshThrottled(100)],
{
    let key = stop_task_key(index);
    mode.step_task(key.as_str(), step, TaskStepStatus::Running, detail, now);
    mode.push_activity(now, detail);
    one_effect(Effect::RefreshThrottled(100))
}

pub open spec fn launched_detail(
    name: Seq<char>,
    report: LaunchReport,
    waypipe_pid: u32,
) -> Seq<char> {
    name + " is running. Runtime: "@ + report.runtime@ + "; container: "@ + report.container_name@
        + "; command: "@ + report.command@ + "; host socket: "@ + report.host_socket@
        + "; container socket: "@ + report.container_socket@ + "; waypipe pid: "@ + decimal(
        waypipe_pid as nat,
    )
}

fn launched_text(name: &str, report: &LaunchReport, waypipe_pid: u32) -> (result: String)
    ensures
        result@ == launched_detail(name@, *report, waypipe_pid),
{
    let mut text = concat7(
        name,
        " is running. Runtime: ",
        report.runtime.as_str(),
        "; container: ",
        report.container_name.as_str(),
        "; command: ",
        report.command.as_str(),
    );
    let pid = decimal_text(waypipe_pid as u128);
    text.append("; host socket: ");
    text.append(report.host_socket.as_str());
    text.append("; container socket: ");
    text.append(report.container_socket.as_str());
    text.append("; waypipe pid: ");
    text.append(pid.as_str());
    text
}

/// An application runs.
pub fn record_launch_success(
    mode: &mut ContainerMode,
    sessions: &Vec<ContainerSession>,
    index: usize,
    report: &LaunchReport,
    waypipe_pid: u32,
    now: u128,
) -> (result: Vec<Effect>)
    requires
        old(mode).well_formed(),
    ensures
        final(mode).well_formed(),
        final(mode).deep_view() == ({
            let mode = old(mode).deep_view();
            let name = name_at(sessions.deep_view(), index, "Unknown application"@);
            let detail = launched_detail(name, *report, waypipe_pid);
            let running = state_set(mode, index, "Running"@, detail);
            let ended = task_finished(
                running,
                launch_key(index),
                TaskStatus::Completed,
                name + " is running"@,
                now,
            );
            note(ended, now, "Started: "@ + detail)
        }),
        result.deep_view() == seq![EffectView::InvalidateCommands, EffectView::Rebuild],
{
    let name = session_name(sessions, index, "Unknown application");
    let detail = launched_text(name.as_str(), report, waypipe_pid);
    mode.set_session_state(index, "Running", detail.as_str());
    let key = launch_task_key(index);
    let outcome = concat(name.as_str(), " is running");
    mode.finish_task(key.as_str(), TaskStatus::Completed, outcome.as_str(), now);
    let message = concat("Started: ", detail.as_str());
    mode.push_activity(now, message.as_str());
    two_effects(Effect::InvalidateCommands, Effect::Rebuild)
}

pub open spec fn already_running_detail(sessions: Seq<SessionView>, index: usize) -> Seq<char> {
    if index < sessions.len() {
        sessions[index as int].name + " is already running. Stop it before launching again."@
    } else {
        "Session #"@ + decimal((index + 1) as nat) + " is already running."@
    }
}

/// An application that was to be launched runs already.
pub fn record_launch_already_running(
    mode: &mut ContainerMode,
    sessions: &Vec<ContainerSession>,
    index: usize,
    now: u128,
) -> (result: Vec<Effect>)
    requires
        old(mode).well_formed(),
        index < usize::MAX,
    ensures
        final(mode).well_formed(),
        final(mode).deep_view() == ({
            let mode = old(mode).deep_view();
            let detail = already_running_detail(sessions.deep_view(), index);
            note(state_set(mode, index, "Running"@, detail), now, "Launch ignored: "@ + detail)
        }),
        result.deep_view() == seq![EffectView::Rebuild],
{
    let detail = if index < sessions.len() {
        concat(
            sessions[index].name.as_str(),
            " is already running. Stop it before launching again.",
        )
    } else {
        let number = count_text(index + 1);
        concat3("Session #", number.as_str(), " is already running.")
    };
    mode.set_session_state(index, "Running", detail.as_str());
    let message = concat("Launch ignored: ", detail.as_str());
    mode.push_activity(now, message.as_str());
    one_effect(Effect::Rebuild)
}

/// An application cannot be launched now.
pub fn record_launch_blocked(
    mode: &mut ContainerMode,
    index: usize,
    detail: &str,
    now: u128,
) -> (result: Vec<Effect>)
    requires
        old(mode).well_formed(),
    ensures
        final(mode).well_formed(),
        final(mode).deep_view() == ({
            let mode = old(mode).deep_view();
            let blocked = state_set(session_selected(mode, index), index, "Blocked"@, detail@);
            note(
                task_finished(blocked, launch_key(index), TaskStatus::Failed, detail@, now),
                now,
                "Launch blocked: "@ + detail@,
            )
        }),
        result.deep_view() == seq![EffectView::Rebuild],
{
    mode.select_session(index);
    mode.set_session_state(index, "Blocked", detail);
    let key = launch_task_key(index);
    mode.finish_task(key.as_str(), TaskStatus::Failed, detail, now);
    let message = concat("Launch blocked: ", detail);
    mode.push_activity(now, message.as_str());
    one_effect(Effect::Rebuild)
}

/// What a check has found, in words.
pub open spec fn checked_detail(name: Seq<char>, report: CheckReport, ours: bool) -> Seq<char> {
    name + " is "@ + (if report.running && ours {
        "running and tracked by this Cocoa-Way process"@
    } else if report.running {
        "ready; an untracked instance from an earlier run will be replaced on launch"@
    } else {
        "ready"@
    }) + ". Runtime: "@ + report.runtime@ + "; container: "@ + report.container_name@ + "; image: "@
        + report.image@ + "; command: "@ + report.command@ + "; waypipe: "@ + report.waypipe@
        + "; runtime binary: "@ + report.runtime_binary@
}

fn checked_text(name: &str, report: &CheckReport, ours: bool) -> (result: String)
    ensures
        result@ == checked_detail(name@, *report, ours),
{
    let status = if report.running && ours {
        "running and tracked by this Cocoa-Way process"
    } else if report.running {
        "ready; an untracked instance from an earlier run will be replaced on launch"
    } else {
        "ready"
    };
    let mut text = concat7(
        name,
        " is ",
        status,
        ". Runtime: ",
        report.runtime.as_str(),
        "; container: ",
        report.container_name.as_str(),
    );
    text.append("; image: ");
    text.append(report.image.as_str());
    text.append("; command: ");
    text.append(report.command.as_str());
    text.append("; waypipe: ");
    text.append(report.waypipe.as_str());
    text.append("; runtime binary: ");
    text.append(report.runtime_binary.as_str());
    text
}

/// A profile can be launched, or runs.
pub fn record_check_success(
    mode: &mut ContainerMode,
    sessions: &Vec<ContainerSession>,
    index: usize,
    report: &CheckReport,
    now: u128,
) -> (result: Vec<Effect>)
    requires
        old(mode).well_formed(),
    ensures
        final(mode).well_formed(),
        final(mode).deep_view() == ({
            let mode = old(mode).deep_view();
            let name = name_at(sessions.deep_view(), index, "Unknown application"@);
            let ours = active_of(mode.active_sessions, index) is Some;
            let detail = checked_detail(name, *report, ours);
            let label = if report.running && ours {
                instance_label(InstanceStatus::Running)
            } else {
                "Ready"@
            };
            note(
                validation_forgotten(state_set(mode, index, label, detail), index),
                now,
                "Profile validated: "@ + detail,
            )
        }),
        result.deep_view() == seq![EffectView::Rebuild],
{
    let name = session_name(sessions, index, "Unknown application");
    let ours = mode.active_session(index).is_some();
    let detail = checked_text(name.as_str(), report, ours);
    let label = match checked_instance_status(report.running, ours) {
        Some(status) => status.label(),
        None => "Ready",
    };
    mode.set_session_state(index, label, detail.as_str());
    mode.forget_validation(index);
    let message = concat("Profile validated: ", detail.as_str());
    mode.push_activity(now, message.as_str());
    one_effect(Effect::Rebuild)
}

/// The word for an application whose check or launch has failed.
pub open spec fn failure_label(error: LaunchErrorView) -> Seq<char> {
    if error is ContainerAlreadyRunning {
        "Running"@
    } else if error is UnsupportedDisplay {
        "Blocked"@
    } else {
        "Error"@
    }
}

fn failure_word(error: &LaunchError) -> (result: &'static str)
    ensures
        result@ == failure_label(error.deep_view()),
{
    if error.is_container_already_running() {
        "Running"
    } else if error.is_unsupported_display() {
        "Blocked"
    } else {
        "Error"
    }
}

/// A check of a profile has failed.
pub fn record_check_failure(
    mode: &mut ContainerMode,
    sessions: &Vec<ContainerSession>,
    index: usize,
    error: &LaunchError,
    now: u128,
) -> (result: Vec<Effect>)
    requires
        old(mode).well_formed(),
    ensures
        final(mode).well_formed(),
        final(mode).deep_view() == ({
            let mode = old(mode).deep_view();
            let name = name_at(sessions.deep_view(), index, "Unknown application"@);
            let detail = name + " check failed: "@ + launch_error_text(error.deep_view());
            let failed = state_set(
                session_selected(mode, index),
                index,
                failure_label(error.deep_view()),
                detail,
            );
            let invalid = match state_of(failed.states, index) {
                Some(state) => known_state_set(
                    failed,
                    index,
                    SessionStateView {
                        profile: ProfileStatus::Invalid,
                        instance: None,
                        failed_step: Some(LaunchStep::ValidateProfile),
                        ..state
                    },
                ),
                None => failed,
            };
            note(validation_forgotten(invalid, index), now, detail)
        }),
        result.deep_view() == seq![EffectView::Rebuild],
{
    let name = session_name(sessions, index, "Unknown application");
    let reason = error.to_string();
    let detail = concat3(name.as_str(), " check failed: ", reason.as_str());
    mode.select_session(index);
    mode.set_session_state(index, failure_word(error), detail.as_str());
    let known = match mode.session_state(index) {
        Some(state) => Some(state.clone()),
        None => None,
    };
    if let Some(mut state) = known {
        state.profile = ProfileStatus::Invalid;
        state.instance = None;
        state.failed_step = Some(LaunchStep::ValidateProfile);
        mode.replace_known_state(index, state);
    }
    mode.forget_validation(index);
    mode.push_activity(now, detail.as_str());
    one_effect(Effect::Rebuild)
}

/// A launch has failed.
pub fn record_launch_failure(
    mode: &mut ContainerMode,
    sessions: &Vec<ContainerSession>,
    index: usize,
    error: &LaunchError,
    now: u128,
) -> (result: Vec<Effect>)
    requires
        old(mode).well_formed(),
    ensures
        final(mode).well_formed(),
        final(mode).deep_view() == ({
            let mode = old(mode).deep_view();
            let name = name_at(sessions.deep_view(), index, "Unknown application"@);
            let detail = name + " failed to start: "@ + launch_error_text(error.deep_view());
            let failed = state_set(
                session_selected(mode, index),
                index,
                failure_label(error.deep_view()),
                detail,
            );
            let marked = match state_of(failed.states, index) {
                Some(state) => known_state_set(
                    failed,
                    index,
                    SessionStateView { instance: Some(InstanceStatus::Failed), ..state },
                ),
                None => failed,
            };
            note(
                task_finished(marked, launch_key(index), TaskStatus::Failed, detail, now),
                now,
                detail,
            )
        }),
        result.deep_view() == seq![EffectView::Rebuild],
{
    let name = session_name(sessions, index, "Unknown application");
    let reason = error.to_string();
    let detail = concat3(name.as_str(), " failed to start: ", reason.as_str());
    mode.select_session(index);
    mode.set_session_state(index, failure_word(error), detail.as_str());
    let known = match mode.session_state(index) {
        Some(state) => Some(state.clone()),
        None => None,
    };
    if let Some(mut state) = known {
        state.instance = Some(InstanceStatus::Failed);
        mode.replace_known_state(index, state);
    }
    let key = launch_task_key(index);
    mode.finish_task(key.as_str(), TaskStatus::Failed, detail.as_str(), now);
    mode.push_activity(now, detail.as_str());
    one_effect(Effect::Rebuild)
}

/// An application has said something.
pub fn record_session_log(
    mode: &mut ContainerMode,
    index: usize,
    source: &str,
    line: &str,
    now: u128,
) -> (result: Vec<Effect>)
    requires
        old(mode).well_formed(),
    ensures
        final(mode).well_formed(),
        final(mode).deep_view() == ({
            let mode = old(mode).deep_view();
            let kept = ModeView { logs: logged(mode.logs, index, source@, line@), ..mode };
            note(kept, now, source@ + ": "@ + cleaned(line@))
        }),
        result.deep_view() == seq![EffectView::RebuildThrottled(500)],
{
    mode.push_log(index, source, line);
    let clean = clean_session_log_line(line);
    let message = concat3(source, ": ", clean.as_str());
    mode.push_activity(now, message.as_str());
    one_effect(Effect::RebuildThrottled(500))
}

/// An application was stopped.
pub fn record_stop_success(
    mode: &mut ContainerMode,
    sessions: &Vec<ContainerSession>,
    index: usize,
    now: u128,
) -> (result: Vec<Effect>)
    requires
        old(mode).well_formed(),
    ensures
        final(mode).well_formed(),
        final(mode).deep_view() == ({
            let mode = old(mode).deep_view();
            let detail = name_at(sessions.deep_view(), index, "Unknown application"@) + " stopped."@;
            let stopped = state_set(mode, index, "Stopped"@, detail);
            note(
                task_finished(stopped, stop_key(index), TaskStatus::Completed, detail, now),
                now,
                detail,
            )
        }),
        result.deep_view() == seq![EffectView::InvalidateCommands, EffectView::Rebuild],
{
    let name = session_name(sessions, index, "Unknown application");
    let detail = concat(name.as_str(), " stopped.");
    mode.set_session_state(index, "Stopped", detail.as_str());
    let key = stop_task_key(index);
    mode.finish_task(key.as_str(), TaskStatus::Completed, detail.as_str(), now);
    mode.push_activity(now, detail.as_str());
    two_effects(Effect::InvalidateCommands, Effect::Rebuild)
}

/// An application could not be stopped.
pub fn record_stop_failure(
    mode: &mut ContainerMode,
    sessions: &Vec<ContainerSession>,
    index: usize,
    error: &str,
    now: u128,
) -> (result: Vec<Effect>)
    requires
        old(mode).well_formed(),
    ensures
        final(mode).well_formed(),
        final(mode).deep_view() == ({
            let mode = old(mode).deep_view();
            let detail = name_at(sessions.deep_view(), index, "Unknown application"@) + " stop failed: "@
                + error@;
            let failed = state_set(mode, index, "Error"@, detail);
            note(
                task_finished(failed, stop_key(index), TaskStatus::Failed, detail, now),
                now,
                detail,
            )
        }),
        result.deep_view() == seq![EffectView::Rebuild],
{
    let name = session_name(sessions, index, "Unknown application");
    let detail = concat3(name.as_str(), " stop failed: ", error);
    mode.set_session_state(index, "Error", detail.as_str());
    let key = stop_task_key(index);
    mode.finish_task(key.as_str(), TaskStatus::Failed, detail.as_str(), now);
    mode.push_activity(now, detail.as_str());
    one_effect(Effect::Rebuild)
}

/// A terminal of an application is open.
pub fn record_terminal_opened(
    mode: &mut ContainerMode,
    sessions: &Vec<ContainerSession>,
    index: usize,
    now: u128,
) -> (result: Vec<Effect>)
    requires
        old(mode).well_formed(),
    ensures
        final(mode).well_formed(),
        final(mode).deep_view() == ({
            let mode = old(mode).deep_view();
            note(
                mode,
                now,
                "Terminal opened for "@ + name_at(
                    sessions.deep_view(),
                    index,
                    "Unknown application"@,
                ) + "."@,
            )
        }),
        result.deep_view() == seq![EffectView::Rebuild],
{
    let name = session_name(sessions, index, "Unknown application");
    let message = concat3("Terminal opened for ", name.as_str(), ".");
    mode.push_activity(now, message.as_str());
    one_effect(Effect::Rebuild)
}

/// A terminal of an application could not be opened.
pub fn record_terminal_open_failed(
    mode: &mut ContainerMode,
    sessions: &Vec<ContainerSession>,
    index: usize,
    error: &str,
    now: u128,
) -> (result: Vec<Effect>)
    requires
        old(mode).well_formed(),
    ensures
        final(mode).well_formed(),
        final(mode).deep_view() == ({
            let mode = old(mode).deep_view();
            let detail = "Terminal failed for "@ + name_at(
                sessions.deep_view(),
                index,
                "Unknown application"@,
            ) + ": "@ + error@;
            state_set(note(mode, now, detail), index, "Error"@, detail)
        }),
        result.deep_view() == seq![EffectView::Rebuild],
{
    let name = session_name(sessions, index, "Unknown application");
    let detail = concat4("Terminal failed for ", name.as_str(), ": ", error);
    mode.push_activity(now, detail.as_str());
    mode.set_session_state(index, "Error", detail.as_str());
    one_effect(Effect::Rebuild)
}

/// A process of an application has ended, and with it the application.
pub fn record_process_exit(
    mode: &mut ContainerMode,
    sessions: &Vec<ContainerSession>,
    index: usize,
    process: &str,
    status: &str,
    now: u128,
) -> (result: Vec<Effect>)
    requires
        old(mode).well_formed(),
    ensures
        final(mode).well_formed(),
        final(mode).deep_view() == ({
            let mode = old(mode).deep_view();
            let detail = name_at(sessions.deep_view(), index, "Unknown application"@)
                + " exited because "@ + process@ + " ended with "@ + status@ + "."@;
            let exited = state_set(mode, index, "Exited"@, detail);
            note(
                task_finished(exited, stop_key(index), TaskStatus::Completed, detail, now),
                now,
                detail,
            )
        }),
        result.deep_view() == seq![EffectView::InvalidateCommands, EffectView::Rebuild],
{
    let name = session_name(sessions, index, "Unknown application");
    let detail = concat6(
        name.as_str(),
        " exited because ",
        process,
        " ended with ",
        status,
        ".",
    );
    mode.set_session_state(index, "Exited", detail.as_str());
    let key = stop_task_key(index);
    mode.finish_task(key.as_str(), TaskStatus::Completed, detail.as_str(), now);
    mode.push_activity(now, detail.as_str());
    two_effects(Effect::InvalidateCommands, Effect::Rebuild)
}

// ---------------------------------------------------------------------------
// Instances and displays
// ---------------------------------------------------------------------------
fn same_option(a: &Option<String>, b: &Option<String>) -> (result: bool)
    ensures
        result == (a.deep_view() == b.deep_view()),
{
    match (a, b) {
        (Some(a), Some(b)) => same(a.as_str(), b.as_str()),
        (None, None) => true,
        _ => false,
    }
}

fn same_instance(a: &ActiveSessionSnapshot, b: &ActiveSessionSnapshot) -> (result: bool)
    ensures
        result == (a.deep_view() == b.deep_view()),
{
    a.id == b.id && a.profile_index == b.profile_index && a.started_at_unix_ms
        == b.started_at_unix_ms && a.container_pid == b.container_pid && a.waypipe_pid
        == b.waypipe_pid && same(a.display_slot.as_str(), b.display_slot.as_str()) && a.display_pid
        == b.display_pid && same_option(&a.display_runtime_dir, &b.display_runtime_dir)
}

fn same_instances(a: &Vec<ActiveSessionSnapshot>, b: &Vec<ActiveSessionSnapshot>) -> (result: bool)
    ensures
        result == (a.deep_view() == b.deep_view()),
{
    if a.len() != b.len() {
        assert(a.deep_view().len() != b.deep_view().len());
        return false;
    }
    for i in 0..a.len()
        invariant
            a@.len() == b@.len(),
            forall|j: int| 0 <= j < i ==> (#[trigger] a@[j]).deep_view() == b@[j].deep_view(),
    {
        if !same_instance(&a[i], &b[i]) {
            assert(a.deep_view()[i as int] != b.deep_view()[i as int]);
            return false;
        }
    }
    assert(a.deep_view() == b.deep_view());
    true
}

fn same_displays(a: &Vec<ManagedDisplaySnapshot>, b: &Vec<ManagedDisplaySnapshot>) -> (result: bool)
    ensures
        result == (a.deep_view() == b.deep_view()),
{
    if a.len() != b.len() {
        assert(a.deep_view().len() != b.deep_view().len());
        return false;
    }
    for i in 0..a.len()
        invariant
            a@.len() == b@.len(),
            forall|j: int| 0 <= j < i ==> (#[trigger] a@[j]).deep_view() == b@[j].deep_view(),
    {
        let equal = same(a[i].slot.as_str(), b[i].slot.as_str()) && same(
            a[i].runtime_dir.as_str(),
            b[i].runtime_dir.as_str(),
        ) && same(a[i].display.as_str(), b[i].display.as_str()) && a[i].pid == b[i].pid;
        assert(equal == (a@[i as int].deep_view() == b@[i as int].deep_view()));
        if !equal {
            assert(a.deep_view()[i as int] != b.deep_view()[i as int]);
            return false;
        }
    }
    assert(a.deep_view() == b.deep_view());
    true
}

/// The instances that run are known; where they are the same as before, nothing
/// follows.
pub fn record_active_container_sessions(
    mode: &mut ContainerMode,
    sessions: Vec<ActiveSessionSnapshot>,
) -> (result: Vec<Effect>)
    requires
        old(mode).well_formed(),
    ensures
        final(mode).well_formed(),
        final(mode).deep_view() == (ModeView {
            active_sessions: sessions.deep_view(),
            ..old(mode).deep_view()
        }),
        result.deep_view() == (if sessions.deep_view() == old(mode).deep_view().active_sessions {
            Seq::empty()
        } else {
            seq![EffectView::RefreshThrottled(500)]
        }),
{
    if same_instances(&mode.active_sessions, &sessions) {
        return empty_list();
    }
    mode.active_sessions = sessions;
    one_effect(Effect::RefreshThrottled(500))
}

/// The names of displays.
pub open spec fn slots_of(displays: Seq<ManagedView>) -> Seq<Seq<char>> {
    displays.map_values(|display: ManagedView| display.slot)
}

fn display_slots(displays: &Vec<ManagedDisplaySnapshot>) -> (result: Vec<String>)
    ensures
        result.deep_view() == slots_of(displays.deep_view()),
{
    let mut result: Vec<String> = Vec::new();
    for i in 0..displays.len()
        invariant
            result@.len() == i,
            forall|j: int| 0 <= j < i ==> (#[trigger] result@[j])@ == displays@[j].slot@,
    {
        result.push(displays[i].slot.clone());
    }
    assert(result.deep_view() == slots_of(displays.deep_view()));
    result
}

/// The displays that are there are known. Those that were being made and are
/// there are no longer being made; those that were being closed and are gone
/// are no longer being closed.
pub fn record_managed_displays(
    mode: &mut ContainerMode,
    displays: Vec<ManagedDisplaySnapshot>,
) -> (result: Vec<Effect>)
    requires
        old(mode).well_formed(),
    ensures
        final(mode).well_formed(),
        if displays.deep_view() == old(mode).deep_view().managed_displays {
            final(mode).deep_view() == old(mode).deep_view() && result.deep_view() == Seq::<
                EffectView,
            >::empty()
        } else {
            let slots = slots_of(displays.deep_view());
            &&& final(mode).deep_view() == (ModeView {
                managed_displays: displays.deep_view(),
                pending_displays: members(old(mode).deep_view().pending_displays, slots, false),
                closing_displays: members(old(mode).deep_view().closing_displays, slots, true),
                ..old(mode).deep_view()
            })
            &&& result.deep_view() == seq![EffectView::RefreshThrottled(100)]
        },
{
    if same_displays(&mode.managed_displays, &displays) {
        return empty_list();
    }
    let slots = display_slots(&displays);
    proof {
        lemma_members(mode.pending_displays.deep_view(), slots.deep_view(), false);
    }
    mode.managed_displays = displays;
    mode.pending_displays = keep_members(&mode.pending_displays, &slots, false);
    mode.closing_displays = keep_members(&mode.closing_displays, &slots, true);
    one_effect(Effect::RefreshThrottled(100))
}

/// A display is being made.
pub fn record_managed_display_starting(
    mode: &mut ContainerMode,
    slot: &str,
    now: u128,
) -> (result: Vec<Effect>)
    requires
        old(mode).well_formed(),
    ensures
        final(mode).well_formed(),
        final(mode).deep_view() == ({
            let mode = old(mode).deep_view();
            let begun = ModeView {
                pending_displays: if mode.pending_displays.contains(slot@) {
                    mode.pending_displays
                } else {
                    mode.pending_displays.push(slot@)
                },
                display_error: None,
                ..mode
            };
            note(begun, now, "Creating managed display: "@ + slot@)
        }),
        result.deep_view() == seq![EffectView::RefreshThrottled(100)],
{
    if !has_text(&mode.pending_displays, slot) {
        push_text(&mut mode.pending_displays, slot);
    }
    mode.display_error = None;
    let message = concat("Creating managed display: ", slot);
    mode.push_activity(now, message.as_str());
    one_effect(Effect::RefreshThrottled(100))
}

/// A display could not be made or closed.
pub fn record_managed_display_failure(
    mode: &mut ContainerMode,
    slot: &str,
    error: &str,
    now: u128,
) -> (result: Vec<Effect>)
    requires
        old(mode).well_formed(),
    ensures
        final(mode).well_formed(),
        final(mode).deep_view() == ({
            let mode = old(mode).deep_view();
            let message = "Managed display '"@ + slot@ + "': "@ + error@;
            let failed = ModeView {
                pending_displays: without_text(mode.pending_displays, slot@),
                closing_displays: without_text(mode.closing_displays, slot@),
                display_error: Some(message),
                ..mode
            };
            note(failed, now, message)
        }),
        result.deep_view() == seq![EffectView::RefreshThrottled(100)],
{
    proof {
        lemma_without_text(mode.pending_displays.deep_view(), slot@);
    }
    mode.pending_displays = drop_text(&mode.pending_displays, slot);
    mode.closing_displays = drop_text(&mode.closing_displays, slot);
    let message = concat4("Managed display '", slot, "': ", error);
    mode.display_error = Some(message.clone());
    mode.push_activity(now, message.as_str());
    one_effect(Effect::RefreshThrottled(100))
}

/// A display is gone.
pub fn record_managed_display_exit(
    mode: &mut ContainerMode,
    slot: &str,
    reason: &str,
    now: u128,
) -> (result: Vec<Effect>)
    requires
        old(mode).well_formed(),
    ensures
        final(mode).well_formed(),
        final(mode).deep_view() == ({
            let mode = old(mode).deep_view();
            let gone = ModeView {
                pending_displays: without_text(mode.pending_displays, slot@),
                closing_displays: without_text(mode.closing_displays, slot@),
                ..mode
            };
            note(gone, now, "Managed display '"@ + slot@ + "' closed: "@ + reason@)
        }),
        result.deep_view() == seq![EffectView::RefreshThrottled(100)],
{
    proof {
        lemma_without_text(mode.pending_displays.deep_view(), slot@);
    }
    mode.pending_displays = drop_text(&mode.pending_displays, slot);
    mode.closing_displays = drop_text(&mode.closing_displays, slot);
    let message = concat4("Managed display '", slot, "' closed: ", reason);
    mode.push_activity(now, message.as_str());
    one_effect(Effect::RefreshThrottled(100))
}

// ---------------------------------------------------------------------------
// Images
// ---------------------------------------------------------------------------
pub open spec fn end_status(success: bool) -> TaskStatus {
    if success {
        TaskStatus::Completed
    } else {
        TaskStatus::Failed
    }
}

fn task_end(success: bool) -> (result: TaskStatus)
    ensures
        result == end_status(success),
{
    if success {
        TaskStatus::Completed
    } else {
        TaskStatus::Failed
    }
}

pub open spec fn end_word(success: bool) -> Seq<char> {
    if success {
        "finished"@
    } else {
        "failed"@
    }
}

fn task_end_word(success: bool) -> (result: &'static str)
    ensures
        result@ == end_word(success),
{
    if success {
        "finished"
    } else {
        "failed"
    }
}

/// The place of the first image that is to become a profile, or -1.
pub open spec fn pull_place(
    pulls: Seq<(Seq<char>, Seq<char>)>,
    runtime: Seq<char>,
    image: Seq<char>,
) -> int
    decreases pulls.len(),
{
    if pulls.len() == 0 {
        -1
    } else {
        let before = pull_place(pulls.drop_last(), runtime, image);
        if before >= 0 {
            before
        } else if pulls.last() == (runtime, image) {
            pulls.len() - 1
        } else {
            -1
        }
    }
}

proof fn lemma_pull_stays(
    pulls: Seq<(Seq<char>, Seq<char>)>,
    runtime: Seq<char>,
    image: Seq<char>,
    count: int,
)
    requires
        0 <= count <= pulls.len(),
        pull_place(pulls.take(count), runtime, image) >= 0,
    ensures
        pull_place(pulls, runtime, image) == pull_place(pulls.take(count), runtime, image),
    decreases pulls.len() - count,
{
    if count == pulls.len() {
        assert(pulls.take(count) == pulls);
    } else {
        assert(pulls.take(count + 1).drop_last() == pulls.take(count));
        lemma_pull_stays(pulls, runtime, image, count + 1);
    }
}

fn find_pull(pulls: &Vec<(String, String)>, runtime: &str, image: &str) -> (result: Option<usize>)
    ensures
        match result {
            Some(place) => place < pulls@.len() && place == pull_place(
                pulls.deep_view(),
                runtime@,
                image@,
            ),
            None => pull_place(pulls.deep_view(), runtime@, image@) < 0,
        },
{
    let ghost all = pulls.deep_view();
    for i in 0..pulls.len()
        invariant
            all == pulls.deep_view(),
            pull_place(all.take(i as int), runtime@, image@) < 0,
    {
        assert(all.take(i + 1).last() == pulls@[i as int].deep_view());
        assert(all.take(i + 1).drop_last() == all.take(i as int));
        if same(pulls[i].0.as_str(), runtime) && same(pulls[i].1.as_str(), image) {
            proof {
                lemma_pull_stays(all, runtime@, image@, i + 1);
            }
            return Some(i);
        }
    }
    assert(all.take(all.len() as int) == all);
    None
}

/// An image is being fetched.
pub fn record_image_pull_started(
    mode: &mut ContainerMode,
    runtime: &str,
    image: &str,
    configure_session: bool,
    now: u128,
) -> (result: Vec<Effect>)
    requires
        old(mode).well_formed(),
    ensures
        final(mode).well_formed(),
        final(mode).deep_view() == ({
            let mode = old(mode).deep_view();
            let key = resource_key("image"@, "pull"@, runtime@, image@);
            let begun = task_started(
                mode,
                key,
                "Pull Image"@,
                image@,
                seq!["Resolve runtime"@, "Transfer image"@, "Refresh inventory"@],
                now,
            );
            let stepped = task_stepped(
                begun,
                key,
                "Transfer image"@,
                TaskStepStatus::Running,
                "Pulling from "@ + shown_runtime(runtime@) + "."@,
                now,
            );
            let shown = image_task_set(
                stepped,
                Some("Pulling "@ + runtime@ + " image "@ + image@ + "..."@),
            );
            let wanted = ModeView {
                pending_pulls: if configure_session {
                    shown.pending_pulls.push((runtime@, image@))
                } else {
                    shown.pending_pulls
                },
                ..shown
            };
            note(wanted, now, "Pull started: "@ + runtime@ + " image "@ + image@)
        }),
        result.deep_view() == seq![EffectView::Rebuild],
{
    let key = resource_task_key("image", "pull", runtime, image);
    let steps = texts3("Resolve runtime", "Transfer image", "Refresh inventory");
    mode.start_task(key.as_str(), "Pull Image", image, &steps, now);
    let detail = concat3("Pulling from ", runtime_label(runtime), ".");
    mode.step_task(
        key.as_str(),
        "Transfer image",
        TaskStepStatus::Running,
        detail.as_str(),
        now,
    );
    let shown = concat5("Pulling ", runtime, " image ", image, "...");
    mode.set_image_task_active(shown.as_str());
    if configure_session {
        push_deep(&mut mode.pending_pulls, (runtime.to_owned(), image.to_owned()));
    }
    let message = concat4("Pull started: ", runtime, " image ", image);
    mode.push_activity(now, message.as_str());
    one_effect(Effect::Rebuild)
}

/// Something was said while an image is being fetched.
pub fn record_image_pull_log(
    mode: &mut ContainerMode,
    runtime: &str,
    image: &str,
    line: &str,
    now: u128,
) -> (result: Vec<Effect>)
    requires
        old(mode).well_formed(),
    ensures
        final(mode).well_formed(),
        final(mode).deep_view() == ({
            let mode = old(mode).deep_view();
            let line = cleaned(line@);
            let told = if line.len() == 0 {
                mode
            } else {
                task_stepped(
                    ModeView {
                        image_task: match mode.image_task {
                            Some(task) => Some((task.0, Some(line))),
                            None => None,
                        },
                        ..mode
                    },
                    resource_key("image"@, "pull"@, runtime@, image@),
                    "Transfer image"@,
                    TaskStepStatus::Running,
                    line,
                    now,
                )
            };
            note(told, now, "pull "@ + runtime@ + " "@ + image@ + ": "@ + line)
        }),
        result.deep_view() == seq![EffectView::RebuildThrottled(500)],
{
    let line = clean_session_log_line(line);
    if line.as_str().unicode_len() != 0 {
        mode.image_task = match mode.image_task.take() {
            Some(task) => Some((task.0, Some(line.clone()))),
            None => None,
        };
        let key = resource_task_key("image", "pull", runtime, image);
        mode.step_task(
            key.as_str(),
            "Transfer image",
            TaskStepStatus::Running,
            line.as_str(),
            now,
        );
    }
    let message = concat6("pull ", runtime, " ", image, ": ", line.as_str());
    mode.push_activity(now, message.as_str());
    one_effect(Effect::RebuildThrottled(500))
}

/// An image was fetched, or not. Where it was to become a profile and is here,
/// the user is asked for the rest.
pub fn record_image_pull_finished(
    mode: &mut ContainerMode,
    runtime: &str,
    image: &str,
    success: bool,
    status: &str,
    now: u128,
) -> (result: Vec<Effect>)
    requires
        old(mode).well_formed(),
    ensures
        final(mode).well_formed(),
        final(mode).deep_view() == ({
            let mode = old(mode).deep_view();
            let place = pull_place(mode.pending_pulls, runtime@, image@);
            let settled = ModeView {
                pending_pulls: if place < 0 {
                    mode.pending_pulls
                } else {
                    mode.pending_pulls.remove(place)
                },
                ..mode
            };
            let ended = task_finished(
                image_task_set(settled, None),
                resource_key("image"@, "pull"@, runtime@, image@),
                end_status(success),
                status@,
                now,
            );
            note(
                ended,
                now,
                "Pull "@ + end_word(success) + ": "@ + runtime@ + " image "@ + image@ + " ("@ + status@
                    + ")"@,
            )
        }),
        result.deep_view() == (if success && pull_place(
            old(mode).deep_view().pending_pulls,
            runtime@,
            image@,
        ) >= 0 {
            seq![
                EffectView::InvalidateCommands,
                EffectView::Rebuild,
                EffectView::ConfigureImage { runtime: runtime@, image: image@ },
            ]
        } else {
            seq![EffectView::InvalidateCommands, EffectView::Rebuild]
        }),
{
    let mut effects = two_effects(Effect::InvalidateCommands, Effect::Rebuild);
    let ghost pulls = mode.pending_pulls.deep_view();
    if let Some(place) = find_pull(&mode.pending_pulls, runtime, image) {
        mode.pending_pulls.remove(place);
        assert(mode.pending_pulls.deep_view() == pulls.remove(place as int));
        if success {
            push_deep(
                &mut effects,
                Effect::ConfigureImage { runtime: runtime.to_owned(), image: image.to_owned() },
            );
        }
    }
    mode.clear_image_task_active();
    let key = resource_task_key("image", "pull", runtime, image);
    mode.finish_task(key.as_str(), task_end(success), status, now);
    let mut message = concat7(
        "Pull ",
        task_end_word(success),
        ": ",
        runtime,
        " image ",
        image,
        " (",
    );
    message.append(status);
    message.append(")");
    mode.push_activity(now, message.as_str());
    effects
}

/// An archive is being read.
pub fn record_image_load_started(
    mode: &mut ContainerMode,
    path: &str,
    now: u128,
) -> (result: Vec<Effect>)
    requires
        old(mode).well_formed(),
    ensures
        final(mode).well_formed(),
        final(mode).deep_view() == ({
            let mode = old(mode).deep_view();
            let key = resource_key("image"@, "load"@, "apple"@, path@);
            let begun = task_started(
                mode,
                key,
                "Import OCI Image"@,
                path@,
                seq!["Read archive"@, "Import image"@, "Refresh inventory"@],
                now,
            );
            let stepped = task_stepped(
                begun,
                key,
                "Import image"@,
                TaskStepStatus::Running,
                "Loading the OCI archive into Apple Container."@,
                now,
            );
            let shown = image_task_set(stepped, Some("Loading OCI archive "@ + path@ + "..."@));
            note(shown, now, "Image load started: "@ + path@)
        }),
        result.deep_view() == seq![EffectView::Rebuild],
{
    let key = resource_task_key("image", "load", "apple", path);
    let steps = texts3("Read archive", "Import image", "Refresh inventory");
    mode.start_task(key.as_str(), "Import OCI Image", path, &steps, now);
    let detail = "Loading the OCI archive into Apple Container.".to_owned();
    mode.step_task(
        key.as_str(),
        "Import image",
        TaskStepStatus::Running,
        detail.as_str(),
        now,
    );
    let shown = concat3("Loading OCI archive ", path, "...");
    mode.set_image_task_active(shown.as_str());
    let message = concat("Image load started: ", path);
    mode.push_activity(now, message.as_str());
    one_effect(Effect::Rebuild)
}

/// Something was said while an archive is being read.
pub fn record_image_load_log(
    mode: &mut ContainerMode,
    path: &str,
    line: &str,
    now: u128,
) -> (result: Vec<Effect>)
    requires
        old(mode).well_formed(),
    ensures
        final(mode).well_formed(),
        final(mode).deep_view() == ({
            let mode = old(mode).deep_view();
            let stepped = task_stepped(
                mode,
                resource_key("image"@, "load"@, "apple"@, path@),
                "Import image"@,
                TaskStepStatus::Running,
                cleaned(line@),
                now,
            );
            note(stepped, now, "load "@ + path@ + ": "@ + line@)
        }),
        result.deep_view() == seq![EffectView::RebuildThrottled(500)],
{
    let key = resource_task_key("image", "load", "apple", path);
    let clean = clean_session_log_line(line);
    mode.step_task(
        key.as_str(),
        "Import image",
        TaskStepStatus::Running,
        clean.as_str(),
        now,
    );
    let message = concat4("load ", path, ": ", line);
    mode.push_activity(now, message.as_str());
    one_effect(Effect::RebuildThrottled(500))
}

/// An archive was read, or not.
pub fn record_image_load_finished(
    mode: &mut ContainerMode,
    path: &str,
    success: bool,
    status: &str,
    now: u128,
) -> (result: Vec<Effect>)
    requires
        old(mode).well_formed(),
    ensures
        final(mode).well_formed(),
        final(mode).deep_view() == ({
            let mode = old(mode).deep_view();
            let ended = task_finished(
                image_task_set(mode, None),
                resource_key("image"@, "load"@, "apple"@, path@),
                end_status(success),
                status@,
                now,
            );
            note(ended, now, "Image load "@ + end_word(success) + ": "@ + path@ + " ("@ + status@ + ")"@)
        }),
        result.deep_view() == seq![EffectView::InvalidateCommands, EffectView::Rebuild],
{
    mode.clear_image_task_active();

    let key = resource_task_key("image", "load", "apple", path);
    mode.finish_task(key.as_str(), task_end(success), status, now);
    let message = concat7("Image load ", task_end_word(success), ": ", path, " (", status, ")");
    mode.push_activity(now, message.as_str());
    two_effects(Effect::InvalidateCommands, Effect::Rebuild)
}

/// An image is being built.
pub fn record_image_build_started(
    mode: &mut ContainerMode,
    image: &str,
    containerfile: &str,
    now: u128,
) -> (result: Vec<Effect>)
    requires
        old(mode).well_formed(),
    ensures
        final(mode).well_formed(),
        final(mode).deep_view() == ({
            let mode = old(mode).deep_view();
            let key = resource_key("image"@, "build"@, "apple"@, image@);
            let begun = task_started(
                mode,
                key,
                "Build Image"@,
                image@,
                seq!["Read Containerfile"@, "Build layers"@, "Tag image"@, "Refresh inventory"@],
                now,
            );
            let stepped = task_stepped(
                begun,
                key,
                "Build layers"@,
                TaskStepStatus::Running,
                "Building from "@ + containerfile@ + "."@,
                now,
            );
            let shown = image_task_set(stepped, Some("Building "@ + image@ + " from "@ + containerfile@ + "..."@));
            note(shown, now, "Image build started: "@ + image@ + " from "@ + containerfile@)
        }),
        result.deep_view() == seq![EffectView::Rebuild],
{
    let key = resource_task_key("image", "build", "apple", image);
    let steps = texts4("Read Containerfile", "Build layers", "Tag image", "Refresh inventory");
    mode.start_task(key.as_str(), "Build Image", image, &steps, now);
    let detail = concat3("Building from ", containerfile, ".");
    mode.step_task(
        key.as_str(),
        "Build layers",
        TaskStepStatus::Running,
        detail.as_str(),
        now,
    );
    let shown = concat5("Building ", image, " from ", containerfile, "...");
    mode.set_image_task_active(shown.as_str());
    let message = concat4("Image build started: ", image, " from ", containerfile);
    mode.push_activity(now, message.as_str());
    one_effect(Effect::Rebuild)
}

/// Something was said while an image is being built.
pub fn record_image_build_log(
    mode: &mut ContainerMode,
    image: &str,
    line: &str,
    now: u128,
) -> (result: Vec<Effect>)
    requires
        old(mode).well_formed(),
    ensures
        final(mode).well_formed(),
        final(mode).deep_view() == ({
            let mode = old(mode).deep_view();
            let stepped = task_stepped(
                mode,
                resource_key("image"@, "build"@, "apple"@, image@),
                "Build layers"@,
                TaskStepStatus::Running,
                cleaned(line@),
                now,
            );
            note(stepped, now, "build "@ + image@ + ": "@ + line@)
        }),
        result.deep_view() == seq![EffectView::RebuildThrottled(500)],
{
    let key = resource_task_key("image", "build", "apple", image);
    let clean = clean_session_log_line(line);
    mode.step_task(
        key.as_str(),
        "Build layers",
        TaskStepStatus::Running,
        clean.as_str(),
        now,
    );
    let message = concat4("build ", image, ": ", line);
    mode.push_activity(now, message.as_str());
    one_effect(Effect::RebuildThrottled(500))
}

/// An image was built, or not.
pub fn record_image_build_finished(
    mode: &mut ContainerMode,
    image: &str,
    success: bool,
    status: &str,
    now: u128,
) -> (result: Vec<Effect>)
    requires
        old(mode).well_formed(),
    ensures
        final(mode).well_formed(),
        final(mode).deep_view() == ({
            let mode = old(mode).deep_view();
            let ended = task_finished(
                image_task_set(mode, None),
                resource_key("image"@, "build"@, "apple"@, image@),
                end_status(success),
                status@,
                now,
            );
            note(ended, now, "Image build "@ + end_word(success) + ": "@ + image@ + " ("@ + status@ + ")"@)
        }),
        result.deep_view() == seq![EffectView::InvalidateCommands, EffectView::Rebuild],
{
    mode.clear_image_task_active();

    let key = resource_task_key("image", "build", "apple", image);
    mode.finish_task(key.as_str(), task_end(success), status, now);
    let message = concat7("Image build ", task_end_word(success), ": ", image, " (", status, ")");
    mode.push_activity(now, message.as_str());
    two_effects(Effect::InvalidateCommands, Effect::Rebuild)
}

/// An image is being deleted.
pub fn record_image_delete_started(
    mode: &mut ContainerMode,
    runtime: &str,
    image: &str,
    now: u128,
) -> (result: Vec<Effect>)
    requires
        old(mode).well_formed(),
    ensures
        final(mode).well_formed(),
        final(mode).deep_view() == ({
            let mode = old(mode).deep_view();
            let key = resource_key("image"@, "delete"@, runtime@, image@);
            let begun = task_started(
                mode,
                key,
                "Delete Image"@,
                image@,
                seq!["Check dependencies"@, "Delete image"@, "Refresh inventory"@],
                now,
            );
            let stepped = task_stepped(
                begun,
                key,
                "Delete image"@,
                TaskStepStatus::Running,
                "Deleting from "@ + shown_runtime(runtime@) + "."@,
                now,
            );
            let shown = image_task_set(stepped, Some("Deleting "@ + runtime@ + " image "@ + image@ + "..."@));
            note(shown, now, "Image delete started: "@ + runtime@ + " "@ + image@)
        }),
        result.deep_view() == seq![EffectView::Rebuild],
{
    let key = resource_task_key("image", "delete", runtime, image);
    let steps = texts3("Check dependencies", "Delete image", "Refresh inventory");
    mode.start_task(key.as_str(), "Delete Image", image, &steps, now);
    let detail = concat3("Deleting from ", runtime_label(runtime), ".");
    mode.step_task(
        key.as_str(),
        "Delete image",
        TaskStepStatus::Running,
        detail.as_str(),
        now,
    );
    let shown = concat5("Deleting ", runtime, " image ", image, "...");
    mode.set_image_task_active(shown.as_str());
    let message = concat4("Image delete started: ", runtime, " ", image);
    mode.push_activity(now, message.as_str());
    one_effect(Effect::Rebuild)
}

/// Something was said while an image is being deleted.
pub fn record_image_delete_log(
    mode: &mut ContainerMode,
    runtime: &str,
    image: &str,
    line: &str,
    now: u128,
) -> (result: Vec<Effect>)
    requires
        old(mode).well_formed(),
    ensures
        final(mode).well_formed(),
        final(mode).deep_view() == ({
            let mode = old(mode).deep_view();
            let stepped = task_stepped(
                mode,
                resource_key("image"@, "delete"@, runtime@, image@),
                "Delete image"@,
                TaskStepStatus::Running,
                cleaned(line@),
                now,
            );
            note(stepped, now, "delete image "@ + image@ + ": "@ + line@)
        }),
        result.deep_view() == seq![EffectView::RebuildThrottled(500)],
{
    let key = resource_task_key("image", "delete", runtime, image);
    let clean = clean_session_log_line(line);
    mode.step_task(
        key.as_str(),
        "Delete image",
        TaskStepStatus::Running,
        clean.as_str(),
        now,
    );
    let message = concat4("delete image ", image, ": ", line);
    mode.push_activity(now, message.as_str());
    one_effect(Effect::RebuildThrottled(500))
}

/// An image was deleted, or not.
pub fn record_image_delete_finished(
    mode: &mut ContainerMode,
    runtime: &str,
    image: &str,
    success: bool,
    status: &str,
    now: u128,
) -> (result: Vec<Effect>)
    requires
        old(mode).well_formed(),
    ensures
        final(mode).well_formed(),
        final(mode).deep_view() == ({
            let mode = old(mode).deep_view();
            let ended = task_finished(
                image_task_set(mode, None),
                resource_key("image"@, "delete"@, runtime@, image@),
                end_status(success),
                status@,
                now,
            );
            note(ended, now, "Image delete "@ + end_word(success) + ": "@ + image@ + " ("@ + status@ + ")"@)
        }),
        result.deep_view() == seq![EffectView::InvalidateCommands, EffectView::Rebuild],
{
    mode.clear_image_task_active();

    let key = resource_task_key("image", "delete", runtime, image);
    mode.finish_task(key.as_str(), task_end(success), status, now);
    let message = concat7("Image delete ", task_end_word(success), ": ", image, " (", status, ")");
    mode.push_activity(now, message.as_str());
    two_effects(Effect::InvalidateCommands, Effect::Rebuild)
}

/// There is too little room for what was asked.
pub fn record_storage_growth_blocked(
    mode: &mut ContainerMode,
    action: &str,
    error: &str,
    now: u128,
) -> (result: Vec<Effect>)
    requires
        old(mode).well_formed(),
    ensures
        final(mode).well_formed(),
        final(mode).deep_view() == ({
            let mode = old(mode).deep_view();
            note(
                image_task_set(mode, None),
                now,
                "Storage protection blocked "@ + action@ + ": "@ + error@,
            )
        }),
        result.deep_view() == seq![EffectView::Rebuild],
{
    mode.clear_image_task_active();
    let message = concat4("Storage protection blocked ", action, ": ", error);
    mode.push_activity(now, message.as_str());
    one_effect(Effect::Rebuild)
}

// ---------------------------------------------------------------------------
// Volumes
// ---------------------------------------------------------------------------

/// A volume is being deleted.
pub fn record_volume_delete_started(
    mode: &mut ContainerMode,
    runtime: &str,
    volume: &str,
    now: u128,
) -> (result: Vec<Effect>)
    requires
        old(mode).well_formed(),
    ensures
        final(mode).well_formed(),
        final(mode).deep_view() == ({
            let mode = old(mode).deep_view();
            let key = resource_key("volume"@, "delete"@, runtime@, volume@);
            let begun = task_started(
                mode,
                key,
                "Delete Volume"@,
                volume@,
                seq!["Check usage"@, "Delete volume"@, "Refresh inventory"@],
                now,
            );
            let stepped = task_stepped(
                begun,
                key,
                "Delete volume"@,
                TaskStepStatus::Running,
                "Deleting from "@ + shown_runtime(runtime@) + "."@,
                now,
            );
            note(stepped, now, "Volume delete started: "@ + runtime@ + " "@ + volume@)
        }),
        result.deep_view() == seq![EffectView::Rebuild],
{
    let key = resource_task_key("volume", "delete", runtime, volume);
    let steps = texts3("Check usage", "Delete volume", "Refresh inventory");
    mode.start_task(key.as_str(), "Delete Volume", volume, &steps, now);
    let detail = concat3("Deleting from ", runtime_label(runtime), ".");
    mode.step_task(
        key.as_str(),
        "Delete volume",
        TaskStepStatus::Running,
        detail.as_str(),
        now,
    );
    let message = concat4("Volume delete started: ", runtime, " ", volume);
    mode.push_activity(now, message.as_str());
    one_effect(Effect::Rebuild)
}

/// Something was said while a volume is being deleted.
pub fn record_volume_delete_log(
    mode: &mut ContainerMode,
    runtime: &str,
    volume: &str,
    line: &str,
    now: u128,
) -> (result: Vec<Effect>)
    requires
        old(mode).well_formed(),
    ensures
        final(mode).well_formed(),
        final(mode).deep_view() == ({
            let mode = old(mode).deep_view();
            let stepped = task_stepped(
                mode,
                resource_key("volume"@, "delete"@, runtime@, volume@),
                "Delete volume"@,
                TaskStepStatus::Running,
                cleaned(line@),
                now,
            );
            note(stepped, now, "delete volume "@ + volume@ + ": "@ + line@)
        }),
        result.deep_view() == seq![EffectView::Rebuild],
{
    let key = resource_task_key("volume", "delete", runtime, volume);
    let clean = clean_session_log_line(line);
    mode.step_task(
        key.as_str(),
        "Delete volume",
        TaskStepStatus::Running,
        clean.as_str(),
        now,
    );
    let message = concat4("delete volume ", volume, ": ", line);
    mode.push_activity(now, message.as_str());
    one_effect(Effect::Rebuild)
}

/// A volume was deleted, or not.
pub fn record_volume_delete_finished(
    mode: &mut ContainerMode,
    runtime: &str,
    volume: &str,
    success: bool,
    status: &str,
    now: u128,
) -> (result: Vec<Effect>)
    requires
        old(mode).well_formed(),
    ensures
        final(mode).well_formed(),
        final(mode).deep_view() == ({
            let mode = old(mode).deep_view();
            let ended = task_finished(
                mode,
                resource_key("volume"@, "delete"@, runtime@, volume@),
                end_status(success),
                status@,
                now,
            );
            note(ended, now, "Volume delete "@ + end_word(success) + ": "@ + volume@ + " ("@ + status@ + ")"@)
        }),
        result.deep_view() == seq![EffectView::InvalidateCommands, EffectView::Rebuild],
{
    let key = resource_task_key("volume", "delete", runtime, volume);
    mode.finish_task(key.as_str(), task_end(success), status, now);
    let message = concat7("Volume delete ", task_end_word(success), ": ", volume, " (", status, ")");
    mode.push_activity(now, message.as_str());
    two_effects(Effect::InvalidateCommands, Effect::Rebuild)
}

/// A volume is being made.
pub fn record_volume_create_started(
    mode: &mut ContainerMode,
    runtime: &str,
    volume: &str,
    now: u128,
) -> (result: Vec<Effect>)
    requires
        old(mode).well_formed(),
    ensures
        final(mode).well_formed(),
        final(mode).deep_view() == ({
            let mode = old(mode).deep_view();
            let key = resource_key("volume"@, "create"@, runtime@, volume@);
            let begun = task_started(
                mode,
                key,
                "Create Volume"@,
                volume@,
                seq!["Validate name"@, "Create volume"@, "Refresh inventory"@],
                now,
            );
            let stepped = task_stepped(
                begun,
                key,
                "Create volume"@,
                TaskStepStatus::Running,
                "Creating in "@ + shown_runtime(runtime@) + "."@,
                now,
            );
            note(stepped, now, "Volume create started: "@ + runtime@ + " "@ + volume@)
        }),
        result.deep_view() == seq![EffectView::Rebuild],
{
    let key = resource_task_key("volume", "create", runtime, volume);
    let steps = texts3("Validate name", "Create volume", "Refresh inventory");
    mode.start_task(key.as_str(), "Create Volume", volume, &steps, now);
    let detail = concat3("Creating in ", runtime_label(runtime), ".");
    mode.step_task(
        key.as_str(),
        "Create volume",
        TaskStepStatus::Running,
        detail.as_str(),
        now,
    );
    let message = concat4("Volume create started: ", runtime, " ", volume);
    mode.push_activity(now, message.as_str());
    one_effect(Effect::Rebuild)
}

/// Something was said while a volume is being made.
pub fn record_volume_create_log(
    mode: &mut ContainerMode,
    runtime: &str,
    volume: &str,
    line: &str,
    now: u128,
) -> (result: Vec<Effect>)
    requires
        old(mode).well_formed(),
    ensures
        final(mode).well_formed(),
        final(mode).deep_view() == ({
            let mode = old(mode).deep_view();
            let stepped = task_stepped(
                mode,
                resource_key("volume"@, "create"@, runtime@, volume@),
                "Create volume"@,
                TaskStepStatus::Running,
                cleaned(line@),
                now,
            );
            note(stepped, now, "create volume "@ + volume@ + ": "@ + line@)
        }),
        result.deep_view() == seq![EffectView::RebuildThrottled(500)],
{
    let key = resource_task_key("volume", "create", runtime, volume);
    let clean = clean_session_log_line(line);
    mode.step_task(
        key.as_str(),
        "Create volume",
        TaskStepStatus::Running,
        clean.as_str(),
        now,
    );
    let message = concat4("create volume ", volume, ": ", line);
    mode.push_activity(now, message.as_str());
    one_effect(Effect::RebuildThrottled(500))
}

/// A volume was made, or not.
pub fn record_volume_create_finished(
    mode: &mut ContainerMode,
    runtime: &str,
    volume: &str,
    success: bool,
    status: &str,
    now: u128,
) -> (result: Vec<Effect>)
    requires
        old(mode).well_formed(),
    ensures
        final(mode).well_formed(),
        final(mode).deep_view() == ({
            let mode = old(mode).deep_view();
            let ended = task_finished(
                mode,
                resource_key("volume"@, "create"@, runtime@, volume@),
                end_status(success),
                status@,
                now,
            );
            note(ended, now, "Volume create "@ + end_word(success) + ": "@ + volume@ + " ("@ + status@ + ")"@)
        }),
        result.deep_view() == seq![EffectView::InvalidateCommands, EffectView::Rebuild],
{
    let key = resource_task_key("volume", "create", runtime, volume);
    mode.finish_task(key.as_str(), task_end(success), status, now);
    let message = concat7("Volume create ", task_end_word(success), ": ", volume, " (", status, ")");
    mode.push_activity(now, message.as_str());
    two_effects(Effect::InvalidateCommands, Effect::Rebuild)
}

// ---------------------------------------------------------------------------
// Runtimes
// ---------------------------------------------------------------------------

/// Apple Container is being started.
pub fn record_apple_container_system_start_started(
    mode: &mut ContainerMode,
    now: u128,
) -> (result: Vec<Effect>)
    requires
        old(mode).well_formed(),
    ensures
        final(mode).well_formed(),
        final(mode).deep_view() == ({
            let mode = old(mode).deep_view();
            let starting = runtime_set(
                mode,
                "apple"@,
                RuntimeStatus::Starting,
                "Starting the Apple Container runtime."@,
            );
            let begun = task_started(
                starting,
                system_key("apple"@),
                "Start Runtime"@,
                "Apple Container"@,
                seq!["Run runtime command"@, "Refresh runtime health"@],
                now,
            );
            let stepped = task_stepped(
                begun,
                system_key("apple"@),
                "Run runtime command"@,
                TaskStepStatus::Running,
                "Running `container system start`."@,
                now,
            );
            note(stepped, now, "Apple Container system start requested."@)
        }),
        result.deep_view() == seq![EffectView::Rebuild],
{
    mode.set_runtime_system_state(
        "apple",
        RuntimeStatus::Starting,
        "Starting the Apple Container runtime.",
    );
    let key = runtime_task_key("apple");
    let steps = texts2("Run runtime command", "Refresh runtime health");
    mode.start_task(key.as_str(), "Start Runtime", "Apple Container", &steps, now);
    mode.step_task(
        key.as_str(),
        "Run runtime command",
        TaskStepStatus::Running,
        "Running `container system start`.",
        now,
    );
    mode.push_activity(now, "Apple Container system start requested.");
    one_effect(Effect::Rebuild)
}

/// Something was said while Apple Container is being started.
pub fn record_apple_container_system_start_log(
    mode: &mut ContainerMode,
    line: &str,
    now: u128,
) -> (result: Vec<Effect>)
    requires
        old(mode).well_formed(),
    ensures
        final(mode).well_formed(),
        final(mode).deep_view() == ({
            let mode = old(mode).deep_view();
            note(mode, now, "container system start: "@ + line@)
        }),
        result.deep_view() == seq![EffectView::Rebuild],
{
    let message = concat("container system start: ", line);
    mode.push_activity(now, message.as_str());
    one_effect(Effect::Rebuild)
}

/// Apple Container was started, or not.
pub fn record_apple_container_system_start_finished(
    mode: &mut ContainerMode,
    success: bool,
    status: &str,
    now: u128,
) -> (result: Vec<Effect>)
    requires
        old(mode).well_formed(),
    ensures
        final(mode).well_formed(),
        final(mode).deep_view() == ({
            let mode = old(mode).deep_view();
            let known = runtime_set(
                mode,
                "apple"@,
                if success {
                    RuntimeStatus::Ready
                } else {
                    RuntimeStatus::Failed
                },
                status@,
            );
            let ended = task_finished(known, system_key("apple"@), end_status(success), status@, now);
            note(
                ended,
                now,
                "Apple Container system start "@ + end_word(success) + " ("@ + status@ + ")"@,
            )
        }),
        result.deep_view() == seq![EffectView::InvalidateCommands, EffectView::Rebuild],
{
    let known = if success {
        RuntimeStatus::Ready
    } else {
        RuntimeStatus::Failed
    };
    mode.set_runtime_system_state("apple", known, status);
    let key = runtime_task_key("apple");
    mode.finish_task(key.as_str(), task_end(success), status, now);
    let message = concat5(
        "Apple Container system start ",
        task_end_word(success),
        " (",
        status,
        ")",
    );
    mode.push_activity(now, message.as_str());
    two_effects(Effect::InvalidateCommands, Effect::Rebuild)
}

/// Whether an action changes whether a runtime runs.
pub open spec fn changes_runtime(action: Seq<char>) -> bool {
    action == "start"@ || action == "stop"@
}

/// A runtime is being started or stopped, or something else is done to it.
pub fn record_runtime_system_action_started(
    mode: &mut ContainerMode,
    runtime: &str,
    action: &str,
    now: u128,
) -> (result: Vec<Effect>)
    requires
        old(mode).well_formed(),
    ensures
        final(mode).well_formed(),
        final(mode).deep_view() == ({
            let mode = old(mode).deep_view();
            let shown = shown_runtime(runtime@);
            let begun = if changes_runtime(action@) {
                let known = runtime_set(
                    mode,
                    runtime@,
                    if action@ == "start"@ {
                        RuntimeStatus::Starting
                    } else {
                        RuntimeStatus::Stopping
                    },
                    shown + " runtime "@ + action@ + " is in progress."@,
                );
                task_stepped(
                    task_started(
                        known,
                        system_key(runtime@),
                        if action@ == "start"@ {
                            "Start Runtime"@
                        } else {
                            "Stop Runtime"@
                        },
                        shown,
                        seq!["Run runtime command"@, "Refresh runtime health"@],
                        now,
                    ),
                    system_key(runtime@),
                    "Run runtime command"@,
                    TaskStepStatus::Running,
                    "Running runtime "@ + action@ + " command."@,
                    now,
                )
            } else {
                mode
            };
            note(begun, now, shown + " system "@ + action@ + " started"@)
        }),
        result.deep_view() == seq![EffectView::Rebuild],
{
    let shown = runtime_label(runtime);
    let start = same(action, "start");
    if start || same(action, "stop") {
        let known = if start {
            RuntimeStatus::Starting
        } else {
            RuntimeStatus::Stopping
        };
        let reason = concat4(shown, " runtime ", action, " is in progress.");
        mode.set_runtime_system_state(runtime, known, reason.as_str());
        let key = runtime_task_key(runtime);
        let steps = texts2("Run runtime command", "Refresh runtime health");
        mode.start_task(
            key.as_str(),
            if start {
                "Start Runtime"
            } else {
                "Stop Runtime"
            },
            shown,
            &steps,
            now,
        );
        let detail = concat3("Running runtime ", action, " command.");
        mode.step_task(
            key.as_str(),
            "Run runtime command",
            TaskStepStatus::Running,
            detail.as_str(),
            now,
        );
    }
    let message = concat4(shown, " system ", action, " started");
    mode.push_activity(now, message.as_str());
    one_effect(Effect::Rebuild)
}

/// Something was said of a runtime.
pub fn record_runtime_system_action_log(
    mode: &mut ContainerMode,
    runtime: &str,
    action: &str,
    line: &str,
    now: u128,
) -> (result: Vec<Effect>)
    requires
        old(mode).well_formed(),
    ensures
        final(mode).well_formed(),
        final(mode).deep_view() == ({
            let mode = old(mode).deep_view();
            note(mode, now, shown_runtime(runtime@) + " system "@ + action@ + ": "@ + line@)
        }),
        result.deep_view() == seq![EffectView::RebuildThrottled(500)],
{
    let message = concat5(runtime_label(runtime), " system ", action, ": ", line);
    mode.push_activity(now, message.as_str());
    one_effect(Effect::RebuildThrottled(500))
}

/// Something was done to a runtime, or not.
pub fn record_runtime_system_action_finished(
    mode: &mut ContainerMode,
    runtime: &str,
    action: &str,
    success: bool,
    status: &str,
    now: u128,
) -> (result: Vec<Effect>)
    requires
        old(mode).well_formed(),
    ensures
        final(mode).well_formed(),
        final(mode).deep_view() == ({
            let mode = old(mode).deep_view();
            let ended = if changes_runtime(action@) {
                let known = runtime_set(
                    mode,
                    runtime@,
                    if !success {
                        RuntimeStatus::Failed
                    } else if action@ == "start"@ {
                        RuntimeStatus::Ready
                    } else {
                        RuntimeStatus::Unavailable
                    },
                    status@,
                );
                task_finished(known, system_key(runtime@), end_status(success), status@, now)
            } else {
                mode
            };
            note(
                ended,
                now,
                shown_runtime(runtime@) + " system "@ + action@ + " "@ + end_word(success) + " ("@
                    + status@ + ")"@,
            )
        }),
        result.deep_view() == seq![EffectView::InvalidateCommands, EffectView::Rebuild],
{
    let start = same(action, "start");
    if start || same(action, "stop") {
        let known = if !success {
            RuntimeStatus::Failed
        } else if start {
            RuntimeStatus::Ready
        } else {
            RuntimeStatus::Unavailable
        };
        mode.set_runtime_system_state(runtime, known, status);
        let key = runtime_task_key(runtime);
        mode.finish_task(key.as_str(), task_end(success), status, now);
    }
    let mut message = concat7(
        runtime_label(runtime),
        " system ",
        action,
        " ",
        task_end_word(success),
        " (",
        status,
    );
    message.append(")");
    mode.push_activity(now, message.as_str());
    two_effects(Effect::InvalidateCommands, Effect::Rebuild)
}

// ---------------------------------------------------------------------------
// Containers
// ---------------------------------------------------------------------------

/// Something is being done to a container.
pub fn record_runtime_container_action_started(
    mode: &mut ContainerMode,
    runtime: &str,
    name: &str,
    action: &str,
    now: u128,
) -> (result: Vec<Effect>)
    requires
        old(mode).well_formed(),
    ensures
        final(mode).well_formed(),
        final(mode).deep_view() == ({
            let mode = old(mode).deep_view();
            note(
                mode,
                now,
                shown_runtime(runtime@) + " container "@ + action@ + " started: "@ + name@,
            )
        }),
        result.deep_view() == seq![EffectView::Rebuild],
{
    let message = concat5(runtime_label(runtime), " container ", action, " started: ", name);
    mode.push_activity(now, message.as_str());
    one_effect(Effect::Rebuild)
}

/// Something was said of a container.
pub fn record_runtime_container_action_log(
    mode: &mut ContainerMode,
    runtime: &str,
    name: &str,
    action: &str,
    line: &str,
    now: u128,
) -> (result: Vec<Effect>)
    requires
        old(mode).well_formed(),
    ensures
        final(mode).well_formed(),
        final(mode).deep_view() == ({
            let mode = old(mode).deep_view();
            note(
                mode,
                now,
                shown_runtime(runtime@) + " "@ + action@ + " "@ + name@ + ": "@ + line@,
            )
        }),
        result.deep_view() == seq![EffectView::RebuildThrottled(500)],
{
    let message = concat7(runtime_label(runtime), " ", action, " ", name, ": ", line);
    mode.push_activity(now, message.as_str());
    one_effect(Effect::RebuildThrottled(500))
}

/// Whether a container is the one that the user has picked.
pub open spec fn is_picked(
    picked: Option<SelectedContainerView>,
    runtime: Seq<char>,
    name: Seq<char>,
) -> bool {
    match picked {
        Some(picked) => picked.runtime == runtime && picked.name == name,
        None => false,
    }
}

fn picked_container(mode: &ContainerMode, runtime: &str, name: &str) -> (result: bool)
    ensures
        result == is_picked(mode.deep_view().selected_container, runtime@, name@),
{
    match &mode.selected_container {
        Some(picked) => same(picked.runtime.as_str(), runtime) && same(picked.name.as_str(), name),
        None => false,
    }
}

/// Something was done to a container, or not. Where the user has picked it, it is
/// forgotten if it was deleted, and asked for anew if not.
pub fn record_runtime_container_action_finished(
    mode: &mut ContainerMode,
    runtime: &str,
    name: &str,
    action: &str,
    success: bool,
    status: &str,
    now: u128,
) -> (result: Vec<Effect>)
    requires
        old(mode).well_formed(),
    ensures
        final(mode).well_formed(),
        final(mode).deep_view() == ({
            let mode = old(mode).deep_view();
            let told = note(
                mode,
                now,
                shown_runtime(runtime@) + " container "@ + action@ + " "@ + end_word(success) + ": "@
                    + name@ + " ("@ + status@ + ")"@,
            );
            if is_picked(mode.selected_container, runtime@, name@) {
                ModeView {
                    selected_container: if success && action@ == "delete"@ {
                        None
                    } else {
                        told.selected_container
                    },
                    container_details: None,
                    ..told
                }
            } else {
                told
            }
        }),
        result.deep_view() == (if is_picked(
            old(mode).deep_view().selected_container,
            runtime@,
            name@,
        ) && !(success && action@ == "delete"@) {
            seq![
                EffectView::InvalidateCommands,
                EffectView::RefreshContainerDetails { runtime: runtime@, name: name@ },
                EffectView::Rebuild,
            ]
        } else {
            seq![EffectView::InvalidateCommands, EffectView::Rebuild]
        }),
{
    let mut message = concat7(
        runtime_label(runtime),
        " container ",
        action,
        " ",
        task_end_word(success),
        ": ",
        name,
    );
    message.append(" (");
    message.append(status);
    message.append(")");
    mode.push_activity(now, message.as_str());
    let mut effects = one_effect(Effect::InvalidateCommands);
    if picked_container(mode, runtime, name) {
        mode.container_details = None;
        if success && same(action, "delete") {
            mode.selected_container = None;
        } else {
            push_deep(
                &mut effects,
                Effect::RefreshContainerDetails {
                    runtime: runtime.to_owned(),
                    name: name.to_owned(),
                },
            );
        }
    }
    push_deep(&mut effects, Effect::Rebuild);
    effects
}

/// Lines as they are shown, without those that are blank.
pub open spec fn shown_lines(lines: Seq<Seq<char>>) -> Seq<Seq<char>>
    decreases lines.len(),
{
    if lines.len() == 0 {
        Seq::empty()
    } else if is_blank(cleaned(lines.last())) {
        shown_lines(lines.drop_last())
    } else {
        shown_lines(lines.drop_last()).push(cleaned(lines.last()))
    }
}

fn clean_lines(lines: &Vec<String>) -> (result: Vec<String>)
    ensures
        result.deep_view() == shown_lines(lines.deep_view()),
{
    let ghost all = lines.deep_view();
    let mut result: Vec<String> = empty_list();
    for i in 0..lines.len()
        invariant
            all == lines.deep_view(),
            result.deep_view() == shown_lines(all.take(i as int)),
    {
        assert(all.take(i + 1).drop_last() == all.take(i as int));
        assert(all.take(i + 1).last() == lines@[i as int]@);
        let line = clean_session_log_line(lines[i].as_str());
        if !blank(line.as_str()) {
            push_text(&mut result, line.as_str());
        }
    }
    assert(all.take(all.len() as int) == all);
    result
}

/// What a runtime says of a container is here. It counts only while the user
/// has the container picked.
pub fn record_runtime_container_details_loaded(
    mode: &mut ContainerMode,
    runtime: &str,
    name: &str,
    info: &Vec<String>,
    logs: &Vec<String>,
    stats: &Vec<String>,
    error: Option<String>,
) -> (result: Vec<Effect>)
    requires
        old(mode).well_formed(),
    ensures
        final(mode).well_formed(),
        if is_picked(old(mode).deep_view().selected_container, runtime@, name@) {
            &&& final(mode).deep_view() == (ModeView {
                container_details: Some(
                    DetailsView {
                        runtime: runtime@,
                        name: name@,
                        info: shown_lines(info.deep_view()),
                        logs: shown_lines(logs.deep_view()),
                        stats: shown_lines(stats.deep_view()),
                        error: error.deep_view(),
                    },
                ),
                ..old(mode).deep_view()
            })
            &&& result.deep_view() == seq![EffectView::Rebuild]
        } else {
            final(mode).deep_view() == old(mode).deep_view() && result.deep_view() == Seq::<
                EffectView,
            >::empty()
        },
{
    if !picked_container(mode, runtime, name) {
        return empty_list();
    }
    mode.container_details = Some(
        RuntimeContainerDetails {
            runtime: runtime.to_owned(),
            name: name.to_owned(),
            info: clean_lines(info),
            logs: clean_lines(logs),
            stats: clean_lines(stats),
            error,
        },
    );
    one_effect(Effect::Rebuild)
}

/// A terminal of a container is open.
pub fn record_runtime_container_terminal_opened(
    mode: &mut ContainerMode,
    runtime: &str,
    name: &str,
    now: u128,
) -> (result: Vec<Effect>)
    requires
        old(mode).well_formed(),
    ensures
        final(mode).well_formed(),
        final(mode).deep_view() == ({
            let mode = old(mode).deep_view();
            note(
                mode,
                now,
                "Opened a "@ + shown_runtime(runtime@) + " terminal for "@ + name@ + "."@,
            )
        }),
        result.deep_view() == seq![EffectView::Rebuild],
{
    let message = concat5("Opened a ", runtime_label(runtime), " terminal for ", name, ".");
    mode.push_activity(now, message.as_str());
    one_effect(Effect::Rebuild)
}

/// A terminal of a container could not be opened.
pub fn record_runtime_container_terminal_failed(
    mode: &mut ContainerMode,
    runtime: &str,
    name: &str,
    error: &str,
    now: u128,
) -> (result: Vec<Effect>)
    requires
        old(mode).well_formed(),
    ensures
        final(mode).well_formed(),
        final(mode).deep_view() == ({
            let mode = old(mode).deep_view();
            note(
                mode,
                now,
                "Could not open a "@ + shown_runtime(runtime@) + " terminal for "@ + name@ + ": "@
                    + error@,
            )
        }),
        result.deep_view() == seq![
            EffectView::Alert("Could not open container terminal: "@ + error@),
            EffectView::Rebuild,
        ],
{
    let message = concat6(
        "Could not open a ",
        runtime_label(runtime),
        " terminal for ",
        name,
        ": ",
        error,
    );
    mode.push_activity(now, message.as_str());
    two_effects(
        Effect::Alert(concat("Could not open container terminal: ", error)),
        Effect::Rebuild,
    )
}

/// A shell of a machine is open.
pub fn record_runtime_machine_terminal_opened(
    mode: &mut ContainerMode,
    runtime: &str,
    name: &str,
    now: u128,
) -> (result: Vec<Effect>)
    requires
        old(mode).well_formed(),
    ensures
        final(mode).well_formed(),
        final(mode).deep_view() == ({
            let mode = old(mode).deep_view();
            note(
                mode,
                now,
                "Opened a "@ + shown_runtime(runtime@) + " machine shell for "@ + name@ + "."@,
            )
        }),
        result.deep_view() == seq![EffectView::Rebuild],
{
    let message = concat5("Opened a ", runtime_label(runtime), " machine shell for ", name, ".");
    mode.push_activity(now, message.as_str());
    one_effect(Effect::Rebuild)
}

/// A shell of a machine could not be opened.
pub fn record_runtime_machine_terminal_failed(
    mode: &mut ContainerMode,
    runtime: &str,
    name: &str,
    error: &str,
    now: u128,
) -> (result: Vec<Effect>)
    requires
        old(mode).well_formed(),
    ensures
        final(mode).well_formed(),
        final(mode).deep_view() == ({
            let mode = old(mode).deep_view();
            note(
                mode,
                now,
                "Could not open a "@ + shown_runtime(runtime@) + " machine shell for "@ + name@ + ": "@
                    + error@,
            )
        }),
        result.deep_view() == seq![
            EffectView::Alert("Could not open machine shell: "@ + error@),
            EffectView::Rebuild,
        ],
{
    let message = concat6(
        "Could not open a ",
        runtime_label(runtime),
        " machine shell for ",
        name,
        ": ",
        error,
    );
    mode.push_activity(now, message.as_str());
    two_effects(
        Effect::Alert(concat("Could not open machine shell: ", error)),
        Effect::Rebuild,
    )
}

} // verus!
