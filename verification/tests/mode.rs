//! What the container window records, and what it asks for.
use cocoa_way::actions::{
    active_display_conflict, application_diagnostics, attachments,
    change_container_session_presentation, check_container_session, close_display_question,
    close_managed_display, control_managed_displays, delete_container_session, duplicate_saved,
    duplicate_session_profile, launch_container_session, managed_display_command,
    managed_display_environment, managed_display_status, remember_launch_request,
    schedule_automatic_profile_validation, select_container_nav, select_container_session,
    selected_session_index, session_deleted, stop_container_session,
};
use cocoa_way::activity::{clean_session_log_line, strip_ansi_sequences, ActivityLog, SessionLogs};
use cocoa_way::application_model::{
    DisplayStatus, InstanceStatus, LaunchStep, ProfileStatus, RuntimeStatus, TaskStatus,
    TaskStepStatus,
};
use cocoa_way::container_mode::{
    launch_task_key, session_can_stop, session_is_launch_busy, session_state_label,
    state_from_label, ActiveSessionSnapshot, ContainerMode, Effect, ManagedDisplaySnapshot,
};
use cocoa_way::container_sessions::{
    session_of_entry, ContainerSession, LaunchError, SessionEntry,
};
use cocoa_way::records::{
    record_active_container_sessions, record_check_failure, record_image_pull_finished,
    record_image_pull_started, record_launch_blocked, record_launch_failure,
    record_launch_progress, record_launch_success, record_managed_display_failure,
    record_managed_display_starting, record_managed_displays, record_process_exit,
    record_runtime_system_action_finished, record_runtime_system_action_started,
    record_session_log, record_stop_success, record_volume_create_finished,
    record_volume_create_started,
};
use cocoa_way::session_launch::LaunchReport;
use cocoa_way::tasks::TaskLog;

fn session(name: &str, display: Option<&str>) -> ContainerSession {
    session_of_entry(SessionEntry {
        name: name.into(),
        image: "example:latest".into(),
        runtime: Some("docker".into()),
        display: display.map(str::to_string),
        presentation: None,
        profile: None,
        app: None,
        command: Some("foot".into()),
        socket: None,
        container_socket: None,
        waypipe_path: None,
        waypipe_compress: None,
        waypipe_threads: None,
        audio: None,
        runtime_args: None,
        mounts: None,
        env: None,
    })
}

fn active(profile_index: usize, slot: &str) -> ActiveSessionSnapshot {
    ActiveSessionSnapshot {
        id: 1,
        profile_index,
        started_at_unix_ms: 0,
        container_pid: Some(7),
        waypipe_pid: 8,
        display_slot: slot.into(),
        display_pid: None,
        display_runtime_dir: None,
    }
}

fn display(slot: &str) -> ManagedDisplaySnapshot {
    ManagedDisplaySnapshot {
        slot: slot.into(),
        runtime_dir: "/run/d".into(),
        display: "wayland-9".into(),
        pid: 77,
    }
}

fn report() -> LaunchReport {
    LaunchReport {
        runtime: "Docker".into(),
        container_name: "cocoa-way-one".into(),
        host_socket: "/tmp/h.sock".into(),
        container_socket: "/tmp/c.sock".into(),
        audio_host_socket: None,
        command: "foot".into(),
    }
}

fn texts(values: &[&str]) -> Vec<String> {
    values.iter().map(|value| value.to_string()).collect()
}

#[test]
fn log_lines_lose_their_colours_only() {
    assert_eq!(strip_ansi_sequences("\u{1b}[31mred\u{1b}[0m end"), "red end");
    assert_eq!(strip_ansi_sequences("bare [1;31mcodes"), "bare codes");
    assert_eq!(strip_ansi_sequences("list[31] stays"), "list[31] stays");
    assert_eq!(clean_session_log_line("  text  "), clean_session_log_line("text"));
}

#[test]
fn the_activity_log_keeps_the_newest_lines() {
    let mut log = ActivityLog::new();
    for number in 0..300 {
        log.push_activity(1000 * number, &format!("line {number}"));
    }
    let lines = log.activity_snapshot();
    assert!(lines.len() < 300);
    assert!(lines.last().unwrap().ends_with("line 299"));
    assert_eq!(log.control_activity_snapshot(2).len(), 2);
    log.clear();
    assert!(log.activity_snapshot().is_empty());
}

#[test]
fn logs_of_sessions_are_apart() {
    let mut logs = SessionLogs::new();
    logs.push_session_log(0, "container", "hello");
    logs.push_session_log(1, "waypipe", "there");
    assert_eq!(logs.session_logs(0).len(), 1);
    assert!(logs.session_logs(1)[0].ends_with("there"));
    assert!(logs.session_logs(2).is_empty());
    logs.clear_session_logs(0);
    assert!(logs.session_logs(0).is_empty());
    assert_eq!(logs.control_session_logs(1, 10), logs.session_logs(1));
}

#[test]
fn a_task_goes_through_its_steps() {
    let mut log = TaskLog::new();
    let id = log.start_operation_task("k", "Launch", "One", &texts(&["a", "b"]), 1);
    assert_eq!(log.active_task_count(), 1);
    log.update_operation_task_step("k", "a", TaskStepStatus::Completed, Some("done"), 2);
    let task = log.latest_operation_task("k").unwrap();
    assert_eq!((task.id, task.updated_at_unix_ms), (id, 2));
    assert!(matches!(task.steps[0].status, TaskStepStatus::Completed));
    log.finish_operation_task("k", TaskStatus::Completed, "all done", 3);
    let task = log.latest_operation_task("k").unwrap();
    assert!(matches!(task.status, TaskStatus::Completed));
    assert!(task.steps.iter().all(|step| !matches!(
        step.status,
        TaskStepStatus::Pending | TaskStepStatus::Running
    )));
    assert_eq!(log.active_task_count(), 0);
    assert_eq!(log.control_operation_tasks(5).len(), 1);
    assert!(log.latest_operation_task("other").is_none());
}

#[test]
fn a_failed_task_fails_its_running_step() {
    let mut log = TaskLog::new();
    log.start_operation_task("k", "Stop", "One", &texts(&["a", "b"]), 1);
    log.update_operation_task_step("k", "a", TaskStepStatus::Running, None, 2);
    log.finish_operation_task("k", TaskStatus::Failed, "broken", 3);
    let task = log.latest_operation_task("k").unwrap();
    assert!(matches!(task.status, TaskStatus::Failed));
    assert_eq!(task.detail.as_deref(), Some("broken"));
    assert!(matches!(task.steps[0].status, TaskStepStatus::Failed));
    assert!(matches!(task.steps[1].status, TaskStepStatus::Pending));
}

#[test]
fn states_are_read_from_their_labels() {
    let (profile, instance) = state_from_label("Running");
    assert!(matches!(profile, ProfileStatus::Ready));
    assert!(matches!(instance, Some(InstanceStatus::Running)));
    let mut mode = ContainerMode::new();
    mode.set_session_state(0, "Running", "up");
    assert_eq!(session_state_label(mode.session_state(0).unwrap()), "Running");
    assert!(session_can_stop(mode.session_state(0)));
    assert!(!session_can_stop(None));
    assert!(!session_is_launch_busy(None));
    assert_eq!(
        mode.control_session_state(0),
        Some(("Running".to_string(), "up".to_string()))
    );
}

#[test]
fn a_launch_is_recorded_from_start_to_end() {
    let sessions = vec![session("One", None)];
    let mut mode = ContainerMode::new();
    let effects = launch_container_session(&mut mode, &sessions, 0, 10);
    assert!(effects.iter().any(|effect| matches!(effect, Effect::StartSession(0))));
    let task = mode.tasks.latest_operation_task(&launch_task_key(0)).unwrap();
    assert!(matches!(task.status, TaskStatus::Running | TaskStatus::Queued));
    record_launch_progress(&mut mode, &sessions, 0, LaunchStep::CreateContainer, "creating", 11);
    assert!(session_is_launch_busy(mode.session_state(0)));
    record_launch_success(&mut mode, &sessions, 0, &report(), 99, 12);
    assert_eq!(session_state_label(mode.session_state(0).unwrap()), "Running");
    let task = mode.tasks.latest_operation_task(&launch_task_key(0)).unwrap();
    assert!(matches!(task.status, TaskStatus::Completed));
    let effects = stop_container_session(&mut mode, &sessions, 0, 13);
    assert!(effects.iter().any(|effect| matches!(effect, Effect::StopSession(0))));
    record_stop_success(&mut mode, &sessions, 0, 14);
    assert!(!session_can_stop(mode.session_state(0)));
}

#[test]
fn a_failed_launch_is_remembered_with_its_error() {
    let sessions = vec![session("One", None)];
    let mut mode = ContainerMode::new();
    remember_launch_request(&mut mode, &sessions, 0, 10);
    let error = LaunchError::SocketTimeout { host_socket: "/tmp/h.sock".into() };
    record_launch_failure(&mut mode, &sessions, 0, &error, 11);
    let state = mode.session_state(0).unwrap();
    assert!(matches!(state.instance, Some(InstanceStatus::Failed)));
    assert!(state.detail.contains("/tmp/h.sock"));
    let task = mode.tasks.latest_operation_task(&launch_task_key(0)).unwrap();
    assert!(matches!(task.status, TaskStatus::Failed));
    record_launch_blocked(&mut mode, 0, "no display", 12);
    assert_eq!(mode.session_state(0).unwrap().detail, "no display");
}

#[test]
fn a_failed_check_makes_a_profile_invalid() {
    let sessions = vec![session("One", None)];
    let mut mode = ContainerMode::new();
    check_container_session(&mut mode, 0, 1);
    let error = LaunchError::ImageUnavailable {
        runtime: "Docker".into(),
        image: "example:latest".into(),
        hint: "pull it".into(),
    };
    record_check_failure(&mut mode, &sessions, 0, &error, 2);
    assert!(matches!(mode.session_state(0).unwrap().profile, ProfileStatus::Invalid));
}

#[test]
fn an_exit_is_logged_and_ends_the_instance() {
    let sessions = vec![session("One", None)];
    let mut mode = ContainerMode::new();
    record_launch_success(&mut mode, &sessions, 0, &report(), 99, 12);
    record_session_log(&mut mode, 0, "container", "bye", 13);
    assert!(mode.logs.session_logs(0).last().unwrap().ends_with("bye"));
    record_process_exit(&mut mode, &sessions, 0, "container", "exit status: 0", 14);
    assert!(!session_can_stop(mode.session_state(0)));
}

#[test]
fn displays_are_shared_by_the_sessions_that_name_them() {
    let sessions = vec![session("One", Some("work")), session("Two", Some("work")), session("Three", None)];
    let mut mode = ContainerMode::new();
    record_managed_display_starting(&mut mode, "work", 1);
    let starting = control_managed_displays(&mode);
    assert!(matches!(starting[0].status, DisplayStatus::Allocating));
    assert!(matches!(managed_display_status(&mode, "work"), DisplayStatus::Free));
    record_managed_displays(&mut mode, vec![display("work")]);
    record_active_container_sessions(&mut mode, vec![active(0, "work")]);
    assert_eq!(attachments(&mode, "work"), 1);
    assert!(matches!(managed_display_status(&mode, "work"), DisplayStatus::Attached));
    let reports = control_managed_displays(&mode);
    assert_eq!((reports.len(), reports[0].attachments, reports[0].pid), (1, 1, Some(77)));
    assert_eq!(active_display_conflict(&mode, &sessions, 2), None);
    assert_eq!(
        managed_display_environment(&display("work")),
        "export XDG_RUNTIME_DIR='/run/d' WAYLAND_DISPLAY='wayland-9'"
    );
    assert_eq!(
        managed_display_command(&display("work")),
        "./run_waypipe.sh --display 'work'"
    );
    assert!(close_display_question("work").contains("work"));
    let effects = close_managed_display(&mut mode, "work");
    assert!(effects
        .iter()
        .any(|effect| matches!(effect, Effect::CloseDisplay(slot) if slot == "work")));
    record_managed_display_failure(&mut mode, "other", "no room", 5);
    assert!(mode.display_error.as_deref().unwrap().contains("no room"));
}

#[test]
fn images_are_pulled_and_then_configured() {
    let mut mode = ContainerMode::new();
    record_image_pull_started(&mut mode, "docker", "img:1", true, 1);
    assert!(mode.image_task.is_some());
    let effects = record_image_pull_finished(&mut mode, "docker", "img:1", true, "done", 2);
    assert!(effects.iter().any(
        |effect| matches!(effect, Effect::ConfigureImage { image, .. } if image == "img:1")
    ));
    assert!(mode.image_task.is_none());
    record_image_pull_started(&mut mode, "docker", "img:2", true, 3);
    let effects = record_image_pull_finished(&mut mode, "docker", "img:2", false, "denied", 4);
    assert!(!effects.iter().any(|effect| matches!(effect, Effect::ConfigureImage { .. })));
}

#[test]
fn volumes_and_runtimes_are_recorded() {
    let mut mode = ContainerMode::new();
    record_volume_create_started(&mut mode, "docker", "data", 1);
    assert_eq!(mode.tasks.active_task_count(), 1);
    record_volume_create_finished(&mut mode, "docker", "data", true, "done", 2);
    assert_eq!(mode.tasks.active_task_count(), 0);
    record_runtime_system_action_started(&mut mode, "orbstack", "start", 3);
    record_runtime_system_action_finished(&mut mode, "orbstack", "start", false, "broken", 4);
    assert!(matches!(
        mode.runtime_system_state("orbstack").unwrap().status,
        RuntimeStatus::Failed
    ));
}

#[test]
fn selecting_forgets_what_was_selected_elsewhere() {
    let mut mode = ContainerMode::new();
    select_container_session(&mut mode, 1);
    assert_eq!(mode.selected_session, Some(1));
    assert_eq!(selected_session_index(&mut mode, 3, 0), Some(1));
    assert_eq!(selected_session_index(&mut mode, 0, 0), None);
    select_container_nav(&mut mode, 2);
    assert_eq!(mode.selected_nav, 2);
}

#[test]
fn profiles_are_validated_once() {
    let mut mode = ContainerMode::new();
    let first = schedule_automatic_profile_validation(&mut mode, 2);
    let asked = first
        .iter()
        .filter(|effect| matches!(effect, Effect::CheckSession(_)))
        .count();
    assert_eq!(asked, 2);
    assert!(schedule_automatic_profile_validation(&mut mode, 2).is_empty());
}

#[test]
fn profiles_are_copied_changed_and_deleted() {
    let sessions = vec![session("One", None), session("One Copy", None)];
    let copy = duplicate_session_profile(&sessions, 0, 5).unwrap();
    assert!(sessions.iter().all(|other| other.name != copy.name));
    assert_eq!(copy.image, "example:latest");
    assert!(duplicate_session_profile(&sessions, 9, 5).is_err());
    let mut mode = ContainerMode::new();
    let rootless = change_container_session_presentation(&mode, &sessions, 0, true).unwrap();
    assert!(rootless.presentation_mode().is_rootless());
    assert!(delete_container_session(&mode, &sessions, 0).is_ok());
    duplicate_saved(&mut mode, "One", 3, Ok(()), 6);
    assert_eq!(mode.selected_session, Some(2));
    let effects = session_deleted(&mut mode, "One", Err("read-only".into()), 7);
    assert!(effects
        .iter()
        .any(|effect| matches!(effect, Effect::Alert(text) if text.contains("read-only"))));
    mode.set_session_state(0, "Running", "up");
    record_active_container_sessions(&mut mode, vec![active(0, "default")]);
    assert!(delete_container_session(&mode, &sessions, 0).is_err());
    assert!(application_diagnostics(&mode, &sessions[0], 0).contains("One"));
}
