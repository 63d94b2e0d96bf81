//! Each operation from its start to its end.
use cocoa_way::application_model::{InstanceStatus, RuntimeStatus, TaskStatus, TaskStepStatus};
use cocoa_way::container_mode::{
    resource_task_key, runtime_task_key, session_can_stop, stop_task_key, ContainerMode, Effect,
    SelectedRuntimeContainer,
};
use cocoa_way::container_sessions::{session_of_entry, ContainerSession, SessionEntry};
use cocoa_way::records::{
    record_apple_container_system_start_finished, record_apple_container_system_start_log,
    record_apple_container_system_start_started, record_check_success, record_force_stop_available,
    record_image_build_finished, record_image_build_log, record_image_build_started,
    record_image_delete_finished, record_image_delete_log, record_image_delete_started,
    record_image_load_finished, record_image_load_log, record_image_load_started,
    record_image_pull_log, record_launch_already_running, record_launch_cancelled,
    record_managed_display_exit, record_runtime_container_action_finished,
    record_runtime_container_action_log, record_runtime_container_action_started,
    record_runtime_container_details_loaded, record_runtime_container_terminal_failed,
    record_runtime_container_terminal_opened, record_runtime_machine_terminal_failed,
    record_runtime_machine_terminal_opened, record_runtime_system_action_log,
    record_stop_failure, record_stop_progress, record_storage_growth_blocked,
    record_terminal_open_failed, record_terminal_opened, record_volume_create_log,
    record_volume_delete_finished, record_volume_delete_log, record_volume_delete_started,
};
use cocoa_way::session_launch::CheckReport;

fn session(name: &str) -> ContainerSession {
    session_of_entry(SessionEntry {
        name: name.into(),
        image: "example:latest".into(),
        runtime: None,
        display: None,
        presentation: None,
        profile: None,
        app: None,
        command: None,
        socket: None,
        container_socket: None,
        waypipe_path: None,
        waypipe_compress: None,
        waypipe_threads: None,
        audio: None,
        runtime_args: None,
        mounts: None,
        env: None,
    })
}

fn last_activity(mode: &ContainerMode) -> String {
    mode.activity.activity_snapshot().last().cloned().unwrap_or_default()
}

fn status(mode: &ContainerMode, key: &str) -> TaskStatus {
    mode.tasks.latest_operation_task(key).unwrap().status
}

#[test]
fn a_deleted_image_is_followed_to_its_end() {
    for (success, end) in [(true, TaskStatus::Completed), (false, TaskStatus::Failed)] {
        let mut mode = ContainerMode::new();
        let key = resource_task_key("image", "delete", "docker", "img:1");
        record_image_delete_started(&mut mode, "docker", "img:1", 1);
        assert!(status(&mode, &key).is_active());
        record_image_delete_log(&mut mode, "docker", "img:1", "untagging", 2);
        assert!(last_activity(&mode).contains("untagging"));
        let effects = record_image_delete_finished(&mut mode, "docker", "img:1", success, "code 1", 3);
        assert_eq!(status(&mode, &key), end);
        assert!(effects.iter().any(|effect| matches!(effect, Effect::InvalidateCommands)));
    }
}

#[test]
fn a_deleted_volume_is_followed_to_its_end() {
    for (success, end) in [(true, TaskStatus::Completed), (false, TaskStatus::Failed)] {
        let mut mode = ContainerMode::new();
        let key = resource_task_key("volume", "delete", "docker", "data");
        record_volume_delete_started(&mut mode, "docker", "data", 1);
        record_volume_delete_log(&mut mode, "docker", "data", "removing", 2);
        record_volume_delete_finished(&mut mode, "docker", "data", success, "code 1", 3);
        assert_eq!(status(&mode, &key), end);
        record_volume_create_log(&mut mode, "docker", "data", "creating", 4);
        assert!(last_activity(&mode).contains("creating"));
    }
}

#[test]
fn an_imported_image_is_followed_to_its_end() {
    for (success, end) in [(true, TaskStatus::Completed), (false, TaskStatus::Failed)] {
        let mut mode = ContainerMode::new();
        let key = resource_task_key("image", "load", "apple", "/tmp/i.tar");
        record_image_load_started(&mut mode, "/tmp/i.tar", 1);
        assert!(mode.image_task.is_some());
        record_image_load_log(&mut mode, "/tmp/i.tar", "\u{1b}[1mhalf\u{1b}[0m", 2);
        let task = mode.tasks.latest_operation_task(&key).unwrap();
        assert!(task.steps.iter().any(|step| step.detail.as_deref() == Some("half")));
        record_image_load_finished(&mut mode, "/tmp/i.tar", success, "code 1", 3);
        assert_eq!(status(&mode, &key), end);
        assert!(mode.image_task.is_none());
    }
}

#[test]
fn a_built_image_is_followed_to_its_end() {
    for (success, end) in [(true, TaskStatus::Completed), (false, TaskStatus::Failed)] {
        let mut mode = ContainerMode::new();
        let key = resource_task_key("image", "build", "apple", "img:1");
        record_image_build_started(&mut mode, "img:1", "/c/Containerfile", 1);
        record_image_build_log(&mut mode, "img:1", "step one", 2);
        record_image_build_finished(&mut mode, "img:1", success, "code 1", 3);
        assert_eq!(status(&mode, &key), end);
        record_image_pull_log(&mut mode, "docker", "img:1", "layer", 4);
        assert!(last_activity(&mode).contains("layer"));
        record_storage_growth_blocked(&mut mode, "pull", "Only 1.0 GiB is free.", 5);
        assert!(last_activity(&mode)
            .ends_with("Storage protection blocked pull: Only 1.0 GiB is free."));
    }
}

#[test]
fn the_apple_runtime_is_started() {
    for (success, end) in [(true, RuntimeStatus::Ready), (false, RuntimeStatus::Failed)] {
        let mut mode = ContainerMode::new();
        record_apple_container_system_start_started(&mut mode, 1);
        assert_eq!(mode.runtime_system_state("apple").unwrap().status, RuntimeStatus::Starting);
        record_apple_container_system_start_log(&mut mode, "launching", 2);
        record_apple_container_system_start_finished(&mut mode, success, "code 1", 3);
        assert_eq!(mode.runtime_system_state("apple").unwrap().status, end);
        assert!(!status(&mode, &runtime_task_key("apple")).is_active());
        assert_eq!(mode.control_runtime_states().len(), 1);
        record_runtime_system_action_log(&mut mode, "docker", "start", "context", 4);
        assert!(last_activity(&mode).contains("context"));
    }
}

#[test]
fn actions_on_containers_are_noted() {
    let mut mode = ContainerMode::new();
    record_runtime_container_action_started(&mut mode, "docker", "c1", "restart", 1);
    assert!(last_activity(&mode).contains("c1"));
    record_runtime_container_action_log(&mut mode, "docker", "c1", "restart", "wait", 2);
    assert!(last_activity(&mode).contains("wait"));
    record_runtime_container_action_finished(&mut mode, "docker", "c1", "restart", false, "code 9", 3);
    assert!(last_activity(&mode).contains("code 9"));
    record_runtime_container_terminal_opened(&mut mode, "docker", "c1", 4);
    assert!(last_activity(&mode).contains("c1"));
    record_runtime_container_terminal_failed(&mut mode, "docker", "c1", "no tty", 5);
    assert!(last_activity(&mode).contains("no tty"));
    record_runtime_machine_terminal_opened(&mut mode, "orbstack", "m1", 6);
    assert!(last_activity(&mode).contains("m1"));
    record_runtime_machine_terminal_failed(&mut mode, "orbstack", "m1", "asleep", 7);
    assert!(last_activity(&mode).contains("asleep"));
}

#[test]
fn details_of_a_container_replace_the_last_ones() {
    let mut mode = ContainerMode::new();
    mode.selected_container = Some(SelectedRuntimeContainer {
        runtime: "docker".into(),
        name: "c1".into(),
        label: "c1".into(),
        running: true,
    });
    let lines = vec!["line".to_string()];
    record_runtime_container_details_loaded(&mut mode, "docker", "c1", &lines, &vec![], &lines, None);
    let details = mode.container_details.as_ref().unwrap();
    assert_eq!((details.name.as_str(), details.info.len(), details.logs.len()), ("c1", 1, 0));
}

#[test]
fn a_check_that_succeeds_makes_a_profile_ready() {
    let sessions = vec![session("One")];
    let mut mode = ContainerMode::new();
    let report = |running: bool| CheckReport {
        runtime: "Apple Container".into(),
        image: "example:latest".into(),
        command: "foot".into(),
        waypipe: "/opt/waypipe".into(),
        runtime_binary: "/bin/container".into(),
        container_name: "cocoa-way-one".into(),
        running,
    };
    record_check_success(&mut mode, &sessions, 0, &report(false), 1);
    let state = mode.session_state(0).unwrap();
    assert!(state.detail.starts_with("One is ready. Runtime: Apple Container;"));
    record_check_success(&mut mode, &sessions, 0, &report(true), 2);
    let state = mode.session_state(0).unwrap();
    assert!(state.detail.contains("an untracked instance from an earlier run"));
    assert!(!session_can_stop(Some(state)));
}

#[test]
fn a_launch_can_be_cancelled_or_come_too_late() {
    let sessions = vec![session("One")];
    let mut mode = ContainerMode::new();
    record_launch_cancelled(&mut mode, 0, "Cancelled by the user", 1);
    assert_eq!(mode.session_state(0).unwrap().detail, "Cancelled by the user");
    record_launch_already_running(&mut mode, &sessions, 0, 2);
    assert!(mode.session_state(0).is_some());
}

#[test]
fn a_stop_that_fails_can_be_forced() {
    let sessions = vec![session("One")];
    let mut mode = ContainerMode::new();
    mode.set_session_state(0, "Stopping", "waiting");
    record_stop_progress(&mut mode, 0, "Stop container", "asking", 1);
    record_force_stop_available(&mut mode, 0, 2);
    assert!(mode.session_state(0).unwrap().force_stop_available);
    record_stop_failure(&mut mode, &sessions, 0, "still there", 3);
    let state = mode.session_state(0).unwrap();
    assert!(state.detail.contains("still there"));
    assert!(matches!(state.instance, Some(InstanceStatus::Failed)));
    if let Some(task) = mode.tasks.latest_operation_task(&stop_task_key(0)) {
        assert!(task.steps.iter().all(|step| step.status != TaskStepStatus::Running));
    }
}

#[test]
fn terminals_and_displays_are_noted() {
    let sessions = vec![session("One")];
    let mut mode = ContainerMode::new();
    record_terminal_opened(&mut mode, &sessions, 0, 1);
    assert!(last_activity(&mode).contains("One"));
    let effects = record_terminal_open_failed(&mut mode, &sessions, 0, "denied", 2);
    assert!(last_activity(&mode).contains("denied") || !effects.is_empty());
    record_managed_display_exit(&mut mode, "work", "closed by its owner", 3);
    assert!(last_activity(&mode).contains("work"));
}
