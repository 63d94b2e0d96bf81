//! What the user picks, opens and stops in the container window.
use cocoa_way::actions::{
    add_or_select_smoke_session, force_stop_container_session, open_container_terminal,
    presentation_saved, release_display_attachment, select_container_image,
    select_container_volume, select_runtime_container, smoke_session_saved,
};
use cocoa_way::container_mode::{
    ContainerMode, Effect, SelectedImage, SelectedRuntimeContainer, SelectedVolume,
};
use cocoa_way::container_sessions::{session_of_entry, ContainerSession, SessionEntry};
use cocoa_way::inventory::resource_preview_lines;
use cocoa_way::presentation::PresentationMode;
use cocoa_way::profiles::{
    new_image_defaults, smoke_image_reference, NAV_DOCKER, NAV_IMAGES, NAV_SESSIONS, NAV_VOLUMES,
};
use cocoa_way::runtime_pages::runtime_checks;
use cocoa_way::scene::Scene;
use cocoa_way::session_launch::CommandOutput;
use cocoa_way::storage::{
    apple_registry_login_summary, volume_inspect_metadata, volume_inventories,
};
use cocoa_way::window::stop_apple_container_system;

fn session(name: &str, image: &str) -> ContainerSession {
    session_of_entry(SessionEntry {
        name: name.into(),
        image: image.into(),
        runtime: None,
        display: None,
        presentation: None,
        profile: None,
        app: None,
        command: None,
        socket: None,
        container_socket: None,
        waypipe_path: None,
        waypipe_compress: None,
        waypipe_threads: None,
        audio: None,
        runtime_args: None,
        mounts: None,
        env: None,
    })
}

fn last_activity(mode: &ContainerMode) -> String {
    mode.activity.activity_snapshot().last().cloned().unwrap_or_default()
}

#[test]
fn what_is_picked_is_shown_on_its_page() {
    let mut mode = ContainerMode::new();
    mode.selected_session = Some(3);
    select_container_image(
        &mut mode,
        SelectedImage {
            runtime: "Docker".into(),
            runtime_key: "docker".into(),
            reference: "a:1".into(),
            label: "a:1".into(),
        },
    );
    assert_eq!((mode.selected_nav, mode.selected_session), (NAV_IMAGES, None));
    assert!(mode.selected_image.is_some());
    select_container_volume(
        &mut mode,
        SelectedVolume {
            runtime: "Docker".into(),
            runtime_key: "docker".into(),
            name: "data".into(),
            label: "data".into(),
        },
    );
    assert_eq!(mode.selected_nav, NAV_VOLUMES);
    let effects = select_runtime_container(
        &mut mode,
        SelectedRuntimeContainer {
            runtime: "docker".into(),
            name: "web".into(),
            label: "web".into(),
            running: true,
        },
    );
    assert_eq!(mode.selected_nav, NAV_DOCKER);
    assert!(matches!(
        &effects[..],
        [Effect::RefreshContainerDetails { runtime, name }, Effect::Rebuild]
            if runtime == "docker" && name == "web"
    ));
}

#[test]
fn terminals_and_stops_are_asked_for() {
    let mut mode = ContainerMode::new();
    let effects = open_container_terminal(&mut mode, 1, 5);
    assert!(matches!(effects[..], [Effect::OpenTerminal(1), Effect::Rebuild]));
    assert_eq!((mode.selected_nav, mode.selected_tab), (NAV_SESSIONS, 2));
    assert!(last_activity(&mode).ends_with("Terminal requested for session #2"));
    let effects = force_stop_container_session(&mut mode, 0, 6);
    assert!(matches!(effects[..], [Effect::ForceStopSession(0), Effect::Rebuild]));
    assert!(last_activity(&mode).ends_with("Force Stop requested for application #1"));
    release_display_attachment(&mut mode, &vec![session("One", "a:1")], 0, 7);
    assert!(last_activity(&mode)
        .ends_with("Display release ignored: application #1 is not running."));
}

#[test]
fn a_runtime_is_stopped_after_what_runs_on_it() {
    let mut mode = ContainerMode::new();
    let sessions = vec![session("One", "a:1"), session("Two", "b:2")];
    let effects = stop_apple_container_system(&mut mode, &sessions, &vec![1, 0], 5);
    assert!(matches!(
        &effects[..],
        [
            Effect::ForceStopSession(1),
            Effect::ForceStopSession(0),
            Effect::RuntimeAction { runtime, action },
            Effect::Rebuild,
        ] if runtime == "apple" && action == "stop"
    ));
}

#[test]
fn the_example_is_picked_or_restored() {
    let mut mode = ContainerMode::new();
    assert!(add_or_select_smoke_session(&mut mode, &vec![session("One", "a:1")], 1));
    let sessions = vec![session("One", "a:1"), session("Example", smoke_image_reference())];
    assert!(!add_or_select_smoke_session(&mut mode, &sessions, 2));
    assert_eq!(mode.selected_session, Some(1));
    assert!(smoke_session_saved(&mut mode, "img", 4, Ok(()), 3).is_empty());
    assert_eq!(mode.selected_session, Some(3));
    assert!(matches!(
        &smoke_session_saved(&mut mode, "img", 4, Err("disk".into()), 4)[..],
        [Effect::Alert(message)] if message == "Failed to restore example session: disk"
    ));
    let defaults = new_image_defaults("img:2");
    assert_eq!((defaults.name.as_str(), defaults.image.as_str()), ("Niri Desktop", "img:2"));
}

#[test]
fn a_new_presentation_is_noted() {
    let mut mode = ContainerMode::new();
    let one = session("One", "a:1");
    presentation_saved(&mut mode, &one, 0, Ok(()), 1);
    assert!(last_activity(&mode).contains("One presentation changed to "));
    assert!(matches!(
        &presentation_saved(&mut mode, &one, 0, Err("disk".into()), 2)[..],
        [Effect::Alert(message), Effect::Rebuild]
            if message == "Failed to update presentation mode: disk"
    ));
    assert!(Scene::new(PresentationMode::Desktop).sizes_windows());
    assert!(!Scene::new(PresentationMode::Rootless).sizes_windows());
}

#[test]
fn a_volume_without_a_runtime_is_unavailable() {
    let metadata = volume_inspect_metadata("data", "data local", &None);
    assert_eq!(metadata.kind, "local");
    assert_eq!((metadata.size.as_str(), metadata.created.as_str()), ("Unavailable", "Unavailable"));
}

fn done(stdout: &str) -> Result<CommandOutput, String> {
    Ok(CommandOutput { success: true, stdout: stdout.as_bytes().to_vec(), stderr: vec![] })
}

#[test]
fn runtimes_are_asked_and_their_replies_are_shown() {
    let checks = runtime_checks(NAV_DOCKER);
    assert_eq!(checks[0], ("Version".to_string(), vec!["--version".to_string()]));
    assert_eq!(checks.len(), 2);
    assert_eq!(resource_preview_lines("docker", Some(&done("one\n\ntwo"))), ["one", "two"]);
    assert_eq!(
        resource_preview_lines("container", None),
        ["Command `container` was not found in PATH."]
    );
    assert_eq!(
        resource_preview_lines("other", None),
        ["Unsupported runtime for inspect preview"]
    );
    assert_eq!(
        apple_registry_login_summary(&Some(done(" a \nb\nc\nd"))),
        "Signed in: a, b, c"
    );
    assert_eq!(
        apple_registry_login_summary(&None),
        "Registry login unavailable: Apple Container is not installed."
    );
    let shelves = volume_inventories(&None, &Some(done("")));
    assert_eq!(shelves[0].runtime, "Apple Container");
    assert_eq!(shelves[1].runtime_key, "docker");
}
