//! What the buttons of the container window do.
use cocoa_way::container_mode::{
    ActiveSessionSnapshot, ContainerMode, Effect, ManagedDisplaySnapshot, SelectedRuntimeContainer,
};
use cocoa_way::container_sessions::{session_of_entry, ContainerSession, SessionEntry};
use cocoa_way::dialogs::PullForm;
use cocoa_way::display_pages::{
    control_active_sessions, control_display_performance, summary_performance_snapshot,
    SampleSource,
};
use cocoa_way::handlers::{
    allow_storage_growth, build_smoke_container_session_image, clear_container_activity,
    copy_application_diagnostics, copy_container_command, copy_managed_display_command, copy_managed_display_environment,
    copy_smoke_image_build_command, export_session_profile, focus_managed_display,
    host_page_opened, load_image, open_words, pressed, profile_exported, pull_container_session_image,
    pull_image, reload_container_mode, request_smoke_image_build, select_container_tab,
    show_raw_session_profile, ArchiveChoice, ExportOutcome, HostPage, Pressed,
};
use cocoa_way::page::{Action, Command};
use cocoa_way::session_config::session_to_toml;

const ROOM: Option<u64> = Some(8 << 30);
const NO_ROOM: Option<u64> = Some((8 << 30) - 1);

fn session(name: &str) -> ContainerSession {
    session_of_entry(SessionEntry {
        name: name.into(),
        image: "example:latest".into(),
        runtime: None,
        display: None,
        presentation: None,
        profile: None,
        app: None,
        command: None,
        socket: None,
        container_socket: None,
        waypipe_path: None,
        waypipe_compress: None,
        waypipe_threads: None,
        audio: None,
        runtime_args: None,
        mounts: None,
        env: None,
    })
}

fn last_activity(mode: &ContainerMode) -> String {
    mode.activity.activity_snapshot().last().cloned().unwrap_or_default()
}

fn grows(effects: &[Effect]) -> bool {
    effects.iter().any(|effect| {
        matches!(
            effect,
            Effect::BuildImage { .. } | Effect::PullImage { .. } | Effect::LoadImage(_)
        )
    })
}

fn alert(effects: &[Effect]) -> Option<String> {
    effects.iter().find_map(|effect| match effect {
        Effect::Alert(message) => Some(message.clone()),
        _ => None,
    })
}

#[test]
fn no_image_comes_without_room() {
    let form = PullForm {
        destination: 0,
        registry: 0,
        reference: "alpine".into(),
        platform: 1,
        connection: 2,
        after: 1,
    };
    let sessions = vec![session("One")];
    for (available, room) in [(ROOM, true), (NO_ROOM, false), (None, false)] {
        let mut mode = ContainerMode::new();
        assert_eq!(allow_storage_growth(&mut mode, "test", available, 1).is_none(), room);
        assert_eq!(grows(&request_smoke_image_build(&mut mode, available, 2)), room);
        assert_eq!(grows(&build_smoke_container_session_image(&mut mode, 3, available, 3)), room);
        assert_eq!(mode.selected_session, Some(3));
        let effects = pull_container_session_image(&mut mode, &sessions, 0, available, 4);
        assert_eq!(grows(&effects), room);
        let effects = pull_image(&mut mode, &form, available, 5);
        assert_eq!(grows(&effects), room);
        assert_eq!(alert(&effects).is_some(), !room);
        if !room {
            assert!(last_activity(&mode).contains("Storage protection blocked pull an image: "));
        }
    }
}

#[test]
fn the_form_of_an_image_is_read_as_it_was_filled_in() {
    let mut mode = ContainerMode::new();
    let mut form = PullForm {
        destination: 1,
        registry: 1,
        reference: " owner/gui:1 ".into(),
        platform: 2,
        connection: 1,
        after: 1,
    };
    let effects = pull_image(&mut mode, &form, ROOM, 1);
    let [Effect::PullImage { runtime, image, platform, scheme, configure_session }] = &effects[..]
    else {
        panic!("not fetched");
    };
    assert_eq!((runtime.as_str(), image.as_str()), ("docker", "ghcr.io/owner/gui:1"));
    assert_eq!(platform.as_deref(), Some("linux/amd64"));
    assert_eq!(scheme.as_deref(), Some("https"));
    assert!(configure_session);
    form.reference = "  ".into();
    assert_eq!(
        alert(&pull_image(&mut mode, &form, NO_ROOM, 2)).as_deref(),
        Some("Image reference is required.")
    );
}

#[test]
fn a_profile_that_is_gone_is_not_pulled_for() {
    let mut mode = ContainerMode::new();
    let effects = pull_container_session_image(&mut mode, &vec![], 0, ROOM, 1);
    assert_eq!(alert(&effects).as_deref(), Some("Application profile no longer exists."));
    assert_eq!(mode.selected_session, None);
}

#[test]
fn archives_are_loaded_from_files_of_this_machine() {
    let mut mode = ContainerMode::new();
    assert!(load_image(&mut mode, ROOM, ArchiveChoice::Cancelled, 1).is_empty());
    assert_eq!(
        alert(&load_image(&mut mode, ROOM, ArchiveChoice::Nothing, 1)).as_deref(),
        Some("No archive was selected.")
    );
    assert_eq!(
        alert(&load_image(&mut mode, ROOM, ArchiveChoice::NoPath, 1)).as_deref(),
        Some("Selected archive does not have a local filesystem path.")
    );
    assert!(matches!(
        &load_image(&mut mode, ROOM, ArchiveChoice::Path("/i.tar".into()), 1)[..],
        [Effect::LoadImage(path)] if path == "/i.tar"
    ));
    let effects = load_image(&mut mode, NO_ROOM, ArchiveChoice::Path("/i.tar".into()), 2);
    assert!(!grows(&effects));
    assert!(last_activity(&mode).contains("Storage protection blocked load an OCI archive: Only 8.0"));
}

#[test]
fn diagnostics_are_copied_and_noted() {
    let mut mode = ContainerMode::new();
    let sessions = vec![session("One")];
    let effects = copy_application_diagnostics(&mut mode, &sessions, 0, 1);
    let [Effect::CopyText(text)] = &effects[..] else {
        panic!("nothing was copied");
    };
    assert!(text.starts_with("Cocoa-Way application diagnostics\n\nApplication: One\n"));
    assert!(text.ends_with("Active instance: none\n\nRecent logs:\nNo captured logs."));
    assert!(last_activity(&mode).ends_with("Copied diagnostics for application: One"));
    assert_eq!(
        alert(&copy_application_diagnostics(&mut mode, &sessions, 1, 2)).as_deref(),
        Some("Application profile no longer exists.")
    );
}

#[test]
fn the_window_is_changed_by_its_own_buttons() {
    let mut mode = ContainerMode::new();
    mode.push_activity(1, "something");
    clear_container_activity(&mut mode);
    assert!(mode.activity.activity_snapshot().is_empty());
    select_container_tab(&mut mode, 2);
    assert_eq!(mode.selected_tab, 2);
    assert_eq!(reload_container_mode(&mut mode).len(), 2);
    mode.selected_container = Some(SelectedRuntimeContainer {
        runtime: "docker".into(),
        name: "c1".into(),
        label: "c1".into(),
        running: true,
    });
    assert!(matches!(
        &reload_container_mode(&mut mode)[..],
        [
            Effect::InvalidateCommands,
            Effect::RefreshContainerDetails { name, .. },
            Effect::Rebuild,
        ] if name == "c1"
    ));
}

#[test]
fn what_is_copied_is_noted() {
    let mut mode = ContainerMode::new();
    let copied = |effects: &[Effect]| match &effects[0] {
        Effect::CopyText(text) => text.clone(),
        effect => panic!("not copied: {effect:?}"),
    };
    let command = copied(&copy_smoke_image_build_command(&mut mode, 1));
    assert!(command.starts_with("container build -f "));
    let commands = vec!["docker ps".to_string()];
    assert_eq!(copied(&copy_container_command(&mut mode, &commands, 0, 2)), "docker ps");
    assert!(last_activity(&mode).ends_with("Copied command: docker ps"));
    assert_eq!(
        alert(&copy_container_command(&mut mode, &commands, 1, 3)).as_deref(),
        Some("Command no longer exists.")
    );
    let display = ManagedDisplaySnapshot {
        slot: "work".into(),
        runtime_dir: "/run/d".into(),
        display: "wayland-9".into(),
        pid: 7,
    };
    assert_eq!(
        copied(&copy_managed_display_environment(&mut mode, &display, 4)),
        "export XDG_RUNTIME_DIR='/run/d' WAYLAND_DISPLAY='wayland-9'"
    );
    assert_eq!(
        copied(&copy_managed_display_command(&mut mode, &display, 5)),
        "./run_waypipe.sh --display 'work'"
    );
    assert!(last_activity(&mode).ends_with("managed display: work"));
}

#[test]
fn programs_of_the_host_are_opened() {
    assert_eq!(open_words(HostPage::DataRoot, "/data"), ["/data"]);
    assert_eq!(open_words(HostPage::OrbStack, ""), ["-a", "OrbStack"]);
    assert_eq!(open_words(HostPage::Releases, "").len(), 1);
    let mut mode = ContainerMode::new();
    host_page_opened(&mut mode, HostPage::OrbStack, Ok(()), 1);
    assert!(last_activity(&mode).ends_with("Opened OrbStack."));
    let effects = host_page_opened(&mut mode, HostPage::Releases, Err("no browser".into()), 2);
    assert_eq!(
        alert(&effects).as_deref(),
        Some("Could not open the Apple Container release page: no browser")
    );
    host_page_opened(&mut mode, HostPage::DataRoot, Err("ignored".into()), 3);
    assert!(last_activity(&mode).ends_with("Opened Apple Container data root."));
    assert!(focus_managed_display(true, true).is_empty());
    assert!(alert(&focus_managed_display(false, false)).is_some());
    assert!(alert(&focus_managed_display(true, false)).is_some());
}

#[test]
fn profiles_are_exported_as_they_are_saved() {
    let sessions = vec![session("My App")];
    let (name, text) = export_session_profile(&sessions, 0).unwrap();
    assert_eq!(name, "my-app.toml");
    assert_eq!(text, session_to_toml(&sessions[0]));
    let (title, shown) = show_raw_session_profile(&sessions, 0).unwrap();
    assert_eq!((title.as_str(), shown), ("Raw Configuration: My App", text));
    assert!(export_session_profile(&sessions, 1).is_err());
    assert!(show_raw_session_profile(&sessions, 1).is_err());
    let mut mode = ContainerMode::new();
    profile_exported(&mut mode, "My App", ExportOutcome::Written(Ok(())), 1);
    assert!(last_activity(&mode).ends_with("Exported application profile: My App"));
    for (outcome, message) in [
        (ExportOutcome::Nothing, "No export destination was selected."),
        (ExportOutcome::NoPath, "The export destination is not a local file."),
        (ExportOutcome::Written(Err("full".into())), "Failed to export profile: full"),
    ] {
        let effects = profile_exported(&mut mode, "My App", outcome, 2);
        assert_eq!(alert(&effects).as_deref(), Some(message));
    }
    assert!(profile_exported(&mut mode, "My App", ExportOutcome::Cancelled, 3).is_empty());
}

fn with(command: Command, names: &[&str]) -> Pressed {
    pressed(&Action::With(command, names.iter().map(|name| name.to_string()).collect()))
}

#[test]
fn containers_and_machines_are_acted_on_by_name() {
    assert!(matches!(
        with(Command::StartContainer, &["docker", "c1"]),
        Pressed::Effects(effects)
            if matches!(&effects[..], [Effect::StartContainer { runtime, name }] if runtime == "docker" && name == "c1")
    ));
    assert!(matches!(
        with(Command::StopMachine, &["m1"]),
        Pressed::Effects(effects)
            if matches!(&effects[..], [Effect::MachineAction { runtime, name, action }] if runtime == "orbstack" && name == "m1" && action == "stop")
    ));
    assert!(matches!(
        with(Command::UseContext, &["remote"]),
        Pressed::Effects(effects) if matches!(&effects[..], [Effect::UseContext(name)] if name == "remote")
    ));
    assert!(matches!(with(Command::UseContext, &[]), Pressed::Elsewhere));
    assert!(matches!(
        pressed(&Action::Do(Command::StopOrbStack)),
        Pressed::Effects(effects)
            if matches!(&effects[..], [Effect::RuntimeAction { runtime, action }] if runtime == "orbstack" && action == "stop")
    ));
    assert!(matches!(pressed(&Action::Do(Command::PullImage)), Pressed::Elsewhere));
}

#[test]
fn deleting_asks_first() {
    let Pressed::Confirm { title, detail, then_do } = with(Command::DeleteContainer, &["docker", "c1"])
    else {
        panic!("not asked");
    };
    assert_eq!(title, "Delete Container?");
    assert!(detail.contains("'c1'"));
    assert!(matches!(then_do, Effect::DeleteContainer { name, .. } if name == "c1"));
    assert!(matches!(
        with(Command::DeleteMachine, &["m1"]),
        Pressed::Confirm { then_do: Effect::MachineAction { action, .. }, .. } if action == "delete"
    ));
}

fn active(profile_index: usize, slot: &str) -> ActiveSessionSnapshot {
    ActiveSessionSnapshot {
        id: 1,
        profile_index,
        started_at_unix_ms: 0,
        container_pid: None,
        waypipe_pid: 8,
        display_slot: slot.into(),
        display_pid: None,
        display_runtime_dir: None,
    }
}

#[test]
fn the_summary_shows_the_picked_or_the_fastest_display() {
    let mut mode = ContainerMode::new();
    assert_eq!(summary_performance_snapshot(&mode, false, &vec![]), None);
    assert_eq!(summary_performance_snapshot(&mode, true, &vec![]), Some(SampleSource::Own));
    mode.active_sessions = vec![active(4, "a"), active(5, "b"), active(6, "default")];
    let rates = vec![Some(30), Some(60), None];
    assert_eq!(
        summary_performance_snapshot(&mode, true, &rates),
        Some(SampleSource::Instance(1))
    );
    mode.selected_session = Some(4);
    assert_eq!(
        summary_performance_snapshot(&mode, true, &rates),
        Some(SampleSource::Instance(0))
    );
    mode.selected_session = Some(6);
    assert_eq!(summary_performance_snapshot(&mode, true, &rates), Some(SampleSource::Own));
    let equal = vec![Some(60), Some(60), Some(59)];
    mode.selected_session = None;
    assert_eq!(
        summary_performance_snapshot(&mode, true, &equal),
        Some(SampleSource::Instance(1))
    );
    assert_eq!(control_active_sessions(&mode).len(), 3);
    let listed = control_display_performance(&mode, true, &vec![true, false, true], &vec![]);
    assert_eq!(listed[0], ("default".to_string(), SampleSource::Own));
    assert_eq!(listed[1], ("a".to_string(), SampleSource::Instance(0)));
    assert_eq!(listed.len(), 2);
}
