//! What the window shows.
use cocoa_way::container_mode::{
    ContainerMode, Effect, SelectedImage, SelectedRuntimeContainer, SelectedVolume,
};
use cocoa_way::container_sessions::{session_of_entry, ContainerSession, SessionEntry};
use cocoa_way::detail_pages::{
    add_image_detail, add_runtime_container_detail, add_volume_detail, known_tags,
};
use cocoa_way::dialogs::{
    confirm_stop_apple_runtime, create_volume_dialog, create_volume_request, delete_image_dialog,
    delete_resource_question, settings_text, delete_image_request, delete_session_question, login_dialog,
    login_request, pull_dialog, pull_request, session_dialog, session_from_form, session_saved,
    FieldKind, PullForm, SessionForm,
};
use cocoa_way::display_pages::{add_displays_list, sample_is_fresh};
use cocoa_way::inventory::RuntimeContainerRow;
use cocoa_way::page::{session_detail_row_height, shown_count, Action, Command, Item};
use cocoa_way::pages::{
    add_activity_list, add_commands_list, add_list_toolbar, add_resource_sidebar, nav_title, PerformanceTexts,
    ResourceTexts,
};
use cocoa_way::profiles::{
    defaults_from_session, session_defaults_for_image, NAV_DOCKER, NAV_IMAGES, NAV_ORBSTACK,
    NAV_VOLUMES,
};
use cocoa_way::resource_pages::{
    add_images_list, add_volumes_list, delete_tooltip, volume_is_deletable, VolumeEntry,
    VolumeShelf,
};
use cocoa_way::runtime_pages::{
    add_runtime_list, refresh_picked_container, runtime_title, RuntimePage,
};
use cocoa_way::runtimes::{AppleContainerCompatibility, RuntimeOverview};
use cocoa_way::session_pages::{add_session_detail, primary_action, session_rows, Primary};
use cocoa_way::storage::{ImageInventory, ImageRow, VolumeMetadata, VolumeRow, VolumeUsage};
use cocoa_way::window::{
    content_height, detail_scroll_key, document_height, image_more_action, list_scroll_key,
    profile_list, add_detail_panel, add_runtime_summary, add_tab_bar, application_profile_more_action,
    detail_page, export_file_name, install_content, list_page, DetailPage, ListPage, ProfileChoice,
    SummaryTexts,
};

fn session(name: &str) -> ContainerSession {
    session_of_entry(SessionEntry {
        name: name.into(),
        image: "example:latest".into(),
        runtime: Some("docker".into()),
        display: None,
        presentation: None,
        profile: Some("single-app".into()),
        app: None,
        command: Some("foot".into()),
        socket: None,
        container_socket: None,
        waypipe_path: Some("/opt/waypipe".into()),
        waypipe_compress: None,
        waypipe_threads: Some(3),
        audio: Some(true),
        runtime_args: None,
        mounts: None,
        env: None,
    })
}

fn shown(items: &[Item]) -> String {
    format!("{items:?}")
}

fn buttons(items: &[Item]) -> Vec<String> {
    items
        .iter()
        .filter_map(|item| match item {
            Item::Button { title, .. } => Some(title.clone()),
            _ => None,
        })
        .collect()
}

#[test]
fn every_profile_has_a_row() {
    let sessions = vec![session("One"), session("Two")];
    let mode = ContainerMode::new();
    let mut items = Vec::new();
    session_rows(&mut items, &sessions, &mode, false, Some(1));
    assert!(shown(&items).contains("\"One\"") && shown(&items).contains("\"Two\""));
    let marked = items
        .iter()
        .filter(|item| matches!(item, Item::Card { marked: true }))
        .count();
    assert_eq!(marked, 1);
    let mut running = Vec::new();
    session_rows(&mut running, &sessions, &mode, true, None);
    assert!(running.is_empty());
}

#[test]
fn an_idle_profile_offers_to_launch() {
    let mode = ContainerMode::new();
    assert!(matches!(primary_action(&session("One"), mode.session_state(0), false), Primary::Launch));
    let mut items = Vec::new();
    add_session_detail(&mut items, &mode, &session("One"), 0, 0, 5);
    assert!(buttons(&items).iter().any(|title| title.contains("Launch")));
    assert!(shown(&items).contains("example:latest"));
    for tab in 0..4 {
        let mut page = Vec::new();
        add_session_detail(&mut page, &mode, &session("One"), 0, tab, 5);
        assert!(!page.is_empty());
    }
}

#[test]
fn the_window_shows_the_page_of_its_section() {
    assert!(matches!(list_page(0, false, 0, 0), ListPage::SessionEmpty));
    assert!(matches!(list_page(0, false, 0, 2), ListPage::Sessions));
    assert!(matches!(list_page(0, true, 0, 0), ListPage::ConfigError));
    let mut mode = ContainerMode::new();
    mode.selected_session = Some(0);
    let (plan, effects) = install_content(&mut mode, 1, false);
    assert_eq!(plan.selected_session, Some(0));
    assert!(matches!(plan.list, ListPage::Sessions));
    assert!(matches!(plan.detail, Some(DetailPage::Session(0))));
    assert!(effects.iter().any(|effect| matches!(effect, Effect::CheckSession(0))));
    assert!(matches!(detail_page(&mode, 0, Some(0)), DetailPage::Session(0)));
    for nav in 0..10 {
        assert!(!nav_title(nav).is_empty());
        let mut items = Vec::new();
        add_list_toolbar(&mut items, nav);
        assert!(!items.is_empty());
    }
}

#[test]
fn the_sidebar_leads_to_every_section() {
    let mut items = Vec::new();
    add_resource_sidebar(&mut items, 2, &ContainerMode::new(), false);
    let mut sections: Vec<usize> = items
        .iter()
        .filter_map(|item| match item {
            Item::Area { action: Action::At(Command::SelectNav, index) } => Some(*index),
            Item::Button { action: Action::At(Command::SelectNav, index), .. } => Some(*index),
            _ => None,
        })
        .collect();
    let count = sections.len();
    sections.sort();
    sections.dedup();
    assert_eq!(sections.len(), count);
    assert!(count >= 8);
}

/// What stands beside a page of a machine on which nothing is installed.
fn panel(mode: &ContainerMode, sessions: &Vec<ContainerSession>, profile: Option<usize>) -> Vec<Item> {
    let mut items = Vec::new();
    add_detail_panel(
        &mut items,
        mode,
        sessions,
        profile,
        5,
        &vec!["gui:1".into(), "gui:latest".into()],
        &VolumeUsage {
            referenced_profiles: vec!["One".into()],
            mounted_containers: vec![],
            loading: false,
            error: None,
        },
        &VolumeMetadata {
            kind: "local".into(),
            size: "3 GiB".into(),
            created: "yesterday".into(),
        },
        &vec!["{ \"Id\": 7 }".into()],
        &SummaryTexts {
            apple_installed: false,
            apple_running: false,
            publish_socket: false,
            frame_rate: None,
            disk_available_gib: Some("12.5".into()),
        },
    );
    items
}

#[test]
fn every_panel_ends_with_the_summary() {
    let mut mode = ContainerMode::new();
    for nav in 0..10 {
        mode.selected_nav = nav;
        let items = panel(&mode, &vec![], None);
        let summary = format!("{:?}", &items[items.len() - 10..]);
        for word in ["Apple Mgmt", "Missing", "Waiting", "12.5 GiB", "0 active"] {
            assert!(summary.contains(word), "{nav} {word}");
        }
    }
}

#[test]
fn a_picked_image_is_shown_beside_the_images() {
    let mut mode = ContainerMode::new();
    mode.selected_nav = NAV_IMAGES;
    let nothing = shown(&panel(&mode, &vec![], None));
    assert!(!nothing.contains("Create Application"));
    mode.selected_image = Some(SelectedImage {
        runtime: "Docker".into(),
        runtime_key: "docker".into(),
        reference: "gui:1".into(),
        label: "gui:1  abc  3GB".into(),
    });
    let items = panel(&mode, &vec![], None);
    assert!(buttons(&items).contains(&"Create Application".to_string()));
    assert!(shown(&items).contains("Docker image in the local runtime store"));
    assert!(shown(&items).contains("gui:latest"));
    assert!(shown(&items).contains("{ \\\"Id\\\": 7 }"));
    mode.selected_nav = NAV_VOLUMES;
    assert!(!shown(&panel(&mode, &vec![], None)).contains("gui:latest"));
}

#[test]
fn a_picked_volume_is_shown_beside_the_volumes() {
    let mut mode = ContainerMode::new();
    mode.selected_nav = NAV_VOLUMES;
    mode.selected_volume = Some(SelectedVolume {
        runtime: "Docker".into(),
        runtime_key: "docker".into(),
        name: "data".into(),
        label: "data local".into(),
    });
    let items = panel(&mode, &vec![], None);
    assert!(buttons(&items).contains(&"Delete Volume".to_string()));
    for word in ["Docker local volume", "3 GiB", "yesterday", "Volume Details"] {
        assert!(shown(&items).contains(word), "{word}");
    }
}

#[test]
fn a_picked_container_is_shown_beside_its_runtime_alone() {
    let mut mode = ContainerMode::new();
    mode.selected_nav = NAV_DOCKER;
    mode.selected_container = Some(SelectedRuntimeContainer {
        runtime: "docker".into(),
        name: "web".into(),
        label: "web running".into(),
        running: true,
    });
    let items = shown(&panel(&mode, &vec![], None));
    assert!(items.contains("Recent Logs"));
    assert!(items.contains("Waiting for recent container logs..."));
    mode.selected_nav = NAV_ORBSTACK;
    assert!(!shown(&panel(&mode, &vec![], None)).contains("Recent Logs"));
}

#[test]
fn detail_panels_follow_the_selection() {
    let sessions = vec![session("One")];
    let mode = ContainerMode::new();
    let items = panel(&mode, &sessions, Some(0));
    assert!(shown(&items).contains("One"));
    let empty = panel(&mode, &sessions, None);
    assert!(shown(&empty).contains("No Selection"));
    let mut tabs = Vec::new();
    add_tab_bar(&mut tabs, 1);
    assert!(!tabs.is_empty());
    assert!(matches!(application_profile_more_action(1), Some(ProfileChoice::Duplicate)));
    assert!(application_profile_more_action(0).is_none());
    assert!(export_file_name(&session("My App")).ends_with(".toml"));
}

fn form() -> SessionForm {
    SessionForm {
        name: " Name ".into(),
        runtime: "docker".into(),
        display: "default".into(),
        presentation: 1,
        profile: "single-app".into(),
        image: "img:1".into(),
        command: "foot".into(),
        mounts: "a;b".into(),
        env: "K=V".into(),
        audio: 0,
    }
}

#[test]
fn a_form_becomes_a_profile() {
    let made = session_from_form(&form(), None).unwrap();
    assert_eq!(made.name, "Name");
    assert_eq!(made.mounts, ["a", "b"]);
    assert_eq!(made.env, ["K=V"]);
    assert!(made.presentation_mode().is_rootless());
    let mut nameless = form();
    nameless.name = "  ".into();
    assert!(!session_from_form(&nameless, None).unwrap().name.is_empty());
    let mut imageless = form();
    imageless.image = String::new();
    assert_eq!(
        session_from_form(&imageless, None).err(),
        Some("Enter an image reference before creating the session.".to_string())
    );
    let mut loud = form();
    loud.audio = 1;
    assert_eq!(
        session_from_form(&loud, None).err(),
        Some("Audio forwarding currently requires Apple Container.".to_string())
    );
}

#[test]
fn an_edit_keeps_what_the_form_does_not_show() {
    let edited = session_from_form(&form(), Some(&session("One"))).unwrap();
    assert_eq!(edited.waypipe_path.as_deref(), Some("/opt/waypipe"));
    assert_eq!(edited.waypipe_threads, Some(3));
    assert_eq!(edited.name, "Name");
}

#[test]
fn a_saved_profile_is_selected() {
    let mut mode = ContainerMode::new();
    session_saved(&mut mode, &session("One"), None, 4, Ok(()), 1);
    assert_eq!(mode.selected_session, Some(3));
    let effects = session_saved(&mut mode, &session("One"), Some(0), 4, Err("full".into()), 2);
    assert!(effects
        .iter()
        .any(|effect| matches!(effect, Effect::Alert(text) if text.contains("full"))));
}

#[test]
fn dialogs_ask_for_all_of_their_fields() {
    let dialog = session_dialog(&session_defaults_for_image("docker", "img:1"), false);
    assert!(dialog.fields.len() >= 10);
    let edit = session_dialog(&defaults_from_session(&session("One")), true);
    assert_ne!(edit.title, dialog.title);
    assert!(login_dialog()
        .fields
        .iter()
        .any(|(_, kind)| matches!(kind, FieldKind::Secret { .. })));
    assert!(!pull_dialog().fields.is_empty());
    assert!(delete_session_question("One").0.contains("One"));
}

#[test]
fn requests_are_made_of_what_was_entered() {
    let form = PullForm {
        destination: 1,
        registry: 0,
        reference: "alpine".into(),
        platform: 0,
        connection: 0,
        after: 0,
    };
    assert!(matches!(
        pull_request(&form),
        Ok(Effect::PullImage { image, .. }) if image == "docker.io/library/alpine"
    ));
    let empty = PullForm { reference: " ".into(), ..form };
    assert!(pull_request(&empty).is_err());
    assert!(matches!(
        login_request("ghcr.io", "me", "SECRET-REDACTED", 0),
        Ok(Effect::LoginRegistry { server, .. }) if server == "ghcr.io"
    ));
    assert!(login_request("", "me", "x", 0).is_err());
    assert!(delete_image_request("docker", "").is_err());
    assert!(matches!(
        create_volume_request(1, "data"),
        Ok(Effect::CreateVolume { volume, .. }) if volume == "data"
    ));
    assert!(create_volume_request(0, "  ").is_err());
}

fn usage(containers: &[&str], loading: bool) -> VolumeUsage {
    VolumeUsage {
        referenced_profiles: vec![],
        mounted_containers: containers.iter().map(|name| name.to_string()).collect(),
        loading,
        error: None,
    }
}

#[test]
fn only_a_free_volume_can_be_deleted() {
    assert!(volume_is_deletable(&usage(&[], false)));
    assert!(!volume_is_deletable(&usage(&["c"], false)));
    assert!(!volume_is_deletable(&usage(&[], true)));
    assert_eq!(delete_tooltip(&usage(&[], false), "Delete"), "Delete");
    assert_ne!(delete_tooltip(&usage(&["c"], false), "Delete"), "Delete");
    let shelf = VolumeShelf {
        runtime: "Docker".into(),
        runtime_key: "docker".into(),
        entries: vec![VolumeEntry {
            row: VolumeRow { label: "data local".into(), name: Some("data".into()) },
            usage: usage(&["c"], false),
            metadata: VolumeMetadata { kind: "local".into(), size: "1 MiB".into(), created: "today".into() },
        }],
    };
    let mut items = Vec::new();
    add_volumes_list(&mut items, &vec![shelf], &None);
    assert!(items.iter().any(|item| matches!(
        item,
        Item::Button { enabled: false, action: Action::With(Command::DeleteVolume, _), .. }
    )));
}

#[test]
fn images_are_shown_by_runtime() {
    let inventory = ImageInventory {
        runtime: "Docker".into(),
        runtime_key: "docker".into(),
        rows: vec![ImageRow { label: "img:1 sha 5MB".into(), reference: Some("img:1".into()) }],
    };
    let image = SelectedImage {
        runtime: "Docker".into(),
        runtime_key: "docker".into(),
        reference: "img:1".into(),
        label: "img:1 sha 5MB".into(),
    };
    let inventories = vec![inventory];
    assert!(known_tags(&inventories, &image).contains(&"img:1".to_string()));
    let mut items = Vec::new();
    add_images_list(&mut items, &inventories, "none", &Some(image));
    assert!(shown(&items).contains("img:1"));
    assert!(items.iter().any(|item| matches!(item, Item::Card { marked: true })));
}

#[test]
fn a_container_stays_picked_while_it_is_listed() {
    let mut picked = Some(SelectedRuntimeContainer {
        runtime: "docker".into(),
        name: "c1".into(),
        label: "old".into(),
        running: false,
    });
    let rows = vec![RuntimeContainerRow { name: Some("c1".into()), label: "new".into(), running: true }];
    refresh_picked_container(&mut picked, "docker", &rows, 10);
    let now = picked.as_ref().unwrap();
    assert_eq!((now.label.as_str(), now.running), ("new", true));
    let mut items = Vec::new();
    add_runtime_container_detail(&mut items, now, &None);
    assert!(shown(&items).contains("c1"));
}

#[test]
fn a_runtime_that_is_missing_is_shown_as_such() {
    let page = RuntimePage {
        path: None,
        overview: RuntimeOverview {
            status: cocoa_way::application_model::RuntimeStatus::Unavailable,
            detail: "d".into(),
            version: "v".into(),
            resources: "r".into(),
            provider: "p".into(),
        },
        compatibility: AppleContainerCompatibility {
            cli_version: "1".into(),
            api_version: "1".into(),
            system_status: "running".into(),
            publish_socket: true,
            stats_json: true,
            summary: "s".into(),
            detail: "d".into(),
        },
        contexts: vec![],
        orbstack: None,
        rows: vec![],
        checks: vec![],
    };
    for nav in [4, 5, 6] {
        let mut missing = Vec::new();
        add_runtime_list(&mut missing, nav, &page, &None);
        assert!(shown(&missing).contains(runtime_title(nav)));
        let installed = RuntimePage { path: Some("/bin/x".into()), ..page_copy() };
        let mut there = Vec::new();
        add_runtime_list(&mut there, nav, &installed, &None);
        assert!(shown(&there).contains("/bin/x"));
    }
}

#[test]
fn a_page_shows_the_inventory_of_its_own_runtime() {
    let page = RuntimePage { path: Some("/bin/x".into()), ..page_copy() };
    let list = |nav: usize| {
        let mut items = Vec::new();
        add_runtime_list(&mut items, nav, &page, &None);
        shown(&items)
    };
    assert!(list(NAV_ORBSTACK).contains("Machines"));
    assert!(list(NAV_ORBSTACK).contains("OrbStack is stopped"));
    assert!(!list(NAV_IMAGES).contains("Machines"));
    assert!(list(NAV_IMAGES).contains("/bin/x"));
}

fn page_copy() -> RuntimePage {
    RuntimePage {
        path: None,
        overview: RuntimeOverview {
            status: cocoa_way::application_model::RuntimeStatus::Ready,
            detail: "d".into(),
            version: "v".into(),
            resources: "r".into(),
            provider: "p".into(),
        },
        compatibility: AppleContainerCompatibility {
            cli_version: "1".into(),
            api_version: "1".into(),
            system_status: "running".into(),
            publish_socket: true,
            stats_json: true,
            summary: "s".into(),
            detail: "d".into(),
        },
        contexts: vec![],
        orbstack: None,
        rows: vec![],
        checks: vec![],
    }
}

#[test]
fn diagnostics_are_shown_with_their_numbers() {
    let performance = PerformanceTexts {
        redraw_fps: "59.9".into(),
        commits_per_second: "30.0".into(),
        late_redraws_per_second: "0.0".into(),
        max_redraw_wait_ms: "4.2".into(),
        input_to_present_ms: None,
        tiles: 2,
        dirty: false,
        pending_frame_callbacks: 0,
    };
    let resources = ResourceTexts {
        available: true,
        containers: 3,
        cpu_percent: Some("12.5".into()),
        memory_usage_gib: "1.0".into(),
        memory_limit_gib: "4.0".into(),
        error: None,
        disk_available_gib: Some("99.5".into()),
    };
    let clipboard = cocoa_way::diagnostics::ClipboardSnapshot::default();
    let mut items = Vec::new();
    let mut mode = ContainerMode::new();
    mode.push_activity(1000, "something happened");
    add_activity_list(&mut items, &mode, &Some(performance), &resources, &clipboard);
    let text = shown(&items);
    for part in ["59.9", "12.5", "99.5", "something happened"] {
        assert!(text.contains(part), "{part}");
    }
    let summary = SummaryTexts {
        apple_installed: true,
        apple_running: false,
        publish_socket: true,
        frame_rate: Some("60".into()),
        disk_available_gib: Some("99.5".into()),
    };
    let mut top = Vec::new();
    add_runtime_summary(&mut top, &summary, &mode);
    assert!(!top.is_empty());
    let mut displays = Vec::new();
    add_displays_list(&mut displays, &mode, &vec![session("One")]);
    assert!(shown(&displays).contains("One"));
    assert!(sample_is_fresh(1000, 1000));
    assert_eq!(shown_count(3, 2), 2);
    assert_eq!(shown_count(1, 2), 1);
}

#[test]
fn long_session_detail_values_reserve_a_second_line() {
    let line_chars = |width: f64| (width / 7.2).floor() as usize;
    assert_eq!(session_detail_row_height("Running", line_chars(240.0)), 26);
    assert_eq!(
        session_detail_row_height(
            "Tracked by Cocoa-Way with a long transport and display occupancy summary",
            line_chars(160.0),
        ),
        42
    );
}

#[test]
fn pages_of_images_and_volumes_have_their_details() {
    let image = SelectedImage {
        runtime: "Docker".into(),
        runtime_key: "docker".into(),
        reference: "img:1".into(),
        label: "img:1 sha 5MB".into(),
    };
    let mut items = Vec::new();
    let tags = vec!["img:1".to_string()];
    let preview = vec!["{\"Id\": 1}".to_string()];
    add_image_detail(&mut items, &image, &tags, &ContainerMode::new(), &vec![session("One")], &preview);
    assert!(shown(&items).contains("img:1") && shown(&items).contains("Id"));
    let volume = SelectedVolume {
        runtime: "Docker".into(),
        runtime_key: "docker".into(),
        name: "data".into(),
        label: "data local".into(),
    };
    let metadata = VolumeMetadata { kind: "local".into(), size: "1 MiB".into(), created: "today".into() };
    let mut items = Vec::new();
    add_volume_detail(&mut items, &volume, &usage(&["c9"], false), &metadata, &preview);
    for part in ["data", "1 MiB", "today", "c9"] {
        assert!(shown(&items).contains(part), "{part}");
    }
}

#[test]
fn the_window_remembers_where_it_was_scrolled() {
    let mode = ContainerMode::new();
    assert_ne!(list_scroll_key(0), list_scroll_key(1));
    assert_ne!(
        detail_scroll_key(&mode, 0, 0, Some(0)),
        detail_scroll_key(&mode, 0, 1, Some(0))
    );
    assert_ne!(
        detail_scroll_key(&mode, 0, 0, Some(0)),
        detail_scroll_key(&mode, 0, 0, Some(1))
    );
    assert!(content_height(&mode, 0, 50, 400) > content_height(&mode, 0, 0, 400));
    assert!(document_height(&mode, 0, DetailPage::Session(0), 400) >= 400);
    let mut items = Vec::new();
    profile_list(&mut items, ListPage::ConfigError, &vec![], &mode, "bad file", None);
    assert!(shown(&items).contains("bad file"));
    let mut commands = Vec::new();
    add_commands_list(&mut commands, &vec!["docker ps".to_string()]);
    assert!(shown(&commands).contains("docker ps"));
}

#[test]
fn questions_name_what_they_are_about() {
    assert!(delete_resource_question("volume", "Docker", "data").1.contains("data")
        || delete_resource_question("volume", "Docker", "data").0.contains("data"));
    assert!(settings_text("/c.toml").contains("/c.toml"));
    assert!(!delete_image_dialog().fields.is_empty());
    assert!(!create_volume_dialog().fields.is_empty());
    let (running, question) = confirm_stop_apple_runtime(&ContainerMode::new(), &vec![session("One")]);
    assert!(running.is_empty());
    assert!(question.is_none());
    assert!(image_more_action(0, "img:1").is_none());
}
