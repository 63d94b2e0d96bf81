//! What the runtimes report.
use cocoa_way::container_mode::ContainerMode;
use cocoa_way::container_sessions::{session_of_entry, ContainerSession, SessionEntry};
use cocoa_way::inventory::{
    active_context, apple_container_rows, command_preview_lines, count_running,
    docker_container_rows, docker_context_rows, first_stderr_line, orbstack_is_running,
    orbstack_machine_rows, ui_command_error,
};
use cocoa_way::profiles::{
    copy_or, default_session_name, elapsed_time_label, find_smoke_session, format_count,
    is_local_image_reference, normalize_profile, preferred_gui_image_reference, semicolon_list,
    smoke_session, split_at_char_count, unique_duplicate_name,
};
use cocoa_way::runtimes::{
    apple_container_compatibility, apple_overview, command_items, runtime_overview,
    ui_command_cache_key, version_at_least, CacheRedraw, CommandCache, Redraw, RuntimeReplies,
    Throttle,
};
use cocoa_way::session_launch::CommandOutput;
use cocoa_way::storage::{
    confirm_image_removal, confirm_volume_removal, image_inventories, image_reference_has_tag,
    image_rows, removed_reference, runtime_key_matches, split_image_reference, volume_rows,
    volume_usage, ImageDeleteAction, ImageSource, Removal, VolumeUsage,
};

fn done(stdout: &str) -> Result<CommandOutput, String> {
    Ok(CommandOutput {
        success: true,
        stdout: stdout.as_bytes().to_vec(),
        stderr: Vec::new(),
    })
}

fn failed(stderr: &str) -> Result<CommandOutput, String> {
    Ok(CommandOutput {
        success: false,
        stdout: Vec::new(),
        stderr: stderr.as_bytes().to_vec(),
    })
}

fn session(name: &str, image: &str) -> ContainerSession {
    session_of_entry(SessionEntry {
        name: name.into(),
        image: image.into(),
        runtime: Some("docker".into()),
        display: None,
        presentation: None,
        profile: None,
        app: None,
        command: None,
        socket: None,
        container_socket: None,
        waypipe_path: None,
        waypipe_compress: None,
        waypipe_threads: None,
        audio: None,
        runtime_args: None,
        mounts: Some(vec!["type=volume,source=data,target=/d".into()]),
        env: None,
    })
}

#[test]
fn a_command_that_fails_shows_its_first_line() {
    assert_eq!(
        first_stderr_line(&failed("first\nsecond").unwrap(), "other"),
        "first"
    );
    assert_eq!(first_stderr_line(&failed("").unwrap(), "other"), "other");
    assert!(ui_command_error("docker", "gone").contains("gone"));
    assert!(!command_preview_lines(&failed("broken")).is_empty());
    assert!(command_preview_lines(&done("a\nb"))[0].contains('a'));
}

#[test]
fn containers_are_listed_with_their_state() {
    let rows = apple_container_rows(&done(
        "ID IMAGE OS ARCH STATE ADDR\none img linux arm64 running 1.2.3.4\ntwo img linux arm64 stopped -\n",
    ));
    assert_eq!(rows.iter().filter(|row| row.name.is_some()).count(), 2);
    assert_eq!(count_running(&rows), 1);
    assert_eq!(docker_container_rows(&None).iter().filter(|row| row.name.is_some()).count(), 0);
}

#[test]
fn machines_are_listed_only_while_their_runtime_runs() {
    assert!(orbstack_is_running(&done("Running\n")));
    assert!(!orbstack_is_running(&done("Stopped\n")));
    assert!(!orbstack_is_running(&failed("no")));
    let rows = orbstack_machine_rows(true, &done(r#"[{"name":"u","state":"running"}]"#));
    assert_eq!(rows[0].name.as_deref(), Some("u"));
    assert!(rows[0].running);
    assert!(orbstack_machine_rows(false, &done("[]")).iter().all(|row| row.name.is_none()));
}

#[test]
fn the_current_context_is_the_active_one() {
    let rows = docker_context_rows(&Some(done("default\ttrue\tdesc\tunix:///a\nother\tfalse\t\tunix:///b\n")));
    let marked: Vec<_> = rows.iter().filter(|row| row.current).collect();
    assert_eq!(active_context(&rows), marked.first().and_then(|row| row.name.clone()));
}

#[test]
fn references_are_split_into_name_and_tag() {
    for reference in ["a:1", "a", "r.io:5000/a", "r.io:5000/a:2", "a@sha256:x"] {
        let (name, tag) = split_image_reference(reference);
        assert!(reference.starts_with(name));
        assert!(!tag.is_empty());
    }
    assert!(image_reference_has_tag("a:1"));
    assert!(!image_reference_has_tag("r.io:5000/a"));
    assert!(runtime_key_matches("docker", "docker"));
    assert!(!runtime_key_matches("docker", "container"));
}

#[test]
fn an_image_in_use_is_not_removed() {
    let sessions = vec![session("One", "img:1")];
    let mode = ContainerMode::new();
    let action = ImageDeleteAction {
        runtime: "docker".into(),
        reference: "img:1".into(),
        image_id: Some("sha".into()),
    };
    let known = vec!["img:1".to_string()];
    match confirm_image_removal(&mode, &sessions, &action, true, &known) {
        Removal::Ask { detail, .. } | Removal::Refused(detail) => assert!(detail.contains("One")),
    }
    assert_eq!(removed_reference(&action, true), "img:1");
    assert_eq!(removed_reference(&action, false), "sha");
    let rows = image_rows(ImageSource::Docker, &Some(failed("daemon")));
    assert!(rows.iter().all(|row| row.reference.is_none()));
    assert_eq!(image_inventories(&None, &None, &None).len(), 2);
}

#[test]
fn a_mounted_volume_is_not_removed() {
    let used = VolumeUsage {
        referenced_profiles: vec![],
        mounted_containers: vec!["c1".into()],
        loading: false,
        error: None,
    };
    assert!(matches!(
        confirm_volume_removal("docker", "data", &used),
        Removal::Refused(text) if text.contains("c1")
    ));
    let free = VolumeUsage {
        referenced_profiles: vec![],
        mounted_containers: vec![],
        loading: false,
        error: None,
    };
    assert!(matches!(confirm_volume_removal("docker", "data", &free), Removal::Ask { .. }));
    let usage = volume_usage(&vec![session("One", "img")], "docker", "data", &Some(done("")));
    assert_eq!(usage.referenced_profiles, ["One"]);
    assert!(volume_rows(ImageSource::Docker, &Some(failed("x"))).iter().all(|row| row.name.is_none()));
}

#[test]
fn versions_are_ordered_by_their_numbers() {
    assert!(version_at_least("1.10.0", (1, 9, 9)));
    assert!(!version_at_least("1.9.9", (1, 10, 0)));
    assert!(version_at_least("2.0", (1, 9, 9)));
    assert!(!version_at_least("none", (0, 0, 1)));
}

#[test]
fn an_old_runtime_is_told_so() {
    let status = done(r#"{"status":"running","apiServerVersion":"container-apiserver version 0.5.0"}"#);
    let old = apple_container_compatibility(&done("container CLI version 0.5.0"), &status, false, &done(""));
    assert_eq!(old.cli_version, "0.5.0");
    assert!(!old.publish_socket);
    assert!(!old.stats_json);
    let overview = apple_overview(&ContainerMode::new(), &done("container CLI version 0.5.0"), &old, &done(""));
    assert!(overview.version.contains("0.5.0"));
}

#[test]
fn answers_of_commands_are_kept_for_a_while() {
    let mut cache = CommandCache::new();
    let key = ui_command_cache_key("docker", "/bin", &vec!["ps".into()]);
    assert_ne!(key, ui_command_cache_key("docker", "/bin", &vec!["images".into()]));
    assert_eq!(cache.reply(&key).err().as_deref(), Some("Loading runtime data..."));
    assert!(cache.run_ui_command(&key, 0));
    assert!(!cache.run_ui_command(&key, 1));
    cache.answered(&key, 2, done("out"));
    assert!(cache.answer(&key).is_some());
    assert_eq!(cache.reply(&key).unwrap().stdout, b"out");
    assert!(!cache.run_ui_command(&key, 3));
    assert!(cache.run_ui_command(&key, u64::MAX));
    cache.invalidate_ui_command_cache();
    assert!(cache.answer(&key).is_none());
}

#[test]
fn drawing_again_is_not_done_too_often() {
    let mut throttle = Throttle::new();
    assert!(throttle.due(100, 50));
    assert!(!throttle.due(149, 50));
    assert!(throttle.due(150, 50));
    let mut redraw = Redraw::new();
    let mut cache = CommandCache::new();
    assert!(matches!(redraw.record_command_cache_updated(&mut cache, 1000), CacheRedraw::Now));
    assert!(matches!(redraw.record_command_cache_updated(&mut cache, 1001), CacheRedraw::Later));
    assert!(matches!(redraw.record_command_cache_updated(&mut cache, 1002), CacheRedraw::Nothing));
    redraw.record_command_cache_refresh_due(1050);
    assert!(!redraw.pending);
    assert!(matches!(redraw.record_command_cache_updated(&mut cache, 1149), CacheRedraw::Later));
}

#[test]
fn a_judgement_is_remembered_for_a_while() {
    let mut cache = CommandCache::new();
    let mut redraw = Redraw::new();
    let mut judge = |cache: &mut CommandCache, version: &str, now: u64| {
        cache
            .apple_container_compatibility(&done(version), &Err("no".into()), false, &done(""), now)
            .cli_version
    };
    assert_eq!(judge(&mut cache, "version 1.0.0", 10), "1.0.0");
    assert_eq!(judge(&mut cache, "version 2.0.0", 5009), "1.0.0");
    assert_eq!(judge(&mut cache, "version 2.0.0", 5010), "2.0.0");
    cache.invalidate_ui_command_cache();
    assert_eq!(judge(&mut cache, "version 3.0.0", 5011), "3.0.0");
    redraw.record_command_cache_updated(&mut cache, 5012);
    assert_eq!(judge(&mut cache, "version 4.0.0", 5013), "4.0.0");
}

#[test]
fn the_overview_is_that_of_the_runtime_of_the_page() {
    let mode = ContainerMode::new();
    let judged = apple_container_compatibility(&done("version 1.0.0"), &done("{}"), true, &done(""));
    let replies = RuntimeReplies {
        version: done("1.2.3"),
        compatibility: judged,
        apple_containers: done(""),
        orbstack_status: done("Stopped"),
        orbstack_machines: done("[]"),
        docker_info: done("27.0"),
        docker_containers: None,
        docker_contexts: None,
    };
    assert_eq!(runtime_overview(4, &mode, &replies).provider, "GUI Transport V2");
    assert_eq!(runtime_overview(6, &mode, &replies).detail, "OrbStack is Stopped.");
    assert_eq!(runtime_overview(5, &mode, &replies).detail, "Connected to Docker Engine 27.0.");
    assert_eq!(runtime_overview(0, &mode, &replies).provider, "Context: No active context");
}

#[test]
fn names_and_lists_of_profiles() {
    let sessions = vec![session("One", "img")];
    let copy = unique_duplicate_name(&sessions, "One", 7);
    assert_ne!(copy, "One");
    assert_eq!(semicolon_list(" a ; ;b"), ["a", "b"]);
    assert_eq!(format_count(1, "image"), "1 image");
    assert_eq!(format_count(2, "image"), "2 images");
    assert_eq!(copy_or(&None, "other"), "other");
    assert_eq!(split_at_char_count("h\u{e9}llo", 2), ("h\u{e9}", "llo"));
    assert!(is_local_image_reference("localhost/gui:latest"));
    assert!(!is_local_image_reference("docker.io/library/a"));
    assert_eq!(normalize_profile("  "), None);
    assert!(!default_session_name("docker.io/library/ubuntu:24.04").is_empty());
    assert!(!elapsed_time_label(61_000, 0).is_empty());
    assert_eq!(find_smoke_session(&vec![session("One", "img"), smoke_session()]), Some(1));
    assert!(!preferred_gui_image_reference(&vec![]).is_empty());
    assert!(command_items("/data", "/c.toml").iter().any(|line| line.contains("/c.toml")));
}
