//! The container window: profiles, runtimes, images and volumes.
use cocoa_way::activity::clean_session_log_line;
use cocoa_way::application_model::InstanceStatus;
use cocoa_way::container_mode::checked_instance_status;
use cocoa_way::inventory::{
    format_docker_container_row, parse_apple_container_row, parse_docker_context_line,
    parse_orbstack_machine_rows,
};
use cocoa_way::profiles::{
    default_gui_runtime_args, format_runtime_arguments, normalize_registry_reference,
    runtime_arg_value, session_defaults_for_image, wrapped_log_lines,
};
use cocoa_way::runtimes::{
    extract_version, version_at_least, APPLE_CONTAINER_SECURITY_BASELINE,
    APPLE_CONTAINER_TRANSPORT_V2_MINIMUM,
};
use cocoa_way::storage::{
    image_id_from_label, mount_references_volume, parse_apple_volume_mounts,
    parse_docker_image_line, parse_volume_inspect_metadata, parse_volume_line,
    split_image_reference,
};

#[test]
fn registry_sources_build_canonical_image_references() {
    assert_eq!(
        normalize_registry_reference(0, "ubuntu:24.04"),
        "docker.io/library/ubuntu:24.04"
    );
    assert_eq!(
        normalize_registry_reference(0, "library/alpine:3.20"),
        "docker.io/library/alpine:3.20"
    );
    assert_eq!(
        normalize_registry_reference(1, "owner/desktop:latest"),
        "ghcr.io/owner/desktop:latest"
    );
    assert_eq!(
        normalize_registry_reference(2, "owner/desktop:latest"),
        "quay.io/owner/desktop:latest"
    );
}

#[test]
fn explicit_registry_reference_is_not_prefixed_twice() {
    assert_eq!(
        normalize_registry_reference(0, "registry.example.com/team/gui:v1"),
        "registry.example.com/team/gui:v1"
    );
    assert_eq!(
        normalize_registry_reference(3, "localhost/gui:latest"),
        "localhost/gui:latest"
    );
}

#[test]
fn generic_images_do_not_assume_a_terminal_command() {
    let defaults = session_defaults_for_image("container", "docker.io/library/ubuntu:24.04");
    assert_eq!(defaults.runtime, "container");
    assert_eq!(defaults.profile, "single-app");
    assert!(defaults.command.is_empty());

    let niri = session_defaults_for_image("container", "example/cocoa-way-niri:latest");
    assert_eq!(niri.profile, "niri");
    assert_eq!(niri.command, "niri");
}

#[test]
fn clean_session_log_line_strips_ansi_sequences() {
    assert_eq!(
        clean_session_log_line(
            "\u{1b}[2m2026-06-26\u{1b}[0m \u{1b}[33mWARN\u{1b}[0m [2mniri[0m"
        ),
        "2026-06-26 WARN niri"
    );
}

#[test]
fn clean_session_log_line_marks_niri_locale_warning_non_fatal() {
    let line = "\u{1b}[2m2026-06-26T12:39:42Z\u{1b}[0m \u{1b}[33mWARN\u{1b}[0m \u{1b}[2mniri::dbus\u{1b}[0m: error starting locale1 watcher: I/O error: No such file or directory (os error 2)";
    assert_eq!(
        clean_session_log_line(line),
        "niri: locale1 watcher is unavailable in this container; this is non-fatal when the desktop is running."
    );
}

#[test]
fn apple_container_row_keeps_lifecycle_fields() {
    let row = "cocoa-way-niri-desktop localhost/cocoa-way-niri:latest linux arm64 running 192.168.64.66/24 4 1024 MB 2026-06-25T01:33:46Z";
    let parsed = parse_apple_container_row(row);
    assert_eq!(parsed.name.as_deref(), Some("cocoa-way-niri-desktop"));
    assert!(parsed.running);
    assert!(parsed.label.contains("localhost/cocoa-way-niri:latest"));
}

#[test]
fn apple_container_row_protects_buildkit_helper() {
    let row = "buildkit builder:latest linux arm64 stopped - 2 2048 MB 2026-07-13T05:13:37Z";
    let parsed = parse_apple_container_row(row);
    assert_eq!(parsed.name, None);
    assert!(!parsed.running);
    assert!(parsed.label.contains("BuildKit helper"));
}

#[test]
fn format_docker_container_row_keeps_actions_and_summary() {
    let running = format_docker_container_row("web\trunning\tUp 2 minutes\tnginx:latest");
    assert_eq!(running.name.as_deref(), Some("web"));
    assert!(running.running);
    assert!(running.label.contains("nginx:latest"));

    let stopped =
        format_docker_container_row("worker\texited\tExited (0) 1 hour ago\talpine:latest");
    assert_eq!(stopped.name.as_deref(), Some("worker"));
    assert!(!stopped.running);
}

#[test]
fn wrapped_log_lines_respects_row_limit() {
    let logs = vec!["abcdefghijklmnopqrstuvwxyz".to_string()];
    let rows = wrapped_log_lines(&logs, 16, 2);
    assert_eq!(rows.len(), 2);
    assert_eq!(rows[0], "abcdefghijklmnop");
    assert_eq!(rows[1], "  qrstuvwxyz");
}

#[test]
fn desktop_sessions_receive_larger_apple_container_limits() {
    assert_eq!(
        default_gui_runtime_args("container", Some("niri")),
        ["--memory", "4G", "--shm-size", "1G", "--cpus", "4"]
    );
}

#[test]
fn untracked_runtime_instance_does_not_disable_profile_launch() {
    assert_eq!(checked_instance_status(true, false), None);
    assert_eq!(
        checked_instance_status(true, true),
        Some(InstanceStatus::Running)
    );
}

#[test]
fn single_apps_keep_moderate_apple_container_limits() {
    assert_eq!(
        default_gui_runtime_args("container", Some("single-app")),
        ["--memory", "2G", "--shm-size", "512M", "--cpus", "4"]
    );
    assert!(default_gui_runtime_args("docker", Some("niri")).is_empty());
}

#[test]
fn docker_image_inventory_preserves_reference_and_metadata() {
    let row = parse_docker_image_line("alpine:3.20\tdeadbeef\t8MB").unwrap();
    assert_eq!(row.reference.as_deref(), Some("alpine:3.20"));
    assert!(row.label.contains("deadbeef"));
    assert!(row.label.contains("8MB"));
}

#[test]
fn dangling_docker_image_uses_id_for_actions() {
    let row = parse_docker_image_line("<none>:<none>\tcafebabe\t12MB").unwrap();
    assert_eq!(row.reference.as_deref(), Some("cafebabe"));
}

#[test]
fn image_reference_split_preserves_registry_ports() {
    assert_eq!(
        split_image_reference("localhost:5000/team/desktop:v2"),
        ("localhost:5000/team/desktop", "v2")
    );
    assert_eq!(split_image_reference("ubuntu:24.04"), ("ubuntu", "24.04"));
    assert_eq!(
        split_image_reference("sha256:deadbeef"),
        ("sha256", "deadbeef")
    );
    assert_eq!(
        split_image_reference("untagged-image"),
        ("untagged-image", "<none>")
    );
}

#[test]
fn image_id_is_read_from_inventory_metadata() {
    assert_eq!(
        image_id_from_label("ubuntu:24.04    deadbeef    78MB", "ubuntu:24.04"),
        Some("deadbeef".into())
    );
    assert_eq!(image_id_from_label("ubuntu:24.04", "ubuntu:24.04"), None);
}

#[test]
fn runtime_arguments_support_split_and_equals_values() {
    let arguments = vec![
        "--memory".into(),
        "4G".into(),
        "--cpus=4".into(),
        "--read-only".into(),
    ];
    assert_eq!(runtime_arg_value(&arguments, "--memory"), Some("4G".into()));
    assert_eq!(runtime_arg_value(&arguments, "--cpus"), Some("4".into()));
    assert_eq!(
        format_runtime_arguments(&arguments),
        "--memory 4G\n--cpus=4\n--read-only"
    );
}

#[test]
fn docker_volume_inventory_keeps_name_and_driver() {
    let row = parse_volume_line("project-cache\tlocal").unwrap();
    assert_eq!(row.name.as_deref(), Some("project-cache"));
    assert!(row.label.contains("local"));
}

#[test]
fn volume_mount_matching_accepts_runtime_mount_syntax() {
    assert!(mount_references_volume(
        "type=volume,source=project-data,target=/workspace",
        "project-data"
    ));
    assert!(mount_references_volume(
        "project-data:/workspace",
        "project-data"
    ));
    assert!(!mount_references_volume(
        "type=bind,source=/tmp/project-data,target=/workspace",
        "project-data"
    ));
}

#[test]
fn apple_container_volume_usage_reads_mount_sources() {
    let json = r#"[
        {"id":"desktop","configuration":{"mounts":[{"source":"project-data","type":{"volume":{}}}]}},
        {"id":"other","configuration":{"mounts":[]}}
    ]"#;
    assert_eq!(
        parse_apple_volume_mounts(json, "project-data").unwrap(),
        ["desktop"]
    );
}

#[test]
fn volume_inspect_metadata_supports_docker_and_apple_fields() {
    let docker = br#"[{"Driver":"local","CreatedAt":"2026-07-16T12:00:00Z"}]"#;
    let docker = parse_volume_inspect_metadata(docker, "Managed volume").unwrap();
    assert_eq!(docker.kind, "local");
    assert_eq!(docker.created, "2026-07-16T12:00:00Z");

    let apple =
        br#"[{"type":"ext4","sizeInBytes":1073741824,"creationDate":"2026-07-16T12:00:00Z"}]"#;
    let apple = parse_volume_inspect_metadata(apple, "Managed volume").unwrap();
    assert_eq!(apple.kind, "ext4");
    assert_eq!(apple.size, "1.0 GiB");
}

#[test]
fn docker_context_inventory_marks_current_context() {
    let row = parse_docker_context_line(
        "orbstack\ttrue\tunix:///Users/test/.orbstack/run/docker.sock\tOrbStack",
    )
    .unwrap();
    assert_eq!(row.name.as_deref(), Some("orbstack"));
    assert!(row.current);
    assert!(row.label.starts_with("* orbstack"));
}

#[test]
fn orbstack_machine_inventory_parses_json_and_state() {
    let rows = parse_orbstack_machine_rows(
        r#"[{"name":"arch","image":{"distro":"archlinux","version":"current","arch":"arm64"},"state":"stopped"},{"name":"ubuntu","image":{"distro":"ubuntu","version":"24.04","arch":"arm64"},"state":"running"}]"#,
    )
    .unwrap();
    assert_eq!(rows.len(), 2);
    assert_eq!(rows[0].name.as_deref(), Some("arch"));
    assert!(rows[0].detail.contains("archlinux current"));
    assert!(!rows[0].running);
    assert_eq!(rows[1].name.as_deref(), Some("ubuntu"));
    assert!(rows[1].running);
}

#[test]
fn apple_container_versions_are_extracted_from_cli_and_api_text() {
    assert_eq!(
        extract_version("container CLI version 1.1.0 (build: release)"),
        Some("1.1.0".into())
    );
    assert_eq!(
        extract_version("container-apiserver version 1.0.0 (build: release)"),
        Some("1.0.0".into())
    );
    assert_eq!(
        extract_version("container CLI version 1.3.1 (build: release)"),
        Some("1.3.1".into())
    );
}

#[test]
fn apple_container_version_comparison_handles_minor_updates() {
    assert!(version_at_least(
        "1.1.0",
        APPLE_CONTAINER_TRANSPORT_V2_MINIMUM
    ));
    assert!(version_at_least("1.3.1", APPLE_CONTAINER_SECURITY_BASELINE));
    assert!(version_at_least("2.0.0", APPLE_CONTAINER_SECURITY_BASELINE));
    assert!(!version_at_least(
        "1.3.0",
        APPLE_CONTAINER_SECURITY_BASELINE
    ));
    assert!(!version_at_least("unknown", (1, 0, 0)));
}
