//! Profiles, the relay and the launch of a session.
use cocoa_way::container_sessions::{
    apple_remote_gui_command, build_server_command, container_name, default_container_socket,
    slugify, terminal_command, validate_display_slot, validate_presentation_command,
    waypipe_tuning_args, ContainerRuntime, ContainerSession, LaunchError,
};
use cocoa_way::guest_programs::{guest_publish_socket_relay_perl, guest_relay_perl};
use cocoa_way::presentation::PresentationMode;
use cocoa_way::relay::{
    parse_waypipe_ssh_relay_args, read_relay_frame, write_relay_frame, ByteReader,
    RELAY_FRAME_DATA, RELAY_V2_READY_LINE,
};
use cocoa_way::relay_launch::{
    relay_audio_host_socket, relay_transport_host_socket, UNIX_SOCKET_PATH_BYTES,
    WAYPIPE_CLIENT_SUFFIX_RESERVE,
};
use cocoa_way::session_config::{session_to_toml, toml_escape};
use cocoa_way::session_launch::{
    apple_container_list_has_running, is_apple_container_running_status,
};

/// A program that passes on what is copied in a nested compositor.
const CLIPBOARD_RELAY: &str = "#!/bin/sh\nexec wl-paste --type image/png --watch cat\n";

#[test]
fn slugs_keep_letters_and_single_hyphens() {
    for name in ["--A  b--", "a--b", "\u{e9}t\u{e9} 2", "-", "", "X_Y.Z", "container"] {
        let slug = slugify(name);
        assert!(!slug.is_empty());
        assert!(!slug.starts_with('-') && !slug.ends_with('-') && !slug.contains("--"));
        assert_eq!(slugify(&slug), slug);
        let letters: String = name
            .chars()
            .filter(|c| c.is_ascii_alphanumeric())
            .map(|c| c.to_ascii_lowercase())
            .collect();
        if letters.is_empty() {
            assert_eq!(slug, "container");
        } else {
            assert_eq!(slug.replace('-', ""), letters);
        }
    }
}

#[test]
fn slugify_keeps_container_names_stable() {
    assert_eq!(slugify("Niri Desktop"), "niri-desktop");
    assert_eq!(slugify("  Cocoa Way / GUI  "), "cocoa-way-gui");
    assert_eq!(slugify("!!!"), "container");
}

#[test]
fn toml_escape_handles_special_characters() {
    assert_eq!(toml_escape(r#"a"b\c"#), r#"a\"b\\c"#);
    assert_eq!(toml_escape("a\nb\tc"), r#"a\nb\tc"#);
}

#[test]
fn apple_container_status_requires_running_value() {
    assert!(is_apple_container_running_status(
        "status             running"
    ));
    assert!(!is_apple_container_running_status(
        "status             stopped"
    ));
    assert!(!is_apple_container_running_status(
        "apiserver.status   running"
    ));
}

#[test]
fn apple_container_list_detects_running_session() {
    let output = br#"ID                      IMAGE                            OS     ARCH   STATE    IP                CPUS  MEMORY   STARTED
cocoa-way-niri-desktop  localhost/cocoa-way-niri:latest  linux  arm64  running  192.168.64.66/24  4     1024 MB  2026-06-25T01:33:46Z
old-session             localhost/example:latest         linux  arm64  stopped  -                 4     1024 MB  2026-06-25T01:33:46Z
"#;
    assert!(apple_container_list_has_running(
        output,
        "cocoa-way-niri-desktop"
    ));
    assert!(!apple_container_list_has_running(output, "old-session"));
    assert!(!apple_container_list_has_running(output, "missing"));
}

#[test]
fn already_running_error_is_non_fatal_lifecycle_state() {
    let error = LaunchError::ContainerAlreadyRunning {
        runtime: "Apple Container".into(),
        container_name: "cocoa-way-existing".into(),
        hint: "Stop it first.".into(),
    };
    assert!(error.is_container_already_running());
    assert_eq!(
        error.to_string(),
        "Apple Container session container 'cocoa-way-existing' is already running. Stop it first."
    );
}

#[test]
fn relay_parser_extracts_waypipe_ssh_reverse_socket() {
    let args = vec![
        "-R".into(),
        "/tmp/remote.sock:/tmp/local.sock".into(),
        "apple-container".into(),
        "--".into(),
        "waypipe".into(),
        "--socket".into(),
        "/tmp/remote.sock".into(),
        "server".into(),
        "foot".into(),
    ];
    let relay = parse_waypipe_ssh_relay_args(&args).unwrap();
    assert_eq!(relay.remote_socket, "/tmp/remote.sock");
    assert_eq!(relay.local_socket, "/tmp/local.sock");
    assert_eq!(relay.remote_command, args[4..]);
}

#[test]
fn relay_frame_round_trip_preserves_stream_and_payload() {
    let mut encoded = Vec::new();
    write_relay_frame(&mut encoded, RELAY_FRAME_DATA, 42, b"clipboard").unwrap();

    let mut reader = ByteReader::new(encoded);
    let frame = read_relay_frame(&mut reader).unwrap().unwrap();
    assert_eq!(frame.kind, RELAY_FRAME_DATA);
    assert_eq!(frame.id, 42);
    assert_eq!(frame.payload, b"clipboard");
}

#[test]
fn guest_relay_accepts_more_than_one_forwarded_connection() {
    let relay = guest_relay_perl();
    assert!(relay.contains("Listen => 128"));
    assert!(relay.contains("send_frame(1, $id, '')"));
    assert!(relay.contains("my %peers"));
}

#[test]
fn publish_socket_relay_separates_transport_from_process_stdio() {
    let relay = guest_publish_socket_relay_perl();
    assert!(relay.contains("my $transport_path = shift @ARGV"));
    assert!(relay.contains("Listen => 128"));
    assert!(relay.contains("Listen => 1"));
    assert!(relay.contains(RELAY_V2_READY_LINE));
    assert!(relay.contains("sysread($transport"));
    assert!(!relay.contains("binmode STDIN"));
}

#[test]
fn publish_socket_relay_prepares_audio_before_transport_ready() {
    let relay = guest_publish_socket_relay_perl();
    let audio = relay
        .find("exec \"/usr/local/bin/cocoa-way-audio-relay\"")
        .unwrap();
    let ready = relay.find(RELAY_V2_READY_LINE).unwrap();
    assert!(audio < ready);
    assert!(relay.contains("audio relay did not become ready"));
}

#[test]
fn transport_socket_lives_next_to_the_session_socket() {
    let socket = relay_transport_host_socket("/tmp/cocoa-way/session.sock").unwrap();
    assert!(socket.starts_with("/tmp/cocoa-way/v2-"));
    assert!(socket.ends_with(".sock"));
}

#[test]
fn audio_socket_is_short_and_separate_from_transport() {
    let source = "/tmp/cocoa-way/session.sock";
    let transport = relay_transport_host_socket(source).unwrap();
    let audio = relay_audio_host_socket(source).unwrap();
    assert!(audio.starts_with("/tmp/cocoa-way/audio-"));
    assert!(audio.ends_with(".sock"));
    assert_ne!(audio, transport);
    assert!(audio.as_bytes().len() < UNIX_SOCKET_PATH_BYTES);
}

#[test]
fn default_socket_leaves_room_for_waypipe_client_suffix_on_macos() {
    let runtime_dir = "/var/folders/mk/xtx0gv_n1hj8xqby99zzmfsh0000gn/T/cocoa-way";
    let socket = default_container_socket(
        runtime_dir,
        "A deliberately long Cocoa-Way session name used for regression coverage",
        501,
        4_294_967_295,
    );
    assert!(socket.starts_with("/tmp/cw-"));
    assert!(
        socket.as_bytes().len() + WAYPIPE_CLIENT_SUFFIX_RESERVE <= UNIX_SOCKET_PATH_BYTES,
        "{} is too long for a derived waypipe client socket",
        socket
    );
}

#[test]
fn different_session_names_get_different_short_sockets() {
    let first = default_container_socket("/ignored", "Niri Desktop", 501, 77);
    let second = default_container_socket("/ignored", "Niri Desktop Copy", 501, 77);
    assert_ne!(first, second);
}

#[test]
fn relay_parser_rejects_missing_reverse_socket() {
    let args = vec!["apple-container".into(), "--".into(), "true".into()];
    assert!(parse_waypipe_ssh_relay_args(&args).is_err());
}

#[test]
fn apple_gui_command_uses_audio_environment_and_optional_clipboard_relay() {
    let command = apple_remote_gui_command("niri --session", true, CLIPBOARD_RELAY);
    assert!(command.contains("COCOA_WAY_AUDIO_SOCKET"));
    assert!(command.contains("cocoa-way-audio.ready"));
    assert!(command.contains("PULSE_SINK=cocoa_way"));
    assert!(command.contains("MOZ_ENABLE_WAYLAND"));
    assert!(command.contains("command -v wl-paste"));
    assert!(command.contains("command -v timeout"));
    assert!(command.contains("exec \"$helper\" sh -lc 'niri --session'"));
    assert!(command.contains("exec niri --session; fi"));
    assert!(command.contains("image/png"));
}

#[test]
fn direct_apps_do_not_mistake_waypipe_proxy_sockets_for_nested_compositors() {
    let command = apple_remote_gui_command("firefox", false, CLIPBOARD_RELAY);
    assert!(command.contains("exec firefox"));
    assert!(!command.contains("cocoa-way-clipboard-relay"));
}

#[test]
fn server_command_quotes_socket_and_gui_command() {
    let command = build_server_command(
        "/tmp/cocoa way/gui.sock",
        "sh -lc 'echo hi'",
        &vec!["--compress".into(), "none".into()],
    );
    assert!(
        command
            .contains("waypipe '--compress' 'none' --socket '/tmp/cocoa way/gui.sock' server")
    );
    assert!(command.contains("XDG_RUNTIME_DIR"));
    assert!(command.contains("sleep 0.35; exec sh -lc '\\''echo hi'\\'''"));
}

#[test]
fn apple_container_defaults_to_uncompressed_local_waypipe() {
    let session = ContainerSession {
        name: "Niri Desktop".into(),
        image: "localhost/cocoa-way-niri:latest".into(),
        runtime: "container".into(),
        display: Some("auto".into()),
        presentation: None,
        profile: Some("niri".into()),
        app: None,
        command: Some("niri".into()),
        socket: None,
        container_socket: None,
        waypipe_path: None,
        waypipe_compress: None,
        waypipe_threads: None,
        audio: false,
        runtime_args: Vec::new(),
        mounts: Vec::new(),
        env: Vec::new(),
    };

    assert_eq!(
        waypipe_tuning_args(&session, ContainerRuntime::Apple),
        vec!["--compress".to_string(), "none".to_string()]
    );
    assert!(waypipe_tuning_args(&session, ContainerRuntime::Docker).is_empty());
}

#[test]
fn named_display_is_accepted_for_dedicated_worker() {
    let auto_session = ContainerSession {
        name: "Niri Desktop".into(),
        image: "localhost/cocoa-way-niri:latest".into(),
        runtime: "container".into(),
        display: Some("auto".into()),
        presentation: None,
        profile: Some("niri".into()),
        app: None,
        command: None,
        socket: None,
        container_socket: None,
        waypipe_path: None,
        waypipe_compress: None,
        waypipe_threads: None,
        audio: false,
        runtime_args: Vec::new(),
        mounts: Vec::new(),
        env: Vec::new(),
    };
    assert!(validate_display_slot(&auto_session).is_ok());

    let external_session = ContainerSession {
        name: "Niri Desktop".into(),
        image: "localhost/cocoa-way-niri:latest".into(),
        runtime: "container".into(),
        display: Some("external".into()),
        presentation: None,
        profile: Some("niri".into()),
        app: None,
        command: None,
        socket: None,
        container_socket: None,
        waypipe_path: None,
        waypipe_compress: None,
        waypipe_threads: None,
        audio: false,
        runtime_args: Vec::new(),
        mounts: Vec::new(),
        env: Vec::new(),
    };
    assert!(validate_display_slot(&external_session).is_ok());
}

#[test]
fn terminal_command_targets_named_container() {
    let session = ContainerSession {
        name: "Niri Desktop".into(),
        image: "localhost/cocoa-way-niri:latest".into(),
        runtime: "container".into(),
        display: Some("default".into()),
        presentation: None,
        profile: Some("niri".into()),
        app: None,
        command: None,
        socket: None,
        container_socket: None,
        waypipe_path: None,
        waypipe_compress: None,
        waypipe_threads: None,
        audio: false,
        runtime_args: Vec::new(),
        mounts: Vec::new(),
        env: Vec::new(),
    };
    assert_eq!(container_name(&session), "cocoa-way-niri-desktop");
    assert!(terminal_command(&session).contains("container exec -it 'cocoa-way-niri-desktop'"));
}

#[test]
fn docker_terminal_command_uses_docker_exec() {
    let session = ContainerSession {
        name: "Smoke App".into(),
        image: "localhost/cocoa-way-smoke:latest".into(),
        runtime: "docker".into(),
        display: Some("default".into()),
        presentation: None,
        profile: Some("single-app".into()),
        app: None,
        command: Some("foot".into()),
        socket: None,
        container_socket: None,
        waypipe_path: None,
        waypipe_compress: None,
        waypipe_threads: None,
        audio: false,
        runtime_args: Vec::new(),
        mounts: Vec::new(),
        env: Vec::new(),
    };
    assert!(terminal_command(&session).contains("docker exec -it 'cocoa-way-smoke-app'"));
}

#[test]
fn missing_presentation_keeps_the_desktop_behavior() {
    let session = ContainerSession {
        name: "Legacy Desktop".into(),
        image: "example:latest".into(),
        runtime: "container".into(),
        display: Some("auto".into()),
        presentation: None,
        profile: None,
        app: None,
        command: Some("true".into()),
        socket: None,
        container_socket: None,
        waypipe_path: None,
        waypipe_compress: None,
        waypipe_threads: None,
        audio: false,
        runtime_args: Vec::new(),
        mounts: Vec::new(),
        env: Vec::new(),
    };

    assert_eq!(
        session.presentation_mode(),
        PresentationMode::Desktop
    );
}

#[test]
fn session_toml_preserves_rootless_presentation() {
    let session = ContainerSession {
        name: "Rootless App".into(),
        image: "example:latest".into(),
        runtime: "container".into(),
        display: Some("auto".into()),
        presentation: Some("rootless".into()),
        profile: Some("single-app".into()),
        app: None,
        command: Some("foot".into()),
        socket: None,
        container_socket: None,
        waypipe_path: None,
        waypipe_compress: None,
        waypipe_threads: None,
        audio: true,
        runtime_args: Vec::new(),
        mounts: Vec::new(),
        env: Vec::new(),
    };

    let serialized = session_to_toml(&session);
    assert!(serialized.contains("presentation = \"rootless\""));
    assert!(serialized.contains("audio = true"));
    let reparsed: toml::Table = toml::from_str(&serialized).unwrap();
    let saved = &reparsed["session"][0];
    assert_eq!(saved["presentation"].as_str(), Some("rootless"));
    assert_eq!(saved["audio"].as_bool(), Some(true));
}

#[test]
fn rootless_rejects_xterm_without_xwayland() {
    let session = ContainerSession {
        name: "Rootless Xterm".into(),
        image: "example:latest".into(),
        runtime: "container".into(),
        display: Some("auto".into()),
        presentation: Some("rootless".into()),
        profile: Some("single-app".into()),
        app: None,
        command: Some("/usr/bin/xterm".into()),
        socket: None,
        container_socket: None,
        waypipe_path: None,
        waypipe_compress: None,
        waypipe_threads: None,
        audio: false,
        runtime_args: Vec::new(),
        mounts: Vec::new(),
        env: Vec::new(),
    };

    assert!(matches!(
        validate_presentation_command(&session),
        Err(LaunchError::UnsupportedDisplay { .. })
    ));
}

#[test]
fn rootless_rejects_nested_desktop_compositors() {
    let session = ContainerSession {
        name: "Rootless Niri".into(),
        image: "example:latest".into(),
        runtime: "container".into(),
        display: Some("auto".into()),
        presentation: Some("rootless".into()),
        profile: Some("niri".into()),
        app: None,
        command: Some("niri".into()),
        socket: None,
        container_socket: None,
        waypipe_path: None,
        waypipe_compress: None,
        waypipe_threads: None,
        audio: false,
        runtime_args: Vec::new(),
        mounts: Vec::new(),
        env: Vec::new(),
    };

    assert!(matches!(
        validate_presentation_command(&session),
        Err(LaunchError::UnsupportedDisplay { .. })
    ));
}
