//! How a session is checked and launched.
use cocoa_way::application_model::LaunchStep;
use cocoa_way::container_sessions::{
    default_container_socket, default_container_socket_path, has_env_key,
    is_apple_container_session, normalize_container_runtime, runtime_binary_name, runtime_label,
    session_command, session_command_binary, session_of_entry, shell_args,
    uses_nested_wayland_compositor, ContainerRuntime, ContainerSession, LaunchError, SessionEntry,
};
use cocoa_way::session_launch::{
    check_session, cleanup_arguments, cleanup_named_session, cleanup_warning, launch_checked_session,
    launch_progress, prepare_host_socket, probe_arguments, required_probes,
    runtime_container_is_running, runtime_output_is_not_found, runtime_output_message,
    running_query, CheckFacts, CheckQuestion, CheckStep, CleanupPlan, CleanupReply, CommandOutput,
    LaunchFacts, LaunchPlace, LaunchQuestion, LaunchState,
};

fn session(runtime: &str) -> ContainerSession {
    session_of_entry(SessionEntry {
        name: "Demo App".into(),
        image: "example:latest".into(),
        runtime: Some(runtime.into()),
        display: None,
        presentation: None,
        profile: None,
        app: None,
        command: Some("foot -e top".into()),
        socket: None,
        container_socket: None,
        waypipe_path: None,
        waypipe_compress: None,
        waypipe_threads: None,
        audio: Some(false),
        runtime_args: None,
        mounts: None,
        env: None,
    })
}

fn nothing_known() -> CheckFacts {
    CheckFacts {
        waypipe: None,
        runtime_binary: None,
        system_status: None,
        image: None,
        gui_tools: None,
        running: None,
    }
}

fn output(success: bool, stdout: &str, stderr: &str) -> CommandOutput {
    CommandOutput {
        success,
        stdout: stdout.as_bytes().to_vec(),
        stderr: stderr.as_bytes().to_vec(),
    }
}

/// Answers each question of a check as told, and counts them.
fn checked(session: &ContainerSession, answer: impl Fn(CheckQuestion, &mut CheckFacts)) -> (CheckStep, usize) {
    let mut facts = nothing_known();
    for count in 0..10 {
        match check_session(session, &facts) {
            CheckStep::Ask(question) => answer(question, &mut facts),
            step => return (step, count),
        }
    }
    panic!("a check does not ask so much");
}

fn all_is_well(question: CheckQuestion, facts: &mut CheckFacts) {
    match question {
        CheckQuestion::Waypipe => facts.waypipe = Some(Some("/opt/waypipe".into())),
        CheckQuestion::RuntimeBinary => facts.runtime_binary = Some(Some("/bin/container".into())),
        CheckQuestion::SystemStatus => {
            facts.system_status = Some(Ok(output(true, "status running\n", "")))
        }
        CheckQuestion::Image => facts.image = Some(Ok(true)),
        CheckQuestion::GuiTools => facts.gui_tools = Some(Ok(true)),
        CheckQuestion::Running => facts.running = Some(false),
    }
}

#[test]
fn a_sound_session_passes_its_check() {
    let (step, _) = checked(&session("container"), all_is_well);
    let CheckStep::Done(report) = step else {
        panic!("the check failed");
    };
    assert_eq!(report.container_name, "cocoa-way-demo-app");
    assert_eq!(report.command, "foot -e top");
    assert_eq!(report.waypipe, "/opt/waypipe");
    assert!(!report.running);
}

#[test]
fn a_profile_of_orbstack_is_never_found_running() {
    for runtime in ["orb", "orbstack"] {
        let (step, questions) = checked(&session(runtime), |question, facts| {
            assert!(!matches!(question, CheckQuestion::Running));
            all_is_well(question, facts);
        });
        let CheckStep::Done(report) = step else {
            panic!("the check failed");
        };
        assert_eq!(questions, 2);
        assert!(!report.running);
        assert_eq!(report.runtime, "OrbStack");
        let mut facts = nothing_known();
        all_is_well(CheckQuestion::Waypipe, &mut facts);
        all_is_well(CheckQuestion::RuntimeBinary, &mut facts);
        facts.running = Some(true);
        assert!(matches!(
            check_session(&session(runtime), &facts),
            CheckStep::Done(report) if !report.running
        ));
    }
}

fn failure(session: &ContainerSession, answer: impl Fn(CheckQuestion, &mut CheckFacts)) -> LaunchError {
    match checked(session, answer).0 {
        CheckStep::Failed(error) => error,
        _ => panic!("the check passed"),
    }
}

#[test]
fn a_check_names_what_is_missing() {
    let apple = session("container");
    let error = failure(&apple, |question, facts| match question {
        CheckQuestion::Waypipe => facts.waypipe = Some(None),
        _ => all_is_well(question, facts),
    });
    assert!(matches!(error, LaunchError::MissingCommand { command, .. } if command == "waypipe"));
    let error = failure(&apple, |question, facts| match question {
        CheckQuestion::RuntimeBinary => facts.runtime_binary = Some(None),
        _ => all_is_well(question, facts),
    });
    assert!(matches!(error, LaunchError::MissingCommand { command, .. } if command == "container"));
    let error = failure(&apple, |question, facts| match question {
        CheckQuestion::SystemStatus => {
            facts.system_status = Some(Ok(output(true, "status stopped\n", "")))
        }
        _ => all_is_well(question, facts),
    });
    assert!(matches!(error, LaunchError::RuntimeNotReady { .. }));
    let error = failure(&apple, |question, facts| match question {
        CheckQuestion::Image => facts.image = Some(Ok(false)),
        _ => all_is_well(question, facts),
    });
    assert!(matches!(error, LaunchError::ImageUnavailable { image, .. } if image == "example:latest"));
    let error = failure(&apple, |question, facts| match question {
        CheckQuestion::GuiTools => facts.gui_tools = Some(Ok(false)),
        _ => all_is_well(question, facts),
    });
    assert!(matches!(error, LaunchError::ImageNotGuiReady { .. }));
}

#[test]
fn a_check_refuses_what_cannot_be_shown() {
    let mut rootless = session("container");
    rootless.presentation = Some("rootless".into());
    rootless.command = Some("niri".into());
    let error = failure(&rootless, all_is_well);
    assert!(error.is_unsupported_display());
    assert!(!error.is_container_already_running());
    assert!(!error.to_string().is_empty());
}

fn place() -> LaunchPlace {
    LaunchPlace {
        runtime_dir: "/tmp/run".into(),
        display: "wayland-1".into(),
        uid: 501,
        pid: 42,
        helper: "/Applications/helper".into(),
        clipboard_relay: "#!/bin/sh\n".into(),
    }
}

fn launched(session: &ContainerSession, answer: impl Fn(LaunchQuestion, &mut LaunchFacts)) -> (LaunchState, Vec<LaunchStep>) {
    let mut facts = LaunchFacts {
        runtime_binary: None,
        running: None,
        running_still: None,
        socket_directory: None,
        waypipe: None,
        socket: None,
        container: None,
    };
    let mut steps = Vec::new();
    for _ in 0..10 {
        let state = launch_checked_session(session, &place(), &facts);
        if let Some((step, _)) = launch_progress(session, &state) {
            steps.push(step);
        }
        match state {
            LaunchState::Ask(question) => answer(question, &mut facts),
            state => return (state, steps),
        }
    }
    panic!("a launch does not ask so much");
}

fn all_starts(question: LaunchQuestion, facts: &mut LaunchFacts) {
    match question {
        LaunchQuestion::RuntimeBinary => facts.runtime_binary = Some(Some("/bin/container".into())),
        LaunchQuestion::Running => facts.running = Some(false),
        LaunchQuestion::RunningStill { .. } => facts.running_still = Some(false),
        LaunchQuestion::SocketDirectory { .. } => facts.socket_directory = Some(Ok(())),
        LaunchQuestion::Waypipe { arguments, variables, .. } => {
            assert!(!arguments.is_empty());
            assert!(variables.iter().all(|(name, _)| !name.is_empty()));
            facts.waypipe = Some(Ok(()))
        }
        LaunchQuestion::Socket => facts.socket = Some(true),
        LaunchQuestion::Container { arguments } => {
            assert_eq!(arguments[0], "run");
            facts.container = Some(Ok(()))
        }
    }
}

#[test]
fn a_launch_goes_through_for_every_runtime() {
    for runtime in ["container", "docker", "orbstack"] {
        let session = session(runtime);
        let (state, steps) = launched(&session, all_starts);
        let LaunchState::Done(report) = state else {
            panic!("{runtime} was not launched");
        };
        assert_eq!(report.container_name, "cocoa-way-demo-app");
        assert_eq!(report.command, "foot -e top");
        assert_eq!(report.host_socket, default_container_socket("/tmp/run", "Demo App", 501, 42));
        assert_eq!(report.audio_host_socket, None);
        assert!(!steps.is_empty());
    }
}

#[test]
fn a_launch_that_fails_says_where() {
    let docker = session("docker");
    let (state, _) = launched(&docker, |question, facts| match question {
        LaunchQuestion::Waypipe { .. } => facts.waypipe = Some(Err("no such file".into())),
        _ => all_starts(question, facts),
    });
    assert!(matches!(
        state,
        LaunchState::Failed(LaunchError::StartWaypipe { source }) if source == "no such file"
    ));
    let (state, _) = launched(&docker, |question, facts| match question {
        LaunchQuestion::Socket => facts.socket = Some(false),
        _ => all_starts(question, facts),
    });
    assert!(matches!(state, LaunchState::Failed(LaunchError::SocketTimeout { .. })));
    let (state, _) = launched(&docker, |question, facts| match question {
        LaunchQuestion::Container { .. } => facts.container = Some(Err("denied".into())),
        _ => all_starts(question, facts),
    });
    assert!(matches!(
        state,
        LaunchState::Failed(LaunchError::StartContainer { session, source })
            if session == "Demo App" && source == "denied"
    ));
    let (state, _) = launched(&docker, |question, facts| match question {
        LaunchQuestion::SocketDirectory { .. } => facts.socket_directory = Some(Err("full".into())),
        _ => all_starts(question, facts),
    });
    assert!(matches!(
        state,
        LaunchState::Failed(LaunchError::CreateSocketDir { source, .. }) if source == "full"
    ));
}

#[test]
fn a_container_that_still_runs_is_not_launched_twice() {
    let (state, _) = launched(&session("docker"), |question, facts| match question {
        LaunchQuestion::Running => facts.running = Some(true),
        LaunchQuestion::RunningStill { .. } => facts.running_still = Some(true),
        _ => all_starts(question, facts),
    });
    let LaunchState::Failed(error) = state else {
        panic!("launched twice");
    };
    assert!(error.is_container_already_running());
}

#[test]
fn a_socket_without_a_directory_is_refused() {
    assert_eq!(prepare_host_socket("/tmp/a/b.sock").unwrap(), "/tmp/a");
    assert!(matches!(
        prepare_host_socket("/"),
        Err(LaunchError::InvalidSocketPath { host_socket }) if host_socket == "/"
    ));
}

#[test]
fn every_launch_error_reads_as_a_sentence() {
    let text = || "t".to_string();
    let errors = [
        LaunchError::MissingCommand { command: text(), hint: text() },
        LaunchError::InvalidSocketPath { host_socket: text() },
        LaunchError::CreateSocketDir { dir: text(), source: text() },
        LaunchError::StartContainer { session: text(), source: text() },
        LaunchError::RuntimeNotReady { runtime: "Apple Container GUI transport".into(), hint: text() },
        LaunchError::ImageUnavailable { runtime: text(), image: text(), hint: text() },
        LaunchError::ImageNotGuiReady { runtime: text(), image: text(), hint: text() },
        LaunchError::ContainerAlreadyRunning {
            runtime: text(),
            container_name: text(),
            hint: text(),
        },
        LaunchError::UnsupportedDisplay { display: text(), hint: text() },
        LaunchError::SocketTimeout { host_socket: text() },
        LaunchError::StartWaypipe { source: text() },
    ];
    for (place, error) in errors.iter().enumerate() {
        assert!(error.to_string().len() > 1);
        assert_eq!(error.is_apple_container_transport_blocked(), place == 4);
        assert_eq!(error.is_container_already_running(), place == 7);
        assert_eq!(error.is_unsupported_display(), place == 8);
    }
}

#[test]
fn runtimes_are_told_apart() {
    for (name, runtime, binary) in [
        ("container", ContainerRuntime::Apple, "container"),
        ("docker", ContainerRuntime::Docker, "docker"),
        ("orbstack", ContainerRuntime::OrbStack, "orb"),
        ("anything else", ContainerRuntime::Apple, "container"),
    ] {
        assert_eq!(normalize_container_runtime(name), runtime);
        assert_eq!(runtime_binary_name(name), binary);
        assert!(!runtime_label(name).is_empty());
    }
    assert!(is_apple_container_session(&session("container")));
    assert!(!is_apple_container_session(&session("docker")));
}

#[test]
fn commands_are_read_as_a_shell_reads_them() {
    let mut demo = session("container");
    assert_eq!(session_command(&demo), "foot -e top");
    assert_eq!(session_command_binary(&demo).as_deref(), Some("foot"));
    demo.command = Some("   ".into());
    demo.app = None;
    assert!(!session_command(&demo).is_empty() || session_command_binary(&demo).is_none());
    assert_eq!(shell_args(&vec!["a b".into(), "c".into()]), " 'a b' 'c'");
    assert_eq!(shell_args(&vec![]), "");
    assert!(has_env_key(&vec!["LANG=C".into()], "LANG"));
    assert!(!has_env_key(&vec!["LANGUAGE=C".into()], "LANG"));
    demo.command = Some("sway".into());
    assert!(uses_nested_wayland_compositor(&demo));
    assert_ne!(
        default_container_socket_path("/tmp/h.sock", ContainerRuntime::Apple),
        ""
    );
}

#[test]
fn a_running_container_is_recognised_by_each_runtime() {
    assert!(running_query(ContainerRuntime::Apple, "x").is_some());
    assert!(runtime_container_is_running(ContainerRuntime::Docker, &output(true, "true\n", ""), "x"));
    assert!(!runtime_container_is_running(ContainerRuntime::Docker, &output(true, "false\n", ""), "x"));
    assert!(!runtime_container_is_running(ContainerRuntime::Docker, &output(false, "true\n", ""), "x"));
}

#[test]
fn leftovers_are_removed_by_name() {
    let arguments = cleanup_arguments(ContainerRuntime::Docker, "cocoa-way-x").unwrap();
    assert_eq!(arguments.last().unwrap(), "cocoa-way-x");
    let CleanupPlan::Run { binary, arguments } =
        cleanup_named_session(&session("docker"), Some("/bin/docker")).unwrap()
    else {
        panic!("nothing to remove");
    };
    assert_eq!(binary, "/bin/docker");
    assert_eq!(arguments.last().unwrap(), "cocoa-way-demo-app");
    assert!(cleanup_named_session(&session("docker"), None).is_err());
    assert_eq!(cleanup_warning("x", &CleanupReply::Output(output(true, "", ""))), None);
    assert!(cleanup_warning("x", &CleanupReply::TimedOut).is_some());
    assert!(cleanup_warning("x", &CleanupReply::Failed("broken".into())).unwrap().contains("broken"));
}

#[test]
fn messages_of_a_runtime_are_cleaned() {
    assert_eq!(runtime_output_message(b"").as_deref(), None);
    assert!(runtime_output_message(b"Error: boom\n").unwrap().contains("boom"));
    assert!(runtime_output_message(b"bad \xff\n").unwrap().contains('\u{fffd}'));
    assert!(runtime_output_is_not_found(b"Error: NOT FOUND"));
    assert!(!runtime_output_is_not_found(b"all fine"));
}

#[test]
fn the_tools_of_an_image_are_probed() {
    let demo = session("container");
    let probes = required_probes(&demo, ContainerRuntime::Apple);
    assert!(!probes.is_empty());
    let arguments = probe_arguments(&demo, &probes);
    assert!(arguments.contains(&"example:latest".to_string()));
}
