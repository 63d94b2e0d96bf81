//! The relay between a container and a socket of the host.
use cocoa_way::relay::{
    parse_waypipe_ssh_relay_args, read_relay_frame, read_relay_header, relay_env_list, stream_step,
    write_relay_frame, ByteReader, RelayAction, RelayStreams, StreamRead, StreamStep,
    WaypipeRelayArgs, RELAY_FRAME_CLOSE, RELAY_FRAME_DATA, RELAY_FRAME_MAX_PAYLOAD,
    RELAY_FRAME_OPEN, RELAY_V2_READY_LINE,
};
use cocoa_way::relay_launch::{
    connect_failure, control_step, guest_audio_socket, guest_transport_socket,
    help_offers_publish_socket, publish_relay_arguments, publish_socket_offered,
    published_audio_socket, published_connect_failure, relay_aux_host_socket, relay_environment,
    relay_transport, stable_name_hash, stdio_relay_arguments, ControlEvent, ControlStep,
    ProxyBridge, PublishRelayError, RelayContainer, RelayTransport,
};
use cocoa_way::session_launch::CommandOutput;
use cocoa_way::relay_run::{
    after_publish, connect_wait, listener_timeout, listener_wait, pipes_problem, publish_step,
    relay_container_name, relay_exit_code, relay_image, should_run_container_relay, stdio_outcome,
    AfterPublish, ExitReport, Notice, PublishEvent, PublishStep,
};

fn texts(values: &[&str]) -> Vec<String> {
    values.iter().map(|value| value.to_string()).collect()
}

#[test]
fn a_frame_is_its_kind_its_number_its_length_and_its_bytes() {
    let mut bytes = Vec::new();
    write_relay_frame(&mut bytes, RELAY_FRAME_DATA, 0x0102_0304, b"hi").unwrap();
    assert_eq!(bytes, [2, 1, 2, 3, 4, 0, 0, 0, 2, b'h', b'i']);
}

#[test]
fn frames_are_read_one_behind_the_other() {
    let mut bytes = Vec::new();
    write_relay_frame(&mut bytes, RELAY_FRAME_OPEN, 1, &[]).unwrap();
    write_relay_frame(&mut bytes, RELAY_FRAME_CLOSE, 2, b"rest").unwrap();
    let mut reader = ByteReader::new(bytes);
    let first = read_relay_frame(&mut reader).unwrap().unwrap();
    assert_eq!((first.kind, first.id, first.payload.len()), (1, 1, 0));
    let second = read_relay_frame(&mut reader).unwrap().unwrap();
    assert_eq!((second.kind, second.id), (3, 2));
    assert_eq!(second.payload, b"rest");
    assert!(read_relay_frame(&mut reader).unwrap().is_none());
}

#[test]
fn a_frame_that_is_cut_or_too_large_is_refused() {
    let mut bytes = Vec::new();
    write_relay_frame(&mut bytes, RELAY_FRAME_DATA, 1, b"payload").unwrap();
    bytes.pop();
    let error = read_relay_frame(&mut ByteReader::new(bytes)).err().unwrap();
    assert!(error.starts_with("failed to read container relay payload: "));

    let mut header = vec![RELAY_FRAME_DATA, 0, 0, 0, 1];
    header.extend((RELAY_FRAME_MAX_PAYLOAD as u32 + 1).to_be_bytes());
    let error = read_relay_header(&header).err().unwrap();
    assert_eq!(error, "container relay frame is too large: 16777217 bytes");
}

#[test]
fn a_frame_with_half_a_header_ends_the_relay() {
    assert!(read_relay_frame(&mut ByteReader::new(vec![2, 0, 0])).unwrap().is_none());
}

#[test]
fn streams_are_opened_written_and_closed() {
    let mut streams = RelayStreams::new();
    assert_eq!(streams.on_frame(RELAY_FRAME_OPEN, 7), Ok(RelayAction::Connect(7)));
    assert_eq!(streams.on_frame(RELAY_FRAME_DATA, 7), Ok(RelayAction::Skip));
    streams.on_connected(7);
    assert_eq!(streams.on_frame(RELAY_FRAME_DATA, 7), Ok(RelayAction::Forward(7)));
    assert_eq!(streams.on_frame(RELAY_FRAME_CLOSE, 7), Ok(RelayAction::Shutdown(7)));
    assert_eq!(streams.on_frame(RELAY_FRAME_CLOSE, 7), Ok(RelayAction::Skip));
    assert_eq!(
        streams.on_frame(9, 7),
        Err("unknown container relay frame type 9".to_string())
    );
}

#[test]
fn a_stream_that_takes_no_bytes_is_forgotten() {
    let mut streams = RelayStreams::new();
    streams.on_connected(1);
    streams.on_connected(2);
    streams.on_connected(1);
    assert_eq!(streams.ids, [1, 2]);
    streams.on_write_failed(1);
    assert_eq!(streams.ids, [2]);
    streams.on_end();
    assert!(streams.ids.is_empty());
}

#[test]
fn the_reader_of_a_stream_closes_at_the_end() {
    assert_eq!(stream_step(StreamRead::Bytes(5)), StreamStep::Send);
    assert_eq!(stream_step(StreamRead::Bytes(0)), StreamStep::Close);
    assert_eq!(stream_step(StreamRead::Interrupted), StreamStep::Retry);
    assert_eq!(stream_step(StreamRead::Failed), StreamStep::Close);
}

#[test]
fn environment_lists_hold_one_value_per_line() {
    assert_eq!(relay_env_list(Some("A=1\nB=2\n\n")), ["A=1", "B=2"]);
    assert!(relay_env_list(None).is_empty());
}

#[test]
fn names_are_hashed_as_fnv_1a() {
    assert_eq!(stable_name_hash(""), 0xcbf2_9ce4_8422_2325);
    assert_eq!(stable_name_hash("a"), 0xaf63_dc4c_8601_ec8c);
}

#[test]
fn auxiliary_sockets_stand_beside_the_session_socket() {
    let socket = relay_aux_host_socket("/tmp/cw/s.sock", "v2").unwrap();
    assert_eq!(
        socket,
        format!("/tmp/cw/v2-{:016x}.sock", stable_name_hash("/tmp/cw/s.sock"))
    );
    assert_ne!(socket, relay_aux_host_socket("/tmp/cw/s.sock", "audio").unwrap());
    assert_eq!(
        relay_aux_host_socket("/", "v2").unwrap_err(),
        "session socket `/` has no parent directory"
    );
    assert_eq!(
        relay_aux_host_socket("/tmp/cw/s.sock", "/run/v2").unwrap(),
        format!("/run/v2-{:016x}.sock", stable_name_hash("/tmp/cw/s.sock"))
    );
    let long = format!("/tmp/{}/s.sock", "x".repeat(100));
    assert!(relay_aux_host_socket(&long, "v2")
        .unwrap_err()
        .starts_with("auxiliary socket path is too long: `"));
}

#[test]
fn the_transport_follows_the_preference() {
    assert_eq!(relay_transport(None, true), RelayTransport::Published);
    assert_eq!(relay_transport(None, false), RelayTransport::Fallback);
    assert_eq!(relay_transport(Some("STDIO"), true), RelayTransport::Stdio);
    assert_eq!(relay_transport(Some("v2"), true), RelayTransport::Published);
    assert!(help_offers_publish_socket("  --publish-socket <spec>"));
    assert!(!help_offers_publish_socket("  --publish <spec>"));
}

#[test]
fn the_audio_socket_may_be_handed_over() {
    assert_eq!(published_audio_socket(false, Some("/a"), "/tmp/s"), Ok(None));
    assert_eq!(
        published_audio_socket(true, Some("/a"), "/tmp/s"),
        Ok(Some("/a".to_string()))
    );
    let own = published_audio_socket(true, Some("  "), "/tmp/s").unwrap().unwrap();
    assert!(own.starts_with("/tmp/audio-"));
}

fn container() -> RelayContainer {
    RelayContainer {
        image: "img:1".into(),
        name: "cocoa-way-x".into(),
        environment: texts(&["A=1", "XDG_RUNTIME_DIR=/elsewhere"]),
        mounts: texts(&["type=bind"]),
        runtime_args: texts(&["--cpus", "2"]),
    }
}

fn arguments() -> WaypipeRelayArgs {
    WaypipeRelayArgs {
        remote_socket: "/tmp/r.sock".into(),
        local_socket: "/tmp/l.sock".into(),
        remote_command: texts(&["waypipe", "server"]),
    }
}

#[test]
fn the_runtime_directory_is_set_by_the_relay_alone() {
    let line = stdio_relay_arguments(&container(), &arguments());
    assert_eq!(
        line[..7],
        texts(&[
            "run",
            "--rm",
            "-i",
            "--name",
            "cocoa-way-x",
            "--env",
            "XDG_RUNTIME_DIR=/tmp/cocoa-way-runtime",
        ])
    );
    assert_eq!(
        line[7..13],
        texts(&["--env", "A=1", "--mount", "type=bind", "--cpus", "2"])
    );
    assert_eq!(line[13..16], texts(&["img:1", "perl", "-e"]));
    assert_eq!(line[17..], texts(&["/tmp/r.sock", "waypipe", "server"]));
}

#[test]
fn a_published_relay_names_both_ends_of_its_sockets() {
    let line = publish_relay_arguments(
        &container(),
        &arguments(),
        "/h/v2.sock",
        &Some("/h/audio.sock".to_string()),
        42,
    );
    assert_eq!(guest_transport_socket(42), "/tmp/cocoa-way/transport-v2-42.sock");
    assert_eq!(guest_audio_socket(42), "/tmp/cocoa-way/audio-42.sock");
    assert!(line.contains(&"/h/v2.sock:/tmp/cocoa-way/transport-v2-42.sock".to_string()));
    assert!(line.contains(&"/h/audio.sock:/tmp/cocoa-way/audio-42.sock".to_string()));
    assert!(line.contains(&"COCOA_WAY_AUDIO_SOCKET=/tmp/cocoa-way/audio-42.sock".to_string()));
    let silent = publish_relay_arguments(&container(), &arguments(), "/h/v2.sock", &None, 42);
    assert_eq!(silent.len() + 4, line.len());
}

#[test]
fn the_ready_line_is_told_from_output() {
    let (ready, step) = control_step(false, ControlEvent::Line("hello".into()));
    assert!(!ready);
    assert!(matches!(step, ControlStep::Print(text) if text == "hello"));
    let (ready, step) = control_step(false, ControlEvent::Line(RELAY_V2_READY_LINE.into()));
    assert!(ready);
    assert!(matches!(step, ControlStep::Ready));
    assert!(matches!(control_step(true, ControlEvent::End).1, ControlStep::Stop));
    assert!(matches!(control_step(false, ControlEvent::End).1, ControlStep::Fail(_)));
    assert!(matches!(
        control_step(false, ControlEvent::ReadFailed("broken".into())).1,
        ControlStep::Fail(text) if text == "failed to read container transport readiness: broken"
    ));
}

#[test]
fn an_unreachable_socket_is_named() {
    assert_eq!(
        connect_failure("/tmp/l", None),
        "failed to connect local waypipe socket `/tmp/l`: timed out"
    );
    assert_eq!(
        published_connect_failure("/tmp/p", Some("refused")),
        "timed out connecting to published transport socket `/tmp/p`: refused"
    );
}

#[test]
fn a_relay_is_asked_for_by_its_environment() {
    assert!(should_run_container_relay(true, false, &texts(&[])));
    assert!(should_run_container_relay(false, true, &texts(&["-R", "a:b"])));
    assert!(!should_run_container_relay(false, true, &texts(&["--help"])));
    assert!(!should_run_container_relay(false, false, &texts(&["-R"])));
    assert_eq!(relay_image(None), Err("missing COCOA_WAY_RELAY_IMAGE".to_string()));
    assert_eq!(relay_image(Some("img".into())), Ok("img".to_string()));
    assert_eq!(relay_container_name(None), "cocoa-way-apple-relay");
    assert_eq!(relay_container_name(Some("n".into())), "n");
}

fn startup(step: PublishStep) -> (bool, String) {
    match step {
        PublishStep::Finish { stop, result: Err(PublishRelayError::Startup(text)), .. } => (stop, text),
        _ => panic!("not a failed start"),
    }
}

#[test]
fn a_published_relay_goes_from_start_to_end() {
    assert!(matches!(publish_step(PublishEvent::Spawned(Ok(true))), PublishStep::AwaitListener));
    assert!(matches!(publish_step(PublishEvent::Listening(Ok(()))), PublishStep::Connect));
    assert!(matches!(publish_step(PublishEvent::Connected(Ok(()))), PublishStep::Greet));
    assert!(matches!(publish_step(PublishEvent::Greeted(Ok(()))), PublishStep::Duplicate));
    assert!(matches!(publish_step(PublishEvent::Duplicated(Ok(()))), PublishStep::Relay));
    let exit = ExitReport { success: true, status: "exit status: 0".into() };
    assert!(matches!(
        publish_step(PublishEvent::Ended { relayed: Ok(()), exit: Ok(exit) }),
        PublishStep::Finish { stop: false, remove: true, result: Ok(()) }
    ));
}

#[test]
fn a_failed_start_of_a_published_relay_is_tried_again() {
    assert_eq!(
        startup(publish_step(PublishEvent::Spawned(Ok(false)))),
        (false, "container transport control channel unavailable".to_string())
    );
    assert_eq!(
        startup(publish_step(PublishEvent::Listening(Err("late".into())))),
        (true, "late".to_string())
    );
    assert_eq!(
        startup(publish_step(PublishEvent::Connected(Err("no".into())))),
        (true, "no".to_string())
    );
    assert_eq!(
        startup(publish_step(PublishEvent::Greeted(Err("pipe".into())))),
        (false, "transport handshake failed: pipe".to_string())
    );
    assert!(matches!(
        after_publish(Err(PublishRelayError::Startup("late".into()))),
        AfterPublish::Retry(text)
            if text == "cocoa-way transport v2 startup failed: late; falling back to stdio relay"
    ));
}

#[test]
fn a_published_relay_that_had_started_is_not_tried_again() {
    let exit = ExitReport { success: false, status: "exit status: 3".into() };
    let PublishStep::Finish { remove: true, result, .. } =
        publish_step(PublishEvent::Ended { relayed: Ok(()), exit: Ok(exit) })
    else {
        panic!("not over");
    };
    assert!(matches!(
        after_publish(result),
        AfterPublish::Over(Err(text)) if text == "publish-socket relay exited with exit status: 3"
    ));
    assert!(matches!(
        publish_step(PublishEvent::Duplicated(Err("dup".into()))),
        PublishStep::Finish { remove: false, result: Err(PublishRelayError::Active(_)), .. }
    ));
    assert!(matches!(after_publish(Ok(())), AfterPublish::Over(Ok(()))));
}

#[test]
fn waiting_ends_when_the_container_does() {
    assert!(listener_wait(Notice::Nothing, Ok(None)).is_none());
    assert_eq!(
        listener_wait(Notice::Nothing, Ok(Some("exit status: 1".into()))),
        Some(Err(
            "container exited before its publish-socket listener became ready (exit status: 1)".to_string()
        ))
    );
    assert_eq!(listener_wait(Notice::Told(Ok(())), Ok(None)), Some(Ok(())));
    assert_eq!(
        listener_wait(Notice::Closed, Ok(None)),
        Some(Err("container transport control channel closed".to_string()))
    );
    assert_eq!(
        listener_timeout(),
        "timed out waiting for the container publish-socket listener"
    );
    assert_eq!(connect_wait(Ok(None)), None);
    assert_eq!(
        connect_wait(Ok(Some("signal: 9".into()))),
        Some("container exited before transport socket became ready (signal: 9)".to_string())
    );
}

#[test]
fn a_relay_over_standard_output_ends_with_its_container() {
    let exit = |success: bool| ExitReport { success, status: "exit status: 2".into() };
    assert_eq!(stdio_outcome(Ok(()), Ok(exit(true))), Ok(()));
    assert_eq!(
        stdio_outcome(Ok(()), Ok(exit(false))),
        Err("container relay exited with exit status: 2".to_string())
    );
    assert_eq!(stdio_outcome(Err("frame".into()), Ok(exit(true))), Err("frame".to_string()));
    assert_eq!(
        stdio_outcome(Err("frame".into()), Err("wait".into())),
        Err("wait".to_string())
    );
    assert_eq!(pipes_problem(false, true), Some("container relay stdin unavailable".to_string()));
    assert_eq!(pipes_problem(true, false), Some("container relay stdout unavailable".to_string()));
    assert_eq!(pipes_problem(true, true), None);
    assert_eq!(relay_exit_code(&Ok(())), 0);
    assert_eq!(relay_exit_code(&Err("x".into())), 1);
}

#[test]
fn a_relay_needs_the_whole_of_its_arguments() {
    let parsed = parse_waypipe_ssh_relay_args(&texts(&["-R", "/r:/l", "host", "--", "run", "it"])).unwrap();
    assert_eq!(parsed.remote_socket, "/r");
    assert_eq!(parsed.local_socket, "/l");
    assert_eq!(parsed.remote_command, ["run", "it"]);
    assert_eq!(
        parse_waypipe_ssh_relay_args(&texts(&["-R", "nocolon", "--", "run"])).err(),
        Some("invalid -R socket mapping `nocolon`".to_string())
    );
    assert_eq!(
        parse_waypipe_ssh_relay_args(&texts(&["-R", "/r:/l", "host"])).err(),
        Some("missing remote command".to_string())
    );
    assert_eq!(
        parse_waypipe_ssh_relay_args(&texts(&["-R", "/r:/l", "--"])).err(),
        Some("empty remote command".to_string())
    );
    assert!(parse_waypipe_ssh_relay_args(&texts(&[])).is_err());
}

#[test]
fn published_sockets_are_offered_by_a_help_that_was_printed() {
    let reply = |success: bool, text: &[u8]| -> Result<CommandOutput, String> {
        Ok(CommandOutput { success, stdout: text.to_vec(), stderr: vec![] })
    };
    assert!(publish_socket_offered(&reply(true, b"\xff --publish-socket <spec>")));
    assert!(!publish_socket_offered(&reply(false, b"--publish-socket")));
    assert!(!publish_socket_offered(&reply(true, b"--publish <spec>")));
    assert!(!publish_socket_offered(&Err("--publish-socket".into())));
}

#[test]
fn a_relay_is_led_to_the_proxy_of_the_host() {
    let own = || vec!["A=1".to_string()];
    let started = || ProxyBridge::Started(vec!["http_proxy=h:1".to_string()]);
    assert_eq!(
        relay_environment(own(), false, started()),
        (
            vec!["A=1".to_string(), "http_proxy=h:1".to_string()],
            Some(
                "cocoa-way network: forwarding the host loopback proxy to Apple Container"
                    .to_string()
            )
        )
    );
    assert_eq!(relay_environment(own(), true, started()), (own(), None));
    assert_eq!(relay_environment(own(), false, ProxyBridge::Absent), (own(), None));
    assert_eq!(
        relay_environment(own(), false, ProxyBridge::Failed("busy".into())),
        (own(), Some("cocoa-way network: host proxy bridge unavailable: busy".to_string()))
    );
}
