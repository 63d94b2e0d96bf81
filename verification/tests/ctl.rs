//! The command line of the control program.
use cocoa_way::ctl::{help_text, run, Invocation};

fn words(values: &[&str]) -> Vec<String> {
    values.iter().map(|value| value.to_string()).collect()
}

#[test]
fn a_command_is_sent_with_its_options() {
    let Invocation::Send { socket, request, compact } =
        run(&words(&["--json", "logs", "--limit", "5", "Firefox", "--socket", "/tmp/s"])).unwrap()
    else {
        panic!("help was not asked for");
    };
    assert_eq!(socket, Some("/tmp/s".to_string()));
    assert_eq!(request.command, "logs");
    assert_eq!(request.session, Some("Firefox".to_string()));
    assert_eq!(request.limit, 5);
    assert!(compact);
}

#[test]
fn a_command_without_options_has_defaults() {
    let Invocation::Send { socket: None, request, compact: false } = run(&words(&["status"])).unwrap()
    else {
        panic!("not sent as asked");
    };
    assert_eq!((request.session, request.limit), (None, 100));
}

#[test]
fn help_comes_first() {
    assert!(matches!(run(&words(&["--limit", "-h"])), Ok(Invocation::Help)));
    assert!(help_text().starts_with("cocoa-wayctl [--json]"));
}

#[test]
fn the_reply_on_one_line_is_never_a_word() {
    assert_eq!(
        run(&words(&["status", "--socket", "--json"])).err(),
        Some("--socket requires a path".to_string())
    );
}

#[test]
fn malformed_command_lines_are_refused() {
    for (line, message) in [
        (&["--socket"][..], "--socket requires a path"),
        (&["--limit"][..], "--limit requires a number"),
        (&["--limit", "many"][..], "--limit must be a positive integer"),
        (&["--verbose"][..], "unknown option: --verbose"),
        (&[][..], "missing command; run cocoa-wayctl --help"),
        (&["a", "b", "c"][..], "too many positional arguments"),
    ] {
        assert_eq!(run(&words(line)).err(), Some(message.to_string()));
    }
}
