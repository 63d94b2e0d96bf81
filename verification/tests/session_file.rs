//! The file in which profiles are saved.
use cocoa_way::container_sessions::{
    load_sessions, load_sessions_report, session_of_entry, ConfigRead, ContainerSession,
    SessionEntry,
};
use cocoa_way::session_config::{
    append_session, can_cut_session, remove_session, replace_session, session_ranges,
    session_to_toml, toml_escape,
};

fn entry(name: &str) -> SessionEntry {
    SessionEntry {
        name: name.into(),
        image: "example:latest".into(),
        runtime: None,
        display: None,
        presentation: None,
        profile: None,
        app: None,
        command: None,
        socket: None,
        container_socket: None,
        waypipe_path: None,
        waypipe_compress: None,
        waypipe_threads: None,
        audio: None,
        runtime_args: None,
        mounts: None,
        env: None,
    }
}

fn session(name: &str) -> ContainerSession {
    session_of_entry(entry(name))
}

/// The entries of a file, as the reader of the file finds them.
fn entries(content: &str) -> Vec<SessionEntry> {
    let table = content.parse::<toml::Table>().unwrap();
    let text = |table: &toml::Table, key: &str| {
        table.get(key).and_then(|value| value.as_str()).map(str::to_string)
    };
    let list = |table: &toml::Table, key: &str| {
        table.get(key).and_then(|value| value.as_array()).map(|values| {
            values
                .iter()
                .map(|value| value.as_str().unwrap().to_string())
                .collect::<Vec<_>>()
        })
    };
    let Some(sessions) = table.get("session") else {
        return Vec::new();
    };
    sessions
        .as_array()
        .unwrap()
        .iter()
        .map(|value| {
            let table = value.as_table().unwrap();
            SessionEntry {
                name: text(table, "name").unwrap(),
                image: text(table, "image").unwrap(),
                runtime: text(table, "runtime"),
                display: text(table, "display"),
                presentation: text(table, "presentation"),
                profile: text(table, "profile"),
                app: text(table, "app"),
                command: text(table, "command"),
                socket: text(table, "socket"),
                container_socket: text(table, "container_socket"),
                waypipe_path: text(table, "waypipe_path"),
                waypipe_compress: text(table, "waypipe_compress"),
                waypipe_threads: table
                    .get("waypipe_threads")
                    .and_then(|value| value.as_integer())
                    .map(|value| value as usize),
                audio: table.get("audio").and_then(|value| value.as_bool()),
                runtime_args: list(table, "runtime_args"),
                mounts: list(table, "mounts"),
                env: list(table, "env"),
            }
        })
        .collect()
}

fn read(content: &str) -> Vec<ContainerSession> {
    entries(content).into_iter().map(session_of_entry).collect()
}

fn names(content: &str) -> Vec<String> {
    read(content).into_iter().map(|session| session.name).collect()
}

#[test]
fn omitted_audio_defaults_to_enabled_and_explicit_off_is_preserved() {
    let enabled = read("[[session]]\nname = \"Default Audio\"\nimage = \"example:latest\"\n");
    assert!(enabled[0].audio);

    let disabled =
        read("[[session]]\nname = \"Muted\"\nimage = \"example:latest\"\naudio = false\n");
    assert!(!disabled[0].audio);
    assert!(session_to_toml(&disabled[0]).contains("audio = false"));
}

#[test]
fn what_is_left_out_has_its_default() {
    let session = session("Plain");
    assert_eq!(session.runtime, "container");
    assert!(session.runtime_args.is_empty() && session.mounts.is_empty() && session.env.is_empty());
    assert_eq!(session.waypipe_threads, None);
}

#[test]
fn a_saved_profile_is_read_back_by_the_reader_of_the_file() {
    let mut saved = session("Quo\"te \\ tab\t and\nline");
    saved.display = Some("named".into());
    saved.presentation = Some("rootless".into());
    saved.profile = Some("desktop".into());
    saved.app = Some("app".into());
    saved.command = Some("sh -c 'a = \"b\"'".into());
    saved.socket = Some(String::new());
    saved.container_socket = Some("/run/c.sock".into());
    saved.waypipe_path = Some("/opt/waypipe".into());
    saved.waypipe_compress = Some("lz4".into());
    saved.waypipe_threads = Some(12);
    saved.audio = false;
    saved.runtime_args = vec!["--cpus".into(), "4".into()];
    saved.mounts = vec!["a, b".into(), "c\"d".into()];
    saved.env = vec!["K=[v]".into()];
    let found = read(&session_to_toml(&saved));
    assert_eq!(found.len(), 1);
    saved.socket = None;
    assert_eq!(format!("{:?}", found[0]), format!("{saved:?}"));
}

#[test]
fn profiles_are_appended_replaced_and_removed() {
    let one = append_session(None, &session("One"));
    let two = append_session(Some(&one), &session("Two"));
    let three = append_session(Some(&two), &session("Three"));
    assert_eq!(names(&three), ["One", "Two", "Three"]);
    assert_eq!(session_ranges(&three).len(), 3);
    assert!(can_cut_session(&three, 2));
    let replaced = replace_session(&three, 1, &session("Second")).unwrap();
    assert_eq!(names(&replaced), ["One", "Second", "Three"]);
    let removed = remove_session(&replaced, 0).unwrap();
    assert_eq!(names(&removed), ["Second", "Three"]);
    let last = remove_session(&remove_session(&removed, 1).unwrap(), 0).unwrap();
    assert!(names(&last).is_empty());
}

#[test]
fn the_other_profiles_are_read_as_they_were() {
    let shown = |content: &str| -> Vec<String> {
        read(content).iter().map(|session| format!("{session:?}")).collect()
    };
    let start = "# mine\n[[session]]\nname = 'First'\nimage=\"a:1\"  # a comment\n\n\n  [[session]]  \nimage = \"b:2\"\nname = \"Second\"\nenv = [\n  \"A=1\",\n]";
    let before = shown(start);
    assert_eq!(before.len(), 2);
    let mut added = session("Third");
    added.mounts = vec!["/a:/b".into()];
    let longer = append_session(Some(start), &added);
    assert!(longer.starts_with(start));
    let mut expected = before.clone();
    expected.push(format!("{added:?}"));
    assert_eq!(shown(&longer), expected);
    for index in 0..3 {
        let mut other = session("Other");
        other.audio = false;
        let mut replaced = expected.clone();
        replaced[index] = format!("{other:?}");
        assert_eq!(shown(&replace_session(&longer, index, &other).unwrap()), replaced);
        let mut removed = expected.clone();
        removed.remove(index);
        assert_eq!(shown(&remove_session(&longer, index).unwrap()), removed);
    }
}

#[test]
fn comments_and_other_tables_stay() {
    let content = "# head\n\n[other]\nkey = 1\n";
    let longer = append_session(Some(content), &session("One"));
    assert!(longer.starts_with(content));
    assert!(remove_session(&longer, 0).unwrap().starts_with(content.trim_end()));
}

#[test]
fn a_profile_that_is_not_there_is_not_found() {
    let one = append_session(None, &session("One"));
    assert!(can_cut_session(&one, 1));
    assert_eq!(
        replace_session(&one, 1, &session("Two")),
        Err("session index not found".to_string())
    );
    assert_eq!(remove_session(&one, 1), Err("session index not found".to_string()));
}

#[test]
fn a_value_can_hold_what_looks_like_a_header() {
    let tricky = session("x\n[[session]]\nname");
    let content = append_session(None, &tricky);
    assert_eq!(session_ranges(&content).len(), 1);
    assert_eq!(names(&content), ["x\n[[session]]\nname"]);
    assert_eq!(toml_escape("\r\n"), "\\r\\n");
}

#[test]
fn a_file_that_cannot_be_read_is_reported() {
    let report = load_sessions_report(ConfigRead::Malformed("bad key".into()), "/c.toml");
    assert_eq!(report.error, Some("Failed to parse /c.toml: bad key".to_string()));
    assert!(report.sessions.is_empty());
    let report = load_sessions_report(ConfigRead::Missing, "/c.toml");
    assert_eq!(report.error, None);
    assert_eq!(
        load_sessions(ConfigRead::Parsed(vec![session("One")]), "/c.toml")[0].name,
        "One"
    );
}
