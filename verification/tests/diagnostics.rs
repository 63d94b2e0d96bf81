//! What is measured.
use cocoa_way::diagnostics::{
    clipboard_snapshot, ensure_storage_growth_allowed, format_byte_count, free_bytes, parse_stats,
    record_clipboard_failure, record_clipboard_guest_install, record_clipboard_guest_offer,
    record_clipboard_host_change, record_clipboard_host_failure, sample_resources, sampled_usage,
    waiting_resources, ClipboardSnapshot,
};
use cocoa_way::json::{parse_array, parse_value, Json};
use cocoa_way::session_launch::CommandOutput;

#[test]
fn parses_apple_container_stats_json() {
    let stats = parse_stats(
        br#"[{"id":"demo","memoryUsageBytes":1024,"memoryLimitBytes":4096,"cpuUsageUsec":55,"networkRxBytes":7,"networkTxBytes":8,"blockReadBytes":9,"blockWriteBytes":10,"numProcesses":3}]"#,
    )
    .unwrap();
    assert_eq!(stats.len(), 1);
    assert_eq!(stats[0].id, "demo");
    assert_eq!(stats[0].cpu_usage_usec, 55);
    assert_eq!(stats[0].memory_limit_bytes, 4096);
    assert_eq!(stats[0].processes, 3);
}

#[test]
fn sizes_read_like_rounded_floating_point() {
    let mut samples = vec![0, 1, 1023, 1024, 1075, 1126, 1127, 1536, 1_048_575, 1_048_576, u64::MAX];
    for shift in 0..64 {
        for near in [-1_i128, 0, 1, 77, 12_345] {
            let value = (1_i128 << shift) + near;
            if (0..=i128::from(u64::MAX)).contains(&value) {
                samples.push(value as u64);
            }
        }
    }
    for bytes in samples {
        let size = bytes as f64;
        let expected = if size >= 1024.0 * 1024.0 * 1024.0 {
            format!("{:.1} GiB", size / (1024.0 * 1024.0 * 1024.0))
        } else if size >= 1024.0 * 1024.0 {
            format!("{:.1} MiB", size / (1024.0 * 1024.0))
        } else if size >= 1024.0 {
            format!("{:.1} KiB", size / 1024.0)
        } else {
            format!("{bytes} B")
        };
        assert_eq!(format_byte_count(bytes), expected);
    }
}

#[test]
fn images_need_eight_gibibytes() {
    assert_eq!(ensure_storage_growth_allowed(Some(8 << 30)), Ok(8 << 30));
    assert_eq!(
        ensure_storage_growth_allowed(Some(3 << 30)).unwrap_err(),
        "Only 3.0 GiB is free. Cocoa-Way requires at least 8 GiB before building, pulling, or loading an image."
    );
    assert_eq!(
        ensure_storage_growth_allowed(None).unwrap_err(),
        "Unable to determine available disk space"
    );
    assert_eq!(free_bytes(3, 4096), 12288);
    assert_eq!(free_bytes(u64::MAX, 2), u64::MAX);
}

#[test]
fn an_error_of_the_clipboard_lasts_until_a_transfer_succeeds() {
    let mut clipboard = ClipboardSnapshot::default();
    record_clipboard_host_change(&mut clipboard, 4, Some("text/plain"), 1);
    assert_eq!(clipboard.state, "Ready");
    assert_eq!(clipboard.last_direction.as_deref(), Some("macOS -> Wayland"));
    record_clipboard_failure(&mut clipboard, "broken", 2);
    record_clipboard_guest_offer(&mut clipboard, "image/png", 3);
    assert_eq!(clipboard.last_error.as_deref(), Some("broken"));
    assert_eq!(clipboard.state, "Guest offer");
    record_clipboard_guest_install(&mut clipboard, 0, 4);
    assert_eq!(clipboard.last_error, None);
    assert_eq!(clipboard.state, "Wayland clipboard was empty");
    assert_eq!(clipboard.last_event_unix_ms, Some(4));
    record_clipboard_host_failure(&mut clipboard, "no image", 5);
    assert_eq!(clipboard.failures, 2);
    record_clipboard_host_change(&mut clipboard, 0, None, 6);
    assert_eq!(clipboard.state, "macOS clipboard cleared");
    assert_eq!(clipboard.last_mime, None);
    let copy = clipboard_snapshot(&clipboard);
    assert_eq!(format!("{copy:?}"), format!("{clipboard:?}"));
    assert_eq!((copy.host_to_guest_events, copy.guest_to_host_events, copy.guest_offers), (2, 1, 1));
}

fn reply(success: bool, stdout: &str, stderr: &[u8]) -> Option<Result<CommandOutput, String>> {
    Some(Ok(CommandOutput {
        success,
        stdout: stdout.as_bytes().to_vec(),
        stderr: stderr.to_vec(),
    }))
}

const ROWS: &str = r#"[{"id":"a","memoryUsageBytes":100,"memoryLimitBytes":400,"cpuUsageUsec":70},{"id":"b","memoryUsageBytes":1}]"#;

#[test]
fn a_sample_holds_sums_and_differences() {
    let previous = vec![("a".to_string(), 50)];
    let snapshot = sample_resources(reply(true, ROWS, b""), &previous, Some(1000), 9, Some(5));
    assert!(snapshot.available);
    assert_eq!(snapshot.total_memory_usage_bytes, 101);
    assert_eq!(snapshot.total_memory_limit_bytes, 400);
    assert_eq!(snapshot.containers[0].cpu_delta_usec, Some(20));
    assert_eq!(snapshot.containers[1].cpu_delta_usec, None);
    assert_eq!(
        sampled_usage(&snapshot.containers),
        [("a".to_string(), 70), ("b".to_string(), 0)]
    );
}

#[test]
fn a_sample_that_fails_says_why() {
    let problem = |reply| {
        sample_resources(reply, &vec![], None, 1, None).error.unwrap()
    };
    assert_eq!(problem(None), "Apple Container command not found");
    assert_eq!(problem(Some(Err(" timed out \n".to_string()))), "timed out");
    assert_eq!(problem(reply(false, "", b"first\nsecond")), "first");
    assert_eq!(problem(reply(false, "", b"bad \xff byte")), "bad \u{fffd} byte");
    assert_eq!(problem(reply(false, "", b"")), "container stats failed");
    assert!(!problem(reply(true, "not json", b"")).is_empty());
    assert_eq!(
        waiting_resources(None).error.as_deref(),
        Some("Waiting for the first Apple Container resource sample")
    );
}

#[test]
fn json_is_read_as_serde_json_reads_it() {
    let text = r#"{"text":"hé","number":7,"large":1e3,"negative":-1,"list":[true,null,"x"],"nested":{"k":[]}}"#;
    let value = parse_value(text.as_bytes()).unwrap();
    assert_eq!(value.get_str("text"), Some("h\u{e9}"));
    assert_eq!(value.get("number").and_then(|number| number.as_u64()), Some(7));
    assert_eq!(value.get("large").and_then(|number| number.as_u64()), None);
    assert_eq!(value.get("negative").and_then(|number| number.as_u64()), None);
    let list = value.get("list").and_then(|list| list.as_array()).unwrap();
    assert!(matches!(list[0], Json::Bool(true)));
    assert!(matches!(list[1], Json::Null));
    assert_eq!(list[2].as_str(), Some("x"));
    assert!(matches!(
        value.get("nested").and_then(|nested| nested.get("k")),
        Some(Json::Array(items)) if items.is_empty()
    ));
    assert!(value.get("missing").is_none());
    assert_eq!(
        parse_value(b"{").err(),
        serde_json::from_slice::<serde_json::Value>(b"{").err().map(|error| error.to_string())
    );
    assert_eq!(parse_array("[1,2]").unwrap().len(), 2);
    assert_eq!(
        parse_array("{}").err(),
        serde_json::from_str::<Vec<serde_json::Value>>("{}").err().map(|error| error.to_string())
    );
}
