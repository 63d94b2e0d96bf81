//! What is copied and pasted.
use cocoa_way::clipboard::{
    accept_guest_image, clipboard_mime_types, guest_contents, is_clipboard_image_mime,
    is_clipboard_text_mime, payload_step, png_dimensions, poll_is_due, preferred_clipboard_mime,
    preferred_clipboard_text_mime, shared_png_bytes, validate_clipboard_image_dimensions,
    validate_clipboard_source_size, ClipboardPayload, ClipboardState, GuestContents, GuestTransfer,
    HostPasteboardSnapshot, InstallStep, PayloadWrite, TransferRead, TransferStep, WriteStep,
    CLIPBOARD_IMAGE_MIME, MAX_CLIPBOARD_IMAGE_BYTES,
};

fn sample_png(width: u32, height: u32) -> Vec<u8> {
    let mut png = vec![0; 24];
    png[..8].copy_from_slice(b"\x89PNG\r\n\x1a\n");
    png[12..16].copy_from_slice(b"IHDR");
    png[16..20].copy_from_slice(&width.to_be_bytes());
    png[20..24].copy_from_slice(&height.to_be_bytes());
    png
}

#[test]
fn advertises_png_before_text_when_both_are_available() {
    let offered = clipboard_mime_types(true, true);
    assert_eq!(
        offered.first().map(String::as_str),
        Some(CLIPBOARD_IMAGE_MIME)
    );
    assert!(offered.iter().any(|mime| mime == "text/plain"));
}

#[test]
fn clears_all_mime_types_when_the_host_clipboard_is_empty() {
    assert!(clipboard_mime_types(false, false).is_empty());
}

#[test]
fn accepts_png_without_treating_it_as_text() {
    assert!(is_clipboard_image_mime("IMAGE/PNG"));
    assert!(!is_clipboard_text_mime(CLIPBOARD_IMAGE_MIME));
}

#[test]
fn validates_screenshot_dimensions_and_shares_the_encoded_bytes() {
    let png = sample_png(6016, 3384);
    assert_eq!(png_dimensions(&png), Some((6016, 3384)));
    let shared = shared_png_bytes(png.clone()).unwrap().unwrap();
    assert_eq!(&*shared, png.as_slice());
}

#[test]
fn rejects_oversized_png_clipboards() {
    let mut png = sample_png(1, 1);
    png.resize(MAX_CLIPBOARD_IMAGE_BYTES + 1, 0);
    assert!(shared_png_bytes(png).unwrap_err().contains("64 MiB"));
}

#[test]
fn chooses_the_exact_mime_offered_by_the_client() {
    let offered = vec![
        "image/png".to_string(),
        "text/plain;charset=UTF-8".to_string(),
        "UTF8_STRING".to_string(),
    ];
    assert_eq!(
        preferred_clipboard_text_mime(&offered).as_deref(),
        Some("text/plain;charset=UTF-8")
    );
}

#[test]
fn guest_image_offer_beats_browser_html_and_text() {
    let offered = vec!["text/html".into(), "text/plain".into(), "image/png".into()];
    assert_eq!(
        preferred_clipboard_mime(&offered).as_deref(),
        Some("image/png")
    );
    assert!(preferred_clipboard_mime(&vec!["text/html".into()]).is_none());
}

#[test]
fn accepts_wayland_and_xwayland_text_aliases() {
    for mime in [
        "text/plain",
        "text/plain;charset=utf-8",
        "UTF8_STRING",
        "TEXT",
        "STRING",
    ] {
        assert!(is_clipboard_text_mime(mime), "rejected {mime}");
    }
    assert!(!is_clipboard_text_mime("image/png"));
}

/// What becomes of an offer of a guest that is read in pieces.
fn read_test_offer(bytes: Vec<u8>, mime: &str) -> Result<GuestContents, String> {
    let mut transfer = GuestTransfer::new(mime);
    for chunk in bytes.chunks(64 * 1024) {
        match transfer.on_read(TransferRead::Bytes(chunk.to_vec())) {
            TransferStep::Read => {}
            TransferStep::Failed(message) => return Err(message),
            step => panic!("unexpected step {step:?}"),
        }
    }
    assert!(matches!(transfer.on_read(TransferRead::End), TransferStep::Complete));
    match guest_contents(transfer) {
        GuestContents::Failed(message) => Err(message),
        contents => Ok(contents),
    }
}

#[test]
fn guest_png_transfer_preserves_binary_bytes() {
    let mut png = sample_png(16, 16);
    png.extend((0..200_000_u32).map(|value| value as u8));
    let GuestContents::Image(received) = read_test_offer(png.clone(), "image/png").unwrap() else {
        panic!("PNG was not received as an image");
    };
    assert_eq!(received, png);
}

#[test]
fn guest_text_transfer_preserves_unicode_and_newlines() {
    let text = "clipboard \u{4f60}\u{597d}\n";
    let GuestContents::Text(received) =
        read_test_offer(text.as_bytes().to_vec(), "text/plain").unwrap()
    else {
        panic!("Text was not received");
    };
    assert_eq!(received, text);
}

#[test]
fn guest_transfer_rejects_invalid_png_and_unbounded_text() {
    assert!(read_test_offer(b"<img src='example'>".to_vec(), "image/png").is_err());
    assert!(read_test_offer(vec![b'x'; 8 * 1024 * 1024 + 1], "text/plain")
        .err()
        .unwrap()
        .contains("transfer limit"));
}

#[test]
fn new_selection_cancels_a_blocked_clipboard_reader() {
    let mut transfer = GuestTransfer::new("text/plain");
    assert!(matches!(GuestTransfer::before_read(1, 1, false), TransferStep::Read));
    assert!(matches!(transfer.on_read(TransferRead::WouldBlock), TransferStep::Wait));
    assert!(matches!(GuestTransfer::before_read(1, 2, false), TransferStep::Cancelled));
    assert!(matches!(
        GuestTransfer::before_read(1, 1, true),
        TransferStep::Failed(message)
            if message == "Wayland clipboard transfer timed out after 10 seconds"
    ));
}

#[test]
fn clipboard_writer_handles_backpressure_without_truncating() {
    let bytes = vec![0xA5_u8; 2 * 1024 * 1024];
    let mut received: Vec<u8> = Vec::new();
    let mut sent = 0;
    let mut turn = 0;
    while sent < bytes.len() {
        turn += 1;
        let write = match turn % 3 {
            0 => PayloadWrite::WouldBlock,
            1 => {
                let count = (bytes.len() - sent).min(60_000);
                received.extend(&bytes[sent..sent + count]);
                PayloadWrite::Bytes(count)
            }
            _ => PayloadWrite::Interrupted,
        };
        sent = match payload_step(sent, bytes.len(), write) {
            WriteStep::Write(from) | WriteStep::Wait(from) => from,
            WriteStep::Failed(message) => panic!("{message}"),
        };
    }
    assert_eq!(received, bytes);
}

#[test]
fn a_writer_stops_when_nobody_reads() {
    assert!(matches!(
        payload_step(3, 10, PayloadWrite::Bytes(0)),
        WriteStep::Failed(message) if message == "clipboard receiver stopped reading"
    ));
    assert!(matches!(
        payload_step(3, 10, PayloadWrite::Failed("broken pipe".into())),
        WriteStep::Failed(message) if message == "broken pipe"
    ));
}

#[test]
fn text_that_is_no_utf_8_is_refused() {
    assert_eq!(
        read_test_offer(vec![0xff, 0xfe], "text/plain").err(),
        Some("Wayland clipboard text is not UTF-8".to_string())
    );
    assert!(matches!(read_test_offer(vec![], "text/plain"), Ok(GuestContents::Nothing)));
    let mut transfer = GuestTransfer::new("text/plain");
    assert!(matches!(
        transfer.on_read(TransferRead::Failed("gone".into())),
        TransferStep::Failed(message) if message == "Failed to read Wayland clipboard: gone"
    ));
}

#[test]
fn images_of_guests_are_measured_once_decoded() {
    assert!(matches!(
        accept_guest_image(sample_png(2, 2), Some((2, 2))),
        Ok(ClipboardPayload::Image(image)) if image == sample_png(2, 2)
    ));
    assert_eq!(
        accept_guest_image(sample_png(2, 2), None).err(),
        Some("Wayland clipboard PNG could not be decoded".to_string())
    );
    assert!(accept_guest_image(sample_png(2, 2), Some((0, 2))).is_err());
    assert!(validate_clipboard_image_dimensions(1, 1).is_ok());
    assert!(validate_clipboard_image_dimensions(-1, 1).is_err());
    assert!(validate_clipboard_image_dimensions(isize::MAX, 2).is_err());
    assert!(validate_clipboard_source_size(1).is_ok());
    assert!(validate_clipboard_source_size(usize::MAX).is_err());
}

fn copied(text: Option<&str>, image: Option<Vec<u8>>) -> HostPasteboardSnapshot {
    HostPasteboardSnapshot {
        change_count: 5,
        text: text.map(str::to_string),
        image_png: image,
        image_error: None,
    }
}

#[test]
fn a_copy_on_the_host_is_offered_to_guests() {
    let mut state = ClipboardState::new();
    let update = state.on_host_change(copied(Some("h\u{e9}"), Some(vec![1, 2])));
    assert_eq!(update.byte_count, 5);
    assert_eq!(update.mime_types, clipboard_mime_types(true, true));
    assert_eq!(update.failure, None);
    assert_eq!((state.generation, state.change_count), (1, 5));
    assert!(matches!(
        state.send_selection(true, "text/plain"),
        Some(Some(ClipboardPayload::Text(text))) if text == "h\u{e9}"
    ));
    assert!(matches!(
        state.send_selection(true, "image/png"),
        Some(Some(ClipboardPayload::Image(image))) if image == [1, 2]
    ));
    assert!(state.send_selection(true, "text/html").is_none());
    assert!(state.send_selection(false, "text/plain").is_none());
}

#[test]
fn a_copy_of_a_guest_is_asked_for_once() {
    let mut state = ClipboardState::new();
    let kinds = vec!["text/html".to_string(), "UTF8_STRING".to_string()];
    assert_eq!(state.new_selection(false, Some(&kinds)), None);
    assert_eq!(state.generation, 0);
    assert_eq!(
        state.new_selection(true, Some(&kinds)),
        Some("UTF8_STRING".to_string())
    );
    assert_eq!(state.take_pending(), Some("UTF8_STRING".to_string()));
    assert_eq!(state.take_pending(), None);
    assert_eq!(state.new_selection(true, None), None);
    assert_eq!(state.generation, 2);
}

#[test]
fn contents_that_are_out_of_date_are_ignored() {
    let mut state = ClipboardState::new();
    let text = ClipboardPayload::Text("new".into());
    assert_eq!(state.install_guest_clipboard(0, 3, 3, &text), InstallStep::Install);
    assert_eq!(state.install_guest_clipboard(1, 3, 3, &text), InstallStep::Ignore);
    assert_eq!(state.install_guest_clipboard(0, 3, 4, &text), InstallStep::Ignore);
    assert_eq!(state.installed(text, 4), clipboard_mime_types(true, false));
    let same = ClipboardPayload::Text("new".into());
    assert_eq!(state.install_guest_clipboard(0, 4, 4, &same), InstallStep::Ignore);
    assert_eq!(same.as_bytes(), b"new");
}

#[test]
fn the_host_is_looked_at_ten_times_a_second() {
    assert!(!poll_is_due(99));
    assert!(poll_is_due(100));
}
