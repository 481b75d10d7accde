use grav_launcher::hash::{bytes_to_hex, remote_hash_from_body, StreamHasher};
use grav_launcher::ui::log::{Entry, Log};

#[test]
fn sha256_of_empty_input_matches_the_known_digest() {
    let h = StreamHasher::new();
    assert_eq!(
        h.finalize_hex(),
        "e3b0c44298fc1c149afbf4c8996fb92427ae41e4649b934ca495991b7852b855"
    );
}

#[test]
fn sha256_is_over_the_concatenation_of_all_chunks() {
    let mut h = StreamHasher::new();
    h.update(b"a");
    h.update(b"bc");
    // The digest of "abc": chunking must not change the result.
    assert_eq!(
        h.finalize_hex(),
        "ba7816bf8f01cfea414140de5dae2223b00361a396177a9cb410ff61f20015ad"
    );
}

#[test]
fn hex_rendering_is_two_lowercase_digits_per_byte() {
    assert_eq!(bytes_to_hex(&vec![]), "");
    assert_eq!(bytes_to_hex(&vec![0x00, 0xff, 0x1a]), "00ff1a");
    assert_eq!(bytes_to_hex(&vec![0x0f]), "0f");
}

#[test]
fn remote_hash_body_is_trimmed_of_surrounding_whitespace() {
    assert_eq!(remote_hash_from_body("abc123\n"), "abc123");
    assert_eq!(remote_hash_from_body("  abc123  "), "abc123");
    assert_eq!(remote_hash_from_body("\r\n\tabc123\t\r\n"), "abc123");
    assert_eq!(remote_hash_from_body("a b"), "a b");
    assert_eq!(remote_hash_from_body("\u{3000}x\u{2009}"), "x");
    assert_eq!(remote_hash_from_body("   "), "");
}

#[test]
fn log_entries_keep_display_order() {
    let mut log = Log::new();
    log.add_text(String::from("first line"));
    log.add_titled(String::from("Launcher"), String::from("ready"));
    log.launcher_status_msg = Some(String::from("checking"));
    log.remote_hash_msg = Some(String::from("remote"));
    log.local_hash_msg = Some(String::from("local"));
    log.start_download(Some(10));

    let entries = log.entries();
    assert_eq!(entries.len(), 6);
    assert!(matches!(
        &entries[0],
        Entry::Text(Some(t), s) if t.as_str() == "Launcher Status" && s.as_str() == "checking"
    ));
    assert!(matches!(&entries[1], Entry::Text(Some(t), s) if t.as_str() == "Remote hash" && s.as_str() == "remote"));
    assert!(matches!(&entries[2], Entry::Text(Some(t), s) if t.as_str() == "Local hash" && s.as_str() == "local"));
    assert!(matches!(&entries[3], Entry::GameDownload(d) if d.current() == 0));
    assert!(matches!(&entries[4], Entry::Text(None, s) if s.as_str() == "first line"));
    assert!(matches!(&entries[5], Entry::Text(None, s) if s.as_str() == "Launcher: ready"));
}

#[test]
fn download_slots_update_in_place() {
    let mut log = Log::new();
    log.start_download(None);
    log.set_download_progress(5);
    assert_eq!(log.game_download.as_ref().unwrap().current(), 5);
    log.set_download_error(String::from("gone"));
    let entries = log.entries();
    assert_eq!(entries.len(), 1, "the download entry is updated, not appended");
    log.mark_download_complete();
}
