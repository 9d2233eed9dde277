use sidecar_relay::greeting::greet;
use sidecar_relay::sidecar::{relay, relay_all, LogLevel, SidecarEvent};

#[test]
fn greet_formats_the_name() {
    assert_eq!(
        greet("World"),
        "Hello, World! You've been greeted from Rust!"
    );
}

#[test]
fn greet_empty_name() {
    assert_eq!(greet(""), "Hello, ! You've been greeted from Rust!");
}

#[test]
fn greet_unicode_name() {
    assert_eq!(
        greet("Мир"),
        "Hello, Мир! You've been greeted from Rust!"
    );
}

#[test]
fn stdout_is_relayed_at_info_level() {
    let line = relay(&SidecarEvent::Stdout(b"server started".to_vec())).unwrap();
    assert!(line.level == LogLevel::Info);
    assert_eq!(line.text, "[SIDECAR] server started");
}

#[test]
fn stderr_is_relayed_at_error_level() {
    let line = relay(&SidecarEvent::Stderr(b"bind failed".to_vec())).unwrap();
    assert!(line.level == LogLevel::Error);
    assert_eq!(line.text, "[SIDECAR ERROR] bind failed");
}

#[test]
fn other_events_are_ignored() {
    assert!(relay(&SidecarEvent::Other).is_none());
}

#[test]
fn empty_output_chunk_gives_the_bare_prefix() {
    let line = relay(&SidecarEvent::Stdout(Vec::new())).unwrap();
    assert_eq!(line.text, "[SIDECAR] ");
}

#[test]
fn invalid_utf8_is_replaced_not_passed_through() {
    let line = relay(&SidecarEvent::Stdout(vec![0x68, 0x69, 0xFF])).unwrap();
    assert_eq!(line.text, "[SIDECAR] hi\u{FFFD}");
}

#[test]
fn relay_all_keeps_order_and_skips_ignored_events() {
    let events = vec![
        SidecarEvent::Stdout(b"listening".to_vec()),
        SidecarEvent::Other,
        SidecarEvent::Stderr(b"oops".to_vec()),
        SidecarEvent::Stdout(b"done".to_vec()),
    ];
    let lines = relay_all(&events);
    assert_eq!(lines.len(), 3);
    assert!(lines[0].level == LogLevel::Info);
    assert_eq!(lines[0].text, "[SIDECAR] listening");
    assert!(lines[1].level == LogLevel::Error);
    assert_eq!(lines[1].text, "[SIDECAR ERROR] oops");
    assert!(lines[2].level == LogLevel::Info);
    assert_eq!(lines[2].text, "[SIDECAR] done");
}

#[test]
fn relay_all_of_nothing_is_nothing() {
    let lines = relay_all(&Vec::new());
    assert!(lines.is_empty());
}
