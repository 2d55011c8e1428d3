use overlay_chat::host::{download, greet, DownloadEvent};
use overlay_chat::id_set::IdSet;
use overlay_chat::settings::node_settings;

#[test]
fn id_set_insert_and_remove() {
    let mut s = IdSet::new();
    assert!(s.insert("a".to_string()));
    assert!(!s.insert("a".to_string()));
    assert!(s.insert("b".to_string()));
    assert!(s.contains(&"a".to_string()));
    assert!(s.remove(&"a".to_string()));
    assert!(!s.remove(&"a".to_string()));
    assert!(!s.contains(&"a".to_string()));
    assert!(s.contains(&"b".to_string()));
}

#[test]
fn greeting_text() {
    assert_eq!(greet("Tauri"), "Hello, Tauri! You've been greeted from Rust!");
}

#[test]
fn download_reports_progress_in_order() {
    let events = download("http://example.com/f".to_string());
    assert_eq!(events.len(), 7);
    assert!(matches!(&events[0], DownloadEvent::Started(u) if u == "http://example.com/f"));
    let steps: Vec<u32> = events[1..6]
        .iter()
        .map(|e| match e {
            DownloadEvent::Progress(p) => *p,
            _ => panic!("progress expected"),
        })
        .collect();
    assert_eq!(steps, vec![1, 15, 50, 80, 100]);
    assert!(matches!(&events[6], DownloadEvent::Finished(u) if u == "http://example.com/f"));
}

#[test]
fn settings_are_fixed() {
    let s = node_settings();
    assert_eq!(s.topic, "test-net");
    assert_eq!(s.heartbeat_secs, 10);
    assert!(s.strict_validation);
    assert!(s.sign_messages);
    assert_eq!(s.idle_timeout_secs, u64::MAX);
    assert_eq!(s.quic_listen, "/ip4/0.0.0.0/udp/0/quic-v1");
    assert_eq!(s.tcp_listen, "/ip4/0.0.0.0/tcp/0");
}
