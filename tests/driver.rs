use overlay_chat::content_id::message_id;
use overlay_chat::driver::{InboundMessage, Input, Notice, Overlay, OverlayCommand, Reaction};
use std::collections::hash_map::DefaultHasher;
use std::hash::{Hash, Hasher};

fn hash_text(data: &Vec<u8>) -> String {
    let mut h = DefaultHasher::new();
    data.hash(&mut h);
    h.finish().to_string()
}

fn signed_message(origin: &str, data: &[u8]) -> Input {
    let data = data.to_vec();
    Input::Message(InboundMessage {
        origin: origin.to_string(),
        id: message_id(&data),
        data,
        signed: true,
    })
}

fn received(r: &Reaction) -> Option<(String, String, String)> {
    match &r.notice {
        Some(Notice::MessageReceived { text, id, peer }) => Some((text.clone(), id.clone(), peer.clone())),
        _ => None,
    }
}

#[test]
fn publish_hello_is_received_once_with_content_id() {
    let mut a = Overlay::new();
    let r = a.step(Input::Publish("hello".to_string()));
    let payload = match r.command {
        Some(OverlayCommand::Publish(t)) => t.into_bytes(),
        _ => panic!("publish expected"),
    };
    assert!(r.notice.is_none());
    let sent_id = message_id(&payload);

    let mut b = Overlay::new();
    let r1 = b.step(signed_message("peer-a", &payload));
    let (text, id, peer) = received(&r1).expect("one delivery");
    assert_eq!(text, "hello");
    assert_eq!(peer, "peer-a");
    assert_eq!(id, sent_id);
    assert_eq!(id, hash_text(&b"hello".to_vec()));
    let r2 = b.step(signed_message("peer-c", &payload));
    assert!(r2.notice.is_none());
    assert!(b.was_delivered(&id));
}

#[test]
fn message_id_is_the_decimal_payload_hash() {
    let data = b"hello".to_vec();
    let id = message_id(&data);
    assert_eq!(id, hash_text(&data));
    assert!(!id.is_empty());
    assert!(id.chars().all(|c| c.is_ascii_digit()));
    assert_ne!(id.as_bytes(), &data[..]);
    assert_eq!(message_id(&b"hello".to_vec()), message_id(&data));
    assert_ne!(message_id(&b"hello!".to_vec()), id);
}

#[test]
fn discovered_peer_is_explicit_until_expired() {
    let mut a = Overlay::new();
    let peer = "12D3KooWPeerB".to_string();
    let r = a.step(Input::Discovered(peer.clone()));
    assert!(matches!(&r.notice, Some(Notice::PeerDiscovered(p)) if *p == peer));
    assert!(matches!(&r.command, Some(OverlayCommand::AddExplicitPeer(p)) if *p == peer));
    assert!(a.is_explicit(&peer));
    a.step(Input::Listening("/ip4/127.0.0.1/tcp/4001".to_string()));
    a.step(signed_message("x", b"chat"));
    a.step(Input::Expired("someone-else".to_string()));
    a.step(Input::Discovered(peer.clone()));
    assert!(a.is_explicit(&peer));
    let r = a.step(Input::Expired(peer.clone()));
    assert!(matches!(&r.notice, Some(Notice::PeerExpired(p)) if *p == peer));
    assert!(matches!(&r.command, Some(OverlayCommand::RemoveExplicitPeer(p)) if *p == peer));
    assert!(!a.is_explicit(&peer));
}

#[test]
fn both_nodes_report_each_other_when_discovered() {
    let mut a = Overlay::new();
    let mut b = Overlay::new();
    let ra = a.step(Input::Discovered("node-b".to_string()));
    let rb = b.step(Input::Discovered("node-a".to_string()));
    assert!(matches!(&ra.notice, Some(Notice::PeerDiscovered(p)) if p == "node-b"));
    assert!(matches!(&rb.notice, Some(Notice::PeerDiscovered(p)) if p == "node-a"));
}

#[test]
fn offline_peer_is_reported_expired() {
    let mut a = Overlay::new();
    a.step(Input::Discovered("node-b".to_string()));
    let r = a.step(Input::Expired("node-b".to_string()));
    assert!(matches!(&r.notice, Some(Notice::PeerExpired(p)) if p == "node-b"));
    assert!(!a.is_explicit(&"node-b".to_string()));
}

#[test]
fn unsigned_message_is_never_surfaced() {
    let mut a = Overlay::new();
    let data = b"forged".to_vec();
    let id = message_id(&data);
    let r = a.step(Input::Message(InboundMessage {
        origin: "intruder".to_string(),
        id: id.clone(),
        data: data.clone(),
        signed: false,
    }));
    assert!(r.notice.is_none());
    assert!(r.command.is_none());
    assert!(!a.was_delivered(&id));
    let r = a.step(signed_message("honest", &data));
    assert!(received(&r).is_some());
}

#[test]
fn publishing_twice_sends_twice() {
    let mut a = Overlay::new();
    for _ in 0..2 {
        let r = a.step(Input::Publish("same".to_string()));
        assert!(matches!(&r.command, Some(OverlayCommand::Publish(t)) if t == "same"));
        assert!(r.notice.is_none());
    }
    let mut b = Overlay::new();
    let first = b.step(signed_message("a", b"same"));
    let second = b.step(signed_message("a", b"same"));
    assert!(received(&first).is_some());
    assert!(received(&second).is_none());
}

#[test]
fn invalid_utf8_is_replaced() {
    let mut b = Overlay::new();
    let r = b.step(signed_message("a", &[0x68, 0xff, 0x69]));
    let (text, _, _) = received(&r).unwrap();
    assert_eq!(text, "h\u{FFFD}i");
    let r = b.step(signed_message("a", &[]));
    let (text, _, _) = received(&r).unwrap();
    assert_eq!(text, "");
}

#[test]
fn publish_failure_and_other_events() {
    let mut a = Overlay::new();
    let r = a.step(Input::PublishFailed("InsufficientPeers".to_string()));
    assert!(matches!(&r.notice, Some(Notice::PublishError(e)) if e == "InsufficientPeers"));
    assert!(r.command.is_none());
    let r = a.step(Input::Other);
    assert!(r.notice.is_none() && r.command.is_none());
    let r = a.step(Input::Listening("/ip4/0.0.0.0/tcp/1".to_string()));
    assert!(matches!(&r.notice, Some(Notice::ListeningAddress(x)) if x == "/ip4/0.0.0.0/tcp/1"));
}

#[test]
fn notices_are_described() {
    let n = Notice::MessageReceived {
        text: "hello".to_string(),
        id: "42".to_string(),
        peer: "peer-a".to_string(),
    };
    assert_eq!(n.describe(), "メッセージ受信: 'hello' (id: 42, ピア: peer-a)");
    assert_eq!(Notice::PeerDiscovered("p".to_string()).describe(), "mDNSで新しいピアを発見: p");
    assert_eq!(Notice::PeerExpired("p".to_string()).describe(), "mDNSでピアの有効期限切れ: p");
    assert_eq!(Notice::ListeningAddress("x".to_string()).describe(), "ローカルノードがリッスン中: x");
    assert_eq!(Notice::PublishError("e".to_string()).describe(), "Publish error: e");
}
