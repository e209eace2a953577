use policy_casbin::cluster::{
    announcement_payload, peer_fingerprint, read_announcement, should_poke,
};

fn text(s: &str) -> String {
    s.to_string()
}

#[test]
fn an_announcement_announces_its_fingerprint() {
    let payload = announcement_payload("0.1.0", "sha256:\"abc\"\n", "node-1");
    assert_eq!(
        peer_fingerprint(payload.as_slice()),
        Some(text("sha256:\"abc\"\n"))
    );
    let document: serde_json::Value = serde_json::from_slice(payload.as_slice()).unwrap();
    assert_eq!(
        document.get("plugin_id").and_then(|v| v.as_str()),
        Some("dev.mcpg.policy.casbin")
    );
    assert_eq!(document.get("version").and_then(|v| v.as_str()), Some("0.1.0"));
    assert_eq!(document.get("node_id").and_then(|v| v.as_str()), Some("node-1"));
    assert_eq!(document.as_object().map(|members| members.len()), Some(4));
}

#[test]
fn payloads_without_a_fingerprint_announce_none() {
    assert_eq!(peer_fingerprint(b"not json"), None);
    assert_eq!(peer_fingerprint(b"[\"fingerprint\"]"), None);
    assert_eq!(peer_fingerprint(b"{}"), None);
    assert_eq!(peer_fingerprint(b"{\"fingerprint\": 7}"), None);
    assert_eq!(peer_fingerprint(b"{\"fingerprint\": \"x\"} y"), None);
    assert_eq!(peer_fingerprint(b"{\"fingerprint\": \"x\"}"), Some(text("x")));
}

#[test]
fn another_fingerprint_pokes() {
    assert!(should_poke(&Some(text("a")), &text("b")));
    assert!(!should_poke(&Some(text("a")), &text("a")));
    assert!(should_poke(&None, &text("a")));
}

#[test]
fn a_node_reads_its_peers_and_not_itself() {
    let payload = announcement_payload("0.1.0", "f1", "n1");
    let bytes = payload.as_slice();
    assert!(read_announcement(&text("n1"), &text("n1"), bytes, &text("f2")).is_none());
    let news = read_announcement(&text("n1"), &text("n2"), bytes, &text("f2")).unwrap();
    assert_eq!(news.fingerprint, Some(text("f1")));
    assert!(news.poke);
    let news = read_announcement(&text("n1"), &text("n2"), bytes, &text("f1")).unwrap();
    assert!(!news.poke);
    let news = read_announcement(&text("n1"), &text("n2"), b"", &text("f1")).unwrap();
    assert_eq!(news.fingerprint, None);
    assert!(news.poke);
}
