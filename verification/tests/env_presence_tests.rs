use photolib::env::resolve_store_env;
use photolib::faces::{contains_face, recognize_faces};
use photolib::presence::{build_presence_payload, PresencePeer};

fn s(v: &str) -> Option<String> {
    Some(v.to_string())
}

#[test]
fn missing_app_id_is_fatal() {
    let r = resolve_store_env(None, None, s("tok"), None, s("auth"), s("ws"));
    assert_eq!(r.unwrap_err(), "Missing DITTO_APP_ID (or DITTO_DATABASE_ID)");
}

#[test]
fn missing_token_is_fatal() {
    let r = resolve_store_env(s("app"), None, None, None, s("auth"), s("ws"));
    assert_eq!(r.unwrap_err(), "Missing DITTO_PLAYGROUND_TOKEN (or DITTO_SHARED_TOKEN)");
}

#[test]
fn missing_auth_url_is_fatal() {
    let r = resolve_store_env(s("app"), None, s("tok"), None, None, s("ws"));
    assert_eq!(r.unwrap_err(), "Missing DITTO_AUTH_URL");
}

#[test]
fn missing_websocket_url_is_fatal() {
    let r = resolve_store_env(s("app"), None, s("tok"), None, s("auth"), None);
    assert_eq!(r.unwrap_err(), "Missing DITTO_WEBSOCKET_URL");
}

#[test]
fn fallbacks_apply_in_order() {
    let r = resolve_store_env(None, s("db-id"), None, s("shared"), s("auth"), s("ws")).unwrap();
    assert_eq!(r.app_id, "db-id");
    assert_eq!(r.playground_token, "shared");
    let r2 = resolve_store_env(s("app-id"), s("db-id"), s("play"), s("shared"), s("auth"), s("ws"))
        .unwrap();
    assert_eq!(r2.app_id, "app-id");
    assert_eq!(r2.playground_token, "play");
    assert_eq!(r2.auth_url, "auth");
    assert_eq!(r2.websocket_url, "ws");
}

fn peer(key: &str, name: &str) -> PresencePeer {
    PresencePeer {
        peer_key: key.to_string(),
        device_name: name.to_string(),
        metadata: "{\"name\":\"user\"}".to_string(),
    }
}

#[test]
fn presence_snapshot_mirrors_the_graph() {
    let local = peer("k-local", "laptop");
    let remotes = vec![peer("k-1", "phone"), peer("k-2", "tablet")];
    let payload = build_presence_payload(&local, &remotes);
    assert_eq!(payload.local_peer.peer_key, "k-local");
    assert_eq!(payload.remote_peers.len(), 2);
    assert_eq!(payload.remote_peers[0].device_name, "phone");
    assert_eq!(payload.remote_peers[1].device_name, "tablet");
    assert_eq!(payload.remote_peers[1].metadata, "{\"name\":\"user\"}");
}

#[test]
fn portable_face_check_reports_no_face() {
    assert_eq!(contains_face("/p/a.jpg"), Ok(false));
}

#[test]
fn recognition_result_is_empty_without_a_face_backend() {
    let r = recognize_faces(
        "/p/target.jpg".to_string(),
        "someone".to_string(),
        vec!["/p/c1.jpg".to_string(), "/p/c2.jpg".to_string()],
    )
    .unwrap();
    assert_eq!(r.matched_paths.len(), 0);
}
