use log_ingest::codec::decode_text;
use log_ingest::event::Log;
use log_ingest::query::{hello, logs_reply, not_found, reply_for_rendered, route, Route};
use log_ingest::receiver::{receiver_step, ReceiverAction, ReceiverEvent, ReceiverState};
use log_ingest::store::StoreError;

#[test]
fn routes_known_paths() {
    assert_eq!(route("/logs"), Route::Logs);
    assert_eq!(route("/hello"), Route::Hello);
}

#[test]
fn unknown_paths_are_not_found() {
    for p in ["/", "", "/logs/", "/LOGS", "/log", "/logsx", "/hello/world", "logs"] {
        assert_eq!(route(p), Route::NotFound, "{}", p);
    }
}

#[test]
fn not_found_reply() {
    let r = not_found();
    assert_eq!(r.status, 404);
    assert_eq!(r.body, "Not Found");
}

#[test]
fn hello_reply() {
    let r = hello();
    assert_eq!(r.status, 200);
    assert_eq!(r.body, "Hello World!");
}

#[test]
fn store_failure_gives_server_error() {
    let r = logs_reply(Err(StoreError::Read));
    assert_eq!(r.status, 500);
    assert_eq!(r.body, "Error getting logs");
}

#[test]
fn render_failure_gives_server_error() {
    let r = reply_for_rendered(None);
    assert_eq!(r.status, 500);
    assert_eq!(r.body, "Error converting logs to JSON");
    let r = reply_for_rendered(Some("[]".to_string()));
    assert_eq!(r.status, 200);
    assert_eq!(r.body, "[]");
}

#[test]
fn empty_store_gives_empty_array() {
    let r = logs_reply(Ok(Vec::new()));
    assert_eq!(r.status, 200);
    assert_eq!(r.body, "[]");
}

#[test]
fn stored_events_are_served() {
    let sent = r#"{"timestamp":"2024-01-01T00:00:00Z","app":"svc","host":"h1","filename":"a.log","log":"boot ok"}"#;
    let prior = Log::new("t0".to_string(), "a0".to_string(), "h0".to_string(), "f0".to_string(), "l0".to_string());
    let r = logs_reply(Ok(vec![prior, decode_text(sent).unwrap()]));
    assert_eq!(r.status, 200);
    let got: serde_json::Value = serde_json::from_str(&r.body).unwrap();
    let items = got.as_array().unwrap();
    assert_eq!(items.len(), 2);
    let expected: serde_json::Value = serde_json::from_str(sent).unwrap();
    assert_eq!(items[1], expected);
}

#[test]
fn not_json_then_valid_send_is_served_alone() {
    let sent = r#"{"timestamp":"2024-01-01T00:00:00Z","app":"svc","host":"h1","filename":"a.log","log":"boot ok"}"#;
    let mut stored: Vec<Log> = Vec::new();
    let mut state = ReceiverState::Listening;
    for payload in [b"not json".to_vec(), sent.as_bytes().to_vec()] {
        let (next, action) = receiver_step(state, &ReceiverEvent::Datagram(payload));
        if let ReceiverAction::Persist(e) = action {
            stored.push(e);
        }
        state = next;
    }
    let r = logs_reply(Ok(stored));
    assert_eq!(r.status, 200);
    let got: serde_json::Value = serde_json::from_str(&r.body).unwrap();
    let expected: serde_json::Value = serde_json::from_str(&format!("[{}]", sent)).unwrap();
    assert_eq!(got, expected);
}
