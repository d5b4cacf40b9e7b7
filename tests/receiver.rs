use log_ingest::codec::{encode_log, DecodeError};
use log_ingest::event::Log;
use log_ingest::receiver::{receiver_step, ReceiverAction, ReceiverEvent, ReceiverState};

const EXAMPLE: &str =
    r#"{"timestamp":"2024-01-01T00:00:00Z","app":"svc","host":"h1","filename":"a.log","log":"boot ok"}"#;

fn datagram(text: &str) -> ReceiverEvent {
    ReceiverEvent::Datagram(text.as_bytes().to_vec())
}

fn persisted(action: ReceiverAction) -> Log {
    match action {
        ReceiverAction::Persist(e) => e,
        _ => panic!("expected an event to persist"),
    }
}

#[test]
fn valid_datagram_is_persisted() {
    let (state, action) = receiver_step(ReceiverState::Listening, &datagram(EXAMPLE));
    assert_eq!(state, ReceiverState::Listening);
    let e = persisted(action);
    assert_eq!(e.timestamp, "2024-01-01T00:00:00Z");
    assert_eq!(e.app, "svc");
    assert_eq!(e.host, "h1");
    assert_eq!(e.filename, "a.log");
    assert_eq!(e.log, "boot ok");
    let (state, action) = receiver_step(state, &ReceiverEvent::Stored);
    assert_eq!(state, ReceiverState::Listening);
    assert!(matches!(action, ReceiverAction::Receive));
}

#[test]
fn not_json_is_dropped_and_next_send_succeeds() {
    let (state, action) = receiver_step(ReceiverState::Listening, &ReceiverEvent::Datagram(b"not json".to_vec()));
    assert_eq!(state, ReceiverState::Listening);
    assert!(matches!(action, ReceiverAction::Reject(DecodeError::NotStringObject)));
    let (state, action) = receiver_step(state, &datagram(EXAMPLE));
    assert_eq!(state, ReceiverState::Listening);
    assert_eq!(persisted(action).log, "boot ok");
}

#[test]
fn malformed_datagrams_never_persist() {
    let bad: Vec<Vec<u8>> = vec![
        vec![0xc3, 0x28],
        b"{}".to_vec(),
        br#"{"timestamp":"t","app":"a","host":"h","filename":"f"}"#.to_vec(),
        br#"{"timestamp":"t","app":"a","host":"h","filename":"f","log":"l","x":"y"}"#.to_vec(),
        br#"{"timestamp":1,"app":"a","host":"h","filename":"f","log":"l"}"#.to_vec(),
    ];
    let mut state = ReceiverState::Listening;
    for b in bad {
        let (next, action) = receiver_step(state, &ReceiverEvent::Datagram(b));
        assert_eq!(next, ReceiverState::Listening);
        assert!(matches!(action, ReceiverAction::Reject(_)));
        state = next;
    }
}

#[test]
fn waiting_and_write_failures_keep_listening() {
    let (state, action) = receiver_step(ReceiverState::Listening, &ReceiverEvent::NotReady);
    assert_eq!(state, ReceiverState::Listening);
    assert!(matches!(action, ReceiverAction::Receive));
    let (state, action) = receiver_step(state, &ReceiverEvent::StoreFailed);
    assert_eq!(state, ReceiverState::Listening);
    assert!(matches!(action, ReceiverAction::ReportStoreFailure));
}

#[test]
fn transport_failure_stops_for_good() {
    let (state, action) = receiver_step(ReceiverState::Listening, &ReceiverEvent::TransportFailed);
    assert_eq!(state, ReceiverState::Stopped);
    assert!(matches!(action, ReceiverAction::Stop));
    let (state, action) = receiver_step(state, &datagram(EXAMPLE));
    assert_eq!(state, ReceiverState::Stopped);
    assert!(matches!(action, ReceiverAction::Stop));
}

#[test]
fn all_events_persist_in_any_arrival_order() {
    let texts: Vec<String> = (0..8)
        .map(|i| {
            let e = Log::new(format!("t{}", i), format!("app{}", i), format!("host{}", i), "f".to_string(), "l".to_string());
            encode_log(&e)
        })
        .collect();
    let orders: [Vec<usize>; 2] = [(0..8).collect(), vec![5, 2, 7, 0, 3, 6, 1, 4]];
    for order in orders.iter() {
        let mut state = ReceiverState::Listening;
        let mut hosts: Vec<String> = Vec::new();
        for &i in order {
            let (next, action) = receiver_step(state, &datagram(&texts[i]));
            hosts.push(persisted(action).host);
            let (next, _) = receiver_step(next, &ReceiverEvent::Stored);
            state = next;
        }
        assert_eq!(hosts.len(), 8);
        hosts.sort();
        let expected: Vec<String> = (0..8).map(|i| format!("host{}", i)).collect();
        assert_eq!(hosts, expected);
    }
}
