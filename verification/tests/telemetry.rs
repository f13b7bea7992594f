use hwmonitor::ingest::{classify, Action, Connection, Event, Incoming};
use hwmonitor::telemetry::TelemetryState;

fn frame(text: &str) -> Event {
    Event::Frame(text.to_string())
}

#[test]
fn sentinel_before_any_ingestion() {
    let state = TelemetryState::new();
    assert_eq!(state.get_temperature(), "-1");
}

#[test]
fn set_replaces_the_stored_value() {
    let mut state = TelemetryState::new();
    state.set_temperature("12.0".to_string());
    assert_eq!(state.get_temperature(), "12.0");
    state.set_temperature(String::new());
    assert_eq!(state.get_temperature(), "");
}

#[test]
fn get_does_not_change_the_value() {
    let mut state = TelemetryState::new();
    state.set_temperature("30".to_string());
    assert_eq!(state.get_temperature(), "30");
    assert_eq!(state.get_temperature(), "30");
}

#[test]
fn one_frame_then_disconnect() {
    let mut state = TelemetryState::new();
    let mut connection = Connection::accept();
    assert!(connection.is_open());
    assert_eq!(connection.on_event(&mut state, frame("47.5")), Action::AwaitNext);
    assert_eq!(connection.on_event(&mut state, Event::End), Action::Finish);
    assert!(!connection.is_open());
    assert_eq!(state.get_temperature(), "47.5");
}

#[test]
fn frames_on_one_connection_apply_in_order() {
    let mut state = TelemetryState::new();
    let mut connection = Connection::accept();
    let frames = ["40.0", "41.5", "39.9", "52.25"];
    for (n, text) in frames.iter().enumerate() {
        assert_eq!(connection.on_event(&mut state, frame(text)), Action::AwaitNext);
        assert_eq!(state.get_temperature(), frames[n]);
    }
    assert!(connection.is_open());
    assert_eq!(state.get_temperature(), "52.25");
}

#[test]
fn frames_are_not_validated() {
    let mut state = TelemetryState::new();
    let mut connection = Connection::accept();
    connection.on_event(&mut state, frame("not a number"));
    assert_eq!(state.get_temperature(), "not a number");
    connection.on_event(&mut state, frame(""));
    assert_eq!(state.get_temperature(), "");
    connection.on_event(&mut state, frame("-1"));
    assert_eq!(state.get_temperature(), "-1");
}

#[test]
fn equal_frames_are_each_applied() {
    let mut state = TelemetryState::new();
    let mut connection = Connection::accept();
    assert_eq!(connection.on_event(&mut state, frame("50")), Action::AwaitNext);
    assert_eq!(connection.on_event(&mut state, frame("50")), Action::AwaitNext);
    assert_eq!(state.get_temperature(), "50");
}

#[test]
fn interleaved_connections_last_write_wins() {
    let mut state = TelemetryState::new();
    let mut a = Connection::accept();
    let mut b = Connection::accept();
    a.on_event(&mut state, frame("a1"));
    assert_eq!(state.get_temperature(), "a1");
    b.on_event(&mut state, frame("b1"));
    assert_eq!(state.get_temperature(), "b1");
    b.on_event(&mut state, frame("b2"));
    assert_eq!(state.get_temperature(), "b2");
    a.on_event(&mut state, frame("a2"));
    assert_eq!(state.get_temperature(), "a2");
}

#[test]
fn interleaved_connections_other_order() {
    let mut state = TelemetryState::new();
    let mut a = Connection::accept();
    let mut b = Connection::accept();
    a.on_event(&mut state, frame("a1"));
    a.on_event(&mut state, frame("a2"));
    b.on_event(&mut state, frame("b1"));
    assert_eq!(state.get_temperature(), "b1");
}

#[test]
fn decode_failure_ends_only_its_connection() {
    let mut state = TelemetryState::new();
    let mut a = Connection::accept();
    let mut b = Connection::accept();
    a.on_event(&mut state, frame("20"));
    assert_eq!(a.on_event(&mut state, Event::DecodeFailed), Action::Abort);
    assert!(!a.is_open());
    assert_eq!(state.get_temperature(), "20");
    assert!(b.is_open());
    assert_eq!(b.on_event(&mut state, frame("21")), Action::AwaitNext);
    assert_eq!(state.get_temperature(), "21");
}

#[test]
fn decode_failure_before_any_frame_keeps_the_sentinel() {
    let mut state = TelemetryState::new();
    let mut connection = Connection::accept();
    assert_eq!(connection.on_event(&mut state, Event::DecodeFailed), Action::Abort);
    assert_eq!(state.get_temperature(), "-1");
}

#[test]
fn closed_connection_applies_nothing() {
    let mut state = TelemetryState::new();
    let mut connection = Connection::accept();
    connection.on_event(&mut state, frame("33"));
    connection.on_event(&mut state, Event::End);
    assert_eq!(connection.on_event(&mut state, frame("99")), Action::Finish);
    assert_eq!(connection.on_event(&mut state, Event::DecodeFailed), Action::Finish);
    assert_eq!(connection.on_event(&mut state, Event::End), Action::Finish);
    assert!(!connection.is_open());
    assert_eq!(state.get_temperature(), "33");
}

#[test]
fn end_without_frames_keeps_the_sentinel() {
    let mut state = TelemetryState::new();
    let mut connection = Connection::accept();
    assert_eq!(connection.on_event(&mut state, Event::End), Action::Finish);
    assert_eq!(state.get_temperature(), "-1");
}

fn frame_text(event: Event) -> String {
    match event {
        Event::Frame(text) => text,
        _ => panic!("not a frame"),
    }
}

#[test]
fn text_message_is_a_frame_as_it_stands() {
    assert_eq!(frame_text(classify(Incoming::Text("47.5".to_string()))), "47.5");
    assert_eq!(frame_text(classify(Incoming::Text(String::new()))), "");
}

#[test]
fn bytes_that_are_text_display_as_that_text() {
    assert_eq!(frame_text(classify(Incoming::Binary(b"36.6".to_vec()))), "36.6");
    assert_eq!(frame_text(classify(Incoming::Ping(b"hi".to_vec()))), "hi");
    assert_eq!(frame_text(classify(Incoming::Pong(Vec::new()))), "");
}

#[test]
fn bytes_that_are_no_text_display_their_length() {
    assert_eq!(
        frame_text(classify(Incoming::Binary(vec![0xff, 0xfe, 0xfd]))),
        "Binary Data<length=3>"
    );
    assert_eq!(frame_text(classify(Incoming::Ping(vec![0x80]))), "Binary Data<length=1>");
}

#[test]
fn closing_handshake_ends_the_stream() {
    assert!(matches!(classify(Incoming::Close), Event::End));
}

#[test]
fn clean_disconnect_keeps_the_last_frame() {
    let mut state = TelemetryState::new();
    let mut connection = Connection::accept();
    let sent = classify(Incoming::Text("47.5".to_string()));
    assert_eq!(connection.on_event(&mut state, sent), Action::AwaitNext);
    assert_eq!(connection.on_event(&mut state, classify(Incoming::Close)), Action::Finish);
    assert_eq!(connection.on_event(&mut state, Event::End), Action::Finish);
    assert!(!connection.is_open());
    assert_eq!(state.get_temperature(), "47.5");
}
