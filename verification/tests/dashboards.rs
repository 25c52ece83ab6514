use be_strom::data_source::MqttReader;
use be_strom::device_dashboard::{
    device_label, update_age_text, AppState, LinkAction, LinkEvent, Placeholder,
};
use be_strom::sensor_dashboard::{footer_text, SensorAction, SensorData, SensorEvent};

fn fresh() -> AppState<u32, u64> {
    AppState::new("localhost".to_string(), 1883, "be-strom/data".to_string())
}

#[test]
fn new_state_is_empty() {
    let s = fresh();
    assert_eq!(s.data, None);
    assert!(!s.connected);
    assert_eq!(s.last_update, None);
    assert_eq!(s.last_error, None);
    assert_eq!(s.host, "localhost");
    assert_eq!(s.port, 1883);
    assert_eq!(s.topic, "be-strom/data");
}

#[test]
fn subscribe_failure_is_recorded() {
    let mut s = fresh();
    let a = s.apply(LinkEvent::SubscribeFailed("queue full".to_string()));
    assert!(matches!(a, LinkAction::RetryLater));
    assert_eq!(s.last_error.as_deref(), Some("subscribe: queue full"));
    assert!(!s.connected);
}

#[test]
fn connack_connects_and_clears_error() {
    let mut s = fresh();
    s.apply(LinkEvent::ConnectionError("refused".to_string()));
    assert_eq!(s.last_error.as_deref(), Some("refused"));
    let a = s.apply(LinkEvent::ConnAck);
    assert!(matches!(a, LinkAction::Poll));
    assert!(s.connected);
    assert_eq!(s.last_error, None);
}

#[test]
fn payload_goes_to_decoding() {
    let mut s = fresh();
    match s.apply(LinkEvent::Payload(b"{\"device\":\"x\"}".to_vec())) {
        LinkAction::Decode(t) => assert_eq!(t, "{\"device\":\"x\"}"),
        _ => panic!("expected a decode"),
    }
    assert!(matches!(s.apply(LinkEvent::Payload(vec![0xff])), LinkAction::SkipInvalidText));
    assert_eq!(s.data, None);
}

#[test]
fn decoded_snapshot_is_shown() {
    let mut s = fresh();
    assert!(matches!(s.apply(LinkEvent::Decoded(5, 100)), LinkAction::Poll));
    assert_eq!(s.data, Some(5));
    assert_eq!(s.last_update, Some(100));
    assert!(matches!(s.apply(LinkEvent::DecodeFailed), LinkAction::Poll));
    assert_eq!(s.data, Some(5));
}

#[test]
fn connection_error_and_close() {
    let mut s = fresh();
    s.apply(LinkEvent::ConnAck);
    s.apply(LinkEvent::Decoded(9, 1));
    let a = s.apply(LinkEvent::ConnectionError("reset by peer".to_string()));
    assert!(matches!(a, LinkAction::Disconnect));
    assert!(!s.connected);
    assert_eq!(s.last_error.as_deref(), Some("reset by peer"));
    assert_eq!(s.data, Some(9));
    let a = s.apply(LinkEvent::Closed);
    assert!(matches!(a, LinkAction::RetryLater));
    assert!(!s.connected);
    assert!(matches!(s.apply(LinkEvent::Other), LinkAction::Poll));
}

#[test]
fn latest_snapshot_wins_over_a_session() {
    let mut s = fresh();
    let events = vec![
        LinkEvent::ConnAck,
        LinkEvent::Decoded(1, 10),
        LinkEvent::DecodeFailed,
        LinkEvent::ConnectionError("e".to_string()),
        LinkEvent::Closed,
        LinkEvent::SubscribeFailed("s".to_string()),
        LinkEvent::ConnAck,
        LinkEvent::Decoded(2, 20),
        LinkEvent::Payload(vec![0xfe]),
        LinkEvent::Other,
    ];
    for e in events {
        s.apply(e);
    }
    assert_eq!(s.data, Some(2));
    assert_eq!(s.last_update, Some(20));
    assert!(s.connected);
    assert_eq!(s.last_error, None);
    assert_eq!(s.host, "localhost");
    assert_eq!(s.port, 1883);
    assert_eq!(s.topic, "be-strom/data");
}

#[test]
fn badge() {
    let mut s = fresh();
    assert_eq!(s.connection_badge(), "● Disconnected");
    s.apply(LinkEvent::ConnAck);
    assert_eq!(s.connection_badge(), "● Connected");
}

#[test]
fn placeholder_texts() {
    let mut s = AppState::<u32, u64>::new("10.0.0.2".to_string(), 1884, "t/x".to_string());
    match s.placeholder() {
        Placeholder::NotConnected { target, warning } => {
            assert_eq!(target, "Connecting to mqtt://10.0.0.2:1884 …");
            assert_eq!(warning, None);
        }
        _ => panic!("expected not connected"),
    }
    s.apply(LinkEvent::ConnectionError("timed out".to_string()));
    match s.placeholder() {
        Placeholder::NotConnected { warning, .. } => {
            assert_eq!(warning.as_deref(), Some("⚠  timed out"))
        }
        _ => panic!("expected not connected"),
    }
    s.apply(LinkEvent::ConnAck);
    match s.placeholder() {
        Placeholder::Waiting { subscription } => assert_eq!(subscription, "Subscribed to 't/x'"),
        _ => panic!("expected waiting"),
    }
}

#[test]
fn age_texts() {
    assert_eq!(update_age_text(0), "Updated just now");
    assert_eq!(update_age_text(1), "Updated 1s ago");
    assert_eq!(update_age_text(125), "Updated 125s ago");
}

#[test]
fn device_labels() {
    assert_eq!(device_label(""), None);
    assert_eq!(device_label("UR20-3EM").as_deref(), Some("🖥  UR20-3EM"));
}

#[test]
fn sensor_initial_state() {
    let s = SensorData::<f32, u64>::new();
    assert_eq!(s.temperature_c, None);
    assert_eq!(s.humidity_pct, None);
    assert_eq!(s.last_update, None);
    assert_eq!(s.status, "Waiting for data…");
    assert!(!s.is_connected());
}

#[test]
fn sensor_session() {
    let mut s = SensorData::<f32, u64>::new();
    let a = s.apply(SensorEvent::Connecting { host: "localhost".to_string(), port: 1883 });
    assert!(matches!(a, SensorAction::Subscribe));
    assert_eq!(s.status, "Connecting to localhost:1883 …");
    assert!(matches!(s.apply(SensorEvent::ConnAck), SensorAction::Poll));
    assert_eq!(s.status, "Connected");
    assert!(s.is_connected());
    match s.apply(SensorEvent::Payload(b"{\"temperature_c\":21.5,\"humidity_pct\":55.0}".to_vec())) {
        SensorAction::Decode(t) => assert_eq!(t, "{\"temperature_c\":21.5,\"humidity_pct\":55.0}"),
        _ => panic!("expected a decode"),
    }
    let a = s.apply(SensorEvent::Reading { temperature_c: 21.5, humidity_pct: 55.0, at: 7 });
    assert!(matches!(a, SensorAction::Poll));
    assert_eq!(s.temperature_c, Some(21.5));
    assert_eq!(s.humidity_pct, Some(55.0));
    assert_eq!(s.last_update, Some(7));
    assert_eq!(s.status, "Connected");
    assert!(matches!(s.apply(SensorEvent::Payload(vec![0xc0, 0x80])), SensorAction::Poll));
    assert_eq!(s.status, "Error: payload is not valid UTF-8");
    assert!(!s.is_connected());
    s.apply(SensorEvent::DecodeFailed("expected value at line 1".to_string()));
    assert_eq!(s.status, "JSON parse error: expected value at line 1");
    let a = s.apply(SensorEvent::ConnectionError("reset".to_string()));
    assert!(matches!(a, SensorAction::PauseThenPoll));
    assert_eq!(s.status, "Connection error: reset");
    assert_eq!(s.temperature_c, Some(21.5));
    assert!(matches!(s.apply(SensorEvent::Other), SensorAction::Poll));
    assert_eq!(s.status, "Connection error: reset");
}

#[test]
fn sensor_subscribe_failure_stops() {
    let mut s = SensorData::<f32, u64>::new();
    let a = s.apply(SensorEvent::SubscribeFailed("closed".to_string()));
    assert!(matches!(a, SensorAction::Stop));
    assert_eq!(s.status, "Subscribe error: closed");
}

#[test]
fn sensor_latest_reading_wins() {
    let mut s = SensorData::<f32, u64>::new();
    s.apply(SensorEvent::Reading { temperature_c: 20.0, humidity_pct: 50.0, at: 1 });
    s.apply(SensorEvent::DecodeFailed("x".to_string()));
    s.apply(SensorEvent::Reading { temperature_c: 22.0, humidity_pct: 40.0, at: 2 });
    s.apply(SensorEvent::ConnectionError("y".to_string()));
    assert_eq!(s.temperature_c, Some(22.0));
    assert_eq!(s.humidity_pct, Some(40.0));
    assert_eq!(s.last_update, Some(2));
}

#[test]
fn footers() {
    assert_eq!(footer_text(None), "No data yet");
    assert_eq!(footer_text(Some(0)), "Last update: 0s ago");
    assert_eq!(footer_text(Some(12)), "Last update: 12s ago");
}

#[test]
fn reader_has_a_name() {
    let r = MqttReader { name: "mqtt-1".to_string() };
    assert_eq!(r.name, "mqtt-1");
}
