//! State of the room-sensor dashboard: the latest temperature and humidity, when
//! they came, and a status line, with how each MQTT link event changes them.

use vstd::prelude::*;
use vstd::string::*;
use vstd::utf8::*;

use crate::decimal::{decimal, push_decimal};
use crate::text::payload_text;

verus! {

/// What the sensor dashboard shows: the latest temperature and humidity
/// readings (`V`), when they came (`T`), and a status line.
pub struct SensorData<V, T> {
    pub temperature_c: Option<V>,
    pub humidity_pct: Option<V>,
    pub last_update: Option<T>,
    pub status: String,
}

/// [`SensorData`] with its status as a character sequence.
pub struct SensorDataView<V, T> {
    pub temperature_c: Option<V>,
    pub humidity_pct: Option<V>,
    pub last_update: Option<T>,
    pub status: Seq<char>,
}

impl<V, T> View for SensorData<V, T> {
    type V = SensorDataView<V, T>;

    open spec fn view(&self) -> SensorDataView<V, T> {
        SensorDataView {
            temperature_c: self.temperature_c,
            humidity_pct: self.humidity_pct,
            last_update: self.last_update,
            status: self.status@,
        }
    }
}

/// What the MQTT link reports to the sensor dashboard.
pub enum SensorEvent<V, T> {
    /// The link starts connecting to this broker.
    Connecting { host: String, port: u16 },
    /// The subscription request was refused; the error's text.
    SubscribeFailed(String),
    /// The broker acknowledged the connection.
    ConnAck,
    /// A message arrived on the topic; its raw payload.
    Payload(Vec<u8>),
    /// A payload's text was decoded into a reading, at the given instant.
    Reading { temperature_c: V, humidity_pct: V, at: T },
    /// A payload's text could not be decoded as a reading; the error's text.
    DecodeFailed(String),
    /// The connection failed; the error's text.
    ConnectionError(String),
    /// Any other notification.
    Other,
}

/// What the link should do next.
pub enum SensorAction {
    /// Send the subscription request.
    Subscribe,
    /// Wait for the next notification.
    Poll,
    /// Decode this payload text as a reading and report the outcome.
    Decode(String),
    /// Pause briefly, then wait for the next notification.
    PauseThenPoll,
    /// Give up: the link ends.
    Stop,
}

/// The state after one link event.
pub open spec fn next_sensor_state<V, T>(s: SensorDataView<V, T>, e: SensorEvent<V, T>) -> SensorDataView<V, T> {
    match e {
        SensorEvent::Connecting { host, port } => SensorDataView {
            status: "Connecting to "@ + host@ + ":"@ + decimal(port as nat) + " …"@,
            ..s
        },
        SensorEvent::SubscribeFailed(msg) => SensorDataView {
            status: "Subscribe error: "@ + msg@,
            ..s
        },
        SensorEvent::ConnAck => SensorDataView { status: "Connected"@, ..s },
        SensorEvent::Payload(bytes) => if valid_utf8(bytes@) {
            s
        } else {
            SensorDataView { status: "Error: payload is not valid UTF-8"@, ..s }
        },
        SensorEvent::Reading { temperature_c, humidity_pct, at } => SensorDataView {
            temperature_c: Some(temperature_c),
            humidity_pct: Some(humidity_pct),
            last_update: Some(at),
            status: "Connected"@,
        },
        SensorEvent::DecodeFailed(msg) => SensorDataView {
            status: "JSON parse error: "@ + msg@,
            ..s
        },
        SensorEvent::ConnectionError(msg) => SensorDataView {
            status: "Connection error: "@ + msg@,
            ..s
        },
        SensorEvent::Other => s,
    }
}

impl<V, T> SensorData<V, T> {
    /// The state before the link starts: no readings, status `Waiting for data…`.
    pub fn new() -> (s: Self)
        ensures
            s@ == (SensorDataView::<V, T> {
                temperature_c: None,
                humidity_pct: None,
                last_update: None,
                status: "Waiting for data…"@,
            }),
    {
        SensorData {
            temperature_c: None,
            humidity_pct: None,
            last_update: None,
            status: String::from_str("Waiting for data…"),
        }
    }

    /// Applies one link event and says what the link does next: connecting sets
    /// the status to the broker being reached and subscribes; a refused
    /// subscription shows the error and ends the link; an acknowledged
    /// connection shows `Connected`; a UTF-8 payload is handed on for decoding
    /// and any other payload shows an error; a decoded reading replaces both
    /// values and their time and shows `Connected`; a failed decode or a
    /// connection error shows the error, the latter pausing before the next
    /// notification.
    pub fn apply(&mut self, event: SensorEvent<V, T>) -> (action: SensorAction)
        ensures
            final(self)@ == next_sensor_state(old(self)@, event),
            match event {
                SensorEvent::Connecting { .. } => action is Subscribe,
                SensorEvent::SubscribeFailed(_) => action is Stop,
                SensorEvent::Payload(bytes) => {
                    &&& valid_utf8(bytes@) ==> (action matches SensorAction::Decode(t) && t@
                        == decode_utf8(bytes@))
                    &&& !valid_utf8(bytes@) ==> action is Poll
                },
                SensorEvent::ConnectionError(_) => action is PauseThenPoll,
                _ => action is Poll,
            },
    {
        match event {
            SensorEvent::Connecting { host, port } => {
                let mut status = String::from_str("Connecting to ");
                status.append(host.as_str());
                status.append(":");
                push_decimal(&mut status, port as u64);
                status.append(" …");
                self.status = status;
                SensorAction::Subscribe
            },
            SensorEvent::SubscribeFailed(msg) => {
                let mut status = String::from_str("Subscribe error: ");
                status.append(msg.as_str());
                self.status = status;
                SensorAction::Stop
            },
            SensorEvent::ConnAck => {
                self.status = String::from_str("Connected");
                SensorAction::Poll
            },
            SensorEvent::Payload(bytes) => match payload_text(bytes) {
                Some(text) => SensorAction::Decode(text),
                None => {
                    self.status = String::from_str("Error: payload is not valid UTF-8");
                    SensorAction::Poll
                },
            },
            SensorEvent::Reading { temperature_c, humidity_pct, at } => {
                self.temperature_c = Some(temperature_c);
                self.humidity_pct = Some(humidity_pct);
                self.last_update = Some(at);
                self.status = String::from_str("Connected");
                SensorAction::Poll
            },
            SensorEvent::DecodeFailed(msg) => {
                let mut status = String::from_str("JSON parse error: ");
                status.append(msg.as_str());
                self.status = status;
                SensorAction::Poll
            },
            SensorEvent::ConnectionError(msg) => {
                let mut status = String::from_str("Connection error: ");
                status.append(msg.as_str());
                self.status = status;
                SensorAction::PauseThenPoll
            },
            SensorEvent::Other => SensorAction::Poll,
        }
    }

    /// Whether the status line reads exactly `Connected` (the status dot is
    /// green then, red otherwise).
    pub fn is_connected(&self) -> (up: bool)
        ensures
            up == (self.status@ == "Connected"@),
    {
        let connected = String::from_str("Connected");
        self.status == connected
    }
}

/// The footer: `Last update: <secs>s ago` once a reading has arrived (given how
/// many whole seconds ago), `No data yet` before.
pub fn footer_text(age_secs: Option<u64>) -> (text: String)
    ensures
        text@ == match age_secs {
            Some(secs) => "Last update: "@ + decimal(secs as nat) + "s ago"@,
            None => "No data yet"@,
        },
{
    match age_secs {
        Some(secs) => {
            let mut text = String::from_str("Last update: ");
            push_decimal(&mut text, secs);
            text.append("s ago");
            text
        },
        None => String::from_str("No data yet"),
    }
}

/// The state after a run of link events, applied in order.
pub open spec fn replay_sensor<V, T>(s: SensorDataView<V, T>, events: Seq<SensorEvent<V, T>>) -> SensorDataView<V, T>
    decreases events.len(),
{
    if events.len() == 0 {
        s
    } else {
        next_sensor_state(replay_sensor(s, events.drop_last()), events.last())
    }
}

/// The latest decoded reading in a run of events: temperature, humidity and
/// arrival time.
pub open spec fn latest_reading<V, T>(events: Seq<SensorEvent<V, T>>) -> Option<(V, V, T)>
    decreases events.len(),
{
    if events.len() == 0 {
        None
    } else {
        match events.last() {
            SensorEvent::Reading { temperature_c, humidity_pct, at } => Some(
                (temperature_c, humidity_pct, at),
            ),
            _ => latest_reading(events.drop_last()),
        }
    }
}

/// The dashboard shows the latest decoded reading and its time; errors and
/// status changes since leave the values as they were.
pub proof fn law_shows_latest_reading<V, T>(s: SensorDataView<V, T>, events: Seq<SensorEvent<V, T>>)
    ensures
        replay_sensor(s, events).temperature_c == match latest_reading(events) {
            Some(r) => Some(r.0),
            None => s.temperature_c,
        },
        replay_sensor(s, events).humidity_pct == match latest_reading(events) {
            Some(r) => Some(r.1),
            None => s.humidity_pct,
        },
        replay_sensor(s, events).last_update == match latest_reading(events) {
            Some(r) => Some(r.2),
            None => s.last_update,
        },
    decreases events.len(),
{
    if events.len() > 0 {
        law_shows_latest_reading(s, events.drop_last());
    }
}

/// Temperature, humidity and their time are present together or absent
/// together, from the initial state on.
pub proof fn law_reading_fields_together<V, T>(s: SensorDataView<V, T>, events: Seq<SensorEvent<V, T>>)
    requires
        s.temperature_c is Some == s.humidity_pct is Some,
        s.temperature_c is Some == s.last_update is Some,
    ensures
        replay_sensor(s, events).temperature_c is Some == replay_sensor(s, events).humidity_pct is Some,
        replay_sensor(s, events).temperature_c is Some == replay_sensor(s, events).last_update is Some,
    decreases events.len(),
{
    if events.len() > 0 {
        law_reading_fields_together(s, events.drop_last());
    }
}

/// A decoded reading always shows `Connected`, whatever the status was before
/// (a failed decode, a connection error, an invalid payload), and it replaces
/// both values and their time.
pub proof fn law_reading_shows_connected<V, T>(
    s: SensorDataView<V, T>,
    temperature_c: V,
    humidity_pct: V,
    at: T,
)
    ensures
        ({
            let n = next_sensor_state(s, SensorEvent::Reading { temperature_c, humidity_pct, at });
            &&& n.status == "Connected"@
            &&& n.temperature_c == Some(temperature_c)
            &&& n.humidity_pct == Some(humidity_pct)
            &&& n.last_update == Some(at)
        }),
{
}

/// After any run of events that ends with a decoded reading, the status line
/// reads `Connected`.
pub proof fn law_status_connected_after_reading<V, T>(
    s: SensorDataView<V, T>,
    events: Seq<SensorEvent<V, T>>,
)
    requires
        events.len() > 0,
        events.last() is Reading,
    ensures
        replay_sensor(s, events).status == "Connected"@,
{
}

/// An acknowledged connection shows `Connected` and keeps the readings.
pub proof fn law_connack_shows_connected<V, T>(s: SensorDataView<V, T>)
    ensures
        next_sensor_state(s, SensorEvent::ConnAck).status == "Connected"@,
        next_sensor_state(s, SensorEvent::ConnAck).temperature_c == s.temperature_c,
        next_sensor_state(s, SensorEvent::ConnAck).humidity_pct == s.humidity_pct,
        next_sensor_state(s, SensorEvent::ConnAck).last_update == s.last_update,
{
}

/// A failure shows its error's text behind a fixed prefix and keeps the
/// readings: a failed decode, a connection error, a refused subscription.
pub proof fn law_failures_show_their_error<V, T>(s: SensorDataView<V, T>, msg: String)
    ensures
        next_sensor_state(s, SensorEvent::DecodeFailed(msg)).status == "JSON parse error: "@ + msg@,
        next_sensor_state(s, SensorEvent::ConnectionError(msg)).status == "Connection error: "@
            + msg@,
        next_sensor_state(s, SensorEvent::SubscribeFailed(msg)).status == "Subscribe error: "@
            + msg@,
        next_sensor_state(s, SensorEvent::DecodeFailed(msg)).temperature_c == s.temperature_c,
        next_sensor_state(s, SensorEvent::ConnectionError(msg)).temperature_c == s.temperature_c,
        next_sensor_state(s, SensorEvent::SubscribeFailed(msg)).temperature_c == s.temperature_c,
        next_sensor_state(s, SensorEvent::DecodeFailed(msg)).humidity_pct == s.humidity_pct,
        next_sensor_state(s, SensorEvent::ConnectionError(msg)).humidity_pct == s.humidity_pct,
        next_sensor_state(s, SensorEvent::SubscribeFailed(msg)).humidity_pct == s.humidity_pct,
{
}

/// A payload that is UTF-8 text and any other notification change nothing; a
/// payload that is not shows the UTF-8 error and keeps the readings.
pub proof fn law_payload_and_other_events<V, T>(s: SensorDataView<V, T>, bytes: Vec<u8>)
    ensures
        valid_utf8(bytes@) ==> next_sensor_state(s, SensorEvent::Payload(bytes)) == s,
        !valid_utf8(bytes@) ==> next_sensor_state(s, SensorEvent::Payload(bytes)).status
            == "Error: payload is not valid UTF-8"@,
        !valid_utf8(bytes@) ==> next_sensor_state(s, SensorEvent::Payload(bytes)).temperature_c
            == s.temperature_c,
        next_sensor_state(s, SensorEvent::Other) == s,
{
}

} // verus!
