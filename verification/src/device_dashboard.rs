//! State of the meter dashboard: what its MQTT link has received and how the
//! connection stands, how each link event changes it, and the texts derived
//! from it.

use vstd::prelude::*;
use vstd::string::*;
use vstd::utf8::*;

use crate::decimal::{decimal, push_decimal};
use crate::text::payload_text;

verus! {

/// What the dashboard knows: the latest decoded snapshot (`D`) and when it came
/// (`T`), whether the broker connection is up, the latest connection error, and
/// the broker endpoint and topic it subscribes to.
pub struct AppState<D, T> {
    pub data: Option<D>,
    pub connected: bool,
    pub last_update: Option<T>,
    pub last_error: Option<String>,
    pub host: String,
    pub port: u16,
    pub topic: String,
}

/// [`AppState`] with its texts as character sequences.
pub struct AppStateView<D, T> {
    pub data: Option<D>,
    pub connected: bool,
    pub last_update: Option<T>,
    pub last_error: Option<Seq<char>>,
    pub host: Seq<char>,
    pub port: u16,
    pub topic: Seq<char>,
}

/// The characters of an optional text.
pub open spec fn opt_chars(o: Option<String>) -> Option<Seq<char>> {
    match o {
        Some(s) => Some(s@),
        None => None,
    }
}

impl<D, T> View for AppState<D, T> {
    type V = AppStateView<D, T>;

    open spec fn view(&self) -> AppStateView<D, T> {
        AppStateView {
            data: self.data,
            connected: self.connected,
            last_update: self.last_update,
            last_error: opt_chars(self.last_error),
            host: self.host@,
            port: self.port,
            topic: self.topic@,
        }
    }
}

/// What the MQTT link reports to the dashboard.
pub enum LinkEvent<D, T> {
    /// The subscription request was refused; the error's text.
    SubscribeFailed(String),
    /// The broker acknowledged the connection.
    ConnAck,
    /// A message arrived on the topic; its raw payload.
    Payload(Vec<u8>),
    /// A payload's text was decoded into a snapshot, at the given instant.
    Decoded(D, T),
    /// A payload's text could not be decoded as a snapshot.
    DecodeFailed,
    /// The connection failed; the error's text.
    ConnectionError(String),
    /// The connection's event stream ended.
    Closed,
    /// Any other notification (pings, acknowledgements, outgoing packets).
    Other,
}

/// What the link should do next.
pub enum LinkAction {
    /// Wait for the next notification.
    Poll,
    /// Decode this payload text as a snapshot and report the outcome.
    Decode(String),
    /// The payload is not UTF-8 text: report it and wait for the next notification.
    SkipInvalidText,
    /// Stop using this connection and report [`LinkEvent::Closed`].
    Disconnect,
    /// Wait the reconnect delay, then connect and subscribe again.
    RetryLater,
}

/// The state after one link event.
pub open spec fn next_state<D, T>(s: AppStateView<D, T>, e: LinkEvent<D, T>) -> AppStateView<D, T> {
    match e {
        LinkEvent::SubscribeFailed(msg) => AppStateView {
            last_error: Some("subscribe: "@ + msg@),
            ..s
        },
        LinkEvent::ConnAck => AppStateView { connected: true, last_error: None, ..s },
        LinkEvent::Decoded(d, t) => AppStateView { data: Some(d), last_update: Some(t), ..s },
        LinkEvent::ConnectionError(msg) => AppStateView {
            connected: false,
            last_error: Some(msg@),
            ..s
        },
        LinkEvent::Closed => AppStateView { connected: false, ..s },
        _ => s,
    }
}

/// The placeholder shown while no snapshot has arrived.
pub enum Placeholder {
    /// Connected and subscribed: the subscription line.
    Waiting { subscription: String },
    /// Not connected: the connection target line and the latest error, if any.
    NotConnected { target: String, warning: Option<String> },
}

impl<D, T> AppState<D, T> {
    /// The state before anything was received: no snapshot, not connected, no
    /// error, subscribing to `topic` at `host`:`port`.
    pub fn new(host: String, port: u16, topic: String) -> (s: Self)
        ensures
            s@ == (AppStateView::<D, T> {
                data: None,
                connected: false,
                last_update: None,
                last_error: None,
                host: host@,
                port,
                topic: topic@,
            }),
    {
        AppState { data: None, connected: false, last_update: None, last_error: None, host, port, topic }
    }

    /// Applies one link event and says what the link does next: a refused
    /// subscription records the error and retries later; an acknowledged
    /// connection marks the link up and clears the error; a UTF-8 payload is
    /// handed on for decoding, any other payload skipped; a decoded snapshot
    /// becomes the shown data with its arrival time; a connection error marks the
    /// link down, records the error and drops the connection; the end of the
    /// event stream marks the link down and retries later.
    pub fn apply(&mut self, event: LinkEvent<D, T>) -> (action: LinkAction)
        ensures
            final(self)@ == next_state(old(self)@, event),
            match event {
                LinkEvent::SubscribeFailed(_) => action is RetryLater,
                LinkEvent::Payload(bytes) => {
                    &&& valid_utf8(bytes@) ==> (action matches LinkAction::Decode(t) && t@
                        == decode_utf8(bytes@))
                    &&& !valid_utf8(bytes@) ==> action is SkipInvalidText
                },
                LinkEvent::ConnectionError(_) => action is Disconnect,
                LinkEvent::Closed => action is RetryLater,
                _ => action is Poll,
            },
    {
        match event {
            LinkEvent::SubscribeFailed(msg) => {
                let mut text = String::from_str("subscribe: ");
                text.append(msg.as_str());
                self.last_error = Some(text);
                LinkAction::RetryLater
            },
            LinkEvent::ConnAck => {
                self.connected = true;
                self.last_error = None;
                LinkAction::Poll
            },
            LinkEvent::Payload(bytes) => match payload_text(bytes) {
                Some(text) => LinkAction::Decode(text),
                None => LinkAction::SkipInvalidText,
            },
            LinkEvent::Decoded(d, t) => {
                self.data = Some(d);
                self.last_update = Some(t);
                LinkAction::Poll
            },
            LinkEvent::DecodeFailed => LinkAction::Poll,
            LinkEvent::ConnectionError(msg) => {
                self.connected = false;
                self.last_error = Some(msg);
                LinkAction::Disconnect
            },
            LinkEvent::Closed => {
                self.connected = false;
                LinkAction::RetryLater
            },
            LinkEvent::Other => LinkAction::Poll,
        }
    }

    /// The connection badge: `● Connected` or `● Disconnected`.
    pub fn connection_badge(&self) -> (badge: &'static str)
        ensures
            badge@ == if self.connected {
                "● Connected"@
            } else {
                "● Disconnected"@
            },
    {
        if self.connected {
            "● Connected"
        } else {
            "● Disconnected"
        }
    }

    /// What to show while no snapshot has arrived: when connected, the topic it
    /// is subscribed to; otherwise the broker it is connecting to and the latest
    /// error.
    pub fn placeholder(&self) -> (p: Placeholder)
        ensures
            self.connected ==> (p matches Placeholder::Waiting { subscription } && subscription@
                == "Subscribed to '"@ + self.topic@ + "'"@),
            !self.connected ==> (p matches Placeholder::NotConnected { target, warning } && target@
                == "Connecting to mqtt://"@ + self.host@ + ":"@ + decimal(self.port as nat) + " …"@
                && opt_chars(warning) == match self.last_error {
                Some(e) => Some("⚠  "@ + e@),
                None => None,
            }),
    {
        if self.connected {
            let mut subscription = String::from_str("Subscribed to '");
            subscription.append(self.topic.as_str());
            subscription.append("'");
            Placeholder::Waiting { subscription }
        } else {
            let mut target = String::from_str("Connecting to mqtt://");
            target.append(self.host.as_str());
            target.append(":");
            push_decimal(&mut target, self.port as u64);
            target.append(" …");
            let warning = match &self.last_error {
                Some(e) => {
                    let mut w = String::from_str("⚠  ");
                    w.append(e.as_str());
                    Some(w)
                },
                None => None,
            };
            Placeholder::NotConnected { target, warning }
        }
    }
}

/// How long ago the latest snapshot came: `Updated just now` within the first
/// second, otherwise `Updated <secs>s ago`.
pub fn update_age_text(secs: u64) -> (text: String)
    ensures
        text@ == if secs == 0 {
            "Updated just now"@
        } else {
            "Updated "@ + decimal(secs as nat) + "s ago"@
        },
{
    if secs == 0 {
        String::from_str("Updated just now")
    } else {
        let mut text = String::from_str("Updated ");
        push_decimal(&mut text, secs);
        text.append("s ago");
        text
    }
}

/// The header's device label: none for an empty identifier, otherwise the
/// identifier behind a screen symbol.
pub fn device_label(device: &str) -> (label: Option<String>)
    ensures
        device@.len() == 0 ==> label is None,
        device@.len() != 0 ==> (label matches Some(l) && l@ == "🖥  "@ + device@),
{
    if device.is_empty() {
        None
    } else {
        let mut label = String::from_str("🖥  ");
        label.append(device);
        Some(label)
    }
}

/// The state after a run of link events, applied in order.
pub open spec fn replay<D, T>(s: AppStateView<D, T>, events: Seq<LinkEvent<D, T>>) -> AppStateView<
    D,
    T,
>
    decreases events.len(),
{
    if events.len() == 0 {
        s
    } else {
        next_state(replay(s, events.drop_last()), events.last())
    }
}

/// The latest decoded snapshot in a run of events, with its arrival time.
pub open spec fn latest_decoded<D, T>(events: Seq<LinkEvent<D, T>>) -> Option<(D, T)>
    decreases events.len(),
{
    if events.len() == 0 {
        None
    } else {
        match events.last() {
            LinkEvent::Decoded(d, t) => Some((d, t)),
            _ => latest_decoded(events.drop_last()),
        }
    }
}

/// The link status set by the latest event in a run that sets one: up after an
/// acknowledged connection, down after a connection error or the end of the
/// event stream.
pub open spec fn latest_link_status<D, T>(events: Seq<LinkEvent<D, T>>) -> Option<bool>
    decreases events.len(),
{
    if events.len() == 0 {
        None
    } else {
        match events.last() {
            LinkEvent::ConnAck => Some(true),
            LinkEvent::ConnectionError(_) => Some(false),
            LinkEvent::Closed => Some(false),
            _ => latest_link_status(events.drop_last()),
        }
    }
}

/// The dashboard shows the latest snapshot it decoded, with that snapshot's
/// arrival time, whatever else happened since (failed decodes, invalid
/// payloads, connection errors and reconnects keep it); before any snapshot it
/// shows what it showed before.
pub proof fn law_shows_latest_snapshot<D, T>(s: AppStateView<D, T>, events: Seq<LinkEvent<D, T>>)
    ensures
        replay(s, events).data == match latest_decoded(events) {
            Some(p) => Some(p.0),
            None => s.data,
        },
        replay(s, events).last_update == match latest_decoded(events) {
            Some(p) => Some(p.1),
            None => s.last_update,
        },
    decreases events.len(),
{
    if events.len() > 0 {
        law_shows_latest_snapshot(s, events.drop_last());
    }
}

/// The connection badge follows the latest connection event: connected after an
/// acknowledged connection until a connection error or the end of the stream.
pub proof fn law_connection_follows_latest_link_event<D, T>(
    s: AppStateView<D, T>,
    events: Seq<LinkEvent<D, T>>,
)
    ensures
        replay(s, events).connected == match latest_link_status(events) {
            Some(up) => up,
            None => s.connected,
        },
    decreases events.len(),
{
    if events.len() > 0 {
        law_connection_follows_latest_link_event(s, events.drop_last());
    }
}

/// No link event changes the broker endpoint or the topic.
pub proof fn law_endpoint_is_fixed<D, T>(s: AppStateView<D, T>, events: Seq<LinkEvent<D, T>>)
    ensures
        replay(s, events).host == s.host,
        replay(s, events).port == s.port,
        replay(s, events).topic == s.topic,
    decreases events.len(),
{
    if events.len() > 0 {
        law_endpoint_is_fixed(s, events.drop_last());
    }
}

/// An acknowledged connection clears the shown error, and the error stays
/// cleared until a refused subscription or a connection error.
pub proof fn law_connack_clears_error<D, T>(s: AppStateView<D, T>, events: Seq<LinkEvent<D, T>>)
    requires
        events.len() > 0,
        events[0] is ConnAck,
        forall|i: int|
            0 < i < events.len() ==> !(#[trigger] events[i] is SubscribeFailed)
                && !(events[i] is ConnectionError),
    ensures
        replay(s, events).last_error is None,
    decreases events.len(),
{
    if events.len() > 1 {
        let prefix = events.drop_last();
        assert forall|i: int|
            0 < i < prefix.len() implies !(#[trigger] prefix[i] is SubscribeFailed)
            && !(prefix[i] is ConnectionError) by {
            assert(prefix[i] == events[i]);
        }
        law_connack_clears_error(s, prefix);
        assert(events.last() == events[events.len() - 1]);
    } else {
        assert(events.drop_last().len() == 0);
    }
}

/// Only a connection acknowledgement clears the recorded error, and only a
/// refused subscription or a connection error records one: every other event
/// keeps it (in particular the end of the event stream that follows a
/// connection error keeps that error).
pub proof fn law_error_kept_until_connack<D, T>(s: AppStateView<D, T>, e: LinkEvent<D, T>)
    ensures
        !(e is ConnAck) && !(e is SubscribeFailed) && !(e is ConnectionError) ==> next_state(
            s,
            e,
        ).last_error == s.last_error,
        e is ConnAck ==> next_state(s, e).last_error is None,
        e matches LinkEvent::ConnectionError(m) ==> next_state(s, e).last_error == Some(m@),
        e matches LinkEvent::SubscribeFailed(m) ==> next_state(s, e).last_error == Some(
            "subscribe: "@ + m@,
        ),
{
}

/// The link is up after an acknowledged connection and down after a connection
/// error or the end of the event stream; no other event changes it.
pub proof fn law_connected_per_event<D, T>(s: AppStateView<D, T>, e: LinkEvent<D, T>)
    ensures
        e is ConnAck ==> next_state(s, e).connected,
        e is ConnectionError || e is Closed ==> !next_state(s, e).connected,
        !(e is ConnAck) && !(e is ConnectionError) && !(e is Closed) ==> next_state(s, e).connected
            == s.connected,
        !(e is Decoded) ==> next_state(s, e).data == s.data && next_state(s, e).last_update
            == s.last_update,
{
}

/// A connection error followed by the end of the event stream leaves the link
/// down with that error recorded.
pub proof fn law_connection_error_survives_close<D, T>(s: AppStateView<D, T>, m: String)
    ensures
        ({
            let after = next_state(
                next_state(s, LinkEvent::ConnectionError(m)),
                LinkEvent::Closed,
            );
            &&& after.last_error == Some(m@)
            &&& !after.connected
        }),
{
}

/// A decoded snapshot becomes the shown data with its time and changes nothing
/// else; a payload, a failed decode or another notification changes nothing.
pub proof fn law_snapshot_changes_only_data<D, T>(s: AppStateView<D, T>, d: D, t: T, bytes: Vec<u8>)
    ensures
        next_state(s, LinkEvent::Decoded(d, t)) == (AppStateView {
            data: Some(d),
            last_update: Some(t),
            ..s
        }),
        next_state(s, LinkEvent::Payload(bytes)) == s,
        next_state(s, LinkEvent::<D, T>::DecodeFailed) == s,
        next_state(s, LinkEvent::<D, T>::Other) == s,
{
}

} // verus!
