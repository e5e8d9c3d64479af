//! Decision core of the push-transport client.
//!
//! The host program owns the socket; this module owns every decision
//! the connection loop takes: how the endpoint URL is derived from the
//! configured origin, when a failed or dropped connection is retried
//! and with what delay, what the keep-alive prober does on each tick,
//! and in what order a dying connection is torn down.  The host feeds
//! each observed outcome into `reconnect_step` and performs the action
//! it returns, so the retry policy is exactly what is proved here.

use vstd::prelude::*;
use vstd::string::StrSliceExecFns;
use vstd::string::StringExecFns;
use vstd::string::string_is_ascii;

use crate::errors::WebsocketSendError;

verus! {

/// Milliseconds between keep-alive pings, and between two connection
/// attempts once an attempt has already been retried.
pub const RETRY_DELAY_MS: u64 = 5000;

/// One frame as the transport hands it to the client: decoded text, a
/// raw binary payload, or a liveness probe.
pub enum WsMessage {
    TextMessage(String),
    Message(bytes::Bytes),
    Ping,
}

/// Something that can push data towards the server.  The transport's
/// handle implements it in the host program; tests may implement it
/// over a plain buffer.
pub trait WebsocketSender {
    fn send(&self, data: &str) -> Result<(), WebsocketSendError>;

    fn ping(&self) -> Result<(), WebsocketSendError>;
}

/// The shared byte buffer binary frames arrive in.
#[verifier::external_type_specification]
#[verifier::external_body]
pub struct ExBytes(bytes::Bytes);

/// The byte contents of a `bytes::Bytes` buffer.
pub uninterp spec fn bytes_content(b: bytes::Bytes) -> Seq<u8>;

/// Relies on `From<bytes::Bytes> for Vec<u8>`: the vector holds exactly
/// the buffer's bytes.
#[verifier::external_body]
pub(crate) fn bytes_into_vec(b: bytes::Bytes) -> (v: Vec<u8>)
    ensures
        v@ == bytes_content(b),
{
    b.into()
}

/// What UTF-8 decoding yields on a byte sequence: the character
/// sequence when the bytes are valid UTF-8, nothing otherwise.
pub uninterp spec fn utf8_decoded(bytes: Seq<u8>) -> Option<Seq<char>>;

/// Relies on `String::from_utf8`: it returns the decoded string exactly
/// when the bytes are valid UTF-8.
#[verifier::external_body]
pub(crate) fn decode_utf8(bytes: Vec<u8>) -> (r: Option<String>)
    ensures
        r is Some <==> utf8_decoded(bytes@) is Some,
        r matches Some(s) ==> utf8_decoded(bytes@) == Some(s@),
{
    String::from_utf8(bytes).ok()
}

/// The text carried by one inbound frame: a text frame's contents, a
/// binary frame's bytes when they decode as UTF-8, nothing for a probe
/// or an undecodable payload.
pub fn ws_message_text(m: WsMessage) -> (r: Option<String>)
    ensures
        m matches WsMessage::TextMessage(s) ==> r matches Some(t) && t@ == s@,
        m matches WsMessage::Message(b) ==> {
            &&& r is Some <==> utf8_decoded(bytes_content(b)) is Some
            &&& (r matches Some(t) ==> utf8_decoded(bytes_content(b)) == Some(t@))
        },
        m is Ping ==> r is None,
{
    match m {
        WsMessage::TextMessage(s) => Some(s),
        WsMessage::Message(b) => decode_utf8(bytes_into_vec(b)),
        WsMessage::Ping => None,
    }
}

/// The socket endpoint derived from a configured HTTP(S) origin: the
/// scheme's first four characters `http` become `ws` (so `https`
/// becomes `wss`), and the fixed path `/ws` is appended.  The origin
/// is required to be ASCII, which every URL is.
pub fn derive_ws_url(api_url: &String) -> (r: String)
    requires
        api_url@.len() >= 4,
        string_is_ascii(api_url),
    ensures
        r@ == "ws"@ + api_url@.subrange(4, api_url@.len() as int) + "/ws"@,
{
    let len = api_url.as_str().unicode_len();
    let rest = api_url.as_str().substring_ascii(4, len);
    let mut s = String::from_str("ws");
    s.append(rest);
    s.append("/ws");
    proof {
        assert(s@ =~= "ws"@ + api_url@.subrange(4, api_url@.len() as int) + "/ws"@);
    }
    s
}

/// The query string that carries the configured identity: the two
/// parameters are independent, so whichever is present first opens
/// the query with `?` and a second one is appended with `&`.
pub open spec fn connect_query_view(
    client_id: Option<Seq<char>>,
    signature_token: Option<Seq<char>>,
) -> Seq<char> {
    match (client_id, signature_token) {
        (Some(c), Some(t)) => "?clientId="@ + c + "&signature="@ + t,
        (Some(c), None) => "?clientId="@ + c,
        (None, Some(t)) => "?signature="@ + t,
        (None, None) => Seq::<char>::empty(),
    }
}

/// The URL a connection attempt dials: the endpoint plus the optional
/// `clientId` and `signature` query parameters.
pub fn ws_connect_url(
    url: &String,
    client_id: &Option<String>,
    signature_token: &Option<String>,
) -> (r: String)
    ensures
        r@ == url@ + connect_query_view(client_id.deep_view(), signature_token.deep_view()),
{
    let mut s = url.clone();
    match (client_id, signature_token) {
        (Some(id), Some(t)) => {
            s.append("?clientId=");
            s.append(id.as_str());
            s.append("&signature=");
            s.append(t.as_str());
        },
        (Some(id), None) => {
            s.append("?clientId=");
            s.append(id.as_str());
        },
        (None, Some(t)) => {
            s.append("?signature=");
            s.append(t.as_str());
        },
        (None, None) => {},
    }
    proof {
        assert(s@ =~= url@ + connect_query_view(
            client_id.deep_view(),
            signature_token.deep_view(),
        ));
    }
    s
}

/// State of the reconnect loop between two connection cycles.
/// `just_retried` is the two-state backoff flag: once an attempt has
/// failed (or a reconnect has already happened), the next attempt
/// after a failure waits a fixed delay.
#[derive(Debug, Clone, Copy, PartialEq, Eq, Structural)]
pub struct WsClientState {
    pub just_retried: bool,
    pub finished: bool,
}

impl WsClientState {
    /// A freshly created client that has not attempted to connect.
    pub fn new() -> (r: WsClientState)
        ensures
            !r.just_retried,
            !r.finished,
    {
        WsClientState { just_retried: false, finished: false }
    }
}

/// What one connection cycle ended with, as the loop observes it.
#[derive(Debug, Clone, Copy, PartialEq, Eq, Structural)]
pub enum ConnectionEvent {
    /// The client-scoped shutdown fired while the handshake was in
    /// flight.
    CancelledDuringConnect,
    /// The handshake failed.
    ConnectFailed,
    /// The handshake succeeded and the connection later dropped (by
    /// close signal or error); the keep-alive has been awaited.
    ConnectionClosed,
    /// The client-scoped shutdown fired while waiting out the retry
    /// delay.
    CancelledDuringDelay,
}

/// What the loop does after observing a connection event.
#[derive(Debug, Clone, Copy, PartialEq, Eq, Structural)]
pub enum RetryAction {
    /// Leave the loop; no further attempt ever happens.
    Stop,
    /// Attempt the next connection immediately.
    RetryNow,
    /// Wait `delay_ms`, then attempt the next connection.
    RetryAfterDelay { delay_ms: u64 },
}

/// The reconnect policy.  A cancellation is terminal.  A failed
/// attempt retries: immediately the first time, after the fixed delay
/// once the previous cycle had already failed.  A dropped connection
/// reconnects immediately (the successful handshake cleared the
/// backoff flag) and arms the delay for the cycle after it.
pub open spec fn reconnect_step_view(s: WsClientState, e: ConnectionEvent) -> (WsClientState,
    RetryAction) {
    match e {
        ConnectionEvent::CancelledDuringConnect => (
            WsClientState { finished: true, ..s },
            RetryAction::Stop,
        ),
        ConnectionEvent::CancelledDuringDelay => (
            WsClientState { finished: true, ..s },
            RetryAction::Stop,
        ),
        ConnectionEvent::ConnectFailed => if s.just_retried {
            (s, RetryAction::RetryAfterDelay { delay_ms: RETRY_DELAY_MS })
        } else {
            (WsClientState { just_retried: true, ..s }, RetryAction::RetryNow)
        },
        ConnectionEvent::ConnectionClosed => (
            WsClientState { just_retried: true, ..s },
            RetryAction::RetryNow,
        ),
    }
}

/// Advance the reconnect loop by one observed event.
pub fn reconnect_step(state: WsClientState, event: ConnectionEvent) -> (r: (
    WsClientState,
    RetryAction,
))
    requires
        !state.finished,
    ensures
        r == reconnect_step_view(state, event),
        r.0.finished <==> (event is CancelledDuringConnect || event is CancelledDuringDelay),
        r.1 is Stop <==> r.0.finished,
{
    match event {
        ConnectionEvent::CancelledDuringConnect => (
            WsClientState { finished: true, ..state },
            RetryAction::Stop,
        ),
        ConnectionEvent::CancelledDuringDelay => (
            WsClientState { finished: true, ..state },
            RetryAction::Stop,
        ),
        ConnectionEvent::ConnectFailed => {
            if state.just_retried {
                (state, RetryAction::RetryAfterDelay { delay_ms: RETRY_DELAY_MS })
            } else {
                (WsClientState { just_retried: true, ..state }, RetryAction::RetryNow)
            }
        },
        ConnectionEvent::ConnectionClosed => (
            WsClientState { just_retried: true, ..state },
            RetryAction::RetryNow,
        ),
    }
}

/// The actions a run of the loop takes on a sequence of observed
/// events.
pub open spec fn reconnect_actions(s: WsClientState, events: Seq<ConnectionEvent>) -> Seq<
    RetryAction,
>
    decreases events.len(),
{
    if events.len() == 0 {
        Seq::<RetryAction>::empty()
    } else {
        let step = reconnect_step_view(s, events[0]);
        seq![step.1] + reconnect_actions(step.0, events.skip(1))
    }
}

/// Reconnect cadence: on any run of consecutive connect failures with
/// no cancellation, the loop never stops — every failure is followed
/// by another attempt — and every attempt after the first failure of
/// the run waits the fixed delay.  So N consecutive failures yield at
/// least N attempts, the later ones spaced by the delay.
pub proof fn lemma_reconnect_cadence(s: WsClientState, events: Seq<ConnectionEvent>)
    requires
        forall|i: int| 0 <= i < events.len() ==> events[i] is ConnectFailed,
    ensures
        reconnect_actions(s, events).len() == events.len(),
        forall|k: int|
            0 <= k < events.len() ==> !(#[trigger] reconnect_actions(s, events)[k] is Stop),
        forall|k: int|
            1 <= k < events.len() ==> #[trigger] reconnect_actions(s, events)[k]
                == (RetryAction::RetryAfterDelay { delay_ms: RETRY_DELAY_MS }),
        s.just_retried ==> forall|k: int|
            0 <= k < events.len() ==> #[trigger] reconnect_actions(s, events)[k]
                == (RetryAction::RetryAfterDelay { delay_ms: RETRY_DELAY_MS }),
    decreases events.len(),
{
    if events.len() > 0 {
        let step = reconnect_step_view(s, events[0]);
        lemma_reconnect_cadence(step.0, events.skip(1));
        assert(step.0.just_retried);
        assert(reconnect_actions(s, events) == seq![step.1] + reconnect_actions(
            step.0,
            events.skip(1),
        ));
    }
}

/// Cancelling stops everything: either cancellation event finishes the
/// loop, and a finished loop takes no further action (its event
/// sequence ends there).
pub proof fn lemma_cancellation_is_terminal(s: WsClientState, e: ConnectionEvent)
    requires
        e is CancelledDuringConnect || e is CancelledDuringDelay,
    ensures
        reconnect_step_view(s, e).0.finished,
        reconnect_step_view(s, e).1 is Stop,
{
}

/// What the keep-alive prober observes on one iteration.
#[derive(Debug, Clone, Copy, PartialEq, Eq, Structural)]
pub enum KeepAliveEvent {
    /// The connection-scoped close signal fired.
    CloseSignalled,
    /// The client-scoped shutdown fired.
    ClientCancelled,
    /// The ping interval elapsed; `send_ok` says whether handing the
    /// ping to the writer succeeded.
    Tick { send_ok: bool },
}

/// What the keep-alive prober does next.
#[derive(Debug, Clone, Copy, PartialEq, Eq, Structural)]
pub enum KeepAliveAction {
    /// Terminate quietly; the connection is already being torn down.
    Stop,
    /// The ping was sent; keep probing.
    ContinueAfterPing,
    /// The write failed: signal the connection-scoped close and
    /// terminate, within this same tick.
    StopAndSignalClose,
}

/// Keep-alive policy: any close or shutdown signal ends the prober at
/// once; a failed ping write ends it too and raises the close signal,
/// so the prober never outlives its connection by more than one tick.
pub fn keep_alive_step(event: KeepAliveEvent) -> (r: KeepAliveAction)
    ensures
        event is CloseSignalled ==> r is Stop,
        event is ClientCancelled ==> r is Stop,
        event == (KeepAliveEvent::Tick { send_ok: true }) ==> r is ContinueAfterPing,
        event == (KeepAliveEvent::Tick { send_ok: false }) ==> r is StopAndSignalClose,
{
    match event {
        KeepAliveEvent::CloseSignalled => KeepAliveAction::Stop,
        KeepAliveEvent::ClientCancelled => KeepAliveAction::Stop,
        KeepAliveEvent::Tick { send_ok } => {
            if send_ok {
                KeepAliveAction::ContinueAfterPing
            } else {
                KeepAliveAction::StopAndSignalClose
            }
        },
    }
}

/// A step of tearing down one connection cycle.
#[derive(Debug, Clone, Copy, PartialEq, Eq, Structural)]
pub enum TeardownStep {
    /// Raise the connection-scoped close signal.
    SignalClose,
    /// Wait until the keep-alive prober has terminated.
    AwaitKeepAlive,
}

/// The order a dying connection is dismantled in: the close signal is
/// raised (unless something already raised it), then the keep-alive is
/// awaited.  The caller may only re-enter the connect phase after the
/// last step, so no keep-alive from an old connection survives into
/// the next one.
pub fn connection_teardown(close_already_signalled: bool) -> (r: Vec<TeardownStep>)
    ensures
        close_already_signalled ==> r@ == seq![TeardownStep::AwaitKeepAlive],
        !close_already_signalled ==> r@ == seq![TeardownStep::SignalClose, TeardownStep::AwaitKeepAlive],
        r@.len() >= 1 && r@.last() == TeardownStep::AwaitKeepAlive,
{
    let mut steps: Vec<TeardownStep> = Vec::new();
    if !close_already_signalled {
        steps.push(TeardownStep::SignalClose);
    }
    steps.push(TeardownStep::AwaitKeepAlive);
    proof {
        if close_already_signalled {
            assert(steps@ =~= seq![TeardownStep::AwaitKeepAlive]);
        } else {
            assert(steps@ =~= seq![TeardownStep::SignalClose, TeardownStep::AwaitKeepAlive]);
        }
    }
    steps
}

} // verus!
