//! Transport-side behavior: endpoint derivation, frame decoding, the
//! reconnect cadence, keep-alive teardown, and the outbound buffer.

use moosicbox_app::context::AppContext;
use moosicbox_app::models::PlaybackTarget;
use moosicbox_app::outbox::{flush_ws_message_buffer, on_ws_connect, propagate_ws_message};
use moosicbox_app::protocol::{Effect, OutboundCommand};
use moosicbox_app::transport::{
    connection_teardown, derive_ws_url, keep_alive_step, reconnect_step, ws_connect_url,
    ws_message_text, ConnectionEvent, KeepAliveAction, KeepAliveEvent, RetryAction, TeardownStep,
    WsClientState, WsMessage,
};

fn seek_command(session_id: u64, seek: u64) -> OutboundCommand {
    OutboundCommand::SetSeek {
        session_id,
        target: PlaybackTarget::AudioZone { audio_zone_id: 1 },
        seek,
    }
}

fn sent_commands(effects: &[Effect]) -> Vec<u64> {
    effects
        .iter()
        .filter_map(|e| match e {
            Effect::SendCommand {
                command: OutboundCommand::SetSeek { seek, .. },
            } => Some(*seek),
            Effect::SendCommand {
                command: OutboundCommand::RequestConnectionIdentity,
            } => Some(0),
            _ => None,
        })
        .collect()
}

#[test]
fn derive_ws_url_switches_scheme_and_appends_path() {
    assert_eq!(
        derive_ws_url(&String::from("http://host:1234")),
        "ws://host:1234/ws"
    );
    assert_eq!(
        derive_ws_url(&String::from("https://music.example")),
        "wss://music.example/ws"
    );
}

#[test]
fn ws_connect_url_carries_identity_params() {
    let url = String::from("wss://h/ws");
    assert_eq!(ws_connect_url(&url, &None, &None), "wss://h/ws");
    assert_eq!(
        ws_connect_url(
            &url,
            &Some(String::from("c1")),
            &Some(String::from("sig"))
        ),
        "wss://h/ws?clientId=c1&signature=sig"
    );
    assert_eq!(
        ws_connect_url(&url, &Some(String::from("c1")), &None),
        "wss://h/ws?clientId=c1"
    );
    // The parameters are independent: a signature alone still opens
    // the query correctly.
    assert_eq!(
        ws_connect_url(&url, &None, &Some(String::from("sig"))),
        "wss://h/ws?signature=sig"
    );
}

#[test]
fn ws_message_text_decodes_frames() {
    let text = ws_message_text(WsMessage::TextMessage(String::from("hello")));
    assert_eq!(text.as_deref(), Some("hello"));

    let binary = ws_message_text(WsMessage::Message(bytes::Bytes::from(vec![104u8, 105u8])));
    assert_eq!(binary.as_deref(), Some("hi"));

    let invalid = ws_message_text(WsMessage::Message(bytes::Bytes::from(vec![0xffu8, 0xfe])));
    assert!(invalid.is_none());

    assert!(ws_message_text(WsMessage::Ping).is_none());
}

#[test]
fn reconnect_cadence_delays_after_first_failure() {
    // N consecutive connect failures: the first retry is immediate,
    // every later one waits the fixed delay, and the loop never stops.
    let s0 = WsClientState::new();
    let (s1, a1) = reconnect_step(s0, ConnectionEvent::ConnectFailed);
    assert_eq!(a1, RetryAction::RetryNow);
    let (s2, a2) = reconnect_step(s1, ConnectionEvent::ConnectFailed);
    assert_eq!(a2, RetryAction::RetryAfterDelay { delay_ms: 5000 });
    let (s3, a3) = reconnect_step(s2, ConnectionEvent::ConnectFailed);
    assert_eq!(a3, RetryAction::RetryAfterDelay { delay_ms: 5000 });
    assert!(!s3.finished);
}

#[test]
fn reconnect_after_drop_is_immediate_then_delayed() {
    let s0 = WsClientState::new();
    let (s1, a1) = reconnect_step(s0, ConnectionEvent::ConnectionClosed);
    assert_eq!(a1, RetryAction::RetryNow);
    let (_, a2) = reconnect_step(s1, ConnectionEvent::ConnectFailed);
    assert_eq!(a2, RetryAction::RetryAfterDelay { delay_ms: 5000 });
}

#[test]
fn cancellation_stops_all_attempts() {
    let s0 = WsClientState::new();
    let (s1, a1) = reconnect_step(s0, ConnectionEvent::CancelledDuringConnect);
    assert_eq!(a1, RetryAction::Stop);
    assert!(s1.finished);

    let (s2, a2) = reconnect_step(WsClientState::new(), ConnectionEvent::CancelledDuringDelay);
    assert_eq!(a2, RetryAction::Stop);
    assert!(s2.finished);
}

#[test]
fn keep_alive_stops_within_the_failing_tick() {
    // A connection drops mid-ping: the prober terminates on that very
    // tick and raises the connection-scoped close signal itself.
    assert_eq!(
        keep_alive_step(KeepAliveEvent::Tick { send_ok: false }),
        KeepAliveAction::StopAndSignalClose
    );
    assert_eq!(
        keep_alive_step(KeepAliveEvent::Tick { send_ok: true }),
        KeepAliveAction::ContinueAfterPing
    );
    assert_eq!(
        keep_alive_step(KeepAliveEvent::CloseSignalled),
        KeepAliveAction::Stop
    );
    assert_eq!(
        keep_alive_step(KeepAliveEvent::ClientCancelled),
        KeepAliveAction::Stop
    );
}

#[test]
fn teardown_awaits_keep_alive_before_reconnect() {
    let steps = connection_teardown(false);
    assert_eq!(
        steps,
        vec![TeardownStep::SignalClose, TeardownStep::AwaitKeepAlive]
    );
    let steps = connection_teardown(true);
    assert_eq!(steps, vec![TeardownStep::AwaitKeepAlive]);
}

#[test]
fn buffered_commands_flush_in_order_after_handshake() {
    // C1, C2, C3 composed while disconnected go out in that order,
    // strictly after the identity handshake.
    let mut ctx = AppContext::new();
    assert!(!ctx.ws_connected);

    propagate_ws_message(&mut ctx, seek_command(7, 1)).unwrap();
    propagate_ws_message(&mut ctx, seek_command(7, 2)).unwrap();
    propagate_ws_message(&mut ctx, seek_command(7, 3)).unwrap();
    assert_eq!(ctx.ws_message_buffer.len(), 3);

    let effects = on_ws_connect(&mut ctx).unwrap();
    let sent = sent_commands(&effects);
    // 0 encodes the identity request; it comes first.
    assert_eq!(sent, vec![0, 1, 2, 3]);
    assert!(ctx.ws_message_buffer.is_empty());
    assert!(ctx.ws_connected);
}

#[test]
fn connected_commands_bypass_the_buffer() {
    let mut ctx = AppContext::new();
    ctx.ws_connected = true;
    let effects = propagate_ws_message(&mut ctx, seek_command(9, 42)).unwrap();
    assert_eq!(sent_commands(&effects), vec![42]);
    assert!(ctx.ws_message_buffer.is_empty());
}

#[test]
fn flush_without_transport_is_a_no_op() {
    let mut ctx = AppContext::new();
    propagate_ws_message(&mut ctx, seek_command(7, 1)).unwrap();
    let effects = flush_ws_message_buffer(&mut ctx).unwrap();
    assert!(effects.is_empty());
    assert_eq!(ctx.ws_message_buffer.len(), 1);
}
