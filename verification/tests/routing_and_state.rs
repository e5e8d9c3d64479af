//! Router dispatch, boundary state pushes, registry maintenance, and
//! the URL builders.

use moosicbox_app::context::{
    event_requests_shutdown, opt_str_eq, set_state, update_state_plan, AppContext, AppState,
    RegisteredPlayer, RunEventKind, StateRefreshStep,
};
use moosicbox_app::convert::{
    album_cover_url, audio_zones_route, convert_track, proxy_url, register_players_route,
    update_playlist,
};
use moosicbox_app::models::{
    ApiConnection, ApiPlayer, ApiPlaylist, ApiSession, ApiSource, ApiTrack, AudioOutput,
    PlaybackTarget, WsConnectMessage,
};
use moosicbox_app::player::PlayerKind;
use moosicbox_app::protocol::{Effect, InboundMessage};
use moosicbox_app::registry::{
    add_players_to_current_players, match_registered_players, register_players_payload,
};
use moosicbox_app::router::route_message;

fn named_track(id: u64, contains_cover: bool) -> ApiTrack {
    ApiTrack {
        track_id: id,
        number: 2,
        title: String::from("title"),
        album: String::from("album"),
        album_id: String::from("alb9"),
        artist: String::from("artist"),
        artist_cover: Some(String::from("cover-url")),
        contains_cover,
        duration_ms: 215_000,
        source: ApiSource::Qobuz,
    }
}

fn registered(id: u64, output: &str) -> RegisteredPlayer {
    RegisteredPlayer {
        player: ApiPlayer {
            player_id: id,
            audio_output_id: String::from(output),
            name: String::from(output),
        },
        kind: PlayerKind::Local,
        output: AudioOutput {
            id: String::from(output),
            name: String::from(output),
        },
    }
}

#[test]
fn malformed_payloads_are_dropped() {
    let mut ctx = AppContext::new();
    let effects = route_message(&mut ctx, None);
    assert!(effects.is_empty());
}

#[test]
fn every_message_is_mirrored_to_the_boundary() {
    let mut ctx = AppContext::new();
    let effects = route_message(&mut ctx, Some(InboundMessage::Unknown));
    assert_eq!(effects.len(), 1);
    assert!(matches!(
        effects[0],
        Effect::EmitMessage {
            message: InboundMessage::Unknown
        }
    ));
}

#[test]
fn connection_identity_reaches_the_boundary() {
    let mut ctx = AppContext::new();
    ctx.ws_url = Some(String::from("ws://h/ws"));
    let effects = route_message(
        &mut ctx,
        Some(InboundMessage::ConnectionIdentity {
            connection_id: String::from("conn-9"),
        }),
    );
    assert_eq!(effects.len(), 2);
    match &effects[0] {
        Effect::EmitConnect {
            message: WsConnectMessage {
                connection_id,
                ws_url,
            },
        } => {
            assert_eq!(connection_id, "conn-9");
            assert_eq!(ws_url, "ws://h/ws");
        }
        other => panic!("identity announcement expected, got {other:?}"),
    }
    assert!(matches!(effects[1], Effect::EmitMessage { .. }));
}

#[test]
fn connection_list_replaces_the_registry() {
    let mut ctx = AppContext::new();
    let connections = vec![ApiConnection {
        connection_id: String::from("c1"),
        name: String::from("desk"),
        players: vec![],
    }];
    route_message(&mut ctx, Some(InboundMessage::ConnectionList { connections }));
    assert_eq!(ctx.current_connections.len(), 1);
    assert_eq!(ctx.current_connections[0].connection_id, "c1");
}

#[test]
fn session_list_replaces_sessions_and_feeds_outputs() {
    let mut ctx = AppContext::new();
    ctx.api_url = Some(String::from("http://h"));
    ctx.connection_id = Some(String::from("c1"));
    ctx.current_players.push(registered(10, "o1"));
    ctx.available_outputs.push(AudioOutput {
        id: String::from("o1"),
        name: String::from("o1"),
    });
    let sessions = vec![ApiSession {
        session_id: 7,
        name: String::from("s"),
        active: true,
        playing: false,
        position: None,
        seek: None,
        volume: None,
        playlist: ApiPlaylist {
            session_playlist_id: 7,
            tracks: vec![],
        },
    }];
    route_message(&mut ctx, Some(InboundMessage::SessionList { sessions }));
    assert_eq!(ctx.current_sessions.len(), 1);
    // Every registered output got a binding for the listed session.
    assert_eq!(ctx.active_players.len(), 1);
    assert_eq!(ctx.active_players[0].session_id, 7);
    assert!(matches!(
        &ctx.active_players[0].playback_target,
        PlaybackTarget::ConnectionOutput { connection_id, output_id }
            if connection_id == "c1" && output_id == "o1"
    ));
}

#[test]
fn set_state_reports_connection_detail_changes() {
    let mut ctx = AppContext::new();
    let mut state = AppState::default();
    state.api_url = Some(String::from("http://h"));
    state.current_session_id = Some(4);
    let change = set_state(&mut ctx, state);
    assert!(change.updated_connection_details);
    // Session 4 is not in the registry yet, so there is nothing to
    // mirror.
    assert!(change.playlist_push.is_none());
    assert_eq!(ctx.api_url.as_deref(), Some("http://h"));
    assert_eq!(ctx.current_session_id, Some(4));

    // Pushing the same details again changes nothing.
    let mut state = AppState::default();
    state.api_url = Some(String::from("http://h"));
    assert!(!set_state(&mut ctx, state).updated_connection_details);

    // A non-connection field alone does not ask for a refresh.
    let mut state = AppState::default();
    state.api_url = Some(String::from("http://h"));
    state.connection_name = Some(String::from("desk"));
    assert!(!set_state(&mut ctx, state).updated_connection_details);
}

#[test]
fn selecting_a_known_session_pushes_the_playlist_mirror() {
    let mut ctx = AppContext::new();
    ctx.current_sessions.push(ApiSession {
        session_id: 4,
        name: String::from("s"),
        active: true,
        playing: true,
        position: Some(1),
        seek: None,
        volume: None,
        playlist: ApiPlaylist {
            session_playlist_id: 4,
            tracks: vec![named_track(1, false)],
        },
    });
    let mut state = AppState::default();
    state.api_url = Some(String::from("http://h"));
    state.current_session_id = Some(4);
    let change = set_state(&mut ctx, state);
    let push = change.playlist_push.expect("session 4 is known");
    assert_eq!(push.playing, Some(true));
    assert_eq!(push.position, Some(1));
    assert_eq!(push.playlist.map(|p| p.tracks.len()), Some(1));
}

#[test]
fn refresh_plan_orders_steps_and_always_reconnects() {
    assert_eq!(
        update_state_plan(true),
        vec![
            StateRefreshStep::ScanOutputs,
            StateRefreshStep::InitUpnpPlayers,
            StateRefreshStep::ReinitPlayers,
            StateRefreshStep::FetchAudioZones,
            StateRefreshStep::InitWsConnection,
        ]
    );
    assert_eq!(
        update_state_plan(false),
        vec![StateRefreshStep::InitWsConnection]
    );
}

#[test]
fn opt_str_eq_compares_contents() {
    assert!(opt_str_eq(&None, &None));
    assert!(opt_str_eq(
        &Some(String::from("a")),
        &Some(String::from("a"))
    ));
    assert!(!opt_str_eq(&Some(String::from("a")), &None));
    assert!(!opt_str_eq(
        &Some(String::from("a")),
        &Some(String::from("b"))
    ));
}

#[test]
fn registration_payload_and_join() {
    let outputs = vec![
        AudioOutput {
            id: String::from("o1"),
            name: String::from("left"),
        },
        AudioOutput {
            id: String::from("o2"),
            name: String::from("right"),
        },
    ];
    let payload = register_players_payload(&outputs);
    assert_eq!(payload.len(), 2);
    assert_eq!(payload[0].audio_output_id, "o1");
    assert_eq!(payload[1].name, "right");

    // The reply mentions one known output and one that is gone.
    let reply = vec![
        ApiPlayer {
            player_id: 1,
            audio_output_id: String::from("o2"),
            name: String::from("right"),
        },
        ApiPlayer {
            player_id: 2,
            audio_output_id: String::from("gone"),
            name: String::from("gone"),
        },
    ];
    let joined = match_registered_players(&reply, &outputs, PlayerKind::Local);
    assert_eq!(joined.len(), 1);
    assert_eq!(joined[0].player.player_id, 1);
    assert_eq!(joined[0].output.id, "o2");
}

#[test]
fn player_registry_appends_only_new_ids() {
    let mut ctx = AppContext::new();
    ctx.current_players.push(registered(1, "o1"));
    add_players_to_current_players(
        &mut ctx,
        vec![registered(1, "o1-renamed"), registered(2, "o2")],
    );
    assert_eq!(ctx.current_players.len(), 2);
    assert_eq!(ctx.current_players[0].output.id, "o1");
    assert_eq!(ctx.current_players[1].player.player_id, 2);
}

#[test]
fn cover_urls_and_routes() {
    assert_eq!(
        album_cover_url(
            &String::from("alb9"),
            ApiSource::Qobuz,
            &String::from("http://h"),
            &String::from("&clientId=c")
        ),
        "http://h/files/albums/alb9/300x300?source=qobuz&clientId=c"
    );
    assert_eq!(
        proxy_url(&String::from("http://h"), &String::from("a/b?c=1")),
        "http://h/a/b?c=1"
    );
    assert_eq!(
        register_players_route(&String::from("c9"), &Some(String::from("cl"))),
        "session/register-players?connectionId=c9&clientId=cl"
    );
    assert_eq!(
        register_players_route(&String::from("c9"), &None),
        "session/register-players?connectionId=c9"
    );
    assert_eq!(
        audio_zones_route(&Some(String::from("cl"))),
        "audio-zone/with-session?clientId=cl"
    );
    // An empty client id is treated as absent.
    assert_eq!(
        audio_zones_route(&Some(String::new())),
        "audio-zone/with-session"
    );
    assert_eq!(audio_zones_route(&None), "audio-zone/with-session");
}

#[test]
fn tracks_convert_with_and_without_cover() {
    let url = String::from("http://h");
    let query = String::new();
    let with_cover = convert_track(&named_track(5, true), &url, &query);
    assert_eq!(with_cover.id, 5);
    assert_eq!(
        with_cover.album_cover.as_deref(),
        Some("http://h/files/albums/alb9/300x300?source=qobuz")
    );
    assert_eq!(with_cover.artist_cover.as_deref(), Some("cover-url"));

    let without = convert_track(&named_track(6, false), &url, &query);
    assert!(without.album_cover.is_none());
}

#[test]
fn playlist_push_requires_session_and_origin() {
    let mut ctx = AppContext::new();
    assert!(update_playlist(&ctx).is_none());
    ctx.current_session_id = Some(7);
    assert!(update_playlist(&ctx).is_none());
    ctx.current_sessions.push(ApiSession {
        session_id: 7,
        name: String::from("s"),
        active: true,
        playing: true,
        position: Some(2),
        seek: Some(30_000),
        volume: Some(900),
        playlist: ApiPlaylist {
            session_playlist_id: 7,
            tracks: vec![named_track(1, false)],
        },
    });
    assert!(update_playlist(&ctx).is_none());
    ctx.api_url = Some(String::from("http://h"));
    let push = update_playlist(&ctx).expect("a session and an origin are configured");
    assert_eq!(push.playing, Some(true));
    assert_eq!(push.position, Some(2));
    assert_eq!(push.seek, Some(30_000));
    assert_eq!(push.volume, Some(900));
    assert_eq!(push.playlist.map(|p| p.tracks.len()), Some(1));
}

#[test]
fn only_exit_requests_shut_the_service_down() {
    assert!(event_requests_shutdown(RunEventKind::ExitRequested));
    assert!(!event_requests_shutdown(RunEventKind::Exit));
    assert!(!event_requests_shutdown(RunEventKind::Ready));
    assert!(!event_requests_shutdown(RunEventKind::WindowEvent));
    assert!(!event_requests_shutdown(RunEventKind::MainEventsCleared));
}
