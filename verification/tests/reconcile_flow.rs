//! Reconciliation behavior: delta application and merging, pending
//! resolution, lazy zone materialization, media keys, and the
//! conversions toward the plugin surface.

use moosicbox_app::context::{AppContext, RegisteredPlayer};
use moosicbox_app::errors::{stop_player_result, PlayerErrorKind, TauriPlayerError};
use moosicbox_app::lifecycle::{new_player, player_source};
use moosicbox_app::media::{handle_media_event, MediaEvent};
use moosicbox_app::models::{
    ApiAudioZoneWithSession, ApiPlayer, ApiPlaylist, ApiSession, ApiSource, ApiTrack,
    ApiUpdateSession, ApiUpdateSessionPlaylist, AudioFormat, AudioOutput, PlaybackQuality,
    PlaybackTarget, TrackId,
};
use moosicbox_app::outbox::propagate_playback_event;
use moosicbox_app::player::{apply_update, PlayerBinding, PlayerKind, PlayerState};
use moosicbox_app::protocol::{Effect, InboundMessage, OutboundCommand, PlayerCommand};
use moosicbox_app::reconcile::{get_players, get_session_playback_for_player, set_playback_quality};
use moosicbox_app::router::{resolve_pending_sessions, route_message};

fn track(id: u64, title: &str) -> ApiTrack {
    ApiTrack {
        track_id: id,
        number: 1,
        title: String::from(title),
        album: String::from("album"),
        album_id: String::from("al1"),
        artist: String::from("artist"),
        artist_cover: None,
        contains_cover: false,
        duration_ms: 1000,
        source: ApiSource::Library,
    }
}

fn session(session_id: u64, tracks: Vec<ApiTrack>) -> ApiSession {
    ApiSession {
        session_id,
        name: String::from("session"),
        active: true,
        playing: false,
        position: Some(0),
        seek: Some(0),
        volume: Some(1000),
        playlist: ApiPlaylist {
            session_playlist_id: session_id,
            tracks,
        },
    }
}

fn empty_update(session_id: u64, target: PlaybackTarget) -> ApiUpdateSession {
    ApiUpdateSession {
        session_id,
        playback_target: target,
        play: None,
        stop: None,
        name: None,
        active: None,
        playing: None,
        position: None,
        seek: None,
        volume: None,
        playlist: None,
        quality: None,
    }
}

fn fresh_player(id: u64) -> PlayerState {
    PlayerState {
        id,
        playing: false,
        position: 0,
        seek: 0,
        volume: 1000,
        tracks: Vec::new(),
        quality: None,
        session_id: None,
        playback_target: None,
    }
}

fn zone_target(id: u64) -> PlaybackTarget {
    PlaybackTarget::AudioZone { audio_zone_id: id }
}

#[test]
fn seek_only_update_preserves_player_state() {
    // A full update, then a seek-only update: position, volume and
    // playlist survive; the seek lands.
    let mut p = fresh_player(1);
    let mut u1 = empty_update(7, zone_target(1));
    u1.position = Some(5);
    u1.volume = Some(800);
    u1.playlist = Some(ApiUpdateSessionPlaylist {
        session_playlist_id: 7,
        tracks: vec![track(1, "a"), track(2, "b"), track(3, "c")],
    });
    apply_update(&mut p, &u1);

    let mut u2 = empty_update(7, zone_target(1));
    u2.seek = Some(12_000);
    apply_update(&mut p, &u2);

    assert_eq!(p.position, 5);
    assert_eq!(p.volume, 800);
    assert_eq!(p.tracks.len(), 3);
    assert_eq!(p.tracks[0].title, "a");
    assert_eq!(p.seek, 12_000);
}

#[test]
fn repeated_update_is_idempotent() {
    // The same delta twice yields the same player state as once.
    let mut p1 = fresh_player(1);
    let mut u = empty_update(7, zone_target(1));
    u.playing = Some(true);
    u.position = Some(3);
    apply_update(&mut p1, &u);
    let playing_once = p1.playing;
    let position_once = p1.position;
    apply_update(&mut p1, &u);
    assert_eq!(p1.playing, playing_once);
    assert_eq!(p1.position, position_once);
    assert!(p1.playing);
    assert_eq!(p1.position, 3);
    assert_eq!(p1.session_id, Some(7));
}

#[test]
fn merge_fills_unset_fields_from_canonical_session() {
    // A delta for another session is re-targeted to the player's own
    // session and filled from the registry snapshot.
    let mut ctx = AppContext::new();
    let mut s = session(3, vec![track(9, "x")]);
    s.position = Some(4);
    s.volume = Some(700);
    ctx.current_sessions.push(s);

    let mut p = fresh_player(1);
    p.session_id = Some(3);

    let u = empty_update(8, zone_target(1));
    let merged = get_session_playback_for_player(&ctx, u, &p);
    assert_eq!(merged.session_id, 3);
    assert_eq!(merged.position, Some(4));
    assert_eq!(merged.volume, Some(700));
    assert_eq!(merged.playlist.as_ref().map(|pl| pl.tracks.len()), Some(1));
}

#[test]
fn lazy_materialization_binds_every_zone_player() {
    // Zone 42 is known with two player descriptors and has no binding
    // for session 7; an update for (7, zone 42) creates both bindings
    // and both players report the delta's state.
    let mut ctx = AppContext::new();
    ctx.api_url = Some(String::from("http://h"));
    ctx.current_sessions.push(session(7, vec![track(1, "t")]));
    let p10 = ApiPlayer {
        player_id: 10,
        audio_output_id: String::from("o1"),
        name: String::from("left"),
    };
    let p11 = ApiPlayer {
        player_id: 11,
        audio_output_id: String::from("o2"),
        name: String::from("right"),
    };
    ctx.current_audio_zones.push(ApiAudioZoneWithSession {
        id: 42,
        session_id: 1,
        name: String::from("livingroom"),
        players: vec![p10.clone(), p11.clone()],
    });
    ctx.current_players.push(RegisteredPlayer {
        player: p10,
        kind: PlayerKind::Local,
        output: AudioOutput {
            id: String::from("o1"),
            name: String::from("left"),
        },
    });
    ctx.current_players.push(RegisteredPlayer {
        player: p11,
        kind: PlayerKind::Local,
        output: AudioOutput {
            id: String::from("o2"),
            name: String::from("right"),
        },
    });

    let mut u = empty_update(7, zone_target(42));
    u.playing = Some(true);
    u.position = Some(3);
    let message = InboundMessage::SessionUpdated { update: u };
    route_message(&mut ctx, Some(message));

    assert_eq!(ctx.active_players.len(), 2);
    for b in &ctx.active_players {
        assert!(matches!(
            b.playback_target,
            PlaybackTarget::AudioZone { audio_zone_id: 42 }
        ));
        assert_eq!(b.player.session_id, Some(7));
        assert!(b.player.playing);
        assert_eq!(b.player.position, 3);
    }
}

#[test]
fn pending_binding_resolves_exactly_once() {
    // A player created before its session was known resolves on the
    // first list push that carries the session, and never again.
    let mut ctx = AppContext::new();
    ctx.api_url = Some(String::from("http://h"));
    let output = AudioOutput {
        id: String::from("o1"),
        name: String::from("out"),
    };
    let (player, _) = new_player(&mut ctx, 7, &zone_target(1), &output, PlayerKind::Local)
        .unwrap();
    let player_id = player.id;
    assert_eq!(ctx.pending_player_sessions.len(), 1);
    ctx.active_players.push(PlayerBinding {
        playback_target: zone_target(1),
        session_id: 7,
        player,
        player_type: PlayerKind::Local,
        output,
    });

    let push = vec![session(7, vec![track(1, "t")])];
    let effects = resolve_pending_sessions(&mut ctx, &push);
    let inits: Vec<_> = effects
        .iter()
        .filter(|e| matches!(e, Effect::InitPlayerFromSession { .. }))
        .collect();
    assert_eq!(inits.len(), 1);
    assert!(ctx.pending_player_sessions.is_empty());
    assert_eq!(ctx.active_players[0].player.session_id, Some(7));
    assert!(matches!(
        inits[0],
        Effect::InitPlayerFromSession { player_id: p, session_id: 7 } if *p == player_id
    ));

    // The identical push again resolves nothing.
    let effects = resolve_pending_sessions(&mut ctx, &push);
    assert!(effects.is_empty());
}

#[test]
fn unknown_session_stays_pending() {
    let mut ctx = AppContext::new();
    ctx.api_url = Some(String::from("http://h"));
    let output = AudioOutput {
        id: String::from("o1"),
        name: String::from("out"),
    };
    let (player, _) = new_player(&mut ctx, 5, &zone_target(1), &output, PlayerKind::Local)
        .unwrap();
    ctx.active_players.push(PlayerBinding {
        playback_target: zone_target(1),
        session_id: 5,
        player,
        player_type: PlayerKind::Local,
        output,
    });
    let push = vec![session(6, vec![])];
    let effects = resolve_pending_sessions(&mut ctx, &push);
    assert!(effects.is_empty());
    assert_eq!(ctx.pending_player_sessions.len(), 1);
}

#[test]
fn missing_api_origin_fails_fast() {
    let ctx = AppContext::new();
    match player_source(&ctx) {
        Err(TauriPlayerError::Unknown(m)) => assert_eq!(m, "API_URL not set"),
        Ok(_) => panic!("configuration error expected"),
    }
}

#[test]
fn quality_change_updates_every_binding() {
    let mut ctx = AppContext::new();
    let mut p = fresh_player(1);
    p.session_id = Some(7);
    ctx.active_players.push(PlayerBinding {
        playback_target: zone_target(1),
        session_id: 7,
        player: p,
        player_type: PlayerKind::Local,
        output: AudioOutput {
            id: String::from("o1"),
            name: String::from("out"),
        },
    });
    let quality = PlaybackQuality {
        format: AudioFormat::Flac,
    };
    let effects = set_playback_quality(&mut ctx, quality);
    assert_eq!(ctx.playback_quality, Some(quality));
    assert_eq!(effects.len(), 1);
    assert_eq!(ctx.active_players[0].player.quality, Some(quality));
    // The quiescent re-apply forces no transport change.
    assert!(!ctx.active_players[0].player.playing);
}

#[test]
fn get_players_matches_session_and_target() {
    let mut ctx = AppContext::new();
    let mut p1 = fresh_player(1);
    p1.session_id = Some(7);
    let mut p2 = fresh_player(2);
    p2.session_id = Some(8);
    for (p, target) in [(p1, zone_target(1)), (p2, zone_target(2))] {
        ctx.active_players.push(PlayerBinding {
            playback_target: target.clone(),
            session_id: p.session_id.unwrap(),
            player: p,
            player_type: PlayerKind::Local,
            output: AudioOutput {
                id: String::from("o"),
                name: String::from("o"),
            },
        });
    }
    assert_eq!(get_players(&ctx, 7, Some(&zone_target(1))), vec![0]);
    assert_eq!(get_players(&ctx, 7, Some(&zone_target(2))), Vec::<usize>::new());
    assert_eq!(get_players(&ctx, 8, None), vec![1]);
}

#[test]
fn media_keys_saturate_at_playlist_ends() {
    let mut ctx = AppContext::new();
    ctx.current_session_id = Some(7);
    ctx.current_playback_target = Some(zone_target(1));
    let mut p = fresh_player(1);
    p.session_id = Some(7);
    p.position = 0;
    p.tracks = vec![track(1, "a")];
    ctx.active_players.push(PlayerBinding {
        playback_target: zone_target(1),
        session_id: 7,
        player: p,
        player_type: PlayerKind::Local,
        output: AudioOutput {
            id: String::from("o"),
            name: String::from("o"),
        },
    });

    // Skip backward at position zero stays at zero.
    let effects = handle_media_event(
        &ctx,
        &MediaEvent {
            play: None,
            next_track: None,
            prev_track: Some(true),
        },
    );
    assert_eq!(effects.len(), 2);
    match &effects[0] {
        Effect::SendCommand {
            command: OutboundCommand::UpdateSession { update },
        } => assert_eq!(update.position, Some(0)),
        other => panic!("announcement expected, got {other:?}"),
    }
    assert!(matches!(
        effects[1],
        Effect::CommandPlayer { command: PlayerCommand::PreviousTrack, .. }
    ));

    // Skip forward moves to the playlist's end and no further.
    let effects = handle_media_event(
        &ctx,
        &MediaEvent {
            play: None,
            next_track: Some(true),
            prev_track: None,
        },
    );
    match &effects[0] {
        Effect::SendCommand {
            command: OutboundCommand::UpdateSession { update },
        } => assert_eq!(update.position, Some(1)),
        other => panic!("announcement expected, got {other:?}"),
    }
}

#[test]
fn track_id_carries_source_and_number() {
    let id = TrackId::Tidal(55);
    assert_eq!(id.id(), 55);
    assert_eq!(id.source(), ApiSource::Tidal);
    assert_eq!(TrackId::Library(1).source(), ApiSource::Library);
}

#[test]
fn stopping_an_idle_player_is_no_failure() {
    assert!(stop_player_result(Ok(())).is_ok());
    assert!(stop_player_result(Err(PlayerErrorKind::NoPlayersPlaying)).is_ok());
    match stop_player_result(Err(PlayerErrorKind::Other(String::from("io")))) {
        Err(PlayerErrorKind::Other(m)) => assert_eq!(m, "io"),
        _ => panic!("failure must pass through"),
    }
}

#[test]
fn local_playback_event_echoes_before_sending() {
    let mut ctx = AppContext::new();
    let quiet = empty_update(7, zone_target(1));
    let fx = propagate_playback_event(&mut ctx, quiet).unwrap();
    assert!(fx.is_empty());

    ctx.ws_connected = true;
    let mut u = empty_update(7, zone_target(1));
    u.playing = Some(true);
    let fx = propagate_playback_event(&mut ctx, u).unwrap();
    assert_eq!(fx.len(), 2);
    assert!(matches!(
        &fx[0],
        Effect::EmitMessage {
            message: InboundMessage::SessionUpdated { .. }
        }
    ));
    assert!(matches!(
        &fx[1],
        Effect::SendCommand {
            command: OutboundCommand::UpdateSession { .. }
        }
    ));
}

#[test]
fn arrived_session_removes_ghost_pending_entry() {
    // A pending entry whose player's binding is gone is still removed
    // the moment its session arrives — without initializing anyone.
    let mut ctx = AppContext::new();
    ctx.api_url = Some(String::from("http://h"));
    let output = AudioOutput {
        id: String::from("o1"),
        name: String::from("out"),
    };
    let (_player, _) = new_player(&mut ctx, 7, &zone_target(1), &output, PlayerKind::Local)
        .unwrap();
    // The player is dropped without ever being bound.
    assert_eq!(ctx.pending_player_sessions.len(), 1);

    let push = vec![session(7, vec![])];
    let effects = resolve_pending_sessions(&mut ctx, &push);
    assert!(effects.is_empty());
    assert!(ctx.pending_player_sessions.is_empty());
}

#[test]
fn repeated_zone_update_reuses_bindings() {
    // A second identical delta finds every zone player already
    // rendering the session and creates nothing new.
    let mut ctx = AppContext::new();
    ctx.api_url = Some(String::from("http://h"));
    ctx.current_sessions.push(session(7, vec![track(1, "t")]));
    let p10 = ApiPlayer {
        player_id: 10,
        audio_output_id: String::from("o1"),
        name: String::from("left"),
    };
    ctx.current_audio_zones.push(ApiAudioZoneWithSession {
        id: 42,
        session_id: 1,
        name: String::from("livingroom"),
        players: vec![p10.clone()],
    });
    ctx.current_players.push(RegisteredPlayer {
        player: p10,
        kind: PlayerKind::Local,
        output: AudioOutput {
            id: String::from("o1"),
            name: String::from("left"),
        },
    });

    let mut u = empty_update(7, zone_target(42));
    u.playing = Some(true);
    route_message(&mut ctx, Some(InboundMessage::SessionUpdated { update: u.clone() }));
    assert_eq!(ctx.active_players.len(), 1);
    let first_id = ctx.active_players[0].player.id;

    route_message(&mut ctx, Some(InboundMessage::SessionUpdated { update: u }));
    assert_eq!(ctx.active_players.len(), 1);
    assert_eq!(ctx.active_players[0].player.id, first_id);
}

#[test]
fn stale_position_clamps_to_playlist_end() {
    // A position beyond the playlist is pulled back to its end on a
    // forward skip.
    let mut ctx = AppContext::new();
    ctx.current_session_id = Some(7);
    ctx.current_playback_target = Some(zone_target(1));
    let mut p = fresh_player(1);
    p.session_id = Some(7);
    p.position = 9;
    p.tracks = vec![track(1, "a"), track(2, "b")];
    ctx.active_players.push(PlayerBinding {
        playback_target: zone_target(1),
        session_id: 7,
        player: p,
        player_type: PlayerKind::Local,
        output: AudioOutput {
            id: String::from("o"),
            name: String::from("o"),
        },
    });
    let effects = handle_media_event(
        &ctx,
        &MediaEvent {
            play: None,
            next_track: Some(true),
            prev_track: None,
        },
    );
    match &effects[0] {
        Effect::SendCommand {
            command: OutboundCommand::UpdateSession { update },
        } => assert_eq!(update.position, Some(2)),
        other => panic!("announcement expected, got {other:?}"),
    }
}
