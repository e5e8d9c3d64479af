//! The reconciliation engine: mapping inbound session deltas onto the
//! matching player bindings.
//!
//! Matching is strict — a binding matches a delta when its player is
//! attached to the delta's session and, when a target is given, bound
//! to that exact target.  A delta for a session the player is not
//! attached to is re-targeted to the player's own session and filled
//! from the registry's canonical snapshot for every field it leaves
//! unset, so a partial delta never blanks state the player holds.

use vstd::prelude::*;
use vstd::pervasive::VecAdditionalExecFns;

use crate::context::AppContext;
use crate::models::ApiUpdateSession;
use crate::models::ApiUpdateSessionPlaylist;
use crate::models::ApiUpdateSessionPlaylistView;
use crate::models::ApiUpdateSessionView;
use crate::models::PlaybackQuality;
use crate::models::PlaybackTarget;
use crate::models::TargetView;
use crate::convert::propagate_state_to_plugin;
use crate::models::clone_opt_string;
use crate::models::clone_tracks;
use crate::player::PlayerBindingView;
use crate::player::PlayerState;
use crate::player::PlayerStateView;
use crate::player::apply_update;
use crate::player::apply_update_view;
use crate::protocol::Effect;
use crate::protocol::EffectView;
use crate::registry::find_session;
use crate::registry::find_session_view;

verus! {

/// Whether a binding matches a session delta: its player is attached
/// to the delta's session, and — when a target is given — the binding
/// is for exactly that target.
pub open spec fn binding_matches(
    b: PlayerBindingView,
    session_id: u64,
    target: Option<TargetView>,
) -> bool {
    &&& b.player.session_id == Some(session_id)
    &&& match target {
        Some(t) => b.playback_target == t,
        None => true,
    }
}

/// The bindings a session delta applies to, as indices into the
/// active-player registry, in registry order.
pub fn get_players(
    ctx: &AppContext,
    session_id: u64,
    playback_target: Option<&PlaybackTarget>,
) -> (r: Vec<usize>)
    ensures
        forall|k: int| 0 <= k < r@.len() ==> (#[trigger] r@[k]) < ctx.active_players@.len(),
        forall|k: int|
            0 <= k < r@.len() ==> binding_matches(
                ctx.active_players.deep_view()[r@[k] as int],
                session_id,
                playback_target.deep_view(),
            ),
        forall|a: int, b: int| 0 <= a < b < r@.len() ==> r@[a] < r@[b],
        forall|i: int|
            0 <= i < ctx.active_players@.len() && binding_matches(
                #[trigger] ctx.active_players.deep_view()[i],
                session_id,
                playback_target.deep_view(),
            ) ==> exists|m: int| 0 <= m < r@.len() && (#[trigger] r@[m]) as int == i,
{
    let mut r: Vec<usize> = Vec::new();
    let mut i: usize = 0;
    while i < ctx.active_players.len()
        invariant
            i <= ctx.active_players.len(),
            forall|k: int| 0 <= k < r@.len() ==> (#[trigger] r@[k]) < i,
            forall|k: int|
                0 <= k < r@.len() ==> binding_matches(
                    ctx.active_players.deep_view()[r@[k] as int],
                    session_id,
                    playback_target.deep_view(),
                ),
            forall|a: int, b: int| 0 <= a < b < r@.len() ==> r@[a] < r@[b],
            forall|j: int|
                0 <= j < i && binding_matches(
                    #[trigger] ctx.active_players.deep_view()[j],
                    session_id,
                    playback_target.deep_view(),
                ) ==> exists|m: int| 0 <= m < r@.len() && (#[trigger] r@[m]) as int == j,
        decreases ctx.active_players.len() - i,
    {
        let b = &ctx.active_players[i];
        let session_ok = match b.player.session_id {
            Some(s) => s == session_id,
            None => false,
        };
        let target_ok = match playback_target {
            Some(t) => crate::models::target_eq(t, &b.playback_target),
            None => true,
        };
        let ghost prev = r@;
        if session_ok && target_ok {
            r.push(i);
        }
        proof {
            assert forall|j: int|
                0 <= j < i + 1 && binding_matches(
                    #[trigger] ctx.active_players.deep_view()[j],
                    session_id,
                    playback_target.deep_view(),
                ) implies exists|m: int| 0 <= m < r@.len() && (#[trigger] r@[m]) as int == j by {
                if j < i {
                    let m = choose|m: int| 0 <= m < prev.len() && (#[trigger] prev[m]) as int == j;
                    assert(r@[m] as int == j);
                } else {
                    assert(r@[r@.len() - 1] as int == j);
                }
            }
        }
        i += 1;
    }
    r
}

/// The effective delta for one player: a delta for a session the
/// player is not attached to is re-targeted to the player's session
/// and, when the registry holds that session, filled from its
/// canonical fields for position, seek, volume and playlist wherever
/// the delta leaves them unset.
pub open spec fn merge_update_for_player_view(
    update: ApiUpdateSessionView,
    player: PlayerStateView,
    sessions: Seq<crate::models::ApiSessionView>,
) -> ApiUpdateSessionView {
    match player.session_id {
        Some(sid) => if sid != update.session_id {
            match find_session_view(sessions, sid) {
                Some(s) => ApiUpdateSessionView {
                    session_id: sid,
                    playback_target: update.playback_target,
                    play: update.play,
                    stop: update.stop,
                    name: update.name,
                    active: update.active,
                    playing: update.playing,
                    position: if update.position is None {
                        s.position
                    } else {
                        update.position
                    },
                    seek: if update.seek is None {
                        s.seek
                    } else {
                        update.seek
                    },
                    volume: if update.volume is None {
                        s.volume
                    } else {
                        update.volume
                    },
                    playlist: if update.playlist is None {
                        Some(
                            ApiUpdateSessionPlaylistView {
                                session_playlist_id: s.playlist.session_playlist_id,
                                tracks: s.playlist.tracks,
                            },
                        )
                    } else {
                        update.playlist
                    },
                    quality: update.quality,
                },
                None => update,
            }
        } else {
            update
        },
        None => update,
    }
}

/// Build the effective delta for one player (see
/// `merge_update_for_player_view`).
pub fn get_session_playback_for_player(
    ctx: &AppContext,
    update: ApiUpdateSession,
    player: &PlayerState,
) -> (r: ApiUpdateSession)
    ensures
        r.deep_view() == merge_update_for_player_view(
            update.deep_view(),
            player.deep_view(),
            ctx.current_sessions.deep_view(),
        ),
{
    let sid = match player.session_id {
        Some(s) => s,
        None => {
            return update;
        },
    };
    if sid == update.session_id {
        return update;
    }
    let session = match find_session(&ctx.current_sessions, sid) {
        Some(s) => s,
        None => {
            return update;
        },
    };
    let mut merged = update;
    merged.session_id = sid;
    if merged.position.is_none() {
        merged.position = session.position;
    }
    if merged.seek.is_none() {
        merged.seek = session.seek;
    }
    if merged.volume.is_none() {
        merged.volume = session.volume;
    }
    if merged.playlist.is_none() {
        merged.playlist = Some(
            ApiUpdateSessionPlaylist {
                session_playlist_id: session.playlist.session_playlist_id,
                tracks: clone_tracks(&session.playlist.tracks),
            },
        );
    }
    merged
}

/// A delta that re-confirms the session the player is already
/// attached to passes through the merge unchanged; with idempotent
/// application this makes re-delivering the same delta harmless.
pub proof fn lemma_merge_same_session_is_identity(
    update: ApiUpdateSessionView,
    player: PlayerStateView,
    sessions: Seq<crate::models::ApiSessionView>,
)
    requires
        player.session_id == Some(update.session_id),
    ensures
        merge_update_for_player_view(update, player, sessions) == update,
{
}

/// Idempotence across the whole inbound path: once a delta has been
/// applied to a player, merging and applying the same delta again
/// yields the same player state.
pub proof fn lemma_session_update_idempotent(
    update: ApiUpdateSessionView,
    player: PlayerStateView,
    sessions: Seq<crate::models::ApiSessionView>,
)
    ensures
        apply_update_view(
            apply_update_view(player, merge_update_for_player_view(update, player, sessions)),
            merge_update_for_player_view(
                merge_update_for_player_view(update, player, sessions),
                apply_update_view(player, merge_update_for_player_view(update, player, sessions)),
                sessions,
            ),
        ) == apply_update_view(player, merge_update_for_player_view(update, player, sessions)),
{
    let merged = merge_update_for_player_view(update, player, sessions);
    let once = apply_update_view(player, merged);
    assert(once.session_id == Some(merged.session_id));
    lemma_merge_same_session_is_identity(merged, once, sessions);
    crate::player::lemma_apply_update_idempotent(player, merged);
}

/// Install the new global quality and re-apply it to every existing
/// binding without forcing a transport change.  Returns one update
/// effect per binding, in registry order; the server is not
/// contacted.
pub fn set_playback_quality(ctx: &mut AppContext, quality: PlaybackQuality) -> (effects: Vec<
    Effect,
>)
    ensures
        final(ctx).playback_quality == Some(quality),
        final(ctx).active_players@.len() == old(ctx).active_players@.len(),
        forall|i: int|
            0 <= i < old(ctx).active_players@.len() ==> {
                let b = #[trigger] old(ctx).active_players.deep_view()[i];
                let nb = final(ctx).active_players.deep_view()[i];
                &&& nb.playback_target == b.playback_target
                &&& nb.session_id == b.session_id
                &&& nb.player_type == b.player_type
                &&& nb.output == b.output
                &&& nb.player == apply_update_view(
                    b.player,
                    crate::lifecycle::quiescent_update_view(
                        b.session_id,
                        b.playback_target,
                        Some(quality),
                    ),
                )
            },
        effects.deep_view().len() == old(ctx).active_players@.len(),
        forall|i: int|
            0 <= i < effects.deep_view().len() ==> #[trigger] effects.deep_view()[i]
                == (EffectView::UpdatePlayer {
                player_id: old(ctx).active_players.deep_view()[i].player.id,
                update: crate::lifecycle::quiescent_update_view(
                    old(ctx).active_players.deep_view()[i].session_id,
                    old(ctx).active_players.deep_view()[i].playback_target,
                    Some(quality),
                ),
            }),
        final(ctx).connection_id == old(ctx).connection_id,
        final(ctx).connection_name == old(ctx).connection_name,
        final(ctx).api_url == old(ctx).api_url,
        final(ctx).ws_url == old(ctx).ws_url,
        final(ctx).client_id == old(ctx).client_id,
        final(ctx).signature_token == old(ctx).signature_token,
        final(ctx).api_token == old(ctx).api_token,
        final(ctx).current_playback_target == old(ctx).current_playback_target,
        final(ctx).current_session_id == old(ctx).current_session_id,
        final(ctx).current_sessions == old(ctx).current_sessions,
        final(ctx).current_connections == old(ctx).current_connections,
        final(ctx).current_audio_zones == old(ctx).current_audio_zones,
        final(ctx).current_players == old(ctx).current_players,
        final(ctx).available_outputs == old(ctx).available_outputs,
        final(ctx).pending_player_sessions == old(ctx).pending_player_sessions,
        final(ctx).ws_message_buffer == old(ctx).ws_message_buffer,
        final(ctx).ws_connected == old(ctx).ws_connected,
        final(ctx).next_player_id == old(ctx).next_player_id,
{
    ctx.playback_quality = Some(quality);

    let mut effects: Vec<Effect> = Vec::new();
    let mut i: usize = 0;
    while i < ctx.active_players.len()
        invariant
            i <= ctx.active_players.len(),
            ctx.active_players@.len() == old(ctx).active_players@.len(),
            forall|j: int|
                i <= j < ctx.active_players@.len() ==> #[trigger] ctx.active_players.deep_view()[j]
                    == old(ctx).active_players.deep_view()[j],
            forall|j: int|
                0 <= j < i ==> {
                    let b = #[trigger] old(ctx).active_players.deep_view()[j];
                    let nb = ctx.active_players.deep_view()[j];
                    &&& nb.playback_target == b.playback_target
                    &&& nb.session_id == b.session_id
                    &&& nb.player_type == b.player_type
                    &&& nb.output == b.output
                    &&& nb.player == apply_update_view(
                        b.player,
                        crate::lifecycle::quiescent_update_view(
                            b.session_id,
                            b.playback_target,
                            Some(quality),
                        ),
                    )
                },
            effects.deep_view().len() == i,
            forall|j: int|
                0 <= j < i ==> #[trigger] effects.deep_view()[j] == (EffectView::UpdatePlayer {
                    player_id: old(ctx).active_players.deep_view()[j].player.id,
                    update: crate::lifecycle::quiescent_update_view(
                        old(ctx).active_players.deep_view()[j].session_id,
                        old(ctx).active_players.deep_view()[j].playback_target,
                        Some(quality),
                    ),
                }),
            ctx.playback_quality == Some(quality),
            ctx.connection_id == old(ctx).connection_id,
            ctx.connection_name == old(ctx).connection_name,
            ctx.api_url == old(ctx).api_url,
            ctx.ws_url == old(ctx).ws_url,
            ctx.client_id == old(ctx).client_id,
            ctx.signature_token == old(ctx).signature_token,
            ctx.api_token == old(ctx).api_token,
            ctx.current_playback_target == old(ctx).current_playback_target,
            ctx.current_session_id == old(ctx).current_session_id,
            ctx.current_sessions == old(ctx).current_sessions,
            ctx.current_connections == old(ctx).current_connections,
            ctx.current_audio_zones == old(ctx).current_audio_zones,
            ctx.current_players == old(ctx).current_players,
            ctx.available_outputs == old(ctx).available_outputs,
            ctx.pending_player_sessions == old(ctx).pending_player_sessions,
            ctx.ws_message_buffer == old(ctx).ws_message_buffer,
            ctx.ws_connected == old(ctx).ws_connected,
            ctx.next_player_id == old(ctx).next_player_id,
        decreases ctx.active_players.len() - i,
    {
        let mut binding = ctx.active_players[i].clone();
        let update = ApiUpdateSession {
            session_id: binding.session_id,
            playback_target: binding.playback_target.clone(),
            play: None,
            stop: None,
            name: None,
            active: None,
            playing: None,
            position: None,
            seek: None,
            volume: None,
            playlist: None,
            quality: Some(quality),
        };
        apply_update(&mut binding.player, &update);
        let player_id = binding.player.id;
        ctx.active_players.set(i, binding);
        let ghost prev_raw = effects@;
        let ghost prev_views = effects.deep_view();
        let ghost uview = update.deep_view();
        effects.push(Effect::UpdatePlayer { player_id, update });
        proof {
            let b = old(ctx).active_players.deep_view()[i as int];
            assert(uview =~= crate::lifecycle::quiescent_update_view(
                b.session_id,
                b.playback_target,
                Some(quality),
            ));
            assert forall|j: int| 0 <= j < i + 1 implies #[trigger] effects.deep_view()[j]
                == (EffectView::UpdatePlayer {
                player_id: old(ctx).active_players.deep_view()[j].player.id,
                update: crate::lifecycle::quiescent_update_view(
                    old(ctx).active_players.deep_view()[j].session_id,
                    old(ctx).active_players.deep_view()[j].playback_target,
                    Some(quality),
                ),
            }) by {
                if j < i as int {
                    assert(effects@[j] == prev_raw[j]);
                    assert(effects.deep_view()[j] == effects@[j].deep_view());
                    assert(prev_views[j] == prev_raw[j].deep_view());
                } else {
                    assert(effects@[j].deep_view() == (EffectView::UpdatePlayer {
                        player_id: b.player.id,
                        update: uview,
                    }));
                }
            }
        }
        i += 1;
    }
    effects
}

/// A binding that is already rendering the session on this zone and
/// output: its player is attached to the session and backed by the
/// same output device, so it is reused as-is.
pub open spec fn zone_binding_live(
    b: PlayerBindingView,
    zone_id: u64,
    session_id: u64,
    output_id: Seq<char>,
) -> bool {
    &&& b.playback_target == (TargetView::AudioZone { audio_zone_id: zone_id })
    &&& b.player.session_id == Some(session_id)
    &&& b.output.id == output_id
}

/// The replacement key of a zone binding: one binding may exist per
/// (zone target, session, output) triple.
pub open spec fn zone_binding_keyed(
    b: PlayerBindingView,
    zone_id: u64,
    session_id: u64,
    output_id: Seq<char>,
) -> bool {
    &&& b.playback_target == (TargetView::AudioZone { audio_zone_id: zone_id })
    &&& b.session_id == session_id
    &&& b.output.id == output_id
}

fn find_live_zone_binding(
    bindings: &Vec<crate::player::PlayerBinding>,
    zone_id: u64,
    session_id: u64,
    output_id: &String,
) -> (r: Option<usize>)
    ensures
        match r {
            Some(i) => i < bindings@.len() && zone_binding_live(
                bindings.deep_view()[i as int],
                zone_id,
                session_id,
                output_id@,
            ),
            None => forall|i: int|
                0 <= i < bindings@.len() ==> !zone_binding_live(
                    #[trigger] bindings.deep_view()[i],
                    zone_id,
                    session_id,
                    output_id@,
                ),
        },
{
    let mut i: usize = 0;
    while i < bindings.len()
        invariant
            i <= bindings.len(),
            forall|j: int|
                0 <= j < i ==> !zone_binding_live(
                    #[trigger] bindings.deep_view()[j],
                    zone_id,
                    session_id,
                    output_id@,
                ),
        decreases bindings.len() - i,
    {
        let b = &bindings[i];
        let target_ok = match &b.playback_target {
            PlaybackTarget::AudioZone { audio_zone_id } => *audio_zone_id == zone_id,
            _ => false,
        };
        let session_ok = match b.player.session_id {
            Some(s) => s == session_id,
            None => false,
        };
        let output_ok = b.output.id == *output_id;
        if target_ok && session_ok && output_ok {
            return Some(i);
        }
        i += 1;
    }
    None
}

fn find_keyed_zone_binding(
    bindings: &Vec<crate::player::PlayerBinding>,
    zone_id: u64,
    session_id: u64,
    output_id: &String,
) -> (r: Option<usize>)
    ensures
        match r {
            Some(i) => i < bindings@.len() && zone_binding_keyed(
                bindings.deep_view()[i as int],
                zone_id,
                session_id,
                output_id@,
            ),
            None => forall|i: int|
                0 <= i < bindings@.len() ==> !zone_binding_keyed(
                    #[trigger] bindings.deep_view()[i],
                    zone_id,
                    session_id,
                    output_id@,
                ),
        },
{
    let mut i: usize = 0;
    while i < bindings.len()
        invariant
            i <= bindings.len(),
            forall|j: int|
                0 <= j < i ==> !zone_binding_keyed(
                    #[trigger] bindings.deep_view()[j],
                    zone_id,
                    session_id,
                    output_id@,
                ),
        decreases bindings.len() - i,
    {
        let b = &bindings[i];
        let target_ok = match &b.playback_target {
            PlaybackTarget::AudioZone { audio_zone_id } => *audio_zone_id == zone_id,
            _ => false,
        };
        let output_ok = b.output.id == *output_id;
        if target_ok && b.session_id == session_id && output_ok {
            return Some(i);
        }
        i += 1;
    }
    None
}

/// A binding the zone installer may never disturb: one for another
/// target altogether, or one already rendering this session through
/// its own output (the no-op reuse of an up-to-date binding).
pub open spec fn zone_binding_untouchable(
    b: PlayerBindingView,
    zone_id: u64,
    session_id: u64,
) -> bool {
    ||| b.playback_target != (TargetView::AudioZone { audio_zone_id: zone_id })
    ||| zone_binding_live(b, zone_id, session_id, b.output.id)
}

/// Every given player has a binding that is rendering the session
/// on the zone through that player's output.
pub open spec fn zone_players_covered(
    bindings: Seq<PlayerBindingView>,
    zone_id: u64,
    session_id: u64,
    players: Seq<crate::context::RegisteredPlayerView>,
) -> bool {
    forall|k: int|
        #![trigger players[k]]
        0 <= k < players.len() ==> exists|b: int|
            0 <= b < bindings.len() && zone_binding_live(
                #[trigger] bindings[b],
                zone_id,
                session_id,
                players[k].output.id,
            )
}

/// Make the given players the active ones for a zone and session.
///
/// A player whose binding is already rendering this session through
/// the same output is left alone.  For every other player a fresh
/// player is created; it replaces the binding with the same (zone,
/// session, output) key if one exists — carrying live playback over —
/// and is appended otherwise.  Afterwards every given player has a
/// binding attached to the session on this zone.
pub fn set_audio_zone_active_players(
    ctx: &mut AppContext,
    session_id: u64,
    audio_zone_id: u64,
    players: &Vec<crate::context::RegisteredPlayer>,
) -> (r: Result<Vec<Effect>, crate::errors::TauriPlayerError>)
    requires
        old(ctx).next_player_id + players@.len() <= u64::MAX,
        crate::context::pending_wf(old(ctx).pending_player_sessions@, old(ctx).next_player_id),
    ensures
        r is Err ==> old(ctx).api_url is None,
        old(ctx).api_url is Some ==> r is Ok,
        r is Ok ==> zone_players_covered(
            final(ctx).active_players.deep_view(),
            audio_zone_id,
            session_id,
            players.deep_view(),
        ),
        final(ctx).active_players.deep_view().len() >= old(ctx).active_players.deep_view().len(),
        forall|b: int|
            0 <= b < old(ctx).active_players.deep_view().len() && zone_binding_untouchable(
                old(ctx).active_players.deep_view()[b],
                audio_zone_id,
                session_id,
            ) ==> #[trigger] final(ctx).active_players.deep_view()[b] == old(
                ctx,
            ).active_players.deep_view()[b],
        zone_players_covered(
            old(ctx).active_players.deep_view(),
            audio_zone_id,
            session_id,
            players.deep_view(),
        ) ==> {
            &&& r is Ok
            &&& final(ctx).active_players == old(ctx).active_players
            &&& final(ctx).next_player_id == old(ctx).next_player_id
            &&& final(ctx).pending_player_sessions == old(ctx).pending_player_sessions
            &&& (r matches Ok(effects) ==> effects@.len() == 0)
        },
        r matches Ok(effects) ==> crate::protocol::sent_commands(effects.deep_view())
            == Seq::<crate::protocol::OutboundCommandView>::empty(),
        crate::context::pending_wf(
            final(ctx).pending_player_sessions@,
            final(ctx).next_player_id,
        ),
        crate::context::pending_extended(
            old(ctx).pending_player_sessions@,
            final(ctx).pending_player_sessions@,
            old(ctx).next_player_id,
        ),
        final(ctx).next_player_id >= old(ctx).next_player_id,
        final(ctx).next_player_id <= old(ctx).next_player_id + players@.len(),
        final(ctx).connection_id == old(ctx).connection_id,
        final(ctx).connection_name == old(ctx).connection_name,
        final(ctx).api_url == old(ctx).api_url,
        final(ctx).ws_url == old(ctx).ws_url,
        final(ctx).client_id == old(ctx).client_id,
        final(ctx).signature_token == old(ctx).signature_token,
        final(ctx).api_token == old(ctx).api_token,
        final(ctx).current_playback_target == old(ctx).current_playback_target,
        final(ctx).current_session_id == old(ctx).current_session_id,
        final(ctx).current_sessions == old(ctx).current_sessions,
        final(ctx).current_connections == old(ctx).current_connections,
        final(ctx).current_audio_zones == old(ctx).current_audio_zones,
        final(ctx).current_players == old(ctx).current_players,
        final(ctx).available_outputs == old(ctx).available_outputs,
        final(ctx).playback_quality == old(ctx).playback_quality,
        final(ctx).ws_message_buffer == old(ctx).ws_message_buffer,
        final(ctx).ws_connected == old(ctx).ws_connected,
{
    let mut effects: Vec<Effect> = Vec::new();
    proof {
        assert(effects.deep_view() =~= Seq::<crate::protocol::EffectView>::empty());
        crate::context::lemma_pending_extended_refl(
            ctx.pending_player_sessions@,
            ctx.next_player_id,
        );
    }
    let mut i: usize = 0;
    while i < players.len()
        invariant
            i <= players.len(),
            crate::protocol::sent_commands(effects.deep_view())
                == Seq::<crate::protocol::OutboundCommandView>::empty(),
            ctx.next_player_id + (players@.len() - i) <= u64::MAX,
            crate::context::pending_wf(ctx.pending_player_sessions@, ctx.next_player_id),
            crate::context::pending_extended(
                old(ctx).pending_player_sessions@,
                ctx.pending_player_sessions@,
                old(ctx).next_player_id,
            ),
            ctx.next_player_id >= old(ctx).next_player_id,
            ctx.next_player_id <= old(ctx).next_player_id + i,
            zone_players_covered(
                ctx.active_players.deep_view(),
                audio_zone_id,
                session_id,
                players.deep_view().take(i as int),
            ),
            ctx.active_players.deep_view().len() >= old(
                ctx,
            ).active_players.deep_view().len(),
            forall|b: int|
                0 <= b < old(ctx).active_players.deep_view().len()
                    && zone_binding_untouchable(
                    old(ctx).active_players.deep_view()[b],
                    audio_zone_id,
                    session_id,
                ) ==> #[trigger] ctx.active_players.deep_view()[b] == old(
                    ctx,
                ).active_players.deep_view()[b],
            zone_players_covered(
                old(ctx).active_players.deep_view(),
                audio_zone_id,
                session_id,
                players.deep_view(),
            ) ==> {
                &&& ctx.active_players == old(ctx).active_players
                &&& ctx.next_player_id == old(ctx).next_player_id
                &&& ctx.pending_player_sessions == old(ctx).pending_player_sessions
                &&& effects@.len() == 0
            },
            ctx.connection_id == old(ctx).connection_id,
            ctx.connection_name == old(ctx).connection_name,
            ctx.api_url == old(ctx).api_url,
            ctx.ws_url == old(ctx).ws_url,
            ctx.client_id == old(ctx).client_id,
            ctx.signature_token == old(ctx).signature_token,
            ctx.api_token == old(ctx).api_token,
            ctx.current_playback_target == old(ctx).current_playback_target,
            ctx.current_session_id == old(ctx).current_session_id,
            ctx.current_sessions == old(ctx).current_sessions,
            ctx.current_connections == old(ctx).current_connections,
            ctx.current_audio_zones == old(ctx).current_audio_zones,
            ctx.current_players == old(ctx).current_players,
            ctx.available_outputs == old(ctx).available_outputs,
            ctx.playback_quality == old(ctx).playback_quality,
            ctx.ws_message_buffer == old(ctx).ws_message_buffer,
            ctx.ws_connected == old(ctx).ws_connected,
        decreases players.len() - i,
    {
        let ghost pl = players.deep_view();
        let ghost before = ctx.active_players.deep_view();
        let p = &players[i];
        let live = find_live_zone_binding(
            &ctx.active_players,
            audio_zone_id,
            session_id,
            &p.output.id,
        );
        let ghost mut witness_now: int = 0;
        let reused = match live {
            Some(w) => {
                proof {
                    witness_now = w as int;
                }
                true
            },
            None => false,
        };
        let ghost pend_iter = ctx.pending_player_sessions@;
        let ghost next_iter = ctx.next_player_id;
        let ghost braw = ctx.active_players@;
        proof {
            // Were every descriptor already rendered, this one would
            // have been found live and reused.
            if !reused && zone_players_covered(
                old(ctx).active_players.deep_view(),
                audio_zone_id,
                session_id,
                players.deep_view(),
            ) {
                assert(pl[i as int] == pl[i as int]);
                let b0 = choose|b: int|
                    0 <= b < old(ctx).active_players.deep_view().len() && zone_binding_live(
                        #[trigger] old(ctx).active_players.deep_view()[b],
                        audio_zone_id,
                        session_id,
                        pl[i as int].output.id,
                    );
                assert(ctx.active_players.deep_view()[b0]
                    == old(ctx).active_players.deep_view()[b0]);
                assert(false);
            }
        }
        if !reused {
            let target = PlaybackTarget::AudioZone { audio_zone_id };
            let (player, fx) = match crate::lifecycle::new_player(
                ctx,
                session_id,
                &target,
                &p.output,
                p.kind,
            ) {
                Ok(res) => res,
                Err(e) => {
                    return Err(e);
                },
            };
            crate::protocol::append_player_effects(&mut effects, fx);
            let mut binding = crate::player::PlayerBinding {
                playback_target: target,
                session_id,
                player,
                player_type: p.kind,
                output: p.output.clone(),
            };
            match find_keyed_zone_binding(
                &ctx.active_players,
                audio_zone_id,
                session_id,
                &p.output.id,
            ) {
                Some(idx) => {
                    crate::player::transplant_playback(
                        &mut binding.player,
                        &ctx.active_players[idx].player,
                    );
                    ctx.active_players.set(idx, binding);
                    proof {
                        witness_now = idx as int;
                    }
                },
                None => {
                    ctx.active_players.push(binding);
                    proof {
                        witness_now = ctx.active_players.deep_view().len() - 1;
                    }
                },
            }
        }
        proof {
            crate::context::lemma_pending_extended_trans(
                old(ctx).pending_player_sessions@,
                pend_iter,
                ctx.pending_player_sessions@,
                old(ctx).next_player_id,
                next_iter,
            );
            let now = ctx.active_players.deep_view();
            assert(now.len() >= before.len());
            // All indices but the one this iteration touched survive.
            assert forall|b: int|
                0 <= b < before.len() && b != witness_now implies #[trigger] now[b]
                == before[b] by {
                assert(ctx.active_players@[b] == braw[b]);
                assert(now[b] == ctx.active_players@[b].deep_view());
                assert(before[b] == braw[b].deep_view());
            }
            // An untouchable entry is never the touched index: a
            // replacement matched the (zone, session, output) key, so
            // a live entry with that output would have been reused and
            // an other-target entry cannot carry the key.
            assert forall|b: int|
                0 <= b < old(ctx).active_players.deep_view().len()
                    && zone_binding_untouchable(
                    old(ctx).active_players.deep_view()[b],
                    audio_zone_id,
                    session_id,
                ) implies #[trigger] now[b] == old(ctx).active_players.deep_view()[b] by {
                let old0 = old(ctx).active_players.deep_view();
                assert(before[b] == old0[b]);
                if b == witness_now {
                    if !reused {
                        assert(zone_binding_keyed(
                            before[witness_now],
                            audio_zone_id,
                            session_id,
                            pl[i as int].output.id,
                        ));
                        if old0[b].playback_target != (TargetView::AudioZone { audio_zone_id }) {
                            assert(false);
                        } else {
                            assert(zone_binding_live(
                                old0[b],
                                audio_zone_id,
                                session_id,
                                old0[b].output.id,
                            ));
                            assert(zone_binding_live(
                                before[b],
                                audio_zone_id,
                                session_id,
                                pl[i as int].output.id,
                            ));
                            assert(false);
                        }
                    } else {
                        assert(now[b] == before[b]);
                    }
                } else {
                    assert(now[b] == before[b]);
                }
            }
            // The player handled this iteration has its binding.
            assert(0 <= witness_now < now.len() && zone_binding_live(
                now[witness_now],
                audio_zone_id,
                session_id,
                pl[i as int].output.id,
            ));
            // Bindings established for earlier players survive: an index
            // is either untouched or replaced by a binding that renders
            // the same session through the same output.
            assert forall|k: int|
                #![trigger pl.take(i as int + 1)[k]]
                0 <= k < i + 1 implies exists|b: int|
                0 <= b < now.len() && zone_binding_live(
                    #[trigger] now[b],
                    audio_zone_id,
                    session_id,
                    pl.take(i as int + 1)[k].output.id,
                ) by {
                assert(pl.take(i as int + 1)[k] == pl[k]);
                if k < i as int {
                    assert(pl.take(i as int)[k] == pl[k]);
                    let w = choose|b: int|
                        0 <= b < before.len() && zone_binding_live(
                            #[trigger] before[b],
                            audio_zone_id,
                            session_id,
                            pl.take(i as int)[k].output.id,
                        );
                    assert(now.len() >= before.len());
                    if now[w] == before[w] {
                        assert(zone_binding_live(
                            now[w],
                            audio_zone_id,
                            session_id,
                            pl[k].output.id,
                        ));
                    } else {
                        // Only the replacement index changed, and the
                        // replacement kept the (zone, session, output)
                        // triple of the binding it replaced.
                        assert(w == witness_now);
                        assert(before[w].output.id == pl[i as int].output.id);
                        assert(zone_binding_live(
                            now[witness_now],
                            audio_zone_id,
                            session_id,
                            pl[k].output.id,
                        ));
                    }
                } else {
                    assert(zone_binding_live(
                        now[witness_now],
                        audio_zone_id,
                        session_id,
                        pl[k].output.id,
                    ));
                }
            }
            assert(zone_players_covered(
                ctx.active_players.deep_view(),
                audio_zone_id,
                session_id,
                pl.take(i as int + 1),
            ));
        }
        i += 1;
    }
    proof {
        assert(players.deep_view().take(players@.len() as int) =~= players.deep_view());
    }
    Ok(effects)
}

/// The players of a zone joined with the registry of registered
/// players: each zone player that the registry knows, paired with the
/// backend kind and output device the registry holds for it, in zone
/// order; zone players the registry does not know are left out.
pub open spec fn zone_join_view(
    zone_players: Seq<crate::models::ApiPlayerView>,
    current: Seq<crate::context::RegisteredPlayerView>,
) -> Seq<crate::context::RegisteredPlayerView>
    decreases zone_players.len(),
{
    if zone_players.len() == 0 {
        Seq::<crate::context::RegisteredPlayerView>::empty()
    } else {
        let rest = zone_join_view(zone_players.drop_last(), current);
        match crate::registry::find_registered_by_player_id_view(
            current,
            zone_players.last().player_id,
        ) {
            Some(reg) => rest.push(
                crate::context::RegisteredPlayerView {
                    player: zone_players.last(),
                    kind: reg.kind,
                    output: reg.output,
                },
            ),
            None => rest,
        }
    }
}

/// Join a zone's players with the registered-player registry.
pub fn zone_registered_players(
    zone_players: &Vec<crate::models::ApiPlayer>,
    current: &Vec<crate::context::RegisteredPlayer>,
) -> (r: Vec<crate::context::RegisteredPlayer>)
    ensures
        r.deep_view() == zone_join_view(zone_players.deep_view(), current.deep_view()),
        r@.len() <= zone_players@.len(),
{
    let mut r: Vec<crate::context::RegisteredPlayer> = Vec::new();
    let mut i: usize = 0;
    while i < zone_players.len()
        invariant
            i <= zone_players.len(),
            r@.len() <= i,
            r.deep_view() =~= zone_join_view(
                zone_players.deep_view().take(i as int),
                current.deep_view(),
            ),
        decreases zone_players.len() - i,
    {
        let ghost zp = zone_players.deep_view();
        let ghost prev = r.deep_view();
        match crate::registry::find_registered_by_player_id(
            current,
            zone_players[i].player_id,
        ) {
            Some(reg) => {
                r.push(
                    crate::context::RegisteredPlayer {
                        player: zone_players[i].clone(),
                        kind: reg.kind,
                        output: reg.output.clone(),
                    },
                );
            },
            None => {},
        }
        proof {
            assert(zp.take(i as int + 1).drop_last() =~= zp.take(i as int));
            assert(zp.take(i as int + 1).last() == zp[i as int]);
            assert(r.deep_view() =~= zone_join_view(zp.take(i as int + 1), current.deep_view()));
        }
        i += 1;
    }
    proof {
        assert(zone_players.deep_view().take(zone_players@.len() as int) =~= (
        zone_players.deep_view()));
    }
    r
}

/// The combined number of player descriptors over a zone list.
pub open spec fn total_zone_players(
    zones: Seq<crate::models::ApiAudioZoneWithSessionView>,
) -> int
    decreases zones.len(),
{
    if zones.len() == 0 {
        0
    } else {
        zones[0].players.len() + total_zone_players(zones.skip(1))
    }
}

/// A zone found in a list accounts for no more player descriptors
/// than the list holds in total.
pub proof fn lemma_zone_players_bounded(
    zones: Seq<crate::models::ApiAudioZoneWithSessionView>,
    zone_id: u64,
)
    requires
        crate::registry::find_zone_view(zones, zone_id) is Some,
    ensures
        total_zone_players(zones) >= 0,
        crate::registry::find_zone_view(zones, zone_id).unwrap().players.len()
            <= total_zone_players(zones),
    decreases zones.len(),
{
    lemma_total_zone_players_nonneg(zones);
    if zones.len() > 0 {
        if zones[0].id == zone_id {
            lemma_total_zone_players_nonneg(zones.skip(1));
        } else {
            lemma_zone_players_bounded(zones.skip(1), zone_id);
        }
    }
}

/// Zone lists never account for a negative number of players.
pub proof fn lemma_total_zone_players_nonneg(
    zones: Seq<crate::models::ApiAudioZoneWithSessionView>,
)
    ensures
        total_zone_players(zones) >= 0,
    decreases zones.len(),
{
    if zones.len() > 0 {
        lemma_total_zone_players_nonneg(zones.skip(1));
    }
}

/// Every zone whose id is unambiguous in the list and whose players
/// the registry knows has its joined players covered by live
/// bindings for the zone's session.
pub open spec fn zones_rejoined(
    bindings: Seq<PlayerBindingView>,
    zones: Seq<crate::models::ApiAudioZoneWithSessionView>,
    registered: Seq<crate::context::RegisteredPlayerView>,
) -> bool {
    forall|z: int|
        0 <= z < zones.len() && (forall|z2: int|
            0 <= z2 < zones.len() && z2 != z ==> (#[trigger] zones[z2]).id != zones[z].id)
            && zone_join_view((#[trigger] zones[z]).players, registered).len() > 0
            ==> zone_players_covered(
            bindings,
            zones[z].id,
            zones[z].session_id,
            zone_join_view(zones[z].players, registered),
        )
}

/// Re-join every known zone with the registered players and make the
/// join the zone's active players.  Zones none of whose players are
/// registered are left alone; a zone already fully rendered is left
/// untouched by the installer's no-op reuse.
pub fn update_audio_zones(ctx: &mut AppContext) -> (r: Result<
    Vec<Effect>,
    crate::errors::TauriPlayerError,
>)
    requires
        old(ctx).next_player_id + total_zone_players(old(ctx).current_audio_zones.deep_view())
            <= u64::MAX,
        crate::context::pending_wf(old(ctx).pending_player_sessions@, old(ctx).next_player_id),
    ensures
        r is Err ==> old(ctx).api_url is None,
        old(ctx).api_url is Some ==> r is Ok,
        r is Ok ==> zones_rejoined(
            final(ctx).active_players.deep_view(),
            old(ctx).current_audio_zones.deep_view(),
            old(ctx).current_players.deep_view(),
        ),
        final(ctx).active_players.deep_view().len() >= old(ctx).active_players.deep_view().len(),
        crate::context::pending_wf(
            final(ctx).pending_player_sessions@,
            final(ctx).next_player_id,
        ),
        crate::context::pending_extended(
            old(ctx).pending_player_sessions@,
            final(ctx).pending_player_sessions@,
            old(ctx).next_player_id,
        ),
        final(ctx).next_player_id >= old(ctx).next_player_id,
        final(ctx).next_player_id <= old(ctx).next_player_id + total_zone_players(
            old(ctx).current_audio_zones.deep_view(),
        ),
        final(ctx).connection_id == old(ctx).connection_id,
        final(ctx).connection_name == old(ctx).connection_name,
        final(ctx).api_url == old(ctx).api_url,
        final(ctx).ws_url == old(ctx).ws_url,
        final(ctx).client_id == old(ctx).client_id,
        final(ctx).signature_token == old(ctx).signature_token,
        final(ctx).api_token == old(ctx).api_token,
        final(ctx).current_playback_target == old(ctx).current_playback_target,
        final(ctx).current_session_id == old(ctx).current_session_id,
        final(ctx).current_sessions == old(ctx).current_sessions,
        final(ctx).current_connections == old(ctx).current_connections,
        final(ctx).current_audio_zones == old(ctx).current_audio_zones,
        final(ctx).current_players == old(ctx).current_players,
        final(ctx).available_outputs == old(ctx).available_outputs,
        final(ctx).playback_quality == old(ctx).playback_quality,
        final(ctx).ws_message_buffer == old(ctx).ws_message_buffer,
        final(ctx).ws_connected == old(ctx).ws_connected,
{
    let zones = crate::models::clone_zones(&ctx.current_audio_zones);
    let ghost zv = zones.deep_view();
    let ghost regv = old(ctx).current_players.deep_view();
    proof {
        assert(zv.skip(0) =~= zv);
        crate::context::lemma_pending_extended_refl(
            ctx.pending_player_sessions@,
            ctx.next_player_id,
        );
    }
    let mut effects: Vec<Effect> = Vec::new();
    let mut i: usize = 0;
    while i < zones.len()
        invariant
            i <= zones.len(),
            zv == zones.deep_view(),
            zv == old(ctx).current_audio_zones.deep_view(),
            regv == old(ctx).current_players.deep_view(),
            ctx.active_players.deep_view().len() >= old(
                ctx,
            ).active_players.deep_view().len(),
            forall|z: int|
                0 <= z < i && (forall|z2: int|
                    0 <= z2 < zv.len() && z2 != z ==> (#[trigger] zv[z2]).id != zv[z].id)
                    && zone_join_view((#[trigger] zv[z]).players, regv).len() > 0
                    ==> zone_players_covered(
                    ctx.active_players.deep_view(),
                    zv[z].id,
                    zv[z].session_id,
                    zone_join_view(zv[z].players, regv),
                ),
            ctx.next_player_id + total_zone_players(zv.skip(i as int)) <= u64::MAX,
            ctx.next_player_id + total_zone_players(zv.skip(i as int)) <= old(
                ctx,
            ).next_player_id + total_zone_players(zv),
            crate::context::pending_wf(ctx.pending_player_sessions@, ctx.next_player_id),
            crate::context::pending_extended(
                old(ctx).pending_player_sessions@,
                ctx.pending_player_sessions@,
                old(ctx).next_player_id,
            ),
            ctx.next_player_id >= old(ctx).next_player_id,
            ctx.connection_id == old(ctx).connection_id,
            ctx.connection_name == old(ctx).connection_name,
            ctx.api_url == old(ctx).api_url,
            ctx.ws_url == old(ctx).ws_url,
            ctx.client_id == old(ctx).client_id,
            ctx.signature_token == old(ctx).signature_token,
            ctx.api_token == old(ctx).api_token,
            ctx.current_playback_target == old(ctx).current_playback_target,
            ctx.current_session_id == old(ctx).current_session_id,
            ctx.current_sessions == old(ctx).current_sessions,
            ctx.current_connections == old(ctx).current_connections,
            ctx.current_audio_zones == old(ctx).current_audio_zones,
            ctx.current_players == old(ctx).current_players,
            ctx.available_outputs == old(ctx).available_outputs,
            ctx.playback_quality == old(ctx).playback_quality,
            ctx.ws_message_buffer == old(ctx).ws_message_buffer,
            ctx.ws_connected == old(ctx).ws_connected,
        decreases zones.len() - i,
    {
        proof {
            assert(zv.skip(i as int)[0] == zv[i as int]);
            assert(zv.skip(i as int).skip(1) =~= zv.skip(i as int + 1));
            lemma_total_zone_players_nonneg(zv.skip(i as int + 1));
        }
        let zone = &zones[i];
        proof {
            assert(zones.deep_view()[i as int] == zones@[i as int].deep_view());
        }
        let players = zone_registered_players(&zone.players, &ctx.current_players);
        let ghost pend_iter = ctx.pending_player_sessions@;
        let ghost next_iter = ctx.next_player_id;
        let ghost before_call = ctx.active_players.deep_view();
        if players.len() > 0 {
            match set_audio_zone_active_players(ctx, zone.session_id, zone.id, &players) {
                Ok(mut fx) => {
                    effects.append(&mut fx);
                },
                Err(e) => {
                    proof {
                        crate::context::lemma_pending_extended_trans(
                            old(ctx).pending_player_sessions@,
                            pend_iter,
                            ctx.pending_player_sessions@,
                            old(ctx).next_player_id,
                            next_iter,
                        );
                    }
                    return Err(e);
                },
            }
        }
        proof {
            crate::context::lemma_pending_extended_trans(
                old(ctx).pending_player_sessions@,
                pend_iter,
                ctx.pending_player_sessions@,
                old(ctx).next_player_id,
                next_iter,
            );
            let now = ctx.active_players.deep_view();
            assert forall|z: int|
                0 <= z < i + 1 && (forall|z2: int|
                    0 <= z2 < zv.len() && z2 != z ==> (#[trigger] zv[z2]).id != zv[z].id)
                    && zone_join_view((#[trigger] zv[z]).players, regv).len() > 0
                    implies zone_players_covered(
                now,
                zv[z].id,
                zv[z].session_id,
                zone_join_view(zv[z].players, regv),
            ) by {
                let join = zone_join_view(zv[z].players, regv);
                if z < i as int {
                    // Zones handled earlier keep their coverage: the
                    // call for this zone's distinct id never disturbs a
                    // binding for another zone target.
                    assert(zv[i as int].id != zv[z].id);
                    assert forall|k: int|
                        #![trigger join[k]]
                        0 <= k < join.len() implies exists|b: int|
                        0 <= b < now.len() && zone_binding_live(
                            #[trigger] now[b],
                            zv[z].id,
                            zv[z].session_id,
                            join[k].output.id,
                        ) by {
                        let w = choose|b: int|
                            0 <= b < before_call.len() && zone_binding_live(
                                #[trigger] before_call[b],
                                zv[z].id,
                                zv[z].session_id,
                                join[k].output.id,
                            );
                        assert(zone_binding_untouchable(
                            before_call[w],
                            zv[i as int].id,
                            zv[i as int].session_id,
                        ));
                        assert(now[w] == before_call[w]);
                    }
                } else {
                    // This iteration installed the zone's players.
                    assert(players.deep_view() == join);
                }
            }
        }
        i += 1;
    }
    Ok(effects)
}

/// The key of a connection-output binding: one binding may exist per
/// (connection output target, session) pair.
pub open spec fn conn_binding_keyed(
    b: PlayerBindingView,
    connection_id: Seq<char>,
    output_id: Seq<char>,
    session_id: u64,
) -> bool {
    &&& b.playback_target == (TargetView::ConnectionOutput { connection_id, output_id })
    &&& b.session_id == session_id
}

fn exists_conn_binding(
    bindings: &Vec<crate::player::PlayerBinding>,
    connection_id: &String,
    output_id: &String,
    session_id: u64,
) -> (r: bool)
    ensures
        r == exists|i: int|
            0 <= i < bindings.deep_view().len() && conn_binding_keyed(
                #[trigger] bindings.deep_view()[i],
                connection_id@,
                output_id@,
                session_id,
            ),
{
    let mut i: usize = 0;
    while i < bindings.len()
        invariant
            i <= bindings.len(),
            forall|j: int|
                0 <= j < i ==> !conn_binding_keyed(
                    #[trigger] bindings.deep_view()[j],
                    connection_id@,
                    output_id@,
                    session_id,
                ),
        decreases bindings.len() - i,
    {
        let b = &bindings[i];
        let target_ok = match &b.playback_target {
            PlaybackTarget::ConnectionOutput { connection_id: cid, output_id: oid } => (*cid
                == *connection_id && *oid == *output_id),
            _ => false,
        };
        if target_ok && b.session_id == session_id {
            proof {
                assert(conn_binding_keyed(
                    bindings.deep_view()[i as int],
                    connection_id@,
                    output_id@,
                    session_id,
                ));
            }
            return true;
        }
        i += 1;
    }
    false
}

/// Every session of the list has a binding for every available output
/// that the registry knows a registered player for, on this
/// connection.
pub open spec fn connection_outputs_covered(
    bindings: Seq<PlayerBindingView>,
    connection_id: Seq<char>,
    outputs: Seq<crate::models::AudioOutputView>,
    registered: Seq<crate::context::RegisteredPlayerView>,
    session_ids: Seq<u64>,
) -> bool {
    forall|o: int|
        0 <= o < outputs.len() && crate::registry::find_registered_by_output_view(
            registered,
            (#[trigger] outputs[o]).id,
        ) is Some ==> output_sessions_covered(bindings, connection_id, outputs[o].id, session_ids)
}

/// Some binding carries this (connection output, session) key.
pub open spec fn has_conn_binding(
    bindings: Seq<PlayerBindingView>,
    connection_id: Seq<char>,
    output_id: Seq<char>,
    session_id: u64,
) -> bool {
    exists|b: int|
        0 <= b < bindings.len() && conn_binding_keyed(
            #[trigger] bindings[b],
            connection_id,
            output_id,
            session_id,
        )
}

/// Every listed session has a binding for this connection output.
pub open spec fn output_sessions_covered(
    bindings: Seq<PlayerBindingView>,
    connection_id: Seq<char>,
    output_id: Seq<char>,
    session_ids: Seq<u64>,
) -> bool {
    forall|s: int|
        0 <= s < session_ids.len() ==> has_conn_binding(
            bindings,
            connection_id,
            output_id,
            #[trigger] session_ids[s],
        )
}

/// A binding that exists keeps existing when the binding list is
/// extended at the end.
pub proof fn lemma_has_conn_binding_extend(
    before: Seq<PlayerBindingView>,
    now: Seq<PlayerBindingView>,
    connection_id: Seq<char>,
    output_id: Seq<char>,
    session_id: u64,
)
    requires
        now.len() >= before.len(),
        forall|k: int| 0 <= k < before.len() ==> #[trigger] now[k] == before[k],
        has_conn_binding(before, connection_id, output_id, session_id),
    ensures
        has_conn_binding(now, connection_id, output_id, session_id),
{
    let w = choose|b: int|
        0 <= b < before.len() && conn_binding_keyed(
            #[trigger] before[b],
            connection_id,
            output_id,
            session_id,
        );
    assert(now[w] == before[w]);
    assert(conn_binding_keyed(now[w], connection_id, output_id, session_id));
}

/// Give one registered output a binding for every listed session on
/// this connection, appending a fresh player wherever one is missing.
fn ensure_output_session_bindings(
    ctx: &mut AppContext,
    connection_id: &String,
    output_id: &String,
    kind: crate::player::PlayerKind,
    reg_output: &crate::models::AudioOutput,
    session_ids: &Vec<u64>,
) -> (r: Result<Vec<Effect>, crate::errors::TauriPlayerError>)
    requires
        old(ctx).next_player_id + session_ids@.len() <= u64::MAX,
        crate::context::pending_wf(old(ctx).pending_player_sessions@, old(ctx).next_player_id),
    ensures
        r is Err ==> old(ctx).api_url is None,
        old(ctx).api_url is Some ==> r is Ok,
        r is Ok ==> output_sessions_covered(
            final(ctx).active_players.deep_view(),
            connection_id@,
            output_id@,
            session_ids@,
        ),
        final(ctx).active_players.deep_view().len() >= old(ctx).active_players.deep_view().len(),
        forall|k: int|
            0 <= k < old(ctx).active_players.deep_view().len()
                ==> #[trigger] final(ctx).active_players.deep_view()[k] == old(
                ctx,
            ).active_players.deep_view()[k],
        output_sessions_covered(
            old(ctx).active_players.deep_view(),
            connection_id@,
            output_id@,
            session_ids@,
        ) ==> {
            &&& r is Ok
            &&& final(ctx).active_players == old(ctx).active_players
            &&& final(ctx).next_player_id == old(ctx).next_player_id
            &&& final(ctx).pending_player_sessions == old(ctx).pending_player_sessions
            &&& (r matches Ok(effects) ==> effects@.len() == 0)
        },
        crate::context::pending_wf(
            final(ctx).pending_player_sessions@,
            final(ctx).next_player_id,
        ),
        crate::context::pending_extended(
            old(ctx).pending_player_sessions@,
            final(ctx).pending_player_sessions@,
            old(ctx).next_player_id,
        ),
        final(ctx).next_player_id >= old(ctx).next_player_id,
        final(ctx).next_player_id <= old(ctx).next_player_id + session_ids@.len(),
        final(ctx).connection_id == old(ctx).connection_id,
        final(ctx).connection_name == old(ctx).connection_name,
        final(ctx).api_url == old(ctx).api_url,
        final(ctx).ws_url == old(ctx).ws_url,
        final(ctx).client_id == old(ctx).client_id,
        final(ctx).signature_token == old(ctx).signature_token,
        final(ctx).api_token == old(ctx).api_token,
        final(ctx).current_playback_target == old(ctx).current_playback_target,
        final(ctx).current_session_id == old(ctx).current_session_id,
        final(ctx).current_sessions == old(ctx).current_sessions,
        final(ctx).current_connections == old(ctx).current_connections,
        final(ctx).current_audio_zones == old(ctx).current_audio_zones,
        final(ctx).current_players == old(ctx).current_players,
        final(ctx).available_outputs == old(ctx).available_outputs,
        final(ctx).playback_quality == old(ctx).playback_quality,
        final(ctx).ws_message_buffer == old(ctx).ws_message_buffer,
        final(ctx).ws_connected == old(ctx).ws_connected,
{
    let ghost sv = session_ids@;
    proof {
        crate::context::lemma_pending_extended_refl(
            ctx.pending_player_sessions@,
            ctx.next_player_id,
        );
    }
    let mut effects: Vec<Effect> = Vec::new();
    let mut j: usize = 0;
    while j < session_ids.len()
        invariant
            j <= session_ids.len(),
            sv == session_ids@,
            ctx.next_player_id + (sv.len() - j) <= u64::MAX,
            crate::context::pending_wf(ctx.pending_player_sessions@, ctx.next_player_id),
            crate::context::pending_extended(
                old(ctx).pending_player_sessions@,
                ctx.pending_player_sessions@,
                old(ctx).next_player_id,
            ),
            ctx.next_player_id >= old(ctx).next_player_id,
            ctx.next_player_id <= old(ctx).next_player_id + j,
            ctx.active_players.deep_view().len() >= old(
                ctx,
            ).active_players.deep_view().len(),
            forall|k: int|
                0 <= k < old(ctx).active_players.deep_view().len()
                    ==> #[trigger] ctx.active_players.deep_view()[k] == old(
                    ctx,
                ).active_players.deep_view()[k],
            forall|s: int|
                0 <= s < j ==> has_conn_binding(
                    ctx.active_players.deep_view(),
                    connection_id@,
                    output_id@,
                    #[trigger] sv[s],
                ),
            output_sessions_covered(
                old(ctx).active_players.deep_view(),
                connection_id@,
                output_id@,
                sv,
            ) ==> {
                &&& ctx.active_players == old(ctx).active_players
                &&& ctx.next_player_id == old(ctx).next_player_id
                &&& ctx.pending_player_sessions == old(ctx).pending_player_sessions
                &&& effects@.len() == 0
            },
            ctx.connection_id == old(ctx).connection_id,
            ctx.connection_name == old(ctx).connection_name,
            ctx.api_url == old(ctx).api_url,
            ctx.ws_url == old(ctx).ws_url,
            ctx.client_id == old(ctx).client_id,
            ctx.signature_token == old(ctx).signature_token,
            ctx.api_token == old(ctx).api_token,
            ctx.current_playback_target == old(ctx).current_playback_target,
            ctx.current_session_id == old(ctx).current_session_id,
            ctx.current_sessions == old(ctx).current_sessions,
            ctx.current_connections == old(ctx).current_connections,
            ctx.current_audio_zones == old(ctx).current_audio_zones,
            ctx.current_players == old(ctx).current_players,
            ctx.available_outputs == old(ctx).available_outputs,
            ctx.playback_quality == old(ctx).playback_quality,
            ctx.ws_message_buffer == old(ctx).ws_message_buffer,
            ctx.ws_connected == old(ctx).ws_connected,
        decreases session_ids.len() - j,
    {
        let session_id = session_ids[j];
        let ghost before = ctx.active_players.deep_view();
        let ghost braw = ctx.active_players@;
        let ghost pend_iter = ctx.pending_player_sessions@;
        let ghost next_iter = ctx.next_player_id;
        let ghost mut witness: int = 0;
        if exists_conn_binding(&ctx.active_players, connection_id, output_id, session_id) {
            proof {
                witness = choose|b: int|
                    0 <= b < before.len() && conn_binding_keyed(
                        #[trigger] before[b],
                        connection_id@,
                        output_id@,
                        session_id,
                    );
            }
        } else {
            proof {
                // Were every listed session already bound on this
                // output, this one would have been found.
                if output_sessions_covered(
                    old(ctx).active_players.deep_view(),
                    connection_id@,
                    output_id@,
                    sv,
                ) {
                    assert(sv[j as int] == sv[j as int]);
                    assert(has_conn_binding(
                        old(ctx).active_players.deep_view(),
                        connection_id@,
                        output_id@,
                        sv[j as int],
                    ));
                    assert(false);
                }
            }
            let target = PlaybackTarget::ConnectionOutput {
                connection_id: connection_id.clone(),
                output_id: output_id.clone(),
            };
            let (player, mut fx) = match crate::lifecycle::new_player(
                ctx,
                session_id,
                &target,
                reg_output,
                kind,
            ) {
                Ok(res) => res,
                Err(e) => {
                    return Err(e);
                },
            };
            effects.append(&mut fx);
            ctx.active_players.push(
                crate::player::PlayerBinding {
                    playback_target: target,
                    session_id,
                    player,
                    player_type: kind,
                    output: reg_output.clone(),
                },
            );
            proof {
                witness = ctx.active_players.deep_view().len() - 1;
            }
        }
        proof {
            crate::context::lemma_pending_extended_trans(
                old(ctx).pending_player_sessions@,
                pend_iter,
                ctx.pending_player_sessions@,
                old(ctx).next_player_id,
                next_iter,
            );
            let now = ctx.active_players.deep_view();
            assert forall|k: int|
                0 <= k < before.len() implies #[trigger] now[k] == before[k] by {
                assert(ctx.active_players@[k] == braw[k]);
                assert(now[k] == ctx.active_players@[k].deep_view());
                assert(before[k] == braw[k].deep_view());
            }
            assert(0 <= witness < now.len() && conn_binding_keyed(
                now[witness],
                connection_id@,
                output_id@,
                sv[j as int],
            ));
            assert forall|s: int|
                0 <= s < j + 1 implies has_conn_binding(
                now,
                connection_id@,
                output_id@,
                #[trigger] sv[s],
            ) by {
                if s < j as int {
                    lemma_has_conn_binding_extend(
                        before,
                        now,
                        connection_id@,
                        output_id@,
                        sv[s],
                    );
                } else {
                    assert(conn_binding_keyed(
                        now[witness],
                        connection_id@,
                        output_id@,
                        sv[s],
                    ));
                }
            }
        }
        j += 1;
    }
    proof {
        let bindings = ctx.active_players.deep_view();
        assert forall|s: int|
            0 <= s < session_ids@.len() implies has_conn_binding(
            bindings,
            connection_id@,
            output_id@,
            #[trigger] session_ids@[s],
        ) by {
            assert(sv[s] == session_ids@[s]);
            assert(has_conn_binding(bindings, connection_id@, output_id@, sv[s]));
        }
        assert(output_sessions_covered(bindings, connection_id@, output_id@, session_ids@));
    }
    Ok(effects)
}

/// Ensure every available output that is registered as a player has a
/// binding for every given session, targeting this connection's
/// output.  Does nothing when no connection identity is known.
pub fn update_connection_outputs(ctx: &mut AppContext, session_ids: &Vec<u64>) -> (r: Result<
    Vec<Effect>,
    crate::errors::TauriPlayerError,
>)
    requires
        old(ctx).next_player_id + old(ctx).available_outputs@.len() * session_ids@.len()
            <= u64::MAX,
        crate::context::pending_wf(old(ctx).pending_player_sessions@, old(ctx).next_player_id),
    ensures
        r is Err ==> old(ctx).api_url is None,
        old(ctx).connection_id is None ==> r is Ok && *final(ctx) == *old(ctx),
        (old(ctx).api_url is Some || old(ctx).connection_id is None) ==> r is Ok,
        r is Ok ==> (old(ctx).connection_id matches Some(cid)
            ==> connection_outputs_covered(
            final(ctx).active_players.deep_view(),
            cid@,
            old(ctx).available_outputs.deep_view(),
            old(ctx).current_players.deep_view(),
            session_ids@,
        )),
        final(ctx).active_players.deep_view().len() >= old(ctx).active_players.deep_view().len(),
        forall|b: int|
            0 <= b < old(ctx).active_players.deep_view().len()
                ==> #[trigger] final(ctx).active_players.deep_view()[b] == old(
                ctx,
            ).active_players.deep_view()[b],
        (old(ctx).connection_id matches Some(cid) && connection_outputs_covered(
            old(ctx).active_players.deep_view(),
            cid@,
            old(ctx).available_outputs.deep_view(),
            old(ctx).current_players.deep_view(),
            session_ids@,
        )) ==> {
            &&& r is Ok
            &&& final(ctx).active_players == old(ctx).active_players
            &&& final(ctx).next_player_id == old(ctx).next_player_id
            &&& final(ctx).pending_player_sessions == old(ctx).pending_player_sessions
            &&& (r matches Ok(effects) ==> effects@.len() == 0)
        },
        crate::context::pending_wf(
            final(ctx).pending_player_sessions@,
            final(ctx).next_player_id,
        ),
        crate::context::pending_extended(
            old(ctx).pending_player_sessions@,
            final(ctx).pending_player_sessions@,
            old(ctx).next_player_id,
        ),
        final(ctx).next_player_id >= old(ctx).next_player_id,
        final(ctx).connection_id == old(ctx).connection_id,
        final(ctx).connection_name == old(ctx).connection_name,
        final(ctx).api_url == old(ctx).api_url,
        final(ctx).ws_url == old(ctx).ws_url,
        final(ctx).client_id == old(ctx).client_id,
        final(ctx).signature_token == old(ctx).signature_token,
        final(ctx).api_token == old(ctx).api_token,
        final(ctx).current_playback_target == old(ctx).current_playback_target,
        final(ctx).current_session_id == old(ctx).current_session_id,
        final(ctx).current_sessions == old(ctx).current_sessions,
        final(ctx).current_connections == old(ctx).current_connections,
        final(ctx).current_audio_zones == old(ctx).current_audio_zones,
        final(ctx).current_players == old(ctx).current_players,
        final(ctx).available_outputs == old(ctx).available_outputs,
        final(ctx).playback_quality == old(ctx).playback_quality,
        final(ctx).ws_message_buffer == old(ctx).ws_message_buffer,
        final(ctx).ws_connected == old(ctx).ws_connected,
{
    proof {
        crate::context::lemma_pending_extended_refl(
            ctx.pending_player_sessions@,
            ctx.next_player_id,
        );
    }
    let connection_id = match &ctx.connection_id {
        Some(cid) => cid.clone(),
        None => {
            return Ok(Vec::new());
        },
    };
    let outputs = crate::models::clone_outputs(&ctx.available_outputs);
    let ghost ov = outputs.deep_view();
    let ghost sv = session_ids@;
    let ghost cidv = connection_id@;
    let ghost regv = old(ctx).current_players.deep_view();
    let mut effects: Vec<Effect> = Vec::new();
    let mut i: usize = 0;
    while i < outputs.len()
        invariant
            i <= outputs.len(),
            ov == outputs.deep_view(),
            ov == old(ctx).available_outputs.deep_view(),
            sv == session_ids@,
            cidv == connection_id@,
            regv == old(ctx).current_players.deep_view(),
            Some(cidv) == old(ctx).connection_id.deep_view(),
            ctx.next_player_id + (ov.len() - i) * sv.len() <= u64::MAX,
            crate::context::pending_wf(ctx.pending_player_sessions@, ctx.next_player_id),
            crate::context::pending_extended(
                old(ctx).pending_player_sessions@,
                ctx.pending_player_sessions@,
                old(ctx).next_player_id,
            ),
            ctx.next_player_id >= old(ctx).next_player_id,
            ctx.active_players.deep_view().len() >= old(
                ctx,
            ).active_players.deep_view().len(),
            forall|b: int|
                0 <= b < old(ctx).active_players.deep_view().len()
                    ==> #[trigger] ctx.active_players.deep_view()[b] == old(
                    ctx,
                ).active_players.deep_view()[b],
            connection_outputs_covered(
                old(ctx).active_players.deep_view(),
                cidv,
                ov,
                regv,
                sv,
            ) ==> {
                &&& ctx.active_players == old(ctx).active_players
                &&& ctx.next_player_id == old(ctx).next_player_id
                &&& ctx.pending_player_sessions == old(ctx).pending_player_sessions
                &&& effects@.len() == 0
            },
            connection_outputs_covered(
                ctx.active_players.deep_view(),
                cidv,
                ov.take(i as int),
                regv,
                sv,
            ),
            ctx.connection_id == old(ctx).connection_id,
            ctx.connection_name == old(ctx).connection_name,
            ctx.api_url == old(ctx).api_url,
            ctx.ws_url == old(ctx).ws_url,
            ctx.client_id == old(ctx).client_id,
            ctx.signature_token == old(ctx).signature_token,
            ctx.api_token == old(ctx).api_token,
            ctx.current_playback_target == old(ctx).current_playback_target,
            ctx.current_session_id == old(ctx).current_session_id,
            ctx.current_sessions == old(ctx).current_sessions,
            ctx.current_connections == old(ctx).current_connections,
            ctx.current_audio_zones == old(ctx).current_audio_zones,
            ctx.current_players == old(ctx).current_players,
            ctx.available_outputs == old(ctx).available_outputs,
            ctx.playback_quality == old(ctx).playback_quality,
            ctx.ws_message_buffer == old(ctx).ws_message_buffer,
            ctx.ws_connected == old(ctx).ws_connected,
        decreases outputs.len() - i,
    {
        proof {
            assert((ov.len() - i as int) * sv.len() == (ov.len() - i as int - 1) * sv.len()
                + sv.len()) by (nonlinear_arith);
            assert((ov.len() - i as int - 1) * sv.len() >= 0) by (nonlinear_arith)
                requires
                    i < ov.len(),
                    sv.len() >= 0,
            ;
        }
        let output = &outputs[i];
        proof {
            assert(outputs.deep_view()[i as int] == outputs@[i as int].deep_view());
            assert(output.id@ == ov[i as int].id);
        }
        let registered = match crate::registry::find_registered_by_output(
            &ctx.current_players,
            &output.id,
        ) {
            Some(reg) => Some((reg.kind, reg.output.clone())),
            None => None,
        };
        let ghost before = ctx.active_players.deep_view();
        let ghost pend_iter = ctx.pending_player_sessions@;
        let ghost next_iter = ctx.next_player_id;
        proof {
            if connection_outputs_covered(
                old(ctx).active_players.deep_view(),
                cidv,
                ov,
                regv,
                sv,
            ) && crate::registry::find_registered_by_output_view(regv, ov[i as int].id)
                is Some {
                assert(ov[i as int] == ov[i as int]);
                assert(output_sessions_covered(
                    old(ctx).active_players.deep_view(),
                    cidv,
                    ov[i as int].id,
                    sv,
                ));
            }
        }
        match registered {
            Some((kind, reg_output)) => {
                match ensure_output_session_bindings(
                    ctx,
                    &connection_id,
                    &output.id,
                    kind,
                    &reg_output,
                    session_ids,
                ) {
                    Ok(mut fx) => {
                        effects.append(&mut fx);
                    },
                    Err(e) => {
                        proof {
                            crate::context::lemma_pending_extended_trans(
                                old(ctx).pending_player_sessions@,
                                pend_iter,
                                ctx.pending_player_sessions@,
                                old(ctx).next_player_id,
                                next_iter,
                            );
                        }
                        return Err(e);
                    },
                }
            },
            None => {},
        }
        proof {
            crate::context::lemma_pending_extended_trans(
                old(ctx).pending_player_sessions@,
                pend_iter,
                ctx.pending_player_sessions@,
                old(ctx).next_player_id,
                next_iter,
            );
            let now = ctx.active_players.deep_view();
            assert forall|o: int|
                0 <= o < i + 1 && crate::registry::find_registered_by_output_view(
                    regv,
                    (#[trigger] ov.take(i as int + 1)[o]).id,
                ) is Some implies output_sessions_covered(
                now,
                cidv,
                ov.take(i as int + 1)[o].id,
                sv,
            ) by {
                assert(ov.take(i as int + 1)[o] == ov[o]);
                if o < i as int {
                    assert(ov.take(i as int)[o] == ov[o]);
                    assert(output_sessions_covered(before, cidv, ov[o].id, sv));
                    assert forall|x: int|
                        0 <= x < sv.len() implies has_conn_binding(
                        now,
                        cidv,
                        ov[o].id,
                        #[trigger] sv[x],
                    ) by {
                        lemma_has_conn_binding_extend(before, now, cidv, ov[o].id, sv[x]);
                    }
                } else {
                    assert(output_sessions_covered(now, cidv, output.id@, session_ids@));
                    assert forall|x: int|
                        0 <= x < sv.len() implies has_conn_binding(
                        now,
                        cidv,
                        ov[o].id,
                        #[trigger] sv[x],
                    ) by {
                        assert(session_ids@[x] == sv[x]);
                        assert(has_conn_binding(now, cidv, output.id@, session_ids@[x]));
                    }
                }
            }
            assert(connection_outputs_covered(now, cidv, ov.take(i as int + 1), regv, sv));
        }
        i += 1;
    }
    proof {
        assert(ov.take(ov.len() as int) =~= ov);
    }
    Ok(effects)
}

/// Whether some binding matches the delta's session and target.
pub open spec fn any_binding_matches(
    bindings: Seq<PlayerBindingView>,
    session_id: u64,
    target: TargetView,
) -> bool {
    exists|i: int|
        0 <= i < bindings.len() && binding_matches(#[trigger] bindings[i], session_id, Some(target))
}

/// Whether the effect list asks the host to apply this delta to this
/// player.
pub open spec fn has_update_effect(
    effects: Seq<crate::protocol::EffectView>,
    player_id: u64,
    update: ApiUpdateSessionView,
) -> bool {
    exists|e: int|
        0 <= e < effects.len() && (#[trigger] effects[e]) == (crate::protocol::EffectView::UpdatePlayer {
            player_id,
            update,
        })
}

/// The fields a delta sets are what the player reports afterwards.
pub open spec fn delta_fields_applied(p: PlayerStateView, u: ApiUpdateSessionView) -> bool {
    &&& (u.playing matches Some(x) ==> p.playing == x)
    &&& (u.position matches Some(x) ==> p.position == x)
    &&& (u.seek matches Some(x) ==> p.seek == x)
    &&& (u.volume matches Some(x) ==> p.volume == x)
}

/// Every given player has a live binding for the session on the zone
/// whose player state carries the delta's fields.
pub open spec fn zone_players_updated(
    bindings: Seq<PlayerBindingView>,
    zone_id: u64,
    session_id: u64,
    players: Seq<crate::context::RegisteredPlayerView>,
    update: ApiUpdateSessionView,
) -> bool {
    forall|k: int|
        #![trigger players[k]]
        0 <= k < players.len() ==> exists|b: int|
            0 <= b < bindings.len() && zone_binding_live(
                #[trigger] bindings[b],
                zone_id,
                session_id,
                players[k].output.id,
            ) && delta_fields_applied(bindings[b].player, update)
}

/// What one matching binding becomes when a delta reaches it: its
/// player takes the merged delta; everything else stays.
pub open spec fn reconciled_binding_view(
    b: PlayerBindingView,
    update: ApiUpdateSessionView,
    sessions: Seq<crate::models::ApiSessionView>,
) -> PlayerBindingView {
    PlayerBindingView {
        playback_target: b.playback_target,
        session_id: b.session_id,
        player: apply_update_view(
            b.player,
            merge_update_for_player_view(update, b.player, sessions),
        ),
        player_type: b.player_type,
        output: b.output,
    }
}

/// Apply an inbound session delta.
///
/// The delta is mirrored to the plugin surface when it concerns the
/// session the surface shows, installs its quality globally, and is
/// applied — merged over the canonical session fields — to every
/// binding matching its (session, target) pair, each player
/// independently.  When no binding matches and the target is a zone
/// the registry knows, a zone-with-session record is synthesized from
/// the known zone metadata, registered, and resolution is retried
/// exactly once.
pub fn handle_playback_update(ctx: &mut AppContext, update: &ApiUpdateSession) -> (r: Result<
    Vec<Effect>,
    crate::errors::TauriPlayerError,
>)
    requires
        old(ctx).next_player_id + total_zone_players(old(ctx).current_audio_zones.deep_view())
            <= u64::MAX,
        crate::context::pending_wf(old(ctx).pending_player_sessions@, old(ctx).next_player_id),
    ensures
        r is Err ==> old(ctx).api_url is None,
        r matches Ok(effects) ==> crate::protocol::sent_commands(effects.deep_view())
            == Seq::<crate::protocol::OutboundCommandView>::empty(),
        update.quality is Some ==> final(ctx).playback_quality == update.quality,
        update.quality is None ==> final(ctx).playback_quality == old(ctx).playback_quality,
        any_binding_matches(
            old(ctx).active_players.deep_view(),
            update.session_id,
            update.playback_target.deep_view(),
        ) ==> r is Ok && {
            &&& final(ctx).active_players.deep_view().len() == old(
                ctx,
            ).active_players.deep_view().len()
            &&& forall|i: int|
                0 <= i < old(ctx).active_players.deep_view().len()
                    ==> #[trigger] final(ctx).active_players.deep_view()[i] == (
                if binding_matches(
                    old(ctx).active_players.deep_view()[i],
                    update.session_id,
                    Some(update.playback_target.deep_view()),
                ) {
                    reconciled_binding_view(
                        old(ctx).active_players.deep_view()[i],
                        update.deep_view(),
                        old(ctx).current_sessions.deep_view(),
                    )
                } else {
                    old(ctx).active_players.deep_view()[i]
                })
            &&& final(ctx).current_audio_zones == old(ctx).current_audio_zones
            &&& final(ctx).pending_player_sessions == old(ctx).pending_player_sessions
            &&& final(ctx).next_player_id == old(ctx).next_player_id
        },
        r matches Ok(effects) ==> forall|i: int|
            0 <= i < old(ctx).active_players.deep_view().len() && binding_matches(
                #[trigger] old(ctx).active_players.deep_view()[i],
                update.session_id,
                Some(update.playback_target.deep_view()),
            ) ==> has_update_effect(
                effects.deep_view(),
                old(ctx).active_players.deep_view()[i].player.id,
                merge_update_for_player_view(
                    update.deep_view(),
                    old(ctx).active_players.deep_view()[i].player,
                    old(ctx).current_sessions.deep_view(),
                ),
            ),
        r is Ok && !any_binding_matches(
            old(ctx).active_players.deep_view(),
            update.session_id,
            update.playback_target.deep_view(),
        ) ==> (update.playback_target.deep_view() matches TargetView::AudioZone { audio_zone_id }
            ==> (crate::registry::find_zone_view(
            old(ctx).current_audio_zones.deep_view(),
            audio_zone_id,
        ) matches Some(zone) ==> (old(ctx).api_url is Some ==> zone_players_updated(
            final(ctx).active_players.deep_view(),
            audio_zone_id,
            update.session_id,
            zone_join_view(zone.players, old(ctx).current_players.deep_view()),
            update.deep_view(),
        ) && zone_players_covered(
            final(ctx).active_players.deep_view(),
            audio_zone_id,
            update.session_id,
            zone_join_view(zone.players, old(ctx).current_players.deep_view()),
        )))),
        final(ctx).current_audio_zones@.len() == old(ctx).current_audio_zones@.len(),
        forall|j: int|
            0 <= j < old(ctx).current_audio_zones@.len() ==> {
                &&& (#[trigger] final(ctx).current_audio_zones.deep_view()[j]).id == old(
                    ctx,
                ).current_audio_zones.deep_view()[j].id
                &&& final(ctx).current_audio_zones.deep_view()[j].name == old(
                    ctx,
                ).current_audio_zones.deep_view()[j].name
                &&& final(ctx).current_audio_zones.deep_view()[j].players == old(
                    ctx,
                ).current_audio_zones.deep_view()[j].players
            },
        crate::context::pending_wf(
            final(ctx).pending_player_sessions@,
            final(ctx).next_player_id,
        ),
        final(ctx).next_player_id >= old(ctx).next_player_id,
        final(ctx).next_player_id <= old(ctx).next_player_id + total_zone_players(
            old(ctx).current_audio_zones.deep_view(),
        ),
        final(ctx).connection_id == old(ctx).connection_id,
        final(ctx).connection_name == old(ctx).connection_name,
        final(ctx).api_url == old(ctx).api_url,
        final(ctx).ws_url == old(ctx).ws_url,
        final(ctx).client_id == old(ctx).client_id,
        final(ctx).signature_token == old(ctx).signature_token,
        final(ctx).api_token == old(ctx).api_token,
        final(ctx).current_playback_target == old(ctx).current_playback_target,
        final(ctx).current_session_id == old(ctx).current_session_id,
        final(ctx).current_sessions == old(ctx).current_sessions,
        final(ctx).current_connections == old(ctx).current_connections,
        final(ctx).current_players == old(ctx).current_players,
        final(ctx).available_outputs == old(ctx).available_outputs,
        final(ctx).ws_message_buffer == old(ctx).ws_message_buffer,
        final(ctx).ws_connected == old(ctx).ws_connected,
{
    proof {
        lemma_total_zone_players_nonneg(old(ctx).current_audio_zones.deep_view());
    }
    let mut effects: Vec<Effect> = Vec::new();
    proof {
        assert(effects.deep_view() =~= Seq::<crate::protocol::EffectView>::empty());
    }
    match propagate_state_to_plugin(ctx, update) {
        Some(state) => {
            crate::protocol::push_player_effect(&mut effects, Effect::UpdatePluginState { state });
        },
        None => {},
    }
    match update.quality {
        Some(q) => {
            ctx.playback_quality = Some(q);
        },
        None => {},
    }

    let ghost orig = ctx.active_players.deep_view();
    let ghost mut fell_back: bool = false;
    let ghost mut zid_g: u64 = 0;
    let ghost mut joined_g: Seq<crate::context::RegisteredPlayerView> = Seq::empty();
    let mut matching = get_players(ctx, update.session_id, Some(&update.playback_target));

    if matching.len() == 0 {
        let zone_found = match &update.playback_target {
            PlaybackTarget::AudioZone { audio_zone_id } => {
                let zid = *audio_zone_id;
                match crate::registry::find_zone_idx(&ctx.current_audio_zones, zid) {
                    Some(zidx) => Some((zid, zidx)),
                    None => None,
                }
            },
            _ => None,
        };
        match zone_found {
            Some((zid, zidx)) => {
                let ghost zones_before = ctx.current_audio_zones.deep_view();
                proof {
                    assert(ctx.current_audio_zones.deep_view()[zidx as int]
                        == ctx.current_audio_zones@[zidx as int].deep_view());
                }
                let synthesized = crate::models::ApiAudioZoneWithSession {
                    id: zid,
                    session_id: update.session_id,
                    name: ctx.current_audio_zones[zidx].name.clone(),
                    players: crate::models::clone_players(&ctx.current_audio_zones[zidx].players),
                };
                let ghost synthesized_players_view = synthesized.players.deep_view();
                let joined = zone_registered_players(&synthesized.players, &ctx.current_players);
                proof {
                    lemma_zone_players_bounded(ctx.current_audio_zones.deep_view(), zid);
                }
                ctx.current_audio_zones.set(zidx, synthesized);
                proof {
                    assert forall|j: int|
                        0 <= j < zones_before.len() implies {
                        &&& (#[trigger] ctx.current_audio_zones.deep_view()[j]).id
                            == zones_before[j].id
                        &&& ctx.current_audio_zones.deep_view()[j].name == zones_before[j].name
                        &&& ctx.current_audio_zones.deep_view()[j].players
                            == zones_before[j].players
                    } by {
                        assert(ctx.current_audio_zones.deep_view()[j]
                            == ctx.current_audio_zones@[j].deep_view());
                    }
                }
                match set_audio_zone_active_players(ctx, update.session_id, zid, &joined) {
                    Ok(fx) => {
                        crate::protocol::append_player_effects(&mut effects, fx);
                    },
                    Err(e) => {
                        return Err(e);
                    },
                }
                proof {
                    fell_back = true;
                    zid_g = zid;
                    joined_g = joined.deep_view();
                    assert(synthesized_players_view == zones_before[zidx as int].players);
                    assert(zones_before == old(ctx).current_audio_zones.deep_view());
                    assert(joined_g == zone_join_view(
                        zones_before[zidx as int].players,
                        old(ctx).current_players.deep_view(),
                    ));
                    assert(crate::registry::find_zone_view(
                        old(ctx).current_audio_zones.deep_view(),
                        zid_g,
                    ) == Some(zones_before[zidx as int]));
                    assert(update.playback_target.deep_view() == (TargetView::AudioZone {
                        audio_zone_id: zid_g,
                    }));
                }
                matching = get_players(ctx, update.session_id, Some(&update.playback_target));
            },
            None => {},
        }
    }

    let ghost pre = ctx.active_players.deep_view();
    let ghost mv = matching@;
    let ghost uv = update.deep_view();
    let ghost sessions_v = ctx.current_sessions.deep_view();
    let ghost zones_after = ctx.current_audio_zones;
    let ghost pending_after = ctx.pending_player_sessions;
    let ghost next_after = ctx.next_player_id;
    let mut k: usize = 0;
    while k < matching.len()
        invariant
            k <= matching.len(),
            mv == matching@,
            uv == update.deep_view(),
            sessions_v == ctx.current_sessions.deep_view(),
            crate::protocol::sent_commands(effects.deep_view())
                == Seq::<crate::protocol::OutboundCommandView>::empty(),
            forall|m: int| 0 <= m < mv.len() ==> (#[trigger] mv[m]) < pre.len(),
            forall|m: int|
                0 <= m < mv.len() ==> binding_matches(
                    pre[mv[m] as int],
                    update.session_id,
                    Some(update.playback_target.deep_view()),
                ),
            forall|a: int, b: int| 0 <= a < b < mv.len() ==> mv[a] < mv[b],
            ctx.active_players.deep_view().len() == pre.len(),
            forall|i: int|
                0 <= i < pre.len() ==> #[trigger] ctx.active_players.deep_view()[i] == (
                if exists|m: int| 0 <= m < k && mv[m] as int == i {
                    reconciled_binding_view(pre[i], uv, sessions_v)
                } else {
                    pre[i]
                }),
            forall|m: int|
                0 <= m < k ==> has_update_effect(
                    effects.deep_view(),
                    pre[(#[trigger] mv[m]) as int].player.id,
                    merge_update_for_player_view(uv, pre[mv[m] as int].player, sessions_v),
                ),
            ctx.connection_id == old(ctx).connection_id,
            ctx.connection_name == old(ctx).connection_name,
            ctx.api_url == old(ctx).api_url,
            ctx.ws_url == old(ctx).ws_url,
            ctx.client_id == old(ctx).client_id,
            ctx.signature_token == old(ctx).signature_token,
            ctx.api_token == old(ctx).api_token,
            ctx.current_playback_target == old(ctx).current_playback_target,
            ctx.current_session_id == old(ctx).current_session_id,
            ctx.current_sessions == old(ctx).current_sessions,
            ctx.current_connections == old(ctx).current_connections,
            ctx.current_audio_zones == zones_after,
            ctx.current_players == old(ctx).current_players,
            ctx.available_outputs == old(ctx).available_outputs,
            ctx.pending_player_sessions == pending_after,
            update.quality is Some ==> ctx.playback_quality == update.quality,
            update.quality is None ==> ctx.playback_quality == old(ctx).playback_quality,
            ctx.ws_message_buffer == old(ctx).ws_message_buffer,
            ctx.ws_connected == old(ctx).ws_connected,
            ctx.next_player_id == next_after,
        decreases matching.len() - k,
    {
        let ghost start_dv = ctx.active_players.deep_view();
        let idx = matching[k];
        proof {
            assert(mv[k as int] == idx);
            assert(!(exists|m: int| 0 <= m < k && mv[m] == idx as int));
            assert(ctx.active_players.deep_view()[idx as int] == pre[idx as int]);
        }
        let merged = get_session_playback_for_player(
            ctx,
            update.clone(),
            &ctx.active_players[idx].player,
        );
        let mut b = ctx.active_players[idx].clone();
        apply_update(&mut b.player, &merged);
        let pid = b.player.id;
        let ghost braw = ctx.active_players@;
        let ghost bview = b.deep_view();
        let ghost mview = merged.deep_view();
        let ghost prev_fx = effects.deep_view();
        ctx.active_players.set(idx, b);
        crate::protocol::push_player_effect(
            &mut effects,
            Effect::UpdatePlayer { player_id: pid, update: merged },
        );
        proof {
            let now = ctx.active_players.deep_view();
            assert(now[idx as int] == bview);
            assert(bview == reconciled_binding_view(pre[idx as int], uv, sessions_v));
            assert(effects.deep_view() == prev_fx.push(
                crate::protocol::EffectView::UpdatePlayer { player_id: pid, update: mview },
            ));
            assert forall|m: int|
                0 <= m < k + 1 implies has_update_effect(
                effects.deep_view(),
                pre[(#[trigger] mv[m]) as int].player.id,
                merge_update_for_player_view(uv, pre[mv[m] as int].player, sessions_v),
            ) by {
                if m < k {
                    let e = choose|e: int|
                        0 <= e < prev_fx.len() && (#[trigger] prev_fx[e])
                            == (crate::protocol::EffectView::UpdatePlayer {
                            player_id: pre[mv[m] as int].player.id,
                            update: merge_update_for_player_view(
                                uv,
                                pre[mv[m] as int].player,
                                sessions_v,
                            ),
                        });
                    assert(effects.deep_view()[e] == prev_fx[e]);
                } else {
                    assert(pid == pre[idx as int].player.id);
                    assert(mview == merge_update_for_player_view(
                        uv,
                        pre[idx as int].player,
                        sessions_v,
                    ));
                    assert(effects.deep_view()[prev_fx.len() as int]
                        == (crate::protocol::EffectView::UpdatePlayer {
                        player_id: pid,
                        update: mview,
                    }));
                }
            }
            assert forall|i: int|
                0 <= i < pre.len() implies #[trigger] now[i] == (
            if exists|m: int| 0 <= m < k + 1 && mv[m] as int == i {
                reconciled_binding_view(pre[i], uv, sessions_v)
            } else {
                pre[i]
            }) by {
                if i != idx as int {
                    assert(ctx.active_players@[i] == braw[i]);
                    assert(now[i] == ctx.active_players@[i].deep_view());
                    assert(start_dv[i] == braw[i].deep_view());
                    if exists|m: int| 0 <= m < k + 1 && mv[m] as int == i {
                        let m = choose|m: int| 0 <= m < k + 1 && mv[m] as int == i;
                        assert(m < k) by {
                            assert(mv[k as int] as int == idx as int);
                        }
                        assert(exists|m2: int| 0 <= m2 < k && mv[m2] as int == i);
                    }
                } else {
                    assert(exists|m: int| 0 <= m < k + 1 && mv[m] as int == i) by {
                        assert(mv[k as int] as int == i);
                    }
                }
            }
        }
        k += 1;
    }
    proof {
        let now = ctx.active_players.deep_view();
        let tv = update.playback_target.deep_view();
        if any_binding_matches(orig, update.session_id, tv) {
            let w0 = choose|i: int|
                0 <= i < orig.len() && binding_matches(
                    #[trigger] orig[i],
                    update.session_id,
                    Some(tv),
                );
            assert(!fell_back);
            assert(pre == orig);
            assert forall|i: int|
                0 <= i < orig.len() implies #[trigger] now[i] == (
            if binding_matches(orig[i], update.session_id, Some(tv)) {
                reconciled_binding_view(orig[i], uv, sessions_v)
            } else {
                orig[i]
            }) by {
                if binding_matches(orig[i], update.session_id, Some(tv)) {
                    assert(exists|m2: int| 0 <= m2 < mv.len() && (#[trigger] mv[m2]) as int == i);
                } else {
                    if exists|m: int| 0 <= m < mv.len() && mv[m] as int == i {
                        let m = choose|m: int| 0 <= m < mv.len() && mv[m] as int == i;
                        assert(binding_matches(pre[i], update.session_id, Some(tv)));
                        assert(false);
                    }
                }
            }
        }
        // Every matching binding's merged delta stands in the effect
        // list, so the host is told about each application.
        assert forall|i: int|
            0 <= i < orig.len() && binding_matches(
                #[trigger] orig[i],
                update.session_id,
                Some(tv),
            ) implies has_update_effect(
            effects.deep_view(),
            orig[i].player.id,
            merge_update_for_player_view(uv, orig[i].player, sessions_v),
        ) by {
            assert(any_binding_matches(orig, update.session_id, tv));
            assert(pre == orig);
            assert(exists|m2: int| 0 <= m2 < mv.len() && (#[trigger] mv[m2]) as int == i);
            let m = choose|m2: int| 0 <= m2 < mv.len() && (#[trigger] mv[m2]) as int == i;
            assert(has_update_effect(
                effects.deep_view(),
                pre[mv[m] as int].player.id,
                merge_update_for_player_view(uv, pre[mv[m] as int].player, sessions_v),
            ));
        }
        if fell_back {
            assert forall|kk: int|
                #![trigger joined_g[kk]]
                0 <= kk < joined_g.len() implies exists|b: int|
                0 <= b < now.len() && zone_binding_live(
                    #[trigger] now[b],
                    zid_g,
                    update.session_id,
                    joined_g[kk].output.id,
                ) by {
                let w = choose|b: int|
                    0 <= b < pre.len() && zone_binding_live(
                        #[trigger] pre[b],
                        zid_g,
                        update.session_id,
                        joined_g[kk].output.id,
                    );
                if exists|m: int| 0 <= m < mv.len() && mv[m] as int == w {
                    assert(now[w] == reconciled_binding_view(pre[w], uv, sessions_v));
                    lemma_merge_same_session_is_identity(uv, pre[w].player, sessions_v);
                    assert(zone_binding_live(
                        now[w],
                        zid_g,
                        update.session_id,
                        joined_g[kk].output.id,
                    ));
                } else {
                    assert(now[w] == pre[w]);
                }
            }
            assert(zone_players_covered(now, zid_g, update.session_id, joined_g));
            // Each live binding for the delta's pair was in the match
            // set, so its player now carries the delta's fields.
            assert forall|kk: int|
                #![trigger joined_g[kk]]
                0 <= kk < joined_g.len() implies exists|b: int|
                0 <= b < now.len() && zone_binding_live(
                    #[trigger] now[b],
                    zid_g,
                    update.session_id,
                    joined_g[kk].output.id,
                ) && delta_fields_applied(now[b].player, uv) by {
                let w = choose|b: int|
                    0 <= b < pre.len() && zone_binding_live(
                        #[trigger] pre[b],
                        zid_g,
                        update.session_id,
                        joined_g[kk].output.id,
                    );
                assert(binding_matches(pre[w], update.session_id, Some(tv)));
                assert(exists|m: int| 0 <= m < mv.len() && (#[trigger] mv[m]) as int == w);
                assert(now[w] == reconciled_binding_view(pre[w], uv, sessions_v));
                lemma_merge_same_session_is_identity(uv, pre[w].player, sessions_v);
                assert(zone_binding_live(
                    now[w],
                    zid_g,
                    update.session_id,
                    joined_g[kk].output.id,
                ));
                assert(delta_fields_applied(now[w].player, uv));
            }
            assert(zone_players_updated(now, zid_g, update.session_id, joined_g, uv));
            assert(joined_g == zone_join_view(
                crate::registry::find_zone_view(
                    old(ctx).current_audio_zones.deep_view(),
                    zid_g,
                ).unwrap().players,
                old(ctx).current_players.deep_view(),
            ));
        } else {
            assert(pre == orig);
            if mv.len() > 0 {
                assert(binding_matches(pre[mv[0] as int], update.session_id, Some(tv)));
                assert(any_binding_matches(orig, update.session_id, tv));
            }
        }
    }
    Ok(effects)
}

} // verus!
