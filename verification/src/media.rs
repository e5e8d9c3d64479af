//! Hardware media-key handling: the decisions taken when the platform
//! reports a play/pause or track-skip key.
//!
//! The decision is pure: for every player bound to the session and
//! target the user is looking at, the event yields the command to
//! announce to the server (so every device follows) and the command
//! to hand the local player.  Track positions saturate at the
//! playlist's ends instead of wrapping.

use vstd::prelude::*;

use crate::context::AppContext;
use crate::models::ApiUpdateSessionView;
use crate::models::PlaybackTarget;
use crate::models::TargetView;
use crate::player::PlayerState;
use crate::player::PlayerStateView;
use crate::protocol::Effect;
use crate::protocol::EffectView;
use crate::protocol::OutboundCommand;
use crate::protocol::OutboundCommandView;
use crate::protocol::PlayerCommand;
use crate::reconcile::binding_matches;

verus! {

/// A media event as the platform reports it.
#[derive(Debug, Clone, Copy, PartialEq, Eq, Structural)]
pub struct MediaEvent {
    pub play: Option<bool>,
    pub next_track: Option<bool>,
    pub prev_track: Option<bool>,
}

/// A delta that only moves the playlist position.
pub open spec fn position_update_view(
    session_id: u64,
    target: TargetView,
    position: u16,
) -> ApiUpdateSessionView {
    ApiUpdateSessionView {
        session_id,
        playback_target: target,
        play: None,
        stop: None,
        name: None,
        active: None,
        playing: None,
        position: Some(position),
        seek: None,
        volume: None,
        playlist: None,
        quality: None,
    }
}

/// A delta that only starts or stops playing.
pub open spec fn playing_update_view(
    session_id: u64,
    target: TargetView,
    playing: bool,
) -> ApiUpdateSessionView {
    ApiUpdateSessionView {
        session_id,
        playback_target: target,
        play: None,
        stop: None,
        name: None,
        active: None,
        playing: Some(playing),
        position: None,
        seek: None,
        volume: None,
        playlist: None,
        quality: None,
    }
}

/// The position after a skip forward: one further, held at the
/// playlist's length — a position already beyond the playlist is
/// pulled back to its end.
pub open spec fn next_position_view(p: PlayerStateView) -> u16 {
    if p.position < u16::MAX && p.position as int + 1 <= p.tracks.len() {
        (p.position + 1) as u16
    } else if p.tracks.len() < p.position as int {
        p.tracks.len() as u16
    } else {
        p.position
    }
}

/// The position after a skip backward: one back, held at zero.
pub open spec fn prev_position_view(p: PlayerStateView) -> u16 {
    if p.position > 0 {
        (p.position - 1) as u16
    } else {
        0u16
    }
}

/// The effects a media event yields for one player: for each key the
/// event carries, the announcement to the server followed by the
/// local player command.
pub open spec fn media_actions_view(
    p: PlayerStateView,
    session_id: u64,
    target: TargetView,
    event: MediaEvent,
) -> Seq<EffectView> {
    let next_seg: Seq<EffectView> = if event.next_track == Some(true) {
        seq![
            EffectView::SendCommand {
                command: OutboundCommandView::UpdateSession {
                    update: position_update_view(session_id, target, next_position_view(p)),
                },
            },
            EffectView::CommandPlayer { player_id: p.id, command: PlayerCommand::NextTrack },
        ]
    } else {
        Seq::<EffectView>::empty()
    };
    let prev_seg: Seq<EffectView> = if event.prev_track == Some(true) {
        seq![
            EffectView::SendCommand {
                command: OutboundCommandView::UpdateSession {
                    update: position_update_view(session_id, target, prev_position_view(p)),
                },
            },
            EffectView::CommandPlayer { player_id: p.id, command: PlayerCommand::PreviousTrack },
        ]
    } else {
        Seq::<EffectView>::empty()
    };
    let play_seg: Seq<EffectView> = match event.play {
        Some(true) => seq![
            EffectView::SendCommand {
                command: OutboundCommandView::UpdateSession {
                    update: playing_update_view(session_id, target, true),
                },
            },
            EffectView::CommandPlayer { player_id: p.id, command: PlayerCommand::Resume },
        ],
        Some(false) => seq![
            EffectView::SendCommand {
                command: OutboundCommandView::UpdateSession {
                    update: playing_update_view(session_id, target, false),
                },
            },
            EffectView::CommandPlayer { player_id: p.id, command: PlayerCommand::Pause },
        ],
        None => Seq::<EffectView>::empty(),
    };
    next_seg + prev_seg + play_seg
}

/// Compute the effects a media event yields for one player.
pub fn media_actions_for_player(
    p: &PlayerState,
    session_id: u64,
    target: &PlaybackTarget,
    event: &MediaEvent,
) -> (r: Vec<Effect>)
    ensures
        r.deep_view() == media_actions_view(
            p.deep_view(),
            session_id,
            target.deep_view(),
            *event,
        ),
{
    let mut r: Vec<Effect> = Vec::new();
    proof {
        assert(r.deep_view() =~= Seq::<EffectView>::empty());
    }
    let next_wanted = match event.next_track {
        Some(b) => b,
        None => false,
    };
    if next_wanted {
        let new_pos: u16 = if p.position < u16::MAX && (p.position as usize) < p.tracks.len() {
            p.position + 1
        } else if p.tracks.len() < p.position as usize {
            p.tracks.len() as u16
        } else {
            p.position
        };
        crate::protocol::push_effect(
            &mut r,
            Effect::SendCommand {
                command: OutboundCommand::UpdateSession {
                    update: crate::models::ApiUpdateSession {
                        session_id,
                        playback_target: target.clone(),
                        play: None,
                        stop: None,
                        name: None,
                        active: None,
                        playing: None,
                        position: Some(new_pos),
                        seek: None,
                        volume: None,
                        playlist: None,
                        quality: None,
                    },
                },
            },
        );
        crate::protocol::push_effect(
            &mut r,
            Effect::CommandPlayer { player_id: p.id, command: PlayerCommand::NextTrack },
        );
    }
    let prev_wanted = match event.prev_track {
        Some(b) => b,
        None => false,
    };
    if prev_wanted {
        let new_pos: u16 = if p.position > 0 {
            p.position - 1
        } else {
            0
        };
        crate::protocol::push_effect(
            &mut r,
            Effect::SendCommand {
                command: OutboundCommand::UpdateSession {
                    update: crate::models::ApiUpdateSession {
                        session_id,
                        playback_target: target.clone(),
                        play: None,
                        stop: None,
                        name: None,
                        active: None,
                        playing: None,
                        position: Some(new_pos),
                        seek: None,
                        volume: None,
                        playlist: None,
                        quality: None,
                    },
                },
            },
        );
        crate::protocol::push_effect(
            &mut r,
            Effect::CommandPlayer { player_id: p.id, command: PlayerCommand::PreviousTrack },
        );
    }
    match event.play {
        Some(playing) => {
            crate::protocol::push_effect(
                &mut r,
                Effect::SendCommand {
                    command: OutboundCommand::UpdateSession {
                        update: crate::models::ApiUpdateSession {
                            session_id,
                            playback_target: target.clone(),
                            play: None,
                            stop: None,
                            name: None,
                            active: None,
                            playing: Some(playing),
                            position: None,
                            seek: None,
                            volume: None,
                            playlist: None,
                            quality: None,
                        },
                    },
                },
            );
            crate::protocol::push_effect(
                &mut r,
                Effect::CommandPlayer {
                    player_id: p.id,
                    command: if playing {
                        PlayerCommand::Resume
                    } else {
                        PlayerCommand::Pause
                    },
                },
            );
        },
        None => {},
    }
    proof {
        assert(r.deep_view() =~= media_actions_view(
            p.deep_view(),
            session_id,
            target.deep_view(),
            *event,
        ));
    }
    r
}

/// The effects a media event yields over a binding list: the actions
/// of every binding matching the watched session and target, in
/// registry order.
pub open spec fn media_effects_all(
    bindings: Seq<crate::player::PlayerBindingView>,
    session_id: u64,
    target: TargetView,
    event: MediaEvent,
) -> Seq<EffectView>
    decreases bindings.len(),
{
    if bindings.len() == 0 {
        Seq::<EffectView>::empty()
    } else {
        media_effects_all(bindings.drop_last(), session_id, target, event) + (
        if binding_matches(bindings.last(), session_id, Some(target)) {
            media_actions_view(bindings.last().player, session_id, target, event)
        } else {
            Seq::<EffectView>::empty()
        })
    }
}

/// Handle a platform media event: decide, for every player bound to
/// the session and target the boundary is watching, what to announce
/// and what to command.  Yields nothing when no session or target is
/// being watched.
pub fn handle_media_event(ctx: &AppContext, event: &MediaEvent) -> (r: Vec<Effect>)
    ensures
        (ctx.current_session_id is None || ctx.current_playback_target is None) ==> r@.len()
            == 0,
        ctx.current_session_id matches Some(csid) ==> (ctx.current_playback_target matches Some(
            cpt,
        ) ==> r.deep_view() == media_effects_all(
            ctx.active_players.deep_view(),
            csid,
            cpt.deep_view(),
            *event,
        )),
{
    let csid = match ctx.current_session_id {
        Some(s) => s,
        None => {
            return Vec::new();
        },
    };
    let cpt = match &ctx.current_playback_target {
        Some(t) => t,
        None => {
            return Vec::new();
        },
    };
    let ghost bv = ctx.active_players.deep_view();
    let ghost tv = cpt.deep_view();
    let mut r: Vec<Effect> = Vec::new();
    proof {
        assert(bv.take(0) =~= Seq::<crate::player::PlayerBindingView>::empty());
        assert(r.deep_view() =~= media_effects_all(bv.take(0), csid, tv, *event));
    }
    let mut i: usize = 0;
    while i < ctx.active_players.len()
        invariant
            i <= ctx.active_players.len(),
            bv == ctx.active_players.deep_view(),
            Some(tv) == ctx.current_playback_target.deep_view(),
            tv == cpt.deep_view(),
            r.deep_view() == media_effects_all(bv.take(i as int), csid, tv, *event),
        decreases ctx.active_players.len() - i,
    {
        let b = &ctx.active_players[i];
        let session_ok = match b.player.session_id {
            Some(s) => s == csid,
            None => false,
        };
        let target_ok = crate::models::target_eq(cpt, &b.playback_target);
        let ghost prev = r.deep_view();
        if session_ok && target_ok {
            let fx = media_actions_for_player(&b.player, csid, cpt, event);
            crate::protocol::append_effects(&mut r, fx);
        }
        proof {
            assert(bv[i as int] == ctx.active_players@[i as int].deep_view());
            assert(bv.take(i as int + 1).drop_last() =~= bv.take(i as int));
            assert(bv.take(i as int + 1).last() == bv[i as int]);
            if binding_matches(bv[i as int], csid, Some(tv)) {
                assert(r.deep_view() =~= media_effects_all(bv.take(i as int + 1), csid, tv, *event));
            } else {
                assert(prev + Seq::<EffectView>::empty() =~= prev);
                assert(r.deep_view() =~= media_effects_all(bv.take(i as int + 1), csid, tv, *event));
            }
        }
        i += 1;
    }
    proof {
        assert(bv.take(ctx.active_players@.len() as int) =~= bv);
    }
    r
}

} // verus!
