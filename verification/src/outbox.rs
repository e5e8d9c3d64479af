//! The outbound command path.
//!
//! A command composed while the transport is up goes out at once and —
//! when it affects playback — is also applied locally, so the local
//! view is never a frame behind the user's own action.  A command
//! composed while the transport is down is appended to an ordered
//! buffer.  On reconnect the identity handshake goes out first and the
//! buffer is flushed in arrival order, with no reordering or drops:
//! the commands a flush sends are exactly the buffered ones, in order.

use vstd::prelude::*;

use crate::context::AppContext;
use crate::context::pending_wf;
use crate::errors::TauriPlayerError;
use crate::models::ApiUpdateSession;
use crate::models::ApiUpdateSessionView;
use crate::models::PlaybackTarget;
use crate::models::TargetView;
use crate::protocol::Effect;
use crate::protocol::EffectView;
use crate::protocol::OutboundCommand;
use crate::protocol::OutboundCommandView;
use crate::protocol::append_effects;
use crate::protocol::append_player_effects;
use crate::protocol::lemma_sent_commands_concat;
use crate::protocol::lemma_sent_commands_none;
use crate::protocol::push_effect;
use crate::protocol::sent_commands;
use crate::reconcile::handle_playback_update;
use crate::reconcile::total_zone_players;

verus! {

/// The delta a seek push synthesizes: only the session, the target
/// and the new seek are set, so applying it can never blank any other
/// player state.
pub open spec fn seek_only_update_view(
    session_id: u64,
    target: TargetView,
    seek: u64,
) -> ApiUpdateSessionView {
    ApiUpdateSessionView {
        session_id,
        playback_target: target,
        play: None,
        stop: None,
        name: None,
        active: None,
        playing: None,
        position: None,
        seek: Some(seek),
        volume: None,
        playlist: None,
        quality: None,
    }
}

/// Synthesize the seek-only delta for a seek push.
pub fn seek_only_update(session_id: u64, playback_target: PlaybackTarget, seek: u64) -> (r:
    ApiUpdateSession)
    ensures
        r.deep_view() == seek_only_update_view(session_id, playback_target.deep_view(), seek),
{
    ApiUpdateSession {
        session_id,
        playback_target,
        play: None,
        stop: None,
        name: None,
        active: None,
        playing: None,
        position: None,
        seek: Some(seek),
        volume: None,
        playlist: None,
        quality: None,
    }
}

/// Total size of the zone registry stays fixed when only zone
/// sessions change.
proof fn lemma_total_zone_players_congruent(
    a: Seq<crate::models::ApiAudioZoneWithSessionView>,
    b: Seq<crate::models::ApiAudioZoneWithSessionView>,
)
    requires
        a.len() == b.len(),
        forall|j: int| 0 <= j < a.len() ==> (#[trigger] a[j]).players == b[j].players,
    ensures
        total_zone_players(a) == total_zone_players(b),
    decreases a.len(),
{
    if a.len() > 0 {
        assert forall|j: int|
            0 <= j < a.skip(1).len() implies (#[trigger] a.skip(1)[j]).players == b.skip(
            1,
        )[j].players by {
            assert(a.skip(1)[j] == a[j + 1]);
            assert(b.skip(1)[j] == b[j + 1]);
        }
        lemma_total_zone_players_congruent(a.skip(1), b.skip(1));
    }
}

/// Clone a command list, keeping its contents.
fn clone_commands(v: &Vec<OutboundCommand>) -> (r: Vec<OutboundCommand>)
    ensures
        r.deep_view() == v.deep_view(),
{
    let mut r: Vec<OutboundCommand> = Vec::new();
    let mut i: usize = 0;
    while i < v.len()
        invariant
            i <= v.len(),
            r@.len() == i,
            forall|j: int| 0 <= j < i ==> #[trigger] r@[j].deep_view() == v@[j].deep_view(),
        decreases v.len() - i,
    {
        r.push(v[i].clone());
        i += 1;
    }
    proof {
        assert(r.deep_view() =~= v.deep_view());
    }
    r
}

/// Relay one command to the server; when it is itself a
/// playback-affecting command and `handle_update` is set, also apply
/// it locally, exactly as an inbound delta would be.  The effects end
/// with the send, and the send is the only command they carry.
pub fn send_ws_message(ctx: &mut AppContext, message: OutboundCommand, handle_update: bool) -> (r:
    Result<Vec<Effect>, TauriPlayerError>)
    requires
        old(ctx).next_player_id + total_zone_players(old(ctx).current_audio_zones.deep_view())
            <= u64::MAX,
        pending_wf(old(ctx).pending_player_sessions@, old(ctx).next_player_id),
    ensures
        r is Err ==> old(ctx).api_url is None,
        !handle_update ==> r is Ok && *final(ctx) == *old(ctx),
        !handle_update ==> (r matches Ok(effects) ==> effects.deep_view().len() == 1),
        message matches OutboundCommand::RequestConnectionIdentity ==> r is Ok && *final(ctx)
            == *old(ctx),
        r matches Ok(effects) ==> {
            &&& sent_commands(effects.deep_view()) == seq![message.deep_view()]
            &&& effects.deep_view().len() >= 1
            &&& effects.deep_view().last() == (EffectView::SendCommand {
                command: message.deep_view(),
            })
        },
        handle_update ==> (message matches OutboundCommand::UpdateSession { update } ==> (r is Ok
            ==> (crate::reconcile::any_binding_matches(
            old(ctx).active_players.deep_view(),
            update.session_id,
            update.playback_target.deep_view(),
        ) ==> {
            &&& final(ctx).active_players.deep_view().len() == old(
                ctx,
            ).active_players.deep_view().len()
            &&& forall|i: int|
                0 <= i < old(ctx).active_players.deep_view().len()
                    ==> #[trigger] final(ctx).active_players.deep_view()[i] == (
                if crate::reconcile::binding_matches(
                    old(ctx).active_players.deep_view()[i],
                    update.session_id,
                    Some(update.playback_target.deep_view()),
                ) {
                    crate::reconcile::reconciled_binding_view(
                        old(ctx).active_players.deep_view()[i],
                        update.deep_view(),
                        old(ctx).current_sessions.deep_view(),
                    )
                } else {
                    old(ctx).active_players.deep_view()[i]
                })
        }))),
        handle_update ==> (message matches OutboundCommand::SetSeek { session_id, target, seek }
            ==> (r is Ok ==> (crate::reconcile::any_binding_matches(
            old(ctx).active_players.deep_view(),
            session_id,
            target.deep_view(),
        ) ==> {
            &&& final(ctx).active_players.deep_view().len() == old(
                ctx,
            ).active_players.deep_view().len()
            &&& forall|i: int|
                0 <= i < old(ctx).active_players.deep_view().len()
                    ==> #[trigger] final(ctx).active_players.deep_view()[i] == (
                if crate::reconcile::binding_matches(
                    old(ctx).active_players.deep_view()[i],
                    session_id,
                    Some(target.deep_view()),
                ) {
                    crate::reconcile::reconciled_binding_view(
                        old(ctx).active_players.deep_view()[i],
                        seek_only_update_view(session_id, target.deep_view(), seek),
                        old(ctx).current_sessions.deep_view(),
                    )
                } else {
                    old(ctx).active_players.deep_view()[i]
                })
        }))),
        final(ctx).ws_message_buffer == old(ctx).ws_message_buffer,
        final(ctx).ws_connected == old(ctx).ws_connected,
        final(ctx).current_audio_zones@.len() == old(ctx).current_audio_zones@.len(),
        forall|j: int|
            0 <= j < old(ctx).current_audio_zones@.len()
                ==> (#[trigger] final(ctx).current_audio_zones.deep_view()[j]).players == old(ctx).current_audio_zones.deep_view()[j].players,
        pending_wf(final(ctx).pending_player_sessions@, final(ctx).next_player_id),
        final(ctx).next_player_id >= old(ctx).next_player_id,
        final(ctx).next_player_id - old(ctx).next_player_id <= total_zone_players(
            old(ctx).current_audio_zones.deep_view(),
        ),
        final(ctx).api_url == old(ctx).api_url,
        final(ctx).connection_id == old(ctx).connection_id,
        final(ctx).client_id == old(ctx).client_id,
        final(ctx).signature_token == old(ctx).signature_token,
        final(ctx).api_token == old(ctx).api_token,
        final(ctx).ws_url == old(ctx).ws_url,
        final(ctx).connection_name == old(ctx).connection_name,
        final(ctx).current_sessions == old(ctx).current_sessions,
        final(ctx).current_connections == old(ctx).current_connections,
        final(ctx).current_players == old(ctx).current_players,
        final(ctx).available_outputs == old(ctx).available_outputs,
{
    proof {
        crate::reconcile::lemma_total_zone_players_nonneg(
            old(ctx).current_audio_zones.deep_view(),
        );
    }
    let mut effects: Vec<Effect> = Vec::new();
    proof {
        assert(effects.deep_view() =~= Seq::<EffectView>::empty());
    }
    if handle_update {
        match &message {
            OutboundCommand::UpdateSession { update } => {
                let ghost zones_pre = ctx.current_audio_zones.deep_view();
                match handle_playback_update(ctx, update) {
                    Ok(fx) => {
                        append_player_effects(&mut effects, fx);
                        proof {
                            lemma_total_zone_players_congruent(
                                ctx.current_audio_zones.deep_view(),
                                zones_pre,
                            );
                            crate::reconcile::lemma_total_zone_players_nonneg(zones_pre);
                        }
                    },
                    Err(e) => {
                        return Err(e);
                    },
                }
            },
            OutboundCommand::SetSeek { session_id, target, seek } => {
                let u = seek_only_update(*session_id, target.clone(), *seek);
                let ghost zones_pre = ctx.current_audio_zones.deep_view();
                match handle_playback_update(ctx, &u) {
                    Ok(fx) => {
                        append_player_effects(&mut effects, fx);
                        proof {
                            lemma_total_zone_players_congruent(
                                ctx.current_audio_zones.deep_view(),
                                zones_pre,
                            );
                            crate::reconcile::lemma_total_zone_players_nonneg(zones_pre);
                        }
                    },
                    Err(e) => {
                        return Err(e);
                    },
                }
            },
            OutboundCommand::RequestConnectionIdentity => {},
        }
    }
    let ghost prev = effects.deep_view();
    let ghost cmdv = message.deep_view();
    push_effect(&mut effects, Effect::SendCommand { command: message });
    proof {
        let sc = (EffectView::SendCommand { command: cmdv });
        assert(prev.push(sc) =~= prev + seq![sc]);
        lemma_sent_commands_concat(prev, seq![sc]);
        assert(seq![sc][0] == sc);
        assert(seq![sc].skip(1) =~= Seq::<EffectView>::empty());
        assert(sent_commands(Seq::<EffectView>::empty())
            =~= Seq::<OutboundCommandView>::empty());
        assert(sent_commands(seq![sc]) == seq![cmdv] + sent_commands(seq![sc].skip(1)));
        assert(seq![cmdv] + Seq::<OutboundCommandView>::empty() =~= seq![cmdv]);
        assert(sent_commands(effects.deep_view()) =~= seq![cmdv]);
    }
    Ok(effects)
}

/// Relay a user-originated command: send it at once when the
/// transport is up, append it to the ordered buffer otherwise.
pub fn propagate_ws_message(ctx: &mut AppContext, message: OutboundCommand) -> (r: Result<
    Vec<Effect>,
    TauriPlayerError,
>)
    requires
        old(ctx).next_player_id + total_zone_players(old(ctx).current_audio_zones.deep_view())
            <= u64::MAX,
        pending_wf(old(ctx).pending_player_sessions@, old(ctx).next_player_id),
    ensures
        r is Err ==> old(ctx).api_url is None,
        old(ctx).ws_connected ==> (r matches Ok(effects) ==> {
            &&& sent_commands(effects.deep_view()) == seq![message.deep_view()]
            &&& final(ctx).ws_message_buffer == old(ctx).ws_message_buffer
        }),
        !old(ctx).ws_connected ==> (r matches Ok(effects) && {
            &&& effects@.len() == 0
            &&& final(ctx).ws_message_buffer.deep_view()
                == old(ctx).ws_message_buffer.deep_view().push(message.deep_view())
            &&& final(ctx).active_players == old(ctx).active_players
            &&& final(ctx).next_player_id == old(ctx).next_player_id
            &&& final(ctx).pending_player_sessions == old(ctx).pending_player_sessions
        }),
        pending_wf(final(ctx).pending_player_sessions@, final(ctx).next_player_id),
{
    if ctx.ws_connected {
        send_ws_message(ctx, message, true)
    } else {
        let ghost prev = ctx.ws_message_buffer.deep_view();
        let ghost praw = ctx.ws_message_buffer@;
        let ghost cmdv = message.deep_view();
        ctx.ws_message_buffer.push(message);
        proof {
            assert forall|i: int|
                0 <= i < ctx.ws_message_buffer.deep_view().len() implies #[trigger] ctx.ws_message_buffer.deep_view()[i]
                == prev.push(cmdv)[i] by {
                assert(ctx.ws_message_buffer.deep_view()[i]
                    == ctx.ws_message_buffer@[i].deep_view());
                if i < praw.len() {
                    assert(ctx.ws_message_buffer@[i] == praw[i]);
                    assert(prev[i] == praw[i].deep_view());
                }
            }
            assert(ctx.ws_message_buffer.deep_view() =~= prev.push(cmdv));
        }
        Ok(Vec::new())
    }
}

/// Send every buffered command, in arrival order, then leave the
/// buffer empty.  The commands the returned effects carry are exactly
/// the buffered ones, in their order.  Does nothing when the
/// transport is down.
pub fn flush_ws_message_buffer(ctx: &mut AppContext) -> (r: Result<Vec<Effect>, TauriPlayerError>)
    requires
        old(ctx).next_player_id + (old(ctx).ws_message_buffer@.len() + 1) * (total_zone_players(
            old(ctx).current_audio_zones.deep_view(),
        ) + 1) <= u64::MAX,
        pending_wf(old(ctx).pending_player_sessions@, old(ctx).next_player_id),
    ensures
        r is Err ==> old(ctx).api_url is None,
        !old(ctx).ws_connected ==> r is Ok && *final(ctx) == *old(ctx),
        old(ctx).ws_connected ==> (r matches Ok(effects) ==> {
            &&& sent_commands(effects.deep_view()) == old(ctx).ws_message_buffer.deep_view()
            &&& final(ctx).ws_message_buffer@.len() == 0
        }),
        pending_wf(final(ctx).pending_player_sessions@, final(ctx).next_player_id),
        final(ctx).ws_connected == old(ctx).ws_connected,
{
    if !ctx.ws_connected {
        return Ok(Vec::new());
    }
    let buffered = clone_commands(&ctx.ws_message_buffer);
    ctx.ws_message_buffer = Vec::new();
    let ghost bv = buffered.deep_view();
    let mut effects: Vec<Effect> = Vec::new();
    proof {
        assert(effects.deep_view() =~= Seq::<EffectView>::empty());
        assert(sent_commands(effects.deep_view()) =~= Seq::<OutboundCommandView>::empty());
        assert(bv.take(0) =~= Seq::<OutboundCommandView>::empty());
    }
    let mut i: usize = 0;
    while i < buffered.len()
        invariant
            i <= buffered.len(),
            bv == buffered.deep_view(),
            sent_commands(effects.deep_view()) == bv.take(i as int),
            ctx.ws_message_buffer@.len() == 0,
            ctx.ws_connected,
            old(ctx).ws_connected,
            ctx.api_url == old(ctx).api_url,
            ctx.next_player_id + ((bv.len() - i) + 1) * (total_zone_players(
                ctx.current_audio_zones.deep_view(),
            ) + 1) <= u64::MAX,
            ctx.current_audio_zones@.len() == old(ctx).current_audio_zones@.len(),
            pending_wf(ctx.pending_player_sessions@, ctx.next_player_id),
        decreases buffered.len() - i,
    {
        let message = buffered[i].clone();
        let ghost zones_pre = ctx.current_audio_zones.deep_view();
        let ghost next_pre = ctx.next_player_id;
        proof {
            crate::reconcile::lemma_total_zone_players_nonneg(zones_pre);
            assert(((bv.len() - i) + 1) * (total_zone_players(zones_pre) + 1) >= 2 * (
            total_zone_players(zones_pre) + 1)) by (nonlinear_arith)
                requires
                    i < bv.len(),
                    total_zone_players(zones_pre) >= 0,
            ;
        }
        let fx = match send_ws_message(ctx, message, true) {
            Ok(fx) => fx,
            Err(e) => {
                return Err(e);
            },
        };
        let ghost prev = effects.deep_view();
        let ghost fxv = fx.deep_view();
        append_effects(&mut effects, fx);
        proof {
            lemma_sent_commands_concat(prev, fxv);
            assert(bv[i as int] == buffered@[i as int].deep_view());
            assert(sent_commands(effects.deep_view()) =~= bv.take(i as int + 1));
            lemma_total_zone_players_congruent(ctx.current_audio_zones.deep_view(), zones_pre);
            assert((((bv.len() - i) - 1) + 1) * (total_zone_players(zones_pre) + 1) == ((bv.len()
                - i) + 1) * (total_zone_players(zones_pre) + 1) - (total_zone_players(zones_pre)
                + 1)) by (nonlinear_arith);
        }
        i += 1;
    }
    proof {
        assert(bv.take(bv.len() as int) =~= bv);
    }
    Ok(effects)
}

/// Announce a locally originated playback change: the boundary sees
/// it as a session update, and the server receives the corresponding
/// command — without applying it locally again, since the local
/// player already performed it.  With the transport down nothing
/// happens; the player events flow again once sessions resync.
pub fn propagate_playback_event(ctx: &mut AppContext, update: ApiUpdateSession) -> (r: Result<
    Vec<Effect>,
    TauriPlayerError,
>)
    requires
        old(ctx).next_player_id + total_zone_players(old(ctx).current_audio_zones.deep_view())
            <= u64::MAX,
        pending_wf(old(ctx).pending_player_sessions@, old(ctx).next_player_id),
    ensures
        !old(ctx).ws_connected ==> (r matches Ok(effects) && effects@.len() == 0 && *final(ctx)
            == *old(ctx)),
        old(ctx).ws_connected ==> (r matches Ok(effects) && {
            &&& *final(ctx) == *old(ctx)
            &&& effects.deep_view().len() == 2
            &&& effects.deep_view()[0] == (EffectView::EmitMessage {
                message: crate::protocol::InboundMessageView::SessionUpdated {
                    update: update.deep_view(),
                },
            })
            &&& sent_commands(effects.deep_view()) == seq![
                OutboundCommandView::UpdateSession { update: update.deep_view() },
            ]
        }),
{
    if !ctx.ws_connected {
        return Ok(Vec::new());
    }
    let mut effects: Vec<Effect> = Vec::new();
    proof {
        assert(effects.deep_view() =~= Seq::<EffectView>::empty());
    }
    let echo = update.clone();
    push_effect(
        &mut effects,
        Effect::EmitMessage {
            message: crate::protocol::InboundMessage::SessionUpdated { update: echo },
        },
    );
    let ghost mirror = effects.deep_view();
    let fx = match send_ws_message(ctx, OutboundCommand::UpdateSession { update }, false) {
        Ok(fx) => fx,
        Err(e) => {
            return Err(e);
        },
    };
    let ghost fxv = fx.deep_view();
    append_effects(&mut effects, fx);
    proof {
        lemma_sent_commands_concat(mirror, fxv);
        assert(mirror.len() == 1);
        assert(!(mirror[0] is SendCommand));
        lemma_sent_commands_none(mirror);
        assert(sent_commands(effects.deep_view()) =~= seq![
            OutboundCommandView::UpdateSession { update: update.deep_view() },
        ]);
    }
    Ok(effects)
}

/// The reconnect handshake: announce the transport as up, request the
/// connection identity, then flush the buffer.  The commands sent are
/// the identity request followed by every buffered command in order —
/// buffered traffic goes out strictly after the handshake.
pub fn on_ws_connect(ctx: &mut AppContext) -> (r: Result<Vec<Effect>, TauriPlayerError>)
    requires
        old(ctx).next_player_id + (old(ctx).ws_message_buffer@.len() + 1) * (total_zone_players(
            old(ctx).current_audio_zones.deep_view(),
        ) + 1) <= u64::MAX,
        pending_wf(old(ctx).pending_player_sessions@, old(ctx).next_player_id),
    ensures
        r is Err ==> old(ctx).api_url is None,
        r matches Ok(effects) ==> {
            &&& sent_commands(effects.deep_view()) == seq![
                OutboundCommandView::RequestConnectionIdentity,
            ] + old(ctx).ws_message_buffer.deep_view()
            &&& final(ctx).ws_message_buffer@.len() == 0
            &&& final(ctx).ws_connected
        },
        pending_wf(final(ctx).pending_player_sessions@, final(ctx).next_player_id),
{
    ctx.ws_connected = true;
    proof {
        let ghost blen = old(ctx).ws_message_buffer@.len() as int;
        let ghost tz = total_zone_players(old(ctx).current_audio_zones.deep_view());
        crate::reconcile::lemma_total_zone_players_nonneg(
            ctx.current_audio_zones.deep_view(),
        );
        assert((blen + 1) * (tz + 1) >= tz) by (nonlinear_arith)
            requires
                tz >= 0,
                blen >= 0,
        ;
    }
    let mut effects = match send_ws_message(
        ctx,
        OutboundCommand::RequestConnectionIdentity,
        true,
    ) {
        Ok(fx) => fx,
        Err(e) => {
            return Err(e);
        },
    };
    let ghost first = effects.deep_view();
    let fx = match flush_ws_message_buffer(ctx) {
        Ok(fx) => fx,
        Err(e) => {
            return Err(e);
        },
    };
    let ghost fxv = fx.deep_view();
    append_effects(&mut effects, fx);
    proof {
        lemma_sent_commands_concat(first, fxv);
    }
    Ok(effects)
}

} // verus!
