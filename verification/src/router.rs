//! The message router: one decoded inbound message at a time is
//! dispatched to its handler, and every message — handled or not — is
//! re-emitted to the observation sink, so the boundary sees the whole
//! stream.  A payload that failed to decode arrives as `None` and is
//! dropped without effect; an unrecognized tag arrives as `Unknown`
//! and is only mirrored.
//!
//! A session list additionally resolves pending bindings: every
//! player that was created before its session snapshot was known, and
//! whose session is carried by the list, is initialized from it
//! exactly once and its pending entry removed.

use vstd::prelude::*;

use crate::context::AppContext;
use crate::context::PendingPlayerSession;
use crate::context::pending_wf;
use crate::errors::TauriPlayerError;
use crate::models::ApiSession;
use crate::models::ApiSessionView;
use crate::models::WsConnectMessage;
use crate::models::clone_sessions;
use crate::outbox::seek_only_update;
use crate::player::PlayerBindingView;
use crate::protocol::Effect;
use crate::protocol::EffectView;
use crate::protocol::InboundMessage;
use crate::protocol::push_effect;
use crate::reconcile::handle_playback_update;
use crate::reconcile::total_zone_players;
use crate::reconcile::update_audio_zones;
use crate::reconcile::update_connection_outputs;
use crate::registry::find_session_view;
use crate::registry::session_ids;

verus! {

/// Whether a session list carries the session a pending entry waits
/// for.  Such an entry is removed by the push that carries it.
pub open spec fn pending_session_arrived(
    entry: PendingPlayerSession,
    sessions: Seq<ApiSessionView>,
) -> bool {
    find_session_view(sessions, entry.session_id) is Some
}

/// Whether a session list resolves a pending entry: the list carries
/// the awaited session and a binding for the recorded player still
/// exists to initialize.  An arrived entry whose player is gone is
/// removed without an initialization.
pub open spec fn pending_resolved(
    entry: PendingPlayerSession,
    sessions: Seq<ApiSessionView>,
    bindings: Seq<PlayerBindingView>,
) -> bool {
    &&& pending_session_arrived(entry, sessions)
    &&& exists|b: int|
        0 <= b < bindings.len() && (#[trigger] bindings[b]).player.id == entry.player_id
}

/// An element that falsifies the predicate never survives a filter by
/// that predicate.
pub proof fn lemma_filter_excludes<A>(s: Seq<A>, p: spec_fn(A) -> bool, x: A)
    requires
        !p(x),
    ensures
        !s.filter(p).contains(x),
    decreases s.len(),
{
    reveal_with_fuel(Seq::filter, 2);
    if s.len() > 0 {
        lemma_filter_excludes(s.drop_last(), p, x);
    }
}

/// Everything a filter keeps was already in the sequence it filtered.
proof fn lemma_filter_subset<A>(s: Seq<A>, p: spec_fn(A) -> bool)
    ensures
        forall|i: int| 0 <= i < s.filter(p).len() ==> s.contains(#[trigger] s.filter(p)[i]),
    decreases s.len(),
{
    reveal_with_fuel(Seq::filter, 2);
    if s.len() > 0 {
        let sub = s.drop_last();
        lemma_filter_subset(sub, p);
        assert forall|i: int| 0 <= i < s.filter(p).len() implies s.contains(
            #[trigger] s.filter(p)[i],
        ) by {
            let f = s.filter(p);
            let fsub = sub.filter(p);
            if i < fsub.len() {
                assert(f[i] == fsub[i]);
                assert(sub.contains(fsub[i]));
                let j = choose|j: int| 0 <= j < sub.len() && sub[j] == fsub[i];
                assert(s[j] == f[i]);
            } else {
                assert(p(s.last()) && f[i] == s.last());
                assert(s[s.len() - 1] == f[i]);
            }
        }
    }
}

/// Filtering the pending registry keeps it well formed.
proof fn lemma_pending_wf_filter(
    pending: Seq<PendingPlayerSession>,
    p: spec_fn(PendingPlayerSession) -> bool,
    next: u64,
)
    requires
        pending_wf(pending, next),
    ensures
        pending_wf(pending.filter(p), next),
    decreases pending.len(),
{
    reveal_with_fuel(Seq::filter, 2);
    if pending.len() > 0 {
        let sub = pending.drop_last();
        assert forall|i: int, j: int|
            0 <= i < j < sub.len() implies (#[trigger] sub[i]).player_id != (
        #[trigger] sub[j]).player_id by {
            assert(sub[i] == pending[i]);
            assert(sub[j] == pending[j]);
        }
        assert forall|i: int| 0 <= i < sub.len() implies (#[trigger] sub[i]).player_id
            < next by {
            assert(sub[i] == pending[i]);
        }
        lemma_pending_wf_filter(sub, p, next);
        lemma_filter_subset(sub, p);
        if p(pending.last()) {
            let fsub = sub.filter(p);
            let f = pending.filter(p);
            assert(f == fsub.push(pending.last()));
            assert forall|i: int, j: int|
                0 <= i < j < f.len() implies (#[trigger] f[i]).player_id != (
            #[trigger] f[j]).player_id by {
                if j == f.len() - 1 {
                    assert(f[j] == pending.last());
                    assert(f[i] == fsub[i]);
                    assert(sub.contains(fsub[i]));
                    let w = choose|w: int| 0 <= w < sub.len() && sub[w] == fsub[i];
                    assert(pending[w] == f[i]);
                    assert(pending[pending.len() - 1] == pending.last());
                } else {
                    assert(f[i] == fsub[i]);
                    assert(f[j] == fsub[j]);
                }
            }
            assert forall|i: int| 0 <= i < f.len() implies (#[trigger] f[i]).player_id < next by {
                if i == f.len() - 1 {
                    assert(f[i] == pending.last());
                    assert(pending[pending.len() - 1] == pending.last());
                } else {
                    assert(f[i] == fsub[i]);
                }
            }
        }
    }
}

/// A pending entry whose session a push carries is removed by that
/// push; a later identical push therefore finds no such entry and
/// cannot resolve it again.
pub proof fn lemma_pending_entry_resolved_once(
    pending: Seq<PendingPlayerSession>,
    sessions: Seq<ApiSessionView>,
    j: int,
)
    requires
        0 <= j < pending.len(),
        pending_session_arrived(pending[j], sessions),
    ensures
        !pending.filter(
            |e: PendingPlayerSession| !pending_session_arrived(e, sessions),
        ).contains(pending[j]),
{
    lemma_filter_excludes(
        pending,
        |e: PendingPlayerSession| !pending_session_arrived(e, sessions),
        pending[j],
    );
}

/// Whether re-joining the given zones stays within the id space:
/// the check the router runs before a zone refresh whose size only
/// the fresh snapshot determines.
fn zone_player_budget_ok(zones: &Vec<crate::models::ApiAudioZoneWithSession>, next: u64) -> (r:
    bool)
    ensures
        r <==> next + total_zone_players(zones.deep_view()) <= u64::MAX,
{
    let ghost zv = zones.deep_view();
    proof {
        assert(zv.skip(0) =~= zv);
    }
    let mut acc: u64 = next;
    let mut i: usize = 0;
    while i < zones.len()
        invariant
            i <= zones.len(),
            zv == zones.deep_view(),
            acc as int + total_zone_players(zv.skip(i as int)) == next as int
                + total_zone_players(zv),
        decreases zones.len() - i,
    {
        proof {
            assert(zv.skip(i as int)[0] == zv[i as int]);
            assert(zv.skip(i as int).skip(1) =~= zv.skip(i as int + 1));
            assert(zones.deep_view()[i as int] == zones@[i as int].deep_view());
            crate::reconcile::lemma_total_zone_players_nonneg(zv.skip(i as int + 1));
        }
        let n = zones[i].players.len() as u64;
        acc = match acc.checked_add(n) {
            Some(a) => a,
            None => {
                return false;
            },
        };
        i += 1;
    }
    proof {
        assert(zv.skip(zones@.len() as int) =~= Seq::<
            crate::models::ApiAudioZoneWithSessionView,
        >::empty());
    }
    true
}

fn find_binding_by_player_id(
    bindings: &Vec<crate::player::PlayerBinding>,
    player_id: u64,
) -> (r: Option<usize>)
    ensures
        match r {
            Some(i) => i < bindings@.len() && bindings.deep_view()[i as int].player.id
                == player_id,
            None => forall|b: int|
                0 <= b < bindings@.len() ==> (#[trigger] bindings.deep_view()[b]).player.id
                    != player_id,
        },
{
    let mut i: usize = 0;
    while i < bindings.len()
        invariant
            i <= bindings.len(),
            forall|b: int|
                0 <= b < i ==> (#[trigger] bindings.deep_view()[b]).player.id != player_id,
        decreases bindings.len() - i,
    {
        if bindings[i].player.id == player_id {
            return Some(i);
        }
        i += 1;
    }
    None
}

/// Resolve every pending binding whose session the list carries.
///
/// Every entry whose awaited session arrives is removed the moment
/// the list does; the ones whose recorded player still has a binding
/// are initialized from the snapshot, with exactly one initialization
/// effect each.  Only entries whose session the list does not carry
/// are kept, in order.
pub fn resolve_pending_sessions(ctx: &mut AppContext, sessions: &Vec<ApiSession>) -> (effects: Vec<
    Effect,
>)
    ensures
        final(ctx).pending_player_sessions@ == old(ctx).pending_player_sessions@.filter(
            |e: PendingPlayerSession| !pending_session_arrived(e, sessions.deep_view()),
        ),
        effects.deep_view() == old(ctx).pending_player_sessions@.filter(
            |e: PendingPlayerSession|
                pending_resolved(e, sessions.deep_view(), old(ctx).active_players.deep_view()),
        ).map_values(
            |e: PendingPlayerSession|
                (EffectView::InitPlayerFromSession {
                    player_id: e.player_id,
                    session_id: e.session_id,
                }),
        ),
        final(ctx).active_players.deep_view().len() == old(ctx).active_players.deep_view().len(),
        forall|b: int|
            0 <= b < old(ctx).active_players.deep_view().len() ==> {
                let ob = #[trigger] old(ctx).active_players.deep_view()[b];
                let nb = final(ctx).active_players.deep_view()[b];
                &&& nb.playback_target == ob.playback_target
                &&& nb.session_id == ob.session_id
                &&& nb.player_type == ob.player_type
                &&& nb.output == ob.output
                &&& nb.player.id == ob.player.id
                &&& (nb.player == ob.player || exists|j: int|
                    0 <= j < old(ctx).pending_player_sessions@.len() && {
                        let e = #[trigger] old(ctx).pending_player_sessions@[j];
                        &&& pending_resolved(
                            e,
                            sessions.deep_view(),
                            old(ctx).active_players.deep_view(),
                        )
                        &&& e.player_id == ob.player.id
                        &&& nb.player == crate::player::init_from_session_view(
                            ob.player,
                            find_session_view(sessions.deep_view(), e.session_id).unwrap(),
                        )
                    })
            },
        pending_wf(old(ctx).pending_player_sessions@, old(ctx).next_player_id) ==> pending_wf(
            final(ctx).pending_player_sessions@,
            final(ctx).next_player_id,
        ),
        final(ctx).connection_id == old(ctx).connection_id,
        final(ctx).connection_name == old(ctx).connection_name,
        final(ctx).api_url == old(ctx).api_url,
        final(ctx).ws_url == old(ctx).ws_url,
        final(ctx).client_id == old(ctx).client_id,
        final(ctx).signature_token == old(ctx).signature_token,
        final(ctx).api_token == old(ctx).api_token,
        final(ctx).current_playback_target == old(ctx).current_playback_target,
        final(ctx).current_session_id == old(ctx).current_session_id,
        final(ctx).current_sessions == old(ctx).current_sessions,
        final(ctx).current_connections == old(ctx).current_connections,
        final(ctx).current_audio_zones == old(ctx).current_audio_zones,
        final(ctx).current_players == old(ctx).current_players,
        final(ctx).available_outputs == old(ctx).available_outputs,
        final(ctx).playback_quality == old(ctx).playback_quality,
        final(ctx).ws_message_buffer == old(ctx).ws_message_buffer,
        final(ctx).ws_connected == old(ctx).ws_connected,
        final(ctx).next_player_id == old(ctx).next_player_id,
{
    let ghost pend0 = ctx.pending_player_sessions@;
    let ghost bind0 = ctx.active_players.deep_view();
    let ghost sv = sessions.deep_view();
    let ghost keep_pred = (|e: PendingPlayerSession| !pending_session_arrived(e, sv));
    let ghost res_pred = (|e: PendingPlayerSession| pending_resolved(e, sv, bind0));
    let ghost to_init = (|e: PendingPlayerSession|
        (EffectView::InitPlayerFromSession { player_id: e.player_id, session_id: e.session_id }));

    let pending = copy_pending(&ctx.pending_player_sessions);
    let mut new_pending: Vec<PendingPlayerSession> = Vec::new();
    let mut effects: Vec<Effect> = Vec::new();
    proof {
        assert(pend0.take(0) =~= Seq::<PendingPlayerSession>::empty());
        reveal_with_fuel(Seq::filter, 2);
        assert(new_pending@ =~= pend0.take(0).filter(keep_pred));
        assert(effects.deep_view() =~= pend0.take(0).filter(res_pred).map_values(to_init));
    }
    let mut i: usize = 0;
    while i < pending.len()
        invariant
            i <= pending.len(),
            pending@ == pend0,
            sv == sessions.deep_view(),
            bind0 == old(ctx).active_players.deep_view(),
            keep_pred == (|e: PendingPlayerSession| !pending_session_arrived(e, sv)),
            res_pred == (|e: PendingPlayerSession| pending_resolved(e, sv, bind0)),
            to_init == (|e: PendingPlayerSession|
                (EffectView::InitPlayerFromSession {
                    player_id: e.player_id,
                    session_id: e.session_id,
                })),
            new_pending@ == pend0.take(i as int).filter(keep_pred),
            effects.deep_view() == pend0.take(i as int).filter(res_pred).map_values(to_init),
            ctx.active_players.deep_view().len() == bind0.len(),
            forall|b: int|
                0 <= b < bind0.len() ==> {
                    let ob = #[trigger] bind0[b];
                    let nb = ctx.active_players.deep_view()[b];
                    &&& nb.playback_target == ob.playback_target
                    &&& nb.session_id == ob.session_id
                    &&& nb.player_type == ob.player_type
                    &&& nb.output == ob.output
                    &&& nb.player.id == ob.player.id
                    &&& (nb.player == ob.player || exists|j: int|
                        0 <= j < pend0.len() && {
                            let e = #[trigger] pend0[j];
                            &&& pending_resolved(e, sv, bind0)
                            &&& e.player_id == ob.player.id
                            &&& nb.player == crate::player::init_from_session_view(
                                ob.player,
                                find_session_view(sv, e.session_id).unwrap(),
                            )
                        })
                },
            ctx.pending_player_sessions@ == pend0,
            ctx.connection_id == old(ctx).connection_id,
            ctx.connection_name == old(ctx).connection_name,
            ctx.api_url == old(ctx).api_url,
            ctx.ws_url == old(ctx).ws_url,
            ctx.client_id == old(ctx).client_id,
            ctx.signature_token == old(ctx).signature_token,
            ctx.api_token == old(ctx).api_token,
            ctx.current_playback_target == old(ctx).current_playback_target,
            ctx.current_session_id == old(ctx).current_session_id,
            ctx.current_sessions == old(ctx).current_sessions,
            ctx.current_connections == old(ctx).current_connections,
            ctx.current_audio_zones == old(ctx).current_audio_zones,
            ctx.current_players == old(ctx).current_players,
            ctx.available_outputs == old(ctx).available_outputs,
            ctx.playback_quality == old(ctx).playback_quality,
            ctx.ws_message_buffer == old(ctx).ws_message_buffer,
            ctx.ws_connected == old(ctx).ws_connected,
            ctx.next_player_id == old(ctx).next_player_id,
        decreases pending.len() - i,
    {
        let entry = pending[i];
        let session_found = crate::registry::find_session(sessions, entry.session_id);
        let binding_found = find_binding_by_player_id(&ctx.active_players, entry.player_id);
        let ghost prev_new = new_pending@;
        let ghost prev_fx = effects.deep_view();
        match (session_found, binding_found) {
            (Some(_session), None) => {
                // The awaited session arrived but the player's binding
                // is gone: the entry is dropped without initializing
                // anyone.
                proof {
                    assert(pending_session_arrived(entry, sv));
                    assert forall|b: int|
                        0 <= b < bind0.len() implies (#[trigger] bind0[b]).player.id
                        != entry.player_id by {
                        assert(ctx.active_players.deep_view()[b].player.id
                            == bind0[b].player.id);
                    }
                    assert(!pending_resolved(entry, sv, bind0));
                }
            },
            (Some(session), Some(bidx)) => {
                proof {
                    assert(ctx.active_players.deep_view()[bidx as int].player.id
                        == entry.player_id);
                    assert(bind0[bidx as int].player.id == entry.player_id);
                    assert(pending_resolved(entry, sv, bind0));
                }
                let mut b = ctx.active_players[bidx].clone();
                crate::player::init_from_session(&mut b.player, session);
                let ghost bview = b.deep_view();
                let ghost braw = ctx.active_players@;
                vstd::pervasive::VecAdditionalExecFns::set(&mut ctx.active_players, bidx, b);
                crate::protocol::push_effect(
                    &mut effects,
                    Effect::InitPlayerFromSession {
                        player_id: entry.player_id,
                        session_id: entry.session_id,
                    },
                );
                proof {
                    let now = ctx.active_players.deep_view();
                    assert forall|b2: int|
                        0 <= b2 < bind0.len() && b2 != bidx as int implies #[trigger] now[b2]
                        == braw[b2].deep_view() by {
                        assert(ctx.active_players@[b2] == braw[b2]);
                        assert(now[b2] == ctx.active_players@[b2].deep_view());
                    }
                    assert(now[bidx as int] == bview);
                }
            },
            (None, _) => {
                proof {
                    assert(!pending_session_arrived(entry, sv));
                    assert(!pending_resolved(entry, sv, bind0));
                }
                new_pending.push(entry);
            },
        }
        proof {
            reveal_with_fuel(Seq::filter, 2);
            assert(pend0.take(i as int + 1).drop_last() =~= pend0.take(i as int));
            assert(pend0.take(i as int + 1).last() == pend0[i as int]);
            assert(pend0[i as int] == entry);
            if pending_session_arrived(entry, sv) {
                assert(pend0.take(i as int + 1).filter(keep_pred) == pend0.take(
                    i as int,
                ).filter(keep_pred));
            } else {
                assert(pend0.take(i as int + 1).filter(keep_pred) == pend0.take(
                    i as int,
                ).filter(keep_pred).push(entry));
            }
            if pending_resolved(entry, sv, bind0) {
                assert(pend0.take(i as int + 1).filter(res_pred) == pend0.take(
                    i as int,
                ).filter(res_pred).push(entry));
                assert(effects.deep_view() =~= prev_fx.push(to_init(entry)));
                assert(pend0.take(i as int + 1).filter(res_pred).map_values(to_init)
                    =~= pend0.take(i as int).filter(res_pred).map_values(to_init).push(
                    to_init(entry),
                ));
            } else {
                assert(pend0.take(i as int + 1).filter(res_pred) == pend0.take(
                    i as int,
                ).filter(res_pred));
            }
        }
        i += 1;
    }
    ctx.pending_player_sessions = new_pending;
    proof {
        assert(pend0.take(pend0.len() as int) =~= pend0);
        if pending_wf(pend0, ctx.next_player_id) {
            lemma_pending_wf_filter(pend0, keep_pred, ctx.next_player_id);
        }
    }
    effects
}

/// Handle an inbound session list: resolve pending bindings, install
/// the list as the canonical session registry, re-join zones, ensure
/// connection-output bindings for every listed session, and mirror
/// the current session to the plugin surface.
pub fn handle_session_list(ctx: &mut AppContext, sessions: Vec<ApiSession>) -> (r: Result<
    Vec<Effect>,
    TauriPlayerError,
>)
    requires
        old(ctx).next_player_id + total_zone_players(old(ctx).current_audio_zones.deep_view())
            + old(ctx).available_outputs@.len() * sessions@.len() <= u64::MAX,
        pending_wf(old(ctx).pending_player_sessions@, old(ctx).next_player_id),
    ensures
        r is Err ==> old(ctx).api_url is None,
        old(ctx).api_url is Some ==> r is Ok,
        final(ctx).current_sessions.deep_view() == sessions.deep_view(),
        r is Ok ==> (old(ctx).connection_id matches Some(cid)
            ==> crate::reconcile::connection_outputs_covered(
            final(ctx).active_players.deep_view(),
            cid@,
            old(ctx).available_outputs.deep_view(),
            old(ctx).current_players.deep_view(),
            sessions.deep_view().map_values(|s: ApiSessionView| s.session_id),
        )),
        r is Ok ==> crate::reconcile::zones_rejoined(
            final(ctx).active_players.deep_view(),
            old(ctx).current_audio_zones.deep_view(),
            old(ctx).current_players.deep_view(),
        ),
        r is Ok ==> forall|j: int|
            0 <= j < old(ctx).pending_player_sessions@.len() && pending_session_arrived(
                #[trigger] old(ctx).pending_player_sessions@[j],
                sessions.deep_view(),
            ) ==> !final(ctx).pending_player_sessions@.contains(
                old(ctx).pending_player_sessions@[j],
            ),
        pending_wf(final(ctx).pending_player_sessions@, final(ctx).next_player_id),
        final(ctx).connection_id == old(ctx).connection_id,
        final(ctx).api_url == old(ctx).api_url,
        final(ctx).ws_message_buffer == old(ctx).ws_message_buffer,
        final(ctx).ws_connected == old(ctx).ws_connected,
{
    let mut effects = resolve_pending_sessions(ctx, &sessions);
    let ghost resolved_pending = ctx.pending_player_sessions@;
    let ids = session_ids(&sessions);
    proof {
        assert forall|k: int| 0 <= k < ids@.len() implies ids@[k] == sessions.deep_view().map_values(
            |s: ApiSessionView| s.session_id,
        )[k] by {
            assert(ids@[k] == sessions.deep_view()[k].session_id);
        }
        assert(ids@ =~= sessions.deep_view().map_values(|s: ApiSessionView| s.session_id));
    }
    ctx.current_sessions = sessions;
    let ghost next0 = ctx.next_player_id;
    match update_audio_zones(ctx) {
        Ok(fx) => {
            crate::protocol::append_effects(&mut effects, fx);
        },
        Err(e) => {
            return Err(e);
        },
    }
    let ghost pend_mid = ctx.pending_player_sessions@;
    let ghost next_mid = ctx.next_player_id;
    let ghost mid_bindings = ctx.active_players.deep_view();
    match update_connection_outputs(ctx, &ids) {
        Ok(fx) => {
            crate::protocol::append_effects(&mut effects, fx);
        },
        Err(e) => {
            return Err(e);
        },
    }
    match crate::convert::update_playlist(ctx) {
        Some(state) => {
            push_effect(&mut effects, Effect::UpdatePluginState { state });
        },
        None => {},
    }
    proof {
        // Bindings installed by the zone re-join survive the
        // connection-output pass, which only appends.
        let fin = ctx.active_players.deep_view();
        let zv = old(ctx).current_audio_zones.deep_view();
        let regv = old(ctx).current_players.deep_view();
        assert forall|z: int|
            0 <= z < zv.len() && (forall|z2: int|
                0 <= z2 < zv.len() && z2 != z ==> (#[trigger] zv[z2]).id != zv[z].id)
                && crate::reconcile::zone_join_view((#[trigger] zv[z]).players, regv).len() > 0
                implies crate::reconcile::zone_players_covered(
            fin,
            zv[z].id,
            zv[z].session_id,
            crate::reconcile::zone_join_view(zv[z].players, regv),
        ) by {
            let join = crate::reconcile::zone_join_view(zv[z].players, regv);
            assert(crate::reconcile::zone_players_covered(
                mid_bindings,
                zv[z].id,
                zv[z].session_id,
                join,
            ));
            assert forall|k: int|
                #![trigger join[k]]
                0 <= k < join.len() implies exists|b: int|
                0 <= b < fin.len() && crate::reconcile::zone_binding_live(
                    #[trigger] fin[b],
                    zv[z].id,
                    zv[z].session_id,
                    join[k].output.id,
                ) by {
                let w = choose|b: int|
                    0 <= b < mid_bindings.len() && crate::reconcile::zone_binding_live(
                        #[trigger] mid_bindings[b],
                        zv[z].id,
                        zv[z].session_id,
                        join[k].output.id,
                    );
                assert(fin[w] == mid_bindings[w]);
            }
        }
        assert(crate::reconcile::zones_rejoined(fin, zv, regv));
        let ghost old_p = old(ctx).pending_player_sessions@;
        let ghost sv = ctx.current_sessions.deep_view();
        let ghost bind0 = old(ctx).active_players.deep_view();
        crate::context::lemma_pending_extended_trans(
            resolved_pending,
            pend_mid,
            ctx.pending_player_sessions@,
            next0,
            next_mid,
        );
        assert forall|j: int|
            0 <= j < old_p.len() && pending_session_arrived(
                #[trigger] old_p[j],
                sv,
            ) implies !ctx.pending_player_sessions@.contains(old_p[j]) by {
            let e = old_p[j];
            lemma_pending_entry_resolved_once(old_p, sv, j);
            if ctx.pending_player_sessions@.contains(e) {
                let k = choose|k: int|
                    0 <= k < ctx.pending_player_sessions@.len()
                        && ctx.pending_player_sessions@[k] == e;
                if k < resolved_pending.len() {
                    assert(ctx.pending_player_sessions@[k] == resolved_pending[k]);
                    assert(resolved_pending.contains(e)) by {
                        assert(resolved_pending[k] == e);
                    }
                } else {
                    assert(ctx.pending_player_sessions@[k].player_id >= next0);
                    assert(e.player_id < old(ctx).next_player_id);
                }
            }
        }
    }
    Ok(effects)
}

/// An effect present in a list stays present when the list is
/// extended at the end.
proof fn lemma_has_update_effect_extend(
    a: Seq<EffectView>,
    b: Seq<EffectView>,
    player_id: u64,
    update: crate::models::ApiUpdateSessionView,
)
    requires
        crate::reconcile::has_update_effect(a, player_id, update),
        b.len() >= a.len(),
        forall|e: int| 0 <= e < a.len() ==> #[trigger] b[e] == a[e],
    ensures
        crate::reconcile::has_update_effect(b, player_id, update),
{
    let e = choose|e: int|
        0 <= e < a.len() && (#[trigger] a[e]) == (EffectView::UpdatePlayer { player_id, update });
    assert(b[e] == a[e]);
}

/// Dispatch one decoded inbound message and mirror it to the
/// observation sink.  A message that could not be decoded (`None`) is
/// dropped silently; every decoded message — recognized or not — ends
/// the effect list with its re-emission, so the boundary misses
/// nothing.
/// Dispatch one decoded inbound message and mirror it to the
/// observation sink.
///
/// A message that could not be decoded (`None`) is dropped silently.
/// Every decoded message — recognized or not, handled or not — ends
/// the effect list with its re-emission, so the boundary misses
/// nothing: a handler's configuration failure (a refresh without an
/// API origin) is the handler's own and never suppresses the mirror.
pub fn route_message(ctx: &mut AppContext, message: Option<InboundMessage>) -> (effects: Vec<
    Effect,
>)
    requires
        old(ctx).next_player_id + total_zone_players(old(ctx).current_audio_zones.deep_view()) + (
        match message {
            Some(InboundMessage::SessionList { sessions }) => old(ctx).available_outputs@.len()
                * sessions@.len(),
            _ => 0,
        }) <= u64::MAX,
        pending_wf(old(ctx).pending_player_sessions@, old(ctx).next_player_id),
    ensures
        message is None ==> effects@.len() == 0 && *final(ctx) == *old(ctx),
        message matches Some(m) ==> effects.deep_view().len() >= 1
            && effects.deep_view().last() == (EffectView::EmitMessage {
            message: m.deep_view(),
        }),
        (message matches Some(InboundMessage::ConnectionIdentity { connection_id })
            ==> (effects.deep_view().len() == 2 && (effects.deep_view()[0]
            matches EffectView::EmitConnect { message: wm }
            && wm.connection_id == connection_id@))),
        (message matches Some(InboundMessage::ConnectionList { connections }) ==> final(ctx).current_connections.deep_view() == connections.deep_view()),
        (message matches Some(InboundMessage::ConnectionList { connections }) ==> (old(
            ctx,
        ).api_url is Some ==> crate::reconcile::zones_rejoined(
            final(ctx).active_players.deep_view(),
            old(ctx).current_audio_zones.deep_view(),
            old(ctx).current_players.deep_view(),
        ))),
        (message matches Some(InboundMessage::ZoneListWithSessions { zones }) ==> final(ctx).current_audio_zones.deep_view() == zones.deep_view()),
        (message matches Some(InboundMessage::ZoneListWithSessions { zones }) ==> ((old(
            ctx,
        ).api_url is Some && old(ctx).next_player_id + total_zone_players(zones.deep_view())
            <= u64::MAX) ==> crate::reconcile::zones_rejoined(
            final(ctx).active_players.deep_view(),
            zones.deep_view(),
            old(ctx).current_players.deep_view(),
        ))),
        (message matches Some(InboundMessage::SessionList { sessions }) ==> final(ctx).current_sessions.deep_view() == sessions.deep_view()),
        (message matches Some(InboundMessage::SessionList { sessions }) ==> forall|j: int|
            0 <= j < old(ctx).pending_player_sessions@.len() && pending_session_arrived(
                #[trigger] old(ctx).pending_player_sessions@[j],
                sessions.deep_view(),
            ) && old(ctx).api_url is Some ==> !final(ctx).pending_player_sessions@.contains(
                old(ctx).pending_player_sessions@[j],
            )),
        (message matches Some(InboundMessage::Unknown) ==> (effects@.len() == 1 && *final(ctx)
            == *old(ctx))),
        (message matches Some(InboundMessage::SessionUpdated { update })
            ==> (crate::reconcile::any_binding_matches(
            old(ctx).active_players.deep_view(),
            update.session_id,
            update.playback_target.deep_view(),
        ) ==> {
            &&& final(ctx).active_players.deep_view().len() == old(
                ctx,
            ).active_players.deep_view().len()
            &&& forall|i: int|
                0 <= i < old(ctx).active_players.deep_view().len()
                    ==> #[trigger] final(ctx).active_players.deep_view()[i] == (
                if crate::reconcile::binding_matches(
                    old(ctx).active_players.deep_view()[i],
                    update.session_id,
                    Some(update.playback_target.deep_view()),
                ) {
                    crate::reconcile::reconciled_binding_view(
                        old(ctx).active_players.deep_view()[i],
                        update.deep_view(),
                        old(ctx).current_sessions.deep_view(),
                    )
                } else {
                    old(ctx).active_players.deep_view()[i]
                })
            &&& forall|i: int|
                0 <= i < old(ctx).active_players.deep_view().len()
                    && crate::reconcile::binding_matches(
                    #[trigger] old(ctx).active_players.deep_view()[i],
                    update.session_id,
                    Some(update.playback_target.deep_view()),
                ) ==> crate::reconcile::has_update_effect(
                    effects.deep_view(),
                    old(ctx).active_players.deep_view()[i].player.id,
                    crate::reconcile::merge_update_for_player_view(
                        update.deep_view(),
                        old(ctx).active_players.deep_view()[i].player,
                        old(ctx).current_sessions.deep_view(),
                    ),
                )
        })),
        (message matches Some(InboundMessage::SeekUpdated { session_id, target, seek })
            ==> (crate::reconcile::any_binding_matches(
            old(ctx).active_players.deep_view(),
            session_id,
            target.deep_view(),
        ) ==> {
            &&& final(ctx).active_players.deep_view().len() == old(
                ctx,
            ).active_players.deep_view().len()
            &&& forall|i: int|
                0 <= i < old(ctx).active_players.deep_view().len()
                    ==> #[trigger] final(ctx).active_players.deep_view()[i] == (
                if crate::reconcile::binding_matches(
                    old(ctx).active_players.deep_view()[i],
                    session_id,
                    Some(target.deep_view()),
                ) {
                    crate::reconcile::reconciled_binding_view(
                        old(ctx).active_players.deep_view()[i],
                        crate::outbox::seek_only_update_view(
                            session_id,
                            target.deep_view(),
                            seek,
                        ),
                        old(ctx).current_sessions.deep_view(),
                    )
                } else {
                    old(ctx).active_players.deep_view()[i]
                })
        })),
        (message matches Some(InboundMessage::SessionUpdated { update }) ==> (update.quality
            is Some ==> final(ctx).playback_quality == update.quality)),
        pending_wf(final(ctx).pending_player_sessions@, final(ctx).next_player_id),
{
    let ghost msgv = message.deep_view();
    let m = match message {
        Some(m) => m,
        None => {
            return Vec::new();
        },
    };
    let mut effects: Vec<Effect> = Vec::new();
    let ghost mut handler_fx: Seq<EffectView> = Seq::empty();
    match &m {
        InboundMessage::ConnectionIdentity { connection_id } => {
            let ws_url = match &ctx.ws_url {
                Some(u) => u.clone(),
                None => String::new(),
            };
            push_effect(
                &mut effects,
                Effect::EmitConnect {
                    message: WsConnectMessage { connection_id: connection_id.clone(), ws_url },
                },
            );
        },
        InboundMessage::ConnectionList { connections } => {
            ctx.current_connections = crate::models::clone_connections(connections);
            proof {
                crate::reconcile::lemma_total_zone_players_nonneg(
                    ctx.current_audio_zones.deep_view(),
                );
            }
            match update_audio_zones(ctx) {
                Ok(fx) => {
                    crate::protocol::append_effects(&mut effects, fx);
                },
                Err(_) => {},
            }
        },
        InboundMessage::SessionList { sessions } => {
            let copy = clone_sessions(sessions);
            proof {
                assert(copy.deep_view().len() == copy@.len());
                assert(sessions.deep_view().len() == sessions@.len());
            }
            match handle_session_list(ctx, copy) {
                Ok(fx) => {
                    crate::protocol::append_effects(&mut effects, fx);
                },
                Err(_) => {},
            }
        },
        InboundMessage::ZoneListWithSessions { zones } => {
            ctx.current_audio_zones = crate::models::clone_zones(zones);
            proof {
                crate::reconcile::lemma_total_zone_players_nonneg(
                    ctx.current_audio_zones.deep_view(),
                );
            }
            if zone_player_budget_ok(&ctx.current_audio_zones, ctx.next_player_id) {
                match update_audio_zones(ctx) {
                    Ok(fx) => {
                        crate::protocol::append_effects(&mut effects, fx);
                    },
                    Err(_) => {},
                }
            }
        },
        InboundMessage::SessionUpdated { update } => {
            match handle_playback_update(ctx, update) {
                Ok(fx) => {
                    crate::protocol::append_effects(&mut effects, fx);
                },
                Err(_) => {},
            }
            proof {
                handler_fx = effects.deep_view();
            }
        },
        InboundMessage::SeekUpdated { session_id, target, seek } => {
            let u = seek_only_update(*session_id, target.clone(), *seek);
            match handle_playback_update(ctx, &u) {
                Ok(fx) => {
                    crate::protocol::append_effects(&mut effects, fx);
                },
                Err(_) => {},
            }
        },
        InboundMessage::Unknown => {},
    }
    push_effect(&mut effects, Effect::EmitMessage { message: m });
    proof {
        assert(effects@.len() == effects.deep_view().len());
        match msgv {
            Some(crate::protocol::InboundMessageView::SessionUpdated { update: uv }) => {
                if crate::reconcile::any_binding_matches(
                    old(ctx).active_players.deep_view(),
                    uv.session_id,
                    uv.playback_target,
                ) {
                    assert forall|i: int|
                        0 <= i < old(ctx).active_players.deep_view().len()
                            && crate::reconcile::binding_matches(
                            #[trigger] old(ctx).active_players.deep_view()[i],
                            uv.session_id,
                            Some(uv.playback_target),
                        ) implies crate::reconcile::has_update_effect(
                        effects.deep_view(),
                        old(ctx).active_players.deep_view()[i].player.id,
                        crate::reconcile::merge_update_for_player_view(
                            uv,
                            old(ctx).active_players.deep_view()[i].player,
                            old(ctx).current_sessions.deep_view(),
                        ),
                    ) by {
                        lemma_has_update_effect_extend(
                            handler_fx,
                            effects.deep_view(),
                            old(ctx).active_players.deep_view()[i].player.id,
                            crate::reconcile::merge_update_for_player_view(
                                uv,
                                old(ctx).active_players.deep_view()[i].player,
                                old(ctx).current_sessions.deep_view(),
                            ),
                        );
                    }
                }
            },
            _ => {},
        }
    }
    effects
}

/// Copy the pending registry for iteration while it is rebuilt.
fn copy_pending(v: &Vec<PendingPlayerSession>) -> (r: Vec<PendingPlayerSession>)
    ensures
        r@ == v@,
{
    let mut r: Vec<PendingPlayerSession> = Vec::new();
    let mut i: usize = 0;
    while i < v.len()
        invariant
            i <= v.len(),
            r@ == v@.take(i as int),
        decreases v.len() - i,
    {
        r.push(v[i]);
        i += 1;
        proof {
            assert(r@ =~= v@.take(i as int));
        }
    }
    proof {
        assert(v@.take(v@.len() as int) =~= v@);
    }
    r
}

} // verus!
