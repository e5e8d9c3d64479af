//! Read access to the registries: first-match lookups over the
//! session, zone and player collections, and the self-healing append
//! of newly registered players.
//!
//! Each lookup has a recursive specification (`find_*_view`) that the
//! executable search is proved against, so callers reason about "the
//! first entry with this id" rather than about loop internals.

use vstd::prelude::*;

use crate::context::AppContext;
use crate::context::RegisteredPlayer;
use crate::context::RegisteredPlayerView;
use crate::models::ApiAudioZoneWithSession;
use crate::models::ApiAudioZoneWithSessionView;
use crate::models::ApiSession;
use crate::models::ApiSessionView;

verus! {

/// The first session with the given id, if any.
pub open spec fn find_session_view(sessions: Seq<ApiSessionView>, session_id: u64) -> Option<
    ApiSessionView,
>
    decreases sessions.len(),
{
    if sessions.len() == 0 {
        None
    } else if sessions[0].session_id == session_id {
        Some(sessions[0])
    } else {
        find_session_view(sessions.skip(1), session_id)
    }
}

proof fn lemma_find_session_skip(s: Seq<ApiSessionView>, session_id: u64, i: int)
    requires
        0 <= i <= s.len(),
        forall|j: int| 0 <= j < i ==> (#[trigger] s[j]).session_id != session_id,
    ensures
        find_session_view(s, session_id) == find_session_view(s.skip(i), session_id),
    decreases i,
{
    if i > 0 {
        assert(s[0].session_id != session_id);
        assert forall|j: int| 0 <= j < i - 1 implies (#[trigger] s.skip(1)[j]).session_id
            != session_id by {
            assert(s.skip(1)[j] == s[j + 1]);
        }
        lemma_find_session_skip(s.skip(1), session_id, i - 1);
        assert(s.skip(1).skip(i - 1) =~= s.skip(i));
    } else {
        assert(s.skip(0) =~= s);
    }
}

/// Look up a session by id; returns the first match.
pub fn find_session(sessions: &Vec<ApiSession>, session_id: u64) -> (r: Option<&ApiSession>)
    ensures
        match r {
            Some(s) => find_session_view(sessions.deep_view(), session_id) == Some(s.deep_view())
                && s.session_id == session_id,
            None => find_session_view(sessions.deep_view(), session_id) is None,
        },
{
    let mut i: usize = 0;
    while i < sessions.len()
        invariant
            i <= sessions.len(),
            forall|j: int|
                0 <= j < i ==> (#[trigger] sessions.deep_view()[j]).session_id != session_id,
        decreases sessions.len() - i,
    {
        if sessions[i].session_id == session_id {
            proof {
                lemma_find_session_skip(sessions.deep_view(), session_id, i as int);
                assert(sessions.deep_view().skip(i as int)[0] == sessions.deep_view()[i as int]);
            }
            return Some(&sessions[i]);
        }
        i += 1;
    }
    proof {
        lemma_find_session_skip(sessions.deep_view(), session_id, sessions.deep_view().len() as int);
    }
    None
}

/// The first zone with the given id, if any.
pub open spec fn find_zone_view(zones: Seq<ApiAudioZoneWithSessionView>, zone_id: u64) -> Option<
    ApiAudioZoneWithSessionView,
>
    decreases zones.len(),
{
    if zones.len() == 0 {
        None
    } else if zones[0].id == zone_id {
        Some(zones[0])
    } else {
        find_zone_view(zones.skip(1), zone_id)
    }
}

proof fn lemma_find_zone_skip(s: Seq<ApiAudioZoneWithSessionView>, zone_id: u64, i: int)
    requires
        0 <= i <= s.len(),
        forall|j: int| 0 <= j < i ==> (#[trigger] s[j]).id != zone_id,
    ensures
        find_zone_view(s, zone_id) == find_zone_view(s.skip(i), zone_id),
    decreases i,
{
    if i > 0 {
        assert(s[0].id != zone_id);
        assert forall|j: int| 0 <= j < i - 1 implies (#[trigger] s.skip(1)[j]).id != zone_id by {
            assert(s.skip(1)[j] == s[j + 1]);
        }
        lemma_find_zone_skip(s.skip(1), zone_id, i - 1);
        assert(s.skip(1).skip(i - 1) =~= s.skip(i));
    } else {
        assert(s.skip(0) =~= s);
    }
}

/// Look up a zone by id; returns the first match.
pub fn find_zone(zones: &Vec<ApiAudioZoneWithSession>, zone_id: u64) -> (r: Option<
    &ApiAudioZoneWithSession,
>)
    ensures
        match r {
            Some(z) => find_zone_view(zones.deep_view(), zone_id) == Some(z.deep_view()) && z.id
                == zone_id,
            None => find_zone_view(zones.deep_view(), zone_id) is None,
        },
{
    let mut i: usize = 0;
    while i < zones.len()
        invariant
            i <= zones.len(),
            forall|j: int| 0 <= j < i ==> (#[trigger] zones.deep_view()[j]).id != zone_id,
        decreases zones.len() - i,
    {
        if zones[i].id == zone_id {
            proof {
                lemma_find_zone_skip(zones.deep_view(), zone_id, i as int);
                assert(zones.deep_view().skip(i as int)[0] == zones.deep_view()[i as int]);
            }
            return Some(&zones[i]);
        }
        i += 1;
    }
    proof {
        lemma_find_zone_skip(zones.deep_view(), zone_id, zones.deep_view().len() as int);
    }
    None
}

/// Look up a zone by id; returns the index of the first match.
pub fn find_zone_idx(zones: &Vec<ApiAudioZoneWithSession>, zone_id: u64) -> (r: Option<usize>)
    ensures
        match r {
            Some(i) => i < zones@.len() && Some(zones.deep_view()[i as int]) == find_zone_view(
                zones.deep_view(),
                zone_id,
            ) && zones.deep_view()[i as int].id == zone_id,
            None => find_zone_view(zones.deep_view(), zone_id) is None,
        },
{
    let mut i: usize = 0;
    while i < zones.len()
        invariant
            i <= zones.len(),
            forall|j: int| 0 <= j < i ==> (#[trigger] zones.deep_view()[j]).id != zone_id,
        decreases zones.len() - i,
    {
        if zones[i].id == zone_id {
            proof {
                lemma_find_zone_skip(zones.deep_view(), zone_id, i as int);
                assert(zones.deep_view().skip(i as int)[0] == zones.deep_view()[i as int]);
            }
            return Some(i);
        }
        i += 1;
    }
    proof {
        lemma_find_zone_skip(zones.deep_view(), zone_id, zones.deep_view().len() as int);
    }
    None
}

/// The first registered player rendering through the given output, if
/// any.
pub open spec fn find_registered_by_output_view(
    players: Seq<RegisteredPlayerView>,
    output_id: Seq<char>,
) -> Option<RegisteredPlayerView>
    decreases players.len(),
{
    if players.len() == 0 {
        None
    } else if players[0].player.audio_output_id == output_id {
        Some(players[0])
    } else {
        find_registered_by_output_view(players.skip(1), output_id)
    }
}

proof fn lemma_find_registered_by_output_skip(
    s: Seq<RegisteredPlayerView>,
    output_id: Seq<char>,
    i: int,
)
    requires
        0 <= i <= s.len(),
        forall|j: int| 0 <= j < i ==> (#[trigger] s[j]).player.audio_output_id != output_id,
    ensures
        find_registered_by_output_view(s, output_id) == find_registered_by_output_view(
            s.skip(i),
            output_id,
        ),
    decreases i,
{
    if i > 0 {
        assert(s[0].player.audio_output_id != output_id);
        assert forall|j: int| 0 <= j < i - 1 implies (#[trigger] s.skip(1)[j]).player.audio_output_id
            != output_id by {
            assert(s.skip(1)[j] == s[j + 1]);
        }
        lemma_find_registered_by_output_skip(s.skip(1), output_id, i - 1);
        assert(s.skip(1).skip(i - 1) =~= s.skip(i));
    } else {
        assert(s.skip(0) =~= s);
    }
}

/// Look up a registered player by the output it renders through;
/// returns the first match.
pub fn find_registered_by_output<'a>(
    players: &'a Vec<RegisteredPlayer>,
    output_id: &String,
) -> (r: Option<&'a RegisteredPlayer>)
    ensures
        match r {
            Some(p) => find_registered_by_output_view(players.deep_view(), output_id@) == Some(
                p.deep_view(),
            ) && p.player.audio_output_id@ == output_id@,
            None => find_registered_by_output_view(players.deep_view(), output_id@) is None,
        },
{
    let mut i: usize = 0;
    while i < players.len()
        invariant
            i <= players.len(),
            forall|j: int|
                0 <= j < i ==> (#[trigger] players.deep_view()[j]).player.audio_output_id
                    != output_id@,
        decreases players.len() - i,
    {
        if players[i].player.audio_output_id == *output_id {
            proof {
                lemma_find_registered_by_output_skip(players.deep_view(), output_id@, i as int);
                assert(players.deep_view().skip(i as int)[0] == players.deep_view()[i as int]);
            }
            return Some(&players[i]);
        }
        i += 1;
    }
    proof {
        lemma_find_registered_by_output_skip(
            players.deep_view(),
            output_id@,
            players.deep_view().len() as int,
        );
    }
    None
}

/// The first registered player with the given remote player id, if
/// any.
pub open spec fn find_registered_by_player_id_view(
    players: Seq<RegisteredPlayerView>,
    player_id: u64,
) -> Option<RegisteredPlayerView>
    decreases players.len(),
{
    if players.len() == 0 {
        None
    } else if players[0].player.player_id == player_id {
        Some(players[0])
    } else {
        find_registered_by_player_id_view(players.skip(1), player_id)
    }
}

proof fn lemma_find_registered_by_player_id_skip(
    s: Seq<RegisteredPlayerView>,
    player_id: u64,
    i: int,
)
    requires
        0 <= i <= s.len(),
        forall|j: int| 0 <= j < i ==> (#[trigger] s[j]).player.player_id != player_id,
    ensures
        find_registered_by_player_id_view(s, player_id) == find_registered_by_player_id_view(
            s.skip(i),
            player_id,
        ),
    decreases i,
{
    if i > 0 {
        assert(s[0].player.player_id != player_id);
        assert forall|j: int| 0 <= j < i - 1 implies (#[trigger] s.skip(1)[j]).player.player_id
            != player_id by {
            assert(s.skip(1)[j] == s[j + 1]);
        }
        lemma_find_registered_by_player_id_skip(s.skip(1), player_id, i - 1);
        assert(s.skip(1).skip(i - 1) =~= s.skip(i));
    } else {
        assert(s.skip(0) =~= s);
    }
}

/// Look up a registered player by its remote player id; returns the
/// first match.
pub fn find_registered_by_player_id(players: &Vec<RegisteredPlayer>, player_id: u64) -> (r: Option<
    &RegisteredPlayer,
>)
    ensures
        match r {
            Some(p) => find_registered_by_player_id_view(players.deep_view(), player_id) == Some(
                p.deep_view(),
            ) && p.player.player_id == player_id,
            None => find_registered_by_player_id_view(players.deep_view(), player_id) is None,
        },
{
    let mut i: usize = 0;
    while i < players.len()
        invariant
            i <= players.len(),
            forall|j: int|
                0 <= j < i ==> (#[trigger] players.deep_view()[j]).player.player_id != player_id,
        decreases players.len() - i,
    {
        if players[i].player.player_id == player_id {
            proof {
                lemma_find_registered_by_player_id_skip(players.deep_view(), player_id, i as int);
                assert(players.deep_view().skip(i as int)[0] == players.deep_view()[i as int]);
            }
            return Some(&players[i]);
        }
        i += 1;
    }
    proof {
        lemma_find_registered_by_player_id_skip(
            players.deep_view(),
            player_id,
            players.deep_view().len() as int,
        );
    }
    None
}

/// The first available output with the given id, if any.
pub open spec fn find_output_view(
    outputs: Seq<crate::models::AudioOutputView>,
    output_id: Seq<char>,
) -> Option<crate::models::AudioOutputView>
    decreases outputs.len(),
{
    if outputs.len() == 0 {
        None
    } else if outputs[0].id == output_id {
        Some(outputs[0])
    } else {
        find_output_view(outputs.skip(1), output_id)
    }
}

proof fn lemma_find_output_skip(s: Seq<crate::models::AudioOutputView>, output_id: Seq<char>, i: int)
    requires
        0 <= i <= s.len(),
        forall|j: int| 0 <= j < i ==> (#[trigger] s[j]).id != output_id,
    ensures
        find_output_view(s, output_id) == find_output_view(s.skip(i), output_id),
    decreases i,
{
    if i > 0 {
        assert(s[0].id != output_id);
        assert forall|j: int| 0 <= j < i - 1 implies (#[trigger] s.skip(1)[j]).id != output_id by {
            assert(s.skip(1)[j] == s[j + 1]);
        }
        lemma_find_output_skip(s.skip(1), output_id, i - 1);
        assert(s.skip(1).skip(i - 1) =~= s.skip(i));
    } else {
        assert(s.skip(0) =~= s);
    }
}

/// Look up an available output by id; returns the first match.
pub fn find_output<'a>(
    outputs: &'a Vec<crate::models::AudioOutput>,
    output_id: &String,
) -> (r: Option<&'a crate::models::AudioOutput>)
    ensures
        match r {
            Some(o) => find_output_view(outputs.deep_view(), output_id@) == Some(o.deep_view())
                && o.id@ == output_id@,
            None => find_output_view(outputs.deep_view(), output_id@) is None,
        },
{
    let mut i: usize = 0;
    while i < outputs.len()
        invariant
            i <= outputs.len(),
            forall|j: int| 0 <= j < i ==> (#[trigger] outputs.deep_view()[j]).id != output_id@,
        decreases outputs.len() - i,
    {
        if outputs[i].id == *output_id {
            proof {
                lemma_find_output_skip(outputs.deep_view(), output_id@, i as int);
                assert(outputs.deep_view().skip(i as int)[0] == outputs.deep_view()[i as int]);
            }
            return Some(&outputs[i]);
        }
        i += 1;
    }
    proof {
        lemma_find_output_skip(outputs.deep_view(), output_id@, outputs.deep_view().len() as int);
    }
    None
}

/// The registration payload announcing the given outputs as players.
pub fn register_players_payload(outputs: &Vec<crate::models::AudioOutput>) -> (r: Vec<
    crate::models::RegisterPlayer,
>)
    ensures
        r@.len() == outputs@.len(),
        forall|i: int|
            0 <= i < r@.len() ==> {
                &&& (#[trigger] r.deep_view()[i]).audio_output_id == outputs.deep_view()[i].id
                &&& r.deep_view()[i].name == outputs.deep_view()[i].name
            },
{
    let mut r: Vec<crate::models::RegisterPlayer> = Vec::new();
    let mut i: usize = 0;
    while i < outputs.len()
        invariant
            i <= outputs.len(),
            r@.len() == i,
            forall|j: int|
                0 <= j < i ==> {
                    &&& (#[trigger] r.deep_view()[j]).audio_output_id == outputs.deep_view()[j].id
                    &&& r.deep_view()[j].name == outputs.deep_view()[j].name
                },
        decreases outputs.len() - i,
    {
        let ghost praw = r@;
        let ghost pviews = r.deep_view();
        r.push(
            crate::models::RegisterPlayer {
                audio_output_id: outputs[i].id.clone(),
                name: outputs[i].name.clone(),
            },
        );
        proof {
            assert forall|j: int|
                0 <= j < i + 1 implies {
                &&& (#[trigger] r.deep_view()[j]).audio_output_id == outputs.deep_view()[j].id
                &&& r.deep_view()[j].name == outputs.deep_view()[j].name
            } by {
                assert(r.deep_view()[j] == r@[j].deep_view());
                assert(outputs.deep_view()[j] == outputs@[j].deep_view());
                if j < i {
                    assert(r@[j] == praw[j]);
                    assert(pviews[j] == praw[j].deep_view());
                }
            }
        }
        i += 1;
    }
    r
}

/// The registry entries a registration reply yields: each returned
/// player the outputs still know, joined with its output device, in
/// reply order; players whose output has disappeared are left out.
pub open spec fn register_join_view(
    players: Seq<crate::models::ApiPlayerView>,
    outputs: Seq<crate::models::AudioOutputView>,
    kind: crate::player::PlayerKind,
) -> Seq<RegisteredPlayerView>
    decreases players.len(),
{
    if players.len() == 0 {
        Seq::<RegisteredPlayerView>::empty()
    } else {
        let rest = register_join_view(players.drop_last(), outputs, kind);
        match find_output_view(outputs, players.last().audio_output_id) {
            Some(o) => rest.push(
                RegisteredPlayerView { player: players.last(), kind, output: o },
            ),
            None => rest,
        }
    }
}

/// Join a registration reply with the available outputs.
pub fn match_registered_players(
    players: &Vec<crate::models::ApiPlayer>,
    outputs: &Vec<crate::models::AudioOutput>,
    kind: crate::player::PlayerKind,
) -> (r: Vec<RegisteredPlayer>)
    ensures
        r.deep_view() == register_join_view(players.deep_view(), outputs.deep_view(), kind),
{
    let mut r: Vec<RegisteredPlayer> = Vec::new();
    let ghost pv = players.deep_view();
    let mut i: usize = 0;
    while i < players.len()
        invariant
            i <= players.len(),
            pv == players.deep_view(),
            r.deep_view() =~= register_join_view(pv.take(i as int), outputs.deep_view(), kind),
        decreases players.len() - i,
    {
        match find_output(outputs, &players[i].audio_output_id) {
            Some(output) => {
                r.push(
                    RegisteredPlayer {
                        player: players[i].clone(),
                        kind,
                        output: output.clone(),
                    },
                );
            },
            None => {},
        }
        proof {
            assert(pv.take(i as int + 1).drop_last() =~= pv.take(i as int));
            assert(pv.take(i as int + 1).last() == pv[i as int]);
            assert(r.deep_view() =~= register_join_view(
                pv.take(i as int + 1),
                outputs.deep_view(),
                kind,
            ));
        }
        i += 1;
    }
    proof {
        assert(pv.take(players@.len() as int) =~= pv);
    }
    r
}

/// Whether some registered player carries the given remote player id.
pub open spec fn has_player_id(players: Seq<RegisteredPlayerView>, player_id: u64) -> bool {
    exists|i: int| 0 <= i < players.len() && (#[trigger] players[i]).player.player_id == player_id
}

/// The ids of all known sessions, in registry order.
pub fn session_ids(sessions: &Vec<ApiSession>) -> (r: Vec<u64>)
    ensures
        r@.len() == sessions@.len(),
        forall|i: int|
            0 <= i < r@.len() ==> r@[i] == (#[trigger] sessions.deep_view()[i]).session_id,
{
    let mut r: Vec<u64> = Vec::new();
    let mut i: usize = 0;
    while i < sessions.len()
        invariant
            i <= sessions.len(),
            r@.len() == i,
            forall|j: int| 0 <= j < i ==> r@[j] == (#[trigger] sessions.deep_view()[j]).session_id,
        decreases sessions.len() - i,
    {
        r.push(sessions[i].session_id);
        i += 1;
    }
    r
}

/// Append the freshly registered players whose remote id is not yet
/// known, keeping the existing entries and their order (registry
/// self-healing).  Deduplication is against the registry as it was
/// before the call, as a snapshot registration always is.
pub fn add_players_to_current_players(ctx: &mut AppContext, players: Vec<RegisteredPlayer>)
    ensures
        final(ctx).current_players.deep_view() == old(ctx).current_players.deep_view()
            + players.deep_view().filter(
            |p: RegisteredPlayerView|
                !has_player_id(old(ctx).current_players.deep_view(), p.player.player_id),
        ),
        final(ctx).connection_id == old(ctx).connection_id,
        final(ctx).api_url == old(ctx).api_url,
        final(ctx).client_id == old(ctx).client_id,
        final(ctx).signature_token == old(ctx).signature_token,
        final(ctx).api_token == old(ctx).api_token,
        final(ctx).current_sessions == old(ctx).current_sessions,
        final(ctx).current_connections == old(ctx).current_connections,
        final(ctx).current_audio_zones == old(ctx).current_audio_zones,
        final(ctx).available_outputs == old(ctx).available_outputs,
        final(ctx).active_players == old(ctx).active_players,
        final(ctx).pending_player_sessions == old(ctx).pending_player_sessions,
        final(ctx).playback_quality == old(ctx).playback_quality,
        final(ctx).ws_message_buffer == old(ctx).ws_message_buffer,
        final(ctx).ws_connected == old(ctx).ws_connected,
        final(ctx).next_player_id == old(ctx).next_player_id,
{
    let ghost existing = ctx.current_players.deep_view();
    let ghost incoming = players.deep_view();
    let ghost pred = (|p: RegisteredPlayerView| !has_player_id(existing, p.player.player_id));

    // Decide first, against the registry as it stands, which incoming
    // entries are new; a snapshot registration deduplicates against
    // the registry before the call, never against itself.
    let mut fresh: Vec<bool> = Vec::new();
    let mut i: usize = 0;
    while i < players.len()
        invariant
            i <= players.len(),
            incoming == players.deep_view(),
            existing == ctx.current_players.deep_view(),
            pred == (|p: RegisteredPlayerView| !has_player_id(existing, p.player.player_id)),
            fresh@.len() == i,
            forall|j: int| 0 <= j < i ==> fresh@[j] == pred(incoming[j]),
        decreases players.len() - i,
    {
        let known = match find_registered_by_player_id(
            &ctx.current_players,
            players[i].player.player_id,
        ) {
            Some(_) => true,
            None => false,
        };
        proof {
            lemma_find_registered_by_player_id_index(
                existing,
                incoming[i as int].player.player_id,
            );
        }
        fresh.push(!known);
        i += 1;
    }

    let mut i: usize = 0;
    while i < players.len()
        invariant
            i <= players.len(),
            incoming == players.deep_view(),
            fresh@.len() == players@.len(),
            forall|j: int| 0 <= j < players@.len() ==> fresh@[j] == pred(incoming[j]),
            pred == (|p: RegisteredPlayerView| !has_player_id(existing, p.player.player_id)),
            existing == old(ctx).current_players.deep_view(),
            ctx.current_players.deep_view() =~= existing + incoming.take(i as int).filter(pred),
            ctx.connection_id == old(ctx).connection_id,
            ctx.connection_name == old(ctx).connection_name,
            ctx.api_url == old(ctx).api_url,
            ctx.ws_url == old(ctx).ws_url,
            ctx.client_id == old(ctx).client_id,
            ctx.signature_token == old(ctx).signature_token,
            ctx.api_token == old(ctx).api_token,
            ctx.current_playback_target == old(ctx).current_playback_target,
            ctx.current_session_id == old(ctx).current_session_id,
            ctx.current_sessions == old(ctx).current_sessions,
            ctx.current_connections == old(ctx).current_connections,
            ctx.current_audio_zones == old(ctx).current_audio_zones,
            ctx.available_outputs == old(ctx).available_outputs,
            ctx.active_players == old(ctx).active_players,
            ctx.pending_player_sessions == old(ctx).pending_player_sessions,
            ctx.playback_quality == old(ctx).playback_quality,
            ctx.ws_message_buffer == old(ctx).ws_message_buffer,
            ctx.ws_connected == old(ctx).ws_connected,
            ctx.next_player_id == old(ctx).next_player_id,
        decreases players.len() - i,
    {
        let ghost before = ctx.current_players.deep_view();
        if fresh[i] {
            ctx.current_players.push(players[i].clone());
            proof {
                assert(ctx.current_players.deep_view() =~= before.push(incoming[i as int]));
            }
        }
        proof {
            reveal_with_fuel(Seq::filter, 2);
            assert(incoming.take(i as int + 1).drop_last() =~= incoming.take(i as int));
            assert(incoming.take(i as int + 1).last() == incoming[i as int]);
            if pred(incoming[i as int]) {
                assert(incoming.take(i as int + 1).filter(pred) == incoming.take(
                    i as int,
                ).filter(pred).push(incoming[i as int]));
                assert(existing + incoming.take(i as int).filter(pred).push(incoming[i as int])
                    =~= (existing + incoming.take(i as int).filter(pred)).push(
                    incoming[i as int],
                ));
            } else {
                assert(incoming.take(i as int + 1).filter(pred) == incoming.take(
                    i as int,
                ).filter(pred));
            }
            assert(ctx.current_players.deep_view() =~= existing + incoming.take(
                i as int + 1,
            ).filter(pred));
        }
        i += 1;
    }
    proof {
        assert(incoming.take(players@.len() as int) =~= incoming);
    }
}

/// A successful id lookup means some entry carries the id; a failed
/// one means none does.
proof fn lemma_find_registered_by_player_id_index(s: Seq<RegisteredPlayerView>, player_id: u64)
    ensures
        find_registered_by_player_id_view(s, player_id) is Some ==> has_player_id(s, player_id),
        find_registered_by_player_id_view(s, player_id) is None ==> !has_player_id(s, player_id),
    decreases s.len(),
{
    if s.len() > 0 {
        if s[0].player.player_id == player_id {
        } else {
            lemma_find_registered_by_player_id_index(s.skip(1), player_id);
            assert forall|i: int|
                0 <= i < s.len() && (#[trigger] s[i]).player.player_id
                    == player_id implies has_player_id(s.skip(1), player_id) by {
                assert(s.skip(1)[i - 1] == s[i]);
            }
            if has_player_id(s.skip(1), player_id) {
                let i = choose|i: int|
                    0 <= i < s.skip(1).len() && (#[trigger] s.skip(1)[i]).player.player_id
                        == player_id;
                assert(s[i + 1] == s.skip(1)[i]);
            }
        }
    }
}

} // verus!
