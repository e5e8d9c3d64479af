//! Player lifecycle: assembling the remote playback source from the
//! configured credentials, creating a player for a target and session,
//! and re-creating every active player after the credentials change.
//!
//! Creating a player never contacts the server: if the session is
//! already known the player catches up from the registry snapshot,
//! otherwise the binding is recorded as pending until a session list
//! carrying its session arrives.

use vstd::prelude::*;

use crate::context::AppContext;
use crate::context::PendingPlayerSession;
use crate::context::pending_wf;
use crate::errors::TauriPlayerError;
use crate::models::ApiUpdateSession;
use crate::models::ApiUpdateSessionView;
use crate::models::AudioOutput;
use crate::models::PlaybackQuality;
use crate::models::PlaybackTarget;
use crate::models::TargetView;
use crate::models::clone_opt_string;
use crate::player::PlayerKind;
use crate::player::PlayerState;
use crate::player::PlayerStateView;
use crate::player::apply_update;
use crate::player::apply_update_view;
use crate::player::init_from_session;
use crate::player::init_from_session_view;
use crate::protocol::Effect;
use crate::registry::find_session;
use crate::registry::find_session_view;

verus! {

/// Where a freshly created player streams from: the API origin, with
/// a bearer authorization header when an API token is configured and
/// the `clientId`/`signature` query parameters when both are
/// configured.
#[derive(Debug)]
pub struct RemotePlayerSource {
    pub host: String,
    pub auth: Option<String>,
    pub client_id: Option<String>,
    pub signature: Option<String>,
}

/// Mathematical image of a `RemotePlayerSource`.
#[verifier::ext_equal]
pub struct RemotePlayerSourceView {
    pub host: Seq<char>,
    pub auth: Option<Seq<char>>,
    pub client_id: Option<Seq<char>>,
    pub signature: Option<Seq<char>>,
}

impl DeepView for RemotePlayerSource {
    type V = RemotePlayerSourceView;

    open spec fn deep_view(&self) -> RemotePlayerSourceView {
        RemotePlayerSourceView {
            host: self.host@,
            auth: self.auth.deep_view(),
            client_id: self.client_id.deep_view(),
            signature: self.signature.deep_view(),
        }
    }
}

/// Assemble the remote playback source from the configured
/// credentials.  Fails fast, without retrying, exactly when no API
/// origin is configured.  The query parameters are carried only when
/// both the client id and the signature token are present.
pub fn player_source(ctx: &AppContext) -> (r: Result<RemotePlayerSource, TauriPlayerError>)
    ensures
        r is Err <==> ctx.api_url is None,
        r matches Ok(src) ==> {
            &&& Some(src.host@) == ctx.api_url.deep_view()
            &&& src.auth.deep_view() == ctx.api_token.deep_view()
            &&& (ctx.client_id is Some && ctx.signature_token is Some) ==> {
                &&& src.client_id.deep_view() == ctx.client_id.deep_view()
                &&& src.signature.deep_view() == ctx.signature_token.deep_view()
            }
            &&& !(ctx.client_id is Some && ctx.signature_token is Some) ==> {
                &&& src.client_id is None
                &&& src.signature is None
            }
        },
        r matches Err(e) ==> e matches TauriPlayerError::Unknown(m) && m@ == "API_URL not set"@,
{
    let host = match &ctx.api_url {
        Some(url) => url.clone(),
        None => {
            return Err(TauriPlayerError::Unknown(String::from_str("API_URL not set")));
        },
    };
    let auth = clone_opt_string(&ctx.api_token);
    let (client_id, signature) = match (&ctx.client_id, &ctx.signature_token) {
        (Some(id), Some(tok)) => (Some(id.clone()), Some(tok.clone())),
        _ => (None, None),
    };
    Ok(RemotePlayerSource { host, auth, client_id, signature })
}

/// The remote library a catalog lookup is served from: every catalog
/// resolves against the one configured host.
#[derive(Debug)]
pub struct SourceToRemoteLibrary {
    pub host: String,
}

impl SourceToRemoteLibrary {
    /// A resolver for the given API origin.
    pub fn with_host(host: String) -> (r: SourceToRemoteLibrary)
        ensures
            r.host@ == host@,
    {
        SourceToRemoteLibrary { host }
    }

    /// The host every catalog resolves to, whichever catalog is asked
    /// for.
    pub fn host_for(&self, _source: crate::models::ApiSource) -> (r: &String)
        ensures
            r@ == self.host@,
    {
        &self.host
    }
}

/// The observable state a player is born with, before any catch-up.
pub open spec fn base_player_view(id: u64) -> PlayerStateView {
    PlayerStateView {
        id,
        playing: false,
        position: 0u16,
        seek: 0u64,
        volume: 1000u64,
        tracks: Seq::<crate::models::ApiTrackView>::empty(),
        quality: None,
        session_id: None,
        playback_target: None,
    }
}

/// The baseline quiescent delta applied to a freshly created player:
/// it forces no transport change, only attaches the player to its
/// session and target and carries the global quality setting.
pub open spec fn quiescent_update_view(
    session_id: u64,
    target: TargetView,
    quality: Option<PlaybackQuality>,
) -> ApiUpdateSessionView {
    ApiUpdateSessionView {
        session_id,
        playback_target: target,
        play: None,
        stop: None,
        name: None,
        active: None,
        playing: None,
        position: None,
        seek: None,
        volume: None,
        playlist: None,
        quality,
    }
}

/// The observable state a player created for `session_id` ends in:
/// born empty, caught up from the registry's session snapshot when
/// one is known, then quiesced onto its session and target.
pub open spec fn created_player_view(
    id: u64,
    session_id: u64,
    target: TargetView,
    sessions: Seq<crate::models::ApiSessionView>,
    quality: Option<PlaybackQuality>,
) -> PlayerStateView {
    let base = base_player_view(id);
    let inited = match find_session_view(sessions, session_id) {
        Some(s) => init_from_session_view(base, s),
        None => base,
    };
    apply_update_view(inited, quiescent_update_view(session_id, target, quality))
}

/// Create a player for a playback target and session.
///
/// Allocates a fresh player id, initializes the player from the
/// session snapshot when the registry knows the session — recording a
/// pending binding otherwise — and applies the baseline quiescent
/// delta.  Returns the player model and the effects the host must
/// perform, in order: create the real player, initialize it from the
/// session if one was known, then apply the quiescent delta.
pub fn new_player(
    ctx: &mut AppContext,
    session_id: u64,
    playback_target: &PlaybackTarget,
    output: &AudioOutput,
    kind: PlayerKind,
) -> (r: Result<(PlayerState, Vec<Effect>), TauriPlayerError>)
    requires
        old(ctx).next_player_id < u64::MAX,
        pending_wf(old(ctx).pending_player_sessions@, old(ctx).next_player_id),
    ensures
        r is Err <==> old(ctx).api_url is None,
        r is Err ==> *final(ctx) == *old(ctx),
        r matches Err(e) ==> e matches TauriPlayerError::Unknown(m) && m@ == "API_URL not set"@,
        r matches Ok((player, effects)) ==> {
            &&& player.deep_view() == created_player_view(
                old(ctx).next_player_id,
                session_id,
                playback_target.deep_view(),
                old(ctx).current_sessions.deep_view(),
                old(ctx).playback_quality,
            )
            &&& player.id == old(ctx).next_player_id
            &&& final(ctx).next_player_id == old(ctx).next_player_id + 1
            &&& (find_session_view(old(ctx).current_sessions.deep_view(), session_id) is Some
                ==> {
                &&& final(ctx).pending_player_sessions == old(ctx).pending_player_sessions
                &&& effects.deep_view().len() == 3
                &&& effects.deep_view()[1] == (crate::protocol::EffectView::InitPlayerFromSession {
                    player_id: old(ctx).next_player_id,
                    session_id,
                })
            })
            &&& (find_session_view(old(ctx).current_sessions.deep_view(), session_id) is None
                ==> {
                &&& final(ctx).pending_player_sessions@ == old(
                    ctx,
                ).pending_player_sessions@.push(
                    PendingPlayerSession {
                        player_id: old(ctx).next_player_id,
                        session_id,
                    },
                )
                &&& effects.deep_view().len() == 2
            })
            &&& effects.deep_view()[0] == (crate::protocol::EffectView::CreatePlayer {
                player_id: old(ctx).next_player_id,
                kind,
                output_id: output.id@,
                target: playback_target.deep_view(),
                session_id,
            })
            &&& effects.deep_view().last() == (crate::protocol::EffectView::UpdatePlayer {
                player_id: old(ctx).next_player_id,
                update: quiescent_update_view(
                    session_id,
                    playback_target.deep_view(),
                    old(ctx).playback_quality,
                ),
            })
            &&& pending_wf(final(ctx).pending_player_sessions@, final(ctx).next_player_id)
            &&& crate::context::pending_extended(
                old(ctx).pending_player_sessions@,
                final(ctx).pending_player_sessions@,
                old(ctx).next_player_id,
            )
            &&& crate::protocol::sent_commands(effects.deep_view())
                == Seq::<crate::protocol::OutboundCommandView>::empty()
        },
        final(ctx).api_url == old(ctx).api_url,
        final(ctx).connection_id == old(ctx).connection_id,
        final(ctx).connection_name == old(ctx).connection_name,
        final(ctx).ws_url == old(ctx).ws_url,
        final(ctx).client_id == old(ctx).client_id,
        final(ctx).signature_token == old(ctx).signature_token,
        final(ctx).api_token == old(ctx).api_token,
        final(ctx).current_playback_target == old(ctx).current_playback_target,
        final(ctx).current_session_id == old(ctx).current_session_id,
        final(ctx).current_sessions == old(ctx).current_sessions,
        final(ctx).current_connections == old(ctx).current_connections,
        final(ctx).current_audio_zones == old(ctx).current_audio_zones,
        final(ctx).current_players == old(ctx).current_players,
        final(ctx).available_outputs == old(ctx).available_outputs,
        final(ctx).active_players == old(ctx).active_players,
        final(ctx).playback_quality == old(ctx).playback_quality,
        final(ctx).ws_message_buffer == old(ctx).ws_message_buffer,
        final(ctx).ws_connected == old(ctx).ws_connected,
{
    // Fail fast on missing configuration, before any state changes;
    // the host assembles the same source again when it constructs the
    // real player.
    match player_source(ctx) {
        Ok(_) => {},
        Err(e) => {
            return Err(e);
        },
    }

    let id = ctx.next_player_id;
    ctx.next_player_id = ctx.next_player_id + 1;

    let mut player = PlayerState {
        id,
        playing: false,
        position: 0,
        seek: 0,
        volume: 1000,
        tracks: Vec::new(),
        quality: None,
        session_id: None,
        playback_target: None,
    };
    proof {
        assert(player.deep_view() =~= base_player_view(id));
        assert(player.deep_view().tracks =~= Seq::<crate::models::ApiTrackView>::empty());
    }

    let mut effects: Vec<Effect> = Vec::new();
    proof {
        assert(effects.deep_view() =~= Seq::<crate::protocol::EffectView>::empty());
    }
    crate::protocol::push_player_effect(
        &mut effects,
        Effect::CreatePlayer {
            player_id: id,
            kind,
            output_id: output.id.clone(),
            target: playback_target.clone(),
            session_id,
        },
    );

    let mut found = false;
    match find_session(&ctx.current_sessions, session_id) {
        Some(session) => {
            init_from_session(&mut player, session);
            found = true;
        },
        None => {},
    }
    if found {
        crate::protocol::push_player_effect(
            &mut effects,
            Effect::InitPlayerFromSession { player_id: id, session_id },
        );
    } else {
        ctx.pending_player_sessions.push(PendingPlayerSession { player_id: id, session_id });
    }

    let quiescent = ApiUpdateSession {
        session_id,
        playback_target: playback_target.clone(),
        play: None,
        stop: None,
        name: None,
        active: None,
        playing: None,
        position: None,
        seek: None,
        volume: None,
        playlist: None,
        quality: ctx.playback_quality,
    };
    apply_update(&mut player, &quiescent);
    crate::protocol::push_player_effect(
        &mut effects,
        Effect::UpdatePlayer { player_id: id, update: quiescent },
    );

    Ok((player, effects))
}

/// The binding registry after a reinitialization that stopped at
/// `cut`: entries before it re-created with live playback carried
/// over, entries from it on untouched, and every entry keeping its
/// target, session, backend kind and output.
pub open spec fn reinit_stopped_at(
    now: Seq<crate::player::PlayerBindingView>,
    before: Seq<crate::player::PlayerBindingView>,
    cut: int,
    first_id: u64,
    sessions: Seq<crate::models::ApiSessionView>,
    quality: Option<PlaybackQuality>,
) -> bool {
    &&& 0 <= cut <= before.len()
    &&& now.len() == before.len()
    &&& forall|i: int| cut <= i < before.len() ==> #[trigger] now[i] == before[i]
    &&& forall|i: int|
        0 <= i < cut ==> {
            let ob = #[trigger] before[i];
            let nb = now[i];
            &&& nb.playback_target == ob.playback_target
            &&& nb.session_id == ob.session_id
            &&& nb.player_type == ob.player_type
            &&& nb.output == ob.output
            &&& nb.player == crate::player::transplant_view(
                created_player_view(
                    (first_id + i) as u64,
                    ob.session_id,
                    ob.playback_target,
                    sessions,
                    quality,
                ),
                ob.player,
            )
        }
}

/// Re-create every active player against the current credentials,
/// carrying live playback over so the change is not audible.
///
/// Each binding keeps its target, session, backend kind and output;
/// its player is created anew — catching up from the session registry
/// as any new player does — and then inherits the previous player's
/// live playback state when it had any.
pub fn reinit_players(ctx: &mut AppContext) -> (r: Result<Vec<Effect>, TauriPlayerError>)
    requires
        old(ctx).next_player_id + old(ctx).active_players@.len() <= u64::MAX,
        pending_wf(old(ctx).pending_player_sessions@, old(ctx).next_player_id),
    ensures
        r is Err ==> old(ctx).api_url is None,
        old(ctx).api_url is Some ==> r is Ok,
        r is Ok ==> {
            &&& final(ctx).active_players.deep_view().len() == old(
                ctx,
            ).active_players.deep_view().len()
            &&& forall|i: int|
                0 <= i < old(ctx).active_players.deep_view().len() ==> {
                    let ob = #[trigger] old(ctx).active_players.deep_view()[i];
                    let nb = final(ctx).active_players.deep_view()[i];
                    &&& nb.playback_target == ob.playback_target
                    &&& nb.session_id == ob.session_id
                    &&& nb.player_type == ob.player_type
                    &&& nb.output == ob.output
                    &&& nb.player == crate::player::transplant_view(
                        created_player_view(
                            (old(ctx).next_player_id + i) as u64,
                            ob.session_id,
                            ob.playback_target,
                            old(ctx).current_sessions.deep_view(),
                            old(ctx).playback_quality,
                        ),
                        ob.player,
                    )
                }
        },
        r is Err ==> exists|cut: int|
            #[trigger] reinit_stopped_at(
                final(ctx).active_players.deep_view(),
                old(ctx).active_players.deep_view(),
                cut,
                old(ctx).next_player_id,
                old(ctx).current_sessions.deep_view(),
                old(ctx).playback_quality,
            ),
        pending_wf(final(ctx).pending_player_sessions@, final(ctx).next_player_id),
        crate::context::pending_extended(
            old(ctx).pending_player_sessions@,
            final(ctx).pending_player_sessions@,
            old(ctx).next_player_id,
        ),
        final(ctx).connection_id == old(ctx).connection_id,
        final(ctx).api_url == old(ctx).api_url,
        final(ctx).current_sessions == old(ctx).current_sessions,
        final(ctx).current_audio_zones == old(ctx).current_audio_zones,
        final(ctx).current_players == old(ctx).current_players,
        final(ctx).available_outputs == old(ctx).available_outputs,
        final(ctx).playback_quality == old(ctx).playback_quality,
        final(ctx).ws_message_buffer == old(ctx).ws_message_buffer,
        final(ctx).ws_connected == old(ctx).ws_connected,
{
    proof {
        crate::context::lemma_pending_extended_refl(
            ctx.pending_player_sessions@,
            ctx.next_player_id,
        );
    }
    let mut effects: Vec<Effect> = Vec::new();
    let ghost pre = ctx.active_players.deep_view();
    let mut i: usize = 0;
    while i < ctx.active_players.len()
        invariant
            i <= ctx.active_players.len(),
            ctx.active_players@.len() == old(ctx).active_players@.len(),
            pre == old(ctx).active_players.deep_view(),
            ctx.next_player_id == old(ctx).next_player_id + i,
            ctx.next_player_id + (ctx.active_players@.len() - i) <= u64::MAX,
            pending_wf(ctx.pending_player_sessions@, ctx.next_player_id),
            crate::context::pending_extended(
                old(ctx).pending_player_sessions@,
                ctx.pending_player_sessions@,
                old(ctx).next_player_id,
            ),
            forall|j: int|
                i <= j < pre.len() ==> #[trigger] ctx.active_players.deep_view()[j] == pre[j],
            forall|j: int|
                0 <= j < i ==> {
                    let ob = #[trigger] pre[j];
                    let nb = ctx.active_players.deep_view()[j];
                    &&& nb.playback_target == ob.playback_target
                    &&& nb.session_id == ob.session_id
                    &&& nb.player_type == ob.player_type
                    &&& nb.output == ob.output
                    &&& nb.player == crate::player::transplant_view(
                        created_player_view(
                            (old(ctx).next_player_id + j) as u64,
                            ob.session_id,
                            ob.playback_target,
                            old(ctx).current_sessions.deep_view(),
                            old(ctx).playback_quality,
                        ),
                        ob.player,
                    )
                },
            ctx.connection_id == old(ctx).connection_id,
            ctx.api_url == old(ctx).api_url,
            ctx.current_sessions == old(ctx).current_sessions,
            ctx.current_audio_zones == old(ctx).current_audio_zones,
            ctx.current_players == old(ctx).current_players,
            ctx.available_outputs == old(ctx).available_outputs,
            ctx.playback_quality == old(ctx).playback_quality,
            ctx.ws_message_buffer == old(ctx).ws_message_buffer,
            ctx.ws_connected == old(ctx).ws_connected,
        decreases ctx.active_players.len() - i,
    {
        let ghost pend_iter = ctx.pending_player_sessions@;
        let ghost next_iter = ctx.next_player_id;
        let session_id = ctx.active_players[i].session_id;
        let target = ctx.active_players[i].playback_target.clone();
        let output = ctx.active_players[i].output.clone();
        let kind = ctx.active_players[i].player_type;
        let (mut player, fx) = match new_player(ctx, session_id, &target, &output, kind) {
            Ok(res) => res,
            Err(e) => {
                proof {
                    crate::context::lemma_pending_extended_trans(
                        old(ctx).pending_player_sessions@,
                        pend_iter,
                        ctx.pending_player_sessions@,
                        old(ctx).next_player_id,
                        next_iter,
                    );
                    // Entries past this index were never replaced.
                    assert(reinit_stopped_at(
                        ctx.active_players.deep_view(),
                        pre,
                        i as int,
                        old(ctx).next_player_id,
                        old(ctx).current_sessions.deep_view(),
                        old(ctx).playback_quality,
                    ));
                }
                return Err(e);
            },
        };
        crate::protocol::append_effects(&mut effects, fx);
        crate::player::transplant_playback(&mut player, &ctx.active_players[i].player);
        let binding = crate::player::PlayerBinding {
            playback_target: target,
            session_id,
            player,
            player_type: kind,
            output,
        };
        let ghost bview = binding.deep_view();
        let ghost braw = ctx.active_players@;
        vstd::pervasive::VecAdditionalExecFns::set(&mut ctx.active_players, i, binding);
        proof {
            crate::context::lemma_pending_extended_trans(
                old(ctx).pending_player_sessions@,
                pend_iter,
                ctx.pending_player_sessions@,
                old(ctx).next_player_id,
                next_iter,
            );
            let now = ctx.active_players.deep_view();
            assert(now[i as int] == bview);
            assert forall|j: int|
                0 <= j < pre.len() && j != i as int implies #[trigger] now[j] == braw[j].deep_view() by {
                assert(ctx.active_players@[j] == braw[j]);
                assert(now[j] == ctx.active_players@[j].deep_view());
            }
        }
        i += 1;
    }
    Ok(effects)
}

} // verus!
