//! The application context: one explicit value owning every registry
//! the client keeps — credentials and connection identity, the last
//! known sessions, zones, connections and players, the active player
//! bindings, the bindings still waiting for session data, the global
//! quality setting, and the buffer of commands composed while the
//! transport was down.
//!
//! All mutation goes through the verified operations of this crate;
//! the host program holds the context behind its own lock and never
//! touches the fields across a suspension point.

use vstd::prelude::*;

use crate::models::ApiAudioZoneWithSession;
use crate::models::ApiConnection;
use crate::models::ApiPlayer;
use crate::models::ApiPlayerView;
use crate::models::ApiSession;
use crate::models::AudioOutput;
use crate::models::AudioOutputView;
use crate::models::PlaybackQuality;
use crate::models::PlaybackTarget;
use crate::models::UpdateState;
use crate::player::PlayerBinding;
use crate::player::PlayerKind;
use crate::protocol::OutboundCommand;

verus! {

/// A player registered with the remote authority, joined with the
/// local output device and backend kind it renders through.
#[derive(Debug)]
pub struct RegisteredPlayer {
    pub player: ApiPlayer,
    pub kind: PlayerKind,
    pub output: AudioOutput,
}

/// Mathematical image of a `RegisteredPlayer`.
#[verifier::ext_equal]
pub struct RegisteredPlayerView {
    pub player: ApiPlayerView,
    pub kind: PlayerKind,
    pub output: AudioOutputView,
}

impl DeepView for RegisteredPlayer {
    type V = RegisteredPlayerView;

    open spec fn deep_view(&self) -> RegisteredPlayerView {
        RegisteredPlayerView {
            player: self.player.deep_view(),
            kind: self.kind,
            output: self.output.deep_view(),
        }
    }
}

impl Clone for RegisteredPlayer {
    fn clone(&self) -> (res: Self)
        ensures
            res.deep_view() == self.deep_view(),
    {
        RegisteredPlayer {
            player: self.player.clone(),
            kind: self.kind,
            output: self.output.clone(),
        }
    }
}

/// A player that was created before its session snapshot was known.
/// The entry exists exactly until a session list containing
/// `session_id` arrives and the player is initialized from it.
#[derive(Debug, Clone, Copy, PartialEq, Eq, Structural)]
pub struct PendingPlayerSession {
    pub player_id: u64,
    pub session_id: u64,
}

/// The single explicit owner of all client-side registries.
#[derive(Debug)]
pub struct AppContext {
    pub connection_id: Option<String>,
    pub connection_name: Option<String>,
    pub api_url: Option<String>,
    pub ws_url: Option<String>,
    pub client_id: Option<String>,
    pub signature_token: Option<String>,
    pub api_token: Option<String>,
    pub current_playback_target: Option<PlaybackTarget>,
    pub current_session_id: Option<u64>,
    pub current_sessions: Vec<ApiSession>,
    pub current_connections: Vec<ApiConnection>,
    pub current_audio_zones: Vec<ApiAudioZoneWithSession>,
    pub current_players: Vec<RegisteredPlayer>,
    pub available_outputs: Vec<AudioOutput>,
    pub active_players: Vec<PlayerBinding>,
    pub pending_player_sessions: Vec<PendingPlayerSession>,
    pub playback_quality: Option<PlaybackQuality>,
    pub ws_message_buffer: Vec<OutboundCommand>,
    pub ws_connected: bool,
    pub next_player_id: u64,
}

/// Well-formedness of the pending-binding registry: entries name
/// distinct players, and every named player id was allocated.
pub open spec fn pending_wf(
    pending: Seq<PendingPlayerSession>,
    next_player_id: u64,
) -> bool {
    &&& forall|i: int, j: int|
        0 <= i < j < pending.len() ==> (#[trigger] pending[i]).player_id != (
        #[trigger] pending[j]).player_id
    &&& forall|i: int| 0 <= i < pending.len() ==> (#[trigger] pending[i]).player_id < next_player_id
}

/// The pending registry only ever grows at the end, and every entry
/// appended after a point names a player allocated at or after that
/// point's id floor.
pub open spec fn pending_extended(
    old_pending: Seq<PendingPlayerSession>,
    new_pending: Seq<PendingPlayerSession>,
    floor: u64,
) -> bool {
    &&& old_pending.is_prefix_of(new_pending)
    &&& forall|i: int|
        old_pending.len() <= i < new_pending.len() ==> (#[trigger] new_pending[i]).player_id
            >= floor
}

/// A registry extends itself trivially.
pub proof fn lemma_pending_extended_refl(pending: Seq<PendingPlayerSession>, floor: u64)
    ensures
        pending_extended(pending, pending, floor),
{
    assert(pending =~= pending.take(pending.len() as int));
}

/// Extension steps compose.
pub proof fn lemma_pending_extended_trans(
    a: Seq<PendingPlayerSession>,
    b: Seq<PendingPlayerSession>,
    c: Seq<PendingPlayerSession>,
    floor1: u64,
    floor2: u64,
)
    requires
        pending_extended(a, b, floor1),
        pending_extended(b, c, floor2),
        floor2 >= floor1,
    ensures
        pending_extended(a, c, floor1),
{
    assert forall|i: int| 0 <= i < a.len() implies a[i] == c[i] by {
        assert(a[i] == b[i]);
        assert(b[i] == c[i]);
    }
    assert(a.is_prefix_of(c)) by {
        assert(a =~= c.take(a.len() as int));
    }
    assert forall|i: int| a.len() <= i < c.len() implies (#[trigger] c[i]).player_id
        >= floor1 by {
        if i < b.len() {
            assert(c[i] == b[i]);
        }
    }
}

impl AppContext {
    /// An empty context: no credentials, no registries, transport
    /// down, nothing buffered.
    pub fn new() -> (r: AppContext)
        ensures
            r.connection_id is None,
            r.connection_name is None,
            r.api_url is None,
            r.ws_url is None,
            r.client_id is None,
            r.signature_token is None,
            r.api_token is None,
            r.current_playback_target is None,
            r.current_session_id is None,
            r.current_sessions@.len() == 0,
            r.current_connections@.len() == 0,
            r.current_audio_zones@.len() == 0,
            r.current_players@.len() == 0,
            r.available_outputs@.len() == 0,
            r.active_players@.len() == 0,
            r.pending_player_sessions@.len() == 0,
            r.playback_quality is None,
            r.ws_message_buffer@.len() == 0,
            !r.ws_connected,
            r.next_player_id == 1,
            pending_wf(r.pending_player_sessions@, r.next_player_id),
    {
        AppContext {
            connection_id: None,
            connection_name: None,
            api_url: None,
            ws_url: None,
            client_id: None,
            signature_token: None,
            api_token: None,
            current_playback_target: None,
            current_session_id: None,
            current_sessions: Vec::new(),
            current_connections: Vec::new(),
            current_audio_zones: Vec::new(),
            current_players: Vec::new(),
            available_outputs: Vec::new(),
            active_players: Vec::new(),
            pending_player_sessions: Vec::new(),
            playback_quality: None,
            ws_message_buffer: Vec::new(),
            ws_connected: false,
            next_player_id: 1,
        }
    }
}

/// The state the boundary pushes down when the user edits the
/// connection settings.
#[derive(Debug, Default)]
pub struct AppState {
    pub connection_id: Option<String>,
    pub connection_name: Option<String>,
    pub api_url: Option<String>,
    pub client_id: Option<String>,
    pub signature_token: Option<String>,
    pub api_token: Option<String>,
    pub playback_target: Option<PlaybackTarget>,
    pub current_session_id: Option<u64>,
}

/// Equality of optional strings, decided over their contents.
pub fn opt_str_eq(a: &Option<String>, b: &Option<String>) -> (r: bool)
    ensures
        r == (a.deep_view() == b.deep_view()),
{
    match (a, b) {
        (Some(x), Some(y)) => *x == *y,
        (None, None) => true,
        _ => false,
    }
}

/// What installing boundary-pushed state decided: whether any
/// connection detail changed — only then must the caller re-run the
/// refresh plan — and the playlist mirror to push to the plugin
/// surface when a session was selected and is known.
pub struct StateChange {
    pub updated_connection_details: bool,
    pub playlist_push: Option<UpdateState>,
}

/// Install boundary-pushed state into the context.  Reports whether
/// any connection detail (connection id, client id, signature token,
/// API token, API origin) actually changed, and carries the plugin
/// playlist mirror exactly when a session id was pushed and the
/// registry knows that session under a configured origin.
pub fn set_state(ctx: &mut AppContext, state: AppState) -> (r: StateChange)
    ensures
        final(ctx).connection_id.deep_view() == state.connection_id.deep_view(),
        final(ctx).connection_name.deep_view() == state.connection_name.deep_view(),
        final(ctx).client_id.deep_view() == state.client_id.deep_view(),
        final(ctx).signature_token.deep_view() == state.signature_token.deep_view(),
        final(ctx).api_token.deep_view() == state.api_token.deep_view(),
        final(ctx).api_url.deep_view() == state.api_url.deep_view(),
        final(ctx).current_playback_target == state.playback_target,
        final(ctx).current_session_id == state.current_session_id,
        state.current_session_id is None ==> r.playlist_push is None,
        state.current_session_id matches Some(sid) ==> {
            &&& (r.playlist_push is Some <==> (final(ctx).api_url is Some
                && crate::registry::find_session_view(
                final(ctx).current_sessions.deep_view(),
                sid,
            ) is Some))
            &&& (r.playlist_push matches Some(u)
                ==> crate::registry::find_session_view(
                final(ctx).current_sessions.deep_view(),
                sid,
            ) matches Some(sess) && {
                &&& u.playing == Some(sess.playing)
                &&& u.position == sess.position
                &&& u.seek == sess.seek
                &&& u.volume == sess.volume
                &&& u.playlist is Some
            })
        },
        r.updated_connection_details == {
            ||| old(ctx).connection_id.deep_view() != state.connection_id.deep_view()
            ||| old(ctx).client_id.deep_view() != state.client_id.deep_view()
            ||| old(ctx).signature_token.deep_view() != state.signature_token.deep_view()
            ||| old(ctx).api_token.deep_view() != state.api_token.deep_view()
            ||| old(ctx).api_url.deep_view() != state.api_url.deep_view()
        },
        final(ctx).ws_url == old(ctx).ws_url,
        final(ctx).current_sessions == old(ctx).current_sessions,
        final(ctx).current_connections == old(ctx).current_connections,
        final(ctx).current_audio_zones == old(ctx).current_audio_zones,
        final(ctx).current_players == old(ctx).current_players,
        final(ctx).available_outputs == old(ctx).available_outputs,
        final(ctx).active_players == old(ctx).active_players,
        final(ctx).pending_player_sessions == old(ctx).pending_player_sessions,
        final(ctx).playback_quality == old(ctx).playback_quality,
        final(ctx).ws_message_buffer == old(ctx).ws_message_buffer,
        final(ctx).ws_connected == old(ctx).ws_connected,
        final(ctx).next_player_id == old(ctx).next_player_id,
{
    let mut updated: bool = false;

    if !opt_str_eq(&ctx.connection_id, &state.connection_id) {
        updated = true;
    }
    ctx.connection_id = state.connection_id;

    ctx.connection_name = state.connection_name;

    if !opt_str_eq(&ctx.client_id, &state.client_id) {
        updated = true;
    }
    ctx.client_id = state.client_id;

    if !opt_str_eq(&ctx.signature_token, &state.signature_token) {
        updated = true;
    }
    ctx.signature_token = state.signature_token;

    if !opt_str_eq(&ctx.api_token, &state.api_token) {
        updated = true;
    }
    ctx.api_token = state.api_token;

    if !opt_str_eq(&ctx.api_url, &state.api_url) {
        updated = true;
    }
    ctx.api_url = state.api_url;

    ctx.current_playback_target = state.playback_target;
    ctx.current_session_id = state.current_session_id;

    let playlist_push = if ctx.current_session_id.is_some() {
        crate::convert::update_playlist(ctx)
    } else {
        None
    };

    StateChange { updated_connection_details: updated, playlist_push }
}

/// A step of the refresh plan run after connection details change.
#[derive(Debug, Clone, Copy, PartialEq, Eq, Structural)]
pub enum StateRefreshStep {
    /// Scan local audio outputs and register them as players.
    ScanOutputs,
    /// Discover remote renderers and register them as players.
    InitUpnpPlayers,
    /// Re-create every active player against the new credentials,
    /// carrying live playback over.
    ReinitPlayers,
    /// Fetch the zone-with-session snapshot.
    FetchAudioZones,
    /// Tear down and re-establish the push transport.
    InitWsConnection,
}

/// The refresh plan: with a known connection identity the registries
/// are refreshed in dependency order — players must exist again
/// before zones are re-joined — and the transport is re-established
/// in every case.
pub fn update_state_plan(has_connection_id: bool) -> (r: Vec<StateRefreshStep>)
    ensures
        has_connection_id ==> r@ == seq![
            StateRefreshStep::ScanOutputs,
            StateRefreshStep::InitUpnpPlayers,
            StateRefreshStep::ReinitPlayers,
            StateRefreshStep::FetchAudioZones,
            StateRefreshStep::InitWsConnection,
        ],
        !has_connection_id ==> r@ == seq![StateRefreshStep::InitWsConnection],
        r@.len() >= 1 && r@.last() == StateRefreshStep::InitWsConnection,
{
    let mut steps: Vec<StateRefreshStep> = Vec::new();
    if has_connection_id {
        steps.push(StateRefreshStep::ScanOutputs);
        steps.push(StateRefreshStep::InitUpnpPlayers);
        steps.push(StateRefreshStep::ReinitPlayers);
        steps.push(StateRefreshStep::FetchAudioZones);
    }
    steps.push(StateRefreshStep::InitWsConnection);
    proof {
        if has_connection_id {
            assert(steps@ =~= seq![
                StateRefreshStep::ScanOutputs,
                StateRefreshStep::InitUpnpPlayers,
                StateRefreshStep::ReinitPlayers,
                StateRefreshStep::FetchAudioZones,
                StateRefreshStep::InitWsConnection,
            ]);
        } else {
            assert(steps@ =~= seq![StateRefreshStep::InitWsConnection]);
        }
    }
    steps
}

/// The host runtime events the embedded service observes.
#[derive(Debug, Clone, Copy, PartialEq, Eq, Structural)]
pub enum RunEventKind {
    Exit,
    ExitRequested,
    WindowEvent,
    Ready,
    Resumed,
    MainEventsCleared,
    Other,
}

/// Whether a runtime event asks the embedded server to shut down:
/// only an exit request does; every other event is ignored.
pub fn event_requests_shutdown(event: RunEventKind) -> (r: bool)
    ensures
        r <==> event is ExitRequested,
{
    match event {
        RunEventKind::ExitRequested => true,
        _ => false,
    }
}

} // verus!
