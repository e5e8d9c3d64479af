//! Protocol envelopes and the effect language.
//!
//! `InboundMessage` is the tagged envelope the server pushes to the
//! client; `OutboundCommand` is what the client sends up.  The host
//! program decodes raw frames into `InboundMessage` (an unrecognized
//! tag becomes `Unknown`) and serializes `OutboundCommand` back out.
//!
//! The verified core never performs I/O: every function that must
//! reach the outside world returns a list of `Effect` values, in the
//! order the host must perform them.

use vstd::prelude::*;

use crate::models::ApiAudioZoneWithSession;
use crate::models::ApiAudioZoneWithSessionView;
use crate::models::ApiConnection;
use crate::models::ApiConnectionView;
use crate::models::ApiSession;
use crate::models::ApiSessionView;
use crate::models::ApiUpdateSession;
use crate::models::ApiUpdateSessionView;
use crate::models::PlaybackTarget;
use crate::models::TargetView;
use crate::models::UpdateState;
use crate::models::UpdateStateView;
use crate::models::WsConnectMessage;
use crate::models::WsConnectMessageView;
use crate::player::PlayerKind;

verus! {

/// The tagged envelope pushed by the server.  An unrecognized tag
/// decodes to `Unknown`, which the router ignores without failing.
#[derive(Debug)]
pub enum InboundMessage {
    ConnectionIdentity { connection_id: String },
    ConnectionList { connections: Vec<ApiConnection> },
    SessionList { sessions: Vec<ApiSession> },
    ZoneListWithSessions { zones: Vec<ApiAudioZoneWithSession> },
    SessionUpdated { update: ApiUpdateSession },
    SeekUpdated { session_id: u64, target: PlaybackTarget, seek: u64 },
    Unknown,
}

/// Mathematical image of an `InboundMessage`.
#[verifier::ext_equal]
pub enum InboundMessageView {
    ConnectionIdentity { connection_id: Seq<char> },
    ConnectionList { connections: Seq<ApiConnectionView> },
    SessionList { sessions: Seq<ApiSessionView> },
    ZoneListWithSessions { zones: Seq<ApiAudioZoneWithSessionView> },
    SessionUpdated { update: ApiUpdateSessionView },
    SeekUpdated { session_id: u64, target: TargetView, seek: u64 },
    Unknown,
}

impl DeepView for InboundMessage {
    type V = InboundMessageView;

    open spec fn deep_view(&self) -> InboundMessageView {
        match self {
            InboundMessage::ConnectionIdentity { connection_id } => (InboundMessageView::ConnectionIdentity {
                connection_id: connection_id@,
            }),
            InboundMessage::ConnectionList { connections } => (InboundMessageView::ConnectionList {
                connections: connections.deep_view(),
            }),
            InboundMessage::SessionList { sessions } => InboundMessageView::SessionList {
                sessions: sessions.deep_view(),
            },
            InboundMessage::ZoneListWithSessions { zones } => (InboundMessageView::ZoneListWithSessions {
                zones: zones.deep_view(),
            }),
            InboundMessage::SessionUpdated { update } => InboundMessageView::SessionUpdated {
                update: update.deep_view(),
            },
            InboundMessage::SeekUpdated { session_id, target, seek } => (InboundMessageView::SeekUpdated {
                session_id: *session_id,
                target: target.deep_view(),
                seek: *seek,
            }),
            InboundMessage::Unknown => InboundMessageView::Unknown,
        }
    }
}

/// The tagged envelope the client sends to the server.
#[derive(Debug)]
pub enum OutboundCommand {
    RequestConnectionIdentity,
    UpdateSession { update: ApiUpdateSession },
    SetSeek { session_id: u64, target: PlaybackTarget, seek: u64 },
}

/// Mathematical image of an `OutboundCommand`.
#[verifier::ext_equal]
pub enum OutboundCommandView {
    RequestConnectionIdentity,
    UpdateSession { update: ApiUpdateSessionView },
    SetSeek { session_id: u64, target: TargetView, seek: u64 },
}

impl DeepView for OutboundCommand {
    type V = OutboundCommandView;

    open spec fn deep_view(&self) -> OutboundCommandView {
        match self {
            OutboundCommand::RequestConnectionIdentity => (OutboundCommandView::RequestConnectionIdentity),
            OutboundCommand::UpdateSession { update } => OutboundCommandView::UpdateSession {
                update: update.deep_view(),
            },
            OutboundCommand::SetSeek { session_id, target, seek } => (OutboundCommandView::SetSeek {
                session_id: *session_id,
                target: target.deep_view(),
                seek: *seek,
            }),
        }
    }
}

impl Clone for OutboundCommand {
    fn clone(&self) -> (res: Self)
        ensures
            res.deep_view() == self.deep_view(),
    {
        match self {
            OutboundCommand::RequestConnectionIdentity => (OutboundCommand::RequestConnectionIdentity),
            OutboundCommand::UpdateSession { update } => OutboundCommand::UpdateSession {
                update: update.clone(),
            },
            OutboundCommand::SetSeek { session_id, target, seek } => (OutboundCommand::SetSeek {
                session_id: *session_id,
                target: target.clone(),
                seek: *seek,
            }),
        }
    }
}

/// A command the reconciliation engine asks the host to relay to the
/// real player backend, beyond a plain state update.
#[derive(Debug, Clone, Copy, PartialEq, Eq, Structural)]
pub enum PlayerCommand {
    NextTrack,
    PreviousTrack,
    Resume,
    Pause,
}

/// One side effect the host program must perform, in list order.
/// The verified core updates its own model of the world and emits
/// these; the host mirrors them onto sockets, players and the UI.
#[derive(Debug)]
pub enum Effect {
    /// Mirror a decoded message to the observation sink.
    EmitMessage { message: InboundMessage },
    /// Announce the learned connection identity to the boundary.
    EmitConnect { message: WsConnectMessage },
    /// Send a command to the server over the transport.
    SendCommand { command: OutboundCommand },
    /// Construct a real player instance for this binding.
    CreatePlayer {
        player_id: u64,
        kind: PlayerKind,
        output_id: String,
        target: PlaybackTarget,
        session_id: u64,
    },
    /// Initialize a real player from a session snapshot, without
    /// notifying the server.
    InitPlayerFromSession { player_id: u64, session_id: u64 },
    /// Apply a session delta to a real player.
    UpdatePlayer { player_id: u64, update: ApiUpdateSession },
    /// Push state to the plugin surface.
    UpdatePluginState { state: UpdateState },
    /// Relay a transport-level command to a real player.
    CommandPlayer { player_id: u64, command: PlayerCommand },
}

/// Mathematical image of an `Effect`.
#[verifier::ext_equal]
pub enum EffectView {
    EmitMessage { message: InboundMessageView },
    EmitConnect { message: WsConnectMessageView },
    SendCommand { command: OutboundCommandView },
    CreatePlayer {
        player_id: u64,
        kind: PlayerKind,
        output_id: Seq<char>,
        target: TargetView,
        session_id: u64,
    },
    InitPlayerFromSession { player_id: u64, session_id: u64 },
    UpdatePlayer { player_id: u64, update: ApiUpdateSessionView },
    UpdatePluginState { state: UpdateStateView },
    CommandPlayer { player_id: u64, command: PlayerCommand },
}

impl DeepView for Effect {
    type V = EffectView;

    open spec fn deep_view(&self) -> EffectView {
        match self {
            Effect::EmitMessage { message } => EffectView::EmitMessage {
                message: message.deep_view(),
            },
            Effect::EmitConnect { message } => EffectView::EmitConnect {
                message: message.deep_view(),
            },
            Effect::SendCommand { command } => EffectView::SendCommand {
                command: command.deep_view(),
            },
            Effect::CreatePlayer { player_id, kind, output_id, target, session_id } => (EffectView::CreatePlayer {
                player_id: *player_id,
                kind: *kind,
                output_id: output_id@,
                target: target.deep_view(),
                session_id: *session_id,
            }),
            Effect::InitPlayerFromSession { player_id, session_id } => (EffectView::InitPlayerFromSession {
                player_id: *player_id,
                session_id: *session_id,
            }),
            Effect::UpdatePlayer { player_id, update } => EffectView::UpdatePlayer {
                player_id: *player_id,
                update: update.deep_view(),
            },
            Effect::UpdatePluginState { state } => EffectView::UpdatePluginState {
                state: state.deep_view(),
            },
            Effect::CommandPlayer { player_id, command } => EffectView::CommandPlayer {
                player_id: *player_id,
                command: *command,
            },
        }
    }
}

/// The commands a list of effects sends to the server, in order.
/// The buffer-flush guarantee is stated over this projection.
pub open spec fn sent_commands(effects: Seq<EffectView>) -> Seq<OutboundCommandView>
    decreases effects.len(),
{
    if effects.len() == 0 {
        Seq::<OutboundCommandView>::empty()
    } else {
        let rest = sent_commands(effects.skip(1));
        match effects[0] {
            EffectView::SendCommand { command } => seq![command] + rest,
            _ => rest,
        }
    }
}

/// A list of effects that sends nothing to the server projects to no
/// commands.
pub proof fn lemma_sent_commands_none(effects: Seq<EffectView>)
    requires
        forall|i: int| 0 <= i < effects.len() ==> !((#[trigger] effects[i]) is SendCommand),
    ensures
        sent_commands(effects) == Seq::<OutboundCommandView>::empty(),
    decreases effects.len(),
{
    if effects.len() > 0 {
        assert(!(effects[0] is SendCommand));
        assert forall|i: int|
            0 <= i < effects.skip(1).len() implies !((#[trigger] effects.skip(1)[i])
            is SendCommand) by {
            assert(effects.skip(1)[i] == effects[i + 1]);
        }
        lemma_sent_commands_none(effects.skip(1));
    }
}

/// Append one effect, tracking the view of the list.
pub fn push_effect(dst: &mut Vec<Effect>, e: Effect)
    ensures
        final(dst).deep_view() == old(dst).deep_view().push(e.deep_view()),
{
    let ghost prev = dst.deep_view();
    let ghost praw = dst@;
    let ghost ev = e.deep_view();
    dst.push(e);
    proof {
        assert forall|i: int|
            0 <= i < dst.deep_view().len() implies #[trigger] dst.deep_view()[i] == prev.push(
            ev,
        )[i] by {
            assert(dst.deep_view()[i] == dst@[i].deep_view());
            if i < praw.len() {
                assert(dst@[i] == praw[i]);
                assert(prev[i] == praw[i].deep_view());
            }
        }
        assert(dst.deep_view() =~= prev.push(ev));
    }
}

/// Move all effects of `src` to the end of `dst`, in order, tracking
/// the view of the list.
pub fn append_effects(dst: &mut Vec<Effect>, src: Vec<Effect>)
    ensures
        final(dst).deep_view() == old(dst).deep_view() + src.deep_view(),
{
    let ghost prev = dst.deep_view();
    let ghost praw = dst@;
    let ghost sview = src.deep_view();
    let ghost sraw = src@;
    let mut src = src;
    dst.append(&mut src);
    proof {
        assert forall|i: int|
            0 <= i < dst.deep_view().len() implies #[trigger] dst.deep_view()[i] == (prev
            + sview)[i] by {
            assert(dst.deep_view()[i] == dst@[i].deep_view());
            if i < praw.len() {
                assert(dst@[i] == praw[i]);
                assert(prev[i] == praw[i].deep_view());
            } else {
                assert(dst@[i] == sraw[i - praw.len()]);
                assert(sview[i - praw.len()] == sraw[i - praw.len()].deep_view());
            }
        }
        assert(dst.deep_view() =~= prev + sview);
    }
}

/// Append one player- or boundary-directed effect, keeping the list
/// free of server commands.
pub fn push_player_effect(dst: &mut Vec<Effect>, e: Effect)
    requires
        sent_commands(old(dst).deep_view()) == Seq::<OutboundCommandView>::empty(),
        !(e.deep_view() is SendCommand),
    ensures
        final(dst).deep_view() == old(dst).deep_view().push(e.deep_view()),
        sent_commands(final(dst).deep_view()) == Seq::<OutboundCommandView>::empty(),
{
    let ghost prev = dst.deep_view();
    let ghost ev = e.deep_view();
    push_effect(dst, e);
    proof {
        assert(prev.push(ev) =~= prev + seq![ev]);
        lemma_sent_commands_concat(prev, seq![ev]);
        lemma_sent_commands_none(seq![ev]);
        assert(sent_commands(dst.deep_view()) =~= Seq::<OutboundCommandView>::empty());
    }
}

/// Concatenate two effect lists that send nothing, keeping the result
/// free of server commands.
pub fn append_player_effects(dst: &mut Vec<Effect>, src: Vec<Effect>)
    requires
        sent_commands(old(dst).deep_view()) == Seq::<OutboundCommandView>::empty(),
        sent_commands(src.deep_view()) == Seq::<OutboundCommandView>::empty(),
    ensures
        final(dst).deep_view() == old(dst).deep_view() + src.deep_view(),
        sent_commands(final(dst).deep_view()) == Seq::<OutboundCommandView>::empty(),
{
    let ghost prev = dst.deep_view();
    let ghost sview = src.deep_view();
    append_effects(dst, src);
    proof {
        lemma_sent_commands_concat(prev, sview);
        assert(sent_commands(dst.deep_view()) =~= Seq::<OutboundCommandView>::empty());
    }
}

/// Distributing `sent_commands` over concatenation.
pub proof fn lemma_sent_commands_concat(a: Seq<EffectView>, b: Seq<EffectView>)
    ensures
        sent_commands(a + b) == sent_commands(a) + sent_commands(b),
    decreases a.len(),
{
    if a.len() == 0 {
        assert(a + b =~= b);
        assert(sent_commands(a) + sent_commands(b) =~= sent_commands(b));
    } else {
        lemma_sent_commands_concat(a.skip(1), b);
        assert((a + b).skip(1) =~= a.skip(1) + b);
        assert((a + b)[0] == a[0]);
        match a[0] {
            EffectView::SendCommand { command } => {
                assert(sent_commands(a + b) == seq![command] + sent_commands(a.skip(1) + b));
                assert(seq![command] + (sent_commands(a.skip(1)) + sent_commands(b)) =~= (seq![
                    command,
                ] + sent_commands(a.skip(1))) + sent_commands(b));
            },
            _ => {},
        }
    }
}

} // verus!
