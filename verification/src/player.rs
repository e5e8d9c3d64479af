//! The local image of one player instance and the operations the
//! reconciliation engine performs on it.
//!
//! A player's observable playback state is modelled as plain values;
//! the host program mirrors every state transition onto the real
//! audio backend.  `apply_update` is the single way a session delta
//! reaches a player: a field left `None` in the delta leaves the
//! player's field untouched, which is what makes re-applying a delta
//! idempotent and keeps a seek-only delta from blanking the playlist.

use vstd::prelude::*;

use crate::models::ApiSession;
use crate::models::ApiSessionView;
use crate::models::ApiTrack;
use crate::models::ApiTrackView;
use crate::models::ApiUpdateSession;
use crate::models::ApiUpdateSessionView;
use crate::models::AudioOutput;
use crate::models::AudioOutputView;
use crate::models::PlaybackQuality;
use crate::models::PlaybackTarget;
use crate::models::TargetView;
use crate::models::clone_tracks;

verus! {

/// Which backend renders for a player: a local output or a remote
/// renderer.
#[derive(Debug, Clone, Copy, PartialEq, Eq, Structural)]
pub enum PlayerKind {
    Local,
    Upnp,
}

/// Observable playback state of one player instance.  `seek` is in
/// milliseconds; `volume` is in thousandths of full scale.
#[derive(Debug)]
pub struct PlayerState {
    pub id: u64,
    pub playing: bool,
    pub position: u16,
    pub seek: u64,
    pub volume: u64,
    pub tracks: Vec<ApiTrack>,
    pub quality: Option<PlaybackQuality>,
    pub session_id: Option<u64>,
    pub playback_target: Option<PlaybackTarget>,
}

/// Mathematical image of a `PlayerState`.
#[verifier::ext_equal]
pub struct PlayerStateView {
    pub id: u64,
    pub playing: bool,
    pub position: u16,
    pub seek: u64,
    pub volume: u64,
    pub tracks: Seq<ApiTrackView>,
    pub quality: Option<PlaybackQuality>,
    pub session_id: Option<u64>,
    pub playback_target: Option<TargetView>,
}

impl DeepView for PlayerState {
    type V = PlayerStateView;

    open spec fn deep_view(&self) -> PlayerStateView {
        PlayerStateView {
            id: self.id,
            playing: self.playing,
            position: self.position,
            seek: self.seek,
            volume: self.volume,
            tracks: self.tracks.deep_view(),
            quality: self.quality,
            session_id: self.session_id,
            playback_target: self.playback_target.deep_view(),
        }
    }
}

/// The association of one playback target and one session to one
/// player instance, together with the output device the player
/// renders through.
#[derive(Debug)]
pub struct PlayerBinding {
    pub playback_target: PlaybackTarget,
    pub session_id: u64,
    pub player: PlayerState,
    pub player_type: PlayerKind,
    pub output: AudioOutput,
}

/// Mathematical image of a `PlayerBinding`.
#[verifier::ext_equal]
pub struct PlayerBindingView {
    pub playback_target: TargetView,
    pub session_id: u64,
    pub player: PlayerStateView,
    pub player_type: PlayerKind,
    pub output: AudioOutputView,
}

impl DeepView for PlayerBinding {
    type V = PlayerBindingView;

    open spec fn deep_view(&self) -> PlayerBindingView {
        PlayerBindingView {
            playback_target: self.playback_target.deep_view(),
            session_id: self.session_id,
            player: self.player.deep_view(),
            player_type: self.player_type,
            output: self.output.deep_view(),
        }
    }
}

impl Clone for PlayerState {
    fn clone(&self) -> (res: Self)
        ensures
            res.deep_view() == self.deep_view(),
    {
        PlayerState {
            id: self.id,
            playing: self.playing,
            position: self.position,
            seek: self.seek,
            volume: self.volume,
            tracks: clone_tracks(&self.tracks),
            quality: self.quality,
            session_id: self.session_id,
            playback_target: match &self.playback_target {
                Some(t) => Some(t.clone()),
                None => None,
            },
        }
    }
}

impl Clone for PlayerBinding {
    fn clone(&self) -> (res: Self)
        ensures
            res.deep_view() == self.deep_view(),
    {
        PlayerBinding {
            playback_target: self.playback_target.clone(),
            session_id: self.session_id,
            player: self.player.clone(),
            player_type: self.player_type,
            output: self.output.clone(),
        }
    }
}

/// What applying a session delta to a player state yields: a field the
/// delta leaves `None` keeps the player's value; the delta's session and
/// target always attach to the player.
pub open spec fn apply_update_view(p: PlayerStateView, u: ApiUpdateSessionView) -> PlayerStateView {
    PlayerStateView {
        id: p.id,
        playing: match u.playing {
            Some(b) => b,
            None => p.playing,
        },
        position: match u.position {
            Some(x) => x,
            None => p.position,
        },
        seek: match u.seek {
            Some(x) => x,
            None => p.seek,
        },
        volume: match u.volume {
            Some(x) => x,
            None => p.volume,
        },
        tracks: match u.playlist {
            Some(pl) => pl.tracks,
            None => p.tracks,
        },
        quality: match u.quality {
            Some(q) => Some(q),
            None => p.quality,
        },
        session_id: Some(u.session_id),
        playback_target: Some(u.playback_target),
    }
}

/// Apply a session delta to a player's observable state.
pub fn apply_update(p: &mut PlayerState, u: &ApiUpdateSession)
    ensures
        final(p).deep_view() == apply_update_view(old(p).deep_view(), u.deep_view()),
{
    match &u.playing {
        Some(b) => {
            p.playing = *b;
        },
        None => {},
    }
    match &u.position {
        Some(x) => {
            p.position = *x;
        },
        None => {},
    }
    match &u.seek {
        Some(x) => {
            p.seek = *x;
        },
        None => {},
    }
    match &u.volume {
        Some(x) => {
            p.volume = *x;
        },
        None => {},
    }
    match &u.playlist {
        Some(pl) => {
            p.tracks = clone_tracks(&pl.tracks);
        },
        None => {},
    }
    match &u.quality {
        Some(q) => {
            p.quality = Some(*q);
        },
        None => {},
    }
    p.session_id = Some(u.session_id);
    p.playback_target = Some(u.playback_target.clone());
}

/// What initializing a player from a session snapshot yields.  This is
/// the local, non-authoritative catch-up: it copies the session's
/// transport state and playlist without contacting the server.  A
/// missing position or seek starts at zero; a missing volume starts at
/// full scale.
pub open spec fn init_from_session_view(p: PlayerStateView, s: ApiSessionView) -> PlayerStateView {
    PlayerStateView {
        id: p.id,
        playing: s.playing,
        position: match s.position {
            Some(x) => x,
            None => 0u16,
        },
        seek: match s.seek {
            Some(x) => x,
            None => 0u64,
        },
        volume: match s.volume {
            Some(x) => x,
            None => 1000u64,
        },
        tracks: s.playlist.tracks,
        quality: p.quality,
        session_id: Some(s.session_id),
        playback_target: p.playback_target,
    }
}

/// Initialize a player's observable state from a session snapshot.
pub fn init_from_session(p: &mut PlayerState, s: &ApiSession)
    ensures
        final(p).deep_view() == init_from_session_view(old(p).deep_view(), s.deep_view()),
{
    p.playing = s.playing;
    p.position = match &s.position {
        Some(x) => *x,
        None => 0,
    };
    p.seek = match &s.seek {
        Some(x) => *x,
        None => 0,
    };
    p.volume = match &s.volume {
        Some(x) => *x,
        None => 1000,
    };
    p.tracks = clone_tracks(&s.playlist.tracks);
    p.session_id = Some(s.session_id);
}

/// Whether a player carries playback state worth transplanting when
/// its binding is replaced: once a player has been attached to a
/// session, its transport state (position, seek, volume, playlist) is
/// what the listener hears — paused or not — so a replacement must
/// not reset it.  A player never attached has nothing to carry.
pub open spec fn has_active_playback(p: PlayerStateView) -> bool {
    p.session_id is Some
}

/// What replacing a player carries over from its predecessor: when the
/// previous player had active playback, its live transport state moves
/// onto the replacement so the change is not an audible interruption.
pub open spec fn transplant_view(fresh: PlayerStateView, prev: PlayerStateView) -> PlayerStateView {
    if has_active_playback(prev) {
        PlayerStateView {
            id: fresh.id,
            playing: prev.playing,
            position: prev.position,
            seek: prev.seek,
            volume: prev.volume,
            tracks: prev.tracks,
            quality: prev.quality,
            session_id: fresh.session_id,
            playback_target: fresh.playback_target,
        }
    } else {
        fresh
    }
}

/// Carry the previous player's live playback state onto a freshly
/// created replacement.
pub fn transplant_playback(fresh: &mut PlayerState, prev: &PlayerState)
    ensures
        final(fresh).deep_view() == transplant_view(old(fresh).deep_view(), prev.deep_view()),
{
    if prev.session_id.is_some() {
        fresh.playing = prev.playing;
        fresh.position = prev.position;
        fresh.seek = prev.seek;
        fresh.volume = prev.volume;
        fresh.tracks = clone_tracks(&prev.tracks);
        fresh.quality = prev.quality;
    }
}

/// Idempotence of delta application: applying the same delta twice
/// yields the state one application yields; the second application
/// performs no further state transition.
pub proof fn lemma_apply_update_idempotent(p: PlayerStateView, u: ApiUpdateSessionView)
    ensures
        apply_update_view(apply_update_view(p, u), u) == apply_update_view(p, u),
{
}

/// Merge law for partial deltas: a delta that sets only `seek` keeps
/// the player's position, volume and playlist, and installs the new
/// seek.
pub proof fn lemma_seek_only_update_preserves_state(
    p: PlayerStateView,
    u: ApiUpdateSessionView,
    s: u64,
)
    requires
        u.position is None,
        u.volume is None,
        u.playlist is None,
        u.playing is None,
        u.seek == Some(s),
    ensures
        apply_update_view(p, u).position == p.position,
        apply_update_view(p, u).volume == p.volume,
        apply_update_view(p, u).tracks == p.tracks,
        apply_update_view(p, u).playing == p.playing,
        apply_update_view(p, u).seek == s,
{
}

} // verus!
