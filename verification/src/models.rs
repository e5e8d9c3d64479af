//! Data model shared by every component: playback targets, sessions,
//! zones, players, session deltas, and the state pushed to the media
//! plugin surface.
//!
//! Each type that carries a `String` or a `Vec` gets a `DeepView`
//! whose fields are mathematical values (`Seq<char>`, `Seq<...>`), so
//! contracts can speak about contents rather than heap identity.
//! Times are milliseconds and volumes are thousandths of full scale,
//! so every quantity is an integer.

use vstd::prelude::*;

verus! {

/// Where a session's audio should be rendered: a named zone of output
/// devices, or one output of one connection.
#[derive(Debug)]
pub enum PlaybackTarget {
    AudioZone { audio_zone_id: u64 },
    ConnectionOutput { connection_id: String, output_id: String },
}

/// Mathematical image of a `PlaybackTarget`.
#[verifier::ext_equal]
pub enum TargetView {
    AudioZone { audio_zone_id: u64 },
    ConnectionOutput { connection_id: Seq<char>, output_id: Seq<char> },
}

impl DeepView for PlaybackTarget {
    type V = TargetView;

    open spec fn deep_view(&self) -> TargetView {
        match self {
            PlaybackTarget::AudioZone { audio_zone_id } => TargetView::AudioZone {
                audio_zone_id: *audio_zone_id,
            },
            PlaybackTarget::ConnectionOutput { connection_id, output_id } => (TargetView::ConnectionOutput {
                connection_id: connection_id@,
                output_id: output_id@,
            }),
        }
    }
}

/// Equality of playback targets, decided over their contents.
pub fn target_eq(a: &PlaybackTarget, b: &PlaybackTarget) -> (r: bool)
    ensures
        r == (a.deep_view() == b.deep_view()),
{
    match (a, b) {
        (
            PlaybackTarget::AudioZone { audio_zone_id: za },
            PlaybackTarget::AudioZone { audio_zone_id: zb },
        ) => za == zb,
        (
            PlaybackTarget::ConnectionOutput { connection_id: ca, output_id: oa },
            PlaybackTarget::ConnectionOutput { connection_id: cb, output_id: ob },
        ) => *ca == *cb && *oa == *ob,
        _ => false,
    }
}

/// The audio format a session is played in.
#[derive(Debug, Clone, Copy, PartialEq, Eq, Structural)]
pub enum AudioFormat {
    Aac,
    Flac,
    Mp3,
    Opus,
    Source,
}

/// Requested playback quality, applied globally to every player.
#[derive(Debug, Clone, Copy, PartialEq, Eq, Structural)]
pub struct PlaybackQuality {
    pub format: AudioFormat,
}

/// Which catalog a track belongs to.
#[derive(Debug, Clone, Copy, PartialEq, Eq, Structural)]
pub enum ApiSource {
    Library,
    Tidal,
    Qobuz,
}

impl ApiSource {
    /// Name of the source as it appears in request URLs.
    pub fn name(&self) -> (r: &'static str)
        ensures
            *self is Library ==> r@ == "library"@,
            *self is Tidal ==> r@ == "tidal"@,
            *self is Qobuz ==> r@ == "qobuz"@,
    {
        match self {
            ApiSource::Library => "library",
            ApiSource::Tidal => "tidal",
            ApiSource::Qobuz => "qobuz",
        }
    }
}

/// A track reference inside a session playlist, with the metadata the
/// plugin surface renders.
#[derive(Debug)]
pub struct ApiTrack {
    pub track_id: u64,
    pub number: u32,
    pub title: String,
    pub album: String,
    pub album_id: String,
    pub artist: String,
    pub artist_cover: Option<String>,
    pub contains_cover: bool,
    pub duration_ms: u64,
    pub source: ApiSource,
}

/// Mathematical image of an `ApiTrack`.
#[verifier::ext_equal]
pub struct ApiTrackView {
    pub track_id: u64,
    pub number: u32,
    pub title: Seq<char>,
    pub album: Seq<char>,
    pub album_id: Seq<char>,
    pub artist: Seq<char>,
    pub artist_cover: Option<Seq<char>>,
    pub contains_cover: bool,
    pub duration_ms: u64,
    pub source: ApiSource,
}

impl DeepView for ApiTrack {
    type V = ApiTrackView;

    open spec fn deep_view(&self) -> ApiTrackView {
        ApiTrackView {
            track_id: self.track_id,
            number: self.number,
            title: self.title@,
            album: self.album@,
            album_id: self.album_id@,
            artist: self.artist@,
            artist_cover: self.artist_cover.deep_view(),
            contains_cover: self.contains_cover,
            duration_ms: self.duration_ms,
            source: self.source,
        }
    }
}

/// The ordered playlist of one session.
#[derive(Debug, Clone)]
pub struct ApiPlaylist {
    pub session_playlist_id: u64,
    pub tracks: Vec<ApiTrack>,
}

/// Mathematical image of an `ApiPlaylist`.
#[verifier::ext_equal]
pub struct ApiPlaylistView {
    pub session_playlist_id: u64,
    pub tracks: Seq<ApiTrackView>,
}

impl DeepView for ApiPlaylist {
    type V = ApiPlaylistView;

    open spec fn deep_view(&self) -> ApiPlaylistView {
        ApiPlaylistView {
            session_playlist_id: self.session_playlist_id,
            tracks: self.tracks.deep_view(),
        }
    }
}

/// One session as last seen from the remote authority.  `seek` is in
/// milliseconds; `volume` is in thousandths of full scale.
#[derive(Debug)]
pub struct ApiSession {
    pub session_id: u64,
    pub name: String,
    pub active: bool,
    pub playing: bool,
    pub position: Option<u16>,
    pub seek: Option<u64>,
    pub volume: Option<u64>,
    pub playlist: ApiPlaylist,
}

/// Mathematical image of an `ApiSession`.
#[verifier::ext_equal]
pub struct ApiSessionView {
    pub session_id: u64,
    pub name: Seq<char>,
    pub active: bool,
    pub playing: bool,
    pub position: Option<u16>,
    pub seek: Option<u64>,
    pub volume: Option<u64>,
    pub playlist: ApiPlaylistView,
}

impl DeepView for ApiSession {
    type V = ApiSessionView;

    open spec fn deep_view(&self) -> ApiSessionView {
        ApiSessionView {
            session_id: self.session_id,
            name: self.name@,
            active: self.active,
            playing: self.playing,
            position: self.position,
            seek: self.seek,
            volume: self.volume,
            playlist: self.playlist.deep_view(),
        }
    }
}

/// The playlist part of a session delta.
#[derive(Debug)]
pub struct ApiUpdateSessionPlaylist {
    pub session_playlist_id: u64,
    pub tracks: Vec<ApiTrack>,
}

/// Mathematical image of an `ApiUpdateSessionPlaylist`.
#[verifier::ext_equal]
pub struct ApiUpdateSessionPlaylistView {
    pub session_playlist_id: u64,
    pub tracks: Seq<ApiTrackView>,
}

impl DeepView for ApiUpdateSessionPlaylist {
    type V = ApiUpdateSessionPlaylistView;

    open spec fn deep_view(&self) -> ApiUpdateSessionPlaylistView {
        ApiUpdateSessionPlaylistView {
            session_playlist_id: self.session_playlist_id,
            tracks: self.tracks.deep_view(),
        }
    }
}

/// A partial session update: a field left `None` asserts nothing about
/// that field and must leave it unchanged wherever the delta is applied.
#[derive(Debug)]
pub struct ApiUpdateSession {
    pub session_id: u64,
    pub playback_target: PlaybackTarget,
    pub play: Option<bool>,
    pub stop: Option<bool>,
    pub name: Option<String>,
    pub active: Option<bool>,
    pub playing: Option<bool>,
    pub position: Option<u16>,
    pub seek: Option<u64>,
    pub volume: Option<u64>,
    pub playlist: Option<ApiUpdateSessionPlaylist>,
    pub quality: Option<PlaybackQuality>,
}

/// Mathematical image of an `ApiUpdateSession`.
#[verifier::ext_equal]
pub struct ApiUpdateSessionView {
    pub session_id: u64,
    pub playback_target: TargetView,
    pub play: Option<bool>,
    pub stop: Option<bool>,
    pub name: Option<Seq<char>>,
    pub active: Option<bool>,
    pub playing: Option<bool>,
    pub position: Option<u16>,
    pub seek: Option<u64>,
    pub volume: Option<u64>,
    pub playlist: Option<ApiUpdateSessionPlaylistView>,
    pub quality: Option<PlaybackQuality>,
}

impl DeepView for ApiUpdateSession {
    type V = ApiUpdateSessionView;

    open spec fn deep_view(&self) -> ApiUpdateSessionView {
        ApiUpdateSessionView {
            session_id: self.session_id,
            playback_target: self.playback_target.deep_view(),
            play: self.play,
            stop: self.stop,
            name: self.name.deep_view(),
            active: self.active,
            playing: self.playing,
            position: self.position,
            seek: self.seek,
            volume: self.volume,
            playlist: self.playlist.deep_view(),
            quality: self.quality,
        }
    }
}

/// A player as the remote session registry knows it.
#[derive(Debug)]
pub struct ApiPlayer {
    pub player_id: u64,
    pub audio_output_id: String,
    pub name: String,
}

/// Mathematical image of an `ApiPlayer`.
#[verifier::ext_equal]
pub struct ApiPlayerView {
    pub player_id: u64,
    pub audio_output_id: Seq<char>,
    pub name: Seq<char>,
}

impl DeepView for ApiPlayer {
    type V = ApiPlayerView;

    open spec fn deep_view(&self) -> ApiPlayerView {
        ApiPlayerView {
            player_id: self.player_id,
            audio_output_id: self.audio_output_id@,
            name: self.name@,
        }
    }
}

/// A zone of output devices together with the session assigned to it.
#[derive(Debug)]
pub struct ApiAudioZoneWithSession {
    pub id: u64,
    pub session_id: u64,
    pub name: String,
    pub players: Vec<ApiPlayer>,
}

/// Mathematical image of an `ApiAudioZoneWithSession`.
#[verifier::ext_equal]
pub struct ApiAudioZoneWithSessionView {
    pub id: u64,
    pub session_id: u64,
    pub name: Seq<char>,
    pub players: Seq<ApiPlayerView>,
}

impl DeepView for ApiAudioZoneWithSession {
    type V = ApiAudioZoneWithSessionView;

    open spec fn deep_view(&self) -> ApiAudioZoneWithSessionView {
        ApiAudioZoneWithSessionView {
            id: self.id,
            session_id: self.session_id,
            name: self.name@,
            players: self.players.deep_view(),
        }
    }
}

/// Another device connected to the same remote authority.
#[derive(Debug)]
pub struct ApiConnection {
    pub connection_id: String,
    pub name: String,
    pub players: Vec<ApiPlayer>,
}

/// Mathematical image of an `ApiConnection`.
#[verifier::ext_equal]
pub struct ApiConnectionView {
    pub connection_id: Seq<char>,
    pub name: Seq<char>,
    pub players: Seq<ApiPlayerView>,
}

impl DeepView for ApiConnection {
    type V = ApiConnectionView;

    open spec fn deep_view(&self) -> ApiConnectionView {
        ApiConnectionView {
            connection_id: self.connection_id@,
            name: self.name@,
            players: self.players.deep_view(),
        }
    }
}

/// An output device a player can render through.
#[derive(Debug)]
pub struct AudioOutput {
    pub id: String,
    pub name: String,
}

/// Mathematical image of an `AudioOutput`.
#[verifier::ext_equal]
pub struct AudioOutputView {
    pub id: Seq<char>,
    pub name: Seq<char>,
}

impl DeepView for AudioOutput {
    type V = AudioOutputView;

    open spec fn deep_view(&self) -> AudioOutputView {
        AudioOutputView { id: self.id@, name: self.name@ }
    }
}

/// Payload sent to the remote authority to register local outputs as
/// players.
#[derive(Debug, Clone)]
pub struct RegisterPlayer {
    pub audio_output_id: String,
    pub name: String,
}

/// Mathematical image of a `RegisterPlayer`.
#[verifier::ext_equal]
pub struct RegisterPlayerView {
    pub audio_output_id: Seq<char>,
    pub name: Seq<char>,
}

impl DeepView for RegisterPlayer {
    type V = RegisterPlayerView;

    open spec fn deep_view(&self) -> RegisterPlayerView {
        RegisterPlayerView { audio_output_id: self.audio_output_id@, name: self.name@ }
    }
}

/// A track identifier qualified by which catalog numbered it.
#[derive(Debug, Clone, Copy, PartialEq, Eq, Structural)]
pub enum TrackId {
    Library(u64),
    Tidal(u64),
    Qobuz(u64),
}

impl TrackId {
    /// The raw numeric identifier.
    pub fn id(&self) -> (r: u64)
        ensures
            r == self.spec_id(),
    {
        match self {
            TrackId::Library(id) => *id,
            TrackId::Tidal(id) => *id,
            TrackId::Qobuz(id) => *id,
        }
    }

    /// The raw numeric identifier, as a specification value.
    pub open spec fn spec_id(&self) -> u64 {
        match self {
            TrackId::Library(id) => *id,
            TrackId::Tidal(id) => *id,
            TrackId::Qobuz(id) => *id,
        }
    }

    /// The catalog a `TrackId` belongs to.
    pub fn source(&self) -> (r: ApiSource)
        ensures
            *self matches TrackId::Library(_) <==> r is Library,
            *self matches TrackId::Tidal(_) <==> r is Tidal,
            *self matches TrackId::Qobuz(_) <==> r is Qobuz,
    {
        match self {
            TrackId::Library(_) => ApiSource::Library,
            TrackId::Tidal(_) => ApiSource::Tidal,
            TrackId::Qobuz(_) => ApiSource::Qobuz,
        }
    }
}

/// A track identifier paired with the catalog it belongs to, as the
/// boundary hands it over.
#[derive(Debug, Clone, Copy, PartialEq, Eq, Structural)]
pub struct TrackIdWithApiSource {
    pub id: TrackId,
    pub source: ApiSource,
}

impl TrackIdWithApiSource {
    /// The raw numeric identifier, as playlist updates carry it.
    pub fn numeric_id(&self) -> (r: u64)
        ensures
            r == self.id.spec_id(),
    {
        self.id.id()
    }
}

/// Event announced to the boundary when the transport learns its
/// connection identity.
#[derive(Debug, Clone)]
pub struct WsConnectMessage {
    pub connection_id: String,
    pub ws_url: String,
}

/// Mathematical image of a `WsConnectMessage`.
#[verifier::ext_equal]
pub struct WsConnectMessageView {
    pub connection_id: Seq<char>,
    pub ws_url: Seq<char>,
}

impl DeepView for WsConnectMessage {
    type V = WsConnectMessageView;

    open spec fn deep_view(&self) -> WsConnectMessageView {
        WsConnectMessageView { connection_id: self.connection_id@, ws_url: self.ws_url@ }
    }
}

/// Reply of the plugin surface to a state push; it carries nothing.
#[derive(Debug, Clone, Default)]
pub struct StateResponse {}

/// A track as the plugin surface renders it.  `duration_ms` is in
/// milliseconds.
#[derive(Debug, Clone)]
pub struct Track {
    pub id: u64,
    pub number: u32,
    pub title: String,
    pub album: String,
    pub album_cover: Option<String>,
    pub artist: String,
    pub artist_cover: Option<String>,
    pub duration_ms: u64,
}

/// Mathematical image of a `Track`.
#[verifier::ext_equal]
pub struct TrackView {
    pub id: u64,
    pub number: u32,
    pub title: Seq<char>,
    pub album: Seq<char>,
    pub album_cover: Option<Seq<char>>,
    pub artist: Seq<char>,
    pub artist_cover: Option<Seq<char>>,
    pub duration_ms: u64,
}

impl DeepView for Track {
    type V = TrackView;

    open spec fn deep_view(&self) -> TrackView {
        TrackView {
            id: self.id,
            number: self.number,
            title: self.title@,
            album: self.album@,
            album_cover: self.album_cover.deep_view(),
            artist: self.artist@,
            artist_cover: self.artist_cover.deep_view(),
            duration_ms: self.duration_ms,
        }
    }
}

/// The playlist as the plugin surface renders it.
#[derive(Debug, Clone)]
pub struct Playlist {
    pub tracks: Vec<Track>,
}

/// Mathematical image of a `Playlist`.
#[verifier::ext_equal]
pub struct PlaylistView {
    pub tracks: Seq<TrackView>,
}

impl DeepView for Playlist {
    type V = PlaylistView;

    open spec fn deep_view(&self) -> PlaylistView {
        PlaylistView { tracks: self.tracks.deep_view() }
    }
}

/// The state pushed to the plugin surface.  A field left `None` leaves
/// the surface's corresponding state untouched.
#[derive(Debug, Clone)]
pub struct UpdateState {
    pub playing: Option<bool>,
    pub position: Option<u16>,
    pub seek: Option<u64>,
    pub volume: Option<u64>,
    pub playlist: Option<Playlist>,
}

/// Mathematical image of an `UpdateState`.
#[verifier::ext_equal]
pub struct UpdateStateView {
    pub playing: Option<bool>,
    pub position: Option<u16>,
    pub seek: Option<u64>,
    pub volume: Option<u64>,
    pub playlist: Option<PlaylistView>,
}

impl DeepView for UpdateState {
    type V = UpdateStateView;

    open spec fn deep_view(&self) -> UpdateStateView {
        UpdateStateView {
            playing: self.playing,
            position: self.position,
            seek: self.seek,
            volume: self.volume,
            playlist: self.playlist.deep_view(),
        }
    }
}

/// Clone an optional string, keeping its contents.
pub fn clone_opt_string(o: &Option<String>) -> (r: Option<String>)
    ensures
        r.deep_view() == o.deep_view(),
{
    match o {
        Some(s) => Some(s.clone()),
        None => None,
    }
}

impl Clone for PlaybackTarget {
    /// Clones keep the target's contents, so contracts over views carry
    /// across a clone.
    fn clone(&self) -> (res: Self)
        ensures
            res.deep_view() == self.deep_view(),
    {
        match self {
            PlaybackTarget::AudioZone { audio_zone_id } => PlaybackTarget::AudioZone {
                audio_zone_id: *audio_zone_id,
            },
            PlaybackTarget::ConnectionOutput { connection_id, output_id } => (PlaybackTarget::ConnectionOutput {
                connection_id: connection_id.clone(),
                output_id: output_id.clone(),
            }),
        }
    }
}

impl Clone for ApiTrack {
    fn clone(&self) -> (res: Self)
        ensures
            res.deep_view() == self.deep_view(),
    {
        ApiTrack {
            track_id: self.track_id,
            number: self.number,
            title: self.title.clone(),
            album: self.album.clone(),
            album_id: self.album_id.clone(),
            artist: self.artist.clone(),
            artist_cover: clone_opt_string(&self.artist_cover),
            contains_cover: self.contains_cover,
            duration_ms: self.duration_ms,
            source: self.source,
        }
    }
}

/// Clone a track list, keeping its contents.
pub fn clone_tracks(v: &Vec<ApiTrack>) -> (r: Vec<ApiTrack>)
    ensures
        r.deep_view() == v.deep_view(),
{
    let mut r: Vec<ApiTrack> = Vec::new();
    let mut i: usize = 0;
    while i < v.len()
        invariant
            i <= v.len(),
            r@.len() == i,
            forall|j: int| 0 <= j < i ==> #[trigger] r@[j].deep_view() == v@[j].deep_view(),
        decreases v.len() - i,
    {
        r.push(v[i].clone());
        i += 1;
    }
    proof {
        assert(r.deep_view() =~= v.deep_view());
    }
    r
}

impl Clone for ApiUpdateSessionPlaylist {
    fn clone(&self) -> (res: Self)
        ensures
            res.deep_view() == self.deep_view(),
    {
        ApiUpdateSessionPlaylist {
            session_playlist_id: self.session_playlist_id,
            tracks: clone_tracks(&self.tracks),
        }
    }
}

impl Clone for ApiUpdateSession {
    fn clone(&self) -> (res: Self)
        ensures
            res.deep_view() == self.deep_view(),
    {
        ApiUpdateSession {
            session_id: self.session_id,
            playback_target: self.playback_target.clone(),
            play: self.play,
            stop: self.stop,
            name: clone_opt_string(&self.name),
            active: self.active,
            playing: self.playing,
            position: self.position,
            seek: self.seek,
            volume: self.volume,
            playlist: match &self.playlist {
                Some(p) => Some(p.clone()),
                None => None,
            },
            quality: self.quality,
        }
    }
}

impl Clone for ApiPlayer {
    fn clone(&self) -> (res: Self)
        ensures
            res.deep_view() == self.deep_view(),
    {
        ApiPlayer {
            player_id: self.player_id,
            audio_output_id: self.audio_output_id.clone(),
            name: self.name.clone(),
        }
    }
}

/// Clone a player list, keeping its contents.
pub fn clone_players(v: &Vec<ApiPlayer>) -> (r: Vec<ApiPlayer>)
    ensures
        r.deep_view() == v.deep_view(),
{
    let mut r: Vec<ApiPlayer> = Vec::new();
    let mut i: usize = 0;
    while i < v.len()
        invariant
            i <= v.len(),
            r@.len() == i,
            forall|j: int| 0 <= j < i ==> #[trigger] r@[j].deep_view() == v@[j].deep_view(),
        decreases v.len() - i,
    {
        r.push(v[i].clone());
        i += 1;
    }
    proof {
        assert(r.deep_view() =~= v.deep_view());
    }
    r
}

impl Clone for ApiSession {
    fn clone(&self) -> (res: Self)
        ensures
            res.deep_view() == self.deep_view(),
    {
        ApiSession {
            session_id: self.session_id,
            name: self.name.clone(),
            active: self.active,
            playing: self.playing,
            position: self.position,
            seek: self.seek,
            volume: self.volume,
            playlist: ApiPlaylist {
                session_playlist_id: self.playlist.session_playlist_id,
                tracks: clone_tracks(&self.playlist.tracks),
            },
        }
    }
}

/// Clone a session list, keeping its contents.
pub fn clone_sessions(v: &Vec<ApiSession>) -> (r: Vec<ApiSession>)
    ensures
        r.deep_view() == v.deep_view(),
{
    let mut r: Vec<ApiSession> = Vec::new();
    let mut i: usize = 0;
    while i < v.len()
        invariant
            i <= v.len(),
            r@.len() == i,
            forall|j: int| 0 <= j < i ==> #[trigger] r@[j].deep_view() == v@[j].deep_view(),
        decreases v.len() - i,
    {
        r.push(v[i].clone());
        i += 1;
    }
    proof {
        assert(r.deep_view() =~= v.deep_view());
    }
    r
}

impl Clone for ApiConnection {
    fn clone(&self) -> (res: Self)
        ensures
            res.deep_view() == self.deep_view(),
    {
        ApiConnection {
            connection_id: self.connection_id.clone(),
            name: self.name.clone(),
            players: clone_players(&self.players),
        }
    }
}

/// Clone a connection list, keeping its contents.
pub fn clone_connections(v: &Vec<ApiConnection>) -> (r: Vec<ApiConnection>)
    ensures
        r.deep_view() == v.deep_view(),
{
    let mut r: Vec<ApiConnection> = Vec::new();
    let mut i: usize = 0;
    while i < v.len()
        invariant
            i <= v.len(),
            r@.len() == i,
            forall|j: int| 0 <= j < i ==> #[trigger] r@[j].deep_view() == v@[j].deep_view(),
        decreases v.len() - i,
    {
        r.push(v[i].clone());
        i += 1;
    }
    proof {
        assert(r.deep_view() =~= v.deep_view());
    }
    r
}

impl Clone for ApiAudioZoneWithSession {
    fn clone(&self) -> (res: Self)
        ensures
            res.deep_view() == self.deep_view(),
    {
        ApiAudioZoneWithSession {
            id: self.id,
            session_id: self.session_id,
            name: self.name.clone(),
            players: clone_players(&self.players),
        }
    }
}

/// Clone a zone list, keeping its contents.
pub fn clone_zones(v: &Vec<ApiAudioZoneWithSession>) -> (r: Vec<ApiAudioZoneWithSession>)
    ensures
        r.deep_view() == v.deep_view(),
{
    let mut r: Vec<ApiAudioZoneWithSession> = Vec::new();
    let mut i: usize = 0;
    while i < v.len()
        invariant
            i <= v.len(),
            r@.len() == i,
            forall|j: int| 0 <= j < i ==> #[trigger] r@[j].deep_view() == v@[j].deep_view(),
        decreases v.len() - i,
    {
        r.push(v[i].clone());
        i += 1;
    }
    proof {
        assert(r.deep_view() =~= v.deep_view());
    }
    r
}

impl Clone for AudioOutput {
    fn clone(&self) -> (res: Self)
        ensures
            res.deep_view() == self.deep_view(),
    {
        AudioOutput { id: self.id.clone(), name: self.name.clone() }
    }
}

/// Clone an output list, keeping its contents.
pub fn clone_outputs(v: &Vec<AudioOutput>) -> (r: Vec<AudioOutput>)
    ensures
        r.deep_view() == v.deep_view(),
{
    let mut r: Vec<AudioOutput> = Vec::new();
    let mut i: usize = 0;
    while i < v.len()
        invariant
            i <= v.len(),
            r@.len() == i,
            forall|j: int| 0 <= j < i ==> #[trigger] r@[j].deep_view() == v@[j].deep_view(),
        decreases v.len() - i,
    {
        r.push(v[i].clone());
        i += 1;
    }
    proof {
        assert(r.deep_view() =~= v.deep_view());
    }
    r
}

} // verus!
