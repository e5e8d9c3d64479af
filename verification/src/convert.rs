//! Conversions toward the plugin surface: cover-art URLs, the query
//! string that carries the configured identity, and the translation
//! of session playlists into the track shape the surface renders.

use vstd::prelude::*;
use vstd::string::StringExecFns;

use crate::context::AppContext;
use crate::models::ApiSource;
use crate::models::ApiTrack;
use crate::models::ApiTrackView;
use crate::models::ApiUpdateSession;
use crate::models::Playlist;
use crate::models::Track;
use crate::models::TrackView;
use crate::models::UpdateState;
use crate::models::UpdateStateView;
use crate::models::clone_opt_string;
use crate::registry::find_session;
use crate::registry::find_session_view;

verus! {

/// The URL of a 300x300 album cover.
pub open spec fn album_cover_url_view(
    album_id: Seq<char>,
    source: ApiSource,
    url: Seq<char>,
    query: Seq<char>,
) -> Seq<char> {
    url + "/files/albums/"@ + album_id + "/300x300?source="@ + source_name_view(source) + query
}

/// The catalog name as it appears in request URLs.
pub open spec fn source_name_view(source: ApiSource) -> Seq<char> {
    match source {
        ApiSource::Library => "library"@,
        ApiSource::Tidal => "tidal"@,
        ApiSource::Qobuz => "qobuz"@,
    }
}

/// Build the URL of an album's cover image.
pub fn album_cover_url(album_id: &String, source: ApiSource, url: &String, query: &String) -> (r:
    String)
    ensures
        r@ == album_cover_url_view(album_id@, source, url@, query@),
{
    let mut s = url.clone();
    s.append("/files/albums/");
    s.append(album_id.as_str());
    s.append("/300x300?source=");
    s.append(source.name());
    s.append(query.as_str());
    proof {
        assert(s@ =~= album_cover_url_view(album_id@, source, url@, query@));
    }
    s
}

/// The query fragment appended to media URLs: the client id and the
/// signature token, each when configured.
pub open spec fn media_query_view(
    client_id: Option<Seq<char>>,
    signature_token: Option<Seq<char>>,
) -> Seq<char> {
    let c = match client_id {
        Some(id) => "&clientId="@ + id,
        None => Seq::<char>::empty(),
    };
    let s = match signature_token {
        Some(t) => "&signature="@ + t,
        None => Seq::<char>::empty(),
    };
    c + s
}

/// The API origin and the identity query fragment, when an origin is
/// configured.
pub fn get_url_and_query(ctx: &AppContext) -> (r: Option<(String, String)>)
    ensures
        r is Some <==> ctx.api_url is Some,
        r matches Some((url, query)) ==> {
            &&& Some(url@) == ctx.api_url.deep_view()
            &&& query@ == media_query_view(
                ctx.client_id.deep_view(),
                ctx.signature_token.deep_view(),
            )
        },
{
    let url = match &ctx.api_url {
        Some(u) => u.clone(),
        None => {
            return None;
        },
    };
    let mut query = String::new();
    match &ctx.client_id {
        Some(id) => {
            query.append("&clientId=");
            query.append(id.as_str());
        },
        None => {},
    }
    match &ctx.signature_token {
        Some(t) => {
            query.append("&signature=");
            query.append(t.as_str());
        },
        None => {},
    }
    proof {
        assert(query@ =~= media_query_view(
            ctx.client_id.deep_view(),
            ctx.signature_token.deep_view(),
        ));
    }
    Some((url, query))
}

/// The plugin-surface image of one session track: the same metadata,
/// with a cover URL synthesized when the track has cover art.
pub open spec fn convert_track_view(t: ApiTrackView, url: Seq<char>, query: Seq<char>) -> TrackView {
    TrackView {
        id: t.track_id,
        number: t.number,
        title: t.title,
        album: t.album,
        album_cover: if t.contains_cover {
            Some(album_cover_url_view(t.album_id, t.source, url, query))
        } else {
            None
        },
        artist: t.artist,
        artist_cover: t.artist_cover,
        duration_ms: t.duration_ms,
    }
}

/// Translate one session track for the plugin surface.
pub fn convert_track(track: &ApiTrack, url: &String, query: &String) -> (r: Track)
    ensures
        r.deep_view() == convert_track_view(track.deep_view(), url@, query@),
{
    let album_cover = if track.contains_cover {
        Some(album_cover_url(&track.album_id, track.source, url, query))
    } else {
        None
    };
    Track {
        id: track.track_id,
        number: track.number,
        title: track.title.clone(),
        album: track.album.clone(),
        album_cover,
        artist: track.artist.clone(),
        artist_cover: clone_opt_string(&track.artist_cover),
        duration_ms: track.duration_ms,
    }
}

/// Translate a whole track list for the plugin surface.
pub fn convert_tracks(tracks: &Vec<ApiTrack>, url: &String, query: &String) -> (r: Vec<Track>)
    ensures
        r.deep_view() == tracks.deep_view().map_values(
            |t: ApiTrackView| convert_track_view(t, url@, query@),
        ),
{
    let mut r: Vec<Track> = Vec::new();
    let mut i: usize = 0;
    while i < tracks.len()
        invariant
            i <= tracks.len(),
            r@.len() == i,
            forall|j: int|
                0 <= j < i ==> (#[trigger] r@[j].deep_view()) == convert_track_view(
                    tracks.deep_view()[j],
                    url@,
                    query@,
                ),
        decreases tracks.len() - i,
    {
        r.push(convert_track(&tracks[i], url, query));
        i += 1;
    }
    proof {
        assert(r.deep_view() =~= tracks.deep_view().map_values(
            |t: ApiTrackView| convert_track_view(t, url@, query@),
        ));
    }
    r
}

/// The state push that mirrors the current session to the plugin
/// surface, when a session and an API origin are known.
pub fn update_playlist(ctx: &AppContext) -> (r: Option<UpdateState>)
    ensures
        r is Some <==> {
            &&& ctx.current_session_id is Some
            &&& ctx.api_url is Some
            &&& ctx.current_session_id matches Some(sid) && find_session_view(
                ctx.current_sessions.deep_view(),
                sid,
            ) is Some
        },
        r matches Some(u) ==> ctx.current_session_id matches Some(sid) && find_session_view(
            ctx.current_sessions.deep_view(),
            sid,
        ) matches Some(s) && {
            &&& u.playing == Some(s.playing)
            &&& u.position == s.position
            &&& u.seek == s.seek
            &&& u.volume == s.volume
            &&& u.playlist matches Some(pl) && pl.deep_view().tracks == s.playlist.tracks.map_values(
                |t: ApiTrackView|
                    convert_track_view(
                        t,
                        ctx.api_url.deep_view().unwrap(),
                        media_query_view(
                            ctx.client_id.deep_view(),
                            ctx.signature_token.deep_view(),
                        ),
                    ),
            )
        },
{
    let sid = match ctx.current_session_id {
        Some(s) => s,
        None => {
            return None;
        },
    };
    let session = match find_session(&ctx.current_sessions, sid) {
        Some(s) => s,
        None => {
            return None;
        },
    };
    let (url, query) = match get_url_and_query(ctx) {
        Some(uq) => uq,
        None => {
            return None;
        },
    };
    let tracks = convert_tracks(&session.playlist.tracks, &url, &query);
    Some(
        UpdateState {
            playing: Some(session.playing),
            position: session.position,
            seek: session.seek,
            volume: session.volume,
            playlist: Some(Playlist { tracks }),
        },
    )
}

/// The state push that mirrors an inbound delta to the plugin
/// surface: produced exactly when the delta concerns the session the
/// surface is showing and an API origin is configured.
pub fn propagate_state_to_plugin(ctx: &AppContext, update: &ApiUpdateSession) -> (r: Option<
    UpdateState,
>)
    ensures
        r is Some <==> (ctx.current_session_id == Some(update.session_id) && ctx.api_url is Some),
        r matches Some(u) ==> {
            &&& u.playing == update.playing
            &&& u.position == update.position
            &&& u.seek == update.seek
            &&& u.volume == update.volume
            &&& (update.playlist is None ==> u.playlist is None)
            &&& (update.playlist matches Some(pl) ==> u.playlist matches Some(out)
                && out.deep_view().tracks == pl.deep_view().tracks.map_values(
                |t: ApiTrackView|
                    convert_track_view(
                        t,
                        ctx.api_url.deep_view().unwrap(),
                        media_query_view(
                            ctx.client_id.deep_view(),
                            ctx.signature_token.deep_view(),
                        ),
                    ),
            ))
        },
{
    let matches_current = match ctx.current_session_id {
        Some(csid) => csid == update.session_id,
        None => false,
    };
    if !matches_current {
        return None;
    }
    let (url, query) = match get_url_and_query(ctx) {
        Some(uq) => uq,
        None => {
            return None;
        },
    };
    let playlist = match &update.playlist {
        Some(pl) => Some(Playlist { tracks: convert_tracks(&pl.tracks, &url, &query) }),
        None => None,
    };
    Some(
        UpdateState {
            playing: update.playing,
            position: update.position,
            seek: update.seek,
            volume: update.volume,
            playlist,
        },
    )
}

/// The URL an API proxy request resolves to: the configured origin,
/// a slash, and the request path.
pub fn proxy_url(api_url: &String, path: &String) -> (r: String)
    ensures
        r@ == api_url@ + "/"@ + path@,
{
    let mut s = api_url.clone();
    s.append("/");
    s.append(path.as_str());
    proof {
        assert(s@ =~= api_url@ + "/"@ + path@);
    }
    s
}

/// The request path that registers players: the connection id always,
/// the client id when configured.
pub fn register_players_route(connection_id: &String, client_id: &Option<String>) -> (r: String)
    ensures
        r@ == "session/register-players?connectionId="@ + connection_id@ + (match client_id {
            Some(c) => "&clientId="@ + c@,
            None => Seq::<char>::empty(),
        }),
{
    let mut s = String::from_str("session/register-players?connectionId=");
    s.append(connection_id.as_str());
    match client_id {
        Some(c) => {
            s.append("&clientId=");
            s.append(c.as_str());
        },
        None => {},
    }
    proof {
        assert(s@ =~= "session/register-players?connectionId="@ + connection_id@ + (
        match client_id {
            Some(c) => "&clientId="@ + c@,
            None => Seq::<char>::empty(),
        }));
    }
    s
}

/// The request path that fetches the zone-with-session snapshot: the
/// client id is carried only when configured and not empty.
pub fn audio_zones_route(client_id: &Option<String>) -> (r: String)
    ensures
        r@ == "audio-zone/with-session"@ + (match client_id {
            Some(c) => if c@.len() > 0 {
                "?clientId="@ + c@
            } else {
                Seq::<char>::empty()
            },
            None => Seq::<char>::empty(),
        }),
{
    let mut s = String::from_str("audio-zone/with-session");
    match client_id {
        Some(c) => {
            if c.as_str().unicode_len() > 0 {
                s.append("?clientId=");
                s.append(c.as_str());
            }
        },
        None => {},
    }
    proof {
        assert(s@ =~= "audio-zone/with-session"@ + (match client_id {
            Some(c) => if c@.len() > 0 {
                "?clientId="@ + c@
            } else {
                Seq::<char>::empty()
            },
            None => Seq::<char>::empty(),
        }));
    }
    s
}

} // verus!
