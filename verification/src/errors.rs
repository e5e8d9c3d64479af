//! Error taxonomy.
//!
//! Transport errors are retried inside the connection loop and never
//! surface past it; protocol errors are logged and dropped; a single
//! player's failure is isolated to that player; configuration errors
//! propagate synchronously to the caller that triggered them.  Each
//! variant carries a plain description so the host program can log it.

use vstd::prelude::*;

verus! {

/// Failure to hand raw bytes to the transport.
#[derive(Debug)]
pub enum SendBytesError {
    Unknown(String),
}

/// Failure to hand a message to the transport.
#[derive(Debug)]
pub enum SendMessageError {
    Unknown(String),
}

/// Failure inside a sender implementation.
#[derive(Debug)]
pub enum WebsocketSendError {
    Unknown(String),
}

/// Failure to close the transport.
#[derive(Debug)]
pub enum CloseError {
    Unknown(String),
}

/// Failure of a player-facing operation, including the configuration
/// errors that fail fast (missing API origin, missing output device).
#[derive(Debug)]
pub enum TauriPlayerError {
    Unknown(String),
}

impl TauriPlayerError {
    /// The plain description the host logs or shows.
    pub fn message(&self) -> (r: &String)
        ensures
            *self matches TauriPlayerError::Unknown(m) && r@ == m@,
    {
        match self {
            TauriPlayerError::Unknown(m) => m,
        }
    }
}

/// Failure while handling one decoded protocol message.
#[derive(Debug)]
pub enum HandleWsMessageError {
    Serde(String),
    Player(String),
    Emit(String),
    Tauri(String),
}

/// Failure while relaying one command to the server.
#[derive(Debug)]
pub enum SendWsMessageError {
    WebsocketSend(WebsocketSendError),
    HandleWsMessage(HandleWsMessageError),
}

/// Failure anywhere in the application shell.
#[derive(Debug)]
pub enum AppError {
    Tauri(String),
    SendWsMessage(SendWsMessageError),
    Unknown(String),
}

/// Failure while scanning and registering audio outputs.
#[derive(Debug)]
pub enum ScanOutputsError {
    AudioOutputScanner(String),
    Serde(String),
    TauriPlayer(TauriPlayerError),
    RegisterPlayers(RegisterPlayersError),
}

/// Failure while registering players with the remote authority.
#[derive(Debug)]
pub enum RegisterPlayersError {
    Serde(String),
    TauriPlayer(TauriPlayerError),
}

/// Failure while fetching the zone-with-session snapshot.
#[derive(Debug)]
pub enum FetchAudioZonesError {
    Serde(String),
    TauriPlayer(TauriPlayerError),
}

/// Failure while establishing the push transport.
#[derive(Debug)]
pub enum InitWsError {
    AudioOutputScanner(String),
    Serde(String),
    TauriPlayer(TauriPlayerError),
    CloseWs(CloseWsError),
}

/// Failure while tearing the push transport down.
#[derive(Debug)]
pub enum CloseWsError {
    TauriPlayer(TauriPlayerError),
    Close(CloseError),
    Join(String),
}

/// Failure while discovering remote renderers.
#[derive(Debug)]
pub enum InitUpnpError {
    UpnpDeviceScanner(String),
    TauriPlayer(TauriPlayerError),
    AudioOutput(String),
    RegisterPlayers(RegisterPlayersError),
}

/// Failure of a raw player operation, as the backend reports it.
#[derive(Debug)]
pub enum PlayerErrorKind {
    NoPlayersPlaying,
    Other(String),
}

/// Interpret the outcome of stopping playback: stopping when nothing
/// plays is no failure; every other failure passes through.
pub fn stop_player_result(r: Result<(), PlayerErrorKind>) -> (out: Result<(), PlayerErrorKind>)
    ensures
        r is Ok ==> out is Ok,
        r matches Err(PlayerErrorKind::NoPlayersPlaying) ==> out is Ok,
        r matches Err(PlayerErrorKind::Other(m)) ==> out matches Err(PlayerErrorKind::Other(m2))
            && m2@ == m@,
{
    match r {
        Ok(()) => Ok(()),
        Err(PlayerErrorKind::NoPlayersPlaying) => Ok(()),
        Err(PlayerErrorKind::Other(m)) => Err(PlayerErrorKind::Other(m)),
    }
}

} // verus!
