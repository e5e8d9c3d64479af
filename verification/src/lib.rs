//! Client-side core of a multi-device audio playback coordination protocol.
//!
//! A desktop process keeps a live view of playback sessions owned by a remote
//! server and keeps a dynamic set of local players synchronized with that
//! view.  This crate holds the verified heart of that client: the data model,
//! the reconnect and keep-alive decision logic of the push transport, the
//! message router, the session/zone registry, the player lifecycle manager,
//! and the reconciliation engine that applies session deltas to players.
//!
//! All I/O (sockets, HTTP, spawning) lives in the surrounding host program;
//! the functions here compute decisions and state transitions over plain
//! values and are verified against their contracts.

pub mod context;
pub mod convert;
pub mod errors;
pub mod lifecycle;
pub mod media;
pub mod models;
pub mod outbox;
pub mod player;
pub mod protocol;
pub mod reconcile;
pub mod registry;
pub mod router;
pub mod transport;
