//! The engine's error taxonomy.
//!
//! Policy rejections are never retried and surface as they are; protocol and
//! version mismatches end a negotiation; exhaustion of every candidate server
//! is its own terminal outcome; verification failures are recorded and
//! skipped rather than aborting a whole snapshot; and a failure to sign or
//! serialize locally built content signals a bug, not an environmental
//! condition.

use vstd::prelude::*;

verus! {

/// Everything a membership operation can fail with.
#[derive(Clone, Copy, Debug, PartialEq, Eq, Structural)]
pub enum EngineError {
    /// The room is banned on this server.
    BannedRoom,
    /// The room's or target server is banned on this server.
    BannedServer,
    /// The sender may not perform this operation.
    Forbidden,
    /// Invites are switched off for non-admins on this server.
    InvitesBlocked,
    /// The target of the operation was not found.
    NotFound,
    /// The user has no membership record that the operation needs.
    BadState,
    /// A stored membership record could not be read back.
    BadDatabase,
    /// The room must be left before it can be forgotten.
    MustLeaveFirst,
    /// The room version is outside the supported set.
    UnsupportedRoomVersion,
    /// A remote server's response was malformed or unusable.
    BadServerResponse,
    /// A response event could not be read as canonical JSON.
    BadCanonicalJson,
    /// A remote server answered with an event under the wrong event id.
    EventIdMismatch,
    /// Every candidate server failed to assist.
    NoServerAvailable,
    /// The event is still under its bad-event backoff delay.
    BackedOff,
    /// The event's signatures could not be verified.
    VerificationFailed,
    /// A required request field was missing or invalid.
    InvalidParam,
    /// Locally built content failed to serialize or sign: a bug in the
    /// engine, surfaced instead of a panic.
    InternalInvariant,
}

impl EngineError {
    /// A short description, in place of a `Display` impl.
    pub fn message(&self) -> &'static str {
        match self {
            EngineError::BannedRoom => "This room is banned on this homeserver.",
            EngineError::BannedServer => "This remote server is banned on this homeserver.",
            EngineError::Forbidden => "You don't have permission for this operation.",
            EngineError::InvitesBlocked => "Invites are not allowed on this server.",
            EngineError::NotFound => "Not found.",
            EngineError::BadState => "The user's membership does not allow this operation.",
            EngineError::BadDatabase => "Invalid member event in database.",
            EngineError::MustLeaveFirst => "You must leave the room before forgetting it.",
            EngineError::UnsupportedRoomVersion => "Room version is not supported.",
            EngineError::BadServerResponse => "Invalid response received from server.",
            EngineError::BadCanonicalJson => "Could not convert event to canonical json.",
            EngineError::EventIdMismatch => "Server sent event with wrong event id.",
            EngineError::NoServerAvailable => "No server available to assist.",
            EngineError::BackedOff => "Bad event, still backing off.",
            EngineError::VerificationFailed => "Event failed verification.",
            EngineError::InvalidParam => "Invalid request parameter.",
            EngineError::InternalInvariant => "Locally built event was not signable.",
        }
    }
}

} // verus!
