//! The player's error taxonomy. Transport-level failures keep the error
//! the network layer produced and stay with the glue code; everything the
//! core decides on is one of these.
use vstd::prelude::*;

verus! {

/// What can go wrong inside the player.
#[derive(Clone, Copy, Debug, PartialEq, Eq, Structural)]
pub enum RadicoError {
    /// The user interrupted the operation.
    OperationInterrupted,
    /// No station matched, or the station list was empty.
    StationError,
    /// Retries exhausted on a bad upstream status.
    ClientError,
    /// The playlist lookup produced nothing usable.
    PlaylistError,
    /// The interactive selection failed.
    InquireError,
    /// The authentication handshake failed.
    AuthError,
    /// The upstream refused the listing.
    Forbidden,
    /// A pacing sample carried a negative arrival latency (milliseconds).
    NegativeTime(i64),
    /// Orderly shutdown.
    Quit,
    /// The user cancelled a prompt.
    Cancel,
}

impl RadicoError {
    /// A short description of the error.
    pub fn message(&self) -> (m: &'static str)
        ensures
            m@ == match *self {
                RadicoError::OperationInterrupted => "Operation was interrupted by the user"@,
                RadicoError::StationError => "Station error"@,
                RadicoError::ClientError => "Client error"@,
                RadicoError::PlaylistError => "Playlist error"@,
                RadicoError::InquireError => "Inquire Error"@,
                RadicoError::AuthError => "Auth Error"@,
                RadicoError::Forbidden => "Forbidden"@,
                RadicoError::NegativeTime(_) => "Local time is negative"@,
                RadicoError::Quit => "Quit"@,
                RadicoError::Cancel => "Cancel"@,
            },
    {
        match self {
            RadicoError::OperationInterrupted => "Operation was interrupted by the user",
            RadicoError::StationError => "Station error",
            RadicoError::ClientError => "Client error",
            RadicoError::PlaylistError => "Playlist error",
            RadicoError::InquireError => "Inquire Error",
            RadicoError::AuthError => "Auth Error",
            RadicoError::Forbidden => "Forbidden",
            RadicoError::NegativeTime(_) => "Local time is negative",
            RadicoError::Quit => "Quit",
            RadicoError::Cancel => "Cancel",
        }
    }
}

} // verus!
