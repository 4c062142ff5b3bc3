//! The error taxonomy of the bridge.

use vstd::prelude::*;

verus! {

/// Why a token exchange failed, kept distinguishable for the caller instead
/// of collapsing every failure into an absent token.
#[derive(Clone, Copy, PartialEq, Eq, Structural, Debug)]
pub enum TokenFailure {
    /// The exchange could not reach the service.
    Network,
    /// The service refused the requested scopes.
    ScopeRejected,
    /// The session backing the exchange is no longer valid.
    SessionExpired,
    /// The caller-visible wait bound elapsed before a result arrived.
    TimedOut,
}

/// Every failure the bridge reports to its caller.
#[derive(Clone, Copy, PartialEq, Eq, Structural, Debug)]
pub enum SpotifyError {
    /// The background runtime or the session handshake failed to come up.
    BootstrapFailure,
    /// A track identifier was not a well-formed base62 id.
    InvalidIdentifier,
    /// The engine-side event producer is gone; polling can never succeed again.
    ChannelDisconnected,
    /// An internal synchronization invariant was violated; not recoverable.
    LockContention,
    /// A token exchange failed, with the reason preserved.
    TokenExchangeFailure(TokenFailure),
    /// Connect mode was already active when a second activation was requested.
    ConnectTaskConflict,
}

impl SpotifyError {
    /// The human-readable text of each error.
    pub open spec fn message_spec(self) -> Seq<char> {
        match self {
            SpotifyError::BootstrapFailure => "bootstrap failure"@,
            SpotifyError::InvalidIdentifier => "invalid track identifier"@,
            SpotifyError::ChannelDisconnected => "event channel disconnected"@,
            SpotifyError::LockContention => "internal synchronization failure"@,
            SpotifyError::TokenExchangeFailure(TokenFailure::Network) => "token exchange failed: network error"@,
            SpotifyError::TokenExchangeFailure(TokenFailure::ScopeRejected) => "token exchange failed: scope rejected"@,
            SpotifyError::TokenExchangeFailure(TokenFailure::SessionExpired) => "token exchange failed: session expired"@,
            SpotifyError::TokenExchangeFailure(TokenFailure::TimedOut) => "token exchange failed: timed out"@,
            SpotifyError::ConnectTaskConflict => "a connect task is already active"@,
        }
    }

    /// A description of the error for display by the host.
    pub fn message(&self) -> (r: String)
        ensures
            r@ == self.message_spec(),
    {
        match self {
            SpotifyError::BootstrapFailure => String::from_str("bootstrap failure"),
            SpotifyError::InvalidIdentifier => String::from_str("invalid track identifier"),
            SpotifyError::ChannelDisconnected => String::from_str("event channel disconnected"),
            SpotifyError::LockContention => String::from_str("internal synchronization failure"),
            SpotifyError::TokenExchangeFailure(TokenFailure::Network) => String::from_str(
                "token exchange failed: network error",
            ),
            SpotifyError::TokenExchangeFailure(TokenFailure::ScopeRejected) => String::from_str(
                "token exchange failed: scope rejected",
            ),
            SpotifyError::TokenExchangeFailure(TokenFailure::SessionExpired) => String::from_str(
                "token exchange failed: session expired",
            ),
            SpotifyError::TokenExchangeFailure(TokenFailure::TimedOut) => String::from_str(
                "token exchange failed: timed out",
            ),
            SpotifyError::ConnectTaskConflict => String::from_str(
                "a connect task is already active",
            ),
        }
    }
}

} // verus!
