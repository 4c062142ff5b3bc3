//! The token bridge.
//!
//! A token request is spawned onto the background runtime; the exchange
//! publishes its outcome through a one-shot slot, and the calling thread
//! blocks on that slot with a caller-visible wait bound. The resolution
//! here is deterministic in the observed outcome, and every failure keeps
//! its distinguishable reason instead of collapsing into an absent token.

use vstd::prelude::*;

verus! {

use crate::errors::SpotifyError;
use crate::errors::TokenFailure;
use crate::oneshot::OneShot;

/// The token handed back to the caller.
#[derive(Debug, PartialEq, Eq)]
pub struct AccessToken {
    pub token: String,
    /// The granted scopes, in the order the service listed them.
    pub scope: Vec<String>,
    /// Seconds until the token expires.
    pub expires_in: u32,
}

/// What the host spawns onto the background runtime for one token call.
#[derive(Debug, PartialEq, Eq)]
pub struct TokenRequest {
    pub client_id: String,
    /// The space-delimited scope string, forwarded as given.
    pub scopes: String,
}

/// How the asynchronous exchange resolved.
#[derive(Debug, PartialEq, Eq)]
pub enum TokenExchangeOutcome {
    /// The service granted a token.
    Granted { access_token: String, scope: Vec<String>, expires_in: u32 },
    /// The exchange could not reach the service.
    NetworkError,
    /// The service refused the requested scopes.
    ScopeRejected,
    /// The session backing the exchange is no longer valid.
    SessionExpired,
}

/// What the blocking wait on the one-shot slot observed.
#[derive(Debug, PartialEq, Eq)]
pub enum TokenWait {
    /// The exchange published its outcome in time.
    Resolved(TokenExchangeOutcome),
    /// The caller-visible wait bound elapsed first.
    TimedOut,
    /// The slot's writer went away without publishing an outcome.
    SenderGone,
}

/// The deterministic resolution of one token call: a granted outcome yields
/// a token with exactly the granted contents; every failure carries its
/// reason; a writer lost without an outcome is an internal
/// synchronization failure.
pub open spec fn resolve_token_spec(w: TokenWait) -> Result<AccessToken, SpotifyError> {
    match w {
        TokenWait::Resolved(o) => match o {
            TokenExchangeOutcome::Granted { access_token, scope, expires_in } => Ok(
                AccessToken { token: access_token, scope, expires_in },
            ),
            TokenExchangeOutcome::NetworkError => Err(
                SpotifyError::TokenExchangeFailure(TokenFailure::Network),
            ),
            TokenExchangeOutcome::ScopeRejected => Err(
                SpotifyError::TokenExchangeFailure(TokenFailure::ScopeRejected),
            ),
            TokenExchangeOutcome::SessionExpired => Err(
                SpotifyError::TokenExchangeFailure(TokenFailure::SessionExpired),
            ),
        },
        TokenWait::TimedOut => Err(SpotifyError::TokenExchangeFailure(TokenFailure::TimedOut)),
        TokenWait::SenderGone => Err(SpotifyError::LockContention),
    }
}

/// Turn the observed wait result into the caller's token or error, exactly
/// as `resolve_token_spec` prescribes.
pub fn resolve_token(w: TokenWait) -> (r: Result<AccessToken, SpotifyError>)
    ensures
        r == resolve_token_spec(w),
{
    match w {
        TokenWait::Resolved(o) => match o {
            TokenExchangeOutcome::Granted { access_token, scope, expires_in } => Ok(
                AccessToken { token: access_token, scope, expires_in },
            ),
            TokenExchangeOutcome::NetworkError => Err(
                SpotifyError::TokenExchangeFailure(TokenFailure::Network),
            ),
            TokenExchangeOutcome::ScopeRejected => Err(
                SpotifyError::TokenExchangeFailure(TokenFailure::ScopeRejected),
            ),
            TokenExchangeOutcome::SessionExpired => Err(
                SpotifyError::TokenExchangeFailure(TokenFailure::SessionExpired),
            ),
        },
        TokenWait::TimedOut => Err(SpotifyError::TokenExchangeFailure(TokenFailure::TimedOut)),
        TokenWait::SenderGone => Err(SpotifyError::LockContention),
    }
}

/// What the blocking caller observed once its bounded wait on the one-shot
/// slot ended: a published outcome is taken (exactly once); a slot whose
/// writer is gone, or one wrongly consumed before, is a lost writer; a slot
/// still unwritten means the bound elapsed first.
pub fn observe_token_slot(slot: &mut OneShot<TokenExchangeOutcome>) -> (w: TokenWait)
    ensures
        *old(slot) matches OneShot::Full(o) ==> w == TokenWait::Resolved(o) && *final(slot)
            == OneShot::<TokenExchangeOutcome>::Consumed,
        *old(slot) is Empty ==> w == TokenWait::TimedOut && *final(slot) == *old(slot),
        (*old(slot) is Closed || *old(slot) is Consumed) ==> w == TokenWait::SenderGone
            && *final(slot) == *old(slot),
{
    match slot.recv() {
        Ok(outcome) => TokenWait::Resolved(outcome),
        Err(crate::oneshot::OneShotError::Pending) => TokenWait::TimedOut,
        Err(_) => TokenWait::SenderGone,
    }
}

/// Token resolution is deterministic: identical exchange outcomes resolve
/// to identical tokens (or identical failures), however often the call is
/// repeated.
pub proof fn lemma_token_resolution_deterministic(a: TokenWait, b: TokenWait)
    requires
        a == b,
    ensures
        resolve_token_spec(a) == resolve_token_spec(b),
{
}

} // verus!
