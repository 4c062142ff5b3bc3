//! Session bootstrap.
//!
//! Construction starts a background worker that creates the runtime,
//! publishes its scheduling handle, performs the session handshake, and
//! publishes the session — handle first, then session, each through a
//! one-shot slot. The constructing thread follows the state machine here:
//! it must see the handle before the session, and a worker that fails or
//! terminates early surfaces `BootstrapFailure` instead of hanging the
//! waiter.

use vstd::prelude::*;

verus! {

use crate::errors::SpotifyError;
use crate::oneshot::OneShot;

/// Login credentials handed to the session handshake.
#[derive(Debug, PartialEq, Eq)]
pub struct Credentials {
    pub username: String,
    pub password: String,
}

impl Credentials {
    /// Username/password credentials.
    pub fn with_password(username: String, password: String) -> (r: Credentials)
        ensures
            r.username == username,
            r.password == password,
    {
        Credentials { username, password }
    }
}

/// Where the external session/cache collaborator keeps its on-disk cache.
/// The path is forwarded, never interpreted here.
#[derive(Debug, PartialEq, Eq)]
pub struct CacheConfig {
    pub dir: String,
}

impl CacheConfig {
    /// A cache rooted at `dir`.
    pub fn new(dir: String) -> (r: CacheConfig)
        ensures
            r.dir == dir,
    {
        CacheConfig { dir }
    }
}

/// The background runtime's remote scheduling handle, as the host names it.
#[derive(Clone, Copy, PartialEq, Eq, Structural, Debug)]
pub struct RuntimeHandle {
    pub id: u64,
}

/// The authenticated session, as the host names it. Handle semantics: the
/// same session may be shared by both players and the connect task.
#[derive(Clone, Copy, PartialEq, Eq, Structural, Debug)]
pub struct Session {
    pub id: u64,
}

/// Where the constructing thread stands while the worker comes up.
#[derive(Clone, Copy, PartialEq, Eq, Structural, Debug)]
pub enum BootstrapState {
    /// Waiting for the runtime handle, the first value published.
    AwaitingHandle,
    /// Holding the handle; waiting for the session, the second value.
    AwaitingSession { handle: RuntimeHandle },
    /// Both values arrived; bootstrap succeeded.
    Ready { handle: RuntimeHandle, session: Session },
    /// The worker failed or broke the publish order; bootstrap failed.
    Failed,
}

/// What the waiting thread can observe from the worker.
#[derive(Clone, Copy, PartialEq, Eq, Structural, Debug)]
pub enum BootstrapEvent {
    HandlePublished { handle: RuntimeHandle },
    SessionPublished { session: Session },
    /// The authentication handshake reported an error.
    HandshakeFailed,
    /// The worker thread ended before publishing what was still awaited.
    WorkerTerminated,
}

/// The bootstrap transition relation: the handle must arrive first and the
/// session second; a handshake failure or an early worker exit is terminal;
/// out-of-order publications are a protocol violation and also fail; a
/// finished bootstrap (ready or failed) is never reopened.
pub open spec fn bootstrap_step_spec(s: BootstrapState, ev: BootstrapEvent) -> BootstrapState {
    match s {
        BootstrapState::AwaitingHandle => match ev {
            BootstrapEvent::HandlePublished { handle } => BootstrapState::AwaitingSession {
                handle,
            },
            _ => BootstrapState::Failed,
        },
        BootstrapState::AwaitingSession { handle } => match ev {
            BootstrapEvent::SessionPublished { session } => BootstrapState::Ready {
                handle,
                session,
            },
            _ => BootstrapState::Failed,
        },
        BootstrapState::Ready { .. } => s,
        BootstrapState::Failed => BootstrapState::Failed,
    }
}

/// Advance the bootstrap by one observed event, as `bootstrap_step_spec`
/// prescribes.
pub fn bootstrap_step(s: BootstrapState, ev: BootstrapEvent) -> (r: BootstrapState)
    ensures
        r == bootstrap_step_spec(s, ev),
{
    match s {
        BootstrapState::AwaitingHandle => match ev {
            BootstrapEvent::HandlePublished { handle } => BootstrapState::AwaitingSession {
                handle,
            },
            _ => BootstrapState::Failed,
        },
        BootstrapState::AwaitingSession { handle } => match ev {
            BootstrapEvent::SessionPublished { session } => BootstrapState::Ready {
                handle,
                session,
            },
            _ => BootstrapState::Failed,
        },
        BootstrapState::Ready { handle, session } => BootstrapState::Ready { handle, session },
        BootstrapState::Failed => BootstrapState::Failed,
    }
}

/// What construction returns once waiting is over: both values exactly when
/// the bootstrap reached `Ready`, and the distinguishable
/// `BootstrapFailure` in every other case — never a hang.
pub fn bootstrap_result(s: BootstrapState) -> (r: Result<(RuntimeHandle, Session), SpotifyError>)
    ensures
        s matches BootstrapState::Ready { handle, session } ==> r == Ok::<
            (RuntimeHandle, Session),
            SpotifyError,
        >((handle, session)),
        !(s is Ready) ==> r == Err::<(RuntimeHandle, Session), SpotifyError>(
            SpotifyError::BootstrapFailure,
        ),
    {
    match s {
        BootstrapState::Ready { handle, session } => Ok((handle, session)),
        _ => Err(SpotifyError::BootstrapFailure),
    }
}

/// The constructing thread's double wait, handle first and session second:
/// read the two one-shot slots the worker publishes through. Succeeds with
/// exactly the two published values when both slots were written; any slot
/// still unwritten, abandoned by the worker, or already consumed is the
/// distinguishable `BootstrapFailure` — never a hang.
pub fn bootstrap_from_slots(
    handle_slot: &mut OneShot<RuntimeHandle>,
    session_slot: &mut OneShot<Session>,
) -> (r: Result<(RuntimeHandle, Session), SpotifyError>)
    ensures
        *old(handle_slot) matches OneShot::Full(h) ==> *old(session_slot) matches OneShot::Full(
            s,
        ) ==> r == Ok::<(RuntimeHandle, Session), SpotifyError>((h, s)),
        !(*old(handle_slot) is Full && *old(session_slot) is Full) ==> r == Err::<
            (RuntimeHandle, Session),
            SpotifyError,
        >(SpotifyError::BootstrapFailure),
        *old(handle_slot) is Full ==> *final(handle_slot) == OneShot::<RuntimeHandle>::Consumed,
        (*old(handle_slot) is Full && *old(session_slot) is Full) ==> *final(session_slot)
            == OneShot::<Session>::Consumed,
{
    let handle = match handle_slot.recv() {
        Ok(h) => h,
        Err(_) => {
            return Err(SpotifyError::BootstrapFailure);
        },
    };
    let session = match session_slot.recv() {
        Ok(s) => s,
        Err(_) => {
            return Err(SpotifyError::BootstrapFailure);
        },
    };
    Ok((handle, session))
}

/// The happy path: a handle publication followed by a session publication
/// ends in `Ready` with exactly those two values.
pub proof fn lemma_bootstrap_in_order(h: RuntimeHandle, s: Session)
    ensures
        bootstrap_step_spec(
            bootstrap_step_spec(
                BootstrapState::AwaitingHandle,
                BootstrapEvent::HandlePublished { handle: h },
            ),
            BootstrapEvent::SessionPublished { session: s },
        ) == (BootstrapState::Ready { handle: h, session: s }),
{
}

/// Failure is terminal: no later event resurrects a failed bootstrap.
pub proof fn lemma_bootstrap_failure_is_final(ev: BootstrapEvent)
    ensures
        bootstrap_step_spec(BootstrapState::Failed, ev) == BootstrapState::Failed,
{
}

} // verus!
