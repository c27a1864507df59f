//! The session-lifecycle state machine: at most one active session,
//! kept consistent with an unreliable remote service and a local
//! persistence store.
//!
//! The protocol has two critical sections per call, with no network
//! work inside either. For `start`: check that no session is active
//! (`check_can_start`), then — outside any lock — let the remote call
//! run and turn its outcome into a session identity
//! (`resolve_start_outcome`), then persist and install the session
//! (`commit_start`). For `end`: read the active session
//! (`read_active_session`), report to the remote service outside the
//! locks (its failure is ignored), then delete the record and clear the
//! state (`commit_end`). The caller performs the network and storage
//! I/O between the steps and passes their outcomes in as plain values,
//! so every decision of the protocol is checked here.

use vstd::prelude::*;

verus! {

/// A session identity, tagged by its origin: issued by the remote
/// service, or generated locally when the service was unreachable.
#[derive(Debug, PartialEq, Eq)]
pub enum SessionId {
    Remote(String),
    Local(String),
}

/// The active session: its identity, the task it is for, and when it
/// started, in seconds since the Unix epoch.
#[derive(Debug)]
pub struct ActiveSessionInfo {
    pub session_id: SessionId,
    pub task_id: Option<String>,
    pub start_time_s: u64,
}

/// The errors the lifecycle manager surfaces. Remote failures are never
/// among them: `start` falls back to a local session and `end` ignores
/// them.
#[derive(Debug, PartialEq, Eq, Structural)]
pub enum SessionError {
    /// `start` was called while a session is active.
    AlreadyActive,
    /// `end` was called with no session active.
    NoActiveSession,
    /// The persistence store failed; in-memory state is left unchanged
    /// so that it never diverges from the persisted record.
    PersistenceFailure,
}

/// The raw body of a successful remote start call: the issued session
/// id and the start time as an RFC 3339 string, still unparsed.
#[derive(Debug)]
pub struct StartResponse {
    pub session_id: String,
    pub start_time: String,
}

/// What chrono's RFC 3339 parser yields for a string: the represented
/// instant in seconds since the Unix epoch, or nothing when the string
/// is not a valid RFC 3339 date-and-time.
pub uninterp spec fn rfc3339_unix_seconds(s: Seq<char>) -> Option<i64>;

/// A remote start response whose timestamp parses to a representable
/// (non-negative) instant; anything else counts as malformed and is
/// treated like an unreachable service.
pub open spec fn response_time_valid(resp: StartResponse) -> bool {
    match rfc3339_unix_seconds(resp.start_time@) {
        Some(ts) => ts >= 0,
        None => false,
    }
}

/// The instant of a valid remote start response, in seconds.
pub open spec fn response_time_s(resp: StartResponse) -> int {
    match rfc3339_unix_seconds(resp.start_time@) {
        Some(ts) => ts as int,
        None => 0,
    }
}

/// Relies on chrono's `DateTime::parse_from_rfc3339` and
/// `DateTime::timestamp`: parsing an RFC 3339 string and taking its
/// Unix-seconds value is a function of the string alone.
#[verifier::external_body]
fn parse_rfc3339_unix_seconds(s: &str) -> (r: Option<i64>)
    ensures
        r == rfc3339_unix_seconds(s@),
{
    match chrono::DateTime::parse_from_rfc3339(s) {
        Ok(dt) => Some(dt.timestamp()),
        Err(_) => None,
    }
}

/// Relies on uuid's `Uuid::new_v4` and its `Display` impl: a random
/// version-4 UUID renders as the 36-character hyphenated lowercase
/// form. Nothing is promised of which UUID comes back.
#[verifier::external_body]
fn new_local_uuid() -> (r: String)
    ensures
        r@.len() == 36,
{
    uuid::Uuid::new_v4().to_string()
}

/// A locally originated session identity: used whenever the remote
/// service could not supply one.
fn local_fallback(task_id: Option<String>, local_now_s: u64) -> (info: ActiveSessionInfo)
    ensures
        info.session_id is Local,
        info.task_id == task_id,
        info.start_time_s == local_now_s,
{
    ActiveSessionInfo {
        session_id: SessionId::Local(new_local_uuid()),
        task_id,
        start_time_s: local_now_s,
    }
}

/// Turns the outcome of the remote start call into the session
/// identity. A successful response with a well-formed timestamp yields
/// a remote-tagged session with the remote-reported start time; any
/// failure — no response, or a response whose timestamp does not parse
/// — yields a locally tagged session starting at `local_now_s`, so that
/// an unreachable service never prevents a session from starting.
pub fn resolve_start_outcome(
    remote: Option<StartResponse>,
    task_id: Option<String>,
    local_now_s: u64,
) -> (info: ActiveSessionInfo)
    ensures
        info.task_id == task_id,
        match remote {
            Some(resp) => {
                if response_time_valid(resp) {
                    &&& info.session_id == SessionId::Remote(resp.session_id)
                    &&& info.start_time_s as int == response_time_s(resp)
                } else {
                    &&& info.session_id is Local
                    &&& info.start_time_s == local_now_s
                }
            },
            None => {
                &&& info.session_id is Local
                &&& info.start_time_s == local_now_s
            },
        },
{
    match remote {
        Some(resp) => {
            match parse_rfc3339_unix_seconds(resp.start_time.as_str()) {
                Some(ts) => {
                    if ts >= 0 {
                        ActiveSessionInfo {
                            session_id: SessionId::Remote(resp.session_id),
                            task_id,
                            start_time_s: ts as u64,
                        }
                    } else {
                        local_fallback(task_id, local_now_s)
                    }
                },
                None => local_fallback(task_id, local_now_s),
            }
        },
        None => local_fallback(task_id, local_now_s),
    }
}

/// Owner of the single active-session slot. The caller holds its lock
/// around each method call and never across network work.
pub struct SessionLifecycleManager {
    active: Option<ActiveSessionInfo>,
}

impl SessionLifecycleManager {
    /// The active session, as visible to contracts.
    pub closed spec fn spec_active(&self) -> Option<ActiveSessionInfo> {
        self.active
    }

    /// The decision `check_can_start` owes for a given state.
    pub open spec fn spec_check_can_start(&self) -> Result<(), SessionError> {
        if self.spec_active() is None {
            Ok(())
        } else {
            Err(SessionError::AlreadyActive)
        }
    }

    /// The state after `commit_start`: the session is installed exactly
    /// when the record was persisted.
    pub closed spec fn spec_after_commit_start(
        &self,
        info: ActiveSessionInfo,
        persisted: bool,
    ) -> SessionLifecycleManager {
        if persisted {
            SessionLifecycleManager { active: Some(info) }
        } else {
            *self
        }
    }

    /// The state after `commit_end`: the session is cleared exactly
    /// when the persisted record was deleted.
    pub closed spec fn spec_after_commit_end(&self, deleted: bool) -> SessionLifecycleManager {
        if deleted {
            SessionLifecycleManager { active: None }
        } else {
            *self
        }
    }

    /// A fresh manager with no session.
    pub fn new() -> (r: Self)
        ensures
            r.spec_active() is None,
    {
        SessionLifecycleManager { active: None }
    }

    /// The pre-network check of `start`: succeeds exactly when no
    /// session is active; otherwise the call is rejected with
    /// `AlreadyActive`. A best-effort check only — the slot may change
    /// while the subsequent network call is in flight.
    pub fn check_can_start(&self) -> (r: Result<(), SessionError>)
        ensures
            r == self.spec_check_can_start(),
    {
        match &self.active {
            None => Ok(()),
            Some(_) => Err(SessionError::AlreadyActive),
        }
    }

    /// The post-network commit of `start`: `persisted` says whether the
    /// caller's write of the session record succeeded. On success the
    /// session is installed; on failure nothing changes and the call
    /// surfaces `PersistenceFailure`, so memory and storage never
    /// diverge.
    pub fn commit_start(&mut self, info: ActiveSessionInfo, persisted: bool) -> (r: Result<
        (),
        SessionError,
    >)
        ensures
            *final(self) == old(self).spec_after_commit_start(info, persisted),
            persisted ==> final(self).spec_active() == Some(info) && r is Ok,
            !persisted ==> *final(self) == *old(self) && r == Err::<(), SessionError>(
                SessionError::PersistenceFailure,
            ),
    {
        if persisted {
            self.active = Some(info);
            Ok(())
        } else {
            Err(SessionError::PersistenceFailure)
        }
    }

    /// The pre-network step of `end`: a borrow of the active session,
    /// or `NoActiveSession` when there is none. Reading never mutates
    /// state and asks for no persistence work.
    pub fn read_active_session(&self) -> (r: Result<&ActiveSessionInfo, SessionError>)
        ensures
            match r {
                Ok(info) => self.spec_active() == Some(*info),
                Err(e) => self.spec_active() is None && e == SessionError::NoActiveSession,
            },
    {
        match &self.active {
            Some(info) => Ok(info),
            None => Err(SessionError::NoActiveSession),
        }
    }

    /// The post-network commit of `end`: `deleted` says whether the
    /// caller's delete of the persisted record succeeded. On success
    /// the in-memory session is cleared; on failure nothing changes and
    /// the call surfaces `PersistenceFailure`.
    pub fn commit_end(&mut self, deleted: bool) -> (r: Result<(), SessionError>)
        ensures
            *final(self) == old(self).spec_after_commit_end(deleted),
            deleted ==> final(self).spec_active() is None && r is Ok,
            !deleted ==> *final(self) == *old(self) && r == Err::<(), SessionError>(
                SessionError::PersistenceFailure,
            ),
    {
        if deleted {
            self.active = None;
            Ok(())
        } else {
            Err(SessionError::PersistenceFailure)
        }
    }
}

/// Law: at most one session at a time. After a `start` has committed
/// with a persisted record — whatever session identity the remote
/// outcome produced — the pre-check of a second `start` on that state
/// is `AlreadyActive`, never `Ok`.
pub proof fn lemma_second_start_rejected(m: SessionLifecycleManager, info: ActiveSessionInfo)
    ensures
        m.spec_after_commit_start(info, true).spec_check_can_start() == Err::<(), SessionError>(
            SessionError::AlreadyActive,
        ),
{
}

/// Law: the round trip. A committed `start` followed by a committed
/// `end` leaves the manager at no-session, from any starting state and
/// for any session identity — so for any remote outcome of either
/// call, since remote failures only choose the identity (`start`) or
/// are ignored (`end`), never whether the cycle completes.
pub proof fn lemma_start_end_round_trip(m: SessionLifecycleManager, info: ActiveSessionInfo)
    ensures
        m.spec_after_commit_start(info, true).spec_after_commit_end(true).spec_active() is None,
        m.spec_after_commit_start(info, true).spec_after_commit_end(
            true,
        ).spec_check_can_start() is Ok,
{
}

} // verus!
