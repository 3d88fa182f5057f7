//! Session-authenticated call wrapping with a single re-login.
//!
//! Every remote catalog call runs under a session. The engine first offers
//! the host the session deserialized from the account's cached blob; if the
//! call reports the distinguished not-authenticated condition — and only
//! then — it asks the host to log in with the stored credentials and offers
//! the call once more under the fresh session. Any other failure, and any
//! failure after the one re-login, propagates at once, so one wrapped call
//! never attempts more than one login. On success the session, possibly
//! updated by the call, is serialized and handed back for persistence.

use vstd::prelude::*;

use std::sync::Arc;

verus! {

#[verifier::external_type_specification]
#[verifier::external_body]
pub struct ExCookieStoreMutex(reqwest_cookie_store::CookieStoreMutex);

/// Whether a serialized session blob deserializes into a cookie store.
/// Deserialization reads the text alone, so success is a function of it.
pub uninterp spec fn session_blob_parses(blob: Seq<char>) -> bool;

/// A handle to one live session: the cookie store that authenticated
/// remote calls are made through.
pub struct SessionHandle {
    pub store: Arc<reqwest_cookie_store::CookieStoreMutex>,
}

/// Relies on cookie_store::CookieStore::load_json, re-exported by
/// reqwest_cookie_store: reading from an in-memory buffer, it returns a
/// store exactly when every line of the blob parses as a serialized cookie,
/// which depends on the text alone; expiry only filters cookies out of the
/// returned store.
#[allow(deprecated)]
#[verifier::external_body]
fn parse_session_blob(blob: &str) -> (r: Option<SessionHandle>)
    ensures
        r is Some <==> session_blob_parses(blob@),
{
    match reqwest_cookie_store::CookieStore::load_json(blob.as_bytes()) {
        Ok(store) => Some(
            SessionHandle { store: Arc::new(reqwest_cookie_store::CookieStoreMutex::new(store)) },
        ),
        Err(_) => None,
    }
}

/// Relies on reqwest_cookie_store::CookieStoreMutex::lock and
/// cookie_store::CookieStore::save_json: serializes the store's current
/// unexpired persistent cookies, one JSON line each. The output depends on
/// when it runs, so nothing is claimed of it; `None` on a poisoned lock or
/// a serialization fault.
#[allow(deprecated)]
#[verifier::external_body]
fn serialize_session(session: &SessionHandle) -> (r: Option<String>) {
    let store = match session.store.lock() {
        Ok(guard) => guard,
        Err(_) => {
            return None;
        },
    };
    let mut buf: Vec<u8> = Vec::new();
    if store.save_json(&mut buf).is_err() {
        return None;
    }
    String::from_utf8(buf).ok()
}

/// Relies on std::sync::Arc::clone: both handles share one cookie store.
#[verifier::external_body]
fn clone_session(session: &SessionHandle) -> (r: SessionHandle) {
    SessionHandle { store: Arc::clone(&session.store) }
}

/// Where one wrapped call stands.
#[derive(Clone, Copy, PartialEq, Eq, Structural, Debug)]
pub enum AuthPhase {
    /// The wrapped operation is running under the cached session.
    CachedOp,
    /// The host is logging in with the stored credentials.
    LoggingIn,
    /// The wrapped operation is running under the fresh session.
    FreshOp,
    /// The call ended, one way or the other.
    Done,
}

/// Why a wrapped call failed.
#[derive(Clone, Copy, PartialEq, Eq, Structural, Debug)]
pub enum AuthError {
    /// The account has no cached session that works and no stored
    /// credentials to log in with.
    NoCredentials,
    /// The session that should be persisted did not serialize.
    SessionSerializeFailed,
    /// The operation or the login failed for a reason of its own, to be
    /// propagated as it is.
    Propagate,
}

/// What the host must do next.
pub enum AuthAction {
    /// Run the wrapped operation with this session.
    RunOp { session: SessionHandle },
    /// Fetch the stored credentials and log in; report back the outcome.
    Login,
    /// Persist this session blob for the account, then return the
    /// operation's result.
    PersistAndFinish { blob: String },
    /// The call failed: surface this fault.
    Fail { error: AuthError },
}

/// How the wrapped operation ended, as the host reports it.
#[derive(Clone, Copy, PartialEq, Eq, Structural, Debug)]
pub enum OpOutcome {
    /// The operation succeeded.
    Succeeded,
    /// The operation raised the distinguished not-authenticated condition.
    NotAuthenticated,
    /// The operation failed in any other way.
    Failed,
}

/// The retry state of one wrapped call.
pub struct SessionEngine {
    phase: AuthPhase,
    session: Option<SessionHandle>,
    logins: u8,
}

impl SessionEngine {
    /// Where the call stands.
    pub closed spec fn phase(&self) -> AuthPhase {
        self.phase
    }

    /// How many logins the engine has asked for.
    pub closed spec fn logins(&self) -> int {
        self.logins as int
    }

    pub closed spec fn wf(&self) -> bool {
        &&& self.logins <= 1
        &&& self.phase is CachedOp ==> self.logins == 0 && self.session is Some
        &&& self.phase is FreshOp ==> self.logins == 1 && self.session is Some
        &&& self.phase is LoggingIn ==> self.logins == 1
    }

    /// Opens a wrapped call given the account's cached session blob: when
    /// the blob is there and deserializes, the operation runs under it;
    /// otherwise the engine goes straight to the one login.
    pub fn begin(cached_blob: Option<&str>) -> (r: (Self, AuthAction))
        ensures
            r.0.wf(),
            (match cached_blob {
                Some(blob) => session_blob_parses(blob@),
                None => false,
            }) ==> r.0.phase() is CachedOp && r.1 is RunOp && r.0.logins() == 0,
            !(match cached_blob {
                Some(blob) => session_blob_parses(blob@),
                None => false,
            }) ==> r.0.phase() is LoggingIn && r.1 is Login && r.0.logins() == 1,
    {
        match cached_blob {
            Some(blob) => {
                match parse_session_blob(blob) {
                    Some(session) => {
                        let out = clone_session(&session);
                        (
                            SessionEngine {
                                phase: AuthPhase::CachedOp,
                                session: Some(session),
                                logins: 0,
                            },
                            AuthAction::RunOp { session: out },
                        )
                    },
                    None => (
                        SessionEngine { phase: AuthPhase::LoggingIn, session: None, logins: 1 },
                        AuthAction::Login,
                    ),
                }
            },
            None => (
                SessionEngine { phase: AuthPhase::LoggingIn, session: None, logins: 1 },
                AuthAction::Login,
            ),
        }
    }

    /// Takes the outcome of the wrapped operation. Success serializes the
    /// session the operation ran under — possibly updated by it — for
    /// persistence. The not-authenticated condition moves a cached-session
    /// run to the one login, and fails a fresh-session run outright; every
    /// other failure propagates at once.
    pub fn offer_op_result(&mut self, outcome: OpOutcome) -> (r: AuthAction)
        requires
            old(self).wf(),
            old(self).phase() is CachedOp || old(self).phase() is FreshOp,
        ensures
            final(self).wf(),
            outcome is Succeeded ==> final(self).phase() is Done && final(self).logins() == old(self).logins() && (r is PersistAndFinish || (r matches AuthAction::Fail { error }
                && error is SessionSerializeFailed)),
            outcome is NotAuthenticated && old(self).phase() is CachedOp ==> final(self).phase() is LoggingIn && r is Login && final(self).logins() == old(self).logins() + 1,
            outcome is NotAuthenticated && old(self).phase() is FreshOp ==> final(self).phase() is Done && final(self).logins() == old(self).logins() && (
            r matches AuthAction::Fail { error } && error is Propagate),
            outcome is Failed ==> final(self).phase() is Done && final(self).logins() == old(self).logins() && (r matches AuthAction::Fail { error } && error is Propagate),
            r is Login ==> old(self).logins() == 0 && final(self).logins() == 1,
    {
        match outcome {
            OpOutcome::Succeeded => {
                self.phase = AuthPhase::Done;
                let session = self.session.as_ref().unwrap();
                match serialize_session(session) {
                    Some(blob) => AuthAction::PersistAndFinish { blob },
                    None => AuthAction::Fail { error: AuthError::SessionSerializeFailed },
                }
            },
            OpOutcome::NotAuthenticated => {
                if self.logins == 0 {
                    self.phase = AuthPhase::LoggingIn;
                    self.session = None;
                    self.logins = 1;
                    AuthAction::Login
                } else {
                    self.phase = AuthPhase::Done;
                    AuthAction::Fail { error: AuthError::Propagate }
                }
            },
            OpOutcome::Failed => {
                self.phase = AuthPhase::Done;
                AuthAction::Fail { error: AuthError::Propagate }
            },
        }
    }

    /// Takes a successful login: the operation now runs under the fresh
    /// session.
    pub fn offer_login_ok(&mut self, session: SessionHandle) -> (r: AuthAction)
        requires
            old(self).wf(),
            old(self).phase() is LoggingIn,
        ensures
            final(self).wf(),
            final(self).logins() == old(self).logins(),
            final(self).phase() is FreshOp,
            r is RunOp,
    {
        let out = clone_session(&session);
        self.session = Some(session);
        self.phase = AuthPhase::FreshOp;
        AuthAction::RunOp { session: out }
    }

    /// Takes a failed login call: its error propagates, with no further
    /// attempt.
    pub fn offer_login_failed(&mut self) -> (r: AuthAction)
        requires
            old(self).wf(),
            old(self).phase() is LoggingIn,
        ensures
            final(self).wf(),
            final(self).logins() == old(self).logins(),
            final(self).phase() is Done,
            r matches AuthAction::Fail { error } && error is Propagate,
    {
        self.phase = AuthPhase::Done;
        AuthAction::Fail { error: AuthError::Propagate }
    }

    /// Takes the report that the account stores no credentials: the call
    /// fails as one against an account with nothing usable.
    pub fn offer_no_credentials(&mut self) -> (r: AuthAction)
        requires
            old(self).wf(),
            old(self).phase() is LoggingIn,
        ensures
            final(self).wf(),
            final(self).logins() == old(self).logins(),
            final(self).phase() is Done,
            r matches AuthAction::Fail { error } && error is NoCredentials,
    {
        self.phase = AuthPhase::Done;
        AuthAction::Fail { error: AuthError::NoCredentials }
    }
}

/// Auth retry bound: a wrapped call never asks for a second login. The one
/// login permission is spent when the login action is emitted — at opening,
/// or when the cached session turns out revoked — and no transition restores
/// it, so a session that always reports the not-authenticated condition sees
/// exactly one login attempt and then a terminal failure.
pub proof fn lemma_login_at_most_once(engine: SessionEngine)
    requires
        engine.wf(),
    ensures
        engine.logins() <= 1,
{
}

} // verus!
