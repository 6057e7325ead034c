use vstd::prelude::*;
use crate::models::RefreshTokenResponse;
use crate::user_config::{UserConfig, is_signed_out};

verus! {

/// Where the session stands in its refresh protocol.
#[derive(Clone, Copy, Debug, PartialEq, Eq, Structural)]
pub enum SessionState {
    /// Calls may be made. `refresh_attempted` is the single-shot guard: once
    /// set it never clears for the rest of the process.
    Ready { refresh_attempted: bool },
    /// The refresh endpoint has been asked for new tokens; nothing else may
    /// happen until its answer is in.
    RefreshPending,
    /// Terminal: the user must sign in again.
    Reauthenticating,
}

/// How a remote call came back.
#[derive(Clone, Copy, Debug, PartialEq, Eq, Structural)]
pub enum CallOutcome {
    /// The server answered with this HTTP status.
    Status(u16),
    /// No answer: the connection failed or timed out.
    TransportFailed,
}

/// Failures of a remote call that reach the caller.
#[derive(Clone, Copy, Debug, PartialEq, Eq, Structural)]
pub enum ApiError {
    /// Connection-level failure; never retried.
    Transport,
    /// The body did not have the expected shape; never retried.
    Protocol,
    /// Any other non-success status.
    Remote { status: u16 },
    /// Authorization could not be recovered: the user must sign in again.
    ReauthenticationRequired,
}

/// What the caller must do next for the call in flight.
#[derive(Clone, Debug)]
pub enum CallStep {
    /// The call succeeded: parse its payload (a parse failure is `ApiError::Protocol`).
    Deliver,
    /// Ask the refresh endpoint for new tokens, presenting this refresh token.
    Refresh { refresh_token: String },
    /// Persist the session first, then issue the same call once more with this token.
    SaveSessionAndRetry { access_token: String },
    /// Clear the persisted session and stop: the user must sign in again.
    Reauthenticate,
    /// The call failed with this error.
    Fail(ApiError),
}

/// The shape of a `CallStep`, without its data.
#[derive(Clone, Copy, Debug, PartialEq, Eq, Structural)]
pub enum StepKind {
    Deliver,
    Refresh,
    SaveSessionAndRetry,
    Reauthenticate,
    Fail,
}

pub open spec fn kind_of(s: CallStep) -> StepKind {
    match s {
        CallStep::Deliver => StepKind::Deliver,
        CallStep::Refresh { .. } => StepKind::Refresh,
        CallStep::SaveSessionAndRetry { .. } => StepKind::SaveSessionAndRetry,
        CallStep::Reauthenticate => StepKind::Reauthenticate,
        CallStep::Fail(_) => StepKind::Fail,
    }
}

/// One thing that can happen to a session.
#[derive(Clone, Copy, Debug, PartialEq, Eq, Structural)]
pub enum AuthEvent {
    /// A call (first or repeated) came back.
    Call(CallOutcome),
    /// The refresh endpoint handed out new tokens.
    RefreshSucceeded,
    /// The refresh endpoint failed in any way.
    RefreshFailed,
}

/// The part of a session that decides what happens next.
pub struct AuthControl {
    pub state: SessionState,
    pub has_refresh_token: bool,
}

pub open spec fn reauth_control() -> AuthControl {
    AuthControl { state: SessionState::Reauthenticating, has_refresh_token: false }
}

/// The refresh protocol as a transition function.
pub open spec fn auth_step(c: AuthControl, e: AuthEvent) -> (AuthControl, StepKind) {
    match c.state {
        SessionState::Reauthenticating => (reauth_control(), StepKind::Reauthenticate),
        SessionState::Ready { refresh_attempted } => match e {
            AuthEvent::Call(CallOutcome::Status(s)) => if s == 200 {
                (c, StepKind::Deliver)
            } else if s == 401 {
                if refresh_attempted || !c.has_refresh_token {
                    (reauth_control(), StepKind::Reauthenticate)
                } else {
                    (
                        AuthControl { state: SessionState::RefreshPending, has_refresh_token: true },
                        StepKind::Refresh,
                    )
                }
            } else {
                (c, StepKind::Fail)
            },
            AuthEvent::Call(CallOutcome::TransportFailed) => (c, StepKind::Fail),
            _ => (c, StepKind::Fail),
        },
        SessionState::RefreshPending => match e {
            AuthEvent::RefreshSucceeded => (
                AuthControl {
                    state: SessionState::Ready { refresh_attempted: true },
                    has_refresh_token: true,
                },
                StepKind::SaveSessionAndRetry,
            ),
            AuthEvent::RefreshFailed => (reauth_control(), StepKind::Reauthenticate),
            _ => (c, StepKind::Fail),
        },
    }
}

/// How many refresh calls a run of events makes, starting from `c`.
pub open spec fn refreshes_in(c: AuthControl, events: Seq<AuthEvent>) -> nat
    decreases events.len(),
{
    if events.len() == 0 {
        0
    } else {
        let (next, kind) = auth_step(c, events[0]);
        (if kind == StepKind::Refresh { 1nat } else { 0nat }) + refreshes_in(next, events.drop_first())
    }
}

/// How many refresh calls a session in control `c` may still make.
pub open spec fn refresh_budget(c: AuthControl) -> nat {
    match c.state {
        SessionState::Ready { refresh_attempted } => if refresh_attempted { 0 } else { 1 },
        _ => 0,
    }
}

/// At most one refresh is ever attempted: over any run of events, a session
/// whose guard is still clear makes at most one refresh call, and one whose
/// guard is set (or that is past its refresh) makes none.
pub proof fn lemma_at_most_one_refresh(c: AuthControl, events: Seq<AuthEvent>)
    ensures
        refreshes_in(c, events) <= refresh_budget(c),
    decreases events.len(),
{
    if events.len() > 0 {
        let (next, kind) = auth_step(c, events[0]);
        lemma_at_most_one_refresh(next, events.drop_first());
    }
}

/// After one refresh attempt, an authorization failure always ends in forced
/// re-authentication, never in a second refresh call.
pub proof fn lemma_second_unauthorized_reauthenticates(c: AuthControl)
    requires
        c.state == (SessionState::Ready { refresh_attempted: true }),
    ensures
        auth_step(c, AuthEvent::Call(CallOutcome::Status(401))) == (
        reauth_control(),
        StepKind::Reauthenticate,
    ),
{
}

/// The signed-in user's session, owned by the client for one process.
#[derive(Clone, Debug)]
pub struct Session {
    pub config: UserConfig,
    pub state: SessionState,
}

impl Session {
    pub open spec fn control(&self) -> AuthControl {
        AuthControl {
            state: self.state,
            has_refresh_token: self.config.user.refresh_token is Some,
        }
    }

    /// A session over the stored user record; no refresh attempted yet.
    pub fn new(config: UserConfig) -> (r: Session)
        ensures
            r.config == config,
            r.state == (SessionState::Ready { refresh_attempted: false }),
    {
        Session { config, state: SessionState::Ready { refresh_attempted: false } }
    }

    /// Whether a refresh has been attempted in this process.
    pub fn refresh_attempted(&self) -> (r: bool)
        ensures
            r == match self.state {
                SessionState::Ready { refresh_attempted } => refresh_attempted,
                _ => true,
            },
    {
        match self.state {
            SessionState::Ready { refresh_attempted } => refresh_attempted,
            _ => true,
        }
    }

    /// The credential to attach to the next call: the access token, while the
    /// session is ready and holds one.
    pub fn authorization(&self) -> (r: Option<String>)
        ensures
            r == (if self.state is Ready { self.config.user.access_token } else { None::<String> }),
    {
        match self.state {
            SessionState::Ready { .. } => self.config.user.access_token.clone(),
            _ => None,
        }
    }

    /// Ends the session for good: the user record is emptied and the user
    /// must sign in again.
    pub fn force_reauthentication(&mut self)
        ensures
            final(self).state == SessionState::Reauthenticating,
            is_signed_out(final(self).config.user),
            final(self).config.config_path == old(self).config.config_path,
    {
        self.config.clear();
        self.state = SessionState::Reauthenticating;
    }

    /// Decides what follows a call's outcome. A 401 leads to the one refresh
    /// the process may make, or to re-authentication once that is spent.
    pub fn on_response(&mut self, outcome: CallOutcome) -> (r: CallStep)
        requires
            !(old(self).state is RefreshPending),
        ensures
            (final(self).control(), kind_of(r)) == auth_step(old(self).control(), AuthEvent::Call(outcome)),
            r is Refresh ==> old(self).config.user.refresh_token == Some(r->refresh_token),
            r is Refresh || r is Deliver || r is Fail ==> final(self).config == old(self).config,
            r is Reauthenticate ==> is_signed_out(final(self).config.user)
                && final(self).config.config_path == old(self).config.config_path,
            r is Fail ==> r->Fail_0 == match outcome {
                CallOutcome::Status(s) => ApiError::Remote { status: s },
                CallOutcome::TransportFailed => ApiError::Transport,
            },
    {
        match self.state {
            SessionState::Reauthenticating => {
                self.force_reauthentication();
                CallStep::Reauthenticate
            },
            SessionState::Ready { refresh_attempted } => match outcome {
                CallOutcome::TransportFailed => CallStep::Fail(ApiError::Transport),
                CallOutcome::Status(s) => {
                    if s == 200 {
                        CallStep::Deliver
                    } else if s == 401 {
                        if refresh_attempted {
                            self.force_reauthentication();
                            CallStep::Reauthenticate
                        } else {
                            match self.config.user.refresh_token.clone() {
                                Some(t) => {
                                    self.state = SessionState::RefreshPending;
                                    CallStep::Refresh { refresh_token: t }
                                },
                                None => {
                                    self.force_reauthentication();
                                    CallStep::Reauthenticate
                                },
                            }
                        }
                    } else {
                        CallStep::Fail(ApiError::Remote { status: s })
                    }
                },
            },
            SessionState::RefreshPending => CallStep::Fail(ApiError::Protocol),
        }
    }

    /// Takes in the refresh endpoint's answer. Only a 200 with a well-formed
    /// body succeeds: the tokens and identity are then exactly those returned,
    /// and the caller persists them before the retry. Any other answer forces
    /// re-authentication.
    pub fn on_refresh(&mut self, outcome: CallOutcome, body: Option<RefreshTokenResponse>) -> (r: CallStep)
        requires
            old(self).state is RefreshPending,
        ensures
            ({
                let ok = outcome == CallOutcome::Status(200) && body is Some;
                let e = if ok { AuthEvent::RefreshSucceeded } else { AuthEvent::RefreshFailed };
                (final(self).control(), kind_of(r)) == auth_step(old(self).control(), e)
            }),
            r is SaveSessionAndRetry ==> ({
                let b = body->0;
                &&& final(self).config.user.access_token == Some(b.access_token)
                &&& final(self).config.user.refresh_token == Some(b.refresh_token)
                &&& r->access_token == b.access_token
                &&& final(self).config.user.email == Some(b.user.email)
                &&& final(self).config.user.name == Some(b.user.name)
                &&& final(self).config.user.user_id == Some(b.user.id)
                &&& final(self).config.config_path == old(self).config.config_path
            }),
            r is Reauthenticate ==> is_signed_out(final(self).config.user)
                && final(self).config.config_path == old(self).config.config_path,
    {
        let ok = match outcome {
            CallOutcome::Status(s) => s == 200,
            CallOutcome::TransportFailed => false,
        };
        match body {
            Some(b) => {
                if ok {
                    let token = b.access_token.clone();
                    self.config.user.email = Some(b.user.email);
                    self.config.user.name = Some(b.user.name);
                    self.config.user.user_id = Some(b.user.id);
                    self.config.user.access_token = Some(b.access_token);
                    self.config.user.refresh_token = Some(b.refresh_token);
                    self.state = SessionState::Ready { refresh_attempted: true };
                    CallStep::SaveSessionAndRetry { access_token: token }
                } else {
                    self.force_reauthentication();
                    CallStep::Reauthenticate
                }
            },
            None => {
                self.force_reauthentication();
                CallStep::Reauthenticate
            },
        }
    }
}

} // verus!
