use vstd::prelude::*;
use crate::auth::{CredentialsView, OauthInfo};

verus! {

/// How a call to the banking API failed.
#[derive(Debug, Clone, Copy, PartialEq, Eq, Structural)]
pub enum ApiFailure {
    /// The access token is no longer accepted.
    AuthExpired,
    /// The API refused the request with this 4xx status.
    Client(u16),
    /// The API failed with this 5xx status.
    Server(u16),
    /// The request did not complete, or its answer could not be read.
    Transport,
}

/// The three ways a failure is handled.
#[derive(Debug, Clone, Copy, PartialEq, Eq, Structural)]
pub enum FailureKind {
    /// Recoverable once, by a refresh.
    Expired,
    /// The application lacks a grant: never retried.
    ScopeDenied,
    /// Anything else: surfaced as it is.
    Fatal,
}

/// The status with which the API denies a grant that the application lacks.
pub const FORBIDDEN: u16 = 403;

pub open spec fn kind_of(f: ApiFailure) -> FailureKind {
    match f {
        ApiFailure::AuthExpired => FailureKind::Expired,
        ApiFailure::Client(code) => if code == FORBIDDEN {
            FailureKind::ScopeDenied
        } else {
            FailureKind::Fatal
        },
        _ => FailureKind::Fatal,
    }
}

/// Sorts an API failure into expiry, a scope denial, or a fatal failure.
pub fn classify(f: ApiFailure) -> (r: FailureKind)
    ensures
        r == kind_of(f),
{
    match f {
        ApiFailure::AuthExpired => FailureKind::Expired,
        ApiFailure::Client(code) => if code == FORBIDDEN {
            FailureKind::ScopeDenied
        } else {
            FailureKind::Fatal
        },
        _ => FailureKind::Fatal,
    }
}

/// Where an authenticated call stands.
#[derive(Debug, Clone, Copy, PartialEq, Eq, Structural)]
pub enum Phase {
    /// Nothing has been issued yet.
    Idle,
    /// The request was issued with the stored access token.
    FirstCall,
    /// The refresh token is being exchanged.
    Refreshing,
    /// The refreshed credentials are being saved.
    Persisting,
    /// The request was issued again with the new access token.
    Retrying,
    /// The last response is the result.
    Done,
    /// The call failed for good.
    Failed,
}

/// Why an authenticated call failed.
#[derive(Debug, Clone, Copy, PartialEq, Eq, Structural)]
pub enum SessionError {
    /// The application lacks a grant; permissions must be fixed in the app.
    ScopeDenied,
    /// The token expired again right after a refresh; authorize anew.
    ExpiredAfterRefresh,
    /// The refresh exchange failed or returned no tokens; authorize anew.
    RefreshFailed,
    /// The refreshed credentials could not be saved.
    StoreFailed,
    /// Any other failure of the API.
    Api(ApiFailure),
    /// An event came that the current phase does not expect.
    OutOfOrder,
}

/// What the caller reports back to the session.
pub enum SessionEvent {
    /// Begin the call.
    Start,
    /// The request succeeded.
    CallSucceeded,
    /// The request failed.
    CallFailed(ApiFailure),
    /// The refresh exchange returned these tokens.
    Refreshed { access_token: String, refresh_token: String },
    /// The refresh exchange failed.
    RefreshFailed,
    /// The credentials were saved.
    Stored,
    /// The credentials could not be saved.
    StoreFailed,
}

/// What the session asks the caller to do next.
pub enum SessionAction {
    /// Issue the request with this access token.
    Call { access_token: String },
    /// Exchange this refresh token for new tokens.
    Refresh { refresh_token: String },
    /// Save these credentials.
    Store { credentials: OauthInfo },
    /// Return the last response.
    Finish,
    /// Give up with this error.
    Fail(SessionError),
    /// Nothing is left to do.
    Halt,
}

/// The model of a [`SessionEvent`].
pub enum Ev {
    Start,
    CallSucceeded,
    CallFailed(ApiFailure),
    Refreshed(Seq<char>, Seq<char>),
    RefreshFailed,
    Stored,
    StoreFailed,
}

/// The model of a [`SessionAction`].
pub enum Act {
    Call(Seq<char>),
    Refresh(Seq<char>),
    Store(CredentialsView),
    Finish,
    Fail(SessionError),
    Halt,
}

impl View for SessionEvent {
    type V = Ev;

    open spec fn view(&self) -> Ev {
        match self {
            SessionEvent::Start => Ev::Start,
            SessionEvent::CallSucceeded => Ev::CallSucceeded,
            SessionEvent::CallFailed(f) => Ev::CallFailed(*f),
            SessionEvent::Refreshed { access_token, refresh_token } => Ev::Refreshed(
                access_token@,
                refresh_token@,
            ),
            SessionEvent::RefreshFailed => Ev::RefreshFailed,
            SessionEvent::Stored => Ev::Stored,
            SessionEvent::StoreFailed => Ev::StoreFailed,
        }
    }
}

impl View for SessionAction {
    type V = Act;

    open spec fn view(&self) -> Act {
        match self {
            SessionAction::Call { access_token } => Act::Call(access_token@),
            SessionAction::Refresh { refresh_token } => Act::Refresh(refresh_token@),
            SessionAction::Store { credentials } => Act::Store(credentials@),
            SessionAction::Finish => Act::Finish,
            SessionAction::Fail(e) => Act::Fail(*e),
            SessionAction::Halt => Act::Halt,
        }
    }
}

/// The runtime pairing of the current credentials with the progress of one
/// authenticated call.
pub struct Session {
    pub credentials: OauthInfo,
    pub phase: Phase,
}

/// The model of a [`Session`].
pub struct SessionView {
    pub credentials: CredentialsView,
    pub phase: Phase,
}

impl View for Session {
    type V = SessionView;

    open spec fn view(&self) -> SessionView {
        SessionView { credentials: self.credentials@, phase: self.phase }
    }
}

pub open spec fn is_terminal(p: Phase) -> bool {
    p == Phase::Done || p == Phase::Failed
}

/// How a failed request is answered: on the first call an expiry leads to one
/// refresh, after the retry it is fatal.
pub open spec fn on_failure(s: SessionView, f: ApiFailure) -> (SessionView, Act) {
    match kind_of(f) {
        FailureKind::Expired => if s.phase == Phase::FirstCall {
            (SessionView { phase: Phase::Refreshing, ..s }, Act::Refresh(s.credentials.refresh_token))
        } else {
            (SessionView { phase: Phase::Failed, ..s }, Act::Fail(SessionError::ExpiredAfterRefresh))
        },
        FailureKind::ScopeDenied => (
            SessionView { phase: Phase::Failed, ..s },
            Act::Fail(SessionError::ScopeDenied),
        ),
        FailureKind::Fatal => (SessionView { phase: Phase::Failed, ..s }, Act::Fail(SessionError::Api(f))),
    }
}

/// One transition of the session: the next state and the action asked for.
pub open spec fn step(s: SessionView, e: Ev) -> (SessionView, Act) {
    let failed = SessionView { phase: Phase::Failed, ..s };
    if is_terminal(s.phase) {
        (s, Act::Halt)
    } else {
        match e {
            Ev::Start => if s.phase == Phase::Idle {
                (SessionView { phase: Phase::FirstCall, ..s }, Act::Call(s.credentials.access_token))
            } else {
                (failed, Act::Fail(SessionError::OutOfOrder))
            },
            Ev::CallSucceeded => if s.phase == Phase::FirstCall || s.phase == Phase::Retrying {
                (SessionView { phase: Phase::Done, ..s }, Act::Finish)
            } else {
                (failed, Act::Fail(SessionError::OutOfOrder))
            },
            Ev::CallFailed(f) => if s.phase == Phase::FirstCall || s.phase == Phase::Retrying {
                on_failure(s, f)
            } else {
                (failed, Act::Fail(SessionError::OutOfOrder))
            },
            Ev::Refreshed(access, refresh) => if s.phase != Phase::Refreshing {
                (failed, Act::Fail(SessionError::OutOfOrder))
            } else if access.len() > 0 && refresh.len() > 0 {
                let c = s.credentials.with_tokens(access, refresh);
                (SessionView { credentials: c, phase: Phase::Persisting }, Act::Store(c))
            } else {
                (failed, Act::Fail(SessionError::RefreshFailed))
            },
            Ev::RefreshFailed => if s.phase == Phase::Refreshing {
                (failed, Act::Fail(SessionError::RefreshFailed))
            } else {
                (failed, Act::Fail(SessionError::OutOfOrder))
            },
            Ev::Stored => if s.phase == Phase::Persisting {
                (SessionView { phase: Phase::Retrying, ..s }, Act::Call(s.credentials.access_token))
            } else {
                (failed, Act::Fail(SessionError::OutOfOrder))
            },
            Ev::StoreFailed => if s.phase == Phase::Persisting {
                (failed, Act::Fail(SessionError::StoreFailed))
            } else {
                (failed, Act::Fail(SessionError::OutOfOrder))
            },
        }
    }
}

/// The session that starts from `credentials` with nothing issued.
pub open spec fn idle(credentials: CredentialsView) -> SessionView {
    SessionView { credentials, phase: Phase::Idle }
}

/// The state reached and the actions asked for when the events `evs` are fed
/// to the session `s` in order.
pub open spec fn run(s: SessionView, evs: Seq<Ev>) -> (SessionView, Seq<Act>)
    decreases evs.len(),
{
    if evs.len() == 0 {
        (s, Seq::empty())
    } else {
        let (s1, a) = step(s, evs[0]);
        let (s2, acts) = run(s1, evs.drop_first());
        (s2, seq![a] + acts)
    }
}

/// How many times the request is issued in `acts`.
pub open spec fn count_calls(acts: Seq<Act>) -> nat
    decreases acts.len(),
{
    if acts.len() == 0 {
        0
    } else {
        (if acts[0] is Call {
            1nat
        } else {
            0nat
        }) + count_calls(acts.drop_first())
    }
}

/// How many refresh exchanges `acts` asks for.
pub open spec fn count_refreshes(acts: Seq<Act>) -> nat
    decreases acts.len(),
{
    if acts.len() == 0 {
        0
    } else {
        (if acts[0] is Refresh {
            1nat
        } else {
            0nat
        }) + count_refreshes(acts.drop_first())
    }
}

/// How many more times the request may still be issued from phase `p`.
pub open spec fn calls_left(p: Phase) -> nat {
    match p {
        Phase::Idle => 2,
        Phase::FirstCall | Phase::Refreshing | Phase::Persisting => 1,
        _ => 0,
    }
}

/// How many more refresh exchanges may still be asked for from phase `p`.
pub open spec fn refreshes_left(p: Phase) -> nat {
    match p {
        Phase::Idle | Phase::FirstCall => 1,
        _ => 0,
    }
}

proof fn lemma_prepend(a: Act, acts: Seq<Act>)
    ensures
        count_calls(seq![a] + acts) == (if a is Call {
            1nat
        } else {
            0nat
        }) + count_calls(acts),
        count_refreshes(seq![a] + acts) == (if a is Refresh {
            1nat
        } else {
            0nat
        }) + count_refreshes(acts),
{
    assert((seq![a] + acts).drop_first() =~= acts);
}

proof fn lemma_run_budget(s: SessionView, evs: Seq<Ev>)
    ensures
        count_calls(run(s, evs).1) <= calls_left(s.phase),
        count_refreshes(run(s, evs).1) <= refreshes_left(s.phase),
    decreases evs.len(),
{
    if evs.len() > 0 {
        let (s1, a) = step(s, evs[0]);
        lemma_run_budget(s1, evs.drop_first());
        lemma_prepend(a, run(s1, evs.drop_first()).1);
    }
}

proof fn lemma_run_append(s: SessionView, xs: Seq<Ev>, ys: Seq<Ev>)
    ensures
        run(s, xs + ys).0 == run(run(s, xs).0, ys).0,
        run(s, xs + ys).1 == run(s, xs).1 + run(run(s, xs).0, ys).1,
    decreases xs.len(),
{
    if xs.len() == 0 {
        assert(xs + ys =~= ys);
        assert(run(s, xs).1 + run(s, ys).1 =~= run(s, ys).1);
    } else {
        let (s1, a) = step(s, xs[0]);
        assert((xs + ys).drop_first() =~= xs.drop_first() + ys);
        lemma_run_append(s1, xs.drop_first(), ys);
        assert(seq![a] + (run(s1, xs.drop_first()).1 + run(run(s1, xs.drop_first()).0, ys).1)
            =~= (seq![a] + run(s1, xs.drop_first()).1) + run(run(s1, xs.drop_first()).0, ys).1);
    }
}

proof fn lemma_run_from_terminal(s: SessionView, evs: Seq<Ev>)
    requires
        is_terminal(s.phase),
    ensures
        run(s, evs).0 == s,
        forall|i: int| 0 <= i < evs.len() ==> run(s, evs).1[i] == Act::Halt,
        run(s, evs).1.len() == evs.len(),
    decreases evs.len(),
{
    if evs.len() > 0 {
        lemma_run_from_terminal(s, evs.drop_first());
        let acts = run(s, evs.drop_first()).1;
        assert forall|i: int| 0 <= i < evs.len() implies run(s, evs).1[i] == Act::Halt by {
            if i > 0 {
                assert(run(s, evs).1[i] == acts[i - 1]);
            }
        }
    }
}

/// Whatever events come, a session exchanges its refresh token at most once:
/// once a refresh has succeeded, the previous refresh token is never offered
/// again.
pub proof fn lemma_refresh_at_most_once(credentials: CredentialsView, evs: Seq<Ev>)
    ensures
        count_refreshes(run(idle(credentials), evs).1) <= 1,
{
    lemma_run_budget(idle(credentials), evs);
}

/// Whatever events come, the request is issued at most twice: once, and once
/// more after a refresh.
pub proof fn lemma_at_most_two_attempts(credentials: CredentialsView, evs: Seq<Ev>)
    ensures
        count_calls(run(idle(credentials), evs).1) <= 2,
{
    lemma_run_budget(idle(credentials), evs);
}

/// When the first attempt reports expiry and the retry succeeds, the session
/// asks for exactly one refresh, saves the new tokens, retries once with the
/// new access token, and returns the retried response.
pub proof fn lemma_expired_once(
    credentials: CredentialsView,
    access: Seq<char>,
    refresh: Seq<char>,
)
    requires
        access.len() > 0,
        refresh.len() > 0,
    ensures
        ({
            let evs = seq![
                Ev::Start,
                Ev::CallFailed(ApiFailure::AuthExpired),
                Ev::Refreshed(access, refresh),
                Ev::Stored,
                Ev::CallSucceeded,
            ];
            let renewed = credentials.with_tokens(access, refresh);
            &&& run(idle(credentials), evs).0 == SessionView { credentials: renewed, phase: Phase::Done }
            &&& run(idle(credentials), evs).1 == seq![
                Act::Call(credentials.access_token),
                Act::Refresh(credentials.refresh_token),
                Act::Store(renewed),
                Act::Call(access),
                Act::Finish,
            ]
        }),
{
    let evs = seq![
        Ev::Start,
        Ev::CallFailed(ApiFailure::AuthExpired),
        Ev::Refreshed(access, refresh),
        Ev::Stored,
        Ev::CallSucceeded,
    ];
    let renewed = credentials.with_tokens(access, refresh);
    let s0 = idle(credentials);
    let s1 = SessionView { phase: Phase::FirstCall, ..s0 };
    let s2 = SessionView { phase: Phase::Refreshing, ..s0 };
    let s3 = SessionView { credentials: renewed, phase: Phase::Persisting };
    let s4 = SessionView { credentials: renewed, phase: Phase::Retrying };
    let s5 = SessionView { credentials: renewed, phase: Phase::Done };
    let e1 = evs.drop_first();
    let e2 = e1.drop_first();
    let e3 = e2.drop_first();
    let e4 = e3.drop_first();
    let e5 = e4.drop_first();
    assert(e5.len() == 0);
    assert(run(s5, e5) == (s5, Seq::<Act>::empty()));
    assert(run(s4, e4) == (s5, seq![Act::Finish] + Seq::<Act>::empty()));
    assert(run(s3, e3) == (s5, seq![Act::Call(access)] + run(s4, e4).1));
    assert(run(s2, e2) == (s5, seq![Act::Store(renewed)] + run(s3, e3).1));
    assert(run(s1, e1) == (s5, seq![Act::Refresh(credentials.refresh_token)] + run(s2, e2).1));
    assert(run(s0, evs) == (s5, seq![Act::Call(credentials.access_token)] + run(s1, e1).1));
    assert(run(s0, evs).1 =~= seq![
        Act::Call(credentials.access_token),
        Act::Refresh(credentials.refresh_token),
        Act::Store(renewed),
        Act::Call(access),
        Act::Finish,
    ]);
}

/// When the retry after a refresh reports expiry again, the session fails for
/// good: there is no third attempt, and whatever comes after is ignored.
pub proof fn lemma_expired_twice(
    credentials: CredentialsView,
    access: Seq<char>,
    refresh: Seq<char>,
    rest: Seq<Ev>,
)
    requires
        access.len() > 0,
        refresh.len() > 0,
    ensures
        ({
            let evs = seq![
                Ev::Start,
                Ev::CallFailed(ApiFailure::AuthExpired),
                Ev::Refreshed(access, refresh),
                Ev::Stored,
                Ev::CallFailed(ApiFailure::AuthExpired),
            ] + rest;
            let acts = run(idle(credentials), evs).1;
            &&& run(idle(credentials), evs).0.phase == Phase::Failed
            &&& acts[4] == Act::Fail(SessionError::ExpiredAfterRefresh)
            &&& count_calls(acts) == 2
            &&& forall|i: int| 5 <= i < acts.len() ==> acts[i] == Act::Halt
        }),
{
    let head = seq![
        Ev::Start,
        Ev::CallFailed(ApiFailure::AuthExpired),
        Ev::Refreshed(access, refresh),
        Ev::Stored,
    ];
    let s0 = idle(credentials);
    let renewed = credentials.with_tokens(access, refresh);
    let s1 = SessionView { phase: Phase::FirstCall, ..s0 };
    let s2 = SessionView { phase: Phase::Refreshing, ..s0 };
    let s3 = SessionView { credentials: renewed, phase: Phase::Persisting };
    let s4 = SessionView { credentials: renewed, phase: Phase::Retrying };
    let s5 = SessionView { credentials: renewed, phase: Phase::Failed };
    let e1 = head.drop_first();
    let e2 = e1.drop_first();
    let e3 = e2.drop_first();
    let e4 = e3.drop_first();
    assert(e4.len() == 0);
    let first = seq![
        Act::Call(credentials.access_token),
        Act::Refresh(credentials.refresh_token),
        Act::Store(renewed),
        Act::Call(access),
    ];
    assert(run(s4, e4) == (s4, Seq::<Act>::empty()));
    assert(run(s3, e3) == (s4, seq![Act::Call(access)] + Seq::<Act>::empty()));
    assert(run(s2, e2) == (s4, seq![Act::Store(renewed)] + run(s3, e3).1));
    assert(run(s1, e1) == (s4, seq![Act::Refresh(credentials.refresh_token)] + run(s2, e2).1));
    assert(run(s0, head) == (s4, seq![Act::Call(credentials.access_token)] + run(s1, e1).1));
    assert(run(s0, head).1 =~= first);
    let tail = seq![Ev::CallFailed(ApiFailure::AuthExpired)] + rest;
    assert(tail.drop_first() =~= rest);
    lemma_run_from_terminal(s5, rest);
    assert(run(s4, tail).0 == s5);
    assert(run(s4, tail).1 == seq![Act::Fail(SessionError::ExpiredAfterRefresh)] + run(s5, rest).1);
    let evs = head + tail;
    assert(evs =~= seq![
        Ev::Start,
        Ev::CallFailed(ApiFailure::AuthExpired),
        Ev::Refreshed(access, refresh),
        Ev::Stored,
        Ev::CallFailed(ApiFailure::AuthExpired),
    ] + rest);
    lemma_run_append(s0, head, tail);
    let acts = run(s0, evs).1;
    assert(acts == first + (seq![Act::Fail(SessionError::ExpiredAfterRefresh)] + run(s5, rest).1));
    assert forall|i: int| 5 <= i < acts.len() implies acts[i] == Act::Halt by {
        assert(acts[i] == run(s5, rest).1[i - 5]);
    }
    let t1 = seq![Act::Fail(SessionError::ExpiredAfterRefresh)] + run(s5, rest).1;
    let t2 = seq![Act::Call(access)] + t1;
    let t3 = seq![Act::Store(renewed)] + t2;
    let t4 = seq![Act::Refresh(credentials.refresh_token)] + t3;
    lemma_run_budget(s5, rest);
    lemma_prepend(Act::Fail(SessionError::ExpiredAfterRefresh), run(s5, rest).1);
    lemma_prepend(Act::Call(access), t1);
    lemma_prepend(Act::Store(renewed), t2);
    lemma_prepend(Act::Refresh(credentials.refresh_token), t3);
    lemma_prepend(Act::Call(credentials.access_token), t4);
    assert(acts =~= seq![Act::Call(credentials.access_token)] + t4);
    assert(acts[4] == Act::Fail(SessionError::ExpiredAfterRefresh));
}

/// A request that the API denies for want of a grant ends the session at once,
/// on the first attempt or the retry: it is never answered with a refresh, and
/// nothing is retried afterwards.
pub proof fn lemma_scope_denied(s: SessionView, f: ApiFailure, rest: Seq<Ev>)
    requires
        s.phase == Phase::FirstCall || s.phase == Phase::Retrying,
        kind_of(f) == FailureKind::ScopeDenied,
    ensures
        ({
            let acts = run(s, seq![Ev::CallFailed(f)] + rest).1;
            &&& run(s, seq![Ev::CallFailed(f)] + rest).0.phase == Phase::Failed
            &&& acts[0] == Act::Fail(SessionError::ScopeDenied)
            &&& count_refreshes(acts) == 0
            &&& count_calls(acts) == 0
        }),
{
    let evs = seq![Ev::CallFailed(f)] + rest;
    assert(evs.drop_first() =~= rest);
    let s1 = SessionView { phase: Phase::Failed, ..s };
    lemma_run_from_terminal(s1, rest);
    lemma_run_budget(s1, rest);
    lemma_prepend(Act::Fail(SessionError::ScopeDenied), run(s1, rest).1);
}

/// Credentials that hold every field keep every field through any transition;
/// so every record the session asks to save is complete.
pub proof fn lemma_step_keeps_complete(s: SessionView, e: Ev)
    requires
        s.credentials.is_complete(),
    ensures
        step(s, e).0.credentials.is_complete(),
        step(s, e).1 matches Act::Store(c) ==> c.is_complete() && c == step(s, e).0.credentials,
{
}

impl Session {
    /// A session over `credentials`, with nothing issued yet.
    pub fn new(credentials: OauthInfo) -> (r: Session)
        ensures
            r@.credentials == credentials@,
            r@.phase == Phase::Idle,
    {
        Session { credentials, phase: Phase::Idle }
    }

    /// Whether the call has come to its end, in success or failure.
    pub fn is_finished(&self) -> (r: bool)
        ensures
            r == is_terminal(self.phase),
    {
        self.phase == Phase::Done || self.phase == Phase::Failed
    }

    fn fail(&mut self, e: SessionError) -> (r: SessionAction)
        ensures
            final(self).credentials == old(self).credentials,
            final(self).phase == Phase::Failed,
            r@ == Act::Fail(e),
    {
        self.phase = Phase::Failed;
        SessionAction::Fail(e)
    }

    /// Takes the outcome of the last action and decides the next one.
    pub fn handle(&mut self, event: SessionEvent) -> (r: SessionAction)
        ensures
            (final(self)@, r@) == step(old(self)@, event@),
    {
        if self.is_finished() {
            return SessionAction::Halt;
        }
        match event {
            SessionEvent::Start => if self.phase == Phase::Idle {
                self.phase = Phase::FirstCall;
                SessionAction::Call { access_token: self.credentials.access_token.clone() }
            } else {
                self.fail(SessionError::OutOfOrder)
            },
            SessionEvent::CallSucceeded => if self.phase == Phase::FirstCall || self.phase
                == Phase::Retrying {
                self.phase = Phase::Done;
                SessionAction::Finish
            } else {
                self.fail(SessionError::OutOfOrder)
            },
            SessionEvent::CallFailed(f) => if self.phase == Phase::FirstCall || self.phase
                == Phase::Retrying {
                match classify(f) {
                    FailureKind::Expired => if self.phase == Phase::FirstCall {
                        self.phase = Phase::Refreshing;
                        SessionAction::Refresh {
                            refresh_token: self.credentials.refresh_token.clone(),
                        }
                    } else {
                        self.fail(SessionError::ExpiredAfterRefresh)
                    },
                    FailureKind::ScopeDenied => self.fail(SessionError::ScopeDenied),
                    FailureKind::Fatal => self.fail(SessionError::Api(f)),
                }
            } else {
                self.fail(SessionError::OutOfOrder)
            },
            SessionEvent::Refreshed { access_token, refresh_token } => if self.phase
                != Phase::Refreshing {
                self.fail(SessionError::OutOfOrder)
            } else if !access_token.as_str().is_empty() && !refresh_token.as_str().is_empty() {
                self.credentials = self.credentials.with_tokens(access_token, refresh_token);
                self.phase = Phase::Persisting;
                SessionAction::Store { credentials: self.credentials.duplicate() }
            } else {
                self.fail(SessionError::RefreshFailed)
            },
            SessionEvent::RefreshFailed => if self.phase == Phase::Refreshing {
                self.fail(SessionError::RefreshFailed)
            } else {
                self.fail(SessionError::OutOfOrder)
            },
            SessionEvent::Stored => if self.phase == Phase::Persisting {
                self.phase = Phase::Retrying;
                SessionAction::Call { access_token: self.credentials.access_token.clone() }
            } else {
                self.fail(SessionError::OutOfOrder)
            },
            SessionEvent::StoreFailed => if self.phase == Phase::Persisting {
                self.fail(SessionError::StoreFailed)
            } else {
                self.fail(SessionError::OutOfOrder)
            },
        }
    }
}

} // verus!
