use vstd::prelude::*;
use crate::callback::{callback_code, code_from_request_line, CallbackError};
use crate::text::{trim_end, trimmed_end};

verus! {

/// The durable authentication state: a bearer token, the refresh token that
/// mints the next one, and the application's identity.
pub struct OauthInfo {
    pub access_token: String,
    pub client_id: String,
    pub client_secret: String,
    pub refresh_token: String,
}

/// The mathematical model of [`OauthInfo`].
pub struct CredentialsView {
    pub access_token: Seq<char>,
    pub client_id: Seq<char>,
    pub client_secret: Seq<char>,
    pub refresh_token: Seq<char>,
}

impl View for OauthInfo {
    type V = CredentialsView;

    open spec fn view(&self) -> CredentialsView {
        CredentialsView {
            access_token: self.access_token@,
            client_id: self.client_id@,
            client_secret: self.client_secret@,
            refresh_token: self.refresh_token@,
        }
    }
}

impl CredentialsView {
    /// Freshly initialized: nothing is known yet.
    pub open spec fn is_blank(self) -> bool {
        &&& self.access_token.len() == 0
        &&& self.client_id.len() == 0
        &&& self.client_secret.len() == 0
        &&& self.refresh_token.len() == 0
    }

    /// Authorized: every field holds a value.
    pub open spec fn is_complete(self) -> bool {
        &&& self.access_token.len() > 0
        &&& self.client_id.len() > 0
        &&& self.client_secret.len() > 0
        &&& self.refresh_token.len() > 0
    }

    /// The only two states a stored record may be in.
    pub open spec fn wf(self) -> bool {
        self.is_blank() || self.is_complete()
    }

    /// The record after a refresh: new tokens, the same identity.
    pub open spec fn with_tokens(self, access: Seq<char>, refresh: Seq<char>) -> CredentialsView {
        CredentialsView { access_token: access, refresh_token: refresh, ..self }
    }
}

impl OauthInfo {
    /// An empty record, as held before the first authorization.
    pub fn new() -> (r: OauthInfo)
        ensures
            r@.is_blank(),
    {
        OauthInfo {
            access_token: String::new(),
            client_id: String::new(),
            client_secret: String::new(),
            refresh_token: String::new(),
        }
    }

    /// A record built from its four fields.
    pub fn from_parts(
        access_token: String,
        refresh_token: String,
        client_id: String,
        client_secret: String,
    ) -> (r: OauthInfo)
        ensures
            r@.access_token == access_token@,
            r@.refresh_token == refresh_token@,
            r@.client_id == client_id@,
            r@.client_secret == client_secret@,
    {
        OauthInfo { access_token, client_id, client_secret, refresh_token }
    }

    /// Whether every field holds a value.
    pub fn is_authorized(&self) -> (r: bool)
        ensures
            r == self@.is_complete(),
    {
        !self.access_token.as_str().is_empty() && !self.client_id.as_str().is_empty()
            && !self.client_secret.as_str().is_empty() && !self.refresh_token.as_str().is_empty()
    }

    /// Whether no field holds a value.
    pub fn is_blank(&self) -> (r: bool)
        ensures
            r == self@.is_blank(),
    {
        self.access_token.as_str().is_empty() && self.client_id.as_str().is_empty()
            && self.client_secret.as_str().is_empty() && self.refresh_token.as_str().is_empty()
    }

    /// A copy of the record with the two tokens replaced.
    pub fn with_tokens(&self, access_token: String, refresh_token: String) -> (r: OauthInfo)
        ensures
            r@ == self@.with_tokens(access_token@, refresh_token@),
    {
        OauthInfo {
            access_token,
            client_id: self.client_id.clone(),
            client_secret: self.client_secret.clone(),
            refresh_token,
        }
    }

    /// A field-for-field copy.
    pub fn duplicate(&self) -> (r: OauthInfo)
        ensures
            r@ == self@,
    {
        OauthInfo {
            access_token: self.access_token.clone(),
            client_id: self.client_id.clone(),
            client_secret: self.client_secret.clone(),
            refresh_token: self.refresh_token.clone(),
        }
    }
}

impl Default for OauthInfo {
    fn default() -> (r: OauthInfo)
        ensures
            r@.is_blank(),
    {
        OauthInfo::new()
    }
}

/// The browser-facing authorization endpoint.
pub const AUTHORIZATION_ENDPOINT: &'static str = "https://auth.monzo.com";

/// The local address the browser is sent back to.
pub const REDIRECT_URI: &'static str = "http://localhost:8080";

/// The URL that asks the operator to grant `client_id` access, with the
/// anti-forgery `state` and the redirect back to `redirect`; `None` where an
/// endpoint is no valid URL.
pub uninterp spec fn authorization_url_text(
    auth_endpoint: Seq<char>,
    redirect: Seq<char>,
    client_id: Seq<char>,
    state: Seq<char>,
) -> Option<Seq<char>>;

/// Relies on oauth2's `AuthUrl::new` and `RedirectUrl::new` to read the two
/// endpoints, and on `Client::authorize_url` with `AuthorizationRequest::url`
/// to write the authorization URL for an authorization-code grant.
#[verifier::external_body]
fn authorization_url(auth_endpoint: &str, redirect: &str, client_id: &str, state: &str) -> (r:
    Option<String>)
    ensures
        r is Some == authorization_url_text(auth_endpoint@, redirect@, client_id@, state@) is Some,
        r matches Some(u) ==> authorization_url_text(auth_endpoint@, redirect@, client_id@, state@)
            == Some(u@),
{
    let auth = oauth2::AuthUrl::new(auth_endpoint.to_string()).ok()?;
    let redirect = oauth2::RedirectUrl::new(redirect.to_string()).ok()?;
    let id = oauth2::ClientId::new(client_id.to_string());
    let client = oauth2::basic::BasicClient::new(id, None, auth, None).set_redirect_uri(redirect);
    let token = oauth2::CsrfToken::new(state.to_string());
    Some(client.authorize_url(move || token).url().0.to_string())
}

/// The authorization URL for `client_id` with the anti-forgery `state`.
pub open spec fn grant_url(client_id: Seq<char>, state: Seq<char>) -> Option<Seq<char>> {
    authorization_url_text(AUTHORIZATION_ENDPOINT@, REDIRECT_URI@, client_id, state)
}

/// Where an authorization flow stands.
#[derive(Debug, Clone, Copy, PartialEq, Eq, Structural)]
pub enum FlowPhase {
    /// Nothing has been asked yet.
    Start,
    /// The operator was asked for the client ID.
    AwaitingClientId,
    /// The operator was asked for the client secret.
    AwaitingClientSecret,
    /// The authorization URL is out; the browser's redirect is awaited.
    AwaitingCallback,
    /// The authorization code is being exchanged for tokens.
    Exchanging,
    /// The new credentials are being saved.
    Persisting,
    /// The credentials are saved.
    Done,
    /// The flow failed for good.
    Failed,
}

/// Why an authorization flow failed.
#[derive(Debug, Clone, Copy, PartialEq, Eq, Structural)]
pub enum FlowError {
    /// The operator's answer could not be read.
    InputFailed,
    /// The redirect carried no usable authorization code.
    Callback(CallbackError),
    /// The token endpoint refused the code or could not be reached.
    ExchangeFailed,
    /// The token endpoint's answer lacked a token.
    IncompleteTokens,
    /// The credentials could not be saved.
    StoreFailed,
    /// The authorization URL could not be written.
    AuthorizationUrl,
    /// An event came that the current phase does not expect.
    OutOfOrder,
}

/// What the caller reports back to the flow.
pub enum FlowEvent {
    /// Begin the flow.
    Begin,
    /// The operator entered this line.
    Entered(String),
    /// The operator's answer could not be read.
    InputFailed,
    /// The local listener received a request with this first line.
    Callback(String),
    /// The token endpoint returned these tokens.
    Exchanged { access_token: String, refresh_token: Option<String> },
    /// The exchange failed.
    ExchangeFailed,
    /// The credentials were saved.
    Stored,
    /// The credentials could not be saved.
    StoreFailed,
}

/// What the flow asks the caller to do next.
pub enum FlowAction {
    /// Ask the operator for the client ID.
    AskClientId,
    /// Ask the operator for the client secret.
    AskClientSecret,
    /// Show this authorization URL and wait for the browser's redirect on the
    /// local listener.
    AwaitRedirect { url: String },
    /// Exchange the authorization code for tokens.
    Exchange { code: String, client_id: String, client_secret: String },
    /// Save these credentials.
    Store { credentials: OauthInfo },
    /// The flow is complete.
    Finish,
    /// Give up with this error.
    Fail(FlowError),
    /// Nothing is left to do.
    Halt,
}

/// The model of a [`FlowEvent`].
pub enum FlowEv {
    Begin,
    Entered(Seq<char>),
    InputFailed,
    Callback(Seq<char>),
    Exchanged(Seq<char>, Option<Seq<char>>),
    ExchangeFailed,
    Stored,
    StoreFailed,
}

/// The model of a [`FlowAction`].
pub enum FlowAct {
    AskClientId,
    AskClientSecret,
    AwaitRedirect(Seq<char>),
    Exchange(Seq<char>, Seq<char>, Seq<char>),
    Store(CredentialsView),
    Finish,
    Fail(FlowError),
    Halt,
}

impl View for FlowEvent {
    type V = FlowEv;

    open spec fn view(&self) -> FlowEv {
        match self {
            FlowEvent::Begin => FlowEv::Begin,
            FlowEvent::Entered(line) => FlowEv::Entered(line@),
            FlowEvent::InputFailed => FlowEv::InputFailed,
            FlowEvent::Callback(line) => FlowEv::Callback(line@),
            FlowEvent::Exchanged { access_token, refresh_token } => FlowEv::Exchanged(
                access_token@,
                match refresh_token {
                    Some(r) => Some(r@),
                    None => None,
                },
            ),
            FlowEvent::ExchangeFailed => FlowEv::ExchangeFailed,
            FlowEvent::Stored => FlowEv::Stored,
            FlowEvent::StoreFailed => FlowEv::StoreFailed,
        }
    }
}

impl View for FlowAction {
    type V = FlowAct;

    open spec fn view(&self) -> FlowAct {
        match self {
            FlowAction::AskClientId => FlowAct::AskClientId,
            FlowAction::AskClientSecret => FlowAct::AskClientSecret,
            FlowAction::AwaitRedirect { url } => FlowAct::AwaitRedirect(url@),
            FlowAction::Exchange { code, client_id, client_secret } => FlowAct::Exchange(
                code@,
                client_id@,
                client_secret@,
            ),
            FlowAction::Store { credentials } => FlowAct::Store(credentials@),
            FlowAction::Finish => FlowAct::Finish,
            FlowAction::Fail(e) => FlowAct::Fail(*e),
            FlowAction::Halt => FlowAct::Halt,
        }
    }
}

/// One run of the interactive authorization-code grant. `state` is the
/// anti-forgery value of this run, fresh for each run.
pub struct AuthFlow {
    pub credentials: OauthInfo,
    pub state: String,
    pub phase: FlowPhase,
}

/// The model of an [`AuthFlow`].
pub struct FlowView {
    pub credentials: CredentialsView,
    pub state: Seq<char>,
    pub phase: FlowPhase,
}

impl View for AuthFlow {
    type V = FlowView;

    open spec fn view(&self) -> FlowView {
        FlowView { credentials: self.credentials@, state: self.state@, phase: self.phase }
    }
}

pub open spec fn flow_is_terminal(p: FlowPhase) -> bool {
    p == FlowPhase::Done || p == FlowPhase::Failed
}

/// What to ask for next, given the credentials known so far: a missing client
/// ID, then a missing client secret, then the redirect.
pub open spec fn prompt(c: CredentialsView, state: Seq<char>) -> (FlowView, FlowAct) {
    if c.client_id.len() == 0 {
        (FlowView { credentials: c, state, phase: FlowPhase::AwaitingClientId }, FlowAct::AskClientId)
    } else if c.client_secret.len() == 0 {
        (
            FlowView { credentials: c, state, phase: FlowPhase::AwaitingClientSecret },
            FlowAct::AskClientSecret,
        )
    } else {
        match grant_url(c.client_id, state) {
            Some(url) => (
                FlowView { credentials: c, state, phase: FlowPhase::AwaitingCallback },
                FlowAct::AwaitRedirect(url),
            ),
            None => (
                FlowView { credentials: c, state, phase: FlowPhase::Failed },
                FlowAct::Fail(FlowError::AuthorizationUrl),
            ),
        }
    }
}

/// The record made from an exchange's tokens and the client's identity.
pub open spec fn granted(c: CredentialsView, access: Seq<char>, refresh: Seq<char>) -> CredentialsView {
    CredentialsView { access_token: access, refresh_token: refresh, ..c }
}

/// One transition of the flow: the next state and the action asked for.
pub open spec fn flow_step(s: FlowView, e: FlowEv) -> (FlowView, FlowAct) {
    let failed = FlowView { phase: FlowPhase::Failed, ..s };
    let c = s.credentials;
    if flow_is_terminal(s.phase) {
        (s, FlowAct::Halt)
    } else {
        match e {
            FlowEv::Begin => if s.phase == FlowPhase::Start {
                prompt(c, s.state)
            } else {
                (failed, FlowAct::Fail(FlowError::OutOfOrder))
            },
            FlowEv::Entered(line) => if s.phase == FlowPhase::AwaitingClientId {
                prompt(CredentialsView { client_id: trimmed_end(line), ..c }, s.state)
            } else if s.phase == FlowPhase::AwaitingClientSecret {
                prompt(CredentialsView { client_secret: trimmed_end(line), ..c }, s.state)
            } else {
                (failed, FlowAct::Fail(FlowError::OutOfOrder))
            },
            FlowEv::InputFailed => if s.phase == FlowPhase::AwaitingClientId || s.phase
                == FlowPhase::AwaitingClientSecret {
                (failed, FlowAct::Fail(FlowError::InputFailed))
            } else {
                (failed, FlowAct::Fail(FlowError::OutOfOrder))
            },
            FlowEv::Callback(line) => if s.phase != FlowPhase::AwaitingCallback {
                (failed, FlowAct::Fail(FlowError::OutOfOrder))
            } else {
                match callback_code(line, s.state) {
                    Ok(code) => (
                        FlowView { phase: FlowPhase::Exchanging, ..s },
                        FlowAct::Exchange(code, c.client_id, c.client_secret),
                    ),
                    Err(err) => (failed, FlowAct::Fail(FlowError::Callback(err))),
                }
            },
            FlowEv::Exchanged(access, refresh) => if s.phase != FlowPhase::Exchanging {
                (failed, FlowAct::Fail(FlowError::OutOfOrder))
            } else {
                match refresh {
                    Some(r) => if access.len() > 0 && r.len() > 0 {
                        let g = granted(c, access, r);
                        (
                            FlowView { credentials: g, phase: FlowPhase::Persisting, ..s },
                            FlowAct::Store(g),
                        )
                    } else {
                        (failed, FlowAct::Fail(FlowError::IncompleteTokens))
                    },
                    None => (failed, FlowAct::Fail(FlowError::IncompleteTokens)),
                }
            },
            FlowEv::ExchangeFailed => if s.phase == FlowPhase::Exchanging {
                (failed, FlowAct::Fail(FlowError::ExchangeFailed))
            } else {
                (failed, FlowAct::Fail(FlowError::OutOfOrder))
            },
            FlowEv::Stored => if s.phase == FlowPhase::Persisting {
                (FlowView { phase: FlowPhase::Done, ..s }, FlowAct::Finish)
            } else {
                (failed, FlowAct::Fail(FlowError::OutOfOrder))
            },
            FlowEv::StoreFailed => if s.phase == FlowPhase::Persisting {
                (failed, FlowAct::Fail(FlowError::StoreFailed))
            } else {
                (failed, FlowAct::Fail(FlowError::OutOfOrder))
            },
        }
    }
}

/// What each phase knows of the credentials: the client's identity once the
/// redirect is awaited, every field once tokens were granted.
pub open spec fn flow_wf(s: FlowView) -> bool {
    match s.phase {
        FlowPhase::AwaitingCallback | FlowPhase::Exchanging => s.credentials.client_id.len() > 0
            && s.credentials.client_secret.len() > 0,
        FlowPhase::Persisting | FlowPhase::Done => s.credentials.is_complete(),
        _ => true,
    }
}

/// The state reached and the actions asked for when the events `evs` are fed
/// to the flow `s` in order.
pub open spec fn flow_run(s: FlowView, evs: Seq<FlowEv>) -> (FlowView, Seq<FlowAct>)
    decreases evs.len(),
{
    if evs.len() == 0 {
        (s, Seq::empty())
    } else {
        let (s1, a) = flow_step(s, evs[0]);
        let (s2, acts) = flow_run(s1, evs.drop_first());
        (s2, seq![a] + acts)
    }
}

/// Every transition keeps what the phases know of the credentials; so every
/// record the flow asks to save holds all four fields.
pub proof fn lemma_flow_step_wf(s: FlowView, e: FlowEv)
    requires
        flow_wf(s),
    ensures
        flow_wf(flow_step(s, e).0),
        flow_step(s, e).1 matches FlowAct::Store(c) ==> c.is_complete() && c == flow_step(
            s,
            e,
        ).0.credentials,
        flow_step(s, e).1 matches FlowAct::Exchange(code, id, secret) ==> id.len() > 0
            && secret.len() > 0,
{
}

/// A successful exchange yields credentials with all four fields set: the
/// tokens returned and the identity the code was exchanged for. They are what
/// the flow asks to save.
pub proof fn lemma_exchange_yields_complete(
    s: FlowView,
    access: Seq<char>,
    refresh: Seq<char>,
)
    requires
        s.phase == FlowPhase::Exchanging,
        flow_wf(s),
        access.len() > 0,
        refresh.len() > 0,
    ensures
        ({
            let g = granted(s.credentials, access, refresh);
            &&& g.is_complete()
            &&& g.access_token == access && g.refresh_token == refresh
            &&& g.client_id == s.credentials.client_id
            &&& g.client_secret == s.credentials.client_secret
            &&& flow_step(s, FlowEv::Exchanged(access, Some(refresh))) == (
                FlowView { credentials: g, phase: FlowPhase::Persisting, ..s },
                FlowAct::Store(g),
            )
        }),
{
}

proof fn lemma_flow_run_from_terminal(s: FlowView, evs: Seq<FlowEv>)
    requires
        flow_is_terminal(s.phase),
    ensures
        flow_run(s, evs).0 == s,
        flow_run(s, evs).1.len() == evs.len(),
        forall|i: int| 0 <= i < evs.len() ==> flow_run(s, evs).1[i] == FlowAct::Halt,
    decreases evs.len(),
{
    if evs.len() > 0 {
        lemma_flow_run_from_terminal(s, evs.drop_first());
        let acts = flow_run(s, evs.drop_first()).1;
        assert forall|i: int| 0 <= i < evs.len() implies flow_run(s, evs).1[i]
            == FlowAct::Halt by {
            if i > 0 {
                assert(flow_run(s, evs).1[i] == acts[i - 1]);
            }
        }
    }
}

/// A redirect from which no authorization code can be read, a missing `code`
/// parameter among them, ends the flow before any token exchange: whatever
/// comes afterwards, no exchange is ever asked for.
pub proof fn lemma_no_code_no_exchange(s: FlowView, line: Seq<char>, rest: Seq<FlowEv>)
    requires
        s.phase == FlowPhase::AwaitingCallback,
        callback_code(line, s.state) is Err,
    ensures
        ({
            let r = flow_run(s, seq![FlowEv::Callback(line)] + rest);
            &&& r.0.phase == FlowPhase::Failed
            &&& r.1[0] == FlowAct::Fail(FlowError::Callback(callback_code(line, s.state)->Err_0))
            &&& forall|i: int| 0 <= i < r.1.len() ==> !(r.1[i] is Exchange)
        }),
{
    let evs = seq![FlowEv::Callback(line)] + rest;
    assert(evs.drop_first() =~= rest);
    let s1 = FlowView { phase: FlowPhase::Failed, ..s };
    lemma_flow_run_from_terminal(s1, rest);
    let r = flow_run(s, evs);
    assert forall|i: int| 0 <= i < r.1.len() implies !(r.1[i] is Exchange) by {
        if i > 0 {
            assert(r.1[i] == flow_run(s1, rest).1[i - 1]);
        }
    }
}

impl AuthFlow {
    /// A flow that starts from the stored credentials, which may be blank,
    /// with the anti-forgery value `state` drawn for this run.
    pub fn new(stored: OauthInfo, state: String) -> (r: AuthFlow)
        ensures
            r@.credentials == stored@,
            r@.state == state@,
            r@.phase == FlowPhase::Start,
    {
        AuthFlow { credentials: stored, state, phase: FlowPhase::Start }
    }

    /// Whether the flow has come to its end, in success or failure.
    pub fn is_finished(&self) -> (r: bool)
        ensures
            r == flow_is_terminal(self.phase),
    {
        self.phase == FlowPhase::Done || self.phase == FlowPhase::Failed
    }

    fn fail(&mut self, e: FlowError) -> (r: FlowAction)
        ensures
            final(self).credentials == old(self).credentials,
            final(self).state == old(self).state,
            final(self).phase == FlowPhase::Failed,
            r@ == FlowAct::Fail(e),
    {
        self.phase = FlowPhase::Failed;
        FlowAction::Fail(e)
    }

    fn prompt(&mut self) -> (r: FlowAction)
        ensures
            (final(self)@, r@) == prompt(old(self)@.credentials, old(self)@.state),
    {
        if self.credentials.client_id.as_str().is_empty() {
            self.phase = FlowPhase::AwaitingClientId;
            FlowAction::AskClientId
        } else if self.credentials.client_secret.as_str().is_empty() {
            self.phase = FlowPhase::AwaitingClientSecret;
            FlowAction::AskClientSecret
        } else {
            match authorization_url(
                AUTHORIZATION_ENDPOINT,
                REDIRECT_URI,
                self.credentials.client_id.as_str(),
                self.state.as_str(),
            ) {
                Some(url) => {
                    self.phase = FlowPhase::AwaitingCallback;
                    FlowAction::AwaitRedirect { url }
                },
                None => self.fail(FlowError::AuthorizationUrl),
            }
        }
    }

    /// Takes the outcome of the last action and decides the next one.
    pub fn handle(&mut self, event: FlowEvent) -> (r: FlowAction)
        ensures
            (final(self)@, r@) == flow_step(old(self)@, event@),
    {
        if self.is_finished() {
            return FlowAction::Halt;
        }
        match event {
            FlowEvent::Begin => if self.phase == FlowPhase::Start {
                self.prompt()
            } else {
                self.fail(FlowError::OutOfOrder)
            },
            FlowEvent::Entered(line) => if self.phase == FlowPhase::AwaitingClientId {
                self.credentials.client_id = trim_end(line.as_str());
                self.prompt()
            } else if self.phase == FlowPhase::AwaitingClientSecret {
                self.credentials.client_secret = trim_end(line.as_str());
                self.prompt()
            } else {
                self.fail(FlowError::OutOfOrder)
            },
            FlowEvent::InputFailed => if self.phase == FlowPhase::AwaitingClientId || self.phase
                == FlowPhase::AwaitingClientSecret {
                self.fail(FlowError::InputFailed)
            } else {
                self.fail(FlowError::OutOfOrder)
            },
            FlowEvent::Callback(line) => if self.phase != FlowPhase::AwaitingCallback {
                self.fail(FlowError::OutOfOrder)
            } else {
                match code_from_request_line(line.as_str(), self.state.as_str()) {
                    Ok(code) => {
                        self.phase = FlowPhase::Exchanging;
                        FlowAction::Exchange {
                            code,
                            client_id: self.credentials.client_id.clone(),
                            client_secret: self.credentials.client_secret.clone(),
                        }
                    },
                    Err(err) => self.fail(FlowError::Callback(err)),
                }
            },
            FlowEvent::Exchanged { access_token, refresh_token } => if self.phase
                != FlowPhase::Exchanging {
                self.fail(FlowError::OutOfOrder)
            } else {
                match refresh_token {
                    Some(r) => if !access_token.as_str().is_empty() && !r.as_str().is_empty() {
                        self.credentials.access_token = access_token;
                        self.credentials.refresh_token = r;
                        self.phase = FlowPhase::Persisting;
                        FlowAction::Store { credentials: self.credentials.duplicate() }
                    } else {
                        self.fail(FlowError::IncompleteTokens)
                    },
                    None => self.fail(FlowError::IncompleteTokens),
                }
            },
            FlowEvent::ExchangeFailed => if self.phase == FlowPhase::Exchanging {
                self.fail(FlowError::ExchangeFailed)
            } else {
                self.fail(FlowError::OutOfOrder)
            },
            FlowEvent::Stored => if self.phase == FlowPhase::Persisting {
                self.phase = FlowPhase::Done;
                FlowAction::Finish
            } else {
                self.fail(FlowError::OutOfOrder)
            },
            FlowEvent::StoreFailed => if self.phase == FlowPhase::Persisting {
                self.fail(FlowError::StoreFailed)
            } else {
                self.fail(FlowError::OutOfOrder)
            },
        }
    }
}

} // verus!
