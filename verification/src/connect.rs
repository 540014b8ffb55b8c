//! The course of a connection attempt.
//!
//! Connecting is a fixed sequence of requests to the outside world: read the
//! header of the key file (where a key is used), resolve the address, open the
//! socket, set its deadlines, perform the handshake, authenticate, and hand
//! the session over for a last check. This module decides which request comes
//! next and what the attempt ends in; whoever drives it performs each request
//! and reports back what happened.

use ssh2::Session;
use std::time::Duration;
use vstd::pervasive::unreached;
use vstd::prelude::*;

use crate::auth::{AuthMethod, AuthMethodView};
use crate::builder::ConnectionConfig;
use crate::client::SSHClient;
use crate::error::{SSHError, SSHErrorView};
use crate::key_format::{detect_private_key_format, key_format_of, openssh_rejection, rejection};
use crate::outside::{io_error_other, new_io_error_other, session_authenticated};

verus! {

/// Message of the I/O failure reported when resolution yields no address.
pub const UNRESOLVED_ADDRESS: &'static str = "Unable to resolve address";

/// What a connection attempt is waiting for.
#[derive(Clone, Copy, Debug, PartialEq, Eq, Structural)]
pub enum ConnectPhase {
    /// The first line of the key file is being read.
    KeyCheck,
    /// The host name is being resolved.
    Resolving,
    /// The socket is being opened.
    Opening,
    /// The read and write deadlines of the socket are being set.
    SettingDeadlines,
    /// The transport session is being set up on the socket and the handshake
    /// performed.
    Handshaking,
    /// The credentials are being presented.
    Authenticating,
    /// The session is being handed over for the last check.
    Verifying,
}

/// A connection attempt under way.
pub struct ConnectState {
    host: String,
    port: u16,
    auth: AuthMethod,
    timeout: Option<Duration>,
    phase: ConnectPhase,
}

/// The mathematical content of a [`ConnectState`].
pub struct ConnectStateView {
    /// Name or address of the remote host.
    pub host: Seq<char>,
    /// Port on the remote host.
    pub port: u16,
    /// The credentials of this attempt.
    pub auth: AuthMethodView,
    /// Limit on the time the socket may take to connect, and afterwards on
    /// each read and each write.
    pub timeout: Option<Duration>,
    /// What the attempt is waiting for.
    pub phase: ConnectPhase,
}

impl ConnectStateView {
    /// A key file is checked only where a key is used, and deadlines are set
    /// only where a time limit is configured.
    pub open spec fn wf(self) -> bool {
        &&& self.phase is KeyCheck ==> self.auth is Key
        &&& self.phase is SettingDeadlines ==> self.timeout is Some
    }
}

impl View for ConnectState {
    type V = ConnectStateView;

    closed spec fn view(&self) -> ConnectStateView {
        ConnectStateView {
            host: self.host@,
            port: self.port,
            auth: self.auth@,
            timeout: self.timeout,
            phase: self.phase,
        }
    }
}

/// A request to the outside world on behalf of a connection attempt.
pub enum ConnectAction {
    /// Read the first line of the file at `path`.
    ReadKeyHeader { path: String },
    /// Resolve `host` and `port` to a socket address.
    Resolve { host: String, port: u16 },
    /// Open a TCP connection to the resolved address, giving up after
    /// `timeout` where there is one.
    OpenSocket { timeout: Option<Duration> },
    /// Make `deadline` the read and the write deadline of the socket.
    SetDeadlines { deadline: Duration },
    /// Set up a transport session on the socket and perform the handshake.
    Handshake,
    /// Authenticate the session: by password, or by the private key file and
    /// its passphrase, where it has one.
    Authenticate { auth: AuthMethod },
    /// Hand the session over.
    SubmitSession,
}

/// The mathematical content of a [`ConnectAction`].
pub enum ConnectActionView {
    ReadKeyHeader { path: Seq<char> },
    Resolve { host: Seq<char>, port: u16 },
    OpenSocket { timeout: Option<Duration> },
    SetDeadlines { deadline: Duration },
    Handshake,
    Authenticate { auth: AuthMethodView },
    SubmitSession,
}

impl View for ConnectAction {
    type V = ConnectActionView;

    open spec fn view(&self) -> ConnectActionView {
        match *self {
            ConnectAction::ReadKeyHeader { path } => ConnectActionView::ReadKeyHeader {
                path: path@,
            },
            ConnectAction::Resolve { host, port } => ConnectActionView::Resolve {
                host: host@,
                port,
            },
            ConnectAction::OpenSocket { timeout } => ConnectActionView::OpenSocket { timeout },
            ConnectAction::SetDeadlines { deadline } => ConnectActionView::SetDeadlines { deadline },
            ConnectAction::Handshake => ConnectActionView::Handshake,
            ConnectAction::Authenticate { auth } => ConnectActionView::Authenticate { auth: auth@ },
            ConnectAction::SubmitSession => ConnectActionView::SubmitSession,
        }
    }
}

/// What came of a request made on behalf of a connection attempt.
pub enum ConnectEvent {
    /// The request succeeded and has nothing to report.
    Completed,
    /// The key file was opened and its first line read.
    KeyHeader(String),
    /// Resolution ran without error; the flag says whether it gave an address.
    Resolved(bool),
    /// The session on which handshake and authentication were performed.
    Session(Session),
    /// The request failed with an error of the operating system.
    IoFailed(std::io::Error),
    /// The request failed with an error of the transport engine.
    TransportFailed(ssh2::Error),
}

/// The mathematical content of a [`ConnectEvent`].
pub enum ConnectEventView {
    Completed,
    KeyHeader(Seq<char>),
    Resolved(bool),
    Session(Session),
    IoFailed(std::io::Error),
    TransportFailed(ssh2::Error),
}

impl View for ConnectEvent {
    type V = ConnectEventView;

    open spec fn view(&self) -> ConnectEventView {
        match *self {
            ConnectEvent::Completed => ConnectEventView::Completed,
            ConnectEvent::KeyHeader(line) => ConnectEventView::KeyHeader(line@),
            ConnectEvent::Resolved(found) => ConnectEventView::Resolved(found),
            ConnectEvent::Session(session) => ConnectEventView::Session(session),
            ConnectEvent::IoFailed(e) => ConnectEventView::IoFailed(e),
            ConnectEvent::TransportFailed(e) => ConnectEventView::TransportFailed(e),
        }
    }
}

/// Where a connection attempt stands after a step.
pub enum ConnectStep {
    /// The attempt goes on: its new state, and the request to perform next.
    Pending(ConnectState, ConnectAction),
    /// The attempt succeeded.
    Established(SSHClient),
    /// The attempt failed.
    Failed(SSHError),
}

/// The mathematical content of a [`ConnectStep`].
pub enum ConnectStepView {
    Pending(ConnectStateView, ConnectActionView),
    Established(Session),
    Failed(SSHErrorView),
}

impl ConnectStepView {
    /// Where the attempt goes on, its state is well formed and the request is
    /// the one that state waits on.
    pub open spec fn wf(self) -> bool {
        self matches ConnectStepView::Pending(s, request) ==> s.wf() && request == request_of(s)
    }
}

impl View for ConnectStep {
    type V = ConnectStepView;

    open spec fn view(&self) -> ConnectStepView {
        match *self {
            ConnectStep::Pending(state, action) => ConnectStepView::Pending(state@, action@),
            ConnectStep::Established(client) => ConnectStepView::Established(client@),
            ConnectStep::Failed(e) => ConnectStepView::Failed(e@),
        }
    }
}

/// The request that an attempt in state `s` is waiting on.
pub open spec fn request_of(s: ConnectStateView) -> ConnectActionView
    recommends
        s.wf(),
{
    match s.phase {
        ConnectPhase::KeyCheck => ConnectActionView::ReadKeyHeader { path: s.auth->private_key },
        ConnectPhase::Resolving => ConnectActionView::Resolve { host: s.host, port: s.port },
        ConnectPhase::Opening => ConnectActionView::OpenSocket { timeout: s.timeout },
        ConnectPhase::SettingDeadlines => ConnectActionView::SetDeadlines { deadline: s.timeout->0 },
        ConnectPhase::Handshaking => ConnectActionView::Handshake,
        ConnectPhase::Authenticating => ConnectActionView::Authenticate { auth: s.auth },
        ConnectPhase::Verifying => ConnectActionView::SubmitSession,
    }
}

/// The attempt in state `s`, waiting on its request.
pub open spec fn pending(s: ConnectStateView) -> ConnectStepView {
    ConnectStepView::Pending(s, request_of(s))
}

/// The first step of a connection attempt with configuration `config`.
///
/// Without credentials the attempt fails before anything is requested. With a
/// key, the header of the key file is asked for first; with a password, the
/// attempt goes straight to resolving the address.
pub open spec fn start(config: ConnectionConfig) -> ConnectStepView {
    match config.auth {
        None => ConnectStepView::Failed(SSHErrorView::MissingAuth),
        Some(auth) => pending(
            ConnectStateView {
                host: config.host,
                port: config.port,
                auth,
                timeout: config.timeout,
                phase: if auth is Key {
                    ConnectPhase::KeyCheck
                } else {
                    ConnectPhase::Resolving
                },
            },
        ),
    }
}

/// How an attempt ends once the session has been handed over: with the
/// session wrapped where it reports itself authenticated, and else as a
/// failed authentication, though no request has failed.
pub open spec fn verdict(session: Session, authenticated: bool) -> ConnectStepView {
    if authenticated {
        ConnectStepView::Established(session)
    } else {
        ConnectStepView::Failed(SSHErrorView::AuthFailed)
    }
}

/// The step that `event` makes of an attempt in state `s`, where
/// `authenticated` is what the session answers when it is asked whether it
/// has been authenticated.
///
/// A failure ends the attempt at once, whatever it was waiting for. An error
/// of the operating system ends it as an I/O failure. An error of the
/// transport engine ends it as a transport failure, except where the attempt
/// was waiting for the credentials to be accepted: there the engine's error
/// says that they were not, and the attempt ends as a failed authentication.
/// A success moves the attempt on to the next request, or ends it. An event
/// that does not answer the pending request changes nothing: the request
/// stands.
pub open spec fn next(
    s: ConnectStateView,
    event: ConnectEventView,
    authenticated: bool,
) -> ConnectStepView
    recommends
        s.wf(),
{
    match (s.phase, event) {
        (_, ConnectEventView::IoFailed(e)) => ConnectStepView::Failed(SSHErrorView::IO(e)),
        (ConnectPhase::Authenticating, ConnectEventView::TransportFailed(_)) =>
            ConnectStepView::Failed(SSHErrorView::AuthFailed),
        (_, ConnectEventView::TransportFailed(e)) => ConnectStepView::Failed(SSHErrorView::SSH(e)),
        (ConnectPhase::KeyCheck, ConnectEventView::KeyHeader(line)) => match rejection(line) {
            Some(e) => ConnectStepView::Failed(e),
            None => pending(ConnectStateView { phase: ConnectPhase::Resolving, ..s }),
        },
        (ConnectPhase::Resolving, ConnectEventView::Resolved(found)) => if found {
            pending(ConnectStateView { phase: ConnectPhase::Opening, ..s })
        } else {
            ConnectStepView::Failed(SSHErrorView::IO(io_error_other(UNRESOLVED_ADDRESS@)))
        },
        (ConnectPhase::Opening, ConnectEventView::Completed) => if s.timeout is Some {
            pending(ConnectStateView { phase: ConnectPhase::SettingDeadlines, ..s })
        } else {
            pending(ConnectStateView { phase: ConnectPhase::Handshaking, ..s })
        },
        (ConnectPhase::SettingDeadlines, ConnectEventView::Completed) => pending(
            ConnectStateView { phase: ConnectPhase::Handshaking, ..s },
        ),
        (ConnectPhase::Handshaking, ConnectEventView::Completed) => pending(
            ConnectStateView { phase: ConnectPhase::Authenticating, ..s },
        ),
        (ConnectPhase::Authenticating, ConnectEventView::Completed) => pending(
            ConnectStateView { phase: ConnectPhase::Verifying, ..s },
        ),
        (ConnectPhase::Verifying, ConnectEventView::Session(session)) => verdict(
            session,
            authenticated,
        ),
        _ => pending(s),
    }
}

impl ConnectState {
    #[verifier::type_invariant]
    spec fn inv(self) -> bool {
        self@.wf()
    }

    /// Begins an attempt with the given configuration and credentials.
    pub(crate) fn begin(
        host: String,
        port: u16,
        auth: AuthMethod,
        timeout: Option<Duration>,
    ) -> (step: ConnectStep)
        ensures
            step@ == start(
                ConnectionConfig { host: host@, port, auth: Some(auth@), timeout },
            ),
            step@.wf(),
    {
        let phase = match auth {
            AuthMethod::Key { .. } => ConnectPhase::KeyCheck,
            AuthMethod::Password { .. } => ConnectPhase::Resolving,
        };
        let state = ConnectState { host, port, auth, timeout, phase };
        let action = state.request();
        ConnectStep::Pending(state, action)
    }

    /// The request this attempt is waiting on.
    pub fn request(&self) -> (action: ConnectAction)
        ensures
            self@.wf(),
            action@ == request_of(self@),
    {
        proof {
            use_type_invariant(self);
        }
        match self.phase {
            ConnectPhase::KeyCheck => match &self.auth {
                AuthMethod::Key { private_key, .. } => ConnectAction::ReadKeyHeader {
                    path: private_key.clone(),
                },
                AuthMethod::Password { .. } => unreached(),
            },
            ConnectPhase::Resolving => ConnectAction::Resolve {
                host: self.host.clone(),
                port: self.port,
            },
            ConnectPhase::Opening => ConnectAction::OpenSocket { timeout: self.timeout },
            ConnectPhase::SettingDeadlines => match self.timeout {
                Some(deadline) => ConnectAction::SetDeadlines { deadline },
                None => unreached(),
            },
            ConnectPhase::Handshaking => ConnectAction::Handshake,
            ConnectPhase::Authenticating => ConnectAction::Authenticate { auth: self.auth.clone() },
            ConnectPhase::Verifying => ConnectAction::SubmitSession,
        }
    }

    /// This attempt in another phase, waiting on the request of that phase.
    fn proceed(self, phase: ConnectPhase) -> (step: ConnectStep)
        requires
            (ConnectStateView { phase, ..self@ }).wf(),
        ensures
            step@ == pending(ConnectStateView { phase, ..self@ }),
    {
        let state = ConnectState { phase, ..self };
        let action = state.request();
        ConnectStep::Pending(state, action)
    }

    /// Takes what came of the pending request and decides how the attempt
    /// goes on.
    ///
    /// Once the session has been handed over it is asked whether it has been
    /// authenticated, and [`ConnectState::conclude`] decides on its answer.
    /// That answer is the one thing that is not fixed by state and event, so
    /// the step is one of two: that for a session that says yes, or that for
    /// one that says no. Every other step is fixed by state and event.
    pub fn step(self, event: ConnectEvent) -> (step: ConnectStep)
        ensures
            step@ == next(self@, event@, true) || step@ == next(self@, event@, false),
            self@.wf(),
            step@.wf(),
    {
        proof {
            use_type_invariant(&self);
        }
        match event {
            ConnectEvent::IoFailed(e) => ConnectStep::Failed(SSHError::IO(e)),
            ConnectEvent::TransportFailed(e) => match self.phase {
                ConnectPhase::Authenticating => ConnectStep::Failed(SSHError::AuthFailed),
                _ => ConnectStep::Failed(SSHError::SSH(e)),
            },
            ConnectEvent::KeyHeader(line) => match self.phase {
                ConnectPhase::KeyCheck => match detect_private_key_format(line.as_str()) {
                    Err(e) => ConnectStep::Failed(e),
                    Ok(()) => self.proceed(ConnectPhase::Resolving),
                },
                _ => self.stay(),
            },
            ConnectEvent::Resolved(found) => match self.phase {
                ConnectPhase::Resolving => if found {
                    self.proceed(ConnectPhase::Opening)
                } else {
                    ConnectStep::Failed(SSHError::IO(new_io_error_other(UNRESOLVED_ADDRESS)))
                },
                _ => self.stay(),
            },
            ConnectEvent::Completed => match self.phase {
                ConnectPhase::Opening => if self.timeout.is_some() {
                    self.proceed(ConnectPhase::SettingDeadlines)
                } else {
                    self.proceed(ConnectPhase::Handshaking)
                },
                ConnectPhase::SettingDeadlines => self.proceed(ConnectPhase::Handshaking),
                ConnectPhase::Handshaking => self.proceed(ConnectPhase::Authenticating),
                ConnectPhase::Authenticating => self.proceed(ConnectPhase::Verifying),
                _ => self.stay(),
            },
            ConnectEvent::Session(session) => {
                let authenticated = session_authenticated(&session);
                self.conclude(session, authenticated)
            },
        }
    }

    /// Takes the session that was handed over, with its answer to the
    /// question whether it has been authenticated, and decides how the
    /// attempt goes on.
    ///
    /// Where the attempt waits for the session, it ends: with the session
    /// wrapped where the answer is yes, and as a failed authentication where
    /// it is no, though no request has failed. Where the attempt waits for
    /// something else, the request stands. [`ConnectState::step`] asks the
    /// session itself; here the answer is taken on the caller's word.
    pub fn conclude(self, session: Session, authenticated: bool) -> (step: ConnectStep)
        ensures
            step@ == next(self@, ConnectEventView::Session(session), authenticated),
            self@.wf(),
            step@.wf(),
    {
        proof {
            use_type_invariant(&self);
        }
        match self.phase {
            ConnectPhase::Verifying => if authenticated {
                ConnectStep::Established(SSHClient::new(session))
            } else {
                ConnectStep::Failed(SSHError::AuthFailed)
            },
            _ => self.stay(),
        }
    }

    /// This attempt unchanged, waiting on its request as before.
    fn stay(self) -> (step: ConnectStep)
        ensures
            step@ == pending(self@),
    {
        let action = self.request();
        ConnectStep::Pending(self, action)
    }
}

/// How far an attempt has come.
pub open spec fn rank(phase: ConnectPhase) -> nat {
    match phase {
        ConnectPhase::KeyCheck => 0,
        ConnectPhase::Resolving => 1,
        ConnectPhase::Opening => 2,
        ConnectPhase::SettingDeadlines => 3,
        ConnectPhase::Handshaking => 4,
        ConnectPhase::Authenticating => 5,
        ConnectPhase::Verifying => 6,
    }
}

/// Where an attempt that stands at `step` has got to once the events have
/// been fed to it in order, with a session that answers `authenticated` when
/// it is asked. Events that come after its end are not looked at.
pub open spec fn outcome(
    step: ConnectStepView,
    events: Seq<ConnectEventView>,
    authenticated: bool,
) -> ConnectStepView
    decreases events.len(),
{
    match step {
        ConnectStepView::Pending(s, _) => if events.len() == 0 {
            step
        } else {
            outcome(next(s, events.first(), authenticated), events.drop_first(), authenticated)
        },
        _ => step,
    }
}

/// The requests made, in order, by an attempt that stands at `step` and is
/// then fed the events: the one it is waiting on, and each one that an event
/// leads to.
pub open spec fn requests(
    step: ConnectStepView,
    events: Seq<ConnectEventView>,
    authenticated: bool,
) -> Seq<ConnectActionView>
    decreases events.len(),
{
    match step {
        ConnectStepView::Pending(s, request) => if events.len() == 0 {
            seq![request]
        } else {
            seq![request] + requests(
                next(s, events.first(), authenticated),
                events.drop_first(),
                authenticated,
            )
        },
        _ => Seq::empty(),
    }
}

/// An attempt without credentials fails as such and requests nothing,
/// whatever is reported to it: no file is read, no address resolved, no
/// socket opened.
pub proof fn lemma_missing_auth_requests_nothing(
    config: ConnectionConfig,
    events: Seq<ConnectEventView>,
    authenticated: bool,
)
    requires
        config.auth is None,
    ensures
        outcome(start(config), events, authenticated) == ConnectStepView::Failed(
            SSHErrorView::MissingAuth,
        ),
        requests(start(config), events, authenticated) == Seq::<ConnectActionView>::empty(),
{
}

/// An attempt with a key file that is turned away fails with the error that
/// turns the file away, and the reading of the file's first line is all it
/// ever requests: no address is resolved and no socket opened. For a key in
/// OpenSSH's own format that error is the one that says so.
pub proof fn lemma_rejected_key_requests_no_network(
    config: ConnectionConfig,
    events: Seq<ConnectEventView>,
    authenticated: bool,
)
    requires
        config.auth matches Some(auth) && auth is Key,
        events.len() > 0,
        events.first() matches ConnectEventView::KeyHeader(line) && rejection(line) is Some,
    ensures
        outcome(start(config), events, authenticated) == ConnectStepView::Failed(
            rejection(events.first()->KeyHeader_0)->0,
        ),
        key_format_of(events.first()->KeyHeader_0) is OpenSsh ==> outcome(
            start(config),
            events,
            authenticated,
        ) == ConnectStepView::Failed(openssh_rejection()),
        requests(start(config), events, authenticated) == seq![
            ConnectActionView::ReadKeyHeader { path: config.auth->0->private_key },
        ],
{
    reveal_with_fuel(outcome, 2);
    reveal_with_fuel(requests, 2);
}

/// A step never goes back and never changes what the attempt was configured
/// with: where the attempt goes on, it is in the same phase, with the same
/// request standing, or in a later one, and the new state is well formed.
pub proof fn lemma_step_advances(s: ConnectStateView, event: ConnectEventView, authenticated: bool)
    requires
        s.wf(),
    ensures
        next(s, event, authenticated) matches ConnectStepView::Pending(t, request) ==> {
            &&& t.wf()
            &&& request == request_of(t)
            &&& t.host == s.host
            &&& t.port == s.port
            &&& t.auth == s.auth
            &&& t.timeout == s.timeout
            &&& t == s || rank(t.phase) > rank(s.phase)
        },
{
}

/// A failure that is reported ends the attempt, in whatever phase it comes;
/// nothing is tried again. An error of the operating system is handed on as
/// it came. So is an error of the transport engine, unless it answers the
/// request to authenticate: then the attempt ends as a failed authentication.
pub proof fn lemma_failure_ends_attempt(
    s: ConnectStateView,
    io: std::io::Error,
    transport: ssh2::Error,
    authenticated: bool,
)
    ensures
        next(s, ConnectEventView::IoFailed(io), authenticated) == ConnectStepView::Failed(
            SSHErrorView::IO(io),
        ),
        next(s, ConnectEventView::TransportFailed(transport), authenticated)
            == ConnectStepView::Failed(
            if s.phase is Authenticating {
                SSHErrorView::AuthFailed
            } else {
                SSHErrorView::SSH(transport)
            },
        ),
{
}

/// Credentials that the remote side turns away end the attempt as a failed
/// authentication, not as a transport failure: an attempt by password whose
/// requests succeed up to the handshake, and whose request to authenticate
/// is answered by an error of the transport engine, has made its requests up
/// to that one and ends so, whatever the error.
pub proof fn lemma_rejected_credentials_fail_authentication(
    config: ConnectionConfig,
    error: ssh2::Error,
    authenticated: bool,
)
    requires
        config.auth matches Some(auth) && auth is Password,
        config.timeout is Some,
    ensures
        ({
            let events = seq![
                ConnectEventView::Resolved(true),
                ConnectEventView::Completed,
                ConnectEventView::Completed,
                ConnectEventView::Completed,
                ConnectEventView::TransportFailed(error),
            ];
            &&& requests(start(config), events, authenticated) == seq![
                ConnectActionView::Resolve { host: config.host, port: config.port },
                ConnectActionView::OpenSocket { timeout: config.timeout },
                ConnectActionView::SetDeadlines { deadline: config.timeout->0 },
                ConnectActionView::Handshake,
                ConnectActionView::Authenticate { auth: config.auth->0 },
            ]
            &&& outcome(start(config), events, authenticated) == ConnectStepView::Failed(
                SSHErrorView::AuthFailed,
            )
        }),
{
    reveal_with_fuel(outcome, 6);
    reveal_with_fuel(requests, 6);
    let events = seq![
        ConnectEventView::Resolved(true),
        ConnectEventView::Completed,
        ConnectEventView::Completed,
        ConnectEventView::Completed,
        ConnectEventView::TransportFailed(error),
    ];
    let e1 = events.drop_first();
    let e2 = e1.drop_first();
    let e3 = e2.drop_first();
    let e4 = e3.drop_first();
    let e5 = e4.drop_first();
    assert(e5.len() == 0);
}

/// An attempt succeeds in one way only: the session is handed over when the
/// attempt waits for it, and says that it has been authenticated. The client
/// then holds that session. An attempt fails as a failed authentication in
/// two ways only: the request to authenticate is answered by an error of the
/// transport engine, or the session is handed over when the attempt waits
/// for it and says that it has not been authenticated.
pub proof fn lemma_verdict_needs_session(
    s: ConnectStateView,
    event: ConnectEventView,
    authenticated: bool,
)
    ensures
        next(s, event, authenticated) matches ConnectStepView::Established(session) ==> s.phase
            is Verifying && event == ConnectEventView::Session(session) && authenticated,
        next(s, event, authenticated) == ConnectStepView::Failed(SSHErrorView::AuthFailed) ==> {
            ||| s.phase is Authenticating && event is TransportFailed
            ||| s.phase is Verifying && event is Session && !authenticated
        },
{
}

/// An attempt by password whose every request succeeds makes these requests,
/// in this order: resolve the address, open the socket within the time limit,
/// make the time limit the deadline of the socket, perform the handshake,
/// authenticate with the credentials as configured, hand the session over.
/// It ends as the session's answer decides.
pub proof fn lemma_password_attempt(config: ConnectionConfig, session: Session, authenticated: bool)
    requires
        config.auth matches Some(auth) && auth is Password,
        config.timeout is Some,
    ensures
        ({
            let events = seq![
                ConnectEventView::Resolved(true),
                ConnectEventView::Completed,
                ConnectEventView::Completed,
                ConnectEventView::Completed,
                ConnectEventView::Completed,
                ConnectEventView::Session(session),
            ];
            &&& requests(start(config), events, authenticated) == seq![
                ConnectActionView::Resolve { host: config.host, port: config.port },
                ConnectActionView::OpenSocket { timeout: config.timeout },
                ConnectActionView::SetDeadlines { deadline: config.timeout->0 },
                ConnectActionView::Handshake,
                ConnectActionView::Authenticate { auth: config.auth->0 },
                ConnectActionView::SubmitSession,
            ]
            &&& outcome(start(config), events, authenticated) == verdict(session, authenticated)
        }),
{
    reveal_with_fuel(outcome, 7);
    reveal_with_fuel(requests, 7);
    let events = seq![
        ConnectEventView::Resolved(true),
        ConnectEventView::Completed,
        ConnectEventView::Completed,
        ConnectEventView::Completed,
        ConnectEventView::Completed,
        ConnectEventView::Session(session),
    ];
    let e1 = events.drop_first();
    let e2 = e1.drop_first();
    let e3 = e2.drop_first();
    let e4 = e3.drop_first();
    let e5 = e4.drop_first();
    let e6 = e5.drop_first();
    assert(e6.len() == 0);
}

/// An attempt by key whose key file is accepted and whose every request
/// succeeds makes these requests, in this order: read the first line of the
/// key file, then all that an attempt by password does.
pub proof fn lemma_key_attempt(
    config: ConnectionConfig,
    line: Seq<char>,
    session: Session,
    authenticated: bool,
)
    requires
        config.auth matches Some(auth) && auth is Key,
        config.timeout is Some,
        rejection(line) is None,
    ensures
        ({
            let events = seq![
                ConnectEventView::KeyHeader(line),
                ConnectEventView::Resolved(true),
                ConnectEventView::Completed,
                ConnectEventView::Completed,
                ConnectEventView::Completed,
                ConnectEventView::Completed,
                ConnectEventView::Session(session),
            ];
            &&& requests(start(config), events, authenticated) == seq![
                ConnectActionView::ReadKeyHeader { path: config.auth->0->private_key },
                ConnectActionView::Resolve { host: config.host, port: config.port },
                ConnectActionView::OpenSocket { timeout: config.timeout },
                ConnectActionView::SetDeadlines { deadline: config.timeout->0 },
                ConnectActionView::Handshake,
                ConnectActionView::Authenticate { auth: config.auth->0 },
                ConnectActionView::SubmitSession,
            ]
            &&& outcome(start(config), events, authenticated) == verdict(session, authenticated)
        }),
{
    reveal_with_fuel(outcome, 8);
    reveal_with_fuel(requests, 8);
    let events = seq![
        ConnectEventView::KeyHeader(line),
        ConnectEventView::Resolved(true),
        ConnectEventView::Completed,
        ConnectEventView::Completed,
        ConnectEventView::Completed,
        ConnectEventView::Completed,
        ConnectEventView::Session(session),
    ];
    let e1 = events.drop_first();
    let e2 = e1.drop_first();
    let e3 = e2.drop_first();
    let e4 = e3.drop_first();
    let e5 = e4.drop_first();
    let e6 = e5.drop_first();
    let e7 = e6.drop_first();
    assert(e7.len() == 0);
}

} // verus!
