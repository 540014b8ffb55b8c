//! Configuration of a connection attempt.

use std::time::Duration;
use vstd::prelude::*;

use crate::auth::{AuthMethod, AuthMethodView};
use crate::connect::{start, ConnectState, ConnectStep, ConnectStepView};
use crate::error::{SSHError, SSHErrorView};
use crate::outside::duration_from_secs;

verus! {

/// The port a connection goes to unless another one is configured.
pub const DEFAULT_PORT: u16 = 22;

/// The time limit, in seconds, that applies unless another one is configured.
pub const DEFAULT_TIMEOUT_SECS: u64 = 10;

/// Accumulates the configuration of one connection attempt.
///
/// Each configuration call takes the builder and returns the updated one;
/// `connect` consumes it.
pub struct SSHBuilder {
    host: String,
    port: u16,
    auth: Option<AuthMethod>,
    timeout: Option<Duration>,
}

/// The mathematical content of an [`SSHBuilder`].
pub struct ConnectionConfig {
    /// Name or address of the remote host.
    pub host: Seq<char>,
    /// Port on the remote host.
    pub port: u16,
    /// Credentials, once configured.
    pub auth: Option<AuthMethodView>,
    /// Limit on the time the socket may take to connect, and afterwards on
    /// each read and each write.
    pub timeout: Option<Duration>,
}

impl View for SSHBuilder {
    type V = ConnectionConfig;

    closed spec fn view(&self) -> ConnectionConfig {
        ConnectionConfig {
            host: self.host@,
            port: self.port,
            auth: match self.auth {
                Some(a) => Some(a@),
                None => None,
            },
            timeout: self.timeout,
        }
    }
}

impl SSHBuilder {
    /// A configuration always carries a time limit: one is set from the
    /// start, and it can be replaced but not removed.
    #[verifier::type_invariant]
    spec fn inv(self) -> bool {
        self.timeout is Some
    }

    /// A configuration for `host` with the defaults: port 22, no credentials,
    /// a time limit of ten seconds.
    pub fn new(host: String) -> (b: Self)
        ensures
            b@ == (ConnectionConfig {
                host: host@,
                port: DEFAULT_PORT,
                auth: None,
                timeout: Some(duration_from_secs(DEFAULT_TIMEOUT_SECS)),
            }),
    {
        SSHBuilder {
            host,
            port: DEFAULT_PORT,
            auth: None,
            timeout: Some(Duration::from_secs(DEFAULT_TIMEOUT_SECS)),
        }
    }

    /// The same configuration with the port replaced.
    pub fn port(self, port: u16) -> (b: Self)
        ensures
            b@ == (ConnectionConfig { port, ..self@ }),
            b@.timeout is Some,
    {
        proof {
            use_type_invariant(&self);
        }
        SSHBuilder { port, ..self }
    }

    /// The same configuration with the credentials replaced.
    pub fn auth(self, auth: AuthMethod) -> (b: Self)
        ensures
            b@ == (ConnectionConfig { auth: Some(auth@), ..self@ }),
            b@.timeout is Some,
    {
        proof {
            use_type_invariant(&self);
        }
        SSHBuilder { auth: Some(auth), ..self }
    }

    /// The same configuration with the time limit replaced.
    pub fn timeout(self, dur: Duration) -> (b: Self)
        ensures
            b@ == (ConnectionConfig { timeout: Some(dur), ..self@ }),
    {
        SSHBuilder { timeout: Some(dur), ..self }
    }

    /// Consumes the configuration and begins the connection attempt.
    ///
    /// Without credentials the attempt fails at once, before anything is
    /// requested of the outside world. Otherwise the first request is
    /// returned, with the state of the attempt that waits on it.
    pub fn connect(self) -> (step: ConnectStep)
        ensures
            step@ == start(self@),
            self@.auth is None ==> step@ == ConnectStepView::Failed(SSHErrorView::MissingAuth),
            self@.timeout is Some,
            step@.wf(),
    {
        proof {
            use_type_invariant(&self);
        }
        match self.auth {
            None => ConnectStep::Failed(SSHError::MissingAuth),
            Some(auth) => ConnectState::begin(self.host, self.port, auth, self.timeout),
        }
    }
}

} // verus!
