//! The failures a connection attempt or a command execution can end in.

use vstd::prelude::*;

verus! {

/// Why a connection attempt or a command execution failed.
#[derive(Debug)]
pub enum SSHError {
    /// Address resolution, socket or stream failure; wraps the OS-level error.
    IO(std::io::Error),
    /// The private key file is in a format the transport engine cannot read.
    UnsupportedPrivateKeyFormat { detected: String, hint: &'static str },
    /// Handshake or protocol failure; wraps the transport engine's own error.
    SSH(ssh2::Error),
    /// `connect` was called before any credentials were configured.
    MissingAuth,
    /// The credentials were turned away, or the session does not report
    /// itself authenticated.
    AuthFailed,
}

/// The mathematical content of an [`SSHError`].
pub enum SSHErrorView {
    IO(std::io::Error),
    UnsupportedPrivateKeyFormat { detected: Seq<char>, hint: Seq<char> },
    SSH(ssh2::Error),
    MissingAuth,
    AuthFailed,
}

impl View for SSHError {
    type V = SSHErrorView;

    open spec fn view(&self) -> SSHErrorView {
        match *self {
            SSHError::IO(e) => SSHErrorView::IO(e),
            SSHError::UnsupportedPrivateKeyFormat { detected, hint } =>
                SSHErrorView::UnsupportedPrivateKeyFormat { detected: detected@, hint: hint@ },
            SSHError::SSH(e) => SSHErrorView::SSH(e),
            SSHError::MissingAuth => SSHErrorView::MissingAuth,
            SSHError::AuthFailed => SSHErrorView::AuthFailed,
        }
    }
}

/// `r` is the failure whose content is `error`.
pub open spec fn fails_with<T>(r: Result<T, SSHError>, error: SSHErrorView) -> bool {
    r matches Err(e) && e@ == error
}

} // verus!
