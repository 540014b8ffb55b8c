//! What this library takes on trust from code it does not verify: the types
//! of the standard library and of the transport engine that it carries
//! through, and the few calls it makes into them.

use vstd::prelude::*;

verus! {

/// `std::io::Error`. The library wraps such errors and hands them on; it never
/// looks inside one.
#[verifier::external_type_specification]
#[verifier::external_body]
pub struct ExIoError(std::io::Error);

/// `ssh2::Error`, the error of the transport engine. The library wraps such
/// errors and hands them on; it never looks inside one.
#[verifier::external_type_specification]
#[verifier::external_body]
pub struct ExTransportError(ssh2::Error);

/// `ssh2::Session`, the transport engine's handle on one connection. The
/// library asks it one question and keeps it; everything else is done on it
/// by whoever drives the library.
#[verifier::external_type_specification]
#[verifier::external_body]
pub struct ExSession(ssh2::Session);

/// The error that `std::io::Error::other` makes of a message.
pub uninterp spec fn io_error_other(message: Seq<char>) -> std::io::Error;

/// Calls `std::io::Error::other` with `message` as the payload, which makes
/// an I/O error of the kind `Other` that displays as the message. Assumed:
/// the error is determined by the message.
#[verifier::external_body]
pub(crate) fn new_io_error_other(message: &str) -> (e: std::io::Error)
    ensures
        e == io_error_other(message@),
{
    std::io::Error::other(message.to_string())
}

/// The duration that `std::time::Duration::from_secs` makes of a number of
/// seconds.
pub uninterp spec fn duration_from_secs(secs: u64) -> std::time::Duration;

/// `std::time::Duration::from_secs` makes a duration of that many whole
/// seconds. Assumed: the duration is determined by the number.
pub assume_specification[ std::time::Duration::from_secs ](secs: u64) -> (d: std::time::Duration)
    ensures
        d == duration_from_secs(secs),
;

/// Calls `ssh2::Session::authenticated`, which asks the transport engine
/// whether the session has been authenticated. Nothing is assumed of the
/// answer.
#[verifier::external_body]
pub(crate) fn session_authenticated(session: &ssh2::Session) -> bool {
    session.authenticated()
}

} // verus!
