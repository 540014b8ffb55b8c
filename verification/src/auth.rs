//! Credentials a connection attempt can present.

use vstd::prelude::*;

verus! {

/// The closed set of ways to authenticate against the remote host.
///
/// A value is handed to the connector once and travels with the connection
/// attempt until the transport engine is asked to authenticate with it.
pub enum AuthMethod {
    /// Plain user name and password.
    Password { username: String, password: String },
    /// A private key file on the local disk, optionally protected by a
    /// passphrase. `private_key` is the path of that file.
    Key { username: String, private_key: String, passphrase: Option<String> },
}

/// The mathematical content of an [`AuthMethod`].
pub enum AuthMethodView {
    Password { username: Seq<char>, password: Seq<char> },
    Key { username: Seq<char>, private_key: Seq<char>, passphrase: Option<Seq<char>> },
}

impl View for AuthMethod {
    type V = AuthMethodView;

    open spec fn view(&self) -> AuthMethodView {
        match *self {
            AuthMethod::Password { username, password } => AuthMethodView::Password {
                username: username@,
                password: password@,
            },
            AuthMethod::Key { username, private_key, passphrase } => AuthMethodView::Key {
                username: username@,
                private_key: private_key@,
                passphrase: match passphrase {
                    Some(p) => Some(p@),
                    None => None,
                },
            },
        }
    }
}

impl Clone for AuthMethod {
    fn clone(&self) -> (copy: Self)
        ensures
            copy@ == self@,
    {
        match self {
            AuthMethod::Password { username, password } => AuthMethod::Password {
                username: username.clone(),
                password: password.clone(),
            },
            AuthMethod::Key { username, private_key, passphrase } => AuthMethod::Key {
                username: username.clone(),
                private_key: private_key.clone(),
                passphrase: match passphrase {
                    Some(p) => Some(p.clone()),
                    None => None,
                },
            },
        }
    }
}

} // verus!
