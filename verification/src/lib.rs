//! A minimal client-side SSH session manager.
//!
//! The crate holds the rules of connecting to a remote host and of running
//! commands on it: what is checked before the network is touched, in which
//! order the steps come, and how each failure is classified. It performs no
//! input or output itself. A connection attempt and a command execution are
//! each a small state machine: [`SSHBuilder::connect`] and
//! [`SSHClient::exec`] return the first request to perform, and every answer
//! that is fed back with `step` yields the next request or the end of the
//! run. Whoever drives a machine performs the requests: reads the key file,
//! opens the socket, calls the transport engine.
//!
//! * [`auth`]: the credentials of an attempt.
//! * [`builder`]: the configuration of an attempt.
//! * [`key_format`]: classification of a private key file by its header line.
//! * [`connect`]: the course of a connection attempt.
//! * [`client`]: the authenticated session and the course of a command
//!   execution.
//! * [`error`]: the failures.
//! * [`outside`]: what is taken on trust from code that is not verified here.

pub mod auth;
pub mod builder;
pub mod client;
pub mod connect;
pub mod error;
pub mod key_format;
pub mod outside;

pub use auth::AuthMethod;
pub use builder::SSHBuilder;
pub use client::SSHClient;
pub use error::SSHError;
