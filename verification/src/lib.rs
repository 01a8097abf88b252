//! The verified core of a school's web backend.
//!
//! [`sessions`] holds most of it: opaque session identifiers, the session of
//! a request as a state machine that is loaded lazily, the protocol that it
//! speaks to a key-value store of session records, and the decisions of the
//! middleware that binds a session to a cookie. Nothing here performs I/O:
//! an operation that needs the store hands out the command for it and takes
//! the answer back.
//!
//! Beside it stand what a session carries ([`auth`]), the server's
//! configuration ([`config`]), the paging of lists ([`resources`]) and the
//! rendering of page elements ([`serve`]).

pub mod auth;
pub mod config;
pub mod resources;
pub mod serve;
pub mod sessions;
