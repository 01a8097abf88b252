//! Store-backed, cookie-bound sessions.

pub mod backend;
pub mod expiry;
pub mod id;
pub mod service;
pub mod session;
pub mod store;

pub use self::expiry::Expiry;
pub use self::id::{Id, IdParseError};
pub use self::service::{
    Outcome, SameSite, SessionConfig, SessionCookie, SessionManager, SessionManagerLayer, Teardown,
};
pub use self::session::{Access, IdType, Pending, Session, SessionData, Step};
pub use self::store::{
    ExistenceFlag, SessionStore, SessionStoreData, SessionStoreError, StoreReply, StoreRequest,
};

use self::store::StoreErrorView;
use vstd::prelude::*;
use vstd::std_specs::convert::FromSpecImpl;
use vstd::string::StringExecFns;

verus! {

/// Session errors.
#[derive(Debug, PartialEq, Eq)]
pub enum Error {
    /// The store failed.
    Store(SessionStoreError),
    /// The store holds no record of the session.
    SessionNotFound,
}

/// An [`Error`] as a value.
pub enum ErrorView {
    Store(StoreErrorView),
    SessionNotFound,
}

impl View for Error {
    type V = ErrorView;

    open spec fn view(&self) -> ErrorView {
        match *self {
            Error::Store(error) => ErrorView::Store(error@),
            Error::SessionNotFound => ErrorView::SessionNotFound,
        }
    }
}

/// The session error that an error of the store becomes: that a record is
/// missing is an error of its own.
pub open spec fn error_of(error: StoreErrorView) -> ErrorView {
    match error {
        StoreErrorView::NotFound => ErrorView::SessionNotFound,
        other => ErrorView::Store(other),
    }
}

impl From<SessionStoreError> for Error {
    fn from(value: SessionStoreError) -> (error: Self) {
        match value {
            SessionStoreError::NotFound => Self::SessionNotFound,
            e => Self::Store(e),
        }
    }
}

impl FromSpecImpl<SessionStoreError> for Error {
    open spec fn obeys_from_spec() -> bool {
        true
    }

    open spec fn from_spec(value: SessionStoreError) -> Self {
        match value {
            SessionStoreError::NotFound => Self::SessionNotFound,
            e => Self::Store(e),
        }
    }
}

impl Error {
    /// The session error that `error` becomes.
    pub fn from_store(error: SessionStoreError) -> (r: Self)
        ensures
            r@ == error_of(error@),
    {
        Error::from(error)
    }

    /// The error in words.
    pub fn to_string(&self) -> (text: String)
        ensures
            text@ == match *self {
                Error::Store(error) => "Redis session store error: "@ + error.to_string_spec(),
                Error::SessionNotFound => "Session not found"@,
            },
    {
        match self {
            Error::Store(error) => String::from_str("Redis session store error: ").concat(
                error.to_string().as_str(),
            ),
            Error::SessionNotFound => String::from_str("Session not found"),
        }
    }
}

} // verus!
