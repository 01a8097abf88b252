//! The middleware that binds a session to a cookie: what it makes of the
//! cookie that a request brings, and what it does to the session and to the
//! response once the handler is through.
//!
//! The cookie jar, the handler and the store are not reached from here. The
//! caller reads the cookie, runs the handler and carries the commands to the
//! store; every decision in between is made here.

use crate::sessions::expiry::Expiry;
use crate::sessions::id::Id;
use crate::sessions::session::{
    deleting, resumed, saving, IdType, Pending, PendingView, Session, SessionDataView, Step,
    StepView,
};
use crate::sessions::store::{SessionStore, StoreReply, StoreRequest, StoreRequestView};
use vstd::prelude::*;
use vstd::string::StringExecFns;

verus! {

/// The status of a response that tells the client that it is not
/// authenticated.
pub const UNAUTHORIZED: u16 = 401;

/// Whether `status` is a server error.
pub open spec fn is_server_error(status: u16) -> bool {
    500 <= status < 600
}

/// When the browser sends the cookie along with requests from other sites.
#[derive(Clone, Copy, Debug, PartialEq, Eq, Structural)]
pub enum SameSite {
    /// Never.
    Strict,
    /// Only when the user navigates to the site.
    Lax,
    /// Always.
    Unrestricted,
}

/// The attributes of the session cookie.
#[derive(Debug)]
pub struct SessionConfig {
    pub name: String,
    pub http_only: bool,
    pub same_site: SameSite,
    pub expiry: Expiry,
    pub secure: bool,
    pub path: String,
    pub domain: Option<String>,
}

/// A [`SessionConfig`] as a value.
pub struct SessionConfigView {
    pub name: Seq<char>,
    pub http_only: bool,
    pub same_site: SameSite,
    pub expiry: Expiry,
    pub secure: bool,
    pub path: Seq<char>,
    pub domain: Option<Seq<char>>,
}

impl View for SessionConfig {
    type V = SessionConfigView;

    open spec fn view(&self) -> SessionConfigView {
        SessionConfigView {
            name: self.name@,
            http_only: self.http_only,
            same_site: self.same_site,
            expiry: self.expiry,
            secure: self.secure,
            path: self.path@,
            domain: self.domain.deep_view(),
        }
    }
}

/// A cookie to set on the response.
#[derive(Debug, PartialEq, Eq)]
pub struct SessionCookie {
    pub name: String,
    pub value: String,
    pub http_only: bool,
    pub same_site: SameSite,
    pub secure: bool,
    pub path: String,
    /// Seconds that the browser keeps the cookie; without them it keeps the
    /// cookie until it is closed.
    pub max_age: Option<i64>,
    pub domain: Option<String>,
}

/// A [`SessionCookie`] as a value.
pub struct SessionCookieView {
    pub name: Seq<char>,
    pub value: Seq<char>,
    pub http_only: bool,
    pub same_site: SameSite,
    pub secure: bool,
    pub path: Seq<char>,
    pub max_age: Option<i64>,
    pub domain: Option<Seq<char>>,
}

impl View for SessionCookie {
    type V = SessionCookieView;

    open spec fn view(&self) -> SessionCookieView {
        SessionCookieView {
            name: self.name@,
            value: self.value@,
            http_only: self.http_only,
            same_site: self.same_site,
            secure: self.secure,
            path: self.path@,
            max_age: self.max_age,
            domain: self.domain.deep_view(),
        }
    }
}

impl SessionConfigView {
    /// The configuration that is used where none is given: the cookie is
    /// named `id`, kept from scripts and other sites, sent over secure
    /// connections only and for every path, and ends with the browser's
    /// session.
    pub open spec fn default() -> SessionConfigView {
        SessionConfigView {
            name: "id"@,
            http_only: true,
            same_site: SameSite::Strict,
            expiry: Expiry::OnSessionEnd,
            secure: true,
            path: "/"@,
            domain: None,
        }
    }

    /// The cookie that carries `session_id` with these attributes, for a
    /// session that ends as `expiry` says, issued at `now`.
    pub open spec fn cookie(self, session_id: Id, expiry: Expiry, now: i64) -> SessionCookieView {
        SessionCookieView {
            name: self.name,
            value: session_id.text(),
            http_only: self.http_only,
            same_site: self.same_site,
            secure: self.secure,
            path: self.path,
            max_age: match expiry.cookie_age_at(now as int) {
                Some(seconds) => Some(seconds as i64),
                None => None,
            },
            domain: self.domain,
        }
    }
}

impl Clone for SessionConfig {
    fn clone(&self) -> (copy: Self)
        ensures
            copy@ == self@,
    {
        SessionConfig {
            name: self.name.clone(),
            http_only: self.http_only,
            same_site: self.same_site,
            expiry: self.expiry,
            secure: self.secure,
            path: self.path.clone(),
            domain: clone_text(&self.domain),
        }
    }
}

impl Default for SessionConfig {
    fn default() -> (config: Self)
        ensures
            config@ == SessionConfigView::default(),
    {
        Self {
            name: String::from_str("id"),
            http_only: true,
            same_site: SameSite::Strict,
            expiry: Expiry::OnSessionEnd,
            secure: true,
            path: String::from_str("/"),
            domain: None,
        }
    }
}

/// A copy of a text that may be absent.
fn clone_text(text: &Option<String>) -> (copy: Option<String>)
    ensures
        copy.deep_view() == text.deep_view(),
{
    match text {
        Some(text) => Some(text.clone()),
        None => None,
    }
}

impl SessionConfig {
    /// The cookie that carries `session_id` to the client, issued at `now`.
    pub fn build_cookie(self, session_id: Id, expiry: Expiry, now: i64) -> (cookie: SessionCookie)
        ensures
            cookie@ == self@.cookie(session_id, expiry, now),
    {
        SessionCookie {
            name: self.name,
            value: session_id.to_string(),
            http_only: self.http_only,
            same_site: self.same_site,
            secure: self.secure,
            path: self.path,
            max_age: expiry.max_age_at(now),
            domain: self.domain,
        }
    }
}

/// What the middleware does to the response of the handler.
#[derive(Debug, PartialEq, Eq)]
pub enum Outcome {
    /// Nothing: the response goes out as the handler made it.
    Untouched,
    /// The cookie that the request brought is removed from the client. The
    /// removal names the path and the domain that the cookie was set with.
    RemoveCookie { path: String, domain: Option<String> },
    /// The session was written to the store, and this cookie is set.
    AddCookie(SessionCookie),
    /// The session could not be written: an internal server error goes out
    /// in place of the handler's response.
    InternalServerError,
}

/// An [`Outcome`] as a value.
pub enum OutcomeView {
    Untouched,
    RemoveCookie { path: Seq<char>, domain: Option<Seq<char>> },
    AddCookie(SessionCookieView),
    InternalServerError,
}

impl View for Outcome {
    type V = OutcomeView;

    open spec fn view(&self) -> OutcomeView {
        match *self {
            Outcome::Untouched => OutcomeView::Untouched,
            Outcome::RemoveCookie { path, domain } => OutcomeView::RemoveCookie {
                path: path@,
                domain: domain.deep_view(),
            },
            Outcome::AddCookie(cookie) => OutcomeView::AddCookie(cookie@),
            Outcome::InternalServerError => OutcomeView::InternalServerError,
        }
    }
}

/// How far the middleware has come with a response.
pub enum Teardown {
    /// It is through.
    Finished(Outcome),
    /// The store must answer this command first. Hand the answer to
    /// [`SessionManager::resume`], with what the session waits for.
    Ask(StoreRequest, Pending),
}

/// A [`Teardown`] as a value.
pub enum TeardownView {
    Finished(OutcomeView),
    Ask(StoreRequestView, PendingView),
}

impl View for Teardown {
    type V = TeardownView;

    open spec fn view(&self) -> TeardownView {
        match *self {
            Teardown::Finished(outcome) => TeardownView::Finished(outcome@),
            Teardown::Ask(request, pending) => TeardownView::Ask(request@, pending@),
        }
    }
}

/// What the middleware makes of a step of the session while it writes the
/// session back: a command goes to the store, a failure becomes an internal
/// server error, and once the session is written its cookie is set. A
/// session that ends without a confirmed identifier cannot be named in a
/// cookie, which is an internal server error too.
pub open spec fn persisted(
    config: SessionConfigView,
    session: SessionDataView,
    step: StepView,
    now: i64,
) -> TeardownView {
    match step {
        StepView::Ask(request, pending) => TeardownView::Ask(request, pending),
        StepView::Done(Err(_)) => TeardownView::Finished(OutcomeView::InternalServerError),
        StepView::Done(Ok(_)) => match session.id {
            IdType::Id(session_id) => TeardownView::Finished(
                OutcomeView::AddCookie(config.cookie(session_id, session.expiry, now)),
            ),
            _ => TeardownView::Finished(OutcomeView::InternalServerError),
        },
    }
}

/// What the middleware does once the handler has answered with `status` a
/// request that brought a session cookie or not, as `had_cookie` says, and
/// left the session as `pre`.
///
/// A cookie whose session is empty, or whose request was not authenticated,
/// is removed. Else a modified session is written back unless the handler
/// failed: an empty one is deleted, any other saved. Else nothing is done.
pub open spec fn concluded(
    config: SessionConfigView,
    had_cookie: bool,
    status: u16,
    pre: SessionDataView,
    now: i64,
    post: SessionDataView,
    teardown: TeardownView,
) -> bool {
    if had_cookie && (pre.is_empty() || status == UNAUTHORIZED) {
        post == pre && teardown == TeardownView::Finished(
            OutcomeView::RemoveCookie { path: config.path, domain: config.domain },
        )
    } else if pre.should_save && !is_server_error(status) {
        exists|step: StepView|
            {
                &&& if pre.is_empty() {
                    post == pre && deleting(pre, step)
                } else {
                    saving(pre, now, post, step)
                }
                &&& teardown == #[trigger] persisted(config, post, step, now)
            }
    } else {
        post == pre && teardown == TeardownView::Finished(OutcomeView::Untouched)
    }
}

/// The middleware of one application: it provides each request with its
/// [`Session`] and sees to the session and its cookie afterwards.
#[derive(Debug)]
pub struct SessionManager {
    pub session_config: SessionConfig,
}

impl SessionManager {
    /// The session of a request that brought `cookie` as the value of its
    /// session cookie, or none. A value that is no identifier counts as no
    /// cookie. The store is not asked for anything yet.
    pub fn session(&self, cookie: Option<&str>) -> (session: Session)
        ensures
            session@ == (SessionDataView {
                id: match cookie {
                    Some(value) => match Id::parsed(value@) {
                        Some(id) => IdType::Unloaded(id),
                        None => IdType::NoId,
                    },
                    None => IdType::NoId,
                },
                data: None,
                expiry: self.session_config@.expiry,
                should_save: false,
            }),
    {
        let session_id = match cookie {
            Some(value) => match Id::parse(value) {
                Ok(id) => Some(id),
                Err(_) => None,
            },
            None => None,
        };
        Session::new(session_id, self.session_config.expiry)
    }

    /// Goes on after a step of the session that writes it back.
    fn persist(&self, session: &Session, step: Step, now: i64) -> (teardown: Teardown)
        ensures
            teardown@ == persisted(self.session_config@, session@, step@, now),
    {
        match step {
            Step::Ask(request, pending) => Teardown::Ask(request, pending),
            Step::Done(Err(_)) => Teardown::Finished(Outcome::InternalServerError),
            Step::Done(Ok(_)) => match session.id() {
                IdType::Id(session_id) => {
                    let expiry = session.expiry();
                    let session_cookie = self.session_config.clone().build_cookie(
                        session_id,
                        expiry,
                        now,
                    );
                    Teardown::Finished(Outcome::AddCookie(session_cookie))
                },
                _ => Teardown::Finished(Outcome::InternalServerError),
            },
        }
    }

    /// Sees to the session once the handler has answered with `status`.
    /// `had_cookie` says whether the request brought a session cookie,
    /// readable as an identifier or not.
    pub fn conclude(
        &self,
        session: &mut Session,
        store: &mut SessionStore,
        had_cookie: bool,
        status: u16,
        now: i64,
    ) -> (teardown: Teardown)
        ensures
            concluded(
                self.session_config@,
                had_cookie,
                status,
                old(session)@,
                now,
                final(session)@,
                teardown@,
            ),
    {
        let should_save = session.should_save();
        let empty = session.is_empty();
        if had_cookie && (empty || status == UNAUTHORIZED) {
            Teardown::Finished(
                Outcome::RemoveCookie {
                    path: self.session_config.path.clone(),
                    domain: clone_text(&self.session_config.domain),
                },
            )
        } else if should_save && !(500 <= status && status < 600) {
            let step = if empty {
                session.delete(store)
            } else {
                session.save(store, now)
            };
            let ghost taken = step@;
            let teardown = self.persist(session, step, now);
            assert(teardown@ == persisted(self.session_config@, session@, taken, now));
            teardown
        } else {
            Teardown::Finished(Outcome::Untouched)
        }
    }

    /// Goes on with writing the session back, now that the store has
    /// answered `reply` to what the session waited for as `pending`.
    pub fn resume(
        &self,
        session: &mut Session,
        store: &mut SessionStore,
        pending: Pending,
        reply: StoreReply,
        now: i64,
    ) -> (teardown: Teardown)
        ensures
            exists|step: StepView|
                {
                    &&& resumed(old(session)@, pending@, reply@, now, final(session)@, step)
                    &&& teardown@ == #[trigger] persisted(
                        self.session_config@,
                        final(session)@,
                        step,
                        now,
                    )
                },
    {
        let step = session.resume(store, pending, reply, now);
        self.persist(session, step, now)
    }
}

/// The configuration of the middleware, attribute by attribute.
#[derive(Debug)]
pub struct SessionManagerLayer {
    pub session_config: SessionConfig,
}

impl SessionManagerLayer {
    /// A layer whose cookies go out in plain text.
    pub fn new(session_config: SessionConfig) -> (layer: Self)
        ensures
            layer.session_config@ == session_config@,
    {
        Self { session_config }
    }

    /// The layer with the cookie named `name`.
    pub fn with_name(self, name: String) -> (layer: Self)
        ensures
            layer.session_config@ == (SessionConfigView { name: name@, ..self.session_config@ }),
    {
        Self { session_config: SessionConfig { name, ..self.session_config } }
    }

    /// The layer with the cookie kept from scripts, or not.
    pub fn with_http_only(self, http_only: bool) -> (layer: Self)
        ensures
            layer.session_config@ == (SessionConfigView { http_only, ..self.session_config@ }),
    {
        Self { session_config: SessionConfig { http_only, ..self.session_config } }
    }

    /// The layer with the cookie sent from other sites as `same_site` says.
    pub fn with_same_site(self, same_site: SameSite) -> (layer: Self)
        ensures
            layer.session_config@ == (SessionConfigView { same_site, ..self.session_config@ }),
    {
        Self { session_config: SessionConfig { same_site, ..self.session_config } }
    }

    /// The layer with sessions that end as `expiry` says.
    pub fn with_expiry(self, expiry: Expiry) -> (layer: Self)
        ensures
            layer.session_config@ == (SessionConfigView { expiry, ..self.session_config@ }),
    {
        Self { session_config: SessionConfig { expiry, ..self.session_config } }
    }

    /// The layer with the cookie sent over secure connections only, or not.
    pub fn with_secure(self, secure: bool) -> (layer: Self)
        ensures
            layer.session_config@ == (SessionConfigView { secure, ..self.session_config@ }),
    {
        Self { session_config: SessionConfig { secure, ..self.session_config } }
    }

    /// The layer with the cookie sent for `path`.
    pub fn with_path(self, path: String) -> (layer: Self)
        ensures
            layer.session_config@ == (SessionConfigView { path: path@, ..self.session_config@ }),
    {
        Self { session_config: SessionConfig { path, ..self.session_config } }
    }

    /// The layer with the cookie sent to `domain`.
    pub fn with_domain(self, domain: String) -> (layer: Self)
        ensures
            layer.session_config@ == (SessionConfigView {
                domain: Some(domain@),
                ..self.session_config@
            }),
    {
        Self { session_config: SessionConfig { domain: Some(domain), ..self.session_config } }
    }

    /// The middleware with this configuration.
    pub fn layer(&self) -> (manager: SessionManager)
        ensures
            manager.session_config@ == self.session_config@,
    {
        SessionManager { session_config: self.session_config.clone() }
    }
}

} // verus!
