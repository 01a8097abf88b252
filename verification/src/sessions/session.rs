//! The session of one request: what is held in memory of a session record,
//! and the steps by which it is read from the store and written back.

use crate::auth::{clone_payload, AuthUser, AuthUserView};
use crate::sessions::error_of;
use crate::sessions::expiry::Expiry;
use crate::sessions::id::Id;
use crate::sessions::store::{
    deleted_of, key_of, loaded_of, saved_of, write_request, written_of, ExistenceFlag,
    SessionStore, StoreErrorView, StoreReply, StoreReplyView, StoreRequest, StoreRequestView,
};
use crate::sessions::{Error, ErrorView};
use vstd::prelude::*;

verus! {

/// What a session knows of its identifier.
#[derive(Clone, Copy, Default, PartialEq, Eq, Structural)]
#[non_exhaustive]
pub enum IdType {
    /// There is none: the session is new, or has been invalidated.
    #[default]
    NoId,
    /// The request brought this identifier; its record has not been asked
    /// for yet.
    Unloaded(Id),
    /// The store holds a record under this identifier, which was read from
    /// it or written to it.
    Id(Id),
}

impl IdType {
    /// A description that keeps the identifier to itself.
    pub fn describe(&self) -> (text: &'static str)
        ensures
            text@ == match *self {
                IdType::NoId => "None"@,
                IdType::Unloaded(_) => "Unloaded([redacted])"@,
                IdType::Id(_) => "Id([redacted])"@,
            },
    {
        match self {
            IdType::NoId => "None",
            IdType::Unloaded(_) => "Unloaded([redacted])",
            IdType::Id(_) => "Id([redacted])",
        }
    }
}

/// The state of a session in memory.
pub struct SessionData {
    pub id: IdType,
    pub data: Option<AuthUser>,
    pub expiry: Expiry,
    pub should_save: bool,
}

/// A [`SessionData`] as a value.
pub struct SessionDataView {
    pub id: IdType,
    pub data: Option<AuthUserView>,
    pub expiry: Expiry,
    pub should_save: bool,
}

impl View for SessionData {
    type V = SessionDataView;

    open spec fn view(&self) -> SessionDataView {
        SessionDataView {
            id: self.id,
            data: self.data.deep_view(),
            expiry: self.expiry,
            should_save: self.should_save,
        }
    }
}

impl DeepView for SessionData {
    type V = SessionDataView;

    open spec fn deep_view(&self) -> SessionDataView {
        self@
    }
}

impl Clone for SessionData {
    fn clone(&self) -> (copy: Self)
        ensures
            copy@ == self@,
    {
        SessionData {
            id: self.id,
            data: clone_payload(&self.data),
            expiry: self.expiry,
            should_save: self.should_save,
        }
    }
}

impl SessionData {
    /// What is in memory of a record that the store holds under `id`, before
    /// anything has confirmed the identifier.
    pub fn new(id: Id, data: Option<AuthUser>, expiry: Expiry) -> (r: Self)
        ensures
            r@ == (SessionDataView {
                id: IdType::Unloaded(id),
                data: data.deep_view(),
                expiry,
                should_save: false,
            }),
    {
        Self { id: IdType::Unloaded(id), data, expiry, should_save: false }
    }

    /// What the session knows of its identifier.
    pub fn id(&self) -> (id: &IdType)
        ensures
            *id == self@.id,
    {
        &self.id
    }

    /// A copy of the payload.
    pub fn data(&self) -> (data: Option<AuthUser>)
        ensures
            data.deep_view() == self@.data,
    {
        clone_payload(&self.data)
    }

    /// When the session ends.
    pub fn expiry(&self) -> (expiry: Expiry)
        ensures
            expiry == self@.expiry,
    {
        self.expiry
    }

    /// The moment at which the session ends, counted from the clock's
    /// present reading.
    pub fn expiry_date(&self) -> (date: i64)
        ensures
            exists|now: i64| date == self@.expiry.date_at(now as int),
    {
        self.expiry.expiry_date()
    }
}

/// What a caller wants of the payload once the record is in memory.
pub enum Access {
    /// A copy of the payload.
    Reading,
    /// This payload in place of the present one.
    Writing(AuthUser),
}

/// An [`Access`] as a value.
pub enum AccessView {
    Reading,
    Writing(AuthUserView),
}

impl View for Access {
    type V = AccessView;

    open spec fn view(&self) -> AccessView {
        match *self {
            Access::Reading => AccessView::Reading,
            Access::Writing(value) => AccessView::Writing(value@),
        }
    }
}

impl DeepView for Access {
    type V = AccessView;

    open spec fn deep_view(&self) -> AccessView {
        self@
    }
}

/// What a session waits for while a command is with the store, and so what
/// the answer is for.
pub enum Pending {
    /// The record of the identifier that the request brought, for `access`.
    Load { id: Id, access: Access },
    /// The creation of a record under the fresh `id`, after the store held
    /// none for the identifier that the request brought.
    Recover { id: Id, access: Access },
    /// The creation of a record under the fresh `id`, to save the session.
    Create { id: Id },
    /// The update of the session's record.
    Update,
    /// The deletion of the session's record.
    Delete,
    /// The deletion of the session's record, to flush the session.
    Flush,
    /// The deletion of the record under the old identifier, to cycle it.
    Cycle,
    /// The creation of a record under the fresh `id`, in place of the one
    /// that cycling deleted.
    Renew { id: Id },
    /// The record of the confirmed identifier `id`, to read it afresh.
    Reload { id: Id },
}

/// A [`Pending`] as a value.
pub enum PendingView {
    Load { id: Id, access: AccessView },
    Recover { id: Id, access: AccessView },
    Create { id: Id },
    Update,
    Delete,
    Flush,
    Cycle,
    Renew { id: Id },
    Reload { id: Id },
}

impl View for Pending {
    type V = PendingView;

    open spec fn view(&self) -> PendingView {
        match *self {
            Pending::Load { id, access } => PendingView::Load { id, access: access@ },
            Pending::Recover { id, access } => PendingView::Recover { id, access: access@ },
            Pending::Create { id } => PendingView::Create { id },
            Pending::Update => PendingView::Update,
            Pending::Delete => PendingView::Delete,
            Pending::Flush => PendingView::Flush,
            Pending::Cycle => PendingView::Cycle,
            Pending::Renew { id } => PendingView::Renew { id },
            Pending::Reload { id } => PendingView::Reload { id },
        }
    }
}

/// How far an operation of a session has come.
pub enum Step {
    /// It is over. A successful `get` holds the payload; every other
    /// success holds nothing.
    Done(Result<Option<AuthUser>, Error>),
    /// The store must answer this command first. Hand the answer to
    /// [`Session::resume`], with what the session waits for.
    Ask(StoreRequest, Pending),
}

/// A [`Step`] as a value.
pub enum StepView {
    Done(Result<Option<AuthUserView>, ErrorView>),
    Ask(StoreRequestView, PendingView),
}

impl View for Step {
    type V = StepView;

    open spec fn view(&self) -> StepView {
        match *self {
            Step::Done(Ok(payload)) => StepView::Done(Ok(payload.deep_view())),
            Step::Done(Err(error)) => StepView::Done(Err(error@)),
            Step::Ask(request, pending) => StepView::Ask(request@, pending@),
        }
    }
}

impl SessionDataView {
    /// A session without a confirmed identifier and without a payload has
    /// nothing worth a cookie.
    pub open spec fn is_empty(self) -> bool {
        !(self.id is Id) && self.data is None
    }

    /// The session once the caller's `access` is through: a read changes
    /// nothing, a write replaces the payload and marks the session.
    pub open spec fn accessed(self, access: AccessView) -> SessionDataView {
        match access {
            AccessView::Reading => self,
            AccessView::Writing(value) => SessionDataView {
                data: Some(value),
                should_save: true,
                ..self
            },
        }
    }

    /// What the caller's `access` hands back: a read the payload, a write
    /// nothing.
    pub open spec fn answer(self, access: AccessView) -> Option<AuthUserView> {
        match access {
            AccessView::Reading => self.data,
            AccessView::Writing(_) => None,
        }
    }

    /// The session after flushing: only the expiry policy is left.
    pub open spec fn flushed(self) -> SessionDataView {
        SessionDataView { id: IdType::NoId, data: None, expiry: self.expiry, should_save: false }
    }
}

/// The end of an operation that hands back `payload`.
pub open spec fn done(payload: Option<AuthUserView>) -> StepView {
    StepView::Done(Ok(payload))
}

/// The end of an operation on the store's error `error`.
pub open spec fn failed(error: StoreErrorView) -> StepView {
    StepView::Done(Err(error_of(error)))
}

/// `step` begins the creation of a record for `state` at `now`: it asks for
/// a write that must find no record under a fresh identifier, and waits as
/// `recovering` says: for the caller's access after a missed load, or else
/// to save. Where the generator fails, `step` ends on that failure.
pub open spec fn creating(
    state: SessionDataView,
    now: i64,
    recovering: Option<AccessView>,
    step: StepView,
) -> bool {
    match step {
        StepView::Ask(request, PendingView::Recover { id, access }) => recovering == Some(access)
            && request == write_request(id, state, ExistenceFlag::NX, now),
        StepView::Ask(request, PendingView::Create { id }) => recovering is None && request
            == write_request(id, state, ExistenceFlag::NX, now),
        StepView::Done(Err(error)) => error == ErrorView::Store(StoreErrorView::Rand),
        _ => false,
    }
}

/// `step` begins the creation of a record for `state` at `now` under a fresh
/// identifier, in place of the record that cycling deleted. Where the
/// generator fails, `step` ends on that failure.
pub open spec fn renewing(state: SessionDataView, now: i64, step: StepView) -> bool {
    match step {
        StepView::Ask(request, PendingView::Renew { id }) => request == write_request(
            id,
            state,
            ExistenceFlag::NX,
            now,
        ),
        StepView::Done(Err(error)) => error == ErrorView::Store(StoreErrorView::Rand),
        _ => false,
    }
}

/// The step that `get` and `set` take on the session `pre`: where the record
/// has not been asked for yet, ask for it, else do as the caller wants.
pub open spec fn accessing(
    pre: SessionDataView,
    access: AccessView,
    post: SessionDataView,
    step: StepView,
) -> bool {
    match pre.id {
        IdType::Unloaded(id) => post == pre && step == StepView::Ask(
            StoreRequestView::Read { key: key_of(id) },
            PendingView::Load { id, access },
        ),
        _ => post == pre.accessed(access) && step == done(pre.answer(access)),
    }
}

/// The step that `save` takes on the session `pre` at `now`: the update of
/// the record of a confirmed identifier, else the creation of a record.
pub open spec fn saving(pre: SessionDataView, now: i64, post: SessionDataView, step: StepView) -> bool {
    post == pre && match pre.id {
        IdType::Id(id) => step == StepView::Ask(
            write_request(id, pre, ExistenceFlag::XX, now),
            PendingView::Update,
        ),
        _ => creating(pre, now, None, step),
    }
}

/// The step that `delete` takes on the session `state`.
pub open spec fn deleting(state: SessionDataView, step: StepView) -> bool {
    match state.id {
        IdType::NoId => step == done(None),
        IdType::Unloaded(id) | IdType::Id(id) => step == StepView::Ask(
            StoreRequestView::Remove { key: key_of(id) },
            PendingView::Delete,
        ),
    }
}

/// The step that `flush` takes on the session `pre`.
pub open spec fn flushing(pre: SessionDataView, post: SessionDataView, step: StepView) -> bool {
    match pre.id {
        IdType::NoId => post == pre.flushed() && step == done(None),
        IdType::Unloaded(id) | IdType::Id(id) => post == (SessionDataView {
            data: None,
            should_save: true,
            ..pre
        }) && step == StepView::Ask(
            StoreRequestView::Remove { key: key_of(id) },
            PendingView::Flush,
        ),
    }
}

/// The step that `load` takes on the session `state`: only the record of a
/// confirmed identifier is read afresh.
pub open spec fn loading(state: SessionDataView, step: StepView) -> bool {
    match state.id {
        IdType::Id(id) => step == StepView::Ask(
            StoreRequestView::Read { key: key_of(id) },
            PendingView::Reload { id },
        ),
        _ => step == done(None),
    }
}

/// The step that `cycle_id` takes on the session `pre`.
pub open spec fn cycling(pre: SessionDataView, post: SessionDataView, step: StepView) -> bool {
    match pre.id {
        IdType::Id(old_id) => post == (SessionDataView { id: IdType::NoId, ..pre }) && step
            == StepView::Ask(StoreRequestView::Remove { key: key_of(old_id) }, PendingView::Cycle),
        _ => post == pre && step == done(None),
    }
}

/// The step that a session takes from `pre` when the store answers `reply`
/// at `now` to what it waited for as `pending`: it leaves the session as
/// `post` and goes on with `step`.
pub open spec fn resumed(
    pre: SessionDataView,
    pending: PendingView,
    reply: StoreReplyView,
    now: i64,
    post: SessionDataView,
    step: StepView,
) -> bool {
    match pending {
        PendingView::Load { id, access } => match loaded_of(id, reply) {
            Ok(Some(record)) => {
                let loaded = SessionDataView { id: IdType::Id(id), ..record };
                post == loaded.accessed(access) && step == done(loaded.answer(access))
            },
            Ok(None) => post == pre && creating(pre, now, Some(access), step),
            Err(error) => post == pre && step == failed(error),
        },
        PendingView::Recover { id, access } => match written_of(reply) {
            Ok(true) => {
                let recovered = SessionDataView {
                    id: IdType::Id(id),
                    data: None,
                    expiry: pre.expiry,
                    should_save: false,
                };
                post == recovered.accessed(access) && step == done(recovered.answer(access))
            },
            Ok(false) => post == pre && creating(pre, now, Some(access), step),
            Err(error) => post == pre && step == failed(error),
        },
        PendingView::Create { id } => match written_of(reply) {
            Ok(true) => post == (SessionDataView { id: IdType::Id(id), should_save: false, ..pre })
                && step == done(None),
            Ok(false) => post == pre && creating(pre, now, None, step),
            Err(error) => post == pre && step == failed(error),
        },
        PendingView::Update => match saved_of(reply) {
            Ok(()) => post == (SessionDataView { should_save: false, ..pre }) && step == done(None),
            Err(error) => post == pre && step == failed(error),
        },
        PendingView::Delete => match deleted_of(reply) {
            Ok(()) => post == pre && step == done(None),
            Err(error) => post == pre && step == failed(error),
        },
        PendingView::Flush => match deleted_of(reply) {
            Ok(()) => post == pre.flushed() && step == done(None),
            Err(error) => post == pre && step == failed(error),
        },
        PendingView::Cycle => match deleted_of(reply) {
            Ok(()) => post == (SessionDataView { should_save: true, ..pre }) && renewing(
                post,
                now,
                step,
            ),
            Err(error) => post == pre && step == failed(error),
        },
        PendingView::Reload { id } => match loaded_of(id, reply) {
            Ok(Some(record)) => post == (SessionDataView { id: IdType::Id(id), ..record }) && step
                == done(None),
            Ok(None) => flushing(pre, post, step),
            Err(error) => post == pre && step == failed(error),
        },
        PendingView::Renew { id } => match written_of(reply) {
            Ok(true) => post == (SessionDataView { id: IdType::Id(id), ..pre }) && step == done(
                None,
            ),
            Ok(false) => post == pre && renewing(pre, now, step),
            Err(error) => post == pre && step == failed(error),
        },
    }
}

/// A session: the handle of one request on one session record.
///
/// Making one costs nothing: the record is asked for when the payload is
/// first read or written. Operations that need the store do not reach it
/// themselves. They return a [`Step`]: either the operation is over, or the
/// step holds the command that the store must answer, and the answer goes to
/// [`Session::resume`].
pub struct Session {
    session_data: SessionData,
}

impl View for Session {
    type V = SessionDataView;

    closed spec fn view(&self) -> SessionDataView {
        self.session_data@
    }
}

impl Session {
    /// Creates a new session with the session ID and expiry.
    ///
    /// This does not invoke the overhead of talking to the backing store.
    pub fn new(session_id: Option<Id>, expiry: Expiry) -> (session: Self)
        ensures
            session@ == (SessionDataView {
                id: match session_id {
                    Some(id) => IdType::Unloaded(id),
                    None => IdType::NoId,
                },
                data: None,
                expiry,
                should_save: false,
            }),
    {
        Self {
            session_data: SessionData {
                id: match session_id {
                    Some(id) => IdType::Unloaded(id),
                    None => IdType::NoId,
                },
                data: None,
                expiry,
                should_save: false,
            },
        }
    }

    /// A copy of the state in memory.
    pub fn get_session_data(&self) -> (session_data: SessionData)
        ensures
            session_data@ == self@,
    {
        self.session_data.clone()
    }

    /// The key of the session's record in the store, without its prefix.
    pub fn get_hashed_id(&self) -> (hashed: Option<String>)
        ensures
            match self@.id {
                IdType::NoId => hashed is None,
                IdType::Id(id) | IdType::Unloaded(id) => hashed matches Some(key) && key@
                    == id.hashed(),
            },
    {
        match self.session_data.id {
            IdType::NoId => None,
            IdType::Id(id) | IdType::Unloaded(id) => Some(id.hashed_id()),
        }
    }

    /// Ends the caller's access on a session whose record is in memory.
    fn finish(&mut self, access: Access) -> (step: Step)
        ensures
            final(self)@ == old(self)@.accessed(access@),
            step@ == done(old(self)@.answer(access@)),
    {
        match access {
            Access::Reading => Step::Done(Ok(clone_payload(&self.session_data.data))),
            Access::Writing(value) => {
                self.session_data.should_save = true;
                self.session_data.data = Some(value);
                Step::Done(Ok(None))
            },
        }
    }

    /// Begins the lazy load where the record has not been asked for yet,
    /// else ends the caller's access.
    fn maybe_load(&mut self, store: &SessionStore, access: Access) -> (step: Step)
        ensures
            accessing(old(self)@, access@, final(self)@, step@),
    {
        match self.session_data.id {
            IdType::Unloaded(id) => Step::Ask(store.load(&id), Pending::Load { id, access }),
            _ => self.finish(access),
        }
    }

    /// Begins the creation of a record for the session.
    fn create(&self, store: &mut SessionStore, now: i64, recovering: Option<Access>) -> (step:
        Step)
        ensures
            creating(self@, now, recovering.deep_view(), step@),
    {
        match store.create(&self.session_data, now) {
            Ok((id, request)) => match recovering {
                Some(access) => Step::Ask(request, Pending::Recover { id, access }),
                None => Step::Ask(request, Pending::Create { id }),
            },
            Err(error) => Step::Done(Err(Error::from_store(error))),
        }
    }

    /// Begins the creation of the record that takes the place of the one
    /// that cycling deleted.
    fn renew(&self, store: &mut SessionStore, now: i64) -> (step: Step)
        ensures
            renewing(self@, now, step@),
    {
        match store.create(&self.session_data, now) {
            Ok((id, request)) => Step::Ask(request, Pending::Renew { id }),
            Err(error) => Step::Done(Err(Error::from_store(error))),
        }
    }

    /// Puts `value` in place of the payload and marks the session as
    /// modified, once the record is in memory.
    pub fn set(&mut self, store: &SessionStore, value: AuthUser) -> (step: Step)
        ensures
            accessing(old(self)@, AccessView::Writing(value@), final(self)@, step@),
    {
        self.maybe_load(store, Access::Writing(value))
    }

    /// Gets a copy of the payload, once the record is in memory.
    pub fn get(&mut self, store: &SessionStore) -> (step: Step)
        ensures
            accessing(old(self)@, AccessView::Reading, final(self)@, step@),
            final(self)@ == old(self)@,
    {
        self.maybe_load(store, Access::Reading)
    }

    /// Removes the payload. The session is marked as modified where there
    /// was one.
    pub fn remove_value(&mut self) -> (r: Result<(), Error>)
        ensures
            r is Ok,
            final(self)@ == (SessionDataView {
                data: None,
                should_save: old(self)@.should_save || old(self)@.data is Some,
                ..old(self)@
            }),
    {
        if self.session_data.data.take().is_some() {
            self.session_data.should_save = true;
        }
        Ok(())
    }

    /// Clears the session of all data but does not delete it from the store.
    pub fn clear(&mut self)
        ensures
            final(self)@ == (SessionDataView { data: None, should_save: true, ..old(self)@ }),
    {
        self.session_data.data = None;
        self.session_data.should_save = true;
    }

    /// Returns `true` if there is no confirmed session ID and the session
    /// holds no payload.
    pub fn is_empty(&self) -> (empty: bool)
        ensures
            empty == self@.is_empty(),
    {
        let has_session_id = match self.session_data.id {
            IdType::Id(_) => true,
            _ => false,
        };
        !has_session_id && self.session_data.data.is_none()
    }

    /// Get the session ID.
    pub fn id(&self) -> (id: IdType)
        ensures
            id == self@.id,
    {
        self.session_data.id
    }

    /// Get the session expiry.
    pub fn expiry(&self) -> (expiry: Expiry)
        ensures
            expiry == self@.expiry,
    {
        self.session_data.expiry
    }

    /// Set `expiry` to the given value.
    pub fn set_expiry(&mut self, expiry: Expiry)
        ensures
            final(self)@ == (SessionDataView { expiry, should_save: true, ..old(self)@ }),
    {
        self.session_data.expiry = expiry;
        self.session_data.should_save = true;
    }

    /// Seconds until the session ends, counted from `now`.
    pub fn expiry_age_at(&self, now: i64) -> (age: i64)
        ensures
            age == self@.expiry.age_at(now as int),
            age >= 0,
    {
        self.session_data.expiry.expiry_age_at(now)
    }

    /// Seconds until the session ends, counted from the clock's present
    /// reading.
    pub fn expiry_age(&self) -> (age: Option<i64>)
        ensures
            age matches Some(seconds) && seconds >= 0 && exists|now: i64|
                seconds == self@.expiry.age_at(now as int),
    {
        Some(self.session_data.expiry.expiry_age())
    }

    /// Returns `true` if the session has been modified during the request.
    pub fn should_save(&self) -> (should_save: bool)
        ensures
            should_save == self@.should_save,
    {
        self.session_data.should_save
    }

    /// Saves the session record to the store: over the record of a confirmed
    /// identifier, else as a new record under a fresh one.
    pub fn save(&mut self, store: &mut SessionStore, now: i64) -> (step: Step)
        ensures
            saving(old(self)@, now, final(self)@, step@),
    {
        match self.session_data.id {
            IdType::Id(id) => Step::Ask(
                store.save(&id, &self.session_data, now),
                Pending::Update,
            ),
            _ => self.create(store, now, None),
        }
    }

    /// Loads the session record from the store afresh. A session whose
    /// record is gone is flushed.
    pub fn load(&self, store: &SessionStore) -> (step: Step)
        ensures
            loading(self@, step@),
    {
        match self.session_data.id {
            IdType::Id(session_id) => Step::Ask(
                store.load(&session_id),
                Pending::Reload { id: session_id },
            ),
            _ => Step::Done(Ok(None)),
        }
    }

    /// Deletes the session from the store. Without an identifier there is
    /// nothing to delete.
    pub fn delete(&self, store: &SessionStore) -> (step: Step)
        ensures
            deleting(self@, step@),
    {
        match self.session_data.id {
            IdType::Unloaded(session_id) | IdType::Id(session_id) => Step::Ask(
                store.delete(&session_id),
                Pending::Delete,
            ),
            IdType::NoId => Step::Done(Ok(None)),
        }
    }

    /// Flushes the session by removing all data contained in the session and
    /// then deleting it from the store.
    pub fn flush(&mut self, store: &SessionStore) -> (step: Step)
        ensures
            flushing(old(self)@, final(self)@, step@),
    {
        self.clear();
        match self.session_data.id {
            IdType::Unloaded(session_id) | IdType::Id(session_id) => Step::Ask(
                store.delete(&session_id),
                Pending::Flush,
            ),
            IdType::NoId => {
                self.reset();
                Step::Done(Ok(None))
            },
        }
    }

    /// Leaves nothing of the session but its expiry policy.
    fn reset(&mut self)
        ensures
            final(self)@ == old(self)@.flushed(),
    {
        self.session_data.id = IdType::NoId;
        self.session_data.data = None;
        self.session_data.should_save = false;
    }

    /// Cycles the session ID while retaining any data that was associated
    /// with it.
    ///
    /// Using this method helps prevent session fixation attacks by ensuring
    /// a new ID is assigned to the session. A session without a confirmed
    /// identifier is left as it is. A cycled session stays marked as
    /// modified, so that the new identifier reaches the client.
    pub fn cycle_id(&mut self, store: &SessionStore) -> (step: Step)
        ensures
            cycling(old(self)@, final(self)@, step@),
    {
        match self.session_data.id {
            IdType::Id(old_id) => {
                self.session_data.id = IdType::NoId;
                Step::Ask(store.delete(&old_id), Pending::Cycle)
            },
            _ => Step::Done(Ok(None)),
        }
    }

    /// Goes on with the operation that waited for the store as `pending`,
    /// now that the store has answered `reply`.
    pub fn resume(
        &mut self,
        store: &mut SessionStore,
        pending: Pending,
        reply: StoreReply,
        now: i64,
    ) -> (step: Step)
        ensures
            resumed(old(self)@, pending@, reply@, now, final(self)@, step@),
    {
        match pending {
            Pending::Load { id, access } => match SessionStore::loaded(&id, reply) {
                Ok(Some(loaded_record)) => {
                    self.session_data = SessionData {
                        id: IdType::Id(id),
                        data: loaded_record.data,
                        expiry: loaded_record.expiry,
                        should_save: false,
                    };
                    self.finish(access)
                },
                Ok(None) => self.create(store, now, Some(access)),
                Err(error) => Step::Done(Err(Error::from_store(error))),
            },
            Pending::Recover { id, access } => match SessionStore::written(reply) {
                Ok(true) => {
                    self.session_data = SessionData {
                        id: IdType::Id(id),
                        data: None,
                        expiry: self.session_data.expiry,
                        should_save: false,
                    };
                    self.finish(access)
                },
                Ok(false) => self.create(store, now, Some(access)),
                Err(error) => Step::Done(Err(Error::from_store(error))),
            },
            Pending::Create { id } => match SessionStore::written(reply) {
                Ok(true) => {
                    self.session_data.id = IdType::Id(id);
                    self.session_data.should_save = false;
                    Step::Done(Ok(None))
                },
                Ok(false) => self.create(store, now, None),
                Err(error) => Step::Done(Err(Error::from_store(error))),
            },
            Pending::Update => match SessionStore::saved(reply) {
                Ok(()) => {
                    self.session_data.should_save = false;
                    Step::Done(Ok(None))
                },
                Err(error) => Step::Done(Err(Error::from_store(error))),
            },
            Pending::Delete => match SessionStore::deleted(reply) {
                Ok(()) => Step::Done(Ok(None)),
                Err(error) => Step::Done(Err(Error::from_store(error))),
            },
            Pending::Flush => match SessionStore::deleted(reply) {
                Ok(()) => {
                    self.reset();
                    Step::Done(Ok(None))
                },
                Err(error) => Step::Done(Err(Error::from_store(error))),
            },
            Pending::Cycle => match SessionStore::deleted(reply) {
                Ok(()) => {
                    self.session_data.should_save = true;
                    self.renew(store, now)
                },
                Err(error) => Step::Done(Err(Error::from_store(error))),
            },
            Pending::Reload { id } => match SessionStore::loaded(&id, reply) {
                Ok(Some(loaded_record)) => {
                    self.session_data = SessionData {
                        id: IdType::Id(id),
                        data: loaded_record.data,
                        expiry: loaded_record.expiry,
                        should_save: false,
                    };
                    Step::Done(Ok(None))
                },
                Ok(None) => self.flush(store),
                Err(error) => Step::Done(Err(Error::from_store(error))),
            },
            Pending::Renew { id } => match SessionStore::written(reply) {
                Ok(true) => {
                    self.session_data.id = IdType::Id(id);
                    Step::Done(Ok(None))
                },
                Ok(false) => self.renew(store, now),
                Err(error) => Step::Done(Err(Error::from_store(error))),
            },
        }
    }
}

} // verus!
