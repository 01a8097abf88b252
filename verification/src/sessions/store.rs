//! The store of session records: what is asked of the key-value backend, and
//! what its answers mean.
//!
//! The backend is reached over the network, so nothing here talks to it. An
//! operation of the store comes in two halves: one that makes the
//! [`StoreRequest`] to send, and one that reads the [`StoreReply`] that came
//! back.

use crate::auth::{clone_payload, AuthUser, AuthUserView};
use crate::sessions::expiry::Expiry;
use crate::sessions::id::Id;
use crate::sessions::session::{IdType, SessionData, SessionDataView};
use rand_chacha::ChaCha20Rng;
use rand_core::RngCore;
use vstd::prelude::*;
use vstd::string::StringExecFns;

verus! {

/// `ChaCha20Rng` of `rand_chacha`, carried through as it is: nothing is said
/// of the state of a generator.
#[verifier::external_type_specification]
#[verifier::external_body]
pub struct ExChaCha20Rng(ChaCha20Rng);

/// Calls `RngCore::try_fill_bytes` of `rand_core` on the generator, for a
/// slice of sixteen bytes. Where the generator reports a failure, nothing
/// comes back.
///
/// Nothing is believed of the bytes that come back.
#[verifier::external_body]
fn try_fill_bytes(csprng: &mut ChaCha20Rng) -> (r: Option<[u8; 16]>) {
    let mut slice = [0_u8; 16];
    match csprng.try_fill_bytes(&mut slice) {
        Ok(()) => Some(slice),
        Err(_) => None,
    }
}

/// What went wrong in the store.
#[derive(Debug, PartialEq, Eq)]
pub enum SessionStoreError {
    /// The backend refused a command or could not be reached.
    Redis(String),
    /// No connection to the backend could be had.
    DeadpoolError(String),
    /// A record could not be serialised or deserialised.
    Serde(String),
    /// The source of random numbers failed.
    Rand,
    /// The backend answered what it should not.
    Misc(String),
    /// The backend holds no such record.
    NotFound,
}

/// A [`SessionStoreError`] as a value.
pub enum StoreErrorView {
    Redis(Seq<char>),
    DeadpoolError(Seq<char>),
    Serde(Seq<char>),
    Rand,
    Misc(Seq<char>),
    NotFound,
}

impl View for SessionStoreError {
    type V = StoreErrorView;

    open spec fn view(&self) -> StoreErrorView {
        match *self {
            SessionStoreError::Redis(message) => StoreErrorView::Redis(message@),
            SessionStoreError::DeadpoolError(message) => StoreErrorView::DeadpoolError(message@),
            SessionStoreError::Serde(message) => StoreErrorView::Serde(message@),
            SessionStoreError::Rand => StoreErrorView::Rand,
            SessionStoreError::Misc(message) => StoreErrorView::Misc(message@),
            SessionStoreError::NotFound => StoreErrorView::NotFound,
        }
    }
}

impl SessionStoreError {
    /// The error in words.
    pub open spec fn to_string_spec(self) -> Seq<char> {
        match self@ {
            StoreErrorView::Redis(message) => "Redis client error: "@ + message,
            StoreErrorView::DeadpoolError(message) => "Redis connection pool error: "@ + message,
            StoreErrorView::Serde(message) => "Error whilst serialising or deserialising data: "@
                + message,
            StoreErrorView::Rand => "Error whilst getting an OS random number"@,
            StoreErrorView::Misc(message) => "Miscellaneous error: "@ + message,
            StoreErrorView::NotFound => "Session not found"@,
        }
    }

    /// The error in words.
    pub fn to_string(&self) -> (text: String)
        ensures
            text@ == self.to_string_spec(),
    {
        match self {
            SessionStoreError::Redis(message) => String::from_str("Redis client error: ").concat(
                message.as_str(),
            ),
            SessionStoreError::DeadpoolError(message) => String::from_str(
                "Redis connection pool error: ",
            ).concat(message.as_str()),
            SessionStoreError::Serde(message) => String::from_str(
                "Error whilst serialising or deserialising data: ",
            ).concat(message.as_str()),
            SessionStoreError::Rand => String::from_str("Error whilst getting an OS random number"),
            SessionStoreError::Misc(message) => String::from_str("Miscellaneous error: ").concat(
                message.as_str(),
            ),
            SessionStoreError::NotFound => String::from_str("Session not found"),
        }
    }
}

/// The condition on which the backend takes a write.
#[derive(Clone, Copy, Debug, PartialEq, Eq, Structural)]
pub enum ExistenceFlag {
    /// Only where the key does not exist yet.
    NX,
    /// Only where the key exists already.
    XX,
}

impl ExistenceFlag {
    /// The flag as the backend's command takes it.
    pub fn as_str(&self) -> (flag: &'static str)
        ensures
            flag@ == match *self {
                ExistenceFlag::NX => "NX"@,
                ExistenceFlag::XX => "XX"@,
            },
    {
        match self {
            ExistenceFlag::NX => "NX",
            ExistenceFlag::XX => "XX",
        }
    }
}

/// The durable form of a session: what the backend keeps under its key.
pub struct SessionStoreData {
    pub data: Option<AuthUser>,
    pub expiry: Expiry,
}

/// A [`SessionStoreData`] as a value.
pub struct SessionStoreDataView {
    pub data: Option<AuthUserView>,
    pub expiry: Expiry,
}

impl View for SessionStoreData {
    type V = SessionStoreDataView;

    open spec fn view(&self) -> SessionStoreDataView {
        SessionStoreDataView { data: self.data.deep_view(), expiry: self.expiry }
    }
}

impl DeepView for SessionStoreData {
    type V = SessionStoreDataView;

    open spec fn deep_view(&self) -> SessionStoreDataView {
        self@
    }
}

/// The durable form of the session `session_data`: its payload and its
/// expiry.
pub open spec fn record_of(session_data: SessionDataView) -> SessionStoreDataView {
    SessionStoreDataView { data: session_data.data, expiry: session_data.expiry }
}

impl SessionStoreData {
    /// The durable form of `session_data`.
    pub fn from_session_data(session_data: &SessionData) -> (record: Self)
        ensures
            record@ == record_of(session_data@),
    {
        Self { data: clone_payload(&session_data.data), expiry: session_data.expiry }
    }
}

/// A command for the backend.
pub enum StoreRequest {
    /// Write `value` as the document under `key` on the condition `exists`,
    /// then let the key expire at the moment `expire_at`.
    Write { key: String, value: SessionStoreData, exists: ExistenceFlag, expire_at: i64 },
    /// Read the document under `key`.
    Read { key: String },
    /// Delete the document under `key`.
    Remove { key: String },
}

/// A [`StoreRequest`] as a value.
pub enum StoreRequestView {
    Write { key: Seq<char>, value: SessionStoreDataView, exists: ExistenceFlag, expire_at: i64 },
    Read { key: Seq<char> },
    Remove { key: Seq<char> },
}

impl View for StoreRequest {
    type V = StoreRequestView;

    open spec fn view(&self) -> StoreRequestView {
        match *self {
            StoreRequest::Write { key, value, exists, expire_at } => StoreRequestView::Write {
                key: key@,
                value: value@,
                exists,
                expire_at,
            },
            StoreRequest::Read { key } => StoreRequestView::Read { key: key@ },
            StoreRequest::Remove { key } => StoreRequestView::Remove { key: key@ },
        }
    }
}

/// What the backend answered.
pub enum StoreReply {
    /// To `Write`: whether the document was written, and whether the expiry
    /// was set.
    Written { set_result: bool, expireat_result: bool },
    /// To `Read`: nothing where the key does not exist, else the documents
    /// found at the root.
    Found(Option<Vec<SessionStoreData>>),
    /// To `Remove`: done, whether or not the key existed.
    Removed,
    /// To any command: it failed.
    Failed(SessionStoreError),
}

/// A [`StoreReply`] as a value.
pub enum StoreReplyView {
    Written { set_result: bool, expireat_result: bool },
    Found(Option<Seq<SessionStoreDataView>>),
    Removed,
    Failed(StoreErrorView),
}

impl View for StoreReply {
    type V = StoreReplyView;

    open spec fn view(&self) -> StoreReplyView {
        match *self {
            StoreReply::Written { set_result, expireat_result } => StoreReplyView::Written {
                set_result,
                expireat_result,
            },
            StoreReply::Found(found) => StoreReplyView::Found(found.deep_view()),
            StoreReply::Removed => StoreReplyView::Removed,
            StoreReply::Failed(error) => StoreReplyView::Failed(error@),
        }
    }
}

/// The key of the record of `id` in the backend. It is made of a digest of
/// the identifier: the identifier cannot be read off it.
pub open spec fn key_of(id: Id) -> Seq<char> {
    "sessions:"@ + id.hashed()
}

/// The write of the session `data` under `id`, made at `now`.
pub open spec fn write_request(
    id: Id,
    data: SessionDataView,
    exists: ExistenceFlag,
    now: i64,
) -> StoreRequestView {
    StoreRequestView::Write {
        key: key_of(id),
        value: record_of(data),
        exists,
        expire_at: data.expiry.date_at(now as int) as i64,
    }
}

/// The error for an answer that does not fit the command.
pub open spec fn unexpected_reply() -> StoreErrorView {
    StoreErrorView::Misc("Unexpected reply from the store"@)
}

/// What an answer to a `Write` says: whether the record was written and will
/// expire, or the failure.
pub open spec fn written_of(reply: StoreReplyView) -> Result<bool, StoreErrorView> {
    match reply {
        StoreReplyView::Written { set_result, expireat_result } => Ok(set_result && expireat_result),
        StoreReplyView::Failed(error) => Err(error),
        _ => Err(unexpected_reply()),
    }
}

/// What an answer to the update of a record says. That the record was gone
/// is a failure.
pub open spec fn saved_of(reply: StoreReplyView) -> Result<(), StoreErrorView> {
    match written_of(reply) {
        Ok(true) => Ok(()),
        Ok(false) => Err(StoreErrorView::NotFound),
        Err(error) => Err(error),
    }
}

/// What an answer to the `Read` for `id` says: the session found, nothing
/// where the key does not exist, or the failure.
pub open spec fn loaded_of(id: Id, reply: StoreReplyView) -> Result<
    Option<SessionDataView>,
    StoreErrorView,
> {
    match reply {
        StoreReplyView::Found(None) => Ok(None),
        StoreReplyView::Found(Some(values)) => if values.len() == 0 {
            Err(StoreErrorView::NotFound)
        } else if values.len() > 1 {
            Err(StoreErrorView::Misc("Multiple values returned from JSON.GET"@))
        } else {
            Ok(
                Some(
                    SessionDataView {
                        id: IdType::Unloaded(id),
                        data: values[0].data,
                        expiry: values[0].expiry,
                        should_save: false,
                    },
                ),
            )
        },
        StoreReplyView::Failed(error) => Err(error),
        _ => Err(unexpected_reply()),
    }
}

/// What an answer to a `Remove` says.
pub open spec fn deleted_of(reply: StoreReplyView) -> Result<(), StoreErrorView> {
    match reply {
        StoreReplyView::Removed => Ok(()),
        StoreReplyView::Failed(error) => Err(error),
        _ => Err(unexpected_reply()),
    }
}

/// The value of a result that holds an error of the store.
pub open spec fn store_result_view<T: DeepView>(r: Result<T, SessionStoreError>) -> Result<
    T::V,
    StoreErrorView,
> {
    match r {
        Ok(value) => Ok(value.deep_view()),
        Err(error) => Err(error@),
    }
}

/// The key of the record of `id` in the backend.
pub fn store_key(id: &Id) -> (key: String)
    ensures
        key@ == key_of(*id),
        key@ != id.text(),
{
    let hashed = id.hashed_id();
    let key = String::from_str("sessions:").concat(hashed.as_str());
    assert(key@.len() >= 64);
    key
}

/// The store of session records, which owns the generator of identifiers.
pub struct SessionStore {
    csprng: ChaCha20Rng,
}

impl SessionStore {
    /// The generator that the store draws its identifiers from.
    pub closed spec fn generator(&self) -> ChaCha20Rng {
        self.csprng
    }

    /// A store that draws its identifiers from `csprng`, which the caller
    /// has seeded from the system's entropy.
    pub fn new(csprng: ChaCha20Rng) -> (store: Self)
        ensures
            store.generator() == csprng,
    {
        Self { csprng }
    }

    /// The identifier that stands for what the generator handed out: the
    /// sixteen bytes drawn are its bytes, lowest first. That the generator
    /// handed out nothing is an error.
    pub fn drawn_id(drawn: Option<[u8; 16]>) -> (r: Result<Id, SessionStoreError>)
        ensures
            match drawn {
                Some(bytes) => r matches Ok(id) && id.le_bytes() == bytes@,
                None => r matches Err(error) && error@ is Rand,
            },
    {
        match drawn {
            Some(slice) => Ok(Id::from_le_bytes(&slice)),
            None => Err(SessionStoreError::Rand),
        }
    }

    /// A fresh identifier, drawn from the generator.
    pub fn new_id(&mut self) -> (r: Result<Id, SessionStoreError>)
        ensures
            r matches Err(error) ==> error@ is Rand,
    {
        Self::drawn_id(try_fill_bytes(&mut self.csprng))
    }

    /// The write of `data` under `id` on the condition `exists`, with the
    /// expiry that the session's policy gives at `now`.
    pub fn save_with_options(
        &self,
        id: &Id,
        data: &SessionData,
        exists: ExistenceFlag,
        now: i64,
    ) -> (request: StoreRequest)
        ensures
            request@ == write_request(*id, data@, exists, now),
    {
        let value = SessionStoreData::from_session_data(data);
        let key = store_key(id);
        StoreRequest::Write { key, value, exists, expire_at: data.expiry.expiry_date_at(now) }
    }

    /// Whether the write that `reply` answers took place.
    pub fn written(reply: StoreReply) -> (r: Result<bool, SessionStoreError>)
        ensures
            store_result_view(r) == written_of(reply@),
    {
        match reply {
            StoreReply::Written { set_result, expireat_result } => Ok(set_result && expireat_result),
            StoreReply::Failed(error) => Err(error),
            _ => Err(SessionStoreError::Misc(String::from_str("Unexpected reply from the store"))),
        }
    }

    /// Begins the creation of a record for `data`: draws an identifier and
    /// makes the write that must find no record under it.
    ///
    /// The record exists once [`SessionStore::written`] says of the answer
    /// that the write took place. Where it did not, the identifier is taken:
    /// create again, as often as it takes.
    pub fn create(&mut self, data: &SessionData, now: i64) -> (r: Result<
        (Id, StoreRequest),
        SessionStoreError,
    >)
        ensures
            match r {
                Ok((id, request)) => request@ == write_request(id, data@, ExistenceFlag::NX, now),
                Err(error) => error@ is Rand,
            },
    {
        let id = self.new_id()?;
        let request = self.save_with_options(&id, data, ExistenceFlag::NX, now);
        Ok((id, request))
    }

    /// The write of `data` over the record of `id`, which must exist.
    pub fn save(&self, id: &Id, data: &SessionData, now: i64) -> (request: StoreRequest)
        ensures
            request@ == write_request(*id, data@, ExistenceFlag::XX, now),
    {
        self.save_with_options(id, data, ExistenceFlag::XX, now)
    }

    /// Reads the answer to a [`SessionStore::save`]. A record that was gone
    /// is reported, not created.
    pub fn saved(reply: StoreReply) -> (r: Result<(), SessionStoreError>)
        ensures
            store_result_view(r) == saved_of(reply@),
    {
        if Self::written(reply)? {
            Ok(())
        } else {
            Err(SessionStoreError::NotFound)
        }
    }

    /// The read of the record of `session_id`.
    pub fn load(&self, session_id: &Id) -> (request: StoreRequest)
        ensures
            request@ == (StoreRequestView::Read { key: key_of(*session_id) }),
    {
        StoreRequest::Read { key: store_key(session_id) }
    }

    /// Reads the answer to a [`SessionStore::load`]: the session, or nothing
    /// where the backend holds no record under the key.
    pub fn loaded(session_id: &Id, reply: StoreReply) -> (r: Result<
        Option<SessionData>,
        SessionStoreError,
    >)
        ensures
            store_result_view(r) == loaded_of(*session_id, reply@),
    {
        match reply {
            StoreReply::Found(None) => Ok(None),
            StoreReply::Found(Some(mut returned_values)) => {
                if returned_values.len() == 0 {
                    return Err(SessionStoreError::NotFound);
                }
                if returned_values.len() > 1 {
                    return Err(
                        SessionStoreError::Misc(
                            String::from_str("Multiple values returned from JSON.GET"),
                        ),
                    );
                }
                let ghost values = returned_values.deep_view();
                let record = returned_values.remove(0);
                assert(record@ == values[0]);
                Ok(Some(SessionData::new(*session_id, record.data, record.expiry)))
            },
            StoreReply::Failed(error) => Err(error),
            _ => Err(SessionStoreError::Misc(String::from_str("Unexpected reply from the store"))),
        }
    }

    /// The deletion of the record of `session_id`.
    pub fn delete(&self, session_id: &Id) -> (request: StoreRequest)
        ensures
            request@ == (StoreRequestView::Remove { key: key_of(*session_id) }),
    {
        StoreRequest::Remove { key: store_key(session_id) }
    }

    /// Reads the answer to a [`SessionStore::delete`].
    pub fn deleted(reply: StoreReply) -> (r: Result<(), SessionStoreError>)
        ensures
            store_result_view(r) == deleted_of(reply@),
    {
        match reply {
            StoreReply::Removed => Ok(()),
            StoreReply::Failed(error) => Err(error),
            _ => Err(SessionStoreError::Misc(String::from_str("Unexpected reply from the store"))),
        }
    }
}

} // verus!
