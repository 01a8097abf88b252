//! The key-value backend as the session protocol takes it to be, and what
//! the protocol achieves against such a backend.
//!
//! The model is a map from keys to records. It answers one command at a
//! time, and nobody else writes to it. A real backend also loses records as
//! they expire and serves other requests in between: the steps of a session
//! are specified for every answer, and what follows here holds where the
//! answers are those of the model.

use crate::sessions::expiry::Expiry;
use crate::sessions::id::Id;
use crate::sessions::session::{
    accessing, cycling, done, flushing, resumed, saving, AccessView, IdType, PendingView,
    SessionDataView, StepView,
};
use crate::sessions::store::{
    key_of, loaded_of, record_of, write_request, written_of, ExistenceFlag, SessionStoreDataView,
    StoreErrorView, StoreReplyView, StoreRequestView,
};
use vstd::prelude::*;

verus! {

/// A record as the backend keeps it: the document, and the moment at which
/// the key expires.
pub struct Stored {
    pub value: SessionStoreDataView,
    pub expire_at: i64,
}

/// The backend: its records by key.
pub struct Backend {
    pub records: Map<Seq<char>, Stored>,
}

impl Backend {
    /// Whether the backend holds a record under the key of `id`.
    pub open spec fn holds(self, id: Id) -> bool {
        self.records.contains_key(key_of(id))
    }

    /// What the backend answers to `request`.
    pub open spec fn reply(self, request: StoreRequestView) -> StoreReplyView {
        match request {
            StoreRequestView::Write { key, value, exists, expire_at } => match exists {
                ExistenceFlag::NX => StoreReplyView::Written {
                    set_result: !self.records.contains_key(key),
                    expireat_result: true,
                },
                ExistenceFlag::XX => StoreReplyView::Written {
                    set_result: self.records.contains_key(key),
                    expireat_result: self.records.contains_key(key),
                },
            },
            StoreRequestView::Read { key } => if self.records.contains_key(key) {
                StoreReplyView::Found(Some(seq![self.records[key].value]))
            } else {
                StoreReplyView::Found(None)
            },
            StoreRequestView::Remove { key } => StoreReplyView::Removed,
        }
    }

    /// The backend once it has carried out `request`. A write that finds its
    /// condition unmet leaves the document as it is; the expiry is set on
    /// whatever the key then holds.
    pub open spec fn after(self, request: StoreRequestView) -> Backend {
        match request {
            StoreRequestView::Write { key, value, exists, expire_at } => {
                let taken = match exists {
                    ExistenceFlag::NX => !self.records.contains_key(key),
                    ExistenceFlag::XX => self.records.contains_key(key),
                };
                if taken {
                    Backend { records: self.records.insert(key, Stored { value, expire_at }) }
                } else if self.records.contains_key(key) {
                    Backend {
                        records: self.records.insert(
                            key,
                            Stored { value: self.records[key].value, expire_at },
                        ),
                    }
                } else {
                    self
                }
            },
            StoreRequestView::Read { key } => self,
            StoreRequestView::Remove { key } => Backend { records: self.records.remove(key) },
        }
    }
}

impl Backend {
    /// The backend once it has carried out `requests`, one after the other.
    pub open spec fn after_all(self, requests: Seq<StoreRequestView>) -> Backend
        decreases requests.len(),
    {
        if requests.len() == 0 {
            self
        } else {
            self.after_all(requests.drop_last()).after(requests.last())
        }
    }

    /// Whether the backend, once it has carried out the requests before it,
    /// answers to the write `requests[i]` that it took place.
    pub open spec fn accepts(self, requests: Seq<StoreRequestView>, i: int) -> bool {
        written_of(self.after_all(requests.take(i)).reply(requests[i])) == Ok::<
            bool,
            StoreErrorView,
        >(true)
    }
}

/// Whether `request` is the write of a creation: one that must find no
/// record under its key.
pub open spec fn is_creation(request: StoreRequestView) -> bool {
    request is Write && request->Write_exists == ExistenceFlag::NX
}

/// Creations never take a record away nor write over one: a record that the
/// backend holds after the first `done` of the creations `requests` is still
/// there, with the same document, after all of them.
pub proof fn lemma_creations_keep_records(
    backend: Backend,
    requests: Seq<StoreRequestView>,
    done: int,
    key: Seq<char>,
)
    requires
        forall|k: int| 0 <= k < requests.len() ==> is_creation(#[trigger] requests[k]),
        0 <= done <= requests.len(),
        backend.after_all(requests.take(done)).records.contains_key(key),
    ensures
        backend.after_all(requests).records.contains_key(key),
        backend.after_all(requests).records[key].value == backend.after_all(
            requests.take(done),
        ).records[key].value,
    decreases requests.len() - done,
{
    if done < requests.len() {
        assert(requests.take(done + 1).drop_last() == requests.take(done));
        assert(requests.take(done + 1).last() == requests[done]);
        assert(is_creation(requests[done]));
        lemma_creations_keep_records(backend, requests, done + 1, key);
    } else {
        assert(requests.take(done) == requests);
    }
}

/// However many sessions are created at once, no two of them get the same
/// identifier, and each finds its own record in the backend.
///
/// The backend takes one command at a time, so the writes of creations that
/// run side by side reach it in some order, the refused attempts among them:
/// `requests` is that order. Of any two writes that the backend accepted, for
/// the identifiers `first` and `second`, the identifiers differ, and after
/// all the writes the backend holds under each the record of its own
/// session.
pub proof fn lemma_creations_never_collide(
    backend: Backend,
    requests: Seq<StoreRequestView>,
    i: int,
    j: int,
    first: Id,
    first_data: SessionDataView,
    first_now: i64,
    second: Id,
    second_data: SessionDataView,
    second_now: i64,
)
    requires
        forall|k: int| 0 <= k < requests.len() ==> is_creation(#[trigger] requests[k]),
        0 <= i < j < requests.len(),
        requests[i] == write_request(first, first_data, ExistenceFlag::NX, first_now),
        requests[j] == write_request(second, second_data, ExistenceFlag::NX, second_now),
        backend.accepts(requests, i),
        backend.accepts(requests, j),
    ensures
        first != second,
        key_of(first) != key_of(second),
        backend.after_all(requests).holds(first),
        backend.after_all(requests).holds(second),
        backend.after_all(requests).records[key_of(first)].value == record_of(first_data),
        backend.after_all(requests).records[key_of(second)].value == record_of(second_data),
{
    assert(requests.take(i + 1).drop_last() == requests.take(i));
    assert(requests.take(i + 1).last() == requests[i]);
    assert(requests.take(j + 1).drop_last() == requests.take(j));
    assert(requests.take(j + 1).last() == requests[j]);
    let upto = requests.take(j);
    assert(upto.take(i + 1) == requests.take(i + 1));
    assert forall|k: int| 0 <= k < upto.len() implies is_creation(#[trigger] upto[k]) by {
        assert(upto[k] == requests[k]);
    }
    lemma_creations_keep_records(backend, upto, i + 1, key_of(first));
    lemma_creations_keep_records(backend, requests, i + 1, key_of(first));
    lemma_creations_keep_records(backend, requests, j + 1, key_of(second));
}

/// Creations leave alone what the backend held before them: every record is
/// still there afterwards, with the same document.
pub proof fn lemma_creations_overwrite_nothing(
    backend: Backend,
    requests: Seq<StoreRequestView>,
    key: Seq<char>,
)
    requires
        forall|k: int| 0 <= k < requests.len() ==> is_creation(#[trigger] requests[k]),
        backend.records.contains_key(key),
    ensures
        backend.after_all(requests).records.contains_key(key),
        backend.after_all(requests).records[key].value == backend.records[key].value,
{
    assert(requests.take(0).len() == 0);
    lemma_creations_keep_records(backend, requests, 0, key);
}

/// A record that was created is the record that is loaded: the payload and
/// the expiry policy come back as they were written, under the identifier
/// that the creation returned, and the policy never gives an earlier end
/// than the one that the store was told.
pub proof fn lemma_create_then_load(
    backend: Backend,
    id: Id,
    data: SessionDataView,
    now: i64,
    later: i64,
)
    requires
        !backend.holds(id),
        now <= later,
    ensures
        ({
            let create = write_request(id, data, ExistenceFlag::NX, now);
            let created = backend.after(create);
            let load = StoreRequestView::Read { key: key_of(id) };
            &&& written_of(backend.reply(create)) == Ok::<bool, StoreErrorView>(true)
            &&& created.holds(id)
            &&& created.records[key_of(id)].expire_at == data.expiry.date_at(now as int)
            &&& loaded_of(id, created.reply(load)) == Ok::<Option<SessionDataView>, StoreErrorView>(
                Some(
                    SessionDataView {
                        id: IdType::Unloaded(id),
                        data: data.data,
                        expiry: data.expiry,
                        should_save: false,
                    },
                ),
            )
            &&& data.expiry.date_at(later as int) >= data.expiry.date_at(now as int)
        }),
{
}

/// A creation that finds its identifier taken is tried again under another:
/// the session is left as it was and a fresh identifier is asked for, until
/// one is free. The session then has that identifier, which is not the one
/// that was taken, and the backend holds its record.
pub proof fn lemma_create_retries_until_free(
    backend: Backend,
    pre: SessionDataView,
    taken: Id,
    now: i64,
    retried: SessionDataView,
    retry: StepView,
    free: Id,
    post: SessionDataView,
    step: StepView,
)
    requires
        backend.holds(taken),
        resumed(
            pre,
            PendingView::Create { id: taken },
            backend.reply(write_request(taken, pre, ExistenceFlag::NX, now)),
            now,
            retried,
            retry,
        ),
        retry matches StepView::Ask(request, PendingView::Create { id }) && id == free,
        !backend.holds(free),
        resumed(
            retried,
            PendingView::Create { id: free },
            backend.reply(retry->Ask_0),
            now,
            post,
            step,
        ),
    ensures
        retried == pre,
        retry->Ask_0 == write_request(free, pre, ExistenceFlag::NX, now),
        free != taken,
        step == done(None),
        post == (SessionDataView { id: IdType::Id(free), should_save: false, ..pre }),
        backend.after(retry->Ask_0).records[key_of(free)].value == record_of(pre),
        backend.after(retry->Ask_0).records[key_of(taken)] == backend.records[key_of(taken)],
{
}

/// Where the store holds no record for the identifier that the request
/// brought, reading or writing the payload still succeeds: the session asks
/// for the record, then creates one under a fresh identifier, and ends with
/// that identifier confirmed. The identifier that the request brought is
/// dropped.
pub proof fn lemma_missed_load_recovers(
    backend: Backend,
    stale: Id,
    expiry: Expiry,
    should_save: bool,
    access: AccessView,
    now: i64,
    asked: SessionDataView,
    ask: StepView,
    missed: SessionDataView,
    create: StepView,
    fresh: Id,
    post: SessionDataView,
    step: StepView,
)
    requires
        !backend.holds(stale),
        !backend.holds(fresh),
        ({
            let pre = SessionDataView { id: IdType::Unloaded(stale), data: None, expiry, should_save };
            &&& accessing(pre, access, asked, ask)
            &&& ask is Ask
            &&& resumed(asked, ask->Ask_1, backend.reply(ask->Ask_0), now, missed, create)
            &&& create matches StepView::Ask(request, PendingView::Recover { id, access: _ }) && id
                == fresh
            &&& resumed(missed, create->Ask_1, backend.reply(create->Ask_0), now, post, step)
        }),
    ensures
        ask == StepView::Ask(
            StoreRequestView::Read { key: key_of(stale) },
            PendingView::Load { id: stale, access },
        ),
        step is Done,
        step->Done_0 is Ok,
        post.id == IdType::Id(fresh),
        post.expiry == expiry,
        backend.after(create->Ask_0).holds(fresh),
        match access {
            AccessView::Reading => step == done(None) && post.data is None && !post.should_save,
            AccessView::Writing(value) => post.data == Some(value) && post.should_save,
        },
{
}

/// Reading the payload never marks the session as modified, whatever the
/// store answers meanwhile; writing it always does, once it succeeds.
pub proof fn lemma_dirty_flag_discipline(
    pre: SessionDataView,
    access: AccessView,
    started: SessionDataView,
    start: StepView,
    pending: PendingView,
    reply: StoreReplyView,
    now: i64,
    post: SessionDataView,
    step: StepView,
)
    requires
        accessing(pre, access, started, start),
        match pending {
            PendingView::Load { id, access: waiting } => waiting == access,
            PendingView::Recover { id, access: waiting } => waiting == access,
            _ => false,
        },
        resumed(pre, pending, reply, now, post, step),
    ensures
        access is Reading ==> started == pre && (post.should_save ==> pre.should_save),
        access is Writing ==> (start matches StepView::Done(Ok(_)) ==> started.should_save),
        access is Writing ==> (step matches StepView::Done(Ok(_)) ==> post.should_save),
{
}

/// Cycling the identifier of a saved session moves its record: the record
/// under the old identifier is deleted and one with the same payload is
/// created under a fresh identifier, which the session ends with. The
/// session ends marked as modified, so that the middleware sends the fresh
/// identifier to the client.
///
/// The old key is free again once it is deleted, so nothing but chance keeps
/// the generator from drawing an identifier with the same key: the record
/// under the old identifier is gone where the fresh key is another.
pub proof fn lemma_cycle_id_moves_record(
    backend: Backend,
    pre: SessionDataView,
    old_id: Id,
    now: i64,
    cycled: SessionDataView,
    delete: StepView,
    deleted: SessionDataView,
    create: StepView,
    fresh: Id,
    post: SessionDataView,
    step: StepView,
)
    requires
        pre.id == IdType::Id(old_id),
        cycling(pre, cycled, delete),
        delete is Ask,
        resumed(cycled, delete->Ask_1, backend.reply(delete->Ask_0), now, deleted, create),
        create matches StepView::Ask(request, PendingView::Renew { id }) && id == fresh,
        !backend.after(delete->Ask_0).holds(fresh),
        resumed(
            deleted,
            create->Ask_1,
            backend.after(delete->Ask_0).reply(create->Ask_0),
            now,
            post,
            step,
        ),
    ensures
        delete->Ask_0 == (StoreRequestView::Remove { key: key_of(old_id) }),
        step == done(None),
        post.id == IdType::Id(fresh),
        post.data == pre.data,
        post.expiry == pre.expiry,
        post.should_save,
        ({
            let end = backend.after(delete->Ask_0).after(create->Ask_0);
            &&& end.holds(fresh)
            &&& end.records[key_of(fresh)].value.data == pre.data
            &&& key_of(fresh) != key_of(old_id) ==> !end.holds(old_id)
        }),
{
}

/// A session never goes back to an identifier that is not confirmed: no step
/// leaves a session with an unloaded identifier that it did not have before.
pub proof fn lemma_identifier_is_loaded_once(
    pre: SessionDataView,
    pending: PendingView,
    reply: StoreReplyView,
    now: i64,
    post: SessionDataView,
    step: StepView,
)
    requires
        resumed(pre, pending, reply, now, post, step),
    ensures
        post.id is Unloaded ==> post.id == pre.id,
        (pending is Load && step matches StepView::Done(Ok(_))) ==> post.id == IdType::Id(
            pending->Load_id,
        ),
{
}

/// An operation that begins on a session leaves it with the identifier that
/// it had, or, where it flushes or cycles, with none.
pub proof fn lemma_operations_never_unload(
    pre: SessionDataView,
    access: AccessView,
    now: i64,
    post: SessionDataView,
    step: StepView,
)
    requires
        accessing(pre, access, post, step) || saving(pre, now, post, step) || flushing(
            pre,
            post,
            step,
        ) || cycling(pre, post, step),
    ensures
        post.id == pre.id || post.id == IdType::NoId,
{
}

/// A session that waits for its record holds no payload, and every step
/// keeps it so.
pub open spec fn unloaded_is_bare(session: SessionDataView) -> bool {
    session.id is Unloaded ==> session.data is None
}

/// See [`unloaded_is_bare`].
pub proof fn lemma_unloaded_stays_bare(
    pre: SessionDataView,
    access: AccessView,
    pending: PendingView,
    reply: StoreReplyView,
    now: i64,
    post: SessionDataView,
    step: StepView,
)
    requires
        unloaded_is_bare(pre),
        accessing(pre, access, post, step) || saving(pre, now, post, step) || flushing(
            pre,
            post,
            step,
        ) || cycling(pre, post, step) || resumed(pre, pending, reply, now, post, step),
    ensures
        unloaded_is_bare(post),
{
}

/// Flushing clears everything: the session ends empty and without an
/// identifier, and the backend holds no record under the identifier that it
/// had.
pub proof fn lemma_flush_clears(
    backend: Backend,
    pre: SessionDataView,
    now: i64,
    flushed: SessionDataView,
    delete: StepView,
    post: SessionDataView,
    step: StepView,
)
    requires
        flushing(pre, flushed, delete),
        match delete {
            StepView::Ask(request, pending) => resumed(
                flushed,
                pending,
                backend.reply(request),
                now,
                post,
                step,
            ),
            StepView::Done(_) => post == flushed && step == delete,
        },
    ensures
        step == done(None),
        post.is_empty(),
        post.id == IdType::NoId,
        post.expiry == pre.expiry,
        !post.should_save,
        match pre.id {
            IdType::Unloaded(id) | IdType::Id(id) => delete is Ask && !backend.after(
                delete->Ask_0,
            ).holds(id),
            IdType::NoId => delete is Done,
        },
{
}

} // verus!
