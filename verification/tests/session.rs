use phs_backend::auth::{AuthUser, Permission};
use phs_backend::resources::Role;
use phs_backend::sessions::session::{Access, IdType, Pending, Session, SessionData, Step};
use phs_backend::sessions::store::{
    store_key, ExistenceFlag, SessionStore, SessionStoreData, SessionStoreError, StoreReply,
    StoreRequest,
};
use phs_backend::sessions::{Error, Expiry, Id};
use rand_chacha::ChaCha20Rng;
use rand_core::SeedableRng;
use std::collections::HashMap;

/// A key-value backend in memory that answers as Redis would.
struct Backend {
    records: HashMap<String, (Option<AuthUser>, Expiry, i64)>,
    commands: Vec<String>,
    down: bool,
}

impl Backend {
    fn new() -> Self {
        Backend { records: HashMap::new(), commands: Vec::new(), down: false }
    }

    fn apply(&mut self, request: StoreRequest) -> StoreReply {
        if self.down {
            return StoreReply::Failed(SessionStoreError::Redis("connection refused".to_string()));
        }
        match request {
            StoreRequest::Write { key, value, exists, expire_at } => {
                self.commands.push(format!("SET {} {}", key, exists.as_str()));
                let present = self.records.contains_key(&key);
                match exists {
                    ExistenceFlag::NX => {
                        if present {
                            self.records.get_mut(&key).unwrap().2 = expire_at;
                        } else {
                            self.records.insert(key, (value.data, value.expiry, expire_at));
                        }
                        StoreReply::Written { set_result: !present, expireat_result: true }
                    },
                    ExistenceFlag::XX => {
                        if present {
                            self.records.insert(key, (value.data, value.expiry, expire_at));
                        }
                        StoreReply::Written { set_result: present, expireat_result: present }
                    },
                }
            },
            StoreRequest::Read { key } => {
                self.commands.push(format!("GET {}", key));
                StoreReply::Found(self.records.get(&key).map(|(data, expiry, _)| {
                    vec![SessionStoreData { data: data.clone(), expiry: *expiry }]
                }))
            },
            StoreRequest::Remove { key } => {
                self.commands.push(format!("DEL {}", key));
                self.records.remove(&key);
                StoreReply::Removed
            },
        }
    }

    fn payload(&self, id: &Id) -> Option<AuthUser> {
        self.records.get(&store_key(id)).and_then(|(data, _, _)| data.clone())
    }

    fn holds(&self, id: &Id) -> bool {
        self.records.contains_key(&store_key(id))
    }
}

fn store(seed: u64) -> SessionStore {
    SessionStore::new(ChaCha20Rng::seed_from_u64(seed))
}

fn alice() -> AuthUser {
    AuthUser {
        id: 7,
        username: "alice".to_string(),
        hash: "$argon2id$alice".to_string(),
        permissions: vec![Permission::CreatePosts, Permission::EditPosts],
        role: Role::Teacher,
        groups: vec!["staff".to_string(), "editors".to_string()],
    }
}

fn bob() -> AuthUser {
    AuthUser {
        id: 8,
        username: "bob".to_string(),
        hash: "$argon2id$bob".to_string(),
        permissions: vec![],
        role: Role::Student,
        groups: vec![],
    }
}

const NOW: i64 = 1_700_000_000;

fn drive(
    session: &mut Session,
    store: &mut SessionStore,
    backend: &mut Backend,
    mut step: Step,
) -> Result<Option<AuthUser>, Error> {
    loop {
        match step {
            Step::Done(result) => return result,
            Step::Ask(request, pending) => {
                let reply = backend.apply(request);
                step = session.resume(store, pending, reply, NOW);
            },
        }
    }
}

fn confirmed(session: &Session) -> Id {
    match session.id() {
        IdType::Id(id) => id,
        other => panic!("no confirmed identifier: {}", other.describe()),
    }
}

/// A saved session with `payload`, and the store and backend it lives in.
fn saved(payload: AuthUser) -> (Session, SessionStore, Backend) {
    let mut store = store(1);
    let mut backend = Backend::new();
    let mut session = Session::new(None, Expiry::OnInactivity(3_600));
    let step = session.set(&store, payload);
    assert!(drive(&mut session, &mut store, &mut backend, step) == Ok(None));
    let step = session.save(&mut store, NOW);
    assert!(drive(&mut session, &mut store, &mut backend, step) == Ok(None));
    (session, store, backend)
}

#[test]
fn new_session_without_cookie() {
    let session = Session::new(None, Expiry::OnSessionEnd);
    assert!(session.id() == IdType::NoId);
    assert!(session.is_empty());
    assert!(!session.should_save());
    assert!(session.expiry() == Expiry::OnSessionEnd);
    assert!(session.get_hashed_id().is_none());
}

#[test]
fn new_session_with_cookie_is_unloaded() {
    let session = Session::new(Some(Id::new(5)), Expiry::OnInactivity(10));
    assert!(session.id() == IdType::Unloaded(Id::new(5)));
    assert!(session.is_empty());
    assert!(!session.should_save());
    assert_eq!(session.get_hashed_id(), Some(Id::new(5).hashed_id()));
    let data = session.get_session_data();
    assert!(data.id == IdType::Unloaded(Id::new(5)));
    assert!(data.data.is_none());
}

#[test]
fn id_type_describes_without_the_identifier() {
    assert_eq!(IdType::NoId.describe(), "None");
    assert_eq!(IdType::Unloaded(Id::new(3)).describe(), "Unloaded([redacted])");
    assert_eq!(IdType::Id(Id::new(3)).describe(), "Id([redacted])");
}

#[test]
fn session_data_new_is_unloaded() {
    let data = SessionData::new(Id::new(9), Some(alice()), Expiry::AtDateTime(77));
    assert!(*data.id() == IdType::Unloaded(Id::new(9)));
    assert_eq!(data.data(), Some(alice()));
    assert!(data.expiry() == Expiry::AtDateTime(77));
    assert_eq!(data.expiry_date(), 77);
    assert!(!data.should_save);
}

#[test]
fn get_on_fresh_session_reads_nothing_and_asks_nothing() {
    let store = store(1);
    let mut session = Session::new(None, Expiry::OnSessionEnd);
    match session.get(&store) {
        Step::Done(Ok(None)) => {},
        _ => panic!("get should be over at once"),
    }
    assert!(!session.should_save());
    assert!(session.id() == IdType::NoId);
}

#[test]
fn set_marks_the_session() {
    let store = store(1);
    let mut session = Session::new(None, Expiry::OnSessionEnd);
    match session.set(&store, alice()) {
        Step::Done(Ok(None)) => {},
        _ => panic!("set should be over at once"),
    }
    assert!(session.should_save());
    assert!(!session.is_empty());
    match session.get(&store) {
        Step::Done(Ok(Some(user))) => assert_eq!(user, alice()),
        _ => panic!("get should hand back the payload"),
    }
}

#[test]
fn get_never_marks_the_session() {
    let (session, mut store, mut backend) = saved(alice());
    let id = confirmed(&session);
    let mut next = Session::new(Some(id), Expiry::OnSessionEnd);
    let step = next.get(&store);
    assert_eq!(drive(&mut next, &mut store, &mut backend, step), Ok(Some(alice())));
    assert!(!next.should_save());
    let step = next.get(&store);
    assert_eq!(drive(&mut next, &mut store, &mut backend, step), Ok(Some(alice())));
    assert!(!next.should_save());
}

#[test]
fn clear_and_set_expiry_mark_the_session() {
    let mut session = Session::new(None, Expiry::OnSessionEnd);
    session.clear();
    assert!(session.should_save());
    let mut session = Session::new(None, Expiry::OnSessionEnd);
    session.set_expiry(Expiry::OnInactivity(5));
    assert!(session.should_save());
    assert!(session.expiry() == Expiry::OnInactivity(5));
}

#[test]
fn remove_value_marks_only_where_there_was_a_payload() {
    let mut session = Session::new(None, Expiry::OnSessionEnd);
    assert!(session.remove_value() == Ok(()));
    assert!(!session.should_save());
    let (saved_session, mut store, mut backend) = saved(alice());
    let mut session = Session::new(Some(confirmed(&saved_session)), Expiry::OnSessionEnd);
    let step = session.get(&store);
    assert_eq!(drive(&mut session, &mut store, &mut backend, step), Ok(Some(alice())));
    assert!(!session.should_save());
    assert!(session.remove_value() == Ok(()));
    assert!(session.should_save());
    assert!(session.get_session_data().data.is_none());
}

#[test]
fn clear_keeps_identifier_and_record() {
    let (mut session, _store, backend) = saved(alice());
    let id = confirmed(&session);
    session.clear();
    assert!(session.id() == IdType::Id(id));
    assert!(!session.is_empty());
    assert_eq!(backend.payload(&id), Some(alice()));
}

#[test]
fn is_empty_wants_no_identifier_and_no_payload() {
    let store = store(1);
    let mut session = Session::new(None, Expiry::OnSessionEnd);
    assert!(session.is_empty());
    let _ = session.set(&store, alice());
    assert!(!session.is_empty());
    let (mut saved_session, _, _) = saved(alice());
    saved_session.clear();
    assert!(!saved_session.is_empty());
}

#[test]
fn expiry_age_of_a_session() {
    let session = Session::new(None, Expiry::OnInactivity(120));
    assert_eq!(session.expiry_age_at(NOW), 120);
    assert_eq!(session.expiry_age(), Some(120));
    let session = Session::new(None, Expiry::AtDateTime(NOW - 1));
    assert_eq!(session.expiry_age_at(NOW), 0);
    assert_eq!(session.expiry_age(), Some(0));
}

#[test]
fn save_creates_a_record_and_confirms_the_identifier() {
    let (session, _store, backend) = saved(alice());
    let id = confirmed(&session);
    assert!(!session.should_save());
    assert_eq!(backend.payload(&id), Some(alice()));
    let (_, expiry, expire_at) = backend.records.get(&store_key(&id)).unwrap();
    assert!(*expiry == Expiry::OnInactivity(3_600));
    assert_eq!(*expire_at, NOW + 3_600);
    assert_eq!(backend.commands, vec![format!("SET {} NX", store_key(&id))]);
}

#[test]
fn create_then_load_gives_the_payload_back() {
    let (session, mut store, mut backend) = saved(alice());
    let id = confirmed(&session);
    let mut next = Session::new(Some(id), Expiry::OnSessionEnd);
    let step = next.get(&store);
    assert_eq!(drive(&mut next, &mut store, &mut backend, step), Ok(Some(alice())));
    assert!(next.id() == IdType::Id(id));
    assert!(next.expiry() == Expiry::OnInactivity(3_600));
    assert!(next.expiry().expiry_date_at(NOW + 5) >= NOW + 3_600);
}

#[test]
fn save_updates_the_record_of_a_confirmed_identifier() {
    let (mut session, mut store, mut backend) = saved(alice());
    let id = confirmed(&session);
    let step = session.set(&store, bob());
    assert!(drive(&mut session, &mut store, &mut backend, step) == Ok(None));
    assert!(session.should_save());
    let step = session.save(&mut store, NOW);
    assert!(drive(&mut session, &mut store, &mut backend, step) == Ok(None));
    assert!(session.id() == IdType::Id(id));
    assert!(!session.should_save());
    assert_eq!(backend.payload(&id), Some(bob()));
    assert_eq!(backend.commands.last().unwrap(), &format!("SET {} XX", store_key(&id)));
}

#[test]
fn save_reports_a_record_that_vanished() {
    let (mut session, mut store, mut backend) = saved(alice());
    let id = confirmed(&session);
    backend.records.clear();
    let step = session.save(&mut store, NOW);
    assert_eq!(drive(&mut session, &mut store, &mut backend, step), Err(Error::SessionNotFound));
    assert!(!backend.holds(&id));
    assert!(session.id() == IdType::Id(id));
}

#[test]
fn create_retries_when_the_identifier_is_taken() {
    let taken = store(42).new_id().unwrap();
    let mut backend = Backend::new();
    backend.records.insert(store_key(&taken), (Some(bob()), Expiry::OnSessionEnd, 5));
    let mut store = store(42);
    let mut session = Session::new(None, Expiry::OnSessionEnd);
    let _ = session.set(&store, alice());
    let step = session.save(&mut store, NOW);
    assert!(drive(&mut session, &mut store, &mut backend, step) == Ok(None));
    let id = confirmed(&session);
    assert!(id != taken);
    assert_eq!(backend.payload(&id), Some(alice()));
    assert_eq!(backend.payload(&taken), Some(bob()));
    assert_eq!(
        backend.commands,
        vec![format!("SET {} NX", store_key(&taken)), format!("SET {} NX", store_key(&id))]
    );
}

#[test]
fn many_creates_give_distinct_identifiers() {
    let mut store = store(3);
    let mut backend = Backend::new();
    let mut ids = Vec::new();
    for _ in 0..50 {
        let mut session = Session::new(None, Expiry::OnSessionEnd);
        let _ = session.set(&store, alice());
        let step = session.save(&mut store, NOW);
        assert!(drive(&mut session, &mut store, &mut backend, step) == Ok(None));
        ids.push(confirmed(&session));
    }
    for (i, a) in ids.iter().enumerate() {
        for b in ids.iter().skip(i + 1) {
            assert!(a != b);
        }
    }
    assert_eq!(backend.records.len(), 50);
}

#[test]
fn missed_load_recovers_with_a_fresh_identifier() {
    let stale = Id::new(1234);
    let mut store = store(5);
    let mut backend = Backend::new();
    let mut session = Session::new(Some(stale), Expiry::OnInactivity(60));
    let step = session.get(&store);
    assert_eq!(drive(&mut session, &mut store, &mut backend, step), Ok(None));
    let fresh = confirmed(&session);
    assert!(fresh != stale);
    assert!(!session.should_save());
    assert!(!backend.holds(&stale));
    assert!(backend.holds(&fresh));
    assert_eq!(backend.payload(&fresh), None);
    assert_eq!(
        backend.commands,
        vec![format!("GET {}", store_key(&stale)), format!("SET {} NX", store_key(&fresh))]
    );
}

#[test]
fn missed_load_on_write_keeps_the_value() {
    let stale = Id::new(-77);
    let mut store = store(5);
    let mut backend = Backend::new();
    let mut session = Session::new(Some(stale), Expiry::OnInactivity(60));
    let step = session.set(&store, alice());
    assert_eq!(drive(&mut session, &mut store, &mut backend, step), Ok(None));
    let fresh = confirmed(&session);
    assert!(fresh != stale);
    assert!(session.should_save());
    assert_eq!(session.get_session_data().data, Some(alice()));
}

#[test]
fn load_failure_is_an_error() {
    let mut store = store(5);
    let mut backend = Backend::new();
    backend.down = true;
    let mut session = Session::new(Some(Id::new(2)), Expiry::OnSessionEnd);
    let step = session.get(&store);
    assert_eq!(
        drive(&mut session, &mut store, &mut backend, step),
        Err(Error::Store(SessionStoreError::Redis("connection refused".to_string())))
    );
    assert!(session.id() == IdType::Unloaded(Id::new(2)));
}

#[test]
fn delete_without_identifier_asks_nothing() {
    let store = store(1);
    let session = Session::new(None, Expiry::OnSessionEnd);
    match session.delete(&store) {
        Step::Done(Ok(None)) => {},
        _ => panic!("nothing to delete"),
    }
}

#[test]
fn delete_removes_the_record_and_is_idempotent() {
    let (mut session, mut store, mut backend) = saved(alice());
    let id = confirmed(&session);
    let step = session.delete(&store);
    assert!(drive(&mut session, &mut store, &mut backend, step) == Ok(None));
    assert!(!backend.holds(&id));
    let step = session.delete(&store);
    assert!(drive(&mut session, &mut store, &mut backend, step) == Ok(None));
    assert!(!backend.holds(&id));
}

#[test]
fn delete_reaches_an_unloaded_identifier() {
    let (session, mut store, mut backend) = saved(alice());
    let id = confirmed(&session);
    let mut next = Session::new(Some(id), Expiry::OnSessionEnd);
    let step = next.delete(&store);
    assert!(drive(&mut next, &mut store, &mut backend, step) == Ok(None));
    assert!(!backend.holds(&id));
}

#[test]
fn flush_clears_everything() {
    let (mut session, mut store, mut backend) = saved(alice());
    let id = confirmed(&session);
    let step = session.flush(&store);
    assert!(drive(&mut session, &mut store, &mut backend, step) == Ok(None));
    assert!(session.is_empty());
    assert!(session.id() == IdType::NoId);
    assert!(!session.should_save());
    assert!(session.expiry() == Expiry::OnInactivity(3_600));
    assert!(!backend.holds(&id));
}

#[test]
fn flush_of_a_fresh_session() {
    let store = store(1);
    let mut session = Session::new(None, Expiry::AtDateTime(9));
    let _ = session.set(&store, alice());
    match session.flush(&store) {
        Step::Done(Ok(None)) => {},
        _ => panic!("nothing to delete"),
    }
    assert!(session.is_empty());
    assert!(!session.should_save());
    assert!(session.expiry() == Expiry::AtDateTime(9));
}

#[test]
fn flush_that_fails_leaves_the_identifier() {
    let (mut session, mut store, mut backend) = saved(alice());
    let id = confirmed(&session);
    backend.down = true;
    let step = session.flush(&store);
    assert!(drive(&mut session, &mut store, &mut backend, step).is_err());
    assert!(session.id() == IdType::Id(id));
    assert!(session.should_save());
}

#[test]
fn cycle_id_moves_the_record() {
    let (mut session, mut store, mut backend) = saved(alice());
    let old = confirmed(&session);
    let step = session.cycle_id(&store);
    assert!(drive(&mut session, &mut store, &mut backend, step) == Ok(None));
    let new = confirmed(&session);
    assert!(new != old);
    assert!(!backend.holds(&old));
    assert_eq!(backend.payload(&new), Some(alice()));
    assert_eq!(session.get_session_data().data, Some(alice()));
    assert!(session.should_save());
}

#[test]
fn cycle_id_without_confirmed_identifier_does_nothing() {
    let store = store(1);
    let mut session = Session::new(Some(Id::new(4)), Expiry::OnSessionEnd);
    match session.cycle_id(&store) {
        Step::Done(Ok(None)) => {},
        _ => panic!("nothing to cycle"),
    }
    assert!(session.id() == IdType::Unloaded(Id::new(4)));
    assert!(!session.should_save());
}

#[test]
fn resume_refuses_an_answer_that_does_not_fit() {
    let mut store = store(1);
    let mut session = Session::new(None, Expiry::OnSessionEnd);
    let step = session.resume(&mut store, Pending::Delete, StoreReply::Found(None), NOW);
    match step {
        Step::Done(Err(Error::Store(SessionStoreError::Misc(message)))) => {
            assert_eq!(message, "Unexpected reply from the store")
        },
        _ => panic!("the answer does not fit"),
    }
    let pending = Pending::Load { id: Id::new(1), access: Access::Reading };
    match session.resume(&mut store, pending, StoreReply::Removed, NOW) {
        Step::Done(Err(Error::Store(SessionStoreError::Misc(_)))) => {},
        _ => panic!("the answer does not fit"),
    }
}

#[test]
fn store_halves_of_load() {
    let store = store(1);
    let id = Id::new(11);
    match store.load(&id) {
        StoreRequest::Read { key } => assert_eq!(key, store_key(&id)),
        _ => panic!("load reads"),
    }
    assert!(SessionStore::loaded(&id, StoreReply::Found(None)).unwrap().is_none());
    let one = vec![SessionStoreData { data: Some(alice()), expiry: Expiry::AtDateTime(3) }];
    let loaded = SessionStore::loaded(&id, StoreReply::Found(Some(one))).unwrap().unwrap();
    assert!(loaded.id == IdType::Unloaded(id));
    assert_eq!(loaded.data, Some(alice()));
    assert!(loaded.expiry == Expiry::AtDateTime(3));
    assert!(!loaded.should_save);
    assert_eq!(
        SessionStore::loaded(&id, StoreReply::Found(Some(vec![]))).err(),
        Some(SessionStoreError::NotFound)
    );
    let two = vec![
        SessionStoreData { data: None, expiry: Expiry::OnSessionEnd },
        SessionStoreData { data: None, expiry: Expiry::OnSessionEnd },
    ];
    assert_eq!(
        SessionStore::loaded(&id, StoreReply::Found(Some(two))).err(),
        Some(SessionStoreError::Misc("Multiple values returned from JSON.GET".to_string()))
    );
    assert_eq!(
        SessionStore::loaded(&id, StoreReply::Failed(SessionStoreError::Serde("eof".to_string())))
            .err(),
        Some(SessionStoreError::Serde("eof".to_string()))
    );
}

#[test]
fn store_halves_of_write_and_delete() {
    let store = store(1);
    let id = Id::new(11);
    let data = SessionData::new(id, Some(alice()), Expiry::OnInactivity(30));
    match store.save(&id, &data, NOW) {
        StoreRequest::Write { key, value, exists, expire_at } => {
            assert_eq!(key, store_key(&id));
            assert_eq!(value.data, Some(alice()));
            assert!(value.expiry == Expiry::OnInactivity(30));
            assert!(exists == ExistenceFlag::XX);
            assert_eq!(expire_at, NOW + 30);
        },
        _ => panic!("save writes"),
    }
    match store.save_with_options(&id, &data, ExistenceFlag::NX, NOW) {
        StoreRequest::Write { exists, .. } => assert!(exists == ExistenceFlag::NX),
        _ => panic!("save writes"),
    }
    match store.delete(&id) {
        StoreRequest::Remove { key } => assert_eq!(key, store_key(&id)),
        _ => panic!("delete removes"),
    }
    let yes = StoreReply::Written { set_result: true, expireat_result: true };
    let half = StoreReply::Written { set_result: true, expireat_result: false };
    let no = StoreReply::Written { set_result: false, expireat_result: true };
    assert_eq!(SessionStore::written(yes), Ok(true));
    assert_eq!(SessionStore::written(half), Ok(false));
    assert_eq!(SessionStore::written(no), Ok(false));
    assert_eq!(
        SessionStore::saved(StoreReply::Written { set_result: true, expireat_result: true }),
        Ok(())
    );
    assert_eq!(
        SessionStore::saved(StoreReply::Written { set_result: false, expireat_result: false }),
        Err(SessionStoreError::NotFound)
    );
    assert_eq!(SessionStore::deleted(StoreReply::Removed), Ok(()));
    assert!(SessionStore::deleted(StoreReply::Found(None)).is_err());
    assert!(SessionStore::written(StoreReply::Removed).is_err());
}

#[test]
fn store_create_draws_a_fresh_identifier_each_time() {
    let mut store = store(9);
    let data = SessionData::new(Id::new(0), None, Expiry::OnSessionEnd);
    let (first, request) = store.create(&data, NOW).unwrap();
    match request {
        StoreRequest::Write { key, exists, expire_at, value } => {
            assert_eq!(key, store_key(&first));
            assert!(exists == ExistenceFlag::NX);
            assert_eq!(expire_at, NOW + 1_209_600);
            assert!(value.data.is_none());
        },
        _ => panic!("create writes"),
    }
    let (second, _) = store.create(&data, NOW).unwrap();
    assert!(first != second);
}

#[test]
fn record_is_payload_and_expiry() {
    let data = SessionData::new(Id::new(0), Some(bob()), Expiry::AtDateTime(12));
    let record = SessionStoreData::from_session_data(&data);
    assert_eq!(record.data, Some(bob()));
    assert!(record.expiry == Expiry::AtDateTime(12));
}

#[test]
fn errors_in_words() {
    assert_eq!(Error::SessionNotFound.to_string(), "Session not found");
    assert_eq!(
        Error::Store(SessionStoreError::Redis("down".to_string())).to_string(),
        "Redis session store error: Redis client error: down"
    );
    assert_eq!(
        SessionStoreError::DeadpoolError("timeout".to_string()).to_string(),
        "Redis connection pool error: timeout"
    );
    assert_eq!(
        SessionStoreError::Serde("eof".to_string()).to_string(),
        "Error whilst serialising or deserialising data: eof"
    );
    assert_eq!(
        SessionStoreError::Rand.to_string(),
        "Error whilst getting an OS random number"
    );
    assert_eq!(SessionStoreError::Misc("odd".to_string()).to_string(), "Miscellaneous error: odd");
    assert_eq!(SessionStoreError::NotFound.to_string(), "Session not found");
}

#[test]
fn missing_record_is_an_error_of_its_own() {
    assert_eq!(Error::from(SessionStoreError::NotFound), Error::SessionNotFound);
    assert_eq!(Error::from_store(SessionStoreError::NotFound), Error::SessionNotFound);
    assert_eq!(
        Error::from(SessionStoreError::Rand),
        Error::Store(SessionStoreError::Rand)
    );
}

#[test]
fn existence_flags_as_text() {
    assert_eq!(ExistenceFlag::NX.as_str(), "NX");
    assert_eq!(ExistenceFlag::XX.as_str(), "XX");
}

#[test]
fn auth_user_getters() {
    let user = alice();
    assert_eq!(user.id(), 7);
    assert_eq!(user.hash(), "$argon2id$alice");
    assert!(user.has_permission(Permission::EditPosts));
    assert!(!user.has_permission(Permission::ManagePages));
    assert_eq!(user.clone(), user);
}

#[test]
fn load_reads_the_record_afresh() {
    let (mut session, mut store, mut backend) = saved(alice());
    let id = confirmed(&session);
    backend.records.insert(store_key(&id), (Some(bob()), Expiry::AtDateTime(9), 9));
    session.clear();
    let step = session.load(&store);
    assert!(drive(&mut session, &mut store, &mut backend, step) == Ok(None));
    assert!(session.id() == IdType::Id(id));
    assert!(!session.should_save());
    assert!(session.expiry() == Expiry::AtDateTime(9));
    assert_eq!(session.get_session_data().data, Some(bob()));
}

#[test]
fn load_of_a_record_that_is_gone_flushes_the_session() {
    let (mut session, mut store, mut backend) = saved(alice());
    backend.records.clear();
    let step = session.load(&store);
    assert!(drive(&mut session, &mut store, &mut backend, step) == Ok(None));
    assert!(session.id() == IdType::NoId);
    assert!(session.is_empty());
    assert!(!session.should_save());
    assert!(session.expiry() == Expiry::OnInactivity(3_600));
}

#[test]
fn load_without_confirmed_identifier_asks_nothing() {
    let store = store(1);
    let session = Session::new(Some(Id::new(8)), Expiry::OnSessionEnd);
    match session.load(&store) {
        Step::Done(Ok(None)) => {},
        _ => panic!("nothing to load"),
    }
    let session = Session::new(None, Expiry::OnSessionEnd);
    assert!(matches!(session.load(&store), Step::Done(Ok(None))));
}

#[test]
fn a_session_that_waits_for_its_record_holds_no_payload() {
    let mut store = store(8);
    let mut backend = Backend::new();
    let mut session = Session::new(Some(Id::new(21)), Expiry::OnSessionEnd);
    session.clear();
    session.set_expiry(Expiry::OnInactivity(3));
    assert!(session.id() == IdType::Unloaded(Id::new(21)));
    assert!(session.get_session_data().data.is_none());
    let step = session.set(&store, alice());
    assert!(matches!(step, Step::Ask(StoreRequest::Read { .. }, Pending::Load { .. })));
    assert!(session.get_session_data().data.is_none());
    assert!(drive(&mut session, &mut store, &mut backend, step) == Ok(None));
    assert!(matches!(session.id(), IdType::Id(_)));
    assert_eq!(session.get_session_data().data, Some(alice()));
}

#[test]
fn drawn_bytes_are_the_bytes_of_the_identifier() {
    let mut two = [0u8; 16];
    two[0] = 2;
    assert!(SessionStore::drawn_id(Some(two)) == Ok(Id::new(2)));
    assert!(SessionStore::drawn_id(Some([0xff; 16])) == Ok(Id::new(-1)));
    assert!(SessionStore::drawn_id(None) == Err(SessionStoreError::Rand));
}

#[test]
fn new_id_draws_from_the_generator_that_the_store_was_given() {
    let first = store(77).new_id().unwrap();
    let again = store(77).new_id().unwrap();
    let other = store(78).new_id().unwrap();
    assert!(first == again);
    assert!(first != other);
    let mut one = store(77);
    let a = one.new_id().unwrap();
    let b = one.new_id().unwrap();
    assert!(a == first);
    assert!(a != b);
}

#[test]
fn creations_side_by_side_get_their_own_records() {
    let mut store = store(13);
    let mut backend = Backend::new();
    let payloads = [alice(), bob(), alice(), bob(), alice()];
    let mut sessions = Vec::new();
    let mut steps = Vec::new();
    for payload in payloads.iter() {
        let mut session = Session::new(None, Expiry::OnSessionEnd);
        let _ = session.set(&store, payload.clone());
        let step = session.save(&mut store, NOW);
        sessions.push(session);
        steps.push(step);
    }
    // The writes reach the backend in another order than they were made in.
    let mut order: Vec<usize> = vec![3, 0, 4, 1, 2];
    while let Some(i) = order.pop() {
        let step = std::mem::replace(&mut steps[i], Step::Done(Ok(None)));
        assert!(drive(&mut sessions[i], &mut store, &mut backend, step) == Ok(None));
    }
    let ids: Vec<Id> = sessions.iter().map(confirmed).collect();
    for (i, a) in ids.iter().enumerate() {
        for b in ids.iter().skip(i + 1) {
            assert!(a != b);
        }
        assert_eq!(backend.payload(a), Some(payloads[i].clone()));
    }
    assert_eq!(backend.records.len(), payloads.len());
}

#[test]
fn record_expires_within_the_cap() {
    let mut store = store(2);
    let mut backend = Backend::new();
    for (duration, expected) in [(-50, NOW), (30, NOW + 30), (i64::MAX, NOW + 1_209_600)] {
        let mut session = Session::new(None, Expiry::OnInactivity(duration));
        let _ = session.set(&store, alice());
        let step = session.save(&mut store, NOW);
        assert!(drive(&mut session, &mut store, &mut backend, step) == Ok(None));
        let (_, expiry, expire_at) = backend.records.get(&store_key(&confirmed(&session))).unwrap();
        assert!(*expiry == Expiry::OnInactivity(duration));
        assert_eq!(*expire_at, expected);
    }
}
