use botline::session::{
    namespace, namespace_from_update, Session, SessionKey, SessionLifetime, SessionStore,
};
use botline::store::MemoryStore;
use botline::types::update::{Update, UpdateKind};
use std::collections::HashMap;
use std::time::Duration;

#[derive(Default)]
struct Store {
    data: HashMap<String, Vec<u8>>,
    expire_calls: Vec<(String, usize)>,
}

impl SessionStore for Store {
    type Error = serde_json::Error;

    fn get(&mut self, key: SessionKey) -> Result<Option<Vec<u8>>, Self::Error> {
        Ok(self.data.get(&key.to_string()).cloned())
    }

    fn set(&mut self, key: SessionKey, value: Vec<u8>) -> Result<(), Self::Error> {
        self.data.insert(key.to_string(), value);
        Ok(())
    }

    fn expire(&mut self, key: SessionKey, seconds: usize) -> Result<(), Self::Error> {
        self.expire_calls.push((key.to_string(), seconds));
        Ok(())
    }

    fn del(&mut self, key: SessionKey) -> Result<(), Self::Error> {
        self.data.remove(&key.to_string());
        Ok(())
    }
}

fn read_number(found: Option<Vec<u8>>) -> Option<usize> {
    found.map(|bytes| serde_json::from_slice::<usize>(&bytes).unwrap())
}

#[test]
fn session() {
    let mut session = Session::new("namespace", Store::default());
    session.set("key", serde_json::to_vec(&1).unwrap()).unwrap();
    assert_eq!(read_number(session.get("key").unwrap()).unwrap(), 1);
    session.expire("key", 10).unwrap();
    assert!(session.store().expire_calls.contains(&(String::from("namespace-key"), 10)));
    session.del("key").unwrap();
    assert!(session.get("key").unwrap().is_none());
}

#[test]
fn session_key() {
    let key = SessionKey::new("namespace", "name");
    assert_eq!(key.namespace(), "namespace");
    assert_eq!(key.name(), "name");
    assert_eq!(key.to_string(), "namespace-name");
}

#[test]
fn session_lifetime() {
    assert_eq!(SessionLifetime::default(), SessionLifetime::Forever);
    assert_eq!(
        SessionLifetime::from(Duration::from_secs(1)),
        SessionLifetime::Duration(Duration::from_secs(1)),
    );
    assert_eq!(
        SessionLifetime::from(1),
        SessionLifetime::Duration(Duration::from_secs(1)),
    );
}

#[test]
fn session_lifetime_of_other_lengths() {
    assert_ne!(SessionLifetime::from(2), SessionLifetime::Duration(Duration::from_secs(1)));
    assert_eq!(SessionLifetime::from(0), SessionLifetime::Duration(Duration::from_secs(0)));
    assert_ne!(SessionLifetime::from(0), SessionLifetime::Forever);
}

#[test]
fn get_namespace_from_update() {
    assert_eq!(
        namespace_from_update(&Update {
            id: 1,
            kind: UpdateKind::Message { chat: 1, user: Some(1) },
        }),
        "1-1"
    );
    assert_eq!(
        namespace_from_update(&Update { id: 1, kind: UpdateKind::InlineQuery { user: 1111 } }),
        "1111-1111"
    );
    assert_eq!(
        namespace_from_update(&Update { id: 1, kind: UpdateKind::ChannelPost { chat: 1 } }),
        "1-1"
    );
}

#[test]
fn namespace_joins_chat_and_distinct_user() {
    let update = Update { id: 9, kind: UpdateKind::Message { chat: -100123, user: Some(42) } };
    assert_eq!(namespace(&update), Some(String::from("-100123-42")));
    let edited = Update { id: 10, kind: UpdateKind::EditedMessage { chat: 5, user: None } };
    assert_eq!(namespace(&edited), Some(String::from("5-5")));
}

#[test]
fn namespace_of_callback_query() {
    let inside = Update { id: 1, kind: UpdateKind::CallbackQuery { user: 7, chat: Some(3) } };
    assert_eq!(namespace(&inside), Some(String::from("3-7")));
    let inline = Update { id: 2, kind: UpdateKind::CallbackQuery { user: 7, chat: None } };
    assert_eq!(namespace(&inline), Some(String::from("7-7")));
}

#[test]
fn namespace_of_user_only_updates() {
    for kind in [
        UpdateKind::ChosenInlineResult { user: 8 },
        UpdateKind::ShippingQuery { user: 8 },
        UpdateKind::PreCheckoutQuery { user: 8 },
    ] {
        assert_eq!(namespace(&Update { id: 1, kind }), Some(String::from("8-8")));
    }
    let post = Update { id: 3, kind: UpdateKind::EditedChannelPost { chat: -4 } };
    assert_eq!(namespace(&post), Some(String::from("-4--4")));
}

#[test]
fn namespace_is_the_same_for_the_same_identities() {
    let first = Update { id: 1, kind: UpdateKind::Message { chat: 4, user: Some(6) } };
    let second = Update { id: 99, kind: UpdateKind::EditedMessage { chat: 4, user: Some(6) } };
    assert_eq!(namespace(&first), namespace(&second));
    assert_eq!(namespace(&first), namespace(&first));
    let other = Update { id: 1, kind: UpdateKind::Message { chat: 46, user: Some(6) } };
    assert_ne!(namespace(&first), namespace(&other));
}

#[test]
fn namespace_of_update_without_identity() {
    assert_eq!(namespace(&Update { id: 7, kind: UpdateKind::Poll }), None);
}

#[test]
fn memory_store_round_trip() {
    let mut session = Session::new("1-1", MemoryStore::new());
    assert_eq!(session.get("counter").unwrap(), None);
    session.set("counter", vec![1, 2, 3]).unwrap();
    assert_eq!(session.get("counter").unwrap(), Some(vec![1, 2, 3]));
    session.set("counter", vec![4]).unwrap();
    assert_eq!(session.get("counter").unwrap(), Some(vec![4]));
    assert_eq!(session.get("other").unwrap(), None);
}

#[test]
fn memory_store_delete_is_idempotent() {
    let mut session = Session::new("1-1", MemoryStore::new());
    session.set("a", vec![1]).unwrap();
    session.set("b", vec![2]).unwrap();
    session.del("a").unwrap();
    assert_eq!(session.get("a").unwrap(), None);
    session.del("a").unwrap();
    session.del("never").unwrap();
    assert_eq!(session.get("a").unwrap(), None);
    assert_eq!(session.get("b").unwrap(), Some(vec![2]));
}

#[test]
fn memory_store_expire_zero_is_immediate() {
    let mut session = Session::new("1-1", MemoryStore::new());
    session.set("a", vec![1]).unwrap();
    session.expire("a", 0).unwrap();
    assert_eq!(session.get("a").unwrap(), None);
}

#[test]
fn memory_store_expires_in_time() {
    let mut store = MemoryStore::new();
    store.advance_to(100);
    let key = SessionKey::new("1-1", "a");
    store.write(&key, vec![9]);
    assert_eq!(store.time_to_live(&key), None);
    store.limit(&key, 10);
    assert_eq!(store.time_to_live(&key), Some(10));
    store.advance_to(109);
    assert_eq!(store.read(&key), Some(vec![9]));
    assert_eq!(store.time_to_live(&key), Some(1));
    store.advance_to(110);
    assert_eq!(store.read(&key), None);
    assert_eq!(store.time_to_live(&key), None);
}

#[test]
fn memory_store_set_keeps_deadline() {
    let mut store = MemoryStore::new();
    let key = SessionKey::new("1-1", "a");
    store.write(&key, vec![1]);
    store.limit(&key, 5);
    store.write(&key, vec![2]);
    assert_eq!(store.time_to_live(&key), Some(5));
    store.advance_to(5);
    assert_eq!(store.read(&key), None);
    store.write(&key, vec![3]);
    assert_eq!(store.read(&key), Some(vec![3]));
    assert_eq!(store.time_to_live(&key), None);
}

#[test]
fn memory_store_expire_of_absent_key_does_nothing() {
    let mut store = MemoryStore::new();
    let key = SessionKey::new("1-1", "a");
    store.limit(&key, 5);
    assert_eq!(store.read(&key), None);
    store.write(&key, vec![1]);
    assert_eq!(store.time_to_live(&key), None);
}

#[test]
fn memory_store_time_never_runs_backwards() {
    let mut store = MemoryStore::new();
    assert_eq!(store.now(), 0);
    store.advance_to(50);
    store.advance_to(20);
    assert_eq!(store.now(), 50);
}

#[test]
fn sessions_of_different_namespaces_do_not_meet() {
    let mut first = Session::new("1-1", MemoryStore::new());
    first.set("a", vec![1]).unwrap();
    let mut second = Session::new("2-2", first.into_store());
    assert_eq!(second.get("a").unwrap(), None);
    second.set("a", vec![2]).unwrap();
    let mut again = Session::new("1-1", second.into_store());
    assert_eq!(again.get("a").unwrap(), Some(vec![1]));
}

#[test]
fn expire_reaches_the_store_with_key_and_seconds() {
    let mut session = Session::new("namespace", MemoryStore::new());
    session.set("key", vec![1]).unwrap();
    session.expire("key", 10).unwrap();
    let key = SessionKey::new("namespace", "key");
    assert_eq!(session.store().time_to_live(&key), Some(10));
    assert_eq!(session.get("key").unwrap(), Some(vec![1]));
    session.expire("key", 3).unwrap();
    assert_eq!(session.store().time_to_live(&key), Some(3));
    let other = SessionKey::new("namespace", "other");
    session.expire("other", 10).unwrap();
    assert_eq!(session.store().time_to_live(&other), None);
    assert_eq!(session.get("other").unwrap(), None);
}

#[test]
fn key_given_thirty_seconds_is_gone_after_a_wait_of_thirty() {
    let mut store = MemoryStore::new();
    store.advance_to(1000);
    let mut session = Session::new("1-1", store);
    session.set("last", vec![7]).unwrap();
    session.expire("last", 30).unwrap();
    let mut store = session.into_store();
    store.advance_to(1029);
    let mut session = Session::new("1-1", store);
    assert_eq!(session.get("last").unwrap(), Some(vec![7]));
    let mut store = session.into_store();
    store.advance_to(1030);
    let mut session = Session::new("1-1", store);
    assert_eq!(session.get("last").unwrap(), None);
}
