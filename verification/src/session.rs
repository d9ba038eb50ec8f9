//! Sessions: a key-value store scoped to one conversation.

use crate::text::{decimal, integer_text};
use crate::types::primitive::Integer;
use crate::types::update::{Update, UpdateKind};
use std::time::Duration;
use vstd::prelude::*;
use vstd::std_specs::convert::FromSpecImpl;
use vstd::string::StringExecFns;

verus! {

/// The textual identity of a key: namespace, a hyphen, name.
pub open spec fn key_text(namespace: Seq<char>, name: Seq<char>) -> Seq<char> {
    namespace + seq!['-'] + name
}

/// A key of the session store: a name within a namespace.
#[derive(Debug, Clone, PartialEq, Eq)]
pub struct SessionKey {
    namespace: String,
    name: String,
}

impl SessionKey {
    /// The key `name` within `namespace`.
    pub fn new(namespace: &str, name: &str) -> (key: SessionKey)
        ensures
            key.spec_namespace() == namespace@,
            key.spec_name() == name@,
    {
        SessionKey { namespace: String::from_str(namespace), name: String::from_str(name) }
    }

    /// The namespace, as a sequence of characters.
    pub closed spec fn spec_namespace(&self) -> Seq<char> {
        self.namespace@
    }

    /// The name, as a sequence of characters.
    pub closed spec fn spec_name(&self) -> Seq<char> {
        self.name@
    }

    /// The key's textual identity, by which a store tells keys apart.
    pub open spec fn text(&self) -> Seq<char> {
        key_text(self.spec_namespace(), self.spec_name())
    }

    /// The namespace of the key, made of the identifiers of a chat and a user.
    pub fn namespace(&self) -> (s: &str)
        ensures
            s@ == self.spec_namespace(),
    {
        self.namespace.as_str()
    }

    /// The name of the key within its namespace.
    pub fn name(&self) -> (s: &str)
        ensures
            s@ == self.spec_name(),
    {
        self.name.as_str()
    }

    /// The key's textual identity: `{namespace}-{name}`.
    pub fn to_string(&self) -> (s: String)
        ensures
            s@ == self.text(),
    {
        proof {
            reveal_strlit("-");
        }
        let mut s = self.namespace.clone();
        s.append("-");
        s.append(self.name.as_str());
        assert(s@ =~= self.text());
        s
    }
}

/// The `Duration` of a whole number of seconds.
pub uninterp spec fn duration_of_seconds(seconds: u64) -> Duration;

/// Calls `Duration::from_secs`, which makes the duration of the given
/// number of whole seconds; the result is named [`duration_of_seconds`].
#[verifier::external_body]
fn whole_seconds(seconds: u64) -> (d: Duration)
    ensures
        d == duration_of_seconds(seconds),
{
    Duration::from_secs(seconds)
}

/// How long a session lives.
#[derive(Clone, Copy, Debug, PartialEq)]
pub enum SessionLifetime {
    /// The session lives forever.
    Forever,
    /// The session expires after the given time.
    Duration(Duration),
}

impl Default for SessionLifetime {
    /// Sessions live forever unless told otherwise.
    fn default() -> (lifetime: SessionLifetime)
        ensures
            lifetime == SessionLifetime::Forever,
    {
        SessionLifetime::Forever
    }
}

impl From<Duration> for SessionLifetime {
    fn from(duration: Duration) -> (lifetime: SessionLifetime) {
        SessionLifetime::Duration(duration)
    }
}

impl FromSpecImpl<Duration> for SessionLifetime {
    open spec fn obeys_from_spec() -> bool {
        true
    }

    open spec fn from_spec(duration: Duration) -> SessionLifetime {
        SessionLifetime::Duration(duration)
    }
}

impl From<u64> for SessionLifetime {
    fn from(seconds: u64) -> (lifetime: SessionLifetime) {
        SessionLifetime::Duration(whole_seconds(seconds))
    }
}

impl FromSpecImpl<u64> for SessionLifetime {
    open spec fn obeys_from_spec() -> bool {
        true
    }

    open spec fn from_spec(seconds: u64) -> SessionLifetime {
        SessionLifetime::Duration(duration_of_seconds(seconds))
    }
}

/// What was read, as a sequence of bytes.
pub open spec fn value_view(found: Option<Vec<u8>>) -> Option<Seq<u8>> {
    match found {
        Some(v) => Some(v@),
        None => None,
    }
}

/// The value stored under `key`, if any.
pub open spec fn lookup(contents: Map<Seq<char>, Seq<u8>>, key: Seq<char>) -> Option<Seq<u8>> {
    if contents.contains_key(key) {
        Some(contents[key])
    } else {
        None
    }
}

/// The contents after `key` was set to `value`: whatever it held is
/// overwritten.
pub open spec fn after_set(contents: Map<Seq<char>, Seq<u8>>, key: Seq<char>, value: Seq<u8>) -> Map<
    Seq<char>,
    Seq<u8>,
> {
    contents.insert(key, value)
}

/// The contents after `key` was deleted.
pub open spec fn after_del(contents: Map<Seq<char>, Seq<u8>>, key: Seq<char>) -> Map<
    Seq<char>,
    Seq<u8>,
> {
    contents.remove(key)
}

/// The contents right after `key` was given `seconds` to live: with no time
/// to live it is gone at once, otherwise nothing has changed yet.
pub open spec fn after_expire(contents: Map<Seq<char>, Seq<u8>>, key: Seq<char>, seconds: usize) -> Map<
    Seq<char>,
    Seq<u8>,
> {
    if seconds == 0 {
        contents.remove(key)
    } else {
        contents
    }
}

/// A backend that holds serialized values under session keys.
///
/// The contracts speak of the values that are alive in the store at the
/// moment of the call. They bind a call that succeeds; of one that fails
/// nothing is said. Whether a call succeeds is the backend's to say: only
/// a backend that declares itself [`dependable`](SessionStore::dependable)
/// owes success.
pub trait SessionStore {
    /// The backend's own failure.
    type Error;

    /// The values alive in the store, by the textual identity of their
    /// keys. A backend says what they are; where it does not, nothing is
    /// known of them.
    open spec fn contents(&self) -> Map<Seq<char>, Seq<u8>> {
        arbitrary()
    }

    /// The seconds that each key still has to live, for the keys that are
    /// alive and have been given a time to live. A backend says what they
    /// are; where it does not, nothing is known of them.
    open spec fn time_left(&self) -> Map<Seq<char>, nat> {
        arbitrary()
    }

    /// Whether the store is sure to carry out every operation asked of it,
    /// now and from now on. A backend that can fail leaves this `false`,
    /// and nothing is then promised of its success.
    open spec fn dependable(&self) -> bool {
        false
    }

    /// Reads the value of a key. An absent key is `None`, not a failure.
    fn get(&mut self, key: SessionKey) -> (r: Result<Option<Vec<u8>>, Self::Error>)
        ensures
            old(self).dependable() ==> r is Ok && final(self).dependable(),
            r matches Ok(found) ==> {
                &&& final(self).contents() == old(self).contents()
                &&& value_view(found) == lookup(old(self).contents(), key.text())
            },
    ;

    /// Sets a key to a value, overwriting what it held.
    fn set(&mut self, key: SessionKey, value: Vec<u8>) -> (r: Result<(), Self::Error>)
        ensures
            old(self).dependable() ==> r is Ok && final(self).dependable(),
            r is Ok ==> final(self).contents() == after_set(
                old(self).contents(),
                key.text(),
                value@,
            ),
    ;

    /// Gives a key a time to live, counted from now. A key that is alive
    /// and was given some seconds has exactly those seconds left
    /// afterwards, whatever time it had before.
    fn expire(&mut self, key: SessionKey, seconds: usize) -> (r: Result<(), Self::Error>)
        ensures
            old(self).dependable() ==> r is Ok && final(self).dependable(),
            r is Ok ==> final(self).contents() == after_expire(
                old(self).contents(),
                key.text(),
                seconds,
            ),
            r is Ok && seconds > 0 && old(self).contents().contains_key(key.text()) ==> {
                &&& final(self).time_left().contains_key(key.text())
                &&& final(self).time_left()[key.text()] == seconds as nat
            },
    ;

    /// Deletes a key. Deleting an absent key is not a failure.
    fn del(&mut self, key: SessionKey) -> (r: Result<(), Self::Error>)
        ensures
            old(self).dependable() ==> r is Ok && final(self).dependable(),
            r is Ok ==> final(self).contents() == after_del(old(self).contents(), key.text()),
    ;
}

/// A store bound to one namespace. It holds nothing else, so one may be
/// made for each incoming update.
pub struct Session<S> {
    namespace: String,
    store: S,
}

impl<S: SessionStore> Session<S> {
    /// Binds `store` to `namespace`.
    pub fn new(namespace: &str, store: S) -> (session: Session<S>)
        ensures
            session.spec_namespace() == namespace@,
            session.spec_store() == store,
    {
        Session { namespace: String::from_str(namespace), store }
    }

    /// The namespace that the session is bound to.
    pub closed spec fn spec_namespace(&self) -> Seq<char> {
        self.namespace@
    }

    /// The store that the session is bound to.
    pub closed spec fn spec_store(&self) -> S {
        self.store
    }

    /// The textual identity of the key `name` in this session.
    pub open spec fn key(&self, name: Seq<char>) -> Seq<char> {
        key_text(self.spec_namespace(), name)
    }

    /// The values alive in the store.
    pub open spec fn contents(&self) -> Map<Seq<char>, Seq<u8>> {
        self.spec_store().contents()
    }

    /// The seconds that each key of the store still has to live.
    pub open spec fn time_left(&self) -> Map<Seq<char>, nat> {
        self.spec_store().time_left()
    }

    /// Whether the store behind the session is sure to carry out what is
    /// asked of it. The session adds no failure of its own.
    pub open spec fn dependable(&self) -> bool {
        self.spec_store().dependable()
    }

    /// The key `name` within the session's namespace.
    pub fn build_key(&self, name: &str) -> (key: SessionKey)
        ensures
            key.spec_namespace() == self.spec_namespace(),
            key.spec_name() == name@,
            key.text() == self.key(name@),
    {
        SessionKey::new(self.namespace.as_str(), name)
    }

    /// The store behind the session.
    pub fn store(&self) -> (store: &S)
        ensures
            *store == self.spec_store(),
    {
        &self.store
    }

    /// Gives the store back.
    pub fn into_store(self) -> (store: S)
        ensures
            store == self.spec_store(),
    {
        self.store
    }

    /// Reads the value of `name`; `None` when the key does not exist.
    ///
    /// The session fails only where its store does: with a dependable
    /// store the read succeeds.
    pub fn get(&mut self, name: &str) -> (r: Result<Option<Vec<u8>>, S::Error>)
        ensures
            final(self).spec_namespace() == old(self).spec_namespace(),
            old(self).dependable() ==> r is Ok && final(self).dependable(),
            r matches Ok(found) ==> {
                &&& final(self).contents() == old(self).contents()
                &&& value_view(found) == lookup(old(self).contents(), old(self).key(name@))
            },
    {
        let key = self.build_key(name);
        self.store.get(key)
    }

    /// Sets `name` to hold `value`. With a dependable store this succeeds.
    pub fn set(&mut self, name: &str, value: Vec<u8>) -> (r: Result<(), S::Error>)
        ensures
            final(self).spec_namespace() == old(self).spec_namespace(),
            old(self).dependable() ==> r is Ok && final(self).dependable(),
            r is Ok ==> final(self).contents() == after_set(
                old(self).contents(),
                old(self).key(name@),
                value@,
            ),
    {
        let key = self.build_key(name);
        self.store.set(key, value)
    }

    /// Gives `name` a time to live, after which the key is deleted. The
    /// seconds reach the store as they are given: a key that is alive has
    /// exactly those seconds left afterwards. With a dependable store this
    /// succeeds.
    pub fn expire(&mut self, name: &str, seconds: usize) -> (r: Result<(), S::Error>)
        ensures
            final(self).spec_namespace() == old(self).spec_namespace(),
            old(self).dependable() ==> r is Ok && final(self).dependable(),
            r is Ok ==> final(self).contents() == after_expire(
                old(self).contents(),
                old(self).key(name@),
                seconds,
            ),
            r is Ok && seconds > 0 && old(self).contents().contains_key(old(self).key(name@)) ==> {
                &&& final(self).time_left().contains_key(old(self).key(name@))
                &&& final(self).time_left()[old(self).key(name@)] == seconds as nat
            },
    {
        let key = self.build_key(name);
        self.store.expire(key, seconds)
    }

    /// Removes `name`. With a dependable store this succeeds.
    pub fn del(&mut self, name: &str) -> (r: Result<(), S::Error>)
        ensures
            final(self).spec_namespace() == old(self).spec_namespace(),
            old(self).dependable() ==> r is Ok && final(self).dependable(),
            r is Ok ==> final(self).contents() == after_del(
                old(self).contents(),
                old(self).key(name@),
            ),
    {
        let key = self.build_key(name);
        self.store.del(key)
    }
}

/// The identities that scope the sessions of an update: a chat and a user,
/// or one of them twice where the update carries only one; none where it
/// carries no identity.
pub open spec fn identities(kind: UpdateKind) -> Option<(Integer, Integer)> {
    match kind {
        UpdateKind::Message { chat, user } | UpdateKind::EditedMessage { chat, user } => Some(
            (
                chat,
                match user {
                    Some(u) => u,
                    None => chat,
                },
            ),
        ),
        UpdateKind::ChannelPost { chat } | UpdateKind::EditedChannelPost { chat } => Some(
            (chat, chat),
        ),
        UpdateKind::InlineQuery { user }
        | UpdateKind::ChosenInlineResult { user }
        | UpdateKind::ShippingQuery { user }
        | UpdateKind::PreCheckoutQuery { user } => Some((user, user)),
        UpdateKind::CallbackQuery { user, chat } => Some(
            (
                match chat {
                    Some(c) => c,
                    None => user,
                },
                user,
            ),
        ),
        UpdateKind::Poll => None,
    }
}

/// The namespace of two identities: their decimal texts with a hyphen between.
pub open spec fn namespace_text(first: Integer, second: Integer) -> Seq<char> {
    decimal(first as int) + seq!['-'] + decimal(second as int)
}

/// The identities that scope the sessions of an update.
pub fn update_identities(update: &Update) -> (r: Option<(Integer, Integer)>)
    ensures
        r == identities(update.kind),
{
    match update.kind {
        UpdateKind::Message { chat, user } | UpdateKind::EditedMessage { chat, user } => Some(
            (
                chat,
                match user {
                    Some(u) => u,
                    None => chat,
                },
            ),
        ),
        UpdateKind::ChannelPost { chat } | UpdateKind::EditedChannelPost { chat } => Some(
            (chat, chat),
        ),
        UpdateKind::InlineQuery { user }
        | UpdateKind::ChosenInlineResult { user }
        | UpdateKind::ShippingQuery { user }
        | UpdateKind::PreCheckoutQuery { user } => Some((user, user)),
        UpdateKind::CallbackQuery { user, chat } => Some(
            (
                match chat {
                    Some(c) => c,
                    None => user,
                },
                user,
            ),
        ),
        UpdateKind::Poll => None,
    }
}

/// The namespace of an update, or `None` where the update carries no
/// identity. It depends on the update's identities alone.
pub fn namespace(update: &Update) -> (r: Option<String>)
    ensures
        match identities(update.kind) {
            Some((first, second)) => r matches Some(s) && s@ == namespace_text(first, second),
            None => r is None,
        },
{
    match update_identities(update) {
        Some((first, second)) => {
            proof {
                reveal_strlit("-");
            }
            let mut s = integer_text(first);
            s.append("-");
            s.append(integer_text(second).as_str());
            assert(s@ =~= namespace_text(first, second));
            Some(s)
        },
        None => None,
    }
}

/// The namespace of an update that carries an identity.
pub fn namespace_from_update(update: &Update) -> (s: String)
    requires
        identities(update.kind) is Some,
    ensures
        s@ == namespace_text(identities(update.kind).unwrap().0, identities(update.kind).unwrap().1),
{
    match namespace(update) {
        Some(s) => s,
        None => String::new(),
    }
}

} // verus!
