//! A session store that lives in memory.
//!
//! The store does not read a clock. Its owner tells it the time, in
//! seconds, and the store never lets that time run backwards.

use crate::session::{after_del, after_expire, after_set, lookup, value_view, SessionKey, SessionStore};
use std::convert::Infallible;
use vstd::prelude::*;

verus! {

/// One stored value and the time at which it ceases to live, if any.
pub struct EntryModel {
    pub value: Seq<u8>,
    pub deadline: Option<int>,
}

/// The store as a mathematical value: what is stored under each key's
/// text, and the time.
pub struct StoreModel {
    pub entries: Map<Seq<char>, EntryModel>,
    pub now: int,
}

/// Whether an entry is alive at a time: it has no deadline, or the time is
/// before it.
pub open spec fn alive(entry: EntryModel, now: int) -> bool {
    match entry.deadline {
        None => true,
        Some(deadline) => now < deadline,
    }
}

/// Whether a key holds a value that is alive.
pub open spec fn holds(m: StoreModel, key: Seq<char>) -> bool {
    m.entries.contains_key(key) && alive(m.entries[key], m.now)
}

/// The values that are alive.
pub open spec fn live(m: StoreModel) -> Map<Seq<char>, Seq<u8>> {
    Map::new(|key: Seq<char>| holds(m, key), |key: Seq<char>| m.entries[key].value)
}

/// The seconds that each key still has to live, for the keys that are
/// alive and have a deadline.
pub open spec fn remaining(m: StoreModel) -> Map<Seq<char>, nat> {
    Map::new(
        |key: Seq<char>| holds(m, key) && m.entries[key].deadline is Some,
        |key: Seq<char>| (m.entries[key].deadline->Some_0 - m.now) as nat,
    )
}

/// Setting a key: the value is overwritten. A deadline that the key has is
/// kept; a key that was absent or no longer alive starts without one.
pub open spec fn model_set(m: StoreModel, key: Seq<char>, value: Seq<u8>) -> StoreModel {
    let deadline = if holds(m, key) {
        m.entries[key].deadline
    } else {
        None
    };
    StoreModel { entries: m.entries.insert(key, EntryModel { value, deadline }), ..m }
}

/// Giving a key a time to live: its deadline becomes that many seconds from
/// now, replacing an earlier one. A key that holds nothing is left alone.
pub open spec fn model_expire(m: StoreModel, key: Seq<char>, seconds: usize) -> StoreModel {
    if holds(m, key) {
        StoreModel {
            entries: m.entries.insert(
                key,
                EntryModel { value: m.entries[key].value, deadline: Some(m.now + seconds) },
            ),
            ..m
        }
    } else {
        m
    }
}

/// Deleting a key.
pub open spec fn model_del(m: StoreModel, key: Seq<char>) -> StoreModel {
    StoreModel { entries: m.entries.remove(key), ..m }
}

/// Telling the store the time: it moves forward to `now`, never back.
pub open spec fn model_advance(m: StoreModel, now: u64) -> StoreModel {
    StoreModel {
        now: if now > m.now {
            now as int
        } else {
            m.now
        },
        ..m
    }
}

struct Entry {
    key: String,
    value: Vec<u8>,
    deadline: Option<u128>,
}

spec fn entry_model(entry: Entry) -> EntryModel {
    EntryModel {
        value: entry.value@,
        deadline: match entry.deadline {
            Some(d) => Some(d as int),
            None => None,
        },
    }
}

/// The first index at or after `from` that holds `key`, or the length.
spec fn position(entries: Seq<Entry>, key: Seq<char>, from: int) -> int
    decreases entries.len() - from,
{
    if from < 0 || from >= entries.len() {
        entries.len() as int
    } else if entries[from].key@ == key {
        from
    } else {
        position(entries, key, from + 1)
    }
}

spec fn distinct(entries: Seq<Entry>) -> bool {
    forall|i: int, j: int| 0 <= i < j < entries.len() ==> entries[i].key@ != entries[j].key@
}

spec fn entries_map(entries: Seq<Entry>) -> Map<Seq<char>, EntryModel> {
    Map::new(
        |key: Seq<char>| position(entries, key, 0) < entries.len(),
        |key: Seq<char>| entry_model(entries[position(entries, key, 0)]),
    )
}

proof fn lemma_position(entries: Seq<Entry>, key: Seq<char>, from: int)
    requires
        0 <= from,
    ensures
        from <= position(entries, key, from) || position(entries, key, from) == entries.len(),
        position(entries, key, from) <= entries.len(),
        position(entries, key, from) < entries.len() ==> entries[position(entries, key, from)].key@
            == key,
        forall|i: int| from <= i < position(entries, key, from) ==> entries[i].key@ != key,
    decreases entries.len() - from,
{
    if from < entries.len() && entries[from].key@ != key {
        lemma_position(entries, key, from + 1);
    }
}

/// Where the keys are distinct, a key is found exactly where it stands.
proof fn lemma_position_at(entries: Seq<Entry>, key: Seq<char>, i: int)
    requires
        distinct(entries),
        0 <= i < entries.len(),
        entries[i].key@ == key,
    ensures
        position(entries, key, 0) == i,
{
    lemma_position(entries, key, 0);
}

/// A key that stands nowhere is not found.
proof fn lemma_position_absent(entries: Seq<Entry>, key: Seq<char>)
    requires
        forall|i: int| 0 <= i < entries.len() ==> entries[i].key@ != key,
    ensures
        position(entries, key, 0) == entries.len(),
{
    lemma_position(entries, key, 0);
}

/// The store: its entries, no two under one key, and the time.
pub struct MemoryStore {
    entries: Vec<Entry>,
    now: u64,
}

impl View for MemoryStore {
    type V = StoreModel;

    closed spec fn view(&self) -> StoreModel {
        StoreModel { entries: entries_map(self.entries@), now: self.now as int }
    }
}

impl MemoryStore {
    #[verifier::type_invariant]
    spec fn inv(self) -> bool {
        distinct(self.entries@)
    }

    /// An empty store at time zero.
    pub fn new() -> (store: MemoryStore)
        ensures
            store@ == (StoreModel { entries: Map::empty(), now: 0 }),
    {
        let store = MemoryStore { entries: Vec::new(), now: 0 };
        assert(store@.entries =~= Map::empty());
        store
    }

    /// The time that the store was last told.
    pub fn now(&self) -> (now: u64)
        ensures
            now == self@.now,
    {
        self.now
    }

    /// Tells the store the time. A time before the one it knows is ignored.
    pub fn advance_to(&mut self, now: u64)
        ensures
            final(self)@ == model_advance(old(self)@, now),
    {
        proof {
            use_type_invariant(&*self);
        }
        if now > self.now {
            self.now = now;
        }
    }

    /// Takes the entries out, leaving none behind for the moment.
    fn take(&mut self) -> (entries: Vec<Entry>)
        ensures
            entries == old(self).entries,
            final(self).now == old(self).now,
    {
        let mut entries: Vec<Entry> = Vec::new();
        std::mem::swap(&mut entries, &mut self.entries);
        entries
    }

    fn find(&self, key: &String) -> (i: usize)
        ensures
            i == position(self.entries@, key@, 0),
            i <= self.entries.len(),
            i < self.entries.len() ==> self.entries[i as int].key@ == key@,
            i < self.entries.len() <==> self@.entries.contains_key(key@),
            i < self.entries.len() ==> self@.entries[key@] == entry_model(self.entries[i as int]),
    {
        let mut i: usize = 0;
        while i < self.entries.len() && !(self.entries[i].key == *key)
            invariant
                position(self.entries@, key@, i as int) == position(self.entries@, key@, 0),
            decreases self.entries.len() - i,
        {
            i += 1;
        }
        proof {
            lemma_position(self.entries@, key@, 0);
        }
        if i >= self.entries.len() {
            self.entries.len()
        } else {
            i
        }
    }

    fn is_alive(&self, i: usize) -> (b: bool)
        requires
            i < self.entries.len(),
        ensures
            b == alive(entry_model(self.entries[i as int]), self.now as int),
    {
        match self.entries[i].deadline {
            None => true,
            Some(deadline) => (self.now as u128) < deadline,
        }
    }

    /// The seconds that a key still has to live: `None` where it holds
    /// nothing or has no deadline.
    pub fn time_to_live(&self, key: &SessionKey) -> (r: Option<u128>)
        ensures
            match r {
                Some(left) => remaining(self@).contains_key(key.text()) && remaining(
                    self@,
                )[key.text()] == left,
                None => !remaining(self@).contains_key(key.text()),
            },
    {
        let text = key.to_string();
        let i = self.find(&text);
        if i < self.entries.len() && self.is_alive(i) {
            match self.entries[i].deadline {
                Some(deadline) => Some(deadline - self.now as u128),
                None => None,
            }
        } else {
            None
        }
    }

    /// Reads the value of a key that is alive.
    pub fn read(&self, key: &SessionKey) -> (r: Option<Vec<u8>>)
        ensures
            value_view(r) == lookup(live(self@), key.text()),
    {
        let text = key.to_string();
        let i = self.find(&text);
        if i < self.entries.len() && self.is_alive(i) {
            Some(self.entries[i].value.clone())
        } else {
            None
        }
    }

    /// Sets a key to a value.
    pub fn write(&mut self, key: &SessionKey, value: Vec<u8>)
        ensures
            final(self)@ == model_set(old(self)@, key.text(), value@),
    {
        proof {
            use_type_invariant(&*self);
        }
        let text = key.to_string();
        let i = self.find(&text);
        let ghost before = self.entries@;
        if i < self.entries.len() {
            let deadline = if self.is_alive(i) {
                self.entries[i].deadline
            } else {
                None
            };
            let entry = Entry { key: text, value, deadline };
            proof {
                lemma_update_same_key(before, i as int, entry);
            }
            let mut entries = self.take();
            entries.set(i, entry);
            self.entries = entries;
            assert(self@.entries =~= model_set(old(self)@, key.text(), value@).entries);
        } else {
            let entry = Entry { key: text, value, deadline: None };
            proof {
                lemma_push_new_key(before, entry);
            }
            let mut entries = self.take();
            entries.push(entry);
            self.entries = entries;
            assert(self@.entries =~= model_set(old(self)@, key.text(), value@).entries);
        }
    }

    /// Gives a key a time to live, counted from the store's time.
    pub fn limit(&mut self, key: &SessionKey, seconds: usize)
        ensures
            final(self)@ == model_expire(old(self)@, key.text(), seconds),
    {
        proof {
            use_type_invariant(&*self);
        }
        let text = key.to_string();
        let i = self.find(&text);
        let ghost before = self.entries@;
        if i < self.entries.len() && self.is_alive(i) {
            let deadline = self.now as u128 + seconds as u128;
            let value = self.entries[i].value.clone();
            let entry = Entry { key: text, value, deadline: Some(deadline) };
            proof {
                lemma_update_same_key(before, i as int, entry);
            }
            let mut entries = self.take();
            entries.set(i, entry);
            self.entries = entries;
            assert(self@.entries =~= model_expire(old(self)@, key.text(), seconds).entries);
        }
    }

    /// Deletes a key.
    pub fn remove(&mut self, key: &SessionKey)
        ensures
            final(self)@ == model_del(old(self)@, key.text()),
    {
        proof {
            use_type_invariant(&*self);
        }
        let text = key.to_string();
        let i = self.find(&text);
        let ghost before = self.entries@;
        if i < self.entries.len() {
            proof {
                lemma_remove_key(before, i as int);
            }
            let mut entries = self.take();
            entries.remove(i);
            self.entries = entries;
            assert(self@.entries =~= model_del(old(self)@, key.text()).entries);
        } else {
            assert(self@.entries =~= model_del(old(self)@, key.text()).entries);
        }
    }
}

/// Replacing an entry by one under the same key keeps the keys distinct
/// and changes the map at that key alone.
proof fn lemma_update_same_key(entries: Seq<Entry>, i: int, entry: Entry)
    requires
        distinct(entries),
        0 <= i < entries.len(),
        entries[i].key@ == entry.key@,
    ensures
        distinct(entries.update(i, entry)),
        entries_map(entries.update(i, entry)) == entries_map(entries).insert(
            entry.key@,
            entry_model(entry),
        ),
{
    let after = entries.update(i, entry);
    let lhs = entries_map(after);
    let rhs = entries_map(entries).insert(entry.key@, entry_model(entry));
    assert forall|key: Seq<char>|
        #![trigger lhs.dom().contains(key)]
        #![trigger rhs.dom().contains(key)]
        lhs.dom().contains(key) == rhs.dom().contains(key) && (lhs.dom().contains(key) ==> lhs[key]
            == rhs[key]) by {
        lemma_position(entries, key, 0);
        let p = position(entries, key, 0);
        if p < entries.len() {
            lemma_position_at(after, key, p);
        } else {
            lemma_position_absent(after, key);
        }
        lemma_position_at(entries, entry.key@, i);
    }
    assert(lhs =~= rhs);
}

/// Adding an entry under a key that is not there keeps the keys distinct
/// and adds that key to the map.
proof fn lemma_push_new_key(entries: Seq<Entry>, entry: Entry)
    requires
        distinct(entries),
        position(entries, entry.key@, 0) == entries.len(),
    ensures
        distinct(entries.push(entry)),
        entries_map(entries.push(entry)) == entries_map(entries).insert(
            entry.key@,
            entry_model(entry),
        ),
{
    let after = entries.push(entry);
    lemma_position(entries, entry.key@, 0);
    assert(distinct(after));
    let lhs = entries_map(after);
    let rhs = entries_map(entries).insert(entry.key@, entry_model(entry));
    assert forall|key: Seq<char>|
        #![trigger lhs.dom().contains(key)]
        #![trigger rhs.dom().contains(key)]
        lhs.dom().contains(key) == rhs.dom().contains(key) && (lhs.dom().contains(key) ==> lhs[key]
            == rhs[key]) by {
        lemma_position(entries, key, 0);
        let p = position(entries, key, 0);
        if key == entry.key@ {
            lemma_position_at(after, key, entries.len() as int);
        } else if p < entries.len() {
            lemma_position_at(after, key, p);
        } else {
            lemma_position_absent(after, key);
        }
    }
    assert(lhs =~= rhs);
}

/// Taking an entry out keeps the keys distinct and removes its key from
/// the map.
proof fn lemma_remove_key(entries: Seq<Entry>, i: int)
    requires
        distinct(entries),
        0 <= i < entries.len(),
    ensures
        distinct(entries.remove(i)),
        entries_map(entries.remove(i)) == entries_map(entries).remove(entries[i].key@),
{
    let after = entries.remove(i);
    let gone = entries[i].key@;
    assert forall|a: int, b: int| 0 <= a < b < after.len() implies after[a].key@ != after[b].key@ by {
        let a0 = if a < i {
            a
        } else {
            a + 1
        };
        let b0 = if b < i {
            b
        } else {
            b + 1
        };
        assert(after[a] == entries[a0]);
        assert(after[b] == entries[b0]);
    }
    assert forall|j: int| 0 <= j < after.len() implies after[j].key@ != gone by {
        let j0 = if j < i {
            j
        } else {
            j + 1
        };
        assert(after[j] == entries[j0]);
    }
    lemma_position_absent(after, gone);
    let lhs = entries_map(after);
    let rhs = entries_map(entries).remove(gone);
    assert forall|key: Seq<char>|
        #![trigger lhs.dom().contains(key)]
        #![trigger rhs.dom().contains(key)]
        lhs.dom().contains(key) == rhs.dom().contains(key) && (lhs.dom().contains(key) ==> lhs[key]
            == rhs[key]) by {
        lemma_position(entries, key, 0);
        let p = position(entries, key, 0);
        if key == gone {
        } else if p < entries.len() {
            let q = if p < i {
                p
            } else {
                p - 1
            };
            assert(after[q] == entries[p]);
            lemma_position_at(after, key, q);
        } else {
            assert forall|j: int| 0 <= j < after.len() implies after[j].key@ != key by {
                let j0 = if j < i {
                    j
                } else {
                    j + 1
                };
                assert(after[j] == entries[j0]);
            }
            lemma_position_absent(after, key);
        }
    }
    assert(lhs =~= rhs);
}

/// What is alive after a key was set.
pub proof fn lemma_live_after_set(m: StoreModel, key: Seq<char>, value: Seq<u8>)
    ensures
        live(model_set(m, key, value)) == after_set(live(m), key, value),
{
    assert(live(model_set(m, key, value)) =~= after_set(live(m), key, value));
}

/// What is alive right after a key was given a time to live.
pub proof fn lemma_live_after_expire(m: StoreModel, key: Seq<char>, seconds: usize)
    ensures
        live(model_expire(m, key, seconds)) == after_expire(live(m), key, seconds),
{
    assert(live(model_expire(m, key, seconds)) =~= after_expire(live(m), key, seconds));
}

/// What is alive after a key was deleted.
pub proof fn lemma_live_after_del(m: StoreModel, key: Seq<char>)
    ensures
        live(model_del(m, key)) == after_del(live(m), key),
{
    assert(live(model_del(m, key)) =~= after_del(live(m), key));
}

impl SessionStore for MemoryStore {
    type Error = Infallible;

    open spec fn contents(&self) -> Map<Seq<char>, Seq<u8>> {
        live(self@)
    }

    open spec fn time_left(&self) -> Map<Seq<char>, nat> {
        remaining(self@)
    }

    /// The store in memory cannot fail.
    open spec fn dependable(&self) -> bool {
        true
    }

    /// Never fails.
    fn get(&mut self, key: SessionKey) -> (r: Result<Option<Vec<u8>>, Infallible>)
        ensures
            r is Ok,
            final(self)@ == old(self)@,
    {
        Ok(self.read(&key))
    }

    /// Never fails.
    fn set(&mut self, key: SessionKey, value: Vec<u8>) -> (r: Result<(), Infallible>)
        ensures
            r is Ok,
            final(self)@ == model_set(old(self)@, key.text(), value@),
    {
        proof {
            lemma_live_after_set(self@, key.text(), value@);
        }
        self.write(&key, value);
        Ok(())
    }

    /// Never fails. A key that holds nothing is left alone.
    fn expire(&mut self, key: SessionKey, seconds: usize) -> (r: Result<(), Infallible>)
        ensures
            r is Ok,
            final(self)@ == model_expire(old(self)@, key.text(), seconds),
    {
        proof {
            lemma_live_after_expire(self@, key.text(), seconds);
        }
        self.limit(&key, seconds);
        Ok(())
    }

    /// Never fails.
    fn del(&mut self, key: SessionKey) -> (r: Result<(), Infallible>)
        ensures
            r is Ok,
            final(self)@ == model_del(old(self)@, key.text()),
    {
        proof {
            lemma_live_after_del(self@, key.text());
        }
        self.remove(&key);
        Ok(())
    }
}

} // verus!
