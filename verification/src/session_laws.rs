//! What holds of every session store, and of the one in memory over time.

use crate::session::{after_del, after_expire, after_set, identities, lookup, namespace_text};
use crate::text::{decimal, is_digit, lemma_decimal_injective, lemma_nat_digits_plain};
use crate::types::primitive::Integer;
use crate::types::update::UpdateKind;
use crate::execute::ExecuteError;
use crate::longpoll::{step_spec, Action, Event, LoopModel, LoopState};
use crate::store::{
    holds, live, model_advance, model_del, model_expire, model_set, remaining, StoreModel,
};
use vstd::prelude::*;

verus! {

/// A value that was set is the value that is read.
pub proof fn lemma_set_then_get(contents: Map<Seq<char>, Seq<u8>>, key: Seq<char>, value: Seq<u8>)
    ensures
        lookup(after_set(contents, key, value), key) == Some(value),
{
}

/// Setting one key changes no other.
pub proof fn lemma_set_keeps_others(
    contents: Map<Seq<char>, Seq<u8>>,
    key: Seq<char>,
    value: Seq<u8>,
    other: Seq<char>,
)
    requires
        other != key,
    ensures
        lookup(after_set(contents, key, value), other) == lookup(contents, other),
{
}

/// A key that was deleted reads as absent.
pub proof fn lemma_del_then_get(contents: Map<Seq<char>, Seq<u8>>, key: Seq<char>)
    ensures
        lookup(after_del(contents, key), key) == None::<Seq<u8>>,
{
}

/// Deleting is idempotent, and deleting one key changes no other.
pub proof fn lemma_del_is_idempotent(
    contents: Map<Seq<char>, Seq<u8>>,
    key: Seq<char>,
    other: Seq<char>,
)
    ensures
        after_del(after_del(contents, key), key) == after_del(contents, key),
        other != key ==> lookup(after_del(contents, key), other) == lookup(contents, other),
{
    assert(after_del(after_del(contents, key), key) =~= after_del(contents, key));
}

/// A key that was given no time to live reads as absent at once.
pub proof fn lemma_expire_zero_then_get(contents: Map<Seq<char>, Seq<u8>>, key: Seq<char>)
    ensures
        lookup(after_expire(contents, key, 0), key) == None::<Seq<u8>>,
{
}

/// A key that was given some time to live is still read right afterwards,
/// and giving one key a time to live changes no other.
pub proof fn lemma_expire_later_keeps(
    contents: Map<Seq<char>, Seq<u8>>,
    key: Seq<char>,
    seconds: usize,
    other: Seq<char>,
)
    ensures
        seconds > 0 ==> after_expire(contents, key, seconds) == contents,
        other != key ==> lookup(after_expire(contents, key, seconds), other) == lookup(
            contents,
            other,
        ),
{
}

/// In memory, a key that was given a time to live reads as absent from the
/// moment that time has passed, and holds its value until then. With no
/// time to live it is absent whatever the time.
pub proof fn lemma_expired_in_time(m: StoreModel, key: Seq<char>, seconds: usize, later: u64)
    requires
        holds(m, key),
    ensures
        later >= m.now + seconds || seconds == 0 ==> lookup(
            live(model_advance(model_expire(m, key, seconds), later)),
            key,
        ) == None::<Seq<u8>>,
        seconds > 0 && later < m.now + seconds ==> lookup(
            live(model_advance(model_expire(m, key, seconds), later)),
            key,
        ) == Some(m.entries[key].value),
{
}

/// In memory, a value that was set is read at any later time, unless a
/// deadline that the key already had has passed by then.
pub proof fn lemma_set_survives(m: StoreModel, key: Seq<char>, value: Seq<u8>, later: u64)
    requires
        holds(m, key) ==> match m.entries[key].deadline {
            Some(deadline) => later < deadline,
            None => true,
        },
    ensures
        lookup(live(model_advance(model_set(m, key, value), later)), key) == Some(value),
{
}

/// In memory, setting a key does not touch a deadline that it has.
pub proof fn lemma_set_keeps_deadline(m: StoreModel, key: Seq<char>, value: Seq<u8>)
    requires
        holds(m, key),
    ensures
        model_set(m, key, value).entries[key].deadline == m.entries[key].deadline,
{
}

/// In memory, the passing of time brings nothing back and changes no value.
pub proof fn lemma_time_only_removes(m: StoreModel, later: u64, key: Seq<char>)
    ensures
        live(model_advance(m, later)).contains_key(key) ==> live(m).contains_key(key) && live(
            model_advance(m, later),
        )[key] == live(m)[key],
        model_advance(m, later).now >= m.now,
{
}

/// In memory, a key that was deleted stays absent as time passes.
pub proof fn lemma_deleted_stays_absent(m: StoreModel, key: Seq<char>, later: u64)
    ensures
        lookup(live(model_advance(model_del(m, key), later)), key) == None::<Seq<u8>>,
{
}

/// After its first character, a decimal text holds digits only.
pub proof fn lemma_decimal_shape(i: int)
    ensures
        decimal(i).len() >= 1,
        forall|k: int| 1 <= k < decimal(i).len() ==> is_digit(#[trigger] decimal(i)[k]),
{
    if i < 0 {
        lemma_nat_digits_plain((-i) as nat);
        let digits = crate::text::nat_digits((-i) as nat);
        assert forall|k: int| 1 <= k < decimal(i).len() implies is_digit(
            #[trigger] decimal(i)[k],
        ) by {
            assert(decimal(i)[k] == digits[k - 1]);
        }
    } else {
        lemma_nat_digits_plain(i as nat);
    }
}

/// Updates with the same identities have the same namespace, and only
/// they: the namespace tells the chat and the user apart from every other
/// pair.
pub proof fn lemma_namespace_identifies(a: Integer, b: Integer, c: Integer, d: Integer)
    ensures
        namespace_text(a, b) == namespace_text(c, d) <==> a == c && b == d,
{
    if namespace_text(a, b) == namespace_text(c, d) {
        let s = namespace_text(a, b);
        let la = decimal(a as int).len() as int;
        let lc = decimal(c as int).len() as int;
        lemma_decimal_shape(a as int);
        lemma_decimal_shape(c as int);
        assert(s[la] == '-');
        assert(namespace_text(c, d)[lc] == '-');
        if la < lc {
            assert(namespace_text(c, d)[la] == decimal(c as int)[la]);
            assert(is_digit(decimal(c as int)[la]));
        } else if lc < la {
            assert(s[lc] == decimal(a as int)[lc]);
            assert(is_digit(decimal(a as int)[lc]));
        }
        assert(la == lc);
        assert(decimal(a as int) =~= s.subrange(0, la));
        assert(decimal(c as int) =~= namespace_text(c, d).subrange(0, lc));
        assert(decimal(b as int) =~= s.subrange(la + 1, s.len() as int));
        assert(decimal(d as int) =~= namespace_text(c, d).subrange(
            lc + 1,
            namespace_text(c, d).len() as int,
        ));
        lemma_decimal_injective(a as int, c as int);
        lemma_decimal_injective(b as int, d as int);
    }
}

/// The namespace of an update depends on its identities alone: two
/// updates that carry the same chat and user have the same namespace,
/// whatever else they hold.
pub proof fn lemma_namespace_is_determined(first: UpdateKind, second: UpdateKind)
    requires
        identities(first) is Some,
        identities(first) == identities(second),
    ensures
        namespace_text(identities(first).unwrap().0, identities(first).unwrap().1)
            == namespace_text(identities(second).unwrap().0, identities(second).unwrap().1),
{
}

/// In memory, giving a key that is alive some seconds to live leaves it
/// with exactly those seconds, whatever it had before; a key that holds
/// nothing gets none.
pub proof fn lemma_expire_sets_time_left(m: StoreModel, key: Seq<char>, seconds: usize)
    ensures
        holds(m, key) && seconds > 0 ==> remaining(model_expire(m, key, seconds)).contains_key(key)
            && remaining(model_expire(m, key, seconds))[key] == seconds as nat,
        !holds(m, key) ==> !remaining(model_expire(m, key, seconds)).contains_key(key),
{
}

/// In memory, a key reads as absent once the seconds that it had left
/// have passed, and holds its value until then.
pub proof fn lemma_time_left_runs_out(m: StoreModel, key: Seq<char>, later: u64)
    requires
        remaining(m).contains_key(key),
    ensures
        later >= m.now + remaining(m)[key] ==> lookup(live(model_advance(m, later)), key)
            == None::<Seq<u8>>,
        later < m.now + remaining(m)[key] ==> lookup(live(model_advance(m, later)), key) == Some(
            m.entries[key].value,
        ),
{
}

/// A key whose time to live is no longer than the delay that a failed
/// fetch names is gone when the loop fetches again: the loop asks for a
/// wait of at least that delay, and by the end of that wait the key has
/// run out.
pub proof fn lemma_expired_by_retry(
    l: LoopModel,
    error: ExecuteError,
    delay: i64,
    m: StoreModel,
    key: Seq<char>,
    later: u64,
)
    requires
        l.state == LoopState::Polling,
        error matches ExecuteError::ApiError { retry_after: Some(s), .. } && s == delay,
        remaining(m).contains_key(key),
        remaining(m)[key] <= delay,
    ensures
        step_spec(l, Event::Failed(error)).0.state == LoopState::Backoff,
        step_spec(l, Event::Failed(error)).1 matches Action::Wait { seconds: waited } && waited
            >= delay && (later >= m.now + waited ==> lookup(live(model_advance(m, later)), key)
            == None::<Seq<u8>>),
{
}

} // verus!
