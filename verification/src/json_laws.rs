//! What holds of every object that is written: a member that is absent
//! is not the same as a member that is `false`.

use crate::json::{bool_text, join, member, object, optional_bool, optional_integer};
use vstd::prelude::*;

verus! {

/// The lengths of the members, added up.
pub open spec fn total_len(members: Seq<Seq<char>>) -> nat
    decreases members.len(),
{
    if members.len() == 0 {
        0
    } else {
        total_len(members.drop_last()) + members.last().len()
    }
}

/// The number of commas between the members.
pub open spec fn commas(members: Seq<Seq<char>>) -> nat {
    if members.len() == 0 {
        0
    } else {
        (members.len() - 1) as nat
    }
}

/// The joined text is as long as its members and the commas between them.
pub proof fn lemma_join_len(members: Seq<Seq<char>>)
    ensures
        join(members).len() == total_len(members) + commas(members),
    decreases members.len(),
{
    if members.len() == 1 {
        assert(members.drop_last().len() == 0);
        assert(total_len(members.drop_last()) == 0);
    } else if members.len() > 1 {
        lemma_join_len(members.drop_last());
    }
}

/// The lengths of two runs of members add up.
pub proof fn lemma_total_len_concat(a: Seq<Seq<char>>, b: Seq<Seq<char>>)
    ensures
        total_len(a + b) == total_len(a) + total_len(b),
    decreases b.len(),
{
    if b.len() == 0 {
        assert(a + b =~= a);
    } else {
        assert((a + b).drop_last() =~= a + b.drop_last());
        assert((a + b).last() == b.last());
        lemma_total_len_concat(a, b.drop_last());
    }
}

/// An unset value writes no member; a set one writes exactly one, which
/// holds the value itself, `false` as much as `true`.
pub proof fn lemma_optional_members(name: Seq<char>, flag: bool, number: i64)
    ensures
        optional_bool(name, None).len() == 0,
        optional_integer(name, None).len() == 0,
        optional_bool(name, Some(flag)) == seq![member(name, bool_text(flag))],
        optional_integer(name, Some(number)).len() == 1,
        bool_text(true) != bool_text(false),
{
    assert(bool_text(true).len() != bool_text(false).len());
}

/// An object in which a flag is unset is never the object in which that
/// flag is set, whatever the flag's value and the other members.
pub proof fn lemma_absent_differs(
    before: Seq<Seq<char>>,
    after: Seq<Seq<char>>,
    name: Seq<char>,
    flag: bool,
)
    ensures
        object(before + optional_bool(name, None) + after) != object(
            before + optional_bool(name, Some(flag)) + after,
        ),
{
    let without = before + optional_bool(name, None) + after;
    let with = before + optional_bool(name, Some(flag)) + after;
    let item = member(name, bool_text(flag));
    lemma_total_len_concat(before, optional_bool(name, None));
    lemma_total_len_concat(before + optional_bool(name, None), after);
    lemma_total_len_concat(before, optional_bool(name, Some(flag)));
    lemma_total_len_concat(before + optional_bool(name, Some(flag)), after);
    assert(total_len(optional_bool(name, None)) == 0);
    assert(optional_bool(name, Some(flag)).drop_last().len() == 0);
    assert(total_len(optional_bool(name, Some(flag)).drop_last()) == 0);
    assert(total_len(optional_bool(name, Some(flag))) == item.len());
    assert(item.len() >= 1);
    lemma_join_len(without);
    lemma_join_len(with);
    assert(with.len() == without.len() + 1);
    assert(join(with).len() > join(without).len());
    assert(object(with).len() == join(with).len() + 2);
    assert(object(without).len() == join(without).len() + 2);
}

} // verus!
