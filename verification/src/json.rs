//! Writing JSON objects as text.
//!
//! An object is written member by member. A member that is absent is not
//! written at all; it never appears as `null`.

use crate::text::{decimal, integer_text};
use vstd::prelude::*;
use vstd::string::StringExecFns;

verus! {

/// The failure of an outside JSON serializer.
#[verifier::external_type_specification]
#[verifier::external_body]
pub struct ExJsonError(serde_json::Error);

/// A value that could not be encoded.
#[derive(Debug, Clone, PartialEq, Eq)]
pub struct EncodingError {
    /// What the serializer reported.
    pub message: String,
}

/// The JSON string literal for a text: the text between double quotes, with
/// the characters escaped that JSON does not take as they are.
pub uninterp spec fn json_string(s: Seq<char>) -> Seq<char>;

/// Calls `serde_json::to_string` on a string slice. The call succeeds, and
/// its result is the JSON string literal for the text, named
/// [`json_string`]; it depends on the text alone.
///
/// That it succeeds is taken from `serde_json`: the failures that it
/// documents are a `Serialize` impl that decides to fail and a map whose
/// keys are no strings, and a string slice is neither. In its source the
/// slice is escaped into a `Vec<u8>`, and every step that could fail is a
/// write to that vector.
#[verifier::external_body]
fn quote(s: &str) -> (r: Result<String, serde_json::Error>)
    ensures
        r is Ok,
        r matches Ok(t) ==> t@ == json_string(s@),
{
    serde_json::to_string(s)
}

/// Renders a `serde_json::Error` through its `Display` impl. Nothing is
/// claimed of the text.
#[verifier::external_body]
fn describe(error: &serde_json::Error) -> (message: String) {
    error.to_string()
}

/// The text of a boolean.
pub open spec fn bool_text(b: bool) -> Seq<char> {
    if b {
        seq!['t', 'r', 'u', 'e']
    } else {
        seq!['f', 'a', 'l', 's', 'e']
    }
}

/// One member of an object: the name as a JSON string literal, a colon
/// and the value's text. The name is quoted like any other text, so every
/// name is written correctly, whatever characters it holds.
pub open spec fn member(name: Seq<char>, value: Seq<char>) -> Seq<char> {
    json_string(name) + seq![':'] + value
}

/// The member for an optional boolean: none when it is unset, and the
/// explicit `true` or `false` when it is set.
pub open spec fn optional_bool(name: Seq<char>, value: Option<bool>) -> Seq<Seq<char>> {
    match value {
        Some(b) => seq![member(name, bool_text(b))],
        None => Seq::empty(),
    }
}

/// The member for an optional integer: none when it is unset.
pub open spec fn optional_integer(name: Seq<char>, value: Option<i64>) -> Seq<Seq<char>> {
    match value {
        Some(i) => seq![member(name, decimal(i as int))],
        None => Seq::empty(),
    }
}

/// The members joined by commas.
pub open spec fn join(members: Seq<Seq<char>>) -> Seq<char>
    decreases members.len(),
{
    if members.len() == 0 {
        Seq::empty()
    } else if members.len() == 1 {
        members[0]
    } else {
        join(members.drop_last()) + seq![','] + members.last()
    }
}

/// The text of an object with these members, in this order.
pub open spec fn object(members: Seq<Seq<char>>) -> Seq<char> {
    seq!['{'] + join(members) + seq!['}']
}

/// Quotes a text as a JSON string literal. Every text can be quoted: the
/// result is `Ok` and holds the literal.
pub fn string_text(s: &str) -> (r: Result<String, EncodingError>)
    ensures
        r matches Ok(t) && t@ == json_string(s@),
{
    quoted(quote(s))
}

/// Turns the serializer's answer into the library's own result.
pub fn quoted(answer: Result<String, serde_json::Error>) -> (r: Result<String, EncodingError>)
    ensures
        answer matches Ok(t) ==> r == Ok::<String, EncodingError>(t),
        answer is Err ==> r is Err,
{
    match answer {
        Ok(t) => Ok(t),
        Err(e) => Err(EncodingError { message: describe(&e) }),
    }
}

/// An object under construction: the members written so far.
pub struct ObjectWriter {
    text: String,
    members: Ghost<Seq<Seq<char>>>,
    empty: bool,
}

impl View for ObjectWriter {
    type V = Seq<Seq<char>>;

    closed spec fn view(&self) -> Seq<Seq<char>> {
        self.members@
    }
}

impl ObjectWriter {
    /// Whether the text written so far is that of the members.
    pub closed spec fn wf(&self) -> bool {
        &&& self.text@ == seq!['{'] + join(self.members@)
        &&& self.empty == (self.members@.len() == 0)
    }

    /// A writer with no member yet.
    pub fn new() -> (w: ObjectWriter)
        ensures
            w.wf(),
            w@ == Seq::<Seq<char>>::empty(),
    {
        proof {
            reveal_strlit("{");
        }
        let text = String::from_str("{");
        assert(text@ =~= seq!['{'] + join(Seq::<Seq<char>>::empty()));
        ObjectWriter { text, members: Ghost(Seq::empty()), empty: true }
    }

    /// Writes a member whose value is already JSON text. The name is
    /// quoted; the value is written as it is.
    pub fn raw(&mut self, name: &str, value: &str)
        requires
            old(self).wf(),
        ensures
            final(self).wf(),
            final(self)@ == old(self)@.push(member(name@, value@)),
    {
        proof {
            reveal_strlit(",");
            reveal_strlit(":");
        }
        let ghost members = self.members@;
        let quoted_name = string_text(name).unwrap();
        if !self.empty {
            self.text.append(",");
        }
        self.text.append(quoted_name.as_str());
        self.text.append(":");
        self.text.append(value);
        proof {
            let item = member(name@, value@);
            let grown = members.push(item);
            assert(grown.drop_last() =~= members);
            assert(grown.last() == item);
            if members.len() == 0 {
                assert(join(grown) == item);
                assert(self.text@ =~= seq!['{'] + join(grown));
            } else {
                assert(join(grown) == join(members) + seq![','] + item);
                assert(self.text@ =~= seq!['{'] + join(grown));
            }
            self.members@ = grown;
        }
        self.empty = false;
    }

    /// Writes a boolean member.
    pub fn boolean(&mut self, name: &str, value: bool)
        requires
            old(self).wf(),
        ensures
            final(self).wf(),
            final(self)@ == old(self)@.push(member(name@, bool_text(value))),
    {
        proof {
            reveal_strlit("true");
            reveal_strlit("false");
        }
        let text = if value {
            "true"
        } else {
            "false"
        };
        assert(text@ =~= bool_text(value));
        self.raw(name, text);
    }

    /// Writes an integer member.
    pub fn integer(&mut self, name: &str, value: i64)
        requires
            old(self).wf(),
        ensures
            final(self).wf(),
            final(self)@ == old(self)@.push(member(name@, decimal(value as int))),
    {
        let text = integer_text(value);
        self.raw(name, text.as_str());
    }

    /// Writes a boolean member when the value is set, and nothing otherwise.
    pub fn optional_boolean(&mut self, name: &str, value: Option<bool>)
        requires
            old(self).wf(),
        ensures
            final(self).wf(),
            final(self)@ == old(self)@ + optional_bool(name@, value),
    {
        match value {
            Some(b) => {
                self.boolean(name, b);
                assert(self@ =~= old(self)@ + optional_bool(name@, value));
            },
            None => {
                assert(self@ =~= old(self)@ + optional_bool(name@, value));
            },
        }
    }

    /// Writes an integer member when the value is set, and nothing otherwise.
    pub fn optional_number(&mut self, name: &str, value: Option<i64>)
        requires
            old(self).wf(),
        ensures
            final(self).wf(),
            final(self)@ == old(self)@ + optional_integer(name@, value),
    {
        match value {
            Some(i) => {
                self.integer(name, i);
                assert(self@ =~= old(self)@ + optional_integer(name@, value));
            },
            None => {
                assert(self@ =~= old(self)@ + optional_integer(name@, value));
            },
        }
    }

    /// Closes the object and hands out its text.
    pub fn finish(self) -> (text: String)
        requires
            self.wf(),
        ensures
            text@ == object(self@),
    {
        proof {
            reveal_strlit("}");
        }
        let text = self.text.concat("}");
        assert(text@ =~= object(self@));
        text
    }
}

} // verus!
