//! JSON documents as plain values.
//!
//! Reading the text of a document is left to `serde_json`; everything that
//! looks into a document after that is verified here.

use crate::text::same_text;
use serde_json::Value;
use vstd::prelude::*;

verus! {

/// A JSON number: an integer kept exactly, or the decimal text of anything else.
#[derive(Clone, Debug, PartialEq, Eq)]
pub enum Number {
    /// A non-negative integer.
    PosInt(u64),
    /// A negative integer.
    NegInt(i64),
    /// A number with a fraction or an exponent, as the decimal text that
    /// `serde_json` prints for it (for example `322.7015`).
    Float(String),
}

/// A JSON document.
#[derive(Debug, PartialEq, Eq)]
pub enum Json {
    Null,
    Bool(bool),
    Number(Number),
    String(String),
    Array(Vec<Json>),
    /// The members of an object, in the order in which they are listed.
    Object(Vec<(String, Json)>),
}

impl Number {
    /// The number zero.
    pub open spec fn zero() -> Number {
        Number::PosInt(0)
    }

    /// A copy of the number.
    pub fn duplicate(&self) -> (r: Number)
        ensures
            r == *self,
    {
        match self {
            Number::PosInt(n) => Number::PosInt(*n),
            Number::NegInt(n) => Number::NegInt(*n),
            Number::Float(text) => Number::Float(text.clone()),
        }
    }
}

/// The value of the first member called `name`, if there is one.
pub open spec fn lookup(members: Seq<(String, Json)>, name: Seq<char>) -> Option<Json>
    decreases members.len(),
{
    if members.len() == 0 {
        None
    } else if members[0].0@ == name {
        Some(members[0].1)
    } else {
        lookup(members.drop_first(), name)
    }
}

/// `lookup` skips a leading member with another name.
pub proof fn lemma_lookup_skip(members: Seq<(String, Json)>, name: Seq<char>, from: int)
    requires
        0 <= from < members.len(),
        members[from].0@ != name,
    ensures
        lookup(members.skip(from), name) == lookup(members.skip(from + 1), name),
{
    assert(members.skip(from).drop_first() =~= members.skip(from + 1));
}

/// `serde_json`'s document tree, carried from its parser to the conversion below.
#[verifier::external_type_specification]
#[verifier::external_body]
pub struct ExValue(serde_json::Value);

/// The document that `serde_json` reads from `text`; `None` where it rejects
/// the text.
pub uninterp spec fn parsed_json(text: Seq<char>) -> Option<Json>;

/// Rebuilds a `serde_json` tree as a [`Json`], node for node.
///
/// Trusted: every variant of `serde_json::Value` maps to the variant of the
/// same name. A number becomes `PosInt` where `Number::as_u64` gives one,
/// `NegInt` where only `Number::as_i64` does, and otherwise `Float` with the
/// text that `serde_json` prints. Members come in the order of
/// `Map::into_iter`.
#[verifier::external_body]
fn json_of_value(value: Value) -> Json {
    match value {
        Value::Null => Json::Null,
        Value::Bool(b) => Json::Bool(b),
        Value::Number(n) => Json::Number(match (n.as_u64(), n.as_i64()) {
            (Some(u), _) => Number::PosInt(u),
            (None, Some(i)) => Number::NegInt(i),
            (None, None) => Number::Float(n.to_string()),
        }),
        Value::String(s) => Json::String(s),
        Value::Array(items) => Json::Array(items.into_iter().map(json_of_value).collect()),
        Value::Object(members) => Json::Object(
            members.into_iter().map(|(name, member)| (name, json_of_value(member))).collect(),
        ),
    }
}

/// Reads a JSON document from `text`.
///
/// Trusted: calls `serde_json::from_str` for a `serde_json::Value`. The
/// contract only gives the outcome its name: it is the same for the same text.
#[verifier::external_body]
fn parse_json(text: &str) -> (r: Option<Json>)
    ensures
        r == parsed_json(text@),
{
    match serde_json::from_str::<Value>(text) {
        Ok(value) => Some(json_of_value(value)),
        Err(_) => None,
    }
}

impl Json {
    /// Reads a JSON document from `text`, or `None` where `text` is not one.
    pub fn parse(text: &str) -> (r: Option<Json>)
        ensures
            r == parsed_json(text@),
    {
        parse_json(text)
    }
}

/// What a search hands out, as `lookup` writes it.
pub open spec fn found(r: Option<&Json>) -> Option<Json> {
    match r {
        Some(value) => Some(*value),
        None => None,
    }
}

/// Finds the first member called `name`.
pub fn find<'a>(members: &'a Vec<(String, Json)>, name: &str) -> (r: Option<&'a Json>)
    ensures
        found(r) == lookup(members@, name@),
{
    let mut i: usize = 0;
    assert(members@.skip(0) =~= members@);
    while i < members.len()
        invariant
            i <= members.len(),
            lookup(members@, name@) == lookup(members@.skip(i as int), name@),
        decreases members.len() - i,
    {
        if same_text(members[i].0.as_str(), name) {
            assert(members@.skip(i as int)[0] == members@[i as int]);
            return Some(&members[i].1);
        }
        proof {
            lemma_lookup_skip(members@, name@, i as int);
        }
        i += 1;
    }
    assert(members@.skip(i as int).len() == 0);
    None
}

/// The names of `members`, in order.
pub open spec fn names_of(members: Seq<(String, Json)>) -> Seq<Seq<char>> {
    members.map_values(|member: (String, Json)| member.0@)
}

/// Where no two members have the same name, `lookup` finds each member by
/// its own name.
pub proof fn lemma_lookup_by_name(members: Seq<(String, Json)>, at: int)
    requires
        names_of(members).no_duplicates(),
        0 <= at < members.len(),
    ensures
        lookup(members, names_of(members)[at]) == Some(members[at].1),
    decreases members.len(),
{
    let names = names_of(members);
    if at > 0 {
        let rest = members.drop_first();
        assert(names[0] != names[at]);
        assert(names_of(rest) =~= names.drop_first());
        assert forall|i: int, j: int|
            0 <= i < names.drop_first().len() && 0 <= j < names.drop_first().len() && i
                != j implies names.drop_first()[i] != names.drop_first()[j] by {
            assert(names.drop_first()[i] == names[i + 1]);
            assert(names.drop_first()[j] == names[j + 1]);
        }
        lemma_lookup_by_name(rest, at - 1);
        assert(rest[at - 1] == members[at]);
        assert(names_of(rest)[at - 1] == names[at]);
    }
}

/// Appends the member `name` with the value `value`.
pub fn put(members: &mut Vec<(String, Json)>, name: &str, value: Json)
    ensures
        final(members)@.len() == old(members)@.len() + 1,
        final(members)@[old(members)@.len() as int].1 == value,
        forall|i: int|
            0 <= i < old(members)@.len() ==> #[trigger] final(members)@[i] == old(members)@[i],
        names_of(final(members)@) == names_of(old(members)@).push(name@),
{
    members.push((String::from_str(name), value));
    assert(names_of(final(members)@) =~= names_of(old(members)@).push(name@));
}

} // verus!
