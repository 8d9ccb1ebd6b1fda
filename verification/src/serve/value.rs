//! A request body as the chat surface reads it: a JSON value whose objects
//! keep their members in wire order, and its compact JSON text.
use vstd::prelude::*;
use vstd::string::*;
use crate::json::json_quoted;
use crate::json::quote;

verus! {

/// A JSON number as serde_json reads it.
#[derive(Debug, Clone, PartialEq, Eq)]
pub enum Reading {
    /// A non-negative integer.
    Unsigned(u64),
    /// A negative integer.
    Negative(i64),
    /// A number with a fraction or an exponent, read as a double: whether
    /// that double is zero, and whether it is one.
    Fraction {
        /// The double is zero.
        zero: bool,
        /// The double is one.
        one: bool,
    },
}

/// A JSON number: how it reads, and its JSON text.
#[derive(Debug, Clone, PartialEq, Eq)]
pub struct Number {
    /// Its reading.
    pub reading: Reading,
    /// Its JSON text, as serde_json writes it.
    pub text: String,
}

/// A JSON value; an object's members keep their wire order.
#[derive(Debug, PartialEq, Eq)]
pub enum Json {
    /// `null`.
    Null,
    /// `true` or `false`.
    Bool(bool),
    /// A number.
    Number(Number),
    /// A string.
    Text(String),
    /// An array.
    Array(Vec<Json>),
    /// An object: its members in wire order.
    Object(Vec<(String, Json)>),
}

/// The compact JSON text of `value`, as serde_json writes it: no blanks,
/// members in order, strings quoted by serde_json.
pub open spec fn json_text(value: Json) -> Seq<char>
    decreases value, 1nat,
{
    match value {
        Json::Null => "null"@,
        Json::Bool(b) => if b {
            "true"@
        } else {
            "false"@
        },
        Json::Number(n) => n.text@,
        Json::Text(s) => json_quoted(s@),
        Json::Array(items) => "["@ + items_text(items@) + "]"@,
        Json::Object(members) => "{"@ + members_text(members@) + "}"@,
    }
}

/// Array elements' texts joined by commas.
pub open spec fn items_text(items: Seq<Json>) -> Seq<char>
    decreases items, 0nat,
{
    if items.len() == 0 {
        Seq::empty()
    } else if items.len() == 1 {
        json_text(items[0])
    } else {
        items_text(items.drop_last()) + ","@ + json_text(items.last())
    }
}

/// Object members written `"key":value`, joined by commas.
pub open spec fn members_text(members: Seq<(String, Json)>) -> Seq<char>
    decreases members, 0nat,
{
    if members.len() == 0 {
        Seq::empty()
    } else if members.len() == 1 {
        member_text(members[0])
    } else {
        members_text(members.drop_last()) + ","@ + member_text(members.last())
    }
}

/// One member written `"key":value`.
pub open spec fn member_text(member: (String, Json)) -> Seq<char>
    decreases member, 0nat,
{
    json_quoted(member.0@) + ":"@ + json_text(member.1)
}

/// Whether no two members share a name.
pub open spec fn distinct_names(members: Seq<(String, Json)>) -> bool {
    forall|i: int, j: int| 0 <= i < j < members.len() ==> members[i].0@ != members[j].0@
}

/// Whether every object in `value`, at any depth, names each member once,
/// as an object parsed by serde_json does.
pub open spec fn well_keyed(value: Json) -> bool
    decreases value, 1nat,
{
    match value {
        Json::Array(items) => items_keyed(items@),
        Json::Object(members) => distinct_names(members@) && members_keyed(members@),
        _ => true,
    }
}

/// Whether every element is well keyed.
pub open spec fn items_keyed(items: Seq<Json>) -> bool
    decreases items, 0nat,
{
    if items.len() == 0 {
        true
    } else {
        items_keyed(items.drop_last()) && well_keyed(items.last())
    }
}

/// Whether every member's value is well keyed.
pub open spec fn members_keyed(members: Seq<(String, Json)>) -> bool
    decreases members, 0nat,
{
    if members.len() == 0 {
        true
    } else {
        members_keyed(members.drop_last()) && member_keyed(members.last())
    }
}

/// Whether a member's value is well keyed.
pub open spec fn member_keyed(member: (String, Json)) -> bool
    decreases member, 0nat,
{
    well_keyed(member.1)
}

/// The value of the first member named `key`, if any.
pub open spec fn lookup(members: Seq<(String, Json)>, key: Seq<char>) -> Option<Json>
    decreases members.len(),
{
    if members.len() == 0 {
        None
    } else if members[0].0@ == key {
        Some(members[0].1)
    } else {
        lookup(members.drop_first(), key)
    }
}

/// A field's value, when it is present and not `null`: absent and `null`
/// read alike.
pub open spec fn field_of(members: Seq<(String, Json)>, key: Seq<char>) -> Option<Json> {
    match lookup(members, key) {
        Some(Json::Null) => None,
        found => found,
    }
}

/// Whether an optional reference is the value a spec names.
pub open spec fn names<'a>(found: Option<&'a Json>, expected: Option<Json>) -> bool {
    match found {
        Some(value) => expected == Some(*value),
        None => expected is None,
    }
}

/// The value of the first member named `key`.
pub fn member<'a>(members: &'a [(String, Json)], key: &str) -> (r: Option<&'a Json>)
    ensures
        names(r, lookup(members@, key@)),
{
    let mut i: usize = 0;
    assert(members@.skip(0) == members@);
    while i < members.len()
        invariant
            i <= members@.len(),
            lookup(members@, key@) == lookup(members@.skip(i as int), key@),
        decreases members@.len() - i,
    {
        assert(members@.skip(i as int).drop_first() == members@.skip(i + 1));
        if crate::letters::same_text(members[i].0.as_str(), key) {
            return Some(&members[i].1);
        }
        i = i + 1;
    }
    None
}

/// A field's value, when it is present and not `null`.
pub fn field<'a>(members: &'a [(String, Json)], key: &str) -> (r: Option<&'a Json>)
    ensures
        names(r, field_of(members@, key@)),
{
    match member(members, key) {
        Some(Json::Null) => None,
        found => found,
    }
}

/// The text of the first member named `key`, when it is a string.
pub open spec fn string_member(members: Seq<(String, Json)>, key: Seq<char>) -> Option<Seq<char>> {
    match lookup(members, key) {
        Some(Json::Text(s)) => Some(s@),
        _ => None,
    }
}

/// The text of the first member named `key`, when it is a string.
pub fn string_at<'a>(members: &'a [(String, Json)], key: &str) -> (r: Option<&'a str>)
    ensures
        match r {
            Some(text) => string_member(members@, key@) == Some(text@),
            None => string_member(members@, key@) is None,
        },
{
    match member(members, key) {
        Some(Json::Text(s)) => Some(s.as_str()),
        _ => None,
    }
}

/// Append the compact JSON text of `value` to `out`.
pub fn write_json(out: &mut String, value: &Json)
    ensures
        final(out)@ == old(out)@ + json_text(*value),
    decreases value,
{
    match value {
        Json::Null => out.append("null"),
        Json::Bool(b) => {
            if *b {
                out.append("true");
            } else {
                out.append("false");
            }
        },
        Json::Number(n) => out.append(n.text.as_str()),
        Json::Text(s) => {
            let literal = quote(s.as_str());
            out.append(literal.as_str());
        },
        Json::Array(items) => {
            out.append("[");
            let ghost start = out@;
            let mut i: usize = 0;
            while i < items.len()
                invariant
                    i <= items@.len(),
                    *value is Array,
                    value->Array_0 == *items,
                    out@ == start + items_text(items@.take(i as int)),
                decreases items@.len() - i,
            {
                proof {
                    assert(decreases_to!(items@ => items@[i as int]));
                    assert(decreases_to!(*items => items@));
                    assert(decreases_to!(*value => value->Array_0));
                }
                if i > 0 {
                    out.append(",");
                }
                write_json(out, &items[i]);
                proof {
                    let taken = items@.take(i + 1);
                    assert(taken.drop_last() == items@.take(i as int));
                    assert(taken.last() == items@[i as int]);
                }
                i = i + 1;
            }
            assert(items@.take(items@.len() as int) == items@);
            out.append("]");
        },
        Json::Object(members) => {
            out.append("{");
            let ghost start = out@;
            let mut i: usize = 0;
            while i < members.len()
                invariant
                    i <= members@.len(),
                    *value is Object,
                    value->Object_0 == *members,
                    out@ == start + members_text(members@.take(i as int)),
                decreases members@.len() - i,
            {
                proof {
                    assert(decreases_to!(members@[i as int] => members@[i as int].1));
                    assert(decreases_to!(members@ => members@[i as int]));
                    assert(decreases_to!(*members => members@));
                    assert(decreases_to!(*value => value->Object_0));
                }
                if i > 0 {
                    out.append(",");
                }
                let key = quote(members[i].0.as_str());
                out.append(key.as_str());
                out.append(":");
                write_json(out, &members[i].1);
                proof {
                    let taken = members@.take(i + 1);
                    assert(taken.drop_last() == members@.take(i as int));
                    assert(taken.last() == members@[i as int]);
                    if i == 0 {
                        assert(taken.len() == 1);
                        assert(members_text(taken) == member_text(taken[0]));
                    } else {
                        assert(members_text(taken) == members_text(taken.drop_last()) + ","@
                            + member_text(taken.last()));
                    }
                }
                i = i + 1;
            }
            assert(members@.take(members@.len() as int) == members@);
            out.append("}");
        },
    }
}

} // verus!
