//! JSON values as the relay reads them, and records read out of them.

use crate::text::str_eq;
use vstd::prelude::*;
use vstd::string::*;

verus! {

/// A JSON value. Numbers are told apart by what a reader of integers can
/// make of them: `Integer` is a whole number in the range of `i64`,
/// `OtherNumber` any other number.
#[derive(Debug, PartialEq, Eq)]
pub enum Json {
    Null,
    Bool(bool),
    Integer(i64),
    OtherNumber,
    Text(String),
    Array(Vec<Json>),
    Object(Vec<(String, Json)>),
}

/// The value of the member named `key` among the members of an object: the
/// first member of that name, if there is any.
pub open spec fn member(members: Seq<(String, Json)>, key: Seq<char>) -> Option<Json>
    decreases members.len(),
{
    if members.len() == 0 {
        None
    } else if members[0].0@ == key {
        Some(members[0].1)
    } else {
        member(members.drop_first(), key)
    }
}

/// Looks up the member named `key` among the members of an object.
pub fn find<'a>(members: &'a Vec<(String, Json)>, key: &str) -> (value: Option<&'a Json>)
    ensures
        match value {
            Some(v) => member(members@, key@) == Some(*v),
            None => member(members@, key@) is None,
        },
{
    let mut i: usize = 0;
    assert(members@.skip(0) =~= members@);
    while i < members.len()
        invariant
            i <= members.len(),
            member(members@, key@) == member(members@.skip(i as int), key@),
        decreases members.len() - i,
    {
        let ghost rest = members@.skip(i as int);
        assert(rest[0] == members@[i as int]);
        assert(rest.drop_first() =~= members@.skip(i + 1));
        if str_eq(members[i].0.as_str(), key) {
            return Some(&members[i].1);
        }
        i += 1;
    }
    assert(members@.skip(i as int).len() == 0);
    None
}

impl Json {
    /// One field of a record of `count` fields that is written either as an
    /// object, where the field is the member called `name`, or as an array of
    /// exactly `count` items, where it is the item at `position`. Any other
    /// value holds no fields.
    pub open spec fn field_model(self, name: Seq<char>, position: int, count: int) -> Option<Json> {
        match self {
            Json::Object(members) => member(members@, name),
            Json::Array(items) => if items@.len() == count && 0 <= position < count {
                Some(items@[position])
            } else {
                None
            },
            _ => None,
        }
    }

    /// Reads one field of a record of `count` fields: by `name` from an
    /// object, by `position` from an array of exactly `count` items.
    pub fn field(&self, name: &str, position: usize, count: usize) -> (value: Option<&Json>)
        ensures
            match value {
                Some(v) => self.field_model(name@, position as int, count as int) == Some(*v),
                None => self.field_model(name@, position as int, count as int) is None,
            },
    {
        match self {
            Json::Object(members) => find(members, name),
            Json::Array(items) => {
                if items.len() == count && position < count {
                    Some(&items[position])
                } else {
                    None
                }
            },
            _ => None,
        }
    }
}

} // verus!
