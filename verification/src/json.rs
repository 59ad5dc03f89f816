//! A JSON document as the catalogue reads it: a tree of plain values.
//!
//! Members of an object keep the order in which the document's parser yields
//! them. Numbers carry no payload, because nothing here reads one.

use vstd::prelude::*;

verus! {

/// A JSON value.
pub enum Json {
    Null,
    Bool(bool),
    Number,
    Text(String),
    Array(Vec<Json>),
    Object(Vec<(String, Json)>),
}

/// The value of the first member named `key`, or `Null` where there is none.
pub open spec fn lookup(members: Seq<(String, Json)>, key: Seq<char>) -> Json
    decreases members.len(),
{
    if members.len() == 0 {
        Json::Null
    } else if members[0].0@ == key {
        members[0].1
    } else {
        lookup(members.subrange(1, members.len() as int), key)
    }
}

/// The value that a lookup found, or `Null` where it found none.
pub open spec fn or_null(found: Option<&Json>) -> Json {
    match found {
        Some(value) => *value,
        None => Json::Null,
    }
}

impl Json {
    /// The member named `key` of an object; `Null` for every other value and
    /// for a missing member.
    pub open spec fn member(self, key: Seq<char>) -> Json {
        match self {
            Json::Object(members) => lookup(members@, key),
            _ => Json::Null,
        }
    }

    /// The element at `index` of an array; `Null` for every other value and
    /// past the end.
    pub open spec fn element(self, index: nat) -> Json {
        match self {
            Json::Array(elements) => if index < elements@.len() {
                elements@[index as int]
            } else {
                Json::Null
            },
            _ => Json::Null,
        }
    }

    /// The characters of a string value.
    pub open spec fn text(self) -> Option<Seq<char>> {
        match self {
            Json::Text(text) => Some(text@),
            _ => None,
        }
    }

    /// The number of elements of an array value.
    pub open spec fn array_len(self) -> Option<nat> {
        match self {
            Json::Array(elements) => Some(elements@.len()),
            _ => None,
        }
    }

    /// The members of an object value, in document order.
    pub open spec fn members(self) -> Option<Seq<(String, Json)>> {
        match self {
            Json::Object(members) => Some(members@),
            _ => None,
        }
    }

    /// Looks up the member named `key`.
    pub fn get(&self, key: &str) -> (found: Option<&Json>)
        ensures
            or_null(found) == self.member(key@),
    {
        match self {
            Json::Object(members) => {
                let wanted = key.to_owned();
                let mut i: usize = 0;
                assert(members@.subrange(0, members@.len() as int) == members@);
                while i < members.len()
                    invariant
                        i <= members.len(),
                        wanted@ == key@,
                        self.member(key@) == lookup(members@, key@),
                        lookup(members@, key@) == lookup(
                            members@.subrange(i as int, members@.len() as int),
                            key@,
                        ),
                    decreases members.len() - i,
                {
                    let ghost rest = members@.subrange(i as int, members@.len() as int);
                    assert(rest.subrange(1, rest.len() as int) == members@.subrange(
                        i as int + 1,
                        members@.len() as int,
                    ));
                    if members[i].0 == wanted {
                        return Some(&members[i].1);
                    }
                    i += 1;
                }
                None
            },
            _ => None,
        }
    }

    /// Looks up the element at `index`.
    pub fn at(&self, index: usize) -> (found: Option<&Json>)
        ensures
            or_null(found) == self.element(index as nat),
    {
        match self {
            Json::Array(elements) => {
                if index < elements.len() {
                    Some(&elements[index])
                } else {
                    None
                }
            },
            _ => None,
        }
    }

    /// The string that this value holds, if it is one.
    pub fn as_str(&self) -> (text: Option<&str>)
        ensures
            match text {
                Some(text) => self.text() == Some(text@),
                None => self.text() is None,
            },
    {
        match self {
            Json::Text(text) => Some(text.as_str()),
            _ => None,
        }
    }

    /// The number of elements that this value holds, if it is an array.
    pub fn len(&self) -> (len: Option<usize>)
        ensures
            match len {
                Some(len) => self.array_len() == Some(len as nat),
                None => self.array_len() is None,
            },
    {
        match self {
            Json::Array(elements) => Some(elements.len()),
            _ => None,
        }
    }
}

/// Looks up the member named `key` of a value that an earlier lookup found.
pub fn child<'a>(node: Option<&'a Json>, key: &str) -> (found: Option<&'a Json>)
    ensures
        or_null(found) == or_null(node).member(key@),
{
    match node {
        Some(value) => value.get(key),
        None => None,
    }
}

/// Looks up the element at `index` of a value that an earlier lookup found.
pub fn item<'a>(node: Option<&'a Json>, index: usize) -> (found: Option<&'a Json>)
    ensures
        or_null(found) == or_null(node).element(index as nat),
{
    match node {
        Some(value) => value.at(index),
        None => None,
    }
}

} // verus!
