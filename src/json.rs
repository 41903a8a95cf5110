//! A JSON value as the configuration reader sees it.
use vstd::prelude::*;
use crate::text::str_eq;

verus! {

/// A JSON document. Numbers keep only what the configuration reads of them:
/// a non-negative integer that fits in 64 bits, or some other number.
#[derive(Debug)]
pub enum JsonValue {
    Null,
    Bool(bool),
    UInt(u64),
    OtherNumber,
    Str(String),
    Array(JsonList),
    Object(JsonList),
}

/// The members of an array or an object, first to last. The members of an
/// array have empty keys.
#[derive(Debug)]
pub enum JsonList {
    Nil,
    Cons(String, Box<JsonValue>, Box<JsonList>),
}

/// The members of a list, first to last.
pub open spec fn list_entries(l: JsonList) -> Seq<(String, JsonValue)>
    decreases l,
{
    match l {
        JsonList::Nil => Seq::empty(),
        JsonList::Cons(k, v, rest) => seq![(k, *v)] + list_entries(*rest),
    }
}

/// The value of the first member named `key`.
pub open spec fn list_get(l: JsonList, key: Seq<char>) -> Option<JsonValue>
    decreases l,
{
    match l {
        JsonList::Nil => None,
        JsonList::Cons(k, v, rest) => if k@ == key {
            Some(*v)
        } else {
            list_get(*rest, key)
        },
    }
}

/// The member `key` of an object; nothing for other values.
pub open spec fn json_get(v: JsonValue, key: Seq<char>) -> Option<JsonValue> {
    match v {
        JsonValue::Object(l) => list_get(l, key),
        _ => None,
    }
}

fn list_find<'a>(l: &'a JsonList, key: &str) -> (r: Option<&'a JsonValue>)
    ensures
        match r {
            Some(v) => list_get(*l, key@) == Some(*v),
            None => list_get(*l, key@) is None,
        },
    decreases l,
{
    match l {
        JsonList::Nil => None,
        JsonList::Cons(k, v, rest) => if str_eq(k.as_str(), key) {
            Some(&**v)
        } else {
            list_find(&**rest, key)
        },
    }
}

impl JsonList {
    /// The list of the given members, in their order.
    pub fn from_members(members: Vec<(String, JsonValue)>) -> (r: JsonList)
        ensures
            list_entries(r) == members@,
    {
        let mut members = members;
        let ghost all = members@;
        let mut acc = JsonList::Nil;
        while members.len() > 0
            invariant
                members@ + list_entries(acc) == all,
            decreases members@.len(),
        {
            let ghost before = members@;
            let (k, v) = members.pop().unwrap();
            acc = JsonList::Cons(k, Box::new(v), Box::new(acc));
            assert(before == members@.push((k, v)));
            assert(members@ + list_entries(acc) =~= before + list_entries(
                match acc {
                    JsonList::Cons(_, _, rest) => *rest,
                    JsonList::Nil => JsonList::Nil,
                },
            ));
        }
        assert(members@ + list_entries(acc) =~= list_entries(acc));
        acc
    }
}

impl JsonValue {
    /// The member `key` of an object: the first one of that name.
    pub fn get(&self, key: &str) -> (r: Option<&JsonValue>)
        ensures
            match r {
                Some(v) => json_get(*self, key@) == Some(*v),
                None => json_get(*self, key@) is None,
            },
    {
        match self {
            JsonValue::Object(l) => list_find(l, key),
            _ => None,
        }
    }

    /// The text of a string value.
    pub fn as_str(&self) -> (r: Option<&str>)
        ensures
            match r {
                Some(s) => *self matches JsonValue::Str(t) && t@ == s@,
                None => !(*self is Str),
            },
    {
        match self {
            JsonValue::Str(s) => Some(s.as_str()),
            _ => None,
        }
    }

    /// The value of a non-negative integer that fits in 64 bits.
    pub fn as_u64(&self) -> (r: Option<u64>)
        ensures
            match r {
                Some(n) => *self == JsonValue::UInt(n),
                None => !(*self is UInt),
            },
    {
        match self {
            JsonValue::UInt(n) => Some(*n),
            _ => None,
        }
    }

    /// The value of a boolean.
    pub fn as_bool(&self) -> (r: Option<bool>)
        ensures
            match r {
                Some(b) => *self == JsonValue::Bool(b),
                None => !(*self is Bool),
            },
    {
        match self {
            JsonValue::Bool(b) => Some(*b),
            _ => None,
        }
    }

    /// Whether the value is `null`.
    pub fn is_null(&self) -> (r: bool)
        ensures
            r == (*self is Null),
    {
        match self {
            JsonValue::Null => true,
            _ => false,
        }
    }
}

} // verus!
