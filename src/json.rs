//! A JSON document model: the shape in which the directory's resources reach
//! the library.
use vstd::prelude::*;

verus! {

/// A JSON value. Numbers keep their textual form.
#[derive(Debug)]
pub enum Json {
    Null,
    Bool(bool),
    Number(String),
    Str(String),
    Array(JsonList),
    Object(JsonMembers),
}

/// The elements of a JSON array, in order.
#[derive(Debug)]
pub enum JsonList {
    Empty,
    Item(Box<Json>, Box<JsonList>),
}

/// The members of a JSON object, in order; keys are distinct.
#[derive(Debug)]
pub enum JsonMembers {
    Empty,
    Member(String, Box<Json>, Box<JsonMembers>),
}

/// The value under `key` among `members`: the first member with that key.
pub open spec fn member_value(members: JsonMembers, key: Seq<char>) -> Option<Json>
    decreases members,
{
    match members {
        JsonMembers::Empty => None,
        JsonMembers::Member(k, v, rest) => if k@ == key {
            Some(*v)
        } else {
            member_value(*rest, key)
        },
    }
}

/// The member `key` of an object; `None` for any other value.
pub open spec fn field(j: Json, key: Seq<char>) -> Option<Json> {
    match j {
        Json::Object(members) => member_value(members, key),
        _ => None,
    }
}

/// The first element of an array; `None` for an empty array or any other value.
pub open spec fn first_item(j: Json) -> Option<Json> {
    match j {
        Json::Array(JsonList::Item(v, _)) => Some(*v),
        _ => None,
    }
}

/// The string held by `j`, if it is a string.
pub open spec fn str_value(j: Json) -> Option<Seq<char>> {
    match j {
        Json::Str(s) => Some(s@),
        _ => None,
    }
}

/// The member `key` of `j` when `j` is an object holding a string there.
pub open spec fn str_field(j: Json, key: Seq<char>) -> Option<Seq<char>> {
    match field(j, key) {
        Some(v) => str_value(v),
        None => None,
    }
}

/// The member `key` of `j` when `j` is an object holding a boolean there.
pub open spec fn bool_field(j: Json, key: Seq<char>) -> Option<bool> {
    match field(j, key) {
        Some(Json::Bool(b)) => Some(b),
        _ => None,
    }
}

/// The view of an optional string.
pub open spec fn opt_view(o: Option<String>) -> Option<Seq<char>> {
    match o {
        Some(s) => Some(s@),
        None => None,
    }
}

/// A copy of an optional string, equal to it.
pub fn copy_opt(o: &Option<String>) -> (r: Option<String>)
    ensures
        r == *o,
{
    match o {
        Some(s) => Some(s.clone()),
        None => None,
    }
}

impl JsonList {
    /// A copy of these elements, equal to them.
    pub fn deep_copy(&self) -> (r: JsonList)
        ensures
            r == *self,
        decreases self,
    {
        match self {
            JsonList::Empty => JsonList::Empty,
            JsonList::Item(v, rest) => JsonList::Item(
                Box::new((**v).deep_copy()),
                Box::new((**rest).deep_copy()),
            ),
        }
    }
}

impl JsonMembers {
    /// A copy of these members, equal to them.
    pub fn deep_copy(&self) -> (r: JsonMembers)
        ensures
            r == *self,
        decreases self,
    {
        match self {
            JsonMembers::Empty => JsonMembers::Empty,
            JsonMembers::Member(k, v, rest) => JsonMembers::Member(
                k.clone(),
                Box::new((**v).deep_copy()),
                Box::new((**rest).deep_copy()),
            ),
        }
    }

    /// The value of the first member named `key`.
    pub fn lookup(&self, key: &String) -> (r: Option<&Json>)
        ensures
            r matches Some(v) ==> member_value(*self, key@) == Some(*v),
            r is None ==> member_value(*self, key@) is None,
        decreases self,
    {
        match self {
            JsonMembers::Empty => None,
            JsonMembers::Member(k, v, rest) => {
                if *k == *key {
                    Some(&**v)
                } else {
                    (**rest).lookup(key)
                }
            },
        }
    }
}

impl Json {
    /// A copy of this value, equal to it.
    pub fn deep_copy(&self) -> (r: Json)
        ensures
            r == *self,
        decreases self,
    {
        match self {
            Json::Null => Json::Null,
            Json::Bool(b) => Json::Bool(*b),
            Json::Number(n) => Json::Number(n.clone()),
            Json::Str(s) => Json::Str(s.clone()),
            Json::Array(items) => Json::Array(items.deep_copy()),
            Json::Object(members) => Json::Object(members.deep_copy()),
        }
    }

    /// The member `key` of this value, when it is an object that has one.
    pub fn get(&self, key: &str) -> (r: Option<&Json>)
        ensures
            r matches Some(v) ==> field(*self, key@) == Some(*v),
            r is None ==> field(*self, key@) is None,
    {
        match self {
            Json::Object(members) => {
                let k = key.to_owned();
                members.lookup(&k)
            },
            _ => None,
        }
    }

    /// The first element of this value, when it is a non-empty array.
    pub fn first_item(&self) -> (r: Option<&Json>)
        ensures
            r matches Some(v) ==> first_item(*self) == Some(*v),
            r is None ==> first_item(*self) is None,
    {
        match self {
            Json::Array(JsonList::Item(v, _)) => Some(&**v),
            _ => None,
        }
    }

    /// The string held by this value, if it is a string.
    pub fn as_str(&self) -> (r: Option<String>)
        ensures
            opt_view(r) == str_value(*self),
    {
        match self {
            Json::Str(s) => Some(s.clone()),
            _ => None,
        }
    }

    /// The string member `key`, if this value is an object holding one.
    pub fn str_field(&self, key: &str) -> (r: Option<String>)
        ensures
            opt_view(r) == str_field(*self, key@),
    {
        match self.get(key) {
            Some(v) => v.as_str(),
            None => None,
        }
    }

    /// The boolean member `key`, if this value is an object holding one.
    pub fn bool_field(&self, key: &str) -> (r: Option<bool>)
        ensures
            r == bool_field(*self, key@),
    {
        match self.get(key) {
            Some(Json::Bool(b)) => Some(*b),
            _ => None,
        }
    }
}

} // verus!
