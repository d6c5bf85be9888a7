use vstd::prelude::*;

verus! {

/// A JSON value. Numbers keep their literal text; arrays and objects are
/// lists in document order.
#[derive(Debug)]
pub enum Json {
    Null,
    Bool(bool),
    Number(String),
    Str(String),
    Array(Box<JsonItems>),
    Object(Box<JsonMembers>),
}

/// The elements of a JSON array.
#[derive(Debug)]
pub enum JsonItems {
    Nil,
    Cons(Json, Box<JsonItems>),
}

/// The members of a JSON object.
#[derive(Debug)]
pub enum JsonMembers {
    Nil,
    Cons(String, Json, Box<JsonMembers>),
}

impl JsonItems {
    /// The elements, in order.
    pub open spec fn spec_seq(self) -> Seq<Json>
        decreases self,
    {
        match self {
            JsonItems::Nil => Seq::empty(),
            JsonItems::Cons(v, rest) => seq![v] + rest.spec_seq(),
        }
    }
}

impl JsonMembers {
    /// The value of the first member named `key`.
    pub open spec fn spec_get(self, key: Seq<char>) -> Option<Json>
        decreases self,
    {
        match self {
            JsonMembers::Nil => None,
            JsonMembers::Cons(k, v, rest) => if k@ == key {
                Some(v)
            } else {
                rest.spec_get(key)
            },
        }
    }

    /// The members as name and value, in order.
    pub open spec fn spec_pairs(self) -> Seq<(Seq<char>, Json)>
        decreases self,
    {
        match self {
            JsonMembers::Nil => Seq::empty(),
            JsonMembers::Cons(k, v, rest) => seq![(k@, v)] + rest.spec_pairs(),
        }
    }

    /// The member names, in order.
    pub open spec fn spec_keys(self) -> Seq<Seq<char>>
        decreases self,
    {
        match self {
            JsonMembers::Nil => Seq::empty(),
            JsonMembers::Cons(k, _, rest) => seq![k@] + rest.spec_keys(),
        }
    }

    /// The value of the first member named `key`.
    pub fn get(&self, key: &String) -> (r: Option<&Json>)
        ensures
            match r {
                Some(v) => self.spec_get(key@) == Some(*v),
                None => self.spec_get(key@) is None,
            },
        decreases self,
    {
        match self {
            JsonMembers::Nil => None,
            JsonMembers::Cons(k, v, rest) => if *k == *key {
                Some(v)
            } else {
                rest.get(key)
            },
        }
    }
}

impl Json {
    /// A copy of the value.
    pub fn copy(&self) -> (r: Json)
        ensures
            r == *self,
        decreases self,
    {
        match self {
            Json::Null => Json::Null,
            Json::Bool(b) => Json::Bool(*b),
            Json::Number(t) => Json::Number(t.clone()),
            Json::Str(s) => Json::Str(s.clone()),
            Json::Array(items) => Json::Array(Box::new(items.copy())),
            Json::Object(members) => Json::Object(Box::new(members.copy())),
        }
    }
}

impl JsonItems {
    pub fn copy(&self) -> (r: JsonItems)
        ensures
            r == *self,
        decreases self,
    {
        match self {
            JsonItems::Nil => JsonItems::Nil,
            JsonItems::Cons(v, rest) => JsonItems::Cons(v.copy(), Box::new(rest.copy())),
        }
    }
}

impl JsonMembers {
    pub fn copy(&self) -> (r: JsonMembers)
        ensures
            r == *self,
        decreases self,
    {
        match self {
            JsonMembers::Nil => JsonMembers::Nil,
            JsonMembers::Cons(k, v, rest) => JsonMembers::Cons(k.clone(), v.copy(), Box::new(rest.copy())),
        }
    }
}

} // verus!
