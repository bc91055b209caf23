//! A JSON document as plain values: what the protocol reads from requests and
//! writes into responses.
use vstd::prelude::*;

verus! {

/// A JSON value. Object members keep the order in which they were given.
pub enum Json {
    Null,
    Bool(bool),
    /// A non-negative integer.
    UInt(u64),
    /// Any other number, as its JSON text.
    Number(String),
    Str(String),
    Array(Vec<Json>),
    Object(Vec<(String, Json)>),
}

/// The value of the first member named `key`.
pub open spec fn member(fields: Seq<(String, Json)>, key: Seq<char>) -> Option<Json>
    decreases fields.len(),
{
    if fields.len() == 0 {
        None
    } else if fields[0].0@ == key {
        Some(fields[0].1)
    } else {
        member(fields.drop_first(), key)
    }
}

/// The member `key` of `j`, where `j` is an object.
pub open spec fn get(j: Option<Json>, key: Seq<char>) -> Option<Json> {
    match j {
        Some(Json::Object(fields)) => member(fields@, key),
        _ => None,
    }
}

/// The text of `j`, where `j` is a string.
pub open spec fn text(j: Option<Json>) -> Option<Seq<char>> {
    match j {
        Some(Json::Str(s)) => Some(s@),
        _ => None,
    }
}

/// The value of `j`, where `j` is a boolean.
pub open spec fn flag(j: Option<Json>) -> Option<bool> {
    match j {
        Some(Json::Bool(b)) => Some(b),
        _ => None,
    }
}

/// The value of `j`, where `j` is a non-negative integer.
pub open spec fn count(j: Option<Json>) -> Option<u64> {
    match j {
        Some(Json::UInt(n)) => Some(n),
        _ => None,
    }
}

/// Relies on `str::eq`: the two strings hold the same characters.
#[verifier::external_body]
pub(crate) fn same_text(a: &str, b: &str) -> (r: bool)
    ensures
        r == (a@ == b@),
{
    a == b
}

proof fn lemma_member_skip(fields: Seq<(String, Json)>, i: int, key: Seq<char>)
    requires
        0 <= i < fields.len(),
        fields[i].0@ != key,
    ensures
        member(fields.subrange(i, fields.len() as int), key)
            == member(fields.subrange(i + 1, fields.len() as int), key),
{
    assert(fields.subrange(i, fields.len() as int).drop_first()
        =~= fields.subrange(i + 1, fields.len() as int));
}

proof fn lemma_member_here(fields: Seq<(String, Json)>, i: int, key: Seq<char>)
    requires
        0 <= i < fields.len(),
        fields[i].0@ == key,
    ensures
        member(fields.subrange(i, fields.len() as int), key) == Some(fields[i].1),
{
    let sub = fields.subrange(i, fields.len() as int);
    assert(sub[0] == fields[i]);
}

impl Json {
    /// The member `key`, where `self` is an object that has one.
    pub fn get(&self, key: &str) -> (r: Option<&Json>)
        ensures
            r matches Some(v) ==> get(Some(*self), key@) == Some(*v),
            r is None ==> get(Some(*self), key@) is None,
    {
        match self {
            Json::Object(fields) => {
                let mut i: usize = 0;
                assert(fields@.subrange(0, fields@.len() as int) =~= fields@);
                while i < fields.len()
                    invariant
                        i <= fields.len(),
                        get(Some(*self), key@) == member(fields@, key@),
                        member(fields@, key@) == member(fields@.subrange(i as int, fields@.len() as int), key@),
                    decreases fields.len() - i,
                {
                    if same_text(fields[i].0.as_str(), key) {
                        proof {
                            lemma_member_here(fields@, i as int, key@);
                        }
                        return Some(&fields[i].1);
                    }
                    proof {
                        lemma_member_skip(fields@, i as int, key@);
                    }
                    i = i + 1;
                }
                None
            },
            _ => None,
        }
    }

    /// The text of a string value.
    pub fn as_str(&self) -> (r: Option<&str>)
        ensures
            r matches Some(s) ==> text(Some(*self)) == Some(s@),
            r is None ==> text(Some(*self)) is None,
    {
        match self {
            Json::Str(s) => Some(s.as_str()),
            _ => None,
        }
    }

    /// The value of a boolean.
    pub fn as_bool(&self) -> (r: Option<bool>)
        ensures
            r == flag(Some(*self)),
    {
        match self {
            Json::Bool(b) => Some(*b),
            _ => None,
        }
    }

    /// The value of a non-negative integer.
    pub fn as_u64(&self) -> (r: Option<u64>)
        ensures
            r == count(Some(*self)),
    {
        match self {
            Json::UInt(n) => Some(*n),
            _ => None,
        }
    }

    /// Removes the member `key` from an object and returns its value.
    pub fn take(&mut self, key: &str) -> (r: Option<Json>)
        ensures
            r == get(Some(*old(self)), key@),
    {
        match self {
            Json::Object(fields) => {
                let ghost start = fields@;
                let mut i: usize = 0;
                assert(start.subrange(0, start.len() as int) =~= start);
                while i < fields.len()
                    invariant
                        i <= fields.len(),
                        fields@ == start,
                        get(Some(*old(self)), key@) == member(start, key@),
                        member(start, key@) == member(start.subrange(i as int, start.len() as int), key@),
                    decreases fields.len() - i,
                {
                    if same_text(fields[i].0.as_str(), key) {
                        proof {
                            lemma_member_here(start, i as int, key@);
                        }
                        let (_, v) = fields.remove(i);
                        return Some(v);
                    }
                    proof {
                        lemma_member_skip(start, i as int, key@);
                    }
                    i = i + 1;
                }
                None
            },
            _ => None,
        }
    }
}

} // verus!
