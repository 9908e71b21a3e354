//! A JSON document as a tree of plain values, and lookups of object members.

use vstd::prelude::*;

verus! {

/// One `"key": value` member of a JSON object.
#[derive(Debug)]
pub struct Member {
    pub key: String,
    pub value: Json,
}

/// A JSON value. A number keeps its text, as the forecast never reads one.
#[derive(Debug)]
pub enum Json {
    Null,
    Bool(bool),
    Number(String),
    Str(String),
    Array(Vec<Json>),
    Object(Vec<Member>),
}

/// The value of the first member named `key`.
pub open spec fn lookup(members: Seq<Member>, key: Seq<char>) -> Option<Json>
    decreases members.len(),
{
    if members.len() == 0 {
        None
    } else if members[0].key@ == key {
        Some(members[0].value)
    } else {
        lookup(members.drop_first(), key)
    }
}

/// The member `key` of an object; nothing for any other value.
pub open spec fn field(j: Json, key: Seq<char>) -> Option<Json> {
    match j {
        Json::Object(ms) => lookup(ms@, key),
        _ => None,
    }
}

/// A member is found when no member before it has its key.
pub proof fn lemma_lookup_first(ms: Seq<Member>, i: int, key: Seq<char>)
    requires
        0 <= i < ms.len(),
        ms[i].key@ == key,
        forall|k: int| 0 <= k < i ==> ms[k].key@ != key,
    ensures
        lookup(ms, key) == Some(ms[i].value),
    decreases i,
{
    if i > 0 {
        lemma_lookup_first(ms.drop_first(), i - 1, key);
    }
}

/// A member named `key` holding `value`.
pub fn member(key: &str, value: Json) -> (r: Member)
    ensures
        r.key@ == key@,
        r.value == value,
{
    Member { key: key.to_owned(), value }
}

/// Finds the member `key` of `j`, when `j` is an object that has one.
pub fn get_field<'a>(j: &'a Json, key: &str) -> (r: Option<&'a Json>)
    ensures
        r is Some <==> field(*j, key@) is Some,
        r matches Some(v) ==> field(*j, key@) == Some(*v),
{
    match j {
        Json::Object(ms) => {
            let k = key.to_owned();
            let mut i: usize = 0;
            assert(ms@.subrange(0, ms@.len() as int) =~= ms@);
            while i < ms.len()
                invariant
                    i <= ms@.len(),
                    k@ == key@,
                    field(*j, key@) == lookup(ms@, key@),
                    lookup(ms@, key@) == lookup(ms@.subrange(i as int, ms@.len() as int), key@),
                decreases ms@.len() - i,
            {
                let ghost rest = ms@.subrange(i as int, ms@.len() as int);
                assert(rest[0] == ms@[i as int]);
                if ms[i].key == k {
                    return Some(&ms[i].value);
                }
                assert(rest.drop_first() =~= ms@.subrange(i + 1, ms@.len() as int));
                i = i + 1;
            }
            None
        },
        _ => None,
    }
}

} // verus!
