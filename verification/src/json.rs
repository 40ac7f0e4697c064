//! A small JSON value model. Tool arguments arrive from the model as
//! untrusted JSON objects and tool results go back as JSON values; this
//! type holds them as plain data so that argument checking and dispatch
//! can be reasoned about directly. The surrounding program converts
//! between this type and whatever representation its JSON library uses.

use vstd::prelude::*;

verus! {

/// A JSON value: null, a boolean, an integer, a string, an array, or an
/// object held as a list of key/value pairs in document order.
#[derive(Debug)]
pub enum Json {
    Null,
    Bool(bool),
    Int(i64),
    Text(String),
    Array(Vec<Json>),
    Object(Vec<(String, Json)>),
}

/// The value of the first entry whose key reads `key`, if any.
pub open spec fn entries_lookup(entries: Seq<(String, Json)>, key: Seq<char>) -> Option<Json>
    decreases entries.len(),
{
    if entries.len() == 0 {
        None
    } else if entries[0].0@ == key {
        Some(entries[0].1)
    } else {
        entries_lookup(entries.drop_first(), key)
    }
}

proof fn lemma_entries_lookup_skip(entries: Seq<(String, Json)>, key: Seq<char>, i: int)
    requires
        0 <= i <= entries.len(),
        forall|j: int| 0 <= j < i ==> entries[j].0@ != key,
    ensures
        entries_lookup(entries, key) == entries_lookup(
            entries.subrange(i, entries.len() as int),
            key,
        ),
    decreases i,
{
    if i > 0 {
        lemma_entries_lookup_skip(entries, key, i - 1);
        let rest = entries.subrange(i - 1, entries.len() as int);
        assert(rest[0] == entries[i - 1]);
        assert(rest.drop_first() =~= entries.subrange(i, entries.len() as int));
    } else {
        assert(entries.subrange(0, entries.len() as int) =~= entries);
    }
}

/// Whether two string slices read the same characters.
pub fn str_eq(a: &str, b: &str) -> (r: bool)
    ensures
        r == (a@ == b@),
{
    let sa = String::from_str(a);
    let sb = String::from_str(b);
    sa == sb
}

impl Json {
    /// The field named `key` of this value, when this value is an object
    /// holding such a field.
    pub open spec fn field_spec(self, key: Seq<char>) -> Option<Json> {
        match self {
            Json::Object(entries) => entries_lookup(entries@, key),
            _ => None,
        }
    }

    /// Looks a field up by name; `None` when this value is not an object
    /// or no entry carries the name.
    pub fn field<'a>(&'a self, key: &str) -> (r: Option<&'a Json>)
        ensures
            match r {
                Some(v) => self.field_spec(key@) == Some(*v),
                None => self.field_spec(key@) is None,
            },
    {
        match self {
            Json::Object(entries) => {
                let n = entries.len();
                let mut i: usize = 0;
                while i < n
                    invariant
                        *self == Json::Object(*entries),
                        n == entries@.len(),
                        0 <= i <= n,
                        forall|j: int| 0 <= j < i ==> entries@[j].0@ != key@,
                    decreases n - i,
                {
                    if str_eq(entries[i].0.as_str(), key) {
                        proof {
                            lemma_entries_lookup_skip(entries@, key@, i as int);
                            let rest = entries@.subrange(i as int, entries@.len() as int);
                            assert(rest[0] == entries@[i as int]);
                        }
                        return Some(&entries[i].1);
                    }
                    i += 1;
                }
                proof {
                    lemma_entries_lookup_skip(entries@, key@, n as int);
                }
                None
            },
            _ => None,
        }
    }
}

} // verus!
