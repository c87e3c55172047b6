//! JSON documents as plain data, and the lookups that the reply needs.

use vstd::prelude::*;
use vstd::string::*;

verus! {

/// A JSON document. The fields of a record keep the order in which the
/// parser hands them out; a lookup takes the first field of a given name.
#[derive(Debug, PartialEq, Eq)]
pub enum Json {
    Null,
    Bool(bool),
    /// A number, kept as its numeral.
    Number(String),
    Text(String),
    List(Vec<Json>),
    Record(Vec<(String, Json)>),
}

/// `serde_json::Value`, the parser's own form of a document. It is opaque
/// here: it is only handed from the parser to the rewriting below.
#[verifier::external_type_specification]
#[verifier::external_body]
pub struct ExValue(serde_json::Value);

/// What `serde_json::from_slice` makes of `body` when it is asked for a
/// `serde_json::Value`: the document, or the description of the fault that
/// stopped the parser.
pub uninterp spec fn json_reading(body: Seq<u8>) -> Result<Json, Seq<char>>;

/// Rewrites a `serde_json::Value` as a [`Json`], variant for variant: a
/// number by the numeral that its `Display` writes, the fields of an object
/// in the order in which its map hands them out. Nothing is claimed of the
/// result here; the claim is made by [`read_json`], the only caller.
#[verifier::external_body]
fn lift(value: serde_json::Value) -> (r: Json) {
    match value {
        serde_json::Value::Null => Json::Null,
        serde_json::Value::Bool(b) => Json::Bool(b),
        serde_json::Value::Number(n) => Json::Number(n.to_string()),
        serde_json::Value::String(s) => Json::Text(s),
        serde_json::Value::Array(items) => Json::List(items.into_iter().map(lift).collect()),
        serde_json::Value::Object(fields) => Json::Record(
            fields.into_iter().map(|(name, v)| (name, lift(v))).collect(),
        ),
    }
}

/// Calls `serde_json::from_slice` for a `serde_json::Value`. Trusted: the
/// call returns on every input (the parser refuses to nest deeper than its
/// limit rather than overflow), and its result depends on the bytes alone,
/// so it is the one that [`json_reading`] names: a document rewritten as a
/// [`Json`], or a fault as the text that its `Display` writes.
#[verifier::external_body]
pub(crate) fn read_json(body: &[u8]) -> (r: Result<Json, String>)
    ensures
        r matches Ok(doc) ==> (json_reading(body@) matches Ok(named) && named == doc),
        r matches Err(fault) ==> (json_reading(body@) matches Err(named) && named == fault@),
{
    match serde_json::from_slice::<serde_json::Value>(body) {
        Ok(value) => Ok(lift(value)),
        Err(fault) => Err(fault.to_string()),
    }
}

/// The index of the first field called `key` at or after `from`, or the
/// number of fields if there is none.
pub open spec fn first_named(fields: Seq<(String, Json)>, key: Seq<char>, from: int) -> int
    decreases fields.len() - from,
{
    if from < 0 || from >= fields.len() {
        fields.len() as int
    } else if fields[from].0@ == key {
        from
    } else {
        first_named(fields, key, from + 1)
    }
}

impl Json {
    /// The value of the first field called `key`, if this is a record that
    /// has one.
    pub open spec fn member(self, key: Seq<char>) -> Option<Json> {
        match self {
            Json::Record(fields) => {
                let i = first_named(fields@, key, 0);
                if i < fields@.len() {
                    Some(fields@[i].1)
                } else {
                    None
                }
            },
            _ => None,
        }
    }

    /// The item at `index`, if this is a list that is long enough.
    pub open spec fn element(self, index: int) -> Option<Json> {
        match self {
            Json::List(items) => if 0 <= index < items@.len() {
                Some(items@[index])
            } else {
                None
            },
            _ => None,
        }
    }

    /// The characters, if this is a text.
    pub open spec fn text(self) -> Option<Seq<char>> {
        match self {
            Json::Text(s) => Some(s@),
            _ => None,
        }
    }

    /// Looks up the field called `key`.
    pub fn get(&self, key: &str) -> (r: Option<&Json>)
        ensures
            match r {
                Some(found) => self.member(key@) == Some(*found),
                None => self.member(key@) is None,
            },
    {
        match self {
            Json::Record(fields) => {
                let mut i: usize = 0;
                while i < fields.len()
                    invariant
                        *self matches Json::Record(held) && held == *fields,
                        i <= fields@.len(),
                        first_named(fields@, key@, 0) == first_named(fields@, key@, i as int),
                    decreases fields@.len() - i,
                {
                    if same_text(fields[i].0.as_str(), key) {
                        assert(first_named(fields@, key@, i as int) == i);
                        return Some(&fields[i].1);
                    }
                    i = i + 1;
                }
                None
            },
            _ => None,
        }
    }

    /// Looks up the item at `index`.
    pub fn at(&self, index: usize) -> (r: Option<&Json>)
        ensures
            match r {
                Some(found) => self.element(index as int) == Some(*found),
                None => self.element(index as int) is None,
            },
    {
        match self {
            Json::List(items) => if index < items.len() {
                Some(&items[index])
            } else {
                None
            },
            _ => None,
        }
    }

    /// The text that this value holds, if it is one.
    pub fn as_text(&self) -> (r: Option<&str>)
        ensures
            match r {
                Some(s) => self.text() == Some(s@),
                None => self.text() is None,
            },
    {
        match self {
            Json::Text(s) => Some(s.as_str()),
            _ => None,
        }
    }
}

/// Tells whether two texts hold the same characters.
pub fn same_text(a: &str, b: &str) -> (r: bool)
    ensures
        r == (a@ == b@),
{
    let len: usize = a.unicode_len();
    if len != b.unicode_len() {
        return false;
    }
    let mut i: usize = 0;
    while i < len
        invariant
            len == a@.len(),
            len == b@.len(),
            i <= len,
            forall|j: int| 0 <= j < i ==> a@[j] == b@[j],
        decreases len - i,
    {
        if a.get_char(i) != b.get_char(i) {
            assert(a@[i as int] != b@[i as int]);
            return false;
        }
        i = i + 1;
    }
    assert(a@ =~= b@);
    true
}

} // verus!
