//! A JSON document as plain values, and the lookups the price sources need.

use vstd::prelude::*;
use vstd::string::*;
use crate::text::{first_at, lemma_first_at_absent, lemma_first_at_found};

verus! {

/// A JSON value.
///
/// A number is held as decimal text, since the crate does no arithmetic of
/// its own. An object keeps its members in document order.
#[derive(Debug, PartialEq, Eq)]
pub enum Json {
    Null,
    Bool(bool),
    Number(String),
    Text(String),
    Array(Vec<Json>),
    Object(Vec<(String, Json)>),
}

/// The keys of an object's members, in order.
pub open spec fn keys_of(members: Seq<(String, Json)>) -> Seq<Seq<char>> {
    Seq::new(members.len(), |i: int| members[i].0@)
}

impl Json {
    /// The member `key` of an object: the first one, where several carry the
    /// key. Nothing for a value that is no object or has no such member.
    pub open spec fn field(self, key: Seq<char>) -> Option<Json> {
        match self {
            Json::Object(members) => match first_at(keys_of(members@), key) {
                Some(i) => Some(members@[i].1),
                None => None,
            },
            _ => None,
        }
    }

    /// The characters of a JSON string.
    pub open spec fn text(self) -> Option<Seq<char>> {
        match self {
            Json::Text(s) => Some(s@),
            _ => None,
        }
    }

    /// The decimal text of a JSON number.
    pub open spec fn number(self) -> Option<Seq<char>> {
        match self {
            Json::Number(s) => Some(s@),
            _ => None,
        }
    }

    /// The string found under `key`, if this is an object that has one there.
    pub open spec fn text_at(self, key: Seq<char>) -> Option<Seq<char>> {
        match self.field(key) {
            Some(v) => v.text(),
            None => None,
        }
    }

    /// Looks up the member `key` of an object.
    pub fn get(&self, key: &str) -> (r: Option<&Json>)
        ensures
            match r {
                Some(v) => self.field(key@) == Some(*v),
                None => self.field(key@) is None,
            },
    {
        match self {
            Json::Object(members) => {
                let wanted = String::from_str(key);
                let n: usize = members.len();
                let mut i: usize = 0;
                while i < n
                    invariant
                        i <= n,
                        n == members@.len(),
                        *self == Json::Object(*members),
                        wanted@ == key@,
                        forall|j: int| 0 <= j < i ==> #[trigger] keys_of(members@)[j] != key@,
                    decreases n - i,
                {
                    if members[i].0 == wanted {
                        proof {
                            lemma_first_at_found(keys_of(members@), key@, i as int);
                        }
                        return Some(&members[i].1);
                    }
                    i += 1;
                }
                proof {
                    lemma_first_at_absent(keys_of(members@), key@);
                }
                None
            },
            _ => None,
        }
    }

    /// The characters of a JSON string, borrowed.
    pub fn as_text(&self) -> (r: Option<&String>)
        ensures
            match r {
                Some(s) => self.text() == Some(s@),
                None => self.text() is None,
            },
    {
        match self {
            Json::Text(s) => Some(s),
            _ => None,
        }
    }

    /// The decimal text of a JSON number, borrowed.
    pub fn as_number(&self) -> (r: Option<&String>)
        ensures
            match r {
                Some(s) => self.number() == Some(s@),
                None => self.number() is None,
            },
    {
        match self {
            Json::Number(s) => Some(s),
            _ => None,
        }
    }

    /// A copy of the string found under `key`.
    pub fn get_text(&self, key: &str) -> (r: Option<String>)
        ensures
            match r {
                Some(s) => self.text_at(key@) == Some(s@),
                None => self.text_at(key@) is None,
            },
    {
        match self.get(key) {
            Some(v) => match v.as_text() {
                Some(s) => Some(s.clone()),
                None => None,
            },
            None => None,
        }
    }
}

/// What `serde_json::to_string` writes for a string: the JSON string literal,
/// quotes and escapes included; nothing where it reports an error.
pub uninterp spec fn json_literal(text: Seq<char>) -> Option<Seq<char>>;

/// Encodes `text` as a JSON string literal with `serde_json::to_string`.
///
/// The contract only gives the outcome its name: the same text is always
/// encoded the same way. An error of the encoder comes back as `None`.
#[verifier::external_body]
pub(crate) fn encode_text(text: &str) -> (r: Option<String>)
    ensures
        r.deep_view() == json_literal(text@),
{
    serde_json::to_string(text).ok()
}

} // verus!
