//! JSON documents as plain values, and the reader that produces them.

use vstd::prelude::*;
use vstd::string::StringSliceAdditionalSpecFns;
use vstd::utf8::{decode_utf8, encode_utf8_decode_utf8, valid_utf8};

verus! {

/// A JSON document.
#[derive(Debug)]
pub enum Json {
    Null,
    Bool(bool),
    /// A whole number that is zero or more.
    Unsigned(u64),
    /// A whole number below zero.
    Signed(i64),
    /// Any number that is not held as a whole number.
    Real,
    Text(String),
    Array(Vec<Json>),
    /// The members of an object. Where a name occurs more than once, the last
    /// member of that name counts.
    Object(Vec<(String, Json)>),
}

/// The member named `key` among `members`: the last one of that name.
pub open spec fn find_member(members: Seq<(String, Json)>, key: Seq<char>) -> Option<Json>
    decreases members.len(),
{
    if members.len() == 0 {
        None
    } else if members.last().0@ == key {
        Some(members.last().1)
    } else {
        find_member(members.drop_last(), key)
    }
}

/// Whether every member of `members` bears one of `names`.
pub open spec fn names_within(members: Seq<(String, Json)>, names: Seq<&str>) -> bool {
    forall|i: int|
        0 <= i < members.len() ==> exists|j: int|
            0 <= j < names.len() && (#[trigger] names[j])@ == (#[trigger] members[i]).0@
}

/// Whether two texts are equal, character by character.
pub fn text_eq(a: &str, b: &str) -> (equal: bool)
    ensures
        equal == (a@ == b@),
{
    let x = a.as_bytes();
    let y = b.as_bytes();
    proof {
        encode_utf8_decode_utf8(a@);
        encode_utf8_decode_utf8(b@);
    }
    if x.len() != y.len() {
        return false;
    }
    let mut i: usize = 0;
    while i < x.len()
        invariant
            i <= x.len(),
            x.len() == y.len(),
            x@ == a.spec_bytes(),
            y@ == b.spec_bytes(),
            forall|j: int| 0 <= j < i ==> x@[j] == y@[j],
        decreases x.len() - i,
    {
        if x[i] != y[i] {
            return false;
        }
        i += 1;
    }
    assert(x@ =~= y@);
    true
}

impl Json {
    /// The member named `key` of an object; `None` for an object without such
    /// a member and for a document that is no object.
    pub open spec fn spec_member(self, key: Seq<char>) -> Option<Json> {
        match self {
            Json::Object(members) => find_member(members@, key),
            _ => None,
        }
    }

    /// Whether the document is an object all of whose members bear one of
    /// `names`.
    pub open spec fn spec_has_only(self, names: Seq<&str>) -> bool {
        match self {
            Json::Object(members) => names_within(members@, names),
            _ => false,
        }
    }

    /// The whole number that the document holds, where it holds one that is
    /// zero or more.
    pub open spec fn spec_unsigned(self) -> Option<u64> {
        match self {
            Json::Unsigned(n) => Some(n),
            _ => None,
        }
    }

    pub fn member(&self, key: &str) -> (found: Option<&Json>)
        ensures
            match found {
                Some(doc) => self.spec_member(key@) == Some(*doc),
                None => self.spec_member(key@) is None,
            },
    {
        match self {
            Json::Object(members) => {
                let mut i: usize = members.len();
                assert(members@.take(i as int) =~= members@);
                while i > 0
                    invariant
                        i <= members.len(),
                        self.spec_member(key@) == find_member(members@, key@),
                        find_member(members@, key@) == find_member(members@.take(i as int), key@),
                    decreases i,
                {
                    assert(members@.take(i as int).drop_last() =~= members@.take(i as int - 1));
                    assert(members@.take(i as int).last() == members@[i as int - 1]);
                    if text_eq(members[i - 1].0.as_str(), key) {
                        return Some(&members[i - 1].1);
                    }
                    i -= 1;
                }
                None
            },
            _ => None,
        }
    }

    pub fn has_only(&self, names: &[&str]) -> (within: bool)
        ensures
            within == self.spec_has_only(names@),
    {
        match self {
            Json::Object(members) => {
                let mut i: usize = 0;
                while i < members.len()
                    invariant
                        i <= members.len(),
                        self.spec_has_only(names@) == names_within(members@, names@),
                        names_within(members@.take(i as int), names@),
                    decreases members.len() - i,
                {
                    let mut j: usize = 0;
                    let mut known = false;
                    while j < names.len() && !known
                        invariant
                            i < members.len(),
                            j <= names.len(),
                            known ==> exists|k: int|
                                0 <= k < names.len() && (#[trigger] names@[k])@ == members@[i as int].0@,
                            !known ==> forall|k: int|
                                0 <= k < j ==> (#[trigger] names@[k])@ != members@[i as int].0@,
                        decreases names.len() - j + (if known { 0int } else { 1int }),
                    {
                        if text_eq(names[j], members[i].0.as_str()) {
                            known = true;
                        } else {
                            j += 1;
                        }
                    }
                    if !known {
                        assert(!names_within(members@, names@)) by {
                            if names_within(members@, names@) {
                                let member = members@[i as int];
                                let k = choose|k: int|
                                    0 <= k < names@.len() && (#[trigger] names@[k])@ == member.0@;
                                assert(names@[k]@ != members@[i as int].0@);
                            }
                        }
                        return false;
                    }
                    assert forall|m: int| 0 <= m < i + 1 implies exists|k: int|
                        0 <= k < names@.len() && (#[trigger] names@[k])@ == (
                        #[trigger] members@.take(i as int + 1)[m]).0@ by {
                        if m < i {
                            assert(members@.take(i as int)[m] == members@.take(i as int + 1)[m]);
                        }
                    }
                    i += 1;
                }
                assert(members@.take(i as int) =~= members@);
                true
            },
            _ => false,
        }
    }

    pub fn unsigned(&self) -> (n: Option<u64>)
        ensures
            n == self.spec_unsigned(),
    {
        match self {
            Json::Unsigned(n) => Some(*n),
            _ => None,
        }
    }
}

#[verifier::external_type_specification]
#[verifier::external_body]
pub struct ExValue(serde_json::Value);

/// The document that a text denotes, or `None` where the text is not JSON.
pub uninterp spec fn json_of_text(text: Seq<char>) -> Option<Json>;

/// Rebuilds a `serde_json::Value` as a [`Json`], variant by variant and member
/// by member. Numbers that `serde_json` holds as `u64` or `i64` keep their
/// value; of the others only the fact that they are numbers is kept.
#[verifier::external_body]
fn json_from_value(value: serde_json::Value) -> Json {
    match value {
        serde_json::Value::Null => Json::Null,
        serde_json::Value::Bool(b) => Json::Bool(b),
        serde_json::Value::Number(n) => match (n.as_u64(), n.as_i64()) {
            (Some(u), _) => Json::Unsigned(u),
            (None, Some(i)) => Json::Signed(i),
            (None, None) => Json::Real,
        },
        serde_json::Value::String(s) => Json::Text(s),
        serde_json::Value::Array(a) => Json::Array(a.into_iter().map(json_from_value).collect()),
        serde_json::Value::Object(m) => Json::Object(
            m.into_iter().map(|(k, v)| (k, json_from_value(v))).collect(),
        ),
    }
}

/// Reads a text as JSON with `serde_json::from_str`. The result depends on
/// the text alone: it is the document named by [`json_of_text`].
#[verifier::external_body]
pub(crate) fn read_json(text: &str) -> (doc: Option<Json>)
    ensures
        doc == json_of_text(text@),
{
    serde_json::from_str::<serde_json::Value>(text).ok().map(json_from_value)
}

/// Reads bytes as text with `core::str::from_utf8`, which accepts exactly the
/// byte strings that are UTF-8 and hands them back unchanged as a `str`.
#[verifier::external_body]
pub(crate) fn text_from_bytes(bytes: &[u8]) -> (text: Option<&str>)
    ensures
        match text {
            Some(s) => valid_utf8(bytes@) && s.spec_bytes() == bytes@,
            None => !valid_utf8(bytes@),
        },
{
    core::str::from_utf8(bytes).ok()
}

impl Json {
    /// The document that a text denotes: `Some` exactly for the texts that
    /// are JSON.
    pub fn parse(text: &str) -> (doc: Option<Json>)
        ensures
            doc == json_of_text(text@),
    {
        read_json(text)
    }
}

} // verus!
