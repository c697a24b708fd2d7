//! The part of a JSON document that the exporter reads: the members of the
//! top-level object, each with the key and what the value is as a string, as
//! a signed and as an unsigned integer.
use vstd::prelude::*;

use crate::text::{chars_eq, chars_of};

verus! {

/// What one member of a JSON object holds, as the exporter reads it.
pub struct JsonEntry {
    /// The member's key.
    pub key: String,
    /// The value, where it is a JSON string.
    pub text: Option<String>,
    /// The value, where it is an integer that fits in `i64`.
    pub int: Option<i64>,
    /// The value, where it is an integer that fits in `u64`.
    pub uint: Option<u64>,
}

/// The mathematical form of a member: key, string, signed and unsigned value.
pub type EntryView = (Seq<char>, Option<Seq<char>>, Option<i64>, Option<u64>);

pub open spec fn opt_string_view(s: Option<String>) -> Option<Seq<char>> {
    match s {
        Some(t) => Some(t@),
        None => None,
    }
}

impl View for JsonEntry {
    type V = EntryView;

    open spec fn view(&self) -> EntryView {
        (self.key@, opt_string_view(self.text), self.int, self.uint)
    }
}

/// The members of a JSON object, in the order the parser hands them out.
pub struct JsonObject {
    pub entries: Vec<JsonEntry>,
}

impl View for JsonObject {
    type V = Seq<EntryView>;

    open spec fn view(&self) -> Seq<EntryView> {
        self.entries@.map_values(|e: JsonEntry| e@)
    }
}

/// What `serde_json` makes of the text `text`: `None` where it is not a JSON
/// document; else the members of the top-level object (none where the
/// document is not an object), each seen through `as_str`, `as_i64` and
/// `as_u64`.
pub uninterp spec fn json_object_members(text: Seq<char>) -> Option<Seq<EntryView>>;

/// Parses `text` with `serde_json::from_str` into a `serde_json::Value` and
/// lists the members of the top-level object through `Value::as_object`,
/// `Value::as_str`, `Value::as_i64` and `Value::as_u64`. The contract only
/// names the outcome as a function of the text: the JSON grammar is not
/// stated here.
#[verifier::external_body]
fn json_members(text: &str) -> (r: Option<JsonObject>)
    ensures
        match r {
            Some(o) => json_object_members(text@) == Some(o@),
            None => json_object_members(text@) is None,
        },
{
    match serde_json::from_str::<serde_json::Value>(text) {
        Ok(value) => Some(JsonObject {
            entries: match value.as_object() {
                Some(map) => map.iter().map(|(k, v)| JsonEntry {
                    key: k.clone(),
                    text: v.as_str().map(|t| t.to_string()),
                    int: v.as_i64(),
                    uint: v.as_u64(),
                }).collect(),
                None => Vec::new(),
            },
        }),
        Err(_) => None,
    }
}

/// The first member of `m` whose key is `key`.
pub open spec fn member(m: Seq<EntryView>, key: Seq<char>) -> Option<EntryView>
    decreases m.len(),
{
    if m.len() == 0 {
        None
    } else if m[0].0 == key {
        Some(m[0])
    } else {
        member(m.drop_first(), key)
    }
}

/// The value under `key` where it is a string (`Value::get` then `as_str`).
pub open spec fn member_str(m: Seq<EntryView>, key: Seq<char>) -> Option<Seq<char>> {
    match member(m, key) {
        Some(e) => e.1,
        None => None,
    }
}

/// The value under `key` where it is an `i64` (`Value::get` then `as_i64`).
pub open spec fn member_i64(m: Seq<EntryView>, key: Seq<char>) -> Option<i64> {
    match member(m, key) {
        Some(e) => e.2,
        None => None,
    }
}

/// The value under `key` where it is a `u64` (`Value::get` then `as_u64`).
pub open spec fn member_u64(m: Seq<EntryView>, key: Seq<char>) -> Option<u64> {
    match member(m, key) {
        Some(e) => e.3,
        None => None,
    }
}

/// `member` over a suffix of `m` agrees with `member` over all of `m` when
/// no earlier entry has the key.
proof fn lemma_member_skip(m: Seq<EntryView>, key: Seq<char>, i: int)
    requires
        0 <= i <= m.len(),
        forall|j: int| 0 <= j < i ==> m[j].0 != key,
    ensures
        member(m, key) == member(m.subrange(i, m.len() as int), key),
    decreases i,
{
    if i > 0 {
        assert(m[0].0 != key);
        let t = m.drop_first();
        assert forall|j: int| 0 <= j < i - 1 implies t[j].0 != key by {
            assert(t[j] == m[j + 1]);
        }
        lemma_member_skip(t, key, i - 1);
        assert(t.subrange(i - 1, t.len() as int) =~= m.subrange(i, m.len() as int));
    } else {
        assert(m.subrange(0, m.len() as int) =~= m);
    }
}

impl JsonObject {
    /// Parses the JSON text `text`; `None` where it is not JSON.
    pub fn parse(text: &str) -> (r: Option<JsonObject>)
        ensures
            match r {
                Some(o) => json_object_members(text@) == Some(o@),
                None => json_object_members(text@) is None,
            },
    {
        json_members(text)
    }

    /// The position of the first member with key `key`.
    fn find(&self, key: &str) -> (r: Option<usize>)
        ensures
            match r {
                Some(i) => i < self@.len() && member(self@, key@) == Some(self@[i as int]),
                None => member(self@, key@) is None,
            },
    {
        let k = chars_of(key);
        let n = self.entries.len();
        for i in 0..n
            invariant
                n == self.entries@.len(),
                k@ == key@,
                forall|j: int| 0 <= j < i ==> self@[j].0 != key@,
        {
            let e = &self.entries[i];
            let ek = chars_of(e.key.as_str());
            if chars_eq(ek.as_slice(), k.as_slice()) {
                proof {
                    lemma_member_skip(self@, key@, i as int);
                    assert(self@.subrange(i as int, self@.len() as int)[0] == self@[i as int]);
                }
                return Some(i);
            }
            assert(self@[i as int].0 == self.entries@[i as int].key@);
        }
        proof {
            lemma_member_skip(self@, key@, n as int);
            assert(self@.subrange(n as int, n as int).len() == 0);
        }
        None
    }

    /// `value.get(key).and_then(|v| v.as_str())`.
    pub fn get_str(&self, key: &str) -> (r: Option<&str>)
        ensures
            match r {
                Some(s) => member_str(self@, key@) == Some(s@),
                None => member_str(self@, key@) is None,
            },
    {
        match self.find(key) {
            Some(i) => match &self.entries[i].text {
                Some(t) => Some(t.as_str()),
                None => None,
            },
            None => None,
        }
    }

    /// `value.get(key).and_then(|v| v.as_i64())`.
    pub fn get_i64(&self, key: &str) -> (r: Option<i64>)
        ensures
            r == member_i64(self@, key@),
    {
        match self.find(key) {
            Some(i) => self.entries[i].int,
            None => None,
        }
    }

    /// `value.get(key).and_then(|v| v.as_u64())`.
    pub fn get_u64(&self, key: &str) -> (r: Option<u64>)
        ensures
            r == member_u64(self@, key@),
    {
        match self.find(key) {
            Some(i) => self.entries[i].uint,
            None => None,
        }
    }
}

} // verus!
