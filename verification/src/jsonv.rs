//! The library's model of a decoded JSON document.
//!
//! Responses arrive as text; `serde_json` decodes them. The decoded tree is
//! abstracted into [`Jv`], a plain datatype that verified code can read, with
//! one variant per JSON kind. Of numbers the library only ever reads the
//! unsigned integer value, so a number that has none is kept as [`Jv::NumOther`].
use vstd::prelude::*;

verus! {

/// A decoded JSON value, as the verified logic reads it.
#[derive(Debug, PartialEq, Eq)]
pub enum Jv {
    Null,
    Bool(bool),
    /// A number with a `u64` value.
    UInt(u64),
    /// A number without a `u64` value; the library never reads one.
    NumOther,
    Str(String),
    Arr(Vec<Jv>),
    Obj(Vec<(String, Jv)>),
}

/// The value under `key` in an object's pair list: the first pair whose key
/// matches, as `serde_json`'s maps hold each key once.
pub open spec fn obj_lookup(pairs: Seq<(String, Jv)>, key: Seq<char>) -> Option<Jv>
    decreases pairs.len(),
{
    if pairs.len() == 0 {
        None
    } else if pairs[0].0@ == key {
        Some(pairs[0].1)
    } else {
        obj_lookup(pairs.drop_first(), key)
    }
}

/// The field `key` of `j`, when `j` is an object that has it.
pub open spec fn field_of(j: Jv, key: Seq<char>) -> Option<Jv> {
    match j {
        Jv::Obj(pairs) => obj_lookup(pairs@, key),
        _ => None,
    }
}

/// The characters of `j`, when `j` is a string.
pub open spec fn str_of(j: Jv) -> Option<Seq<char>> {
    match j {
        Jv::Str(s) => Some(s@),
        _ => None,
    }
}

/// The `u64` value of `j`, when `j` is a number that has one.
pub open spec fn uint_of(j: Jv) -> Option<u64> {
    match j {
        Jv::UInt(u) => Some(u),
        _ => None,
    }
}

/// The elements of `j`, when `j` is an array.
pub open spec fn arr_of(j: Jv) -> Option<Seq<Jv>> {
    match j {
        Jv::Arr(a) => Some(a@),
        _ => None,
    }
}

/// The string field `key` of `j`, when `j` is an object holding a string there.
pub open spec fn str_field_of(j: Jv, key: Seq<char>) -> Option<Seq<char>> {
    match field_of(j, key) {
        Some(v) => str_of(v),
        None => None,
    }
}

/// The `u64` field `key` of `j`.
pub open spec fn uint_field_of(j: Jv, key: Seq<char>) -> Option<u64> {
    match field_of(j, key) {
        Some(v) => uint_of(v),
        None => None,
    }
}

/// Looking up a key held at position `i`, with no earlier pair matching,
/// yields that pair's value.
pub proof fn lemma_lookup_at(ps: Seq<(String, Jv)>, key: Seq<char>, i: int)
    requires
        0 <= i < ps.len(),
        ps[i].0@ == key,
        forall|k: int| 0 <= k < i ==> ps[k].0@ != key,
    ensures
        obj_lookup(ps, key) == Some(ps[i].1),
    decreases i,
{
    if i > 0 {
        assert(ps[0].0@ != key);
        lemma_lookup_at(ps.drop_first(), key, i - 1);
        assert(forall|k: int| 0 <= k < i - 1 ==> ps.drop_first()[k] == ps[k + 1]);
    }
}

/// Looking up a key no pair holds yields nothing.
pub proof fn lemma_lookup_none(ps: Seq<(String, Jv)>, key: Seq<char>)
    requires
        forall|k: int| 0 <= k < ps.len() ==> ps[k].0@ != key,
    ensures
        obj_lookup(ps, key) is None,
    decreases ps.len(),
{
    if ps.len() > 0 {
        lemma_lookup_none(ps.drop_first(), key);
    }
}

impl Jv {
    /// Look a field up in an object; `None` on anything that is not an
    /// object holding the key.
    pub fn get_field<'a>(&'a self, key: &str) -> (r: Option<&'a Jv>)
        ensures
            r is Some <==> field_of(*self, key@) is Some,
            r matches Some(v) ==> field_of(*self, key@) == Some(*v),
    {
        match self {
            Jv::Obj(pairs) => {
                let n = pairs.len();
                proof {
                    assert(*self == Jv::Obj(*pairs));
                    assert(field_of(*self, key@) == obj_lookup(pairs@, key@));
                    assert(pairs@.skip(0) =~= pairs@);
                }
                let mut i: usize = 0;
                while i < n
                    invariant
                        0 <= i <= n,
                        n == pairs@.len(),
                        field_of(*self, key@) == obj_lookup(pairs@.skip(i as int), key@),
                    decreases n - i,
                {
                    proof {
                        assert(pairs@.skip(i as int)[0] == pairs@[i as int]);
                        assert(pairs@.skip(i as int).drop_first() =~= pairs@.skip(i as int + 1));
                    }
                    if crate::text::str_eq(pairs[i].0.as_str(), key) {
                        proof {
                            assert(pairs@[i as int].0@ == key@);
                            assert(pairs@.skip(i as int)[0] == pairs@[i as int]);
                            assert(obj_lookup(pairs@.skip(i as int), key@)
                                == Some(pairs@[i as int].1));
                            assert(field_of(*self, key@) == Some(pairs@[i as int].1));
                        }
                        return Some(&pairs[i].1);
                    }
                    i += 1;
                }
                proof {
                    assert(pairs@.skip(n as int) =~= Seq::<(String, Jv)>::empty());
                }
                assert(field_of(*self, key@) is None);
                None
            },
            _ => None,
        }
    }

    /// The string slice held, for a string value.
    pub fn as_str<'a>(&'a self) -> (r: Option<&'a str>)
        ensures
            r is Some <==> str_of(*self) is Some,
            r matches Some(s) ==> str_of(*self) == Some(s@),
    {
        match self {
            Jv::Str(s) => Some(s.as_str()),
            _ => None,
        }
    }

    /// The `u64` held, for an unsigned number.
    pub fn as_uint(&self) -> (r: Option<u64>)
        ensures
            r == uint_of(*self),
    {
        match self {
            Jv::UInt(u) => Some(*u),
            _ => None,
        }
    }

    /// The elements held, for an array.
    pub fn as_array<'a>(&'a self) -> (r: Option<&'a Vec<Jv>>)
        ensures
            r is Some <==> arr_of(*self) is Some,
            r matches Some(a) ==> arr_of(*self) == Some(a@),
    {
        match self {
            Jv::Arr(a) => Some(a),
            _ => None,
        }
    }

    /// The string field under `key`, when there is one.
    pub fn str_field<'a>(&'a self, key: &str) -> (r: Option<&'a str>)
        ensures
            r is Some <==> str_field_of(*self, key@) is Some,
            r matches Some(s) ==> str_field_of(*self, key@) == Some(s@),
    {
        match self.get_field(key) {
            Some(v) => v.as_str(),
            None => None,
        }
    }
}

/// Declares `serde_json::Value` so that the two bridging functions below can
/// carry one; verified code never looks inside it.
#[verifier::external_type_specification]
#[verifier::external_body]
pub struct ExValue(serde_json::Value);

/// Whether `serde_json` accepts the text as a JSON document.
pub uninterp spec fn json_wf(text: Seq<char>) -> bool;

/// The JSON tree `serde_json` decodes from well-formed text, abstracted to `Jv`.
pub uninterp spec fn json_tree_of(text: Seq<char>) -> Jv;

/// The `Jv` abstraction of a decoded `serde_json::Value`.
pub uninterp spec fn value_model(v: serde_json::Value) -> Jv;

/// Relies on `serde_json::from_str::<Value>`: decodes the text as a JSON
/// document, failing exactly when the text is not valid JSON, and on the
/// decoding being a function of the text alone.
#[verifier::external_body]
pub(crate) fn parse_value(text: &str) -> (r: Option<serde_json::Value>)
    ensures
        r is Some <==> json_wf(text@),
        r matches Some(v) ==> value_model(v) == json_tree_of(text@),
{
    serde_json::from_str::<serde_json::Value>(text).ok()
}

/// Relies on `serde_json::Value` being a finite tree of the six JSON variants
/// and on `serde_json::Number::as_u64`; converts one variant to one, moving
/// fields, and keeps of a number only its `u64` value when it has one.
#[verifier::external_body]
pub(crate) fn jv_from_value(v: serde_json::Value) -> (r: Jv)
    ensures
        r == value_model(v),
{
    match v {
        serde_json::Value::Null => Jv::Null,
        serde_json::Value::Bool(b) => Jv::Bool(b),
        serde_json::Value::Number(n) => match n.as_u64() {
            Some(u) => Jv::UInt(u),
            None => Jv::NumOther,
        },
        serde_json::Value::String(s) => Jv::Str(s),
        serde_json::Value::Array(a) => Jv::Arr(a.into_iter().map(jv_from_value).collect()),
        serde_json::Value::Object(m) => Jv::Obj(
            m.into_iter().map(|(k, x)| (k, jv_from_value(x))).collect(),
        ),
    }
}

} // verus!
