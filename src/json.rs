//! A JSON document model, its mathematical view, and object field lookup.
use vstd::prelude::*;

verus! {

/// A JSON number as it arrived on the wire.
///
/// Non-negative integers are `UInt`, negative integers `NegInt`; any other
/// number (a fraction or an exponent) keeps its decimal text in `Float`.
#[derive(Debug, Clone)]
pub enum JsonNumber {
    UInt(u64),
    NegInt(i64),
    Float(String),
}

/// The mathematical view of a [`JsonNumber`].
pub enum JsonNumberV {
    UInt(u64),
    NegInt(i64),
    Float(Seq<char>),
}

/// A JSON document.  An object holds its members as a sequence; a lookup
/// finds the first member with the name asked for.
#[derive(Debug)]
pub enum JsonValue {
    Null,
    Bool(bool),
    Number(JsonNumber),
    Str(String),
    Array(Vec<JsonValue>),
    Object(Vec<(String, JsonValue)>),
}

/// The mathematical view of a [`JsonValue`].
pub enum JsonV {
    Null,
    Bool(bool),
    Number(JsonNumberV),
    Str(Seq<char>),
    Array(Seq<JsonV>),
    Object(Seq<(Seq<char>, JsonV)>),
}

impl View for JsonNumber {
    type V = JsonNumberV;

    open spec fn view(&self) -> JsonNumberV {
        match self {
            JsonNumber::UInt(n) => JsonNumberV::UInt(*n),
            JsonNumber::NegInt(n) => JsonNumberV::NegInt(*n),
            JsonNumber::Float(s) => JsonNumberV::Float(s@),
        }
    }
}

impl DeepView for JsonNumber {
    type V = JsonNumberV;

    open spec fn deep_view(&self) -> JsonNumberV {
        self@
    }
}

pub open spec fn json_view(j: JsonValue) -> JsonV
    decreases j,
{
    match j {
        JsonValue::Null => JsonV::Null,
        JsonValue::Bool(b) => JsonV::Bool(b),
        JsonValue::Number(n) => JsonV::Number(n@),
        JsonValue::Str(s) => JsonV::Str(s@),
        JsonValue::Array(a) => JsonV::Array(items_view(a@)),
        JsonValue::Object(m) => JsonV::Object(members_view(m@)),
    }
}

pub open spec fn items_view(s: Seq<JsonValue>) -> Seq<JsonV>
    decreases s,
{
    if s.len() == 0 {
        Seq::empty()
    } else {
        items_view(s.subrange(0, s.len() - 1)).push(json_view(s[s.len() - 1]))
    }
}

pub open spec fn members_view(s: Seq<(String, JsonValue)>) -> Seq<(Seq<char>, JsonV)>
    decreases s,
{
    if s.len() == 0 {
        Seq::empty()
    } else {
        members_view(s.subrange(0, s.len() - 1)).push(
            (s[s.len() - 1].0@, json_view(s[s.len() - 1].1)),
        )
    }
}

impl View for JsonValue {
    type V = JsonV;

    open spec fn view(&self) -> JsonV {
        json_view(*self)
    }
}

impl DeepView for JsonValue {
    type V = JsonV;

    open spec fn deep_view(&self) -> JsonV {
        self@
    }
}

pub proof fn lemma_items_view(s: Seq<JsonValue>)
    ensures
        items_view(s).len() == s.len(),
        forall|i: int| 0 <= i < s.len() ==> #[trigger] items_view(s)[i] == json_view(s[i]),
    decreases s.len(),
{
    if s.len() > 0 {
        lemma_items_view(s.subrange(0, s.len() - 1));
    }
}

pub proof fn lemma_members_view(s: Seq<(String, JsonValue)>)
    ensures
        members_view(s).len() == s.len(),
        forall|i: int|
            0 <= i < s.len() ==> #[trigger] members_view(s)[i] == (s[i].0@, json_view(s[i].1)),
    decreases s.len(),
{
    if s.len() > 0 {
        lemma_members_view(s.subrange(0, s.len() - 1));
    }
}

/// The value of the first member named `key`, if any.
pub open spec fn lookup(members: Seq<(Seq<char>, JsonV)>, key: Seq<char>) -> Option<JsonV>
    decreases members.len(),
{
    if members.len() == 0 {
        None
    } else if members[0].0 == key {
        Some(members[0].1)
    } else {
        lookup(members.drop_first(), key)
    }
}

/// A lookup in `a + b` finds the member in `a` when `a` has one, and looks in
/// `b` otherwise.
pub broadcast proof fn lemma_lookup_append(
    a: Seq<(Seq<char>, JsonV)>,
    b: Seq<(Seq<char>, JsonV)>,
    key: Seq<char>,
)
    ensures
        #[trigger] lookup(a + b, key) == match lookup(a, key) {
            Some(v) => Some(v),
            None => lookup(b, key),
        },
    decreases a.len(),
{
    if a.len() == 0 {
        assert(a + b =~= b);
    } else {
        assert((a + b).drop_first() =~= a.drop_first() + b);
        lemma_lookup_append(a.drop_first(), b, key);
    }
}

/// A lookup in a one-member object.
pub broadcast proof fn lemma_lookup_single(name: Seq<char>, v: JsonV, key: Seq<char>)
    ensures
        #[trigger] lookup(seq![(name, v)], key) == if name == key {
            Some(v)
        } else {
            None
        },
{
    let s = seq![(name, v)];
    assert(s.len() == 1 && s[0] == (name, v));
    if name != key {
        let e = Seq::<(Seq<char>, JsonV)>::empty();
        assert(s.drop_first() =~= e);
        assert(lookup(e, key) is None);
    }
}

/// The member `key` of `j` when `j` is an object that has one.
pub open spec fn field(j: JsonV, key: Seq<char>) -> Option<JsonV> {
    match j {
        JsonV::Object(members) => lookup(members, key),
        _ => None,
    }
}

/// The member `key` of `j`, when `j` is an object that has one.
pub fn get_field<'a>(j: &'a JsonValue, key: &str) -> (r: Option<&'a JsonValue>)
    ensures
        field(j@, key@) == match r {
            Some(v) => Some(v@),
            None => None,
        },
{
    match j {
        JsonValue::Object(members) => {
            proof {
                lemma_members_view(members@);
            }
            let ghost ms = members_view(members@);
            let name = String::from_str(key);
            assert(j@ == JsonV::Object(ms));
            assert(ms.subrange(0, ms.len() as int) =~= ms);
            let mut i: usize = 0;
            while i < members.len()
                invariant
                    0 <= i <= members.len(),
                    ms == members_view(members@),
                    name@ == key@,
                    j@ == JsonV::Object(ms),
                    ms.len() == members@.len(),
                    forall|k: int|
                        0 <= k < ms.len() ==> #[trigger] ms[k] == (
                            members@[k].0@,
                            json_view(members@[k].1),
                        ),
                    lookup(ms, key@) == lookup(ms.subrange(i as int, ms.len() as int), key@),
                decreases members.len() - i,
            {
                let ghost rest = ms.subrange(i as int, ms.len() as int);
                assert(rest.drop_first() =~= ms.subrange(i + 1, ms.len() as int));
                assert(rest[0] == ms[i as int]);
                if members[i].0 == name {
                    return Some(&members[i].1);
                }
                i = i + 1;
            }
            assert(ms.subrange(i as int, ms.len() as int).len() == 0);
            None
        },
        _ => None,
    }
}

} // verus!
