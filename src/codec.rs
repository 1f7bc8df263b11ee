//! Decoding typed values out of JSON documents and encoding them back.
//!
//! Decoding follows the usual rules of the wire format: objects ignore members
//! they do not know, a required member must be present and well typed, and an
//! optional member that is absent or `null` is "no value".
use vstd::prelude::*;
use crate::json::{
    field, get_field, items_view, json_view, lemma_items_view, lemma_lookup_single,
    lemma_members_view, lookup, members_view, JsonNumber, JsonNumberV, JsonV, JsonValue,
};

verus! {

/// A type that can be read out of a JSON document.
pub trait FromJson: Sized + DeepView {
    /// What a document decodes to, or `None` when it does not have the
    /// expected shape.
    spec fn decode(j: JsonV) -> Option<Self::V>;

    fn from_json(j: &JsonValue) -> (r: Result<Self, String>)
        ensures
            match r {
                Ok(v) => Self::decode(j@) == Some(v.deep_view()),
                Err(_) => Self::decode(j@) is None,
            },
    ;
}

/// A type that can be written as a JSON document.
pub trait ToJson: Sized + DeepView {
    spec fn encode(v: Self::V) -> JsonV;

    fn to_json(&self) -> (r: JsonValue)
        ensures
            r@ == Self::encode(self.deep_view()),
    ;
}

/// What the required member `key` of `j` decodes to.
pub open spec fn required_spec<T: FromJson>(j: JsonV, key: Seq<char>) -> Option<T::V> {
    match field(j, key) {
        Some(v) => T::decode(v),
        None => None,
    }
}

/// What the optional member `key` of `j` decodes to: `Some(None)` when it is
/// absent or `null`, `None` when it is present and malformed.
pub open spec fn optional_spec<T: FromJson>(j: JsonV, key: Seq<char>) -> Option<Option<T::V>> {
    match field(j, key) {
        None => Some(None),
        Some(JsonV::Null) => Some(None),
        Some(v) => match T::decode(v) {
            Some(x) => Some(Some(x)),
            None => None,
        },
    }
}

/// Every element of `s` decodes, giving the sequence of results in order.
pub open spec fn decode_all<T: FromJson>(s: Seq<JsonV>) -> Option<Seq<T::V>> {
    if forall|i: int| 0 <= i < s.len() ==> (#[trigger] T::decode(s[i])) is Some {
        Some(Seq::new(s.len(), |i: int| T::decode(s[i])->Some_0))
    } else {
        None
    }
}

fn field_error(prefix: &str, key: &str) -> String {
    let mut msg = String::from_str(prefix);
    msg.append(key);
    msg.append("`");
    msg
}

/// Reads the required member `key` of `j`.
pub fn required<T: FromJson>(j: &JsonValue, key: &str) -> (r: Result<T, String>)
    ensures
        match r {
            Ok(v) => required_spec::<T>(j@, key@) == Some(v.deep_view()),
            Err(_) => required_spec::<T>(j@, key@) is None,
        },
{
    match get_field(j, key) {
        Some(v) => match T::from_json(v) {
            Ok(x) => Ok(x),
            Err(_) => Err(field_error("invalid value for field `", key)),
        },
        None => Err(field_error("missing field `", key)),
    }
}

/// Reads the optional member `key` of `j`; absent and `null` both give `None`.
pub fn optional<T: FromJson>(j: &JsonValue, key: &str) -> (r: Result<Option<T>, String>)
    ensures
        match r {
            Ok(v) => optional_spec::<T>(j@, key@) == Some(v.deep_view()),
            Err(_) => optional_spec::<T>(j@, key@) is None,
        },
{
    match get_field(j, key) {
        None => Ok(None),
        Some(JsonValue::Null) => Ok(None),
        Some(v) => match T::from_json(v) {
            Ok(x) => Ok(Some(x)),
            Err(_) => Err(field_error("invalid value for field `", key)),
        },
    }
}

/// Fails unless `j` is an object.
pub fn expect_object(j: &JsonValue) -> (r: Result<(), String>)
    ensures
        r is Ok <==> j@ is Object,
{
    match j {
        JsonValue::Object(_) => Ok(()),
        _ => Err(String::from_str("expected a JSON object")),
    }
}

impl FromJson for String {
    open spec fn decode(j: JsonV) -> Option<Seq<char>> {
        match j {
            JsonV::Str(s) => Some(s),
            _ => None,
        }
    }

    fn from_json(j: &JsonValue) -> (r: Result<String, String>) {
        match j {
            JsonValue::Str(s) => Ok(s.clone()),
            _ => Err(String::from_str("expected a string")),
        }
    }
}

impl FromJson for bool {
    open spec fn decode(j: JsonV) -> Option<bool> {
        match j {
            JsonV::Bool(b) => Some(b),
            _ => None,
        }
    }

    fn from_json(j: &JsonValue) -> (r: Result<bool, String>) {
        match j {
            JsonValue::Bool(b) => Ok(*b),
            _ => Err(String::from_str("expected a boolean")),
        }
    }
}

impl FromJson for u32 {
    open spec fn decode(j: JsonV) -> Option<u32> {
        match j {
            JsonV::Number(JsonNumberV::UInt(n)) => if n <= u32::MAX {
                Some(n as u32)
            } else {
                None
            },
            _ => None,
        }
    }

    fn from_json(j: &JsonValue) -> (r: Result<u32, String>) {
        match j {
            JsonValue::Number(JsonNumber::UInt(n)) => if *n <= u32::MAX as u64 {
                Ok(*n as u32)
            } else {
                Err(String::from_str("number out of range for u32"))
            },
            _ => Err(String::from_str("expected an unsigned integer")),
        }
    }
}

impl FromJson for u64 {
    open spec fn decode(j: JsonV) -> Option<u64> {
        match j {
            JsonV::Number(JsonNumberV::UInt(n)) => Some(n),
            _ => None,
        }
    }

    fn from_json(j: &JsonValue) -> (r: Result<u64, String>) {
        match j {
            JsonValue::Number(JsonNumber::UInt(n)) => Ok(*n),
            _ => Err(String::from_str("expected an unsigned integer")),
        }
    }
}

impl FromJson for JsonNumber {
    open spec fn decode(j: JsonV) -> Option<JsonNumberV> {
        match j {
            JsonV::Number(n) => Some(n),
            _ => None,
        }
    }

    fn from_json(j: &JsonValue) -> (r: Result<JsonNumber, String>) {
        match j {
            JsonValue::Number(JsonNumber::UInt(n)) => Ok(JsonNumber::UInt(*n)),
            JsonValue::Number(JsonNumber::NegInt(n)) => Ok(JsonNumber::NegInt(*n)),
            JsonValue::Number(JsonNumber::Float(s)) => Ok(JsonNumber::Float(s.clone())),
            _ => Err(String::from_str("expected a number")),
        }
    }
}

impl<T: FromJson> FromJson for Box<T> {
    open spec fn decode(j: JsonV) -> Option<T::V> {
        T::decode(j)
    }

    fn from_json(j: &JsonValue) -> (r: Result<Box<T>, String>) {
        match T::from_json(j) {
            Ok(v) => Ok(Box::new(v)),
            Err(e) => Err(e),
        }
    }
}

impl<T: FromJson> FromJson for Vec<T> {
    open spec fn decode(j: JsonV) -> Option<Seq<T::V>> {
        match j {
            JsonV::Array(s) => decode_all::<T>(s),
            _ => None,
        }
    }

    fn from_json(j: &JsonValue) -> (r: Result<Vec<T>, String>) {
        match j {
            JsonValue::Array(items) => {
                proof {
                    lemma_items_view(items@);
                }
                let ghost s = items_view(items@);
                let mut out: Vec<T> = Vec::new();
                let mut i: usize = 0;
                while i < items.len()
                    invariant
                        0 <= i <= items.len(),
                        s == items_view(items@),
                        s.len() == items@.len(),
                        j@ == JsonV::Array(s),
                        forall|k: int| 0 <= k < s.len() ==> #[trigger] s[k] == json_view(items@[k]),
                        out@.len() == i,
                        forall|k: int|
                            0 <= k < i ==> T::decode(#[trigger] s[k]) == Some(out@[k].deep_view()),
                    decreases items.len() - i,
                {
                    match T::from_json(&items[i]) {
                        Ok(v) => out.push(v),
                        Err(e) => {
                            assert(T::decode(s[i as int]) is None);
                            return Err(e);
                        },
                    }
                    i = i + 1;
                }
                assert(forall|k: int| 0 <= k < s.len() ==> (#[trigger] T::decode(s[k])) is Some);
                assert(out.deep_view() =~= Seq::new(s.len(), |k: int| T::decode(s[k])->Some_0));
                Ok(out)
            },
            _ => Err(String::from_str("expected an array")),
        }
    }
}

impl ToJson for String {
    open spec fn encode(v: Seq<char>) -> JsonV {
        JsonV::Str(v)
    }

    fn to_json(&self) -> (r: JsonValue) {
        JsonValue::Str(self.clone())
    }
}

impl ToJson for bool {
    open spec fn encode(v: bool) -> JsonV {
        JsonV::Bool(v)
    }

    fn to_json(&self) -> (r: JsonValue) {
        JsonValue::Bool(*self)
    }
}

impl<T: ToJson> ToJson for Vec<T> {
    open spec fn encode(v: Seq<T::V>) -> JsonV {
        JsonV::Array(Seq::new(v.len(), |i: int| T::encode(v[i])))
    }

    fn to_json(&self) -> (r: JsonValue) {
        let mut out: Vec<JsonValue> = Vec::new();
        let mut i: usize = 0;
        while i < self.len()
            invariant
                0 <= i <= self.len(),
                out@.len() == i,
                forall|k: int|
                    0 <= k < i ==> #[trigger] json_view(out@[k]) == T::encode(
                        self@[k].deep_view(),
                    ),
            decreases self.len() - i,
        {
            let e = self[i].to_json();
            out.push(e);
            i = i + 1;
        }
        proof {
            lemma_items_view(out@);
            assert(items_view(out@) =~= Seq::new(
                self.deep_view().len(),
                |k: int| T::encode(self.deep_view()[k]),
            ));
        }
        JsonValue::Array(out)
    }
}

impl ToJson for u32 {
    open spec fn encode(v: u32) -> JsonV {
        JsonV::Number(JsonNumberV::UInt(v as u64))
    }

    fn to_json(&self) -> (r: JsonValue) {
        JsonValue::Number(JsonNumber::UInt(*self as u64))
    }
}

impl ToJson for u64 {
    open spec fn encode(v: u64) -> JsonV {
        JsonV::Number(JsonNumberV::UInt(v))
    }

    fn to_json(&self) -> (r: JsonValue) {
        JsonValue::Number(JsonNumber::UInt(*self))
    }
}

impl ToJson for JsonNumber {
    open spec fn encode(v: JsonNumberV) -> JsonV {
        JsonV::Number(v)
    }

    fn to_json(&self) -> (r: JsonValue) {
        match self {
            JsonNumber::UInt(n) => JsonValue::Number(JsonNumber::UInt(*n)),
            JsonNumber::NegInt(n) => JsonValue::Number(JsonNumber::NegInt(*n)),
            JsonNumber::Float(s) => JsonValue::Number(JsonNumber::Float(s.clone())),
        }
    }
}

impl<T: ToJson> ToJson for Box<T> {
    open spec fn encode(v: T::V) -> JsonV {
        T::encode(v)
    }

    fn to_json(&self) -> (r: JsonValue) {
        let inner: &T = &**self;
        inner.to_json()
    }
}

/// Decoding what an encoded sequence became gives the sequence back, when
/// that holds of each element.
pub proof fn lemma_vec_round_trip<T: FromJson + ToJson>(v: Seq<<T as DeepView>::V>)
    requires
        forall|x: <T as DeepView>::V| #[trigger] T::decode(T::encode(x)) == Some(x),
    ensures
        Vec::<T>::decode(Vec::<T>::encode(v)) == Some(v),
{
    let s = Seq::new(v.len(), |i: int| T::encode(v[i]));
    assert(forall|i: int| 0 <= i < s.len() ==> T::decode(s[i]) == Some(v[i]));
    assert(Seq::new(s.len(), |i: int| T::decode(s[i])->Some_0) =~= v);
}

/// The members that an object gets for an optional value: none when absent.
pub open spec fn optional_member<T: ToJson>(key: Seq<char>, v: Option<T::V>) -> Seq<
    (Seq<char>, JsonV),
> {
    match v {
        Some(x) => seq![(key, T::encode(x))],
        None => Seq::empty(),
    }
}

/// A lookup in the members an optional value contributes.
pub broadcast proof fn lemma_lookup_optional_member<T: ToJson>(
    name: Seq<char>,
    v: Option<T::V>,
    key: Seq<char>,
)
    ensures
        #[trigger] lookup(optional_member::<T>(name, v), key) == if name == key {
            match v {
                Some(x) => Some(T::encode(x)),
                None => None,
            }
        } else {
            None
        },
{
    broadcast use lemma_lookup_single;

}

/// Appends the member `key: v` to an object under construction.
pub fn push_member<T: ToJson>(members: &mut Vec<(String, JsonValue)>, key: &str, v: &T)
    ensures
        members_view(final(members)@) == members_view(old(members)@).push(
            (key@, T::encode(v.deep_view())),
        ),
        members_view(final(members)@) == members_view(old(members)@) + seq![
            (key@, T::encode(v.deep_view())),
        ],
{
    let e = v.to_json();
    members.push((String::from_str(key), e));
    proof {
        assert(final(members)@.subrange(0, final(members)@.len() - 1) =~= old(members)@);
        assert(members_view(old(members)@).push((key@, T::encode(v.deep_view())))
            =~= members_view(old(members)@) + seq![(key@, T::encode(v.deep_view()))]);
    }
}

/// Appends the member `key: v` when `v` holds a value; leaves the object as it
/// is otherwise, so that an absent value is absent from the document.
pub fn push_optional<T: ToJson>(
    members: &mut Vec<(String, JsonValue)>,
    key: &str,
    v: &Option<T>,
)
    ensures
        members_view(final(members)@) == members_view(old(members)@) + optional_member::<T>(
            key@,
            v.deep_view(),
        ),
{
    match v {
        Some(x) => {
            push_member(members, key, x);
            assert(members_view(old(members)@).push((key@, T::encode(x.deep_view())))
                =~= members_view(old(members)@) + seq![(key@, T::encode(x.deep_view()))]);
        },
        None => {
            assert(members_view(old(members)@) + Seq::empty() =~= members_view(old(members)@));
        },
    }
}


/// Values keyed by identifier, decoded from a JSON object: one entry per
/// member of the object, in the sequence the object holds them; [`IdMap::get`]
/// finds the first entry with a given key.
#[derive(Debug, Clone)]
pub struct IdMap<T> {
    pub entries: Vec<(String, T)>,
}

impl<T: DeepView> DeepView for IdMap<T> {
    type V = Seq<(Seq<char>, T::V)>;

    open spec fn deep_view(&self) -> Seq<(Seq<char>, T::V)> {
        self.entries.deep_view()
    }
}

/// The value that the first entry named `key` holds, if any.
pub open spec fn entry_lookup<V>(entries: Seq<(Seq<char>, V)>, key: Seq<char>) -> Option<V>
    decreases entries.len(),
{
    if entries.len() == 0 {
        None
    } else if entries[0].0 == key {
        Some(entries[0].1)
    } else {
        entry_lookup(entries.drop_first(), key)
    }
}

impl<T: DeepView> IdMap<T> {
    /// The value stored under `key`.
    pub fn get(&self, key: &str) -> (r: Option<&T>)
        ensures
            entry_lookup(self.deep_view(), key@) == match r {
                Some(v) => Some(v.deep_view()),
                None => None,
            },
    {
        let ghost es = self.deep_view();
        let name = String::from_str(key);
        assert(es.subrange(0, es.len() as int) =~= es);
        let mut i: usize = 0;
        while i < self.entries.len()
            invariant
                0 <= i <= self.entries.len(),
                es == self.deep_view(),
                name@ == key@,
                es.len() == self.entries@.len(),
                entry_lookup(es, key@) == entry_lookup(es.subrange(i as int, es.len() as int), key@),
            decreases self.entries.len() - i,
        {
            let ghost rest = es.subrange(i as int, es.len() as int);
            assert(rest.drop_first() =~= es.subrange(i + 1, es.len() as int));
            assert(rest[0] == es[i as int]);
            if self.entries[i].0 == name {
                return Some(&self.entries[i].1);
            }
            i = i + 1;
        }
        assert(es.subrange(i as int, es.len() as int).len() == 0);
        None
    }
}

impl<T: FromJson> FromJson for IdMap<T> {
    open spec fn decode(j: JsonV) -> Option<Seq<(Seq<char>, T::V)>> {
        match j {
            JsonV::Object(m) => if forall|i: int|
                0 <= i < m.len() ==> (#[trigger] T::decode(m[i].1)) is Some {
                Some(Seq::new(m.len(), |i: int| (m[i].0, T::decode(m[i].1)->Some_0)))
            } else {
                None
            },
            _ => None,
        }
    }

    fn from_json(j: &JsonValue) -> (r: Result<IdMap<T>, String>) {
        match j {
            JsonValue::Object(members) => {
                proof {
                    lemma_members_view(members@);
                }
                let ghost m = members_view(members@);
                let mut out: Vec<(String, T)> = Vec::new();
                let mut i: usize = 0;
                while i < members.len()
                    invariant
                        0 <= i <= members.len(),
                        m == members_view(members@),
                        m.len() == members@.len(),
                        j@ == JsonV::Object(m),
                        forall|k: int|
                            0 <= k < m.len() ==> #[trigger] m[k] == (
                                members@[k].0@,
                                json_view(members@[k].1),
                            ),
                        out@.len() == i,
                        forall|k: int|
                            0 <= k < i ==> T::decode(#[trigger] m[k].1) == Some(out@[k].1.deep_view())
                                && out@[k].0@ == m[k].0,
                    decreases members.len() - i,
                {
                    match T::from_json(&members[i].1) {
                        Ok(v) => out.push((members[i].0.clone(), v)),
                        Err(e) => {
                            assert(T::decode(m[i as int].1) is None);
                            return Err(e);
                        },
                    }
                    i = i + 1;
                }
                assert(forall|k: int| 0 <= k < m.len() ==> (#[trigger] T::decode(m[k].1)) is Some);
                let r = IdMap { entries: out };
                assert(r.deep_view() =~= Seq::new(
                    m.len(),
                    |k: int| (m[k].0, T::decode(m[k].1)->Some_0),
                ));
                Ok(r)
            },
            _ => Err(String::from_str("expected a JSON object")),
        }
    }
}

impl<T: ToJson> ToJson for IdMap<T> {
    open spec fn encode(v: Seq<(Seq<char>, T::V)>) -> JsonV {
        JsonV::Object(Seq::new(v.len(), |i: int| (v[i].0, T::encode(v[i].1))))
    }

    fn to_json(&self) -> (r: JsonValue) {
        let mut out: Vec<(String, JsonValue)> = Vec::new();
        let mut i: usize = 0;
        while i < self.entries.len()
            invariant
                0 <= i <= self.entries.len(),
                out@.len() == i,
                forall|k: int| 0 <= k < i ==> (#[trigger] out@[k]).0@ == self.entries@[k].0@,
                forall|k: int|
                    0 <= k < i ==> json_view((#[trigger] out@[k]).1) == T::encode(
                        self.entries@[k].1.deep_view(),
                    ),
            decreases self.entries.len() - i,
        {
            let e = self.entries[i].1.to_json();
            let name = self.entries[i].0.clone();
            let ghost before = out@;
            out.push((name, e));
            assert(forall|k: int| 0 <= k < i ==> out@[k] == before[k]);
            assert(out@[i as int].0@ == self.entries@[i as int].0@);
            assert(json_view(out@[i as int].1) == T::encode(self.entries@[i as int].1.deep_view()));
            i = i + 1;
        }
        proof {
            lemma_members_view(out@);
            let v = self.deep_view();
            assert(members_view(out@) =~= Seq::new(v.len(), |k: int| (v[k].0, T::encode(v[k].1))));
        }
        JsonValue::Object(out)
    }
}

/// Decoding what an encoded map became gives the map back, when that holds
/// of each value.
pub proof fn lemma_id_map_round_trip<T: FromJson + ToJson>(v: Seq<(Seq<char>, <T as DeepView>::V)>)
    requires
        forall|x: <T as DeepView>::V| #[trigger] T::decode(T::encode(x)) == Some(x),
    ensures
        IdMap::<T>::decode(IdMap::<T>::encode(v)) == Some(v),
{
    let m = Seq::new(v.len(), |i: int| (v[i].0, T::encode(v[i].1)));
    assert(forall|i: int| 0 <= i < m.len() ==> T::decode(m[i].1) == Some(v[i].1));
    assert(Seq::new(m.len(), |i: int| (m[i].0, T::decode(m[i].1)->Some_0)) =~= v);
}

} // verus!
