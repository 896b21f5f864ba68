//! JSON values as the request and response bodies of the providers carry them.
use vstd::prelude::*;
use crate::text::str_equal;

verus! {

/// A JSON number, as `serde_json` holds one.
#[derive(Clone, Copy, Debug, PartialEq, Eq, Structural)]
pub enum JsonNumber {
    /// A non-negative integer.
    PosInt(u64),
    /// A negative integer.
    NegInt(i64),
    /// A floating-point number, by the bits of its `f64`.
    Float(u64),
}

/// A JSON value.
#[derive(Debug, PartialEq)]
pub enum Json {
    Null,
    Bool(bool),
    Number(JsonNumber),
    /// The value that `serde_json` makes of the `f32` with these bits: a number, or
    /// `null` where the float is not finite.
    Float32(u32),
    Str(String),
    Array(Vec<Json>),
    /// An object, as its entries in order.
    Object(Vec<(String, Json)>),
}

/// The mathematical value of a [`Json`].
pub enum JsonV {
    Null,
    Bool(bool),
    Number(JsonNumber),
    Float32(u32),
    Str(Seq<char>),
    Array(Seq<JsonV>),
    Object(Seq<(Seq<char>, JsonV)>),
}

impl Json {
    pub open spec fn value(self) -> JsonV
        decreases self,
    {
        match self {
            Json::Null => JsonV::Null,
            Json::Bool(b) => JsonV::Bool(b),
            Json::Number(n) => JsonV::Number(n),
            Json::Float32(b) => JsonV::Float32(b),
            Json::Str(s) => JsonV::Str(s@),
            Json::Array(v) => JsonV::Array(
                Seq::new(
                    v@.len(),
                    |i: int|
                        if 0 <= i < v@.len() {
                            v@[i].value()
                        } else {
                            JsonV::Null
                        },
                ),
            ),
            Json::Object(v) => JsonV::Object(
                Seq::new(
                    v@.len(),
                    |i: int|
                        if 0 <= i < v@.len() {
                            (v@[i].0@, v@[i].1.value())
                        } else {
                            (Seq::empty(), JsonV::Null)
                        },
                ),
            ),
        }
    }
}

impl View for Json {
    type V = JsonV;

    open spec fn view(&self) -> JsonV {
        self.value()
    }
}

/// The value of the first entry whose key is `key`.
pub open spec fn assoc(entries: Seq<(Seq<char>, JsonV)>, key: Seq<char>) -> Option<JsonV>
    decreases entries.len(),
{
    if entries.len() == 0 {
        None
    } else if entries[0].0 == key {
        Some(entries[0].1)
    } else {
        assoc(entries.drop_first(), key)
    }
}

/// `Value::get` with a key: the member of an object, if it has one.
pub open spec fn get_v(j: JsonV, key: Seq<char>) -> Option<JsonV> {
    match j {
        JsonV::Object(entries) => assoc(entries, key),
        _ => None,
    }
}

/// `value[key]`: the member, or `null` where there is none.
pub open spec fn index_v(j: JsonV, key: Seq<char>) -> JsonV {
    match get_v(j, key) {
        Some(v) => v,
        None => JsonV::Null,
    }
}

/// `Value::as_str`.
pub open spec fn as_str_v(j: JsonV) -> Option<Seq<char>> {
    match j {
        JsonV::Str(s) => Some(s),
        _ => None,
    }
}

/// `Value::as_array`.
pub open spec fn as_array_v(j: JsonV) -> Option<Seq<JsonV>> {
    match j {
        JsonV::Array(a) => Some(a),
        _ => None,
    }
}

/// `Value::as_u64`: only a non-negative integer is one.
pub open spec fn as_u64_v(j: JsonV) -> Option<u64> {
    match j {
        JsonV::Number(JsonNumber::PosInt(n)) => Some(n),
        _ => None,
    }
}

/// `o.and_then(|v| v.get(key))`.
pub open spec fn opt_get(o: Option<JsonV>, key: Seq<char>) -> Option<JsonV> {
    match o {
        Some(j) => get_v(j, key),
        None => None,
    }
}

/// `o.and_then(|v| v.as_str())`.
pub open spec fn opt_str(o: Option<JsonV>) -> Option<Seq<char>> {
    match o {
        Some(j) => as_str_v(j),
        None => None,
    }
}

/// `o.and_then(|v| v.as_u64())`.
pub open spec fn opt_u64(o: Option<JsonV>) -> Option<u64> {
    match o {
        Some(j) => as_u64_v(j),
        None => None,
    }
}

/// `o.and_then(|v| v.as_array()).and_then(|a| a.first())`.
pub open spec fn opt_first(o: Option<JsonV>) -> Option<JsonV> {
    match o {
        Some(JsonV::Array(a)) => if a.len() > 0 { Some(a[0]) } else { None },
        _ => None,
    }
}

/// The view of an optional value.
pub open spec fn opt_view(o: Option<&Json>) -> Option<JsonV> {
    match o {
        Some(j) => Some(j@),
        None => None,
    }
}

/// The view of a sequence of values.
pub open spec fn values_of(v: Seq<Json>) -> Seq<JsonV> {
    Seq::new(v.len(), |i: int| v[i]@)
}

/// The view of a sequence of object entries.
pub open spec fn entries_of(v: Seq<(String, Json)>) -> Seq<(Seq<char>, JsonV)> {
    Seq::new(v.len(), |i: int| (v[i].0@, v[i].1@))
}

pub proof fn lemma_array_view(v: Vec<Json>)
    ensures
        Json::Array(v)@ == JsonV::Array(values_of(v@)),
{
    assert(values_of(v@) =~= match Json::Array(v)@ {
        JsonV::Array(a) => a,
        _ => Seq::empty(),
    });
}

pub proof fn lemma_object_view(v: Vec<(String, Json)>)
    ensures
        Json::Object(v)@ == JsonV::Object(entries_of(v@)),
{
    assert(entries_of(v@) =~= match Json::Object(v)@ {
        JsonV::Object(a) => a,
        _ => Seq::empty(),
    });
}

impl Json {
    /// `Value::get` with a key.
    pub fn get(&self, key: &str) -> (res: Option<&Json>)
        ensures
            res matches Some(r) ==> get_v(self@, key@) == Some(r@),
            res is None ==> get_v(self@, key@) is None,
    {
        match self {
            Json::Object(entries) => {
                let ghost e = entries_of(entries@);
                proof {
                    lemma_object_view(*entries);
                }
                assert(e.skip(0) =~= e);
                let mut i: usize = 0;
                while i < entries.len()
                    invariant
                        i <= entries.len(),
                        e.len() == entries@.len(),
                        e == entries_of(entries@),
                        get_v(self@, key@) == assoc(e, key@),
                        assoc(e, key@) == assoc(e.skip(i as int), key@),
                    decreases entries.len() - i,
                {
                    assert(e.skip(i as int)[0] == e[i as int]);
                    assert(e.skip(i as int).drop_first() =~= e.skip(i + 1));
                    if str_equal(entries[i].0.as_str(), key) {
                        return Some(&entries[i].1);
                    }
                    i = i + 1;
                }
                assert(e.skip(i as int) =~= Seq::<(Seq<char>, JsonV)>::empty());
                None
            },
            _ => None,
        }
    }

    /// `Value::as_str`.
    pub fn as_str(&self) -> (res: Option<&String>)
        ensures
            res matches Some(r) ==> as_str_v(self@) == Some(r@),
            res is None ==> as_str_v(self@) is None,
    {
        match self {
            Json::Str(s) => Some(s),
            _ => None,
        }
    }

    /// `Value::as_array`.
    pub fn as_array(&self) -> (res: Option<&Vec<Json>>)
        ensures
            res matches Some(r) ==> as_array_v(self@) == Some(values_of(r@)),
            res is None ==> as_array_v(self@) is None,
    {
        match self {
            Json::Array(v) => {
                proof {
                    lemma_array_view(*v);
                }
                Some(v)
            },
            _ => None,
        }
    }

    /// `Value::as_u64`.
    pub fn as_u64(&self) -> (res: Option<u64>)
        ensures
            res == as_u64_v(self@),
    {
        match self {
            Json::Number(JsonNumber::PosInt(n)) => Some(*n),
            _ => None,
        }
    }

    /// A copy of this value.
    pub fn deep_clone(&self) -> (res: Json)
        ensures
            res@ == self@,
        decreases self,
    {
        match self {
            Json::Null => Json::Null,
            Json::Bool(b) => Json::Bool(*b),
            Json::Number(n) => Json::Number(*n),
            Json::Float32(b) => Json::Float32(*b),
            Json::Str(s) => Json::Str(s.clone()),
            Json::Array(v) => {
                let mut out: Vec<Json> = Vec::new();
                let mut i: usize = 0;
                while i < v.len()
                    invariant
                        i <= v.len(),
                        out@.len() == i,
                        *self == Json::Array(*v),
                        forall|k: int| 0 <= k < i ==> #[trigger] out@[k]@ == v@[k]@,
                    decreases v.len() - i,
                {
                    assert(decreases_to!(*self => (*self)->Array_0));
                    assert(decreases_to!(*v => v@));
                    assert(decreases_to!(v@ => v@[i as int]));
                    let c = v[i].deep_clone();
                    out.push(c);
                    i = i + 1;
                }
                proof {
                    lemma_array_view(out);
                    lemma_array_view(*v);
                    assert(values_of(out@) =~= values_of(v@));
                }
                Json::Array(out)
            },
            Json::Object(v) => {
                let mut out: Vec<(String, Json)> = Vec::new();
                let mut i: usize = 0;
                while i < v.len()
                    invariant
                        i <= v.len(),
                        out@.len() == i,
                        *self == Json::Object(*v),
                        forall|k: int|
                            0 <= k < i ==> #[trigger] out@[k].0@ == v@[k].0@ && out@[k].1@ == v@[k].1@,
                    decreases v.len() - i,
                {
                    assert(decreases_to!(*self => (*self)->Object_0));
                    assert(decreases_to!(*v => v@));
                    assert(decreases_to!(v@ => v@[i as int]));
                    assert(decreases_to!(v@[i as int] => v@[i as int].1));
                    let c = v[i].1.deep_clone();
                    out.push((v[i].0.clone(), c));
                    i = i + 1;
                }
                proof {
                    lemma_object_view(out);
                    lemma_object_view(*v);
                    assert(entries_of(out@) =~= entries_of(v@));
                }
                Json::Object(out)
            },
        }
    }
}

/// `o.and_then(|v| v.get(key))`.
pub fn opt_get_exec<'a>(o: Option<&'a Json>, key: &str) -> (res: Option<&'a Json>)
    ensures
        res matches Some(r) ==> opt_get(opt_view(o), key@) == Some(r@),
        res is None ==> opt_get(opt_view(o), key@) is None,
{
    match o {
        Some(j) => j.get(key),
        None => None,
    }
}

/// `o.and_then(|v| v.as_str())`.
pub fn opt_str_exec<'a>(o: Option<&'a Json>) -> (res: Option<&'a String>)
    ensures
        res matches Some(r) ==> opt_str(opt_view(o)) == Some(r@),
        res is None ==> opt_str(opt_view(o)) is None,
{
    match o {
        Some(j) => j.as_str(),
        None => None,
    }
}

/// `o.and_then(|v| v.as_u64())`.
pub fn opt_u64_exec(o: Option<&Json>) -> (res: Option<u64>)
    ensures
        res == opt_u64(opt_view(o)),
{
    match o {
        Some(j) => j.as_u64(),
        None => None,
    }
}

/// `o.and_then(|v| v.as_array()).and_then(|a| a.first())`.
pub fn opt_first_exec<'a>(o: Option<&'a Json>) -> (res: Option<&'a Json>)
    ensures
        res matches Some(r) ==> opt_first(opt_view(o)) == Some(r@),
        res is None ==> opt_first(opt_view(o)) is None,
{
    match o {
        Some(j) => match j.as_array() {
            Some(a) => {
                if a.len() > 0 {
                    Some(&a[0])
                } else {
                    None
                }
            },
            None => None,
        },
        None => None,
    }
}

/// A string value.
pub fn json_str(s: &str) -> (res: Json)
    ensures
        res@ == JsonV::Str(s@),
{
    Json::Str(s.to_owned())
}

/// A non-negative integer value.
pub fn json_u32(n: u32) -> (res: Json)
    ensures
        res@ == JsonV::Number(JsonNumber::PosInt(n as u64)),
{
    Json::Number(JsonNumber::PosInt(n as u64))
}

/// An object entry.
pub fn entry(key: &str, value: Json) -> (res: (String, Json))
    ensures
        res.0@ == key@,
        res.1 == value,
{
    (key.to_owned(), value)
}

/// An object of the given entries.
pub fn json_object(entries: Vec<(String, Json)>) -> (res: Json)
    ensures
        res@ == JsonV::Object(entries_of(entries@)),
{
    proof {
        lemma_object_view(entries);
    }
    Json::Object(entries)
}

/// An array of the given values.
pub fn json_array(values: Vec<Json>) -> (res: Json)
    ensures
        res@ == JsonV::Array(values_of(values@)),
{
    proof {
        lemma_array_view(values);
    }
    Json::Array(values)
}

} // verus!
