//! A model of JSON values, as a gateway payload is read and written.
//!
//! Objects keep their entries in order. A well-formed value (`json_wf`)
//! lists each object's keys in strictly ascending order, the order in which
//! the default `serde_json` map lists them, and holds a negative integer only
//! as `NegInt`; a value read from text is well-formed.

use vstd::prelude::*;
use serde_json::Value;

verus! {

#[verifier::external_type_specification]
#[verifier::external_body]
pub struct ExSerdeNumber(serde_json::Number);

/// A JSON number: a non-negative integer, a negative integer, or another
/// number (one with a fraction or an exponent), held as `serde_json` holds
/// it.
#[derive(Debug, PartialEq, Eq)]
pub enum JsonNumber {
    PosInt(u64),
    NegInt(i64),
    Float(serde_json::Number),
}

/// The mathematical form of a JSON number; another number is carried as it
/// is.
pub enum NumberModel {
    PosInt(u64),
    NegInt(i64),
    Float(serde_json::Number),
}

pub open spec fn number_of(n: JsonNumber) -> NumberModel {
    match n {
        JsonNumber::PosInt(u) => NumberModel::PosInt(u),
        JsonNumber::NegInt(i) => NumberModel::NegInt(i),
        JsonNumber::Float(f) => NumberModel::Float(f),
    }
}

/// A JSON value.
#[derive(Debug, PartialEq, Eq)]
pub enum JsonValue {
    Null,
    Bool(bool),
    Number(JsonNumber),
    Text(String),
    Array(Vec<JsonValue>),
    Object(Vec<(String, JsonValue)>),
}

/// The mathematical form of a JSON value: strings as sequences of
/// characters, arrays and objects as sequences.
pub enum Json {
    Null,
    Bool(bool),
    Number(NumberModel),
    Text(Seq<char>),
    Array(Seq<Json>),
    Object(Seq<(Seq<char>, Json)>),
}

pub open spec fn json_of(v: JsonValue) -> Json
    decreases v,
{
    match v {
        JsonValue::Null => Json::Null,
        JsonValue::Bool(b) => Json::Bool(b),
        JsonValue::Number(n) => Json::Number(number_of(n)),
        JsonValue::Text(s) => Json::Text(s@),
        JsonValue::Array(a) => Json::Array(json_seq_of(a@)),
        JsonValue::Object(m) => Json::Object(json_entries_of(m@)),
    }
}

pub open spec fn json_seq_of(a: Seq<JsonValue>) -> Seq<Json>
    decreases a,
{
    if a.len() == 0 {
        Seq::empty()
    } else {
        json_seq_of(a.subrange(0, a.len() - 1)).push(json_of(a[a.len() - 1]))
    }
}

pub open spec fn json_entries_of(m: Seq<(String, JsonValue)>) -> Seq<(Seq<char>, Json)>
    decreases m,
{
    if m.len() == 0 {
        Seq::empty()
    } else {
        json_entries_of(m.subrange(0, m.len() - 1)).push(
            (m[m.len() - 1].0@, json_of(m[m.len() - 1].1)),
        )
    }
}

impl View for JsonValue {
    type V = Json;

    open spec fn view(&self) -> Json {
        json_of(*self)
    }
}

/// A non-negative integer.
pub open spec fn num(n: u64) -> Json {
    Json::Number(NumberModel::PosInt(n))
}

/// An object of one entry.
pub open spec fn obj1(k1: Seq<char>, v1: Json) -> Json {
    Json::Object(seq![(k1, v1)])
}

/// An object of two entries, in the order given.
pub open spec fn obj2(k1: Seq<char>, v1: Json, k2: Seq<char>, v2: Json) -> Json {
    Json::Object(seq![(k1, v1), (k2, v2)])
}

/// An object of three entries, in the order given.
pub open spec fn obj3(
    k1: Seq<char>,
    v1: Json,
    k2: Seq<char>,
    v2: Json,
    k3: Seq<char>,
    v3: Json,
) -> Json {
    Json::Object(seq![(k1, v1), (k2, v2), (k3, v3)])
}

/// The value stored under `key` in an object's entries: the first entry
/// with that key, as `serde_json::Map::get` gives it for a map, which holds
/// each key once.
pub open spec fn entries_get(m: Seq<(Seq<char>, Json)>, key: Seq<char>) -> Option<Json>
    decreases m.len(),
{
    if m.len() == 0 {
        None
    } else if m[0].0 == key {
        Some(m[0].1)
    } else {
        entries_get(m.drop_first(), key)
    }
}

/// `serde_json::Value::get` with a string index: the value under `key`
/// when `j` is an object, and nothing otherwise.
pub open spec fn json_get(j: Json, key: Seq<char>) -> Option<Json> {
    match j {
        Json::Object(m) => entries_get(m, key),
        _ => None,
    }
}

/// `serde_json::Value::as_u64`: the number when `j` is a non-negative
/// integer.
pub open spec fn json_as_u64(j: Json) -> Option<u64> {
    match j {
        Json::Number(NumberModel::PosInt(n)) => Some(n),
        _ => None,
    }
}

/// Looking a key up in an object of one entry.
pub proof fn lemma_get_obj1(k1: Seq<char>, v1: Json, key: Seq<char>)
    ensures
        json_get(obj1(k1, v1), key) == if key == k1 {
            Some(v1)
        } else {
            None::<Json>
        },
{
    let m = seq![(k1, v1)];
    assert(m.drop_first() =~= Seq::<(Seq<char>, Json)>::empty());
    reveal_with_fuel(entries_get, 2);
}

/// Looking a key up in an object of two entries: the first entry with the
/// key wins.
pub proof fn lemma_get_obj2(k1: Seq<char>, v1: Json, k2: Seq<char>, v2: Json, key: Seq<char>)
    ensures
        json_get(obj2(k1, v1, k2, v2), key) == if key == k1 {
            Some(v1)
        } else if key == k2 {
            Some(v2)
        } else {
            None::<Json>
        },
{
    let m = seq![(k1, v1), (k2, v2)];
    assert(m.drop_first() =~= seq![(k2, v2)]);
    assert(m.drop_first().drop_first() =~= Seq::<(Seq<char>, Json)>::empty());
    reveal_with_fuel(entries_get, 3);
}

/// Looking a key up in an object of three entries: the first entry with the
/// key wins.
pub proof fn lemma_get_obj3(
    k1: Seq<char>,
    v1: Json,
    k2: Seq<char>,
    v2: Json,
    k3: Seq<char>,
    v3: Json,
    key: Seq<char>,
)
    ensures
        json_get(obj3(k1, v1, k2, v2, k3, v3), key) == if key == k1 {
            Some(v1)
        } else if key == k2 {
            Some(v2)
        } else if key == k3 {
            Some(v3)
        } else {
            None::<Json>
        },
{
    let m = seq![(k1, v1), (k2, v2), (k3, v3)];
    assert(m.drop_first() =~= seq![(k2, v2), (k3, v3)]);
    assert(m.drop_first().drop_first() =~= seq![(k3, v3)]);
    assert(m.drop_first().drop_first().drop_first() =~= Seq::<(Seq<char>, Json)>::empty());
    reveal_with_fuel(entries_get, 4);
}

/// The model of an array has the array's length, and each element is the
/// model of the element at the same place.
pub proof fn lemma_json_seq_of(a: Seq<JsonValue>)
    ensures
        json_seq_of(a).len() == a.len(),
        forall|i: int| 0 <= i < a.len() ==> #[trigger] json_seq_of(a)[i] == json_of(a[i]),
    decreases a.len(),
{
    if a.len() > 0 {
        lemma_json_seq_of(a.subrange(0, a.len() - 1));
    }
}

/// The model of an object has one entry for each entry of the object, with
/// the same key, in the same place.
pub proof fn lemma_json_entries_of(m: Seq<(String, JsonValue)>)
    ensures
        json_entries_of(m).len() == m.len(),
        forall|i: int|
            0 <= i < m.len() ==> #[trigger] json_entries_of(m)[i] == (m[i].0@, json_of(m[i].1)),
    decreases m.len(),
{
    if m.len() > 0 {
        lemma_json_entries_of(m.subrange(0, m.len() - 1));
    }
}

/// Looking a key up from a place on finds what a lookup from the start
/// finds, when no earlier entry holds the key.
proof fn lemma_entries_get_skip(m: Seq<(Seq<char>, Json)>, key: Seq<char>, i: int)
    requires
        0 <= i <= m.len(),
        forall|j: int| 0 <= j < i ==> #[trigger] m[j].0 != key,
    ensures
        entries_get(m, key) == entries_get(m.subrange(i, m.len() as int), key),
    decreases i,
{
    if i > 0 {
        assert(m.drop_first() =~= m.subrange(1, m.len() as int));
        lemma_entries_get_skip(m.drop_first(), key, i - 1);
        assert(m.drop_first().subrange(i - 1, m.drop_first().len() as int) =~= m.subrange(
            i,
            m.len() as int,
        ));
    } else {
        assert(m.subrange(0, m.len() as int) =~= m);
    }
}

/// Whether two strings are equal.
#[verifier::external_body]
fn str_eq(a: &str, b: &str) -> (r: bool)
    ensures
        r == (a@ == b@),
{
    a == b
}

#[verifier::external_type_specification]
#[verifier::external_body]
pub struct ExSerdeValue(serde_json::Value);

#[verifier::external_type_specification]
#[verifier::external_body]
pub struct ExSerdeError(serde_json::Error);

/// Whether text `a` comes strictly before text `b`, character by character
/// (the order of `String`, which compares UTF-8 bytes).
pub open spec fn text_lt(a: Seq<char>, b: Seq<char>) -> bool
    decreases a.len(),
{
    if a.len() == 0 {
        b.len() > 0
    } else if b.len() == 0 {
        false
    } else if a[0] == b[0] {
        text_lt(a.drop_first(), b.drop_first())
    } else {
        (a[0] as u32) < (b[0] as u32)
    }
}

/// Whether a value is well-formed: every object lists its keys in strictly
/// ascending order, every negative integer is a `NegInt`, and, unless
/// `floats` allows them, no other number occurs.
pub open spec fn json_wf_with(j: Json, floats: bool) -> bool
    decreases j,
{
    match j {
        Json::Number(NumberModel::NegInt(i)) => i < 0,
        Json::Number(NumberModel::Float(_)) => floats,
        Json::Array(a) => seq_wf_with(a, floats),
        Json::Object(m) => entries_wf_with(m, floats),
        _ => true,
    }
}

pub open spec fn seq_wf_with(a: Seq<Json>, floats: bool) -> bool
    decreases a,
{
    if a.len() == 0 {
        true
    } else {
        seq_wf_with(a.subrange(0, a.len() - 1), floats) && json_wf_with(a[a.len() - 1], floats)
    }
}

pub open spec fn entries_wf_with(m: Seq<(Seq<char>, Json)>, floats: bool) -> bool
    decreases m,
{
    if m.len() == 0 {
        true
    } else {
        &&& entries_wf_with(m.subrange(0, m.len() - 1), floats)
        &&& json_wf_with(m[m.len() - 1].1, floats)
        &&& m.len() >= 2 ==> text_lt(m[m.len() - 2].0, m[m.len() - 1].0)
    }
}

/// Whether a value is well-formed.
pub open spec fn json_wf(j: Json) -> bool {
    json_wf_with(j, true)
}

/// How deeply arrays and objects nest in a value.
pub open spec fn json_depth(j: Json) -> nat
    decreases j,
{
    match j {
        Json::Array(a) => 1 + seq_depth(a),
        Json::Object(m) => 1 + entries_depth(m),
        _ => 0,
    }
}

pub open spec fn seq_depth(a: Seq<Json>) -> nat
    decreases a,
{
    if a.len() == 0 {
        0
    } else {
        let d = json_depth(a[a.len() - 1]);
        let e = seq_depth(a.subrange(0, a.len() - 1));
        if d > e {
            d
        } else {
            e
        }
    }
}

pub open spec fn entries_depth(m: Seq<(Seq<char>, Json)>) -> nat
    decreases m,
{
    if m.len() == 0 {
        0
    } else {
        let d = json_depth(m[m.len() - 1].1);
        let e = entries_depth(m.subrange(0, m.len() - 1));
        if d > e {
            d
        } else {
            e
        }
    }
}

/// The deepest nesting of arrays and objects that `serde_json::from_str`
/// reads.
pub open spec fn max_read_depth() -> nat {
    127
}

/// Scalars are well-formed (a negative integer as `NegInt`) and do not nest.
pub proof fn lemma_scalar_wf_depth(j: Json, floats: bool)
    requires
        !(j is Array),
        !(j is Object),
        !(j is Number) || j->Number_0 is PosInt || (j->Number_0 is NegInt
            && j->Number_0->NegInt_0 < 0),
    ensures
        json_wf_with(j, floats),
        json_depth(j) == 0,
{
}

/// An object of one entry is well-formed when its value is, and nests one
/// deeper.
pub proof fn lemma_obj1_wf_depth(k1: Seq<char>, v1: Json, floats: bool)
    ensures
        json_wf_with(obj1(k1, v1), floats) == json_wf_with(v1, floats),
        json_depth(obj1(k1, v1)) == 1 + json_depth(v1),
{
    let m = seq![(k1, v1)];
    let e = m.subrange(0, 0);
    assert(e =~= Seq::<(Seq<char>, Json)>::empty());
    assert(entries_wf_with(e, floats));
    assert(entries_depth(e) == 0);
    assert(m[m.len() - 1].1 == v1);
    assert(entries_wf_with(m, floats) == json_wf_with(v1, floats));
    assert(entries_depth(m) == json_depth(v1));
}

/// An object of two entries is well-formed when its keys ascend and its
/// values are well-formed, and nests one deeper than its deeper value.
pub proof fn lemma_obj2_wf_depth(k1: Seq<char>, v1: Json, k2: Seq<char>, v2: Json, floats: bool)
    ensures
        json_wf_with(obj2(k1, v1, k2, v2), floats) == (text_lt(k1, k2) && json_wf_with(v1, floats)
            && json_wf_with(v2, floats)),
        json_depth(obj2(k1, v1, k2, v2)) == 1 + if json_depth(v1) > json_depth(v2) {
            json_depth(v1)
        } else {
            json_depth(v2)
        },
{
    let m = seq![(k1, v1), (k2, v2)];
    lemma_obj1_wf_depth(k1, v1, floats);
    assert(m.subrange(0, 1) =~= seq![(k1, v1)]);
    assert(m[0].0 == k1 && m[1].0 == k2 && m[1].1 == v2);
    assert(entries_wf_with(m, floats) == (entries_wf_with(seq![(k1, v1)], floats) && json_wf_with(
        v2,
        floats,
    ) && text_lt(k1, k2)));
    assert(entries_wf_with(seq![(k1, v1)], floats) == json_wf_with(v1, floats));
    assert(entries_depth(seq![(k1, v1)]) == json_depth(v1));
}

/// An object of three entries is well-formed when its keys ascend and its
/// values are well-formed, and nests one deeper than its deepest value.
pub proof fn lemma_obj3_wf_depth(
    k1: Seq<char>,
    v1: Json,
    k2: Seq<char>,
    v2: Json,
    k3: Seq<char>,
    v3: Json,
    floats: bool,
)
    ensures
        json_wf_with(obj3(k1, v1, k2, v2, k3, v3), floats) == (text_lt(k1, k2) && text_lt(k2, k3)
            && json_wf_with(v1, floats) && json_wf_with(v2, floats) && json_wf_with(v3, floats)),
        json_depth(obj3(k1, v1, k2, v2, k3, v3)) >= 1 + json_depth(v1),
        json_depth(obj3(k1, v1, k2, v2, k3, v3)) >= 1 + json_depth(v2),
        json_depth(obj3(k1, v1, k2, v2, k3, v3)) >= 1 + json_depth(v3),
        json_depth(obj3(k1, v1, k2, v2, k3, v3)) == 1 + json_depth(v1) || json_depth(
            obj3(k1, v1, k2, v2, k3, v3),
        ) == 1 + json_depth(v2) || json_depth(obj3(k1, v1, k2, v2, k3, v3)) == 1 + json_depth(
            v3,
        ),
{
    let m = seq![(k1, v1), (k2, v2), (k3, v3)];
    lemma_obj2_wf_depth(k1, v1, k2, v2, floats);
    assert(m.subrange(0, 2) =~= seq![(k1, v1), (k2, v2)]);
    assert(m[1].0 == k2 && m[2].0 == k3 && m[2].1 == v3);
    assert(entries_wf_with(seq![(k1, v1), (k2, v2)], floats) == json_wf_with(
        obj2(k1, v1, k2, v2),
        floats,
    ));
    assert(entries_depth(seq![(k1, v1), (k2, v2)]) + 1 == json_depth(obj2(k1, v1, k2, v2)));
}

/// The value that a JSON text holds, as `serde_json::from_str` reads it, or
/// nothing when the text is not JSON.
pub uninterp spec fn json_of_text(text: Seq<char>) -> Option<Json>;

/// The compact JSON text of a value, as `serde_json` writes it.
pub uninterp spec fn json_text(j: Json) -> Seq<char>;

/// The indented JSON text of a value, as `serde_json` writes it with the
/// alternate flag.
pub uninterp spec fn json_pretty_text(j: Json) -> Seq<char>;

/// A `serde_json` value in this library's model, variant for variant.
#[verifier::external_body]
fn from_serde(v: Value) -> JsonValue {
    match v {
        Value::Null => JsonValue::Null,
        Value::Bool(b) => JsonValue::Bool(b),
        Value::Number(n) => JsonValue::Number(match (n.as_u64(), n.as_i64()) {
            (Some(u), _) => JsonNumber::PosInt(u),
            (None, Some(i)) => JsonNumber::NegInt(i),
            (None, None) => JsonNumber::Float(n),
        }),
        Value::String(s) => JsonValue::Text(s),
        Value::Array(a) => JsonValue::Array(a.into_iter().map(from_serde).collect()),
        Value::Object(m) => JsonValue::Object(
            m.into_iter().map(|(k, x)| (k, from_serde(x))).collect(),
        ),
    }
}

/// A value of this library's model as a `serde_json` value, variant for
/// variant.
#[verifier::external_body]
fn to_serde(v: &JsonValue) -> Value {
    match v {
        JsonValue::Null => Value::Null,
        JsonValue::Bool(b) => Value::Bool(*b),
        JsonValue::Number(JsonNumber::PosInt(u)) => Value::from(*u),
        JsonValue::Number(JsonNumber::NegInt(i)) => Value::from(*i),
        JsonValue::Number(JsonNumber::Float(f)) => Value::Number(f.clone()),
        JsonValue::Text(s) => Value::String(s.clone()),
        JsonValue::Array(a) => Value::Array(a.iter().map(to_serde).collect()),
        JsonValue::Object(m) => Value::Object(
            m.iter().map(|(k, x)| (k.clone(), to_serde(x))).collect(),
        ),
    }
}

/// Reads a JSON text with `serde_json::from_str`; what it reads is
/// well-formed, as a `serde_json` map lists each key once, in order.
#[verifier::external_body]
pub fn parse_json(text: &str) -> (r: Result<JsonValue, serde_json::Error>)
    ensures
        match json_of_text(text@) {
            Some(j) => r matches Ok(v) && v@ == j && json_wf(j),
            None => r is Err,
        },
{
    serde_json::from_str::<serde_json::Value>(text).map(from_serde)
}

impl JsonValue {
    /// The compact JSON text of the value, as `serde_json` writes it. A
    /// well-formed value without other numbers, nested no deeper than
    /// `serde_json` reads, is read back from its text as it was: integers and
    /// strings are written exactly, and keys in the order a map lists them.
    #[verifier::external_body]
    pub fn to_text(&self) -> (r: String)
        ensures
            r@ == json_text(self@),
            json_wf_with(self@, false) && json_depth(self@) <= max_read_depth() ==> json_of_text(
                r@,
            ) == Some(self@),
    {
        to_serde(self).to_string()
    }

    /// The indented JSON text of the value, as `serde_json` writes it.
    #[verifier::external_body]
    pub fn to_pretty_text(&self) -> (r: String)
        ensures
            r@ == json_pretty_text(self@),
    {
        format!("{:#}", to_serde(self))
    }

    /// An empty object.
    pub fn empty_object() -> (r: JsonValue)
        ensures
            r@ == Json::Object(Seq::empty()),
    {
        let m: Vec<(String, JsonValue)> = Vec::new();
        proof {
            lemma_json_entries_of(m@);
        }
        let r = JsonValue::Object(m);
        assert(r@ == Json::Object(json_entries_of(m@)));
        assert(json_entries_of(m@) =~= Seq::empty());
        r
    }

    /// An object of one entry.
    pub fn object1(k1: &str, v1: JsonValue) -> (r: JsonValue)
        ensures
            r@ == obj1(k1@, v1@),
    {
        let mut m: Vec<(String, JsonValue)> = Vec::new();
        m.push((String::from_str(k1), v1));
        proof {
            lemma_json_entries_of(m@);
        }
        let r = JsonValue::Object(m);
        assert(r@ == Json::Object(json_entries_of(m@)));
        assert(json_entries_of(m@) =~= seq![(k1@, v1@)]);
        r
    }

    /// An object of two entries, in the order given.
    pub fn object2(k1: &str, v1: JsonValue, k2: &str, v2: JsonValue) -> (r: JsonValue)
        ensures
            r@ == obj2(k1@, v1@, k2@, v2@),
    {
        let mut m: Vec<(String, JsonValue)> = Vec::new();
        m.push((String::from_str(k1), v1));
        m.push((String::from_str(k2), v2));
        proof {
            lemma_json_entries_of(m@);
        }
        let r = JsonValue::Object(m);
        assert(r@ == Json::Object(json_entries_of(m@)));
        assert(json_entries_of(m@) =~= seq![(k1@, v1@), (k2@, v2@)]);
        r
    }

    /// An object of three entries, in the order given.
    pub fn object3(
        k1: &str,
        v1: JsonValue,
        k2: &str,
        v2: JsonValue,
        k3: &str,
        v3: JsonValue,
    ) -> (r: JsonValue)
        ensures
            r@ == obj3(k1@, v1@, k2@, v2@, k3@, v3@),
    {
        let mut m: Vec<(String, JsonValue)> = Vec::new();
        m.push((String::from_str(k1), v1));
        m.push((String::from_str(k2), v2));
        m.push((String::from_str(k3), v3));
        proof {
            lemma_json_entries_of(m@);
        }
        let r = JsonValue::Object(m);
        assert(r@ == Json::Object(json_entries_of(m@)));
        assert(json_entries_of(m@) =~= seq![(k1@, v1@), (k2@, v2@), (k3@, v3@)]);
        r
    }

    /// The value under `key`, when this is an object that holds it.
    pub fn get(&self, key: &str) -> (r: Option<&JsonValue>)
        ensures
            match r {
                Some(v) => json_get(self@, key@) == Some(v@),
                None => json_get(self@, key@) is None,
            },
    {
        match self {
            JsonValue::Object(m) => {
                let ghost model = json_entries_of(m@);
                proof {
                    lemma_json_entries_of(m@);
                    assert(self@ == Json::Object(model));
                }
                let mut i: usize = 0;
                while i < m.len()
                    invariant
                        0 <= i <= m@.len(),
                        model == json_entries_of(m@),
                        self@ == Json::Object(model),
                        model.len() == m@.len(),
                        forall|j: int|
                            0 <= j < m@.len() ==> #[trigger] model[j] == (m@[j].0@, json_of(m@[j].1)),
                        forall|j: int| 0 <= j < i ==> #[trigger] model[j].0 != key@,
                    decreases m.len() - i,
                {
                    if str_eq(m[i].0.as_str(), key) {
                        proof {
                            lemma_entries_get_skip(model, key@, i as int);
                            let rest = model.subrange(i as int, model.len() as int);
                            assert(rest[0] == model[i as int]);
                            assert(entries_get(rest, key@) == Some(model[i as int].1));
                        }
                        return Some(&m[i].1);
                    }
                    i = i + 1;
                }
                proof {
                    lemma_entries_get_skip(model, key@, i as int);
                }
                None
            },
            _ => None,
        }
    }

    /// The number, when this is a non-negative integer.
    pub fn as_u64(&self) -> (r: Option<u64>)
        ensures
            r == json_as_u64(self@),
    {
        match self {
            JsonValue::Number(JsonNumber::PosInt(n)) => Some(*n),
            _ => None,
        }
    }
}

} // verus!
