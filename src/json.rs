//! The library's model of a JSON document, and the bridge that reads one
//! from text through serde_json.
use vstd::prelude::*;

verus! {

#[verifier::external_type_specification]
#[verifier::external_body]
pub struct ExJsonNumber(serde_json::Number);

#[verifier::external_type_specification]
#[verifier::external_body]
pub struct ExJsonValue(serde_json::Value);

/// Relies on the derived `Clone` of serde_json::Number, which copies its
/// single field.
pub assume_specification[ <serde_json::Number as Clone>::clone ](
    n: &serde_json::Number,
) -> (r: serde_json::Number)
    ensures
        r == *n,
;

/// A JSON document. Numbers are carried as serde_json's own number, whose
/// value this library never inspects; objects keep their members in order.
pub enum Json {
    Null,
    Bool(bool),
    Number(serde_json::Number),
    Str(String),
    Array(Vec<Json>),
    Object(Vec<(String, Json)>),
}

/// Whether serde_json accepts the text as one JSON value (syntax, no
/// trailing characters, nesting within its recursion limit).
pub uninterp spec fn is_json_text(s: Seq<char>) -> bool;

/// The document serde_json reads from a text it accepts.
pub uninterp spec fn json_of(s: Seq<char>) -> Json;

/// No two members of the object share a key.
pub open spec fn members_distinct(entries: Seq<(String, Json)>) -> bool {
    forall|i: int, j: int|
        0 <= i < j < entries.len() ==> (#[trigger] entries[i]).0@ != (#[trigger] entries[j]).0@
}

/// The document's top-level object, and each object directly inside it,
/// have distinct keys.
pub open spec fn distinct_two_levels(d: Json) -> bool {
    d is Object ==> {
        &&& members_distinct(d->Object_0@)
        &&& forall|i: int|
            0 <= i < d->Object_0@.len() && (#[trigger] d->Object_0@[i]).1 is Object
                ==> members_distinct(d->Object_0@[i].1->Object_0@)
    }
}

/// Moves a serde_json value into the library's model, variant for variant
/// (an object's members in the map's iteration order).
#[verifier::external_body]
fn json_from_serde(v: &serde_json::Value) -> Json {
    match v {
        serde_json::Value::Null => Json::Null,
        serde_json::Value::Bool(b) => Json::Bool(*b),
        serde_json::Value::Number(n) => Json::Number(n.clone()),
        serde_json::Value::String(s) => Json::Str(s.clone()),
        serde_json::Value::Array(a) => Json::Array(a.iter().map(json_from_serde).collect()),
        serde_json::Value::Object(m) => {
            Json::Object(m.iter().map(|(k, x)| (k.clone(), json_from_serde(x))).collect())
        },
    }
}

/// Relies on serde_json::from_str into serde_json::Value: it fails exactly on
/// the texts it does not accept, its result depends on the text alone, and
/// its objects are maps, so their keys are distinct.
#[verifier::external_body]
fn parse_json(text: &str) -> (r: Option<Json>)
    ensures
        r is Some <==> is_json_text(text@),
        r matches Some(d) ==> d == json_of(text@),
        r matches Some(d) ==> distinct_two_levels(d),
{
    serde_json::from_str::<serde_json::Value>(text).ok().map(|v| json_from_serde(&v))
}

/// Reads a JSON document from text: the document serde_json reads, or
/// nothing when it does not accept the text.
pub fn parse_document(text: &str) -> (r: Option<Json>)
    ensures
        !is_json_text(text@) ==> r is None,
        is_json_text(text@) ==> r == Some(json_of(text@)),
        r matches Some(d) ==> distinct_two_levels(d),
{
    parse_json(text)
}

/// The value of the first member named `key`.
pub open spec fn member(entries: Seq<(String, Json)>, key: Seq<char>) -> Option<Json>
    decreases entries.len(),
{
    if entries.len() == 0 {
        None
    } else if entries[0].0@ == key {
        Some(entries[0].1)
    } else {
        member(entries.drop_first(), key)
    }
}

/// Index of the first member named `key`, if any.
pub fn find_member(entries: &Vec<(String, Json)>, key: &String) -> (r: Option<usize>)
    ensures
        match r {
            Some(i) => i < entries@.len() && member(entries@, key@) == Some(entries@[i as int].1),
            None => member(entries@, key@) is None,
        },
{
    let mut i: usize = 0;
    assert(entries@.subrange(0, entries@.len() as int) =~= entries@);
    while i < entries.len()
        invariant
            i <= entries@.len(),
            member(entries@, key@) == member(entries@.subrange(i as int, entries@.len() as int), key@),
        decreases entries.len() - i,
    {
        let ghost rest = entries@.subrange(i as int, entries@.len() as int);
        assert(rest.drop_first() =~= entries@.subrange(i + 1, entries@.len() as int));
        if entries[i].0 == *key {
            return Some(i);
        }
        i = i + 1;
    }
    assert(entries@.subrange(i as int, entries@.len() as int) =~= Seq::<(String, Json)>::empty());
    None
}

} // verus!
