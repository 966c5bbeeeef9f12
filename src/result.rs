//! The two result shapes the interpreter answers with, and their structural
//! decoding from a JSON document: the success shape is tried first, the
//! error shape second, and a document matching neither is a decode failure.
use vstd::prelude::*;
use crate::json::{
    Json, member, find_member, parse_document, is_json_text, json_of, members_distinct,
    distinct_two_levels,
};

verus! {

/// A successful classification.
pub struct InferenceResult {
    pub prediction: String,
    pub confidence: serde_json::Number,
    /// Class name and probability, one entry per class; a decoded result
    /// never names a class twice.
    pub class_probabilities: Vec<(String, serde_json::Number)>,
}

/// A failure reported by the interpreter, or a wrapped infrastructure failure.
pub struct ErrorResult {
    pub error: String,
}

/// Exactly one of the two result shapes.
pub enum ModelResult {
    Success(InferenceResult),
    Error(ErrorResult),
}

pub ghost struct InferenceView {
    pub prediction: Seq<char>,
    pub confidence: serde_json::Number,
    pub class_probabilities: Seq<(Seq<char>, serde_json::Number)>,
}

pub ghost enum ModelView {
    Success(InferenceView),
    Error(Seq<char>),
}

pub open spec fn probabilities_view(
    v: Seq<(String, serde_json::Number)>,
) -> Seq<(Seq<char>, serde_json::Number)> {
    Seq::new(v.len(), |i: int| (v[i].0@, v[i].1))
}

impl View for InferenceResult {
    type V = InferenceView;

    open spec fn view(&self) -> InferenceView {
        InferenceView {
            prediction: self.prediction@,
            confidence: self.confidence,
            class_probabilities: probabilities_view(self.class_probabilities@),
        }
    }
}

impl View for ModelResult {
    type V = ModelView;

    open spec fn view(&self) -> ModelView {
        match self {
            ModelResult::Success(r) => ModelView::Success(r@),
            ModelResult::Error(e) => ModelView::Error(e.error@),
        }
    }
}

/// Why a payload could not be decoded.
#[derive(Clone, Copy, Debug, PartialEq, Eq, Structural)]
pub enum DecodeErrorKind {
    /// The text is not a JSON document.
    NotJson,
    /// The document matches neither result shape.
    ShapeMismatch,
}

/// A decode failure, carrying the raw payload for diagnosis.
pub struct DecodeError {
    pub kind: DecodeErrorKind,
    pub payload: String,
}

pub open spec fn all_numbers(entries: Seq<(String, Json)>) -> bool {
    forall|i: int| 0 <= i < entries.len() ==> (#[trigger] entries[i]).1 is Number
}

pub open spec fn numbers_view(entries: Seq<(String, Json)>) -> Seq<(Seq<char>, serde_json::Number)> {
    Seq::new(entries.len(), |i: int| (entries[i].0@, entries[i].1->Number_0))
}

/// The success shape among an object's members: a string `prediction`, a
/// number `confidence` and an object of numbers `class_probabilities`.
/// Other members are ignored.
pub open spec fn success_members(entries: Seq<(String, Json)>) -> Option<InferenceView> {
    let p = member(entries, "prediction"@);
    let c = member(entries, "confidence"@);
    let cp = member(entries, "class_probabilities"@);
    if p is Some && p->Some_0 is Str && c is Some && c->Some_0 is Number && cp is Some
        && cp->Some_0 is Object && all_numbers(cp->Some_0->Object_0@) {
        Some(
            InferenceView {
                prediction: p->Some_0->Str_0@,
                confidence: c->Some_0->Number_0,
                class_probabilities: numbers_view(cp->Some_0->Object_0@),
            },
        )
    } else {
        None
    }
}

/// The error shape among an object's members: a string `error`.
pub open spec fn error_members(entries: Seq<(String, Json)>) -> Option<Seq<char>> {
    let e = member(entries, "error"@);
    if e is Some && e->Some_0 is Str {
        Some(e->Some_0->Str_0@)
    } else {
        None
    }
}

pub open spec fn success_shape(doc: Json) -> Option<InferenceView> {
    match doc {
        Json::Object(m) => success_members(m@),
        _ => None,
    }
}

pub open spec fn error_shape(doc: Json) -> Option<Seq<char>> {
    match doc {
        Json::Object(m) => error_members(m@),
        _ => None,
    }
}

/// The result a document decodes to: the success shape if it matches,
/// else the error shape, else none.
pub open spec fn shape_match(doc: Json) -> Option<ModelView> {
    match success_shape(doc) {
        Some(v) => Some(ModelView::Success(v)),
        None => match error_shape(doc) {
            Some(e) => Some(ModelView::Error(e)),
            None => None,
        },
    }
}

/// The document an inference result encodes to: an object with exactly the
/// members `prediction`, `confidence` and `class_probabilities`, in that order,
/// the last an object of numbers.
pub open spec fn encodes(doc: Json, v: InferenceView) -> bool {
    &&& doc is Object
    &&& doc->Object_0@.len() == 3
    &&& doc->Object_0@[0].0@ == "prediction"@
    &&& doc->Object_0@[0].1 is Str
    &&& doc->Object_0@[0].1->Str_0@ == v.prediction
    &&& doc->Object_0@[1].0@ == "confidence"@
    &&& doc->Object_0@[1].1 == Json::Number(v.confidence)
    &&& doc->Object_0@[2].0@ == "class_probabilities"@
    &&& doc->Object_0@[2].1 is Object
    &&& all_numbers(doc->Object_0@[2].1->Object_0@)
    &&& numbers_view(doc->Object_0@[2].1->Object_0@) == v.class_probabilities
}

fn number_members(entries: &Vec<(String, Json)>) -> (r: Option<Vec<(String, serde_json::Number)>>)
    ensures
        match r {
            Some(v) => all_numbers(entries@) && probabilities_view(v@) == numbers_view(entries@),
            None => !all_numbers(entries@),
        },
{
    let mut out: Vec<(String, serde_json::Number)> = Vec::new();
    let mut i: usize = 0;
    while i < entries.len()
        invariant
            i <= entries@.len(),
            out@.len() == i,
            forall|k: int| 0 <= k < i ==> (#[trigger] entries@[k]).1 is Number,
            forall|k: int|
                0 <= k < i ==> (#[trigger] out@[k]).0@ == entries@[k].0@ && out@[k].1
                    == entries@[k].1->Number_0,
        decreases entries.len() - i,
    {
        match &entries[i].1 {
            Json::Number(n) => {
                out.push((entries[i].0.clone(), n.clone()));
            },
            _ => {
                return None;
            },
        }
        i = i + 1;
    }
    assert(probabilities_view(out@) =~= numbers_view(entries@));
    Some(out)
}

fn success_from_members(entries: &Vec<(String, Json)>) -> (r: Option<InferenceResult>)
    ensures
        match r {
            Some(v) => success_members(entries@) == Some(v@),
            None => success_members(entries@) is None,
        },
{
    let prediction = match find_member(entries, &String::from_str("prediction")) {
        Some(i) => match &entries[i].1 {
            Json::Str(s) => s.clone(),
            _ => return None,
        },
        None => return None,
    };
    let confidence = match find_member(entries, &String::from_str("confidence")) {
        Some(i) => match &entries[i].1 {
            Json::Number(n) => n.clone(),
            _ => return None,
        },
        None => return None,
    };
    let class_probabilities = match find_member(entries, &String::from_str("class_probabilities")) {
        Some(i) => match &entries[i].1 {
            Json::Object(m) => match number_members(m) {
                Some(v) => v,
                None => return None,
            },
            _ => return None,
        },
        None => return None,
    };
    Some(InferenceResult { prediction, confidence, class_probabilities })
}

fn error_from_members(entries: &Vec<(String, Json)>) -> (r: Option<ErrorResult>)
    ensures
        match r {
            Some(e) => error_members(entries@) == Some(e.error@),
            None => error_members(entries@) is None,
        },
{
    match find_member(entries, &String::from_str("error")) {
        Some(i) => match &entries[i].1 {
            Json::Str(s) => Some(ErrorResult { error: s.clone() }),
            _ => None,
        },
        None => None,
    }
}

/// Structural decoding of a document: the success shape first, then the
/// error shape; `None` when neither matches.
pub fn decode_json(doc: &Json) -> (r: Option<ModelResult>)
    ensures
        match r {
            Some(m) => shape_match(*doc) == Some(m@),
            None => shape_match(*doc) is None,
        },
{
    match doc {
        Json::Object(m) => match success_from_members(m) {
            Some(s) => Some(ModelResult::Success(s)),
            None => match error_from_members(m) {
                Some(e) => Some(ModelResult::Error(e)),
                None => None,
            },
        },
        _ => None,
    }
}

/// Decodes the payload `text` given what parsing it produced: no document is
/// a `NotJson` failure, a document that matches no shape a `ShapeMismatch`;
/// either failure carries `text`.
pub fn decode_parsed(text: &str, doc: Option<Json>) -> (r: Result<ModelResult, DecodeError>)
    ensures
        match doc {
            None => r matches Err(e) && e.kind == DecodeErrorKind::NotJson && e.payload@ == text@,
            Some(d) => match shape_match(d) {
                Some(v) => r matches Ok(m) && m@ == v,
                None => r matches Err(e) && e.kind == DecodeErrorKind::ShapeMismatch
                    && e.payload@ == text@,
            },
        },
{
    match doc {
        None => Err(DecodeError { kind: DecodeErrorKind::NotJson, payload: text.to_owned() }),
        Some(d) => match decode_json(&d) {
            Some(m) => Ok(m),
            None => Err(DecodeError { kind: DecodeErrorKind::ShapeMismatch, payload: text.to_owned() }),
        },
    }
}

/// What decoding the payload `text` answers: the result the document
/// serde_json reads from it decodes to; `NotJson` when serde_json does not
/// accept it, `ShapeMismatch` when the document matches neither shape, both
/// carrying `text`.
pub open spec fn decode_answer(text: Seq<char>, r: Result<ModelResult, DecodeError>) -> bool {
    if !is_json_text(text) {
        r matches Err(e) && e.kind == DecodeErrorKind::NotJson && e.payload@ == text
    } else {
        match shape_match(json_of(text)) {
            Some(v) => r matches Ok(m) && m@ == v,
            None => r matches Err(e) && e.kind == DecodeErrorKind::ShapeMismatch && e.payload@
                == text,
        }
    }
}

/// No two classes of the view share a name.
pub open spec fn classes_distinct(v: InferenceView) -> bool {
    forall|i: int, j: int|
        0 <= i < j < v.class_probabilities.len() ==> (#[trigger] v.class_probabilities[i]).0
            != (#[trigger] v.class_probabilities[j]).0
}

proof fn lemma_member_is_entry(entries: Seq<(String, Json)>, key: Seq<char>)
    requires
        member(entries, key) is Some,
    ensures
        exists|i: int| 0 <= i < entries.len() && entries[i].1 == member(entries, key)->Some_0,
    decreases entries.len(),
{
    if entries[0].0@ != key {
        lemma_member_is_entry(entries.drop_first(), key);
        let i = choose|i: int|
            0 <= i < entries.drop_first().len() && entries.drop_first()[i].1 == member(
                entries.drop_first(),
                key,
            )->Some_0;
        assert(entries[i + 1].1 == member(entries, key)->Some_0);
    } else {
        assert(entries[0].1 == member(entries, key)->Some_0);
    }
}

/// A document whose objects have distinct keys decodes to a success whose
/// classes are distinct.
proof fn lemma_success_classes_distinct(doc: Json)
    requires
        distinct_two_levels(doc),
        success_shape(doc) is Some,
    ensures
        classes_distinct(success_shape(doc)->Some_0),
{
    let entries = doc->Object_0@;
    lemma_member_is_entry(entries, "class_probabilities"@);
    let i = choose|i: int|
        0 <= i < entries.len() && entries[i].1 == member(entries, "class_probabilities"@)->Some_0;
    assert(entries[i].1 is Object);
    let cp = entries[i].1->Object_0@;
    assert(members_distinct(cp));
    let v = success_shape(doc)->Some_0;
    assert forall|a: int, b: int| 0 <= a < b < v.class_probabilities.len() implies (
    #[trigger] v.class_probabilities[a]).0 != (#[trigger] v.class_probabilities[b]).0 by {
        assert(v.class_probabilities[a].0 == cp[a].0@);
        assert(v.class_probabilities[b].0 == cp[b].0@);
    }
}

/// Decodes the interpreter's stdout: the answer is fixed by the text alone
/// (see `decode_answer`), and a success never repeats a class name.
pub fn decode(text: &str) -> (r: Result<ModelResult, DecodeError>)
    ensures
        decode_answer(text@, r),
        r matches Ok(ModelResult::Success(s)) ==> classes_distinct(s@),
{
    let doc = parse_document(text);
    let ghost parsed = doc;
    let r = decode_parsed(text, doc);
    proof {
        if r matches Ok(ModelResult::Success(_)) {
            lemma_success_classes_distinct(parsed->Some_0);
        }
    }
    r
}

/// Encodes an inference result as its JSON document.
pub fn encode_inference(r: &InferenceResult) -> (doc: Json)
    ensures
        encodes(doc, r@),
        shape_match(doc) == Some(ModelView::Success(r@)),
{
    let mut probs: Vec<(String, Json)> = Vec::new();
    let mut i: usize = 0;
    while i < r.class_probabilities.len()
        invariant
            i <= r.class_probabilities@.len(),
            probs@.len() == i,
            forall|k: int|
                0 <= k < i ==> (#[trigger] probs@[k]).0@ == r.class_probabilities@[k].0@
                    && probs@[k].1 == Json::Number(r.class_probabilities@[k].1),
        decreases r.class_probabilities.len() - i,
    {
        let (name, p) = (&r.class_probabilities[i].0, &r.class_probabilities[i].1);
        probs.push((name.clone(), Json::Number(p.clone())));
        i = i + 1;
    }
    assert(all_numbers(probs@));
    assert(numbers_view(probs@) =~= probabilities_view(r.class_probabilities@));
    let mut members: Vec<(String, Json)> = Vec::new();
    members.push((String::from_str("prediction"), Json::Str(r.prediction.clone())));
    members.push((String::from_str("confidence"), Json::Number(r.confidence.clone())));
    members.push((String::from_str("class_probabilities"), Json::Object(probs)));
    let doc = Json::Object(members);
    proof {
        lemma_round_trip(doc, r@);
    }
    doc
}

/// Decoding partitions documents: a success is exactly a match of the
/// success shape, an error exactly a failed success match with a matching
/// error shape, and a failure a document matching neither; no result mixes
/// fields of both shapes.
pub proof fn lemma_decode_partition(doc: Json)
    ensures
        match shape_match(doc) {
            Some(ModelView::Success(v)) => success_shape(doc) == Some(v),
            Some(ModelView::Error(e)) => success_shape(doc) is None && error_shape(doc) == Some(e),
            None => success_shape(doc) is None && error_shape(doc) is None,
        },
{
}

/// Round trip: the document an inference result encodes to decodes back to
/// that same result, field for field.
pub proof fn lemma_round_trip(doc: Json, v: InferenceView)
    requires
        encodes(doc, v),
    ensures
        shape_match(doc) == Some(ModelView::Success(v)),
{
    let m = doc->Object_0@;
    assert(m.drop_first()[0] == m[1]);
    assert(m.drop_first().drop_first()[0] == m[2]);
    assert("prediction"@ != "confidence"@) by {
        reveal_strlit("prediction");
        reveal_strlit("confidence");
        assert("prediction"@[0] != "confidence"@[0]);
    }
    assert("prediction"@ != "class_probabilities"@) by {
        reveal_strlit("prediction");
        reveal_strlit("class_probabilities");
        assert("prediction"@[0] != "class_probabilities"@[0]);
    }
    assert("confidence"@ != "class_probabilities"@) by {
        reveal_strlit("confidence");
        reveal_strlit("class_probabilities");
        assert("confidence"@[1] != "class_probabilities"@[1]);
    }
    assert(member(m, "prediction"@) == Some(m[0].1));
    assert(member(m.drop_first(), "confidence"@) == Some(m[1].1));
    assert(member(m, "confidence"@) == Some(m[1].1));
    assert(member(m.drop_first().drop_first(), "class_probabilities"@) == Some(m[2].1));
    assert(member(m.drop_first(), "class_probabilities"@) == Some(m[2].1));
    assert(member(m, "class_probabilities"@) == Some(m[2].1));
}

} // verus!
