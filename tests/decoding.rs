use image_infer::json::{parse_document, Json};
use image_infer::result::{
    decode, decode_json, decode_parsed, encode_inference, DecodeErrorKind, InferenceResult,
    ModelResult,
};
use serde_json::Number;

fn num(x: f64) -> Number {
    Number::from_f64(x).unwrap()
}

#[test]
fn success_payload_decodes_to_success() {
    let text = r#"{"prediction":"cat","confidence":0.92,"class_probabilities":{"cat":0.92,"dog":0.08}}"#;
    match decode(text) {
        Ok(ModelResult::Success(r)) => {
            assert_eq!(r.prediction, "cat");
            assert_eq!(r.confidence, num(0.92));
            assert_eq!(r.class_probabilities.len(), 2);
            assert_eq!(r.class_probabilities[0].0, "cat");
            assert_eq!(r.class_probabilities[0].1, num(0.92));
            assert_eq!(r.class_probabilities[1].0, "dog");
            assert_eq!(r.class_probabilities[1].1, num(0.08));
        }
        _ => panic!("expected a success"),
    }
}

#[test]
fn error_payload_decodes_to_error() {
    match decode(r#"{"error":"unsupported image format"}"#) {
        Ok(ModelResult::Error(e)) => assert_eq!(e.error, "unsupported image format"),
        _ => panic!("expected an error result"),
    }
}

#[test]
fn non_json_is_a_decode_failure_with_payload() {
    match decode("not json at all") {
        Err(e) => {
            assert_eq!(e.kind, DecodeErrorKind::NotJson);
            assert_eq!(e.payload, "not json at all");
        }
        _ => panic!("expected a decode failure"),
    }
}

#[test]
fn empty_stdout_is_a_decode_failure() {
    match decode("") {
        Err(e) => {
            assert_eq!(e.kind, DecodeErrorKind::NotJson);
            assert_eq!(e.payload, "");
        }
        _ => panic!("expected a decode failure"),
    }
}

#[test]
fn json_of_neither_shape_is_a_mismatch() {
    for text in [r#"{"foo":1}"#, "[1,2,3]", "42", r#"{"error":5}"#, "null"] {
        match decode(text) {
            Err(e) => {
                assert_eq!(e.kind, DecodeErrorKind::ShapeMismatch);
                assert_eq!(e.payload, text);
            }
            _ => panic!("expected a shape mismatch for {}", text),
        }
    }
}

#[test]
fn success_shape_is_tried_first() {
    let text = r#"{"error":"ignored","prediction":"dog","confidence":1,"class_probabilities":{}}"#;
    match decode(text) {
        Ok(ModelResult::Success(r)) => {
            assert_eq!(r.prediction, "dog");
            assert_eq!(r.confidence, Number::from(1));
            assert!(r.class_probabilities.is_empty());
        }
        _ => panic!("expected a success"),
    }
}

#[test]
fn incomplete_success_falls_back_to_error_shape() {
    let text = r#"{"prediction":"dog","confidence":"high","class_probabilities":{},"error":"bad"}"#;
    match decode(text) {
        Ok(ModelResult::Error(e)) => assert_eq!(e.error, "bad"),
        _ => panic!("expected an error result"),
    }
}

#[test]
fn non_numeric_probability_is_not_success() {
    let text = r#"{"prediction":"dog","confidence":0.5,"class_probabilities":{"dog":"x"}}"#;
    match decode(text) {
        Err(e) => assert_eq!(e.kind, DecodeErrorKind::ShapeMismatch),
        _ => panic!("expected a shape mismatch"),
    }
}

#[test]
fn out_of_range_confidence_passes_through() {
    let text = r#"{"prediction":"cat","confidence":7.5,"class_probabilities":{"cat":-1}}"#;
    match decode(text) {
        Ok(ModelResult::Success(r)) => {
            assert_eq!(r.confidence, num(7.5));
            assert_eq!(r.class_probabilities[0].1, Number::from(-1));
        }
        _ => panic!("expected a success"),
    }
}

#[test]
fn parse_document_reads_structure() {
    match parse_document(r#"{"a":[true,null,"s"]}"#) {
        Some(Json::Object(m)) => {
            assert_eq!(m.len(), 1);
            assert_eq!(m[0].0, "a");
            match &m[0].1 {
                Json::Array(items) => {
                    assert_eq!(items.len(), 3);
                    assert!(matches!(items[0], Json::Bool(true)));
                    assert!(matches!(items[1], Json::Null));
                    assert!(matches!(&items[2], Json::Str(s) if s == "s"));
                }
                _ => panic!("expected an array"),
            }
        }
        _ => panic!("expected an object"),
    }
    assert!(parse_document("{").is_none());
    assert!(parse_document("{} trailing").is_none());
}

#[test]
fn decode_parsed_without_document_is_not_json() {
    match decode_parsed("abc", None) {
        Err(e) => {
            assert_eq!(e.kind, DecodeErrorKind::NotJson);
            assert_eq!(e.payload, "abc");
        }
        _ => panic!("expected a decode failure"),
    }
}

#[test]
fn encoded_inference_decodes_back() {
    let r = InferenceResult {
        prediction: "cat".to_string(),
        confidence: num(0.92),
        class_probabilities: vec![("cat".to_string(), num(0.92)), ("dog".to_string(), num(0.08))],
    };
    let doc = encode_inference(&r);
    match decode_json(&doc) {
        Some(ModelResult::Success(back)) => {
            assert_eq!(back.prediction, r.prediction);
            assert_eq!(back.confidence, r.confidence);
            assert_eq!(back.class_probabilities, r.class_probabilities);
        }
        _ => panic!("expected a success"),
    }
}

#[test]
fn decode_json_of_non_object_is_none() {
    assert!(decode_json(&Json::Null).is_none());
    assert!(decode_json(&Json::Array(vec![])).is_none());
}

#[test]
fn repeated_class_name_is_kept_once() {
    let text = r#"{"prediction":"cat","confidence":0.5,"class_probabilities":{"cat":0.1,"cat":0.2}}"#;
    match decode(text) {
        Ok(ModelResult::Success(r)) => {
            assert_eq!(r.class_probabilities.len(), 1);
            assert_eq!(r.class_probabilities[0].0, "cat");
        }
        _ => panic!("expected a success"),
    }
}
