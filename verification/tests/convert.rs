use serde_json::Value;
use vector_listing::document::{document_to_value, number_to_value, Document, Float, Number};

fn float(f: f64) -> Float {
    Float::from_encoded(Value::from(f)).expect("a float is encoded as a number or as null")
}

fn text(s: &str) -> Document {
    Document::String(s.to_string())
}

fn object(pairs: Vec<(&str, Value)>) -> Value {
    let mut members = serde_json::Map::new();
    for (key, value) in pairs {
        members.insert(key.to_string(), value);
    }
    Value::Object(members)
}

#[test]
fn null_becomes_null() {
    assert_eq!(document_to_value(&Document::Null), Value::Null);
}

#[test]
fn booleans_keep_their_value() {
    assert_eq!(document_to_value(&Document::Bool(true)), Value::Bool(true));
    assert_eq!(document_to_value(&Document::Bool(false)), Value::Bool(false));
}

#[test]
fn strings_keep_every_character() {
    let s = "line\nbreak \"quoted\" \u{e9}\u{4e16}\u{1f600} \\ \u{0}";
    assert_eq!(document_to_value(&text(s)), Value::String(s.to_string()));
    assert_eq!(document_to_value(&text("")), Value::String(String::new()));
}

#[test]
fn non_negative_integers_become_integer_numbers() {
    assert_eq!(document_to_value(&Document::Number(Number::PosInt(0))), Value::from(0u64));
    assert_eq!(document_to_value(&Document::Number(Number::PosInt(42))), Value::from(42u64));
    let largest = document_to_value(&Document::Number(Number::PosInt(u64::MAX)));
    assert_eq!(largest.as_u64(), Some(u64::MAX));
    assert_eq!(serde_json::to_string(&largest).unwrap(), "18446744073709551615");
}

#[test]
fn negative_integers_keep_their_sign() {
    let value = document_to_value(&Document::Number(Number::NegInt(-7)));
    assert_eq!(value, Value::from(-7i64));
    assert_eq!(value.as_i64(), Some(-7));
    let smallest = document_to_value(&Document::Number(Number::NegInt(i64::MIN)));
    assert_eq!(smallest.as_i64(), Some(i64::MIN));
    assert_eq!(serde_json::to_string(&smallest).unwrap(), "-9223372036854775808");
}

#[test]
fn integer_kinds_with_one_value_give_one_number() {
    let signed = number_to_value(&Number::NegInt(5));
    let unsigned = number_to_value(&Number::PosInt(5));
    assert_eq!(signed, unsigned);
    assert_eq!(serde_json::to_string(&signed).unwrap(), "5");
}

#[test]
fn floats_become_floating_point_numbers() {
    let value = document_to_value(&Document::Number(Number::Float(float(1.5))));
    assert_eq!(value.as_f64(), Some(1.5));
    assert!(value.is_f64());
    assert_eq!(serde_json::to_string(&value).unwrap(), "1.5");
    let whole = document_to_value(&Document::Number(Number::Float(float(2.0))));
    assert!(whole.is_f64());
    assert_eq!(serde_json::to_string(&whole).unwrap(), "2.0");
    let negative = document_to_value(&Document::Number(Number::Float(float(-0.25))));
    assert_eq!(negative.as_f64(), Some(-0.25));
}

#[test]
fn floats_without_a_json_literal_become_null() {
    for f in [f64::NAN, f64::INFINITY, f64::NEG_INFINITY] {
        let value = document_to_value(&Document::Number(Number::Float(float(f))));
        assert_eq!(value, Value::Null);
    }
}

#[test]
fn array_keeps_the_order_of_its_elements() {
    let doc = Document::Array(vec![
        Document::Number(Number::PosInt(1)),
        text("x"),
        Document::Bool(true),
        Document::Null,
    ]);
    let expected = Value::Array(vec![
        Value::from(1u64),
        Value::String("x".to_string()),
        Value::Bool(true),
        Value::Null,
    ]);
    let value = document_to_value(&doc);
    assert_eq!(value, expected);
    assert_eq!(serde_json::to_string(&value).unwrap(), "[1,\"x\",true,null]");
}

#[test]
fn reversed_array_gives_reversed_elements() {
    let doc = Document::Array(vec![Document::Null, Document::Bool(true), text("x")]);
    let value = document_to_value(&doc);
    let items = value.as_array().unwrap();
    assert_eq!(items.len(), 3);
    assert_eq!(items[0], Value::Null);
    assert_eq!(items[1], Value::Bool(true));
    assert_eq!(items[2], Value::String("x".to_string()));
}

#[test]
fn empty_array_and_empty_object() {
    assert_eq!(document_to_value(&Document::Array(vec![])), Value::Array(vec![]));
    assert_eq!(document_to_value(&Document::Object(vec![])), Value::Object(serde_json::Map::new()));
}

#[test]
fn object_has_exactly_its_keys_in_either_order() {
    let one = Document::Object(vec![
        ("a".to_string(), Document::Number(Number::PosInt(1))),
        ("b".to_string(), text("x")),
    ]);
    let other = Document::Object(vec![
        ("b".to_string(), text("x")),
        ("a".to_string(), Document::Number(Number::PosInt(1))),
    ]);
    let expected = object(vec![("a", Value::from(1u64)), ("b", Value::String("x".to_string()))]);
    let value = document_to_value(&one);
    assert_eq!(value, expected);
    assert_eq!(document_to_value(&other), expected);
    let members = value.as_object().unwrap();
    assert_eq!(members.len(), 2);
    assert_eq!(members.get("a"), Some(&Value::from(1u64)));
    assert_eq!(members.get("b"), Some(&Value::String("x".to_string())));
    assert_eq!(serde_json::to_string(&value).unwrap(), "{\"a\":1,\"b\":\"x\"}");
}

#[test]
fn repeated_key_is_bound_to_its_last_value() {
    let doc = Document::Object(vec![
        ("k".to_string(), Document::Number(Number::PosInt(1))),
        ("other".to_string(), Document::Null),
        ("k".to_string(), Document::Number(Number::PosInt(2))),
    ]);
    let expected = object(vec![("k", Value::from(2u64)), ("other", Value::Null)]);
    assert_eq!(document_to_value(&doc), expected);
}

#[test]
fn nested_documents_are_converted_at_every_level() {
    let doc = Document::Object(vec![
        (
            "tags".to_string(),
            Document::Array(vec![text("a"), Document::Array(vec![Document::Null])]),
        ),
        (
            "inner".to_string(),
            Document::Object(vec![
                ("n".to_string(), Document::Number(Number::NegInt(-3))),
                ("f".to_string(), Document::Number(Number::Float(float(0.5)))),
            ]),
        ),
    ]);
    let expected = object(vec![
        (
            "tags",
            Value::Array(vec![Value::String("a".to_string()), Value::Array(vec![Value::Null])]),
        ),
        ("inner", object(vec![("n", Value::from(-3i64)), ("f", Value::from(0.5f64))])),
    ]);
    let value = document_to_value(&doc);
    assert_eq!(value, expected);
    assert_eq!(
        serde_json::to_string(&value).unwrap(),
        "{\"inner\":{\"f\":0.5,\"n\":-3},\"tags\":[\"a\",[null]]}"
    );
}

#[test]
fn conversion_does_not_change_the_document() {
    let doc = Document::Array(vec![text("x"), Document::Number(Number::Float(float(1.5)))]);
    let first = document_to_value(&doc);
    let second = document_to_value(&doc);
    assert_eq!(first, second);
    assert_eq!(
        doc,
        Document::Array(vec![text("x"), Document::Number(Number::Float(float(1.5)))])
    );
}

#[test]
fn converted_value_survives_writing_and_reading() {
    let doc = Document::Object(vec![
        ("name".to_string(), text("caf\u{e9} \"x\"\n")),
        ("count".to_string(), Document::Number(Number::PosInt(u64::MAX))),
        ("delta".to_string(), Document::Number(Number::NegInt(-12))),
        ("ratio".to_string(), Document::Number(Number::Float(float(0.1)))),
        ("whole".to_string(), Document::Number(Number::Float(float(3.0)))),
        ("missing".to_string(), Document::Number(Number::Float(float(f64::NAN)))),
        (
            "list".to_string(),
            Document::Array(vec![Document::Bool(false), Document::Null, Document::Object(vec![])]),
        ),
    ]);
    let value = document_to_value(&doc);
    let written = serde_json::to_string(&value).unwrap();
    let read: Value = serde_json::from_str(&written).unwrap();
    assert_eq!(read, value);
}

#[test]
fn float_takes_floating_point_numbers_and_null() {
    let half = Float::from_encoded(Value::from(0.5f64)).unwrap();
    assert_eq!(half.encoded(), &Value::from(0.5f64));
    let narrow = Float::from_encoded(Value::from(0.5f32)).unwrap();
    assert_eq!(narrow.encoded(), &Value::from(0.5f64));
    let none = Float::from_encoded(Value::from(f64::NAN)).unwrap();
    assert_eq!(none.encoded(), &Value::Null);
    assert!(Float::from_encoded(Value::Null).is_some());
}

#[test]
fn float_turns_down_every_other_value() {
    assert_eq!(Float::from_encoded(Value::from(5u64)), None);
    assert_eq!(Float::from_encoded(Value::from(-5i64)), None);
    assert_eq!(Float::from_encoded(Value::Bool(true)), None);
    assert_eq!(Float::from_encoded(Value::String("1.5".to_string())), None);
    assert_eq!(Float::from_encoded(Value::Array(vec![Value::from(1.5f64)])), None);
    assert_eq!(Float::from_encoded(Value::Object(serde_json::Map::new())), None);
}

#[test]
fn copy_of_a_number_has_its_kind_and_value() {
    assert_eq!(Number::Float(float(2.5)).clone(), Number::Float(float(2.5)));
    assert_eq!(Number::PosInt(3).clone(), Number::PosInt(3));
    assert_eq!(Number::NegInt(-3).clone(), Number::NegInt(-3));
    assert_eq!(float(f64::NAN).clone().encoded(), &Value::Null);
}
