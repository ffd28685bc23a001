use rig_bedrock::document::{Document, Number};
use rig_bedrock::json::{finite_bits, JsonNumber, JsonValue};
use rig_bedrock::{document_to_json, json_to_document};

fn from_serde(value: serde_json::Value) -> JsonValue {
    match value {
        serde_json::Value::Null => JsonValue::Null,
        serde_json::Value::Bool(b) => JsonValue::Bool(b),
        serde_json::Value::Number(n) => {
            if let Some(u) = n.as_u64() {
                JsonValue::Number(JsonNumber::PosInt(u))
            } else if let Some(i) = n.as_i64() {
                JsonValue::Number(JsonNumber::NegInt(i))
            } else {
                JsonValue::Number(JsonNumber::Float(n.as_f64().unwrap().to_bits()))
            }
        }
        serde_json::Value::String(s) => JsonValue::String(s),
        serde_json::Value::Array(items) => {
            JsonValue::Array(items.into_iter().map(from_serde).collect())
        }
        serde_json::Value::Object(members) => JsonValue::Object(
            members
                .into_iter()
                .map(|(key, value)| (key, from_serde(value)))
                .collect(),
        ),
    }
}

fn text(s: &str) -> String {
    String::from(s)
}

fn schema_json() -> JsonValue {
    JsonValue::Object(vec![
        (text("type"), JsonValue::String(text("object"))),
        (
            text("properties"),
            JsonValue::Object(vec![
                (
                    text("x"),
                    JsonValue::Object(vec![
                        (text("type"), JsonValue::String(text("number"))),
                        (
                            text("description"),
                            JsonValue::String(text("The first number to add")),
                        ),
                    ]),
                ),
                (
                    text("y"),
                    JsonValue::Object(vec![
                        (text("type"), JsonValue::String(text("number"))),
                        (
                            text("description"),
                            JsonValue::String(text("The second number to add")),
                        ),
                    ]),
                ),
            ]),
        ),
        (
            text("required"),
            JsonValue::Array(vec![
                JsonValue::String(text("x")),
                JsonValue::String(text("y")),
            ]),
        ),
    ])
}

fn schema_document() -> Document {
    Document::Object(vec![
        (text("type"), Document::String(text("object"))),
        (
            text("properties"),
            Document::Object(vec![
                (
                    text("x"),
                    Document::Object(vec![
                        (text("type"), Document::String(text("number"))),
                        (
                            text("description"),
                            Document::String(text("The first number to add")),
                        ),
                    ]),
                ),
                (
                    text("y"),
                    Document::Object(vec![
                        (text("type"), Document::String(text("number"))),
                        (
                            text("description"),
                            Document::String(text("The second number to add")),
                        ),
                    ]),
                ),
            ]),
        ),
        (
            text("required"),
            Document::Array(vec![
                Document::String(text("x")),
                Document::String(text("y")),
            ]),
        ),
    ])
}

#[test]
fn test_json_to_document() {
    let json = r#"
            {
                "type": "object",
                "properties": {
                    "x": {
                        "type": "number",
                        "description": "The first number to add"
                    },
                    "y": {
                        "type": "number",
                        "description": "The second number to add"
                    }
                },
                "required":["x", "y"]
            }
        "#;

    let value: serde_json::Value = serde_json::from_str(json).unwrap();
    let document = json_to_document(from_serde(value));
    println!("{:?}", document);
    match &document {
        Document::Object(members) => {
            assert_eq!(members.len(), 3);
            assert!(members
                .iter()
                .any(|(key, value)| key == "type" && *value == Document::String(text("object"))));
            assert!(members.iter().any(|(key, value)| key == "required"
                && *value
                    == Document::Array(vec![
                        Document::String(text("x")),
                        Document::String(text("y"))
                    ])));
        }
        other => panic!("expected an object, got {:?}", other),
    }
}

#[test]
fn test_document_to_json() {
    let document = schema_document();
    let json = document_to_json(document);
    println!("{:?}", json);
    assert_eq!(json, schema_json());
}

#[test]
fn schema_converts_member_by_member_in_order() {
    assert_eq!(json_to_document(schema_json()), schema_document());
}

#[test]
fn round_trip_reproduces_nested_value() {
    let value = || {
        JsonValue::Object(vec![
            (text("null"), JsonValue::Null),
            (text("yes"), JsonValue::Bool(true)),
            (text("no"), JsonValue::Bool(false)),
            (text("zero"), JsonValue::Number(JsonNumber::PosInt(0))),
            (text("big"), JsonValue::Number(JsonNumber::PosInt(u64::MAX))),
            (text("small"), JsonValue::Number(JsonNumber::NegInt(i64::MIN))),
            (
                text("half"),
                JsonValue::Number(JsonNumber::Float(0.5f64.to_bits())),
            ),
            (
                text("list"),
                JsonValue::Array(vec![
                    JsonValue::String(text("a")),
                    JsonValue::Array(vec![]),
                    JsonValue::Object(vec![]),
                    JsonValue::Number(JsonNumber::NegInt(-7)),
                ]),
            ),
        ])
    };
    assert_eq!(document_to_json(json_to_document(value())), value());
}

#[test]
fn round_trip_keeps_integers_and_floats_apart() {
    let integer = JsonValue::Number(JsonNumber::PosInt(2));
    let float = JsonValue::Number(JsonNumber::Float(2.0f64.to_bits()));
    assert_eq!(
        document_to_json(json_to_document(JsonValue::Number(JsonNumber::PosInt(2)))),
        integer
    );
    assert_eq!(
        document_to_json(json_to_document(JsonValue::Number(JsonNumber::Float(
            2.0f64.to_bits()
        )))),
        float
    );
    assert_ne!(integer, float);
}

#[test]
fn negative_integer_becomes_negative_variant() {
    assert_eq!(
        json_to_document(JsonValue::Number(JsonNumber::NegInt(-1))),
        Document::Number(Number::NegInt(-1))
    );
    assert_eq!(
        json_to_document(JsonValue::Number(JsonNumber::NegInt(i64::MIN))),
        Document::Number(Number::NegInt(i64::MIN))
    );
}

#[test]
fn zero_and_positive_integers_become_positive_variant() {
    assert_eq!(
        json_to_document(JsonValue::Number(JsonNumber::PosInt(0))),
        Document::Number(Number::PosInt(0))
    );
    assert_eq!(
        json_to_document(JsonValue::Number(JsonNumber::NegInt(0))),
        Document::Number(Number::PosInt(0))
    );
    assert_eq!(
        json_to_document(JsonValue::Number(JsonNumber::NegInt(41))),
        Document::Number(Number::PosInt(41))
    );
    assert_eq!(
        json_to_document(JsonValue::Number(JsonNumber::PosInt(u64::MAX))),
        Document::Number(Number::PosInt(u64::MAX))
    );
}

#[test]
fn non_integral_number_becomes_float_variant() {
    assert_eq!(
        json_to_document(JsonValue::Number(JsonNumber::Float(1.25f64.to_bits()))),
        Document::Number(Number::Float(1.25f64.to_bits()))
    );
}

#[test]
fn parsed_numbers_are_classified_by_sign() {
    let value: serde_json::Value = serde_json::from_str("[-3, 0, 3, 3.5]").unwrap();
    assert_eq!(
        json_to_document(from_serde(value)),
        Document::Array(vec![
            Document::Number(Number::NegInt(-3)),
            Document::Number(Number::PosInt(0)),
            Document::Number(Number::PosInt(3)),
            Document::Number(Number::Float(3.5f64.to_bits())),
        ])
    );
}

#[test]
fn non_finite_floats_become_null() {
    for float in [f64::NAN, f64::INFINITY, f64::NEG_INFINITY, -f64::NAN] {
        assert_eq!(
            document_to_json(Document::Number(Number::Float(float.to_bits()))),
            JsonValue::Null
        );
    }
    assert_eq!(
        document_to_json(Document::Array(vec![
            Document::Number(Number::Float(f64::NAN.to_bits())),
            Document::Number(Number::Float(1.0f64.to_bits())),
        ])),
        JsonValue::Array(vec![
            JsonValue::Null,
            JsonValue::Number(JsonNumber::Float(1.0f64.to_bits())),
        ])
    );
}

#[test]
fn finite_floats_stay_floats() {
    for float in [0.0f64, -0.0, 1.5, f64::MAX, f64::MIN, f64::MIN_POSITIVE, 5e-324] {
        assert_eq!(
            document_to_json(Document::Number(Number::Float(float.to_bits()))),
            JsonValue::Number(JsonNumber::Float(float.to_bits()))
        );
    }
}

#[test]
fn finite_bits_agrees_with_the_float() {
    for float in [
        0.0f64,
        -1.0,
        f64::MAX,
        5e-324,
        f64::NAN,
        f64::INFINITY,
        f64::NEG_INFINITY,
    ] {
        assert_eq!(finite_bits(float.to_bits()), float.is_finite());
    }
}

#[test]
fn document_integers_become_json_integers() {
    assert_eq!(
        document_to_json(Document::Number(Number::PosInt(9))),
        JsonValue::Number(JsonNumber::PosInt(9))
    );
    assert_eq!(
        document_to_json(Document::Number(Number::NegInt(-9))),
        JsonValue::Number(JsonNumber::NegInt(-9))
    );
    assert_eq!(
        document_to_json(Document::Number(Number::NegInt(9))),
        JsonValue::Number(JsonNumber::PosInt(9))
    );
}

#[test]
fn document_copy_equals_the_document() {
    let document = schema_document();
    assert_eq!(document.clone(), document);
}

#[test]
fn canonical_document_comes_back_from_json() {
    let document = || {
        Document::Object(vec![
            (text("n"), Document::Null),
            (text("p"), Document::Number(Number::PosInt(0))),
            (text("m"), Document::Number(Number::NegInt(-12))),
            (text("f"), Document::Number(Number::Float((-0.25f64).to_bits()))),
            (
                text("a"),
                Document::Array(vec![Document::Bool(true), Document::String(text("s"))]),
            ),
        ])
    };
    assert_eq!(json_to_document(document_to_json(document())), document());
}

#[test]
fn object_members_keep_their_order() {
    let value = JsonValue::Object(vec![
        (text("b"), JsonValue::Null),
        (text("a"), JsonValue::Null),
        (text("c"), JsonValue::Null),
    ]);
    match json_to_document(value) {
        Document::Object(members) => {
            let keys: Vec<&str> = members.iter().map(|(key, _)| key.as_str()).collect();
            assert_eq!(keys, vec!["b", "a", "c"]);
        }
        other => panic!("expected an object, got {:?}", other),
    }
}

#[test]
fn json_copy_equals_the_value() {
    let value = schema_json();
    assert_eq!(value.clone(), value);
}
