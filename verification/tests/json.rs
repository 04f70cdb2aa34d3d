use ion_cli::json::{to_json_value, IonValue, JsonValue};

#[test]
fn scalars_to_json() {
    assert_eq!(to_json_value(&IonValue::Null), Ok(JsonValue::Null));
    assert_eq!(to_json_value(&IonValue::Bool(true)), Ok(JsonValue::Bool(true)));
    assert_eq!(to_json_value(&IonValue::Int(-7)), Ok(JsonValue::Int(-7)));
    let finite = 1.5f64.to_bits();
    assert_eq!(to_json_value(&IonValue::Float(finite)), Ok(JsonValue::Float(finite)));
    for special in [f64::INFINITY, f64::NEG_INFINITY, f64::NAN] {
        assert_eq!(to_json_value(&IonValue::Float(special.to_bits())), Ok(JsonValue::Null));
    }
    assert_eq!(
        to_json_value(&IonValue::Timestamp("2024-01-02T".to_string())),
        Ok(JsonValue::Str("2024-01-02T".to_string()))
    );
    assert_eq!(to_json_value(&IonValue::Symbol(Some("abc".to_string()))), Ok(JsonValue::Str("abc".to_string())));
    assert_eq!(to_json_value(&IonValue::Symbol(None)), Ok(JsonValue::Null));
    assert_eq!(to_json_value(&IonValue::Str("x y".to_string())), Ok(JsonValue::Str("x y".to_string())));
}

#[test]
fn decimals_become_numbers() {
    assert_eq!(
        to_json_value(&IonValue::Decimal("1.5d2".to_string())),
        Ok(JsonValue::Number("1.5e2".to_string()))
    );
    assert_eq!(to_json_value(&IonValue::Decimal("1.".to_string())), Ok(JsonValue::Number("1".to_string())));
    assert_eq!(
        to_json_value(&IonValue::Decimal("-0.25".to_string())),
        Ok(JsonValue::Number("-0.25".to_string()))
    );
    assert_eq!(
        to_json_value(&IonValue::Decimal("1.d2".to_string())),
        Err("1.d2 could not be turned into a Number".to_string())
    );
}

#[test]
fn lobs_become_base64() {
    assert_eq!(to_json_value(&IonValue::Lob(b"hello".to_vec())), Ok(JsonValue::Str("aGVsbG8=".to_string())));
    assert_eq!(to_json_value(&IonValue::Lob(vec![])), Ok(JsonValue::Str(String::new())));
    assert_eq!(to_json_value(&IonValue::Lob(vec![0xff, 0xfe, 0xfd])), Ok(JsonValue::Str("//79".to_string())));
}

#[test]
fn containers_become_arrays_and_objects() {
    let list = IonValue::List(vec![IonValue::Int(1), IonValue::SExp(vec![IonValue::Bool(false)])]);
    assert_eq!(
        to_json_value(&list),
        Ok(JsonValue::Array(vec![JsonValue::Int(1), JsonValue::Array(vec![JsonValue::Bool(false)])]))
    );
    let strukt = IonValue::Struct(vec![
        (Some("a".to_string()), IonValue::Int(1)),
        (None, IonValue::Int(2)),
        (Some("a".to_string()), IonValue::Int(3)),
    ]);
    assert_eq!(
        to_json_value(&strukt),
        Ok(JsonValue::Object(vec![("a".to_string(), JsonValue::Int(3)), ("$0".to_string(), JsonValue::Int(2))]))
    );
    let bad = IonValue::List(vec![IonValue::Int(1), IonValue::Decimal("0.d1".to_string())]);
    assert_eq!(to_json_value(&bad), Err("0.d1 could not be turned into a Number".to_string()));
}
