use analyzer_dados::codec::{from_json, to_json, DecodeError};
use analyzer_dados::envelope::OperationResult;
use analyzer_dados::json::JsonValue;

fn success_record() -> OperationResult {
    OperationResult {
        success: true,
        data: Some(JsonValue::Obj(vec![
            ("status".to_string(), JsonValue::Str("ok".to_string())),
            (
                "items".to_string(),
                JsonValue::Arr(vec![JsonValue::Int(1), JsonValue::Int(2)]),
            ),
        ])),
        message: Some("Operação concluída com sucesso".to_string()),
        error: None,
        error_type: None,
        timestamp: 1_700_000_000_123,
    }
}

fn error_record() -> OperationResult {
    OperationResult {
        success: false,
        data: None,
        message: None,
        error: Some("inner step failed".to_string()),
        error_type: Some("ExecutionError".to_string()),
        timestamp: -1,
    }
}

#[test]
fn round_trip_success_record() {
    let decoded = from_json(to_json(success_record())).unwrap();
    assert_eq!(decoded, success_record());
}

#[test]
fn round_trip_error_record() {
    let decoded = from_json(to_json(error_record())).unwrap();
    assert_eq!(decoded, error_record());
}

#[test]
fn round_trip_without_payload() {
    let r = OperationResult {
        data: None,
        ..success_record()
    };
    let again = OperationResult {
        data: None,
        ..success_record()
    };
    assert_eq!(from_json(to_json(r)).unwrap(), again);
}

#[test]
fn encoding_has_the_six_fields_in_order() {
    let v = to_json(success_record());
    match v {
        JsonValue::Obj(fields) => {
            let keys: Vec<&str> = fields.iter().map(|p| p.0.as_str()).collect();
            assert_eq!(
                keys,
                vec!["success", "data", "message", "error", "error_type", "timestamp"]
            );
            assert_eq!(fields[0].1, JsonValue::Bool(true));
            assert_eq!(fields[3].1, JsonValue::Null);
            assert_eq!(fields[5].1, JsonValue::Int(1_700_000_000_123));
        }
        other => panic!("expected an object, got {:?}", other),
    }
}

#[test]
fn absent_optional_fields_encode_as_null() {
    let v = to_json(error_record());
    match v {
        JsonValue::Obj(fields) => {
            assert_eq!(fields[1].1, JsonValue::Null);
            assert_eq!(fields[2].1, JsonValue::Null);
            assert_eq!(fields[3].1, JsonValue::Str("inner step failed".to_string()));
        }
        other => panic!("expected an object, got {:?}", other),
    }
}

#[test]
fn decode_rejects_non_objects() {
    assert_eq!(from_json(JsonValue::Bool(true)), Err(DecodeError::NotAnEnvelope));
    assert_eq!(from_json(JsonValue::Null), Err(DecodeError::NotAnEnvelope));
}

#[test]
fn decode_rejects_wrong_shape() {
    // Too few fields.
    assert_eq!(
        from_json(JsonValue::Obj(vec![("success".to_string(), JsonValue::Bool(true))])),
        Err(DecodeError::NotAnEnvelope)
    );
    // Right arity, wrong key.
    let v = JsonValue::Obj(vec![
        ("success".to_string(), JsonValue::Bool(true)),
        ("payload".to_string(), JsonValue::Null),
        ("message".to_string(), JsonValue::Null),
        ("error".to_string(), JsonValue::Null),
        ("error_type".to_string(), JsonValue::Null),
        ("timestamp".to_string(), JsonValue::Int(0)),
    ]);
    assert_eq!(from_json(v), Err(DecodeError::NotAnEnvelope));
    // Right keys, non-text message.
    let v = JsonValue::Obj(vec![
        ("success".to_string(), JsonValue::Bool(true)),
        ("data".to_string(), JsonValue::Null),
        ("message".to_string(), JsonValue::Int(3)),
        ("error".to_string(), JsonValue::Null),
        ("error_type".to_string(), JsonValue::Null),
        ("timestamp".to_string(), JsonValue::Int(0)),
    ]);
    assert_eq!(from_json(v), Err(DecodeError::NotAnEnvelope));
}

#[test]
fn explicit_null_payload_decodes_as_absent() {
    let r = OperationResult {
        data: Some(JsonValue::Null),
        ..success_record()
    };
    let decoded = from_json(to_json(r)).unwrap();
    assert_eq!(decoded.data, None);
}
