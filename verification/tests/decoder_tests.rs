use discord_ipc::{ActivityCmd, ActivityEvent, DiscordIPCError, DiscordIPCErrorCode,
    DiscordIPCErrorCodeCritical, DiscordIPCResponse, Error, JsonValue};

fn decode(body: &[u8]) -> Result<DiscordIPCResponse, Error> {
    DiscordIPCResponse::deserialize(&body.to_vec())
}

#[test]
fn test_error_shape_decodes_to_error_variant() {
    let r = decode(b"{\"error\":1000,\"message\":\"bye\"}").expect("decodes");
    match r {
        DiscordIPCResponse::Error(e) => {
            assert_eq!(
                e.code,
                DiscordIPCErrorCode::Critical(DiscordIPCErrorCodeCritical::CloseNormal)
            );
            assert_eq!(e.message, "bye");
        }
        other => panic!("expected the error variant, got {:?}", other),
    }
}

#[test]
fn test_error_shape_with_extra_keys() {
    let r = decode(b"{\"foo\":1,\"error\":1006,\"message\":\"gone\",\"bar\":[2]}").expect("decodes");
    match r {
        DiscordIPCResponse::Error(e) => {
            assert_eq!(
                e.code,
                DiscordIPCErrorCode::Critical(DiscordIPCErrorCodeCritical::CloseAbnormal)
            );
            assert_eq!(e.message, "gone");
        }
        other => panic!("expected the error variant, got {:?}", other),
    }
}

#[test]
fn test_unknown_code_fails_with_invalid_error_code() {
    let r = decode(b"{\"error\":9999,\"message\":\"x\"}");
    assert!(matches!(r, Err(Error::InvalidErrorCode)), "got {:?}", r);
}

#[test]
fn test_command_shape_decodes_to_command_variant() {
    let r = decode(
        b"{\"cmd\":\"SET_ACTIVITY\",\"nonce\":\"abc\",\"data\":{\"x\":1},\"evt\":\"READY\"}",
    )
    .expect("decodes");
    match r {
        DiscordIPCResponse::Command(c) => {
            assert_eq!(c.cmd, ActivityCmd::SetActivity);
            assert_eq!(c.nonce, Some("abc".to_string()));
            assert_eq!(c.evt, Some(ActivityEvent::Ready));
            assert_eq!(c.args, None);
            match c.data {
                JsonValue::Raw(text) => {
                    let v: serde_json::Value = serde_json::from_str(&text).unwrap();
                    assert_eq!(v["x"].as_u64(), Some(1));
                }
                other => panic!("expected a raw nested value, got {:?}", other),
            }
        }
        other => panic!("expected the command variant, got {:?}", other),
    }
}

#[test]
fn test_command_with_null_optionals() {
    let r = decode(b"{\"cmd\":\"DISPATCH\",\"nonce\":null,\"data\":null,\"evt\":null}")
        .expect("decodes");
    match r {
        DiscordIPCResponse::Command(c) => {
            assert_eq!(c.cmd, ActivityCmd::Dispatch);
            assert_eq!(c.nonce, None);
            assert_eq!(c.evt, None);
            assert_eq!(c.data, JsonValue::Null);
        }
        other => panic!("expected the command variant, got {:?}", other),
    }
}

#[test]
fn test_lone_error_key_decodes_as_command() {
    // With no message alongside it, the error entry is consumed by the
    // key scan and the remaining fields decode as a command.
    let r = decode(b"{\"error\":1000,\"cmd\":\"DISPATCH\",\"data\":1}").expect("decodes");
    match r {
        DiscordIPCResponse::Command(c) => {
            assert_eq!(c.cmd, ActivityCmd::Dispatch);
            assert_eq!(c.data, JsonValue::UInt(1));
        }
        other => panic!("expected the command variant, got {:?}", other),
    }
}

#[test]
fn test_missing_cmd_fails() {
    let r = decode(b"{\"data\":1}");
    assert!(matches!(r, Err(Error::Json(_))), "got {:?}", r);
}

#[test]
fn test_missing_data_fails() {
    let r = decode(b"{\"cmd\":\"DISPATCH\"}");
    assert!(matches!(r, Err(Error::Json(_))), "got {:?}", r);
}

#[test]
fn test_unknown_cmd_name_fails() {
    let r = decode(b"{\"cmd\":\"NO_SUCH_COMMAND\",\"data\":1}");
    assert!(matches!(r, Err(Error::Json(_))), "got {:?}", r);
}

#[test]
fn test_unknown_evt_name_fails() {
    let r = decode(b"{\"cmd\":\"DISPATCH\",\"data\":1,\"evt\":\"NO_SUCH_EVENT\"}");
    assert!(matches!(r, Err(Error::Json(_))), "got {:?}", r);
}

#[test]
fn test_malformed_message_fails() {
    let r = decode(b"{\"error\":1000,\"message\":5}");
    assert!(matches!(r, Err(Error::Json(_))), "got {:?}", r);
}

#[test]
fn test_error_code_of_wrong_type_fails() {
    let r = decode(b"{\"error\":\"oops\",\"message\":\"m\"}");
    assert!(matches!(r, Err(Error::Json(_))), "got {:?}", r);
}

#[test]
fn test_non_object_fails() {
    assert!(matches!(decode(b"[1,2]"), Err(Error::Json(_))));
    assert!(matches!(decode(b"17"), Err(Error::Json(_))));
    assert!(matches!(decode(b"{"), Err(Error::Json(_))));
    assert!(matches!(decode(b""), Err(Error::Json(_))));
}

#[test]
fn test_data_value_variants() {
    let cases: &[(&[u8], JsonValue)] = &[
        (b"{\"cmd\":\"DISPATCH\",\"data\":-5}", JsonValue::Int(-5)),
        (b"{\"cmd\":\"DISPATCH\",\"data\":true}", JsonValue::Bool(true)),
        (b"{\"cmd\":\"DISPATCH\",\"data\":7}", JsonValue::UInt(7)),
        (
            b"{\"cmd\":\"DISPATCH\",\"data\":\"text\"}",
            JsonValue::Text("text".to_string()),
        ),
        (b"{\"cmd\":\"DISPATCH\",\"data\":1.5}", JsonValue::Raw("1.5".to_string())),
        (b"{\"cmd\":\"DISPATCH\",\"data\":[1,2]}", JsonValue::Raw("[1,2]".to_string())),
    ];
    for (body, expected) in cases {
        match decode(body).expect("decodes") {
            DiscordIPCResponse::Command(c) => assert_eq!(&c.data, expected),
            other => panic!("expected the command variant, got {:?}", other),
        }
    }
}

#[test]
fn test_args_field_carried_through() {
    let r = decode(b"{\"cmd\":\"DISPATCH\",\"args\":{\"k\":true},\"data\":null}").expect("decodes");
    match r {
        DiscordIPCResponse::Command(c) => match c.args {
            Some(JsonValue::Raw(text)) => {
                let v: serde_json::Value = serde_json::from_str(&text).unwrap();
                assert_eq!(v["k"], serde_json::Value::Bool(true));
            }
            other => panic!("expected raw args, got {:?}", other),
        },
        other => panic!("expected the command variant, got {:?}", other),
    }
}

#[test]
fn test_from_object_short_circuits_after_both_keys() {
    // The single pass stops as soon as both branch-defining keys were
    // seen: the malformed entry after them is never examined.
    let obj = vec![
        ("error".to_string(), JsonValue::UInt(1000)),
        ("message".to_string(), JsonValue::Text("m".to_string())),
        ("error".to_string(), JsonValue::Text("bad".to_string())),
    ];
    match DiscordIPCResponse::from_object(obj).expect("decodes") {
        DiscordIPCResponse::Error(e) => {
            assert_eq!(
                e.code,
                DiscordIPCErrorCode::Critical(DiscordIPCErrorCodeCritical::CloseNormal)
            );
        }
        other => panic!("expected the error variant, got {:?}", other),
    }
}

#[test]
fn test_from_object_last_duplicate_field_wins() {
    let obj = vec![
        ("cmd".to_string(), JsonValue::Text("DISPATCH".to_string())),
        ("cmd".to_string(), JsonValue::Text("SET_ACTIVITY".to_string())),
        ("data".to_string(), JsonValue::Null),
    ];
    match DiscordIPCResponse::from_object(obj).expect("decodes") {
        DiscordIPCResponse::Command(c) => assert_eq!(c.cmd, ActivityCmd::SetActivity),
        other => panic!("expected the command variant, got {:?}", other),
    }
}

#[test]
fn test_describe_error() {
    let e = DiscordIPCError {
        code: DiscordIPCErrorCode::Critical(DiscordIPCErrorCodeCritical::CloseNormal),
        message: "oops".to_string(),
    };
    assert_eq!(e.describe(), "Discord IPC error [Critical]: oops");
}
