use bankid::error::ApiError;
use bankid::model::authenticate::AuthenticatePayload;
use bankid::model::cancel::CancelPayload;
use bankid::model::collect::CollectPayload;
use bankid::model::sign::{SignPayload, UserVisibleDataFormat};
use bankid::model::Requirement;

fn full_requirement() -> Requirement {
    Requirement {
        card_reader: Some("class1".to_string()),
        certificate_policies: vec!["1.2.752.78.1.5".to_string(), "1.2.752.71.1.3".to_string()],
        issuer_cn: Some("Test \"CA\"".to_string()),
        auto_start_token_required: Some(true),
        allow_fingerprint: Some(false),
    }
}

#[test]
fn authenticate_payload_text() {
    let p = AuthenticatePayload {
        personal_number: Some("199001011234".to_string()),
        end_user_ip: "123.123.123.123".to_string(),
        requirement: None,
    };
    assert_eq!(p.to_json(), r#"{"personalNumber":"199001011234","endUserIP":"123.123.123.123"}"#);
}

#[test]
fn authenticate_payload_round_trip() {
    let cases = vec![
        AuthenticatePayload { personal_number: None, end_user_ip: "::1".to_string(), requirement: None },
        AuthenticatePayload {
            personal_number: Some("199001011234".to_string()),
            end_user_ip: "10.0.0.1".to_string(),
            requirement: Some(full_requirement()),
        },
        AuthenticatePayload {
            personal_number: None,
            end_user_ip: "10.0.0.1".to_string(),
            requirement: Some(Requirement {
                card_reader: None,
                certificate_policies: vec![],
                issuer_cn: None,
                auto_start_token_required: None,
                allow_fingerprint: Some(true),
            }),
        },
    ];
    for p in cases {
        let text = p.to_json();
        assert_eq!(AuthenticatePayload::from_json(&text), Some(p));
    }
}

#[test]
fn sign_payload_round_trip() {
    let p = SignPayload {
        personal_number: Some("199001011234".to_string()),
        end_user_ip: "2001:db8::1".to_string(),
        user_visible_data: "VGV4dCB0byBzaWdu".to_string(),
        user_non_visible_data: Some("aGlkZGVu".to_string()),
        user_visible_data_format: Some(UserVisibleDataFormat::SimpleMarkdownV1),
        requirement: Some(full_requirement()),
    };
    let text = p.to_json();
    assert!(text.contains(r#""userVisibleDataFormat":"simpleMarkdownV1""#));
    assert_eq!(SignPayload::from_json(&text), Some(p));

    let q = SignPayload {
        personal_number: None,
        end_user_ip: "1.2.3.4".to_string(),
        user_visible_data: "eA==".to_string(),
        user_non_visible_data: None,
        user_visible_data_format: None,
        requirement: None,
    };
    assert_eq!(q.to_json(), r#"{"endUserIP":"1.2.3.4","userVisibleData":"eA=="}"#);
    assert_eq!(SignPayload::from_json(&q.to_json()), Some(q));
}

#[test]
fn sign_payload_unknown_format_is_refused() {
    let text = r#"{"endUserIP":"1.2.3.4","userVisibleData":"eA==","userVisibleDataFormat":"html"}"#;
    assert_eq!(SignPayload::from_json(text), None);
}

#[test]
fn payload_missing_ip_is_refused() {
    assert_eq!(AuthenticatePayload::from_json(r#"{"personalNumber":"1"}"#), None);
    assert_eq!(AuthenticatePayload::from_json("[]"), None);
}

#[test]
fn null_optional_fields_read_as_absent() {
    let text = r#"{"personalNumber":null,"endUserIP":"1.2.3.4"}"#;
    assert_eq!(
        AuthenticatePayload::from_json(text),
        Some(AuthenticatePayload { personal_number: None, end_user_ip: "1.2.3.4".to_string(), requirement: None })
    );
}

#[test]
fn order_ref_payloads() {
    let c = CollectPayload { order_ref: "ab\"c".to_string() };
    assert_eq!(c.to_json(), r#"{"orderRef":"ab\"c"}"#);
    assert_eq!(CollectPayload::from_json(&c.to_json()), Some(c));
    let k = CancelPayload { order_ref: "xyz".to_string() };
    assert_eq!(k.to_json(), r#"{"orderRef":"xyz"}"#);
    assert_eq!(CancelPayload::from_json(&k.to_json()), Some(k));
}

#[test]
fn requirement_fields_skip_absent_values() {
    let r = Requirement {
        card_reader: None,
        certificate_policies: vec![],
        issuer_cn: None,
        auto_start_token_required: Some(false),
        allow_fingerprint: None,
    };
    assert_eq!(r.to_fields(), vec![("autoStartTokenRequired".to_string(), "false".to_string())]);
    assert_eq!(Requirement::from_fields(&r.to_fields()), Some(r));
}

#[test]
fn api_error_message_and_reading() {
    let e = ApiError::from_json(r#"{"errorCode":"internalError","details":"boom"}"#).unwrap();
    assert_eq!(e.message(), "(errorCode: internalError, details: boom)");
    assert_eq!(ApiError::from_json(r#"{"errorCode":"x"}"#), None);
}
