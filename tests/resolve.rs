use bankid::client::{resolve_authenticate, resolve_cancel, resolve_collect, resolve_sign, ClientError};
use bankid::model::authenticate::Authenticate;
use bankid::model::cancel::CancelResponse;
use bankid::model::collect::{Cert, CollectResponse, CompletionData, Device, User};
use bankid::model::sign::SignResponse;

fn invalid_body(r: Result<CollectResponse, ClientError>) -> String {
    match r {
        Err(ClientError::InvalidJson(_, body)) => body,
        other => panic!("expected a decode error, got {:?}", other),
    }
}

#[test]
fn collect_pending_scenario() {
    let body = r#"{"orderRef":"abc","status":"pending","hintCode":"outstandingTransaction"}"#;
    let r = resolve_collect(body.to_string()).unwrap();
    assert_eq!(
        r,
        CollectResponse::Pending { order_ref: "abc".to_string(), hint_code: "outstandingTransaction".to_string() }
    );
}

#[test]
fn collect_failed_status() {
    let body = r#"{"orderRef":"abc","status":"failed","hintCode":"userCancel"}"#;
    let r = resolve_collect(body.to_string()).unwrap();
    assert_eq!(r, CollectResponse::Failed { order_ref: "abc".to_string(), hint_code: "userCancel".to_string() });
}

#[test]
fn collect_complete_scenario() {
    let body = r#"{"orderRef":"abc","status":"complete","completionData":{
        "user":{"personalNumber":"190000000000","name":"Karl Karlsson","givenName":"Karl","surname":"Karlsson"},
        "device":{"ipAddress":"192.168.0.1"},
        "cert":{"notBefore":"1502983274000","notAfter":"1563549674000"},
        "signature":"PD94bWwgdmVyc2lvbj0iMS4wIj8+","ocspResponse":"MIIHfgoBAKCCB3cw"}}"#;
    let r = resolve_collect(body.to_string()).unwrap();
    let expected = CollectResponse::Complete {
        order_ref: "abc".to_string(),
        completion_data: CompletionData {
            user: User {
                personal_number: "190000000000".to_string(),
                name: "Karl Karlsson".to_string(),
                given_name: "Karl".to_string(),
                surname: "Karlsson".to_string(),
            },
            device: Device { ip_address: "192.168.0.1".to_string() },
            cert: Cert { not_before: "1502983274000".to_string(), not_after: "1563549674000".to_string() },
            signature: "PD94bWwgdmVyc2lvbj0iMS4wIj8+".to_string(),
            ocsp_response: "MIIHfgoBAKCCB3cw".to_string(),
        },
    };
    assert_eq!(r, expected);
}

#[test]
fn collect_complete_missing_nested_field_is_decode_error() {
    let body = r#"{"orderRef":"abc","status":"complete","completionData":{"user":{"name":"K"}}}"#;
    assert_eq!(invalid_body(resolve_collect(body.to_string())), body);
}

#[test]
fn collect_error_scenario() {
    let body = r#"{"errorCode":"requestTimeout","details":"Try again"}"#;
    let r = resolve_collect(body.to_string()).unwrap();
    assert_eq!(r, CollectResponse::Error { error_code: "requestTimeout".to_string(), details: "Try again".to_string() });
}

#[test]
fn collect_error_first_even_with_unknown_status() {
    let body = r#"{"errorCode":"invalidParameters","details":"No such order","status":"mystery"}"#;
    let r = resolve_collect(body.to_string()).unwrap();
    assert_eq!(
        r,
        CollectResponse::Error { error_code: "invalidParameters".to_string(), details: "No such order".to_string() }
    );
}

#[test]
fn collect_error_first_even_with_valid_status() {
    let body = r#"{"errorCode":"x","details":"y","orderRef":"abc","status":"pending","hintCode":"h"}"#;
    let r = resolve_collect(body.to_string()).unwrap();
    assert_eq!(r, CollectResponse::Error { error_code: "x".to_string(), details: "y".to_string() });
}

#[test]
fn collect_unknown_status_is_decode_error() {
    let body = r#"{"orderRef":"abc","status":"mystery","hintCode":"h"}"#;
    assert_eq!(invalid_body(resolve_collect(body.to_string())), body);
}

#[test]
fn collect_malformed_is_decode_error() {
    for body in ["", "not json", "[1,2]", "{\"orderRef\":", "null", "{}"] {
        assert_eq!(invalid_body(resolve_collect(body.to_string())), body);
    }
}

#[test]
fn authenticate_error_scenario() {
    let body = r#"{"errorCode":"alreadyInProgress","details":"An order is already in progress"}"#;
    let r = resolve_authenticate(body.to_string()).unwrap();
    assert_eq!(
        r,
        Authenticate::Error {
            error_code: "alreadyInProgress".to_string(),
            details: "An order is already in progress".to_string()
        }
    );
}

#[test]
fn authenticate_success_resolves() {
    let body = r#"{"orderRef":"131daac9","autoStartToken":"7c40b5c9","qrStartToken":"67df3917","qrStartSecret":"d28db9a7"}"#;
    let r = resolve_authenticate(body.to_string()).unwrap();
    assert_eq!(
        r,
        Authenticate::Success {
            auto_start_token: "7c40b5c9".to_string(),
            order_ref: "131daac9".to_string(),
            qr_start_token: "67df3917".to_string(),
            qr_start_secret: "d28db9a7".to_string(),
        }
    );
}

#[test]
fn sign_success_and_error_resolve() {
    let ok = r#"{"orderRef":"o","autoStartToken":"a","qrStartToken":"t","qrStartSecret":"s"}"#;
    assert_eq!(
        resolve_sign(ok.to_string()).unwrap(),
        SignResponse::Success {
            auto_start_token: "a".to_string(),
            order_ref: "o".to_string(),
            qr_start_token: "t".to_string(),
            qr_start_secret: "s".to_string(),
        }
    );
    let err = r#"{"errorCode":"invalidParameters","details":"d"}"#;
    assert_eq!(
        resolve_sign(err.to_string()).unwrap(),
        SignResponse::Error { error_code: "invalidParameters".to_string(), details: "d".to_string() }
    );
}

#[test]
fn start_partial_success_is_decode_error() {
    let body = r#"{"orderRef":"o","autoStartToken":"a"}"#;
    match resolve_authenticate(body.to_string()) {
        Err(ClientError::InvalidJson(_, b)) => assert_eq!(b, body),
        other => panic!("unexpected {:?}", other),
    }
    match resolve_sign("<html>".to_string()) {
        Err(ClientError::InvalidJson(_, b)) => assert_eq!(b, "<html>"),
        other => panic!("unexpected {:?}", other),
    }
}

#[test]
fn start_wrong_field_type_is_decode_error() {
    let body = r#"{"orderRef":1,"autoStartToken":"a","qrStartToken":"t","qrStartSecret":"s"}"#;
    match resolve_authenticate(body.to_string()) {
        Err(ClientError::InvalidJson(_, b)) => assert_eq!(b, body),
        other => panic!("unexpected {:?}", other),
    }
}

#[test]
fn cancel_resolves() {
    assert_eq!(resolve_cancel("{}".to_string()).unwrap(), CancelResponse {});
    match resolve_cancel(r#"{"errorCode":"invalidParameters","details":"gone"}"#.to_string()) {
        Err(ClientError::Api(e)) => {
            assert_eq!(e.error_code, "invalidParameters");
            assert_eq!(e.details, "gone");
        },
        other => panic!("unexpected {:?}", other),
    }
    match resolve_cancel("oops".to_string()) {
        Err(ClientError::InvalidJson(_, b)) => assert_eq!(b, "oops"),
        other => panic!("unexpected {:?}", other),
    }
}

#[test]
fn escaped_strings_are_decoded() {
    let body = r#"{"orderRef":"a\"bå","status":"pending","hintCode":"x\\y"}"#;
    let r = resolve_collect(body.to_string()).unwrap();
    assert_eq!(r, CollectResponse::Pending { order_ref: "a\"bå".to_string(), hint_code: "x\\y".to_string() });
}

#[test]
fn decode_error_keeps_json_error_only_for_non_objects() {
    match resolve_collect("not json".to_string()) {
        Err(ClientError::InvalidJson(Some(_), b)) => assert_eq!(b, "not json"),
        other => panic!("unexpected {:?}", other),
    }
    match resolve_authenticate("{}".to_string()) {
        Err(ClientError::InvalidJson(None, b)) => assert_eq!(b, "{}"),
        other => panic!("unexpected {:?}", other),
    }
    match resolve_cancel("[]".to_string()) {
        Err(ClientError::InvalidJson(Some(_), b)) => assert_eq!(b, "[]"),
        other => panic!("unexpected {:?}", other),
    }
}
