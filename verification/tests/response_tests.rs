use duo_auth::AuthResult;
use duo_auth::AuthStatus;
use duo_auth::DeviceCapability;
use duo_auth::DeviceType;
use duo_auth::DuoResponse;
use duo_auth::EnrollStatusResponse;
use duo_auth::Error;
use duo_auth::Json;
use duo_auth::PreauthResponse;
use duo_auth::decode_auth_status;
use duo_auth::decode_enroll;
use duo_auth::decode_enroll_status;
use duo_auth::decode_envelope;
use duo_auth::decode_preauth;
use duo_auth::decode_time;
use duo_auth::decode_txid;

fn obj(fields: Vec<(&str, Json)>) -> Json {
    Json::Obj(
        fields
            .into_iter()
            .map(|(k, v)| (String::from(k), v))
            .collect(),
    )
}

fn s(v: &str) -> Json {
    Json::Str(String::from(v))
}

#[test]
fn envelope_ok_with_time_decodes_to_success() {
    let j = obj(vec![
        ("stat", s("OK")),
        ("response", obj(vec![("time", Json::UInt(123))])),
    ]);
    match decode_envelope(j).unwrap() {
        DuoResponse::Success { response } => {
            assert_eq!(decode_time(&response).unwrap(), 123);
        }
        _ => panic!("expected the success side"),
    }
}

#[test]
fn envelope_fail_decodes_to_failure_with_code_and_no_detail() {
    let j = obj(vec![
        ("stat", s("FAIL")),
        ("code", Json::UInt(40002)),
        ("message", s("Invalid signature")),
        ("message_detail", Json::Null),
    ]);
    let envelope: DuoResponse<Json> = decode_envelope(j).unwrap();
    match envelope {
        DuoResponse::Failure {
            code,
            message,
            message_detail,
        } => {
            assert_eq!(code, 40002);
            assert_eq!(message, "Invalid signature");
            assert!(message_detail.is_none());
        }
        _ => panic!("expected the failure side"),
    }
}

#[test]
fn failure_becomes_the_api_request_error() {
    let j = obj(vec![
        ("stat", s("FAIL")),
        ("code", Json::UInt(40101)),
        ("message", s("Missing request credentials")),
        ("message_detail", s("no Authorization header")),
    ]);
    let r: Result<Json, Error> = decode_envelope(j).unwrap().ok();
    match r {
        Err(Error::ApiRequestFailed {
            code,
            message,
            message_detail,
        }) => {
            assert_eq!(code, 40101);
            assert_eq!(message, "Missing request credentials");
            assert_eq!(message_detail.as_deref(), Some("no Authorization header"));
        }
        _ => panic!("expected the API-request error"),
    }
}

#[test]
fn stat_is_read_without_regard_to_ascii_case() {
    let ok = obj(vec![("stat", s("ok")), ("response", Json::UInt(1))]);
    assert!(matches!(
        decode_envelope(ok).unwrap(),
        DuoResponse::Success { .. }
    ));
    let fail = obj(vec![
        ("stat", s("Fail")),
        ("code", Json::UInt(1)),
        ("message", s("m")),
    ]);
    assert!(matches!(
        decode_envelope(fail).unwrap(),
        DuoResponse::Failure { .. }
    ));
}

#[test]
fn malformed_envelopes_are_the_unspecified_error() {
    let missing_stat = obj(vec![("response", Json::UInt(1))]);
    assert!(matches!(
        decode_envelope(missing_stat),
        Err(Error::Unspecified { .. })
    ));
    let ok_without_response = obj(vec![("stat", s("OK"))]);
    assert!(matches!(
        decode_envelope(ok_without_response),
        Err(Error::Unspecified { .. })
    ));
    let fail_without_code = obj(vec![("stat", s("FAIL")), ("message", s("m"))]);
    assert!(matches!(
        decode_envelope(fail_without_code),
        Err(Error::Unspecified { .. })
    ));
}

#[test]
fn txid_is_read_from_the_auth_payload() {
    let j = obj(vec![("txid", s("TX-42"))]);
    assert_eq!(decode_txid(&j).unwrap(), "TX-42");
    assert!(decode_txid(&obj(vec![])).is_err());
}

fn status_payload(result: &str) -> Json {
    obj(vec![
        ("result", s(result)),
        ("status", s("pushed")),
        ("status_msg", s("Pushed a login request")),
    ])
}

#[test]
fn auth_status_waiting_is_not_ready() {
    let v = decode_auth_status(&status_payload("waiting")).unwrap();
    assert_eq!(v.ready(), None);
    assert_eq!(v.result, AuthResult::Waiting);
    assert_eq!(v.status, AuthStatus::Pushed);
    assert_eq!(v.status_msg, "Pushed a login request");
    assert!(v.trusted_device_token.is_none());
}

#[test]
fn auth_status_allow_is_ready_true() {
    let v = decode_auth_status(&status_payload("allow")).unwrap();
    assert_eq!(v.ready(), Some(true));
}

#[test]
fn auth_status_deny_is_ready_false() {
    let v = decode_auth_status(&status_payload("deny")).unwrap();
    assert_eq!(v.ready(), Some(false));
}

#[test]
fn auth_status_keeps_the_trusted_device_token() {
    let j = obj(vec![
        ("result", s("allow")),
        ("status", s("allow")),
        ("status_msg", s("Success.")),
        ("trusted_device_token", s("TOKEN1")),
    ]);
    let v = decode_auth_status(&j).unwrap();
    assert_eq!(v.trusted_device_token.as_deref(), Some("TOKEN1"));
}

#[test]
fn auth_status_rejects_an_unknown_result() {
    assert!(matches!(
        decode_auth_status(&status_payload("maybe")),
        Err(Error::Unspecified { .. })
    ));
}

#[test]
fn enroll_payload_decodes_field_by_field() {
    let j = obj(vec![
        ("activation_barcode", s("https://example/barcode")),
        ("activation_code", s("CODE:XYZ")),
        ("expiration", Json::UInt(86400)),
        ("user_id", s("U1")),
        ("username", s("bob")),
    ]);
    let v = decode_enroll(&j).unwrap();
    assert_eq!(v.activation_barcode, "https://example/barcode");
    assert_eq!(v.activation_code, "CODE:XYZ");
    assert_eq!(v.expiration, 86400);
    assert_eq!(v.user_id, "U1");
    assert_eq!(v.username, "bob");
}

#[test]
fn enroll_status_reads_the_bare_string() {
    assert_eq!(
        decode_enroll_status(&s("success")).unwrap(),
        EnrollStatusResponse::Success
    );
    assert_eq!(
        decode_enroll_status(&s("invalid")).unwrap(),
        EnrollStatusResponse::Invalid
    );
    assert_eq!(
        decode_enroll_status(&s("waiting")).unwrap(),
        EnrollStatusResponse::Waiting
    );
    assert!(decode_enroll_status(&s("nope")).is_err());
    assert!(decode_enroll_status(&Json::UInt(1)).is_err());
}

#[test]
fn preauth_allow_deny_and_enroll_decode() {
    assert!(matches!(
        decode_preauth(&obj(vec![("result", s("allow"))])).unwrap(),
        PreauthResponse::Allow
    ));
    assert!(matches!(
        decode_preauth(&obj(vec![("result", s("deny"))])).unwrap(),
        PreauthResponse::Deny
    ));
    let enroll = obj(vec![
        ("result", s("enroll")),
        ("enroll_portal_url", s("https://portal.example")),
    ]);
    match decode_preauth(&enroll).unwrap() {
        PreauthResponse::Enroll { enroll_portal_url } => {
            assert_eq!(enroll_portal_url, "https://portal.example");
        }
        _ => panic!("expected the enroll variant"),
    }
}

#[test]
fn preauth_auth_decodes_its_devices() {
    let device = obj(vec![
        (
            "capabilities",
            Json::Arr(vec![s("push"), s("sms"), s("mobile_otp")]),
        ),
        ("device", s("DXXXXXXXXXXXXXXXXXXX")),
        ("display_name", s("My Phone")),
        ("name", s("")),
        ("number", s("+15555550100")),
        ("sms_nextcode", Json::Null),
        ("type", s("phone")),
    ]);
    let j = obj(vec![("result", s("auth")), ("devices", Json::Arr(vec![device]))]);
    match decode_preauth(&j).unwrap() {
        PreauthResponse::Auth { devices } => {
            assert_eq!(devices.len(), 1);
            let d = &devices[0];
            assert_eq!(
                d.capabilities.as_deref(),
                Some(
                    [
                        DeviceCapability::Push,
                        DeviceCapability::Sms,
                        DeviceCapability::MobileOtp
                    ]
                    .as_slice()
                )
            );
            assert_eq!(d.device, "DXXXXXXXXXXXXXXXXXXX");
            assert_eq!(d.display_name.as_deref(), Some("My Phone"));
            assert!(d.name.is_none());
            assert_eq!(d.number.as_deref(), Some("+15555550100"));
            assert!(d.sms_nextcode.is_none());
            assert_eq!(d.kind, DeviceType::Phone);
        }
        _ => panic!("expected the auth variant"),
    }
}

#[test]
fn preauth_rejects_a_bad_capability() {
    let device = obj(vec![
        ("capabilities", Json::Arr(vec![s("teleport")])),
        ("device", s("D1")),
        ("name", s("n")),
        ("number", s("")),
        ("type", s("token")),
    ]);
    let j = obj(vec![("result", s("auth")), ("devices", Json::Arr(vec![device]))]);
    assert!(matches!(
        decode_preauth(&j),
        Err(Error::Unspecified { .. })
    ));
}
