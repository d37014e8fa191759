use duo_auth::sign_request;

const DATE: &str = "Tue, 21 Aug 2012 17:29:18 -0000";
const HOST: &str = "api-xyz.duosecurity.com";
const SKEY: &str = "secretkey";

#[test]
fn signature_matches_known_vector() {
    let signature = sign_request(
        SKEY,
        DATE,
        "POST",
        HOST,
        "/auth/v2/auth",
        "async=1&device=DABCDEF&factor=push&user_id=u1",
    );
    assert_eq!(signature, "a4b7aaedf8d47f6da6b011f605dd79dc5f7c7c27");
}

#[test]
fn signature_of_empty_parameter_string() {
    let signature = sign_request(SKEY, DATE, "GET", HOST, "/auth/v2/ping", "");
    assert_eq!(signature, "0aa310da659399f4a13030d1c7b7d60120b9fc57");
}

#[test]
fn signing_is_deterministic() {
    let a = sign_request(SKEY, DATE, "POST", HOST, "/auth/v2/auth", "async=1");
    let b = sign_request(SKEY, DATE, "POST", HOST, "/auth/v2/auth", "async=1");
    assert_eq!(a, b);
}

#[test]
fn changing_any_single_input_changes_the_signature() {
    let base = sign_request(SKEY, DATE, "POST", HOST, "/auth/v2/auth", "async=1");
    let other_date = sign_request(
        SKEY,
        "Tue, 21 Aug 2012 17:29:19 -0000",
        "POST",
        HOST,
        "/auth/v2/auth",
        "async=1",
    );
    let other_method = sign_request(SKEY, DATE, "POST ", HOST, "/auth/v2/auth", "async=1");
    let other_host = sign_request(
        SKEY,
        DATE,
        "POST",
        "api-xyy.duosecurity.com",
        "/auth/v2/auth",
        "async=1",
    );
    let other_path = sign_request(SKEY, DATE, "POST", HOST, "/auth/v2/autg", "async=1");
    let other_params = sign_request(SKEY, DATE, "POST", HOST, "/auth/v2/auth", "async=2");
    for other in [other_date, other_method, other_host, other_path, other_params] {
        assert_ne!(base, other);
    }
}

#[test]
fn different_keys_give_different_signatures() {
    let a = sign_request("key-one", DATE, "GET", HOST, "/auth/v2/check", "");
    let b = sign_request("key-two", DATE, "GET", HOST, "/auth/v2/check", "");
    assert_ne!(a, b);
}
