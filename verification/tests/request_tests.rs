use duo_auth::DuoRequest;
use duo_auth::Method;
use duo_auth::Parameters;
use duo_auth::sign_request;

fn params(pairs: &[(&str, &str)]) -> Parameters {
    let mut p = Parameters::new();
    for (k, v) in pairs {
        p.set(k, v);
    }
    p
}

#[test]
fn get_request_carries_the_query_and_no_body() {
    let r = DuoRequest::new(
        String::from("api-xyz.duosecurity.com"),
        Method::Get,
        String::from("/auth/v2/auth_status"),
        params(&[("txid", "T1")]),
    );
    let built = r.build("IKEY", "SKEY");
    assert_eq!(built.query.as_deref(), Some("txid=T1"));
    assert!(built.body.is_none());
    assert!(built.content_type.is_none());
}

#[test]
fn post_request_carries_the_body_and_an_untouched_query() {
    let r = DuoRequest::new(
        String::from("api-xyz.duosecurity.com"),
        Method::Post,
        String::from("/auth/v2/enroll"),
        params(&[("username", "bob")]),
    );
    let built = r.build("IKEY", "SKEY");
    assert!(built.query.is_none());
    assert_eq!(built.body.as_deref(), Some("username=bob"));
    assert_eq!(
        built.content_type.as_deref(),
        Some("application/x-www-form-urlencoded")
    );
}

#[test]
fn the_date_header_and_the_signed_date_are_the_same() {
    let r = DuoRequest::new(
        String::from("api-xyz.duosecurity.com"),
        Method::Post,
        String::from("/auth/v2/preauth"),
        params(&[("user_id", "u1")]),
    );
    let built = r.build("IKEY", "SKEY");
    let (user, pass) = built.basic_auth.unwrap();
    assert_eq!(user, "IKEY");
    let expected = sign_request(
        "SKEY",
        &built.date,
        "POST",
        "api-xyz.duosecurity.com",
        "/auth/v2/preauth",
        "user_id=u1",
    );
    assert_eq!(pass, expected);
}

#[test]
fn unauthenticated_build_sets_a_user_agent_and_no_credentials() {
    let r = DuoRequest::new(
        String::from("api-xyz.duosecurity.com"),
        Method::Get,
        String::from("/auth/v2/ping"),
        Parameters::new(),
    );
    let built = r.build_no_auth();
    assert!(built.basic_auth.is_none());
    assert!(built.user_agent.is_some());
    assert_eq!(built.query.as_deref(), Some(""));
    assert_eq!(built.date, r.date);
}

#[test]
fn method_names_are_uppercase() {
    assert_eq!(Method::Get.name(), "GET");
    assert_eq!(Method::Head.name(), "HEAD");
    assert_eq!(Method::Post.name(), "POST");
    assert!(Method::Head.carries_query());
    assert!(!Method::Put.carries_query());
}
