use duo_auth::AuthRequest;
use duo_auth::AuthRequestFactor;
use duo_auth::DuoClient;
use duo_auth::Error;
use duo_auth::Method;
use duo_auth::PreauthRequest;
use duo_auth::User;
use duo_auth::sign_request;

fn client() -> DuoClient {
    DuoClient::new("https://api-xyz.duosecurity.com", "IKEYIKEY", "secretkey").unwrap()
}

#[test]
fn construction_rejects_a_malformed_domain() {
    let r = DuoClient::new("not a url", "ikey", "skey");
    match r {
        Err(Error::InvalidApiDomain { domain }) => assert_eq!(domain, "not a url"),
        _ => panic!("expected an invalid-domain error"),
    }
}

#[test]
fn construction_accepts_a_real_domain() {
    let c = client();
    assert_eq!(c.host, "api-xyz.duosecurity.com");
    assert_eq!(c.ikey, "IKEYIKEY");
}

#[test]
fn construction_rejects_a_url_without_host() {
    assert!(DuoClient::new("mailto:someone", "ikey", "skey").is_err());
}

#[test]
fn ping_places_empty_parameters_in_the_query() {
    let r = client().ping_request();
    assert!(matches!(r.method, Method::Get));
    assert_eq!(r.path, "/auth/v2/ping");
    assert_eq!(r.query.as_deref(), Some(""));
    assert!(r.body.is_none());
    assert!(r.content_type.is_none());
    assert!(r.user_agent.is_none());
}

#[test]
fn post_places_parameters_in_the_body_with_form_content_type() {
    let r = client().enroll_status_request("U123", "CODE1");
    assert!(matches!(r.method, Method::Post));
    assert_eq!(r.path, "/auth/v2/enroll_status");
    assert!(r.query.is_none());
    assert_eq!(r.body.as_deref(), Some("activation_code=CODE1&user_id=U123"));
    assert_eq!(
        r.content_type.as_deref(),
        Some("application/x-www-form-urlencoded")
    );
}

#[test]
fn auth_with_push_factor_sends_exactly_its_fields() {
    let data = AuthRequest::new(
        User::user_id("u1"),
        AuthRequestFactor::Push {
            device: String::from("DABCDEF"),
            kind: None,
            display_username: None,
            push_info: None,
        },
    );
    let r = client().auth_request(data);
    assert!(matches!(r.method, Method::Post));
    assert_eq!(r.path, "/auth/v2/auth");
    let body = r.body.as_deref().unwrap();
    assert_eq!(body, "async=1&device=DABCDEF&factor=push&user_id=u1");
    assert!(!body.contains("type"));
    assert!(!body.contains("display_username"));
    assert!(!body.contains("push_info"));
}

#[test]
fn auth_signature_covers_the_body_and_date() {
    let c = client();
    let data = AuthRequest::new(
        User::user_id("u1"),
        AuthRequestFactor::Push {
            device: String::from("DABCDEF"),
            kind: None,
            display_username: None,
            push_info: None,
        },
    );
    let r = c.auth_request(data);
    let (username, password) = r.basic_auth.clone().unwrap();
    assert_eq!(username, "IKEYIKEY");
    let expected = sign_request(
        "secretkey",
        &r.date,
        "POST",
        "api-xyz.duosecurity.com",
        "/auth/v2/auth",
        r.body.as_deref().unwrap(),
    );
    assert_eq!(password, expected);
}

#[test]
fn auth_with_auto_factor_defaults_the_device() {
    let data = AuthRequest::new(User::username("alice"), AuthRequestFactor::auto());
    let r = client().auth_request(data);
    assert_eq!(
        r.body.as_deref(),
        Some("async=1&device=auto&factor=auto&username=alice")
    );
}

#[test]
fn auth_status_sends_the_transaction_id_in_the_query() {
    let r = client().auth_status_request("TX-1 2");
    assert!(matches!(r.method, Method::Get));
    assert_eq!(r.path, "/auth/v2/auth_status");
    assert_eq!(r.query.as_deref(), Some("txid=TX-1%202"));
    assert!(r.body.is_none());
}

#[test]
fn preauth_omits_unset_optional_fields() {
    let mut data = PreauthRequest::new(User::user_id("u9"));
    data.ipaddr = Some(String::from("10.0.0.1"));
    let r = client().preauth_request(data);
    assert_eq!(r.body.as_deref(), Some("ipaddr=10.0.0.1&user_id=u9"));
}

#[test]
fn enroll_renders_the_validity_window_in_decimal() {
    let r = client().enroll_request(Some(String::from("bob")), Some(60));
    assert_eq!(r.body.as_deref(), Some("username=bob&valid_secs=60"));
    let none = client().enroll_request(None, None);
    assert_eq!(none.body.as_deref(), Some(""));
}

#[test]
fn describe_names_the_offending_domain() {
    match DuoClient::new("not a url", "ikey", "skey") {
        Err(e) => assert_eq!(e.describe(), "invalid API domain: not a url"),
        Ok(_) => panic!("expected construction to fail"),
    }
}
