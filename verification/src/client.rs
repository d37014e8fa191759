//! The operation client: immutable credentials and base URL, one request
//! builder per API operation. Construction validates the API domain — it
//! must parse as an absolute URL with a host — and each operation builds its
//! parameters, signs, and yields a transport-ready request description. The
//! transport itself, and the decoding of the response body's text, stand
//! outside; the decoded JSON value comes back through the envelope and
//! payload decoders.

use vstd::prelude::*;
use vstd::string::StringExecFns;

use crate::errors::Error;
use crate::params::Parameters;
use crate::params::serialize_entries;
use crate::request::BuiltRequest;
use crate::request::DuoRequest;
use crate::request::Method;
use crate::request::is_query_method;
use crate::request::method_name;
use crate::sign::signature_of;
use crate::types::AuthRequest;
use crate::types::PreauthRequest;
use crate::types::auth_request_map;
use crate::types::preauth_request_map;

verus! {

/// The host of a string that parses as an absolute URL with one, a function
/// of the string alone.
pub uninterp spec fn host_of(s: Seq<char>) -> Option<Seq<char>>;

/// Relies on url::Url::parse and Url::host_str: whether the string parses
/// as an absolute URL that has a host, and which host that is.
#[verifier::external_body]
fn parse_host(s: &str) -> (r: Option<String>)
    ensures
        r is Some <==> host_of(s@) is Some,
        r matches Some(h) ==> host_of(s@) == Some(h@),
{
    match url::Url::parse(s) {
        Ok(u) => u.host_str().map(|h| h.to_string()),
        Err(_) => None,
    }
}

/// The decimal digit character of a value below ten.
pub open spec fn dec_digit(d: nat) -> char
    recommends
        d < 10,
{
    (((48 + d) as u8) as char)
}

/// The decimal rendering of a number, most significant digit first.
pub open spec fn dec_str(n: nat) -> Seq<char>
    decreases n,
{
    if n < 10 {
        seq![dec_digit(n)]
    } else {
        dec_str(n / 10) + seq![dec_digit(n % 10)]
    }
}

/// One decimal digit as a string.
fn digit_str(d: u64) -> (r: &'static str)
    requires
        d < 10,
    ensures
        r@ == seq![dec_digit(d as nat)],
{
    let r = match d {
        0 => "0",
        1 => "1",
        2 => "2",
        3 => "3",
        4 => "4",
        5 => "5",
        6 => "6",
        7 => "7",
        8 => "8",
        _ => "9",
    };
    proof {
        reveal_strlit("0");
        reveal_strlit("1");
        reveal_strlit("2");
        reveal_strlit("3");
        reveal_strlit("4");
        reveal_strlit("5");
        reveal_strlit("6");
        reveal_strlit("7");
        reveal_strlit("8");
        reveal_strlit("9");
        assert(r@ =~= seq![dec_digit(d as nat)]);
    }
    r
}

/// The decimal rendering of a value: its digits, most significant first, no
/// sign, no leading zeros.
fn u64_to_string(n: u64) -> (r: String)
    ensures
        r@ == dec_str(n as nat),
    decreases n,
{
    if n < 10 {
        digit_str(n).to_owned()
    } else {
        proof {
            assert(n / 10 < n) by (nonlinear_arith)
                requires
                    n >= 10,
            ;
        }
        let prefix = u64_to_string(n / 10);
        prefix.concat(digit_str(n % 10))
    }
}

/// What an enrollment call sends: the optional username, and the optional
/// validity window rendered in decimal.
pub open spec fn enroll_map(username: Option<String>, valid_secs: Option<u64>) -> Map<
    Seq<char>,
    Seq<char>,
> {
    let m0 = Map::<Seq<char>, Seq<char>>::empty();
    let m1 = match username {
        Some(u) => m0.insert("username"@, u@),
        None => m0,
    };
    match valid_secs {
        Some(v) => m1.insert("valid_secs"@, dec_str(v as nat)),
        None => m1,
    }
}

/// A client for one account: the API host, the integration key used as the
/// Basic username, and the secret key used only for signing. All immutable
/// after construction.
pub struct DuoClient {
    pub api_domain: String,
    pub host: String,
    pub ikey: String,
    pub skey: String,
}

/// What a request built by a client for an operation looks like: the
/// operation's method and path; the canonical string of some well-formed
/// parameters standing for the operation's mapping, placed in the query
/// (GET/HEAD) or the body with the form content type (other methods); and
/// Basic credentials of the integration key and the signature over exactly
/// that method, host, path, parameter string and the request's own date.
pub open spec fn built_for(
    r: BuiltRequest,
    c: DuoClient,
    method: Method,
    path: Seq<char>,
    m: Map<Seq<char>, Seq<char>>,
) -> bool {
    exists|p: Parameters|
        {
            &&& #[trigger] p.wf()
            &&& p.as_map() == m
            &&& r.method == method
            &&& r.path@ == path
            &&& (if is_query_method(method) {
                (r.query matches Some(q) && q@ == serialize_entries(p.entries())) && r.body is None
                    && r.content_type is None
            } else {
                r.query is None && (r.body matches Some(b) && b@ == serialize_entries(p.entries()))
                    && (r.content_type matches Some(t) && t@
                    == "application/x-www-form-urlencoded"@)
            })
            &&& (r.basic_auth matches Some(a) && a.0@ == c.ikey@ && a.1@ == signature_of(
                c.skey@,
                r.date@,
                method_name(method),
                c.host@,
                path,
                serialize_entries(p.entries()),
            ))
            &&& r.user_agent is None
        }
}

impl DuoClient {
    /// A client for an API domain and key pair. The domain must parse as an
    /// absolute URL with a host: exactly then construction succeeds, and the
    /// host is the one signed over; otherwise the invalid-domain error names
    /// the offending domain.
    pub fn new(api_domain: &str, ikey: &str, skey: &str) -> (r: Result<DuoClient, Error>)
        ensures
            match r {
                Ok(c) => host_of(api_domain@) == Some(c.host@) && c.api_domain@ == api_domain@
                    && c.ikey@ == ikey@ && c.skey@ == skey@,
                Err(e) => host_of(api_domain@) is None && (e matches Error::InvalidApiDomain {
                    domain,
                } && domain@ == api_domain@),
            },
    {
        match parse_host(api_domain) {
            Some(host) => Ok(
                DuoClient {
                    api_domain: api_domain.to_owned(),
                    host,
                    ikey: ikey.to_owned(),
                    skey: skey.to_owned(),
                },
            ),
            None => Err(Error::InvalidApiDomain { domain: api_domain.to_owned() }),
        }
    }

    /// Builds and signs one request: timestamp captured here, parameters
    /// serialized once, placed per the method, and signed.
    fn signed_request(&self, method: Method, path: &str, parameters: Parameters) -> (r:
        BuiltRequest)
        requires
            parameters.wf(),
        ensures
            built_for(r, *self, method, path@, parameters.as_map()),
    {
        let ghost p = parameters;
        let request = DuoRequest::new(self.host.clone(), method, path.to_owned(), parameters);
        let r = request.build(self.ikey.as_str(), self.skey.as_str());
        proof {
            assert(p.wf() && built_for(r, *self, method, path@, p.as_map()));
        }
        r
    }

    /// The service-liveness request: GET `/auth/v2/ping`, no parameters.
    /// Its response payload answers to [`crate::decode::decode_time`].
    pub fn ping_request(&self) -> (r: BuiltRequest)
        ensures
            built_for(
                r,
                *self,
                Method::Get,
                "/auth/v2/ping"@,
                Map::<Seq<char>, Seq<char>>::empty(),
            ),
    {
        self.signed_request(Method::Get, "/auth/v2/ping", Parameters::new())
    }

    /// The credential-check request: GET `/auth/v2/check`, no parameters.
    /// Its response payload answers to [`crate::decode::decode_time`].
    pub fn check_request(&self) -> (r: BuiltRequest)
        ensures
            built_for(
                r,
                *self,
                Method::Get,
                "/auth/v2/check"@,
                Map::<Seq<char>, Seq<char>>::empty(),
            ),
    {
        self.signed_request(Method::Get, "/auth/v2/check", Parameters::new())
    }

    /// The authentication submission: POST `/auth/v2/auth` with the user,
    /// factor and optional fields, and `async` forced to `1` — only the
    /// asynchronous, poll-for-status flow is supported. The payload answers
    /// to [`crate::decode::decode_txid`].
    pub fn auth_request(&self, data: AuthRequest) -> (r: BuiltRequest)
        ensures
            built_for(
                r,
                *self,
                Method::Post,
                "/auth/v2/auth"@,
                auth_request_map(
                    data,
                    Map::<Seq<char>, Seq<char>>::empty().insert("async"@, "1"@),
                ),
            ),
    {
        let mut parameters = Parameters::new();
        parameters.set("async", "1");
        data.apply(&mut parameters);
        self.signed_request(Method::Post, "/auth/v2/auth", parameters)
    }

    /// One status poll: GET `/auth/v2/auth_status` with the transaction id.
    /// The payload answers to [`crate::decode::decode_auth_status`].
    pub fn auth_status_request(&self, tx_id: &str) -> (r: BuiltRequest)
        ensures
            built_for(
                r,
                *self,
                Method::Get,
                "/auth/v2/auth_status"@,
                Map::<Seq<char>, Seq<char>>::empty().insert("txid"@, tx_id@),
            ),
    {
        let mut parameters = Parameters::new();
        parameters.set("txid", tx_id);
        self.signed_request(Method::Get, "/auth/v2/auth_status", parameters)
    }

    /// The preauthentication query: POST `/auth/v2/preauth` with the user
    /// and optional fields. The payload answers to
    /// [`crate::decode::decode_preauth`].
    pub fn preauth_request(&self, data: PreauthRequest) -> (r: BuiltRequest)
        ensures
            built_for(
                r,
                *self,
                Method::Post,
                "/auth/v2/preauth"@,
                preauth_request_map(data, Map::<Seq<char>, Seq<char>>::empty()),
            ),
    {
        let mut parameters = Parameters::new();
        data.apply(&mut parameters);
        self.signed_request(Method::Post, "/auth/v2/preauth", parameters)
    }

    /// The enrollment request: POST `/auth/v2/enroll` with an optional
    /// username and an optional validity window in seconds, sent as its
    /// decimal rendering. The payload answers to
    /// [`crate::decode::decode_enroll`].
    pub fn enroll_request(&self, username: Option<String>, valid_secs: Option<u64>) -> (r:
        BuiltRequest)
        ensures
            built_for(
                r,
                *self,
                Method::Post,
                "/auth/v2/enroll"@,
                enroll_map(username, valid_secs),
            ),
    {
        let mut parameters = Parameters::new();
        parameters.set_opt("username", username);
        match valid_secs {
            Some(v) => {
                let rendered = u64_to_string(v);
                parameters.set("valid_secs", rendered.as_str());
            },
            None => {},
        }
        self.signed_request(Method::Post, "/auth/v2/enroll", parameters)
    }

    /// The enrollment poll: POST `/auth/v2/enroll_status` with the user id
    /// and activation code. The payload answers to
    /// [`crate::decode::decode_enroll_status`].
    pub fn enroll_status_request(&self, user_id: &str, activation_code: &str) -> (r: BuiltRequest)
        ensures
            built_for(
                r,
                *self,
                Method::Post,
                "/auth/v2/enroll_status"@,
                Map::<Seq<char>, Seq<char>>::empty().insert("user_id"@, user_id@).insert(
                    "activation_code"@,
                    activation_code@,
                ),
            ),
    {
        let mut parameters = Parameters::new();
        parameters.set("user_id", user_id);
        parameters.set("activation_code", activation_code);
        self.signed_request(Method::Post, "/auth/v2/enroll_status", parameters)
    }
}

} // verus!
