//! Transport-level request assembly. A request carries the host, method,
//! path, a timestamp captured once at construction, and the parameters.
//! Building it yields a plain description of the HTTP request: for GET and
//! HEAD the canonical parameter string goes into the URL query and there is
//! no body; for every other method it goes into the body with the form
//! content type and the query stays empty. The same timestamp string serves
//! as the `Date` header and inside the signature payload.

use vstd::prelude::*;

use crate::params::Parameters;
use crate::params::serialize_entries;
use crate::sign::sign_request;
use crate::sign::signature_of;

verus! {

/// The HTTP method of a request.
#[derive(Clone, Copy, PartialEq, Eq, Structural, Debug)]
pub enum Method {
    Get,
    Head,
    Post,
    Put,
    Delete,
}

/// The method's name, uppercased, as it stands in the signing payload.
pub open spec fn method_name(m: Method) -> Seq<char> {
    match m {
        Method::Get => "GET"@,
        Method::Head => "HEAD"@,
        Method::Post => "POST"@,
        Method::Put => "PUT"@,
        Method::Delete => "DELETE"@,
    }
}

/// A method that carries its parameters in the URL query and has no body.
pub open spec fn is_query_method(m: Method) -> bool {
    m == Method::Get || m == Method::Head
}

impl Method {
    /// The method's uppercase name.
    pub fn name(&self) -> (r: &'static str)
        ensures
            r@ == method_name(*self),
    {
        match self {
            Method::Get => "GET",
            Method::Head => "HEAD",
            Method::Post => "POST",
            Method::Put => "PUT",
            Method::Delete => "DELETE",
        }
    }

    /// Whether the method carries its parameters in the query.
    pub fn carries_query(&self) -> (r: bool)
        ensures
            r == is_query_method(*self),
    {
        match self {
            Method::Get => true,
            Method::Head => true,
            _ => false,
        }
    }
}

/// Relies on chrono: the current UTC time rendered per RFC 2822, e.g.
/// `Tue, 1 Jul 2003 10:52:37 +0000`. The clock decides the value, so nothing
/// is promised of it.
#[verifier::external_body]
pub(crate) fn now_rfc2822() -> String {
    chrono::Utc::now().to_rfc2822()
}

/// An authenticated or unauthenticated request, ready to build.
pub struct DuoRequest {
    pub host: String,
    pub method: Method,
    pub path: String,
    pub date: String,
    pub parameters: Parameters,
}

/// The built form of a request: everything the transport needs, as plain
/// values. The query is set exactly for GET/HEAD, the body and content type
/// exactly for the other methods, and the date header always.
#[derive(Debug)]
pub struct BuiltRequest {
    pub method: Method,
    pub path: String,
    pub query: Option<String>,
    pub body: Option<String>,
    pub content_type: Option<String>,
    pub date: String,
    /// Basic credentials: username and password, when the request is signed.
    pub basic_auth: Option<(String, String)>,
    pub user_agent: Option<String>,
}

impl DuoRequest {
    /// A new request against a host: captures the timestamp once, here, for
    /// both the `Date` header and the signature payload.
    pub fn new(host: String, method: Method, path: String, parameters: Parameters) -> (r:
        DuoRequest)
        requires
            parameters.wf(),
        ensures
            r.host == host,
            r.method == method,
            r.path == path,
            r.parameters == parameters,
    {
        DuoRequest { host, method, path, date: now_rfc2822(), parameters }
    }

    /// Builds the signed request: the canonical parameter string in the
    /// query (GET/HEAD) or the body (other methods, with the form content
    /// type), the captured date, and Basic credentials of the integration
    /// key and the signature over exactly that parameter string and date.
    pub fn build(&self, ikey: &str, skey: &str) -> (r: BuiltRequest)
        requires
            self.parameters.wf(),
        ensures
            r.method == self.method,
            r.path == self.path,
            r.date == self.date,
            is_query_method(self.method) ==> (r.query matches Some(q) && q@ == serialize_entries(
                self.parameters.entries(),
            ) && r.body is None && r.content_type is None),
            !is_query_method(self.method) ==> (r.query is None && (r.body matches Some(b) && b@
                == serialize_entries(self.parameters.entries())) && (r.content_type matches Some(c)
                && c@ == "application/x-www-form-urlencoded"@)),
            r.basic_auth matches Some(a) && a.0@ == ikey@ && a.1@ == signature_of(
                skey@,
                self.date@,
                method_name(self.method),
                self.host@,
                self.path@,
                serialize_entries(self.parameters.entries()),
            ),
            r.user_agent is None,
    {
        let params_str = self.parameters.serialize();
        let signature = sign_request(
            skey,
            self.date.as_str(),
            self.method.name(),
            self.host.as_str(),
            self.path.as_str(),
            params_str.as_str(),
        );
        let carries_query = self.method.carries_query();
        let (query, body, content_type) = if carries_query {
            (Some(params_str), None, None)
        } else {
            (None, Some(params_str), Some("application/x-www-form-urlencoded".to_owned()))
        };
        BuiltRequest {
            method: self.method,
            path: self.path.clone(),
            query,
            body,
            content_type,
            date: self.date.clone(),
            basic_auth: Some((ikey.to_owned(), signature)),
            user_agent: None,
        }
    }

    /// Builds the request without credentials: same placement of the
    /// parameter string and the same date header, no Basic credentials, and
    /// a fixed user-agent string instead.
    pub fn build_no_auth(&self) -> (r: BuiltRequest)
        requires
            self.parameters.wf(),
        ensures
            r.method == self.method,
            r.path == self.path,
            r.date == self.date,
            is_query_method(self.method) ==> (r.query matches Some(q) && q@ == serialize_entries(
                self.parameters.entries(),
            ) && r.body is None && r.content_type is None),
            !is_query_method(self.method) ==> (r.query is None && (r.body matches Some(b) && b@
                == serialize_entries(self.parameters.entries())) && (r.content_type matches Some(c)
                && c@ == "application/x-www-form-urlencoded"@)),
            r.basic_auth is None,
            r.user_agent matches Some(u) && u@ == "duo_auth"@,
    {
        let params_str = self.parameters.serialize();
        let carries_query = self.method.carries_query();
        let (query, body, content_type) = if carries_query {
            (Some(params_str), None, None)
        } else {
            (None, Some(params_str), Some("application/x-www-form-urlencoded".to_owned()))
        };
        BuiltRequest {
            method: self.method,
            path: self.path.clone(),
            query,
            body,
            content_type,
            date: self.date.clone(),
            basic_auth: None,
            user_agent: Some("duo_auth".to_owned()),
        }
    }
}

} // verus!
