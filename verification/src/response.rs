//! The response envelope: a JSON object whose `stat` field — `OK` or
//! `FAIL`, compared without regard to ASCII case — discriminates a success
//! payload under `response` from a failure triple of `code`, `message` and
//! optional `message_detail`. JSON values are modeled as a plain data type;
//! parsing the body's text into it is the transport's affair.

use vstd::prelude::*;
use vstd::string::StrSliceExecFns;

use crate::errors::Error;

verus! {

/// A JSON value, as far as this protocol reads one: numbers appear only as
/// unsigned integers, and an object is a list of fields whose first match
/// wins on lookup.
#[derive(Debug)]
pub enum Json {
    Null,
    Bool(bool),
    UInt(u64),
    Str(String),
    Arr(Vec<Json>),
    Obj(Vec<(String, Json)>),
}

/// First-match lookup of a key among an object's fields.
pub open spec fn obj_lookup(es: Seq<(String, Json)>, k: Seq<char>) -> Option<Json>
    decreases es.len(),
{
    if es.len() == 0 {
        None
    } else if es[0].0@ == k {
        Some(es[0].1)
    } else {
        obj_lookup(es.drop_first(), k)
    }
}

/// The field of an object under a key; `None` on any other kind of value.
pub open spec fn json_field(j: Json, k: Seq<char>) -> Option<Json> {
    match j {
        Json::Obj(es) => obj_lookup(es@, k),
        _ => None,
    }
}

/// The lowercase fold of an ASCII uppercase letter's code point.
pub open spec fn lower_scalar(u: u32) -> u32 {
    if 65 <= u && u <= 90 {
        (u + 32) as u32
    } else {
        u
    }
}

/// Equality of two strings without regard to ASCII case.
pub open spec fn icase_eq(a: Seq<char>, b: Seq<char>) -> bool {
    a.len() == b.len() && forall|i: int|
        0 <= i < a.len() ==> lower_scalar(#[trigger] a[i] as u32) == lower_scalar(b[i] as u32)
}

/// Compares two strings character by character.
pub fn str_eq(a: &str, b: &str) -> (r: bool)
    ensures
        r == (a@ == b@),
{
    let alen = a.unicode_len();
    let blen = b.unicode_len();
    if alen != blen {
        proof {
            assert(a@.len() != b@.len());
        }
        return false;
    }
    let mut i: usize = 0;
    while i < alen
        invariant
            alen == a@.len() && blen == b@.len() && alen == blen,
            i <= alen,
            forall|x: int| 0 <= x < i ==> a@[x] == b@[x],
        decreases alen - i,
    {
        if a.get_char(i) != b.get_char(i) {
            return false;
        }
        i = i + 1;
    }
    proof {
        assert(a@ =~= b@);
    }
    true
}

/// Compares two strings without regard to ASCII case.
pub fn str_eq_icase(a: &str, b: &str) -> (r: bool)
    ensures
        r == icase_eq(a@, b@),
{
    let alen = a.unicode_len();
    let blen = b.unicode_len();
    if alen != blen {
        return false;
    }
    let mut i: usize = 0;
    while i < alen
        invariant
            alen == a@.len() && blen == b@.len() && alen == blen,
            i <= alen,
            forall|x: int|
                0 <= x < i ==> lower_scalar(#[trigger] a@[x] as u32) == lower_scalar(b@[x] as u32),
        decreases alen - i,
    {
        let ac = a.get_char(i) as u32;
        let bc = b.get_char(i) as u32;
        let al = if 65 <= ac && ac <= 90 {
            ac + 32
        } else {
            ac
        };
        let bl = if 65 <= bc && bc <= 90 {
            bc + 32
        } else {
            bc
        };
        if al != bl {
            return false;
        }
        i = i + 1;
    }
    true
}

impl Json {
    /// The field under a key when this is an object that has it.
    #[verifier::loop_isolation(false)]
    pub fn field<'a>(&'a self, k: &str) -> (r: Option<&'a Json>)
        ensures
            match r {
                Some(v) => json_field(*self, k@) == Some(*v),
                None => json_field(*self, k@) is None,
            },
    {
        match self {
            Json::Obj(es) => {
                let mut i: usize = 0;
                proof {
                    assert(es@.skip(0) =~= es@);
                }
                while i < es.len()
                    invariant
                        i <= es@.len(),
                        obj_lookup(es@, k@) == obj_lookup(es@.skip(i as int), k@),
                    decreases es@.len() - i,
                {
                    proof {
                        assert(es@.skip(i as int)[0] == es@[i as int]);
                    }
                    if str_eq(es[i].0.as_str(), k) {
                        proof {
                            assert(obj_lookup(es@.skip(i as int), k@) == Some(es@[i as int].1));
                        }
                        return Some(&es[i].1);
                    }
                    proof {
                        assert(es@.skip(i as int).drop_first() =~= es@.skip(i + 1));
                    }
                    i = i + 1;
                }
                None
            },
            _ => None,
        }
    }

    /// The string value, when this is a string.
    pub fn as_str<'a>(&'a self) -> (r: Option<&'a String>)
        ensures
            match r {
                Some(s) => self matches Json::Str(t) && t == s,
                None => !(self matches Json::Str(_)),
            },
    {
        match self {
            Json::Str(s) => Some(s),
            _ => None,
        }
    }

    /// The integer value, when this is an unsigned integer.
    pub fn as_u64(&self) -> (r: Option<u64>)
        ensures
            match r {
                Some(n) => *self == Json::UInt(n),
                None => !(self matches Json::UInt(_)),
            },
    {
        match self {
            Json::UInt(n) => Some(*n),
            _ => None,
        }
    }
}

/// Takes a field out of an object's entries by value, first match first.
#[verifier::loop_isolation(false)]
fn obj_take(es: Vec<(String, Json)>, k: &str) -> (r: Option<Json>)
    ensures
        match r {
            Some(v) => obj_lookup(es@, k@) == Some(v),
            None => obj_lookup(es@, k@) is None,
        },
{
    let mut es = es;
    let ghost orig = es@;
    let mut i: usize = 0;
    proof {
        assert(orig.skip(0) =~= orig);
    }
    while i < es.len()
        invariant
            es@ == orig,
            i <= orig.len(),
            obj_lookup(orig, k@) == obj_lookup(orig.skip(i as int), k@),
        decreases orig.len() - i,
    {
        proof {
            assert(orig.skip(i as int)[0] == orig[i as int]);
        }
        if str_eq(es[i].0.as_str(), k) {
            proof {
                assert(obj_lookup(orig.skip(i as int), k@) == Some(orig[i as int].1));
            }
            let pair = es.remove(i);
            return Some(pair.1);
        }
        proof {
            assert(orig.skip(i as int).drop_first() =~= orig.skip(i + 1));
        }
        i = i + 1;
    }
    None
}

/// The decoded envelope: the success payload, or the failure triple.
#[derive(Debug)]
pub enum DuoResponse<T> {
    Success { response: T },
    Failure { code: u64, message: String, message_detail: Option<String> },
}

impl<T> DuoResponse<T> {
    /// The payload of a success; a failure becomes the API-request error
    /// carrying its code, message and optional detail.
    pub fn ok(self) -> (r: Result<T, Error>)
        ensures
            match self {
                DuoResponse::Success { response } => r matches Ok(t) && t == response,
                DuoResponse::Failure { code, message, message_detail } => r matches Err(
                    Error::ApiRequestFailed { code: c, message: m, message_detail: d },
                ) && c == code && m == message && d == message_detail,
            },
    {
        match self {
            DuoResponse::Success { response } => Ok(response),
            DuoResponse::Failure { code, message, message_detail } => Err(
                Error::ApiRequestFailed { code, message, message_detail },
            ),
        }
    }
}

/// What the envelope of a JSON value decodes to, when it is well-formed:
/// `stat` of `OK` (any ASCII case) with a `response` field present gives the
/// payload; `stat` of `FAIL` with an integer `code` and a string `message`
/// gives the failure, whose detail is a string or absent (`null` and a
/// missing field both read as no detail). Anything else is malformed.
pub open spec fn spec_envelope(j: Json) -> Option<DuoResponse<Json>> {
    if spec_stat_is(j, "OK"@) {
        match json_field(j, "response"@) {
            Some(p) => Some(DuoResponse::Success { response: p }),
            None => None,
        }
    } else if spec_stat_is(j, "FAIL"@) {
        match (json_field(j, "code"@), json_field(j, "message"@)) {
            (Some(Json::UInt(c)), Some(Json::Str(m))) => match json_field(j, "message_detail"@) {
                None => Some(DuoResponse::Failure { code: c, message: m, message_detail: None }),
                Some(Json::Null) => Some(
                    DuoResponse::Failure { code: c, message: m, message_detail: None },
                ),
                Some(Json::Str(d)) => Some(
                    DuoResponse::Failure { code: c, message: m, message_detail: Some(d) },
                ),
                Some(_) => None,
            },
            _ => None,
        }
    } else {
        None
    }
}

/// Whether the value's `stat` field is a string equal to the tag without
/// regard to ASCII case.
pub open spec fn spec_stat_is(j: Json, tag: Seq<char>) -> bool {
    match json_field(j, "stat"@) {
        Some(Json::Str(s)) => icase_eq(s@, tag),
        _ => false,
    }
}

/// Decodes the response envelope of a JSON value; a malformed envelope is
/// the unspecified error, never a silent success.
pub fn decode_envelope(j: Json) -> (r: Result<DuoResponse<Json>, Error>)
    ensures
        match r {
            Ok(v) => spec_envelope(j) == Some(v),
            Err(e) => spec_envelope(j) is None && e matches Error::Unspecified { .. },
        },
{
    let stat_ok: bool;
    let stat_fail: bool;
    match j.field("stat") {
        Some(s) => {
            match s.as_str() {
                Some(tag) => {
                    stat_ok = str_eq_icase(tag.as_str(), "OK");
                    stat_fail = if stat_ok {
                        false
                    } else {
                        str_eq_icase(tag.as_str(), "FAIL")
                    };
                },
                None => {
                    return Err(malformed_envelope());
                },
            }
        },
        None => {
            return Err(malformed_envelope());
        },
    }
    if stat_ok {
        proof {
            assert(spec_stat_is(j, "OK"@));
        }
        match j {
            Json::Obj(es) => {
                match obj_take(es, "response") {
                    Some(p) => Ok(DuoResponse::Success { response: p }),
                    None => Err(malformed_envelope()),
                }
            },
            _ => Err(malformed_envelope()),
        }
    } else if stat_fail {
        proof {
            assert(!spec_stat_is(j, "OK"@));
            assert(spec_stat_is(j, "FAIL"@));
        }
        let code: u64;
        match j.field("code") {
            Some(c) => match c.as_u64() {
                Some(n) => {
                    code = n;
                },
                None => {
                    return Err(malformed_envelope());
                },
            },
            None => {
                return Err(malformed_envelope());
            },
        }
        let message: String;
        match j.field("message") {
            Some(m) => match m.as_str() {
                Some(s) => {
                    message = s.clone();
                },
                None => {
                    return Err(malformed_envelope());
                },
            },
            None => {
                return Err(malformed_envelope());
            },
        }
        let message_detail: Option<String>;
        match j.field("message_detail") {
            None => {
                message_detail = None;
            },
            Some(d) => match d {
                Json::Null => {
                    message_detail = None;
                },
                Json::Str(s) => {
                    message_detail = Some(s.clone());
                },
                _ => {
                    return Err(malformed_envelope());
                },
            },
        }
        Ok(DuoResponse::Failure { code, message, message_detail })
    } else {
        proof {
            assert(!spec_stat_is(j, "OK"@) && !spec_stat_is(j, "FAIL"@));
        }
        Err(malformed_envelope())
    }
}

/// The error a malformed envelope decodes to.
fn malformed_envelope() -> (r: Error)
    ensures
        r matches Error::Unspecified { .. },
{
    Error::Unspecified { message: "malformed response envelope".to_owned() }
}

} // verus!
