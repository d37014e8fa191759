//! Request signing: an HMAC-SHA1 digest over a fixed five-line payload —
//! timestamp, uppercased method, host, path, canonical parameter string,
//! newline-joined in that order — rendered as lowercase hex. The digest
//! becomes the password half of the request's Basic credentials.

use vstd::prelude::*;
use vstd::string::StringExecFns;
use vstd::utf8::encode_utf8;

use crate::encoding::ascii_chars;

use hmac::Mac;

verus! {

/// The HMAC-SHA1 digest of a message under a key. The digest is a function
/// of the two byte strings alone; its value is stated nowhere and comes only
/// from the outside implementation.
pub uninterp spec fn hmac_sha1_of(key: Seq<u8>, msg: Seq<u8>) -> Seq<u8>;

/// The lowercase hex digit byte for a value below 16.
pub open spec fn hex_lower_digit(n: u8) -> u8
    recommends
        n < 16,
{
    if n < 10 {
        (48 + n) as u8
    } else {
        (87 + n) as u8
    }
}

/// A byte string rendered as lowercase hex: two digit bytes per input byte,
/// in input order.
pub open spec fn hex_lower_bytes(s: Seq<u8>) -> Seq<u8>
    decreases s.len(),
{
    if s.len() == 0 {
        Seq::empty()
    } else {
        seq![hex_lower_digit(s[0] / 16), hex_lower_digit(s[0] % 16)] + hex_lower_bytes(
            s.drop_first(),
        )
    }
}

/// The five-line signing payload: timestamp, method, host, path, parameter
/// string, joined with single newlines.
pub open spec fn signing_payload(
    date: Seq<char>,
    method: Seq<char>,
    host: Seq<char>,
    path: Seq<char>,
    params: Seq<char>,
) -> Seq<char> {
    date + seq!['\n'] + method + seq!['\n'] + host + seq!['\n'] + path + seq!['\n'] + params
}

/// The signature: the HMAC-SHA1 digest of the payload under the secret key,
/// in lowercase hex.
pub open spec fn signature_of(
    skey: Seq<char>,
    date: Seq<char>,
    method: Seq<char>,
    host: Seq<char>,
    path: Seq<char>,
    params: Seq<char>,
) -> Seq<char> {
    ascii_chars(
        hex_lower_bytes(
            hmac_sha1_of(
                encode_utf8(skey),
                encode_utf8(signing_payload(date, method, host, path, params)),
            ),
        ),
    )
}

/// Relies on hmac's `Hmac<Sha1>`: the MAC of the message bytes under the key
/// bytes, a 20-byte SHA-1 digest, a function of key and message alone.
/// `new_from_slice` accepts keys of any length for HMAC and never fails.
#[verifier::external_body]
fn hmac_sha1(key: &str, msg: &str) -> (r: Vec<u8>)
    ensures
        r@ == hmac_sha1_of(encode_utf8(key@), encode_utf8(msg@)),
        r@.len() == 20,
{
    let mut mac = <hmac::Hmac<sha1::Sha1> as hmac::KeyInit>::new_from_slice(key.as_bytes())
        .expect("HMAC accepts keys of any length");
    mac.update(msg.as_bytes());
    mac.finalize().into_bytes().to_vec()
}

/// Relies on hex::encode: two lowercase hex digits per input byte, in input
/// order.
#[verifier::external_body]
fn to_hex_lower(b: &[u8]) -> (r: String)
    ensures
        r@ == ascii_chars(hex_lower_bytes(b@)),
{
    hex::encode(b)
}

/// Computes the request signature over the five signing inputs. Given
/// identical inputs the result is identical: it equals a spec-level function
/// of the inputs and of nothing else.
pub fn sign_request(
    skey: &str,
    date: &str,
    method: &str,
    host: &str,
    path: &str,
    params: &str,
) -> (r: String)
    ensures
        r@ == signature_of(skey@, date@, method@, host@, path@, params@),
{
    let mut payload = String::new();
    payload.append(date);
    payload.append("\n");
    payload.append(method);
    payload.append("\n");
    payload.append(host);
    payload.append("\n");
    payload.append(path);
    payload.append("\n");
    payload.append(params);
    proof {
        reveal_strlit("\n");
        assert("\n"@ =~= seq!['\n']);
        assert(payload@ =~= signing_payload(date@, method@, host@, path@, params@));
    }
    let mac = hmac_sha1(skey, payload.as_str());
    to_hex_lower(mac.as_slice())
}

/// A string without newlines, as the timestamp, method, host and path of a
/// request are.
pub open spec fn newline_free(s: Seq<char>) -> bool {
    forall|i: int| 0 <= i < s.len() ==> s[i] != '\n'
}

/// Two newline-terminated lines with newline-free heads split the same way:
/// equal concatenations force equal heads and equal tails.
proof fn lemma_line_split(a: Seq<char>, r1: Seq<char>, b: Seq<char>, r2: Seq<char>)
    requires
        newline_free(a),
        newline_free(b),
        a + seq!['\n'] + r1 == b + seq!['\n'] + r2,
    ensures
        a == b,
        r1 == r2,
{
    let s = a + seq!['\n'] + r1;
    let t = b + seq!['\n'] + r2;
    assert(s[a.len() as int] == '\n');
    assert(t[b.len() as int] == '\n');
    if a.len() < b.len() {
        assert(t[a.len() as int] == b[a.len() as int]);
        assert(b[a.len() as int] != '\n');
        assert(false);
    }
    if b.len() < a.len() {
        assert(s[b.len() as int] == a[b.len() as int]);
        assert(a[b.len() as int] != '\n');
        assert(false);
    }
    assert forall|i: int| 0 <= i < a.len() implies a[i] == b[i] by {
        assert(s[i] == a[i] && t[i] == b[i]);
    }
    assert(a =~= b);
    assert(s.len() == a.len() + 1 + r1.len());
    assert(t.len() == b.len() + 1 + r2.len());
    assert(r1.len() == r2.len());
    assert forall|i: int| 0 <= i < r1.len() implies r1[i] == r2[i] by {
        assert(s[a.len() + 1 + i] == r1[i] && t[b.len() + 1 + i] == r2[i]);
    }
    assert(r1 =~= r2);
}

/// The signing payload is injective while the timestamp, method, host and
/// path hold no newline — as an RFC 2822 date, an HTTP method name, a host
/// and a URL path do not, and the percent-encoded parameter string cannot.
/// So changing any one of the five inputs changes the payload that is
/// signed; that distinct payloads get distinct MACs is the MAC's own
/// business and is stated nowhere.
pub proof fn lemma_payload_injective(
    date1: Seq<char>,
    method1: Seq<char>,
    host1: Seq<char>,
    path1: Seq<char>,
    params1: Seq<char>,
    date2: Seq<char>,
    method2: Seq<char>,
    host2: Seq<char>,
    path2: Seq<char>,
    params2: Seq<char>,
)
    requires
        newline_free(date1) && newline_free(method1) && newline_free(host1) && newline_free(path1),
        newline_free(date2) && newline_free(method2) && newline_free(host2) && newline_free(path2),
        signing_payload(date1, method1, host1, path1, params1) == signing_payload(
            date2,
            method2,
            host2,
            path2,
            params2,
        ),
    ensures
        date1 == date2,
        method1 == method2,
        host1 == host2,
        path1 == path2,
        params1 == params2,
{
    let rest1 = method1 + seq!['\n'] + (host1 + seq!['\n'] + (path1 + seq!['\n'] + params1));
    let rest2 = method2 + seq!['\n'] + (host2 + seq!['\n'] + (path2 + seq!['\n'] + params2));
    assert(signing_payload(date1, method1, host1, path1, params1) =~= date1 + seq!['\n'] + rest1);
    assert(signing_payload(date2, method2, host2, path2, params2) =~= date2 + seq!['\n'] + rest2);
    lemma_line_split(date1, rest1, date2, rest2);
    let rest1b = host1 + seq!['\n'] + (path1 + seq!['\n'] + params1);
    let rest2b = host2 + seq!['\n'] + (path2 + seq!['\n'] + params2);
    assert(rest1 =~= method1 + seq!['\n'] + rest1b);
    assert(rest2 =~= method2 + seq!['\n'] + rest2b);
    lemma_line_split(method1, rest1b, method2, rest2b);
    let rest1c = path1 + seq!['\n'] + params1;
    let rest2c = path2 + seq!['\n'] + params2;
    assert(rest1b =~= host1 + seq!['\n'] + rest1c);
    assert(rest2b =~= host2 + seq!['\n'] + rest2c);
    lemma_line_split(host1, rest1c, host2, rest2c);
    lemma_line_split(path1, params1, path2, params2);
}

/// Signing is deterministic: two signing calls over identical values of the
/// secret key, timestamp, method, host, path and parameter string produce
/// the same signature.
pub proof fn lemma_signature_deterministic(
    skey1: Seq<char>,
    date1: Seq<char>,
    method1: Seq<char>,
    host1: Seq<char>,
    path1: Seq<char>,
    params1: Seq<char>,
    skey2: Seq<char>,
    date2: Seq<char>,
    method2: Seq<char>,
    host2: Seq<char>,
    path2: Seq<char>,
    params2: Seq<char>,
)
    requires
        skey1 == skey2,
        date1 == date2,
        method1 == method2,
        host1 == host2,
        path1 == path2,
        params1 == params2,
    ensures
        signature_of(skey1, date1, method1, host1, path1, params1) == signature_of(
            skey2,
            date2,
            method2,
            host2,
            path2,
            params2,
        ),
{
}

} // verus!
