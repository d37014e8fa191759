//! Decoding of operation payloads: the JSON value under the envelope's
//! `response` field, mapped into the typed models by inspecting each
//! discriminant field first. A payload of the wrong shape is the
//! unspecified error, never a silent success.

use vstd::prelude::*;
use vstd::string::StrSliceExecFns;

use crate::errors::Error;
use crate::response::Json;
use crate::response::json_field;
use crate::response::str_eq;
use crate::types::AuthResult;
use crate::types::AuthStatus;
use crate::types::AuthStatusResponse;
use crate::types::Device;
use crate::types::DeviceCapability;
use crate::types::DeviceType;
use crate::types::EnrollResponse;
use crate::types::EnrollStatusResponse;
use crate::types::PreauthResponse;

verus! {

/// A field that must be a string.
pub open spec fn str_field(j: Json, k: Seq<char>) -> Option<String> {
    match json_field(j, k) {
        Some(Json::Str(s)) => Some(s),
        _ => None,
    }
}

/// A field that must be an unsigned integer.
pub open spec fn u64_field(j: Json, k: Seq<char>) -> Option<u64> {
    match json_field(j, k) {
        Some(Json::UInt(n)) => Some(n),
        _ => None,
    }
}

/// An optional string field: absent or `null` reads as no value, a string
/// as that value, and anything else as malformed (the outer `None`).
pub open spec fn opt_str_field(j: Json, k: Seq<char>) -> Option<Option<String>> {
    match json_field(j, k) {
        None => Some(None),
        Some(Json::Null) => Some(None),
        Some(Json::Str(s)) => Some(Some(s)),
        Some(_) => None,
    }
}

/// The string value of a field, when it is one.
fn get_str(j: &Json, k: &str) -> (r: Option<String>)
    ensures
        r == str_field(*j, k@),
{
    match j.field(k) {
        Some(v) => match v.as_str() {
            Some(s) => Some(s.clone()),
            None => None,
        },
        None => None,
    }
}

/// The integer value of a field, when it is one.
fn get_u64(j: &Json, k: &str) -> (r: Option<u64>)
    ensures
        r == u64_field(*j, k@),
{
    match j.field(k) {
        Some(v) => v.as_u64(),
        None => None,
    }
}

/// An optional string field, with the same reading as [`opt_str_field`].
fn get_opt_str(j: &Json, k: &str) -> (r: Option<Option<String>>)
    ensures
        r == opt_str_field(*j, k@),
{
    match j.field(k) {
        None => Some(None),
        Some(v) => match v {
            Json::Null => Some(None),
            Json::Str(s) => Some(Some(s.clone())),
            _ => None,
        },
    }
}

/// The error a payload of the wrong shape decodes to.
fn malformed_payload() -> (r: Error)
    ensures
        r matches Error::Unspecified { .. },
{
    Error::Unspecified { message: "malformed response payload".to_owned() }
}

/// Reads the `time` field of a service heartbeat payload.
pub fn decode_time(j: &Json) -> (r: Result<u64, Error>)
    ensures
        match r {
            Ok(t) => u64_field(*j, "time"@) == Some(t),
            Err(e) => u64_field(*j, "time"@) is None && e matches Error::Unspecified { .. },
        },
{
    match get_u64(j, "time") {
        Some(t) => Ok(t),
        None => Err(malformed_payload()),
    }
}

/// Reads the transaction id of an authentication submission.
pub fn decode_txid(j: &Json) -> (r: Result<String, Error>)
    ensures
        match r {
            Ok(t) => str_field(*j, "txid"@) == Some(t),
            Err(e) => str_field(*j, "txid"@) is None && e matches Error::Unspecified { .. },
        },
{
    match get_str(j, "txid") {
        Some(t) => Ok(t),
        None => Err(malformed_payload()),
    }
}

/// The resolution named by a `result` string.
pub open spec fn auth_result_of(s: Seq<char>) -> Option<AuthResult> {
    if s == "allow"@ {
        Some(AuthResult::Allow)
    } else if s == "deny"@ {
        Some(AuthResult::Deny)
    } else if s == "waiting"@ {
        Some(AuthResult::Waiting)
    } else {
        None
    }
}

/// The sub-state named by a `status` string.
pub open spec fn auth_status_of(s: Seq<char>) -> Option<AuthStatus> {
    if s == "calling"@ {
        Some(AuthStatus::Calling)
    } else if s == "answered"@ {
        Some(AuthStatus::Answered)
    } else if s == "pushed"@ {
        Some(AuthStatus::Pushed)
    } else if s == "push_failed"@ {
        Some(AuthStatus::PushFailed)
    } else if s == "timeout"@ {
        Some(AuthStatus::Timeout)
    } else if s == "fraud"@ {
        Some(AuthStatus::Fraud)
    } else if s == "allow"@ {
        Some(AuthStatus::Allow)
    } else if s == "bypass"@ {
        Some(AuthStatus::Bypass)
    } else if s == "deny"@ {
        Some(AuthStatus::Deny)
    } else if s == "locked_out"@ {
        Some(AuthStatus::LockedOut)
    } else if s == "sent"@ {
        Some(AuthStatus::Sent)
    } else {
        None
    }
}

fn parse_auth_result(s: &str) -> (r: Option<AuthResult>)
    ensures
        r == auth_result_of(s@),
{
    if str_eq(s, "allow") {
        Some(AuthResult::Allow)
    } else if str_eq(s, "deny") {
        Some(AuthResult::Deny)
    } else if str_eq(s, "waiting") {
        Some(AuthResult::Waiting)
    } else {
        None
    }
}

fn parse_auth_status(s: &str) -> (r: Option<AuthStatus>)
    ensures
        r == auth_status_of(s@),
{
    if str_eq(s, "calling") {
        Some(AuthStatus::Calling)
    } else if str_eq(s, "answered") {
        Some(AuthStatus::Answered)
    } else if str_eq(s, "pushed") {
        Some(AuthStatus::Pushed)
    } else if str_eq(s, "push_failed") {
        Some(AuthStatus::PushFailed)
    } else if str_eq(s, "timeout") {
        Some(AuthStatus::Timeout)
    } else if str_eq(s, "fraud") {
        Some(AuthStatus::Fraud)
    } else if str_eq(s, "allow") {
        Some(AuthStatus::Allow)
    } else if str_eq(s, "bypass") {
        Some(AuthStatus::Bypass)
    } else if str_eq(s, "deny") {
        Some(AuthStatus::Deny)
    } else if str_eq(s, "locked_out") {
        Some(AuthStatus::LockedOut)
    } else if str_eq(s, "sent") {
        Some(AuthStatus::Sent)
    } else {
        None
    }
}

/// What an authentication-status payload decodes to, when well-formed:
/// `result` and `status` are strings naming known states, `status_msg` is a
/// string, and the trusted-device token is a string or absent.
pub open spec fn spec_auth_status(j: Json) -> Option<AuthStatusResponse> {
    match (str_field(j, "result"@), str_field(j, "status"@), str_field(j, "status_msg"@)) {
        (Some(rs), Some(ss), Some(m)) => match (auth_result_of(rs@), auth_status_of(ss@)) {
            (Some(result), Some(status)) => match opt_str_field(j, "trusted_device_token"@) {
                Some(t) => Some(
                    AuthStatusResponse {
                        result,
                        status,
                        status_msg: m,
                        trusted_device_token: t,
                    },
                ),
                None => None,
            },
            _ => None,
        },
        _ => None,
    }
}

/// Decodes one poll of an authentication's status.
pub fn decode_auth_status(j: &Json) -> (r: Result<AuthStatusResponse, Error>)
    ensures
        match r {
            Ok(v) => spec_auth_status(*j) == Some(v),
            Err(e) => spec_auth_status(*j) is None && e matches Error::Unspecified { .. },
        },
{
    let result = match get_str(j, "result") {
        Some(rs) => match parse_auth_result(rs.as_str()) {
            Some(v) => v,
            None => {
                return Err(malformed_payload());
            },
        },
        None => {
            return Err(malformed_payload());
        },
    };
    let status = match get_str(j, "status") {
        Some(ss) => match parse_auth_status(ss.as_str()) {
            Some(v) => v,
            None => {
                return Err(malformed_payload());
            },
        },
        None => {
            return Err(malformed_payload());
        },
    };
    let status_msg = match get_str(j, "status_msg") {
        Some(m) => m,
        None => {
            return Err(malformed_payload());
        },
    };
    let trusted_device_token = match get_opt_str(j, "trusted_device_token") {
        Some(t) => t,
        None => {
            return Err(malformed_payload());
        },
    };
    Ok(AuthStatusResponse { result, status, status_msg, trusted_device_token })
}

/// What an enrollment payload decodes to, when well-formed: its five fields,
/// four strings and the expiration time.
pub open spec fn spec_enroll(j: Json) -> Option<EnrollResponse> {
    match (
        str_field(j, "activation_barcode"@),
        str_field(j, "activation_code"@),
        u64_field(j, "expiration"@),
        str_field(j, "user_id"@),
        str_field(j, "username"@),
    ) {
        (Some(ab), Some(ac), Some(ex), Some(ui), Some(un)) => Some(
            EnrollResponse {
                activation_barcode: ab,
                activation_code: ac,
                expiration: ex,
                user_id: ui,
                username: un,
            },
        ),
        _ => None,
    }
}

/// Decodes a fresh enrollment.
pub fn decode_enroll(j: &Json) -> (r: Result<EnrollResponse, Error>)
    ensures
        match r {
            Ok(v) => spec_enroll(*j) == Some(v),
            Err(e) => spec_enroll(*j) is None && e matches Error::Unspecified { .. },
        },
{
    let activation_barcode = match get_str(j, "activation_barcode") {
        Some(v) => v,
        None => {
            return Err(malformed_payload());
        },
    };
    let activation_code = match get_str(j, "activation_code") {
        Some(v) => v,
        None => {
            return Err(malformed_payload());
        },
    };
    let expiration = match get_u64(j, "expiration") {
        Some(v) => v,
        None => {
            return Err(malformed_payload());
        },
    };
    let user_id = match get_str(j, "user_id") {
        Some(v) => v,
        None => {
            return Err(malformed_payload());
        },
    };
    let username = match get_str(j, "username") {
        Some(v) => v,
        None => {
            return Err(malformed_payload());
        },
    };
    Ok(EnrollResponse { activation_barcode, activation_code, expiration, user_id, username })
}

/// The enrollment state named by the payload, which is a bare string.
pub open spec fn enroll_status_of(j: Json) -> Option<EnrollStatusResponse> {
    match j {
        Json::Str(s) => if s@ == "success"@ {
            Some(EnrollStatusResponse::Success)
        } else if s@ == "invalid"@ {
            Some(EnrollStatusResponse::Invalid)
        } else if s@ == "waiting"@ {
            Some(EnrollStatusResponse::Waiting)
        } else {
            None
        },
        _ => None,
    }
}

/// Decodes the state of a pending enrollment.
pub fn decode_enroll_status(j: &Json) -> (r: Result<EnrollStatusResponse, Error>)
    ensures
        match r {
            Ok(v) => enroll_status_of(*j) == Some(v),
            Err(e) => enroll_status_of(*j) is None && e matches Error::Unspecified { .. },
        },
{
    let s = match j.as_str() {
        Some(s) => s,
        None => {
            return Err(malformed_payload());
        },
    };
    if str_eq(s.as_str(), "success") {
        Ok(EnrollStatusResponse::Success)
    } else if str_eq(s.as_str(), "invalid") {
        Ok(EnrollStatusResponse::Invalid)
    } else if str_eq(s.as_str(), "waiting") {
        Ok(EnrollStatusResponse::Waiting)
    } else {
        Err(malformed_payload())
    }
}

/// The capability named by a string.
pub open spec fn device_cap_of(s: Seq<char>) -> Option<DeviceCapability> {
    if s == "auto"@ {
        Some(DeviceCapability::Auto)
    } else if s == "push"@ {
        Some(DeviceCapability::Push)
    } else if s == "sms"@ {
        Some(DeviceCapability::Sms)
    } else if s == "phone"@ {
        Some(DeviceCapability::Phone)
    } else if s == "mobile_otp"@ {
        Some(DeviceCapability::MobileOtp)
    } else {
        None
    }
}

/// The device kind named by a string.
pub open spec fn device_type_of(s: Seq<char>) -> Option<DeviceType> {
    if s == "phone"@ {
        Some(DeviceType::Phone)
    } else if s == "token"@ {
        Some(DeviceType::Token)
    } else {
        None
    }
}

fn parse_device_cap(s: &str) -> (r: Option<DeviceCapability>)
    ensures
        r == device_cap_of(s@),
{
    if str_eq(s, "auto") {
        Some(DeviceCapability::Auto)
    } else if str_eq(s, "push") {
        Some(DeviceCapability::Push)
    } else if str_eq(s, "sms") {
        Some(DeviceCapability::Sms)
    } else if str_eq(s, "phone") {
        Some(DeviceCapability::Phone)
    } else if str_eq(s, "mobile_otp") {
        Some(DeviceCapability::MobileOtp)
    } else {
        None
    }
}

/// Whether a capability list decodes a JSON array: same length, each element
/// a string naming that capability.
pub open spec fn caps_match(a: Seq<Json>, cs: Seq<DeviceCapability>) -> bool {
    a.len() == cs.len() && forall|i: int|
        0 <= i < a.len() ==> (#[trigger] a[i] matches Json::Str(s) && device_cap_of(s@) == Some(
            cs[i],
        ))
}

/// An empty string read as no value.
pub open spec fn none_if_empty(o: Option<String>) -> Option<String> {
    match o {
        Some(s) => if s@.len() == 0 {
            None
        } else {
            Some(s)
        },
        None => None,
    }
}

/// Whether a device value decodes a JSON object: `device` a string, `type` a
/// string naming a device kind, `name` and `number` strings with the empty
/// string read as absent, `display_name` and `sms_nextcode` strings or
/// absent, and `capabilities` an array of capability names or absent.
pub open spec fn device_matches(j: Json, d: Device) -> bool {
    &&& (str_field(j, "device"@) matches Some(s) && s == d.device)
    &&& (str_field(j, "type"@) matches Some(s) && device_type_of(s@) == Some(d.kind))
    &&& (str_field(j, "name"@) matches Some(s) && d.name == none_if_empty(Some(s)))
    &&& (str_field(j, "number"@) matches Some(s) && d.number == none_if_empty(Some(s)))
    &&& (opt_str_field(j, "display_name"@) matches Some(o) && o == d.display_name)
    &&& (opt_str_field(j, "sms_nextcode"@) matches Some(o) && o == d.sms_nextcode)
    &&& (match json_field(j, "capabilities"@) {
        None => d.capabilities is None,
        Some(Json::Null) => d.capabilities is None,
        Some(Json::Arr(a)) => (d.capabilities matches Some(cs) && caps_match(a@, cs@)),
        Some(_) => false,
    })
}

/// Decodes one device of a preauthentication answer.
#[verifier::loop_isolation(false)]
fn decode_device(j: &Json) -> (r: Result<Device, Error>)
    ensures
        match r {
            Ok(d) => device_matches(*j, d),
            Err(e) => (forall|d: Device| !device_matches(*j, d)) && e matches Error::Unspecified {
                ..
            },
        },
{
    let device = match get_str(j, "device") {
        Some(v) => v,
        None => {
            return Err(malformed_payload());
        },
    };
    let kind = match get_str(j, "type") {
        Some(s) => match parse_device_type(s.as_str()) {
            Some(v) => v,
            None => {
                return Err(malformed_payload());
            },
        },
        None => {
            return Err(malformed_payload());
        },
    };
    let name = match get_str(j, "name") {
        Some(s) => if s.as_str().unicode_len() == 0 {
            None
        } else {
            Some(s)
        },
        None => {
            return Err(malformed_payload());
        },
    };
    let number = match get_str(j, "number") {
        Some(s) => if s.as_str().unicode_len() == 0 {
            None
        } else {
            Some(s)
        },
        None => {
            return Err(malformed_payload());
        },
    };
    let display_name = match get_opt_str(j, "display_name") {
        Some(o) => o,
        None => {
            return Err(malformed_payload());
        },
    };
    let sms_nextcode = match get_opt_str(j, "sms_nextcode") {
        Some(o) => o,
        None => {
            return Err(malformed_payload());
        },
    };
    let capabilities: Option<Vec<DeviceCapability>>;
    match j.field("capabilities") {
        None => {
            capabilities = None;
        },
        Some(v) => match v {
            Json::Null => {
                capabilities = None;
            },
            Json::Arr(a) => {
                let mut cs: Vec<DeviceCapability> = Vec::new();
                let mut i: usize = 0;
                while i < a.len()
                    invariant
                        i <= a@.len(),
                        cs@.len() == i,
                        forall|x: int|
                            0 <= x < i ==> (#[trigger] a@[x] matches Json::Str(s) && device_cap_of(
                                s@,
                            ) == Some(cs@[x])),
                    decreases a@.len() - i,
                {
                    match a[i].as_str() {
                        Some(s) => match parse_device_cap(s.as_str()) {
                            Some(c) => {
                                cs.push(c);
                            },
                            None => {
                                proof {
                                    lemma_no_device_fits(*j, i as int);
                                }
                                return Err(malformed_payload());
                            },
                        },
                        None => {
                            proof {
                                lemma_no_device_fits(*j, i as int);
                            }
                            return Err(malformed_payload());
                        },
                    }
                    i = i + 1;
                }
                capabilities = Some(cs);
            },
            _ => {
                return Err(malformed_payload());
            },
        },
    }
    Ok(Device { capabilities, device, display_name, name, number, sms_nextcode, kind })
}

/// When one entry of the capabilities array names no capability, no device
/// value decodes the object.
proof fn lemma_no_device_fits(j: Json, i: int)
    requires
        json_field(j, "capabilities"@) matches Some(a) && a matches Json::Arr(es) && 0 <= i
            < es@.len() && !(es@[i] matches Json::Str(s) && device_cap_of(s@) is Some),
    ensures
        forall|d: Device| !device_matches(j, d),
{
    assert forall|d: Device| !device_matches(j, d) by {
        if device_matches(j, d) {
            let es = json_field(j, "capabilities"@)->0->Arr_0;
            assert(d.capabilities matches Some(cs) && caps_match(es@, cs@));
            let cs = d.capabilities->0;
            assert(es@[i] matches Json::Str(s) && device_cap_of(s@) == Some(cs@[i]));
        }
    }
}

fn parse_device_type(s: &str) -> (r: Option<DeviceType>)
    ensures
        r == device_type_of(s@),
{
    if str_eq(s, "phone") {
        Some(DeviceType::Phone)
    } else if str_eq(s, "token") {
        Some(DeviceType::Token)
    } else {
        None
    }
}

/// Whether a device list decodes a JSON array, element by element.
pub open spec fn devices_match(a: Seq<Json>, ds: Seq<Device>) -> bool {
    a.len() == ds.len() && forall|i: int|
        0 <= i < a.len() ==> device_matches(#[trigger] a[i], ds[i])
}

/// Whether a preauthentication answer decodes a payload: the `result`
/// string picks the variant — `auth` with its device list, `enroll` with
/// its portal URL, or a bare `allow` or `deny`.
pub open spec fn preauth_matches(j: Json, v: PreauthResponse) -> bool {
    match str_field(j, "result"@) {
        Some(s) => if s@ == "allow"@ {
            v == PreauthResponse::Allow
        } else if s@ == "deny"@ {
            v == PreauthResponse::Deny
        } else if s@ == "enroll"@ {
            match str_field(j, "enroll_portal_url"@) {
                Some(u) => v == (PreauthResponse::Enroll { enroll_portal_url: u }),
                None => false,
            }
        } else if s@ == "auth"@ {
            match json_field(j, "devices"@) {
                Some(Json::Arr(a)) => (v matches PreauthResponse::Auth { devices }
                    && devices_match(a@, devices@)),
                _ => false,
            }
        } else {
            false
        },
        None => false,
    }
}

/// Decodes a preauthentication answer.
#[verifier::loop_isolation(false)]
pub fn decode_preauth(j: &Json) -> (r: Result<PreauthResponse, Error>)
    ensures
        match r {
            Ok(v) => preauth_matches(*j, v),
            Err(e) => (forall|v: PreauthResponse| !preauth_matches(*j, v)) && e
                matches Error::Unspecified { .. },
        },
{
    let result = match get_str(j, "result") {
        Some(s) => s,
        None => {
            return Err(malformed_payload());
        },
    };
    if str_eq(result.as_str(), "allow") {
        Ok(PreauthResponse::Allow)
    } else if str_eq(result.as_str(), "deny") {
        Ok(PreauthResponse::Deny)
    } else if str_eq(result.as_str(), "enroll") {
        match get_str(j, "enroll_portal_url") {
            Some(u) => Ok(PreauthResponse::Enroll { enroll_portal_url: u }),
            None => Err(malformed_payload()),
        }
    } else if str_eq(result.as_str(), "auth") {
        match j.field("devices") {
            Some(v) => match v {
                Json::Arr(a) => {
                    let mut ds: Vec<Device> = Vec::new();
                    let mut i: usize = 0;
                    while i < a.len()
                        invariant
                            i <= a@.len(),
                            ds@.len() == i,
                            forall|x: int|
                                0 <= x < i ==> device_matches(#[trigger] a@[x], ds@[x]),
                        decreases a@.len() - i,
                    {
                        match decode_device(&a[i]) {
                            Ok(d) => {
                                ds.push(d);
                            },
                            Err(e) => {
                                proof {
                                    assert forall|v: PreauthResponse| !preauth_matches(*j, v) by {
                                        if preauth_matches(*j, v) {
                                            let devices = v->Auth_devices;
                                            assert(device_matches(a@[i as int], devices@[
                                                i as int
                                            ]));
                                        }
                                    }
                                }
                                return Err(e);
                            },
                        }
                        i = i + 1;
                    }
                    Ok(PreauthResponse::Auth { devices: ds })
                },
                _ => Err(malformed_payload()),
            },
            None => Err(malformed_payload()),
        }
    } else {
        Err(malformed_payload())
    }
}

} // verus!
