//! The typed request and response models: who is authenticated (exactly one
//! of user id or username), which factor is used, and the decoded shapes of
//! the operation responses. Unset optional fields are omitted from the
//! parameter map entirely, never sent as empty strings.

use vstd::prelude::*;

use crate::params::Parameters;

verus! {

/// The user a request is about: exactly one of an opaque user id or a
/// username, never both, never neither.
#[derive(Clone, Debug)]
pub enum User {
    UserId { id: String },
    Username { username: String },
}

/// The parameter field a user identity is sent under.
pub open spec fn user_field(u: User) -> Seq<char> {
    match u {
        User::UserId { .. } => "user_id"@,
        User::Username { .. } => "username"@,
    }
}

/// The value a user identity is sent as.
pub open spec fn user_value(u: User) -> Seq<char> {
    match u {
        User::UserId { id } => id@,
        User::Username { username } => username@,
    }
}

impl User {
    /// A user given by id.
    pub fn user_id(id: &str) -> (r: User)
        ensures
            r matches User::UserId { id: i } && i@ == id@,
    {
        User::UserId { id: id.to_owned() }
    }

    /// A user given by username.
    pub fn username(username: &str) -> (r: User)
        ensures
            r matches User::Username { username: u } && u@ == username@,
    {
        User::Username { username: username.to_owned() }
    }

    /// Adds the identity under its one field.
    pub fn apply(self, parameters: &mut Parameters)
        requires
            old(parameters).wf(),
        ensures
            final(parameters).wf(),
            final(parameters).as_map() == old(parameters).as_map().insert(
                user_field(self),
                user_value(self),
            ),
    {
        match self {
            User::UserId { id } => parameters.set("user_id", id.as_str()),
            User::Username { username } => parameters.set("username", username.as_str()),
        }
    }
}

/// Inserts a pair when the value is present; an absent value changes
/// nothing.
pub open spec fn opt_insert(
    m: Map<Seq<char>, Seq<char>>,
    k: Seq<char>,
    v: Option<String>,
) -> Map<Seq<char>, Seq<char>> {
    match v {
        Some(s) => m.insert(k, s@),
        None => m,
    }
}

/// The factor of an authentication call: exactly one per call, each
/// contributing a `factor` field of its lowercase name plus its own fields.
#[derive(Clone, Debug)]
pub enum AuthRequestFactor {
    Auto {
        device: Option<String>,
        kind: Option<String>,
        display_username: Option<String>,
        push_info: Option<String>,
    },
    Push {
        device: String,
        kind: Option<String>,
        display_username: Option<String>,
        push_info: Option<String>,
    },
    Passcode { passcode: String },
    Phone { device: String },
    Sms { device: String },
}

/// What a factor adds to a parameter mapping: its `factor` name and its own
/// fields, absent optional fields omitted. The `kind` field is sent under
/// the wire name `type`.
pub open spec fn factor_map(
    f: AuthRequestFactor,
    m: Map<Seq<char>, Seq<char>>,
) -> Map<Seq<char>, Seq<char>> {
    match f {
        AuthRequestFactor::Auto { device, kind, display_username, push_info } => opt_insert(
            opt_insert(
                opt_insert(
                    opt_insert(m.insert("factor"@, "auto"@), "device"@, device),
                    "type"@,
                    kind,
                ),
                "display_username"@,
                display_username,
            ),
            "push_info"@,
            push_info,
        ),
        AuthRequestFactor::Push { device, kind, display_username, push_info } => opt_insert(
            opt_insert(
                opt_insert(
                    m.insert("factor"@, "push"@).insert("device"@, device@),
                    "type"@,
                    kind,
                ),
                "display_username"@,
                display_username,
            ),
            "push_info"@,
            push_info,
        ),
        AuthRequestFactor::Passcode { passcode } => m.insert("factor"@, "passcode"@).insert(
            "passcode"@,
            passcode@,
        ),
        AuthRequestFactor::Phone { device } => m.insert("factor"@, "phone"@).insert(
            "device"@,
            device@,
        ),
        AuthRequestFactor::Sms { device } => m.insert("factor"@, "sms"@).insert(
            "device"@,
            device@,
        ),
    }
}

impl AuthRequestFactor {
    /// The automatic factor with the device chosen by the service: the
    /// device field holds the literal `auto` and the rest stays unset.
    pub fn auto() -> (r: AuthRequestFactor)
        ensures
            r matches AuthRequestFactor::Auto {
                device: d,
                kind: k,
                display_username: u,
                push_info: p,
            } && (d matches Some(s) && s@ == "auto"@) && k is None && u is None && p is None,
    {
        AuthRequestFactor::Auto {
            device: Some("auto".to_owned()),
            kind: None,
            display_username: None,
            push_info: None,
        }
    }

    /// Adds the factor's fields to the parameters.
    pub fn apply(self, parameters: &mut Parameters)
        requires
            old(parameters).wf(),
        ensures
            final(parameters).wf(),
            final(parameters).as_map() == factor_map(self, old(parameters).as_map()),
    {
        match self {
            AuthRequestFactor::Auto { device, kind, display_username, push_info } => {
                parameters.set("factor", "auto");
                parameters.set_opt("device", device);
                parameters.set_opt("type", kind);
                parameters.set_opt("display_username", display_username);
                parameters.set_opt("push_info", push_info);
            },
            AuthRequestFactor::Push { device, kind, display_username, push_info } => {
                parameters.set("factor", "push");
                parameters.set("device", device.as_str());
                parameters.set_opt("type", kind);
                parameters.set_opt("display_username", display_username);
                parameters.set_opt("push_info", push_info);
            },
            AuthRequestFactor::Passcode { passcode } => {
                parameters.set("factor", "passcode");
                parameters.set("passcode", passcode.as_str());
            },
            AuthRequestFactor::Phone { device } => {
                parameters.set("factor", "phone");
                parameters.set("device", device.as_str());
            },
            AuthRequestFactor::Sms { device } => {
                parameters.set("factor", "sms");
                parameters.set("device", device.as_str());
            },
        }
    }
}

/// An authentication submission: the user, one factor, and optional client
/// address and hostname.
#[derive(Clone, Debug)]
pub struct AuthRequest {
    pub user: User,
    pub factor: AuthRequestFactor,
    pub ipaddr: Option<String>,
    pub hostname: Option<String>,
}

/// What an authentication request adds to a parameter mapping.
pub open spec fn auth_request_map(
    r: AuthRequest,
    m: Map<Seq<char>, Seq<char>>,
) -> Map<Seq<char>, Seq<char>> {
    opt_insert(
        opt_insert(
            factor_map(r.factor, m.insert(user_field(r.user), user_value(r.user))),
            "ipaddr"@,
            r.ipaddr,
        ),
        "hostname"@,
        r.hostname,
    )
}

impl AuthRequest {
    /// A request for a user and factor, with the optional fields unset.
    pub fn new(user: User, factor: AuthRequestFactor) -> (r: AuthRequest)
        ensures
            r.user == user,
            r.factor == factor,
            r.ipaddr is None,
            r.hostname is None,
    {
        AuthRequest { user, factor, ipaddr: None, hostname: None }
    }

    /// Adds the request's fields to the parameters.
    pub fn apply(self, parameters: &mut Parameters)
        requires
            old(parameters).wf(),
        ensures
            final(parameters).wf(),
            final(parameters).as_map() == auth_request_map(self, old(parameters).as_map()),
    {
        let AuthRequest { user, factor, ipaddr, hostname } = self;
        user.apply(parameters);
        factor.apply(parameters);
        parameters.set_opt("ipaddr", ipaddr);
        parameters.set_opt("hostname", hostname);
    }
}

/// A preauthentication query: the user, and optional client address,
/// hostname, and trusted-device token.
#[derive(Clone, Debug)]
pub struct PreauthRequest {
    pub user: User,
    pub ipaddr: Option<String>,
    pub hostname: Option<String>,
    pub trusted_device_token: Option<String>,
}

/// What a preauthentication request adds to a parameter mapping.
pub open spec fn preauth_request_map(
    r: PreauthRequest,
    m: Map<Seq<char>, Seq<char>>,
) -> Map<Seq<char>, Seq<char>> {
    opt_insert(
        opt_insert(
            opt_insert(
                m.insert(user_field(r.user), user_value(r.user)),
                "ipaddr"@,
                r.ipaddr,
            ),
            "hostname"@,
            r.hostname,
        ),
        "trusted_device_token"@,
        r.trusted_device_token,
    )
}

impl PreauthRequest {
    /// A query for a user, with the optional fields unset.
    pub fn new(user: User) -> (r: PreauthRequest)
        ensures
            r.user == user,
            r.ipaddr is None,
            r.hostname is None,
            r.trusted_device_token is None,
    {
        PreauthRequest { user, ipaddr: None, hostname: None, trusted_device_token: None }
    }

    /// Adds the query's fields to the parameters.
    pub fn apply(self, parameters: &mut Parameters)
        requires
            old(parameters).wf(),
        ensures
            final(parameters).wf(),
            final(parameters).as_map() == preauth_request_map(self, old(parameters).as_map()),
    {
        let PreauthRequest { user, ipaddr, hostname, trusted_device_token } = self;
        user.apply(parameters);
        parameters.set_opt("ipaddr", ipaddr);
        parameters.set_opt("hostname", hostname);
        parameters.set_opt("trusted_device_token", trusted_device_token);
    }
}

/// The resolution of an asynchronous authentication.
#[derive(Clone, Copy, PartialEq, Eq, Structural, Debug)]
pub enum AuthResult {
    Allow,
    Deny,
    Waiting,
}

/// The human-readable sub-state of an authentication in progress.
#[derive(Clone, Copy, PartialEq, Eq, Structural, Debug)]
pub enum AuthStatus {
    Calling,
    Answered,
    Pushed,
    PushFailed,
    Timeout,
    Fraud,
    Allow,
    Bypass,
    Deny,
    LockedOut,
    Sent,
}

/// One poll of an asynchronous authentication's status.
#[derive(Debug)]
pub struct AuthStatusResponse {
    pub result: AuthResult,
    pub status: AuthStatus,
    pub status_msg: String,
    pub trusted_device_token: Option<String>,
}

impl AuthStatusResponse {
    /// Whether the authentication has resolved: approved, denied, or not
    /// yet — the caller polls again on `None`.
    pub fn ready(&self) -> (r: Option<bool>)
        ensures
            r == (match self.result {
                AuthResult::Allow => Some(true),
                AuthResult::Deny => Some(false),
                AuthResult::Waiting => None,
            }),
    {
        match self.result {
            AuthResult::Allow => Some(true),
            AuthResult::Deny => Some(false),
            AuthResult::Waiting => None,
        }
    }
}

/// A fresh enrollment: its activation material and identity.
#[derive(Debug)]
pub struct EnrollResponse {
    pub activation_barcode: String,
    pub activation_code: String,
    pub expiration: u64,
    pub user_id: String,
    pub username: String,
}

/// The state of a pending enrollment.
#[derive(Clone, Copy, PartialEq, Eq, Structural, Debug)]
pub enum EnrollStatusResponse {
    Success,
    Invalid,
    Waiting,
}

/// What a device can do.
#[derive(Clone, Copy, PartialEq, Eq, Structural, Debug)]
pub enum DeviceCapability {
    Auto,
    Push,
    Sms,
    Phone,
    MobileOtp,
}

/// The kind of a device. Sent under the wire name `type`.
#[derive(Clone, Copy, PartialEq, Eq, Structural, Debug)]
pub enum DeviceType {
    Phone,
    Token,
}

/// A device a user may authenticate with. The `name` and `number` fields
/// read an empty string as absent.
#[derive(Debug)]
pub struct Device {
    pub capabilities: Option<Vec<DeviceCapability>>,
    pub device: String,
    pub display_name: Option<String>,
    pub name: Option<String>,
    pub number: Option<String>,
    pub sms_nextcode: Option<String>,
    pub kind: DeviceType,
}

/// The answer to a preauthentication query: authenticate against one of the
/// listed devices, enroll first at the given portal, or an immediate allow
/// or deny.
#[derive(Debug)]
pub enum PreauthResponse {
    Auth { devices: Vec<Device> },
    Enroll { enroll_portal_url: String },
    Allow,
    Deny,
}

} // verus!
