pub mod client;
pub mod decode;
pub mod encoding;
pub mod errors;
pub mod params;
pub mod request;
pub mod response;
pub mod sign;
pub mod types;

pub use encoding::percent_decode;
pub use client::DuoClient;
pub use decode::decode_auth_status;
pub use decode::decode_enroll;
pub use decode::decode_enroll_status;
pub use decode::decode_preauth;
pub use decode::decode_time;
pub use decode::decode_txid;
pub use errors::Error;
pub use params::Parameters;
pub use request::BuiltRequest;
pub use request::DuoRequest;
pub use request::Method;
pub use response::DuoResponse;
pub use response::Json;
pub use response::decode_envelope;
pub use sign::sign_request;
pub use types::AuthRequest;
pub use types::AuthRequestFactor;
pub use types::AuthResult;
pub use types::AuthStatus;
pub use types::AuthStatusResponse;
pub use types::Device;
pub use types::DeviceCapability;
pub use types::DeviceType;
pub use types::EnrollResponse;
pub use types::EnrollStatusResponse;
pub use types::PreauthRequest;
pub use types::PreauthResponse;
pub use types::User;
