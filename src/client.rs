use vstd::prelude::*;

use crate::error::AuthError;
use crate::http::{is_success, is_success_status};

verus! {

/// Path of the device's meter report, which holds the current production.
pub const PRODUCTION_PATH: &'static str = "/ivp/meters/reports/production";

/// Path of the device's list of inverters with their last reported watts.
pub const INVERTERS_PATH: &'static str = "/api/v1/production/inverters";

/// Path of the device's production summary, which holds lifetime energy.
pub const LIFETIME_PATH: &'static str = "/production.json";

/// Address of the cloud login endpoint.
pub const CLOUD_LOGIN_URL: &'static str = "https://enlighten.enphaseenergy.com/login/login.json";

/// Address of the cloud token issuance endpoint.
pub const TOKEN_ISSUANCE_URL: &'static str = "https://entrez.enphaseenergy.com/tokens";

/// The fields of the multipart form posted to the cloud login endpoint.
pub struct LoginForm {
    /// Sent as `user[email]`.
    pub email: String,
    /// Sent as `user[password]`.
    pub password: String,
}

/// The JSON payload posted to the token issuance endpoint.
pub struct TokenRequest {
    pub session_id: String,
    pub username: String,
    pub serial_num: String,
}

/// The credentials and address of one device; fixed for the life of the
/// process.
pub struct Client {
    pub hostname: String,
    pub username: String,
    pub password: String,
    pub serial_num: String,
}

/// The address of `path` on the device at `hostname`.
pub open spec fn device_url(hostname: Seq<char>, path: Seq<char>) -> Seq<char> {
    "https://"@ + hostname + path
}

/// Where the cloud login leaves the exchange: the token request to send next,
/// or the error that ends it.
pub open spec fn login_outcome(
    client: &Client,
    status: u16,
    session_id: Option<String>,
) -> Result<TokenRequest, AuthError> {
    if !is_success_status(status) {
        Err(AuthError::CloudLoginFailed { status })
    } else {
        match session_id {
            None => Err(AuthError::MalformedResponse),
            Some(id) => Ok(
                TokenRequest { session_id: id, username: client.username, serial_num: client.serial_num },
            ),
        }
    }
}

/// The text that the token issuance body decodes to, each ill-formed UTF-8
/// sequence replaced by U+FFFD.
pub uninterp spec fn utf8_lossy_of(bytes: Seq<u8>) -> Seq<char>;

/// Relies on `String::from_utf8_lossy`: the text depends on the bytes alone.
#[verifier::external_body]
fn decode_lossy(bytes: &Vec<u8>) -> (r: String)
    ensures
        r@ == utf8_lossy_of(bytes@),
{
    String::from_utf8_lossy(bytes.as_slice()).into_owned()
}

impl Client {
    /// A client for the device at `hostname` with the given account and
    /// device serial number.
    pub fn new(hostname: &str, username: &str, password: &str, serial_num: &str) -> (r: Self)
        ensures
            r.hostname@ == hostname@,
            r.username@ == username@,
            r.password@ == password@,
            r.serial_num@ == serial_num@,
    {
        Client {
            hostname: String::from_str(hostname),
            username: String::from_str(username),
            password: String::from_str(password),
            serial_num: String::from_str(serial_num),
        }
    }

    /// The HTTPS address of `path` on the device.
    pub fn url(&self, path: &str) -> (r: String)
        ensures
            r@ == device_url(self.hostname@, path@),
    {
        let mut r = String::from_str("https://");
        r.append(self.hostname.as_str());
        r.append(path);
        r
    }

    /// The form that opens the exchange: the account's email and password.
    pub fn login_form(&self) -> (r: LoginForm)
        ensures
            r.email == self.username,
            r.password == self.password,
    {
        LoginForm { email: self.username.clone(), password: self.password.clone() }
    }

    /// Decides on the cloud login's answer: its status and the `session_id`
    /// that its body held, if it held one.
    pub fn after_login(&self, status: u16, session_id: Option<String>) -> (r: Result<
        TokenRequest,
        AuthError,
    >)
        ensures
            r == login_outcome(self, status, session_id),
    {
        if !is_success(status) {
            Err(AuthError::CloudLoginFailed { status })
        } else {
            match session_id {
                None => Err(AuthError::MalformedResponse),
                Some(id) => Ok(
                    TokenRequest {
                        session_id: id,
                        username: self.username.clone(),
                        serial_num: self.serial_num.clone(),
                    },
                ),
            }
        }
    }

    /// Decides on the token issuance's answer: on success the body, decoded
    /// as UTF-8 with replacement, is the token.
    pub fn after_token_issuance(&self, status: u16, body: &Vec<u8>) -> (r: Result<String, AuthError>)
        ensures
            !is_success_status(status) ==> r == Err::<String, AuthError>(
                AuthError::TokenIssuanceFailed { status },
            ),
            is_success_status(status) ==> r is Ok && r->Ok_0@ == utf8_lossy_of(body@),
    {
        if !is_success(status) {
            Err(AuthError::TokenIssuanceFailed { status })
        } else {
            Ok(decode_lossy(body))
        }
    }
}

} // verus!
