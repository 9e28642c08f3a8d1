//! Firebase Cloud Messaging (HTTP v1): the signed service-account assertion
//! and the endpoints. The HTTP exchanges themselves happen in the program.

use vstd::prelude::*;
use vstd::string::*;

verus! {

/// Service-account credentials for FCM.
#[derive(Clone, Debug, PartialEq)]
pub struct FcmConfig {
    pub project_id: String,
    pub client_email: String,
    pub private_key: String,
}

/// Why no assertion could be made.
#[derive(Clone, Copy, Debug, PartialEq)]
pub enum FcmError {
    /// The clock reads before the Unix epoch, or so late that the expiry time
    /// does not fit an `i64`.
    ClockOutOfRange,
    /// The key could not be read as an RSA PEM key, or signing failed.
    Signing,
    /// The token endpoint's answer holds no `access_token` string.
    MissingAccessToken,
}

/// The OAuth scope that FCM sends need.
pub open spec fn fcm_scope() -> Seq<char> {
    "https://www.googleapis.com/auth/firebase.messaging"@
}

/// Google's OAuth 2.0 token endpoint, also the audience of the assertion.
pub open spec fn token_endpoint_url() -> Seq<char> {
    "https://oauth2.googleapis.com/token"@
}

/// Lifetime of an assertion, in seconds.
pub open spec fn assertion_lifetime() -> int {
    3600
}

#[verifier::external_type_specification]
#[verifier::external_body]
pub struct ExJwtError(jsonwebtoken::errors::Error);

#[verifier::external_type_specification]
#[verifier::external_body]
pub struct ExSystemTime(std::time::SystemTime);

/// What `jsonwebtoken::encode` gives for an RS256 header, the claims `iss`,
/// `scope`, `aud`, `iat`, `exp` and the key read from the PEM text: the
/// token, or `None` when the key cannot be read or used for signing.
pub uninterp spec fn signed_rs256_jwt(
    iss: Seq<char>,
    scope: Seq<char>,
    aud: Seq<char>,
    iat: int,
    exp: int,
    pem: Seq<char>,
) -> Option<Seq<char>>;

/// Calls `jsonwebtoken::encode` with an RS256 header, the claims
/// `{aud, exp, iat, iss, scope}` and the key that
/// `jsonwebtoken::EncodingKey::from_rsa_pem` reads from `pem`. Claimed: the
/// outcome, token or failure, is a function of these arguments alone. RS256
/// signs through `ring` with PKCS#1 v1.5 padding, which does not use the
/// random-number generator it is handed, and every step that can fail
/// (reading the PEM text, reading the DER key, signing) depends on the
/// arguments only.
#[verifier::external_body]
fn encode_rs256_jwt(
    iss: &str,
    scope: &str,
    aud: &str,
    iat: i64,
    exp: i64,
    pem: &str,
) -> (r: Result<String, jsonwebtoken::errors::Error>)
    ensures
        match r {
            Ok(t) => signed_rs256_jwt(iss@, scope@, aud@, iat as int, exp as int, pem@) == Some(t@),
            Err(_) => signed_rs256_jwt(iss@, scope@, aud@, iat as int, exp as int, pem@) is None,
        },
{
    let key = jsonwebtoken::EncodingKey::from_rsa_pem(pem.as_bytes())?;
    let claims = std::collections::BTreeMap::from([
        ("aud", serde_json::Value::from(aud)),
        ("exp", serde_json::Value::from(exp)),
        ("iat", serde_json::Value::from(iat)),
        ("iss", serde_json::Value::from(iss)),
        ("scope", serde_json::Value::from(scope)),
    ]);
    jsonwebtoken::encode(&jsonwebtoken::Header::new(jsonwebtoken::Algorithm::RS256), &claims, &key)
}

/// Reads the system clock with `std::time::SystemTime::now`. Nothing is
/// claimed about the time it returns.
#[verifier::external_body]
fn system_clock_now() -> (t: std::time::SystemTime) {
    std::time::SystemTime::now()
}

/// Whole seconds from the Unix epoch to `t`, by
/// `SystemTime::duration_since(UNIX_EPOCH)` and `Duration::as_secs`; `None`
/// when `t` lies before the epoch. Nothing more is claimed: the time is
/// opaque here.
#[verifier::external_body]
fn seconds_since_unix_epoch(t: &std::time::SystemTime) -> (r: Option<u64>) {
    t.duration_since(std::time::UNIX_EPOCH).ok().map(|d| d.as_secs())
}

/// The outcome of an assertion for the service account `email` with the key
/// `pem`, issued `now` seconds after the Unix epoch and valid for an hour.
pub open spec fn assertion_outcome(email: Seq<char>, pem: Seq<char>, now: int) -> Result<
    Seq<char>,
    FcmError,
> {
    if now > i64::MAX - assertion_lifetime() {
        Err(FcmError::ClockOutOfRange)
    } else {
        match signed_rs256_jwt(
            email,
            fcm_scope(),
            token_endpoint_url(),
            now,
            now + assertion_lifetime(),
            pem,
        ) {
            Some(t) => Ok(t),
            None => Err(FcmError::Signing),
        }
    }
}

/// A token result by the characters of its token.
pub open spec fn token_result_view(r: Result<String, FcmError>) -> Result<Seq<char>, FcmError> {
    match r {
        Ok(t) => Ok(t@),
        Err(e) => Err(e),
    }
}

/// The signed assertion that exchanges the service account for an access
/// token, issued at `now` (seconds since the Unix epoch) and valid for an
/// hour. Fails with `ClockOutOfRange` when the expiry time does not fit an
/// `i64`, with `Signing` when the key cannot be used.
pub fn fcm_assertion_at(config: &FcmConfig, now: u64) -> (r: Result<String, FcmError>)
    ensures
        token_result_view(r) == assertion_outcome(
            config.client_email@,
            config.private_key@,
            now as int,
        ),
{
    if now > 0x7fff_ffff_ffff_f1efu64 {
        return Err(FcmError::ClockOutOfRange);
    }
    let iat = now as i64;
    let scope = "https://www.googleapis.com/auth/firebase.messaging";
    let aud = "https://oauth2.googleapis.com/token";
    match encode_rs256_jwt(
        config.client_email.as_str(),
        scope,
        aud,
        iat,
        iat + 3600,
        config.private_key.as_str(),
    ) {
        Ok(t) => Ok(t),
        Err(_) => Err(FcmError::Signing),
    }
}

/// The signed assertion, issued now: what [`fcm_assertion_at`] gives for the
/// clock's reading, or `ClockOutOfRange` when the clock reads before the Unix
/// epoch. Which outcome comes depends on the clock.
pub fn fcm_assertion(config: &FcmConfig) -> (r: Result<String, FcmError>)
    ensures
        exists|now: u64|
            token_result_view(r) == #[trigger] assertion_outcome(
                config.client_email@,
                config.private_key@,
                now as int,
            ),
{
    let clock = system_clock_now();
    match seconds_since_unix_epoch(&clock) {
        Some(now) => {
            let r = fcm_assertion_at(config, now);
            assert(token_result_view(r) == assertion_outcome(
                config.client_email@,
                config.private_key@,
                now as int,
            ));
            r
        },
        None => {
            assert(assertion_outcome(config.client_email@, config.private_key@, u64::MAX as int)
                == Err::<Seq<char>, FcmError>(FcmError::ClockOutOfRange));
            Err(FcmError::ClockOutOfRange)
        },
    }
}

/// The string member `name` of the JSON object that `text` holds, as
/// `serde_json` reads it.
pub uninterp spec fn json_string_member(text: Seq<char>, name: Seq<char>) -> Option<Seq<char>>;

/// Parses `text` with `serde_json::from_str::<serde_json::Value>`, looks up
/// `name` with `Value::get` and reads it with `Value::as_str`. Claimed: the
/// outcome is a function of `text` and `name` alone; `None` when the text is
/// not JSON, not an object, lacks the member or the member is no string.
/// Which texts are which is left to `serde_json` and not stated.
#[verifier::external_body]
fn json_string_member_of(text: &str, name: &str) -> (r: Option<String>)
    ensures
        r matches Some(v) ==> json_string_member(text@, name@) == Some(v@),
        r is None ==> json_string_member(text@, name@) is None,
{
    serde_json::from_str::<serde_json::Value>(text).ok()?.get(name)?.as_str().map(|v| v.to_string())
}

/// The access token in the token endpoint's JSON answer.
pub fn access_token_from_response(body: &str) -> (r: Result<String, FcmError>)
    ensures
        r matches Ok(t) ==> json_string_member(body@, "access_token"@) == Some(t@),
        r matches Err(e) ==> e is MissingAccessToken && json_string_member(body@, "access_token"@)
            is None,
{
    match json_string_member_of(body, "access_token") {
        Some(t) => Ok(t),
        None => Err(FcmError::MissingAccessToken),
    }
}

/// Google's OAuth 2.0 token endpoint.
pub fn token_endpoint() -> (r: String)
    ensures
        r@ == token_endpoint_url(),
{
    String::from_str("https://oauth2.googleapis.com/token")
}

/// The FCM v1 send endpoint of a project.
pub fn fcm_send_url(project_id: &str) -> (r: String)
    ensures
        r@ == "https://fcm.googleapis.com/v1/projects/"@ + project_id@ + "/messages:send"@,
{
    let mut r = String::from_str("https://fcm.googleapis.com/v1/projects/");
    r.append(project_id);
    r.append("/messages:send");
    r
}

} // verus!
