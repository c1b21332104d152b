//! The token and user guard: reading the bearer token out of the
//! Authorization header, issuing and verifying the signed token, and the
//! 401/500 verdicts the management routes answer with when any step of
//! that fails.

use vstd::prelude::*;

use crate::text::{spec_starts_with, str_starts_with};

verus! {

/// Seconds a freshly issued token stays valid: one day.
pub const TOKEN_VALIDITY: u64 = 24 * 60 * 60;

/// The claims carried by a token: the subject (the user's UUID), when it
/// expires, and when it was issued, both as Unix timestamps.
pub struct Claims {
    pub sub: String,
    pub exp: u64,
    pub iat: u64,
}

/// The claims a token issued at `now` for a user carries: the user as
/// subject, issued now, expiring a day later.
pub fn claims_for(user_uuid: &str, now: u64) -> (c: Claims)
    requires
        now <= u64::MAX - TOKEN_VALIDITY,
    ensures
        c.sub@ == user_uuid@,
        c.iat == now,
        c.exp == now + TOKEN_VALIDITY,
{
    Claims { sub: user_uuid.to_owned(), exp: now + TOKEN_VALIDITY, iat: now }
}

/// The signed compact token for given claims and secret; a function of
/// the claims and the secret alone.
pub uninterp spec fn jwt_of(sub: Seq<char>, exp: u64, iat: u64, secret: Seq<char>) -> Seq<char>;

/// Relies on jsonwebtoken::encode with the default HS256 header: the
/// token is determined by the claims and the secret alone, and signing
/// cannot fail here — the key matches the header's algorithm, and a
/// claims object of strings and numbers always serializes.
#[verifier::external_body]
fn jwt_encode(sub: &str, exp: u64, iat: u64, secret: &str) -> (r: Option<String>)
    ensures
        r is Some,
        r matches Some(t) ==> t@ == jwt_of(sub@, exp, iat, secret@),
{
    let mut claims = serde_json::Map::new();
    claims.insert("sub".to_owned(), serde_json::Value::from(sub));
    claims.insert("exp".to_owned(), serde_json::Value::from(exp));
    claims.insert("iat".to_owned(), serde_json::Value::from(iat));
    jsonwebtoken::encode(
        &jsonwebtoken::Header::default(),
        &serde_json::Value::Object(claims),
        &jsonwebtoken::EncodingKey::from_secret(secret.as_bytes()),
    )
        .ok()
}

/// Relies on jsonwebtoken::decode with HS256 and no leeway: the signature
/// is verified against the secret and a token whose `exp` lies in the
/// past is rejected. What comes back depends on the clock, so nothing is
/// promised of the outcome; callers handle every case.
#[verifier::external_body]
fn jwt_decode(token: &str, secret: &str) -> Option<(String, u64, u64)> {
    let mut validation = jsonwebtoken::Validation::default();
    validation.leeway = 0;
    let data = jsonwebtoken::decode::<serde_json::Value>(
        token,
        &jsonwebtoken::DecodingKey::from_secret(secret.as_bytes()),
        &validation,
    ).ok()?;
    let sub = data.claims.get("sub")?.as_str()?.to_owned();
    let exp = data.claims.get("exp")?.as_u64()?;
    let iat = data.claims.get("iat")?.as_u64()?;
    Some((sub, exp, iat))
}

/// Whether a string is a UUID, and its canonical hyphenated form; both
/// are functions of the string alone.
pub uninterp spec fn spec_uuid_parse(s: Seq<char>) -> Option<Seq<char>>;

/// Relies on uuid::Uuid::parse_str and the hyphenated rendering of a
/// UUID: acceptance and the canonical 36-character form depend on the
/// string alone.
#[verifier::external_body]
pub(crate) fn parse_uuid(s: &str) -> (r: Option<String>)
    ensures
        r matches Some(c) ==> spec_uuid_parse(s@) matches Some(v) && c@ == v && v.len() == 36,
        r is None ==> spec_uuid_parse(s@) is None,
{
    uuid::Uuid::parse_str(s).ok().map(|u| u.to_string())
}

/// Issue a token for a user: subject `user_uuid`, issued at `now`, valid
/// for a day, signed with the secret. Issuance always succeeds.
pub fn generate_token(user_uuid: &str, now: u64, secret: &str) -> (r: Option<String>)
    requires
        now <= u64::MAX - TOKEN_VALIDITY,
    ensures
        r matches Some(t) && t@ == jwt_of(user_uuid@, (now + TOKEN_VALIDITY) as u64, now, secret@),
{
    let c = claims_for(user_uuid, now);
    jwt_encode(c.sub.as_str(), c.exp, c.iat, secret)
}

/// The subject of decoded claims, read as a UUID: absent claims or a
/// subject that is no UUID yield nothing; otherwise the canonical form.
pub fn subject_uuid(decoded: Option<(String, u64, u64)>) -> (r: Option<String>)
    ensures
        match decoded {
            None => r is None,
            Some(claims) => match spec_uuid_parse(claims.0@) {
                Some(v) => r matches Some(u) && u@ == v && u@.len() == 36,
                None => r is None,
            },
        },
{
    match decoded {
        None => None,
        Some((sub, _, _)) => parse_uuid(sub.as_str()),
    }
}

/// Verify a token against the secret and read its subject as a UUID.
/// Verification itself is the token library's work; whatever it decides,
/// a caller only ever sees a canonical UUID.
pub fn validate_token(token: &str, secret: &str) -> (r: Option<String>)
    ensures
        r matches Some(u) ==> u@.len() == 36,
{
    subject_uuid(jwt_decode(token, secret))
}

/// Why the guard turned a request away.
pub enum AuthFailure {
    /// No Authorization header at all.
    MissingHeader,
    /// An Authorization header that is no bearer token.
    BadFormat,
    /// A token that did not verify: bad signature, expired, or a subject
    /// that is no UUID.
    BadToken,
    /// A verified token whose subject is no known user; answered with the
    /// same words as a bad token, so accounts cannot be enumerated.
    UserNotFound,
    /// The user store could not be asked.
    Backend,
}

/// The reply each guard failure maps to.
pub open spec fn spec_auth_failure_response(status: u16, body: Seq<char>, f: AuthFailure) -> bool {
    match f {
        AuthFailure::MissingHeader => status == 401 && body == "Missing authorization header"@,
        AuthFailure::BadFormat => status == 401 && body == "Invalid authorization header format"@,
        AuthFailure::BadToken => status == 401 && body == "Invalid or expired token"@,
        AuthFailure::UserNotFound => status == 401 && body == "Invalid or expired token"@,
        AuthFailure::Backend => status == 500 && body == "Internal server error"@,
    }
}

/// The status and body a turned-away request is answered with: every
/// failure of the token itself is a 401, a missing user collapses to the
/// bad-token words (no account enumeration), and only a failing user
/// store is a 500.
pub fn auth_failure_response(f: &AuthFailure) -> (r: (u16, String))
    ensures
        spec_auth_failure_response(r.0, r.1@, *f),
{
    match f {
        AuthFailure::MissingHeader => (401, "Missing authorization header".to_owned()),
        AuthFailure::BadFormat => (401, "Invalid authorization header format".to_owned()),
        AuthFailure::BadToken => (401, "Invalid or expired token".to_owned()),
        AuthFailure::UserNotFound => (401, "Invalid or expired token".to_owned()),
        AuthFailure::Backend => (500, "Internal server error".to_owned()),
    }
}

/// Read the token out of the Authorization header: a missing header and
/// one that does not start with `Bearer ` are turned away, anything after
/// that prefix is the token.
pub fn parse_bearer(header: Option<&str>) -> (r: Result<String, AuthFailure>)
    ensures
        match header {
            None => r matches Err(AuthFailure::MissingHeader),
            Some(h) => {
                if spec_starts_with(h@, "Bearer "@) {
                    r matches Ok(t) && t@ == h@.skip(7)
                } else {
                    r matches Err(AuthFailure::BadFormat)
                }
            },
        },
{
    match header {
        None => Err(AuthFailure::MissingHeader),
        Some(h) => {
            if str_starts_with(h, "Bearer ") {
                proof {
                    reveal_strlit("Bearer ");
                }
                let n: usize = h.unicode_len();
                let t = h.substring_char(7, n);
                proof {
                    assert(t@ =~= h@.skip(7));
                }
                Ok(t.to_owned())
            } else {
                Err(AuthFailure::BadFormat)
            }
        },
    }
}

/// How the user store answered the lookup of a verified subject.
pub enum UserLookup {
    /// The user exists.
    Found,
    /// No user has this UUID.
    NotFound,
    /// The store could not be asked.
    Backend,
}

/// The guard's verdict once the token was checked and, if it held, the
/// user was looked up: a request passes exactly when the token verified
/// and its subject is a known user.
pub fn authorize(subject: Option<String>, lookup: UserLookup) -> (r: Result<String, AuthFailure>)
    ensures
        match subject {
            None => r matches Err(AuthFailure::BadToken),
            Some(u) => match lookup {
                UserLookup::Found => r matches Ok(a) && a@ == u@,
                UserLookup::NotFound => r matches Err(AuthFailure::UserNotFound),
                UserLookup::Backend => r matches Err(AuthFailure::Backend),
            },
        },
{
    match subject {
        None => Err(AuthFailure::BadToken),
        Some(u) => match lookup {
            UserLookup::Found => Ok(u),
            UserLookup::NotFound => Err(AuthFailure::UserNotFound),
            UserLookup::Backend => Err(AuthFailure::Backend),
        },
    }
}

} // verus!
