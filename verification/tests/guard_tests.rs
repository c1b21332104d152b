use invok::guard::{
    auth_failure_response, authorize, claims_for, generate_token, parse_bearer, validate_token,
    AuthFailure, UserLookup, TOKEN_VALIDITY,
};
use invok::surface::parse_namespace;
use std::time::{SystemTime, UNIX_EPOCH};

const SECRET: &str = "unit-test-secret";
const USER: &str = "123e4567-e89b-12d3-a456-426614174000";

fn now() -> u64 {
    SystemTime::now().duration_since(UNIX_EPOCH).unwrap().as_secs()
}

#[test]
fn missing_header_is_401() {
    match parse_bearer(None) {
        Err(f) => {
            assert!(matches!(f, AuthFailure::MissingHeader));
            let (status, body) = auth_failure_response(&f);
            assert_eq!(status, 401);
            assert_eq!(body, "Missing authorization header");
        }
        Ok(_) => panic!("no header must not pass"),
    }
}

#[test]
fn non_bearer_header_is_401() {
    match parse_bearer(Some("Basic dXNlcjpwdw==")) {
        Err(f) => {
            assert!(matches!(f, AuthFailure::BadFormat));
            let (status, body) = auth_failure_response(&f);
            assert_eq!(status, 401);
            assert_eq!(body, "Invalid authorization header format");
        }
        Ok(_) => panic!("a non-bearer header must not pass"),
    }
}

#[test]
fn bearer_header_yields_the_token() {
    assert_eq!(parse_bearer(Some("Bearer abc.def.ghi")).ok(), Some(String::from("abc.def.ghi")));
}

#[test]
fn token_round_trip() {
    let token = generate_token(USER, now(), SECRET).expect("signing succeeds");
    // the token is a signed envelope, not the subject handed back
    assert_ne!(token, USER);
    assert_eq!(validate_token(&token, SECRET), Some(String::from(USER)));
}

#[test]
fn wrong_secret_is_rejected() {
    let token = generate_token(USER, now(), SECRET).expect("signing succeeds");
    assert_eq!(validate_token(&token, "another-secret"), None);
}

#[test]
fn expired_token_is_rejected_and_answered_401() {
    // issued so long ago that its expiry lies one second in the past
    let issued = now() - TOKEN_VALIDITY - 1;
    let token = generate_token(USER, issued, SECRET).expect("signing succeeds");
    let subject = validate_token(&token, SECRET);
    assert_eq!(subject, None);
    match authorize(subject, UserLookup::Found) {
        Err(f) => {
            let (status, body) = auth_failure_response(&f);
            assert_eq!(status, 401);
            assert_eq!(body, "Invalid or expired token");
        }
        Ok(_) => panic!("an expired token must not pass"),
    }
}

#[test]
fn claims_carry_subject_and_validity() {
    let c = claims_for(USER, 1000);
    assert_eq!(c.sub, USER);
    assert_eq!(c.iat, 1000);
    assert_eq!(c.exp, 1000 + TOKEN_VALIDITY);
}

#[test]
fn unknown_user_and_backend_failure() {
    let subject = Some(String::from(USER));
    match authorize(subject.clone(), UserLookup::NotFound) {
        Err(f) => {
            let (status, body) = auth_failure_response(&f);
            assert_eq!(status, 401);
            // a missing user reads the same as a bad token: no enumeration
            assert_eq!(body, "Invalid or expired token");
        }
        Ok(_) => panic!("an unknown user must not pass"),
    }
    match authorize(subject.clone(), UserLookup::Backend) {
        Err(f) => {
            let (status, body) = auth_failure_response(&f);
            assert_eq!(status, 500);
            assert_eq!(body, "Internal server error");
        }
        Ok(_) => panic!("a failing store must not pass"),
    }
    assert_eq!(authorize(subject, UserLookup::Found).ok(), Some(String::from(USER)));
}

#[test]
fn namespace_parsing_is_canonical() {
    assert_eq!(parse_namespace(USER), Some(String::from(USER)));
    // the simple form canonicalizes to the hyphenated one
    assert_eq!(
        parse_namespace("123e4567e89b12d3a456426614174000"),
        Some(String::from(USER))
    );
    assert_eq!(parse_namespace("not-a-uuid"), None);
}
