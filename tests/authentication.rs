use argon2::password_hash::rand_core::OsRng;
use argon2::password_hash::SaltString;
use argon2::{Argon2, PasswordHasher};
use base64::prelude::BASE64_STANDARD;
use base64::Engine;
use zero2prod::authentication::{
    compute_password_hash, credentials_outcome, dummy_password_hash, hash_to_check,
};
use zero2prod::{
    parse_basic_credentials, validate_credentials, verify_password_hash, AuthError,
    BasicAuthError,
};

fn header_for(text: &str) -> String {
    format!("Basic {}", BASE64_STANDARD.encode(text))
}

fn hash_of(password: &str) -> String {
    let salt = SaltString::generate(&mut OsRng);
    Argon2::default()
        .hash_password(password.as_bytes(), &salt)
        .unwrap()
        .to_string()
}

#[test]
fn basic_credentials_are_split_at_the_first_colon() {
    let c = parse_basic_credentials(&header_for("admin:pa:ss")).ok().unwrap();
    assert_eq!(c.username, "admin");
    assert_eq!(c.password, "pa:ss");
}

#[test]
fn basic_credentials_may_be_empty_on_either_side() {
    let c = parse_basic_credentials(&header_for(":")).ok().unwrap();
    assert_eq!(c.username, "");
    assert_eq!(c.password, "");
}

#[test]
fn a_scheme_other_than_basic_is_rejected() {
    let r = parse_basic_credentials("Bearer abc");
    assert!(matches!(r, Err(BasicAuthError::NotBasicScheme)));
    let r = parse_basic_credentials("basic YTpi");
    assert!(matches!(r, Err(BasicAuthError::NotBasicScheme)));
}

#[test]
fn invalid_base64_is_rejected() {
    let r = parse_basic_credentials("Basic ***");
    assert!(matches!(r, Err(BasicAuthError::InvalidBase64)));
}

#[test]
fn credentials_that_are_not_utf8_are_rejected() {
    let header = format!("Basic {}", BASE64_STANDARD.encode([0xffu8, 0xfe, b':']));
    let r = parse_basic_credentials(&header);
    assert!(matches!(r, Err(BasicAuthError::InvalidUtf8)));
}

#[test]
fn credentials_without_a_password_are_rejected() {
    let r = parse_basic_credentials(&header_for("admin"));
    assert!(matches!(r, Err(BasicAuthError::MissingPassword)));
    assert_eq!(
        BasicAuthError::MissingPassword.message(),
        "A password must be provided in 'Basic' auth."
    );
}

#[test]
fn the_right_password_is_accepted() {
    let stored = Some((7u32, hash_of("everything-is-fine")));
    let r = validate_credentials(stored, "everything-is-fine");
    assert!(matches!(r, Ok(7)));
}

#[test]
fn a_wrong_password_is_invalid_credentials() {
    let stored = Some((7u32, hash_of("everything-is-fine")));
    let r = validate_credentials(stored, "something-else");
    assert!(matches!(r, Err(AuthError::InvalidCredentials(_))));
}

#[test]
fn an_unknown_username_is_invalid_credentials() {
    let r = validate_credentials::<u32>(None, "everything-is-fine");
    assert!(matches!(r, Err(AuthError::InvalidCredentials(_))));
}

#[test]
fn a_malformed_stored_hash_is_an_unexpected_error() {
    let stored = Some((7u32, "not a phc string".to_string()));
    let r = validate_credentials(stored, "everything-is-fine");
    match r {
        Err(AuthError::UnexpectedError(m)) => {
            assert_eq!(m, "Failed to parse hash in PHC string format.")
        }
        _ => panic!("expected an unexpected error"),
    }
}

#[test]
fn the_dummy_hash_is_well_formed() {
    let r = verify_password_hash(dummy_password_hash(), "anything");
    match r {
        Err(AuthError::InvalidCredentials(m)) => assert_eq!(m, "Invalid password."),
        _ => panic!("expected invalid credentials"),
    }
}

#[test]
fn the_stored_hash_is_checked_when_there_is_one() {
    let stored = Some((1u8, "$argon2id$stored".to_string()));
    assert_eq!(hash_to_check(&stored), "$argon2id$stored");
    assert_eq!(hash_to_check::<u8>(&None), dummy_password_hash());
}

#[test]
fn an_unknown_user_with_a_matching_check_is_still_refused() {
    let r = credentials_outcome::<u8>(None, Ok(()));
    match r {
        Err(AuthError::InvalidCredentials(m)) => assert_eq!(m, "Unknown username."),
        _ => panic!("expected invalid credentials"),
    }
}

fn headers_with(value: &str) -> actix_web::http::header::HeaderMap {
    let mut headers = actix_web::http::header::HeaderMap::new();
    headers.insert(
        actix_web::http::header::AUTHORIZATION,
        actix_web::http::header::HeaderValue::from_str(value).unwrap(),
    );
    headers
}

#[test]
fn credentials_are_read_from_the_authorization_header() {
    let headers = headers_with(&header_for("admin:secret"));
    let c = zero2prod::basic_authentication(&headers).ok().unwrap();
    assert_eq!(c.username, "admin");
    assert_eq!(c.password, "secret");
}

#[test]
fn a_request_without_an_authorization_header_is_refused() {
    let headers = actix_web::http::header::HeaderMap::new();
    let r = zero2prod::basic_authentication(&headers);
    assert!(matches!(r, Err(BasicAuthError::MissingHeader)));
}

#[test]
fn an_authorization_header_that_is_not_text_is_refused() {
    let mut headers = actix_web::http::header::HeaderMap::new();
    headers.insert(
        actix_web::http::header::AUTHORIZATION,
        actix_web::http::header::HeaderValue::from_bytes(b"Basic \xff").unwrap(),
    );
    let r = zero2prod::basic_authentication(&headers);
    assert!(matches!(r, Err(BasicAuthError::HeaderNotText)));
}

#[test]
fn a_bearer_authorization_header_is_not_basic() {
    let headers = headers_with("Bearer abc");
    let r = zero2prod::basic_authentication(&headers);
    assert!(matches!(r, Err(BasicAuthError::NotBasicScheme)));
}

#[test]
fn after_a_change_the_new_password_is_accepted_and_the_old_refused() {
    let old_hash = compute_password_hash("the-old-password").ok().unwrap();
    assert!(matches!(validate_credentials(Some((3u8, old_hash)), "the-old-password"), Ok(3)));
    let new_hash = compute_password_hash("a-brand-new-password").ok().unwrap();
    assert!(new_hash.starts_with("$argon2id$v=19$m=15000,t=2,p=1$"));
    let accepted = validate_credentials(Some((3u8, new_hash.clone())), "a-brand-new-password");
    assert!(matches!(accepted, Ok(3)));
    let refused = validate_credentials(Some((3u8, new_hash)), "the-old-password");
    assert!(matches!(refused, Err(AuthError::InvalidCredentials(_))));
}

#[test]
fn two_hashes_of_one_password_use_fresh_salts() {
    let a = compute_password_hash("same-password-here").ok().unwrap();
    let b = compute_password_hash("same-password-here").ok().unwrap();
    assert_ne!(a, b);
}

#[test]
fn a_header_value_with_a_tab_is_still_text() {
    let headers = headers_with("Basic	YTpi");
    let r = zero2prod::basic_authentication(&headers);
    assert!(matches!(r, Err(BasicAuthError::NotBasicScheme)));
}

#[test]
fn a_stored_hash_with_an_oversized_parallelism_is_unexpected() {
    let stored = "$argon2id$v=19$m=15000,t=2,p=536870912$gZiV/M1gPc22ElAH/Jh1Hw$CWOrkoo7oJBQ/iyh7uJ0LO2aLEfrHwTWllSAxT0zRno";
    assert!(zero2prod::authentication::has_oversized_parallelism(stored));
    let r = validate_credentials(Some((1u8, stored.to_string())), "anything");
    assert!(matches!(r, Err(AuthError::UnexpectedError(_))));
}

#[test]
fn a_parallelism_just_below_the_limit_is_not_oversized() {
    assert!(!zero2prod::authentication::has_oversized_parallelism("$argon2id$v=19$m=15000,t=2,p=536870911$salt$hash"));
    assert!(!zero2prod::authentication::has_oversized_parallelism(dummy_password_hash()));
    assert!(zero2prod::authentication::has_oversized_parallelism("p=99999999999999999999"));
}
