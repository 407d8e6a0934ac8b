use argon2::password_hash::{PasswordHash, PasswordHasher, SaltString};
use argon2::{Algorithm, Argon2, Params, Version};
use base64::engine::general_purpose;
use base64::Engine;
use trade_api::credentials::{basic_authentication, split_at_first_colon, strip_basic_prefix, Credentials};
use trade_api::errors::{error_chain_fmt, UserError, AUTH_FAILED_MESSAGE, WWW_AUTHENTICATE_CHALLENGE};
use trade_api::password::{verify_password_hash, FALLBACK_PASSWORD_HASH};
use trade_api::validation::{
    begin_verification, finish_verification, validate_credentials, StoredCredential,
};
use uuid::Uuid;

fn phc_for(password: &str, m: u32, t: u32, p: u32) -> String {
    let salt = SaltString::from_b64("c29tZXNhbHRzb21lc2FsdA").unwrap();
    let params = Params::new(m, t, p, None).unwrap();
    Argon2::new(Algorithm::Argon2id, Version::V0x13, params)
        .hash_password(password.as_bytes(), &salt)
        .unwrap()
        .to_string()
}

fn header_for(text: &str) -> String {
    format!("Basic {}", general_purpose::STANDARD.encode(text))
}

fn creds(username: &str, password: &str) -> Credentials {
    Credentials::new(username.to_string(), password.to_string())
}

#[test]
fn parses_user_and_password() {
    let c = basic_authentication(Some("Basic dXNlcjpwYXNz")).unwrap();
    assert_eq!(c.username(), "user");
    assert_eq!(c.expose_password(), "pass");
}

#[test]
fn only_first_colon_splits() {
    let h = header_for("alice:pa:ss:word");
    let c = basic_authentication(Some(h.as_str())).unwrap();
    assert_eq!(c.username(), "alice");
    assert_eq!(c.expose_password(), "pa:ss:word");
}

#[test]
fn empty_username_and_password_are_kept() {
    let h = header_for(":");
    let c = basic_authentication(Some(h.as_str())).unwrap();
    assert_eq!(c.username(), "");
    assert_eq!(c.expose_password(), "");
}

#[test]
fn non_ascii_credentials_parse() {
    let h = header_for("jos\u{e9}:p\u{e4}ss");
    let c = basic_authentication(Some(h.as_str())).unwrap();
    assert_eq!(c.username(), "jos\u{e9}");
    assert_eq!(c.expose_password(), "p\u{e4}ss");
}

#[test]
fn bearer_scheme_is_a_validation_error() {
    let e = basic_authentication(Some("Bearer xyz")).err().unwrap();
    assert!(matches!(e, UserError::ValidationError(_)));
    assert_eq!(e.status_code(), 400);
    assert_eq!(e.www_authenticate(), None);
}

#[test]
fn scheme_prefix_is_case_sensitive() {
    let e = basic_authentication(Some("basic dXNlcjpwYXNz")).err().unwrap();
    assert!(matches!(e, UserError::ValidationError(_)));
}

#[test]
fn missing_header_is_refused() {
    let e = basic_authentication(None).err().unwrap();
    assert!(matches!(e, UserError::ValidationError(_)));
}

#[test]
fn invalid_base64_is_refused() {
    let e = basic_authentication(Some("Basic !!!not-base64")).err().unwrap();
    assert!(matches!(e, UserError::ValidationError(_)));
}

#[test]
fn decoded_text_without_colon_is_refused() {
    let h = header_for("userpass");
    let e = basic_authentication(Some(h.as_str())).err().unwrap();
    assert!(matches!(e, UserError::ValidationError(_)));
}

#[test]
fn decoded_bytes_not_utf8_are_refused() {
    let h = format!("Basic {}", general_purpose::STANDARD.encode([0xffu8, 0xfe, b':', b'a']));
    let e = basic_authentication(Some(h.as_str())).err().unwrap();
    assert!(matches!(e, UserError::ValidationError(_)));
}

#[test]
fn prefix_strip_and_colon_split() {
    assert_eq!(strip_basic_prefix("Basic abc"), Some("abc"));
    assert_eq!(strip_basic_prefix("Basi"), None);
    assert_eq!(strip_basic_prefix("Basic "), Some(""));
    assert_eq!(split_at_first_colon("a:b:c"), Some(("a".to_string(), "b:c".to_string())));
    assert_eq!(split_at_first_colon("abc"), None);
}

#[test]
fn matching_password_is_accepted() {
    let phc = phc_for("pass", 256, 1, 1);
    assert!(verify_password_hash(&phc, "pass").is_ok());
}

#[test]
fn other_password_is_refused() {
    let phc = phc_for("pass", 256, 1, 1);
    let e = verify_password_hash(&phc, "pasS").err().unwrap();
    assert!(matches!(e, UserError::AuthError(_)));
    assert_eq!(e.status_code(), 401);
}

#[test]
fn malformed_record_is_unexpected() {
    let e = verify_password_hash("asdjflsajflsfls", "pass").err().unwrap();
    assert!(matches!(e, UserError::UnexpectedError(_)));
    assert_eq!(e.status_code(), 500);
}

#[test]
fn verification_repeats_alike() {
    let phc = phc_for("pass", 256, 1, 1);
    for _ in 0..3 {
        assert!(verify_password_hash(&phc, "pass").is_ok());
        assert!(matches!(verify_password_hash(&phc, "nope"), Err(UserError::AuthError(_))));
    }
}

#[test]
fn hash_parameters_round_trip() {
    let phc = phc_for("secret", 512, 3, 2);
    let parsed = PasswordHash::new(&phc).unwrap();
    let params = Params::try_from(&parsed).unwrap();
    assert_eq!((params.m_cost(), params.t_cost(), params.p_cost()), (512, 3, 2));
    assert!(verify_password_hash(&phc, "secret").is_ok());
}

#[test]
fn fallback_record_is_well_formed() {
    assert!(PasswordHash::new(FALLBACK_PASSWORD_HASH).is_ok());
    let e = verify_password_hash(FALLBACK_PASSWORD_HASH, "pass").err().unwrap();
    assert!(matches!(e, UserError::AuthError(_)));
}

#[test]
fn known_user_with_matching_password_is_verified() {
    let id = Uuid::from_u128(0x1234);
    let stored = StoredCredential { user_id: id, password_hash: phc_for("pass", 256, 1, 1) };
    let c = basic_authentication(Some("Basic dXNlcjpwYXNz")).unwrap();
    assert_eq!(validate_credentials(c, Ok(Some(stored))).unwrap(), id);
}

#[test]
fn unknown_user_is_an_authentication_failure() {
    let c = basic_authentication(Some("Basic dXNlcjpwYXNz")).unwrap();
    let e = validate_credentials(c, Ok(None)).err().unwrap();
    assert!(matches!(e, UserError::AuthError(_)));
    assert_eq!(e.status_code(), 401);
    assert_eq!(e.www_authenticate(), Some("Basic realm=\"user\""));
    assert_eq!(e.message(), "Authentication failed.");
}

#[test]
fn wrong_password_answers_like_unknown_user() {
    let stored = StoredCredential {
        user_id: Uuid::from_u128(7),
        password_hash: phc_for("right", 256, 1, 1),
    };
    let wrong = validate_credentials(creds("user", "wrong"), Ok(Some(stored))).err().unwrap();
    let unknown = validate_credentials(creds("nobody", "wrong"), Ok(None)).err().unwrap();
    assert_eq!(wrong.status_code(), unknown.status_code());
    assert_eq!(wrong.message(), unknown.message());
    assert_eq!(wrong.www_authenticate(), unknown.www_authenticate());
}

#[test]
fn unknown_user_is_checked_against_fallback() {
    let p = begin_verification(creds("nobody", "pw"), Ok(None)).ok().unwrap();
    assert_eq!(p.user_id(), None);
    assert_eq!(p.expected_password_hash(), FALLBACK_PASSWORD_HASH);
    let outcome = p.run();
    assert!(matches!(outcome, Err(UserError::AuthError(_))));
}

#[test]
fn store_failure_is_unexpected() {
    let e = validate_credentials(creds("user", "hunter2"), Err("connection refused".to_string()))
        .err()
        .unwrap();
    assert!(matches!(e, UserError::UnexpectedError(_)));
    assert_eq!(e.status_code(), 500);
    assert!(!e.fmt().contains("hunter2"));
}

#[test]
fn offload_failure_is_unexpected() {
    let e = finish_verification(Some(Uuid::from_u128(1)), None).err().unwrap();
    assert!(matches!(e, UserError::UnexpectedError(_)));
    let ok = finish_verification(Some(Uuid::from_u128(1)), Some(Ok(()))).unwrap();
    assert_eq!(ok, Uuid::from_u128(1));
    let miss = finish_verification(None, Some(Ok(()))).err().unwrap();
    assert!(matches!(miss, UserError::AuthError(_)));
}

#[test]
fn error_chain_report() {
    let chain = vec!["top".to_string(), "middle".to_string(), "root".to_string()];
    assert_eq!(error_chain_fmt(&chain), "top\n\nCaused by:\n\tmiddle\nCaused by:\n\troot\n");
    assert_eq!(error_chain_fmt(&vec!["only".to_string()]), "only\n\n");
    assert_eq!(error_chain_fmt(&vec![]), "");
}

#[test]
fn auth_error_report_and_constants() {
    let e = UserError::AuthError("Unknown username.".to_string());
    assert_eq!(e.fmt(), "Authentication failed.\n\nCaused by:\n\tUnknown username.\n");
    assert_eq!(AUTH_FAILED_MESSAGE, "Authentication failed.");
    assert_eq!(WWW_AUTHENTICATE_CHALLENGE, "Basic realm=\"user\"");
    let v = UserError::ValidationError("bad".to_string());
    assert_eq!(v.message(), "bad");
    assert_eq!(v.chain(), vec!["bad".to_string()]);
}
