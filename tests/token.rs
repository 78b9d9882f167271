use auth_service::data_store::BannedTokenStore;
use auth_service::domain::Email;
use auth_service::hashset_banned_token_store::HashsetBannedTokenStore;
use auth_service::token::{
    check_claims, check_token_signature, decode_token, encode_token, issue_token, remaining_lifetime, validate_token, TokenError,
    JWT_COOKIE_NAME, MAX_EXPIRY, TOKEN_TTL_SECONDS,
};

const KEY: &[u8] = b"a server key for the tests";
const NOW: u64 = 1_700_000_000;

fn email(s: &str) -> Email {
    Email::parse(s.to_string()).unwrap()
}

#[test]
fn token_layout_is_expiry_signature_email() {
    let token = issue_token(KEY, &email("a.b@example.com"), NOW).unwrap();
    let parts: Vec<&str> = token.splitn(3, '.').collect();
    assert_eq!(parts[0], "1700000600");
    assert_eq!(parts[1].len(), 64);
    assert!(parts[1].chars().all(|c| c.is_ascii_hexdigit() && !c.is_ascii_uppercase()));
    assert_eq!(parts[2], "a.b@example.com");
    assert_eq!(TOKEN_TTL_SECONDS, 600);
    assert_eq!(JWT_COOKIE_NAME, "jwt");
}

#[test]
fn issued_token_is_deterministic_and_keyed() {
    let a = issue_token(KEY, &email("u@example.com"), NOW).unwrap();
    let b = issue_token(KEY, &email("u@example.com"), NOW).unwrap();
    let c = issue_token(b"another key", &email("u@example.com"), NOW).unwrap();
    assert_eq!(a, b);
    assert_ne!(a, c);
}

#[test]
fn issued_token_checks_until_expiry() {
    let token = issue_token(KEY, &email("u@example.com"), NOW).unwrap();
    let e = check_token_signature(KEY, &token, NOW + 599).unwrap();
    assert_eq!(e.as_str(), "u@example.com");
    assert_eq!(
        check_token_signature(KEY, &token, NOW + 600).err(),
        Some(TokenError::Expired)
    );
    assert_eq!(
        check_token_signature(b"another key", &token, NOW).err(),
        Some(TokenError::Malformed)
    );
}

#[test]
fn tampered_token_is_malformed() {
    let token = issue_token(KEY, &email("u@example.com"), NOW).unwrap();
    let later = token.replacen("1700000600", "1700009999", 1);
    assert_eq!(
        check_token_signature(KEY, &later, NOW).err(),
        Some(TokenError::Malformed)
    );
    let other = token.replace("u@example.com", "v@example.com");
    assert_eq!(
        check_token_signature(KEY, &other, NOW).err(),
        Some(TokenError::Malformed)
    );
    for bad in ["", "invalid", "1.2", "x.ab.u@example.com", ".ab.u@example.com", "12.ab.nobody"] {
        assert_eq!(decode_token(bad).err(), Some(TokenError::Malformed), "{:?}", bad);
    }
}

#[test]
fn decode_token_reads_the_fields() {
    let claims = decode_token("0042.beef.u@x.org").unwrap();
    assert_eq!(claims.expiry, 42);
    assert_eq!(claims.signature, "beef");
    assert_eq!(claims.email.as_str(), "u@x.org");
    assert_eq!(claims.payload, "0042.u@x.org");
}

#[test]
fn check_claims_compares_hex_then_expiry() {
    let claims = || decode_token("100.00ff10.u@x.org").unwrap();
    assert_eq!(check_claims(claims(), &[0x00, 0xff, 0x10], 99).unwrap().as_str(), "u@x.org");
    assert_eq!(check_claims(claims(), &[0x00, 0xff, 0x10], 100).err(), Some(TokenError::Expired));
    assert_eq!(check_claims(claims(), &[0x00, 0xff, 0x11], 99).err(), Some(TokenError::Malformed));
}

#[test]
fn expiry_beyond_limit_is_refused() {
    assert_eq!(
        issue_token(KEY, &email("u@example.com"), MAX_EXPIRY - TOKEN_TTL_SECONDS).err(),
        Some(TokenError::Unexpected)
    );
    let text = format!("{}.00.u@x.org", MAX_EXPIRY);
    assert_eq!(decode_token(&text).err(), Some(TokenError::Malformed));
}

#[test]
fn revoked_token_is_refused() {
    let token = issue_token(KEY, &email("u@example.com"), NOW).unwrap();
    let mut banned = HashsetBannedTokenStore::new();
    assert!(validate_token(KEY, &token, NOW, &banned).is_ok());
    banned.store_token(token.clone()).unwrap();
    assert_eq!(
        validate_token(KEY, &token, NOW, &banned).err(),
        Some(TokenError::Revoked)
    );
}

#[test]
fn encode_token_writes_expiry_hex_and_address() {
    assert_eq!(
        encode_token(42, &[0x00, 0xab, 0x7f], &email("u@x.org")),
        "42.00ab7f.u@x.org"
    );
    assert_eq!(encode_token(0, &[], &email("u@x.org")), "0..u@x.org");
}

#[test]
fn revocation_is_kept_until_expiry() {
    let token = issue_token(KEY, &email("u@example.com"), NOW).unwrap();
    assert_eq!(remaining_lifetime(&token, NOW + 100), 500);
    assert_eq!(remaining_lifetime(&token, NOW + 600), TOKEN_TTL_SECONDS);
    assert_eq!(remaining_lifetime("garbage", NOW), TOKEN_TTL_SECONDS);
}
