use auth_service::data_store::{
    BannedTokenStore, BannedTokenStoreError, TwoFaCodeStore, TwoFaCodeStoreError, UserStore,
    UserStoreError,
};
use auth_service::domain::{Email, LoginAttemptId, Password, TwoFACode, User};
use auth_service::hashing::{compute_password_hash, verify_password_hash, PasswordHashError};
use auth_service::hashmap_two_fa_code_store::HashMapTwoFACodeStore;
use auth_service::hashmap_user_store::HashmapUserStore;
use auth_service::hashset_banned_token_store::HashsetBannedTokenStore;
use auth_service::redis_banned_token_stores;
use auth_service::redis_two_fa_code_store::{self, decode_code_entry, encode_code_entry};

fn create_test_user(email: &str, password: &str) -> User {
    let email = Email::parse(email.to_string()).expect("Valid email");
    let password = Password::parse(password.to_string()).expect("Valid password");
    let hash = compute_password_hash(&password).expect("hash");
    User::new(email, hash, true)
}

#[test]
fn test_add_user() {
    let test_user = create_test_user("test@mail.com", "password123");
    let mut user_store = HashmapUserStore::new();

    let result = user_store.add_user(test_user.clone());
    assert!(result.is_ok());

    let result_duplicate = user_store.add_user(test_user);
    assert_eq!(result_duplicate, Err(UserStoreError::UserAlreadyExists));
}

#[test]
fn test_get_user() {
    let email = Email::parse("test@mail.com".to_string()).expect("Valid email");
    let test_user = create_test_user("test@mail.com", "password123");
    let mut user_store = HashmapUserStore::new();

    user_store.add_user(test_user.clone()).unwrap();

    let result = user_store.get_user(&email);
    assert!(result.expect("User should exist") == test_user);

    let email_two = Email::parse("test2@mail.com".to_string()).expect("Valid email");
    let result_not_found = user_store.get_user(&email_two);
    assert!(matches!(result_not_found, Err(UserStoreError::UserNotFound)));
}

#[test]
fn test_validate_user() {
    let email = Email::parse("test@mail.com".to_string()).expect("Valid email");
    let password = Password::parse("password123".to_string()).expect("Valid password");
    let wrong_password = Password::parse("wrongpassword123".to_string()).expect("Valid password");

    let test_user = create_test_user("test@mail.com", "password123");
    let mut user_store = HashmapUserStore::new();

    user_store.add_user(test_user.clone()).unwrap();

    let result = user_store.validate_user(&email, &password);
    assert!(result.is_ok());

    let result_invalid = user_store.validate_user(&email, &wrong_password);
    assert_eq!(result_invalid, Err(UserStoreError::InvalidCredentials));

    let nonexistent_email = Email::parse("nonexistent@mail.com".to_string()).expect("Valid email");
    let result_not_found = user_store.validate_user(&nonexistent_email, &password);
    assert_eq!(result_not_found, Err(UserStoreError::UserNotFound));
}

#[test]
fn password_hash_is_not_the_password_and_verifies() {
    let password = Password::parse("password123".to_string()).unwrap();
    let hash = compute_password_hash(&password).unwrap();
    assert_ne!(hash, "password123");
    assert!(hash.starts_with("$argon2id$v=19$m=15000,t=2,p=1$"));
    assert_eq!(verify_password_hash(&hash, &password), Ok(()));
    let other = Password::parse("password124".to_string()).unwrap();
    assert_eq!(
        verify_password_hash(&hash, &other),
        Err(PasswordHashError::Mismatch)
    );
    assert_eq!(
        verify_password_hash("not a hash", &password),
        Err(PasswordHashError::Mismatch)
    );
}

#[test]
fn hash_with_foreign_parameters_accepts_nothing() {
    let password = Password::parse("password123".to_string()).unwrap();
    let hash = compute_password_hash(&password).unwrap();
    let huge_lanes = hash.replacen("m=15000,t=2,p=1", "m=8,t=1,p=536870912", 1);
    assert_eq!(
        verify_password_hash(&huge_lanes, &password),
        Err(PasswordHashError::Mismatch)
    );
    let cheaper = hash.replacen("t=2", "t=1", 1);
    assert_eq!(
        verify_password_hash(&cheaper, &password),
        Err(PasswordHashError::Mismatch)
    );
}

#[test]
fn two_hashes_of_one_password_differ_by_salt() {
    let password = Password::parse("password123".to_string()).unwrap();
    let a = compute_password_hash(&password).unwrap();
    let b = compute_password_hash(&password).unwrap();
    assert_ne!(a, b);
}

#[test]
fn banned_token_store_records_tokens() {
    let mut store = HashsetBannedTokenStore::new();
    assert_eq!(
        store.check_token("abc"),
        Err(BannedTokenStoreError::TokenNotPresent)
    );
    assert_eq!(store.store_token("abc".to_string()), Ok(()));
    assert_eq!(store.check_token("abc"), Ok(()));
    assert_eq!(
        store.check_token("abd"),
        Err(BannedTokenStoreError::TokenNotPresent)
    );
    assert_eq!(
        store.store_token("abc".to_string()),
        Err(BannedTokenStoreError::TokenAlreadyBanned)
    );
}

#[test]
fn code_store_holds_one_challenge_per_address() {
    let mut store = HashMapTwoFACodeStore::new();
    let email = Email::parse("test@example.com".to_string()).unwrap();
    let other = Email::parse("other@example.com".to_string()).unwrap();
    let id = LoginAttemptId::parse("550e8400-e29b-41d4-a716-446655440000".to_string()).unwrap();
    let code = TwoFACode::parse("123456".to_string()).unwrap();

    assert!(matches!(
        store.get_code(&email),
        Err(TwoFaCodeStoreError::CodeNotFound)
    ));
    assert_eq!(store.add_code(&email, id.clone(), code.clone()), Ok(()));
    assert_eq!(
        store.add_code(&email, LoginAttemptId::default(), TwoFACode::default()),
        Err(TwoFaCodeStoreError::UserHasCode)
    );
    assert_eq!(
        store.add_code(&other, LoginAttemptId::default(), TwoFACode::default()),
        Ok(())
    );
    let (got_id, got_code) = store.get_code(&email).unwrap();
    assert!(got_id == id);
    assert!(got_code == code);

    assert_eq!(store.remove_code(&email), Ok(()));
    assert!(matches!(
        store.get_code(&email),
        Err(TwoFaCodeStoreError::CodeNotFound)
    ));
    assert!(store.get_code(&other).is_ok());
    assert_eq!(store.remove_code(&email), Ok(()));
}

#[test]
fn cache_keys_carry_their_namespace() {
    assert_eq!(
        redis_banned_token_stores::get_key("abc.def"),
        "banned_token:abc.def"
    );
    let email = Email::parse("u1@example.com".to_string()).unwrap();
    assert_eq!(
        redis_two_fa_code_store::get_key(&email),
        "two_fa_code:u1@example.com"
    );
}

#[test]
fn code_entry_is_a_json_pair_and_reads_back() {
    let id = LoginAttemptId::parse("550e8400-e29b-41d4-a716-446655440000".to_string()).unwrap();
    let code = TwoFACode::parse("123456".to_string()).unwrap();
    let value = encode_code_entry(&id, &code).unwrap();
    assert_eq!(value, r#"["550e8400-e29b-41d4-a716-446655440000","123456"]"#);
    let (id2, code2) = decode_code_entry(&value).unwrap();
    assert!(id2 == id);
    assert!(code2 == code);
}

#[test]
fn code_entry_that_is_not_a_challenge_is_unexpected() {
    assert_eq!(
        decode_code_entry("not json").err(),
        Some(TwoFaCodeStoreError::UnexpectedError)
    );
    assert_eq!(
        decode_code_entry(r#"["invalid-uuid","123456"]"#).err(),
        Some(TwoFaCodeStoreError::UnexpectedError)
    );
    assert_eq!(
        decode_code_entry(r#"["550e8400-e29b-41d4-a716-446655440000","123"]"#).err(),
        Some(TwoFaCodeStoreError::UnexpectedError)
    );
}
