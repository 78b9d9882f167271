use auth_service::data_store::{BannedTokenStore, TwoFaCodeStore};
use auth_service::domain::Email;
use auth_service::hashmap_two_fa_code_store::HashMapTwoFACodeStore;
use auth_service::hashmap_user_store::HashmapUserStore;
use auth_service::hashset_banned_token_store::HashsetBannedTokenStore;
use auth_service::routes::{
    login, logout, signup, verify_2fa, verify_token, AuthAPIError, LoginRequest, LoginResponse,
    SignupRequest, TokenRequest, Verify2FARequest,
};

const KEY: &[u8] = b"a server key for the tests";
const NOW: u64 = 1_700_000_000;

fn signup_request(email: &str, password: &str, requires_2fa: bool) -> SignupRequest {
    SignupRequest {
        email: email.to_string(),
        password: password.to_string(),
        requires_2fa,
    }
}

fn login_request(email: &str, password: &str) -> LoginRequest {
    LoginRequest {
        email: email.to_string(),
        password: password.to_string(),
        requires_2fa: false,
    }
}

/// Signs up and logs in without the two-factor step; returns the session token.
fn logged_in(users: &mut HashmapUserStore, codes: &mut HashMapTwoFACodeStore, email: &str) -> String {
    assert!(signup(users, signup_request(email, "password123", false)).is_ok());
    match login(users, codes, KEY, NOW, login_request(email, "password123")) {
        Ok((LoginResponse::RegularAuth(_), Some(token))) => token,
        _ => panic!("Login should succeed"),
    }
}

/// Signs up with the two-factor step and logs in; returns the login attempt id.
fn two_factor_pending(
    users: &mut HashmapUserStore,
    codes: &mut HashMapTwoFACodeStore,
    email: &str,
) -> String {
    assert!(signup(users, signup_request(email, "password123", true)).is_ok());
    match login(users, codes, KEY, NOW, login_request(email, "password123")) {
        Ok((LoginResponse::TwoFactorAuth(response), None)) => {
            assert_eq!(response.message, "2FA required");
            response.login_attempt_id.as_str().to_string()
        }
        _ => panic!("Login should start the two-factor step"),
    }
}

#[test]
fn signup_returns_created_message() {
    let mut users = HashmapUserStore::new();
    let response = signup(&mut users, signup_request("u1@example.com", "password123", false))
        .expect("Signup should succeed");
    assert_eq!(response.message, "User created successfully");
}

#[test]
fn signup_should_return_400_if_invalid_input() {
    let mut users = HashmapUserStore::new();
    let cases = [
        signup_request("", "correct_password", true),
        signup_request("testmail@mail.com", "not-pass", false),
    ];
    for case in cases {
        assert_eq!(
            signup(&mut users, case).err(),
            Some(AuthAPIError::InvalidCredentials)
        );
    }
}

#[test]
fn should_return_409_if_email_already_exists() {
    let mut users = HashmapUserStore::new();
    assert!(signup(&mut users, signup_request("testemail@mail.com", "correct_password", true)).is_ok());
    assert_eq!(
        signup(&mut users, signup_request("testemail@mail.com", "correct_password", true)).err(),
        Some(AuthAPIError::UserAlreadyExists)
    );
}

#[test]
fn should_return_401_if_incorrect_credentials() {
    let mut users = HashmapUserStore::new();
    let mut codes = HashMapTwoFACodeStore::new();
    assert!(signup(&mut users, signup_request("existing_user@mail.com", "correct_password", true)).is_ok());
    let result = login(
        &users,
        &mut codes,
        KEY,
        NOW,
        login_request("existing_user@mail.com", "dfjas:dlfkjasd:fljkad"),
    );
    assert_eq!(result.err(), Some(AuthAPIError::IncorrectCredentials));
}

#[test]
fn login_should_return_400_if_invalid_input() {
    let users = HashmapUserStore::new();
    let mut codes = HashMapTwoFACodeStore::new();
    let result = login(&users, &mut codes, KEY, NOW, login_request("nouser@mail.com", "pass"));
    assert_eq!(result.err(), Some(AuthAPIError::InvalidCredentials));
    let result = login(&users, &mut codes, KEY, NOW, login_request("nouser-mail.com", "password123"));
    assert_eq!(result.err(), Some(AuthAPIError::InvalidCredentials));
}

#[test]
fn login_of_unknown_user_is_incorrect_credentials() {
    let users = HashmapUserStore::new();
    let mut codes = HashMapTwoFACodeStore::new();
    let result = login(&users, &mut codes, KEY, NOW, login_request("nouser@mail.com", "password123"));
    assert_eq!(result.err(), Some(AuthAPIError::IncorrectCredentials));
}

#[test]
fn login_without_two_factor_returns_session_token() {
    let mut users = HashmapUserStore::new();
    let mut codes = HashMapTwoFACodeStore::new();
    let token = logged_in(&mut users, &mut codes, "u1@example.com");
    assert!(!token.is_empty());
    assert!(token.starts_with("1700000600."));
    assert!(token.ends_with(".u1@example.com"));
}

#[test]
fn login_with_two_factor_stores_one_challenge() {
    let mut users = HashmapUserStore::new();
    let mut codes = HashMapTwoFACodeStore::new();
    let id = two_factor_pending(&mut users, &mut codes, "u2@example.com");
    let email = Email::parse("u2@example.com".to_string()).unwrap();
    let (stored_id, _) = codes.get_code(&email).expect("Failed to get code");
    assert_eq!(stored_id.as_str(), id);

    let again = login(&users, &mut codes, KEY, NOW, login_request("u2@example.com", "password123"));
    assert_eq!(again.err(), Some(AuthAPIError::UserHasCode));
    let (still_id, _) = codes.get_code(&email).unwrap();
    assert_eq!(still_id.as_str(), id);
}

#[test]
fn should_return_200_if_correct_code() {
    let mut users = HashmapUserStore::new();
    let mut codes = HashMapTwoFACodeStore::new();
    let id = two_factor_pending(&mut users, &mut codes, "u3@example.com");
    let email = Email::parse("u3@example.com".to_string()).unwrap();
    let (_, code) = codes.get_code(&email).expect("Failed to get code");

    let token = verify_2fa(
        &mut codes,
        KEY,
        NOW,
        Verify2FARequest {
            email: "u3@example.com".to_string(),
            login_attempt_id: id,
            two_fa_code: code.as_str().to_string(),
        },
    )
    .expect("No auth cookie found");
    assert!(!token.is_empty());
    assert!(codes.get_code(&email).is_err());
}

#[test]
fn verify_2fa_should_return_400_if_invalid_input() {
    let mut codes = HashMapTwoFACodeStore::new();
    let cases = [
        ("invalid-email", "550e8400-e29b-41d4-a716-446655440000", "123456"),
        ("test@example.com", "invalid-uuid", "123456"),
        ("test@example.com", "550e8400-e29b-41d4-a716-446655440000", "123"),
    ];
    for (email, id, code) in cases {
        let result = verify_2fa(
            &mut codes,
            KEY,
            NOW,
            Verify2FARequest {
                email: email.to_string(),
                login_attempt_id: id.to_string(),
                two_fa_code: code.to_string(),
            },
        );
        assert_eq!(result.err(), Some(AuthAPIError::InvalidCredentials));
    }
}

#[test]
fn should_return_401_if_same_code_twice() {
    let mut users = HashmapUserStore::new();
    let mut codes = HashMapTwoFACodeStore::new();
    let id = two_factor_pending(&mut users, &mut codes, "u4@example.com");
    let email = Email::parse("u4@example.com".to_string()).unwrap();
    let (_, code) = codes.get_code(&email).expect("Failed to get code");
    let request = || Verify2FARequest {
        email: "u4@example.com".to_string(),
        login_attempt_id: id.clone(),
        two_fa_code: code.as_str().to_string(),
    };
    assert!(verify_2fa(&mut codes, KEY, NOW, request()).is_ok());
    assert_eq!(
        verify_2fa(&mut codes, KEY, NOW, request()).err(),
        Some(AuthAPIError::IncorrectCredentials)
    );
}

#[test]
fn wrong_code_leaves_challenge_in_place() {
    let mut users = HashmapUserStore::new();
    let mut codes = HashMapTwoFACodeStore::new();
    let id = two_factor_pending(&mut users, &mut codes, "u5@example.com");
    let email = Email::parse("u5@example.com".to_string()).unwrap();
    let (_, code) = codes.get_code(&email).unwrap();
    let wrong = if code.as_str() == "123456" { "654321" } else { "123456" };
    let result = verify_2fa(
        &mut codes,
        KEY,
        NOW,
        Verify2FARequest {
            email: "u5@example.com".to_string(),
            login_attempt_id: id.clone(),
            two_fa_code: wrong.to_string(),
        },
    );
    assert_eq!(result.err(), Some(AuthAPIError::IncorrectCredentials));
    let wrong_id = verify_2fa(
        &mut codes,
        KEY,
        NOW,
        Verify2FARequest {
            email: "u5@example.com".to_string(),
            login_attempt_id: "550e8400-e29b-41d4-a716-446655440000".to_string(),
            two_fa_code: code.as_str().to_string(),
        },
    );
    assert_eq!(wrong_id.err(), Some(AuthAPIError::IncorrectCredentials));
    assert!(codes.get_code(&email).is_ok());
    let right = verify_2fa(
        &mut codes,
        KEY,
        NOW,
        Verify2FARequest {
            email: "u5@example.com".to_string(),
            login_attempt_id: id.to_uppercase(),
            two_fa_code: code.as_str().to_string(),
        },
    );
    assert!(right.is_ok());
}

#[test]
fn should_return_400_if_jwt_cookie_missing() {
    let mut banned = HashsetBannedTokenStore::new();
    assert_eq!(
        logout(&mut banned, KEY, NOW, None).err(),
        Some(AuthAPIError::MissingToken)
    );
}

#[test]
fn should_return_401_if_invalid_token() {
    let mut banned = HashsetBannedTokenStore::new();
    assert_eq!(
        logout(&mut banned, KEY, NOW, Some("invalid".to_string())).err(),
        Some(AuthAPIError::InvalidToken)
    );
}

#[test]
fn should_return_200_if_valid_jwt_cookie() {
    let mut users = HashmapUserStore::new();
    let mut codes = HashMapTwoFACodeStore::new();
    let mut banned = HashsetBannedTokenStore::new();
    let token = logged_in(&mut users, &mut codes, "u6@example.com");
    assert_eq!(logout(&mut banned, KEY, NOW + 1, Some(token.clone())), Ok(()));
    assert!(
        banned.check_token(&token).is_ok(),
        "Token should be banned after logout"
    );
}

#[test]
fn should_return_400_if_logout_called_twice_in_a_row() {
    let mut users = HashmapUserStore::new();
    let mut codes = HashMapTwoFACodeStore::new();
    let mut banned = HashsetBannedTokenStore::new();
    let token = logged_in(&mut users, &mut codes, "u7@example.com");
    assert_eq!(logout(&mut banned, KEY, NOW, Some(token.clone())), Ok(()));
    // The first logout cleared the cookie, so the second request carries none.
    assert_eq!(
        logout(&mut banned, KEY, NOW, None).err(),
        Some(AuthAPIError::MissingToken)
    );
    // A client that sends the revoked token again is refused too.
    assert_eq!(
        logout(&mut banned, KEY, NOW, Some(token)).err(),
        Some(AuthAPIError::InvalidToken)
    );
}

#[test]
fn should_return_200_valid_token() {
    let mut users = HashmapUserStore::new();
    let mut codes = HashMapTwoFACodeStore::new();
    let banned = HashsetBannedTokenStore::new();
    let token = logged_in(&mut users, &mut codes, "u8@example.com");
    assert_eq!(verify_token(&banned, KEY, NOW + 10, TokenRequest { token }), Ok(()));
}

#[test]
fn should_return_401_if_banned_token() {
    let mut users = HashmapUserStore::new();
    let mut codes = HashMapTwoFACodeStore::new();
    let mut banned = HashsetBannedTokenStore::new();
    let token = logged_in(&mut users, &mut codes, "u9@example.com");
    assert_eq!(
        verify_token(&banned, KEY, NOW, TokenRequest { token: token.clone() }),
        Ok(())
    );
    assert_eq!(logout(&mut banned, KEY, NOW, Some(token.clone())), Ok(()));
    assert_eq!(
        verify_token(&banned, KEY, NOW, TokenRequest { token }).err(),
        Some(AuthAPIError::InvalidToken)
    );
}

#[test]
fn verify_token_refuses_empty_and_expired_tokens() {
    let mut users = HashmapUserStore::new();
    let mut codes = HashMapTwoFACodeStore::new();
    let banned = HashsetBannedTokenStore::new();
    assert_eq!(
        verify_token(&banned, KEY, NOW, TokenRequest { token: String::new() }).err(),
        Some(AuthAPIError::InvalidToken)
    );
    let token = logged_in(&mut users, &mut codes, "u10@example.com");
    assert_eq!(
        verify_token(&banned, KEY, NOW + 600, TokenRequest { token }).err(),
        Some(AuthAPIError::InvalidToken)
    );
}

#[test]
fn end_to_end_signup_login_logout() {
    let mut users = HashmapUserStore::new();
    let mut codes = HashMapTwoFACodeStore::new();
    let mut banned = HashsetBannedTokenStore::new();
    assert!(signup(&mut users, signup_request("u1@example.com", "password123", false)).is_ok());
    let token = match login(&users, &mut codes, KEY, NOW, login_request("u1@example.com", "password123")) {
        Ok((LoginResponse::RegularAuth(body), Some(token))) => {
            assert_eq!(body.message, "You have successfully logged in!");
            token
        }
        _ => panic!("login should succeed"),
    };
    assert_eq!(
        verify_token(&banned, KEY, NOW, TokenRequest { token: token.clone() }),
        Ok(())
    );
    assert_eq!(logout(&mut banned, KEY, NOW, Some(token.clone())), Ok(()));
    assert_eq!(
        verify_token(&banned, KEY, NOW, TokenRequest { token }).err(),
        Some(AuthAPIError::InvalidToken)
    );
    let _ = codes.get_code(&Email::parse("u1@example.com".to_string()).unwrap());
}
