//! The authentication flows: signup, login, the two-factor step, logout and token
//! verification. Each takes the stores it needs, and the server key and the time where a
//! session token is issued or checked.

use vstd::prelude::*;
use vstd::string::StringExecFns;

use crate::data_store::{
    BannedTokenStore, TwoFaCodeStore, TwoFaCodeStoreError, UserStore, UserStoreError,
};
use crate::domain::{
    email_valid, password_valid, two_fa_code_valid, uuid_canonical, uuid_is_canonical, Email,
    LoginAttemptId,
    Password, TwoFACode, User,
};
use crate::hashing::{compute_password_hash, password_hash_with_salt, password_matches};
use crate::token::{
    issue_token, issued_token, lemma_issued_token_checks, token_check, token_inputs_fit,
    token_verdict,
    validate_token, TokenError, MAX_EXPIRY, TOKEN_TTL_SECONDS,
};

verus! {

/// Why a flow failed.
#[derive(Debug, PartialEq, Eq, Structural)]
pub enum AuthAPIError {
    /// The address is already registered.
    UserAlreadyExists,
    /// An input is not a valid address, password, login attempt id or code.
    InvalidCredentials,
    /// A backend failed; nothing was changed.
    UnexpectedError,
    /// Unknown address, wrong password, or no matching two-factor challenge.
    IncorrectCredentials,
    /// The session token is malformed, badly signed, expired or revoked.
    InvalidToken,
    /// The request carried no session token.
    MissingToken,
    /// A two-factor challenge is already pending for the address; it is not replaced.
    UserHasCode,
}

pub struct SignupRequest {
    pub email: String,
    pub password: String,
    pub requires_2fa: bool,
}

pub struct SignupResponse {
    pub message: String,
}

/// A login; the two-factor flag that a client may send is not used: the stored user's
/// flag decides.
pub struct LoginRequest {
    pub email: String,
    pub password: String,
    pub requires_2fa: bool,
}

pub struct RegularAuth {
    pub message: String,
}

pub struct TwoFactorAuthResponse {
    pub message: String,
    pub login_attempt_id: LoginAttemptId,
}

/// The body of a successful login.
pub enum LoginResponse {
    RegularAuth(RegularAuth),
    TwoFactorAuth(TwoFactorAuthResponse),
}

pub struct Verify2FARequest {
    pub email: String,
    pub login_attempt_id: String,
    pub two_fa_code: String,
}

pub struct TokenRequest {
    pub token: String,
}

/// What a signup may do: `users` before, `users2` after.
pub open spec fn signup_post(
    users: Map<Seq<char>, (Seq<char>, Seq<char>, bool)>,
    email: Seq<char>,
    password: Seq<char>,
    requires_2fa: bool,
    infallible: bool,
    r: Result<(), AuthAPIError>,
    users2: Map<Seq<char>, (Seq<char>, Seq<char>, bool)>,
) -> bool {
    let valid = email_valid(email) && password_valid(password);
    &&& r == Err::<(), AuthAPIError>(AuthAPIError::InvalidCredentials) ==> !valid
    &&& infallible && valid && password.len() <= 0x3FFF_FFFF && users.contains_key(email) ==> r
        == Err::<(), AuthAPIError>(AuthAPIError::UserAlreadyExists)
    &&& infallible && valid && password.len() <= 0x3FFF_FFFF && !users.contains_key(email) ==> r is Ok
    &&& !(email_valid(email) && password_valid(password)) ==> r == Err::<(), AuthAPIError>(
        AuthAPIError::InvalidCredentials,
    )
    &&& (email_valid(email) && password_valid(password) && users.contains_key(email)) ==> (r
        == Err::<(), AuthAPIError>(AuthAPIError::UserAlreadyExists) || r == Err::<
        (),
        AuthAPIError,
    >(AuthAPIError::UnexpectedError))
    &&& r == Err::<(), AuthAPIError>(AuthAPIError::UserAlreadyExists) ==> users.contains_key(
        email,
    )
    &&& r is Ok ==> email_valid(email) && password_valid(password) && !users.contains_key(email)
        && exists|h: Seq<char>|
        password_matches(h, password) && (exists|salt: Seq<char>|
            password_hash_with_salt(password, salt) == Some(h)) && users2 == users.insert(
            email,
            (email, h, requires_2fa),
        )
    &&& r is Err ==> users2 == users
}

/// Registers a user. The password is stored only as its hash.
pub fn signup<U: UserStore>(users: &mut U, request: SignupRequest) -> (r: Result<
    SignupResponse,
    AuthAPIError,
>)
    ensures
        signup_post(
            old(users).users(),
            request.email@,
            request.password@,
            request.requires_2fa,
            old(users).infallible(),
            match r {
                Ok(_) => Ok(()),
                Err(e) => Err(e),
            },
            final(users).users(),
        ),
        final(users).infallible() == old(users).infallible(),
{
    let email = match Email::parse(request.email) {
        Ok(email) => email,
        Err(_) => return Err(AuthAPIError::InvalidCredentials),
    };
    let password = match Password::parse(request.password) {
        Ok(password) => password,
        Err(_) => return Err(AuthAPIError::InvalidCredentials),
    };
    let password_hash = match compute_password_hash(&password) {
        Ok(h) => h,
        Err(_) => return Err(AuthAPIError::UnexpectedError),
    };
    let user = User::new(email, password_hash, request.requires_2fa);
    match users.add_user(user) {
        Ok(()) => Ok(SignupResponse { message: String::from_str("User created successfully") }),
        Err(UserStoreError::UserAlreadyExists) => Err(AuthAPIError::UserAlreadyExists),
        Err(_) => Err(AuthAPIError::UnexpectedError),
    }
}

/// The outcome of a login, reduced to what the laws speak of: `Ok((None, token))` for a
/// session, `Ok((Some(id), None))` for a started two-factor challenge.
pub open spec fn login_view(r: Result<(LoginResponse, Option<String>), AuthAPIError>) -> Result<
    (Option<Seq<char>>, Option<Seq<char>>),
    AuthAPIError,
> {
    match r {
        Ok((LoginResponse::RegularAuth(_), t)) => Ok(
            (None, match t {
                Some(t) => Some(t@),
                None => None,
            }),
        ),
        Ok((LoginResponse::TwoFactorAuth(resp), t)) => Ok(
            (Some(resp.login_attempt_id@), match t {
                Some(t) => Some(t@),
                None => None,
            }),
        ),
        Err(e) => Err(e),
    }
}

/// What a login may do: `codes` before, `codes2` after.
pub open spec fn login_post(
    users: Map<Seq<char>, (Seq<char>, Seq<char>, bool)>,
    codes: Map<Seq<char>, (Seq<char>, Seq<char>)>,
    key: Seq<u8>,
    now: u64,
    email: Seq<char>,
    password: Seq<char>,
    users_infallible: bool,
    codes_infallible: bool,
    r: Result<(Option<Seq<char>>, Option<Seq<char>>), AuthAPIError>,
    codes2: Map<Seq<char>, (Seq<char>, Seq<char>)>,
) -> bool {
    let valid = email_valid(email) && password_valid(password);
    let known = users.contains_key(email) && password_matches(users[email].1, password);
    &&& valid && !known && users_infallible ==> r == Err::<
        (Option<Seq<char>>, Option<Seq<char>>),
        AuthAPIError,
    >(AuthAPIError::IncorrectCredentials)
    &&& valid && known && users_infallible && !users[email].2 && token_inputs_fit(key, email, now)
        ==> r is Ok
    &&& valid && known && users_infallible && codes_infallible && users[email].2
        && !codes.contains_key(email) ==> r is Ok
    &&& !valid ==> r == Err::<(Option<Seq<char>>, Option<Seq<char>>), AuthAPIError>(
        AuthAPIError::InvalidCredentials,
    )
    &&& valid && !known ==> (r == Err::<(Option<Seq<char>>, Option<Seq<char>>), AuthAPIError>(
        AuthAPIError::IncorrectCredentials,
    ) || r == Err::<(Option<Seq<char>>, Option<Seq<char>>), AuthAPIError>(
        AuthAPIError::UnexpectedError,
    ))
    &&& valid && known ==> (r is Ok || r == Err::<
        (Option<Seq<char>>, Option<Seq<char>>),
        AuthAPIError,
    >(AuthAPIError::UserHasCode) || r == Err::<
        (Option<Seq<char>>, Option<Seq<char>>),
        AuthAPIError,
    >(AuthAPIError::UnexpectedError))
    &&& r is Ok ==> valid && known
    &&& r matches Ok((None, t)) ==> !users[email].2 && t is Some && now + TOKEN_TTL_SECONDS
        < MAX_EXPIRY && issued_token(
        key,
        email,
        (now + TOKEN_TTL_SECONDS) as nat,
    ) == t && codes2 == codes
    &&& r matches Ok((Some(id), t)) ==> users[email].2 && t is None && uuid_is_canonical(id)
        && !codes.contains_key(email)
        && exists|c: Seq<char>|
        two_fa_code_valid(c) && codes2 == codes.insert(email, (id, c))
    &&& valid && known && codes.contains_key(email) && users[email].2 ==> (r == Err::<
        (Option<Seq<char>>, Option<Seq<char>>),
        AuthAPIError,
    >(AuthAPIError::UserHasCode) || r == Err::<
        (Option<Seq<char>>, Option<Seq<char>>),
        AuthAPIError,
    >(AuthAPIError::UnexpectedError))
    &&& valid && known && users_infallible && codes_infallible && codes.contains_key(email)
        && users[email].2 ==> r == Err::<(Option<Seq<char>>, Option<Seq<char>>), AuthAPIError>(
        AuthAPIError::UserHasCode,
    )
    &&& r == Err::<(Option<Seq<char>>, Option<Seq<char>>), AuthAPIError>(
        AuthAPIError::UserHasCode,
    ) ==> valid && known && users[email].2 && codes.contains_key(email)
    &&& r is Err ==> codes2 == codes
}

/// Logs a user in. Without the two-factor step it yields a session token; with it, it
/// records a fresh challenge and yields its login attempt id (the code is never part of
/// the response).
pub fn login<U: UserStore, C: TwoFaCodeStore>(
    users: &U,
    codes: &mut C,
    key: &[u8],
    now: u64,
    request: LoginRequest,
) -> (r: Result<(LoginResponse, Option<String>), AuthAPIError>)
    ensures
        login_post(
            users.users(),
            old(codes).codes(),
            key@,
            now,
            request.email@,
            request.password@,
            users.infallible(),
            old(codes).infallible(),
            login_view(r),
            final(codes).codes(),
        ),
        final(codes).infallible() == old(codes).infallible(),
{
    let email = match Email::parse(request.email) {
        Ok(email) => email,
        Err(_) => return Err(AuthAPIError::InvalidCredentials),
    };
    let password = match Password::parse(request.password) {
        Ok(password) => password,
        Err(_) => return Err(AuthAPIError::InvalidCredentials),
    };
    match users.validate_user(&email, &password) {
        Ok(()) => {},
        Err(UserStoreError::UnexpectedError) => return Err(AuthAPIError::UnexpectedError),
        Err(_) => return Err(AuthAPIError::IncorrectCredentials),
    }
    let user = match users.get_user(&email) {
        Ok(user) => user,
        Err(_) => return Err(AuthAPIError::UnexpectedError),
    };
    if user.require_2fa {
        handle_2fa(codes, &email)
    } else {
        handle_no_2fa(key, &email, now)
    }
}

/// Starts a two-factor challenge for `email` with a fresh id and code.
fn handle_2fa<C: TwoFaCodeStore>(codes: &mut C, email: &Email) -> (r: Result<
    (LoginResponse, Option<String>),
    AuthAPIError,
>)
    ensures
        r is Ok ==> (login_view(r) matches Ok((Some(id), t)) && t is None && uuid_is_canonical(id)
            && !old(
            codes,
        ).codes().contains_key(email@) && exists|c: Seq<char>|
            two_fa_code_valid(c) && final(codes).codes() == old(codes).codes().insert(
                email@,
                (id, c),
            )),
        r is Err ==> final(codes).codes() == old(codes).codes() && (r == Err::<
            (LoginResponse, Option<String>),
            AuthAPIError,
        >(AuthAPIError::UserHasCode) || r == Err::<(LoginResponse, Option<String>), AuthAPIError>(
            AuthAPIError::UnexpectedError,
        )),
        old(codes).codes().contains_key(email@) ==> r is Err,
        old(codes).infallible() && !old(codes).codes().contains_key(email@) ==> r is Ok,
        old(codes).codes().contains_key(email@) ==> r == Err::<
            (LoginResponse, Option<String>),
            AuthAPIError,
        >(AuthAPIError::UserHasCode) || r == Err::<(LoginResponse, Option<String>), AuthAPIError>(
            AuthAPIError::UnexpectedError,
        ),
        old(codes).infallible() && old(codes).codes().contains_key(email@) ==> r == Err::<
            (LoginResponse, Option<String>),
            AuthAPIError,
        >(AuthAPIError::UserHasCode),
        r == Err::<(LoginResponse, Option<String>), AuthAPIError>(AuthAPIError::UserHasCode)
            ==> old(codes).codes().contains_key(email@),
        final(codes).infallible() == old(codes).infallible(),
{
    let login_attempt_id = LoginAttemptId::default();
    let two_fa_code = TwoFACode::default();
    let response = TwoFactorAuthResponse {
        message: String::from_str("2FA required"),
        login_attempt_id: login_attempt_id.clone(),
    };
    match codes.add_code(email, login_attempt_id, two_fa_code) {
        Ok(()) => Ok((LoginResponse::TwoFactorAuth(response), None)),
        Err(TwoFaCodeStoreError::UserHasCode) => Err(AuthAPIError::UserHasCode),
        Err(_) => Err(AuthAPIError::UnexpectedError),
    }
}

/// Issues the session token of a login without the two-factor step.
fn handle_no_2fa(key: &[u8], email: &Email, now: u64) -> (r: Result<
    (LoginResponse, Option<String>),
    AuthAPIError,
>)
    ensures
        r is Ok ==> (login_view(r) matches Ok((None, t)) && t is Some && now + TOKEN_TTL_SECONDS
            < MAX_EXPIRY && issued_token(key@, email@, (now + TOKEN_TTL_SECONDS) as nat) == t),
        r is Err ==> r == Err::<(LoginResponse, Option<String>), AuthAPIError>(
            AuthAPIError::UnexpectedError,
        ),
        token_inputs_fit(key@, email@, now) ==> r is Ok,
{
    match issue_token(key, email, now) {
        Ok(token) => Ok(
            (
                LoginResponse::RegularAuth(
                    RegularAuth { message: String::from_str("You have successfully logged in!") },
                ),
                Some(token),
            ),
        ),
        Err(_) => Err(AuthAPIError::UnexpectedError),
    }
}

/// What a two-factor verification may do: `codes` before, `codes2` after.
pub open spec fn verify_2fa_post(
    codes: Map<Seq<char>, (Seq<char>, Seq<char>)>,
    key: Seq<u8>,
    now: u64,
    email: Seq<char>,
    login_attempt_id: Seq<char>,
    code: Seq<char>,
    infallible: bool,
    r: Result<Seq<char>, AuthAPIError>,
    codes2: Map<Seq<char>, (Seq<char>, Seq<char>)>,
) -> bool {
    let valid = email_valid(email) && uuid_canonical(login_attempt_id) is Some
        && two_fa_code_valid(code);
    let matching = codes.contains_key(email) && codes[email] == (
        uuid_canonical(login_attempt_id)->0,
        code,
    );
    &&& !valid ==> r == Err::<Seq<char>, AuthAPIError>(AuthAPIError::InvalidCredentials)
    &&& valid && !matching && infallible ==> r == Err::<Seq<char>, AuthAPIError>(
        AuthAPIError::IncorrectCredentials,
    )
    &&& valid && matching && infallible && token_inputs_fit(key, email, now) ==> r is Ok
    &&& valid && !matching ==> r == Err::<Seq<char>, AuthAPIError>(
        AuthAPIError::IncorrectCredentials,
    ) || r == Err::<Seq<char>, AuthAPIError>(AuthAPIError::UnexpectedError)
    &&& valid && matching ==> r is Ok || r == Err::<Seq<char>, AuthAPIError>(
        AuthAPIError::UnexpectedError,
    )
    &&& r is Ok ==> valid && matching && now + TOKEN_TTL_SECONDS < MAX_EXPIRY && issued_token(
        key,
        email,
        (now + TOKEN_TTL_SECONDS) as nat,
    ) == Some(r->Ok_0) && codes2 == codes.remove(email)
    &&& r is Err ==> codes2 == codes
}

/// Completes the two-factor step: on an exact match of id and code it consumes the
/// challenge and yields a session token. A wrong guess leaves the challenge in place.
pub fn verify_2fa<C: TwoFaCodeStore>(codes: &mut C, key: &[u8], now: u64, request: Verify2FARequest) -> (r:
    Result<String, AuthAPIError>)
    ensures
        verify_2fa_post(
            old(codes).codes(),
            key@,
            now,
            request.email@,
            request.login_attempt_id@,
            request.two_fa_code@,
            old(codes).infallible(),
            match r {
                Ok(t) => Ok(t@),
                Err(e) => Err(e),
            },
            final(codes).codes(),
        ),
        final(codes).infallible() == old(codes).infallible(),
{
    let email = match Email::parse(request.email) {
        Ok(email) => email,
        Err(_) => return Err(AuthAPIError::InvalidCredentials),
    };
    let login_attempt_id = match LoginAttemptId::parse(request.login_attempt_id) {
        Ok(id) => id,
        Err(_) => return Err(AuthAPIError::InvalidCredentials),
    };
    let two_fa_code = match TwoFACode::parse(request.two_fa_code) {
        Ok(code) => code,
        Err(_) => return Err(AuthAPIError::InvalidCredentials),
    };
    let (stored_id, stored_code) = match codes.get_code(&email) {
        Ok(pair) => pair,
        Err(TwoFaCodeStoreError::UnexpectedError) => return Err(AuthAPIError::UnexpectedError),
        Err(_) => return Err(AuthAPIError::IncorrectCredentials),
    };
    if stored_id != login_attempt_id || stored_code != two_fa_code {
        return Err(AuthAPIError::IncorrectCredentials);
    }
    let token = match issue_token(key, &email, now) {
        Ok(token) => token,
        Err(_) => return Err(AuthAPIError::UnexpectedError),
    };
    match codes.remove_code(&email) {
        Ok(()) => Ok(token),
        Err(_) => Err(AuthAPIError::UnexpectedError),
    }
}

/// What a logout may do: `banned` before, `banned2` after; `token` is the session cookie's
/// value, if the request carried one.
pub open spec fn logout_post(
    banned: Set<Seq<char>>,
    key: Seq<u8>,
    now: u64,
    token: Option<Seq<char>>,
    infallible: bool,
    r: Result<(), AuthAPIError>,
    banned2: Set<Seq<char>>,
) -> bool {
    &&& token matches Some(t) ==> (token_verdict(key, t, now, banned) is Ok && infallible ==> r is Ok)
    &&& token is None ==> r == Err::<(), AuthAPIError>(AuthAPIError::MissingToken)
    &&& token matches Some(t) ==> (token_verdict(key, t, now, banned) is Err ==> r == Err::<
        (),
        AuthAPIError,
    >(AuthAPIError::InvalidToken))
    &&& token matches Some(t) ==> (token_verdict(key, t, now, banned) is Ok ==> (r is Ok || r
        == Err::<(), AuthAPIError>(AuthAPIError::InvalidToken) || r == Err::<(), AuthAPIError>(
        AuthAPIError::UnexpectedError,
    )))
    &&& r is Ok ==> (token matches Some(t) && token_verdict(key, t, now, banned) is Ok && banned2
        == banned.insert(t))
    &&& r is Err ==> banned2 == banned
}

/// Revokes the session token of the cookie: it must be present and still valid.
pub fn logout<B: BannedTokenStore>(banned: &mut B, key: &[u8], now: u64, token: Option<String>) -> (r:
    Result<(), AuthAPIError>)
    ensures
        logout_post(
            old(banned).tokens(),
            key@,
            now,
            match token {
                Some(t) => Some(t@),
                None => None,
            },
            old(banned).infallible(),
            r,
            final(banned).tokens(),
        ),
        final(banned).infallible() == old(banned).infallible(),
{
    let token = match token {
        Some(t) => t,
        None => return Err(AuthAPIError::MissingToken),
    };
    if validate_token(key, token.as_str(), now, &*banned).is_err() {
        return Err(AuthAPIError::InvalidToken);
    }
    match banned.store_token(token) {
        Ok(()) => Ok(()),
        Err(_) => Err(AuthAPIError::UnexpectedError),
    }
}

/// What a token verification may answer.
pub open spec fn verify_token_post(
    banned: Set<Seq<char>>,
    key: Seq<u8>,
    now: u64,
    token: Seq<char>,
    infallible: bool,
    r: Result<(), AuthAPIError>,
) -> bool {
    &&& infallible ==> (r is Ok <==> token_verdict(key, token, now, banned) is Ok)
    &&& r is Ok ==> token_verdict(key, token, now, banned) is Ok
    &&& r is Err ==> r == Err::<(), AuthAPIError>(AuthAPIError::InvalidToken)
    &&& token_verdict(key, token, now, banned) is Err ==> r is Err
}

/// Whether a token is signed by this service, unexpired and not revoked. When the
/// revocation store cannot be consulted, the token is refused.
pub fn verify_token<B: BannedTokenStore>(banned: &B, key: &[u8], now: u64, request: TokenRequest) -> (r:
    Result<(), AuthAPIError>)
    ensures
        verify_token_post(banned.tokens(), key@, now, request.token@, banned.infallible(), r),
{
    match validate_token(key, request.token.as_str(), now, banned) {
        Ok(_) => Ok(()),
        Err(_) => Err(AuthAPIError::InvalidToken),
    }
}

/// Signing up twice with the same address: once the first signup succeeded, the second
/// is refused as a conflict (on a store that can fail, possibly as a backend failure; a
/// password of more than 0x3FFFFFFF characters may fail to hash) and changes nothing.
pub proof fn lemma_signup_twice(
    users0: Map<Seq<char>, (Seq<char>, Seq<char>, bool)>,
    email: Seq<char>,
    password: Seq<char>,
    requires_2fa: bool,
    infallible0: bool,
    users1: Map<Seq<char>, (Seq<char>, Seq<char>, bool)>,
    infallible1: bool,
    r2: Result<(), AuthAPIError>,
    users2: Map<Seq<char>, (Seq<char>, Seq<char>, bool)>,
)
    requires
        signup_post(users0, email, password, requires_2fa, infallible0, Ok(()), users1),
        signup_post(users1, email, password, requires_2fa, infallible1, r2, users2),
    ensures
        users1.contains_key(email),
        r2 == Err::<(), AuthAPIError>(AuthAPIError::UserAlreadyExists) || r2 == Err::<
            (),
            AuthAPIError,
        >(AuthAPIError::UnexpectedError),
        infallible1 && password.len() <= 0x3FFF_FFFF ==> r2 == Err::<(), AuthAPIError>(
            AuthAPIError::UserAlreadyExists,
        ),
        users2 == users1,
{
    let h = choose|h: Seq<char>|
        password_matches(h, password) && users1 == users0.insert(email, (email, h, requires_2fa));
    assert(users1.contains_key(email));
}

/// After a successful signup without the two-factor step, a login with the same
/// credentials yields a session token for the address (on stores that cannot fail and
/// with inputs of machine size, always), and that token is accepted until it expires.
pub proof fn lemma_login_after_signup(
    users0: Map<Seq<char>, (Seq<char>, Seq<char>, bool)>,
    email: Seq<char>,
    password: Seq<char>,
    signup_infallible: bool,
    users1: Map<Seq<char>, (Seq<char>, Seq<char>, bool)>,
    codes: Map<Seq<char>, (Seq<char>, Seq<char>)>,
    key: Seq<u8>,
    now: u64,
    users_infallible: bool,
    codes_infallible: bool,
    r: Result<(Option<Seq<char>>, Option<Seq<char>>), AuthAPIError>,
    codes2: Map<Seq<char>, (Seq<char>, Seq<char>)>,
    later: u64,
)
    requires
        signup_post(users0, email, password, false, signup_infallible, Ok(()), users1),
        login_post(
            users1,
            codes,
            key,
            now,
            email,
            password,
            users_infallible,
            codes_infallible,
            r,
            codes2,
        ),
    ensures
        r == Err::<(Option<Seq<char>>, Option<Seq<char>>), AuthAPIError>(
            AuthAPIError::UnexpectedError,
        ) || (r matches Ok((None, Some(t))) && token_check(key, t, later) == if later < now
            + TOKEN_TTL_SECONDS {
            Ok::<Seq<char>, TokenError>(email)
        } else {
            Err(TokenError::Expired)
        }),
        users_infallible && token_inputs_fit(key, email, now) ==> r is Ok,
        codes2 == codes,
{
    let h = choose|h: Seq<char>|
        password_matches(h, password) && users1 == users0.insert(email, (email, h, false));
    assert(users1[email] == (email, h, false));
    if r is Ok {
        let t = r->Ok_0.1->0;
        lemma_issued_token_checks(key, email, (now + TOKEN_TTL_SECONDS) as nat, t, later);
    }
}

/// A login that starts a two-factor challenge leaves exactly that challenge pending for
/// the address; a second login before it is completed is refused and changes nothing.
pub proof fn lemma_second_login_refused(
    users: Map<Seq<char>, (Seq<char>, Seq<char>, bool)>,
    codes0: Map<Seq<char>, (Seq<char>, Seq<char>)>,
    key: Seq<u8>,
    now: u64,
    email: Seq<char>,
    password: Seq<char>,
    users_infallible: bool,
    codes_infallible: bool,
    id: Seq<char>,
    codes1: Map<Seq<char>, (Seq<char>, Seq<char>)>,
    now2: u64,
    codes_infallible2: bool,
    r2: Result<(Option<Seq<char>>, Option<Seq<char>>), AuthAPIError>,
    codes2: Map<Seq<char>, (Seq<char>, Seq<char>)>,
)
    requires
        login_post(
            users,
            codes0,
            key,
            now,
            email,
            password,
            users_infallible,
            codes_infallible,
            Ok((Some(id), None)),
            codes1,
        ),
        login_post(
            users,
            codes1,
            key,
            now2,
            email,
            password,
            users_infallible,
            codes_infallible2,
            r2,
            codes2,
        ),
    ensures
        codes1.contains_key(email),
        codes1[email].0 == id,
        two_fa_code_valid(codes1[email].1),
        codes1.dom() == codes0.dom().insert(email),
        r2 == Err::<(Option<Seq<char>>, Option<Seq<char>>), AuthAPIError>(
            AuthAPIError::UserHasCode,
        ) || r2 == Err::<(Option<Seq<char>>, Option<Seq<char>>), AuthAPIError>(
            AuthAPIError::UnexpectedError,
        ),
        users_infallible && codes_infallible2 ==> r2 == Err::<
            (Option<Seq<char>>, Option<Seq<char>>),
            AuthAPIError,
        >(AuthAPIError::UserHasCode),
        codes2 == codes1,
{
    let c = choose|c: Seq<char>| two_fa_code_valid(c) && codes1 == codes0.insert(email, (id, c));
    assert(codes1.dom() =~= codes0.dom().insert(email));
}

/// A challenge is used once: after a successful verification it is gone, and the same
/// verification again is refused (on a store that can fail, possibly as a backend
/// failure) and changes nothing.
pub proof fn lemma_verify_2fa_single_use(
    codes0: Map<Seq<char>, (Seq<char>, Seq<char>)>,
    key: Seq<u8>,
    now: u64,
    email: Seq<char>,
    login_attempt_id: Seq<char>,
    code: Seq<char>,
    infallible0: bool,
    token: Seq<char>,
    codes1: Map<Seq<char>, (Seq<char>, Seq<char>)>,
    now2: u64,
    infallible1: bool,
    r2: Result<Seq<char>, AuthAPIError>,
    codes2: Map<Seq<char>, (Seq<char>, Seq<char>)>,
)
    requires
        verify_2fa_post(
            codes0,
            key,
            now,
            email,
            login_attempt_id,
            code,
            infallible0,
            Ok(token),
            codes1,
        ),
        verify_2fa_post(codes1, key, now2, email, login_attempt_id, code, infallible1, r2, codes2),
    ensures
        !codes1.contains_key(email),
        token_check(key, token, now) == Ok::<Seq<char>, TokenError>(email),
        r2 == Err::<Seq<char>, AuthAPIError>(AuthAPIError::IncorrectCredentials) || r2 == Err::<
            Seq<char>,
            AuthAPIError,
        >(AuthAPIError::UnexpectedError),
        infallible1 ==> r2 == Err::<Seq<char>, AuthAPIError>(AuthAPIError::IncorrectCredentials),
        codes2 == codes1,
{
    lemma_issued_token_checks(key, email, (now + TOKEN_TTL_SECONDS) as nat, token, now);
}

/// The challenge that a login started is completed by sending back its id unchanged and
/// its code: on a store that cannot fail, and with inputs of machine size, the
/// verification succeeds and consumes the challenge.
pub proof fn lemma_verify_2fa_after_login(
    users: Map<Seq<char>, (Seq<char>, Seq<char>, bool)>,
    codes0: Map<Seq<char>, (Seq<char>, Seq<char>)>,
    key: Seq<u8>,
    now: u64,
    email: Seq<char>,
    password: Seq<char>,
    users_infallible: bool,
    codes_infallible: bool,
    id: Seq<char>,
    codes1: Map<Seq<char>, (Seq<char>, Seq<char>)>,
    now2: u64,
    infallible: bool,
    r: Result<Seq<char>, AuthAPIError>,
    codes2: Map<Seq<char>, (Seq<char>, Seq<char>)>,
)
    requires
        login_post(
            users,
            codes0,
            key,
            now,
            email,
            password,
            users_infallible,
            codes_infallible,
            Ok((Some(id), None)),
            codes1,
        ),
        verify_2fa_post(codes1, key, now2, email, id, codes1[email].1, infallible, r, codes2),
    ensures
        r is Ok || r == Err::<Seq<char>, AuthAPIError>(AuthAPIError::UnexpectedError),
        infallible && token_inputs_fit(key, email, now2) ==> r is Ok,
        r is Ok ==> !codes2.contains_key(email),
{
    let c = choose|c: Seq<char>| two_fa_code_valid(c) && codes1 == codes0.insert(email, (id, c));
    assert(codes1[email] == (id, c));
}

/// Logout revokes: once a logout with a token succeeded, that token is refused.
pub proof fn lemma_logout_revokes(
    banned0: Set<Seq<char>>,
    key: Seq<u8>,
    now: u64,
    token: Seq<char>,
    infallible0: bool,
    banned1: Set<Seq<char>>,
    now2: u64,
    infallible1: bool,
    r: Result<(), AuthAPIError>,
)
    requires
        logout_post(banned0, key, now, Some(token), infallible0, Ok(()), banned1),
        verify_token_post(banned1, key, now2, token, infallible1, r),
    ensures
        banned1.contains(token),
        r == Err::<(), AuthAPIError>(AuthAPIError::InvalidToken),
{
    assert(banned1.contains(token));
}

/// A logout with the token of a login, before it expires and while it is not revoked, is
/// accepted (on a store that cannot fail, always); a second logout with the same token is
/// refused.
pub proof fn lemma_logout_after_login(
    key: Seq<u8>,
    email: Seq<char>,
    expiry: nat,
    token: Seq<char>,
    banned0: Set<Seq<char>>,
    now: u64,
    infallible0: bool,
    r1: Result<(), AuthAPIError>,
    banned1: Set<Seq<char>>,
    now2: u64,
    infallible1: bool,
    r2: Result<(), AuthAPIError>,
    banned2: Set<Seq<char>>,
)
    requires
        email_valid(email),
        expiry < MAX_EXPIRY,
        issued_token(key, email, expiry) == Some(token),
        !banned0.contains(token),
        now < expiry,
        logout_post(banned0, key, now, Some(token), infallible0, r1, banned1),
        logout_post(banned1, key, now2, Some(token), infallible1, r2, banned2),
    ensures
        r1 is Ok || r1 == Err::<(), AuthAPIError>(AuthAPIError::InvalidToken) || r1 == Err::<
            (),
            AuthAPIError,
        >(AuthAPIError::UnexpectedError),
        infallible0 ==> r1 is Ok,
        r1 is Ok ==> banned1 == banned0.insert(token),
        r1 is Ok ==> r2 == Err::<(), AuthAPIError>(AuthAPIError::InvalidToken) && banned2
            == banned1,
{
    lemma_issued_token_checks(key, email, expiry, token, now);
    if r1 is Ok {
        assert(banned1.contains(token));
    }
}

} // verus!
