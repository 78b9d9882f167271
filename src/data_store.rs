//! The three stores that the authentication flow depends on, each as a trait with a
//! contract over an abstract view of its contents. An operation may fail with
//! `UnexpectedError` (a backend that could not be reached), and then changes nothing; a
//! store whose `infallible()` holds (one held in memory) never does. Every implementation
//! defines its view and `infallible()`; the in-memory ones in this crate are verified
//! against these contracts.

use vstd::prelude::*;

use crate::domain::{Email, LoginAttemptId, Password, TwoFACode, User};
use crate::hashing::password_matches;

verus! {

#[derive(Debug, PartialEq, Eq, Structural)]
pub enum UserStoreError {
    UserAlreadyExists,
    UserNotFound,
    InvalidCredentials,
    UnexpectedError,
}

/// Holds the registered users, keyed by e-mail address; a user is never replaced.
pub trait UserStore {
    /// For each registered address: the address, the password hash and the 2FA flag.
    spec fn users(&self) -> Map<Seq<char>, (Seq<char>, Seq<char>, bool)>;

    /// The store never fails with `UnexpectedError`.
    spec fn infallible(&self) -> bool;

    fn add_user(&mut self, user: User) -> (r: Result<(), UserStoreError>)
        ensures
            r is Ok ==> !old(self).users().contains_key(user.email@) && final(self).users()
                == old(self).users().insert(user.email@, user@),
            r matches Err(e) ==> final(self).users() == old(self).users() && ((e
                == UserStoreError::UserAlreadyExists && old(self).users().contains_key(
                user.email@,
            )) || e == UserStoreError::UnexpectedError),
            old(self).infallible() ==> r != Err::<(), UserStoreError>(UserStoreError::UnexpectedError),
            final(self).infallible() == old(self).infallible(),
    ;

    fn get_user(&self, email: &Email) -> (r: Result<User, UserStoreError>)
        ensures
            r matches Ok(u) ==> self.users().contains_key(email@) && u@ == self.users()[email@],
            r matches Err(e) ==> (e == UserStoreError::UserNotFound && !self.users().contains_key(
                email@,
            )) || e == UserStoreError::UnexpectedError,
            self.infallible() ==> r != Err::<User, UserStoreError>(UserStoreError::UnexpectedError),
    ;

    /// Compares the password with the stored hash by re-hashing it.
    fn validate_user(&self, email: &Email, password: &Password) -> (r: Result<(), UserStoreError>)
        ensures
            r is Ok ==> self.users().contains_key(email@) && password_matches(
                self.users()[email@].1,
                password@,
            ),
            r matches Err(e) ==> (e == UserStoreError::UserNotFound && !self.users().contains_key(
                email@,
            )) || (e == UserStoreError::InvalidCredentials && self.users().contains_key(email@)
                && !password_matches(self.users()[email@].1, password@))
                || e == UserStoreError::UnexpectedError,
            self.infallible() ==> r != Err::<(), UserStoreError>(UserStoreError::UnexpectedError),
    ;
}

#[derive(Debug, PartialEq, Eq, Structural)]
pub enum BannedTokenStoreError {
    TokenNotPresent,
    TokenAlreadyBanned,
    UnexpectedError,
}

/// Holds the session tokens that were revoked before they expired.
pub trait BannedTokenStore {
    /// The revoked tokens.
    spec fn tokens(&self) -> Set<Seq<char>>;

    /// The store never fails with `UnexpectedError`.
    spec fn infallible(&self) -> bool;

    fn store_token(&mut self, token: String) -> (r: Result<(), BannedTokenStoreError>)
        ensures
            r is Ok ==> !old(self).tokens().contains(token@) && final(self).tokens() == old(
                self,
            ).tokens().insert(token@),
            r matches Err(e) ==> final(self).tokens() == old(self).tokens() && ((e
                == BannedTokenStoreError::TokenAlreadyBanned && old(self).tokens().contains(
                token@,
            )) || e == BannedTokenStoreError::UnexpectedError),
            old(self).infallible() ==> r != Err::<(), BannedTokenStoreError>(BannedTokenStoreError::UnexpectedError),
            final(self).infallible() == old(self).infallible(),
    ;

    /// `Ok` means that the token is banned.
    fn check_token(&self, token: &str) -> (r: Result<(), BannedTokenStoreError>)
        ensures
            r is Ok ==> self.tokens().contains(token@),
            r matches Err(e) ==> (e == BannedTokenStoreError::TokenNotPresent
                && !self.tokens().contains(token@)) || e
                == BannedTokenStoreError::UnexpectedError,
            self.infallible() ==> r != Err::<(), BannedTokenStoreError>(BannedTokenStoreError::UnexpectedError),
    ;
}

#[derive(Debug, PartialEq, Eq, Structural)]
pub enum TwoFaCodeStoreError {
    LoginAttempIdNotFound,
    UnexpectedError,
    UserHasCode,
    CodeNotFound,
}

/// Holds at most one pending two-factor challenge per e-mail address.
pub trait TwoFaCodeStore {
    /// For each address with a pending challenge: its login attempt id and code.
    spec fn codes(&self) -> Map<Seq<char>, (Seq<char>, Seq<char>)>;

    /// The store never fails with `UnexpectedError`.
    spec fn infallible(&self) -> bool;

    /// Refuses a second challenge for an address instead of replacing the first.
    fn add_code(&mut self, email: &Email, login_attempt_id: LoginAttemptId, code: TwoFACode) -> (r:
        Result<(), TwoFaCodeStoreError>)
        ensures
            r is Ok ==> !old(self).codes().contains_key(email@) && final(self).codes() == old(
                self,
            ).codes().insert(email@, (login_attempt_id@, code@)),
            r matches Err(e) ==> final(self).codes() == old(self).codes() && ((e
                == TwoFaCodeStoreError::UserHasCode && old(self).codes().contains_key(email@))
                || e == TwoFaCodeStoreError::UnexpectedError),
            old(self).infallible() ==> r != Err::<(), TwoFaCodeStoreError>(TwoFaCodeStoreError::UnexpectedError),
            final(self).infallible() == old(self).infallible(),
    ;

    fn remove_code(&mut self, email: &Email) -> (r: Result<(), TwoFaCodeStoreError>)
        ensures
            r is Ok ==> final(self).codes() == old(self).codes().remove(email@),
            r matches Err(e) ==> final(self).codes() == old(self).codes() && e
                == TwoFaCodeStoreError::UnexpectedError,
            old(self).infallible() ==> r != Err::<(), TwoFaCodeStoreError>(TwoFaCodeStoreError::UnexpectedError),
            final(self).infallible() == old(self).infallible(),
    ;

    fn get_code(&self, email: &Email) -> (r: Result<(LoginAttemptId, TwoFACode), TwoFaCodeStoreError>)
        ensures
            r matches Ok(p) ==> self.codes().contains_key(email@) && (p.0@, p.1@)
                == self.codes()[email@],
            r matches Err(e) ==> (e == TwoFaCodeStoreError::CodeNotFound
                && !self.codes().contains_key(email@)) || e
                == TwoFaCodeStoreError::UnexpectedError,
            self.infallible() ==> r != Err::<(LoginAttemptId, TwoFACode), TwoFaCodeStoreError>(TwoFaCodeStoreError::UnexpectedError),
    ;
}

} // verus!
