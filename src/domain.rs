//! Validated value types and the user record.

use vstd::prelude::*;
use vstd::string::StringExecFns;

use rand::Rng;

use crate::text::{
    all_digits, contains_char, decimal_capped, decimal_value, digits_only, has_char,
    lemma_decimal_text, push_decimal,
};

verus! {

/// A syntactically plausible e-mail address: it holds an `@` and a `.`.
pub open spec fn email_valid(s: Seq<char>) -> bool {
    has_char(s, '@') && has_char(s, '.')
}

/// Whether a text is acceptable as an e-mail address.
pub fn validate_email(email: &str) -> (r: bool)
    ensures
        r == email_valid(email@),
{
    contains_char(email, '@') && contains_char(email, '.')
}

/// The input of a parse was not a valid value of the type.
#[derive(Debug, PartialEq, Eq, Structural)]
pub enum ValidationError {
    InvalidEmail,
    InvalidPassword,
    InvalidLoginAttemptId,
    InvalidTwoFACode,
}

/// An e-mail address that identifies a user.
pub struct Email {
    value: String,
}

impl View for Email {
    type V = Seq<char>;

    closed spec fn view(&self) -> Seq<char> {
        self.value@
    }
}

impl Clone for Email {
    fn clone(&self) -> (r: Self)
        ensures
            r@ == self@,
    {
        proof {
            use_type_invariant(self);
        }
        Email { value: String::from_str(self.value.as_str()) }
    }
}

impl PartialEq for Email {
    fn eq(&self, other: &Self) -> (r: bool) {
        self.value == other.value
    }
}

impl vstd::std_specs::cmp::PartialEqSpecImpl for Email {
    open spec fn obeys_eq_spec() -> bool {
        true
    }

    open spec fn eq_spec(&self, other: &Email) -> bool {
        self@ == other@
    }
}

impl Email {
    #[verifier::type_invariant]
    spec fn inv(self) -> bool {
        email_valid(self.value@)
    }

    pub fn parse(email: String) -> (r: Result<Email, ValidationError>)
        ensures
            email_valid(email@) ==> (r matches Ok(e) && e@ == email@),
            !email_valid(email@) ==> r == Err::<Email, ValidationError>(ValidationError::InvalidEmail),
    {
        if validate_email(email.as_str()) {
            Ok(Email { value: email })
        } else {
            Err(ValidationError::InvalidEmail)
        }
    }

    pub fn as_str(&self) -> (r: &str)
        ensures
            r@ == self@,
    {
        self.value.as_str()
    }
}

/// A password that is long enough to be accepted: more than eight characters.
pub open spec fn password_valid(s: Seq<char>) -> bool {
    s.len() > 8
}

/// Whether a text is long enough to be a password.
pub fn validate_password(password: &str) -> (r: bool)
    ensures
        r == password_valid(password@),
{
    password.unicode_len() > 8
}

/// A password as the user typed it. It is only held while a request is handled;
/// what is stored is its hash.
pub struct Password {
    value: String,
}

impl View for Password {
    type V = Seq<char>;

    closed spec fn view(&self) -> Seq<char> {
        self.value@
    }
}

impl Clone for Password {
    fn clone(&self) -> (r: Self)
        ensures
            r@ == self@,
    {
        proof {
            use_type_invariant(self);
        }
        Password { value: String::from_str(self.value.as_str()) }
    }
}

impl Password {
    #[verifier::type_invariant]
    spec fn inv(self) -> bool {
        password_valid(self.value@)
    }

    pub fn parse(password: String) -> (r: Result<Password, ValidationError>)
        ensures
            password_valid(password@) ==> (r matches Ok(p) && p@ == password@),
            !password_valid(password@) ==> r == Err::<Password, ValidationError>(
                ValidationError::InvalidPassword,
            ),
    {
        if validate_password(password.as_str()) {
            Ok(Password { value: password })
        } else {
            Err(ValidationError::InvalidPassword)
        }
    }

    /// The password in clear; it is always longer than eight characters.
    pub fn expose_secret(&self) -> (r: &str)
        ensures
            r@ == self@,
            password_valid(self@),
    {
        proof {
            use_type_invariant(self);
        }
        self.value.as_str()
    }
}

/// What `uuid::Uuid::parse_str` followed by `to_string` gives for a text: `None` where
/// the text is no UUID, else the UUID in hyphenated lower-case form.
pub uninterp spec fn uuid_canonical(s: Seq<char>) -> Option<Seq<char>>;

/// Relies on uuid::Uuid::parse_str, and on the Display of uuid::Uuid, to accept a UUID in
/// any of the forms that the crate reads and to print it in hyphenated form; that form
/// parses back to the same UUID, so it is its own canonical form.
#[verifier::external_body]
fn canonical_uuid(s: &str) -> (r: Option<String>)
    ensures
        r is Some <==> uuid_canonical(s@) is Some,
        r is Some ==> r->0@ == uuid_canonical(s@)->0,
        r is Some ==> uuid_canonical(r->0@) == Some(r->0@),
{
    match uuid::Uuid::parse_str(s) {
        Ok(id) => Some(id.to_string()),
        Err(_) => None,
    }
}

/// Relies on uuid::Uuid::new_v4 for a fresh random UUID, printed by its Display in
/// hyphenated form, which parses back to the same UUID.
#[verifier::external_body]
fn fresh_uuid() -> (r: String)
    ensures
        uuid_canonical(r@) == Some(r@),
{
    uuid::Uuid::new_v4().to_string()
}

/// A UUID text in the form that `LoginAttemptId` keeps.
pub open spec fn uuid_is_canonical(s: Seq<char>) -> bool {
    uuid_canonical(s) == Some(s)
}

/// Identifies one pending two-factor challenge.
pub struct LoginAttemptId {
    value: String,
}

impl View for LoginAttemptId {
    type V = Seq<char>;

    closed spec fn view(&self) -> Seq<char> {
        self.value@
    }
}

impl Clone for LoginAttemptId {
    fn clone(&self) -> (r: Self)
        ensures
            r@ == self@,
    {
        proof {
            use_type_invariant(self);
        }
        LoginAttemptId { value: String::from_str(self.value.as_str()) }
    }
}

impl PartialEq for LoginAttemptId {
    fn eq(&self, other: &Self) -> (r: bool) {
        self.value == other.value
    }
}

impl vstd::std_specs::cmp::PartialEqSpecImpl for LoginAttemptId {
    open spec fn obeys_eq_spec() -> bool {
        true
    }

    open spec fn eq_spec(&self, other: &LoginAttemptId) -> bool {
        self@ == other@
    }
}

impl LoginAttemptId {
    #[verifier::type_invariant]
    spec fn inv(self) -> bool {
        uuid_is_canonical(self.value@)
    }

    /// Accepts any text that is a UUID, and keeps it in hyphenated lower-case form.
    pub fn parse(id: String) -> (r: Result<LoginAttemptId, ValidationError>)
        ensures
            uuid_canonical(id@) is Some ==> (r matches Ok(a) && a@ == uuid_canonical(id@)->0),
            r matches Ok(a) ==> uuid_is_canonical(a@),
            uuid_canonical(id@) is None ==> r == Err::<LoginAttemptId, ValidationError>(
                ValidationError::InvalidLoginAttemptId,
            ),
    {
        match canonical_uuid(id.as_str()) {
            Some(value) => Ok(LoginAttemptId { value }),
            None => Err(ValidationError::InvalidLoginAttemptId),
        }
    }

    /// The id, in the hyphenated form that parses back to itself.
    pub fn as_str(&self) -> (r: &str)
        ensures
            r@ == self@,
            uuid_is_canonical(self@),
    {
        proof {
            use_type_invariant(self);
        }
        self.value.as_str()
    }
}

impl Default for LoginAttemptId {
    /// A fresh random UUID.
    fn default() -> (r: Self)
        ensures
            uuid_is_canonical(r@),
    {
        LoginAttemptId { value: fresh_uuid() }
    }
}

/// The digits of a code, without the `+` sign that a number may carry.
pub open spec fn code_body(s: Seq<char>) -> Seq<char> {
    if s.len() > 0 && s[0] == '+' {
        s.skip(1)
    } else {
        s
    }
}

/// A six-digit code: read as an unsigned decimal number it lies in 100000..=999999.
pub open spec fn two_fa_code_valid(s: Seq<char>) -> bool {
    let b = code_body(s);
    b.len() > 0 && all_digits(b) && 100_000 <= decimal_value(b) <= 999_999
}

/// Relies on rand::rng and rand::Rng::random_range: a number drawn from 100000..=999999.
#[verifier::external_body]
fn random_six_digits() -> (r: u32)
    ensures
        100_000 <= r <= 999_999,
{
    rand::rng().random_range(100_000..=999_999)
}

/// A code of the two-factor step.
pub struct TwoFACode {
    value: String,
}

impl View for TwoFACode {
    type V = Seq<char>;

    closed spec fn view(&self) -> Seq<char> {
        self.value@
    }
}

impl Clone for TwoFACode {
    fn clone(&self) -> (r: Self)
        ensures
            r@ == self@,
    {
        proof {
            use_type_invariant(self);
        }
        TwoFACode { value: String::from_str(self.value.as_str()) }
    }
}

impl PartialEq for TwoFACode {
    fn eq(&self, other: &Self) -> (r: bool) {
        self.value == other.value
    }
}

impl vstd::std_specs::cmp::PartialEqSpecImpl for TwoFACode {
    open spec fn obeys_eq_spec() -> bool {
        true
    }

    open spec fn eq_spec(&self, other: &TwoFACode) -> bool {
        self@ == other@
    }
}

impl TwoFACode {
    #[verifier::type_invariant]
    spec fn inv(self) -> bool {
        two_fa_code_valid(self.value@)
    }

    pub fn parse(code: String) -> (r: Result<TwoFACode, ValidationError>)
        ensures
            two_fa_code_valid(code@) ==> (r matches Ok(c) && c@ == code@),
            !two_fa_code_valid(code@) ==> r == Err::<TwoFACode, ValidationError>(
                ValidationError::InvalidTwoFACode,
            ),
    {
        let s = code.as_str();
        let n = s.unicode_len();
        let start: usize = if n > 0 && s.get_char(0) == '+' { 1 } else { 0 };
        proof {
            assert(code_body(code@) == code@.subrange(start as int, n as int));
        }
        if start == n || !digits_only(s, start, n) {
            return Err(ValidationError::InvalidTwoFACode);
        }
        let v = decimal_capped(s, start, n, 1_000_000);
        if 100_000 <= v && v <= 999_999 {
            Ok(TwoFACode { value: code })
        } else {
            Err(ValidationError::InvalidTwoFACode)
        }
    }

    /// The code; it is always valid.
    pub fn as_str(&self) -> (r: &str)
        ensures
            r@ == self@,
            two_fa_code_valid(self@),
    {
        proof {
            use_type_invariant(self);
        }
        self.value.as_str()
    }
}

impl Default for TwoFACode {
    /// A uniformly drawn six-digit code, in plain decimal.
    fn default() -> (r: Self)
        ensures
            two_fa_code_valid(r@),
            exists|n: nat| 100_000 <= n <= 999_999 && r@ == crate::text::decimal_text(n),
    {
        let n = random_six_digits();
        let mut value = String::new();
        push_decimal(&mut value, n as u64);
        proof {
            lemma_decimal_text(n as nat);
            assert(value@ =~= crate::text::decimal_text(n as nat));
            assert(crate::text::is_digit(value@[0]));
            assert(code_body(value@) == value@);
        }
        TwoFACode { value }
    }
}

/// A registered user: the key is the e-mail address, and the password is kept only as
/// its salted hash.
pub struct User {
    pub email: Email,
    pub password_hash: String,
    pub require_2fa: bool,
}

impl View for User {
    /// E-mail address, password hash, and whether the two-factor step is required.
    type V = (Seq<char>, Seq<char>, bool);

    open spec fn view(&self) -> (Seq<char>, Seq<char>, bool) {
        (self.email@, self.password_hash@, self.require_2fa)
    }
}

impl Clone for User {
    fn clone(&self) -> (r: Self)
        ensures
            r@ == self@,
    {
        User {
            email: self.email.clone(),
            password_hash: String::from_str(self.password_hash.as_str()),
            require_2fa: self.require_2fa,
        }
    }
}

impl PartialEq for User {
    fn eq(&self, other: &Self) -> (r: bool) {
        self.email.value == other.email.value && self.password_hash == other.password_hash
            && self.require_2fa == other.require_2fa
    }
}

impl vstd::std_specs::cmp::PartialEqSpecImpl for User {
    open spec fn obeys_eq_spec() -> bool {
        true
    }

    open spec fn eq_spec(&self, other: &User) -> bool {
        self.email@ == other.email@ && self.password_hash@ == other.password_hash@
            && self.require_2fa == other.require_2fa
    }
}

impl User {
    pub fn new(email: Email, password_hash: String, require_2fa: bool) -> (r: User)
        ensures
            r@ == (email@, password_hash@, require_2fa),
    {
        User { email, password_hash, require_2fa }
    }
}

} // verus!
