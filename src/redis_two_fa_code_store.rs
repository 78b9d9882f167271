//! How an external cache records a pending two-factor challenge: the key derived from
//! the address, and the value, a JSON array of the login attempt id and the code.

use vstd::prelude::*;
use vstd::string::StringExecFns;

use crate::data_store::TwoFaCodeStoreError;
use crate::domain::{
    two_fa_code_valid, uuid_canonical, uuid_is_canonical, Email, LoginAttemptId, TwoFACode,
};
use crate::text::push_range;

verus! {

/// How long a challenge stays in the cache, in seconds.
pub const TEN_MINUTES_IN_SECONDS: u64 = 600;

/// Namespace of the challenge keys.
pub const TWO_FA_CODE_PREFIX: &'static str = "two_fa_code:";

/// The JSON text that serde_json gives for a pair of strings; `None` where it fails.
pub uninterp spec fn json_of_pair(first: Seq<char>, second: Seq<char>) -> Option<Seq<char>>;

/// The pair of strings that serde_json reads from a JSON text; `None` where the text is no
/// array of two strings.
pub uninterp spec fn pair_of_json(text: Seq<char>) -> Option<(Seq<char>, Seq<char>)>;

/// Relies on serde_json::to_string on a `(String, String)`: it writes a JSON array of two
/// escaped strings, which cannot fail, and serde_json::from_str reads that text back into
/// the same pair.
#[verifier::external_body]
fn pair_to_json(first: String, second: String) -> (r: Option<String>)
    ensures
        r is Some,
        json_of_pair(first@, second@) == Some(r->0@),
        pair_of_json(r->0@) == Some((first@, second@)),
{
    serde_json::to_string(&(first, second)).ok()
}

/// Relies on serde_json::from_str into a `(String, String)`.
#[verifier::external_body]
fn json_to_pair(text: &str) -> (r: Option<(String, String)>)
    ensures
        r is Some <==> pair_of_json(text@) is Some,
        r matches Some(p) ==> (p.0@, p.1@) == pair_of_json(text@)->0,
{
    serde_json::from_str::<(String, String)>(text).ok()
}

/// The cache key of the challenge of `email`.
pub fn get_key(email: &Email) -> (r: String)
    ensures
        r@ == TWO_FA_CODE_PREFIX@ + email@,
{
    let mut key = String::from_str(TWO_FA_CODE_PREFIX);
    let s = email.as_str();
    push_range(&mut key, s, 0, s.unicode_len());
    assert(s@.subrange(0, s@.len() as int) == s@);
    key
}

/// The cache value that records a challenge.
pub fn encode_code_entry(login_attempt_id: &LoginAttemptId, code: &TwoFACode) -> (r: Result<
    String,
    TwoFaCodeStoreError,
>)
    ensures
        r matches Ok(v) ==> json_of_pair(login_attempt_id@, code@) == Some(v@) && pair_of_json(
            v@,
        ) == Some((login_attempt_id@, code@)),
        r is Ok,
{
    let id = String::from_str(login_attempt_id.as_str());
    let c = String::from_str(code.as_str());
    match pair_to_json(id, c) {
        Some(v) => Ok(v),
        None => Err(TwoFaCodeStoreError::UnexpectedError),
    }
}

/// The challenge that a pair of fields read back from the cache describes; a field that
/// is not a valid id or code is an unexpected error.
pub fn code_entry_from_fields(login_attempt_id: String, code: String) -> (r: Result<
    (LoginAttemptId, TwoFACode),
    TwoFaCodeStoreError,
>)
    ensures
        r matches Ok(p) ==> uuid_canonical(login_attempt_id@) == Some(p.0@) && two_fa_code_valid(
            code@,
        ) && p.1@ == code@,
        r is Err ==> r == Err::<(LoginAttemptId, TwoFACode), TwoFaCodeStoreError>(
            TwoFaCodeStoreError::UnexpectedError,
        ) && (uuid_canonical(login_attempt_id@) is None || !two_fa_code_valid(code@)),
{
    let id = match LoginAttemptId::parse(login_attempt_id) {
        Ok(id) => id,
        Err(_) => return Err(TwoFaCodeStoreError::UnexpectedError),
    };
    let code = match TwoFACode::parse(code) {
        Ok(code) => code,
        Err(_) => return Err(TwoFaCodeStoreError::UnexpectedError),
    };
    Ok((id, code))
}

/// Reads a challenge back from its cache value.
pub fn decode_code_entry(value: &str) -> (r: Result<(LoginAttemptId, TwoFACode), TwoFaCodeStoreError>)
    ensures
        r matches Ok(p) ==> pair_of_json(value@) matches Some(f) && uuid_canonical(f.0) == Some(
            p.0@,
        ) && two_fa_code_valid(f.1) && p.1@ == f.1,
        r is Err ==> r == Err::<(LoginAttemptId, TwoFACode), TwoFaCodeStoreError>(
            TwoFaCodeStoreError::UnexpectedError,
        ),
        pair_of_json(value@) is None ==> r is Err,
        pair_of_json(value@) matches Some(f) && uuid_canonical(f.0) is Some && two_fa_code_valid(
            f.1,
        ) ==> r is Ok,
{
    match json_to_pair(value) {
        Some((id, code)) => code_entry_from_fields(id, code),
        None => Err(TwoFaCodeStoreError::UnexpectedError),
    }
}

/// A challenge written to the cache reads back as the same id and code.
pub proof fn lemma_code_entry_round_trip(id: Seq<char>, code: Seq<char>, value: Seq<char>)
    requires
        uuid_is_canonical(id),
        two_fa_code_valid(code),
        json_of_pair(id, code) == Some(value),
        pair_of_json(value) == Some((id, code)),
    ensures
        pair_of_json(value) matches Some(f) && uuid_canonical(f.0) == Some(id) && two_fa_code_valid(
            f.1,
        ) && f.1 == code,
{
}

} // verus!
