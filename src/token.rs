//! Session tokens: issued for an e-mail address, signed with a server key, valid until an
//! absolute expiry, and refused once revoked.
//!
//! A token reads `<expiry>.<signature>.<email>`: the expiry in Unix seconds as decimal
//! digits, then the lower-case hex of a keyed Argon2 digest over `<expiry>.<email>`.

use vstd::prelude::*;

use argon2::{Algorithm, Argon2, Params, Version};

use crate::data_store::{BannedTokenStore, BannedTokenStoreError};
use crate::domain::{email_valid, Email};
use crate::text::{
    all_digits, decimal_capped, decimal_text, decimal_value, digits_only, find_char,
    hex_text, index_of, lemma_decimal_text, lemma_decimal_text_len, pow10, lemma_hex_text_has_no_dot, lemma_index_of, lemma_index_of_unique, push_char,
    push_decimal, push_hex, push_range, substring,
};

verus! {

/// Lifetime of a session token, in seconds.
pub const TOKEN_TTL_SECONDS: u64 = 600;

/// Name of the cookie that carries the session token.
pub const JWT_COOKIE_NAME: &'static str = "jwt";

/// Expiries from this value on are not accepted.
pub const MAX_EXPIRY: u64 = 0x1000_0000_0000_0000;

/// Salt of the token digest; the secrecy comes from the key.
pub const TOKEN_SALT: &'static str = "session-token-v1";

/// Memory cost of the token digest, in KiB: the smallest that one lane allows.
pub const DIGEST_MEMORY_KIB: u32 = 8;

/// Length of the token digest, in bytes.
pub const DIGEST_LEN: usize = 32;

/// The digest that keyed Argon2id (version 0x13, one pass, one lane) gives for a payload,
/// with a key, a salt, a memory cost and an output length; `None` where the crate refuses
/// the inputs.
pub uninterp spec fn argon2_keyed_digest(
    key: Seq<u8>,
    payload: Seq<char>,
    salt: Seq<char>,
    memory: u32,
    out_len: usize,
) -> Option<Seq<u8>>;

/// Relies on argon2::Params::new, argon2::Argon2::new_with_secret and
/// Argon2::hash_password_into, which fills the whole output buffer. These refuse only a
/// memory cost under 8 KiB, an output length outside 4..=0xFFFFFFFF, a key or payload of
/// more than 0xFFFFFFFF bytes, and a salt of fewer than 8 or more than 0xFFFFFFFF bytes.
#[verifier::external_body]
fn keyed_digest(key: &[u8], payload: &str, salt: &str, memory: u32, out_len: usize) -> (r:
    Option<Vec<u8>>)
    ensures
        r is Some <==> argon2_keyed_digest(key@, payload@, salt@, memory, out_len) is Some,
        r is Some ==> r->0@ == argon2_keyed_digest(key@, payload@, salt@, memory, out_len)->0,
        key@.len() <= 0xFFFF_FFFF && payload@.len() <= 0x3FFF_FFFF && 8 <= salt@.len()
            <= 0x3FFF_FFFF && 8 <= memory && 4 <= out_len <= 0xFFFF_FFFF ==> r is Some,
{
    let params = Params::new(memory, 1, 1, Some(out_len)).ok()?;
    let hasher = Argon2::new_with_secret(key, Algorithm::Argon2id, Version::V0x13, params).ok()?;
    let mut out = vec![0u8; out_len];
    hasher.hash_password_into(payload.as_bytes(), salt.as_bytes(), &mut out).ok()?;
    Some(out)
}

#[derive(Debug, PartialEq, Eq, Structural)]
pub enum TokenError {
    /// Not a token of this service, or its signature does not match.
    Malformed,
    /// Its expiry has passed.
    Expired,
    /// It was revoked.
    Revoked,
    /// The revocation store could not be consulted, or the token could not be signed.
    Unexpected,
}

/// The signature of a payload under a key.
pub open spec fn signature_of(key: Seq<u8>, payload: Seq<char>) -> Option<Seq<u8>> {
    argon2_keyed_digest(key, payload, TOKEN_SALT@, DIGEST_MEMORY_KIB, DIGEST_LEN)
}

pub open spec fn token_payload(expiry: Seq<char>, email: Seq<char>) -> Seq<char> {
    expiry + seq!['.'] + email
}

pub open spec fn token_text(expiry: Seq<char>, signature: Seq<char>, email: Seq<char>) -> Seq<
    char,
> {
    expiry + seq!['.'] + signature + seq!['.'] + email
}

/// The token issued for `email` that expires at `expiry`.
pub open spec fn issued_token(key: Seq<u8>, email: Seq<char>, expiry: nat) -> Option<Seq<char>> {
    match signature_of(key, token_payload(decimal_text(expiry), email)) {
        Some(sig) => Some(token_text(decimal_text(expiry), hex_text(sig), email)),
        None => None,
    }
}

/// The three fields of a token text, split at its first two dots.
pub open spec fn token_fields(t: Seq<char>) -> Option<(Seq<char>, Seq<char>, Seq<char>)> {
    let k1 = index_of(t, '.');
    let rest = t.skip(k1 + 1 as int);
    let k2 = index_of(rest, '.');
    if k1 < t.len() && k2 < rest.len() {
        Some((t.take(k1 as int), rest.take(k2 as int), rest.skip(k2 + 1 as int)))
    } else {
        None
    }
}

/// What a token says, read without checking its signature.
pub open spec fn token_claims(t: Seq<char>) -> Option<(nat, Seq<char>, Seq<char>, Seq<char>)> {
    match token_fields(t) {
        Some((d, s, e)) => if d.len() > 0 && all_digits(d) && decimal_value(d) < MAX_EXPIRY
            && email_valid(e) {
            Some((decimal_value(d), s, e, token_payload(d, e)))
        } else {
            None
        },
        None => None,
    }
}

/// The verdict on a token at time `now`, before the revocation store is consulted.
pub open spec fn token_check(key: Seq<u8>, t: Seq<char>, now: u64) -> Result<
    Seq<char>,
    TokenError,
> {
    match token_claims(t) {
        Some((expiry, s, e, payload)) => match signature_of(key, payload) {
            Some(sig) => if hex_text(sig) != s {
                Err(TokenError::Malformed)
            } else if now >= expiry {
                Err(TokenError::Expired)
            } else {
                Ok(e)
            },
            None => Err(TokenError::Malformed),
        },
        None => Err(TokenError::Malformed),
    }
}

/// The verdict on a token at time `now`, given the set of revoked tokens.
pub open spec fn token_verdict(key: Seq<u8>, t: Seq<char>, now: u64, banned: Set<Seq<char>>) -> Result<
    Seq<char>,
    TokenError,
> {
    match token_check(key, t, now) {
        Ok(e) => if banned.contains(t) {
            Err(TokenError::Revoked)
        } else {
            Ok(e)
        },
        Err(e) => Err(e),
    }
}

pub open spec fn email_result(r: Result<Email, TokenError>) -> Result<Seq<char>, TokenError> {
    match r {
        Ok(e) => Ok(e@),
        Err(e) => Err(e),
    }
}

/// A token issued for a valid address is accepted, with that address, until its expiry,
/// and refused as expired from then on.
pub proof fn lemma_issued_token_checks(
    key: Seq<u8>,
    email: Seq<char>,
    expiry: nat,
    t: Seq<char>,
    now: u64,
)
    requires
        email_valid(email),
        expiry < MAX_EXPIRY,
        issued_token(key, email, expiry) == Some(t),
    ensures
        token_check(key, t, now) == if now < expiry {
            Ok::<Seq<char>, TokenError>(email)
        } else {
            Err(TokenError::Expired)
        },
{
    let d = decimal_text(expiry);
    let sig = signature_of(key, token_payload(d, email))->0;
    let h = hex_text(sig);
    lemma_decimal_text(expiry);
    lemma_hex_text_has_no_dot(sig);
    assert(t == token_text(d, h, email));
    assert forall|j: int| 0 <= j < d.len() implies t[j] != '.' by {
        assert(t[j] == d[j]);
        assert(crate::text::is_digit(d[j]));
    }
    lemma_index_of_unique(t, '.', d.len() as int);
    let rest = t.skip(d.len() + 1 as int);
    assert(rest =~= h + seq!['.'] + email);
    assert forall|j: int| 0 <= j < h.len() implies rest[j] != '.' by {
        assert(rest[j] == h[j]);
    }
    lemma_index_of_unique(rest, '.', h.len() as int);
    assert(t.take(d.len() as int) =~= d);
    assert(rest.take(h.len() as int) =~= h);
    assert(rest.skip(h.len() + 1 as int) =~= email);
    assert(token_fields(t) == Some((d, h, email)));
}

/// The inputs for which issuing a token cannot fail: the expiry fits, and the key and
/// address are within the sizes that Argon2 takes.
pub open spec fn token_inputs_fit(key: Seq<u8>, email: Seq<char>, now: u64) -> bool {
    now + TOKEN_TTL_SECONDS < MAX_EXPIRY && key.len() <= 0xFFFF_FFFF && email.len() <= 0x3FFF_0000
}

/// Issues a token for `email` that expires `TOKEN_TTL_SECONDS` after `now`.
pub fn issue_token(key: &[u8], email: &Email, now: u64) -> (r: Result<String, TokenError>)
    ensures
        r matches Ok(t) ==> now + TOKEN_TTL_SECONDS < MAX_EXPIRY && issued_token(
            key@,
            email@,
            (now + TOKEN_TTL_SECONDS) as nat,
        ) == Some(t@),
        r is Err ==> r == Err::<String, TokenError>(TokenError::Unexpected) && (now
            + TOKEN_TTL_SECONDS >= MAX_EXPIRY || issued_token(
            key@,
            email@,
            (now + TOKEN_TTL_SECONDS) as nat,
        ) is None),
        token_inputs_fit(key@, email@, now) ==> r is Ok,
{
    if now >= MAX_EXPIRY - TOKEN_TTL_SECONDS {
        return Err(TokenError::Unexpected);
    }
    let expiry = now + TOKEN_TTL_SECONDS;
    let mut payload = String::new();
    push_decimal(&mut payload, expiry);
    push_char(&mut payload, '.');
    push_range(&mut payload, email.as_str(), 0, email.as_str().unicode_len());
    assert(payload@ =~= token_payload(decimal_text(expiry as nat), email@));
    proof {
        reveal_strlit("session-token-v1");
        reveal_with_fuel(pow10, 20);
        lemma_decimal_text_len(expiry as nat, 19);
    }
    let sig = match keyed_digest(key, payload.as_str(), TOKEN_SALT, DIGEST_MEMORY_KIB, DIGEST_LEN) {
        Some(sig) => sig,
        None => return Err(TokenError::Unexpected),
    };
    Ok(encode_token(expiry, sig.as_slice(), email))
}

/// The text of a token with the given expiry, signature and address.
pub fn encode_token(expiry: u64, signature: &[u8], email: &Email) -> (r: String)
    ensures
        r@ == token_text(decimal_text(expiry as nat), hex_text(signature@), email@),
{
    let mut token = String::new();
    push_decimal(&mut token, expiry);
    push_char(&mut token, '.');
    push_hex(&mut token, signature);
    push_char(&mut token, '.');
    push_range(&mut token, email.as_str(), 0, email.as_str().unicode_len());
    assert(token@ =~= token_text(decimal_text(expiry as nat), hex_text(signature@), email@));
    token
}

/// The parts of a token that decode, before its signature is checked.
pub struct TokenClaims {
    pub expiry: u64,
    pub signature: String,
    pub email: Email,
    pub payload: String,
}

/// Splits a token into its claims.
pub fn decode_token(token: &str) -> (r: Result<TokenClaims, TokenError>)
    ensures
        r matches Ok(c) ==> token_claims(token@) == Some(
            (c.expiry as nat, c.signature@, c.email@, c.payload@),
        ),
        r is Err ==> r == Err::<TokenClaims, TokenError>(TokenError::Malformed) && token_claims(
            token@,
        ) is None,
{
    let n = token.unicode_len();
    let k1 = find_char(token, '.');
    proof {
        lemma_index_of(token@, '.');
    }
    if k1 == n {
        return Err(TokenError::Malformed);
    }
    let rest = substring(token, k1 + 1, n);
    assert(rest@ == token@.skip(k1 + 1));
    let m = rest.as_str().unicode_len();
    let k2 = find_char(rest.as_str(), '.');
    proof {
        lemma_index_of(rest@, '.');
    }
    if k2 == m {
        return Err(TokenError::Malformed);
    }
    if k1 == 0 || !digits_only(token, 0, k1) {
        return Err(TokenError::Malformed);
    }
    assert(token@.subrange(0, k1 as int) == token@.take(k1 as int));
    let expiry = decimal_capped(token, 0, k1, MAX_EXPIRY);
    if expiry >= MAX_EXPIRY {
        return Err(TokenError::Malformed);
    }
    let signature = substring(rest.as_str(), 0, k2);
    let email_text = substring(rest.as_str(), k2 + 1, m);
    assert(signature@ == rest@.take(k2 as int));
    assert(email_text@ == rest@.skip(k2 + 1));
    let email = match Email::parse(email_text) {
        Ok(e) => e,
        Err(_) => return Err(TokenError::Malformed),
    };
    let mut payload = substring(token, 0, k1 + 1);
    push_range(&mut payload, rest.as_str(), k2 + 1, m);
    assert(payload@ =~= token_payload(token@.take(k1 as int), email@));
    Ok(TokenClaims { expiry, signature, email, payload })
}

/// How long a revocation record for `token` must be kept at `now`: until the token
/// expires. For a text that is no token, or one already expired, a full token lifetime.
pub fn remaining_lifetime(token: &str, now: u64) -> (r: u64)
    ensures
        r == match token_claims(token@) {
            Some((expiry, _, _, _)) => if now < expiry {
                (expiry - now) as u64
            } else {
                TOKEN_TTL_SECONDS
            },
            None => TOKEN_TTL_SECONDS,
        },
{
    match decode_token(token) {
        Ok(claims) => if now < claims.expiry {
            claims.expiry - now
        } else {
            TOKEN_TTL_SECONDS
        },
        Err(_) => TOKEN_TTL_SECONDS,
    }
}

/// Checks decoded claims against the signature recomputed over their payload, and their
/// expiry against `now`.
pub fn check_claims(claims: TokenClaims, expected: &[u8], now: u64) -> (r: Result<
    Email,
    TokenError,
>)
    ensures
        email_result(r) == if hex_text(expected@) != claims.signature@ {
            Err(TokenError::Malformed)
        } else if now >= claims.expiry {
            Err(TokenError::Expired)
        } else {
            Ok(claims.email@)
        },
{
    let mut hex = String::new();
    push_hex(&mut hex, expected);
    assert(hex@ =~= hex_text(expected@));
    if hex != claims.signature {
        return Err(TokenError::Malformed);
    }
    if now >= claims.expiry {
        return Err(TokenError::Expired);
    }
    Ok(claims.email)
}

/// Checks the signature and expiry of a token, without the revocation store.
pub fn check_token_signature(key: &[u8], token: &str, now: u64) -> (r: Result<Email, TokenError>)
    ensures
        email_result(r) == token_check(key@, token@, now),
{
    let claims = match decode_token(token) {
        Ok(c) => c,
        Err(e) => return Err(e),
    };
    match keyed_digest(key, claims.payload.as_str(), TOKEN_SALT, DIGEST_MEMORY_KIB, DIGEST_LEN) {
        Some(sig) => check_claims(claims, sig.as_slice(), now),
        None => Err(TokenError::Malformed),
    }
}

/// Validates a token: signature, expiry, then the revocation store. It yields the address
/// that the token was issued for.
pub fn validate_token<B: BannedTokenStore>(key: &[u8], token: &str, now: u64, banned: &B) -> (r:
    Result<Email, TokenError>)
    ensures
        email_result(r) == token_verdict(key@, token@, now, banned.tokens()) || (r == Err::<
            Email,
            TokenError,
        >(TokenError::Unexpected) && token_check(key@, token@, now) is Ok),
        banned.infallible() ==> email_result(r) == token_verdict(key@, token@, now, banned.tokens()),
{
    let email = match check_token_signature(key, token, now) {
        Ok(e) => e,
        Err(e) => return Err(e),
    };
    match banned.check_token(token) {
        Ok(()) => Err(TokenError::Revoked),
        Err(BannedTokenStoreError::TokenNotPresent) => Ok(email),
        Err(_) => Err(TokenError::Unexpected),
    }
}

} // verus!
