//! Salted, memory-hard password hashing with Argon2.

use vstd::prelude::*;

use argon2::password_hash::{PasswordHash, PasswordHasher, PasswordVerifier, SaltString};
use argon2::{Algorithm, Argon2, Params, Version};
use rand_core::OsRng;

use vstd::string::StringExecFns;

use crate::domain::Password;
use crate::text::{decimal_text, has_prefix, push_decimal, starts_with};

verus! {

/// Memory cost of a password hash, in KiB.
pub const HASH_MEMORY_KIB: u32 = 15000;

/// Number of passes over the memory.
pub const HASH_PASSES: u32 = 2;

/// Degree of parallelism.
pub const HASH_LANES: u32 = 1;

/// The PHC string that Argon2id (version 0x13) gives for a password, a B64 salt and the
/// cost parameters `(memory, passes, lanes)`; `None` where the crate refuses the inputs.
pub uninterp spec fn argon2_phc_hash(
    password: Seq<char>,
    salt: Seq<char>,
    memory: u32,
    passes: u32,
    lanes: u32,
) -> Option<Seq<char>>;

/// Whether a candidate password matches a PHC hash string, by the parameters and salt
/// that the string carries.
pub uninterp spec fn argon2_verifies(hash: Seq<char>, candidate: Seq<char>) -> bool;

/// Whether Argon2 accepts these cost parameters (argon2::Params::new): at least one pass,
/// between one and 0xFFFFFF lanes, and at least 8 KiB of memory per lane.
pub open spec fn argon2_params_valid(memory: u32, passes: u32, lanes: u32) -> bool {
    1 <= passes && 1 <= lanes <= 0xFF_FFFF && 8 * lanes <= memory
}

/// The start of the PHC string of an Argon2id (version 0x13) hash with the given cost
/// parameters: the algorithm, version and parameter fields, up to the `$` before the salt.
pub open spec fn phc_params_prefix(memory: u32, passes: u32, lanes: u32) -> Seq<char> {
    "$argon2id$v=19$m="@ + decimal_text(memory as nat) + ",t="@ + decimal_text(passes as nat)
        + ",p="@ + decimal_text(lanes as nat) + "$"@
}

/// The start of every hash that this service stores.
pub open spec fn service_hash_prefix() -> Seq<char> {
    phc_params_prefix(HASH_MEMORY_KIB, HASH_PASSES, HASH_LANES)
}

/// A stored hash accepts a candidate password: it is a hash of this service's kind, and
/// the candidate verifies against it.
pub open spec fn password_matches(hash: Seq<char>, candidate: Seq<char>) -> bool {
    has_prefix(hash, service_hash_prefix()) && argon2_verifies(hash, candidate)
}

/// Relies on argon2::password_hash::SaltString::generate, fed by rand_core::OsRng: a
/// fresh random salt, the B64 text of 16 bytes. Argon2 hashes with such a salt under
/// any valid parameters; it refuses only a password of more than 0xFFFFFFFF bytes.
#[verifier::external_body]
fn generate_salt() -> (r: String)
    ensures
        forall|password: Seq<char>, memory: u32, passes: u32, lanes: u32|
            password.len() <= 0x3FFF_FFFF && argon2_params_valid(memory, passes, lanes)
                ==> (#[trigger] argon2_phc_hash(password, r@, memory, passes, lanes)) is Some,
{
    SaltString::generate(&mut OsRng).as_str().to_string()
}

/// Relies on argon2::Params::new, argon2::Argon2::new and PasswordHasher::hash_password:
/// the PHC string of the hash, which the Display of PasswordHash writes as
/// `$argon2id$v=19$m=<memory>,t=<passes>,p=<lanes>$<salt>$<hash>`. A password hashed this
/// way is accepted again by PasswordVerifier::verify_password, which re-hashes the
/// candidate with the salt and parameters read from that string. Params::new computes
/// `lanes * 8` in u32, so the parameters must be valid.
#[verifier::external_body]
fn argon2_hash(password: &str, salt: &str, memory: u32, passes: u32, lanes: u32) -> (r: Option<
    String,
>)
    requires
        argon2_params_valid(memory, passes, lanes),
    ensures
        r is Some ==> has_prefix(r->0@, phc_params_prefix(memory, passes, lanes)),
        r is Some <==> argon2_phc_hash(password@, salt@, memory, passes, lanes) is Some,
        r is Some ==> r->0@ == argon2_phc_hash(password@, salt@, memory, passes, lanes)->0,
        r is Some ==> argon2_verifies(r->0@, password@),
{
    let salt = SaltString::from_b64(salt).ok()?;
    let params = Params::new(memory, passes, lanes, None).ok()?;
    let hasher = Argon2::new(Algorithm::Argon2id, Version::V0x13, params);
    match hasher.hash_password(password.as_bytes(), &salt) {
        Ok(hash) => Some(hash.to_string()),
        Err(_) => None,
    }
}

/// Relies on argon2::password_hash::PasswordHash::new and PasswordVerifier::verify_password
/// of argon2::Argon2: whether the candidate matches the hash string. Verification builds
/// Params from the string's own parameters, so it is only called on strings with this
/// service's parameters: a lane count of 0x20000000 or more would overflow in
/// Params::new, and a large memory cost would be allocated.
#[verifier::external_body]
fn argon2_verify(hash: &str, candidate: &str) -> (r: bool)
    requires
        has_prefix(hash@, service_hash_prefix()),
    ensures
        r == argon2_verifies(hash@, candidate@),
{
    match PasswordHash::new(hash) {
        Ok(parsed) => Argon2::default().verify_password(candidate.as_bytes(), &parsed).is_ok(),
        Err(_) => false,
    }
}

#[derive(Debug, PartialEq, Eq, Structural)]
pub enum PasswordHashError {
    /// The candidate password does not match the hash.
    Mismatch,
    /// The hash could not be computed.
    HashingFailed,
}

/// The hash that a password gets with a given salt under this service's cost parameters.
pub open spec fn password_hash_with_salt(password: Seq<char>, salt: Seq<char>) -> Option<
    Seq<char>,
> {
    argon2_phc_hash(password, salt, HASH_MEMORY_KIB, HASH_PASSES, HASH_LANES)
}

/// Hashes a password with a fresh random salt: the result is the PHC string of an
/// Argon2id hash, and the password verifies against it.
pub fn compute_password_hash(password: &Password) -> (r: Result<String, PasswordHashError>)
    ensures
        password@.len() <= 0x3FFF_FFFF ==> r is Ok,
        r is Err ==> exists|salt: Seq<char>| password_hash_with_salt(password@, salt) is None,
        r matches Ok(h) ==> password_matches(h@, password@),
        r matches Ok(h) ==> exists|salt: Seq<char>| password_hash_with_salt(password@, salt)
            == Some(h@),
        r is Err ==> r == Err::<String, PasswordHashError>(PasswordHashError::HashingFailed),
{
    let salt = generate_salt();
    assert(argon2_params_valid(HASH_MEMORY_KIB, HASH_PASSES, HASH_LANES));
    match argon2_hash(
        password.expose_secret(),
        salt.as_str(),
        HASH_MEMORY_KIB,
        HASH_PASSES,
        HASH_LANES,
    ) {
        Some(hash) => {
            assert(password_hash_with_salt(password@, salt@) == Some(hash@));
            Ok(hash)
        },
        None => {
            assert(password_hash_with_salt(password@, salt@) is None);
            Err(PasswordHashError::HashingFailed)
        },
    }
}

/// The text of `service_hash_prefix()`.
fn hash_prefix_text() -> (r: String)
    ensures
        r@ == service_hash_prefix(),
{
    let mut s = String::from_str("$argon2id$v=19$m=");
    push_decimal(&mut s, HASH_MEMORY_KIB as u64);
    s.append(",t=");
    push_decimal(&mut s, HASH_PASSES as u64);
    s.append(",p=");
    push_decimal(&mut s, HASH_LANES as u64);
    s.append("$");
    s
}

/// Checks a candidate password against a stored hash; plain texts are never compared. A
/// hash that this service did not produce (other parameters, or no PHC string at all)
/// accepts no password.
pub fn verify_password_hash(expected_hash: &str, candidate: &Password) -> (r: Result<
    (),
    PasswordHashError,
>)
    ensures
        r is Ok <==> password_matches(expected_hash@, candidate@),
        r is Err ==> r == Err::<(), PasswordHashError>(PasswordHashError::Mismatch),
{
    let prefix = hash_prefix_text();
    if !starts_with(expected_hash, prefix.as_str()) {
        return Err(PasswordHashError::Mismatch);
    }
    if argon2_verify(expected_hash, candidate.expose_secret()) {
        Ok(())
    } else {
        Err(PasswordHashError::Mismatch)
    }
}

} // verus!
