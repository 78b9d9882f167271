//! Keys under which an external cache records revoked tokens.

use vstd::prelude::*;
use vstd::string::StringExecFns;

use crate::text::push_range;

verus! {

/// Namespace of the revoked-token keys.
pub const BANNED_TOKEN_KEY_PREFIX: &'static str = "banned_token:";

/// The cache key that marks `token` as revoked.
pub fn get_key(token: &str) -> (r: String)
    ensures
        r@ == BANNED_TOKEN_KEY_PREFIX@ + token@,
{
    let mut key = String::from_str(BANNED_TOKEN_KEY_PREFIX);
    push_range(&mut key, token, 0, token.unicode_len());
    assert(token@.subrange(0, token@.len() as int) == token@);
    key
}

} // verus!
