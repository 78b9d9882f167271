//! Credential and session lifecycle engine of an authentication service: validated value
//! types, password hashing, the user, revocation and two-factor stores, signed session
//! tokens, and the flows that compose them.

pub mod data_store;
pub mod domain;
pub mod hashing;
pub mod hashmap_two_fa_code_store;
pub mod hashmap_user_store;
pub mod hashset_banned_token_store;
pub mod redis_banned_token_stores;
pub mod redis_two_fa_code_store;
pub mod routes;
pub mod text;
pub mod token;
