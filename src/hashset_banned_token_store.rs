//! A revocation store held in memory.

use vstd::prelude::*;
use vstd::string::StringExecFns;

use crate::data_store::{BannedTokenStore, BannedTokenStoreError};

verus! {

/// The tokens that a list names.
pub open spec fn tokens_of(v: Seq<String>) -> Set<Seq<char>>
    decreases v.len(),
{
    if v.len() == 0 {
        Set::empty()
    } else {
        tokens_of(v.drop_last()).insert(v.last()@)
    }
}

proof fn lemma_tokens_of(v: Seq<String>, t: Seq<char>)
    ensures
        tokens_of(v).contains(t) <==> exists|j: int| 0 <= j < v.len() && (#[trigger] v[j])@ == t,
    decreases v.len(),
{
    if v.len() > 0 {
        lemma_tokens_of(v.drop_last(), t);
        if tokens_of(v.drop_last()).contains(t) {
            let j = choose|j: int| 0 <= j < v.len() - 1 && (#[trigger] v.drop_last()[j])@ == t;
            assert(v[j] == v.drop_last()[j]);
        }
        if exists|j: int| 0 <= j < v.len() && (#[trigger] v[j])@ == t {
            let j = choose|j: int| 0 <= j < v.len() && (#[trigger] v[j])@ == t;
            if j < v.len() - 1 {
                assert(v.drop_last()[j] == v[j]);
            }
        }
    }
}

pub struct HashsetBannedTokenStore {
    tokens: Vec<String>,
}

impl HashsetBannedTokenStore {
    pub fn new() -> (r: HashsetBannedTokenStore)
        ensures
            r.tokens() == Set::<Seq<char>>::empty(),
    {
        HashsetBannedTokenStore { tokens: Vec::new() }
    }

    fn holds(&self, token: &str) -> (r: bool)
        ensures
            r == self.tokens().contains(token@),
    {
        let wanted = String::from_str(token);
        let mut i: usize = 0;
        while i < self.tokens.len()
            invariant
                wanted@ == token@,
                i <= self.tokens@.len(),
                forall|j: int| 0 <= j < i ==> (#[trigger] self.tokens@[j])@ != token@,
            decreases self.tokens@.len() - i,
        {
            if self.tokens[i] == wanted {
                proof {
                    lemma_tokens_of(self.tokens@, token@);
                }
                return true;
            }
            i += 1;
        }
        proof {
            lemma_tokens_of(self.tokens@, token@);
        }
        false
    }
}

impl BannedTokenStore for HashsetBannedTokenStore {
    open spec fn infallible(&self) -> bool {
        true
    }

    closed spec fn tokens(&self) -> Set<Seq<char>> {
        tokens_of(self.tokens@)
    }

    fn store_token(&mut self, token: String) -> (r: Result<(), BannedTokenStoreError>) {
        if self.holds(token.as_str()) {
            return Err(BannedTokenStoreError::TokenAlreadyBanned);
        }
        let ghost prev = self.tokens@;
        self.tokens.push(token);
        assert(self.tokens@.drop_last() == prev);
        Ok(())
    }

    fn check_token(&self, token: &str) -> (r: Result<(), BannedTokenStoreError>) {
        if !self.holds(token) {
            return Err(BannedTokenStoreError::TokenNotPresent);
        }
        Ok(())
    }
}

} // verus!
