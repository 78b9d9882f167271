//! A two-factor challenge store held in memory.

use vstd::prelude::*;

use crate::data_store::{TwoFaCodeStore, TwoFaCodeStoreError};
use crate::domain::{Email, LoginAttemptId, TwoFACode};

verus! {

/// One pending challenge: the address, its login attempt id and its code.
pub type Challenge = (Email, LoginAttemptId, TwoFACode);

/// The challenges that a list of records describes; a later record for an address wins.
pub open spec fn codes_of(v: Seq<Challenge>) -> Map<Seq<char>, (Seq<char>, Seq<char>)>
    decreases v.len(),
{
    if v.len() == 0 {
        Map::empty()
    } else {
        codes_of(v.drop_last()).insert(v.last().0@, (v.last().1@, v.last().2@))
    }
}

proof fn lemma_codes_of_absent(v: Seq<Challenge>, k: Seq<char>)
    requires
        forall|j: int| 0 <= j < v.len() ==> (#[trigger] v[j]).0@ != k,
    ensures
        !codes_of(v).contains_key(k),
    decreases v.len(),
{
    if v.len() > 0 {
        lemma_codes_of_absent(v.drop_last(), k);
    }
}

proof fn lemma_codes_of_last(v: Seq<Challenge>, k: Seq<char>, m: int)
    requires
        0 <= m < v.len(),
        v[m].0@ == k,
        forall|j: int| m < j < v.len() ==> (#[trigger] v[j]).0@ != k,
    ensures
        codes_of(v).contains_key(k),
        codes_of(v)[k] == (v[m].1@, v[m].2@),
    decreases v.len(),
{
    if m < v.len() - 1 {
        lemma_codes_of_last(v.drop_last(), k, m);
    }
}

pub struct HashMapTwoFACodeStore {
    codes: Vec<Challenge>,
}

impl HashMapTwoFACodeStore {
    pub fn new() -> (r: HashMapTwoFACodeStore)
        ensures
            r.codes() == Map::<Seq<char>, (Seq<char>, Seq<char>)>::empty(),
    {
        HashMapTwoFACodeStore { codes: Vec::new() }
    }

    fn find(&self, email: &Email) -> (r: Option<usize>)
        ensures
            r matches Some(i) ==> i < self.codes@.len() && self.codes().contains_key(email@)
                && self.codes()[email@] == (self.codes@[i as int].1@, self.codes@[i as int].2@),
            r is None ==> !self.codes().contains_key(email@),
    {
        let mut i: usize = self.codes.len();
        while i > 0
            invariant
                i <= self.codes@.len(),
                forall|j: int| i <= j < self.codes@.len() ==> (#[trigger] self.codes@[j]).0@
                    != email@,
            decreases i,
        {
            if self.codes[i - 1].0 == *email {
                proof {
                    lemma_codes_of_last(self.codes@, email@, i - 1);
                }
                return Some(i - 1);
            }
            i -= 1;
        }
        proof {
            lemma_codes_of_absent(self.codes@, email@);
        }
        None
    }
}

impl TwoFaCodeStore for HashMapTwoFACodeStore {
    open spec fn infallible(&self) -> bool {
        true
    }

    closed spec fn codes(&self) -> Map<Seq<char>, (Seq<char>, Seq<char>)> {
        codes_of(self.codes@)
    }

    fn add_code(&mut self, email: &Email, login_attempt_id: LoginAttemptId, code: TwoFACode) -> (r:
        Result<(), TwoFaCodeStoreError>) {
        if self.find(email).is_some() {
            return Err(TwoFaCodeStoreError::UserHasCode);
        }
        let ghost prev = self.codes@;
        self.codes.push((email.clone(), login_attempt_id, code));
        assert(self.codes@.drop_last() == prev);
        Ok(())
    }

    fn remove_code(&mut self, email: &Email) -> (r: Result<(), TwoFaCodeStoreError>) {
        let mut kept: Vec<Challenge> = Vec::new();
        let ghost old_codes = self.codes@;
        let mut i: usize = 0;
        while i < self.codes.len()
            invariant
                self.codes@ == old_codes,
                i <= old_codes.len(),
                codes_of(kept@) == codes_of(old_codes.take(i as int)).remove(email@),
            decreases old_codes.len() - i,
        {
            let ghost before = kept@;
            assert(old_codes.take(i + 1).drop_last() == old_codes.take(i as int));
            assert(old_codes.take(i + 1).last() == old_codes[i as int]);
            if self.codes[i].0 != *email {
                let entry = (self.codes[i].0.clone(), self.codes[i].1.clone(), self.codes[i].2.clone());
                kept.push(entry);
                assert(kept@.drop_last() == before);
                assert(codes_of(kept@) =~= codes_of(old_codes.take(i + 1)).remove(email@));
            } else {
                assert(codes_of(kept@) =~= codes_of(old_codes.take(i + 1)).remove(email@));
            }
            i += 1;
        }
        assert(old_codes.take(old_codes.len() as int) == old_codes);
        self.codes = kept;
        Ok(())
    }

    fn get_code(&self, email: &Email) -> (r: Result<(LoginAttemptId, TwoFACode), TwoFaCodeStoreError>) {
        match self.find(email) {
            Some(i) => Ok((self.codes[i].1.clone(), self.codes[i].2.clone())),
            None => Err(TwoFaCodeStoreError::CodeNotFound),
        }
    }
}

} // verus!
