//! A user store held in memory, for tests and local runs.

use vstd::prelude::*;

use crate::data_store::{UserStore, UserStoreError};
use crate::domain::{Email, Password, User};
use crate::hashing::verify_password_hash;

verus! {

/// The users that a list of records describes; a later record for an address wins.
pub open spec fn users_of(v: Seq<User>) -> Map<Seq<char>, (Seq<char>, Seq<char>, bool)>
    decreases v.len(),
{
    if v.len() == 0 {
        Map::empty()
    } else {
        users_of(v.drop_last()).insert(v.last().email@, v.last()@)
    }
}

proof fn lemma_users_of_absent(v: Seq<User>, k: Seq<char>)
    requires
        forall|j: int| 0 <= j < v.len() ==> (#[trigger] v[j]).email@ != k,
    ensures
        !users_of(v).contains_key(k),
    decreases v.len(),
{
    if v.len() > 0 {
        lemma_users_of_absent(v.drop_last(), k);
    }
}

proof fn lemma_users_of_last(v: Seq<User>, k: Seq<char>, m: int)
    requires
        0 <= m < v.len(),
        v[m].email@ == k,
        forall|j: int| m < j < v.len() ==> (#[trigger] v[j]).email@ != k,
    ensures
        users_of(v).contains_key(k),
        users_of(v)[k] == v[m]@,
    decreases v.len(),
{
    if m < v.len() - 1 {
        lemma_users_of_last(v.drop_last(), k, m);
    }
}

pub struct HashmapUserStore {
    users: Vec<User>,
}

impl HashmapUserStore {
    pub fn new() -> (r: HashmapUserStore)
        ensures
            r.users() == Map::<Seq<char>, (Seq<char>, Seq<char>, bool)>::empty(),
    {
        HashmapUserStore { users: Vec::new() }
    }

    /// Position of the record that describes `email`.
    fn find(&self, email: &Email) -> (r: Option<usize>)
        ensures
            r matches Some(i) ==> i < self.users@.len() && self.users().contains_key(email@)
                && self.users()[email@] == self.users@[i as int]@,
            r is None ==> !self.users().contains_key(email@),
    {
        let mut i: usize = self.users.len();
        while i > 0
            invariant
                i <= self.users@.len(),
                forall|j: int| i <= j < self.users@.len() ==> (#[trigger] self.users@[j]).email@
                    != email@,
            decreases i,
        {
            if self.users[i - 1].email == *email {
                proof {
                    lemma_users_of_last(self.users@, email@, i - 1);
                }
                return Some(i - 1);
            }
            i -= 1;
        }
        proof {
            lemma_users_of_absent(self.users@, email@);
        }
        None
    }
}

impl UserStore for HashmapUserStore {
    open spec fn infallible(&self) -> bool {
        true
    }

    closed spec fn users(&self) -> Map<Seq<char>, (Seq<char>, Seq<char>, bool)> {
        users_of(self.users@)
    }

    fn add_user(&mut self, user: User) -> (r: Result<(), UserStoreError>) {
        if self.find(&user.email).is_some() {
            return Err(UserStoreError::UserAlreadyExists);
        }
        let ghost prev = self.users@;
        self.users.push(user);
        assert(self.users@.drop_last() == prev);
        Ok(())
    }

    fn get_user(&self, email: &Email) -> (r: Result<User, UserStoreError>) {
        match self.find(email) {
            Some(i) => Ok(self.users[i].clone()),
            None => Err(UserStoreError::UserNotFound),
        }
    }

    fn validate_user(&self, email: &Email, password: &Password) -> (r: Result<(), UserStoreError>) {
        match self.find(email) {
            Some(i) => match verify_password_hash(self.users[i].password_hash.as_str(), password) {
                Ok(()) => Ok(()),
                Err(_) => Err(UserStoreError::InvalidCredentials),
            },
            None => Err(UserStoreError::UserNotFound),
        }
    }
}

} // verus!
