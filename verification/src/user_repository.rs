//! The user store: durable identity records, one per registration.
//!
//! The store is modelled as the sequence of rows it holds together with the
//! identifier that the next insert will assign. Identifiers are assigned in
//! ascending order, so they are unique and stable once given out.

use vstd::prelude::*;
use crate::clock::now_timestamp_millis;
use crate::entity::User;
use crate::store::StoreError;

verus! {

#[derive(Debug)]
pub struct UserRepository {
    users: Vec<User>,
    next_id: i32,
}

impl UserRepository {
    /// The rows the store holds, oldest first.
    pub closed spec fn users(self) -> Seq<User> {
        self.users@
    }

    /// The identifier the next successful insert will assign.
    pub closed spec fn fresh_id(self) -> int {
        self.next_id as int
    }

    /// The store's invariant: identifiers start at 1, ascend strictly with
    /// insertion order, and stay below the one to be assigned next.
    pub closed spec fn wf(self) -> bool {
        &&& 1 <= self.next_id
        &&& forall|i: int|
            0 <= i < self.users@.len() ==> 1 <= (#[trigger] self.users@[i]).id < self.next_id
        &&& forall|i: int, j: int|
            0 <= i < j < self.users@.len() ==> self.users@[i].id < self.users@[j].id
    }

    /// An empty store; the first insert will assign id 1.
    pub fn new() -> (r: Self)
        ensures
            r.wf(),
            r.users() == Seq::<User>::empty(),
            r.fresh_id() == 1,
    {
        UserRepository { users: Vec::new(), next_id: 1 }
    }

    /// How many rows the store holds.
    pub fn user_count(&self) -> (n: usize)
        ensures
            n == self.users().len(),
    {
        self.users.len()
    }

    /// The `i`th row, oldest first.
    pub fn user_at(&self, i: usize) -> (u: &User)
        requires
            i < self.users().len(),
        ensures
            *u == self.users()[i as int],
    {
        &self.users[i]
    }

    /// Append one user row. The store assigns the next free identifier and
    /// stamps `created_at` and `updated_at` with one instant; `deleted_at`
    /// starts unset. The write is refused only when the identifier space is
    /// exhausted, and a refused write leaves the store untouched.
    pub fn insert(&mut self, name: String, email: String) -> (r: Result<User, StoreError>)
        requires
            old(self).wf(),
        ensures
            final(self).wf(),
            r is Ok <==> old(self).fresh_id() < i32::MAX,
            r matches Ok(user) ==> ({
                &&& user.id == old(self).fresh_id()
                &&& user.name == name
                &&& user.email == email
                &&& user.created_at == user.updated_at
                &&& user.deleted_at is None
                &&& final(self).users() == old(self).users().push(user)
                &&& final(self).fresh_id() == old(self).fresh_id() + 1
            }),
            r matches Err(e) ==> e == StoreError::Constraint && *final(self) == *old(self),
            r is Err ==> old(self).fresh_id() == i32::MAX,
    {
        if self.next_id == i32::MAX {
            return Err(StoreError::Constraint);
        }
        let now = now_timestamp_millis();
        let user = User {
            id: self.next_id,
            name,
            email,
            created_at: now,
            updated_at: now,
            deleted_at: None,
        };
        let stored = user.clone();
        self.users.push(stored);
        self.next_id = self.next_id + 1;
        Ok(user)
    }
}

} // verus!
