//! The security store: password credentials, an append-only audit history,
//! and an aggregate counter keyed by event type.
//!
//! The three writes are independent of each other; each one's contract says
//! exactly which of the three collections it touches. The counter write is an
//! upsert: it creates the counter at 1 when the key is absent and otherwise
//! increments it by one, atomically with respect to other writers — calls
//! through `&mut self` serialize, so no increment can be lost.

use vstd::prelude::*;
use vstd::pervasive::VecAdditionalExecFns;
use crate::clock::now_timestamp_millis;
use crate::entity::SystemSecurityCounter;
use crate::entity::UserSecurityHistory;
use crate::entity::UserSecurityPassword;
use crate::store::StoreError;

verus! {

/// Whether `s` holds a credential row for `user_id`.
pub open spec fn has_credential(s: Seq<UserSecurityPassword>, user_id: int) -> bool {
    exists|i: int| 0 <= i < s.len() && s[i].user_id == user_id
}

/// Whether `s` holds a counter row keyed by `t`.
pub open spec fn has_counter(s: Seq<SystemSecurityCounter>, t: Seq<char>) -> bool
    decreases s.len(),
{
    if s.len() == 0 {
        false
    } else if s.last().counter_type@ == t {
        true
    } else {
        has_counter(s.drop_last(), t)
    }
}

/// The value of the counter keyed by `t`, or 0 when no such row exists.
pub open spec fn counter_value(s: Seq<SystemSecurityCounter>, t: Seq<char>) -> int
    decreases s.len(),
{
    if s.len() == 0 {
        0
    } else if s.last().counter_type@ == t {
        s.last().counter_value as int
    } else {
        counter_value(s.drop_last(), t)
    }
}

/// No two counter rows share a key.
pub open spec fn unique_counter_types(s: Seq<SystemSecurityCounter>) -> bool {
    forall|i: int, j: int| 0 <= i < j < s.len() ==> s[i].counter_type@ != s[j].counter_type@
}

proof fn lemma_counter_lookup(s: Seq<SystemSecurityCounter>, t: Seq<char>, i: int)
    requires
        unique_counter_types(s),
        0 <= i < s.len(),
        s[i].counter_type@ == t,
    ensures
        has_counter(s, t),
        counter_value(s, t) == s[i].counter_value as int,
    decreases s.len(),
{
    if i == s.len() - 1 {
    } else {
        assert(s.last().counter_type@ != t);
        assert(s.drop_last()[i] == s[i]);
        lemma_counter_lookup(s.drop_last(), t, i);
    }
}

proof fn lemma_counter_absent(s: Seq<SystemSecurityCounter>, t: Seq<char>)
    requires
        forall|i: int| 0 <= i < s.len() ==> (#[trigger] s[i]).counter_type@ != t,
    ensures
        !has_counter(s, t),
        counter_value(s, t) == 0,
    decreases s.len(),
{
    if s.len() > 0 {
        assert(s.last() == s[s.len() - 1]);
        lemma_counter_absent(s.drop_last(), t);
    }
}

proof fn lemma_counter_update(s: Seq<SystemSecurityCounter>, i: int, c: SystemSecurityCounter)
    requires
        unique_counter_types(s),
        0 <= i < s.len(),
        c.counter_type@ == s[i].counter_type@,
    ensures
        has_counter(s.update(i, c), c.counter_type@),
        counter_value(s.update(i, c), c.counter_type@) == c.counter_value as int,
        forall|u: Seq<char>|
            u != c.counter_type@ ==> counter_value(s.update(i, c), u) == counter_value(s, u),
        forall|u: Seq<char>|
            u != c.counter_type@ ==> has_counter(s.update(i, c), u) == has_counter(s, u),
    decreases s.len(),
{
    let upd = s.update(i, c);
    if i == s.len() - 1 {
        assert(upd.last() == c);
        assert(upd.drop_last() =~= s.drop_last());
        assert(s.last().counter_type@ == c.counter_type@);
        assert forall|u: Seq<char>| u != c.counter_type@ implies counter_value(upd, u)
            == counter_value(s, u) && has_counter(upd, u) == has_counter(s, u) by {
            assert(counter_value(upd, u) == counter_value(upd.drop_last(), u));
            assert(counter_value(s, u) == counter_value(s.drop_last(), u));
            assert(has_counter(upd, u) == has_counter(upd.drop_last(), u));
            assert(has_counter(s, u) == has_counter(s.drop_last(), u));
        }
    } else {
        assert(upd.last() == s.last());
        assert(upd.drop_last() =~= s.drop_last().update(i, c));
        assert(s.drop_last()[i] == s[i]);
        assert(forall|x: int|
            0 <= x < s.drop_last().len() ==> #[trigger] s.drop_last()[x] == s[x]);
        lemma_counter_update(s.drop_last(), i, c);
        assert(s.last().counter_type@ != c.counter_type@);
        assert(counter_value(upd, c.counter_type@) == counter_value(upd.drop_last(), c.counter_type@));
        assert(has_counter(upd, c.counter_type@));
        assert forall|u: Seq<char>| u != c.counter_type@ implies counter_value(upd, u)
            == counter_value(s, u) && has_counter(upd, u) == has_counter(s, u) by {
            if u == s.last().counter_type@ {
                assert(counter_value(upd, u) == upd.last().counter_value as int);
                assert(counter_value(s, u) == s.last().counter_value as int);
            } else {
                assert(counter_value(upd, u) == counter_value(upd.drop_last(), u));
                assert(counter_value(s, u) == counter_value(s.drop_last(), u));
                assert(has_counter(upd, u) == has_counter(upd.drop_last(), u));
                assert(has_counter(s, u) == has_counter(s.drop_last(), u));
            }
        }
    }
}

#[derive(Debug)]
pub struct UserSecurityRepository {
    credentials: Vec<UserSecurityPassword>,
    history: Vec<UserSecurityHistory>,
    counters: Vec<SystemSecurityCounter>,
    next_credential_id: i32,
    next_history_id: i64,
    next_counter_id: i64,
}

impl UserSecurityRepository {
    /// The credential rows, oldest first.
    pub closed spec fn credentials(self) -> Seq<UserSecurityPassword> {
        self.credentials@
    }

    /// The audit rows, oldest first.
    pub closed spec fn history(self) -> Seq<UserSecurityHistory> {
        self.history@
    }

    /// The counter rows.
    pub closed spec fn counters(self) -> Seq<SystemSecurityCounter> {
        self.counters@
    }

    /// The id the next credential insert will assign.
    pub closed spec fn fresh_credential_id(self) -> int {
        self.next_credential_id as int
    }

    /// The id the next audit insert will assign.
    pub closed spec fn fresh_history_id(self) -> int {
        self.next_history_id as int
    }

    /// The id the next freshly created counter row will get.
    pub closed spec fn fresh_counter_id(self) -> int {
        self.next_counter_id as int
    }

    /// The store's invariant: ids of each collection start at 1, ascend with
    /// insertion order and stay below the next one to be assigned; each user
    /// has at most one credential row; counter keys are unique and counter
    /// values at least 1.
    pub closed spec fn wf(self) -> bool {
        &&& 1 <= self.next_credential_id
        &&& 1 <= self.next_history_id
        &&& 1 <= self.next_counter_id
        &&& forall|i: int|
            0 <= i < self.credentials@.len() ==> 1 <= (#[trigger] self.credentials@[i]).id
                < self.next_credential_id
        &&& forall|i: int, j: int|
            0 <= i < j < self.credentials@.len() ==> self.credentials@[i].id
                < self.credentials@[j].id
        &&& forall|i: int, j: int|
            0 <= i < j < self.credentials@.len() ==> self.credentials@[i].user_id
                != self.credentials@[j].user_id
        &&& forall|i: int|
            0 <= i < self.history@.len() ==> 1 <= (#[trigger] self.history@[i]).id
                < self.next_history_id
        &&& forall|i: int, j: int|
            0 <= i < j < self.history@.len() ==> self.history@[i].id < self.history@[j].id
        &&& forall|i: int|
            0 <= i < self.counters@.len() ==> 1 <= (#[trigger] self.counters@[i]).id
                < self.next_counter_id
        &&& forall|i: int, j: int|
            0 <= i < j < self.counters@.len() ==> self.counters@[i].id < self.counters@[j].id
        &&& unique_counter_types(self.counters@)
        &&& forall|i: int|
            0 <= i < self.counters@.len() ==> 1 <= (#[trigger] self.counters@[i]).counter_value
    }

    /// An empty store.
    pub fn new() -> (r: Self)
        ensures
            r.wf(),
            r.credentials() == Seq::<UserSecurityPassword>::empty(),
            r.history() == Seq::<UserSecurityHistory>::empty(),
            r.counters() == Seq::<SystemSecurityCounter>::empty(),
            r.fresh_credential_id() == 1,
            r.fresh_history_id() == 1,
            r.fresh_counter_id() == 1,
    {
        UserSecurityRepository {
            credentials: Vec::new(),
            history: Vec::new(),
            counters: Vec::new(),
            next_credential_id: 1,
            next_history_id: 1,
            next_counter_id: 1,
        }
    }

    /// How many credential rows the store holds.
    pub fn credential_count(&self) -> (n: usize)
        ensures
            n == self.credentials().len(),
    {
        self.credentials.len()
    }

    /// The `i`th credential row, oldest first.
    pub fn credential_at(&self, i: usize) -> (c: &UserSecurityPassword)
        requires
            i < self.credentials().len(),
        ensures
            *c == self.credentials()[i as int],
    {
        &self.credentials[i]
    }

    /// How many audit rows the store holds.
    pub fn history_count(&self) -> (n: usize)
        ensures
            n == self.history().len(),
    {
        self.history.len()
    }

    /// The `i`th audit row, oldest first.
    pub fn history_at(&self, i: usize) -> (h: &UserSecurityHistory)
        requires
            i < self.history().len(),
        ensures
            *h == self.history()[i as int],
    {
        &self.history[i]
    }

    /// How many counter rows the store holds.
    pub fn counter_count(&self) -> (n: usize)
        ensures
            n == self.counters().len(),
    {
        self.counters.len()
    }

    /// The `i`th counter row.
    pub fn counter_at(&self, i: usize) -> (c: &SystemSecurityCounter)
        requires
            i < self.counters().len(),
        ensures
            *c == self.counters()[i as int],
    {
        &self.counters[i]
    }

    /// Create one credential row for `user_id`. Each user may have at most
    /// one: a second insert for the same user violates the unique constraint
    /// and is refused, as is a write once the id space is exhausted. A
    /// refused write leaves the store untouched; the audit rows and counters
    /// are never touched.
    pub fn insert_password(&mut self, user_id: i32, password_hash: String, salt: String) -> (r:
        Result<i32, StoreError>)
        requires
            old(self).wf(),
        ensures
            final(self).wf(),
            r is Ok <==> !has_credential(old(self).credentials(), user_id as int) && old(
                self,
            ).fresh_credential_id() < i32::MAX,
            r matches Ok(id) ==> ({
                let c = final(self).credentials().last();
                &&& id == old(self).fresh_credential_id()
                &&& final(self).credentials() == old(self).credentials().push(c)
                &&& c.id == id
                &&& c.user_id == user_id
                &&& c.password_hash == password_hash
                &&& c.salt == salt
                &&& c.created_at == c.updated_at
                &&& final(self).fresh_credential_id() == old(self).fresh_credential_id() + 1
            }),
            r matches Err(e) ==> e == StoreError::Constraint && *final(self) == *old(self),
            r is Err ==> has_credential(old(self).credentials(), user_id as int) || old(
                self,
            ).fresh_credential_id() == i32::MAX,
            final(self).history() == old(self).history(),
            final(self).counters() == old(self).counters(),
            final(self).fresh_history_id() == old(self).fresh_history_id(),
            final(self).fresh_counter_id() == old(self).fresh_counter_id(),
    {
        let n = self.credentials.len();
        let mut i: usize = 0;
        while i < n
            invariant
                *self == *old(self),
                old(self).wf(),
                n == self.credentials@.len(),
                i <= n,
                forall|j: int| 0 <= j < i ==> (#[trigger] self.credentials@[j]).user_id != user_id,
            decreases n - i,
        {
            if self.credentials[i].user_id == user_id {
                return Err(StoreError::Constraint);
            }
            i += 1;
        }
        if self.next_credential_id == i32::MAX {
            return Err(StoreError::Constraint);
        }
        let now = now_timestamp_millis();
        let id = self.next_credential_id;
        let row = UserSecurityPassword {
            id,
            password_hash,
            salt,
            user_id,
            created_at: now,
            updated_at: now,
        };
        self.credentials.push(row);
        self.next_credential_id = id + 1;
        Ok(id)
    }

    /// Append one audit row for `user_id`. An append is refused only once the
    /// id space is exhausted; nothing else of the store is touched.
    pub fn insert_security_history(
        &mut self,
        user_id: i32,
        action_type: String,
        ip_address: Option<String>,
        device_info: Option<String>,
    ) -> (r: Result<i64, StoreError>)
        requires
            old(self).wf(),
        ensures
            final(self).wf(),
            r is Ok <==> old(self).fresh_history_id() < i64::MAX,
            r matches Ok(id) ==> ({
                let h = final(self).history().last();
                &&& id == old(self).fresh_history_id()
                &&& final(self).history() == old(self).history().push(h)
                &&& h.id == id
                &&& h.user_id == user_id
                &&& h.action_type == action_type
                &&& h.ip_address == ip_address
                &&& h.device_info == device_info
                &&& h.updated_at is None
                &&& h.deleted_at is None
                &&& final(self).fresh_history_id() == old(self).fresh_history_id() + 1
            }),
            r matches Err(e) ==> e == StoreError::Constraint && *final(self) == *old(self),
            r is Err ==> old(self).fresh_history_id() == i64::MAX,
            final(self).credentials() == old(self).credentials(),
            final(self).counters() == old(self).counters(),
            final(self).fresh_credential_id() == old(self).fresh_credential_id(),
            final(self).fresh_counter_id() == old(self).fresh_counter_id(),
    {
        if self.next_history_id == i64::MAX {
            return Err(StoreError::Constraint);
        }
        let now = now_timestamp_millis();
        let id = self.next_history_id;
        let row = UserSecurityHistory {
            id,
            user_id,
            action_type,
            ip_address,
            device_info,
            created_at: now,
            updated_at: None,
            deleted_at: None,
        };
        self.history.push(row);
        self.next_history_id = id + 1;
        Ok(id)
    }

    /// Upsert the counter keyed by `counter_type`: create it at 1 when it is
    /// absent, otherwise increment it by 1, and return the post-increment
    /// value. Counters of other keys, the credential rows and the audit rows
    /// are untouched. The write is refused only when the present value or the
    /// id space would overflow, and then the store is untouched.
    pub fn insert_security_counter(&mut self, counter_type: String) -> (r: Result<i64, StoreError>)
        requires
            old(self).wf(),
        ensures
            final(self).wf(),
            r is Ok <==> (if has_counter(old(self).counters(), counter_type@) {
                counter_value(old(self).counters(), counter_type@) < i32::MAX
            } else {
                old(self).fresh_counter_id() < i64::MAX
            }),
            r matches Ok(v) ==> ({
                &&& v >= 1
                &&& v == counter_value(old(self).counters(), counter_type@) + 1
                &&& has_counter(final(self).counters(), counter_type@)
                &&& counter_value(final(self).counters(), counter_type@) == counter_value(
                    old(self).counters(),
                    counter_type@,
                ) + 1
                &&& has_counter(old(self).counters(), counter_type@) ==> final(self).counters().len() == old(self).counters().len()
                &&& !has_counter(old(self).counters(), counter_type@) ==> final(self).counters().len() == old(self).counters().len() + 1
            }),
            r is Ok ==> forall|u: Seq<char>|
                u != counter_type@ ==> counter_value(final(self).counters(), u) == counter_value(
                    old(self).counters(),
                    u,
                ),
            r is Ok ==> forall|u: Seq<char>|
                u != counter_type@ ==> has_counter(final(self).counters(), u) == has_counter(
                    old(self).counters(),
                    u,
                ),
            r matches Err(e) ==> e == StoreError::Constraint && *final(self) == *old(self),
            r is Err ==> (if has_counter(old(self).counters(), counter_type@) {
                counter_value(old(self).counters(), counter_type@) == i32::MAX
            } else {
                old(self).fresh_counter_id() == i64::MAX
            }),
            final(self).credentials() == old(self).credentials(),
            final(self).history() == old(self).history(),
            final(self).fresh_credential_id() == old(self).fresh_credential_id(),
            final(self).fresh_history_id() == old(self).fresh_history_id(),
    {
        let n = self.counters.len();
        let mut i: usize = 0;
        while i < n
            invariant
                *self == *old(self),
                old(self).wf(),
                n == self.counters@.len(),
                i <= n,
                forall|j: int|
                    0 <= j < i ==> (#[trigger] self.counters@[j]).counter_type@ != counter_type@,
            decreases n - i,
        {
            if self.counters[i].counter_type == counter_type {
                proof {
                    lemma_counter_lookup(self.counters@, counter_type@, i as int);
                }
                let cur = self.counters[i].counter_value;
                if cur == i32::MAX {
                    return Err(StoreError::Constraint);
                }
                let mut row = self.counters[i].clone();
                row.counter_value = cur + 1;
                row.updated_at = now_timestamp_millis();
                proof {
                    lemma_counter_update(self.counters@, i as int, row);
                }
                self.counters.set(i, row);
                return Ok((cur + 1) as i64);
            }
            i += 1;
        }
        proof {
            lemma_counter_absent(self.counters@, counter_type@);
        }
        if self.next_counter_id == i64::MAX {
            return Err(StoreError::Constraint);
        }
        let now = now_timestamp_millis();
        let id = self.next_counter_id;
        let row = SystemSecurityCounter {
            id,
            counter_type,
            counter_value: 1,
            created_at: now,
            updated_at: now,
        };
        proof {
            assert(self.counters@.push(row).drop_last() =~= self.counters@);
        }
        self.counters.push(row);
        self.next_counter_id = id + 1;
        Ok(1)
    }
}

/// Law: n consecutive upserts of one counter type, against a store where that
/// counter is absent, leave it at exactly n — no increment is lost. Upserts
/// are atomic at the store, so concurrent callers serialize into exactly such
/// a sequence of calls.
pub fn counter_upserts_accumulate(
    repo: &mut UserSecurityRepository,
    counter_type: &str,
    n: u32,
)
    requires
        old(repo).wf(),
        !has_counter(old(repo).counters(), counter_type@),
        old(repo).fresh_counter_id() < i64::MAX,
        n as int <= i32::MAX,
    ensures
        final(repo).wf(),
        has_counter(final(repo).counters(), counter_type@) == (n > 0),
        counter_value(final(repo).counters(), counter_type@) == n as int,
{
    proof {
        lemma_counter_absent_from_spec(repo.counters(), counter_type@);
    }
    if n == 0 {
        return;
    }
    match repo.insert_security_counter(counter_type.to_owned()) {
        Ok(_) => {},
        Err(_) => {
            proof {
                assert(false);
            }
            return;
        },
    }
    let mut k: u32 = 1;
    while k < n
        invariant
            repo.wf(),
            1 <= k <= n,
            n as int <= i32::MAX,
            has_counter(repo.counters(), counter_type@),
            counter_value(repo.counters(), counter_type@) == k as int,
        decreases n - k,
    {
        match repo.insert_security_counter(counter_type.to_owned()) {
            Ok(_) => {},
            Err(_) => {
                proof {
                    assert(false);
                }
                return;
            },
        }
        k += 1;
    }
}

proof fn lemma_counter_absent_from_spec(s: Seq<SystemSecurityCounter>, t: Seq<char>)
    requires
        !has_counter(s, t),
    ensures
        counter_value(s, t) == 0,
    decreases s.len(),
{
    if s.len() > 0 {
        lemma_counter_absent_from_spec(s.drop_last(), t);
    }
}

} // verus!
