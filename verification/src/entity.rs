//! The durable records that a registration produces.
//!
//! Timestamps are kept as milliseconds since the Unix epoch, signed so that a
//! clock set before the epoch still yields a representable value.

use vstd::prelude::*;

verus! {

/// One row of the users table. Created once per successful registration and
/// never changed by the registration pipeline afterwards; `deleted_at` is a
/// soft-delete marker that this pipeline never sets.
#[derive(Debug)]
pub struct User {
    pub id: i32,
    pub name: String,
    pub email: String,
    pub created_at: i64,
    pub updated_at: i64,
    pub deleted_at: Option<i64>,
}

/// One row of the user_security_password table: the salted digest of a user's
/// password, one-to-one with `User`.
#[derive(Debug)]
pub struct UserSecurityPassword {
    pub id: i32,
    pub password_hash: String,
    pub salt: String,
    pub user_id: i32,
    pub created_at: i64,
    pub updated_at: i64,
}

/// One row of the user_security_history table: an append-only audit entry,
/// one-to-many with `User`.
#[derive(Debug)]
pub struct UserSecurityHistory {
    pub id: i64,
    pub user_id: i32,
    pub action_type: String,
    pub ip_address: Option<String>,
    pub device_info: Option<String>,
    pub created_at: i64,
    pub updated_at: Option<i64>,
    pub deleted_at: Option<i64>,
}

/// One row of the system_security_counter table: a process-wide aggregate,
/// keyed uniquely by `counter_type` and incremented atomically on each event
/// of that type.
#[derive(Debug)]
pub struct SystemSecurityCounter {
    pub id: i64,
    pub counter_type: String,
    pub counter_value: i32,
    pub created_at: i64,
    pub updated_at: i64,
}

impl Clone for User {
    fn clone(&self) -> (res: Self)
        ensures
            res == *self,
    {
        User {
            id: self.id,
            name: self.name.clone(),
            email: self.email.clone(),
            created_at: self.created_at,
            updated_at: self.updated_at,
            deleted_at: self.deleted_at,
        }
    }
}

impl Clone for UserSecurityPassword {
    fn clone(&self) -> (res: Self)
        ensures
            res == *self,
    {
        UserSecurityPassword {
            id: self.id,
            password_hash: self.password_hash.clone(),
            salt: self.salt.clone(),
            user_id: self.user_id,
            created_at: self.created_at,
            updated_at: self.updated_at,
        }
    }
}

fn clone_opt_string(s: &Option<String>) -> (res: Option<String>)
    ensures
        res == *s,
{
    match s {
        Option::Some(v) => Option::Some(v.clone()),
        Option::None => Option::None,
    }
}

impl Clone for UserSecurityHistory {
    fn clone(&self) -> (res: Self)
        ensures
            res == *self,
    {
        UserSecurityHistory {
            id: self.id,
            user_id: self.user_id,
            action_type: self.action_type.clone(),
            ip_address: clone_opt_string(&self.ip_address),
            device_info: clone_opt_string(&self.device_info),
            created_at: self.created_at,
            updated_at: self.updated_at,
            deleted_at: self.deleted_at,
        }
    }
}

impl Clone for SystemSecurityCounter {
    fn clone(&self) -> (res: Self)
        ensures
            res == *self,
    {
        SystemSecurityCounter {
            id: self.id,
            counter_type: self.counter_type.clone(),
            counter_value: self.counter_value,
            created_at: self.created_at,
            updated_at: self.updated_at,
        }
    }
}

} // verus!
