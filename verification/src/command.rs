//! The registration command and the value handed back to its caller.

use vstd::prelude::*;

verus! {

/// A request to register one user: a display name, an email address, and the
/// plaintext password. The plaintext lives only in memory while the command is
/// handled; nothing in this crate stores it.
#[derive(Debug)]
pub struct UserRegisterCommand {
    pub name: String,
    pub email: String,
    pub password: String,
}

/// The only value a successful registration returns: the identifier that the
/// user store assigned.
#[derive(Debug)]
pub struct UserRegisterCommandResult {
    pub id: i32,
}

impl Clone for UserRegisterCommand {
    fn clone(&self) -> (res: Self)
        ensures
            res == *self,
    {
        UserRegisterCommand {
            name: self.name.clone(),
            email: self.email.clone(),
            password: self.password.clone(),
        }
    }
}

impl Clone for UserRegisterCommandResult {
    fn clone(&self) -> (res: Self)
        ensures
            res == *self,
    {
        UserRegisterCommandResult { id: self.id }
    }
}

} // verus!
