//! The two connection strings the process is wired with.

use vstd::prelude::*;

verus! {

/// Where the durable store and the message broker live. Reading these from
/// the environment belongs to the bootstrap layer; the settings themselves
/// only carry the values.
#[derive(Debug)]
pub struct Settings {
    pub database: String,
    pub nats: String,
}

impl Settings {
    pub fn new(database: String, nats: String) -> (r: Self)
        ensures
            r.database == database,
            r.nats == nats,
    {
        Settings { database, nats }
    }
}

} // verus!
