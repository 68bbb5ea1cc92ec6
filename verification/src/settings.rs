//! What the surrounding program needs to know to reach the store and to
//! listen for requests.

use vstd::prelude::*;

verus! {

/// How the pool treats a connection that comes back from a request.
#[derive(Debug, Clone, Copy, PartialEq, Eq)]
pub enum RecyclePolicy {
    /// Hand it out again without a round trip to the store. A connection
    /// that died while idle is found out only by the request that gets it.
    Fast,
    /// Check with the store that it is alive before handing it out again.
    Verified,
}

/// The settings of one gateway process.
#[derive(Debug, PartialEq, Eq)]
pub struct Settings {
    pub host: String,
    pub dbname: String,
    pub user: String,
    pub password: String,
    pub recycle_policy: RecyclePolicy,
    pub bind_addr: String,
    pub bind_port: u16,
}

impl Settings {
    /// The settings for a store on this machine: database `Demo` on
    /// `localhost`, fast recycling, and the listener on `127.0.0.1:8080`.
    pub fn local() -> (settings: Settings)
        ensures
            settings.host@ == "localhost"@,
            settings.dbname@ == "Demo"@,
            settings.user@ == "postgres"@,
            settings.password@ == "sanjay"@,
            settings.recycle_policy == RecyclePolicy::Fast,
            settings.bind_addr@ == "127.0.0.1"@,
            settings.bind_port == 8080,
    {
        Settings {
            host: "localhost".to_owned(),
            dbname: "Demo".to_owned(),
            user: "postgres".to_owned(),
            password: "sanjay".to_owned(),
            recycle_policy: RecyclePolicy::Fast,
            bind_addr: "127.0.0.1".to_owned(),
            bind_port: 8080,
        }
    }
}

} // verus!
