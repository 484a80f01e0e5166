//! Settings of the reservation service, and names for throwaway test
//! databases.
use crate::ident::{id_text, spec_id_text};
use vstd::prelude::*;
use vstd::string::StringExecFns;

verus! {

/// Settings of the reservation service.
#[derive(Clone, Debug, PartialEq, Eq)]
pub struct Config {
    pub db: DbConfig,
    pub server: ServerConfig,
}

/// How to reach the store.
#[derive(Clone, Debug, PartialEq, Eq)]
pub struct DbConfig {
    pub url: String,
}

/// Where the service listens.
#[derive(Clone, Debug, PartialEq, Eq)]
pub struct ServerConfig {
    pub host: String,
    pub port: u16,
}

/// A throwaway database on a store server: its name and the connection
/// string that reaches it.
#[derive(Clone, Debug)]
pub struct DbTester {
    pub server_url: String,
    pub dbname: String,
}

pub open spec fn spec_test_dbname(id: u128) -> Seq<char> {
    "test_"@ + spec_id_text(id)
}

impl DbTester {
    /// Names the database after the identifier `db_id` and places it on the
    /// server at `server_url`.
    pub fn new(server_url: &str, db_id: u128) -> (r: DbTester)
        ensures
            r.dbname@ == spec_test_dbname(db_id),
            r.server_url@ == server_url@ + "/"@ + spec_test_dbname(db_id),
    {
        let dbname = String::from_str("test_").concat(id_text(db_id).as_str());
        let server_url = String::from_str(server_url).concat("/").concat(dbname.as_str());
        DbTester { server_url, dbname }
    }
}

} // verus!
