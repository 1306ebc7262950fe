//! Startup configuration. The bootstrap code reads the environment and
//! hands the values in; the library only carries them.

use vstd::prelude::*;

verus! {

#[derive(Debug)]
pub struct Config {
    database_url: String,
    server_addr: String,
    log_level: String,
}

impl Config {
    pub closed spec fn database_url_view(&self) -> Seq<char> {
        self.database_url@
    }

    pub closed spec fn server_addr_view(&self) -> Seq<char> {
        self.server_addr@
    }

    pub closed spec fn log_level_view(&self) -> Seq<char> {
        self.log_level@
    }

    pub fn new(database_url: String, server_addr: String, log_level: String) -> (c: Config)
        ensures
            c.database_url_view() == database_url@,
            c.server_addr_view() == server_addr@,
            c.log_level_view() == log_level@,
    {
        Config { database_url, server_addr, log_level }
    }

    pub fn get_database_url(&self) -> (r: &str)
        ensures
            r@ == self.database_url_view(),
    {
        self.database_url.as_str()
    }

    pub fn get_server_addr(&self) -> (r: &str)
        ensures
            r@ == self.server_addr_view(),
    {
        self.server_addr.as_str()
    }

    pub fn get_log_level(&self) -> (r: &str)
        ensures
            r@ == self.log_level_view(),
    {
        self.log_level.as_str()
    }
}

} // verus!
