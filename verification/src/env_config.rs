//! The settings of the service and the rules that they must meet.

use vstd::prelude::*;
use crate::pattern::{regex_is_match, regex_match};

verus! {

/// The settings that the service is started with.
#[derive(Debug, PartialEq, Eq)]
pub struct Config {
    pub db_url: String,
    pub listen_on: String,
}

impl Clone for Config {
    fn clone(&self) -> (copy: Config)
        ensures
            copy == *self,
    {
        Config { db_url: self.db_url.clone(), listen_on: self.listen_on.clone() }
    }
}

/// The only database that is supported: SQLite in memory.
pub const MEMORY_DB_URL: &'static str = ":memory:";

/// What the end of a listen address must look like: a colon and a port number.
pub const PORT_PATTERN: &'static str = ":[0-9]+$";

pub const DB_URL_UNSET: &'static str = "db_url must be set";

pub const DB_URL_UNSUPPORTED: &'static str =
    "Only \":memory:\" is supported for DB_URL at this time.";

pub const LISTEN_ON_UNSET: &'static str = "listen_on must be set (IP:port).";

pub const LISTEN_ON_MALFORMED: &'static str =
    "listen_on must be an \"IP:port\" string. Use \"127.0.0.1:port\" or \"[::]:port\" for localhost. Use \"0.0.0.0:port\" for all interfaces.";

/// A verdict with its message, by the message's text.
pub open spec fn verdict_view(verdict: Result<(), &'static str>) -> Result<(), Seq<char>> {
    match verdict {
        Ok(_) => Ok(()),
        Err(message) => Err(message@),
    }
}

/// The rules that need no search: the database URL is set and names the
/// database in memory, and the listen address is set.
pub open spec fn fields_verdict(db_url: Seq<char>, listen_on: Seq<char>) -> Result<(), Seq<char>> {
    if db_url.len() == 0 {
        Err(DB_URL_UNSET@)
    } else if db_url != MEMORY_DB_URL@ {
        Err(DB_URL_UNSUPPORTED@)
    } else if listen_on.len() == 0 {
        Err(LISTEN_ON_UNSET@)
    } else {
        Ok(())
    }
}

/// The last rule, given what the search for `PORT_PATTERN` in the listen
/// address answered.
pub open spec fn port_verdict(found: Option<bool>) -> Result<(), Seq<char>> {
    if found == Some(true) {
        Ok(())
    } else {
        Err(LISTEN_ON_MALFORMED@)
    }
}

/// All rules in their order; the first that fails gives the message.
pub open spec fn config_verdict(db_url: Seq<char>, listen_on: Seq<char>) -> Result<(), Seq<char>> {
    match fields_verdict(db_url, listen_on) {
        Err(message) => Err(message),
        Ok(_) => port_verdict(regex_match(PORT_PATTERN@, listen_on)),
    }
}

/// Checks the rules that need no search.
pub fn check_fields(c: &Config) -> (verdict: Result<(), &'static str>)
    ensures
        verdict_view(verdict) == fields_verdict(c.db_url@, c.listen_on@),
{
    if c.db_url.as_str().is_empty() {
        return Err(DB_URL_UNSET);
    }
    // Only in-memory SQLite will be implemented for a while.
    if c.db_url != MEMORY_DB_URL.to_owned() {
        return Err(DB_URL_UNSUPPORTED);
    }
    if c.listen_on.as_str().is_empty() {
        return Err(LISTEN_ON_UNSET);
    }
    Ok(())
}

/// Rejects the listen address in which the port was not found.
pub fn check_port(found: Option<bool>) -> (verdict: Result<(), &'static str>)
    ensures
        verdict_view(verdict) == port_verdict(found),
{
    match found {
        Some(true) => Ok(()),
        _ => Err(LISTEN_ON_MALFORMED),
    }
}

/// Checks the settings and says in words what is wrong with them. The port
/// is searched for only in settings that passed the other rules.
pub fn validate(c: &Config) -> (verdict: Result<(), &'static str>)
    ensures
        verdict_view(verdict) == config_verdict(c.db_url@, c.listen_on@),
{
    match check_fields(c) {
        Err(message) => Err(message),
        Ok(_) => check_port(regex_is_match(PORT_PATTERN, c.listen_on.as_str())),
    }
}

} // verus!
