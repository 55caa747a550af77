//! The settings of a connection to a key-value store.

use vstd::prelude::*;
use crate::text::{decimal, numeral, join_text};

verus! {

/// The settings as the caller gives them.
#[derive(Debug, Default, Clone)]
pub struct Options {
    pub host: String,
    pub port: Option<u32>,
    pub username: Option<String>,
    pub pwd: Option<String>,
    pub db: Option<i64>,
    /// Milliseconds to wait for the store.
    pub timeout: Option<u64>,
}

/// The settings with every gap filled.
#[derive(Debug, Clone)]
pub struct Redis {
    pub host: String,
    pub port: u32,
    pub username: String,
    pub pwd: String,
    pub db: i64,
    /// Milliseconds to wait for the store.
    pub timeout: u64,
}

/// The address of the store.
pub open spec fn store_url(host: Seq<char>, port: u32) -> Seq<char> {
    "redis://"@ + host + ":"@ + numeral(port as nat)
}

impl Redis {
    /// Fills the gaps: port 6379, no user, no password, database 0, ten
    /// seconds to wait.
    pub fn new(opts: Options) -> (r: Redis)
        ensures
            r.host@ == opts.host@,
            r.port == (match opts.port {
                Some(port) => port,
                None => 6379,
            }),
            r.username@ == (match opts.username {
                Some(name) => name@,
                None => Seq::<char>::empty(),
            }),
            r.pwd@ == (match opts.pwd {
                Some(pwd) => pwd@,
                None => Seq::<char>::empty(),
            }),
            r.db == (match opts.db {
                Some(db) => db,
                None => 0,
            }),
            r.timeout == (match opts.timeout {
                Some(time) => time,
                None => 10000,
            }),
    {
        Redis {
            host: opts.host,
            port: match opts.port {
                Some(port) => port,
                None => 6379,
            },
            username: match opts.username {
                Some(name) => name,
                None => String::new(),
            },
            pwd: match opts.pwd {
                Some(pwd) => pwd,
                None => String::new(),
            },
            db: match opts.db {
                Some(db) => db,
                None => 0,
            },
            timeout: match opts.timeout {
                Some(time) => time,
                None => 10000,
            },
        }
    }

    /// Whether a value can be asked for under `key`: not under an empty key.
    pub fn get_data(key: &str) -> (r: bool)
        ensures
            r == (key@.len() > 0),
    {
        !key.is_empty()
    }

    /// Whether `value` can be stored under `key`: neither may be empty.
    pub fn set_data(key: &str, value: &str) -> (r: bool)
        ensures
            r == (key@.len() > 0 && value@.len() > 0),
    {
        !key.is_empty() && !value.is_empty()
    }

    /// The address to connect to; `None` where no host is set.
    pub fn connect(&self) -> (r: Option<String>)
        ensures
            self.host@.len() == 0 ==> r is None,
            self.host@.len() > 0 ==> r is Some && r->Some_0@ == store_url(self.host@, self.port),
    {
        if self.host.as_str().is_empty() {
            return None;
        }
        let mut url = join_text("redis://", self.host.as_str());
        url.append(":");
        let port = decimal(self.port as u64);
        url.append(port.as_str());
        Some(url)
    }
}

} // verus!
