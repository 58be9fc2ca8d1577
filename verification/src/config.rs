//! Process configuration: the resolved settings with their documented
//! defaults, and masking of the database URL's password for logging.

use vstd::prelude::*;
use vstd::string::StrSliceExecFns;
use vstd::string::StringExecFns;

use crate::text::{find_last, last_index_of};

verus! {

/// The settings the service runs with.
#[derive(Debug)]
pub struct AppConfig {
    pub database_url: String,
    pub host: String,
    pub port: u16,
    pub max_file_size: usize,
    pub rust_log: String,
}

impl Clone for AppConfig {
    fn clone(&self) -> (res: Self)
        ensures
            res == *self,
    {
        AppConfig {
            database_url: self.database_url.clone(),
            host: self.host.clone(),
            port: self.port,
            max_file_size: self.max_file_size,
            rust_log: self.rust_log.clone(),
        }
    }
}

impl AppConfig {
    /// Resolves the settings from raw values, applying the documented
    /// defaults where a value is absent: host 127.0.0.1, port 8080,
    /// maximum upload size 10485760 bytes, log level "info". The
    /// database URL has no default.
    pub fn resolve(
        database_url: String,
        host: Option<String>,
        port: Option<u16>,
        max_file_size: Option<usize>,
        rust_log: Option<String>,
    ) -> (c: AppConfig)
        ensures
            c.database_url == database_url,
            host matches Some(h) ==> c.host == h,
            host is None ==> c.host@ == "127.0.0.1"@,
            port matches Some(p) ==> c.port == p,
            port is None ==> c.port == 8080,
            max_file_size matches Some(m) ==> c.max_file_size == m,
            max_file_size is None ==> c.max_file_size == 10485760,
            rust_log matches Some(l) ==> c.rust_log == l,
            rust_log is None ==> c.rust_log@ == "info"@,
    {
        AppConfig {
            database_url,
            host: match host {
                Some(h) => h,
                None => String::from_str("127.0.0.1"),
            },
            port: match port {
                Some(p) => p,
                None => 8080,
            },
            max_file_size: match max_file_size {
                Some(m) => m,
                None => 10485760,
            },
            rust_log: match rust_log {
                Some(l) => l,
                None => String::from_str("info"),
            },
        }
    }
}

/// The URL with the password replaced by stars: everything between the
/// last ':' before the last '@' and that '@' is hidden. A URL without
/// both separators is unchanged.
pub open spec fn masked_url(s: Seq<char>) -> Seq<char> {
    let a = last_index_of(s, '@');
    if a < 0 {
        s
    } else {
        let c = last_index_of(s.take(a), ':');
        if c < 0 {
            s
        } else {
            s.take(c) + ":****@"@ + s.skip(a + 1)
        }
    }
}

/// Hides the password of a database URL for logging.
pub fn mask_database_url(url: &str) -> (r: String)
    ensures
        r@ == masked_url(url@),
{
    match find_last(url, '@') {
        Some(a) => {
            let prefix = url.substring_char(0, a);
            proof {
                assert(prefix@ == url@.take(a as int));
            }
            match find_last(prefix, ':') {
                Some(c) => {
                    let mut r = String::from_str(url.substring_char(0, c));
                    r.append(":****@");
                    let len = url.unicode_len();
                    r.append(url.substring_char(a + 1, len));
                    proof {
                        assert(url@.subrange(0, c as int) =~= url@.take(c as int));
                        assert(url@.subrange(a + 1, url@.len() as int) =~= url@.skip(a + 1));
                        assert(r@ =~= masked_url(url@));
                    }
                    r
                },
                None => url.to_owned(),
            }
        },
        None => url.to_owned(),
    }
}

} // verus!
