//! The connection settings of a single account, as the environment gives them.

use vstd::prelude::*;
use vstd::utf8::encode_utf8;
use crate::dnd::{parse_u64, read_u64};
use crate::text::text_is;

verus! {

/// The port that is used when none is given, or none that is a port number.
pub const DEFAULT_IMAP_PORT: u16 = 993;

/// Connection settings of one account.
#[derive(Debug, PartialEq)]
pub struct Config {
    pub imap_server: String,
    pub imap_port: u16,
    pub username: String,
    pub password: String,
    pub use_starttls: bool,
}

impl Clone for Config {
    fn clone(&self) -> (r: Self)
        ensures
            r == *self,
    {
        Config {
            imap_server: self.imap_server.clone(),
            imap_port: self.imap_port,
            username: self.username.clone(),
            password: self.password.clone(),
            use_starttls: self.use_starttls,
        }
    }
}

impl Default for Config {
    fn default() -> (r: Self)
        ensures
            r.imap_server@ == Seq::<char>::empty(),
            r.imap_port == 0,
            r.username@ == Seq::<char>::empty(),
            r.password@ == Seq::<char>::empty(),
            !r.use_starttls,
    {
        Config {
            imap_server: String::new(),
            imap_port: 0,
            username: String::new(),
            password: String::new(),
            use_starttls: false,
        }
    }
}

/// A port number as text: a number, as `parse_u64` reads it, of at most 65535.
pub open spec fn parse_port(text: Seq<u8>) -> Option<u16> {
    match parse_u64(text) {
        Some(n) => if n <= u16::MAX {
            Some(n as u16)
        } else {
            None
        },
        None => None,
    }
}

/// The port that a setting stands for: the default where the setting is
/// absent or no port number.
pub open spec fn port_of(setting: Option<String>) -> u16 {
    match setting {
        Some(text) => match parse_port(encode_utf8(text@)) {
            Some(port) => port,
            None => DEFAULT_IMAP_PORT,
        },
        None => DEFAULT_IMAP_PORT,
    }
}

/// Whether a setting switches STARTTLS on: only `true` and `1` do.
pub open spec fn starttls_of(setting: Option<String>) -> bool {
    match setting {
        Some(text) => text@ == "true"@ || text@ == "1"@,
        None => false,
    }
}

/// Reads a port number from text.
pub fn read_port(text: &str) -> (r: Option<u16>)
    ensures
        r == parse_port(encode_utf8(text@)),
{
    match read_u64(text.as_bytes()) {
        Some(n) => if n <= 65535 {
            Some(n as u16)
        } else {
            None
        },
        None => None,
    }
}

impl Config {
    /// Builds the configuration from the values of the environment variables
    /// `NEVERMAIL_SERVER`, `NEVERMAIL_USER`, `NEVERMAIL_PASSWORD`,
    /// `NEVERMAIL_PORT` and `NEVERMAIL_STARTTLS`, in that order. The first
    /// three must be set.
    pub fn from_env(
        server: Option<String>,
        user: Option<String>,
        password: Option<String>,
        port: Option<String>,
        starttls: Option<String>,
    ) -> (r: Self)
        requires
            server is Some,
            user is Some,
            password is Some,
        ensures
            Some(r.imap_server) == server,
            Some(r.username) == user,
            Some(r.password) == password,
            r.imap_port == port_of(port),
            r.use_starttls == starttls_of(starttls),
    {
        let imap_port = match &port {
            Some(text) => match read_port(text.as_str()) {
                Some(p) => p,
                None => DEFAULT_IMAP_PORT,
            },
            None => DEFAULT_IMAP_PORT,
        };
        let use_starttls = match &starttls {
            Some(text) => text_is(text, "true") || text_is(text, "1"),
            None => false,
        };
        Config {
            imap_server: server.unwrap(),
            imap_port,
            username: user.unwrap(),
            password: password.unwrap(),
            use_starttls,
        }
    }
}

} // verus!
