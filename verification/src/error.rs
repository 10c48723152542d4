//! The error returned by every command: a numeric code and a message.

use vstd::prelude::*;
use vstd::string::StringExecFns;
use crate::text::{decimal, decimal_chars, push_all, push_char};

verus! {

/// Database errors (query failure, migration, constraint).
pub const DB_ERROR: u16 = 1000;
/// Network errors (request failure, timeout, DNS).
pub const NETWORK_ERROR: u16 = 2000;
/// Missing or expired login.
pub const UNAUTHORIZED: u16 = 2100;
/// HTTP 429 responses.
pub const RATE_LIMITED: u16 = 2200;
/// Missing, malformed or out-of-range arguments.
pub const INVALID_INPUT: u16 = 3000;
/// A file, actress or group that does not exist.
pub const NOT_FOUND: u16 = 3100;
/// Anything unexpected.
pub const INTERNAL: u16 = 4000;
/// Every scrape source failed or timed out.
pub const SCRAPE_FAILED: u16 = 4100;

/// An error with its code and message.
#[derive(Debug)]
pub struct CommandError {
    pub code: u16,
    pub message: String,
}

impl CommandError {
    /// A database error (code 1000).
    pub fn db(msg: &str) -> (r: Self)
        ensures
            r.code == DB_ERROR,
            r.message@ == msg@,
    {
        Self { code: DB_ERROR, message: msg.to_owned() }
    }

    /// A network error (code 2000).
    pub fn network(msg: &str) -> (r: Self)
        ensures
            r.code == NETWORK_ERROR,
            r.message@ == msg@,
    {
        Self { code: NETWORK_ERROR, message: msg.to_owned() }
    }

    /// A missing login (code 2100).
    pub fn unauthorized(msg: &str) -> (r: Self)
        ensures
            r.code == UNAUTHORIZED,
            r.message@ == msg@,
    {
        Self { code: UNAUTHORIZED, message: msg.to_owned() }
    }

    /// A rate limit (code 2200).
    pub fn rate_limited(msg: &str) -> (r: Self)
        ensures
            r.code == RATE_LIMITED,
            r.message@ == msg@,
    {
        Self { code: RATE_LIMITED, message: msg.to_owned() }
    }

    /// Invalid input (code 3000).
    pub fn invalid_input(msg: &str) -> (r: Self)
        ensures
            r.code == INVALID_INPUT,
            r.message@ == msg@,
    {
        Self { code: INVALID_INPUT, message: msg.to_owned() }
    }

    /// A missing resource (code 3100).
    pub fn not_found(msg: &str) -> (r: Self)
        ensures
            r.code == NOT_FOUND,
            r.message@ == msg@,
    {
        Self { code: NOT_FOUND, message: msg.to_owned() }
    }

    /// An internal error (code 4000).
    pub fn internal(msg: &str) -> (r: Self)
        ensures
            r.code == INTERNAL,
            r.message@ == msg@,
    {
        Self { code: INTERNAL, message: msg.to_owned() }
    }

    /// A failed scrape (code 4100).
    pub fn scrape_failed(msg: &str) -> (r: Self)
        ensures
            r.code == SCRAPE_FAILED,
            r.message@ == msg@,
    {
        Self { code: SCRAPE_FAILED, message: msg.to_owned() }
    }

    /// The display form `[code] message`.
    pub fn to_display_string(&self) -> (r: String)
        ensures
            r@ == seq!['['] + decimal(self.code as nat) + seq![']', ' '] + self.message@,
    {
        let mut r = String::new();
        push_char(&mut r, '[');
        push_all(&mut r, &decimal_chars(self.code as u64));
        push_char(&mut r, ']');
        push_char(&mut r, ' ');
        r.append(self.message.as_str());
        assert(r@ =~= seq!['['] + decimal(self.code as nat) + seq![']', ' '] + self.message@);
        r
    }
}

} // verus!
