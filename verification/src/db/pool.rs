//! Database connection settings.
use vstd::prelude::*;
use crate::text::{opt_str_view, parse_unsigned, unsigned_value};

verus! {

/// Connections in the pool when `DB_MAX_CONNECTIONS` is unset or invalid.
pub const DEFAULT_MAX_CONNECTIONS: u32 = 5;

/// The pool size: `DB_MAX_CONNECTIONS` read as a `u32`, else the default.
pub fn max_connections(setting: Option<&str>) -> (r: u32)
    ensures
        r as nat == match opt_str_view(setting) {
            Some(s) => match unsigned_value(s, u32::MAX as nat) {
                Some(n) => n,
                None => DEFAULT_MAX_CONNECTIONS as nat,
            },
            None => DEFAULT_MAX_CONNECTIONS as nat,
        },
{
    match setting {
        Some(s) => match parse_unsigned(s, u32::MAX as u64) {
            Some(n) => n as u32,
            None => DEFAULT_MAX_CONNECTIONS,
        },
        None => DEFAULT_MAX_CONNECTIONS,
    }
}

} // verus!
