//! Settings read from the process environment.
use vstd::prelude::*;
use crate::error::AppError;
use crate::text::{is_blank, is_blank_str, opt_view, owned, parse_unsigned, push_str, str_eq, unsigned_value};

verus! {

#[verifier::external_type_specification]
#[verifier::external_body]
pub struct ExTz(chrono_tz::Tz);

/// Whether `chrono_tz` knows an IANA zone by exactly this name.
pub uninterp spec fn tz_name_known(name: Seq<char>) -> bool;

/// The zone `chrono_tz` holds under an IANA name.
pub uninterp spec fn zone_named(name: Seq<char>) -> chrono_tz::Tz;

/// `chrono_tz::Tz::from_str`: a lookup of the zone by its exact IANA name.
/// The contract names which names succeed and the zone found; what is inside
/// the zone value stays opaque.
#[verifier::external_body]
fn parse_timezone(name: &str) -> (r: Option<chrono_tz::Tz>)
    ensures
        r is Some <==> tz_name_known(name@),
        r matches Some(z) ==> z == zone_named(name@),
{
    name.parse::<chrono_tz::Tz>().ok()
}

#[derive(Debug)]
pub struct Config {
    pub server: ServerConfig,
    pub database_url: String,
    pub tmdb_api_key: String,
    pub slack_webhook_url: Option<String>,
    pub schedule: ScheduleConfig,
    pub timezone: chrono_tz::Tz,
}

#[derive(Debug)]
pub struct ServerConfig {
    pub host: String,
    pub port: u16,
    pub cors_allowed_origin: Option<String>,
}

#[derive(Debug)]
pub struct ScheduleConfig {
    pub resync_cron: String,
    pub notification_check_interval_minutes: u64,
}

/// The value of the first variable named `key`.
pub open spec fn env_lookup(vars: Seq<(String, String)>, key: Seq<char>) -> Option<Seq<char>>
    decreases vars.len(),
{
    if vars.len() == 0 {
        None
    } else if vars[0].0@ == key {
        Some(vars[0].1@)
    } else {
        env_lookup(vars.drop_first(), key)
    }
}

/// The variable's value, or `default` when it is unset.
pub open spec fn env_or(vars: Seq<(String, String)>, key: Seq<char>, default: Seq<char>) -> Seq<
    char,
> {
    match env_lookup(vars, key) {
        Some(v) => v,
        None => default,
    }
}

/// The variable's value, absent when unset or blank.
pub open spec fn env_optional(vars: Seq<(String, String)>, key: Seq<char>) -> Option<Seq<char>> {
    match env_lookup(vars, key) {
        Some(v) => if is_blank(v) {
            None
        } else {
            Some(v)
        },
        None => None,
    }
}

pub open spec fn port_text(vars: Seq<(String, String)>) -> Seq<char> {
    env_or(vars, "SERVER_PORT"@, "3001"@)
}

pub open spec fn interval_text(vars: Seq<(String, String)>) -> Seq<char> {
    env_or(vars, "NOTIFICATION_CHECK_INTERVAL_MINUTES"@, "60"@)
}

pub open spec fn timezone_text(vars: Seq<(String, String)>) -> Seq<char> {
    env_or(vars, "TIMEZONE"@, "America/New_York"@)
}

pub open spec fn timezone_error_text(name: Seq<char>) -> Seq<char> {
    "TIMEZONE '"@ + name
        + "' is not a valid IANA zone (e.g. America/New_York, Europe/London)"@
}

/// Why a set of variables gives no configuration, checked in this order;
/// `None` when it gives one.
pub open spec fn config_failure(vars: Seq<(String, String)>) -> Option<Seq<char>> {
    if unsigned_value(port_text(vars), 65535) is None {
        Some("SERVER_PORT must be a u16"@)
    } else if env_lookup(vars, "TMDB_API_KEY"@) is None || is_blank(
        env_lookup(vars, "TMDB_API_KEY"@)->0,
    ) {
        Some("TMDB_API_KEY is required"@)
    } else if unsigned_value(interval_text(vars), u64::MAX as nat) is None {
        Some("NOTIFICATION_CHECK_INTERVAL_MINUTES must be a u64"@)
    } else if !tz_name_known(timezone_text(vars)) {
        Some(timezone_error_text(timezone_text(vars)))
    } else {
        None
    }
}

/// `std::env::var(key)` over a snapshot of the environment.
pub fn env_var(vars: &Vec<(String, String)>, key: &str) -> (r: Option<String>)
    ensures
        opt_view(r) == env_lookup(vars@, key@),
{
    let mut i: usize = 0;
    assert(vars@.skip(0) =~= vars@);
    while i < vars.len()
        invariant
            0 <= i <= vars@.len(),
            env_lookup(vars@, key@) == env_lookup(vars@.skip(i as int), key@),
        decreases vars@.len() - i,
    {
        if str_eq(vars[i].0.as_str(), key) {
            return Some(vars[i].1.clone());
        }
        assert(vars@.skip(i as int).drop_first() =~= vars@.skip(i + 1));
        i = i + 1;
    }
    None
}

fn env_var_or(vars: &Vec<(String, String)>, key: &str, default: &str) -> (r: String)
    ensures
        r@ == env_or(vars@, key@, default@),
{
    match env_var(vars, key) {
        Some(v) => v,
        None => owned(default),
    }
}

/// A variable that counts as absent when unset or blank.
pub fn optional(vars: &Vec<(String, String)>, key: &str) -> (r: Option<String>)
    ensures
        opt_view(r) == env_optional(vars@, key@),
{
    match env_var(vars, key) {
        Some(v) => if is_blank_str(v.as_str()) {
            None
        } else {
            Some(v)
        },
        None => None,
    }
}

impl Config {
    /// Reads the configuration from the environment's variables, with the
    /// documented defaults for every setting but the TMDB key.
    pub fn from_vars(vars: &Vec<(String, String)>) -> (r: Result<Config, AppError>)
        ensures
            r is Err <==> config_failure(vars@) is Some,
            r matches Err(e) ==> e is Config && e.spec_client_message() == config_failure(
                vars@,
            )->0,
            r matches Ok(c) ==> {
                &&& c.server.host@ == env_or(vars@, "SERVER_HOST"@, "0.0.0.0"@)
                &&& c.server.port as nat == unsigned_value(port_text(vars@), 65535)->0
                &&& opt_view(c.server.cors_allowed_origin) == env_optional(
                    vars@,
                    "CORS_ALLOWED_ORIGIN"@,
                )
                &&& c.database_url@ == env_or(
                    vars@,
                    "DATABASE_URL"@,
                    "sqlite:///data/showrunner.db"@,
                )
                &&& c.tmdb_api_key@ == env_lookup(vars@, "TMDB_API_KEY"@)->0
                &&& opt_view(c.slack_webhook_url) == env_optional(vars@, "SLACK_WEBHOOK_URL"@)
                &&& c.schedule.resync_cron@ == env_or(vars@, "RESYNC_CRON"@, "0 0 6 * * *"@)
                &&& c.schedule.notification_check_interval_minutes as nat == unsigned_value(
                    interval_text(vars@),
                    u64::MAX as nat,
                )->0
                &&& c.timezone == zone_named(timezone_text(vars@))
            },
    {
        let host = env_var_or(vars, "SERVER_HOST", "0.0.0.0");
        let port_s = env_var_or(vars, "SERVER_PORT", "3001");
        let port: u16 = match parse_unsigned(port_s.as_str(), 65535) {
            Some(p) => p as u16,
            None => {
                return Err(AppError::Config(owned("SERVER_PORT must be a u16")));
            },
        };
        let cors_allowed_origin = optional(vars, "CORS_ALLOWED_ORIGIN");
        let database_url = env_var_or(vars, "DATABASE_URL", "sqlite:///data/showrunner.db");
        let tmdb_api_key = match env_var(vars, "TMDB_API_KEY") {
            Some(k) => k,
            None => {
                return Err(AppError::Config(owned("TMDB_API_KEY is required")));
            },
        };
        if is_blank_str(tmdb_api_key.as_str()) {
            return Err(AppError::Config(owned("TMDB_API_KEY is required")));
        }
        let slack_webhook_url = optional(vars, "SLACK_WEBHOOK_URL");
        let resync_cron = env_var_or(vars, "RESYNC_CRON", "0 0 6 * * *");
        let interval_s = env_var_or(vars, "NOTIFICATION_CHECK_INTERVAL_MINUTES", "60");
        let notification_check_interval_minutes = match parse_unsigned(
            interval_s.as_str(),
            u64::MAX,
        ) {
            Some(n) => n,
            None => {
                return Err(
                    AppError::Config(owned("NOTIFICATION_CHECK_INTERVAL_MINUTES must be a u64")),
                );
            },
        };
        let tz_name = env_var_or(vars, "TIMEZONE", "America/New_York");
        let timezone = match parse_timezone(tz_name.as_str()) {
            Some(tz) => tz,
            None => {
                let mut msg = owned("TIMEZONE '");
                push_str(&mut msg, tz_name.as_str());
                push_str(
                    &mut msg,
                    "' is not a valid IANA zone (e.g. America/New_York, Europe/London)",
                );
                return Err(AppError::Config(msg));
            },
        };
        Ok(Config {
            server: ServerConfig { host, port, cors_allowed_origin },
            database_url,
            tmdb_api_key,
            slack_webhook_url,
            schedule: ScheduleConfig { resync_cron, notification_check_interval_minutes },
            timezone,
        })
    }
}

} // verus!
