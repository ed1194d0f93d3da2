//! Application configuration from its settings.
use vstd::prelude::*;

use crate::text::{chars_of, opt_chars, owned, parse_unsigned, parse_unsigned_chars};

verus! {

/// The application's configuration.
#[derive(Debug)]
pub struct AppConfig {
    /// The SQLite connection string.
    pub database_url: String,
    /// The base64 text of the 32-byte AES-256 key.
    pub encryption_key: String,
    /// The address to bind.
    pub host: String,
    /// The port to listen on.
    pub port: u16,
    /// The log filter directive.
    pub log_level: String,
    /// How many nightly backups to keep.
    pub backup_retain_days: u32,
    /// Where backups are written.
    pub backup_dir: String,
}

/// The settings of the configuration as read, each absent when unset.
#[derive(Debug)]
pub struct ConfigVars {
    pub database_url: Option<String>,
    pub encryption_key: Option<String>,
    pub host: Option<String>,
    pub port: Option<String>,
    pub log_level: Option<String>,
    pub backup_retain_days: Option<String>,
    pub backup_dir: Option<String>,
}

pub open spec fn setting_or(v: Option<String>, d: Seq<char>) -> Seq<char> {
    match v {
        Some(s) => s@,
        None => d,
    }
}

pub open spec fn missing_key_message() -> Seq<char> {
    "ENCRYPTION_KEY is required but not set. Generate a value with: openssl rand -base64 32 and set it as an environment variable or in your .env file."@
}

pub open spec fn bad_port_message() -> Seq<char> {
    "PORT must be a valid u16 (1\u{2013}65535)"@
}

fn setting(v: Option<String>, d: &str) -> (r: String)
    ensures
        r@ == setting_or(v, d@),
{
    match v {
        Some(s) => s,
        None => owned(d),
    }
}

fn parse_setting(s: &str, max: u64) -> (r: Option<u64>)
    requires
        max <= u32::MAX,
    ensures
        r matches Some(n) ==> parse_unsigned(s@, max as nat) == Some(n as nat),
        r is None ==> parse_unsigned(s@, max as nat) is None,
{
    let v = chars_of(s);
    let r = parse_unsigned_chars(&v, 0, v.len(), max);
    assert(v@.subrange(0, v@.len() as int) =~= s@);
    r
}

impl AppConfig {
    /// Builds the configuration from its settings: the key is required; the port (8000
    /// by default) must be a `u16`; the backup count (7 by default) falls back to 7
    /// when it is not a `u32`; the rest have defaults.
    pub fn from_vars(vars: ConfigVars) -> (r: Result<AppConfig, String>)
        ensures
            vars.encryption_key is None ==> (r matches Err(e) && e@ == missing_key_message()),
            vars.encryption_key is Some && parse_unsigned(setting_or(vars.port, "8000"@), 65535) is None
                ==> (r matches Err(e) && e@ == bad_port_message()),
            r is Ok <==> vars.encryption_key is Some && parse_unsigned(setting_or(vars.port, "8000"@), 65535)
                is Some,
            r matches Ok(c) ==> {
                &&& c.database_url@ == setting_or(vars.database_url, "sqlite:///app/data/motorsport.db"@)
                &&& Some(c.encryption_key@) == opt_chars(vars.encryption_key)
                &&& c.host@ == setting_or(vars.host, "0.0.0.0"@)
                &&& Some(c.port as nat) == parse_unsigned(setting_or(vars.port, "8000"@), 65535)
                &&& c.log_level@ == setting_or(vars.log_level, "info"@)
                &&& c.backup_retain_days as nat == (match parse_unsigned(
                    setting_or(vars.backup_retain_days, "7"@),
                    u32::MAX as nat,
                ) {
                    Some(n) => n,
                    None => 7,
                })
                &&& c.backup_dir@ == setting_or(vars.backup_dir, "./backups"@)
            },
    {
        let database_url = setting(vars.database_url, "sqlite:///app/data/motorsport.db");
        let encryption_key = match vars.encryption_key {
            Some(k) => k,
            None => {
                return Err(
                    owned(
                        "ENCRYPTION_KEY is required but not set. Generate a value with: openssl rand -base64 32 and set it as an environment variable or in your .env file.",
                    ),
                );
            },
        };
        let host = setting(vars.host, "0.0.0.0");
        let port_text = setting(vars.port, "8000");
        let port: u16 = match parse_setting(port_text.as_str(), 65535) {
            Some(p) => p as u16,
            None => {
                return Err(owned("PORT must be a valid u16 (1\u{2013}65535)"));
            },
        };
        let log_level = setting(vars.log_level, "info");
        let retain_text = setting(vars.backup_retain_days, "7");
        let backup_retain_days: u32 = match parse_setting(retain_text.as_str(), 4294967295) {
            Some(n) => n as u32,
            None => 7,
        };
        let backup_dir = setting(vars.backup_dir, "./backups");
        Ok(
            AppConfig {
                database_url,
                encryption_key,
                host,
                port,
                log_level,
                backup_retain_days,
                backup_dir,
            },
        )
    }
}

} // verus!
