//! The settings of the service, read once from named variables.

use vstd::prelude::*;
use crate::bindings::chars::{decimal_i64, decimal_u16, parse_i64, parse_u16};
use crate::utils::text::same_text;

verus! {

/// The settings of the service.
#[derive(Debug)]
pub struct ConfigService {
    pub database_url: String,
    pub access_token_private_key: String,
    pub access_token_public_key: String,
    pub access_token_expires_in: String,
    pub access_token_max_age: i64,
    pub refresh_token_expires_in: String,
    pub refresh_token_max_age: i64,
    pub rust_log: String,
    pub schema_synchronize: bool,
    pub host: String,
    pub port: u16,
    pub app_env: String,
    pub prod_database_url: String,
    pub synchronize: bool,
    pub auto_migrate: bool,
    pub email_address: String,
    pub email_password: String,
    pub smtp_password: String,
    pub smtp_transport: String,
    pub port_host: String,
}

/// The value of the first variable called `name`.
pub open spec fn lookup(vars: Seq<(String, String)>, name: Seq<char>) -> Option<Seq<char>>
    decreases vars.len(),
{
    if vars.len() == 0 {
        None
    } else if vars[0].0@ == name {
        Some(vars[0].1@)
    } else {
        lookup(vars.drop_first(), name)
    }
}

/// What a variable holding a truth value says: `true` or `false`, spelled
/// exactly so.
pub open spec fn truth_of(text: Seq<char>) -> Option<bool> {
    if text == "true"@ {
        Some(true)
    } else if text == "false"@ {
        Some(false)
    } else {
        None
    }
}

/// The variable is set.
pub open spec fn is_set(vars: Seq<(String, String)>, name: Seq<char>) -> bool {
    lookup(vars, name) is Some
}

/// The variable is set to a truth value.
pub open spec fn is_truth(vars: Seq<(String, String)>, name: Seq<char>) -> bool {
    lookup(vars, name) matches Some(text) && truth_of(text) is Some
}

/// The variable is set to a number of 64 bits.
pub open spec fn is_number(vars: Seq<(String, String)>, name: Seq<char>) -> bool {
    lookup(vars, name) matches Some(text) && decimal_i64(text) is Some
}

/// The variable is set to a port number.
pub open spec fn is_port(vars: Seq<(String, String)>, name: Seq<char>) -> bool {
    lookup(vars, name) matches Some(text) && decimal_u16(text) is Some
}

/// Every setting is there and readable.
pub open spec fn complete(vars: Seq<(String, String)>) -> bool {
    &&& is_set(vars, "DATABASE_URL"@)
    &&& is_set(vars, "ACCESS_TOKEN_PRIVATE_KEY"@)
    &&& is_set(vars, "ACCESS_TOKEN_PUBLIC_KEY"@)
    &&& is_set(vars, "ACCESS_TOKEN_EXPIRED_IN"@)
    &&& is_number(vars, "ACCESS_TOKEN_MAXAGE"@)
    &&& is_set(vars, "REFRESH_TOKEN_EXPIRED_IN"@)
    &&& is_number(vars, "REFRESH_TOKEN_MAXAGE"@)
    &&& is_set(vars, "RUST_LOG"@)
    &&& is_truth(vars, "SCHEMA_SYNCHRONIZE"@)
    &&& is_set(vars, "HOST"@)
    &&& is_port(vars, "PORT"@)
    &&& is_set(vars, "APP_ENV"@)
    &&& is_set(vars, "PROD_DATABASE_URL"@)
    &&& is_truth(vars, "SYNCHRONIZE"@)
    &&& is_truth(vars, "AUTO_MIGRATE"@)
    &&& is_set(vars, "EMAIL_ADDRESS"@)
    &&& is_set(vars, "EMAIL_PASSWORD"@)
    &&& is_set(vars, "SMTP_PASSWORD"@)
    &&& is_set(vars, "SMTP_TRANSPORT"@)
    &&& is_set(vars, "PORT_HOST"@)
}

/// The settings hold what the variables say.
pub open spec fn reads(config: ConfigService, vars: Seq<(String, String)>) -> bool {
    &&& lookup(vars, "DATABASE_URL"@) == Some(config.database_url@)
    &&& lookup(vars, "ACCESS_TOKEN_PRIVATE_KEY"@) == Some(config.access_token_private_key@)
    &&& lookup(vars, "ACCESS_TOKEN_PUBLIC_KEY"@) == Some(config.access_token_public_key@)
    &&& lookup(vars, "ACCESS_TOKEN_EXPIRED_IN"@) == Some(config.access_token_expires_in@)
    &&& number_of(vars, "ACCESS_TOKEN_MAXAGE"@) == Some(config.access_token_max_age)
    &&& lookup(vars, "REFRESH_TOKEN_EXPIRED_IN"@) == Some(config.refresh_token_expires_in@)
    &&& number_of(vars, "REFRESH_TOKEN_MAXAGE"@) == Some(config.refresh_token_max_age)
    &&& lookup(vars, "RUST_LOG"@) == Some(config.rust_log@)
    &&& flag_of(vars, "SCHEMA_SYNCHRONIZE"@) == Some(config.schema_synchronize)
    &&& lookup(vars, "HOST"@) == Some(config.host@)
    &&& port_of(vars, "PORT"@) == Some(config.port)
    &&& lookup(vars, "APP_ENV"@) == Some(config.app_env@)
    &&& lookup(vars, "PROD_DATABASE_URL"@) == Some(config.prod_database_url@)
    &&& flag_of(vars, "SYNCHRONIZE"@) == Some(config.synchronize)
    &&& flag_of(vars, "AUTO_MIGRATE"@) == Some(config.auto_migrate)
    &&& lookup(vars, "EMAIL_ADDRESS"@) == Some(config.email_address@)
    &&& lookup(vars, "EMAIL_PASSWORD"@) == Some(config.email_password@)
    &&& lookup(vars, "SMTP_PASSWORD"@) == Some(config.smtp_password@)
    &&& lookup(vars, "SMTP_TRANSPORT"@) == Some(config.smtp_transport@)
    &&& lookup(vars, "PORT_HOST"@) == Some(config.port_host@)
}

/// The number a variable is set to.
pub open spec fn number_of(vars: Seq<(String, String)>, name: Seq<char>) -> Option<i64> {
    match lookup(vars, name) {
        Some(text) => decimal_i64(text),
        None => None,
    }
}

/// The truth value a variable is set to.
pub open spec fn flag_of(vars: Seq<(String, String)>, name: Seq<char>) -> Option<bool> {
    match lookup(vars, name) {
        Some(text) => truth_of(text),
        None => None,
    }
}

/// The port a variable is set to.
pub open spec fn port_of(vars: Seq<(String, String)>, name: Seq<char>) -> Option<u16> {
    match lookup(vars, name) {
        Some(text) => decimal_u16(text),
        None => None,
    }
}

fn get_var(vars: &Vec<(String, String)>, name: &str) -> (r: Option<String>)
    ensures
        match r {
            Some(value) => lookup(vars@, name@) == Some(value@),
            None => lookup(vars@, name@) is None,
        },
{
    let mut i: usize = 0;
    assert(vars@.skip(0) =~= vars@);
    while i < vars.len()
        invariant
            i <= vars.len(),
            lookup(vars@, name@) == lookup(vars@.skip(i as int), name@),
        decreases vars.len() - i,
    {
        assert(vars@.skip(i as int).drop_first() =~= vars@.skip(i + 1));
        if same_text(vars[i].0.as_str(), name) {
            return Some(vars[i].1.clone());
        }
        i = i + 1;
    }
    None
}

fn get_flag(vars: &Vec<(String, String)>, name: &str) -> (r: Option<bool>)
    ensures
        r == flag_of(vars@, name@),
{
    match get_var(vars, name) {
        Some(text) => {
            if same_text(text.as_str(), "true") {
                Some(true)
            } else if same_text(text.as_str(), "false") {
                Some(false)
            } else {
                None
            }
        },
        None => None,
    }
}

fn get_number(vars: &Vec<(String, String)>, name: &str) -> (r: Option<i64>)
    ensures
        r == number_of(vars@, name@),
{
    match get_var(vars, name) {
        Some(text) => parse_i64(text.as_str()),
        None => None,
    }
}

fn get_port(vars: &Vec<(String, String)>, name: &str) -> (r: Option<u16>)
    ensures
        r == port_of(vars@, name@),
{
    match get_var(vars, name) {
        Some(text) => parse_u16(text.as_str()),
        None => None,
    }
}

/// Whether every setting is there and readable.
fn is_complete(vars: &Vec<(String, String)>) -> (r: bool)
    ensures
        r == complete(vars@),
{
    get_var(vars, "DATABASE_URL").is_some()
        && get_var(vars, "ACCESS_TOKEN_PRIVATE_KEY").is_some()
        && get_var(vars, "ACCESS_TOKEN_PUBLIC_KEY").is_some()
        && get_var(vars, "ACCESS_TOKEN_EXPIRED_IN").is_some()
        && get_number(vars, "ACCESS_TOKEN_MAXAGE").is_some()
        && get_var(vars, "REFRESH_TOKEN_EXPIRED_IN").is_some()
        && get_number(vars, "REFRESH_TOKEN_MAXAGE").is_some()
        && get_var(vars, "RUST_LOG").is_some()
        && get_flag(vars, "SCHEMA_SYNCHRONIZE").is_some()
        && get_var(vars, "HOST").is_some()
        && get_port(vars, "PORT").is_some()
        && get_var(vars, "APP_ENV").is_some()
        && get_var(vars, "PROD_DATABASE_URL").is_some()
        && get_flag(vars, "SYNCHRONIZE").is_some()
        && get_flag(vars, "AUTO_MIGRATE").is_some()
        && get_var(vars, "EMAIL_ADDRESS").is_some()
        && get_var(vars, "EMAIL_PASSWORD").is_some()
        && get_var(vars, "SMTP_PASSWORD").is_some()
        && get_var(vars, "SMTP_TRANSPORT").is_some()
        && get_var(vars, "PORT_HOST").is_some()
}

impl ConfigService {
    /// The settings that the variables hold. Every setting must be there
    /// and readable; [`ConfigService::load`] is for variables of which that
    /// is not known.
    pub fn new(vars: &Vec<(String, String)>) -> (r: ConfigService)
        requires
            complete(vars@),
        ensures
            reads(r, vars@),
    {
        let database_url = get_var(vars, "DATABASE_URL").unwrap();
        let access_token_private_key = get_var(vars, "ACCESS_TOKEN_PRIVATE_KEY").unwrap();
        let access_token_public_key = get_var(vars, "ACCESS_TOKEN_PUBLIC_KEY").unwrap();
        let access_token_expires_in = get_var(vars, "ACCESS_TOKEN_EXPIRED_IN").unwrap();
        let access_token_max_age = get_number(vars, "ACCESS_TOKEN_MAXAGE").unwrap();
        let refresh_token_expires_in = get_var(vars, "REFRESH_TOKEN_EXPIRED_IN").unwrap();
        let refresh_token_max_age = get_number(vars, "REFRESH_TOKEN_MAXAGE").unwrap();
        let rust_log = get_var(vars, "RUST_LOG").unwrap();
        let schema_synchronize = get_flag(vars, "SCHEMA_SYNCHRONIZE").unwrap();
        let host = get_var(vars, "HOST").unwrap();
        let port = get_port(vars, "PORT").unwrap();
        let app_env = get_var(vars, "APP_ENV").unwrap();
        let prod_database_url = get_var(vars, "PROD_DATABASE_URL").unwrap();
        let synchronize = get_flag(vars, "SYNCHRONIZE").unwrap();
        let auto_migrate = get_flag(vars, "AUTO_MIGRATE").unwrap();
        let email_address = get_var(vars, "EMAIL_ADDRESS").unwrap();
        let email_password = get_var(vars, "EMAIL_PASSWORD").unwrap();
        let smtp_password = get_var(vars, "SMTP_PASSWORD").unwrap();
        let smtp_transport = get_var(vars, "SMTP_TRANSPORT").unwrap();
        let port_host = get_var(vars, "PORT_HOST").unwrap();
        ConfigService {
            database_url,
            access_token_private_key,
            access_token_public_key,
            access_token_expires_in,
            access_token_max_age,
            refresh_token_expires_in,
            refresh_token_max_age,
            rust_log,
            schema_synchronize,
            host,
            port,
            app_env,
            prod_database_url,
            synchronize,
            auto_migrate,
            email_address,
            email_password,
            smtp_password,
            smtp_transport,
            port_host,
        }
    }

    /// Reads the settings from the variables, where every one of them is
    /// there and readable; nothing otherwise.
    pub fn load(vars: &Vec<(String, String)>) -> (r: Option<ConfigService>)
        ensures
            r is Some == complete(vars@),
            r matches Some(config) ==> reads(config, vars@),
    {
        if is_complete(vars) {
            Some(Self::new(vars))
        } else {
            None
        }
    }
}

} // verus!
