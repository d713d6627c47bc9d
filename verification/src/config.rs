//! The service's configuration, read from its environment variables: the
//! defaults, the settings that production requires, and the checks that a
//! complete configuration must pass.
use vstd::prelude::*;

use crate::error::AppError;
use crate::num::{int_error_message, int_error_text, parse_decimal, parse_i64, parse_u32, parse_u64};
use crate::text::{
    chars_eq, chars_of, concat_chars, eq_ignore_ascii_case, eq_ignore_case, split_chars, split_on,
    string_of, trim_chars, trimmed,
};

verus! {

broadcast use vstd::string::group_string_axioms;

/// The deployment the service runs in.
#[derive(Clone, Copy, Debug, PartialEq, Eq, Structural)]
pub enum Environment {
    Dev,
    Prod,
}

/// Who may see the API documentation.
#[derive(Clone, Copy, Debug, PartialEq, Eq, Structural)]
pub enum SwaggerMode {
    Public,
    Authenticated,
    Disabled,
}

/// The environment that `s` names, ignoring ASCII case (`dev`, `prod`).
pub open spec fn environment_named(s: Seq<char>) -> Option<Environment> {
    if eq_ignore_ascii_case(s, "dev"@) {
        Some(Environment::Dev)
    } else if eq_ignore_ascii_case(s, "prod"@) {
        Some(Environment::Prod)
    } else {
        None
    }
}

/// The swagger mode that `s` names, ignoring ASCII case.
pub open spec fn swagger_mode_named(s: Seq<char>) -> Option<SwaggerMode> {
    if eq_ignore_ascii_case(s, "public"@) {
        Some(SwaggerMode::Public)
    } else if eq_ignore_ascii_case(s, "authenticated"@) {
        Some(SwaggerMode::Authenticated)
    } else if eq_ignore_ascii_case(s, "disabled"@) {
        Some(SwaggerMode::Disabled)
    } else {
        None
    }
}

impl Environment {
    /// The environment named by `s` (case-insensitive), or the refusal
    /// `Invalid environment: <s>`.
    pub fn from_str(s: &str) -> (r: Result<Environment, String>)
        ensures
            match environment_named(s@) {
                Some(e) => r == Ok::<Environment, String>(e),
                None => r matches Err(m) && m@ == "Invalid environment: "@ + s@,
            },
    {
        let c = chars_of(s);
        if eq_ignore_case(&c, &chars_of("dev")) {
            Ok(Environment::Dev)
        } else if eq_ignore_case(&c, &chars_of("prod")) {
            Ok(Environment::Prod)
        } else {
            Err(string_of(&concat_chars(&chars_of("Invalid environment: "), &c)))
        }
    }
}

impl SwaggerMode {
    /// The swagger mode named by `s` (case-insensitive), or the refusal
    /// `Invalid swagger mode: <s>`.
    pub fn from_str(s: &str) -> (r: Result<SwaggerMode, String>)
        ensures
            match swagger_mode_named(s@) {
                Some(m) => r == Ok::<SwaggerMode, String>(m),
                None => r matches Err(m) && m@ == "Invalid swagger mode: "@ + s@,
            },
    {
        let c = chars_of(s);
        if eq_ignore_case(&c, &chars_of("public")) {
            Ok(SwaggerMode::Public)
        } else if eq_ignore_case(&c, &chars_of("authenticated")) {
            Ok(SwaggerMode::Authenticated)
        } else if eq_ignore_case(&c, &chars_of("disabled")) {
            Ok(SwaggerMode::Disabled)
        } else {
            Err(string_of(&concat_chars(&chars_of("Invalid swagger mode: "), &c)))
        }
    }
}

/// The environment variables of the process, as (name, value) pairs.
pub type EnvVars = Vec<(String, String)>;

/// The value of the variable `key`: that of its first pair, if any.
pub open spec fn env_lookup(vars: Seq<(String, String)>, key: Seq<char>) -> Option<Seq<char>>
    decreases vars.len(),
{
    if vars.len() == 0 {
        None
    } else if vars[0].0@ == key {
        Some(vars[0].1@)
    } else {
        env_lookup(vars.drop_first(), key)
    }
}

/// The value of the variable `key`, if it is set.
pub fn lookup_var(vars: &EnvVars, key: &str) -> (r: Option<String>)
    ensures
        match env_lookup(vars@, key@) {
            Some(v) => r matches Some(x) && x@ == v,
            None => r is None,
        },
{
    let k = chars_of(key);
    let mut i: usize = 0;
    assert(vars@.subrange(0, vars@.len() as int) =~= vars@);
    while i < vars.len()
        invariant
            i <= vars.len(),
            k@ == key@,
            env_lookup(vars@, key@) == env_lookup(vars@.subrange(i as int, vars@.len() as int), key@),
        decreases vars.len() - i,
    {
        assert(vars@.subrange(i as int, vars@.len() as int).drop_first() =~= vars@.subrange(
            i + 1,
            vars@.len() as int,
        ));
        if chars_eq(&chars_of(vars[i].0.as_str()), &k) {
            return Some(vars[i].1.clone());
        }
        i = i + 1;
    }
    None
}

/// A setting: the variable's value; else, outside production, the default;
/// else the refusal (in production every setting is required).
pub open spec fn setting(
    vars: Seq<(String, String)>,
    key: Seq<char>,
    default: Option<Seq<char>>,
    is_prod: bool,
) -> Result<Seq<char>, Seq<char>> {
    match env_lookup(vars, key) {
        Some(v) => Ok(v),
        None => if is_prod {
            Err(key + " is required in production but not set"@)
        } else {
            match default {
                Some(d) => Ok(d),
                None => Err(key + " is required but not set"@),
            }
        },
    }
}

/// The characters of an optional text.
pub open spec fn opt_view(o: Option<&str>) -> Option<Seq<char>> {
    match o {
        Some(d) => Some(d@),
        None => None,
    }
}

/// Reads a setting (see `setting`).
pub fn get_env(vars: &EnvVars, key: &str, default: Option<&str>, is_prod: bool) -> (r: Result<
    String,
    AppError,
>)
    ensures
        match setting(vars@, key@, opt_view(default), is_prod) {
            Ok(v) => r matches Ok(x) && x@ == v,
            Err(m) => r matches Err(AppError::ConfigError(e)) && e@ == m,
        },
{
    match lookup_var(vars, key) {
        Some(v) => Ok(v),
        None => {
            if is_prod {
                Err(
                    AppError::ConfigError(
                        string_of(&concat_chars(&chars_of(key), &chars_of(" is required in production but not set"))),
                    ),
                )
            } else {
                match default {
                    Some(d) => Ok(d.to_owned()),
                    None => Err(
                        AppError::ConfigError(
                            string_of(&concat_chars(&chars_of(key), &chars_of(" is required but not set"))),
                        ),
                    ),
                }
            }
        },
    }
}

/// A whole-number setting that must parse as an `i64`; an unparsable value
/// is refused with the parse error's text.
pub open spec fn int_setting(
    vars: Seq<(String, String)>,
    key: Seq<char>,
    default: Seq<char>,
    is_prod: bool,
) -> Result<int, Seq<char>> {
    match setting(vars, key, Some(default), is_prod) {
        Err(m) => Err(m),
        Ok(v) => match parse_decimal(v, true, i64::MIN as int, i64::MAX as int) {
            Ok(n) => Ok(n),
            Err(e) => Err(int_error_text(e)),
        },
    }
}

/// Reads a whole-number setting (see `int_setting`).
pub fn get_i64(vars: &EnvVars, key: &str, default: &str, is_prod: bool) -> (r: Result<i64, AppError>)
    ensures
        match int_setting(vars@, key@, default@, is_prod) {
            Ok(n) => r matches Ok(x) && x == n,
            Err(m) => r matches Err(AppError::ConfigError(e)) && e@ == m,
        },
{
    let v = match get_env(vars, key, Some(default), is_prod) {
        Ok(v) => v,
        Err(e) => return Err(e),
    };
    match parse_i64(v.as_str()) {
        Ok(n) => Ok(n),
        Err(e) => Err(AppError::ConfigError(int_error_message(e))),
    }
}

/// A count setting in `0..=hi`: an unparsable value gives `fallback`.
pub open spec fn count_setting(
    vars: Seq<(String, String)>,
    key: Seq<char>,
    default: Seq<char>,
    fallback: int,
    hi: int,
    is_prod: bool,
) -> Result<int, Seq<char>> {
    match setting(vars, key, Some(default), is_prod) {
        Err(m) => Err(m),
        Ok(v) => match parse_decimal(v, false, 0, hi) {
            Ok(n) => Ok(n),
            Err(_) => Ok(fallback),
        },
    }
}

/// Reads a `u32` count setting (see `count_setting`).
pub fn get_u32_or(vars: &EnvVars, key: &str, default: &str, fallback: u32, is_prod: bool) -> (r: Result<
    u32,
    AppError,
>)
    ensures
        match count_setting(vars@, key@, default@, fallback as int, u32::MAX as int, is_prod) {
            Ok(n) => r matches Ok(x) && x == n,
            Err(m) => r matches Err(AppError::ConfigError(e)) && e@ == m,
        },
{
    let v = match get_env(vars, key, Some(default), is_prod) {
        Ok(v) => v,
        Err(e) => return Err(e),
    };
    match parse_u32(v.as_str()) {
        Ok(n) => Ok(n),
        Err(_) => Ok(fallback),
    }
}

/// Reads a `u64` count setting (see `count_setting`).
pub fn get_u64_or(vars: &EnvVars, key: &str, default: &str, fallback: u64, is_prod: bool) -> (r: Result<
    u64,
    AppError,
>)
    ensures
        match count_setting(vars@, key@, default@, fallback as int, u64::MAX as int, is_prod) {
            Ok(n) => r matches Ok(x) && x == n,
            Err(m) => r matches Err(AppError::ConfigError(e)) && e@ == m,
        },
{
    let v = match get_env(vars, key, Some(default), is_prod) {
        Ok(v) => v,
        Err(e) => return Err(e),
    };
    match parse_u64(v.as_str()) {
        Ok(n) => Ok(n),
        Err(_) => Ok(fallback),
    }
}

/// The origins of a comma-separated list, each without surrounding white
/// space.
pub open spec fn origins_of(list: Seq<char>) -> Seq<Seq<char>> {
    split_on(list, ',').map_values(|p: Seq<char>| trimmed(p))
}

/// Splits a comma-separated list of origins (see `origins_of`).
pub fn split_origins(list: &str) -> (r: Vec<String>)
    ensures
        r@.map_values(|s: String| s@) == origins_of(list@),
{
    let parts = split_chars(&chars_of(list), ',');
    let ghost pieces = parts@.map_values(|p: Vec<char>| p@);
    let mut r: Vec<String> = Vec::new();
    let mut i: usize = 0;
    while i < parts.len()
        invariant
            i <= parts.len(),
            pieces == parts@.map_values(|p: Vec<char>| p@),
            pieces == split_on(list@, ','),
            r@.len() == i,
            forall|j: int| 0 <= j < i ==> (#[trigger] r@[j])@ == trimmed(pieces[j]),
        decreases parts.len() - i,
    {
        let t = trim_chars(&parts[i]);
        assert(pieces[i as int] == parts@[i as int]@);
        r.push(string_of(&t));
        i = i + 1;
    }
    assert(r@.map_values(|s: String| s@) =~= origins_of(list@));
    r
}

/// The failure of a step, if it failed.
pub open spec fn err_of<A>(r: Result<A, Seq<char>>) -> Option<Seq<char>> {
    match r {
        Ok(_) => None,
        Err(m) => Some(m),
    }
}

/// The value of a step that succeeded.
pub open spec fn value_of<A>(r: Result<A, Seq<char>>) -> A {
    match r {
        Ok(v) => v,
        Err(_) => arbitrary(),
    }
}

/// The first of two failures.
pub open spec fn either(a: Option<Seq<char>>, b: Option<Seq<char>>) -> Option<Seq<char>> {
    if a is Some {
        a
    } else {
        b
    }
}

/// Where the document store is.
#[derive(Clone, Debug, PartialEq, Eq)]
pub struct MongoConfig {
    pub uri: String,
    pub database: String,
}

/// Where the cache is.
#[derive(Clone, Debug, PartialEq, Eq)]
pub struct RedisConfig {
    pub url: String,
}

/// Token signing keys and lifetimes.
#[derive(Clone, Debug, PartialEq, Eq)]
pub struct JwtConfig {
    pub private_key_path: String,
    pub public_key_path: String,
    pub access_token_expiry_minutes: i64,
    pub refresh_token_expiry_days: i64,
    pub app_token_expiry_minutes: i64,
}

/// The Google OAuth client.
#[derive(Clone, Debug, PartialEq, Eq)]
pub struct GoogleOAuthConfig {
    pub client_id: String,
    pub client_secret: String,
    pub redirect_uri: String,
    pub frontend_url: String,
}

/// The mail account that sends email.
#[derive(Clone, Debug, PartialEq, Eq)]
pub struct GmailConfig {
    pub user: String,
    pub app_password: String,
}

/// Limits of the rate limiters: attempts per window of seconds.
#[derive(Clone, Debug, PartialEq, Eq)]
pub struct RateLimitConfig {
    pub login_attempts: u32,
    pub login_window_seconds: u64,
    pub register_attempts: u32,
    pub register_window_seconds: u64,
    pub password_reset_attempts: u32,
    pub password_reset_window_seconds: u64,
    pub global_ip_limit: u32,
    pub global_ip_window_seconds: u64,
    pub app_token_limit: u32,
    pub app_token_window_seconds: u64,
}

/// The refusal of the store settings, if any: the first that fails.
pub open spec fn mongoconfig_error(vars: Seq<(String, String)>, is_prod: bool) -> Option<Seq<char>> {
    either(err_of(setting(vars, "MONGODB_URI"@, None, is_prod)), either(err_of(setting(vars, "MONGODB_DATABASE"@, None, is_prod)), None))
}

/// `c` holds the store settings that `vars` describe.
pub open spec fn mongoconfig_read(c: MongoConfig, vars: Seq<(String, String)>, is_prod: bool) -> bool {
    c.uri@ == value_of(setting(vars, "MONGODB_URI"@, None, is_prod))
                && c.database@ == value_of(setting(vars, "MONGODB_DATABASE"@, None, is_prod))
}

impl MongoConfig {
    /// Reads the store settings from `vars` (all required in production).
    pub fn from_vars(vars: &EnvVars, is_prod: bool) -> (r: Result<MongoConfig, AppError>)
        ensures
            r is Ok <==> mongoconfig_error(vars@, is_prod) is None,
            r is Err ==> (r matches Err(AppError::ConfigError(m)) && mongoconfig_error(vars@, is_prod)
                == Some(m@)),
            r matches Ok(c) ==> mongoconfig_read(c, vars@, is_prod),
    {
        let uri = match get_env(vars, "MONGODB_URI", None, is_prod) {
            Ok(v) => v,
            Err(e) => return Err(e),
        };
        let database = match get_env(vars, "MONGODB_DATABASE", None, is_prod) {
            Ok(v) => v,
            Err(e) => return Err(e),
        };
        Ok(MongoConfig { uri, database })
    }
}

/// The refusal of the cache settings, if any: the first that fails.
pub open spec fn redisconfig_error(vars: Seq<(String, String)>, is_prod: bool) -> Option<Seq<char>> {
    either(err_of(setting(vars, "REDIS_URL"@, None, is_prod)), None)
}

/// `c` holds the cache settings that `vars` describe.
pub open spec fn redisconfig_read(c: RedisConfig, vars: Seq<(String, String)>, is_prod: bool) -> bool {
    c.url@ == value_of(setting(vars, "REDIS_URL"@, None, is_prod))
}

impl RedisConfig {
    /// Reads the cache settings from `vars` (all required in production).
    pub fn from_vars(vars: &EnvVars, is_prod: bool) -> (r: Result<RedisConfig, AppError>)
        ensures
            r is Ok <==> redisconfig_error(vars@, is_prod) is None,
            r is Err ==> (r matches Err(AppError::ConfigError(m)) && redisconfig_error(vars@, is_prod)
                == Some(m@)),
            r matches Ok(c) ==> redisconfig_read(c, vars@, is_prod),
    {
        let url = match get_env(vars, "REDIS_URL", None, is_prod) {
            Ok(v) => v,
            Err(e) => return Err(e),
        };
        Ok(RedisConfig { url })
    }
}

/// The refusal of the token settings, if any: the first that fails.
pub open spec fn jwtconfig_error(vars: Seq<(String, String)>, is_prod: bool) -> Option<Seq<char>> {
    either(err_of(setting(vars, "JWT_PRIVATE_KEY_PATH"@, None, is_prod)), either(err_of(setting(vars, "JWT_PUBLIC_KEY_PATH"@, None, is_prod)), either(err_of(int_setting(vars, "JWT_ACCESS_TOKEN_EXPIRY_MINUTES"@, "15"@, is_prod)), either(err_of(int_setting(vars, "JWT_REFRESH_TOKEN_EXPIRY_DAYS"@, "7"@, is_prod)), either(err_of(int_setting(vars, "JWT_APP_TOKEN_EXPIRY_MINUTES"@, "60"@, is_prod)), None)))))
}

/// `c` holds the token settings that `vars` describe.
pub open spec fn jwtconfig_read(c: JwtConfig, vars: Seq<(String, String)>, is_prod: bool) -> bool {
    c.private_key_path@ == value_of(setting(vars, "JWT_PRIVATE_KEY_PATH"@, None, is_prod))
                && c.public_key_path@ == value_of(setting(vars, "JWT_PUBLIC_KEY_PATH"@, None, is_prod))
                && c.access_token_expiry_minutes == value_of(int_setting(vars, "JWT_ACCESS_TOKEN_EXPIRY_MINUTES"@, "15"@, is_prod))
                && c.refresh_token_expiry_days == value_of(int_setting(vars, "JWT_REFRESH_TOKEN_EXPIRY_DAYS"@, "7"@, is_prod))
                && c.app_token_expiry_minutes == value_of(int_setting(vars, "JWT_APP_TOKEN_EXPIRY_MINUTES"@, "60"@, is_prod))
}

impl JwtConfig {
    /// Reads the token settings from `vars` (all required in production).
    pub fn from_vars(vars: &EnvVars, is_prod: bool) -> (r: Result<JwtConfig, AppError>)
        ensures
            r is Ok <==> jwtconfig_error(vars@, is_prod) is None,
            r is Err ==> (r matches Err(AppError::ConfigError(m)) && jwtconfig_error(vars@, is_prod)
                == Some(m@)),
            r matches Ok(c) ==> jwtconfig_read(c, vars@, is_prod),
    {
        let private_key_path = match get_env(vars, "JWT_PRIVATE_KEY_PATH", None, is_prod) {
            Ok(v) => v,
            Err(e) => return Err(e),
        };
        let public_key_path = match get_env(vars, "JWT_PUBLIC_KEY_PATH", None, is_prod) {
            Ok(v) => v,
            Err(e) => return Err(e),
        };
        let access_token_expiry_minutes = match get_i64(vars, "JWT_ACCESS_TOKEN_EXPIRY_MINUTES", "15", is_prod) {
            Ok(v) => v,
            Err(e) => return Err(e),
        };
        let refresh_token_expiry_days = match get_i64(vars, "JWT_REFRESH_TOKEN_EXPIRY_DAYS", "7", is_prod) {
            Ok(v) => v,
            Err(e) => return Err(e),
        };
        let app_token_expiry_minutes = match get_i64(vars, "JWT_APP_TOKEN_EXPIRY_MINUTES", "60", is_prod) {
            Ok(v) => v,
            Err(e) => return Err(e),
        };
        Ok(JwtConfig { private_key_path, public_key_path, access_token_expiry_minutes, refresh_token_expiry_days, app_token_expiry_minutes })
    }
}

/// The refusal of the Google OAuth settings, if any: the first that fails.
pub open spec fn googleoauthconfig_error(vars: Seq<(String, String)>, is_prod: bool) -> Option<Seq<char>> {
    either(err_of(setting(vars, "GOOGLE_CLIENT_ID"@, None, is_prod)), either(err_of(setting(vars, "GOOGLE_CLIENT_SECRET"@, None, is_prod)), either(err_of(setting(vars, "GOOGLE_REDIRECT_URI"@, None, is_prod)), either(err_of(setting(vars, "GOOGLE_FRONTEND_URL"@, Some("http://localhost:3000"@), is_prod)), None))))
}

/// `c` holds the Google OAuth settings that `vars` describe.
pub open spec fn googleoauthconfig_read(c: GoogleOAuthConfig, vars: Seq<(String, String)>, is_prod: bool) -> bool {
    c.client_id@ == value_of(setting(vars, "GOOGLE_CLIENT_ID"@, None, is_prod))
                && c.client_secret@ == value_of(setting(vars, "GOOGLE_CLIENT_SECRET"@, None, is_prod))
                && c.redirect_uri@ == value_of(setting(vars, "GOOGLE_REDIRECT_URI"@, None, is_prod))
                && c.frontend_url@ == value_of(setting(vars, "GOOGLE_FRONTEND_URL"@, Some("http://localhost:3000"@), is_prod))
}

impl GoogleOAuthConfig {
    /// Reads the Google OAuth settings from `vars` (all required in production).
    pub fn from_vars(vars: &EnvVars, is_prod: bool) -> (r: Result<GoogleOAuthConfig, AppError>)
        ensures
            r is Ok <==> googleoauthconfig_error(vars@, is_prod) is None,
            r is Err ==> (r matches Err(AppError::ConfigError(m)) && googleoauthconfig_error(vars@, is_prod)
                == Some(m@)),
            r matches Ok(c) ==> googleoauthconfig_read(c, vars@, is_prod),
    {
        let client_id = match get_env(vars, "GOOGLE_CLIENT_ID", None, is_prod) {
            Ok(v) => v,
            Err(e) => return Err(e),
        };
        let client_secret = match get_env(vars, "GOOGLE_CLIENT_SECRET", None, is_prod) {
            Ok(v) => v,
            Err(e) => return Err(e),
        };
        let redirect_uri = match get_env(vars, "GOOGLE_REDIRECT_URI", None, is_prod) {
            Ok(v) => v,
            Err(e) => return Err(e),
        };
        let frontend_url = match get_env(vars, "GOOGLE_FRONTEND_URL", Some("http://localhost:3000"), is_prod) {
            Ok(v) => v,
            Err(e) => return Err(e),
        };
        Ok(GoogleOAuthConfig { client_id, client_secret, redirect_uri, frontend_url })
    }
}

/// The refusal of the mail settings, if any: the first that fails.
pub open spec fn gmailconfig_error(vars: Seq<(String, String)>, is_prod: bool) -> Option<Seq<char>> {
    either(err_of(setting(vars, "GMAIL_USER"@, None, is_prod)), either(err_of(setting(vars, "GMAIL_APP_PASSWORD"@, None, is_prod)), None))
}

/// `c` holds the mail settings that `vars` describe.
pub open spec fn gmailconfig_read(c: GmailConfig, vars: Seq<(String, String)>, is_prod: bool) -> bool {
    c.user@ == value_of(setting(vars, "GMAIL_USER"@, None, is_prod))
                && c.app_password@ == value_of(setting(vars, "GMAIL_APP_PASSWORD"@, None, is_prod))
}

impl GmailConfig {
    /// Reads the mail settings from `vars` (all required in production).
    pub fn from_vars(vars: &EnvVars, is_prod: bool) -> (r: Result<GmailConfig, AppError>)
        ensures
            r is Ok <==> gmailconfig_error(vars@, is_prod) is None,
            r is Err ==> (r matches Err(AppError::ConfigError(m)) && gmailconfig_error(vars@, is_prod)
                == Some(m@)),
            r matches Ok(c) ==> gmailconfig_read(c, vars@, is_prod),
    {
        let user = match get_env(vars, "GMAIL_USER", None, is_prod) {
            Ok(v) => v,
            Err(e) => return Err(e),
        };
        let app_password = match get_env(vars, "GMAIL_APP_PASSWORD", None, is_prod) {
            Ok(v) => v,
            Err(e) => return Err(e),
        };
        Ok(GmailConfig { user, app_password })
    }
}

/// The refusal of the rate limit settings, if any: the first that fails.
pub open spec fn ratelimitconfig_error(vars: Seq<(String, String)>, is_prod: bool) -> Option<Seq<char>> {
    either(err_of(count_setting(vars, "RATE_LIMIT_LOGIN_ATTEMPTS"@, "5"@, 5, u32::MAX as int, is_prod)), either(err_of(count_setting(vars, "RATE_LIMIT_LOGIN_WINDOW_SECONDS"@, "900"@, 900, u64::MAX as int, is_prod)), either(err_of(count_setting(vars, "RATE_LIMIT_REGISTER_ATTEMPTS"@, "3"@, 3, u32::MAX as int, is_prod)), either(err_of(count_setting(vars, "RATE_LIMIT_REGISTER_WINDOW_SECONDS"@, "3600"@, 3600, u64::MAX as int, is_prod)), either(err_of(count_setting(vars, "RATE_LIMIT_PASSWORD_RESET_ATTEMPTS"@, "3"@, 3, u32::MAX as int, is_prod)), either(err_of(count_setting(vars, "RATE_LIMIT_PASSWORD_RESET_WINDOW_SECONDS"@, "3600"@, 3600, u64::MAX as int, is_prod)), either(err_of(count_setting(vars, "RATE_LIMIT_GLOBAL_IP_LIMIT"@, "100"@, 100, u32::MAX as int, is_prod)), either(err_of(count_setting(vars, "RATE_LIMIT_GLOBAL_IP_WINDOW_SECONDS"@, "60"@, 60, u64::MAX as int, is_prod)), either(err_of(count_setting(vars, "RATE_LIMIT_APP_TOKEN_LIMIT"@, "10"@, 10, u32::MAX as int, is_prod)), either(err_of(count_setting(vars, "RATE_LIMIT_APP_TOKEN_WINDOW_SECONDS"@, "60"@, 60, u64::MAX as int, is_prod)), None))))))))))
}

/// `c` holds the rate limit settings that `vars` describe.
pub open spec fn ratelimitconfig_read(c: RateLimitConfig, vars: Seq<(String, String)>, is_prod: bool) -> bool {
    c.login_attempts == value_of(count_setting(vars, "RATE_LIMIT_LOGIN_ATTEMPTS"@, "5"@, 5, u32::MAX as int, is_prod))
                && c.login_window_seconds == value_of(count_setting(vars, "RATE_LIMIT_LOGIN_WINDOW_SECONDS"@, "900"@, 900, u64::MAX as int, is_prod))
                && c.register_attempts == value_of(count_setting(vars, "RATE_LIMIT_REGISTER_ATTEMPTS"@, "3"@, 3, u32::MAX as int, is_prod))
                && c.register_window_seconds == value_of(count_setting(vars, "RATE_LIMIT_REGISTER_WINDOW_SECONDS"@, "3600"@, 3600, u64::MAX as int, is_prod))
                && c.password_reset_attempts == value_of(count_setting(vars, "RATE_LIMIT_PASSWORD_RESET_ATTEMPTS"@, "3"@, 3, u32::MAX as int, is_prod))
                && c.password_reset_window_seconds == value_of(count_setting(vars, "RATE_LIMIT_PASSWORD_RESET_WINDOW_SECONDS"@, "3600"@, 3600, u64::MAX as int, is_prod))
                && c.global_ip_limit == value_of(count_setting(vars, "RATE_LIMIT_GLOBAL_IP_LIMIT"@, "100"@, 100, u32::MAX as int, is_prod))
                && c.global_ip_window_seconds == value_of(count_setting(vars, "RATE_LIMIT_GLOBAL_IP_WINDOW_SECONDS"@, "60"@, 60, u64::MAX as int, is_prod))
                && c.app_token_limit == value_of(count_setting(vars, "RATE_LIMIT_APP_TOKEN_LIMIT"@, "10"@, 10, u32::MAX as int, is_prod))
                && c.app_token_window_seconds == value_of(count_setting(vars, "RATE_LIMIT_APP_TOKEN_WINDOW_SECONDS"@, "60"@, 60, u64::MAX as int, is_prod))
}

impl RateLimitConfig {
    /// Reads the rate limit settings from `vars` (all required in production).
    pub fn from_vars(vars: &EnvVars, is_prod: bool) -> (r: Result<RateLimitConfig, AppError>)
        ensures
            r is Ok <==> ratelimitconfig_error(vars@, is_prod) is None,
            r is Err ==> (r matches Err(AppError::ConfigError(m)) && ratelimitconfig_error(vars@, is_prod)
                == Some(m@)),
            r matches Ok(c) ==> ratelimitconfig_read(c, vars@, is_prod),
    {
        let login_attempts = match get_u32_or(vars, "RATE_LIMIT_LOGIN_ATTEMPTS", "5", 5, is_prod) {
            Ok(v) => v,
            Err(e) => return Err(e),
        };
        let login_window_seconds = match get_u64_or(vars, "RATE_LIMIT_LOGIN_WINDOW_SECONDS", "900", 900, is_prod) {
            Ok(v) => v,
            Err(e) => return Err(e),
        };
        let register_attempts = match get_u32_or(vars, "RATE_LIMIT_REGISTER_ATTEMPTS", "3", 3, is_prod) {
            Ok(v) => v,
            Err(e) => return Err(e),
        };
        let register_window_seconds = match get_u64_or(vars, "RATE_LIMIT_REGISTER_WINDOW_SECONDS", "3600", 3600, is_prod) {
            Ok(v) => v,
            Err(e) => return Err(e),
        };
        let password_reset_attempts = match get_u32_or(vars, "RATE_LIMIT_PASSWORD_RESET_ATTEMPTS", "3", 3, is_prod) {
            Ok(v) => v,
            Err(e) => return Err(e),
        };
        let password_reset_window_seconds = match get_u64_or(vars, "RATE_LIMIT_PASSWORD_RESET_WINDOW_SECONDS", "3600", 3600, is_prod) {
            Ok(v) => v,
            Err(e) => return Err(e),
        };
        let global_ip_limit = match get_u32_or(vars, "RATE_LIMIT_GLOBAL_IP_LIMIT", "100", 100, is_prod) {
            Ok(v) => v,
            Err(e) => return Err(e),
        };
        let global_ip_window_seconds = match get_u64_or(vars, "RATE_LIMIT_GLOBAL_IP_WINDOW_SECONDS", "60", 60, is_prod) {
            Ok(v) => v,
            Err(e) => return Err(e),
        };
        let app_token_limit = match get_u32_or(vars, "RATE_LIMIT_APP_TOKEN_LIMIT", "10", 10, is_prod) {
            Ok(v) => v,
            Err(e) => return Err(e),
        };
        let app_token_window_seconds = match get_u64_or(vars, "RATE_LIMIT_APP_TOKEN_WINDOW_SECONDS", "60", 60, is_prod) {
            Ok(v) => v,
            Err(e) => return Err(e),
        };
        Ok(RateLimitConfig { login_attempts, login_window_seconds, register_attempts, register_window_seconds, password_reset_attempts, password_reset_window_seconds, global_ip_limit, global_ip_window_seconds, app_token_limit, app_token_window_seconds })
    }
}

/// Request signing and the admin key.
#[derive(Clone, Debug, PartialEq, Eq)]
pub struct SecurityConfig {
    pub allowed_origins: Vec<String>,
    pub require_signatures: bool,
    pub admin_api_key: String,
    /// Paths that are never asked for a request signature.
    pub signature_excluded_paths: Vec<String>,
}

/// Who may see the API documentation.
#[derive(Clone, Debug, PartialEq, Eq)]
pub struct SwaggerConfig {
    pub enabled: SwaggerMode,
}

/// The settings shared by the services of the platform that this service
/// reads (its listening port).
#[derive(Clone, Debug, PartialEq, Eq)]
pub struct CommonConfig {
    pub port: u16,
}

/// The paths that are never asked for a request signature.
pub open spec fn excluded_paths_text() -> Seq<Seq<char>> {
    seq!["/health"@, "/.well-known/jwks.json"@, "/auth/verify"@, "/auth/google"@]
}

/// The paths that are never asked for a request signature.
pub fn signature_excluded_paths() -> (v: Vec<String>)
    ensures
        v@.map_values(|s: String| s@) == excluded_paths_text(),
{
    let mut v: Vec<String> = Vec::new();
    v.push("/health".to_owned());
    v.push("/.well-known/jwks.json".to_owned());
    v.push("/auth/verify".to_owned());
    v.push("/auth/google".to_owned());
    assert(v@.map_values(|s: String| s@) =~= excluded_paths_text());
    v
}

/// The `REQUIRE_SIGNATURES` setting: on only for the text `true`.
pub open spec fn signatures_setting(vars: Seq<(String, String)>, is_prod: bool) -> Result<bool, Seq<char>> {
    match setting(vars, "REQUIRE_SIGNATURES"@, Some("false"@), is_prod) {
        Err(m) => Err(m),
        Ok(v) => Ok(v == "true"@),
    }
}

/// The `ALLOWED_ORIGINS` setting, split on commas.
pub open spec fn origins_setting(vars: Seq<(String, String)>, is_prod: bool) -> Result<Seq<Seq<char>>, Seq<char>> {
    match setting(vars, "ALLOWED_ORIGINS"@, Some("http://localhost:3000"@), is_prod) {
        Err(m) => Err(m),
        Ok(v) => Ok(origins_of(v)),
    }
}

/// The refusal of the security settings, if any: the first that fails (the
/// admin key is required in every environment).
pub open spec fn security_error(vars: Seq<(String, String)>, is_prod: bool) -> Option<Seq<char>> {
    either(
        err_of(signatures_setting(vars, is_prod)),
        either(
            err_of(origins_setting(vars, is_prod)),
            err_of(setting(vars, "ADMIN_API_KEY"@, None, true)),
        ),
    )
}

/// `c` holds the security settings that `vars` describe.
pub open spec fn security_read(c: SecurityConfig, vars: Seq<(String, String)>, is_prod: bool) -> bool {
    &&& c.require_signatures == value_of(signatures_setting(vars, is_prod))
    &&& c.allowed_origins@.map_values(|s: String| s@) == value_of(origins_setting(vars, is_prod))
    &&& c.admin_api_key@ == value_of(setting(vars, "ADMIN_API_KEY"@, None, true))
    &&& c.signature_excluded_paths@.map_values(|s: String| s@) == excluded_paths_text()
}

impl SecurityConfig {
    /// Reads the security settings from `vars`.
    pub fn from_vars(vars: &EnvVars, is_prod: bool) -> (r: Result<SecurityConfig, AppError>)
        ensures
            r is Ok <==> security_error(vars@, is_prod) is None,
            r is Err ==> (r matches Err(AppError::ConfigError(m)) && security_error(vars@, is_prod)
                == Some(m@)),
            r matches Ok(c) ==> security_read(c, vars@, is_prod),
    {
        let flag = match get_env(vars, "REQUIRE_SIGNATURES", Some("false"), is_prod) {
            Ok(v) => v,
            Err(e) => return Err(e),
        };
        let require_signatures = chars_eq(&chars_of(flag.as_str()), &chars_of("true"));
        let list = match get_env(vars, "ALLOWED_ORIGINS", Some("http://localhost:3000"), is_prod) {
            Ok(v) => v,
            Err(e) => return Err(e),
        };
        let allowed_origins = split_origins(list.as_str());
        let admin_api_key = match get_env(vars, "ADMIN_API_KEY", None, true) {
            Ok(v) => v,
            Err(e) => return Err(e),
        };
        Ok(
            SecurityConfig {
                allowed_origins,
                require_signatures,
                admin_api_key,
                signature_excluded_paths: signature_excluded_paths(),
            },
        )
    }
}

/// The `ENABLE_SWAGGER` setting (by default `public`), which must name a
/// mode.
pub open spec fn swagger_setting(vars: Seq<(String, String)>, is_prod: bool) -> Result<SwaggerMode, Seq<char>> {
    match setting(vars, "ENABLE_SWAGGER"@, Some("public"@), is_prod) {
        Err(m) => Err(m),
        Ok(v) => match swagger_mode_named(v) {
            Some(m) => Ok(m),
            None => Err("Invalid swagger mode: "@ + v),
        },
    }
}

impl SwaggerConfig {
    /// Reads the documentation setting from `vars`.
    pub fn from_vars(vars: &EnvVars, is_prod: bool) -> (r: Result<SwaggerConfig, AppError>)
        ensures
            match swagger_setting(vars@, is_prod) {
                Ok(m) => r matches Ok(c) && c.enabled == m,
                Err(m) => r matches Err(AppError::ConfigError(e)) && e@ == m,
            },
    {
        let v = match get_env(vars, "ENABLE_SWAGGER", Some("public"), is_prod) {
            Ok(v) => v,
            Err(e) => return Err(e),
        };
        match SwaggerMode::from_str(v.as_str()) {
            Ok(m) => Ok(SwaggerConfig { enabled: m }),
            Err(e) => Err(AppError::ConfigError(e)),
        }
    }
}

/// The `ENVIRONMENT` setting (by default `dev`), which must name an
/// environment.
pub open spec fn environment_setting(vars: Seq<(String, String)>) -> Result<Environment, Seq<char>> {
    let v = match env_lookup(vars, "ENVIRONMENT"@) {
        Some(v) => v,
        None => "dev"@,
    };
    match environment_named(v) {
        Some(e) => Ok(e),
        None => Err("Invalid environment: "@ + v),
    }
}

/// The service's whole configuration.
#[derive(Clone, Debug, PartialEq, Eq)]
pub struct AuthConfig {
    pub common: CommonConfig,
    pub environment: Environment,
    pub service_name: String,
    pub service_version: String,
    pub log_level: String,
    pub mongodb: MongoConfig,
    pub redis: RedisConfig,
    pub jwt: JwtConfig,
    pub google: GoogleOAuthConfig,
    pub gmail: GmailConfig,
    pub security: SecurityConfig,
    pub swagger: SwaggerConfig,
    pub rate_limit: RateLimitConfig,
}

/// Why a read configuration is refused, if it is: a zero port, token
/// lifetimes that are not positive, or a wildcard origin in production.
pub open spec fn invalid_reason(
    port: u16,
    access_minutes: i64,
    refresh_days: i64,
    is_prod: bool,
    origins: Seq<Seq<char>>,
) -> Option<Seq<char>> {
    if port == 0 {
        Some("PORT must be greater than 0"@)
    } else if access_minutes <= 0 {
        Some("JWT_ACCESS_TOKEN_EXPIRY_MINUTES must be positive"@)
    } else if refresh_days <= 0 {
        Some("JWT_REFRESH_TOKEN_EXPIRY_DAYS must be positive"@)
    } else if is_prod && origins.contains("*"@) {
        Some("Wildcard CORS origin not allowed in production"@)
    } else {
        None
    }
}

/// The refusal of the configuration that `vars` describe, if any: the first
/// setting that fails, in the order the service reads them, else the
/// validation of the whole.
pub open spec fn config_error(vars: Seq<(String, String)>, port: u16, version: Seq<char>) -> Option<
    Seq<char>,
> {
    match environment_setting(vars) {
        Err(m) => Some(m),
        Ok(env) => {
            let p = env == Environment::Prod;
            either(
                err_of(setting(vars, "SERVICE_NAME"@, Some("auth-service"@), p)),
                either(
                    err_of(setting(vars, "SERVICE_VERSION"@, Some(version), p)),
                    either(
                        err_of(setting(vars, "LOG_LEVEL"@, Some("info"@), p)),
                        either(
                            mongoconfig_error(vars, p),
                            either(
                                redisconfig_error(vars, p),
                                either(
                                    jwtconfig_error(vars, p),
                                    either(
                                        googleoauthconfig_error(vars, p),
                                        either(
                                            gmailconfig_error(vars, p),
                                            either(
                                                security_error(vars, p),
                                                either(
                                                    err_of(swagger_setting(vars, p)),
                                                    either(
                                                        ratelimitconfig_error(vars, p),
                                                        invalid_reason(
                                                            port,
                                                            value_of(
                                                                int_setting(
                                                                    vars,
                                                                    "JWT_ACCESS_TOKEN_EXPIRY_MINUTES"@,
                                                                    "15"@,
                                                                    p,
                                                                ),
                                                            ) as i64,
                                                            value_of(
                                                                int_setting(
                                                                    vars,
                                                                    "JWT_REFRESH_TOKEN_EXPIRY_DAYS"@,
                                                                    "7"@,
                                                                    p,
                                                                ),
                                                            ) as i64,
                                                            p,
                                                            value_of(origins_setting(vars, p)),
                                                        ),
                                                    ),
                                                ),
                                            ),
                                        ),
                                    ),
                                ),
                            ),
                        ),
                    ),
                ),
            )
        },
    }
}

impl AuthConfig {
    /// Checks a read configuration (see `invalid_reason`).
    pub fn validate(&self) -> (r: Result<(), AppError>)
        ensures
            match invalid_reason(
                self.common.port,
                self.jwt.access_token_expiry_minutes,
                self.jwt.refresh_token_expiry_days,
                self.environment == Environment::Prod,
                self.security.allowed_origins@.map_values(|s: String| s@),
            ) {
                None => r is Ok,
                Some(m) => r matches Err(AppError::ConfigError(e)) && e@ == m,
            },
    {
        if self.common.port == 0 {
            return Err(AppError::ConfigError("PORT must be greater than 0".to_owned()));
        }
        if self.jwt.access_token_expiry_minutes <= 0 {
            return Err(
                AppError::ConfigError("JWT_ACCESS_TOKEN_EXPIRY_MINUTES must be positive".to_owned()),
            );
        }
        if self.jwt.refresh_token_expiry_days <= 0 {
            return Err(
                AppError::ConfigError("JWT_REFRESH_TOKEN_EXPIRY_DAYS must be positive".to_owned()),
            );
        }
        if self.environment == Environment::Prod {
            let star = chars_of("*");
            let ghost origins = self.security.allowed_origins@.map_values(|s: String| s@);
            let mut i: usize = 0;
            while i < self.security.allowed_origins.len()
                invariant
                    i <= self.security.allowed_origins@.len(),
                    star@ == "*"@,
                    self.common.port != 0,
                    self.jwt.access_token_expiry_minutes > 0,
                    self.jwt.refresh_token_expiry_days > 0,
                    self.environment == Environment::Prod,
                    origins == self.security.allowed_origins@.map_values(|s: String| s@),
                    forall|j: int| 0 <= j < i ==> origins[j] != "*"@,
                decreases self.security.allowed_origins@.len() - i,
            {
                if chars_eq(&chars_of(self.security.allowed_origins[i].as_str()), &star) {
                    assert(origins[i as int] == "*"@);
                    assert(origins.contains("*"@));
                    return Err(
                        AppError::ConfigError(
                            "Wildcard CORS origin not allowed in production".to_owned(),
                        ),
                    );
                }
                i = i + 1;
            }
            assert(!origins.contains("*"@));
        }
        Ok(())
    }
}

/// `c` is the configuration that `vars` describe, with the shared settings
/// `common` and the package version `version` as default version.
pub open spec fn config_read(
    c: AuthConfig,
    vars: Seq<(String, String)>,
    common: CommonConfig,
    version: Seq<char>,
) -> bool {
    let env = value_of(environment_setting(vars));
    let p = env == Environment::Prod;
    &&& c.common == common
    &&& c.environment == env
    &&& c.service_name@ == value_of(setting(vars, "SERVICE_NAME"@, Some("auth-service"@), p))
    &&& c.service_version@ == value_of(setting(vars, "SERVICE_VERSION"@, Some(version), p))
    &&& c.log_level@ == value_of(setting(vars, "LOG_LEVEL"@, Some("info"@), p))
    &&& mongoconfig_read(c.mongodb, vars, p)
    &&& redisconfig_read(c.redis, vars, p)
    &&& jwtconfig_read(c.jwt, vars, p)
    &&& googleoauthconfig_read(c.google, vars, p)
    &&& gmailconfig_read(c.gmail, vars, p)
    &&& security_read(c.security, vars, p)
    &&& c.swagger.enabled == value_of(swagger_setting(vars, p))
    &&& ratelimitconfig_read(c.rate_limit, vars, p)
}

impl AuthConfig {
    /// Reads the configuration from the environment variables `vars`, with
    /// the shared settings `common` and the package version `version` (the
    /// default of `SERVICE_VERSION`), and checks it. The first setting that
    /// fails, in reading order, is the refusal; then the checks of
    /// `validate`.
    pub fn from_vars(vars: &EnvVars, common: CommonConfig, version: &str) -> (r: Result<
        AuthConfig,
        AppError,
    >)
        ensures
            r is Ok <==> config_error(vars@, common.port, version@) is None,
            r is Err ==> (r matches Err(AppError::ConfigError(m)) && config_error(
                vars@,
                common.port,
                version@,
            ) == Some(m@)),
            r matches Ok(c) ==> config_read(c, vars@, common, version@),
    {
        let env_text = match lookup_var(vars, "ENVIRONMENT") {
            Some(v) => v,
            None => "dev".to_owned(),
        };
        let environment = match Environment::from_str(env_text.as_str()) {
            Ok(e) => e,
            Err(m) => return Err(AppError::ConfigError(m)),
        };
        let is_prod = environment == Environment::Prod;
        let service_name = match get_env(vars, "SERVICE_NAME", Some("auth-service"), is_prod) {
            Ok(v) => v,
            Err(e) => return Err(e),
        };
        let service_version = match get_env(vars, "SERVICE_VERSION", Some(version), is_prod) {
            Ok(v) => v,
            Err(e) => return Err(e),
        };
        let log_level = match get_env(vars, "LOG_LEVEL", Some("info"), is_prod) {
            Ok(v) => v,
            Err(e) => return Err(e),
        };
        let mongodb = match MongoConfig::from_vars(vars, is_prod) {
            Ok(v) => v,
            Err(e) => return Err(e),
        };
        let redis = match RedisConfig::from_vars(vars, is_prod) {
            Ok(v) => v,
            Err(e) => return Err(e),
        };
        let jwt = match JwtConfig::from_vars(vars, is_prod) {
            Ok(v) => v,
            Err(e) => return Err(e),
        };
        let google = match GoogleOAuthConfig::from_vars(vars, is_prod) {
            Ok(v) => v,
            Err(e) => return Err(e),
        };
        let gmail = match GmailConfig::from_vars(vars, is_prod) {
            Ok(v) => v,
            Err(e) => return Err(e),
        };
        let security = match SecurityConfig::from_vars(vars, is_prod) {
            Ok(v) => v,
            Err(e) => return Err(e),
        };
        let swagger = match SwaggerConfig::from_vars(vars, is_prod) {
            Ok(v) => v,
            Err(e) => return Err(e),
        };
        let rate_limit = match RateLimitConfig::from_vars(vars, is_prod) {
            Ok(v) => v,
            Err(e) => return Err(e),
        };
        let config = AuthConfig {
            common,
            environment,
            service_name,
            service_version,
            log_level,
            mongodb,
            redis,
            jwt,
            google,
            gmail,
            security,
            swagger,
            rate_limit,
        };
        match config.validate() {
            Ok(()) => Ok(config),
            Err(e) => Err(e),
        }
    }
}

/// A variable that is set is taken as it is, in every environment.
pub proof fn law_set_variable_wins(
    vars: Seq<(String, String)>,
    key: Seq<char>,
    default: Option<Seq<char>>,
    is_prod: bool,
)
    requires
        env_lookup(vars, key) is Some,
    ensures
        setting(vars, key, default, is_prod) == Ok::<Seq<char>, Seq<char>>(
            env_lookup(vars, key)->0,
        ),
{
}

/// In production no default stands in for a missing variable.
pub proof fn law_production_requires_every_setting(
    vars: Seq<(String, String)>,
    key: Seq<char>,
    default: Option<Seq<char>>,
)
    requires
        env_lookup(vars, key) is None,
    ensures
        setting(vars, key, default, true) == Err::<Seq<char>, Seq<char>>(
            key + " is required in production but not set"@,
        ),
{
}

/// Outside production a missing variable takes its default, when it has
/// one.
pub proof fn law_default_outside_production(vars: Seq<(String, String)>, key: Seq<char>, d: Seq<char>)
    requires
        env_lookup(vars, key) is None,
    ensures
        setting(vars, key, Some(d), false) == Ok::<Seq<char>, Seq<char>>(d),
{
}

/// The variable `key` is missing: it is not set, and it gets no default
/// (in production none applies; outside, only keys with one have it).
pub open spec fn missing(vars: Seq<(String, String)>, key: Seq<char>, default: Option<Seq<char>>, is_prod: bool) -> bool {
    env_lookup(vars, key) is None && (is_prod || default is None)
}

/// The whole-number variable `key` has a value (its own or its default)
/// that is not an `i64`.
pub open spec fn not_i64(vars: Seq<(String, String)>, key: Seq<char>, default: Seq<char>, is_prod: bool) -> bool {
    setting(vars, key, Some(default), is_prod) matches Ok(v) && parse_decimal(v, true, i64::MIN as int, i64::MAX as int) is Err
}

/// The value read for the whole-number variable `key`.
pub open spec fn i64_value(vars: Seq<(String, String)>, key: Seq<char>, default: Seq<char>, is_prod: bool) -> i64 {
    value_of(int_setting(vars, key, default, is_prod)) as i64
}

/// The rules under which the configuration is refused, one by one: an
/// `ENVIRONMENT` that is neither `dev` nor `prod`; a variable that is
/// missing (in production every variable read, outside only those without a
/// default); `ADMIN_API_KEY` unset in any environment; a token lifetime that
/// is not an `i64`; an `ENABLE_SWAGGER` that is not `public`,
/// `authenticated` or `disabled`; a zero port; token lifetimes that are not
/// positive; or, in production, an allowed origin `*`.
pub open spec fn refused_by_rules(vars: Seq<(String, String)>, port: u16, version: Seq<char>) -> bool {
    match environment_setting(vars) {
        Err(_) => true,
        Ok(env) => {
            let p = env == Environment::Prod;
            ||| missing(vars, "MONGODB_URI"@, None, p)
            ||| missing(vars, "MONGODB_DATABASE"@, None, p)
            ||| missing(vars, "REDIS_URL"@, None, p)
            ||| missing(vars, "JWT_PRIVATE_KEY_PATH"@, None, p)
            ||| missing(vars, "JWT_PUBLIC_KEY_PATH"@, None, p)
            ||| missing(vars, "GOOGLE_CLIENT_ID"@, None, p)
            ||| missing(vars, "GOOGLE_CLIENT_SECRET"@, None, p)
            ||| missing(vars, "GOOGLE_REDIRECT_URI"@, None, p)
            ||| missing(vars, "GMAIL_USER"@, None, p)
            ||| missing(vars, "GMAIL_APP_PASSWORD"@, None, p)
            ||| missing(vars, "SERVICE_NAME"@, Some("auth-service"@), p)
            ||| missing(vars, "SERVICE_VERSION"@, Some(version), p)
            ||| missing(vars, "LOG_LEVEL"@, Some("info"@), p)
            ||| missing(vars, "GOOGLE_FRONTEND_URL"@, Some("http://localhost:3000"@), p)
            ||| missing(vars, "REQUIRE_SIGNATURES"@, Some("false"@), p)
            ||| missing(vars, "ALLOWED_ORIGINS"@, Some("http://localhost:3000"@), p)
            ||| missing(vars, "RATE_LIMIT_LOGIN_ATTEMPTS"@, Some("5"@), p)
            ||| missing(vars, "RATE_LIMIT_LOGIN_WINDOW_SECONDS"@, Some("900"@), p)
            ||| missing(vars, "RATE_LIMIT_REGISTER_ATTEMPTS"@, Some("3"@), p)
            ||| missing(vars, "RATE_LIMIT_REGISTER_WINDOW_SECONDS"@, Some("3600"@), p)
            ||| missing(vars, "RATE_LIMIT_PASSWORD_RESET_ATTEMPTS"@, Some("3"@), p)
            ||| missing(vars, "RATE_LIMIT_PASSWORD_RESET_WINDOW_SECONDS"@, Some("3600"@), p)
            ||| missing(vars, "RATE_LIMIT_GLOBAL_IP_LIMIT"@, Some("100"@), p)
            ||| missing(vars, "RATE_LIMIT_GLOBAL_IP_WINDOW_SECONDS"@, Some("60"@), p)
            ||| missing(vars, "RATE_LIMIT_APP_TOKEN_LIMIT"@, Some("10"@), p)
            ||| missing(vars, "RATE_LIMIT_APP_TOKEN_WINDOW_SECONDS"@, Some("60"@), p)
            ||| missing(vars, "ENABLE_SWAGGER"@, Some("public"@), p)
            ||| missing(vars, "JWT_ACCESS_TOKEN_EXPIRY_MINUTES"@, Some("15"@), p)
            ||| not_i64(vars, "JWT_ACCESS_TOKEN_EXPIRY_MINUTES"@, "15"@, p)
            ||| missing(vars, "JWT_REFRESH_TOKEN_EXPIRY_DAYS"@, Some("7"@), p)
            ||| not_i64(vars, "JWT_REFRESH_TOKEN_EXPIRY_DAYS"@, "7"@, p)
            ||| missing(vars, "JWT_APP_TOKEN_EXPIRY_MINUTES"@, Some("60"@), p)
            ||| not_i64(vars, "JWT_APP_TOKEN_EXPIRY_MINUTES"@, "60"@, p)
            ||| env_lookup(vars, "ADMIN_API_KEY"@) is None
            ||| (setting(vars, "ENABLE_SWAGGER"@, Some("public"@), p) matches Ok(v) && swagger_mode_named(v) is None)
            ||| port == 0
            ||| i64_value(vars, "JWT_ACCESS_TOKEN_EXPIRY_MINUTES"@, "15"@, p) <= 0
            ||| i64_value(vars, "JWT_REFRESH_TOKEN_EXPIRY_DAYS"@, "7"@, p) <= 0
            ||| (p && value_of(origins_setting(vars, p)).contains("*"@))
        },
    }
}

/// The configuration is refused exactly under the rules of
/// `refused_by_rules`, and read otherwise.
#[verifier::rlimit(50)]
pub proof fn law_config_refused_exactly_by_rules(vars: Seq<(String, String)>, port: u16, version: Seq<char>)
    ensures
        config_error(vars, port, version) is Some <==> refused_by_rules(vars, port, version),
{
}

/// Without an admin key the configuration is refused, in every environment.
pub proof fn law_admin_key_required(vars: Seq<(String, String)>, port: u16, version: Seq<char>)
    requires
        env_lookup(vars, "ADMIN_API_KEY"@) is None,
    ensures
        config_error(vars, port, version) is Some,
{
}

/// A production configuration never allows every origin.
pub proof fn law_no_wildcard_origin_in_production(
    port: u16,
    access_minutes: i64,
    refresh_days: i64,
    origins: Seq<Seq<char>>,
)
    requires
        origins.contains("*"@),
    ensures
        invalid_reason(port, access_minutes, refresh_days, true, origins) is Some,
{
}

} // verus!
