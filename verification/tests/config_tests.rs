use auth_service::config::{AuthConfig, CommonConfig, Environment, SwaggerMode, split_origins, get_env};
use auth_service::error::AppError;

fn vars(pairs: &[(&str, &str)]) -> Vec<(String, String)> {
    pairs.iter().map(|(k, v)| (k.to_string(), v.to_string())).collect()
}

fn dev_minimum() -> Vec<(&'static str, &'static str)> {
    vec![
        ("MONGODB_URI", "mongodb://db"),
        ("MONGODB_DATABASE", "auth"),
        ("REDIS_URL", "redis://r"),
        ("JWT_PRIVATE_KEY_PATH", "priv.pem"),
        ("JWT_PUBLIC_KEY_PATH", "pub.pem"),
        ("GOOGLE_CLIENT_ID", "gid"),
        ("GOOGLE_CLIENT_SECRET", "gsecret"),
        ("GOOGLE_REDIRECT_URI", "http://cb"),
        ("GMAIL_USER", "u"),
        ("GMAIL_APP_PASSWORD", "p"),
        ("ADMIN_API_KEY", "admin"),
    ]
}

#[test]
fn environment_parsing() {
    assert_eq!(Environment::from_str("dev"), Ok(Environment::Dev));
    assert_eq!(Environment::from_str("PROD"), Ok(Environment::Prod));
    assert_eq!(Environment::from_str("staging"), Err("Invalid environment: staging".to_string()));
    assert_eq!(SwaggerMode::from_str("Authenticated"), Ok(SwaggerMode::Authenticated));
    assert_eq!(SwaggerMode::from_str("off"), Err("Invalid swagger mode: off".to_string()));
}

#[test]
fn dev_defaults_apply() {
    let c = AuthConfig::from_vars(&vars(&dev_minimum()), CommonConfig { port: 9005 }, "0.1.0").unwrap();
    assert_eq!(c.environment, Environment::Dev);
    assert_eq!(c.service_name, "auth-service");
    assert_eq!(c.service_version, "0.1.0");
    assert_eq!(c.log_level, "info");
    assert_eq!(c.jwt.access_token_expiry_minutes, 15);
    assert_eq!(c.jwt.refresh_token_expiry_days, 7);
    assert_eq!(c.jwt.app_token_expiry_minutes, 60);
    assert_eq!(c.google.frontend_url, "http://localhost:3000");
    assert_eq!(c.security.allowed_origins, vec!["http://localhost:3000".to_string()]);
    assert!(!c.security.require_signatures);
    assert_eq!(c.swagger.enabled, SwaggerMode::Public);
    assert_eq!(c.rate_limit.login_attempts, 5);
    assert_eq!(c.rate_limit.login_window_seconds, 900);
    assert_eq!(c.rate_limit.register_attempts, 3);
    assert_eq!(c.rate_limit.register_window_seconds, 3600);
    assert_eq!(c.rate_limit.global_ip_limit, 100);
    assert_eq!(c.rate_limit.app_token_limit, 10);
    assert_eq!(c.rate_limit.app_token_window_seconds, 60);
    assert_eq!(c.security.signature_excluded_paths, vec!["/health", "/.well-known/jwks.json", "/auth/verify", "/auth/google"]);
}

#[test]
fn set_values_win_and_lenient_counts_fall_back() {
    let mut v = dev_minimum();
    v.push(("RATE_LIMIT_LOGIN_ATTEMPTS", "abc"));
    v.push(("RATE_LIMIT_GLOBAL_IP_LIMIT", "7"));
    v.push(("REQUIRE_SIGNATURES", "true"));
    v.push(("ALLOWED_ORIGINS", " http://a , http://b,"));
    v.push(("ENABLE_SWAGGER", "DISABLED"));
    let c = AuthConfig::from_vars(&vars(&v), CommonConfig { port: 1 }, "x").unwrap();
    assert_eq!(c.rate_limit.login_attempts, 5);
    assert_eq!(c.rate_limit.global_ip_limit, 7);
    assert!(c.security.require_signatures);
    assert_eq!(c.security.allowed_origins, vec!["http://a", "http://b", ""]);
    assert_eq!(c.swagger.enabled, SwaggerMode::Disabled);
}

#[test]
fn missing_required_setting_refused() {
    let mut v = dev_minimum();
    v.retain(|(k, _)| *k != "REDIS_URL");
    let r = AuthConfig::from_vars(&vars(&v), CommonConfig { port: 1 }, "x");
    assert_eq!(r, Err(AppError::ConfigError("REDIS_URL is required but not set".to_string())));
}

#[test]
fn admin_key_required_everywhere() {
    let mut v = dev_minimum();
    v.retain(|(k, _)| *k != "ADMIN_API_KEY");
    let r = AuthConfig::from_vars(&vars(&v), CommonConfig { port: 1 }, "x");
    assert_eq!(r, Err(AppError::ConfigError("ADMIN_API_KEY is required in production but not set".to_string())));
}

#[test]
fn production_requires_every_setting() {
    let mut v = dev_minimum();
    v.push(("ENVIRONMENT", "prod"));
    let r = AuthConfig::from_vars(&vars(&v), CommonConfig { port: 1 }, "x");
    assert_eq!(r, Err(AppError::ConfigError("SERVICE_NAME is required in production but not set".to_string())));
    assert_eq!(get_env(&vars(&[]), "LOG_LEVEL", Some("info"), true), Err(AppError::ConfigError("LOG_LEVEL is required in production but not set".to_string())));
    assert_eq!(get_env(&vars(&[]), "LOG_LEVEL", Some("info"), false), Ok("info".to_string()));
    assert_eq!(get_env(&vars(&[("LOG_LEVEL", "debug")]), "LOG_LEVEL", Some("info"), true), Ok("debug".to_string()));
}

#[test]
fn invalid_values_refused() {
    let mut v = dev_minimum();
    v.push(("ENVIRONMENT", "qa"));
    assert_eq!(AuthConfig::from_vars(&vars(&v), CommonConfig { port: 1 }, "x"), Err(AppError::ConfigError("Invalid environment: qa".to_string())));
    let mut v = dev_minimum();
    v.push(("JWT_ACCESS_TOKEN_EXPIRY_MINUTES", "ten"));
    assert_eq!(AuthConfig::from_vars(&vars(&v), CommonConfig { port: 1 }, "x"), Err(AppError::ConfigError("invalid digit found in string".to_string())));
    let mut v = dev_minimum();
    v.push(("ENABLE_SWAGGER", "maybe"));
    assert_eq!(AuthConfig::from_vars(&vars(&v), CommonConfig { port: 1 }, "x"), Err(AppError::ConfigError("Invalid swagger mode: maybe".to_string())));
}

#[test]
fn validation_rules() {
    let v = dev_minimum();
    assert_eq!(AuthConfig::from_vars(&vars(&v), CommonConfig { port: 0 }, "x"), Err(AppError::ConfigError("PORT must be greater than 0".to_string())));
    let mut v = dev_minimum();
    v.push(("JWT_ACCESS_TOKEN_EXPIRY_MINUTES", "0"));
    assert_eq!(AuthConfig::from_vars(&vars(&v), CommonConfig { port: 1 }, "x"), Err(AppError::ConfigError("JWT_ACCESS_TOKEN_EXPIRY_MINUTES must be positive".to_string())));
    let mut v = dev_minimum();
    v.push(("JWT_REFRESH_TOKEN_EXPIRY_DAYS", "-1"));
    assert_eq!(AuthConfig::from_vars(&vars(&v), CommonConfig { port: 1 }, "x"), Err(AppError::ConfigError("JWT_REFRESH_TOKEN_EXPIRY_DAYS must be positive".to_string())));
}

fn prod_full() -> Vec<(&'static str, &'static str)> {
    let mut v = dev_minimum();
    v.extend([
        ("ENVIRONMENT", "prod"), ("SERVICE_NAME", "auth"), ("SERVICE_VERSION", "2"), ("LOG_LEVEL", "warn"),
        ("JWT_ACCESS_TOKEN_EXPIRY_MINUTES", "15"), ("JWT_REFRESH_TOKEN_EXPIRY_DAYS", "7"), ("JWT_APP_TOKEN_EXPIRY_MINUTES", "60"),
        ("GOOGLE_FRONTEND_URL", "https://app"), ("REQUIRE_SIGNATURES", "true"), ("ALLOWED_ORIGINS", "https://app"),
        ("ENABLE_SWAGGER", "disabled"),
        ("RATE_LIMIT_LOGIN_ATTEMPTS", "5"), ("RATE_LIMIT_LOGIN_WINDOW_SECONDS", "900"),
        ("RATE_LIMIT_REGISTER_ATTEMPTS", "3"), ("RATE_LIMIT_REGISTER_WINDOW_SECONDS", "3600"),
        ("RATE_LIMIT_PASSWORD_RESET_ATTEMPTS", "3"), ("RATE_LIMIT_PASSWORD_RESET_WINDOW_SECONDS", "3600"),
        ("RATE_LIMIT_GLOBAL_IP_LIMIT", "100"), ("RATE_LIMIT_GLOBAL_IP_WINDOW_SECONDS", "60"),
        ("RATE_LIMIT_APP_TOKEN_LIMIT", "10"), ("RATE_LIMIT_APP_TOKEN_WINDOW_SECONDS", "60"),
    ]);
    v
}

#[test]
fn production_configuration_and_wildcard_origin() {
    let c = AuthConfig::from_vars(&vars(&prod_full()), CommonConfig { port: 443 }, "x").unwrap();
    assert_eq!(c.environment, Environment::Prod);
    assert_eq!(c.service_version, "2");
    let mut v = prod_full();
    v.retain(|(k, _)| *k != "ALLOWED_ORIGINS");
    v.push(("ALLOWED_ORIGINS", "https://app, *"));
    assert_eq!(AuthConfig::from_vars(&vars(&v), CommonConfig { port: 443 }, "x"), Err(AppError::ConfigError("Wildcard CORS origin not allowed in production".to_string())));
}

#[test]
fn origins_split_and_trimmed() {
    assert_eq!(split_origins("a, b ,c"), vec!["a", "b", "c"]);
    assert_eq!(split_origins(""), vec![""]);
}
