use telefetch::config::{env_lookup, parse_i32, parse_i64, AppConfig, ConfigError};

fn pair(k: &str, v: &str) -> (String, String) {
    (k.to_string(), v.to_string())
}

fn full_env() -> Vec<(String, String)> {
    vec![
        pair("TELEGRAM_API_ID", "12345"),
        pair("TELEGRAM_API_HASH", "SECRET-REDACTED"),
        pair("BOT_TOKEN", "SECRET-REDACTED"),
        pair("USER_ID", "-1009876543210"),
        pair("DOWNLOAD_DIRECTORY", "/downloads"),
    ]
}

#[test]
fn full_environment_parses() {
    let env = full_env();
    let config = AppConfig::from_env(&env).expect("complete environment");
    assert_eq!(config.api_id, 12345);
    assert_eq!(config.api_hash, "SECRET-REDACTED");
    assert_eq!(config.bot_token, "SECRET-REDACTED");
    assert_eq!(config.user_id, -1009876543210);
    assert_eq!(config.download_directory, "/downloads");
}

#[test]
fn each_missing_variable_is_named() {
    for (idx, expected) in [
        ConfigError::ApiIdNotFound,
        ConfigError::ApiHashNotFound,
        ConfigError::BotTokenNotFound,
        ConfigError::UserIdNotFound,
        ConfigError::DownloadDirectoryNotFound,
    ]
    .into_iter()
    .enumerate()
    {
        let mut env = full_env();
        env.remove(idx);
        assert_eq!(AppConfig::from_env(&env), Err(expected));
    }
}

#[test]
fn unparsable_number_counts_as_not_found() {
    let mut env = full_env();
    env[0].1 = "not a number".to_string();
    assert_eq!(AppConfig::from_env(&env), Err(ConfigError::ApiIdNotFound));
    let mut env = full_env();
    env[3].1 = "12x".to_string();
    assert_eq!(AppConfig::from_env(&env), Err(ConfigError::UserIdNotFound));
}

#[test]
fn the_first_failure_wins() {
    let env = vec![pair("DOWNLOAD_DIRECTORY", "/downloads")];
    assert_eq!(AppConfig::from_env(&env), Err(ConfigError::ApiIdNotFound));
}

#[test]
fn error_messages_name_the_variable() {
    assert_eq!(ConfigError::ApiIdNotFound.message(), "TELEGRAM_API_ID not found");
    assert_eq!(ConfigError::ApiHashNotFound.message(), "TELEGRAM_API_HASH not found");
    assert_eq!(ConfigError::BotTokenNotFound.message(), "BOT_TOKEN not found");
    assert_eq!(ConfigError::UserIdNotFound.message(), "USER_ID not found");
    assert_eq!(
        ConfigError::DownloadDirectoryNotFound.message(),
        "DOWNLOAD_DIRECTORY not found"
    );
}

#[test]
fn lookup_takes_the_first_match() {
    let env = vec![pair("K", "first"), pair("K", "second")];
    assert_eq!(env_lookup(&env, "K"), Some("first".to_string()));
    assert_eq!(env_lookup(&env, "MISSING"), None);
}

#[test]
fn parse_i64_accepts_signs_and_leading_zeros() {
    assert_eq!(parse_i64("123"), Some(123));
    assert_eq!(parse_i64("-5"), Some(-5));
    assert_eq!(parse_i64("+7"), Some(7));
    assert_eq!(parse_i64("007"), Some(7));
    assert_eq!(parse_i64("0"), Some(0));
    assert_eq!(parse_i64("-0"), Some(0));
}

#[test]
fn parse_i64_rejects_garbage() {
    assert_eq!(parse_i64(""), None);
    assert_eq!(parse_i64("-"), None);
    assert_eq!(parse_i64("+"), None);
    assert_eq!(parse_i64("12a"), None);
    assert_eq!(parse_i64(" 12"), None);
    assert_eq!(parse_i64("1 2"), None);
    assert_eq!(parse_i64("--4"), None);
}

#[test]
fn parse_i64_range_edges() {
    assert_eq!(parse_i64("9223372036854775807"), Some(i64::MAX));
    assert_eq!(parse_i64("9223372036854775808"), None);
    assert_eq!(parse_i64("-9223372036854775808"), Some(i64::MIN));
    assert_eq!(parse_i64("-9223372036854775809"), None);
    assert_eq!(parse_i64("99999999999999999999999999"), None);
}

#[test]
fn parse_i32_range_edges() {
    assert_eq!(parse_i32("2147483647"), Some(i32::MAX));
    assert_eq!(parse_i32("2147483648"), None);
    assert_eq!(parse_i32("-2147483648"), Some(i32::MIN));
    assert_eq!(parse_i32("-2147483649"), None);
    assert_eq!(parse_i32("abc"), None);
}
