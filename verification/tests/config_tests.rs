use quanthelm::config::{ApiCredentials, AppConfig, ConfigError, Environment, RiskConfig, SecretString};
use quanthelm::decimal::Decimal;

#[test]
fn defaults_are_valid() {
    assert!(RiskConfig::default().validate().is_ok());
}

#[test]
fn excessive_leverage_is_rejected() {
    let config = RiskConfig {
        max_gross_leverage: Decimal::from_int(6),
        ..RiskConfig::default()
    };
    assert!(config.validate().is_err());
}

#[test]
fn credentials_are_redacted() {
    let credentials = ApiCredentials {
        api_key: SecretString::new("key"),
        api_secret: SecretString::new("secret"),
    };
    let rendered = credentials.debug_text();
    assert!(!rendered.contains("key"));
    assert!(!rendered.contains("secret"));
}

#[test]
fn secret_is_exposed_only_on_request() {
    let secret = SecretString::new("hunter2");
    assert_eq!(secret.expose(), "hunter2");
    assert_eq!(secret.debug_text(), "SecretString([REDACTED])");
    assert_eq!(secret.display_text(), "[REDACTED]");
}

#[test]
fn default_limits_are_the_baseline() {
    let config = RiskConfig::default();
    assert_eq!(config.max_gross_leverage, Decimal::from_int(2));
    assert_eq!(config.max_daily_loss_fraction, Decimal::new(2, 2));
    assert_eq!(config.max_drawdown_fraction, Decimal::new(8, 2));
}

#[test]
fn each_limit_is_checked_in_order() {
    let leverage = RiskConfig {
        max_gross_leverage: Decimal::zero(),
        ..RiskConfig::default()
    };
    assert_eq!(
        leverage.validate(),
        Err(ConfigError::InvalidRiskLimit("max_gross_leverage must be in (0, 5]"))
    );
    let at_cap = RiskConfig {
        max_gross_leverage: Decimal::from_int(5),
        ..RiskConfig::default()
    };
    assert!(at_cap.validate().is_ok());
    let daily = RiskConfig {
        max_daily_loss_fraction: Decimal::one(),
        ..RiskConfig::default()
    };
    assert_eq!(
        daily.validate(),
        Err(ConfigError::InvalidRiskLimit("max_daily_loss_fraction must be in (0, 1)"))
    );
    let drawdown = RiskConfig {
        max_drawdown_fraction: Decimal::new(-1, 2),
        ..RiskConfig::default()
    };
    assert_eq!(
        drawdown.validate(),
        Err(ConfigError::InvalidRiskLimit("max_drawdown_fraction must be in (0, 1)"))
    );
}

#[test]
fn environment_names_and_aliases() {
    assert_eq!(Environment::parse("development"), Ok(Environment::Development));
    assert_eq!(Environment::parse("dev"), Ok(Environment::Development));
    assert_eq!(Environment::parse(" TestNet "), Ok(Environment::Testnet));
    assert_eq!(Environment::parse("test"), Ok(Environment::Testnet));
    assert_eq!(Environment::parse("Live-Dry-Run"), Ok(Environment::LiveDryRun));
    assert_eq!(Environment::parse("dry-run"), Ok(Environment::LiveDryRun));
    assert_eq!(Environment::parse("live"), Ok(Environment::Live));
    assert_eq!(
        Environment::parse(" prod "),
        Err(ConfigError::UnknownEnvironment(" prod ".to_owned()))
    );
    let parsed: Environment = "LIVE".parse().expect("known environment");
    assert_eq!(parsed, Environment::Live);
}

#[test]
fn settings_fall_back_to_defaults() {
    let config = AppConfig::from_settings(None, None, None, None, None).expect("defaults");
    assert_eq!(config.environment, Environment::Development);
    assert_eq!(config.log_filter, "info");
    assert_eq!(config.risk, RiskConfig::default());
}

#[test]
fn settings_are_read_and_validated() {
    let config = AppConfig::from_settings(
        Some("testnet".to_owned()),
        Some("debug".to_owned()),
        Some("3".to_owned()),
        Some("0.05".to_owned()),
        Some("0.1".to_owned()),
    )
    .expect("valid settings");
    assert_eq!(config.environment, Environment::Testnet);
    assert_eq!(config.log_filter, "debug");
    assert_eq!(config.risk.max_gross_leverage, Decimal::from_int(3));
    assert_eq!(config.risk.max_daily_loss_fraction, Decimal::new(5, 2));
    assert_eq!(config.risk.max_drawdown_fraction, Decimal::new(1, 1));

    assert_eq!(
        AppConfig::from_settings(Some("mainnet".to_owned()), None, None, None, None),
        Err(ConfigError::UnknownEnvironment("mainnet".to_owned()))
    );
    assert_eq!(
        AppConfig::from_settings(None, None, Some("two".to_owned()), None, None),
        Err(ConfigError::InvalidDecimal {
            name: "QUANTHELM_MAX_GROSS_LEVERAGE",
            value: "two".to_owned(),
        })
    );
    assert_eq!(
        AppConfig::from_settings(None, None, Some("9".to_owned()), None, None),
        Err(ConfigError::InvalidRiskLimit("max_gross_leverage must be in (0, 5]"))
    );
}

#[test]
fn config_error_messages() {
    assert_eq!(
        ConfigError::UnknownEnvironment("x".to_owned()).message(),
        "unknown environment: x"
    );
    assert_eq!(
        ConfigError::InvalidDecimal { name: "N", value: "v".to_owned() }.message(),
        "invalid decimal for N: v"
    );
    assert_eq!(
        ConfigError::InvalidRiskLimit("bad").message(),
        "invalid risk limit: bad"
    );
}

#[test]
fn environment_names_ignore_unicode_whitespace() {
    assert_eq!(Environment::parse("\u{3000}live\u{a0}\u{2029}"), Ok(Environment::Live));
    assert_eq!(Environment::parse("\t\r\nDEV\u{85}"), Ok(Environment::Development));
    assert_eq!(
        Environment::parse("\u{200b}live"),
        Err(ConfigError::UnknownEnvironment("\u{200b}live".to_owned()))
    );
    let padded = "\u{1680}\u{2000}\u{200a}\u{202f}\u{205f}testnet\u{2028}\u{b}\u{c}";
    assert_eq!(padded.trim(), "testnet");
    assert_eq!(Environment::parse(padded), Ok(Environment::Testnet));
}
