//! Validated application configuration and redacted credentials.

use vstd::prelude::*;

use crate::decimal::{decimal_parse, is_pos, opt_view, value_le, value_lt, Decimal};
use crate::text::{
    ascii_lower_seq,
    concat2,
    concat4,
    owned,
    same_text,
    to_ascii_lowercase,
    trim,
    trimmed,
};

verus! {

/// Configuration error.
#[derive(Debug, Clone, PartialEq)]
pub enum ConfigError {
    /// Unknown environment name.
    UnknownEnvironment(String),
    /// Numeric setting could not be parsed.
    InvalidDecimal {
        /// Setting name.
        name: &'static str,
        /// Raw value.
        value: String,
    },
    /// A validated limit was outside its allowed range.
    InvalidRiskLimit(&'static str),
}

/// The message of a configuration error.
pub open spec fn config_error_message(e: ConfigError) -> Seq<char> {
    match e {
        ConfigError::UnknownEnvironment(v) => "unknown environment: "@ + v@,
        ConfigError::InvalidDecimal { name, value } => "invalid decimal for "@ + name@ + ": "@
            + value@,
        ConfigError::InvalidRiskLimit(m) => "invalid risk limit: "@ + m@,
    }
}

impl ConfigError {
    /// The human-readable message.
    pub fn message(&self) -> (s: String)
        ensures
            s@ == config_error_message(*self),
    {
        match self {
            ConfigError::UnknownEnvironment(v) => concat2("unknown environment: ", v.as_str()),
            ConfigError::InvalidDecimal { name, value } => concat4(
                "invalid decimal for ",
                name,
                ": ",
                value.as_str(),
            ),
            ConfigError::InvalidRiskLimit(m) => concat2("invalid risk limit: ", m),
        }
    }
}

/// Runtime environment.
#[derive(Debug, Clone, Copy, PartialEq, Eq, Structural)]
pub enum Environment {
    /// Local development with no exchange writes.
    Development,
    /// Binance Testnet or demo environment.
    Testnet,
    /// Live market data with execution disabled.
    LiveDryRun,
    /// Live trading, requiring explicit approval in future milestones.
    Live,
}

/// The environment a setting names, after trimming and ASCII lowercasing.
pub open spec fn environment_named(value: Seq<char>) -> Option<Environment> {
    let key = ascii_lower_seq(trimmed(value));
    if key == "development"@ || key == "dev"@ {
        Some(Environment::Development)
    } else if key == "testnet"@ || key == "test"@ {
        Some(Environment::Testnet)
    } else if key == "live-dry-run"@ || key == "dry-run"@ {
        Some(Environment::LiveDryRun)
    } else if key == "live"@ {
        Some(Environment::Live)
    } else {
        None
    }
}

impl Environment {
    /// Parses an environment name (`development`/`dev`, `testnet`/`test`,
    /// `live-dry-run`/`dry-run`, `live`), ignoring surrounding whitespace and ASCII case.
    pub fn parse(value: &str) -> (r: Result<Environment, ConfigError>)
        ensures
            environment_named(value@) matches Some(e) ==> r == Ok::<Environment, ConfigError>(e),
            environment_named(value@) is None ==> (r matches Err(ConfigError::UnknownEnvironment(
                s,
            )) && s@ == value@),
    {
        let t = trim(value);
        let lowered = to_ascii_lowercase(t);
        let key = lowered.as_str();
        if same_text(key, "development") || same_text(key, "dev") {
            Ok(Environment::Development)
        } else if same_text(key, "testnet") || same_text(key, "test") {
            Ok(Environment::Testnet)
        } else if same_text(key, "live-dry-run") || same_text(key, "dry-run") {
            Ok(Environment::LiveDryRun)
        } else if same_text(key, "live") {
            Ok(Environment::Live)
        } else {
            Err(ConfigError::UnknownEnvironment(owned(value)))
        }
    }
}

impl core::str::FromStr for Environment {
    type Err = ConfigError;

    fn from_str(value: &str) -> (r: Result<Environment, ConfigError>)
        ensures
            environment_named(value@) matches Some(e) ==> r == Ok::<Environment, ConfigError>(e),
            environment_named(value@) is None ==> (r matches Err(ConfigError::UnknownEnvironment(
                s,
            )) && s@ == value@),
    {
        Environment::parse(value)
    }
}

/// Hard risk limits loaded at startup.
#[derive(Debug, Clone, Copy, PartialEq)]
pub struct RiskConfig {
    /// Maximum gross notional divided by equity.
    pub max_gross_leverage: Decimal,
    /// Positive loss fraction, for example `0.02`.
    pub max_daily_loss_fraction: Decimal,
    /// Positive drawdown fraction, for example `0.08`.
    pub max_drawdown_fraction: Decimal,
}

/// A leverage limit lies in (0, 5].
pub open spec fn leverage_ok(v: (int, int)) -> bool {
    is_pos(v) && value_le(v, (5, 0))
}

/// A loss or drawdown fraction lies in (0, 1).
pub open spec fn fraction_ok(v: (int, int)) -> bool {
    is_pos(v) && value_lt(v, (1, 0))
}

/// Leverage limit lies in (0, 5].
pub open spec fn leverage_in_range(c: RiskConfig) -> bool {
    leverage_ok(c.max_gross_leverage@)
}

/// Daily loss limit lies in (0, 1).
pub open spec fn daily_loss_in_range(c: RiskConfig) -> bool {
    fraction_ok(c.max_daily_loss_fraction@)
}

/// Drawdown limit lies in (0, 1).
pub open spec fn drawdown_in_range(c: RiskConfig) -> bool {
    fraction_ok(c.max_drawdown_fraction@)
}

/// All hard limits lie in their safe ranges.
pub open spec fn risk_limits_valid(c: RiskConfig) -> bool {
    leverage_in_range(c) && daily_loss_in_range(c) && drawdown_in_range(c)
}

/// The error a range check reports.
pub open spec fn limit_error(e: ConfigError, message: Seq<char>) -> bool {
    e matches ConfigError::InvalidRiskLimit(m) && m@ == message
}

/// The message for the first limit, in checking order, that is out of range, given the
/// leverage, daily loss and drawdown limits.
pub open spec fn limit_violation_of(
    leverage: (int, int),
    daily_loss: (int, int),
    drawdown: (int, int),
) -> Seq<char> {
    if !leverage_ok(leverage) {
        "max_gross_leverage must be in (0, 5]"@
    } else if !fraction_ok(daily_loss) {
        "max_daily_loss_fraction must be in (0, 1)"@
    } else {
        "max_drawdown_fraction must be in (0, 1)"@
    }
}

/// The message for the first limit, in checking order, that is out of range.
pub open spec fn limit_violation(c: RiskConfig) -> Seq<char> {
    limit_violation_of(c.max_gross_leverage@, c.max_daily_loss_fraction@, c.max_drawdown_fraction@)
}

impl RiskConfig {
    /// Validates safe ranges for the engineering baseline.
    pub fn validate(&self) -> (r: Result<(), ConfigError>)
        ensures
            r is Ok <==> risk_limits_valid(*self),
            r matches Err(e) ==> limit_error(e, limit_violation(*self)),
    {
        let five = Decimal::from_int(5);
        let one = Decimal::one();
        if !self.max_gross_leverage.is_positive() || !self.max_gross_leverage.le(&five) {
            return Err(ConfigError::InvalidRiskLimit("max_gross_leverage must be in (0, 5]"));
        }
        if !self.max_daily_loss_fraction.is_positive() || !self.max_daily_loss_fraction.lt(&one) {
            return Err(ConfigError::InvalidRiskLimit("max_daily_loss_fraction must be in (0, 1)"));
        }
        if !self.max_drawdown_fraction.is_positive() || !self.max_drawdown_fraction.lt(&one) {
            return Err(ConfigError::InvalidRiskLimit("max_drawdown_fraction must be in (0, 1)"));
        }
        Ok(())
    }
}

impl Default for RiskConfig {
    /// The baseline limits: 2x gross leverage, 2% daily loss, 8% drawdown.
    fn default() -> (c: RiskConfig)
        ensures
            c.max_gross_leverage@ == (2int, 0int),
            c.max_daily_loss_fraction@ == (2int, 2int),
            c.max_drawdown_fraction@ == (8int, 2int),
    {
        RiskConfig {
            max_gross_leverage: Decimal::from_int(2),
            max_daily_loss_fraction: Decimal::new(2, 2),
            max_drawdown_fraction: Decimal::new(8, 2),
        }
    }
}

/// Application configuration.
#[derive(Debug, Clone, PartialEq)]
pub struct AppConfig {
    /// Runtime environment.
    pub environment: Environment,
    /// Logging filter.
    pub log_filter: String,
    /// Hard risk limits.
    pub risk: RiskConfig,
}

/// The text a setting takes: the given value, or its default when unset.
pub open spec fn setting_text(value: Option<String>, default: Seq<char>) -> Seq<char> {
    match value {
        Some(v) => v@,
        None => default,
    }
}

/// Parses one decimal setting, falling back to a default text.
fn decimal_setting(name: &'static str, value: Option<String>, default: &'static str) -> (r: Result<
    Decimal,
    ConfigError,
>)
    ensures
        decimal_parse(setting_text(value, default@)) matches Some(p) ==> (r matches Ok(d) && d@
            == p),
        decimal_parse(setting_text(value, default@)) is None ==> (r matches Err(
            ConfigError::InvalidDecimal { name: n, value: v },
        ) && n == name && v@ == setting_text(value, default@)),
{
    let text = match value {
        Some(v) => v,
        None => owned(default),
    };
    match Decimal::parse(text.as_str()) {
        Some(d) => Ok(d),
        None => Err(ConfigError::InvalidDecimal { name, value: text }),
    }
}

/// The error for a decimal setting that does not parse.
pub open spec fn invalid_decimal(e: ConfigError, name: Seq<char>, value: Seq<char>) -> bool {
    e matches ConfigError::InvalidDecimal { name: n, value: v } && n@ == name && v@ == value
}

/// The error reported for settings that fail, checked in this order: the environment
/// name, each risk limit's decimal text (leverage, daily loss, drawdown), then the
/// limits' ranges.
pub open spec fn settings_error(
    environment: Option<String>,
    max_gross_leverage: Option<String>,
    max_daily_loss_fraction: Option<String>,
    max_drawdown_fraction: Option<String>,
    e: ConfigError,
) -> bool {
    let env_text = setting_text(environment, "development"@);
    let leverage = setting_text(max_gross_leverage, "2.0"@);
    let daily_loss = setting_text(max_daily_loss_fraction, "0.02"@);
    let drawdown = setting_text(max_drawdown_fraction, "0.08"@);
    if environment_named(env_text) is None {
        e matches ConfigError::UnknownEnvironment(s) && s@ == env_text
    } else if decimal_parse(leverage) is None {
        invalid_decimal(e, "QUANTHELM_MAX_GROSS_LEVERAGE"@, leverage)
    } else if decimal_parse(daily_loss) is None {
        invalid_decimal(e, "QUANTHELM_MAX_DAILY_LOSS_FRACTION"@, daily_loss)
    } else if decimal_parse(drawdown) is None {
        invalid_decimal(e, "QUANTHELM_MAX_DRAWDOWN_FRACTION"@, drawdown)
    } else {
        limit_error(
            e,
            limit_violation_of(
                decimal_parse(leverage).unwrap(),
                decimal_parse(daily_loss).unwrap(),
                decimal_parse(drawdown).unwrap(),
            ),
        )
    }
}

impl AppConfig {
    /// Builds and validates configuration from the raw settings (each `None` when unset):
    /// environment (default `development`), log filter (default `info`), and the three
    /// risk limits (defaults `2.0`, `0.02`, `0.08`).
    pub fn from_settings(
        environment: Option<String>,
        log_filter: Option<String>,
        max_gross_leverage: Option<String>,
        max_daily_loss_fraction: Option<String>,
        max_drawdown_fraction: Option<String>,
    ) -> (r: Result<AppConfig, ConfigError>)
        ensures
            r matches Ok(c) ==> {
                &&& environment_named(setting_text(environment, "development"@)) == Some(
                    c.environment,
                )
                &&& c.log_filter@ == setting_text(log_filter, "info"@)
                &&& decimal_parse(setting_text(max_gross_leverage, "2.0"@)) == Some(
                    c.risk.max_gross_leverage@,
                )
                &&& decimal_parse(setting_text(max_daily_loss_fraction, "0.02"@)) == Some(
                    c.risk.max_daily_loss_fraction@,
                )
                &&& decimal_parse(setting_text(max_drawdown_fraction, "0.08"@)) == Some(
                    c.risk.max_drawdown_fraction@,
                )
                &&& risk_limits_valid(c.risk)
            },
            r is Ok <==> {
                &&& environment_named(setting_text(environment, "development"@)) is Some
                &&& decimal_parse(setting_text(max_gross_leverage, "2.0"@)) matches Some(l)
                    && leverage_ok(l)
                &&& decimal_parse(setting_text(max_daily_loss_fraction, "0.02"@)) matches Some(d)
                    && fraction_ok(d)
                &&& decimal_parse(setting_text(max_drawdown_fraction, "0.08"@)) matches Some(w)
                    && fraction_ok(w)
            },
            r matches Err(e) ==> settings_error(
                environment,
                max_gross_leverage,
                max_daily_loss_fraction,
                max_drawdown_fraction,
                e,
            ),
    {
        let env_text = match environment {
            Some(v) => v,
            None => owned("development"),
        };
        let environment = match Environment::parse(env_text.as_str()) {
            Ok(e) => e,
            Err(e) => return Err(e),
        };
        let log_filter = match log_filter {
            Some(v) => v,
            None => owned("info"),
        };
        let max_gross_leverage = match decimal_setting(
            "QUANTHELM_MAX_GROSS_LEVERAGE",
            max_gross_leverage,
            "2.0",
        ) {
            Ok(d) => d,
            Err(e) => return Err(e),
        };
        let max_daily_loss_fraction = match decimal_setting(
            "QUANTHELM_MAX_DAILY_LOSS_FRACTION",
            max_daily_loss_fraction,
            "0.02",
        ) {
            Ok(d) => d,
            Err(e) => return Err(e),
        };
        let max_drawdown_fraction = match decimal_setting(
            "QUANTHELM_MAX_DRAWDOWN_FRACTION",
            max_drawdown_fraction,
            "0.08",
        ) {
            Ok(d) => d,
            Err(e) => return Err(e),
        };
        let risk = RiskConfig { max_gross_leverage, max_daily_loss_fraction, max_drawdown_fraction };
        match risk.validate() {
            Ok(()) => {},
            Err(e) => return Err(e),
        }
        Ok(AppConfig { environment, log_filter, risk })
    }
}

/// Secret text that never exposes its contents through its rendered form.
#[derive(PartialEq)]
pub struct SecretString(String);

impl View for SecretString {
    type V = Seq<char>;

    closed spec fn view(&self) -> Seq<char> {
        self.0@
    }
}

impl SecretString {
    /// Wraps a secret value.
    pub fn new(value: &str) -> (s: SecretString)
        ensures
            s@ == value@,
    {
        SecretString(owned(value))
    }

    /// Exposes the secret only at the narrow integration boundary that needs it.
    pub fn expose(&self) -> (s: &str)
        ensures
            s@ == self@,
    {
        self.0.as_str()
    }

    /// The rendered debugging form, which never includes the secret.
    pub fn debug_text(&self) -> (s: String)
        ensures
            s@ == "SecretString([REDACTED])"@,
    {
        owned("SecretString([REDACTED])")
    }

    /// The rendered display form, which never includes the secret.
    pub fn display_text(&self) -> (s: String)
        ensures
            s@ == "[REDACTED]"@,
    {
        owned("[REDACTED]")
    }
}

impl Clone for SecretString {
    fn clone(&self) -> (s: SecretString)
        ensures
            s@ == self@,
    {
        SecretString(self.0.clone())
    }
}

/// Exchange API credentials. This type is intentionally not serializable.
#[derive(PartialEq)]
pub struct ApiCredentials {
    /// API key.
    pub api_key: SecretString,
    /// API secret.
    pub api_secret: SecretString,
}

impl ApiCredentials {
    /// The rendered debugging form: fixed text that shows neither value nor the field names.
    pub fn debug_text(&self) -> (s: String)
        ensures
            s@ == "ApiCredentials([REDACTED])"@,
    {
        owned("ApiCredentials([REDACTED])")
    }
}

} // verus!
