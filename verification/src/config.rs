//! The agent's settings: defaults, what the environment, a settings file and
//! the command line each contribute, and the rules a finished record must meet.

use vstd::prelude::*;
use vstd::string::*;
use std::path::PathBuf;
use crate::text::{bounded_decimal, decimal_digits, decimal_string, parse_unsigned, same_text};

verus! {

/// `std::path::PathBuf`: the name of the settings file, carried and never
/// looked into.
#[verifier::external_type_specification]
#[verifier::external_body]
pub struct ExPathBuf(PathBuf);

/// How much is logged.
#[derive(Debug, Clone, Copy, PartialEq, Eq, Structural)]
pub enum LogLevel {
    Trace,
    Debug,
    Info,
    Warn,
    Error,
}

impl Default for LogLevel {
    fn default() -> (level: Self)
        ensures
            level == LogLevel::Info,
    {
        LogLevel::Info
    }
}

impl LogLevel {
    /// The rank of the level: the higher, the graver.
    pub open spec fn severity(self) -> nat {
        match self {
            LogLevel::Trace => 0,
            LogLevel::Debug => 1,
            LogLevel::Info => 2,
            LogLevel::Warn => 3,
            LogLevel::Error => 4,
        }
    }

    /// The lower-case name of the level.
    pub open spec fn name(self) -> Seq<char> {
        match self {
            LogLevel::Trace => "trace"@,
            LogLevel::Debug => "debug"@,
            LogLevel::Info => "info"@,
            LogLevel::Warn => "warn"@,
            LogLevel::Error => "error"@,
        }
    }

    /// The lower-case name of the level, which is also the filter directive
    /// that lets events of this level and above pass.
    pub fn as_str(&self) -> (name: &'static str)
        ensures
            name@ == self.name(),
    {
        match self {
            LogLevel::Trace => "trace",
            LogLevel::Debug => "debug",
            LogLevel::Info => "info",
            LogLevel::Warn => "warn",
            LogLevel::Error => "error",
        }
    }
}

/// How log events are written.
#[derive(Debug, Clone, Copy, PartialEq, Eq, Structural)]
pub enum LogFormat {
    Json,
    Pretty,
}

impl Default for LogFormat {
    fn default() -> (format: Self)
        ensures
            format == LogFormat::Json,
    {
        LogFormat::Json
    }
}

/// The level that a lower-case name stands for.
pub open spec fn level_named(name: Seq<char>) -> Option<LogLevel> {
    if name == "trace"@ {
        Some(LogLevel::Trace)
    } else if name == "debug"@ {
        Some(LogLevel::Debug)
    } else if name == "info"@ {
        Some(LogLevel::Info)
    } else if name == "warn"@ {
        Some(LogLevel::Warn)
    } else if name == "error"@ {
        Some(LogLevel::Error)
    } else {
        None
    }
}

/// The format that a lower-case name stands for.
pub open spec fn format_named(name: Seq<char>) -> Option<LogFormat> {
    if name == "json"@ {
        Some(LogFormat::Json)
    } else if name == "pretty"@ {
        Some(LogFormat::Pretty)
    } else {
        None
    }
}

/// The level that `name` stands for, if it is one of the five lower-case names.
pub fn log_level_named(name: &str) -> (level: Option<LogLevel>)
    ensures
        level == level_named(name@),
{
    if same_text(name, "trace") {
        Some(LogLevel::Trace)
    } else if same_text(name, "debug") {
        Some(LogLevel::Debug)
    } else if same_text(name, "info") {
        Some(LogLevel::Info)
    } else if same_text(name, "warn") {
        Some(LogLevel::Warn)
    } else if same_text(name, "error") {
        Some(LogLevel::Error)
    } else {
        None
    }
}

/// The format that `name` stands for, if it is `json` or `pretty`.
pub fn log_format_named(name: &str) -> (format: Option<LogFormat>)
    ensures
        format == format_named(name@),
{
    if same_text(name, "json") {
        Some(LogFormat::Json)
    } else if same_text(name, "pretty") {
        Some(LogFormat::Pretty)
    } else {
        None
    }
}

/// What `str::to_lowercase` makes of a text.
pub uninterp spec fn lowercase_of(text: Seq<char>) -> Seq<char>;

/// `str::to_lowercase`: the lower-case form of `text` under the Unicode
/// case mapping, which depends on the characters of `text` alone.
#[verifier::external_body]
fn to_lowercase(text: &str) -> (lowered: String)
    ensures
        lowered@ == lowercase_of(text@),
{
    text.to_lowercase()
}

/// Reads a level whatever the case of its letters.
pub fn parse_log_level(raw: &str) -> (level: Option<LogLevel>)
    ensures
        level == level_named(lowercase_of(raw@)),
{
    let lowered = to_lowercase(raw);
    log_level_named(lowered.as_str())
}

/// Reads a format whatever the case of its letters.
pub fn parse_log_format(raw: &str) -> (format: Option<LogFormat>)
    ensures
        format == format_named(lowercase_of(raw@)),
{
    let lowered = to_lowercase(raw);
    log_format_named(lowered.as_str())
}

/// The settings the agent runs with.
#[derive(Debug, Clone)]
pub struct AgentConfig {
    pub server_port: u16,
    pub server_bind_address: String,
    pub grpc_connect_timeout_ms: u64,
    pub grpc_rpc_timeout_ms: u64,
    pub metrics_port: u16,
    pub metrics_bind_address: String,
    pub log_level: LogLevel,
    pub log_format: LogFormat,
}

/// What an `AgentConfig` holds, as plain values.
pub struct ConfigView {
    pub server_port: u16,
    pub server_bind_address: Seq<char>,
    pub grpc_connect_timeout_ms: u64,
    pub grpc_rpc_timeout_ms: u64,
    pub metrics_port: u16,
    pub metrics_bind_address: Seq<char>,
    pub log_level: LogLevel,
    pub log_format: LogFormat,
}

impl View for AgentConfig {
    type V = ConfigView;

    open spec fn view(&self) -> ConfigView {
        ConfigView {
            server_port: self.server_port,
            server_bind_address: self.server_bind_address@,
            grpc_connect_timeout_ms: self.grpc_connect_timeout_ms,
            grpc_rpc_timeout_ms: self.grpc_rpc_timeout_ms,
            metrics_port: self.metrics_port,
            metrics_bind_address: self.metrics_bind_address@,
            log_level: self.log_level,
            log_format: self.log_format,
        }
    }
}

pub fn default_server_port() -> (port: u16)
    ensures
        port == 5555,
{
    5555
}

pub fn default_metrics_port() -> (port: u16)
    ensures
        port == 9090,
{
    9090
}

pub fn default_bind_address() -> (address: String)
    ensures
        address@ == "0.0.0.0"@,
{
    String::from_str("0.0.0.0")
}

pub fn default_grpc_connect_timeout() -> (milliseconds: u64)
    ensures
        milliseconds == 1000,
{
    1000
}

pub fn default_grpc_rpc_timeout() -> (milliseconds: u64)
    ensures
        milliseconds == 1500,
{
    1500
}

/// The settings used where nothing else is said.
pub open spec fn default_settings() -> ConfigView {
    ConfigView {
        server_port: 5555,
        server_bind_address: "0.0.0.0"@,
        grpc_connect_timeout_ms: 1000,
        grpc_rpc_timeout_ms: 1500,
        metrics_port: 9090,
        metrics_bind_address: "0.0.0.0"@,
        log_level: LogLevel::Info,
        log_format: LogFormat::Json,
    }
}

impl Default for AgentConfig {
    fn default() -> (config: Self)
        ensures
            config@ == default_settings(),
    {
        AgentConfig {
            server_port: default_server_port(),
            server_bind_address: default_bind_address(),
            grpc_connect_timeout_ms: default_grpc_connect_timeout(),
            grpc_rpc_timeout_ms: default_grpc_rpc_timeout(),
            metrics_port: default_metrics_port(),
            metrics_bind_address: default_bind_address(),
            log_level: LogLevel::Info,
            log_format: LogFormat::Json,
        }
    }
}

/// Why settings were refused.
#[derive(Debug, Clone, PartialEq, Eq)]
pub enum ConfigError {
    /// The agent's port is zero.
    ServerPortZero,
    /// The metrics port is zero.
    MetricsPortZero,
    /// The agent and the metrics endpoint share the port in the payload.
    PortConflict(u16),
    /// The connect timeout is zero.
    ConnectTimeoutZero,
    /// The call timeout is zero.
    RpcTimeoutZero,
    /// The environment's agent port is no number from 0 to 65535.
    InvalidServerPort(String),
    /// The environment's metrics port is no number from 0 to 65535.
    InvalidMetricsPort(String),
    /// The environment's connect timeout is no 64-bit number.
    InvalidConnectTimeout(String),
    /// The environment's call timeout is no 64-bit number.
    InvalidRpcTimeout(String),
    /// The environment's log level is none of the five names.
    InvalidLogLevel(String),
    /// The environment's log format is neither of the two names.
    InvalidLogFormat(String),
}

/// What a `ConfigError` holds, as plain values.
pub enum ConfigErrorView {
    ServerPortZero,
    MetricsPortZero,
    PortConflict(u16),
    ConnectTimeoutZero,
    RpcTimeoutZero,
    InvalidServerPort(Seq<char>),
    InvalidMetricsPort(Seq<char>),
    InvalidConnectTimeout(Seq<char>),
    InvalidRpcTimeout(Seq<char>),
    InvalidLogLevel(Seq<char>),
    InvalidLogFormat(Seq<char>),
}

impl ConfigErrorView {
    /// The sentence that describes the error.
    pub open spec fn message(self) -> Seq<char> {
        match self {
            ConfigErrorView::ServerPortZero => "server_port must be between 1 and 65535"@,
            ConfigErrorView::MetricsPortZero => "metrics_port must be between 1 and 65535"@,
            ConfigErrorView::PortConflict(port) => "server_port ("@ + decimal_digits(port as nat)
                + ") and metrics_port ("@ + decimal_digits(port as nat)
                + ") cannot be the same"@,
            ConfigErrorView::ConnectTimeoutZero => "grpc_connect_timeout_ms must be greater than 0"@,
            ConfigErrorView::RpcTimeoutZero => "grpc_rpc_timeout_ms must be greater than 0"@,
            ConfigErrorView::InvalidServerPort(_) => "Invalid HAPROXY_AGENT_SERVER_PORT"@,
            ConfigErrorView::InvalidMetricsPort(_) => "Invalid HAPROXY_AGENT_METRICS_PORT"@,
            ConfigErrorView::InvalidConnectTimeout(_) => "Invalid HAPROXY_AGENT_GRPC_CONNECT_TIMEOUT"@,
            ConfigErrorView::InvalidRpcTimeout(_) => "Invalid HAPROXY_AGENT_GRPC_RPC_TIMEOUT"@,
            ConfigErrorView::InvalidLogLevel(raw) => "Invalid log level: "@ + raw,
            ConfigErrorView::InvalidLogFormat(raw) => "Invalid log format: "@ + raw,
        }
    }
}

impl View for ConfigError {
    type V = ConfigErrorView;

    open spec fn view(&self) -> ConfigErrorView {
        match self {
            ConfigError::ServerPortZero => ConfigErrorView::ServerPortZero,
            ConfigError::MetricsPortZero => ConfigErrorView::MetricsPortZero,
            ConfigError::PortConflict(port) => ConfigErrorView::PortConflict(*port),
            ConfigError::ConnectTimeoutZero => ConfigErrorView::ConnectTimeoutZero,
            ConfigError::RpcTimeoutZero => ConfigErrorView::RpcTimeoutZero,
            ConfigError::InvalidServerPort(raw) => ConfigErrorView::InvalidServerPort(raw@),
            ConfigError::InvalidMetricsPort(raw) => ConfigErrorView::InvalidMetricsPort(raw@),
            ConfigError::InvalidConnectTimeout(raw) => ConfigErrorView::InvalidConnectTimeout(raw@),
            ConfigError::InvalidRpcTimeout(raw) => ConfigErrorView::InvalidRpcTimeout(raw@),
            ConfigError::InvalidLogLevel(raw) => ConfigErrorView::InvalidLogLevel(raw@),
            ConfigError::InvalidLogFormat(raw) => ConfigErrorView::InvalidLogFormat(raw@),
        }
    }
}

impl ConfigError {
    /// The sentence that describes the error.
    pub fn message(&self) -> (text: String)
        ensures
            text@ == self@.message(),
    {
        match self {
            ConfigError::ServerPortZero => String::from_str(
                "server_port must be between 1 and 65535",
            ),
            ConfigError::MetricsPortZero => String::from_str(
                "metrics_port must be between 1 and 65535",
            ),
            ConfigError::PortConflict(port) => {
                let number = decimal_string(*port as u128);
                let mut text = String::from_str("server_port (");
                text.append(number.as_str());
                text.append(") and metrics_port (");
                text.append(number.as_str());
                text.append(") cannot be the same");
                text
            },
            ConfigError::ConnectTimeoutZero => String::from_str(
                "grpc_connect_timeout_ms must be greater than 0",
            ),
            ConfigError::RpcTimeoutZero => String::from_str(
                "grpc_rpc_timeout_ms must be greater than 0",
            ),
            ConfigError::InvalidServerPort(_) => String::from_str(
                "Invalid HAPROXY_AGENT_SERVER_PORT",
            ),
            ConfigError::InvalidMetricsPort(_) => String::from_str(
                "Invalid HAPROXY_AGENT_METRICS_PORT",
            ),
            ConfigError::InvalidConnectTimeout(_) => String::from_str(
                "Invalid HAPROXY_AGENT_GRPC_CONNECT_TIMEOUT",
            ),
            ConfigError::InvalidRpcTimeout(_) => String::from_str(
                "Invalid HAPROXY_AGENT_GRPC_RPC_TIMEOUT",
            ),
            ConfigError::InvalidLogLevel(raw) => {
                let mut text = String::from_str("Invalid log level: ");
                text.append(raw.as_str());
                text
            },
            ConfigError::InvalidLogFormat(raw) => {
                let mut text = String::from_str("Invalid log format: ");
                text.append(raw.as_str());
                text
            },
        }
    }
}

/// The rules a settings record must meet, and the first one it breaks:
/// no port is zero, the two ports differ, no timeout is zero.
pub open spec fn validation(c: ConfigView) -> Result<(), ConfigErrorView> {
    if c.server_port == 0 {
        Err(ConfigErrorView::ServerPortZero)
    } else if c.metrics_port == 0 {
        Err(ConfigErrorView::MetricsPortZero)
    } else if c.server_port == c.metrics_port {
        Err(ConfigErrorView::PortConflict(c.server_port))
    } else if c.grpc_connect_timeout_ms == 0 {
        Err(ConfigErrorView::ConnectTimeoutZero)
    } else if c.grpc_rpc_timeout_ms == 0 {
        Err(ConfigErrorView::RpcTimeoutZero)
    } else {
        Ok(())
    }
}

/// The time in milliseconds after which the load balancer gives up on the agent.
pub const HAPROXY_TIMEOUT_MS: u64 = 2000;

impl ConfigView {
    /// Connect and call timeout together, in milliseconds.
    pub open spec fn total_timeout_ms(self) -> nat {
        (self.grpc_connect_timeout_ms + self.grpc_rpc_timeout_ms) as nat
    }

    /// The warning about timeouts that together reach the load balancer's own.
    pub open spec fn timeout_warning(self) -> Option<Seq<char>> {
        if self.total_timeout_ms() >= HAPROXY_TIMEOUT_MS {
            Some(
                "WARNING: Total gRPC timeout ("@ + decimal_digits(self.total_timeout_ms())
                    + "ms) is >= 2000ms (HAProxy default timeout). Consider reducing timeouts to avoid agent-check timeouts."@,
            )
        } else {
            None
        }
    }
}

/// What the command line gave; `None` where an option was left out.
#[derive(Debug)]
pub struct CliArgs {
    /// The settings file to read.
    pub config: Option<PathBuf>,
    pub server_port: Option<u16>,
    pub server_bind: Option<String>,
    pub metrics_port: Option<u16>,
    pub metrics_bind: Option<String>,
    /// In milliseconds.
    pub grpc_connect_timeout: Option<u64>,
    /// In milliseconds.
    pub grpc_rpc_timeout: Option<u64>,
    pub log_level: Option<LogLevel>,
    pub log_format: Option<LogFormat>,
}

/// The characters of a text that may be missing.
pub open spec fn text_of(value: Option<String>) -> Option<Seq<char>> {
    match value {
        Some(text) => Some(text@),
        None => None,
    }
}

/// The settings with each one that the command line names replaced.
pub open spec fn cli_applied(base: ConfigView, cli: CliArgs) -> ConfigView {
    ConfigView {
        server_port: cli.server_port.unwrap_or(base.server_port),
        server_bind_address: text_of(cli.server_bind).unwrap_or(base.server_bind_address),
        grpc_connect_timeout_ms: cli.grpc_connect_timeout.unwrap_or(base.grpc_connect_timeout_ms),
        grpc_rpc_timeout_ms: cli.grpc_rpc_timeout.unwrap_or(base.grpc_rpc_timeout_ms),
        metrics_port: cli.metrics_port.unwrap_or(base.metrics_port),
        metrics_bind_address: text_of(cli.metrics_bind).unwrap_or(base.metrics_bind_address),
        log_level: cli.log_level.unwrap_or(base.log_level),
        log_format: cli.log_format.unwrap_or(base.log_format),
    }
}

/// The names of the environment variables that hold settings.
pub const ENV_SERVER_PORT: &'static str = "HAPROXY_AGENT_SERVER_PORT";

pub const ENV_SERVER_BIND: &'static str = "HAPROXY_AGENT_SERVER_BIND";

pub const ENV_METRICS_PORT: &'static str = "HAPROXY_AGENT_METRICS_PORT";

pub const ENV_METRICS_BIND: &'static str = "HAPROXY_AGENT_METRICS_BIND";

pub const ENV_GRPC_CONNECT_TIMEOUT: &'static str = "HAPROXY_AGENT_GRPC_CONNECT_TIMEOUT";

pub const ENV_GRPC_RPC_TIMEOUT: &'static str = "HAPROXY_AGENT_GRPC_RPC_TIMEOUT";

pub const ENV_LOG_LEVEL: &'static str = "HAPROXY_AGENT_LOG_LEVEL";

pub const ENV_LOG_FORMAT: &'static str = "HAPROXY_AGENT_LOG_FORMAT";

/// The values of the environment variables that hold settings; `None` where
/// a variable is not set.
#[derive(Debug, Clone, Default)]
pub struct EnvSettings {
    pub server_port: Option<String>,
    pub server_bind: Option<String>,
    pub metrics_port: Option<String>,
    pub metrics_bind: Option<String>,
    pub grpc_connect_timeout: Option<String>,
    pub grpc_rpc_timeout: Option<String>,
    pub log_level: Option<String>,
    pub log_format: Option<String>,
}

/// Whether a variable is set to something that `read` does not accept.
pub open spec fn unreadable<T>(value: Option<String>, read: spec_fn(Seq<char>) -> Option<T>) -> bool {
    value is Some && read(value->0@) is None
}

/// What a variable contributes: its value as `read` has it, or `base` where the
/// variable is not set.
pub open spec fn setting<T>(value: Option<String>, read: spec_fn(Seq<char>) -> Option<T>, base: T) -> T {
    match value {
        Some(raw) => read(raw@)->0,
        None => base,
    }
}

/// A port as the environment writes it: a decimal number from 0 to 65535.
pub open spec fn env_port(raw: Seq<char>) -> Option<u16> {
    match bounded_decimal(raw, 65535) {
        Some(v) => Some(v as u16),
        None => None,
    }
}

/// A timeout as the environment writes it: a decimal number of 64 bits.
pub open spec fn env_timeout(raw: Seq<char>) -> Option<u64> {
    bounded_decimal(raw, u64::MAX)
}

/// A level as the environment writes it, in letters of either case.
pub open spec fn env_level(raw: Seq<char>) -> Option<LogLevel> {
    level_named(lowercase_of(raw))
}

/// A format as the environment writes it, in letters of either case.
pub open spec fn env_format(raw: Seq<char>) -> Option<LogFormat> {
    format_named(lowercase_of(raw))
}

/// The settings with each one that the environment names replaced, or the
/// first variable that cannot be read: ports, then timeouts, then level and
/// format.
pub open spec fn env_applied(base: ConfigView, env: EnvSettings) -> Result<
    ConfigView,
    ConfigErrorView,
> {
    if unreadable(env.server_port, |raw| env_port(raw)) {
        Err(ConfigErrorView::InvalidServerPort(env.server_port->0@))
    } else if unreadable(env.metrics_port, |raw| env_port(raw)) {
        Err(ConfigErrorView::InvalidMetricsPort(env.metrics_port->0@))
    } else if unreadable(env.grpc_connect_timeout, |raw| env_timeout(raw)) {
        Err(ConfigErrorView::InvalidConnectTimeout(env.grpc_connect_timeout->0@))
    } else if unreadable(env.grpc_rpc_timeout, |raw| env_timeout(raw)) {
        Err(ConfigErrorView::InvalidRpcTimeout(env.grpc_rpc_timeout->0@))
    } else if unreadable(env.log_level, |raw| env_level(raw)) {
        Err(ConfigErrorView::InvalidLogLevel(env.log_level->0@))
    } else if unreadable(env.log_format, |raw| env_format(raw)) {
        Err(ConfigErrorView::InvalidLogFormat(env.log_format->0@))
    } else {
        Ok(
            ConfigView {
                server_port: setting(env.server_port, |raw| env_port(raw), base.server_port),
                server_bind_address: text_of(env.server_bind).unwrap_or(base.server_bind_address),
                grpc_connect_timeout_ms: setting(
                    env.grpc_connect_timeout,
                    |raw| env_timeout(raw),
                    base.grpc_connect_timeout_ms,
                ),
                grpc_rpc_timeout_ms: setting(
                    env.grpc_rpc_timeout,
                    |raw| env_timeout(raw),
                    base.grpc_rpc_timeout_ms,
                ),
                metrics_port: setting(env.metrics_port, |raw| env_port(raw), base.metrics_port),
                metrics_bind_address: text_of(env.metrics_bind).unwrap_or(
                    base.metrics_bind_address,
                ),
                log_level: setting(env.log_level, |raw| env_level(raw), base.log_level),
                log_format: setting(env.log_format, |raw| env_format(raw), base.log_format),
            },
        )
    }
}

/// The settings that the sources give together: those of the file where one
/// was read, else the defaults with the environment applied; then the
/// command line on top; then the rules.
pub open spec fn loaded(cli: CliArgs, env: EnvSettings, file: Option<ConfigView>) -> Result<
    ConfigView,
    ConfigErrorView,
> {
    let base = match file {
        Some(settings) => Ok(settings),
        None => env_applied(default_settings(), env),
    };
    match base {
        Err(error) => Err(error),
        Ok(settings) => {
            let merged = cli_applied(settings, cli);
            match validation(merged) {
                Err(error) => Err(error),
                Ok(_) => Ok(merged),
            }
        },
    }
}

/// Whether `result` is `expected`, each side taken by its view.
pub open spec fn agrees(
    result: Result<AgentConfig, ConfigError>,
    expected: Result<ConfigView, ConfigErrorView>,
) -> bool {
    match result {
        Ok(config) => expected == Ok::<ConfigView, ConfigErrorView>(config@),
        Err(error) => expected == Err::<ConfigView, ConfigErrorView>(error@),
    }
}

impl AgentConfig {
    /// A second record with the same settings.
    pub fn duplicate(&self) -> (copy: Self)
        ensures
            copy@ == self@,
    {
        AgentConfig {
            server_port: self.server_port,
            server_bind_address: self.server_bind_address.clone(),
            grpc_connect_timeout_ms: self.grpc_connect_timeout_ms,
            grpc_rpc_timeout_ms: self.grpc_rpc_timeout_ms,
            metrics_port: self.metrics_port,
            metrics_bind_address: self.metrics_bind_address.clone(),
            log_level: self.log_level,
            log_format: self.log_format,
        }
    }

    /// Checks the rules on a finished record.
    pub fn validate(&self) -> (result: Result<(), ConfigError>)
        ensures
            match result {
                Ok(_) => validation(self@) is Ok,
                Err(error) => validation(self@) == Err::<(), ConfigErrorView>(error@),
            },
    {
        if self.server_port == 0 {
            return Err(ConfigError::ServerPortZero);
        }
        if self.metrics_port == 0 {
            return Err(ConfigError::MetricsPortZero);
        }
        if self.server_port == self.metrics_port {
            return Err(ConfigError::PortConflict(self.server_port));
        }
        if self.grpc_connect_timeout_ms == 0 {
            return Err(ConfigError::ConnectTimeoutZero);
        }
        if self.grpc_rpc_timeout_ms == 0 {
            return Err(ConfigError::RpcTimeoutZero);
        }
        Ok(())
    }

    /// The warning to print where connect and call timeout together reach the
    /// time after which the load balancer gives up on the agent.
    pub fn timeout_warning(&self) -> (warning: Option<String>)
        ensures
            text_of(warning) == self@.timeout_warning(),
    {
        let total: u128 = self.grpc_connect_timeout_ms as u128 + self.grpc_rpc_timeout_ms as u128;
        if total >= HAPROXY_TIMEOUT_MS as u128 {
            let number = decimal_string(total);
            let mut text = String::from_str("WARNING: Total gRPC timeout (");
            text.append(number.as_str());
            text.append(
                "ms) is >= 2000ms (HAProxy default timeout). Consider reducing timeouts to avoid agent-check timeouts.",
            );
            Some(text)
        } else {
            None
        }
    }

    /// Replaces each setting that the environment names.
    pub fn load_from_env(config: AgentConfig, env: &EnvSettings) -> (result: Result<
        AgentConfig,
        ConfigError,
    >)
        ensures
            agrees(result, env_applied(config@, *env)),
    {
        let mut config = config;
        if let Some(raw) = &env.server_port {
            match parse_unsigned(raw.as_str(), 65535) {
                Some(port) => {
                    config.server_port = port as u16;
                },
                None => {
                    return Err(ConfigError::InvalidServerPort(raw.clone()));
                },
            }
        }
        if let Some(bind) = &env.server_bind {
            config.server_bind_address = bind.clone();
        }
        if let Some(raw) = &env.metrics_port {
            match parse_unsigned(raw.as_str(), 65535) {
                Some(port) => {
                    config.metrics_port = port as u16;
                },
                None => {
                    return Err(ConfigError::InvalidMetricsPort(raw.clone()));
                },
            }
        }
        if let Some(bind) = &env.metrics_bind {
            config.metrics_bind_address = bind.clone();
        }
        if let Some(raw) = &env.grpc_connect_timeout {
            match parse_unsigned(raw.as_str(), u64::MAX) {
                Some(timeout) => {
                    config.grpc_connect_timeout_ms = timeout;
                },
                None => {
                    return Err(ConfigError::InvalidConnectTimeout(raw.clone()));
                },
            }
        }
        if let Some(raw) = &env.grpc_rpc_timeout {
            match parse_unsigned(raw.as_str(), u64::MAX) {
                Some(timeout) => {
                    config.grpc_rpc_timeout_ms = timeout;
                },
                None => {
                    return Err(ConfigError::InvalidRpcTimeout(raw.clone()));
                },
            }
        }
        if let Some(raw) = &env.log_level {
            match parse_log_level(raw.as_str()) {
                Some(level) => {
                    config.log_level = level;
                },
                None => {
                    return Err(ConfigError::InvalidLogLevel(raw.clone()));
                },
            }
        }
        if let Some(raw) = &env.log_format {
            match parse_log_format(raw.as_str()) {
                Some(format) => {
                    config.log_format = format;
                },
                None => {
                    return Err(ConfigError::InvalidLogFormat(raw.clone()));
                },
            }
        }
        Ok(config)
    }

    /// Replaces each setting that the command line names.
    pub fn apply_cli_overrides(config: AgentConfig, cli: CliArgs) -> (merged: Self)
        ensures
            merged@ == cli_applied(config@, cli),
    {
        let mut config = config;
        if let Some(port) = cli.server_port {
            config.server_port = port;
        }
        if let Some(bind) = cli.server_bind {
            config.server_bind_address = bind;
        }
        if let Some(port) = cli.metrics_port {
            config.metrics_port = port;
        }
        if let Some(bind) = cli.metrics_bind {
            config.metrics_bind_address = bind;
        }
        if let Some(timeout) = cli.grpc_connect_timeout {
            config.grpc_connect_timeout_ms = timeout;
        }
        if let Some(timeout) = cli.grpc_rpc_timeout {
            config.grpc_rpc_timeout_ms = timeout;
        }
        if let Some(level) = cli.log_level {
            config.log_level = level;
        }
        if let Some(format) = cli.log_format {
            config.log_format = format;
        }
        config
    }

    /// Puts the sources together, the command line over the file or the
    /// environment over the defaults, and checks the rules. `file` is what the
    /// settings file that the command line names holds; without such a file
    /// the environment is consulted.
    pub fn load(cli_args: CliArgs, env: &EnvSettings, file: Option<AgentConfig>) -> (result:
        Result<AgentConfig, ConfigError>)
        ensures
            agrees(
                result,
                loaded(
                    cli_args,
                    *env,
                    match file {
                        Some(settings) => Some(settings@),
                        None => None,
                    },
                ),
            ),
    {
        let base = match file {
            Some(settings) => settings,
            None => {
                match Self::load_from_env(AgentConfig::default(), env) {
                    Ok(settings) => settings,
                    Err(error) => {
                        return Err(error);
                    },
                }
            },
        };
        let merged = Self::apply_cli_overrides(base, cli_args);
        match merged.validate() {
            Ok(_) => Ok(merged),
            Err(error) => Err(error),
        }
    }
}

} // verus!
