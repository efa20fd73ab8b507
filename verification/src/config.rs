//! The configuration of the server.

use vstd::prelude::*;
use crate::text::{text_or, text_or_default};

verus! {

/// The number that a text denotes, as `str::parse::<u16>` reads it.
pub uninterp spec fn parsed_u16(text: Seq<char>) -> Option<u16>;

/// The number that a text denotes, as `str::parse::<u32>` reads it.
pub uninterp spec fn parsed_u32(text: Seq<char>) -> Option<u32>;

/// The number that a text denotes, as `str::parse::<i64>` reads it.
pub uninterp spec fn parsed_i64(text: Seq<char>) -> Option<i64>;

/// The number that a text denotes, as `str::parse::<usize>` reads it.
pub uninterp spec fn parsed_usize(text: Seq<char>) -> Option<usize>;

/// `str::parse::<u16>`: a decimal number in the range of `u16`, or nothing.
#[verifier::external_body]
fn parse_u16(text: &str) -> (number: Option<u16>)
    ensures
        number == parsed_u16(text@),
{
    text.parse::<u16>().ok()
}

/// `str::parse::<u32>`: a decimal number in the range of `u32`, or nothing.
#[verifier::external_body]
fn parse_u32(text: &str) -> (number: Option<u32>)
    ensures
        number == parsed_u32(text@),
{
    text.parse::<u32>().ok()
}

/// `str::parse::<i64>`: a decimal number in the range of `i64`, or nothing.
#[verifier::external_body]
fn parse_i64(text: &str) -> (number: Option<i64>)
    ensures
        number == parsed_i64(text@),
{
    text.parse::<i64>().ok()
}

/// `str::parse::<usize>`: a decimal number in the range of `usize`, or nothing.
#[verifier::external_body]
fn parse_usize(text: &str) -> (number: Option<usize>)
    ensures
        number == parsed_usize(text@),
{
    text.parse::<usize>().ok()
}

/// Where the server listens.
#[derive(Debug)]
pub struct ServerConfig {
    pub host: String,
    pub port: u16,
}

/// How to reach the relational store.
#[derive(Debug)]
pub struct DatabaseConfig {
    pub url: String,
    pub max_connections: u32,
}

/// How to reach the cache.
#[derive(Debug)]
pub struct RedisConfig {
    pub url: String,
}

/// The signing secret of tokens and their lifetime in seconds.
#[derive(Debug)]
pub struct JwtConfig {
    pub secret: String,
    pub expiration: i64,
}

/// Where uploaded files go.
#[derive(Debug)]
pub struct StorageConfig {
    pub s3_endpoint: String,
    pub s3_access_key: String,
    pub s3_secret_key: String,
    pub s3_bucket: String,
    pub s3_region: String,
    pub max_file_size: usize,
    pub upload_dir: String,
}

/// The origin that may call the interface from a browser.
#[derive(Debug)]
pub struct CorsConfig {
    pub origin: String,
}

/// The whole configuration.
#[derive(Debug)]
pub struct Config {
    pub server: ServerConfig,
    pub database: DatabaseConfig,
    pub redis: RedisConfig,
    pub jwt: JwtConfig,
    pub storage: StorageConfig,
    pub cors: CorsConfig,
}

/// The variables of the environment that the configuration is read from, each
/// as it was found.
#[derive(Debug)]
pub struct Environment {
    pub host: Option<String>,
    pub port: Option<String>,
    pub database_url: Option<String>,
    pub database_max_connections: Option<String>,
    pub redis_url: Option<String>,
    pub jwt_secret: Option<String>,
    pub jwt_expiration: Option<String>,
    pub s3_endpoint: Option<String>,
    pub s3_access_key: Option<String>,
    pub s3_secret_key: Option<String>,
    pub s3_bucket: Option<String>,
    pub s3_region: Option<String>,
    pub max_file_size: Option<String>,
    pub upload_dir: Option<String>,
    pub cors_origin: Option<String>,
}

/// Why no configuration can be read from an environment.
#[derive(Debug, Clone, Copy, PartialEq, Eq, Structural)]
pub enum ConfigError {
    /// `PORT` is set and is no port number.
    InvalidPort,
    /// `DATABASE_URL` is not set.
    MissingDatabaseUrl,
    /// `JWT_SECRET` is not set.
    MissingJwtSecret,
}

/// The number of connections to the store where none is configured.
pub const DEFAULT_MAX_CONNECTIONS: u32 = 10;

/// The lifetime of a token in seconds where none is configured: one day.
pub const DEFAULT_JWT_EXPIRATION: i64 = 86400;

/// The largest size of an uploaded file in bytes where none is configured.
pub const DEFAULT_MAX_FILE_SIZE: usize = 10485760;

/// The port where none is configured.
pub const DEFAULT_PORT: u16 = 3000;

/// The port that the environment configures: the default where `PORT` is not
/// set, the number it denotes where it is set, none where it denotes no port.
pub open spec fn configured_port(port: Option<String>) -> Option<u16> {
    match port {
        None => Some(DEFAULT_PORT),
        Some(text) => parsed_u16(text@),
    }
}

/// The number of connections that the environment configures: the default
/// where the variable is not set or holds no number, else the number it holds.
pub open spec fn configured_connections(variable: Option<String>) -> u32 {
    match variable {
        None => DEFAULT_MAX_CONNECTIONS,
        Some(text) => match parsed_u32(text@) {
            Some(n) => n,
            None => DEFAULT_MAX_CONNECTIONS,
        },
    }
}

/// The lifetime of a token that the environment configures: the default where
/// the variable is not set or holds no number, else the number it holds.
pub open spec fn configured_expiration(variable: Option<String>) -> i64 {
    match variable {
        None => DEFAULT_JWT_EXPIRATION,
        Some(text) => match parsed_i64(text@) {
            Some(n) => n,
            None => DEFAULT_JWT_EXPIRATION,
        },
    }
}

/// The largest size of a file that the environment configures: the default
/// where the variable is not set or holds no number, else the number it holds.
pub open spec fn configured_file_size(variable: Option<String>) -> usize {
    match variable {
        None => DEFAULT_MAX_FILE_SIZE,
        Some(text) => match parsed_usize(text@) {
            Some(n) => n,
            None => DEFAULT_MAX_FILE_SIZE,
        },
    }
}

/// Why no configuration can be read from `env`, if none can: the first variable
/// at fault, in the order port, store, secret.
pub open spec fn config_fault(env: Environment) -> Option<ConfigError> {
    if configured_port(env.port) is None {
        Some(ConfigError::InvalidPort)
    } else if env.database_url is None {
        Some(ConfigError::MissingDatabaseUrl)
    } else if env.jwt_secret is None {
        Some(ConfigError::MissingJwtSecret)
    } else {
        None
    }
}

/// `config` is what `env` configures: each variable that is set, and its
/// default for each that is not.
pub open spec fn configures(env: Environment, config: Config) -> bool {
    &&& config.server.host@ == text_or(env.host, "0.0.0.0"@)
    &&& Some(config.server.port) == configured_port(env.port)
    &&& Some(config.database.url) == env.database_url
    &&& config.database.max_connections == configured_connections(env.database_max_connections)
    &&& config.redis.url@ == text_or(env.redis_url, "redis://localhost:6379"@)
    &&& Some(config.jwt.secret) == env.jwt_secret
    &&& config.jwt.expiration == configured_expiration(env.jwt_expiration)
    &&& config.storage.s3_endpoint@ == text_or(env.s3_endpoint, "http://localhost:9000"@)
    &&& config.storage.s3_access_key@ == text_or(env.s3_access_key, "minioadmin"@)
    &&& config.storage.s3_secret_key@ == text_or(env.s3_secret_key, "minioadmin"@)
    &&& config.storage.s3_bucket@ == text_or(env.s3_bucket, "taskforge-files"@)
    &&& config.storage.s3_region@ == text_or(env.s3_region, "us-east-1"@)
    &&& config.storage.max_file_size == configured_file_size(env.max_file_size)
    &&& config.storage.upload_dir@ == text_or(env.upload_dir, "./uploads"@)
    &&& config.cors.origin@ == text_or(env.cors_origin, "http://localhost:8080"@)
}

impl Config {
    /// Reads the configuration from the variables of the environment. The
    /// address of the store and the signing secret must be set; a port that is
    /// set must be a port number. Every other variable has a default, which also
    /// stands in for a number that cannot be read.
    pub fn from_env(env: Environment) -> (config: Result<Config, ConfigError>)
        ensures
            match config {
                Ok(c) => config_fault(env) is None && configures(env, c),
                Err(e) => config_fault(env) == Some(e),
            },
    {
        let host = text_or_default(env.host, "0.0.0.0");
        let port = match &env.port {
            None => DEFAULT_PORT,
            Some(text) => match parse_u16(text.as_str()) {
                Some(p) => p,
                None => {
                    return Err(ConfigError::InvalidPort);
                },
            },
        };
        let url = match env.database_url {
            Some(u) => u,
            None => {
                return Err(ConfigError::MissingDatabaseUrl);
            },
        };
        let max_connections = match &env.database_max_connections {
            None => DEFAULT_MAX_CONNECTIONS,
            Some(text) => match parse_u32(text.as_str()) {
                Some(n) => n,
                None => DEFAULT_MAX_CONNECTIONS,
            },
        };
        let redis_url = text_or_default(env.redis_url, "redis://localhost:6379");
        let secret = match env.jwt_secret {
            Some(s) => s,
            None => {
                return Err(ConfigError::MissingJwtSecret);
            },
        };
        let expiration = match &env.jwt_expiration {
            None => DEFAULT_JWT_EXPIRATION,
            Some(text) => match parse_i64(text.as_str()) {
                Some(n) => n,
                None => DEFAULT_JWT_EXPIRATION,
            },
        };
        let max_file_size = match &env.max_file_size {
            None => DEFAULT_MAX_FILE_SIZE,
            Some(text) => match parse_usize(text.as_str()) {
                Some(n) => n,
                None => DEFAULT_MAX_FILE_SIZE,
            },
        };
        Ok(
            Config {
                server: ServerConfig { host, port },
                database: DatabaseConfig { url, max_connections },
                redis: RedisConfig { url: redis_url },
                jwt: JwtConfig { secret, expiration },
                storage: StorageConfig {
                    s3_endpoint: text_or_default(env.s3_endpoint, "http://localhost:9000"),
                    s3_access_key: text_or_default(env.s3_access_key, "minioadmin"),
                    s3_secret_key: text_or_default(env.s3_secret_key, "minioadmin"),
                    s3_bucket: text_or_default(env.s3_bucket, "taskforge-files"),
                    s3_region: text_or_default(env.s3_region, "us-east-1"),
                    max_file_size,
                    upload_dir: text_or_default(env.upload_dir, "./uploads"),
                },
                cors: CorsConfig { origin: text_or_default(env.cors_origin, "http://localhost:8080") },
            },
        )
    }
}

} // verus!
