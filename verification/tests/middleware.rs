use taskforge::config::{
    Config, ConfigError, CorsConfig, DatabaseConfig, Environment, JwtConfig, RedisConfig,
    ServerConfig, StorageConfig,
};
use taskforge::credentials::{generate_token_at, Claims};
use taskforge::error::AppError;
use taskforge::middleware::{auth_middleware, subject_of};
use taskforge::models::AuthUser;
use taskforge::state::AppState;
use taskforge::store::Store;

fn state_with_secret(secret: &str) -> AppState {
    AppState {
        store: Store::new(),
        config: Config {
            server: ServerConfig { host: "h".to_string(), port: 1 },
            database: DatabaseConfig { url: "u".to_string(), max_connections: 1 },
            redis: RedisConfig { url: "r".to_string() },
            jwt: JwtConfig { secret: secret.to_string(), expiration: 60 },
            storage: StorageConfig {
                s3_endpoint: "e".to_string(),
                s3_access_key: "a".to_string(),
                s3_secret_key: "s".to_string(),
                s3_bucket: "b".to_string(),
                s3_region: "r".to_string(),
                max_file_size: 1,
                upload_dir: "d".to_string(),
            },
            cors: CorsConfig { origin: "o".to_string() },
        },
    }
}

fn empty_environment() -> Environment {
    Environment {
        host: None,
        port: None,
        database_url: None,
        database_max_connections: None,
        redis_url: None,
        jwt_secret: None,
        jwt_expiration: None,
        s3_endpoint: None,
        s3_access_key: None,
        s3_secret_key: None,
        s3_bucket: None,
        s3_region: None,
        max_file_size: None,
        upload_dir: None,
        cors_origin: None,
    }
}

#[test]
fn request_without_a_header_is_rejected() {
    let state = state_with_secret("secret");
    let rejection = auth_middleware(&state, None).unwrap_err();
    assert_eq!(rejection.status, 401);
    assert_eq!(rejection.message, "Missing authorization header");
}

#[test]
fn request_with_another_scheme_is_rejected() {
    let state = state_with_secret("secret");
    let rejection = auth_middleware(&state, Some("Basic abc")).unwrap_err();
    assert_eq!(rejection.status, 401);
    assert_eq!(
        rejection.message,
        "Invalid authorization header: Authentication error: Invalid authorization header format"
    );
}

#[test]
fn request_with_a_bad_token_is_rejected() {
    let state = state_with_secret("secret");
    let now = chrono::Utc::now().timestamp();
    let foreign = generate_token_at(1, "a@x.com", "other-secret", 60, now).unwrap();
    for token in ["abc", foreign.as_str()] {
        let rejection = auth_middleware(&state, Some(&format!("Bearer {}", token))).unwrap_err();
        assert_eq!(rejection.status, 401);
        assert!(rejection.message.starts_with("Invalid token: Authentication error: Invalid token: "), "{}", rejection.message);
    }
}

#[test]
fn request_with_a_good_token_is_bound_to_its_subject() {
    let state = state_with_secret("secret");
    let now = chrono::Utc::now().timestamp();
    let token = generate_token_at(0x42, "a@x.com", "secret", 60, now).unwrap();
    let subject = auth_middleware(&state, Some(&format!("Bearer {}", token))).unwrap();
    assert_eq!(subject, "00000000-0000-0000-0000-000000000042");
    let user = AuthUser::from_request_parts(Some(&subject)).unwrap();
    assert_eq!(user.user_id, subject);
}

#[test]
fn request_context_without_a_subject_is_rejected() {
    let rejection = AuthUser::from_request_parts(None).unwrap_err();
    assert_eq!(rejection.status, 401);
    assert_eq!(rejection.message, "User ID not found in request");
}

#[test]
fn subject_is_taken_from_valid_claims() {
    let claims = Claims { sub: "s".to_string(), email: "e".to_string(), exp: 2, iat: 1 };
    assert_eq!(subject_of(Ok(claims)).unwrap(), "s");
    let rejection = subject_of(Err(AppError::Authentication("Invalid token: ExpiredSignature".to_string()))).unwrap_err();
    assert_eq!(rejection.status, 401);
    assert_eq!(rejection.message, "Invalid token: Authentication error: Invalid token: ExpiredSignature");
}

#[test]
fn configuration_defaults() {
    let mut env = empty_environment();
    env.database_url = Some("postgres://db".to_string());
    env.jwt_secret = Some("s3cret".to_string());
    let config = Config::from_env(env).unwrap();
    assert_eq!(config.server.host, "0.0.0.0");
    assert_eq!(config.server.port, 3000);
    assert_eq!(config.database.url, "postgres://db");
    assert_eq!(config.database.max_connections, 10);
    assert_eq!(config.redis.url, "redis://localhost:6379");
    assert_eq!(config.jwt.secret, "s3cret");
    assert_eq!(config.jwt.expiration, 86400);
    assert_eq!(config.storage.s3_endpoint, "http://localhost:9000");
    assert_eq!(config.storage.s3_access_key, "minioadmin");
    assert_eq!(config.storage.s3_secret_key, "minioadmin");
    assert_eq!(config.storage.s3_bucket, "taskforge-files");
    assert_eq!(config.storage.s3_region, "us-east-1");
    assert_eq!(config.storage.max_file_size, 10485760);
    assert_eq!(config.storage.upload_dir, "./uploads");
    assert_eq!(config.cors.origin, "http://localhost:8080");
}

#[test]
fn configuration_reads_what_is_set() {
    let env = Environment {
        host: Some("127.0.0.1".to_string()),
        port: Some("8080".to_string()),
        database_url: Some("postgres://db".to_string()),
        database_max_connections: Some("25".to_string()),
        redis_url: Some("redis://cache".to_string()),
        jwt_secret: Some("s3cret".to_string()),
        jwt_expiration: Some("-60".to_string()),
        s3_endpoint: Some("http://s3".to_string()),
        s3_access_key: Some("ak".to_string()),
        s3_secret_key: Some("sk".to_string()),
        s3_bucket: Some("bucket".to_string()),
        s3_region: Some("eu".to_string()),
        max_file_size: Some("1024".to_string()),
        upload_dir: Some("/tmp/up".to_string()),
        cors_origin: Some("https://app".to_string()),
    };
    let config = Config::from_env(env).unwrap();
    assert_eq!((config.server.host.as_str(), config.server.port), ("127.0.0.1", 8080));
    assert_eq!(config.database.max_connections, 25);
    assert_eq!(config.redis.url, "redis://cache");
    assert_eq!(config.jwt.expiration, -60);
    assert_eq!(config.storage.s3_endpoint, "http://s3");
    assert_eq!(config.storage.s3_access_key, "ak");
    assert_eq!(config.storage.s3_secret_key, "sk");
    assert_eq!(config.storage.s3_bucket, "bucket");
    assert_eq!(config.storage.s3_region, "eu");
    assert_eq!(config.storage.max_file_size, 1024);
    assert_eq!(config.storage.upload_dir, "/tmp/up");
    assert_eq!(config.cors.origin, "https://app");
}

#[test]
fn configuration_falls_back_on_unreadable_numbers() {
    let mut env = empty_environment();
    env.database_url = Some("postgres://db".to_string());
    env.jwt_secret = Some("s3cret".to_string());
    env.database_max_connections = Some("many".to_string());
    env.jwt_expiration = Some("1d".to_string());
    env.max_file_size = Some("-1".to_string());
    let config = Config::from_env(env).unwrap();
    assert_eq!(config.database.max_connections, 10);
    assert_eq!(config.jwt.expiration, 86400);
    assert_eq!(config.storage.max_file_size, 10485760);
}

#[test]
fn configuration_needs_port_store_and_secret() {
    let mut env = empty_environment();
    env.port = Some("http".to_string());
    assert_eq!(Config::from_env(env).unwrap_err(), ConfigError::InvalidPort);
    let mut env = empty_environment();
    env.port = Some("65536".to_string());
    env.database_url = Some("postgres://db".to_string());
    env.jwt_secret = Some("s".to_string());
    assert_eq!(Config::from_env(env).unwrap_err(), ConfigError::InvalidPort);
    let mut env = empty_environment();
    env.jwt_secret = Some("s".to_string());
    assert_eq!(Config::from_env(env).unwrap_err(), ConfigError::MissingDatabaseUrl);
    let mut env = empty_environment();
    env.database_url = Some("postgres://db".to_string());
    assert_eq!(Config::from_env(env).unwrap_err(), ConfigError::MissingJwtSecret);
}
