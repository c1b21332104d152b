use invok::config::{
    AppConfig, ConfigError, EnvValues, FunctionConfig, InvokConfig, InvokConfigError,
    InvokServerConfig, ServerConfig,
};

fn full_env() -> EnvValues {
    EnvValues {
        redis_url: Some(String::from("redis://cache:6379")),
        database_url: Some(String::from("postgres://db/invok")),
        docker_host: Some(String::from("unix:///var/run/docker.sock")),
        docker_compose_network: Some(String::from("invok-net")),
        auth_jwt_secret: Some(String::from("SECRET-REDACTED")),
        server_host: Some(String::from("127.0.0.1")),
        server_port: Some(String::from("8088")),
        default_runtime: Some(String::from("go")),
        max_function_size: Some(String::from("1048576")),
    }
}

fn minimal_env() -> EnvValues {
    EnvValues {
        redis_url: Some(String::from("redis://cache:6379")),
        database_url: Some(String::from("postgres://db/invok")),
        docker_host: Some(String::from("unix:///var/run/docker.sock")),
        docker_compose_network: Some(String::from("invok-net")),
        auth_jwt_secret: Some(String::from("SECRET-REDACTED")),
        server_host: None,
        server_port: None,
        default_runtime: None,
        max_function_size: None,
    }
}

#[test]
fn full_environment_is_taken_as_given() {
    let c = AppConfig::load(&full_env()).expect("a full environment loads");
    assert_eq!(c.server.redis_url, "redis://cache:6379");
    assert_eq!(c.server.host, "127.0.0.1");
    assert_eq!(c.server.port, 8088);
    assert_eq!(c.function.default_runtime, "go");
    assert_eq!(c.function.max_function_size, 1048576);
}

#[test]
fn optional_variables_have_defaults() {
    let c = AppConfig::load(&minimal_env()).expect("required variables suffice");
    assert_eq!(c.server.host, "0.0.0.0");
    assert_eq!(c.server.port, 3000);
    assert_eq!(c.function.default_runtime, "go");
    assert_eq!(c.function.max_function_size, 10 * 1024 * 1024);
}

#[test]
fn missing_required_variables_are_named() {
    let mut env = minimal_env();
    env.redis_url = None;
    match ServerConfig::from_values(&env) {
        Err(ConfigError::MissingVar(v)) => assert_eq!(v, "REDIS_URL"),
        _ => panic!("a missing REDIS_URL must be reported"),
    }
    let mut env = minimal_env();
    env.database_url = None;
    match ServerConfig::from_values(&env) {
        Err(ConfigError::MissingVar(v)) => assert_eq!(v, "DATABASE_URL"),
        _ => panic!("a missing DATABASE_URL must be reported"),
    }
}

#[test]
fn bad_port_is_rejected() {
    let mut env = minimal_env();
    env.server_port = Some(String::from("eighty"));
    match ServerConfig::from_values(&env) {
        Err(ConfigError::InvalidValue(v)) => assert_eq!(v, "SERVER_PORT"),
        _ => panic!("an unparsable port must be rejected"),
    }
    let mut env = minimal_env();
    env.server_port = Some(String::from("70000"));
    assert!(ServerConfig::from_values(&env).is_err());
}

#[test]
fn bad_size_cap_falls_back_to_the_default() {
    let mut env = minimal_env();
    env.max_function_size = Some(String::from("lots"));
    let f = FunctionConfig::from_values(&env);
    assert_eq!(f.max_function_size, 10 * 1024 * 1024);
}

#[test]
fn later_generation_requires_the_docker_variables() {
    let c = InvokConfig::load(&minimal_env()).expect("required variables suffice");
    assert_eq!(c.server_config.docker_compose_network_host, "invok-net");
    assert_eq!(c.server_config.jwt_auth_secret, "SECRET-REDACTED");
    assert_eq!(c.server_config.port, 3000);

    let mut env = minimal_env();
    env.docker_host = None;
    match InvokServerConfig::from_values(&env) {
        Err(InvokConfigError::MissingVar(v)) => assert_eq!(v, "DOCKER_HOST"),
        _ => panic!("a missing DOCKER_HOST must be reported"),
    }
    let mut env = minimal_env();
    env.docker_compose_network = None;
    match InvokServerConfig::from_values(&env) {
        Err(InvokConfigError::MissingVar(v)) => assert_eq!(v, "DOCKER_COMPOSE_NETWORK"),
        _ => panic!("a missing DOCKER_COMPOSE_NETWORK must be reported"),
    }
    let mut env = minimal_env();
    env.auth_jwt_secret = None;
    match InvokServerConfig::from_values(&env) {
        Err(InvokConfigError::MissingVar(v)) => assert_eq!(v, "AUTH_JWT_SECRET"),
        _ => panic!("a missing AUTH_JWT_SECRET must be reported"),
    }
}

#[test]
fn later_generation_reports_the_port_value() {
    let mut env = minimal_env();
    env.server_port = Some(String::from("eighty"));
    match InvokServerConfig::from_values(&env) {
        Err(InvokConfigError::InvalidPort(p)) => assert_eq!(p, "eighty"),
        _ => panic!("an unparsable port must be reported with its value"),
    }
}
