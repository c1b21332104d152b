use invok::deploy::{
    config_envs, deploy_success_message, dockerfile_source, entrypoint_source, envs_to_string,
    Config, EnvEntry,
};
use invok::errors::Error;

fn env(key: &str, value: &str) -> EnvEntry {
    EnvEntry { key: String::from(key), value: String::from(value) }
}

#[test]
fn env_block_one_line_per_entry() {
    let envs = vec![env("FOO", "bar"), env("PORT", "8080")];
    assert_eq!(envs_to_string(&envs), "ENV FOO=\"bar\"\nENV PORT=\"8080\"\n");
    let none: Vec<EnvEntry> = Vec::new();
    assert_eq!(envs_to_string(&none), "");
}

#[test]
fn entrypoint_substitutes_route_and_handler() {
    let template = "r.HandleFunc(\"/{{ROUTE}}\", {{HANDLER}})";
    assert_eq!(
        entrypoint_source(template, "hello-world"),
        "r.HandleFunc(\"/hello-world\", HelloWorldHandler)"
    );
}

#[test]
fn dockerfile_substitutes_function_and_env() {
    let template = "COPY {{FUNCTION}} .\n{{ENV}}CMD [\"./main\"]";
    let envs = vec![env("FOO", "bar")];
    assert_eq!(
        dockerfile_source(template, "hello", &envs),
        "COPY hello .\nENV FOO=\"bar\"\nCMD [\"./main\"]"
    );
}

#[test]
fn missing_config_file_is_a_bad_function() {
    match config_envs(None) {
        Err(e) => {
            let (status, body) = e.to_http_response();
            assert_eq!(status, 400);
            assert!(body.contains("function does not include config file"));
        }
        Ok(_) => panic!("a bundle without config.json must be refused"),
    }
}

#[test]
fn missing_env_is_a_bad_function() {
    let config = Config {
        function_name: String::from("hello"),
        runtime: String::from("go"),
        env: None,
    };
    match config_envs(Some(config)) {
        Err(Error::BadFunction(reason)) => {
            assert_eq!(reason, "missing environment configuration");
        }
        _ => panic!("a config without env must be refused"),
    }
}

#[test]
fn present_env_is_handed_through() {
    let config = Config {
        function_name: String::from("hello"),
        runtime: String::from("go"),
        env: Some(vec![env("FOO", "bar")]),
    };
    match config_envs(Some(config)) {
        Ok(envs) => {
            assert_eq!(envs.len(), 1);
            assert_eq!(envs[0].key, "FOO");
            assert_eq!(envs[0].value, "bar");
        }
        Err(_) => panic!("a complete config must pass"),
    }
}

#[test]
fn success_message_names_the_function() {
    assert_eq!(
        deploy_success_message("hello"),
        "Function 'hello' deployed successfully"
    );
}
