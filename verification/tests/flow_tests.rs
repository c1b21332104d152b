//! The deploy and invoke story end to end, on the library's decisions:
//! a user deploys `hello`, the catalog and cache behave, and a second
//! user's namespace stays apart.

use invok::cache::{FunctionAddr, InstanceCache};
use invok::catalog::{Catalog, FunctionRecord};
use invok::deploy::{deploy_success_message, entrypoint_source, image_plan, Config, EnvEntry};
use invok::keys::function_key;
use invok::scheduler::{after_run, check_function_status, container_details, plan_start, InvokeStep};
use invok::surface::function_summaries;

const USER_U: &str = "123e4567-e89b-12d3-a456-426614174000";
const USER_V: &str = "00000000-0000-0000-0000-000000000000";

fn hello_config() -> Config {
    Config {
        function_name: String::from("hello"),
        runtime: String::from("go"),
        env: Some(vec![EnvEntry { key: String::from("FOO"), value: String::from("bar") }]),
    }
}

#[test]
fn happy_deploy_builds_registers_and_lists() {
    // the generated handler answers the function's route
    let entry = entrypoint_source(
        "func {{HANDLER}}() { serve(\"/{{ROUTE}}\", \"Hello World!\") }",
        "hello",
    );
    assert_eq!(entry, "func HelloHandler() { serve(\"/hello\", \"Hello World!\") }");
    assert!(entry.contains("Hello World!"));

    // the image build: key-tagged, environment in the Dockerfile
    let plan = image_plan("FROM base\n{{ENV}}RUN use {{FUNCTION}}\n", "hello", USER_U, Some(hello_config()))
        .expect("a complete bundle deploys");
    assert_eq!(plan.image_tag, "hello-3b32b2dc");
    assert_eq!(plan.dockerfile, "FROM base\nENV FOO=\"bar\"\nRUN use hello\n");

    // the catalog row and the list reply
    let mut catalog = Catalog::new();
    assert!(catalog.register(FunctionRecord {
        uuid: String::from("f-1"),
        name: String::from("hello"),
        runtime: String::from("go"),
        owner_uuid: String::from(USER_U),
    }));
    let summaries = function_summaries(&catalog.find_by_user(USER_U));
    assert_eq!(summaries.len(), 1);
    assert_eq!(summaries[0].name, "hello");
    assert_eq!(summaries[0].runtime, "go");

    assert_eq!(deploy_success_message("hello"), "Function 'hello' deployed successfully");
}

#[test]
fn cold_then_warm_invoke_reuses_the_instance() {
    let key = function_key("hello", USER_U);
    let mut cache = InstanceCache::new();

    // first call: registered, nothing cached, a container is started
    assert!(check_function_status(true, "hello").is_ok());
    let details = container_details(42, String::from("invok-run-1"), String::from("invok-net"));
    let ttl = details.timeout;
    let addr = match plan_start(cache.get_function(&key, 1000), details) {
        InvokeStep::Start(details) => after_run(true, "hello", &details).unwrap(),
        InvokeStep::UseCached(_) => panic!("the first call must start a container"),
    };
    assert_eq!(addr, "invok-run-1:8080");
    assert!(cache.add_function(
        FunctionAddr { name: key.clone(), addr: addr.clone() },
        1000,
        ttl,
    ));

    // second call within the TTL: the cached address is reused, no start
    let again = match plan_start(
        cache.get_function(&key, 1000 + ttl - 1),
        container_details(43, String::from("invok-run-2"), String::from("invok-net")),
    ) {
        InvokeStep::UseCached(addr) => addr,
        InvokeStep::Start(_) => panic!("a live instance must be reused"),
    };
    assert_eq!(again, addr);
}

#[test]
fn wrong_namespace_does_not_see_the_function() {
    let mut catalog = Catalog::new();
    assert!(catalog.register(FunctionRecord {
        uuid: String::from("f-1"),
        name: String::from("hello"),
        runtime: String::from("go"),
        owner_uuid: String::from(USER_U),
    }));
    // V never deployed hello
    let registered = catalog.find_by_name(USER_V, "hello").is_some();
    match check_function_status(registered, "hello") {
        Err(e) => {
            let (status, body) = e.to_http_response();
            assert_eq!(status, 404);
            assert_eq!(body, "Function not found: hello");
        }
        Ok(()) => panic!("another namespace must not reach the function"),
    }
    // and the two namespaces never share an image tag
    assert_ne!(function_key("hello", USER_U), function_key("hello", USER_V));
}
