use invok::cli::{
    auth_login_url, auth_register_url, bearer_header, function_known, function_list_url,
    function_upload_url, AuthSession, GlobalConfig,
};

#[test]
fn endpoint_urls() {
    assert_eq!(auth_login_url(), "https://freeserverless.com/auth/login");
    assert_eq!(auth_register_url(), "https://freeserverless.com/auth/register");
    assert_eq!(function_upload_url(), "https://freeserverless.com/invok/deploy");
    assert_eq!(function_list_url(), "https://freeserverless.com/invok/list");
}

#[test]
fn bearer_header_carries_the_token() {
    let session = AuthSession {
        token: String::from("abc.def.ghi"),
        user_uuid: String::from("123e4567-e89b-12d3-a456-426614174000"),
        email: String::from("a@b.c"),
    };
    assert_eq!(bearer_header(&session.token), "Bearer abc.def.ghi");
}

#[test]
fn deploy_checks_the_workspace_config() {
    let config = GlobalConfig {
        function_name: vec![String::from("hello"), String::from("ping")],
        runtime: String::from("go"),
    };
    assert!(function_known(&config, "hello"));
    assert!(function_known(&config, "ping"));
    assert!(!function_known(&config, "absent"));
}
