//! The command-line client's decisions: the endpoints of the hosted
//! platform, the shapes of its credential and session records, and the
//! checks it runs before deploying a project.

use vstd::prelude::*;

use crate::text::str_eq;

verus! {

/// The URL of the login endpoint.
pub fn auth_login_url() -> (r: String)
    ensures
        r@ == "https://freeserverless.com"@ + "/auth/login"@,
{
    let mut r: String = "https://freeserverless.com".to_owned();
    r.append("/auth/login");
    r
}

/// The URL of the registration endpoint.
pub fn auth_register_url() -> (r: String)
    ensures
        r@ == "https://freeserverless.com"@ + "/auth/register"@,
{
    let mut r: String = "https://freeserverless.com".to_owned();
    r.append("/auth/register");
    r
}

/// The URL a bundle is uploaded to.
pub fn function_upload_url() -> (r: String)
    ensures
        r@ == "https://freeserverless.com"@ + "/invok/deploy"@,
{
    let mut r: String = "https://freeserverless.com".to_owned();
    r.append("/invok/deploy");
    r
}

/// The URL the function list is fetched from.
pub fn function_list_url() -> (r: String)
    ensures
        r@ == "https://freeserverless.com"@ + "/invok/list"@,
{
    let mut r: String = "https://freeserverless.com".to_owned();
    r.append("/invok/list");
    r
}

/// The Authorization header value carrying a session's token.
pub fn bearer_header(token: &str) -> (r: String)
    ensures
        r@ == "Bearer "@ + token@,
{
    let mut r: String = "Bearer ".to_owned();
    r.append(token);
    r
}

/// The credentials sent to register or log in.
pub struct Credentials {
    pub email: String,
    pub password: String,
}

/// What the platform answers a login or registration with.
pub struct AuthResponse {
    pub token: String,
    pub user: UserResponse,
}

/// The user part of an authentication response.
pub struct UserResponse {
    pub uuid: String,
    pub email: String,
}

/// The session the client keeps between runs.
pub struct AuthSession {
    pub token: String,
    pub user_uuid: String,
    pub email: String,
}

/// The project-wide configuration file of a workspace: the functions it
/// holds and their runtime.
pub struct GlobalConfig {
    pub function_name: Vec<String>,
    pub runtime: String,
}

/// Whether a workspace knows a function of this name; deploying an
/// unknown name is refused before anything is packed.
pub fn function_known(config: &GlobalConfig, name: &str) -> (r: bool)
    ensures
        r == exists|i: int|
            0 <= i < config.function_name@.len() && (#[trigger] config.function_name@[i])@
                == name@,
{
    let n: usize = config.function_name.len();
    let mut i: usize = 0;
    while i < n
        invariant
            i <= n,
            n == config.function_name@.len(),
            forall|k: int| 0 <= k < i ==> (#[trigger] config.function_name@[k])@ != name@,
        decreases n - i,
    {
        if str_eq(config.function_name[i].as_str(), name) {
            return true;
        }
        i = i + 1;
    }
    false
}

} // verus!
