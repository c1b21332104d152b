//! The deployment pipeline's decisions: how the generated entrypoint and
//! the Dockerfile are rendered from their templates, what the bundled
//! `config.json` must provide, and what a finished deploy reports.
//! Unpacking the bundle, writing files and driving the image build are the
//! caller's work; every rule about their inputs and outputs lives here.

use vstd::prelude::*;

use crate::errors::Error;
use crate::keys::{function_key, spec_function_key};
use crate::text::{replace_all, spec_camel_handler, spec_replace_all, to_camel_case_handler};

verus! {

/// One environment variable a function is deployed with.
pub struct EnvEntry {
    pub key: String,
    pub value: String,
}

/// The configuration bundled with a function, as `config.json` carries
/// it: the function's name, its runtime, and its environment, which may
/// be absent.
pub struct Config {
    pub function_name: String,
    pub runtime: String,
    pub env: Option<Vec<EnvEntry>>,
}

/// The Dockerfile line one environment variable becomes.
pub open spec fn spec_env_line(e: EnvEntry) -> Seq<char> {
    "ENV "@ + e.key@ + "=\""@ + e.value@ + "\"\n"@
}

/// The Dockerfile `ENV` block: one line per variable, in the order given.
pub open spec fn spec_envs_to_string(envs: Seq<EnvEntry>) -> Seq<char>
    decreases envs.len(),
{
    if envs.len() == 0 {
        Seq::<char>::empty()
    } else {
        spec_envs_to_string(envs.drop_last()) + spec_env_line(envs.last())
    }
}

/// Render the environment of a function as Dockerfile `ENV` lines,
/// `ENV key="value"` each, in the order the entries are given.
pub fn envs_to_string(envs: &Vec<EnvEntry>) -> (r: String)
    ensures
        r@ == spec_envs_to_string(envs@),
{
    let n: usize = envs.len();
    let mut out: String = String::new();
    let mut i: usize = 0;
    while i < n
        invariant
            i <= n,
            n == envs@.len(),
            out@ == spec_envs_to_string(envs@.take(i as int)),
        decreases n - i,
    {
        let e = &envs[i];
        out.append("ENV ");
        out.append(e.key.as_str());
        out.append("=\"");
        out.append(e.value.as_str());
        out.append("\"\n");
        proof {
            assert(envs@.take(i + 1).drop_last() =~= envs@.take(i as int));
            assert(envs@.take(i + 1).last() == envs@[i as int]);
            assert(out@ =~= spec_envs_to_string(envs@.take(i + 1)));
        }
        i = i + 1;
    }
    proof {
        assert(envs@.take(n as int) =~= envs@);
    }
    out
}

/// What the generated entrypoint source is: the template with every
/// `{{ROUTE}}` replaced by the function's name and then every
/// `{{HANDLER}}` by the derived handler name.
pub open spec fn spec_entrypoint_source(template: Seq<char>, name: Seq<char>) -> Seq<char> {
    spec_replace_all(
        spec_replace_all(template, "{{ROUTE}}"@, name),
        "{{HANDLER}}"@,
        spec_camel_handler(name),
    )
}

/// Render the entrypoint written into a fresh workspace.
pub fn entrypoint_source(template: &str, name: &str) -> (r: String)
    ensures
        r@ == spec_entrypoint_source(template@, name@),
{
    proof {
        reveal_strlit("{{ROUTE}}");
        reveal_strlit("{{HANDLER}}");
    }
    let handler = to_camel_case_handler(name);
    let routed = replace_all(template, "{{ROUTE}}", name);
    replace_all(routed.as_str(), "{{HANDLER}}", handler.as_str())
}

/// What the rendered Dockerfile is: the template with every
/// `{{FUNCTION}}` replaced by the function's name and then every
/// `{{ENV}}` by the environment block.
pub open spec fn spec_dockerfile_source(
    template: Seq<char>,
    name: Seq<char>,
    envs: Seq<EnvEntry>,
) -> Seq<char> {
    spec_replace_all(
        spec_replace_all(template, "{{FUNCTION}}"@, name),
        "{{ENV}}"@,
        spec_envs_to_string(envs),
    )
}

/// Render the Dockerfile an image is built from.
pub fn dockerfile_source(template: &str, name: &str, envs: &Vec<EnvEntry>) -> (r: String)
    ensures
        r@ == spec_dockerfile_source(template@, name@, envs@),
{
    proof {
        reveal_strlit("{{FUNCTION}}");
        reveal_strlit("{{ENV}}");
    }
    let env_block = envs_to_string(envs);
    let named = replace_all(template, "{{FUNCTION}}", name);
    replace_all(named.as_str(), "{{ENV}}", env_block.as_str())
}

/// What the bundle's configuration must provide: the file itself, and an
/// environment block inside it. A bundle without `config.json` and one
/// whose configuration has no environment are both rejected as bad
/// functions, each with its own reason.
pub fn config_envs(config: Option<Config>) -> (r: Result<Vec<EnvEntry>, Error>)
    ensures
        match config {
            None => r matches Err(Error::BadFunction(m)) && m@
                == "function does not include config file"@,
            Some(c) => match c.env {
                None => r matches Err(Error::BadFunction(m)) && m@
                    == "missing environment configuration"@,
                Some(envs) => r matches Ok(e) && e@ == envs@,
            },
        },
{
    match config {
        None => Err(Error::BadFunction("function does not include config file".to_owned())),
        Some(c) => match c.env {
            None => Err(Error::BadFunction("missing environment configuration".to_owned())),
            Some(envs) => Ok(envs),
        },
    }
}

/// What a deploy hands to the image build: the tag the image is pushed
/// under and the Dockerfile it is built from.
pub struct ImagePlan {
    pub image_tag: String,
    pub dockerfile: String,
}

/// Decide the image build of a deploy once the bundle is unpacked and its
/// configuration read: a usable configuration yields the image tag (the
/// function key of name and owner) and the Dockerfile rendered with the
/// function's name and its environment; a missing file or a missing
/// environment rejects the bundle exactly as `config_envs` does.
pub fn image_plan(
    dockerfile_template: &str,
    name: &str,
    user_uuid: &str,
    config: Option<Config>,
) -> (r: Result<ImagePlan, Error>)
    ensures
        match config {
            None => r matches Err(Error::BadFunction(m)) && m@
                == "function does not include config file"@,
            Some(c) => match c.env {
                None => r matches Err(Error::BadFunction(m)) && m@
                    == "missing environment configuration"@,
                Some(envs) => r matches Ok(plan) && plan.image_tag@ == spec_function_key(
                    name@,
                    user_uuid@,
                ) && plan.dockerfile@ == spec_dockerfile_source(
                    dockerfile_template@,
                    name@,
                    envs@,
                ),
            },
        },
{
    let envs = match config_envs(config) {
        Ok(envs) => envs,
        Err(e) => {
            return Err(e);
        },
    };
    let image_tag = function_key(name, user_uuid);
    let dockerfile = dockerfile_source(dockerfile_template, name, &envs);
    Ok(ImagePlan { image_tag, dockerfile })
}

/// What a finished deploy reports.
pub open spec fn spec_deploy_success(name: Seq<char>) -> Seq<char> {
    "Function '"@ + name + "' deployed successfully"@
}

/// The body a successful deploy answers with.
pub fn deploy_success_message(name: &str) -> (r: String)
    ensures
        r@ == spec_deploy_success(name@),
{
    let mut out: String = "Function '".to_owned();
    out.append(name);
    out.append("' deployed successfully");
    proof {
        assert(out@ =~= spec_deploy_success(name@));
    }
    out
}

} // verus!
